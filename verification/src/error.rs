//! The category of a failure reported by the SDK.

use vstd::prelude::*;

verus! {

/// The category of a failure reported by the SDK.
#[derive(Debug, Clone, Copy, PartialEq, Eq, Hash, Structural)]
#[non_exhaustive]
pub enum ErrorKind {
    /// The transport failed before a response was received.
    Network,
    /// The server responded with a non-success HTTP status.
    Http,
    /// A call was made before the client reached `Status::Ready`.
    ClientNotReady,
    /// The requested feature is disabled for this application.
    Disabled,
    /// The client was destroyed while the request was in flight.
    ClientDestroyed,
    /// Arguments failed validation before being sent.
    Validation,
    /// The request was cancelled.
    Aborted,
    /// Authorization was rejected or the token was rejected.
    AuthorizationFailed,
    /// The Discord client returned an RPC-level error.
    Rpc,
    /// An error type this binding does not yet name.
    Other(i32),
}

impl ErrorKind {
    /// The kind that the SDK's raw error type `raw` stands for.
    ///
    /// The raw type `0` means "no error"; it is not a failure category and, like
    /// every value the binding does not name, maps to `Other`.
    /// The numbers are the ones the SDK's C header, `cdiscord.h`, gives the
    /// error types.
    pub open spec fn of_raw(raw: i32) -> ErrorKind {
        if raw == 1 {
            ErrorKind::Network
        } else if raw == 2 {
            ErrorKind::Http
        } else if raw == 3 {
            ErrorKind::ClientNotReady
        } else if raw == 4 {
            ErrorKind::Disabled
        } else if raw == 5 {
            ErrorKind::ClientDestroyed
        } else if raw == 6 {
            ErrorKind::Validation
        } else if raw == 7 {
            ErrorKind::Aborted
        } else if raw == 8 {
            ErrorKind::AuthorizationFailed
        } else if raw == 9 {
            ErrorKind::Rpc
        } else {
            ErrorKind::Other(raw)
        }
    }

    /// Convert the SDK's raw error type into a kind.
    pub fn from_raw(raw: i32) -> (r: Self)
        ensures
            r == Self::of_raw(raw),
    {
        match raw {
            1 => ErrorKind::Network,
            2 => ErrorKind::Http,
            3 => ErrorKind::ClientNotReady,
            4 => ErrorKind::Disabled,
            5 => ErrorKind::ClientDestroyed,
            6 => ErrorKind::Validation,
            7 => ErrorKind::Aborted,
            8 => ErrorKind::AuthorizationFailed,
            9 => ErrorKind::Rpc,
            other => ErrorKind::Other(other),
        }
    }
}

/// Every raw error type maps to a kind that can be told apart from the kinds of
/// all other raw types: `from_raw` loses no information.
pub proof fn lemma_error_kind_injective(a: i32, b: i32)
    requires
        a != b,
    ensures
        ErrorKind::of_raw(a) != ErrorKind::of_raw(b),
{
}

/// Each raw error type is read as the kind the SDK assigns it: 1 Network,
/// 2 Http, 3 ClientNotReady, 4 Disabled, 5 ClientDestroyed, 6 Validation,
/// 7 Aborted, 8 AuthorizationFailed, 9 Rpc; every other raw value, "no error"
/// (0) included, is kept as `Other(raw)`.
pub proof fn lemma_error_kind_numbering(raw: i32)
    ensures
        (ErrorKind::of_raw(raw) == ErrorKind::Network) <==> raw == 1,
        (ErrorKind::of_raw(raw) == ErrorKind::Http) <==> raw == 2,
        (ErrorKind::of_raw(raw) == ErrorKind::ClientNotReady) <==> raw == 3,
        (ErrorKind::of_raw(raw) == ErrorKind::Disabled) <==> raw == 4,
        (ErrorKind::of_raw(raw) == ErrorKind::ClientDestroyed) <==> raw == 5,
        (ErrorKind::of_raw(raw) == ErrorKind::Validation) <==> raw == 6,
        (ErrorKind::of_raw(raw) == ErrorKind::Aborted) <==> raw == 7,
        (ErrorKind::of_raw(raw) == ErrorKind::AuthorizationFailed) <==> raw == 8,
        (ErrorKind::of_raw(raw) == ErrorKind::Rpc) <==> raw == 9,
        (raw != 1 && raw != 2 && raw != 3 && raw != 4 && raw != 5 && raw != 6 && raw != 7 && raw != 8 && raw != 9) ==> ErrorKind::of_raw(raw) == ErrorKind::Other(raw),
{
}

} // verus!
