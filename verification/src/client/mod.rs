//! Values the client hands out or is configured with.

use vstd::prelude::*;
use crate::enums::{AudioSystem, ClientError, ClientStatus};
use std::time::Duration;

pub mod auth;
pub mod voice;

pub use auth::{AuthorizationCode, CurrentUserInfo, Token};
pub use voice::AudioFrame;

verus! {

/// What a [`ClientCreateOptions`] holds.
pub struct ClientCreateOptionsView {
    pub web_base: Seq<char>,
    pub api_base: Seq<char>,
    pub experimental_audio_system: AudioSystem,
    pub experimental_android_prevent_comms_for_bluetooth: bool,
    pub cpu_affinity_mask: Option<u64>,
}

/// Options used to construct a client.
pub struct ClientCreateOptions {
    web_base: String,
    api_base: String,
    experimental_audio_system: AudioSystem,
    experimental_android_prevent_comms_for_bluetooth: bool,
    cpu_affinity_mask: Option<u64>,
}

impl View for ClientCreateOptions {
    type V = ClientCreateOptionsView;

    closed spec fn view(&self) -> ClientCreateOptionsView {
        ClientCreateOptionsView {
            web_base: self.web_base@,
            api_base: self.api_base@,
            experimental_audio_system: self.experimental_audio_system,
            experimental_android_prevent_comms_for_bluetooth: self.experimental_android_prevent_comms_for_bluetooth,
            cpu_affinity_mask: self.cpu_affinity_mask,
        }
    }
}

impl ClientCreateOptions {
    /// What a new value holds: empty base URLs, the standard audio system,
    /// the Bluetooth workaround off, and no CPU affinity mask.
    ///
    /// These starting values are this library's own choice, the natural empty
    /// value of each field; the SDK's initializer documents none of its defaults.
    pub open spec fn new_view() -> ClientCreateOptionsView {
        ClientCreateOptionsView {
            web_base: Seq::empty(),
            api_base: Seq::empty(),
            experimental_audio_system: AudioSystem::Standard,
            experimental_android_prevent_comms_for_bluetooth: false,
            cpu_affinity_mask: None,
        }
    }

    /// Create a new value; see [`new_view`](Self::new_view).
    pub fn new() -> (r: Self)
        ensures
            r@ == Self::new_view(),
    {
        ClientCreateOptions {
            web_base: String::new(),
            api_base: String::new(),
            experimental_audio_system: AudioSystem::Standard,
            experimental_android_prevent_comms_for_bluetooth: false,
            cpu_affinity_mask: None,
        }
    }

    /// The base URL for the Discord web application.
    pub fn web_base(&self) -> (r: String)
        ensures
            r@ == self@.web_base,
    {
        self.web_base.clone()
    }

    /// Set the base URL for the Discord web application.
    pub fn set_web_base(&mut self, value: &str)
        ensures
            final(self)@ == (ClientCreateOptionsView { web_base: value@, ..old(self)@ }),
    {
        self.web_base = value.to_owned();
    }

    /// The base URL for the Discord API.
    pub fn api_base(&self) -> (r: String)
        ensures
            r@ == self@.api_base,
    {
        self.api_base.clone()
    }

    /// Set the base URL for the Discord API.
    pub fn set_api_base(&mut self, value: &str)
        ensures
            final(self)@ == (ClientCreateOptionsView { api_base: value@, ..old(self)@ }),
    {
        self.api_base = value.to_owned();
    }

    /// The audio system the voice engine uses.
    pub fn experimental_audio_system(&self) -> (r: AudioSystem)
        ensures
            r == self@.experimental_audio_system,
    {
        self.experimental_audio_system
    }

    /// Set the audio system the voice engine uses.
    pub fn set_experimental_audio_system(&mut self, value: AudioSystem)
        ensures
            final(self)@ == (ClientCreateOptionsView { experimental_audio_system: value, ..old(self)@ }),
    {
        self.experimental_audio_system = value;
    }

    /// Whether Android devices avoid the communications audio mode for Bluetooth.
    pub fn experimental_android_prevent_comms_for_bluetooth(&self) -> (r: bool)
        ensures
            r == self@.experimental_android_prevent_comms_for_bluetooth,
    {
        self.experimental_android_prevent_comms_for_bluetooth
    }

    /// Set whether Android devices avoid the communications audio mode for Bluetooth.
    pub fn set_experimental_android_prevent_comms_for_bluetooth(&mut self, value: bool)
        ensures
            final(self)@ == (ClientCreateOptionsView { experimental_android_prevent_comms_for_bluetooth: value, ..old(self)@ }),
    {
        self.experimental_android_prevent_comms_for_bluetooth = value;
    }

    /// The CPU affinity mask applied to the SDK's threads, if set.
    pub fn cpu_affinity_mask(&self) -> (r: Option<u64>)
        ensures
            r == self@.cpu_affinity_mask,
    {
        self.cpu_affinity_mask
    }

    /// Set the CPU affinity mask applied to the SDK's threads, or clear it with `None`.
    pub fn set_cpu_affinity_mask(&mut self, value: Option<u64>)
        ensures
            final(self)@ == (ClientCreateOptionsView { cpu_affinity_mask: value, ..old(self)@ }),
    {
        self.cpu_affinity_mask = value;
    }
}

impl Default for ClientCreateOptions {
    /// Same as [`ClientCreateOptions::new`].
    fn default() -> (r: Self)
        ensures
            r@ == ClientCreateOptions::new_view(),
    {
        ClientCreateOptions::new()
    }
}

/// The error a status change reports: none when the raw error is the SDK's
/// "no error" value, otherwise the error it stands for.
pub open spec fn reported_error(error: i32) -> Option<ClientError> {
    if ClientError::of_raw(error) == ClientError::NoError {
        None
    } else {
        Some(ClientError::of_raw(error))
    }
}

/// The arguments a status-change handler receives for a raw status-change
/// event from the SDK: the new status, the error that caused it if there was
/// one, and the error detail code, passed through unchanged.
pub fn status_change(status: i32, error: i32, detail: i32) -> (r: (ClientStatus, Option<ClientError>, i32))
    ensures
        r.0 == ClientStatus::of_raw(status),
        r.1 == reported_error(error),
        r.2 == detail,
{
    let reported = match ClientError::from_raw(error) {
        ClientError::NoError => None,
        other => Some(other),
    };
    (ClientStatus::from_raw(status), reported, detail)
}

/// The whole milliseconds in `timeout`, as `Duration::as_millis` counts them.
pub uninterp spec fn duration_millis(timeout: Duration) -> u128;

/// Calls `std::time::Duration::as_millis`.
///
/// Its result is the number of whole milliseconds in `timeout`. A `Duration`
/// keeps its fields private, so the contract names that number rather than
/// computing it.
#[verifier::external_body]
fn whole_millis(timeout: Duration) -> (r: u128)
    ensures
        r == duration_millis(timeout),
{
    timeout.as_millis()
}

/// `millis` as the `i32` the SDK takes for a timeout: unchanged when it fits,
/// otherwise clamped to `i32::MAX`.
pub fn clamp_timeout_millis(millis: u128) -> (r: i32)
    ensures
        r == (if millis <= i32::MAX {
            millis as int
        } else {
            i32::MAX as int
        }),
{
    if millis <= 2147483647u128 {
        millis as i32
    } else {
        i32::MAX
    }
}

/// The HTTP request timeout the SDK is given for `timeout`: its whole
/// milliseconds, clamped to `i32::MAX`, since the SDK takes an `i32`.
pub fn http_timeout_millis(timeout: Duration) -> (r: i32)
    ensures
        r == (if duration_millis(timeout) <= i32::MAX {
            duration_millis(timeout) as int
        } else {
            i32::MAX as int
        }),
{
    clamp_timeout_millis(whole_millis(timeout))
}


impl Clone for ClientCreateOptions {
    /// An independent copy: it holds what `self` holds.
    fn clone(&self) -> (r: Self)
        ensures
            r@ == self@,
    {
        ClientCreateOptions {
            web_base: self.web_base.clone(),
            api_base: self.api_base.clone(),
            experimental_audio_system: self.experimental_audio_system,
            experimental_android_prevent_comms_for_bluetooth: self.experimental_android_prevent_comms_for_bluetooth,
            cpu_affinity_mask: self.cpu_affinity_mask,
        }
    }
}

} // verus!
