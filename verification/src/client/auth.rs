//! What the authorization flow hands back: tokens, codes and the current user.
//!
//! Access tokens, refresh tokens and authorization codes are credentials:
//! anything read out of them via the accessors is plaintext, so do not log it.

use vstd::prelude::*;
use crate::enums::AuthorizationTokenType;
use crate::text::{decode_lossy, sdk_text, view_bytes};
use crate::client::duration_millis;
use std::time::Duration;

verus! {

/// The span of `secs` whole seconds, as `Duration::from_secs` builds it.
pub uninterp spec fn duration_of_secs(secs: u64) -> Duration;

/// Calls `std::time::Duration::from_secs`.
///
/// Its result is the span of `secs` whole seconds. A `Duration` keeps its
/// fields private, so the contract names that result, and states the one fact
/// the standard library documents of it that can be read back: it counts
/// `secs * 1000` whole milliseconds.
#[verifier::external_body]
fn seconds(secs: u64) -> (r: Duration)
    ensures
        r == duration_of_secs(secs),
        duration_millis(r) == secs * 1000,
{
    Duration::from_secs(secs)
}

/// What a [`Token`] holds.
pub struct TokenView {
    pub access_token: Seq<char>,
    pub refresh_token: Seq<char>,
    pub token_type: AuthorizationTokenType,
    pub expires_in: i32,
    pub scopes: Seq<char>,
}

/// The credentials returned by a token exchange.
///
/// Every string field is sensitive.
pub struct Token {
    access_token: String,
    refresh_token: String,
    token_type: AuthorizationTokenType,
    expires_in: i32,
    scopes: String,
}

impl View for Token {
    type V = TokenView;

    closed spec fn view(&self) -> TokenView {
        TokenView {
            access_token: self.access_token@,
            refresh_token: self.refresh_token@,
            token_type: self.token_type,
            expires_in: self.expires_in,
            scopes: self.scopes@,
        }
    }
}

impl Token {
    /// Assemble the credentials a token exchange reported.
    ///
    /// `expires_in` is the lifetime of the access token in seconds, as the SDK
    /// reports it.
    pub fn new(
        access_token: &str,
        refresh_token: &str,
        token_type: AuthorizationTokenType,
        expires_in: i32,
        scopes: &str,
    ) -> (r: Self)
        ensures
            r@ == (TokenView {
                access_token: access_token@,
                refresh_token: refresh_token@,
                token_type,
                expires_in,
                scopes: scopes@,
            }),
    {
        Token {
            access_token: access_token.to_owned(),
            refresh_token: refresh_token.to_owned(),
            token_type,
            expires_in,
            scopes: scopes.to_owned(),
        }
    }

    /// The credentials as a token exchange delivers them: each string as the
    /// SDK's buffer holds it (`None` for a null buffer), decoded as
    /// [`decode_lossy`] does, and the token type as its raw value. An exchange
    /// that issues no refresh token delivers none, and the refresh token is
    /// then empty.
    pub fn from_sdk(
        access_token: Option<&[u8]>,
        refresh_token: Option<&[u8]>,
        token_type: i32,
        expires_in: i32,
        scopes: Option<&[u8]>,
    ) -> (r: Self)
        ensures
            r@ == (TokenView {
                access_token: sdk_text(view_bytes(access_token)),
                refresh_token: sdk_text(view_bytes(refresh_token)),
                token_type: AuthorizationTokenType::of_raw(token_type),
                expires_in,
                scopes: sdk_text(view_bytes(scopes)),
            }),
    {
        Token {
            access_token: decode_lossy(access_token),
            refresh_token: decode_lossy(refresh_token),
            token_type: AuthorizationTokenType::from_raw(token_type),
            expires_in,
            scopes: decode_lossy(scopes),
        }
    }

    /// The access token to authenticate with. **Secret.**
    pub fn access_token(&self) -> (r: &str)
        ensures
            r@ == self@.access_token,
    {
        self.access_token.as_str()
    }

    /// The refresh token used to obtain a new access token. **Secret.**
    ///
    /// Empty for exchanges that do not issue one.
    pub fn refresh_token(&self) -> (r: &str)
        ensures
            r@ == self@.refresh_token,
    {
        self.refresh_token.as_str()
    }

    /// The kind of token issued.
    pub fn token_type(&self) -> (r: AuthorizationTokenType)
        ensures
            r == self@.token_type,
    {
        self.token_type
    }

    /// The reported lifetime in whole seconds, with a negative report read as `0`.
    pub open spec fn lifetime_secs(self) -> u64 {
        if self@.expires_in < 0 {
            0
        } else {
            self@.expires_in as u64
        }
    }

    /// How long the access token remains valid.
    ///
    /// A negative lifetime reported by the SDK is treated as already expired.
    pub fn expires_in(&self) -> (r: Duration)
        ensures
            r == duration_of_secs(self.lifetime_secs()),
            duration_millis(r) == self.lifetime_secs() * 1000,
    {
        let secs: u64 = if self.expires_in < 0 {
            0
        } else {
            self.expires_in as u64
        };
        seconds(secs)
    }

    /// The space-separated OAuth2 scopes the token grants.
    pub fn scopes(&self) -> (r: &str)
        ensures
            r@ == self@.scopes,
    {
        self.scopes.as_str()
    }
}

/// What an [`AuthorizationCode`] holds.
pub struct AuthorizationCodeView {
    pub code: Seq<char>,
    pub redirect_uri: Seq<char>,
}

/// The authorization code and redirect URI produced by the authorization flow.
///
/// The code is single-use and short-lived, and is exchanged for a [`Token`].
pub struct AuthorizationCode {
    code: String,
    redirect_uri: String,
}

impl View for AuthorizationCode {
    type V = AuthorizationCodeView;

    closed spec fn view(&self) -> AuthorizationCodeView {
        AuthorizationCodeView { code: self.code@, redirect_uri: self.redirect_uri@ }
    }
}

impl AuthorizationCode {
    /// Assemble the code and redirect URI an authorization reported.
    pub fn new(code: &str, redirect_uri: &str) -> (r: Self)
        ensures
            r@ == (AuthorizationCodeView { code: code@, redirect_uri: redirect_uri@ }),
    {
        AuthorizationCode { code: code.to_owned(), redirect_uri: redirect_uri.to_owned() }
    }

    /// The code and redirect URI as an authorization delivers them: each
    /// string as the SDK's buffer holds it (`None` for a null buffer), decoded
    /// as [`decode_lossy`] does.
    pub fn from_sdk(code: Option<&[u8]>, redirect_uri: Option<&[u8]>) -> (r: Self)
        ensures
            r@ == (AuthorizationCodeView {
                code: sdk_text(view_bytes(code)),
                redirect_uri: sdk_text(view_bytes(redirect_uri)),
            }),
    {
        AuthorizationCode { code: decode_lossy(code), redirect_uri: decode_lossy(redirect_uri) }
    }

    /// The authorization code. **Secret** — exchange it, do not log it.
    pub fn code(&self) -> (r: &str)
        ensures
            r@ == self@.code,
    {
        self.code.as_str()
    }

    /// The redirect URI the code was issued against.
    ///
    /// Must be passed unchanged to the token exchange.
    pub fn redirect_uri(&self) -> (r: &str)
        ensures
            r@ == self@.redirect_uri,
    {
        self.redirect_uri.as_str()
    }
}

/// The identity returned when fetching the current user.
#[derive(Debug, PartialEq, Eq)]
pub struct CurrentUserInfo {
    /// The user's Discord snowflake id.
    pub id: u64,
    /// The user's name.
    pub name: String,
}

impl Clone for CurrentUserInfo {
    /// An independent copy: the same id and the same name.
    fn clone(&self) -> (r: Self)
        ensures
            r.id == self.id,
            r.name@ == self.name@,
    {
        CurrentUserInfo { id: self.id, name: self.name.clone() }
    }
}

impl CurrentUserInfo {
    /// The identity as a user lookup delivers it: the id, and the name as the
    /// SDK's buffer holds it (`None` for a null buffer), decoded as
    /// [`decode_lossy`] does.
    pub fn from_sdk(id: u64, name: Option<&[u8]>) -> (r: Self)
        ensures
            r.id == id,
            r.name@ == sdk_text(view_bytes(name)),
    {
        CurrentUserInfo { id, name: decode_lossy(name) }
    }
}


impl Clone for Token {
    /// An independent copy: it holds what `self` holds.
    fn clone(&self) -> (r: Self)
        ensures
            r@ == self@,
    {
        Token {
            access_token: self.access_token.clone(),
            refresh_token: self.refresh_token.clone(),
            token_type: self.token_type,
            expires_in: self.expires_in,
            scopes: self.scopes.clone(),
        }
    }
}

/// Two values are equal when every field is.
impl PartialEq for Token {
    fn eq(&self, other: &Self) -> (r: bool) {
        self.access_token == other.access_token && self.refresh_token == other.refresh_token && self.token_type == other.token_type && self.expires_in == other.expires_in && self.scopes == other.scopes
    }
}

impl vstd::std_specs::cmp::PartialEqSpecImpl for Token {
    open spec fn obeys_eq_spec() -> bool {
        true
    }

    open spec fn eq_spec(&self, other: &Token) -> bool {
        self@ == other@
    }
}

impl Eq for Token {}


impl Clone for AuthorizationCode {
    /// An independent copy: it holds what `self` holds.
    fn clone(&self) -> (r: Self)
        ensures
            r@ == self@,
    {
        AuthorizationCode {
            code: self.code.clone(),
            redirect_uri: self.redirect_uri.clone(),
        }
    }
}

/// Two values are equal when every field is.
impl PartialEq for AuthorizationCode {
    fn eq(&self, other: &Self) -> (r: bool) {
        self.code == other.code && self.redirect_uri == other.redirect_uri
    }
}

impl vstd::std_specs::cmp::PartialEqSpecImpl for AuthorizationCode {
    open spec fn obeys_eq_spec() -> bool {
        true
    }

    open spec fn eq_spec(&self, other: &AuthorizationCode) -> bool {
        self@ == other@
    }
}

impl Eq for AuthorizationCode {}

} // verus!
