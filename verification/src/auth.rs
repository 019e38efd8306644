//! OAuth2 authorization arguments and the PKCE code challenge.
//!
//! Everything the SDK does on a user's behalf requires an OAuth2 access token.
//! This module holds the parameter objects for the flows that obtain one.
//!
//! # Secrets
//!
//! The **state** and **nonce** ([`AuthorizationArgs::state`],
//! [`AuthorizationArgs::nonce`]) are anti-CSRF and anti-replay values whose whole
//! security property is being unpredictable; they must never reach logs. The
//! *challenge* is a hash of the secret verifier, travels in the clear as part of
//! the authorization URL, and is safe to print.

use vstd::prelude::*;
use crate::enums::{CodeChallengeMethod, IntegrationType};
use crate::text::{copy_opt, decode_lossy, own_opt, sdk_text, view_bytes, view_opt, view_opt_str};

verus! {

// ---------------------------------------------------------------------------
// AuthorizationCodeChallenge
// ---------------------------------------------------------------------------

/// What an [`AuthorizationCodeChallenge`] holds.
pub struct AuthorizationCodeChallengeView {
    pub method: CodeChallengeMethod,
    pub challenge: Seq<char>,
}

/// The challenge half of a PKCE code verification pair.
///
/// A hash of the secret verifier, sent to Discord when the authorization flow
/// begins. It is not secret and may be logged.
#[derive(Debug)]
pub struct AuthorizationCodeChallenge {
    method: CodeChallengeMethod,
    challenge: String,
}

impl View for AuthorizationCodeChallenge {
    type V = AuthorizationCodeChallengeView;

    closed spec fn view(&self) -> AuthorizationCodeChallengeView {
        AuthorizationCodeChallengeView { method: self.method, challenge: self.challenge@ }
    }
}

impl AuthorizationCodeChallenge {
    /// What a new value holds: the SHA-256 method and an empty challenge.
    ///
    /// These starting values are this library's own choice, the natural empty
    /// value of each field; the SDK's initializer documents none of its defaults.
    pub open spec fn new_view() -> AuthorizationCodeChallengeView {
        AuthorizationCodeChallengeView { method: CodeChallengeMethod::S256, challenge: Seq::empty() }
    }

    /// Create a new value: the SHA-256 method and an empty challenge.
    pub fn new() -> (r: Self)
        ensures
            r@ == Self::new_view(),
    {
        AuthorizationCodeChallenge { method: CodeChallengeMethod::S256, challenge: String::new() }
    }

    /// What an optional challenge holds, if present.
    pub open spec fn view_of(value: Option<AuthorizationCodeChallenge>) -> Option<AuthorizationCodeChallengeView> {
        match value {
            Some(x) => Some(x@),
            None => None,
        }
    }

    /// What an optional borrowed challenge holds, if present.
    pub open spec fn view_of_ref(value: Option<&AuthorizationCodeChallenge>) -> Option<AuthorizationCodeChallengeView> {
        match value {
            Some(x) => Some(x@),
            None => None,
        }
    }

    /// The method used to generate the challenge.
    ///
    /// The only method the SDK uses is SHA-256.
    pub fn method(&self) -> (r: CodeChallengeMethod)
        ensures
            r == self@.method,
    {
        self.method
    }

    /// Set the method used to generate the challenge.
    pub fn set_method(&mut self, value: CodeChallengeMethod)
        ensures
            final(self)@ == (AuthorizationCodeChallengeView { method: value, ..old(self)@ }),
    {
        self.method = value;
    }

    /// The challenge value.
    pub fn challenge(&self) -> (r: String)
        ensures
            r@ == self@.challenge,
    {
        self.challenge.clone()
    }

    /// Set the challenge value.
    pub fn set_challenge(&mut self, value: &str)
        ensures
            final(self)@ == (AuthorizationCodeChallengeView { challenge: value@, ..old(self)@ }),
    {
        self.challenge = value.to_owned();
    }
}

impl Clone for AuthorizationCodeChallenge {
    /// An independent copy: it holds what `self` holds.
    fn clone(&self) -> (r: Self)
        ensures
            r@ == self@,
    {
        AuthorizationCodeChallenge { method: self.method, challenge: self.challenge.clone() }
    }
}

impl Default for AuthorizationCodeChallenge {
    /// Same as [`AuthorizationCodeChallenge::new`].
    fn default() -> (r: Self)
        ensures
            r@ == AuthorizationCodeChallenge::new_view(),
    {
        AuthorizationCodeChallenge::new()
    }
}

// ---------------------------------------------------------------------------
// AuthorizationCodeVerifier
// ---------------------------------------------------------------------------

/// What an [`AuthorizationCodeVerifier`] holds.
pub struct AuthorizationCodeVerifierView {
    pub challenge: AuthorizationCodeChallengeView,
    pub verifier: Seq<char>,
}

/// A PKCE code verification pair: the secret verifier and its challenge.
///
/// The SDK generates the pair; this library implements no cryptography of its
/// own, and [`from_sdk`](Self::from_sdk) only holds what the SDK delivered.
///
/// # Secrets
///
/// [`code_verifier`](Self::code_verifier) is a secret. Do not log it, do not persist it
/// beyond the lifetime of the flow, and do not send it anywhere other than the
/// token exchange.
pub struct AuthorizationCodeVerifier {
    challenge: AuthorizationCodeChallenge,
    verifier: String,
}

impl View for AuthorizationCodeVerifier {
    type V = AuthorizationCodeVerifierView;

    closed spec fn view(&self) -> AuthorizationCodeVerifierView {
        AuthorizationCodeVerifierView { challenge: self.challenge@, verifier: self.verifier@ }
    }
}

impl AuthorizationCodeVerifier {
    /// The pair as the SDK generated it: a copy of its challenge, and the
    /// verifier as the SDK's buffer holds it (`None` for a null buffer),
    /// decoded as [`decode_lossy`] does.
    pub fn from_sdk(challenge: &AuthorizationCodeChallenge, verifier: Option<&[u8]>) -> (r: Self)
        ensures
            r@ == (AuthorizationCodeVerifierView {
                challenge: challenge@,
                verifier: sdk_text(view_bytes(verifier)),
            }),
    {
        AuthorizationCodeVerifier { challenge: challenge.clone(), verifier: decode_lossy(verifier) }
    }

    /// The challenge half of the pair, as an owned copy.
    ///
    /// Pass this to [`AuthorizationArgs::set_code_challenge`] when starting the
    /// authorization flow.
    pub fn challenge(&self) -> (r: AuthorizationCodeChallenge)
        ensures
            r@ == self@.challenge,
    {
        self.challenge.clone()
    }

    /// Set the challenge half of the pair.
    ///
    /// The challenge is copied, so `value` stays owned by the caller.
    pub fn set_challenge(&mut self, value: &AuthorizationCodeChallenge)
        ensures
            final(self)@ == (AuthorizationCodeVerifierView { challenge: value@, ..old(self)@ }),
    {
        self.challenge = value.clone();
    }

    /// The verifier half of the pair. **Secret.**
    ///
    /// It is presented during the token exchange to prove the exchange comes
    /// from whoever began the authorization flow. Never log it or share it.
    pub fn code_verifier(&self) -> (r: String)
        ensures
            r@ == self@.verifier,
    {
        self.verifier.clone()
    }

    /// Set the verifier half of the pair.
    ///
    /// Only useful for restoring a pair the SDK generated earlier. Do not invent
    /// verifier values.
    pub fn set_verifier(&mut self, value: &str)
        ensures
            final(self)@ == (AuthorizationCodeVerifierView { verifier: value@, ..old(self)@ }),
    {
        self.verifier = value.to_owned();
    }
}

impl Clone for AuthorizationCodeVerifier {
    /// An independent copy: it holds what `self` holds.
    fn clone(&self) -> (r: Self)
        ensures
            r@ == self@,
    {
        AuthorizationCodeVerifier { challenge: self.challenge.clone(), verifier: self.verifier.clone() }
    }
}

// ---------------------------------------------------------------------------
// AuthorizationArgs
// ---------------------------------------------------------------------------

/// What an [`AuthorizationArgs`] holds.
pub struct AuthorizationArgsView {
    pub client_id: u64,
    pub scopes: Seq<char>,
    pub state: Option<Seq<char>>,
    pub nonce: Option<Seq<char>>,
    pub code_challenge: Option<AuthorizationCodeChallengeView>,
    pub integration_type: Option<IntegrationType>,
    pub custom_scheme_param: Option<Seq<char>>,
}

/// Arguments to the client's authorization flow.
///
/// Start from [`AuthorizationArgs::new`] and set at least
/// [`set_scopes`](Self::set_scopes); everything else has a usable default.
/// The `with_*` methods are the same setters in chainable form.
///
/// [`state`](Self::state) and [`nonce`](Self::nonce) are security values.
pub struct AuthorizationArgs {
    client_id: u64,
    scopes: String,
    state: Option<String>,
    nonce: Option<String>,
    code_challenge: Option<AuthorizationCodeChallenge>,
    integration_type: Option<IntegrationType>,
    custom_scheme_param: Option<String>,
}

impl View for AuthorizationArgs {
    type V = AuthorizationArgsView;

    closed spec fn view(&self) -> AuthorizationArgsView {
        AuthorizationArgsView {
            client_id: self.client_id,
            scopes: self.scopes@,
            state: view_opt(self.state),
            nonce: view_opt(self.nonce),
            code_challenge: AuthorizationCodeChallenge::view_of(self.code_challenge),
            integration_type: self.integration_type,
            custom_scheme_param: view_opt(self.custom_scheme_param),
        }
    }
}

impl AuthorizationArgs {
    /// What a new value holds: client id `0`, empty scopes, and no optional field set.
    ///
    /// These starting values are this library's own choice, the natural empty
    /// value of each field; the SDK's initializer documents none of its defaults.
    pub open spec fn new_view() -> AuthorizationArgsView {
        AuthorizationArgsView {
            client_id: 0,
            scopes: Seq::empty(),
            state: None,
            nonce: None,
            code_challenge: None,
            integration_type: None,
            custom_scheme_param: None,
        }
    }

    /// Create a new value; see [`new_view`](Self::new_view).
    pub fn new() -> (r: Self)
        ensures
            r@ == Self::new_view(),
    {
        AuthorizationArgs {
            client_id: 0,
            scopes: String::new(),
            state: None,
            nonce: None,
            code_challenge: None,
            integration_type: None,
            custom_scheme_param: None,
        }
    }

    /// The Discord application ID for the game.
    pub fn client_id(&self) -> (r: u64)
        ensures
            r == self@.client_id,
    {
        self.client_id
    }

    /// Set the Discord application ID for the game.
    ///
    /// Optional; defaults to the application ID the client was configured with.
    pub fn set_client_id(&mut self, value: u64)
        ensures
            final(self)@ == (AuthorizationArgsView { client_id: value, ..old(self)@ }),
    {
        self.client_id = value;
    }

    /// The space-separated list of OAuth2 scopes being requested.
    pub fn scopes(&self) -> (r: String)
        ensures
            r@ == self@.scopes,
    {
        self.scopes.clone()
    }

    /// Set the space-separated list of OAuth2 scopes being requested.
    ///
    /// Most games should pass one of the client's default scope strings. Each
    /// additional scope is something the user must separately grant, so request
    /// only what is actually used.
    pub fn set_scopes(&mut self, value: &str)
        ensures
            final(self)@ == (AuthorizationArgsView { scopes: value@, ..old(self)@ }),
    {
        self.scopes = value.to_owned();
    }

    /// The OAuth2 `state` value, if one was set explicitly.
    ///
    /// **Security-sensitive.** See [`set_state`](Self::set_state).
    pub fn state(&self) -> (r: Option<String>)
        ensures
            view_opt(r) == self@.state,
    {
        copy_opt(&self.state)
    }

    /// Set the OAuth2 `state` value, or clear it with `None`.
    ///
    /// `state` guards against CSRF during authorization. Leaving it unset is
    /// recommended: the SDK then generates a secure random value and checks it
    /// itself. If overriding it, the value must be unpredictable and must not be logged.
    pub fn set_state(&mut self, value: Option<&str>)
        ensures
            final(self)@ == (AuthorizationArgsView { state: view_opt_str(value), ..old(self)@ }),
    {
        self.state = own_opt(value);
    }

    /// The OpenID Connect `nonce`, if one was set.
    ///
    /// **Security-sensitive.** See [`set_nonce`](Self::set_nonce).
    pub fn nonce(&self) -> (r: Option<String>)
        ensures
            view_opt(r) == self@.nonce,
    {
        copy_opt(&self.nonce)
    }

    /// Set the OpenID Connect `nonce`, or clear it with `None`.
    ///
    /// Ties a returned ID token to this particular request. It must be
    /// unpredictable and must not be logged.
    pub fn set_nonce(&mut self, value: Option<&str>)
        ensures
            final(self)@ == (AuthorizationArgsView { nonce: view_opt_str(value), ..old(self)@ }),
    {
        self.nonce = own_opt(value);
    }

    /// The PKCE code challenge, as an owned copy, if one was set.
    pub fn code_challenge(&self) -> (r: Option<AuthorizationCodeChallenge>)
        ensures
            AuthorizationCodeChallenge::view_of(r) == self@.code_challenge,
    {
        match &self.code_challenge {
            Some(c) => Some(c.clone()),
            None => None,
        }
    }

    /// Set the PKCE code challenge, or clear it with `None`.
    ///
    /// Required when the authorization code will be exchanged in-process. The
    /// challenge is copied, so `value` stays owned by the caller.
    pub fn set_code_challenge(&mut self, value: Option<&AuthorizationCodeChallenge>)
        ensures
            final(self)@ == (AuthorizationArgsView {
                code_challenge: AuthorizationCodeChallenge::view_of_ref(value),
                ..old(self)@
            }),
    {
        self.code_challenge = match value {
            Some(c) => Some(c.clone()),
            None => None,
        };
    }

    /// The installation context the app will be authorized in, if set.
    pub fn integration_type(&self) -> (r: Option<IntegrationType>)
        ensures
            r == self@.integration_type,
    {
        self.integration_type
    }

    /// Set the installation context, or clear it with `None`.
    pub fn set_integration_type(&mut self, value: Option<IntegrationType>)
        ensures
            final(self)@ == (AuthorizationArgsView { integration_type: value, ..old(self)@ }),
    {
        self.integration_type = value;
    }

    /// The custom URI scheme used for mobile redirects, if set.
    pub fn custom_scheme_param(&self) -> (r: Option<String>)
        ensures
            view_opt(r) == self@.custom_scheme_param,
    {
        copy_opt(&self.custom_scheme_param)
    }

    /// Set the custom URI scheme used for mobile redirects, or clear it with `None`.
    ///
    /// Setting this to `mygame` produces redirect URIs of the form
    /// `mygame:/authorize/callback`.
    pub fn set_custom_scheme_param(&mut self, value: Option<&str>)
        ensures
            final(self)@ == (AuthorizationArgsView { custom_scheme_param: view_opt_str(value), ..old(self)@ }),
    {
        self.custom_scheme_param = own_opt(value);
    }

    /// Chainable [`set_client_id`](Self::set_client_id).
    #[must_use]
    pub fn with_client_id(self, value: u64) -> (r: Self)
        ensures
            r@ == (AuthorizationArgsView { client_id: value, ..self@ }),
    {
        let mut args = self;
        args.set_client_id(value);
        args
    }

    /// Chainable [`set_scopes`](Self::set_scopes).
    #[must_use]
    pub fn with_scopes(self, value: &str) -> (r: Self)
        ensures
            r@ == (AuthorizationArgsView { scopes: value@, ..self@ }),
    {
        let mut args = self;
        args.set_scopes(value);
        args
    }

    /// Chainable [`set_state`](Self::set_state).
    #[must_use]
    pub fn with_state(self, value: Option<&str>) -> (r: Self)
        ensures
            r@ == (AuthorizationArgsView { state: view_opt_str(value), ..self@ }),
    {
        let mut args = self;
        args.set_state(value);
        args
    }

    /// Chainable [`set_nonce`](Self::set_nonce).
    #[must_use]
    pub fn with_nonce(self, value: Option<&str>) -> (r: Self)
        ensures
            r@ == (AuthorizationArgsView { nonce: view_opt_str(value), ..self@ }),
    {
        let mut args = self;
        args.set_nonce(value);
        args
    }

    /// Chainable [`set_code_challenge`](Self::set_code_challenge).
    #[must_use]
    pub fn with_code_challenge(self, value: Option<&AuthorizationCodeChallenge>) -> (r: Self)
        ensures
            r@ == (AuthorizationArgsView { code_challenge: AuthorizationCodeChallenge::view_of_ref(value), ..self@ }),
    {
        let mut args = self;
        args.set_code_challenge(value);
        args
    }

    /// Chainable [`set_integration_type`](Self::set_integration_type).
    #[must_use]
    pub fn with_integration_type(self, value: Option<IntegrationType>) -> (r: Self)
        ensures
            r@ == (AuthorizationArgsView { integration_type: value, ..self@ }),
    {
        let mut args = self;
        args.set_integration_type(value);
        args
    }

    /// Chainable [`set_custom_scheme_param`](Self::set_custom_scheme_param).
    #[must_use]
    pub fn with_custom_scheme_param(self, value: Option<&str>) -> (r: Self)
        ensures
            r@ == (AuthorizationArgsView { custom_scheme_param: view_opt_str(value), ..self@ }),
    {
        let mut args = self;
        args.set_custom_scheme_param(value);
        args
    }
}

impl Default for AuthorizationArgs {
    /// Same as [`AuthorizationArgs::new`].
    fn default() -> (r: Self)
        ensures
            r@ == AuthorizationArgs::new_view(),
    {
        AuthorizationArgs::new()
    }
}

// ---------------------------------------------------------------------------
// DeviceAuthorizationArgs
// ---------------------------------------------------------------------------

/// What a [`DeviceAuthorizationArgs`] holds.
pub struct DeviceAuthorizationArgsView {
    pub client_id: u64,
    pub scopes: Seq<char>,
}

/// Arguments to the device authorization flow.
///
/// The device flow serves limited-input devices — consoles, smart TVs — where
/// the user completes login on a second device.
#[derive(Debug)]
pub struct DeviceAuthorizationArgs {
    client_id: u64,
    scopes: String,
}

impl View for DeviceAuthorizationArgs {
    type V = DeviceAuthorizationArgsView;

    closed spec fn view(&self) -> DeviceAuthorizationArgsView {
        DeviceAuthorizationArgsView { client_id: self.client_id, scopes: self.scopes@ }
    }
}

impl DeviceAuthorizationArgs {
    /// Create a new value: client id `0` and empty scopes.
    pub fn new() -> (r: Self)
        ensures
            r@ == (DeviceAuthorizationArgsView { client_id: 0, scopes: Seq::empty() }),
    {
        DeviceAuthorizationArgs { client_id: 0, scopes: String::new() }
    }

    /// The Discord application ID for the game.
    pub fn client_id(&self) -> (r: u64)
        ensures
            r == self@.client_id,
    {
        self.client_id
    }

    /// Set the Discord application ID for the game.
    pub fn set_client_id(&mut self, value: u64)
        ensures
            final(self)@ == (DeviceAuthorizationArgsView { client_id: value, ..old(self)@ }),
    {
        self.client_id = value;
    }

    /// The space-separated list of OAuth2 scopes being requested.
    pub fn scopes(&self) -> (r: String)
        ensures
            r@ == self@.scopes,
    {
        self.scopes.clone()
    }

    /// Set the space-separated list of OAuth2 scopes being requested.
    pub fn set_scopes(&mut self, value: &str)
        ensures
            final(self)@ == (DeviceAuthorizationArgsView { scopes: value@, ..old(self)@ }),
    {
        self.scopes = value.to_owned();
    }

    /// Chainable [`set_client_id`](Self::set_client_id).
    #[must_use]
    pub fn with_client_id(self, value: u64) -> (r: Self)
        ensures
            r@ == (DeviceAuthorizationArgsView { client_id: value, ..self@ }),
    {
        let mut args = self;
        args.set_client_id(value);
        args
    }

    /// Chainable [`set_scopes`](Self::set_scopes).
    #[must_use]
    pub fn with_scopes(self, value: &str) -> (r: Self)
        ensures
            r@ == (DeviceAuthorizationArgsView { scopes: value@, ..self@ }),
    {
        let mut args = self;
        args.set_scopes(value);
        args
    }
}

impl Default for DeviceAuthorizationArgs {
    /// Same as [`DeviceAuthorizationArgs::new`].
    fn default() -> (r: Self)
        ensures
            r@ == (DeviceAuthorizationArgsView { client_id: 0, scopes: Seq::empty() }),
    {
        DeviceAuthorizationArgs::new()
    }
}


impl Clone for AuthorizationArgs {
    /// An independent copy: it holds what `self` holds.
    fn clone(&self) -> (r: Self)
        ensures
            r@ == self@,
    {
        AuthorizationArgs {
            client_id: self.client_id,
            scopes: self.scopes.clone(),
            state: copy_opt(&self.state),
            nonce: copy_opt(&self.nonce),
            code_challenge: match &self.code_challenge {
                Some(v) => Some(v.clone()),
                None => None,
            },
            integration_type: self.integration_type,
            custom_scheme_param: copy_opt(&self.custom_scheme_param),
        }
    }
}


impl Clone for DeviceAuthorizationArgs {
    /// An independent copy: it holds what `self` holds.
    fn clone(&self) -> (r: Self)
        ensures
            r@ == self@,
    {
        DeviceAuthorizationArgs {
            client_id: self.client_id,
            scopes: self.scopes.clone(),
        }
    }
}

} // verus!
