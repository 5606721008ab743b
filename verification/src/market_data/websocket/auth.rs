//! Credentials and the authentication state machine.

use vstd::prelude::*;
use vstd::string::StringExecFns;
use crate::text::clone_optional;
use crate::error::{Error, ErrorView};

verus! {

/// Address of the streaming service.
pub const WEBSOCKET_BASE_URL: &'static str = "wss://api.fubon.com/ws";

/// Progress of the authentication handshake of one connection attempt.
#[derive(Debug, Clone, Copy, PartialEq, Eq, Structural)]
pub enum AuthenticationState {
    /// No handshake has been sent.
    Pending,
    /// The handshake has been sent and the server has not answered yet.
    Authenticating,
    /// The server has acknowledged the credential.
    Authenticated,
    /// The server has rejected the credential, or no answer came in time, or
    /// no usable credential was configured.
    Unauthenticated,
}

impl AuthenticationState {
    /// `Authenticated` and `Unauthenticated` end a connection attempt.
    pub open spec fn is_settled(self) -> bool {
        self is Authenticated || self is Unauthenticated
    }

    /// The state after the handshake has been handed to the write path.
    pub open spec fn handshake_sent(self) -> AuthenticationState {
        AuthenticationState::Authenticating
    }

    /// The state after the server has acknowledged the credential: only a
    /// handshake that is under way can succeed.
    pub open spec fn acknowledged(self) -> AuthenticationState {
        if self is Authenticating {
            AuthenticationState::Authenticated
        } else {
            self
        }
    }

    /// The state after the server has rejected the credential: only a
    /// handshake that is under way can fail.
    pub open spec fn rejected(self) -> AuthenticationState {
        if self is Authenticating {
            AuthenticationState::Unauthenticated
        } else {
            self
        }
    }

    /// The state after the handshake deadline has passed: a settled state
    /// stays, any other becomes `Unauthenticated`.
    pub open spec fn expired(self) -> AuthenticationState {
        if self.is_settled() {
            self
        } else {
            AuthenticationState::Unauthenticated
        }
    }

    /// What a caller waiting for the handshake learns from the state: nothing
    /// while it is unsettled, success once authenticated, the rejection
    /// otherwise.
    pub open spec fn outcome(self) -> Option<Result<(), ErrorView>> {
        match self {
            AuthenticationState::Authenticated => Some(Ok(())),
            AuthenticationState::Unauthenticated => Some(Err(ErrorView::Unauthenticated)),
            _ => None,
        }
    }

    /// Whether the state ends a connection attempt.
    pub fn settled(&self) -> (settled: bool)
        ensures
            settled == self.is_settled(),
    {
        match self {
            AuthenticationState::Authenticated | AuthenticationState::Unauthenticated => true,
            _ => false,
        }
    }

    /// The state after the server has acknowledged the credential.
    pub fn on_acknowledged(self) -> (next: AuthenticationState)
        ensures
            next == self.acknowledged(),
    {
        match self {
            AuthenticationState::Authenticating => AuthenticationState::Authenticated,
            other => other,
        }
    }

    /// The state after the server has rejected the credential.
    pub fn on_rejected(self) -> (next: AuthenticationState)
        ensures
            next == self.rejected(),
    {
        match self {
            AuthenticationState::Authenticating => AuthenticationState::Unauthenticated,
            other => other,
        }
    }

    /// The state after the handshake deadline has passed.
    pub fn on_deadline(self) -> (next: AuthenticationState)
        ensures
            next == self.expired(),
    {
        match self {
            AuthenticationState::Authenticated => AuthenticationState::Authenticated,
            _ => AuthenticationState::Unauthenticated,
        }
    }
}

/// The credential presented in the handshake.
#[derive(Debug, PartialEq, Eq)]
pub enum Credential {
    ApiKey(String),
    BearerToken(String),
    SdkToken(String),
}

/// Mathematical view of [`Credential`].
pub enum CredentialView {
    ApiKey(Seq<char>),
    BearerToken(Seq<char>),
    SdkToken(Seq<char>),
}

impl CredentialView {
    /// The name under which the handshake carries the credential.
    pub open spec fn field(self) -> Seq<char> {
        match self {
            CredentialView::ApiKey(_) => "apikey"@,
            CredentialView::BearerToken(_) => "token"@,
            CredentialView::SdkToken(_) => "sdkToken"@,
        }
    }

    /// The secret itself.
    pub open spec fn secret(self) -> Seq<char> {
        match self {
            CredentialView::ApiKey(secret) => secret,
            CredentialView::BearerToken(secret) => secret,
            CredentialView::SdkToken(secret) => secret,
        }
    }
}

impl View for Credential {
    type V = CredentialView;

    open spec fn view(&self) -> CredentialView {
        match self {
            Credential::ApiKey(secret) => CredentialView::ApiKey(secret@),
            Credential::BearerToken(secret) => CredentialView::BearerToken(secret@),
            Credential::SdkToken(secret) => CredentialView::SdkToken(secret@),
        }
    }
}

impl Clone for Credential {
    fn clone(&self) -> (copy: Self)
        ensures
            copy == *self,
    {
        match self {
            Credential::ApiKey(secret) => Credential::ApiKey(secret.clone()),
            Credential::BearerToken(secret) => Credential::BearerToken(secret.clone()),
            Credential::SdkToken(secret) => Credential::SdkToken(secret.clone()),
        }
    }
}

impl Credential {
    /// The name under which the handshake carries the credential.
    pub fn field(&self) -> (name: &'static str)
        ensures
            name@ == self@.field(),
    {
        match self {
            Credential::ApiKey(_) => "apikey",
            Credential::BearerToken(_) => "token",
            Credential::SdkToken(_) => "sdkToken",
        }
    }

    /// The secret itself.
    pub fn secret(&self) -> (secret: &str)
        ensures
            secret@ == self@.secret(),
    {
        match self {
            Credential::ApiKey(secret) => secret.as_str(),
            Credential::BearerToken(secret) => secret.as_str(),
            Credential::SdkToken(secret) => secret.as_str(),
        }
    }
}

/// WebSocket client configuration
#[derive(Debug, PartialEq, Eq)]
pub struct WebSocketConfig {
    pub base_url: String,
    pub api_key: Option<String>,
    pub bearer_token: Option<String>,
    pub sdk_token: Option<String>,
}

/// Mathematical view of [`WebSocketConfig`].
pub struct WebSocketConfigView {
    pub base_url: Seq<char>,
    pub api_key: Option<Seq<char>>,
    pub bearer_token: Option<Seq<char>>,
    pub sdk_token: Option<Seq<char>>,
}

/// A credential field counts when it is set to a non-empty value.
pub open spec fn is_present(field: Option<Seq<char>>) -> bool {
    field matches Some(value) && value.len() > 0
}

impl WebSocketConfigView {
    /// The streaming service's address and no credential.
    pub open spec fn initial() -> Self {
        WebSocketConfigView {
            base_url: WEBSOCKET_BASE_URL@,
            api_key: None,
            bearer_token: None,
            sdk_token: None,
        }
    }

    /// The same configuration with the SDK token set to `token`.
    pub open spec fn with_sdk_token(self, token: Seq<char>) -> Self {
        WebSocketConfigView { sdk_token: Some(token), ..self }
    }

    /// How many of the three credential fields are present.
    pub open spec fn credential_count(self) -> nat {
        let a: nat = if is_present(self.api_key) { 1 } else { 0 };
        let b: nat = if is_present(self.bearer_token) { 1 } else { 0 };
        let s: nat = if is_present(self.sdk_token) { 1 } else { 0 };
        a + b + s
    }

    /// The credential of the handshake: the one field that is present. A
    /// configuration with none, or with more than one, has no credential.
    pub open spec fn credential(self) -> Result<CredentialView, ErrorView> {
        if self.credential_count() != 1 {
            Err(ErrorView::MissingCredentials)
        } else if is_present(self.api_key) {
            Ok(CredentialView::ApiKey(self.api_key->0))
        } else if is_present(self.bearer_token) {
            Ok(CredentialView::BearerToken(self.bearer_token->0))
        } else {
            Ok(CredentialView::SdkToken(self.sdk_token->0))
        }
    }
}

impl View for WebSocketConfig {
    type V = WebSocketConfigView;

    open spec fn view(&self) -> WebSocketConfigView {
        WebSocketConfigView {
            base_url: self.base_url@,
            api_key: self.api_key.deep_view(),
            bearer_token: self.bearer_token.deep_view(),
            sdk_token: self.sdk_token.deep_view(),
        }
    }
}

/// Whether a credential field is set to a non-empty value.
fn present(field: &Option<String>) -> (found: bool)
    ensures
        found == is_present(field.deep_view()),
{
    match field {
        Some(value) => !value.as_str().is_empty(),
        None => false,
    }
}

impl Clone for WebSocketConfig {
    fn clone(&self) -> (copy: Self)
        ensures
            copy == *self,
    {
        WebSocketConfig {
            base_url: self.base_url.clone(),
            api_key: clone_optional(&self.api_key),
            bearer_token: clone_optional(&self.bearer_token),
            sdk_token: clone_optional(&self.sdk_token),
        }
    }
}

impl WebSocketConfig {
    /// The streaming service's address and no credential.
    pub fn new() -> (config: Self)
        ensures
            config@ == WebSocketConfigView::initial(),
    {
        Self {
            base_url: String::from_str(WEBSOCKET_BASE_URL),
            api_key: None,
            bearer_token: None,
            sdk_token: None,
        }
    }

    /// The same configuration with the SDK token set to `token`.
    pub fn with_sdk_token(self, token: String) -> (config: Self)
        ensures
            config@ == (WebSocketConfigView { sdk_token: Some(token@), ..self@ }),
    {
        let mut config = self;
        config.sdk_token = Some(token);
        config
    }

    /// The same configuration with the API key set to `key`.
    pub fn with_api_key(self, key: String) -> (config: Self)
        ensures
            config@ == (WebSocketConfigView { api_key: Some(key@), ..self@ }),
    {
        let mut config = self;
        config.api_key = Some(key);
        config
    }

    /// The same configuration with the bearer token set to `token`.
    pub fn with_bearer_token(self, token: String) -> (config: Self)
        ensures
            config@ == (WebSocketConfigView { bearer_token: Some(token@), ..self@ }),
    {
        let mut config = self;
        config.bearer_token = Some(token);
        config
    }

    /// The same configuration with the address set to `url`.
    pub fn with_base_url(self, url: String) -> (config: Self)
        ensures
            config@ == (WebSocketConfigView { base_url: url@, ..self@ }),
    {
        let mut config = self;
        config.base_url = url;
        config
    }

    /// The credential of the handshake: the one credential field that is set
    /// to a non-empty value. With none, or with more than one, the
    /// configuration is refused as missing its credential.
    pub fn credential(&self) -> (found: Result<Credential, Error>)
        ensures
            found is Ok <==> self@.credential_count() == 1,
            found matches Ok(credential) ==> Ok::<CredentialView, ErrorView>(credential@)
                == self@.credential(),
            found matches Err(error) ==> error@ == ErrorView::MissingCredentials,
    {
        let api_key = present(&self.api_key);
        let bearer_token = present(&self.bearer_token);
        let sdk_token = present(&self.sdk_token);
        if api_key && !bearer_token && !sdk_token {
            match &self.api_key {
                Some(secret) => Ok(Credential::ApiKey(secret.clone())),
                None => Err(Error::MissingCredentials),
            }
        } else if !api_key && bearer_token && !sdk_token {
            match &self.bearer_token {
                Some(secret) => Ok(Credential::BearerToken(secret.clone())),
                None => Err(Error::MissingCredentials),
            }
        } else if !api_key && !bearer_token && sdk_token {
            match &self.sdk_token {
                Some(secret) => Ok(Credential::SdkToken(secret.clone())),
                None => Err(Error::MissingCredentials),
            }
        } else {
            Err(Error::MissingCredentials)
        }
    }
}

} // verus!
