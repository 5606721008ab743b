//! Request/response access to intraday, historical and snapshot data.
//!
//! The clients here decide what is asked of the server: the address, the
//! credential header and the query. Performing the exchange is left to the
//! caller.

use vstd::prelude::*;
use vstd::string::StringExecFns;
use crate::text::clone_optional;
use crate::error::{outcome_view, Error, ErrorView};

verus! {

/// Base address of the data service.
pub const REST_BASE_URL: &'static str = "https://api.fubon.com";

/// Description given when more than one credential is configured.
pub const AMBIGUOUS_CREDENTIALS_MESSAGE: &'static str =
    "Only one of the \"apiKey\", \"bearerToken\", or \"sdkToken\" options must be specified";

/// A name with a value: a request header or a query parameter.
#[derive(Debug, PartialEq, Eq)]
pub struct Header {
    pub name: String,
    pub value: String,
}

/// Mathematical view of [`Header`].
pub struct HeaderView {
    pub name: Seq<char>,
    pub value: Seq<char>,
}

impl View for Header {
    type V = HeaderView;

    open spec fn view(&self) -> HeaderView {
        HeaderView { name: self.name@, value: self.value@ }
    }
}

impl DeepView for Header {
    type V = HeaderView;

    open spec fn deep_view(&self) -> HeaderView {
        self@
    }
}

impl Clone for Header {
    fn clone(&self) -> (copy: Self)
        ensures
            copy == *self,
    {
        Header { name: self.name.clone(), value: self.value.clone() }
    }
}

/// A copy of a list of headers.
fn clone_headers(headers: &Vec<Header>) -> (copy: Vec<Header>)
    ensures
        copy.deep_view() == headers.deep_view(),
{
    let mut copy: Vec<Header> = Vec::new();
    let mut i: usize = 0;
    while i < headers.len()
        invariant
            i <= headers.len(),
            copy.len() == i,
            forall|j: int| 0 <= j < i ==> (#[trigger] copy[j])@ == headers[j]@,
        decreases headers.len() - i,
    {
        copy.push(headers[i].clone());
        i = i + 1;
    }
    assert(copy.deep_view() =~= headers.deep_view());
    copy
}

/// What one exchange asks of the server.
#[derive(Debug, PartialEq, Eq)]
pub struct RestRequest {
    /// The address to fetch.
    pub url: String,
    /// The headers to send, in order.
    pub headers: Vec<Header>,
    /// The query parameters to append, in order.
    pub query: Vec<Header>,
}

/// Mathematical view of [`RestRequest`].
pub struct RestRequestView {
    pub url: Seq<char>,
    pub headers: Seq<HeaderView>,
    pub query: Seq<HeaderView>,
}

impl View for RestRequest {
    type V = RestRequestView;

    open spec fn view(&self) -> RestRequestView {
        RestRequestView {
            url: self.url@,
            headers: self.headers.deep_view(),
            query: self.query.deep_view(),
        }
    }
}

impl Clone for RestRequest {
    fn clone(&self) -> (copy: Self)
        ensures
            copy@ == self@,
    {
        RestRequest {
            url: self.url.clone(),
            headers: clone_headers(&self.headers),
            query: clone_headers(&self.query),
        }
    }
}

/// Configuration for REST client
#[derive(Debug, PartialEq, Eq)]
pub struct RestConfig {
    pub base_url: String,
    pub api_key: Option<String>,
    pub bearer_token: Option<String>,
    pub sdk_token: Option<String>,
}

/// Mathematical view of [`RestConfig`].
pub struct RestConfigView {
    pub base_url: Seq<char>,
    pub api_key: Option<Seq<char>>,
    pub bearer_token: Option<Seq<char>>,
    pub sdk_token: Option<Seq<char>>,
}

impl RestConfigView {
    /// How many of the three credentials are configured.
    pub open spec fn token_count(self) -> nat {
        let a: nat = if self.api_key is Some { 1 } else { 0 };
        let b: nat = if self.bearer_token is Some { 1 } else { 0 };
        let s: nat = if self.sdk_token is Some { 1 } else { 0 };
        a + b + s
    }

    /// The outcome of validating the configuration: exactly one credential
    /// is accepted, none is a missing credential, several are ambiguous.
    pub open spec fn validation(self) -> Result<(), ErrorView> {
        if self.token_count() == 0 {
            Err(ErrorView::MissingCredentials)
        } else if self.token_count() > 1 {
            Err(ErrorView::General(AMBIGUOUS_CREDENTIALS_MESSAGE@))
        } else {
            Ok(())
        }
    }

    /// The header that carries the credential: the API key first, then the
    /// bearer token, then the SDK token.
    pub open spec fn auth_header(self) -> Option<HeaderView> {
        if let Some(key) = self.api_key {
            Some(HeaderView { name: "X-API-Key"@, value: key })
        } else if let Some(token) = self.bearer_token {
            Some(HeaderView { name: "Authorization"@, value: "Bearer "@ + token })
        } else if let Some(token) = self.sdk_token {
            Some(HeaderView { name: "X-SDK-Token"@, value: token })
        } else {
            None
        }
    }

    /// The headers of every request made under this configuration.
    pub open spec fn headers(self) -> Seq<HeaderView> {
        match self.auth_header() {
            Some(header) => seq![header],
            None => Seq::empty(),
        }
    }
}

impl View for RestConfig {
    type V = RestConfigView;

    open spec fn view(&self) -> RestConfigView {
        RestConfigView {
            base_url: self.base_url@,
            api_key: self.api_key.deep_view(),
            bearer_token: self.bearer_token.deep_view(),
            sdk_token: self.sdk_token.deep_view(),
        }
    }
}

impl Clone for RestConfig {
    fn clone(&self) -> (copy: Self)
        ensures
            copy == *self,
    {
        RestConfig {
            base_url: self.base_url.clone(),
            api_key: clone_optional(&self.api_key),
            bearer_token: clone_optional(&self.bearer_token),
            sdk_token: clone_optional(&self.sdk_token),
        }
    }
}

impl RestConfig {
    /// A configuration with an empty base address and no credential.
    pub fn new() -> (config: Self)
        ensures
            config@ == (RestConfigView {
                base_url: Seq::empty(),
                api_key: None,
                bearer_token: None,
                sdk_token: None,
            }),
    {
        Self { base_url: String::new(), api_key: None, bearer_token: None, sdk_token: None }
    }

    /// The same configuration with the SDK token set to `token`.
    pub fn with_sdk_token(self, token: String) -> (config: Self)
        ensures
            config@ == (RestConfigView { sdk_token: Some(token@), ..self@ }),
    {
        let mut config = self;
        config.sdk_token = Some(token);
        config
    }

    /// The same configuration with the API key set to `key`.
    pub fn with_api_key(self, key: String) -> (config: Self)
        ensures
            config@ == (RestConfigView { api_key: Some(key@), ..self@ }),
    {
        let mut config = self;
        config.api_key = Some(key);
        config
    }

    /// The same configuration with the bearer token set to `token`.
    pub fn with_bearer_token(self, token: String) -> (config: Self)
        ensures
            config@ == (RestConfigView { bearer_token: Some(token@), ..self@ }),
    {
        let mut config = self;
        config.bearer_token = Some(token);
        config
    }

    /// The same configuration with the base address set to `url`.
    pub fn with_base_url(self, url: String) -> (config: Self)
        ensures
            config@ == (RestConfigView { base_url: url@, ..self@ }),
    {
        let mut config = self;
        config.base_url = url;
        config
    }

    /// Accepts the configuration when exactly one credential is set.
    pub fn validate(&self) -> (outcome: Result<(), Error>)
        ensures
            outcome_view(outcome) == self@.validation(),
    {
        let mut token_count: u8 = 0;
        if self.api_key.is_some() {
            token_count = token_count + 1;
        }
        if self.bearer_token.is_some() {
            token_count = token_count + 1;
        }
        if self.sdk_token.is_some() {
            token_count = token_count + 1;
        }
        if token_count == 0 {
            return Err(Error::MissingCredentials);
        }
        if token_count > 1 {
            return Err(Error::general(AMBIGUOUS_CREDENTIALS_MESSAGE));
        }
        Ok(())
    }
}

/// `name: value` as a header.
fn header(name: &str, value: String) -> (h: Header)
    ensures
        h@ == (HeaderView { name: name@, value: value@ }),
{
    Header { name: String::from_str(name), value }
}

impl RestConfig {
    /// The headers of every request made under this configuration.
    pub fn headers(&self) -> (headers: Vec<Header>)
        ensures
            headers.deep_view() == self@.headers(),
    {
        let mut headers: Vec<Header> = Vec::new();
        if let Some(key) = &self.api_key {
            headers.push(header("X-API-Key", key.clone()));
        } else if let Some(token) = &self.bearer_token {
            headers.push(header("Authorization", String::from_str("Bearer ").concat(token.as_str())));
        } else if let Some(token) = &self.sdk_token {
            headers.push(header("X-SDK-Token", token.clone()));
        }
        assert(headers.deep_view() =~= self@.headers());
        headers
    }

    /// The address of `symbol` under the service `section`.
    pub open spec fn resource_url(self, section: Seq<char>, symbol: Seq<char>) -> Seq<char> {
        self.base_url@ + "/"@ + section + "/"@ + symbol
    }

    /// The address of `symbol` under the service `section`.
    pub fn resource(&self, section: &str, symbol: &str) -> (url: String)
        ensures
            url@ == self.resource_url(section@, symbol@),
    {
        self.base_url.clone().concat("/").concat(section).concat("/").concat(symbol)
    }
}

/// Stock intraday data client
pub struct Intraday {
    config: RestConfig,
}

impl Intraday {
    /// The configuration the client was made with.
    pub closed spec fn config(&self) -> RestConfig {
        self.config
    }

    /// Every client holds a configuration with exactly one credential.
    #[verifier::type_invariant]
    pub closed spec fn valid(&self) -> bool {
        self.config@.validation() is Ok
    }

    /// A client under `config`, if `config` holds exactly one credential.
    pub fn new(config: RestConfig) -> (made: Result<Self, Error>)
        ensures
            made is Ok <==> config@.validation() is Ok,
            made matches Ok(client) ==> client.config() == config,
            made matches Err(e) ==> Err::<(), ErrorView>(e@) == config@.validation(),
    {
        match config.validate() {
            Ok(()) => Ok(Self { config }),
            Err(e) => Err(e),
        }
    }

    /// The request for the intraday data of `symbol`.
    pub fn request(&self, symbol: &str) -> (request: RestRequest)
        ensures
            request@ == (RestRequestView {
                url: self.config().resource_url("intraday"@, symbol@),
                headers: self.config()@.headers(),
                query: Seq::empty(),
            }),
            request@.headers.len() == 1,
    {
        proof {
            use_type_invariant(self);
        }
        let request = RestRequest {
            url: self.config.resource("intraday", symbol),
            headers: self.config.headers(),
            query: Vec::new(),
        };
        assert(request.query.deep_view() =~= Seq::<HeaderView>::empty());
        request
    }
}

/// Stock historical data client
pub struct Historical {
    config: RestConfig,
}

impl Historical {
    /// The configuration the client was made with.
    pub closed spec fn config(&self) -> RestConfig {
        self.config
    }

    /// Every client holds a configuration with exactly one credential.
    #[verifier::type_invariant]
    pub closed spec fn valid(&self) -> bool {
        self.config@.validation() is Ok
    }

    /// A client under `config`, if `config` holds exactly one credential.
    pub fn new(config: RestConfig) -> (made: Result<Self, Error>)
        ensures
            made is Ok <==> config@.validation() is Ok,
            made matches Ok(client) ==> client.config() == config,
            made matches Err(e) ==> Err::<(), ErrorView>(e@) == config@.validation(),
    {
        match config.validate() {
            Ok(()) => Ok(Self { config }),
            Err(e) => Err(e),
        }
    }

    /// The request for the historical data of `symbol` between the dates
    /// `from` and `to`.
    pub fn request(&self, symbol: &str, from: &str, to: &str) -> (request: RestRequest)
        ensures
            request@ == (RestRequestView {
                url: self.config().resource_url("historical"@, symbol@),
                headers: self.config()@.headers(),
                query: seq![
                    HeaderView { name: "from"@, value: from@ },
                    HeaderView { name: "to"@, value: to@ },
                ],
            }),
            request@.headers.len() == 1,
    {
        proof {
            use_type_invariant(self);
        }
        let mut query: Vec<Header> = Vec::new();
        query.push(header("from", String::from_str(from)));
        query.push(header("to", String::from_str(to)));
        let request = RestRequest {
            url: self.config.resource("historical", symbol),
            headers: self.config.headers(),
            query,
        };
        assert(request.query.deep_view() =~= seq![
            HeaderView { name: "from"@, value: from@ },
            HeaderView { name: "to"@, value: to@ },
        ]);
        request
    }
}

/// Stock snapshot data client
pub struct Snapshot {
    config: RestConfig,
}

impl Snapshot {
    /// The configuration the client was made with.
    pub closed spec fn config(&self) -> RestConfig {
        self.config
    }

    /// Every client holds a configuration with exactly one credential.
    #[verifier::type_invariant]
    pub closed spec fn valid(&self) -> bool {
        self.config@.validation() is Ok
    }

    /// A client under `config`, if `config` holds exactly one credential.
    pub fn new(config: RestConfig) -> (made: Result<Self, Error>)
        ensures
            made is Ok <==> config@.validation() is Ok,
            made matches Ok(client) ==> client.config() == config,
            made matches Err(e) ==> Err::<(), ErrorView>(e@) == config@.validation(),
    {
        match config.validate() {
            Ok(()) => Ok(Self { config }),
            Err(e) => Err(e),
        }
    }

    /// The request for the snapshot of `symbol`.
    pub fn request(&self, symbol: &str) -> (request: RestRequest)
        ensures
            request@ == (RestRequestView {
                url: self.config().resource_url("snapshot"@, symbol@),
                headers: self.config()@.headers(),
                query: Seq::empty(),
            }),
            request@.headers.len() == 1,
    {
        proof {
            use_type_invariant(self);
        }
        let request = RestRequest {
            url: self.config.resource("snapshot", symbol),
            headers: self.config.headers(),
            query: Vec::new(),
        };
        assert(request.query.deep_view() =~= Seq::<HeaderView>::empty());
        request
    }
}

/// Stock REST client
pub struct RestStockClient {
    config: RestConfig,
}

impl RestStockClient {
    /// The configuration the client was made with.
    pub closed spec fn config(&self) -> RestConfig {
        self.config
    }

    /// Every client holds a configuration with exactly one credential.
    #[verifier::type_invariant]
    pub closed spec fn valid(&self) -> bool {
        self.config@.validation() is Ok
    }

    /// A client under `config`, if `config` holds exactly one credential.
    pub fn new(config: RestConfig) -> (made: Result<Self, Error>)
        ensures
            made is Ok <==> config@.validation() is Ok,
            made matches Ok(client) ==> client.config() == config,
            made matches Err(e) ==> Err::<(), ErrorView>(e@) == config@.validation(),
    {
        match config.validate() {
            Ok(()) => Ok(Self { config }),
            Err(e) => Err(e),
        }
    }

    /// The intraday client under the same configuration.
    pub fn intraday(&self) -> (made: Result<Intraday, Error>)
        ensures
            made matches Ok(client) && client.config() == self.config(),
    {
        proof {
            use_type_invariant(self);
        }
        Intraday::new(self.config.clone())
    }

    /// The historical client under the same configuration.
    pub fn historical(&self) -> (made: Result<Historical, Error>)
        ensures
            made matches Ok(client) && client.config() == self.config(),
    {
        proof {
            use_type_invariant(self);
        }
        Historical::new(self.config.clone())
    }

    /// The snapshot client under the same configuration.
    pub fn snapshot(&self) -> (made: Result<Snapshot, Error>)
        ensures
            made matches Ok(client) && client.config() == self.config(),
    {
        proof {
            use_type_invariant(self);
        }
        Snapshot::new(self.config.clone())
    }
}

/// Main REST client
pub struct RestClient {
    sdk_token: String,
}

impl RestClient {
    /// The SDK token the client presents.
    pub closed spec fn sdk_token(&self) -> Seq<char> {
        self.sdk_token@
    }

    /// A client that presents `sdk_token`.
    pub fn new(sdk_token: String) -> (made: Result<Self, Error>)
        ensures
            made matches Ok(client) && client.sdk_token() == sdk_token@,
    {
        Ok(Self { sdk_token })
    }

    /// The stock client: the SDK token against the service's base address.
    pub fn stock(&self) -> (made: Result<RestStockClient, Error>)
        ensures
            made matches Ok(client) && client.config()@ == (RestConfigView {
                base_url: REST_BASE_URL@,
                api_key: None,
                bearer_token: None,
                sdk_token: Some(self.sdk_token()),
            }),
    {
        let config = RestConfig::new().with_sdk_token(self.sdk_token.clone()).with_base_url(
            String::from_str(REST_BASE_URL),
        );
        RestStockClient::new(config)
    }
}

} // verus!
