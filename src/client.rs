//! The client's configuration and the HTTP requests that its operations send.
//! Sending them and reading the answers is the transport's part; what to send
//! is decided here.
use vstd::prelude::*;
use crate::enums::{ModelState, ModelType};
use crate::text::{decimal, decimal_of};

verus! {

/// The API key of the anonymous user.
pub const DEFAULT_API_KEY: &'static str = "0000000000";

/// The service's public endpoint.
pub const DEFAULT_BASE_URL: &'static str = "https://aihorde.net/api/v2";

/// The version of this library.
pub const PKG_VERSION: &'static str = "0.1.0";

/// The client identifier sent when the caller gives none:
/// `{library-name}:{version}:{project-url}`.
pub const DEFAULT_CLIENT_AGENT: &'static str = "aihorde-rs:0.1.0:https://github.com/lapismyt/aihorde-rs";

/// The sort key of the user list when the caller gives none.
pub const DEFAULT_USER_SORT: &'static str = "kudos";

/// What `url::Url::parse` makes of a text: the serialisation of the parsed
/// URL, or `None` when the text is no absolute URL.
pub uninterp spec fn parsed_url(s: Seq<char>) -> Option<Seq<char>>;

/// Relies on `url::Url::parse`, which accepts absolute URLs only, and on the
/// `String` that `url::Url` converts into: its serialisation. Both depend on
/// the text alone.
#[verifier::external_body]
fn parse_absolute_url(s: &str) -> (r: Option<String>)
    ensures
        match r {
            Some(u) => parsed_url(s@) == Some(u@),
            None => parsed_url(s@).is_none(),
        },
{
    match url::Url::parse(s) {
        Ok(u) => Some(String::from(u)),
        Err(_) => None,
    }
}

/// The HTTP verbs that the operations use.
#[derive(Debug, Clone, Copy, PartialEq, Eq, Structural)]
pub enum HttpMethod {
    Get,
    Post,
}

/// A request to send: verb, URL, query parameters in order, and headers in
/// order. A request that carries a body (submitting a generation) gets it as
/// JSON from the transport.
#[derive(Debug, Clone)]
pub struct ApiRequest {
    pub method: HttpMethod,
    pub url: String,
    pub query: Vec<(String, String)>,
    pub headers: Vec<(String, String)>,
}

/// What an `ApiRequest` holds, as sequences of characters.
pub struct ApiRequestView {
    pub method: HttpMethod,
    pub url: Seq<char>,
    pub query: Seq<(Seq<char>, Seq<char>)>,
    pub headers: Seq<(Seq<char>, Seq<char>)>,
}

impl View for ApiRequest {
    type V = ApiRequestView;

    open spec fn view(&self) -> ApiRequestView {
        ApiRequestView {
            method: self.method,
            url: self.url@,
            query: self.query.deep_view(),
            headers: self.headers.deep_view(),
        }
    }
}

/// What a client holds: the API key, the base URL (a serialised absolute URL)
/// and the client identifier.
pub struct ClientConfig {
    pub api_key: Seq<char>,
    pub base_url: Seq<char>,
    pub client_agent: Seq<char>,
}

/// The configuration of a connection to the service. It holds no state that
/// a call changes, so one client serves any number of calls.
#[derive(Debug, Clone)]
pub struct AihordeClient {
    api_key: String,
    base_url: String,
    client_agent: String,
}

impl View for AihordeClient {
    type V = ClientConfig;

    closed spec fn view(&self) -> ClientConfig {
        ClientConfig {
            api_key: self.api_key@,
            base_url: self.base_url@,
            client_agent: self.client_agent@,
        }
    }
}

/// The base URL that a client takes from an optional override: the parsed
/// override when it is an absolute URL, else the default.
pub open spec fn chosen_base_url(base_url: Option<Seq<char>>) -> Seq<char> {
    match base_url {
        Some(s) => match parsed_url(s) {
            Some(u) => u,
            None => DEFAULT_BASE_URL@,
        },
        None => DEFAULT_BASE_URL@,
    }
}

/// The query of the active-model listing: one parameter for each filter that
/// is given, in the order model type, minimum count, maximum count, state.
pub open spec fn active_models_query(
    model_type: Option<ModelType>,
    min_count: Option<u64>,
    max_count: Option<u64>,
    model_state: Option<ModelState>,
) -> Seq<(Seq<char>, Seq<char>)> {
    let a = match model_type {
        Some(t) => seq![("model_type"@, t.spec_wire())],
        None => seq![],
    };
    let b = match min_count {
        Some(n) => seq![("min_count"@, decimal_of(n as nat))],
        None => seq![],
    };
    let c = match max_count {
        Some(n) => seq![("max_count"@, decimal_of(n as nat))],
        None => seq![],
    };
    let d = match model_state {
        Some(s) => seq![("state"@, s.spec_wire())],
        None => seq![],
    };
    a + b + c + d
}

impl AihordeClient {
    /// The request with this verb, path below the base URL and query, and the
    /// two headers that every call carries: `apikey` and `Client-Agent`.
    pub open spec fn spec_request(
        self,
        method: HttpMethod,
        path: Seq<char>,
        query: Seq<(Seq<char>, Seq<char>)>,
    ) -> ApiRequestView {
        ApiRequestView {
            method,
            url: self@.base_url + path,
            query,
            headers: seq![("apikey"@, self@.api_key), ("Client-Agent"@, self@.client_agent)],
        }
    }

    /// A client with the given overrides; each one that is `None` takes its
    /// default. A base URL that is no absolute URL falls back to the default
    /// as well: making a client never fails.
    pub fn new(api_key: Option<String>, base_url: Option<String>, client_agent: Option<String>) -> (r: AihordeClient)
        ensures
            r@.api_key == match api_key {
                Some(k) => k@,
                None => DEFAULT_API_KEY@,
            },
            r@.base_url == chosen_base_url(
                match base_url {
                    Some(u) => Some(u@),
                    None => None,
                },
            ),
            r@.client_agent == match client_agent {
                Some(a) => a@,
                None => DEFAULT_CLIENT_AGENT@,
            },
            base_url.is_some() && parsed_url(base_url.unwrap()@).is_none()
                ==> r@.base_url == DEFAULT_BASE_URL@,
    {
        let api_key = match api_key {
            Some(k) => k,
            None => String::from_str(DEFAULT_API_KEY),
        };
        let base_url = match base_url {
            Some(u) => match parse_absolute_url(u.as_str()) {
                Some(parsed) => parsed,
                None => String::from_str(DEFAULT_BASE_URL),
            },
            None => String::from_str(DEFAULT_BASE_URL),
        };
        let client_agent = match client_agent {
            Some(a) => a,
            None => String::from_str(DEFAULT_CLIENT_AGENT),
        };
        AihordeClient { api_key, base_url, client_agent }
    }

    /// The API key sent with every call.
    pub fn api_key(&self) -> (r: &str)
        ensures
            r@ == self@.api_key,
    {
        self.api_key.as_str()
    }

    /// The base URL that every request's URL starts with.
    pub fn base_url(&self) -> (r: &str)
        ensures
            r@ == self@.base_url,
    {
        self.base_url.as_str()
    }

    /// The client identifier sent with every call.
    pub fn client_agent(&self) -> (r: &str)
        ensures
            r@ == self@.client_agent,
    {
        self.client_agent.as_str()
    }

    fn request(&self, method: HttpMethod, path: &str, query: Vec<(String, String)>) -> (r: ApiRequest)
        ensures
            r@ == self.spec_request(method, path@, query.deep_view()),
    {
        let mut url = self.base_url.clone();
        url.append(path);
        let mut headers: Vec<(String, String)> = Vec::new();
        headers.push((String::from_str("apikey"), self.api_key.clone()));
        headers.push((String::from_str("Client-Agent"), self.client_agent.clone()));
        proof {
            assert(headers.deep_view() =~= seq![("apikey"@, self@.api_key), ("Client-Agent"@, self@.client_agent)]);
        }
        ApiRequest { method, url, query, headers }
    }

    /// The request that looks up the user that the API key belongs to.
    pub fn find_user_request(&self) -> (r: ApiRequest)
        ensures
            r@ == self.spec_request(HttpMethod::Get, "/find_user"@, seq![]),
    {
        let r = self.request(HttpMethod::Get, "/find_user", Vec::new());
        proof {
            assert(r.query.deep_view() =~= seq![]);
        }
        r
    }

    /// The request for the details and statistics of the user `user_id`.
    pub fn get_user_request(&self, user_id: &str) -> (r: ApiRequest)
        ensures
            r@ == self.spec_request(HttpMethod::Get, "/users/"@ + user_id@, seq![]),
    {
        let mut path = String::from_str("/users/");
        path.append(user_id);
        let r = self.request(HttpMethod::Get, path.as_str(), Vec::new());
        proof {
            assert(r.query.deep_view() =~= seq![]);
        }
        r
    }

    /// The request for one page of the user list, sorted by `sort`, or by
    /// kudos when it is `None`. The page size is the service's.
    pub fn get_users_request(&self, page: u32, sort: Option<String>) -> (r: ApiRequest)
        ensures
            r@ == self.spec_request(
                HttpMethod::Get,
                "/users?page="@ + decimal_of(page as nat) + "&sort="@ + match sort {
                    Some(k) => k@,
                    None => DEFAULT_USER_SORT@,
                },
                seq![],
            ),
    {
        let sort = match sort {
            Some(k) => k,
            None => String::from_str(DEFAULT_USER_SORT),
        };
        let mut path = String::from_str("/users?page=");
        let number = decimal(page as u64);
        path.append(number.as_str());
        path.append("&sort=");
        path.append(sort.as_str());
        let r = self.request(HttpMethod::Get, path.as_str(), Vec::new());
        proof {
            assert(r.query.deep_view() =~= seq![]);
            assert(r@.url =~= self@.base_url + ("/users?page="@ + decimal_of(page as nat) + "&sort="@ + sort@));
        }
        r
    }

    /// The request that submits a generation; the transport sends the
    /// generation request as its JSON body.
    pub fn generate_async_request(&self) -> (r: ApiRequest)
        ensures
            r@ == self.spec_request(HttpMethod::Post, "/generate/async"@, seq![]),
    {
        let r = self.request(HttpMethod::Post, "/generate/async", Vec::new());
        proof {
            assert(r.query.deep_view() =~= seq![]);
        }
        r
    }

    /// The cheap status request of the generation `request_id`: counts only.
    pub fn generation_check_request(&self, request_id: &str) -> (r: ApiRequest)
        ensures
            r@ == self.spec_request(HttpMethod::Get, "/generate/check/"@ + request_id@, seq![]),
    {
        let mut path = String::from_str("/generate/check/");
        path.append(request_id);
        let r = self.request(HttpMethod::Get, path.as_str(), Vec::new());
        proof {
            assert(r.query.deep_view() =~= seq![]);
        }
        r
    }

    /// The full status request of the generation `request_id`, results
    /// included.
    pub fn generation_status_request(&self, request_id: &str) -> (r: ApiRequest)
        ensures
            r@ == self.spec_request(HttpMethod::Get, "/generate/status/"@ + request_id@, seq![]),
    {
        let mut path = String::from_str("/generate/status/");
        path.append(request_id);
        let r = self.request(HttpMethod::Get, path.as_str(), Vec::new());
        proof {
            assert(r.query.deep_view() =~= seq![]);
        }
        r
    }

    /// The request for the models active now. Each filter that is `None`
    /// leaves its axis unconstrained and sends no parameter.
    pub fn get_active_models_request(
        &self,
        model_type: Option<ModelType>,
        min_count: Option<u64>,
        max_count: Option<u64>,
        model_state: Option<ModelState>,
    ) -> (r: ApiRequest)
        ensures
            r@ == self.spec_request(
                HttpMethod::Get,
                "/status/models"@,
                active_models_query(model_type, min_count, max_count, model_state),
            ),
    {
        let mut query: Vec<(String, String)> = Vec::new();
        if let Some(t) = model_type {
            query.push((String::from_str("model_type"), String::from_str(t.as_str())));
        }
        if let Some(n) = min_count {
            query.push((String::from_str("min_count"), decimal(n)));
        }
        if let Some(n) = max_count {
            query.push((String::from_str("max_count"), decimal(n)));
        }
        if let Some(s) = model_state {
            query.push((String::from_str("state"), String::from_str(s.as_str())));
        }
        proof {
            assert(query.deep_view() =~= active_models_query(model_type, min_count, max_count, model_state));
        }
        self.request(HttpMethod::Get, "/status/models", query)
    }
}

impl Default for AihordeClient {
    /// The client of the anonymous user on the public endpoint, with this
    /// library's identifier.
    fn default() -> (r: AihordeClient)
        ensures
            r@ == (ClientConfig {
                api_key: DEFAULT_API_KEY@,
                base_url: DEFAULT_BASE_URL@,
                client_agent: DEFAULT_CLIENT_AGENT@,
            }),
    {
        AihordeClient::new(None, None, None)
    }
}

} // verus!
