//! The hub's REST interface: the state of an entity, the requests that the
//! client sends and the classification of the answers.

use crate::datasource::error::{HaError, HaErrorView};
use crate::datasource::header::{
    header_char, header_text, header_value, lemma_header_text_bytes,
};
use crate::datasource::json::{encode, json_encoding, json_members};
use crate::text::{lemma_trim_trailing, trim_end_slashes, trim_trailing};
use vstd::prelude::*;
use vstd::string::*;

verus! {

/// The state of one entity, as the hub reports it.
#[derive(Debug, Clone)]
pub struct State {
    /// The entity's own value, where it has one.
    pub state: Option<String>,
    /// The entity's attributes, where it has any.
    pub attributes: Option<serde_json::Value>,
    /// When the state was last written, as the hub gives it.
    pub last_updated: String,
    /// When the state last changed, as the hub gives it.
    pub last_changed: String,
}

/// Mathematical value of a [`State`]: its texts, and of its attributes the
/// members with the text of each that is a string.
pub struct StateView {
    pub state: Option<Seq<char>>,
    pub attributes: Option<Map<Seq<char>, Option<Seq<char>>>>,
    pub last_updated: Seq<char>,
    pub last_changed: Seq<char>,
}

impl View for State {
    type V = StateView;

    open spec fn view(&self) -> StateView {
        StateView {
            state: match self.state {
                Some(s) => Some(s@),
                None => None,
            },
            attributes: match self.attributes {
                Some(a) => Some(json_members(a)),
                None => None,
            },
            last_updated: self.last_updated@,
            last_changed: self.last_changed@,
        }
    }
}

/// Seconds after which a request is given up.
pub const REQUEST_TIMEOUT_SECS: u64 = 10;

/// How a request asks.
#[derive(Debug, Clone, Copy, PartialEq, Eq, Structural)]
pub enum Method {
    Get,
    Post,
}

/// One request to the hub, complete: whoever sends it adds nothing.
#[derive(Debug, Clone, PartialEq, Eq)]
pub struct Request {
    pub method: Method,
    /// The address in full.
    pub url: String,
    /// Value of the `Authorization` header.
    pub authorization: String,
    /// Seconds to wait for the answer.
    pub timeout_secs: u64,
    /// The JSON document to send as the body, where there is one.
    pub body: Option<String>,
}

/// Mathematical value of a [`Request`].
pub struct RequestView {
    pub method: Method,
    pub url: Seq<char>,
    pub authorization: Seq<char>,
    pub timeout_secs: u64,
    pub body: Option<Seq<char>>,
}

impl View for Request {
    type V = RequestView;

    open spec fn view(&self) -> RequestView {
        RequestView {
            method: self.method,
            url: self.url@,
            authorization: self.authorization@,
            timeout_secs: self.timeout_secs,
            body: match self.body {
                Some(b) => Some(b@),
                None => None,
            },
        }
    }
}

/// What the hub answered: the status, and the body read to its end.
#[derive(Debug, Clone, PartialEq, Eq)]
pub struct Response {
    pub status: u16,
    pub body: String,
}

/// A status that reports success.
pub open spec fn is_success(status: u16) -> bool {
    200 <= status <= 299
}

/// Whether `status` reports success.
pub fn status_is_success(status: u16) -> (b: bool)
    ensures
        b == is_success(status),
{
    200 <= status && status <= 299
}

impl Response {
    /// The body of an answer that reports success; any other answer is a
    /// failure that carries its status and its body.
    pub fn into_body(self) -> (r: Result<String, HaError>)
        ensures
            match r {
                Ok(body) => is_success(self.status) && body@ == self.body@,
                Err(e) => !is_success(self.status) && e@ == (HaErrorView::Status {
                    status: self.status,
                    body: self.body@,
                }),
            },
    {
        if status_is_success(self.status) {
            Ok(self.body)
        } else {
            Err(HaError::Status { status: self.status, body: self.body })
        }
    }
}

/// What sending a request came to: the body of an answer that reports
/// success. An answer with any other status is a failure that carries its
/// status and body; where no answer arrived, `detail` says why, and that
/// is a failure of the transport.
pub fn received(answer: Result<Response, String>) -> (r: Result<String, HaError>)
    ensures
        match answer {
            Ok(response) => match r {
                Ok(body) => is_success(response.status) && body@ == response.body@,
                Err(e) => !is_success(response.status) && e@ == (HaErrorView::Status {
                    status: response.status,
                    body: response.body@,
                }),
            },
            Err(detail) => r matches Err(e) && e@ == (HaErrorView::Transport {
                detail: detail@,
            }),
        },
{
    match answer {
        Ok(response) => response.into_body(),
        Err(detail) => Err(HaError::Transport { detail }),
    }
}

/// What decoding a body came to: the value read from it, or a failure of
/// the transport that says with `detail` why none could be read.
pub fn decoded<T>(value: Result<T, String>) -> (r: Result<T, HaError>)
    ensures
        match value {
            Ok(v) => r == Ok::<T, HaError>(v),
            Err(detail) => r matches Err(e) && e@ == (HaErrorView::Transport {
                detail: detail@,
            }),
        },
{
    match value {
        Ok(v) => Ok(v),
        Err(detail) => Err(HaError::Transport { detail }),
    }
}

/// Mathematical value of a [`HomeAssistantClient`].
pub struct ClientView {
    /// Root of the hub's REST interface.
    pub base_url: Seq<char>,
    /// Value of the `Authorization` header of every request.
    pub authorization: Seq<char>,
}

impl ClientView {
    /// The client made for the hub at `host` with the credential `token`.
    pub open spec fn of(host: Seq<char>, token: Seq<char>) -> ClientView {
        ClientView {
            base_url: trim_trailing(host, '/') + "/api"@,
            authorization: "Bearer "@ + token,
        }
    }

    /// Some host and some token that can be sent in a header give this
    /// client.
    pub open spec fn wf(self) -> bool {
        exists|host: Seq<char>, token: Seq<char>|
            header_text(token) && #[trigger] ClientView::of(host, token) == self
    }

    /// A request of this client with the given method, path below the root
    /// and body.
    pub open spec fn request(self, method: Method, path: Seq<char>, body: Option<Seq<char>>) -> RequestView {
        RequestView {
            method,
            url: self.base_url + path,
            authorization: self.authorization,
            timeout_secs: REQUEST_TIMEOUT_SECS,
            body,
        }
    }

    /// The request for the state of one entity.
    pub open spec fn state_request(self, entity_id: Seq<char>) -> RequestView {
        self.request(Method::Get, "/states/"@ + entity_id, None)
    }

    /// The request for the states of all entities.
    pub open spec fn states_request(self) -> RequestView {
        self.request(Method::Get, "/states"@, None)
    }

    /// The request that calls `service` of `domain` with `body`.
    pub open spec fn service_request(
        self,
        domain: Seq<char>,
        service: Seq<char>,
        body: Seq<char>,
    ) -> RequestView {
        self.request(Method::Post, "/services/"@ + domain + "/"@ + service, Some(body))
    }
}

/// A client of one hub. Once made it does not change.
#[derive(Debug)]
pub struct HomeAssistantClient {
    base_url: String,
    authorization: String,
}

impl View for HomeAssistantClient {
    type V = ClientView;

    closed spec fn view(&self) -> ClientView {
        ClientView { base_url: self.base_url@, authorization: self.authorization@ }
    }
}

impl Clone for HomeAssistantClient {
    fn clone(&self) -> (r: Self)
        ensures
            r@ == self@,
    {
        proof {
            use_type_invariant(self);
        }
        HomeAssistantClient {
            base_url: self.base_url.clone(),
            authorization: self.authorization.clone(),
        }
    }
}

impl HomeAssistantClient {
    #[verifier::type_invariant]
    spec fn made(self) -> bool {
        self@.wf()
    }

    /// A client for the hub at `host` that authenticates with `token`. The
    /// root of the REST interface is `host` without the `/` at its end,
    /// followed by `/api`. Fails when `token` holds a character that cannot
    /// be sent in a header.
    pub fn new(host: String, token: String) -> (r: Result<HomeAssistantClient, HaError>)
        ensures
            match r {
                Ok(client) => header_text(token@) && client@ == ClientView::of(host@, token@)
                    && client@.wf(),
                Err(e) => !header_text(token@) && e@ == (HaErrorView::Construction {
                    detail: "token cannot be sent in a header"@,
                }),
            },
    {
        let authorization: String = String::from_str("Bearer ").concat(token.as_str());
        proof {
            reveal_strlit("Bearer ");
            lemma_header_text_bytes(authorization@);
            if header_text(authorization@) {
                assert forall|i: int| 0 <= i < token@.len() implies header_char(
                    #[trigger] token@[i],
                ) by {
                    assert(authorization@[7 + i] == token@[i]);
                }
            }
        }
        match header_value(authorization.as_str()) {
            Err(_) => Err(
                HaError::Construction {
                    detail: String::from_str("token cannot be sent in a header"),
                },
            ),
            Ok(_) => {
                let base_url: String = String::from_str(trim_end_slashes(host.as_str())).concat(
                    "/api",
                );
                assert(ClientView::of(host@, token@) == (ClientView {
                    base_url: base_url@,
                    authorization: authorization@,
                }));
                Ok(HomeAssistantClient { base_url, authorization })
            },
        }
    }

    /// Root of the hub's REST interface.
    pub fn base_url(&self) -> (r: &str)
        ensures
            r@ == self@.base_url,
            self@.wf(),
    {
        proof {
            use_type_invariant(self);
        }
        self.base_url.as_str()
    }

    /// Value of the `Authorization` header of every request.
    pub fn authorization(&self) -> (r: &str)
        ensures
            r@ == self@.authorization,
            self@.wf(),
    {
        proof {
            use_type_invariant(self);
        }
        self.authorization.as_str()
    }

    fn request(&self, method: Method, path: &str, body: Option<String>) -> (r: Request)
        ensures
            r@ == self@.request(
                method,
                path@,
                match body {
                    Some(b) => Some(b@),
                    None => None,
                },
            ),
            self@.wf(),
    {
        proof {
            use_type_invariant(self);
        }
        Request {
            method,
            url: self.base_url.clone().concat(path),
            authorization: self.authorization.clone(),
            timeout_secs: REQUEST_TIMEOUT_SECS,
            body,
        }
    }

    /// The request for the state of `entity_id`. Its answer, where it
    /// reports success, holds one [`State`] as a JSON object.
    pub fn get_state(&self, entity_id: &str) -> (r: Request)
        ensures
            r@ == self@.state_request(entity_id@),
            self@.wf(),
    {
        let path: String = String::from_str("/states/").concat(entity_id);
        self.request(Method::Get, path.as_str(), None)
    }

    /// The request for the states of all entities that the hub knows. Its
    /// answer, where it reports success, holds a JSON array of [`State`]s.
    pub fn get_states(&self) -> (r: Request)
        ensures
            r@ == self@.states_request(),
            self@.wf(),
    {
        self.request(Method::Get, "/states", None)
    }

    /// The request that calls `service` of `domain` with the JSON document
    /// `body`.
    pub fn service_request(&self, domain: &str, service: &str, body: String) -> (r: Request)
        ensures
            r@ == self@.service_request(domain@, service@, body@),
            self@.wf(),
    {
        let path: String = String::from_str("/services/").concat(domain).concat("/").concat(
            service,
        );
        self.request(Method::Post, path.as_str(), Some(body))
    }

    /// The request that calls `service` of `domain` with `data` as its
    /// body, or with the empty object where there is no data. Fails only
    /// when `data` is given and cannot be encoded.
    pub fn call_service(
        &self,
        domain: &str,
        service: &str,
        data: Option<serde_json::Value>,
    ) -> (r: Result<Request, HaError>)
        ensures
            self@.wf(),
            data is None ==> r is Ok,
            match r {
                Ok(request) => request@ == self@.service_request(
                    domain@,
                    service@,
                    match data {
                        Some(value) => json_encoding(value),
                        None => "{}"@,
                    },
                ),
                Err(e) => e@ == (HaErrorView::Transport {
                    detail: "payload cannot be encoded"@,
                }),
            },
    {
        proof {
            use_type_invariant(self);
        }
        match data {
            None => Ok(self.service_request(domain, service, String::from_str("{}"))),
            Some(value) => match encode(&value) {
                Ok(body) => Ok(self.service_request(domain, service, body)),
                Err(_) => Err(
                    HaError::Transport { detail: String::from_str("payload cannot be encoded") },
                ),
            },
        }
    }
}

/// What holds of every client and so of each of its requests: the value
/// of the `Authorization` header is `Bearer ` and a token, all of it fit to
/// be sent, and the root of the addresses ends in `/api` with no `/`
/// before it.
pub proof fn lemma_client_wf(client: ClientView)
    requires
        client.wf(),
    ensures
        header_text(client.authorization),
        client.authorization.len() >= 7,
        client.authorization.subrange(0, 7) == "Bearer "@,
        client.base_url.len() >= 4,
        client.base_url.subrange(client.base_url.len() - 4, client.base_url.len() as int)
            == "/api"@,
        client.base_url.len() > 4 ==> client.base_url[client.base_url.len() - 5] != '/',
{
    let (host, token) = choose|host: Seq<char>, token: Seq<char>|
        header_text(token) && #[trigger] ClientView::of(host, token) == client;
    reveal_strlit("Bearer ");
    reveal_strlit("/api");
    let stem = trim_trailing(host, '/');
    lemma_trim_trailing(host, '/');
    assert(client.authorization.subrange(0, 7) =~= "Bearer "@);
    assert(client.base_url.subrange(client.base_url.len() - 4, client.base_url.len() as int)
        =~= "/api"@);
    assert forall|i: int| 0 <= i < client.authorization.len() implies header_char(
        #[trigger] client.authorization[i],
    ) by {
        if i >= 7 {
            assert(client.authorization[i] == token[i - 7]);
        }
    }
    if client.base_url.len() > 4 {
        assert(client.base_url[client.base_url.len() - 5] == stem.last());
    }
}

} // verus!
