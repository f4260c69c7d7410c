//! The client's configuration: where the service is, how to sign in, and
//! what each of its operations is asked and answers.
use vstd::prelude::*;
use vstd::string::StringExecFns;

use crate::api::chat::{stream_request, streamed};
use crate::api::classify::ClassifyRequest;
use crate::api::detokenize::DetokenizeRequest;
use crate::api::embed::EmbedRequest;
use crate::api::rerank::ReRankRequest;
use crate::api::tokenize::{TokenizeRequest, TokenizeResponse};
use crate::error::{CohereApiError, RequestFailure};
use crate::exchange::{
    answers, is_api_error, is_decode_error, Header, HeaderView, HttpReply, HttpRequest,
};
use crate::json::read::shape_error;
use crate::json::{document, rendering, Json, JsonValue};
use crate::status::HttpStatus;

verus! {


/// Where the service lives.
pub const COHERE_API_BASE_URL: &'static str = "https://api.cohere.ai";

/// The version of the protocol that the client speaks.
pub const COHERE_API_V1: &'static str = "v1";

/// Seconds after which a request, an open stream included, is given up.
pub const COHERE_API_TIMEOUT_SECS: u64 = 120;

/// The operations of the service.
#[derive(Debug, Clone, Copy, PartialEq, Eq)]
pub enum Endpoint {
    CheckApiKey,
    Generate,
    Chat,
    Embed,
    Classify,
    Tokenize,
    Detokenize,
    Rerank,
}

impl Endpoint {
    /// The path segment that names the operation.
    pub open spec fn route(self) -> Seq<char> {
        match self {
            Endpoint::CheckApiKey => "check-api-key"@,
            Endpoint::Generate => "generate"@,
            Endpoint::Chat => "chat"@,
            Endpoint::Embed => "embed"@,
            Endpoint::Classify => "classify"@,
            Endpoint::Tokenize => "tokenize"@,
            Endpoint::Detokenize => "detokenize"@,
            Endpoint::Rerank => "rerank"@,
        }
    }

    /// The path segment that names the operation.
    pub fn as_str(&self) -> (s: &'static str)
        ensures
            s@ == self.route(),
    {
        match self {
            Endpoint::CheckApiKey => "check-api-key",
            Endpoint::Generate => "generate",
            Endpoint::Chat => "chat",
            Endpoint::Embed => "embed",
            Endpoint::Classify => "classify",
            Endpoint::Tokenize => "tokenize",
            Endpoint::Detokenize => "detokenize",
            Endpoint::Rerank => "rerank",
        }
    }
}

/// The client: where the service is and how to sign in.
pub struct Cohere {
    api_url: String,
    api_key: String,
}

impl Cohere {
    /// The base URL that requests go to.
    pub closed spec fn api_url(&self) -> Seq<char> {
        self.api_url@
    }

    /// The credential that requests carry.
    pub closed spec fn api_key(&self) -> Seq<char> {
        self.api_key@
    }

    /// The headers that go out with every request of a client holding the
    /// credential `api_key`.
    pub open spec fn headers_for(api_key: Seq<char>) -> Seq<HeaderView> {
        seq![
            HeaderView { name: "Authorization"@, value: "Bearer "@ + api_key, sensitive: true },
            HeaderView { name: "Request-Source"@, value: "rust-sdk"@, sensitive: false },
            HeaderView { name: "Accept"@, value: "application/json"@, sensitive: false },
            HeaderView { name: "Content-Type"@, value: "application/json"@, sensitive: false },
        ]
    }

    /// A client for the service at `api_url`, signing in with `api_key`.
    pub fn new(api_url: &str, api_key: &str) -> (client: Cohere)
        ensures
            client.api_url() == api_url@,
            client.api_key() == api_key@,
    {
        Cohere { api_url: String::from_str(api_url), api_key: String::from_str(api_key) }
    }

    /// The URL of the service itself, for the version of the protocol that
    /// the client speaks.
    pub fn default_url() -> (url: String)
        ensures
            url@ == COHERE_API_BASE_URL@ + "/"@ + COHERE_API_V1@,
    {
        let mut url = String::from_str(COHERE_API_BASE_URL);
        url.append("/");
        url.append(COHERE_API_V1);
        url
    }

    /// The headers that go out with every request.
    pub fn default_headers(&self) -> (headers: Vec<Header>)
        ensures
            headers@.len() == 4,
            forall|i: int| 0 <= i < 4 ==> (#[trigger] headers@[i])@ == Self::headers_for(self.api_key())[i],
    {
        let mut authorization = String::from_str("Bearer ");
        authorization.append(self.api_key.as_str());
        let mut headers: Vec<Header> = Vec::new();
        headers.push(
            Header { name: String::from_str("Authorization"), value: authorization, sensitive: true },
        );
        headers.push(
            Header {
                name: String::from_str("Request-Source"),
                value: String::from_str("rust-sdk"),
                sensitive: false,
            },
        );
        headers.push(
            Header {
                name: String::from_str("Accept"),
                value: String::from_str("application/json"),
                sensitive: false,
            },
        );
        headers.push(
            Header {
                name: String::from_str("Content-Type"),
                value: String::from_str("application/json"),
                sensitive: false,
            },
        );
        headers
    }

    /// The URL that a request for `endpoint` goes to: the base URL, a slash
    /// and the route.
    pub fn url(&self, endpoint: Endpoint) -> (url: String)
        ensures
            url@ == self.api_url() + "/"@ + endpoint.route(),
    {
        let mut url = self.api_url.clone();
        url.append("/");
        url.append(endpoint.as_str());
        url
    }

    /// The request that asks `endpoint` for what `payload` describes.
    pub fn request(&self, endpoint: Endpoint, payload: &Json) -> (request: HttpRequest)
        ensures
            request.url@ == self.api_url() + "/"@ + endpoint.route(),
            request.body@ == rendering(payload@),
    {
        HttpRequest { url: self.url(endpoint), body: payload.render() }
    }

    /// The request that checks the credential: it asks with an empty
    /// payload, written `null`.
    pub fn check_api_key_request(&self) -> (request: HttpRequest)
        ensures
            request.url@ == self.api_url() + "/"@ + Endpoint::CheckApiKey.route(),
            request.body@ == "null"@,
    {
        self.request(Endpoint::CheckApiKey, &Json::Null)
    }

    /// The request for a generation. The payload holds what the caller
    /// asks for, as the service's description of the endpoint lays it out.
    pub fn generate_request(&self, payload: &Json) -> (request: HttpRequest)
        ensures
            request.url@ == self.api_url() + "/"@ + Endpoint::Generate.route(),
            request.body@ == rendering(payload@),
    {
        self.request(Endpoint::Generate, payload)
    }

    /// The request for a chat, answered as a stream of events: the
    /// payload holds what the caller asks for, and is sent with `stream`
    /// set to `true`.
    pub fn chat_request(&self, payload: Json) -> (request: HttpRequest)
        ensures
            request.url@ == self.api_url() + "/"@ + Endpoint::Chat.route(),
            request.body@ == rendering(streamed(payload@)),
    {
        self.request(Endpoint::Chat, &stream_request(payload))
    }

    /// The request for embeddings.
    pub fn embed_request(&self, request: &EmbedRequest) -> (r: HttpRequest)
        ensures
            r.url@ == self.api_url() + "/"@ + Endpoint::Embed.route(),
            r.body@ == rendering(request.json()),
    {
        self.request(Endpoint::Embed, &request.to_json())
    }

    /// The request for a classification.
    pub fn classify_request(&self, request: &ClassifyRequest) -> (r: HttpRequest)
        ensures
            r.url@ == self.api_url() + "/"@ + Endpoint::Classify.route(),
            r.body@ == rendering(request.json()),
    {
        self.request(Endpoint::Classify, &request.to_json())
    }

    /// The request for the tokens of a text.
    pub fn tokenize_request(&self, request: &TokenizeRequest) -> (r: HttpRequest)
        ensures
            r.url@ == self.api_url() + "/"@ + Endpoint::Tokenize.route(),
            r.body@ == rendering(request.json()),
    {
        self.request(Endpoint::Tokenize, &request.to_json())
    }

    /// The request for the text of tokens.
    pub fn detokenize_request(&self, request: &DetokenizeRequest) -> (r: HttpRequest)
        ensures
            r.url@ == self.api_url() + "/"@ + Endpoint::Detokenize.route(),
            r.body@ == rendering(request.json()),
    {
        self.request(Endpoint::Detokenize, &request.to_json())
    }

    /// The request for a ranking of documents.
    pub fn rerank_request(&self, request: &ReRankRequest) -> (r: HttpRequest)
        ensures
            r.url@ == self.api_url() + "/"@ + Endpoint::Rerank.route(),
            r.body@ == rendering(request.json()),
    {
        self.request(Endpoint::Rerank, &request.to_json())
    }

    /// The outcome of a credential check, as the answer tells it: the
    /// payload is an object whose member `valid` says whether the service
    /// accepts the credential.
    pub open spec fn credential_check(reply: HttpReply, r: Result<(), CohereApiError>) -> bool {
        if HttpStatus::failure_code(reply.status@) {
            r matches Err(error) && is_api_error(reply, error)
        } else {
            match document(reply.body@) {
                Some(j) => match j.flag_member("valid"@) {
                    Some(true) => r is Ok,
                    Some(false) => r matches Err(CohereApiError::InvalidApiKey),
                    None => r matches Err(error) && is_decode_error(error),
                },
                None => r matches Err(error) && is_decode_error(error),
            }
        }
    }

    /// Reads the answer to a credential check.
    pub fn check_api_key(&self, reply: &HttpReply) -> (r: Result<(), CohereApiError>)
        ensures
            Self::credential_check(*reply, r),
    {
        let j = match reply.payload_json() {
            Ok(j) => j,
            Err(error) => { return Err(error); },
        };
        match j.flag_member("valid") {
            Some(true) => Ok(()),
            Some(false) => Err(CohereApiError::InvalidApiKey),
            None => Err(
                CohereApiError::RequestError(
                    RequestFailure::Decode(shape_error("missing field `valid`")),
                ),
            ),
        }
    }

    /// Reads the answer to a tokenize request.
    pub fn tokenize(&self, reply: &HttpReply) -> (r: Result<TokenizeResponse, CohereApiError>)
        ensures
            answers(*reply, |j: JsonValue| TokenizeResponse::of_json(j), r),
    {
        let j = match reply.payload_json() {
            Ok(j) => j,
            Err(error) => { return Err(error); },
        };
        match TokenizeResponse::from_json(&j) {
            Some(response) => Ok(response),
            None => Err(
                CohereApiError::RequestError(
                    RequestFailure::Decode(shape_error("not a tokenize response")),
                ),
            ),
        }
    }

    /// Reads the answer to a detokenize request: the string member `text`
    /// of the payload.
    pub fn detokenize(&self, reply: &HttpReply) -> (r: Result<String, CohereApiError>)
        ensures
            answers(*reply, |j: JsonValue| j.text_member("text"@), r),
    {
        let j = match reply.payload_json() {
            Ok(j) => j,
            Err(error) => { return Err(error); },
        };
        match j.text_member("text") {
            Some(text) => Ok(text.clone()),
            None => Err(
                CohereApiError::RequestError(RequestFailure::Decode(shape_error("missing field `text`"))),
            ),
        }
    }
}

} // verus!
