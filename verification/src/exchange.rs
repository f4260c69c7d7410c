//! What goes out for a call and what comes back, and how an answer is told
//! from an error.
use vstd::prelude::*;
use vstd::string::StringExecFns;
use vstd::utf8::encode_utf8;

use crate::error::{CohereApiError, RequestFailure};
use crate::json::{document, parse, Json, JsonValue};
use crate::status::HttpStatus;

verus! {

/// A header that goes out with every request.
#[derive(Debug, PartialEq, Eq)]
pub struct Header {
    pub name: String,
    pub value: String,
    /// Whether the value is a secret that must stay out of logs.
    pub sensitive: bool,
}

/// The mathematical value of a [`Header`].
pub struct HeaderView {
    pub name: Seq<char>,
    pub value: Seq<char>,
    pub sensitive: bool,
}

impl View for Header {
    type V = HeaderView;

    open spec fn view(&self) -> HeaderView {
        HeaderView { name: self.name@, value: self.value@, sensitive: self.sensitive }
    }
}

/// What goes out for a call: a POST to `url` with the JSON text `body`.
#[derive(Debug, PartialEq, Eq)]
pub struct HttpRequest {
    pub url: String,
    pub body: String,
}

/// What came back for a request: the status and the whole body.
#[derive(Debug, PartialEq, Eq)]
pub struct HttpReply {
    pub status: HttpStatus,
    pub body: Vec<u8>,
}

/// What `String::from_utf8_lossy` makes of `bytes`.
pub uninterp spec fn lossy_text(bytes: Seq<u8>) -> Seq<char>;

/// Reads bytes as text through `String::from_utf8_lossy`, which puts U+FFFD
/// in place of what is not UTF-8. The contract only gives the text its name.
#[verifier::external_body]
fn text_of(bytes: &[u8]) -> (s: String)
    ensures
        s@ == lossy_text(bytes@),
{
    String::from_utf8_lossy(bytes).into_owned()
}

/// The message of an error answer whose body reads `text`: the string member
/// `message` where the body is a JSON object that has one, else a message
/// made of the body itself.
pub open spec fn error_message(text: Seq<char>) -> Seq<char> {
    match document(encode_utf8(text)) {
        Some(j) => match j.text_member("message"@) {
            Some(message) => message,
            None => "Unknown API Error: "@ + text,
        },
        None => "Unknown API Error: "@ + text,
    }
}

/// Resolves the message of an error answer.
pub fn resolve_error_message(text: &str) -> (message: String)
    ensures
        message@ == error_message(text@),
{
    if let Ok(j) = parse(text.as_bytes()) {
        if let Some(message) = j.text_member("message") {
            return message.clone();
        }
    }
    let mut message = String::from_str("Unknown API Error: ");
    message.append(text);
    message
}

/// Whether `error` is the error that an answer with a 4xx or 5xx status
/// stands for: it carries the status and the resolved message.
pub open spec fn is_api_error(reply: HttpReply, error: CohereApiError) -> bool {
    error matches CohereApiError::ApiError(status, message) && status == reply.status && message@
        == error_message(lossy_text(reply.body@))
}

/// Whether `error` tells of a body that could not be decoded.
pub open spec fn is_decode_error(error: CohereApiError) -> bool {
    error matches CohereApiError::RequestError(RequestFailure::Decode(_))
}

impl HttpReply {
    /// The error that an answer with a 4xx or 5xx status stands for.
    pub fn api_error(&self) -> (error: CohereApiError)
        ensures
            is_api_error(*self, error),
    {
        let text = text_of(self.body.as_slice());
        CohereApiError::ApiError(self.status, resolve_error_message(text.as_str()))
    }

    /// Tells an error answer from any other: with a 4xx or 5xx status the
    /// answer is an error of the service, else its body is the payload.
    pub fn payload(&self) -> (r: Result<&[u8], CohereApiError>)
        ensures
            match r {
                Ok(body) => !HttpStatus::failure_code(self.status@) && body@ == self.body@,
                Err(error) => HttpStatus::failure_code(self.status@) && is_api_error(*self, error),
            },
    {
        if self.status.is_failure() {
            Err(self.api_error())
        } else {
            Ok(self.body.as_slice())
        }
    }

    /// Reads the payload of an answer as a JSON document.
    pub fn payload_json(&self) -> (r: Result<Json, CohereApiError>)
        ensures
            match r {
                Ok(j) => !HttpStatus::failure_code(self.status@) && document(self.body@) == Some(j@),
                Err(error) => if HttpStatus::failure_code(self.status@) {
                    is_api_error(*self, error)
                } else {
                    is_decode_error(error) && document(self.body@) is None
                },
            },
    {
        let body = match self.payload() {
            Ok(body) => body,
            Err(error) => { return Err(error); },
        };
        match parse(body) {
            Ok(j) => Ok(j),
            Err(e) => Err(CohereApiError::RequestError(RequestFailure::Decode(e))),
        }
    }
}

/// Whether `r` is what the answer `reply` gives a caller who expects the
/// payload that `of_json` describes: the error of the service where the
/// status is 4xx or 5xx; else what the payload holds, or a decode error
/// where the payload is not JSON or not of the expected shape.
pub open spec fn answers<T: View>(
    reply: HttpReply,
    of_json: spec_fn(JsonValue) -> Option<T::V>,
    r: Result<T, CohereApiError>,
) -> bool {
    if HttpStatus::failure_code(reply.status@) {
        r matches Err(error) && is_api_error(reply, error)
    } else {
        match document(reply.body@) {
            Some(j) => match of_json(j) {
                Some(expected) => r matches Ok(value) && value@ == expected,
                None => r matches Err(error) && is_decode_error(error),
            },
            None => r matches Err(error) && is_decode_error(error),
        }
    }
}

/// An answer with a 4xx or 5xx status gives the error of the service, with
/// that status and the resolved message, whatever the caller expects and
/// whatever else the body would decode to.
pub proof fn lemma_failure_status_gives_api_error<T: View>(
    reply: HttpReply,
    of_json: spec_fn(JsonValue) -> Option<T::V>,
    r: Result<T, CohereApiError>,
)
    requires
        answers(reply, of_json, r),
        HttpStatus::failure_code(reply.status@),
    ensures
        r matches Err(CohereApiError::ApiError(status, message)) && status == reply.status
            && message@ == error_message(lossy_text(reply.body@)),
{
}

/// An answer with any other status whose body is not JSON, or not of the
/// shape the caller expects, gives a decode error and never a value.
pub proof fn lemma_unexpected_payload_gives_decode_error<T: View>(
    reply: HttpReply,
    of_json: spec_fn(JsonValue) -> Option<T::V>,
    r: Result<T, CohereApiError>,
)
    requires
        answers(reply, of_json, r),
        !HttpStatus::failure_code(reply.status@),
        document(reply.body@) matches Some(j) ==> of_json(j) is None,
    ensures
        r matches Err(CohereApiError::RequestError(RequestFailure::Decode(_))),
{
}

/// An answer with any other status whose body is of the shape the caller
/// expects gives the value that the body holds.
pub proof fn lemma_expected_payload_gives_value<T: View>(
    reply: HttpReply,
    of_json: spec_fn(JsonValue) -> Option<T::V>,
    r: Result<T, CohereApiError>,
)
    requires
        answers(reply, of_json, r),
        !HttpStatus::failure_code(reply.status@),
        document(reply.body@) matches Some(j) && of_json(j) is Some,
    ensures
        r matches Ok(value) && Some(value@) == of_json(document(reply.body@)->0),
{
}

} // verus!
