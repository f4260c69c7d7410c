//! What can go wrong with a call, and how it is told.
use vstd::prelude::*;
use vstd::string::StringExecFns;

use crate::status::{status_line, HttpStatus};

verus! {

/// The HTTP client's account of a failed exchange.
#[verifier::external_type_specification]
#[verifier::external_body]
pub struct ExTransportError(reqwest::Error);

/// Why a request came back without a usable answer.
#[derive(Debug)]
pub enum RequestFailure {
    /// The exchange itself failed: connection, TLS, timeout.
    Transport(reqwest::Error),
    /// The body of the answer is not what the endpoint returns.
    Decode(serde_json::Error),
}

/// The failure of a call that expects one answer.
#[derive(Debug)]
pub enum CohereApiError {
    /// No usable answer came back.
    RequestError(RequestFailure),
    /// The service answered with an error: its status and its message.
    ApiError(HttpStatus, String),
    /// The service does not accept the credential.
    InvalidApiKey,
    Unknown,
}

impl CohereApiError {
    /// The text that tells a reader of the error.
    pub open spec fn message(self) -> Seq<char> {
        match self {
            CohereApiError::RequestError(_) => "Unexpected request error"@,
            CohereApiError::ApiError(status, message) => "API request failed with status code `"@
                + status_line(status@) + "` and error message `"@ + message@ + "`"@,
            CohereApiError::InvalidApiKey => "API key is invalid"@,
            CohereApiError::Unknown => "Unknown error"@,
        }
    }

    /// Writes the error for a reader.
    pub fn to_string(&self) -> (s: String)
        ensures
            s@ == self.message(),
    {
        match self {
            CohereApiError::RequestError(_) => String::from_str("Unexpected request error"),
            CohereApiError::ApiError(status, message) => {
                let mut s = String::from_str("API request failed with status code `");
                s.append(status.to_string().as_str());
                s.append("` and error message `");
                s.append(message.as_str());
                s.append("`");
                s
            },
            CohereApiError::InvalidApiKey => String::from_str("API key is invalid"),
            CohereApiError::Unknown => String::from_str("Unknown error"),
        }
    }
}

impl From<reqwest::Error> for CohereApiError {
    fn from(e: reqwest::Error) -> (r: CohereApiError) {
        CohereApiError::RequestError(RequestFailure::Transport(e))
    }
}

impl vstd::std_specs::convert::FromSpecImpl<reqwest::Error> for CohereApiError {
    open spec fn obeys_from_spec() -> bool {
        true
    }

    open spec fn from_spec(e: reqwest::Error) -> CohereApiError {
        CohereApiError::RequestError(RequestFailure::Transport(e))
    }
}

impl From<serde_json::Error> for CohereApiError {
    fn from(e: serde_json::Error) -> (r: CohereApiError) {
        CohereApiError::RequestError(RequestFailure::Decode(e))
    }
}

impl vstd::std_specs::convert::FromSpecImpl<serde_json::Error> for CohereApiError {
    open spec fn obeys_from_spec() -> bool {
        true
    }

    open spec fn from_spec(e: serde_json::Error) -> CohereApiError {
        CohereApiError::RequestError(RequestFailure::Decode(e))
    }
}

/// The failure to decode one event of a stream.
#[derive(Debug)]
pub enum CohereStreamError {
    /// The chunk does not hold an event.
    RequestError(serde_json::Error),
    Unknown(String),
}

impl CohereStreamError {
    /// The text that tells a reader of the error.
    pub open spec fn message(self) -> Seq<char> {
        match self {
            CohereStreamError::RequestError(_) => "Unexpected deserialization error"@,
            CohereStreamError::Unknown(what) => "Unknown error `"@ + what@ + "`"@,
        }
    }

    /// Writes the error for a reader.
    pub fn to_string(&self) -> (s: String)
        ensures
            s@ == self.message(),
    {
        match self {
            CohereStreamError::RequestError(_) => String::from_str(
                "Unexpected deserialization error",
            ),
            CohereStreamError::Unknown(what) => {
                let mut s = String::from_str("Unknown error `");
                s.append(what.as_str());
                s.append("`");
                s
            },
        }
    }
}

impl From<serde_json::Error> for CohereStreamError {
    fn from(e: serde_json::Error) -> (r: CohereStreamError) {
        CohereStreamError::RequestError(e)
    }
}

impl vstd::std_specs::convert::FromSpecImpl<serde_json::Error> for CohereStreamError {
    open spec fn obeys_from_spec() -> bool {
        true
    }

    open spec fn from_spec(e: serde_json::Error) -> CohereStreamError {
        CohereStreamError::RequestError(e)
    }
}

} // verus!
