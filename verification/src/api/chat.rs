//! Conversational generation and the events of its stream.
use vstd::prelude::*;
use vstd::string::StringExecFns;

use crate::json::{member, members_view, Json, JsonValue, Member};

verus! {

/// How the prompt is fitted into the model's context.
#[derive(Debug)]
pub enum PromptTruncation {
    /// Drop parts of the chat history and documents as needed.
    Auto,
    /// Change nothing; too long a prompt is an error.
    Off,
}

impl PromptTruncation {
    /// The string that stands for this value on the wire.
    pub open spec fn wire(self) -> Seq<char> {
        match self {
            PromptTruncation::Auto => "AUTO"@,
            PromptTruncation::Off => "OFF"@,
        }
    }

    /// Writes the value as it goes on the wire.
    pub fn to_string(&self) -> (s: String)
        ensures
            s@ == self.wire(),
    {
        match self {
            PromptTruncation::Auto => String::from_str("AUTO"),
            PromptTruncation::Off => String::from_str("OFF"),
        }
    }
}

/// The approach taken to generating citations.
#[derive(Debug)]
pub enum CitationQuality {
    Accurate,
    Fast,
}

impl CitationQuality {
    /// The string that stands for this value on the wire.
    pub open spec fn wire(self) -> Seq<char> {
        match self {
            CitationQuality::Accurate => "accurate"@,
            CitationQuality::Fast => "fast"@,
        }
    }

    /// Writes the value as it goes on the wire.
    pub fn to_string(&self) -> (s: String)
        ensures
            s@ == self.wire(),
    {
        match self {
            CitationQuality::Accurate => String::from_str("accurate"),
            CitationQuality::Fast => String::from_str("fast"),
        }
    }
}

/// The payload that asks for the answer to `request` as a stream: the
/// members of the request, then `stream` set to `true`. What is no object
/// stays as it is.
pub open spec fn streamed(request: JsonValue) -> JsonValue {
    match request {
        JsonValue::Object(members) => JsonValue::Object(
            members.push(member("stream"@, JsonValue::Bool(true))),
        ),
        other => other,
    }
}

/// Turns the payload of a chat request into one that asks for a stream.
pub fn stream_request(request: Json) -> (j: Json)
    ensures
        j@ == streamed(request@),
{
    match request {
        Json::Object(members) => {
            let ghost before = members_view(members@);
            assert(request@->Object_0 =~= before);
            let mut members = members;
            members.push(Member::new("stream", Json::Bool(true)));
            assert(members_view(members@) =~= before.push(member("stream"@, JsonValue::Bool(true))));
            Json::object(members)
        },
        other => other,
    }
}

/// The whole answer, as the last event of a stream carries it.
#[derive(Debug, PartialEq, Eq)]
pub struct ChatResponse {
    pub generation_id: String,
    pub response_id: String,
    pub text: String,
}

/// One event of a chat stream.
#[derive(Debug, PartialEq, Eq)]
pub enum ChatStreamResponse {
    ChatStreamStart { generation_id: String, is_finished: bool },
    ChatTextGeneration { is_finished: bool, text: String },
    ChatStreamEnd { finish_reason: String, is_finished: bool, response: ChatResponse },
}

/// The mathematical value of a [`ChatResponse`].
pub struct ChatResponseView {
    pub generation_id: Seq<char>,
    pub response_id: Seq<char>,
    pub text: Seq<char>,
}

impl View for ChatResponse {
    type V = ChatResponseView;

    open spec fn view(&self) -> ChatResponseView {
        ChatResponseView {
            generation_id: self.generation_id@,
            response_id: self.response_id@,
            text: self.text@,
        }
    }
}

impl ChatResponse {
    /// The answer that a document holds: an object with the three strings
    /// `generation_id`, `response_id` and `text`; other members are ignored.
    pub open spec fn of_json(j: JsonValue) -> Option<ChatResponseView> {
        match (
            j.text_member("generation_id"@),
            j.text_member("response_id"@),
            j.text_member("text"@),
        ) {
            (Some(generation_id), Some(response_id), Some(text)) => Some(
                ChatResponseView { generation_id, response_id, text },
            ),
            _ => None,
        }
    }

    /// Reads the answer from a document.
    pub fn from_json(j: &Json) -> (r: Option<ChatResponse>)
        ensures
            match r {
                Some(response) => Self::of_json(j@) == Some(response@),
                None => Self::of_json(j@) is None,
            },
    {
        let generation_id = match j.text_member("generation_id") {
            Some(s) => s.clone(),
            None => { return None; },
        };
        let response_id = match j.text_member("response_id") {
            Some(s) => s.clone(),
            None => { return None; },
        };
        let text = match j.text_member("text") {
            Some(s) => s.clone(),
            None => { return None; },
        };
        Some(ChatResponse { generation_id, response_id, text })
    }
}

/// The mathematical value of a [`ChatStreamResponse`].
pub enum ChatStreamResponseView {
    ChatStreamStart { generation_id: Seq<char>, is_finished: bool },
    ChatTextGeneration { is_finished: bool, text: Seq<char> },
    ChatStreamEnd { finish_reason: Seq<char>, is_finished: bool, response: ChatResponseView },
}

impl View for ChatStreamResponse {
    type V = ChatStreamResponseView;

    open spec fn view(&self) -> ChatStreamResponseView {
        match self {
            ChatStreamResponse::ChatStreamStart { generation_id, is_finished } => {
                ChatStreamResponseView::ChatStreamStart {
                    generation_id: generation_id@,
                    is_finished: *is_finished,
                }
            },
            ChatStreamResponse::ChatTextGeneration { is_finished, text } => {
                ChatStreamResponseView::ChatTextGeneration { is_finished: *is_finished, text: text@ }
            },
            ChatStreamResponse::ChatStreamEnd { finish_reason, is_finished, response } => {
                ChatStreamResponseView::ChatStreamEnd {
                    finish_reason: finish_reason@,
                    is_finished: *is_finished,
                    response: response@,
                }
            },
        }
    }
}

impl ChatStreamResponse {
    /// The first event of a stream, as a document holds it.
    pub open spec fn start_of_json(j: JsonValue) -> Option<ChatStreamResponseView> {
        match (j.text_member("generation_id"@), j.flag_member("is_finished"@)) {
            (Some(generation_id), Some(is_finished)) => Some(
                ChatStreamResponseView::ChatStreamStart { generation_id, is_finished },
            ),
            _ => None,
        }
    }

    /// A piece of generated text, as a document holds it.
    pub open spec fn text_of_json(j: JsonValue) -> Option<ChatStreamResponseView> {
        match (j.flag_member("is_finished"@), j.text_member("text"@)) {
            (Some(is_finished), Some(text)) => Some(
                ChatStreamResponseView::ChatTextGeneration { is_finished, text },
            ),
            _ => None,
        }
    }

    /// The last event of a stream, as a document holds it.
    pub open spec fn end_of_json(j: JsonValue) -> Option<ChatStreamResponseView> {
        match (j.text_member("finish_reason"@), j.flag_member("is_finished"@), j.member("response"@)) {
            (Some(finish_reason), Some(is_finished), Some(inner)) => match ChatResponse::of_json(
                inner,
            ) {
                Some(response) => Some(
                    ChatStreamResponseView::ChatStreamEnd { finish_reason, is_finished, response },
                ),
                None => None,
            },
            _ => None,
        }
    }

    /// The event that a document holds. The string member `event_type`
    /// tells the three kinds apart; each kind asks for its own members and
    /// ignores any other.
    pub open spec fn of_json(j: JsonValue) -> Option<ChatStreamResponseView> {
        match j.text_member("event_type"@) {
            Some(tag) => {
                if tag == "stream-start"@ {
                    Self::start_of_json(j)
                } else if tag == "text-generation"@ {
                    Self::text_of_json(j)
                } else if tag == "stream-end"@ {
                    Self::end_of_json(j)
                } else {
                    None
                }
            },
            None => None,
        }
    }

    /// Reads an event from a document.
    pub fn from_json(j: &Json) -> (r: Option<ChatStreamResponse>)
        ensures
            match r {
                Some(event) => Self::of_json(j@) == Some(event@),
                None => Self::of_json(j@) is None,
            },
    {
        let tag = match j.text_member("event_type") {
            Some(s) => s,
            None => { return None; },
        };
        if *tag == String::from_str("stream-start") {
            let generation_id = match j.text_member("generation_id") {
                Some(s) => s.clone(),
                None => { return None; },
            };
            let is_finished = match j.flag_member("is_finished") {
                Some(b) => b,
                None => { return None; },
            };
            Some(ChatStreamResponse::ChatStreamStart { generation_id, is_finished })
        } else if *tag == String::from_str("text-generation") {
            let is_finished = match j.flag_member("is_finished") {
                Some(b) => b,
                None => { return None; },
            };
            let text = match j.text_member("text") {
                Some(s) => s.clone(),
                None => { return None; },
            };
            Some(ChatStreamResponse::ChatTextGeneration { is_finished, text })
        } else if *tag == String::from_str("stream-end") {
            let finish_reason = match j.text_member("finish_reason") {
                Some(s) => s.clone(),
                None => { return None; },
            };
            let is_finished = match j.flag_member("is_finished") {
                Some(b) => b,
                None => { return None; },
            };
            let response = match j.member("response") {
                Some(inner) => match ChatResponse::from_json(inner) {
                    Some(response) => response,
                    None => { return None; },
                },
                None => { return None; },
            };
            Some(ChatStreamResponse::ChatStreamEnd { finish_reason, is_finished, response })
        } else {
            None
        }
    }
}

} // verus!
