//! From text to tokens.
use vstd::prelude::*;

use super::GenerateModel;
use crate::json::{member, optional_member, members_view, Json, JsonValue, Member};

verus! {

/// What is asked of the tokenize endpoint.
#[derive(Debug)]
pub struct TokenizeRequest<'input> {
    /// The string to be tokenized
    pub text: &'input str,
    /// optional - The model to use for tokenization. Custom models can also be supplied with their full ID.
    pub model: Option<GenerateModel>,
}

/// The tokens of a text.
#[derive(Debug, PartialEq, Eq)]
pub struct TokenizeResponse {
    /// The tokens
    pub tokens: Vec<u64>,
    /// String representations of the tokens
    pub token_strings: Vec<String>,
}

/// The mathematical value of a [`TokenizeResponse`].
pub struct TokenizeResponseView {
    pub tokens: Seq<u64>,
    pub token_strings: Seq<Seq<char>>,
}

impl View for TokenizeResponse {
    type V = TokenizeResponseView;

    open spec fn view(&self) -> TokenizeResponseView {
        TokenizeResponseView {
            tokens: self.tokens@,
            token_strings: self.token_strings.deep_view(),
        }
    }
}

impl TokenizeResponse {
    /// The tokens that a document holds: an object whose member `tokens` is
    /// an array of unsigned integers and whose member `token_strings` is an
    /// array of strings; other members are ignored.
    pub open spec fn of_json(j: JsonValue) -> Option<TokenizeResponseView> {
        match (j.member("tokens"@), j.member("token_strings"@)) {
            (Some(tokens), Some(token_strings)) => match (
                tokens.unsigned_list(),
                token_strings.text_list(),
            ) {
                (Some(tokens), Some(token_strings)) => Some(
                    TokenizeResponseView { tokens, token_strings },
                ),
                _ => None,
            },
            _ => None,
        }
    }

    /// Reads the tokens from a document.
    pub fn from_json(j: &Json) -> (r: Option<TokenizeResponse>)
        ensures
            match r {
                Some(response) => Self::of_json(j@) == Some(response@),
                None => Self::of_json(j@) is None,
            },
    {
        let tokens = match j.member("tokens") {
            Some(list) => match list.unsigned_list() {
                Some(tokens) => tokens,
                None => { return None; },
            },
            None => { return None; },
        };
        let token_strings = match j.member("token_strings") {
            Some(list) => match list.text_list() {
                Some(token_strings) => token_strings,
                None => { return None; },
            },
            None => { return None; },
        };
        Some(TokenizeResponse { tokens, token_strings })
    }
}

impl<'input> TokenizeRequest<'input> {
    /// The body of the request: the text, and the model where one is named.
    pub open spec fn json(self) -> JsonValue {
        JsonValue::Object(
            seq![member("text"@, JsonValue::Text(self.text@))] + optional_member(
                "model"@,
                match self.model {
                    Some(model) => Some(JsonValue::Text(model.wire())),
                    None => None,
                },
            ),
        )
    }

    /// Builds the body of the request.
    pub fn to_json(&self) -> (j: Json)
        ensures
            j@ == self.json(),
    {
        let mut members: Vec<Member> = Vec::new();
        members.push(Member::new("text", Json::from_text(self.text)));
        if let Some(model) = &self.model {
            members.push(Member::new("model", Json::Text(model.to_string())));
        }
        proof {
            assert(members_view(members@) =~= self.json()->Object_0);
        }
        Json::object(members)
    }
}

} // verus!
