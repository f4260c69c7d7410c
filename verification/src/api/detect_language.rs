//! Detection of the language a text is written in.
use vstd::prelude::*;

use crate::json::{member, members_view, text_array, Json, JsonValue, Member};

verus! {

/// What is asked of the language detection endpoint.
#[derive(Debug)]
pub struct DetectLanguageRequest<'input> {
    /// The texts whose language is asked for.
    pub texts: &'input [String],
}

/// The language of one text.
#[derive(Debug, PartialEq, Eq)]
pub struct DetectLanguageResult {
    /// Name of the language, e.g. "Spanish"
    pub language_name: String,
    /// Code of the language, e.g. "es"
    pub language_code: String,
}

impl<'input> DetectLanguageRequest<'input> {
    /// The body of the request: the texts.
    pub open spec fn json(self) -> JsonValue {
        JsonValue::Object(seq![member("texts"@, text_array(self.texts.deep_view()))])
    }

    /// Builds the body of the request.
    pub fn to_json(&self) -> (j: Json)
        ensures
            j@ == self.json(),
    {
        let mut members: Vec<Member> = Vec::new();
        members.push(Member::new("texts", Json::from_texts(self.texts)));
        proof {
            assert(members_view(members@) =~= self.json()->Object_0);
        }
        Json::object(members)
    }
}

/// The mathematical value of a [`DetectLanguageResult`].
pub struct DetectLanguageResultView {
    pub language_name: Seq<char>,
    pub language_code: Seq<char>,
}

impl View for DetectLanguageResult {
    type V = DetectLanguageResultView;

    open spec fn view(&self) -> DetectLanguageResultView {
        DetectLanguageResultView {
            language_name: self.language_name@,
            language_code: self.language_code@,
        }
    }
}

impl DetectLanguageResult {
    /// The language that a document holds: an object with the two strings
    /// `language_name` and `language_code`; other members are ignored.
    pub open spec fn of_json(j: JsonValue) -> Option<DetectLanguageResultView> {
        match (j.text_member("language_name"@), j.text_member("language_code"@)) {
            (Some(language_name), Some(language_code)) => Some(
                DetectLanguageResultView { language_name, language_code },
            ),
            _ => None,
        }
    }

    /// Reads the language from a document.
    pub fn from_json(j: &Json) -> (r: Option<DetectLanguageResult>)
        ensures
            match r {
                Some(result) => Self::of_json(j@) == Some(result@),
                None => Self::of_json(j@) is None,
            },
    {
        let language_name = match j.text_member("language_name") {
            Some(s) => s.clone(),
            None => { return None; },
        };
        let language_code = match j.text_member("language_code") {
            Some(s) => s.clone(),
            None => { return None; },
        };
        Some(DetectLanguageResult { language_name, language_code })
    }
}

} // verus!
