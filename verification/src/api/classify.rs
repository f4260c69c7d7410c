//! Classification of texts by example.
use vstd::prelude::*;

use super::{EmbedModel, Truncate};
use crate::json::{
    items_view, member, members_view, optional_member, text_array, Json, JsonValue, Member,
};

verus! {

/// What is asked of the classify endpoint.
#[derive(Debug, Default)]
pub struct ClassifyRequest<'input> {
    /// An optional string representing the model you'd like to use.
    pub model: Option<EmbedModel>,
    /// An optional string representing the ID of a custom playground preset.
    pub preset: Option<String>,
    /// An array of strings that you would like to classify.
    pub inputs: &'input [String],
    /// An array of ClassifyExamples representing examples and the corresponding label.
    pub examples: &'input [ClassifyExample<'input>],
    /// Specify how the API will handle inputs longer than the maximum token length.
    pub truncate: Option<Truncate>,
}

/// A text with the label that fits it.
#[derive(Debug)]
pub struct ClassifyExample<'input> {
    /// The text of the example.
    pub text: &'input str,
    /// The label that fits the example's text.
    pub label: &'input str,
}

impl<'input> ClassifyExample<'input> {
    /// The example as the request holds it: its text and its label.
    pub open spec fn json(self) -> JsonValue {
        JsonValue::Object(
            seq![
                member("text"@, JsonValue::Text(self.text@)),
                member("label"@, JsonValue::Text(self.label@)),
            ],
        )
    }

    /// Builds the example as the request holds it.
    pub fn to_json(&self) -> (j: Json)
        ensures
            j@ == self.json(),
    {
        let mut members: Vec<Member> = Vec::new();
        members.push(Member::new("text", Json::from_text(self.text)));
        members.push(Member::new("label", Json::from_text(self.label)));
        proof {
            assert(members_view(members@) =~= self.json()->Object_0);
        }
        Json::object(members)
    }
}

impl<'input> ClassifyRequest<'input> {
    /// The examples of the request, in order.
    pub open spec fn examples_json(self) -> JsonValue {
        JsonValue::Array(Seq::new(self.examples@.len(), |i: int| self.examples@[i].json()))
    }

    /// The body of the request: the model and the preset where one is
    /// named, the inputs, the examples, and the truncation policy or `null`.
    pub open spec fn json(self) -> JsonValue {
        JsonValue::Object(
            optional_member(
                "model"@,
                match self.model {
                    Some(model) => Some(JsonValue::Text(model.wire())),
                    None => None,
                },
            ) + optional_member(
                "preset"@,
                match self.preset {
                    Some(preset) => Some(JsonValue::Text(preset@)),
                    None => None,
                },
            ) + seq![
                member("inputs"@, text_array(self.inputs.deep_view())),
                member("examples"@, self.examples_json()),
                member(
                    "truncate"@,
                    match self.truncate {
                        Some(truncate) => JsonValue::Text(truncate.wire()),
                        None => JsonValue::Null,
                    },
                ),
            ],
        )
    }

    /// Builds the body of the request.
    pub fn to_json(&self) -> (j: Json)
        ensures
            j@ == self.json(),
    {
        let mut members: Vec<Member> = Vec::new();
        if let Some(model) = &self.model {
            members.push(Member::new("model", Json::Text(model.to_string())));
        }
        if let Some(preset) = &self.preset {
            members.push(Member::new("preset", Json::Text(preset.clone())));
        }
        members.push(Member::new("inputs", Json::from_texts(self.inputs)));
        let mut examples: Vec<Json> = Vec::new();
        let mut i: usize = 0;
        while i < self.examples.len()
            invariant
                i <= self.examples.len(),
                examples@.len() == i,
                forall|k: int| 0 <= k < i ==> (#[trigger] examples@[k])@ == self.examples@[k].json(),
            decreases self.examples.len() - i,
        {
            examples.push(self.examples[i].to_json());
            i += 1;
        }
        proof {
            assert(items_view(examples@) =~= self.examples_json()->Array_0);
        }
        members.push(Member::new("examples", Json::array(examples)));
        members.push(
            Member::new(
                "truncate",
                match &self.truncate {
                    Some(truncate) => Json::Text(truncate.to_string()),
                    None => Json::Null,
                },
            ),
        );
        proof {
            assert(members_view(members@) =~= self.json()->Object_0);
        }
        Json::object(members)
    }
}

} // verus!
