//! Text embeddings.
use vstd::prelude::*;
use vstd::string::StringExecFns;

use super::Truncate;
use crate::json::{
    member, members_view, optional_member, text_array, Json, JsonValue, Member,
};

verus! {

/// What is asked of the embed endpoint.
#[derive(Debug)]
pub struct EmbedRequest<'input> {
    /// An optional string representing the model you'd like to use.
    pub model: Option<EmbedModel>,
    /// An array of strings for the model to embed.
    pub texts: &'input [String],
    /// Specify how the API will handle inputs longer than the maximum token length.
    pub truncate: Truncate,
}

/// The size class of an embedding model, or any other model by its full
/// identifier.
#[derive(Debug)]
pub enum EmbedModel {
    Small,
    Large,
    /// A model the library has no name for; the identifier goes on the wire
    /// as it is.
    Custom(String),
}

impl EmbedModel {
    /// The string that stands for this model on the wire.
    pub open spec fn wire(self) -> Seq<char> {
        match self {
            EmbedModel::Small => "small"@,
            EmbedModel::Large => "large"@,
            EmbedModel::Custom(name) => name@,
        }
    }

    /// Writes the model as it goes on the wire.
    pub fn to_string(&self) -> (s: String)
        ensures
            s@ == self.wire(),
    {
        match self {
            EmbedModel::Small => String::from_str("small"),
            EmbedModel::Large => String::from_str("large"),
            EmbedModel::Custom(name) => name.clone(),
        }
    }
}

impl<'input> EmbedRequest<'input> {
    /// The body of the request: the model where one is named, the texts
    /// and the truncation policy.
    pub open spec fn json(self) -> JsonValue {
        JsonValue::Object(
            optional_member(
                "model"@,
                match self.model {
                    Some(model) => Some(JsonValue::Text(model.wire())),
                    None => None,
                },
            ) + seq![
                member("texts"@, text_array(self.texts.deep_view())),
                member("truncate"@, JsonValue::Text(self.truncate.wire())),
            ],
        )
    }

    /// Builds the body of the request.
    pub fn to_json(&self) -> (j: Json)
        ensures
            j@ == self.json(),
    {
        let mut members: Vec<Member> = Vec::new();
        if let Some(model) = &self.model {
            members.push(Member::new("model", Json::Text(model.to_string())));
        }
        members.push(Member::new("texts", Json::from_texts(self.texts)));
        members.push(Member::new("truncate", Json::Text(self.truncate.to_string())));
        proof {
            assert(members_view(members@) =~= self.json()->Object_0);
        }
        Json::object(members)
    }
}

} // verus!
