//! From tokens back to text.
use vstd::prelude::*;

use super::GenerateModel;
use crate::json::{
    member, members_view, optional_member, unsigned_array, Json, JsonValue, Member,
};

verus! {

/// What is asked of the detokenize endpoint.
#[derive(Debug)]
pub struct DetokenizeRequest<'input> {
    /// The tokens to be detokenized
    pub tokens: &'input [u64],
    /// optional - The model to use for detokenization. Custom models can also be supplied with their full ID.
    pub model: Option<GenerateModel>,
}

impl<'input> DetokenizeRequest<'input> {
    /// The body of the request: the tokens, and the model where one is
    /// named.
    pub open spec fn json(self) -> JsonValue {
        JsonValue::Object(
            seq![member("tokens"@, unsigned_array(self.tokens@))] + optional_member(
                "model"@,
                match self.model {
                    Some(model) => Some(JsonValue::Text(model.wire())),
                    None => None,
                },
            ),
        )
    }

    /// Builds the body of the request.
    pub fn to_json(&self) -> (j: Json)
        ensures
            j@ == self.json(),
    {
        let mut members: Vec<Member> = Vec::new();
        members.push(Member::new("tokens", Json::from_unsigneds(self.tokens)));
        if let Some(model) = &self.model {
            members.push(Member::new("model", Json::Text(model.to_string())));
        }
        proof {
            assert(members_view(members@) =~= self.json()->Object_0);
        }
        Json::object(members)
    }
}

} // verus!
