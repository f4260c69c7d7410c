//! Reranking of documents against a query.
use vstd::prelude::*;
use vstd::string::StringExecFns;

use crate::json::{
    member, members_view, text_array, unsigned_number, Json, JsonValue, Member,
};

verus! {

/// What is asked of the rerank endpoint.
#[derive(Debug, Default)]
pub struct ReRankRequest<'input> {
    /// The search query.
    pub query: &'input str,
    /// A list of document strings to rerank.
    pub documents: &'input [String],
    /// The model to use.
    pub model: ReRankModel,
    /// The number of results to return, defaults to the length of the documents.
    pub top_n: Option<u64>,
    /// The maximum number of chunks to derive from each document.
    pub max_chunks_per_doc: Option<u64>,
}

/// A reranking model.
#[derive(Debug)]
pub enum ReRankModel {
    EnglishV2,
    MultilingualV2,
    EnglishV3,
    MultilingualV3,
}

impl ReRankModel {
    /// The string that stands for this model on the wire.
    pub open spec fn wire(self) -> Seq<char> {
        match self {
            ReRankModel::EnglishV2 => "rerank-english-v2.0"@,
            ReRankModel::MultilingualV2 => "rerank-multilingual-v2.0"@,
            ReRankModel::EnglishV3 => "rerank-english-v3.0"@,
            ReRankModel::MultilingualV3 => "rerank-multilingual-v3.0"@,
        }
    }

    /// Writes the model as it goes on the wire.
    pub fn to_string(&self) -> (s: String)
        ensures
            s@ == self.wire(),
    {
        match self {
            ReRankModel::EnglishV2 => String::from_str("rerank-english-v2.0"),
            ReRankModel::MultilingualV2 => String::from_str("rerank-multilingual-v2.0"),
            ReRankModel::EnglishV3 => String::from_str("rerank-english-v3.0"),
            ReRankModel::MultilingualV3 => String::from_str("rerank-multilingual-v3.0"),
        }
    }
}

impl Default for ReRankModel {
    /// The model used where a request names none.
    fn default() -> (m: ReRankModel)
        ensures
            m == ReRankModel::EnglishV3,
    {
        ReRankModel::EnglishV3
    }
}

/// The number `n` where there is one, else `null`.
pub open spec fn unsigned_or_null(n: Option<u64>) -> JsonValue {
    match n {
        Some(n) => unsigned_number(n),
        None => JsonValue::Null,
    }
}

impl<'input> ReRankRequest<'input> {
    /// The body of the request: every field, an absent number as `null`.
    pub open spec fn json(self) -> JsonValue {
        JsonValue::Object(
            seq![
                member("query"@, JsonValue::Text(self.query@)),
                member("documents"@, text_array(self.documents.deep_view())),
                member("model"@, JsonValue::Text(self.model.wire())),
                member("top_n"@, unsigned_or_null(self.top_n)),
                member("max_chunks_per_doc"@, unsigned_or_null(self.max_chunks_per_doc)),
            ],
        )
    }

    /// Builds the body of the request.
    pub fn to_json(&self) -> (j: Json)
        ensures
            j@ == self.json(),
    {
        let mut members: Vec<Member> = Vec::new();
        members.push(Member::new("query", Json::from_text(self.query)));
        members.push(Member::new("documents", Json::from_texts(self.documents)));
        members.push(Member::new("model", Json::Text(self.model.to_string())));
        members.push(
            Member::new(
                "top_n",
                match self.top_n {
                    Some(n) => Json::from_unsigned(n),
                    None => Json::Null,
                },
            ),
        );
        members.push(
            Member::new(
                "max_chunks_per_doc",
                match self.max_chunks_per_doc {
                    Some(n) => Json::from_unsigned(n),
                    None => Json::Null,
                },
            ),
        );
        proof {
            assert(members_view(members@) =~= self.json()->Object_0);
        }
        Json::object(members)
    }
}

} // verus!
