//! Text generation.
use vstd::prelude::*;
use vstd::string::StringExecFns;

use crate::json::{Json, JsonValue};

verus! {

/// A text-generation model: one of the named models, or any other by its
/// full identifier.
#[derive(Debug)]
pub enum GenerateModel {
    Command,
    CommandLight,
    CommandNightly,
    CommandLightNightly,
    /// A model the library has no name for; the identifier goes on the wire
    /// as it is.
    Custom(String),
}

impl GenerateModel {
    /// The string that stands for this model on the wire.
    pub open spec fn wire(self) -> Seq<char> {
        match self {
            GenerateModel::Command => "command"@,
            GenerateModel::CommandLight => "command-light"@,
            GenerateModel::CommandNightly => "command-nightly"@,
            GenerateModel::CommandLightNightly => "command-light-nightly"@,
            GenerateModel::Custom(name) => name@,
        }
    }

    /// Writes the model as it goes on the wire.
    pub fn to_string(&self) -> (s: String)
        ensures
            s@ == self.wire(),
    {
        match self {
            GenerateModel::Command => String::from_str("command"),
            GenerateModel::CommandLight => String::from_str("command-light"),
            GenerateModel::CommandNightly => String::from_str("command-nightly"),
            GenerateModel::CommandLightNightly => String::from_str("command-light-nightly"),
            GenerateModel::Custom(name) => name.clone(),
        }
    }
}

/// Whether and for which tokens the likelihoods come back with a generation.
#[derive(Debug)]
pub enum ReturnLikelihoods {
    /// For the generated text only.
    Generation,
    /// For the prompt and the generated text.
    All,
    /// For no token.
    Disabled,
}

impl ReturnLikelihoods {
    /// The string that stands for this value on the wire.
    pub open spec fn wire(self) -> Seq<char> {
        match self {
            ReturnLikelihoods::Generation => "GENERATION"@,
            ReturnLikelihoods::All => "ALL"@,
            ReturnLikelihoods::Disabled => "NONE"@,
        }
    }

    /// Writes the value as it goes on the wire.
    pub fn to_string(&self) -> (s: String)
        ensures
            s@ == self.wire(),
    {
        match self {
            ReturnLikelihoods::Generation => String::from_str("GENERATION"),
            ReturnLikelihoods::All => String::from_str("ALL"),
            ReturnLikelihoods::Disabled => String::from_str("NONE"),
        }
    }
}

/// A token of a generation and how likely it was.
#[derive(Debug, PartialEq, Eq)]
pub struct TokenLikelihood {
    /// The token.
    pub token: String,
    /// Refers to the log-likelihood of the token. The first token of a context will not
    /// have a likelihood.
    pub likelihood: String,
}

/// The mathematical value of a [`TokenLikelihood`].
pub struct TokenLikelihoodView {
    pub token: Seq<char>,
    pub likelihood: Seq<char>,
}

impl View for TokenLikelihood {
    type V = TokenLikelihoodView;

    open spec fn view(&self) -> TokenLikelihoodView {
        TokenLikelihoodView { token: self.token@, likelihood: self.likelihood@ }
    }
}

impl TokenLikelihood {
    /// The likelihood that a document holds: an object with the two strings
    /// `token` and `likelihood`; other members are ignored.
    pub open spec fn of_json(j: JsonValue) -> Option<TokenLikelihoodView> {
        match (j.text_member("token"@), j.text_member("likelihood"@)) {
            (Some(token), Some(likelihood)) => Some(TokenLikelihoodView { token, likelihood }),
            _ => None,
        }
    }

    /// Reads the likelihood from a document.
    pub fn from_json(j: &Json) -> (r: Option<TokenLikelihood>)
        ensures
            match r {
                Some(likelihood) => Self::of_json(j@) == Some(likelihood@),
                None => Self::of_json(j@) is None,
            },
    {
        let token = match j.text_member("token") {
            Some(s) => s.clone(),
            None => { return None; },
        };
        let likelihood = match j.text_member("likelihood") {
            Some(s) => s.clone(),
            None => { return None; },
        };
        Some(TokenLikelihood { token, likelihood })
    }
}

} // verus!
