//! Request and response shapes, one module per endpoint, and the
//! identifiers they share.
use vstd::prelude::*;
use vstd::string::StringExecFns;

pub mod chat;
pub mod classify;
pub mod detect_language;
pub mod detokenize;
pub mod embed;
pub mod generate;
pub mod rerank;
pub mod summarize;
pub mod tokenize;

verus! {

/// How the service treats an input longer than the model's context.
#[derive(Debug)]
pub enum Truncate {
    /// Discard nothing: too long an input is an error.
    Disabled,
    /// Discard the start of the input.
    Start,
    /// Discard the end of the input.
    End,
}

impl Truncate {
    /// The string that stands for this value on the wire.
    pub open spec fn wire(self) -> Seq<char> {
        match self {
            Truncate::Disabled => "NONE"@,
            Truncate::Start => "START"@,
            Truncate::End => "END"@,
        }
    }

    /// Writes the value as it goes on the wire.
    pub fn to_string(&self) -> (s: String)
        ensures
            s@ == self.wire(),
    {
        match self {
            Truncate::Disabled => String::from_str("NONE"),
            Truncate::Start => String::from_str("START"),
            Truncate::End => String::from_str("END"),
        }
    }
}

/// An embedding model: one of the named models, or any other by its full
/// identifier.
#[derive(Debug)]
pub enum EmbedModel {
    EnglishLightV2,
    EnglishV2,
    MultilingualV2,
    EnglishLightV3,
    EnglishV3,
    MultilingualV3,
    /// A model the library has no name for; the identifier goes on the wire
    /// as it is.
    Custom(String),
}

impl EmbedModel {
    /// The string that stands for this model on the wire.
    pub open spec fn wire(self) -> Seq<char> {
        match self {
            EmbedModel::EnglishLightV2 => "embed-english-light-v2.0"@,
            EmbedModel::EnglishV2 => "embed-english-v2.0"@,
            EmbedModel::MultilingualV2 => "embed-multilingual-v2.0"@,
            EmbedModel::EnglishLightV3 => "embed-english-light-v3.0"@,
            EmbedModel::EnglishV3 => "embed-english-v3.0"@,
            EmbedModel::MultilingualV3 => "embed-multilingual-v3.0"@,
            EmbedModel::Custom(name) => name@,
        }
    }

    /// Writes the model as it goes on the wire.
    pub fn to_string(&self) -> (s: String)
        ensures
            s@ == self.wire(),
    {
        match self {
            EmbedModel::EnglishLightV2 => String::from_str("embed-english-light-v2.0"),
            EmbedModel::EnglishV2 => String::from_str("embed-english-v2.0"),
            EmbedModel::MultilingualV2 => String::from_str("embed-multilingual-v2.0"),
            EmbedModel::EnglishLightV3 => String::from_str("embed-english-light-v3.0"),
            EmbedModel::EnglishV3 => String::from_str("embed-english-v3.0"),
            EmbedModel::MultilingualV3 => String::from_str("embed-multilingual-v3.0"),
            EmbedModel::Custom(name) => name.clone(),
        }
    }
}

/// A text-generation model: one of the named models, or any other by its
/// full identifier.
#[derive(Debug)]
pub enum GenerateModel {
    Command,
    CommandLight,
    CommandR,
    CommandRPlus,
    CommandR082024,
    CommandRPlus082024,
    CommandNightly,
    /// A model the library has no name for; the identifier goes on the wire
    /// as it is.
    Custom(String),
}

impl GenerateModel {
    /// The string that stands for this model on the wire.
    pub open spec fn wire(self) -> Seq<char> {
        match self {
            GenerateModel::Command => "command"@,
            GenerateModel::CommandLight => "command-light"@,
            GenerateModel::CommandR => "command-r"@,
            GenerateModel::CommandRPlus => "command-r-plus"@,
            GenerateModel::CommandR082024 => "command-r-08-2024"@,
            GenerateModel::CommandRPlus082024 => "command-r-plus-08-2024"@,
            GenerateModel::CommandNightly => "command-nightly"@,
            GenerateModel::Custom(name) => name@,
        }
    }

    /// Writes the model as it goes on the wire.
    pub fn to_string(&self) -> (s: String)
        ensures
            s@ == self.wire(),
    {
        match self {
            GenerateModel::Command => String::from_str("command"),
            GenerateModel::CommandLight => String::from_str("command-light"),
            GenerateModel::CommandR => String::from_str("command-r"),
            GenerateModel::CommandRPlus => String::from_str("command-r-plus"),
            GenerateModel::CommandR082024 => String::from_str("command-r-08-2024"),
            GenerateModel::CommandRPlus082024 => String::from_str("command-r-plus-08-2024"),
            GenerateModel::CommandNightly => String::from_str("command-nightly"),
            GenerateModel::Custom(name) => name.clone(),
        }
    }
}

} // verus!
