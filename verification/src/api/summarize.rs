//! Summaries of a text.
use vstd::prelude::*;
use vstd::string::StringExecFns;

verus! {

/// A summarization model.
#[derive(Debug)]
pub enum SummarizeModel {
    Medium,
    XLarge,
}

impl SummarizeModel {
    /// The string that stands for this model on the wire.
    pub open spec fn wire(self) -> Seq<char> {
        match self {
            SummarizeModel::Medium => "summarize-medium"@,
            SummarizeModel::XLarge => "summarize-xlarge"@,
        }
    }

    /// Writes the model as it goes on the wire.
    pub fn to_string(&self) -> (s: String)
        ensures
            s@ == self.wire(),
    {
        match self {
            SummarizeModel::Medium => String::from_str("summarize-medium"),
            SummarizeModel::XLarge => String::from_str("summarize-xlarge"),
        }
    }
}

/// The approximate length of a summary.
#[derive(Debug)]
pub enum SummarizeLength {
    Short,
    Medium,
    Long,
    Auto,
}

impl SummarizeLength {
    /// The string that stands for this value on the wire.
    pub open spec fn wire(self) -> Seq<char> {
        match self {
            SummarizeLength::Short => "short"@,
            SummarizeLength::Medium => "medium"@,
            SummarizeLength::Long => "long"@,
            SummarizeLength::Auto => "auto"@,
        }
    }

    /// Writes the value as it goes on the wire.
    pub fn to_string(&self) -> (s: String)
        ensures
            s@ == self.wire(),
    {
        match self {
            SummarizeLength::Short => String::from_str("short"),
            SummarizeLength::Medium => String::from_str("medium"),
            SummarizeLength::Long => String::from_str("long"),
            SummarizeLength::Auto => String::from_str("auto"),
        }
    }
}

/// The style in which a summary is delivered.
#[derive(Debug)]
pub enum SummarizeFormat {
    Paragraph,
    Bullets,
    Auto,
}

impl SummarizeFormat {
    /// The string that stands for this value on the wire.
    pub open spec fn wire(self) -> Seq<char> {
        match self {
            SummarizeFormat::Paragraph => "paragraph"@,
            SummarizeFormat::Bullets => "bullets"@,
            SummarizeFormat::Auto => "auto"@,
        }
    }

    /// Writes the value as it goes on the wire.
    pub fn to_string(&self) -> (s: String)
        ensures
            s@ == self.wire(),
    {
        match self {
            SummarizeFormat::Paragraph => String::from_str("paragraph"),
            SummarizeFormat::Bullets => String::from_str("bullets"),
            SummarizeFormat::Auto => String::from_str("auto"),
        }
    }
}

/// How close a summary stays to the text it sums up.
#[derive(Debug)]
pub enum SummarizeExtractiveness {
    Low,
    Medium,
    High,
    Auto,
}

impl SummarizeExtractiveness {
    /// The string that stands for this value on the wire.
    pub open spec fn wire(self) -> Seq<char> {
        match self {
            SummarizeExtractiveness::Low => "low"@,
            SummarizeExtractiveness::Medium => "medium"@,
            SummarizeExtractiveness::High => "high"@,
            SummarizeExtractiveness::Auto => "auto"@,
        }
    }

    /// Writes the value as it goes on the wire.
    pub fn to_string(&self) -> (s: String)
        ensures
            s@ == self.wire(),
    {
        match self {
            SummarizeExtractiveness::Low => String::from_str("low"),
            SummarizeExtractiveness::Medium => String::from_str("medium"),
            SummarizeExtractiveness::High => String::from_str("high"),
            SummarizeExtractiveness::Auto => String::from_str("auto"),
        }
    }
}

} // verus!
