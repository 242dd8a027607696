//! What can go wrong, and how far each failure reaches.

use vstd::prelude::*;
use vstd::string::*;
use crate::decimal::{decimal_text, render};

verus! {

/// Why a response of the service could not be read as a match.
#[derive(Clone, Copy, Debug, PartialEq, Eq, Structural)]
pub enum DecodeError {
    /// The answer is not a JSON object with a header and a list of results.
    Malformed,
    /// The response lists no result at all.
    NoResults,
    /// The first result's similarity is absent or is not a string.
    SimilarityNotText,
    /// The first result's similarity is a string, but not a score in decimal notation.
    SimilarityNotDecimal,
    /// The first result's identifier is absent or is not an unsigned number.
    IdNotNumber,
    /// The response header lacks one of the two quota counters as an unsigned number.
    QuotaMissing,
}

/// A failure of the pipeline.
#[derive(Clone, Copy, Debug, PartialEq, Eq, Structural)]
pub enum Error {
    /// The long-window quota is used up; no wait within this run restores it.
    LongLimit,
    /// The search service could not be reached or did not answer.
    Transport,
    /// The client is configured so that no request address can be formed.
    Config,
    /// The service answered, but not with a readable match.
    Decode(DecodeError),
    /// The file of a workflow could not be read.
    Read,
    /// The bookmarking service refused a favorite, with this status code.
    Favorite(u16),
    /// The bookmarking service could not be reached or did not answer.
    FavoriteUnsent,
    /// The run was aborted before this request was served.
    Cancelled,
}

impl DecodeError {
    /// The sentence that reports this failure.
    pub open spec fn sentence(self) -> Seq<char> {
        match self {
            DecodeError::Malformed => "The response is not of the expected shape"@,
            DecodeError::NoResults => "The response holds no result"@,
            DecodeError::SimilarityNotText => "Similarity wasn't a string!"@,
            DecodeError::SimilarityNotDecimal => "Similarity wasn't a decimal score"@,
            DecodeError::IdNotNumber => "ID wasn't a number"@,
            DecodeError::QuotaMissing => "The response header holds no quota"@,
        }
    }

    /// Writes the sentence that reports this failure.
    pub fn message(&self) -> (text: String)
        ensures
            text@ == self.sentence(),
    {
        match self {
            DecodeError::Malformed => String::from_str("The response is not of the expected shape"),
            DecodeError::NoResults => String::from_str("The response holds no result"),
            DecodeError::SimilarityNotText => String::from_str("Similarity wasn't a string!"),
            DecodeError::SimilarityNotDecimal => String::from_str(
                "Similarity wasn't a decimal score",
            ),
            DecodeError::IdNotNumber => String::from_str("ID wasn't a number"),
            DecodeError::QuotaMissing => String::from_str("The response header holds no quota"),
        }
    }
}

impl Error {
    /// The sentence that reports this failure.
    pub open spec fn sentence(self) -> Seq<char> {
        match self {
            Error::LongLimit => "Long limit reached!"@,
            Error::Transport => "The search service did not answer"@,
            Error::Config => "No request address can be formed"@,
            Error::Decode(e) => e.sentence(),
            Error::Read => "The file could not be read"@,
            Error::Favorite(status) => "Bad response: "@ + decimal_text(status as nat),
            Error::FavoriteUnsent => "The bookmarking service did not answer"@,
            Error::Cancelled => "The run was aborted before this request was served"@,
        }
    }

    /// Writes the sentence that reports this failure.
    pub fn message(&self) -> (text: String)
        ensures
            text@ == self.sentence(),
    {
        match self {
            Error::LongLimit => String::from_str("Long limit reached!"),
            Error::Transport => String::from_str("The search service did not answer"),
            Error::Config => String::from_str("No request address can be formed"),
            Error::Decode(e) => e.message(),
            Error::Read => String::from_str("The file could not be read"),
            Error::Favorite(status) => {
                let number = render(*status as u64);
                String::from_str("Bad response: ").concat(number.as_str())
            },
            Error::FavoriteUnsent => String::from_str("The bookmarking service did not answer"),
            Error::Cancelled => String::from_str(
                "The run was aborted before this request was served",
            ),
        }
    }

    /// The failure ends the whole run, not only the workflow it surfaced in.
    pub open spec fn run_fatal(self) -> bool {
        self == Error::LongLimit || self == Error::Transport || self == Error::Config
    }

    /// Whether the failure ends the whole run.
    pub fn is_run_fatal(&self) -> (fatal: bool)
        ensures
            fatal == self.run_fatal(),
    {
        match self {
            Error::LongLimit => true,
            Error::Transport => true,
            Error::Config => true,
            _ => false,
        }
    }
}

} // verus!
