//! The search service's answer, as far as decoding reads it.
//!
//! An answer is a JSON object with a `header` object and a `results` array; each
//! result again has a `header` and a `data` object. The objects are kept as their
//! members in order, each value reduced to what decoding tells apart.

use vstd::prelude::*;
use vstd::string::*;
use crate::error::DecodeError;
use crate::quota::Quota;
use crate::similarity::{score_of, Similarity};

verus! {

/// A JSON value, as far as decoding tells values apart.
#[derive(Clone, Debug)]
pub enum Field {
    /// A number that is a non-negative integer below 2^64.
    Unsigned(u64),
    /// A string.
    Text(String),
    /// Any other value: null, a boolean, another number, an array or an object.
    Other,
}

/// One member of a JSON object.
#[derive(Clone, Debug)]
pub struct Member {
    pub key: String,
    pub value: Field,
}

/// One result of a search.
#[derive(Clone, Debug)]
#[non_exhaustive]
pub struct SauceNaoResult {
    pub data: Vec<Member>,
    pub header: Vec<Member>,
}

/// A whole answer of the search service.
#[derive(Clone, Debug)]
#[non_exhaustive]
pub struct SauceNaoResponse {
    pub header: Vec<Member>,
    pub results: Vec<SauceNaoResult>,
}

/// A successful lookup: how similar the best result is, and what it is known as.
#[derive(Clone, Copy, Debug, PartialEq, Eq, Structural)]
pub struct Match {
    pub similarity: Similarity,
    pub external_id: u64,
}

/// The value of the first member of `members` named `key`.
pub open spec fn lookup(members: Seq<Member>, key: Seq<char>) -> Option<Field>
    decreases members.len(),
{
    if members.len() == 0 {
        None
    } else if members[0].key@ == key {
        Some(members[0].value)
    } else {
        lookup(members.skip(1), key)
    }
}

/// The unsigned number that `members` holds under `key`.
pub open spec fn unsigned_at(members: Seq<Member>, key: Seq<char>) -> Option<u64> {
    match lookup(members, key) {
        Some(Field::Unsigned(n)) => Some(n),
        _ => None,
    }
}

/// The quota that a response header carries: both counters, or nothing.
pub open spec fn quota_of(header: Seq<Member>) -> Option<Quota> {
    match (unsigned_at(header, "short_remaining"@), unsigned_at(header, "long_remaining"@)) {
        (Some(short_remaining), Some(long_remaining)) => Some(
            Quota { short_remaining, long_remaining },
        ),
        _ => None,
    }
}

/// The match that one result describes.
pub open spec fn match_of_result(result: SauceNaoResult) -> Result<Match, DecodeError> {
    match lookup(result.header@, "similarity"@) {
        Some(Field::Text(text)) => match score_of(text@) {
            Some(hundredths) => match unsigned_at(result.data@, "external_id"@) {
                Some(external_id) => Ok(
                    Match { similarity: Similarity { hundredths: hundredths as u16 }, external_id },
                ),
                None => Err(DecodeError::IdNotNumber),
            },
            None => Err(DecodeError::SimilarityNotDecimal),
        },
        _ => Err(DecodeError::SimilarityNotText),
    }
}

/// The match that a list of results yields: that of its first result.
pub open spec fn match_of(results: Seq<SauceNaoResult>) -> Result<Match, DecodeError> {
    if results.len() == 0 {
        Err(DecodeError::NoResults)
    } else {
        match_of_result(results[0])
    }
}

/// Whether two texts are the same.
pub fn same_text(a: &str, b: &str) -> (same: bool)
    ensures
        same == (a@ == b@),
{
    String::from_str(a) == String::from_str(b)
}

/// Finds the value of the first member named `key`.
pub fn find<'a>(members: &'a Vec<Member>, key: &str) -> (found: Option<&'a Field>)
    ensures
        match found {
            Some(value) => lookup(members@, key@) == Some(*value),
            None => lookup(members@, key@) is None,
        },
{
    let mut i: usize = 0;
    assert(members@.skip(0) =~= members@);
    while i < members.len()
        invariant
            0 <= i <= members.len(),
            lookup(members@, key@) == lookup(members@.skip(i as int), key@),
        decreases members.len() - i,
    {
        if same_text(members[i].key.as_str(), key) {
            assert(members@.skip(i as int)[0] == members@[i as int]);
            return Some(&members[i].value);
        }
        assert(members@.skip(i as int).skip(1) =~= members@.skip(i as int + 1));
        i = i + 1;
    }
    None
}

/// Finds the unsigned number held under `key`.
pub fn find_unsigned(members: &Vec<Member>, key: &str) -> (found: Option<u64>)
    ensures
        found == unsigned_at(members@, key@),
{
    match find(members, key) {
        Some(Field::Unsigned(n)) => Some(*n),
        _ => None,
    }
}

impl SauceNaoResult {
    /// A result with the given `data` and `header` members.
    pub fn new(data: Vec<Member>, header: Vec<Member>) -> (result: SauceNaoResult)
        ensures
            result.data == data,
            result.header == header,
    {
        SauceNaoResult { data, header }
    }

    /// Reads the similarity and the identifier of this result.
    pub fn to_match(&self) -> (r: Result<Match, DecodeError>)
        ensures
            r == match_of_result(*self),
            r matches Ok(m) ==> m.similarity.wf(),
    {
        match find(&self.header, "similarity") {
            Some(Field::Text(text)) => match Similarity::parse(text.as_str()) {
                Some(similarity) => match find_unsigned(&self.data, "external_id") {
                    Some(external_id) => Ok(Match { similarity, external_id }),
                    None => Err(DecodeError::IdNotNumber),
                },
                None => Err(DecodeError::SimilarityNotDecimal),
            },
            _ => Err(DecodeError::SimilarityNotText),
        }
    }
}

impl SauceNaoResponse {
    /// An answer with the given `header` members and `results`.
    pub fn new(header: Vec<Member>, results: Vec<SauceNaoResult>) -> (response: SauceNaoResponse)
        ensures
            response.header == header,
            response.results == results,
    {
        SauceNaoResponse { header, results }
    }

    /// Reads the two quota counters from the header.
    pub fn read_quota(&self) -> (r: Option<Quota>)
        ensures
            r == quota_of(self.header@),
    {
        match (
            find_unsigned(&self.header, "short_remaining"),
            find_unsigned(&self.header, "long_remaining"),
        ) {
            (Some(short_remaining), Some(long_remaining)) => Some(
                Quota { short_remaining, long_remaining },
            ),
            _ => None,
        }
    }

    /// Reads the match of the first result. An answer without results is an
    /// error, never a match made up.
    pub fn first_match(&self) -> (r: Result<Match, DecodeError>)
        ensures
            r == match_of(self.results@),
            self.results@.len() == 0 ==> r == Err::<Match, DecodeError>(DecodeError::NoResults),
            r matches Ok(m) ==> m.similarity.wf(),
    {
        if self.results.len() == 0 {
            Err(DecodeError::NoResults)
        } else {
            self.results[0].to_match()
        }
    }
}

} // verus!
