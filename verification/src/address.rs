//! Request addresses: a fixed endpoint with query parameters appended.

use vstd::prelude::*;
use vstd::string::*;
use crate::decimal::{decimal_text, render};
use crate::error::Error;

verus! {

#[verifier::external_type_specification]
#[verifier::external_body]
pub struct ExParseError(url::ParseError);

/// The address that `url::Url::parse_with_params` forms from the absolute URL
/// `input` and the query `params`, or `None` where it rejects `input`.
pub uninterp spec fn url_with_params(input: Seq<char>, params: Seq<(Seq<char>, Seq<char>)>) -> Option<Seq<char>>;

/// The query parameters of `pairs` as plain texts.
pub open spec fn params_of(pairs: Seq<(String, String)>) -> Seq<(Seq<char>, Seq<char>)> {
    Seq::new(pairs.len(), |i: int| (pairs[i].0@, pairs[i].1@))
}

/// Calls `url::Url::parse_with_params`, which parses `input` as an absolute URL
/// and appends `params`, form-encoded, to its query. Trusted: the outcome is a
/// function of the two arguments, named `url_with_params`; the text returned is
/// the serialization of the URL.
#[verifier::external_body]
fn parse_with_params(input: &str, params: &Vec<(String, String)>) -> (r: Result<String, url::ParseError>)
    ensures
        match r {
            Ok(address) => url_with_params(input@, params_of(params@)) == Some(address@),
            Err(_) => url_with_params(input@, params_of(params@)) is None,
        },
{
    url::Url::parse_with_params(input, params).map(String::from)
}

/// The query that a search carries: the fixed settings, then the caller's key.
pub open spec fn search_params(api_key: Seq<char>) -> Seq<(Seq<char>, Seq<char>)> {
    seq![
        ("output_type"@, "2"@),
        ("numres"@, "1"@),
        ("minsim"@, "85"@),
        ("db"@, "9"@),
        ("api_key"@, api_key),
    ]
}

/// The address of a search made with `api_key`.
pub open spec fn search_address(api_key: Seq<char>) -> Option<Seq<char>> {
    url_with_params("https://saucenao.com/search.php"@, search_params(api_key))
}

/// The query that a favorite carries: the post's number in decimal.
pub open spec fn favorite_params(id: u64) -> Seq<(Seq<char>, Seq<char>)> {
    seq![("post_id"@, decimal_text(id as nat))]
}

/// The address that marks post `id` as a favorite.
pub open spec fn favorite_address(id: u64) -> Option<Seq<char>> {
    url_with_params("https://danbooru.donmai.us/favorites"@, favorite_params(id))
}

/// A query parameter from two texts.
fn param(name: &str, value: &str) -> (pair: (String, String))
    ensures
        pair.0@ == name@,
        pair.1@ == value@,
{
    (String::from_str(name), String::from_str(value))
}

/// Settles what the address parser returned: an address, or a configuration error.
pub fn settle(parsed: Result<String, url::ParseError>) -> (r: Result<String, Error>)
    ensures
        match parsed {
            Ok(address) => r == Ok::<String, Error>(address),
            Err(_) => r == Err::<String, Error>(Error::Config),
        },
{
    match parsed {
        Ok(address) => Ok(address),
        Err(_) => Err(Error::Config),
    }
}

/// Forms the address of a search made with `api_key`.
pub fn search_url(api_key: &str) -> (r: Result<String, Error>)
    ensures
        match r {
            Ok(address) => search_address(api_key@) == Some(address@),
            Err(e) => e == Error::Config && search_address(api_key@) is None,
        },
{
    let mut params: Vec<(String, String)> = Vec::new();
    params.push(param("output_type", "2"));
    params.push(param("numres", "1"));
    params.push(param("minsim", "85"));
    params.push(param("db", "9"));
    params.push(param("api_key", api_key));
    assert(params_of(params@) =~= search_params(api_key@));
    settle(parse_with_params("https://saucenao.com/search.php", &params))
}

/// Forms the address that marks post `id` as a favorite.
pub fn favorite_url(id: u64) -> (r: Result<String, Error>)
    ensures
        match r {
            Ok(address) => favorite_address(id) == Some(address@),
            Err(e) => e == Error::Config && favorite_address(id) is None,
        },
{
    let number = render(id);
    let mut params: Vec<(String, String)> = Vec::new();
    params.push(param("post_id", number.as_str()));
    assert(params_of(params@) =~= favorite_params(id));
    settle(parse_with_params("https://danbooru.donmai.us/favorites", &params))
}

} // verus!
