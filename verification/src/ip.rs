//! The caller's public address, as the lookup service reports it.
//!
//! The service answers with a JSON object whose member `origin` is the address
//! that the request came from.

use crate::json;
use crate::json::{json_parse, member_text};
use vstd::prelude::*;

verus! {

/// Why the answer of the lookup service gave no address.
#[derive(Debug, Clone, Copy, PartialEq, Eq, Structural)]
pub enum IpError {
    /// The answer is not JSON.
    NotJson,
    /// The answer is JSON, but not an object with a string `origin`.
    NoOrigin,
}

/// The address that the `origin` member of an answer gives.
pub open spec fn origin_from_member(origin: Option<Seq<char>>) -> Result<Seq<char>, IpError> {
    match origin {
        Some(address) => Ok(address),
        None => Err(IpError::NoOrigin),
    }
}

/// The address that an answer of the lookup service gives.
pub open spec fn origin_in(answer: Seq<char>) -> Result<Seq<char>, IpError> {
    match json_parse(answer) {
        None => Err(IpError::NotJson),
        Some(json) => origin_from_member(member_text(json, "origin"@)),
    }
}

/// Whether an address that was read is the one that the model gives.
pub open spec fn resolves_as(got: Result<String, IpError>, expected: Result<Seq<char>, IpError>)
    -> bool {
    match got {
        Ok(address) => expected == Ok::<Seq<char>, IpError>(address@),
        Err(error) => expected == Err::<Seq<char>, IpError>(error),
    }
}

/// The address of the lookup service.
pub fn lookup_url() -> (url: String)
    ensures
        url@ == "http://httpbin.org/ip"@,
{
    String::from_str("http://httpbin.org/ip")
}

/// The address that the `origin` member of an answer gives: `None` stands for
/// an answer that has no such member, or holds something else than a string
/// under that name.
pub fn from_member(origin: Option<String>) -> (address: Result<String, IpError>)
    ensures
        resolves_as(
            address,
            origin_from_member(
                match origin {
                    Some(text) => Some(text@),
                    None => None,
                },
            ),
        ),
{
    match origin {
        Some(address) => Ok(address),
        None => Err(IpError::NoOrigin),
    }
}

/// Reads the answer of the lookup service: it has to be a JSON object, and its
/// member `origin` a string, which is the address.
pub fn origin_of(answer: &str) -> (address: Result<String, IpError>)
    ensures
        resolves_as(address, origin_in(answer@)),
{
    match json::parse(answer) {
        Err(_) => Err(IpError::NotJson),
        Ok(value) => from_member(json::text_member(&value, "origin")),
    }
}

} // verus!
