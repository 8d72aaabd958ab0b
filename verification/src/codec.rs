//! Text encodings shared by the row formats: the JSON array of member
//! identifiers, and the error type for rows that cannot be reconstructed.

use vstd::prelude::*;

verus! {

/// The JSON array text for a list of member identifiers.
pub uninterp spec fn json_of_ids(ids: Seq<u64>) -> Seq<char>;

/// The list of member identifiers a JSON text denotes, or `None` where
/// the text is not a JSON array of unsigned integers.
pub uninterp spec fn parse_ids(s: Seq<char>) -> Option<Seq<u64>>;

/// Why a stored row could not be reconstructed. A row that fails this way
/// is corrupt; the single read aborts, distinguishably from "not found".
#[derive(Clone, Copy, Debug, PartialEq, Eq, Structural)]
pub enum DecodeError {
    /// The attendance column is not a JSON array of member identifiers.
    BadAttendance,
    /// A timestamp column is not a readable RFC 3339 text.
    BadTimestamp,
}

/// Relies on `serde_json::to_string`: the JSON array text for a list of
/// integer identifiers. Serializing a `Vec<u64>` cannot fail, and
/// `serde_json::from_str` parses the text back to the same list.
#[verifier::external_body]
pub fn encode_ids(ids: &Vec<u64>) -> (r: String)
    ensures
        r@ == json_of_ids(ids@),
        parse_ids(r@) == Some(ids@),
{
    serde_json::to_string(ids).unwrap()
}

/// Relies on `serde_json::from_str`: parses a JSON array of integer
/// identifiers, or returns `None` where the text is not one.
#[verifier::external_body]
pub fn decode_ids(s: &str) -> (r: Option<Vec<u64>>)
    ensures
        match r {
            Some(v) => parse_ids(s@) == Some(v@),
            None => parse_ids(s@) is None,
        },
{
    serde_json::from_str::<Vec<u64>>(s).ok()
}

} // verus!
