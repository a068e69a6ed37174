//! Decoding the name of a dated content file: year, month, day and slug,
//! separated by hyphens.

use vstd::prelude::*;
use vstd::string::StringExecFns;
use vstd::string::StringSliceAdditionalSpecFns;
use vstd::utf8::*;
use crate::decimal::{parse_i32, parse_u32, parsed_i32, parsed_u32};
use crate::error::ExtractError;
use crate::text::{lemma_ascii_is_boundary, suffix, HYPHEN};

verus! {

/// What the name of a dated content file says.
#[derive(Debug, Clone, PartialEq, Eq)]
pub struct DatedName {
    pub year: i32,
    pub month: u32,
    pub day: u32,
    /// What follows the third hyphen, as it stands: further hyphens and the
    /// extension included.
    pub filename: String,
}

/// `at` is where the first hyphen at or behind `from` stands.
pub open spec fn is_next_hyphen(name: Seq<u8>, from: int, at: int) -> bool {
    &&& 0 <= from <= at < name.len()
    &&& name[at] == HYPHEN
    &&& forall|j: int| from <= j < at ==> name[j] != HYPHEN
}

/// A hyphen stands at or behind `from`.
pub open spec fn has_hyphen(name: Seq<u8>, from: int) -> bool {
    exists|at: int| is_next_hyphen(name, from, at)
}

/// Where the first hyphen at or behind `from` stands, if there is one.
pub open spec fn next_hyphen(name: Seq<u8>, from: int) -> int {
    choose|at: int| is_next_hyphen(name, from, at)
}

/// Year, month, day and slug of a file name, the slug as bytes.
///
/// The name is cut at its first three hyphens. The first three parts must
/// read as numbers, the year signed and the others unsigned; the fourth part
/// is the slug. A name with fewer than three hyphens decodes to nothing.
pub open spec fn decoded_name(name: Seq<u8>) -> Option<(i32, u32, u32, Seq<u8>)> {
    if !has_hyphen(name, 0) {
        None
    } else {
        let first = next_hyphen(name, 0);
        if !has_hyphen(name, first + 1) {
            None
        } else {
            let second = next_hyphen(name, first + 1);
            if !has_hyphen(name, second + 1) {
                None
            } else {
                let third = next_hyphen(name, second + 1);
                match (
                    parsed_i32(name.subrange(0, first)),
                    parsed_u32(name.subrange(first + 1, second)),
                    parsed_u32(name.subrange(second + 1, third)),
                ) {
                    (Some(year), Some(month), Some(day)) => Some(
                        (year, month, day, name.subrange(third + 1, name.len() as int)),
                    ),
                    _ => None,
                }
            }
        }
    }
}

/// The first hyphen is the only offset that `is_next_hyphen` accepts.
pub proof fn lemma_next_hyphen_unique(name: Seq<u8>, from: int, at: int)
    requires
        is_next_hyphen(name, from, at),
    ensures
        has_hyphen(name, from),
        next_hyphen(name, from) == at,
{
    let chosen = next_hyphen(name, from);
    assert(is_next_hyphen(name, from, chosen));
}

/// Finds the first hyphen at or behind `from`.
fn find_hyphen(name: &[u8], from: usize) -> (found: Option<usize>)
    requires
        from <= name@.len(),
    ensures
        match found {
            Some(at) => {
                &&& at < name.len()
                &&& is_next_hyphen(name@, from as int, at as int)
                &&& next_hyphen(name@, from as int) == at
            },
            None => !has_hyphen(name@, from as int),
        },
{
    let mut at: usize = from;
    while at < name.len()
        invariant
            from <= at <= name@.len(),
            forall|j: int| from <= j < at ==> name@[j] != HYPHEN,
        decreases name@.len() - at,
    {
        if name[at] == HYPHEN {
            proof {
                lemma_next_hyphen_unique(name@, from as int, at as int);
            }
            return Some(at);
        }
        at += 1;
    }
    None
}

/// Decodes the name of a dated content file.
///
/// The name is the last segment of the file's path. It fails with
/// `MalformedFilename` where the name has fewer than three hyphens or one of
/// the three parts before them does not read as a number.
pub fn decode_filename(name: &str) -> (decoded: Result<DatedName, ExtractError>)
    ensures
        match decoded {
            Ok(parts) => decoded_name(name.spec_bytes()) == Some(
                (parts.year, parts.month, parts.day, encode_utf8(parts.filename@)),
            ),
            Err(ExtractError::MalformedFilename) => decoded_name(name.spec_bytes()) is None,
            Err(_) => false,
        },
{
    let bytes = name.as_bytes();
    let first = match find_hyphen(bytes, 0) {
        Some(at) => at,
        None => {
            return Err(ExtractError::MalformedFilename);
        },
    };
    let second = match find_hyphen(bytes, first + 1) {
        Some(at) => at,
        None => {
            return Err(ExtractError::MalformedFilename);
        },
    };
    let third = match find_hyphen(bytes, second + 1) {
        Some(at) => at,
        None => {
            return Err(ExtractError::MalformedFilename);
        },
    };
    let year = match parse_i32(&bytes[0..first]) {
        Some(value) => value,
        None => {
            return Err(ExtractError::MalformedFilename);
        },
    };
    let month = match parse_u32(&bytes[first + 1..second]) {
        Some(value) => value,
        None => {
            return Err(ExtractError::MalformedFilename);
        },
    };
    let day = match parse_u32(&bytes[second + 1..third]) {
        Some(value) => value,
        None => {
            return Err(ExtractError::MalformedFilename);
        },
    };
    proof {
        encode_utf8_valid_utf8(name@);
        lemma_ascii_is_boundary(bytes@, third as int);
    }
    let slug = suffix(name, third + 1);
    Ok(DatedName { year, month, day, filename: String::from_str(slug) })
}

} // verus!
