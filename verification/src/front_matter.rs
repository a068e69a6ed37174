//! Finding the header block at the start of a content file.
//!
//! A content file opens with a line of three hyphens. The header runs from
//! the start of the text to the next run of three hyphens; the body starts
//! four bytes after that run begins. All offsets count UTF-8 bytes.

use vstd::prelude::*;
use vstd::string::StringSliceAdditionalSpecFns;
use vstd::utf8::*;
use crate::error::ExtractError;
use crate::text::{lemma_ascii_is_boundary, prefix, suffix, HYPHEN};

verus! {

/// Length of the opening marker with its line end: the search for the closing
/// marker starts here.
pub const OPENING_LEN: usize = 4;

/// A text shorter than this cannot hold a header.
pub const MIN_TEXT_LEN: usize = 5;

/// How far the body lies behind the start of the closing marker: the marker
/// and one separator byte.
pub const BODY_SKIP: usize = 4;

/// Three hyphens stand at offset `i`.
pub open spec fn marker_at(text: Seq<u8>, i: int) -> bool {
    &&& 0 <= i
    &&& i + 3 <= text.len()
    &&& text[i] == HYPHEN
    &&& text[i + 1] == HYPHEN
    &&& text[i + 2] == HYPHEN
}

/// Some marker stands at or behind the end of the opening line.
pub open spec fn has_terminator(text: Seq<u8>) -> bool {
    exists|i: int| OPENING_LEN <= i && #[trigger] marker_at(text, i)
}

/// `end` is where the first marker behind the opening line stands.
pub open spec fn is_header_end(text: Seq<u8>, end: int) -> bool {
    &&& OPENING_LEN <= end
    &&& marker_at(text, end)
    &&& forall|j: int| OPENING_LEN <= j < end ==> !#[trigger] marker_at(text, j)
}

/// Where the header ends, for a text that has a terminator.
pub open spec fn header_end(text: Seq<u8>) -> int {
    choose|end: int| is_header_end(text, end)
}

/// The first marker is the only offset that `is_header_end` accepts.
pub proof fn lemma_header_end_unique(text: Seq<u8>, end: int)
    requires
        is_header_end(text, end),
    ensures
        has_terminator(text),
        header_end(text) == end,
{
    let chosen = header_end(text);
    assert(is_header_end(text, chosen));
    if chosen < end {
        assert(!marker_at(text, chosen));
    } else if end < chosen {
        assert(!marker_at(text, end));
    }
}

/// The two parts of a content file that the closing marker separates.
#[derive(Debug, Clone, Copy, PartialEq, Eq)]
pub struct FrontMatter<'a> {
    /// From the start of the text, opening marker included, to the closing marker.
    pub header: &'a str,
    /// From the closing marker, included, to the end of the text.
    pub rest: &'a str,
}

impl<'a> FrontMatter<'a> {
    /// The body markup: what follows the closing marker and one separator
    /// byte. There is none where the text ends before that offset, or where
    /// the offset falls inside a character.
    pub fn body(&self) -> (body: Option<&'a str>)
        ensures
            match body {
                Some(markup) => {
                    &&& is_char_boundary(self.rest.spec_bytes(), BODY_SKIP as int)
                    &&& markup.spec_bytes() == self.rest.spec_bytes().subrange(
                        BODY_SKIP as int,
                        self.rest.spec_bytes().len() as int,
                    )
                },
                None => !is_char_boundary(self.rest.spec_bytes(), BODY_SKIP as int),
            },
    {
        if self.rest.is_char_boundary(BODY_SKIP) {
            Some(suffix(self.rest, BODY_SKIP))
        } else {
            None
        }
    }
}

/// Splits a content file at its closing marker.
///
/// Fails with `EmptyOrTruncated` on a text of fewer than five bytes, and with
/// `MissingHeaderTerminator` on a longer one with no marker at or behind
/// offset four. The opening marker itself is not examined.
pub fn split_front_matter<'a>(text: &'a str) -> (parts: Result<FrontMatter<'a>, ExtractError>)
    ensures
        match parts {
            Ok(found) => {
                let bytes = text.spec_bytes();
                &&& bytes.len() >= MIN_TEXT_LEN
                &&& has_terminator(bytes)
                &&& found.header.spec_bytes() == bytes.subrange(0, header_end(bytes))
                &&& found.rest.spec_bytes() == bytes.subrange(header_end(bytes), bytes.len() as int)
                &&& found.header@ + found.rest@ == text@
            },
            Err(ExtractError::EmptyOrTruncated) => text.spec_bytes().len() < MIN_TEXT_LEN,
            Err(ExtractError::MissingHeaderTerminator) => {
                &&& text.spec_bytes().len() >= MIN_TEXT_LEN
                &&& !has_terminator(text.spec_bytes())
            },
            Err(_) => false,
        },
{
    let bytes = text.as_bytes();
    let len = bytes.len();
    if len < MIN_TEXT_LEN {
        return Err(ExtractError::EmptyOrTruncated);
    }
    let mut at: usize = OPENING_LEN;
    while len - at >= 3
        invariant
            bytes@ == text.spec_bytes(),
            len == bytes@.len(),
            OPENING_LEN <= at <= len,
            forall|j: int| OPENING_LEN <= j < at ==> !#[trigger] marker_at(bytes@, j),
        decreases len - at,
    {
        if bytes[at] == HYPHEN && bytes[at + 1] == HYPHEN && bytes[at + 2] == HYPHEN {
            proof {
                assert(is_header_end(bytes@, at as int));
                lemma_header_end_unique(bytes@, at as int);
                encode_utf8_valid_utf8(text@);
                lemma_ascii_is_boundary(bytes@, at as int);
            }
            let header = prefix(text, at);
            let rest = suffix(text, at);
            proof {
                decode_utf8_split(bytes@, at as int);
                encode_utf8_decode_utf8(text@);
                encode_utf8_decode_utf8(header@);
                encode_utf8_decode_utf8(rest@);
            }
            return Ok(FrontMatter { header, rest });
        }
        at += 1;
    }
    assert(!has_terminator(bytes@));
    Err(ExtractError::MissingHeaderTerminator)
}

} // verus!
