//! The address of a record: its file name without the extension, with
//! `.html` behind it and, for a post, the date before it.

use vstd::prelude::*;
use vstd::string::StringExecFns;
use vstd::string::StringSliceAdditionalSpecFns;
use vstd::utf8::*;
use crate::decimal::{
    digit_char, format_padded, format_padded_signed, lemma_four_digits, lemma_two_digits,
    padded_int, zero_padded,
};
use crate::text::{lemma_ascii_is_boundary, prefix, FULL_STOP};

verus! {

/// The full stop at `at` sets off the extension: it is the name's last one,
/// and the name does not begin with it.
pub open spec fn is_extension_dot(name: Seq<u8>, at: int) -> bool {
    &&& 0 < at < name.len()
    &&& name[at] == FULL_STOP
    &&& forall|j: int| at < j < name.len() ==> name[j] != FULL_STOP
}

/// The name ends in an extension.
pub open spec fn has_extension(name: Seq<u8>) -> bool {
    exists|at: int| is_extension_dot(name, at)
}

/// The name without its extension, as UTF-8 bytes: what stands before the
/// last full stop. A name without a full stop, or whose only one comes
/// first, is its own stem.
pub open spec fn stem(name: Seq<u8>) -> Seq<u8> {
    if has_extension(name) {
        name.subrange(0, choose|at: int| is_extension_dot(name, at))
    } else {
        name
    }
}

/// The name without its extension, as characters.
pub open spec fn stem_text(name: Seq<char>) -> Seq<char> {
    decode_utf8(stem(encode_utf8(name)))
}

/// A name has one extension dot at most.
pub proof fn lemma_extension_dot_unique(name: Seq<u8>, at: int)
    requires
        is_extension_dot(name, at),
    ensures
        has_extension(name),
        stem(name) == name.subrange(0, at),
{
    let chosen = choose|k: int| is_extension_dot(name, k);
    assert(is_extension_dot(name, chosen));
}

/// Takes the extension off a file name.
pub fn strip_extension<'a>(name: &'a str) -> (bare: &'a str)
    ensures
        bare.spec_bytes() == stem(name.spec_bytes()),
        bare@ == stem_text(name@),
{
    let bytes = name.as_bytes();
    let mut at: usize = bytes.len();
    proof {
        encode_utf8_decode_utf8(name@);
    }
    while at > 1
        invariant
            bytes@ == name.spec_bytes(),
            at <= bytes@.len(),
            forall|j: int| at <= j < bytes@.len() ==> bytes@[j] != FULL_STOP,
        decreases at,
    {
        at -= 1;
        if bytes[at] == FULL_STOP {
            proof {
                lemma_extension_dot_unique(bytes@, at as int);
                encode_utf8_valid_utf8(name@);
                lemma_ascii_is_boundary(bytes@, at as int);
            }
            let bare = prefix(name, at);
            proof {
                encode_utf8_decode_utf8(bare@);
            }
            return bare;
        }
    }
    assert(!has_extension(bytes@));
    name
}

/// What ends every address.
pub open spec fn html_suffix() -> Seq<char> {
    seq!['.', 'h', 't', 'm', 'l']
}

/// The address of a page: its bare file name and `.html`.
pub open spec fn page_url_text(filename: Seq<char>) -> Seq<char> {
    filename + html_suffix()
}

/// The address of a post: year, month and day, zero-padded to four, two and
/// two characters, then the bare file name and `.html`, with a slash after
/// each part of the date.
pub open spec fn post_url_text(year: int, month: int, day: int, filename: Seq<char>) -> Seq<char> {
    padded_int(year, 4) + seq!['/'] + zero_padded(month as nat, 2) + seq!['/'] + zero_padded(
        day as nat,
        2,
    ) + seq!['/'] + filename + html_suffix()
}

/// The address of a page with this bare file name.
pub fn page_url(filename: &str) -> (url: String)
    ensures
        url@ == page_url_text(filename@),
{
    proof {
        reveal_strlit(".html");
    }
    let mut url = String::from_str(filename);
    url.append(".html");
    assert(url@ =~= page_url_text(filename@));
    url
}

/// The address of a post of this date with this bare file name.
pub fn post_url(year: i32, month: u32, day: u32, filename: &str) -> (url: String)
    ensures
        url@ == post_url_text(year as int, month as int, day as int, filename@),
{
    proof {
        reveal_strlit("/");
        reveal_strlit(".html");
    }
    let mut url = format_padded_signed(year as i64, 4);
    url.append("/");
    url.append(format_padded(month as u64, 2).as_str());
    url.append("/");
    url.append(format_padded(day as u64, 2).as_str());
    url.append("/");
    url.append(filename);
    url.append(".html");
    assert(url@ =~= post_url_text(year as int, month as int, day as int, filename@));
    url
}

/// The address of a post written out, for the years that have four digits:
/// `YYYY/MM/DD/` with every place filled, then the bare file name and `.html`.
pub proof fn lemma_post_url_shape(year: int, month: int, day: int, filename: Seq<char>)
    requires
        0 <= year <= 9999,
        0 <= month <= 99,
        0 <= day <= 99,
    ensures
        post_url_text(year, month, day, filename) == seq![
            digit_char(year / 1000),
            digit_char(year / 100 % 10),
            digit_char(year / 10 % 10),
            digit_char(year % 10),
            '/',
            digit_char(month / 10),
            digit_char(month % 10),
            '/',
            digit_char(day / 10),
            digit_char(day % 10),
            '/',
        ] + filename + html_suffix(),
{
    lemma_four_digits(year as nat);
    lemma_two_digits(month as nat);
    lemma_two_digits(day as nat);
    assert(post_url_text(year, month, day, filename) =~= seq![
        digit_char(year / 1000),
        digit_char(year / 100 % 10),
        digit_char(year / 10 % 10),
        digit_char(year % 10),
        '/',
        digit_char(month / 10),
        digit_char(month % 10),
        '/',
        digit_char(day / 10),
        digit_char(day % 10),
        '/',
    ] + filename + html_suffix());
}

} // verus!
