//! Texts as UTF-8 bytes: cutting a `&str` at byte offsets and comparing texts.

use vstd::prelude::*;
use vstd::string::StringSliceAdditionalSpecFns;
use vstd::utf8::*;

verus! {

/// The hyphen: three of them make a marker, and one separates the parts of a
/// dated file name.
pub const HYPHEN: u8 = 0x2d;

/// The full stop, which sets off a file name's extension.
pub const FULL_STOP: u8 = 0x2e;

/// In valid UTF-8 the byte after a one-byte character starts a character,
/// or is the end of the text.
pub proof fn lemma_boundary_after_ascii(bytes: Seq<u8>, i: int)
    requires
        valid_utf8(bytes),
        0 <= i < bytes.len(),
        is_char_boundary(bytes, i),
        bytes[i] <= 0x7f,
    ensures
        is_char_boundary(bytes, i + 1),
    decreases bytes.len(),
{
    reveal_with_fuel(is_char_boundary, 2);
    if i == 0 {
    } else {
        let rest = pop_first_scalar(bytes);
        let width = length_of_first_scalar(bytes);
        assert(i >= width);
        assert(rest[i - width] == bytes[i]);
        lemma_boundary_after_ascii(rest, i - width);
    }
}

/// A byte below 0x80 always starts a character.
pub proof fn lemma_ascii_is_boundary(bytes: Seq<u8>, i: int)
    requires
        valid_utf8(bytes),
        0 <= i < bytes.len(),
        bytes[i] <= 0x7f,
    ensures
        is_char_boundary(bytes, i),
        is_char_boundary(bytes, i + 1),
{
    is_char_boundary_iff_not_is_continuation_byte(bytes, i);
    lemma_boundary_after_ascii(bytes, i);
}

/// The text up to byte offset `mid`.
pub fn prefix<'a>(text: &'a str, mid: usize) -> (head: &'a str)
    requires
        is_char_boundary(text.spec_bytes(), mid as int),
    ensures
        head.spec_bytes() == text.spec_bytes().subrange(0, mid as int),
{
    let (head, _) = text.split_at(mid);
    head
}

/// The text from byte offset `mid` on.
pub fn suffix<'a>(text: &'a str, mid: usize) -> (tail: &'a str)
    requires
        is_char_boundary(text.spec_bytes(), mid as int),
    ensures
        tail.spec_bytes() == text.spec_bytes().subrange(mid as int, text.spec_bytes().len() as int),
{
    let (_, tail) = text.split_at(mid);
    tail
}

/// Whether two texts are the same.
pub fn same_text(a: &str, b: &str) -> (same: bool)
    ensures
        same == (a@ == b@),
{
    let x = a.as_bytes();
    let y = b.as_bytes();
    proof {
        encode_utf8_decode_utf8(a@);
        encode_utf8_decode_utf8(b@);
    }
    if x.len() != y.len() {
        return false;
    }
    let mut i: usize = 0;
    while i < x.len()
        invariant
            i <= x.len(),
            x.len() == y.len(),
            x@ == a.spec_bytes(),
            y@ == b.spec_bytes(),
            forall|j: int| 0 <= j < i ==> x@[j] == y@[j],
        decreases x.len() - i,
    {
        if x[i] != y[i] {
            return false;
        }
        i += 1;
    }
    assert(x@ =~= y@);
    true
}

} // verus!
