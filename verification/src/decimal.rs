//! Decimal numbers as text: reading them from bytes and writing them with
//! zero padding.

use vstd::prelude::*;
use vstd::string::StringExecFns;

verus! {

/// The plus sign, which may stand before a number.
pub const PLUS: u8 = 0x2b;

/// The minus sign, which may stand before a signed number.
pub const MINUS: u8 = 0x2d;

/// The digit zero; the other digits follow it.
pub const ZERO: u8 = 0x30;

/// The byte is one of the ten digits.
pub open spec fn is_digit(b: u8) -> bool {
    ZERO <= b <= ZERO + 9
}

/// Every byte is a digit.
pub open spec fn all_digits(s: Seq<u8>) -> bool {
    forall|i: int| 0 <= i < s.len() ==> is_digit(#[trigger] s[i])
}

/// The number that a run of digits writes, most significant digit first.
pub open spec fn digits_value(s: Seq<u8>) -> nat
    decreases s.len(),
{
    if s.len() == 0 {
        0
    } else {
        10 * digits_value(s.drop_last()) + (s.last() - ZERO) as nat
    }
}

/// The number that a text writes without a minus sign: one or more digits,
/// with at most a plus sign before them.
pub open spec fn unsigned_value(s: Seq<u8>) -> Option<nat> {
    let digits = if s.len() > 0 && s[0] == PLUS {
        s.subrange(1, s.len() as int)
    } else {
        s
    };
    if digits.len() > 0 && all_digits(digits) {
        Some(digits_value(digits))
    } else {
        None
    }
}

/// The number that a text writes: one or more digits, with at most one sign
/// before them.
pub open spec fn signed_value(s: Seq<u8>) -> Option<int> {
    if s.len() > 0 && s[0] == MINUS {
        let digits = s.subrange(1, s.len() as int);
        if digits.len() > 0 && all_digits(digits) {
            Some(-(digits_value(digits) as int))
        } else {
            None
        }
    } else {
        match unsigned_value(s) {
            Some(v) => Some(v as int),
            None => None,
        }
    }
}

/// What reading a text as a `u32` gives: its value, where it has one that fits.
pub open spec fn parsed_u32(s: Seq<u8>) -> Option<u32> {
    match unsigned_value(s) {
        Some(v) if v <= u32::MAX => Some(v as u32),
        _ => None,
    }
}

/// What reading a text as an `i32` gives: its value, where it has one that fits.
pub open spec fn parsed_i32(s: Seq<u8>) -> Option<i32> {
    match signed_value(s) {
        Some(v) if i32::MIN <= v <= i32::MAX => Some(v as i32),
        _ => None,
    }
}

/// A run of digits is worth at least as much as any of its prefixes.
pub proof fn lemma_digits_value_grows(s: Seq<u8>, k: int)
    requires
        0 <= k <= s.len(),
        all_digits(s),
    ensures
        digits_value(s.subrange(0, k)) <= digits_value(s),
    decreases s.len() - k,
{
    if k == s.len() {
        assert(s.subrange(0, k) =~= s);
    } else {
        lemma_digits_value_grows(s, k + 1);
        let longer = s.subrange(0, k + 1);
        assert(longer.drop_last() =~= s.subrange(0, k));
        assert(is_digit(s[k]));
    }
}

/// The value of a run of digits up to `limit`, or `None` where a byte is no
/// digit or the value is larger.
fn read_digits(s: &[u8], limit: u64) -> (value: Option<u64>)
    requires
        limit <= 0xffff_ffff,
    ensures
        value == if all_digits(s@) && digits_value(s@) <= limit {
            Some(digits_value(s@) as u64)
        } else {
            None
        },
{
    let mut total: u64 = 0;
    let mut i: usize = 0;
    while i < s.len()
        invariant
            i <= s.len(),
            limit <= 0xffff_ffff,
            all_digits(s@.subrange(0, i as int)),
            total == digits_value(s@.subrange(0, i as int)),
            total <= limit,
        decreases s.len() - i,
    {
        let b = s[i];
        if b < ZERO || b > ZERO + 9 {
            assert(!is_digit(s@[i as int]));
            return None;
        }
        let ghost longer = s@.subrange(0, i + 1);
        proof {
            assert(longer.drop_last() =~= s@.subrange(0, i as int));
            assert(longer.last() == b);
            assert forall|j: int| 0 <= j < longer.len() implies is_digit(#[trigger] longer[j]) by {
                if j < i {
                    assert(s@.subrange(0, i as int)[j] == longer[j]);
                }
            }
        }
        total = total * 10 + (b - ZERO) as u64;
        if total > limit {
            proof {
                if all_digits(s@) {
                    lemma_digits_value_grows(s@, i + 1);
                }
            }
            return None;
        }
        i += 1;
    }
    assert(s@.subrange(0, i as int) =~= s@);
    Some(total)
}

/// Reads a `u32`: digits with at most a plus sign before them.
pub fn parse_u32(s: &[u8]) -> (value: Option<u32>)
    ensures
        value == parsed_u32(s@),
{
    let digits = if s.len() > 0 && s[0] == PLUS {
        &s[1..s.len()]
    } else {
        s
    };
    if digits.len() == 0 {
        return None;
    }
    match read_digits(digits, 0xffff_ffff) {
        Some(v) => Some(v as u32),
        None => None,
    }
}

/// Reads an `i32`: digits with at most one sign before them.
pub fn parse_i32(s: &[u8]) -> (value: Option<i32>)
    ensures
        value == parsed_i32(s@),
{
    if s.len() > 0 && s[0] == MINUS {
        let digits = &s[1..s.len()];
        if digits.len() == 0 {
            return None;
        }
        match read_digits(digits, 0x8000_0000) {
            Some(v) => Some((-(v as i64)) as i32),
            None => None,
        }
    } else {
        let digits = if s.len() > 0 && s[0] == PLUS {
            &s[1..s.len()]
        } else {
            s
        };
        if digits.len() == 0 {
            return None;
        }
        match read_digits(digits, 0x7fff_ffff) {
            Some(v) => Some(v as i32),
            None => None,
        }
    }
}

/// The character that writes the digit `d`.
pub open spec fn digit_char(d: int) -> char {
    if d == 0 {
        '0'
    } else if d == 1 {
        '1'
    } else if d == 2 {
        '2'
    } else if d == 3 {
        '3'
    } else if d == 4 {
        '4'
    } else if d == 5 {
        '5'
    } else if d == 6 {
        '6'
    } else if d == 7 {
        '7'
    } else if d == 8 {
        '8'
    } else {
        '9'
    }
}

/// The digits of `n`, most significant first, without leading zeros; zero is
/// written with one digit.
pub open spec fn digits(n: nat) -> Seq<char>
    decreases n,
{
    if n < 10 {
        seq![digit_char(n as int)]
    } else {
        digits(n / 10).push(digit_char((n % 10) as int))
    }
}

/// `count` zeros.
pub open spec fn zeros(count: nat) -> Seq<char> {
    Seq::new(count, |i: int| '0')
}

/// The digits of `n` with zeros before them up to `width` characters; a
/// longer number is written in full.
pub open spec fn zero_padded(n: nat, width: nat) -> Seq<char> {
    if digits(n).len() >= width {
        digits(n)
    } else {
        zeros((width - digits(n).len()) as nat) + digits(n)
    }
}

/// An integer zero-padded to `width` characters, of which a minus sign is one.
pub open spec fn padded_int(n: int, width: nat) -> Seq<char> {
    if n < 0 {
        seq!['-'] + zero_padded((-n) as nat, if width > 0 { (width - 1) as nat } else { 0 })
    } else {
        zero_padded(n as nat, width)
    }
}

/// A number has at least one digit, and one more than its tenth.
pub proof fn lemma_digits_len(n: nat)
    ensures
        digits(n).len() >= 1,
        n < 10 ==> digits(n).len() == 1,
        10 <= n ==> digits(n).len() == digits(n / 10).len() + 1,
    decreases n,
{
    if n >= 10 {
        lemma_digits_len(n / 10);
    }
}

/// A number below one hundred is written with exactly two digits.
pub proof fn lemma_two_digits(n: nat)
    requires
        n < 100,
    ensures
        zero_padded(n, 2) == seq![digit_char((n / 10) as int), digit_char((n % 10) as int)],
{
    lemma_digits_len(n);
    if n < 10 {
        assert(zeros(1) + digits(n) =~= seq![digit_char(0), digit_char(n as int)]);
    } else {
        lemma_digits_len(n / 10);
        assert(digits(n) =~= seq![digit_char((n / 10) as int), digit_char((n % 10) as int)]);
    }
}

/// A number below ten thousand is written with exactly four digits.
pub proof fn lemma_four_digits(n: nat)
    requires
        n < 10000,
    ensures
        zero_padded(n, 4) == seq![
            digit_char((n / 1000) as int),
            digit_char((n / 100 % 10) as int),
            digit_char((n / 10 % 10) as int),
            digit_char((n % 10) as int),
        ],
{
    let want = seq![
        digit_char((n / 1000) as int),
        digit_char((n / 100 % 10) as int),
        digit_char((n / 10 % 10) as int),
        digit_char((n % 10) as int),
    ];
    lemma_digits_len(n);
    lemma_digits_len(n / 10);
    lemma_digits_len(n / 100);
    lemma_digits_len(n / 1000);
    if n < 10 {
        assert(zeros(3) + digits(n) =~= want);
    } else if n < 100 {
        assert(zeros(2) + digits(n) =~= want);
    } else if n < 1000 {
        assert(n / 10 / 10 == n / 100);
        assert(zeros(1) + digits(n) =~= want);
    } else {
        assert(n / 10 / 10 == n / 100);
        assert(n / 100 / 10 == n / 1000);
        assert(digits(n) =~= want);
    }
}

/// The one-character text of a digit.
fn digit_text(d: u64) -> (text: &'static str)
    requires
        d < 10,
    ensures
        text@ == seq![digit_char(d as int)],
{
    proof {
        reveal_strlit("0");
        reveal_strlit("1");
        reveal_strlit("2");
        reveal_strlit("3");
        reveal_strlit("4");
        reveal_strlit("5");
        reveal_strlit("6");
        reveal_strlit("7");
        reveal_strlit("8");
        reveal_strlit("9");
    }
    let text = if d == 0 {
        "0"
    } else if d == 1 {
        "1"
    } else if d == 2 {
        "2"
    } else if d == 3 {
        "3"
    } else if d == 4 {
        "4"
    } else if d == 5 {
        "5"
    } else if d == 6 {
        "6"
    } else if d == 7 {
        "7"
    } else if d == 8 {
        "8"
    } else {
        "9"
    };
    assert(text@ =~= seq![digit_char(d as int)]);
    text
}

/// Appends the digits of `n`.
fn push_digits(out: &mut String, n: u64)
    ensures
        final(out)@ == old(out)@ + digits(n as nat),
    decreases n,
{
    if n >= 10 {
        push_digits(out, n / 10);
    }
    out.append(digit_text(n % 10));
    proof {
        if n >= 10 {
            assert(old(out)@ + digits((n / 10) as nat) + seq![digit_char((n % 10) as int)]
                =~= old(out)@ + digits(n as nat));
        }
    }
}

/// How many digits `n` has.
fn count_digits(n: u64) -> (count: u64)
    ensures
        count == digits(n as nat).len(),
{
    let mut rest: u64 = n;
    let mut count: u64 = 1;
    while rest >= 10
        invariant
            1 <= count,
            count + rest <= n + 1,
            digits(n as nat).len() == digits(rest as nat).len() + count - 1,
        decreases rest,
    {
        proof {
            lemma_digits_len(rest as nat);
        }
        rest = rest / 10;
        count += 1;
    }
    proof {
        lemma_digits_len(rest as nat);
    }
    count
}

/// Writes `n` zero-padded to `width` characters.
pub fn format_padded(n: u64, width: usize) -> (text: String)
    ensures
        text@ == zero_padded(n as nat, width as nat),
{
    let mut text = String::new();
    let mut written: u64 = count_digits(n);
    while written < width as u64
        invariant
            written >= digits(n as nat).len(),
            written <= width || written == digits(n as nat).len(),
            text@ == zeros((written - digits(n as nat).len()) as nat),
        decreases width - written,
    {
        proof {
            reveal_strlit("0");
        }
        text.append("0");
        written += 1;
        assert(text@ =~= zeros((written - digits(n as nat).len()) as nat));
    }
    push_digits(&mut text, n);
    proof {
        if digits(n as nat).len() >= width {
            assert(text@ =~= digits(n as nat));
        }
    }
    text
}

/// Writes a signed `n` zero-padded to `width` characters, sign included.
pub fn format_padded_signed(n: i64, width: usize) -> (text: String)
    ensures
        text@ == padded_int(n as int, width as nat),
{
    if n < 0 {
        let magnitude: u64 = (-(n + 1)) as u64 + 1;
        let digits = format_padded(magnitude, if width > 0 { width - 1 } else { 0 });
        proof {
            reveal_strlit("-");
        }
        let mut text = String::from_str("-");
        text.append(digits.as_str());
        assert(text@ =~= padded_int(n as int, width as nat));
        text
    } else {
        format_padded(n as u64, width)
    }
}

} // verus!
