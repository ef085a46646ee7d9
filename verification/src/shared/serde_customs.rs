//! A number that may arrive either as an `i32` or as a string holding one.

use vstd::prelude::*;
use crate::shared::text::{decimal_digits, decimal_text, digit_char};

verus! {

/// The Unicode `White_Space` characters, the ones `char::is_whitespace` accepts.
pub open spec fn is_whitespace(c: char) -> bool {
    let u = c as u32;
    (0x09 <= u <= 0x0d) || u == 0x20 || u == 0x85 || u == 0xa0 || u == 0x1680 || (0x2000 <= u
        <= 0x200a) || u == 0x2028 || u == 0x2029 || u == 0x202f || u == 0x205f || u == 0x3000
}

/// `s` without its leading whitespace.
pub open spec fn trim_start(s: Seq<char>) -> Seq<char>
    decreases s.len(),
{
    if s.len() > 0 && is_whitespace(s[0]) {
        trim_start(s.drop_first())
    } else {
        s
    }
}

/// `s` without its trailing whitespace.
pub open spec fn trim_end(s: Seq<char>) -> Seq<char>
    decreases s.len(),
{
    if s.len() > 0 && is_whitespace(s.last()) {
        trim_end(s.drop_last())
    } else {
        s
    }
}

/// `s` without leading and trailing whitespace, as `str::trim` gives it.
pub open spec fn trim(s: Seq<char>) -> Seq<char> {
    trim_end(trim_start(s))
}

/// Why a text is not an `i32`; the kinds of `core::num::IntErrorKind` that `i32::from_str` gives.
#[derive(Debug, PartialEq, Eq, Structural, Clone, Copy)]
pub enum IntParseErrorKind {
    Empty,
    InvalidDigit,
    PosOverflow,
    NegOverflow,
}

pub open spec fn is_ascii_digit(c: char) -> bool {
    '0' <= c <= '9'
}

pub open spec fn digit_value(c: char) -> int {
    (c as u32) - ('0' as u32)
}

/// The digits of `digits` read left to right, each step multiplying by ten and adding
/// (or, for a negative number, subtracting) the next digit; the first character that is
/// not a digit, or the first step that leaves the `i32` range, ends the reading with an error.
pub open spec fn accumulate(digits: Seq<char>, negative: bool) -> Result<int, IntParseErrorKind>
    decreases digits.len(),
{
    if digits.len() == 0 {
        Ok(0)
    } else {
        match accumulate(digits.drop_last(), negative) {
            Err(k) => Err(k),
            Ok(acc) => {
                let c = digits.last();
                if !is_ascii_digit(c) {
                    Err(IntParseErrorKind::InvalidDigit)
                } else {
                    let next = if negative {
                        acc * 10 - digit_value(c)
                    } else {
                        acc * 10 + digit_value(c)
                    };
                    if i32::MIN <= next <= i32::MAX {
                        Ok(next)
                    } else if negative {
                        Err(IntParseErrorKind::NegOverflow)
                    } else {
                        Err(IntParseErrorKind::PosOverflow)
                    }
                }
            },
        }
    }
}

/// What `i32::from_str` gives for `s`: an optional sign, then decimal digits.
pub open spec fn parse_i32(s: Seq<char>) -> Result<i32, IntParseErrorKind> {
    if s.len() == 0 {
        Err(IntParseErrorKind::Empty)
    } else if s.len() == 1 && (s[0] == '+' || s[0] == '-') {
        Err(IntParseErrorKind::InvalidDigit)
    } else {
        let negative = s[0] == '-';
        let digits = if s[0] == '+' || s[0] == '-' {
            s.drop_first()
        } else {
            s
        };
        match accumulate(digits, negative) {
            Ok(v) => Ok(v as i32),
            Err(k) => Err(k),
        }
    }
}

/// The value of a string field that holds a number: its trimmed text read as an `i32`.
pub open spec fn flexible_number_of(s: Seq<char>) -> Result<i32, IntParseErrorKind> {
    parse_i32(trim(s))
}

proof fn lemma_accumulate_range(digits: Seq<char>, negative: bool)
    ensures
        accumulate(digits, negative) matches Ok(v) ==> i32::MIN <= v <= i32::MAX && (negative ==> v
            <= 0) && (!negative ==> v >= 0),
    decreases digits.len(),
{
    if digits.len() > 0 {
        lemma_accumulate_range(digits.drop_last(), negative);
    }
}

/// The position of the first character of `s` that is not whitespace (or its length).
fn first_non_whitespace(s: &str, n: usize) -> (start: usize)
    requires
        n == s@.len(),
    ensures
        start <= n,
        trim_start(s@) == s@.subrange(start as int, n as int),
{
    let mut i: usize = 0;
    assert(s@.subrange(0, n as int) =~= s@);
    while i < n
        invariant
            i <= n,
            n == s@.len(),
            trim_start(s@) == trim_start(s@.subrange(i as int, n as int)),
        decreases n - i,
    {
        let c = s.get_char(i);
        if !char_is_whitespace(c) {
            return i;
        }
        assert(s@.subrange(i as int, n as int).drop_first() =~= s@.subrange(i + 1, n as int));
        i = i + 1;
    }
    assert(s@.subrange(n as int, n as int).len() == 0);
    n
}

/// The position just after the last character of `s[..end]` that is not whitespace
/// (or `start` when there is none after `start`).
fn last_non_whitespace(s: &str, start: usize, n: usize) -> (end: usize)
    requires
        n == s@.len(),
        start <= n,
    ensures
        start <= end <= n,
        trim_end(s@.subrange(start as int, n as int)) == s@.subrange(start as int, end as int),
{
    let mut j: usize = n;
    assert(s@.subrange(start as int, n as int) =~= s@.subrange(start as int, j as int));
    while j > start
        invariant
            start <= j <= n,
            n == s@.len(),
            trim_end(s@.subrange(start as int, n as int)) == trim_end(
                s@.subrange(start as int, j as int),
            ),
        decreases j - start,
    {
        let c = s.get_char(j - 1);
        if !char_is_whitespace(c) {
            return j;
        }
        assert(s@.subrange(start as int, j as int).drop_last() =~= s@.subrange(
            start as int,
            j - 1,
        ));
        j = j - 1;
    }
    j
}

/// Whether `c` is Unicode whitespace.
pub fn char_is_whitespace(c: char) -> (res: bool)
    ensures
        res == is_whitespace(c),
{
    let u = c as u32;
    (0x09 <= u && u <= 0x0d) || u == 0x20 || u == 0x85 || u == 0xa0 || u == 0x1680 || (0x2000 <= u
        && u <= 0x200a) || u == 0x2028 || u == 0x2029 || u == 0x202f || u == 0x205f || u == 0x3000
}

/// `s` without leading and trailing whitespace.
pub fn trim_whitespace(s: &str) -> (res: &str)
    ensures
        res@ == trim(s@),
{
    let n = s.unicode_len();
    let start = first_non_whitespace(s, n);
    let end = last_non_whitespace(s, start, n);
    s.substring_char(start, end)
}

/// Reads `s` as an `i32` the way `i32::from_str` does.
pub fn parse_i32_text(s: &str) -> (res: Result<i32, IntParseErrorKind>)
    ensures
        res == parse_i32(s@),
{
    let n = s.unicode_len();
    if n == 0 {
        return Err(IntParseErrorKind::Empty);
    }
    let first = s.get_char(0);
    if n == 1 && (first == '+' || first == '-') {
        return Err(IntParseErrorKind::InvalidDigit);
    }
    let negative = first == '-';
    let start: usize = if first == '+' || first == '-' {
        1
    } else {
        0
    };
    let ghost digits = if first == '+' || first == '-' {
        s@.drop_first()
    } else {
        s@
    };
    assert(digits =~= s@.subrange(start as int, n as int));
    let mut acc: i32 = 0;
    let mut i: usize = start;
    assert(digits.subrange(0, 0) =~= Seq::<char>::empty());
    while i < n
        invariant
            start <= i <= n,
            n == s@.len(),
            digits == s@.subrange(start as int, n as int),
            n > 0,
            !(n == 1 && (s@[0] == '+' || s@[0] == '-')),
            negative == (s@[0] == '-'),
            digits == (if s@[0] == '+' || s@[0] == '-' {
                s@.drop_first()
            } else {
                s@
            }),
            accumulate(digits.subrange(0, i - start), negative) == Ok::<int, IntParseErrorKind>(
                acc as int,
            ),
        decreases n - i,
    {
        let ghost prefix = digits.subrange(0, i - start);
        let ghost next_prefix = digits.subrange(0, i - start + 1);
        assert(next_prefix.drop_last() =~= prefix);
        assert(next_prefix.last() == s@[i as int]);
        let c = s.get_char(i);
        if !('0' <= c && c <= '9') {
            assert(accumulate(next_prefix, negative) == Err::<int, IntParseErrorKind>(
                IntParseErrorKind::InvalidDigit,
            ));
            proof {
                lemma_accumulate_suffix_error(digits, (i - start + 1) as int, negative);
            }
            return Err(IntParseErrorKind::InvalidDigit);
        }
        let d = (c as u32 - '0' as u32) as i32;
        let acc_wide: i64 = acc as i64 * 10;
        let next: i64 = if negative {
            acc_wide - d as i64
        } else {
            acc_wide + d as i64
        };
        assert(next == if negative {
            acc * 10 - digit_value(c)
        } else {
            acc * 10 + digit_value(c)
        });
        if next < i32::MIN as i64 || next > i32::MAX as i64 {
            assert(accumulate(next_prefix, negative) is Err);
            proof {
                lemma_accumulate_suffix_error(digits, (i - start + 1) as int, negative);
            }
            if negative {
                return Err(IntParseErrorKind::NegOverflow);
            } else {
                return Err(IntParseErrorKind::PosOverflow);
            }
        }
        assert(accumulate(next_prefix, negative) == Ok::<int, IntParseErrorKind>(next as int));
        acc = next as i32;
        i = i + 1;
    }
    assert(digits.subrange(0, n - start) =~= digits);
    Ok(acc)
}

/// Once reading a prefix of the digits fails, reading all of them fails the same way.
proof fn lemma_accumulate_suffix_error(digits: Seq<char>, k: int, negative: bool)
    requires
        0 <= k <= digits.len(),
        accumulate(digits.subrange(0, k), negative) is Err,
    ensures
        accumulate(digits, negative) == accumulate(digits.subrange(0, k), negative),
    decreases digits.len() - k,
{
    if k < digits.len() {
        let next = digits.subrange(0, k + 1);
        assert(next.drop_last() =~= digits.subrange(0, k));
        lemma_accumulate_suffix_error(digits, k + 1, negative);
    } else {
        assert(digits.subrange(0, k) =~= digits);
    }
}

/// A field that holds an `i32`, given either as a number or as a string.
#[derive(Debug, PartialEq, Eq, Structural, Clone, Copy)]
pub struct FlexibleNumber(pub i32);

impl FlexibleNumber {
    /// The number held.
    pub fn value(&self) -> (res: i32)
        ensures
            res == self.0,
    {
        self.0
    }

    /// The number a string field holds: the text is trimmed and read as an `i32`.
    pub fn from_text(text: &str) -> (res: Result<FlexibleNumber, IntParseErrorKind>)
        ensures
            match flexible_number_of(text@) {
                Ok(v) => res == Ok::<FlexibleNumber, IntParseErrorKind>(FlexibleNumber(v)),
                Err(k) => res == Err::<FlexibleNumber, IntParseErrorKind>(k),
            },
    {
        let trimmed = trim_whitespace(text);
        match parse_i32_text(trimmed) {
            Ok(v) => Ok(FlexibleNumber(v)),
            Err(k) => Err(k),
        }
    }

    /// The number an integer field holds.
    pub fn from_i32(value: i32) -> (res: FlexibleNumber)
        ensures
            res.0 == value,
    {
        FlexibleNumber(value)
    }
}

impl From<i32> for FlexibleNumber {
    fn from(value: i32) -> (res: Self) {
        FlexibleNumber(value)
    }
}

impl vstd::std_specs::convert::FromSpecImpl<i32> for FlexibleNumber {
    open spec fn obeys_from_spec() -> bool {
        true
    }

    open spec fn from_spec(v: i32) -> FlexibleNumber {
        FlexibleNumber(v)
    }
}

proof fn lemma_digit_char(d: int)
    requires
        0 <= d < 10,
    ensures
        is_ascii_digit(digit_char(d)),
        digit_value(digit_char(d)) == d,
        !is_whitespace(digit_char(d)),
        digit_char(d) != '-' && digit_char(d) != '+',
{
    assert(('0' as u32) == 48);
    assert((((48 + d) as u32) as char) as u32 == 48 + d);
}

proof fn lemma_accumulate_digits(n: nat, negative: bool)
    requires
        negative ==> n <= 2147483648,
        !negative ==> n <= 2147483647,
    ensures
        accumulate(decimal_digits(n), negative) == Ok::<int, IntParseErrorKind>(
            if negative {
                -(n as int)
            } else {
                n as int
            },
        ),
        decimal_digits(n).len() >= 1,
        forall|i: int| 0 <= i < decimal_digits(n).len() ==> is_ascii_digit(#[trigger] decimal_digits(n)[i]),
    decreases n,
{
    let s = decimal_digits(n);
    if n < 10 {
        lemma_digit_char(n as int);
        assert(s.drop_last() =~= Seq::<char>::empty());
        assert(accumulate(s.drop_last(), negative) == Ok::<int, IntParseErrorKind>(0));
        assert(s.last() == digit_char(n as int));
    } else {
        lemma_accumulate_digits(n / 10, negative);
        lemma_digit_char((n % 10) as int);
        assert(s.drop_last() =~= decimal_digits(n / 10));
        vstd::arithmetic::div_mod::lemma_fundamental_div_mod(n as int, 10);
        assert(s.last() == digit_char((n % 10) as int));
        let acc: int = if negative {
            -((n / 10) as int)
        } else {
            (n / 10) as int
        };
        assert(accumulate(s.drop_last(), negative) == Ok::<int, IntParseErrorKind>(acc));
        let next = if negative {
            acc * 10 - digit_value(s.last())
        } else {
            acc * 10 + digit_value(s.last())
        };
        assert(next == if negative {
            -(n as int)
        } else {
            n as int
        });
    }
}

proof fn lemma_trim_identity(s: Seq<char>)
    requires
        s.len() > 0,
        !is_whitespace(s[0]),
        !is_whitespace(s.last()),
    ensures
        trim(s) == s,
{
}

/// The decimal text of a user id, as it is written into a token's subject, reads back
/// as the same id.
pub proof fn law_subject_text_reads_back(id: i32)
    ensures
        flexible_number_of(decimal_text(id as int)) == Ok::<i32, IntParseErrorKind>(id),
{
    let text = decimal_text(id as int);
    if id < 0 {
        let m: nat = (-(id as int)) as nat;
        lemma_accumulate_digits(m, true);
        let digits = decimal_digits(m);
        assert(text == seq!['-'] + digits);
        assert(text.drop_first() =~= digits);
        assert(text.last() == digits.last());
        assert(is_ascii_digit(digits[digits.len() - 1]));
        lemma_trim_identity(text);
    } else {
        let m: nat = id as nat;
        lemma_accumulate_digits(m, false);
        let digits = decimal_digits(m);
        assert(is_ascii_digit(digits[0]));
        assert(is_ascii_digit(digits[digits.len() - 1]));
        lemma_trim_identity(text);
    }
}

} // verus!
