//! Strict conversion of externally supplied strings into byte sequences and
//! unsigned 128-bit integers. Malformed numeric input is rejected with a
//! typed error instead of panicking or defaulting.

use vstd::prelude::*;
use vstd::string::*;

verus! {

/// Why a decimal string failed to parse as an unsigned 128-bit integer.
#[derive(Clone, Copy, Debug, PartialEq, Eq, Structural)]
pub enum ParseError {
    /// The string was empty.
    Empty,
    /// The string held a character outside `'0'..='9'`.
    NonDigit,
    /// The digits denote a value above `u128::MAX`.
    Overflow,
}

/// A character is a decimal digit.
pub open spec fn is_dec_digit(c: char) -> bool {
    48 <= c as u32 <= 57
}

/// Numeric value of a decimal digit character.
pub open spec fn dec_digit_val(c: char) -> nat {
    (c as u32 - 48) as nat
}

/// Every character of the sequence is a decimal digit.
pub open spec fn all_dec_digits(s: Seq<char>) -> bool {
    forall|i: int| 0 <= i < s.len() ==> is_dec_digit(#[trigger] s[i])
}

/// The numeric value denoted by a sequence of decimal digit characters,
/// most significant digit first.
pub open spec fn dec_value(s: Seq<char>) -> nat
    decreases s.len(),
{
    if s.len() == 0 {
        0
    } else {
        dec_value(s.drop_last()) * 10 + dec_digit_val(s.last())
    }
}

/// Reading more digits never decreases the denoted value: the value of a
/// prefix is at most the value of the whole digit string.
pub proof fn lemma_dec_value_prefix(s: Seq<char>, i: int)
    requires
        0 <= i <= s.len(),
    ensures
        dec_value(s.take(i)) <= dec_value(s),
    decreases s.len() - i,
{
    if i < s.len() {
        lemma_dec_value_prefix(s, i + 1);
        assert(s.take(i + 1).drop_last() =~= s.take(i));
        assert(dec_value(s.take(i + 1)) == dec_value(s.take(i)) * 10 + dec_digit_val(
            s.take(i + 1).last(),
        ));
    } else {
        assert(s.take(i) =~= s);
    }
}

/// The numeric value denoted by a sequence of ASCII decimal digit bytes,
/// most significant digit first.
pub open spec fn dec_value_bytes(s: Seq<u8>) -> nat
    decreases s.len(),
{
    if s.len() == 0 {
        0
    } else {
        dec_value_bytes(s.drop_last()) * 10 + (s.last() - 48) as nat
    }
}

/// The canonical decimal digit bytes of `v`: no leading zero, `"0"` for zero.
pub open spec fn dec_digits_of(v: nat) -> Seq<u8>
    decreases v,
{
    if v < 10 {
        seq![(48 + v) as u8]
    } else {
        dec_digits_of(v / 10).push((48 + v % 10) as u8)
    }
}

/// The canonical decimal digits of `v` denote `v` itself.
pub proof fn lemma_dec_digits_of_value(v: nat)
    ensures
        dec_value_bytes(dec_digits_of(v)) == v,
    decreases v,
{
    if v < 10 {
        let s = seq![(48 + v) as u8];
        assert(s.drop_last() =~= Seq::<u8>::empty());
        assert(dec_value_bytes(s) == dec_value_bytes(s.drop_last()) * 10 + (s.last() - 48) as nat);
    } else {
        lemma_dec_digits_of_value(v / 10);
        assert(dec_digits_of(v).drop_last() =~= dec_digits_of(v / 10));
        assert(dec_digits_of(v).last() == (48 + v % 10) as u8);
        assert(((48 + v % 10) as u8 - 48) as nat == v % 10);
        assert(dec_value_bytes(dec_digits_of(v)) == (v / 10) * 10 + v % 10);
        assert(v / 10 * 10 + v % 10 == v) by (nonlinear_arith);
    }
}

/// Every byte of the canonical decimal form is an ASCII digit, the form is
/// non-empty, and its first byte is `'0'` only for the value zero.
pub proof fn lemma_dec_digits_of_shape(v: nat)
    ensures
        dec_digits_of(v).len() > 0,
        forall|i: int|
            0 <= i < dec_digits_of(v).len() ==> 48 <= #[trigger] dec_digits_of(v)[i] <= 57,
        v > 0 ==> dec_digits_of(v)[0] != 48,
    decreases v,
{
    if v >= 10 {
        lemma_dec_digits_of_shape(v / 10);
    }
}

/// Re-encodes `v` as its canonical decimal byte string.
pub fn u128_to_dec_bytes(v: u128) -> (r: Vec<u8>)
    ensures
        r@ == dec_digits_of(v as nat),
        dec_value_bytes(r@) == v,
    decreases v,
{
    proof {
        lemma_dec_digits_of_value(v as nat);
    }
    if v < 10 {
        let mut r: Vec<u8> = Vec::new();
        r.push(48 + v as u8);
        r
    } else {
        let mut r = u128_to_dec_bytes(v / 10);
        r.push(48 + (v % 10) as u8);
        r
    }
}

/// Parsing a valid decimal string and re-encoding the value to decimal
/// round-trips: the re-encoded form is itself a non-empty decimal digit
/// string and denotes the same numeric value as the original string.
pub proof fn lemma_dec_round_trip(s: Seq<char>)
    requires
        s.len() > 0,
        all_dec_digits(s),
        dec_value(s) <= u128::MAX,
    ensures
        dec_value_bytes(dec_digits_of(dec_value(s))) == dec_value(s),
        dec_digits_of(dec_value(s)).len() > 0,
        forall|i: int|
            0 <= i < dec_digits_of(dec_value(s)).len() ==> 48 <= #[trigger] dec_digits_of(
                dec_value(s),
            )[i] <= 57,
{
    lemma_dec_digits_of_value(dec_value(s));
    lemma_dec_digits_of_shape(dec_value(s));
}

/// Returns the UTF-8 byte representation of `s`. Never fails: upstream
/// deserialization has already rejected non-UTF-8 input.
pub fn string_to_bytes(s: &str) -> (r: Vec<u8>)
    ensures
        r@ == s.spec_bytes(),
{
    s.as_bytes_vec()
}

/// Parses `s` as a base-10 non-negative integer.
///
/// Succeeds exactly on non-empty all-digit strings whose value fits in 128
/// bits, returning that value; otherwise reports which way the input was
/// malformed, producing no partial value.
pub fn string_to_u128(s: &str) -> (r: Result<u128, ParseError>)
    ensures
        r is Ok <==> s@.len() > 0 && all_dec_digits(s@) && dec_value(s@) <= u128::MAX,
        r is Ok ==> r->Ok_0 == dec_value(s@),
        r == Err::<u128, ParseError>(ParseError::Empty) <==> s@.len() == 0,
        r == Err::<u128, ParseError>(ParseError::NonDigit) <==> s@.len() > 0 && !all_dec_digits(
            s@,
        ),
        r == Err::<u128, ParseError>(ParseError::Overflow) <==> s@.len() > 0 && all_dec_digits(s@)
            && dec_value(s@) > u128::MAX,
{
    let n = s.unicode_len();
    if n == 0 {
        return Err(ParseError::Empty);
    }
    let mut i: usize = 0;
    while i < n
        invariant
            n == s@.len(),
            0 <= i <= n,
            forall|j: int| 0 <= j < i ==> is_dec_digit(#[trigger] s@[j]),
        decreases n - i,
    {
        let c = s.get_char(i);
        let code = c as u32;
        if code < 48 || code > 57 {
            return Err(ParseError::NonDigit);
        }
        i = i + 1;
    }
    let mut acc: u128 = 0;
    let mut k: usize = 0;
    while k < n
        invariant
            n == s@.len(),
            0 <= k <= n,
            all_dec_digits(s@),
            acc == dec_value(s@.take(k as int)),
        decreases n - k,
    {
        let c = s.get_char(k);
        let d = (c as u32 - 48) as u128;
        proof {
            assert(s@.take(k + 1).drop_last() =~= s@.take(k as int));
            assert(dec_value(s@.take(k + 1)) == dec_value(s@.take(k as int)) * 10 + dec_digit_val(
                s@[k as int],
            ));
        }
        if acc > u128::MAX / 10 {
            proof {
                assert(acc * 10 + d > u128::MAX) by (nonlinear_arith)
                    requires
                        acc > u128::MAX / 10,
                        u128::MAX == u128::MAX / 10 * 10 + 5,
                        d >= 0,
                ;
                lemma_dec_value_prefix(s@, k + 1);
            }
            return Err(ParseError::Overflow);
        }
        let shifted = acc * 10;
        if d > u128::MAX - shifted {
            proof {
                lemma_dec_value_prefix(s@, k + 1);
            }
            return Err(ParseError::Overflow);
        }
        acc = shifted + d;
        k = k + 1;
    }
    proof {
        assert(s@.take(n as int) =~= s@);
    }
    Ok(acc)
}

} // verus!
