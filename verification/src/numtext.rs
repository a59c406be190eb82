//! Decimal ASCII encoding and parsing of non-negative integers.
//!
//! The wire protocol writes every numeric field (item counts, byte lengths)
//! as its decimal ASCII text form with no sign and no leading zeros; the
//! configuration reader parses port numbers and content lengths from the
//! same textual form.

use vstd::prelude::*;

verus! {

/// True of a byte that is an ASCII decimal digit.
pub open spec fn is_digit(b: u8) -> bool {
    48 <= b <= 57
}

/// True when every byte of `s` is an ASCII decimal digit.
pub open spec fn all_digits(s: Seq<u8>) -> bool {
    forall|i: int| 0 <= i < s.len() ==> is_digit(#[trigger] s[i])
}

/// The decimal ASCII encoding of `n`: no sign, no leading zeros,
/// and `0` encodes as the single byte `"0"`.
pub open spec fn spec_decimal(n: nat) -> Seq<u8>
    decreases n,
{
    if n < 10 {
        seq![(48 + n) as u8]
    } else {
        spec_decimal(n / 10).push((48 + n % 10) as u8)
    }
}

/// The number denoted by a sequence of ASCII digits, most significant first.
pub open spec fn digits_value(s: Seq<u8>) -> nat
    decreases s.len(),
{
    if s.len() == 0 {
        0
    } else {
        digits_value(s.drop_last()) * 10 + (s.last() - 48) as nat
    }
}

/// What parsing a decimal field means: a non-empty, all-digit byte string
/// denotes its value; anything else is rejected.
pub open spec fn spec_parse_decimal(s: Seq<u8>) -> Option<nat> {
    if s.len() > 0 && all_digits(s) {
        Some(digits_value(s))
    } else {
        None
    }
}

/// The decimal encoding of any number is a non-empty string of digits,
/// and it carries no leading zero (only `0` itself begins with `"0"`).
pub proof fn lemma_spec_decimal_shape(n: nat)
    ensures
        spec_decimal(n).len() >= 1,
        all_digits(spec_decimal(n)),
        n > 0 ==> spec_decimal(n)[0] != 48,
    decreases n,
{
    if n >= 10 {
        lemma_spec_decimal_shape(n / 10);
    }
}

/// The decimal encoding of `n` denotes `n`.
pub proof fn lemma_spec_decimal_value(n: nat)
    ensures
        digits_value(spec_decimal(n)) == n,
    decreases n,
{
    if n < 10 {
        let s = spec_decimal(n);
        assert(s.drop_last() =~= Seq::<u8>::empty());
        assert(digits_value(s.drop_last()) == 0);
        assert(digits_value(s) == (s.last() - 48) as nat);
    } else {
        lemma_spec_decimal_value(n / 10);
        let s = spec_decimal(n);
        assert(s.drop_last() =~= spec_decimal(n / 10));
        assert(digits_value(s) == digits_value(s.drop_last()) * 10 + (s.last() - 48) as nat);
        assert(n / 10 * 10 + n % 10 == n) by (nonlinear_arith);
    }
}

/// Decimal encoding round-trips through parsing: for every non-negative
/// integer `n`, parsing the decimal encoding of `n` yields `n` back.
pub proof fn lemma_decimal_round_trip(n: nat)
    ensures
        spec_parse_decimal(spec_decimal(n)) == Some(n),
{
    lemma_spec_decimal_shape(n);
    lemma_spec_decimal_value(n);
}

/// The value of an all-digit string bounds the value of each of its prefixes.
proof fn lemma_digits_value_prefix(s: Seq<u8>, i: int)
    requires
        0 <= i <= s.len(),
    ensures
        digits_value(s.take(i)) <= digits_value(s),
    decreases s.len() - i,
{
    if i == s.len() {
        assert(s.take(i) =~= s);
    } else {
        lemma_digits_value_prefix(s.drop_last(), i);
        assert(s.take(i) =~= s.drop_last().take(i));
        assert(digits_value(s) == digits_value(s.drop_last()) * 10 + (s.last() - 48) as nat);
        assert(digits_value(s.drop_last()) * 10 >= digits_value(s.drop_last()));
    }
}

/// Parses a decimal field: `Some` exactly when the bytes are one or more
/// ASCII digits denoting a value that fits in `usize`.
pub fn parse_decimal(s: &[u8]) -> (r: Option<usize>)
    ensures
        r is Some <==> (s@.len() > 0 && all_digits(s@) && digits_value(s@) <= usize::MAX),
        r is Some ==> r->0 == digits_value(s@),
{
    if s.len() == 0 {
        return None;
    }
    let mut value: usize = 0;
    let mut i: usize = 0;
    while i < s.len()
        invariant
            0 <= i <= s@.len(),
            all_digits(s@.take(i as int)),
            value == digits_value(s@.take(i as int)),
        decreases s@.len() - i,
    {
        let b = s[i];
        if b < 48 || b > 57 {
            assert(!is_digit(s@[i as int]));
            return None;
        }
        let d = (b - 48) as usize;
        proof {
            assert(s@.take(i + 1).drop_last() =~= s@.take(i as int));
            assert(s@.take(i + 1).last() == s@[i as int]);
            assert(digits_value(s@.take(i + 1)) == digits_value(s@.take(i as int)) * 10 + d);
        }
        if value > (usize::MAX - d) / 10 {
            proof {
                let m = (usize::MAX - d) as int;
                assert(m < value * 10) by (nonlinear_arith)
                    requires
                        value > m / 10,
                        m >= 0,
                ;
                if all_digits(s@) {
                    lemma_digits_value_prefix(s@, i + 1);
                    assert(digits_value(s@) > usize::MAX);
                }
            }
            return None;
        }
        proof {
            let m = (usize::MAX - d) as int;
            assert(value * 10 <= m) by (nonlinear_arith)
                requires
                    value <= m / 10,
                    m >= 0,
            ;
        }
        value = value * 10 + d;
        i = i + 1;
    }
    proof {
        assert(s@.take(i as int) =~= s@);
    }
    Some(value)
}

/// Parses a TCP port number: `Some` exactly when the bytes are one or more
/// ASCII digits denoting a value that fits in 16 bits.
pub fn parse_port(s: &[u8]) -> (r: Option<u16>)
    ensures
        r is Some <==> (s@.len() > 0 && all_digits(s@) && digits_value(s@) <= u16::MAX),
        r is Some ==> r->0 == digits_value(s@),
{
    match parse_decimal(s) {
        Some(v) if v <= 65535 => Some(v as u16),
        _ => None,
    }
}

/// Given an integer, returns the textual representation of that number as ASCII bytes.
pub fn number_to_text_bytes(num: usize) -> (r: Vec<u8>)
    ensures
        r@ == spec_decimal(num as nat),
    decreases num,
{
    if num < 10 {
        let mut r: Vec<u8> = Vec::new();
        r.push(48 + num as u8);
        assert(r@ =~= spec_decimal(num as nat));
        r
    } else {
        let mut r = number_to_text_bytes(num / 10);
        r.push(48 + (num % 10) as u8);
        r
    }
}

} // verus!
