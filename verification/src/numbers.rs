//! Decimal spelling and reading of the integer values that cross the
//! boundary as text (blob sizes, nanosecond counters, part numbers).
//! Formatting is verified against an exact digit-sequence specification;
//! reading delegates to the standard library, held to an equally exact
//! contract.

use vstd::prelude::*;

use crate::text::ascii_chars;
use crate::text::ascii_to_string;

verus! {

/// The ASCII decimal digits of `n`, most significant first, without sign
/// or leading zeros (`0` is spelled `"0"`).
pub open spec fn dec_digits(n: nat) -> Seq<u8>
    decreases n,
{
    if n < 10 {
        seq![(0x30 + n) as u8]
    } else {
        dec_digits(n / 10) + seq![(0x30 + n % 10) as u8]
    }
}

/// The ASCII spelling of a signed value: a minus sign before the digits of
/// the magnitude when negative.
pub open spec fn dec_digits_signed(n: int) -> Seq<u8> {
    if n >= 0 {
        dec_digits(n as nat)
    } else {
        seq![0x2du8] + dec_digits((-n) as nat)
    }
}

/// Every byte of a decimal spelling is an ASCII digit.
pub proof fn lemma_dec_digits_ascii(n: nat)
    ensures
        forall|i: int| 0 <= i < dec_digits(n).len() ==> 0x30 <= #[trigger] dec_digits(n)[i] <= 0x39,
    decreases n,
{
    if n < 10 {
        assert(dec_digits(n)[0] == (0x30 + n) as u8);
    } else {
        lemma_dec_digits_ascii(n / 10);
        assert forall|i: int| 0 <= i < dec_digits(n).len() implies 0x30 <= #[trigger] dec_digits(
            n,
        )[i] <= 0x39 by {
            if i < dec_digits(n / 10).len() {
                assert(dec_digits(n)[i] == dec_digits(n / 10)[i]);
            } else {
                assert(dec_digits(n)[i] == (0x30 + n % 10) as u8);
            }
        }
    }
}

/// Spell an unsigned value in decimal.
pub fn u64_dec_string(n: u64) -> (s: String)
    ensures
        s@ == ascii_chars(dec_digits(n as nat)),
{
    let out = digits_vec(n);
    proof {
        lemma_dec_digits_ascii(n as nat);
    }
    ascii_to_string(&out)
}

/// Spell a signed value in decimal.
pub fn i64_dec_string(n: i64) -> (s: String)
    ensures
        s@ == ascii_chars(dec_digits_signed(n as int)),
{
    if n >= 0 {
        u64_dec_string(n as u64)
    } else {
        let mag: u64 = if n == i64::MIN {
            9223372036854775808u64
        } else {
            (-n) as u64
        };
        let mut out: Vec<u8> = vec![0x2d];
        let digits = digits_vec(mag);
        out.extend_from_slice(digits.as_slice());
        proof {
            assert(out@ =~= dec_digits_signed(n as int));
            lemma_dec_digits_ascii(mag as nat);
            assert(forall|i: int| 0 <= i < out@.len() ==> out@[i] < 0x80);
        }
        ascii_to_string(&out)
    }
}

/// The decimal digit bytes of an unsigned value.
pub fn digits_vec(n: u64) -> (r: Vec<u8>)
    ensures
        r@ == dec_digits(n as nat),
{
    let mut rev: Vec<u8> = Vec::new();
    let mut x: u64 = n;
    proof {
        assert(dec_digits(n as nat) =~= dec_digits(n as nat) + rev@.reverse());
    }
    while x >= 10
        invariant
            dec_digits(n as nat) == dec_digits(x as nat) + rev@.reverse(),
        decreases x,
    {
        let d: u8 = 0x30 + ((x % 10) as u8);
        let ghost prev = rev@;
        rev.push(d);
        x = x / 10;
        proof {
            assert(rev@.reverse() =~= seq![d] + prev.reverse());
            assert(dec_digits((x * 10 + (d - 0x30)) as nat) == dec_digits(x as nat) + seq![d]);
        }
    }
    let d: u8 = 0x30 + ((x % 10) as u8);
    let ghost prev = rev@;
    rev.push(d);
    proof {
        assert(rev@.reverse() =~= seq![d] + prev.reverse());
        assert(dec_digits(x as nat) =~= seq![d]);
    }
    reverse_bytes(&rev)
}

/// The bytes of `v` in reverse order.
fn reverse_bytes(v: &Vec<u8>) -> (r: Vec<u8>)
    ensures
        r@ == v@.reverse(),
{
    let n = v.len();
    let mut out: Vec<u8> = Vec::new();
    let mut i: usize = 0;
    while i < n
        invariant
            n == v@.len(),
            i <= n,
            out@ == v@.reverse().take(i as int),
        decreases n - i,
    {
        out.push(v[n - 1 - i]);
        proof {
            assert(out@ =~= v@.reverse().take(i + 1));
        }
        i += 1;
    }
    proof {
        assert(v@.reverse().take(n as int) =~= v@.reverse());
    }
    out
}

/// True when `s` is a non-empty run of ASCII decimal digits.
pub open spec fn is_dec_digits(s: Seq<char>) -> bool {
    s.len() > 0 && forall|i: int| 0 <= i < s.len() ==> '0' <= #[trigger] s[i] <= '9'
}

/// The numeric value of a run of ASCII decimal digits.
pub open spec fn digits_value(s: Seq<char>) -> nat
    decreases s.len(),
{
    if s.len() == 0 {
        0
    } else {
        digits_value(s.drop_last()) * 10 + ((s.last() as int - 0x30) as nat)
    }
}

/// What `str::parse::<i64>` returns: the value of an optionally signed
/// non-empty digit run, and nothing for anything else or out of range.
pub open spec fn i64_parse_of(s: Seq<char>) -> Option<i64> {
    if s.len() > 0 && (s[0] == '-' || s[0] == '+') {
        let ds = s.drop_first();
        if !is_dec_digits(ds) {
            None
        } else if s[0] == '-' {
            if digits_value(ds) <= 0x8000_0000_0000_0000 {
                Some((0 - digits_value(ds) as int) as i64)
            } else {
                None
            }
        } else {
            if digits_value(ds) <= 0x7fff_ffff_ffff_ffff {
                Some(digits_value(ds) as i64)
            } else {
                None
            }
        }
    } else {
        if is_dec_digits(s) && digits_value(s) <= 0x7fff_ffff_ffff_ffff {
            Some(digits_value(s) as i64)
        } else {
            None
        }
    }
}

/// What `str::parse::<usize>` returns: the value of a non-empty digit run
/// with an optional plus sign, and nothing for anything else (a minus sign
/// included) or out of range.
pub open spec fn usize_parse_of(s: Seq<char>) -> Option<usize> {
    if s.len() > 0 && s[0] == '+' {
        let ds = s.drop_first();
        if is_dec_digits(ds) && digits_value(ds) <= usize::MAX {
            Some(digits_value(ds) as usize)
        } else {
            None
        }
    } else {
        if is_dec_digits(s) && digits_value(s) <= usize::MAX {
            Some(digits_value(s) as usize)
        } else {
            None
        }
    }
}

/// Relies on `str::parse::<i64>`: an optionally signed, non-empty run of
/// ASCII decimal digits yields its value; empty, malformed or out-of-range
/// text yields nothing.
#[verifier::external_body]
pub fn parse_i64(s: &str) -> (r: Option<i64>)
    ensures
        r == i64_parse_of(s@),
{
    s.parse::<i64>().ok()
}

/// Relies on `str::parse::<usize>`: a non-empty run of ASCII decimal
/// digits, at most plus-signed, yields its value; empty, malformed or
/// out-of-range text yields nothing.
#[verifier::external_body]
pub fn parse_usize(s: &str) -> (r: Option<usize>)
    ensures
        r == usize_parse_of(s@),
{
    s.parse::<usize>().ok()
}

} // verus!
