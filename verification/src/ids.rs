//! Identifier model: a 128-bit UUID value held as two 64-bit halves, with
//! verified hyphenated text formatting and parsing, and name-based (v5) and
//! random (v4) generation delegated to the `uuid` crate.

use vstd::prelude::*;
use vstd::string::StringSliceAdditionalSpecFns;

use crate::text::ascii_chars;
use crate::text::ascii_to_string;
use crate::MarshalError;

verus! {

/// A 128-bit universally unique identifier, as the big-endian pair of its
/// high and low 64-bit halves.
#[derive(Debug, Clone, Copy, PartialEq, Eq, Structural)]
pub struct Uuid {
    pub hi: u64,
    pub lo: u64,
}

/// The ASCII byte of the lowercase hex digit for a value below 16.
pub open spec fn hex_byte(n: u8) -> u8 {
    if n < 10 {
        (0x30 + n) as u8
    } else {
        (0x57 + n) as u8
    }
}

/// The `i`-th (most significant first) hex digit value of `v`.
pub open spec fn nibble_of(v: u64, i: int) -> u8 {
    ((v >> (((15 - i) * 4) as u64)) & 0xf) as u8
}

/// The 16 lowercase hex digit bytes of `v`, most significant first.
pub open spec fn hex16(v: u64) -> Seq<u8> {
    Seq::new(16, |i: int| hex_byte(nibble_of(v, i)))
}

/// The 36 ASCII bytes of the canonical hyphenated spelling of a UUID:
/// 8-4-4-4-12 hex digits separated by hyphens.
pub open spec fn uuid_text(hi: u64, lo: u64) -> Seq<u8> {
    hex16(hi).subrange(0, 8) + seq![0x2du8] + hex16(hi).subrange(8, 12) + seq![0x2du8] + hex16(
        hi,
    ).subrange(12, 16) + seq![0x2du8] + hex16(lo).subrange(0, 4) + seq![0x2du8] + hex16(
        lo,
    ).subrange(4, 16)
}

/// True when the byte is an ASCII hex digit, either case.
pub open spec fn is_hex_digit(b: u8) -> bool {
    (0x30 <= b <= 0x39) || (0x61 <= b <= 0x66) || (0x41 <= b <= 0x46)
}

/// The value of an ASCII hex digit byte.
pub open spec fn hex_val(b: u8) -> u8 {
    if 0x30 <= b <= 0x39 {
        (b - 0x30) as u8
    } else if 0x61 <= b <= 0x66 {
        (b - 0x57) as u8
    } else {
        (b - 0x41 + 10) as u8
    }
}

/// True when the bytes spell a hyphenated UUID: 36 bytes with hyphens at
/// positions 8, 13, 18 and 23 and hex digits everywhere else.
pub open spec fn is_uuid_text(b: Seq<u8>) -> bool {
    &&& b.len() == 36
    &&& b[8] == 0x2d && b[13] == 0x2d && b[18] == 0x2d && b[23] == 0x2d
    &&& forall|i: int|
        0 <= i < 36 && i != 8 && i != 13 && i != 18 && i != 23 ==> is_hex_digit(#[trigger] b[i])
}

/// Positions of the 32 hex digits inside the 36-byte hyphenated spelling,
/// in order of significance: digit `k` of the value sits at byte
/// `digit_pos(k)`.
pub open spec fn digit_pos(k: int) -> int {
    if k < 8 {
        k
    } else if k < 12 {
        k + 1
    } else if k < 16 {
        k + 2
    } else if k < 20 {
        k + 3
    } else {
        k + 4
    }
}

/// The 128-bit value spelled by a hyphenated UUID text, as its two halves:
/// digit `k` (of 32, most significant first) contributes the nibble of the
/// half it belongs to.
pub open spec fn uuid_text_value(b: Seq<u8>) -> (u64, u64) {
    (nibbles_value(b, 0, 16), nibbles_value(b, 16, 32))
}

/// Accumulated value of the hex digits numbered `from .. to` in a
/// hyphenated UUID spelling.
pub open spec fn nibbles_value(b: Seq<u8>, from: int, to: int) -> u64
    decreases to - from,
{
    if from >= to {
        0
    } else {
        mul16_add(nibbles_value(b, from, to - 1), hex_val(b[digit_pos(to - 1)]))
    }
}

/// One accumulation step: shift four bits up and bring in a fresh nibble.
pub open spec fn mul16_add(acc: u64, d: u8) -> u64 {
    ((acc << 4u64) | (d as u64)) as u64
}

impl Uuid {
    /// The all-zero UUID, standing for "no blob assigned yet".
    pub fn nil() -> (r: Uuid)
        ensures
            r.hi == 0 && r.lo == 0,
    {
        Uuid { hi: 0, lo: 0 }
    }

    /// Derive the deterministic name-based (version 5) UUID of `name`
    /// within the namespace `self`.
    pub fn new_v5(&self, name: &[u8]) -> (r: Uuid)
        ensures
            (r.hi, r.lo) == uuid_v5_of(self.hi, self.lo, name@),
    {
        let (hi, lo) = uuid_v5_raw(self.hi, self.lo, name);
        Uuid { hi, lo }
    }

    /// Draw a fresh random (version 4) UUID. Nothing is promised of the
    /// value: two calls may differ.
    pub fn new_v4() -> Uuid {
        let (hi, lo) = uuid_v4_raw();
        Uuid { hi, lo }
    }

    /// Spell the UUID in its canonical hyphenated lowercase form.
    pub fn hyphenated(&self) -> (s: String)
        ensures
            s@ == ascii_chars(uuid_text(self.hi, self.lo)),
    {
        let mut out: Vec<u8> = Vec::new();
        push_hex_digits(&mut out, self.hi, 0, 8);
        out.push(0x2d);
        push_hex_digits(&mut out, self.hi, 8, 12);
        out.push(0x2d);
        push_hex_digits(&mut out, self.hi, 12, 16);
        out.push(0x2d);
        push_hex_digits(&mut out, self.lo, 0, 4);
        out.push(0x2d);
        push_hex_digits(&mut out, self.lo, 4, 16);
        proof {
            assert(out@ =~= uuid_text(self.hi, self.lo));
            assert forall|i: int| 0 <= i < out@.len() implies out@[i] < 0x80 by {
                lemma_uuid_text_ascii(self.hi, self.lo);
            }
        }
        ascii_to_string(&out)
    }

    /// Parse a hyphenated UUID spelling back into its value.
    ///
    /// Accepts exactly the 36-byte 8-4-4-4-12 form, with hex digits of
    /// either case, and reports anything else as a tagged error. This is
    /// deliberately narrower than the identifier library's own reader,
    /// which also takes the simple 32-digit, braced and URN spellings:
    /// the hyphenated form is the only one this boundary emits or is
    /// given, and one spelling keeps the grammar exact.
    pub fn parse_str(s: &str) -> (r: Result<Uuid, MarshalError>)
        ensures
            r is Ok <==> is_uuid_text(s.spec_bytes()),
            r matches Ok(u) ==> (u.hi, u.lo) == uuid_text_value(s.spec_bytes()),
            r matches Err(e) ==> e == MarshalError::InvalidUuid,
    {
        let b = s.as_bytes();
        if b.len() != 36 {
            return Err(MarshalError::InvalidUuid);
        }
        if !(b[8] == 0x2d && b[13] == 0x2d && b[18] == 0x2d && b[23] == 0x2d) {
            return Err(MarshalError::InvalidUuid);
        }
        let mut k: usize = 0;
        let mut hi: u64 = 0;
        while k < 16
            invariant
                k <= 16,
                b@ == s.spec_bytes(),
                b@.len() == 36,
                forall|j: int| 0 <= j < k ==> is_hex_digit(#[trigger] b@[digit_pos(j)]),
                hi == nibbles_value(b@, 0, k as int),
            decreases 16 - k,
        {
            let pos = digit_position(k);
            let d = b[pos];
            if !hex_digit_check(d) {
                return Err(MarshalError::InvalidUuid);
            }
            hi = (hi << 4u64) | (hex_digit_value(d) as u64);
            k += 1;
        }
        let mut lo: u64 = 0;
        while k < 32
            invariant
                16 <= k <= 32,
                b@ == s.spec_bytes(),
                b@.len() == 36,
                forall|j: int| 0 <= j < k ==> is_hex_digit(#[trigger] b@[digit_pos(j)]),
                lo == nibbles_value(b@, 16, k as int),
            decreases 32 - k,
        {
            let pos = digit_position(k);
            let d = b[pos];
            if !hex_digit_check(d) {
                return Err(MarshalError::InvalidUuid);
            }
            lo = (lo << 4u64) | (hex_digit_value(d) as u64);
            k += 1;
        }
        proof {
            assert forall|i: int|
                0 <= i < 36 && i != 8 && i != 13 && i != 18 && i != 23 implies is_hex_digit(
                #[trigger] b@[i],
            ) by {
                let j = digit_index_of(i);
                assert(digit_pos(j) == i);
                assert(is_hex_digit(b@[digit_pos(j)]));
            }
        }
        Ok(Uuid { hi, lo })
    }
}

/// The digit number whose position in the hyphenated spelling is `i`
/// (inverse of [`digit_pos`] for non-hyphen positions).
pub open spec fn digit_index_of(i: int) -> int {
    if i < 8 {
        i
    } else if i < 13 {
        i - 1
    } else if i < 18 {
        i - 2
    } else if i < 23 {
        i - 3
    } else {
        i - 4
    }
}

/// Every hex digit value is below 16.
pub proof fn lemma_nibble_bound(v: u64, i: int)
    ensures
        nibble_of(v, i) < 16,
{
    let s = ((15 - i) * 4) as u64;
    assert(((v >> s) & 0xf) < 16) by (bit_vector);
}

/// The hyphenated spelling of a UUID is itself a well-formed hyphenated
/// UUID text, and every byte of it is ASCII.
pub proof fn lemma_uuid_text_shape(hi: u64, lo: u64)
    ensures
        is_uuid_text(uuid_text(hi, lo)),
        forall|i: int| 0 <= i < uuid_text(hi, lo).len() ==> uuid_text(hi, lo)[i] < 0x80,
{
    let t = uuid_text(hi, lo);
    let h = hex16(hi);
    let l = hex16(lo);
    assert(t.len() == 36);
    assert forall|i: int|
        0 <= i < 36 && i != 8 && i != 13 && i != 18 && i != 23 implies is_hex_digit(
        #[trigger] t[i],
    ) && t[i] < 0x80 by {
        if i < 8 {
            assert(t[i] == h[i]);
            lemma_nibble_bound(hi, i);
        } else if i < 13 {
            assert(t[i] == h[i - 1]);
            lemma_nibble_bound(hi, i - 1);
        } else if i < 18 {
            assert(t[i] == h[i - 2]);
            lemma_nibble_bound(hi, i - 2);
        } else if i < 23 {
            assert(t[i] == l[i - 19]);
            lemma_nibble_bound(lo, i - 19);
        } else {
            assert(t[i] == l[i - 20]);
            lemma_nibble_bound(lo, i - 20);
        }
    }
    assert(t[8] == 0x2du8);
    assert(t[13] == 0x2du8);
    assert(t[18] == 0x2du8);
    assert(t[23] == 0x2du8);
    assert(0x2du8 < 0x80);
}

/// The value of a hex digit byte is the digit it spells.
proof fn lemma_hex_val_hex_byte(d: u8)
    requires
        d < 16,
    ensures
        is_hex_digit(hex_byte(d)),
        hex_val(hex_byte(d)) == d,
{
}

/// Where each digit of a UUID spelling sits: digit `j` of the high half
/// at `digit_pos(j)`, digit `j` of the low half at `digit_pos(16 + j)`.
proof fn lemma_uuid_text_digits(hi: u64, lo: u64)
    ensures
        forall|j: int|
            0 <= j < 16 ==> uuid_text(hi, lo)[digit_pos(j)] == hex_byte(
                #[trigger] nibble_of(hi, j),
            ),
        forall|j: int|
            0 <= j < 16 ==> uuid_text(hi, lo)[digit_pos(16 + j)] == hex_byte(
                #[trigger] nibble_of(lo, j),
            ),
{
    let t = uuid_text(hi, lo);
    let h = hex16(hi);
    let l = hex16(lo);
    assert forall|j: int| 0 <= j < 16 implies t[digit_pos(j)] == hex_byte(
        #[trigger] nibble_of(hi, j),
    ) by {
        if j < 8 {
            assert(t[j] == h[j]);
        } else if j < 12 {
            assert(t[j + 1] == h[j]);
        } else {
            assert(t[j + 2] == h[j]);
        }
    }
    assert forall|j: int| 0 <= j < 16 implies t[digit_pos(16 + j)] == hex_byte(
        #[trigger] nibble_of(lo, j),
    ) by {
        if j < 4 {
            assert(t[j + 19] == l[j]);
        } else {
            assert(t[j + 20] == l[j]);
        }
    }
}

/// Reading the digits of one half back accumulates exactly that half.
proof fn lemma_nibbles_accumulate(t: Seq<u8>, v: u64, base: int, k: int)
    requires
        1 <= k <= 16,
        base == 0 || base == 16,
        forall|j: int| 0 <= j < 16 ==> t[digit_pos(base + j)] == hex_byte(#[trigger] nibble_of(v, j)),
    ensures
        nibbles_value(t, base, base + k) == v >> (((16 - k) * 4) as u64),
    decreases k,
{
    let d = nibble_of(v, k - 1);
    lemma_nibble_bound(v, k - 1);
    lemma_hex_val_hex_byte(d);
    let s: u64 = (((16 - k) * 4) as u64);
    if k == 1 {
        assert(nibbles_value(t, base, base) == 0);
        assert(t[digit_pos(base)] == hex_byte(nibble_of(v, 0)));
        assert(nibbles_value(t, base, base + 1) == mul16_add(0, d));
        assert(mul16_add(0, (((v >> 60) & 0xf) as u8)) == v >> 60) by (bit_vector);
        assert(s == 60);
    } else {
        lemma_nibbles_accumulate(t, v, base, k - 1);
        let prev = v >> (((16 - (k - 1)) * 4) as u64);
        assert(nibbles_value(t, base, base + k) == mul16_add(prev, d));
        let s4: u64 = (((16 - (k - 1)) * 4) as u64);
        assert(s4 == s + 4 && s <= 56);
        assert(mul16_add((v >> add4(s)), (((v >> s) & 0xf) as u8)) == v >> s) by (bit_vector)
            requires
                s <= 56,
        ;
        assert(v >> s4 == v >> add4(s));
    }
}

/// The shift amount four bits further up.
pub open spec fn add4(s: u64) -> u64
    recommends
        s <= 60,
{
    (s + 4) as u64
}

/// Round trip: spelling a UUID and reading the spelling back yields the
/// same value, so the hyphenated form is a faithful carrier for
/// identifiers crossing the boundary as text.
pub proof fn lemma_uuid_round_trip(hi: u64, lo: u64)
    ensures
        is_uuid_text(uuid_text(hi, lo)),
        uuid_text_value(uuid_text(hi, lo)) == (hi, lo),
{
    let t = uuid_text(hi, lo);
    lemma_uuid_text_shape(hi, lo);
    lemma_uuid_text_digits(hi, lo);
    lemma_nibbles_accumulate(t, hi, 0, 16);
    assert(hi >> 0u64 == hi) by (bit_vector);
    lemma_nibbles_accumulate(t, lo, 16, 16);
    assert(lo >> 0u64 == lo) by (bit_vector);
}

/// Every byte of a hyphenated UUID spelling is ASCII.
pub proof fn lemma_uuid_text_ascii(hi: u64, lo: u64)
    ensures
        forall|i: int| 0 <= i < uuid_text(hi, lo).len() ==> uuid_text(hi, lo)[i] < 0x80,
{
    lemma_uuid_text_shape(hi, lo);
}

/// Exec mirror of [`digit_pos`].
fn digit_position(k: usize) -> (r: usize)
    requires
        k < 32,
    ensures
        r == digit_pos(k as int),
        r < 36,
{
    if k < 8 {
        k
    } else if k < 12 {
        k + 1
    } else if k < 16 {
        k + 2
    } else if k < 20 {
        k + 3
    } else {
        k + 4
    }
}

/// Exec mirror of [`is_hex_digit`].
fn hex_digit_check(b: u8) -> (r: bool)
    ensures
        r == is_hex_digit(b),
{
    (0x30 <= b && b <= 0x39) || (0x61 <= b && b <= 0x66) || (0x41 <= b && b <= 0x46)
}

/// Exec mirror of [`hex_val`].
fn hex_digit_value(b: u8) -> (r: u8)
    requires
        is_hex_digit(b),
    ensures
        r == hex_val(b),
        r < 16,
{
    if 0x30 <= b && b <= 0x39 {
        b - 0x30
    } else if 0x61 <= b && b <= 0x66 {
        b - 0x57
    } else {
        b - 0x41 + 10
    }
}

/// Append the hex digits numbered `from .. to` of `v` to `out`.
fn push_hex_digits(out: &mut Vec<u8>, v: u64, from: usize, to: usize)
    requires
        from <= to <= 16,
    ensures
        final(out)@ == old(out)@ + hex16(v).subrange(from as int, to as int),
{
    let mut i = from;
    while i < to
        invariant
            from <= i <= to <= 16,
            out@ == old(out)@ + hex16(v).subrange(from as int, i as int),
        decreases to - i,
    {
        let shift: u64 = ((15 - i) * 4) as u64;
        let d: u8 = ((v >> shift) & 0xf) as u8;
        assert(d == nibble_of(v, i as int));
        assert(d < 16) by (bit_vector)
            requires
                d == ((v >> shift) & 0xf) as u8,
        ;
        let c: u8 = if d < 10 {
            0x30 + d
        } else {
            0x57 + d
        };
        out.push(c);
        proof {
            assert(out@ =~= old(out)@ + hex16(v).subrange(from as int, i + 1));
        }
        i += 1;
    }
}

/// Relies on `uuid::Uuid::new_v5` (the RFC 9562 name-based, SHA-1 derived
/// UUID): the result is a pure function of namespace and name. The halves
/// are carried through `uuid::Uuid::from_u64_pair` / `as_u64_pair`.
#[verifier::external_body]
fn uuid_v5_raw(ns_hi: u64, ns_lo: u64, name: &[u8]) -> (r: (u64, u64))
    ensures
        r == uuid_v5_of(ns_hi, ns_lo, name@),
{
    let ns = uuid::Uuid::from_u64_pair(ns_hi, ns_lo);
    uuid::Uuid::new_v5(&ns, name).as_u64_pair()
}

/// What `uuid::Uuid::new_v5` returns for a namespace and name; it depends
/// on those arguments alone.
pub uninterp spec fn uuid_v5_of(ns_hi: u64, ns_lo: u64, name: Seq<u8>) -> (u64, u64);

/// Relies on `uuid::Uuid::new_v4`: a randomly generated UUID. Nothing is
/// promised of the value.
#[verifier::external_body]
fn uuid_v4_raw() -> (u64, u64) {
    uuid::Uuid::new_v4().as_u64_pair()
}

} // verus!
