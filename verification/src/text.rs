//! Byte-string marshaler: converts between native UTF-8 text and the
//! null-terminated byte buffers a foreign caller works with.
//!
//! An outbound buffer ([`ByteBuffer`]) always holds the UTF-8 bytes of the
//! text followed by exactly one NUL terminator; it owns its allocation and is
//! released by passing it back by value. An inbound foreign buffer is plain
//! bytes: it is only accepted after the terminator is found and the prefix is
//! validated as UTF-8, and malformed input is reported through
//! [`MarshalError`] rather than by aborting.

use vstd::prelude::*;
use vstd::string::StrSliceExecFns;
use vstd::string::StringSliceAdditionalSpecFns;
use vstd::utf8::*;

use crate::MarshalError;

verus! {

/// Index of the first NUL byte in `b`, or `b.len()` when there is none.
pub open spec fn first_nul(b: Seq<u8>) -> int
    decreases b.len(),
{
    if b.len() == 0 {
        0
    } else if b[0] == 0 {
        0
    } else {
        1 + first_nul(b.drop_first())
    }
}

/// True when `b` holds a NUL byte somewhere.
pub open spec fn has_nul(b: Seq<u8>) -> bool {
    first_nul(b) < b.len()
}

/// The bytes of `b` before its first NUL terminator.
pub open spec fn c_prefix(b: Seq<u8>) -> Seq<u8> {
    b.take(first_nul(b))
}

/// A sequence whose first `n` bytes are non-NUL and whose byte at `n` (if
/// any) is NUL has `first_nul` exactly `n`.
pub proof fn lemma_first_nul_position(b: Seq<u8>, n: int)
    requires
        0 <= n <= b.len(),
        forall|i: int| 0 <= i < n ==> b[i] != 0,
        n < b.len() ==> b[n] == 0,
    ensures
        first_nul(b) == n,
    decreases b.len(),
{
    if b.len() != 0 && b[0] != 0 {
        assert(n != 0);
        lemma_first_nul_position(b.drop_first(), n - 1);
    }
}

/// An owned, null-terminated text buffer handed to the foreign side.
///
/// Well-formed buffers hold valid UTF-8 followed by exactly one NUL byte, so
/// the terminator is unambiguous and the text can always be recovered.
#[derive(Debug)]
pub struct ByteBuffer {
    bytes: Vec<u8>,
}

impl View for ByteBuffer {
    type V = Seq<u8>;

    closed spec fn view(&self) -> Seq<u8> {
        self.bytes@
    }
}

impl ByteBuffer {
    /// Every buffer built by this marshaler satisfies this shape: a non-NUL,
    /// valid-UTF-8 payload followed by a single trailing NUL.
    pub open spec fn wf(&self) -> bool {
        &&& self@.len() >= 1
        &&& self@.last() == 0
        &&& forall|i: int| 0 <= i < self@.len() - 1 ==> self@[i] != 0
        &&& valid_utf8(self@.take(self@.len() - 1))
    }

    /// The payload bytes: everything before the terminator.
    pub open spec fn content(&self) -> Seq<u8> {
        self@.take(self@.len() - 1)
    }

    /// The text the buffer carries, as a character sequence.
    pub open spec fn text(&self) -> Seq<char> {
        decode_utf8(self.content())
    }

    /// Read-only access to the raw bytes, terminator included; this is what
    /// a foreign caller would see through the pointer.
    pub fn raw_bytes(&self) -> (r: &Vec<u8>)
        ensures
            r@ == self@,
    {
        &self.bytes
    }
}

/// Relies on `core::str::from_utf8`: it returns `Ok` exactly on valid UTF-8
/// input and decodes those bytes to the corresponding characters.
#[verifier::external_body]
fn bytes_to_str(v: &[u8]) -> (r: Option<&str>)
    ensures
        r is Some <==> valid_utf8(v@),
        r matches Some(s) ==> s@ == decode_utf8(v@),
{
    core::str::from_utf8(v).ok()
}

/// The characters spelled by a run of ASCII bytes.
pub open spec fn ascii_chars(b: Seq<u8>) -> Seq<char> {
    Seq::new(b.len(), |i: int| b[i] as char)
}

/// A run of ASCII bytes is valid UTF-8 and decodes to exactly those bytes
/// read as characters.
pub proof fn lemma_ascii_decode(b: Seq<u8>)
    requires
        forall|i: int| 0 <= i < b.len() ==> b[i] < 0x80,
    ensures
        valid_utf8(b),
        decode_utf8(b) == ascii_chars(b),
    decreases b.len(),
{
    if b.len() != 0 {
        let b0 = b[0];
        assert(is_leading_byte_width_1(b0));
        assert(leading_bits_width_1(b0) == b0 as u32) by {
            assert(b0 & 0x7f == b0) by (bit_vector)
                requires
                    b0 < 0x80,
            ;
        }
        assert(pop_first_scalar(b) =~= b.drop_first());
        lemma_ascii_decode(b.drop_first());
        assert(decode_utf8(b) =~= ascii_chars(b));
    }
}

/// Build a native string out of bytes already known to be ASCII.
pub fn ascii_to_string(bytes: &Vec<u8>) -> (s: String)
    requires
        forall|i: int| 0 <= i < bytes@.len() ==> bytes@[i] < 0x80,
    ensures
        s@ == ascii_chars(bytes@),
{
    proof {
        lemma_ascii_decode(bytes@);
    }
    match bytes_to_str(bytes.as_slice()) {
        Some(s) => s.to_owned(),
        None => {
            proof {
                assert(false);
            }
            String::new()
        },
    }
}

/// Marshal native text into an owned, null-terminated buffer.
///
/// The buffer holds a copy of the text's UTF-8 bytes plus the terminator;
/// ownership transfers to the caller, who must release it through
/// [`free_cstr`]. Text holding an interior NUL cannot be framed and is
/// rejected with a tagged error instead of aborting.
pub fn convert_str(input: &str) -> (r: Result<ByteBuffer, MarshalError>)
    ensures
        r is Ok <==> !input.spec_bytes().contains(0),
        r matches Ok(b) ==> b.wf() && b.content() == input.spec_bytes(),
        r matches Err(e) ==> e == MarshalError::InteriorNul,
{
    let mut bytes = input.as_bytes_vec();
    let n = bytes.len();
    let mut i: usize = 0;
    while i < n
        invariant
            n == bytes.len(),
            bytes@ == input.spec_bytes(),
            forall|k: int| 0 <= k < i ==> bytes@[k] != 0,
            i <= n,
        decreases n - i,
    {
        if bytes[i] == 0 {
            assert(input.spec_bytes().contains(0));
            return Err(MarshalError::InteriorNul);
        }
        i += 1;
    }
    assert(!input.spec_bytes().contains(0)) by {
        if input.spec_bytes().contains(0) {
            let w = choose|w: int|
                0 <= w < input.spec_bytes().len() && input.spec_bytes()[w] == 0;
            assert(bytes@[w] != 0);
        }
    }
    bytes.push(0);
    let buf = ByteBuffer { bytes };
    proof {
        broadcast use encode_utf8_valid_utf8;

        assert(buf.content() =~= input.spec_bytes());
    }
    Ok(buf)
}

/// Marshal a raw foreign buffer back into native text.
///
/// The input is untrusted bytes: the function looks for the NUL terminator,
/// then validates the prefix as UTF-8 before copying it into a native
/// string. A buffer without a terminator, or with a malformed prefix, is
/// rejected with the matching tagged error.
pub fn cstr_to_str(raw: &Vec<u8>) -> (r: Result<String, MarshalError>)
    ensures
        r is Ok <==> has_nul(raw@) && valid_utf8(c_prefix(raw@)),
        r matches Ok(s) ==> s@ == decode_utf8(c_prefix(raw@)),
        r matches Err(e) ==> e == (
        if has_nul(raw@) {
            MarshalError::InvalidUtf8
        } else {
            MarshalError::MissingNul
        }),
{
    let n = raw.len();
    let mut prefix: Vec<u8> = Vec::new();
    let mut i: usize = 0;
    let mut terminated = false;
    while i < n && !terminated
        invariant
            n == raw.len(),
            i <= n,
            forall|k: int| 0 <= k < i ==> (k < i - 1 || !terminated) ==> raw@[k] != 0,
            terminated ==> i >= 1 && raw@[i - 1] == 0 && prefix@ == raw@.take(i - 1),
            !terminated ==> prefix@ == raw@.take(i as int),
        decreases n - i,
    {
        let b = raw[i];
        if b == 0 {
            terminated = true;
        } else {
            prefix.push(b);
            assert(prefix@ =~= raw@.take(i + 1));
        }
        i += 1;
    }
    if !terminated {
        proof {
            lemma_first_nul_position(raw@, n as int);
            assert(!has_nul(raw@));
        }
        return Err(MarshalError::MissingNul);
    }
    proof {
        lemma_first_nul_position(raw@, i - 1);
        assert(c_prefix(raw@) == prefix@);
    }
    match bytes_to_str(prefix.as_slice()) {
        Some(s) => Ok(s.to_owned()),
        None => Err(MarshalError::InvalidUtf8),
    }
}

/// Release an outbound text buffer.
///
/// Takes the buffer back by value, so the allocation is freed exactly once;
/// the move discipline makes a second release of the same buffer impossible
/// rather than undefined.
pub fn free_cstr(buffer: ByteBuffer) {
    let _ = buffer;
}

/// Compare two strings character by character.
pub fn str_eq(a: &str, b: &str) -> (r: bool)
    ensures
        r == (a@ == b@),
{
    let ab = a.as_bytes();
    let bb = b.as_bytes();
    let r = bytes_eq(ab, bb);
    proof {
        if a.spec_bytes() == b.spec_bytes() {
            encode_utf8_decode_utf8(a@);
            encode_utf8_decode_utf8(b@);
        }
    }
    r
}

/// Compare two byte runs.
fn bytes_eq(a: &[u8], b: &[u8]) -> (r: bool)
    ensures
        r == (a@ == b@),
{
    if a.len() != b.len() {
        return false;
    }
    let n = a.len();
    let mut i: usize = 0;
    while i < n
        invariant
            n == a@.len() == b@.len(),
            i <= n,
            forall|k: int| 0 <= k < i ==> a@[k] == b@[k],
        decreases n - i,
    {
        if slice_u8_get(a, i) != slice_u8_get(b, i) {
            return false;
        }
        i += 1;
    }
    proof {
        assert(a@ =~= b@);
    }
    true
}

/// Read one byte of a slice.
fn slice_u8_get(s: &[u8], i: usize) -> (r: u8)
    requires
        i < s@.len(),
    ensures
        r == s@[i as int],
{
    s[i]
}

/// Buffer fidelity: framing text into a null-terminated buffer and reading
/// it back yields the original text, for every text free of interior NULs.
///
/// Together with the contracts of [`convert_str`] and [`cstr_to_str`], this
/// says the two marshaling directions compose to the identity.
pub proof fn lemma_text_round_trip(text: Seq<char>)
    requires
        !encode_utf8(text).contains(0),
    ensures
        has_nul(encode_utf8(text).push(0)),
        c_prefix(encode_utf8(text).push(0)) == encode_utf8(text),
        decode_utf8(encode_utf8(text)) == text,
{
    broadcast use encode_utf8_decode_utf8;

    let framed = encode_utf8(text).push(0);
    assert forall|i: int| 0 <= i < encode_utf8(text).len() implies framed[i] != 0 by {
        if framed[i] == 0 {
            assert(encode_utf8(text).contains(0));
        }
    }
    lemma_first_nul_position(framed, encode_utf8(text).len() as int);
    assert(c_prefix(framed) =~= encode_utf8(text));
}

} // verus!
