//! Timestamp model: a UTC instant as seconds since the epoch plus a
//! nanosecond part. Text in several accepted spellings is first normalized
//! by verified byte-level replacement, then handed to `chrono` for the
//! calendar arithmetic.

use vstd::prelude::*;
use vstd::utf8::encode_utf8;

use crate::MarshalError;

verus! {

/// A UTC instant: seconds since the Unix epoch and the nanosecond part.
/// The nanosecond part stays below two billion (values of one billion and
/// above express a leap second, following `chrono`).
#[derive(Debug, Clone, Copy, PartialEq, Eq, Structural)]
pub struct Timestamp {
    pub secs: i64,
    pub nanos: u32,
}

/// Left-to-right, non-overlapping replacement of `pat` by `rep` in `s`,
/// matching what `str::replace` does on the underlying bytes.
pub open spec fn replace_bytes(s: Seq<u8>, pat: Seq<u8>, rep: Seq<u8>) -> Seq<u8>
    decreases s.len(),
{
    if s.len() == 0 {
        seq![]
    } else if 0 < pat.len() <= s.len() && s.take(pat.len() as int) == pat {
        rep + replace_bytes(s.skip(pat.len() as int), pat, rep)
    } else {
        seq![s[0]] + replace_bytes(s.drop_first(), pat, rep)
    }
}

/// The bytes of `" UTC"`.
pub open spec fn pat_utc_bytes() -> Seq<u8> {
    seq![0x20u8, 0x55u8, 0x54u8, 0x43u8]
}

/// The bytes of the `" +00"` offset spelling.
pub open spec fn rep_offset_bytes() -> Seq<u8> {
    seq![0x20u8, 0x2bu8, 0x30u8, 0x30u8]
}

/// The normalization the parser applies before handing the text to the
/// calendar library: `" UTC"` and `"Z"` become the `" +00"` offset, and the
/// `"T"` date/time separator becomes a space.
pub open spec fn normalize_timestamp(b: Seq<u8>) -> Seq<u8> {
    replace_bytes(
        replace_bytes(replace_bytes(b, pat_utc_bytes(), rep_offset_bytes()), seq![0x5au8], rep_offset_bytes()),
        seq![0x54u8],
        seq![0x20u8],
    )
}

/// True when `pat` occurs in `s` starting at position `i`.
fn match_at(s: &Vec<u8>, i: usize, pat: &Vec<u8>) -> (r: bool)
    requires
        i + pat@.len() <= s@.len(),
    ensures
        r <==> s@.subrange(i as int, i + pat@.len()) == pat@,
{
    let plen = pat.len();
    let n = s.len();
    let mut j: usize = 0;
    while j < plen
        invariant
            j <= plen,
            plen == pat@.len(),
            n == s@.len(),
            i + plen <= n,
            forall|k: int| 0 <= k < j ==> s@[i + k] == pat@[k],
        decreases plen - j,
    {
        if s[i + j] != pat[j] {
            proof {
                assert(s@.subrange(i as int, i + pat@.len())[j as int] != pat@[j as int]);
            }
            return false;
        }
        j += 1;
    }
    proof {
        assert(s@.subrange(i as int, i + pat@.len()) =~= pat@);
    }
    true
}

/// Replace every non-overlapping occurrence of `pat` in `s` by `rep`,
/// scanning left to right.
pub fn replace_all(s: &Vec<u8>, pat: &Vec<u8>, rep: &Vec<u8>) -> (r: Vec<u8>)
    requires
        pat@.len() > 0,
    ensures
        r@ == replace_bytes(s@, pat@, rep@),
{
    let n = s.len();
    let plen = pat.len();
    let mut out: Vec<u8> = Vec::new();
    let mut i: usize = 0;
    proof {
        assert(s@.skip(0) =~= s@);
    }
    while i < n
        invariant
            n == s@.len(),
            plen == pat@.len(),
            0 < plen,
            i <= n,
            replace_bytes(s@, pat@, rep@) == out@ + replace_bytes(s@.skip(i as int), pat@, rep@),
        decreases n - i,
    {
        let matches_here = plen <= n - i && match_at(s, i, pat);
        proof {
            if matches_here {
                assert(s@.skip(i as int).take(plen as int) =~= s@.subrange(
                    i as int,
                    i + plen,
                ));
            } else if plen <= n - i {
                assert(s@.skip(i as int).take(plen as int) =~= s@.subrange(
                    i as int,
                    i + plen,
                ));
            }
        }
        if matches_here {
            out.extend_from_slice(rep.as_slice());
            proof {
                assert(s@.skip(i as int).skip(plen as int) =~= s@.skip(i + plen));
            }
            i += plen;
        } else {
            out.push(s[i]);
            proof {
                assert(s@.skip(i as int).drop_first() =~= s@.skip(i + 1));
            }
            i += 1;
        }
    }
    proof {
        assert(s@.skip(n as int) =~= Seq::<u8>::empty());
    }
    out
}

/// What `chrono::DateTime::parse_from_str` with the fixed format
/// `"%Y-%m-%d %H:%M:%S%.f %#z"`, converted to UTC seconds and nanoseconds,
/// returns for a byte string; it depends on those bytes alone.
pub uninterp spec fn chrono_parse_fixed_of(b: Seq<u8>) -> Option<(i64, u32)>;

/// Relies on `chrono::DateTime::parse_from_str` with the fixed format
/// `"%Y-%m-%d %H:%M:%S%.f %#z"`; the result is converted to plain values
/// with `DateTime::timestamp` and `DateTime::timestamp_subsec_nanos`, whose
/// nanosecond part `chrono` documents to stay below two billion. Bytes that
/// are not UTF-8 parse as nothing.
#[verifier::external_body]
fn chrono_parse_fixed(b: &[u8]) -> (r: Option<(i64, u32)>)
    ensures
        r == chrono_parse_fixed_of(b@),
        r matches Some(t) ==> t.1 < 2_000_000_000,
{
    let s = match core::str::from_utf8(b) {
        Ok(s) => s,
        Err(_) => return None,
    };
    match chrono::DateTime::parse_from_str(s, "%Y-%m-%d %H:%M:%S%.f %#z") {
        Ok(dt) => {
            let utc = dt.to_utc();
            Some((utc.timestamp(), utc.timestamp_subsec_nanos()))
        },
        Err(_) => None,
    }
}

/// What `Display` for `chrono::DateTime<Utc>` prints for an instant; it
/// depends on the instant alone.
pub uninterp spec fn chrono_display_of(secs: i64, nanos: u32) -> Seq<char>;

/// Relies on `chrono::DateTime::from_timestamp` and on the `Display`
/// spelling of a UTC instant. `from_timestamp` is defined for this range
/// of seconds, and accepts a nanosecond part of one billion or more (a
/// leap second) only when the second within its minute is 59 — the
/// remainder taken the Euclidean way, as its day arithmetic does.
#[verifier::external_body]
fn chrono_display(secs: i64, nanos: u32) -> (r: String)
    requires
        -62_135_596_800 <= secs < 253_402_300_800,
        nanos < 1_000_000_000 || (nanos < 2_000_000_000 && (secs as int) % 60 == 59),
    ensures
        r@ == chrono_display_of(secs, nanos),
{
    let dt = chrono::DateTime::<chrono::Utc>::from_timestamp(secs, nanos)
        .expect("timestamp within the documented range");
    dt.to_string()
}

/// Relies on `chrono::Utc::now`: the machine clock. Nothing is promised of
/// the seconds; the nanosecond part stays below two billion as `chrono`
/// documents for `timestamp_subsec_nanos`. The underlying call panics if
/// the system clock reads before the Unix epoch, an environmental
/// condition no precondition can exclude.
#[verifier::external_body]
fn chrono_now() -> (r: (i64, u32))
    ensures
        r.1 < 2_000_000_000,
{
    let now = chrono::Utc::now();
    (now.timestamp(), now.timestamp_subsec_nanos())
}

impl Timestamp {
    /// Instants that can always be spelled out again as text: the seconds
    /// lie in the years 1 through 9999, and a leap-second nanosecond part
    /// (one billion or more) only occurs at the 59th second of a minute,
    /// the one place the calendar library accepts it.
    pub open spec fn displayable(&self) -> bool {
        &&& -62_135_596_800 <= self.secs < 253_402_300_800
        &&& (self.nanos < 1_000_000_000 || (self.nanos < 2_000_000_000 && (self.secs as int) % 60
            == 59))
    }

    /// The Unix epoch, the default instant of freshly assembled records.
    pub fn epoch() -> (r: Timestamp)
        ensures
            r.secs == 0 && r.nanos == 0,
            r.displayable(),
    {
        Timestamp { secs: 0, nanos: 0 }
    }

    /// The current instant, read from the machine clock.
    pub fn now() -> (r: Timestamp)
        ensures
            r.nanos < 2_000_000_000,
    {
        let (secs, nanos) = chrono_now();
        Timestamp { secs, nanos }
    }

    /// Spell the instant out as UTC text.
    pub fn display_string(&self) -> (r: String)
        requires
            self.displayable(),
        ensures
            r@ == chrono_display_of(self.secs, self.nanos),
    {
        chrono_display(self.secs, self.nanos)
    }

    /// Spell the instant out as UTC text, or report that it lies outside
    /// the displayable range.
    pub fn display_string_checked(&self) -> (r: Option<String>)
        ensures
            r is Some <==> self.displayable(),
            r matches Some(s) ==> s@ == chrono_display_of(self.secs, self.nanos),
    {
        if !(-62_135_596_800 <= self.secs && self.secs < 253_402_300_800) {
            return None;
        }
        let leap_ok: bool = if self.nanos < 1_000_000_000 {
            true
        } else if self.nanos < 2_000_000_000 {
            // Second within the minute, with the remainder taken the
            // Euclidean way: shift into the non-negative range first
            // (the shift is a whole number of minutes).
            let shifted: i64 = self.secs + 62_135_596_800;
            let rem: u64 = (shifted as u64) % 60;
            proof {
                vstd::arithmetic::div_mod::lemma_mod_multiples_vanish(
                    -1_035_593_280,
                    shifted as int,
                    60,
                );
            }
            rem == 59
        } else {
            false
        };
        if leap_ok {
            Some(chrono_display(self.secs, self.nanos))
        } else {
            None
        }
    }
}

/// Parse a UTC timestamp from text.
///
/// The accepted spellings are those of the service: an optional `"T"`
/// date/time separator and either a `"Z"`, a trailing `" UTC"`, or an
/// explicit offset. The text is first normalized by the verified
/// replacements of [`normalize_timestamp`], then handed to the calendar
/// library; text the library does not accept is reported as a tagged error.
pub fn parse_str_utc(text: String) -> (r: Result<Timestamp, MarshalError>)
    ensures
        r is Ok <==> chrono_parse_fixed_of(normalize_timestamp(encode_utf8(text@))) is Some,
        r matches Ok(ts) ==> Some((ts.secs, ts.nanos)) == chrono_parse_fixed_of(
            normalize_timestamp(encode_utf8(text@)),
        ) && ts.nanos < 2_000_000_000,
        r matches Err(e) ==> e == MarshalError::InvalidTimestamp,
{
    let bytes = text.as_str().as_bytes_vec();
    let pat_utc: Vec<u8> = vec![0x20, 0x55, 0x54, 0x43];
    let rep_off: Vec<u8> = vec![0x20, 0x2b, 0x30, 0x30];
    let pat_z: Vec<u8> = vec![0x5a];
    let pat_t: Vec<u8> = vec![0x54];
    let rep_sp: Vec<u8> = vec![0x20];
    proof {
        assert(pat_utc@ =~= pat_utc_bytes());
        assert(rep_off@ =~= rep_offset_bytes());
        assert(pat_z@ =~= seq![0x5au8]);
        assert(pat_t@ =~= seq![0x54u8]);
        assert(rep_sp@ =~= seq![0x20u8]);
    }
    let step1 = replace_all(&bytes, &pat_utc, &rep_off);
    let step2 = replace_all(&step1, &pat_z, &rep_off);
    let step3 = replace_all(&step2, &pat_t, &rep_sp);
    match chrono_parse_fixed(step3.as_slice()) {
        Some((secs, nanos)) => Ok(Timestamp { secs, nanos }),
        None => Err(MarshalError::InvalidTimestamp),
    }
}

} // verus!
