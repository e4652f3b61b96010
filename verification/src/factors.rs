//! Factor records: the named constraint objects of a factor graph, and
//! the generic wrappers that pair a factor kind with a distribution value.
//! The numeric payload of a distribution is floating point and therefore
//! lives with the caller; these records carry everything else.

use vstd::prelude::*;
use vstd::seq_lib::*;
use vstd::string::StrSliceExecFns;
use vstd::string::StringExecFns;
use vstd::string::StringSliceAdditionalSpecFns;

use crate::ids::is_hex_digit;
use crate::ids::uuid_text;
use crate::ids::Uuid;
use crate::numbers::u64_dec_string;
use crate::text::ascii_chars;
use crate::time::Timestamp;
use crate::GetLabel;
use crate::SDK_VERSION;

verus! {

/// A factor of the distributed factor graph: the labelled edge object
/// linking the variables named by its order symbols.
#[derive(Debug, Clone)]
pub struct FactorDFG {
    pub id: Option<Uuid>,
    pub label: String,
    pub tags: Vec<String>,
    pub variable_order_symbols: Vec<String>,
    pub timestamp: Option<Timestamp>,
    pub nstime: Option<String>,
    pub fnctype: String,
    pub solvable: Option<i64>,
    pub data: Option<String>,
    pub metadata: Option<String>,
    pub _version: Option<String>,
}

impl GetLabel for FactorDFG {
    open spec fn label_spec(&self) -> Seq<char> {
        self.label@
    }

    fn getLabel(&self) -> (r: &String) {
        &self.label
    }
}

/// A factor kind holding a distribution value of type `T`.
pub trait FactorType<T>: Sized {
    /// The factor-function name this kind is known by remotely.
    spec fn type_str_spec() -> Seq<char>;

    /// The wrapped distribution value, as the contracts see it.
    spec fn z_spec(&self) -> T;

    /// Wrap a distribution value.
    fn new(z: T) -> (r: Self)
        ensures
            r.z_spec() == z,
    ;

    /// The factor-function name, e.g. for the `fnctype` column.
    fn type_str(&self) -> (r: String)
        ensures
            r@ == Self::type_str_spec(),
    ;
}

/// Prior on a two-dimensional point.
#[derive(Debug, Clone)]
pub struct PriorPoint2<T> {
    pub z: T,
}

/// Prior on a three-dimensional point.
#[derive(Debug, Clone)]
pub struct PriorPoint3<T> {
    pub z: T,
}

/// Prior on a planar pose (x, y, heading).
#[derive(Debug, Clone)]
pub struct PriorPose2<T> {
    pub z: T,
}

/// Prior on a spatial pose (x, y, z and three rotations).
#[derive(Debug, Clone)]
pub struct PriorPose3<T> {
    pub z: T,
}

/// Relative constraint between two planar points.
#[derive(Debug, Clone)]
pub struct Point2Point2<T> {
    pub z: T,
}

/// Relative constraint between two spatial points.
#[derive(Debug, Clone)]
pub struct Point3Point3<T> {
    pub z: T,
}

/// Relative constraint between two planar poses.
#[derive(Debug, Clone)]
pub struct Pose2Pose2<T> {
    pub z: T,
}

/// Relative constraint between two spatial poses.
#[derive(Debug, Clone)]
pub struct Pose3Pose3<T> {
    pub z: T,
}

impl<T> FactorType<T> for PriorPoint2<T> {
    open spec fn type_str_spec() -> Seq<char> {
        "RoME.PriorPoint2"@
    }

    open spec fn z_spec(&self) -> T {
        self.z
    }

    fn new(z: T) -> (r: Self) {
        PriorPoint2 { z }
    }

    fn type_str(&self) -> (r: String) {
        String::from_str("RoME.PriorPoint2")
    }
}

impl<T> FactorType<T> for PriorPoint3<T> {
    open spec fn type_str_spec() -> Seq<char> {
        "RoME.PriorPoint3"@
    }

    open spec fn z_spec(&self) -> T {
        self.z
    }

    fn new(z: T) -> (r: Self) {
        PriorPoint3 { z }
    }

    fn type_str(&self) -> (r: String) {
        String::from_str("RoME.PriorPoint3")
    }
}

impl<T> FactorType<T> for PriorPose2<T> {
    open spec fn type_str_spec() -> Seq<char> {
        "RoME.PriorPose2"@
    }

    open spec fn z_spec(&self) -> T {
        self.z
    }

    fn new(z: T) -> (r: Self) {
        PriorPose2 { z }
    }

    fn type_str(&self) -> (r: String) {
        String::from_str("RoME.PriorPose2")
    }
}

impl<T> FactorType<T> for PriorPose3<T> {
    open spec fn type_str_spec() -> Seq<char> {
        "RoME.PriorPose3"@
    }

    open spec fn z_spec(&self) -> T {
        self.z
    }

    fn new(z: T) -> (r: Self) {
        PriorPose3 { z }
    }

    fn type_str(&self) -> (r: String) {
        String::from_str("RoME.PriorPose3")
    }
}

impl<T> FactorType<T> for Point2Point2<T> {
    open spec fn type_str_spec() -> Seq<char> {
        "RoME.Point2Point2"@
    }

    open spec fn z_spec(&self) -> T {
        self.z
    }

    fn new(z: T) -> (r: Self) {
        Point2Point2 { z }
    }

    fn type_str(&self) -> (r: String) {
        String::from_str("RoME.Point2Point2")
    }
}

impl<T> FactorType<T> for Point3Point3<T> {
    open spec fn type_str_spec() -> Seq<char> {
        "RoME.Point3Point3"@
    }

    open spec fn z_spec(&self) -> T {
        self.z
    }

    fn new(z: T) -> (r: Self) {
        Point3Point3 { z }
    }

    fn type_str(&self) -> (r: String) {
        String::from_str("RoME.Point3Point3")
    }
}

impl<T> FactorType<T> for Pose2Pose2<T> {
    open spec fn type_str_spec() -> Seq<char> {
        "RoME.Pose2Pose2"@
    }

    open spec fn z_spec(&self) -> T {
        self.z
    }

    fn new(z: T) -> (r: Self) {
        Pose2Pose2 { z }
    }

    fn type_str(&self) -> (r: String) {
        String::from_str("RoME.Pose2Pose2")
    }
}

impl<T> FactorType<T> for Pose3Pose3<T> {
    open spec fn type_str_spec() -> Seq<char> {
        "RoME.Pose3Pose3"@
    }

    open spec fn z_spec(&self) -> T {
        self.z
    }

    fn new(z: T) -> (r: Self) {
        Pose3Pose3 { z }
    }

    fn type_str(&self) -> (r: String) {
        String::from_str("RoME.Pose3Pose3")
    }
}

/// The concatenation of the labels in `ls`.
pub open spec fn joined_labels(ls: Seq<Seq<char>>) -> Seq<char>
    decreases ls.len(),
{
    if ls.len() == 0 {
        Seq::<char>::empty()
    } else {
        joined_labels(ls.drop_last()) + ls.last()
    }
}

/// Assemble a factor label: the variable labels run together, then an
/// underscore, then four fresh hex digits drawn from a random identifier
/// (so two assemblies of the same labels will usually differ).
pub fn assemble_factor_name(ovlb: Vec<&str>) -> (r: String)
    ensures
        r@.len() == joined_labels(ovlb@.map_values(|s: &str| s@)).len() + 5,
        r@.take(r@.len() - 5) == joined_labels(ovlb@.map_values(|s: &str| s@)),
        r@[r@.len() - 5] == '_',
        forall|i: int| r@.len() - 4 <= i < r@.len() ==> is_hex_digit(#[trigger] r@[i] as u8),
{
    let mut flb = String::new();
    let mut i: usize = 0;
    let n = ovlb.len();
    while i < n
        invariant
            n == ovlb@.len(),
            i <= n,
            flb@ == joined_labels(ovlb@.map_values(|s: &str| s@).take(i as int)),
        decreases n - i,
    {
        flb.append(ovlb[i]);
        proof {
            let mapped = ovlb@.map_values(|s: &str| s@);
            assert(mapped.take(i + 1).drop_last() =~= mapped.take(i as int));
            assert(mapped.take(i + 1).last() == ovlb@[i as int]@);
        }
        i += 1;
    }
    proof {
        let mapped = ovlb@.map_values(|s: &str| s@);
        assert(mapped.take(n as int) =~= mapped);
    }
    flb.append("_");
    let tag = Uuid::new_v4();
    let hex = tag.hyphenated();
    proof {
        crate::ids::lemma_uuid_text_shape(tag.hi, tag.lo);
        assert(hex@.len() == 36);
        assert(vstd::utf8::is_ascii_chars(hex@)) by {
            assert forall|i: int| 0 <= i < hex@.len() implies '\0' <= #[trigger] hex@[i]
                <= '\u{7f}' by {
                assert(hex@[i] == uuid_text(tag.hi, tag.lo)[i] as char);
                assert(uuid_text(tag.hi, tag.lo)[i] < 0x80);
            }
        }
        reveal_strlit("_");
    }
    let hex4 = hex.as_str().substring_ascii(0, 4);
    let out = flb.concat(hex4);
    proof {
        assert(out@.take(out@.len() - 5) =~= joined_labels(ovlb@.map_values(|s: &str| s@)));
        assert forall|i: int| out@.len() - 4 <= i < out@.len() implies is_hex_digit(
            #[trigger] out@[i] as u8,
        ) by {
            let t = uuid_text(tag.hi, tag.lo);
            let j = i - (out@.len() - 4);
            assert(out@[i] == hex@[j]);
            assert(hex@[j] == t[j] as char);
            assert(is_hex_digit(t[j]));
            assert(t[j] < 0x80);
        }
    }
    out
}

/// The part of `fnc` after its last `'.'`, or all of it when there is
/// none: the bare factor-function name.
pub open spec fn fnc_name_spec(s: Seq<char>) -> Seq<char>
    decreases s.len(),
{
    if s.len() == 0 {
        s
    } else if s.last() == '.' {
        Seq::<char>::empty()
    } else {
        fnc_name_spec(s.drop_last()).push(s.last())
    }
}

/// The name suffix after a split point that sits just past the last dot
/// is exactly the bare factor-function name.
proof fn lemma_fnc_name_split(s: Seq<char>, p: int)
    requires
        0 <= p <= s.len(),
        forall|k: int| p <= k < s.len() ==> s[k] != '.',
        p > 0 ==> s[p - 1] == '.',
    ensures
        fnc_name_spec(s) == s.skip(p),
    decreases s.len(),
{
    if s.len() == 0 {
        assert(fnc_name_spec(s) =~= s.skip(p));
    } else if s.last() == '.' {
        assert(p == s.len());
        assert(fnc_name_spec(s) =~= s.skip(p));
    } else {
        assert(p <= s.len() - 1);
        lemma_fnc_name_split(s.drop_last(), p);
        assert(fnc_name_spec(s) == fnc_name_spec(s.drop_last()).push(s.last()));
        assert(s.drop_last().skip(p).push(s.last()) =~= s.skip(p));
    }
}

/// Extract the bare factor-function name: the text after the last dot.
pub fn get_fnc_name(fnc: &str) -> (r: String)
    ensures
        r@ == fnc_name_spec(fnc@),
{
    let n = fnc.unicode_len();
    let mut start: usize = n;
    let mut found = false;
    while start > 0 && !found
        invariant
            start <= n,
            n == fnc@.len(),
            forall|k: int| start <= k < n ==> fnc@[k] != '.',
            found ==> start >= 1 && fnc@[start - 1] == '.',
        decreases start + (if found {
            0int
        } else {
            1int
        }),
    {
        let c = fnc.get_char(start - 1);
        if c == '.' {
            found = true;
        } else {
            start -= 1;
        }
    }
    proof {
        lemma_fnc_name_split(fnc@, start as int);
    }
    fnc.substring_char(start, n).to_owned()
}

impl FactorDFG {
    /// Construct a factor record.
    ///
    /// A thinner doorway to [`FactorDFG::new_more`], with solver knobs at
    /// their defaults.
    pub fn new(
        varlbls: Vec<&str>,
        fnctype: String,
        tags: Vec<&str>,
        timestamp: Option<Timestamp>,
        nstime: Option<u64>,
    ) -> (r: FactorDFG)
        ensures
            new_more_post(r, varlbls@, fnctype@, tags@, timestamp, nstime, None, None),
    {
        FactorDFG::new_more(varlbls, fnctype, tags, timestamp, nstime, None, None)
    }

    /// Construct a factor record with the full set of knobs.
    ///
    /// The label is assembled from the variable labels plus a fresh
    /// four-digit tag; the `"FACTOR"` tag always comes first and is never
    /// duplicated; the nanosecond counter is spelled in decimal; a missing
    /// timestamp falls back to the current clock; the packed solver data
    /// (whose numbers are floating point) is taken as the caller prepared
    /// it.
    pub fn new_more(
        varlbls: Vec<&str>,
        fnctype: String,
        tags: Vec<&str>,
        timestamp: Option<Timestamp>,
        nstime: Option<u64>,
        solvable: Option<i64>,
        data: Option<String>,
    ) -> (r: FactorDFG)
        ensures
            new_more_post(r, varlbls@, fnctype@, tags@, timestamp, nstime, solvable, data),
    {
        let label = assemble_factor_name(varlbls_clone(&varlbls));
        let mut symbols: Vec<String> = Vec::new();
        let mut i: usize = 0;
        let n = varlbls.len();
        while i < n
            invariant
                n == varlbls@.len(),
                i <= n,
                symbols@.len() == i,
                forall|k: int| 0 <= k < i ==> (#[trigger] symbols@[k])@ == varlbls@[k]@,
            decreases n - i,
        {
            symbols.push(varlbls[i].to_owned());
            i += 1;
        }
        let mut out_tags: Vec<String> = Vec::new();
        out_tags.push(String::from_str("FACTOR"));
        let mut j: usize = 0;
        let m = tags.len();
        while j < m
            invariant
                m == tags@.len(),
                j <= m,
                out_tags@.len() >= 1,
                out_tags@[0]@ == "FACTOR"@,
                out_tags@.map_values(|s: String| s@).skip(1) == tags@.map_values(
                    |s: &str| s@,
                ).take(j as int).filter(|t: Seq<char>| t != "FACTOR"@),
            decreases m - j,
        {
            let ghost prefix = tags@.map_values(|s: &str| s@).take(j as int);
            if !crate::text::str_eq(tags[j], "FACTOR") {
                out_tags.push(tags[j].to_owned());
            }
            proof {
                let mapped = tags@.map_values(|s: &str| s@);
                assert(mapped.take(j + 1).drop_last() =~= prefix);
                assert(mapped.take(j + 1).last() == tags@[j as int]@);
                reveal_with_fuel(Seq::filter, 2);
                let pushed = prefix.push(tags@[j as int]@);
                assert(mapped.take(j + 1) =~= pushed);
                assert(pushed.drop_last() =~= prefix);
                assert(pushed.last() == tags@[j as int]@);
                assert(out_tags@.map_values(|s: String| s@).skip(1) =~= pushed.filter(
                    |t: Seq<char>| t != "FACTOR"@,
                ));
                assert(mapped.take(j + 1).filter(|t: Seq<char>| t != "FACTOR"@) == pushed.filter(
                    |t: Seq<char>| t != "FACTOR"@,
                ));
            }
            j += 1;
        }
        proof {
            let mapped = tags@.map_values(|s: &str| s@);
            assert(mapped.take(m as int) =~= mapped);
        }
        let ts = match timestamp {
            Some(t) => t,
            None => Timestamp::now(),
        };
        let ns: u64 = match nstime {
            Some(v) => v,
            None => 0,
        };
        FactorDFG {
            id: None,
            label,
            tags: out_tags,
            variable_order_symbols: symbols,
            timestamp: Some(ts),
            nstime: Some(u64_dec_string(ns)),
            fnctype,
            solvable: Some(
                match solvable {
                    Some(s) => s,
                    None => 0,
                },
            ),
            data,
            metadata: Some(String::from_str("e30=")),
            _version: Some(SDK_VERSION.to_owned()),
        }
    }
}

/// What [`FactorDFG::new_more`] promises of its result.
pub open spec fn new_more_post(
    r: FactorDFG,
    varlbls: Seq<&str>,
    fnctype: Seq<char>,
    tags: Seq<&str>,
    timestamp: Option<Timestamp>,
    nstime: Option<u64>,
    solvable: Option<i64>,
    data: Option<String>,
) -> bool {
    &&& r.id is None
    &&& r.label@.len() == joined_labels(varlbls.map_values(|s: &str| s@)).len() + 5
    &&& r.label@.take(r.label@.len() - 5) == joined_labels(varlbls.map_values(|s: &str| s@))
    &&& r.tags@.len() >= 1 && r.tags@[0]@ == "FACTOR"@
    &&& r.tags@.map_values(|s: String| s@).skip(1) == tags.map_values(|s: &str| s@).filter(
        |t: Seq<char>| t != "FACTOR"@,
    )
    &&& r.variable_order_symbols@.len() == varlbls.len()
    &&& (forall|k: int|
        0 <= k < varlbls.len() ==> (#[trigger] r.variable_order_symbols@[k])@ == varlbls[k]@)
    &&& (timestamp matches Some(t) ==> r.timestamp == Some(t))
    &&& r.timestamp is Some
    &&& r.nstime matches Some(nss) && nss@ == ascii_chars(
        crate::numbers::dec_digits(
            (match nstime {
                Some(v) => v,
                None => 0,
            }) as nat,
        ),
    )
    &&& r.fnctype@ == fnctype
    &&& r.solvable == Some(
        match solvable {
            Some(s) => s,
            None => 0,
        },
    )
    &&& r.data == data
    &&& r.metadata matches Some(md) && md@ == "e30="@
    &&& r._version matches Some(v) && v@ == SDK_VERSION@
}

/// Clone a list of borrowed labels (the assembly step consumes one).
fn varlbls_clone<'a>(v: &Vec<&'a str>) -> (r: Vec<&'a str>)
    ensures
        r@ == v@,
{
    let mut out: Vec<&'a str> = Vec::new();
    let n = v.len();
    let mut i: usize = 0;
    while i < n
        invariant
            n == v@.len(),
            i <= n,
            out@ == v@.take(i as int),
        decreases n - i,
    {
        out.push(v[i]);
        proof {
            assert(out@ =~= v@.take(i + 1));
        }
        i += 1;
    }
    proof {
        assert(v@.take(n as int) =~= v@);
    }
    out
}

} // verus!
