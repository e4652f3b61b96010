//! Safe, verified marshaling layer for the NavAbility SDK's foreign-function
//! boundary, together with the record types and pure request-building logic
//! that the boundary exposes.
//!
//! The heart of the crate is the ownership and encoding contract of the
//! cross-boundary interface: null-terminated byte buffers for text, a
//! `{pointer, length}`-style descriptor for contiguous arrays, and an owned
//! handle / borrowed reference discipline for every exposed object. Transport
//! (HTTP submission, async runtimes, console output) is out of scope and lives
//! with the callers of this library.

use vstd::prelude::*;

pub mod agent;
pub mod blob_entry;
pub mod capi;
pub mod client;
pub mod common;
pub mod deprecated;
pub mod descriptor;
pub mod factors;
pub mod time;
pub mod variable;
pub mod ids;
pub mod numbers;
pub mod queries;
pub mod text;
pub mod uploader;

verus! {

/// Version tag stamped into records this library assembles.
pub const SDK_VERSION: &'static str = "0.25";

/// Read access to the human-readable label of a node or record.
///
/// Every implementation returns a borrowed reference into the object: the
/// reference is valid only while the object lives, and reading it never
/// consumes or changes the object.
#[allow(non_snake_case)]
pub trait GetLabel {
    /// The label as the contracts see it.
    spec fn label_spec(&self) -> Seq<char>;

    /// Borrow the label.
    fn getLabel(&self) -> (r: &String)
        ensures
            r@ == self.label_spec(),
    ;
}

/// Derivation of the deterministic (name-based, version 5) identifier of a
/// node from its owner's namespace and a label.
#[allow(non_snake_case)]
pub trait GetId {
    /// True when the object carries enough well-formed state to derive
    /// identifiers (for a client: its organization label spells a UUID).
    spec fn id_wf(&self) -> bool;

    /// The derived identifier as the contracts see it.
    spec fn id_spec(&self, label: Seq<char>) -> (u64, u64);

    /// Derive the deterministic identifier for `label` under this object's
    /// namespace.
    fn getId(&self, label: &str) -> (r: crate::ids::Uuid)
        requires
            self.id_wf(),
        ensures
            (r.hi, r.lo) == self.id_spec(label@),
    ;
}

/// The uniform error type of the boundary: every fallible exported operation
/// reports its failure through one of these tags instead of aborting.
#[derive(Debug, Clone, Copy, PartialEq, Eq, Structural)]
pub enum MarshalError {
    /// A byte sequence that should have carried text was not valid UTF-8.
    InvalidUtf8,
    /// A text value destined for a null-terminated buffer contained an
    /// interior NUL byte.
    InteriorNul,
    /// A foreign buffer was not null-terminated.
    MissingNul,
    /// A string that should have spelled a hyphenated UUID did not.
    InvalidUuid,
    /// A string that should have spelled a UTC timestamp did not.
    InvalidTimestamp,
    /// A string that should have spelled a decimal number did not.
    InvalidNumber,
}

} // verus!
