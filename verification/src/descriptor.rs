//! Contiguous-buffer marshaler: hands a native growable collection to the
//! foreign side as a `{pointer, length}`-style descriptor.
//!
//! [`RVec`] owns the elements it describes; its length is always the exact
//! element count. Reading happens through [`length`] and [`get_index`], and
//! the descriptor is released exactly once by passing it back by value to
//! [`free_rvec`], which runs every element's teardown. Out-of-range access
//! is excluded statically by `get_index`'s precondition instead of being
//! left undefined.

use vstd::prelude::*;

verus! {

/// Descriptor for a contiguous run of `T` values, produced from a native
/// collection. The foreign side sees only the run's length and its elements
/// by index; the backing allocation stays owned by the descriptor until it
/// is released.
#[derive(Debug)]
pub struct RVec<T> {
    items: Vec<T>,
}

impl<T> View for RVec<T> {
    type V = Seq<T>;

    closed spec fn view(&self) -> Seq<T> {
        self.items@
    }
}

/// Convert a growable collection into a fixed descriptor.
///
/// The descriptor reports exactly the collection's element count (excess
/// capacity is irrelevant to the contract and dropped), and the elements
/// keep their order.
pub fn vec_to_ffi<T>(v: Vec<T>) -> (r: RVec<T>)
    ensures
        r@ == v@,
{
    RVec { items: v }
}

/// The exact number of elements the descriptor describes.
pub fn length<T>(rv: &RVec<T>) -> (n: usize)
    ensures
        n == rv@.len(),
{
    rv.items.len()
}

/// Borrow the element at `index`.
///
/// The index must be in range: this boundary makes the bounds obligation a
/// static precondition on the caller rather than undefined behavior. The
/// returned reference borrows from the descriptor and must not outlive it;
/// since [`free_rvec`] consumes the descriptor by value, a read after
/// release is rejected at compile time rather than being use-after-free.
pub fn get_index<'a, T>(rv: &'a RVec<T>, index: usize) -> (r: &'a T)
    requires
        index < rv@.len(),
    ensures
        *r == rv@[index as int],
{
    &rv.items[index]
}

/// Release a descriptor.
///
/// Consumes the descriptor by value, freeing the backing allocation and
/// running the destructor of each of its elements exactly once. The move
/// discipline makes a second release impossible, and there is no null
/// descriptor to guard against.
pub fn free_rvec<T>(rv: RVec<T>) {
    let _ = rv;
}

} // verus!
