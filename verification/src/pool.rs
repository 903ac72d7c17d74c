//! The bounded debris pool: a fixed-capacity vector from the `heapless`
//! crate, kept in spawn order.  The vector itself is outside code, so its
//! contents are named by an uninterpreted sequence and every operation the
//! game uses goes through a small trusted wrapper whose contract states what
//! the crate's source shows.

use vstd::prelude::*;
use crate::debris::Debris;

verus! {

/// Capacity of the debris pool; pushes beyond it are silently dropped.
pub const POOL_CAPACITY: usize = 50;

#[verifier::external_type_specification]
#[verifier::external_body]
#[verifier::reject_recursive_types(T)]
pub struct ExHeaplessVec<T, const N: usize>(heapless::Vec<T, N>);

/// The debris a pool holds, oldest (first spawned) first.
pub uninterp spec fn pool_seq(v: heapless::Vec<Debris, 50>) -> Seq<Debris>;

/// Relies on `heapless::Vec::new`: a freshly created vector is empty.
#[verifier::external_body]
pub(crate) fn pool_new() -> (v: heapless::Vec<Debris, 50>)
    ensures
        pool_seq(v) == Seq::<Debris>::empty(),
{
    heapless::Vec::new()
}

/// Relies on `heapless::Vec`'s slice view: `len` is the number of elements.
#[verifier::external_body]
pub(crate) fn pool_len(v: &heapless::Vec<Debris, 50>) -> (n: usize)
    ensures
        n == pool_seq(*v).len(),
{
    v.len()
}

/// Relies on `heapless::Vec`'s slice indexing: element `i` of the vector.
#[verifier::external_body]
pub(crate) fn pool_get(v: &heapless::Vec<Debris, 50>, i: usize) -> (d: Debris)
    requires
        i < pool_seq(*v).len(),
    ensures
        d == pool_seq(*v)[i as int],
{
    v[i]
}

/// Relies on `heapless::Vec`'s mutable slice indexing: overwrites element
/// `i` and moves nothing else.
#[verifier::external_body]
pub(crate) fn pool_set(v: &mut heapless::Vec<Debris, 50>, i: usize, d: Debris)
    requires
        i < pool_seq(*old(v)).len(),
    ensures
        pool_seq(*final(v)) == pool_seq(*old(v)).update(i as int, d),
{
    v[i] = d;
}

/// Relies on `heapless::Vec::push`: appends while below the capacity, and
/// otherwise hands the item back and leaves the vector unchanged.
#[verifier::external_body]
pub(crate) fn pool_push(v: &mut heapless::Vec<Debris, 50>, d: Debris) -> (ok: bool)
    ensures
        ok == (pool_seq(*old(v)).len() < POOL_CAPACITY),
        ok ==> pool_seq(*final(v)) == pool_seq(*old(v)).push(d),
        !ok ==> pool_seq(*final(v)) == pool_seq(*old(v)),
{
    v.push(d).is_ok()
}

/// Relies on `heapless::Vec::remove`: removes element `i` (which must exist)
/// and shifts the elements after it one place down.
#[verifier::external_body]
pub(crate) fn pool_remove(v: &mut heapless::Vec<Debris, 50>, i: usize) -> (d: Debris)
    requires
        i < pool_seq(*old(v)).len(),
    ensures
        d == pool_seq(*old(v))[i as int],
        pool_seq(*final(v)) == pool_seq(*old(v)).remove(i as int),
{
    v.remove(i)
}

/// Relies on `heapless::Vec::clear`: removes every element.
#[verifier::external_body]
pub(crate) fn pool_clear(v: &mut heapless::Vec<Debris, 50>)
    ensures
        pool_seq(*final(v)) == Seq::<Debris>::empty(),
{
    v.clear()
}

} // verus!
