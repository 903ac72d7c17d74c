//! The bookkeeping behind the pool pass: per-index classification flags, the
//! indices marked for removal, and the proof that removing those indices from
//! the highest to the lowest leaves exactly the debris whose flag kept them.

use vstd::prelude::*;
use crate::debris::{Debris, DebrisStatus};

verus! {

/// The elements of `ds` whose flag is not `Destroy`, in order.
pub open spec fn filter_flags(ds: Seq<Debris>, flags: Seq<DebrisStatus>) -> Seq<Debris>
    recommends
        ds.len() == flags.len(),
    decreases ds.len(),
{
    if ds.len() == 0 {
        Seq::<Debris>::empty()
    } else {
        let pre = filter_flags(ds.drop_last(), flags.drop_last());
        if flags.last() == DebrisStatus::Destroy {
            pre
        } else {
            pre.push(ds.last())
        }
    }
}

/// The indices whose flag is `Destroy`, in ascending order.
pub open spec fn destroy_indices(flags: Seq<DebrisStatus>) -> Seq<int>
    decreases flags.len(),
{
    if flags.len() == 0 {
        Seq::<int>::empty()
    } else {
        let pre = destroy_indices(flags.drop_last());
        if flags.last() == DebrisStatus::Destroy {
            pre.push(flags.len() - 1)
        } else {
            pre
        }
    }
}

/// The sequence left after removing the listed indices from the last one
/// backward, so every index still names its original element when its turn
/// comes.
pub open spec fn remove_desc(s: Seq<Debris>, dead: Seq<int>) -> Seq<Debris>
    decreases dead.len(),
{
    if dead.len() == 0 {
        s
    } else {
        remove_desc(s.remove(dead.last()), dead.drop_last())
    }
}

/// The removal indices are in bounds and strictly ascending.
pub proof fn lemma_destroy_indices_facts(flags: Seq<DebrisStatus>)
    ensures
        destroy_indices(flags).len() <= flags.len(),
        forall|k: int|
            0 <= k < destroy_indices(flags).len() ==> 0 <= #[trigger] destroy_indices(flags)[k]
                < flags.len(),
        forall|k1: int, k2: int|
            0 <= k1 < k2 < destroy_indices(flags).len() ==> destroy_indices(flags)[k1]
                < destroy_indices(flags)[k2],
    decreases flags.len(),
{
    if flags.len() > 0 {
        lemma_destroy_indices_facts(flags.drop_last());
    }
}

/// In a strictly ascending sequence, entries grow at least as fast as their
/// positions.
pub proof fn lemma_sorted_gap(dead: Seq<int>, a: int, b: int)
    requires
        forall|k1: int, k2: int| 0 <= k1 < k2 < dead.len() ==> dead[k1] < dead[k2],
        0 <= a <= b < dead.len(),
    ensures
        dead[b] - dead[a] >= b - a,
    decreases b - a,
{
    if a < b {
        lemma_sorted_gap(dead, a, b - 1);
    }
}

/// Removing indices that all lie before the last element leaves the last
/// element in place.
pub proof fn lemma_remove_desc_keeps_tail(s: Seq<Debris>, dead: Seq<int>)
    requires
        s.len() > 0,
        forall|k: int| 0 <= k < dead.len() ==> 0 <= #[trigger] dead[k] < s.len() - 1,
        forall|k1: int, k2: int| 0 <= k1 < k2 < dead.len() ==> dead[k1] < dead[k2],
    ensures
        remove_desc(s, dead) == remove_desc(s.drop_last(), dead).push(s.last()),
    decreases dead.len(),
{
    if dead.len() == 0 {
        assert(s.drop_last().push(s.last()) =~= s);
    } else {
        let i = dead.last();
        let s2 = s.remove(i);
        assert(s2.len() == s.len() - 1);
        assert(s2.last() == s.last());
        assert(s2.drop_last() =~= s.drop_last().remove(i));
        assert(forall|k: int|
            0 <= k < dead.drop_last().len() ==> 0 <= #[trigger] dead.drop_last()[k] < s2.len()
                - 1) by {
            assert(forall|k: int|
                0 <= k < dead.len() - 1 ==> #[trigger] dead[k] < dead[dead.len() - 1]);
        }
        lemma_remove_desc_keeps_tail(s2, dead.drop_last());
    }
}

/// Removing the `Destroy` indices from the highest to the lowest yields
/// exactly the elements whose flag kept them, in order.
pub proof fn lemma_remove_desc_is_filter(s: Seq<Debris>, flags: Seq<DebrisStatus>)
    requires
        s.len() == flags.len(),
    ensures
        remove_desc(s, destroy_indices(flags)) == filter_flags(s, flags),
    decreases s.len(),
{
    if s.len() == 0 {
    } else {
        let n = s.len() as int;
        let pre = destroy_indices(flags.drop_last());
        lemma_destroy_indices_facts(flags.drop_last());
        lemma_remove_desc_is_filter(s.drop_last(), flags.drop_last());
        if flags.last() == DebrisStatus::Destroy {
            let dd = destroy_indices(flags);
            assert(dd == pre.push(n - 1));
            assert(dd.last() == n - 1);
            assert(dd.drop_last() =~= pre);
            assert(s.remove(n - 1) =~= s.drop_last());
        } else {
            assert(destroy_indices(flags) == pre);
            lemma_remove_desc_keeps_tail(s, pre);
        }
    }
}

} // verus!
