//! Capability reduction: the build drops every capability number the
//! running kernel defines from the bounding set, one prctl per number.
//!
//! The model here proves the point of the whole exercise: after the full
//! drop sequence the bounding set is empty, whatever set the parent held.

use vstd::prelude::*;

verus! {

/// Every capability number the kernel defines, 0 through `last_cap`, in
/// the order the build drops them.
pub open spec fn cap_drop_list_spec(last_cap: u32) -> Seq<u32> {
    Seq::new((last_cap + 1) as nat, |i: int| i as u32)
}

/// The capability numbers to drop, bounded by the kernel-reported maximum
/// `last_cap` rather than a fixed literal.
pub fn cap_drop_list(last_cap: u32) -> (r: Vec<u32>)
    requires
        last_cap < u32::MAX,
    ensures
        r@ == cap_drop_list_spec(last_cap),
{
    let mut r: Vec<u32> = Vec::new();
    let mut c: u32 = 0;
    while c <= last_cap
        invariant
            last_cap < u32::MAX,
            c <= last_cap + 1,
            r@ == cap_drop_list_spec(last_cap).take(c as int),
        decreases last_cap + 1 - c,
    {
        r.push(c);
        proof {
            assert(r@ =~= cap_drop_list_spec(last_cap).take(c + 1 as int));
        }
        c = c + 1;
    }
    proof {
        assert(r@ =~= cap_drop_list_spec(last_cap));
    }
    r
}

/// The bounding set that remains after performing a sequence of drops.
pub open spec fn bounding_set_after(initial: Set<u32>, drops: Seq<u32>) -> Set<u32>
    decreases drops.len(),
{
    if drops.len() == 0 {
        initial
    } else {
        bounding_set_after(initial.remove(drops[0]), drops.drop_first())
    }
}

/// Dropping never adds a capability back.
pub proof fn lemma_bounding_set_after_subset(initial: Set<u32>, drops: Seq<u32>, c: u32)
    requires
        bounding_set_after(initial, drops).contains(c),
    ensures
        initial.contains(c),
    decreases drops.len(),
{
    if drops.len() > 0 {
        lemma_bounding_set_after_subset(initial.remove(drops[0]), drops.drop_first(), c);
    }
}

/// A capability that appears anywhere in the drop sequence is gone at
/// the end.
pub proof fn lemma_dropped_capability_gone(initial: Set<u32>, drops: Seq<u32>, c: u32)
    requires
        drops.contains(c),
    ensures
        !bounding_set_after(initial, drops).contains(c),
    decreases drops.len(),
{
    if drops[0] == c {
        if bounding_set_after(initial, drops).contains(c) {
            lemma_bounding_set_after_subset(initial.remove(c), drops.drop_first(), c);
        }
    } else {
        let i = choose|i: int| 0 <= i < drops.len() && drops[i] == c;
        assert(drops.drop_first()[i - 1] == c);
        assert(drops.drop_first().contains(c));
        lemma_dropped_capability_gone(initial.remove(drops[0]), drops.drop_first(), c);
    }
}

/// After the build drops every capability number the kernel defines, the
/// bounding set is empty — independent of which capabilities the parent
/// held, as long as each was a number the kernel defines.
pub proof fn lemma_bounding_set_emptied(initial: Set<u32>, last_cap: u32)
    requires
        forall|c: u32| initial.contains(c) ==> c <= last_cap,
        last_cap < u32::MAX,
    ensures
        bounding_set_after(initial, cap_drop_list_spec(last_cap)) =~= Set::<u32>::empty(),
{
    let drops = cap_drop_list_spec(last_cap);
    assert forall|c: u32| !bounding_set_after(initial, drops).contains(c) by {
        if bounding_set_after(initial, drops).contains(c) {
            lemma_bounding_set_after_subset(initial, drops, c);
            assert(drops[c as int] == c);
            lemma_dropped_capability_gone(initial, drops, c);
        }
    }
}

} // verus!
