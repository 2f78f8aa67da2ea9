//! Which other instances a projectile's context may reach.
//!
//! A context holds exclusive access to its own instance, so any handle it gives to other
//! instances must never lead back to that instance. Entities are named here by their
//! identifier bits.
use vstd::prelude::*;

verus! {

/// The entities of `candidates` other than `this`, in their order.
pub fn others(this: u64, candidates: &Vec<u64>) -> (r: Vec<u64>)
    ensures
        r@ == candidates@.filter(|e: u64| e != this),
        forall|i: int| 0 <= i < r.len() ==> r[i] != this,
{
    let ghost not_this = |e: u64| e != this;
    let mut r: Vec<u64> = Vec::new();
    let mut i: usize = 0;
    while i < candidates.len()
        invariant
            i <= candidates.len(),
            not_this == (|e: u64| e != this),
            r@ == candidates@.subrange(0, i as int).filter(not_this),
        decreases candidates.len() - i,
    {
        let ghost next = candidates@.subrange(0, i + 1);
        proof {
            assert(next.drop_last() == candidates@.subrange(0, i as int));
            assert(next.last() == candidates[i as int]);
            reveal(Seq::filter);
            assert(next.filter(not_this) == (if not_this(next.last()) {
                next.drop_last().filter(not_this).push(next.last())
            } else {
                next.drop_last().filter(not_this)
            }));
        }
        if candidates[i] != this {
            r.push(candidates[i]);
        }
        i += 1;
    }
    assert(candidates@.subrange(0, candidates.len() as int) == candidates@);
    assert forall|i: int| 0 <= i < r.len() implies r[i] != this by {
        candidates@.lemma_filter_pred(not_this, i);
    }
    r
}

/// The parent of `this`: its local-space parent if it has one, otherwise its world-space
/// parent, and none where that parent is `this` itself.
pub fn parent_other_than(this: u64, local: Option<u64>, world: Option<u64>) -> (r: Option<u64>)
    ensures
        r == (match (if local is Some { local } else { world }) {
            Some(p) => if p != this { Some(p) } else { None },
            None => None,
        }),
{
    let parent = match local {
        Some(p) => Some(p),
        None => world,
    };
    match parent {
        Some(p) => if p != this { Some(p) } else { None },
        None => None,
    }
}

} // verus!
