//! The fingers touching a window, by the id that the windowing system gives
//! each: where each one is from when it comes down until it lifts or the
//! touch sequence is cancelled.
use vstd::prelude::*;
use std::collections::HashMap;
use vstd::std_specs::hash::spec_hash_map_iter;
use vstd::std_specs::iter::IteratorSpec;

verus! {

broadcast use vstd::std_specs::hash::group_hash_axioms;

/// The fingers down on a window and the last position of each.
pub struct TouchPoints<P> {
    points: HashMap<i32, P>,
}

impl<P: Copy> TouchPoints<P> {
    /// Each finger down, by id, with its last position.
    pub closed spec fn view(&self) -> Map<i32, P> {
        self.points@
    }

    /// No finger is down.
    pub fn new() -> (r: Self)
        ensures
            r@ == Map::<i32, P>::empty(),
    {
        TouchPoints { points: HashMap::new() }
    }

    /// Finger `id` comes down at `position`.
    pub fn down(&mut self, id: i32, position: P)
        ensures
            final(self)@ == old(self)@.insert(id, position),
    {
        self.points.insert(id, position);
    }

    /// Finger `id` lifts: it is no longer tracked, and its last position is
    /// handed back; `None` when no such finger was down.
    pub fn up(&mut self, id: i32) -> (r: Option<P>)
        ensures
            final(self)@ == old(self)@.remove(id),
            r == if old(self)@.contains_key(id) {
                Some(old(self)@[id])
            } else {
                None
            },
    {
        self.points.remove(&id)
    }

    /// Finger `id` moves to `position`; `false`, and nothing changes, when no
    /// such finger is down.
    pub fn motion(&mut self, id: i32, position: P) -> (r: bool)
        ensures
            r == old(self)@.contains_key(id),
            final(self)@ == if r {
                old(self)@.insert(id, position)
            } else {
                old(self)@
            },
    {
        if self.points.contains_key(&id) {
            self.points.insert(id, position);
            true
        } else {
            false
        }
    }

    /// The touch sequence is cancelled: every finger is let go, and each is
    /// handed back once with its last position, in no particular order.
    pub fn cancel(&mut self) -> (r: Vec<(i32, P)>)
        ensures
            final(self)@ == Map::<i32, P>::empty(),
            r@.len() == old(self)@.len(),
            forall|i: int| 0 <= i < r@.len() ==> old(self)@.contains_key(#[trigger] r@[i].0) && old(self)@[r@[i].0] == r@[i].1,
            forall|k: i32| #[trigger] old(self)@.contains_key(k) ==> r@.contains((k, old(self)@[k])),
            forall|i: int, j: int| 0 <= i < j < r@.len() ==> #[trigger] r@[i].0 != #[trigger] r@[j].0,
    {
        let mut r: Vec<(i32, P)> = Vec::new();
        for kv in it: self.points.iter()
            invariant
                r@.len() == it.index(),
                forall|i: int| 0 <= i < it.index() ==> r@[i] == (*it.seq()[i].0, *it.seq()[i].1),
        {
            let (k, v) = kv;
            r.push((*k, *v));
        }
        proof {
            let v = IteratorSpec::remaining(&spec_hash_map_iter(&self.points));
            assert forall|k: i32| #[trigger] old(self)@.contains_key(k) implies r@.contains(
                (k, old(self)@[k]),
            ) by {
                assert(v.contains((&k, &old(self)@[k])));
                let i = choose|i: int| 0 <= i < v.len() && v[i] == (&k, &old(self)@[k]);
                assert(r@[i] == (k, old(self)@[k]));
            }
            assert forall|i: int, j: int| 0 <= i < j < r@.len() implies #[trigger] r@[i].0
                != #[trigger] r@[j].0 by {
                if r@[i].0 == r@[j].0 {
                    assert(r@[i] == (*v[i].0, *v[i].1));
                    assert(r@[j] == (*v[j].0, *v[j].1));
                    assert(old(self)@[*v[i].0] == *v[i].1);
                    assert(old(self)@[*v[j].0] == *v[j].1);
                    assert(v[i] == v[j]);
                    assert(v.no_duplicates());
                }
            }
        }
        self.points.clear();
        r
    }
}

/// A finger lifted right after coming down is reported where it came down,
/// and the fingers down are as before it came down, but for any earlier
/// finger with that id.
pub proof fn lemma_up_after_down<P>(fingers: Map<i32, P>, id: i32, position: P)
    ensures
        fingers.insert(id, position).contains_key(id),
        fingers.insert(id, position)[id] == position,
        fingers.insert(id, position).remove(id) == fingers.remove(id),
{
    assert(fingers.insert(id, position).remove(id) =~= fingers.remove(id));
}

/// Moving a finger that is down and then lifting it reports the position it
/// moved to.
pub proof fn lemma_up_after_motion<P>(fingers: Map<i32, P>, id: i32, position: P)
    requires
        fingers.contains_key(id),
    ensures
        fingers.insert(id, position)[id] == position,
        fingers.insert(id, position).remove(id) == fingers.remove(id),
{
    assert(fingers.insert(id, position).remove(id) =~= fingers.remove(id));
}

} // verus!
