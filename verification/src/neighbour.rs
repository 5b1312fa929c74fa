//! Neighbour table: a bounded collection of known peer devices, each a pair
//! of identifier and the timestamp it was last heard from.
//!
//! The table holds at most 16 entries with pairwise distinct identifiers.
//! `observe` is idempotent in the identifier: a known peer only has its
//! timestamp refreshed. When a new peer arrives at a full table, the entry
//! with the oldest `last_seen` (the first such entry, on a tie) is evicted
//! in its favour.
//!
//! Entries live in a fixed-capacity `heapless::Vec`; the handful of methods
//! the table calls on it are trusted, and everything above them is verified.

use vstd::prelude::*;

verus! {

/// Capacity of the table, fixed at build time.
pub const NEIGHBOUR_CAPACITY: usize = 16;

/// A known peer: its identifier and when it was last heard from.
#[derive(Clone, Copy, PartialEq, Eq, Structural, Debug)]
pub struct Neighbour {
    pub id: u16,
    pub last_seen: u64,
}

#[verifier::external_type_specification]
#[verifier::external_body]
#[verifier::reject_recursive_types(T)]
pub struct ExHeaplessVec<T, const N: usize>(heapless::Vec<T, N>);

/// The entries a backing vector holds, in storage order.
pub uninterp spec fn slot_entries(v: heapless::Vec<(u16, u64), 16>) -> Seq<(u16, u64)>;

/// Relies on heapless::Vec::new: a new vector holds no entries.
#[verifier::external_body]
fn slots_new() -> (v: heapless::Vec<(u16, u64), 16>)
    ensures
        slot_entries(v) == Seq::<(u16, u64)>::empty(),
{
    heapless::Vec::new()
}

/// Relies on heapless::Vec::as_slice: the slice has one element per entry.
#[verifier::external_body]
fn slots_len(v: &heapless::Vec<(u16, u64), 16>) -> (n: usize)
    ensures
        n == slot_entries(*v).len(),
{
    v.as_slice().len()
}

/// Relies on heapless::Vec::as_slice: entries are kept in storage order.
#[verifier::external_body]
fn slots_get(v: &heapless::Vec<(u16, u64), 16>, i: usize) -> (e: (u16, u64))
    requires
        i < slot_entries(*v).len(),
    ensures
        e == slot_entries(*v)[i as int],
{
    v.as_slice()[i]
}

/// Relies on heapless::Vec::as_mut_slice: writing one slot leaves the rest.
#[verifier::external_body]
fn slots_set(v: &mut heapless::Vec<(u16, u64), 16>, i: usize, e: (u16, u64))
    requires
        i < slot_entries(*old(v)).len(),
    ensures
        slot_entries(*final(v)) == slot_entries(*old(v)).update(i as int, e),
{
    v.as_mut_slice()[i] = e;
}

/// Relies on heapless::Vec::push: appends below capacity and reports
/// success, else hands the entry back and leaves the vector unchanged.
#[verifier::external_body]
fn slots_push(v: &mut heapless::Vec<(u16, u64), 16>, e: (u16, u64)) -> (r: bool)
    ensures
        r == (slot_entries(*old(v)).len() < 16),
        r ==> slot_entries(*final(v)) == slot_entries(*old(v)).push(e),
        !r ==> slot_entries(*final(v)) == slot_entries(*old(v)),
{
    v.push(e).is_ok()
}

/// No two entries share an identifier.
pub open spec fn unique_ids(s: Seq<(u16, u64)>) -> bool {
    forall|i: int, j: int| 0 <= i < j < s.len() ==> s[i].0 != s[j].0
}

/// Some entry carries `id`.
pub open spec fn contains_id(s: Seq<(u16, u64)>, id: u16) -> bool {
    exists|i: int| 0 <= i < s.len() && s[i].0 == id
}

/// The first index whose entry carries `id`.
pub open spec fn index_of_id(s: Seq<(u16, u64)>, id: u16) -> int
    recommends
        contains_id(s, id),
    decreases s.len(),
{
    if s.len() == 0 {
        0
    } else if s[0].0 == id {
        0
    } else {
        1 + index_of_id(s.drop_first(), id)
    }
}

/// The first index among the entries with the oldest timestamp.
pub open spec fn oldest_index(s: Seq<(u16, u64)>) -> int
    recommends
        s.len() > 0,
    decreases s.len(),
{
    if s.len() <= 1 {
        0
    } else {
        let r = 1 + oldest_index(s.drop_first());
        if s[0].1 <= s[r].1 {
            0
        } else {
            r
        }
    }
}

/// What one observation does to the table's entries: refresh a known peer's
/// timestamp in place; append an unknown peer while room remains; once full,
/// evict the entry at [`oldest_index`] in the newcomer's favour.
pub open spec fn observe_model(s: Seq<(u16, u64)>, id: u16, now: u64) -> Seq<(u16, u64)> {
    if contains_id(s, id) {
        s.update(index_of_id(s, id), (id, now))
    } else if s.len() < NEIGHBOUR_CAPACITY {
        s.push((id, now))
    } else {
        s.update(oldest_index(s), (id, now))
    }
}

pub proof fn lemma_index_of_id_props(s: Seq<(u16, u64)>, id: u16)
    requires
        contains_id(s, id),
    ensures
        0 <= index_of_id(s, id) < s.len(),
        s[index_of_id(s, id)].0 == id,
        forall|j: int| 0 <= j < index_of_id(s, id) ==> s[j].0 != id,
    decreases s.len(),
{
    if s.len() > 0 && s[0].0 != id {
        let i = choose|i: int| 0 <= i < s.len() && s[i].0 == id;
        assert(s.drop_first()[i - 1] == s[i]);
        lemma_index_of_id_props(s.drop_first(), id);
        let r = index_of_id(s.drop_first(), id);
        assert(forall|j: int| 1 <= j < 1 + r ==> s[j] == s.drop_first()[j - 1]);
    }
}

pub proof fn lemma_oldest_index_props(s: Seq<(u16, u64)>)
    requires
        s.len() > 0,
    ensures
        0 <= oldest_index(s) < s.len(),
        forall|j: int| 0 <= j < s.len() ==> s[oldest_index(s)].1 <= (#[trigger] s[j]).1,
        forall|j: int| 0 <= j < oldest_index(s) ==> (#[trigger] s[j]).1 > s[oldest_index(s)].1,
    decreases s.len(),
{
    if s.len() > 1 {
        lemma_oldest_index_props(s.drop_first());
        assert(forall|j: int| 1 <= j < s.len() ==> s[j] == s.drop_first()[j - 1]);
    }
}

/// A bounded table of known peers with pairwise distinct identifiers.
pub struct NeighbourTable {
    slots: heapless::Vec<(u16, u64), 16>,
}

impl View for NeighbourTable {
    type V = Seq<(u16, u64)>;

    closed spec fn view(&self) -> Seq<(u16, u64)> {
        slot_entries(self.slots)
    }
}

impl NeighbourTable {
    /// The table never outgrows its capacity and never stores an identifier
    /// twice.
    pub open spec fn wf(self) -> bool {
        self@.len() <= NEIGHBOUR_CAPACITY && unique_ids(self@)
    }

    pub fn new() -> (t: Self)
        ensures
            t.wf(),
            t@ == Seq::<(u16, u64)>::empty(),
    {
        NeighbourTable { slots: slots_new() }
    }

    pub fn len(&self) -> (n: usize)
        ensures
            n == self@.len(),
    {
        slots_len(&self.slots)
    }

    /// Whether `id` is a known peer.
    pub fn contains(&self, id: u16) -> (r: bool)
        ensures
            r == contains_id(self@, id),
    {
        let n = slots_len(&self.slots);
        let mut i: usize = 0;
        while i < n
            invariant
                i <= n,
                n == self@.len(),
                forall|j: int| 0 <= j < i ==> self@[j].0 != id,
            decreases n - i,
        {
            if slots_get(&self.slots, i).0 == id {
                return true;
            }
            i = i + 1;
        }
        false
    }

    /// The timestamp `id` was last heard from, if it is known.
    pub fn last_seen_of(&self, id: u16) -> (r: Option<u64>)
        requires
            self.wf(),
        ensures
            match r {
                Some(t) => contains_id(self@, id) && self@[index_of_id(self@, id)] == (id, t),
                None => !contains_id(self@, id),
            },
    {
        let n = slots_len(&self.slots);
        let mut i: usize = 0;
        while i < n
            invariant
                i <= n,
                n == self@.len(),
                forall|j: int| 0 <= j < i ==> self@[j].0 != id,
            decreases n - i,
        {
            let e = slots_get(&self.slots, i);
            if e.0 == id {
                proof {
                    lemma_index_of_id_props(self@, id);
                }
                return Some(e.1);
            }
            i = i + 1;
        }
        None
    }

    /// The known peers, in storage order.
    pub fn entries(&self) -> (r: Vec<Neighbour>)
        ensures
            r@.len() == self@.len(),
            forall|i: int| 0 <= i < r@.len() ==> (#[trigger] r@[i]).id == self@[i].0 && r@[i].last_seen
                == self@[i].1,
    {
        let n = slots_len(&self.slots);
        let mut r: Vec<Neighbour> = Vec::new();
        let mut i: usize = 0;
        while i < n
            invariant
                i <= n,
                n == self@.len(),
                r@.len() == i,
                forall|j: int| 0 <= j < i ==> (#[trigger] r@[j]).id == self@[j].0 && r@[j].last_seen
                    == self@[j].1,
            decreases n - i,
        {
            let e = slots_get(&self.slots, i);
            r.push(Neighbour { id: e.0, last_seen: e.1 });
            i = i + 1;
        }
        r
    }

    /// Records that `id` was heard from at `now`, per [`observe_model`].
    pub fn observe(&mut self, id: u16, now: u64)
        requires
            old(self).wf(),
        ensures
            final(self).wf(),
            final(self)@ == observe_model(old(self)@, id, now),
    {
        let ghost s0 = self@;
        let n = slots_len(&self.slots);
        let mut i: usize = 0;
        while i < n
            invariant
                i <= n,
                n == self@.len(),
                self@ == s0,
                s0 == old(self)@,
                s0.len() <= NEIGHBOUR_CAPACITY,
                unique_ids(s0),
                forall|j: int| 0 <= j < i ==> self@[j].0 != id,
            decreases n - i,
        {
            if slots_get(&self.slots, i).0 == id {
                proof {
                    lemma_index_of_id_props(s0, id);
                    assert(index_of_id(s0, id) == i as int);
                }
                slots_set(&mut self.slots, i, (id, now));
                proof {
                    lemma_observe_preserves_wf(s0, id, now);
                }
                return;
            }
            i = i + 1;
        }
        assert(!contains_id(s0, id));
        if n < NEIGHBOUR_CAPACITY {
            let _pushed = slots_push(&mut self.slots, (id, now));
            proof {
                lemma_observe_preserves_wf(s0, id, now);
            }
        } else {
            let mut best: usize = 0;
            let mut best_seen: u64 = slots_get(&self.slots, 0).1;
            let mut k: usize = 1;
            while k < n
                invariant
                    1 <= k <= n,
                    n == self@.len(),
                    self@ == s0,
                    n >= 1,
                    best < k,
                    best_seen == self@[best as int].1,
                    forall|j: int| 0 <= j < k ==> best_seen <= self@[j].1,
                    forall|j: int| 0 <= j < best ==> self@[j].1 > best_seen,
                decreases n - k,
            {
                let seen = slots_get(&self.slots, k).1;
                if seen < best_seen {
                    best = k;
                    best_seen = seen;
                }
                k = k + 1;
            }
            proof {
                lemma_oldest_index_props(s0);
                assert(best as int == oldest_index(s0));
            }
            slots_set(&mut self.slots, best, (id, now));
            proof {
                lemma_observe_preserves_wf(s0, id, now);
            }
        }
    }
}

/// Observing a peer that is already known leaves the table's size and its
/// identifiers unchanged and refreshes only that peer's timestamp: after
/// `observe(id, t1)` then `observe(id, t2)`, every other entry stands as it
/// did, and `id`'s entry carries `t2`.
pub proof fn lemma_observe_idempotent(s: Seq<(u16, u64)>, id: u16, t1: u64, t2: u64)
    requires
        s.len() <= NEIGHBOUR_CAPACITY,
        unique_ids(s),
        t2 > t1,
    ensures
        ({
            let s1 = observe_model(s, id, t1);
            let s2 = observe_model(s1, id, t2);
            &&& s2.len() == s1.len()
            &&& forall|j: int| 0 <= j < s1.len() ==> (#[trigger] s2[j]).0 == s1[j].0
            &&& forall|j: int| 0 <= j < s1.len() && (#[trigger] s1[j]).0 != id ==> s2[j] == s1[j]
            &&& contains_id(s2, id)
            &&& s2[index_of_id(s2, id)] == (id, t2)
            &&& index_of_id(s2, id) == index_of_id(s1, id)
        }),
{
    let s1 = observe_model(s, id, t1);
    let s2 = observe_model(s1, id, t2);
    lemma_observe_preserves_wf(s, id, t1);
    lemma_index_of_id_props(s1, id);
    let x = index_of_id(s1, id);
    assert(s2 == s1.update(x, (id, t2)));
    lemma_observe_preserves_wf(s1, id, t2);
    lemma_index_of_id_props(s2, id);
    let y = index_of_id(s2, id);
    assert(forall|j: int| 0 <= j < s1.len() && j != x ==> s2[j] == s1[j]);
    assert(y == x) by {
        assert(s2[x].0 == id);
        if y < x {
            assert(s2[y] == s1[y]);
        }
    }
}

/// One observation keeps the table well formed: capacity is never exceeded
/// and identifiers stay pairwise distinct.
pub proof fn lemma_observe_preserves_wf(s: Seq<(u16, u64)>, id: u16, now: u64)
    requires
        s.len() <= NEIGHBOUR_CAPACITY,
        unique_ids(s),
    ensures
        observe_model(s, id, now).len() <= NEIGHBOUR_CAPACITY,
        unique_ids(observe_model(s, id, now)),
        contains_id(observe_model(s, id, now), id),
{
    let t = observe_model(s, id, now);
    if contains_id(s, id) {
        lemma_index_of_id_props(s, id);
        let x = index_of_id(s, id);
        assert(t[x].0 == id);
        assert(forall|i: int, j: int| 0 <= i < j < t.len() ==> t[i].0 != t[j].0) by {
            assert(forall|i: int| 0 <= i < t.len() && i != x ==> t[i] == s[i]);
            assert(s[x].0 == id);
        }
    } else if s.len() < NEIGHBOUR_CAPACITY {
        assert(t[s.len() as int].0 == id);
        assert(forall|i: int| 0 <= i < s.len() ==> t[i] == s[i] && s[i].0 != id);
    } else {
        lemma_oldest_index_props(s);
        let x = oldest_index(s);
        assert(t[x].0 == id);
        assert(forall|i: int| 0 <= i < t.len() && i != x ==> t[i] == s[i] && s[i].0 != id);
    }
}

} // verus!
