//! Capacity-bounded connection pool with least-recently-used eviction.
//!
//! The pool maps connection identifiers to connection records and keeps a
//! total recency order over the live identifiers.  Both are represented by
//! one sequence of records: index 0 is the most-recently-used (MRU) end,
//! the last index the least-recently-used (LRU) end, and identifiers are
//! pairwise distinct, so the sequence is at once the mapping and the order.
//! Eviction always removes exactly the record at the LRU end.

use vstd::prelude::*;

use crate::lifecycle::LifecycleState;

verus! {

/// One pooled connection: its identifier, the time it was created, the time
/// it was last inserted or looked up, and its lifecycle phase.
#[derive(Clone, Copy, PartialEq, Eq, Structural, Debug)]
pub struct ConnectionRecord {
    pub id: u128,
    pub created_at: u64,
    pub last_used: u64,
    pub state: LifecycleState,
}

/// True when no two records of `s` carry the same identifier.
pub open spec fn distinct_ids(s: Seq<ConnectionRecord>) -> bool {
    forall|i: int, j: int| 0 <= i < j < s.len() ==> s[i].id != s[j].id
}

/// True when some record of `s` carries the identifier `id`.
pub open spec fn has_id(s: Seq<ConnectionRecord>, id: u128) -> bool {
    exists|i: int| 0 <= i < s.len() && s[i].id == id
}

/// The index of the record carrying `id`; meaningful when `has_id(s, id)`
/// holds and the identifiers of `s` are distinct, in which case the index
/// is unique.
pub open spec fn index_of_id(s: Seq<ConnectionRecord>, id: u128) -> int {
    choose|i: int| 0 <= i < s.len() && s[i].id == id
}

/// `s` with the record carrying `id` taken out; `s` itself when no record
/// carries `id`.
pub open spec fn without_id(s: Seq<ConnectionRecord>, id: u128) -> Seq<ConnectionRecord> {
    if has_id(s, id) {
        s.remove(index_of_id(s, id))
    } else {
        s
    }
}

/// `r` with its last-used time set to `now`; what a lookup does to the
/// record it touches.
pub open spec fn touch_record(r: ConnectionRecord, now: u64) -> ConnectionRecord {
    ConnectionRecord { last_used: now, ..r }
}

/// The identifiers of `s`, in the same order (MRU first).
pub open spec fn ids_of(s: Seq<ConnectionRecord>) -> Seq<u128> {
    s.map_values(|r: ConnectionRecord| r.id)
}

/// With distinct identifiers, `index_of_id` is exactly the index of any
/// record that carries the identifier.
pub proof fn lemma_index_of_id(s: Seq<ConnectionRecord>, id: u128, i: int)
    requires
        distinct_ids(s),
        0 <= i < s.len(),
        s[i].id == id,
    ensures
        has_id(s, id),
        index_of_id(s, id) == i,
{
    assert(has_id(s, id));
    let j = index_of_id(s, id);
    if j != i {
        assert(s[i].id != s[j].id);
    }
}

/// Taking the record carrying `id` out of a distinct sequence leaves a
/// distinct sequence in which no record carries `id`.
pub proof fn lemma_without_id(s: Seq<ConnectionRecord>, id: u128)
    requires
        distinct_ids(s),
        has_id(s, id),
    ensures
        without_id(s, id).len() == s.len() - 1,
        distinct_ids(without_id(s, id)),
        !has_id(without_id(s, id), id),
        forall|k: int|
            0 <= k < without_id(s, id).len() ==> #[trigger] without_id(s, id)[k].id != id,
{
    let i = index_of_id(s, id);
    let rest = s.remove(i);
    assert forall|k: int| 0 <= k < rest.len() implies #[trigger] rest[k].id != id by {
        if k < i {
            assert(rest[k] == s[k]);
            if s[k].id == id {
                lemma_index_of_id(s, id, k);
            }
        } else {
            assert(rest[k] == s[k + 1]);
            if s[k + 1].id == id {
                lemma_index_of_id(s, id, k + 1);
            }
        }
    }
    assert forall|p: int, q: int| 0 <= p < q < rest.len() implies rest[p].id != rest[q].id by {
        let p0: int = if p < i { p } else { p + 1 };
        let q0: int = if q < i { q } else { q + 1 };
        assert(rest[p] == s[p0]);
        assert(rest[q] == s[q0]);
    }
}

/// The bounded LRU pool itself: a capacity fixed at construction and the
/// record sequence, MRU end first.
pub struct LruConnectionPool {
    capacity: usize,
    entries: Vec<ConnectionRecord>,
}

impl View for LruConnectionPool {
    type V = Seq<ConnectionRecord>;

    closed spec fn view(&self) -> Seq<ConnectionRecord> {
        self.entries@
    }
}

impl LruConnectionPool {
    /// The capacity the pool was constructed with.
    pub closed spec fn spec_capacity(self) -> nat {
        self.capacity as nat
    }

    /// Well-formedness: never more records than the capacity allows, and no
    /// identifier twice.
    pub open spec fn wf(self) -> bool {
        &&& self@.len() <= self.spec_capacity()
        &&& distinct_ids(self@)
    }

    /// The mapping the pool represents, from identifier to record.
    pub open spec fn mapping(self) -> Map<u128, ConnectionRecord> {
        Map::new(
            |id: u128| has_id(self@, id),
            |id: u128| self@[index_of_id(self@, id)],
        )
    }

    /// The recency order the pool represents: identifiers from MRU to LRU.
    pub open spec fn order(self) -> Seq<u128> {
        ids_of(self@)
    }

    /// An empty pool that will never hold more than `capacity` records.
    pub fn new(capacity: usize) -> (pool: Self)
        ensures
            pool.wf(),
            pool@ == Seq::<ConnectionRecord>::empty(),
            pool.spec_capacity() == capacity as nat,
    {
        LruConnectionPool { capacity, entries: Vec::new() }
    }

    /// Read-only: the configured capacity.
    pub fn capacity(&self) -> (c: usize)
        ensures
            c as nat == self.spec_capacity(),
    {
        self.capacity
    }

    /// Read-only: how many records are live.
    pub fn len(&self) -> (n: usize)
        ensures
            n as nat == self@.len(),
    {
        self.entries.len()
    }

    /// The position of the record carrying `id`, if any.
    fn position_of(&self, id: u128) -> (r: Option<usize>)
        ensures
            match r {
                Some(i) => i < self@.len() && self@[i as int].id == id,
                None => !has_id(self@, id),
            },
    {
        let n = self.entries.len();
        let mut i: usize = 0;
        while i < n
            invariant
                n == self@.len(),
                i <= n,
                forall|k: int| 0 <= k < i ==> self@[k].id != id,
            decreases n - i,
        {
            if self.entries[i].id == id {
                return Some(i);
            }
            i = i + 1;
        }
        None
    }

    /// Insert `rec` at the MRU position.  A present identifier is touched
    /// and its record replaced, never duplicated.  An absent identifier in
    /// a full pool first evicts the LRU record, which is returned so the
    /// owning connection can be notified and closed; with capacity zero the
    /// inserted record itself is evicted at once and the pool stays empty.
    /// Insertion never fails.
    pub fn insert(&mut self, rec: ConnectionRecord) -> (evicted: Option<ConnectionRecord>)
        requires
            old(self).wf(),
        ensures
            final(self).wf(),
            final(self).spec_capacity() == old(self).spec_capacity(),
            has_id(old(self)@, rec.id) ==> {
                &&& evicted == Option::<ConnectionRecord>::None
                &&& final(self)@ == seq![rec] + without_id(old(self)@, rec.id)
            },
            !has_id(old(self)@, rec.id) && old(self).spec_capacity() == 0 ==> {
                &&& evicted == Some(rec)
                &&& final(self)@ == old(self)@
                &&& final(self)@.len() == 0
            },
            !has_id(old(self)@, rec.id) && old(self)@.len() < old(self).spec_capacity() ==> {
                &&& evicted == Option::<ConnectionRecord>::None
                &&& final(self)@ == seq![rec] + old(self)@
            },
            !has_id(old(self)@, rec.id) && old(self).spec_capacity() > 0
                && old(self)@.len() == old(self).spec_capacity() ==> {
                &&& evicted == Some(old(self)@.last())
                &&& final(self)@ == seq![rec] + old(self)@.drop_last()
            },
    {
        match self.position_of(rec.id) {
            Some(i) => {
                proof {
                    lemma_index_of_id(old(self)@, rec.id, i as int);
                    lemma_without_id(old(self)@, rec.id);
                }
                self.entries.remove(i);
                self.entries.insert(0, rec);
                proof {
                    let rest = without_id(old(self)@, rec.id);
                    assert(self@ =~= seq![rec] + rest);
                }
                None
            },
            None => {
                if self.capacity == 0 {
                    Some(rec)
                } else {
                    let mut evicted: Option<ConnectionRecord> = None;
                    if self.entries.len() == self.capacity {
                        let lru = self.entries.pop().unwrap();
                        assert(self@ == old(self)@.drop_last());
                        evicted = Some(lru);
                    }
                    self.entries.insert(0, rec);
                    proof {
                        if old(self)@.len() < old(self).spec_capacity() {
                            assert(self@ =~= seq![rec] + old(self)@);
                        } else {
                            assert(self@ =~= seq![rec] + old(self)@.drop_last());
                        }
                    }
                    evicted
                }
            },
        }
    }

    /// Look the identifier up.  When present, the record is moved to the
    /// MRU position, its last-used time is set to `now`, and a copy is
    /// returned; the set of live identifiers never changes.  When absent,
    /// the pool is left exactly as it was and `None` reports the miss.
    pub fn get(&mut self, id: u128, now: u64) -> (r: Option<ConnectionRecord>)
        requires
            old(self).wf(),
        ensures
            final(self).wf(),
            final(self).spec_capacity() == old(self).spec_capacity(),
            has_id(old(self)@, id) ==> {
                &&& r == Some(touch_record(old(self)@[index_of_id(old(self)@, id)], now))
                &&& final(self)@ == seq![touch_record(old(self)@[index_of_id(old(self)@, id)], now)]
                    + without_id(old(self)@, id)
            },
            !has_id(old(self)@, id) ==> {
                &&& r == Option::<ConnectionRecord>::None
                &&& final(self)@ == old(self)@
            },
    {
        match self.position_of(id) {
            Some(i) => {
                proof {
                    lemma_index_of_id(old(self)@, id, i as int);
                    lemma_without_id(old(self)@, id);
                }
                let mut rec = self.entries.remove(i);
                rec.last_used = now;
                self.entries.insert(0, rec);
                proof {
                    assert(self@ =~= seq![rec] + without_id(old(self)@, id));
                }
                Some(rec)
            },
            None => None,
        }
    }

    /// Read-only: the live identifiers from MRU to LRU, for observability
    /// and testing.
    pub fn order_ids(&self) -> (ids: Vec<u128>)
        ensures
            ids@ == ids_of(self@),
    {
        let n = self.entries.len();
        let mut ids: Vec<u128> = Vec::new();
        let mut i: usize = 0;
        while i < n
            invariant
                n == self@.len(),
                i <= n,
                ids@.len() == i,
                forall|k: int| 0 <= k < i ==> ids@[k] == self@[k].id,
            decreases n - i,
        {
            ids.push(self.entries[i].id);
            i = i + 1;
        }
        proof {
            assert(ids@ =~= ids_of(self@));
        }
        ids
    }

    /// Remove the identifier outright, for explicit release or failure
    /// cleanup, as opposed to capacity-driven eviction.  Present: the
    /// record leaves both mapping and order and is returned.  Absent: a
    /// no-op, reported as `None`, never a fault.
    pub fn remove(&mut self, id: u128) -> (removed: Option<ConnectionRecord>)
        requires
            old(self).wf(),
        ensures
            final(self).wf(),
            final(self).spec_capacity() == old(self).spec_capacity(),
            has_id(old(self)@, id) ==> {
                &&& removed == Some(old(self)@[index_of_id(old(self)@, id)])
                &&& final(self)@ == without_id(old(self)@, id)
            },
            !has_id(old(self)@, id) ==> {
                &&& removed == Option::<ConnectionRecord>::None
                &&& final(self)@ == old(self)@
            },
    {
        match self.position_of(id) {
            Some(i) => {
                proof {
                    lemma_index_of_id(old(self)@, id, i as int);
                    lemma_without_id(old(self)@, id);
                }
                let rec = self.entries.remove(i);
                Some(rec)
            },
            None => None,
        }
    }
}

/// Law: in every well-formed pool the mapping and the recency order hold
/// exactly the same identifiers — no orphans in either direction — and the
/// mapping holds at most `capacity` of them.
pub proof fn lemma_mapping_matches_order(pool: LruConnectionPool)
    requires
        pool.wf(),
    ensures
        pool.mapping().dom() == pool.order().to_set(),
        pool.mapping().dom().finite(),
        pool.mapping().dom().len() <= pool.spec_capacity(),
        pool.order().no_duplicates(),
{
    let s = pool@;
    let ids = ids_of(s);
    assert forall|x: u128| pool.mapping().dom().contains(x) <==> ids.to_set().contains(x) by {
        if has_id(s, x) {
            let i = choose|i: int| 0 <= i < s.len() && s[i].id == x;
            assert(ids[i] == x);
            assert(ids.contains(x));
        }
        if ids.contains(x) {
            let i = choose|i: int| 0 <= i < ids.len() && ids[i] == x;
            assert(s[i].id == x);
            assert(has_id(s, x));
        }
    }
    assert(pool.mapping().dom() =~= ids.to_set());
    assert forall|i: int, j: int| 0 <= i < j < ids.len() implies ids[i] != ids[j] by {
        assert(s[i].id != s[j].id);
    }
    ids.unique_seq_to_set();
}

/// Law: an eviction removes its victim for good.  When a fresh identifier
/// is inserted into a full pool, the pool afterwards — the new record in
/// front of all but the LRU record — no longer holds the evicted
/// identifier anywhere.
pub proof fn lemma_evicted_leaves_pool(pre: Seq<ConnectionRecord>, rec: ConnectionRecord)
    requires
        distinct_ids(pre),
        !has_id(pre, rec.id),
        pre.len() >= 1,
    ensures
        !has_id(seq![rec] + pre.drop_last(), pre.last().id),
{
    let post = seq![rec] + pre.drop_last();
    let victim = pre.last().id;
    assert forall|i: int| 0 <= i < post.len() implies post[i].id != victim by {
        if i == 0 {
            if rec.id == victim {
                assert(has_id(pre, rec.id));
            }
        } else {
            assert(post[i] == pre[i - 1]);
            assert(pre[i - 1].id != pre[pre.len() - 1].id);
        }
    }
}

/// Law: touching a present identifier moves its record to the MRU
/// position, so the next capacity-driven eviction — which always removes
/// the record at the LRU end — removes some other identifier.  A second
/// record must exist; in a pool of one, the touched record is the only
/// eviction candidate.
pub proof fn lemma_touch_protects_from_eviction(pre: Seq<ConnectionRecord>, id: u128, now: u64)
    requires
        distinct_ids(pre),
        has_id(pre, id),
        pre.len() >= 2,
    ensures
        (seq![touch_record(pre[index_of_id(pre, id)], now)] + without_id(pre, id)).first().id
            == id,
        (seq![touch_record(pre[index_of_id(pre, id)], now)] + without_id(pre, id)).last().id
            != id,
{
    lemma_without_id(pre, id);
    let rest = without_id(pre, id);
    let post = seq![touch_record(pre[index_of_id(pre, id)], now)] + rest;
    assert(post.last() == rest[rest.len() - 1]);
}

} // verus!
