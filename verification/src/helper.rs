//! A key/value store whose entries are scheduled for removal a fixed
//! duration after insertion.
//!
//! Every `insert` schedules one deferred removal of the inserted key for
//! one time-to-live period later. A removal is deliberately unconditional:
//! when it fires it deletes whatever value the key holds at that moment,
//! whether or not that value is the one whose insertion scheduled it. The
//! consequence — a re-inserted value can disappear before its own deadline
//! — is kept as the store's documented behavior and is stated precisely in
//! [`lemma_reinsert_hazard`].
//!
//! The store itself is single-threaded; the embedding process serializes
//! access (one exclusive lock around every operation) and drives the clock:
//! it calls [`AutoRemoveHashMap::fire_due`] once the time-to-live of the
//! oldest scheduled removal has elapsed. Time is a millisecond count
//! supplied by the caller, so every property below is stated over an
//! explicit clock.

use vstd::prelude::*;

verus! {

use vstd::hash_map::StringHashMap;

/// One scheduled removal: `key` is to be deleted from the mapping once the
/// clock reaches `at`.
#[verifier::ext_equal]
pub struct Deadline {
    pub at: int,
    pub key: Seq<char>,
}

/// The abstract state of an [`AutoRemoveHashMap`]: the live entries, the
/// removals that have been scheduled but have not fired yet (in schedule
/// order), and the store-wide time-to-live.
#[verifier::ext_equal]
pub struct StoreModel {
    pub ttl: int,
    pub entries: Map<Seq<char>, Seq<char>>,
    pub pending: Seq<Deadline>,
}

/// The abstract effect of `insert`: the mapping is updated and one removal
/// of `k` is scheduled for `now + ttl`.
pub open spec fn spec_insert(m: StoreModel, now: int, k: Seq<char>, v: Seq<char>) -> StoreModel {
    StoreModel {
        entries: m.entries.insert(k, v),
        pending: m.pending.push(Deadline { at: now + m.ttl, key: k }),
        ..m
    }
}

/// The abstract effect of `remove`: the key leaves the mapping at once;
/// scheduled removals are not touched.
pub open spec fn spec_remove(m: StoreModel, k: Seq<char>) -> StoreModel {
    StoreModel { entries: m.entries.remove(k), ..m }
}

/// The value a point lookup observes.
pub open spec fn spec_get(m: StoreModel, k: Seq<char>) -> Option<Seq<char>> {
    if m.entries.contains_key(k) {
        Some(m.entries[k])
    } else {
        None
    }
}

/// Keys with at least one scheduled removal due at or before `now`.
pub open spec fn due_keys(pending: Seq<Deadline>, now: int) -> Set<Seq<char>> {
    Set::new(
        |k: Seq<char>|
            exists|i: int|
                0 <= i < pending.len() && (#[trigger] pending[i]).at <= now && pending[i].key
                    == k,
    )
}

/// Scheduled removals that survive a firing pass at `now`: those whose
/// deadline lies strictly in the future, in their original order.
pub open spec fn still_pending(pending: Seq<Deadline>, now: int) -> Seq<Deadline>
    decreases pending.len(),
{
    if pending.len() == 0 {
        Seq::empty()
    } else {
        let rest = still_pending(pending.drop_last(), now);
        if pending.last().at > now {
            rest.push(pending.last())
        } else {
            rest
        }
    }
}

/// The abstract effect of letting every deferred removal due at `now` fire:
/// each due key leaves the mapping unconditionally, and the fired removals
/// leave the schedule.
pub open spec fn spec_fire_due(m: StoreModel, now: int) -> StoreModel {
    StoreModel {
        entries: m.entries.remove_keys(due_keys(m.pending, now)),
        pending: still_pending(m.pending, now),
        ..m
    }
}

/// A map of owned strings abstracted to a map of character sequences.
pub open spec fn map_view<V: View>(m: Map<Seq<char>, V>) -> Map<Seq<char>, V::V> {
    Map::new(|k: Seq<char>| m.dom().contains(k), |k: Seq<char>| m[k]@)
}

/// One scheduled removal as the store holds it.
struct Timer {
    fire_at: u64,
    key: String,
}

spec fn timers_view(ts: Seq<Timer>) -> Seq<Deadline> {
    ts.map_values(|t: Timer| Deadline { at: t.fire_at as int, key: t.key@ })
}

/// A mapping from keys to values in which every insertion schedules the
/// removal of its key one time-to-live period later.
pub struct AutoRemoveHashMap {
    expire: u64,
    inner: StringHashMap<String>,
    pending: Vec<Timer>,
}

impl View for AutoRemoveHashMap {
    type V = StoreModel;

    closed spec fn view(&self) -> StoreModel {
        StoreModel {
            ttl: self.expire as int,
            entries: map_view(self.inner@),
            pending: timers_view(self.pending@),
        }
    }
}

/// Inserting a key commutes with abstracting the map's values.
pub proof fn lemma_map_view_insert<V: View>(m: Map<Seq<char>, V>, k: Seq<char>, v: V)
    ensures
        map_view(m.insert(k, v)) == map_view::<V>(m).insert(k, v@),
{
    assert(map_view(m.insert(k, v)) =~= map_view::<V>(m).insert(k, v@));
}

/// Removing a key commutes with abstracting the map's values.
pub proof fn lemma_map_view_remove<V: View>(m: Map<Seq<char>, V>, k: Seq<char>)
    ensures
        map_view(m.remove(k)) == map_view::<V>(m).remove(k),
{
    assert(map_view(m.remove(k)) =~= map_view::<V>(m).remove(k));
}

proof fn lemma_timers_view_push(ts: Seq<Timer>, t: Timer)
    ensures
        timers_view(ts.push(t)) == timers_view(ts).push(
            Deadline { at: t.fire_at as int, key: t.key@ },
        ),
{
    assert(timers_view(ts.push(t)) =~= timers_view(ts).push(
        Deadline { at: t.fire_at as int, key: t.key@ },
    ));
}

impl AutoRemoveHashMap {
    /// An empty store whose entries live for `expire` milliseconds.
    pub fn new(expire: u64) -> (r: Self)
        ensures
            r@ == (StoreModel {
                ttl: expire as int,
                entries: Map::<Seq<char>, Seq<char>>::empty(),
                pending: Seq::<Deadline>::empty(),
            }),
    {
        let r = AutoRemoveHashMap { expire, inner: StringHashMap::new(), pending: Vec::new() };
        proof {
            assert(map_view(r.inner@) =~= Map::<Seq<char>, Seq<char>>::empty());
            assert(timers_view(r.pending@) =~= Seq::<Deadline>::empty());
        }
        r
    }

    /// An empty store with room reserved for `capacity` entries.
    pub fn with_capacity(expire: u64, capacity: usize) -> (r: Self)
        ensures
            r@ == (StoreModel {
                ttl: expire as int,
                entries: Map::<Seq<char>, Seq<char>>::empty(),
                pending: Seq::<Deadline>::empty(),
            }),
    {
        let r = AutoRemoveHashMap {
            expire,
            inner: StringHashMap::with_capacity(capacity),
            pending: Vec::new(),
        };
        proof {
            assert(map_view(r.inner@) =~= Map::<Seq<char>, Seq<char>>::empty());
            assert(timers_view(r.pending@) =~= Seq::<Deadline>::empty());
        }
        r
    }

    /// The store-wide time-to-live, in milliseconds.
    pub fn expire(&self) -> (r: u64)
        ensures
            r as int == self@.ttl,
    {
        self.expire
    }

    /// Point lookup; returns a copy of the value if the key is live.
    pub fn get(&self, k: &str) -> (r: Option<String>)
        ensures
            r matches Some(v) ==> spec_get(self@, k@) == Some(v@),
            r is None ==> spec_get(self@, k@) is None,
    {
        match self.inner.get(k) {
            Some(v) => Some(v.clone()),
            None => None,
        }
    }

    /// Inserts or overwrites, returns the previous value, and schedules one
    /// removal of `k` for `now + ttl` — unconditional when it fires.
    pub fn insert(&mut self, now: u64, k: String, v: String) -> (prev: Option<String>)
        requires
            now + old(self)@.ttl <= u64::MAX,
        ensures
            final(self)@ == spec_insert(old(self)@, now as int, k@, v@),
            prev matches Some(p) ==> spec_get(old(self)@, k@) == Some(p@),
            prev is None ==> spec_get(old(self)@, k@) is None,
    {
        let ghost m0: StoreModel = self@;
        let ghost kview = k@;
        let ghost vview = v@;
        let prev = match self.inner.get(k.as_str()) {
            Some(p) => Some(p.clone()),
            None => None,
        };
        let fire_at = now + self.expire;
        let ghost entries0 = self.inner@;
        let ghost timers0 = self.pending@;
        let timer = Timer { fire_at, key: k.clone() };
        let ghost gtimer = timer;
        let ghost gv = v;
        self.pending.push(timer);
        self.inner.insert(k, v);
        proof {
            lemma_map_view_insert(entries0, kview, gv);
            lemma_timers_view_push(timers0, gtimer);
            assert(self@ =~= spec_insert(m0, now as int, kview, vview));
        }
        prev
    }

    /// Immediate removal, independent of any scheduled removal of the key;
    /// a scheduled removal that later fires against the absent key is a
    /// no-op.
    pub fn remove(&mut self, k: &str) -> (prev: Option<String>)
        ensures
            final(self)@ == spec_remove(old(self)@, k@),
            prev matches Some(p) ==> spec_get(old(self)@, k@) == Some(p@),
            prev is None ==> spec_get(old(self)@, k@) is None,
    {
        let prev = match self.inner.get(k) {
            Some(p) => Some(p.clone()),
            None => None,
        };
        let ghost entries0 = self.inner@;
        self.inner.remove(k);
        proof {
            lemma_map_view_remove(entries0, k@);
        }
        prev
    }

    /// Whether the key is live.
    pub fn contains_key(&self, k: &str) -> (r: bool)
        ensures
            r == self@.entries.contains_key(k@),
    {
        self.inner.contains_key(k)
    }

    /// Lets every deferred removal that is due at `now` fire. The embedding
    /// process owns the clock and the timers: it calls this once the sleep
    /// it schedules at each insertion elapses. A removal deletes whatever
    /// value its key holds at fire time, whether or not that value is the
    /// one whose insertion scheduled it.
    pub fn fire_due(&mut self, now: u64)
        ensures
            final(self)@ == spec_fire_due(old(self)@, now as int),
    {
        let ghost orig: StoreModel = self@;
        let mut kept: Vec<Timer> = Vec::new();
        let mut i: usize = 0;
        while i < self.pending.len()
            invariant
                i <= self.pending.len(),
                self.expire as int == orig.ttl,
                timers_view(self.pending@) == orig.pending,
                timers_view(kept@) == still_pending(orig.pending.take(i as int), now as int),
                map_view(self.inner@) == orig.entries.remove_keys(
                    due_keys(orig.pending.take(i as int), now as int),
                ),
            decreases self.pending.len() - i,
        {
            let ghost d = orig.pending[i as int];
            proof {
                assert(orig.pending[i as int] == timers_view(self.pending@)[i as int]);
                assert(d.key == self.pending@[i as int].key@);
                assert(d.at == self.pending@[i as int].fire_at as int);
                lemma_take_step(orig.pending, now as int, i as int);
            }
            if self.pending[i].fire_at <= now {
                let ghost entries0 = self.inner@;
                self.inner.remove(self.pending[i].key.as_str());
                proof {
                    lemma_map_view_remove(entries0, d.key);
                    lemma_remove_keys_insert(
                        orig.entries,
                        due_keys(orig.pending.take(i as int), now as int),
                        d.key,
                    );
                }
            } else {
                let t = Timer {
                    fire_at: self.pending[i].fire_at,
                    key: self.pending[i].key.clone(),
                };
                let ghost kept0 = kept@;
                let ghost gt = t;
                kept.push(t);
                proof {
                    lemma_timers_view_push(kept0, gt);
                }
            }
            i = i + 1;
        }
        proof {
            assert(orig.pending.take(self.pending.len() as int) =~= orig.pending);
        }
        self.pending = kept;
        proof {
            assert(self@ =~= spec_fire_due(orig, now as int));
        }
    }
}

/// In one firing pass the schedule prefixes evolve step by step: a due
/// removal adds its key to the due set and leaves the survivors alone; a
/// removal that is not due yet survives and adds no due key.
proof fn lemma_take_step(p: Seq<Deadline>, now: int, i: int)
    requires
        0 <= i < p.len(),
    ensures
        p[i].at <= now ==> due_keys(p.take(i + 1), now) == due_keys(p.take(i), now).insert(
            p[i].key,
        ),
        p[i].at > now ==> due_keys(p.take(i + 1), now) == due_keys(p.take(i), now),
        p[i].at <= now ==> still_pending(p.take(i + 1), now) == still_pending(p.take(i), now),
        p[i].at > now ==> still_pending(p.take(i + 1), now) == still_pending(p.take(i), now).push(
            p[i],
        ),
{
    let a = p.take(i);
    let b = p.take(i + 1);
    assert(b.drop_last() =~= a);
    assert(b.last() == p[i]);
    if p[i].at > now {
        assert(still_pending(b, now) == still_pending(a, now).push(p[i]));
    } else {
        assert(still_pending(b, now) == still_pending(a, now));
    }
    assert forall|k: Seq<char>| due_keys(b, now).contains(k) implies due_keys(a, now).contains(k)
        || (p[i].at <= now && k == p[i].key) by {
        let j = choose|j: int| 0 <= j < b.len() && (#[trigger] b[j]).at <= now && b[j].key == k;
        if j < i {
            assert(a[j] == b[j]);
            assert(due_keys(a, now).contains(k));
        } else {
            assert(b[j] == p[i]);
        }
    }
    assert forall|k: Seq<char>| due_keys(a, now).contains(k) implies due_keys(b, now).contains(
        k,
    ) by {
        let j = choose|j: int| 0 <= j < a.len() && (#[trigger] a[j]).at <= now && a[j].key == k;
        assert(b[j] == a[j]);
    }
    if p[i].at <= now {
        assert(b[i] == p[i]);
        assert(due_keys(b, now).contains(p[i].key));
        assert(due_keys(b, now) =~= due_keys(a, now).insert(p[i].key));
    } else {
        assert(due_keys(b, now) =~= due_keys(a, now));
    }
}

proof fn lemma_remove_keys_insert(
    m: Map<Seq<char>, Seq<char>>,
    s: Set<Seq<char>>,
    k: Seq<char>,
)
    ensures
        m.remove_keys(s).remove(k) == m.remove_keys(s.insert(k)),
{
    assert(m.remove_keys(s).remove(k) =~= m.remove_keys(s.insert(k)));
}

/// An entry whose key has no scheduled removal outstanding at insertion
/// time is still visible whenever the deferred removals fire strictly
/// before its own deadline.
pub proof fn lemma_live_before_deadline(
    m: StoreModel,
    t0: int,
    k: Seq<char>,
    v: Seq<char>,
    t: int,
)
    requires
        forall|i: int| 0 <= i < m.pending.len() ==> (#[trigger] m.pending[i]).key != k,
        t < t0 + m.ttl,
    ensures
        spec_get(spec_fire_due(spec_insert(m, t0, k, v), t), k) == Some(v),
{
    let m1 = spec_insert(m, t0, k, v);
    assert(!due_keys(m1.pending, t).contains(k)) by {
        if due_keys(m1.pending, t).contains(k) {
            let i = choose|i: int|
                0 <= i < m1.pending.len() && (#[trigger] m1.pending[i]).at <= t
                    && m1.pending[i].key == k;
            if i < m.pending.len() {
                assert(m1.pending[i] == m.pending[i]);
            } else {
                assert(m1.pending[i].at == t0 + m.ttl);
            }
        }
    }
    assert(m1.entries.contains_key(k) && m1.entries[k] == v);
}

/// Once the deferred removals fire at or after an entry's deadline, the
/// entry is gone.
pub proof fn lemma_absent_after_deadline(
    m: StoreModel,
    t0: int,
    k: Seq<char>,
    v: Seq<char>,
    t: int,
)
    requires
        t0 + m.ttl <= t,
    ensures
        spec_get(spec_fire_due(spec_insert(m, t0, k, v), t), k) is None,
{
    let m1 = spec_insert(m, t0, k, v);
    let i = m.pending.len() as int;
    assert(m1.pending[i].at <= t && m1.pending[i].key == k);
    assert(due_keys(m1.pending, t).contains(k));
}

/// The re-insertion hazard, kept as the store's documented behavior: when
/// a key is written again strictly before its first removal fires, that
/// first removal still fires at the first deadline and deletes whatever
/// value the key holds then — so the second value disappears before its
/// own deadline.
pub proof fn lemma_reinsert_hazard(
    m: StoreModel,
    t0: int,
    t1: int,
    k: Seq<char>,
    v1: Seq<char>,
    v2: Seq<char>,
)
    requires
        t0 <= t1,
        t1 < t0 + m.ttl,
    ensures
        spec_get(
            spec_fire_due(spec_insert(spec_insert(m, t0, k, v1), t1, k, v2), t0 + m.ttl),
            k,
        ) is None,
{
    let m2 = spec_insert(spec_insert(m, t0, k, v1), t1, k, v2);
    let i = m.pending.len() as int;
    assert(m2.pending[i].at == t0 + m.ttl && m2.pending[i].key == k);
    assert(due_keys(m2.pending, t0 + m.ttl).contains(k));
}

/// Removing a key and immediately re-inserting it leaves the key holding
/// the new value: the removal cancels nothing and schedules nothing, so
/// the combination behaves exactly like a plain re-insertion — including
/// the re-insertion hazard, and nothing beyond it. As long as every
/// scheduled removal of the key (the new entry's included) lies strictly
/// in the future, the new value stays visible through a firing pass.
pub proof fn lemma_remove_then_reinsert(
    m: StoreModel,
    t1: int,
    k: Seq<char>,
    v: Seq<char>,
    t: int,
)
    requires
        forall|i: int|
            0 <= i < m.pending.len() && (#[trigger] m.pending[i]).key == k ==> t < m.pending[i].at,
        t < t1 + m.ttl,
    ensures
        spec_get(spec_insert(spec_remove(m, k), t1, k, v), k) == Some(v),
        spec_insert(spec_remove(m, k), t1, k, v).pending == m.pending.push(
            (Deadline { at: t1 + m.ttl, key: k }),
        ),
        spec_get(spec_fire_due(spec_insert(spec_remove(m, k), t1, k, v), t), k) == Some(v),
{
    let m2 = spec_insert(spec_remove(m, k), t1, k, v);
    assert(!due_keys(m2.pending, t).contains(k)) by {
        if due_keys(m2.pending, t).contains(k) {
            let i = choose|i: int|
                0 <= i < m2.pending.len() && (#[trigger] m2.pending[i]).at <= t
                    && m2.pending[i].key == k;
            if i < m.pending.len() {
                assert(m2.pending[i] == m.pending[i]);
            } else {
                assert(m2.pending[i].at == t1 + m.ttl);
            }
        }
    }
    assert(m2.entries.contains_key(k) && m2.entries[k] == v);
}

} // verus!
