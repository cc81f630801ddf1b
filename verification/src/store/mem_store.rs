//! The in-process counting store.
//!
//! [`MemStoreInner`] keeps one [`DateCount`] record per identifier and applies
//! fixed-window expiry lazily: an expired record is replaced by a fresh one
//! (window starting now, count zero) before the increment is applied. The
//! store is modelled as a [`Map`] from the identifier's characters to its
//! record, and every operation's contract states exactly how it changes that
//! map.

use vstd::prelude::*;
use crate::store::spec_window_end;
use crate::store::window_end;

verus! {

/// A counter record: the instant (milliseconds since the Unix epoch) at which
/// the current window began, and the number of hits counted within it.
#[derive(Clone, Copy, Debug, PartialEq, Eq, Structural)]
pub struct DateCount {
    pub create_date: u64,
    pub count: u32,
}

impl DateCount {
    /// Whether the record's window, of length `ttl` milliseconds, has ended
    /// strictly before `instant`.
    pub open spec fn spec_expired(self, ttl: u64, instant: u64) -> bool {
        self.create_date + ttl < instant
    }

    /// A record whose window begins at `now` and which has counted nothing.
    pub fn fresh(now: u64) -> (r: DateCount)
        ensures
            r == (DateCount { create_date: now, count: 0u32 }),
    {
        DateCount { create_date: now, count: 0 }
    }

    /// Check whether the record has expired at the given instant.
    pub fn expired_at(&self, ttl: u64, instant: u64) -> (r: bool)
        ensures
            r == self.spec_expired(ttl, instant),
    {
        self.create_date.saturating_add(ttl) < instant
    }

    /// Check whether the record has expired at the current instant, read from
    /// the wall clock.
    pub fn expired(&self, ttl: u64) -> bool {
        self.expired_at(ttl, crate::clock::now_millis())
    }
}

/// The snapshot a store operation reports: the record it acted on and the
/// instant at which that record's window ends.
#[derive(Clone, Copy, Debug, PartialEq, Eq, Structural)]
pub struct DateCountUntil {
    pub date_count: DateCount,
    pub until: u64,
}

impl DateCountUntil {
    /// The count of the snapshot.
    pub fn count(&self) -> (r: u32)
        ensures
            r == self.date_count.count,
    {
        self.date_count.count
    }

    /// The instant the snapshot's window began. The in-process store always
    /// knows it.
    pub fn create_date(&self) -> (r: Option<u64>)
        ensures
            r == Some(self.date_count.create_date),
    {
        Some(self.date_count.create_date)
    }

    /// The instant the snapshot's window ends.
    pub fn expire_date(&self) -> (r: Option<u64>)
        ensures
            r == Some(self.until),
    {
        Some(self.until)
    }
}

/// The record stored under `k`, if any.
pub open spec fn spec_lookup(m: Map<Seq<char>, DateCount>, k: Seq<char>) -> Option<DateCount> {
    if m.dom().contains(k) {
        Some(m[k])
    } else {
        None
    }
}

/// Saturating addition on counters.
pub open spec fn spec_count_plus(c: u32, val: u32) -> u32 {
    if c + val <= u32::MAX {
        (c + val) as u32
    } else {
        u32::MAX
    }
}

/// The record an increment at `now` starts from: the stored record while its
/// window is still open, and otherwise (absent or expired) a fresh one.
pub open spec fn spec_base_record(prev: Option<DateCount>, ttl: u64, now: u64) -> DateCount {
    match prev {
        Some(rec) => if rec.spec_expired(ttl, now) {
            DateCount { create_date: now, count: 0u32 }
        } else {
            rec
        },
        None => DateCount { create_date: now, count: 0u32 },
    }
}

/// The record stored under a key after incrementing it by `val` at `now`,
/// given the record previously stored there.
pub open spec fn spec_incr_record(prev: Option<DateCount>, ttl: u64, val: u32, now: u64) -> DateCount {
    let base = spec_base_record(prev, ttl, now);
    DateCount { create_date: base.create_date, count: spec_count_plus(base.count, val) }
}

/// No two entries of the association list carry the same key.
spec fn keys_unique(s: Seq<(String, DateCount)>) -> bool {
    forall|i: int, j: int| 0 <= i < j < s.len() ==> s[i].0@ != s[j].0@
}

/// Some entry of the association list carries the key `k`.
spec fn assoc_has(s: Seq<(String, DateCount)>, k: Seq<char>) -> bool {
    exists|i: int| 0 <= i < s.len() && s[i].0@ == k
}

/// The record of an entry carrying the key `k`.
spec fn assoc_at(s: Seq<(String, DateCount)>, k: Seq<char>) -> DateCount {
    s[choose|i: int| 0 <= i < s.len() && s[i].0@ == k].1
}

/// The association list, read as a map from key to record.
spec fn assoc_map(s: Seq<(String, DateCount)>) -> Map<Seq<char>, DateCount> {
    Map::new(|k: Seq<char>| assoc_has(s, k), |k: Seq<char>| assoc_at(s, k))
}

/// With unique keys, the entry at a witnessing index is the one the map holds.
proof fn lemma_assoc_witness(s: Seq<(String, DateCount)>, k: Seq<char>, i: int)
    requires
        keys_unique(s),
        0 <= i < s.len(),
        s[i].0@ == k,
    ensures
        assoc_has(s, k),
        assoc_at(s, k) == s[i].1,
{
    assert(assoc_has(s, k));
    let j = choose|j: int| 0 <= j < s.len() && s[j].0@ == k;
    if i < j {
        assert(s[i].0@ != s[j].0@);
    }
    if j < i {
        assert(s[j].0@ != s[i].0@);
    }
}

/// Replacing the record at index `i` updates the map at that entry's key and
/// nothing else.
proof fn lemma_assoc_update(s: Seq<(String, DateCount)>, i: int, rec: DateCount)
    requires
        keys_unique(s),
        0 <= i < s.len(),
    ensures
        keys_unique(s.update(i, (s[i].0, rec))),
        assoc_map(s.update(i, (s[i].0, rec))) == assoc_map(s).insert(s[i].0@, rec),
{
    let t = s.update(i, (s[i].0, rec));
    assert forall|j: int| 0 <= j < t.len() implies t[j].0@ == s[j].0@ by {
    }
    assert(keys_unique(t));
    assert forall|k: Seq<char>| assoc_has(t, k) == assoc_has(s, k) by {
        if assoc_has(t, k) {
            let j = choose|j: int| 0 <= j < t.len() && t[j].0@ == k;
            assert(s[j].0@ == k);
            assert(assoc_has(s, k));
        }
        if assoc_has(s, k) {
            let j = choose|j: int| 0 <= j < s.len() && s[j].0@ == k;
            assert(t[j].0@ == k);
            assert(assoc_has(t, k));
        }
    }
    assert forall|k: Seq<char>| assoc_has(s, k) implies assoc_at(t, k) == assoc_map(s).insert(
        s[i].0@,
        rec,
    )[k] by {
        if k == s[i].0@ {
            lemma_assoc_witness(t, k, i);
        } else {
            let j = choose|j: int| 0 <= j < s.len() && s[j].0@ == k;
            assert(j != i);
            lemma_assoc_witness(s, k, j);
            lemma_assoc_witness(t, k, j);
        }
    }
    assert(assoc_map(t) =~= assoc_map(s).insert(s[i].0@, rec));
}

/// Appending an entry with a key not yet present inserts it into the map.
proof fn lemma_assoc_push(s: Seq<(String, DateCount)>, t: Seq<(String, DateCount)>)
    requires
        keys_unique(s),
        t.len() == s.len() + 1,
        forall|j: int| 0 <= j < s.len() ==> t[j] == s[j],
        !assoc_has(s, t[s.len() as int].0@),
    ensures
        keys_unique(t),
        assoc_map(t) == assoc_map(s).insert(t[s.len() as int].0@, t[s.len() as int].1),
{
    let n = s.len() as int;
    let k0 = t[n].0@;
    assert forall|i: int, j: int| 0 <= i < j < t.len() implies t[i].0@ != t[j].0@ by {
        if j < n {
            assert(s[i].0@ != s[j].0@);
        } else {
            if t[i].0@ == k0 {
                assert(assoc_has(s, k0));
            }
        }
    }
    assert forall|k: Seq<char>| #[trigger] assoc_has(t, k) == (assoc_has(s, k) || k == k0) by {
        if assoc_has(t, k) {
            let j = choose|j: int| 0 <= j < t.len() && t[j].0@ == k;
            if j < n {
                assert(s[j].0@ == k);
                assert(assoc_has(s, k));
            }
        }
        if assoc_has(s, k) {
            let j = choose|j: int| 0 <= j < s.len() && s[j].0@ == k;
            assert(t[j].0@ == k);
            assert(assoc_has(t, k));
        }
        if k == k0 {
            assert(t[n].0@ == k);
            assert(assoc_has(t, k));
        }
    }
    assert forall|k: Seq<char>| assoc_has(t, k) implies assoc_at(t, k) == assoc_map(s).insert(
        k0,
        t[n].1,
    )[k] by {
        if k == k0 {
            lemma_assoc_witness(t, k, n);
        } else {
            let j = choose|j: int| 0 <= j < s.len() && s[j].0@ == k;
            lemma_assoc_witness(s, k, j);
            lemma_assoc_witness(t, k, j);
        }
    }
    assert(assoc_map(t) =~= assoc_map(s).insert(k0, t[n].1));
}

/// Removing the entry at index `i` removes that entry's key from the map and
/// nothing else.
proof fn lemma_assoc_remove(s: Seq<(String, DateCount)>, i: int)
    requires
        keys_unique(s),
        0 <= i < s.len(),
    ensures
        keys_unique(s.remove(i)),
        assoc_map(s.remove(i)) == assoc_map(s).remove(s[i].0@),
{
    let t = s.remove(i);
    let k0 = s[i].0@;
    assert forall|a: int, b: int| 0 <= a < b < t.len() implies t[a].0@ != t[b].0@ by {
        let sa: int = if a < i { a } else { a + 1 };
        let sb: int = if b < i { b } else { b + 1 };
        assert(t[a] == s[sa]);
        assert(t[b] == s[sb]);
        assert(s[sa].0@ != s[sb].0@);
    }
    assert forall|k: Seq<char>| #[trigger] assoc_has(t, k) == (assoc_has(s, k) && k != k0) by {
        if assoc_has(t, k) {
            let j = choose|j: int| 0 <= j < t.len() && t[j].0@ == k;
            let sj: int = if j < i { j } else { j + 1 };
            assert(t[j] == s[sj]);
            assert(assoc_has(s, k));
            if k == k0 {
                if sj < i {
                    assert(s[sj].0@ != s[i].0@);
                } else {
                    assert(s[i].0@ != s[sj].0@);
                }
            }
        }
        if assoc_has(s, k) && k != k0 {
            let j = choose|j: int| 0 <= j < s.len() && s[j].0@ == k;
            assert(j != i);
            let tj: int = if j < i { j } else { j - 1 };
            assert(t[tj] == s[j]);
            assert(assoc_has(t, k));
        }
    }
    assert forall|k: Seq<char>| assoc_has(t, k) implies assoc_at(t, k) == assoc_at(s, k) by {
        let j = choose|j: int| 0 <= j < s.len() && s[j].0@ == k;
        lemma_assoc_witness(s, k, j);
        let tj: int = if j < i { j } else { j - 1 };
        assert(t[tj] == s[j]);
        lemma_assoc_witness(t, k, tj);
    }
    assert(assoc_map(t) =~= assoc_map(s).remove(k0));
}

/// The in-process store: an association list of identifier and record,
/// together with the window length. Every identifier occurs at most once.
#[derive(Debug, Clone)]
pub struct MemStoreInner {
    data: Vec<(String, DateCount)>,
    ttl: u64,
}

impl View for MemStoreInner {
    type V = Map<Seq<char>, DateCount>;

    closed spec fn view(&self) -> Map<Seq<char>, DateCount> {
        assoc_map(self.data@)
    }
}

impl MemStoreInner {
    /// The store's internal invariant: identifiers are not duplicated.
    pub closed spec fn wf(self) -> bool {
        keys_unique(self.data@)
    }

    /// The window length, in milliseconds.
    pub closed spec fn spec_ttl(self) -> u64 {
        self.ttl
    }

    /// Read the window length, in milliseconds.
    pub fn ttl(&self) -> (r: u64)
        ensures
            r == self.spec_ttl(),
    {
        self.ttl
    }

    /// An empty store with the given capacity hint and window length
    /// (milliseconds).
    pub fn new(capacity: usize, ttl: u64) -> (r: Self)
        ensures
            r.wf(),
            r@ == Map::<Seq<char>, DateCount>::empty(),
            r.spec_ttl() == ttl,
    {
        let r = MemStoreInner { data: Vec::with_capacity(capacity), ttl };
        proof {
            assert(r@ =~= Map::<Seq<char>, DateCount>::empty());
        }
        r
    }

    /// The index of the entry carrying `key`, if any.
    fn find_index(&self, key: &String) -> (r: Option<usize>)
        ensures
            match r {
                Some(i) => i < self.data@.len() && self.data@[i as int].0@ == key@,
                None => forall|j: int| 0 <= j < self.data@.len() ==> self.data@[j].0@ != key@,
            },
    {
        let mut i: usize = 0;
        while i < self.data.len()
            invariant
                i <= self.data@.len(),
                forall|j: int| 0 <= j < i ==> self.data@[j].0@ != key@,
            decreases self.data@.len() - i,
        {
            if self.data[i].0 == *key {
                return Some(i);
            }
            i += 1;
        }
        None
    }

    /// Add `val` to the counter stored under `key`, creating or resetting the
    /// record first when it is absent or its window has ended at `now`, and
    /// report the resulting record together with its window's end.
    pub fn incr_by(&mut self, key: String, val: u32, now: u64) -> (r: DateCountUntil)
        requires
            old(self).wf(),
        ensures
            final(self).wf(),
            final(self).spec_ttl() == old(self).spec_ttl(),
            r.date_count == spec_incr_record(
                spec_lookup(old(self)@, key@),
                old(self).spec_ttl(),
                val,
                now,
            ),
            r.until == spec_window_end(r.date_count.create_date, old(self).spec_ttl()),
            final(self)@ == old(self)@.insert(key@, r.date_count),
    {
        let ghost s0 = self.data@;
        let ghost k = key@;
        match self.find_index(&key) {
            Some(i) => {
                proof {
                    lemma_assoc_witness(s0, k, i as int);
                }
                let prev: DateCount = self.data[i].1;
                let base: DateCount = if prev.expired_at(self.ttl, now) {
                    DateCount::fresh(now)
                } else {
                    prev
                };
                let rec = DateCount {
                    create_date: base.create_date,
                    count: base.count.saturating_add(val),
                };
                self.data[i].1 = rec;
                proof {
                    lemma_assoc_update(s0, i as int, rec);
                }
                DateCountUntil { date_count: rec, until: window_end(rec.create_date, self.ttl) }
            },
            None => {
                let rec = DateCount { create_date: now, count: val };
                let until = window_end(now, self.ttl);
                self.data.push((key, rec));
                proof {
                    lemma_assoc_push(s0, self.data@);
                }
                DateCountUntil { date_count: rec, until }
            },
        }
    }

    /// Add one to the counter stored under `key`.
    pub fn incr(&mut self, key: String, now: u64) -> (r: DateCountUntil)
        requires
            old(self).wf(),
        ensures
            final(self).wf(),
            final(self).spec_ttl() == old(self).spec_ttl(),
            r.date_count == spec_incr_record(
                spec_lookup(old(self)@, key@),
                old(self).spec_ttl(),
                1u32,
                now,
            ),
            r.until == spec_window_end(r.date_count.create_date, old(self).spec_ttl()),
            final(self)@ == old(self)@.insert(key@, r.date_count),
    {
        self.incr_by(key, 1, now)
    }

    /// Remove the record stored under `key`, reporting the record and its
    /// window's end if one was present (whether or not it had expired).
    pub fn del(&mut self, key: String) -> (r: Option<DateCountUntil>)
        requires
            old(self).wf(),
        ensures
            final(self).wf(),
            final(self).spec_ttl() == old(self).spec_ttl(),
            match spec_lookup(old(self)@, key@) {
                Some(rec) => r == Some(
                    DateCountUntil {
                        date_count: rec,
                        until: spec_window_end(rec.create_date, old(self).spec_ttl()),
                    },
                ) && final(self)@ == old(self)@.remove(key@),
                None => r == None::<DateCountUntil> && final(self)@ == old(self)@,
            },
    {
        let ghost s0 = self.data@;
        let ghost k = key@;
        match self.find_index(&key) {
            Some(i) => {
                proof {
                    lemma_assoc_witness(s0, k, i as int);
                    lemma_assoc_remove(s0, i as int);
                }
                let entry = self.data.remove(i);
                Some(
                    DateCountUntil {
                        date_count: entry.1,
                        until: window_end(entry.1.create_date, self.ttl),
                    },
                )
            },
            None => None,
        }
    }

    /// Remove every record.
    pub fn clear(&mut self)
        requires
            old(self).wf(),
        ensures
            final(self).wf(),
            final(self).spec_ttl() == old(self).spec_ttl(),
            final(self)@ == Map::<Seq<char>, DateCount>::empty(),
    {
        self.data.clear();
        proof {
            assert(self@ =~= Map::<Seq<char>, DateCount>::empty());
        }
    }
}

/// Within one window, an increment raises the stored count by exactly the
/// amount, so repeated increments observe a strictly increasing sequence of
/// counts as long as the counter does not overflow.
pub proof fn lemma_monotonicity(
    m: Map<Seq<char>, DateCount>,
    ttl: u64,
    k: Seq<char>,
    val: u32,
    now: u64,
)
    requires
        m.dom().contains(k),
        !m[k].spec_expired(ttl, now),
        1 <= val,
        m[k].count + val <= u32::MAX,
    ensures
        spec_incr_record(spec_lookup(m, k), ttl, val, now).count == m[k].count + val,
        spec_incr_record(spec_lookup(m, k), ttl, val, now).count > m[k].count,
        spec_incr_record(spec_lookup(m, k), ttl, val, now).create_date == m[k].create_date,
{
}

/// Once a record's window has ended, the next increment starts a fresh window
/// at the instant of that increment and observes exactly the amount added,
/// never a continuation of the old window's count.
pub proof fn lemma_reset_on_expiry(
    m: Map<Seq<char>, DateCount>,
    ttl: u64,
    k: Seq<char>,
    val: u32,
    now: u64,
)
    requires
        m.dom().contains(k),
        m[k].create_date + ttl < now,
    ensures
        spec_incr_record(spec_lookup(m, k), ttl, val, now) == (DateCount {
            create_date: now,
            count: val,
        }),
{
}

/// Incrementing one identifier never changes the record observed for another.
pub proof fn lemma_isolation(
    m: Map<Seq<char>, DateCount>,
    k1: Seq<char>,
    k2: Seq<char>,
    rec: DateCount,
)
    requires
        k1 != k2,
    ensures
        spec_lookup(m.insert(k1, rec), k2) == spec_lookup(m, k2),
{
}

/// The map after `n` single increments of `k` at the instant `now`.
pub open spec fn spec_incr_n(
    m: Map<Seq<char>, DateCount>,
    ttl: u64,
    k: Seq<char>,
    now: u64,
    n: nat,
) -> Map<Seq<char>, DateCount>
    decreases n,
{
    if n == 0 {
        m
    } else {
        let m1 = spec_incr_n(m, ttl, k, now, (n - 1) as nat);
        m1.insert(k, spec_incr_record(spec_lookup(m1, k), ttl, 1u32, now))
    }
}

/// `n` single increments of an identifier absent from the store, applied in
/// any linearized order within one window, leave exactly the count `n`.
pub proof fn lemma_n_increments(
    m: Map<Seq<char>, DateCount>,
    ttl: u64,
    k: Seq<char>,
    now: u64,
    n: nat,
)
    requires
        !m.dom().contains(k),
        1 <= n <= u32::MAX,
    ensures
        spec_lookup(spec_incr_n(m, ttl, k, now, n), k) == Some(
            DateCount { create_date: now, count: n as u32 },
        ),
    decreases n,
{
    if n == 1 {
    } else {
        lemma_n_increments(m, ttl, k, now, (n - 1) as nat);
    }
}

} // verus!
