//! A key/value store whose entries expire a fixed time after they were
//! written.
//!
//! The store reads no clock. Every operation that depends on time takes the
//! current reading `now` of a monotonic clock, in milliseconds, from its
//! caller.

use vstd::prelude::*;

use crate::text::str_eq;

verus! {

/// A value together with the clock reading at which it was written.
pub struct Stamped<V> {
    /// The stored value.
    pub value: V,
    /// The clock reading at the last write.
    pub written_at: u64,
}

/// An entry written at `written_at` is live at `now` while less than `ttl`
/// has passed since the write.
pub open spec fn is_live(written_at: u64, ttl: u64, now: u64) -> bool {
    now < written_at + ttl
}

/// What a lookup of `key` at `now` finds in the entries `m`: the value of the
/// entry if there is one and it is live, and nothing otherwise.
pub open spec fn lookup<V>(m: Map<Seq<char>, Stamped<V>>, ttl: u64, key: Seq<char>, now: u64)
    -> Option<V> {
    if m.contains_key(key) && is_live(m[key].written_at, ttl, now) {
        Some(m[key].value)
    } else {
        None
    }
}

/// The entries of `m` that are live at `now`.
pub open spec fn unexpired<V>(m: Map<Seq<char>, Stamped<V>>, ttl: u64, now: u64) -> Map<
    Seq<char>,
    Stamped<V>,
> {
    Map::new(|k: Seq<char>| m.contains_key(k) && is_live(m[k].written_at, ttl, now), |k: Seq<char>| m[k])
}

/// Once an entry has expired it stays expired: the clock does not go back.
pub proof fn lemma_expiry_is_final(written_at: u64, ttl: u64, now: u64, later: u64)
    requires
        now <= later,
        !is_live(written_at, ttl, now),
    ensures
        !is_live(written_at, ttl, later),
{
}

/// Last-write semantics: after a write of `value` under `key` at
/// `written_at`, a lookup of the key finds `value` while the write is live and
/// nothing afterwards, whatever the key held before.
pub proof fn lemma_last_write_wins<V>(
    m: Map<Seq<char>, Stamped<V>>,
    ttl: u64,
    key: Seq<char>,
    value: V,
    written_at: u64,
    now: u64,
)
    ensures
        lookup(m.insert(key, Stamped { value, written_at }), ttl, key, now) == if is_live(
            written_at,
            ttl,
            now,
        ) {
            Some(value)
        } else {
            None
        },
{
}

/// A write under one key changes no lookup of another key.
pub proof fn lemma_write_leaves_other_keys<V>(
    m: Map<Seq<char>, Stamped<V>>,
    ttl: u64,
    key: Seq<char>,
    entry: Stamped<V>,
    other: Seq<char>,
    now: u64,
)
    requires
        other != key,
    ensures
        lookup(m.insert(key, entry), ttl, other, now) == lookup(m, ttl, other, now),
{
}

/// Eviction cannot be observed: a lookup at the time of the eviction or
/// later finds what it would have found without it.
pub proof fn lemma_eviction_is_unobservable<V>(
    m: Map<Seq<char>, Stamped<V>>,
    ttl: u64,
    evicted_at: u64,
    key: Seq<char>,
    now: u64,
)
    requires
        evicted_at <= now,
    ensures
        lookup(unexpired(m, ttl, evicted_at), ttl, key, now) == lookup(m, ttl, key, now),
{
}

struct Slot<V> {
    key: String,
    entry: Stamped<V>,
}

/// A store of values by string key with time-based expiry.
///
/// A write stamps the entry with the time of the write; the entry is found
/// until `ttl` has passed since, and behaves as absent afterwards. Reading an
/// entry does not extend its life.
pub struct TtlCache<V> {
    ttl: u64,
    slots: Vec<Slot<V>>,
}

impl<V> View for TtlCache<V> {
    type V = Map<Seq<char>, Stamped<V>>;

    /// The stored entries by key, expired ones included until they are
    /// evicted.
    closed spec fn view(&self) -> Map<Seq<char>, Stamped<V>> {
        Map::new(
            |k: Seq<char>| exists|i: int| self.holds_at(k, i),
            |k: Seq<char>| self.slots@[choose|i: int| self.holds_at(k, i)].entry,
        )
    }
}

impl<V> TtlCache<V> {
    spec fn holds_at(&self, key: Seq<char>, i: int) -> bool {
        0 <= i < self.slots@.len() && self.slots@[i].key@ == key
    }

    #[verifier::type_invariant]
    spec fn distinct_keys(&self) -> bool {
        forall|i: int, j: int|
            0 <= i < j < self.slots@.len() ==> self.slots@[i].key@ != self.slots@[j].key@
    }

    /// The time that an entry lives after a write.
    pub closed spec fn ttl(&self) -> u64 {
        self.ttl
    }

    /// What a lookup of `key` at `now` finds.
    pub open spec fn live(&self, key: Seq<char>, now: u64) -> Option<V> {
        lookup(self@, self.ttl(), key, now)
    }

    /// Creates an empty store whose entries live for `ttl`.
    pub fn new(ttl: u64) -> (r: Self)
        ensures
            r@ == Map::<Seq<char>, Stamped<V>>::empty(),
            r.ttl() == ttl,
    {
        let r = TtlCache { ttl, slots: Vec::new() };
        assert(r@ =~= Map::<Seq<char>, Stamped<V>>::empty());
        r
    }

    /// The time that an entry lives after a write.
    pub fn time_to_live(&self) -> (r: u64)
        ensures
            r == self.ttl(),
    {
        self.ttl
    }

    fn find(&self, key: &str) -> (r: Option<usize>)
        ensures
            match r {
                Some(i) => self.holds_at(key@, i as int),
                None => forall|i: int| !self.holds_at(key@, i),
            },
    {
        let mut i: usize = 0;
        while i < self.slots.len()
            invariant
                i <= self.slots@.len(),
                forall|j: int| 0 <= j < i ==> self.slots@[j].key@ != key@,
            decreases self.slots@.len() - i,
        {
            if str_eq(self.slots[i].key.as_str(), key) {
                return Some(i);
            }
            i = i + 1;
        }
        None
    }

    proof fn lemma_entry_at(&self, key: Seq<char>, i: int)
        requires
            self.distinct_keys(),
            self.holds_at(key, i),
        ensures
            self@.contains_key(key),
            self@[key] == self.slots@[i].entry,
    {
        let j = choose|j: int| self.holds_at(key, j);
        assert(j == i);
    }

    /// Returns the value stored under `key` if it is live at `now`.
    pub fn get(&self, key: &str, now: u64) -> (r: Option<&V>)
        ensures
            match r {
                Some(v) => self.live(key@, now) == Some(*v),
                None => self.live(key@, now) is None,
            },
    {
        proof {
            use_type_invariant(self);
        }
        match self.find(key) {
            Some(i) => {
                proof {
                    self.lemma_entry_at(key@, i as int);
                }
                let slot = &self.slots[i];
                if expires_after(slot.entry.written_at, self.ttl, now) {
                    Some(&slot.entry.value)
                } else {
                    None
                }
            },
            None => None,
        }
    }

    /// Stores `value` under `key`, stamped with `now`. An entry that the key
    /// already had is overwritten, whether it was live or not.
    pub fn insert(&mut self, key: String, value: V, now: u64)
        ensures
            final(self)@ == old(self)@.insert(key@, Stamped { value, written_at: now }),
            final(self).ttl() == old(self).ttl(),
    {
        proof {
            use_type_invariant(&*self);
        }
        let ghost before = *self;
        let found = self.find(key.as_str());
        let slot = Slot { key, entry: Stamped { value, written_at: now } };
        let ghost written = slot;
        let mut slots: Vec<Slot<V>> = Vec::new();
        core::mem::swap(&mut self.slots, &mut slots);
        match found {
            Some(i) => {
                slots.set(i, slot);
            },
            None => {
                slots.push(slot);
            },
        }
        proof {
            assert forall|i: int, j: int| 0 <= i < j < slots@.len() implies slots@[i].key@
                != slots@[j].key@ by {
                assert(before.holds_at(before.slots@[i].key@, i) || i == before.slots@.len());
                assert(before.holds_at(before.slots@[j].key@, j) || j == before.slots@.len());
            }
        }
        self.slots = slots;
        proof {
            let at: int = match found {
                Some(i) => i as int,
                None => before.slots@.len() as int,
            };
            assert(self.holds_at(written.key@, at));
            assert forall|k: Seq<char>, j: int| j != at implies (self.holds_at(k, j)
                <==> before.holds_at(k, j)) by {}
            assert forall|k: Seq<char>, j: int| k != written.key@ implies (self.holds_at(k, j)
                <==> before.holds_at(k, j)) by {}
            self.lemma_entry_at(written.key@, at);
            assert forall|k: Seq<char>| k != written.key@ && #[trigger] self@.contains_key(k)
                implies before@.contains_key(k) && self@[k] == before@[k] by {
                let j = choose|j: int| self.holds_at(k, j);
                self.lemma_entry_at(k, j);
                assert(before.holds_at(k, j));
                before.lemma_entry_at(k, j);
            }
            assert forall|k: Seq<char>| k != written.key@ && #[trigger] before@.contains_key(k)
                implies self@.contains_key(k) by {
                let j = choose|j: int| before.holds_at(k, j);
                assert(self.holds_at(k, j));
            }
            assert(self@ =~= before@.insert(written.key@, written.entry));
        }
    }

    /// Drops every entry that is no longer live at `now`, and keeps the rest
    /// as they are.
    pub fn evict_expired(&mut self, now: u64)
        ensures
            final(self)@ == unexpired(old(self)@, old(self).ttl(), now),
            final(self).ttl() == old(self).ttl(),
    {
        proof {
            use_type_invariant(&*self);
        }
        let ghost before = *self;
        let ghost all = self.slots@;
        let ttl = self.ttl;
        let mut slots: Vec<Slot<V>> = Vec::new();
        core::mem::swap(&mut self.slots, &mut slots);
        let mut kept: Vec<Slot<V>> = Vec::new();
        // origin[m] is where kept[m] stood in `all`; place[j] is where all[j] stands in `kept`.
        let ghost mut origin: Seq<int> = Seq::empty();
        let ghost mut place: Map<int, int> = Map::empty();
        while slots.len() > 0
            invariant
                slots@.len() <= all.len(),
                slots@ == all.subrange(0, slots@.len() as int),
                origin.len() == kept@.len(),
                forall|m: int|
                    0 <= m < kept@.len() ==> slots@.len() <= #[trigger] origin[m] < all.len()
                        && all[origin[m]] == kept@[m] && is_live(
                        kept@[m].entry.written_at,
                        ttl,
                        now,
                    ),
                forall|m: int, n: int|
                    0 <= m < n < kept@.len() ==> #[trigger] origin[m] > #[trigger] origin[n],
                forall|j: int|
                    slots@.len() <= j < all.len() && is_live(all[j].entry.written_at, ttl, now)
                        ==> #[trigger] place.contains_key(j) && 0 <= place[j] < kept@.len()
                        && kept@[place[j]] == all[j],
            decreases slots@.len(),
        {
            let ghost at = slots@.len() - 1;
            let slot = slots.pop().unwrap();
            assert(slot == all[at]);
            if expires_after(slot.entry.written_at, ttl, now) {
                proof {
                    place = place.insert(at, kept@.len() as int);
                    origin = origin.push(at);
                }
                kept.push(slot);
            }
        }
        proof {
            assert forall|m: int, n: int| 0 <= m < n < kept@.len() implies kept@[m].key@
                != kept@[n].key@ by {
                assert(origin[m] > origin[n]);
                assert(before.slots@[origin[n]].key@ != before.slots@[origin[m]].key@);
            }
        }
        self.slots = kept;
        proof {
            assert forall|k: Seq<char>| #[trigger]
                self@.contains_key(k) implies unexpired(before@, ttl, now).contains_key(k)
                && self@[k] == before@[k] by {
                let m = choose|m: int| self.holds_at(k, m);
                self.lemma_entry_at(k, m);
                assert(before.holds_at(k, origin[m]));
                before.lemma_entry_at(k, origin[m]);
            }
            assert forall|k: Seq<char>| #[trigger]
                unexpired(before@, ttl, now).contains_key(k) implies self@.contains_key(k) by {
                let j = choose|j: int| before.holds_at(k, j);
                before.lemma_entry_at(k, j);
                assert(place.contains_key(j));
                assert(self.holds_at(k, place[j]));
            }
            assert(self@ =~= unexpired(before@, ttl, now));
        }
    }

    /// The number of stored entries, expired ones included until they are
    /// evicted.
    pub fn entry_count(&self) -> (r: usize)
        ensures
            self@.dom().finite(),
            r == self@.len(),
    {
        proof {
            use_type_invariant(self);
            let keys = self.slots@.map_values(|s: Slot<V>| s.key@);
            assert(keys.no_duplicates());
            keys.unique_seq_to_set();
            assert(self@.dom() =~= keys.to_set()) by {
                assert forall|k: Seq<char>| keys.to_set().contains(k) implies self@.dom().contains(
                    k,
                ) by {
                    let i = choose|i: int| 0 <= i < keys.len() && keys[i] == k;
                    assert(self.holds_at(k, i));
                }
                assert forall|k: Seq<char>| self@.dom().contains(k) implies keys.to_set().contains(
                    k,
                ) by {
                    let i = choose|i: int| self.holds_at(k, i);
                    assert(keys[i] == k);
                }
            }
        }
        self.slots.len()
    }
}

/// Whether an entry written at `written_at` is live at `now`.
fn expires_after(written_at: u64, ttl: u64, now: u64) -> (r: bool)
    ensures
        r == is_live(written_at, ttl, now),
{
    match written_at.checked_add(ttl) {
        Some(expiration) => now < expiration,
        None => true,
    }
}

} // verus!
