use vstd::prelude::*;

verus! {

/// Milliseconds from `created` to `now`; zero when `now` is earlier.
pub open spec fn age(now: u64, created: u64) -> int {
    if now >= created { now - created } else { 0 }
}

/// A nonce is expired once its age exceeds the time to live.
pub open spec fn is_expired(now: u64, created: u64, ttl: u64) -> bool {
    age(now, created) > ttl
}

/// The nonces that a sweep at `now` keeps: those younger than the time to live.
pub open spec fn sweep(nonces: Map<Seq<char>, u64>, now: u64, ttl: u64) -> Map<Seq<char>, u64> {
    Map::new(|k: Seq<char>| nonces.contains_key(k) && age(now, nonces[k]) < ttl, |k: Seq<char>| nonces[k])
}

/// The nonces after `value` is recorded at `now`: when more than `capacity`
/// are stored, the expired ones are swept out first.
pub open spec fn after_record(
    nonces: Map<Seq<char>, u64>,
    capacity: usize,
    ttl: u64,
    value: Seq<char>,
    now: u64,
) -> Map<Seq<char>, u64> {
    let kept = if nonces.dom().len() > capacity { sweep(nonces, now, ttl) } else { nonces };
    kept.insert(value, now)
}

struct NonceEntry {
    value: String,
    created: u64,
}

/// Single-use nonces, each with the time it was created.
///
/// Its view maps each stored nonce to its creation time. Every mutation
/// takes `&mut self`, so a consumer holds the store alone while it removes
/// a nonce: of two consumers of one nonce at most one sees it.
pub struct NonceStore {
    entries: Vec<NonceEntry>,
    nonces: Ghost<Map<Seq<char>, u64>>,
    ttl: u64,
    capacity: usize,
}

impl View for NonceStore {
    type V = Map<Seq<char>, u64>;

    closed spec fn view(&self) -> Map<Seq<char>, u64> {
        self.nonces@
    }
}

impl NonceStore {
    /// Milliseconds for which a nonce stays valid.
    pub closed spec fn ttl_spec(&self) -> u64 {
        self.ttl
    }

    /// How many nonces may be stored before expired ones are swept out.
    pub closed spec fn capacity_spec(&self) -> usize {
        self.capacity
    }

    /// Milliseconds for which a nonce stays valid.
    pub fn ttl(&self) -> (r: u64)
        ensures
            r == self.ttl_spec(),
    {
        self.ttl
    }

    /// How many nonces may be stored before expired ones are swept out.
    pub fn capacity(&self) -> (r: usize)
        ensures
            r == self.capacity_spec(),
    {
        self.capacity
    }

    /// The entries hold each nonce once and are exactly the view.
    pub closed spec fn wf(&self) -> bool {
        &&& self.nonces@.dom().finite()
        &&& self.nonces@.dom().len() == self.entries@.len()
        &&& forall|i: int, j: int|
            0 <= i < j < self.entries@.len() ==> self.entries@[i].value@ != self.entries@[j].value@
        &&& forall|i: int|
            0 <= i < self.entries@.len() ==> {
                &&& self.nonces@.contains_key(#[trigger] self.entries@[i].value@)
                &&& self.nonces@[self.entries@[i].value@] == self.entries@[i].created
            }
        &&& forall|k: Seq<char>|
            #[trigger] self.nonces@.contains_key(k) ==> exists|i: int|
                0 <= i < self.entries@.len() && #[trigger] self.entries@[i].value@ == k
    }

    /// An empty store.
    pub fn new(ttl: u64, capacity: usize) -> (r: NonceStore)
        ensures
            r.wf(),
            r@ == Map::<Seq<char>, u64>::empty(),
            r.ttl_spec() == ttl,
            r.capacity_spec() == capacity,
    {
        let r = NonceStore { entries: Vec::new(), nonces: Ghost(Map::empty()), ttl, capacity };
        assert(r.nonces@.dom() =~= Set::empty());
        r
    }

    /// How many nonces are stored.
    pub fn len(&self) -> (r: usize)
        requires
            self.wf(),
        ensures
            r == self@.dom().len(),
    {
        self.entries.len()
    }

    /// Where `value` stands among the entries, if it is stored.
    fn position(&self, value: &String) -> (r: Option<usize>)
        requires
            self.wf(),
        ensures
            match r {
                Some(i) => i < self.entries@.len() && self.entries@[i as int].value@ == value@,
                None => !self@.contains_key(value@),
            },
    {
        let mut i: usize = 0;
        while i < self.entries.len()
            invariant
                self.wf(),
                i <= self.entries@.len(),
                forall|j: int| 0 <= j < i ==> self.entries@[j].value@ != value@,
            decreases self.entries@.len() - i,
        {
            if self.entries[i].value == *value {
                return Some(i);
            }
            i = i + 1;
        }
        None
    }

    /// Removes `value` and returns its creation time, or `None` where it is
    /// not stored (never issued, already consumed or swept out). Expiry is
    /// not checked here.
    pub fn consume(&mut self, value: &str) -> (r: Option<u64>)
        requires
            old(self).wf(),
        ensures
            final(self).wf(),
            final(self).ttl_spec() == old(self).ttl_spec(),
            final(self).capacity_spec() == old(self).capacity_spec(),
            match r {
                Some(created) => {
                    &&& old(self)@.contains_key(value@)
                    &&& created == old(self)@[value@]
                    &&& final(self)@ == old(self)@.remove(value@)
                },
                None => !old(self)@.contains_key(value@) && final(self)@ == old(self)@,
            },
    {
        let key = value.to_owned();
        match self.position(&key) {
            None => None,
            Some(i) => {
                let ghost old_entries = self.entries@;
                let ghost old_nonces = self.nonces@;
                let entry = self.entries.remove(i);
                self.nonces = Ghost(old_nonces.remove(key@));
                proof {
                    assert forall|j: int| 0 <= j < self.entries@.len() implies {
                        &&& self.nonces@.contains_key(#[trigger] self.entries@[j].value@)
                        &&& self.nonces@[self.entries@[j].value@] == self.entries@[j].created
                    } by {
                        if j < i {
                            assert(old_entries[j] == self.entries@[j]);
                        } else {
                            assert(old_entries[j + 1] == self.entries@[j]);
                        }
                    }
                    assert forall|k: Seq<char>| #[trigger] self.nonces@.contains_key(k) implies exists|j: int|
                        0 <= j < self.entries@.len() && #[trigger] self.entries@[j].value@ == k by {
                        let w = choose|w: int| 0 <= w < old_entries.len() && old_entries[w].value@ == k;
                        if w < i {
                            assert(self.entries@[w].value@ == k);
                        } else {
                            assert(w != i);
                            assert(self.entries@[w - 1].value@ == k);
                        }
                    }
                }
                Some(entry.created)
            },
        }
    }

    /// Drops every nonce whose age at `now` has reached the time to live.
    pub fn sweep_expired(&mut self, now: u64)
        requires
            old(self).wf(),
        ensures
            final(self).wf(),
            final(self).ttl_spec() == old(self).ttl_spec(),
            final(self).capacity_spec() == old(self).capacity_spec(),
            final(self)@ == sweep(old(self)@, now, old(self).ttl_spec()),
    {
        let ghost before = self@;
        let mut kept: Vec<NonceEntry> = Vec::new();
        let ghost mut model: Map<Seq<char>, u64> = Map::empty();
        proof {
            assert(model.dom() =~= Set::empty());
        }
        let n = self.entries.len();
        let mut i: usize = 0;
        while i < n
            invariant
                self.wf(),
                self@ == before,
                n == self.entries@.len(),
                i <= n,
                model.dom().finite(),
                model.dom().len() == kept@.len(),
                forall|a: int, b: int| 0 <= a < b < kept@.len() ==> kept@[a].value@ != kept@[b].value@,
                forall|m: int|
                    0 <= m < kept@.len() ==> {
                        &&& model.contains_key(#[trigger] kept@[m].value@)
                        &&& model[kept@[m].value@] == kept@[m].created
                    },
                forall|k: Seq<char>|
                    #[trigger] model.contains_key(k) ==> exists|m: int|
                        0 <= m < kept@.len() && #[trigger] kept@[m].value@ == k,
                forall|k: Seq<char>|
                    #[trigger] model.contains_key(k) <==> (before.contains_key(k) && age(now, before[k])
                        < self.ttl && exists|j: int| 0 <= j < i && #[trigger] self.entries@[j].value@ == k),
                forall|k: Seq<char>| #[trigger] model.contains_key(k) ==> model[k] == before[k],
            decreases n - i,
        {
            let created = self.entries[i].created;
            let elapsed: u64 = if now >= created { now - created } else { 0 };
            let ghost v = self.entries@[i as int].value@;
            if elapsed < self.ttl {
                proof {
                    if model.contains_key(v) {
                        let j = choose|j: int| 0 <= j < i && #[trigger] self.entries@[j].value@ == v;
                        assert(self.entries@[j].value@ != self.entries@[i as int].value@);
                    }
                }
                let value = self.entries[i].value.clone();
                let ghost old_kept = kept@;
                let ghost old_model = model;
                kept.push(NonceEntry { value, created });
                proof {
                    model = model.insert(v, created);
                    assert forall|k: Seq<char>| #[trigger] model.contains_key(k) implies exists|m: int|
                        0 <= m < kept@.len() && #[trigger] kept@[m].value@ == k by {
                        if k == v {
                            assert(kept@[old_kept.len() as int].value@ == k);
                        } else {
                            let m = choose|m: int| 0 <= m < old_kept.len() && #[trigger] old_kept[m].value@ == k;
                            assert(kept@[m].value@ == k);
                        }
                    }
                    assert forall|k: Seq<char>|
                        #[trigger] model.contains_key(k) <==> (before.contains_key(k) && age(now, before[k])
                            < self.ttl && exists|j: int| 0 <= j < i + 1 && #[trigger] self.entries@[j].value@ == k) by {
                        if k != v && (exists|j: int| 0 <= j < i + 1 && #[trigger] self.entries@[j].value@ == k) {
                            let j = choose|j: int| 0 <= j < i + 1 && #[trigger] self.entries@[j].value@ == k;
                            assert(j < i);
                        }
                        if k == v {
                            assert(self.entries@[i as int].value@ == k);
                        }
                    }
                }
            } else {
                proof {
                    assert forall|k: Seq<char>|
                        #[trigger] model.contains_key(k) <==> (before.contains_key(k) && age(now, before[k])
                            < self.ttl && exists|j: int| 0 <= j < i + 1 && #[trigger] self.entries@[j].value@ == k) by {
                        if exists|j: int| 0 <= j < i + 1 && #[trigger] self.entries@[j].value@ == k {
                            let j = choose|j: int| 0 <= j < i + 1 && #[trigger] self.entries@[j].value@ == k;
                            if j == i {
                                assert(before[k] == created);
                            }
                        }
                    }
                }
            }
            i = i + 1;
        }
        proof {
            assert forall|k: Seq<char>| #[trigger] model.contains_key(k) <==> sweep(before, now, self.ttl).contains_key(k) by {
                if before.contains_key(k) {
                    let j = choose|j: int| 0 <= j < self.entries@.len() && #[trigger] self.entries@[j].value@ == k;
                    assert(self.entries@[j].value@ == k);
                }
            }
            assert(model =~= sweep(before, now, self.ttl));
        }
        self.entries = kept;
        self.nonces = Ghost(model);
    }

    /// Records `value` as created at `now`, first sweeping out expired nonces
    /// when more than the capacity are stored. A value stored already gets
    /// the new time.
    pub fn record(&mut self, value: String, now: u64)
        requires
            old(self).wf(),
        ensures
            final(self).wf(),
            final(self).ttl_spec() == old(self).ttl_spec(),
            final(self).capacity_spec() == old(self).capacity_spec(),
            final(self)@ == after_record(old(self)@, old(self).capacity_spec(), old(self).ttl_spec(), value@, now),
    {
        if self.entries.len() > self.capacity {
            self.sweep_expired(now);
        }
        let ghost mid = self@;
        let ghost old_entries = self.entries@;
        let ghost v = value@;
        match self.position(&value) {
            Some(i) => {
                self.entries.set(i, NonceEntry { value, created: now });
                proof {
                    self.nonces@ = mid.insert(v, now);
                    assert(self.nonces@.dom() =~= mid.dom());
                    assert forall|k: Seq<char>| #[trigger] self.nonces@.contains_key(k) implies exists|j: int|
                        0 <= j < self.entries@.len() && #[trigger] self.entries@[j].value@ == k by {
                        let w = choose|w: int| 0 <= w < old_entries.len() && #[trigger] old_entries[w].value@ == k;
                        assert(self.entries@[w].value@ == k);
                    }
                }
            },
            None => {
                self.entries.push(NonceEntry { value, created: now });
                proof {
                    self.nonces@ = mid.insert(v, now);
                    assert forall|k: Seq<char>| #[trigger] self.nonces@.contains_key(k) implies exists|j: int|
                        0 <= j < self.entries@.len() && #[trigger] self.entries@[j].value@ == k by {
                        if k == v {
                            assert(self.entries@[old_entries.len() as int].value@ == k);
                        } else {
                            let w = choose|w: int| 0 <= w < old_entries.len() && #[trigger] old_entries[w].value@ == k;
                            assert(self.entries@[w].value@ == k);
                        }
                    }
                }
            },
        }
    }
}

} // verus!
