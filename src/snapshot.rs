//! The per-room snapshot: identifiers of a room's resource nodes, controller
//! and mineral, kept between ticks to spare repeated searches, and rebuilt
//! when missing or too old. It is a cache; nothing depends on it for
//! correctness.

use vstd::prelude::*;

verus! {

/// What is known of a room's mineral.
#[derive(Clone, Debug, Default)]
pub struct MineralMemory {
    pub id: Option<String>,
    pub _type: Option<String>,
    pub density: Option<u8>,
}

/// A room's snapshot: its nodes, controller and mineral, by identifier.
#[derive(Clone, Debug, Default)]
pub struct RoomMemory {
    pub sources: Vec<String>,
    pub controller: Option<String>,
    pub mineral: Option<MineralMemory>,
}

/// One room's snapshot and the tick it was built at.
pub struct RoomEntry {
    pub name: String,
    pub built_at: u32,
    pub memory: RoomMemory,
}

/// Snapshots by room name, at most one per room.
pub struct RoomCache {
    pub entries: Vec<RoomEntry>,
    pub max_age: u32,
}

impl RoomCache {
    pub open spec fn wf(&self) -> bool {
        forall|i: int, j: int|
            0 <= i < self.entries@.len() && 0 <= j < self.entries@.len() && i != j
                ==> #[trigger] self.entries@[i].name@ != #[trigger] self.entries@[j].name@
    }

    pub open spec fn has(&self, name: Seq<char>) -> bool {
        exists|i: int| 0 <= i < self.entries@.len() && #[trigger] self.entries@[i].name@ == name
    }

    /// The entry kept for room `name`, if any.
    pub open spec fn entry(&self, name: Seq<char>) -> Option<RoomEntry> {
        if self.has(name) {
            Some(
                self.entries@[choose|i: int|
                    0 <= i < self.entries@.len() && #[trigger] self.entries@[i].name@ == name],
            )
        } else {
            None
        }
    }

    /// Whether the snapshot of `name` is to be rebuilt at tick `now`: there is
    /// none, or it was built `max_age` or more ticks ago (or, on a clock that
    /// went back, after `now`).
    pub open spec fn stale(&self, name: Seq<char>, now: u32) -> bool {
        match self.entry(name) {
            None => true,
            Some(e) => now < e.built_at || now - e.built_at >= self.max_age,
        }
    }

    proof fn lemma_entry_at(&self, i: int)
        requires
            self.wf(),
            0 <= i < self.entries@.len(),
        ensures
            self.entry(self.entries@[i].name@) == Some(self.entries@[i]),
    {
        let name = self.entries@[i].name@;
        assert(self.has(name));
        let j = choose|j: int| 0 <= j < self.entries@.len() && #[trigger] self.entries@[j].name@ == name;
        assert(self.entries@[j].name@ == self.entries@[i].name@);
    }

    /// An empty cache whose snapshots are rebuilt after `max_age` ticks.
    pub fn new(max_age: u32) -> (r: RoomCache)
        ensures
            r.wf(),
            r.max_age == max_age,
            forall|name: Seq<char>| #[trigger] r.entry(name) is None,
    {
        RoomCache { entries: Vec::new(), max_age }
    }

    /// Index of the entry for `name`.
    fn position(&self, name: &String) -> (r: Option<usize>)
        requires
            self.wf(),
        ensures
            r matches Some(i) ==> i < self.entries@.len() && self.entries@[i as int].name@ == name@,
            r is None ==> !self.has(name@),
    {
        let mut i: usize = 0;
        while i < self.entries.len()
            invariant
                i <= self.entries@.len(),
                forall|k: int| 0 <= k < i ==> self.entries@[k].name@ != name@,
            decreases self.entries@.len() - i,
        {
            if self.entries[i].name.eq(name) {
                return Some(i);
            }
            i += 1;
        }
        None
    }

    /// The snapshot kept for room `name`, if any.
    pub fn get(&self, name: &String) -> (r: Option<&RoomMemory>)
        requires
            self.wf(),
        ensures
            r == (match self.entry(name@) {
                Some(e) => Some(&e.memory),
                None => None::<&RoomMemory>,
            }),
    {
        match self.position(name) {
            Some(i) => {
                proof {
                    self.lemma_entry_at(i as int);
                }
                Some(&self.entries[i].memory)
            },
            None => None,
        }
    }

    /// Whether the snapshot of `name` is to be rebuilt at tick `now` (see
    /// `stale`).
    pub fn needs_rebuild(&self, name: &String, now: u32) -> (r: bool)
        requires
            self.wf(),
        ensures
            r == self.stale(name@, now),
    {
        match self.position(name) {
            Some(i) => {
                proof {
                    self.lemma_entry_at(i as int);
                }
                let built = self.entries[i].built_at;
                now < built || now - built >= self.max_age
            },
            None => true,
        }
    }

    /// Keeps `memory` as the snapshot of room `name`, built at tick `now`,
    /// in place of any earlier one; other rooms keep theirs.
    pub fn store(&mut self, name: String, memory: RoomMemory, now: u32)
        requires
            old(self).wf(),
        ensures
            final(self).wf(),
            final(self).max_age == old(self).max_age,
            final(self).entry(name@) matches Some(e) && e.built_at == now && e.memory == memory
                && e.name@ == name@,
            forall|n: Seq<char>| n != name@ ==> #[trigger] final(self).entry(n) == old(self).entry(n),
    {
        let ghost key = name@;
        let ghost before = self.entries@;
        let slot = self.position(&name);
        let entry = RoomEntry { name, built_at: now, memory };
        match slot {
            Some(i) => {
                self.entries.set(i, entry);
                proof {
                assert forall|n: Seq<char>| n != key implies #[trigger] self.has(n) == old(self).has(n) by {
                    if self.has(n) {
                        let j = choose|j: int| 0 <= j < self.entries@.len() && #[trigger] self.entries@[j].name@ == n;
                        assert(before[j].name@ == n);
                    }
                    if old(self).has(n) {
                        let j = choose|j: int| 0 <= j < before.len() && #[trigger] before[j].name@ == n;
                        assert(self.entries@[j].name@ == n);
                    }
                }
                assert forall|n: Seq<char>| n != key implies #[trigger] self.entry(n) == old(self).entry(n) by {
                    if old(self).has(n) {
                        let j = choose|j: int| 0 <= j < before.len() && #[trigger] before[j].name@ == n;
                        old(self).lemma_entry_at(j);
                        self.lemma_entry_at(j);
                    }
                }
                self.lemma_entry_at(i as int);
                }
            },
            None => {
                self.entries.push(entry);
                proof {
                let last = self.entries@.len() - 1;
                assert forall|n: Seq<char>| n != key implies #[trigger] self.has(n) == old(self).has(n) by {
                    if self.has(n) {
                        let j = choose|j: int| 0 <= j < self.entries@.len() && #[trigger] self.entries@[j].name@ == n;
                        assert(j != last);
                        assert(before[j].name@ == n);
                    }
                    if old(self).has(n) {
                        let j = choose|j: int| 0 <= j < before.len() && #[trigger] before[j].name@ == n;
                        assert(self.entries@[j].name@ == n);
                    }
                }
                assert forall|n: Seq<char>| n != key implies #[trigger] self.entry(n) == old(self).entry(n) by {
                    if old(self).has(n) {
                        let j = choose|j: int| 0 <= j < before.len() && #[trigger] before[j].name@ == n;
                        old(self).lemma_entry_at(j);
                        self.lemma_entry_at(j);
                    }
                }
                self.lemma_entry_at(last);
                }
            },
        }
    }
}

} // verus!
