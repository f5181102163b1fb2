//! The rovers of one plateau, kept by name.
//!
//! Rover records live in an arena; a hash index maps each name to the slot
//! of its record, so that a name is found in constant time while the
//! records can still be walked one by one.

use vstd::prelude::*;
use vstd::hash_map::StringHashMap;
use crate::geometry::{Point, Rover};

verus! {

/// A keyed collection of rovers: each registered name owns one record.
pub struct Fleet {
    slots: Vec<Rover>,
    index: StringHashMap<usize>,
    names: Ghost<Seq<Seq<char>>>,
}

impl View for Fleet {
    type V = Map<Seq<char>, Rover>;

    /// The rover registered under each name.
    closed spec fn view(&self) -> Map<Seq<char>, Rover> {
        Map::new(
            |n: Seq<char>| self.index@.contains_key(n),
            |n: Seq<char>| self.slots@[self.index@[n] as int],
        )
    }
}

/// Whether some rover of `rovers` stands on the cell `c`.
pub open spec fn some_rover_at(rovers: Map<Seq<char>, Rover>, c: (int, int)) -> bool {
    exists|n: Seq<char>| #[trigger] rovers.contains_key(n) && rovers[n].point@ == c
}

impl Fleet {
    /// The index and the arena agree: every indexed name points at a slot
    /// of its own, and every slot belongs to an indexed name.
    pub closed spec fn wf(&self) -> bool {
        &&& self.names@.len() == self.slots@.len()
        &&& forall|n: Seq<char>| #[trigger]
            self.index@.contains_key(n) ==> (self.index@[n] as int) < self.slots@.len()
                && self.names@[self.index@[n] as int] == n
        &&& forall|i: int|
            0 <= i < self.slots@.len() ==> self.index@.contains_key(#[trigger] self.names@[i])
                && self.index@[self.names@[i]] == i
    }

    /// A fleet without rovers.
    pub fn new() -> (fleet: Fleet)
        ensures
            fleet.wf(),
            fleet@ == Map::<Seq<char>, Rover>::empty(),
    {
        let fleet = Fleet { slots: Vec::new(), index: StringHashMap::new(), names: Ghost(Seq::empty()) };
        assert(fleet@ =~= Map::<Seq<char>, Rover>::empty());
        fleet
    }

    /// Whether a rover is registered under `name`.
    pub fn contains(&self, name: &str) -> (found: bool)
        ensures
            found == self@.contains_key(name@),
    {
        self.index.contains_key(name)
    }

    /// The rover registered under `name`, if there is one.
    pub fn get(&self, name: &str) -> (found: Option<Rover>)
        requires
            self.wf(),
        ensures
            found == (if self@.contains_key(name@) {
                Some(self@[name@])
            } else {
                None
            }),
    {
        match self.index.get(name) {
            Some(slot) => Some(self.slots[*slot]),
            None => None,
        }
    }

    /// Whether some rover stands on `point`.
    pub fn any_at(&self, point: &Point) -> (found: bool)
        requires
            self.wf(),
        ensures
            found == some_rover_at(self@, point@),
    {
        let mut i: usize = 0;
        while i < self.slots.len()
            invariant
                self.wf(),
                i <= self.slots@.len(),
                forall|j: int| 0 <= j < i ==> (#[trigger] self.slots@[j]).point != *point,
            decreases self.slots@.len() - i,
        {
            if self.slots[i].point == *point {
                proof {
                    let n = self.names@[i as int];
                    assert(self@.contains_key(n) && self@[n].point@ == point@);
                }
                return true;
            }
            i += 1;
        }
        proof {
            assert forall|n: Seq<char>| self@.contains_key(n) implies self@[n].point@ != point@ by {
                let j = self.index@[n] as int;
                assert(self.slots@[j].point != *point);
            }
        }
        false
    }

    /// Registers `rover` under a name that is still free.
    pub fn insert(&mut self, name: String, rover: Rover)
        requires
            old(self).wf(),
            !old(self)@.contains_key(name@),
        ensures
            final(self).wf(),
            final(self)@ == old(self)@.insert(name@, rover),
    {
        let slot = self.slots.len();
        let ghost key = name@;
        self.names = Ghost(self.names@.push(key));
        self.slots.push(rover);
        self.index.insert(name, slot);
        proof {
            assert forall|i: int| 0 <= i < self.slots@.len() implies self.index@.contains_key(
                #[trigger] self.names@[i],
            ) && self.index@[self.names@[i]] == i by {
                if i < slot {
                    assert(old(self).names@[i] == self.names@[i]);
                }
            }
            assert(self@ =~= old(self)@.insert(key, rover));
        }
    }

    /// Puts the rover registered under `name` on `point`, keeping its
    /// heading.
    pub fn relocate(&mut self, name: &str, point: Point)
        requires
            old(self).wf(),
            old(self)@.contains_key(name@),
        ensures
            final(self).wf(),
            final(self)@ == old(self)@.insert(
                name@,
                Rover { point, direction: old(self)@[name@].direction },
            ),
    {
        let slot: usize = *self.index.get(name).unwrap();
        let direction = self.slots[slot].direction;
        self.slots[slot] = Rover { point, direction };
        proof {
            assert(self@ =~= old(self)@.insert(name@, Rover { point, direction }));
        }
    }
}

} // verus!
