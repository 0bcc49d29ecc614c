//! The latest reading of every sensor that was heard.

use std::collections::HashMap;
use vstd::prelude::*;
use vstd::std_specs::hash::spec_values_iter;
use vstd::std_specs::iter::IteratorSpec;

use crate::reading::HibouAir;

verus! {

/// The mathematical value of a registry.
pub struct RegistryView {
    /// The latest reading of each board, by board identifier.
    pub readings: Map<u32, HibouAir>,
    /// The time of the last update; none before the first.
    pub last_update: Option<i64>,
    /// The number of readings taken in, held at `u64::MAX`.
    pub accepted: u64,
}

/// `count` plus one, held at the largest value a counter can take.
pub open spec fn bump(count: u64) -> u64 {
    if count < u64::MAX {
        (count + 1) as u64
    } else {
        count
    }
}

impl RegistryView {
    /// The registry that holds nothing.
    pub open spec fn empty() -> RegistryView {
        RegistryView { readings: Map::empty(), last_update: None, accepted: 0 }
    }

    /// This registry after it took in `reading` at the time `now`: the
    /// reading stands under its board identifier, in place of any reading
    /// that stood there.
    pub open spec fn upsert(self, reading: HibouAir, now: i64) -> RegistryView {
        RegistryView {
            readings: self.readings.insert(reading.spec_id(), reading),
            last_update: Some(now),
            accepted: bump(self.accepted),
        }
    }

    /// Whether every reading is stored under its own identifier, and
    /// finitely many are stored.
    pub open spec fn keyed_by_id(self) -> bool {
        &&& self.readings.dom().finite()
        &&& forall|id: u32| #[trigger]
            self.readings.contains_key(id) ==> self.readings[id].spec_id() == id
    }
}

/// The latest reading per board identifier, the time of the last update
/// and the number of readings taken in.
pub struct SensorRegistry {
    readings: HashMap<u32, HibouAir>,
    last_update: Option<i64>,
    accepted: u64,
}

impl View for SensorRegistry {
    type V = RegistryView;

    closed spec fn view(&self) -> RegistryView {
        RegistryView {
            readings: self.readings@,
            last_update: self.last_update,
            accepted: self.accepted,
        }
    }
}

/// No two identifiers share a reading where every reading is stored
/// under its own identifier.
proof fn lemma_keyed_is_injective(registry: RegistryView)
    requires
        registry.keyed_by_id(),
    ensures
        registry.readings.is_injective(),
{
}

impl SensorRegistry {
    #[verifier::type_invariant]
    spec fn well_formed(&self) -> bool {
        self@.keyed_by_id()
    }

    /// A registry that holds nothing.
    pub fn new() -> (r: SensorRegistry)
        ensures
            r@ == RegistryView::empty(),
    {
        SensorRegistry { readings: HashMap::new(), last_update: None, accepted: 0 }
    }

    /// Stores `reading` under its board identifier, in place of any
    /// reading stored there before, and records `now` as the time of the
    /// last update.
    pub fn upsert(&mut self, reading: HibouAir, now: i64)
        ensures
            final(self)@ == old(self)@.upsert(reading, now),
    {
        broadcast use vstd::std_specs::hash::group_hash_axioms;

        proof {
            use_type_invariant(&*self);
        }
        let id: u32 = reading.get_id();
        let accepted: u64 = if self.accepted < u64::MAX {
            self.accepted + 1
        } else {
            self.accepted
        };
        let mut readings = HashMap::new();
        std::mem::swap(&mut readings, &mut self.readings);
        readings.insert(id, reading);
        *self = SensorRegistry { readings, last_update: Some(now), accepted };
    }

    /// The reading stored for the board `id`.
    pub fn get(&self, id: u32) -> (r: Option<HibouAir>)
        ensures
            r == (if self@.readings.contains_key(id) {
                Some(self@.readings[id])
            } else {
                None
            }),
            r matches Some(reading) ==> reading.spec_id() == id,
    {
        broadcast use vstd::std_specs::hash::group_hash_axioms;

        proof {
            use_type_invariant(self);
        }
        match self.readings.get(&id) {
            Some(reading) => Some(*reading),
            None => None,
        }
    }

    /// The number of boards that have a reading.
    pub fn len(&self) -> (r: usize)
        ensures
            r == self@.readings.len(),
            self@.keyed_by_id(),
    {
        broadcast use vstd::std_specs::hash::group_hash_axioms;

        proof {
            use_type_invariant(self);
        }
        self.readings.len()
    }

    /// The stored readings, one per board, in no particular order.
    pub fn snapshot(&self) -> (r: Vec<HibouAir>)
        ensures
            r@.len() == self@.readings.len(),
            r@.to_set() == self@.readings.values(),
            r@.no_duplicates(),
            forall|i: int|
                0 <= i < r@.len() ==> self@.readings.contains_key((#[trigger] r@[i]).spec_id())
                    && self@.readings[r@[i].spec_id()] == r@[i],
    {
        broadcast use vstd::std_specs::hash::group_hash_axioms;

        proof {
            use_type_invariant(self);
        }
        let mut out: Vec<HibouAir> = Vec::new();
        let ghost all: Seq<HibouAir> = spec_values_iter(&self.readings).remaining().unref();
        for reading in it: self.readings.values()
            invariant
                it.seq().unref() == all,
                out@ == all.take(it.index()),
        {
            out.push(*reading);
        }
        proof {
            assert(out@ =~= all);
            lemma_keyed_is_injective(self@);
            self.readings@.lemma_injective_values_len();
            out@.lemma_no_dup_set_cardinality();
            assert forall|i: int| 0 <= i < out@.len() implies self@.readings.contains_key(
                (#[trigger] out@[i]).spec_id(),
            ) && self@.readings[out@[i].spec_id()] == out@[i] by {
                assert(out@.to_set().contains(out@[i]));
                assert(self@.readings.values().contains(out@[i]));
            }
        }
        out
    }

    /// The time of the last update.
    pub fn last_update(&self) -> (r: Option<i64>)
        ensures
            r == self@.last_update,
    {
        self.last_update
    }

    /// The number of readings taken in so far.
    pub fn accepted(&self) -> (r: u64)
        ensures
            r == self@.accepted,
    {
        self.accepted
    }
}

/// The board identifiers of the readings `taken`.
pub open spec fn ids_seen(taken: Seq<(HibouAir, i64)>) -> Set<u32> {
    taken.map_values(|entry: (HibouAir, i64)| entry.0.spec_id()).to_set()
}

/// The registry `start` after it took in the readings `taken`, each with
/// its time, in order.
pub open spec fn after_all(start: RegistryView, taken: Seq<(HibouAir, i64)>) -> RegistryView
    decreases taken.len(),
{
    if taken.len() == 0 {
        start
    } else {
        after_all(start, taken.drop_last()).upsert(taken.last().0, taken.last().1)
    }
}

/// Of two readings of one board, taken in one after the other, only the
/// second stays: the registry is as if the first had never come, but for
/// the count of readings taken in.
pub proof fn lemma_upsert_twice(
    registry: RegistryView,
    first: HibouAir,
    earlier: i64,
    second: HibouAir,
    later: i64,
)
    requires
        first.spec_id() == second.spec_id(),
    ensures
        registry.upsert(first, earlier).upsert(second, later).readings == registry.upsert(
            second,
            later,
        ).readings,
        registry.upsert(first, earlier).upsert(second, later).readings[second.spec_id()]
            == second,
        registry.upsert(first, earlier).upsert(second, later).readings.dom() == registry.upsert(
            first,
            earlier,
        ).readings.dom(),
        registry.upsert(first, earlier).upsert(second, later).last_update == Some(later),
{
    let once = registry.upsert(first, earlier);
    let twice = once.upsert(second, later);
    assert(twice.readings =~= registry.upsert(second, later).readings);
    assert(twice.readings.dom() =~= once.readings.dom());
}

/// Taking in a reading keeps every reading under its own identifier.
pub proof fn lemma_upsert_keyed(registry: RegistryView, reading: HibouAir, now: i64)
    requires
        registry.keyed_by_id(),
    ensures
        registry.upsert(reading, now).keyed_by_id(),
{
}

/// A registry that began empty holds exactly one reading for every board
/// identifier it has seen, so it never holds more readings than there are
/// distinct identifiers, nor more than it took in; and every reading is
/// stored under its own identifier.
pub proof fn lemma_one_reading_per_board(taken: Seq<(HibouAir, i64)>)
    ensures
        after_all(RegistryView::empty(), taken).readings.dom() == ids_seen(taken),
        after_all(RegistryView::empty(), taken).readings.len() == ids_seen(taken).len(),
        after_all(RegistryView::empty(), taken).readings.len() <= taken.len(),
        after_all(RegistryView::empty(), taken).keyed_by_id(),
    decreases taken.len(),
{
    let ids = taken.map_values(|entry: (HibouAir, i64)| entry.0.spec_id());
    let now = after_all(RegistryView::empty(), taken);
    if taken.len() == 0 {
        assert(now.readings.dom() =~= ids_seen(taken));
    } else {
        let shorter = taken.drop_last();
        let before = after_all(RegistryView::empty(), shorter);
        let shorter_ids = shorter.map_values(|entry: (HibouAir, i64)| entry.0.spec_id());
        lemma_one_reading_per_board(shorter);
        lemma_upsert_keyed(before, taken.last().0, taken.last().1);
        let id = taken.last().0.spec_id();
        assert(ids =~= shorter_ids.push(id));
        assert(ids.to_set() =~= shorter_ids.to_set().insert(id)) by {
            assert forall|x: u32| ids.to_set().contains(x) implies shorter_ids.to_set().insert(
                id,
            ).contains(x) by {
                let i = choose|i: int| 0 <= i < ids.len() && ids[i] == x;
                if i < shorter_ids.len() {
                    assert(shorter_ids[i] == x);
                }
            }
            assert forall|x: u32| shorter_ids.to_set().insert(id).contains(
                x,
            ) implies ids.to_set().contains(x) by {
                if x == id {
                    assert(ids[ids.len() - 1] == x);
                } else {
                    let i = choose|i: int| 0 <= i < shorter_ids.len() && shorter_ids[i] == x;
                    assert(ids[i] == x);
                }
            }
        }
        assert(now.readings.dom() =~= before.readings.dom().insert(id));
    }
    ids.lemma_cardinality_of_set();
}

/// In a registry that began empty, the reading of a board is the last one
/// of that board that was taken in.
pub proof fn lemma_latest_reading_stays(taken: Seq<(HibouAir, i64)>, index: int)
    requires
        0 <= index < taken.len(),
        forall|later: int|
            index < later < taken.len() ==> (#[trigger] taken[later]).0.spec_id()
                != taken[index].0.spec_id(),
    ensures
        after_all(RegistryView::empty(), taken).readings.contains_key(taken[index].0.spec_id()),
        after_all(RegistryView::empty(), taken).readings[taken[index].0.spec_id()]
            == taken[index].0,
    decreases taken.len(),
{
    if index < taken.len() - 1 {
        let shorter = taken.drop_last();
        assert(shorter[index] == taken[index]);
        assert forall|later: int| index < later < shorter.len() implies (
        #[trigger] shorter[later]).0.spec_id() != shorter[index].0.spec_id() by {
            assert(shorter[later] == taken[later]);
        }
        lemma_latest_reading_stays(shorter, index);
        assert(taken[taken.len() - 1].0.spec_id() != taken[index].0.spec_id());
    }
}

} // verus!
