//! The record a creep keeps in the game's persistent memory.

use vstd::prelude::*;
use crate::roles::Specialisation;
use crate::states::StateName;

verus! {

/// What survives of a creep between ticks and across restarts: its role, the
/// label of its current state, and, for a miner, the index of the source it is
/// bound to.
#[derive(Clone, Copy, Debug, PartialEq, Eq, Structural)]
pub struct CreepMemory {
    pub current_state: StateName,
    pub specialisation: Specialisation,
    pub additional_data: Option<u8>,
}

impl CreepMemory {
    /// A fresh record: idle, with no bound source.
    pub fn new(specialisation: Specialisation) -> (r: Self)
        ensures
            r.current_state == StateName::Idle,
            r.specialisation == specialisation,
            r.additional_data is None,
    {
        CreepMemory { current_state: StateName::Idle, specialisation, additional_data: None }
    }

    pub fn current_state(&self) -> (r: StateName)
        ensures
            r == self.current_state,
    {
        self.current_state
    }

    pub fn specialisation(&self) -> (r: Specialisation)
        ensures
            r == self.specialisation,
    {
        self.specialisation
    }

    /// The index of the source a miner is bound to.
    pub fn additional_data(&self) -> (r: Option<u8>)
        ensures
            r == self.additional_data,
    {
        self.additional_data
    }

    pub fn set_current_state(&mut self, state: StateName)
        ensures
            *final(self) == (CreepMemory { current_state: state, ..*old(self) }),
    {
        self.current_state = state;
    }

    pub fn set_additional_data(&mut self, index: u8)
        ensures
            *final(self) == (CreepMemory { additional_data: Some(index), ..*old(self) }),
    {
        self.additional_data = Some(index);
    }
}

/// How many miners of `mems` are bound to source `k`.
pub open spec fn miners_on(mems: Seq<CreepMemory>, k: int) -> nat
    decreases mems.len(),
{
    if mems.len() == 0 {
        0
    } else {
        miners_on(mems.drop_last(), k) + if mems.last().specialisation == Specialisation::Miner
            && mems.last().additional_data == Some(k as u8) {
            1nat
        } else {
            0nat
        }
    }
}

/// Among sources `0 .. c`, the one with the fewest miners bound; the lowest
/// index on equal counts.
pub open spec fn least_loaded(c: int, mems: Seq<CreepMemory>) -> Option<int>
    decreases c,
{
    if c <= 0 {
        None
    } else {
        let prev = least_loaded(c - 1, mems);
        if prev is None || miners_on(mems, c - 1) < miners_on(mems, prev->0) {
            Some(c - 1)
        } else {
            prev
        }
    }
}

/// The sources a binding can name: the first 256, as an index is one byte.
pub open spec fn bindable(n_sources: int) -> int {
    if n_sources > 256 {
        256
    } else {
        n_sources
    }
}

pub proof fn lemma_least_loaded_is_least(c: int, mems: Seq<CreepMemory>)
    ensures
        match least_loaded(c, mems) {
            Some(k) => 0 <= k < c && (forall|j: int|
                0 <= j < c ==> miners_on(mems, k) <= #[trigger] miners_on(mems, j)) && (forall|
                j: int,
            | 0 <= j < k ==> miners_on(mems, k) < #[trigger] miners_on(mems, j)),
            None => c <= 0,
        },
    decreases c,
{
    if c > 0 {
        lemma_least_loaded_is_least(c - 1, mems);
    }
}

fn count_miners_on(mems: &Vec<CreepMemory>, k: u8) -> (r: usize)
    ensures
        r == miners_on(mems@, k as int),
{
    let mut count: usize = 0;
    let mut j: usize = 0;
    while j < mems.len()
        invariant
            j <= mems@.len(),
            count == miners_on(mems@.take(j as int), k as int),
            count <= j,
        decreases mems.len() - j,
    {
        assert(mems@.take(j + 1).drop_last() =~= mems@.take(j as int));
        let m = &mems[j];
        if m.specialisation == Specialisation::Miner && m.additional_data == Some(k) {
            count = count + 1;
        }
        j = j + 1;
    }
    assert(mems@ =~= mems@.take(mems@.len() as int));
    count
}

/// The source a new miner should be bound to: of the room's `n_sources`
/// sources, the one the fewest miners of `mems` are bound to, the lowest index
/// on equal counts; `None` for a room without sources.
pub fn find_source_index(n_sources: usize, mems: &Vec<CreepMemory>) -> (r: Option<u8>)
    ensures
        r == (match least_loaded(bindable(n_sources as int), mems@) {
            Some(k) => Some(k as u8),
            None => None::<u8>,
        }),
        r is None <==> n_sources == 0,
{
    let limit: usize = if n_sources > 256 {
        256
    } else {
        n_sources
    };
    let mut best: Option<u8> = None;
    let mut best_count: usize = 0;
    let mut k: usize = 0;
    while k < limit
        invariant
            limit == bindable(n_sources as int),
            k <= limit <= 256,
            match best {
                Some(b) => least_loaded(k as int, mems@) == Some(b as int) && best_count
                    == miners_on(mems@, b as int),
                None => least_loaded(k as int, mems@) is None,
            },
            best is None <==> k == 0,
        decreases limit - k,
    {
        let count = count_miners_on(mems, k as u8);
        match best {
            Some(b) => {
                if count < best_count {
                    best = Some(k as u8);
                    best_count = count;
                }
            },
            None => {
                best = Some(k as u8);
                best_count = count;
            },
        }
        k = k + 1;
    }
    proof {
        lemma_least_loaded_is_least(limit as int, mems@);
    }
    best
}

} // verus!
