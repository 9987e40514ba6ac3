//! The contract: a counter that anyone may move, and the per-account table
//! that records who deployed it.

use vstd::prelude::*;

use crate::account::AccountId;
use crate::mapping::AccountMapping;

verus! {

/// What a contract holds, as mathematics: the counter, and the finite map
/// from an account's bytes to the integer stored for that account.
#[verifier::ext_equal]
pub struct State {
    pub value: i32,
    pub entries: Map<Seq<u8>, i32>,
}

/// The 32-bit signed integer that is congruent to `x` modulo 2^32.
pub open spec fn wrap_i32(x: int) -> i32 {
    ((x + 0x8000_0000) % 0x1_0000_0000 - 0x8000_0000) as i32
}

impl State {
    /// The state right after `deployer` has deployed the contract with the
    /// counter at `init_value`: the table holds zero for `deployer` and
    /// nothing else.
    pub open spec fn initial(deployer: Seq<u8>, init_value: i32) -> State {
        State { value: init_value, entries: Map::empty().insert(deployer, 0i32) }
    }

    /// The state after `by` has been added to the counter. The sum wraps
    /// around at the ends of the 32-bit range; the table is untouched.
    pub open spec fn increment(self, by: i32) -> State {
        State { value: wrap_i32(self.value + by), entries: self.entries }
    }

    /// The state after each integer of `bys` has been added to the counter,
    /// in order.
    pub open spec fn increment_all(self, bys: Seq<i32>) -> State
        decreases bys.len(),
    {
        if bys.len() == 0 {
            self
        } else {
            self.increment_all(bys.drop_last()).increment(bys.last())
        }
    }

    /// What the table yields for `caller`: the stored integer, or zero where
    /// none is stored.
    pub open spec fn entry_or_zero(self, caller: Seq<u8>) -> i32 {
        if self.entries.contains_key(caller) {
            self.entries[caller]
        } else {
            0
        }
    }
}

/// A deployed counter contract.
pub struct Incrementer {
    value: i32,
    my_map: AccountMapping,
}

impl View for Incrementer {
    type V = State;

    closed spec fn view(&self) -> State {
        State { value: self.value, entries: self.my_map@ }
    }
}

impl Incrementer {
    /// Deploys the contract on behalf of `caller`, with the counter at
    /// `init_value`. Any `init_value` is accepted. The table gets a zero
    /// entry for `caller`.
    pub fn new(caller: AccountId, init_value: i32) -> (contract: Self)
        ensures
            contract@ == State::initial(caller@, init_value),
            contract@.value == init_value,
    {
        let mut my_map = AccountMapping::new();
        my_map.insert(caller, 0);
        Incrementer { value: init_value, my_map }
    }

    /// Deploys the contract on behalf of `caller`, with the counter at zero:
    /// the state is the one that [`Incrementer::new`] gives for zero.
    pub fn default(caller: AccountId) -> (contract: Self)
        ensures
            contract@ == State::initial(caller@, 0),
            contract@.value == 0,
    {
        Incrementer::new(caller, 0)
    }

    /// Adds `by`, which may be negative or zero, to the counter. A sum
    /// outside the 32-bit range wraps around.
    pub fn increment(&mut self, by: i32)
        ensures
            final(self)@ == old(self)@.increment(by),
    {
        self.value = self.value.wrapping_add(by);
    }

    /// The counter.
    pub fn get(&self) -> (value: i32)
        ensures
            value == self@.value,
    {
        self.value
    }

    /// The integer that the table holds for `caller`, or zero where it holds
    /// none.
    pub fn get_mine(&self, caller: AccountId) -> (mine: i32)
        ensures
            mine == self@.entry_or_zero(caller@),
    {
        match self.my_map.get(caller) {
            Some(mine) => mine,
            None => 0,
        }
    }

    /// The contract whose counter is `value` and whose table is `my_map`: a
    /// contract that was deployed earlier, put together again from what was
    /// kept of it.
    pub fn from_parts(value: i32, my_map: AccountMapping) -> (contract: Self)
        ensures
            contract@ == (State { value, entries: my_map@ }),
    {
        Incrementer { value, my_map }
    }

    /// The counter and the table, for whoever keeps the contract between
    /// calls.
    pub fn into_parts(self) -> (parts: (i32, AccountMapping))
        ensures
            parts.0 == self@.value,
            parts.1@ == self@.entries,
    {
        (self.value, self.my_map)
    }
}

} // verus!
