//! What holds of the contract's operations taken together, stated over
//! [`State`], the model that the operations' own contracts are written in.

use vstd::prelude::*;

use crate::contract::State;

verus! {

/// Reading the counter right after deployment gives the value that the
/// contract was deployed with, whatever that value is.
pub proof fn law_new_then_get(deployer: Seq<u8>, init_value: i32)
    ensures
        State::initial(deployer, init_value).value == init_value,
{
}

/// Deploying with the counter at zero, which is what the default deployment
/// does, gives a counter that reads zero.
pub proof fn law_default_then_get(deployer: Seq<u8>)
    ensures
        State::initial(deployer, 0).value == 0,
{
}

/// Deploying, adding `by` and reading the counter gives the sum of the
/// initial value and `by`, as long as that sum is a 32-bit signed integer.
pub proof fn law_new_increment_get(deployer: Seq<u8>, init_value: i32, by: i32)
    requires
        i32::MIN <= init_value + by <= i32::MAX,
    ensures
        State::initial(deployer, init_value).increment(by).value == init_value + by,
{
}

/// In any state, adding `by` moves the counter by exactly `by` as long as the
/// sum is a 32-bit signed integer. A sum past the largest such integer comes
/// out 2^32 lower, and one below the smallest comes out 2^32 higher.
pub proof fn law_increment_wraps(state: State, by: i32)
    ensures
        i32::MIN <= state.value + by <= i32::MAX ==> state.increment(by).value == state.value + by,
        state.value + by > i32::MAX ==> state.increment(by).value == state.value + by
            - 0x1_0000_0000,
        state.value + by < i32::MIN ==> state.increment(by).value == state.value + by
            + 0x1_0000_0000,
{
}

/// Adding to the counter changes nothing that the table yields, for any
/// account.
pub proof fn law_increment_keeps_entries(state: State, by: i32, caller: Seq<u8>)
    ensures
        state.increment(by).entries == state.entries,
        state.increment(by).entry_or_zero(caller) == state.entry_or_zero(caller),
{
}

/// Right after deployment the deployer's own entry reads zero.
pub proof fn law_deployer_reads_zero(deployer: Seq<u8>, init_value: i32)
    ensures
        State::initial(deployer, init_value).entries.contains_key(deployer),
        State::initial(deployer, init_value).entry_or_zero(deployer) == 0,
{
}

/// An account for which the table stores nothing reads zero.
pub proof fn law_absent_reads_zero(state: State, caller: Seq<u8>)
    requires
        !state.entries.contains_key(caller),
    ensures
        state.entry_or_zero(caller) == 0,
{
}

/// Right after deployment every account but the deployer is absent from the
/// table, and so reads zero.
pub proof fn law_stranger_reads_zero(deployer: Seq<u8>, init_value: i32, caller: Seq<u8>)
    requires
        caller != deployer,
    ensures
        !State::initial(deployer, init_value).entries.contains_key(caller),
        State::initial(deployer, init_value).entry_or_zero(caller) == 0,
{
}

/// However often and by whatever amounts the counter has been moved since
/// deployment, the table still holds the deployer's zero and nothing else, so
/// every account reads zero.
pub proof fn law_table_stays_as_deployed(
    deployer: Seq<u8>,
    init_value: i32,
    bys: Seq<i32>,
    caller: Seq<u8>,
)
    ensures
        State::initial(deployer, init_value).increment_all(bys).entries == State::initial(
            deployer,
            init_value,
        ).entries,
        State::initial(deployer, init_value).increment_all(bys).entry_or_zero(caller) == 0,
    decreases bys.len(),
{
    if bys.len() > 0 {
        law_table_stays_as_deployed(deployer, init_value, bys.drop_last(), caller);
    }
}

} // verus!
