//! The per-account table: at most one signed integer for each account.

use vstd::prelude::*;

use crate::account::AccountId;

verus! {

/// One stored pair: an account and the integer kept for it.
struct Entry {
    account: AccountId,
    value: i32,
}

/// An association from accounts to signed integers.
///
/// Its view is the finite map from an account's bytes to the integer stored
/// for that account. No account is stored twice.
pub struct AccountMapping {
    entries: Vec<Entry>,
}

/// No two positions of `entries` hold the same account.
spec fn distinct_accounts(entries: Seq<Entry>) -> bool {
    forall|i: int, j: int|
        0 <= i < j < entries.len() ==> (#[trigger] entries[i]).account@ != (
        #[trigger] entries[j]).account@
}

/// Some position of `entries` holds `account`.
spec fn stored(entries: Seq<Entry>, account: Seq<u8>) -> bool {
    exists|i: int| 0 <= i < entries.len() && (#[trigger] entries[i]).account@ == account
}

/// A position of `entries` that holds `account`, where there is one.
spec fn position(entries: Seq<Entry>, account: Seq<u8>) -> int {
    choose|i: int| 0 <= i < entries.len() && (#[trigger] entries[i]).account@ == account
}

/// The map that `entries` stands for.
spec fn as_map(entries: Seq<Entry>) -> Map<Seq<u8>, i32> {
    Map::new(
        |account: Seq<u8>| stored(entries, account),
        |account: Seq<u8>| entries[position(entries, account)].value,
    )
}

/// With distinct accounts, the pair at position `i` is what the map holds
/// for that pair's account.
proof fn lemma_entry_in_map(entries: Seq<Entry>, i: int)
    requires
        distinct_accounts(entries),
        0 <= i < entries.len(),
    ensures
        as_map(entries).contains_key(entries[i].account@),
        as_map(entries)[entries[i].account@] == entries[i].value,
{
    let account = entries[i].account@;
    assert(stored(entries, account));
    let p = position(entries, account);
    assert(0 <= p < entries.len() && entries[p].account@ == account);
    if p < i {
        assert(entries[p].account@ != entries[i].account@);
    } else if i < p {
        assert(entries[i].account@ != entries[p].account@);
    }
}

/// `pairs` lists `map`: it names every account of the map exactly once, each
/// with the integer that the map holds for it, and names no other account.
pub open spec fn lists(pairs: Seq<(AccountId, i32)>, map: Map<Seq<u8>, i32>) -> bool {
    &&& forall|i: int, j: int|
        0 <= i < j < pairs.len() ==> (#[trigger] pairs[i]).0@ != (#[trigger] pairs[j]).0@
    &&& forall|i: int|
        0 <= i < pairs.len() ==> map.contains_key((#[trigger] pairs[i]).0@) && map[pairs[i].0@]
            == pairs[i].1
    &&& forall|account: Seq<u8>| #[trigger]
        map.contains_key(account) ==> exists|i: int|
            0 <= i < pairs.len() && (#[trigger] pairs[i]).0@ == account
}

impl View for AccountMapping {
    type V = Map<Seq<u8>, i32>;

    closed spec fn view(&self) -> Map<Seq<u8>, i32> {
        as_map(self.entries@)
    }
}

impl AccountMapping {
    #[verifier::type_invariant]
    spec fn well_formed(&self) -> bool {
        distinct_accounts(self.entries@)
    }

    /// The table that stores nothing.
    pub fn new() -> (table: Self)
        ensures
            table@ == Map::<Seq<u8>, i32>::empty(),
    {
        let table = AccountMapping { entries: Vec::new() };
        assert(table@ =~= Map::<Seq<u8>, i32>::empty());
        table
    }

    /// The integer stored for `account`, if one is.
    pub fn get(&self, account: AccountId) -> (found: Option<i32>)
        ensures
            found == (if self@.contains_key(account@) {
                Some(self@[account@])
            } else {
                None
            }),
    {
        proof {
            use_type_invariant(self);
        }
        let mut i: usize = 0;
        while i < self.entries.len()
            invariant
                i <= self.entries.len(),
                distinct_accounts(self.entries@),
                forall|j: int| 0 <= j < i ==> (#[trigger] self.entries@[j]).account@ != account@,
            decreases self.entries.len() - i,
        {
            if self.entries[i].account == account {
                proof {
                    lemma_entry_in_map(self.entries@, i as int);
                }
                return Some(self.entries[i].value);
            }
            i += 1;
        }
        assert(!stored(self.entries@, account@));
        None
    }

    /// Every stored account with its integer, each account once.
    pub fn entries(&self) -> (pairs: Vec<(AccountId, i32)>)
        ensures
            lists(pairs@, self@),
    {
        proof {
            use_type_invariant(self);
        }
        let mut pairs: Vec<(AccountId, i32)> = Vec::new();
        let mut i: usize = 0;
        while i < self.entries.len()
            invariant
                i <= self.entries.len(),
                pairs.len() == i,
                forall|j: int|
                    0 <= j < i ==> (#[trigger] pairs@[j]).0 == self.entries@[j].account
                        && pairs@[j].1 == self.entries@[j].value,
            decreases self.entries.len() - i,
        {
            pairs.push((self.entries[i].account, self.entries[i].value));
            i += 1;
        }
        proof {
            let entries = self.entries@;
            assert forall|a: int, b: int| 0 <= a < b < pairs.len() implies (#[trigger] pairs@[a]).0@
                != (#[trigger] pairs@[b]).0@ by {
                assert(entries[a].account@ != entries[b].account@);
            }
            assert forall|a: int| 0 <= a < pairs.len() implies self@.contains_key(
                (#[trigger] pairs@[a]).0@,
            ) && self@[pairs@[a].0@] == pairs@[a].1 by {
                lemma_entry_in_map(entries, a);
            }
            assert forall|account: Seq<u8>| #[trigger] self@.contains_key(account) implies exists|
                a: int,
            |
                0 <= a < pairs.len() && (#[trigger] pairs@[a]).0@ == account by {
                let p = position(entries, account);
                assert(pairs@[p].0@ == account);
            }
        }
        pairs
    }

    /// Stores `value` for `account`, in place of what was stored for it
    /// before, if anything was.
    pub fn insert(&mut self, account: AccountId, value: i32)
        ensures
            final(self)@ == old(self)@.insert(account@, value),
    {
        proof {
            use_type_invariant(&*self);
        }
        let mut entries: Vec<Entry> = Vec::new();
        std::mem::swap(&mut entries, &mut self.entries);
        let mut i: usize = 0;
        while i < entries.len()
            invariant
                i <= entries.len(),
                forall|j: int| 0 <= j < i ==> (#[trigger] entries@[j]).account@ != account@,
            ensures
                i < entries.len() ==> entries@[i as int].account@ == account@,
            decreases entries.len() - i,
        {
            if entries[i].account == account {
                break;
            }
            i += 1;
        }
        let ghost before = entries@;
        if i < entries.len() {
            entries[i] = Entry { account, value };
        } else {
            assert(!stored(before, account@));
            entries.push(Entry { account, value });
        }
        proof {
            lemma_insert(before, entries@, i as int, account@, value);
        }
        self.entries = entries;
    }
}

/// Writing the pair (`account`, `value`) at position `i` of `before`, where
/// `i` is either the position that holds `account` or, if none does, the end,
/// keeps the accounts distinct and adds that pair to the map.
proof fn lemma_insert(before: Seq<Entry>, after: Seq<Entry>, i: int, account: Seq<u8>, value: i32)
    requires
        distinct_accounts(before),
        0 <= i <= before.len(),
        i < before.len() ==> before[i].account@ == account && after.len() == before.len(),
        i == before.len() ==> !stored(before, account) && after.len() == before.len() + 1,
        after[i].account@ == account,
        after[i].value == value,
        forall|j: int| 0 <= j < before.len() && j != i ==> after[j] == before[j],
    ensures
        distinct_accounts(after),
        as_map(after) == as_map(before).insert(account, value),
{
    assert forall|a: int, b: int| 0 <= a < b < after.len() implies (#[trigger] after[a]).account@
        != (#[trigger] after[b]).account@ by {
        if b < before.len() {
            assert(before[a].account@ != before[b].account@);
        }
    }
    let wanted = as_map(before).insert(account, value);
    assert forall|k: Seq<u8>| as_map(after).contains_key(k) <==> wanted.contains_key(k) by {
        if stored(after, k) && k != account {
            assert(before[position(after, k)].account@ == k);
        }
        if stored(before, k) && k != account {
            assert(after[position(before, k)].account@ == k);
        }
    }
    assert forall|k: Seq<u8>| as_map(after).contains_key(k) implies as_map(after)[k]
        == wanted[k] by {
        let p = position(after, k);
        lemma_entry_in_map(after, p);
        if p != i {
            lemma_entry_in_map(before, p);
        }
    }
}

} // verus!
