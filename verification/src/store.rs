use vstd::prelude::*;

use crate::types::AccountId;
use crate::upgradable_account::UpgradableAccount;

verus! {

/// One slot of the account store: a user identity and their record.
pub struct AccountEntry {
    pub account_id: AccountId,
    pub account: UpgradableAccount,
}

/// No two slots carry the same account id.
pub open spec fn ids_unique(s: Seq<AccountEntry>) -> bool {
    forall|i: int, j: int|
        0 <= i < s.len() && 0 <= j < s.len() && i != j ==> s[i].account_id@ != s[j].account_id@
}

/// Whether some slot carries this account id.
pub open spec fn has_account(s: Seq<AccountEntry>, id: Seq<char>) -> bool {
    exists|i: int| 0 <= i < s.len() && s[i].account_id@ == id
}

/// The slot carrying this account id; meaningful when ids are unique and the
/// id is present.
pub open spec fn account_index(s: Seq<AccountEntry>, id: Seq<char>) -> int {
    choose|i: int| 0 <= i < s.len() && s[i].account_id@ == id
}

/// The record stored under this account id.
pub open spec fn stored_account(s: Seq<AccountEntry>, id: Seq<char>) -> UpgradableAccount {
    s[account_index(s, id)].account
}

/// Sum of the canonical stake balances over all slots.
pub open spec fn sum_stake(s: Seq<AccountEntry>) -> int
    decreases s.len(),
{
    if s.len() == 0 {
        0
    } else {
        sum_stake(s.drop_last()) + s.last().account.spec_canonical().stake_balance
    }
}

/// How many slots hold a positive canonical stake balance.
pub open spec fn count_stakers(s: Seq<AccountEntry>) -> int
    decreases s.len(),
{
    if s.len() == 0 {
        0
    } else {
        count_stakers(s.drop_last()) + if s.last().account.spec_canonical().stake_balance > 0 {
            1int
        } else {
            0int
        }
    }
}

/// A slot determines the lookup: with unique ids, `stored_account` at the
/// slot's id is exactly the slot's record.
pub proof fn lemma_stored_at(s: Seq<AccountEntry>, i: int)
    requires
        ids_unique(s),
        0 <= i < s.len(),
    ensures
        has_account(s, s[i].account_id@),
        account_index(s, s[i].account_id@) == i,
        stored_account(s, s[i].account_id@) == s[i].account,
{
    assert(has_account(s, s[i].account_id@));
    let j = account_index(s, s[i].account_id@);
    if j != i {
        assert(s[i].account_id@ != s[j].account_id@);
        assert(false);
    }
}

/// Overwriting a slot with a record under the same id changes exactly that
/// id's stored record and no other.
pub proof fn lemma_update_keeps(s: Seq<AccountEntry>, i: int, e: AccountEntry)
    requires
        ids_unique(s),
        0 <= i < s.len(),
        e.account_id@ == s[i].account_id@,
    ensures
        ids_unique(s.update(i, e)),
        has_account(s.update(i, e), e.account_id@),
        stored_account(s.update(i, e), e.account_id@) == e.account,
        forall|id: Seq<char>| has_account(s.update(i, e), id) == has_account(s, id),
        forall|id: Seq<char>|
            id != e.account_id@ && has_account(s, id) ==> stored_account(s.update(i, e), id)
                == stored_account(s, id),
{
    let t = s.update(i, e);
    assert(forall|k: int| 0 <= k < s.len() ==> t[k].account_id@ == s[k].account_id@);
    assert forall|id: Seq<char>| has_account(t, id) == has_account(s, id) by {
        if has_account(t, id) {
            let k = choose|k: int| 0 <= k < t.len() && t[k].account_id@ == id;
            assert(s[k].account_id@ == id);
            assert(has_account(s, id));
        }
        if has_account(s, id) {
            let k = choose|k: int| 0 <= k < s.len() && s[k].account_id@ == id;
            assert(t[k].account_id@ == id);
            assert(has_account(t, id));
        }
    }
    lemma_stored_at(t, i);
    assert forall|id: Seq<char>|
        id != e.account_id@ && has_account(s, id) implies stored_account(t, id) == stored_account(
        s,
        id,
    ) by {
        let k = account_index(s, id);
        assert(0 <= k < s.len() && s[k].account_id@ == id);
        assert(k != i);
        lemma_stored_at(s, k);
        lemma_stored_at(t, k);
    }
}

/// Appending a record under a fresh id adds exactly that id and leaves every
/// stored record as it was.
pub proof fn lemma_push_keeps(s: Seq<AccountEntry>, e: AccountEntry)
    requires
        ids_unique(s),
        !has_account(s, e.account_id@),
    ensures
        ids_unique(s.push(e)),
        has_account(s.push(e), e.account_id@),
        stored_account(s.push(e), e.account_id@) == e.account,
        forall|id: Seq<char>|
            id != e.account_id@ ==> has_account(s.push(e), id) == has_account(s, id),
        forall|id: Seq<char>|
            has_account(s, id) ==> stored_account(s.push(e), id) == stored_account(s, id),
{
    let t = s.push(e);
    assert(forall|k: int| 0 <= k < s.len() ==> t[k] == s[k]);
    assert(t[s.len() as int] == e);
    assert forall|i: int, j: int|
        0 <= i < t.len() && 0 <= j < t.len() && i != j implies t[i].account_id@
        != t[j].account_id@ by {
        if i < s.len() && j < s.len() {
            assert(s[i].account_id@ != s[j].account_id@);
        } else if i < s.len() {
            assert(t[j] == e);
            assert(s[i].account_id@ != e.account_id@);
        } else {
            assert(t[i] == e);
            assert(j < s.len());
            assert(s[j].account_id@ != e.account_id@);
        }
    }
    lemma_stored_at(t, s.len() as int);
    assert forall|id: Seq<char>|
        id != e.account_id@ implies has_account(t, id) == has_account(s, id) by {
        if has_account(t, id) {
            let k = choose|k: int| 0 <= k < t.len() && t[k].account_id@ == id;
            assert(k < s.len());
            assert(has_account(s, id));
        }
        if has_account(s, id) {
            let k = choose|k: int| 0 <= k < s.len() && s[k].account_id@ == id;
            assert(t[k].account_id@ == id);
        }
    }
    assert forall|id: Seq<char>| has_account(s, id) implies stored_account(t, id)
        == stored_account(s, id) by {
        let k = account_index(s, id);
        assert(0 <= k < s.len() && s[k].account_id@ == id);
        lemma_stored_at(s, k);
        lemma_stored_at(t, k);
    }
}

/// Overwriting one slot moves the stake sum by the difference of the two
/// records' stakes.
pub proof fn lemma_sum_stake_update(s: Seq<AccountEntry>, i: int, e: AccountEntry)
    requires
        0 <= i < s.len(),
    ensures
        sum_stake(s.update(i, e)) == sum_stake(s) - s[i].account.spec_canonical().stake_balance
            + e.account.spec_canonical().stake_balance,
    decreases s.len(),
{
    let t = s.update(i, e);
    if i == s.len() - 1 {
        assert(t.drop_last() =~= s.drop_last());
        assert(t.last() == e);
    } else {
        assert(t.drop_last() =~= s.drop_last().update(i, e));
        assert(t.last() == s.last());
        lemma_sum_stake_update(s.drop_last(), i, e);
        assert(s.drop_last()[i] == s[i]);
    }
}

/// Appending a slot adds its stake to the sum.
pub proof fn lemma_sum_stake_push(s: Seq<AccountEntry>, e: AccountEntry)
    ensures
        sum_stake(s.push(e)) == sum_stake(s) + e.account.spec_canonical().stake_balance,
{
    assert(s.push(e).drop_last() =~= s);
    assert(s.push(e).last() == e);
}

/// Every single stake is at most the sum of all of them.
pub proof fn lemma_sum_stake_bound(s: Seq<AccountEntry>, i: int)
    requires
        0 <= i < s.len(),
    ensures
        s[i].account.spec_canonical().stake_balance <= sum_stake(s),
        sum_stake(s) >= 0,
    decreases s.len(),
{
    lemma_sum_stake_nonneg(s.drop_last());
    if i == s.len() - 1 {
        assert(s.last() == s[i]);
    } else {
        lemma_sum_stake_bound(s.drop_last(), i);
        assert(s.drop_last()[i] == s[i]);
    }
}

/// The stake sum is never negative.
pub proof fn lemma_sum_stake_nonneg(s: Seq<AccountEntry>)
    ensures
        sum_stake(s) >= 0,
    decreases s.len(),
{
    if s.len() > 0 {
        lemma_sum_stake_nonneg(s.drop_last());
    }
}

/// Overwriting one slot moves the staker count by the difference of the two
/// records' staking indicators.
pub proof fn lemma_count_stakers_update(s: Seq<AccountEntry>, i: int, e: AccountEntry)
    requires
        0 <= i < s.len(),
    ensures
        count_stakers(s.update(i, e)) == count_stakers(s) - (if s[i].account.spec_canonical().stake_balance
            > 0 {
            1int
        } else {
            0int
        }) + (if e.account.spec_canonical().stake_balance > 0 {
            1int
        } else {
            0int
        }),
    decreases s.len(),
{
    let t = s.update(i, e);
    if i == s.len() - 1 {
        assert(t.drop_last() =~= s.drop_last());
        assert(t.last() == e);
    } else {
        assert(t.drop_last() =~= s.drop_last().update(i, e));
        assert(t.last() == s.last());
        lemma_count_stakers_update(s.drop_last(), i, e);
        assert(s.drop_last()[i] == s[i]);
    }
}

/// Appending a slot adds its staking indicator to the count.
pub proof fn lemma_count_stakers_push(s: Seq<AccountEntry>, e: AccountEntry)
    ensures
        count_stakers(s.push(e)) == count_stakers(s) + (if e.account.spec_canonical().stake_balance
            > 0 {
            1int
        } else {
            0int
        }),
{
    assert(s.push(e).drop_last() =~= s);
    assert(s.push(e).last() == e);
}

/// The staker count never exceeds the number of slots and is never negative.
pub proof fn lemma_count_stakers_bounds(s: Seq<AccountEntry>)
    ensures
        0 <= count_stakers(s) <= s.len(),
    decreases s.len(),
{
    if s.len() > 0 {
        lemma_count_stakers_bounds(s.drop_last());
    }
}

/// Finds the slot holding this account id, if any.
pub fn find_account_index(accounts: &Vec<AccountEntry>, account_id: &AccountId) -> (r: Option<
    usize,
>)
    ensures
        match r {
            Some(i) => i < accounts@.len() && accounts@[i as int].account_id@ == account_id@,
            None => !has_account(accounts@, account_id@),
        },
{
    let mut i: usize = 0;
    while i < accounts.len()
        invariant
            i <= accounts@.len(),
            forall|j: int| 0 <= j < i ==> accounts@[j].account_id@ != account_id@,
        decreases accounts@.len() - i,
    {
        if accounts[i].account_id == *account_id {
            return Some(i);
        }
        i = i + 1;
    }
    None
}

/// Finds the slot holding an account id that is known to be present.
pub fn find_existing_index(accounts: &Vec<AccountEntry>, account_id: &AccountId) -> (i: usize)
    requires
        has_account(accounts@, account_id@),
    ensures
        i < accounts@.len(),
        accounts@[i as int].account_id@ == account_id@,
{
    match find_account_index(accounts, account_id) {
        Some(i) => i,
        None => {
            proof {
                assert(false);
            }
            0
        },
    }
}

} // verus!
