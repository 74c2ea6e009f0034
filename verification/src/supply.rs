//! The sum of the balances in a share ledger, and how it moves when a
//! balance is recorded.

use vstd::prelude::*;

verus! {

/// The sum of all balances in `ledger`. Where the ledger is empty the sum is
/// zero; otherwise it is one balance plus the sum of the others.
pub open spec fn shares_sum(ledger: Map<Seq<char>, u128>) -> nat
    decreases ledger.dom().len(),
    when ledger.dom().finite()
{
    if ledger.dom().len() == 0 {
        0
    } else {
        let account = ledger.dom().choose();
        ledger[account] as nat + shares_sum(ledger.remove(account))
    }
}

/// The sum is any one balance plus the sum of the others, whichever account
/// is taken out first.
pub proof fn lemma_sum_split(ledger: Map<Seq<char>, u128>, account: Seq<char>)
    requires
        ledger.dom().finite(),
        ledger.contains_key(account),
    ensures
        shares_sum(ledger) == ledger[account] as nat + shares_sum(ledger.remove(account)),
    decreases ledger.dom().len(),
{
    let first = ledger.dom().choose();
    if first != account {
        lemma_sum_split(ledger.remove(first), account);
        lemma_sum_split(ledger.remove(account), first);
        assert(ledger.remove(first).remove(account) =~= ledger.remove(account).remove(first));
    }
}

/// No balance is above the sum of all balances.
pub proof fn lemma_balance_within_sum(ledger: Map<Seq<char>, u128>, account: Seq<char>)
    requires
        ledger.dom().finite(),
        ledger.contains_key(account),
    ensures
        ledger[account] <= shares_sum(ledger),
{
    lemma_sum_split(ledger, account);
}

/// Recording a balance moves the sum by the difference between the new
/// balance and the one the account held before.
pub proof fn lemma_sum_insert(ledger: Map<Seq<char>, u128>, account: Seq<char>, balance: u128)
    requires
        ledger.dom().finite(),
    ensures
        ledger.insert(account, balance).dom().finite(),
        ledger.contains_key(account) ==> shares_sum(ledger.insert(account, balance))
            + ledger[account] == shares_sum(ledger) + balance,
        !ledger.contains_key(account) ==> shares_sum(ledger.insert(account, balance))
            == shares_sum(ledger) + balance,
{
    let after = ledger.insert(account, balance);
    lemma_sum_split(after, account);
    assert(after.remove(account) =~= ledger.remove(account));
    if ledger.contains_key(account) {
        lemma_sum_split(ledger, account);
    } else {
        assert(ledger.remove(account) =~= ledger);
    }
}

/// The empty ledger sums to zero.
pub proof fn lemma_sum_empty()
    ensures
        shares_sum(Map::<Seq<char>, u128>::empty()) == 0,
{
}

} // verus!
