//! The share ledger: the balance of every account that was ever written, and
//! the sum of what it holds.

use crate::account_id::AccountId;
use vstd::prelude::*;

verus! {

/// The entries of a ledger that nothing was written to.
pub open spec fn empty_entries() -> Map<Seq<char>, u128> {
    Map::empty()
}

/// The map that a list of accounts and balances stands for: each pair written
/// in turn, a later one over an earlier one for the same account.
pub open spec fn map_of(pairs: Seq<(Seq<char>, u128)>) -> Map<Seq<char>, u128>
    decreases pairs.len(),
{
    if pairs.len() == 0 {
        Map::empty()
    } else {
        map_of(pairs.drop_last()).insert(pairs.last().0, pairs.last().1)
    }
}

/// No account occurs twice in the list.
pub open spec fn distinct(pairs: Seq<(Seq<char>, u128)>) -> bool {
    forall|i: int, j: int|
        0 <= i < j < pairs.len() ==> (#[trigger] pairs[i]).0 != (#[trigger] pairs[j]).0
}

/// The account occurs in the list.
pub open spec fn listed(pairs: Seq<(Seq<char>, u128)>, account: Seq<char>) -> bool {
    exists|i: int| 0 <= i < pairs.len() && (#[trigger] pairs[i]).0 == account
}

/// The map of a list holds the accounts of the list, which are finitely many.
pub proof fn lemma_map_of_keys(pairs: Seq<(Seq<char>, u128)>)
    ensures
        map_of(pairs).dom().finite(),
        forall|account: Seq<char>| #[trigger]
            map_of(pairs).contains_key(account) <==> listed(pairs, account),
    decreases pairs.len(),
{
    if pairs.len() > 0 {
        let rest = pairs.drop_last();
        lemma_map_of_keys(rest);
        assert forall|account: Seq<char>| #[trigger]
            map_of(pairs).contains_key(account) <==> listed(pairs, account) by {
            if listed(rest, account) {
                let i = choose|i: int| 0 <= i < rest.len() && (#[trigger] rest[i]).0 == account;
                assert(pairs[i].0 == account);
            }
            if listed(pairs, account) && account != pairs.last().0 {
                let i = choose|i: int| 0 <= i < pairs.len() && (#[trigger] pairs[i]).0 == account;
                assert(rest[i].0 == account);
            }
            if account == pairs.last().0 {
                assert(pairs[pairs.len() - 1].0 == account);
            }
        }
    }
}

/// Where no account occurs twice, the map holds for each the balance listed.
pub proof fn lemma_map_of_value(pairs: Seq<(Seq<char>, u128)>, i: int)
    requires
        distinct(pairs),
        0 <= i < pairs.len(),
    ensures
        map_of(pairs).contains_key(pairs[i].0),
        map_of(pairs)[pairs[i].0] == pairs[i].1,
    decreases pairs.len(),
{
    if i < pairs.len() - 1 {
        let rest = pairs.drop_last();
        lemma_map_of_value(rest, i);
        assert(rest[i] == pairs[i]);
        assert(pairs[i].0 != pairs[pairs.len() - 1].0);
    }
}

/// Where no account occurs twice, a new balance in the place of an account is
/// a new balance for it in the map, and still no account occurs twice.
pub proof fn lemma_map_of_update(pairs: Seq<(Seq<char>, u128)>, i: int, balance: u128)
    requires
        distinct(pairs),
        0 <= i < pairs.len(),
    ensures
        distinct(pairs.update(i, (pairs[i].0, balance))),
        map_of(pairs.update(i, (pairs[i].0, balance))) == map_of(pairs).insert(
            pairs[i].0,
            balance,
        ),
    decreases pairs.len(),
{
    let account = pairs[i].0;
    let updated = pairs.update(i, (account, balance));
    let rest = pairs.drop_last();
    assert forall|a: int, b: int| 0 <= a < b < updated.len() implies (#[trigger] updated[a]).0
        != (#[trigger] updated[b]).0 by {
        assert(updated[a].0 == pairs[a].0 && updated[b].0 == pairs[b].0);
    }
    if i == pairs.len() - 1 {
        assert(updated.drop_last() =~= rest);
    } else {
        lemma_map_of_update(rest, i, balance);
        assert(updated.drop_last() =~= rest.update(i, (account, balance)));
        assert(pairs[i].0 != pairs[pairs.len() - 1].0);
    }
    assert(map_of(updated) =~= map_of(pairs).insert(account, balance));
}

/// Where no account occurs twice, the map holds as many accounts as the list.
pub proof fn lemma_map_of_len(pairs: Seq<(Seq<char>, u128)>)
    requires
        distinct(pairs),
    ensures
        map_of(pairs).dom().finite(),
        map_of(pairs).dom().len() == pairs.len(),
    decreases pairs.len(),
{
    if pairs.len() > 0 {
        let rest = pairs.drop_last();
        lemma_map_of_len(rest);
        lemma_map_of_keys(rest);
    }
}

/// The names and balances of a list of accounts.
pub open spec fn pairs_of(entries: Seq<(AccountId, u128)>) -> Seq<(Seq<char>, u128)> {
    Seq::new(entries.len(), |i: int| (entries[i].0@, entries[i].1))
}

/// The ledger of shares: accounts with their balances, no account twice.
#[derive(Debug)]
pub struct ShareLedger {
    entries: Vec<(AccountId, u128)>,
}

impl View for ShareLedger {
    type V = Map<Seq<char>, u128>;

    closed spec fn view(&self) -> Map<Seq<char>, u128> {
        map_of(self.pairs())
    }
}

impl ShareLedger {
    /// The accounts and balances in the order in which the accounts came.
    pub closed spec fn pairs(&self) -> Seq<(Seq<char>, u128)> {
        pairs_of(self.entries@)
    }

    #[verifier::type_invariant]
    closed spec fn no_account_twice(self) -> bool {
        distinct(self.pairs())
    }

    /// A ledger without accounts.
    pub fn new() -> (ledger: ShareLedger)
        ensures
            ledger@ == empty_entries(),
            ledger.pairs().len() == 0,
    {
        ShareLedger { entries: Vec::new() }
    }

    /// The place of an account in the ledger, if it has one.
    fn position(&self, account: &AccountId) -> (place: Option<usize>)
        ensures
            place is Some ==> place->0 < self.pairs().len() && self.pairs()[place->0 as int].0
                == account@,
            place is None ==> !listed(self.pairs(), account@),
    {
        let mut i: usize = 0;
        while i < self.entries.len()
            invariant
                i <= self.entries@.len(),
                forall|j: int| 0 <= j < i ==> (#[trigger] self.pairs()[j]).0 != account@,
            decreases self.entries@.len() - i,
        {
            if self.entries[i].0 == *account {
                return Some(i);
            }
            i = i + 1;
        }
        None
    }

    /// The balance written for an account, `None` where none ever was.
    pub fn get(&self, account: &AccountId) -> (balance: Option<u128>)
        ensures
            balance == if self@.contains_key(account@) {
                Some(self@[account@])
            } else {
                None
            },
    {
        proof {
            use_type_invariant(self);
            lemma_map_of_keys(self.pairs());
        }
        match self.position(account) {
            Some(i) => {
                proof {
                    lemma_map_of_value(self.pairs(), i as int);
                }
                Some(self.entries[i].1)
            },
            None => None,
        }
    }

    /// Writes the balance of an account, over the one that was there, and leaves
    /// every other account as it was.
    pub fn insert(&mut self, account: &AccountId, balance: u128)
        ensures
            final(self)@ == old(self)@.insert(account@, balance),
    {
        proof {
            use_type_invariant(&*self);
        }
        let ghost before = self.pairs();
        let place = self.position(account);
        // The list leaves the ledger while it changes, so that what the ledger
        // holds has no account twice at any step.
        let mut entries: Vec<(AccountId, u128)> = Vec::new();
        core::mem::swap(&mut self.entries, &mut entries);
        match place {
            Some(i) => {
                proof {
                    lemma_map_of_update(before, i as int, balance);
                }
                entries.set(i, (account.clone(), balance));
                assert(pairs_of(entries@) =~= before.update(i as int, (account@, balance)));
            },
            None => {
                entries.push((account.clone(), balance));
                assert(pairs_of(entries@).drop_last() =~= before);
                let ghost after = pairs_of(entries@);
                assert forall|a: int, b: int| 0 <= a < b < after.len() implies
                    (#[trigger] after[a]).0 != (#[trigger] after[b]).0 by {
                    assert(after[a] == before[a]);
                    if b < before.len() {
                        assert(after[b] == before[b]);
                    }
                }
            },
        }
        core::mem::swap(&mut self.entries, &mut entries);
    }

    /// The number of accounts in the ledger.
    pub fn len(&self) -> (n: usize)
        ensures
            n == self@.dom().len(),
            n == self.pairs().len(),
            self@.dom().finite(),
    {
        proof {
            use_type_invariant(self);
            lemma_map_of_len(self.pairs());
        }
        self.entries.len()
    }

    /// The account in the place `i` and its balance, `None` past the last.
    pub fn entry(&self, i: usize) -> (entry: Option<(&AccountId, u128)>)
        ensures
            match entry {
                Some(found) => {
                    &&& i < self.pairs().len()
                    &&& self.pairs()[i as int] == (found.0@, found.1)
                    &&& self@.contains_key(found.0@)
                    &&& self@[found.0@] == found.1
                },
                None => i >= self.pairs().len(),
            },
    {
        if i < self.entries.len() {
            proof {
                use_type_invariant(self);
                lemma_map_of_value(self.pairs(), i as int);
            }
            Some((&self.entries[i].0, self.entries[i].1))
        } else {
            None
        }
    }
}

/// The balance that a ledger holds for an account; an absent account holds nothing.
pub open spec fn balance_in(entries: Map<Seq<char>, u128>, account: Seq<char>) -> u128 {
    if entries.contains_key(account) {
        entries[account]
    } else {
        0
    }
}

/// The sum of all balances of a finite ledger.
pub open spec fn ledger_sum(entries: Map<Seq<char>, u128>) -> nat
    decreases entries.dom().len(),
    when entries.dom().finite()
{
    if entries.dom().len() == 0 {
        0
    } else {
        let account = entries.dom().choose();
        entries[account] as nat + ledger_sum(entries.remove(account))
    }
}

/// The sum of a ledger is the balance of any one account plus the sum of the rest.
pub proof fn lemma_sum_split(entries: Map<Seq<char>, u128>, account: Seq<char>)
    requires
        entries.dom().finite(),
        entries.contains_key(account),
    ensures
        ledger_sum(entries) == entries[account] + ledger_sum(entries.remove(account)),
    decreases entries.dom().len(),
{
    let first = entries.dom().choose();
    if entries.dom().len() != 0 && first != account {
        let without_first = entries.remove(first);
        let without_account = entries.remove(account);
        lemma_sum_split(without_first, account);
        lemma_sum_split(without_account, first);
        assert(without_first.remove(account) =~= without_account.remove(first));
    }
}

/// An empty ledger sums to zero.
pub proof fn lemma_sum_empty()
    ensures
        ledger_sum(empty_entries()) == 0,
{
}

/// Writing a balance changes the sum by the difference to the balance it replaces.
pub proof fn lemma_sum_insert(entries: Map<Seq<char>, u128>, account: Seq<char>, balance: u128)
    requires
        entries.dom().finite(),
    ensures
        entries.insert(account, balance).dom().finite(),
        ledger_sum(entries.insert(account, balance)) == ledger_sum(entries) - balance_in(
            entries,
            account,
        ) + balance,
{
    let after = entries.insert(account, balance);
    lemma_sum_split(after, account);
    assert(after.remove(account) =~= entries.remove(account));
    if entries.contains_key(account) {
        lemma_sum_split(entries, account);
    } else {
        assert(entries.remove(account) =~= entries);
    }
}

/// No account holds more than the sum of the ledger.
pub proof fn lemma_balance_le_sum(entries: Map<Seq<char>, u128>, account: Seq<char>)
    requires
        entries.dom().finite(),
    ensures
        balance_in(entries, account) <= ledger_sum(entries),
{
    if entries.contains_key(account) {
        lemma_sum_split(entries, account);
    }
}

} // verus!
