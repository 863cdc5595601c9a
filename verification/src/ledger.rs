use vstd::prelude::*;

use crate::account::AccountId;
use crate::error::ContractError;

verus! {

/// One materialized ledger row: an account and its stored balance.
struct Entry {
    account: AccountId,
    amount: u128,
}

/// The balance that a row sequence assigns to `key`: the amount of the
/// first row for that account, or 0 when no row holds it.
spec fn row_balance(rows: Seq<Entry>, key: Seq<u8>) -> u128
    decreases rows.len(),
{
    if rows.len() == 0 {
        0
    } else if rows[0].account@ == key {
        rows[0].amount
    } else {
        row_balance(rows.drop_first(), key)
    }
}

/// The sum of all stored amounts.
spec fn rows_total(rows: Seq<Entry>) -> int
    decreases rows.len(),
{
    if rows.len() == 0 {
        0
    } else {
        rows[0].amount + rows_total(rows.drop_first())
    }
}

/// Each account appears in at most one row.
spec fn distinct_accounts(rows: Seq<Entry>) -> bool {
    forall|i: int, j: int| 0 <= i < j < rows.len() ==> rows[i].account@ != rows[j].account@
}

proof fn lemma_distinct_drop_first(rows: Seq<Entry>)
    requires
        distinct_accounts(rows),
        rows.len() > 0,
    ensures
        distinct_accounts(rows.drop_first()),
{
    let rest = rows.drop_first();
    assert forall|a: int, b: int| 0 <= a < b < rest.len() implies rest[a].account@
        != rest[b].account@ by {
        assert(rest[a] == rows[a + 1]);
        assert(rest[b] == rows[b + 1]);
    }
}

/// A row for `key` at index `i` settles the balance of `key`.
proof fn lemma_balance_present(rows: Seq<Entry>, key: Seq<u8>, i: int)
    requires
        distinct_accounts(rows),
        0 <= i < rows.len(),
        rows[i].account@ == key,
    ensures
        row_balance(rows, key) == rows[i].amount,
    decreases i,
{
    if i > 0 {
        let rest = rows.drop_first();
        lemma_distinct_drop_first(rows);
        assert(rest[i - 1] == rows[i]);
        lemma_balance_present(rest, key, i - 1);
    }
}

/// A key held by no row has balance 0.
proof fn lemma_balance_absent(rows: Seq<Entry>, key: Seq<u8>)
    requires
        forall|j: int| 0 <= j < rows.len() ==> rows[j].account@ != key,
    ensures
        row_balance(rows, key) == 0,
    decreases rows.len(),
{
    if rows.len() > 0 {
        let rest = rows.drop_first();
        assert forall|j: int| 0 <= j < rest.len() implies rest[j].account@ != key by {
            assert(rest[j] == rows[j + 1]);
        }
        lemma_balance_absent(rest, key);
    }
}

/// Overwriting the row of an account changes that account's balance alone.
proof fn lemma_balance_update(rows: Seq<Entry>, i: int, e: Entry, key: Seq<u8>)
    requires
        distinct_accounts(rows),
        0 <= i < rows.len(),
        rows[i].account@ == e.account@,
    ensures
        row_balance(rows.update(i, e), key) == if key == e.account@ {
            e.amount
        } else {
            row_balance(rows, key)
        },
    decreases i,
{
    let updated = rows.update(i, e);
    if i == 0 {
        assert(updated[0] == e);
        if key != e.account@ {
            assert(updated.drop_first() =~= rows.drop_first());
        }
    } else {
        assert(updated[0] == rows[0]);
        assert(updated.drop_first() =~= rows.drop_first().update(i - 1, e));
        lemma_distinct_drop_first(rows);
        assert(rows.drop_first()[i - 1] == rows[i]);
        lemma_balance_update(rows.drop_first(), i - 1, e, key);
    }
}

/// Overwriting one row shifts the total by the difference of the amounts.
proof fn lemma_total_update(rows: Seq<Entry>, i: int, e: Entry)
    requires
        0 <= i < rows.len(),
    ensures
        rows_total(rows.update(i, e)) == rows_total(rows) - rows[i].amount + e.amount,
    decreases i,
{
    let updated = rows.update(i, e);
    if i == 0 {
        assert(updated[0] == e);
        assert(updated.drop_first() =~= rows.drop_first());
    } else {
        assert(updated[0] == rows[0]);
        assert(updated.drop_first() =~= rows.drop_first().update(i - 1, e));
        lemma_total_update(rows.drop_first(), i - 1, e);
    }
}

/// Appending a row for a fresh account sets that account's balance and adds
/// its amount to the total, touching nothing else.
proof fn lemma_balance_push(rows: Seq<Entry>, e: Entry, key: Seq<u8>)
    requires
        forall|j: int| 0 <= j < rows.len() ==> rows[j].account@ != e.account@,
    ensures
        row_balance(rows.push(e), key) == if key == e.account@ {
            e.amount
        } else {
            row_balance(rows, key)
        },
        rows_total(rows.push(e)) == rows_total(rows) + e.amount,
    decreases rows.len(),
{
    let pushed = rows.push(e);
    if rows.len() == 0 {
        assert(pushed[0] == e);
        assert(pushed.drop_first() =~= Seq::<Entry>::empty());
        assert(rows_total(Seq::<Entry>::empty()) == 0);
        assert(row_balance(Seq::<Entry>::empty(), key) == 0);
        assert(rows_total(pushed) == e.amount + rows_total(pushed.drop_first()));
        assert(row_balance(rows, key) == 0);
        assert(rows_total(rows) == 0);
    } else {
        assert(pushed[0] == rows[0]);
        assert(pushed.drop_first() =~= rows.drop_first().push(e));
        assert forall|j: int| 0 <= j < rows.drop_first().len() implies rows.drop_first()[j].account@
            != e.account@ by {
            assert(rows.drop_first()[j] == rows[j + 1]);
        }
        lemma_balance_push(rows.drop_first(), e, key);
    }
}

proof fn lemma_rows_total_nonneg(rows: Seq<Entry>)
    ensures
        rows_total(rows) >= 0,
    decreases rows.len(),
{
    if rows.len() > 0 {
        lemma_rows_total_nonneg(rows.drop_first());
    }
}

proof fn lemma_row_balance_le_total(rows: Seq<Entry>, key: Seq<u8>)
    ensures
        row_balance(rows, key) <= rows_total(rows),
    decreases rows.len(),
{
    if rows.len() > 0 {
        lemma_rows_total_nonneg(rows.drop_first());
        lemma_row_balance_le_total(rows.drop_first(), key);
    }
}

proof fn lemma_row_pair_le_total(rows: Seq<Entry>, k1: Seq<u8>, k2: Seq<u8>)
    requires
        k1 != k2,
    ensures
        row_balance(rows, k1) + row_balance(rows, k2) <= rows_total(rows),
    decreases rows.len(),
{
    if rows.len() > 0 {
        if rows[0].account@ == k1 {
            lemma_row_balance_le_total(rows.drop_first(), k2);
        } else if rows[0].account@ == k2 {
            lemma_row_balance_le_total(rows.drop_first(), k1);
        } else {
            lemma_row_pair_le_total(rows.drop_first(), k1, k2);
        }
    }
}

/// The account → balance mapping: the Ledger Store.
///
/// An account with no row reads as balance 0; rows are created lazily on
/// first write and never removed, and each account has at most one row.
pub struct Ledger {
    entries: Vec<Entry>,
}

impl Ledger {
    /// The ledger holds each account at most once.
    pub closed spec fn wf(self) -> bool {
        distinct_accounts(self.entries@)
    }

    /// The balance of `key`: the stored amount, or 0 when `key` was never
    /// written.
    pub closed spec fn balance_of(self, key: Seq<u8>) -> u128 {
        row_balance(self.entries@, key)
    }

    /// The sum of all stored balances.
    pub closed spec fn total(self) -> int {
        rows_total(self.entries@)
    }

    /// The total supply is a sum of non-negative balances, so it is itself
    /// never negative.
    pub proof fn lemma_total_nonnegative(self)
        ensures
            self.total() >= 0,
    {
        lemma_rows_total_nonneg(self.entries@);
    }

    /// No single balance exceeds the total supply.
    pub proof fn lemma_balance_le_total(self, key: Seq<u8>)
        ensures
            self.balance_of(key) <= self.total(),
    {
        lemma_row_balance_le_total(self.entries@, key);
    }

    /// The balances of two different accounts together never exceed the
    /// total supply: value moved to one account cannot still be counted at
    /// another.
    pub proof fn lemma_pair_le_total(self, k1: Seq<u8>, k2: Seq<u8>)
        requires
            k1 != k2,
        ensures
            self.balance_of(k1) + self.balance_of(k2) <= self.total(),
    {
        lemma_row_pair_le_total(self.entries@, k1, k2);
    }

    /// An empty ledger: every account reads as 0.
    pub fn new() -> (r: Ledger)
        ensures
            r.wf(),
            forall|k: Seq<u8>| r.balance_of(k) == 0,
            r.total() == 0,
    {
        let l = Ledger { entries: Vec::new() };
        proof {
            assert forall|k: Seq<u8>| l.balance_of(k) == 0 by {}
        }
        l
    }

    /// The index of the row holding `account`, if one exists.
    fn find_index(&self, account: &AccountId) -> (r: Option<usize>)
        ensures
            match r {
                Some(i) => i < self.entries@.len() && self.entries@[i as int].account@
                    == account@,
                None => forall|j: int|
                    0 <= j < self.entries@.len() ==> self.entries@[j].account@ != account@,
            },
    {
        let n = self.entries.len();
        let mut i: usize = 0;
        while i < n
            invariant
                n == self.entries.len(),
                i <= n,
                forall|j: int| 0 <= j < i ==> self.entries@[j].account@ != account@,
            decreases n - i,
        {
            let e = &self.entries[i];
            if e.account.same_as(account) {
                return Some(i);
            }
            i = i + 1;
        }
        None
    }

    /// Reads the stored balance of `account`, or 0 when absent. Never fails.
    pub fn get(&self, account: &AccountId) -> (r: u128)
        requires
            self.wf(),
        ensures
            r == self.balance_of(account@),
    {
        match self.find_index(account) {
            Some(i) => {
                proof {
                    lemma_balance_present(self.entries@, account@, i as int);
                }
                let e = &self.entries[i];
                e.amount
            },
            None => {
                proof {
                    lemma_balance_absent(self.entries@, account@);
                }
                0
            },
        }
    }

    /// Overwrites the stored balance of `account` unconditionally. Never
    /// fails; every other account keeps its balance, and the total moves by
    /// exactly the difference written.
    pub fn set(&mut self, account: &AccountId, value: u128)
        requires
            old(self).wf(),
        ensures
            final(self).wf(),
            final(self).balance_of(account@) == value,
            forall|k: Seq<u8>|
                k != account@ ==> final(self).balance_of(k) == old(self).balance_of(k),
            final(self).total() == old(self).total() - old(self).balance_of(account@) + value,
    {
        let ghost old_rows = self.entries@;
        let row = Entry { account: account.duplicate(), amount: value };
        match self.find_index(account) {
            Some(i) => {
                proof {
                    lemma_balance_present(old_rows, account@, i as int);
                    lemma_total_update(old_rows, i as int, row);
                }
                self.entries.set(i, row);
                proof {
                    assert forall|k: Seq<u8>| k != account@ implies self.balance_of(k) == row_balance(
                        old_rows,
                        k,
                    ) by {
                        lemma_balance_update(old_rows, i as int, row, k);
                    }
                    lemma_balance_update(old_rows, i as int, row, account@);
                    assert forall|a: int, b: int|
                        0 <= a < b < self.entries@.len() implies self.entries@[a].account@
                        != self.entries@[b].account@ by {
                        assert(old_rows[a].account@ != old_rows[b].account@);
                    }
                }
            },
            None => {
                proof {
                    lemma_balance_absent(old_rows, account@);
                }
                self.entries.push(row);
                proof {
                    assert forall|k: Seq<u8>| k != account@ implies self.balance_of(k) == row_balance(
                        old_rows,
                        k,
                    ) by {
                        lemma_balance_push(old_rows, row, k);
                    }
                    lemma_balance_push(old_rows, row, account@);
                    assert forall|a: int, b: int|
                        0 <= a < b < self.entries@.len() implies self.entries@[a].account@
                        != self.entries@[b].account@ by {
                        if b < old_rows.len() {
                            assert(old_rows[a].account@ != old_rows[b].account@);
                        } else {
                            assert(self.entries@[b] == row);
                            assert(old_rows[a].account@ != row.account@);
                        }
                    }
                }
            },
        }
    }

    /// Reads the current balance of `account` (or 0), applies `f`, and
    /// writes the result, as one logical step: invocations are serialized,
    /// so nothing interleaves. When `f` fails, nothing is written and its
    /// error is returned.
    pub fn update<F: FnOnce(u128) -> Result<u128, ContractError>>(
        &mut self,
        account: &AccountId,
        f: F,
    ) -> (r: Result<u128, ContractError>)
        requires
            old(self).wf(),
            call_requires(f, (old(self).balance_of(account@),)),
        ensures
            final(self).wf(),
            match r {
                Ok(v) => {
                    &&& call_ensures(f, (old(self).balance_of(account@),), Ok(v))
                    &&& final(self).balance_of(account@) == v
                    &&& forall|k: Seq<u8>|
                        k != account@ ==> final(self).balance_of(k) == old(self).balance_of(k)
                    &&& final(self).total() == old(self).total() - old(self).balance_of(account@)
                        + v
                },
                Err(e) => {
                    &&& call_ensures(f, (old(self).balance_of(account@),), Err(e))
                    &&& *final(self) == *old(self)
                },
            },
    {
        let current = self.get(account);
        match f(current) {
            Ok(next) => {
                self.set(account, next);
                Ok(next)
            },
            Err(e) => Err(e),
        }
    }
}

} // verus!
