//! The token ledger: how many tokens each account holds.

use vstd::prelude::*;
use crate::errors::ContractError;
use crate::table::{distinct_keys, entries_map, Table};

verus! {

/// What an account holds; nothing where the ledger has no entry for it.
pub open spec fn balance_of(balances: Map<Seq<char>, int>, account: Seq<char>) -> int {
    if balances.contains_key(account) {
        balances[account]
    } else {
        0
    }
}

/// No account holds less than nothing.
pub open spec fn non_negative(balances: Map<Seq<char>, int>) -> bool {
    forall|account: Seq<char>| balance_of(balances, account) >= 0
}

/// No account holds more than the ledger can count.
pub open spec fn within_range(balances: Map<Seq<char>, int>) -> bool {
    forall|account: Seq<char>| balance_of(balances, account) <= u128::MAX
}

/// A credit is carried out unless the balance would leave the ledger's range.
pub open spec fn can_credit(balances: Map<Seq<char>, int>, account: Seq<char>, amount: int) -> bool {
    balance_of(balances, account) + amount <= u128::MAX
}

/// A debit is carried out only where the account holds the amount.
pub open spec fn can_debit(balances: Map<Seq<char>, int>, account: Seq<char>, amount: int) -> bool {
    balance_of(balances, account) >= amount
}

/// The balances after a credit that is carried out.
pub open spec fn credited(
    balances: Map<Seq<char>, int>,
    account: Seq<char>,
    amount: int,
) -> Map<Seq<char>, int> {
    balances.insert(account, balance_of(balances, account) + amount)
}

/// The balances after a debit that is carried out.
pub open spec fn debited(
    balances: Map<Seq<char>, int>,
    account: Seq<char>,
    amount: int,
) -> Map<Seq<char>, int> {
    balances.insert(account, balance_of(balances, account) - amount)
}

/// A request to the ledger.
pub enum LedgerOp {
    Credit { account: Seq<char>, amount: nat },
    Debit { account: Seq<char>, amount: nat },
}

/// The balances after a request: those of a credit or debit that is carried
/// out, and the balances as they were after one that is rejected.
pub open spec fn apply(balances: Map<Seq<char>, int>, op: LedgerOp) -> Map<Seq<char>, int> {
    match op {
        LedgerOp::Credit { account, amount } => if can_credit(balances, account, amount as int) {
            credited(balances, account, amount as int)
        } else {
            balances
        },
        LedgerOp::Debit { account, amount } => if can_debit(balances, account, amount as int) {
            debited(balances, account, amount as int)
        } else {
            balances
        },
    }
}

/// The balances after a sequence of requests, made one after the other.
pub open spec fn apply_all(balances: Map<Seq<char>, int>, ops: Seq<LedgerOp>) -> Map<Seq<char>, int>
    decreases ops.len(),
{
    if ops.len() == 0 {
        balances
    } else {
        apply(apply_all(balances, ops.drop_last()), ops.last())
    }
}

/// A request leaves no balance below zero.
pub proof fn lemma_apply_keeps_non_negative(balances: Map<Seq<char>, int>, op: LedgerOp)
    requires
        non_negative(balances),
    ensures
        non_negative(apply(balances, op)),
{
    let after = apply(balances, op);
    assert forall|account: Seq<char>| balance_of(after, account) >= 0 by {
        assert(balance_of(balances, account) >= 0);
        match op {
            LedgerOp::Credit { account: a, amount } => {
                assert(balance_of(balances, a) >= 0);
            },
            LedgerOp::Debit { account: a, amount } => {
                assert(balance_of(balances, a) >= 0);
            },
        }
    }
}

/// Whatever credits and debits are asked for, in whatever order, no balance
/// is ever below zero: a debit of more than the account holds is rejected.
pub proof fn lemma_requests_keep_non_negative(balances: Map<Seq<char>, int>, ops: Seq<LedgerOp>)
    requires
        non_negative(balances),
    ensures
        non_negative(apply_all(balances, ops)),
    decreases ops.len(),
{
    if ops.len() > 0 {
        lemma_requests_keep_non_negative(balances, ops.drop_last());
        lemma_apply_keeps_non_negative(apply_all(balances, ops.drop_last()), ops.last());
    }
}

/// The stored amounts as numbers.
pub open spec fn amounts(stored: Map<Seq<char>, u128>) -> Map<Seq<char>, int> {
    Map::new(
        |account: Seq<char>| stored.contains_key(account),
        |account: Seq<char>| stored[account] as int,
    )
}

/// The balances of all accounts, in the smallest unit of the token.
pub struct TokenLedger {
    balances: Table<String, u128>,
}

impl TokenLedger {
    /// The representation is sound.
    pub closed spec fn wf(&self) -> bool {
        self.balances.wf()
    }

    /// The accounts with an entry, and what each holds.
    pub closed spec fn as_map(&self) -> Map<Seq<char>, int> {
        amounts(self.balances@)
    }

    /// The ledger that the list of entries stands for, where the first entry
    /// of an account is the one that counts.
    pub fn from_entries(entries: Vec<(String, u128)>) -> (ledger: Self)
        ensures
            ledger.wf(),
            ledger@ == amounts(entries_map(entries@)),
    {
        TokenLedger { balances: Table::from_entries(entries) }
    }

    /// The entries of the ledger, one for each account.
    pub fn into_entries(self) -> (entries: Vec<(String, u128)>)
        requires
            self.wf(),
        ensures
            distinct_keys(entries@),
            amounts(entries_map(entries@)) == self@,
    {
        self.balances.into_entries()
    }

    /// Each balance is within the range of the ledger's integers.
    pub proof fn lemma_in_range(&self)
        ensures
            non_negative(self@),
            within_range(self@),
    {
    }

    /// A ledger without entries.
    pub fn new() -> (ledger: Self)
        ensures
            ledger.wf(),
            ledger@ == Map::<Seq<char>, int>::empty(),
    {
        let ledger = TokenLedger { balances: Table::new() };
        assert(ledger.as_map() =~= Map::<Seq<char>, int>::empty());
        ledger
    }

    /// What the account holds.
    pub fn balance(&self, account: &String) -> (held: u128)
        requires
            self.wf(),
        ensures
            held == balance_of(self@, account@),
    {
        match self.balances.get(account) {
            Some(held) => *held,
            None => 0,
        }
    }

    fn set(&mut self, account: &String, amount: u128)
        requires
            old(self).wf(),
        ensures
            final(self).wf(),
            final(self)@ == old(self)@.insert(account@, amount as int),
    {
        self.balances.insert(account.clone(), amount);
        assert(self.as_map() =~= old(self).as_map().insert(account@, amount as int));
    }

    /// Adds the amount to what the account holds. Rejected with
    /// `ArithmeticOverflow`, and without effect, where the sum is out of range.
    pub fn credit(&mut self, account: &String, amount: u128) -> (done: Result<(), ContractError>)
        requires
            old(self).wf(),
        ensures
            final(self).wf(),
            final(self)@ == apply(
                old(self)@,
                LedgerOp::Credit { account: account@, amount: amount as nat },
            ),
            done == if can_credit(old(self)@, account@, amount as int) {
                Ok::<(), ContractError>(())
            } else {
                Err(ContractError::ArithmeticOverflow)
            },
    {
        let held = self.balance(account);
        match held.checked_add(amount) {
            Some(sum) => {
                self.set(account, sum);
                Ok(())
            },
            None => Err(ContractError::ArithmeticOverflow),
        }
    }

    /// Takes the amount from what the account holds. Rejected with
    /// `InsufficientBalance`, and without effect, where it holds less.
    pub fn debit(&mut self, account: &String, amount: u128) -> (done: Result<(), ContractError>)
        requires
            old(self).wf(),
        ensures
            final(self).wf(),
            final(self)@ == apply(
                old(self)@,
                LedgerOp::Debit { account: account@, amount: amount as nat },
            ),
            done == if can_debit(old(self)@, account@, amount as int) {
                Ok::<(), ContractError>(())
            } else {
                Err(ContractError::InsufficientBalance)
            },
    {
        let held = self.balance(account);
        if held < amount {
            Err(ContractError::InsufficientBalance)
        } else {
            self.set(account, held - amount);
            Ok(())
        }
    }
}

impl View for TokenLedger {
    type V = Map<Seq<char>, int>;

    open spec fn view(&self) -> Map<Seq<char>, int> {
        self.as_map()
    }
}

} // verus!
