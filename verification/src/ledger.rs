use vstd::prelude::*;

verus! {

/// A prepaid account: its unique identifier and its non-negative balance in
/// the currency-agnostic base unit.
#[derive(Debug)]
pub struct Account {
    pub id: String,
    pub balance: u128,
}

/// The outcome of an attempted debit.
#[derive(Clone, Copy, Debug, PartialEq, Eq, Structural)]
pub enum DebitOutcome {
    Debited,
    InsufficientFunds,
    AccountNotFound,
}

/// An error of a ledger operation; both leave the ledger untouched.
#[derive(Clone, Copy, Debug, PartialEq, Eq, Structural)]
pub enum LedgerError {
    AccountAlreadyExists,
    AccountNotFound,
}

/// The ledger of prepaid balances; every account identifier appears at most
/// once, and balances can never go negative.
pub struct BalanceLedger {
    accounts: Vec<Account>,
}

impl View for BalanceLedger {
    type V = Seq<Account>;

    closed spec fn view(&self) -> Seq<Account> {
        self.accounts@
    }
}

impl BalanceLedger {
    /// Account identifiers are unique across the ledger.
    pub open spec fn wf(self) -> bool {
        forall|i: int, j: int|
            #![trigger self@[i], self@[j]]
            0 <= i < j < self@.len() ==> self@[i].id@ != self@[j].id@
    }

    /// Some account carries this identifier.
    pub open spec fn contains_account(self, id: Seq<char>) -> bool {
        exists|i: int| 0 <= i < self@.len() && (#[trigger] self@[i].id@) == id
    }

    /// The position of the account with this identifier; meaningful only when
    /// `contains_account` holds, and then unique by `wf`.
    pub open spec fn account_index_of(self, id: Seq<char>) -> int {
        choose|i: int| 0 <= i < self@.len() && (#[trigger] self@[i].id@) == id
    }

    /// The balance held under this identifier; meaningful only when
    /// `contains_account` holds.
    pub open spec fn balance_of(self, id: Seq<char>) -> u128 {
        self@[self.account_index_of(id)].balance
    }

    /// The balance held under this identifier, if the account exists.
    pub open spec fn spec_balance(self, id: Seq<char>) -> Option<u128> {
        if self.contains_account(id) {
            Some(self.balance_of(id))
        } else {
            None
        }
    }

    /// The ledger `post` is `pre` with every account kept and only the
    /// balance under `id` changed, to `balance`.
    pub open spec fn updated(pre: BalanceLedger, post: BalanceLedger, id: Seq<char>, balance: u128) -> bool {
        &&& forall|k: Seq<char>| post.contains_account(k) == pre.contains_account(k)
        &&& post.balance_of(id) == balance
        &&& forall|k: Seq<char>|
            k != id && pre.contains_account(k) ==> post.balance_of(k) == pre.balance_of(k)
    }

    pub fn new() -> (r: BalanceLedger)
        ensures
            r@ =~= Seq::<Account>::empty(),
            r.wf(),
            forall|k: Seq<char>| !r.contains_account(k),
    {
        BalanceLedger { accounts: Vec::new() }
    }

    /// Creates a zero-balance account under a fresh identifier; opening an
    /// identifier already present is a no-op that signals the duplicate and,
    /// in particular, does not reset the existing balance.
    pub fn open_account(&mut self, account_id: String) -> (r: Result<(), LedgerError>)
        requires
            old(self).wf(),
        ensures
            final(self).wf(),
            old(self).contains_account(account_id@) ==> r == Err::<(), LedgerError>(
                LedgerError::AccountAlreadyExists,
            ) && final(self)@ == old(self)@,
            !old(self).contains_account(account_id@) ==> r == Ok::<(), LedgerError>(())
                && final(self)@ =~= old(self)@.push(
                (Account { id: account_id, balance: 0 }),
            ),
    {
        let n = self.accounts.len();
        let mut i: usize = 0;
        while i < n
            invariant
                i <= n,
                forall|j: int| 0 <= j < i ==> self@[j].id@ != account_id@,
            decreases n - i,
        {
            if self.accounts[i].id == account_id {
                proof {
                    assert(self@[i as int].id@ == account_id@);
                    assert(self.contains_account(account_id@));
                }
                return Err(LedgerError::AccountAlreadyExists);
            }
            i = i + 1;
        }
        self.accounts.push(Account { id: account_id, balance: 0 });
        proof {
            let m = old(self)@.len() as int;
            assert(self@[m].id@ == account_id@);
            assert forall|a: int, b: int| 0 <= a < b < self@.len() implies self@[a].id@
                != self@[b].id@ by {
                if b == m {
                    assert(self@[a].id@ == old(self)@[a].id@);
                } else {
                    assert(old(self)@[a].id@ != old(self)@[b].id@);
                }
            }
        }
        Ok(())
    }

    /// Finds the position of the account with this identifier, if any.
    fn index_of(&self, account_id: &String) -> (r: Option<usize>)
        requires
            self.wf(),
        ensures
            match r {
                Some(i) => self.contains_account(account_id@) && i
                    == self.account_index_of(account_id@) && i < self@.len(),
                None => !self.contains_account(account_id@),
            },
    {
        let n = self.accounts.len();
        let mut i: usize = 0;
        while i < n
            invariant
                i <= n,
                forall|j: int| 0 <= j < i ==> self@[j].id@ != account_id@,
            decreases n - i,
        {
            if self.accounts[i].id == *account_id {
                proof {
                    assert(self@[i as int].id@ == account_id@);
                    assert(self.contains_account(account_id@));
                    let c = self.account_index_of(account_id@);
                    if c != i {
                        assert(self@[c].id@ != self@[i as int].id@);
                    }
                }
                return Some(i);
            }
            i = i + 1;
        }
        None
    }

    /// The balance under this identifier, if the account exists.
    pub fn balance(&self, account_id: &String) -> (r: Option<u128>)
        requires
            self.wf(),
        ensures
            r == self.spec_balance(account_id@),
    {
        match self.index_of(account_id) {
            Some(i) => Some(self.accounts[i].balance),
            None => None,
        }
    }

    /// Adds the amount to the balance of an existing account; topping up an
    /// absent account is a no-op that signals the missing account.
    pub fn top_up(&mut self, account_id: &String, amount: u128) -> (r: Result<(), LedgerError>)
        requires
            old(self).wf(),
            old(self).contains_account(account_id@) ==> old(self).balance_of(account_id@) + amount
                <= u128::MAX,
        ensures
            final(self).wf(),
            !old(self).contains_account(account_id@) ==> r == Err::<(), LedgerError>(
                LedgerError::AccountNotFound,
            ) && final(self)@ == old(self)@,
            old(self).contains_account(account_id@) ==> r == Ok::<(), LedgerError>(())
                && BalanceLedger::updated(
                *old(self),
                *final(self),
                account_id@,
                (old(self).balance_of(account_id@) + amount) as u128,
            ),
    {
        match self.index_of(account_id) {
            Some(i) => {
                let ghost pre = *self;
                let new_balance = self.accounts[i].balance + amount;
                self.accounts[i].balance = new_balance;
                proof {
                    lemma_balance_set(pre, *self, i as int, new_balance);
                }
                Ok(())
            },
            None => Err(LedgerError::AccountNotFound),
        }
    }

    /// Debits the amount only when the balance covers it: an atomic
    /// read-check-write that never leaves a balance negative and leaves the
    /// ledger untouched on either failure outcome.
    pub fn debit_if_sufficient(&mut self, account_id: &String, amount: u128) -> (r: DebitOutcome)
        requires
            old(self).wf(),
        ensures
            final(self).wf(),
            !old(self).contains_account(account_id@) ==> r == DebitOutcome::AccountNotFound
                && final(self)@ == old(self)@,
            old(self).contains_account(account_id@) && old(self).balance_of(account_id@) < amount
                ==> r == DebitOutcome::InsufficientFunds && final(self)@ == old(self)@,
            old(self).contains_account(account_id@) && old(self).balance_of(account_id@) >= amount
                ==> r == DebitOutcome::Debited && BalanceLedger::updated(
                *old(self),
                *final(self),
                account_id@,
                (old(self).balance_of(account_id@) - amount) as u128,
            ),
    {
        match self.index_of(account_id) {
            Some(i) => {
                let current = self.accounts[i].balance;
                if current < amount {
                    DebitOutcome::InsufficientFunds
                } else {
                    let ghost pre = *self;
                    let new_balance = current - amount;
                    self.accounts[i].balance = new_balance;
                    proof {
                        lemma_balance_set(pre, *self, i as int, new_balance);
                    }
                    DebitOutcome::Debited
                }
            },
            None => DebitOutcome::AccountNotFound,
        }
    }
}

/// Balance non-negativity: whatever sequence of top-up and settlement
/// operations built the ledger, every balance it holds is at least zero —
/// balances are unsigned, and a debit only ever subtracts an amount the
/// balance covers.
pub proof fn lemma_balance_never_negative(l: BalanceLedger, id: Seq<char>)
    ensures
        l.balance_of(id) >= 0,
{
}

/// Overwriting one account's balance in place keeps every identifier, sets
/// that account's balance, and leaves every other balance as it was.
proof fn lemma_balance_set(pre: BalanceLedger, post: BalanceLedger, i: int, balance: u128)
    requires
        pre.wf(),
        0 <= i < pre@.len(),
        post@ == pre@.update(i, (Account { id: pre@[i].id, balance })),
    ensures
        post.wf(),
        BalanceLedger::updated(pre, post, pre@[i].id@, balance),
{
    assert(post@.len() == pre@.len());
    assert(forall|j: int| 0 <= j < pre@.len() ==> post@[j].id@ == pre@[j].id@);
    assert forall|k: Seq<char>| post.contains_account(k) == pre.contains_account(k) by {
        if pre.contains_account(k) {
            let w = pre.account_index_of(k);
            assert(post@[w].id@ == k);
        }
        if post.contains_account(k) {
            let w = post.account_index_of(k);
            assert(pre@[w].id@ == k);
        }
    }
    let id = pre@[i].id@;
    assert(post.contains_account(id));
    let c = post.account_index_of(id);
    if c != i {
        assert(pre@[c].id@ != pre@[i].id@);
    }
    assert(post.balance_of(id) == balance);
    assert forall|k: Seq<char>| k != id && pre.contains_account(k) implies post.balance_of(k)
        == pre.balance_of(k) by {
        let cp = pre.account_index_of(k);
        assert(post@[cp].id@ == k);
        assert(post.contains_account(k));
        let cq = post.account_index_of(k);
        assert(post@[cq].id@ == k);
        assert(pre@[cq].id@ == k);
        if cq != cp {
            assert(pre@[cq].id@ != pre@[cp].id@);
        }
        assert(cq != i);
    }
}

} // verus!
