use std::collections::HashMap;
use vstd::prelude::*;
use crate::operation::{
    DepositError, Operation, OperationOutcome, TransferError, INITIAL_BALANCE,
};

verus! {

broadcast use vstd::std_specs::hash::group_hash_axioms;

/// Whether an integer fits in an `i64`.
pub open spec fn fits_i64(x: int) -> bool {
    i64::MIN <= x <= i64::MAX
}

/// Sum of the balances of accounts `1..=k`.
pub open spec fn sum_balances(m: Map<u32, i64>, k: nat) -> int
    decreases k,
{
    if k == 0 {
        0
    } else {
        sum_balances(m, (k - 1) as nat) + m[k as u32]
    }
}

/// The accounts of a bank with `n` accounts: ids `1..=n`, each starting at
/// the initial balance.
pub open spec fn initial_accounts(n: u32) -> Map<u32, i64> {
    Map::new(|id: u32| 1 <= id <= n, |id: u32| INITIAL_BALANCE)
}

/// The accounts map has exactly the ids `1..=n`.
pub open spec fn has_ids(m: Map<u32, i64>, n: u32) -> bool {
    forall|id: u32| m.contains_key(id) <==> 1 <= id <= n
}

/// What a deposit of `amount` into `id` gives back.
pub open spec fn deposit_outcome(m: Map<u32, i64>, id: u32, amount: i64) -> Result<i64, DepositError> {
    if !m.contains_key(id) {
        Err(DepositError::AccountNotFound)
    } else if !fits_i64(m[id] + amount) {
        Err(DepositError::BalanceOutOfRange)
    } else {
        Ok((m[id] + amount) as i64)
    }
}

/// The accounts after a deposit: changed only when the deposit succeeds.
pub open spec fn after_deposit(m: Map<u32, i64>, id: u32, amount: i64) -> Map<u32, i64> {
    match deposit_outcome(m, id, amount) {
        Ok(b) => m.insert(id, b),
        Err(_) => m,
    }
}

/// What a transfer of `amount` from `from` to `to` gives back.
pub open spec fn transfer_outcome(m: Map<u32, i64>, from: u32, to: u32, amount: i64) -> Result<(), TransferError> {
    if from == to {
        Err(TransferError::SameAccount)
    } else if !m.contains_key(from) || !m.contains_key(to) {
        Err(
            TransferError::MissingAccounts {
                source_missing: !m.contains_key(from),
                destination_missing: !m.contains_key(to),
            },
        )
    } else if m[from] < amount {
        Err(TransferError::InsufficientFunds)
    } else if !fits_i64(m[from] - amount) || !fits_i64(m[to] + amount) {
        Err(TransferError::BalanceOutOfRange)
    } else {
        Ok(())
    }
}

/// The accounts after a transfer: changed only when the transfer succeeds.
pub open spec fn after_transfer(m: Map<u32, i64>, from: u32, to: u32, amount: i64) -> Map<u32, i64> {
    match transfer_outcome(m, from, to, amount) {
        Ok(_) => m.insert(from, (m[from] - amount) as i64).insert(to, (m[to] + amount) as i64),
        Err(_) => m,
    }
}

/// A snapshot of accounts `1..=n` by ascending id.
pub open spec fn is_snapshot(m: Map<u32, i64>, n: u32, s: Seq<(u32, i64)>) -> bool {
    &&& s.len() == n
    &&& forall|i: int| 0 <= i < s.len() ==> #[trigger] s[i] == ((i + 1) as u32, m[(i + 1) as u32])
}

proof fn lemma_sum_insert_above(m: Map<u32, i64>, k: nat, id: u32, v: i64)
    requires
        k < id,
    ensures
        sum_balances(m.insert(id, v), k) == sum_balances(m, k),
    decreases k,
{
    if k > 0 {
        lemma_sum_insert_above(m, (k - 1) as nat, id, v);
        assert((k as u32) as int == k);
    }
}

proof fn lemma_sum_insert(m: Map<u32, i64>, k: nat, id: u32, v: i64)
    requires
        1 <= id <= k <= u32::MAX,
    ensures
        sum_balances(m.insert(id, v), k) == sum_balances(m, k) - m[id] + v,
    decreases k,
{
    assert((k as u32) as int == k);
    if k == id {
        lemma_sum_insert_above(m, (k - 1) as nat, id, v);
    } else {
        lemma_sum_insert(m, (k - 1) as nat, id, v);
    }
}

proof fn lemma_sum_initial(n: u32, k: nat)
    requires
        k <= n,
    ensures
        sum_balances(initial_accounts(n), k) == k * INITIAL_BALANCE,
    decreases k,
{
    if k > 0 {
        lemma_sum_initial(n, (k - 1) as nat);
        assert((k as u32) as int == k);
        assert(initial_accounts(n).contains_key(k as u32));
    }
}

/// A new bank holds `n` times the initial balance.
pub proof fn lemma_new_bank_total(n: u32)
    ensures
        has_ids(initial_accounts(n), n),
        sum_balances(initial_accounts(n), n as nat) == n * INITIAL_BALANCE,
{
    lemma_sum_initial(n, n as nat);
}

/// A deposit keeps the set of accounts, and changes the sum of all balances
/// by exactly the amount when it succeeds, and not at all when it fails.
pub proof fn lemma_deposit_total(m: Map<u32, i64>, n: u32, id: u32, amount: i64)
    requires
        has_ids(m, n),
    ensures
        has_ids(after_deposit(m, id, amount), n),
        sum_balances(after_deposit(m, id, amount), n as nat) == sum_balances(m, n as nat) + (
        if deposit_outcome(m, id, amount) is Ok {
            amount as int
        } else {
            0
        }),
{
    if deposit_outcome(m, id, amount) is Ok {
        lemma_sum_insert(m, n as nat, id, (m[id] + amount) as i64);
    }
}

/// A transfer keeps the set of accounts and the sum of all balances,
/// whether it succeeds or fails.
pub proof fn lemma_transfer_total(m: Map<u32, i64>, n: u32, from: u32, to: u32, amount: i64)
    requires
        has_ids(m, n),
    ensures
        has_ids(after_transfer(m, from, to, amount), n),
        sum_balances(after_transfer(m, from, to, amount), n as nat) == sum_balances(m, n as nat),
{
    if transfer_outcome(m, from, to, amount) is Ok {
        let m1 = m.insert(from, (m[from] - amount) as i64);
        lemma_sum_insert(m, n as nat, from, (m[from] - amount) as i64);
        lemma_sum_insert(m1, n as nat, to, (m[to] + amount) as i64);
    }
}

/// A deposit into an existing account succeeds whenever the new balance
/// fits in an `i64`, gives back that new balance, and changes that account
/// alone; the only refusals are a missing account and a balance out of range.
pub proof fn lemma_deposit_behaviour(m: Map<u32, i64>, id: u32, amount: i64)
    ensures
        m.contains_key(id) && i64::MIN <= m[id] + amount <= i64::MAX ==> deposit_outcome(
            m,
            id,
            amount,
        ) == Ok::<i64, DepositError>((m[id] + amount) as i64) && after_deposit(m, id, amount)[id]
            == m[id] + amount && (forall|k: u32| k != id ==> after_deposit(m, id, amount)[k] == m[k]),
        !m.contains_key(id) ==> deposit_outcome(m, id, amount) == Err::<i64, DepositError>(
            DepositError::AccountNotFound,
        ) && after_deposit(m, id, amount) == m,
        deposit_outcome(m, id, amount) is Err ==> after_deposit(m, id, amount) == m,
{
}

/// A transfer that succeeds had the funds: the source held at least the
/// amount, loses exactly it, and the destination gains exactly it, whatever
/// the destination held. A source holding less than the amount is refused
/// for insufficient funds, and a funded transfer between two distinct
/// existing accounts whose new balances fit succeeds.
pub proof fn lemma_transfer_behaviour(m: Map<u32, i64>, from: u32, to: u32, amount: i64)
    ensures
        transfer_outcome(m, from, to, amount) is Ok ==> from != to && m.contains_key(from)
            && m.contains_key(to) && m[from] >= amount && after_transfer(m, from, to, amount)[from]
            == m[from] - amount && after_transfer(m, from, to, amount)[to] == m[to] + amount,
        from != to && m.contains_key(from) && m.contains_key(to) && m[from] < amount
            ==> transfer_outcome(m, from, to, amount) == Err::<(), TransferError>(
            TransferError::InsufficientFunds,
        ),
        from != to && m.contains_key(from) && m.contains_key(to) && m[from] >= amount && i64::MIN
            <= m[from] - amount <= i64::MAX && i64::MIN <= m[to] + amount <= i64::MAX
            ==> transfer_outcome(m, from, to, amount) is Ok,
        transfer_outcome(m, from, to, amount) is Err ==> after_transfer(m, from, to, amount) == m,
        0 <= m[from] && transfer_outcome(m, from, to, amount) is Ok ==> after_transfer(
            m,
            from,
            to,
            amount,
        )[from] >= 0,
{
}

/// The bank: a balance in cents for each account `1..=num_accounts`, and how
/// long each kind of operation takes, in milliseconds.
pub struct Bank {
    accounts: HashMap<u32, i64>,
    num_accounts: u32,
    deposit_sleep_ms: u64,
    transfer_sleep_ms: u64,
    balance_sleep_ms: u64,
}

impl View for Bank {
    type V = Map<u32, i64>;

    closed spec fn view(&self) -> Map<u32, i64> {
        self.accounts@
    }
}

impl Bank {
    /// The bank's invariant: its accounts are exactly `1..=num_accounts`.
    pub closed spec fn wf(&self) -> bool {
        has_ids(self.accounts@, self.num_accounts)
    }

    pub closed spec fn spec_num_accounts(&self) -> u32 {
        self.num_accounts
    }

    pub closed spec fn spec_sleeps(&self) -> (u64, u64, u64) {
        (self.deposit_sleep_ms, self.transfer_sleep_ms, self.balance_sleep_ms)
    }

    /// The sum of all balances.
    pub open spec fn spec_total(&self) -> int {
        sum_balances(self@, self.spec_num_accounts() as nat)
    }

    /// A well-formed bank's accounts are exactly `1..=num_accounts`, which is
    /// what the laws on balances ask of the accounts map.
    pub proof fn lemma_accounts_are_ids(&self)
        requires
            self.wf(),
        ensures
            has_ids(self@, self.spec_num_accounts()),
    {
    }

    /// Opens accounts `1..=num_accounts`, each with the initial balance.
    pub fn new(
        num_accounts: u32,
        deposit_sleep_ms: u64,
        transfer_sleep_ms: u64,
        balance_sleep_ms: u64,
    ) -> (bank: Bank)
        ensures
            bank.wf(),
            bank@ == initial_accounts(num_accounts),
            bank.spec_num_accounts() == num_accounts,
            bank.spec_sleeps() == (deposit_sleep_ms, transfer_sleep_ms, balance_sleep_ms),
    {
        let mut accounts: HashMap<u32, i64> = HashMap::new();
        let mut id: u32 = 0;
        while id < num_accounts
            invariant
                id <= num_accounts,
                accounts@ == initial_accounts(id),
            decreases num_accounts - id,
        {
            id = id + 1;
            accounts.insert(id, INITIAL_BALANCE);
            assert(accounts@ =~= initial_accounts(id));
        }
        Bank { accounts, num_accounts, deposit_sleep_ms, transfer_sleep_ms, balance_sleep_ms }
    }

    pub fn num_accounts(&self) -> (n: u32)
        ensures
            n == self.spec_num_accounts(),
    {
        self.num_accounts
    }

    pub fn deposit_sleep_ms(&self) -> (ms: u64)
        ensures
            ms == self.spec_sleeps().0,
    {
        self.deposit_sleep_ms
    }

    pub fn transfer_sleep_ms(&self) -> (ms: u64)
        ensures
            ms == self.spec_sleeps().1,
    {
        self.transfer_sleep_ms
    }

    pub fn balance_sleep_ms(&self) -> (ms: u64)
        ensures
            ms == self.spec_sleeps().2,
    {
        self.balance_sleep_ms
    }

    /// The balance of an account, if it exists.
    pub fn balance(&self, account_id: u32) -> (r: Option<i64>)
        ensures
            r == (if self@.contains_key(account_id) { Some(self@[account_id]) } else { None }),
    {
        match self.accounts.get(&account_id) {
            Some(b) => Some(*b),
            None => None,
        }
    }

    /// Adds `amount` (which may be negative) to an account's balance and
    /// returns the new balance.
    pub fn deposit(&mut self, account_id: u32, amount: i64) -> (r: Result<i64, DepositError>)
        requires
            old(self).wf(),
        ensures
            final(self).wf(),
            r == deposit_outcome(old(self)@, account_id, amount),
            final(self)@ == after_deposit(old(self)@, account_id, amount),
            old(self)@.contains_key(account_id) && i64::MIN <= old(self)@[account_id] + amount
                <= i64::MAX ==> r == Ok::<i64, DepositError>((old(self)@[account_id] + amount) as i64)
                && final(self)@[account_id] == old(self)@[account_id] + amount,
            r matches Ok(b) ==> b == old(self)@[account_id] + amount && final(self)@ == old(
                self,
            )@.insert(account_id, b),
            !old(self)@.contains_key(account_id) ==> r == Err::<i64, DepositError>(
                DepositError::AccountNotFound,
            ),
            r is Err ==> final(self)@ == old(self)@,
            final(self).spec_num_accounts() == old(self).spec_num_accounts(),
            final(self).spec_sleeps() == old(self).spec_sleeps(),
    {
        let current: i64 = match self.accounts.get(&account_id) {
            Some(b) => *b,
            None => {
                return Err(DepositError::AccountNotFound);
            },
        };
        match current.checked_add(amount) {
            Some(new_balance) => {
                self.accounts.insert(account_id, new_balance);
                Ok(new_balance)
            },
            None => Err(DepositError::BalanceOutOfRange),
        }
    }

    /// Moves `amount` from one account to another, if the source holds at
    /// least that much.
    pub fn transfer(&mut self, from_account_id: u32, to_account_id: u32, amount: i64) -> (r: Result<
        (),
        TransferError,
    >)
        requires
            old(self).wf(),
        ensures
            final(self).wf(),
            r == transfer_outcome(old(self)@, from_account_id, to_account_id, amount),
            final(self)@ == after_transfer(old(self)@, from_account_id, to_account_id, amount),
            r is Ok ==> from_account_id != to_account_id && old(self)@[from_account_id] >= amount
                && final(self)@[from_account_id] == old(self)@[from_account_id] - amount
                && final(self)@[to_account_id] == old(self)@[to_account_id] + amount,
            from_account_id != to_account_id && old(self)@.contains_key(from_account_id)
                && old(self)@.contains_key(to_account_id) && old(self)@[from_account_id] < amount
                ==> r == Err::<(), TransferError>(TransferError::InsufficientFunds),
            from_account_id != to_account_id && old(self)@.contains_key(from_account_id)
                && old(self)@.contains_key(to_account_id) && old(self)@[from_account_id] >= amount
                && i64::MIN <= old(self)@[from_account_id] - amount <= i64::MAX && i64::MIN
                <= old(self)@[to_account_id] + amount <= i64::MAX ==> r is Ok,
            r is Err ==> final(self)@ == old(self)@,
            final(self).spec_num_accounts() == old(self).spec_num_accounts(),
            final(self).spec_sleeps() == old(self).spec_sleeps(),
    {
        if from_account_id == to_account_id {
            return Err(TransferError::SameAccount);
        }
        let from_balance: Option<i64> = match self.accounts.get(&from_account_id) {
            Some(b) => Some(*b),
            None => None,
        };
        let to_balance: Option<i64> = match self.accounts.get(&to_account_id) {
            Some(b) => Some(*b),
            None => None,
        };
        let (f, t): (i64, i64) = match (from_balance, to_balance) {
            (Some(f), Some(t)) => (f, t),
            _ => {
                return Err(
                    TransferError::MissingAccounts {
                        source_missing: from_balance.is_none(),
                        destination_missing: to_balance.is_none(),
                    },
                );
            },
        };
        if f < amount {
            return Err(TransferError::InsufficientFunds);
        }
        let new_from: i64 = match f.checked_sub(amount) {
            Some(x) => x,
            None => {
                return Err(TransferError::BalanceOutOfRange);
            },
        };
        let new_to: i64 = match t.checked_add(amount) {
            Some(x) => x,
            None => {
                return Err(TransferError::BalanceOutOfRange);
            },
        };
        self.accounts.insert(from_account_id, new_from);
        self.accounts.insert(to_account_id, new_to);
        Ok(())
    }

    /// The sum of all balances.
    pub fn total_balance(&self) -> (t: i128)
        requires
            self.wf(),
        ensures
            t == self.spec_total(),
    {
        let mut t: i128 = 0;
        let mut id: u32 = 0;
        while id < self.num_accounts
            invariant
                self.wf(),
                id <= self.num_accounts,
                t == sum_balances(self@, id as nat),
                -(id as int) * 0x8000_0000_0000_0000 <= t <= (id as int) * 0x8000_0000_0000_0000,
            decreases self.num_accounts - id,
        {
            id = id + 1;
            let b: i64 = match self.accounts.get(&id) {
                Some(b) => *b,
                None => 0,
            };
            assert((id as nat) as u32 == id);
            t = t + b as i128;
        }
        t
    }

    /// A snapshot of every account's balance, by ascending id.
    pub fn general_balance(&self) -> (s: Vec<(u32, i64)>)
        requires
            self.wf(),
        ensures
            is_snapshot(self@, self.spec_num_accounts(), s@),
    {
        let mut s: Vec<(u32, i64)> = Vec::new();
        let mut id: u32 = 0;
        while id < self.num_accounts
            invariant
                self.wf(),
                id <= self.num_accounts,
                is_snapshot(self@, id, s@),
            decreases self.num_accounts - id,
        {
            id = id + 1;
            let b: i64 = match self.accounts.get(&id) {
                Some(b) => *b,
                None => 0,
            };
            s.push((id, b));
        }
        s
    }
}

} // verus!
