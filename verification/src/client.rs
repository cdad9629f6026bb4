use rand::rngs::ThreadRng;
use vstd::prelude::*;
use crate::operation::Operation;
use crate::random::{coin_flip, sample_inclusive};

verus! {

/// Largest magnitude of a random amount, in cents (100.00).
pub const MAX_RANDOM_AMOUNT: i64 = 10_000;

/// A client: how many accounts it may name, how many requests it sends, and
/// how long it pauses between two requests, in milliseconds.
pub struct Client {
    num_accounts: u32,
    requests_per_client: usize,
    client_sleep_ms: u64,
}

/// An operation a client may send: a deposit into an existing account of an
/// amount in `-100.00..100.00`, or a transfer between two distinct existing
/// accounts of an amount in `0.00..=100.00`.
pub open spec fn valid_client_operation(op: Operation, num_accounts: u32) -> bool {
    match op {
        Operation::Deposit { account_id, amount } => {
            &&& 1 <= account_id <= num_accounts
            &&& -MAX_RANDOM_AMOUNT <= amount < MAX_RANDOM_AMOUNT
        },
        Operation::Transfer { from_account_id, to_account_id, amount } => {
            &&& 1 <= from_account_id <= num_accounts
            &&& 1 <= to_account_id <= num_accounts
            &&& from_account_id != to_account_id
            &&& 0 <= amount <= MAX_RANDOM_AMOUNT
        },
        Operation::GeneralBalance => false,
    }
}

/// The account that the `pick`-th of the accounts other than `from` is:
/// the accounts `1..=n` without `from`, numbered from 1 in ascending order.
pub open spec fn other_account_spec(from: u32, pick: u32) -> int {
    if pick < from {
        pick as int
    } else {
        pick + 1
    }
}

/// Maps `pick` in `1..=n - 1` onto the accounts `1..=n` other than `from`,
/// one to one and in ascending order.
pub fn other_account(n: u32, from: u32, pick: u32) -> (r: u32)
    requires
        1 <= from <= n,
        1 <= pick < n,
    ensures
        r == other_account_spec(from, pick),
        1 <= r <= n,
        r != from,
{
    if pick < from {
        pick
    } else {
        pick + 1
    }
}

/// The amount, in cents, that a draw `raw` from `0..=19_999` stands for:
/// `raw - 100.00`, so from -100.00 up to 99.99.
pub fn amount_from_draw(raw: u32) -> (r: i64)
    requires
        raw <= 19_999,
    ensures
        r == raw - MAX_RANDOM_AMOUNT,
{
    raw as i64 - MAX_RANDOM_AMOUNT
}

/// The operation a client sends for the values it drew: `deposit` chooses
/// between a deposit and a transfer, `account` is the account deposited to
/// or transferred from, `raw_amount` stands for the amount, and `pick`
/// chooses the destination among the other accounts. A transfer moves the
/// magnitude of the amount.
pub open spec fn operation_from_draws_spec(deposit: bool, account: u32, raw_amount: u32, pick: u32) -> Operation {
    let amount = raw_amount - MAX_RANDOM_AMOUNT;
    if deposit {
        Operation::Deposit { account_id: account, amount: amount as i64 }
    } else {
        Operation::Transfer {
            from_account_id: account,
            to_account_id: other_account_spec(account, pick) as u32,
            amount: (if amount < 0 {
                -amount
            } else {
                amount
            }) as i64,
        }
    }
}

/// Builds the operation a client sends from the values it drew.
pub fn operation_from_draws(n: u32, deposit: bool, account: u32, raw_amount: u32, pick: u32) -> (op: Operation)
    requires
        1 <= account <= n,
        raw_amount <= 19_999,
        1 <= pick < n,
    ensures
        op == operation_from_draws_spec(deposit, account, raw_amount, pick),
        deposit ==> (op == (Operation::Deposit {
            account_id: account,
            amount: (raw_amount - MAX_RANDOM_AMOUNT) as i64,
        })),
        !deposit ==> (op == (Operation::Transfer {
            from_account_id: account,
            to_account_id: (if pick < account {
                pick as int
            } else {
                pick + 1
            }) as u32,
            amount: (if raw_amount >= MAX_RANDOM_AMOUNT {
                raw_amount - MAX_RANDOM_AMOUNT
            } else {
                MAX_RANDOM_AMOUNT - raw_amount
            }) as i64,
        })),
        valid_client_operation(op, n),
{
    let amount: i64 = amount_from_draw(raw_amount);
    if deposit {
        Operation::Deposit { account_id: account, amount }
    } else {
        let to_account_id: u32 = other_account(n, account, pick);
        let magnitude: i64 = if amount < 0 {
            -amount
        } else {
            amount
        };
        Operation::Transfer { from_account_id: account, to_account_id, amount: magnitude }
    }
}

/// A client's request carries exactly what it drew: a deposit of the drawn
/// amount (positive for draws above 10_000, negative below), or a transfer
/// from the drawn account of the drawn amount's magnitude to a different
/// account; the two sign-mirrored draws give the same transfer and opposite
/// deposits.
pub proof fn lemma_draws_give_request(n: u32, account: u32, raw_amount: u32, pick: u32)
    requires
        1 <= account <= n,
        raw_amount <= 19_999,
        1 <= pick < n,
    ensures
        ({
            let d = operation_from_draws_spec(true, account, raw_amount, pick);
            &&& d is Deposit
            &&& d->Deposit_account_id == account
            &&& d->Deposit_amount == raw_amount - 10_000
            &&& raw_amount > 10_000 ==> d->Deposit_amount > 0
            &&& raw_amount < 10_000 ==> d->Deposit_amount < 0
        }),
        ({
            let t = operation_from_draws_spec(false, account, raw_amount, pick);
            &&& t is Transfer
            &&& t->from_account_id == account
            &&& t->to_account_id != account
            &&& 1 <= t->to_account_id <= n
            &&& t->Transfer_amount >= 0
            &&& (t->Transfer_amount == raw_amount - 10_000 || t->Transfer_amount == 10_000 - raw_amount)
        }),
        1 <= raw_amount <= 19_999 ==> operation_from_draws_spec(false, account, raw_amount, pick)
            == operation_from_draws_spec(false, account, (20_000 - raw_amount) as u32, pick),
{
}

impl Client {
    pub closed spec fn spec_num_accounts(&self) -> u32 {
        self.num_accounts
    }

    pub closed spec fn spec_requests_per_client(&self) -> usize {
        self.requests_per_client
    }

    pub closed spec fn spec_client_sleep_ms(&self) -> u64 {
        self.client_sleep_ms
    }

    pub fn new(num_accounts: u32, requests_per_client: usize, client_sleep_ms: u64) -> (c: Client)
        ensures
            c.spec_num_accounts() == num_accounts,
            c.spec_requests_per_client() == requests_per_client,
            c.spec_client_sleep_ms() == client_sleep_ms,
    {
        Client { num_accounts, requests_per_client, client_sleep_ms }
    }

    pub fn num_accounts(&self) -> (r: u32)
        ensures
            r == self.spec_num_accounts(),
    {
        self.num_accounts
    }

    pub fn requests_per_client(&self) -> (r: usize)
        ensures
            r == self.spec_requests_per_client(),
    {
        self.requests_per_client
    }

    pub fn client_sleep_ms(&self) -> (r: u64)
        ensures
            r == self.spec_client_sleep_ms(),
    {
        self.client_sleep_ms
    }

    /// A random existing account id.
    pub fn random_account_id(&self, rng: &mut ThreadRng) -> (r: u32)
        requires
            self.spec_num_accounts() >= 1,
        ensures
            1 <= r <= self.spec_num_accounts(),
    {
        sample_inclusive(rng, 1, self.num_accounts)
    }

    /// A random amount in cents, from -100.00 up to but excluding 100.00.
    pub fn random_amount(&self, rng: &mut ThreadRng) -> (r: i64)
        ensures
            -MAX_RANDOM_AMOUNT <= r < MAX_RANDOM_AMOUNT,
    {
        let raw: u32 = sample_inclusive(rng, 0, 19_999);
        amount_from_draw(raw)
    }

    /// A random request: with even odds, a deposit of a random amount into a
    /// random account, or a transfer of the magnitude of a random amount
    /// between two distinct random accounts.
    pub fn next_operation(&self, rng: &mut ThreadRng) -> (op: Operation)
        requires
            self.spec_num_accounts() >= 2,
        ensures
            valid_client_operation(op, self.spec_num_accounts()),
            exists|deposit: bool, account: u32, raw_amount: u32, pick: u32|
                1 <= account <= self.spec_num_accounts() && raw_amount <= 19_999 && 1 <= pick
                    < self.spec_num_accounts() && op == #[trigger] operation_from_draws_spec(
                    deposit,
                    account,
                    raw_amount,
                    pick,
                ),
    {
        let deposit: bool = coin_flip(rng);
        let account: u32 = self.random_account_id(rng);
        let raw_amount: u32 = sample_inclusive(rng, 0, 19_999);
        let pick: u32 = sample_inclusive(rng, 1, self.num_accounts - 1);
        operation_from_draws(self.num_accounts, deposit, account, raw_amount, pick)
    }
}

} // verus!
