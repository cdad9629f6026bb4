use vstd::prelude::*;

verus! {

/// Starting balance of every account, in cents (1000.00).
pub const INITIAL_BALANCE: i64 = 100_000;

/// An operation that a client asks the bank to carry out.
/// Amounts are in cents.
#[derive(Clone, Copy, Debug, PartialEq, Eq, Structural)]
pub enum Operation {
    Deposit { account_id: u32, amount: i64 },
    Transfer { from_account_id: u32, to_account_id: u32, amount: i64 },
    GeneralBalance,
}

/// A request as it travels through the queue.
#[derive(Clone, Copy, Debug, PartialEq, Eq, Structural)]
pub struct Request {
    pub operation: Operation,
}

/// Why a deposit was refused.
#[derive(Clone, Copy, Debug, PartialEq, Eq, Structural)]
pub enum DepositError {
    /// No account has this id.
    AccountNotFound,
    /// The new balance would not fit in an `i64`.
    BalanceOutOfRange,
}

/// Why a transfer was refused.
#[derive(Clone, Copy, Debug, PartialEq, Eq, Structural)]
pub enum TransferError {
    /// Source and destination are the same account.
    SameAccount,
    /// At least one of the two accounts does not exist.
    MissingAccounts { source_missing: bool, destination_missing: bool },
    /// The source balance is below the amount.
    InsufficientFunds,
    /// One of the new balances would not fit in an `i64`.
    BalanceOutOfRange,
}

/// What carrying out an operation produced.
#[derive(Debug, PartialEq, Eq)]
pub enum OperationOutcome {
    /// A deposit: the new balance, or why it was refused.
    Deposit(Result<i64, DepositError>),
    /// A transfer: done, or why it was refused.
    Transfer(Result<(), TransferError>),
    /// A snapshot of every account, `(id, balance)`, by ascending id.
    GeneralBalance(Vec<(u32, i64)>),
}

impl Request {
    pub fn new(operation: Operation) -> (r: Request)
        ensures
            r.operation == operation,
    {
        Request { operation }
    }
}

} // verus!
