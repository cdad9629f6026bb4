use vstd::prelude::*;
use crate::bank::{
    after_deposit, after_transfer, deposit_outcome, has_ids, initial_accounts, is_snapshot,
    lemma_deposit_total, lemma_new_bank_total, lemma_transfer_total, sum_balances,
    transfer_outcome, Bank,
};
use crate::operation::{Operation, OperationOutcome, INITIAL_BALANCE};

verus! {

/// The accounts after an operation.
pub open spec fn apply_operation(m: Map<u32, i64>, op: Operation) -> Map<u32, i64> {
    match op {
        Operation::Deposit { account_id, amount } => after_deposit(m, account_id, amount),
        Operation::Transfer { from_account_id, to_account_id, amount } => after_transfer(
            m,
            from_account_id,
            to_account_id,
            amount,
        ),
        Operation::GeneralBalance => m,
    }
}

/// The money an operation brings into the bank: the amount of a deposit that
/// succeeds, and nothing otherwise.
pub open spec fn net_deposit(m: Map<u32, i64>, op: Operation) -> int {
    match op {
        Operation::Deposit { account_id, amount } => if deposit_outcome(
            m,
            account_id,
            amount,
        ) is Ok {
            amount as int
        } else {
            0
        },
        _ => 0,
    }
}

/// The accounts after a sequence of operations, carried out in order.
pub open spec fn apply_all(m: Map<u32, i64>, ops: Seq<Operation>) -> Map<u32, i64>
    decreases ops.len(),
{
    if ops.len() == 0 {
        m
    } else {
        apply_all(apply_operation(m, ops[0]), ops.drop_first())
    }
}

/// The money a sequence of operations brings into the bank.
pub open spec fn net_deposits(m: Map<u32, i64>, ops: Seq<Operation>) -> int
    decreases ops.len(),
{
    if ops.len() == 0 {
        0
    } else {
        net_deposit(m, ops[0]) + net_deposits(apply_operation(m, ops[0]), ops.drop_first())
    }
}

/// The money a carried-out operation brought in, read off its outcome.
pub open spec fn deposited(op: Operation, r: OperationOutcome) -> int {
    match (op, r) {
        (Operation::Deposit { amount, .. }, OperationOutcome::Deposit(Ok(_))) => amount as int,
        _ => 0,
    }
}

/// What carrying out `op` on accounts `m` (with `n` accounts) gives back.
pub open spec fn outcome_matches(m: Map<u32, i64>, n: u32, op: Operation, r: OperationOutcome) -> bool {
    match op {
        Operation::Deposit { account_id, amount } => r == OperationOutcome::Deposit(
            deposit_outcome(m, account_id, amount),
        ),
        Operation::Transfer { from_account_id, to_account_id, amount } => r
            == OperationOutcome::Transfer(
            transfer_outcome(m, from_account_id, to_account_id, amount),
        ),
        Operation::GeneralBalance => r matches OperationOutcome::GeneralBalance(s) && is_snapshot(
            m,
            n,
            s@,
        ),
    }
}

/// Every operation keeps the set of accounts, and changes the sum of all
/// balances by exactly the money it brings in.
pub proof fn lemma_operation_total(m: Map<u32, i64>, n: u32, op: Operation)
    requires
        has_ids(m, n),
    ensures
        has_ids(apply_operation(m, op), n),
        sum_balances(apply_operation(m, op), n as nat) == sum_balances(m, n as nat) + net_deposit(
            m,
            op,
        ),
{
    match op {
        Operation::Deposit { account_id, amount } => {
            lemma_deposit_total(m, n, account_id, amount);
        },
        Operation::Transfer { from_account_id, to_account_id, amount } => {
            lemma_transfer_total(m, n, from_account_id, to_account_id, amount);
        },
        Operation::GeneralBalance => {},
    }
}

/// Money is conserved: after any sequence of operations, the sum of all
/// balances is the sum before plus the deposits that succeeded.
pub proof fn lemma_money_conserved(m: Map<u32, i64>, n: u32, ops: Seq<Operation>)
    requires
        has_ids(m, n),
    ensures
        has_ids(apply_all(m, ops), n),
        sum_balances(apply_all(m, ops), n as nat) == sum_balances(m, n as nat) + net_deposits(
            m,
            ops,
        ),
    decreases ops.len(),
{
    if ops.len() > 0 {
        lemma_operation_total(m, n, ops[0]);
        lemma_money_conserved(apply_operation(m, ops[0]), n, ops.drop_first());
    }
}

/// Starting from a new bank with `n` accounts, after any sequence of
/// operations the sum of all balances is `n` times the initial balance plus
/// the deposits that succeeded.
pub proof fn lemma_total_from_start(n: u32, ops: Seq<Operation>)
    ensures
        sum_balances(apply_all(initial_accounts(n), ops), n as nat) == n * INITIAL_BALANCE
            + net_deposits(initial_accounts(n), ops),
{
    lemma_new_bank_total(n);
    lemma_money_conserved(initial_accounts(n), n, ops);
}

/// A worker takes requests off the queue and carries them out on the bank.
pub struct Worker;

impl Worker {
    /// Carries out one operation on the bank.
    pub fn execute_operation(bank: &mut Bank, operation: &Operation) -> (r: OperationOutcome)
        requires
            old(bank).wf(),
        ensures
            final(bank).wf(),
            final(bank)@ == apply_operation(old(bank)@, *operation),
            outcome_matches(old(bank)@, old(bank).spec_num_accounts(), *operation, r),
            deposited(*operation, r) == net_deposit(old(bank)@, *operation),
            final(bank).spec_num_accounts() == old(bank).spec_num_accounts(),
            final(bank).spec_sleeps() == old(bank).spec_sleeps(),
    {
        match operation {
            Operation::Deposit { account_id, amount } => {
                OperationOutcome::Deposit(bank.deposit(*account_id, *amount))
            },
            Operation::Transfer { from_account_id, to_account_id, amount } => {
                OperationOutcome::Transfer(
                    bank.transfer(*from_account_id, *to_account_id, *amount),
                )
            },
            Operation::GeneralBalance => OperationOutcome::GeneralBalance(bank.general_balance()),
        }
    }

    /// The money a carried-out operation brought into the bank: the amount
    /// of a deposit that succeeded, and 0 otherwise.
    pub fn deposited_amount(operation: &Operation, outcome: &OperationOutcome) -> (r: i64)
        ensures
            r == deposited(*operation, *outcome),
    {
        match (operation, outcome) {
            (Operation::Deposit { amount, .. }, OperationOutcome::Deposit(Ok(_))) => *amount,
            _ => 0,
        }
    }

    /// Whether a finished operation counts toward the operation count that
    /// schedules balance snapshots: deposits and transfers do, snapshots do not.
    pub fn is_counted(operation: &Operation) -> (r: bool)
        ensures
            r == !(*operation is GeneralBalance),
    {
        match operation {
            Operation::GeneralBalance => false,
            _ => true,
        }
    }
}

} // verus!
