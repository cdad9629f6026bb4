use bank_server::bank::Bank;
use bank_server::operation::{
    DepositError, Operation, OperationOutcome, TransferError, INITIAL_BALANCE,
};
use bank_server::worker::Worker;

fn bank3() -> Bank {
    Bank::new(3, 100, 150, 200)
}

#[test]
fn new_bank_opens_accounts_with_initial_balance() {
    let bank = bank3();
    assert_eq!(bank.num_accounts(), 3);
    assert_eq!(bank.balance(1), Some(100_000));
    assert_eq!(bank.balance(3), Some(100_000));
    assert_eq!(bank.balance(0), None);
    assert_eq!(bank.balance(4), None);
    assert_eq!(bank.deposit_sleep_ms(), 100);
    assert_eq!(bank.transfer_sleep_ms(), 150);
    assert_eq!(bank.balance_sleep_ms(), 200);
    assert_eq!(bank.total_balance(), 300_000);
    assert_eq!(INITIAL_BALANCE, 100_000);
}

#[test]
fn new_bank_without_accounts() {
    let bank = Bank::new(0, 0, 0, 0);
    assert_eq!(bank.general_balance(), Vec::<(u32, i64)>::new());
    assert_eq!(bank.total_balance(), 0);
}

#[test]
fn general_balance_lists_accounts_by_id() {
    let mut bank = bank3();
    assert_eq!(bank.deposit(2, 50), Ok(100_050));
    assert_eq!(bank.general_balance(), vec![(1, 100_000), (2, 100_050), (3, 100_000)]);
}

#[test]
fn deposit_adds_amount() {
    let mut bank = bank3();
    assert_eq!(bank.deposit(2, 2_550), Ok(102_550));
    assert_eq!(bank.balance(2), Some(102_550));
    assert_eq!(bank.total_balance(), 302_550);
}

#[test]
fn deposit_of_negative_amount_withdraws() {
    let mut bank = bank3();
    assert_eq!(bank.deposit(1, -500), Ok(99_500));
    assert_eq!(bank.deposit(1, -200_000), Ok(-100_500));
    assert_eq!(bank.balance(1), Some(-100_500));
}

#[test]
fn deposit_to_missing_account_fails() {
    let mut bank = bank3();
    assert_eq!(bank.deposit(0, 10), Err(DepositError::AccountNotFound));
    assert_eq!(bank.deposit(4, 10), Err(DepositError::AccountNotFound));
    assert_eq!(bank.total_balance(), 300_000);
}

#[test]
fn deposit_out_of_range_fails() {
    let mut bank = bank3();
    assert_eq!(bank.deposit(1, i64::MAX), Err(DepositError::BalanceOutOfRange));
    assert_eq!(bank.balance(1), Some(100_000));
}

#[test]
fn transfer_moves_money() {
    let mut bank = bank3();
    assert_eq!(bank.transfer(1, 2, 30_000), Ok(()));
    assert_eq!(bank.balance(1), Some(70_000));
    assert_eq!(bank.balance(2), Some(130_000));
    assert_eq!(bank.total_balance(), 300_000);
}

#[test]
fn transfer_of_whole_balance() {
    let mut bank = bank3();
    assert_eq!(bank.transfer(3, 1, 100_000), Ok(()));
    assert_eq!(bank.balance(3), Some(0));
    assert_eq!(bank.balance(1), Some(200_000));
}

#[test]
fn transfer_to_same_account_fails() {
    let mut bank = bank3();
    assert_eq!(bank.transfer(2, 2, 10), Err(TransferError::SameAccount));
    assert_eq!(bank.transfer(9, 9, 10), Err(TransferError::SameAccount));
}

#[test]
fn transfer_with_missing_accounts_fails() {
    let mut bank = bank3();
    assert_eq!(
        bank.transfer(7, 2, 10),
        Err(TransferError::MissingAccounts { source_missing: true, destination_missing: false })
    );
    assert_eq!(
        bank.transfer(2, 7, 10),
        Err(TransferError::MissingAccounts { source_missing: false, destination_missing: true })
    );
    assert_eq!(
        bank.transfer(0, 7, 10),
        Err(TransferError::MissingAccounts { source_missing: true, destination_missing: true })
    );
    assert_eq!(bank.general_balance(), vec![(1, 100_000), (2, 100_000), (3, 100_000)]);
}

#[test]
fn transfer_with_insufficient_funds_fails() {
    let mut bank = bank3();
    assert_eq!(bank.transfer(1, 2, 100_001), Err(TransferError::InsufficientFunds));
    assert_eq!(bank.balance(1), Some(100_000));
    assert_eq!(bank.balance(2), Some(100_000));
}

#[test]
fn transfer_out_of_range_fails() {
    let mut bank = bank3();
    assert_eq!(bank.transfer(1, 2, i64::MIN), Err(TransferError::BalanceOutOfRange));
    assert_eq!(bank.total_balance(), 300_000);
}

#[test]
fn transfer_of_negative_amount_moves_money_back() {
    let mut bank = bank3();
    assert_eq!(bank.transfer(1, 2, -500), Ok(()));
    assert_eq!(bank.balance(1), Some(100_500));
    assert_eq!(bank.balance(2), Some(99_500));
}

#[test]
fn execute_operation_dispatches() {
    let mut bank = bank3();
    let d = Operation::Deposit { account_id: 3, amount: 1_234 };
    let out = Worker::execute_operation(&mut bank, &d);
    assert_eq!(out, OperationOutcome::Deposit(Ok(101_234)));
    assert_eq!(Worker::deposited_amount(&d, &out), 1_234);

    let t = Operation::Transfer { from_account_id: 3, to_account_id: 1, amount: 1_234 };
    let out = Worker::execute_operation(&mut bank, &t);
    assert_eq!(out, OperationOutcome::Transfer(Ok(())));
    assert_eq!(Worker::deposited_amount(&t, &out), 0);

    let g = Operation::GeneralBalance;
    let out = Worker::execute_operation(&mut bank, &g);
    assert_eq!(
        out,
        OperationOutcome::GeneralBalance(vec![(1, 101_234), (2, 100_000), (3, 100_000)])
    );
    assert_eq!(Worker::deposited_amount(&g, &out), 0);

    let bad = Operation::Deposit { account_id: 5, amount: 1_000 };
    let out = Worker::execute_operation(&mut bank, &bad);
    assert_eq!(out, OperationOutcome::Deposit(Err(DepositError::AccountNotFound)));
    assert_eq!(Worker::deposited_amount(&bad, &out), 0);
}

#[test]
fn only_deposits_and_transfers_are_counted() {
    assert!(Worker::is_counted(&Operation::Deposit { account_id: 1, amount: 1 }));
    assert!(Worker::is_counted(&Operation::Transfer {
        from_account_id: 1,
        to_account_id: 2,
        amount: 1
    }));
    assert!(!Worker::is_counted(&Operation::GeneralBalance));
}

#[test]
fn money_is_conserved_over_a_run() {
    let mut bank = Bank::new(4, 0, 0, 0);
    let ops = vec![
        Operation::Deposit { account_id: 1, amount: 5_000 },
        Operation::Transfer { from_account_id: 1, to_account_id: 4, amount: 70_000 },
        Operation::Deposit { account_id: 9, amount: 5_000 },
        Operation::Deposit { account_id: 2, amount: -3_333 },
        Operation::Transfer { from_account_id: 2, to_account_id: 3, amount: 500_000 },
        Operation::GeneralBalance,
        Operation::Transfer { from_account_id: 4, to_account_id: 4, amount: 1 },
        Operation::Transfer { from_account_id: 3, to_account_id: 2, amount: 100_000 },
    ];
    let mut net: i64 = 0;
    for op in ops.iter() {
        let out = Worker::execute_operation(&mut bank, op);
        net += Worker::deposited_amount(op, &out);
    }
    assert_eq!(net, 1_667);
    assert_eq!(bank.total_balance(), 4 * 100_000 + net as i128);
    assert_eq!(
        bank.general_balance(),
        vec![(1, 35_000), (2, 196_667), (3, 0), (4, 170_000)]
    );
}
