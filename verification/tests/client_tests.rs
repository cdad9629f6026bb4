use bank_server::client::{amount_from_draw, operation_from_draws, other_account, Client, MAX_RANDOM_AMOUNT};
use bank_server::operation::Operation;

#[test]
fn client_keeps_its_settings() {
    let c = Client::new(100, 7, 50);
    assert_eq!(c.num_accounts(), 100);
    assert_eq!(c.requests_per_client(), 7);
    assert_eq!(c.client_sleep_ms(), 50);
}

#[test]
fn other_account_skips_the_source() {
    assert_eq!(other_account(5, 3, 1), 1);
    assert_eq!(other_account(5, 3, 2), 2);
    assert_eq!(other_account(5, 3, 3), 4);
    assert_eq!(other_account(5, 3, 4), 5);
    assert_eq!(other_account(2, 1, 1), 2);
    assert_eq!(other_account(2, 2, 1), 1);
}

#[test]
fn random_account_ids_stay_in_range_and_vary() {
    let c = Client::new(100, 1, 0);
    let mut rng = rand::thread_rng();
    let mut seen_other = false;
    let first: u32 = c.random_account_id(&mut rng);
    for _ in 0..1000 {
        let id: u32 = c.random_account_id(&mut rng);
        assert!((1..=100).contains(&id));
        if id != first {
            seen_other = true;
        }
    }
    assert!(seen_other);
    let single = Client::new(1, 1, 0);
    assert_eq!(single.random_account_id(&mut rng), 1);
}

#[test]
fn random_amounts_stay_in_range_and_vary() {
    let c = Client::new(10, 1, 0);
    let mut rng = rand::thread_rng();
    let mut negative = false;
    let mut positive = false;
    for _ in 0..1000 {
        let a: i64 = c.random_amount(&mut rng);
        assert!(-MAX_RANDOM_AMOUNT <= a && a < MAX_RANDOM_AMOUNT);
        negative |= a < 0;
        positive |= a > 0;
    }
    assert!(negative && positive);
}

#[test]
fn random_operations_are_valid() {
    let c = Client::new(2, 1, 0);
    let mut rng = rand::thread_rng();
    let mut deposits: u32 = 0;
    let mut transfers: u32 = 0;
    for _ in 0..1000 {
        match c.next_operation(&mut rng) {
            Operation::Deposit { account_id, amount } => {
                deposits += 1;
                assert!((1..=2).contains(&account_id));
                assert!(-10_000 <= amount && amount < 10_000);
            }
            Operation::Transfer { from_account_id, to_account_id, amount } => {
                transfers += 1;
                assert!((1..=2).contains(&from_account_id));
                assert!((1..=2).contains(&to_account_id));
                assert_ne!(from_account_id, to_account_id);
                assert!((0..=10_000).contains(&amount));
            }
            Operation::GeneralBalance => panic!("clients do not ask for snapshots"),
        }
    }
    assert!(deposits > 0 && transfers > 0);
}

#[test]
fn amount_from_draw_shifts_by_one_hundred() {
    assert_eq!(amount_from_draw(0), -10_000);
    assert_eq!(amount_from_draw(10_000), 0);
    assert_eq!(amount_from_draw(12_345), 2_345);
    assert_eq!(amount_from_draw(19_999), 9_999);
}

#[test]
fn operation_from_draws_builds_the_request() {
    assert_eq!(
        operation_from_draws(10, true, 4, 7_500, 3),
        Operation::Deposit { account_id: 4, amount: -2_500 }
    );
    assert_eq!(
        operation_from_draws(10, false, 4, 7_500, 3),
        Operation::Transfer { from_account_id: 4, to_account_id: 3, amount: 2_500 }
    );
    assert_eq!(
        operation_from_draws(10, false, 4, 19_999, 4),
        Operation::Transfer { from_account_id: 4, to_account_id: 5, amount: 9_999 }
    );
    assert_eq!(
        operation_from_draws(2, false, 2, 10_000, 1),
        Operation::Transfer { from_account_id: 2, to_account_id: 1, amount: 0 }
    );
}
