use bank_server::dispatcher::{expected_total_operations, Dispatcher};
use bank_server::server::{Server, ServerAction, BALANCE_INTERVAL, IDLE_SHUTDOWN_MS};

fn action(push: bool, finished: bool) -> ServerAction {
    ServerAction { push_balance_request: push, finished }
}

#[test]
fn server_schedules_a_snapshot_every_ten_operations() {
    let mut s = Server::new();
    assert_eq!(s.step(9, false, false, 0), action(false, false));
    assert_eq!(s.last_checked_count(), 0);
    assert_eq!(s.step(10, false, false, 100), action(true, false));
    assert_eq!(s.last_checked_count(), 10);
    assert_eq!(s.step(15, false, false, 200), action(false, false));
    assert_eq!(s.step(25, false, false, 300), action(true, false));
    assert_eq!(s.last_checked_count(), 20);
    assert_eq!(s.step(25, false, false, 400), action(false, false));
    assert_eq!(s.step(31, false, false, 500), action(true, false));
    assert_eq!(s.last_checked_count(), 30);
    assert_eq!(BALANCE_INTERVAL, 10);
}

#[test]
fn server_stops_after_five_idle_seconds() {
    let mut s = Server::new();
    assert_eq!(s.step(0, true, true, 1_000), action(false, false));
    assert_eq!(s.step(0, true, true, 5_999), action(false, false));
    assert_eq!(s.step(0, true, true, 6_000), action(false, true));
    assert_eq!(IDLE_SHUTDOWN_MS, 5_000);
}

#[test]
fn server_forgets_idleness_when_work_appears() {
    let mut s = Server::new();
    assert_eq!(s.step(0, true, true, 0), action(false, false));
    assert_eq!(s.step(0, false, true, 3_000), action(false, false));
    assert_eq!(s.step(0, true, true, 5_000), action(false, false));
    assert_eq!(s.step(0, true, true, 9_999), action(false, false));
    assert_eq!(s.step(0, true, true, 10_000), action(false, true));
}

#[test]
fn server_is_not_idle_while_clients_run_or_after_a_snapshot() {
    let mut s = Server::new();
    assert_eq!(s.step(0, true, false, 0), action(false, false));
    assert_eq!(s.step(0, true, false, 10_000), action(false, false));
    assert_eq!(s.step(0, true, true, 10_000), action(false, false));
    assert_eq!(s.step(10, true, true, 20_000), action(true, false));
    assert_eq!(s.step(10, true, true, 20_100), action(false, false));
    assert_eq!(s.step(10, true, true, 25_100), action(false, true));
}

#[test]
fn dispatcher_adds_a_snapshot_after_every_tenth_operation() {
    let mut d = Dispatcher::new();
    let mut pushes: usize = 0;
    for i in 1..=25usize {
        let push = d.forward();
        assert_eq!(push, i % 10 == 0);
        if push {
            pushes += 1;
        }
    }
    assert_eq!(d.forwarded(), 25);
    assert_eq!(pushes, 2);
}

#[test]
fn expected_total_operations_adds_one_snapshot_per_ten() {
    assert_eq!(expected_total_operations(1_000), Some(1_100));
    assert_eq!(expected_total_operations(9), Some(9));
    assert_eq!(expected_total_operations(0), Some(0));
    assert_eq!(expected_total_operations(usize::MAX), None);
}
