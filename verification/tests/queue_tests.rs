use bank_server::lock_free_queue::LockFreeQueue;
use bank_server::operation::{Operation, Request};
use bank_server::request_queue::{PopStep, RequestQueue};

fn deposit(id: u32) -> Request {
    Request::new(Operation::Deposit { account_id: id, amount: 100 })
}

#[test]
fn request_queue_serves_last_in_first_out() {
    let mut q = RequestQueue::new();
    assert!(q.is_empty());
    q.push(deposit(1));
    q.push(deposit(2));
    assert_eq!(q.len(), 2);
    assert!(!q.is_empty());
    assert_eq!(q.pop(), PopStep::Ready(deposit(2)));
    assert_eq!(q.pop(), PopStep::Ready(deposit(1)));
    assert!(q.is_empty());
}

#[test]
fn request_queue_waits_until_clients_are_done() {
    let mut q = RequestQueue::new();
    assert!(!q.no_more_clients());
    assert_eq!(q.pop(), PopStep::Wait);
    q.push(deposit(3));
    q.set_no_more_clients();
    assert!(q.no_more_clients());
    assert_eq!(q.pop(), PopStep::Ready(deposit(3)));
    assert_eq!(q.pop(), PopStep::Exhausted);
    assert_eq!(q.pop(), PopStep::Exhausted);
}

#[test]
fn lock_free_queue_is_first_in_first_out() {
    let mut q: LockFreeQueue<u32> = LockFreeQueue::new();
    assert!(q.is_empty());
    assert_eq!(q.dequeue(), None);
    q.enqueue(1);
    q.enqueue(2);
    q.enqueue(3);
    assert_eq!(q.len(), 3);
    assert_eq!(q.dequeue(), Some(1));
    q.enqueue(4);
    assert_eq!(q.dequeue(), Some(2));
    assert_eq!(q.dequeue(), Some(3));
    assert_eq!(q.dequeue(), Some(4));
    assert_eq!(q.dequeue(), None);
    assert!(q.is_empty());
}

#[test]
fn lock_free_queue_of_operations() {
    let mut q: LockFreeQueue<Operation> = LockFreeQueue::new();
    q.enqueue(Operation::GeneralBalance);
    q.enqueue(Operation::Deposit { account_id: 1, amount: -5 });
    assert_eq!(q.dequeue(), Some(Operation::GeneralBalance));
    assert_eq!(q.dequeue(), Some(Operation::Deposit { account_id: 1, amount: -5 }));
    assert!(q.is_empty());
}
