use vstd::prelude::*;
use crate::server::BALANCE_INTERVAL;

verus! {

/// A server that forwards each client operation to the workers' queue and
/// adds a balance snapshot after every tenth one.
pub struct Dispatcher {
    forwarded: usize,
}

/// How many snapshots the dispatcher adds while forwarding `k` operations.
pub open spec fn snapshots_for(k: nat) -> nat
    decreases k,
{
    if k == 0 {
        0
    } else {
        snapshots_for((k - 1) as nat) + if k % (BALANCE_INTERVAL as nat) == 0 {
            1nat
        } else {
            0nat
        }
    }
}

impl Dispatcher {
    pub closed spec fn spec_forwarded(&self) -> usize {
        self.forwarded
    }

    pub fn new() -> (d: Dispatcher)
        ensures
            d.spec_forwarded() == 0,
    {
        Dispatcher { forwarded: 0 }
    }

    pub fn forwarded(&self) -> (r: usize)
        ensures
            r == self.spec_forwarded(),
    {
        self.forwarded
    }

    /// Records that one client operation was forwarded, and says whether a
    /// balance snapshot must follow it.
    pub fn forward(&mut self) -> (push_balance: bool)
        requires
            old(self).spec_forwarded() < usize::MAX,
        ensures
            final(self).spec_forwarded() == old(self).spec_forwarded() + 1,
            push_balance == (final(self).spec_forwarded() % BALANCE_INTERVAL == 0),
    {
        self.forwarded = self.forwarded + 1;
        self.forwarded % BALANCE_INTERVAL == 0
    }
}

/// The number of operations the workers will carry out when clients send
/// `client_operations` operations: each of them, plus one snapshot per ten.
/// `None` when that does not fit in a `usize`.
pub fn expected_total_operations(client_operations: usize) -> (r: Option<usize>)
    ensures
        match r {
            Some(t) => t == client_operations + client_operations / BALANCE_INTERVAL,
            None => client_operations + client_operations / BALANCE_INTERVAL > usize::MAX,
        },
{
    client_operations.checked_add(client_operations / BALANCE_INTERVAL)
}

/// Forwarding `k` operations adds exactly `k / 10` snapshots, so the workers
/// receive `k + k / 10` operations in all.
pub proof fn lemma_snapshots_for(k: nat)
    ensures
        snapshots_for(k) == k / (BALANCE_INTERVAL as nat),
    decreases k,
{
    if k > 0 {
        lemma_snapshots_for((k - 1) as nat);
        assert(k / 10 == (k - 1) / 10 + if k % 10 == 0 { 1nat } else { 0nat }) by (nonlinear_arith);
    }
}

} // verus!
