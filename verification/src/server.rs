use vstd::prelude::*;

verus! {

/// After how many counted operations the server asks for a balance snapshot.
pub const BALANCE_INTERVAL: usize = 10;

/// How long, in milliseconds, the queue must stay empty after the clients
/// are done before the server stops.
pub const IDLE_SHUTDOWN_MS: u64 = 5000;

/// How long, in milliseconds, the server sleeps between two rounds.
pub const SERVER_POLL_MS: u64 = 100;

/// What the server does in one round.
#[derive(Clone, Copy, Debug, PartialEq, Eq, Structural)]
pub struct ServerAction {
    /// Push a balance snapshot request onto the queue.
    pub push_balance_request: bool,
    /// Stop: every client request has been processed.
    pub finished: bool,
}

/// What the server observes in one round: the operation count, whether the
/// queue is empty, whether the clients are done, and the time.
#[derive(Clone, Copy, Debug, PartialEq, Eq, Structural)]
pub struct ServerRound {
    pub current_count: usize,
    pub queue_empty: bool,
    pub no_more_clients: bool,
    pub now_ms: u64,
}

/// One round of the server: from its snapshot point and quiet start, and
/// what it observes, to the new snapshot point, quiet start and action.
pub open spec fn server_step(last_checked_count: usize, empty_since: Option<u64>, round: ServerRound) -> (usize, Option<u64>, ServerAction) {
    let push = snapshot_due(last_checked_count, round.current_count);
    let idle = round.queue_empty && !push && round.no_more_clients;
    let next_since = if !idle {
        None
    } else if empty_since is None {
        Some(round.now_ms)
    } else {
        empty_since
    };
    let finished = idle && empty_since is Some && idle_long_enough(empty_since.unwrap(), round.now_ms);
    (
        next_checked_count(last_checked_count, round.current_count),
        next_since,
        ServerAction { push_balance_request: push, finished },
    )
}

/// The server's memory between rounds: the operation count at which it last
/// scheduled a snapshot, and since when (in milliseconds on a monotonic
/// clock) it has seen the queue empty with no more clients.
pub struct Server {
    last_checked_count: usize,
    empty_since_ms: Option<u64>,
}

/// Whether the count has reached the next snapshot point.
pub open spec fn snapshot_due(last_checked_count: usize, current_count: usize) -> bool {
    last_checked_count + BALANCE_INTERVAL <= current_count
}

/// Whether `since` lies at least the shutdown delay before `now`.
pub open spec fn idle_long_enough(since: u64, now_ms: u64) -> bool {
    since + IDLE_SHUTDOWN_MS <= now_ms
}

impl Server {
    pub closed spec fn spec_last_checked_count(&self) -> usize {
        self.last_checked_count
    }

    pub closed spec fn spec_empty_since(&self) -> Option<u64> {
        self.empty_since_ms
    }

    /// The server's invariant: snapshots are scheduled at multiples of the
    /// interval.
    pub open spec fn wf(&self) -> bool {
        self.spec_last_checked_count() % BALANCE_INTERVAL == 0
    }

    pub fn new() -> (s: Server)
        ensures
            s.wf(),
            s.spec_last_checked_count() == 0,
            s.spec_empty_since() is None,
    {
        Server { last_checked_count: 0, empty_since_ms: None }
    }

    pub fn last_checked_count(&self) -> (r: usize)
        ensures
            r == self.spec_last_checked_count(),
    {
        self.last_checked_count
    }

    /// One round of the server, given the operation count, whether the queue
    /// is empty, whether the clients are done, and the time.
    ///
    /// A snapshot is scheduled when the count has reached ten past the last
    /// snapshot point, which then moves up by ten. The queue counts as empty
    /// only when no snapshot was just pushed. While the queue is empty and the
    /// clients are done, the server remembers since when; it stops once that
    /// has lasted the shutdown delay. Otherwise it forgets.
    pub fn step(&mut self, current_count: usize, queue_empty: bool, no_more_clients: bool, now_ms: u64) -> (a: ServerAction)
        requires
            old(self).wf(),
        ensures
            final(self).wf(),
            (final(self).spec_last_checked_count(), final(self).spec_empty_since(), a) == server_step(
                old(self).spec_last_checked_count(),
                old(self).spec_empty_since(),
                ServerRound { current_count, queue_empty, no_more_clients, now_ms },
            ),
            a.push_balance_request == snapshot_due(old(self).spec_last_checked_count(), current_count),
            a.push_balance_request <==> old(self).spec_last_checked_count() + BALANCE_INTERVAL
                <= current_count,
            final(self).spec_last_checked_count() == old(self).spec_last_checked_count() + if a.push_balance_request {
                BALANCE_INTERVAL as int
            } else {
                0
            },
            a.finished <==> queue_empty && no_more_clients && !a.push_balance_request && (old(
                self,
            ).spec_empty_since() matches Some(since) && since + IDLE_SHUTDOWN_MS <= now_ms),
            final(self).spec_last_checked_count() == next_checked_count(
                old(self).spec_last_checked_count(),
                current_count,
            ),
            ({
                let idle = queue_empty && !a.push_balance_request && no_more_clients;
                &&& !idle ==> final(self).spec_empty_since() is None && !a.finished
                &&& idle && old(self).spec_empty_since() is None ==> final(self).spec_empty_since()
                    == Some(now_ms) && !a.finished
                &&& idle && old(self).spec_empty_since() is Some ==> final(self).spec_empty_since()
                    == old(self).spec_empty_since() && a.finished == idle_long_enough(
                    old(self).spec_empty_since().unwrap(),
                    now_ms,
                )
            }),
    {
        let push: bool = self.last_checked_count <= current_count
            && current_count - self.last_checked_count >= BALANCE_INTERVAL;
        if push {
            self.last_checked_count = self.last_checked_count + BALANCE_INTERVAL;
        }
        let idle: bool = queue_empty && !push && no_more_clients;
        let mut finished: bool = false;
        if idle {
            match self.empty_since_ms {
                None => {
                    self.empty_since_ms = Some(now_ms);
                },
                Some(since) => {
                    finished = since <= now_ms && now_ms - since >= IDLE_SHUTDOWN_MS;
                },
            }
        } else {
            self.empty_since_ms = None;
        }
        ServerAction { push_balance_request: push, finished }
    }
}

/// The snapshot point after a round that saw `current_count`.
pub open spec fn next_checked_count(last_checked_count: usize, current_count: usize) -> usize {
    if snapshot_due(last_checked_count, current_count) {
        (last_checked_count + BALANCE_INTERVAL) as usize
    } else {
        last_checked_count
    }
}

/// The snapshot point after rounds that saw `counts`, in order.
pub open spec fn checked_count_after(last_checked_count: usize, counts: Seq<usize>) -> usize
    decreases counts.len(),
{
    if counts.len() == 0 {
        last_checked_count
    } else {
        checked_count_after(next_checked_count(last_checked_count, counts[0]), counts.drop_first())
    }
}

/// How many snapshots rounds that saw `counts` push.
pub open spec fn snapshots_pushed(last_checked_count: usize, counts: Seq<usize>) -> nat
    decreases counts.len(),
{
    if counts.len() == 0 {
        0
    } else {
        (if snapshot_due(last_checked_count, counts[0]) {
            1nat
        } else {
            0nat
        }) + snapshots_pushed(next_checked_count(last_checked_count, counts[0]), counts.drop_first())
    }
}

/// Over any run of rounds, each snapshot moves the snapshot point up by the
/// interval, and the server never asks for more snapshots than the
/// operation count allows: one per ten counted operations at most.
pub proof fn lemma_snapshots_bounded(last_checked_count: usize, counts: Seq<usize>, bound: usize)
    requires
        last_checked_count <= bound,
        forall|i: int| 0 <= i < counts.len() ==> counts[i] <= bound,
    ensures
        checked_count_after(last_checked_count, counts) == last_checked_count + BALANCE_INTERVAL
            * snapshots_pushed(last_checked_count, counts),
        checked_count_after(last_checked_count, counts) <= bound,
    decreases counts.len(),
{
    if counts.len() > 0 {
        let next = next_checked_count(last_checked_count, counts[0]);
        assert forall|i: int| 0 <= i < counts.drop_first().len() implies counts.drop_first()[i]
            <= bound by {
            assert(counts.drop_first()[i] == counts[i + 1]);
        }
        lemma_snapshots_bounded(next, counts.drop_first(), bound);
    }
}

/// A quiet round: the queue is empty, the clients are done, and no
/// snapshot is due.
pub open spec fn quiet_round(last_checked_count: usize, round: ServerRound) -> bool {
    round.queue_empty && round.no_more_clients && !snapshot_due(last_checked_count, round.current_count)
}

/// Whether the server stops in one of `rounds`, run in order.
pub open spec fn stops_during(last_checked_count: usize, empty_since: Option<u64>, rounds: Seq<ServerRound>) -> bool
    decreases rounds.len(),
{
    if rounds.len() == 0 {
        false
    } else {
        let (l, s, a) = server_step(last_checked_count, empty_since, rounds[0]);
        a.finished || stops_during(l, s, rounds.drop_first())
    }
}

/// Once the server remembers a quiet start `since`, it stops during any run
/// of quiet rounds that reaches the shutdown delay after `since`.
pub proof fn lemma_stops_after_quiet_start(last_checked_count: usize, since: u64, rounds: Seq<ServerRound>)
    requires
        rounds.len() > 0,
        forall|i: int| 0 <= i < rounds.len() ==> quiet_round(last_checked_count, #[trigger] rounds[i]),
        idle_long_enough(since, rounds.last().now_ms),
    ensures
        stops_during(last_checked_count, Some(since), rounds),
    decreases rounds.len(),
{
    let (l, s, a) = server_step(last_checked_count, Some(since), rounds[0]);
    assert(quiet_round(last_checked_count, rounds[0]));
    if !a.finished {
        assert(rounds.len() > 1);
        let rest = rounds.drop_first();
        assert forall|i: int| 0 <= i < rest.len() implies quiet_round(last_checked_count, #[trigger] rest[i]) by {
            assert(rest[i] == rounds[i + 1]);
        }
        assert(rest.last() == rounds.last());
        lemma_stops_after_quiet_start(l, since, rest);
    }
}

/// The server stops once the queue has stayed empty, with the clients done,
/// for the shutdown delay: the first quiet round does not stop it but
/// remembers its time, and over quiet rounds that reach 5000 ms past that
/// time it stops.
pub proof fn lemma_server_stops_when_quiet(last_checked_count: usize, rounds: Seq<ServerRound>)
    requires
        rounds.len() > 0,
        forall|i: int| 0 <= i < rounds.len() ==> quiet_round(last_checked_count, #[trigger] rounds[i]),
        idle_long_enough(rounds[0].now_ms, rounds.last().now_ms),
    ensures
        !server_step(last_checked_count, None, rounds[0]).2.finished,
        server_step(last_checked_count, None, rounds[0]).1 == Some(rounds[0].now_ms),
        stops_during(last_checked_count, None, rounds),
{
    assert(quiet_round(last_checked_count, rounds[0]));
    let rest = rounds.drop_first();
    assert(rounds.len() > 1);
    assert forall|i: int| 0 <= i < rest.len() implies quiet_round(last_checked_count, #[trigger] rest[i]) by {
        assert(rest[i] == rounds[i + 1]);
    }
    assert(rest.last() == rounds.last());
    lemma_stops_after_quiet_start(last_checked_count, rounds[0].now_ms, rest);
}

/// Snapshots are scheduled exactly when due: a round pushes one whenever the
/// count is at least ten past the last snapshot point, and only then; and if
/// a round at some count pushes, so does one at any higher count.
pub proof fn lemma_snapshot_when_due(last_checked_count: usize, round: ServerRound, later_count: usize)
    ensures
        server_step(last_checked_count, None, round).2.push_balance_request <==> last_checked_count
            + 10 <= round.current_count,
        last_checked_count + 10 <= round.current_count ==> server_step(
            last_checked_count,
            None,
            round,
        ).0 == last_checked_count + 10,
        server_step(last_checked_count, None, round).2.push_balance_request && round.current_count
            <= later_count ==> server_step(
            last_checked_count,
            None,
            ServerRound { current_count: later_count, ..round },
        ).2.push_balance_request,
{
}

/// The shutdown delay is a lower bound, not an exact moment: with a
/// remembered quiet start `since`, a quiet round stops the server exactly
/// when at least 5000 ms have passed since then, so if it would stop at some
/// time it stops at every later time.
pub proof fn lemma_shutdown_after_delay(last_checked_count: usize, since: u64, round: ServerRound, later_ms: u64)
    requires
        quiet_round(last_checked_count, round),
    ensures
        server_step(last_checked_count, Some(since), round).2.finished <==> since + 5000
            <= round.now_ms,
        server_step(last_checked_count, Some(since), round).2.finished && round.now_ms <= later_ms
            ==> server_step(
            last_checked_count,
            Some(since),
            ServerRound { now_ms: later_ms, ..round },
        ).2.finished,
        !server_step(last_checked_count, None, round).2.finished,
{
}

} // verus!
