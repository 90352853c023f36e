//! The round escalation harness: ping-pong connections at increasing
//! connection counts, each round ended by a shared cancellation.
use vstd::prelude::*;
use crate::session::{Event, Incoming, Polled};
use crate::stats::{capped, sum_of};

verus! {

/// Connection counts of the successive rounds.
pub open spec fn round_connections_spec() -> Seq<usize> {
    seq![1, 2, 5, 10, 15, 20, 30, 40, 50, 75, 100, 150, 200]
}

pub fn round_connections() -> (r: Vec<usize>)
    ensures
        r@ == round_connections_spec(),
{
    let r: Vec<usize> = vec![1, 2, 5, 10, 15, 20, 30, 40, 50, 75, 100, 150, 200];
    proof {
        assert(r@ =~= round_connections_spec());
    }
    r
}

/// Seconds of cool-down between rounds.
pub const COOL_DOWN_SECS: u64 = 5;

/// Seconds a connection may take beyond the round's duration before it is
/// abandoned.
pub const CONNECTION_GRACE_SECS: u64 = 10;

/// The deadline of one connection task: the round's duration plus the grace
/// period (saturating).
pub fn connection_deadline_secs(duration: u64) -> (r: u64)
    ensures
        r == capped(duration + CONNECTION_GRACE_SECS, u64::MAX as int),
{
    duration.saturating_add(CONNECTION_GRACE_SECS)
}

/// A barrier for `members` connections and the harness's own timer task.
pub fn cohort_size(members: usize) -> (r: usize)
    requires
        members < usize::MAX,
    ensures
        r == members + 1,
{
    members + 1
}

/// What one connection reports at the end of a round.
#[derive(Clone, Copy, Debug, PartialEq, Eq, PartialOrd, Ord)]
pub struct RoundStatus {
    pub id: usize,
    pub sent: u64,
    pub received: u64,
    /// Publishes received per second.
    pub throughput: u128,
}

/// Publishes per second: `received` over the microseconds elapsed; 0 when no
/// time has elapsed.
pub open spec fn round_rate_spec(received: u64, elapsed_us: u64) -> u128 {
    if elapsed_us == 0 { 0 } else { ((received as int * 1_000_000) / (elapsed_us as int)) as u128 }
}

pub fn round_rate(received: u64, elapsed_us: u64) -> (r: u128)
    ensures
        r == round_rate_spec(received, elapsed_us),
{
    if elapsed_us == 0 {
        return 0;
    }
    proof {
        assert(received as int * 1_000_000 <= u64::MAX as int * 1_000_000) by (nonlinear_arith);
        assert((received as int * 1_000_000) / (elapsed_us as int) <= received as int * 1_000_000)
            by (nonlinear_arith)
            requires elapsed_us > 0;
    }
    (received as u128 * 1_000_000) / (elapsed_us as u128)
}

/// What the caller does after a connection step.
#[derive(Clone, Copy, Debug, PartialEq, Eq)]
pub enum RoundAction {
    /// Keep polling.
    Continue,
    /// Connected: subscribe to the connection's own topic.
    Subscribe,
    /// Subscribed: arrive at the round's barrier, then call `release`.
    ArriveAtBarrier,
    /// Publish one more message to keep the in-flight count constant.
    Republish,
    /// The connection is done.
    Finish(RoundStatus),
    /// The broker disconnected, or the connection failed: the round fails.
    Failed,
}

/// The phases of a round connection.
#[derive(Clone, Copy, Debug, PartialEq, Eq, Structural)]
pub enum RoundPhase {
    Connecting,
    Subscribing,
    AtBarrier,
    Running,
    Done,
}

/// One ping-pong connection of a round.
pub struct RoundConnection {
    id: usize,
    in_flight: usize,
    max_publishes: Option<u64>,
    sent: u64,
    received: u64,
    start_us: u64,
    phase: RoundPhase,
}

/// The state of a round connection, as plain values.
pub struct RoundConnectionView {
    pub id: usize,
    pub in_flight: usize,
    pub max_publishes: Option<u64>,
    pub sent: u64,
    pub received: u64,
    pub start_us: u64,
    pub phase: RoundPhase,
}

/// Microseconds from `from` to `to`, or 0 if the clock went backwards.
pub open spec fn elapsed_us_spec(from: u64, to: u64) -> u64 {
    if to >= from { (to - from) as u64 } else { 0 }
}

/// `x + 1`, saturating.
pub open spec fn inc_capped(x: u64) -> u64 {
    if x == u64::MAX { x } else { (x + 1) as u64 }
}

impl RoundConnection {
    pub closed spec fn view(&self) -> RoundConnectionView {
        RoundConnectionView {
            id: self.id,
            in_flight: self.in_flight,
            max_publishes: self.max_publishes,
            sent: self.sent,
            received: self.received,
            start_us: self.start_us,
            phase: self.phase,
        }
    }

    /// The report of a connection that stops at `now_us`.
    pub open spec fn status_at(v: RoundConnectionView, received: u64, now_us: u64) -> RoundStatus {
        RoundStatus {
            id: v.id,
            sent: v.sent,
            received,
            throughput: round_rate_spec(received, elapsed_us_spec(v.start_us, now_us)),
        }
    }

    pub fn new(id: usize, in_flight: usize, max_publishes: Option<u64>) -> (r: Self)
        ensures
            r@ == (RoundConnectionView {
                id,
                in_flight,
                max_publishes,
                sent: 0,
                received: 0,
                start_us: 0,
                phase: RoundPhase::Connecting,
            }),
    {
        RoundConnection { id, in_flight, max_publishes, sent: 0, received: 0, start_us: 0, phase: RoundPhase::Connecting }
    }

    fn status(&self, received: u64, now_us: u64) -> (r: RoundStatus)
        ensures
            r == Self::status_at(self@, received, now_us),
    {
        let us = if now_us >= self.start_us { now_us - self.start_us } else { 0 };
        RoundStatus { id: self.id, sent: self.sent, received, throughput: round_rate(received, us) }
    }

    /// The barrier released at `now_us`: the round's clock starts and the
    /// connection publishes its initial burst. Returns the burst size.
    pub fn release(&mut self, now_us: u64) -> (burst: usize)
        requires
            old(self)@.phase == RoundPhase::AtBarrier,
        ensures
            burst == old(self)@.in_flight,
            final(self)@ == (RoundConnectionView {
                sent: capped(old(self)@.sent + old(self)@.in_flight, u64::MAX as int) as u64,
                start_us: now_us,
                phase: RoundPhase::Running,
                ..old(self)@
            }),
    {
        self.start_us = now_us;
        self.sent = self.sent.saturating_add(self.in_flight as u64);
        self.phase = RoundPhase::Running;
        self.in_flight
    }

    /// Handles one poll outcome. `cancelled` tells whether the round's
    /// deadline has fired.
    ///
    /// A connection acknowledgment while connecting asks for the
    /// subscription; its acknowledgment while subscribing sends the
    /// connection to the barrier. Only a running connection (released by the
    /// barrier) answers a publish: after cancellation it finishes at once;
    /// otherwise the publish is counted, and the connection either finishes
    /// because its sent count has reached the budget or publishes one more.
    /// Before the release an incoming publish is ignored. A disconnect is a
    /// failure, except after cancellation, where it is the expected shutdown
    /// and finishes the connection with its status.
    pub fn step(&mut self, polled: Polled, cancelled: bool, now_us: u64) -> (r: RoundAction)
        requires
            old(self)@.phase != RoundPhase::Done,
            old(self)@.phase != RoundPhase::AtBarrier,
        ensures
            final(self)@.id == old(self)@.id,
            final(self)@.in_flight == old(self)@.in_flight,
            final(self)@.max_publishes == old(self)@.max_publishes,
            final(self)@.start_us == old(self)@.start_us,
            (r is Finish || r is Failed) <==> final(self)@.phase == RoundPhase::Done,
            r is Republish ==> old(self)@.phase == RoundPhase::Running,
            match polled {
                Polled::Timeout | Polled::Error => r == RoundAction::Failed
                    && final(self)@ == (RoundConnectionView { phase: RoundPhase::Done, ..old(self)@ }),
                Polled::Event(Event::Outgoing(_)) => r == RoundAction::Continue && final(self)@ == old(self)@,
                Polled::Event(Event::Incoming(Incoming::ConnAck)) => if old(self)@.phase == RoundPhase::Connecting {
                    &&& r == RoundAction::Subscribe
                    &&& final(self)@ == (RoundConnectionView { phase: RoundPhase::Subscribing, ..old(self)@ })
                } else {
                    r == RoundAction::Continue && final(self)@ == old(self)@
                },
                Polled::Event(Event::Incoming(Incoming::SubAck)) => if old(self)@.phase == RoundPhase::Subscribing {
                    &&& r == RoundAction::ArriveAtBarrier
                    &&& final(self)@ == (RoundConnectionView { phase: RoundPhase::AtBarrier, ..old(self)@ })
                } else {
                    r == RoundAction::Continue && final(self)@ == old(self)@
                },
                Polled::Event(Event::Incoming(Incoming::Publish)) => if old(self)@.phase == RoundPhase::Running {
                    &&& r == round_step_result(old(self)@, cancelled, now_us)
                    &&& final(self)@.sent == (if r is Republish { inc_capped(old(self)@.sent) } else { old(self)@.sent })
                    &&& final(self)@.received == (if cancelled { old(self)@.received } else { inc_capped(old(self)@.received) })
                    &&& final(self)@.phase == (if r is Republish { old(self)@.phase } else { RoundPhase::Done })
                } else {
                    r == RoundAction::Continue && final(self)@ == old(self)@
                },
                Polled::Event(Event::Incoming(Incoming::Disconnect)) => {
                    &&& r == (if cancelled {
                        RoundAction::Finish(RoundConnection::status_at(old(self)@, old(self)@.received, now_us))
                    } else {
                        RoundAction::Failed
                    })
                    &&& final(self)@ == (RoundConnectionView { phase: RoundPhase::Done, ..old(self)@ })
                },
                Polled::Event(Event::Incoming(_)) => r == RoundAction::Continue && final(self)@ == old(self)@,
            },
    {
        match polled {
            Polled::Timeout | Polled::Error => {
                self.phase = RoundPhase::Done;
                RoundAction::Failed
            },
            Polled::Event(Event::Outgoing(_)) => RoundAction::Continue,
            Polled::Event(Event::Incoming(Incoming::ConnAck)) => {
                if self.phase != RoundPhase::Connecting {
                    return RoundAction::Continue;
                }
                self.phase = RoundPhase::Subscribing;
                RoundAction::Subscribe
            },
            Polled::Event(Event::Incoming(Incoming::SubAck)) => {
                if self.phase != RoundPhase::Subscribing {
                    return RoundAction::Continue;
                }
                self.phase = RoundPhase::AtBarrier;
                RoundAction::ArriveAtBarrier
            },
            Polled::Event(Event::Incoming(Incoming::Publish)) => {
                if self.phase != RoundPhase::Running {
                    return RoundAction::Continue;
                }
                if cancelled {
                    let status = self.status(self.received, now_us);
                    self.phase = RoundPhase::Done;
                    return RoundAction::Finish(status);
                }
                self.received = self.received.saturating_add(1);
                match self.max_publishes {
                    Some(budget) => {
                        if self.sent >= budget {
                            let status = self.status(self.received, now_us);
                            self.phase = RoundPhase::Done;
                            return RoundAction::Finish(status);
                        }
                    },
                    None => {},
                }
                self.sent = self.sent.saturating_add(1);
                RoundAction::Republish
            },
            Polled::Event(Event::Incoming(Incoming::Disconnect)) => {
                let r = if cancelled {
                    RoundAction::Finish(self.status(self.received, now_us))
                } else {
                    RoundAction::Failed
                };
                self.phase = RoundPhase::Done;
                r
            },
            Polled::Event(Event::Incoming(_)) => RoundAction::Continue,
        }
    }
}

/// Round termination: once the round is cancelled, the next event a running
/// connection processes that is a publish ends it; with a budget `B`, a
/// publish that finds `B` or more messages sent ends it too.
pub proof fn round_termination(v: RoundConnectionView, cancelled: bool, now_us: u64)
    requires
        v.phase == RoundPhase::Running,
        cancelled || (v.max_publishes matches Some(b) && v.sent >= b),
    ensures
        ({
            let received = if cancelled { v.received } else { inc_capped(v.received) };
            round_step_result(v, cancelled, now_us) == RoundAction::Finish(RoundConnection::status_at(v, received, now_us))
        }),
{
}

/// The action `step` returns for an incoming publish to a running connection.
pub open spec fn round_step_result(v: RoundConnectionView, cancelled: bool, now_us: u64) -> RoundAction {
    if cancelled {
        RoundAction::Finish(RoundConnection::status_at(v, v.received, now_us))
    } else {
        let received = inc_capped(v.received);
        match v.max_publishes {
            Some(budget) if v.sent >= budget => RoundAction::Finish(RoundConnection::status_at(v, received, now_us)),
            _ => RoundAction::Republish,
        }
    }
}

/// One round's totals.
#[derive(Clone, Copy, Debug, PartialEq, Eq)]
pub struct RoundSummary {
    pub connections: usize,
    pub sent: u128,
    pub received: u128,
    /// Sent but not received (0 if more came back than went out).
    pub missed: u128,
    /// Sum of the connections' rates.
    pub total: u128,
    /// `total` divided by the round's connection count.
    pub per_connection: u128,
}

pub open spec fn status_sent() -> spec_fn(RoundStatus) -> int { |s: RoundStatus| s.sent as int }
pub open spec fn status_received() -> spec_fn(RoundStatus) -> int { |s: RoundStatus| s.received as int }
pub open spec fn status_throughput() -> spec_fn(RoundStatus) -> int { |s: RoundStatus| s.throughput as int }

proof fn lemma_status_prefix(s: Seq<RoundStatus>, i: int, f: spec_fn(RoundStatus) -> int)
    requires
        0 <= i < s.len(),
        forall|j: int| 0 <= j < s.len() ==> f(#[trigger] s[j]) >= 0,
    ensures
        sum_of(s.subrange(0, i + 1), f) == sum_of(s.subrange(0, i), f) + f(s[i]),
        sum_of(s.subrange(0, i), f) >= 0,
    decreases i,
{
    assert(s.subrange(0, i + 1).drop_last() =~= s.subrange(0, i));
    if i > 0 {
        lemma_status_prefix(s, i - 1, f);
    } else {
        assert(s.subrange(0, 0).len() == 0);
    }
}

/// Sums a round's reports. Sent and received totals are exact (they fit in
/// `u128`); the total rate saturates.
pub fn summarize_round(results: &Vec<RoundStatus>, connections: usize) -> (r: RoundSummary)
    requires
        connections > 0,
    ensures
        r.connections == connections,
        r.sent == sum_of(results@, status_sent()),
        r.received == sum_of(results@, status_received()),
        r.missed == if r.sent >= r.received { r.sent - r.received } else { 0 },
        r.total == capped(sum_of(results@, status_throughput()), u128::MAX as int),
        r.per_connection as int == r.total as int / connections as int,
{
    let mut sent: u128 = 0;
    let mut received: u128 = 0;
    let mut total: u128 = 0;
    let mut i: usize = 0;
    while i < results.len()
        invariant
            i <= results@.len(),
            sent == sum_of(results@.subrange(0, i as int), status_sent()),
            received == sum_of(results@.subrange(0, i as int), status_received()),
            sent <= i * u64::MAX,
            received <= i * u64::MAX,
            total == capped(sum_of(results@.subrange(0, i as int), status_throughput()), u128::MAX as int),
        decreases results@.len() - i,
    {
        let s = results[i];
        proof {
            lemma_status_prefix(results@, i as int, status_sent());
            lemma_status_prefix(results@, i as int, status_received());
            lemma_status_prefix(results@, i as int, status_throughput());
            assert(i * u64::MAX + u64::MAX == (i + 1) * u64::MAX) by (nonlinear_arith);
            assert((i + 1) * u64::MAX <= usize::MAX as int * u64::MAX as int) by (nonlinear_arith)
                requires i + 1 <= usize::MAX;
            assert(usize::MAX as int * u64::MAX as int <= u128::MAX) by (nonlinear_arith);
        }
        sent = sent + s.sent as u128;
        received = received + s.received as u128;
        total = total.saturating_add(s.throughput);
        i = i + 1;
    }
    proof {
        assert(results@.subrange(0, results@.len() as int) =~= results@);
    }
    let missed = if sent >= received { sent - received } else { 0 };
    RoundSummary { connections, sent, received, missed, total, per_connection: total / connections as u128 }
}

} // verus!
