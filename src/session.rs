//! Session state machines: what one simulated connection decides on each
//! protocol event. The caller polls the protocol client, hands each outcome to
//! the session together with the current time in milliseconds, and carries out
//! what the session returns.
use vstd::prelude::*;
use vstd::multiset::Multiset;
use crate::histogram::{bucket_value, LatencyHistogram};
use crate::cli::Qos;
use crate::stats::{rate_per_sec, rate_per_sec_spec, PubStats, SubStats};

verus! {

/// An incoming packet, by kind.
#[derive(Clone, Copy, Debug, PartialEq, Eq, Structural)]
pub enum Incoming {
    ConnAck,
    SubAck,
    PubAck { pkid: u16 },
    Publish,
    PingResp,
    Disconnect,
    Other,
}

/// An outgoing packet, by kind.
#[derive(Clone, Copy, Debug, PartialEq, Eq, Structural)]
pub enum Outgoing {
    Publish { pkid: u16 },
    PubAck,
    PingReq,
    Other,
}

#[derive(Clone, Copy, Debug, PartialEq, Eq, Structural)]
pub enum Event {
    Incoming(Incoming),
    Outgoing(Outgoing),
}

/// The outcome of one poll of the protocol event loop.
#[derive(Clone, Copy, Debug, PartialEq, Eq, Structural)]
pub enum Polled {
    Event(Event),
    /// The network or a flush timed out.
    Timeout,
    /// Any other connection error.
    Error,
}

/// `x + 1`, saturating at `u64::MAX`.
pub open spec fn sat_inc(x: u64) -> u64 {
    if x == u64::MAX { x } else { (x + 1) as u64 }
}

/// Milliseconds from `from` to `to`, or 0 if the clock went backwards.
pub open spec fn elapsed_spec(from: u64, to: u64) -> u64 {
    if to >= from { (to - from) as u64 } else { 0 }
}

pub fn elapsed(from: u64, to: u64) -> (r: u64)
    ensures
        r == elapsed_spec(from, to),
{
    if to >= from { to - from } else { 0 }
}

// ---------------------------------------------------------------------------
// Construction handshake

/// What the caller does after a handshake step.
#[derive(Clone, Copy, Debug, PartialEq, Eq, Structural)]
pub enum HandshakeStep {
    /// Keep polling.
    Continue,
    /// Connected: send the subscriptions, then keep polling.
    Subscribe,
    /// Connected and every subscription acknowledged.
    Ready,
    /// Timed out: wait a second and poll again.
    Retry,
    /// An incoming packet that does not belong here: construction fails.
    WrongPacket,
    /// A connection error: construction fails.
    Failed,
}

/// Connect, then wait for the acknowledgment of `expected_subacks`
/// subscriptions.
///
/// An ordered handshake (publisher and subscriber sessions) takes exactly one
/// connection acknowledgment, first, then the subscription acknowledgments;
/// anything else incoming is a wrong packet. An unordered one (duplex
/// connections, whose subscriptions may be acknowledged in any order with the
/// connection) ignores repeated connection acknowledgments and counts a
/// subscription acknowledgment whenever it comes.
pub struct Handshake {
    expected_subacks: usize,
    retry_on_timeout: bool,
    ordered: bool,
    connected: bool,
    subacks: usize,
}

impl Handshake {
    pub closed spec fn expected(&self) -> nat {
        self.expected_subacks as nat
    }

    pub closed spec fn retries(&self) -> bool {
        self.retry_on_timeout
    }

    pub closed spec fn is_ordered(&self) -> bool {
        self.ordered
    }

    pub closed spec fn is_connected(&self) -> bool {
        self.connected
    }

    pub closed spec fn acknowledged(&self) -> nat {
        self.subacks as nat
    }

    pub fn new(expected_subacks: usize, retry_on_timeout: bool, ordered: bool) -> (r: Self)
        ensures
            r.expected() == expected_subacks,
            r.retries() == retry_on_timeout,
            r.is_ordered() == ordered,
            !r.is_connected(),
            r.acknowledged() == 0,
    {
        Handshake { expected_subacks, retry_on_timeout, ordered, connected: false, subacks: 0 }
    }

    /// Classifies one poll outcome. The connection acknowledgment asks for the
    /// subscriptions (or ends the handshake when none are outstanding); each
    /// subscription acknowledgment counts, and the handshake ends once the
    /// connection and every expected subscription are acknowledged. Outgoing
    /// packets are ignored; timeouts retry or fail, other errors fail.
    pub fn step(&mut self, polled: Polled) -> (r: HandshakeStep)
        ensures
            final(self).expected() == old(self).expected(),
            final(self).retries() == old(self).retries(),
            final(self).is_ordered() == old(self).is_ordered(),
            match polled {
                Polled::Timeout => {
                    &&& r == (if old(self).retries() { HandshakeStep::Retry } else { HandshakeStep::Failed })
                    &&& *final(self) == *old(self)
                },
                Polled::Error => r == HandshakeStep::Failed && *final(self) == *old(self),
                Polled::Event(Event::Outgoing(_)) => r == HandshakeStep::Continue && *final(self) == *old(self),
                Polled::Event(Event::Incoming(Incoming::ConnAck)) => if !old(self).is_connected() {
                    &&& final(self).is_connected()
                    &&& final(self).acknowledged() == old(self).acknowledged()
                    &&& r == (if old(self).acknowledged() >= old(self).expected() {
                        HandshakeStep::Ready
                    } else {
                        HandshakeStep::Subscribe
                    })
                } else if old(self).is_ordered() {
                    r == HandshakeStep::WrongPacket && *final(self) == *old(self)
                } else {
                    r == HandshakeStep::Continue && *final(self) == *old(self)
                },
                Polled::Event(Event::Incoming(Incoming::SubAck)) => if (old(self).is_connected()
                    || !old(self).is_ordered()) && old(self).acknowledged() < old(self).expected() {
                    &&& final(self).is_connected() == old(self).is_connected()
                    &&& final(self).acknowledged() == old(self).acknowledged() + 1
                    &&& r == (if old(self).is_connected() && final(self).acknowledged() == old(self).expected() {
                        HandshakeStep::Ready
                    } else {
                        HandshakeStep::Continue
                    })
                } else {
                    r == HandshakeStep::WrongPacket && *final(self) == *old(self)
                },
                Polled::Event(Event::Incoming(_)) => r == HandshakeStep::WrongPacket && *final(self) == *old(self),
            },
    {
        match polled {
            Polled::Timeout => {
                if self.retry_on_timeout { HandshakeStep::Retry } else { HandshakeStep::Failed }
            },
            Polled::Error => HandshakeStep::Failed,
            Polled::Event(Event::Outgoing(_)) => HandshakeStep::Continue,
            Polled::Event(Event::Incoming(Incoming::ConnAck)) => {
                if self.connected {
                    if self.ordered { HandshakeStep::WrongPacket } else { HandshakeStep::Continue }
                } else {
                    self.connected = true;
                    if self.subacks >= self.expected_subacks { HandshakeStep::Ready } else { HandshakeStep::Subscribe }
                }
            },
            Polled::Event(Event::Incoming(Incoming::SubAck)) => {
                if (self.connected || !self.ordered) && self.subacks < self.expected_subacks {
                    self.subacks = self.subacks + 1;
                    if self.connected && self.subacks == self.expected_subacks {
                        HandshakeStep::Ready
                    } else {
                        HandshakeStep::Continue
                    }
                } else {
                    HandshakeStep::WrongPacket
                }
            },
            Polled::Event(Event::Incoming(_)) => HandshakeStep::WrongPacket,
        }
    }
}

// ---------------------------------------------------------------------------
// Publisher

/// Acknowledgments a publisher waits for: one per message at QoS 1 or 2; a
/// single one for the closing synchronisation publish at QoS 0, or for an idle
/// session that only keeps the connection alive.
pub open spec fn acks_expected_spec(count: usize, publish_qos: i16) -> usize {
    if count == 0 || publish_qos == 0 { 1 } else { count }
}

/// Publishes a publisher reports as confirmed: every message at QoS 0, none for
/// an idle session, the acknowledgments otherwise.
pub open spec fn confirmed_spec(count: usize, publish_qos: i16, acks: usize) -> usize {
    if publish_qos == 0 { count } else if count == 0 { 0 } else { acks }
}

/// The measuring side of a publisher session: it waits for its cohort's
/// barrier, then times every publish from dispatch to acknowledgment.
///
/// Dispatch times are kept per in-flight identifier (modulo the table size)
/// and cleared by the acknowledgment, so a duplicate or spurious
/// acknowledgment finds no time and records nothing.
pub struct Publisher {
    count: usize,
    publish_qos: i16,
    acks_expected: usize,
    acks_count: usize,
    unsolicited: usize,
    reconnects: u64,
    max_reconnects: u64,
    latencies: Vec<Option<u64>>,
    histogram: LatencyHistogram,
    released: bool,
    finished: bool,
    start_ms: u64,
    elapsed_ms: u64,
}

impl Publisher {
    pub closed spec fn wf(&self) -> bool {
        &&& self.latencies@.len() >= 1
        &&& self.histogram.wf()
        &&& self.acks_expected == acks_expected_spec(self.count, self.publish_qos)
        &&& self.acks_count <= self.acks_expected
        &&& self.histogram@.len() + self.unsolicited == self.acks_count
        &&& self.max_reconnects >= 1
        &&& (!self.finished ==> self.acks_count < self.acks_expected && self.reconnects < self.max_reconnects)
        &&& (self.finished ==> self.released)
        &&& forall|i: int| 0 <= i < self.latencies@.len() ==> (#[trigger] self.latencies@[i] matches Some(t)
            ==> self.released && t >= self.start_ms)
        &&& (!self.released ==> self.acks_count == 0)
    }

    pub closed spec fn count_spec(&self) -> usize { self.count }
    pub closed spec fn publish_qos_spec(&self) -> i16 { self.publish_qos }
    pub closed spec fn acks(&self) -> usize { self.acks_count }
    pub closed spec fn unsolicited_acks(&self) -> usize { self.unsolicited }
    pub closed spec fn reconnect_count(&self) -> u64 { self.reconnects }
    pub closed spec fn reconnect_limit(&self) -> u64 { self.max_reconnects }
    /// Dispatch times by in-flight slot.
    pub closed spec fn dispatched(&self) -> Seq<Option<u64>> { self.latencies@ }
    pub closed spec fn samples(&self) -> Multiset<u64> { self.histogram@ }
    /// The cohort's barrier has released this session.
    pub closed spec fn released(&self) -> bool { self.released }
    pub closed spec fn finished(&self) -> bool { self.finished }
    pub closed spec fn start_time(&self) -> u64 { self.start_ms }
    pub closed spec fn elapsed_time(&self) -> u64 { self.elapsed_ms }

    /// The in-flight slot of identifier `pkid`.
    pub open spec fn slot_of(&self, pkid: u16) -> int {
        pkid as int % self.dispatched().len() as int
    }

    /// A publisher of `count` messages at `publish_qos`, with room for
    /// `max_inflight` identifiers, that stops measuring at its
    /// `max_reconnects`-th connection error.
    pub fn new(count: usize, publish_qos: i16, max_inflight: u16, max_reconnects: u64) -> (r: Self)
        requires
            max_reconnects >= 1,
        ensures
            r.wf(),
            r.count_spec() == count,
            r.publish_qos_spec() == publish_qos,
            r.reconnect_limit() == max_reconnects,
            r.dispatched() == Seq::new(max_inflight as nat + 1, |i: int| None::<u64>),
            r.acks() == 0,
            r.unsolicited_acks() == 0,
            r.reconnect_count() == 0,
            r.samples() == Multiset::<u64>::empty(),
            !r.released(),
            !r.finished(),
    {
        let slots: usize = max_inflight as usize + 1;
        let mut latencies: Vec<Option<u64>> = Vec::new();
        let mut i: usize = 0;
        while i < slots
            invariant
                i <= slots,
                slots == max_inflight as nat + 1,
                latencies@ == Seq::new(i as nat, |j: int| None::<u64>),
            decreases slots - i,
        {
            latencies.push(None);
            i = i + 1;
            proof {
                assert(latencies@ =~= Seq::new(i as nat, |j: int| None::<u64>));
            }
        }
        let acks_expected = if count == 0 || publish_qos == 0 { 1 } else { count };
        Publisher {
            count,
            publish_qos,
            acks_expected,
            acks_count: 0,
            unsolicited: 0,
            reconnects: 0,
            max_reconnects,
            latencies,
            histogram: LatencyHistogram::new(),
            released: false,
            finished: false,
            start_ms: 0,
            elapsed_ms: 0,
        }
    }

    pub fn acks_count(&self) -> (r: usize)
        ensures
            r == self.acks(),
    {
        self.acks_count
    }

    /// The barrier has released: measuring starts at `now_ms`. Returns whether
    /// to spawn the workload (not for an idle session of zero messages). This
    /// is the only way a publisher comes to publish, so no publish precedes
    /// the release.
    pub fn start(&mut self, now_ms: u64) -> (spawn: bool)
        requires
            old(self).wf(),
            !old(self).released(),
        ensures
            final(self).wf(),
            final(self).released(),
            !final(self).finished(),
            final(self).start_time() == now_ms,
            spawn == (old(self).count_spec() != 0),
            final(self).count_spec() == old(self).count_spec(),
            final(self).publish_qos_spec() == old(self).publish_qos_spec(),
            final(self).reconnect_limit() == old(self).reconnect_limit(),
            final(self).acks() == old(self).acks(),
            final(self).unsolicited_acks() == old(self).unsolicited_acks(),
            final(self).reconnect_count() == old(self).reconnect_count(),
            final(self).dispatched() == old(self).dispatched(),
            final(self).samples() == old(self).samples(),
    {
        self.released = true;
        self.start_ms = now_ms;
        self.count != 0
    }

    /// Handles one poll outcome at `now_ms` (a monotonic clock, not before
    /// the release); returns whether to keep measuring.
    ///
    /// A dispatched publish stores its time in its identifier's slot. An
    /// acknowledgment counts, and if its slot holds a time records the latency
    /// and clears the slot; otherwise it is unsolicited and only counted.
    /// Measuring ends when the expected acknowledgments have arrived, on an
    /// unexpected incoming packet, or at the reconnect limit.
    pub fn step(&mut self, polled: Polled, now_ms: u64) -> (keep: bool)
        requires
            old(self).wf(),
            old(self).released(),
            !old(self).finished(),
            now_ms >= old(self).start_time(),
        ensures
            final(self).wf(),
            final(self).released(),
            keep == !final(self).finished(),
            final(self).count_spec() == old(self).count_spec(),
            final(self).publish_qos_spec() == old(self).publish_qos_spec(),
            final(self).reconnect_limit() == old(self).reconnect_limit(),
            final(self).start_time() == old(self).start_time(),
            final(self).dispatched().len() == old(self).dispatched().len(),
            !(polled matches Polled::Event(Event::Incoming(Incoming::PubAck { .. })))
                ==> final(self).unsolicited_acks() == old(self).unsolicited_acks(),
            match polled {
                Polled::Timeout | Polled::Error => {
                    &&& final(self).reconnect_count() == old(self).reconnect_count() + 1
                    &&& final(self).finished() == (final(self).reconnect_count() >= old(self).reconnect_limit())
                    &&& final(self).acks() == old(self).acks()
                    &&& final(self).dispatched() == old(self).dispatched()
                    &&& final(self).samples() == old(self).samples()
                },
                Polled::Event(Event::Incoming(Incoming::PubAck { pkid })) => {
                    &&& final(self).acks() == old(self).acks() + 1
                    &&& final(self).reconnect_count() == old(self).reconnect_count()
                    &&& final(self).finished() == (final(self).acks() >= acks_expected_spec(
                        old(self).count_spec(),
                        old(self).publish_qos_spec(),
                    ))
                    &&& match old(self).dispatched()[old(self).slot_of(pkid)] {
                        Some(sent) => {
                            &&& final(self).samples() == old(self).samples().insert(bucket_value(elapsed_spec(sent, now_ms)))
                            &&& final(self).dispatched() == old(self).dispatched().update(old(self).slot_of(pkid), None)
                            &&& final(self).unsolicited_acks() == old(self).unsolicited_acks()
                        },
                        None => {
                            &&& final(self).samples() == old(self).samples()
                            &&& final(self).dispatched() == old(self).dispatched()
                            &&& final(self).unsolicited_acks() == old(self).unsolicited_acks() + 1
                        },
                    }
                },
                Polled::Event(Event::Incoming(Incoming::PingResp)) => {
                    &&& !final(self).finished()
                    &&& final(self).acks() == old(self).acks()
                    &&& final(self).reconnect_count() == old(self).reconnect_count()
                    &&& final(self).dispatched() == old(self).dispatched()
                    &&& final(self).samples() == old(self).samples()
                },
                Polled::Event(Event::Incoming(_)) => {
                    &&& final(self).finished()
                    &&& final(self).acks() == old(self).acks()
                    &&& final(self).reconnect_count() == old(self).reconnect_count()
                    &&& final(self).dispatched() == old(self).dispatched()
                    &&& final(self).samples() == old(self).samples()
                },
                Polled::Event(Event::Outgoing(Outgoing::Publish { pkid })) => {
                    &&& !final(self).finished()
                    &&& final(self).acks() == old(self).acks()
                    &&& final(self).reconnect_count() == old(self).reconnect_count()
                    &&& final(self).dispatched() == old(self).dispatched().update(old(self).slot_of(pkid), Some(now_ms))
                    &&& final(self).samples() == old(self).samples()
                },
                Polled::Event(Event::Outgoing(_)) => {
                    &&& !final(self).finished()
                    &&& final(self).acks() == old(self).acks()
                    &&& final(self).reconnect_count() == old(self).reconnect_count()
                    &&& final(self).dispatched() == old(self).dispatched()
                    &&& final(self).samples() == old(self).samples()
                },
            },
            final(self).elapsed_time() == (if polled matches Polled::Event(Event::Incoming(Incoming::PubAck { .. }))
                && final(self).acks() >= acks_expected_spec(old(self).count_spec(), old(self).publish_qos_spec()) {
                elapsed_spec(old(self).start_time(), now_ms)
            } else {
                old(self).elapsed_time()
            }),
    {
        match polled {
            Polled::Timeout | Polled::Error => {
                self.reconnects = self.reconnects + 1;
                if self.reconnects >= self.max_reconnects {
                    self.finished = true;
                }
            },
            Polled::Event(Event::Incoming(Incoming::PubAck { pkid })) => {
                self.acks_count = self.acks_count + 1;
                let slot = pkid as usize % self.latencies.len();
                match self.latencies[slot] {
                    Some(sent) => {
                        self.histogram.record(elapsed(sent, now_ms));
                        self.latencies.set(slot, None);
                    },
                    None => {
                        self.unsolicited = self.unsolicited + 1;
                    },
                }
                if self.acks_count >= self.acks_expected {
                    self.elapsed_ms = elapsed(self.start_ms, now_ms);
                    self.finished = true;
                }
            },
            Polled::Event(Event::Incoming(Incoming::PingResp)) => {},
            Polled::Event(Event::Incoming(_)) => {
                self.finished = true;
            },
            Polled::Event(Event::Outgoing(Outgoing::Publish { pkid })) => {
                let slot = pkid as usize % self.latencies.len();
                self.latencies.set(slot, Some(now_ms));
            },
            Polled::Event(Event::Outgoing(_)) => {},
        }
        !self.finished
    }

    /// The session's statistics: confirmed publishes, throughput of the
    /// configured message count over the time to the last expected
    /// acknowledgment, reconnects and the latency histogram.
    pub fn finish(self) -> (r: PubStats)
        requires
            self.wf(),
        ensures
            r.outgoing_publish == confirmed_spec(self.count_spec(), self.publish_qos_spec(), self.acks()),
            r.outgoing_publish <= self.count_spec(),
            r.throughput == rate_per_sec_spec(self.count_spec() as u64, self.elapsed_time()),
            r.reconnects == self.reconnect_count(),
            r.histogram.wf(),
            r.histogram@ == self.samples(),
            r.histogram@.len() + self.unsolicited_acks() == self.acks(),
    {
        let confirmed = if self.publish_qos == 0 {
            self.count
        } else if self.count == 0 {
            0
        } else {
            self.acks_count
        };
        PubStats {
            outgoing_publish: confirmed as u64,
            throughput: rate_per_sec(self.count as u64, self.elapsed_ms),
            reconnects: self.reconnects,
            histogram: self.histogram,
        }
    }
}


/// Barrier correctness, on the publisher's side: a publisher records no
/// dispatched publish and no acknowledgment before its cohort's barrier has
/// released it, and every dispatch time it holds is at or after the release.
pub proof fn no_publish_before_release(p: Publisher)
    requires
        p.wf(),
    ensures
        forall|i: int| 0 <= i < p.dispatched().len() ==> (#[trigger] p.dispatched()[i] matches Some(t)
            ==> p.released() && t >= p.start_time()),
        !p.released() ==> p.acks() == 0 && p.samples().len() == 0,
{
}

/// What every publisher keeps true: its dispatch table is never empty, its
/// acknowledgments never exceed the expected number and stay below it while
/// it measures, and each acknowledgment recorded at most one latency sample
/// (exactly one unless it was unsolicited).
pub proof fn publisher_invariants(p: Publisher)
    requires
        p.wf(),
    ensures
        p.dispatched().len() >= 1,
        p.reconnect_limit() >= 1,
        p.acks() <= acks_expected_spec(p.count_spec(), p.publish_qos_spec()),
        !p.finished() ==> p.acks() < acks_expected_spec(p.count_spec(), p.publish_qos_spec())
            && p.reconnect_count() < p.reconnect_limit(),
        p.samples().len() + p.unsolicited_acks() == p.acks(),
        p.finished() ==> p.released(),
{
}

/// Publishes a publisher sends once its workload is done: at QoS 0 one more
/// at QoS 1, whose acknowledgment ends the session; none otherwise.
pub fn closing_publish_qos(qos: Qos) -> (r: Option<Qos>)
    ensures
        r == (if qos == Qos::AtMostOnce { Some(Qos::AtLeastOnce) } else { None::<Qos> }),
{
    match qos {
        Qos::AtMostOnce => Some(Qos::AtLeastOnce),
        _ => None,
    }
}

// ---------------------------------------------------------------------------
// Subscriber

/// Publishes a subscriber waits for: every kind of every publisher, `count`
/// times each (saturating at `usize::MAX`).
pub open spec fn required_publishes_spec(count: usize, publishers: usize, kinds: usize) -> usize {
    let p = count as int * publishers as int * kinds as int;
    if p <= usize::MAX { p as usize } else { usize::MAX }
}

pub fn required_publishes(count: usize, publishers: usize, kinds: usize) -> (r: usize)
    ensures
        r == required_publishes_spec(count, publishers, kinds),
{
    let ghost cp: int = count as int * publishers as int;
    let ghost p: int = count as int * publishers as int * kinds as int;
    proof {
        lemma_mul_bounded(count as int, publishers as int);
        assert(p == cp * kinds as int);
    }
    let a = count as u128 * publishers as u128;
    if a > usize::MAX as u128 {
        if kinds == 0 {
            assert(p == 0);
            0
        } else {
            proof {
                assert(cp * kinds as int >= cp) by (nonlinear_arith)
                    requires kinds > 0, cp >= 0;
            }
            usize::MAX
        }
    } else {
        proof {
            lemma_mul_bounded(a as int, kinds as int);
        }
        let b = a * kinds as u128;
        if b > usize::MAX as u128 { usize::MAX } else { b as usize }
    }
}

proof fn lemma_mul_bounded(x: int, y: int)
    requires
        0 <= x <= usize::MAX,
        0 <= y <= usize::MAX,
    ensures
        0 <= x * y <= u128::MAX,
{
    assert(x * y <= usize::MAX as int * usize::MAX as int) by (nonlinear_arith)
        requires 0 <= x <= usize::MAX, 0 <= y <= usize::MAX;
    assert(0 <= x * y) by (nonlinear_arith)
        requires 0 <= x, 0 <= y;
    assert(usize::MAX as int * usize::MAX as int <= u128::MAX) by (nonlinear_arith);
}

/// The measuring side of a subscriber session. After the barrier it waits for
/// the first publish (which starts its clock), then counts publishes until the
/// required number has arrived, recording the gap between consecutive ones.
/// One connection error is tolerated while waiting for the first publish and
/// two in all.
pub struct Subscriber {
    required: usize,
    publish_count: usize,
    puback_count: u64,
    reconnects: u64,
    counting: bool,
    seq: u64,
    start_ms: u64,
    last_ms: u64,
    sleep_sub: u64,
    histogram: LatencyHistogram,
    released: bool,
    finished: bool,
}

/// Every hundredth publish after the first makes a slow subscriber sleep.
pub open spec fn sleeps_after(seq: u64, sleep_sub: u64) -> bool {
    seq % 100 == 0 && sleep_sub != 0
}

/// The state of a subscriber session, as plain values.
pub struct SubscriberView {
    pub required: usize,
    pub publishes: usize,
    pub pubacks: u64,
    pub reconnects: u64,
    /// The first publish has arrived, or waiting for it was given up.
    pub counting: bool,
    /// Publishes after the first.
    pub gaps: u64,
    pub start_ms: u64,
    pub last_ms: u64,
    pub sleep_secs: u64,
    pub samples: Multiset<u64>,
    pub released: bool,
    pub finished: bool,
}

impl Subscriber {
    pub closed spec fn view(&self) -> SubscriberView {
        SubscriberView {
            required: self.required,
            publishes: self.publish_count,
            pubacks: self.puback_count,
            reconnects: self.reconnects,
            counting: self.counting,
            gaps: self.seq,
            start_ms: self.start_ms,
            last_ms: self.last_ms,
            sleep_secs: self.sleep_sub,
            samples: self.histogram@,
            released: self.released,
            finished: self.finished,
        }
    }

    pub closed spec fn wf(&self) -> bool {
        &&& self.histogram.wf()
        &&& self.seq <= self.publish_count
        &&& (!self.counting ==> self.publish_count == 0 && self.reconnects == 0)
        &&& (!self.finished ==> self.reconnects < 2 && (self.counting ==> self.publish_count < self.required))
        &&& (self.finished ==> self.released)
        &&& self.reconnects <= 2
        &&& self.publish_count <= self.required || self.publish_count <= 1
        &&& self.histogram@.len() == self.seq
    }

    pub fn new(count: usize, publishers: usize, kinds: usize, sleep_sub: u64) -> (r: Self)
        ensures
            r.wf(),
            r@.required == required_publishes_spec(count, publishers, kinds),
            r@.publishes == 0,
            r@.pubacks == 0,
            r@.reconnects == 0,
            r@.samples == Multiset::<u64>::empty(),
            r@.sleep_secs == sleep_sub,
            !r@.counting,
            !r@.released,
            !r@.finished,
    {
        Subscriber {
            required: required_publishes(count, publishers, kinds),
            publish_count: 0,
            puback_count: 0,
            reconnects: 0,
            counting: false,
            seq: 0,
            start_ms: 0,
            last_ms: 0,
            sleep_sub,
            histogram: LatencyHistogram::new(),
            released: false,
            finished: false,
        }
    }

    pub fn is_finished(&self) -> (r: bool)
        ensures
            r == self@.finished,
    {
        self.finished
    }

    /// What every subscriber keeps true: at most two connection errors, at
    /// most the required publishes (or the one first publish), and one
    /// recorded gap per publish counted after the first (or after waiting for
    /// the first was given up).
    pub proof fn subscriber_invariants(&self)
        requires
            self.wf(),
        ensures
            self@.reconnects <= 2,
            self@.publishes <= self@.required || self@.publishes <= 1,
            self@.samples.len() == self@.gaps,
            self@.gaps <= self@.publishes,
            !self@.counting ==> self@.publishes == 0 && self@.reconnects == 0,
            self@.finished ==> self@.released,
    {
    }

    /// The barrier has released this subscriber.
    pub fn start(&mut self)
        requires
            old(self).wf(),
            !old(self)@.released,
        ensures
            final(self).wf(),
            final(self)@.released,
            final(self)@ == (SubscriberView { released: true, ..old(self)@ }),
    {
        self.released = true;
    }

    fn enter_counting(&mut self)
        requires
            old(self).seq <= old(self).publish_count,
            !old(self).finished,
        ensures
            final(self).histogram == old(self).histogram,
            final(self)@ == (SubscriberView {
                counting: true,
                finished: old(self).publish_count >= old(self).required,
                ..old(self)@
            }),
    {
        self.counting = true;
        if self.publish_count >= self.required {
            self.finished = true;
        }
    }

    /// Handles one poll outcome. Returns the seconds to sleep before polling
    /// again, if any; `finished()` tells when to stop.
    pub fn step(&mut self, polled: Polled, now_ms: u64) -> (sleep: Option<u64>)
        requires
            old(self).wf(),
            old(self)@.released,
            !old(self)@.finished,
        ensures
            final(self).wf(),
            final(self)@.released,
            final(self)@.required == old(self)@.required,
            final(self)@.sleep_secs == old(self)@.sleep_secs,
            !old(self)@.counting ==> match polled {
                Polled::Timeout | Polled::Error => {
                    &&& sleep is None
                    &&& final(self)@ == (SubscriberView {
                        reconnects: 1,
                        counting: true,
                        finished: old(self)@.required == 0,
                        ..old(self)@
                    })
                },
                Polled::Event(Event::Incoming(Incoming::Publish)) => {
                    &&& sleep is None
                    &&& final(self)@ == (SubscriberView {
                        publishes: 1,
                        start_ms: now_ms,
                        last_ms: now_ms,
                        counting: true,
                        finished: old(self)@.required <= 1,
                        ..old(self)@
                    })
                },
                Polled::Event(Event::Outgoing(Outgoing::PubAck)) => {
                    &&& sleep is None
                    &&& final(self)@ == (SubscriberView { pubacks: sat_inc(old(self)@.pubacks), ..old(self)@ })
                },
                _ => sleep is None && final(self)@ == old(self)@,
            },
            old(self)@.counting ==> match polled {
                Polled::Timeout | Polled::Error => {
                    &&& sleep is None
                    &&& final(self)@ == (SubscriberView {
                        reconnects: (old(self)@.reconnects + 1) as u64,
                        finished: old(self)@.reconnects + 1 >= 2,
                        ..old(self)@
                    })
                },
                Polled::Event(Event::Incoming(Incoming::Publish)) => {
                    &&& final(self)@ == (SubscriberView {
                        publishes: (old(self)@.publishes + 1) as usize,
                        gaps: (old(self)@.gaps + 1) as u64,
                        samples: old(self)@.samples.insert(bucket_value(elapsed_spec(old(self)@.last_ms, now_ms))),
                        last_ms: now_ms,
                        finished: old(self)@.publishes + 1 >= old(self)@.required,
                        ..old(self)@
                    })
                    &&& sleep == (if sleeps_after((old(self)@.gaps + 1) as u64, old(self)@.sleep_secs) {
                        Some(old(self)@.sleep_secs)
                    } else {
                        None::<u64>
                    })
                },
                Polled::Event(Event::Outgoing(Outgoing::PubAck)) => {
                    &&& sleep is None
                    &&& final(self)@ == (SubscriberView { pubacks: sat_inc(old(self)@.pubacks), ..old(self)@ })
                },
                _ => sleep is None && final(self)@ == old(self)@,
            },
    {
        if !self.counting {
            match polled {
                Polled::Timeout | Polled::Error => {
                    self.reconnects = 1;
                    self.enter_counting();
                },
                Polled::Event(Event::Incoming(Incoming::Publish)) => {
                    self.publish_count = 1;
                    self.start_ms = now_ms;
                    self.last_ms = now_ms;
                    self.enter_counting();
                },
                Polled::Event(Event::Outgoing(Outgoing::PubAck)) => {
                    self.puback_count = self.puback_count.saturating_add(1);
                },
                _ => {},
            }
            return None;
        }
        match polled {
            Polled::Timeout | Polled::Error => {
                self.reconnects = self.reconnects + 1;
                if self.reconnects >= 2 {
                    self.finished = true;
                }
                None
            },
            Polled::Event(Event::Incoming(Incoming::Publish)) => {
                self.seq = self.seq + 1;
                self.publish_count = self.publish_count + 1;
                self.histogram.record(elapsed(self.last_ms, now_ms));
                self.last_ms = now_ms;
                if self.publish_count >= self.required {
                    self.finished = true;
                }
                if self.seq % 100 == 0 && self.sleep_sub != 0 {
                    Some(self.sleep_sub)
                } else {
                    None
                }
            },
            Polled::Event(Event::Outgoing(Outgoing::PubAck)) => {
                self.puback_count = self.puback_count.saturating_add(1);
                None
            },
            _ => None,
        }
    }

    /// The session's statistics: throughput is the publishes over the time
    /// from the first to the last one.
    pub fn finish(self) -> (r: SubStats)
        requires
            self.wf(),
        ensures
            r.publish_count == self@.publishes,
            r.puback_count == self@.pubacks,
            r.reconnects == self@.reconnects,
            r.throughput == rate_per_sec_spec(
                self@.publishes as u64,
                elapsed_spec(self@.start_ms, self@.last_ms),
            ),
            r.histogram.wf(),
            r.histogram@ == self@.samples,
    {
        SubStats {
            publish_count: self.publish_count as u64,
            puback_count: self.puback_count,
            reconnects: self.reconnects,
            throughput: rate_per_sec(self.publish_count as u64, elapsed(self.start_ms, self.last_ms)),
            histogram: self.histogram,
        }
    }
}


// ---------------------------------------------------------------------------
// Duplex connection

/// Acknowledgments and incoming publishes a duplex connection waits for. A
/// regular connection publishes `count` messages on each of `publishers`
/// topics and receives them on each of `subscribers` subscriptions; a sink
/// publishes nothing and receives every connection's messages.
pub open spec fn duplex_expectations_spec(
    count: usize,
    publishers: usize,
    subscribers: usize,
    sink: bool,
    connections: usize,
) -> (usize, usize) {
    if sink {
        (0, required_publishes_spec(connections, count, publishers))
    } else {
        (required_publishes_spec(count, publishers, 1), required_publishes_spec(count, publishers, subscribers))
    }
}

pub fn duplex_expectations(count: usize, publishers: usize, subscribers: usize, sink: bool, connections: usize) -> (r: (
    usize,
    usize,
))
    ensures
        r == duplex_expectations_spec(count, publishers, subscribers, sink, connections),
{
    if sink {
        (0, required_publishes(connections, count, publishers))
    } else {
        (required_publishes(count, publishers, 1), required_publishes(count, publishers, subscribers))
    }
}

/// The state of a duplex connection, as plain values.
pub struct ConnectionView {
    pub acks_expected: usize,
    pub incoming_expected: usize,
    /// An idle connection only keeps alive: events never end it.
    pub idle: bool,
    pub acks: usize,
    pub incoming: usize,
    pub reconnects: u64,
    pub start_ms: u64,
    /// Time to the last expected acknowledgment, once it has arrived.
    pub outgoing_elapsed: Option<u64>,
    /// Time to the last expected incoming publish, once it has arrived.
    pub incoming_elapsed: Option<u64>,
    /// Dispatch times by in-flight slot.
    pub dispatched: Seq<Option<u64>>,
    /// Publish-to-acknowledgment latencies recorded so far.
    pub samples: Multiset<u64>,
    /// Acknowledgments that found no dispatch time.
    pub unsolicited: usize,
    pub finished: bool,
}

/// A connection that publishes and subscribes at once and measures both
/// directions: it ends when both have reached their expected counts, at its
/// first connection error, or on an unexpected incoming packet. Like a
/// publisher it times each publish from dispatch to acknowledgment, keeping
/// dispatch times per in-flight identifier and clearing them on
/// acknowledgment.
pub struct Connection {
    acks_expected: usize,
    incoming_expected: usize,
    idle: bool,
    acks: usize,
    incoming: usize,
    reconnects: u64,
    start_ms: u64,
    outgoing_elapsed: Option<u64>,
    incoming_elapsed: Option<u64>,
    latencies: Vec<Option<u64>>,
    histogram: LatencyHistogram,
    unsolicited: usize,
    finished: bool,
}

/// `x + 1`, saturating at `usize::MAX`.
pub open spec fn inc_usize(x: usize) -> usize {
    if x == usize::MAX { x } else { (x + 1) as usize }
}

/// The time to a direction's completion: kept once set, set when the count
/// first reaches its target.
pub open spec fn completion(prev: Option<u64>, count: usize, expected: usize, start_ms: u64, now_ms: u64) -> Option<u64> {
    if prev is Some {
        prev
    } else if count >= expected {
        Some(elapsed_spec(start_ms, now_ms))
    } else {
        None
    }
}

/// Statistics of a duplex connection.
pub struct ConnectionStats {
    pub acks: u64,
    pub incoming: u64,
    pub outgoing_throughput: u128,
    pub incoming_throughput: u128,
    pub reconnects: u64,
    /// Publish-to-acknowledgment latencies in milliseconds.
    pub histogram: LatencyHistogram,
}

impl Connection {
    pub closed spec fn view(&self) -> ConnectionView {
        ConnectionView {
            acks_expected: self.acks_expected,
            incoming_expected: self.incoming_expected,
            idle: self.idle,
            acks: self.acks,
            incoming: self.incoming,
            reconnects: self.reconnects,
            start_ms: self.start_ms,
            outgoing_elapsed: self.outgoing_elapsed,
            incoming_elapsed: self.incoming_elapsed,
            dispatched: self.latencies@,
            samples: self.histogram@,
            unsolicited: self.unsolicited,
            finished: self.finished,
        }
    }

    pub closed spec fn wf(&self) -> bool {
        &&& self.latencies@.len() >= 1
        &&& self.histogram.wf()
        &&& self.histogram@.len() + self.unsolicited == self.acks
    }

    /// The in-flight slot of identifier `pkid`.
    pub open spec fn slot_of(v: ConnectionView, pkid: u16) -> int {
        pkid as int % v.dispatched.len() as int
    }

    /// A connection released by its barrier at `start_ms`, with room for
    /// `max_inflight` identifiers.
    pub fn new(acks_expected: usize, incoming_expected: usize, idle: bool, max_inflight: u16, start_ms: u64) -> (r: Self)
        ensures
            r.wf(),
            r@ == (ConnectionView {
                acks_expected,
                incoming_expected,
                idle,
                acks: 0,
                incoming: 0,
                reconnects: 0,
                start_ms,
                outgoing_elapsed: None,
                incoming_elapsed: None,
                dispatched: Seq::new(max_inflight as nat + 1, |i: int| None::<u64>),
                samples: Multiset::empty(),
                unsolicited: 0,
                finished: false,
            }),
    {
        let slots: usize = max_inflight as usize + 1;
        let mut latencies: Vec<Option<u64>> = Vec::new();
        let mut i: usize = 0;
        while i < slots
            invariant
                i <= slots,
                slots == max_inflight as nat + 1,
                latencies@ == Seq::new(i as nat, |j: int| None::<u64>),
            decreases slots - i,
        {
            latencies.push(None);
            i = i + 1;
            proof {
                assert(latencies@ =~= Seq::new(i as nat, |j: int| None::<u64>));
            }
        }
        Connection {
            acks_expected,
            incoming_expected,
            idle,
            acks: 0,
            incoming: 0,
            reconnects: 0,
            start_ms,
            outgoing_elapsed: None,
            incoming_elapsed: None,
            latencies,
            histogram: LatencyHistogram::new(),
            unsolicited: 0,
            finished: false,
        }
    }

    pub fn is_finished(&self) -> (r: bool)
        ensures
            r == self@.finished,
    {
        self.finished
    }

    /// Handles one poll outcome at `now_ms`. Returns whether one more message
    /// was confirmed (for the live progress count); `is_finished` tells when
    /// to stop.
    pub fn step(&mut self, polled: Polled, now_ms: u64) -> (progress: bool)
        requires
            old(self).wf(),
            !old(self)@.finished,
        ensures
            final(self).wf(),
            progress == (!old(self)@.idle && polled matches Polled::Event(Event::Incoming(Incoming::PubAck { .. }))),
            match polled {
                Polled::Timeout | Polled::Error => final(self)@ == (ConnectionView {
                    reconnects: sat_inc(old(self)@.reconnects),
                    finished: true,
                    ..old(self)@
                }),
                Polled::Event(event) => if old(self)@.idle {
                    final(self)@ == old(self)@
                } else {
                    match event {
                        Event::Incoming(Incoming::PubAck { .. }) | Event::Incoming(Incoming::Publish)
                        | Event::Incoming(Incoming::PingResp) | Event::Outgoing(_) => {
                            let counted = event is Incoming && event->Incoming_0 is PubAck && old(self)@.acks < usize::MAX;
                            let acks = if counted { (old(self)@.acks + 1) as usize } else { old(self)@.acks };
                            let incoming = if event == Event::Incoming(Incoming::Publish) {
                                inc_usize(old(self)@.incoming)
                            } else {
                                old(self)@.incoming
                            };
                            let out_done = completion(old(self)@.outgoing_elapsed, acks, old(self)@.acks_expected, old(self)@.start_ms, now_ms);
                            let in_done = completion(old(self)@.incoming_elapsed, incoming, old(self)@.incoming_expected, old(self)@.start_ms, now_ms);
                            let (dispatched, samples, unsolicited) = match event {
                                Event::Incoming(Incoming::PubAck { pkid }) if counted => {
                                    let slot = Self::slot_of(old(self)@, pkid);
                                    match old(self)@.dispatched[slot] {
                                        Some(sent) => (
                                            old(self)@.dispatched.update(slot, None),
                                            old(self)@.samples.insert(bucket_value(elapsed_spec(sent, now_ms))),
                                            old(self)@.unsolicited,
                                        ),
                                        None => (old(self)@.dispatched, old(self)@.samples, (old(self)@.unsolicited + 1) as usize),
                                    }
                                },
                                Event::Outgoing(Outgoing::Publish { pkid }) => (
                                    old(self)@.dispatched.update(Self::slot_of(old(self)@, pkid), Some(now_ms)),
                                    old(self)@.samples,
                                    old(self)@.unsolicited,
                                ),
                                _ => (old(self)@.dispatched, old(self)@.samples, old(self)@.unsolicited),
                            };
                            final(self)@ == (ConnectionView {
                                acks,
                                incoming,
                                outgoing_elapsed: out_done,
                                incoming_elapsed: in_done,
                                dispatched,
                                samples,
                                unsolicited,
                                finished: out_done is Some && in_done is Some,
                                ..old(self)@
                            })
                        },
                        _ => final(self)@ == (ConnectionView { finished: true, ..old(self)@ }),
                    }
                },
            },
    {
        let mut progress = false;
        match polled {
            Polled::Timeout | Polled::Error => {
                self.reconnects = self.reconnects.saturating_add(1);
                self.finished = true;
                return false;
            },
            Polled::Event(event) => {
                if self.idle {
                    return false;
                }
                match event {
                    Event::Incoming(Incoming::PubAck { pkid }) => {
                        if self.acks < usize::MAX {
                            self.acks = self.acks + 1;
                            let slot = pkid as usize % self.latencies.len();
                            match self.latencies[slot] {
                                Some(sent) => {
                                    self.histogram.record(elapsed(sent, now_ms));
                                    self.latencies.set(slot, None);
                                },
                                None => {
                                    self.unsolicited = self.unsolicited + 1;
                                },
                            }
                        }
                        progress = true;
                    },
                    Event::Incoming(Incoming::Publish) => {
                        self.incoming = self.incoming.saturating_add(1);
                    },
                    Event::Outgoing(Outgoing::Publish { pkid }) => {
                        let slot = pkid as usize % self.latencies.len();
                        self.latencies.set(slot, Some(now_ms));
                    },
                    Event::Incoming(Incoming::PingResp) | Event::Outgoing(_) => {},
                    _ => {
                        self.finished = true;
                        return false;
                    },
                }
            },
        }
        if self.outgoing_elapsed.is_none() && self.acks >= self.acks_expected {
            self.outgoing_elapsed = Some(elapsed(self.start_ms, now_ms));
        }
        if self.incoming_elapsed.is_none() && self.incoming >= self.incoming_expected {
            self.incoming_elapsed = Some(elapsed(self.start_ms, now_ms));
        }
        if self.outgoing_elapsed.is_some() && self.incoming_elapsed.is_some() {
            self.finished = true;
        }
        progress
    }

    /// The connection's statistics: each direction's rate over the time to
    /// its completion (0 if it never completed), and the latency histogram.
    pub fn finish(self) -> (r: ConnectionStats)
        requires
            self.wf(),
        ensures
            r.acks == self@.acks,
            r.incoming == self@.incoming,
            r.reconnects == self@.reconnects,
            r.outgoing_throughput == rate_per_sec_spec(self@.acks as u64, match self@.outgoing_elapsed { Some(t) => t, None => 0 }),
            r.incoming_throughput == rate_per_sec_spec(self@.incoming as u64, match self@.incoming_elapsed { Some(t) => t, None => 0 }),
            r.histogram.wf(),
            r.histogram@ == self@.samples,
    {
        let out_ms = match self.outgoing_elapsed { Some(t) => t, None => 0 };
        let in_ms = match self.incoming_elapsed { Some(t) => t, None => 0 };
        ConnectionStats {
            acks: self.acks as u64,
            incoming: self.incoming as u64,
            outgoing_throughput: rate_per_sec(self.acks as u64, out_ms),
            incoming_throughput: rate_per_sec(self.incoming as u64, in_ms),
            reconnects: self.reconnects,
            histogram: self.histogram,
        }
    }
}

/// What every duplex connection keeps true: its dispatch table is never empty
/// and each counted acknowledgment recorded at most one latency sample
/// (exactly one unless it was unsolicited).
pub proof fn connection_invariants(c: Connection)
    requires
        c.wf(),
    ensures
        c@.dispatched.len() >= 1,
        c@.samples.len() + c@.unsolicited == c@.acks,
{
}

} // verus!
