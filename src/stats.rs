//! Per-session statistics and their aggregation.
use vstd::prelude::*;
use vstd::multiset::Multiset;
use crate::histogram::LatencyHistogram;

verus! {

/// Messages per second for `messages` over `elapsed_ms` milliseconds; 0 when
/// no time has elapsed.
pub open spec fn rate_per_sec_spec(messages: u64, elapsed_ms: u64) -> u128 {
    if elapsed_ms == 0 { 0 } else { ((messages as int * 1000) / elapsed_ms as int) as u128 }
}

pub fn rate_per_sec(messages: u64, elapsed_ms: u64) -> (r: u128)
    ensures
        r == rate_per_sec_spec(messages, elapsed_ms),
{
    if elapsed_ms == 0 {
        0
    } else {
        proof {
            assert(messages as int * 1000 <= u64::MAX as int * 1000) by (nonlinear_arith);
            assert((messages as int * 1000) / elapsed_ms as int <= messages as int * 1000) by (nonlinear_arith)
                requires elapsed_ms > 0;
        }
        (messages as u128 * 1000) / (elapsed_ms as u128)
    }
}

/// Statistics of one publisher session.
pub struct PubStats {
    /// Publishes confirmed: acknowledgments, or every publish at QoS 0.
    pub outgoing_publish: u64,
    /// Messages per second.
    pub throughput: u128,
    pub reconnects: u64,
    /// Publish-to-acknowledgment latencies in milliseconds.
    pub histogram: LatencyHistogram,
}

/// Statistics of one subscriber session.
pub struct SubStats {
    pub publish_count: u64,
    pub puback_count: u64,
    pub reconnects: u64,
    /// Messages per second.
    pub throughput: u128,
    /// Gaps between consecutive publishes in milliseconds.
    pub histogram: LatencyHistogram,
}

/// What a session reports when it ends.
pub enum Stats {
    PubStats(PubStats),
    SubStats(SubStats),
}


/// The sum of `f` over `s`.
pub open spec fn sum_of<A>(s: Seq<A>, f: spec_fn(A) -> int) -> int
    decreases s.len(),
{
    if s.len() == 0 { 0 } else { sum_of(s.drop_last(), f) + f(s.last()) }
}

/// The union of the sample multisets `f` picks from each element of `s`.
pub open spec fn merged_of<A>(s: Seq<A>, f: spec_fn(A) -> Multiset<u64>) -> Multiset<u64>
    decreases s.len(),
{
    if s.len() == 0 { Multiset::empty() } else { merged_of(s.drop_last(), f).add(f(s.last())) }
}

/// `x`, or `max` if `x` exceeds it.
pub open spec fn capped(x: int, max: int) -> int {
    if x <= max { x } else { max }
}

proof fn lemma_prefix_step<A>(s: Seq<A>, i: int, f: spec_fn(A) -> int, g: spec_fn(A) -> Multiset<u64>)
    requires
        0 <= i < s.len(),
    ensures
        sum_of(s.subrange(0, i + 1), f) == sum_of(s.subrange(0, i), f) + f(s[i]),
        merged_of(s.subrange(0, i + 1), g) == merged_of(s.subrange(0, i), g).add(g(s[i])),
{
    assert(s.subrange(0, i + 1).drop_last() =~= s.subrange(0, i));
}

proof fn lemma_sum_nonneg<A>(s: Seq<A>, f: spec_fn(A) -> int)
    requires
        forall|i: int| 0 <= i < s.len() ==> f(#[trigger] s[i]) >= 0,
    ensures
        sum_of(s, f) >= 0,
    decreases s.len(),
{
    if s.len() > 0 {
        assert(forall|i: int| 0 <= i < s.drop_last().len() ==> s.drop_last()[i] == s[i]);
        lemma_sum_nonneg(s.drop_last(), f);
    }
}

pub open spec fn pub_outgoing() -> spec_fn(PubStats) -> int { |s: PubStats| s.outgoing_publish as int }
pub open spec fn pub_throughput() -> spec_fn(PubStats) -> int { |s: PubStats| s.throughput as int }
pub open spec fn pub_reconnects() -> spec_fn(PubStats) -> int { |s: PubStats| s.reconnects as int }
pub open spec fn pub_samples() -> spec_fn(PubStats) -> Multiset<u64> { |s: PubStats| s.histogram@ }
pub open spec fn sub_publishes() -> spec_fn(SubStats) -> int { |s: SubStats| s.publish_count as int }
pub open spec fn sub_pubacks() -> spec_fn(SubStats) -> int { |s: SubStats| s.puback_count as int }
pub open spec fn sub_throughput() -> spec_fn(SubStats) -> int { |s: SubStats| s.throughput as int }
pub open spec fn sub_reconnects() -> spec_fn(SubStats) -> int { |s: SubStats| s.reconnects as int }
pub open spec fn sub_samples() -> spec_fn(SubStats) -> Multiset<u64> { |s: SubStats| s.histogram@ }

/// Sums the publisher statistics (each count saturating at its type's
/// maximum) and merges their histograms. Also returns the aggregate rate:
/// confirmed publishes over `elapsed_ms`.
pub fn handle_pubs(stats: Vec<PubStats>, elapsed_ms: u64) -> (r: (PubStats, u128))
    requires
        forall|i: int| 0 <= i < stats@.len() ==> (#[trigger] stats@[i]).histogram.wf(),
    ensures
        r.0.outgoing_publish == capped(sum_of(stats@, pub_outgoing()), u64::MAX as int),
        r.0.throughput == capped(sum_of(stats@, pub_throughput()), u128::MAX as int),
        r.0.reconnects == capped(sum_of(stats@, pub_reconnects()), u64::MAX as int),
        r.0.histogram.wf(),
        r.0.histogram@ == merged_of(stats@, pub_samples()),
        r.1 == rate_per_sec_spec(r.0.outgoing_publish, elapsed_ms),
{
    let mut outgoing: u64 = 0;
    let mut throughput: u128 = 0;
    let mut reconnects: u64 = 0;
    let mut histogram = LatencyHistogram::new();
    let mut i: usize = 0;
    while i < stats.len()
        invariant
            i <= stats@.len(),
            forall|j: int| 0 <= j < stats@.len() ==> (#[trigger] stats@[j]).histogram.wf(),
            histogram.wf(),
            outgoing == capped(sum_of(stats@.subrange(0, i as int), pub_outgoing()), u64::MAX as int),
            throughput == capped(sum_of(stats@.subrange(0, i as int), pub_throughput()), u128::MAX as int),
            reconnects == capped(sum_of(stats@.subrange(0, i as int), pub_reconnects()), u64::MAX as int),
            histogram@ == merged_of(stats@.subrange(0, i as int), pub_samples()),
        decreases stats@.len() - i,
    {
        let s = &stats[i];
        proof {
            lemma_prefix_step(stats@, i as int, pub_outgoing(), pub_samples());
            lemma_prefix_step(stats@, i as int, pub_throughput(), pub_samples());
            lemma_prefix_step(stats@, i as int, pub_reconnects(), pub_samples());
            lemma_sum_nonneg(stats@.subrange(0, i as int), pub_outgoing());
            lemma_sum_nonneg(stats@.subrange(0, i as int), pub_throughput());
            lemma_sum_nonneg(stats@.subrange(0, i as int), pub_reconnects());
        }
        outgoing = outgoing.saturating_add(s.outgoing_publish);
        throughput = throughput.saturating_add(s.throughput);
        reconnects = reconnects.saturating_add(s.reconnects);
        histogram.merge(&s.histogram);
        i = i + 1;
    }
    proof {
        assert(stats@.subrange(0, stats@.len() as int) =~= stats@);
    }
    let rate = rate_per_sec(outgoing, elapsed_ms);
    (PubStats { outgoing_publish: outgoing, throughput, reconnects, histogram }, rate)
}

/// Sums the subscriber statistics (each count saturating at its type's
/// maximum) and merges their histograms. Also returns the aggregate rate:
/// publishes received over `elapsed_ms`.
pub fn handle_subs(stats: Vec<SubStats>, elapsed_ms: u64) -> (r: (SubStats, u128))
    requires
        forall|i: int| 0 <= i < stats@.len() ==> (#[trigger] stats@[i]).histogram.wf(),
    ensures
        r.0.publish_count == capped(sum_of(stats@, sub_publishes()), u64::MAX as int),
        r.0.puback_count == capped(sum_of(stats@, sub_pubacks()), u64::MAX as int),
        r.0.throughput == capped(sum_of(stats@, sub_throughput()), u128::MAX as int),
        r.0.reconnects == capped(sum_of(stats@, sub_reconnects()), u64::MAX as int),
        r.0.histogram.wf(),
        r.0.histogram@ == merged_of(stats@, sub_samples()),
        r.1 == rate_per_sec_spec(r.0.publish_count, elapsed_ms),
{
    let mut publishes: u64 = 0;
    let mut pubacks: u64 = 0;
    let mut throughput: u128 = 0;
    let mut reconnects: u64 = 0;
    let mut histogram = LatencyHistogram::new();
    let mut i: usize = 0;
    while i < stats.len()
        invariant
            i <= stats@.len(),
            forall|j: int| 0 <= j < stats@.len() ==> (#[trigger] stats@[j]).histogram.wf(),
            histogram.wf(),
            publishes == capped(sum_of(stats@.subrange(0, i as int), sub_publishes()), u64::MAX as int),
            pubacks == capped(sum_of(stats@.subrange(0, i as int), sub_pubacks()), u64::MAX as int),
            throughput == capped(sum_of(stats@.subrange(0, i as int), sub_throughput()), u128::MAX as int),
            reconnects == capped(sum_of(stats@.subrange(0, i as int), sub_reconnects()), u64::MAX as int),
            histogram@ == merged_of(stats@.subrange(0, i as int), sub_samples()),
        decreases stats@.len() - i,
    {
        let s = &stats[i];
        proof {
            lemma_prefix_step(stats@, i as int, sub_publishes(), sub_samples());
            lemma_prefix_step(stats@, i as int, sub_pubacks(), sub_samples());
            lemma_prefix_step(stats@, i as int, sub_throughput(), sub_samples());
            lemma_prefix_step(stats@, i as int, sub_reconnects(), sub_samples());
            lemma_sum_nonneg(stats@.subrange(0, i as int), sub_publishes());
            lemma_sum_nonneg(stats@.subrange(0, i as int), sub_pubacks());
            lemma_sum_nonneg(stats@.subrange(0, i as int), sub_throughput());
            lemma_sum_nonneg(stats@.subrange(0, i as int), sub_reconnects());
        }
        publishes = publishes.saturating_add(s.publish_count);
        pubacks = pubacks.saturating_add(s.puback_count);
        throughput = throughput.saturating_add(s.throughput);
        reconnects = reconnects.saturating_add(s.reconnects);
        histogram.merge(&s.histogram);
        i = i + 1;
    }
    proof {
        assert(stats@.subrange(0, stats@.len() as int) =~= stats@);
    }
    let rate = rate_per_sec(publishes, elapsed_ms);
    (SubStats { publish_count: publishes, puback_count: pubacks, reconnects, throughput, histogram }, rate)
}

/// Conservation of counts: when every publisher reports at most the `count`
/// messages it was configured with, the publishes reported to the aggregate
/// total at most `count` times the number of publishers.
pub proof fn conservation_of_counts(stats: Seq<PubStats>, count: nat)
    requires
        forall|i: int| 0 <= i < stats.len() ==> (#[trigger] stats[i]).outgoing_publish <= count,
    ensures
        sum_of(stats, pub_outgoing()) <= count * stats.len(),
    decreases stats.len(),
{
    if stats.len() > 0 {
        let init = stats.drop_last();
        assert(forall|i: int| 0 <= i < init.len() ==> init[i] == stats[i]);
        conservation_of_counts(init, count);
        assert(stats.last() == stats[stats.len() - 1]);
        assert(count * init.len() + count == count * stats.len()) by (nonlinear_arith)
            requires init.len() + 1 == stats.len();
    }
}


/// What sessions send to the aggregator.
pub enum Status {
    /// Messages newly confirmed, for live progress.
    Increment(u64),
    /// A session's completed latency histogram.
    Hist(LatencyHistogram),
}

/// The union of a sequence of sample multisets.
pub open spec fn merge_all(hs: Seq<Multiset<u64>>) -> Multiset<u64>
    decreases hs.len(),
{
    if hs.len() == 0 { Multiset::empty() } else { merge_all(hs.drop_last()).add(hs.last()) }
}

/// The aggregator's state, as plain values.
pub struct AggregatorView {
    pub expected_histograms: usize,
    pub expected_messages: u64,
    /// Messages confirmed so far (saturating at `u64::MAX`).
    pub messages: u64,
    /// The histograms received, in arrival order.
    pub received: Seq<Multiset<u64>>,
    pub merged: Multiset<u64>,
    pub done: bool,
}

/// Merges what sessions report until either every expected histogram has
/// arrived or the expected number of messages has been confirmed, whichever
/// comes first.
pub struct Aggregator {
    expected_histograms: usize,
    expected_messages: u64,
    histograms: usize,
    messages: u64,
    merged: LatencyHistogram,
    received: Ghost<Seq<Multiset<u64>>>,
    done: bool,
}

impl Aggregator {
    pub closed spec fn view(&self) -> AggregatorView {
        AggregatorView {
            expected_histograms: self.expected_histograms,
            expected_messages: self.expected_messages,
            messages: self.messages,
            received: self.received@,
            merged: self.merged@,
            done: self.done,
        }
    }

    pub closed spec fn wf(&self) -> bool {
        &&& self.merged.wf()
        &&& self.histograms == self.received@.len()
        &&& self.merged@ == merge_all(self.received@)
        &&& self.done == (self.histograms >= self.expected_histograms || self.messages >= self.expected_messages)
    }

    pub fn new(expected_histograms: usize, expected_messages: u64) -> (r: Self)
        ensures
            r.wf(),
            r@.expected_histograms == expected_histograms,
            r@.expected_messages == expected_messages,
            r@.messages == 0,
            r@.received == Seq::<Multiset<u64>>::empty(),
            r@.done == (expected_histograms == 0 || expected_messages == 0),
    {
        Aggregator {
            expected_histograms,
            expected_messages,
            histograms: 0,
            messages: 0,
            merged: LatencyHistogram::new(),
            received: Ghost(Seq::empty()),
            done: expected_histograms == 0 || expected_messages == 0,
        }
    }

    pub fn is_done(&self) -> (r: bool)
        ensures
            r == self@.done,
    {
        self.done
    }

    /// Takes one status; returns whether aggregation is complete.
    pub fn on_status(&mut self, status: Status) -> (done: bool)
        requires
            old(self).wf(),
            !old(self)@.done,
            status matches Status::Hist(h) ==> h.wf(),
        ensures
            final(self).wf(),
            done == final(self)@.done,
            final(self)@.expected_histograms == old(self)@.expected_histograms,
            final(self)@.expected_messages == old(self)@.expected_messages,
            final(self)@.merged == merge_all(final(self)@.received),
            final(self)@.done == (final(self)@.received.len() >= old(self)@.expected_histograms
                || final(self)@.messages >= old(self)@.expected_messages),
            match status {
                Status::Increment(n) => {
                    &&& final(self)@.messages == capped(old(self)@.messages + n, u64::MAX as int)
                    &&& final(self)@.received == old(self)@.received
                },
                Status::Hist(h) => {
                    &&& final(self)@.messages == old(self)@.messages
                    &&& final(self)@.received == old(self)@.received.push(h@)
                },
            },
    {
        match status {
            Status::Increment(n) => {
                self.messages = self.messages.saturating_add(n);
            },
            Status::Hist(h) => {
                self.merged.merge(&h);
                self.histograms = self.histograms + 1;
                proof {
                    let pushed = self.received@.push(h@);
                    assert(pushed.drop_last() =~= self.received@);
                    self.received = Ghost(pushed);
                }
            },
        }
        self.done = self.histograms >= self.expected_histograms || self.messages >= self.expected_messages;
        self.done
    }

    /// The merged histogram.
    pub fn merged(&self) -> (r: &LatencyHistogram)
        requires
            self.wf(),
        ensures
            r.wf(),
            r@ == self@.merged,
    {
        &self.merged
    }
}

/// No duplicate recording in aggregation: merging histograms of `k` samples
/// each yields `k` samples per histogram merged.
pub proof fn merged_sample_count(hs: Seq<Multiset<u64>>, k: nat)
    requires
        forall|i: int| 0 <= i < hs.len() ==> (#[trigger] hs[i]).len() == k,
    ensures
        merge_all(hs).len() == hs.len() * k,
    decreases hs.len(),
{
    if hs.len() > 0 {
        let init = hs.drop_last();
        assert(forall|i: int| 0 <= i < init.len() ==> init[i] == hs[i]);
        merged_sample_count(init, k);
        assert(hs.last() == hs[hs.len() - 1]);
        assert(init.len() * k + k == hs.len() * k) by (nonlinear_arith)
            requires init.len() + 1 == hs.len();
    }
}


proof fn lemma_remove_from_totals<A>(s: Seq<A>, j: int, f: spec_fn(A) -> int, g: spec_fn(A) -> Multiset<u64>)
    requires
        0 <= j < s.len(),
    ensures
        sum_of(s, f) == sum_of(s.remove(j), f) + f(s[j]),
        merged_of(s, g) == merged_of(s.remove(j), g).add(g(s[j])),
    decreases s.len(),
{
    if j == s.len() - 1 {
        assert(s.remove(j) =~= s.drop_last());
    } else {
        let init = s.drop_last();
        lemma_remove_from_totals(init, j, f, g);
        assert(init.remove(j) =~= s.remove(j).drop_last());
        assert(s.remove(j).last() == s.last());
        assert(init[j] == s[j]);
        let m = merged_of(init.remove(j), g);
        assert(m.add(g(s[j])).add(g(s.last())) =~= m.add(g(s.last())).add(g(s[j])));
    }
}

/// Aggregation does not depend on arrival order: two sequences of reports
/// that hold the same reports, in any order, have the same totals and the
/// same merged samples.
pub proof fn totals_independent_of_order<A>(
    s1: Seq<A>,
    s2: Seq<A>,
    f: spec_fn(A) -> int,
    g: spec_fn(A) -> Multiset<u64>,
)
    requires
        s1.to_multiset() == s2.to_multiset(),
    ensures
        sum_of(s1, f) == sum_of(s2, f),
        merged_of(s1, g) == merged_of(s2, g),
    decreases s1.len(),
{
    s1.to_multiset_ensures();
    s2.to_multiset_ensures();
    if s1.len() == 0 {
        assert(s2.len() == 0);
    } else {
        let init = s1.drop_last();
        let x = s1.last();
        assert(init.push(x) =~= s1);
        init.to_multiset_ensures();
        assert(s2.to_multiset().count(x) > 0);
        assert(s2.contains(x));
        let j = choose|j: int| 0 <= j < s2.len() && s2[j] == x;
        let rest = s2.remove(j);
        assert(rest.to_multiset() == s2.to_multiset().remove(x));
        assert(init.to_multiset().insert(x).remove(x) =~= init.to_multiset());
        totals_independent_of_order(init, rest, f, g);
        lemma_remove_from_totals(s2, j, f, g);
    }
}

/// No contribution is lost or counted twice: reports that each contribute
/// `k` add up to `k` times their number.
pub proof fn equal_contributions<A>(s: Seq<A>, f: spec_fn(A) -> int, k: int)
    requires
        forall|i: int| 0 <= i < s.len() ==> f(#[trigger] s[i]) == k,
    ensures
        sum_of(s, f) == s.len() * k,
    decreases s.len(),
{
    if s.len() > 0 {
        let init = s.drop_last();
        assert(forall|i: int| 0 <= i < init.len() ==> init[i] == s[i]);
        equal_contributions(init, f, k);
        assert(f(s[s.len() - 1]) == k);
        assert(init.len() * k + k == s.len() * k) by (nonlinear_arith)
            requires init.len() + 1 == s.len();
    }
}


/// The merged samples hold as many samples as the reports together, so
/// merging `n` histograms of `k` samples each (see `equal_contributions`)
/// gives `n * k`.
pub proof fn merged_len<A>(s: Seq<A>, g: spec_fn(A) -> Multiset<u64>)
    ensures
        merged_of(s, g).len() == sum_of(s, |a: A| g(a).len() as int),
    decreases s.len(),
{
    if s.len() > 0 {
        merged_len(s.drop_last(), g);
    }
}

} // verus!
