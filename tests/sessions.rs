use mqttwrk::cli::Qos;
use mqttwrk::histogram::LatencyHistogram;
use mqttwrk::round::{
    connection_deadline_secs, cohort_size, round_connections, summarize_round, RoundAction, RoundConnection,
    RoundStatus,
};
use mqttwrk::session::{
    closing_publish_qos, duplex_expectations, required_publishes, Connection, Event, Handshake, HandshakeStep, Incoming, Outgoing, Polled,
    Publisher, Subscriber,
};
use mqttwrk::stats::{handle_pubs, handle_subs, rate_per_sec, Aggregator, PubStats, Status};

fn inc(i: Incoming) -> Polled {
    Polled::Event(Event::Incoming(i))
}

fn out(o: Outgoing) -> Polled {
    Polled::Event(Event::Outgoing(o))
}

#[test]
fn handshake_connect_then_subscriptions() {
    let mut h = Handshake::new(2, false, true);
    assert_eq!(h.step(out(Outgoing::Other)), HandshakeStep::Continue);
    assert_eq!(h.step(inc(Incoming::ConnAck)), HandshakeStep::Subscribe);
    assert_eq!(h.step(inc(Incoming::SubAck)), HandshakeStep::Continue);
    assert_eq!(h.step(inc(Incoming::SubAck)), HandshakeStep::Ready);
}

#[test]
fn handshake_rejects_unexpected_packets() {
    let mut h = Handshake::new(0, true, true);
    assert_eq!(h.step(inc(Incoming::SubAck)), HandshakeStep::WrongPacket);
    assert_eq!(h.step(Polled::Timeout), HandshakeStep::Retry);
    assert_eq!(h.step(inc(Incoming::ConnAck)), HandshakeStep::Ready);
    // an ordered handshake refuses a repeated connection acknowledgment
    let mut h = Handshake::new(1, false, true);
    assert_eq!(h.step(inc(Incoming::ConnAck)), HandshakeStep::Subscribe);
    assert_eq!(h.step(inc(Incoming::ConnAck)), HandshakeStep::WrongPacket);
    let mut h = Handshake::new(1, false, true);
    assert_eq!(h.step(Polled::Timeout), HandshakeStep::Failed);
    assert_eq!(h.step(inc(Incoming::PingResp)), HandshakeStep::WrongPacket);
    assert_eq!(h.step(Polled::Error), HandshakeStep::Failed);
}

#[test]
fn unordered_handshake_counts_every_subscription_ack() {
    let mut h = Handshake::new(2, false, false);
    // a subscription acknowledged before the connection still counts
    assert_eq!(h.step(inc(Incoming::SubAck)), HandshakeStep::Continue);
    assert_eq!(h.step(inc(Incoming::ConnAck)), HandshakeStep::Subscribe);
    // a repeated connection acknowledgment is ignored
    assert_eq!(h.step(inc(Incoming::ConnAck)), HandshakeStep::Continue);
    assert_eq!(h.step(inc(Incoming::SubAck)), HandshakeStep::Ready);
    let mut h = Handshake::new(1, false, false);
    assert_eq!(h.step(inc(Incoming::SubAck)), HandshakeStep::Continue);
    assert_eq!(h.step(inc(Incoming::ConnAck)), HandshakeStep::Ready);
    let mut h = Handshake::new(1, false, false);
    assert_eq!(h.step(inc(Incoming::Publish)), HandshakeStep::WrongPacket);
}

#[test]
fn publisher_bench_scenario_qos1_hundred_messages() {
    let mut p = Publisher::new(100, 1, 10, 1);
    assert!(p.start(1000));
    let mut now = 1000;
    let mut keep = true;
    let mut i: u16 = 0;
    while keep {
        let pkid = i % 10 + 1;
        now += 1;
        assert!(p.step(out(Outgoing::Publish { pkid }), now));
        now += 2;
        keep = p.step(inc(Incoming::PubAck { pkid }), now);
        i += 1;
    }
    assert_eq!(i, 100);
    let stats = p.finish();
    assert_eq!(stats.outgoing_publish, 100);
    assert_eq!(stats.reconnects, 0);
    assert_eq!(stats.histogram.len(), 100);
    // 100 messages over 300 ms
    assert_eq!(stats.throughput, 333);
}

#[test]
fn publisher_skips_unsolicited_and_duplicate_acks() {
    let mut p = Publisher::new(3, 1, 4, 1);
    assert!(p.start(0));
    assert!(p.step(inc(Incoming::PubAck { pkid: 2 }), 1));
    assert!(p.step(out(Outgoing::Publish { pkid: 1 }), 2));
    assert!(p.step(inc(Incoming::PubAck { pkid: 1 }), 7));
    // a duplicate acknowledgment records nothing more
    assert!(!p.step(inc(Incoming::PubAck { pkid: 1 }), 9));
    let stats = p.finish();
    assert_eq!(stats.histogram.len(), 1);
    assert_eq!(stats.histogram.inner.max(), 5);
    assert_eq!(stats.outgoing_publish, 3);
}

#[test]
fn publisher_stops_on_first_connection_error_or_unexpected_packet() {
    let mut p = Publisher::new(10, 1, 4, 1);
    p.start(0);
    assert!(!p.step(Polled::Error, 1));
    assert_eq!(p.finish().reconnects, 1);
    let mut p = Publisher::new(10, 1, 4, 2);
    p.start(0);
    assert!(p.step(Polled::Timeout, 1));
    assert!(p.step(inc(Incoming::PingResp), 2));
    assert!(!p.step(inc(Incoming::Publish), 3));
}

#[test]
fn publisher_qos0_waits_for_one_ack_and_reports_count() {
    let mut p = Publisher::new(50, 0, 4, 1);
    assert!(p.start(0));
    assert!(p.step(out(Outgoing::Publish { pkid: 3 }), 10));
    assert!(!p.step(inc(Incoming::PubAck { pkid: 3 }), 20));
    let stats = p.finish();
    assert_eq!(stats.outgoing_publish, 50);
    assert_eq!(stats.throughput, 50 * 1000 / 20);
}

#[test]
fn idle_publisher_spawns_nothing() {
    let mut p = Publisher::new(0, 1, 4, 1);
    assert!(!p.start(0));
    assert!(p.step(inc(Incoming::PingResp), 5));
    assert_eq!(p.finish().outgoing_publish, 0);
}

#[test]
fn closing_publish_only_at_qos0() {
    assert_eq!(closing_publish_qos(Qos::AtMostOnce), Some(Qos::AtLeastOnce));
    assert_eq!(closing_publish_qos(Qos::AtLeastOnce), None);
    assert_eq!(closing_publish_qos(Qos::ExactlyOnce), None);
}

#[test]
fn required_publishes_multiplies_and_saturates() {
    assert_eq!(required_publishes(100, 2, 3), 600);
    assert_eq!(required_publishes(usize::MAX, 2, 1), usize::MAX);
    assert_eq!(required_publishes(usize::MAX, usize::MAX, 0), 0);
}

#[test]
fn subscriber_counts_until_required() {
    let mut s = Subscriber::new(3, 1, 1, 0);
    s.start();
    assert_eq!(s.step(out(Outgoing::PingReq), 1), None);
    assert_eq!(s.step(inc(Incoming::Publish), 100), None);
    assert_eq!(s.step(out(Outgoing::PubAck), 101), None);
    assert_eq!(s.step(inc(Incoming::Publish), 110), None);
    assert_eq!(s.step(inc(Incoming::Publish), 130), None);
    let stats = s.finish();
    assert_eq!(stats.publish_count, 3);
    assert_eq!(stats.puback_count, 1);
    assert_eq!(stats.histogram.len(), 2);
    assert_eq!(stats.throughput, 3 * 1000 / 30);
}

#[test]
fn subscriber_sleeps_every_hundred_and_tolerates_one_error() {
    let mut s = Subscriber::new(1000, 1, 1, 2);
    s.start();
    assert_eq!(s.step(Polled::Error, 0), None);
    assert_eq!(s.step(inc(Incoming::Publish), 1), None);
    let mut sleeps = 0;
    for t in 0..100u64 {
        if let Some(secs) = s.step(inc(Incoming::Publish), 2 + t) {
            assert_eq!(secs, 2);
            sleeps += 1;
        }
    }
    assert_eq!(sleeps, 1);
    assert_eq!(s.step(Polled::Timeout, 200), None);
    let stats = s.finish();
    assert_eq!(stats.reconnects, 2);
    assert_eq!(stats.publish_count, 101);
}

fn histogram_of(values: &[u64]) -> LatencyHistogram {
    let mut h = LatencyHistogram::new();
    for v in values {
        h.record(*v);
    }
    h
}

#[test]
fn handle_pubs_sums_and_merges() {
    let stats = vec![
        PubStats { outgoing_publish: 10, throughput: 5, reconnects: 1, histogram: histogram_of(&[1, 2]) },
        PubStats { outgoing_publish: 20, throughput: 7, reconnects: 0, histogram: histogram_of(&[3]) },
    ];
    let (agg, rate) = handle_pubs(stats, 3000);
    assert_eq!(agg.outgoing_publish, 30);
    assert_eq!(agg.throughput, 12);
    assert_eq!(agg.reconnects, 1);
    assert_eq!(agg.histogram.len(), 3);
    assert_eq!(rate, 10);
    let (empty, rate) = handle_subs(Vec::new(), 0);
    assert_eq!(empty.publish_count, 0);
    assert_eq!(rate, 0);
}

#[test]
fn aggregator_merges_n_histograms_of_k_samples() {
    let n = 4;
    let k = 25;
    let mut a = Aggregator::new(n, 1_000_000);
    let mut done = false;
    for i in 0..n {
        let values: Vec<u64> = (0..k as u64).map(|v| v + i as u64).collect();
        done = a.on_status(Status::Hist(histogram_of(&values)));
    }
    assert!(done);
    assert_eq!(a.merged().len(), (n * k) as u64);
}

#[test]
fn aggregator_stops_on_message_count_first() {
    let mut a = Aggregator::new(10, 5);
    assert!(!a.on_status(Status::Increment(3)));
    assert!(a.on_status(Status::Increment(2)));
}

#[test]
fn histogram_merge_order_does_not_change_quantiles() {
    let mut ab = histogram_of(&[1, 5, 9]);
    ab.merge(&histogram_of(&[100, 200]));
    let mut ba = histogram_of(&[100, 200]);
    ba.merge(&histogram_of(&[1, 5, 9]));
    assert_eq!(ab.len(), ba.len());
    for q in [0.5, 0.9, 0.9999, 0.99999, 1.0] {
        assert_eq!(ab.inner.value_at_quantile(q), ba.inner.value_at_quantile(q));
    }
}

#[test]
fn histogram_counts_values_in_their_buckets() {
    // above 2^15 neighbouring values share a bucket at four significant figures
    let a = histogram_of(&[1, 40000, 50000]);
    let b = histogram_of(&[1, 40001, 50000]);
    assert_eq!(a.len(), 3);
    for q in [0.3, 0.5, 0.9, 1.0] {
        assert_eq!(a.inner.value_at_quantile(q), b.inner.value_at_quantile(q));
    }
    let small = histogram_of(&[32767]);
    assert_eq!(small.inner.max(), 32767);
}

#[test]
fn rate_formula() {
    assert_eq!(rate_per_sec(100, 0), 0);
    assert_eq!(rate_per_sec(100, 250), 400);
}

#[test]
fn round_connection_ping_pong() {
    let mut c = RoundConnection::new(7, 3, None);
    assert_eq!(c.step(inc(Incoming::ConnAck), false, 0), RoundAction::Subscribe);
    assert_eq!(c.step(inc(Incoming::SubAck), false, 1), RoundAction::ArriveAtBarrier);
    assert_eq!(c.release(1_000), 3);
    assert_eq!(c.step(out(Outgoing::Other), false, 1_100), RoundAction::Continue);
    assert_eq!(c.step(inc(Incoming::Publish), false, 1_200), RoundAction::Republish);
    assert_eq!(c.step(inc(Incoming::Publish), false, 1_300), RoundAction::Republish);
    // cancelled: the next publish ends the connection
    assert_eq!(
        c.step(inc(Incoming::Publish), true, 500_999),
        RoundAction::Finish(RoundStatus { id: 7, sent: 5, received: 2, throughput: 4 })
    );
}

#[test]
fn round_connection_budget_and_disconnect() {
    let mut c = RoundConnection::new(1, 2, Some(3));
    c.step(inc(Incoming::ConnAck), false, 0);
    c.step(inc(Incoming::SubAck), false, 0);
    c.release(0);
    assert_eq!(c.step(inc(Incoming::Publish), false, 9), RoundAction::Republish);
    assert_eq!(
        c.step(inc(Incoming::Publish), false, 19),
        RoundAction::Finish(RoundStatus { id: 1, sent: 3, received: 2, throughput: 105_263 })
    );
    let mut d = RoundConnection::new(2, 1, None);
    assert_eq!(d.step(inc(Incoming::Disconnect), false, 0), RoundAction::Failed);
}

#[test]
fn round_connection_ignores_publishes_before_release() {
    let mut c = RoundConnection::new(3, 2, None);
    assert_eq!(c.step(inc(Incoming::Publish), false, 0), RoundAction::Continue);
    assert_eq!(c.step(inc(Incoming::Publish), true, 0), RoundAction::Continue);
    assert_eq!(c.step(inc(Incoming::SubAck), false, 0), RoundAction::Continue);
    assert_eq!(c.step(inc(Incoming::ConnAck), false, 0), RoundAction::Subscribe);
    assert_eq!(c.step(inc(Incoming::ConnAck), false, 0), RoundAction::Continue);
    assert_eq!(c.step(inc(Incoming::Publish), false, 0), RoundAction::Continue);
    assert_eq!(c.step(inc(Incoming::SubAck), false, 0), RoundAction::ArriveAtBarrier);
    assert_eq!(c.release(0), 2);
    assert_eq!(c.step(inc(Incoming::Publish), false, 9), RoundAction::Republish);
}

#[test]
fn round_disconnect_after_cancellation_is_success() {
    let mut c = RoundConnection::new(4, 1, None);
    c.step(inc(Incoming::ConnAck), false, 0);
    c.step(inc(Incoming::SubAck), false, 0);
    c.release(0);
    assert_eq!(c.step(inc(Incoming::Publish), false, 9), RoundAction::Republish);
    assert_eq!(
        c.step(inc(Incoming::Disconnect), true, 99),
        RoundAction::Finish(RoundStatus { id: 4, sent: 2, received: 1, throughput: 10_101 })
    );
}

#[test]
fn round_summary_and_constants() {
    let results = vec![
        RoundStatus { id: 0, sent: 10, received: 8, throughput: 100 },
        RoundStatus { id: 1, sent: 5, received: 5, throughput: 51 },
    ];
    let s = summarize_round(&results, 2);
    assert_eq!(s.sent, 15);
    assert_eq!(s.received, 13);
    assert_eq!(s.missed, 2);
    assert_eq!(s.total, 151);
    assert_eq!(s.per_connection, 75);
    assert_eq!(round_connections(), vec![1, 2, 5, 10, 15, 20, 30, 40, 50, 75, 100, 150, 200]);
    assert_eq!(connection_deadline_secs(10), 20);
    assert_eq!(connection_deadline_secs(u64::MAX), u64::MAX);
    assert_eq!(cohort_size(4), 5);
}

#[test]
fn duplex_connection_waits_for_both_directions() {
    assert_eq!(duplex_expectations(10, 2, 3, false, 5), (20, 60));
    assert_eq!(duplex_expectations(10, 2, 3, true, 5), (0, 100));
    let mut c = Connection::new(2, 1, false, 4, 100);
    assert!(!c.step(out(Outgoing::Publish { pkid: 1 }), 100));
    assert!(c.step(inc(Incoming::PubAck { pkid: 1 }), 110));
    assert!(!c.step(inc(Incoming::Publish), 120));
    assert!(!c.is_finished());
    assert!(c.step(inc(Incoming::PubAck { pkid: 2 }), 150));
    assert!(c.is_finished());
    let stats = c.finish();
    assert_eq!(stats.acks, 2);
    assert_eq!(stats.incoming, 1);
    assert_eq!(stats.outgoing_throughput, 2 * 1000 / 50);
    assert_eq!(stats.incoming_throughput, 1000 / 20);
    // the first acknowledgment matched a dispatch, the second did not
    assert_eq!(stats.histogram.len(), 1);
    assert_eq!(stats.histogram.inner.max(), 10);
}

#[test]
fn duplex_connection_stops_on_error_or_unexpected_packet() {
    let mut c = Connection::new(5, 5, false, 4, 0);
    assert!(!c.step(Polled::Error, 1));
    assert!(c.is_finished());
    assert_eq!(c.finish().reconnects, 1);
    let mut c = Connection::new(5, 5, false, 4, 0);
    c.step(inc(Incoming::SubAck), 1);
    assert!(c.is_finished());
    let mut idle = Connection::new(5, 5, true, 4, 0);
    assert!(!idle.step(inc(Incoming::Disconnect), 1));
    assert!(!idle.is_finished());
}

#[test]
fn reported_publishes_never_exceed_count_times_publishers() {
    let count = 5;
    let mut all = Vec::new();
    for extra_acks in 0..3u16 {
        let mut p = Publisher::new(count, 1, 8, 1);
        p.start(0);
        let mut t = 0;
        // duplicate and spurious acknowledgments on top of the real ones
        for k in 0..(count as u16 + extra_acks) {
            t += 1;
            p.step(out(Outgoing::Publish { pkid: k % 8 + 1 }), t);
            t += 1;
            if !p.step(inc(Incoming::PubAck { pkid: k % 8 + 1 }), t) {
                break;
            }
        }
        all.push(p.finish());
    }
    let (agg, _) = handle_pubs(all, 100);
    assert!(agg.outgoing_publish <= (count * 3) as u64);
    assert_eq!(agg.outgoing_publish, 15);
}

#[test]
fn bench_scenario_subscriber_receives_hundred() {
    let mut s = Subscriber::new(100, 1, 1, 0);
    s.start();
    let mut t = 0;
    while !s.is_finished() {
        t += 3;
        s.step(inc(Incoming::Publish), t);
    }
    let stats = s.finish();
    assert_eq!(stats.publish_count, 100);
    assert_eq!(stats.reconnects, 0);
    assert_eq!(stats.histogram.len(), 99);
}
