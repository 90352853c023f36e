use std::collections::VecDeque;

use mqttwrk::cli::{
    delay_for_rate, get_publish_qos, get_qos, BenchConfig, CommonConfig, DataEvent, NetworkConfig, Qos,
    RunnerConfig, SimulatorConfig,
};
use mqttwrk::gendata::GenData;
use mqttwrk::text::{
    connection_client_id, connection_publish_topics, connection_subscriptions, data_topic, publisher_topic,
    subscriber_filter, zeroed_payload,
};

fn network() -> NetworkConfig {
    NetworkConfig {
        server: "localhost".to_string(),
        port: 1883,
        keep_alive: 10,
        max_inflight: 100,
        conn_timeout: 10,
    }
}

fn common() -> CommonConfig {
    CommonConfig {
        publishers: 1,
        subscribers: 1,
        publish_qos: 1,
        subscribe_qos: 0,
        count: 100,
        disable_unique_clientid_prefix: true,
        ca_file: None,
        show_pub_stat: false,
        show_sub_stat: false,
        sleep_sub: 0,
    }
}

#[test]
fn inc_sequence_advances_only_the_sequence() {
    let e = DataEvent::Default { sequence: 1, delay_ms: 10, payload_size: 5 };
    let n = e.inc_sequence();
    assert_eq!(n, DataEvent::Default { sequence: 2, delay_ms: 10, payload_size: 5 });
    assert_eq!(n.sequence(), 2);
    assert_eq!(n.duration(), 10);
    let g = DataEvent::Gps { sequence: usize::MAX, delay_ms: 3 };
    assert_eq!(g.inc_sequence(), DataEvent::Gps { sequence: 0, delay_ms: 3 });
}

#[test]
fn kind_names() {
    assert_eq!(DataEvent::Default { sequence: 1, delay_ms: 0, payload_size: 1 }.kind_name(), "default");
    assert_eq!(DataEvent::Imu { sequence: 1, delay_ms: 0 }.kind_name(), "imu");
    assert_eq!(DataEvent::Bms { sequence: 1, delay_ms: 0 }.kind_name(), "bms");
    assert_eq!(DataEvent::Gps { sequence: 1, delay_ms: 0 }.kind_name(), "gps");
}

#[test]
fn rate_to_delay() {
    assert_eq!(delay_for_rate(0), 0);
    assert_eq!(delay_for_rate(100), 10);
    assert_eq!(delay_for_rate(3), 333);
    assert_eq!(delay_for_rate(2000), 0);
}

#[test]
fn qos_levels() {
    assert_eq!(get_qos(0), Qos::AtMostOnce);
    assert_eq!(get_qos(1), Qos::AtLeastOnce);
    assert_eq!(get_qos(2), Qos::AtLeastOnce);
    assert_eq!(get_publish_qos(0), Qos::AtMostOnce);
    assert_eq!(get_publish_qos(2), Qos::ExactlyOnce);
    assert_eq!(get_publish_qos(7), Qos::AtLeastOnce);
}

#[test]
fn bench_config_has_one_default_kind() {
    let b = BenchConfig {
        network_config: network(),
        common_config: common(),
        payload_size: 64,
        rate: 50,
        topic_format: "{unique_id}/hello/{pub_id}/world".to_string(),
    };
    let r = RunnerConfig::from_bench(b);
    assert_eq!(r.count, 100);
    assert_eq!(r.server, "localhost");
    assert_eq!(r.tasks.len(), 1);
    assert_eq!(r.tasks[0], DataEvent::Default { sequence: 1, delay_ms: 20, payload_size: 64 });
}

#[test]
fn simulator_config_has_three_kinds() {
    let s = SimulatorConfig {
        network_config: network(),
        common_config: common(),
        imu_rate: 100,
        bms_rate: 0,
        gps_rate: 10,
        topic_format: "t/{data_type}".to_string(),
    };
    let r = RunnerConfig::from_simulator(s);
    let tasks: Vec<DataEvent> = r.tasks.iter().copied().collect();
    assert_eq!(
        tasks,
        vec![
            DataEvent::Imu { sequence: 1, delay_ms: 10 },
            DataEvent::Bms { sequence: 1, delay_ms: 0 },
            DataEvent::Gps { sequence: 1, delay_ms: 100 },
        ]
    );
}

#[test]
fn undelayed_generator_rotates_and_stops_after_count() {
    let mut kinds = VecDeque::new();
    kinds.push_back(DataEvent::Imu { sequence: 1, delay_ms: 0 });
    kinds.push_back(DataEvent::Gps { sequence: 1, delay_ms: 0 });
    let mut st = GenData::new(5, kinds).into_stream();
    assert!(!st.is_timed());
    let mut out = Vec::new();
    while let Some(e) = st.next() {
        out.push(e);
    }
    assert_eq!(
        out,
        vec![
            DataEvent::Imu { sequence: 1, delay_ms: 0 },
            DataEvent::Gps { sequence: 1, delay_ms: 0 },
            DataEvent::Imu { sequence: 2, delay_ms: 0 },
            DataEvent::Gps { sequence: 2, delay_ms: 0 },
            DataEvent::Imu { sequence: 3, delay_ms: 0 },
        ]
    );
    assert_eq!(st.next(), None);
    assert_eq!(st.remaining_count(), 0);
}

#[test]
fn delayed_generator_stops_after_count_across_kinds() {
    // kind A every 10 ms, kind B every 100 ms, five emissions in all
    let mut kinds = VecDeque::new();
    kinds.push_back(DataEvent::Imu { sequence: 1, delay_ms: 10 });
    kinds.push_back(DataEvent::Gps { sequence: 1, delay_ms: 100 });
    let mut st = GenData::new(5, kinds).into_stream();
    assert!(st.is_timed());
    assert_eq!(st.slot_count(), 2);
    assert_eq!(st.slot_delay(0), 10);
    assert_eq!(st.slot_delay(1), 100);
    // a timer fires slot 0 at 10, 20, ..., slot 1 at 100
    let fires = [0usize, 0, 0, 0, 0, 0, 1];
    let mut out = Vec::new();
    for f in fires {
        if let Some(e) = st.fire(f) {
            out.push(e);
        }
    }
    assert_eq!(out.len(), 5);
    assert_eq!(out[4], DataEvent::Imu { sequence: 5, delay_ms: 10 });
    assert_eq!(st.fire(1), None);
}

#[test]
fn zero_count_generator_is_empty() {
    let mut kinds = VecDeque::new();
    kinds.push_back(DataEvent::Default { sequence: 1, delay_ms: 0, payload_size: 3 });
    let mut st = GenData::new(0, kinds).into_stream();
    assert_eq!(st.next(), None);
}

#[test]
fn zeroed_payload_has_size_nul_chars() {
    assert_eq!(zeroed_payload(3), "\0\0\0");
    assert_eq!(zeroed_payload(0), "");
    assert_eq!(zeroed_payload(100).len(), 100);
}

#[test]
fn topics_substitute_tokens() {
    assert_eq!(
        publisher_topic("{unique_id}/hello/{pub_id}/world", "pub-00001", "-run"),
        "-run/hello/pub-00001/world"
    );
    assert_eq!(
        subscriber_filter("/tenants/{unique_id}/devices/{pub_id}/events/{data_type}", "u"),
        "/tenants/u/devices/+/events/+"
    );
    assert_eq!(data_topic("d/{data_type}/x", "imu"), "d/imu/x");
}

#[test]
fn duplex_client_ids_and_topics() {
    assert_eq!(connection_client_id(1, false), "rumqtt-00001");
    assert_eq!(connection_client_id(123456, false), "rumqtt-123456");
    assert_eq!(connection_client_id(1, true), "rumqtt-sink-1");
    assert_eq!(
        connection_subscriptions(3, None),
        vec!["hello/rumqtt-00000/0/world", "hello/rumqtt-00001/0/world", "hello/rumqtt-00002/0/world"]
    );
    assert_eq!(connection_subscriptions(3, Some("#")), vec!["#"]);
    assert_eq!(
        connection_publish_topics("rumqtt-00007", 2),
        vec!["hello/rumqtt-00007/0/world", "hello/rumqtt-00007/1/world"]
    );
}
