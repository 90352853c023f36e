//! Run configuration: what the command line selects, in plain values.
use vstd::prelude::*;
use std::collections::VecDeque;

verus! {

/// One kind of workload item with its per-kind sequence number and its
/// re-publish delay in milliseconds (0 = unthrottled).
#[derive(Clone, Copy, Debug, PartialEq, Eq, Hash, Structural)]
pub enum DataEvent {
    Default { sequence: usize, delay_ms: u64, payload_size: usize },
    Gps { sequence: usize, delay_ms: u64 },
    Imu { sequence: usize, delay_ms: u64 },
    Bms { sequence: usize, delay_ms: u64 },
}

/// The next sequence number, wrapping at `usize::MAX`.
pub open spec fn next_sequence(s: usize) -> usize {
    if s == usize::MAX { 0 } else { (s + 1) as usize }
}

impl DataEvent {
    pub open spec fn sequence_spec(self) -> usize {
        match self {
            DataEvent::Default { sequence, .. } => sequence,
            DataEvent::Gps { sequence, .. } => sequence,
            DataEvent::Imu { sequence, .. } => sequence,
            DataEvent::Bms { sequence, .. } => sequence,
        }
    }

    pub open spec fn delay_spec(self) -> u64 {
        match self {
            DataEvent::Default { delay_ms, .. } => delay_ms,
            DataEvent::Gps { delay_ms, .. } => delay_ms,
            DataEvent::Imu { delay_ms, .. } => delay_ms,
            DataEvent::Bms { delay_ms, .. } => delay_ms,
        }
    }

    /// The same item with its sequence number replaced.
    pub open spec fn with_sequence(self, s: usize) -> DataEvent {
        match self {
            DataEvent::Default { delay_ms, payload_size, .. } => DataEvent::Default { sequence: s, delay_ms, payload_size },
            DataEvent::Gps { delay_ms, .. } => DataEvent::Gps { sequence: s, delay_ms },
            DataEvent::Imu { delay_ms, .. } => DataEvent::Imu { sequence: s, delay_ms },
            DataEvent::Bms { delay_ms, .. } => DataEvent::Bms { sequence: s, delay_ms },
        }
    }

    pub open spec fn inc_sequence_spec(self) -> DataEvent {
        self.with_sequence(next_sequence(self.sequence_spec()))
    }

    pub open spec fn kind_name_spec(self) -> Seq<char> {
        match self {
            DataEvent::Default { .. } => "default"@,
            DataEvent::Gps { .. } => "gps"@,
            DataEvent::Imu { .. } => "imu"@,
            DataEvent::Bms { .. } => "bms"@,
        }
    }

    /// The same item with the next sequence number.
    pub fn inc_sequence(&self) -> (r: Self)
        ensures
            r == self.inc_sequence_spec(),
    {
        match *self {
            DataEvent::Default { sequence, delay_ms, payload_size } => DataEvent::Default {
                sequence: sequence.wrapping_add(1),
                delay_ms,
                payload_size,
            },
            DataEvent::Gps { sequence, delay_ms } => DataEvent::Gps { sequence: sequence.wrapping_add(1), delay_ms },
            DataEvent::Imu { sequence, delay_ms } => DataEvent::Imu { sequence: sequence.wrapping_add(1), delay_ms },
            DataEvent::Bms { sequence, delay_ms } => DataEvent::Bms { sequence: sequence.wrapping_add(1), delay_ms },
        }
    }

    pub fn sequence(&self) -> (r: usize)
        ensures
            r == self.sequence_spec(),
    {
        match self {
            DataEvent::Default { sequence, .. } => *sequence,
            DataEvent::Gps { sequence, .. } => *sequence,
            DataEvent::Imu { sequence, .. } => *sequence,
            DataEvent::Bms { sequence, .. } => *sequence,
        }
    }

    /// The re-publish delay in milliseconds.
    pub fn duration(&self) -> (r: u64)
        ensures
            r == self.delay_spec(),
    {
        match self {
            DataEvent::Default { delay_ms, .. } => *delay_ms,
            DataEvent::Gps { delay_ms, .. } => *delay_ms,
            DataEvent::Imu { delay_ms, .. } => *delay_ms,
            DataEvent::Bms { delay_ms, .. } => *delay_ms,
        }
    }

    /// The kind's name, as used in topics (`{data_type}`).
    pub fn kind_name(&self) -> (r: &'static str)
        ensures
            r@ == self.kind_name_spec(),
    {
        match self {
            DataEvent::Default { .. } => "default",
            DataEvent::Gps { .. } => "gps",
            DataEvent::Imu { .. } => "imu",
            DataEvent::Bms { .. } => "bms",
        }
    }
}


/// Connection settings shared by `bench` and `simulator`.
#[derive(Clone, Debug)]
pub struct NetworkConfig {
    pub server: String,
    pub port: u16,
    /// Keep-alive interval in seconds.
    pub keep_alive: u64,
    pub max_inflight: u16,
    /// Connection timeout in seconds.
    pub conn_timeout: u64,
}

/// Session population and reporting settings shared by `bench` and `simulator`.
#[derive(Clone, Debug)]
pub struct CommonConfig {
    pub publishers: usize,
    pub subscribers: usize,
    pub publish_qos: i16,
    pub subscribe_qos: i16,
    /// Messages per publisher.
    pub count: usize,
    pub disable_unique_clientid_prefix: bool,
    pub ca_file: Option<String>,
    pub show_pub_stat: bool,
    pub show_sub_stat: bool,
    /// Seconds a subscriber sleeps after every hundred messages (0 = never).
    pub sleep_sub: u64,
}

/// `bench`: fixed-size payloads at one rate.
#[derive(Clone, Debug)]
pub struct BenchConfig {
    pub network_config: NetworkConfig,
    pub common_config: CommonConfig,
    pub payload_size: usize,
    /// Messages per second per publisher (0 = unthrottled).
    pub rate: u64,
    pub topic_format: String,
}

/// `simulator`: synthetic sensor payloads, one rate per kind.
#[derive(Clone, Debug)]
pub struct SimulatorConfig {
    pub network_config: NetworkConfig,
    pub common_config: CommonConfig,
    pub imu_rate: u64,
    pub bms_rate: u64,
    pub gps_rate: u64,
    pub topic_format: String,
}

/// `round`: the escalating round-trip harness.
#[derive(Clone, Debug)]
pub struct RoundConfig {
    pub connections: Option<usize>,
    pub in_flight: usize,
    pub broker: String,
    pub port: u16,
    pub payload_size: usize,
    /// Round duration in seconds.
    pub duration: u64,
    /// Per-connection message budget.
    pub max_publishes: Option<u64>,
}

/// `conformance`: the broker to run the scripted assertions against.
#[derive(Clone, Debug)]
pub struct ConformanceConfig {
    pub server: String,
    pub port: u16,
}

/// The subcommands.
#[derive(Debug)]
pub enum Cli {
    Bench(BenchConfig),
    Simulator(SimulatorConfig),
    Round(RoundConfig),
    Conformance(ConformanceConfig),
    Test,
}

/// Everything a `bench` or `simulator` run needs, with the workload as a list
/// of item kinds.
#[derive(Clone, Debug)]
pub struct RunnerConfig {
    pub server: String,
    pub port: u16,
    pub publishers: usize,
    pub subscribers: usize,
    pub publish_qos: i16,
    pub subscribe_qos: i16,
    pub count: usize,
    pub topic_format: String,
    pub disable_unique_clientid_prefix: bool,
    pub tasks: VecDeque<DataEvent>,
    pub keep_alive: u64,
    pub max_inflight: u16,
    pub conn_timeout: u64,
    pub ca_file: Option<String>,
    pub show_pub_stat: bool,
    pub show_sub_stat: bool,
    pub sleep_sub: u64,
}

/// Delay in milliseconds between messages sent at `rate` per second; 0 for an
/// unthrottled rate of 0.
pub open spec fn delay_for_rate_spec(rate: u64) -> u64 {
    if rate == 0 { 0 } else { (1000u64 / rate) as u64 }
}

pub fn delay_for_rate(rate: u64) -> (r: u64)
    ensures
        r == delay_for_rate_spec(rate),
{
    if rate == 0 { 0 } else { 1000 / rate }
}

/// The settings that a runner config copies from the network and common parts.
pub open spec fn copies_common(r: RunnerConfig, n: NetworkConfig, c: CommonConfig, topic_format: String) -> bool {
    &&& r.server == n.server
    &&& r.port == n.port
    &&& r.keep_alive == n.keep_alive
    &&& r.max_inflight == n.max_inflight
    &&& r.conn_timeout == n.conn_timeout
    &&& r.publishers == c.publishers
    &&& r.subscribers == c.subscribers
    &&& r.publish_qos == c.publish_qos
    &&& r.subscribe_qos == c.subscribe_qos
    &&& r.count == c.count
    &&& r.disable_unique_clientid_prefix == c.disable_unique_clientid_prefix
    &&& r.ca_file == c.ca_file
    &&& r.show_pub_stat == c.show_pub_stat
    &&& r.show_sub_stat == c.show_sub_stat
    &&& r.sleep_sub == c.sleep_sub
    &&& r.topic_format == topic_format
}

fn runner_config(n: NetworkConfig, c: CommonConfig, topic_format: String, tasks: VecDeque<DataEvent>) -> (r: RunnerConfig)
    ensures
        copies_common(r, n, c, topic_format),
        r.tasks == tasks,
{
    RunnerConfig {
        server: n.server,
        port: n.port,
        publishers: c.publishers,
        subscribers: c.subscribers,
        publish_qos: c.publish_qos,
        subscribe_qos: c.subscribe_qos,
        count: c.count,
        topic_format,
        disable_unique_clientid_prefix: c.disable_unique_clientid_prefix,
        tasks,
        keep_alive: n.keep_alive,
        max_inflight: n.max_inflight,
        conn_timeout: n.conn_timeout,
        ca_file: c.ca_file,
        show_pub_stat: c.show_pub_stat,
        show_sub_stat: c.show_sub_stat,
        sleep_sub: c.sleep_sub,
    }
}

impl RunnerConfig {
    /// A `bench` run publishes one kind: fixed-size payloads, starting at
    /// sequence 1, at the configured rate.
    pub fn from_bench(value: BenchConfig) -> (r: RunnerConfig)
        ensures
            copies_common(r, value.network_config, value.common_config, value.topic_format),
            r.tasks@ == seq![DataEvent::Default {
                sequence: 1,
                delay_ms: delay_for_rate_spec(value.rate),
                payload_size: value.payload_size,
            }],
    {
        let delay_ms = delay_for_rate(value.rate);
        let mut tasks: VecDeque<DataEvent> = VecDeque::new();
        tasks.push_back(DataEvent::Default { sequence: 1, delay_ms, payload_size: value.payload_size });
        runner_config(value.network_config, value.common_config, value.topic_format, tasks)
    }

    /// A `simulator` run publishes three kinds, IMU, BMS and GPS in that order,
    /// each starting at sequence 1 at its own rate.
    pub fn from_simulator(value: SimulatorConfig) -> (r: RunnerConfig)
        ensures
            copies_common(r, value.network_config, value.common_config, value.topic_format),
            r.tasks@ == seq![
                DataEvent::Imu { sequence: 1, delay_ms: delay_for_rate_spec(value.imu_rate) },
                DataEvent::Bms { sequence: 1, delay_ms: delay_for_rate_spec(value.bms_rate) },
                DataEvent::Gps { sequence: 1, delay_ms: delay_for_rate_spec(value.gps_rate) },
            ],
    {
        let mut tasks: VecDeque<DataEvent> = VecDeque::new();
        tasks.push_back(DataEvent::Imu { sequence: 1, delay_ms: delay_for_rate(value.imu_rate) });
        tasks.push_back(DataEvent::Bms { sequence: 1, delay_ms: delay_for_rate(value.bms_rate) });
        tasks.push_back(DataEvent::Gps { sequence: 1, delay_ms: delay_for_rate(value.gps_rate) });
        proof {
            assert(tasks@ =~= seq![
                DataEvent::Imu { sequence: 1, delay_ms: delay_for_rate_spec(value.imu_rate) },
                DataEvent::Bms { sequence: 1, delay_ms: delay_for_rate_spec(value.bms_rate) },
                DataEvent::Gps { sequence: 1, delay_ms: delay_for_rate_spec(value.gps_rate) },
            ]);
        }
        runner_config(value.network_config, value.common_config, value.topic_format, tasks)
    }
}

/// Delivery guarantee of a publish or a subscription.
#[derive(Clone, Copy, Debug, PartialEq, Eq, Structural)]
pub enum Qos {
    AtMostOnce,
    AtLeastOnce,
    ExactlyOnce,
}

/// QoS level for subscriptions: 0 is at most once, anything else at least once.
pub fn get_qos(qos: i16) -> (r: Qos)
    ensures
        r == (if qos == 0 { Qos::AtMostOnce } else { Qos::AtLeastOnce }),
{
    if qos == 0 { Qos::AtMostOnce } else { Qos::AtLeastOnce }
}

/// QoS level for publishes: 0, 1 and 2 map to their levels, anything else to
/// at least once.
pub fn get_publish_qos(qos: i16) -> (r: Qos)
    ensures
        r == (if qos == 0 {
            Qos::AtMostOnce
        } else if qos == 2 {
            Qos::ExactlyOnce
        } else {
            Qos::AtLeastOnce
        }),
{
    if qos == 0 {
        Qos::AtMostOnce
    } else if qos == 2 {
        Qos::ExactlyOnce
    } else {
        Qos::AtLeastOnce
    }
}

} // verus!
