//! Benchmark orchestration for publish/subscribe brokers: workload generation,
//! session state machines, latency aggregation and the round escalation harness.

pub mod histogram;
pub mod text;
pub mod cli;
pub mod gendata;
pub mod session;
pub mod stats;
pub mod round;
