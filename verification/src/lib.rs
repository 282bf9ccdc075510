//! A live hardware-utilization telemetry core: a sampler turns one consistent
//! reading of the machine's counters into an integer snapshot, a single-slot
//! sequence-numbered broadcaster fans the latest snapshot out to any number of
//! independently paced subscribers, and a formatter renders each delivered
//! snapshot as one JSON text message.

pub mod channel;
pub mod driver;
pub mod message;
pub mod metrics;
