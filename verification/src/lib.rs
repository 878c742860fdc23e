//! Commuter bus-arrival monitor core: a transit-API client for real-time
//! arrivals, a per-line schedule table deriving onward connection times, an
//! aggregator merging arrivals from several stops, a bounded mailbox, and a
//! display actor that lays out an arrival table and a proportional timeline
//! as a list of drawing operations for an external output device.

pub mod aggregator;
pub mod display;
pub mod emtmadrid;
pub mod mailbox;
pub mod schedule;
pub mod text;
