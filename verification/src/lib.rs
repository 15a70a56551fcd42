//! Verified core of a device bring-up report: a byte-size humanizer, a
//! partition-record decoder, and a walker that turns the records an external
//! partition table yields into a report, in order.

pub mod format;
pub mod partition;
pub mod report;
pub mod responder;
pub mod walker;
