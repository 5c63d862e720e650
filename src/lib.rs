//! Framing codec and session logic for a print-and-cut photo printer.
//!
//! `protocol` holds the binary frame format and `states` the job and printer
//! states the device reports; `catalog` lists the supported devices;
//! `transports` holds the request correlation, bulk-transfer and polling rules
//! of a device session; `job` composes one print job.
pub mod catalog;
mod endian;
pub mod job;
pub mod protocol;
pub mod states;
pub mod transports;
