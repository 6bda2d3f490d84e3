//! Immutable configuration for the sink and its exposure server.

use crate::level::Level;
use vstd::prelude::*;

verus! {

/// Configuration of the sink and its exposure server: where to serve,
/// the minimum severity to retain, and the buffer capacity. Created once
/// at startup and never mutated.
#[derive(Debug, Clone)]
pub struct Settings {
    /// The address to serve records from.
    pub address: String,
    /// The HTTP port.
    pub port: u32,
    /// The minimum severity a record must have to be retained.
    pub level: Level,
    /// The maximum number of records the buffer holds.
    pub num_records: u32,
}

impl Settings {
    /// A valid configuration: the port fits the HTTP port range and the
    /// buffer holds at least one record.
    pub open spec fn wf(&self) -> bool {
        self.port <= 65535 && self.num_records >= 1
    }

    /// Builds settings from explicit values instead of a configuration file.
    ///
    /// Values are:
    /// - address: the address to serve records from
    /// - port: the HTTP port
    /// - level: the minimum severity to capture
    /// - num_records: the maximum number of buffered records
    pub fn with_values(address: &str, port: u32, level: Level, num_records: u32) -> (r: Self)
        requires
            port <= 65535,
            num_records >= 1,
        ensures
            r.address@ == address@,
            r.port == port,
            r.level == level,
            r.num_records == num_records,
            r.wf(),
    {
        Self { address: address.to_owned(), port, level, num_records }
    }
}

} // verus!
