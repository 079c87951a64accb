use vstd::prelude::*;

verus! {

/// Cumulative byte counters for one network interface, as reported by the
/// kernel at one point in time.
#[derive(Clone, Copy, Debug, PartialEq, Eq, Structural)]
pub struct Counters {
    pub received_bytes: u64,
    pub transmitted_bytes: u64,
}

/// One record of the time series: an interface's cumulative counters at the
/// moment it was sampled. The sampling time itself is recorded by the store
/// on insertion.
#[derive(Debug)]
pub struct InterfaceSample {
    pub interface_name: String,
    pub received_bytes: u64,
    pub transmitted_bytes: u64,
}

impl InterfaceSample {
    /// The row this sample stands for: name, received bytes, transmitted bytes.
    pub open spec fn row(self) -> (Seq<char>, u64, u64) {
        (self.interface_name@, self.received_bytes, self.transmitted_bytes)
    }
}

/// Why a counter query for one interface failed.
#[derive(Clone, Copy, Debug, PartialEq, Eq, Structural)]
pub enum QueryError {
    /// The interface does not exist, or the reply carried no statistics.
    NotFound,
    /// The statistics attribute was present but could not be decoded.
    MalformedResponse,
    /// The query channel itself failed; no further query can succeed.
    TransportError,
}

impl QueryError {
    /// A transport failure poisons the whole channel and ends the loop;
    /// the other failures are scoped to one interface in one cycle.
    pub open spec fn spec_is_fatal(self) -> bool {
        self is TransportError
    }

    pub fn is_fatal(&self) -> (r: bool)
        ensures
            r == self.spec_is_fatal(),
    {
        matches!(self, QueryError::TransportError)
    }
}

/// Why an append to the sample store failed.
#[derive(Clone, Copy, Debug, PartialEq, Eq, Structural)]
pub enum StoreError {
    /// The store could not be reached or its schema could not be prepared.
    ConnectionError,
    /// An insert failed; the row was not written.
    WriteError,
}

/// An error that terminates the sampler loop.
#[derive(Clone, Copy, Debug, PartialEq, Eq, Structural)]
pub enum FatalError {
    /// The counter query channel failed.
    Transport,
    /// A write to the sample store failed.
    Store(StoreError),
}

} // verus!
