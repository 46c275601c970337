use vstd::prelude::*;

verus! {

/// Why a reconciliation run, or the start of the daemon, failed.
#[derive(Debug, Clone, PartialEq, Eq)]
pub enum CduError {
    /// The public-address service gave no IPv4 address.
    PublicAddressUnavailable,
    /// The provider account holds no zone of this name.
    ZoneNotFound(String),
    /// The zone holds no record of this name.
    RecordNotFound(String),
    /// A provider call failed at the transport, HTTP or authentication level.
    ProviderCallFailed(String),
    /// The schedule expression could not be parsed.
    ScheduleParseError(String),
}

impl CduError {
    /// Errors that may go away when the run is tried again.
    pub open spec fn transient(&self) -> bool {
        self is PublicAddressUnavailable || self is ProviderCallFailed
    }

    pub fn is_transient(&self) -> (r: bool)
        ensures
            r == self.transient(),
    {
        match self {
            CduError::PublicAddressUnavailable => true,
            CduError::ProviderCallFailed(_) => true,
            _ => false,
        }
    }
}

} // verus!
