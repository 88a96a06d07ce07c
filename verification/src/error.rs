use vstd::prelude::*;

use crate::types::{Gna2Status, GNA2_STATUS_SUCCESS};

verus! {

/// Errors reported by the GNA device API.
#[derive(Debug)]
pub enum GnaError {
    /// A runtime call returned this status, which is not success.
    Status(Gna2Status),
    /// The runtime reports that no GNA device is present.
    NoDevicesAvailable,
    /// The requested device index (first) is not below the number of devices (second).
    DeviceIndexOutOfRange(u32, u32),
    /// Any other failure, described in words.
    Other(String),
}

/// What a runtime status means for the caller: success, or the error that carries it.
pub open spec fn status_outcome(status: Gna2Status) -> Result<(), GnaError> {
    if status == GNA2_STATUS_SUCCESS {
        Ok(())
    } else {
        Err(GnaError::Status(status))
    }
}

impl GnaError {
    /// The error that stands for a failed runtime call with the given status.
    pub fn from_status(status: Gna2Status) -> (e: GnaError)
        ensures
            e == GnaError::Status(status),
    {
        GnaError::Status(status)
    }
}

/// Turns the status of a runtime call into `Ok(())` on success and the matching error otherwise.
pub fn check_status(status: Gna2Status) -> (r: Result<(), GnaError>)
    ensures
        r == status_outcome(status),
{
    if status != GNA2_STATUS_SUCCESS {
        return Err(GnaError::from_status(status));
    }
    Ok(())
}

} // verus!
