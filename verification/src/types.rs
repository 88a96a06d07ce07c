use vstd::prelude::*;

verus! {

/// Status code returned by every call into the GNA runtime.
pub type Gna2Status = i32;

/// The status code with which the GNA runtime reports success.
pub const GNA2_STATUS_SUCCESS: Gna2Status = 0;

/// Hardware generation of a GNA device.
#[derive(Clone, Copy, Debug, PartialEq, Eq, Structural)]
pub enum Gna2DeviceVersion {
    Version1_0,
    Version2_0,
    Version3_0,
    Version3_5,
    /// The software emulation of the default device generation.
    SoftwareEmulation,
}

impl Gna2DeviceVersion {
    /// The software emulation device.
    pub const SOFTWARE_EMULATION: Gna2DeviceVersion = Gna2DeviceVersion::SoftwareEmulation;
}

impl Default for Gna2DeviceVersion {
    /// The runtime's default device version is the software emulation device.
    fn default() -> (v: Gna2DeviceVersion)
        ensures
            v == Gna2DeviceVersion::SoftwareEmulation,
    {
        Gna2DeviceVersion::SoftwareEmulation
    }
}

} // verus!
