use vstd::prelude::*;

verus! {

/// The two supported LED-controller firmware families.
///
/// A profile fixes the command byte layouts, the write-characteristic
/// selection rule, and whether discovery gates on signal strength.
/// The active profile is chosen at session construction and never inferred.
#[derive(Clone, Copy, Debug, PartialEq, Eq, Structural)]
pub enum ProtocolProfile {
    ProtocolA,
    ProtocolB,
}

impl ProtocolProfile {
    /// Whether device discovery rejects weak advertisements for this profile.
    pub open spec fn spec_rssi_gated(self) -> bool {
        self is ProtocolA
    }

    /// Whether device discovery rejects weak advertisements for this profile.
    pub fn rssi_gated(&self) -> (r: bool)
        ensures
            r == self.spec_rssi_gated(),
    {
        match self {
            ProtocolProfile::ProtocolA => true,
            ProtocolProfile::ProtocolB => false,
        }
    }
}

} // verus!
