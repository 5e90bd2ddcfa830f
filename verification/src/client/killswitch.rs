//! The kill switch: while engaged, the OS firewall blocks all traffic
//! outside the tunnel (fail-closed).
use vstd::prelude::*;

verus! {

/// An engaged (or released) kill switch.
#[derive(Debug)]
pub struct KillSwitch {
    active: bool,
}

impl KillSwitch {
    /// The switch is still blocking traffic.
    pub closed spec fn engaged(&self) -> bool {
        self.active
    }

    /// A switch just activated.
    pub fn activated() -> (k: Self)
        ensures
            k.engaged(),
    {
        KillSwitch { active: true }
    }

    /// Whether traffic is still blocked; a switch dropped in that state
    /// leaves the firewall rules behind, which deserves a warning.
    pub fn is_active(&self) -> (r: bool)
        ensures
            r == self.engaged(),
    {
        self.active
    }
}

} // verus!
