//! The power-source condition reported by the operating system.

use vstd::prelude::*;

verus! {

/// The power source the machine is running from. `Other` covers OS
/// conditions the controller does not act on (UPS and the like), and
/// `Unknown` is the sentinel a freshly constructed controller starts
/// from, so the very first real notification never looks like an
/// AC/DC crossing.
#[derive(Clone, Copy, Debug, PartialEq, Eq, Structural)]
pub enum PowerCondition {
    Ac,
    Dc,
    Other,
    Unknown,
}

impl PowerCondition {
    /// A condition the controller schedules a brightness write for.
    pub open spec fn spec_actionable(self) -> bool {
        self == PowerCondition::Ac || self == PowerCondition::Dc
    }

    /// Whether the controller acts on this condition (only AC and DC
    /// carry a brightness policy).
    pub fn is_actionable(self) -> (r: bool)
        ensures
            r == self.spec_actionable(),
    {
        match self {
            PowerCondition::Ac => true,
            PowerCondition::Dc => true,
            PowerCondition::Other => false,
            PowerCondition::Unknown => false,
        }
    }
}

} // verus!
