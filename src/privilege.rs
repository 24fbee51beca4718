use vstd::prelude::*;

verus! {

/// A protection ring, from 0 (most privileged) to 3 (least privileged).
#[derive(Clone, Copy, Debug, PartialEq, Eq, Structural)]
pub enum PrivilegeLevel {
    Ring0,
    Ring1,
    Ring2,
    Ring3,
}

impl PrivilegeLevel {
    /// The two-bit pattern of this ring.
    pub open spec fn level(self) -> u16 {
        match self {
            PrivilegeLevel::Ring0 => 0,
            PrivilegeLevel::Ring1 => 1,
            PrivilegeLevel::Ring2 => 2,
            PrivilegeLevel::Ring3 => 3,
        }
    }

    /// The ring whose two-bit pattern is `bits`.
    pub open spec fn from_level(bits: u16) -> PrivilegeLevel
        recommends
            bits < 4,
    {
        if bits == 0 {
            PrivilegeLevel::Ring0
        } else if bits == 1 {
            PrivilegeLevel::Ring1
        } else if bits == 2 {
            PrivilegeLevel::Ring2
        } else {
            PrivilegeLevel::Ring3
        }
    }

    /// Returns the two-bit pattern of this ring.
    pub fn as_u16(self) -> (r: u16)
        ensures
            r == self.level(),
            r < 4,
    {
        match self {
            PrivilegeLevel::Ring0 => 0,
            PrivilegeLevel::Ring1 => 1,
            PrivilegeLevel::Ring2 => 2,
            PrivilegeLevel::Ring3 => 3,
        }
    }
}

} // verus!
