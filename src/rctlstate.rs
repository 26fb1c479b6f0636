//! Whether rctl can be used here, decided from two kernel variables.
use vstd::prelude::*;

verus! {

/// The kernel variable that tells whether this host is itself a jail.
pub const CTL_SECURITY_JAIL_JAILED: &'static str = "security.jail.jailed";

/// The kernel variable that tells whether resource accounting is on.
pub const CTL_KERN_RACCT_ENABLE: &'static str = "kern.racct.enable";

/// What reading one kernel variable gave.
#[derive(Clone, Copy, Debug, PartialEq, Eq, Structural)]
pub enum SysctlReading {
    /// The variable does not exist.
    Missing,
    /// The variable exists, but its value could not be read.
    Unreadable,
    U8(u8),
    Uint(u32),
    Int(i32),
    /// A value of another type.
    Other,
}

/// The availability of rctl.
#[derive(Clone, Copy, Debug, PartialEq, Eq, Structural)]
pub enum RctlState {
    Disabled,
    Enabled,
    Jailed,
    NotPresent,
}

impl RctlState {
    /// Whether the jailed variable says that this host is a jail; where it
    /// cannot be read, it is taken to be one.
    pub open spec fn jailed_spec(jailed: SysctlReading) -> bool {
        match jailed {
            SysctlReading::Missing | SysctlReading::Unreadable => true,
            SysctlReading::Int(v) => v == 1,
            _ => false,
        }
    }

    /// The state that the two variables give.
    pub open spec fn from_readings_spec(jailed: SysctlReading, racct: SysctlReading) -> RctlState {
        if Self::jailed_spec(jailed) {
            RctlState::Jailed
        } else {
            match racct {
                SysctlReading::Missing => RctlState::NotPresent,
                SysctlReading::U8(v) => if v == 1 { RctlState::Enabled } else { RctlState::Disabled },
                SysctlReading::Uint(v) => if v == 1 { RctlState::Enabled } else { RctlState::Disabled },
                _ => RctlState::Disabled,
            }
        }
    }

    /// Whether the reading of the jailed variable says that this host is a
    /// jail.
    pub fn jailed(jailed: SysctlReading) -> (r: bool)
        ensures
            r == Self::jailed_spec(jailed),
    {
        match jailed {
            SysctlReading::Missing | SysctlReading::Unreadable => true,
            SysctlReading::Int(v) => v == 1,
            _ => false,
        }
    }

    /// Decides the state: a jailed host cannot use rctl; otherwise a
    /// missing accounting variable means rctl is not present, a value of 1
    /// (a `u8` on newer kernels, a `uint` on older ones) that it is enabled,
    /// and anything else that it is disabled.
    pub fn from_readings(jailed: SysctlReading, racct: SysctlReading) -> (r: RctlState)
        ensures
            r == Self::from_readings_spec(jailed, racct),
    {
        if Self::jailed(jailed) {
            return RctlState::Jailed;
        }
        match racct {
            SysctlReading::Missing => RctlState::NotPresent,
            SysctlReading::U8(1) => RctlState::Enabled,
            SysctlReading::Uint(1) => RctlState::Enabled,
            _ => RctlState::Disabled,
        }
    }
}

} // verus!
