//! The desktop power profile and the CPU policy that each profile asks for.

use crate::error::ParseError;
use crate::policy::{EnergyPerformancePreference, ScalingGovernor};
use crate::vocabulary::{parse, parse_spec, token_value, SysfsEnum};
use vstd::prelude::*;

verus! {

/// The power profile that the desktop has chosen.
#[derive(Debug, Clone, Copy, PartialEq, Eq, Hash, Structural)]
pub enum Profile {
    PowerSaver,
    Balanced,
    Performance,
}

impl SysfsEnum for Profile {
    open spec fn token(self) -> Seq<char> {
        match self {
            Profile::PowerSaver => "power-saver"@,
            Profile::Balanced => "balanced"@,
            Profile::Performance => "performance"@,
        }
    }

    fn as_str(&self) -> (s: &'static str) {
        match self {
            Profile::PowerSaver => "power-saver",
            Profile::Balanced => "balanced",
            Profile::Performance => "performance",
        }
    }

    fn all() -> (v: Vec<Self>) {
        let v = vec![Profile::PowerSaver, Profile::Balanced, Profile::Performance];
        proof {
            assert forall|x: Self| v@.contains(x) by {
                match x {
                    Profile::PowerSaver => assert(v@[0] == x),
                    Profile::Balanced => assert(v@[1] == x),
                    Profile::Performance => assert(v@[2] == x),
                }
            }
        }
        v
    }

    fn same(&self, other: &Self) -> (r: bool) {
        *self == *other
    }

    proof fn lemma_token_injective(a: Self, b: Self) {
        reveal_strlit("power-saver");
        reveal_strlit("balanced");
        reveal_strlit("performance");
        assert("power-saver"@.len() == 11 && "power-saver"@[1] == 'o');
        assert("balanced"@.len() == 8);
        assert("performance"@.len() == 11 && "performance"@[1] == 'e');
    }
}

impl std::str::FromStr for Profile {
    type Err = ParseError;

    fn from_str(s: &str) -> (r: Result<Self, ParseError>)
        ensures
            r == token_value::<Profile>(s@),
    {
        parse::<Profile>(s)
    }
}

/// Why the active profile is not known.
#[derive(Debug, Clone, Copy, PartialEq, Eq, Hash, Structural)]
pub enum ProfileError {
    /// The profile service gave no answer.
    Unavailable,
    /// The profile service named a profile outside the vocabulary.
    Unrecognized,
}

/// What an answer of the profile service denotes. A name outside the
/// vocabulary is never mapped to a profile.
pub open spec fn active_profile_spec(reply: Option<Seq<char>>) -> Result<Profile, ProfileError> {
    match reply {
        None => Err(ProfileError::Unavailable),
        Some(name) => match parse_spec::<Profile>(name) {
            Some(p) => Ok(p),
            None => Err(ProfileError::Unrecognized),
        },
    }
}

/// The text of an answer.
pub open spec fn reply_text(reply: Option<String>) -> Option<Seq<char>> {
    match reply {
        Some(s) => Some(s@),
        None => None,
    }
}

/// The active profile, from the answer of the profile service to the
/// question which profile is active, if it gave one.
pub fn power_profile_active(reply: Option<String>) -> (r: Result<Profile, ProfileError>)
    ensures
        r == active_profile_spec(reply_text(reply)),
{
    match reply {
        None => Err(ProfileError::Unavailable),
        Some(name) => match parse::<Profile>(name.as_str()) {
            Ok(p) => Ok(p),
            Err(_) => Err(ProfileError::Unrecognized),
        },
    }
}

/// The governor and the energy-performance preference that every CPU is to
/// have.
#[derive(Debug, Clone, Copy, PartialEq, Eq, Hash, Structural)]
pub struct DesiredPolicy {
    pub governor: ScalingGovernor,
    pub epp: EnergyPerformancePreference,
}

impl Profile {
    /// The policy that this profile asks for.
    pub open spec fn policy(self) -> DesiredPolicy {
        match self {
            Profile::PowerSaver => DesiredPolicy {
                governor: ScalingGovernor::Powersave,
                epp: EnergyPerformancePreference::Power,
            },
            Profile::Balanced => DesiredPolicy {
                governor: ScalingGovernor::Powersave,
                epp: EnergyPerformancePreference::BalancePerformance,
            },
            Profile::Performance => DesiredPolicy {
                governor: ScalingGovernor::Performance,
                epp: EnergyPerformancePreference::Performance,
            },
        }
    }

    /// The policy that this profile asks for.
    pub fn desired_policy(&self) -> (d: DesiredPolicy)
        ensures
            d == self.policy(),
    {
        match self {
            Profile::PowerSaver => DesiredPolicy {
                governor: ScalingGovernor::Powersave,
                epp: EnergyPerformancePreference::Power,
            },
            Profile::Balanced => DesiredPolicy {
                governor: ScalingGovernor::Powersave,
                epp: EnergyPerformancePreference::BalancePerformance,
            },
            Profile::Performance => DesiredPolicy {
                governor: ScalingGovernor::Performance,
                epp: EnergyPerformancePreference::Performance,
            },
        }
    }
}

} // verus!
