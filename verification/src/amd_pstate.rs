//! The platform-wide mode of the AMD P-State driver.

use crate::error::{IoError, ParseError, SysfsError};
use crate::vocabulary::{parse, read_text, sysfs_parse, token_value, value_spec, SysfsEnum};
use vstd::prelude::*;

verus! {

/// The mode in which the AMD P-State driver runs.
#[derive(Debug, Clone, Copy, PartialEq, Eq, Hash, Structural)]
pub enum Status {
    Active,
    Guided,
    Passive,
}

impl SysfsEnum for Status {
    open spec fn token(self) -> Seq<char> {
        match self {
            Status::Active => "active"@,
            Status::Guided => "guided"@,
            Status::Passive => "passive"@,
        }
    }

    fn as_str(&self) -> (s: &'static str) {
        match self {
            Status::Active => "active",
            Status::Guided => "guided",
            Status::Passive => "passive",
        }
    }

    fn all() -> (v: Vec<Self>) {
        let v = vec![Status::Active, Status::Guided, Status::Passive];
        proof {
            assert forall|x: Self| v@.contains(x) by {
                match x {
                    Status::Active => assert(v@[0] == x),
                    Status::Guided => assert(v@[1] == x),
                    Status::Passive => assert(v@[2] == x),
                }
            }
        }
        v
    }

    fn same(&self, other: &Self) -> (r: bool) {
        *self == *other
    }

    proof fn lemma_token_injective(a: Self, b: Self) {
        reveal_strlit("active");
        reveal_strlit("guided");
        reveal_strlit("passive");
        assert("active"@.len() == 6 && "active"@[0] == 'a');
        assert("guided"@.len() == 6 && "guided"@[0] == 'g');
        assert("passive"@.len() == 7);
    }
}

/// Where sysfs reports the mode of the AMD P-State driver.
pub fn status_path() -> (p: &'static str)
    ensures
        p@ == "/sys/devices/system/cpu/amd_pstate/status"@,
{
    "/sys/devices/system/cpu/amd_pstate/status"
}

/// The mode of the AMD P-State driver, from the outcome of reading the file
/// at `status_path()`.
pub fn status(read: Result<String, IoError>) -> (r: Result<Status, SysfsError>)
    ensures
        r == value_spec::<Status>(read_text(read)),
{
    sysfs_parse::<Status>(read)
}

impl std::str::FromStr for Status {
    type Err = ParseError;

    fn from_str(s: &str) -> (r: Result<Self, ParseError>)
        ensures
            r == token_value::<Status>(s@),
    {
        parse::<Status>(s)
    }
}

} // verus!
