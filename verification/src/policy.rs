//! The cpufreq policy of one CPU: its scaling driver, its scaling governor
//! and its energy-performance preference.
//!
//! Driver and governor tokens are spelled with hyphens, preference tokens
//! with underscores, as the kernel spells them.

use crate::cpu::Cpu;
use crate::error::{IoError, ParseError, SysfsError};
use crate::vocabulary::{
    parse, read_text, set_spec, sysfs_parse, sysfs_parse_set, token_value, value_spec, SysfsEnum,
    ValueSet,
};
use vstd::prelude::*;

verus! {

/// The cpufreq driver that scales a CPU.
#[derive(Debug, Clone, Copy, PartialEq, Eq, Hash, Structural)]
pub enum ScalingDriver {
    AcpiCpufreq,
    AmdPstate,
    AmdPstateEpp,
    CppcCpufreq,
    IntelCpufreq,
    IntelPstate,
    SpeedstepLib,
}

/// The algorithm that picks a CPU's frequency within the driver's bounds.
#[derive(Debug, Clone, Copy, PartialEq, Eq, Hash, Structural)]
pub enum ScalingGovernor {
    Conservative,
    Ondemand,
    Performance,
    Powersave,
    Schedutil,
    Userspace,
}

/// The hint that biases a CPU towards saving power or towards speed.
#[derive(Debug, Clone, Copy, PartialEq, Eq, Hash, Structural)]
pub enum EnergyPerformancePreference {
    BalancePerformance,
    BalancePower,
    Default,
    Performance,
    Power,
}

impl SysfsEnum for ScalingDriver {
    open spec fn token(self) -> Seq<char> {
        match self {
            ScalingDriver::AcpiCpufreq => "acpi-cpufreq"@,
            ScalingDriver::AmdPstate => "amd-pstate"@,
            ScalingDriver::AmdPstateEpp => "amd-pstate-epp"@,
            ScalingDriver::CppcCpufreq => "cppc-cpufreq"@,
            ScalingDriver::IntelCpufreq => "intel-cpufreq"@,
            ScalingDriver::IntelPstate => "intel-pstate"@,
            ScalingDriver::SpeedstepLib => "speedstep-lib"@,
        }
    }

    fn as_str(&self) -> (s: &'static str) {
        match self {
            ScalingDriver::AcpiCpufreq => "acpi-cpufreq",
            ScalingDriver::AmdPstate => "amd-pstate",
            ScalingDriver::AmdPstateEpp => "amd-pstate-epp",
            ScalingDriver::CppcCpufreq => "cppc-cpufreq",
            ScalingDriver::IntelCpufreq => "intel-cpufreq",
            ScalingDriver::IntelPstate => "intel-pstate",
            ScalingDriver::SpeedstepLib => "speedstep-lib",
        }
    }

    fn all() -> (v: Vec<Self>) {
        let v = vec![
            ScalingDriver::AcpiCpufreq,
            ScalingDriver::AmdPstate,
            ScalingDriver::AmdPstateEpp,
            ScalingDriver::CppcCpufreq,
            ScalingDriver::IntelCpufreq,
            ScalingDriver::IntelPstate,
            ScalingDriver::SpeedstepLib,
        ];
        proof {
            assert forall|x: Self| v@.contains(x) by {
                match x {
                    ScalingDriver::AcpiCpufreq => assert(v@[0] == x),
                    ScalingDriver::AmdPstate => assert(v@[1] == x),
                    ScalingDriver::AmdPstateEpp => assert(v@[2] == x),
                    ScalingDriver::CppcCpufreq => assert(v@[3] == x),
                    ScalingDriver::IntelCpufreq => assert(v@[4] == x),
                    ScalingDriver::IntelPstate => assert(v@[5] == x),
                    ScalingDriver::SpeedstepLib => assert(v@[6] == x),
                }
            }
        }
        v
    }

    fn same(&self, other: &Self) -> (r: bool) {
        *self == *other
    }

    proof fn lemma_token_injective(a: Self, b: Self) {
        reveal_strlit("acpi-cpufreq");
        reveal_strlit("amd-pstate");
        reveal_strlit("amd-pstate-epp");
        reveal_strlit("cppc-cpufreq");
        reveal_strlit("intel-cpufreq");
        reveal_strlit("intel-pstate");
        reveal_strlit("speedstep-lib");
        assert("acpi-cpufreq"@.len() == 12 && "acpi-cpufreq"@[0] == 'a');
        assert("amd-pstate"@.len() == 10);
        assert("amd-pstate-epp"@.len() == 14);
        assert("cppc-cpufreq"@.len() == 12 && "cppc-cpufreq"@[0] == 'c');
        assert("intel-cpufreq"@.len() == 13 && "intel-cpufreq"@[0] == 'i');
        assert("intel-pstate"@.len() == 12 && "intel-pstate"@[0] == 'i');
        assert("speedstep-lib"@.len() == 13 && "speedstep-lib"@[0] == 's');
    }
}

impl SysfsEnum for ScalingGovernor {
    open spec fn token(self) -> Seq<char> {
        match self {
            ScalingGovernor::Conservative => "conservative"@,
            ScalingGovernor::Ondemand => "ondemand"@,
            ScalingGovernor::Performance => "performance"@,
            ScalingGovernor::Powersave => "powersave"@,
            ScalingGovernor::Schedutil => "schedutil"@,
            ScalingGovernor::Userspace => "userspace"@,
        }
    }

    fn as_str(&self) -> (s: &'static str) {
        match self {
            ScalingGovernor::Conservative => "conservative",
            ScalingGovernor::Ondemand => "ondemand",
            ScalingGovernor::Performance => "performance",
            ScalingGovernor::Powersave => "powersave",
            ScalingGovernor::Schedutil => "schedutil",
            ScalingGovernor::Userspace => "userspace",
        }
    }

    fn all() -> (v: Vec<Self>) {
        let v = vec![
            ScalingGovernor::Conservative,
            ScalingGovernor::Ondemand,
            ScalingGovernor::Performance,
            ScalingGovernor::Powersave,
            ScalingGovernor::Schedutil,
            ScalingGovernor::Userspace,
        ];
        proof {
            assert forall|x: Self| v@.contains(x) by {
                match x {
                    ScalingGovernor::Conservative => assert(v@[0] == x),
                    ScalingGovernor::Ondemand => assert(v@[1] == x),
                    ScalingGovernor::Performance => assert(v@[2] == x),
                    ScalingGovernor::Powersave => assert(v@[3] == x),
                    ScalingGovernor::Schedutil => assert(v@[4] == x),
                    ScalingGovernor::Userspace => assert(v@[5] == x),
                }
            }
        }
        v
    }

    fn same(&self, other: &Self) -> (r: bool) {
        *self == *other
    }

    proof fn lemma_token_injective(a: Self, b: Self) {
        reveal_strlit("conservative");
        reveal_strlit("ondemand");
        reveal_strlit("performance");
        reveal_strlit("powersave");
        reveal_strlit("schedutil");
        reveal_strlit("userspace");
        assert("conservative"@.len() == 12);
        assert("ondemand"@.len() == 8);
        assert("performance"@.len() == 11);
        assert("powersave"@.len() == 9 && "powersave"@[0] == 'p');
        assert("schedutil"@.len() == 9 && "schedutil"@[0] == 's');
        assert("userspace"@.len() == 9 && "userspace"@[0] == 'u');
    }
}

impl SysfsEnum for EnergyPerformancePreference {
    open spec fn token(self) -> Seq<char> {
        match self {
            EnergyPerformancePreference::BalancePerformance => "balance_performance"@,
            EnergyPerformancePreference::BalancePower => "balance_power"@,
            EnergyPerformancePreference::Default => "default"@,
            EnergyPerformancePreference::Performance => "performance"@,
            EnergyPerformancePreference::Power => "power"@,
        }
    }

    fn as_str(&self) -> (s: &'static str) {
        match self {
            EnergyPerformancePreference::BalancePerformance => "balance_performance",
            EnergyPerformancePreference::BalancePower => "balance_power",
            EnergyPerformancePreference::Default => "default",
            EnergyPerformancePreference::Performance => "performance",
            EnergyPerformancePreference::Power => "power",
        }
    }

    fn all() -> (v: Vec<Self>) {
        let v = vec![
            EnergyPerformancePreference::BalancePerformance,
            EnergyPerformancePreference::BalancePower,
            EnergyPerformancePreference::Default,
            EnergyPerformancePreference::Performance,
            EnergyPerformancePreference::Power,
        ];
        proof {
            assert forall|x: Self| v@.contains(x) by {
                match x {
                    EnergyPerformancePreference::BalancePerformance => assert(v@[0] == x),
                    EnergyPerformancePreference::BalancePower => assert(v@[1] == x),
                    EnergyPerformancePreference::Default => assert(v@[2] == x),
                    EnergyPerformancePreference::Performance => assert(v@[3] == x),
                    EnergyPerformancePreference::Power => assert(v@[4] == x),
                }
            }
        }
        v
    }

    fn same(&self, other: &Self) -> (r: bool) {
        *self == *other
    }

    proof fn lemma_token_injective(a: Self, b: Self) {
        reveal_strlit("balance_performance");
        reveal_strlit("balance_power");
        reveal_strlit("default");
        reveal_strlit("performance");
        reveal_strlit("power");
        assert("balance_performance"@.len() == 19);
        assert("balance_power"@.len() == 13);
        assert("default"@.len() == 7);
        assert("performance"@.len() == 11);
        assert("power"@.len() == 5);
    }
}

impl std::str::FromStr for ScalingDriver {
    type Err = ParseError;

    fn from_str(s: &str) -> (r: Result<Self, ParseError>)
        ensures
            r == token_value::<ScalingDriver>(s@),
    {
        parse::<ScalingDriver>(s)
    }
}

impl std::str::FromStr for ScalingGovernor {
    type Err = ParseError;

    fn from_str(s: &str) -> (r: Result<Self, ParseError>)
        ensures
            r == token_value::<ScalingGovernor>(s@),
    {
        parse::<ScalingGovernor>(s)
    }
}

impl std::str::FromStr for EnergyPerformancePreference {
    type Err = ParseError;

    fn from_str(s: &str) -> (r: Result<Self, ParseError>)
        ensures
            r == token_value::<EnergyPerformancePreference>(s@),
    {
        parse::<EnergyPerformancePreference>(s)
    }
}

/// The file that names the scaling driver of `cpu`.
pub fn cpux_scaling_driver_path(cpu: Cpu) -> (p: String)
    ensures
        p@ == cpu.path() + "/cpufreq/scaling_driver"@,
{
    let mut p = cpu.to_path();
    p.append("/cpufreq/scaling_driver");
    p
}

/// The file that holds the active scaling governor of `cpu`; writing a
/// governor's token to it makes that governor the active one.
pub fn cpux_scaling_governor_path(cpu: Cpu) -> (p: String)
    ensures
        p@ == cpu.path() + "/cpufreq/scaling_governor"@,
{
    let mut p = cpu.to_path();
    p.append("/cpufreq/scaling_governor");
    p
}

/// The file that lists the scaling governors that `cpu` accepts.
pub fn cpux_scaling_governor_avail_path(cpu: Cpu) -> (p: String)
    ensures
        p@ == cpu.path() + "/cpufreq/scaling_available_governors"@,
{
    let mut p = cpu.to_path();
    p.append("/cpufreq/scaling_available_governors");
    p
}

/// The file that holds the active energy-performance preference of `cpu`;
/// writing a preference's token to it makes that preference the active one.
pub fn cpux_epp_path(cpu: Cpu) -> (p: String)
    ensures
        p@ == cpu.path() + "/cpufreq/energy_performance_preference"@,
{
    let mut p = cpu.to_path();
    p.append("/cpufreq/energy_performance_preference");
    p
}

/// The file that lists the energy-performance preferences that `cpu`
/// accepts.
pub fn cpux_epp_avail_path(cpu: Cpu) -> (p: String)
    ensures
        p@ == cpu.path() + "/cpufreq/energy_performance_available_preferences"@,
{
    let mut p = cpu.to_path();
    p.append("/cpufreq/energy_performance_available_preferences");
    p
}

/// The scaling driver of a CPU, from the outcome of reading the file at
/// `cpux_scaling_driver_path`.
pub fn cpux_scaling_driver(read: Result<String, IoError>) -> (r: Result<ScalingDriver, SysfsError>)
    ensures
        r == value_spec::<ScalingDriver>(read_text(read)),
{
    sysfs_parse::<ScalingDriver>(read)
}

/// The active scaling governor of a CPU, from the outcome of reading the
/// file at `cpux_scaling_governor_path`.
pub fn cpux_scaling_governor_active(read: Result<String, IoError>) -> (r: Result<
    ScalingGovernor,
    SysfsError,
>)
    ensures
        r == value_spec::<ScalingGovernor>(read_text(read)),
{
    sysfs_parse::<ScalingGovernor>(read)
}

/// The scaling governors that a CPU accepts, from the outcome of reading
/// the file at `cpux_scaling_governor_avail_path`.
pub fn cpux_scaling_governor_avail(read: Result<String, IoError>) -> (r: Result<
    ValueSet<ScalingGovernor>,
    SysfsError,
>)
    ensures
        match set_spec::<ScalingGovernor>(read_text(read)) {
            Ok(values) => r matches Ok(set) && set@ == values,
            Err(e) => r matches Err(f) && f == e,
        },
{
    sysfs_parse_set::<ScalingGovernor>(read)
}

/// The active energy-performance preference of a CPU, from the outcome of
/// reading the file at `cpux_epp_path`.
pub fn cpux_epp_active(read: Result<String, IoError>) -> (r: Result<
    EnergyPerformancePreference,
    SysfsError,
>)
    ensures
        r == value_spec::<EnergyPerformancePreference>(read_text(read)),
{
    sysfs_parse::<EnergyPerformancePreference>(read)
}

/// The energy-performance preferences that a CPU accepts, from the outcome
/// of reading the file at `cpux_epp_avail_path`.
pub fn cpux_epp_avail(read: Result<String, IoError>) -> (r: Result<
    ValueSet<EnergyPerformancePreference>,
    SysfsError,
>)
    ensures
        match set_spec::<EnergyPerformancePreference>(read_text(read)) {
            Ok(values) => r matches Ok(set) && set@ == values,
            Err(e) => r matches Err(f) && f == e,
        },
{
    sysfs_parse_set::<EnergyPerformancePreference>(read)
}

} // verus!
