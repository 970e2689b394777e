use amd_pstate_epp::amd_pstate::Status;
use amd_pstate_epp::cpu::{list_parse, Cpu};
use amd_pstate_epp::error::ParseError;
use amd_pstate_epp::policy::{ScalingDriver, ScalingGovernor};
use amd_pstate_epp::vocabulary::SysfsEnum;
use std::collections::HashSet;
use std::fmt::Debug;
use std::hash::Hash;
use std::str::FromStr;

fn test_sysfs_enum_parse<T>(tests: Vec<(&str, T)>) -> Result<(), ParseError>
where
    T: SysfsEnum + FromStr<Err = ParseError> + Debug + Eq + Hash,
{
    let mut variants = HashSet::<T>::new();
    // Check each string matches its variant
    for (string, value) in tests.iter() {
        assert_eq!(string.parse::<T>()?, *value);
        variants.insert(*value);
    }
    // Check all enum variants were tested
    assert_eq!(variants, HashSet::<T>::from_iter(T::all()));
    Ok(())
}

fn to_cpus(ranges: &[(usize, usize)]) -> Vec<Cpu> {
    let mut cpus = Vec::new();
    for (left, right) in ranges {
        for index in *left..=*right {
            cpus.push(Cpu::Index(index));
        }
    }
    cpus
}

#[test]
fn test_status_parse() -> Result<(), ParseError> {
    test_sysfs_enum_parse(vec![
        ("active", Status::Active),
        ("guided", Status::Guided),
        ("passive", Status::Passive),
    ])
}

#[test]
fn test_list_parse() -> Result<(), ParseError> {
    // Single element
    assert_eq!(list_parse("0")?, to_cpus(&[(0, 0)]));
    assert_eq!(list_parse("1000")?, to_cpus(&[(1000, 1000)]));
    // Two elements
    assert_eq!(list_parse("0,1000")?, to_cpus(&[(0, 0), (1000, 1000)]));
    assert_eq!(list_parse("1,1000")?, to_cpus(&[(1, 1), (1000, 1000)]));
    // Single range
    assert_eq!(list_parse("0-1000")?, to_cpus(&[(0, 1000)]));
    assert_eq!(list_parse("1-1000")?, to_cpus(&[(1, 1000)]));
    // Range and element
    assert_eq!(list_parse("0-4,6")?, to_cpus(&[(0, 4), (6, 6)]));
    // Two ranges
    assert_eq!(list_parse("0-4,6-8")?, to_cpus(&[(0, 4), (6, 8)]));
    // Inverse test
    assert_ne!(list_parse("0-3")?, to_cpus(&[(0, 4)]));
    Ok(())
}

#[test]
fn test_scaling_driver_parse() -> Result<(), ParseError> {
    test_sysfs_enum_parse(vec![
        ("acpi-cpufreq", ScalingDriver::AcpiCpufreq),
        ("amd-pstate", ScalingDriver::AmdPstate),
        ("amd-pstate-epp", ScalingDriver::AmdPstateEpp),
        ("cppc-cpufreq", ScalingDriver::CppcCpufreq),
        ("intel-cpufreq", ScalingDriver::IntelCpufreq),
        ("intel-pstate", ScalingDriver::IntelPstate),
        ("speedstep-lib", ScalingDriver::SpeedstepLib),
    ])
}

#[test]
fn test_scaling_governor_parse() -> Result<(), ParseError> {
    test_sysfs_enum_parse(vec![
        ("conservative", ScalingGovernor::Conservative),
        ("ondemand", ScalingGovernor::Ondemand),
        ("performance", ScalingGovernor::Performance),
        ("powersave", ScalingGovernor::Powersave),
        ("schedutil", ScalingGovernor::Schedutil),
        ("userspace", ScalingGovernor::Userspace),
    ])
}

#[test]
fn list_keeps_order_and_repetitions() {
    assert_eq!(list_parse("0-1,1"), Ok(to_cpus(&[(0, 1), (1, 1)])));
    assert_eq!(list_parse("6,0-2"), Ok(to_cpus(&[(6, 6), (0, 2)])));
    assert_eq!(list_parse("0-3,6,8-11"), Ok(to_cpus(&[(0, 3), (6, 6), (8, 11)])));
}

#[test]
fn list_of_one_to_thousand_has_thousand_cpus() {
    let cpus = list_parse("1-1000").unwrap();
    assert_eq!(cpus.len(), 1000);
    assert_eq!(cpus[0], Cpu::Index(1));
    assert_eq!(cpus[999], Cpu::Index(1000));
}

#[test]
fn range_of_equal_bounds_is_one_cpu() {
    assert_eq!(list_parse("2-2"), Ok(vec![Cpu::Index(2)]));
}

#[test]
fn list_accepts_plus_sign_and_leading_zeros() {
    assert_eq!(list_parse("+5"), Ok(vec![Cpu::Index(5)]));
    assert_eq!(list_parse("007"), Ok(vec![Cpu::Index(7)]));
}

#[test]
fn list_rejects_more_than_one_hyphen() {
    assert_eq!(list_parse("1-2-3"), Err(ParseError::MalformedRange));
    assert_eq!(list_parse("a-b-c"), Err(ParseError::MalformedRange));
    assert_eq!(list_parse("0,1--2"), Err(ParseError::MalformedRange));
}

#[test]
fn list_rejects_what_is_no_index() {
    assert_eq!(list_parse(""), Err(ParseError::NonNumeric));
    assert_eq!(list_parse("a"), Err(ParseError::NonNumeric));
    assert_eq!(list_parse("1-"), Err(ParseError::NonNumeric));
    assert_eq!(list_parse("-1"), Err(ParseError::NonNumeric));
    assert_eq!(list_parse("0,,1"), Err(ParseError::NonNumeric));
    assert_eq!(list_parse("0, 1"), Err(ParseError::NonNumeric));
    assert_eq!(list_parse("0-3\n"), Err(ParseError::NonNumeric));
    assert_eq!(list_parse("+"), Err(ParseError::NonNumeric));
    assert_eq!(list_parse("1_000"), Err(ParseError::NonNumeric));
}

#[test]
fn list_rejects_index_beyond_the_machine_word() {
    assert_eq!(list_parse("340282366920938463463374607431768211456"), Err(ParseError::NonNumeric));
    assert_eq!(list_parse(&usize::MAX.to_string()), Ok(vec![Cpu::Index(usize::MAX)]));
}

#[test]
fn list_rejects_right_below_left() {
    assert_eq!(list_parse("3-1"), Err(ParseError::RightLessThanLeft));
    assert_eq!(list_parse("0-4,9-8"), Err(ParseError::RightLessThanLeft));
}

#[test]
fn first_bad_segment_decides_the_error() {
    assert_eq!(list_parse("3-1,x"), Err(ParseError::RightLessThanLeft));
    assert_eq!(list_parse("x,3-1"), Err(ParseError::NonNumeric));
    assert_eq!(list_parse("0,1-2-3,x"), Err(ParseError::MalformedRange));
}

#[test]
fn tokens_are_case_sensitive_and_exact() {
    assert_eq!("Active".parse::<Status>(), Err(ParseError::UnknownToken));
    assert_eq!("active ".parse::<Status>(), Err(ParseError::UnknownToken));
    assert_eq!("".parse::<Status>(), Err(ParseError::UnknownToken));
    assert_eq!("amd_pstate_epp".parse::<ScalingDriver>(), Err(ParseError::UnknownToken));
    assert_eq!("amd-pstate-ep".parse::<ScalingDriver>(), Err(ParseError::UnknownToken));
}
