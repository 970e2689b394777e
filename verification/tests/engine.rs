use amd_pstate_epp::amd_pstate::Status;
use amd_pstate_epp::cpu::Cpu;
use amd_pstate_epp::engine::{
    decide, Attribute, Change, CpuObservation, CpuPlan, Engine, Fault, FaultReason,
};
use amd_pstate_epp::error::{IoError, ParseError, SysfsError};
use amd_pstate_epp::policy::{EnergyPerformancePreference, ScalingDriver, ScalingGovernor};
use amd_pstate_epp::precondition::{is_amd_pstate, DriverReading, PreconditionFailed};
use amd_pstate_epp::profile::{Profile, ProfileError};
use amd_pstate_epp::vocabulary::{SysfsEnum, ValueSet};

fn set_of<T: SysfsEnum>(values: &[T]) -> Result<ValueSet<T>, SysfsError> {
    let mut set = ValueSet::new();
    for value in values {
        set.insert(*value);
    }
    Ok(set)
}

fn epp_driver(index: usize) -> DriverReading {
    DriverReading { cpu: Cpu::Index(index), driver: Ok(ScalingDriver::AmdPstateEpp) }
}

fn engine() -> Engine {
    Engine::new(is_amd_pstate(Ok(Status::Active), Ok(vec![epp_driver(0)])).unwrap())
}

fn all_epps() -> Vec<EnergyPerformancePreference> {
    EnergyPerformancePreference::all()
}

fn observation(
    index: usize,
    governor: ScalingGovernor,
    epp: EnergyPerformancePreference,
    epps: &[EnergyPerformancePreference],
) -> CpuObservation {
    CpuObservation {
        cpu: Cpu::Index(index),
        governor: Ok(governor),
        governor_avail: set_of(&[ScalingGovernor::Performance, ScalingGovernor::Powersave]),
        epp: Ok(epp),
        epp_avail: set_of(epps),
    }
}

fn unsupported(index: usize, attribute: Attribute) -> Fault {
    Fault::Cpu { cpu: Cpu::Index(index), attribute, reason: FaultReason::UnsupportedValue }
}

#[test]
fn precondition_holds_when_all_is_as_it_must_be() {
    let drivers = (0..8).map(epp_driver).collect();
    assert!(is_amd_pstate(Ok(Status::Active), Ok(drivers)).is_ok());
    assert!(is_amd_pstate(Ok(Status::Active), Ok(vec![])).is_ok());
}

#[test]
fn guided_status_fails_the_precondition() {
    let drivers: Vec<DriverReading> = (0..8).map(epp_driver).collect();
    assert_eq!(
        is_amd_pstate(Ok(Status::Guided), Ok(drivers)).err(),
        Some(PreconditionFailed::NotActive(Status::Guided))
    );
    assert_eq!(
        is_amd_pstate(Ok(Status::Passive), Ok(vec![])).err(),
        Some(PreconditionFailed::NotActive(Status::Passive))
    );
}

#[test]
fn unknown_status_fails_the_precondition() {
    for error in [
        SysfsError::Io(IoError::NotFound),
        SysfsError::Io(IoError::PermissionDenied),
        SysfsError::Parse(ParseError::UnknownToken),
    ] {
        assert_eq!(
            is_amd_pstate(Err(error), Ok(vec![epp_driver(0)])).err(),
            Some(PreconditionFailed::StatusUnknown(error))
        );
    }
}

#[test]
fn status_is_judged_before_the_cpus() {
    let wrong = DriverReading { cpu: Cpu::Index(0), driver: Ok(ScalingDriver::AcpiCpufreq) };
    assert_eq!(
        is_amd_pstate(Ok(Status::Guided), Ok(vec![wrong])).err(),
        Some(PreconditionFailed::NotActive(Status::Guided))
    );
    assert_eq!(
        is_amd_pstate(Ok(Status::Guided), Err(SysfsError::Io(IoError::NotFound))).err(),
        Some(PreconditionFailed::NotActive(Status::Guided))
    );
}

#[test]
fn unknown_cpus_fail_the_precondition() {
    let error = SysfsError::Parse(ParseError::RightLessThanLeft);
    assert_eq!(
        is_amd_pstate(Ok(Status::Active), Err(error)).err(),
        Some(PreconditionFailed::CpusUnknown(error))
    );
}

#[test]
fn first_failing_cpu_fails_the_precondition() {
    let mut drivers: Vec<DriverReading> = (0..8).map(epp_driver).collect();
    drivers[5].driver = Ok(ScalingDriver::AcpiCpufreq);
    drivers[2].driver = Ok(ScalingDriver::AmdPstate);
    assert_eq!(
        is_amd_pstate(Ok(Status::Active), Ok(drivers)).err(),
        Some(PreconditionFailed::WrongDriver {
            cpu: Cpu::Index(2),
            driver: ScalingDriver::AmdPstate
        })
    );
    let mut drivers: Vec<DriverReading> = (0..4).map(epp_driver).collect();
    drivers[3].driver = Ok(ScalingDriver::IntelPstate);
    drivers[1].driver = Err(SysfsError::Io(IoError::NotFound));
    assert_eq!(
        is_amd_pstate(Ok(Status::Active), Ok(drivers)).err(),
        Some(PreconditionFailed::DriverUnknown {
            cpu: Cpu::Index(1),
            error: SysfsError::Io(IoError::NotFound)
        })
    );
}

#[test]
fn attribute_with_desired_value_is_kept() {
    let none: Result<ValueSet<ScalingGovernor>, SysfsError> = set_of(&[]);
    assert_eq!(
        decide(ScalingGovernor::Powersave, &Ok(ScalingGovernor::Powersave), &none),
        Change::Keep
    );
    let unreadable: Result<ValueSet<ScalingGovernor>, SysfsError> =
        Err(SysfsError::Io(IoError::NotFound));
    assert_eq!(
        decide(ScalingGovernor::Powersave, &Ok(ScalingGovernor::Powersave), &unreadable),
        Change::Keep
    );
}

#[test]
fn accepted_value_is_written() {
    let accepted = set_of(&[ScalingGovernor::Performance, ScalingGovernor::Powersave]);
    assert_eq!(
        decide(ScalingGovernor::Powersave, &Ok(ScalingGovernor::Performance), &accepted),
        Change::Write(ScalingGovernor::Powersave)
    );
}

#[test]
fn value_that_is_not_accepted_is_a_fault() {
    let accepted = set_of(&[ScalingGovernor::Performance, ScalingGovernor::Schedutil]);
    assert_eq!(
        decide(ScalingGovernor::Powersave, &Ok(ScalingGovernor::Performance), &accepted),
        Change::Fault(FaultReason::UnsupportedValue)
    );
}

#[test]
fn unreadable_attribute_is_a_fault() {
    let accepted = set_of(&[ScalingGovernor::Powersave]);
    let read = SysfsError::Io(IoError::NotFound);
    assert_eq!(
        decide(ScalingGovernor::Powersave, &Err(read), &accepted),
        Change::Fault(FaultReason::Read(read))
    );
    let parse = SysfsError::Parse(ParseError::UnknownToken);
    assert_eq!(
        decide(ScalingGovernor::Powersave, &Ok(ScalingGovernor::Ondemand), &Err(parse)),
        Change::Fault(FaultReason::Read(parse))
    );
}

#[test]
fn first_profile_is_applied_whatever_it_is() {
    for profile in Profile::all() {
        let engine = engine();
        assert_eq!(engine.last_applied(), None);
        let pass = engine.begin(profile).unwrap();
        assert_eq!(pass.target(), profile);
        assert_eq!(pass.desired(), profile.desired_policy());
        assert!(pass.is_clean());
    }
}

#[test]
fn same_profile_twice_writes_nothing_the_second_time() {
    let mut engine = engine();
    let mut pass = engine.begin(Profile::Balanced).unwrap();
    let cpus = pass.enumerate(Ok("0-1\n".to_string()));
    assert_eq!(cpus, vec![Cpu::Index(0), Cpu::Index(1)]);
    let mut written = 0;
    for cpu in cpus {
        let seen = observation(
            cpu.to_index(),
            ScalingGovernor::Performance,
            EnergyPerformancePreference::Performance,
            &all_epps(),
        );
        written += pass.reconcile_cpu(&seen).writes().len();
    }
    assert_eq!(written, 4);
    assert_eq!(engine.finish(pass), vec![]);
    assert_eq!(engine.last_applied(), Some(Profile::Balanced));
    assert!(engine.begin(Profile::Balanced).is_none());
    assert!(engine.begin(Profile::Balanced).is_none());
    assert!(engine.begin(Profile::PowerSaver).is_some());
}

#[test]
fn cpu_in_desired_state_gets_no_write() {
    let engine = engine();
    let mut pass = engine.begin(Profile::PowerSaver).unwrap();
    let seen = observation(
        0,
        ScalingGovernor::Powersave,
        EnergyPerformancePreference::Power,
        &all_epps(),
    );
    let plan = pass.reconcile_cpu(&seen);
    assert_eq!(plan, CpuPlan { cpu: Cpu::Index(0), governor: Change::Keep, epp: Change::Keep });
    assert!(plan.writes().is_empty());
    assert!(pass.is_clean());
}

#[test]
fn writes_name_path_and_token_governor_first() {
    let engine = engine();
    let mut pass = engine.begin(Profile::Balanced).unwrap();
    let seen = observation(
        11,
        ScalingGovernor::Performance,
        EnergyPerformancePreference::Performance,
        &all_epps(),
    );
    let writes = pass.reconcile_cpu(&seen).writes();
    assert_eq!(writes.len(), 2);
    assert_eq!(writes[0].cpu, Cpu::Index(11));
    assert_eq!(writes[0].attribute, Attribute::Governor);
    assert_eq!(writes[0].path, "/sys/devices/system/cpu/cpu11/cpufreq/scaling_governor");
    assert_eq!(writes[0].token, "powersave");
    assert_eq!(writes[1].cpu, Cpu::Index(11));
    assert_eq!(writes[1].attribute, Attribute::Epp);
    assert_eq!(
        writes[1].path,
        "/sys/devices/system/cpu/cpu11/cpufreq/energy_performance_preference"
    );
    assert_eq!(writes[1].token, "balance_performance");
}

#[test]
fn one_cpu_without_the_preference_does_not_stop_the_others() {
    let mut engine = engine();
    let mut pass = engine.begin(Profile::Balanced).unwrap();
    let without = [EnergyPerformancePreference::Performance, EnergyPerformancePreference::Power];
    let every = all_epps();
    let observed: Vec<CpuObservation> = (0..8)
        .map(|index| {
            observation(
                index,
                ScalingGovernor::Performance,
                EnergyPerformancePreference::Performance,
                if index == 3 { &without } else { &every[..] },
            )
        })
        .collect();
    let plans = pass.reconcile(&observed);
    assert_eq!(plans.len(), 8);
    for (index, plan) in plans.iter().enumerate() {
        assert_eq!(plan.cpu, Cpu::Index(index));
        assert_eq!(plan.governor, Change::Write(ScalingGovernor::Powersave));
        if index == 3 {
            assert_eq!(plan.epp, Change::Fault(FaultReason::UnsupportedValue));
            assert_eq!(plan.writes().len(), 1);
        } else {
            assert_eq!(plan.epp, Change::Write(EnergyPerformancePreference::BalancePerformance));
            assert_eq!(plan.writes().len(), 2);
        }
    }
    assert!(!pass.is_clean());
    assert_eq!(engine.finish(pass), vec![unsupported(3, Attribute::Epp)]);
    assert_eq!(engine.last_applied(), None);
    assert!(engine.begin(Profile::Balanced).is_some());
}

#[test]
fn plan_for_a_cpu_is_the_same_alone_and_in_a_list() {
    let engine = engine();
    let make = |index| {
        observation(
            index,
            if index % 2 == 0 { ScalingGovernor::Performance } else { ScalingGovernor::Powersave },
            EnergyPerformancePreference::Default,
            if index % 3 == 0 { &[] } else { &[EnergyPerformancePreference::Power] },
        )
    };
    let mut together = engine.begin(Profile::PowerSaver).unwrap();
    let plans = together.reconcile(&(0..6).map(make).collect());
    for index in 0..6 {
        let mut alone = engine.begin(Profile::PowerSaver).unwrap();
        assert_eq!(alone.reconcile_cpu(&make(index)), plans[index]);
    }
}

#[test]
fn faults_of_one_cpu_come_governor_first() {
    let mut engine = engine();
    let mut pass = engine.begin(Profile::Performance).unwrap();
    let seen = CpuObservation {
        cpu: Cpu::Index(4),
        governor: Ok(ScalingGovernor::Powersave),
        governor_avail: set_of(&[ScalingGovernor::Powersave]),
        epp: Err(SysfsError::Io(IoError::NotFound)),
        epp_avail: Err(SysfsError::Io(IoError::NotFound)),
    };
    let plan = pass.reconcile_cpu(&seen);
    assert!(plan.writes().is_empty());
    assert_eq!(
        engine.finish(pass),
        vec![
            unsupported(4, Attribute::Governor),
            Fault::Cpu {
                cpu: Cpu::Index(4),
                attribute: Attribute::Epp,
                reason: FaultReason::Read(SysfsError::Io(IoError::NotFound)),
            },
        ]
    );
}

#[test]
fn failed_write_keeps_the_profile_from_counting() {
    let mut engine = engine();
    let pass = engine.begin(Profile::Performance).unwrap();
    assert_eq!(engine.finish(pass), vec![]);
    assert_eq!(engine.last_applied(), Some(Profile::Performance));

    let mut pass = engine.begin(Profile::Balanced).unwrap();
    let seen = observation(
        0,
        ScalingGovernor::Performance,
        EnergyPerformancePreference::Performance,
        &all_epps(),
    );
    let writes = pass.reconcile_cpu(&seen).writes();
    pass.write_failed(&writes[1], IoError::PermissionDenied);
    assert_eq!(
        engine.finish(pass),
        vec![Fault::Cpu {
            cpu: Cpu::Index(0),
            attribute: Attribute::Epp,
            reason: FaultReason::Write(IoError::PermissionDenied),
        }]
    );
    assert_eq!(engine.last_applied(), Some(Profile::Performance));
    assert!(engine.begin(Profile::Balanced).is_some());
    assert!(engine.begin(Profile::Performance).is_none());
}

#[test]
fn pass_without_cpu_list_visits_no_cpu_and_does_not_count() {
    let mut engine = engine();
    let mut pass = engine.begin(Profile::Balanced).unwrap();
    assert_eq!(pass.enumerate(Err(IoError::NotFound)), vec![]);
    assert_eq!(pass.enumerate(Ok("3-0".to_string())), vec![]);
    assert_eq!(
        engine.finish(pass),
        vec![
            Fault::Enumeration(SysfsError::Io(IoError::NotFound)),
            Fault::Enumeration(SysfsError::Parse(ParseError::RightLessThanLeft)),
        ]
    );
    assert_eq!(engine.last_applied(), None);
}

#[test]
fn notification_with_unknown_profile_is_skipped() {
    let mut engine = engine();
    assert_eq!(engine.observe(Some("turbo".to_string())).err(), Some(ProfileError::Unrecognized));
    assert_eq!(engine.observe(None).err(), Some(ProfileError::Unavailable));
    let pass = engine.observe(Some("balanced".to_string())).unwrap().unwrap();
    assert_eq!(pass.target(), Profile::Balanced);
    engine.finish(pass);
    assert!(engine.observe(Some("balanced".to_string())).unwrap().is_none());
    assert_eq!(engine.observe(Some("Balanced".to_string())).err(), Some(ProfileError::Unrecognized));
    assert_eq!(engine.last_applied(), Some(Profile::Balanced));
}
