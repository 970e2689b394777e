//! What must hold at startup: the machine runs the AMD P-State driver in its
//! active mode on every CPU. No policy is touched before that is known.

use crate::amd_pstate::Status;
use crate::cpu::Cpu;
use crate::error::SysfsError;
use crate::policy::ScalingDriver;
use vstd::prelude::*;

verus! {

/// Why the machine is not in the supported configuration.
#[derive(Debug, Clone, Copy, PartialEq, Eq, Hash, Structural)]
pub enum PreconditionFailed {
    /// The mode of the AMD P-State driver could not be obtained.
    StatusUnknown(SysfsError),
    /// The AMD P-State driver runs, but not in its active mode.
    NotActive(Status),
    /// The CPUs of the machine could not be enumerated.
    CpusUnknown(SysfsError),
    /// The scaling driver of a CPU could not be obtained.
    DriverUnknown { cpu: Cpu, error: SysfsError },
    /// A CPU is scaled by a driver other than `amd-pstate-epp`.
    WrongDriver { cpu: Cpu, driver: ScalingDriver },
}

/// What was found out about the scaling driver of one CPU.
#[derive(Debug, Clone, Copy, PartialEq, Eq, Hash)]
pub struct DriverReading {
    pub cpu: Cpu,
    pub driver: Result<ScalingDriver, SysfsError>,
}

/// Proof that the machine was found in the supported configuration. Only
/// `is_amd_pstate` hands one out.
#[derive(Debug)]
pub struct Supported {
    witness: (),
}

impl DriverReading {
    /// Why this reading fails the precondition, if it does.
    pub open spec fn failure(self) -> Option<PreconditionFailed> {
        match self.driver {
            Err(error) => Some(PreconditionFailed::DriverUnknown { cpu: self.cpu, error }),
            Ok(driver) => if driver == ScalingDriver::AmdPstateEpp {
                None
            } else {
                Some(PreconditionFailed::WrongDriver { cpu: self.cpu, driver })
            },
        }
    }
}

/// The failure of the first reading that fails, if any does.
pub open spec fn first_failure(readings: Seq<DriverReading>) -> Option<PreconditionFailed>
    decreases readings.len(),
{
    if readings.len() == 0 {
        None
    } else {
        match readings[0].failure() {
            Some(f) => Some(f),
            None => first_failure(readings.drop_first()),
        }
    }
}

/// Why the machine fails the precondition, if it does: the driver's mode is
/// checked first, then the CPUs in their order.
pub open spec fn precondition_failure(
    status: Result<Status, SysfsError>,
    drivers: Result<Seq<DriverReading>, SysfsError>,
) -> Option<PreconditionFailed> {
    match status {
        Err(e) => Some(PreconditionFailed::StatusUnknown(e)),
        Ok(mode) => if mode != Status::Active {
            Some(PreconditionFailed::NotActive(mode))
        } else {
            match drivers {
                Err(e) => Some(PreconditionFailed::CpusUnknown(e)),
                Ok(readings) => first_failure(readings),
            }
        },
    }
}

/// The readings of a result, as a sequence.
pub open spec fn readings_of(drivers: Result<Vec<DriverReading>, SysfsError>) -> Result<
    Seq<DriverReading>,
    SysfsError,
> {
    match drivers {
        Ok(v) => Ok(v@),
        Err(e) => Err(e),
    }
}

/// No reading fails exactly if every CPU is known to run `amd-pstate-epp`;
/// otherwise the failure is that of the first CPU that is not.
pub proof fn lemma_first_failure(readings: Seq<DriverReading>)
    ensures
        first_failure(readings) is None <==> forall|i: int|
            0 <= i < readings.len() ==> (#[trigger] readings[i]).driver == Ok::<
                ScalingDriver,
                SysfsError,
            >(ScalingDriver::AmdPstateEpp),
        first_failure(readings) is Some ==> exists|i: int|
            0 <= i < readings.len() && first_failure(readings) == (#[trigger] readings[i]).failure()
                && forall|j: int| 0 <= j < i ==> (#[trigger] readings[j]).failure() is None,
    decreases readings.len(),
{
    if readings.len() > 0 {
        let rest = readings.drop_first();
        lemma_first_failure(rest);
        assert forall|i: int| 0 <= i < rest.len() implies rest[i] == readings[i + 1] by {}
        if readings[0].failure() is None {
            if first_failure(rest) is None {
                assert forall|i: int| 0 <= i < readings.len() implies (#[trigger] readings[i]).driver
                    == Ok::<ScalingDriver, SysfsError>(ScalingDriver::AmdPstateEpp) by {
                    if i > 0 {
                        assert(rest[i - 1] == readings[i]);
                    }
                }
            } else {
                let k = choose|k: int|
                    0 <= k < rest.len() && first_failure(rest) == (#[trigger] rest[k]).failure()
                        && forall|j: int| 0 <= j < k ==> (#[trigger] rest[j]).failure() is None;
                assert(rest[k] == readings[k + 1]);
                assert forall|j: int| 0 <= j < k + 1 implies (#[trigger] readings[j]).failure()
                    is None by {
                    if j > 0 {
                        assert(rest[j - 1] == readings[j]);
                    }
                }
                assert(first_failure(readings) == readings[k + 1].failure());
            }
        } else {
            assert(first_failure(readings) == readings[0].failure());
        }
    }
}

/// The precondition holds exactly if the driver is known to be in its active
/// mode and every CPU is known to run `amd-pstate-epp`. In particular it
/// fails whenever the mode is `guided` or `passive`, whatever the CPUs say.
pub proof fn lemma_precondition(
    status: Result<Status, SysfsError>,
    drivers: Result<Seq<DriverReading>, SysfsError>,
)
    ensures
        precondition_failure(status, drivers) is None <==> {
            &&& status == Ok::<Status, SysfsError>(Status::Active)
            &&& drivers matches Ok(readings)
            &&& forall|i: int|
                0 <= i < readings.len() ==> (#[trigger] readings[i]).driver == Ok::<
                    ScalingDriver,
                    SysfsError,
                >(ScalingDriver::AmdPstateEpp)
        },
{
    if let Ok(readings) = drivers {
        lemma_first_failure(readings);
    }
}

/// Decides whether the machine is in the supported configuration, from the
/// mode of the AMD P-State driver and from the scaling driver of every
/// possible CPU, in the order of the platform's list (or from the reason why
/// that list could not be had).
pub fn is_amd_pstate(
    status: Result<Status, SysfsError>,
    drivers: Result<Vec<DriverReading>, SysfsError>,
) -> (r: Result<Supported, PreconditionFailed>)
    ensures
        match precondition_failure(status, readings_of(drivers)) {
            None => r is Ok,
            Some(f) => r matches Err(e) && e == f,
        },
{
    match status {
        Err(e) => {
            return Err(PreconditionFailed::StatusUnknown(e));
        },
        Ok(mode) => {
            if mode != Status::Active {
                return Err(PreconditionFailed::NotActive(mode));
            }
        },
    }
    let readings = match drivers {
        Err(e) => {
            return Err(PreconditionFailed::CpusUnknown(e));
        },
        Ok(readings) => readings,
    };
    let mut i: usize = 0;
    assert(readings@.skip(0) =~= readings@);
    while i < readings.len()
        invariant
            i <= readings@.len(),
            precondition_failure(status, readings_of(drivers)) == first_failure(
                readings@.skip(i as int),
            ),
        decreases readings@.len() - i,
    {
        let reading = readings[i];
        assert(readings@.skip(i as int)[0] == reading);
        assert(readings@.skip(i as int).drop_first() =~= readings@.skip(i + 1));
        match reading.driver {
            Err(error) => {
                return Err(PreconditionFailed::DriverUnknown { cpu: reading.cpu, error });
            },
            Ok(driver) => {
                if driver != ScalingDriver::AmdPstateEpp {
                    return Err(PreconditionFailed::WrongDriver { cpu: reading.cpu, driver });
                }
            },
        }
        i = i + 1;
    }
    Ok(Supported { witness: () })
}

} // verus!
