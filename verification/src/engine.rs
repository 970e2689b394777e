//! The reconciliation engine: it maps an observed power profile to the
//! policy that every CPU is to have, compares that policy with what each CPU
//! reports, says what is to be written, and remembers the last profile that
//! was applied to every CPU without a fault.
//!
//! The engine does no I/O. Its caller reads the attribute files, hands the
//! outcomes in, performs the writes that the engine plans and reports those
//! that failed.

use crate::cpu::{possible, possible_spec, Cpu};
use crate::error::{IoError, SysfsError};
use crate::policy::{
    cpux_epp_path, cpux_scaling_governor_path, EnergyPerformancePreference, ScalingGovernor,
};
use crate::precondition::Supported;
use crate::profile::{
    active_profile_spec, power_profile_active, reply_text, DesiredPolicy, Profile, ProfileError,
};
use crate::vocabulary::{read_set, read_text, SysfsEnum, ValueSet};
use vstd::prelude::*;

verus! {

/// The attributes of a CPU that the engine sets.
#[derive(Debug, Clone, Copy, PartialEq, Eq, Hash, Structural)]
pub enum Attribute {
    Governor,
    Epp,
}

/// Why an attribute of a CPU was not brought to its desired value.
#[derive(Debug, Clone, Copy, PartialEq, Eq, Hash, Structural)]
pub enum FaultReason {
    /// The active value, or the set of accepted values, could not be
    /// obtained.
    Read(SysfsError),
    /// The CPU does not accept the desired value.
    UnsupportedValue,
    /// The write of the desired value failed.
    Write(IoError),
}

/// Something that kept a pass from applying its profile everywhere.
#[derive(Debug, Clone, Copy, PartialEq, Eq, Hash, Structural)]
pub enum Fault {
    /// The CPUs of the machine could not be enumerated.
    Enumeration(SysfsError),
    /// One attribute of one CPU was not brought to its desired value.
    Cpu { cpu: Cpu, attribute: Attribute, reason: FaultReason },
}

/// What is to be done about one attribute of one CPU.
#[derive(Debug, PartialEq, Eq)]
pub enum Change<T> {
    /// The attribute has its desired value already.
    Keep,
    /// The attribute is to be written with this value, which the CPU
    /// accepts.
    Write(T),
    /// Nothing is to be written, for this reason.
    Fault(FaultReason),
}

/// What was read about one CPU: the active value of each attribute, and the
/// values that the CPU accepts for it.
#[derive(Debug)]
pub struct CpuObservation {
    pub cpu: Cpu,
    pub governor: Result<ScalingGovernor, SysfsError>,
    pub governor_avail: Result<ValueSet<ScalingGovernor>, SysfsError>,
    pub epp: Result<EnergyPerformancePreference, SysfsError>,
    pub epp_avail: Result<ValueSet<EnergyPerformancePreference>, SysfsError>,
}

/// An observation, with mathematical sets for the accepted values.
pub ghost struct CpuState {
    pub cpu: Cpu,
    pub governor: Result<ScalingGovernor, SysfsError>,
    pub governor_avail: Result<Set<ScalingGovernor>, SysfsError>,
    pub epp: Result<EnergyPerformancePreference, SysfsError>,
    pub epp_avail: Result<Set<EnergyPerformancePreference>, SysfsError>,
}

impl View for CpuObservation {
    type V = CpuState;

    open spec fn view(&self) -> CpuState {
        CpuState {
            cpu: self.cpu,
            governor: self.governor,
            governor_avail: read_set(self.governor_avail),
            epp: self.epp,
            epp_avail: read_set(self.epp_avail),
        }
    }
}

/// What is to be done about the two attributes of one CPU. The governor
/// comes first.
#[derive(Debug, PartialEq, Eq)]
pub struct CpuPlan {
    pub cpu: Cpu,
    pub governor: Change<ScalingGovernor>,
    pub epp: Change<EnergyPerformancePreference>,
}

/// The decision for one attribute. An attribute that has its desired value
/// is kept, whatever the accepted values are. Otherwise the desired value is
/// written if the CPU is known to accept it, and a fault is recorded if not.
pub open spec fn change_spec<T>(
    desired: T,
    active: Result<T, SysfsError>,
    available: Result<Set<T>, SysfsError>,
) -> Change<T> {
    match active {
        Err(e) => Change::Fault(FaultReason::Read(e)),
        Ok(now) => if now == desired {
            Change::Keep
        } else {
            match available {
                Err(e) => Change::Fault(FaultReason::Read(e)),
                Ok(accepted) => if accepted.contains(desired) {
                    Change::Write(desired)
                } else {
                    Change::Fault(FaultReason::UnsupportedValue)
                },
            }
        },
    }
}

/// The decisions for one CPU: each attribute is decided by itself.
pub open spec fn plan_spec(desired: DesiredPolicy, state: CpuState) -> CpuPlan {
    CpuPlan {
        cpu: state.cpu,
        governor: change_spec(desired.governor, state.governor, state.governor_avail),
        epp: change_spec(desired.epp, state.epp, state.epp_avail),
    }
}

/// The fault that a decision records for its attribute, if it records one.
pub open spec fn change_fault<T>(cpu: Cpu, attribute: Attribute, change: Change<T>) -> Seq<Fault> {
    match change {
        Change::Fault(reason) => seq![Fault::Cpu { cpu, attribute, reason }],
        _ => Seq::empty(),
    }
}

/// The faults that a plan records, the governor's first.
pub open spec fn plan_faults(plan: CpuPlan) -> Seq<Fault> {
    change_fault(plan.cpu, Attribute::Governor, plan.governor) + change_fault(
        plan.cpu,
        Attribute::Epp,
        plan.epp,
    )
}

/// One write that a plan asks for: the token to put into the file at the
/// path.
#[derive(Debug)]
pub struct PlannedWrite {
    pub cpu: Cpu,
    pub attribute: Attribute,
    pub path: String,
    pub token: &'static str,
}

/// A planned write, with its path and token as plain text.
pub ghost struct WriteSpec {
    pub cpu: Cpu,
    pub attribute: Attribute,
    pub path: Seq<char>,
    pub token: Seq<char>,
}

impl View for PlannedWrite {
    type V = WriteSpec;

    open spec fn view(&self) -> WriteSpec {
        WriteSpec {
            cpu: self.cpu,
            attribute: self.attribute,
            path: self.path@,
            token: self.token@,
        }
    }
}

/// The file through which an attribute of a CPU is set.
pub open spec fn attribute_path(cpu: Cpu, attribute: Attribute) -> Seq<char> {
    match attribute {
        Attribute::Governor => cpu.path() + "/cpufreq/scaling_governor"@,
        Attribute::Epp => cpu.path() + "/cpufreq/energy_performance_preference"@,
    }
}

/// The write that a decision asks for, if it asks for one: the token of the
/// value, into the file of the attribute.
pub open spec fn change_write<T: SysfsEnum>(
    cpu: Cpu,
    attribute: Attribute,
    change: Change<T>,
) -> Seq<WriteSpec> {
    match change {
        Change::Write(value) => seq![
            WriteSpec { cpu, attribute, path: attribute_path(cpu, attribute), token: value.token() },
        ],
        _ => Seq::empty(),
    }
}

/// The writes that a plan asks for, the governor's first.
pub open spec fn plan_writes(plan: CpuPlan) -> Seq<WriteSpec> {
    change_write(plan.cpu, Attribute::Governor, plan.governor) + change_write(
        plan.cpu,
        Attribute::Epp,
        plan.epp,
    )
}

/// The planned writes of a list, each as plain text.
pub open spec fn writes_of(writes: Seq<PlannedWrite>) -> Seq<WriteSpec> {
    Seq::new(writes.len(), |i: int| writes[i]@)
}

/// The plans for a list of CPUs: one for each, in order.
pub open spec fn plans_spec(desired: DesiredPolicy, states: Seq<CpuState>) -> Seq<CpuPlan> {
    Seq::new(states.len(), |i: int| plan_spec(desired, states[i]))
}

/// The faults that the plans for a list of CPUs record, in order.
pub open spec fn faults_spec(desired: DesiredPolicy, states: Seq<CpuState>) -> Seq<Fault>
    decreases states.len(),
{
    if states.len() == 0 {
        Seq::empty()
    } else {
        faults_spec(desired, states.drop_last()) + plan_faults(plan_spec(desired, states.last()))
    }
}

/// The states that a list of observations stands for.
pub open spec fn states_of(observed: Seq<CpuObservation>) -> Seq<CpuState> {
    Seq::new(observed.len(), |i: int| observed[i]@)
}

/// Whether an observed profile starts a pass: it does unless it is the
/// profile that was applied last.
pub open spec fn starts_pass(last_applied: Option<Profile>, profile: Profile) -> bool {
    last_applied != Some(profile)
}

/// The profile that counts as applied after a pass for `profile`: the
/// profile itself if the pass was clean, and what it was before if not.
pub open spec fn after_pass(last_applied: Option<Profile>, profile: Profile, clean: bool) -> Option<
    Profile,
> {
    if clean {
        Some(profile)
    } else {
        last_applied
    }
}

/// Once a profile was applied in a clean pass, observing it again starts no
/// pass, so nothing is written for it.
pub proof fn lemma_applied_profile_is_not_reapplied(last_applied: Option<Profile>, profile: Profile)
    ensures
        !starts_pass(after_pass(last_applied, profile, true), profile),
{
}

/// A pass that recorded a fault does not count: the same profile, observed
/// again, starts a pass again.
pub proof fn lemma_faulty_pass_is_retried(last_applied: Option<Profile>, profile: Profile)
    requires
        starts_pass(last_applied, profile),
    ensures
        starts_pass(after_pass(last_applied, profile, false), profile),
{
}

/// What is planned for a CPU depends on what was observed of that CPU and on
/// nothing else: not on the other CPUs of the list, and not on their faults.
pub proof fn lemma_cpu_isolation(
    desired: DesiredPolicy,
    a: Seq<CpuState>,
    b: Seq<CpuState>,
    i: int,
    j: int,
)
    requires
        0 <= i < a.len(),
        0 <= j < b.len(),
        a[i] == b[j],
    ensures
        plans_spec(desired, a)[i] == plans_spec(desired, b)[j],
        plans_spec(desired, a)[i] == plan_spec(desired, a[i]),
{
}

/// A write is planned only for a value that the CPU is known to accept and
/// that differs from the active one; and it is always the desired value.
pub proof fn lemma_write_is_accepted<T>(
    desired: T,
    active: Result<T, SysfsError>,
    available: Result<Set<T>, SysfsError>,
    value: T,
)
    requires
        change_spec(desired, active, available) == Change::Write(value),
    ensures
        value == desired,
        active matches Ok(now) && now != desired,
        available matches Ok(accepted) && accepted.contains(value),
{
}

/// Where a CPU does not accept the desired preference, that fault is
/// recorded for that CPU, nothing is written to its preference, and its
/// governor is decided as if the preference were in order.
pub proof fn lemma_unsupported_epp_is_reported(desired: DesiredPolicy, state: CpuState)
    requires
        state.epp matches Ok(now) && now != desired.epp,
        state.epp_avail matches Ok(accepted) && !accepted.contains(desired.epp),
    ensures
        plan_spec(desired, state).epp == Change::<EnergyPerformancePreference>::Fault(
            FaultReason::UnsupportedValue,
        ),
        plan_spec(desired, state).governor == change_spec(
            desired.governor,
            state.governor,
            state.governor_avail,
        ),
        plan_faults(plan_spec(desired, state)).contains(
            Fault::Cpu {
                cpu: state.cpu,
                attribute: Attribute::Epp,
                reason: FaultReason::UnsupportedValue,
            },
        ),
        change_write(state.cpu, Attribute::Epp, plan_spec(desired, state).epp) == Seq::<
            WriteSpec,
        >::empty(),
{
    let plan = plan_spec(desired, state);
    let fault = Fault::Cpu {
        cpu: state.cpu,
        attribute: Attribute::Epp,
        reason: FaultReason::UnsupportedValue,
    };
    let own = change_fault(plan.cpu, Attribute::Epp, plan.epp);
    let before = change_fault(plan.cpu, Attribute::Governor, plan.governor);
    assert(own[0] == fault);
    assert((before + own)[before.len() as int] == fault);
}

/// Decides what is to be done about one attribute.
pub fn decide<T: SysfsEnum>(
    desired: T,
    active: &Result<T, SysfsError>,
    available: &Result<ValueSet<T>, SysfsError>,
) -> (change: Change<T>)
    ensures
        change == change_spec(desired, *active, read_set(*available)),
{
    match active {
        Err(e) => Change::Fault(FaultReason::Read(*e)),
        Ok(now) => {
            if now.same(&desired) {
                Change::Keep
            } else {
                match available {
                    Err(e) => Change::Fault(FaultReason::Read(*e)),
                    Ok(accepted) => {
                        if accepted.contains(desired) {
                            Change::Write(desired)
                        } else {
                            Change::Fault(FaultReason::UnsupportedValue)
                        }
                    },
                }
            }
        },
    }
}

impl CpuPlan {
    /// The writes that this plan asks for, in the order in which they are to
    /// be made: the governor's before the preference's.
    pub fn writes(&self) -> (writes: Vec<PlannedWrite>)
        ensures
            writes_of(writes@) == plan_writes(*self),
    {
        let mut writes: Vec<PlannedWrite> = Vec::new();
        match &self.governor {
            Change::Write(value) => {
                writes.push(
                    PlannedWrite {
                        cpu: self.cpu,
                        attribute: Attribute::Governor,
                        path: cpux_scaling_governor_path(self.cpu),
                        token: value.as_str(),
                    },
                );
            },
            _ => {},
        }
        match &self.epp {
            Change::Write(value) => {
                writes.push(
                    PlannedWrite {
                        cpu: self.cpu,
                        attribute: Attribute::Epp,
                        path: cpux_epp_path(self.cpu),
                        token: value.as_str(),
                    },
                );
            },
            _ => {},
        }
        assert(writes_of(writes@) =~= plan_writes(*self));
        writes
    }
}

/// One reconciliation pass: the application of one profile to the CPUs of
/// the machine, with the faults met so far.
#[derive(Debug)]
pub struct Pass {
    profile: Profile,
    faults: Vec<Fault>,
}

impl Pass {
    /// The profile that this pass applies.
    pub closed spec fn profile(&self) -> Profile {
        self.profile
    }

    /// The faults that this pass has recorded, in order.
    pub closed spec fn faults(&self) -> Seq<Fault> {
        self.faults@
    }

    /// Whether this pass has recorded no fault.
    pub open spec fn clean(&self) -> bool {
        self.faults().len() == 0
    }

    /// The profile that this pass applies.
    pub fn target(&self) -> (p: Profile)
        ensures
            p == self.profile(),
    {
        self.profile
    }

    /// The policy that this pass brings every CPU to.
    pub fn desired(&self) -> (d: DesiredPolicy)
        ensures
            d == self.profile().policy(),
    {
        self.profile.desired_policy()
    }

    /// Whether this pass has recorded no fault so far.
    pub fn is_clean(&self) -> (b: bool)
        ensures
            b == self.clean(),
    {
        self.faults.len() == 0
    }

    /// The CPUs that this pass is to visit, from the outcome of reading the
    /// platform's list of possible CPUs. Where there is no such list, the
    /// pass records a fault and visits no CPU.
    pub fn enumerate(&mut self, read: Result<String, IoError>) -> (cpus: Vec<Cpu>)
        ensures
            final(self).profile() == old(self).profile(),
            match possible_spec(read_text(read)) {
                Ok(list) => cpus@ == list && final(self).faults() == old(self).faults(),
                Err(e) => cpus@ == Seq::<Cpu>::empty() && final(self).faults() == old(
                    self,
                ).faults().push(Fault::Enumeration(e)),
            },
    {
        match possible(read) {
            Ok(cpus) => cpus,
            Err(e) => {
                self.faults.push(Fault::Enumeration(e));
                Vec::new()
            },
        }
    }

    /// Plans what is to be written for one CPU, and records the faults of
    /// the plan. The plan depends on the profile and on the observation
    /// alone; faults recorded before do not change it.
    pub fn reconcile_cpu(&mut self, observed: &CpuObservation) -> (plan: CpuPlan)
        ensures
            plan == plan_spec(old(self).profile().policy(), observed@),
            final(self).profile() == old(self).profile(),
            final(self).faults() == old(self).faults() + plan_faults(plan),
    {
        let desired = self.profile.desired_policy();
        let governor = decide(desired.governor, &observed.governor, &observed.governor_avail);
        let epp = decide(desired.epp, &observed.epp, &observed.epp_avail);
        let ghost before = self.faults@;
        match governor {
            Change::Fault(reason) => {
                self.faults.push(
                    Fault::Cpu { cpu: observed.cpu, attribute: Attribute::Governor, reason },
                );
            },
            _ => {},
        }
        match epp {
            Change::Fault(reason) => {
                self.faults.push(
                    Fault::Cpu { cpu: observed.cpu, attribute: Attribute::Epp, reason },
                );
            },
            _ => {},
        }
        let plan = CpuPlan { cpu: observed.cpu, governor, epp };
        assert(self.faults@ =~= before + plan_faults(plan));
        plan
    }

    /// Plans what is to be written for every CPU of a list, in order, and
    /// records the faults of the plans. A fault of one CPU neither ends the
    /// pass nor changes what is planned for another.
    pub fn reconcile(&mut self, observed: &Vec<CpuObservation>) -> (plans: Vec<CpuPlan>)
        ensures
            plans@ == plans_spec(old(self).profile().policy(), states_of(observed@)),
            final(self).profile() == old(self).profile(),
            final(self).faults() == old(self).faults() + faults_spec(
                old(self).profile().policy(),
                states_of(observed@),
            ),
    {
        let ghost desired = self.profile.policy();
        let ghost states = states_of(observed@);
        let ghost before = self.faults@;
        let mut plans: Vec<CpuPlan> = Vec::new();
        let mut i: usize = 0;
        assert(states.take(0) =~= Seq::<CpuState>::empty());
        assert(before + faults_spec(desired, states.take(0)) =~= before);
        while i < observed.len()
            invariant
                i <= observed@.len(),
                states == states_of(observed@),
                self.profile() == old(self).profile(),
                desired == self.profile().policy(),
                before == old(self).faults(),
                plans@ == plans_spec(desired, states.take(i as int)),
                self.faults() == before + faults_spec(desired, states.take(i as int)),
            decreases observed@.len() - i,
        {
            let plan = self.reconcile_cpu(&observed[i]);
            plans.push(plan);
            proof {
                let next = states.take(i + 1);
                assert(next.drop_last() =~= states.take(i as int));
                assert(next.last() == observed@[i as int]@);
                assert(plans@ =~= plans_spec(desired, next));
                assert(self.faults() =~= before + faults_spec(desired, next));
            }
            i = i + 1;
        }
        assert(states.take(observed@.len() as int) =~= states);
        plans
    }

    /// Records that a planned write failed.
    pub fn write_failed(&mut self, write: &PlannedWrite, error: IoError)
        ensures
            final(self).profile() == old(self).profile(),
            final(self).faults() == old(self).faults().push(
                Fault::Cpu {
                    cpu: write.cpu,
                    attribute: write.attribute,
                    reason: FaultReason::Write(error),
                },
            ),
    {
        self.faults.push(
            Fault::Cpu {
                cpu: write.cpu,
                attribute: write.attribute,
                reason: FaultReason::Write(error),
            },
        );
    }
}

/// The engine between passes: it knows the last profile that was applied to
/// every CPU without a fault, or that there was none.
#[derive(Debug)]
pub struct Engine {
    last_applied: Option<Profile>,
}

impl Engine {
    /// The last profile that was applied in a clean pass.
    pub closed spec fn last(&self) -> Option<Profile> {
        self.last_applied
    }

    /// An engine for a machine that was found in the supported
    /// configuration. No profile counts as applied yet, so that the first
    /// observed profile is applied whatever it is.
    pub fn new(_supported: Supported) -> (engine: Engine)
        ensures
            engine.last() is None,
    {
        Engine { last_applied: None }
    }

    /// The last profile that was applied in a clean pass.
    pub fn last_applied(&self) -> (p: Option<Profile>)
        ensures
            p == self.last(),
    {
        self.last_applied
    }

    /// Takes note of an observed profile. For the profile that was applied
    /// last there is nothing to do; for any other a pass begins.
    pub fn begin(&self, profile: Profile) -> (pass: Option<Pass>)
        ensures
            pass is Some == starts_pass(self.last(), profile),
            pass matches Some(p) ==> p.profile() == profile && p.clean(),
    {
        match self.last_applied {
            Some(last) => {
                if last == profile {
                    return None;
                }
            },
            None => {},
        }
        Some(Pass { profile, faults: Vec::new() })
    }

    /// Takes note of an answer of the profile service. An answer that names
    /// no known profile starts nothing and is reported; any other is handled
    /// as `begin` handles the profile that it names.
    pub fn observe(&self, reply: Option<String>) -> (r: Result<Option<Pass>, ProfileError>)
        ensures
            match active_profile_spec(reply_text(reply)) {
                Err(e) => r matches Err(f) && f == e,
                Ok(profile) => {
                    &&& r matches Ok(pass)
                    &&& pass is Some == starts_pass(self.last(), profile)
                    &&& pass matches Some(p) ==> p.profile() == profile && p.clean()
                },
            },
    {
        match power_profile_active(reply) {
            Err(e) => Err(e),
            Ok(profile) => Ok(self.begin(profile)),
        }
    }

    /// Ends a pass and hands out its faults. The profile of a clean pass
    /// becomes the one applied last; a pass with faults changes nothing.
    pub fn finish(&mut self, pass: Pass) -> (faults: Vec<Fault>)
        ensures
            faults@ == pass.faults(),
            final(self).last() == after_pass(old(self).last(), pass.profile(), pass.clean()),
    {
        if pass.faults.len() == 0 {
            self.last_applied = Some(pass.profile);
        }
        pass.faults
    }
}

} // verus!
