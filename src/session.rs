//! One run of a request as a sequence of register accesses. The session says
//! which access comes next; whoever owns the registers performs it and hands
//! back what happened.
use vstd::prelude::*;
use crate::policy::{
    adjust_limits, adjusted, check_request, conflicting, empty_report, out_of_range, sets_limits,
    touches_limits, turbo_ratio_entry, with_limits, with_ratios, ConfigError, LimitReading,
    Report, Request,
};
use crate::registers::{
    bit, msr_platform_info, msr_temperature_target, msr_turbo_limits, msr_turbo_ratios, field,
    turbo_limits_of, turbo_ratios_of, MSR_PLATFORM_INFO, MSR_TEMPERATURE_TARGET, MSR_TURBO_LIMITS,
    MSR_TURBO_RATIOS,
};

verus! {

/// The access a session waits on.
#[derive(Clone, Copy, Debug, PartialEq, Eq)]
pub enum Stage {
    PlatformInfo,
    TurboLimits,
    LimitsWrite,
    TemperatureTarget,
    TurboRatios,
    Finished,
}

/// One register access, on core 0.
#[derive(Clone, Copy, Debug, PartialEq, Eq)]
pub enum Access {
    Read(u32),
    Write(u32, u64),
}

/// What the session asks for next.
#[derive(Clone, Copy, Debug, PartialEq, Eq)]
pub enum Action {
    Perform(Access),
    Complete(Report),
    Abort(ConfigError),
}

/// What came of the access last asked for.
#[derive(Clone, Copy, Debug, PartialEq, Eq)]
pub enum Reply {
    Value(u64),
    Written,
    Failed,
}

#[derive(Clone, Copy, Debug, PartialEq, Eq)]
pub struct Session {
    pub request: Request,
    pub stage: Stage,
    pub report: Report,
}

/// The first read the request needs, among those at position `from` or
/// later of: platform information, turbo limits, temperature target, turbo
/// ratios.
pub open spec fn first_needed(req: Request, from: int) -> Stage {
    if from <= 0 && sets_limits(req) {
        Stage::PlatformInfo
    } else if from <= 1 && touches_limits(req) {
        Stage::TurboLimits
    } else if from <= 2 && req.get_tjmax {
        Stage::TemperatureTarget
    } else if from <= 3 && req.get_turbo_ratios {
        Stage::TurboRatios
    } else {
        Stage::Finished
    }
}

/// How many accesses a session waiting on `stage` may still make.
pub open spec fn remaining(stage: Stage) -> nat {
    match stage {
        Stage::PlatformInfo => 5,
        Stage::TurboLimits => 4,
        Stage::LimitsWrite => 3,
        Stage::TemperatureTarget => 2,
        Stage::TurboRatios => 1,
        Stage::Finished => 0,
    }
}

pub open spec fn address_of(stage: Stage) -> u32 {
    match stage {
        Stage::PlatformInfo => MSR_PLATFORM_INFO,
        Stage::TemperatureTarget => MSR_TEMPERATURE_TARGET,
        Stage::TurboRatios => MSR_TURBO_RATIOS,
        _ => MSR_TURBO_LIMITS,
    }
}

/// Waits on `stage`: reads its register, or completes with `report`.
pub open spec fn enter(req: Request, report: Report, stage: Stage) -> (Session, Action) {
    (
        Session { request: req, stage, report },
        if stage == Stage::Finished {
            Action::Complete(report)
        } else {
            Action::Perform(Access::Read(address_of(stage)))
        },
    )
}

pub open spec fn abort(s: Session, e: ConfigError) -> (Session, Action) {
    (Session { stage: Stage::Finished, ..s }, Action::Abort(e))
}

/// How a session begins.
pub open spec fn start_spec(req: Request, privileged: bool, cpu_supported: bool) -> (
    Session,
    Action,
) {
    let s = Session { request: req, stage: Stage::Finished, report: empty_report() };
    if !privileged {
        abort(s, ConfigError::InsufficientPrivilege)
    } else if !cpu_supported {
        abort(s, ConfigError::UnsupportedPlatform)
    } else if conflicting(req) {
        abort(s, ConfigError::ConflictingRequest)
    } else {
        enter(req, empty_report(), first_needed(req, 0))
    }
}

/// How a session that waits on an access goes on from `reply`. A reply
/// other than the one the access gives on success counts as a failed access.
pub open spec fn step_spec(s: Session, reply: Reply) -> (Session, Action) {
    let req = s.request;
    match (s.stage, reply) {
        (Stage::PlatformInfo, Reply::Value(v)) => if bit(v, 29) {
            enter(req, s.report, first_needed(req, 1))
        } else {
            abort(s, ConfigError::UnsupportedOperation)
        },
        (Stage::TurboLimits, Reply::Value(v)) => if out_of_range(req) {
            abort(s, ConfigError::OutOfRange)
        } else {
            let report = with_limits(req, s.report, turbo_limits_of(v));
            if sets_limits(req) {
                (
                    Session { stage: Stage::LimitsWrite, report, ..s },
                    Action::Perform(
                        Access::Write(MSR_TURBO_LIMITS, adjusted(req, turbo_limits_of(v)).word()),
                    ),
                )
            } else {
                enter(req, report, first_needed(req, 2))
            }
        },
        (Stage::LimitsWrite, Reply::Written) => enter(req, s.report, first_needed(req, 2)),
        (Stage::TemperatureTarget, Reply::Value(v)) => enter(
            req,
            Report { tjmax: Some(field(v, 16, 0xff) as u8), ..s.report },
            first_needed(req, 3),
        ),
        (Stage::TurboRatios, Reply::Value(v)) => enter(
            req,
            with_ratios(s.report, turbo_ratios_of(v)),
            Stage::Finished,
        ),
        _ => abort(s, ConfigError::RegisterAccessFailure),
    }
}

fn first_needed_from(req: &Request, from: u8) -> (r: Stage)
    ensures
        r == first_needed(*req, from as int),
{
    let sets = req.set_tdp.is_some() || req.set_tdc.is_some();
    if from <= 0 && sets {
        Stage::PlatformInfo
    } else if from <= 1 && (req.get_tdp || req.get_tdc || sets) {
        Stage::TurboLimits
    } else if from <= 2 && req.get_tjmax {
        Stage::TemperatureTarget
    } else if from <= 3 && req.get_turbo_ratios {
        Stage::TurboRatios
    } else {
        Stage::Finished
    }
}

impl Session {
    /// Checks the request and names the first access it needs.
    pub fn start(req: Request, privileged: bool, cpu_supported: bool) -> (r: (Session, Action))
        ensures
            r == start_spec(req, privileged, cpu_supported),
            r.1 is Perform ==> r.0.stage != Stage::Finished,
            remaining(r.0.stage) <= 5,
    {
        let report = Report {
            tdp: None,
            tdc: None,
            tjmax: None,
            one_core: None,
            two_cores: None,
            three_cores: None,
            four_cores: None,
        };
        match check_request(&req, privileged, cpu_supported) {
            Err(e) => (Session { request: req, stage: Stage::Finished, report }, Action::Abort(e)),
            Ok(()) => {
                let mut s = Session { request: req, stage: Stage::Finished, report };
                let a = s.wait_on(first_needed_from(&req, 0));
                (s, a)
            },
        }
    }

    /// Waits on `stage`, or completes when it is `Finished`.
    fn wait_on(&mut self, stage: Stage) -> (a: Action)
        requires
            stage != Stage::LimitsWrite,
        ensures
            (*final(self), a) == enter(old(self).request, old(self).report, stage),
    {
        self.stage = stage;
        match stage {
            Stage::Finished => Action::Complete(self.report),
            Stage::PlatformInfo => Action::Perform(Access::Read(MSR_PLATFORM_INFO)),
            Stage::TemperatureTarget => Action::Perform(Access::Read(MSR_TEMPERATURE_TARGET)),
            Stage::TurboRatios => Action::Perform(Access::Read(MSR_TURBO_RATIOS)),
            _ => Action::Perform(Access::Read(MSR_TURBO_LIMITS)),
        }
    }

    fn fail(&mut self, e: ConfigError) -> (a: Action)
        ensures
            (*final(self), a) == abort(*old(self), e),
    {
        self.stage = Stage::Finished;
        Action::Abort(e)
    }

    /// Whether the session has completed or aborted.
    pub fn is_finished(&self) -> (r: bool)
        ensures
            r == (self.stage == Stage::Finished),
    {
        match self.stage {
            Stage::Finished => true,
            _ => false,
        }
    }

    /// Takes what came of the pending access and names the next action.
    pub fn on_reply(&mut self, reply: Reply) -> (a: Action)
        requires
            old(self).stage != Stage::Finished,
        ensures
            (*final(self), a) == step_spec(*old(self), reply),
            a is Perform ==> final(self).stage != Stage::Finished,
            remaining(final(self).stage) < remaining(old(self).stage),
    {
        let req = self.request;
        match (self.stage, reply) {
            (Stage::PlatformInfo, Reply::Value(v)) => {
                if msr_platform_info(v).programmable_tdc_tdp {
                    self.wait_on(first_needed_from(&req, 1))
                } else {
                    self.fail(ConfigError::UnsupportedOperation)
                }
            },
            (Stage::TurboLimits, Reply::Value(v)) => {
                let read = msr_turbo_limits(v);
                let mut limits = read;
                match adjust_limits(&req, &mut limits) {
                    Err(e) => self.fail(e),
                    Ok(()) => {
                        if req.get_tdp {
                            self.report.tdp = Some(
                                LimitReading {
                                    eighths: read.tdp,
                                    override_enabled: read.tdp_override,
                                },
                            );
                        }
                        if req.get_tdc {
                            self.report.tdc = Some(
                                LimitReading {
                                    eighths: read.tdc,
                                    override_enabled: read.tdc_override,
                                },
                            );
                        }
                        if req.set_tdp.is_some() || req.set_tdc.is_some() {
                            self.stage = Stage::LimitsWrite;
                            Action::Perform(Access::Write(MSR_TURBO_LIMITS, limits.encode()))
                        } else {
                            self.wait_on(first_needed_from(&req, 2))
                        }
                    },
                }
            },
            (Stage::LimitsWrite, Reply::Written) => self.wait_on(first_needed_from(&req, 2)),
            (Stage::TemperatureTarget, Reply::Value(v)) => {
                self.report.tjmax = Some(msr_temperature_target(v).tjmax);
                self.wait_on(first_needed_from(&req, 3))
            },
            (Stage::TurboRatios, Reply::Value(v)) => {
                let t = msr_turbo_ratios(v);
                self.report.one_core = turbo_ratio_entry(t.one_core);
                self.report.two_cores = turbo_ratio_entry(t.two_cores);
                self.report.three_cores = turbo_ratio_entry(t.three_cores);
                self.report.four_cores = turbo_ratio_entry(t.four_cores);
                self.wait_on(Stage::Finished)
            },
            _ => self.fail(ConfigError::RegisterAccessFailure),
        }
    }
}

} // verus!
