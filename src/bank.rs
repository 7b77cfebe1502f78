//! A set of registers held in memory, and `execute`, which runs a request's
//! session against it. A register that is `None` fails every access.
use vstd::prelude::*;
use crate::policy::{conflicting, out_of_range, sets_limits, ConfigError, Report, Request};
use crate::registers::{
    bit, IA32_MISC_ENABLE, MSR_PLATFORM_INFO, MSR_TEMPERATURE_TARGET, MSR_TURBO_LIMITS,
    MSR_TURBO_RATIOS,
};
use crate::session::{remaining, start_spec, step_spec, Access, Action, Reply, Session, Stage};

verus! {

/// Most accesses one session makes: four reads and one write.
pub const MAX_ACCESSES: u64 = 5;

/// Register values by name; `None` for a register that cannot be accessed.
pub struct RegisterBank {
    pub platform_info: Option<u64>,
    pub misc_enable: Option<u64>,
    pub temperature_target: Option<u64>,
    pub turbo_limits: Option<u64>,
    pub turbo_ratios: Option<u64>,
    /// Every access made, in order.
    pub log: Vec<Access>,
}

/// What a `RegisterBank` holds, with its log as a sequence.
pub ghost struct BankState {
    pub platform_info: Option<u64>,
    pub misc_enable: Option<u64>,
    pub temperature_target: Option<u64>,
    pub turbo_limits: Option<u64>,
    pub turbo_ratios: Option<u64>,
    pub log: Seq<Access>,
}

impl View for RegisterBank {
    type V = BankState;

    open spec fn view(&self) -> BankState {
        BankState {
            platform_info: self.platform_info,
            misc_enable: self.misc_enable,
            temperature_target: self.temperature_target,
            turbo_limits: self.turbo_limits,
            turbo_ratios: self.turbo_ratios,
            log: self.log@,
        }
    }
}

pub open spec fn register(b: BankState, addr: u32) -> Option<u64> {
    if addr == MSR_PLATFORM_INFO {
        b.platform_info
    } else if addr == IA32_MISC_ENABLE {
        b.misc_enable
    } else if addr == MSR_TEMPERATURE_TARGET {
        b.temperature_target
    } else if addr == MSR_TURBO_LIMITS {
        b.turbo_limits
    } else if addr == MSR_TURBO_RATIOS {
        b.turbo_ratios
    } else {
        None
    }
}

/// Performs `a` on `b`: a read gives the register's value; a write stores
/// into the turbo limits register, the only writable one.
pub open spec fn serve(b: BankState, a: Access) -> (BankState, Reply) {
    let logged = BankState { log: b.log.push(a), ..b };
    match a {
        Access::Read(addr) => match register(b, addr) {
            Some(v) => (logged, Reply::Value(v)),
            None => (logged, Reply::Failed),
        },
        Access::Write(addr, v) => if addr == MSR_TURBO_LIMITS && b.turbo_limits is Some {
            (BankState { turbo_limits: Some(v), ..logged }, Reply::Written)
        } else {
            (logged, Reply::Failed)
        },
    }
}

/// The outcome of a session from action `a` on, against `b`, allowing at
/// most `fuel` more accesses. A session never needs more than
/// `MAX_ACCESSES`, so from the start the last case is never reached.
pub open spec fn run(s: Session, a: Action, b: BankState, fuel: nat) -> (
    Result<Report, ConfigError>,
    BankState,
)
    decreases fuel,
{
    match a {
        Action::Complete(r) => (Ok(r), b),
        Action::Abort(e) => (Err(e), b),
        Action::Perform(acc) => if fuel == 0 {
            (Err(ConfigError::RegisterAccessFailure), b)
        } else {
            let (b2, reply) = serve(b, acc);
            let (s2, a2) = step_spec(s, reply);
            run(s2, a2, b2, (fuel - 1) as nat)
        },
    }
}

/// The outcome of a request against `b`.
pub open spec fn outcome(req: Request, privileged: bool, cpu_supported: bool, b: BankState) -> (
    Result<Report, ConfigError>,
    BankState,
) {
    let (s, a) = start_spec(req, privileged, cpu_supported);
    run(s, a, b, MAX_ACCESSES as nat)
}

impl RegisterBank {
    /// A bank with every register readable.
    pub fn new(
        platform_info: u64,
        misc_enable: u64,
        temperature_target: u64,
        turbo_limits: u64,
        turbo_ratios: u64,
    ) -> (r: RegisterBank)
        ensures
            r@ == (BankState {
                platform_info: Some(platform_info),
                misc_enable: Some(misc_enable),
                temperature_target: Some(temperature_target),
                turbo_limits: Some(turbo_limits),
                turbo_ratios: Some(turbo_ratios),
                log: Seq::empty(),
            }),
    {
        RegisterBank {
            platform_info: Some(platform_info),
            misc_enable: Some(misc_enable),
            temperature_target: Some(temperature_target),
            turbo_limits: Some(turbo_limits),
            turbo_ratios: Some(turbo_ratios),
            log: Vec::new(),
        }
    }

    fn value_at(&self, addr: u32) -> (r: Option<u64>)
        ensures
            r == register(self@, addr),
    {
        if addr == MSR_PLATFORM_INFO {
            self.platform_info
        } else if addr == IA32_MISC_ENABLE {
            self.misc_enable
        } else if addr == MSR_TEMPERATURE_TARGET {
            self.temperature_target
        } else if addr == MSR_TURBO_LIMITS {
            self.turbo_limits
        } else if addr == MSR_TURBO_RATIOS {
            self.turbo_ratios
        } else {
            None
        }
    }

    /// Performs one access and records it.
    pub fn perform(&mut self, a: Access) -> (r: Reply)
        ensures
            (final(self)@, r) == serve(old(self)@, a),
    {
        self.log.push(a);
        match a {
            Access::Read(addr) => match self.value_at(addr) {
                Some(v) => Reply::Value(v),
                None => Reply::Failed,
            },
            Access::Write(addr, v) => {
                if addr == MSR_TURBO_LIMITS && self.turbo_limits.is_some() {
                    self.turbo_limits = Some(v);
                    Reply::Written
                } else {
                    Reply::Failed
                }
            },
        }
    }
}

/// Runs `req` against `bank` from start to end.
pub fn execute(req: Request, privileged: bool, cpu_supported: bool, bank: &mut RegisterBank) -> (r:
    Result<Report, ConfigError>)
    ensures
        (r, final(bank)@) == outcome(req, privileged, cpu_supported, old(bank)@),
{
    let (mut s, mut a) = Session::start(req, privileged, cpu_supported);
    let mut fuel: u64 = MAX_ACCESSES;
    loop
        invariant
            run(s, a, bank@, fuel as nat) == outcome(req, privileged, cpu_supported, old(bank)@),
            a is Perform ==> s.stage != Stage::Finished,
            remaining(s.stage) <= fuel,
        decreases fuel,
    {
        match a {
            Action::Complete(report) => return Ok(report),
            Action::Abort(e) => return Err(e),
            Action::Perform(acc) => {
                let reply = bank.perform(acc);
                a = s.on_reply(reply);
                fuel = fuel - 1;
            },
        }
    }
}

/// Whether two banks hold the same register values, whatever their logs.
pub open spec fn same_values(b1: BankState, b2: BankState) -> bool {
    &&& b1.platform_info == b2.platform_info
    &&& b1.misc_enable == b2.misc_enable
    &&& b1.temperature_target == b2.temperature_target
    &&& b1.turbo_limits == b2.turbo_limits
    &&& b1.turbo_ratios == b2.turbo_ratios
}

pub open spec fn is_write(a: Action) -> bool {
    a matches Action::Perform(Access::Write(_, _))
}

/// A request that asks for both a get and a set of the limits is rejected
/// before any register is accessed, once privilege and processor pass.
pub proof fn lemma_conflicting_request_touches_nothing(
    req: Request,
    privileged: bool,
    cpu_supported: bool,
    b: BankState,
)
    requires
        conflicting(req),
    ensures
        outcome(req, privileged, cpu_supported, b).1 == b,
        privileged && cpu_supported ==> outcome(req, privileged, cpu_supported, b).0 == Err::<
            Report,
            ConfigError,
        >(ConfigError::ConflictingRequest),
{
}

/// A request that sets a limit on a processor whose limits are not
/// programmable fails after reading the platform information alone: the
/// turbo limits register is neither read nor written.
pub proof fn lemma_unprogrammable_limits_rejected(req: Request, b: BankState, p: u64)
    requires
        sets_limits(req),
        !conflicting(req),
        b.platform_info == Some(p),
        !bit(p, 29),
    ensures
        outcome(req, true, true, b) == (
            Err::<Report, ConfigError>(ConfigError::UnsupportedOperation),
            BankState { log: b.log.push(Access::Read(MSR_PLATFORM_INFO)), ..b },
        ),
{
    let (s0, a0) = start_spec(req, true, true);
    let (b1, r1) = serve(b, Access::Read(MSR_PLATFORM_INFO));
    let (s1, a1) = step_spec(s0, r1);
    assert(a0 == Action::Perform(Access::Read(MSR_PLATFORM_INFO)));
    assert(a1 == Action::Abort(ConfigError::UnsupportedOperation));
    assert(run(s1, a1, b1, 4) == (Err::<Report, ConfigError>(ConfigError::UnsupportedOperation), b1));
}

/// A setting above the largest allowed limit fails with `OutOfRange` after
/// the platform information and the turbo limits are read, and nothing is
/// written.
pub proof fn lemma_oversized_setting_rejected(req: Request, b: BankState, p: u64, l: u64)
    requires
        out_of_range(req),
        !conflicting(req),
        b.platform_info == Some(p),
        bit(p, 29),
        b.turbo_limits == Some(l),
    ensures
        outcome(req, true, true, b) == (
            Err::<Report, ConfigError>(ConfigError::OutOfRange),
            BankState {
                log: b.log.push(Access::Read(MSR_PLATFORM_INFO)).push(
                    Access::Read(MSR_TURBO_LIMITS),
                ),
                ..b
            },
        ),
{
    let (s0, a0) = start_spec(req, true, true);
    assert(a0 == Action::Perform(Access::Read(MSR_PLATFORM_INFO)));
    let (b1, r1) = serve(b, Access::Read(MSR_PLATFORM_INFO));
    let (s1, a1) = step_spec(s0, r1);
    assert(a1 == Action::Perform(Access::Read(MSR_TURBO_LIMITS)));
    let (b2, r2) = serve(b1, Access::Read(MSR_TURBO_LIMITS));
    let (s2, a2) = step_spec(s1, r2);
    assert(a2 == Action::Abort(ConfigError::OutOfRange));
    assert(run(s2, a2, b2, 3) == (Err::<Report, ConfigError>(ConfigError::OutOfRange), b2));
    assert(run(s1, a1, b1, 4) == run(s2, a2, b2, 3));
}

/// A session whose request sets nothing never writes a register.
proof fn lemma_reads_keep_values(s: Session, a: Action, b: BankState, fuel: nat)
    requires
        !sets_limits(s.request),
        !is_write(a),
    ensures
        same_values(run(s, a, b, fuel).1, b),
    decreases fuel,
{
    if let Action::Perform(acc) = a {
        if fuel > 0 {
            let (b2, reply) = serve(b, acc);
            let (s2, a2) = step_spec(s, reply);
            lemma_reads_keep_values(s2, a2, b2, (fuel - 1) as nat);
        }
    }
}

/// The outcome of a session depends on the register values only, not on
/// what was logged before.
proof fn lemma_run_depends_on_values(s: Session, a: Action, b1: BankState, b2: BankState, fuel: nat)
    requires
        same_values(b1, b2),
    ensures
        run(s, a, b1, fuel).0 == run(s, a, b2, fuel).0,
        same_values(run(s, a, b1, fuel).1, run(s, a, b2, fuel).1),
    decreases fuel,
{
    if let Action::Perform(acc) = a {
        if fuel > 0 {
            let (c1, reply1) = serve(b1, acc);
            let (c2, reply2) = serve(b2, acc);
            assert(reply1 == reply2);
            let (s2, a2) = step_spec(s, reply1);
            lemma_run_depends_on_values(s2, a2, c1, c2, (fuel - 1) as nat);
        }
    }
}

/// Running a request that only gets values twice against the same registers
/// gives the same result both times, and leaves the register values as they
/// were.
pub proof fn lemma_get_only_idempotent(
    req: Request,
    privileged: bool,
    cpu_supported: bool,
    b: BankState,
)
    requires
        !sets_limits(req),
    ensures
        same_values(outcome(req, privileged, cpu_supported, b).1, b),
        outcome(req, privileged, cpu_supported, outcome(req, privileged, cpu_supported, b).1).0
            == outcome(req, privileged, cpu_supported, b).0,
{
    let (s0, a0) = start_spec(req, privileged, cpu_supported);
    lemma_reads_keep_values(s0, a0, b, MAX_ACCESSES as nat);
    let b1 = outcome(req, privileged, cpu_supported, b).1;
    lemma_run_depends_on_values(s0, a0, b1, b, MAX_ACCESSES as nat);
}

} // verus!
