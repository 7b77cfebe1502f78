//! Which register accesses a request leads to, in which order, and what is
//! reported: a session that is handed the outcome of each access and answers
//! with the next one.
use vstd::prelude::*;
use crate::registers::{
    lemma_word_fields, turbo_limits_of, MsrTurboLimits, MsrTurboRatios,
};

verus! {

/// Fixed-point scale of the TDP and TDC fields: one unit is an eighth.
pub const LIMIT_SCALE: u64 = 8;

/// Largest TDP (watts) or TDC (amperes) that a request may set.
pub const MAX_LIMIT_SETTING: u64 = 511;

/// What the user asked for.
#[derive(Clone, Copy, Debug, PartialEq, Eq)]
pub struct Request {
    pub get_tdp: bool,
    pub get_tdc: bool,
    pub get_tjmax: bool,
    pub get_turbo_ratios: bool,
    /// New TDP in whole watts.
    pub set_tdp: Option<u64>,
    /// New TDC in whole amperes.
    pub set_tdc: Option<u64>,
}

#[derive(Clone, Copy, Debug, PartialEq, Eq)]
pub enum ConfigError {
    InsufficientPrivilege,
    UnsupportedPlatform,
    ConflictingRequest,
    UnsupportedOperation,
    OutOfRange,
    RegisterAccessFailure,
}

/// A power or current limit as read: the raw field in eighths of the unit,
/// and whether the override flag is set.
#[derive(Clone, Copy, Debug, PartialEq, Eq)]
pub struct LimitReading {
    pub eighths: u16,
    pub override_enabled: bool,
}

/// The values a request asked for; a quantity not asked for, or a turbo
/// ratio that reads zero, is `None`.
#[derive(Clone, Copy, Debug, PartialEq, Eq)]
pub struct Report {
    pub tdp: Option<LimitReading>,
    pub tdc: Option<LimitReading>,
    pub tjmax: Option<u8>,
    pub one_core: Option<u8>,
    pub two_cores: Option<u8>,
    pub three_cores: Option<u8>,
    pub four_cores: Option<u8>,
}

pub open spec fn sets_limits(req: Request) -> bool {
    req.set_tdp is Some || req.set_tdc is Some
}

pub open spec fn conflicting(req: Request) -> bool {
    (req.get_tdp || req.get_tdc) && sets_limits(req)
}

pub open spec fn touches_limits(req: Request) -> bool {
    req.get_tdp || req.get_tdc || sets_limits(req)
}

pub open spec fn setting_out_of_range(s: Option<u64>) -> bool {
    match s {
        Some(v) => v > MAX_LIMIT_SETTING,
        None => false,
    }
}

pub open spec fn out_of_range(req: Request) -> bool {
    setting_out_of_range(req.set_tdp) || setting_out_of_range(req.set_tdc)
}

/// The limits after the request's settings: each set value scaled to
/// eighths, with its override flag raised.
pub open spec fn adjusted(req: Request, l: MsrTurboLimits) -> MsrTurboLimits {
    let l1 = match req.set_tdp {
        Some(v) => MsrTurboLimits { tdp: (v * LIMIT_SCALE) as u16, tdp_override: true, ..l },
        None => l,
    };
    match req.set_tdc {
        Some(v) => MsrTurboLimits { tdc: (v * LIMIT_SCALE) as u16, tdc_override: true, ..l1 },
        None => l1,
    }
}

pub open spec fn empty_report() -> Report {
    Report {
        tdp: None,
        tdc: None,
        tjmax: None,
        one_core: None,
        two_cores: None,
        three_cores: None,
        four_cores: None,
    }
}

/// `report` with the limits that the request asks to get filled in.
pub open spec fn with_limits(req: Request, report: Report, l: MsrTurboLimits) -> Report {
    Report {
        tdp: if req.get_tdp {
            Some(LimitReading { eighths: l.tdp, override_enabled: l.tdp_override })
        } else {
            report.tdp
        },
        tdc: if req.get_tdc {
            Some(LimitReading { eighths: l.tdc, override_enabled: l.tdc_override })
        } else {
            report.tdc
        },
        ..report
    }
}

/// A turbo ratio as reported: zero means not reported.
pub open spec fn ratio_entry(v: u8) -> Option<u8> {
    if v == 0 {
        None
    } else {
        Some(v)
    }
}

pub open spec fn with_ratios(report: Report, t: MsrTurboRatios) -> Report {
    Report {
        one_core: ratio_entry(t.one_core),
        two_cores: ratio_entry(t.two_cores),
        three_cores: ratio_entry(t.three_cores),
        four_cores: ratio_entry(t.four_cores),
        ..report
    }
}

/// Whether the request is rejected before any register is accessed.
pub fn check_request(req: &Request, privileged: bool, cpu_supported: bool) -> (r: Result<
    (),
    ConfigError,
>)
    ensures
        r == (if !privileged {
            Err(ConfigError::InsufficientPrivilege)
        } else if !cpu_supported {
            Err(ConfigError::UnsupportedPlatform)
        } else if conflicting(*req) {
            Err(ConfigError::ConflictingRequest)
        } else {
            Ok(())
        }),
{
    if !privileged {
        Err(ConfigError::InsufficientPrivilege)
    } else if !cpu_supported {
        Err(ConfigError::UnsupportedPlatform)
    } else if (req.get_tdp || req.get_tdc) && (req.set_tdp.is_some() || req.set_tdc.is_some()) {
        Err(ConfigError::ConflictingRequest)
    } else {
        Ok(())
    }
}

/// Checks that a setting is within the range a request may set.
fn check_setting(s: Option<u64>) -> (r: bool)
    ensures
        r == !setting_out_of_range(s),
{
    match s {
        Some(v) => v <= MAX_LIMIT_SETTING,
        None => true,
    }
}

/// Applies the request's settings to `limits`: both are checked before
/// either is stored, so on error nothing changes.
pub fn adjust_limits(req: &Request, limits: &mut MsrTurboLimits) -> (r: Result<(), ConfigError>)
    requires
        old(limits).wf(),
    ensures
        final(limits).wf(),
        r is Ok <==> !out_of_range(*req),
        r is Ok ==> *final(limits) == adjusted(*req, *old(limits)),
        r is Err ==> r == Err::<(), ConfigError>(ConfigError::OutOfRange) && *final(limits)
            == *old(limits),
{
    if !check_setting(req.set_tdp) || !check_setting(req.set_tdc) {
        return Err(ConfigError::OutOfRange);
    }
    if let Some(v) = req.set_tdp {
        let stored = limits.set_tdp(v * LIMIT_SCALE);
        if stored.is_err() {
            return Err(ConfigError::OutOfRange);
        }
        limits.set_tdp_override(true);
    }
    if let Some(v) = req.set_tdc {
        let stored = limits.set_tdc(v * LIMIT_SCALE);
        if stored.is_err() {
            return Err(ConfigError::OutOfRange);
        }
        limits.set_tdc_override(true);
    }
    Ok(())
}

/// Reports `v` as a turbo ratio, leaving out a zero.
pub fn turbo_ratio_entry(v: u8) -> (r: Option<u8>)
    ensures
        r == ratio_entry(v),
{
    if v == 0 {
        None
    } else {
        Some(v)
    }
}

/// A TDP setting within range is stored as exactly eight times its value,
/// with the override flag raised, and dividing the stored field by eight
/// gives the setting back.
pub proof fn lemma_tdp_setting_scaled(req: Request, l: MsrTurboLimits, v: u64)
    requires
        l.wf(),
        req.set_tdp == Some(v),
        !out_of_range(req),
    ensures
        adjusted(req, l).wf(),
        turbo_limits_of(adjusted(req, l).word()).tdp as u64 == v * LIMIT_SCALE,
        turbo_limits_of(adjusted(req, l).word()).tdp_override,
        (v * LIMIT_SCALE) as int / LIMIT_SCALE as int == v as int,
{
    lemma_word_fields(adjusted(req, l));
}

/// A TDC setting within range is stored as exactly eight times its value,
/// with the override flag raised.
pub proof fn lemma_tdc_setting_scaled(req: Request, l: MsrTurboLimits, v: u64)
    requires
        l.wf(),
        req.set_tdc == Some(v),
        !out_of_range(req),
    ensures
        adjusted(req, l).wf(),
        turbo_limits_of(adjusted(req, l).word()).tdc as u64 == v * LIMIT_SCALE,
        turbo_limits_of(adjusted(req, l).word()).tdc_override,
        (v * LIMIT_SCALE) as int / LIMIT_SCALE as int == v as int,
{
    lemma_word_fields(adjusted(req, l));
}

} // verus!
