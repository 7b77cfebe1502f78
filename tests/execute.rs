use turbo_msr::bank::{execute, RegisterBank};
use turbo_msr::platform::is_supported_cpu;
use turbo_msr::policy::{adjust_limits, turbo_ratio_entry, ConfigError, Request};
use turbo_msr::registers::{msr_turbo_limits, MSR_PLATFORM_INFO, MSR_TURBO_LIMITS};
use turbo_msr::session::{Access, Action, Reply, Session};

const PROGRAMMABLE: u64 = 1 << 29;

fn request() -> Request {
    Request {
        get_tdp: false,
        get_tdc: false,
        get_tjmax: false,
        get_turbo_ratios: false,
        set_tdp: None,
        set_tdc: None,
    }
}

fn bank(platform_info: u64, turbo_limits: u64, turbo_ratios: u64) -> RegisterBank {
    RegisterBank::new(platform_info, 0, 0x0064_0000, turbo_limits, turbo_ratios)
}

fn has_write(b: &RegisterBank) -> bool {
    b.log.iter().any(|a| matches!(a, Access::Write(_, _)))
}

#[test]
fn tdp_field_of_160_reports_20_watts() {
    let mut b = bank(0, 0x0000_0000_0000_80a0, 0);
    let r = execute(Request { get_tdp: true, ..request() }, true, true, &mut b).unwrap();
    let tdp = r.tdp.unwrap();
    assert_eq!(tdp.eighths, 160);
    assert!(tdp.override_enabled);
    assert_eq!(tdp.eighths as f64 / 8.0, 20.0);
    assert_eq!(r.tdc, None);
}

#[test]
fn tdc_reports_its_own_override_flag() {
    let mut b = bank(0, 0x0000_0000_0190_8000, 0);
    let r = execute(Request { get_tdc: true, ..request() }, true, true, &mut b).unwrap();
    let tdc = r.tdc.unwrap();
    assert_eq!(tdc.eighths, 400);
    assert!(!tdc.override_enabled);
    assert_eq!(tdc.eighths as f64 / 8.0, 50.0);
}

#[test]
fn turbo_ratios_omit_zero_entries() {
    let mut b = bank(0, 0, 0x001e_1900);
    let r = execute(Request { get_turbo_ratios: true, ..request() }, true, true, &mut b).unwrap();
    assert_eq!(r.one_core, None);
    assert_eq!(r.two_cores, Some(25));
    assert_eq!(r.three_cores, Some(30));
    assert_eq!(r.four_cores, None);
}

#[test]
fn turbo_ratios_low_byte_is_one_core() {
    let mut b = bank(0, 0, 0x0000_1e19);
    let r = execute(Request { get_turbo_ratios: true, ..request() }, true, true, &mut b).unwrap();
    assert_eq!(r.one_core, Some(25));
    assert_eq!(r.two_cores, Some(30));
    assert_eq!(r.three_cores, None);
    assert_eq!(r.four_cores, None);
    assert_eq!(turbo_ratio_entry(0), None);
    assert_eq!(turbo_ratio_entry(7), Some(7));
}

#[test]
fn tjmax_is_reported_verbatim() {
    let mut b = bank(0, 0, 0);
    let r = execute(Request { get_tjmax: true, ..request() }, true, true, &mut b).unwrap();
    assert_eq!(r.tjmax, Some(100));
    assert_eq!(r.tdp, None);
}

#[test]
fn set_tdp_writes_eight_times_the_watts_once() {
    for v in [0u64, 1, 100, 511] {
        let before: u64 = 0xabcd_0000_0050_0040;
        let mut b = bank(PROGRAMMABLE, before, 0);
        let r = execute(Request { set_tdp: Some(v), ..request() }, true, true, &mut b);
        assert!(r.is_ok());
        let writes: Vec<&Access> =
            b.log.iter().filter(|a| matches!(a, Access::Write(_, _))).collect();
        assert_eq!(writes.len(), 1);
        let after = b.turbo_limits.unwrap();
        let l = msr_turbo_limits(after);
        assert_eq!(l.tdp as u64, v * 8);
        assert_eq!(l.tdp as f64 / 8.0, v as f64);
        assert!(l.tdp_override);
        assert_eq!(l.tdc, 0x50);
        assert!(!l.tdc_override);
        assert_eq!(after >> 32, 0xabcd_0000);
    }
}

#[test]
fn set_both_limits_in_one_write() {
    let mut b = bank(PROGRAMMABLE, 0, 0);
    let r = execute(
        Request { set_tdp: Some(35), set_tdc: Some(40), ..request() },
        true,
        true,
        &mut b,
    );
    assert!(r.is_ok());
    assert_eq!(
        b.log,
        vec![
            Access::Read(MSR_PLATFORM_INFO),
            Access::Read(MSR_TURBO_LIMITS),
            Access::Write(MSR_TURBO_LIMITS, 0x8140_8118),
        ]
    );
    assert_eq!(b.turbo_limits, Some(0x8140_8118));
}

#[test]
fn set_tdp_above_511_is_out_of_range() {
    for v in [512u64, 1000, u64::MAX] {
        let mut b = bank(PROGRAMMABLE, 0x1234, 0);
        let r = execute(Request { set_tdp: Some(v), ..request() }, true, true, &mut b);
        assert_eq!(r, Err(ConfigError::OutOfRange));
        assert!(!has_write(&b));
        assert_eq!(b.turbo_limits, Some(0x1234));
    }
}

#[test]
fn set_tdc_above_511_is_out_of_range() {
    let mut b = bank(PROGRAMMABLE, 0x1234, 0);
    let r = execute(
        Request { set_tdp: Some(10), set_tdc: Some(512), ..request() },
        true,
        true,
        &mut b,
    );
    assert_eq!(r, Err(ConfigError::OutOfRange));
    assert!(!has_write(&b));
}

#[test]
fn set_without_programmable_limits_is_unsupported() {
    for req in [
        Request { set_tdp: Some(10), ..request() },
        Request { set_tdc: Some(10), ..request() },
        Request { set_tdp: Some(10), set_tdc: Some(20), get_tjmax: true, ..request() },
    ] {
        let mut b = bank(0x1000_0000, 0x1234, 0);
        let r = execute(req, true, true, &mut b);
        assert_eq!(r, Err(ConfigError::UnsupportedOperation));
        assert_eq!(b.log, vec![Access::Read(MSR_PLATFORM_INFO)]);
        assert_eq!(b.turbo_limits, Some(0x1234));
    }
}

#[test]
fn get_and_set_together_conflict_before_any_access() {
    let mut b = bank(PROGRAMMABLE, 0, 0);
    let r = execute(
        Request { get_tdp: true, set_tdp: Some(100), ..request() },
        true,
        true,
        &mut b,
    );
    assert_eq!(r, Err(ConfigError::ConflictingRequest));
    assert!(b.log.is_empty());
    let r = execute(
        Request { get_tdc: true, set_tdp: Some(1), ..request() },
        true,
        true,
        &mut b,
    );
    assert_eq!(r, Err(ConfigError::ConflictingRequest));
    assert!(b.log.is_empty());
}

#[test]
fn privilege_and_platform_are_checked_first() {
    let mut b = bank(PROGRAMMABLE, 0, 0);
    let req = Request { get_tdp: true, set_tdp: Some(100), ..request() };
    assert_eq!(execute(req, false, true, &mut b), Err(ConfigError::InsufficientPrivilege));
    assert_eq!(execute(req, true, false, &mut b), Err(ConfigError::UnsupportedPlatform));
    assert!(b.log.is_empty());
}

#[test]
fn unreadable_register_is_an_access_failure() {
    let mut b = bank(PROGRAMMABLE, 0, 0);
    b.temperature_target = None;
    let r = execute(Request { get_tjmax: true, ..request() }, true, true, &mut b);
    assert_eq!(r, Err(ConfigError::RegisterAccessFailure));
}

#[test]
fn get_only_request_twice_gives_the_same_report() {
    let mut b = bank(PROGRAMMABLE, 0x8000_80a0, 0x1a1b_1c1d);
    let req = Request {
        get_tdp: true,
        get_tdc: true,
        get_tjmax: true,
        get_turbo_ratios: true,
        ..request()
    };
    let first = execute(req, true, true, &mut b);
    let second = execute(req, true, true, &mut b);
    assert!(first.is_ok());
    assert_eq!(first, second);
    assert!(!has_write(&b));
}

#[test]
fn empty_request_completes_without_access() {
    let mut b = bank(0, 0, 0);
    let r = execute(request(), true, true, &mut b).unwrap();
    assert_eq!(r.tdp, None);
    assert_eq!(r.tjmax, None);
    assert!(b.log.is_empty());
}

#[test]
fn session_treats_unexpected_reply_as_failure() {
    let (mut s, a) = Session::start(Request { get_tjmax: true, ..request() }, true, true);
    assert!(matches!(a, Action::Perform(Access::Read(_))));
    assert!(!s.is_finished());
    assert_eq!(s.on_reply(Reply::Written), Action::Abort(ConfigError::RegisterAccessFailure));
    assert!(s.is_finished());
}

#[test]
fn adjust_limits_leaves_limits_alone_on_error() {
    let mut l = msr_turbo_limits(0x42);
    let req = Request { set_tdp: Some(5), set_tdc: Some(600), ..request() };
    assert_eq!(adjust_limits(&req, &mut l), Err(ConfigError::OutOfRange));
    assert_eq!(l.encode(), 0x42);
}

#[test]
fn only_the_one_model_is_supported() {
    assert!(is_supported_cpu("GenuineIntel", 0, 6, 0x25));
    assert!(!is_supported_cpu("AuthenticAMD", 0, 6, 0x25));
    assert!(!is_supported_cpu("GenuineIntel", 0, 6, 0x2a));
    assert!(!is_supported_cpu("GenuineIntel", 1, 6, 0x25));
    assert!(!is_supported_cpu("GenuineIntel", 0, 15, 0x25));
    assert!(!is_supported_cpu("GenuineInte", 0, 6, 0x25));
    assert!(!is_supported_cpu("", 0, 6, 0x25));
}
