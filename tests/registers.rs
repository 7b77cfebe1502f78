use turbo_msr::registers::{
    ia32_misc_enable, msr_platform_info, msr_temperature_target, msr_turbo_limits,
    msr_turbo_ratios, FieldError,
};

#[test]
fn turbo_limits_round_trip_keeps_every_bit() {
    for raw in [
        0u64,
        u64::MAX,
        0x0000_0000_8000_8000,
        0xdead_beef_1234_5678,
        0x0123_4567_89ab_cdef,
        0x0000_0000_7fff_7fff,
    ] {
        assert_eq!(msr_turbo_limits(raw).encode(), raw);
    }
}

#[test]
fn turbo_limits_fields_decode() {
    let l = msr_turbo_limits(0x1234_5678_8123_80a0);
    assert_eq!(l.tdp, 0x00a0);
    assert!(l.tdp_override);
    assert_eq!(l.tdc, 0x0123);
    assert!(l.tdc_override);
    assert_eq!(l.upper, 0x1234_5678);
}

#[test]
fn turbo_limits_setters_replace_one_field() {
    let mut l = msr_turbo_limits(0xffff_0000_0000_0000);
    assert_eq!(l.set_tdp(800), Ok(()));
    l.set_tdp_override(true);
    assert_eq!(l.encode(), 0xffff_0000_0000_8320);
    assert_eq!(l.set_tdc(0x7fff), Ok(()));
    l.set_tdc_override(true);
    assert_eq!(l.encode(), 0xffff_0000_ffff_8320);
}

#[test]
fn turbo_limits_setter_rejects_wide_value() {
    let mut l = msr_turbo_limits(0x55);
    assert_eq!(l.set_tdp(0x8000), Err(FieldError::TooWide));
    assert_eq!(l.set_tdc(u64::MAX), Err(FieldError::TooWide));
    assert_eq!(l.encode(), 0x55);
}

#[test]
fn platform_info_fields_decode() {
    let p = msr_platform_info(0x0000_0c00_3000_1500);
    assert_eq!(p.max_non_turbo_ratio, 0x15);
    assert!(p.programmable_turbo_ratio);
    assert!(p.programmable_tdc_tdp);
    assert_eq!(p.minimum_ratio, 0x0c);
    let q = msr_platform_info(0x1000_0000);
    assert!(q.programmable_turbo_ratio);
    assert!(!q.programmable_tdc_tdp);
}

#[test]
fn temperature_target_reads_bits_16_to_23() {
    assert_eq!(msr_temperature_target(0x0069_0000).tjmax, 105);
    assert_eq!(msr_temperature_target(0xff00_ffff).tjmax, 0);
}

#[test]
fn turbo_ratios_read_one_byte_each() {
    let t = msr_turbo_ratios(0x1a1b_1c1d);
    assert_eq!(t.one_core, 0x1d);
    assert_eq!(t.two_cores, 0x1c);
    assert_eq!(t.three_cores, 0x1b);
    assert_eq!(t.four_cores, 0x1a);
}

#[test]
fn misc_enable_round_trip_and_turbo_flag() {
    let raw: u64 = 0x0000_0040_0000_0801;
    let mut m = ia32_misc_enable(raw);
    assert!(m.turbo_disable);
    assert_eq!(m.encode(), raw);
    m.set_turbo_disable(false);
    assert_eq!(m.encode(), 0x0801);
    m.set_turbo_disable(true);
    assert_eq!(m.encode(), raw);
}
