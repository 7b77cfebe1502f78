//! Bit layouts of the model-specific registers: decoding a raw 64-bit word
//! into named fields, and encoding the settable ones back.
use vstd::prelude::*;

verus! {

/// Address of the platform information register.
pub const MSR_PLATFORM_INFO: u32 = 0xce;

/// Address of the miscellaneous feature enable register.
pub const IA32_MISC_ENABLE: u32 = 0x1a0;

/// Address of the temperature target register.
pub const MSR_TEMPERATURE_TARGET: u32 = 0x1a2;

/// Address of the turbo power and current limits register.
pub const MSR_TURBO_LIMITS: u32 = 0x1ac;

/// Address of the per-core-count turbo ratio register.
pub const MSR_TURBO_RATIOS: u32 = 0x1ad;

/// The bits of `raw` selected by `mask` after shifting right by `lo`.
pub open spec fn field(raw: u64, lo: u64, mask: u64) -> u64 {
    (raw >> lo) & mask
}

/// Whether bit `n` of `raw` is set.
pub open spec fn bit(raw: u64, n: u64) -> bool {
    (raw >> n) & 1u64 == 1u64
}

/// Largest value of a 15-bit field.
pub const FIELD15_MAX: u64 = 0x7fff;

/// Capability descriptor of the processor.
#[derive(Clone, Copy, Debug, PartialEq, Eq)]
pub struct MsrPlatformInfo {
    pub max_non_turbo_ratio: u8,
    pub programmable_turbo_ratio: bool,
    pub programmable_tdc_tdp: bool,
    pub minimum_ratio: u8,
}

/// Decodes the platform information register.
pub fn msr_platform_info(raw: u64) -> (r: MsrPlatformInfo)
    ensures
        r.max_non_turbo_ratio as u64 == field(raw, 8, 0xff),
        r.programmable_turbo_ratio == bit(raw, 28),
        r.programmable_tdc_tdp == bit(raw, 29),
        r.minimum_ratio as u64 == field(raw, 40, 0xff),
{
    assert((raw >> 8u64) & 0xffu64 <= 0xff) by (bit_vector);
    assert((raw >> 40u64) & 0xffu64 <= 0xff) by (bit_vector);
    MsrPlatformInfo {
        max_non_turbo_ratio: ((raw >> 8u64) & 0xffu64) as u8,
        programmable_turbo_ratio: (raw >> 28u64) & 1u64 == 1u64,
        programmable_tdc_tdp: (raw >> 29u64) & 1u64 == 1u64,
        minimum_ratio: ((raw >> 40u64) & 0xffu64) as u8,
    }
}

/// Global feature enable register: the turbo disable flag, and every other
/// bit kept as it was read.
#[derive(Clone, Copy, Debug, PartialEq, Eq)]
pub struct Ia32MiscEnable {
    pub turbo_disable: bool,
    /// The register word with bit 38 cleared.
    pub other_bits: u64,
}

impl Ia32MiscEnable {
    pub open spec fn wf(&self) -> bool {
        !bit(self.other_bits, 38)
    }

    /// Encodes the register word.
    pub fn encode(&self) -> (r: u64)
        requires
            self.wf(),
        ensures
            bit(r, 38) == self.turbo_disable,
            r & !(1u64 << 38u64) == self.other_bits,
    {
        let o = self.other_bits;
        if self.turbo_disable {
            assert(!((o >> 38u64) & 1u64 == 1u64) ==> ((o | (1u64 << 38u64)) >> 38u64) & 1u64
                == 1u64 && (o | (1u64 << 38u64)) & !(1u64 << 38u64) == o) by (bit_vector);
            o | (1u64 << 38u64)
        } else {
            assert(!((o >> 38u64) & 1u64 == 1u64) ==> o & !(1u64 << 38u64) == o) by (bit_vector);
            o
        }
    }

    /// Sets or clears the turbo disable flag.
    pub fn set_turbo_disable(&mut self, v: bool)
        ensures
            final(self).turbo_disable == v,
            final(self).other_bits == old(self).other_bits,
    {
        self.turbo_disable = v;
    }
}

/// Decodes the miscellaneous feature enable register.
pub fn ia32_misc_enable(raw: u64) -> (r: Ia32MiscEnable)
    ensures
        r.wf(),
        r.turbo_disable == bit(raw, 38),
        r.other_bits == raw & !(1u64 << 38u64),
{
    assert(!(((raw & !(1u64 << 38u64)) >> 38u64) & 1u64 == 1u64)) by (bit_vector);
    Ia32MiscEnable {
        turbo_disable: (raw >> 38u64) & 1u64 == 1u64,
        other_bits: raw & !(1u64 << 38u64),
    }
}

/// Thermal threshold register.
#[derive(Clone, Copy, Debug, PartialEq, Eq)]
pub struct MsrTemperatureTarget {
    /// Junction temperature limit in degrees Celsius.
    pub tjmax: u8,
}

/// Decodes the temperature target register.
pub fn msr_temperature_target(raw: u64) -> (r: MsrTemperatureTarget)
    ensures
        r.tjmax as u64 == field(raw, 16, 0xff),
        r.tjmax == field(raw, 16, 0xff) as u8,
{
    assert((raw >> 16u64) & 0xffu64 <= 0xff) by (bit_vector);
    MsrTemperatureTarget { tjmax: ((raw >> 16u64) & 0xffu64) as u8 }
}

/// Maximum turbo ratios by number of active cores; zero means not reported.
#[derive(Clone, Copy, Debug, PartialEq, Eq)]
pub struct MsrTurboRatios {
    pub one_core: u8,
    pub two_cores: u8,
    pub three_cores: u8,
    pub four_cores: u8,
}

/// The fields of a turbo ratio word.
pub open spec fn turbo_ratios_of(raw: u64) -> MsrTurboRatios {
    MsrTurboRatios {
        one_core: field(raw, 0, 0xff) as u8,
        two_cores: field(raw, 8, 0xff) as u8,
        three_cores: field(raw, 16, 0xff) as u8,
        four_cores: field(raw, 24, 0xff) as u8,
    }
}

/// Decodes the turbo ratio register.
pub fn msr_turbo_ratios(raw: u64) -> (r: MsrTurboRatios)
    ensures
        r == turbo_ratios_of(raw),
        r.one_core as u64 == field(raw, 0, 0xff),
        r.two_cores as u64 == field(raw, 8, 0xff),
        r.three_cores as u64 == field(raw, 16, 0xff),
        r.four_cores as u64 == field(raw, 24, 0xff),
{
    assert(forall|n: u64| (raw >> n) & 0xffu64 <= 0xff) by (bit_vector);
    MsrTurboRatios {
        one_core: ((raw >> 0u64) & 0xffu64) as u8,
        two_cores: ((raw >> 8u64) & 0xffu64) as u8,
        three_cores: ((raw >> 16u64) & 0xffu64) as u8,
        four_cores: ((raw >> 24u64) & 0xffu64) as u8,
    }
}

/// Turbo power and current limits. `tdp` and `tdc` are 15-bit fields in
/// eighths of a watt and of an ampere; `upper` holds bits 32 to 63 as read.
#[derive(Clone, Copy, Debug, PartialEq, Eq)]
pub struct MsrTurboLimits {
    pub tdp: u16,
    pub tdp_override: bool,
    pub tdc: u16,
    pub tdc_override: bool,
    pub upper: u32,
}

/// Why a value was not stored in a register field.
#[derive(Clone, Copy, Debug, PartialEq, Eq)]
pub enum FieldError {
    /// The value does not fit in the field's width.
    TooWide,
}

impl MsrTurboLimits {
    pub open spec fn wf(&self) -> bool {
        self.tdp as u64 <= FIELD15_MAX && self.tdc as u64 <= FIELD15_MAX
    }

    /// The fields, with `tdp` replaced by `v`.
    pub open spec fn with_tdp(self, v: u64) -> MsrTurboLimits {
        MsrTurboLimits { tdp: v as u16, ..self }
    }

    /// The fields, with `tdc` replaced by `v`.
    pub open spec fn with_tdc(self, v: u64) -> MsrTurboLimits {
        MsrTurboLimits { tdc: v as u16, ..self }
    }

    /// The register word: `upper` in bits 32 to 63, the override flags in
    /// bits 31 and 15, `tdc` in bits 16 to 30 and `tdp` in bits 0 to 14.
    pub open spec fn word(self) -> u64 {
        (self.upper as u64) << 32u64 | (if self.tdc_override { 1u64 } else { 0u64 }) << 31u64
            | (self.tdc as u64) << 16u64 | (if self.tdp_override { 1u64 } else { 0u64 }) << 15u64
            | self.tdp as u64
    }

    /// Encodes the register word: every bit comes from exactly one field.
    pub fn encode(&self) -> (r: u64)
        requires
            self.wf(),
        ensures
            r == self.word(),
            field(r, 0, 0x7fff) == self.tdp as u64,
            bit(r, 15) == self.tdp_override,
            field(r, 16, 0x7fff) == self.tdc as u64,
            bit(r, 31) == self.tdc_override,
            field(r, 32, 0xffff_ffff) == self.upper as u64,
    {
        let tdp = self.tdp as u64;
        let tdc = self.tdc as u64;
        let upper = self.upper as u64;
        let to: u64 = if self.tdp_override { 1 } else { 0 };
        let co: u64 = if self.tdc_override { 1 } else { 0 };
        let r = upper << 32u64 | co << 31u64 | tdc << 16u64 | to << 15u64 | tdp;
        proof {
            lemma_word_fields(*self);
        }
        r
    }

    /// Stores `v` in the 15-bit TDP field.
    pub fn set_tdp(&mut self, v: u64) -> (r: Result<(), FieldError>)
        requires
            old(self).wf(),
        ensures
            final(self).wf(),
            r is Ok <==> v <= FIELD15_MAX,
            r is Ok ==> *final(self) == old(self).with_tdp(v),
            r is Err ==> *final(self) == *old(self),
    {
        if v > FIELD15_MAX {
            return Err(FieldError::TooWide);
        }
        self.tdp = v as u16;
        Ok(())
    }

    /// Stores `v` in the 15-bit TDC field.
    pub fn set_tdc(&mut self, v: u64) -> (r: Result<(), FieldError>)
        requires
            old(self).wf(),
        ensures
            final(self).wf(),
            r is Ok <==> v <= FIELD15_MAX,
            r is Ok ==> *final(self) == old(self).with_tdc(v),
            r is Err ==> *final(self) == *old(self),
    {
        if v > FIELD15_MAX {
            return Err(FieldError::TooWide);
        }
        self.tdc = v as u16;
        Ok(())
    }

    pub fn set_tdp_override(&mut self, v: bool)
        ensures
            *final(self) == (MsrTurboLimits { tdp_override: v, ..*old(self) }),
    {
        self.tdp_override = v;
    }

    pub fn set_tdc_override(&mut self, v: bool)
        ensures
            *final(self) == (MsrTurboLimits { tdc_override: v, ..*old(self) }),
    {
        self.tdc_override = v;
    }
}

/// The fields of a turbo limits word.
pub open spec fn turbo_limits_of(raw: u64) -> MsrTurboLimits {
    MsrTurboLimits {
        tdp: field(raw, 0, 0x7fff) as u16,
        tdp_override: bit(raw, 15),
        tdc: field(raw, 16, 0x7fff) as u16,
        tdc_override: bit(raw, 31),
        upper: field(raw, 32, 0xffff_ffff) as u32,
    }
}

/// Decodes the turbo limits register.
pub fn msr_turbo_limits(raw: u64) -> (r: MsrTurboLimits)
    ensures
        r == turbo_limits_of(raw),
        r.wf(),
        r.tdp as u64 == field(raw, 0, 0x7fff),
        r.tdp_override == bit(raw, 15),
        r.tdc as u64 == field(raw, 16, 0x7fff),
        r.tdc_override == bit(raw, 31),
        r.upper as u64 == field(raw, 32, 0xffff_ffff),
{
    assert(forall|n: u64| (raw >> n) & 0x7fffu64 <= 0x7fff) by (bit_vector);
    assert((raw >> 32u64) & 0xffff_ffffu64 <= 0xffff_ffff) by (bit_vector);
    MsrTurboLimits {
        tdp: ((raw >> 0u64) & 0x7fffu64) as u16,
        tdp_override: (raw >> 15u64) & 1u64 == 1u64,
        tdc: ((raw >> 16u64) & 0x7fffu64) as u16,
        tdc_override: (raw >> 31u64) & 1u64 == 1u64,
        upper: ((raw >> 32u64) & 0xffff_ffffu64) as u32,
    }
}

/// Decoding a turbo limits word and encoding it again, with no field
/// changed, gives back the same word.
pub proof fn lemma_turbo_limits_round_trip(raw: u64)
    ensures
        turbo_limits_of(raw).wf(),
        turbo_limits_of(raw).word() == raw,
{
    let l = turbo_limits_of(raw);
    assert(forall|n: u64| (raw >> n) & 0x7fffu64 <= 0x7fff) by (bit_vector);
    assert((raw >> 32u64) & 0xffff_ffffu64 <= 0xffff_ffff) by (bit_vector);
    lemma_word_fields(l);
    lemma_words_equal_by_fields(raw, l.word());
}

/// Each field of the layout reads back from the encoded word.
pub proof fn lemma_word_fields(l: MsrTurboLimits)
    requires
        l.wf(),
    ensures
        field(l.word(), 0, 0x7fff) == l.tdp as u64,
        bit(l.word(), 15) == l.tdp_override,
        field(l.word(), 16, 0x7fff) == l.tdc as u64,
        bit(l.word(), 31) == l.tdc_override,
        field(l.word(), 32, 0xffff_ffff) == l.upper as u64,
{
    let tdp = l.tdp as u64;
    let tdc = l.tdc as u64;
    let upper = l.upper as u64;
    let to: u64 = if l.tdp_override { 1 } else { 0 };
    let co: u64 = if l.tdc_override { 1 } else { 0 };
    assert(tdp <= 0x7fff && tdc <= 0x7fff && upper <= 0xffff_ffff && to <= 1 && co <= 1
        ==> {
        let r = upper << 32u64 | co << 31u64 | tdc << 16u64 | to << 15u64 | tdp;
        &&& (r >> 0u64) & 0x7fffu64 == tdp
        &&& (r >> 15u64) & 1u64 == to
        &&& (r >> 16u64) & 0x7fffu64 == tdc
        &&& (r >> 31u64) & 1u64 == co
        &&& (r >> 32u64) & 0xffff_ffffu64 == upper
    }) by (bit_vector);
}

/// Two words that agree on every field of the turbo limits layout are equal.
proof fn lemma_words_equal_by_fields(a: u64, b: u64)
    requires
        field(a, 0, 0x7fff) == field(b, 0, 0x7fff),
        bit(a, 15) == bit(b, 15),
        field(a, 16, 0x7fff) == field(b, 16, 0x7fff),
        bit(a, 31) == bit(b, 31),
        field(a, 32, 0xffff_ffff) == field(b, 32, 0xffff_ffff),
    ensures
        a == b,
{
    assert(((a >> 0u64) & 0x7fffu64 == (b >> 0u64) & 0x7fffu64 && ((a >> 15u64) & 1u64 == 1u64)
        == ((b >> 15u64) & 1u64 == 1u64) && (a >> 16u64) & 0x7fffu64 == (b >> 16u64) & 0x7fffu64
        && ((a >> 31u64) & 1u64 == 1u64) == ((b >> 31u64) & 1u64 == 1u64) && (a >> 32u64)
        & 0xffff_ffffu64 == (b >> 32u64) & 0xffff_ffffu64) ==> a == b) by (bit_vector);
}

} // verus!
