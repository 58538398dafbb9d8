//! The STM32G0 ADC: the oversampling settings that the driver applies, the full-scale
//! reading they give, and the conversion of a sample to millivolts against the
//! internal voltage reference.
use vstd::prelude::*;
use vstd::arithmetic::power2::{lemma2_to64, pow2};
use vstd::bits::{lemma_u32_shl_is_mul, lemma_u32_shr_is_div};

verus! {

/// The internal reference voltage of the STM32G0, in millivolts.
pub const VREFINT_MV: u32 = 1212;

/// Largest sample of the 12-bit converter before oversampling.
pub const ADC_MAX_12BIT: u32 = 0xfff;

/// `bits * VREFINT_MV / vref_bits` before it is cut to 16 bits.
pub open spec fn millivolts_spec(vref_bits: u16, bits: u16) -> int {
    (bits * VREFINT_MV) / (vref_bits as int)
}

/// Converts a sample to millivolts, given the sample `vref_bits` that the same ADC
/// took of the internal reference: `bits * 1212 / vref_bits`, rounded down and cut to
/// its low 16 bits.
pub fn convert_to_millivolts(vref_bits: u16, bits: u16) -> (mv: u16)
    requires
        vref_bits > 0,
    ensures
        mv == millivolts_spec(vref_bits, bits) % 0x10000,
        mv == (bits * 1212 / (vref_bits as int)) % 0x10000,
        bits * 1212 < 0x10000 * vref_bits ==> mv * vref_bits <= bits * 1212 < (mv + 1)
            * vref_bits,
{
    let scaled: u32 = (bits as u32) * VREFINT_MV;
    let quotient: u32 = scaled / (vref_bits as u32);
    let mv = quotient as u16;
    assert(mv == quotient % 0x10000) by (bit_vector)
        requires
            mv == quotient as u16,
    ;
    proof {
        lemma_millivolts_floor(vref_bits, bits);
        let n = bits * 1212;
        let d = vref_bits as int;
        let q = quotient as int;
        if n < 0x10000 * d {
            assert(q < 0x10000) by (nonlinear_arith)
                requires
                    q * d <= n,
                    n < 0x10000 * d,
                    d > 0,
            ;
        }
    }
    mv
}

/// The conversion always uses the 1212 mV reference: the millivolts are the floor of
/// `bits * 1212 / vref_bits`, that is the one value `q` with
/// `q * vref_bits <= bits * 1212 < (q + 1) * vref_bits`.
pub proof fn lemma_millivolts_floor(vref_bits: u16, bits: u16)
    requires
        vref_bits > 0,
    ensures
        VREFINT_MV == 1212,
        millivolts_spec(vref_bits, bits) * vref_bits <= bits * 1212,
        bits * 1212 < (millivolts_spec(vref_bits, bits) + 1) * vref_bits,
        millivolts_spec(vref_bits, bits) == bits * 1212 / (vref_bits as int),
{
    let q = millivolts_spec(vref_bits, bits);
    let n = bits * 1212;
    let d = vref_bits as int;
    assert(q == n / d);
    assert(q * d <= n < (q + 1) * d) by (nonlinear_arith)
        requires
            q == n / d,
            d > 0,
    ;
}

/// Battery voltage in millivolts from a sample of the VBAT channel, which sees the
/// battery through a divider by three: three times the sample's millivolts.
pub fn battery_millivolts(vref_bits: u16, bat_bits: u16) -> (mv: u32)
    requires
        vref_bits > 0,
    ensures
        mv == 3 * (millivolts_spec(vref_bits, bat_bits) % 0x10000),
        mv == 3 * ((bat_bits * 1212 / (vref_bits as int)) % 0x10000),
{
    let v = convert_to_millivolts(vref_bits, bat_bits);
    3 * (v as u32)
}

/// Sampling time of a conversion, in ADC clock cycles.
#[derive(Clone, Copy, Debug, PartialEq, Eq, Structural)]
pub enum SampleTime {
    Cycles1_5,
    Cycles3_5,
    Cycles7_5,
    Cycles12_5,
    Cycles19_5,
    Cycles39_5,
    Cycles79_5,
    Cycles160_5,
}

/// The settings the ADC driver applies when it starts.
#[derive(Clone, Copy, Debug, PartialEq, Eq, Structural)]
pub struct AdcSettings {
    pub sample_time: SampleTime,
    /// Oversampling ratio code `x`: `2^(x+1)` samples are summed.
    pub oversampling_ratio: u8,
    /// Right shift applied to the oversampled sum.
    pub oversampling_shift: u8,
    pub oversampling_enabled: bool,
}

impl AdcSettings {
    /// The ratio code has three bits and the shift is at most 8 bits.
    pub open spec fn wf(self) -> bool {
        &&& self.oversampling_ratio <= 7
        &&& self.oversampling_shift <= 8
    }

    /// The number of samples summed: `2^(ratio + 1)`.
    pub open spec fn oversampling_factor_spec(self) -> nat {
        pow2((self.oversampling_ratio + 1) as nat)
    }

    /// The largest reading these settings give: `0xfff * 2^(ratio + 1) >> shift`.
    pub open spec fn full_scale_spec(self) -> nat {
        ((ADC_MAX_12BIT * self.oversampling_factor_spec()) as nat) / pow2(
            self.oversampling_shift as nat,
        )
    }

    /// Each ratio code doubles the samples summed, from 2 at code 0 to 256 at code 7,
    /// and the full scale is `0xfff` times that count, shifted right by the shift: with
    /// no shift it is the sum itself, each shift halves it, rounding down.
    pub proof fn lemma_oversampling_scale(self)
        requires
            self.wf(),
        ensures
            self.oversampling_ratio == 0 ==> self.oversampling_factor_spec() == 2,
            self.oversampling_ratio == 7 ==> self.oversampling_factor_spec() == 256,
            self.oversampling_ratio < 7 ==> (AdcSettings {
                oversampling_ratio: (self.oversampling_ratio + 1) as u8,
                ..self
            }).oversampling_factor_spec() == 2 * self.oversampling_factor_spec(),
            self.oversampling_shift == 0 ==> self.full_scale_spec() == 0xfff
                * self.oversampling_factor_spec(),
            self.oversampling_shift < 8 ==> (AdcSettings {
                oversampling_shift: (self.oversampling_shift + 1) as u8,
                ..self
            }).full_scale_spec() == self.full_scale_spec() / 2,
    {
        lemma2_to64();
        let r = self.oversampling_ratio;
        let sh = self.oversampling_shift;
        let sum = (ADC_MAX_12BIT * self.oversampling_factor_spec()) as nat;
        vstd::arithmetic::power2::lemma_pow2_adds(r as nat + 1, 1);
        vstd::arithmetic::power2::lemma_pow2_adds(sh as nat, 1);
        vstd::arithmetic::power2::lemma_pow2_pos(sh as nat);
        vstd::arithmetic::div_mod::lemma_div_denominator(sum as int, pow2(sh as nat) as int, 2);
        if sh == 0 {
            assert(pow2(0) == 1);
            assert(self.full_scale_spec() == sum / 1);
            assert(sum / 1 == sum);
        }
    }

    /// The driver's settings: 79.5 cycles of sampling time, 16 samples summed
    /// (ratio code 3), no shift after conversion, oversampling on.
    pub fn oversampled() -> (s: AdcSettings)
        ensures
            s.wf(),
            s.sample_time == SampleTime::Cycles79_5,
            s.oversampling_ratio == 3,
            s.oversampling_shift == 0,
            s.oversampling_enabled,
            s.oversampling_factor_spec() == 16,
            s.full_scale_spec() == 0xfff0,
    {
        proof {
            lemma2_to64();
        }
        AdcSettings {
            sample_time: SampleTime::Cycles79_5,
            oversampling_ratio: 0x03,
            oversampling_shift: 0b0000,
            oversampling_enabled: true,
        }
    }

    /// The number of samples summed per reading.
    pub fn oversampling_factor(&self) -> (n: u32)
        requires
            self.wf(),
        ensures
            n == self.oversampling_factor_spec(),
    {
        let exponent: u32 = self.oversampling_ratio as u32 + 1;
        proof {
            lemma2_to64();
            lemma_u32_shl_is_mul(1, exponent);
        }
        1u32 << exponent
    }

    /// The largest reading these settings give.
    pub fn full_scale(&self) -> (max: u32)
        requires
            self.wf(),
        ensures
            max == self.full_scale_spec(),
    {
        let exponent: u32 = self.oversampling_ratio as u32 + 1;
        let shift: u32 = self.oversampling_shift as u32;
        proof {
            lemma2_to64();
            lemma_u32_shl_is_mul(ADC_MAX_12BIT, exponent);
        }
        let sum: u32 = ADC_MAX_12BIT << exponent;
        proof {
            lemma_u32_shr_is_div(sum, shift);
        }
        sum >> shift
    }
}

} // verus!
