//! The sample type of the pipeline and the arithmetic done on it.
//!
//! Samples are signed 16-bit PCM. A volume is a linear gain in 16.16 fixed
//! point, so that every product is an exact integer and every rounding is
//! stated.

use vstd::prelude::*;

verus! {

/// The value of silence.
pub const MID: i16 = 0;

/// The raw gain that leaves a sample unchanged.
pub const UNITY_GAIN: u32 = 65536;

/// A linear gain in 16.16 fixed point: `raw / 65536` is the factor.
#[derive(Clone, Copy, Debug, PartialEq, Eq, Structural)]
pub struct Volume {
    pub raw: u32,
}

/// Division that rounds toward zero, for a positive divisor.
pub open spec fn trunc_div(a: int, b: int) -> int {
    if a >= 0 {
        a / b
    } else {
        -((-a) / b)
    }
}

/// The nearest value that a sample can hold.
pub open spec fn clamped(x: int) -> i16 {
    if x > i16::MAX {
        i16::MAX
    } else if x < i16::MIN {
        i16::MIN
    } else {
        x as i16
    }
}

/// A sample times a gain, rounded toward zero and clamped to the sample range.
pub open spec fn scaled(s: i16, v: Volume) -> i16 {
    clamped(trunc_div(s as int * v.raw as int, 65536))
}

/// The mean of a stereo pair times a gain, rounded once, toward zero, and
/// clamped to the sample range.
pub open spec fn downmixed_pair(l: i16, r: i16, v: Volume) -> i16 {
    clamped(trunc_div((l as int + r as int) * v.raw as int, 131072))
}

impl Volume {
    /// The gain that leaves every sample unchanged.
    pub fn unity() -> (v: Volume)
        ensures
            v.raw == UNITY_GAIN,
    {
        Volume { raw: UNITY_GAIN }
    }

    /// The gain with the given 16.16 fixed-point value.
    pub fn from_raw(raw: u32) -> (v: Volume)
        ensures
            v.raw == raw,
    {
        Volume { raw }
    }

    /// The gain of `percent / 100`, rounded down to a multiple of `1 / 65536`.
    pub fn from_percent(percent: u16) -> (v: Volume)
        ensures
            v.raw == (percent as int * 65536) / 100,
    {
        let wide: u64 = (percent as u64) * 65536;
        Volume { raw: (wide / 100) as u32 }
    }

    /// The 16.16 fixed-point value of the gain.
    pub fn raw(&self) -> (r: u32)
        ensures
            r == self.raw,
    {
        self.raw
    }
}

/// Rounds a signed quotient toward zero and clamps it to the sample range.
fn clamp_quotient(negative: bool, magnitude: u64) -> (r: i16)
    ensures
        r == clamped(
            if negative {
                -(magnitude as int)
            } else {
                magnitude as int
            },
        ),
{
    if negative {
        if magnitude >= 32768 {
            i16::MIN
        } else {
            let m: i16 = magnitude as i16;
            -m
        }
    } else {
        if magnitude > 32767 {
            i16::MAX
        } else {
            magnitude as i16
        }
    }
}

/// Scales one sample by a volume.
pub fn mul_amp(s: i16, v: Volume) -> (r: i16)
    ensures
        r == scaled(s, v),
{
    let negative: bool = s < 0;
    let wide: i32 = s as i32;
    let magnitude: u64 = if negative {
        (-wide) as u64
    } else {
        wide as u64
    };
    let gain: u64 = v.raw as u64;
    assert(magnitude * gain <= 32768 * 0xffff_ffff) by (nonlinear_arith)
        requires
            magnitude <= 32768,
            gain <= 0xffff_ffff,
    ;
    let product: u64 = magnitude * gain;
    let quotient: u64 = product / 65536;
    proof {
        if negative {
            assert(-(s as int * v.raw as int)
                == magnitude as int * gain as int) by (nonlinear_arith)
                requires
                    magnitude as int == -(s as int),
                    gain as int == v.raw as int,
            ;
            assert(s as int * v.raw as int <= 0) by (nonlinear_arith)
                requires
                    (s as int) < 0,
                    v.raw as int >= 0,
            ;
            if s as int * v.raw as int == 0 {
                assert(quotient == 0);
            }
        } else {
            assert(s as int * v.raw as int == magnitude as int * gain as int) by (nonlinear_arith)
                requires
                    magnitude as int == s as int,
                    gain as int == v.raw as int,
            ;
        }
    }
    clamp_quotient(negative && quotient > 0, quotient)
}

/// Mixes one stereo pair down to a mono sample at a volume.
pub fn downmix_pair(l: i16, r: i16, v: Volume) -> (m: i16)
    ensures
        m == downmixed_pair(l, r, v),
{
    let sum: i32 = l as i32 + r as i32;
    let negative: bool = sum < 0;
    let magnitude: u64 = if negative {
        (-sum) as u64
    } else {
        sum as u64
    };
    let gain: u64 = v.raw as u64;
    assert(magnitude * gain <= 65536 * 0xffff_ffff) by (nonlinear_arith)
        requires
            magnitude <= 65536,
            gain <= 0xffff_ffff,
    ;
    let product: u64 = magnitude * gain;
    let quotient: u64 = product / 131072;
    proof {
        let exact = (l as int + r as int) * v.raw as int;
        if negative {
            assert(-exact == magnitude as int * gain as int) by (nonlinear_arith)
                requires
                    exact == (l as int + r as int) * v.raw as int,
                    magnitude as int == -(l as int + r as int),
                    gain as int == v.raw as int,
            ;
            assert(exact <= 0) by (nonlinear_arith)
                requires
                    exact == (l as int + r as int) * v.raw as int,
                    (l as int + r as int) < 0,
                    v.raw as int >= 0,
            ;
            if exact == 0 {
                assert(quotient == 0);
            }
        } else {
            assert(exact == magnitude as int * gain as int) by (nonlinear_arith)
                requires
                    exact == (l as int + r as int) * v.raw as int,
                    magnitude as int == l as int + r as int,
                    gain as int == v.raw as int,
            ;
        }
    }
    clamp_quotient(negative && quotient > 0, quotient)
}

/// A stereo pair mixed down is the mean of the pair times the gain, to
/// within one step of the sample range: before it is clamped, the result
/// times `2 * 65536` lies less than `2 * 65536` from the sum of the pair
/// times the raw gain, and never beyond it.
pub proof fn lemma_downmix_is_scaled_mean(l: i16, r: i16, v: Volume)
    ensures
        ({
            let exact = (l as int + r as int) * v.raw as int;
            let rounded = trunc_div(exact, 131072);
            &&& downmixed_pair(l, r, v) == clamped(rounded)
            &&& exact >= 0 ==> exact - 131072 < rounded * 131072 <= exact
            &&& exact < 0 ==> exact <= rounded * 131072 < exact + 131072
        }),
{
    let exact = (l as int + r as int) * v.raw as int;
    if exact >= 0 {
        vstd::arithmetic::div_mod::lemma_fundamental_div_mod(exact, 131072);
        vstd::arithmetic::div_mod::lemma_mod_bound(exact, 131072);
    } else {
        vstd::arithmetic::div_mod::lemma_fundamental_div_mod(-exact, 131072);
        vstd::arithmetic::div_mod::lemma_mod_bound(-exact, 131072);
    }
}

/// A sample scaled is the sample times the gain, to within one step of the
/// sample range: before it is clamped, the result times `65536` lies less
/// than `65536` from the sample times the raw gain, and never beyond it.
pub proof fn lemma_scaled_is_product(s: i16, v: Volume)
    ensures
        ({
            let exact = s as int * v.raw as int;
            let rounded = trunc_div(exact, 65536);
            &&& scaled(s, v) == clamped(rounded)
            &&& exact >= 0 ==> exact - 65536 < rounded * 65536 <= exact
            &&& exact < 0 ==> exact <= rounded * 65536 < exact + 65536
        }),
{
    let exact = s as int * v.raw as int;
    if exact >= 0 {
        vstd::arithmetic::div_mod::lemma_fundamental_div_mod(exact, 65536);
        vstd::arithmetic::div_mod::lemma_mod_bound(exact, 65536);
    } else {
        vstd::arithmetic::div_mod::lemma_fundamental_div_mod(-exact, 65536);
        vstd::arithmetic::div_mod::lemma_mod_bound(-exact, 65536);
    }
}

/// At unity gain a sample stays as it is, and silence stays silence at any
/// gain.
pub proof fn lemma_unity_and_silence(s: i16, v: Volume)
    ensures
        scaled(s, Volume { raw: UNITY_GAIN }) == s,
        scaled(MID, v) == MID,
{
    let exact = s as int * 65536;
    if exact >= 0 {
        assert(exact / 65536 == s as int) by (nonlinear_arith)
            requires
                exact == s as int * 65536,
        ;
    } else {
        assert((-exact) / 65536 == -(s as int)) by (nonlinear_arith)
            requires
                exact == s as int * 65536,
        ;
    }
    assert(0int * v.raw as int == 0) by (nonlinear_arith);
}

} // verus!
