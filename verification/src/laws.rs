use vstd::prelude::*;

use crate::frequency::{
    beats_lane, finish_lane, note_exp_lane, samples_lane, seconds_lane, spec_frequency_finish,
    spec_frequency_from_beats, spec_frequency_from_control, spec_frequency_from_note,
    spec_frequency_from_samples, spec_frequency_from_seconds,
};
use crate::functions::{
    angle_lane, clamp_lane, lane_of, mix_lane, mixdown_fold, pan_angle_base, pan_clamp_lane,
    pan_gain_sq_lane, spec_angle_convert, spec_clamp, spec_mix, spec_mixdown, spec_pan_angles,
    spec_pan_apply, spec_pan_gain_squared,
};
use crate::scalar::{Scalar, spec_add, spec_mul, spec_sub};
use crate::value::{bit_set, LanePair, Num};

verus! {

// Every function of the builtin library except Combine and Sequence leaves
// the two lanes strictly apart: each lane of a result is the documented
// per-lane formula of the same lane of the inputs, so nothing of one lane
// can bleed into the other. Combine and Sequence cross lanes by design and
// say so in their own contracts. The laws below state the separation for
// each remaining function over the same specification functions that the
// functions' contracts use.

/// Law: a unit-angle conversion (ToRad, ToDeg) has no lane bleed — each
/// result lane is the per-lane conversion of the same operand lane alone.
pub proof fn lemma_angle_convert_lane_isolation(x: Num, factor: Scalar)
    ensures
        spec_angle_convert(x, factor) matches Some(r) ==> angle_lane(x.vec.l0, factor) == Some(
            r.vec.l0,
        ) && angle_lane(x.vec.l1, factor) == Some(r.vec.l1),
{
}

/// Law: a clamp has no lane bleed — each result lane is the min-then-max
/// of the same lane of the operand and of the two bounds alone.
pub proof fn lemma_clamp_lane_isolation(x: Num, lo: Num, hi: Num)
    ensures
        spec_clamp(x, lo, hi) matches Some(r) ==> clamp_lane(x.vec.l0, lo.vec.l0, hi.vec.l0)
            == Some(r.vec.l0) && clamp_lane(x.vec.l1, lo.vec.l1, hi.vec.l1) == Some(r.vec.l1),
{
}

/// Law: a linear interpolation has no lane bleed — each result lane is
/// `a + (b - a) * t` of the same lane of the three operands alone.
pub proof fn lemma_mix_lane_isolation(a: Num, b: Num, t: Num)
    ensures
        spec_mix(a, b, t) matches Some(r) ==> mix_lane(a.vec.l0, b.vec.l0, t.vec.l0) == Some(
            r.vec.l0,
        ) && mix_lane(a.vec.l1, b.vec.l1, t.vec.l1) == Some(r.vec.l1),
{
}

/// Law: the pan angle stage has no lane bleed — each clamped lane and each
/// sine argument comes from the same lane of the pan input alone (the
/// quarter-turn offset of lane 0 is a constant, not a lane value).
pub proof fn lemma_pan_angles_lane_isolation(pan: LanePair)
    ensures
        spec_pan_angles(pan) matches Some(r) ==> {
            &&& pan_clamp_lane(pan.l0) == Some(r.clamped.l0)
            &&& pan_clamp_lane(pan.l1) == Some(r.clamped.l1)
            &&& (match pan_clamp_lane(pan.l0) {
                Some(c0) => match pan_angle_base(c0) {
                    Some(b0) => spec_add(b0, crate::functions::half_pi()) == Some(r.angles.l0),
                    None => false,
                },
                None => false,
            })
            &&& (match pan_clamp_lane(pan.l1) {
                Some(c1) => pan_angle_base(c1) == Some(r.angles.l1),
                None => false,
            })
        },
{
}

/// Law: the pan gain stage has no lane bleed — each squared gain is the
/// weighted sine of the same lane alone, `(1 - pan)` weighing lane 0 and
/// `(1 + pan)` weighing lane 1.
pub proof fn lemma_pan_gain_lane_isolation(clamped: LanePair, sines: LanePair)
    ensures
        spec_pan_gain_squared(clamped, sines) matches Some(r) ==> pan_gain_sq_lane(
            spec_sub(crate::functions::one(), clamped.l0),
            sines.l0,
        ) == Some(r.l0) && pan_gain_sq_lane(
            spec_add(crate::functions::one(), clamped.l1),
            sines.l1,
        ) == Some(r.l1),
{
}

/// Law: applying the pan gains has no lane bleed — each result lane is the
/// same lane of the signal times the same lane of the gains alone.
pub proof fn lemma_pan_apply_lane_isolation(x: Num, gains: LanePair)
    ensures
        spec_pan_apply(x, gains) matches Some(r) ==> spec_mul(x.vec.l0, gains.l0) == Some(r.vec.l0)
            && spec_mul(x.vec.l1, gains.l1) == Some(r.vec.l1),
{
}

/// Law: every frequency conversion has no lane bleed — each lane of a
/// converted value, and each lane of a power-intrinsic exponent, is the
/// per-lane formula of the same input lane alone (the transport values are
/// shared constants of the call, not lane values).
pub proof fn lemma_frequency_lane_isolation(val: LanePair, tempo: Scalar, sample_rate: Scalar)
    ensures
        spec_frequency_from_beats(val, tempo) matches Some(r) ==> beats_lane(val.l0, tempo)
            == Some(r.l0) && beats_lane(val.l1, tempo) == Some(r.l1),
        spec_frequency_from_samples(val, sample_rate) matches Some(r) ==> samples_lane(
            val.l0,
            sample_rate,
        ) == Some(r.l0) && samples_lane(val.l1, sample_rate) == Some(r.l1),
        spec_frequency_from_seconds(val) matches Some(r) ==> seconds_lane(val.l0) == Some(r.l0)
            && seconds_lane(val.l1) == Some(r.l1),
        spec_frequency_from_note(val) matches Some(r) ==> note_exp_lane(val.l0) == Some(
            r.exponent.l0,
        ) && note_exp_lane(val.l1) == Some(r.exponent.l1),
        spec_frequency_from_control(val).exponent == val,
{
}

/// Law: the post-intrinsic scaling has no lane bleed — each result lane is
/// the scale times the same lane of the power values alone.
pub proof fn lemma_frequency_finish_lane_isolation(scale: Scalar, pow_values: LanePair)
    ensures
        spec_frequency_finish(scale, pow_values) matches Some(r) ==> finish_lane(scale, pow_values.l0)
            == Some(r.l0) && finish_lane(scale, pow_values.l1) == Some(r.l1),
{
}

/// Law: one lane of a mixdown reads only that lane of the active slots —
/// two arrays with the same presence mask whose active slots agree on a
/// lane have the same running sum on that lane, whatever the other lane or
/// any inactive slot holds: an inactive slot is never read.
pub proof fn lemma_mixdown_lane_isolation(s1: Seq<Num>, s2: Seq<Num>, mask: u32, lane: int, n: int)
    requires
        0 <= n,
        forall|i: int|
            0 <= i < n && bit_set(mask, i as u32) ==> lane_of(#[trigger] s1[i], lane) == lane_of(
                s2[i],
                lane,
            ),
    ensures
        mixdown_fold(s1, mask, lane, n) == mixdown_fold(s2, mask, lane, n),
    decreases n,
{
    if n > 0 {
        lemma_mixdown_lane_isolation(s1, s2, mask, lane, n - 1);
    }
}

/// Law: a whole mixdown has no lane bleed — each lane of the result is the
/// fold of that lane of the slots alone.
pub proof fn lemma_mixdown_result_lane_isolation(slots: Seq<Num>, mask: u32)
    ensures
        spec_mixdown(slots, mask) matches Some(r) ==> mixdown_fold(
            slots,
            mask,
            0,
            crate::value::ARRAY_CAPACITY as int,
        ) == Some(r.vec.l0) && mixdown_fold(
            slots,
            mask,
            1,
            crate::value::ARRAY_CAPACITY as int,
        ) == Some(r.vec.l1),
{
}

} // verus!
