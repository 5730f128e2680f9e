use vstd::prelude::*;

use crate::scalar::{Scalar, s_wf, spec_div, spec_mul, spec_sub};
use crate::value::{Form, LanePair, lanes_wf};

verus! {

/// The process-wide transport state: the current tempo in beats per minute
/// and the current sample rate. Both may change between invocations of the
/// generated code, so every conversion takes the transport as an argument
/// and reads it at the point of use; nothing is cached across calls.
#[derive(Clone, Copy)]
pub struct Transport {
    pub tempo: Scalar,
    pub sample_rate: Scalar,
}

pub open spec fn transport_wf(t: Transport) -> bool {
    s_wf(t.tempo) && s_wf(t.sample_rate)
}

/// A pending call of the target's exponentiation intrinsic: the result of
/// the conversion is `scale * pow(base, exponent)`, lane-wise. The caller
/// computes the power and hands the values to `frequency_finish`.
#[derive(Clone, Copy)]
pub struct PowRequest {
    pub base: Scalar,
    pub exponent: LanePair,
    pub scale: Scalar,
}

pub open spec fn pow_request_wf(r: PowRequest) -> bool {
    s_wf(r.base) && lanes_wf(r.exponent) && s_wf(r.scale)
}

/// What a frequency conversion lowers to: either an exact value, or a
/// power-intrinsic call still to be made.
pub enum FreqPlan {
    Exact(LanePair),
    Intrinsic(PowRequest),
}

/// The constant 60, seconds per minute.
pub open spec fn sixty() -> Scalar {
    Scalar { num: 60, den: 1, pi_exp: 0 }
}

/// The constant 1.
pub open spec fn one_scalar() -> Scalar {
    Scalar { num: 1, den: 1, pi_exp: 0 }
}

/// One lane of a beats conversion: `tempo / (val * 60)`.
pub open spec fn beats_lane(v: Scalar, tempo: Scalar) -> Option<Scalar> {
    match spec_mul(v, sixty()) {
        Some(d) => spec_div(tempo, d),
        None => None,
    }
}

pub open spec fn spec_frequency_from_beats(val: LanePair, tempo: Scalar) -> Option<LanePair> {
    match (beats_lane(val.l0, tempo), beats_lane(val.l1, tempo)) {
        (Some(v0), Some(v1)) => Some(LanePair { l0: v0, l1: v1 }),
        _ => None,
    }
}

/// One lane of a samples conversion: `sample_rate / val`, the value being
/// a period length in samples.
pub open spec fn samples_lane(v: Scalar, sample_rate: Scalar) -> Option<Scalar> {
    spec_div(sample_rate, v)
}

pub open spec fn spec_frequency_from_samples(val: LanePair, sample_rate: Scalar) -> Option<
    LanePair,
> {
    match (samples_lane(val.l0, sample_rate), samples_lane(val.l1, sample_rate)) {
        (Some(v0), Some(v1)) => Some(LanePair { l0: v0, l1: v1 }),
        _ => None,
    }
}

/// One lane of a seconds conversion: `1 / val`.
pub open spec fn seconds_lane(v: Scalar) -> Option<Scalar> {
    spec_div(one_scalar(), v)
}

pub open spec fn spec_frequency_from_seconds(val: LanePair) -> Option<LanePair> {
    match (seconds_lane(val.l0), seconds_lane(val.l1)) {
        (Some(v0), Some(v1)) => Some(LanePair { l0: v0, l1: v1 }),
        _ => None,
    }
}

/// The constant 69, the MIDI number of A4.
pub open spec fn note_a4() -> Scalar {
    Scalar { num: 69, den: 1, pi_exp: 0 }
}

/// The constant 12, semitones per octave.
pub open spec fn twelve() -> Scalar {
    Scalar { num: 12, den: 1, pi_exp: 0 }
}

/// The constant 440, the frequency of A4 in equal-tempered tuning.
pub open spec fn a4_hz() -> Scalar {
    Scalar { num: 440, den: 1, pi_exp: 0 }
}

/// The constant 2, the octave ratio.
pub open spec fn two_scalar() -> Scalar {
    Scalar { num: 2, den: 1, pi_exp: 0 }
}

/// The constant 20000, the top of the audible range in Hz.
pub open spec fn control_top_hz() -> Scalar {
    Scalar { num: 20000, den: 1, pi_exp: 0 }
}

/// One lane of a note conversion's exponent: `(val - 69) / 12`.
pub open spec fn note_exp_lane(v: Scalar) -> Option<Scalar> {
    match spec_sub(v, note_a4()) {
        Some(d) => spec_div(d, twelve()),
        None => None,
    }
}

pub open spec fn spec_frequency_from_note(val: LanePair) -> Option<PowRequest> {
    match (note_exp_lane(val.l0), note_exp_lane(val.l1)) {
        (Some(e0), Some(e1)) => Some(
            PowRequest {
                base: two_scalar(),
                exponent: LanePair { l0: e0, l1: e1 },
                scale: a4_hz(),
            },
        ),
        _ => None,
    }
}

/// A control conversion always lowers to `pow(20000, val)` unscaled.
pub open spec fn spec_frequency_from_control(val: LanePair) -> PowRequest {
    PowRequest { base: control_top_hz(), exponent: val, scale: one_scalar() }
}

/// `tempo / (val * 60)`: the value counts beats, the tempo is read from
/// the transport at this call.
pub fn frequency_from_beats(val: &LanePair, transport: &Transport) -> (r: Option<LanePair>)
    requires
        lanes_wf(*val),
        transport_wf(*transport),
    ensures
        r == spec_frequency_from_beats(*val, transport.tempo),
        r matches Some(v) ==> lanes_wf(v),
{
    let sixty_s = Scalar::integer(60);
    let f0 = match val.l0.times(&sixty_s) {
        Some(d) => transport.tempo.divided_by(&d),
        None => None,
    };
    let f1 = match val.l1.times(&sixty_s) {
        Some(d) => transport.tempo.divided_by(&d),
        None => None,
    };
    match (f0, f1) {
        (Some(v0), Some(v1)) => Some(LanePair { l0: v0, l1: v1 }),
        _ => None,
    }
}

/// `pow(20000, val)`: an exponential mapping of the normalized control
/// range onto 1..20000 Hz, handed to the power intrinsic.
pub fn frequency_from_control(val: &LanePair) -> (r: PowRequest)
    requires
        lanes_wf(*val),
    ensures
        r == spec_frequency_from_control(*val),
        pow_request_wf(r),
{
    PowRequest {
        base: Scalar::integer(20000),
        exponent: *val,
        scale: Scalar::integer(1),
    }
}

/// `440 * pow(2, (val - 69) / 12)`: equal-tempered tuning around MIDI note
/// 69 (A4, 440 Hz), handed to the power intrinsic with the scale 440.
pub fn frequency_from_note(val: &LanePair) -> (r: Option<PowRequest>)
    requires
        lanes_wf(*val),
    ensures
        r == spec_frequency_from_note(*val),
        r matches Some(v) ==> pow_request_wf(v),
{
    let a4 = Scalar::integer(69);
    let twelve_s = Scalar::integer(12);
    let e0 = match val.l0.minus(&a4) {
        Some(d) => d.divided_by(&twelve_s),
        None => None,
    };
    let e1 = match val.l1.minus(&a4) {
        Some(d) => d.divided_by(&twelve_s),
        None => None,
    };
    match (e0, e1) {
        (Some(e0), Some(e1)) => Some(
            PowRequest {
                base: Scalar::integer(2),
                exponent: LanePair { l0: e0, l1: e1 },
                scale: Scalar::integer(440),
            },
        ),
        _ => None,
    }
}

/// `sample_rate / val`: the value is a period length in samples, the rate
/// is read from the transport at this call.
pub fn frequency_from_samples(val: &LanePair, transport: &Transport) -> (r: Option<LanePair>)
    requires
        lanes_wf(*val),
        transport_wf(*transport),
    ensures
        r == spec_frequency_from_samples(*val, transport.sample_rate),
        r matches Some(v) ==> lanes_wf(v),
{
    let f0 = transport.sample_rate.divided_by(&val.l0);
    let f1 = transport.sample_rate.divided_by(&val.l1);
    match (f0, f1) {
        (Some(v0), Some(v1)) => Some(LanePair { l0: v0, l1: v1 }),
        _ => None,
    }
}

/// `1 / val`: the value is a period in seconds.
pub fn frequency_from_seconds(val: &LanePair) -> (r: Option<LanePair>)
    requires
        lanes_wf(*val),
    ensures
        r == spec_frequency_from_seconds(*val),
        r matches Some(v) ==> lanes_wf(v),
{
    let one_s = Scalar::integer(1);
    let f0 = one_s.divided_by(&val.l0);
    let f1 = one_s.divided_by(&val.l1);
    match (f0, f1) {
        (Some(v0), Some(v1)) => Some(LanePair { l0: v0, l1: v1 }),
        _ => None,
    }
}

/// Maps a value in a declared source form to a canonical frequency in Hz,
/// lane-wise and independently per lane. The dispatch is the static
/// one-to-one mapping from source form to formula; the unmarked form has
/// no registered formula, and a call with it would be an internal error of
/// the surrounding compiler, so it is excluded here.
pub fn frequency(form: Form, val: &LanePair, transport: &Transport) -> (r: Option<FreqPlan>)
    requires
        lanes_wf(*val),
        transport_wf(*transport),
        form != Form::Unmarked,
    ensures
        form == Form::Beats ==> r == match spec_frequency_from_beats(*val, transport.tempo) {
            Some(v) => Some(FreqPlan::Exact(v)),
            None => None,
        },
        form == Form::Control ==> r == Some(
            FreqPlan::Intrinsic(spec_frequency_from_control(*val)),
        ),
        form == Form::Note ==> r == match spec_frequency_from_note(*val) {
            Some(p) => Some(FreqPlan::Intrinsic(p)),
            None => None,
        },
        form == Form::Samples ==> r == match spec_frequency_from_samples(
            *val,
            transport.sample_rate,
        ) {
            Some(v) => Some(FreqPlan::Exact(v)),
            None => None,
        },
        form == Form::Seconds ==> r == match spec_frequency_from_seconds(*val) {
            Some(v) => Some(FreqPlan::Exact(v)),
            None => None,
        },
{
    match form {
        Form::Beats => match frequency_from_beats(val, transport) {
            Some(v) => Some(FreqPlan::Exact(v)),
            None => None,
        },
        Form::Control => Some(FreqPlan::Intrinsic(frequency_from_control(val))),
        Form::Note => match frequency_from_note(val) {
            Some(p) => Some(FreqPlan::Intrinsic(p)),
            None => None,
        },
        Form::Samples => match frequency_from_samples(val, transport) {
            Some(v) => Some(FreqPlan::Exact(v)),
            None => None,
        },
        Form::Seconds => match frequency_from_seconds(val) {
            Some(v) => Some(FreqPlan::Exact(v)),
            None => None,
        },
        Form::Unmarked => None,
    }
}

/// One lane of the finishing step after the power intrinsic returned:
/// `scale * pow_value`.
pub open spec fn finish_lane(scale: Scalar, pow_value: Scalar) -> Option<Scalar> {
    spec_mul(scale, pow_value)
}

pub open spec fn spec_frequency_finish(scale: Scalar, pow_values: LanePair) -> Option<LanePair> {
    match (finish_lane(scale, pow_values.l0), finish_lane(scale, pow_values.l1)) {
        (Some(v0), Some(v1)) => Some(LanePair { l0: v0, l1: v1 }),
        _ => None,
    }
}

/// Scales the values the power intrinsic returned: the conversion's result
/// is `scale * pow(base, exponent)`, and this is the multiply by `scale`.
pub fn frequency_finish(scale: &Scalar, pow_values: &LanePair) -> (r: Option<LanePair>)
    requires
        s_wf(*scale),
        lanes_wf(*pow_values),
    ensures
        r == spec_frequency_finish(*scale, *pow_values),
        r matches Some(v) ==> lanes_wf(v),
{
    match (scale.times(&pow_values.l0), scale.times(&pow_values.l1)) {
        (Some(v0), Some(v1)) => Some(LanePair { l0: v0, l1: v1 }),
        _ => None,
    }
}

} // verus!
