use synthnum::frequency::{
    frequency, frequency_finish, frequency_from_control, frequency_from_note, FreqPlan, Transport,
};
use synthnum::scalar::Scalar;
use synthnum::value::{Form, LanePair};

fn lanes_int(a: i64, b: i64) -> LanePair {
    LanePair { l0: Scalar::integer(a), l1: Scalar::integer(b) }
}

fn scalar_to_f64(s: &Scalar) -> f64 {
    (s.num as f64 / s.den as f64) * std::f64::consts::PI.powi(s.pi_exp as i32)
}

fn scalar_from_f64(x: f64) -> Scalar {
    let scale: i64 = 1 << 40;
    Scalar::rat((x * scale as f64).round() as i64, scale)
}

fn transport() -> Transport {
    Transport { tempo: Scalar::integer(120), sample_rate: Scalar::integer(48000) }
}

/// Runs the power intrinsic of the target on a pending request and scales
/// the outcome, as the surrounding compiler's generated code would.
fn finish_with_pow(req: &synthnum::frequency::PowRequest) -> LanePair {
    let base = scalar_to_f64(&req.base);
    let p0 = base.powf(scalar_to_f64(&req.exponent.l0));
    let p1 = base.powf(scalar_to_f64(&req.exponent.l1));
    let pows = LanePair { l0: scalar_from_f64(p0), l1: scalar_from_f64(p1) };
    frequency_finish(&req.scale, &pows).unwrap()
}

#[test]
fn note_a4_maps_to_440_hz() {
    let req = frequency_from_note(&lanes_int(69, 69)).unwrap();
    assert!(req.base.eq_value(&Scalar::integer(2)));
    assert!(req.scale.eq_value(&Scalar::integer(440)));
    assert!(req.exponent.l0.eq_value(&Scalar::integer(0)));
    let out = finish_with_pow(&req);
    assert!(out.l0.eq_value(&Scalar::integer(440)));
    assert!(out.l1.eq_value(&Scalar::integer(440)));
}

#[test]
fn note_81_maps_to_880_hz() {
    let req = frequency_from_note(&lanes_int(81, 81)).unwrap();
    assert!(req.exponent.l0.eq_value(&Scalar::integer(1)));
    let out = finish_with_pow(&req);
    assert!(out.l0.eq_value(&Scalar::integer(880)));
    assert!(out.l1.eq_value(&Scalar::integer(880)));
}

#[test]
fn seconds_period_inverts_to_frequency() {
    let val = LanePair { l0: Scalar::integer(1), l1: Scalar::rat(1, 2) };
    let plan = frequency(Form::Seconds, &val, &transport()).unwrap();
    match plan {
        FreqPlan::Exact(out) => {
            assert!(out.l0.eq_value(&Scalar::integer(1)));
            assert!(out.l1.eq_value(&Scalar::integer(2)));
        },
        FreqPlan::Intrinsic(_) => panic!("seconds conversion needs no intrinsic"),
    }
}

#[test]
fn samples_period_uses_sample_rate() {
    let plan = frequency(Form::Samples, &lanes_int(48000, 48000), &transport()).unwrap();
    match plan {
        FreqPlan::Exact(out) => {
            assert!(out.l0.eq_value(&Scalar::integer(1)));
            assert!(out.l1.eq_value(&Scalar::integer(1)));
        },
        FreqPlan::Intrinsic(_) => panic!("samples conversion needs no intrinsic"),
    }
}

#[test]
fn beats_use_tempo_at_the_call() {
    let plan = frequency(Form::Beats, &lanes_int(1, 1), &transport()).unwrap();
    match plan {
        FreqPlan::Exact(out) => {
            assert!(out.l0.eq_value(&Scalar::integer(2)));
            assert!(out.l1.eq_value(&Scalar::integer(2)));
        },
        FreqPlan::Intrinsic(_) => panic!("beats conversion needs no intrinsic"),
    }
}

#[test]
fn control_maps_exponentially_to_20000_hz() {
    let req = frequency_from_control(&lanes_int(1, 0));
    assert!(req.base.eq_value(&Scalar::integer(20000)));
    assert!(req.scale.eq_value(&Scalar::integer(1)));
    let out = finish_with_pow(&req);
    assert!(out.l0.eq_value(&Scalar::integer(20000)));
    assert!(out.l1.eq_value(&Scalar::integer(1)));
}

#[test]
fn control_dispatch_hands_back_the_request() {
    let val = lanes_int(1, 1);
    let plan = frequency(Form::Control, &val, &transport()).unwrap();
    match plan {
        FreqPlan::Intrinsic(req) => {
            assert!(req.exponent.eq_value(&val));
        },
        FreqPlan::Exact(_) => panic!("control conversion goes through the power intrinsic"),
    }
}

#[test]
fn zero_period_has_no_exact_frequency() {
    let r = frequency(Form::Seconds, &lanes_int(0, 1), &transport());
    assert!(r.is_none());
    let r = frequency(Form::Samples, &lanes_int(1, 0), &transport());
    assert!(r.is_none());
    let r = frequency(Form::Beats, &lanes_int(0, 0), &transport());
    assert!(r.is_none());
}
