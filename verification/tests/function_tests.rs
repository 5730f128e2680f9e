use synthnum::functions::{
    ClampFunction, CombineFunction, MixFunction, MixdownFunction, SequenceFunction, ToDegFunction,
    ToRadFunction,
};
use synthnum::scalar::Scalar;
use synthnum::value::{Form, LanePair, Num, SparseArray, ARRAY_CAPACITY};

fn num_int(a: i64, b: i64, form: Form) -> Num {
    Num { vec: LanePair { l0: Scalar::integer(a), l1: Scalar::integer(b) }, form }
}

#[test]
fn to_radians_of_180_is_pi() {
    let out = ToRadFunction::gen_call(&num_int(180, 180, Form::Unmarked)).unwrap();
    let pi = Scalar::pi_multiple(1, 1, 1);
    assert!(out.vec.l0.eq_value(&pi));
    assert!(out.vec.l1.eq_value(&pi));
    assert_eq!(out.form, Form::Unmarked);
}

#[test]
fn to_degrees_of_pi_is_180() {
    let pi = Scalar::pi_multiple(1, 1, 1);
    let x = Num { vec: LanePair { l0: pi, l1: pi }, form: Form::Note };
    let out = ToDegFunction::gen_call(&x).unwrap();
    assert!(out.vec.l0.eq_value(&Scalar::integer(180)));
    assert!(out.vec.l1.eq_value(&Scalar::integer(180)));
    assert_eq!(out.form, Form::Note);
}

#[test]
fn angle_conversions_round_trip() {
    let x = num_int(37, -143, Form::Seconds);
    let rad = ToRadFunction::gen_call(&x).unwrap();
    let back = ToDegFunction::gen_call(&rad).unwrap();
    assert!(back.vec.l0.eq_value(&x.vec.l0));
    assert!(back.vec.l1.eq_value(&x.vec.l1));
    assert_eq!(back.form, Form::Seconds);
}

#[test]
fn clamp_caps_at_the_upper_bound() {
    let out = ClampFunction::gen_call(
        &num_int(5, 5, Form::Control),
        &num_int(0, 0, Form::Unmarked),
        &num_int(3, 3, Form::Unmarked),
    )
    .unwrap();
    assert!(out.vec.l0.eq_value(&Scalar::integer(3)));
    assert!(out.vec.l1.eq_value(&Scalar::integer(3)));
    assert_eq!(out.form, Form::Control);
}

#[test]
fn clamp_caps_at_the_lower_bound() {
    let out = ClampFunction::gen_call(
        &num_int(-5, -5, Form::Unmarked),
        &num_int(0, 0, Form::Unmarked),
        &num_int(3, 3, Form::Unmarked),
    )
    .unwrap();
    assert!(out.vec.l0.eq_value(&Scalar::integer(0)));
    assert!(out.vec.l1.eq_value(&Scalar::integer(0)));
}

#[test]
fn clamp_keeps_a_value_inside_the_bounds() {
    let out = ClampFunction::gen_call(
        &num_int(2, 2, Form::Unmarked),
        &num_int(0, 0, Form::Unmarked),
        &num_int(3, 3, Form::Unmarked),
    )
    .unwrap();
    assert!(out.vec.l0.eq_value(&Scalar::integer(2)));
    assert!(out.vec.l1.eq_value(&Scalar::integer(2)));
}

#[test]
fn clamp_with_inverted_bounds_yields_the_lower_bound() {
    // Lower bound 3, upper bound 0: min against the upper bound comes
    // first, so the lower bound is applied last and silently wins; no
    // error and no validation.
    let out = ClampFunction::gen_call(
        &num_int(5, 5, Form::Unmarked),
        &num_int(3, 3, Form::Unmarked),
        &num_int(0, 0, Form::Unmarked),
    )
    .unwrap();
    assert!(out.vec.l0.eq_value(&Scalar::integer(3)));
    assert!(out.vec.l1.eq_value(&Scalar::integer(3)));
}

#[test]
fn clamp_of_incomparable_values_is_undecided() {
    let pi = Scalar::pi_multiple(1, 1, 1);
    let x = Num { vec: LanePair { l0: pi, l1: pi }, form: Form::Unmarked };
    let r = ClampFunction::gen_call(
        &x,
        &num_int(1, 1, Form::Unmarked),
        &num_int(3, 3, Form::Unmarked),
    );
    assert!(r.is_none());
}

#[test]
fn combine_selects_one_lane_of_each() {
    let out = CombineFunction::gen_call(
        &num_int(1, 2, Form::Beats),
        &num_int(3, 4, Form::Seconds),
    );
    assert!(out.vec.l0.eq_value(&Scalar::integer(1)));
    assert!(out.vec.l1.eq_value(&Scalar::integer(4)));
    assert_eq!(out.form, Form::Beats);
}

#[test]
fn mix_at_half_way_is_the_mean() {
    let half = Scalar::rat(1, 2);
    let t = Num { vec: LanePair { l0: half, l1: half }, form: Form::Unmarked };
    let out = MixFunction::gen_call(
        &num_int(0, 0, Form::Samples),
        &num_int(10, 10, Form::Unmarked),
        &t,
    )
    .unwrap();
    assert!(out.vec.l0.eq_value(&Scalar::integer(5)));
    assert!(out.vec.l1.eq_value(&Scalar::integer(5)));
    assert_eq!(out.form, Form::Samples);
}

fn three_items() -> Vec<Num> {
    vec![
        num_int(10, 11, Form::Note),
        num_int(20, 21, Form::Unmarked),
        num_int(30, 31, Form::Unmarked),
    ]
}

#[test]
fn sequence_wraps_a_negative_index() {
    // -1 mod 3 = 2 under the Euclidean modulo: the last item is selected.
    let out = SequenceFunction::gen_call(&num_int(-1, -1, Form::Unmarked), &three_items()).unwrap();
    assert!(out.vec.l0.eq_value(&Scalar::integer(30)));
    assert!(out.vec.l1.eq_value(&Scalar::integer(31)));
    assert_eq!(out.form, Form::Note);
}

#[test]
fn sequence_wraps_an_index_past_the_end() {
    // 3 mod 3 = 0: the first item is selected.
    let out = SequenceFunction::gen_call(&num_int(3, 3, Form::Unmarked), &three_items()).unwrap();
    assert!(out.vec.l0.eq_value(&Scalar::integer(10)));
    assert!(out.vec.l1.eq_value(&Scalar::integer(11)));
}

#[test]
fn sequence_lanes_select_independently() {
    let out = SequenceFunction::gen_call(&num_int(-1, 3, Form::Unmarked), &three_items()).unwrap();
    assert!(out.vec.l0.eq_value(&Scalar::integer(30)));
    assert!(out.vec.l1.eq_value(&Scalar::integer(11)));
}

#[test]
fn sequence_truncates_the_index_toward_zero() {
    // -2/3 truncates to 0, 5/2 truncates to 2.
    let idx = Num {
        vec: LanePair { l0: Scalar::rat(-2, 3), l1: Scalar::rat(5, 2) },
        form: Form::Unmarked,
    };
    let out = SequenceFunction::gen_call(&idx, &three_items()).unwrap();
    assert!(out.vec.l0.eq_value(&Scalar::integer(10)));
    assert!(out.vec.l1.eq_value(&Scalar::integer(31)));
}

#[test]
fn sequence_of_an_irrational_index_is_undecided() {
    let pi = Scalar::pi_multiple(1, 1, 1);
    let idx = Num { vec: LanePair { l0: pi, l1: pi }, form: Form::Unmarked };
    assert!(SequenceFunction::gen_call(&idx, &three_items()).is_none());
}

fn sparse(mask: u32, filled: &[(usize, Num)]) -> SparseArray {
    let mut slots = vec![num_int(0, 0, Form::Unmarked); ARRAY_CAPACITY];
    for (i, n) in filled {
        slots[*i] = *n;
    }
    SparseArray { slots, mask }
}

#[test]
fn mixdown_sums_the_active_slots() {
    // Slot 0 active with 5, slot 1 inactive (its content must not count),
    // slot 2 active with 3: the sum is 8.
    let arr = sparse(
        0b101,
        &[
            (0, num_int(5, 50, Form::Beats)),
            (1, num_int(7, 70, Form::Unmarked)),
            (2, num_int(3, 30, Form::Unmarked)),
        ],
    );
    let out = MixdownFunction::gen_call(&arr).unwrap();
    assert!(out.vec.l0.eq_value(&Scalar::integer(8)));
    assert!(out.vec.l1.eq_value(&Scalar::integer(80)));
    assert_eq!(out.form, Form::Beats);
}

#[test]
fn mixdown_takes_slot_zero_form_even_when_inactive() {
    // Only slot 2 is active, yet the result's form is slot 0's: the
    // documented behavior, kept as it stands.
    let arr = sparse(
        0b100,
        &[(0, num_int(9, 9, Form::Seconds)), (2, num_int(3, 3, Form::Note))],
    );
    let out = MixdownFunction::gen_call(&arr).unwrap();
    assert!(out.vec.l0.eq_value(&Scalar::integer(3)));
    assert!(out.vec.l1.eq_value(&Scalar::integer(3)));
    assert_eq!(out.form, Form::Seconds);
}

#[test]
fn mixdown_of_an_empty_mask_is_zero() {
    let arr = sparse(0, &[(0, num_int(9, 9, Form::Control))]);
    let out = MixdownFunction::gen_call(&arr).unwrap();
    assert!(out.vec.l0.eq_value(&Scalar::integer(0)));
    assert!(out.vec.l1.eq_value(&Scalar::integer(0)));
    assert_eq!(out.form, Form::Control);
}

#[test]
fn mixdown_of_incompatible_exact_values_is_undecided() {
    // A rational and a pi multiple cannot be summed exactly in this domain.
    let pi = Scalar::pi_multiple(1, 1, 1);
    let arr = sparse(
        0b11,
        &[
            (0, num_int(1, 1, Form::Unmarked)),
            (1, Num { vec: LanePair { l0: pi, l1: pi }, form: Form::Unmarked }),
        ],
    );
    assert!(MixdownFunction::gen_call(&arr).is_none());
}
