use vstd::prelude::*;

use crate::scalar::{
    Scalar, s_wf, spec_add, spec_div, spec_max, spec_min, spec_mul, spec_sub, spec_trunc,
};
use crate::value::{ARRAY_CAPACITY, LanePair, Num, SparseArray, array_wf, bit_set, lanes_wf,
    num_wf};

verus! {

/// The operation tag a builtin generator is registered against. Each
/// generator names its own tag in `function_type`; the dispatch table
/// keyed by these tags has exactly one registrant per tag.
#[derive(Clone, Copy, PartialEq, Eq, Structural, Debug)]
pub enum BuiltinOp {
    ToRad,
    ToDeg,
    Clamp,
    Pan,
    Combine,
    Mix,
    Sequence,
    Mixdown,
}

/// The factor of a degree-to-radian conversion: pi / 180.
pub open spec fn rad_factor() -> Scalar {
    Scalar { num: 1, den: 180, pi_exp: 1 }
}

/// The factor of a radian-to-degree conversion: 180 / pi.
pub open spec fn deg_factor() -> Scalar {
    Scalar { num: 180, den: 1, pi_exp: -1i64 }
}

/// One lane of a unit-angle conversion: multiply by the given factor.
pub open spec fn angle_lane(x: Scalar, factor: Scalar) -> Option<Scalar> {
    spec_mul(x, factor)
}

/// A unit-angle conversion of a whole value: both lanes multiplied by the
/// factor, the form unchanged (a geometric conversion does not change the
/// value's unit tag).
pub open spec fn spec_angle_convert(x: Num, factor: Scalar) -> Option<Num> {
    match (angle_lane(x.vec.l0, factor), angle_lane(x.vec.l1, factor)) {
        (Some(v0), Some(v1)) => Some(Num { vec: LanePair { l0: v0, l1: v1 }, form: x.form }),
        _ => None,
    }
}

/// One lane of a clamp: `max(min(x, hi), lo)`, vectorized min against the
/// upper bound first, then vectorized max against the lower bound, in that
/// fixed order. With inverted bounds (`lo > hi`) the result is therefore
/// `lo`, the bound applied last — not an error: no validation is added.
pub open spec fn clamp_lane(x: Scalar, lo: Scalar, hi: Scalar) -> Option<Scalar> {
    match spec_min(x, hi) {
        Some(m) => spec_max(m, lo),
        None => None,
    }
}

/// A clamp of a whole value, lane-wise; the form is the clamped operand's.
pub open spec fn spec_clamp(x: Num, lo: Num, hi: Num) -> Option<Num> {
    match (clamp_lane(x.vec.l0, lo.vec.l0, hi.vec.l0), clamp_lane(x.vec.l1, lo.vec.l1, hi.vec.l1)) {
        (Some(v0), Some(v1)) => Some(Num { vec: LanePair { l0: v0, l1: v1 }, form: x.form }),
        _ => None,
    }
}

/// One lane of a linear interpolation: `a + (b - a) * t`, built as
/// `(b - a) * t + a`, exactly as the generated code orders it.
pub open spec fn mix_lane(a: Scalar, b: Scalar, t: Scalar) -> Option<Scalar> {
    match spec_sub(b, a) {
        Some(d) => match spec_mul(d, t) {
            Some(p) => spec_add(p, a),
            None => None,
        },
        None => None,
    }
}

/// A linear interpolation of a whole value, lane-wise; the form is the
/// first operand's.
pub open spec fn spec_mix(a: Num, b: Num, t: Num) -> Option<Num> {
    match (mix_lane(a.vec.l0, b.vec.l0, t.vec.l0), mix_lane(a.vec.l1, b.vec.l1, t.vec.l1)) {
        (Some(v0), Some(v1)) => Some(Num { vec: LanePair { l0: v0, l1: v1 }, form: a.form }),
        _ => None,
    }
}

/// Converts an angle value from degrees to radians.
pub struct ToRadFunction {}

impl ToRadFunction {
    pub fn function_type() -> (t: BuiltinOp)
        ensures
            t == BuiltinOp::ToRad,
    {
        BuiltinOp::ToRad
    }

    /// Multiplies both lanes by pi/180; the form stays the operand's.
    pub fn gen_call(x: &Num) -> (r: Option<Num>)
        requires
            num_wf(*x),
        ensures
            r == spec_angle_convert(*x, rad_factor()),
            r matches Some(v) ==> num_wf(v) && v.form == x.form,
    {
        let factor = Scalar::pi_multiple(1, 180, 1);
        match (x.vec.l0.times(&factor), x.vec.l1.times(&factor)) {
            (Some(v0), Some(v1)) => Some(
                Num { vec: LanePair { l0: v0, l1: v1 }, form: x.form },
            ),
            _ => None,
        }
    }
}

/// Converts an angle value from radians to degrees.
pub struct ToDegFunction {}

impl ToDegFunction {
    pub fn function_type() -> (t: BuiltinOp)
        ensures
            t == BuiltinOp::ToDeg,
    {
        BuiltinOp::ToDeg
    }

    /// Multiplies both lanes by 180/pi; the form stays the operand's.
    pub fn gen_call(x: &Num) -> (r: Option<Num>)
        requires
            num_wf(*x),
        ensures
            r == spec_angle_convert(*x, deg_factor()),
            r matches Some(v) ==> num_wf(v) && v.form == x.form,
    {
        let factor = Scalar::pi_multiple(180, 1, -1);
        match (x.vec.l0.times(&factor), x.vec.l1.times(&factor)) {
            (Some(v0), Some(v1)) => Some(
                Num { vec: LanePair { l0: v0, l1: v1 }, form: x.form },
            ),
            _ => None,
        }
    }
}

/// Clamps a value between a lower and an upper bound.
pub struct ClampFunction {}

impl ClampFunction {
    pub fn function_type() -> (t: BuiltinOp)
        ensures
            t == BuiltinOp::Clamp,
    {
        BuiltinOp::Clamp
    }

    /// `max(min(x, hi), lo)` lane-wise, min first, then max; the form is
    /// `x`'s, and inverted bounds resolve to `lo` as `clamp_lane` says.
    /// `None` when a comparison is undecided in the exact domain (operands
    /// of different pi powers).
    pub fn gen_call(x: &Num, lo: &Num, hi: &Num) -> (r: Option<Num>)
        requires
            num_wf(*x),
            num_wf(*lo),
            num_wf(*hi),
        ensures
            r == spec_clamp(*x, *lo, *hi),
            r matches Some(v) ==> num_wf(v) && v.form == x.form,
    {
        let m0 = x.vec.l0.min_with(&hi.vec.l0);
        let m1 = x.vec.l1.min_with(&hi.vec.l1);
        match (m0, m1) {
            (Some(m0), Some(m1)) => {
                match (m0.max_with(&lo.vec.l0), m1.max_with(&lo.vec.l1)) {
                    (Some(v0), Some(v1)) => Some(
                        Num { vec: LanePair { l0: v0, l1: v1 }, form: x.form },
                    ),
                    _ => None,
                }
            },
            _ => None,
        }
    }
}

/// Builds a stereo value from a left-only and a right-only value.
pub struct CombineFunction {}

impl CombineFunction {
    pub fn function_type() -> (t: BuiltinOp)
        ensures
            t == BuiltinOp::Combine,
    {
        BuiltinOp::Combine
    }

    /// A pure lane select, no arithmetic: lane 0 from `left`, lane 1 from
    /// `right`; the form is `left`'s. This operation crosses values on
    /// purpose, so it has no lane-isolation law.
    pub fn gen_call(left: &Num, right: &Num) -> (r: Num)
        requires
            num_wf(*left),
            num_wf(*right),
        ensures
            r.vec.l0 == left.vec.l0,
            r.vec.l1 == right.vec.l1,
            r.form == left.form,
            num_wf(r),
    {
        Num { vec: LanePair { l0: left.vec.l0, l1: right.vec.l1 }, form: left.form }
    }
}

/// Linear interpolation between two values.
pub struct MixFunction {}

impl MixFunction {
    pub fn function_type() -> (t: BuiltinOp)
        ensures
            t == BuiltinOp::Mix,
    {
        BuiltinOp::Mix
    }

    /// `a + (b - a) * t` lane-wise; the form is `a`'s.
    pub fn gen_call(a: &Num, b: &Num, t: &Num) -> (r: Option<Num>)
        requires
            num_wf(*a),
            num_wf(*b),
            num_wf(*t),
        ensures
            r == spec_mix(*a, *b, *t),
            r matches Some(v) ==> num_wf(v) && v.form == a.form,
    {
        let r0 = Self::mix_one(&a.vec.l0, &b.vec.l0, &t.vec.l0);
        let r1 = Self::mix_one(&a.vec.l1, &b.vec.l1, &t.vec.l1);
        match (r0, r1) {
            (Some(v0), Some(v1)) => Some(
                Num { vec: LanePair { l0: v0, l1: v1 }, form: a.form },
            ),
            _ => None,
        }
    }

    /// One lane of the interpolation.
    fn mix_one(a: &Scalar, b: &Scalar, t: &Scalar) -> (r: Option<Scalar>)
        requires
            s_wf(*a),
            s_wf(*b),
            s_wf(*t),
        ensures
            r == mix_lane(*a, *b, *t),
            r matches Some(v) ==> s_wf(v),
    {
        match b.minus(a) {
            Some(d) => match d.times(t) {
                Some(p) => p.plus(a),
                None => None,
            },
            None => None,
        }
    }
}

/// The constant 1.
pub open spec fn one() -> Scalar {
    Scalar { num: 1, den: 1, pi_exp: 0 }
}

/// The constant -1.
pub open spec fn neg_one() -> Scalar {
    Scalar { num: -1i64, den: 1, pi_exp: 0 }
}

/// The constant 2.
pub open spec fn two() -> Scalar {
    Scalar { num: 2, den: 1, pi_exp: 0 }
}

/// The constant pi/4.
pub open spec fn quarter_pi() -> Scalar {
    Scalar { num: 1, den: 4, pi_exp: 1 }
}

/// The constant pi/2.
pub open spec fn half_pi() -> Scalar {
    Scalar { num: 1, den: 2, pi_exp: 1 }
}

/// One lane of the pan clamp: the pan position forced into [-1, 1], min
/// against 1 first, then max against -1.
pub open spec fn pan_clamp_lane(p: Scalar) -> Option<Scalar> {
    match spec_min(p, one()) {
        Some(m) => spec_max(m, neg_one()),
        None => None,
    }
}

/// The base pan angle of one lane: `(pi/4) * (pan + 1)`.
pub open spec fn pan_angle_base(p: Scalar) -> Option<Scalar> {
    match spec_add(p, one()) {
        Some(s) => spec_mul(quarter_pi(), s),
        None => None,
    }
}

/// The clamped pan positions and the two sine arguments of an equal-power
/// pan: lane 0 gets `(pi/4)*(pan+1)` plus a quarter-turn phase offset of
/// `pi/2`, lane 1 gets `(pi/4)*(pan+1)` alone. With the offset on lane 0
/// the left gain traces a cosine from 1 to 0 as the pan moves left to
/// right while the right gain traces a sine from 0 to 1, which is what
/// keeps the summed power constant.
pub open spec fn spec_pan_angles(pan: LanePair) -> Option<PanAngles> {
    match (pan_clamp_lane(pan.l0), pan_clamp_lane(pan.l1)) {
        (Some(c0), Some(c1)) => match (pan_angle_base(c0), pan_angle_base(c1)) {
            (Some(b0), Some(a1)) => match spec_add(b0, half_pi()) {
                Some(a0) => Some(
                    PanAngles {
                        clamped: LanePair { l0: c0, l1: c1 },
                        angles: LanePair { l0: a0, l1: a1 },
                    },
                ),
                None => None,
            },
            _ => None,
        },
        _ => None,
    }
}

/// One lane of the squared pan gain: `(w * sin_value) / 2`, with the gain
/// weight `w` supplied per lane (`1 - pan` on lane 0, `1 + pan` on lane 1).
pub open spec fn pan_gain_sq_lane(weight: Option<Scalar>, sin_value: Scalar) -> Option<Scalar> {
    match weight {
        Some(w) => match spec_mul(w, sin_value) {
            Some(p) => spec_div(p, two()),
            None => None,
        },
        None => None,
    }
}

/// Both squared pan gains: lane 0 weighs the sine by `1 - pan.l0`, lane 1
/// by `1 + pan.l1`.
pub open spec fn spec_pan_gain_squared(clamped: LanePair, sines: LanePair) -> Option<LanePair> {
    let g0 = pan_gain_sq_lane(spec_sub(one(), clamped.l0), sines.l0);
    let g1 = pan_gain_sq_lane(spec_add(one(), clamped.l1), sines.l1);
    match (g0, g1) {
        (Some(v0), Some(v1)) => Some(LanePair { l0: v0, l1: v1 }),
        _ => None,
    }
}

/// The panned signal: the input multiplied lane-wise by the channel gains;
/// the form is the signal's.
pub open spec fn spec_pan_apply(x: Num, gains: LanePair) -> Option<Num> {
    match (spec_mul(x.vec.l0, gains.l0), spec_mul(x.vec.l1, gains.l1)) {
        (Some(v0), Some(v1)) => Some(Num { vec: LanePair { l0: v0, l1: v1 }, form: x.form }),
        _ => None,
    }
}

/// The intermediate values of an equal-power pan that feed the sine
/// intrinsic: the clamped pan positions and the per-lane sine arguments.
#[derive(Clone, Copy)]
pub struct PanAngles {
    pub clamped: LanePair,
    pub angles: LanePair,
}

/// Equal-power stereo panning.
///
/// The target's sine and square-root intrinsics sit in the middle of this
/// computation, so the generator is exposed in three stages: `gen_angles`
/// prepares the sine arguments, the caller applies sine to them,
/// `gen_gain_squared` turns the sine values into squared channel gains, the
/// caller applies square root, and `gen_apply` multiplies the signal by the
/// resulting gains.
///
/// The input pan vector's two lanes carry the same pan position broadcast
/// by the caller (lane 0 is read as pan-for-left, lane 1 as pan-for-right);
/// the output's two lanes genuinely are the left and right channel.
pub struct PanFunction {}

impl PanFunction {
    pub fn function_type() -> (t: BuiltinOp)
        ensures
            t == BuiltinOp::Pan,
    {
        BuiltinOp::Pan
    }

    /// Clamps the pan into [-1, 1] and builds the sine arguments:
    /// `(pi/4)*(pan+1) + pi/2` on lane 0 and `(pi/4)*(pan+1)` on lane 1.
    pub fn gen_angles(pan: &LanePair) -> (r: Option<PanAngles>)
        requires
            lanes_wf(*pan),
        ensures
            r == spec_pan_angles(*pan),
            r matches Some(v) ==> lanes_wf(v.clamped) && lanes_wf(v.angles),
    {
        let one_s = Scalar::integer(1);
        let neg_one_s = Scalar::integer(-1);
        let quarter = Scalar::pi_multiple(1, 4, 1);
        let half = Scalar::pi_multiple(1, 2, 1);
        let c0 = match pan.l0.min_with(&one_s) {
            Some(m) => m.max_with(&neg_one_s),
            None => None,
        };
        let c1 = match pan.l1.min_with(&one_s) {
            Some(m) => m.max_with(&neg_one_s),
            None => None,
        };
        match (c0, c1) {
            (Some(c0), Some(c1)) => {
                let b0 = match c0.plus(&one_s) {
                    Some(s) => quarter.times(&s),
                    None => None,
                };
                let a1 = match c1.plus(&one_s) {
                    Some(s) => quarter.times(&s),
                    None => None,
                };
                match (b0, a1) {
                    (Some(b0), Some(a1)) => match b0.plus(&half) {
                        Some(a0) => Some(
                            PanAngles {
                                clamped: LanePair { l0: c0, l1: c1 },
                                angles: LanePair { l0: a0, l1: a1 },
                            },
                        ),
                        None => None,
                    },
                    _ => None,
                }
            },
            _ => None,
        }
    }

    /// Turns the sine values of the two angle lanes into squared channel
    /// gains: `((1 - pan) * sin) / 2` on lane 0, `((1 + pan) * sin) / 2`
    /// on lane 1. The caller takes the square root of each lane.
    pub fn gen_gain_squared(clamped: &LanePair, sines: &LanePair) -> (r: Option<LanePair>)
        requires
            lanes_wf(*clamped),
            lanes_wf(*sines),
        ensures
            r == spec_pan_gain_squared(*clamped, *sines),
            r matches Some(v) ==> lanes_wf(v),
    {
        let one_s = Scalar::integer(1);
        let two_s = Scalar::integer(2);
        let g0 = match one_s.minus(&clamped.l0) {
            Some(w) => match w.times(&sines.l0) {
                Some(p) => p.divided_by(&two_s),
                None => None,
            },
            None => None,
        };
        let g1 = match one_s.plus(&clamped.l1) {
            Some(w) => match w.times(&sines.l1) {
                Some(p) => p.divided_by(&two_s),
                None => None,
            },
            None => None,
        };
        match (g0, g1) {
            (Some(v0), Some(v1)) => Some(LanePair { l0: v0, l1: v1 }),
            _ => None,
        }
    }

    /// Multiplies the signal lane-wise by the channel gains; the form is
    /// the signal's.
    pub fn gen_apply(x: &Num, gains: &LanePair) -> (r: Option<Num>)
        requires
            num_wf(*x),
            lanes_wf(*gains),
        ensures
            r == spec_pan_apply(*x, *gains),
            r matches Some(v) ==> num_wf(v) && v.form == x.form,
    {
        match (x.vec.l0.times(&gains.l0), x.vec.l1.times(&gains.l1)) {
            (Some(v0), Some(v1)) => Some(
                Num { vec: LanePair { l0: v0, l1: v1 }, form: x.form },
            ),
            _ => None,
        }
    }
}

/// One lane of a sequence selection: the raw index truncated toward zero,
/// then reduced by the list length with the true mathematical (Euclidean)
/// modulo, so the result lies in [0, len) even for a negative raw index.
pub open spec fn seq_index_lane(x: Scalar, len: int) -> Option<int> {
    match spec_trunc(x) {
        Some(t) => Some(t as int % len),
        None => None,
    }
}

/// A sequence selection: lane 0 of the reduced index picks the item that
/// contributes the result's lane 0, lane 1 picks the item for lane 1, and
/// the form is the first item's.
pub open spec fn spec_sequence(index: Num, items: Seq<Num>) -> Option<Num> {
    match (seq_index_lane(index.vec.l0, items.len() as int), seq_index_lane(
        index.vec.l1,
        items.len() as int,
    )) {
        (Some(i0), Some(i1)) => Some(
            Num { vec: LanePair { l0: items[i0].vec.l0, l1: items[i1].vec.l1 }, form: items[0].form },
        ),
        _ => None,
    }
}

/// Selects items from a runtime list by a wrapped two-lane index.
pub struct SequenceFunction {}

impl SequenceFunction {
    pub fn function_type() -> (t: BuiltinOp)
        ensures
            t == BuiltinOp::Sequence,
    {
        BuiltinOp::Sequence
    }

    /// Each index lane is truncated toward zero and wrapped into
    /// [0, items.len()) by the Euclidean modulo; the two lanes select
    /// independently, so one call can assemble a stereo result from two
    /// items' respective channels (structurally like Combine, with
    /// runtime-computed selectors). The non-empty list is the caller's
    /// guarantee, as is a length that fits the index arithmetic.
    pub fn gen_call(index: &Num, items: &Vec<Num>) -> (r: Option<Num>)
        requires
            num_wf(*index),
            0 < items@.len() <= 0x7fff_ffff_ffff_ffff,
            forall|i: int| 0 <= i < items@.len() ==> num_wf(#[trigger] items@[i]),
        ensures
            r == spec_sequence(*index, items@),
            r matches Some(v) ==> num_wf(v) && v.form == items@[0].form,
    {
        let len = items.len() as i64;
        let t0 = match index.vec.l0.trunc_toward_zero() {
            Some(t) => t,
            None => {
                return None;
            },
        };
        let t1 = match index.vec.l1.trunc_toward_zero() {
            Some(t) => t,
            None => {
                return None;
            },
        };
        let i0 = match t0.checked_rem_euclid(len) {
            Some(i) => i,
            None => {
                proof {
                    assert(false);
                }
                0
            },
        };
        let i1 = match t1.checked_rem_euclid(len) {
            Some(i) => i,
            None => {
                proof {
                    assert(false);
                }
                0
            },
        };
        let first_form = items[0].form;
        Some(
            Num {
                vec: LanePair { l0: items[i0 as usize].vec.l0, l1: items[i1 as usize].vec.l1 },
                form: first_form,
            },
        )
    }
}

/// The scalar zero, the initial accumulator of a reduction.
pub open spec fn zero_scalar() -> Scalar {
    Scalar { num: 0, den: 1, pi_exp: 0 }
}

/// The lane of a numeric value selected by `lane` (0 or 1).
pub open spec fn lane_of(n: Num, lane: int) -> Scalar {
    if lane == 0 {
        n.vec.l0
    } else {
        n.vec.l1
    }
}

/// The running sum of one lane over the active slots among the first `n`:
/// starting from zero, each slot whose presence bit is set adds its lane
/// (`item + acc`, in the generated order); an inactive slot contributes
/// nothing and its content is never read.
pub open spec fn mixdown_fold(slots: Seq<Num>, mask: u32, lane: int, n: int) -> Option<Scalar>
    decreases n,
{
    if n <= 0 {
        Some(zero_scalar())
    } else {
        match mixdown_fold(slots, mask, lane, n - 1) {
            Some(acc) => if bit_set(mask, (n - 1) as u32) {
                spec_add(lane_of(slots[n - 1], lane), acc)
            } else {
                Some(acc)
            },
            None => None,
        }
    }
}

/// A sparse-array reduction: both lanes summed over the active slots, and
/// the form taken from slot 0 whether or not slot 0 is active (the
/// documented behavior, kept as it stands).
pub open spec fn spec_mixdown(slots: Seq<Num>, mask: u32) -> Option<Num> {
    match (mixdown_fold(slots, mask, 0, ARRAY_CAPACITY as int), mixdown_fold(
        slots,
        mask,
        1,
        ARRAY_CAPACITY as int,
    )) {
        (Some(v0), Some(v1)) => Some(
            Num { vec: LanePair { l0: v0, l1: v1 }, form: slots[0].form },
        ),
        _ => None,
    }
}

/// Once the fold is undecided at some prefix, it stays undecided for every
/// longer prefix.
proof fn lemma_fold_none(slots: Seq<Num>, mask: u32, lane: int, n: int, m: int)
    requires
        0 <= n <= m,
        mixdown_fold(slots, mask, lane, n) is None,
    ensures
        mixdown_fold(slots, mask, lane, m) is None,
    decreases m - n,
{
    if m > n {
        lemma_fold_none(slots, mask, lane, n, m - 1);
    }
}

/// Sums the active slots of a sparse array into one value.
pub struct MixdownFunction {}

impl MixdownFunction {
    pub fn function_type() -> (t: BuiltinOp)
        ensures
            t == BuiltinOp::Mixdown,
    {
        BuiltinOp::Mixdown
    }

    /// Sums all active slots' vectors lane-wise from a zero accumulator;
    /// inactive slots contribute nothing. The result's form is slot 0's
    /// form regardless of whether slot 0 is active.
    pub fn gen_call(arr: &SparseArray) -> (r: Option<Num>)
        requires
            array_wf(*arr),
        ensures
            r == spec_mixdown(arr.slots@, arr.mask),
            r matches Some(v) ==> num_wf(v) && v.form == arr.slots@[0].form,
    {
        let first_form = arr.slots[0].form;
        let mut acc0 = Scalar::integer(0);
        let mut acc1 = Scalar::integer(0);
        let mut i: usize = 0;
        while i < ARRAY_CAPACITY
            invariant
                array_wf(*arr),
                0 <= i <= ARRAY_CAPACITY,
                s_wf(acc0),
                s_wf(acc1),
                mixdown_fold(arr.slots@, arr.mask, 0, i as int) == Some(acc0),
                mixdown_fold(arr.slots@, arr.mask, 1, i as int) == Some(acc1),
            decreases ARRAY_CAPACITY - i,
        {
            if (arr.mask >> (i as u32)) & 1 == 1 {
                let item = &arr.slots[i];
                let next0 = match item.vec.l0.plus(&acc0) {
                    Some(v) => v,
                    None => {
                        proof {
                            lemma_fold_none(arr.slots@, arr.mask, 0, i + 1, ARRAY_CAPACITY as int);
                        }
                        return None;
                    },
                };
                let next1 = match item.vec.l1.plus(&acc1) {
                    Some(v) => v,
                    None => {
                        proof {
                            lemma_fold_none(arr.slots@, arr.mask, 1, i + 1, ARRAY_CAPACITY as int);
                        }
                        return None;
                    },
                };
                acc0 = next0;
                acc1 = next1;
            }
            i = i + 1;
        }
        Some(Num { vec: LanePair { l0: acc0, l1: acc1 }, form: first_form })
    }
}

} // verus!
