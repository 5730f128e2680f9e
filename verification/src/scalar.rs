use vstd::prelude::*;

verus! {

/// An exact compile-time number of the form `(num / den) * pi^pi_exp`.
///
/// The generated code computes with floating-point lanes; this model keeps
/// the values exact instead, so that every formula of the builtin library
/// can be stated and checked precisely. Rational numbers are the values
/// with `pi_exp == 0`; an angle such as pi/4 is `1/4 * pi^1`; a reciprocal
/// factor such as 180/pi is `180/1 * pi^-1`.
#[derive(Clone, Copy)]
pub struct Scalar {
    pub num: i64,
    pub den: i64,
    pub pi_exp: i64,
}

/// Well-formed: positive denominator, the numerator's negation still fits
/// in `i64`, and zero is kept canonical (a zero numerator forces a zero
/// pi exponent, so that 0 has a single pi power).
pub open spec fn s_wf(s: Scalar) -> bool {
    0 < s.den && -0x7fff_ffff_ffff_ffff <= s.num && (s.num == 0 ==> s.pi_exp == 0)
}

/// The numerator of a result must stay strictly above `i64::MIN`, so that
/// negation never overflows.
pub open spec fn fits_num(n: int) -> bool {
    -0x7fff_ffff_ffff_ffff <= n <= 0x7fff_ffff_ffff_ffff
}

pub open spec fn fits_den(d: int) -> bool {
    0 < d <= 0x7fff_ffff_ffff_ffff
}

/// Two scalars denote the same number: the rational parts cross-multiply
/// equal and, unless both are zero, the pi powers agree.
pub open spec fn s_eq(a: Scalar, b: Scalar) -> bool {
    a.num * b.den == b.num * a.den && (a.num == 0 || a.pi_exp == b.pi_exp)
}

/// Exact product. `None` when the result leaves the representable range.
pub open spec fn spec_mul(a: Scalar, b: Scalar) -> Option<Scalar> {
    let n = a.num * b.num;
    let d = a.den * b.den;
    if !fits_num(n) || !fits_den(d) {
        None
    } else if n == 0 {
        Some(Scalar { num: 0, den: d as i64, pi_exp: 0 })
    } else {
        let p = a.pi_exp + b.pi_exp;
        if fits_num(p) {
            Some(Scalar { num: n as i64, den: d as i64, pi_exp: p as i64 })
        } else {
            None
        }
    }
}

/// Exact quotient. `None` on a zero divisor or when the result leaves the
/// representable range. The sign moves into the numerator so that the
/// denominator stays positive.
pub open spec fn spec_div(a: Scalar, b: Scalar) -> Option<Scalar> {
    if b.num == 0 {
        None
    } else {
        let n = if b.num > 0 { a.num * b.den } else { -(a.num * b.den) };
        let d = if b.num > 0 { a.den * b.num } else { -(a.den * b.num) };
        if !fits_num(n) || !fits_den(d) {
            None
        } else if n == 0 {
            Some(Scalar { num: 0, den: d as i64, pi_exp: 0 })
        } else {
            let p = a.pi_exp - b.pi_exp;
            if fits_num(p) {
                Some(Scalar { num: n as i64, den: d as i64, pi_exp: p as i64 })
            } else {
                None
            }
        }
    }
}

/// Exact sum. Adding a zero returns the other operand unchanged; otherwise
/// both operands must carry the same pi power, since `q1*pi^j + q2*pi^k`
/// with `j != k` has no representation in this domain.
pub open spec fn spec_add(a: Scalar, b: Scalar) -> Option<Scalar> {
    if a.num == 0 {
        Some(b)
    } else if b.num == 0 {
        Some(a)
    } else if a.pi_exp != b.pi_exp {
        None
    } else {
        let n = a.num * b.den + b.num * a.den;
        let d = a.den * b.den;
        if !fits_num(n) || !fits_den(d) {
            None
        } else if n == 0 {
            Some(Scalar { num: 0, den: d as i64, pi_exp: 0 })
        } else {
            Some(Scalar { num: n as i64, den: d as i64, pi_exp: a.pi_exp })
        }
    }
}

/// Exact negation; total, thanks to the numerator bound in `s_wf`.
pub open spec fn spec_neg(a: Scalar) -> Scalar {
    Scalar { num: -a.num as i64, den: a.den, pi_exp: a.pi_exp }
}

/// Exact difference: `a + (-b)`.
pub open spec fn spec_sub(a: Scalar, b: Scalar) -> Option<Scalar> {
    spec_add(a, spec_neg(b))
}

/// Whether the order of `a` and `b` is decided in this domain: always
/// against zero (every pi power is positive, so the sign is the sign of
/// the numerator), otherwise only at equal pi powers.
pub open spec fn s_comparable(a: Scalar, b: Scalar) -> bool {
    a.num == 0 || b.num == 0 || a.pi_exp == b.pi_exp
}

/// The order on comparable scalars: by sign against zero, else by
/// cross-multiplication of the rational parts.
pub open spec fn s_le(a: Scalar, b: Scalar) -> bool {
    if a.num == 0 {
        b.num >= 0
    } else if b.num == 0 {
        a.num <= 0
    } else {
        a.num * b.den <= b.num * a.den
    }
}

/// The smaller operand, when the order is decided; ties keep the left one.
pub open spec fn spec_min(a: Scalar, b: Scalar) -> Option<Scalar> {
    if !s_comparable(a, b) {
        None
    } else if s_le(a, b) {
        Some(a)
    } else {
        Some(b)
    }
}

/// The larger operand, when the order is decided; ties keep the left one.
pub open spec fn spec_max(a: Scalar, b: Scalar) -> Option<Scalar> {
    if !s_comparable(a, b) {
        None
    } else if s_le(b, a) {
        Some(a)
    } else {
        Some(b)
    }
}

/// Truncation toward zero of `x / d` for `d > 0`, written over the
/// Euclidean `/` of specifications.
pub open spec fn trunc_div(x: int, d: int) -> int {
    if x == 0 {
        0
    } else if x > 0 {
        x / d
    } else {
        ((x * -1) / d) * -1
    }
}

/// The scalar truncated toward zero to an integer; decided only for
/// rational values (a nonzero pi power has no exact truncation here).
pub open spec fn spec_trunc(a: Scalar) -> Option<i64> {
    if a.pi_exp != 0 {
        None
    } else {
        Some(trunc_div(a.num as int, a.den as int) as i64)
    }
}

proof fn lemma_i64_mul_in_i128(x: int, y: int)
    by (nonlinear_arith)
    requires
        -0x7fff_ffff_ffff_ffff <= x <= 0x7fff_ffff_ffff_ffff,
        -0x7fff_ffff_ffff_ffff <= y <= 0x7fff_ffff_ffff_ffff,
    ensures
        -(0x7fff_ffff_ffff_ffff * 0x7fff_ffff_ffff_ffff) <= x * y
            <= 0x7fff_ffff_ffff_ffff * 0x7fff_ffff_ffff_ffff,
{
}

proof fn lemma_mul_neg(x: int, y: int)
    by (nonlinear_arith)
    ensures
        x * (-y) == -(x * y),
        (-x) * y == -(x * y),
{
}

proof fn lemma_pos_mul_pos(x: int, y: int)
    by (nonlinear_arith)
    requires
        0 < x,
        0 < y,
    ensures
        0 < x * y,
{
}

impl Scalar {
    /// The rational `num / den`.
    pub fn rat(num: i64, den: i64) -> (r: Scalar)
        requires
            0 < den,
            -0x7fff_ffff_ffff_ffff <= num,
        ensures
            r == (Scalar { num: if num == 0 { 0i64 } else { num }, den, pi_exp: 0i64 }),
            s_wf(r),
    {
        Scalar { num, den, pi_exp: 0 }
    }

    /// The integer `n`.
    pub fn integer(n: i64) -> (r: Scalar)
        requires
            -0x7fff_ffff_ffff_ffff <= n,
        ensures
            r == (Scalar { num: n, den: 1i64, pi_exp: 0i64 }),
            s_wf(r),
    {
        Scalar { num: n, den: 1, pi_exp: 0 }
    }

    /// The rational multiple of a pi power `(num / den) * pi^pi_exp`.
    pub fn pi_multiple(num: i64, den: i64, pi_exp: i64) -> (r: Scalar)
        requires
            0 < den,
            -0x7fff_ffff_ffff_ffff <= num,
            num != 0,
        ensures
            r == (Scalar { num, den, pi_exp }),
            s_wf(r),
    {
        Scalar { num, den, pi_exp }
    }

    /// Exact product.
    pub fn times(&self, other: &Scalar) -> (r: Option<Scalar>)
        requires
            s_wf(*self),
            s_wf(*other),
        ensures
            r == spec_mul(*self, *other),
            r matches Some(v) ==> s_wf(v),
    {
        proof {
            lemma_i64_mul_in_i128(self.num as int, other.num as int);
            lemma_i64_mul_in_i128(self.den as int, other.den as int);
            lemma_pos_mul_pos(self.den as int, other.den as int);
        }
        let n: i128 = (self.num as i128) * (other.num as i128);
        let d: i128 = (self.den as i128) * (other.den as i128);
        if n < -0x7fff_ffff_ffff_ffff || n > 0x7fff_ffff_ffff_ffff || d > 0x7fff_ffff_ffff_ffff {
            return None;
        }
        if n == 0 {
            return Some(Scalar { num: 0, den: d as i64, pi_exp: 0 });
        }
        match self.pi_exp.checked_add(other.pi_exp) {
            Some(p) => {
                if p < -0x7fff_ffff_ffff_ffff {
                    None
                } else {
                    Some(Scalar { num: n as i64, den: d as i64, pi_exp: p })
                }
            },
            None => None,
        }
    }

    /// Exact quotient; `None` on a zero divisor.
    pub fn divided_by(&self, other: &Scalar) -> (r: Option<Scalar>)
        requires
            s_wf(*self),
            s_wf(*other),
        ensures
            r == spec_div(*self, *other),
            r matches Some(v) ==> s_wf(v),
    {
        if other.num == 0 {
            return None;
        }
        proof {
            lemma_i64_mul_in_i128(self.num as int, other.den as int);
            lemma_i64_mul_in_i128(self.den as int, other.num as int);
            lemma_mul_neg(self.num as int, other.den as int);
            lemma_mul_neg(self.den as int, other.num as int);
            if other.num > 0 {
                lemma_pos_mul_pos(self.den as int, other.num as int);
            } else {
                lemma_pos_mul_pos(self.den as int, -(other.num as int));
            }
        }
        let mut n: i128 = (self.num as i128) * (other.den as i128);
        let mut d: i128 = (self.den as i128) * (other.num as i128);
        if other.num < 0 {
            n = -n;
            d = -d;
        }
        if n < -0x7fff_ffff_ffff_ffff || n > 0x7fff_ffff_ffff_ffff || d > 0x7fff_ffff_ffff_ffff {
            return None;
        }
        if n == 0 {
            return Some(Scalar { num: 0, den: d as i64, pi_exp: 0 });
        }
        match self.pi_exp.checked_sub(other.pi_exp) {
            Some(p) => {
                if p < -0x7fff_ffff_ffff_ffff {
                    None
                } else {
                    Some(Scalar { num: n as i64, den: d as i64, pi_exp: p })
                }
            },
            None => None,
        }
    }

    /// Exact sum; `None` when the pi powers differ with both sides nonzero.
    pub fn plus(&self, other: &Scalar) -> (r: Option<Scalar>)
        requires
            s_wf(*self),
            s_wf(*other),
        ensures
            r == spec_add(*self, *other),
            r matches Some(v) ==> s_wf(v),
    {
        if self.num == 0 {
            return Some(*other);
        }
        if other.num == 0 {
            return Some(*self);
        }
        if self.pi_exp != other.pi_exp {
            return None;
        }
        proof {
            lemma_i64_mul_in_i128(self.num as int, other.den as int);
            lemma_i64_mul_in_i128(other.num as int, self.den as int);
            lemma_i64_mul_in_i128(self.den as int, other.den as int);
            lemma_pos_mul_pos(self.den as int, other.den as int);
        }
        let n: i128 = (self.num as i128) * (other.den as i128)
            + (other.num as i128) * (self.den as i128);
        let d: i128 = (self.den as i128) * (other.den as i128);
        if n < -0x7fff_ffff_ffff_ffff || n > 0x7fff_ffff_ffff_ffff || d > 0x7fff_ffff_ffff_ffff {
            return None;
        }
        if n == 0 {
            return Some(Scalar { num: 0, den: d as i64, pi_exp: 0 });
        }
        Some(Scalar { num: n as i64, den: d as i64, pi_exp: self.pi_exp })
    }

    /// Exact negation.
    pub fn neg(&self) -> (r: Scalar)
        requires
            s_wf(*self),
        ensures
            r == spec_neg(*self),
            s_wf(r),
    {
        Scalar { num: -self.num, den: self.den, pi_exp: self.pi_exp }
    }

    /// Exact difference.
    pub fn minus(&self, other: &Scalar) -> (r: Option<Scalar>)
        requires
            s_wf(*self),
            s_wf(*other),
        ensures
            r == spec_sub(*self, *other),
            r matches Some(v) ==> s_wf(v),
    {
        let negated = other.neg();
        self.plus(&negated)
    }

    /// Whether the two scalars denote the same number.
    pub fn eq_value(&self, other: &Scalar) -> (r: bool)
        requires
            s_wf(*self),
            s_wf(*other),
        ensures
            r == s_eq(*self, *other),
    {
        proof {
            lemma_i64_mul_in_i128(self.num as int, other.den as int);
            lemma_i64_mul_in_i128(other.num as int, self.den as int);
        }
        let lhs: i128 = (self.num as i128) * (other.den as i128);
        let rhs: i128 = (other.num as i128) * (self.den as i128);
        lhs == rhs && (self.num == 0 || self.pi_exp == other.pi_exp)
    }

    /// Whether `self <= other` holds, on comparable scalars.
    fn le_value(&self, other: &Scalar) -> (r: bool)
        requires
            s_wf(*self),
            s_wf(*other),
        ensures
            r == s_le(*self, *other),
    {
        if self.num == 0 {
            other.num >= 0
        } else if other.num == 0 {
            self.num <= 0
        } else {
            proof {
                lemma_i64_mul_in_i128(self.num as int, other.den as int);
                lemma_i64_mul_in_i128(other.num as int, self.den as int);
            }
            (self.num as i128) * (other.den as i128) <= (other.num as i128) * (self.den as i128)
        }
    }

    /// The smaller of the two scalars; `None` when the order is undecided.
    pub fn min_with(&self, other: &Scalar) -> (r: Option<Scalar>)
        requires
            s_wf(*self),
            s_wf(*other),
        ensures
            r == spec_min(*self, *other),
            r matches Some(v) ==> s_wf(v),
    {
        if !(self.num == 0 || other.num == 0 || self.pi_exp == other.pi_exp) {
            None
        } else if self.le_value(other) {
            Some(*self)
        } else {
            Some(*other)
        }
    }

    /// The larger of the two scalars; `None` when the order is undecided.
    pub fn max_with(&self, other: &Scalar) -> (r: Option<Scalar>)
        requires
            s_wf(*self),
            s_wf(*other),
        ensures
            r == spec_max(*self, *other),
            r matches Some(v) ==> s_wf(v),
    {
        if !(self.num == 0 || other.num == 0 || self.pi_exp == other.pi_exp) {
            None
        } else if other.le_value(self) {
            Some(*self)
        } else {
            Some(*other)
        }
    }

    /// The scalar truncated toward zero; `None` for a nonzero pi power.
    pub fn trunc_toward_zero(&self) -> (r: Option<i64>)
        requires
            s_wf(*self),
        ensures
            r == spec_trunc(*self),
    {
        if self.pi_exp != 0 {
            return None;
        }
        proof {
            lemma_trunc_div_in_range(self.num as int, self.den as int);
        }
        match self.num.checked_div(self.den) {
            Some(q) => Some(q),
            None => None,
        }
    }
}

proof fn lemma_trunc_div_in_range(x: int, d: int)
    by (nonlinear_arith)
    requires
        0 < d,
        -0x7fff_ffff_ffff_ffff <= x <= 0x7fff_ffff_ffff_ffff,
    ensures
        -0x7fff_ffff_ffff_ffff <= trunc_div(x, d) <= 0x7fff_ffff_ffff_ffff,
        x > 0 ==> 0 <= x / d <= x,
        x < 0 ==> 0 <= (x * -1) / d <= x * -1,
{
}

} // verus!
