use vstd::prelude::*;

use crate::scalar::{Scalar, s_wf};

verus! {

/// The unit/dimension tag carried by a numeric value. `Unmarked` is the
/// dimensionless form of a plain number.
#[derive(Clone, Copy, PartialEq, Eq, Structural, Debug)]
pub enum Form {
    Unmarked,
    Beats,
    Control,
    Note,
    Samples,
    Seconds,
}

/// A two-lane vector value. The lanes conventionally carry the left and
/// right audio channel, but a few operations repurpose them as two
/// independent scalar results packed together; each such operation says so.
#[derive(Clone, Copy)]
pub struct LanePair {
    pub l0: Scalar,
    pub l1: Scalar,
}

pub open spec fn lanes_wf(v: LanePair) -> bool {
    s_wf(v.l0) && s_wf(v.l1)
}

/// A numeric value: a two-lane vector plus its form tag.
#[derive(Clone, Copy)]
pub struct Num {
    pub vec: LanePair,
    pub form: Form,
}

pub open spec fn num_wf(n: Num) -> bool {
    lanes_wf(n.vec)
}

/// The fixed number of slots of a sparse array.
pub const ARRAY_CAPACITY: usize = 16;

/// A sparse fixed-capacity array of numeric values with a presence mask:
/// bit `i` of `mask` is set exactly when slot `i` holds a valid value.
/// A slot whose bit is clear is never read for its vector; only slot 0's
/// form is read unconditionally, which `MixdownFunction` documents.
pub struct SparseArray {
    pub slots: Vec<Num>,
    pub mask: u32,
}

pub open spec fn array_wf(a: SparseArray) -> bool {
    &&& a.slots.len() == ARRAY_CAPACITY
    &&& forall|i: int|
        0 <= i < a.slots.len() && bit_set(a.mask, i as u32) ==> num_wf(#[trigger] a.slots[i])
}

/// Whether bit `i` of the presence mask is set.
pub open spec fn bit_set(mask: u32, i: u32) -> bool {
    (mask >> i) & 1 == 1
}

impl LanePair {
    /// Whether the two pairs denote the same two numbers, lane-wise.
    pub fn eq_value(&self, other: &LanePair) -> (r: bool)
        requires
            lanes_wf(*self),
            lanes_wf(*other),
        ensures
            r == (crate::scalar::s_eq(self.l0, other.l0) && crate::scalar::s_eq(
                self.l1,
                other.l1,
            )),
    {
        self.l0.eq_value(&other.l0) && self.l1.eq_value(&other.l1)
    }
}

} // verus!
