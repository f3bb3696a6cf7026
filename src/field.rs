//! Elements of the 64-bit prime field in which the trace lives.
use vstd::prelude::*;
use winterfell::math::fields::f64::BaseElement;
use winterfell::math::{FieldElement, StarkField};

verus! {

/// The field modulus, 2^64 - 2^32 + 1.
pub const MODULUS: u64 = 0xFFFF_FFFF_0000_0001;

/// A field element, held as its integer value.
///
/// Every operation of this module returns the canonical value, below
/// `MODULUS`; an element built from a larger integer stands for its residue.
#[derive(Clone, Copy, Debug, PartialEq, Eq, Structural)]
pub struct Felt {
    pub value: u64,
}

/// Name for the multiplicative inverse that the field computes.
pub uninterp spec fn inverse_of(a: u64) -> u64;

/// Relies on `BaseElement::new` and `as_int`: the canonical residue of `v`.
#[verifier::external_body]
fn reduce(v: u64) -> (r: u64)
    ensures
        r == v % MODULUS,
{
    BaseElement::new(v).as_int()
}

/// Relies on `BaseElement` addition: the sum modulo the field modulus.
#[verifier::external_body]
fn add_raw(a: u64, b: u64) -> (r: u64)
    ensures
        r == (a + b) % (MODULUS as int),
{
    (BaseElement::new(a) + BaseElement::new(b)).as_int()
}

/// Relies on `BaseElement` multiplication: the product modulo the field modulus.
#[verifier::external_body]
fn mul_raw(a: u64, b: u64) -> (r: u64)
    ensures
        r == (a * b) % (MODULUS as int),
{
    (BaseElement::new(a) * BaseElement::new(b)).as_int()
}

/// Relies on `FieldElement::inv`: the multiplicative inverse, or zero for zero.
#[verifier::external_body]
fn inv_raw(a: u64) -> (r: u64)
    ensures
        r == inverse_of(a),
        r < MODULUS,
        a % MODULUS == 0 ==> r == 0,
        a % MODULUS != 0 ==> (a * r) % (MODULUS as int) == 1,
{
    BaseElement::new(a).inv().as_int()
}

impl Felt {
    /// The element that stands for `v`.
    pub fn new(v: u64) -> (r: Felt)
        ensures
            r.value == v % MODULUS,
    {
        Felt { value: reduce(v) }
    }

    pub fn zero() -> (r: Felt)
        ensures
            r.value == 0,
    {
        Felt { value: 0 }
    }

    pub fn one() -> (r: Felt)
        ensures
            r.value == 1,
    {
        Felt { value: 1 }
    }

    /// The canonical integer value of this element.
    pub fn as_int(self) -> (r: u64)
        ensures
            r == self.value % MODULUS,
    {
        reduce(self.value)
    }

    pub fn add(self, rhs: Felt) -> (r: Felt)
        ensures
            r.value == (self.value + rhs.value) % (MODULUS as int),
    {
        Felt { value: add_raw(self.value, rhs.value) }
    }

    pub fn mul(self, rhs: Felt) -> (r: Felt)
        ensures
            r.value == (self.value * rhs.value) % (MODULUS as int),
    {
        Felt { value: mul_raw(self.value, rhs.value) }
    }

    /// The multiplicative inverse; zero has none and gives zero.
    pub fn inv(self) -> (r: Felt)
        ensures
            r.value == inverse_of(self.value),
            r.value < MODULUS,
            self.value % MODULUS == 0 ==> r.value == 0,
            self.value % MODULUS != 0 ==> (self.value * r.value) % (MODULUS as int) == 1,
    {
        Felt { value: inv_raw(self.value) }
    }
}

} // verus!
