use crate::camera::can_compute;
use crate::renderer::can_add;
use crate::scene::is_total;
use std::cmp::Ordering;
use std::ops::{Add, Div, Mul, Neg, Sub};
use vstd::prelude::*;

verus! {

/// A whole number whose arithmetic never fails: a result beyond the range
/// of `i64` stops at the end of the range, a quotient is rounded towards
/// zero, and a division by zero gives the end of the range on the side of
/// the dividend, or zero for zero. It is a component type on which every
/// operation of the library can be carried out.
#[derive(Debug, Clone, Copy, PartialEq, Eq, Structural)]
pub struct Whole {
    pub v: i64,
}

/// The number of the range of `i64` that is nearest to `x`.
pub open spec fn held(x: int) -> i64 {
    if x > i64::MAX {
        i64::MAX
    } else if x < i64::MIN {
        i64::MIN
    } else {
        x as i64
    }
}

/// The quotient rounded towards zero; for a divisor of zero, a number
/// beyond the range on the side of the dividend, or zero for zero.
pub open spec fn quotient(a: int, b: int) -> int {
    if b == 0 {
        if a > 0 {
            i64::MAX + 1
        } else if a < 0 {
            i64::MIN - 1
        } else {
            0
        }
    } else if (a < 0) == (b < 0) {
        magnitude_of(a) / magnitude_of(b)
    } else {
        -(magnitude_of(a) / magnitude_of(b))
    }
}

/// The number without its sign.
pub open spec fn magnitude_of(a: int) -> int {
    if a < 0 {
        -a
    } else {
        a
    }
}

fn hold(x: i128) -> (r: i64)
    ensures
        r == held(x as int),
{
    if x > 0x7fff_ffff_ffff_ffffi128 {
        i64::MAX
    } else if x < -0x8000_0000_0000_0000i128 {
        i64::MIN
    } else {
        x as i64
    }
}

fn magnitude(a: i64) -> (m: u64)
    ensures
        m == magnitude_of(a as int),
{
    if a < 0 {
        (-(a as i128)) as u64
    } else {
        a as u64
    }
}

fn divide(a: i64, b: i64) -> (r: i64)
    ensures
        r == held(quotient(a as int, b as int)),
{
    if b == 0 {
        if a > 0 {
            i64::MAX
        } else if a < 0 {
            i64::MIN
        } else {
            0
        }
    } else {
        let q: u64 = magnitude(a) / magnitude(b);
        if (a < 0) == (b < 0) {
            hold(q as i128)
        } else {
            hold(-(q as i128))
        }
    }
}

impl Whole {
    pub fn new(v: i64) -> (w: Whole)
        ensures
            w.v == v,
    {
        Whole { v }
    }
}

impl vstd::std_specs::ops::AddSpecImpl for Whole {
    open spec fn obeys_add_spec() -> bool {
        true
    }

    open spec fn add_req(self, rhs: Whole) -> bool {
        true
    }

    open spec fn add_spec(self, rhs: Whole) -> Whole {
        Whole { v: held(self.v + rhs.v) }
    }
}

impl Add for Whole {
    type Output = Whole;

    fn add(self, rhs: Whole) -> Whole {
        Whole { v: hold(self.v as i128 + rhs.v as i128) }
    }
}

impl vstd::std_specs::ops::SubSpecImpl for Whole {
    open spec fn obeys_sub_spec() -> bool {
        true
    }

    open spec fn sub_req(self, rhs: Whole) -> bool {
        true
    }

    open spec fn sub_spec(self, rhs: Whole) -> Whole {
        Whole { v: held(self.v - rhs.v) }
    }
}

impl Sub for Whole {
    type Output = Whole;

    fn sub(self, rhs: Whole) -> Whole {
        Whole { v: hold(self.v as i128 - rhs.v as i128) }
    }
}

impl vstd::std_specs::ops::MulSpecImpl for Whole {
    open spec fn obeys_mul_spec() -> bool {
        true
    }

    open spec fn mul_req(self, rhs: Whole) -> bool {
        true
    }

    open spec fn mul_spec(self, rhs: Whole) -> Whole {
        Whole { v: held(self.v * rhs.v) }
    }
}

impl Mul for Whole {
    type Output = Whole;

    fn mul(self, rhs: Whole) -> Whole {
        assert(-0x4000_0000_0000_0000_0000_0000_0000_0000 <= self.v * rhs.v
            <= 0x4000_0000_0000_0000_0000_0000_0000_0000) by (nonlinear_arith)
            requires
                -0x8000_0000_0000_0000 <= self.v <= 0x7fff_ffff_ffff_ffff,
                -0x8000_0000_0000_0000 <= rhs.v <= 0x7fff_ffff_ffff_ffff,
        ;
        Whole { v: hold((self.v as i128) * (rhs.v as i128)) }
    }
}

impl vstd::std_specs::ops::DivSpecImpl for Whole {
    open spec fn obeys_div_spec() -> bool {
        true
    }

    open spec fn div_req(self, rhs: Whole) -> bool {
        true
    }

    open spec fn div_spec(self, rhs: Whole) -> Whole {
        Whole { v: held(quotient(self.v as int, rhs.v as int)) }
    }
}

impl Div for Whole {
    type Output = Whole;

    fn div(self, rhs: Whole) -> Whole {
        Whole { v: divide(self.v, rhs.v) }
    }
}

impl vstd::std_specs::ops::NegSpecImpl for Whole {
    open spec fn obeys_neg_spec() -> bool {
        true
    }

    open spec fn neg_req(self) -> bool {
        true
    }

    open spec fn neg_spec(self) -> Whole {
        Whole { v: held(-self.v) }
    }
}

impl Neg for Whole {
    type Output = Whole;

    fn neg(self) -> Whole {
        Whole { v: hold(-(self.v as i128)) }
    }
}

impl PartialOrd for Whole {
    fn partial_cmp(&self, other: &Whole) -> (r: Option<Ordering>) {
        if self.v < other.v {
            Some(Ordering::Less)
        } else if self.v > other.v {
            Some(Ordering::Greater)
        } else {
            Some(Ordering::Equal)
        }
    }
}

impl vstd::std_specs::cmp::PartialOrdSpecImpl for Whole {
    open spec fn obeys_partial_cmp_spec() -> bool {
        true
    }

    open spec fn partial_cmp_spec(&self, other: &Whole) -> Option<Ordering> {
        if self.v < other.v {
            Some(Ordering::Less)
        } else if self.v > other.v {
            Some(Ordering::Greater)
        } else {
            Some(Ordering::Equal)
        }
    }
}

/// `Whole` meets what the library asks of a component type: its operators
/// compute and compare as they specify, and each can be carried out on
/// all values.
pub proof fn lemma_whole_is_total()
    ensures
        is_total::<Whole>(),
        can_compute::<Whole>(),
        can_add::<Whole>(),
{
}

} // verus!
