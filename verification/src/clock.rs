//! Clocks: a positive rational coefficient paired with a clock variable.
//!
//! Two clocks are comparable exactly when they share their variable; they
//! are then ordered by the value of their coefficients. `uncompose` yields
//! the "remainder" clock used by the subtyping rule for later types.

use vstd::prelude::*;

use core::cmp::Ordering;

use crate::expr::Symbol;

verus! {

/// An exact positive rational, kept as an unreduced numerator/denominator
/// pair. All comparisons go by the represented value (by cross
/// multiplication), never by the representation.
#[derive(Clone, Copy, PartialEq, Eq, Debug, Structural)]
pub struct Coeff {
    pub num: u32,
    pub den: u32,
}

impl Coeff {
    /// Both components are at least one, so the value is a well-defined
    /// positive rational.
    pub open spec fn wf(self) -> bool {
        self.num >= 1 && self.den >= 1
    }

    /// Value comparison: `self < other` as rationals.
    pub open spec fn val_lt(self, other: Coeff) -> bool {
        (self.num as int) * (other.den as int) < (other.num as int) * (self.den as int)
    }

    /// Value equality: `self == other` as rationals.
    pub open spec fn val_eq(self, other: Coeff) -> bool {
        (self.num as int) * (other.den as int) == (other.num as int) * (self.den as int)
    }

    /// Construct a coefficient from a positive numerator and denominator.
    pub fn new(num: u32, den: u32) -> (r: Coeff)
        requires
            num >= 1,
            den >= 1,
        ensures
            r == (Coeff { num, den }),
            r.wf(),
    {
        Coeff { num, den }
    }

    /// The coefficient one.
    pub fn one() -> (r: Coeff)
        ensures
            r == (Coeff { num: 1u32, den: 1u32 }),
            r.wf(),
    {
        Coeff { num: 1, den: 1 }
    }

    /// Compare two coefficients by value.
    pub fn val_cmp(&self, other: &Coeff) -> (r: Ordering)
        ensures
            r == Ordering::Equal <==> self.val_eq(*other),
            r == Ordering::Less <==> self.val_lt(*other),
            r == Ordering::Greater <==> (!self.val_eq(*other) && !self.val_lt(*other)),
    {
        proof {
            lemma_u32_mul_fits_u64(self.num as int, other.den as int);
            lemma_u32_mul_fits_u64(other.num as int, self.den as int);
        }
        let lhs: u64 = (self.num as u64) * (other.den as u64);
        let rhs: u64 = (other.num as u64) * (self.den as u64);
        if lhs == rhs {
            Ordering::Equal
        } else if lhs < rhs {
            Ordering::Less
        } else {
            Ordering::Greater
        }
    }
}

/// The product of two values bounded by `u32::MAX` fits in a `u64`.
proof fn lemma_u32_mul_fits_u64(a: int, b: int)
    requires
        0 <= a <= u32::MAX,
        0 <= b <= u32::MAX,
    ensures
        0 <= a * b <= u64::MAX,
{
    assert(a * b <= (u32::MAX as int) * (u32::MAX as int) && 0 <= a * b) by (nonlinear_arith)
        requires
            0 <= a <= u32::MAX,
            0 <= b <= u32::MAX,
    ;
}

/// The numerator of the remainder coefficient `(1/a - 1/b)^(-1)`,
/// as an unbounded integer.
pub open spec fn uncompose_num(a: Coeff, b: Coeff) -> int {
    (a.num as int) * (b.num as int)
}

/// The denominator of the remainder coefficient `(1/a - 1/b)^(-1)`,
/// as an unbounded integer. Positive exactly when `a < b` by value.
pub open spec fn uncompose_den(a: Coeff, b: Coeff) -> int {
    (a.den as int) * (b.num as int) - (b.den as int) * (a.num as int)
}

/// Whether the remainder coefficient of `a` and `b` is representable
/// in a machine coefficient.
pub open spec fn uncompose_fits(a: Coeff, b: Coeff) -> bool {
    uncompose_num(a, b) <= u32::MAX && uncompose_den(a, b) <= u32::MAX
}

/// A clock: a positive rational coefficient and a clock variable.
#[derive(Clone, Copy, PartialEq, Eq, Debug, Structural)]
pub struct Clock {
    pub coeff: Coeff,
    pub var: Symbol,
}

impl Clock {
    pub open spec fn wf(self) -> bool {
        self.coeff.wf()
    }

    /// Clock equality: shared variable and equal coefficient values.
    pub open spec fn val_eq(self, other: Clock) -> bool {
        self.var == other.var && self.coeff.val_eq(other.coeff)
    }

    /// Whether `self.uncompose(&other)` returns a clock.
    pub open spec fn spec_uncompose_some(self, other: Clock) -> bool {
        self.var == other.var && self.coeff.val_lt(other.coeff) && uncompose_fits(
            self.coeff,
            other.coeff,
        )
    }

    /// The remainder clock, meaningful when `spec_uncompose_some` holds.
    pub open spec fn spec_uncompose(self, other: Clock) -> Clock {
        Clock {
            coeff: Coeff {
                num: uncompose_num(self.coeff, other.coeff) as u32,
                den: uncompose_den(self.coeff, other.coeff) as u32,
            },
            var: self.var,
        }
    }

    /// The remainder clock `((1/q1 - 1/q2)^(-1), alpha)` of two clocks that
    /// share their variable `alpha`, where `q1 < q2` by value. Returns
    /// `None` when the variables differ, when the coefficients are not
    /// strictly increasing, or when the remainder does not fit in a
    /// machine coefficient.
    pub fn uncompose(&self, other: &Clock) -> (r: Option<Clock>)
        ensures
            r is Some <==> self.spec_uncompose_some(*other),
            r is Some ==> r->0 == self.spec_uncompose(*other),
    {
        if self.var == other.var {
            let a = self.coeff;
            let b = other.coeff;
            proof {
                lemma_u32_mul_fits_u64(a.num as int, b.den as int);
                lemma_u32_mul_fits_u64(b.num as int, a.den as int);
                lemma_u32_mul_fits_u64(a.num as int, b.num as int);
                lemma_u32_mul_fits_u64(a.den as int, b.num as int);
                lemma_u32_mul_fits_u64(b.den as int, a.num as int);
            }
            let lhs: u64 = (a.num as u64) * (b.den as u64);
            let rhs: u64 = (b.num as u64) * (a.den as u64);
            if lhs < rhs {
                proof {
                    assert((a.den as int) * (b.num as int) == (b.num as int) * (a.den as int)
                        && (b.den as int) * (a.num as int) == (a.num as int) * (b.den as int))
                        by (nonlinear_arith);
                }
                let num: u64 = (a.num as u64) * (b.num as u64);
                let den: u64 = (a.den as u64) * (b.num as u64) - (b.den as u64) * (a.num as u64);
                if num <= u32::MAX as u64 && den <= u32::MAX as u64 {
                    Some(Clock { coeff: Coeff { num: num as u32, den: den as u32 }, var: self.var })
                } else {
                    None
                }
            } else {
                None
            }
        } else {
            None
        }
    }
}

impl vstd::std_specs::cmp::PartialOrdSpecImpl for Clock {
    open spec fn obeys_partial_cmp_spec() -> bool {
        true
    }

    open spec fn partial_cmp_spec(&self, other: &Clock) -> Option<Ordering> {
        if self.var == other.var {
            if self.coeff.val_eq(other.coeff) {
                Some(Ordering::Equal)
            } else if self.coeff.val_lt(other.coeff) {
                Some(Ordering::Less)
            } else {
                Some(Ordering::Greater)
            }
        } else {
            None
        }
    }
}

impl PartialOrd for Clock {
    /// Clocks with a shared variable are ordered by coefficient value;
    /// clocks over different variables are incomparable.
    fn partial_cmp(&self, other: &Clock) -> (r: Option<Ordering>) {
        if self.var == other.var {
            Some(self.coeff.val_cmp(&other.coeff))
        } else {
            None
        }
    }
}

} // verus!
