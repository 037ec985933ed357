//! The subtyping judgement over clock-indexed modal types.
//!
//! Two specifications are given. `gsub` is the mathematical relation over
//! ghost types whose clock coefficients are unbounded integers; it is the
//! subject of the reflexivity, transitivity and variance lemmas. `sub_m`
//! describes the executable judgement exactly: it follows the same rules
//! but works on machine coefficients, and judges `false` whenever a
//! remainder clock would not fit a machine coefficient.
//! `lemma_sub_m_characterization` ties the two together.

use vstd::prelude::*;

use crate::clock::{Clock, Coeff, uncompose_den, uncompose_fits, uncompose_num};
use crate::expr::Symbol;
use crate::typing::{ArraySize, Type, stable, tsize, type_wf};

verus! {

/// A ghost clock: an exact positive rational with unbounded components,
/// and a clock variable.
pub ghost struct GClock {
    pub num: int,
    pub den: int,
    pub var: Symbol,
}

impl GClock {
    pub open spec fn wf(self) -> bool {
        self.num >= 1 && self.den >= 1
    }

    /// Value comparison, by cross multiplication.
    pub open spec fn lt(self, other: GClock) -> bool {
        self.num * other.den < other.num * self.den
    }

    /// Value equality, by cross multiplication.
    pub open spec fn eq_val(self, other: GClock) -> bool {
        self.num * other.den == other.num * self.den
    }

    /// Same variable and equal value.
    pub open spec fn equiv(self, other: GClock) -> bool {
        self.var == other.var && self.eq_val(other)
    }
}

/// The remainder clock `(1/a - 1/b)^(-1)` over the shared variable of `a`.
/// Its value is a positive rational exactly when `a.lt(b)`.
pub open spec fn gunc(a: GClock, b: GClock) -> GClock {
    GClock { num: a.num * b.num, den: a.den * b.num - b.den * a.num, var: a.var }
}

/// Ghost types: the type language with ghost clocks.
pub ghost enum GType {
    Unit,
    Sample,
    Index,
    Stream(GClock, Box<GType>),
    Function(Box<GType>, Box<GType>),
    Product(Box<GType>, Box<GType>),
    Sum(Box<GType>, Box<GType>),
    Later(GClock, Box<GType>),
    Array(Box<GType>, int),
    Box(Box<GType>),
}

/// Structural size: the termination measure of `gsub`.
pub open spec fn gsize(t: GType) -> nat
    decreases t,
{
    match t {
        GType::Unit => 1,
        GType::Sample => 1,
        GType::Index => 1,
        GType::Stream(_, u) => 1 + gsize(*u),
        GType::Function(a, b) => 1 + gsize(*a) + gsize(*b),
        GType::Product(a, b) => 1 + gsize(*a) + gsize(*b),
        GType::Sum(a, b) => 1 + gsize(*a) + gsize(*b),
        GType::Later(_, u) => 1 + gsize(*u),
        GType::Array(u, _) => 1 + gsize(*u),
        GType::Box(u) => 1 + gsize(*u),
    }
}

/// Every clock in the ghost type is well formed.
pub open spec fn gwf(t: GType) -> bool
    decreases t,
{
    match t {
        GType::Unit => true,
        GType::Sample => true,
        GType::Index => true,
        GType::Stream(c, u) => c.wf() && gwf(*u),
        GType::Function(a, b) => gwf(*a) && gwf(*b),
        GType::Product(a, b) => gwf(*a) && gwf(*b),
        GType::Sum(a, b) => gwf(*a) && gwf(*b),
        GType::Later(c, u) => c.wf() && gwf(*u),
        GType::Array(u, _) => gwf(*u),
        GType::Box(u) => gwf(*u),
    }
}

/// The subtyping relation over ghost types. Reflexive on base types;
/// covariant on streams, products, sums, arrays and boxes;
/// contravariant-then-covariant on functions; array sizes compared by
/// value; clock variables by identity. A later type on the slower clock
/// absorbs the difference through the remainder clock `gunc`.
pub open spec fn gsub(t1: GType, t2: GType) -> bool
    decreases gsize(t1) + gsize(t2),
{
    match (t1, t2) {
        (GType::Unit, GType::Unit) => true,
        (GType::Sample, GType::Sample) => true,
        (GType::Index, GType::Index) => true,
        (GType::Stream(c1, u1), GType::Stream(c2, u2)) => c1.equiv(c2) && gsub(*u1, *u2),
        (GType::Function(a1, b1), GType::Function(a2, b2)) => gsub(*a2, *a1) && gsub(*b1, *b2),
        (GType::Product(a1, b1), GType::Product(a2, b2)) => gsub(*a1, *a2) && gsub(*b1, *b2),
        (GType::Sum(a1, b1), GType::Sum(a2, b2)) => gsub(*a1, *a2) && gsub(*b1, *b2),
        (GType::Later(c1, u1), GType::Later(c2, u2)) => if c1.var != c2.var {
            false
        } else if c1.eq_val(c2) {
            gsub(*u1, *u2)
        } else if c1.lt(c2) {
            gsub(GType::Later(gunc(c1, c2), u1), *u2)
        } else {
            gsub(*u1, GType::Later(gunc(c2, c1), u2))
        },
        (GType::Array(u1, n1), GType::Array(u2, n2)) => gsub(*u1, *u2) && n1 == n2,
        (GType::Box(u1), GType::Box(u2)) => gsub(*u1, *u2),
        _ => false,
    }
}

/// The ghost image of a machine clock.
pub open spec fn abs_clock(c: Clock) -> GClock {
    GClock { num: c.coeff.num as int, den: c.coeff.den as int, var: c.var }
}

/// The ghost image of a machine type.
pub open spec fn abs_type(t: Type) -> GType
    decreases t,
{
    match t {
        Type::Unit => GType::Unit,
        Type::Sample => GType::Sample,
        Type::Index => GType::Index,
        Type::Stream(c, u) => GType::Stream(abs_clock(c), Box::new(abs_type(*u))),
        Type::Function(a, b) => GType::Function(Box::new(abs_type(*a)), Box::new(abs_type(*b))),
        Type::Product(a, b) => GType::Product(Box::new(abs_type(*a)), Box::new(abs_type(*b))),
        Type::Sum(a, b) => GType::Sum(Box::new(abs_type(*a)), Box::new(abs_type(*b))),
        Type::Later(c, u) => GType::Later(abs_clock(c), Box::new(abs_type(*u))),
        Type::Array(u, n) => GType::Array(Box::new(abs_type(*u)), n.spec_value() as int),
        Type::Box(u) => GType::Box(Box::new(abs_type(*u))),
    }
}

/// The executable judgement, exactly: the rules of `gsub` on machine
/// coefficients, except that a remainder clock that does not fit a
/// machine coefficient makes the judgement `false`.
pub open spec fn sub_m(t1: Type, t2: Type) -> bool
    decreases tsize(t1) + tsize(t2),
{
    match (t1, t2) {
        (Type::Unit, Type::Unit) => true,
        (Type::Sample, Type::Sample) => true,
        (Type::Index, Type::Index) => true,
        (Type::Stream(c1, u1), Type::Stream(c2, u2)) => c1.val_eq(c2) && sub_m(*u1, *u2),
        (Type::Function(a1, b1), Type::Function(a2, b2)) => sub_m(*a2, *a1) && sub_m(*b1, *b2),
        (Type::Product(a1, b1), Type::Product(a2, b2)) => sub_m(*a1, *a2) && sub_m(*b1, *b2),
        (Type::Sum(a1, b1), Type::Sum(a2, b2)) => sub_m(*a1, *a2) && sub_m(*b1, *b2),
        (Type::Later(c1, u1), Type::Later(c2, u2)) => if c1.var != c2.var {
            false
        } else if c1.coeff.val_eq(c2.coeff) {
            sub_m(*u1, *u2)
        } else if c1.coeff.val_lt(c2.coeff) {
            c1.spec_uncompose_some(c2) && sub_m(Type::Later(c1.spec_uncompose(c2), u1), *u2)
        } else {
            c2.spec_uncompose_some(c1) && sub_m(*u1, Type::Later(c2.spec_uncompose(c1), u2))
        },
        (Type::Array(u1, n1), Type::Array(u2, n2)) => sub_m(*u1, *u2) && n1.spec_value()
            == n2.spec_value(),
        (Type::Box(u1), Type::Box(u2)) => sub_m(*u1, *u2),
        _ => false,
    }
}

/// Whether the executable judgement decides `t1 <= t2` without running
/// into a remainder clock that does not fit a machine coefficient.
/// Together with `gsub` this characterizes `sub_m`; see
/// `lemma_sub_m_characterization`.
pub open spec fn sub_def(t1: Type, t2: Type) -> bool
    decreases tsize(t1) + tsize(t2),
{
    match (t1, t2) {
        (Type::Stream(c1, u1), Type::Stream(c2, u2)) => c1.val_eq(c2) ==> sub_def(*u1, *u2),
        (Type::Function(a1, b1), Type::Function(a2, b2)) => sub_def(*a2, *a1) && sub_def(
            *b1,
            *b2,
        ),
        (Type::Product(a1, b1), Type::Product(a2, b2)) => sub_def(*a1, *a2) && sub_def(*b1, *b2),
        (Type::Sum(a1, b1), Type::Sum(a2, b2)) => sub_def(*a1, *a2) && sub_def(*b1, *b2),
        (Type::Later(c1, u1), Type::Later(c2, u2)) => if c1.var != c2.var {
            true
        } else if c1.coeff.val_eq(c2.coeff) {
            sub_def(*u1, *u2)
        } else if c1.coeff.val_lt(c2.coeff) {
            uncompose_fits(c1.coeff, c2.coeff) && sub_def(
                Type::Later(c1.spec_uncompose(c2), u1),
                *u2,
            )
        } else {
            uncompose_fits(c2.coeff, c1.coeff) && sub_def(
                *u1,
                Type::Later(c2.spec_uncompose(c1), u2),
            )
        },
        (Type::Array(u1, n1), Type::Array(u2, n2)) => sub_def(*u1, *u2),
        (Type::Box(u1), Type::Box(u2)) => sub_def(*u1, *u2),
        _ => true,
    }
}

/// The remainder of two machine coefficients in increasing order has a
/// nonnegative numerator and a positive denominator.
proof fn lemma_uncompose_bounds(a: Coeff, b: Coeff)
    requires
        a.val_lt(b),
    ensures
        uncompose_num(a, b) >= 0,
        uncompose_den(a, b) >= 1,
{
    assert((a.num as int) * (b.num as int) >= 0 && (a.den as int) * (b.num as int) - (b.den
        as int) * (a.num as int) >= 1) by (nonlinear_arith)
        requires
            a.num >= 0,
            b.num >= 0,
            a.den >= 0,
            b.den >= 0,
            (a.num as int) * (b.den as int) < (b.num as int) * (a.den as int),
    ;
}

/// The executable judgement holds exactly when no remainder clock
/// overflows along the way and the mathematical relation holds.
pub proof fn lemma_sub_m_characterization(t1: Type, t2: Type)
    ensures
        sub_m(t1, t2) == (sub_def(t1, t2) && gsub(abs_type(t1), abs_type(t2))),
    decreases tsize(t1) + tsize(t2),
{
    match (t1, t2) {
        (Type::Stream(c1, u1), Type::Stream(c2, u2)) => {
            lemma_sub_m_characterization(*u1, *u2);
        },
        (Type::Function(a1, b1), Type::Function(a2, b2)) => {
            lemma_sub_m_characterization(*a2, *a1);
            lemma_sub_m_characterization(*b1, *b2);
        },
        (Type::Product(a1, b1), Type::Product(a2, b2)) => {
            lemma_sub_m_characterization(*a1, *a2);
            lemma_sub_m_characterization(*b1, *b2);
        },
        (Type::Sum(a1, b1), Type::Sum(a2, b2)) => {
            lemma_sub_m_characterization(*a1, *a2);
            lemma_sub_m_characterization(*b1, *b2);
        },
        (Type::Later(c1, u1), Type::Later(c2, u2)) => {
            if c1.var == c2.var {
                if c1.coeff.val_eq(c2.coeff) {
                    lemma_sub_m_characterization(*u1, *u2);
                } else if c1.coeff.val_lt(c2.coeff) {
                    if uncompose_fits(c1.coeff, c2.coeff) {
                        lemma_sub_m_characterization(
                            Type::Later(c1.spec_uncompose(c2), u1),
                            *u2,
                        );
                        lemma_uncompose_bounds(c1.coeff, c2.coeff);
                        assert(abs_clock(c1.spec_uncompose(c2)) == gunc(
                            abs_clock(c1),
                            abs_clock(c2),
                        ));
                    }
                } else {
                    if uncompose_fits(c2.coeff, c1.coeff) {
                        lemma_sub_m_characterization(
                            *u1,
                            Type::Later(c2.spec_uncompose(c1), u2),
                        );
                        lemma_uncompose_bounds(c2.coeff, c1.coeff);
                        assert(abs_clock(c2.spec_uncompose(c1)) == gunc(
                            abs_clock(c2),
                            abs_clock(c1),
                        ));
                    }
                }
            }
        },
        (Type::Array(u1, n1), Type::Array(u2, n2)) => {
            lemma_sub_m_characterization(*u1, *u2);
        },
        (Type::Box(u1), Type::Box(u2)) => {
            lemma_sub_m_characterization(*u1, *u2);
        },
        _ => {},
    }
}

/// A well-formed machine type maps to a well-formed ghost type.
pub proof fn lemma_abs_type_wf(t: Type)
    requires
        type_wf(t),
    ensures
        gwf(abs_type(t)),
    decreases t,
{
    match t {
        Type::Stream(c, u) => lemma_abs_type_wf(*u),
        Type::Function(a, b) => {
            lemma_abs_type_wf(*a);
            lemma_abs_type_wf(*b);
        },
        Type::Product(a, b) => {
            lemma_abs_type_wf(*a);
            lemma_abs_type_wf(*b);
        },
        Type::Sum(a, b) => {
            lemma_abs_type_wf(*a);
            lemma_abs_type_wf(*b);
        },
        Type::Later(c, u) => lemma_abs_type_wf(*u),
        Type::Array(u, _) => lemma_abs_type_wf(*u),
        Type::Box(u) => lemma_abs_type_wf(*u),
        _ => {},
    }
}

/// Subtyping is reflexive: `gsub(t, t)` for every ghost type.
pub proof fn lemma_gsub_refl(t: GType)
    ensures
        gsub(t, t),
    decreases gsize(t),
{
    match t {
        GType::Stream(c, u) => lemma_gsub_refl(*u),
        GType::Function(a, b) => {
            lemma_gsub_refl(*a);
            lemma_gsub_refl(*b);
        },
        GType::Product(a, b) => {
            lemma_gsub_refl(*a);
            lemma_gsub_refl(*b);
        },
        GType::Sum(a, b) => {
            lemma_gsub_refl(*a);
            lemma_gsub_refl(*b);
        },
        GType::Later(c, u) => lemma_gsub_refl(*u),
        GType::Array(u, _) => lemma_gsub_refl(*u),
        GType::Box(u) => lemma_gsub_refl(*u),
        _ => {},
    }
}

/// The executable judgement never overflows when comparing a type
/// against itself.
pub proof fn lemma_sub_def_refl(t: Type)
    ensures
        sub_def(t, t),
    decreases tsize(t),
{
    match t {
        Type::Stream(c, u) => lemma_sub_def_refl(*u),
        Type::Function(a, b) => {
            lemma_sub_def_refl(*a);
            lemma_sub_def_refl(*b);
        },
        Type::Product(a, b) => {
            lemma_sub_def_refl(*a);
            lemma_sub_def_refl(*b);
        },
        Type::Sum(a, b) => {
            lemma_sub_def_refl(*a);
            lemma_sub_def_refl(*b);
        },
        Type::Later(c, u) => lemma_sub_def_refl(*u),
        Type::Array(u, _) => lemma_sub_def_refl(*u),
        Type::Box(u) => lemma_sub_def_refl(*u),
        _ => {},
    }
}

/// Subtype reflexivity at the machine level: every type is a subtype
/// of itself.
pub proof fn lemma_subtype_refl(t: Type)
    ensures
        sub_m(t, t),
{
    lemma_sub_m_characterization(t, t);
    lemma_sub_def_refl(t);
    lemma_gsub_refl(abs_type(t));
}

/// Clock-value equivalence of ghost types: the same structure, with
/// clocks over the same variables and of equal values.
pub open spec fn gequiv(t1: GType, t2: GType) -> bool
    decreases t1,
{
    match (t1, t2) {
        (GType::Unit, GType::Unit) => true,
        (GType::Sample, GType::Sample) => true,
        (GType::Index, GType::Index) => true,
        (GType::Stream(c1, u1), GType::Stream(c2, u2)) => c1.equiv(c2) && gequiv(*u1, *u2),
        (GType::Function(a1, b1), GType::Function(a2, b2)) => gequiv(*a1, *a2) && gequiv(*b1, *b2),
        (GType::Product(a1, b1), GType::Product(a2, b2)) => gequiv(*a1, *a2) && gequiv(*b1, *b2),
        (GType::Sum(a1, b1), GType::Sum(a2, b2)) => gequiv(*a1, *a2) && gequiv(*b1, *b2),
        (GType::Later(c1, u1), GType::Later(c2, u2)) => c1.equiv(c2) && gequiv(*u1, *u2),
        (GType::Array(u1, n1), GType::Array(u2, n2)) => gequiv(*u1, *u2) && n1 == n2,
        (GType::Box(u1), GType::Box(u2)) => gequiv(*u1, *u2),
        _ => false,
    }
}

pub proof fn lemma_gequiv_refl(t: GType)
    ensures
        gequiv(t, t),
    decreases t,
{
    match t {
        GType::Stream(c, u) => lemma_gequiv_refl(*u),
        GType::Function(a, b) => {
            lemma_gequiv_refl(*a);
            lemma_gequiv_refl(*b);
        },
        GType::Product(a, b) => {
            lemma_gequiv_refl(*a);
            lemma_gequiv_refl(*b);
        },
        GType::Sum(a, b) => {
            lemma_gequiv_refl(*a);
            lemma_gequiv_refl(*b);
        },
        GType::Later(c, u) => lemma_gequiv_refl(*u),
        GType::Array(u, _) => lemma_gequiv_refl(*u),
        GType::Box(u) => lemma_gequiv_refl(*u),
        _ => {},
    }
}

/// Rational comparisons respect value equality.
proof fn lemma_cmp_respects(a: GClock, ab: GClock, b: GClock, bb: GClock)
    requires
        a.wf(),
        ab.wf(),
        b.wf(),
        bb.wf(),
        a.eq_val(ab),
        b.eq_val(bb),
    ensures
        a.lt(b) == ab.lt(bb),
        a.eq_val(b) == ab.eq_val(bb),
{
    assert((a.num * b.den < b.num * a.den) == (ab.num * bb.den < bb.num * ab.den) && (a.num
        * b.den == b.num * a.den) == (ab.num * bb.den == bb.num * ab.den)) by (nonlinear_arith)
        requires
            a.den >= 1,
            ab.den >= 1,
            b.den >= 1,
            bb.den >= 1,
            a.num * ab.den == ab.num * a.den,
            b.num * bb.den == bb.num * b.den,
    ;
}

/// Rational strict order is transitive.
proof fn lemma_lt_trans(a: GClock, b: GClock, c: GClock)
    requires
        a.wf(),
        b.wf(),
        c.wf(),
        a.lt(b),
        b.lt(c),
    ensures
        a.lt(c),
{
    assert(a.num * c.den < c.num * a.den) by (nonlinear_arith)
        requires
            a.den >= 1,
            b.den >= 1,
            c.den >= 1,
            a.num * b.den < b.num * a.den,
            b.num * c.den < c.num * b.den,
    ;
}

/// Rational value equality is transitive.
proof fn lemma_eq_trans(a: GClock, b: GClock, c: GClock)
    requires
        a.wf(),
        b.wf(),
        c.wf(),
        a.eq_val(b),
        b.eq_val(c),
    ensures
        a.eq_val(c),
{
    assert(a.num * c.den == c.num * a.den) by (nonlinear_arith)
        requires
            a.den >= 1,
            b.den >= 1,
            c.den >= 1,
            a.num * b.den == b.num * a.den,
            b.num * c.den == c.num * b.den,
    ;
}

/// The remainder of two well-formed clocks in strictly increasing order
/// is well formed and lives on the same variable.
proof fn lemma_gunc_wf(a: GClock, b: GClock)
    requires
        a.wf(),
        b.wf(),
        a.lt(b),
    ensures
        gunc(a, b).wf(),
        gunc(a, b).var == a.var,
{
    assert(a.num * b.num >= 1 && a.den * b.num - b.den * a.num >= 1) by (nonlinear_arith)
        requires
            a.num >= 1,
            b.num >= 1,
            a.den >= 1,
            b.den >= 1,
            a.num * b.den < b.num * a.den,
    ;
}

/// The remainder respects value equality of its operands.
proof fn lemma_gunc_congr(a: GClock, ab: GClock, b: GClock, bb: GClock)
    requires
        a.wf(),
        ab.wf(),
        b.wf(),
        bb.wf(),
        a.eq_val(ab),
        b.eq_val(bb),
    ensures
        gunc(a, b).eq_val(gunc(ab, bb)),
{
    broadcast use vstd::arithmetic::mul::group_mul_properties;

    let p = a.num;
    let q = a.den;
    let pb = ab.num;
    let qb = ab.den;
    let r = b.num;
    let s = b.den;
    let rb = bb.num;
    let sb = bb.den;
    assert((p * r) * (qb * rb - sb * pb) == (p * r) * (qb * rb) - (p * r) * (sb * pb));
    assert((p * r) * (qb * rb) == (p * qb) * (r * rb));
    assert((p * r) * (sb * pb) == (r * sb) * (p * pb));
    assert((pb * rb) * (q * r - s * p) == (pb * rb) * (q * r) - (pb * rb) * (s * p));
    assert((pb * rb) * (q * r) == (pb * q) * (r * rb));
    assert((pb * rb) * (s * p) == (rb * s) * (p * pb));
    assert((p * qb) * (r * rb) == (pb * q) * (r * rb));
    assert((r * sb) * (p * pb) == (rb * s) * (p * pb));
}

/// Products of four factors may be regrouped pairwise.
proof fn lemma_mul4(a: int, b: int, c: int, d: int)
    ensures
        (a * b) * (c * d) == (b * d) * (a * c),
{
    vstd::arithmetic::mul::lemma_mul_is_associative(a * b, c, d);
    vstd::arithmetic::mul::lemma_mul_is_associative(a, b, c);
    vstd::arithmetic::mul::lemma_mul_is_commutative(b, c);
    vstd::arithmetic::mul::lemma_mul_is_associative(a, c, b);
    vstd::arithmetic::mul::lemma_mul_is_associative(a * c, b, d);
    vstd::arithmetic::mul::lemma_mul_is_commutative(a * c, b * d);
}

/// Composing remainders over a shared faster clock: the remainder of the
/// two remainders is, by value, the remainder of the two outer clocks.
proof fn lemma_gunc_compose(x: GClock, y: GClock, z: GClock)
    ensures
        gunc(gunc(x, z), gunc(y, z)).eq_val(gunc(x, y)),
        gunc(gunc(x, z), gunc(y, z)).var == gunc(x, y).var,
{
    let nx = x.num;
    let dx = x.den;
    let ny = y.num;
    let dy = y.den;
    let nz = z.num;
    let dz = z.den;
    let k = dx * ny - dy * nx;
    vstd::arithmetic::mul::lemma_mul_is_distributive_sub_other_way(
        ny * nz,
        dx * nz,
        dz * nx,
    );
    vstd::arithmetic::mul::lemma_mul_is_distributive_sub_other_way(
        nx * nz,
        dy * nz,
        dz * ny,
    );
    lemma_mul4(dx, nz, ny, nz);
    lemma_mul4(dy, nz, nx, nz);
    lemma_mul4(dz, nx, ny, nz);
    vstd::arithmetic::mul::lemma_mul_is_commutative(nx * nz, dz * ny);
    vstd::arithmetic::mul::lemma_mul_is_distributive_sub(nz * nz, dx * ny, dy * nx);
    lemma_mul4(nx, nz, ny, nz);
    vstd::arithmetic::mul::lemma_mul_is_commutative(nz * nz, nx * ny);
    vstd::arithmetic::mul::lemma_mul_is_associative(nx * ny, nz * nz, k);
}

/// Remainders over a shared slower clock compare as their faster clocks
/// do.
proof fn lemma_gunc_cmp(x: GClock, y: GClock, z: GClock)
    requires
        x.wf(),
        y.wf(),
        z.wf(),
        x.lt(z),
        y.lt(z),
    ensures
        gunc(x, z).lt(gunc(y, z)) == x.lt(y),
        gunc(x, z).eq_val(gunc(y, z)) == x.eq_val(y),
{
    broadcast use vstd::arithmetic::mul::group_mul_properties;

    let nx = x.num;
    let dx = x.den;
    let ny = y.num;
    let dy = y.den;
    let nz = z.num;
    let dz = z.den;
    assert((nx * nz) * (dy * nz - dz * ny) == (nx * nz) * (dy * nz) - (nx * nz) * (dz * ny));
    assert((nx * nz) * (dy * nz) == (nz * nz) * (nx * dy));
    assert((nx * nz) * (dz * ny) == (nx * ny) * (dz * nz));
    assert((ny * nz) * (dx * nz - dz * nx) == (ny * nz) * (dx * nz) - (ny * nz) * (dz * nx));
    assert((ny * nz) * (dx * nz) == (nz * nz) * (ny * dx));
    assert((ny * nz) * (dz * nx) == (nx * ny) * (dz * nz));
    assert(nz * nz >= 1) by (nonlinear_arith)
        requires
            nz >= 1,
    ;
    assert(((nz * nz) * (nx * dy) < (nz * nz) * (ny * dx)) == (nx * dy < ny * dx)
        && ((nz * nz) * (nx * dy) == (nz * nz) * (ny * dx)) == (nx * dy == ny * dx))
        by (nonlinear_arith)
        requires
            nz * nz >= 1,
    ;
}


/// The subtyping relation is invariant under clock-value equivalence.
proof fn lemma_gsub_congr(t1: GType, t1b: GType, t2: GType, t2b: GType)
    requires
        gwf(t1),
        gwf(t1b),
        gwf(t2),
        gwf(t2b),
        gequiv(t1, t1b),
        gequiv(t2, t2b),
    ensures
        gsub(t1, t2) == gsub(t1b, t2b),
    decreases gsize(t1) + gsize(t2),
{
    match (t1, t2) {
        (GType::Stream(c1, u1), GType::Stream(c2, u2)) => {
            match (t1b, t2b) {
                (GType::Stream(c1b, u1b), GType::Stream(c2b, u2b)) => {
                    lemma_cmp_respects(c1, c1b, c2, c2b);
                    lemma_gsub_congr(*u1, *u1b, *u2, *u2b);
                },
                _ => {},
            }
        },
        (GType::Function(a1, b1), GType::Function(a2, b2)) => {
            match (t1b, t2b) {
                (GType::Function(a1b, b1b), GType::Function(a2b, b2b)) => {
                    lemma_gsub_congr(*a2, *a2b, *a1, *a1b);
                    lemma_gsub_congr(*b1, *b1b, *b2, *b2b);
                },
                _ => {},
            }
        },
        (GType::Product(a1, b1), GType::Product(a2, b2)) => {
            match (t1b, t2b) {
                (GType::Product(a1b, b1b), GType::Product(a2b, b2b)) => {
                    lemma_gsub_congr(*a1, *a1b, *a2, *a2b);
                    lemma_gsub_congr(*b1, *b1b, *b2, *b2b);
                },
                _ => {},
            }
        },
        (GType::Sum(a1, b1), GType::Sum(a2, b2)) => {
            match (t1b, t2b) {
                (GType::Sum(a1b, b1b), GType::Sum(a2b, b2b)) => {
                    lemma_gsub_congr(*a1, *a1b, *a2, *a2b);
                    lemma_gsub_congr(*b1, *b1b, *b2, *b2b);
                },
                _ => {},
            }
        },
        (GType::Later(c1, u1), GType::Later(c2, u2)) => {
            match (t1b, t2b) {
                (GType::Later(c1b, u1b), GType::Later(c2b, u2b)) => {
                    lemma_cmp_respects(c1, c1b, c2, c2b);
                    if c1.var == c2.var {
                        if c1.eq_val(c2) {
                            lemma_gsub_congr(*u1, *u1b, *u2, *u2b);
                        } else if c1.lt(c2) {
                            lemma_gunc_wf(c1, c2);
                            lemma_gunc_wf(c1b, c2b);
                            lemma_gunc_congr(c1, c1b, c2, c2b);
                            lemma_gsub_congr(
                                GType::Later(gunc(c1, c2), u1),
                                GType::Later(gunc(c1b, c2b), u1b),
                                *u2,
                                *u2b,
                            );
                        } else {
                            lemma_gunc_wf(c2, c1);
                            lemma_gunc_wf(c2b, c1b);
                            lemma_gunc_congr(c2, c2b, c1, c1b);
                            lemma_gsub_congr(
                                *u1,
                                *u1b,
                                GType::Later(gunc(c2, c1), u2),
                                GType::Later(gunc(c2b, c1b), u2b),
                            );
                        }
                    }
                },
                _ => {},
            }
        },
        (GType::Array(u1, n1), GType::Array(u2, n2)) => {
            match (t1b, t2b) {
                (GType::Array(u1b, n1b), GType::Array(u2b, n2b)) => {
                    lemma_gsub_congr(*u1, *u1b, *u2, *u2b);
                },
                _ => {},
            }
        },
        (GType::Box(u1), GType::Box(u2)) => {
            match (t1b, t2b) {
                (GType::Box(u1b), GType::Box(u2b)) => {
                    lemma_gsub_congr(*u1, *u1b, *u2, *u2b);
                },
                _ => {},
            }
        },
        _ => {},
    }
}

/// Subtyping of ghost types is transitive.
pub proof fn lemma_gsub_trans(t1: GType, t2: GType, t3: GType)
    requires
        gwf(t1),
        gwf(t2),
        gwf(t3),
        gsub(t1, t2),
        gsub(t2, t3),
    ensures
        gsub(t1, t3),
    decreases gsize(t1) + gsize(t3), gsize(t2), 1int,
{
    match (t1, t2, t3) {
        (GType::Stream(ca, ua), GType::Stream(cb, ub), GType::Stream(cc, uc)) => {
            lemma_eq_trans(ca, cb, cc);
            lemma_gsub_trans(*ua, *ub, *uc);
        },
        (GType::Function(a1, b1), GType::Function(a2, b2), GType::Function(a3, b3)) => {
            lemma_gsub_trans(*a3, *a2, *a1);
            lemma_gsub_trans(*b1, *b2, *b3);
        },
        (GType::Product(a1, b1), GType::Product(a2, b2), GType::Product(a3, b3)) => {
            lemma_gsub_trans(*a1, *a2, *a3);
            lemma_gsub_trans(*b1, *b2, *b3);
        },
        (GType::Sum(a1, b1), GType::Sum(a2, b2), GType::Sum(a3, b3)) => {
            lemma_gsub_trans(*a1, *a2, *a3);
            lemma_gsub_trans(*b1, *b2, *b3);
        },
        (GType::Array(u1, n1), GType::Array(u2, n2), GType::Array(u3, n3)) => {
            lemma_gsub_trans(*u1, *u2, *u3);
        },
        (GType::Box(u1), GType::Box(u2), GType::Box(u3)) => {
            lemma_gsub_trans(*u1, *u2, *u3);
        },
        (GType::Later(ca, ua), GType::Later(cb, ub), GType::Later(cc, uc)) => {
            lemma_gsub_trans_later(ca, *ua, cb, *ub, cc, *uc);
        },
        _ => {},
    }
}

/// The later/later/later case of transitivity, spelled out over the
/// clock comparisons.
proof fn lemma_gsub_trans_later(
    ca: GClock,
    ua: GType,
    cb: GClock,
    ub: GType,
    cc: GClock,
    uc: GType,
)
    requires
        ca.wf(),
        cb.wf(),
        cc.wf(),
        gwf(ua),
        gwf(ub),
        gwf(uc),
        gsub(GType::Later(ca, Box::new(ua)), GType::Later(cb, Box::new(ub))),
        gsub(GType::Later(cb, Box::new(ub)), GType::Later(cc, Box::new(uc))),
    ensures
        gsub(GType::Later(ca, Box::new(ua)), GType::Later(cc, Box::new(uc))),
    decreases gsize(ua) + gsize(uc) + 2, gsize(ub) + 1, 0int,
{
    lemma_gequiv_refl(ua);
    lemma_gequiv_refl(ub);
    lemma_gequiv_refl(uc);
    if ca.eq_val(cb) {
        if cb.eq_val(cc) {
            // both equal: recurse on the bodies
            lemma_eq_trans(ca, cb, cc);
            lemma_gsub_trans(ua, ub, uc);
        } else if cb.lt(cc) {
            // equal, then increasing
            lemma_cmp_respects(ca, cb, cc, cc);
            lemma_gunc_wf(cb, cc);
            // from gsub(ua, ub): the remainder-shifted pair compares
            lemma_gsub_trans(
                GType::Later(gunc(cb, cc), Box::new(ua)),
                GType::Later(gunc(cb, cc), Box::new(ub)),
                uc,
            );
            lemma_gunc_congr(ca, cb, cc, cc);
            lemma_gunc_wf(ca, cc);
            lemma_gsub_congr(
                GType::Later(gunc(ca, cc), Box::new(ua)),
                GType::Later(gunc(cb, cc), Box::new(ua)),
                uc,
                uc,
            );
        } else {
            // equal, then decreasing
            lemma_cmp_respects(cc, cc, ca, cb);
            lemma_gunc_wf(cc, cb);
            lemma_gsub_trans(
                ua,
                ub,
                GType::Later(gunc(cc, cb), Box::new(uc)),
            );
            lemma_gunc_congr(cc, cc, ca, cb);
            lemma_gunc_wf(cc, ca);
            lemma_gsub_congr(
                ua,
                ua,
                GType::Later(gunc(cc, ca), Box::new(uc)),
                GType::Later(gunc(cc, cb), Box::new(uc)),
            );
        }
    } else if ca.lt(cb) {
        if cb.eq_val(cc) {
            // increasing, then equal
            lemma_cmp_respects(ca, ca, cb, cc);
            lemma_gunc_wf(ca, cb);
            lemma_gsub_trans(GType::Later(gunc(ca, cb), Box::new(ua)), ub, uc);
            lemma_gunc_congr(ca, ca, cb, cc);
            lemma_gunc_wf(ca, cc);
            lemma_gsub_congr(
                GType::Later(gunc(ca, cc), Box::new(ua)),
                GType::Later(gunc(ca, cb), Box::new(ua)),
                uc,
                uc,
            );
        } else if cb.lt(cc) {
            // strictly increasing twice
            lemma_lt_trans(ca, cb, cc);
            lemma_gunc_wf(ca, cb);
            lemma_gunc_wf(ca, cc);
            lemma_gunc_wf(cb, cc);
            lemma_gunc_cmp(ca, cb, cc);
            lemma_gunc_compose(ca, cb, cc);
            lemma_gunc_wf(gunc(ca, cc), gunc(cb, cc));
            lemma_gsub_congr(
                GType::Later(gunc(gunc(ca, cc), gunc(cb, cc)), Box::new(ua)),
                GType::Later(gunc(ca, cb), Box::new(ua)),
                ub,
                ub,
            );
            lemma_gsub_trans(
                GType::Later(gunc(ca, cc), Box::new(ua)),
                GType::Later(gunc(cb, cc), Box::new(ub)),
                uc,
            );
        } else {
            // increasing, then decreasing: compare the outer clocks
            lemma_gunc_wf(ca, cb);
            lemma_gunc_wf(cc, cb);
            lemma_gsub_trans(
                GType::Later(gunc(ca, cb), Box::new(ua)),
                ub,
                GType::Later(gunc(cc, cb), Box::new(uc)),
            );
            lemma_gunc_cmp(ca, cc, cb);
            if ca.eq_val(cc) {
                // the shifted judgement lands on the equal branch
            } else if ca.lt(cc) {
                lemma_gunc_compose(ca, cc, cb);
                lemma_gunc_wf(gunc(ca, cb), gunc(cc, cb));
                lemma_gunc_wf(ca, cc);
                lemma_gsub_congr(
                    GType::Later(gunc(gunc(ca, cb), gunc(cc, cb)), Box::new(ua)),
                    GType::Later(gunc(ca, cc), Box::new(ua)),
                    uc,
                    uc,
                );
            } else {
                lemma_gunc_compose(cc, ca, cb);
                lemma_gunc_wf(gunc(cc, cb), gunc(ca, cb));
                lemma_gunc_wf(cc, ca);
                lemma_gsub_congr(
                    ua,
                    ua,
                    GType::Later(gunc(gunc(cc, cb), gunc(ca, cb)), Box::new(uc)),
                    GType::Later(gunc(cc, ca), Box::new(uc)),
                );
            }
        }
    } else {
        // ca > cb
        if cb.eq_val(cc) {
            // decreasing, then equal
            lemma_cmp_respects(cb, cc, ca, ca);
            lemma_gunc_wf(cb, ca);
            lemma_gsub_trans(
                ua,
                GType::Later(gunc(cb, ca), Box::new(ub)),
                GType::Later(gunc(cb, ca), Box::new(uc)),
            );
            lemma_gunc_congr(cc, cb, ca, ca);
            lemma_gunc_wf(cc, ca);
            lemma_gsub_congr(
                ua,
                ua,
                GType::Later(gunc(cc, ca), Box::new(uc)),
                GType::Later(gunc(cb, ca), Box::new(uc)),
            );
        } else if cb.lt(cc) {
            // decreasing, then increasing: compare the outer clocks
            lemma_gunc_wf(cb, ca);
            lemma_gunc_wf(cb, cc);
            if ca.eq_val(cc) {
                lemma_gunc_congr(cb, cb, ca, cc);
                lemma_gsub_congr(
                    ua,
                    ua,
                    GType::Later(gunc(cb, ca), Box::new(ub)),
                    GType::Later(gunc(cb, cc), Box::new(ub)),
                );
                lemma_gsub_trans(ua, GType::Later(gunc(cb, cc), Box::new(ub)), uc);
            } else if ca.lt(cc) {
                lemma_gunc_wf(ca, cc);
                lemma_gunc_cmp(ca, cb, cc);
                lemma_gunc_compose(cb, ca, cc);
                lemma_gunc_wf(gunc(cb, cc), gunc(ca, cc));
                lemma_gsub_congr(
                    ua,
                    ua,
                    GType::Later(gunc(gunc(cb, cc), gunc(ca, cc)), Box::new(ub)),
                    GType::Later(gunc(cb, ca), Box::new(ub)),
                );
                lemma_gsub_trans(
                    GType::Later(gunc(ca, cc), Box::new(ua)),
                    GType::Later(gunc(cb, cc), Box::new(ub)),
                    uc,
                );
            } else {
                lemma_gunc_wf(cc, ca);
                lemma_gunc_cmp(cb, cc, ca);
                lemma_gunc_compose(cb, cc, ca);
                lemma_gunc_wf(gunc(cb, ca), gunc(cc, ca));
                lemma_gsub_congr(
                    GType::Later(gunc(gunc(cb, ca), gunc(cc, ca)), Box::new(ub)),
                    GType::Later(gunc(cb, cc), Box::new(ub)),
                    uc,
                    uc,
                );
                lemma_gsub_trans(
                    ua,
                    GType::Later(gunc(cb, ca), Box::new(ub)),
                    GType::Later(gunc(cc, ca), Box::new(uc)),
                );
            }
        } else {
            // strictly decreasing twice
            lemma_lt_trans(cc, cb, ca);
            lemma_gunc_wf(cb, ca);
            lemma_gunc_wf(cc, ca);
            lemma_gunc_wf(cc, cb);
            lemma_gunc_cmp(cc, cb, ca);
            lemma_gunc_compose(cc, cb, ca);
            lemma_gunc_wf(gunc(cc, ca), gunc(cb, ca));
            lemma_gsub_congr(
                ub,
                ub,
                GType::Later(gunc(gunc(cc, ca), gunc(cb, ca)), Box::new(uc)),
                GType::Later(gunc(cc, cb), Box::new(uc)),
            );
            lemma_gsub_trans(
                ua,
                GType::Later(gunc(cb, ca), Box::new(ub)),
                GType::Later(gunc(cc, ca), Box::new(uc)),
            );
        }
    }
}

/// Transitivity at the machine level: when the two judgements hold and
/// the composed judgement runs into no remainder-clock overflow, it
/// holds as well.
pub proof fn lemma_subtype_trans(t1: Type, t2: Type, t3: Type)
    requires
        type_wf(t1),
        type_wf(t2),
        type_wf(t3),
        sub_m(t1, t2),
        sub_m(t2, t3),
        sub_def(t1, t3),
    ensures
        sub_m(t1, t3),
{
    lemma_sub_m_characterization(t1, t2);
    lemma_sub_m_characterization(t2, t3);
    lemma_sub_m_characterization(t1, t3);
    lemma_abs_type_wf(t1);
    lemma_abs_type_wf(t2);
    lemma_abs_type_wf(t3);
    lemma_gsub_trans(abs_type(t1), abs_type(t2), abs_type(t3));
}

/// Clock uncompose: a later type on a faster clock is a subtype of the
/// same body on a slower clock over the same variable exactly when the
/// remainder-shifted later type is a subtype of the bare body; and every
/// later type is a subtype of itself.
pub proof fn lemma_clock_uncompose(c1: Clock, c2: Clock, t: Type)
    requires
        c1.var == c2.var,
        c1.coeff.val_lt(c2.coeff),
        uncompose_fits(c1.coeff, c2.coeff),
    ensures
        sub_m(Type::Later(c1, Box::new(t)), Type::Later(c2, Box::new(t))) == sub_m(
            Type::Later(c1.spec_uncompose(c2), Box::new(t)),
            t,
        ),
        sub_m(Type::Later(c1, Box::new(t)), Type::Later(c1, Box::new(t))),
{
    lemma_subtype_refl(Type::Later(c1, Box::new(t)));
}

/// A boxed type is never a subtype of the bare type: the judgement only
/// relates boxes to boxes.
proof fn lemma_box_not_subtype_any(t: Type)
    ensures
        !sub_m(Type::Box(Box::new(t)), t),
    decreases t,
{
    match t {
        Type::Box(u) => lemma_box_not_subtype_any(*u),
        _ => {},
    }
}

/// The box of a stable type is not a subtype of the bare type, by
/// construction of the judgement; unboxing, not subsumption, removes
/// the box.
pub proof fn lemma_box_not_subtype(t: Type)
    requires
        stable(t),
    ensures
        !sub_m(Type::Box(Box::new(t)), t),
{
    lemma_box_not_subtype_any(t);
}

/// Contravariance of the arrow at the machine level: when arguments
/// compare one way and results the other, function types compare.
pub proof fn lemma_subtype_arrow(a1: Type, b1: Type, a2: Type, b2: Type)
    requires
        sub_m(a2, a1),
        sub_m(b1, b2),
    ensures
        sub_m(
            Type::Function(Box::new(a1), Box::new(b1)),
            Type::Function(Box::new(a2), Box::new(b2)),
        ),
{
}

} // verus!
