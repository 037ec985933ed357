//! The type language and the bidirectional type checker: array sizes,
//! modal types over clocks, stability, time-indexed contexts, the
//! executable subtyping judgement, and check/synthesize.

use vstd::prelude::*;

pub use crate::clock::{Clock, Coeff};

use core::cmp::Ordering;

use crate::expr::{Expr, Symbol, Value, clone_expr};
use crate::list::{List, len_sat, list_view};
use crate::subtyping::sub_m;

verus! {

/// The size of an array type; at present always a concrete natural.
#[derive(Clone, Copy, PartialEq, Eq, Debug, Structural)]
pub struct ArraySize(usize);

impl ArraySize {
    /// The concrete number of elements.
    pub closed spec fn spec_value(self) -> usize {
        self.0
    }

    /// Two array sizes are equal exactly when their values are.
    pub proof fn lemma_eq_is_value_eq(a: ArraySize, b: ArraySize)
        ensures
            a == b <==> a.spec_value() == b.spec_value(),
    {
    }

    pub fn from_const(n: usize) -> (r: ArraySize)
        ensures
            r.spec_value() == n,
    {
        ArraySize(n)
    }

    pub fn as_const(&self) -> (r: Option<usize>)
        ensures
            r == Some(self.spec_value()),
    {
        Some(self.0)
    }
}

/// Types: base types, streams, functions, products, sums, clock-indexed
/// later types, fixed-size arrays and the box (stability) modality.
#[derive(PartialEq, Eq, Debug)]
pub enum Type {
    Unit,
    Sample,
    Index,
    Stream(Clock, Box<Type>),
    Function(Box<Type>, Box<Type>),
    Product(Box<Type>, Box<Type>),
    Sum(Box<Type>, Box<Type>),
    Later(Clock, Box<Type>),
    Array(Box<Type>, ArraySize),
    Box(Box<Type>),
}

/// The structural size of a type; the termination measure of the
/// subtyping judgement.
pub open spec fn tsize(t: Type) -> nat
    decreases t,
{
    match t {
        Type::Unit => 1,
        Type::Sample => 1,
        Type::Index => 1,
        Type::Stream(_, u) => 1 + tsize(*u),
        Type::Function(a, b) => 1 + tsize(*a) + tsize(*b),
        Type::Product(a, b) => 1 + tsize(*a) + tsize(*b),
        Type::Sum(a, b) => 1 + tsize(*a) + tsize(*b),
        Type::Later(_, u) => 1 + tsize(*u),
        Type::Array(u, _) => 1 + tsize(*u),
        Type::Box(u) => 1 + tsize(*u),
    }
}

/// Every clock coefficient in the type is a well-formed positive rational.
pub open spec fn type_wf(t: Type) -> bool
    decreases t,
{
    match t {
        Type::Unit => true,
        Type::Sample => true,
        Type::Index => true,
        Type::Stream(c, u) => c.wf() && type_wf(*u),
        Type::Function(a, b) => type_wf(*a) && type_wf(*b),
        Type::Product(a, b) => type_wf(*a) && type_wf(*b),
        Type::Sum(a, b) => type_wf(*a) && type_wf(*b),
        Type::Later(c, u) => c.wf() && type_wf(*u),
        Type::Array(u, _) => type_wf(*u),
        Type::Box(u) => type_wf(*u),
    }
}

/// A type is stable when its inhabitants remain valid across ticks:
/// base types and boxes are stable, streams, functions and later types
/// are not, and compound types are stable when their components are.
pub open spec fn stable(t: Type) -> bool
    decreases t,
{
    match t {
        Type::Unit => true,
        Type::Sample => true,
        Type::Index => true,
        Type::Stream(_, _) => false,
        Type::Function(_, _) => false,
        Type::Product(a, b) => stable(*a) && stable(*b),
        Type::Sum(a, b) => stable(*a) && stable(*b),
        Type::Later(_, _) => false,
        Type::Array(u, _) => stable(*u),
        Type::Box(_) => true,
    }
}

impl Type {
    pub fn is_stable(&self) -> (r: bool)
        ensures
            r == stable(*self),
        decreases *self,
    {
        match *self {
            Type::Unit => true,
            Type::Sample => true,
            Type::Index => true,
            Type::Stream(_, _) => false,
            Type::Function(_, _) => false,
            Type::Product(ref a, ref b) => a.is_stable() && b.is_stable(),
            Type::Sum(ref a, ref b) => a.is_stable() && b.is_stable(),
            Type::Later(_, _) => false,
            Type::Array(ref u, _) => u.is_stable(),
            Type::Box(_) => true,
        }
    }
}

/// An exact structural copy of a type.
pub fn clone_type(t: &Type) -> (r: Type)
    ensures
        r == *t,
    decreases *t,
{
    match *t {
        Type::Unit => Type::Unit,
        Type::Sample => Type::Sample,
        Type::Index => Type::Index,
        Type::Stream(c, ref u) => Type::Stream(c, Box::new(clone_type(u))),
        Type::Function(ref a, ref b) => Type::Function(
            Box::new(clone_type(a)),
            Box::new(clone_type(b)),
        ),
        Type::Product(ref a, ref b) => Type::Product(
            Box::new(clone_type(a)),
            Box::new(clone_type(b)),
        ),
        Type::Sum(ref a, ref b) => Type::Sum(Box::new(clone_type(a)), Box::new(clone_type(b))),
        Type::Later(c, ref u) => Type::Later(c, Box::new(clone_type(u))),
        Type::Array(ref u, n) => Type::Array(Box::new(clone_type(u)), n),
        Type::Box(ref u) => Type::Box(Box::new(clone_type(u))),
    }
}

/// A typing context, read right to left: empty, extended with an
/// ordinary binding, or extended with a tick of a clock (a time
/// barrier). The head of the list is the innermost entry.
pub enum Ctx {
    Empty,
    Tick(Clock, Box<Ctx>),
    Var(Symbol, Type, Box<Ctx>),
}

/// Look a variable up: the timing (the ticks crossed from the use site
/// inwards to the binder, innermost first) and the declared type.
pub open spec fn ctx_lookup(ctx: Ctx, x: Symbol) -> Option<(List<Clock>, Type)>
    decreases ctx,
{
    match ctx {
        Ctx::Empty => None,
        Ctx::Tick(c, rest) => match ctx_lookup(*rest, x) {
            Some(p) => Some((List::Cons(c, Box::new(p.0)), p.1)),
            None => None,
        },
        Ctx::Var(y, t, rest) => if x == y {
            Some((List::Nil, t))
        } else {
            ctx_lookup(*rest, x)
        },
    }
}

/// The stable projection: drop every tick and every binding whose type
/// is not stable.
pub open spec fn spec_box_strengthen(ctx: Ctx) -> Ctx
    decreases ctx,
{
    match ctx {
        Ctx::Empty => Ctx::Empty,
        Ctx::Tick(_, rest) => spec_box_strengthen(*rest),
        Ctx::Var(x, t, rest) => if stable(t) {
            Ctx::Var(x, t, Box::new(spec_box_strengthen(*rest)))
        } else {
            spec_box_strengthen(*rest)
        },
    }
}

/// Peel the innermost tick: its clock, and the context below it with
/// all bindings above it dropped.
pub open spec fn spec_strip_tick(ctx: Ctx) -> Option<(Clock, Ctx)>
    decreases ctx,
{
    match ctx {
        Ctx::Empty => None,
        Ctx::Tick(c, rest) => Some((c, *rest)),
        Ctx::Var(_, _, rest) => spec_strip_tick(*rest),
    }
}

/// Whether the context holds a tick anywhere.
pub open spec fn ctx_has_tick(ctx: Ctx) -> bool {
    spec_strip_tick(ctx) is Some
}

/// An exact structural copy of a context.
pub fn clone_ctx(ctx: &Ctx) -> (r: Ctx)
    ensures
        r == *ctx,
    decreases *ctx,
{
    match ctx {
        Ctx::Empty => Ctx::Empty,
        Ctx::Tick(c, rest) => Ctx::Tick(*c, Box::new(clone_ctx(rest))),
        Ctx::Var(x, t, rest) => Ctx::Var(*x, clone_type(t), Box::new(clone_ctx(rest))),
    }
}

impl Ctx {
    /// Look a variable up, returning the crossed ticks (innermost first)
    /// and a borrow of the declared type.
    pub fn lookup(&self, x: Symbol) -> (r: Option<(List<Clock>, &Type)>)
        ensures
            r is Some <==> ctx_lookup(*self, x) is Some,
            r matches Some(p) ==> ctx_lookup(*self, x) == Some((p.0, *p.1)),
        decreases *self,
    {
        match self {
            Ctx::Empty => None,
            Ctx::Tick(c, rest) => match rest.lookup(x) {
                Some((cs, t)) => Some((List::Cons(*c, Box::new(cs)), t)),
                None => None,
            },
            Ctx::Var(y, t, rest) => if x == *y {
                Some((List::Nil, t))
            } else {
                rest.lookup(x)
            },
        }
    }

    /// Extend the context with an ordinary binding.
    pub fn with_var(self, x: Symbol, ty: Type) -> (r: Ctx)
        ensures
            r == Ctx::Var(x, ty, Box::new(self)),
    {
        Ctx::Var(x, ty, Box::new(self))
    }

    /// The stable projection of the context.
    pub fn box_strengthen(&self) -> (r: Ctx)
        ensures
            r == spec_box_strengthen(*self),
        decreases *self,
    {
        match self {
            Ctx::Empty => Ctx::Empty,
            Ctx::Tick(_, rest) => rest.box_strengthen(),
            Ctx::Var(x, t, rest) => if t.is_stable() {
                Ctx::Var(*x, clone_type(t), Box::new(rest.box_strengthen()))
            } else {
                rest.box_strengthen()
            },
        }
    }

    /// Peel the innermost tick together with the bindings above it.
    pub fn strip_tick(&self) -> (r: Option<(Clock, Ctx)>)
        ensures
            r == spec_strip_tick(*self),
        decreases *self,
    {
        match self {
            Ctx::Empty => None,
            Ctx::Tick(c, rest) => Some((*c, clone_ctx(rest))),
            Ctx::Var(_, _, rest) => rest.strip_tick(),
        }
    }
}

/// The fold of an association sequence into a map; later entries win.
pub open spec fn assoc_to_map(s: Seq<(Symbol, Type)>) -> Map<Symbol, Type>
    decreases s.len(),
{
    if s.len() == 0 {
        Map::empty()
    } else {
        assoc_to_map(s.drop_last()).insert(s.last().0, s.last().1)
    }
}

/// The read-only map of global symbols to their registered types
/// (the built-in environment).
pub struct Globals {
    entries: Vec<(Symbol, Type)>,
}

impl View for Globals {
    type V = Map<Symbol, Type>;

    closed spec fn view(&self) -> Map<Symbol, Type> {
        assoc_to_map(self.entries@)
    }
}

proof fn lemma_assoc_no_match(s: Seq<(Symbol, Type)>, x: Symbol)
    requires
        forall|j: int| 0 <= j < s.len() ==> (#[trigger] s[j]).0 != x,
    ensures
        !assoc_to_map(s).contains_key(x),
    decreases s.len(),
{
    if s.len() > 0 {
        lemma_assoc_no_match(s.drop_last(), x);
    }
}

proof fn lemma_assoc_last_match(s: Seq<(Symbol, Type)>, x: Symbol, i: int)
    requires
        0 <= i < s.len(),
        s[i].0 == x,
        forall|j: int| i < j < s.len() ==> (#[trigger] s[j]).0 != x,
    ensures
        assoc_to_map(s).contains_key(x),
        assoc_to_map(s)[x] == s[i].1,
    decreases s.len(),
{
    if i == s.len() - 1 {
    } else {
        lemma_assoc_last_match(s.drop_last(), x, i);
    }
}

impl Globals {
    /// An empty globals map.
    pub fn new() -> (r: Globals)
        ensures
            r@ == Map::<Symbol, Type>::empty(),
    {
        let r = Globals { entries: Vec::new() };
        proof {
            assert(r@ =~= Map::<Symbol, Type>::empty());
        }
        r
    }

    /// Register a global; a later registration shadows an earlier one.
    pub fn insert(&mut self, x: Symbol, t: Type)
        ensures
            final(self)@ == old(self)@.insert(x, t),
    {
        let ghost s0 = self.entries@;
        self.entries.push((x, t));
        proof {
            assert(self.entries@.drop_last() =~= s0);
        }
    }

    /// The registered type of a global, when there is one.
    pub fn get(&self, x: Symbol) -> (r: Option<&Type>)
        ensures
            r is Some <==> self@.contains_key(x),
            r matches Some(t) ==> self@.contains_key(x) && *t == self@[x],
    {
        let mut i: usize = self.entries.len();
        while i > 0
            invariant
                i <= self.entries.len(),
                forall|j: int|
                    i <= j < self.entries@.len() ==> (#[trigger] self.entries@[j]).0 != x,
            decreases i,
        {
            i = i - 1;
            if self.entries[i].0 == x {
                proof {
                    lemma_assoc_last_match(self.entries@, x, i as int);
                }
                return Some(&self.entries[i].1);
            }
        }
        proof {
            lemma_assoc_no_match(self.entries@, x);
        }
        None
    }
}

/// A structured type error; dependent variants wrap the error that
/// explains the true cause.
#[derive(PartialEq, Eq, Debug)]
pub enum TypeError<R> {
    MismatchingTypes { expr: Expr<R>, synth: Type, expected: Type },
    VariableNotFound { range: R, var: Symbol },
    BadArgument {
        range: R,
        arg_type: Type,
        fun: Expr<R>,
        arg: Expr<R>,
        arg_err: Box<TypeError<R>>,
    },
    NonFunctionApplication { range: R, purported_fun: Expr<R>, actual_type: Type },
    SynthesisUnsupported { expr: Expr<R> },
    BadAnnotation { range: R, expr: Expr<R>, purported_type: Type, err: Box<TypeError<R>> },
    LetSynthFailure { range: R, var: Symbol, expr: Expr<R>, err: Box<TypeError<R>> },
    LetCheckFailure {
        range: R,
        var: Symbol,
        expected_type: Type,
        expr: Expr<R>,
        err: Box<TypeError<R>>,
    },
    ForcingNonThunk { range: R, expr: Expr<R>, actual_type: Type },
    UnPairingNonProduct { range: R, expr: Expr<R>, actual_type: Type },
    CasingNonSum { range: R, expr: Expr<R>, actual_type: Type },
    CouldNotUnify { type1: Type, type2: Type },
    MismatchingArraySize { range: R, expected_size: ArraySize, found_size: usize },
    UnGenningNonStream { range: R, expr: Expr<R>, actual_type: Type },
    VariableTimingBad { range: R, var: Symbol, timing: List<Clock>, var_type: Type },
    ForcingWithNoTick { range: R, expr: Expr<R> },
    ForcingMismatchingClock {
        range: R,
        expr: Expr<R>,
        stripped_clock: Clock,
        synthesized_clock: Clock,
        remaining_type: Type,
    },
    UnboxingNonBox { range: R, expr: Expr<R>, actual_type: Type },
}

/// The executable subtyping judgement. The context takes no part in the
/// judgement at present; it is threaded through for the day the
/// judgement becomes context-sensitive.
pub fn subtype(ctx: &Ctx, ty1: &Type, ty2: &Type) -> (r: bool)
    ensures
        r == sub_m(*ty1, *ty2),
    decreases tsize(*ty1) + tsize(*ty2),
{
    match (ty1, ty2) {
        (Type::Unit, Type::Unit) => true,
        (Type::Sample, Type::Sample) => true,
        (Type::Index, Type::Index) => true,
        (Type::Stream(c1, u1), Type::Stream(c2, u2)) => {
            let cc = c1.partial_cmp(c2);
            matches!(cc, Some(Ordering::Equal)) && subtype(ctx, u1, u2)
        },
        (Type::Function(a1, b1), Type::Function(a2, b2)) => subtype(ctx, a2, a1) && subtype(
            ctx,
            b1,
            b2,
        ),
        (Type::Product(a1, b1), Type::Product(a2, b2)) => subtype(ctx, a1, a2) && subtype(
            ctx,
            b1,
            b2,
        ),
        (Type::Sum(a1, b1), Type::Sum(a2, b2)) => subtype(ctx, a1, a2) && subtype(ctx, b1, b2),
        (Type::Later(c1, u1), Type::Later(c2, u2)) => match c1.partial_cmp(c2) {
            Some(Ordering::Less) => match c1.uncompose(c2) {
                Some(rem) => subtype(ctx, &Type::Later(rem, Box::new(clone_type(u1))), u2),
                None => false,
            },
            Some(Ordering::Equal) => subtype(ctx, u1, u2),
            Some(Ordering::Greater) => match c2.uncompose(c1) {
                Some(rem) => subtype(ctx, u1, &Type::Later(rem, Box::new(clone_type(u2)))),
                None => false,
            },
            None => false,
        },
        (Type::Array(u1, n1), Type::Array(u2, n2)) => {
            let s1 = n1.as_const();
            let s2 = n2.as_const();
            subtype(ctx, u1, u2) && matches!((s1, s2), (Some(a), Some(b)) if a == b)
        },
        (Type::Box(u1), Type::Box(u2)) => subtype(ctx, u1, u2),
        (_, _) => false,
    }
}

/// The meet of two branch types under the subtype preorder: the larger
/// of the two when they compare, and a unification error otherwise.
pub open spec fn spec_meet<R>(t1: Type, t2: Type) -> Result<Type, TypeError<R>> {
    if sub_m(t1, t2) {
        Ok(t2)
    } else if sub_m(t2, t1) {
        Ok(t1)
    } else {
        Err(TypeError::CouldNotUnify { type1: t1, type2: t2 })
    }
}

/// Join two branch types; see `spec_meet`.
pub fn meet<R>(ctx: &Ctx, ty1: Type, ty2: Type) -> (r: Result<Type, TypeError<R>>)
    ensures
        r == spec_meet::<R>(ty1, ty2),
{
    if subtype(ctx, &ty1, &ty2) {
        Ok(ty2)
    } else if subtype(ctx, &ty2, &ty1) {
        Ok(ty1)
    } else {
        Err(TypeError::CouldNotUnify { type1: ty1, type2: ty2 })
    }
}

/// The checking judgement `g; ctx |- e <= t`: introduction forms are
/// driven by the expected type; every other form falls through to
/// synthesis followed by subtyping.
pub open spec fn spec_check<R>(g: Map<Symbol, Type>, ctx: Ctx, e: Expr<R>, t: Type) -> Result<
    (),
    TypeError<R>,
>
    decreases e, 1int,
{
    match (t, e) {
        (Type::Unit, Expr::Val(_, Value::Unit)) => Ok(()),
        (Type::Function(ty1, ty2), Expr::Lam(_, x, e1)) => spec_check(
            g,
            Ctx::Var(x, *ty1, Box::new(ctx)),
            *e1,
            *ty2,
        ),
        (_, Expr::Lob(_, clock, x, e1)) => {
            let rec_ty = Type::Box(Box::new(Type::Later(clock, Box::new(t))));
            spec_check(g, Ctx::Var(x, rec_ty, Box::new(spec_box_strengthen(ctx))), *e1, t)
        },
        (Type::Stream(clock, ty1), Expr::Gen(_, eh, et)) => match spec_check(g, ctx, *eh, *ty1) {
            Ok(()) => spec_check(g, ctx, *et, Type::Later(clock, Box::new(t))),
            Err(err) => Err(err),
        },
        (_, Expr::LetIn(r, x, Option::None, e1, e2)) => match spec_synthesize(g, ctx, *e1) {
            Ok(ty_x) => spec_check(g, Ctx::Var(x, ty_x, Box::new(ctx)), *e2, t),
            Err(err) => Err(
                TypeError::LetSynthFailure { range: r, var: x, expr: *e1, err: Box::new(err) },
            ),
        },
        (_, Expr::LetIn(r, x, Option::Some(s), e1, e2)) => match spec_check(g, ctx, *e1, s) {
            Err(err) => Err(
                TypeError::LetCheckFailure {
                    range: r,
                    var: x,
                    expected_type: s,
                    expr: *e1,
                    err: Box::new(err),
                },
            ),
            Ok(()) => spec_check(g, Ctx::Var(x, s, Box::new(ctx)), *e2, t),
        },
        (Type::Product(ty1, ty2), Expr::Pair(_, e1, e2)) => match spec_check(g, ctx, *e1, *ty1) {
            Ok(()) => spec_check(g, ctx, *e2, *ty2),
            Err(err) => Err(err),
        },
        (_, Expr::UnPair(r, x1, x2, e0, e1)) => match spec_synthesize(g, ctx, *e0) {
            Ok(Type::Product(a, b)) => spec_check(
                g,
                Ctx::Var(x2, *b, Box::new(Ctx::Var(x1, *a, Box::new(ctx)))),
                *e1,
                t,
            ),
            Ok(ty) => Err(TypeError::UnPairingNonProduct { range: r, expr: *e0, actual_type: ty }),
            Err(err) => Err(err),
        },
        (Type::Sum(ty1, _), Expr::InL(_, e1)) => spec_check(g, ctx, *e1, *ty1),
        (Type::Sum(_, ty2), Expr::InR(_, e1)) => spec_check(g, ctx, *e1, *ty2),
        (_, Expr::Case(r, e0, x1, e1, x2, e2)) => match spec_synthesize(g, ctx, *e0) {
            Ok(Type::Sum(a, b)) => match spec_check(g, Ctx::Var(x1, *a, Box::new(ctx)), *e1, t) {
                Ok(()) => spec_check(g, Ctx::Var(x2, *b, Box::new(ctx)), *e2, t),
                Err(err) => Err(err),
            },
            Ok(ty) => Err(TypeError::CasingNonSum { range: r, expr: *e0, actual_type: ty }),
            Err(err) => Err(err),
        },
        (Type::Array(ty1, size), Expr::Array(r, es)) => if list_view(*es).len()
            == size.spec_value() {
            spec_check_elems(g, ctx, *es, *ty1)
        } else {
            Err(
                TypeError::MismatchingArraySize {
                    range: r,
                    expected_size: size,
                    found_size: len_sat(*es),
                },
            )
        },
        (Type::Later(clock, ty1), Expr::Delay(_, e1)) => spec_check(
            g,
            Ctx::Tick(clock, Box::new(ctx)),
            *e1,
            *ty1,
        ),
        (Type::Box(ty1), Expr::Box(_, e1)) => spec_check(g, spec_box_strengthen(ctx), *e1, *ty1),
        (_, _) => match spec_synthesize(g, ctx, e) {
            Ok(s) => if sub_m(s, t) {
                Ok(())
            } else {
                Err(TypeError::MismatchingTypes { expr: e, synth: s, expected: t })
            },
            Err(err) => Err(err),
        },
    }
}

/// Check every element of an array literal against the element type;
/// the first failure aborts.
pub open spec fn spec_check_elems<R>(
    g: Map<Symbol, Type>,
    ctx: Ctx,
    es: List<Expr<R>>,
    t: Type,
) -> Result<(), TypeError<R>>
    decreases es, 0int,
{
    match es {
        List::Nil => Ok(()),
        List::Cons(e, rest) => match spec_check(g, ctx, e, t) {
            Ok(()) => spec_check_elems(g, ctx, *rest, t),
            Err(err) => Err(err),
        },
    }
}

/// The synthesis judgement `g; ctx |- e => t`.
pub open spec fn spec_synthesize<R>(g: Map<Symbol, Type>, ctx: Ctx, e: Expr<R>) -> Result<
    Type,
    TypeError<R>,
>
    decreases e, 0int,
{
    match e {
        Expr::Val(_, v) => match v {
            Value::Unit => Ok(Type::Unit),
            Value::Sample(_) => Ok(Type::Sample),
            Value::Index(_) => Ok(Type::Index),
        },
        Expr::Var(r, x) => match ctx_lookup(ctx, x) {
            Some(p) => if (p.0 matches List::Nil) || stable(p.1) {
                Ok(p.1)
            } else {
                Err(
                    TypeError::VariableTimingBad {
                        range: r,
                        var: x,
                        timing: p.0,
                        var_type: p.1,
                    },
                )
            },
            None => if g.contains_key(x) {
                Ok(g[x])
            } else {
                Err(TypeError::VariableNotFound { range: r, var: x })
            },
        },
        Expr::Annotate(r, e1, ty) => match spec_check(g, ctx, *e1, ty) {
            Ok(()) => Ok(ty),
            Err(err) => Err(
                TypeError::BadAnnotation {
                    range: r,
                    expr: *e1,
                    purported_type: ty,
                    err: Box::new(err),
                },
            ),
        },
        Expr::App(r, e1, e2) => match spec_synthesize(g, ctx, *e1) {
            Ok(Type::Function(ty_a, ty_b)) => match spec_check(g, ctx, *e2, *ty_a) {
                Ok(()) => Ok(*ty_b),
                Err(arg_err) => Err(
                    TypeError::BadArgument {
                        range: r,
                        arg_type: *ty_a,
                        fun: *e1,
                        arg: *e2,
                        arg_err: Box::new(arg_err),
                    },
                ),
            },
            Ok(ty) => Err(
                TypeError::NonFunctionApplication { range: r, purported_fun: *e1, actual_type: ty },
            ),
            Err(err) => Err(err),
        },
        Expr::Adv(r, e1) => match spec_strip_tick(ctx) {
            None => Err(TypeError::ForcingWithNoTick { range: r, expr: *e1 }),
            Some(p) => match spec_synthesize(g, p.1, *e1) {
                Ok(Type::Later(c2, ty)) => if p.0.val_eq(c2) {
                    Ok(*ty)
                } else {
                    Err(
                        TypeError::ForcingMismatchingClock {
                            range: r,
                            expr: *e1,
                            stripped_clock: p.0,
                            synthesized_clock: c2,
                            remaining_type: *ty,
                        },
                    )
                },
                Ok(ty) => Err(
                    TypeError::ForcingNonThunk { range: r, expr: *e1, actual_type: ty },
                ),
                Err(err) => Err(err),
            },
        },
        Expr::LetIn(r, x, Option::None, e1, e2) => match spec_synthesize(g, ctx, *e1) {
            Ok(ty_x) => spec_synthesize(g, Ctx::Var(x, ty_x, Box::new(ctx)), *e2),
            Err(err) => Err(
                TypeError::LetSynthFailure { range: r, var: x, expr: *e1, err: Box::new(err) },
            ),
        },
        Expr::LetIn(r, x, Option::Some(s), e1, e2) => match spec_check(g, ctx, *e1, s) {
            Err(err) => Err(
                TypeError::LetCheckFailure {
                    range: r,
                    var: x,
                    expected_type: s,
                    expr: *e1,
                    err: Box::new(err),
                },
            ),
            Ok(()) => spec_synthesize(g, Ctx::Var(x, s, Box::new(ctx)), *e2),
        },
        Expr::UnPair(r, x1, x2, e0, e1) => match spec_synthesize(g, ctx, *e0) {
            Ok(Type::Product(a, b)) => spec_synthesize(
                g,
                Ctx::Var(x2, *b, Box::new(Ctx::Var(x1, *a, Box::new(ctx)))),
                *e1,
            ),
            Ok(ty) => Err(TypeError::UnPairingNonProduct { range: r, expr: *e0, actual_type: ty }),
            Err(err) => Err(err),
        },
        Expr::Case(r, e0, x1, e1, x2, e2) => match spec_synthesize(g, ctx, *e0) {
            Ok(Type::Sum(a, b)) => match spec_synthesize(
                g,
                Ctx::Var(x1, *a, Box::new(ctx)),
                *e1,
            ) {
                Ok(t1) => match spec_synthesize(g, Ctx::Var(x2, *b, Box::new(ctx)), *e2) {
                    Ok(t2) => spec_meet(t1, t2),
                    Err(err) => Err(err),
                },
                Err(err) => Err(err),
            },
            Ok(ty) => Err(TypeError::CasingNonSum { range: r, expr: *e0, actual_type: ty }),
            Err(err) => Err(err),
        },
        Expr::UnGen(r, e1) => match spec_synthesize(g, ctx, *e1) {
            Ok(Type::Stream(clock, ty)) => Ok(
                Type::Product(
                    ty,
                    Box::new(Type::Later(clock, Box::new(Type::Stream(clock, ty)))),
                ),
            ),
            Ok(ty) => Err(TypeError::UnGenningNonStream { range: r, expr: *e1, actual_type: ty }),
            Err(err) => Err(err),
        },
        Expr::Unbox(r, e1) => match spec_synthesize(g, ctx, *e1) {
            Ok(Type::Box(ty)) => Ok(*ty),
            Ok(ty) => Err(TypeError::UnboxingNonBox { range: r, expr: *e1, actual_type: ty }),
            Err(err) => Err(err),
        },
        _ => Err(TypeError::SynthesisUnsupported { expr: e }),
    }
}

/// The bidirectional type checker: an immutable globals map, and the
/// two judgements `check` and `synthesize` over it.
pub struct Typechecker {
    pub globals: Globals,
}

impl Typechecker {
    /// Check the expression against the expected type; `Ok(())` exactly
    /// when the checking judgement holds, and the structured error
    /// explaining the first failure otherwise.
    pub fn check<R: Copy>(&self, ctx: &Ctx, expr: &Expr<R>, ty: &Type) -> (r: Result<
        (),
        TypeError<R>,
    >)
        ensures
            r == spec_check(self.globals@, *ctx, *expr, *ty),
        decreases *expr, 1int,
    {
        match (ty, expr) {
            (Type::Unit, Expr::Val(_, Value::Unit)) => Ok(()),
            (Type::Function(ty1, ty2), Expr::Lam(_, x, e1)) => {
                let new_ctx = clone_ctx(ctx).with_var(*x, clone_type(ty1));
                self.check(&new_ctx, e1, ty2)
            },
            (_, Expr::Lob(_, clock, x, e1)) => {
                let rec_ty = Type::Box(Box::new(Type::Later(*clock, Box::new(clone_type(ty)))));
                let new_ctx = ctx.box_strengthen().with_var(*x, rec_ty);
                self.check(&new_ctx, e1, ty)
            },
            (Type::Stream(clock, ty1), Expr::Gen(_, eh, et)) => match self.check(ctx, eh, ty1) {
                Ok(()) => self.check(
                    ctx,
                    et,
                    &Type::Later(*clock, Box::new(clone_type(ty))),
                ),
                Err(err) => Err(err),
            },
            (_, Expr::LetIn(r, x, Option::None, e1, e2)) => match self.synthesize(ctx, e1) {
                Ok(ty_x) => {
                    let new_ctx = clone_ctx(ctx).with_var(*x, ty_x);
                    self.check(&new_ctx, e2, ty)
                },
                Err(err) => Err(
                    TypeError::LetSynthFailure {
                        range: *r,
                        var: *x,
                        expr: clone_expr(e1),
                        err: Box::new(err),
                    },
                ),
            },
            (_, Expr::LetIn(r, x, Option::Some(s), e1, e2)) => match self.check(ctx, e1, s) {
                Err(err) => Err(
                    TypeError::LetCheckFailure {
                        range: *r,
                        var: *x,
                        expected_type: clone_type(s),
                        expr: clone_expr(e1),
                        err: Box::new(err),
                    },
                ),
                Ok(()) => {
                    let new_ctx = clone_ctx(ctx).with_var(*x, clone_type(s));
                    self.check(&new_ctx, e2, ty)
                },
            },
            (Type::Product(ty1, ty2), Expr::Pair(_, e1, e2)) => match self.check(ctx, e1, ty1) {
                Ok(()) => self.check(ctx, e2, ty2),
                Err(err) => Err(err),
            },
            (_, Expr::UnPair(r, x1, x2, e0, e1)) => match self.synthesize(ctx, e0) {
                Ok(Type::Product(a, b)) => {
                    let new_ctx = clone_ctx(ctx).with_var(*x1, *a).with_var(*x2, *b);
                    self.check(&new_ctx, e1, ty)
                },
                Ok(other) => Err(
                    TypeError::UnPairingNonProduct {
                        range: *r,
                        expr: clone_expr(e0),
                        actual_type: other,
                    },
                ),
                Err(err) => Err(err),
            },
            (Type::Sum(ty1, _), Expr::InL(_, e1)) => self.check(ctx, e1, ty1),
            (Type::Sum(_, ty2), Expr::InR(_, e1)) => self.check(ctx, e1, ty2),
            (_, Expr::Case(r, e0, x1, e1, x2, e2)) => match self.synthesize(ctx, e0) {
                Ok(Type::Sum(a, b)) => {
                    let ctx1 = clone_ctx(ctx).with_var(*x1, *a);
                    match self.check(&ctx1, e1, ty) {
                        Ok(()) => {
                            let ctx2 = clone_ctx(ctx).with_var(*x2, *b);
                            self.check(&ctx2, e2, ty)
                        },
                        Err(err) => Err(err),
                    }
                },
                Ok(other) => Err(
                    TypeError::CasingNonSum {
                        range: *r,
                        expr: clone_expr(e0),
                        actual_type: other,
                    },
                ),
                Err(err) => Err(err),
            },
            (Type::Array(ty1, size), Expr::Array(r, es)) => {
                let expected = size.0;
                if es.matches_len(expected) {
                    self.check_elems(ctx, es, ty1)
                } else {
                    Err(
                        TypeError::MismatchingArraySize {
                            range: *r,
                            expected_size: *size,
                            found_size: es.len(),
                        },
                    )
                }
            },
            (Type::Later(clock, ty1), Expr::Delay(_, e1)) => {
                let new_ctx = Ctx::Tick(*clock, Box::new(clone_ctx(ctx)));
                self.check(&new_ctx, e1, ty1)
            },
            (Type::Box(ty1), Expr::Box(_, e1)) => {
                let new_ctx = ctx.box_strengthen();
                self.check(&new_ctx, e1, ty1)
            },
            (_, _) => {
                let synthesized = match self.synthesize(ctx, expr) {
                    Ok(s) => s,
                    Err(err) => {
                        return Err(err);
                    },
                };
                if subtype(ctx, &synthesized, ty) {
                    Ok(())
                } else {
                    Err(
                        TypeError::MismatchingTypes {
                            expr: clone_expr(expr),
                            synth: synthesized,
                            expected: clone_type(ty),
                        },
                    )
                }
            },
        }
    }

    /// Check every element of an array literal against the element type.
    fn check_elems<R: Copy>(&self, ctx: &Ctx, es: &List<Expr<R>>, ty: &Type) -> (r: Result<
        (),
        TypeError<R>,
    >)
        ensures
            r == spec_check_elems(self.globals@, *ctx, *es, *ty),
        decreases *es, 0int,
    {
        match es {
            List::Nil => Ok(()),
            List::Cons(e, rest) => match self.check(ctx, e, ty) {
                Ok(()) => self.check_elems(ctx, rest, ty),
                Err(err) => Err(err),
            },
        }
    }

    /// Synthesize a type for the expression; `Ok(t)` exactly when the
    /// synthesis judgement yields `t`.
    pub fn synthesize<R: Copy>(&self, ctx: &Ctx, expr: &Expr<R>) -> (r: Result<
        Type,
        TypeError<R>,
    >)
        ensures
            r == spec_synthesize(self.globals@, *ctx, *expr),
        decreases *expr, 0int,
    {
        match expr {
            Expr::Val(_, v) => match v {
                Value::Unit => Ok(Type::Unit),
                Value::Sample(_) => Ok(Type::Sample),
                Value::Index(_) => Ok(Type::Index),
            },
            Expr::Var(r, x) => match ctx.lookup(*x) {
                Some((timing, found)) => {
                    let empty = matches!(timing, List::Nil);
                    if empty || found.is_stable() {
                        Ok(clone_type(found))
                    } else {
                        Err(
                            TypeError::VariableTimingBad {
                                range: *r,
                                var: *x,
                                timing,
                                var_type: clone_type(found),
                            },
                        )
                    }
                },
                None => match self.globals.get(*x) {
                    Some(found) => Ok(clone_type(found)),
                    None => Err(TypeError::VariableNotFound { range: *r, var: *x }),
                },
            },
            Expr::Annotate(r, e1, ty) => match self.check(ctx, e1, ty) {
                Ok(()) => Ok(clone_type(ty)),
                Err(err) => Err(
                    TypeError::BadAnnotation {
                        range: *r,
                        expr: clone_expr(e1),
                        purported_type: clone_type(ty),
                        err: Box::new(err),
                    },
                ),
            },
            Expr::App(r, e1, e2) => match self.synthesize(ctx, e1) {
                Ok(Type::Function(ty_a, ty_b)) => match self.check(ctx, e2, &ty_a) {
                    Ok(()) => Ok(*ty_b),
                    Err(arg_err) => Err(
                        TypeError::BadArgument {
                            range: *r,
                            arg_type: *ty_a,
                            fun: clone_expr(e1),
                            arg: clone_expr(e2),
                            arg_err: Box::new(arg_err),
                        },
                    ),
                },
                Ok(other) => Err(
                    TypeError::NonFunctionApplication {
                        range: *r,
                        purported_fun: clone_expr(e1),
                        actual_type: other,
                    },
                ),
                Err(err) => Err(err),
            },
            Expr::Adv(r, e1) => match ctx.strip_tick() {
                None => Err(
                    TypeError::ForcingWithNoTick { range: *r, expr: clone_expr(e1) },
                ),
                Some((stripped_clock, stripped_ctx)) => match self.synthesize(&stripped_ctx, e1) {
                    Ok(Type::Later(synthesized_clock, ty)) => {
                        let same = matches!(
                            stripped_clock.partial_cmp(&synthesized_clock),
                            Some(Ordering::Equal)
                        );
                        if same {
                            Ok(*ty)
                        } else {
                            Err(
                                TypeError::ForcingMismatchingClock {
                                    range: *r,
                                    expr: clone_expr(e1),
                                    stripped_clock,
                                    synthesized_clock,
                                    remaining_type: *ty,
                                },
                            )
                        }
                    },
                    Ok(other) => Err(
                        TypeError::ForcingNonThunk {
                            range: *r,
                            expr: clone_expr(e1),
                            actual_type: other,
                        },
                    ),
                    Err(err) => Err(err),
                },
            },
            Expr::LetIn(r, x, Option::None, e1, e2) => match self.synthesize(ctx, e1) {
                Ok(ty_x) => {
                    let new_ctx = clone_ctx(ctx).with_var(*x, ty_x);
                    self.synthesize(&new_ctx, e2)
                },
                Err(err) => Err(
                    TypeError::LetSynthFailure {
                        range: *r,
                        var: *x,
                        expr: clone_expr(e1),
                        err: Box::new(err),
                    },
                ),
            },
            Expr::LetIn(r, x, Option::Some(s), e1, e2) => match self.check(ctx, e1, s) {
                Err(err) => Err(
                    TypeError::LetCheckFailure {
                        range: *r,
                        var: *x,
                        expected_type: clone_type(s),
                        expr: clone_expr(e1),
                        err: Box::new(err),
                    },
                ),
                Ok(()) => {
                    let new_ctx = clone_ctx(ctx).with_var(*x, clone_type(s));
                    self.synthesize(&new_ctx, e2)
                },
            },
            Expr::UnPair(r, x1, x2, e0, e1) => match self.synthesize(ctx, e0) {
                Ok(Type::Product(a, b)) => {
                    let new_ctx = clone_ctx(ctx).with_var(*x1, *a).with_var(*x2, *b);
                    self.synthesize(&new_ctx, e1)
                },
                Ok(other) => Err(
                    TypeError::UnPairingNonProduct {
                        range: *r,
                        expr: clone_expr(e0),
                        actual_type: other,
                    },
                ),
                Err(err) => Err(err),
            },
            Expr::Case(r, e0, x1, e1, x2, e2) => match self.synthesize(ctx, e0) {
                Ok(Type::Sum(a, b)) => {
                    let ctx1 = clone_ctx(ctx).with_var(*x1, *a);
                    match self.synthesize(&ctx1, e1) {
                        Ok(ty_out1) => {
                            let ctx2 = clone_ctx(ctx).with_var(*x2, *b);
                            match self.synthesize(&ctx2, e2) {
                                Ok(ty_out2) => meet(ctx, ty_out1, ty_out2),
                                Err(err) => Err(err),
                            }
                        },
                        Err(err) => Err(err),
                    }
                },
                Ok(other) => Err(
                    TypeError::CasingNonSum {
                        range: *r,
                        expr: clone_expr(e0),
                        actual_type: other,
                    },
                ),
                Err(err) => Err(err),
            },
            Expr::UnGen(r, e1) => match self.synthesize(ctx, e1) {
                Ok(Type::Stream(clock, ty)) => {
                    let head = clone_type(&ty);
                    Ok(
                        Type::Product(
                            Box::new(head),
                            Box::new(Type::Later(clock, Box::new(Type::Stream(clock, ty)))),
                        ),
                    )
                },
                Ok(other) => Err(
                    TypeError::UnGenningNonStream {
                        range: *r,
                        expr: clone_expr(e1),
                        actual_type: other,
                    },
                ),
                Err(err) => Err(err),
            },
            Expr::Unbox(r, e1) => match self.synthesize(ctx, e1) {
                Ok(Type::Box(ty)) => Ok(*ty),
                Ok(other) => Err(
                    TypeError::UnboxingNonBox {
                        range: *r,
                        expr: clone_expr(e1),
                        actual_type: other,
                    },
                ),
                Err(err) => Err(err),
            },
            _ => Err(TypeError::SynthesisUnsupported { expr: clone_expr(expr) }),
        }
    }
}

} // verus!

