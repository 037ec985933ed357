//! Named abstract syntax: values, primitive operators and expressions.
//!
//! Every expression node carries an opaque range payload of type `R`
//! (a source span for freshly parsed trees, unit after elaboration).

use vstd::prelude::*;

use crate::clock::Clock;
use crate::list::List;
use crate::typing::{Type, clone_type};

verus! {

/// An interned identifier, as handed out by the surrounding symbol table.
/// The core never resolves symbols to strings; it only compares them.
#[derive(Clone, Copy, PartialEq, Eq, Hash, Debug, Structural)]
pub struct Symbol(pub u32);

/// A literal value of the surface language. A sample literal is carried
/// as the bit pattern of its 32-bit floating-point representation; the
/// checker never inspects the payload.
#[derive(Clone, Copy, PartialEq, Eq, Debug, Structural)]
pub enum Value {
    Unit,
    Sample(u32),
    Index(usize),
}

/// Primitive binary operators over samples and indices.
#[derive(Clone, Copy, PartialEq, Eq, Debug, Structural)]
pub enum Binop {
    FMul,
    FDiv,
    FAdd,
    FSub,
    FGt,
    FGe,
    FLt,
    FLe,
    FEq,
    FNe,
    Shl,
    Shr,
    And,
    Xor,
    Or,
    IMul,
    IDiv,
    IAdd,
    ISub,
    IGt,
    IGe,
    ILt,
    ILe,
    IEq,
    INe,
}

impl Binop {
    /// Whether the operator is a comparison.
    pub open spec fn spec_is_cmp(self) -> bool {
        match self {
            Binop::FGt => true,
            Binop::FGe => true,
            Binop::FLt => true,
            Binop::FLe => true,
            Binop::FEq => true,
            Binop::FNe => true,
            Binop::IGt => true,
            Binop::IGe => true,
            Binop::ILt => true,
            Binop::ILe => true,
            Binop::IEq => true,
            Binop::INe => true,
            _ => false,
        }
    }

    pub fn is_cmp(&self) -> (r: bool)
        ensures
            r == self.spec_is_cmp(),
    {
        match *self {
            Binop::FGt => true,
            Binop::FGe => true,
            Binop::FLt => true,
            Binop::FLe => true,
            Binop::FEq => true,
            Binop::FNe => true,
            Binop::IGt => true,
            Binop::IGe => true,
            Binop::ILt => true,
            Binop::ILe => true,
            Binop::IEq => true,
            Binop::INe => true,
            _ => false,
        }
    }
}

/// Expressions. The first field of every variant is the range payload.
#[derive(PartialEq, Eq, Debug)]
pub enum Expr<R> {
    Var(R, Symbol),
    Val(R, Value),
    Annotate(R, Box<Expr<R>>, Type),
    Lam(R, Symbol, Box<Expr<R>>),
    App(R, Box<Expr<R>>, Box<Expr<R>>),
    Adv(R, Box<Expr<R>>),
    Lob(R, Clock, Symbol, Box<Expr<R>>),
    Gen(R, Box<Expr<R>>, Box<Expr<R>>),
    LetIn(R, Symbol, Option<Type>, Box<Expr<R>>, Box<Expr<R>>),
    Pair(R, Box<Expr<R>>, Box<Expr<R>>),
    UnPair(R, Symbol, Symbol, Box<Expr<R>>, Box<Expr<R>>),
    InL(R, Box<Expr<R>>),
    InR(R, Box<Expr<R>>),
    Case(R, Box<Expr<R>>, Symbol, Box<Expr<R>>, Symbol, Box<Expr<R>>),
    Array(R, Box<List<Expr<R>>>),
    UnGen(R, Box<Expr<R>>),
    Delay(R, Box<Expr<R>>),
    Box(R, Box<Expr<R>>),
    Unbox(R, Box<Expr<R>>),
    ClockApp(R, Box<Expr<R>>, Clock),
    TypeApp(R, Box<Expr<R>>, Type),
    Binop(R, Binop, Box<Expr<R>>, Box<Expr<R>>),
    ExIntro(R, Clock, Box<Expr<R>>),
    ExElim(R, Symbol, Symbol, Box<Expr<R>>, Box<Expr<R>>),
    ClockLam(R, Symbol, Box<Expr<R>>),
}

/// The range payload of the topmost node.
pub open spec fn spec_range<R>(e: Expr<R>) -> R {
    match e {
        Expr::Var(r, _) => r,
        Expr::Val(r, _) => r,
        Expr::Annotate(r, _, _) => r,
        Expr::Lam(r, _, _) => r,
        Expr::App(r, _, _) => r,
        Expr::Adv(r, _) => r,
        Expr::Lob(r, _, _, _) => r,
        Expr::Gen(r, _, _) => r,
        Expr::LetIn(r, _, _, _, _) => r,
        Expr::Pair(r, _, _) => r,
        Expr::UnPair(r, _, _, _, _) => r,
        Expr::InL(r, _) => r,
        Expr::InR(r, _) => r,
        Expr::Case(r, _, _, _, _, _) => r,
        Expr::Array(r, _) => r,
        Expr::UnGen(r, _) => r,
        Expr::Delay(r, _) => r,
        Expr::Box(r, _) => r,
        Expr::Unbox(r, _) => r,
        Expr::ClockApp(r, _, _) => r,
        Expr::TypeApp(r, _, _) => r,
        Expr::Binop(r, _, _, _) => r,
        Expr::ExIntro(r, _, _) => r,
        Expr::ExElim(r, _, _, _, _) => r,
        Expr::ClockLam(r, _, _) => r,
    }
}

/// The tree `r` is the tree `e` with every range payload sent through
/// the function `f` and everything else kept as it stands.
pub open spec fn map_ext_rel<R, U, F: Fn(R) -> U>(e: Expr<R>, r: Expr<U>, f: F) -> bool
    decreases e,
{
    match (e, r) {
        (Expr::Var(a, x), Expr::Var(b, y)) => f.ensures((a,), b) && x == y,
        (Expr::Val(a, v), Expr::Val(b, w)) => f.ensures((a,), b) && v == w,
        (Expr::Annotate(a, e1, t1), Expr::Annotate(b, r1, t2)) => f.ensures((a,), b)
            && map_ext_rel(*e1, *r1, f) && t1 == t2,
        (Expr::Lam(a, x, e1), Expr::Lam(b, y, r1)) => f.ensures((a,), b) && x == y && map_ext_rel(
            *e1,
            *r1,
            f,
        ),
        (Expr::App(a, e1, e2), Expr::App(b, r1, r2)) => f.ensures((a,), b) && map_ext_rel(
            *e1,
            *r1,
            f,
        ) && map_ext_rel(*e2, *r2, f),
        (Expr::Adv(a, e1), Expr::Adv(b, r1)) => f.ensures((a,), b) && map_ext_rel(*e1, *r1, f),
        (Expr::Lob(a, c1, x, e1), Expr::Lob(b, c2, y, r1)) => f.ensures((a,), b) && c1 == c2 && x
            == y && map_ext_rel(*e1, *r1, f),
        (Expr::Gen(a, e1, e2), Expr::Gen(b, r1, r2)) => f.ensures((a,), b) && map_ext_rel(
            *e1,
            *r1,
            f,
        ) && map_ext_rel(*e2, *r2, f),
        (Expr::LetIn(a, x, t1, e1, e2), Expr::LetIn(b, y, t2, r1, r2)) => f.ensures((a,), b) && x
            == y && t1 == t2 && map_ext_rel(*e1, *r1, f) && map_ext_rel(*e2, *r2, f),
        (Expr::Pair(a, e1, e2), Expr::Pair(b, r1, r2)) => f.ensures((a,), b) && map_ext_rel(
            *e1,
            *r1,
            f,
        ) && map_ext_rel(*e2, *r2, f),
        (Expr::UnPair(a, x1, x2, e1, e2), Expr::UnPair(b, y1, y2, r1, r2)) => f.ensures((a,), b)
            && x1 == y1 && x2 == y2 && map_ext_rel(*e1, *r1, f) && map_ext_rel(*e2, *r2, f),
        (Expr::InL(a, e1), Expr::InL(b, r1)) => f.ensures((a,), b) && map_ext_rel(*e1, *r1, f),
        (Expr::InR(a, e1), Expr::InR(b, r1)) => f.ensures((a,), b) && map_ext_rel(*e1, *r1, f),
        (Expr::Case(a, e0, x1, e1, x2, e2), Expr::Case(b, r0, y1, r1, y2, r2)) => f.ensures(
            (a,),
            b,
        ) && x1 == y1 && x2 == y2 && map_ext_rel(*e0, *r0, f) && map_ext_rel(*e1, *r1, f)
            && map_ext_rel(*e2, *r2, f),
        (Expr::Array(a, es), Expr::Array(b, rs)) => f.ensures((a,), b) && map_ext_rel_list(
            *es,
            *rs,
            f,
        ),
        (Expr::UnGen(a, e1), Expr::UnGen(b, r1)) => f.ensures((a,), b) && map_ext_rel(*e1, *r1, f),
        (Expr::Delay(a, e1), Expr::Delay(b, r1)) => f.ensures((a,), b) && map_ext_rel(*e1, *r1, f),
        (Expr::Box(a, e1), Expr::Box(b, r1)) => f.ensures((a,), b) && map_ext_rel(*e1, *r1, f),
        (Expr::Unbox(a, e1), Expr::Unbox(b, r1)) => f.ensures((a,), b) && map_ext_rel(*e1, *r1, f),
        (Expr::ClockApp(a, e1, c1), Expr::ClockApp(b, r1, c2)) => f.ensures((a,), b) && c1 == c2
            && map_ext_rel(*e1, *r1, f),
        (Expr::TypeApp(a, e1, t1), Expr::TypeApp(b, r1, t2)) => f.ensures((a,), b) && t1 == t2
            && map_ext_rel(*e1, *r1, f),
        (Expr::Binop(a, o1, e1, e2), Expr::Binop(b, o2, r1, r2)) => f.ensures((a,), b) && o1 == o2
            && map_ext_rel(*e1, *r1, f) && map_ext_rel(*e2, *r2, f),
        (Expr::ExIntro(a, c1, e1), Expr::ExIntro(b, c2, r1)) => f.ensures((a,), b) && c1 == c2
            && map_ext_rel(*e1, *r1, f),
        (Expr::ExElim(a, x1, x2, e1, e2), Expr::ExElim(b, y1, y2, r1, r2)) => f.ensures((a,), b)
            && x1 == y1 && x2 == y2 && map_ext_rel(*e1, *r1, f) && map_ext_rel(*e2, *r2, f),
        (Expr::ClockLam(a, x, e1), Expr::ClockLam(b, y, r1)) => f.ensures((a,), b) && x == y
            && map_ext_rel(*e1, *r1, f),
        _ => false,
    }
}

/// Element-wise `map_ext_rel` over the children of an array literal.
pub open spec fn map_ext_rel_list<R, U, F: Fn(R) -> U>(
    es: List<Expr<R>>,
    rs: List<Expr<U>>,
    f: F,
) -> bool
    decreases es,
{
    match (es, rs) {
        (List::Nil, List::Nil) => true,
        (List::Cons(x, xs), List::Cons(y, ys)) => map_ext_rel(x, y, f) && map_ext_rel_list(
            *xs,
            *ys,
            f,
        ),
        _ => false,
    }
}

impl<R: Copy> Expr<R> {
    /// Reproduce the tree with every range payload sent through `f`.
    pub fn map_ext<U, F: Fn(R) -> U>(&self, f: &F) -> (r: Expr<U>)
        requires
            forall|x: R| #[trigger] f.requires((x,)),
        ensures
            map_ext_rel(*self, r, *f),
        decreases *self,
    {
        match self {
            Expr::Var(r0, x) => Expr::Var(f(*r0), *x),
            Expr::Val(r0, v) => Expr::Val(f(*r0), *v),
            Expr::Annotate(r0, e1, t) => Expr::Annotate(
                f(*r0),
                Box::new(e1.map_ext(f)),
                clone_type(t),
            ),
            Expr::Lam(r0, x, e1) => Expr::Lam(f(*r0), *x, Box::new(e1.map_ext(f))),
            Expr::App(r0, e1, e2) => Expr::App(
                f(*r0),
                Box::new(e1.map_ext(f)),
                Box::new(e2.map_ext(f)),
            ),
            Expr::Adv(r0, e1) => Expr::Adv(f(*r0), Box::new(e1.map_ext(f))),
            Expr::Lob(r0, c, x, e1) => Expr::Lob(f(*r0), *c, *x, Box::new(e1.map_ext(f))),
            Expr::Gen(r0, e1, e2) => Expr::Gen(
                f(*r0),
                Box::new(e1.map_ext(f)),
                Box::new(e2.map_ext(f)),
            ),
            Expr::LetIn(r0, x, t, e1, e2) => Expr::LetIn(
                f(*r0),
                *x,
                match t {
                    Some(t0) => Some(clone_type(t0)),
                    None => None,
                },
                Box::new(e1.map_ext(f)),
                Box::new(e2.map_ext(f)),
            ),
            Expr::Pair(r0, e1, e2) => Expr::Pair(
                f(*r0),
                Box::new(e1.map_ext(f)),
                Box::new(e2.map_ext(f)),
            ),
            Expr::UnPair(r0, x1, x2, e1, e2) => Expr::UnPair(
                f(*r0),
                *x1,
                *x2,
                Box::new(e1.map_ext(f)),
                Box::new(e2.map_ext(f)),
            ),
            Expr::InL(r0, e1) => Expr::InL(f(*r0), Box::new(e1.map_ext(f))),
            Expr::InR(r0, e1) => Expr::InR(f(*r0), Box::new(e1.map_ext(f))),
            Expr::Case(r0, e0, x1, e1, x2, e2) => Expr::Case(
                f(*r0),
                Box::new(e0.map_ext(f)),
                *x1,
                Box::new(e1.map_ext(f)),
                *x2,
                Box::new(e2.map_ext(f)),
            ),
            Expr::Array(r0, es) => Expr::Array(f(*r0), Box::new(map_ext_list(es, f))),
            Expr::UnGen(r0, e1) => Expr::UnGen(f(*r0), Box::new(e1.map_ext(f))),
            Expr::Delay(r0, e1) => Expr::Delay(f(*r0), Box::new(e1.map_ext(f))),
            Expr::Box(r0, e1) => Expr::Box(f(*r0), Box::new(e1.map_ext(f))),
            Expr::Unbox(r0, e1) => Expr::Unbox(f(*r0), Box::new(e1.map_ext(f))),
            Expr::ClockApp(r0, e1, c) => Expr::ClockApp(f(*r0), Box::new(e1.map_ext(f)), *c),
            Expr::TypeApp(r0, e1, t) => Expr::TypeApp(
                f(*r0),
                Box::new(e1.map_ext(f)),
                clone_type(t),
            ),
            Expr::Binop(r0, op, e1, e2) => Expr::Binop(
                f(*r0),
                *op,
                Box::new(e1.map_ext(f)),
                Box::new(e2.map_ext(f)),
            ),
            Expr::ExIntro(r0, c, e1) => Expr::ExIntro(f(*r0), *c, Box::new(e1.map_ext(f))),
            Expr::ExElim(r0, x1, x2, e1, e2) => Expr::ExElim(
                f(*r0),
                *x1,
                *x2,
                Box::new(e1.map_ext(f)),
                Box::new(e2.map_ext(f)),
            ),
            Expr::ClockLam(r0, x, e1) => Expr::ClockLam(f(*r0), *x, Box::new(e1.map_ext(f))),
        }
    }

    /// The range payload of the topmost node.
    pub fn range(&self) -> (r: &R)
        ensures
            *r == spec_range(*self),
    {
        match self {
            Expr::Var(r0, _) => r0,
            Expr::Val(r0, _) => r0,
            Expr::Annotate(r0, _, _) => r0,
            Expr::Lam(r0, _, _) => r0,
            Expr::App(r0, _, _) => r0,
            Expr::Adv(r0, _) => r0,
            Expr::Lob(r0, _, _, _) => r0,
            Expr::Gen(r0, _, _) => r0,
            Expr::LetIn(r0, _, _, _, _) => r0,
            Expr::Pair(r0, _, _) => r0,
            Expr::UnPair(r0, _, _, _, _) => r0,
            Expr::InL(r0, _) => r0,
            Expr::InR(r0, _) => r0,
            Expr::Case(r0, _, _, _, _, _) => r0,
            Expr::Array(r0, _) => r0,
            Expr::UnGen(r0, _) => r0,
            Expr::Delay(r0, _) => r0,
            Expr::Box(r0, _) => r0,
            Expr::Unbox(r0, _) => r0,
            Expr::ClockApp(r0, _, _) => r0,
            Expr::TypeApp(r0, _, _) => r0,
            Expr::Binop(r0, _, _, _) => r0,
            Expr::ExIntro(r0, _, _) => r0,
            Expr::ExElim(r0, _, _, _, _) => r0,
            Expr::ClockLam(r0, _, _) => r0,
        }
    }
}

/// `map_ext` over the children of an array literal.
fn map_ext_list<R: Copy, U, F: Fn(R) -> U>(es: &List<Expr<R>>, f: &F) -> (r: List<Expr<U>>)
    requires
        forall|x: R| #[trigger] f.requires((x,)),
    ensures
        map_ext_rel_list(*es, r, *f),
    decreases *es,
{
    match es {
        List::Nil => List::Nil,
        List::Cons(x, xs) => List::Cons(x.map_ext(f), Box::new(map_ext_list(xs, f))),
    }
}

/// An exact structural copy of an expression.
pub fn clone_expr<R: Copy>(e: &Expr<R>) -> (r: Expr<R>)
    ensures
        r == *e,
    decreases *e,
{
    match e {
        Expr::Var(r0, x) => Expr::Var(*r0, *x),
        Expr::Val(r0, v) => Expr::Val(*r0, *v),
        Expr::Annotate(r0, e1, t) => Expr::Annotate(*r0, Box::new(clone_expr(e1)), clone_type(t)),
        Expr::Lam(r0, x, e1) => Expr::Lam(*r0, *x, Box::new(clone_expr(e1))),
        Expr::App(r0, e1, e2) => Expr::App(*r0, Box::new(clone_expr(e1)), Box::new(clone_expr(e2))),
        Expr::Adv(r0, e1) => Expr::Adv(*r0, Box::new(clone_expr(e1))),
        Expr::Lob(r0, c, x, e1) => Expr::Lob(*r0, *c, *x, Box::new(clone_expr(e1))),
        Expr::Gen(r0, e1, e2) => Expr::Gen(*r0, Box::new(clone_expr(e1)), Box::new(clone_expr(e2))),
        Expr::LetIn(r0, x, t, e1, e2) => Expr::LetIn(
            *r0,
            *x,
            match t {
                Some(t0) => Some(clone_type(t0)),
                None => None,
            },
            Box::new(clone_expr(e1)),
            Box::new(clone_expr(e2)),
        ),
        Expr::Pair(r0, e1, e2) => Expr::Pair(
            *r0,
            Box::new(clone_expr(e1)),
            Box::new(clone_expr(e2)),
        ),
        Expr::UnPair(r0, x1, x2, e1, e2) => Expr::UnPair(
            *r0,
            *x1,
            *x2,
            Box::new(clone_expr(e1)),
            Box::new(clone_expr(e2)),
        ),
        Expr::InL(r0, e1) => Expr::InL(*r0, Box::new(clone_expr(e1))),
        Expr::InR(r0, e1) => Expr::InR(*r0, Box::new(clone_expr(e1))),
        Expr::Case(r0, e0, x1, e1, x2, e2) => Expr::Case(
            *r0,
            Box::new(clone_expr(e0)),
            *x1,
            Box::new(clone_expr(e1)),
            *x2,
            Box::new(clone_expr(e2)),
        ),
        Expr::Array(r0, es) => Expr::Array(*r0, Box::new(clone_expr_list(es))),
        Expr::UnGen(r0, e1) => Expr::UnGen(*r0, Box::new(clone_expr(e1))),
        Expr::Delay(r0, e1) => Expr::Delay(*r0, Box::new(clone_expr(e1))),
        Expr::Box(r0, e1) => Expr::Box(*r0, Box::new(clone_expr(e1))),
        Expr::Unbox(r0, e1) => Expr::Unbox(*r0, Box::new(clone_expr(e1))),
        Expr::ClockApp(r0, e1, c) => Expr::ClockApp(*r0, Box::new(clone_expr(e1)), *c),
        Expr::TypeApp(r0, e1, t) => Expr::TypeApp(*r0, Box::new(clone_expr(e1)), clone_type(t)),
        Expr::Binop(r0, op, e1, e2) => Expr::Binop(
            *r0,
            *op,
            Box::new(clone_expr(e1)),
            Box::new(clone_expr(e2)),
        ),
        Expr::ExIntro(r0, c, e1) => Expr::ExIntro(*r0, *c, Box::new(clone_expr(e1))),
        Expr::ExElim(r0, x1, x2, e1, e2) => Expr::ExElim(
            *r0,
            *x1,
            *x2,
            Box::new(clone_expr(e1)),
            Box::new(clone_expr(e2)),
        ),
        Expr::ClockLam(r0, x, e1) => Expr::ClockLam(*r0, *x, Box::new(clone_expr(e1))),
    }
}

/// An exact structural copy of a list of expressions.
pub fn clone_expr_list<R: Copy>(es: &List<Expr<R>>) -> (r: List<Expr<R>>)
    ensures
        r == *es,
    decreases *es,
{
    match es {
        List::Nil => List::Nil,
        List::Cons(x, xs) => List::Cons(clone_expr(x), Box::new(clone_expr_list(xs))),
    }
}

/// Whether a top-level definition was written with `let` or `def`.
#[derive(Clone, Copy, PartialEq, Eq, Debug, Structural)]
pub enum TopLevelDefKind {
    Let,
    Def,
}

/// The body of a top-level definition: either a defined expression with
/// its declared type, or a clock declaration. A clock frequency is
/// carried as the bit pattern of its 32-bit floating-point
/// representation; the core never inspects it.
#[derive(PartialEq, Eq, Debug)]
pub enum TopLevelDefBody<R> {
    Def { kind: TopLevelDefKind, type_: Type, expr: Expr<R> },
    Clock { freq: u32 },
}

impl<R> TopLevelDefBody<R> {
    pub fn get_expr(&self) -> (r: Option<&Expr<R>>)
        ensures
            match *self {
                TopLevelDefBody::Def { expr, .. } => r matches Some(e) && *e == expr,
                TopLevelDefBody::Clock { .. } => r is None,
            },
    {
        match self {
            TopLevelDefBody::Def { expr, .. } => Some(expr),
            _ => None,
        }
    }

    pub fn get_type(&self) -> (r: Option<&Type>)
        ensures
            match *self {
                TopLevelDefBody::Def { type_, .. } => r matches Some(t) && *t == type_,
                TopLevelDefBody::Clock { .. } => r is None,
            },
    {
        match self {
            TopLevelDefBody::Def { type_, .. } => Some(type_),
            _ => None,
        }
    }
}

/// A top-level definition: a name, its source range, and its body.
#[derive(PartialEq, Eq, Debug)]
pub struct TopLevelDef<R> {
    pub name: Symbol,
    pub range: R,
    pub body: TopLevelDefBody<R>,
}

/// A whole source file: its top-level definitions in order.
#[derive(Debug)]
pub struct SourceFile<R> {
    pub defs: Vec<TopLevelDef<R>>,
}

} // verus!
