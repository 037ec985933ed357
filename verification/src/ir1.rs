//! The first intermediate representation: the checked abstract syntax
//! with de-Bruijn indices, explicit used-variable annotations on every
//! binder, and an explicit fixed-point operator.

use vstd::prelude::*;

use crate::expr::{Binop, Value};
use crate::list::{List, list_view};

verus! {

/// A de-Bruijn index: zero is the innermost binding.
#[derive(Clone, Copy, PartialEq, Eq, Debug, Structural)]
pub struct DebruijnIndex(pub u32);

/// The index of a top-level global definition.
#[derive(Clone, Copy, PartialEq, Eq, Debug, Structural)]
pub struct Global(pub u32);

/// Primitive operations. `BuildClosure` and `AllocAndFill` are
/// introduced by closure conversion; lowered input holds neither.
#[derive(Clone, Copy, PartialEq, Eq, Debug, Structural)]
pub enum Op {
    Const(Value),
    LoadGlobal(Global),
    BuildClosure(Global),
    AllocAndFill,
    Advance,
    Prim(Binop),
}

/// Constructor forms compiled to allocation.
#[derive(Clone, Copy, PartialEq, Eq, Debug, Structural)]
pub enum Con {
    Stream,
    Array,
    Pair,
    ClockEx,
    InL,
    InR,
}

/// Expressions of the first intermediate representation. Every binder
/// (`Lam`, `Box`, `Lob`, `Delay`) carries the ordered set of outer
/// de-Bruijn indices its body captures, filled in by free-variable
/// analysis; bodies are already shifted so that their free indices
/// range over arguments and environment slots alone.
#[derive(PartialEq, Eq, Debug)]
pub enum Expr {
    Var(DebruijnIndex),
    Val(Value),
    Glob(Global),
    Lam(Option<List<DebruijnIndex>>, u32, Box<Expr>),
    App(Box<Expr>, Box<List<Expr>>),
    Unbox(Box<Expr>),
    Box(Option<List<DebruijnIndex>>, Box<Expr>),
    Lob(Option<List<DebruijnIndex>>, Box<Expr>),
    LetIn(Box<Expr>, Box<Expr>),
    If(Box<Expr>, Box<Expr>, Box<Expr>),
    Con(Con, Box<List<Expr>>),
    Op(Op, Box<List<Expr>>),
    Delay(Option<List<DebruijnIndex>>, Box<Expr>),
    Adv(Box<Expr>),
}

/// The number of nodes: an upper bound on the globals that closure
/// conversion can create for the expression.
pub open spec fn ir1_size(e: Expr) -> nat
    decreases e,
{
    match e {
        Expr::Var(_) => 1,
        Expr::Val(_) => 1,
        Expr::Glob(_) => 1,
        Expr::Lam(_, _, body) => 1 + ir1_size(*body),
        Expr::App(f, args) => 1 + ir1_size(*f) + ir1_size_list(*args),
        Expr::Unbox(e1) => 1 + ir1_size(*e1),
        Expr::Box(_, body) => 1 + ir1_size(*body),
        Expr::Lob(_, body) => 2 + ir1_size(*body),
        Expr::LetIn(e1, e2) => 1 + ir1_size(*e1) + ir1_size(*e2),
        Expr::If(e0, e1, e2) => 1 + ir1_size(*e0) + ir1_size(*e1) + ir1_size(*e2),
        Expr::Con(_, args) => 1 + ir1_size_list(*args),
        Expr::Op(_, args) => 1 + ir1_size_list(*args),
        Expr::Delay(_, body) => 1 + ir1_size(*body),
        Expr::Adv(e1) => 1 + ir1_size(*e1),
    }
}

pub open spec fn ir1_size_list(es: List<Expr>) -> nat
    decreases es,
{
    match es {
        List::Nil => 0,
        List::Cons(e, rest) => ir1_size(e) + ir1_size_list(*rest),
    }
}

/// Every expression has at least one node.
pub proof fn lemma_ir1_size_pos(e: Expr)
    ensures
        ir1_size(e) >= 1,
{
}

/// Every binder carries its used-variable annotation of a
/// machine-representable length, and no operation is a closure
/// construction left over from an earlier conversion.
pub open spec fn annotated(e: Expr) -> bool
    decreases e,
{
    match e {
        Expr::Var(_) => true,
        Expr::Val(_) => true,
        Expr::Glob(_) => true,
        Expr::Lam(used, _, body) => used matches Some(u) && list_view(u).len() < u32::MAX as nat
            && annotated(*body),
        Expr::App(f, args) => annotated(*f) && annotated_list(*args),
        Expr::Unbox(e1) => annotated(*e1),
        Expr::Box(used, body) => used matches Some(u) && list_view(u).len() < u32::MAX as nat
            && annotated(*body),
        Expr::Lob(used, body) => used matches Some(u) && list_view(u).len() < u32::MAX as nat
            && annotated(*body),
        Expr::LetIn(e1, e2) => annotated(*e1) && annotated(*e2),
        Expr::If(e0, e1, e2) => annotated(*e0) && annotated(*e1) && annotated(*e2),
        Expr::Con(_, args) => annotated_list(*args),
        Expr::Op(op, args) => !(op is BuildClosure) && annotated_list(*args),
        Expr::Delay(used, body) => used matches Some(u) && list_view(u).len() < u32::MAX as nat
            && annotated(*body),
        Expr::Adv(e1) => annotated(*e1),
    }
}

pub open spec fn annotated_list(es: List<Expr>) -> bool
    decreases es,
{
    match es {
        List::Nil => true,
        List::Cons(e, rest) => annotated(e) && annotated_list(*rest),
    }
}

/// Every index in a used-variable annotation lies below the depth `n`.
pub open spec fn used_below(used: List<DebruijnIndex>, n: nat) -> bool
    decreases used,
{
    match used {
        List::Nil => true,
        List::Cons(i, rest) => (i.0 as nat) < n && used_below(*rest, n),
    }
}

/// The operation references no global at or beyond `ng`.
pub open spec fn op_wf1(op: Op, ng: nat) -> bool {
    match op {
        Op::LoadGlobal(g) => (g.0 as nat) < ng,
        Op::BuildClosure(g) => (g.0 as nat) < ng,
        _ => true,
    }
}

/// Well-scopedness of lowered input at depth `n` against `ng` known
/// globals: every variable lies below the depth, every annotation
/// below its binder's depth, and every binder's body is scoped by its
/// own arguments and captured environment alone.
pub open spec fn wf1(e: Expr, n: nat, ng: nat) -> bool
    decreases e,
{
    match e {
        Expr::Var(i) => (i.0 as nat) < n,
        Expr::Val(_) => true,
        Expr::Glob(g) => (g.0 as nat) < ng,
        Expr::Lam(used, arity, body) => match used {
            Some(u) => used_below(u, n) && wf1(*body, arity as nat + list_view(u).len(), ng),
            None => false,
        },
        Expr::App(f, args) => wf1(*f, n, ng) && wf1_list(*args, n, ng),
        Expr::Unbox(e1) => wf1(*e1, n, ng),
        Expr::Box(used, body) => match used {
            Some(u) => used_below(u, n) && wf1(*body, list_view(u).len(), ng),
            None => false,
        },
        Expr::Lob(used, body) => match used {
            Some(u) => used_below(u, n) && wf1(*body, list_view(u).len() + 1, ng),
            None => false,
        },
        Expr::LetIn(e1, e2) => wf1(*e1, n, ng) && wf1(*e2, n + 1, ng),
        Expr::If(e0, e1, e2) => wf1(*e0, n, ng) && wf1(*e1, n, ng) && wf1(*e2, n, ng),
        Expr::Con(_, args) => wf1_list(*args, n, ng),
        Expr::Op(op, args) => op_wf1(op, ng) && wf1_list(*args, n, ng),
        Expr::Delay(used, body) => match used {
            Some(u) => used_below(u, n) && wf1(*body, list_view(u).len(), ng),
            None => false,
        },
        Expr::Adv(e1) => wf1(*e1, n, ng),
    }
}

pub open spec fn wf1_list(es: List<Expr>, n: nat, ng: nat) -> bool
    decreases es,
{
    match es {
        List::Nil => true,
        List::Cons(e, rest) => wf1(e, n, ng) && wf1_list(*rest, n, ng),
    }
}

/// Scoping only loosens as more globals become known.
pub proof fn lemma_wf1_mono(e: Expr, n: nat, ng1: nat, ng2: nat)
    requires
        ng1 <= ng2,
        wf1(e, n, ng1),
    ensures
        wf1(e, n, ng2),
    decreases e,
{
    match e {
        Expr::Lam(used, arity, body) => {
            lemma_wf1_mono(*body, arity as nat + list_view(used->0).len(), ng1, ng2);
        },
        Expr::App(f, args) => {
            lemma_wf1_mono(*f, n, ng1, ng2);
            lemma_wf1_list_mono(*args, n, ng1, ng2);
        },
        Expr::Unbox(e1) => lemma_wf1_mono(*e1, n, ng1, ng2),
        Expr::Box(used, body) => {
            lemma_wf1_mono(*body, list_view(used->0).len(), ng1, ng2);
        },
        Expr::Lob(used, body) => {
            lemma_wf1_mono(*body, list_view(used->0).len() + 1, ng1, ng2);
        },
        Expr::LetIn(e1, e2) => {
            lemma_wf1_mono(*e1, n, ng1, ng2);
            lemma_wf1_mono(*e2, n + 1, ng1, ng2);
        },
        Expr::If(e0, e1, e2) => {
            lemma_wf1_mono(*e0, n, ng1, ng2);
            lemma_wf1_mono(*e1, n, ng1, ng2);
            lemma_wf1_mono(*e2, n, ng1, ng2);
        },
        Expr::Con(_, args) => lemma_wf1_list_mono(*args, n, ng1, ng2),
        Expr::Op(_, args) => lemma_wf1_list_mono(*args, n, ng1, ng2),
        Expr::Delay(used, body) => {
            lemma_wf1_mono(*body, list_view(used->0).len(), ng1, ng2);
        },
        Expr::Adv(e1) => lemma_wf1_mono(*e1, n, ng1, ng2),
        _ => {},
    }
}

pub proof fn lemma_wf1_list_mono(es: List<Expr>, n: nat, ng1: nat, ng2: nat)
    requires
        ng1 <= ng2,
        wf1_list(es, n, ng1),
    ensures
        wf1_list(es, n, ng2),
    decreases es,
{
    match es {
        List::Cons(e, rest) => {
            lemma_wf1_mono(e, n, ng1, ng2);
            lemma_wf1_list_mono(*rest, n, ng1, ng2);
        },
        _ => {},
    }
}

} // verus!
