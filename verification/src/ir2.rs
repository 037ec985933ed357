//! The closure-converted intermediate representation and its
//! translation. Every binder of the input becomes a new top-level
//! global with an explicit environment; call sites become indirect
//! calls through closure values.
//!
//! The converter is specified twice over. `spec_translate` (with
//! `spec_translate_list`, `spec_build_constructor` and `spec_closure`)
//! pins the translation down exactly: the converted expression and the
//! globals appended to the table, node by node. Well-formedness
//! (`wf2`, `globals_wf`) then carries the two structural guarantees of
//! the output: every closure construction passes exactly as many values
//! as the environment size of the global it names, and every variable
//! in a lowered body lies below the sum of the arity, the environment
//! size, the self slot of a recursive builder, and the locally bound
//! variables.

use vstd::prelude::*;

use crate::ir1;
use crate::ir1::{
    Con, DebruijnIndex, Global, Op, annotated, annotated_list, ir1_size, ir1_size_list,
    lemma_wf1_list_mono, lemma_wf1_mono, used_below, wf1, wf1_list,
};
use crate::expr::Value;
use crate::list::{List, lemma_len_sat, list_view};

verus! {

/// Closure-converted expressions.
#[derive(PartialEq, Eq, Debug)]
pub enum Expr {
    Var(DebruijnIndex),
    If(Box<Expr>, Box<Expr>, Box<Expr>),
    Let(Box<List<Expr>>, Box<Expr>),
    Op(Op, Box<List<Expr>>),
    CallDirect(Global, Box<List<Expr>>),
    CallIndirect(Box<Expr>, Box<List<Expr>>),
}

/// A top-level definition: a function with an explicit environment, or
/// a closed expression.
#[derive(PartialEq, Eq, Debug)]
pub enum GlobalDef {
    Func { rec: bool, arity: u32, env_size: u32, body: Expr },
    ClosedExpr { body: Expr },
}

impl GlobalDef {
    /// The arity of a function definition; a closed expression has none.
    pub fn arity(&self) -> (r: Option<u32>)
        ensures
            r == (match *self {
                GlobalDef::Func { arity, .. } => Some(arity),
                GlobalDef::ClosedExpr { .. } => None::<u32>,
            }),
    {
        match *self {
            GlobalDef::Func { arity, .. } => Some(arity),
            GlobalDef::ClosedExpr { .. } => None,
        }
    }
}

/// The depth a global's body is scoped at: its arguments, its
/// environment slots, and one more slot when the runtime reserves a
/// reference to the closure itself in a recursive builder.
pub open spec fn global_body_depth(d: GlobalDef) -> nat {
    match d {
        GlobalDef::Func { rec, arity, env_size, .. } => arity as nat + env_size as nat + (
        if rec {
            1nat
        } else {
            0nat
        }),
        GlobalDef::ClosedExpr { .. } => 0,
    }
}

/// The operation's references are in range; a closure construction
/// names a function global and passes exactly its environment size.
pub open spec fn op_wf2(op: Op, nargs: nat, gs: Seq<GlobalDef>) -> bool {
    match op {
        Op::LoadGlobal(g) => (g.0 as nat) < gs.len(),
        Op::BuildClosure(g) => (g.0 as nat) < gs.len() && (gs[g.0 as int] matches
        GlobalDef::Func { env_size, .. } && nargs == env_size as nat),
        _ => true,
    }
}

/// Well-scopedness of a converted expression at depth `n` against the
/// global table `gs`.
pub open spec fn wf2(e: Expr, n: nat, gs: Seq<GlobalDef>) -> bool
    decreases e,
{
    match e {
        Expr::Var(i) => (i.0 as nat) < n,
        Expr::If(e0, e1, e2) => wf2(*e0, n, gs) && wf2(*e1, n, gs) && wf2(*e2, n, gs),
        Expr::Let(binds, body) => wf2_list(*binds, n, gs) && wf2(
            *body,
            n + list_view(*binds).len(),
            gs,
        ),
        Expr::Op(op, args) => op_wf2(op, list_view(*args).len(), gs) && wf2_list(*args, n, gs),
        Expr::CallDirect(g, args) => (g.0 as nat) < gs.len() && wf2_list(*args, n, gs),
        Expr::CallIndirect(f, args) => wf2(*f, n, gs) && wf2_list(*args, n, gs),
    }
}

pub open spec fn wf2_list(es: List<Expr>, n: nat, gs: Seq<GlobalDef>) -> bool
    decreases es,
{
    match es {
        List::Nil => true,
        List::Cons(e, rest) => wf2(e, n, gs) && wf2_list(*rest, n, gs),
    }
}

/// A global's body is well scoped at its own depth.
pub open spec fn global_wf(d: GlobalDef, gs: Seq<GlobalDef>) -> bool {
    match d {
        GlobalDef::Func { body, .. } => wf2(body, global_body_depth(d), gs),
        GlobalDef::ClosedExpr { body } => wf2(body, 0, gs),
    }
}

/// Every global's body is well scoped against the whole table.
pub open spec fn globals_wf(gs: Seq<GlobalDef>) -> bool {
    forall|i: int| 0 <= i < gs.len() ==> global_wf(#[trigger] gs[i], gs)
}

/// `gs1` is an initial segment of `gs2`.
pub open spec fn gs_prefix(gs1: Seq<GlobalDef>, gs2: Seq<GlobalDef>) -> bool {
    gs1.len() <= gs2.len() && forall|i: int| 0 <= i < gs1.len() ==> gs1[i] == gs2[i]
}

/// Well-scopedness is preserved as the global table grows.
pub proof fn lemma_wf2_mono(e: Expr, n: nat, gs1: Seq<GlobalDef>, gs2: Seq<GlobalDef>)
    requires
        gs_prefix(gs1, gs2),
        wf2(e, n, gs1),
    ensures
        wf2(e, n, gs2),
    decreases e,
{
    match e {
        Expr::If(e0, e1, e2) => {
            lemma_wf2_mono(*e0, n, gs1, gs2);
            lemma_wf2_mono(*e1, n, gs1, gs2);
            lemma_wf2_mono(*e2, n, gs1, gs2);
        },
        Expr::Let(binds, body) => {
            lemma_wf2_list_mono(*binds, n, gs1, gs2);
            lemma_wf2_mono(*body, n + list_view(*binds).len(), gs1, gs2);
        },
        Expr::Op(op, args) => {
            lemma_wf2_list_mono(*args, n, gs1, gs2);
        },
        Expr::CallDirect(_, args) => {
            lemma_wf2_list_mono(*args, n, gs1, gs2);
        },
        Expr::CallIndirect(f, args) => {
            lemma_wf2_mono(*f, n, gs1, gs2);
            lemma_wf2_list_mono(*args, n, gs1, gs2);
        },
        _ => {},
    }
}

pub proof fn lemma_wf2_list_mono(es: List<Expr>, n: nat, gs1: Seq<GlobalDef>, gs2: Seq<GlobalDef>)
    requires
        gs_prefix(gs1, gs2),
        wf2_list(es, n, gs1),
    ensures
        wf2_list(es, n, gs2),
    decreases es,
{
    match es {
        List::Cons(e, rest) => {
            lemma_wf2_mono(e, n, gs1, gs2);
            lemma_wf2_list_mono(*rest, n, gs1, gs2);
        },
        _ => {},
    }
}

/// A well-formed table stays well formed when a global whose body is
/// well scoped against the extended table is appended.
pub proof fn lemma_globals_wf_push(gs: Seq<GlobalDef>, d: GlobalDef)
    requires
        globals_wf(gs),
        global_wf(d, gs.push(d)),
    ensures
        globals_wf(gs.push(d)),
{
    let gs2 = gs.push(d);
    assert forall|i: int| 0 <= i < gs2.len() implies global_wf(#[trigger] gs2[i], gs2) by {
        if i < gs.len() {
            assert(gs2[i] == gs[i]);
            match gs[i] {
                GlobalDef::Func { body, .. } => lemma_wf2_mono(
                    body,
                    global_body_depth(gs[i]),
                    gs,
                    gs2,
                ),
                GlobalDef::ClosedExpr { body } => lemma_wf2_mono(body, 0, gs, gs2),
            }
        }
    }
}

/// De-Bruijn well-scoping of the output, named: every variable in a
/// global's body lies below the sum of the arity, the environment size,
/// the self slot of a recursive builder, and whatever the body binds
/// locally.
pub proof fn lemma_global_bodies_scoped(gs: Seq<GlobalDef>, i: int)
    requires
        globals_wf(gs),
        0 <= i < gs.len(),
    ensures
        gs[i] matches GlobalDef::Func { body, .. } ==> wf2(body, global_body_depth(gs[i]), gs),
        gs[i] matches GlobalDef::ClosedExpr { body } ==> wf2(body, 0, gs),
{
}

/// The environment references a closure construction passes: one
/// variable for each captured index.
pub open spec fn vars_of(used: List<DebruijnIndex>) -> List<Expr>
    decreases used,
{
    match used {
        List::Nil => List::Nil,
        List::Cons(i, rest) => List::Cons(Expr::Var(i), Box::new(vars_of(*rest))),
    }
}

fn vars_of_exec(used: &List<DebruijnIndex>) -> (r: List<Expr>)
    ensures
        r == vars_of(*used),
    decreases *used,
{
    match used {
        List::Nil => List::Nil,
        List::Cons(i, rest) => List::Cons(Expr::Var(*i), Box::new(vars_of_exec(rest))),
    }
}

/// The environment references are as many as the captured indices, and
/// well scoped wherever the indices are.
pub proof fn lemma_vars_of_wf(used: List<DebruijnIndex>, n: nat, gs: Seq<GlobalDef>)
    requires
        used_below(used, n),
    ensures
        wf2_list(vars_of(used), n, gs),
        list_view(vars_of(used)).len() == list_view(used).len(),
    decreases used,
{
    match used {
        List::Cons(i, rest) => {
            lemma_vars_of_wf(*rest, n, gs);
            assert(vars_of(used) == List::Cons(Expr::Var(i), Box::new(vars_of(*rest))));
            assert(wf2(Expr::Var(i), n, gs));
        },
        _ => {},
    }
}

/// The indices `lo`, `lo + 1`, ..., `hi - 1`, in order.
pub open spec fn spec_index_range(lo: u32, hi: u32) -> List<DebruijnIndex>
    decreases hi - lo,
{
    if lo >= hi {
        List::Nil
    } else {
        List::Cons(DebruijnIndex(lo), Box::new(spec_index_range((lo + 1) as u32, hi)))
    }
}

fn index_range(lo: u32, hi: u32) -> (r: List<DebruijnIndex>)
    requires
        lo <= hi,
    ensures
        r == spec_index_range(lo, hi),
        list_view(r).len() == hi - lo,
        used_below(r, hi as nat),
    decreases hi - lo,
{
    if lo == hi {
        List::Nil
    } else {
        let rest = index_range(lo + 1, hi);
        List::Cons(DebruijnIndex(lo), Box::new(rest))
    }
}

/// What the translation yields for an expression against a global
/// table: the converted expression, and the table with the globals the
/// conversion appends. Binders for which free-variable analysis left no
/// annotation yield a placeholder; the converter is never asked to run
/// on them.
pub open spec fn spec_translate(e: ir1::Expr, gs: Seq<GlobalDef>) -> (Expr, Seq<GlobalDef>)
    decreases ir1_size(e), 0int,
{
    match e {
        ir1::Expr::Var(i) => (Expr::Var(i), gs),
        ir1::Expr::Val(v) => (Expr::Op(Op::Const(v), Box::new(List::Nil)), gs),
        ir1::Expr::Glob(g) => (Expr::Op(Op::LoadGlobal(g), Box::new(List::Nil)), gs),
        ir1::Expr::Lam(used, arity, body) => match used {
            Some(u) => spec_closure(false, arity, u, *body, gs),
            None => (Expr::Var(DebruijnIndex(0)), gs),
        },
        ir1::Expr::App(f, args) => {
            let p = spec_translate(*f, gs);
            let q = spec_translate_list(*args, p.1);
            (Expr::CallIndirect(Box::new(p.0), Box::new(q.0)), q.1)
        },
        ir1::Expr::Unbox(e1) => {
            let p = spec_translate(*e1, gs);
            (Expr::CallIndirect(Box::new(p.0), Box::new(List::Nil)), p.1)
        },
        ir1::Expr::Box(used, body) => match used {
            Some(u) => spec_closure(false, 0, u, *body, gs),
            None => (Expr::Var(DebruijnIndex(0)), gs),
        },
        ir1::Expr::Lob(used, body) => match used {
            Some(u) => {
                let p = spec_translate(*body, gs);
                let iu = spec_index_range(0, (list_view(u).len() + 1) as u32);
                let inner = GlobalDef::Func {
                    rec: false,
                    arity: 0,
                    env_size: list_view(iu).len() as u32,
                    body: p.0,
                };
                let inner_closure = Expr::Op(
                    Op::BuildClosure(Global(p.1.len() as u32)),
                    Box::new(vars_of(iu)),
                );
                let builder = GlobalDef::Func {
                    rec: true,
                    arity: 0,
                    env_size: list_view(u).len() as u32,
                    body: inner_closure,
                };
                let use_site = Expr::Op(
                    Op::BuildClosure(Global(p.1.push(inner).len() as u32)),
                    Box::new(vars_of(u)),
                );
                (
                    Expr::Let(
                        Box::new(List::Cons(use_site, Box::new(List::Nil))),
                        Box::new(
                            Expr::CallIndirect(
                                Box::new(
                                    Expr::CallIndirect(
                                        Box::new(Expr::Var(DebruijnIndex(0))),
                                        Box::new(List::Nil),
                                    ),
                                ),
                                Box::new(List::Nil),
                            ),
                        ),
                    ),
                    p.1.push(inner).push(builder),
                )
            },
            None => (Expr::Var(DebruijnIndex(0)), gs),
        },
        ir1::Expr::LetIn(e1, e2) => {
            let p = spec_translate(*e1, gs);
            let q = spec_translate(*e2, p.1);
            (
                Expr::Let(Box::new(List::Cons(p.0, Box::new(List::Nil))), Box::new(q.0)),
                q.1,
            )
        },
        ir1::Expr::If(e0, e1, e2) => {
            let p = spec_translate(*e0, gs);
            let q = spec_translate(*e1, p.1);
            let w = spec_translate(*e2, q.1);
            (Expr::If(Box::new(p.0), Box::new(q.0), Box::new(w.0)), w.1)
        },
        ir1::Expr::Con(con, args) => {
            let p = spec_build_constructor(con, *args, gs);
            (Expr::Op(Op::AllocAndFill, Box::new(p.0)), p.1)
        },
        ir1::Expr::Op(op, args) => {
            let p = spec_translate_list(*args, gs);
            (Expr::Op(op, Box::new(p.0)), p.1)
        },
        ir1::Expr::Delay(used, body) => match used {
            Some(u) => spec_closure(false, 0, u, *body, gs),
            None => (Expr::Var(DebruijnIndex(0)), gs),
        },
        ir1::Expr::Adv(e1) => {
            let p = spec_translate(*e1, gs);
            (Expr::Op(Op::Advance, Box::new(List::Cons(p.0, Box::new(List::Nil)))), p.1)
        },
    }
}

/// What a binder's conversion yields: the translated body lifted to a
/// fresh global over the captured environment, and the closure
/// construction standing at the use site.
pub open spec fn spec_closure(
    rec: bool,
    arity: u32,
    used: List<DebruijnIndex>,
    body: ir1::Expr,
    gs: Seq<GlobalDef>,
) -> (Expr, Seq<GlobalDef>)
    decreases ir1_size(body), 2int,
{
    let p = spec_translate(body, gs);
    (
        Expr::Op(Op::BuildClosure(Global(p.1.len() as u32)), Box::new(vars_of(used))),
        p.1.push(
            GlobalDef::Func {
                rec,
                arity,
                env_size: list_view(used).len() as u32,
                body: p.0,
            },
        ),
    )
}

/// The element-wise translation, threading the global table left to
/// right.
pub open spec fn spec_translate_list(es: List<ir1::Expr>, gs: Seq<GlobalDef>) -> (
    List<Expr>,
    Seq<GlobalDef>,
)
    decreases ir1_size_list(es), 1int,
    via spec_translate_list_decreases
{
    match es {
        List::Nil => (List::Nil, gs),
        List::Cons(e, rest) => {
            let p = spec_translate(e, gs);
            let q = spec_translate_list(*rest, p.1);
            (List::Cons(p.0, Box::new(q.0)), q.1)
        },
    }
}

#[via_fn]
proof fn spec_translate_list_decreases(es: List<ir1::Expr>, gs: Seq<GlobalDef>) {
    match es {
        List::Cons(e, _) => crate::ir1::lemma_ir1_size_pos(e),
        List::Nil => (),
    }
}

/// What a constructor compiles to: the translated children, with the
/// discriminant prepended for the sum injections.
pub open spec fn spec_build_constructor(con: Con, args: List<ir1::Expr>, gs: Seq<GlobalDef>) -> (
    List<Expr>,
    Seq<GlobalDef>,
)
    decreases ir1_size_list(args), 2int,
{
    let p = spec_translate_list(args, gs);
    match con {
        Con::InL => (
            List::Cons(
                Expr::Op(Op::Const(Value::Index(0)), Box::new(List::Nil)),
                Box::new(p.0),
            ),
            p.1,
        ),
        Con::InR => (
            List::Cons(
                Expr::Op(Op::Const(Value::Index(1)), Box::new(List::Nil)),
                Box::new(p.0),
            ),
            p.1,
        ),
        _ => p,
    }
}

/// The closure converter: the table of top-level globals it has
/// created so far.
pub struct Translator {
    pub globals: Vec<GlobalDef>,
}

impl Translator {
    /// Allocate a new global over the given environment and an already
    /// translated body, and construct its closure at the use site.
    fn build_new_closure_inner(
        &mut self,
        rec: bool,
        arity: u32,
        used: &List<DebruijnIndex>,
        body: Expr,
    ) -> (r: Expr)
        requires
            old(self).globals@.len() < u32::MAX as nat,
            list_view(*used).len() <= u32::MAX as nat,
        ensures
            final(self).globals@ == old(self).globals@.push(
                GlobalDef::Func { rec, arity, env_size: list_view(*used).len() as u32, body },
            ),
            r == Expr::Op(
                Op::BuildClosure(Global(old(self).globals@.len() as u32)),
                Box::new(vars_of(*used)),
            ),
    {
        proof {
            lemma_len_sat(*used);
        }
        let func_idx = self.globals.len();
        let env_size = used.len();
        let args = vars_of_exec(used);
        self.globals.push(
            GlobalDef::Func { rec, arity, env_size: env_size as u32, body },
        );
        Expr::Op(Op::BuildClosure(Global(func_idx as u32)), Box::new(args))
    }

    /// Translate a binder's body, lift it to a new global over the
    /// captured environment, and construct its closure at the use site.
    fn build_new_closure(
        &mut self,
        rec: bool,
        arity: u32,
        used: &List<DebruijnIndex>,
        body: &ir1::Expr,
    ) -> (r: Expr)
        requires
            annotated(*body),
            list_view(*used).len() < u32::MAX as nat,
            old(self).globals@.len() + ir1_size(*body) + 1 <= u32::MAX as nat,
        ensures
            (r, final(self).globals@) == spec_closure(
                rec,
                arity,
                *used,
                *body,
                old(self).globals@,
            ),
            gs_prefix(old(self).globals@, final(self).globals@),
            final(self).globals@.len() <= old(self).globals@.len() + ir1_size(*body) + 1,
            wf1(
                *body,
                arity as nat + list_view(*used).len() + (if rec {
                    1nat
                } else {
                    0nat
                }),
                old(self).globals@.len() as nat,
            ) ==> (globals_wf(old(self).globals@) ==> globals_wf(final(self).globals@)),
            wf1(
                *body,
                arity as nat + list_view(*used).len() + (if rec {
                    1nat
                } else {
                    0nat
                }),
                old(self).globals@.len() as nat,
            ) ==> forall|n: nat| #[trigger] used_below(*used, n) ==> wf2(
                r,
                n,
                final(self).globals@,
            ),
        decreases ir1_size(*body), 2int,
    {
        let ghost gs0 = self.globals@;
        let bodyt = self.translate(body);
        let ghost gs1 = self.globals@;
        let r = self.build_new_closure_inner(rec, arity, used, bodyt);
        let ghost gs2 = self.globals@;
        let ghost d = GlobalDef::Func {
            rec,
            arity,
            env_size: list_view(*used).len() as u32,
            body: bodyt,
        };
        proof {
            assert(gs_prefix(gs1, gs2));
            assert(gs_prefix(gs0, gs2));
            let np = arity as nat + list_view(*used).len() + (if rec {
                1nat
            } else {
                0nat
            });
            if wf1(*body, np, gs0.len() as nat) {
                assert(wf2(bodyt, np, gs1));
                assert(global_body_depth(d) == np);
                lemma_wf2_mono(bodyt, np, gs1, gs2);
                assert(global_wf(d, gs2));
                assert(gs2[gs1.len() as int] == d);
                if globals_wf(gs0) {
                    lemma_globals_wf_push(gs1, d);
                }
                assert forall|n: nat| #[trigger] used_below(*used, n) implies wf2(r, n, gs2) by {
                    lemma_vars_of_wf(*used, n, gs2);
                }
            }
        }
        r
    }

    /// Compile a constructor to the contents of its allocation: the
    /// translated children, with a discriminant prepended for the sum
    /// injections.
    fn build_constructor(&mut self, con: Con, args: &List<ir1::Expr>) -> (r: List<Expr>)
        requires
            annotated_list(*args),
            old(self).globals@.len() + ir1_size_list(*args) <= u32::MAX as nat,
        ensures
            (r, final(self).globals@) == spec_build_constructor(con, *args, old(self).globals@),
            gs_prefix(old(self).globals@, final(self).globals@),
            final(self).globals@.len() <= old(self).globals@.len() + ir1_size_list(*args),
            forall|n: nat| #[trigger] wf1_list(*args, n, old(self).globals@.len() as nat) ==> (
            wf2_list(r, n, final(self).globals@) && (globals_wf(old(self).globals@)
                ==> globals_wf(final(self).globals@))),
        decreases ir1_size_list(*args), 2int,
    {
        match con {
            Con::Stream => self.translate_list(args),
            Con::Array => self.translate_list(args),
            Con::Pair => self.translate_list(args),
            Con::ClockEx => self.translate_list(args),
            Con::InL => {
                let ghost gs0 = self.globals@;
                let tl = self.translate_list(args);
                let r = List::Cons(
                    Expr::Op(Op::Const(Value::Index(0)), Box::new(List::Nil)),
                    Box::new(tl),
                );
                proof {
                    assert forall|n: nat| #[trigger]
                        wf1_list(*args, n, gs0.len() as nat) implies (wf2_list(
                        r,
                        n,
                        self.globals@,
                    ) && (globals_wf(gs0) ==> globals_wf(self.globals@))) by {
                        assert(wf2_list(List::<Expr>::Nil, n, self.globals@));
                        assert(list_view(List::<Expr>::Nil).len() == 0);
                        assert(wf2(
                            Expr::Op(Op::Const(Value::Index(0)), Box::new(List::Nil)),
                            n,
                            self.globals@,
                        ));
                    }
                }
                r
            },
            Con::InR => {
                let ghost gs0 = self.globals@;
                let tl = self.translate_list(args);
                let r = List::Cons(
                    Expr::Op(Op::Const(Value::Index(1)), Box::new(List::Nil)),
                    Box::new(tl),
                );
                proof {
                    assert forall|n: nat| #[trigger]
                        wf1_list(*args, n, gs0.len() as nat) implies (wf2_list(
                        r,
                        n,
                        self.globals@,
                    ) && (globals_wf(gs0) ==> globals_wf(self.globals@))) by {
                        assert(wf2_list(List::<Expr>::Nil, n, self.globals@));
                        assert(list_view(List::<Expr>::Nil).len() == 0);
                        assert(wf2(
                            Expr::Op(Op::Const(Value::Index(1)), Box::new(List::Nil)),
                            n,
                            self.globals@,
                        ));
                    }
                }
                r
            },
        }
    }

    fn translate_list(&mut self, es: &List<ir1::Expr>) -> (r: List<Expr>)
        requires
            annotated_list(*es),
            old(self).globals@.len() + ir1_size_list(*es) <= u32::MAX as nat,
        ensures
            (r, final(self).globals@) == spec_translate_list(*es, old(self).globals@),
            gs_prefix(old(self).globals@, final(self).globals@),
            final(self).globals@.len() <= old(self).globals@.len() + ir1_size_list(*es),
            forall|n: nat| #[trigger] wf1_list(*es, n, old(self).globals@.len() as nat) ==> (
            wf2_list(r, n, final(self).globals@) && (globals_wf(old(self).globals@)
                ==> globals_wf(final(self).globals@))),
        decreases ir1_size_list(*es), 1int,
    {
        match es {
            List::Nil => List::Nil,
            List::Cons(e, rest) => {
                let ghost gs0 = self.globals@;
                let et = self.translate(e);
                let ghost gs1 = self.globals@;
                let rt = self.translate_list(rest);
                let ghost gs2 = self.globals@;
                proof {
                    assert(gs_prefix(gs0, gs2));
                    assert forall|n: nat| #[trigger]
                        wf1_list(*es, n, gs0.len() as nat) implies (wf2_list(
                        List::Cons(et, Box::new(rt)),
                        n,
                        gs2,
                    ) && (globals_wf(gs0) ==> globals_wf(gs2))) by {
                        assert(wf1(*e, n, gs0.len() as nat));
                        assert(wf1_list(**rest, n, gs0.len() as nat));
                        lemma_wf1_list_mono(**rest, n, gs0.len() as nat, gs1.len() as nat);
                        lemma_wf2_mono(et, n, gs1, gs2);
                    }
                }
                List::Cons(et, Box::new(rt))
            },
        }
    }

    /// Closure-convert a lowered expression. The result and the globals
    /// appended to the table are exactly those of `spec_translate`;
    /// moreover, for well-scoped input the output and every global body
    /// are well scoped, and every closure construction matches its
    /// global's environment size.
    pub fn translate(&mut self, expr: &ir1::Expr) -> (r: Expr)
        requires
            annotated(*expr),
            old(self).globals@.len() + ir1_size(*expr) <= u32::MAX as nat,
        ensures
            (r, final(self).globals@) == spec_translate(*expr, old(self).globals@),
            gs_prefix(old(self).globals@, final(self).globals@),
            final(self).globals@.len() <= old(self).globals@.len() + ir1_size(*expr),
            forall|n: nat| #[trigger] wf1(*expr, n, old(self).globals@.len() as nat) ==> (wf2(
                r,
                n,
                final(self).globals@,
            ) && (globals_wf(old(self).globals@) ==> globals_wf(final(self).globals@))),
        decreases ir1_size(*expr), 0int,
    {
        match expr {
            ir1::Expr::Var(i) => Expr::Var(*i),
            ir1::Expr::Val(v) => {
                let r = Expr::Op(Op::Const(*v), Box::new(List::Nil));
                proof {
                    assert forall|n: nat| #[trigger]
                        wf1(*expr, n, self.globals@.len() as nat) implies wf2(
                        r,
                        n,
                        self.globals@,
                    ) by {
                        assert(wf2_list(List::<Expr>::Nil, n, self.globals@));
                    }
                }
                r
            },
            ir1::Expr::Glob(g) => {
                let r = Expr::Op(Op::LoadGlobal(*g), Box::new(List::Nil));
                proof {
                    assert forall|n: nat| #[trigger]
                        wf1(*expr, n, self.globals@.len() as nat) implies wf2(
                        r,
                        n,
                        self.globals@,
                    ) by {
                        assert(wf2_list(List::<Expr>::Nil, n, self.globals@));
                    }
                }
                r
            },
            ir1::Expr::Lam(used, arity, body) => {
                match used {
                    Some(u) => self.build_new_closure(false, *arity, u, body),
                    None => {
                        proof {
                            assert(false);
                        }
                        Expr::Var(DebruijnIndex(0))
                    },
                }
            },
            ir1::Expr::App(e1, es) => {
                let ghost gs0 = self.globals@;
                let e1t = self.translate(e1);
                let ghost gs1 = self.globals@;
                let est = self.translate_list(es);
                let ghost gs2 = self.globals@;
                proof {
                    assert(gs_prefix(gs0, gs2));
                    assert forall|n: nat| #[trigger]
                        wf1(*expr, n, gs0.len() as nat) implies (wf2(
                        Expr::CallIndirect(Box::new(e1t), Box::new(est)),
                        n,
                        gs2,
                    ) && (globals_wf(gs0) ==> globals_wf(gs2))) by {
                        assert(wf1(**e1, n, gs0.len() as nat));
                        assert(wf1_list(**es, n, gs0.len() as nat));
                        lemma_wf1_list_mono(**es, n, gs0.len() as nat, gs1.len() as nat);
                        lemma_wf2_mono(e1t, n, gs1, gs2);
                    }
                }
                Expr::CallIndirect(Box::new(e1t), Box::new(est))
            },
            ir1::Expr::Unbox(e1) => {
                let ghost gs0 = self.globals@;
                let e1t = self.translate(e1);
                let r = Expr::CallIndirect(Box::new(e1t), Box::new(List::Nil));
                proof {
                    assert forall|n: nat| #[trigger]
                        wf1(*expr, n, gs0.len() as nat) implies (wf2(r, n, self.globals@) && (
                    globals_wf(gs0) ==> globals_wf(self.globals@))) by {
                        assert(wf1(**e1, n, gs0.len() as nat));
                        assert(wf2_list(List::<Expr>::Nil, n, self.globals@));
                    }
                }
                r
            },
            ir1::Expr::Box(used, body) => {
                match used {
                    Some(u) => self.build_new_closure(false, 0, u, body),
                    None => {
                        proof {
                            assert(false);
                        }
                        Expr::Var(DebruijnIndex(0))
                    },
                }
            },
            ir1::Expr::Lob(used, body) => {
                match used {
                    Some(u) => {
                        let ghost gs0 = self.globals@;
                        proof {
                            lemma_len_sat(*u);
                        }
                        let m = u.len();
                        let inner_used = index_range(0, (m as u32) + 1);
                        let bodyt = self.translate(body);
                        let ghost gs1 = self.globals@;
                        let inner_closure = self.build_new_closure_inner(
                            false,
                            0,
                            &inner_used,
                            bodyt,
                        );
                        let ghost gs2 = self.globals@;
                        let ghost d_inner = GlobalDef::Func {
                            rec: false,
                            arity: 0,
                            env_size: list_view(inner_used).len() as u32,
                            body: bodyt,
                        };
                        let closure_builder = self.build_new_closure_inner(
                            true,
                            0,
                            u,
                            inner_closure,
                        );
                        let ghost gs3 = self.globals@;
                        let ghost d_builder = GlobalDef::Func {
                            rec: true,
                            arity: 0,
                            env_size: list_view(*u).len() as u32,
                            body: inner_closure,
                        };
                        let r = Expr::Let(
                            Box::new(List::Cons(closure_builder, Box::new(List::Nil))),
                            Box::new(
                                Expr::CallIndirect(
                                    Box::new(
                                        Expr::CallIndirect(
                                            Box::new(Expr::Var(DebruijnIndex(0))),
                                            Box::new(List::Nil),
                                        ),
                                    ),
                                    Box::new(List::Nil),
                                ),
                            ),
                        );
                        proof {
                            let mp = list_view(*u).len();
                            assert(gs_prefix(gs0, gs3));
                            assert forall|n: nat| #[trigger]
                                wf1(*expr, n, gs0.len() as nat) implies (wf2(r, n, gs3) && (
                            globals_wf(gs0) ==> globals_wf(gs3))) by {
                                // the inner global's body is the
                                // translated recursion body, scoped by
                                // its environment of the captured
                                // variables and the self closure
                                assert(wf1(**body, mp + 1, gs0.len() as nat));
                                assert(wf2(bodyt, mp + 1, gs1));
                                assert(global_body_depth(d_inner) == mp + 1);
                                lemma_wf2_mono(bodyt, mp + 1, gs1, gs3);
                                assert(gs3[gs1.len() as int] == d_inner);
                                // the builder's body constructs the
                                // inner closure over itself and the
                                // captured variables
                                lemma_vars_of_wf(inner_used, mp + 1, gs3);
                                assert(wf2(inner_closure, mp + 1, gs3));
                                assert(global_body_depth(d_builder) == mp + 1);
                                assert(gs3[gs2.len() as int] == d_builder);
                                // the use site builds the builder's
                                // closure over the captured variables
                                // and forces it twice
                                lemma_vars_of_wf(*u, n, gs3);
                                assert(wf2(closure_builder, n, gs3));
                                assert(list_view(List::<Expr>::Nil).len() == 0);
                                assert(list_view(
                                    List::Cons(closure_builder, Box::new(List::<Expr>::Nil)),
                                ).len() == 1);
                                assert(wf2_list(List::<Expr>::Nil, n, gs3));
                                assert(wf2_list(List::<Expr>::Nil, n + 1, gs3));
                                assert(wf2(Expr::Var(DebruijnIndex(0)), n + 1, gs3));
                                assert(wf2(
                                    Expr::CallIndirect(
                                        Box::new(Expr::Var(DebruijnIndex(0))),
                                        Box::new(List::Nil),
                                    ),
                                    n + 1,
                                    gs3,
                                ));
                                assert(wf2(
                                    Expr::CallIndirect(
                                        Box::new(
                                            Expr::CallIndirect(
                                                Box::new(Expr::Var(DebruijnIndex(0))),
                                                Box::new(List::Nil),
                                            ),
                                        ),
                                        Box::new(List::Nil),
                                    ),
                                    n + 1,
                                    gs3,
                                ));
                                assert(wf2_list(
                                    List::Cons(closure_builder, Box::new(List::<Expr>::Nil)),
                                    n,
                                    gs3,
                                ));
                                assert(wf2(r, n, gs3));
                                if globals_wf(gs0) {
                                    assert(gs2 == gs1.push(d_inner));
                                    lemma_wf2_mono(bodyt, mp + 1, gs1, gs2);
                                    assert(global_wf(d_inner, gs2));
                                    lemma_globals_wf_push(gs1, d_inner);
                                    assert(global_wf(d_builder, gs3)) by {
                                        lemma_vars_of_wf(inner_used, mp + 1, gs3);
                                    }
                                    lemma_globals_wf_push(gs2, d_builder);
                                }
                            }
                        }
                        r
                    },
                    None => {
                        proof {
                            assert(false);
                        }
                        Expr::Var(DebruijnIndex(0))
                    },
                }
            },
            ir1::Expr::LetIn(e1, e2) => {
                let ghost gs0 = self.globals@;
                let e1t = self.translate(e1);
                let ghost gs1 = self.globals@;
                let e2t = self.translate(e2);
                let ghost gs2 = self.globals@;
                let r = Expr::Let(
                    Box::new(List::Cons(e1t, Box::new(List::Nil))),
                    Box::new(e2t),
                );
                proof {
                    assert(gs_prefix(gs0, gs2));
                    assert forall|n: nat| #[trigger]
                        wf1(*expr, n, gs0.len() as nat) implies (wf2(r, n, gs2) && (globals_wf(
                        gs0,
                    ) ==> globals_wf(gs2))) by {
                        assert(wf1(**e1, n, gs0.len() as nat));
                        assert(wf1(**e2, n + 1, gs0.len() as nat));
                        lemma_wf1_mono(**e2, n + 1, gs0.len() as nat, gs1.len() as nat);
                        lemma_wf2_mono(e1t, n, gs1, gs2);
                        assert(list_view(List::<Expr>::Nil).len() == 0);
                        assert(list_view(List::Cons(e1t, Box::new(List::<Expr>::Nil))).len()
                            == 1);
                        assert(wf2_list(List::<Expr>::Nil, n, gs2));
                        assert(wf2_list(List::Cons(e1t, Box::new(List::<Expr>::Nil)), n, gs2));
                    }
                }
                r
            },
            ir1::Expr::If(e0, e1, e2) => {
                let ghost gs0 = self.globals@;
                let e0t = self.translate(e0);
                let ghost gs1 = self.globals@;
                let e1t = self.translate(e1);
                let ghost gs2 = self.globals@;
                let e2t = self.translate(e2);
                let ghost gs3 = self.globals@;
                let r = Expr::If(Box::new(e0t), Box::new(e1t), Box::new(e2t));
                proof {
                    assert(gs_prefix(gs0, gs3));
                    assert forall|n: nat| #[trigger]
                        wf1(*expr, n, gs0.len() as nat) implies (wf2(r, n, gs3) && (globals_wf(
                        gs0,
                    ) ==> globals_wf(gs3))) by {
                        assert(wf1(**e0, n, gs0.len() as nat));
                        assert(wf1(**e1, n, gs0.len() as nat));
                        assert(wf1(**e2, n, gs0.len() as nat));
                        lemma_wf1_mono(**e1, n, gs0.len() as nat, gs1.len() as nat);
                        lemma_wf1_mono(**e2, n, gs0.len() as nat, gs2.len() as nat);
                        lemma_wf2_mono(e0t, n, gs1, gs3);
                        lemma_wf2_mono(e1t, n, gs2, gs3);
                    }
                }
                r
            },
            ir1::Expr::Con(con, args) => {
                let ghost gs0 = self.globals@;
                let filled = self.build_constructor(*con, args);
                let r = Expr::Op(Op::AllocAndFill, Box::new(filled));
                proof {
                    assert forall|n: nat| #[trigger]
                        wf1(*expr, n, gs0.len() as nat) implies (wf2(r, n, self.globals@) && (
                    globals_wf(gs0) ==> globals_wf(self.globals@))) by {
                        assert(wf1_list(**args, n, gs0.len() as nat));
                    }
                }
                r
            },
            ir1::Expr::Op(op, args) => {
                let ghost gs0 = self.globals@;
                let argst = self.translate_list(args);
                let r = Expr::Op(*op, Box::new(argst));
                proof {
                    assert forall|n: nat| #[trigger]
                        wf1(*expr, n, gs0.len() as nat) implies (wf2(r, n, self.globals@) && (
                    globals_wf(gs0) ==> globals_wf(self.globals@))) by {
                        assert(wf1_list(**args, n, gs0.len() as nat));
                        assert(op_wf2(*op, list_view(argst).len(), self.globals@));
                    }
                }
                r
            },
            ir1::Expr::Delay(used, body) => {
                match used {
                    Some(u) => self.build_new_closure(false, 0, u, body),
                    None => {
                        proof {
                            assert(false);
                        }
                        Expr::Var(DebruijnIndex(0))
                    },
                }
            },
            ir1::Expr::Adv(e1) => {
                let ghost gs0 = self.globals@;
                let e1t = self.translate(e1);
                let r = Expr::Op(
                    Op::Advance,
                    Box::new(List::Cons(e1t, Box::new(List::Nil))),
                );
                proof {
                    assert forall|n: nat| #[trigger]
                        wf1(*expr, n, gs0.len() as nat) implies (wf2(r, n, self.globals@) && (
                    globals_wf(gs0) ==> globals_wf(self.globals@))) by {
                        assert(wf1(**e1, n, gs0.len() as nat));
                        assert(wf2_list(List::<Expr>::Nil, n, self.globals@));
                        assert(wf2_list(
                            List::Cons(e1t, Box::new(List::<Expr>::Nil)),
                            n,
                            self.globals@,
                        ));
                    }
                }
                r
            },
        }
    }
}

} // verus!
