//! Laws of the bidirectional judgements: unboxing needs no tick, the
//! tick discipline of forcing, and synthesis as a right inverse of
//! checking.

use vstd::prelude::*;

use crate::expr::{Expr, Symbol};
use crate::subtyping::{lemma_subtype_refl, lemma_subtype_trans, sub_def, sub_m};
use crate::typing::{
    Ctx, TypeError, Type, ctx_has_tick, spec_check, spec_meet, spec_strip_tick, spec_synthesize,
    type_wf,
};

verus! {

/// A value of a boxed type may be unboxed under any context, ticks or
/// none: whenever the scrutinee synthesizes a box, the unboxing
/// synthesizes the boxed type.
pub proof fn lemma_unbox_needs_no_tick<R>(
    g: Map<Symbol, Type>,
    ctx: Ctx,
    r: R,
    e: Expr<R>,
    t: Type,
)
    requires
        spec_synthesize(g, ctx, e) == Ok::<Type, TypeError<R>>(Type::Box(Box::new(t))),
    ensures
        spec_synthesize(g, ctx, Expr::Unbox(r, Box::new(e))) == Ok::<Type, TypeError<R>>(t),
{
}

/// Tick discipline of forcing. `Adv` fails with `ForcingWithNoTick`
/// when the context holds no tick; and it succeeds only when the
/// innermost tick's clock equals, by value, the clock of the
/// synthesized later type, returning that type's body.
pub proof fn lemma_tick_discipline<R>(g: Map<Symbol, Type>, ctx: Ctx, r: R, e: Expr<R>)
    ensures
        !ctx_has_tick(ctx) ==> spec_synthesize(g, ctx, Expr::Adv(r, Box::new(e))) == Err::<
            Type,
            TypeError<R>,
        >(TypeError::ForcingWithNoTick { range: r, expr: e }),
        spec_synthesize(g, ctx, Expr::Adv(r, Box::new(e))) matches Ok(t) ==> ctx_has_tick(ctx)
            && (spec_strip_tick(ctx) matches Some(p) && spec_synthesize(g, p.1, e) matches Ok(s)
            && s matches Type::Later(c2, u) && p.0.val_eq(c2) && t == *u),
{
}

/// The side condition of `lemma_synthesize_then_check`: along the path
/// the checking judgement takes, every `meet` of two case-branch types
/// compares against the expected type without remainder-clock overflow,
/// and the branch types are well formed.
pub open spec fn meets_reach<R>(g: Map<Symbol, Type>, ctx: Ctx, e: Expr<R>, t: Type) -> bool
    decreases e,
{
    match e {
        Expr::LetIn(_, x, Option::None, e1, e2) => match spec_synthesize(g, ctx, *e1) {
            Ok(s1) => meets_reach(g, Ctx::Var(x, s1, Box::new(ctx)), *e2, t),
            Err(_) => true,
        },
        Expr::LetIn(_, x, Option::Some(s), e1, e2) => meets_reach(
            g,
            Ctx::Var(x, s, Box::new(ctx)),
            *e2,
            t,
        ),
        Expr::UnPair(_, x1, x2, e0, e1) => match spec_synthesize(g, ctx, *e0) {
            Ok(Type::Product(a, b)) => meets_reach(
                g,
                Ctx::Var(x2, *b, Box::new(Ctx::Var(x1, *a, Box::new(ctx)))),
                *e1,
                t,
            ),
            _ => true,
        },
        Expr::Case(_, e0, x1, e1, x2, e2) => match spec_synthesize(g, ctx, *e0) {
            Ok(Type::Sum(a, b)) => {
                let c1 = Ctx::Var(x1, *a, Box::new(ctx));
                let c2 = Ctx::Var(x2, *b, Box::new(ctx));
                &&& (spec_synthesize(g, c1, *e1) matches Ok(t1) ==> sub_def(t1, t) && type_wf(t1))
                &&& (spec_synthesize(g, c2, *e2) matches Ok(t2) ==> sub_def(t2, t) && type_wf(t2))
                &&& meets_reach(g, c1, *e1, t)
                &&& meets_reach(g, c2, *e2, t)
            },
            _ => true,
        },
        _ => true,
    }
}

/// When an expression synthesizes `s` and `s` is a subtype of `t`, the
/// expression checks against `t`.
proof fn lemma_check_after_synth<R>(g: Map<Symbol, Type>, ctx: Ctx, e: Expr<R>, s: Type, t: Type)
    requires
        spec_synthesize(g, ctx, e) == Ok::<Type, TypeError<R>>(s),
        sub_m(s, t),
        type_wf(t),
        meets_reach(g, ctx, e, t),
    ensures
        spec_check(g, ctx, e, t) is Ok,
    decreases e,
{
    match e {
        Expr::LetIn(r, x, t_opt, e1, e2) => {
            match t_opt {
                Option::None => {
                    match spec_synthesize(g, ctx, *e1) {
                        Ok(s1) => {
                            lemma_check_after_synth(
                                g,
                                Ctx::Var(x, s1, Box::new(ctx)),
                                *e2,
                                s,
                                t,
                            );
                        },
                        Err(_) => {},
                    }
                },
                Option::Some(sa) => {
                    if spec_check(g, ctx, *e1, sa) is Ok {
                        lemma_check_after_synth(g, Ctx::Var(x, sa, Box::new(ctx)), *e2, s, t);
                    }
                },
            }
        },
        Expr::UnPair(r, x1, x2, e0, e1) => {
            match spec_synthesize(g, ctx, *e0) {
                Ok(Type::Product(a, b)) => {
                    lemma_check_after_synth(
                        g,
                        Ctx::Var(x2, *b, Box::new(Ctx::Var(x1, *a, Box::new(ctx)))),
                        *e1,
                        s,
                        t,
                    );
                },
                _ => {},
            }
        },
        Expr::Case(r, e0, x1, e1, x2, e2) => {
            match spec_synthesize(g, ctx, *e0) {
                Ok(Type::Sum(a, b)) => {
                    let c1 = Ctx::Var(x1, *a, Box::new(ctx));
                    let c2 = Ctx::Var(x2, *b, Box::new(ctx));
                    match spec_synthesize(g, c1, *e1) {
                        Ok(t1) => {
                            match spec_synthesize(g, c2, *e2) {
                                Ok(t2) => {
                                    if spec_meet::<R>(t1, t2) is Ok {
                                        // the meet is one of the branch
                                        // types; carry each branch type
                                        // over to the expected type
                                        if sub_m(t1, t2) {
                                            lemma_subtype_trans(t1, t2, t);
                                        } else {
                                            lemma_subtype_trans(t2, t1, t);
                                        }
                                        lemma_check_after_synth(g, c1, *e1, t1, t);
                                        lemma_check_after_synth(g, c2, *e2, t2, t);
                                    }
                                },
                                Err(_) => {},
                            }
                        },
                        Err(_) => {},
                    }
                },
                _ => {},
            }
        },
        _ => {},
    }
}

/// Synthesis is a right inverse of checking: when an expression
/// synthesizes `t`, it checks against `t`. The `meets_reach` side
/// condition asks that the case-branch meets along the way compare
/// against `t` without remainder-clock overflow.
pub proof fn lemma_synthesize_then_check<R>(g: Map<Symbol, Type>, ctx: Ctx, e: Expr<R>, t: Type)
    requires
        spec_synthesize(g, ctx, e) == Ok::<Type, TypeError<R>>(t),
        type_wf(t),
        meets_reach(g, ctx, e, t),
    ensures
        spec_check(g, ctx, e, t) is Ok,
{
    lemma_subtype_refl(t);
    lemma_check_after_synth(g, ctx, e, t, t);
}

} // verus!
