use lambdalisten::clock::{Clock, Coeff};
use lambdalisten::expr::{Expr, Symbol, Value};
use lambdalisten::typing::{ArraySize, Ctx, Globals, Type, TypeError, Typechecker, meet, subtype};

fn s(i: u32) -> Symbol {
    Symbol(i)
}

fn clk(num: u32, den: u32, var: u32) -> Clock {
    Clock { coeff: Coeff { num, den }, var: Symbol(var) }
}

fn checker() -> Typechecker {
    Typechecker { globals: Globals::new() }
}

fn unit_ty() -> Type {
    Type::Unit
}

fn arrow(a: Type, b: Type) -> Type {
    Type::Function(Box::new(a), Box::new(b))
}

fn identity_lam() -> Expr<()> {
    Expr::Lam((), s(0), Box::new(Expr::Var((), s(0))))
}

fn annotate(e: Expr<()>, t: Type) -> Expr<()> {
    Expr::Annotate((), Box::new(e), t)
}

fn sample_lit() -> Expr<()> {
    Expr::Val((), Value::Sample(1.5f32.to_bits()))
}

fn index_lit(n: usize) -> Expr<()> {
    Expr::Val((), Value::Index(n))
}

#[test]
fn try_out() {
    let e = Expr::Annotate((), Box::new(Expr::Val((), Value::Unit)), Type::Unit);
    let checker = checker();
    assert_eq!(checker.synthesize(&Ctx::Empty, &e).unwrap(), Type::Unit);
}

#[test]
fn test_fn() {
    let e = Expr::Lam((), s(0), Box::new(Expr::Var((), s(0))));
    let checker = checker();
    assert!(checker
        .check(&Ctx::Empty, &e, &arrow(Type::Unit, Type::Unit))
        .is_ok());
    assert!(checker
        .check(&Ctx::Empty, &e, &arrow(Type::Index, Type::Unit))
        .is_err());
}

#[test]
fn annotated_identity_at_wrong_type_reports_mismatch() {
    // (\x. x) : index -> unit
    let e = annotate(identity_lam(), arrow(Type::Index, unit_ty()));
    let r = checker().synthesize(&Ctx::Empty, &e);
    match r {
        Err(TypeError::BadAnnotation { err, .. }) => {
            assert!(matches!(*err, TypeError::MismatchingTypes { .. }));
        },
        other => panic!("expected a bad annotation, got {:?}", other),
    }
}

#[test]
fn annotated_identity_synthesizes_its_annotation() {
    // (\x. x) : sample -> sample
    let e = annotate(identity_lam(), arrow(Type::Sample, Type::Sample));
    let r = checker().synthesize(&Ctx::Empty, &e).unwrap();
    assert_eq!(r, arrow(Type::Sample, Type::Sample));
}

#[test]
fn unknown_variable_is_reported() {
    // (\x. y) : sample -> sample
    let e = annotate(
        Expr::Lam((), s(0), Box::new(Expr::Var((), s(1)))),
        arrow(Type::Sample, Type::Sample),
    );
    let r = checker().synthesize(&Ctx::Empty, &e);
    match r {
        Err(TypeError::BadAnnotation { err, .. }) => match *err {
            TypeError::VariableNotFound { var, .. } => assert_eq!(var, s(1)),
            other => panic!("expected a missing variable, got {:?}", other),
        },
        other => panic!("expected a bad annotation, got {:?}", other),
    }
}

#[test]
fn index_argument_to_sample_function_is_a_bad_argument() {
    // ((\x. x) : sample -> sample) 3
    let f = annotate(identity_lam(), arrow(Type::Sample, Type::Sample));
    let e = Expr::App((), Box::new(f), Box::new(index_lit(3)));
    let r = checker().synthesize(&Ctx::Empty, &e);
    match r {
        Err(TypeError::BadArgument { arg_type, arg_err, .. }) => {
            assert_eq!(arg_type, Type::Sample);
            assert!(matches!(*arg_err, TypeError::MismatchingTypes { .. }));
        },
        other => panic!("expected a bad argument, got {:?}", other),
    }
}

#[test]
fn sample_argument_applies() {
    // ((\x. x) : sample -> sample) 1.5
    let f = annotate(identity_lam(), arrow(Type::Sample, Type::Sample));
    let e = Expr::App((), Box::new(f), Box::new(sample_lit()));
    assert_eq!(checker().synthesize(&Ctx::Empty, &e).unwrap(), Type::Sample);
}

#[test]
fn applying_a_sample_is_a_non_function_application() {
    // 1.5 2
    let e = Expr::App((), Box::new(sample_lit()), Box::new(index_lit(2)));
    let r = checker().synthesize(&Ctx::Empty, &e);
    match r {
        Err(TypeError::NonFunctionApplication { actual_type, .. }) => {
            assert_eq!(actual_type, Type::Sample);
        },
        other => panic!("expected a non-function application, got {:?}", other),
    }
}

#[test]
fn lob_gen_delay_adv_unbox_together() {
    // the guarded stream of a constant sample:
    // lob s. gen(1.5, delay(adv(unbox s))) at Stream(c, sample)
    let c = clk(1, 1, 7);
    let stream_ty = Type::Stream(c, Box::new(Type::Sample));
    let tail = Expr::Delay(
        (),
        Box::new(Expr::Adv(
            (),
            Box::new(Expr::Unbox((), Box::new(Expr::Var((), s(0))))),
        )),
    );
    let body = Expr::Gen((), Box::new(sample_lit()), Box::new(tail));
    let e = Expr::Lob((), c, s(0), Box::new(body));
    assert!(checker().check(&Ctx::Empty, &e, &stream_ty).is_ok());
}

#[test]
fn subtype_is_reflexive_on_a_modal_type() {
    let t = Type::Later(
        clk(1, 2, 3),
        Box::new(Type::Stream(clk(2, 1, 3), Box::new(Type::Sample))),
    );
    assert!(subtype(&Ctx::Empty, &t, &t));
}

#[test]
fn subtype_arrow_is_contravariant() {
    // later(1/2) <= later(1) over a shared variable after uncompose,
    // so the arrows compare the other way around on arguments
    let fast = Type::Later(clk(1, 2, 3), Box::new(Type::Sample));
    let slow = Type::Later(
        clk(1, 1, 3),
        Box::new(Type::Later(clk(1, 1, 3), Box::new(Type::Sample))),
    );
    assert!(subtype(&Ctx::Empty, &fast, &slow));
    let f1 = arrow(slow_clone(), Type::Sample);
    let f2 = arrow(fast_clone(), Type::Sample);
    assert!(subtype(&Ctx::Empty, &f1, &f2));
    // an arrow over an incomparable argument clock does not compare
    let f3 = arrow(Type::Later(clk(1, 2, 4), Box::new(Type::Sample)), Type::Sample);
    assert!(!subtype(&Ctx::Empty, &f1, &f3));
}

fn fast_clone() -> Type {
    Type::Later(clk(1, 2, 3), Box::new(Type::Sample))
}

fn slow_clone() -> Type {
    Type::Later(
        clk(1, 1, 3),
        Box::new(Type::Later(clk(1, 1, 3), Box::new(Type::Sample))),
    )
}

#[test]
fn subtype_is_transitive_on_a_later_chain() {
    let a = fast_clone();
    let b = slow_clone();
    let c = slow_clone();
    assert!(subtype(&Ctx::Empty, &a, &b));
    assert!(subtype(&Ctx::Empty, &b, &c));
    assert!(subtype(&Ctx::Empty, &a, &c));
}

#[test]
fn clock_uncompose_drives_later_subtyping() {
    // 1/2 against 1 over a shared variable leaves remainder 1
    let c1 = clk(1, 2, 3);
    let c2 = clk(1, 1, 3);
    let rem = c1.uncompose(&c2).unwrap();
    assert_eq!(rem, clk(1, 1, 3));
    // over different variables there is no remainder
    assert!(clk(1, 2, 3).uncompose(&clk(1, 1, 4)).is_none());
    // against a faster clock there is no remainder either
    assert!(clk(1, 1, 3).uncompose(&clk(1, 2, 3)).is_none());
}

#[test]
fn boxes_only_compare_to_boxes() {
    let t = Type::Box(Box::new(Type::Sample));
    assert!(!subtype(&Ctx::Empty, &t, &Type::Sample));
    assert!(subtype(&Ctx::Empty, &t, &Type::Box(Box::new(Type::Sample))));
}

#[test]
fn unboxing_needs_no_tick() {
    // the boxed binding stays usable under a tick, and unboxes there
    let ctx = Ctx::Tick(
        clk(1, 1, 5),
        Box::new(Ctx::Var(s(0), Type::Box(Box::new(Type::Sample)), Box::new(Ctx::Empty))),
    );
    let e = Expr::Unbox((), Box::new(Expr::Var((), s(0))));
    assert_eq!(checker().synthesize::<()>(&ctx, &e).unwrap(), Type::Sample);
}

#[test]
fn forcing_without_a_tick_fails() {
    let e = Expr::Adv((), Box::new(Expr::Var((), s(0))));
    let r = checker().synthesize::<()>(&Ctx::Empty, &e);
    assert!(matches!(r, Err(TypeError::ForcingWithNoTick { .. })));
}

#[test]
fn forcing_matches_the_innermost_tick_clock() {
    let mut globals = Globals::new();
    globals.insert(s(9), Type::Later(clk(1, 1, 3), Box::new(Type::Sample)));
    let tc = Typechecker { globals };
    let e = Expr::Adv((), Box::new(Expr::Var((), s(9))));
    // matching clock: the later type opens
    let good = Ctx::Tick(clk(2, 2, 3), Box::new(Ctx::Empty));
    assert_eq!(tc.synthesize::<()>(&good, &e).unwrap(), Type::Sample);
    // tick on another variable: mismatching clocks
    let bad = Ctx::Tick(clk(1, 1, 4), Box::new(Ctx::Empty));
    assert!(matches!(
        tc.synthesize::<()>(&bad, &e),
        Err(TypeError::ForcingMismatchingClock { .. })
    ));
}

#[test]
fn synthesis_result_checks_back() {
    // synthesis is a right inverse of checking, on a concrete program
    let f = annotate(identity_lam(), arrow(Type::Sample, Type::Sample));
    let e = Expr::App((), Box::new(f), Box::new(sample_lit()));
    let tc = checker();
    let t = tc.synthesize(&Ctx::Empty, &e).unwrap();
    assert!(tc.check(&Ctx::Empty, &e, &t).is_ok());
}

#[test]
fn timed_use_of_an_unstable_binding_is_rejected() {
    let ctx = Ctx::Tick(
        clk(1, 1, 5),
        Box::new(Ctx::Var(s(0), arrow(Type::Unit, Type::Unit), Box::new(Ctx::Empty))),
    );
    let e = Expr::Var((), s(0));
    let r = checker().synthesize::<()>(&ctx, &e);
    match r {
        Err(TypeError::VariableTimingBad { var, .. }) => assert_eq!(var, s(0)),
        other => panic!("expected a timing error, got {:?}", other),
    }
}

#[test]
fn stable_binding_survives_a_tick() {
    let ctx = Ctx::Tick(
        clk(1, 1, 5),
        Box::new(Ctx::Var(s(0), Type::Sample, Box::new(Ctx::Empty))),
    );
    let e = Expr::Var((), s(0));
    assert_eq!(checker().synthesize::<()>(&ctx, &e).unwrap(), Type::Sample);
}

#[test]
fn synthesis_unsupported_for_a_bare_lambda() {
    let r = checker().synthesize(&Ctx::Empty, &identity_lam());
    assert!(matches!(r, Err(TypeError::SynthesisUnsupported { .. })));
}

#[test]
fn let_failures_wrap_their_cause() {
    // let x = (\y. y) in x : the definition does not synthesize
    let e = Expr::LetIn(
        (),
        s(0),
        None,
        Box::new(identity_lam()),
        Box::new(Expr::Var((), s(0))),
    );
    assert!(matches!(
        checker().synthesize(&Ctx::Empty, &e),
        Err(TypeError::LetSynthFailure { .. })
    ));
    // let x : unit = 3 in x : the definition does not check
    let e2 = Expr::LetIn(
        (),
        s(0),
        Some(Type::Unit),
        Box::new(index_lit(3)),
        Box::new(Expr::Var((), s(0))),
    );
    assert!(matches!(
        checker().synthesize(&Ctx::Empty, &e2),
        Err(TypeError::LetCheckFailure { .. })
    ));
}

#[test]
fn shape_errors_are_reported() {
    let tc = checker();
    let unpair = Expr::UnPair(
        (),
        s(1),
        s(2),
        Box::new(Expr::Val((), Value::Unit)),
        Box::new(Expr::Var((), s(1))),
    );
    assert!(matches!(
        tc.synthesize(&Ctx::Empty, &unpair),
        Err(TypeError::UnPairingNonProduct { .. })
    ));
    let case = Expr::Case(
        (),
        Box::new(Expr::Val((), Value::Unit)),
        s(1),
        Box::new(Expr::Var((), s(1))),
        s(2),
        Box::new(Expr::Var((), s(2))),
    );
    assert!(matches!(
        tc.synthesize(&Ctx::Empty, &case),
        Err(TypeError::CasingNonSum { .. })
    ));
    let ungen = Expr::UnGen((), Box::new(Expr::Val((), Value::Unit)));
    assert!(matches!(
        tc.synthesize(&Ctx::Empty, &ungen),
        Err(TypeError::UnGenningNonStream { .. })
    ));
    let unbox = Expr::Unbox((), Box::new(Expr::Val((), Value::Unit)));
    assert!(matches!(
        tc.synthesize(&Ctx::Empty, &unbox),
        Err(TypeError::UnboxingNonBox { .. })
    ));
    let forced = Expr::Adv((), Box::new(sample_lit()));
    let ticked = Ctx::Tick(clk(1, 1, 5), Box::new(Ctx::Empty));
    assert!(matches!(
        tc.synthesize(&ticked, &forced),
        Err(TypeError::ForcingNonThunk { .. })
    ));
}

#[test]
fn branches_that_do_not_unify_are_reported() {
    let mut globals = Globals::new();
    globals.insert(s(9), Type::Sum(Box::new(Type::Unit), Box::new(Type::Sample)));
    let tc = Typechecker { globals };
    let e = Expr::Case(
        (),
        Box::new(Expr::Var((), s(9))),
        s(1),
        Box::new(Expr::Val((), Value::Unit)),
        s(2),
        Box::new(sample_lit()),
    );
    assert!(matches!(
        tc.synthesize::<()>(&Ctx::Empty, &e),
        Err(TypeError::CouldNotUnify { .. })
    ));
}

#[test]
fn meet_returns_the_second_comparable_branch_type() {
    assert_eq!(meet::<()>(&Ctx::Empty, fast_clone(), slow_clone()), Ok(slow_clone()));
    assert_eq!(meet::<()>(&Ctx::Empty, slow_clone(), fast_clone()), Ok(fast_clone()));
    assert!(matches!(
        meet::<()>(&Ctx::Empty, Type::Unit, Type::Sample),
        Err(TypeError::CouldNotUnify { .. })
    ));
}

#[test]
fn array_literals_check_their_size_and_elements() {
    let tc = checker();
    let two = Expr::Array(
        (),
        Box::new(lambdalisten::list::List::Cons(
            sample_lit(),
            Box::new(lambdalisten::list::List::Cons(
                sample_lit(),
                Box::new(lambdalisten::list::List::Nil),
            )),
        )),
    );
    let arr2 = Type::Array(Box::new(Type::Sample), ArraySize::from_const(2));
    let arr3 = Type::Array(Box::new(Type::Sample), ArraySize::from_const(3));
    assert!(tc.check(&Ctx::Empty, &two, &arr2).is_ok());
    assert!(matches!(
        tc.check(&Ctx::Empty, &two, &arr3),
        Err(TypeError::MismatchingArraySize { found_size: 2, .. })
    ));
}
