use lambdalisten::expr::Value;
use lambdalisten::ir1;
use lambdalisten::ir1::{Con, DebruijnIndex, Global, Op};
use lambdalisten::ir2::{Expr, GlobalDef, Translator};
use lambdalisten::list::List;

fn used(ixs: &[u32]) -> Option<List<DebruijnIndex>> {
    let mut l = List::Nil;
    for &i in ixs.iter().rev() {
        l = List::Cons(DebruijnIndex(i), Box::new(l));
    }
    Some(l)
}

fn list_len(mut l: &List<Expr>) -> usize {
    let mut n = 0;
    while let List::Cons(_, rest) = l {
        n += 1;
        l = rest;
    }
    n
}

#[test]
fn lambda_becomes_a_closure_over_its_environment() {
    // \. var 1, capturing one outer variable
    let lam = ir1::Expr::Lam(
        used(&[0]),
        1,
        Box::new(ir1::Expr::Var(DebruijnIndex(1))),
    );
    let mut tr = Translator { globals: Vec::new() };
    let r = tr.translate(&lam);
    assert_eq!(tr.globals.len(), 1);
    match &tr.globals[0] {
        GlobalDef::Func { rec, arity, env_size, body } => {
            assert!(!rec);
            assert_eq!(*arity, 1);
            assert_eq!(*env_size, 1);
            assert_eq!(body, &Expr::Var(DebruijnIndex(1)));
        },
        other => panic!("expected a function global, got {:?}", other),
    }
    // the closure passes exactly env_size environment values
    match r {
        Expr::Op(Op::BuildClosure(Global(0)), args) => {
            assert_eq!(list_len(&args), 1);
        },
        other => panic!("expected a closure construction, got {:?}", other),
    }
}

#[test]
fn lob_builds_a_recursive_builder_and_forces_it_twice() {
    let lob = ir1::Expr::Lob(used(&[0]), Box::new(ir1::Expr::Var(DebruijnIndex(1))));
    let mut tr = Translator { globals: Vec::new() };
    let r = tr.translate(&lob);
    assert_eq!(tr.globals.len(), 2);
    match &tr.globals[0] {
        GlobalDef::Func { rec, arity, env_size, .. } => {
            assert!(!rec);
            assert_eq!(*arity, 0);
            // the inner closure captures the environment and the
            // builder's self slot
            assert_eq!(*env_size, 2);
        },
        other => panic!("expected the inner function, got {:?}", other),
    }
    match &tr.globals[1] {
        GlobalDef::Func { rec, arity, env_size, body } => {
            assert!(*rec);
            assert_eq!(*arity, 0);
            assert_eq!(*env_size, 1);
            // the builder's body allocates the inner closure over
            // exactly its environment size
            match body {
                Expr::Op(Op::BuildClosure(Global(0)), args) => {
                    assert_eq!(list_len(args), 2);
                },
                other => panic!("expected the inner closure, got {:?}", other),
            }
        },
        other => panic!("expected the builder, got {:?}", other),
    }
    assert!(matches!(r, Expr::Let(_, _)));
}

#[test]
fn sum_injections_prepend_their_discriminant() {
    let inl = ir1::Expr::Con(
        Con::InL,
        Box::new(List::Cons(
            ir1::Expr::Val(Value::Index(7)),
            Box::new(List::Nil),
        )),
    );
    let mut tr = Translator { globals: Vec::new() };
    let r = tr.translate(&inl);
    match r {
        Expr::Op(Op::AllocAndFill, parts) => {
            assert_eq!(list_len(&parts), 2);
            match *parts {
                List::Cons(Expr::Op(Op::Const(Value::Index(0)), _), _) => {},
                other => panic!("expected a discriminant first, got {:?}", other),
            }
        },
        other => panic!("expected an allocation, got {:?}", other),
    }
}

#[test]
fn application_becomes_an_indirect_call() {
    let app = ir1::Expr::App(
        Box::new(ir1::Expr::Var(DebruijnIndex(0))),
        Box::new(List::Cons(ir1::Expr::Val(Value::Unit), Box::new(List::Nil))),
    );
    let mut tr = Translator { globals: Vec::new() };
    let r = tr.translate(&app);
    match r {
        Expr::CallIndirect(f, args) => {
            assert_eq!(*f, Expr::Var(DebruijnIndex(0)));
            assert_eq!(list_len(&args), 1);
        },
        other => panic!("expected an indirect call, got {:?}", other),
    }
    assert_eq!(tr.globals.len(), 0);
}

#[test]
fn global_defs_report_their_arity() {
    let f = GlobalDef::Func {
        rec: false,
        arity: 2,
        env_size: 0,
        body: Expr::Var(DebruijnIndex(0)),
    };
    assert_eq!(f.arity(), Some(2));
    let c = GlobalDef::ClosedExpr { body: Expr::Var(DebruijnIndex(0)) };
    assert_eq!(c.arity(), None);
}
