use lambdalisten::clock::{Clock, Coeff};
use lambdalisten::expr::{Binop, Expr, Symbol, TopLevelDefBody, TopLevelDefKind, Value};
use lambdalisten::list::{List, list_from_vec};
use lambdalisten::typing::{ArraySize, Type};

use std::cmp::Ordering;

#[test]
fn comparisons_are_comparisons_and_arithmetic_is_not() {
    assert!(Binop::FGt.is_cmp());
    assert!(Binop::ILe.is_cmp());
    assert!(Binop::INe.is_cmp());
    assert!(!Binop::FAdd.is_cmp());
    assert!(!Binop::Shl.is_cmp());
    assert!(!Binop::IMul.is_cmp());
}

#[test]
fn map_ext_replaces_every_range() {
    let e: Expr<u32> = Expr::App(
        7,
        Box::new(Expr::Lam(3, Symbol(0), Box::new(Expr::Var(1, Symbol(0))))),
        Box::new(Expr::Val(2, Value::Index(4))),
    );
    let mapped: Expr<()> = e.map_ext(&|_r: u32| ());
    let expected: Expr<()> = Expr::App(
        (),
        Box::new(Expr::Lam((), Symbol(0), Box::new(Expr::Var((), Symbol(0))))),
        Box::new(Expr::Val((), Value::Index(4))),
    );
    assert_eq!(mapped, expected);
}

#[test]
fn map_ext_can_shift_ranges() {
    let e: Expr<u32> = Expr::Adv(10, Box::new(Expr::Var(20, Symbol(5))));
    let mapped: Expr<u32> = e.map_ext(&|r: u32| r.wrapping_add(1));
    assert_eq!(mapped, Expr::Adv(11, Box::new(Expr::Var(21, Symbol(5)))));
}

#[test]
fn range_returns_the_topmost_payload() {
    let e: Expr<u32> = Expr::Pair(
        42,
        Box::new(Expr::Val(1, Value::Unit)),
        Box::new(Expr::Val(2, Value::Unit)),
    );
    assert_eq!(*e.range(), 42);
}

#[test]
fn array_sizes_are_concrete() {
    let n = ArraySize::from_const(5);
    assert_eq!(n.as_const(), Some(5));
    assert_eq!(ArraySize::from_const(5), n);
}

#[test]
fn clock_ordering_goes_by_value_over_a_shared_variable() {
    let half = Clock { coeff: Coeff { num: 1, den: 2 }, var: Symbol(3) };
    let one = Clock { coeff: Coeff { num: 2, den: 2 }, var: Symbol(3) };
    let other = Clock { coeff: Coeff { num: 1, den: 2 }, var: Symbol(4) };
    assert_eq!(half.partial_cmp(&one), Some(Ordering::Less));
    assert_eq!(one.partial_cmp(&half), Some(Ordering::Greater));
    assert_eq!(
        one.partial_cmp(&Clock { coeff: Coeff { num: 1, den: 1 }, var: Symbol(3) }),
        Some(Ordering::Equal)
    );
    assert_eq!(half.partial_cmp(&other), None);
}

#[test]
fn stability_of_types() {
    assert!(Type::Unit.is_stable());
    assert!(Type::Sample.is_stable());
    assert!(Type::Box(Box::new(Type::Function(
        Box::new(Type::Unit),
        Box::new(Type::Unit)
    )))
    .is_stable());
    assert!(!Type::Function(Box::new(Type::Unit), Box::new(Type::Unit)).is_stable());
    let c = Clock { coeff: Coeff { num: 1, den: 1 }, var: Symbol(0) };
    assert!(!Type::Stream(c, Box::new(Type::Sample)).is_stable());
    assert!(!Type::Later(c, Box::new(Type::Sample)).is_stable());
    assert!(Type::Product(Box::new(Type::Sample), Box::new(Type::Index)).is_stable());
    assert!(!Type::Sum(Box::new(Type::Sample), Box::new(Type::Later(c, Box::new(Type::Unit))))
        .is_stable());
}

#[test]
fn lists_count_and_compare_their_elements() {
    let l = list_from_vec(&vec![1u32, 2, 3]);
    assert_eq!(l.len(), 3);
    assert!(l.matches_len(3));
    assert!(!l.matches_len(2));
    assert_eq!(
        l,
        List::Cons(1, Box::new(List::Cons(2, Box::new(List::Cons(3, Box::new(List::Nil))))))
    );
    let empty: List<u32> = List::Nil;
    assert_eq!(empty.len(), 0);
}

#[test]
fn top_level_bodies_expose_their_parts() {
    let body: TopLevelDefBody<()> = TopLevelDefBody::Def {
        kind: TopLevelDefKind::Let,
        type_: Type::Sample,
        expr: Expr::Val((), Value::Sample(0.25f32.to_bits())),
    };
    assert_eq!(body.get_type(), Some(&Type::Sample));
    assert!(body.get_expr().is_some());
    let clock_body: TopLevelDefBody<()> = TopLevelDefBody::Clock { freq: 48000.0f32.to_bits() };
    assert_eq!(clock_body.get_type(), None);
    assert!(clock_body.get_expr().is_none());
}
