use lambda::analysis::{eval, Data, LambdaAnalysis, MergeReport};
use lambda::lang::{Lambda, Literal};
use lambda::rules::{is_const, CaptureAvoid, CaptureChoice, PatVar};
use lambda::fresh::fresh_symbol;

fn make(node: Lambda, kids: Vec<Data>) -> Data {
    LambdaAnalysis::make(&node, &kids)
}

fn lit(n: i32) -> Data {
    make(Lambda::Num(n), vec![])
}

fn sym(s: &str) -> Data {
    make(Lambda::Symbol(s.to_string()), vec![])
}

fn free_of(d: &Data) -> Vec<u32> {
    let mut out = Vec::new();
    for i in 0..64u32 {
        if d.free().contains(i) {
            out.push(i);
        }
    }
    assert_eq!(out.len(), d.free().len());
    out
}

#[test]
fn num_reads_integer_literals() {
    assert_eq!(Lambda::Num(7).num(), Some(7));
    assert_eq!(Lambda::Num(-3).num(), Some(-3));
    assert_eq!(Lambda::Bool(true).num(), None);
    assert_eq!(Lambda::Var(1).num(), None);
}

#[test]
fn children_in_order() {
    assert_eq!(Lambda::Let([4, 5, 6]).children(), vec![4, 5, 6]);
    assert_eq!(Lambda::Var(9).children(), vec![9]);
    assert_eq!(Lambda::Symbol("x".to_string()).children(), Vec::<u32>::new());
    assert_eq!(Lambda::If([1, 2, 3]).arity(), 3);
    assert_eq!(Lambda::App([1, 2]).arity(), 2);
}

#[test]
fn two_plus_two_folds_to_four() {
    let d = make(Lambda::Add([0, 1]), vec![lit(2), lit(2)]);
    assert_eq!(d.constant(), Some(Literal::Num(4)));
}

#[test]
fn three_equals_three_folds_to_true() {
    let d = make(Lambda::Eq([0, 1]), vec![lit(3), lit(3)]);
    assert_eq!(d.constant(), Some(Literal::Bool(true)));
    let d = make(Lambda::Eq([0, 1]), vec![lit(3), lit(4)]);
    assert_eq!(d.constant(), Some(Literal::Bool(false)));
}

#[test]
fn equality_compares_values_across_kinds() {
    let t = make(Lambda::Bool(true), vec![]);
    let d = make(Lambda::Eq([0, 1]), vec![lit(1), t]);
    assert_eq!(d.constant(), Some(Literal::Bool(false)));
}

#[test]
fn nested_sum_folds() {
    let inner = make(Lambda::Add([0, 1]), vec![lit(40), lit(-38)]);
    let d = make(Lambda::Add([2, 3]), vec![inner, lit(1)]);
    assert_eq!(d.constant(), Some(Literal::Num(3)));
}

#[test]
fn addition_needs_two_integers() {
    let t = make(Lambda::Bool(true), vec![]);
    let d = make(Lambda::Add([0, 1]), vec![lit(1), t]);
    assert_eq!(d.constant(), None);
    let v = make(Lambda::Var(5), vec![sym("x")]);
    let d = make(Lambda::Add([0, 1]), vec![lit(1), v]);
    assert_eq!(d.constant(), None);
}

#[test]
fn overflowing_sum_does_not_fold() {
    let d = make(Lambda::Add([0, 1]), vec![lit(i32::MAX), lit(1)]);
    assert_eq!(d.constant(), None);
    let d = make(Lambda::Add([0, 1]), vec![lit(i32::MIN), lit(i32::MAX)]);
    assert_eq!(d.constant(), Some(Literal::Num(-1)));
}

#[test]
fn eval_alone_folds_literals() {
    assert_eq!(eval(&Lambda::Num(12), &vec![]), Some(Literal::Num(12)));
    assert_eq!(eval(&Lambda::Bool(false), &vec![]), Some(Literal::Bool(false)));
    assert_eq!(eval(&Lambda::App([0, 1]), &vec![lit(1), lit(2)]), None);
}

#[test]
fn abstraction_binds_its_variable() {
    // class 0: the name x; class 1: (var x)
    let var_x = make(Lambda::Var(0), vec![sym("x")]);
    assert_eq!(free_of(&var_x), vec![0]);
    let abs = make(Lambda::Lambda([0, 1]), vec![sym("x"), var_x]);
    assert_eq!(free_of(&abs), Vec::<u32>::new());
}

#[test]
fn abstraction_keeps_other_variables_free() {
    // class 0: x; class 1: y; class 2: (var y)
    let var_y = make(Lambda::Var(1), vec![sym("y")]);
    let abs = make(Lambda::Lambda([0, 2]), vec![sym("x"), var_y]);
    assert_eq!(free_of(&abs), vec![1]);
}

#[test]
fn let_frees_bound_expression_variables() {
    // class 0: x; class 1: y; class 2: (var y); class 3: (var x)
    let var_y = make(Lambda::Var(1), vec![sym("y")]);
    let var_x = make(Lambda::Var(0), vec![sym("x")]);
    let d = make(Lambda::Let([0, 2, 3]), vec![sym("x"), var_y, var_x]);
    assert_eq!(free_of(&d), vec![1]);
}

#[test]
fn let_keeps_binder_free_in_bound_expression() {
    // (let x (var x) (var x)): the bound expression's x stays free
    let d = make(
        Lambda::Let([0, 1, 1]),
        vec![sym("x"), make(Lambda::Var(0), vec![sym("x")]), make(Lambda::Var(0), vec![sym("x")])],
    );
    assert_eq!(free_of(&d), vec![0]);
}

#[test]
fn fix_binds_its_variable() {
    let body = make(Lambda::Add([3, 4]), vec![make(Lambda::Var(0), vec![sym("f")]), make(Lambda::Var(1), vec![sym("n")])]);
    let d = make(Lambda::Fix([0, 5]), vec![sym("f"), body]);
    assert_eq!(free_of(&d), vec![1]);
}

#[test]
fn other_nodes_union_children() {
    let a = make(Lambda::Var(2), vec![sym("a")]);
    let b = make(Lambda::Var(3), vec![sym("b")]);
    let c = make(Lambda::Var(2), vec![sym("a")]);
    let d = make(Lambda::If([10, 11, 12]), vec![a, b, c]);
    assert_eq!(free_of(&d), vec![2, 3]);
    assert_eq!(d.constant(), None);
}

#[test]
fn add_operands_commute_in_data() {
    let x = make(Lambda::Var(1), vec![sym("x")]);
    let ab = make(Lambda::Add([5, 6]), vec![x.clone(), lit(4)]);
    let ba = make(Lambda::Add([6, 5]), vec![lit(4), x]);
    assert_eq!(free_of(&ab), free_of(&ba));
    assert_eq!(ab.constant(), ba.constant());
    let ab = make(Lambda::Add([5, 6]), vec![lit(9), lit(4)]);
    let ba = make(Lambda::Add([6, 5]), vec![lit(4), lit(9)]);
    assert_eq!(ab.constant(), ba.constant());
    assert_eq!(ab.constant(), Some(Literal::Num(13)));
}

#[test]
fn merge_intersects_distinct_free_sets() {
    // Merging is an intersection, not a union: {1, 2} with {2, 3} gives {2}.
    let a = LambdaAnalysis;
    let mut to = make(Lambda::Add([7, 8]), vec![make(Lambda::Var(1), vec![sym("p")]), make(Lambda::Var(2), vec![sym("q")])]);
    let from = make(Lambda::Add([7, 8]), vec![make(Lambda::Var(2), vec![sym("q")]), make(Lambda::Var(3), vec![sym("r")])]);
    let r = a.merge(&mut to, from);
    assert_eq!(free_of(&to), vec![2]);
    assert_eq!(r, MergeReport { to_changed: true, from_changed: true });
}

#[test]
fn merge_of_equal_data_reports_nothing() {
    let a = LambdaAnalysis;
    let mut to = lit(5);
    let r = a.merge(&mut to, lit(5));
    assert_eq!(r, MergeReport { to_changed: false, from_changed: false });
    assert_eq!(to.constant(), Some(Literal::Num(5)));
}

#[test]
fn merge_adopts_missing_constant() {
    let a = LambdaAnalysis;
    let mut to = make(Lambda::App([0, 1]), vec![lit(1), lit(2)]);
    let r = a.merge(&mut to, lit(8));
    assert_eq!(to.constant(), Some(Literal::Num(8)));
    assert_eq!(r, MergeReport { to_changed: true, from_changed: false });
}

#[test]
fn merge_keeps_first_constant() {
    let a = LambdaAnalysis;
    let mut to = lit(1);
    let r = a.merge(&mut to, lit(2));
    assert_eq!(to.constant(), Some(Literal::Num(1)));
    assert_eq!(r, MergeReport { to_changed: false, from_changed: true });
    let mut to = lit(1);
    let r = a.merge(&mut to, make(Lambda::App([0, 1]), vec![lit(1), lit(2)]));
    assert_eq!(to.constant(), Some(Literal::Num(1)));
    assert_eq!(r, MergeReport { to_changed: false, from_changed: true });
}

#[test]
fn modify_offers_the_constant_node() {
    assert_eq!(LambdaAnalysis::modify(&lit(3)), Some(Lambda::Num(3)));
    let t = make(Lambda::Eq([0, 1]), vec![lit(2), lit(2)]);
    assert_eq!(LambdaAnalysis::modify(&t), Some(Lambda::Bool(true)));
    assert_eq!(LambdaAnalysis::modify(&make(Lambda::Var(0), vec![sym("x")])), None);
}

#[test]
fn let_const_condition_ignores_bound_expression() {
    assert!(is_const(&lit(5)));
    assert!(is_const(&make(Lambda::Bool(false), vec![])));
    assert!(!is_const(&make(Lambda::Var(0), vec![sym("e")])));
}

fn capture() -> CaptureAvoid {
    let v = |s: &str| PatVar { name: s.to_string() };
    CaptureAvoid {
        fresh: v("?fresh"),
        v2: v("?v2"),
        e: v("?e"),
        if_not_free: "(lam ?v2 (let ?v1 ?e ?body))".to_string(),
        if_free: "(lam ?fresh (let ?v1 ?e (let ?v2 (var ?fresh) ?body)))".to_string(),
    }
}

#[test]
fn capture_renames_when_binder_free_in_substitute() {
    // (let x (var y) (lam y (var x))): y (class 1) is free in (var y)
    let e = make(Lambda::Var(1), vec![sym("y")]);
    let c = capture().apply_one(&e, 1, 17);
    assert_eq!(c, CaptureChoice::Free("_17".to_string()));
    match c {
        CaptureChoice::Free(s) => {
            assert_ne!(s, "x");
            assert_ne!(s, "y");
        }
        CaptureChoice::NotFree => panic!("binder should be renamed"),
    }
}

#[test]
fn capture_pushes_through_when_binder_not_free() {
    let e = make(Lambda::Var(2), vec![sym("z")]);
    assert_eq!(capture().apply_one(&e, 1, 17), CaptureChoice::NotFree);
    assert_eq!(capture().apply_one(&lit(4), 1, 3), CaptureChoice::NotFree);
}

#[test]
fn fresh_symbols_are_decimal_class_numbers() {
    assert_eq!(fresh_symbol(0), "_0");
    assert_eq!(fresh_symbol(9), "_9");
    assert_eq!(fresh_symbol(10), "_10");
    assert_eq!(fresh_symbol(1234), "_1234");
    assert_eq!(fresh_symbol(u32::MAX), "_4294967295");
    assert_ne!(fresh_symbol(12), fresh_symbol(21));
}
