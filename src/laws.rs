//! Properties of the analysis and of fresh names, proved over the
//! specifications that the executable functions meet.
use vstd::prelude::*;
use crate::analysis::{eval_spec, free_spec, kid_constants, kid_free, make_spec, union_all, Data};
use crate::fresh::{decimal, digit_char, fresh_name};
use crate::lang::{Id, Lambda, Literal};

verus! {

/// A closed term built from literals, additions and equality tests.
pub enum Arith {
    Int(i32),
    Bool(bool),
    Add(Box<Arith>, Box<Arith>),
    Eq(Box<Arith>, Box<Arith>),
}

/// A mathematical value: an unbounded integer or a boolean.
pub enum Value {
    Int(int),
    Bool(bool),
}

pub open spec fn literal_value(l: Literal) -> Value {
    match l {
        Literal::Num(n) => Value::Int(n as int),
        Literal::Bool(b) => Value::Bool(b),
    }
}

/// The value of a term: addition of integers is exact, equality compares
/// values; an ill-typed addition has no value.
pub open spec fn value(t: Arith) -> Option<Value>
    decreases t,
{
    match t {
        Arith::Int(n) => Some(Value::Int(n as int)),
        Arith::Bool(b) => Some(Value::Bool(b)),
        Arith::Add(a, b) => match (value(*a), value(*b)) {
            (Some(Value::Int(x)), Some(Value::Int(y))) => Some(Value::Int(x + y)),
            _ => None,
        },
        Arith::Eq(a, b) => match (value(*a), value(*b)) {
            (Some(x), Some(y)) => Some(Value::Bool(x == y)),
            _ => None,
        },
    }
}

/// Every sum inside the term fits in an `i32`.
pub open spec fn sums_fit(t: Arith) -> bool
    decreases t,
{
    match t {
        Arith::Int(_) | Arith::Bool(_) => true,
        Arith::Add(a, b) => sums_fit(*a) && sums_fit(*b) && match value(t) {
            Some(Value::Int(x)) => i32::MIN <= x <= i32::MAX,
            _ => true,
        },
        Arith::Eq(a, b) => sums_fit(*a) && sums_fit(*b),
    }
}

/// The constant that the analysis folds for the class of a term, when each
/// subterm's class is made from that subterm's node. The child references of
/// a node do not enter the constant, so any will do.
pub open spec fn folded(t: Arith) -> Option<Literal>
    decreases t,
{
    match t {
        Arith::Int(n) => eval_spec(Lambda::Num(n), seq![]),
        Arith::Bool(b) => eval_spec(Lambda::Bool(b), seq![]),
        Arith::Add(a, b) => eval_spec(Lambda::Add([0, 0]), seq![folded(*a), folded(*b)]),
        Arith::Eq(a, b) => eval_spec(Lambda::Eq([0, 0]), seq![folded(*a), folded(*b)]),
    }
}

/// Constant folding is sound: a folded constant is the term's value. It is
/// also complete where no sum leaves the range of `i32`.
pub proof fn lemma_constant_folding(t: Arith)
    ensures
        folded(t) matches Some(l) ==> value(t) == Some(literal_value(l)),
        sums_fit(t) && value(t) is Some ==> folded(t) is Some,
    decreases t,
{
    match t {
        Arith::Add(a, b) => {
            lemma_constant_folding(*a);
            lemma_constant_folding(*b);
        },
        Arith::Eq(a, b) => {
            lemma_constant_folding(*a);
            lemma_constant_folding(*b);
            if let (Some(x), Some(y)) = (folded(*a), folded(*b)) {
                assert((x == y) == (literal_value(x) == literal_value(y)));
            }
        },
        _ => {},
    }
}

/// A binder is never free in the abstraction or fixpoint it binds, and
/// in a `let` it is free exactly where the bound expression has it free.
pub proof fn lemma_binder_not_free(node: Lambda, kids: Seq<Set<Id>>)
    ensures
        node matches Lambda::Lambda(c) ==> !free_spec(node, kids).contains(c[0]),
        node matches Lambda::Fix(c) ==> !free_spec(node, kids).contains(c[0]),
        node matches Lambda::Let(c) ==> (free_spec(node, kids).contains(c[0]) == kids[1].contains(
            c[0],
        )),
{
}

/// Swapping the operands of an addition or an equality test leaves the
/// analysis data unchanged, so both orders can share one class.
pub proof fn lemma_commuted_data_agree(a: Id, b: Id, da: Data, db: Data)
    ensures
        make_spec(Lambda::Add([a, b]), seq![da, db]) == make_spec(Lambda::Add([b, a]), seq![db, da]),
        make_spec(Lambda::Eq([a, b]), seq![da, db]) == make_spec(Lambda::Eq([b, a]), seq![db, da]),
{
    let ab = seq![da, db];
    let ba = seq![db, da];
    assert(kid_free(ab) =~= seq![da@.free, db@.free]);
    assert(kid_free(ba) =~= seq![db@.free, da@.free]);
    assert(kid_constants(ab) =~= seq![da@.constant, db@.constant]);
    assert(kid_constants(ba) =~= seq![db@.constant, da@.constant]);
    assert(seq![da@.free, db@.free].drop_last() =~= seq![da@.free]);
    assert(seq![db@.free, da@.free].drop_last() =~= seq![db@.free]);
    assert(seq![da@.free].drop_last() =~= Seq::<Set<Id>>::empty());
    assert(seq![db@.free].drop_last() =~= Seq::<Set<Id>>::empty());
    assert(union_all(Seq::<Set<Id>>::empty()) == Set::<Id>::empty());
    assert(seq![da@.free].last() == da@.free);
    assert(seq![db@.free].last() == db@.free);
    assert(union_all(seq![da@.free]) =~= da@.free);
    assert(union_all(seq![db@.free]) =~= db@.free);
    assert(union_all(seq![da@.free, db@.free]) =~= union_all(seq![db@.free, da@.free]));
}

/// The class of a literal node knows its constant, so a `let` around it may
/// be dropped whatever the bound expression is.
pub proof fn lemma_literal_is_const(l: Literal)
    ensures
        make_spec(l.node_spec(), seq![]).constant == Some(l),
{
}

proof fn lemma_decimal_nonempty(n: nat)
    ensures
        decimal(n).len() >= 1,
        n >= 10 ==> decimal(n).len() >= 2,
    decreases n,
{
    if n >= 10 {
        lemma_decimal_nonempty(n / 10);
    }
}

proof fn lemma_decimal_injective(m: nat, n: nat)
    requires
        m != n,
    ensures
        decimal(m) != decimal(n),
    decreases m + n,
{
    lemma_decimal_nonempty(m);
    lemma_decimal_nonempty(n);
    if m < 10 && n < 10 {
        assert(decimal(m)[0] != decimal(n)[0]);
    } else if m < 10 || n < 10 {
        assert(decimal(m).len() != decimal(n).len());
    } else if m % 10 != n % 10 {
        assert(decimal(m).last() == digit_char(m % 10));
        assert(decimal(n).last() == digit_char(n % 10));
    } else {
        lemma_decimal_injective(m / 10, n / 10);
        assert(decimal(m).drop_last() == decimal(m / 10));
        assert(decimal(n).drop_last() == decimal(n / 10));
    }
}

/// A fresh name differs from every name that does not begin with an
/// underscore, and different classes get different fresh names.
pub proof fn lemma_fresh_names_distinct(eclass: Id, other: Id, name: Seq<char>)
    ensures
        (name.len() == 0 || name[0] != '_') ==> fresh_name(eclass) != name,
        eclass != other ==> fresh_name(eclass) != fresh_name(other),
{
    assert(fresh_name(eclass)[0] == '_');
    if eclass != other {
        lemma_decimal_injective(eclass as nat, other as nat);
        assert(fresh_name(eclass).drop_first() =~= decimal(eclass as nat));
        assert(fresh_name(other).drop_first() =~= decimal(other as nat));
    }
}

} // verus!
