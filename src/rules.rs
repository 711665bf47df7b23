//! The rewrite rules of the language's equational theory, written as pattern
//! text for the graph engine, with their side conditions, and the decision
//! that the capture-avoiding rule makes when it fires.
use vstd::prelude::*;
use crate::analysis::Data;
use crate::fresh::{fresh_name, fresh_symbol};
use crate::lang::Id;

verus! {

/// A pattern variable, written with a leading `?`.
#[derive(Debug, Clone)]
pub struct PatVar {
    pub name: String,
}

/// When a matched rule may fire.
#[derive(Debug, Clone)]
pub enum Cond {
    Always,
    /// The two patterns, instantiated with the match, are already equal.
    Equal(String, String),
    /// The class bound to the variable has a known constant.
    IsConst(PatVar),
    /// The two variables are bound to different classes.
    NotSameVar(PatVar, PatVar),
}

/// Substitution of `e` for `v1` under a binder `v2` that differs from `v1`.
/// Where `v2` is free in `e`, the binder is renamed to a fresh name bound to
/// `fresh` first.
#[derive(Debug, Clone)]
pub struct CaptureAvoid {
    pub fresh: PatVar,
    pub v2: PatVar,
    pub e: PatVar,
    pub if_not_free: String,
    pub if_free: String,
}

/// What a rule produces.
#[derive(Debug, Clone)]
pub enum Rhs {
    Pattern(String),
    CaptureAvoid(CaptureAvoid),
}

#[derive(Debug, Clone)]
pub struct RuleDef {
    pub name: String,
    pub lhs: String,
    pub rhs: Rhs,
    pub cond: Cond,
}

/// Which replacement the capture-avoiding rule builds.
#[derive(Debug, Clone, PartialEq, Eq)]
pub enum CaptureChoice {
    /// The binder is not free in `e`: push the substitution under it.
    NotFree,
    /// The binder is free in `e`: rename it to this fresh name first.
    Free(String),
}

/// Parses a pattern variable.
pub fn var(s: &str) -> (r: PatVar)
    requires
        s@.len() > 1,
        s@[0] == '?',
        s@[1] != '#',
    ensures
        r.name@ == s@,
{
    PatVar { name: String::from_str(s) }
}

/// The condition of the rules that need two binders to differ: `c1` and
/// `c2` are the canonical classes the two variables were matched to.
pub fn is_not_same_var(c1: Id, c2: Id) -> (r: bool)
    ensures
        r == (c1 != c2),
{
    c1 != c2
}

/// The condition of the rule that drops a `let` around a constant.
pub fn is_const(data: &Data) -> (r: bool)
    ensures
        r == data@.constant is Some,
{
    data.constant().is_some()
}

impl CaptureAvoid {
    /// Decides the replacement for a match whose `e` has the class data
    /// `e_data` and whose inner binder is the class `v2`; `eclass` is the
    /// class being rewritten.
    pub fn apply_one(&self, e_data: &Data, v2: Id, eclass: Id) -> (r: CaptureChoice)
        requires
            e_data.wf(),
        ensures
            match r {
                CaptureChoice::NotFree => !e_data@.free.contains(v2),
                CaptureChoice::Free(s) => e_data@.free.contains(v2) && s@ == fresh_name(eclass),
            },
    {
        if e_data.free().contains(v2) {
            CaptureChoice::Free(fresh_symbol(eclass))
        } else {
            CaptureChoice::NotFree
        }
    }
}


pub open spec fn has_shape(r: RuleDef, name: &str, lhs: &str) -> bool {
    r.name@ == name@ && r.lhs@ == lhs@
}

pub open spec fn rewrites_to(r: RuleDef, rhs: &str) -> bool {
    match r.rhs {
        Rhs::Pattern(p) => p@ == rhs@,
        _ => false,
    }
}

pub open spec fn unconditional(r: RuleDef) -> bool {
    r.cond is Always
}

pub open spec fn if_equal(r: RuleDef, a: &str, b: &str) -> bool {
    match r.cond {
        Cond::Equal(x, y) => x@ == a@ && y@ == b@,
        _ => false,
    }
}

pub open spec fn if_const(r: RuleDef, v: &str) -> bool {
    match r.cond {
        Cond::IsConst(x) => x.name@ == v@,
        _ => false,
    }
}

pub open spec fn if_not_same(r: RuleDef, v1: &str, v2: &str) -> bool {
    match r.cond {
        Cond::NotSameVar(x, y) => x.name@ == v1@ && y.name@ == v2@,
        _ => false,
    }
}

pub open spec fn avoids_capture(
    r: RuleDef,
    fresh: &str,
    v2: &str,
    e: &str,
    if_not_free: &str,
    if_free: &str,
) -> bool {
    match r.rhs {
        Rhs::CaptureAvoid(c) => {
            &&& c.fresh.name@ == fresh@
            &&& c.v2.name@ == v2@
            &&& c.e.name@ == e@
            &&& c.if_not_free@ == if_not_free@
            &&& c.if_free@ == if_free@
        },
        _ => false,
    }
}

/// The rule set of the language, in order.
pub open spec fn is_rule_set(rs: Seq<RuleDef>) -> bool {
    &&& rs.len() == 17
    &&& has_shape(rs[0], "if-true", "(if true ?then ?else)")
    &&& rewrites_to(rs[0], "?then") && unconditional(rs[0])
    &&& has_shape(rs[1], "if-false", "(if false ?then ?else)")
    &&& rewrites_to(rs[1], "?else") && unconditional(rs[1])
    &&& has_shape(rs[2], "if-elim", "(if (= (var ?x) ?e) ?then ?else)")
    &&& rewrites_to(rs[2], "?else") && if_equal(rs[2], "(let ?x ?e ?then)", "(let ?x ?e ?else)")
    &&& has_shape(rs[3], "add-comm", "(+ ?a ?b)")
    &&& rewrites_to(rs[3], "(+ ?b ?a)") && unconditional(rs[3])
    &&& has_shape(rs[4], "add-assoc", "(+ (+ ?a ?b) ?c)")
    &&& rewrites_to(rs[4], "(+ ?a (+ ?b ?c))") && unconditional(rs[4])
    &&& has_shape(rs[5], "eq-comm", "(= ?a ?b)")
    &&& rewrites_to(rs[5], "(= ?b ?a)") && unconditional(rs[5])
    &&& has_shape(rs[6], "fix", "(fix ?v ?e)")
    &&& rewrites_to(rs[6], "(let ?v (fix ?v ?e) ?e)") && unconditional(rs[6])
    &&& has_shape(rs[7], "beta", "(app (lam ?v ?body) ?e)")
    &&& rewrites_to(rs[7], "(let ?v ?e ?body)") && unconditional(rs[7])
    &&& has_shape(rs[8], "let-app", "(let ?v ?e (app ?a ?b))")
    &&& rewrites_to(rs[8], "(app (let ?v ?e ?a) (let ?v ?e ?b))") && unconditional(rs[8])
    &&& has_shape(rs[9], "let-add", "(let ?v ?e (+ ?a ?b))")
    &&& rewrites_to(rs[9], "(+ (let ?v ?e ?a) (let ?v ?e ?b))") && unconditional(rs[9])
    &&& has_shape(rs[10], "let-eq", "(let ?v ?e (= ?a ?b))")
    &&& rewrites_to(rs[10], "(= (let ?v ?e ?a) (let ?v ?e ?b))") && unconditional(rs[10])
    &&& has_shape(rs[11], "let-const", "(let ?v ?e ?c)")
    &&& rewrites_to(rs[11], "?c") && if_const(rs[11], "?c")
    &&& has_shape(rs[12], "let-if", "(let ?v ?e (if ?cond ?then ?else))")
    &&& rewrites_to(rs[12], "(if (let ?v ?e ?cond) (let ?v ?e ?then) (let ?v ?e ?else))")
    &&& unconditional(rs[12])
    &&& has_shape(rs[13], "let-var-same", "(let ?v1 ?e (var ?v1))")
    &&& rewrites_to(rs[13], "?e") && unconditional(rs[13])
    &&& has_shape(rs[14], "let-var-diff", "(let ?v1 ?e (var ?v2))")
    &&& rewrites_to(rs[14], "(var ?v2)") && if_not_same(rs[14], "?v1", "?v2")
    &&& has_shape(rs[15], "let-lam-same", "(let ?v1 ?e (lam ?v1 ?body))")
    &&& rewrites_to(rs[15], "(lam ?v1 ?body)") && unconditional(rs[15])
    &&& has_shape(rs[16], "let-lam-diff", "(let ?v1 ?e (lam ?v2 ?body))")
    &&& avoids_capture(
        rs[16],
        "?fresh",
        "?v2",
        "?e",
        "(lam ?v2 (let ?v1 ?e ?body))",
        "(lam ?fresh (let ?v1 ?e (let ?v2 (var ?fresh) ?body)))",
    )
    &&& if_not_same(rs[16], "?v1", "?v2")
}

fn rule(name: &str, lhs: &str, rhs: Rhs, cond: Cond) -> (r: RuleDef)
    ensures
        r.name@ == name@,
        r.lhs@ == lhs@,
        r.rhs == rhs,
        r.cond == cond,
{
    RuleDef { name: String::from_str(name), lhs: String::from_str(lhs), rhs, cond }
}

fn to(rhs: &str) -> (r: Rhs)
    ensures
        match r {
            Rhs::Pattern(p) => p@ == rhs@,
            _ => false,
        },
{
    Rhs::Pattern(String::from_str(rhs))
}

/// The rewrite rules of the language.
pub fn rules() -> (r: Vec<RuleDef>)
    ensures
        is_rule_set(r@),
{
    proof {
        reveal_strlit("?c");
        reveal_strlit("?v1");
        reveal_strlit("?v2");
        reveal_strlit("?e");
        reveal_strlit("?fresh");
    }
    let mut r: Vec<RuleDef> = Vec::new();
    // open term rules
    r.push(rule("if-true", "(if true ?then ?else)", to("?then"), Cond::Always));
    r.push(rule("if-false", "(if false ?then ?else)", to("?else"), Cond::Always));
    r.push(
        rule(
            "if-elim",
            "(if (= (var ?x) ?e) ?then ?else)",
            to("?else"),
            Cond::Equal(
                String::from_str("(let ?x ?e ?then)"),
                String::from_str("(let ?x ?e ?else)"),
            ),
        ),
    );
    r.push(rule("add-comm", "(+ ?a ?b)", to("(+ ?b ?a)"), Cond::Always));
    r.push(rule("add-assoc", "(+ (+ ?a ?b) ?c)", to("(+ ?a (+ ?b ?c))"), Cond::Always));
    r.push(rule("eq-comm", "(= ?a ?b)", to("(= ?b ?a)"), Cond::Always));
    // substitution rules
    r.push(rule("fix", "(fix ?v ?e)", to("(let ?v (fix ?v ?e) ?e)"), Cond::Always));
    r.push(rule("beta", "(app (lam ?v ?body) ?e)", to("(let ?v ?e ?body)"), Cond::Always));
    r.push(
        rule(
            "let-app",
            "(let ?v ?e (app ?a ?b))",
            to("(app (let ?v ?e ?a) (let ?v ?e ?b))"),
            Cond::Always,
        ),
    );
    r.push(
        rule(
            "let-add",
            "(let ?v ?e (+ ?a ?b))",
            to("(+ (let ?v ?e ?a) (let ?v ?e ?b))"),
            Cond::Always,
        ),
    );
    r.push(
        rule(
            "let-eq",
            "(let ?v ?e (= ?a ?b))",
            to("(= (let ?v ?e ?a) (let ?v ?e ?b))"),
            Cond::Always,
        ),
    );
    r.push(rule("let-const", "(let ?v ?e ?c)", to("?c"), Cond::IsConst(var("?c"))));
    r.push(
        rule(
            "let-if",
            "(let ?v ?e (if ?cond ?then ?else))",
            to("(if (let ?v ?e ?cond) (let ?v ?e ?then) (let ?v ?e ?else))"),
            Cond::Always,
        ),
    );
    r.push(rule("let-var-same", "(let ?v1 ?e (var ?v1))", to("?e"), Cond::Always));
    r.push(
        rule(
            "let-var-diff",
            "(let ?v1 ?e (var ?v2))",
            to("(var ?v2)"),
            Cond::NotSameVar(var("?v1"), var("?v2")),
        ),
    );
    r.push(
        rule("let-lam-same", "(let ?v1 ?e (lam ?v1 ?body))", to("(lam ?v1 ?body)"), Cond::Always),
    );
    let capture = CaptureAvoid {
        fresh: var("?fresh"),
        v2: var("?v2"),
        e: var("?e"),
        if_not_free: String::from_str("(lam ?v2 (let ?v1 ?e ?body))"),
        if_free: String::from_str("(lam ?fresh (let ?v1 ?e (let ?v2 (var ?fresh) ?body)))"),
    };
    r.push(
        rule(
            "let-lam-diff",
            "(let ?v1 ?e (lam ?v2 ?body))",
            Rhs::CaptureAvoid(capture),
            Cond::NotSameVar(var("?v1"), var("?v2")),
        ),
    );
    r
}

} // verus!
