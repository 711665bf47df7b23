//! Benchmark seeds: a start expression with the rule set, and the patterns
//! that a benchmark searches for.
use vstd::prelude::*;
use crate::rules::{is_rule_set, rules, RuleDef};

verus! {

/// A program that repeats `add1` twice through a recursive `repeat`.
pub const LAMBDA1_SOURCE: &'static str = "(let compose (lam f (lam g (lam x (app (var f)
        (app (var g) (var x))))))
    (let repeat (fix repeat (lam fun (lam n
    (if (= (var n) 0)
    (lam i (var i))
    (app (app (var compose) (var fun))
    (app (app (var repeat)
    (var fun))
    (+ (var n) -1)))))))
    (let add1 (lam y (+ (var y) 1))
    (app (app (var repeat)
    (var add1))
    2))))";

/// A recursive Fibonacci function applied to 4.
pub const LAMBDA2_SOURCE: &'static str = "(let fib (fix fib (lam n
        (if (= (var n) 0)
            0
        (if (= (var n) 1)
            1
        (+ (app (var fib)
                (+ (var n) -1))
            (app (var fib)
                (+ (var n) -2)))))))
        (app (var fib) 4))";

/// A benchmark: its name, its start expression as text, the rules to run
/// and the patterns to search for.
#[derive(Debug, Clone)]
pub struct Bench {
    pub name: String,
    pub start_expr: String,
    pub rules: Vec<RuleDef>,
    pub bench_pats: Vec<String>,
}

/// The rule whose left side is the `k`-th benchmark pattern: every rule but
/// the two guarded by different binders.
pub open spec fn bench_rule(k: int) -> int {
    if k < 14 {
        k
    } else {
        15
    }
}

/// A benchmark over the rule set, searching for the left sides of the rules
/// that need no binder comparison.
pub open spec fn is_bench(b: Bench, name: Seq<char>, expr: Seq<char>) -> bool {
    &&& b.name@ == name
    &&& b.start_expr@ == expr
    &&& is_rule_set(b.rules@)
    &&& b.bench_pats@.len() == 15
    &&& forall|k: int| 0 <= k < 15 ==> (#[trigger] b.bench_pats@[k])@ == b.rules@[bench_rule(k)].lhs@
}

pub fn lambda_bench_meta(name: String, expr: String) -> (r: Bench)
    ensures
        is_bench(r, name@, expr@),
{
    let rules = rules();
    let mut bench_pats: Vec<String> = Vec::new();
    let mut k: usize = 0;
    while k < 15
        invariant
            k <= 15,
            is_rule_set(rules@),
            bench_pats@.len() == k,
            forall|j: int| 0 <= j < k ==> (#[trigger] bench_pats@[j])@ == rules@[bench_rule(j)].lhs@,
        decreases 15 - k,
    {
        let i: usize = if k < 14 { k } else { 15 };
        bench_pats.push(rules[i].lhs.clone());
        k += 1;
    }
    Bench { name, start_expr: expr, rules, bench_pats }
}

pub fn lambda_bench1() -> (r: Bench)
    ensures
        is_bench(r, "lambda1"@, LAMBDA1_SOURCE@),
{
    lambda_bench_meta(String::from_str("lambda1"), String::from_str(LAMBDA1_SOURCE))
}

pub fn lambda_bench2() -> (r: Bench)
    ensures
        is_bench(r, "lambda2"@, LAMBDA2_SOURCE@),
{
    lambda_bench_meta(String::from_str("lambda2"), String::from_str(LAMBDA2_SOURCE))
}

} // verus!
