//! A small lambda calculus with booleans, integers, conditionals, `let` and
//! recursion, and the logic that an equality-saturation engine needs to
//! simplify it: a per-class analysis (free variables and folded constants),
//! the rewrite rules of the language's equational theory, and the decision
//! behind capture-avoiding substitution.
use vstd::prelude::*;

pub mod lang;
pub mod idset;
pub mod analysis;
pub mod fresh;
pub mod rules;
pub mod bench;
pub mod laws;
