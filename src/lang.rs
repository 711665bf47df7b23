//! The term model: one node of the language, whose children are references
//! to equivalence classes owned by the graph engine.
use vstd::prelude::*;

verus! {

/// A reference to an equivalence class of the graph engine.
pub type Id = u32;

/// A literal value that a class can be known to equal.
#[derive(Debug, Clone, Copy, PartialEq, Eq, Structural)]
pub enum Literal {
    Bool(bool),
    Num(i32),
}

/// One node of the language. Every child is a class reference.
#[derive(Debug, Clone, PartialEq, Eq, Hash)]
pub enum Lambda {
    Bool(bool),
    Num(i32),
    /// A variable occurrence; the child is the class of its name.
    Var(Id),
    Add([Id; 2]),
    Eq([Id; 2]),
    App([Id; 2]),
    /// `[binder, body]`
    Lambda([Id; 2]),
    /// `[binder, bound, body]`
    Let([Id; 3]),
    /// `[binder, body]`
    Fix([Id; 2]),
    /// `[cond, then, else]`
    If([Id; 3]),
    /// A name.
    Symbol(String),
}

impl Literal {
    /// The node that stands for this literal.
    pub open spec fn node_spec(self) -> Lambda {
        match self {
            Literal::Bool(b) => Lambda::Bool(b),
            Literal::Num(n) => Lambda::Num(n),
        }
    }

    pub fn to_node(&self) -> (r: Lambda)
        ensures
            r == self.node_spec(),
    {
        match self {
            Literal::Bool(b) => Lambda::Bool(*b),
            Literal::Num(n) => Lambda::Num(*n),
        }
    }
}

impl Lambda {
    /// The child class references, in order, each occurrence once.
    pub open spec fn children_spec(self) -> Seq<Id> {
        match self {
            Lambda::Bool(_) | Lambda::Num(_) | Lambda::Symbol(_) => seq![],
            Lambda::Var(v) => seq![v],
            Lambda::Add(c) | Lambda::Eq(c) | Lambda::App(c) | Lambda::Lambda(c) | Lambda::Fix(
                c,
            ) => seq![c[0], c[1]],
            Lambda::Let(c) | Lambda::If(c) => seq![c[0], c[1], c[2]],
        }
    }

    pub fn children(&self) -> (r: Vec<Id>)
        ensures
            r@ == self.children_spec(),
    {
        match self {
            Lambda::Bool(_) | Lambda::Num(_) | Lambda::Symbol(_) => Vec::new(),
            Lambda::Var(v) => vec![*v],
            Lambda::Add(c) | Lambda::Eq(c) | Lambda::App(c) | Lambda::Lambda(c) | Lambda::Fix(
                c,
            ) => vec![c[0], c[1]],
            Lambda::Let(c) | Lambda::If(c) => vec![c[0], c[1], c[2]],
        }
    }

    /// The number of children.
    pub fn arity(&self) -> (r: usize)
        ensures
            r == self.children_spec().len(),
    {
        match self {
            Lambda::Bool(_) | Lambda::Num(_) | Lambda::Symbol(_) => 0,
            Lambda::Var(_) => 1,
            Lambda::Add(_) | Lambda::Eq(_) | Lambda::App(_) | Lambda::Lambda(_) | Lambda::Fix(
                _,
            ) => 2,
            Lambda::Let(_) | Lambda::If(_) => 3,
        }
    }

    /// The integer this node is, if it is an integer literal.
    pub fn num(&self) -> (r: Option<i32>)
        ensures
            r == (match self {
                Lambda::Num(n) => Some(*n),
                _ => None::<i32>,
            }),
    {
        match self {
            Lambda::Num(n) => Some(*n),
            _ => None,
        }
    }
}

} // verus!
