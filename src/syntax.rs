//! Terms of the front-end calculus that is meant to produce module trees.
use vstd::prelude::*;

verus! {

/// A variable name of the term calculus.
pub type Var = String;

/// A term of the front-end calculus: variables, abstraction, application,
/// pairing and named primitives.
pub enum Term {
    Var(Var),
    Lam(Var, Box<Term>),
    App(Box<Term>, Box<Term>),
    Prod(Box<Term>, Box<Term>),
    Prim(String),
}

} // verus!
