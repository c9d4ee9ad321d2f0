//! The expression layer on its own: arithmetic and comparisons, without
//! negation or commands. Each evaluator takes its expression by value.
use crate::env::{Bindings, Env};
use crate::error::EvalError;
use crate::lang::{wrapped_product, wrapped_sum};
use vstd::prelude::*;

verus! {

/// An arithmetic expression over `u64`.
#[derive(Debug)]
pub enum Arith {
    Num(u64),
    Var(String),
    Add(Box<Arith>, Box<Arith>),
    Mul(Box<Arith>, Box<Arith>),
}

/// A comparison between arithmetic expressions, or a literal.
#[derive(Debug)]
pub enum Booln {
    True,
    False,
    LessThan(Box<Arith>, Box<Arith>),
}

impl Arith {
    /// The value of the expression in `e`, left operand first; sums and
    /// products wrap modulo 2^64.
    pub open spec fn value(self, e: Bindings) -> Result<u64, EvalError>
        decreases self,
    {
        match self {
            Arith::Num(n) => Ok(n),
            Arith::Var(name) => if e.contains_key(name@) {
                Ok(e[name@])
            } else {
                Err(EvalError::UnboundVariable(name))
            },
            Arith::Add(a, b) => match a.value(e) {
                Err(err) => Err(err),
                Ok(x) => match b.value(e) {
                    Err(err) => Err(err),
                    Ok(y) => Ok(wrapped_sum(x, y)),
                },
            },
            Arith::Mul(a, b) => match a.value(e) {
                Err(err) => Err(err),
                Ok(x) => match b.value(e) {
                    Err(err) => Err(err),
                    Ok(y) => Ok(wrapped_product(x, y)),
                },
            },
        }
    }

    /// Evaluates `arith` against `environment`; an unbound variable gives
    /// `UnboundVariable`.
    pub fn eval(arith: Arith, environment: &Env) -> (r: Result<u64, EvalError>)
        ensures
            r == arith.value(environment@),
        decreases arith,
    {
        match arith {
            Arith::Num(n) => Ok(n),
            Arith::Var(name) => match environment.get(name.as_str()) {
                Some(v) => Ok(v),
                None => Err(EvalError::UnboundVariable(name)),
            },
            Arith::Add(a, b) => {
                let x = match Arith::eval(*a, environment) {
                    Ok(x) => x,
                    Err(err) => return Err(err),
                };
                let y = match Arith::eval(*b, environment) {
                    Ok(y) => y,
                    Err(err) => return Err(err),
                };
                assert(x.wrapping_add(y) == wrapped_sum(x, y)) by {
                    assert(x + y < 0x2_0000_0000_0000_0000);
                };
                Ok(x.wrapping_add(y))
            },
            Arith::Mul(a, b) => {
                let x = match Arith::eval(*a, environment) {
                    Ok(x) => x,
                    Err(err) => return Err(err),
                };
                let y = match Arith::eval(*b, environment) {
                    Ok(y) => y,
                    Err(err) => return Err(err),
                };
                Ok(x.wrapping_mul(y))
            },
        }
    }
}

impl Booln {
    /// The truth value of the expression in `e`.
    pub open spec fn holds(self, e: Bindings) -> Result<bool, EvalError> {
        match self {
            Booln::True => Ok(true),
            Booln::False => Ok(false),
            Booln::LessThan(a, b) => match a.value(e) {
                Err(err) => Err(err),
                Ok(x) => match b.value(e) {
                    Err(err) => Err(err),
                    Ok(y) => Ok(x < y),
                },
            },
        }
    }

    /// Evaluates `booln` against `environment`; `LessThan` is strict.
    pub fn eval(booln: Booln, environment: &Env) -> (r: Result<bool, EvalError>)
        ensures
            r == booln.holds(environment@),
    {
        match booln {
            Booln::True => Ok(true),
            Booln::False => Ok(false),
            Booln::LessThan(a, b) => {
                let x = match Arith::eval(*a, environment) {
                    Ok(x) => x,
                    Err(err) => return Err(err),
                };
                let y = match Arith::eval(*b, environment) {
                    Ok(y) => y,
                    Err(err) => return Err(err),
                };
                Ok(x < y)
            },
        }
    }
}

} // verus!
