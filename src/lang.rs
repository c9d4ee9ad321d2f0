use crate::env::{Bindings, Env};
use crate::error::EvalError;
use vstd::prelude::*;

verus! {

/// Sum modulo 2^64: the overflow policy of `Add`.
pub open spec fn wrapped_sum(x: u64, y: u64) -> u64 {
    ((x + y) % 0x1_0000_0000_0000_0000) as u64
}

/// Product modulo 2^64: the overflow policy of `Mul`.
pub open spec fn wrapped_product(x: u64, y: u64) -> u64 {
    ((x * y) % 0x1_0000_0000_0000_0000) as u64
}

/// An arithmetic expression over `u64`.
#[derive(Debug)]
pub enum Arith {
    Num(u64),
    Var(String),
    Add(Box<Arith>, Box<Arith>),
    Mul(Box<Arith>, Box<Arith>),
}

/// A boolean expression.
#[derive(Debug)]
pub enum Booln {
    True,
    False,
    LessThan(Box<Arith>, Box<Arith>),
    Not(Box<Booln>),
}

/// A command, which transforms an environment.
#[derive(Debug)]
pub enum Commd {
    Skip,
    Assgn { name: String, expr: Box<Arith> },
    Sequence(Box<Commd>, Box<Commd>),
    If(Box<Booln>, Box<Commd>, Box<Commd>),
    While(Box<Booln>, Box<Commd>),
}

/// The abstract outcome of a command evaluation.
pub open spec fn outcome(r: Result<Env, EvalError>) -> Result<Bindings, EvalError> {
    match r {
        Ok(env) => Ok(env@),
        Err(err) => Err(err),
    }
}

impl Arith {
    /// The value of the expression in `e`; the left operand is evaluated
    /// first, so its failure is the one reported.
    pub open spec fn value(self, e: Bindings) -> Result<u64, EvalError>
        decreases self,
    {
        match self {
            Arith::Num(n) => Ok(n),
            Arith::Var(name) => if e.contains_key(name@) {
                Ok(e[name@])
            } else {
                Err(EvalError::UnboundVariable(name))
            },
            Arith::Add(a, b) => match a.value(e) {
                Err(err) => Err(err),
                Ok(x) => match b.value(e) {
                    Err(err) => Err(err),
                    Ok(y) => Ok(wrapped_sum(x, y)),
                },
            },
            Arith::Mul(a, b) => match a.value(e) {
                Err(err) => Err(err),
                Ok(x) => match b.value(e) {
                    Err(err) => Err(err),
                    Ok(y) => Ok(wrapped_product(x, y)),
                },
            },
        }
    }

    /// Evaluates `arith` against `environment`, which it only reads.
    /// Sums and products wrap modulo 2^64; reading an unbound variable
    /// fails with `UnboundVariable`.
    pub fn eval(arith: &Arith, environment: &Env) -> (r: Result<u64, EvalError>)
        ensures
            r == arith.value(environment@),
        decreases arith,
    {
        match arith {
            Arith::Num(n) => Ok(*n),
            Arith::Var(name) => match environment.get(name.as_str()) {
                Some(v) => Ok(v),
                None => Err(EvalError::UnboundVariable(name.clone())),
            },
            Arith::Add(a, b) => {
                let x = match Arith::eval(a, environment) {
                    Ok(x) => x,
                    Err(err) => return Err(err),
                };
                let y = match Arith::eval(b, environment) {
                    Ok(y) => y,
                    Err(err) => return Err(err),
                };
                assert(x.wrapping_add(y) == wrapped_sum(x, y)) by {
                    assert(x + y < 0x2_0000_0000_0000_0000);
                };
                Ok(x.wrapping_add(y))
            },
            Arith::Mul(a, b) => {
                let x = match Arith::eval(a, environment) {
                    Ok(x) => x,
                    Err(err) => return Err(err),
                };
                let y = match Arith::eval(b, environment) {
                    Ok(y) => y,
                    Err(err) => return Err(err),
                };
                Ok(x.wrapping_mul(y))
            },
        }
    }
}

impl Booln {
    /// The truth value of the expression in `e`.
    pub open spec fn holds(self, e: Bindings) -> Result<bool, EvalError>
        decreases self,
    {
        match self {
            Booln::True => Ok(true),
            Booln::False => Ok(false),
            Booln::LessThan(a, b) => match a.value(e) {
                Err(err) => Err(err),
                Ok(x) => match b.value(e) {
                    Err(err) => Err(err),
                    Ok(y) => Ok(x < y),
                },
            },
            Booln::Not(b) => match b.holds(e) {
                Err(err) => Err(err),
                Ok(v) => Ok(!v),
            },
        }
    }

    /// Evaluates `booln` against `environment`, which it only reads.
    /// `LessThan` is the strict unsigned comparison.
    pub fn eval(booln: &Booln, environment: &Env) -> (r: Result<bool, EvalError>)
        ensures
            r == booln.holds(environment@),
        decreases booln,
    {
        match booln {
            Booln::True => Ok(true),
            Booln::False => Ok(false),
            Booln::LessThan(a, b) => {
                let x = match Arith::eval(a, environment) {
                    Ok(x) => x,
                    Err(err) => return Err(err),
                };
                let y = match Arith::eval(b, environment) {
                    Ok(y) => y,
                    Err(err) => return Err(err),
                };
                Ok(x < y)
            },
            Booln::Not(b) => match Booln::eval(b, environment) {
                Ok(v) => Ok(!v),
                Err(err) => Err(err),
            },
        }
    }
}

impl Commd {
    /// The result of running the command from `e`, where each `While` may go
    /// round at most `fuel` times and each round leaves one unit less for the
    /// commands it runs. Running short of fuel gives `OutOfFuel`.
    pub open spec fn run(self, e: Bindings, fuel: nat) -> Result<Bindings, EvalError>
        decreases fuel, self,
    {
        match self {
            Commd::Skip => Ok(e),
            Commd::Assgn { name, expr } => match expr.value(e) {
                Err(err) => Err(err),
                Ok(v) => Ok(e.insert(name@, v)),
            },
            Commd::Sequence(c1, c2) => match c1.run(e, fuel) {
                Err(err) => Err(err),
                Ok(e1) => c2.run(e1, fuel),
            },
            Commd::If(b, c1, c2) => match b.holds(e) {
                Err(err) => Err(err),
                Ok(true) => c1.run(e, fuel),
                Ok(false) => c2.run(e, fuel),
            },
            Commd::While(b, body) => match b.holds(e) {
                Err(err) => Err(err),
                Ok(false) => Ok(e),
                Ok(true) => if fuel == 0 {
                    Err(EvalError::OutOfFuel)
                } else {
                    match body.run(e, (fuel - 1) as nat) {
                        Err(err) => Err(err),
                        Ok(e1) => self.run(e1, (fuel - 1) as nat),
                    }
                },
            },
        }
    }

    /// Builds the assignment `name := arith`.
    pub fn assgn(name: String, arith: Arith) -> (r: Commd)
        ensures
            r == (Commd::Assgn { name: name, expr: Box::new(arith) }),
    {
        Commd::Assgn { name, expr: Box::new(arith) }
    }

    /// Runs `commd` from `environment`, with at most `fuel` rounds of each
    /// loop as `run` counts them. The environment is taken and the resulting
    /// one handed back; a failed assignment leaves no partial update behind.
    pub fn eval_bounded(commd: &Commd, environment: Env, fuel: u64) -> (r: Result<Env, EvalError>)
        ensures
            outcome(r) == commd.run(environment@, fuel as nat),
        decreases fuel, commd,
    {
        match commd {
            Commd::Skip => Ok(environment),
            Commd::Assgn { name, expr } => {
                let mut environment = environment;
                match Arith::eval(expr, &environment) {
                    Ok(v) => {
                        environment.insert(name.clone(), v);
                        Ok(environment)
                    },
                    Err(err) => Err(err),
                }
            },
            Commd::Sequence(c1, c2) => match Commd::eval_bounded(c1, environment, fuel) {
                Ok(e1) => Commd::eval_bounded(c2, e1, fuel),
                Err(err) => Err(err),
            },
            Commd::If(b, c1, c2) => match Booln::eval(b, &environment) {
                Ok(true) => Commd::eval_bounded(c1, environment, fuel),
                Ok(false) => Commd::eval_bounded(c2, environment, fuel),
                Err(err) => Err(err),
            },
            Commd::While(b, body) => {
                let mut cur = environment;
                let mut left: u64 = fuel;
                loop
                    invariant
                        left <= fuel,
                        *commd == Commd::While(*b, *body),
                        commd.run(environment@, fuel as nat) == commd.run(cur@, left as nat),
                    decreases left,
                {
                    match Booln::eval(b, &cur) {
                        Err(err) => return Err(err),
                        Ok(false) => return Ok(cur),
                        Ok(true) => {},
                    }
                    if left == 0 {
                        return Err(EvalError::OutOfFuel);
                    }
                    match Commd::eval_bounded(body, cur, left - 1) {
                        Ok(e1) => {
                            cur = e1;
                            left = left - 1;
                        },
                        Err(err) => return Err(err),
                    }
                }
            },
        }
    }

    /// Runs `commd` from `environment` and hands back the resulting
    /// environment. Each loop may go round up to `u64::MAX` times, so a
    /// program that does not terminate in effect runs until stopped from
    /// outside.
    pub fn eval(commd: &Commd, environment: Env) -> (r: Result<Env, EvalError>)
        ensures
            outcome(r) == commd.run(environment@, u64::MAX as nat),
    {
        Commd::eval_bounded(commd, environment, u64::MAX)
    }
}

} // verus!
