//! Algebraic facts about the evaluation semantics of `lang`.
use crate::env::Bindings;
use crate::error::EvalError;
use crate::lang::{Arith, Booln, Commd};
use vstd::prelude::*;

verus! {

/// A literal evaluates to itself in every environment.
pub proof fn num_is_its_value(n: u64, e: Bindings)
    ensures
        Arith::Num(n).value(e) == Ok::<u64, EvalError>(n),
{
}

/// A variable evaluates to its binding, and reading an unbound one fails
/// with `UnboundVariable` naming it.
pub proof fn var_reads_its_binding(name: String, e: Bindings)
    ensures
        e.contains_key(name@) ==> Arith::Var(name).value(e) == Ok::<u64, EvalError>(e[name@]),
        !e.contains_key(name@) ==> Arith::Var(name).value(e) == Err::<u64, EvalError>(
            EvalError::UnboundVariable(name),
        ),
{
}

/// Swapping the operands of `Add` leaves the result unchanged, unless both
/// operands fail with different errors (the left failure is the one
/// reported).
pub proof fn add_commutes(a: Arith, b: Arith, e: Bindings)
    requires
        a.value(e) is Ok || b.value(e) is Ok || a.value(e) == b.value(e),
    ensures
        Arith::Add(Box::new(a), Box::new(b)).value(e) == Arith::Add(Box::new(b), Box::new(a)).value(e),
{
}

/// Swapping the operands of `Mul` leaves the result unchanged, unless both
/// operands fail with different errors.
pub proof fn mul_commutes(a: Arith, b: Arith, e: Bindings)
    requires
        a.value(e) is Ok || b.value(e) is Ok || a.value(e) == b.value(e),
    ensures
        Arith::Mul(Box::new(a), Box::new(b)).value(e) == Arith::Mul(Box::new(b), Box::new(a)).value(e),
{
    if let (Ok(x), Ok(y)) = (a.value(e), b.value(e)) {
        assert(x * y == y * x) by (nonlinear_arith);
    }
}

/// `LessThan` is the strict comparison of its operands' values; equal
/// values compare false.
pub proof fn less_than_is_strict(a: Arith, b: Arith, e: Bindings)
    requires
        a.value(e) is Ok,
        b.value(e) is Ok,
    ensures
        Booln::LessThan(Box::new(a), Box::new(b)).holds(e) == Ok::<bool, EvalError>(
            a.value(e)->Ok_0 < b.value(e)->Ok_0,
        ),
        a.value(e) == b.value(e) ==> Booln::LessThan(Box::new(a), Box::new(b)).holds(e) == Ok::<
            bool,
            EvalError,
        >(false),
{
}

/// Negating twice gives back the original truth value, or the same failure.
pub proof fn double_negation(b: Booln, e: Bindings)
    ensures
        Booln::Not(Box::new(Booln::Not(Box::new(b)))).holds(e) == b.holds(e),
{
    reveal_with_fuel(Booln::holds, 2);
}

/// `Skip` before a command changes nothing, at every fuel.
pub proof fn skip_then_is_identity(c: Commd, e: Bindings, fuel: nat)
    ensures
        Commd::Sequence(Box::new(Commd::Skip), Box::new(c)).run(e, fuel) == c.run(e, fuel),
{    reveal_with_fuel(Commd::run, 2);
}

/// `Skip` after a command changes nothing, at every fuel.
pub proof fn then_skip_is_identity(c: Commd, e: Bindings, fuel: nat)
    ensures
        Commd::Sequence(Box::new(c), Box::new(Commd::Skip)).run(e, fuel) == c.run(e, fuel),
{    reveal_with_fuel(Commd::run, 2);
}

/// A conditional on `True` runs its first branch.
pub proof fn if_true_runs_then(c1: Commd, c2: Commd, e: Bindings, fuel: nat)
    ensures
        Commd::If(Box::new(Booln::True), Box::new(c1), Box::new(c2)).run(e, fuel) == c1.run(e, fuel),
{
}

/// A conditional on `False` runs its second branch.
pub proof fn if_false_runs_else(c1: Commd, c2: Commd, e: Bindings, fuel: nat)
    ensures
        Commd::If(Box::new(Booln::False), Box::new(c1), Box::new(c2)).run(e, fuel) == c2.run(e, fuel),
{
}

/// A loop on `False` never runs its body and leaves the environment as it
/// was, whatever the fuel.
pub proof fn while_false_is_skip(c: Commd, e: Bindings, fuel: nat)
    ensures
        Commd::While(Box::new(Booln::False), Box::new(c)).run(e, fuel) == Ok::<Bindings, EvalError>(e),
{
}

/// Once a run finishes without exhausting its fuel, more fuel gives the same
/// result: the fuel bounds how long evaluation may go on, never what it
/// computes.
pub proof fn more_fuel_same_result(c: Commd, e: Bindings, f1: nat, f2: nat)
    requires
        f1 <= f2,
        c.run(e, f1) != Err::<Bindings, EvalError>(EvalError::OutOfFuel),
    ensures
        c.run(e, f2) == c.run(e, f1),
    decreases f1, c,
{
    match c {
        Commd::Skip => {},
        Commd::Assgn { .. } => {},
        Commd::Sequence(c1, c2) => {
            more_fuel_same_result(*c1, e, f1, f2);
            if let Ok(e1) = c1.run(e, f1) {
                more_fuel_same_result(*c2, e1, f1, f2);
            }
        },
        Commd::If(b, c1, c2) => {
            if b.holds(e) == Ok::<bool, EvalError>(true) {
                more_fuel_same_result(*c1, e, f1, f2);
            } else if b.holds(e) == Ok::<bool, EvalError>(false) {
                more_fuel_same_result(*c2, e, f1, f2);
            }
        },
        Commd::While(b, body) => {
            if b.holds(e) == Ok::<bool, EvalError>(true) {
                more_fuel_same_result(*body, e, (f1 - 1) as nat, (f2 - 1) as nat);
                if let Ok(e1) = body.run(e, (f1 - 1) as nat) {
                    more_fuel_same_result(c, e1, (f1 - 1) as nat, (f2 - 1) as nat);
                }
            }
        },
    }
}

} // verus!
