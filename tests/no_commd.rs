use imp_eval::no_commd::{Arith, Booln};
use imp_eval::{Env, EvalError};

#[test]
fn no_commd_arith_num() {
    let env = Env::new();
    let test = Arith::Num(21);
    assert_eq!(Arith::eval(test, &env), Ok(21));
}

#[test]
fn no_commd_arith_var_v() {
    let mut env = Env::new();
    env.insert("test".to_string(), 99);
    let test = Arith::Var("test".to_string());
    assert_eq!(Arith::eval(test, &env), Ok(99));
}

#[test]
fn no_commd_arith_add_v() {
    let env = Env::new();
    let arg1 = Arith::Num(4);
    let arg2 = Arith::Num(5);
    let addexp = Arith::Add(Box::new(arg1), Box::new(arg2));
    assert_eq!(Arith::eval(addexp, &env), Ok(9));
}

#[test]
fn no_commd_arith_mul_v() {
    let env = Env::new();
    let arg1 = Arith::Num(4);
    let arg2 = Arith::Num(5);
    let mulexp = Arith::Mul(Box::new(arg1), Box::new(arg2));
    assert_eq!(Arith::eval(mulexp, &env), Ok(20));
}

#[test]
fn no_commd_arith_add_v_aexp() {
    let env = Env::new();
    let arg = Arith::Num(3);
    let arg1 = Arith::Num(4);
    let arg2 = Arith::Num(5);
    let mulexp = Arith::Mul(Box::new(arg1), Box::new(arg2));
    let addexp = Arith::Add(Box::new(arg), Box::new(mulexp));
    assert_eq!(Arith::eval(addexp, &env), Ok(23));
}

#[test]
fn no_commd_arith_add_aexp_v() {
    let env = Env::new();
    let arg = Arith::Num(3);
    let arg1 = Arith::Num(4);
    let arg2 = Arith::Num(5);
    let mulexp = Arith::Mul(Box::new(arg1), Box::new(arg2));
    let addexp = Arith::Add(Box::new(mulexp), Box::new(arg));
    assert_eq!(Arith::eval(addexp, &env), Ok(23));
}

#[test]
fn no_commd_arith_add_aexp_aexp() {
    let env = Env::new();
    let arg1 = Arith::Num(4);
    let arg2 = Arith::Num(5);
    let mulexp1 = Arith::Add(Box::new(arg1), Box::new(arg2));
    let arg3 = Arith::Num(2);
    let arg4 = Arith::Num(3);
    let mulexp2 = Arith::Mul(Box::new(arg3), Box::new(arg4));
    let addexp = Arith::Add(Box::new(mulexp1), Box::new(mulexp2));
    assert_eq!(Arith::eval(addexp, &env), Ok(15));
}

#[test]
fn no_commd_booln_true() {
    let env = Env::new();
    let test = Booln::True;
    assert_eq!(Booln::eval(test, &env), Ok(true));
}

#[test]
fn no_commd_booln_false() {
    let env = Env::new();
    let test = Booln::False;
    assert_eq!(Booln::eval(test, &env), Ok(false));
}

#[test]
fn no_commd_booln_gt_v() {
    let env = Env::new();
    let test = Arith::Num(21);
    let test2 = Arith::Num(20);
    let ltexp = Booln::LessThan(Box::new(test), Box::new(test2));
    assert_eq!(Booln::eval(ltexp, &env), Ok(false));
}

#[test]
fn no_commd_booln_eq_v() {
    let env = Env::new();
    let test = Arith::Num(21);
    let test2 = Arith::Num(21);
    let ltexp = Booln::LessThan(Box::new(test), Box::new(test2));
    assert_eq!(Booln::eval(ltexp, &env), Ok(false));
}

#[test]
fn no_commd_booln_lt_v() {
    let env = Env::new();
    let test = Arith::Num(20);
    let test2 = Arith::Num(21);
    let ltexp = Booln::LessThan(Box::new(test), Box::new(test2));
    assert_eq!(Booln::eval(ltexp, &env), Ok(true));
}

#[test]
fn no_commd_unbound_variable_is_an_error() {
    let env = Env::new();
    let sum = Arith::Add(Box::new(Arith::Num(1)), Box::new(Arith::Var("q".to_string())));
    assert_eq!(Arith::eval(sum, &env), Err(EvalError::UnboundVariable("q".to_string())));
    let lt = Booln::LessThan(Box::new(Arith::Var("p".to_string())), Box::new(Arith::Num(1)));
    assert_eq!(Booln::eval(lt, &env), Err(EvalError::UnboundVariable("p".to_string())));
}

#[test]
fn no_commd_arith_wraps() {
    let env = Env::new();
    let sum = Arith::Add(Box::new(Arith::Num(u64::MAX)), Box::new(Arith::Num(1)));
    assert_eq!(Arith::eval(sum, &env), Ok(0));
    let product = Arith::Mul(Box::new(Arith::Num(1u64 << 32)), Box::new(Arith::Num(1u64 << 32)));
    assert_eq!(Arith::eval(product, &env), Ok(0));
}
