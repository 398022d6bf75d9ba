use vstd::prelude::*;

use crate::ast::{ArithCmpOp, ArithExpr, BinArithOp, BinLogicOp, BoolExpr, EvalError, Expr, Value};
use crate::eval::{abs, arith_value, bool_value, expr_value, fits_i64, trunc_div};
use vstd::arithmetic::div_mod::{lemma_div_pos_is_pos, lemma_fundamental_div_mod, lemma_mod_pos_bound};

verus! {

pub open spec fn arith_lit(n: i64) -> ArithExpr {
    ArithExpr::IntLit(n)
}

pub open spec fn arith_bin(l: i64, r: i64, op: BinArithOp) -> Expr {
    Expr::ArithExpr(
        ArithExpr::BinArithExpr { left: Box::new(arith_lit(l)), right: Box::new(arith_lit(r)), op },
    )
}

pub open spec fn cmp_bin(l: i64, r: i64, op: ArithCmpOp) -> Expr {
    Expr::BoolExpr(
        BoolExpr::ArithCmpExpr { left: Box::new(arith_lit(l)), right: Box::new(arith_lit(r)), op },
    )
}

pub open spec fn logic_bin(l: bool, r: bool, op: BinLogicOp) -> Expr {
    Expr::BoolExpr(
        BoolExpr::BinBoolExpr {
            left: Box::new(BoolExpr::BoolLit(l)),
            right: Box::new(BoolExpr::BoolLit(r)),
            op,
        },
    )
}

/// Evaluation is a function of the tree alone: equal trees give equal
/// results, so evaluating one tree twice gives the same result both times.
pub proof fn lemma_eval_deterministic(e1: Expr, e2: Expr)
    requires
        e1 == e2,
    ensures
        expr_value(e1) == expr_value(e2),
{
}

/// An integer expression evaluates to an integer value and a boolean
/// expression to a boolean value, whenever evaluation succeeds.
pub proof fn lemma_sort_preserved(a: ArithExpr, b: BoolExpr)
    ensures
        expr_value(Expr::ArithExpr(a)) matches Ok(v) ==> v is IntValue,
        expr_value(Expr::BoolExpr(b)) matches Ok(v) ==> v is BoolValue,
        arith_value(a) matches Ok(n) ==> expr_value(Expr::ArithExpr(a)) == Ok::<Value, EvalError>(
            Value::IntValue(n),
        ),
        bool_value(b) matches Ok(v) ==> expr_value(Expr::BoolExpr(b)) == Ok::<Value, EvalError>(
            Value::BoolValue(v),
        ),
{
}

/// Dividing any literal by the literal zero fails with `DivisionByZero`.
pub proof fn lemma_division_by_zero(n: i64)
    ensures
        expr_value(arith_bin(n, 0, BinArithOp::IntDivOp)) == Err::<Value, EvalError>(
            EvalError::DivisionByZero,
        ),
{
    reveal_with_fuel(arith_value, 2);
}

/// Integer division rounds toward zero: the quotient carries the sign of the
/// exact quotient, and its magnitude times the divisor's magnitude falls
/// short of the dividend's magnitude by less than one divisor.
pub proof fn lemma_division_truncates(l: i64, r: i64)
    requires
        r != 0,
        fits_i64(trunc_div(l as int, r as int)),
    ensures
        expr_value(arith_bin(l, r, BinArithOp::IntDivOp)) == Ok::<Value, EvalError>(
            Value::IntValue(trunc_div(l as int, r as int) as i64),
        ),
        (l >= 0) == (r > 0) ==> trunc_div(l as int, r as int) >= 0,
        (l >= 0) != (r > 0) ==> trunc_div(l as int, r as int) <= 0,
        abs(trunc_div(l as int, r as int)) * abs(r as int) <= abs(l as int),
        abs(l as int) < abs(trunc_div(l as int, r as int)) * abs(r as int) + abs(r as int),
{
    reveal_with_fuel(arith_value, 2);
    let x = abs(l as int);
    let d = abs(r as int);
    lemma_fundamental_div_mod(x, d);
    lemma_mod_pos_bound(x, d);
    lemma_div_pos_is_pos(x, d);
    assert(abs(trunc_div(l as int, r as int)) == x / d);
    assert((x / d) * d == d * (x / d)) by (nonlinear_arith);
}

/// Each arithmetic operator on two literals gives the textbook result,
/// wherever that result fits in an `i64`.
pub proof fn lemma_arith_operator_rules(l: i64, r: i64)
    ensures
        fits_i64(l + r) ==> expr_value(arith_bin(l, r, BinArithOp::AddOp)) == Ok::<
            Value,
            EvalError,
        >(Value::IntValue((l + r) as i64)),
        fits_i64(l - r) ==> expr_value(arith_bin(l, r, BinArithOp::SubOp)) == Ok::<
            Value,
            EvalError,
        >(Value::IntValue((l - r) as i64)),
        fits_i64(l * r) ==> expr_value(arith_bin(l, r, BinArithOp::MulOp)) == Ok::<
            Value,
            EvalError,
        >(Value::IntValue((l * r) as i64)),
        !fits_i64(l + r) ==> expr_value(arith_bin(l, r, BinArithOp::AddOp)) == Err::<
            Value,
            EvalError,
        >(EvalError::ArithmeticOverflow),
        !fits_i64(l - r) ==> expr_value(arith_bin(l, r, BinArithOp::SubOp)) == Err::<
            Value,
            EvalError,
        >(EvalError::ArithmeticOverflow),
        !fits_i64(l * r) ==> expr_value(arith_bin(l, r, BinArithOp::MulOp)) == Err::<
            Value,
            EvalError,
        >(EvalError::ArithmeticOverflow),
{
    reveal_with_fuel(arith_value, 2);
}

/// Each comparison operator on two literals gives the textbook result of
/// signed integer comparison.
pub proof fn lemma_cmp_operator_rules(l: i64, r: i64)
    ensures
        expr_value(cmp_bin(l, r, ArithCmpOp::LtOp)) == Ok::<Value, EvalError>(
            Value::BoolValue(l < r),
        ),
        expr_value(cmp_bin(l, r, ArithCmpOp::LteOp)) == Ok::<Value, EvalError>(
            Value::BoolValue(l <= r),
        ),
        expr_value(cmp_bin(l, r, ArithCmpOp::GtOp)) == Ok::<Value, EvalError>(
            Value::BoolValue(l > r),
        ),
        expr_value(cmp_bin(l, r, ArithCmpOp::GteOp)) == Ok::<Value, EvalError>(
            Value::BoolValue(l >= r),
        ),
        expr_value(cmp_bin(l, r, ArithCmpOp::ArithEqOp)) == Ok::<Value, EvalError>(
            Value::BoolValue(l == r),
        ),
        expr_value(cmp_bin(l, r, ArithCmpOp::ArithNeqOp)) == Ok::<Value, EvalError>(
            Value::BoolValue(l != r),
        ),
{
    reveal_with_fuel(arith_value, 2);
}

/// Each logical operator on two literals gives its truth-table result.
pub proof fn lemma_logic_operator_rules(l: bool, r: bool)
    ensures
        expr_value(logic_bin(l, r, BinLogicOp::AndOp)) == Ok::<Value, EvalError>(
            Value::BoolValue(l && r),
        ),
        expr_value(logic_bin(l, r, BinLogicOp::OrOp)) == Ok::<Value, EvalError>(
            Value::BoolValue(l || r),
        ),
        expr_value(logic_bin(l, r, BinLogicOp::BoolEqOp)) == Ok::<Value, EvalError>(
            Value::BoolValue(l == r),
        ),
        expr_value(logic_bin(l, r, BinLogicOp::BoolNeqOp)) == Ok::<Value, EvalError>(
            Value::BoolValue(l != r),
        ),
        expr_value(Expr::BoolExpr(BoolExpr::NotExpr(Box::new(BoolExpr::BoolLit(l))))) == Ok::<
            Value,
            EvalError,
        >(Value::BoolValue(!l)),
{
    reveal_with_fuel(bool_value, 2);
}

} // verus!
