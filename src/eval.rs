use vstd::prelude::*;

use crate::ast::{ArithCmpOp, ArithExpr, BinArithOp, BinLogicOp, BoolExpr, EvalError, Expr, Value};

verus! {

// ---------------------------------------------------------------------------
// Semantics
// ---------------------------------------------------------------------------

pub open spec fn fits_i64(x: int) -> bool {
    i64::MIN <= x <= i64::MAX
}

/// An exact integer result, or `ArithmeticOverflow` when it leaves `i64`.
pub open spec fn checked_result(x: int) -> Result<i64, EvalError> {
    if fits_i64(x) {
        Ok(x as i64)
    } else {
        Err(EvalError::ArithmeticOverflow)
    }
}

pub open spec fn abs(x: int) -> int {
    if x < 0 {
        -x
    } else {
        x
    }
}

/// Integer division rounded toward zero: `-7 / 2 == -3`.
pub open spec fn trunc_div(x: int, d: int) -> int {
    if (x < 0) == (d < 0) {
        abs(x) / abs(d)
    } else {
        -(abs(x) / abs(d))
    }
}

pub open spec fn arith_op_value(op: BinArithOp, l: i64, r: i64) -> Result<i64, EvalError> {
    match op {
        BinArithOp::AddOp => checked_result(l + r),
        BinArithOp::SubOp => checked_result(l - r),
        BinArithOp::MulOp => checked_result(l * r),
        BinArithOp::IntDivOp => if r == 0 {
            Err(EvalError::DivisionByZero)
        } else {
            checked_result(trunc_div(l as int, r as int))
        },
    }
}

pub open spec fn cmp_op_value(op: ArithCmpOp, l: i64, r: i64) -> bool {
    match op {
        ArithCmpOp::LtOp => l < r,
        ArithCmpOp::LteOp => l <= r,
        ArithCmpOp::GtOp => l > r,
        ArithCmpOp::GteOp => l >= r,
        ArithCmpOp::ArithEqOp => l == r,
        ArithCmpOp::ArithNeqOp => l != r,
    }
}

pub open spec fn logic_op_value(op: BinLogicOp, l: bool, r: bool) -> bool {
    match op {
        BinLogicOp::AndOp => l && r,
        BinLogicOp::OrOp => l || r,
        BinLogicOp::BoolEqOp => l == r,
        BinLogicOp::BoolNeqOp => l != r,
    }
}

/// The meaning of an integer expression: operands left to right, the first
/// failure wins.
pub open spec fn arith_value(e: ArithExpr) -> Result<i64, EvalError>
    decreases e,
{
    match e {
        ArithExpr::IntLit(n) => Ok(n),
        ArithExpr::BinArithExpr { left, right, op } => match arith_value(*left) {
            Err(err) => Err(err),
            Ok(l) => match arith_value(*right) {
                Err(err) => Err(err),
                Ok(r) => arith_op_value(op, l, r),
            },
        },
    }
}

/// The meaning of a boolean expression. Both operands of a binary node are
/// evaluated, left first; there is no short-circuit.
pub open spec fn bool_value(e: BoolExpr) -> Result<bool, EvalError>
    decreases e,
{
    match e {
        BoolExpr::BoolLit(b) => Ok(b),
        BoolExpr::NotExpr(inner) => match bool_value(*inner) {
            Err(err) => Err(err),
            Ok(b) => Ok(!b),
        },
        BoolExpr::ArithCmpExpr { left, right, op } => match arith_value(*left) {
            Err(err) => Err(err),
            Ok(l) => match arith_value(*right) {
                Err(err) => Err(err),
                Ok(r) => Ok(cmp_op_value(op, l, r)),
            },
        },
        BoolExpr::BinBoolExpr { left, right, op } => match bool_value(*left) {
            Err(err) => Err(err),
            Ok(l) => match bool_value(*right) {
                Err(err) => Err(err),
                Ok(r) => Ok(logic_op_value(op, l, r)),
            },
        },
    }
}

/// The meaning of an expression, tagged with its sort.
pub open spec fn expr_value(e: Expr) -> Result<Value, EvalError> {
    match e {
        Expr::ArithExpr(a) => match arith_value(a) {
            Err(err) => Err(err),
            Ok(n) => Ok(Value::IntValue(n)),
        },
        Expr::BoolExpr(b) => match bool_value(b) {
            Err(err) => Err(err),
            Ok(v) => Ok(Value::BoolValue(v)),
        },
    }
}

// ---------------------------------------------------------------------------
// Operators
// ---------------------------------------------------------------------------

proof fn lemma_checked_div_truncates(x: i64, d: i64)
    requires
        d != 0,
    ensures
        x.checked_div(d) == match checked_result(trunc_div(x as int, d as int)) {
            Ok(q) => Some(q),
            Err(_) => None::<i64>,
        },
{
}

impl BinArithOp {
    /// Applies the operator to two evaluated operands.
    pub fn apply(self, l: i64, r: i64) -> (res: Result<i64, EvalError>)
        ensures
            res == arith_op_value(self, l, r),
    {
        let exact = match self {
            BinArithOp::AddOp => l.checked_add(r),
            BinArithOp::SubOp => l.checked_sub(r),
            BinArithOp::MulOp => l.checked_mul(r),
            BinArithOp::IntDivOp => {
                if r == 0 {
                    return Err(EvalError::DivisionByZero);
                }
                proof {
                    lemma_checked_div_truncates(l, r);
                }
                l.checked_div(r)
            },
        };
        match exact {
            Some(v) => Ok(v),
            None => Err(EvalError::ArithmeticOverflow),
        }
    }
}

impl ArithCmpOp {
    /// Compares two evaluated operands as signed integers.
    pub fn apply(self, l: i64, r: i64) -> (res: bool)
        ensures
            res == cmp_op_value(self, l, r),
    {
        match self {
            ArithCmpOp::LtOp => l < r,
            ArithCmpOp::LteOp => l <= r,
            ArithCmpOp::GtOp => l > r,
            ArithCmpOp::GteOp => l >= r,
            ArithCmpOp::ArithEqOp => l == r,
            ArithCmpOp::ArithNeqOp => l != r,
        }
    }
}

impl BinLogicOp {
    /// Combines two evaluated boolean operands.
    pub fn apply(self, l: bool, r: bool) -> (res: bool)
        ensures
            res == logic_op_value(self, l, r),
    {
        match self {
            BinLogicOp::AndOp => l && r,
            BinLogicOp::OrOp => l || r,
            BinLogicOp::BoolEqOp => l == r,
            BinLogicOp::BoolNeqOp => l != r,
        }
    }
}

// ---------------------------------------------------------------------------
// Evaluation
// ---------------------------------------------------------------------------

/// Evaluates an expression to a value of its sort.
pub fn eval(expr: Expr) -> (res: Result<Value, EvalError>)
    ensures
        res == expr_value(expr),
{
    match expr {
        Expr::ArithExpr(a) => match eval_arith_expr(a) {
            Ok(n) => Ok(Value::IntValue(n)),
            Err(err) => Err(err),
        },
        Expr::BoolExpr(b) => match eval_bool_expr(b) {
            Ok(v) => Ok(Value::BoolValue(v)),
            Err(err) => Err(err),
        },
    }
}

/// Evaluates an integer expression.
pub fn eval_arith_expr(arith_expr: ArithExpr) -> (res: Result<i64, EvalError>)
    ensures
        res == arith_value(arith_expr),
    decreases arith_expr,
{
    match arith_expr {
        ArithExpr::IntLit(n) => Ok(n),
        ArithExpr::BinArithExpr { left, right, op } => {
            let l = match eval_arith_expr(*left) {
                Ok(l) => l,
                Err(err) => return Err(err),
            };
            let r = match eval_arith_expr(*right) {
                Ok(r) => r,
                Err(err) => return Err(err),
            };
            op.apply(l, r)
        },
    }
}

/// Evaluates a boolean expression.
pub fn eval_bool_expr(bool_expr: BoolExpr) -> (res: Result<bool, EvalError>)
    ensures
        res == bool_value(bool_expr),
    decreases bool_expr,
{
    match bool_expr {
        BoolExpr::BoolLit(b) => Ok(b),
        BoolExpr::NotExpr(inner) => match eval_bool_expr(*inner) {
            Ok(b) => Ok(!b),
            Err(err) => Err(err),
        },
        BoolExpr::ArithCmpExpr { left, right, op } => {
            let l = match eval_arith_expr(*left) {
                Ok(l) => l,
                Err(err) => return Err(err),
            };
            let r = match eval_arith_expr(*right) {
                Ok(r) => r,
                Err(err) => return Err(err),
            };
            Ok(op.apply(l, r))
        },
        BoolExpr::BinBoolExpr { left, right, op } => {
            let l = match eval_bool_expr(*left) {
                Ok(l) => l,
                Err(err) => return Err(err),
            };
            let r = match eval_bool_expr(*right) {
                Ok(r) => r,
                Err(err) => return Err(err),
            };
            Ok(op.apply(l, r))
        },
    }
}

} // verus!
