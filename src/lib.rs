//! An evaluator for a small two-sorted expression language of integer
//! arithmetic and booleans, verified against a mathematical semantics.
pub mod ast;
pub mod eval;
pub mod laws;

pub use ast::{ArithCmpOp, ArithExpr, BinArithOp, BinLogicOp, BoolExpr, EvalError, Expr, Value};
pub use eval::{eval, eval_arith_expr, eval_bool_expr};
