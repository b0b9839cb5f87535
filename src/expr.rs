use vstd::prelude::*;

use crate::trace::{advice_value, is_enabled, Trace, TraceView};

verus! {

/// A polynomial expression over the cells of the current row.
#[derive(Debug)]
pub enum Expr {
    Constant(u64),
    /// The advice column with this index, at the current row.
    Advice(usize),
    /// The selector with this index: one where it is switched on, zero elsewhere.
    Selector(usize),
    Negated(Box<Expr>),
    Sum(Box<Expr>, Box<Expr>),
    Product(Box<Expr>, Box<Expr>),
}

/// The value of `e` at `row` of the trace, over the integers.
pub open spec fn eval(e: Expr, tv: TraceView, row: int) -> int
    decreases e,
{
    match e {
        Expr::Constant(c) => c as int,
        Expr::Advice(c) => advice_value(tv, c as int, row),
        Expr::Selector(s) => if is_enabled(tv, s as int, row) { 1 } else { 0 },
        Expr::Negated(a) => -eval(*a, tv, row),
        Expr::Sum(a, b) => eval(*a, tv, row) + eval(*b, tv, row),
        Expr::Product(a, b) => eval(*a, tv, row) * eval(*b, tv, row),
    }
}

pub open spec fn fits_i128(v: int) -> bool {
    i128::MIN <= v <= i128::MAX
}

/// `e` and each of its subexpressions evaluate within the range of `i128` at `row`.
pub open spec fn evaluable(e: Expr, tv: TraceView, row: int) -> bool
    decreases e,
{
    fits_i128(eval(e, tv, row)) && match e {
        Expr::Negated(a) => evaluable(*a, tv, row),
        Expr::Sum(a, b) => evaluable(*a, tv, row) && evaluable(*b, tv, row),
        Expr::Product(a, b) => evaluable(*a, tv, row) && evaluable(*b, tv, row),
        _ => true,
    }
}

/// Evaluates `e` at `row`; `None` where some subexpression leaves the range of `i128`.
pub fn evaluate(e: &Expr, trace: &Trace, row: usize) -> (r: Option<i128>)
    ensures
        r == (if evaluable(*e, trace@, row as int) {
            Some(eval(*e, trace@, row as int) as i128)
        } else {
            None
        }),
    decreases e,
{
    match e {
        Expr::Constant(c) => Some(*c as i128),
        Expr::Advice(c) => match trace.advice_cell(*c, row) {
            Some(v) => Some(v as i128),
            None => Some(0),
        },
        Expr::Selector(s) => if trace.is_enabled(*s, row) {
            Some(1)
        } else {
            Some(0)
        },
        Expr::Negated(a) => match evaluate(a, trace, row) {
            Some(x) => if x == i128::MIN {
                None
            } else {
                Some(-x)
            },
            None => None,
        },
        Expr::Sum(a, b) => match (evaluate(a, trace, row), evaluate(b, trace, row)) {
            (Some(x), Some(y)) => x.checked_add(y),
            _ => None,
        },
        Expr::Product(a, b) => match (evaluate(a, trace, row), evaluate(b, trace, row)) {
            (Some(x), Some(y)) => x.checked_mul(y),
            _ => None,
        },
    }
}

} // verus!
