//! Constant folding and the error sentinel. `Expression::Error` marks a
//! spot where the parser could not read an expression; it is never a
//! valid operand. The folding pass here evaluates the purely numeric
//! part of an expression tree — number literals, the four arithmetic
//! operators and the comparisons — and yields nothing for anything else,
//! so an `Error` node (or an operand containing one) is skipped, never
//! evaluated, and never aborts a walk. A separate detection walk reports
//! whether an `Error` hides anywhere in an expression, including inside
//! identifier indexings and call arguments.

use vstd::prelude::*;
use std::rc::Rc;
use crate::ast::ComparisonType;
use crate::ast::Expression;
use crate::ast::IdentifierTerm;
use crate::ast::OperationCode;

verus! {

/// Result of folding a constant subexpression: a number or a truth
/// value from a comparison.
#[derive(Copy, Clone, Debug, PartialEq, Eq, Structural)]
pub enum ConstantValue {
    Int(i32),
    Truth(bool),
}

/// Meaning of a comparison operator on numbers.
pub open spec fn compare_values(a: i32, c: ComparisonType, b: i32) -> bool {
    match c {
        ComparisonType::Greater => a > b,
        ComparisonType::GreaterEqual => a >= b,
        ComparisonType::Lower => a < b,
        ComparisonType::LowerEqual => a <= b,
        ComparisonType::Equal => a == b,
        ComparisonType::Different => a != b,
    }
}

/// Meaning of a binary operator on two folded numbers. Arithmetic that
/// leaves the number range, and division by zero, do not fold.
pub open spec fn fold_operation(a: i32, op: OperationCode, b: i32) -> Option<ConstantValue> {
    match op {
        OperationCode::Mul => match a.checked_mul(b) {
            Option::Some(v) => Option::Some(ConstantValue::Int(v)),
            Option::None => Option::None,
        },
        OperationCode::Div => match a.checked_div(b) {
            Option::Some(v) => Option::Some(ConstantValue::Int(v)),
            Option::None => Option::None,
        },
        OperationCode::Add => match a.checked_add(b) {
            Option::Some(v) => Option::Some(ConstantValue::Int(v)),
            Option::None => Option::None,
        },
        OperationCode::Sub => match a.checked_sub(b) {
            Option::Some(v) => Option::Some(ConstantValue::Int(v)),
            Option::None => Option::None,
        },
        OperationCode::Comparison(c) => Option::Some(
            ConstantValue::Truth(compare_values(a, c, b)),
        ),
    }
}

/// The constant value of an expression, if it has one. Only number
/// literals and operations over them fold; string literals, identifiers,
/// calls and the `Error` sentinel never do.
pub open spec fn const_value(e: Expression) -> Option<ConstantValue>
    decreases e,
{
    match e {
        Expression::Number(n) => Option::Some(ConstantValue::Int(n)),
        Expression::Operation(l, op, r) => match (const_value(*l), const_value(*r)) {
            (
                Option::Some(ConstantValue::Int(a)),
                Option::Some(ConstantValue::Int(b)),
            ) => fold_operation(a, op, b),
            _ => Option::None,
        },
        _ => Option::None,
    }
}

/// Whether an `Error` sentinel hides anywhere in an expression.
pub open spec fn expr_has_error(e: Expression) -> bool
    decreases e,
{
    match e {
        Expression::Number(_) => false,
        Expression::String(_) => false,
        Expression::Identifier(t) => term_has_error(*t),
        Expression::FunctionCall { accessor, parameters, .. } => term_has_error(*accessor)
            || params_has_error(parameters.0@),
        Expression::Operation(l, _, r) => expr_has_error(*l) || expr_has_error(*r),
        Expression::Error => true,
    }
}

/// Whether an `Error` sentinel hides in a chain segment's indexing or
/// further down the chain.
pub open spec fn term_has_error(t: IdentifierTerm) -> bool
    decreases t,
{
    (match t.indexing {
        Option::Some(e) => expr_has_error(*e),
        Option::None => false,
    }) || (match t.nesting {
        Option::Some(rest) => term_has_error(*rest),
        Option::None => false,
    })
}

/// Whether an `Error` sentinel hides in any of a list of argument
/// expressions.
pub open spec fn params_has_error(s: Seq<Rc<Expression>>) -> bool
    decreases s,
{
    s.len() > 0 && (expr_has_error(*s[0]) || params_has_error(s.subrange(1, s.len() as int)))
}

/// An expression holding an `Error` sentinel in its operand tree never
/// folds to a constant: the sentinel is excluded from evaluation rather
/// than treated as an operand.
pub proof fn lemma_error_is_never_folded(e: &Expression)
    ensures
        expr_has_error(*e) ==> const_value(*e) is None,
    decreases *e,
{
    match e {
        Expression::Operation(l, op, r) => {
            lemma_error_is_never_folded(&**l);
            lemma_error_is_never_folded(&**r);
        },
        _ => {},
    }
}

/// Fold a binary operator applied to two folded numbers.
pub fn eval_operation(a: i32, op: OperationCode, b: i32) -> (r: Option<ConstantValue>)
    ensures
        r == fold_operation(a, op, b),
{
    match op {
        OperationCode::Mul => match a.checked_mul(b) {
            Option::Some(v) => Option::Some(ConstantValue::Int(v)),
            Option::None => Option::None,
        },
        OperationCode::Div => match a.checked_div(b) {
            Option::Some(v) => Option::Some(ConstantValue::Int(v)),
            Option::None => Option::None,
        },
        OperationCode::Add => match a.checked_add(b) {
            Option::Some(v) => Option::Some(ConstantValue::Int(v)),
            Option::None => Option::None,
        },
        OperationCode::Sub => match a.checked_sub(b) {
            Option::Some(v) => Option::Some(ConstantValue::Int(v)),
            Option::None => Option::None,
        },
        OperationCode::Comparison(c) => {
            let truth: bool = match c {
                ComparisonType::Greater => a > b,
                ComparisonType::GreaterEqual => a >= b,
                ComparisonType::Lower => a < b,
                ComparisonType::LowerEqual => a <= b,
                ComparisonType::Equal => a == b,
                ComparisonType::Different => a != b,
            };
            Option::Some(ConstantValue::Truth(truth))
        },
    }
}

/// Fold an expression to its constant value, if it has one. The walk is
/// total: an `Error` sentinel anywhere simply yields nothing.
pub fn const_eval(e: &Expression) -> (r: Option<ConstantValue>)
    ensures
        r == const_value(*e),
    decreases *e,
{
    match e {
        Expression::Number(n) => Option::Some(ConstantValue::Int(*n)),
        Expression::Operation(l, op, r2) => {
            let lv = const_eval(&**l);
            let rv = const_eval(&**r2);
            match (lv, rv) {
                (
                    Option::Some(ConstantValue::Int(a)),
                    Option::Some(ConstantValue::Int(b)),
                ) => eval_operation(a, *op, b),
                _ => Option::None,
            }
        },
        _ => Option::None,
    }
}

/// Report whether an `Error` sentinel hides anywhere in an expression.
/// The walk is total: it detects and reports the sentinel without
/// aborting.
pub fn expression_has_error(e: &Expression) -> (r: bool)
    ensures
        r == expr_has_error(*e),
    decreases *e, 0int,
{
    match e {
        Expression::Number(_) => false,
        Expression::String(_) => false,
        Expression::Identifier(t) => identifier_term_has_error(&**t),
        Expression::FunctionCall { accessor, parameters, .. } => {
            if identifier_term_has_error(&**accessor) {
                true
            } else {
                proof {
                    assert(parameters.0@.subrange(0, parameters.0@.len() as int)
                        =~= parameters.0@);
                }
                params_have_error(&parameters.0, 0)
            }
        },
        Expression::Operation(l, _, r2) => {
            if expression_has_error(&**l) {
                true
            } else {
                expression_has_error(&**r2)
            }
        },
        Expression::Error => true,
    }
}

/// Report whether an `Error` sentinel hides in a chain segment's
/// indexing or further down the chain.
pub fn identifier_term_has_error(t: &IdentifierTerm) -> (r: bool)
    ensures
        r == term_has_error(*t),
    decreases *t, 0int,
{
    let in_indexing: bool = match &t.indexing {
        Option::Some(e) => expression_has_error(&**e),
        Option::None => false,
    };
    if in_indexing {
        true
    } else {
        match &t.nesting {
            Option::Some(rest) => identifier_term_has_error(&**rest),
            Option::None => false,
        }
    }
}

/// Report whether an `Error` sentinel hides in any argument expression
/// at or after the given position.
pub fn params_have_error(params: &Vec<Rc<Expression>>, from: usize) -> (r: bool)
    requires
        from <= params@.len(),
    ensures
        r == params_has_error(params@.subrange(from as int, params@.len() as int)),
    decreases params@, params@.len() - from,
{
    let ghost tail = params@.subrange(from as int, params@.len() as int);
    if from == params.len() {
        false
    } else {
        proof {
            assert(tail[0] == params@[from as int]);
            assert(tail.subrange(1, tail.len() as int) =~= params@.subrange(
                from + 1,
                params@.len() as int,
            ));
        }
        if expression_has_error(&params[from]) {
            true
        } else {
            params_have_error(params, from + 1)
        }
    }
}

} // verus!
