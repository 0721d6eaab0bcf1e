use std::rc::Rc;

use script_ast::ast::ComparisonType;
use script_ast::ast::Expression;
use script_ast::ast::FunctionCallParameters;
use script_ast::ast::IdentifierTerm;
use script_ast::ast::IfStatement;
use script_ast::ast::OperationCode;
use script_ast::cascade::select_branch;
use script_ast::folding::ConstantValue;
use script_ast::folding::const_eval;
use script_ast::folding::eval_operation;
use script_ast::folding::expression_has_error;
use script_ast::resolve::expression_identifiers;

fn number(n: i32) -> Rc<Expression> {
    Rc::new(Expression::Number(n))
}

fn operation(left: Rc<Expression>, code: OperationCode, right: Rc<Expression>) -> Rc<Expression> {
    Rc::new(Expression::Operation(left, code, right))
}

fn comparison(left: i32, code: ComparisonType, right: i32) -> Rc<Expression> {
    operation(number(left), OperationCode::Comparison(code), number(right))
}

fn else_link(condition: Option<Rc<Expression>>) -> Box<IfStatement> {
    Box::new(IfStatement::Else { condition, body_statements: Vec::new() })
}

#[test]
fn arithmetic_folds_to_exact_values() {
    let sum = operation(number(2), OperationCode::Add, number(3));
    assert_eq!(const_eval(&sum), Some(ConstantValue::Int(5)));
    let product = operation(number(-4), OperationCode::Mul, number(6));
    assert_eq!(const_eval(&product), Some(ConstantValue::Int(-24)));
    let difference = operation(number(2), OperationCode::Sub, number(3));
    assert_eq!(const_eval(&difference), Some(ConstantValue::Int(-1)));
    // division truncates toward zero, as the runtime's numbers do
    let quotient = operation(number(-7), OperationCode::Div, number(2));
    assert_eq!(const_eval(&quotient), Some(ConstantValue::Int(-3)));
}

#[test]
fn comparisons_fold_to_truth_values() {
    assert_eq!(
        const_eval(&comparison(1, ComparisonType::Lower, 2)),
        Some(ConstantValue::Truth(true))
    );
    assert_eq!(
        const_eval(&comparison(2, ComparisonType::Lower, 2)),
        Some(ConstantValue::Truth(false))
    );
    assert_eq!(
        const_eval(&comparison(2, ComparisonType::LowerEqual, 2)),
        Some(ConstantValue::Truth(true))
    );
    assert_eq!(
        const_eval(&comparison(3, ComparisonType::Different, 4)),
        Some(ConstantValue::Truth(true))
    );
}

#[test]
fn overflow_and_division_by_zero_do_not_fold() {
    let overflow = operation(number(i32::MAX), OperationCode::Add, number(1));
    assert_eq!(const_eval(&overflow), None);
    let by_zero = operation(number(1), OperationCode::Div, number(0));
    assert_eq!(const_eval(&by_zero), None);
    assert_eq!(eval_operation(i32::MIN, OperationCode::Div, -1), None);
}

#[test]
fn error_sentinel_is_skipped_not_evaluated() {
    // an Error operand poisons folding but never aborts the walk
    let poisoned = operation(number(1), OperationCode::Add, Rc::new(Expression::Error));
    assert_eq!(const_eval(&poisoned), None);
    assert!(expression_has_error(&poisoned));
    let clean = operation(number(1), OperationCode::Add, number(2));
    assert!(!expression_has_error(&clean));
}

#[test]
fn error_sentinel_is_found_inside_call_arguments_and_indexing() {
    let call = Expression::FunctionCall {
        accessor: Box::new(IdentifierTerm::new(String::from("lookup"), None, None)),
        generic_types: None,
        parameters: FunctionCallParameters::new(vec![number(1), Rc::new(Expression::Error)]),
    };
    assert!(expression_has_error(&call));
    let indexed = Expression::Identifier(Box::new(IdentifierTerm::new(
        String::from("items"),
        Some(Rc::new(Expression::Error)),
        None,
    )));
    assert!(expression_has_error(&indexed));
    let plain = Expression::Identifier(Box::new(IdentifierTerm::new(
        String::from("items"),
        Some(number(0)),
        None,
    )));
    assert!(!expression_has_error(&plain));
}

#[test]
fn identifier_resolution_walk_skips_error_without_aborting() {
    // a.b[c] + foo(d, Error): the walk lists every identifier in reading
    // order and the Error argument contributes nothing
    let chain = Expression::Identifier(Box::new(IdentifierTerm::new(
        String::from("a"),
        None,
        Some(Box::new(IdentifierTerm::new(
            String::from("b"),
            Some(Rc::new(Expression::Identifier(Box::new(IdentifierTerm::new(
                String::from("c"),
                None,
                None,
            ))))),
            None,
        ))),
    )));
    let call = Expression::FunctionCall {
        accessor: Box::new(IdentifierTerm::new(String::from("foo"), None, None)),
        generic_types: None,
        parameters: FunctionCallParameters::new(vec![
            Rc::new(Expression::Identifier(Box::new(IdentifierTerm::new(
                String::from("d"),
                None,
                None,
            )))),
            Rc::new(Expression::Error),
        ]),
    };
    let sum = Expression::Operation(Rc::new(chain), OperationCode::Add, Rc::new(call));
    let names = expression_identifiers(&sum);
    assert_eq!(names, vec!["a", "b", "c", "foo", "d"]);
}

#[test]
fn cascade_selects_first_true_condition_in_source_order() {
    // if (1 < 0) ... elif (2 < 1) ... elif (1 < 2) ... else ...
    let cascade = IfStatement::If {
        condition: comparison(1, ComparisonType::Lower, 0),
        body_statements: Vec::new(),
        else_statements: vec![
            else_link(Some(comparison(2, ComparisonType::Lower, 1))),
            else_link(Some(comparison(1, ComparisonType::Lower, 2))),
            else_link(None),
        ],
    };
    assert_eq!(select_branch(&cascade), Some(2));
}

#[test]
fn cascade_falls_back_to_unconditioned_link() {
    let cascade = IfStatement::If {
        condition: comparison(1, ComparisonType::Lower, 0),
        body_statements: Vec::new(),
        else_statements: vec![
            else_link(Some(comparison(2, ComparisonType::Lower, 1))),
            else_link(Some(comparison(3, ComparisonType::Lower, 2))),
            else_link(None),
        ],
    };
    assert_eq!(select_branch(&cascade), Some(3));
}

#[test]
fn cascade_with_no_true_condition_and_no_catch_all_selects_nothing() {
    let cascade = IfStatement::If {
        condition: comparison(1, ComparisonType::Lower, 0),
        body_statements: Vec::new(),
        else_statements: vec![else_link(Some(comparison(2, ComparisonType::Lower, 1)))],
    };
    assert_eq!(select_branch(&cascade), None);
}

#[test]
fn cascade_root_condition_wins_when_true() {
    let cascade = IfStatement::If {
        condition: comparison(0, ComparisonType::Lower, 1),
        body_statements: Vec::new(),
        else_statements: vec![else_link(None)],
    };
    assert_eq!(select_branch(&cascade), Some(0));
}

#[test]
fn cascade_with_unfoldable_condition_selects_nothing() {
    // the deciding condition reads a variable, so folding cannot decide it
    let unfoldable = Rc::new(Expression::Identifier(Box::new(IdentifierTerm::new(
        String::from("flag"),
        None,
        None,
    ))));
    let cascade = IfStatement::If {
        condition: unfoldable,
        body_statements: Vec::new(),
        else_statements: vec![else_link(None)],
    };
    assert_eq!(select_branch(&cascade), None);
}
