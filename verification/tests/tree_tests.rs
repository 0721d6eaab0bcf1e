use std::rc::Rc;

use script_ast::ast::AssignmentType;
use script_ast::ast::ClassDeclaration;
use script_ast::ast::ClassType;
use script_ast::ast::ComparisonType;
use script_ast::ast::Expression;
use script_ast::ast::ForStatement;
use script_ast::ast::FunctionDeclaration;
use script_ast::ast::FunctionType;
use script_ast::ast::IdentifierTerm;
use script_ast::ast::OperationCode;
use script_ast::ast::Program;
use script_ast::ast::Statement;
use script_ast::ast::StructDeclaration;
use script_ast::ast::TypeDeclaration;
use script_ast::ast::TypedIdentifier;
use script_ast::ast::VariableAssignment;
use script_ast::ast::VariableDeclaration;
use script_ast::ast::VariableDeclarationOrAssignment;
use script_ast::chains::flatten_segments;
use script_ast::chains::link_chain;
use script_ast::visit::count_statement_forms;

fn number(n: i32) -> Rc<Expression> {
    Rc::new(Expression::Number(n))
}

fn simple_identifier(text: &str) -> Box<IdentifierTerm> {
    Box::new(IdentifierTerm::new(String::from(text), None, None))
}

fn plain_type(name: &str) -> TypeDeclaration {
    TypeDeclaration::new(String::from(name), None)
}

#[test]
fn every_statement_form_is_counted_exactly_once() {
    let function = FunctionDeclaration::new(
        FunctionType::Function,
        String::from("tick"),
        None,
        Vec::new(),
        None,
        Vec::new(),
        false,
    );
    let class = ClassDeclaration::new(
        ClassType::StatemachineClass,
        String::from("Guard"),
        Some(String::from("Actor")),
        Vec::new(),
    );
    let aggregate = StructDeclaration::new(String::from("Position"), Vec::new());
    let program = Program::new(vec![
        Statement::Expression(number(1)),
        Statement::FunctionDeclaration(Rc::new(function)),
        Statement::ClassDeclaration(class),
        Statement::StructDeclaration(aggregate),
    ]);
    let counts = count_statement_forms(&program);
    assert_eq!(counts.expressions, 1);
    assert_eq!(counts.function_declarations, 1);
    assert_eq!(counts.class_declarations, 1);
    assert_eq!(counts.struct_declarations, 1);
}

#[test]
fn empty_program_counts_nothing() {
    let program = Program::new(Vec::new());
    let counts = count_statement_forms(&program);
    assert_eq!(counts.expressions, 0);
    assert_eq!(counts.function_declarations, 0);
    assert_eq!(counts.class_declarations, 0);
    assert_eq!(counts.struct_declarations, 0);
}

#[test]
fn chain_keeps_left_to_right_order_and_indexing_attachment() {
    // a.b[7].c : indexing belongs to the middle segment only
    let parts = vec![
        IdentifierTerm::new(String::from("a"), None, None),
        IdentifierTerm::new(String::from("b"), Some(number(7)), None),
        IdentifierTerm::new(String::from("c"), None, None),
    ];
    let chain = link_chain(parts).expect("three segments make a chain");
    let segments = flatten_segments(&chain);
    assert_eq!(segments.len(), 3);
    assert_eq!(segments[0].0, "a");
    assert_eq!(segments[1].0, "b");
    assert_eq!(segments[2].0, "c");
    assert!(segments[0].1.is_none());
    assert!(segments[2].1.is_none());
    let middle = segments[1].1.as_ref().expect("b carries its indexing");
    assert!(matches!(**middle, Expression::Number(7)));
}

#[test]
fn indexing_position_distinguishes_chains() {
    // a[0].b and a.b[0] are different structures
    let first = link_chain(vec![
        IdentifierTerm::new(String::from("a"), Some(number(0)), None),
        IdentifierTerm::new(String::from("b"), None, None),
    ])
    .unwrap();
    let second = link_chain(vec![
        IdentifierTerm::new(String::from("a"), None, None),
        IdentifierTerm::new(String::from("b"), Some(number(0)), None),
    ])
    .unwrap();
    let first_segments = flatten_segments(&first);
    let second_segments = flatten_segments(&second);
    assert!(first_segments[0].1.is_some() && first_segments[1].1.is_none());
    assert!(second_segments[0].1.is_none() && second_segments[1].1.is_some());
}

#[test]
fn repeated_statement_forms_are_each_counted() {
    let program = Program::new(vec![
        Statement::Expression(number(1)),
        Statement::Expression(number(2)),
        Statement::Expression(number(3)),
        Statement::StructDeclaration(StructDeclaration::new(
            String::from("Position"),
            Vec::new(),
        )),
    ]);
    let counts = count_statement_forms(&program);
    assert_eq!(counts.expressions, 3);
    assert_eq!(counts.function_declarations, 0);
    assert_eq!(counts.class_declarations, 0);
    assert_eq!(counts.struct_declarations, 1);
}

#[test]
fn linking_no_segments_gives_no_chain() {
    assert!(link_chain(Vec::new()).is_none());
}

#[test]
fn single_segment_chain_flattens_to_itself() {
    let chain = IdentifierTerm::new(String::from("this"), None, None);
    let segments = flatten_segments(&chain);
    assert_eq!(segments.len(), 1);
    assert_eq!(segments[0].0, "this");
    assert!(segments[0].1.is_none());
}

#[test]
fn for_loop_scenario_builds_expected_structure() {
    // for (i: int = 0; i < 10; i += 1) { }
    let initialization = VariableDeclarationOrAssignment::Declaration(VariableDeclaration::new(
        TypedIdentifier::new(String::from("i"), plain_type("int")),
        Some(number(0)),
    ));
    let condition = Rc::new(Expression::Operation(
        Rc::new(Expression::Identifier(simple_identifier("i"))),
        OperationCode::Comparison(ComparisonType::Lower),
        number(10),
    ));
    let iteration = VariableAssignment::new(
        simple_identifier("i"),
        AssignmentType::PlusEqual,
        number(1),
    );
    let for_statement = ForStatement::new(
        Some(initialization),
        condition,
        iteration,
        Vec::new(),
    );

    match for_statement.initialization {
        Some(VariableDeclarationOrAssignment::Declaration(ref declaration)) => {
            assert_eq!(declaration.declaration.name, "i");
            assert_eq!(declaration.declaration.type_declaration.name, "int");
            assert!(declaration.declaration.type_declaration.generic_type_assignment.is_none());
            let initializer = declaration
                .following_expression
                .as_ref()
                .expect("i starts at 0");
            assert!(matches!(**initializer, Expression::Number(0)));
        },
        _ => panic!("initialization must be a declaration of i"),
    }
    match *for_statement.condition {
        Expression::Operation(ref left, OperationCode::Comparison(ComparisonType::Lower), ref right) => {
            match **left {
                Expression::Identifier(ref term) => assert_eq!(term.text, "i"),
                _ => panic!("condition compares the identifier i"),
            }
            assert!(matches!(**right, Expression::Number(10)));
        },
        _ => panic!("condition must be a Lower comparison"),
    }
    assert_eq!(for_statement.iteration.variable_name.text, "i");
    assert!(matches!(
        for_statement.iteration.assignment_type,
        AssignmentType::PlusEqual
    ));
    assert!(matches!(
        *for_statement.iteration.following_expression,
        Expression::Number(1)
    ));
    assert!(for_statement.body_statements.is_empty());
}
