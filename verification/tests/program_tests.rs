use std::rc::Rc;

use script_ast::ast::AssignmentType;
use script_ast::ast::ClassBodyStatement;
use script_ast::ast::ClassDeclaration;
use script_ast::ast::ClassType;
use script_ast::ast::EncapsulationType;
use script_ast::ast::Expression;
use script_ast::ast::FunctionBodyStatement;
use script_ast::ast::FunctionDeclaration;
use script_ast::ast::FunctionType;
use script_ast::ast::IdentifierTerm;
use script_ast::ast::Program;
use script_ast::ast::Statement;
use script_ast::ast::StructBodyStatement;
use script_ast::ast::StructDeclaration;
use script_ast::ast::TypeDeclaration;
use script_ast::ast::TypedIdentifier;
use script_ast::ast::VariableAssignment;
use script_ast::ast::VariableDeclaration;
use script_ast::ast::WhileStatement;
use script_ast::errors::program_has_error;
use script_ast::errors::statement_has_error;

fn number(n: i32) -> Rc<Expression> {
    Rc::new(Expression::Number(n))
}

fn binding(name: &str, initializer: Option<Rc<Expression>>) -> VariableDeclaration {
    VariableDeclaration::new(
        TypedIdentifier::new(
            String::from(name),
            TypeDeclaration::new(String::from("int"), None),
        ),
        initializer,
    )
}

fn method_with_body(name: &str, body: Vec<FunctionBodyStatement>) -> ClassBodyStatement {
    ClassBodyStatement::Method {
        encapsulation: Some(EncapsulationType::Public),
        function_declaration: Rc::new(FunctionDeclaration::new(
            FunctionType::Function,
            String::from(name),
            None,
            Vec::new(),
            None,
            body,
            true,
        )),
    }
}

#[test]
fn error_buried_in_a_class_method_body_is_found() {
    let poisoned_loop = FunctionBodyStatement::WhileStatement(WhileStatement::new(
        number(1),
        vec![FunctionBodyStatement::Return(Rc::new(Expression::Error))],
    ));
    let class = ClassDeclaration::new(
        ClassType::Class,
        String::from("Guard"),
        None,
        vec![method_with_body("patrol", vec![poisoned_loop])],
    );
    let program = Program::new(vec![Statement::ClassDeclaration(class)]);
    assert!(program_has_error(&program));
}

#[test]
fn clean_program_reports_no_error() {
    let class = ClassDeclaration::new(
        ClassType::Class,
        String::from("Guard"),
        Some(String::from("Actor")),
        vec![
            method_with_body(
                "patrol",
                vec![FunctionBodyStatement::Return(number(0))],
            ),
            ClassBodyStatement::Property {
                encapsulation: None,
                property_declaration: binding("health", Some(number(100))),
            },
        ],
    );
    let aggregate = StructDeclaration::new(
        String::from("Position"),
        vec![StructBodyStatement::Property(binding("x", None))],
    );
    let program = Program::new(vec![
        Statement::ClassDeclaration(class),
        Statement::StructDeclaration(aggregate),
        Statement::Expression(number(3)),
    ]);
    assert!(!program_has_error(&program));
}

#[test]
fn error_in_a_struct_default_value_is_found() {
    let aggregate = StructDeclaration::new(
        String::from("Position"),
        vec![StructBodyStatement::DefaultValue(VariableAssignment::new(
            Box::new(IdentifierTerm::new(String::from("x"), None, None)),
            AssignmentType::Equal,
            Rc::new(Expression::Error),
        ))],
    );
    let statement = Statement::StructDeclaration(aggregate);
    assert!(statement_has_error(&statement));
}

#[test]
fn error_in_a_top_level_expression_is_found() {
    let program = Program::new(vec![Statement::Expression(Rc::new(Expression::Error))]);
    assert!(program_has_error(&program));
}
