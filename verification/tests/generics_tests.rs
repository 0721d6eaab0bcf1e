use std::rc::Rc;

use script_ast::ast::Expression;
use script_ast::ast::FunctionCallParameters;
use script_ast::ast::FunctionDeclaration;
use script_ast::ast::FunctionType;
use script_ast::ast::IdentifierTerm;
use script_ast::ast::TypeDeclaration;
use script_ast::generics::flatten_type;
use script_ast::registry::ProgramInformation;

fn generic_type(name: &str, arguments: Vec<TypeDeclaration>) -> TypeDeclaration {
    TypeDeclaration::new(String::from(name), Some(arguments))
}

fn plain_type(name: &str) -> TypeDeclaration {
    TypeDeclaration::new(String::from(name), None)
}

#[test]
fn nested_generic_type_flattens_in_preorder() {
    // Map<string, Array<int>>
    let declaration = generic_type(
        "Map",
        vec![plain_type("string"), generic_type("Array", vec![plain_type("int")])],
    );
    let tokens = flatten_type(&declaration);
    assert_eq!(tokens.len(), 4);
    assert_eq!(tokens[0], (String::from("Map"), Some(2)));
    assert_eq!(tokens[1], (String::from("string"), None));
    assert_eq!(tokens[2], (String::from("Array"), Some(1)));
    assert_eq!(tokens[3], (String::from("int"), None));
}

#[test]
fn absent_generic_arguments_differ_from_empty_list() {
    let absent = plain_type("array");
    let empty = generic_type("array", Vec::new());
    let absent_tokens = flatten_type(&absent);
    let empty_tokens = flatten_type(&empty);
    assert_eq!(absent_tokens, vec![(String::from("array"), None)]);
    assert_eq!(empty_tokens, vec![(String::from("array"), Some(0))]);
    assert_ne!(absent_tokens, empty_tokens);
}

#[test]
fn registry_records_one_generic_declaration_and_one_generic_call() {
    let mut information = ProgramInformation::new();
    assert!(information.generic_functions.is_empty());
    assert!(information.generic_function_calls.is_empty());

    // a generic function foo<T> and a plain function beside it
    let generic_function = Rc::new(FunctionDeclaration::new(
        FunctionType::Function,
        String::from("foo"),
        Some(vec![String::from("T")]),
        Vec::new(),
        None,
        Vec::new(),
        false,
    ));
    let plain_function = Rc::new(FunctionDeclaration::new(
        FunctionType::Function,
        String::from("bar"),
        None,
        Vec::new(),
        None,
        Vec::new(),
        false,
    ));
    information.record_function_declaration(&generic_function);
    information.record_function_declaration(&plain_function);

    // the call foo<int>(5), and a plain expression beside it
    let call = Rc::new(Expression::FunctionCall {
        accessor: Box::new(IdentifierTerm::new(String::from("foo"), None, None)),
        generic_types: Some(vec![String::from("int")]),
        parameters: FunctionCallParameters::new(vec![Rc::new(Expression::Number(5))]),
    });
    let plain = Rc::new(Expression::Number(5));
    information.record_expression(&call);
    information.record_expression(&plain);

    assert_eq!(information.generic_functions.len(), 1);
    assert_eq!(information.generic_functions[0].name, "foo");
    assert_eq!(
        information.generic_functions[0].generic_types,
        Some(vec![String::from("T")])
    );
    assert_eq!(information.generic_function_calls.len(), 1);
    match &*information.generic_function_calls[0] {
        Expression::FunctionCall { accessor, generic_types, parameters } => {
            assert_eq!(accessor.text, "foo");
            assert_eq!(generic_types, &Some(vec![String::from("int")]));
            assert_eq!(parameters.0.len(), 1);
            assert!(matches!(*parameters.0[0], Expression::Number(5)));
        },
        _ => panic!("the recorded call site must be a function call"),
    }
}

#[test]
fn registry_ignores_calls_without_generic_arguments() {
    let mut information = ProgramInformation::new();
    let call = Rc::new(Expression::FunctionCall {
        accessor: Box::new(IdentifierTerm::new(String::from("bar"), None, None)),
        generic_types: None,
        parameters: FunctionCallParameters::new(Vec::new()),
    });
    information.record_expression(&call);
    assert!(information.generic_function_calls.is_empty());
}
