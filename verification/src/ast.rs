//! The node types of the tree, leaves first: tag enums, type references,
//! identifier chains, expressions, statements, declarations, and the
//! `Program` root. Construction is bottom-up: every node's children exist
//! before the node itself. Expressions and function declarations are held
//! under shared ownership (`Rc`) so the same node can be referenced both
//! from its structural position and from the build registry without
//! cloning the subtree.

use vstd::prelude::*;
use std::rc::Rc;

verus! {

/// Root of one compilation unit: the top-level statements in source order.
#[derive(Debug)]
pub struct Program {
    pub statements: Vec<Statement>,
}

/// A top-level construct. Exactly one variant is active; an exhaustive
/// visitor needs no fallback arm.
#[derive(Debug)]
pub enum Statement {
    Expression(Rc<Expression>),
    FunctionDeclaration(Rc<FunctionDeclaration>),
    ClassDeclaration(ClassDeclaration),
    StructDeclaration(StructDeclaration),
}

/// A class or state-machine class: kind tag, name, at most one base class
/// (single inheritance), and the member statements in source order.
#[derive(Debug)]
pub struct ClassDeclaration {
    pub class_type: ClassType,
    pub name: String,
    pub extended_class_name: Option<String>,
    pub body_statements: Vec<ClassBodyStatement>,
}

/// Classification tag only: a state-machine class is structurally
/// identical to a plain class.
#[derive(Copy, Clone, Debug)]
pub enum ClassType {
    Class,
    StatemachineClass,
}

/// One member of a class body. An absent encapsulation means the
/// language-default visibility applies downstream.
#[derive(Debug)]
pub enum ClassBodyStatement {
    Method {
        encapsulation: Option<EncapsulationType>,
        function_declaration: Rc<FunctionDeclaration>,
    },
    Property {
        encapsulation: Option<EncapsulationType>,
        property_declaration: VariableDeclaration,
    },
    DefaultValue(VariableAssignment),
}

/// Declared member visibility.
#[derive(Copy, Clone, Debug)]
pub enum EncapsulationType {
    Private,
    Public,
    Protected,
}

/// A plain data aggregate: no inheritance, no methods.
#[derive(Debug)]
pub struct StructDeclaration {
    pub name: String,
    pub body_statements: Vec<StructBodyStatement>,
}

/// One member of a struct body.
#[derive(Debug)]
pub enum StructBodyStatement {
    Property(VariableDeclaration),
    DefaultValue(VariableAssignment),
}

/// A function, timer or event handler. `generic_types` is `None` for a
/// non-generic function; `is_latent` tags the function as resumable across
/// scheduling ticks of the hosting runtime.
#[derive(Debug)]
pub struct FunctionDeclaration {
    pub function_type: FunctionType,
    pub name: String,
    pub generic_types: Option<Vec<String>>,
    pub parameters: Vec<TypedIdentifier>,
    pub type_declaration: Option<TypeDeclaration>,
    pub body_statements: Vec<FunctionBodyStatement>,
    pub is_latent: bool,
}

/// Kind tag of a function declaration.
#[derive(Copy, Clone, Debug)]
pub enum FunctionType {
    Function,
    Timer,
    Event,
}

/// One statement inside a function body.
#[derive(Debug)]
pub enum FunctionBodyStatement {
    VariableDeclaration(VariableDeclaration),
    Expression(Rc<Expression>),
    Return(Rc<Expression>),
    Assignement(VariableAssignment),
    IfStatement(IfStatement),
    ForStatement(ForStatement),
    WhileStatement(WhileStatement),
    DoWhileStatement(DoWhileStatement),
}

/// One link of an if/elif/else cascade. The root `If` carries the cascaded
/// links in source order; a cascaded `Else` with a condition is an elif,
/// one without is the catch-all branch.
#[derive(Debug)]
#[allow(inconsistent_fields)]
pub enum IfStatement {
    If {
        condition: Rc<Expression>,
        body_statements: Vec<FunctionBodyStatement>,
        else_statements: Vec<Box<IfStatement>>,
    },
    Else {
        condition: Option<Rc<Expression>>,
        body_statements: Vec<FunctionBodyStatement>,
    },
}

/// Mutation of an existing binding. Compound operators are distinct tags,
/// not desugared here.
#[derive(Debug)]
pub struct VariableAssignment {
    pub variable_name: Box<IdentifierTerm>,
    pub assignment_type: AssignmentType,
    pub following_expression: Rc<Expression>,
}

/// A `for` loop: optional initialization, condition, iteration step, body.
#[derive(Debug)]
pub struct ForStatement {
    pub initialization: Option<VariableDeclarationOrAssignment>,
    pub condition: Rc<Expression>,
    pub iteration: VariableAssignment,
    pub body_statements: Vec<FunctionBodyStatement>,
}

/// The initialization slot of a `for` loop.
#[derive(Debug)]
pub enum VariableDeclarationOrAssignment {
    Declaration(VariableDeclaration),
    Assignement(VariableAssignment),
}

/// A `while` loop.
#[derive(Debug)]
pub struct WhileStatement {
    pub condition: Rc<Expression>,
    pub body_statements: Vec<FunctionBodyStatement>,
}

/// A `do ... while` loop.
#[derive(Debug)]
pub struct DoWhileStatement {
    pub condition: Rc<Expression>,
    pub body_statements: Vec<FunctionBodyStatement>,
}

/// A new binding: typed identifier plus optional initializer.
#[derive(Debug)]
pub struct VariableDeclaration {
    pub declaration: TypedIdentifier,
    pub following_expression: Option<Rc<Expression>>,
}

/// The argument list of a function call, in source order.
#[derive(Debug)]
pub struct FunctionCallParameters(pub Vec<Rc<Expression>>);

/// One segment of a possibly-nested, possibly-indexed name reference.
/// The chain `a.b[i].c` is `{text: a, nesting: {text: b, indexing: i,
/// nesting: {text: c}}}`; order is strictly left-to-right.
#[derive(Debug)]
pub struct IdentifierTerm {
    pub text: String,
    pub indexing: Option<Rc<Expression>>,
    pub nesting: Option<Box<IdentifierTerm>>,
}

/// A name together with its declared type.
#[derive(Debug)]
pub struct TypedIdentifier {
    pub name: String,
    pub type_declaration: TypeDeclaration,
}

/// A type reference, possibly generic. A non-generic type has an absent
/// argument list; `Some` of an empty list is a distinct state.
#[derive(Debug)]
pub struct TypeDeclaration {
    pub name: String,
    pub generic_type_assignment: Option<Vec<TypeDeclaration>>,
}

/// A value-producing node. `Error` is a parse-failure sentinel: it is
/// never evaluated and every analysis pass must detect and skip it.
#[derive(Debug)]
pub enum Expression {
    Number(i32),

    String(String),

    Identifier(Box<IdentifierTerm>),

    FunctionCall {
        accessor: Box<IdentifierTerm>,
        generic_types: Option<Vec<String>>,
        parameters: FunctionCallParameters,
    },

    /// An operation between two expressions.
    Operation(Rc<Expression>, OperationCode, Rc<Expression>),

    Error,
}

/// A binary operator.
#[derive(Copy, Clone, Debug)]
pub enum OperationCode {
    Mul,
    Div,
    Add,
    Sub,
    Comparison(ComparisonType),
}

/// The operator of a variable assignment.
#[derive(Copy, Clone, Debug)]
pub enum AssignmentType {
    Equal,
    PlusEqual,
    MinusEqual,
    AsteriskEqual,
    SlashEqual,
}

/// A comparison operator.
#[derive(Copy, Clone, Debug)]
pub enum ComparisonType {
    Greater,
    GreaterEqual,
    Lower,
    LowerEqual,
    Equal,
    Different,
}

// Construction is bottom-up: each constructor takes children that already
// exist and assembles them without validation — syntactic legality is the
// producing parser's responsibility. Each constructor pins every field of
// the new node to the corresponding argument.
impl Program {
    /// A compilation unit from its top-level statements, in source order.
    pub fn new(statements: Vec<Statement>) -> (r: Program)
        ensures
            r.statements == statements,
    {
        Program { statements }
    }
}

impl ClassDeclaration {
    /// A class or state-machine class declaration.
    pub fn new(
        class_type: ClassType,
        name: String,
        extended_class_name: Option<String>,
        body_statements: Vec<ClassBodyStatement>,
    ) -> (r: ClassDeclaration)
        ensures
            r.class_type == class_type,
            r.name == name,
            r.extended_class_name == extended_class_name,
            r.body_statements == body_statements,
    {
        ClassDeclaration { class_type, name, extended_class_name, body_statements }
    }
}

impl StructDeclaration {
    /// A struct declaration.
    pub fn new(name: String, body_statements: Vec<StructBodyStatement>) -> (r: StructDeclaration)
        ensures
            r.name == name,
            r.body_statements == body_statements,
    {
        StructDeclaration { name, body_statements }
    }
}

impl FunctionDeclaration {
    /// A function, timer or event-handler declaration.
    pub fn new(
        function_type: FunctionType,
        name: String,
        generic_types: Option<Vec<String>>,
        parameters: Vec<TypedIdentifier>,
        type_declaration: Option<TypeDeclaration>,
        body_statements: Vec<FunctionBodyStatement>,
        is_latent: bool,
    ) -> (r: FunctionDeclaration)
        ensures
            r.function_type == function_type,
            r.name == name,
            r.generic_types == generic_types,
            r.parameters == parameters,
            r.type_declaration == type_declaration,
            r.body_statements == body_statements,
            r.is_latent == is_latent,
    {
        FunctionDeclaration {
            function_type,
            name,
            generic_types,
            parameters,
            type_declaration,
            body_statements,
            is_latent,
        }
    }
}

impl VariableAssignment {
    /// An assignment to an existing binding.
    pub fn new(
        variable_name: Box<IdentifierTerm>,
        assignment_type: AssignmentType,
        following_expression: Rc<Expression>,
    ) -> (r: VariableAssignment)
        ensures
            r.variable_name == variable_name,
            r.assignment_type == assignment_type,
            r.following_expression == following_expression,
    {
        VariableAssignment { variable_name, assignment_type, following_expression }
    }
}

impl ForStatement {
    /// A `for` loop.
    pub fn new(
        initialization: Option<VariableDeclarationOrAssignment>,
        condition: Rc<Expression>,
        iteration: VariableAssignment,
        body_statements: Vec<FunctionBodyStatement>,
    ) -> (r: ForStatement)
        ensures
            r.initialization == initialization,
            r.condition == condition,
            r.iteration == iteration,
            r.body_statements == body_statements,
    {
        ForStatement { initialization, condition, iteration, body_statements }
    }
}

impl WhileStatement {
    /// A `while` loop.
    pub fn new(condition: Rc<Expression>, body_statements: Vec<FunctionBodyStatement>) -> (r:
        WhileStatement)
        ensures
            r.condition == condition,
            r.body_statements == body_statements,
    {
        WhileStatement { condition, body_statements }
    }
}

impl DoWhileStatement {
    /// A `do ... while` loop.
    pub fn new(condition: Rc<Expression>, body_statements: Vec<FunctionBodyStatement>) -> (r:
        DoWhileStatement)
        ensures
            r.condition == condition,
            r.body_statements == body_statements,
    {
        DoWhileStatement { condition, body_statements }
    }
}

impl VariableDeclaration {
    /// A new binding, with an optional initializer.
    pub fn new(declaration: TypedIdentifier, following_expression: Option<Rc<Expression>>) -> (r:
        VariableDeclaration)
        ensures
            r.declaration == declaration,
            r.following_expression == following_expression,
    {
        VariableDeclaration { declaration, following_expression }
    }
}

impl FunctionCallParameters {
    /// A call's argument list, in source order.
    pub fn new(parameters: Vec<Rc<Expression>>) -> (r: FunctionCallParameters)
        ensures
            r.0 == parameters,
    {
        FunctionCallParameters(parameters)
    }
}

impl IdentifierTerm {
    /// One chain segment, with its own indexing and the rest of the
    /// chain nested to its right.
    pub fn new(
        text: String,
        indexing: Option<Rc<Expression>>,
        nesting: Option<Box<IdentifierTerm>>,
    ) -> (r: IdentifierTerm)
        ensures
            r.text == text,
            r.indexing == indexing,
            r.nesting == nesting,
    {
        IdentifierTerm { text, indexing, nesting }
    }
}

impl TypedIdentifier {
    /// A name with its declared type.
    pub fn new(name: String, type_declaration: TypeDeclaration) -> (r: TypedIdentifier)
        ensures
            r.name == name,
            r.type_declaration == type_declaration,
    {
        TypedIdentifier { name, type_declaration }
    }
}

impl TypeDeclaration {
    /// A type reference. `None` generic arguments mean a non-generic
    /// reference; `Some` of an empty list is a distinct state.
    pub fn new(name: String, generic_type_assignment: Option<Vec<TypeDeclaration>>) -> (r:
        TypeDeclaration)
        ensures
            r.name == name,
            r.generic_type_assignment == generic_type_assignment,
    {
        TypeDeclaration { name, generic_type_assignment }
    }
}

} // verus!
