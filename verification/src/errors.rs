//! Locating the `Error` sentinel anywhere in a finished tree. Downstream
//! passes must detect parse-failure sentinels before evaluating, folding
//! or inferring types over an expression; this walk answers, for a whole
//! `Program` or any construct inside one, whether a sentinel hides
//! anywhere in it — bodies, conditions, initializers, indexings and call
//! arguments included. The walk is total: it reports the sentinel and
//! never aborts.

use vstd::prelude::*;
use crate::ast::ClassBodyStatement;
use crate::ast::DoWhileStatement;
use crate::ast::ForStatement;
use crate::ast::FunctionBodyStatement;
use crate::ast::FunctionDeclaration;
use crate::ast::IfStatement;
use crate::ast::Program;
use crate::ast::Statement;
use crate::ast::StructBodyStatement;
use crate::ast::StructDeclaration;
use crate::ast::VariableAssignment;
use crate::ast::VariableDeclaration;
use crate::ast::VariableDeclarationOrAssignment;
use crate::ast::WhileStatement;
use crate::folding::expr_has_error;
use crate::folding::expression_has_error;
use crate::folding::identifier_term_has_error;
use crate::folding::term_has_error;

verus! {

/// Whether a sentinel hides in a binding's initializer.
pub open spec fn var_decl_has_error(d: VariableDeclaration) -> bool {
    match d.following_expression {
        Option::Some(e) => expr_has_error(*e),
        Option::None => false,
    }
}

/// Whether a sentinel hides in an assignment's target chain or value.
pub open spec fn var_assign_has_error(a: VariableAssignment) -> bool {
    term_has_error(*a.variable_name) || expr_has_error(*a.following_expression)
}

/// Whether a sentinel hides in a cascade link: its condition, its body,
/// or any cascaded link.
pub open spec fn if_link_has_error(s: IfStatement) -> bool
    decreases s, 1int,
{
    match s {
        IfStatement::If { condition, body_statements, else_statements } => expr_has_error(
            *condition,
        ) || body_has_error(body_statements@) || if_links_have_error(else_statements@),
        IfStatement::Else { condition, body_statements } => (match condition {
            Option::Some(c) => expr_has_error(*c),
            Option::None => false,
        }) || body_has_error(body_statements@),
    }
}

/// Whether a sentinel hides in any of a list of cascade links.
pub open spec fn if_links_have_error(s: Seq<Box<IfStatement>>) -> bool
    decreases s, 2int,
{
    s.len() > 0 && (if_link_has_error(*s[0]) || if_links_have_error(s.subrange(1, s.len() as int)))
}

/// Whether a sentinel hides in one function-body statement.
pub open spec fn body_stmt_has_error(s: FunctionBodyStatement) -> bool
    decreases s, 1int,
{
    match s {
        FunctionBodyStatement::VariableDeclaration(d) => var_decl_has_error(d),
        FunctionBodyStatement::Expression(e) => expr_has_error(*e),
        FunctionBodyStatement::Return(e) => expr_has_error(*e),
        FunctionBodyStatement::Assignement(a) => var_assign_has_error(a),
        FunctionBodyStatement::IfStatement(i) => if_link_has_error(i),
        FunctionBodyStatement::ForStatement(f) => for_has_error(f),
        FunctionBodyStatement::WhileStatement(w) => expr_has_error(*w.condition) || body_has_error(
            w.body_statements@,
        ),
        FunctionBodyStatement::DoWhileStatement(w) => expr_has_error(*w.condition)
            || body_has_error(w.body_statements@),
    }
}

/// Whether a sentinel hides in a `for` loop's initialization, condition,
/// iteration step or body.
pub open spec fn for_has_error(f: ForStatement) -> bool
    decreases f, 0int,
{
    (match f.initialization {
        Option::Some(VariableDeclarationOrAssignment::Declaration(d)) => var_decl_has_error(d),
        Option::Some(VariableDeclarationOrAssignment::Assignement(a)) => var_assign_has_error(a),
        Option::None => false,
    }) || expr_has_error(*f.condition) || var_assign_has_error(f.iteration) || body_has_error(
        f.body_statements@,
    )
}

/// Whether a sentinel hides in any statement of a function body.
pub open spec fn body_has_error(s: Seq<FunctionBodyStatement>) -> bool
    decreases s, 2int,
{
    s.len() > 0 && (body_stmt_has_error(s[0]) || body_has_error(s.subrange(1, s.len() as int)))
}

/// Whether a sentinel hides in a function declaration's body.
pub open spec fn fn_decl_has_error(d: FunctionDeclaration) -> bool {
    body_has_error(d.body_statements@)
}

/// Whether a sentinel hides in one class member.
pub open spec fn class_member_has_error(m: ClassBodyStatement) -> bool {
    match m {
        ClassBodyStatement::Method { function_declaration, .. } => fn_decl_has_error(
            *function_declaration,
        ),
        ClassBodyStatement::Property { property_declaration, .. } => var_decl_has_error(
            property_declaration,
        ),
        ClassBodyStatement::DefaultValue(a) => var_assign_has_error(a),
    }
}

/// Whether a sentinel hides in any member of a class body.
pub open spec fn class_body_has_error(s: Seq<ClassBodyStatement>) -> bool
    decreases s,
{
    s.len() > 0 && (class_member_has_error(s[0]) || class_body_has_error(
        s.subrange(1, s.len() as int),
    ))
}

/// Whether a sentinel hides in one struct member.
pub open spec fn struct_member_has_error(m: StructBodyStatement) -> bool {
    match m {
        StructBodyStatement::Property(d) => var_decl_has_error(d),
        StructBodyStatement::DefaultValue(a) => var_assign_has_error(a),
    }
}

/// Whether a sentinel hides in any member of a struct body.
pub open spec fn struct_body_has_error(s: Seq<StructBodyStatement>) -> bool
    decreases s,
{
    s.len() > 0 && (struct_member_has_error(s[0]) || struct_body_has_error(
        s.subrange(1, s.len() as int),
    ))
}

/// Whether a sentinel hides in one top-level statement.
pub open spec fn stmt_has_error(s: Statement) -> bool {
    match s {
        Statement::Expression(e) => expr_has_error(*e),
        Statement::FunctionDeclaration(d) => fn_decl_has_error(*d),
        Statement::ClassDeclaration(c) => class_body_has_error(c.body_statements@),
        Statement::StructDeclaration(d) => struct_body_has_error(d.body_statements@),
    }
}

/// Whether a sentinel hides in any top-level statement.
pub open spec fn stmts_have_error(s: Seq<Statement>) -> bool
    decreases s,
{
    s.len() > 0 && (stmt_has_error(s[0]) || stmts_have_error(s.subrange(1, s.len() as int)))
}

/// Whether a sentinel hides anywhere in a program.
pub open spec fn prog_has_error(p: Program) -> bool {
    stmts_have_error(p.statements@)
}

/// Report whether a sentinel hides in a binding's initializer.
pub fn variable_declaration_has_error(d: &VariableDeclaration) -> (r: bool)
    ensures
        r == var_decl_has_error(*d),
{
    match &d.following_expression {
        Option::Some(e) => expression_has_error(&**e),
        Option::None => false,
    }
}

/// Report whether a sentinel hides in an assignment.
pub fn variable_assignment_has_error(a: &VariableAssignment) -> (r: bool)
    ensures
        r == var_assign_has_error(*a),
{
    if identifier_term_has_error(&*a.variable_name) {
        true
    } else {
        expression_has_error(&*a.following_expression)
    }
}

/// Report whether a sentinel hides in a cascade link.
pub fn if_statement_has_error(s: &IfStatement) -> (r: bool)
    ensures
        r == if_link_has_error(*s),
    decreases *s, 1int, 0int,
{
    match s {
        IfStatement::If { condition, body_statements, else_statements } => {
            proof {
                assert(body_statements@.subrange(0, body_statements@.len() as int)
                    =~= body_statements@);
                assert(else_statements@.subrange(0, else_statements@.len() as int)
                    =~= else_statements@);
            }
            if expression_has_error(&**condition) {
                true
            } else if body_statements_have_error(body_statements, 0) {
                true
            } else {
                if_links_have_error_from(else_statements, 0)
            }
        },
        IfStatement::Else { condition, body_statements } => {
            proof {
                assert(body_statements@.subrange(0, body_statements@.len() as int)
                    =~= body_statements@);
            }
            let in_condition: bool = match condition {
                Option::Some(c) => expression_has_error(&**c),
                Option::None => false,
            };
            if in_condition {
                true
            } else {
                body_statements_have_error(body_statements, 0)
            }
        },
    }
}

/// Report whether a sentinel hides in any cascade link at or after a
/// position.
fn if_links_have_error_from(links: &Vec<Box<IfStatement>>, from: usize) -> (r: bool)
    requires
        from <= links@.len(),
    ensures
        r == if_links_have_error(links@.subrange(from as int, links@.len() as int)),
    decreases links@, 2int, links@.len() - from,
{
    let ghost tail = links@.subrange(from as int, links@.len() as int);
    if from == links.len() {
        false
    } else {
        proof {
            assert(tail[0] == links@[from as int]);
            assert(tail.subrange(1, tail.len() as int) =~= links@.subrange(
                from + 1,
                links@.len() as int,
            ));
        }
        if if_statement_has_error(&links[from]) {
            true
        } else {
            if_links_have_error_from(links, from + 1)
        }
    }
}

/// Report whether a sentinel hides in one function-body statement.
pub fn function_body_statement_has_error(s: &FunctionBodyStatement) -> (r: bool)
    ensures
        r == body_stmt_has_error(*s),
    decreases *s, 1int, 0int,
{
    match s {
        FunctionBodyStatement::VariableDeclaration(d) => variable_declaration_has_error(d),
        FunctionBodyStatement::Expression(e) => expression_has_error(&**e),
        FunctionBodyStatement::Return(e) => expression_has_error(&**e),
        FunctionBodyStatement::Assignement(a) => variable_assignment_has_error(a),
        FunctionBodyStatement::IfStatement(i) => if_statement_has_error(i),
        FunctionBodyStatement::ForStatement(f) => for_statement_has_error(f),
        FunctionBodyStatement::WhileStatement(w) => while_statement_has_error(w),
        FunctionBodyStatement::DoWhileStatement(w) => do_while_statement_has_error(w),
    }
}

/// Report whether a sentinel hides in a `for` loop.
pub fn for_statement_has_error(f: &ForStatement) -> (r: bool)
    ensures
        r == for_has_error(*f),
    decreases *f, 0int, 0int,
{
    let in_initialization: bool = match &f.initialization {
        Option::Some(VariableDeclarationOrAssignment::Declaration(d)) => {
            variable_declaration_has_error(d)
        },
        Option::Some(VariableDeclarationOrAssignment::Assignement(a)) => {
            variable_assignment_has_error(a)
        },
        Option::None => false,
    };
    proof {
        assert(f.body_statements@.subrange(0, f.body_statements@.len() as int)
            =~= f.body_statements@);
    }
    if in_initialization {
        true
    } else if expression_has_error(&*f.condition) {
        true
    } else if variable_assignment_has_error(&f.iteration) {
        true
    } else {
        body_statements_have_error(&f.body_statements, 0)
    }
}

/// Report whether a sentinel hides in a `while` loop.
pub fn while_statement_has_error(w: &WhileStatement) -> (r: bool)
    ensures
        r == (expr_has_error(*w.condition) || body_has_error(w.body_statements@)),
    decreases *w, 2int, 0int,
{
    proof {
        assert(w.body_statements@.subrange(0, w.body_statements@.len() as int)
            =~= w.body_statements@);
    }
    if expression_has_error(&*w.condition) {
        true
    } else {
        body_statements_have_error(&w.body_statements, 0)
    }
}

/// Report whether a sentinel hides in a `do ... while` loop.
pub fn do_while_statement_has_error(w: &DoWhileStatement) -> (r: bool)
    ensures
        r == (expr_has_error(*w.condition) || body_has_error(w.body_statements@)),
    decreases *w, 2int, 0int,
{
    proof {
        assert(w.body_statements@.subrange(0, w.body_statements@.len() as int)
            =~= w.body_statements@);
    }
    if expression_has_error(&*w.condition) {
        true
    } else {
        body_statements_have_error(&w.body_statements, 0)
    }
}

/// Report whether a sentinel hides in any body statement at or after a
/// position.
fn body_statements_have_error(body: &Vec<FunctionBodyStatement>, from: usize) -> (r: bool)
    requires
        from <= body@.len(),
    ensures
        r == body_has_error(body@.subrange(from as int, body@.len() as int)),
    decreases body@, 2int, body@.len() - from,
{
    let ghost tail = body@.subrange(from as int, body@.len() as int);
    if from == body.len() {
        false
    } else {
        proof {
            assert(tail[0] == body@[from as int]);
            assert(tail.subrange(1, tail.len() as int) =~= body@.subrange(
                from + 1,
                body@.len() as int,
            ));
        }
        if function_body_statement_has_error(&body[from]) {
            true
        } else {
            body_statements_have_error(body, from + 1)
        }
    }
}

/// Report whether a sentinel hides in a function declaration's body.
pub fn function_declaration_has_error(d: &FunctionDeclaration) -> (r: bool)
    ensures
        r == fn_decl_has_error(*d),
{
    proof {
        assert(d.body_statements@.subrange(0, d.body_statements@.len() as int)
            =~= d.body_statements@);
    }
    body_statements_have_error(&d.body_statements, 0)
}

/// Report whether a sentinel hides in any class member at or after a
/// position.
fn class_members_have_error(members: &Vec<ClassBodyStatement>, from: usize) -> (r: bool)
    requires
        from <= members@.len(),
    ensures
        r == class_body_has_error(members@.subrange(from as int, members@.len() as int)),
    decreases members@.len() - from,
{
    let ghost tail = members@.subrange(from as int, members@.len() as int);
    if from == members.len() {
        false
    } else {
        proof {
            assert(tail[0] == members@[from as int]);
            assert(tail.subrange(1, tail.len() as int) =~= members@.subrange(
                from + 1,
                members@.len() as int,
            ));
        }
        let found: bool = match &members[from] {
            ClassBodyStatement::Method { function_declaration, .. } => {
                function_declaration_has_error(&**function_declaration)
            },
            ClassBodyStatement::Property { property_declaration, .. } => {
                variable_declaration_has_error(property_declaration)
            },
            ClassBodyStatement::DefaultValue(a) => variable_assignment_has_error(a),
        };
        if found {
            true
        } else {
            class_members_have_error(members, from + 1)
        }
    }
}

/// Report whether a sentinel hides in any struct member at or after a
/// position.
fn struct_members_have_error(members: &Vec<StructBodyStatement>, from: usize) -> (r: bool)
    requires
        from <= members@.len(),
    ensures
        r == struct_body_has_error(members@.subrange(from as int, members@.len() as int)),
    decreases members@.len() - from,
{
    let ghost tail = members@.subrange(from as int, members@.len() as int);
    if from == members.len() {
        false
    } else {
        proof {
            assert(tail[0] == members@[from as int]);
            assert(tail.subrange(1, tail.len() as int) =~= members@.subrange(
                from + 1,
                members@.len() as int,
            ));
        }
        let found: bool = match &members[from] {
            StructBodyStatement::Property(d) => variable_declaration_has_error(d),
            StructBodyStatement::DefaultValue(a) => variable_assignment_has_error(a),
        };
        if found {
            true
        } else {
            struct_members_have_error(members, from + 1)
        }
    }
}

/// Report whether a sentinel hides in a struct declaration.
pub fn struct_declaration_has_error(d: &StructDeclaration) -> (r: bool)
    ensures
        r == struct_body_has_error(d.body_statements@),
{
    proof {
        assert(d.body_statements@.subrange(0, d.body_statements@.len() as int)
            =~= d.body_statements@);
    }
    struct_members_have_error(&d.body_statements, 0)
}

/// Report whether a sentinel hides in one top-level statement.
pub fn statement_has_error(s: &Statement) -> (r: bool)
    ensures
        r == stmt_has_error(*s),
{
    match s {
        Statement::Expression(e) => expression_has_error(&**e),
        Statement::FunctionDeclaration(d) => function_declaration_has_error(&**d),
        Statement::ClassDeclaration(c) => {
            proof {
                assert(c.body_statements@.subrange(0, c.body_statements@.len() as int)
                    =~= c.body_statements@);
            }
            class_members_have_error(&c.body_statements, 0)
        },
        Statement::StructDeclaration(d) => struct_declaration_has_error(d),
    }
}

/// Report whether a sentinel hides anywhere in a program. Downstream
/// passes may evaluate freely when this reports nothing.
pub fn program_has_error(p: &Program) -> (r: bool)
    ensures
        r == prog_has_error(*p),
{
    let ghost whole = p.statements@;
    let mut i: usize = 0;
    proof {
        assert(whole.subrange(0, whole.len() as int) =~= whole);
    }
    let mut found: bool = false;
    while !found && i < p.statements.len()
        invariant
            i <= whole.len(),
            whole == p.statements@,
            !found ==> prog_has_error(*p) == stmts_have_error(
                whole.subrange(i as int, whole.len() as int),
            ),
            found ==> prog_has_error(*p),
        decreases (if found { 0int } else { 1int }), whole.len() - i,
    {
        let ghost tail = whole.subrange(i as int, whole.len() as int);
        proof {
            assert(tail[0] == whole[i as int]);
            assert(tail.subrange(1, tail.len() as int) =~= whole.subrange(
                i + 1,
                whole.len() as int,
            ));
        }
        if statement_has_error(&p.statements[i]) {
            found = true;
        } else {
            i = i + 1;
        }
    }
    proof {
        if !found {
            assert(whole.subrange(i as int, whole.len() as int) =~= Seq::<Statement>::empty());
            assert(!stmts_have_error(Seq::<Statement>::empty()));
        }
    }
    found
}

} // verus!
