//! Walking a program's top-level statements. A `Statement` is exactly
//! one of four forms, so an exhaustive visitor needs one arm per form
//! and no fallback: the counting walk here matches every statement of a
//! program against the four forms, and the four counts provably add up
//! to the whole statement list.

use vstd::prelude::*;
use crate::ast::Program;
use crate::ast::Statement;

verus! {

/// A statement is exactly one of the four declared forms.
pub proof fn lemma_statement_has_exactly_one_form(s: &Statement)
    ensures
        s is Expression || s is FunctionDeclaration || s is ClassDeclaration
            || s is StructDeclaration,
        s is Expression ==> !(s is FunctionDeclaration) && !(s is ClassDeclaration) && !(
        s is StructDeclaration),
        s is FunctionDeclaration ==> !(s is ClassDeclaration) && !(s is StructDeclaration),
        s is ClassDeclaration ==> !(s is StructDeclaration),
{
}

/// How many statements of a list are expressions, function declarations,
/// class declarations and struct declarations, in that order.
pub open spec fn form_counts(s: Seq<Statement>) -> (int, int, int, int)
    decreases s,
{
    if s.len() == 0 {
        (0int, 0int, 0int, 0int)
    } else {
        let rest = form_counts(s.drop_last());
        match s.last() {
            Statement::Expression(_) => (rest.0 + 1, rest.1, rest.2, rest.3),
            Statement::FunctionDeclaration(_) => (rest.0, rest.1 + 1, rest.2, rest.3),
            Statement::ClassDeclaration(_) => (rest.0, rest.1, rest.2 + 1, rest.3),
            Statement::StructDeclaration(_) => (rest.0, rest.1, rest.2, rest.3 + 1),
        }
    }
}

/// The four form counts cover every statement: their sum is the length
/// of the list, so no statement falls outside the four forms.
pub proof fn lemma_counts_cover_all(s: Seq<Statement>)
    ensures
        form_counts(s).0 + form_counts(s).1 + form_counts(s).2 + form_counts(s).3 == s.len(),
    decreases s,
{
    if s.len() > 0 {
        lemma_counts_cover_all(s.drop_last());
    }
}

/// The result of one exhaustive walk over a program's statements.
#[derive(Copy, Clone, Debug)]
pub struct StatementFormCounts {
    pub expressions: usize,
    pub function_declarations: usize,
    pub class_declarations: usize,
    pub struct_declarations: usize,
}

/// Count each statement form of a program with one exhaustive match per
/// statement. Every reachable top-level statement lands in exactly one
/// count, and the counts add up to the number of statements.
#[verifier::loop_isolation(false)]
pub fn count_statement_forms(p: &Program) -> (r: StatementFormCounts)
    ensures
        r.expressions == form_counts(p.statements@).0,
        r.function_declarations == form_counts(p.statements@).1,
        r.class_declarations == form_counts(p.statements@).2,
        r.struct_declarations == form_counts(p.statements@).3,
        r.expressions + r.function_declarations + r.class_declarations + r.struct_declarations
            == p.statements@.len(),
{
    let mut counts = StatementFormCounts {
        expressions: 0,
        function_declarations: 0,
        class_declarations: 0,
        struct_declarations: 0,
    };
    let mut i: usize = 0;
    proof {
        assert(p.statements@.subrange(0, 0) =~= Seq::<Statement>::empty());
    }
    while i < p.statements.len()
        invariant
            i <= p.statements@.len(),
            counts.expressions == form_counts(p.statements@.subrange(0, i as int)).0,
            counts.function_declarations == form_counts(p.statements@.subrange(0, i as int)).1,
            counts.class_declarations == form_counts(p.statements@.subrange(0, i as int)).2,
            counts.struct_declarations == form_counts(p.statements@.subrange(0, i as int)).3,
            counts.expressions + counts.function_declarations + counts.class_declarations
                + counts.struct_declarations == i,
        decreases p.statements@.len() - i,
    {
        proof {
            assert(p.statements@.subrange(0, i + 1).drop_last() =~= p.statements@.subrange(
                0,
                i as int,
            ));
            assert(p.statements@.subrange(0, i + 1).last() == p.statements@[i as int]);
        }
        match &p.statements[i] {
            Statement::Expression(_) => {
                counts.expressions = counts.expressions + 1;
            },
            Statement::FunctionDeclaration(_) => {
                counts.function_declarations = counts.function_declarations + 1;
            },
            Statement::ClassDeclaration(_) => {
                counts.class_declarations = counts.class_declarations + 1;
            },
            Statement::StructDeclaration(_) => {
                counts.struct_declarations = counts.struct_declarations + 1;
            },
        }
        i = i + 1;
    }
    proof {
        assert(p.statements@.subrange(0, p.statements@.len() as int) =~= p.statements@);
    }
    counts
}

} // verus!
