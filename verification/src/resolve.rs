//! The identifier-gathering walk that an identifier-resolution pass
//! runs on an expression tree. It reads every identifier text in
//! left-to-right order — chain segments, indexing expressions, call
//! accessors and call arguments included. The walk is total: an `Error`
//! sentinel mentions no identifier and is skipped without aborting the
//! walk, so resolution can still report on every valid sibling.

use vstd::prelude::*;
use std::rc::Rc;
use crate::ast::Expression;
use crate::ast::IdentifierTerm;

verus! {

/// The texts of a list of gathered identifiers.
pub open spec fn strings_view(s: Seq<String>) -> Seq<Seq<char>> {
    s.map_values(|x: String| x@)
}

/// The identifier texts an expression mentions, in reading order. The
/// `Error` sentinel mentions none.
pub open spec fn expr_identifiers(e: Expression) -> Seq<Seq<char>>
    decreases e, 2int,
{
    match e {
        Expression::Number(_) => Seq::empty(),
        Expression::String(_) => Seq::empty(),
        Expression::Identifier(t) => term_identifiers(*t),
        Expression::FunctionCall { accessor, parameters, .. } => term_identifiers(*accessor)
            + params_identifiers(parameters.0@),
        Expression::Operation(l, _, r) => expr_identifiers(*l) + expr_identifiers(*r),
        Expression::Error => Seq::empty(),
    }
}

/// What a segment's indexing expression mentions.
pub open spec fn indexing_identifiers(t: IdentifierTerm) -> Seq<Seq<char>>
    decreases t, 0int,
{
    match t.indexing {
        Option::Some(x) => expr_identifiers(*x),
        Option::None => Seq::empty(),
    }
}

/// What the rest of the chain, after one segment, mentions.
pub open spec fn nesting_identifiers(t: IdentifierTerm) -> Seq<Seq<char>>
    decreases t, 0int,
{
    match t.nesting {
        Option::Some(rest) => term_identifiers(*rest),
        Option::None => Seq::empty(),
    }
}

/// The identifier texts a chain mentions: each segment's own text, then
/// whatever its indexing expression mentions, then the rest of the chain.
pub open spec fn term_identifiers(t: IdentifierTerm) -> Seq<Seq<char>>
    decreases t, 1int,
{
    seq![t.text@] + indexing_identifiers(t) + nesting_identifiers(t)
}

/// The identifier texts of a list of argument expressions, in order.
pub open spec fn params_identifiers(s: Seq<Rc<Expression>>) -> Seq<Seq<char>>
    decreases s, 2int,
{
    if s.len() == 0 {
        Seq::empty()
    } else {
        expr_identifiers(*s[0]) + params_identifiers(s.subrange(1, s.len() as int))
    }
}

/// Gather an expression's identifiers onto the end of a list.
fn expression_identifiers_into(e: &Expression, out: &mut Vec<String>)
    ensures
        strings_view(final(out)@) == strings_view(old(out)@) + expr_identifiers(*e),
    decreases *e, 0int,
{
    let ghost base = out@;
    match e {
        Expression::Identifier(t) => {
            identifier_term_identifiers_into(&**t, out);
        },
        Expression::FunctionCall { accessor, parameters, .. } => {
            identifier_term_identifiers_into(&**accessor, out);
            proof {
                assert(parameters.0@.subrange(0, parameters.0@.len() as int) =~= parameters.0@);
            }
            params_identifiers_into(&parameters.0, 0, out);
            proof {
                assert((strings_view(base) + term_identifiers(**accessor)) + params_identifiers(
                    parameters.0@,
                ) =~= strings_view(base) + (term_identifiers(**accessor) + params_identifiers(
                    parameters.0@,
                )));
            }
        },
        Expression::Operation(l, _, r) => {
            expression_identifiers_into(&**l, out);
            expression_identifiers_into(&**r, out);
            proof {
                assert((strings_view(base) + expr_identifiers(**l)) + expr_identifiers(**r)
                    =~= strings_view(base) + (expr_identifiers(**l) + expr_identifiers(**r)));
            }
        },
        _ => {
            proof {
                assert(strings_view(base) + expr_identifiers(*e) =~= strings_view(base));
            }
        },
    }
}

/// Gather a chain's identifiers onto the end of a list.
fn identifier_term_identifiers_into(t: &IdentifierTerm, out: &mut Vec<String>)
    ensures
        strings_view(final(out)@) == strings_view(old(out)@) + term_identifiers(*t),
    decreases *t, 0int,
{
    let ghost base = out@;
    out.push(t.text.clone());
    proof {
        assert(strings_view(out@) =~= strings_view(base) + seq![t.text@]);
    }
    let ghost with_text = strings_view(base) + seq![t.text@];
    match &t.indexing {
        Option::Some(x) => {
            expression_identifiers_into(&**x, out);
        },
        Option::None => {
        },
    }
    let ghost idx_ids = indexing_identifiers(*t);
    proof {
        assert(strings_view(out@) =~= with_text + idx_ids);
    }
    match &t.nesting {
        Option::Some(rest) => {
            identifier_term_identifiers_into(&**rest, out);
        },
        Option::None => {
        },
    }
    let ghost nest_ids = nesting_identifiers(*t);
    proof {
        assert(strings_view(out@) =~= (with_text + idx_ids) + nest_ids);
        assert((with_text + idx_ids) + nest_ids =~= strings_view(base) + ((seq![t.text@] + idx_ids)
            + nest_ids));
    }
}

/// Gather the identifiers of every argument at or after a position.
fn params_identifiers_into(params: &Vec<Rc<Expression>>, from: usize, out: &mut Vec<String>)
    requires
        from <= params@.len(),
    ensures
        strings_view(final(out)@) == strings_view(old(out)@) + params_identifiers(
            params@.subrange(from as int, params@.len() as int),
        ),
    decreases params@, params@.len() - from,
{
    let ghost base = out@;
    let ghost tail = params@.subrange(from as int, params@.len() as int);
    if from == params.len() {
        proof {
            assert(strings_view(base) + params_identifiers(tail) =~= strings_view(base));
        }
    } else {
        proof {
            assert(tail[0] == params@[from as int]);
            assert(tail.subrange(1, tail.len() as int) =~= params@.subrange(
                from + 1,
                params@.len() as int,
            ));
        }
        expression_identifiers_into(&params[from], out);
        params_identifiers_into(params, from + 1, out);
        proof {
            let rest = params@.subrange(from + 1, params@.len() as int);
            assert((strings_view(base) + expr_identifiers(*params@[from as int]))
                + params_identifiers(rest) =~= strings_view(base) + (expr_identifiers(
                *params@[from as int],
            ) + params_identifiers(rest)));
        }
    }
}

/// The identifiers an expression mentions, in reading order: what an
/// identifier-resolution pass walks. An `Error` sentinel anywhere is
/// skipped — it contributes nothing and never aborts the walk.
pub fn expression_identifiers(e: &Expression) -> (r: Vec<String>)
    ensures
        strings_view(r@) == expr_identifiers(*e),
{
    let mut out: Vec<String> = Vec::new();
    proof {
        assert(strings_view(out@) =~= Seq::<Seq<char>>::empty());
    }
    expression_identifiers_into(e, &mut out);
    proof {
        assert(Seq::<Seq<char>>::empty() + expr_identifiers(*e) =~= expr_identifiers(*e));
    }
    out
}

} // verus!
