//! Identifier chains. A chain such as `a.b[i].c` is a linked sequence of
//! `IdentifierTerm` segments, each carrying its own optional indexing
//! expression; reading order is strictly left to right, outermost segment
//! first. This module gives the chain its mathematical reading (the
//! sequence of segments), a traversal that flattens a chain into that
//! sequence, and a builder that links bare segments into a chain.

use vstd::prelude::*;
use std::rc::Rc;
use crate::ast::Expression;
use crate::ast::IdentifierTerm;

verus! {

/// The indexing slot of a segment, read through the shared handle.
pub open spec fn indexing_of(o: Option<Rc<Expression>>) -> Option<Expression> {
    match o {
        Option::Some(e) => Option::Some(*e),
        Option::None => Option::None,
    }
}

/// What one segment contributes to the reading of a chain: its text and
/// the indexing expression attached to that segment only.
pub open spec fn segment_of(t: IdentifierTerm) -> (Seq<char>, Option<Expression>) {
    (t.text@, indexing_of(t.indexing))
}

/// The left-to-right reading of a chain: one (text, indexing) pair per
/// segment, outermost segment first.
pub open spec fn chain_segments(t: IdentifierTerm) -> Seq<(Seq<char>, Option<Expression>)>
    decreases t,
{
    match t.nesting {
        Option::Some(rest) => seq![segment_of(t)] + chain_segments(*rest),
        Option::None => seq![segment_of(t)],
    }
}

/// The reading of a list of bare segments.
pub open spec fn segments_of_parts(s: Seq<IdentifierTerm>) -> Seq<(Seq<char>, Option<Expression>)> {
    s.map_values(|p: IdentifierTerm| segment_of(p))
}

/// The reading of a flattened segment list.
pub open spec fn pairs_view(s: Seq<(String, Option<Rc<Expression>>)>) -> Seq<
    (Seq<char>, Option<Expression>),
> {
    s.map_values(|p: (String, Option<Rc<Expression>>)| (p.0@, indexing_of(p.1)))
}

/// Flatten a chain into its segments, in left-to-right order. Each
/// returned pair holds one segment's text and the indexing expression of
/// that segment only.
pub fn flatten_segments(t: &IdentifierTerm) -> (r: Vec<(String, Option<Rc<Expression>>)>)
    ensures
        pairs_view(r@) == chain_segments(*t),
{
    let mut r: Vec<(String, Option<Rc<Expression>>)> = Vec::new();
    let mut cur: &IdentifierTerm = t;
    while cur.nesting.is_some()
        invariant
            pairs_view(r@) + chain_segments(*cur) == chain_segments(*t),
        decreases chain_segments(*cur).len(),
    {
        let ghost prev = r@;
        let idx: Option<Rc<Expression>> = match &cur.indexing {
            Option::Some(e) => Option::Some(e.clone()),
            Option::None => Option::None,
        };
        r.push((cur.text.clone(), idx));
        let rest = cur.nesting.as_ref().unwrap();
        proof {
            assert(pairs_view(r@) =~= pairs_view(prev).push(segment_of(*cur)));
            assert(chain_segments(*cur) == seq![segment_of(*cur)] + chain_segments(**rest));
            assert(pairs_view(r@) + chain_segments(**rest) =~= pairs_view(prev)
                + chain_segments(*cur));
        }
        cur = &**rest;
    }
    let ghost prev = r@;
    let idx: Option<Rc<Expression>> = match &cur.indexing {
        Option::Some(e) => Option::Some(e.clone()),
        Option::None => Option::None,
    };
    r.push((cur.text.clone(), idx));
    proof {
        assert(chain_segments(*cur) == seq![segment_of(*cur)]);
        assert(pairs_view(r@) =~= pairs_view(prev).push(segment_of(*cur)));
        assert(pairs_view(r@) =~= chain_segments(*t));
    }
    r
}

/// Link bare segments (each with an empty nesting slot) into one chain.
/// The reading of the resulting chain is exactly the given segments in
/// the given order: construction preserves left-to-right order, and each
/// segment keeps its own indexing expression.
pub fn link_chain(parts: Vec<IdentifierTerm>) -> (r: Option<Box<IdentifierTerm>>)
    requires
        forall|i: int| 0 <= i < parts@.len() ==> (#[trigger] parts@[i]).nesting is None,
    ensures
        r is None <==> parts@.len() == 0,
        r matches Some(t) ==> chain_segments(*t) == segments_of_parts(parts@),
{
    let ghost all_parts = parts@;
    let mut rem = parts;
    let mut acc: Option<Box<IdentifierTerm>> = Option::None;
    proof {
        assert(all_parts.subrange(0, all_parts.len() as int) =~= all_parts);
    }
    while rem.len() > 0
        invariant
            forall|i: int| 0 <= i < all_parts.len() ==> (#[trigger] all_parts[i]).nesting is None,
            rem@ == all_parts.subrange(0, rem@.len() as int),
            rem@.len() <= all_parts.len(),
            acc is None <==> rem@.len() == all_parts.len(),
            acc matches Some(t) ==> chain_segments(*t) == segments_of_parts(all_parts).subrange(
                rem@.len() as int,
                all_parts.len() as int,
            ),
        decreases rem@.len(),
    {
        let ghost n = rem@.len() as int;
        let mut part = rem.pop().unwrap();
        let ghost popped = part;
        proof {
            assert(popped == all_parts.subrange(0, n)[n - 1]);
            assert(popped == all_parts[n - 1]);
            assert(rem@ =~= all_parts.subrange(0, n - 1));
        }
        let held_nesting = acc;
        match held_nesting {
            Option::Some(rest) => {
                proof {
                    assert(chain_segments(*rest) == segments_of_parts(all_parts).subrange(
                        n,
                        all_parts.len() as int,
                    ));
                }
                part.nesting = Option::Some(rest);
            },
            Option::None => {
                proof {
                    assert(part.nesting is None);
                }
            },
        }
        proof {
            let m = segments_of_parts(all_parts);
            assert(m[n - 1] == segment_of(all_parts[n - 1]));
            assert(segment_of(part) == segment_of(popped));
            assert(chain_segments(part) =~= m.subrange(n - 1, all_parts.len() as int));
        }
        acc = Option::Some(Box::new(part));
    }
    proof {
        if acc is Some {
            assert(segments_of_parts(all_parts).subrange(0, all_parts.len() as int)
                =~= segments_of_parts(all_parts));
        }
    }
    acc
}

} // verus!
