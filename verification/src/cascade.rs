//! The if/elif/else cascade. A cascade is one root `If` link followed by
//! its cascaded links in source order: every link with a condition is an
//! elif, a link without one is the catch-all branch. Evaluation is
//! strictly sequential: the first link whose condition holds (or the
//! first unconditioned link reached) is selected and every later link is
//! skipped. Conditions are decided here by constant folding; a cascade
//! whose deciding condition does not fold has no selection.

use vstd::prelude::*;
use std::rc::Rc;
use crate::ast::Expression;
use crate::ast::IfStatement;
use crate::folding::ConstantValue;
use crate::folding::const_eval;
use crate::folding::const_value;

verus! {

/// The condition a link tests, if it has one. An unconditioned link is
/// the catch-all branch.
pub open spec fn link_condition(s: IfStatement) -> Option<Expression> {
    match s {
        IfStatement::If { condition, .. } => Option::Some(*condition),
        IfStatement::Else { condition, .. } => match condition {
            Option::Some(c) => Option::Some(*c),
            Option::None => Option::None,
        },
    }
}

/// Truth of a condition under constant folding: defined only when the
/// condition folds to a truth value.
pub open spec fn condition_truth(e: Expression) -> Option<bool> {
    match const_value(e) {
        Option::Some(ConstantValue::Truth(b)) => Option::Some(b),
        _ => Option::None,
    }
}

/// All links of a cascade: the root first, then its cascaded links in
/// source order.
pub open spec fn cascade_links(s: IfStatement) -> Seq<IfStatement> {
    match s {
        IfStatement::If { else_statements, .. } => seq![s] + else_statements@.map_values(
            |b: Box<IfStatement>| *b,
        ),
        IfStatement::Else { .. } => seq![s],
    }
}

/// The link sequential evaluation selects: the first whose condition
/// folds to true, or the first unconditioned link reached. `None` when a
/// condition that had to be decided does not fold, or every decided
/// condition is false and no catch-all follows.
pub open spec fn first_selected(links: Seq<IfStatement>) -> Option<int>
    decreases links,
{
    if links.len() == 0 {
        Option::None
    } else {
        match link_condition(links[0]) {
            Option::None => Option::Some(0),
            Option::Some(c) => match condition_truth(c) {
                Option::Some(true) => Option::Some(0),
                Option::Some(false) => match first_selected(
                    links.subrange(1, links.len() as int),
                ) {
                    Option::Some(i) => Option::Some(i + 1),
                    Option::None => Option::None,
                },
                Option::None => Option::None,
            },
        }
    }
}

/// The selected link of a whole cascade, counted from the root.
pub open spec fn cascade_selection(s: IfStatement) -> Option<int> {
    first_selected(cascade_links(s))
}

/// Selection follows source order: the selected link is the first whose
/// condition holds (or is absent), and every link before it carries a
/// condition that folds to false.
pub proof fn lemma_selection_is_first_true(links: Seq<IfStatement>, k: int)
    requires
        first_selected(links) == Option::Some(k),
    ensures
        0 <= k < links.len(),
        link_condition(links[k]) matches Some(c) ==> condition_truth(c) == Option::Some(true),
        forall|j: int|
            0 <= j < k ==> ((#[trigger] link_condition(links[j])) matches Some(c)
                && condition_truth(c) == Option::Some(false)),
    decreases links,
{
    match link_condition(links[0]) {
        Option::None => {
        },
        Option::Some(c) => {
            match condition_truth(c) {
                Option::Some(true) => {
                },
                Option::Some(false) => {
                    let sub = links.subrange(1, links.len() as int);
                    match first_selected(sub) {
                        Option::Some(i) => {
                            lemma_selection_is_first_true(sub, i);
                            assert(links[k] == sub[k - 1]);
                            assert forall|j: int|
                                0 <= j < k implies ((#[trigger] link_condition(
                                links[j],
                            )) matches Some(c2) && condition_truth(c2) == Option::Some(
                                false,
                            )) by {
                                if j > 0 {
                                    assert(links[j] == sub[j - 1]);
                                }
                            }
                        },
                        Option::None => {
                        },
                    }
                },
                Option::None => {
                },
            }
        },
    }
}

/// Conversely, a link that is reached and holds — its condition folds to
/// true, or it has none — while every earlier link's condition folds to
/// false, is exactly the link that sequential evaluation selects.
pub proof fn lemma_first_true_is_selected(links: Seq<IfStatement>, k: int)
    requires
        0 <= k < links.len(),
        link_condition(links[k]) matches Some(c) ==> condition_truth(c) == Option::Some(true),
        forall|j: int|
            0 <= j < k ==> ((#[trigger] link_condition(links[j])) matches Some(c)
                && condition_truth(c) == Option::Some(false)),
    ensures
        first_selected(links) == Option::Some(k),
    decreases links,
{
    if k == 0 {
    } else {
        assert(link_condition(links[0]) matches Some(c) && condition_truth(c) == Option::Some(
            false,
        ));
        let sub = links.subrange(1, links.len() as int);
        assert(sub[k - 1] == links[k]);
        assert forall|j: int|
            0 <= j < k - 1 implies ((#[trigger] link_condition(sub[j])) matches Some(c)
            && condition_truth(c) == Option::Some(false)) by {
            assert(sub[j] == links[j + 1]);
            assert(link_condition(links[j + 1]) matches Some(c) && condition_truth(c)
                == Option::Some(false));
        }
        lemma_first_true_is_selected(sub, k - 1);
    }
}

/// Exec-level selection result, as a spec index.
pub open spec fn selection_view(r: Option<usize>) -> Option<int> {
    match r {
        Option::Some(i) => Option::Some(i as int),
        Option::None => Option::None,
    }
}

/// Shift a selection by a number of already-skipped links.
spec fn shift_selection(o: Option<int>, d: int) -> Option<int> {
    match o {
        Option::Some(i) => Option::Some(i + d),
        Option::None => Option::None,
    }
}

/// Decide a cascade by constant folding: the returned index counts from
/// the root (`Some(0)`), through the cascaded links in source order.
#[verifier::loop_isolation(false)]
pub fn select_branch(s: &IfStatement) -> (r: Option<usize>)
    ensures
        selection_view(r) == cascade_selection(*s),
{
    let ghost links = cascade_links(*s);
    let root_condition: Option<&Rc<Expression>> = match s {
        IfStatement::If { condition, .. } => Option::Some(condition),
        IfStatement::Else { condition: Option::Some(c), .. } => Option::Some(c),
        IfStatement::Else { condition: Option::None, .. } => Option::None,
    };
    proof {
        assert(links[0] == *s);
    }
    match root_condition {
        Option::None => {
            return Option::Some(0);
        },
        Option::Some(c) => {
            let folded = const_eval(&**c);
            match folded {
                Option::Some(ConstantValue::Truth(true)) => {
                    return Option::Some(0);
                },
                Option::Some(ConstantValue::Truth(false)) => {
                },
                _ => {
                    return Option::None;
                },
            }
        },
    }
    // the root condition folded to false: walk the cascaded links
    let cascaded: &Vec<Box<IfStatement>> = match s {
        IfStatement::If { else_statements, .. } => else_statements,
        IfStatement::Else { .. } => {
            proof {
                assert(links.subrange(1, links.len() as int) =~= Seq::<IfStatement>::empty());
                assert(first_selected(Seq::<IfStatement>::empty()) is None);
            }
            return Option::None;
        },
    };
    proof {
        assert(links.len() == 1 + cascaded@.len());
        assert(forall|j: int|
            0 <= j < cascaded@.len() ==> links[1 + j] == *(#[trigger] cascaded@[j]));
    }
    let mut i: usize = 0;
    while i < cascaded.len()
        invariant
            i <= cascaded.len(),
            cascade_selection(*s) == shift_selection(
                first_selected(links.subrange(1 + i as int, links.len() as int)),
                1 + i as int,
            ),
        decreases cascaded.len() - i,
    {
        let ghost tail = links.subrange(1 + i as int, links.len() as int);
        proof {
            assert(tail[0] == links[1 + i as int]);
            assert(tail[0] == *cascaded@[i as int]);
            assert(tail.subrange(1, tail.len() as int) =~= links.subrange(
                2 + i as int,
                links.len() as int,
            ));
        }
        let link: &IfStatement = &cascaded[i];
        let this_condition: Option<&Rc<Expression>> = match link {
            IfStatement::If { condition, .. } => Option::Some(condition),
            IfStatement::Else { condition: Option::Some(c), .. } => Option::Some(c),
            IfStatement::Else { condition: Option::None, .. } => Option::None,
        };
        match this_condition {
            Option::None => {
                return Option::Some(i + 1);
            },
            Option::Some(c) => {
                let folded = const_eval(&**c);
                match folded {
                    Option::Some(ConstantValue::Truth(true)) => {
                        return Option::Some(i + 1);
                    },
                    Option::Some(ConstantValue::Truth(false)) => {
                    },
                    _ => {
                        return Option::None;
                    },
                }
            },
        }
        i = i + 1;
    }
    proof {
        assert(links.subrange(1 + i as int, links.len() as int) =~= Seq::<IfStatement>::empty());
        assert(first_selected(Seq::<IfStatement>::empty()) is None);
    }
    Option::None
}

} // verus!
