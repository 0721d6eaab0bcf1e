//! Generic type references. A `TypeDeclaration` nests one level per
//! generic argument (`Map<string, Array<int>>` holds `string` and
//! `Array<int>`, the latter holding `int`). This module flattens such a
//! tree into a preorder token sequence — one (name, arity) token per
//! node, where an absent arity marks a non-generic reference and is
//! distinct from arity zero — and proves that the flattening is lossless:
//! equal token sequences come only from structurally equal trees, so the
//! original nesting can be reproduced exactly from the flattened form.

use vstd::prelude::*;
use crate::ast::TypeDeclaration;

verus! {

/// Preorder token sequence of a type reference: the node's own (name,
/// arity) token, then the tokens of each generic argument in order. An
/// absent argument list gives arity `None`; an empty one gives `Some(0)`.
pub open spec fn flat_type(t: TypeDeclaration) -> Seq<(Seq<char>, Option<int>)>
    decreases t,
{
    match t.generic_type_assignment {
        Option::None => seq![(t.name@, Option::None)],
        Option::Some(args) => seq![(t.name@, Option::Some(args@.len() as int))] + flat_type_list(
            args@,
        ),
    }
}

/// Tokens of a list of type references, concatenated in order.
pub open spec fn flat_type_list(s: Seq<TypeDeclaration>) -> Seq<(Seq<char>, Option<int>)>
    decreases s,
{
    if s.len() == 0 {
        Seq::empty()
    } else {
        flat_type(s[0]) + flat_type_list(s.subrange(1, s.len() as int))
    }
}

/// Structural equality of two type references: same name, and the same
/// generic arguments in the same order — where an absent argument list
/// and an empty one are distinct states.
pub open spec fn same_type(a: TypeDeclaration, b: TypeDeclaration) -> bool
    decreases a,
{
    &&& a.name@ == b.name@
    &&& match (a.generic_type_assignment, b.generic_type_assignment) {
        (Option::None, Option::None) => true,
        (Option::Some(x), Option::Some(y)) => same_type_list(x@, y@),
        _ => false,
    }
}

/// Structural equality of two lists of type references.
pub open spec fn same_type_list(x: Seq<TypeDeclaration>, y: Seq<TypeDeclaration>) -> bool
    decreases x,
{
    if x.len() != y.len() {
        false
    } else if x.len() == 0 {
        true
    } else {
        same_type(x[0], y[0]) && same_type_list(
            x.subrange(1, x.len() as int),
            y.subrange(1, y.len() as int),
        )
    }
}

/// Every type reference contributes at least its own token.
pub proof fn lemma_flat_type_len(t: TypeDeclaration)
    ensures
        flat_type(t).len() >= 1,
{
}

/// A token sequence beginning with the tokens of `a` determines `a` up
/// to structural equality, whatever follows: the head token fixes the
/// name and arity, and the arity fixes how many of the following token
/// groups belong to the arguments.
proof fn lemma_flat_type_prefix(
    a: TypeDeclaration,
    b: TypeDeclaration,
    ra: Seq<(Seq<char>, Option<int>)>,
    rb: Seq<(Seq<char>, Option<int>)>,
)
    requires
        flat_type(a) + ra == flat_type(b) + rb,
    ensures
        same_type(a, b),
        ra == rb,
    decreases a,
{
    lemma_flat_type_len(a);
    lemma_flat_type_len(b);
    assert((flat_type(a) + ra)[0] == flat_type(a)[0]);
    assert((flat_type(b) + rb)[0] == flat_type(b)[0]);
    match (a.generic_type_assignment, b.generic_type_assignment) {
        (Option::None, Option::None) => {
            let lhs = flat_type(a) + ra;
            let rhs = flat_type(b) + rb;
            assert(flat_type(a).len() == 1 && flat_type(b).len() == 1);
            assert(lhs.len() == rhs.len());
            assert(ra.len() == rb.len());
            assert(ra =~= rb) by {
                assert forall|i: int| 0 <= i < ra.len() implies ra[i] == rb[i] by {
                    assert(ra[i] == lhs[1 + i]);
                    assert(rb[i] == rhs[1 + i]);
                }
            }
        },
        (Option::Some(x), Option::Some(y)) => {
            let ta = (a.name@, Option::Some(x@.len() as int));
            let tb = (b.name@, Option::Some(y@.len() as int));
            assert(flat_type(a)[0] == ta);
            assert(flat_type(b)[0] == tb);
            assert(ta == tb);
            assert(x@.len() == y@.len());
            let fx = flat_type_list(x@);
            let fy = flat_type_list(y@);
            assert(flat_type(a) + ra =~= seq![ta] + (fx + ra));
            assert(flat_type(b) + rb =~= seq![tb] + (fy + rb));
            assert(fx + ra =~= fy + rb) by {
                let lhs = seq![ta] + (fx + ra);
                let rhs = seq![tb] + (fy + rb);
                assert(lhs == rhs);
                assert((fx + ra).len() == (fy + rb).len());
                assert forall|i: int| 0 <= i < (fx + ra).len() implies (fx + ra)[i] == (fy
                    + rb)[i] by {
                    assert((fx + ra)[i] == lhs[1 + i]);
                    assert((fy + rb)[i] == rhs[1 + i]);
                }
            }
            lemma_flat_list_prefix(x@, y@, ra, rb);
        },
        (Option::None, Option::Some(y)) => {
            assert(flat_type(a)[0].1 is None);
            assert(flat_type(b)[0].1 is Some);
        },
        (Option::Some(x), Option::None) => {
            assert(flat_type(a)[0].1 is Some);
            assert(flat_type(b)[0].1 is None);
        },
    }
}

/// As `lemma_flat_type_prefix`, for two argument lists of equal length.
proof fn lemma_flat_list_prefix(
    x: Seq<TypeDeclaration>,
    y: Seq<TypeDeclaration>,
    ra: Seq<(Seq<char>, Option<int>)>,
    rb: Seq<(Seq<char>, Option<int>)>,
)
    requires
        x.len() == y.len(),
        flat_type_list(x) + ra == flat_type_list(y) + rb,
    ensures
        same_type_list(x, y),
        ra == rb,
    decreases x,
{
    if x.len() == 0 {
        assert(flat_type_list(x) + ra =~= ra);
        assert(flat_type_list(y) + rb =~= rb);
    } else {
        let xs = x.subrange(1, x.len() as int);
        let ys = y.subrange(1, y.len() as int);
        assert(flat_type_list(x) + ra =~= flat_type(x[0]) + (flat_type_list(xs) + ra));
        assert(flat_type_list(y) + rb =~= flat_type(y[0]) + (flat_type_list(ys) + rb));
        lemma_flat_type_prefix(x[0], y[0], flat_type_list(xs) + ra, flat_type_list(ys) + rb);
        lemma_flat_list_prefix(xs, ys, ra, rb);
    }
}

/// The flattening is lossless: two type references with the same token
/// sequence are structurally equal, so flattening reproduces the
/// original nesting exactly.
pub proof fn lemma_flatten_reproduces_nesting(a: TypeDeclaration, b: TypeDeclaration)
    requires
        flat_type(a) == flat_type(b),
    ensures
        same_type(a, b),
{
    let empty = Seq::<(Seq<char>, Option<int>)>::empty();
    assert(flat_type(a) + empty =~= flat_type(a));
    assert(flat_type(b) + empty =~= flat_type(b));
    lemma_flat_type_prefix(a, b, empty, empty);
}

/// A reference without generic arguments never flattens like one with an
/// empty argument list: the two are semantically distinct states.
pub proof fn lemma_absent_distinct_from_empty(a: TypeDeclaration, b: TypeDeclaration)
    requires
        a.generic_type_assignment is None,
        b.generic_type_assignment matches Some(v) && v@.len() == 0,
    ensures
        flat_type(a) != flat_type(b),
{
    assert(flat_type(a)[0].1 is None);
    assert(flat_type(b)[0] == (b.name@, Option::Some(0int)));
}

/// The reading of an exec token list.
pub open spec fn tokens_view(s: Seq<(String, Option<usize>)>) -> Seq<(Seq<char>, Option<int>)> {
    s.map_values(
        |p: (String, Option<usize>)|
            (
                p.0@,
                match p.1 {
                    Option::Some(n) => Option::Some(n as int),
                    Option::None => Option::<int>::None,
                },
            ),
    )
}

/// Appending one reference's tokens extends a list's tokens.
proof fn lemma_flat_list_snoc(s: Seq<TypeDeclaration>, x: TypeDeclaration)
    ensures
        flat_type_list(s.push(x)) == flat_type_list(s) + flat_type(x),
    decreases s,
{
    if s.len() == 0 {
        let t = s.push(x);
        assert(t[0] == x);
        assert(t.subrange(1, t.len() as int) =~= Seq::<TypeDeclaration>::empty());
        assert(flat_type_list(t.subrange(1, t.len() as int)) == Seq::<
            (Seq<char>, Option<int>),
        >::empty());
        assert(flat_type_list(t) == flat_type(x) + Seq::<(Seq<char>, Option<int>)>::empty());
        assert(flat_type(x) + Seq::<(Seq<char>, Option<int>)>::empty() =~= flat_type(x));
        assert(flat_type_list(s) == Seq::<(Seq<char>, Option<int>)>::empty());
        assert(flat_type_list(s) + flat_type(x) =~= flat_type(x));
    } else {
        let t = s.push(x);
        assert(t[0] == s[0]);
        assert(t.subrange(1, t.len() as int) =~= s.subrange(1, s.len() as int).push(x));
        lemma_flat_list_snoc(s.subrange(1, s.len() as int), x);
        assert(flat_type_list(t) =~= flat_type_list(s) + flat_type(x));
    }
}

/// Flatten a type reference into its preorder token sequence.
#[verifier::loop_isolation(false)]
pub fn flatten_type(t: &TypeDeclaration) -> (r: Vec<(String, Option<usize>)>)
    ensures
        tokens_view(r@) == flat_type(*t),
    decreases *t,
{
    match &t.generic_type_assignment {
        Option::None => {
            let mut r: Vec<(String, Option<usize>)> = Vec::new();
            r.push((t.name.clone(), Option::None));
            proof {
                assert(tokens_view(r@) =~= flat_type(*t));
            }
            r
        },
        Option::Some(args) => {
            let mut r: Vec<(String, Option<usize>)> = Vec::new();
            r.push((t.name.clone(), Option::Some(args.len())));
            proof {
                assert(flat_type_list(args@.subrange(0, 0)) =~= Seq::<
                    (Seq<char>, Option<int>),
                >::empty());
                assert(tokens_view(r@) =~= seq![(t.name@, Option::Some(args@.len() as int))]
                    + flat_type_list(args@.subrange(0, 0)));
            }
            let mut i: usize = 0;
            while i < args.len()
                invariant
                    i <= args.len(),
                    tokens_view(r@) == seq![(t.name@, Option::Some(args@.len() as int))]
                        + flat_type_list(args@.subrange(0, i as int)),
                decreases args.len() - i,
            {
                let ghost prev = r@;
                let mut sub = flatten_type(&args[i]);
                let ghost sub_snap = sub@;
                r.append(&mut sub);
                proof {
                    assert(tokens_view(r@) =~= tokens_view(prev) + tokens_view(sub_snap));
                    assert(args@.subrange(0, i + 1) =~= args@.subrange(0, i as int).push(
                        args@[i as int],
                    ));
                    lemma_flat_list_snoc(args@.subrange(0, i as int), args@[i as int]);
                    assert(tokens_view(r@) =~= seq![(t.name@, Option::Some(args@.len() as int))]
                        + flat_type_list(args@.subrange(0, i + 1)));
                }
                i = i + 1;
            }
            proof {
                assert(args@.subrange(0, args@.len() as int) =~= args@);
            }
            r
        },
    }
}

} // verus!
