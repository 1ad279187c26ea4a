//! Laws of lists: what is dropped, what stays, and in which order.

use vstd::prelude::*;
use crate::ast;
use crate::hir;
use crate::relation::declaration::{class_elements_lower_to, erased_class_elements};
use crate::relation::statement::{erased_statements, statements_lower_to};

verus! {

/// Lowering a list of N statements of which E are erased gives a list of
/// N − E statements.
pub proof fn lemma_statements_length(s: Seq<ast::Statement>, h: Seq<hir::Statement>)
    requires
        statements_lower_to(s, h),
    ensures
        h.len() == s.len() - erased_statements(s),
    decreases s.len(),
{
    if s.len() > 0 {
        if s.last().is_erased() {
            lemma_statements_length(s.drop_last(), h);
        } else {
            lemma_statements_length(s.drop_last(), h.drop_last());
        }
    }
}

/// The statements that are not erased keep their relative order. The result
/// names, for each statement of the lowered list, the position in `s` of the
/// statement it is the lowering of: these positions increase, and every
/// position that is not among them holds an erased statement.
pub proof fn lemma_statements_order(s: Seq<ast::Statement>, h: Seq<hir::Statement>) -> (at: Seq<
    int,
>)
    requires
        statements_lower_to(s, h),
    ensures
        at.len() == h.len(),
        forall|k: int|
            0 <= k < at.len() ==> 0 <= #[trigger] at[k] < s.len() && !s[at[k]].is_erased()
                && s[at[k]].lowers_to(h[k]),
        forall|j: int, k: int| 0 <= j < k < at.len() ==> at[j] < at[k],
        forall|i: int| 0 <= i < s.len() && !at.contains(i) ==> (#[trigger] s[i]).is_erased(),
    decreases s.len(),
{
    if s.len() == 0 {
        Seq::empty()
    } else if s.last().is_erased() {
        let at = lemma_statements_order(s.drop_last(), h);
        assert forall|i: int|
            0 <= i < s.len() && !at.contains(i) implies (#[trigger] s[i]).is_erased(
        ) by {
            if i < s.len() - 1 {
                assert(s.drop_last()[i] == s[i]);
            }
        }
        assert forall|k: int| 0 <= k < at.len() implies 0 <= #[trigger] at[k] < s.len()
            && !s[at[k]].is_erased() && s[at[k]].lowers_to(h[k]) by {
            assert(s.drop_last()[at[k]] == s[at[k]]);
        }
        at
    } else {
        let front = lemma_statements_order(s.drop_last(), h.drop_last());
        let at = front.push(s.len() - 1);
        assert forall|k: int| 0 <= k < at.len() implies 0 <= #[trigger] at[k] < s.len()
            && !s[at[k]].is_erased() && s[at[k]].lowers_to(h[k]) by {
            if k < front.len() {
                assert(at[k] == front[k]);
                assert(s.drop_last()[front[k]] == s[at[k]]);
                assert(h.drop_last()[k] == h[k]);
            }
        }
        assert forall|j: int, k: int| 0 <= j < k < at.len() implies at[j] < at[k] by {
            assert(at[j] == front[j]);
            if k < front.len() {
                assert(at[k] == front[k]);
            }
        }
        assert forall|i: int|
            0 <= i < s.len() && !at.contains(i) implies (#[trigger] s[i]).is_erased(
        ) by {
            if i < s.len() - 1 {
                if front.contains(i) {
                    let k = choose|k: int| 0 <= k < front.len() && front[k] == i;
                    assert(at[k] == i);
                }
                assert(s.drop_last()[i] == s[i]);
            } else {
                assert(at[at.len() - 1] == i);
            }
        }
        at
    }
}

/// Lowering the members of a class drops exactly the erased ones: N members
/// of which E are erased give N − E members.
pub proof fn lemma_class_elements_length(s: Seq<ast::ClassElement>, h: Seq<hir::ClassElement>)
    requires
        class_elements_lower_to(s, h),
    ensures
        h.len() == s.len() - erased_class_elements(s),
    decreases s.len(),
{
    if s.len() > 0 {
        if s.last().is_erased() {
            lemma_class_elements_length(s.drop_last(), h);
        } else {
            lemma_class_elements_length(s.drop_last(), h.drop_last());
        }
    }
}

/// An erased statement has no lowering.
pub proof fn lemma_erased_statement_has_no_lowering(s: ast::Statement, h: hir::Statement)
    requires
        s.is_erased(),
    ensures
        !s.lowers_to(h),
{
    reveal_with_fuel(ast::Statement::lowers_to, 4);
}

/// An array destructuring pattern keeps its slots: the lowered pattern has as
/// many, and a slot of it is a hole exactly where the slot of the pattern is.
pub proof fn lemma_array_pattern_keeps_holes(p: ast::ArrayPattern, h: hir::ArrayPattern)
    requires
        p.lowers_to(h),
    ensures
        h.elements@.len() == p.elements@.len(),
        forall|i: int|
            0 <= i < p.elements@.len() ==> ((#[trigger] h.elements@[i]) is None
                <==> p.elements@[i] is None),
{
    assert forall|i: int| 0 <= i < p.elements@.len() implies ((#[trigger] h.elements@[i]) is None
        <==> p.elements@[i] is None) by {
        let slot = p.elements@[i];
    }
}

/// An array destructuring target keeps its slots: the lowered target has as
/// many, and a slot of it is a hole exactly where the slot of the target is.
pub proof fn lemma_array_assignment_target_keeps_holes(
    t: ast::ArrayAssignmentTarget,
    h: hir::ArrayAssignmentTarget,
)
    requires
        t.lowers_to(h),
    ensures
        h.elements@.len() == t.elements@.len(),
        forall|i: int|
            0 <= i < t.elements@.len() ==> ((#[trigger] h.elements@[i]) is None
                <==> t.elements@[i] is None),
{
    assert forall|i: int| 0 <= i < t.elements@.len() implies ((#[trigger] h.elements@[i]) is None
        <==> t.elements@[i] is None) by {
        let slot = t.elements@[i];
    }
}

} // verus!
