//! Laws of positions that need a statement: the branches of an `if`, the body
//! of a loop, of a label and of a `with`.

use vstd::prelude::*;
use crate::ast;
use crate::hir;

verus! {

/// Where a statement is needed and the statement is erased, an empty statement
/// stands in its place, at the position of the erased statement.
pub proof fn lemma_erased_statement_leaves_an_empty_statement(s: ast::Statement, h: hir::Statement)
    requires
        s.is_erased(),
        s.lowers_to_or_empty(h),
    ensures
        h matches hir::Statement::EmptyStatement(e) && e.span == s.span(),
{
}

/// Where a statement is needed and the statement is not erased, its lowering
/// stands there.
pub proof fn lemma_kept_statement_is_lowered_in_place(s: ast::Statement, h: hir::Statement)
    requires
        !s.is_erased(),
        s.lowers_to_or_empty(h),
    ensures
        s.lowers_to(h),
{
}

/// An `if` statement keeps its branches. The lowered statement has an `else`
/// branch exactly when the statement has one, and an erased branch, `then` or
/// `else`, leaves an empty statement at its position.
pub proof fn lemma_if_statement_keeps_its_branches(s: ast::IfStatement, h: hir::IfStatement)
    requires
        s.lowers_to(h),
    ensures
        s.alternate is Some <==> h.alternate is Some,
        s.consequent.is_erased() ==> (h.consequent matches hir::Statement::EmptyStatement(e)
            && e.span == s.consequent.span()),
        s.alternate matches Some(a) ==> (h.alternate matches Some(b) && a.lowers_to_or_empty(b)),
        s.alternate matches Some(a) ==> (a.is_erased() ==> (h.alternate matches Some(
            hir::Statement::EmptyStatement(e),
        ) && e.span == a.span())),
{
}

} // verus!
