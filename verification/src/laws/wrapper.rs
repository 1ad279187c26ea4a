//! Laws of wrappers: parentheses and type annotations leave no trace.

use vstd::prelude::*;
use crate::ast;
use crate::hir;
use crate::source::atom_chars;

verus! {

/// A wrapped expression lowers to exactly what the expression without its
/// wrappers lowers to.
pub proof fn lemma_wrappers_are_transparent(e: ast::Expression, h: hir::Expression)
    ensures
        e.lowers_to(h) == e.without_wrappers().lowers_to(h),
    decreases e,
{
    match e {
        ast::Expression::ParenthesizedExpression(x) => {
            lemma_wrappers_are_transparent(x.expression, h)
        },
        ast::Expression::TSAsExpression(x) => lemma_wrappers_are_transparent(x.expression, h),
        ast::Expression::TSSatisfiesExpression(x) => {
            lemma_wrappers_are_transparent(x.expression, h)
        },
        ast::Expression::TSNonNullExpression(x) => lemma_wrappers_are_transparent(x.expression, h),
        ast::Expression::TSTypeAssertion(x) => lemma_wrappers_are_transparent(x.expression, h),
        ast::Expression::TSInstantiationExpression(x) => {
            lemma_wrappers_are_transparent(x.expression, h)
        },
        _ => {},
    }
}

/// What is left after taking the wrappers off is no wrapper.
pub proof fn lemma_without_wrappers_is_bare(e: ast::Expression)
    ensures
        !(e.without_wrappers() is ParenthesizedExpression),
        !(e.without_wrappers() is TSAsExpression),
        !(e.without_wrappers() is TSSatisfiesExpression),
        !(e.without_wrappers() is TSNonNullExpression),
        !(e.without_wrappers() is TSTypeAssertion),
        !(e.without_wrappers() is TSInstantiationExpression),
    decreases e,
{
    match e {
        ast::Expression::ParenthesizedExpression(x) => lemma_without_wrappers_is_bare(x.expression),
        ast::Expression::TSAsExpression(x) => lemma_without_wrappers_is_bare(x.expression),
        ast::Expression::TSSatisfiesExpression(x) => lemma_without_wrappers_is_bare(x.expression),
        ast::Expression::TSNonNullExpression(x) => lemma_without_wrappers_is_bare(x.expression),
        ast::Expression::TSTypeAssertion(x) => lemma_without_wrappers_is_bare(x.expression),
        ast::Expression::TSInstantiationExpression(x) => {
            lemma_without_wrappers_is_bare(x.expression)
        },
        _ => {},
    }
}

/// Markup lowers to a reference to an identifier named `void` that stands
/// where the markup stood.
pub proof fn lemma_markup_lowers_to_placeholder(e: ast::Expression, h: hir::Expression)
    requires
        e is JSXElement || e is JSXFragment,
        e.lowers_to(h),
    ensures
        h matches hir::Expression::Identifier(ident) && atom_chars(ident.name) == "void"@
            && ident.span == e.span(),
{
}

} // verus!
