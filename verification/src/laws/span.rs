//! Laws of positions: a lowered node stands where the node it came from stood.
//!
//! For a node with fields the relation says so itself: `lowers_to` of every
//! such node equates the two `span` fields. The laws here carry that over to
//! the sum types, whose position is that of the node they hold.

use vstd::prelude::*;
use crate::ast;
use crate::hir;
use crate::laws::wrapper::lemma_wrappers_are_transparent;

verus! {

/// A lowered member access stands where the member access stood.
pub proof fn lemma_member_expression_span(m: ast::MemberExpression, h: hir::MemberExpression)
    requires
        m.lowers_to(h),
    ensures
        h.span() == m.span(),
{
}

/// A lowered expression stands where the expression stood, wrappers not
/// counted: where the expression is wrapped in parentheses or in a type
/// annotation, its lowering stands where the expression inside the wrappers
/// stood.
pub proof fn lemma_expression_span(e: ast::Expression, h: hir::Expression)
    requires
        e.lowers_to(h),
    ensures
        h.span() == e.without_wrappers().span(),
    decreases e,
{
    reveal_with_fuel(ast::Expression::lowers_to, 2);
    match e {
        ast::Expression::ParenthesizedExpression(x) => lemma_expression_span(x.expression, h),
        ast::Expression::TSAsExpression(x) => lemma_expression_span(x.expression, h),
        ast::Expression::TSSatisfiesExpression(x) => lemma_expression_span(x.expression, h),
        ast::Expression::TSNonNullExpression(x) => lemma_expression_span(x.expression, h),
        ast::Expression::TSTypeAssertion(x) => lemma_expression_span(x.expression, h),
        ast::Expression::TSInstantiationExpression(x) => lemma_expression_span(x.expression, h),
        ast::Expression::MemberExpression(m) => {
            if let hir::Expression::MemberExpression(y) = h {
                lemma_member_expression_span(*m, *y);
            }
        },
        _ => {},
    }
}

/// A lowered expression that is no wrapper stands exactly where the
/// expression stood.
pub proof fn lemma_bare_expression_span(e: ast::Expression, h: hir::Expression)
    requires
        e.lowers_to(h),
        e.without_wrappers() == e,
    ensures
        h.span() == e.span(),
{
    lemma_expression_span(e, h);
}

/// A lowered declaration stands where the declaration stood.
pub proof fn lemma_declaration_span(d: ast::Declaration, h: hir::Declaration)
    requires
        d.lowers_to(h),
    ensures
        h.span() == d.span(),
{
}

/// A lowered import or export form stands where the form stood.
pub proof fn lemma_module_declaration_span(d: ast::ModuleDeclaration, h: hir::ModuleDeclaration)
    requires
        d.lowers_to(h),
    ensures
        h.span() == d.span(),
{
}

/// A lowered statement stands where the statement stood.
pub proof fn lemma_statement_span(s: ast::Statement, h: hir::Statement)
    requires
        s.lowers_to(h),
    ensures
        h.span() == s.span(),
{
    match s {
        ast::Statement::ModuleDeclaration(d) => {
            if let hir::Statement::ModuleDeclaration(y) = h {
                lemma_module_declaration_span(*d, *y);
            }
        },
        ast::Statement::Declaration(d) => {
            if let hir::Statement::Declaration(y) = h {
                lemma_declaration_span(d, y);
            }
        },
        _ => {},
    }
}

/// In a position that needs a statement, what lowering puts there stands where
/// the statement stood, whether the statement is erased or not.
pub proof fn lemma_statement_or_empty_span(s: ast::Statement, h: hir::Statement)
    requires
        s.lowers_to_or_empty(h),
    ensures
        h.span() == s.span(),
{
    if !s.is_erased() {
        lemma_statement_span(s, h);
    }
}

/// A lowered class member stands where the member stood.
pub proof fn lemma_class_element_span(e: ast::ClassElement, h: hir::ClassElement)
    requires
        e.lowers_to(h),
    ensures
        h.span() == e.span(),
{
}

/// A lowered binding pattern stands where the pattern stood.
pub proof fn lemma_binding_pattern_span(p: ast::BindingPattern, h: hir::BindingPattern)
    requires
        p.lowers_to(h),
    ensures
        h.span() == p.span(),
{
}

/// A lowered simple assignment target stands where the place assigned to
/// stood: a wrapper that only carries a type leaves no position behind.
pub proof fn lemma_simple_assignment_target_span(
    t: ast::SimpleAssignmentTarget,
    h: hir::SimpleAssignmentTarget,
)
    requires
        t.lowers_to(h),
    ensures
        h.span() == t.place_span(),
{
    match t {
        ast::SimpleAssignmentTarget::TSAsExpression(x) => {
            lemma_wrapped_place_span(x.expression, h)
        },
        ast::SimpleAssignmentTarget::TSSatisfiesExpression(x) => {
            lemma_wrapped_place_span(x.expression, h)
        },
        ast::SimpleAssignmentTarget::TSNonNullExpression(x) => {
            lemma_wrapped_place_span(x.expression, h)
        },
        ast::SimpleAssignmentTarget::TSTypeAssertion(x) => {
            lemma_wrapped_place_span(x.expression, h)
        },
        _ => {},
    }
}

/// An expression lowered as an assignment target stands where the expression
/// stood.
pub proof fn lemma_wrapped_place_span(e: ast::Expression, h: hir::SimpleAssignmentTarget)
    requires
        e.lowers_to_simple_target(h),
    ensures
        h.span() == e.span(),
{
}

/// A lowered assignment target stands where what is assigned to stood.
pub proof fn lemma_assignment_target_span(t: ast::AssignmentTarget, h: hir::AssignmentTarget)
    requires
        t.lowers_to(h),
    ensures
        h.span() == t.place_span(),
{
    match t {
        ast::AssignmentTarget::SimpleAssignmentTarget(x) => {
            if let hir::AssignmentTarget::SimpleAssignmentTarget(y) = h {
                lemma_simple_assignment_target_span(x, y);
            }
        },
        ast::AssignmentTarget::AssignmentTargetPattern(x) => {
            if let hir::AssignmentTarget::AssignmentTargetPattern(y) = h {
                lemma_assignment_target_pattern_span(x, y);
            }
        },
    }
}

/// A lowered destructuring target stands where the target stood.
pub proof fn lemma_assignment_target_pattern_span(
    p: ast::AssignmentTargetPattern,
    h: hir::AssignmentTargetPattern,
)
    requires
        p.lowers_to(h),
    ensures
        h.span() == p.span(),
{
}

} // verus!
