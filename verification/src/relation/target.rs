//! What lowering an assignment target means.

use vstd::prelude::*;
use crate::ast;
use crate::hir;

verus! {

impl ast::AssignmentTarget {
    /// Holds when `h` is the lowering of this assignment target.
    pub open spec fn lowers_to(&self, h: hir::AssignmentTarget) -> bool
        decreases self,
    {
        match self {
            ast::AssignmentTarget::SimpleAssignmentTarget(x) => {
                h matches hir::AssignmentTarget::SimpleAssignmentTarget(y) && x.lowers_to(y)
            },
            ast::AssignmentTarget::AssignmentTargetPattern(x) => {
                h matches hir::AssignmentTarget::AssignmentTargetPattern(y) && x.lowers_to(y)
            },
        }
    }

    /// Source range of what is assigned to: that of a destructuring target, or of
    /// the place that a simple target names.
    pub open spec fn place_span(&self) -> oxc_span::Span {
        match self {
            ast::AssignmentTarget::SimpleAssignmentTarget(x) => x.place_span(),
            ast::AssignmentTarget::AssignmentTargetPattern(x) => x.span(),
        }
    }
}

impl ast::SimpleAssignmentTarget {
    /// Holds when `h` is the lowering of this simple assignment target.
    pub open spec fn lowers_to(&self, h: hir::SimpleAssignmentTarget) -> bool
        decreases self,
    {
        match self {
            ast::SimpleAssignmentTarget::AssignmentTargetIdentifier(x) => {
                h matches hir::SimpleAssignmentTarget::AssignmentTargetIdentifier(y)
                    && x.lowers_to(*y)
            },
            ast::SimpleAssignmentTarget::MemberAssignmentTarget(x) => {
                h matches hir::SimpleAssignmentTarget::MemberAssignmentTarget(y) && x.lowers_to(*y)
            },
            ast::SimpleAssignmentTarget::TSAsExpression(x) => {
                x.expression.lowers_to_simple_target(h)
            },
            ast::SimpleAssignmentTarget::TSSatisfiesExpression(x) => {
                x.expression.lowers_to_simple_target(h)
            },
            ast::SimpleAssignmentTarget::TSNonNullExpression(x) => {
                x.expression.lowers_to_simple_target(h)
            },
            ast::SimpleAssignmentTarget::TSTypeAssertion(x) => {
                x.expression.lowers_to_simple_target(h)
            },
        }
    }

    /// Source range of the place assigned to: that of the target itself, or of
    /// what it wraps where the target is a wrapper that only carries a type.
    pub open spec fn place_span(&self) -> oxc_span::Span {
        match self {
            ast::SimpleAssignmentTarget::AssignmentTargetIdentifier(x) => x.span,
            ast::SimpleAssignmentTarget::MemberAssignmentTarget(x) => x.span(),
            ast::SimpleAssignmentTarget::TSAsExpression(x) => x.expression.span(),
            ast::SimpleAssignmentTarget::TSSatisfiesExpression(x) => x.expression.span(),
            ast::SimpleAssignmentTarget::TSNonNullExpression(x) => x.expression.span(),
            ast::SimpleAssignmentTarget::TSTypeAssertion(x) => x.expression.span(),
        }
    }
}

impl ast::AssignmentTargetPattern {
    /// Holds when `h` is the lowering of this assignment target pattern.
    pub open spec fn lowers_to(&self, h: hir::AssignmentTargetPattern) -> bool
        decreases self,
    {
        match self {
            ast::AssignmentTargetPattern::ArrayAssignmentTarget(x) => {
                h matches hir::AssignmentTargetPattern::ArrayAssignmentTarget(y) && x.lowers_to(*y)
            },
            ast::AssignmentTargetPattern::ObjectAssignmentTarget(x) => {
                h matches hir::AssignmentTargetPattern::ObjectAssignmentTarget(y) && x.lowers_to(*y)
            },
        }
    }
}

impl ast::ArrayAssignmentTarget {
    /// Holds when `h` is the lowering of this array assignment target.
    pub open spec fn lowers_to(&self, h: hir::ArrayAssignmentTarget) -> bool
        decreases self,
    {
        &&& h.span == self.span
        &&& h.elements@.len() == self.elements@.len()
        &&& forall|i: int|
            0 <= i < self.elements@.len() ==> match #[trigger] self.elements@[i] {
                Some(a) => h.elements@[i] matches Some(b) && a.lowers_to(b),
                None => h.elements@[i] is None,
            }
        &&& match self.rest {
            Some(a) => h.rest matches Some(b) && a.lowers_to(b),
            None => h.rest is None,
        }
        &&& h.trailing_comma == self.trailing_comma
    }
}

impl ast::ObjectAssignmentTarget {
    /// Holds when `h` is the lowering of this object assignment target.
    pub open spec fn lowers_to(&self, h: hir::ObjectAssignmentTarget) -> bool
        decreases self,
    {
        &&& h.span == self.span
        &&& assignment_target_properties_lower_to(self.properties@, h.properties@)
        &&& match self.rest {
            Some(a) => h.rest matches Some(b) && a.lowers_to(b),
            None => h.rest is None,
        }
    }
}

impl ast::AssignmentTargetMaybeDefault {
    /// Holds when `h` is the lowering of this assignment target maybe default.
    pub open spec fn lowers_to(&self, h: hir::AssignmentTargetMaybeDefault) -> bool
        decreases self,
    {
        match self {
            ast::AssignmentTargetMaybeDefault::AssignmentTarget(x) => {
                h matches hir::AssignmentTargetMaybeDefault::AssignmentTarget(y) && x.lowers_to(y)
            },
            ast::AssignmentTargetMaybeDefault::AssignmentTargetWithDefault(x) => {
                h matches hir::AssignmentTargetMaybeDefault::AssignmentTargetWithDefault(y)
                    && x.lowers_to(*y)
            },
        }
    }
}

impl ast::AssignmentTargetWithDefault {
    /// Holds when `h` is the lowering of this assignment target with default.
    pub open spec fn lowers_to(&self, h: hir::AssignmentTargetWithDefault) -> bool
        decreases self,
    {
        &&& h.span == self.span
        &&& self.binding.lowers_to(h.binding)
        &&& self.init.lowers_to(h.init)
    }
}

impl ast::AssignmentTargetProperty {
    /// Holds when `h` is the lowering of this assignment target property.
    pub open spec fn lowers_to(&self, h: hir::AssignmentTargetProperty) -> bool
        decreases self,
    {
        match self {
            ast::AssignmentTargetProperty::AssignmentTargetPropertyIdentifier(x) => {
                h matches hir::AssignmentTargetProperty::AssignmentTargetPropertyIdentifier(y)
                    && x.lowers_to(*y)
            },
            ast::AssignmentTargetProperty::AssignmentTargetPropertyProperty(x) => {
                h matches hir::AssignmentTargetProperty::AssignmentTargetPropertyProperty(y)
                    && x.lowers_to(*y)
            },
        }
    }
}

/// Holds when `h` has the length of `s` and holds, at each position, the lowering of
/// what `s` holds there.
pub open spec fn assignment_target_properties_lower_to(
    s: Seq<ast::AssignmentTargetProperty>,
    h: Seq<hir::AssignmentTargetProperty>,
) -> bool
    decreases s,
{
    &&& h.len() == s.len()
    &&& forall|i: int| 0 <= i < s.len() ==> (#[trigger] s[i]).lowers_to(h[i])
}

impl ast::AssignmentTargetPropertyIdentifier {
    /// Holds when `h` is the lowering of this assignment target property identifier.
    pub open spec fn lowers_to(&self, h: hir::AssignmentTargetPropertyIdentifier) -> bool
        decreases self,
    {
        &&& h.span == self.span
        &&& self.binding.lowers_to(h.binding)
        &&& match self.init {
            Some(a) => h.init matches Some(b) && a.lowers_to(b),
            None => h.init is None,
        }
    }
}

impl ast::AssignmentTargetPropertyProperty {
    /// Holds when `h` is the lowering of this assignment target property property.
    pub open spec fn lowers_to(&self, h: hir::AssignmentTargetPropertyProperty) -> bool
        decreases self,
    {
        &&& h.span == self.span
        &&& self.name.lowers_to(h.name)
        &&& self.binding.lowers_to(h.binding)
    }
}

} // verus!
