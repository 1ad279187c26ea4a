//! What lowering a binding pattern means.

use vstd::prelude::*;
use crate::ast;
use crate::hir;

verus! {

impl ast::BindingPattern {
    /// Holds when `h` is the lowering of this binding pattern.
    pub open spec fn lowers_to(&self, h: hir::BindingPattern) -> bool
        decreases self,
    {
        self.kind.lowers_to(h)
    }
}

impl ast::BindingPatternKind {
    /// Holds when `h` is the lowering of this binding pattern.
    pub open spec fn lowers_to(&self, h: hir::BindingPattern) -> bool
        decreases self,
    {
        match self {
            ast::BindingPatternKind::BindingIdentifier(x) => {
                h matches hir::BindingPattern::BindingIdentifier(y) && x.lowers_to(*y)
            },
            ast::BindingPatternKind::ObjectPattern(x) => {
                h matches hir::BindingPattern::ObjectPattern(y) && x.lowers_to(*y)
            },
            ast::BindingPatternKind::ArrayPattern(x) => {
                h matches hir::BindingPattern::ArrayPattern(y) && x.lowers_to(*y)
            },
            ast::BindingPatternKind::RestElement(x) => {
                h matches hir::BindingPattern::RestElement(y) && x.lowers_to(*y)
            },
            ast::BindingPatternKind::AssignmentPattern(x) => {
                h matches hir::BindingPattern::AssignmentPattern(y) && x.lowers_to(*y)
            },
        }
    }
}

impl ast::ObjectPattern {
    /// Holds when `h` is the lowering of this object pattern.
    pub open spec fn lowers_to(&self, h: hir::ObjectPattern) -> bool
        decreases self,
    {
        &&& h.span == self.span
        &&& object_pattern_properties_lower_to(self.properties@, h.properties@)
    }
}

impl ast::ObjectPatternProperty {
    /// Holds when `h` is the lowering of this object pattern property.
    pub open spec fn lowers_to(&self, h: hir::ObjectPatternProperty) -> bool
        decreases self,
    {
        match self {
            ast::ObjectPatternProperty::Property(x) => {
                h matches hir::ObjectPatternProperty::Property(y) && x.lowers_to(*y)
            },
            ast::ObjectPatternProperty::RestElement(x) => {
                h matches hir::ObjectPatternProperty::RestElement(y) && x.lowers_to(*y)
            },
        }
    }
}

/// Holds when `h` has the length of `s` and holds, at each position, the lowering of
/// what `s` holds there.
pub open spec fn object_pattern_properties_lower_to(
    s: Seq<ast::ObjectPatternProperty>,
    h: Seq<hir::ObjectPatternProperty>,
) -> bool
    decreases s,
{
    &&& h.len() == s.len()
    &&& forall|i: int| 0 <= i < s.len() ==> (#[trigger] s[i]).lowers_to(h[i])
}

impl ast::ArrayPattern {
    /// Holds when `h` is the lowering of this array pattern.
    pub open spec fn lowers_to(&self, h: hir::ArrayPattern) -> bool
        decreases self,
    {
        &&& h.span == self.span
        &&& h.elements@.len() == self.elements@.len()
        &&& forall|i: int|
            0 <= i < self.elements@.len() ==> match #[trigger] self.elements@[i] {
                Some(a) => h.elements@[i] matches Some(b) && a.lowers_to(b),
                None => h.elements@[i] is None,
            }
    }
}

impl ast::RestElement {
    /// Holds when `h` is the lowering of this rest element.
    pub open spec fn lowers_to(&self, h: hir::RestElement) -> bool
        decreases self,
    {
        &&& h.span == self.span
        &&& self.argument.lowers_to(h.argument)
    }
}

impl ast::AssignmentPattern {
    /// Holds when `h` is the lowering of this assignment pattern.
    pub open spec fn lowers_to(&self, h: hir::AssignmentPattern) -> bool
        decreases self,
    {
        &&& h.span == self.span
        &&& self.left.lowers_to(h.left)
        &&& self.right.lowers_to(h.right)
    }
}

} // verus!
