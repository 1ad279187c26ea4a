//! What lowering a literal means.

use vstd::prelude::*;
use crate::ast;
use crate::hir;
use crate::source::atom_chars;
use crate::relation::expression::expressions_lower_to;

verus! {

impl ast::NumberBase {
    /// The tag of the reduced tree that means the same.
    pub open spec fn lowered(self) -> hir::NumberBase {
        match self {
            ast::NumberBase::Decimal => hir::NumberBase::Decimal,
            ast::NumberBase::Binary => hir::NumberBase::Binary,
            ast::NumberBase::Octal => hir::NumberBase::Octal,
            ast::NumberBase::Hex => hir::NumberBase::Hex,
        }
    }
}

impl ast::NumberLiteral {
    /// Holds when `h` is the lowering of this number literal.
    pub open spec fn lowers_to(&self, h: hir::NumberLiteral) -> bool {
        &&& h.span == self.span
        &&& h.value == self.value
        &&& h.raw@ == self.raw@
        &&& h.base == self.base.lowered()
    }
}

impl ast::BooleanLiteral {
    /// Holds when `h` is the lowering of this boolean literal.
    pub open spec fn lowers_to(&self, h: hir::BooleanLiteral) -> bool {
        &&& h.span == self.span
        &&& h.value == self.value
    }
}

impl ast::NullLiteral {
    /// Holds when `h` is the lowering of this `null` literal.
    pub open spec fn lowers_to(&self, h: hir::NullLiteral) -> bool {
        &&& h.span == self.span
    }
}

impl ast::BigintLiteral {
    /// Holds when `h` is the lowering of this bigint literal.
    pub open spec fn lowers_to(&self, h: hir::BigintLiteral) -> bool {
        &&& h.span == self.span
        &&& h.value@ == self.value@
    }
}

impl ast::StringLiteral {
    /// Holds when `h` is the lowering of this string literal.
    pub open spec fn lowers_to(&self, h: hir::StringLiteral) -> bool {
        &&& h.span == self.span
        &&& atom_chars(h.value) == atom_chars(self.value)
    }
}

impl ast::TemplateLiteral {
    /// Holds when `h` is the lowering of this template literal.
    pub open spec fn lowers_to(&self, h: hir::TemplateLiteral) -> bool
        decreases self,
    {
        &&& h.span == self.span
        &&& template_elements_lower_to(self.quasis@, h.quasis@)
        &&& expressions_lower_to(self.expressions@, h.expressions@)
    }
}

impl ast::RegExpLiteral {
    /// Holds when `h` is the lowering of this regular expression literal.
    pub open spec fn lowers_to(&self, h: hir::RegExpLiteral) -> bool {
        &&& h.span == self.span
        &&& self.regex.lowers_to(h.regex)
    }
}

impl ast::RegExp {
    /// Holds when `h` is the lowering of this regular expression.
    pub open spec fn lowers_to(&self, h: hir::RegExp) -> bool {
        &&& atom_chars(h.pattern) == atom_chars(self.pattern)
        &&& h.flags.bits == self.flags.bits
    }
}

impl ast::TemplateElement {
    /// Holds when `h` is the lowering of this template element.
    pub open spec fn lowers_to(&self, h: hir::TemplateElement) -> bool {
        &&& h.span == self.span
        &&& h.tail == self.tail
        &&& self.value.lowers_to(h.value)
    }
}

/// Holds when `h` has the length of `s` and holds, at each position, the lowering of
/// what `s` holds there.
pub open spec fn template_elements_lower_to(
    s: Seq<ast::TemplateElement>,
    h: Seq<hir::TemplateElement>,
) -> bool {
    &&& h.len() == s.len()
    &&& forall|i: int| 0 <= i < s.len() ==> (#[trigger] s[i]).lowers_to(h[i])
}

impl ast::TemplateElementValue {
    /// Holds when `h` is the lowering of this template element value.
    pub open spec fn lowers_to(&self, h: hir::TemplateElementValue) -> bool {
        &&& atom_chars(h.raw) == atom_chars(self.raw)
        &&& match self.cooked {
            Some(s) => h.cooked matches Some(t) && atom_chars(t) == atom_chars(s),
            None => h.cooked is None,
        }
    }
}

} // verus!
