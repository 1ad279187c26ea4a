//! Lowering of literals.

use vstd::prelude::*;
use crate::ast;
use crate::hir;
use crate::lower::AstLower;

verus! {

impl AstLower {
    /// Lowers a number literal.
    pub fn lower_number_literal(&self, lit: &ast::NumberLiteral) -> (out: hir::NumberLiteral)
        ensures
            lit.lowers_to(out),
    {
        let base = match lit.base {
            ast::NumberBase::Decimal => hir::NumberBase::Decimal,
            ast::NumberBase::Binary => hir::NumberBase::Binary,
            ast::NumberBase::Octal => hir::NumberBase::Octal,
            ast::NumberBase::Hex => hir::NumberBase::Hex,
        };
        hir::NumberLiteral { span: lit.span, value: lit.value, raw: lit.raw.clone(), base }
    }

    /// Lowers a boolean literal.
    pub fn lower_boolean_literal(
        &self,
        lit: &ast::BooleanLiteral,
    ) -> (out: hir::BooleanLiteral)
        ensures
            lit.lowers_to(out),
    {
        hir::BooleanLiteral { span: lit.span, value: lit.value }
    }

    /// Lowers a `null` literal.
    pub fn lower_null_literal(&self, lit: &ast::NullLiteral) -> (out: hir::NullLiteral)
        ensures
            lit.lowers_to(out),
    {
        hir::NullLiteral { span: lit.span }
    }

    /// Lowers a bigint literal.
    pub fn lower_bigint_literal(&self, lit: &ast::BigintLiteral) -> (out: hir::BigintLiteral)
        ensures
            lit.lowers_to(out),
    {
        hir::BigintLiteral { span: lit.span, value: lit.value.clone() }
    }

    /// Lowers a string literal.
    pub fn lower_string_literal(&self, lit: &ast::StringLiteral) -> (out: hir::StringLiteral)
        ensures
            lit.lowers_to(out),
    {
        hir::StringLiteral { span: lit.span, value: lit.value.clone() }
    }

    /// Lowers a template literal.
    pub fn lower_template_literal(
        &self,
        lit: &ast::TemplateLiteral,
    ) -> (out: hir::TemplateLiteral)
        requires
            lit.well_formed(),
        ensures
            lit.lowers_to(out),
        decreases lit,
    {
        let quasis = self.lower_vec(&lit.quasis, Self::lower_template_element);
        let expressions = self.lower_expressions(&lit.expressions);
        hir::TemplateLiteral { span: lit.span, quasis, expressions }
    }

    /// Lowers a regular expression literal. Every flag of the syntax tree is a
    /// flag of the reduced tree, so the flags always carry over.
    pub fn lower_reg_expr_literal(
        &self,
        lit: &ast::RegExpLiteral,
    ) -> (out: hir::RegExpLiteral)
        ensures
            lit.lowers_to(out),
    {
        let bits = lit.regex.flags.bits();
        assert(bits & !0xffu8 == 0) by (bit_vector);
        let flags = hir::RegExpFlags::from_bits(bits).unwrap();
        let regex = hir::RegExp { pattern: lit.regex.pattern.clone(), flags };
        hir::RegExpLiteral { span: lit.span, regex }
    }

    /// Lowers a template element.
    pub fn lower_template_element(
        &self,
        elem: &ast::TemplateElement,
    ) -> (out: hir::TemplateElement)
        ensures
            elem.lowers_to(out),
    {
        let value = self.lower_template_element_value(&elem.value);
        hir::TemplateElement { span: elem.span, tail: elem.tail, value }
    }

    /// Lowers a template element value.
    pub fn lower_template_element_value(
        &self,
        elem: &ast::TemplateElementValue,
    ) -> (out: hir::TemplateElementValue)
        ensures
            elem.lowers_to(out),
    {
        let cooked = match &elem.cooked {
            Some(s) => Some(s.clone()),
            None => None,
        };
        hir::TemplateElementValue { raw: elem.raw.clone(), cooked }
    }
}

} // verus!
