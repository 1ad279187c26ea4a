//! Lowering of binding patterns.

use vstd::prelude::*;
use crate::ast;
use crate::hir;
use crate::lower::AstLower;
use crate::relation::pattern::object_pattern_properties_lower_to;

verus! {

impl AstLower {
    /// Lowers a binding pattern.
    pub fn lower_binding_pattern(
        &self,
        pat: &ast::BindingPattern,
    ) -> (out: hir::BindingPattern)
        requires
            pat.well_formed(),
        ensures
            pat.lowers_to(out),
            out.span() == pat.span(),
        decreases pat,
    {
        match &pat.kind {
            ast::BindingPatternKind::BindingIdentifier(ident) => {
                let ident = self.lower_binding_identifier(ident);
                hir::BindingPattern::BindingIdentifier(Box::new(ident))
            },
            ast::BindingPatternKind::ObjectPattern(pat) => self.lower_object_pattern(pat),
            ast::BindingPatternKind::ArrayPattern(pat) => self.lower_array_pattern(pat),
            ast::BindingPatternKind::RestElement(elem) => {
                let rest_element = self.lower_rest_element(elem);
                hir::BindingPattern::RestElement(rest_element)
            },
            ast::BindingPatternKind::AssignmentPattern(pat) => self.lower_assignment_pattern(pat),
        }
    }

    /// Lowers an object pattern.
    pub fn lower_object_pattern(
        &self,
        pat: &ast::ObjectPattern,
    ) -> (out: hir::BindingPattern)
        requires
            pat.well_formed(),
        ensures
            out matches hir::BindingPattern::ObjectPattern(h) && pat.lowers_to(*h),
        decreases pat,
    {
        let properties = self.lower_object_pattern_properties(&pat.properties);
        hir::BindingPattern::ObjectPattern(Box::new(hir::ObjectPattern {
            span: pat.span,
            properties,
        }))
    }

    /// Lowers an object pattern property.
    pub fn lower_object_pattern_property(
        &self,
        prop: &ast::ObjectPatternProperty,
    ) -> (out: hir::ObjectPatternProperty)
        requires
            prop.well_formed(),
        ensures
            prop.lowers_to(out),
        decreases prop,
    {
        match prop {
            ast::ObjectPatternProperty::Property(x) => {
                hir::ObjectPatternProperty::Property(self.lower_property(x))
            },
            ast::ObjectPatternProperty::RestElement(x) => {
                hir::ObjectPatternProperty::RestElement(self.lower_rest_element(x))
            },
        }
    }

    /// Lowers a list of object pattern propertys, first to last.
    pub fn lower_object_pattern_properties(
        &self,
        items: &Vec<ast::ObjectPatternProperty>,
    ) -> (out: Vec<hir::ObjectPatternProperty>)
        requires
            forall|i: int| 0 <= i < items@.len() ==> (#[trigger] items@[i]).well_formed(),
        ensures
            object_pattern_properties_lower_to(items@, out@),
        decreases items,
    {
        let mut vec: Vec<hir::ObjectPatternProperty> = Vec::with_capacity(items.len());
        let mut i: usize = 0;
        while i < items.len()
            invariant
                i <= items.len(),
                vec@.len() == i,
                forall|j: int| 0 <= j < items@.len() ==> (#[trigger] items@[j]).well_formed(),
                forall|j: int| 0 <= j < i ==> (#[trigger] items@[j]).lowers_to(vec@[j]),
            decreases items.len() - i,
        {
            let item = self.lower_object_pattern_property(&items[i]);
            vec.push(item);
            i += 1;
        }
        vec
    }

    /// Lowers an array destructuring pattern. Every slot keeps its position: a
    /// hole stays a hole.
    #[verifier::loop_isolation(false)]
    pub fn lower_array_pattern(&self, pat: &ast::ArrayPattern) -> (out: hir::BindingPattern)
        requires
            pat.well_formed(),
        ensures
            out matches hir::BindingPattern::ArrayPattern(h) && pat.lowers_to(*h),
            out matches hir::BindingPattern::ArrayPattern(h) ==> h.elements@.len()
                == pat.elements@.len(),
            out matches hir::BindingPattern::ArrayPattern(h) ==> forall|i: int|
                0 <= i < pat.elements@.len() ==> ((#[trigger] h.elements@[i]) is None
                    <==> pat.elements@[i] is None),
        decreases pat,
    {
        let mut elements: Vec<Option<hir::BindingPattern>> = Vec::with_capacity(pat.elements.len());
        let mut i: usize = 0;
        while i < pat.elements.len()
            invariant
                i <= pat.elements.len(),
                elements@.len() == i,
                forall|j: int|
                    0 <= j < i ==> match #[trigger] pat.elements@[j] {
                        Some(a) => elements@[j] matches Some(b) && a.lowers_to(b),
                        None => elements@[j] is None,
                    },
            decreases pat.elements.len() - i,
        {
            let elem = match &pat.elements[i] {
                Some(pat) => Some(self.lower_binding_pattern(pat)),
                None => None,
            };
            elements.push(elem);
            i += 1;
        }
        hir::BindingPattern::ArrayPattern(Box::new(hir::ArrayPattern { span: pat.span, elements }))
    }

    /// Lowers a rest element.
    pub fn lower_rest_element(&self, pat: &ast::RestElement) -> (out: Box<hir::RestElement>)
        requires
            pat.well_formed(),
        ensures
            pat.lowers_to(*out),
        decreases pat,
    {
        let argument = self.lower_binding_pattern(&pat.argument);
        Box::new(hir::RestElement { span: pat.span, argument })
    }

    /// Lowers an assignment pattern.
    pub fn lower_assignment_pattern(
        &self,
        pat: &ast::AssignmentPattern,
    ) -> (out: hir::BindingPattern)
        requires
            pat.well_formed(),
        ensures
            out matches hir::BindingPattern::AssignmentPattern(h) && pat.lowers_to(*h),
        decreases pat,
    {
        let left = self.lower_binding_pattern(&pat.left);
        let right = self.lower_expression(&pat.right);
        hir::BindingPattern::AssignmentPattern(Box::new(hir::AssignmentPattern {
            span: pat.span,
            left,
            right,
        }))
    }
}

} // verus!
