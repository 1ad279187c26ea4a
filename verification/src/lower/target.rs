//! Lowering of assignment targets.

use vstd::prelude::*;
use crate::ast;
use crate::hir;
use crate::lower::AstLower;
use crate::relation::target::assignment_target_properties_lower_to;

verus! {

impl AstLower {
    /// Lowers an assignment target.
    pub fn lower_assignment_target(
        &self,
        target: &ast::AssignmentTarget,
    ) -> (out: hir::AssignmentTarget)
        requires
            target.well_formed(),
        ensures
            target.lowers_to(out),
            out.span() == target.place_span(),
        decreases target,
    {
        match target {
            ast::AssignmentTarget::SimpleAssignmentTarget(x) => {
                hir::AssignmentTarget::SimpleAssignmentTarget(
                    self.lower_simple_assignment_target(x),
                )
            },
            ast::AssignmentTarget::AssignmentTargetPattern(x) => {
                hir::AssignmentTarget::AssignmentTargetPattern(
                    self.lower_assignment_target_pattern(x),
                )
            },
        }
    }

    /// Lowers an assignment target that names a single place. A wrapper that only
    /// carries a type gives what the identifier or member access inside gives.
    pub fn lower_simple_assignment_target(
        &self,
        target: &ast::SimpleAssignmentTarget,
    ) -> (out: hir::SimpleAssignmentTarget)
        requires
            target.well_formed(),
        ensures
            target.lowers_to(out),
            out.span() == target.place_span(),
        decreases target,
    {
        match target {
            ast::SimpleAssignmentTarget::AssignmentTargetIdentifier(ident) => {
                let ident = self.lower_identifier_reference(ident);
                hir::SimpleAssignmentTarget::AssignmentTargetIdentifier(Box::new(ident))
            },
            ast::SimpleAssignmentTarget::MemberAssignmentTarget(member_expr) => {
                let member_expr = self.lower_member_expr(member_expr);
                hir::SimpleAssignmentTarget::MemberAssignmentTarget(Box::new(member_expr))
            },
            ast::SimpleAssignmentTarget::TSAsExpression(expr) => {
                self.lower_assignment_target_expression(&expr.expression)
            },
            ast::SimpleAssignmentTarget::TSSatisfiesExpression(expr) => {
                self.lower_assignment_target_expression(&expr.expression)
            },
            ast::SimpleAssignmentTarget::TSNonNullExpression(expr) => {
                self.lower_assignment_target_expression(&expr.expression)
            },
            ast::SimpleAssignmentTarget::TSTypeAssertion(expr) => {
                self.lower_assignment_target_expression(&expr.expression)
            },
        }
    }

    /// Lowers an expression that stands where an assignment target is expected.
    /// Only an identifier and a member access can stand there.
    pub fn lower_assignment_target_expression(
        &self,
        expr: &ast::Expression,
    ) -> (out: hir::SimpleAssignmentTarget)
        requires
            expr.well_formed(),
            expr.is_simple_target(),
        ensures
            expr.lowers_to_simple_target(out),
        decreases expr,
    {
        match expr {
            ast::Expression::Identifier(ident) => {
                let ident = self.lower_identifier_reference(ident);
                hir::SimpleAssignmentTarget::AssignmentTargetIdentifier(Box::new(ident))
            },
            ast::Expression::MemberExpression(member_expr) => {
                let member_expr = self.lower_member_expr(member_expr);
                hir::SimpleAssignmentTarget::MemberAssignmentTarget(Box::new(member_expr))
            },
            _ => unreached(),
        }
    }

    /// Lowers an assignment target pattern.
    pub fn lower_assignment_target_pattern(
        &self,
        pat: &ast::AssignmentTargetPattern,
    ) -> (out: hir::AssignmentTargetPattern)
        requires
            pat.well_formed(),
        ensures
            pat.lowers_to(out),
            out.span() == pat.span(),
        decreases pat,
    {
        match pat {
            ast::AssignmentTargetPattern::ArrayAssignmentTarget(x) => {
                hir::AssignmentTargetPattern::ArrayAssignmentTarget(
                    self.lower_array_assignment_target(x),
                )
            },
            ast::AssignmentTargetPattern::ObjectAssignmentTarget(x) => {
                hir::AssignmentTargetPattern::ObjectAssignmentTarget(
                    self.lower_object_assignment_target(x),
                )
            },
        }
    }

    /// Lowers an array destructuring target. Every slot keeps its position: a
    /// hole stays a hole.
    #[verifier::loop_isolation(false)]
    pub fn lower_array_assignment_target(
        &self,
        target: &ast::ArrayAssignmentTarget,
    ) -> (out: Box<hir::ArrayAssignmentTarget>)
        requires
            target.well_formed(),
        ensures
            target.lowers_to(*out),
            out.elements@.len() == target.elements@.len(),
            forall|i: int|
                0 <= i < target.elements@.len() ==> ((#[trigger] out.elements@[i]) is None
                    <==> target.elements@[i] is None),
        decreases target,
    {
        let mut elements: Vec<Option<hir::AssignmentTargetMaybeDefault>> = Vec::with_capacity(
            target.elements.len(),
        );
        let mut i: usize = 0;
        while i < target.elements.len()
            invariant
                i <= target.elements.len(),
                elements@.len() == i,
                forall|j: int|
                    0 <= j < i ==> match #[trigger] target.elements@[j] {
                        Some(a) => elements@[j] matches Some(b) && a.lowers_to(b),
                        None => elements@[j] is None,
                    },
            decreases target.elements.len() - i,
        {
            let elem = match &target.elements[i] {
                Some(elem) => Some(self.lower_assignment_target_maybe_default(elem)),
                None => None,
            };
            elements.push(elem);
            i += 1;
        }
        let rest = match &target.rest {
            Some(x) => Some(self.lower_assignment_target(x)),
            None => None,
        };
        Box::new(
            hir::ArrayAssignmentTarget {
                span: target.span,
                elements,
                rest,
                trailing_comma: target.trailing_comma,
            },
        )
    }

    /// Lowers an object assignment target.
    pub fn lower_object_assignment_target(
        &self,
        target: &ast::ObjectAssignmentTarget,
    ) -> (out: Box<hir::ObjectAssignmentTarget>)
        requires
            target.well_formed(),
        ensures
            target.lowers_to(*out),
        decreases target,
    {
        let properties = self.lower_assignment_target_properties(&target.properties);
        let rest = match &target.rest {
            Some(x) => Some(self.lower_assignment_target(x)),
            None => None,
        };
        Box::new(hir::ObjectAssignmentTarget { span: target.span, properties, rest })
    }

    /// Lowers an assignment target maybe default.
    pub fn lower_assignment_target_maybe_default(
        &self,
        target: &ast::AssignmentTargetMaybeDefault,
    ) -> (out: hir::AssignmentTargetMaybeDefault)
        requires
            target.well_formed(),
        ensures
            target.lowers_to(out),
        decreases target,
    {
        match target {
            ast::AssignmentTargetMaybeDefault::AssignmentTarget(x) => {
                hir::AssignmentTargetMaybeDefault::AssignmentTarget(self.lower_assignment_target(x))
            },
            ast::AssignmentTargetMaybeDefault::AssignmentTargetWithDefault(x) => {
                hir::AssignmentTargetMaybeDefault::AssignmentTargetWithDefault(
                    self.lower_assignment_target_with_default(x),
                )
            },
        }
    }

    /// Lowers an assignment target with default.
    pub fn lower_assignment_target_with_default(
        &self,
        target: &ast::AssignmentTargetWithDefault,
    ) -> (out: Box<hir::AssignmentTargetWithDefault>)
        requires
            target.well_formed(),
        ensures
            target.lowers_to(*out),
        decreases target,
    {
        let binding = self.lower_assignment_target(&target.binding);
        let init = self.lower_expression(&target.init);
        Box::new(hir::AssignmentTargetWithDefault { span: target.span, binding, init })
    }

    /// Lowers an assignment target property.
    pub fn lower_assignment_target_property(
        &self,
        property: &ast::AssignmentTargetProperty,
    ) -> (out: hir::AssignmentTargetProperty)
        requires
            property.well_formed(),
        ensures
            property.lowers_to(out),
        decreases property,
    {
        match property {
            ast::AssignmentTargetProperty::AssignmentTargetPropertyIdentifier(x) => {
                hir::AssignmentTargetProperty::AssignmentTargetPropertyIdentifier(
                    self.lower_assignment_target_property_identifier(x),
                )
            },
            ast::AssignmentTargetProperty::AssignmentTargetPropertyProperty(x) => {
                hir::AssignmentTargetProperty::AssignmentTargetPropertyProperty(
                    self.lower_assignment_target_property_property(x),
                )
            },
        }
    }

    /// Lowers a list of assignment target propertys, first to last.
    pub fn lower_assignment_target_properties(
        &self,
        items: &Vec<ast::AssignmentTargetProperty>,
    ) -> (out: Vec<hir::AssignmentTargetProperty>)
        requires
            forall|i: int| 0 <= i < items@.len() ==> (#[trigger] items@[i]).well_formed(),
        ensures
            assignment_target_properties_lower_to(items@, out@),
        decreases items,
    {
        let mut vec: Vec<hir::AssignmentTargetProperty> = Vec::with_capacity(items.len());
        let mut i: usize = 0;
        while i < items.len()
            invariant
                i <= items.len(),
                vec@.len() == i,
                forall|j: int| 0 <= j < items@.len() ==> (#[trigger] items@[j]).well_formed(),
                forall|j: int| 0 <= j < i ==> (#[trigger] items@[j]).lowers_to(vec@[j]),
            decreases items.len() - i,
        {
            let item = self.lower_assignment_target_property(&items[i]);
            vec.push(item);
            i += 1;
        }
        vec
    }

    /// Lowers an assignment target property identifier.
    pub fn lower_assignment_target_property_identifier(
        &self,
        ident: &ast::AssignmentTargetPropertyIdentifier,
    ) -> (out: Box<hir::AssignmentTargetPropertyIdentifier>)
        requires
            ident.well_formed(),
        ensures
            ident.lowers_to(*out),
        decreases ident,
    {
        let binding = self.lower_identifier_reference(&ident.binding);
        let init = match &ident.init {
            Some(x) => Some(self.lower_expression(x)),
            None => None,
        };
        Box::new(hir::AssignmentTargetPropertyIdentifier { span: ident.span, binding, init })
    }

    /// Lowers an assignment target property property.
    pub fn lower_assignment_target_property_property(
        &self,
        property: &ast::AssignmentTargetPropertyProperty,
    ) -> (out: Box<hir::AssignmentTargetPropertyProperty>)
        requires
            property.well_formed(),
        ensures
            property.lowers_to(*out),
        decreases property,
    {
        let name = self.lower_property_key(&property.name);
        let binding = self.lower_assignment_target_maybe_default(&property.binding);
        Box::new(hir::AssignmentTargetPropertyProperty { span: property.span, name, binding })
    }
}

} // verus!
