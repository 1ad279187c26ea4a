//! Lowering of expressions.

use vstd::prelude::*;
use crate::ast;
use crate::hir;
use crate::lower::AstLower;
use crate::source::{atom_chars, atom_from_str};
use crate::relation::expression::{
    arguments_lower_to, array_expression_elements_lower_to, expressions_lower_to,
    object_properties_lower_to,
};

verus! {

impl AstLower {
    /// Lowers an expression. A wrapper that only carries a type, and a pair of
    /// parentheses, give what the expression inside gives. Markup, which is not
    /// lowered, gives a reference to an identifier named `void` at the same
    /// position.
    pub fn lower_expression(&self, expr: &ast::Expression) -> (out: hir::Expression)
        requires
            expr.well_formed(),
        ensures
            expr.lowers_to(out),
            expr.without_wrappers().lowers_to(out),
            out.span() == expr.without_wrappers().span(),
            (expr is JSXElement || expr is JSXFragment) ==> {
                &&& out matches hir::Expression::Identifier(ident)
                &&& atom_chars(ident.name) == "void"@
                &&& ident.span == expr.span()
            },
        decreases expr,
    {
        match expr {
            ast::Expression::BigintLiteral(lit) => {
                let lit = self.lower_bigint_literal(lit);
                hir::Expression::BigintLiteral(Box::new(lit))
            },
            ast::Expression::BooleanLiteral(lit) => {
                let lit = self.lower_boolean_literal(lit);
                hir::Expression::BooleanLiteral(Box::new(lit))
            },
            ast::Expression::NullLiteral(lit) => {
                let lit = self.lower_null_literal(lit);
                hir::Expression::NullLiteral(Box::new(lit))
            },
            ast::Expression::NumberLiteral(lit) => {
                let lit = self.lower_number_literal(lit);
                hir::Expression::NumberLiteral(Box::new(lit))
            },
            ast::Expression::RegExpLiteral(lit) => {
                let lit = self.lower_reg_expr_literal(lit);
                hir::Expression::RegExpLiteral(Box::new(lit))
            },
            ast::Expression::StringLiteral(lit) => {
                let lit = self.lower_string_literal(lit);
                hir::Expression::StringLiteral(Box::new(lit))
            },
            ast::Expression::TemplateLiteral(lit) => {
                let lit = self.lower_template_literal(lit);
                hir::Expression::TemplateLiteral(Box::new(lit))
            },
            ast::Expression::Identifier(ident) => {
                let ident = self.lower_identifier_reference(ident);
                hir::Expression::Identifier(Box::new(ident))
            },
            ast::Expression::MetaProperty(expr) => self.lower_meta_property(expr),
            ast::Expression::ArrayExpression(expr) => self.lower_array_expression(expr),
            ast::Expression::ArrowFunctionExpression(expr) => self.lower_arrow_expression(expr),
            ast::Expression::AssignmentExpression(expr) => self.lower_assignment_expression(expr),
            ast::Expression::AwaitExpression(expr) => self.lower_await_expression(expr),
            ast::Expression::BinaryExpression(expr) => self.lower_binary_expression(expr),
            ast::Expression::CallExpression(expr) => self.lower_call_expression(expr),
            ast::Expression::ChainExpression(expr) => self.lower_chain_expression(expr),
            ast::Expression::ClassExpression(expr) => self.lower_class_expression(expr),
            ast::Expression::ConditionalExpression(expr) => self.lower_conditional_expression(expr),
            ast::Expression::FunctionExpression(expr) => self.lower_function_expression(expr),
            ast::Expression::ImportExpression(expr) => self.lower_import_expression(expr),
            ast::Expression::LogicalExpression(expr) => self.lower_logical_expression(expr),
            ast::Expression::MemberExpression(expr) => self.lower_member_expression(expr),
            ast::Expression::NewExpression(expr) => self.lower_new_expression(expr),
            ast::Expression::ObjectExpression(expr) => self.lower_object_expression(expr),
            ast::Expression::PrivateInExpression(expr) => self.lower_private_in_expression(expr),
            ast::Expression::SequenceExpression(expr) => self.lower_sequence_expression(expr),
            ast::Expression::TaggedTemplateExpression(expr) => {
                self.lower_tagged_template_expression(expr)
            },
            ast::Expression::ThisExpression(expr) => self.lower_this_expression(expr),
            ast::Expression::UnaryExpression(expr) => self.lower_unary_expression(expr),
            ast::Expression::UpdateExpression(expr) => self.lower_update_expression(expr),
            ast::Expression::YieldExpression(expr) => self.lower_yield_expression(expr),
            ast::Expression::Super(expr) => self.lower_super(expr),
            ast::Expression::JSXElement(elem) => {
                let ident = hir::IdentifierReference {
                    span: elem.span,
                    name: atom_from_str("void"),
                };
                hir::Expression::Identifier(Box::new(ident))
            },
            ast::Expression::JSXFragment(elem) => {
                let ident = hir::IdentifierReference {
                    span: elem.span,
                    name: atom_from_str("void"),
                };
                hir::Expression::Identifier(Box::new(ident))
            },
            ast::Expression::ParenthesizedExpression(expr) => {
                self.lower_expression(&expr.expression)
            },
            ast::Expression::TSAsExpression(expr) => self.lower_expression(&expr.expression),
            ast::Expression::TSSatisfiesExpression(expr) => self.lower_expression(&expr.expression),
            ast::Expression::TSNonNullExpression(expr) => self.lower_expression(&expr.expression),
            ast::Expression::TSTypeAssertion(expr) => self.lower_expression(&expr.expression),
            ast::Expression::TSInstantiationExpression(expr) => {
                self.lower_expression(&expr.expression)
            },
        }
    }

    /// Lowers a list of expressions, first to last.
    pub fn lower_expressions(
        &self,
        items: &Vec<ast::Expression>,
    ) -> (out: Vec<hir::Expression>)
        requires
            forall|i: int| 0 <= i < items@.len() ==> (#[trigger] items@[i]).well_formed(),
        ensures
            expressions_lower_to(items@, out@),
        decreases items,
    {
        let mut vec: Vec<hir::Expression> = Vec::with_capacity(items.len());
        let mut i: usize = 0;
        while i < items.len()
            invariant
                i <= items.len(),
                vec@.len() == i,
                forall|j: int| 0 <= j < items@.len() ==> (#[trigger] items@[j]).well_formed(),
                forall|j: int| 0 <= j < i ==> (#[trigger] items@[j]).lowers_to(vec@[j]),
            decreases items.len() - i,
        {
            let item = self.lower_expression(&items[i]);
            vec.push(item);
            i += 1;
        }
        vec
    }

    /// Lowers a meta property.
    pub fn lower_meta_property(&self, expr: &ast::MetaProperty) -> (out: hir::Expression)
        ensures
            out matches hir::Expression::MetaProperty(h) && expr.lowers_to(*h),
    {
        let meta = self.lower_identifier_name(&expr.meta);
        let property = self.lower_identifier_name(&expr.property);
        hir::Expression::MetaProperty(Box::new(hir::MetaProperty {
            span: expr.span,
            meta,
            property,
        }))
    }

    /// Lowers an array expression.
    pub fn lower_array_expression(
        &self,
        expr: &ast::ArrayExpression,
    ) -> (out: hir::Expression)
        requires
            expr.well_formed(),
        ensures
            out matches hir::Expression::ArrayExpression(h) && expr.lowers_to(*h),
        decreases expr,
    {
        let elements = self.lower_array_expression_elements(&expr.elements);
        hir::Expression::ArrayExpression(Box::new(hir::ArrayExpression {
            span: expr.span,
            elements,
            trailing_comma: expr.trailing_comma,
        }))
    }

    /// Lowers an array expression element.
    pub fn lower_array_expression_element(
        &self,
        elem: &ast::ArrayExpressionElement,
    ) -> (out: hir::ArrayExpressionElement)
        requires
            elem.well_formed(),
        ensures
            elem.lowers_to(out),
        decreases elem,
    {
        match elem {
            ast::ArrayExpressionElement::SpreadElement(x) => {
                hir::ArrayExpressionElement::SpreadElement(self.lower_spread_element(x))
            },
            ast::ArrayExpressionElement::Expression(x) => {
                hir::ArrayExpressionElement::Expression(self.lower_expression(x))
            },
            ast::ArrayExpressionElement::Elision(x) => hir::ArrayExpressionElement::Elision(*x),
        }
    }

    /// Lowers a list of array expression elements, first to last.
    pub fn lower_array_expression_elements(
        &self,
        items: &Vec<ast::ArrayExpressionElement>,
    ) -> (out: Vec<hir::ArrayExpressionElement>)
        requires
            forall|i: int| 0 <= i < items@.len() ==> (#[trigger] items@[i]).well_formed(),
        ensures
            array_expression_elements_lower_to(items@, out@),
        decreases items,
    {
        let mut vec: Vec<hir::ArrayExpressionElement> = Vec::with_capacity(items.len());
        let mut i: usize = 0;
        while i < items.len()
            invariant
                i <= items.len(),
                vec@.len() == i,
                forall|j: int| 0 <= j < items@.len() ==> (#[trigger] items@[j]).well_formed(),
                forall|j: int| 0 <= j < i ==> (#[trigger] items@[j]).lowers_to(vec@[j]),
            decreases items.len() - i,
        {
            let item = self.lower_array_expression_element(&items[i]);
            vec.push(item);
            i += 1;
        }
        vec
    }

    /// Lowers an argument.
    pub fn lower_argument(&self, arg: &ast::Argument) -> (out: hir::Argument)
        requires
            arg.well_formed(),
        ensures
            arg.lowers_to(out),
        decreases arg,
    {
        match arg {
            ast::Argument::SpreadElement(x) => {
                hir::Argument::SpreadElement(self.lower_spread_element(x))
            },
            ast::Argument::Expression(x) => hir::Argument::Expression(self.lower_expression(x)),
        }
    }

    /// Lowers a list of arguments, first to last.
    pub fn lower_arguments(&self, items: &Vec<ast::Argument>) -> (out: Vec<hir::Argument>)
        requires
            forall|i: int| 0 <= i < items@.len() ==> (#[trigger] items@[i]).well_formed(),
        ensures
            arguments_lower_to(items@, out@),
        decreases items,
    {
        let mut vec: Vec<hir::Argument> = Vec::with_capacity(items.len());
        let mut i: usize = 0;
        while i < items.len()
            invariant
                i <= items.len(),
                vec@.len() == i,
                forall|j: int| 0 <= j < items@.len() ==> (#[trigger] items@[j]).well_formed(),
                forall|j: int| 0 <= j < i ==> (#[trigger] items@[j]).lowers_to(vec@[j]),
            decreases items.len() - i,
        {
            let item = self.lower_argument(&items[i]);
            vec.push(item);
            i += 1;
        }
        vec
    }

    /// Lowers a spread element.
    pub fn lower_spread_element(
        &self,
        elem: &ast::SpreadElement,
    ) -> (out: Box<hir::SpreadElement>)
        requires
            elem.well_formed(),
        ensures
            elem.lowers_to(*out),
        decreases elem,
    {
        let argument = self.lower_expression(&elem.argument);
        Box::new(hir::SpreadElement { span: elem.span, argument })
    }

    /// Lowers an assignment expression.
    pub fn lower_assignment_expression(
        &self,
        expr: &ast::AssignmentExpression,
    ) -> (out: hir::Expression)
        requires
            expr.well_formed(),
        ensures
            out matches hir::Expression::AssignmentExpression(h) && expr.lowers_to(*h),
            out matches hir::Expression::AssignmentExpression(h) ==> h.operator.symbol()
                == expr.operator.symbol(),
        decreases expr,
    {
        let operator = match expr.operator {
            ast::AssignmentOperator::Assign => hir::AssignmentOperator::Assign,
            ast::AssignmentOperator::Addition => hir::AssignmentOperator::Addition,
            ast::AssignmentOperator::Subtraction => hir::AssignmentOperator::Subtraction,
            ast::AssignmentOperator::Multiplication => hir::AssignmentOperator::Multiplication,
            ast::AssignmentOperator::Division => hir::AssignmentOperator::Division,
            ast::AssignmentOperator::Remainder => hir::AssignmentOperator::Remainder,
            ast::AssignmentOperator::ShiftLeft => hir::AssignmentOperator::ShiftLeft,
            ast::AssignmentOperator::ShiftRight => hir::AssignmentOperator::ShiftRight,
            ast::AssignmentOperator::ShiftRightZeroFill => {
                hir::AssignmentOperator::ShiftRightZeroFill
            },
            ast::AssignmentOperator::BitwiseOR => hir::AssignmentOperator::BitwiseOR,
            ast::AssignmentOperator::BitwiseXOR => hir::AssignmentOperator::BitwiseXOR,
            ast::AssignmentOperator::BitwiseAnd => hir::AssignmentOperator::BitwiseAnd,
            ast::AssignmentOperator::LogicalAnd => hir::AssignmentOperator::LogicalAnd,
            ast::AssignmentOperator::LogicalOr => hir::AssignmentOperator::LogicalOr,
            ast::AssignmentOperator::LogicalNullish => hir::AssignmentOperator::LogicalNullish,
            ast::AssignmentOperator::Exponential => hir::AssignmentOperator::Exponential,
        };
        let left = self.lower_assignment_target(&expr.left);
        let right = self.lower_expression(&expr.right);
        hir::Expression::AssignmentExpression(Box::new(hir::AssignmentExpression {
            span: expr.span,
            operator,
            left,
            right,
        }))
    }

    /// Lowers an arrow function.
    pub fn lower_arrow_expression(
        &self,
        expr: &ast::ArrowExpression,
    ) -> (out: hir::Expression)
        requires
            expr.well_formed(),
        ensures
            out matches hir::Expression::ArrowFunctionExpression(h) && expr.lowers_to(*h),
        decreases expr,
    {
        let params = self.lower_formal_parameters(&expr.params);
        let body = self.lower_function_body(&expr.body);
        hir::Expression::ArrowFunctionExpression(Box::new(hir::ArrowExpression {
            span: expr.span,
            expression: expr.expression,
            generator: expr.generator,
            is_async: expr.is_async,
            params,
            body,
        }))
    }

    /// Lowers an `await` expression.
    pub fn lower_await_expression(
        &self,
        expr: &ast::AwaitExpression,
    ) -> (out: hir::Expression)
        requires
            expr.well_formed(),
        ensures
            out matches hir::Expression::AwaitExpression(h) && expr.lowers_to(*h),
        decreases expr,
    {
        let argument = self.lower_expression(&expr.argument);
        hir::Expression::AwaitExpression(Box::new(hir::AwaitExpression {
            span: expr.span,
            argument,
        }))
    }

    /// Lowers a binary expression.
    pub fn lower_binary_expression(
        &self,
        expr: &ast::BinaryExpression,
    ) -> (out: hir::Expression)
        requires
            expr.well_formed(),
        ensures
            out matches hir::Expression::BinaryExpression(h) && expr.lowers_to(*h),
            out matches hir::Expression::BinaryExpression(h) ==> h.operator.symbol()
                == expr.operator.symbol(),
        decreases expr,
    {
        let left = self.lower_expression(&expr.left);
        let operator = match expr.operator {
            ast::BinaryOperator::Equality => hir::BinaryOperator::Equality,
            ast::BinaryOperator::Inequality => hir::BinaryOperator::Inequality,
            ast::BinaryOperator::StrictEquality => hir::BinaryOperator::StrictEquality,
            ast::BinaryOperator::StrictInequality => hir::BinaryOperator::StrictInequality,
            ast::BinaryOperator::LessThan => hir::BinaryOperator::LessThan,
            ast::BinaryOperator::LessEqualThan => hir::BinaryOperator::LessEqualThan,
            ast::BinaryOperator::GreaterThan => hir::BinaryOperator::GreaterThan,
            ast::BinaryOperator::GreaterEqualThan => hir::BinaryOperator::GreaterEqualThan,
            ast::BinaryOperator::ShiftLeft => hir::BinaryOperator::ShiftLeft,
            ast::BinaryOperator::ShiftRight => hir::BinaryOperator::ShiftRight,
            ast::BinaryOperator::ShiftRightZeroFill => hir::BinaryOperator::ShiftRightZeroFill,
            ast::BinaryOperator::Addition => hir::BinaryOperator::Addition,
            ast::BinaryOperator::Subtraction => hir::BinaryOperator::Subtraction,
            ast::BinaryOperator::Multiplication => hir::BinaryOperator::Multiplication,
            ast::BinaryOperator::Division => hir::BinaryOperator::Division,
            ast::BinaryOperator::Remainder => hir::BinaryOperator::Remainder,
            ast::BinaryOperator::BitwiseOR => hir::BinaryOperator::BitwiseOR,
            ast::BinaryOperator::BitwiseXOR => hir::BinaryOperator::BitwiseXOR,
            ast::BinaryOperator::BitwiseAnd => hir::BinaryOperator::BitwiseAnd,
            ast::BinaryOperator::In => hir::BinaryOperator::In,
            ast::BinaryOperator::Instanceof => hir::BinaryOperator::Instanceof,
            ast::BinaryOperator::Exponential => hir::BinaryOperator::Exponential,
        };
        let right = self.lower_expression(&expr.right);
        hir::Expression::BinaryExpression(Box::new(hir::BinaryExpression {
            span: expr.span,
            left,
            operator,
            right,
        }))
    }

    /// Lowers a call expression.
    pub fn lower_call_expression(&self, expr: &ast::CallExpression) -> (out: hir::Expression)
        requires
            expr.well_formed(),
        ensures
            out matches hir::Expression::CallExpression(h) && expr.lowers_to(*h),
        decreases expr,
    {
        let callee = self.lower_expression(&expr.callee);
        let arguments = self.lower_arguments(&expr.arguments);
        hir::Expression::CallExpression(Box::new(hir::CallExpression {
            span: expr.span,
            callee,
            arguments,
            optional: expr.optional,
        }))
    }

    /// Lowers an optional chain. The chained call or member access is lowered
    /// once, as an expression, and the chain takes over the node that came out.
    pub fn lower_chain_expression(
        &self,
        expr: &ast::ChainExpression,
    ) -> (out: hir::Expression)
        requires
            expr.well_formed(),
        ensures
            out matches hir::Expression::ChainExpression(h) && expr.lowers_to(*h),
        decreases expr,
    {
        let expression = match &expr.expression {
            ast::ChainElement::CallExpression(call_expr) => {
                match self.lower_call_expression(call_expr) {
                    hir::Expression::CallExpression(call_expr) => {
                        hir::ChainElement::CallExpression(call_expr)
                    },
                    _ => unreached(),
                }
            },
            ast::ChainElement::MemberExpression(member_expr) => {
                match self.lower_member_expression(member_expr) {
                    hir::Expression::MemberExpression(member_expr) => {
                        hir::ChainElement::MemberExpression(member_expr)
                    },
                    _ => unreached(),
                }
            },
        };
        hir::Expression::ChainExpression(
            Box::new(hir::ChainExpression { span: expr.span, expression }),
        )
    }

    /// Lowers a conditional expression.
    pub fn lower_conditional_expression(
        &self,
        expr: &ast::ConditionalExpression,
    ) -> (out: hir::Expression)
        requires
            expr.well_formed(),
        ensures
            out matches hir::Expression::ConditionalExpression(h) && expr.lowers_to(*h),
        decreases expr,
    {
        let test = self.lower_expression(&expr.test);
        let consequent = self.lower_expression(&expr.consequent);
        let alternate = self.lower_expression(&expr.alternate);
        hir::Expression::ConditionalExpression(Box::new(hir::ConditionalExpression {
            span: expr.span,
            test,
            consequent,
            alternate,
        }))
    }

    /// Lowers an `import` expression.
    pub fn lower_import_expression(
        &self,
        expr: &ast::ImportExpression,
    ) -> (out: hir::Expression)
        requires
            expr.well_formed(),
        ensures
            out matches hir::Expression::ImportExpression(h) && expr.lowers_to(*h),
        decreases expr,
    {
        let source = self.lower_expression(&expr.source);
        let arguments = self.lower_expressions(&expr.arguments);
        hir::Expression::ImportExpression(Box::new(hir::ImportExpression {
            span: expr.span,
            source,
            arguments,
        }))
    }

    /// Lowers a logical expression.
    pub fn lower_logical_expression(
        &self,
        expr: &ast::LogicalExpression,
    ) -> (out: hir::Expression)
        requires
            expr.well_formed(),
        ensures
            out matches hir::Expression::LogicalExpression(h) && expr.lowers_to(*h),
            out matches hir::Expression::LogicalExpression(h) ==> h.operator.symbol()
                == expr.operator.symbol(),
        decreases expr,
    {
        let left = self.lower_expression(&expr.left);
        let operator = match expr.operator {
            ast::LogicalOperator::Or => hir::LogicalOperator::Or,
            ast::LogicalOperator::And => hir::LogicalOperator::And,
            ast::LogicalOperator::Coalesce => hir::LogicalOperator::Coalesce,
        };
        let right = self.lower_expression(&expr.right);
        hir::Expression::LogicalExpression(Box::new(hir::LogicalExpression {
            span: expr.span,
            left,
            operator,
            right,
        }))
    }

    /// Lowers a member expression.
    pub fn lower_member_expr(
        &self,
        expr: &ast::MemberExpression,
    ) -> (out: hir::MemberExpression)
        requires
            expr.well_formed(),
        ensures
            expr.lowers_to(out),
            out.span() == expr.span(),
        decreases expr, 0int,
    {
        match expr {
            ast::MemberExpression::ComputedMemberExpression(x) => {
                self.lower_computed_member_expression(x)
            },
            ast::MemberExpression::StaticMemberExpression(x) => {
                self.lower_static_member_expression(x)
            },
            ast::MemberExpression::PrivateFieldExpression(x) => {
                self.lower_private_field_expression(x)
            },
        }
    }

    /// Lowers a member access in expression position.
    pub fn lower_member_expression(
        &self,
        expr: &ast::MemberExpression,
    ) -> (out: hir::Expression)
        requires
            expr.well_formed(),
        ensures
            out matches hir::Expression::MemberExpression(h) && expr.lowers_to(*h),
        decreases expr, 1int,
    {
        let member_expr = self.lower_member_expr(expr);
        hir::Expression::MemberExpression(Box::new(member_expr))
    }

    /// Lowers a computed member expression.
    pub fn lower_computed_member_expression(
        &self,
        expr: &ast::ComputedMemberExpression,
    ) -> (out: hir::MemberExpression)
        requires
            expr.well_formed(),
        ensures
            out matches hir::MemberExpression::ComputedMemberExpression(h) && expr.lowers_to(h),
        decreases expr,
    {
        let object = self.lower_expression(&expr.object);
        let expression = self.lower_expression(&expr.expression);
        hir::MemberExpression::ComputedMemberExpression(hir::ComputedMemberExpression {
            span: expr.span,
            object,
            expression,
            optional: expr.optional,
        })
    }

    /// Lowers a static member expression.
    pub fn lower_static_member_expression(
        &self,
        expr: &ast::StaticMemberExpression,
    ) -> (out: hir::MemberExpression)
        requires
            expr.well_formed(),
        ensures
            out matches hir::MemberExpression::StaticMemberExpression(h) && expr.lowers_to(h),
        decreases expr,
    {
        let object = self.lower_expression(&expr.object);
        let property = self.lower_identifier_name(&expr.property);
        hir::MemberExpression::StaticMemberExpression(hir::StaticMemberExpression {
            span: expr.span,
            object,
            property,
            optional: expr.optional,
        })
    }

    /// Lowers a private field expression.
    pub fn lower_private_field_expression(
        &self,
        expr: &ast::PrivateFieldExpression,
    ) -> (out: hir::MemberExpression)
        requires
            expr.well_formed(),
        ensures
            out matches hir::MemberExpression::PrivateFieldExpression(h) && expr.lowers_to(h),
        decreases expr,
    {
        let object = self.lower_expression(&expr.object);
        let field = self.lower_private_identifier(&expr.field);
        hir::MemberExpression::PrivateFieldExpression(hir::PrivateFieldExpression {
            span: expr.span,
            object,
            field,
            optional: expr.optional,
        })
    }

    /// Lowers a `new` expression.
    pub fn lower_new_expression(&self, expr: &ast::NewExpression) -> (out: hir::Expression)
        requires
            expr.well_formed(),
        ensures
            out matches hir::Expression::NewExpression(h) && expr.lowers_to(*h),
        decreases expr,
    {
        let callee = self.lower_expression(&expr.callee);
        let arguments = self.lower_arguments(&expr.arguments);
        hir::Expression::NewExpression(Box::new(hir::NewExpression {
            span: expr.span,
            callee,
            arguments,
        }))
    }

    /// Lowers an object expression.
    pub fn lower_object_expression(
        &self,
        expr: &ast::ObjectExpression,
    ) -> (out: hir::Expression)
        requires
            expr.well_formed(),
        ensures
            out matches hir::Expression::ObjectExpression(h) && expr.lowers_to(*h),
        decreases expr,
    {
        let properties = self.lower_object_properties(&expr.properties);
        hir::Expression::ObjectExpression(Box::new(hir::ObjectExpression {
            span: expr.span,
            properties,
            trailing_comma: expr.trailing_comma,
        }))
    }

    /// Lowers an object property.
    pub fn lower_object_property(
        &self,
        prop: &ast::ObjectProperty,
    ) -> (out: hir::ObjectProperty)
        requires
            prop.well_formed(),
        ensures
            prop.lowers_to(out),
        decreases prop,
    {
        match prop {
            ast::ObjectProperty::Property(x) => {
                hir::ObjectProperty::Property(self.lower_property(x))
            },
            ast::ObjectProperty::SpreadProperty(x) => {
                hir::ObjectProperty::SpreadProperty(self.lower_spread_element(x))
            },
        }
    }

    /// Lowers a list of object propertys, first to last.
    pub fn lower_object_properties(
        &self,
        items: &Vec<ast::ObjectProperty>,
    ) -> (out: Vec<hir::ObjectProperty>)
        requires
            forall|i: int| 0 <= i < items@.len() ==> (#[trigger] items@[i]).well_formed(),
        ensures
            object_properties_lower_to(items@, out@),
        decreases items,
    {
        let mut vec: Vec<hir::ObjectProperty> = Vec::with_capacity(items.len());
        let mut i: usize = 0;
        while i < items.len()
            invariant
                i <= items.len(),
                vec@.len() == i,
                forall|j: int| 0 <= j < items@.len() ==> (#[trigger] items@[j]).well_formed(),
                forall|j: int| 0 <= j < i ==> (#[trigger] items@[j]).lowers_to(vec@[j]),
            decreases items.len() - i,
        {
            let item = self.lower_object_property(&items[i]);
            vec.push(item);
            i += 1;
        }
        vec
    }

    /// Lowers a property.
    pub fn lower_property(&self, prop: &ast::Property) -> (out: Box<hir::Property>)
        requires
            prop.well_formed(),
        ensures
            prop.lowers_to(*out),
        decreases prop,
    {
        let kind = match prop.kind {
            ast::PropertyKind::Init => hir::PropertyKind::Init,
            ast::PropertyKind::Getter => hir::PropertyKind::Getter,
            ast::PropertyKind::Setter => hir::PropertyKind::Setter,
        };
        let key = self.lower_property_key(&prop.key);
        let value = self.lower_property_value(&prop.value);
        Box::new(hir::Property {
            span: prop.span,
            kind,
            key,
            value,
            method: prop.method,
            shorthand: prop.shorthand,
            computed: prop.computed,
        })
    }

    /// Lowers a property key.
    pub fn lower_property_key(&self, key: &ast::PropertyKey) -> (out: hir::PropertyKey)
        requires
            key.well_formed(),
        ensures
            key.lowers_to(out),
        decreases key,
    {
        match key {
            ast::PropertyKey::Identifier(x) => {
                hir::PropertyKey::Identifier(Box::new(self.lower_identifier_name(x)))
            },
            ast::PropertyKey::PrivateIdentifier(x) => {
                hir::PropertyKey::PrivateIdentifier(Box::new(self.lower_private_identifier(x)))
            },
            ast::PropertyKey::Expression(x) => {
                hir::PropertyKey::Expression(self.lower_expression(x))
            },
        }
    }

    /// Lowers a property value.
    pub fn lower_property_value(
        &self,
        value: &ast::PropertyValue,
    ) -> (out: hir::PropertyValue)
        requires
            value.well_formed(),
        ensures
            value.lowers_to(out),
        decreases value,
    {
        match value {
            ast::PropertyValue::Pattern(x) => {
                hir::PropertyValue::Pattern(self.lower_binding_pattern(x))
            },
            ast::PropertyValue::Expression(x) => {
                hir::PropertyValue::Expression(self.lower_expression(x))
            },
        }
    }

    /// Lowers a private `in` expression.
    pub fn lower_private_in_expression(
        &self,
        expr: &ast::PrivateInExpression,
    ) -> (out: hir::Expression)
        requires
            expr.well_formed(),
        ensures
            out matches hir::Expression::PrivateInExpression(h) && expr.lowers_to(*h),
        decreases expr,
    {
        let left = self.lower_private_identifier(&expr.left);
        let right = self.lower_expression(&expr.right);
        hir::Expression::PrivateInExpression(Box::new(hir::PrivateInExpression {
            span: expr.span,
            left,
            right,
        }))
    }

    /// Lowers a sequence expression.
    pub fn lower_sequence_expression(
        &self,
        expr: &ast::SequenceExpression,
    ) -> (out: hir::Expression)
        requires
            expr.well_formed(),
        ensures
            out matches hir::Expression::SequenceExpression(h) && expr.lowers_to(*h),
        decreases expr,
    {
        let expressions = self.lower_expressions(&expr.expressions);
        hir::Expression::SequenceExpression(Box::new(hir::SequenceExpression {
            span: expr.span,
            expressions,
        }))
    }

    /// Lowers a tagged template expression.
    pub fn lower_tagged_template_expression(
        &self,
        expr: &ast::TaggedTemplateExpression,
    ) -> (out: hir::Expression)
        requires
            expr.well_formed(),
        ensures
            out matches hir::Expression::TaggedTemplateExpression(h) && expr.lowers_to(*h),
        decreases expr,
    {
        let tag = self.lower_expression(&expr.tag);
        let quasi = self.lower_template_literal(&expr.quasi);
        hir::Expression::TaggedTemplateExpression(Box::new(hir::TaggedTemplateExpression {
            span: expr.span,
            tag,
            quasi,
        }))
    }

    /// Lowers a `this` expression.
    pub fn lower_this_expression(&self, expr: &ast::ThisExpression) -> (out: hir::Expression)
        ensures
            out matches hir::Expression::ThisExpression(h) && expr.lowers_to(*h),
    {
        hir::Expression::ThisExpression(Box::new(hir::ThisExpression { span: expr.span }))
    }

    /// Lowers an unary expression.
    pub fn lower_unary_expression(
        &self,
        expr: &ast::UnaryExpression,
    ) -> (out: hir::Expression)
        requires
            expr.well_formed(),
        ensures
            out matches hir::Expression::UnaryExpression(h) && expr.lowers_to(*h),
            out matches hir::Expression::UnaryExpression(h) ==> h.operator.symbol()
                == expr.operator.symbol(),
        decreases expr,
    {
        let operator = match expr.operator {
            ast::UnaryOperator::UnaryNegation => hir::UnaryOperator::UnaryNegation,
            ast::UnaryOperator::UnaryPlus => hir::UnaryOperator::UnaryPlus,
            ast::UnaryOperator::LogicalNot => hir::UnaryOperator::LogicalNot,
            ast::UnaryOperator::BitwiseNot => hir::UnaryOperator::BitwiseNot,
            ast::UnaryOperator::Typeof => hir::UnaryOperator::Typeof,
            ast::UnaryOperator::Void => hir::UnaryOperator::Void,
            ast::UnaryOperator::Delete => hir::UnaryOperator::Delete,
        };
        let argument = self.lower_expression(&expr.argument);
        hir::Expression::UnaryExpression(Box::new(hir::UnaryExpression {
            span: expr.span,
            operator,
            prefix: expr.prefix,
            argument,
        }))
    }

    /// Lowers an update expression.
    pub fn lower_update_expression(
        &self,
        expr: &ast::UpdateExpression,
    ) -> (out: hir::Expression)
        requires
            expr.well_formed(),
        ensures
            out matches hir::Expression::UpdateExpression(h) && expr.lowers_to(*h),
            out matches hir::Expression::UpdateExpression(h) ==> h.operator.symbol()
                == expr.operator.symbol(),
        decreases expr,
    {
        let operator = match expr.operator {
            ast::UpdateOperator::Increment => hir::UpdateOperator::Increment,
            ast::UpdateOperator::Decrement => hir::UpdateOperator::Decrement,
        };
        let argument = self.lower_simple_assignment_target(&expr.argument);
        hir::Expression::UpdateExpression(Box::new(hir::UpdateExpression {
            span: expr.span,
            operator,
            prefix: expr.prefix,
            argument,
        }))
    }

    /// Lowers a `yield` expression.
    pub fn lower_yield_expression(
        &self,
        expr: &ast::YieldExpression,
    ) -> (out: hir::Expression)
        requires
            expr.well_formed(),
        ensures
            out matches hir::Expression::YieldExpression(h) && expr.lowers_to(*h),
        decreases expr,
    {
        let argument = match &expr.argument {
            Some(x) => Some(self.lower_expression(x)),
            None => None,
        };
        hir::Expression::YieldExpression(Box::new(hir::YieldExpression {
            span: expr.span,
            delegate: expr.delegate,
            argument,
        }))
    }

    /// Lowers a `super` expression.
    pub fn lower_super(&self, expr: &ast::Super) -> (out: hir::Expression)
        ensures
            out matches hir::Expression::Super(h) && expr.lowers_to(*h),
    {
        hir::Expression::Super(Box::new(hir::Super { span: expr.span }))
    }
}

} // verus!
