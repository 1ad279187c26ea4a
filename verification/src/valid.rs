//! Which trees can be lowered.
//!
//! A parser only ever wraps an identifier or a member access in a type
//! annotation when the wrapper stands on the left of an assignment. Lowering
//! relies on that: a tree is well formed when every such wrapper it holds has
//! one of these two shapes.

use vstd::prelude::*;
use crate::ast;

verus! {

impl ast::Expression {
    /// Holds for the two shapes a type annotation may wrap on the left of an
    /// assignment: an identifier and a member access.
    pub open spec fn is_simple_target(&self) -> bool {
        self is Identifier || self is MemberExpression
    }
}

impl ast::Program {
    /// Holds when every assignment target below this node has a shape that can be
    /// lowered.
    pub open spec fn well_formed(&self) -> bool {
        &&& forall|i: int| 0 <= i < self.body@.len() ==> (#[trigger] self.body@[i]).well_formed()
    }
}

impl ast::Statement {
    /// Holds when every assignment target below this node has a shape that can be
    /// lowered.
    pub open spec fn well_formed(&self) -> bool
        decreases self,
    {
        match self {
            ast::Statement::BlockStatement(x) => x.well_formed(),
            ast::Statement::BreakStatement(_) => true,
            ast::Statement::ContinueStatement(_) => true,
            ast::Statement::DebuggerStatement(_) => true,
            ast::Statement::DoWhileStatement(x) => x.well_formed(),
            ast::Statement::EmptyStatement(_) => true,
            ast::Statement::ExpressionStatement(x) => x.well_formed(),
            ast::Statement::ForInStatement(x) => x.well_formed(),
            ast::Statement::ForOfStatement(x) => x.well_formed(),
            ast::Statement::ForStatement(x) => x.well_formed(),
            ast::Statement::IfStatement(x) => x.well_formed(),
            ast::Statement::LabeledStatement(x) => x.well_formed(),
            ast::Statement::ReturnStatement(x) => x.well_formed(),
            ast::Statement::SwitchStatement(x) => x.well_formed(),
            ast::Statement::ThrowStatement(x) => x.well_formed(),
            ast::Statement::TryStatement(x) => x.well_formed(),
            ast::Statement::WhileStatement(x) => x.well_formed(),
            ast::Statement::WithStatement(x) => x.well_formed(),
            ast::Statement::ModuleDeclaration(x) => x.well_formed(),
            ast::Statement::Declaration(x) => x.well_formed(),
        }
    }
}

impl ast::BlockStatement {
    /// Holds when every assignment target below this node has a shape that can be
    /// lowered.
    pub open spec fn well_formed(&self) -> bool
        decreases self,
    {
        &&& forall|i: int| 0 <= i < self.body@.len() ==> (#[trigger] self.body@[i]).well_formed()
    }
}

impl ast::DoWhileStatement {
    /// Holds when every assignment target below this node has a shape that can be
    /// lowered.
    pub open spec fn well_formed(&self) -> bool
        decreases self,
    {
        &&& self.body.well_formed()
        &&& self.test.well_formed()
    }
}

impl ast::ExpressionStatement {
    /// Holds when every assignment target below this node has a shape that can be
    /// lowered.
    pub open spec fn well_formed(&self) -> bool
        decreases self,
    {
        &&& self.expression.well_formed()
    }
}

impl ast::ForStatement {
    /// Holds when every assignment target below this node has a shape that can be
    /// lowered.
    pub open spec fn well_formed(&self) -> bool
        decreases self,
    {
        &&& (self.init matches Some(x) ==> x.well_formed())
        &&& (self.test matches Some(x) ==> x.well_formed())
        &&& (self.update matches Some(x) ==> x.well_formed())
        &&& self.body.well_formed()
    }
}

impl ast::ForStatementInit {
    /// Holds when every assignment target below this node has a shape that can be
    /// lowered.
    pub open spec fn well_formed(&self) -> bool
        decreases self,
    {
        match self {
            ast::ForStatementInit::VariableDeclaration(x) => x.well_formed(),
            ast::ForStatementInit::Expression(x) => x.well_formed(),
        }
    }
}

impl ast::ForInStatement {
    /// Holds when every assignment target below this node has a shape that can be
    /// lowered.
    pub open spec fn well_formed(&self) -> bool
        decreases self,
    {
        &&& self.left.well_formed()
        &&& self.right.well_formed()
        &&& self.body.well_formed()
    }
}

impl ast::ForOfStatement {
    /// Holds when every assignment target below this node has a shape that can be
    /// lowered.
    pub open spec fn well_formed(&self) -> bool
        decreases self,
    {
        &&& self.left.well_formed()
        &&& self.right.well_formed()
        &&& self.body.well_formed()
    }
}

impl ast::ForStatementLeft {
    /// Holds when every assignment target below this node has a shape that can be
    /// lowered.
    pub open spec fn well_formed(&self) -> bool
        decreases self,
    {
        match self {
            ast::ForStatementLeft::VariableDeclaration(x) => x.well_formed(),
            ast::ForStatementLeft::AssignmentTarget(x) => x.well_formed(),
        }
    }
}

impl ast::IfStatement {
    /// Holds when every assignment target below this node has a shape that can be
    /// lowered.
    pub open spec fn well_formed(&self) -> bool
        decreases self,
    {
        &&& self.test.well_formed()
        &&& self.consequent.well_formed()
        &&& (self.alternate matches Some(x) ==> x.well_formed())
    }
}

impl ast::LabeledStatement {
    /// Holds when every assignment target below this node has a shape that can be
    /// lowered.
    pub open spec fn well_formed(&self) -> bool
        decreases self,
    {
        &&& self.body.well_formed()
    }
}

impl ast::ReturnStatement {
    /// Holds when every assignment target below this node has a shape that can be
    /// lowered.
    pub open spec fn well_formed(&self) -> bool
        decreases self,
    {
        &&& (self.argument matches Some(x) ==> x.well_formed())
    }
}

impl ast::SwitchStatement {
    /// Holds when every assignment target below this node has a shape that can be
    /// lowered.
    pub open spec fn well_formed(&self) -> bool
        decreases self,
    {
        &&& self.discriminant.well_formed()
        &&& forall|i: int| 0 <= i < self.cases@.len() ==> (#[trigger] self.cases@[i]).well_formed()
    }
}

impl ast::SwitchCase {
    /// Holds when every assignment target below this node has a shape that can be
    /// lowered.
    pub open spec fn well_formed(&self) -> bool
        decreases self,
    {
        &&& (self.test matches Some(x) ==> x.well_formed())
        &&& forall|i: int|
            0 <= i < self.consequent@.len() ==> (#[trigger] self.consequent@[i]).well_formed()
    }
}

impl ast::ThrowStatement {
    /// Holds when every assignment target below this node has a shape that can be
    /// lowered.
    pub open spec fn well_formed(&self) -> bool
        decreases self,
    {
        &&& self.argument.well_formed()
    }
}

impl ast::TryStatement {
    /// Holds when every assignment target below this node has a shape that can be
    /// lowered.
    pub open spec fn well_formed(&self) -> bool
        decreases self,
    {
        &&& self.block.well_formed()
        &&& (self.handler matches Some(x) ==> x.well_formed())
        &&& (self.finalizer matches Some(x) ==> x.well_formed())
    }
}

impl ast::CatchClause {
    /// Holds when every assignment target below this node has a shape that can be
    /// lowered.
    pub open spec fn well_formed(&self) -> bool
        decreases self,
    {
        &&& (self.param matches Some(x) ==> x.well_formed())
        &&& self.body.well_formed()
    }
}

impl ast::WhileStatement {
    /// Holds when every assignment target below this node has a shape that can be
    /// lowered.
    pub open spec fn well_formed(&self) -> bool
        decreases self,
    {
        &&& self.test.well_formed()
        &&& self.body.well_formed()
    }
}

impl ast::WithStatement {
    /// Holds when every assignment target below this node has a shape that can be
    /// lowered.
    pub open spec fn well_formed(&self) -> bool
        decreases self,
    {
        &&& self.object.well_formed()
        &&& self.body.well_formed()
    }
}

impl ast::Expression {
    /// Holds when every assignment target below this node has a shape that can be
    /// lowered.
    pub open spec fn well_formed(&self) -> bool
        decreases self,
    {
        match self {
            ast::Expression::BigintLiteral(_) => true,
            ast::Expression::BooleanLiteral(_) => true,
            ast::Expression::NullLiteral(_) => true,
            ast::Expression::NumberLiteral(_) => true,
            ast::Expression::RegExpLiteral(_) => true,
            ast::Expression::StringLiteral(_) => true,
            ast::Expression::TemplateLiteral(x) => x.well_formed(),
            ast::Expression::Identifier(_) => true,
            ast::Expression::MetaProperty(_) => true,
            ast::Expression::ArrayExpression(x) => x.well_formed(),
            ast::Expression::ArrowFunctionExpression(x) => x.well_formed(),
            ast::Expression::AssignmentExpression(x) => x.well_formed(),
            ast::Expression::AwaitExpression(x) => x.well_formed(),
            ast::Expression::BinaryExpression(x) => x.well_formed(),
            ast::Expression::CallExpression(x) => x.well_formed(),
            ast::Expression::ChainExpression(x) => x.well_formed(),
            ast::Expression::ClassExpression(x) => x.well_formed(),
            ast::Expression::ConditionalExpression(x) => x.well_formed(),
            ast::Expression::FunctionExpression(x) => x.well_formed(),
            ast::Expression::ImportExpression(x) => x.well_formed(),
            ast::Expression::LogicalExpression(x) => x.well_formed(),
            ast::Expression::MemberExpression(x) => x.well_formed(),
            ast::Expression::NewExpression(x) => x.well_formed(),
            ast::Expression::ObjectExpression(x) => x.well_formed(),
            ast::Expression::PrivateInExpression(x) => x.well_formed(),
            ast::Expression::SequenceExpression(x) => x.well_formed(),
            ast::Expression::TaggedTemplateExpression(x) => x.well_formed(),
            ast::Expression::ThisExpression(_) => true,
            ast::Expression::UnaryExpression(x) => x.well_formed(),
            ast::Expression::UpdateExpression(x) => x.well_formed(),
            ast::Expression::YieldExpression(x) => x.well_formed(),
            ast::Expression::Super(_) => true,
            ast::Expression::JSXElement(_) => true,
            ast::Expression::JSXFragment(_) => true,
            ast::Expression::ParenthesizedExpression(x) => x.well_formed(),
            ast::Expression::TSAsExpression(x) => x.well_formed(),
            ast::Expression::TSSatisfiesExpression(x) => x.well_formed(),
            ast::Expression::TSNonNullExpression(x) => x.well_formed(),
            ast::Expression::TSTypeAssertion(x) => x.well_formed(),
            ast::Expression::TSInstantiationExpression(x) => x.well_formed(),
        }
    }
}

impl ast::ArrayExpression {
    /// Holds when every assignment target below this node has a shape that can be
    /// lowered.
    pub open spec fn well_formed(&self) -> bool
        decreases self,
    {
        &&& forall|i: int|
            0 <= i < self.elements@.len() ==> (#[trigger] self.elements@[i]).well_formed()
    }
}

impl ast::ArrayExpressionElement {
    /// Holds when every assignment target below this node has a shape that can be
    /// lowered.
    pub open spec fn well_formed(&self) -> bool
        decreases self,
    {
        match self {
            ast::ArrayExpressionElement::SpreadElement(x) => x.well_formed(),
            ast::ArrayExpressionElement::Expression(x) => x.well_formed(),
            ast::ArrayExpressionElement::Elision(_) => true,
        }
    }
}

impl ast::Argument {
    /// Holds when every assignment target below this node has a shape that can be
    /// lowered.
    pub open spec fn well_formed(&self) -> bool
        decreases self,
    {
        match self {
            ast::Argument::SpreadElement(x) => x.well_formed(),
            ast::Argument::Expression(x) => x.well_formed(),
        }
    }
}

impl ast::SpreadElement {
    /// Holds when every assignment target below this node has a shape that can be
    /// lowered.
    pub open spec fn well_formed(&self) -> bool
        decreases self,
    {
        &&& self.argument.well_formed()
    }
}

impl ast::AssignmentExpression {
    /// Holds when every assignment target below this node has a shape that can be
    /// lowered.
    pub open spec fn well_formed(&self) -> bool
        decreases self,
    {
        &&& self.left.well_formed()
        &&& self.right.well_formed()
    }
}

impl ast::ArrowExpression {
    /// Holds when every assignment target below this node has a shape that can be
    /// lowered.
    pub open spec fn well_formed(&self) -> bool
        decreases self,
    {
        &&& self.params.well_formed()
        &&& self.body.well_formed()
    }
}

impl ast::AwaitExpression {
    /// Holds when every assignment target below this node has a shape that can be
    /// lowered.
    pub open spec fn well_formed(&self) -> bool
        decreases self,
    {
        &&& self.argument.well_formed()
    }
}

impl ast::BinaryExpression {
    /// Holds when every assignment target below this node has a shape that can be
    /// lowered.
    pub open spec fn well_formed(&self) -> bool
        decreases self,
    {
        &&& self.left.well_formed()
        &&& self.right.well_formed()
    }
}

impl ast::CallExpression {
    /// Holds when every assignment target below this node has a shape that can be
    /// lowered.
    pub open spec fn well_formed(&self) -> bool
        decreases self,
    {
        &&& self.callee.well_formed()
        &&& forall|i: int|
            0 <= i < self.arguments@.len() ==> (#[trigger] self.arguments@[i]).well_formed()
    }
}

impl ast::ChainExpression {
    /// Holds when every assignment target below this node has a shape that can be
    /// lowered.
    pub open spec fn well_formed(&self) -> bool
        decreases self,
    {
        &&& self.expression.well_formed()
    }
}

impl ast::ChainElement {
    /// Holds when every assignment target below this node has a shape that can be
    /// lowered.
    pub open spec fn well_formed(&self) -> bool
        decreases self,
    {
        match self {
            ast::ChainElement::CallExpression(x) => x.well_formed(),
            ast::ChainElement::MemberExpression(x) => x.well_formed(),
        }
    }
}

impl ast::ConditionalExpression {
    /// Holds when every assignment target below this node has a shape that can be
    /// lowered.
    pub open spec fn well_formed(&self) -> bool
        decreases self,
    {
        &&& self.test.well_formed()
        &&& self.consequent.well_formed()
        &&& self.alternate.well_formed()
    }
}

impl ast::ImportExpression {
    /// Holds when every assignment target below this node has a shape that can be
    /// lowered.
    pub open spec fn well_formed(&self) -> bool
        decreases self,
    {
        &&& self.source.well_formed()
        &&& forall|i: int|
            0 <= i < self.arguments@.len() ==> (#[trigger] self.arguments@[i]).well_formed()
    }
}

impl ast::LogicalExpression {
    /// Holds when every assignment target below this node has a shape that can be
    /// lowered.
    pub open spec fn well_formed(&self) -> bool
        decreases self,
    {
        &&& self.left.well_formed()
        &&& self.right.well_formed()
    }
}

impl ast::MemberExpression {
    /// Holds when every assignment target below this node has a shape that can be
    /// lowered.
    pub open spec fn well_formed(&self) -> bool
        decreases self,
    {
        match self {
            ast::MemberExpression::ComputedMemberExpression(x) => x.well_formed(),
            ast::MemberExpression::StaticMemberExpression(x) => x.well_formed(),
            ast::MemberExpression::PrivateFieldExpression(x) => x.well_formed(),
        }
    }
}

impl ast::ComputedMemberExpression {
    /// Holds when every assignment target below this node has a shape that can be
    /// lowered.
    pub open spec fn well_formed(&self) -> bool
        decreases self,
    {
        &&& self.object.well_formed()
        &&& self.expression.well_formed()
    }
}

impl ast::StaticMemberExpression {
    /// Holds when every assignment target below this node has a shape that can be
    /// lowered.
    pub open spec fn well_formed(&self) -> bool
        decreases self,
    {
        &&& self.object.well_formed()
    }
}

impl ast::PrivateFieldExpression {
    /// Holds when every assignment target below this node has a shape that can be
    /// lowered.
    pub open spec fn well_formed(&self) -> bool
        decreases self,
    {
        &&& self.object.well_formed()
    }
}

impl ast::NewExpression {
    /// Holds when every assignment target below this node has a shape that can be
    /// lowered.
    pub open spec fn well_formed(&self) -> bool
        decreases self,
    {
        &&& self.callee.well_formed()
        &&& forall|i: int|
            0 <= i < self.arguments@.len() ==> (#[trigger] self.arguments@[i]).well_formed()
    }
}

impl ast::ObjectExpression {
    /// Holds when every assignment target below this node has a shape that can be
    /// lowered.
    pub open spec fn well_formed(&self) -> bool
        decreases self,
    {
        &&& forall|i: int|
            0 <= i < self.properties@.len() ==> (#[trigger] self.properties@[i]).well_formed()
    }
}

impl ast::ObjectProperty {
    /// Holds when every assignment target below this node has a shape that can be
    /// lowered.
    pub open spec fn well_formed(&self) -> bool
        decreases self,
    {
        match self {
            ast::ObjectProperty::Property(x) => x.well_formed(),
            ast::ObjectProperty::SpreadProperty(x) => x.well_formed(),
        }
    }
}

impl ast::Property {
    /// Holds when every assignment target below this node has a shape that can be
    /// lowered.
    pub open spec fn well_formed(&self) -> bool
        decreases self,
    {
        &&& self.key.well_formed()
        &&& self.value.well_formed()
    }
}

impl ast::PropertyKey {
    /// Holds when every assignment target below this node has a shape that can be
    /// lowered.
    pub open spec fn well_formed(&self) -> bool
        decreases self,
    {
        match self {
            ast::PropertyKey::Identifier(_) => true,
            ast::PropertyKey::PrivateIdentifier(_) => true,
            ast::PropertyKey::Expression(x) => x.well_formed(),
        }
    }
}

impl ast::PropertyValue {
    /// Holds when every assignment target below this node has a shape that can be
    /// lowered.
    pub open spec fn well_formed(&self) -> bool
        decreases self,
    {
        match self {
            ast::PropertyValue::Pattern(x) => x.well_formed(),
            ast::PropertyValue::Expression(x) => x.well_formed(),
        }
    }
}

impl ast::PrivateInExpression {
    /// Holds when every assignment target below this node has a shape that can be
    /// lowered.
    pub open spec fn well_formed(&self) -> bool
        decreases self,
    {
        &&& self.right.well_formed()
    }
}

impl ast::SequenceExpression {
    /// Holds when every assignment target below this node has a shape that can be
    /// lowered.
    pub open spec fn well_formed(&self) -> bool
        decreases self,
    {
        &&& forall|i: int|
            0 <= i < self.expressions@.len() ==> (#[trigger] self.expressions@[i]).well_formed()
    }
}

impl ast::TaggedTemplateExpression {
    /// Holds when every assignment target below this node has a shape that can be
    /// lowered.
    pub open spec fn well_formed(&self) -> bool
        decreases self,
    {
        &&& self.tag.well_formed()
        &&& self.quasi.well_formed()
    }
}

impl ast::UnaryExpression {
    /// Holds when every assignment target below this node has a shape that can be
    /// lowered.
    pub open spec fn well_formed(&self) -> bool
        decreases self,
    {
        &&& self.argument.well_formed()
    }
}

impl ast::UpdateExpression {
    /// Holds when every assignment target below this node has a shape that can be
    /// lowered.
    pub open spec fn well_formed(&self) -> bool
        decreases self,
    {
        &&& self.argument.well_formed()
    }
}

impl ast::YieldExpression {
    /// Holds when every assignment target below this node has a shape that can be
    /// lowered.
    pub open spec fn well_formed(&self) -> bool
        decreases self,
    {
        &&& (self.argument matches Some(x) ==> x.well_formed())
    }
}

impl ast::ParenthesizedExpression {
    /// Holds when every assignment target below this node has a shape that can be
    /// lowered.
    pub open spec fn well_formed(&self) -> bool
        decreases self,
    {
        &&& self.expression.well_formed()
    }
}

impl ast::TSAsExpression {
    /// Holds when every assignment target below this node has a shape that can be
    /// lowered.
    pub open spec fn well_formed(&self) -> bool
        decreases self,
    {
        &&& self.expression.well_formed()
    }
}

impl ast::TSSatisfiesExpression {
    /// Holds when every assignment target below this node has a shape that can be
    /// lowered.
    pub open spec fn well_formed(&self) -> bool
        decreases self,
    {
        &&& self.expression.well_formed()
    }
}

impl ast::TSNonNullExpression {
    /// Holds when every assignment target below this node has a shape that can be
    /// lowered.
    pub open spec fn well_formed(&self) -> bool
        decreases self,
    {
        &&& self.expression.well_formed()
    }
}

impl ast::TSTypeAssertion {
    /// Holds when every assignment target below this node has a shape that can be
    /// lowered.
    pub open spec fn well_formed(&self) -> bool
        decreases self,
    {
        &&& self.expression.well_formed()
    }
}

impl ast::TSInstantiationExpression {
    /// Holds when every assignment target below this node has a shape that can be
    /// lowered.
    pub open spec fn well_formed(&self) -> bool
        decreases self,
    {
        &&& self.expression.well_formed()
    }
}

impl ast::AssignmentTarget {
    /// Holds when every assignment target below this node has a shape that can be
    /// lowered.
    pub open spec fn well_formed(&self) -> bool
        decreases self,
    {
        match self {
            ast::AssignmentTarget::SimpleAssignmentTarget(x) => x.well_formed(),
            ast::AssignmentTarget::AssignmentTargetPattern(x) => x.well_formed(),
        }
    }
}

impl ast::SimpleAssignmentTarget {
    /// Holds when every assignment target below this node has a shape that can be
    /// lowered.
    pub open spec fn well_formed(&self) -> bool
        decreases self,
    {
        match self {
            ast::SimpleAssignmentTarget::AssignmentTargetIdentifier(_) => true,
            ast::SimpleAssignmentTarget::MemberAssignmentTarget(x) => x.well_formed(),
            ast::SimpleAssignmentTarget::TSAsExpression(x) => {
                x.well_formed() && x.expression.is_simple_target()
            },
            ast::SimpleAssignmentTarget::TSSatisfiesExpression(x) => {
                x.well_formed() && x.expression.is_simple_target()
            },
            ast::SimpleAssignmentTarget::TSNonNullExpression(x) => {
                x.well_formed() && x.expression.is_simple_target()
            },
            ast::SimpleAssignmentTarget::TSTypeAssertion(x) => {
                x.well_formed() && x.expression.is_simple_target()
            },
        }
    }
}

impl ast::AssignmentTargetPattern {
    /// Holds when every assignment target below this node has a shape that can be
    /// lowered.
    pub open spec fn well_formed(&self) -> bool
        decreases self,
    {
        match self {
            ast::AssignmentTargetPattern::ArrayAssignmentTarget(x) => x.well_formed(),
            ast::AssignmentTargetPattern::ObjectAssignmentTarget(x) => x.well_formed(),
        }
    }
}

impl ast::ArrayAssignmentTarget {
    /// Holds when every assignment target below this node has a shape that can be
    /// lowered.
    pub open spec fn well_formed(&self) -> bool
        decreases self,
    {
        &&& forall|i: int|
            0 <= i < self.elements@.len()
                ==> ((#[trigger] self.elements@[i]) matches Some(x) ==> x.well_formed())
        &&& (self.rest matches Some(x) ==> x.well_formed())
    }
}

impl ast::ObjectAssignmentTarget {
    /// Holds when every assignment target below this node has a shape that can be
    /// lowered.
    pub open spec fn well_formed(&self) -> bool
        decreases self,
    {
        &&& forall|i: int|
            0 <= i < self.properties@.len() ==> (#[trigger] self.properties@[i]).well_formed()
        &&& (self.rest matches Some(x) ==> x.well_formed())
    }
}

impl ast::AssignmentTargetMaybeDefault {
    /// Holds when every assignment target below this node has a shape that can be
    /// lowered.
    pub open spec fn well_formed(&self) -> bool
        decreases self,
    {
        match self {
            ast::AssignmentTargetMaybeDefault::AssignmentTarget(x) => x.well_formed(),
            ast::AssignmentTargetMaybeDefault::AssignmentTargetWithDefault(x) => x.well_formed(),
        }
    }
}

impl ast::AssignmentTargetWithDefault {
    /// Holds when every assignment target below this node has a shape that can be
    /// lowered.
    pub open spec fn well_formed(&self) -> bool
        decreases self,
    {
        &&& self.binding.well_formed()
        &&& self.init.well_formed()
    }
}

impl ast::AssignmentTargetProperty {
    /// Holds when every assignment target below this node has a shape that can be
    /// lowered.
    pub open spec fn well_formed(&self) -> bool
        decreases self,
    {
        match self {
            ast::AssignmentTargetProperty::AssignmentTargetPropertyIdentifier(x) => x.well_formed(),
            ast::AssignmentTargetProperty::AssignmentTargetPropertyProperty(x) => x.well_formed(),
        }
    }
}

impl ast::AssignmentTargetPropertyIdentifier {
    /// Holds when every assignment target below this node has a shape that can be
    /// lowered.
    pub open spec fn well_formed(&self) -> bool
        decreases self,
    {
        &&& (self.init matches Some(x) ==> x.well_formed())
    }
}

impl ast::AssignmentTargetPropertyProperty {
    /// Holds when every assignment target below this node has a shape that can be
    /// lowered.
    pub open spec fn well_formed(&self) -> bool
        decreases self,
    {
        &&& self.name.well_formed()
        &&& self.binding.well_formed()
    }
}

impl ast::BindingPattern {
    /// Holds when every assignment target below this node has a shape that can be
    /// lowered.
    pub open spec fn well_formed(&self) -> bool
        decreases self,
    {
        &&& self.kind.well_formed()
    }
}

impl ast::BindingPatternKind {
    /// Holds when every assignment target below this node has a shape that can be
    /// lowered.
    pub open spec fn well_formed(&self) -> bool
        decreases self,
    {
        match self {
            ast::BindingPatternKind::BindingIdentifier(_) => true,
            ast::BindingPatternKind::ObjectPattern(x) => x.well_formed(),
            ast::BindingPatternKind::ArrayPattern(x) => x.well_formed(),
            ast::BindingPatternKind::RestElement(x) => x.well_formed(),
            ast::BindingPatternKind::AssignmentPattern(x) => x.well_formed(),
        }
    }
}

impl ast::ObjectPattern {
    /// Holds when every assignment target below this node has a shape that can be
    /// lowered.
    pub open spec fn well_formed(&self) -> bool
        decreases self,
    {
        &&& forall|i: int|
            0 <= i < self.properties@.len() ==> (#[trigger] self.properties@[i]).well_formed()
    }
}

impl ast::ObjectPatternProperty {
    /// Holds when every assignment target below this node has a shape that can be
    /// lowered.
    pub open spec fn well_formed(&self) -> bool
        decreases self,
    {
        match self {
            ast::ObjectPatternProperty::Property(x) => x.well_formed(),
            ast::ObjectPatternProperty::RestElement(x) => x.well_formed(),
        }
    }
}

impl ast::ArrayPattern {
    /// Holds when every assignment target below this node has a shape that can be
    /// lowered.
    pub open spec fn well_formed(&self) -> bool
        decreases self,
    {
        &&& forall|i: int|
            0 <= i < self.elements@.len()
                ==> ((#[trigger] self.elements@[i]) matches Some(x) ==> x.well_formed())
    }
}

impl ast::RestElement {
    /// Holds when every assignment target below this node has a shape that can be
    /// lowered.
    pub open spec fn well_formed(&self) -> bool
        decreases self,
    {
        &&& self.argument.well_formed()
    }
}

impl ast::AssignmentPattern {
    /// Holds when every assignment target below this node has a shape that can be
    /// lowered.
    pub open spec fn well_formed(&self) -> bool
        decreases self,
    {
        &&& self.left.well_formed()
        &&& self.right.well_formed()
    }
}

impl ast::TemplateLiteral {
    /// Holds when every assignment target below this node has a shape that can be
    /// lowered.
    pub open spec fn well_formed(&self) -> bool
        decreases self,
    {
        &&& forall|i: int|
            0 <= i < self.expressions@.len() ==> (#[trigger] self.expressions@[i]).well_formed()
    }
}

impl ast::ModuleDeclaration {
    /// Holds when every assignment target below this node has a shape that can be
    /// lowered.
    pub open spec fn well_formed(&self) -> bool
        decreases self,
    {
        match self {
            ast::ModuleDeclaration::ImportDeclaration(_) => true,
            ast::ModuleDeclaration::ExportAllDeclaration(_) => true,
            ast::ModuleDeclaration::ExportDefaultDeclaration(x) => x.well_formed(),
            ast::ModuleDeclaration::ExportNamedDeclaration(x) => x.well_formed(),
            ast::ModuleDeclaration::TSExportAssignment(_) => true,
            ast::ModuleDeclaration::TSNamespaceExportDeclaration(_) => true,
        }
    }
}

impl ast::ExportDefaultDeclaration {
    /// Holds when every assignment target below this node has a shape that can be
    /// lowered.
    pub open spec fn well_formed(&self) -> bool
        decreases self,
    {
        &&& self.declaration.well_formed()
    }
}

impl ast::ExportDefaultDeclarationKind {
    /// Holds when every assignment target below this node has a shape that can be
    /// lowered.
    pub open spec fn well_formed(&self) -> bool
        decreases self,
    {
        match self {
            ast::ExportDefaultDeclarationKind::Expression(x) => x.well_formed(),
            ast::ExportDefaultDeclarationKind::FunctionDeclaration(x) => x.well_formed(),
            ast::ExportDefaultDeclarationKind::ClassDeclaration(x) => x.well_formed(),
            ast::ExportDefaultDeclarationKind::TSEnumDeclaration(_) => true,
            ast::ExportDefaultDeclarationKind::TSInterfaceDeclaration(_) => true,
        }
    }
}

impl ast::ExportNamedDeclaration {
    /// Holds when every assignment target below this node has a shape that can be
    /// lowered.
    pub open spec fn well_formed(&self) -> bool
        decreases self,
    {
        &&& (self.declaration matches Some(x) ==> x.well_formed())
    }
}

impl ast::Declaration {
    /// Holds when every assignment target below this node has a shape that can be
    /// lowered.
    pub open spec fn well_formed(&self) -> bool
        decreases self,
    {
        match self {
            ast::Declaration::VariableDeclaration(x) => x.well_formed(),
            ast::Declaration::FunctionDeclaration(x) => x.well_formed(),
            ast::Declaration::ClassDeclaration(x) => x.well_formed(),
            ast::Declaration::TSTypeAliasDeclaration(_) => true,
            ast::Declaration::TSInterfaceDeclaration(_) => true,
            ast::Declaration::TSEnumDeclaration(_) => true,
            ast::Declaration::TSModuleDeclaration(_) => true,
            ast::Declaration::TSImportEqualsDeclaration(_) => true,
        }
    }
}

impl ast::VariableDeclaration {
    /// Holds when every assignment target below this node has a shape that can be
    /// lowered.
    pub open spec fn well_formed(&self) -> bool
        decreases self,
    {
        &&& forall|i: int|
            0 <= i < self.declarations@.len() ==> (#[trigger] self.declarations@[i]).well_formed()
    }
}

impl ast::VariableDeclarator {
    /// Holds when every assignment target below this node has a shape that can be
    /// lowered.
    pub open spec fn well_formed(&self) -> bool
        decreases self,
    {
        &&& self.id.well_formed()
        &&& (self.init matches Some(x) ==> x.well_formed())
    }
}

impl ast::Function {
    /// Holds when every assignment target below this node has a shape that can be
    /// lowered.
    pub open spec fn well_formed(&self) -> bool
        decreases self,
    {
        &&& self.params.well_formed()
        &&& (self.body matches Some(x) ==> x.well_formed())
    }
}

impl ast::FunctionBody {
    /// Holds when every assignment target below this node has a shape that can be
    /// lowered.
    pub open spec fn well_formed(&self) -> bool
        decreases self,
    {
        &&& forall|i: int|
            0 <= i < self.statements@.len() ==> (#[trigger] self.statements@[i]).well_formed()
    }
}

impl ast::FormalParameters {
    /// Holds when every assignment target below this node has a shape that can be
    /// lowered.
    pub open spec fn well_formed(&self) -> bool
        decreases self,
    {
        &&& forall|i: int| 0 <= i < self.items@.len() ==> (#[trigger] self.items@[i]).well_formed()
    }
}

impl ast::FormalParameter {
    /// Holds when every assignment target below this node has a shape that can be
    /// lowered.
    pub open spec fn well_formed(&self) -> bool
        decreases self,
    {
        &&& self.pattern.well_formed()
        &&& forall|i: int|
            0 <= i < self.decorators@.len() ==> (#[trigger] self.decorators@[i]).well_formed()
    }
}

impl ast::Class {
    /// Holds when every assignment target below this node has a shape that can be
    /// lowered.
    pub open spec fn well_formed(&self) -> bool
        decreases self,
    {
        &&& (self.super_class matches Some(x) ==> x.well_formed())
        &&& self.body.well_formed()
        &&& forall|i: int|
            0 <= i < self.decorators@.len() ==> (#[trigger] self.decorators@[i]).well_formed()
    }
}

impl ast::ClassBody {
    /// Holds when every assignment target below this node has a shape that can be
    /// lowered.
    pub open spec fn well_formed(&self) -> bool
        decreases self,
    {
        &&& forall|i: int| 0 <= i < self.body@.len() ==> (#[trigger] self.body@[i]).well_formed()
    }
}

impl ast::ClassElement {
    /// Holds when every assignment target below this node has a shape that can be
    /// lowered.
    pub open spec fn well_formed(&self) -> bool
        decreases self,
    {
        match self {
            ast::ClassElement::StaticBlock(x) => x.well_formed(),
            ast::ClassElement::MethodDefinition(x) => x.well_formed(),
            ast::ClassElement::PropertyDefinition(x) => x.well_formed(),
            ast::ClassElement::AccessorProperty(x) => x.well_formed(),
            ast::ClassElement::TSAbstractMethodDefinition(_) => true,
            ast::ClassElement::TSAbstractPropertyDefinition(_) => true,
            ast::ClassElement::TSIndexSignature(_) => true,
        }
    }
}

impl ast::StaticBlock {
    /// Holds when every assignment target below this node has a shape that can be
    /// lowered.
    pub open spec fn well_formed(&self) -> bool
        decreases self,
    {
        &&& forall|i: int| 0 <= i < self.body@.len() ==> (#[trigger] self.body@[i]).well_formed()
    }
}

impl ast::MethodDefinition {
    /// Holds when every assignment target below this node has a shape that can be
    /// lowered.
    pub open spec fn well_formed(&self) -> bool
        decreases self,
    {
        &&& self.key.well_formed()
        &&& self.value.well_formed()
        &&& forall|i: int|
            0 <= i < self.decorators@.len() ==> (#[trigger] self.decorators@[i]).well_formed()
    }
}

impl ast::PropertyDefinition {
    /// Holds when every assignment target below this node has a shape that can be
    /// lowered.
    pub open spec fn well_formed(&self) -> bool
        decreases self,
    {
        &&& self.key.well_formed()
        &&& (self.value matches Some(x) ==> x.well_formed())
        &&& forall|i: int|
            0 <= i < self.decorators@.len() ==> (#[trigger] self.decorators@[i]).well_formed()
    }
}

impl ast::AccessorProperty {
    /// Holds when every assignment target below this node has a shape that can be
    /// lowered.
    pub open spec fn well_formed(&self) -> bool
        decreases self,
    {
        &&& self.key.well_formed()
        &&& (self.value matches Some(x) ==> x.well_formed())
    }
}

impl ast::Decorator {
    /// Holds when every assignment target below this node has a shape that can be
    /// lowered.
    pub open spec fn well_formed(&self) -> bool
        decreases self,
    {
        &&& self.expression.well_formed()
    }
}

} // verus!
