//! What lowering an expression means.

use vstd::prelude::*;
use crate::ast;
use crate::hir;
use crate::source::atom_chars;

verus! {

impl ast::PropertyKind {
    /// The tag of the reduced tree that means the same.
    pub open spec fn lowered(self) -> hir::PropertyKind {
        match self {
            ast::PropertyKind::Init => hir::PropertyKind::Init,
            ast::PropertyKind::Getter => hir::PropertyKind::Getter,
            ast::PropertyKind::Setter => hir::PropertyKind::Setter,
        }
    }
}

impl ast::Expression {
    /// Holds when `h` is the lowering of this expression.
    pub open spec fn lowers_to(&self, h: hir::Expression) -> bool
        decreases self,
    {
        match self {
            ast::Expression::BigintLiteral(x) => {
                h matches hir::Expression::BigintLiteral(y) && x.lowers_to(*y)
            },
            ast::Expression::BooleanLiteral(x) => {
                h matches hir::Expression::BooleanLiteral(y) && x.lowers_to(*y)
            },
            ast::Expression::NullLiteral(x) => {
                h matches hir::Expression::NullLiteral(y) && x.lowers_to(*y)
            },
            ast::Expression::NumberLiteral(x) => {
                h matches hir::Expression::NumberLiteral(y) && x.lowers_to(*y)
            },
            ast::Expression::RegExpLiteral(x) => {
                h matches hir::Expression::RegExpLiteral(y) && x.lowers_to(*y)
            },
            ast::Expression::StringLiteral(x) => {
                h matches hir::Expression::StringLiteral(y) && x.lowers_to(*y)
            },
            ast::Expression::TemplateLiteral(x) => {
                h matches hir::Expression::TemplateLiteral(y) && x.lowers_to(*y)
            },
            ast::Expression::Identifier(x) => {
                h matches hir::Expression::Identifier(y) && x.lowers_to(*y)
            },
            ast::Expression::MetaProperty(x) => {
                h matches hir::Expression::MetaProperty(y) && x.lowers_to(*y)
            },
            ast::Expression::ArrayExpression(x) => {
                h matches hir::Expression::ArrayExpression(y) && x.lowers_to(*y)
            },
            ast::Expression::ArrowFunctionExpression(x) => {
                h matches hir::Expression::ArrowFunctionExpression(y) && x.lowers_to(*y)
            },
            ast::Expression::AssignmentExpression(x) => {
                h matches hir::Expression::AssignmentExpression(y) && x.lowers_to(*y)
            },
            ast::Expression::AwaitExpression(x) => {
                h matches hir::Expression::AwaitExpression(y) && x.lowers_to(*y)
            },
            ast::Expression::BinaryExpression(x) => {
                h matches hir::Expression::BinaryExpression(y) && x.lowers_to(*y)
            },
            ast::Expression::CallExpression(x) => {
                h matches hir::Expression::CallExpression(y) && x.lowers_to(*y)
            },
            ast::Expression::ChainExpression(x) => {
                h matches hir::Expression::ChainExpression(y) && x.lowers_to(*y)
            },
            ast::Expression::ClassExpression(x) => {
                h matches hir::Expression::ClassExpression(y) && x.lowers_to(*y)
            },
            ast::Expression::ConditionalExpression(x) => {
                h matches hir::Expression::ConditionalExpression(y) && x.lowers_to(*y)
            },
            ast::Expression::FunctionExpression(x) => {
                h matches hir::Expression::FunctionExpression(y) && x.lowers_to(*y)
            },
            ast::Expression::ImportExpression(x) => {
                h matches hir::Expression::ImportExpression(y) && x.lowers_to(*y)
            },
            ast::Expression::LogicalExpression(x) => {
                h matches hir::Expression::LogicalExpression(y) && x.lowers_to(*y)
            },
            ast::Expression::MemberExpression(x) => {
                h matches hir::Expression::MemberExpression(y) && x.lowers_to(*y)
            },
            ast::Expression::NewExpression(x) => {
                h matches hir::Expression::NewExpression(y) && x.lowers_to(*y)
            },
            ast::Expression::ObjectExpression(x) => {
                h matches hir::Expression::ObjectExpression(y) && x.lowers_to(*y)
            },
            ast::Expression::PrivateInExpression(x) => {
                h matches hir::Expression::PrivateInExpression(y) && x.lowers_to(*y)
            },
            ast::Expression::SequenceExpression(x) => {
                h matches hir::Expression::SequenceExpression(y) && x.lowers_to(*y)
            },
            ast::Expression::TaggedTemplateExpression(x) => {
                h matches hir::Expression::TaggedTemplateExpression(y) && x.lowers_to(*y)
            },
            ast::Expression::ThisExpression(x) => {
                h matches hir::Expression::ThisExpression(y) && x.lowers_to(*y)
            },
            ast::Expression::UnaryExpression(x) => {
                h matches hir::Expression::UnaryExpression(y) && x.lowers_to(*y)
            },
            ast::Expression::UpdateExpression(x) => {
                h matches hir::Expression::UpdateExpression(y) && x.lowers_to(*y)
            },
            ast::Expression::YieldExpression(x) => {
                h matches hir::Expression::YieldExpression(y) && x.lowers_to(*y)
            },
            ast::Expression::Super(x) => h matches hir::Expression::Super(y) && x.lowers_to(*y),
            ast::Expression::JSXElement(x) => {
                &&& h matches hir::Expression::Identifier(y)
                &&& y.span == x.span
                &&& atom_chars(y.name) == "void"@
            },
            ast::Expression::JSXFragment(x) => {
                &&& h matches hir::Expression::Identifier(y)
                &&& y.span == x.span
                &&& atom_chars(y.name) == "void"@
            },
            ast::Expression::ParenthesizedExpression(x) => x.expression.lowers_to(h),
            ast::Expression::TSAsExpression(x) => x.expression.lowers_to(h),
            ast::Expression::TSSatisfiesExpression(x) => x.expression.lowers_to(h),
            ast::Expression::TSNonNullExpression(x) => x.expression.lowers_to(h),
            ast::Expression::TSTypeAssertion(x) => x.expression.lowers_to(h),
            ast::Expression::TSInstantiationExpression(x) => x.expression.lowers_to(h),
        }
    }

    /// This expression without the parentheses and the wrappers that only carry a
    /// type around it.
    pub open spec fn without_wrappers(&self) -> ast::Expression
        decreases self,
    {
        match self {
            ast::Expression::ParenthesizedExpression(x) => x.expression.without_wrappers(),
            ast::Expression::TSAsExpression(x) => x.expression.without_wrappers(),
            ast::Expression::TSSatisfiesExpression(x) => x.expression.without_wrappers(),
            ast::Expression::TSNonNullExpression(x) => x.expression.without_wrappers(),
            ast::Expression::TSTypeAssertion(x) => x.expression.without_wrappers(),
            ast::Expression::TSInstantiationExpression(x) => x.expression.without_wrappers(),
            _ => *self,
        }
    }

    /// Holds when `h` is the lowering of this expression read as the target of an
    /// assignment. Only an identifier and a member access can be read so.
    pub open spec fn lowers_to_simple_target(&self, h: hir::SimpleAssignmentTarget) -> bool
        decreases self,
    {
        match self {
            ast::Expression::Identifier(x) => {
                h matches hir::SimpleAssignmentTarget::AssignmentTargetIdentifier(y)
                    && x.lowers_to(*y)
            },
            ast::Expression::MemberExpression(x) => {
                h matches hir::SimpleAssignmentTarget::MemberAssignmentTarget(y) && x.lowers_to(*y)
            },
            _ => false,
        }
    }
}

/// Holds when `h` has the length of `s` and holds, at each position, the lowering of
/// what `s` holds there.
pub open spec fn expressions_lower_to(s: Seq<ast::Expression>, h: Seq<hir::Expression>) -> bool
    decreases s,
{
    &&& h.len() == s.len()
    &&& forall|i: int| 0 <= i < s.len() ==> (#[trigger] s[i]).lowers_to(h[i])
}

impl ast::MetaProperty {
    /// Holds when `h` is the lowering of this meta property.
    pub open spec fn lowers_to(&self, h: hir::MetaProperty) -> bool {
        &&& h.span == self.span
        &&& self.meta.lowers_to(h.meta)
        &&& self.property.lowers_to(h.property)
    }
}

impl ast::ArrayExpression {
    /// Holds when `h` is the lowering of this array expression.
    pub open spec fn lowers_to(&self, h: hir::ArrayExpression) -> bool
        decreases self,
    {
        &&& h.span == self.span
        &&& array_expression_elements_lower_to(self.elements@, h.elements@)
        &&& h.trailing_comma == self.trailing_comma
    }
}

impl ast::ArrayExpressionElement {
    /// Holds when `h` is the lowering of this array expression element.
    pub open spec fn lowers_to(&self, h: hir::ArrayExpressionElement) -> bool
        decreases self,
    {
        match self {
            ast::ArrayExpressionElement::SpreadElement(x) => {
                h matches hir::ArrayExpressionElement::SpreadElement(y) && x.lowers_to(*y)
            },
            ast::ArrayExpressionElement::Expression(x) => {
                h matches hir::ArrayExpressionElement::Expression(y) && x.lowers_to(y)
            },
            ast::ArrayExpressionElement::Elision(x) => {
                h matches hir::ArrayExpressionElement::Elision(y) && y == *x
            },
        }
    }
}

/// Holds when `h` has the length of `s` and holds, at each position, the lowering of
/// what `s` holds there.
pub open spec fn array_expression_elements_lower_to(
    s: Seq<ast::ArrayExpressionElement>,
    h: Seq<hir::ArrayExpressionElement>,
) -> bool
    decreases s,
{
    &&& h.len() == s.len()
    &&& forall|i: int| 0 <= i < s.len() ==> (#[trigger] s[i]).lowers_to(h[i])
}

impl ast::Argument {
    /// Holds when `h` is the lowering of this argument.
    pub open spec fn lowers_to(&self, h: hir::Argument) -> bool
        decreases self,
    {
        match self {
            ast::Argument::SpreadElement(x) => {
                h matches hir::Argument::SpreadElement(y) && x.lowers_to(*y)
            },
            ast::Argument::Expression(x) => {
                h matches hir::Argument::Expression(y) && x.lowers_to(y)
            },
        }
    }
}

/// Holds when `h` has the length of `s` and holds, at each position, the lowering of
/// what `s` holds there.
pub open spec fn arguments_lower_to(s: Seq<ast::Argument>, h: Seq<hir::Argument>) -> bool
    decreases s,
{
    &&& h.len() == s.len()
    &&& forall|i: int| 0 <= i < s.len() ==> (#[trigger] s[i]).lowers_to(h[i])
}

impl ast::SpreadElement {
    /// Holds when `h` is the lowering of this spread element.
    pub open spec fn lowers_to(&self, h: hir::SpreadElement) -> bool
        decreases self,
    {
        &&& h.span == self.span
        &&& self.argument.lowers_to(h.argument)
    }
}

impl ast::AssignmentExpression {
    /// Holds when `h` is the lowering of this assignment expression.
    pub open spec fn lowers_to(&self, h: hir::AssignmentExpression) -> bool
        decreases self,
    {
        &&& h.span == self.span
        &&& h.operator == self.operator.lowered()
        &&& self.left.lowers_to(h.left)
        &&& self.right.lowers_to(h.right)
    }
}

impl ast::ArrowExpression {
    /// Holds when `h` is the lowering of this arrow function.
    pub open spec fn lowers_to(&self, h: hir::ArrowExpression) -> bool
        decreases self,
    {
        &&& h.span == self.span
        &&& h.expression == self.expression
        &&& h.generator == self.generator
        &&& h.is_async == self.is_async
        &&& self.params.lowers_to(*h.params)
        &&& self.body.lowers_to(*h.body)
    }
}

impl ast::AwaitExpression {
    /// Holds when `h` is the lowering of this `await` expression.
    pub open spec fn lowers_to(&self, h: hir::AwaitExpression) -> bool
        decreases self,
    {
        &&& h.span == self.span
        &&& self.argument.lowers_to(h.argument)
    }
}

impl ast::BinaryExpression {
    /// Holds when `h` is the lowering of this binary expression.
    pub open spec fn lowers_to(&self, h: hir::BinaryExpression) -> bool
        decreases self,
    {
        &&& h.span == self.span
        &&& self.left.lowers_to(h.left)
        &&& h.operator == self.operator.lowered()
        &&& self.right.lowers_to(h.right)
    }
}

impl ast::CallExpression {
    /// Holds when `h` is the lowering of this call expression.
    pub open spec fn lowers_to(&self, h: hir::CallExpression) -> bool
        decreases self,
    {
        &&& h.span == self.span
        &&& self.callee.lowers_to(h.callee)
        &&& arguments_lower_to(self.arguments@, h.arguments@)
        &&& h.optional == self.optional
    }
}

impl ast::ChainExpression {
    /// Holds when `h` is the lowering of this chain expression.
    pub open spec fn lowers_to(&self, h: hir::ChainExpression) -> bool
        decreases self,
    {
        &&& h.span == self.span
        &&& self.expression.lowers_to(h.expression)
    }
}

impl ast::ChainElement {
    /// Holds when `h` is the lowering of this chain element.
    pub open spec fn lowers_to(&self, h: hir::ChainElement) -> bool
        decreases self,
    {
        match self {
            ast::ChainElement::CallExpression(x) => {
                h matches hir::ChainElement::CallExpression(y) && x.lowers_to(*y)
            },
            ast::ChainElement::MemberExpression(x) => {
                h matches hir::ChainElement::MemberExpression(y) && x.lowers_to(*y)
            },
        }
    }
}

impl ast::ConditionalExpression {
    /// Holds when `h` is the lowering of this conditional expression.
    pub open spec fn lowers_to(&self, h: hir::ConditionalExpression) -> bool
        decreases self,
    {
        &&& h.span == self.span
        &&& self.test.lowers_to(h.test)
        &&& self.consequent.lowers_to(h.consequent)
        &&& self.alternate.lowers_to(h.alternate)
    }
}

impl ast::ImportExpression {
    /// Holds when `h` is the lowering of this `import` expression.
    pub open spec fn lowers_to(&self, h: hir::ImportExpression) -> bool
        decreases self,
    {
        &&& h.span == self.span
        &&& self.source.lowers_to(h.source)
        &&& expressions_lower_to(self.arguments@, h.arguments@)
    }
}

impl ast::LogicalExpression {
    /// Holds when `h` is the lowering of this logical expression.
    pub open spec fn lowers_to(&self, h: hir::LogicalExpression) -> bool
        decreases self,
    {
        &&& h.span == self.span
        &&& self.left.lowers_to(h.left)
        &&& h.operator == self.operator.lowered()
        &&& self.right.lowers_to(h.right)
    }
}

impl ast::MemberExpression {
    /// Holds when `h` is the lowering of this member expression.
    pub open spec fn lowers_to(&self, h: hir::MemberExpression) -> bool
        decreases self,
    {
        match self {
            ast::MemberExpression::ComputedMemberExpression(x) => {
                h matches hir::MemberExpression::ComputedMemberExpression(y) && x.lowers_to(y)
            },
            ast::MemberExpression::StaticMemberExpression(x) => {
                h matches hir::MemberExpression::StaticMemberExpression(y) && x.lowers_to(y)
            },
            ast::MemberExpression::PrivateFieldExpression(x) => {
                h matches hir::MemberExpression::PrivateFieldExpression(y) && x.lowers_to(y)
            },
        }
    }
}

impl ast::ComputedMemberExpression {
    /// Holds when `h` is the lowering of this computed member expression.
    pub open spec fn lowers_to(&self, h: hir::ComputedMemberExpression) -> bool
        decreases self,
    {
        &&& h.span == self.span
        &&& self.object.lowers_to(h.object)
        &&& self.expression.lowers_to(h.expression)
        &&& h.optional == self.optional
    }
}

impl ast::StaticMemberExpression {
    /// Holds when `h` is the lowering of this static member expression.
    pub open spec fn lowers_to(&self, h: hir::StaticMemberExpression) -> bool
        decreases self,
    {
        &&& h.span == self.span
        &&& self.object.lowers_to(h.object)
        &&& self.property.lowers_to(h.property)
        &&& h.optional == self.optional
    }
}

impl ast::PrivateFieldExpression {
    /// Holds when `h` is the lowering of this private field expression.
    pub open spec fn lowers_to(&self, h: hir::PrivateFieldExpression) -> bool
        decreases self,
    {
        &&& h.span == self.span
        &&& self.object.lowers_to(h.object)
        &&& self.field.lowers_to(h.field)
        &&& h.optional == self.optional
    }
}

impl ast::NewExpression {
    /// Holds when `h` is the lowering of this `new` expression.
    pub open spec fn lowers_to(&self, h: hir::NewExpression) -> bool
        decreases self,
    {
        &&& h.span == self.span
        &&& self.callee.lowers_to(h.callee)
        &&& arguments_lower_to(self.arguments@, h.arguments@)
    }
}

impl ast::ObjectExpression {
    /// Holds when `h` is the lowering of this object expression.
    pub open spec fn lowers_to(&self, h: hir::ObjectExpression) -> bool
        decreases self,
    {
        &&& h.span == self.span
        &&& object_properties_lower_to(self.properties@, h.properties@)
        &&& h.trailing_comma == self.trailing_comma
    }
}

impl ast::ObjectProperty {
    /// Holds when `h` is the lowering of this object property.
    pub open spec fn lowers_to(&self, h: hir::ObjectProperty) -> bool
        decreases self,
    {
        match self {
            ast::ObjectProperty::Property(x) => {
                h matches hir::ObjectProperty::Property(y) && x.lowers_to(*y)
            },
            ast::ObjectProperty::SpreadProperty(x) => {
                h matches hir::ObjectProperty::SpreadProperty(y) && x.lowers_to(*y)
            },
        }
    }
}

/// Holds when `h` has the length of `s` and holds, at each position, the lowering of
/// what `s` holds there.
pub open spec fn object_properties_lower_to(
    s: Seq<ast::ObjectProperty>,
    h: Seq<hir::ObjectProperty>,
) -> bool
    decreases s,
{
    &&& h.len() == s.len()
    &&& forall|i: int| 0 <= i < s.len() ==> (#[trigger] s[i]).lowers_to(h[i])
}

impl ast::Property {
    /// Holds when `h` is the lowering of this property.
    pub open spec fn lowers_to(&self, h: hir::Property) -> bool
        decreases self,
    {
        &&& h.span == self.span
        &&& h.kind == self.kind.lowered()
        &&& self.key.lowers_to(h.key)
        &&& self.value.lowers_to(h.value)
        &&& h.method == self.method
        &&& h.shorthand == self.shorthand
        &&& h.computed == self.computed
    }
}

impl ast::PropertyKey {
    /// Holds when `h` is the lowering of this property key.
    pub open spec fn lowers_to(&self, h: hir::PropertyKey) -> bool
        decreases self,
    {
        match self {
            ast::PropertyKey::Identifier(x) => {
                h matches hir::PropertyKey::Identifier(y) && x.lowers_to(*y)
            },
            ast::PropertyKey::PrivateIdentifier(x) => {
                h matches hir::PropertyKey::PrivateIdentifier(y) && x.lowers_to(*y)
            },
            ast::PropertyKey::Expression(x) => {
                h matches hir::PropertyKey::Expression(y) && x.lowers_to(y)
            },
        }
    }
}

impl ast::PropertyValue {
    /// Holds when `h` is the lowering of this property value.
    pub open spec fn lowers_to(&self, h: hir::PropertyValue) -> bool
        decreases self,
    {
        match self {
            ast::PropertyValue::Pattern(x) => {
                h matches hir::PropertyValue::Pattern(y) && x.lowers_to(y)
            },
            ast::PropertyValue::Expression(x) => {
                h matches hir::PropertyValue::Expression(y) && x.lowers_to(y)
            },
        }
    }
}

impl ast::PrivateInExpression {
    /// Holds when `h` is the lowering of this private `in` expression.
    pub open spec fn lowers_to(&self, h: hir::PrivateInExpression) -> bool
        decreases self,
    {
        &&& h.span == self.span
        &&& self.left.lowers_to(h.left)
        &&& self.right.lowers_to(h.right)
    }
}

impl ast::SequenceExpression {
    /// Holds when `h` is the lowering of this sequence expression.
    pub open spec fn lowers_to(&self, h: hir::SequenceExpression) -> bool
        decreases self,
    {
        &&& h.span == self.span
        &&& expressions_lower_to(self.expressions@, h.expressions@)
    }
}

impl ast::TaggedTemplateExpression {
    /// Holds when `h` is the lowering of this tagged template expression.
    pub open spec fn lowers_to(&self, h: hir::TaggedTemplateExpression) -> bool
        decreases self,
    {
        &&& h.span == self.span
        &&& self.tag.lowers_to(h.tag)
        &&& self.quasi.lowers_to(h.quasi)
    }
}

impl ast::ThisExpression {
    /// Holds when `h` is the lowering of this `this` expression.
    pub open spec fn lowers_to(&self, h: hir::ThisExpression) -> bool {
        &&& h.span == self.span
    }
}

impl ast::UnaryExpression {
    /// Holds when `h` is the lowering of this unary expression.
    pub open spec fn lowers_to(&self, h: hir::UnaryExpression) -> bool
        decreases self,
    {
        &&& h.span == self.span
        &&& h.operator == self.operator.lowered()
        &&& h.prefix == self.prefix
        &&& self.argument.lowers_to(h.argument)
    }
}

impl ast::UpdateExpression {
    /// Holds when `h` is the lowering of this update expression.
    pub open spec fn lowers_to(&self, h: hir::UpdateExpression) -> bool
        decreases self,
    {
        &&& h.span == self.span
        &&& h.operator == self.operator.lowered()
        &&& h.prefix == self.prefix
        &&& self.argument.lowers_to(h.argument)
    }
}

impl ast::YieldExpression {
    /// Holds when `h` is the lowering of this `yield` expression.
    pub open spec fn lowers_to(&self, h: hir::YieldExpression) -> bool
        decreases self,
    {
        &&& h.span == self.span
        &&& h.delegate == self.delegate
        &&& match self.argument {
            Some(a) => h.argument matches Some(b) && a.lowers_to(b),
            None => h.argument is None,
        }
    }
}

impl ast::Super {
    /// Holds when `h` is the lowering of this `super` expression.
    pub open spec fn lowers_to(&self, h: hir::Super) -> bool {
        &&& h.span == self.span
    }
}

} // verus!
