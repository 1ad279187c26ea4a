//! What lowering a declaration, a function or a class means.

use vstd::prelude::*;
use crate::ast;
use crate::hir;
use crate::relation::program::directives_lower_to;
use crate::relation::statement::statements_lower_to;

verus! {

impl ast::VariableDeclarationKind {
    /// The tag of the reduced tree that means the same.
    pub open spec fn lowered(self) -> hir::VariableDeclarationKind {
        match self {
            ast::VariableDeclarationKind::Var => hir::VariableDeclarationKind::Var,
            ast::VariableDeclarationKind::Const => hir::VariableDeclarationKind::Const,
            ast::VariableDeclarationKind::Let => hir::VariableDeclarationKind::Let,
        }
    }
}

impl ast::FunctionType {
    /// The tag of the reduced tree that means the same.
    pub open spec fn lowered(self) -> hir::FunctionType {
        match self {
            ast::FunctionType::FunctionDeclaration => hir::FunctionType::FunctionDeclaration,
            ast::FunctionType::FunctionExpression => hir::FunctionType::FunctionExpression,
            ast::FunctionType::TSDeclareFunction => hir::FunctionType::TSDeclareFunction,
        }
    }
}

impl ast::FormalParameterKind {
    /// The tag of the reduced tree that means the same.
    pub open spec fn lowered(self) -> hir::FormalParameterKind {
        match self {
            ast::FormalParameterKind::FormalParameter => hir::FormalParameterKind::FormalParameter,
            ast::FormalParameterKind::UniqueFormalParameters => {
                hir::FormalParameterKind::UniqueFormalParameters
            },
            ast::FormalParameterKind::ArrowFormalParameters => {
                hir::FormalParameterKind::ArrowFormalParameters
            },
            ast::FormalParameterKind::Signature => hir::FormalParameterKind::Signature,
        }
    }
}

impl ast::ClassType {
    /// The tag of the reduced tree that means the same.
    pub open spec fn lowered(self) -> hir::ClassType {
        match self {
            ast::ClassType::ClassDeclaration => hir::ClassType::ClassDeclaration,
            ast::ClassType::ClassExpression => hir::ClassType::ClassExpression,
        }
    }
}

impl ast::MethodDefinitionKind {
    /// The tag of the reduced tree that means the same.
    pub open spec fn lowered(self) -> hir::MethodDefinitionKind {
        match self {
            ast::MethodDefinitionKind::Constructor => hir::MethodDefinitionKind::Constructor,
            ast::MethodDefinitionKind::Method => hir::MethodDefinitionKind::Method,
            ast::MethodDefinitionKind::Getter => hir::MethodDefinitionKind::Getter,
            ast::MethodDefinitionKind::Setter => hir::MethodDefinitionKind::Setter,
        }
    }
}

impl ast::Declaration {
    /// Holds when this declaration has no meaning at run time, so that lowering
    /// leaves it out.
    pub open spec fn is_erased(&self) -> bool {
        match self {
            ast::Declaration::TSTypeAliasDeclaration(_) => true,
            ast::Declaration::TSInterfaceDeclaration(_) => true,
            ast::Declaration::TSEnumDeclaration(_) => true,
            ast::Declaration::TSModuleDeclaration(_) => true,
            ast::Declaration::TSImportEqualsDeclaration(_) => true,
            _ => false,
        }
    }

    /// Holds when `h` is the lowering of this declaration.
    pub open spec fn lowers_to(&self, h: hir::Declaration) -> bool
        decreases self, 0int,
    {
        match self {
            ast::Declaration::VariableDeclaration(x) => {
                h matches hir::Declaration::VariableDeclaration(y) && x.lowers_to(*y)
            },
            ast::Declaration::FunctionDeclaration(x) => {
                h matches hir::Declaration::FunctionDeclaration(y) && x.lowers_to(*y)
            },
            ast::Declaration::ClassDeclaration(x) => {
                h matches hir::Declaration::ClassDeclaration(y) && x.lowers_to(*y)
            },
            ast::Declaration::TSTypeAliasDeclaration(_) => false,
            ast::Declaration::TSInterfaceDeclaration(_) => false,
            ast::Declaration::TSEnumDeclaration(_) => false,
            ast::Declaration::TSModuleDeclaration(_) => false,
            ast::Declaration::TSImportEqualsDeclaration(_) => false,
        }
    }

    /// Holds when `out` is what lowering gives for this declaration: nothing for an
    /// erased declaration, its lowering otherwise.
    pub open spec fn lowers_to_optional(&self, out: Option<hir::Declaration>) -> bool
        decreases self, 1int,
    {
        match out {
            Some(h) => !self.is_erased() && self.lowers_to(h),
            None => self.is_erased(),
        }
    }
}

impl ast::VariableDeclaration {
    /// Holds when `h` is the lowering of this variable declaration.
    pub open spec fn lowers_to(&self, h: hir::VariableDeclaration) -> bool
        decreases self,
    {
        &&& h.span == self.span
        &&& h.kind == self.kind.lowered()
        &&& variable_declarators_lower_to(self.declarations@, h.declarations@)
    }
}

impl ast::VariableDeclarator {
    /// Holds when `h` is the lowering of this variable declarator.
    pub open spec fn lowers_to(&self, h: hir::VariableDeclarator) -> bool
        decreases self,
    {
        &&& h.span == self.span
        &&& h.kind == self.kind.lowered()
        &&& self.id.lowers_to(h.id)
        &&& match self.init {
            Some(a) => h.init matches Some(b) && a.lowers_to(b),
            None => h.init is None,
        }
        &&& h.definite == self.definite
    }
}

/// Holds when `h` has the length of `s` and holds, at each position, the lowering of
/// what `s` holds there.
pub open spec fn variable_declarators_lower_to(
    s: Seq<ast::VariableDeclarator>,
    h: Seq<hir::VariableDeclarator>,
) -> bool
    decreases s,
{
    &&& h.len() == s.len()
    &&& forall|i: int| 0 <= i < s.len() ==> (#[trigger] s[i]).lowers_to(h[i])
}

impl ast::Function {
    /// Holds when `h` is the lowering of this function.
    pub open spec fn lowers_to(&self, h: hir::Function) -> bool
        decreases self,
    {
        &&& h.function_type == self.function_type.lowered()
        &&& h.span == self.span
        &&& match self.id {
            Some(a) => h.id matches Some(b) && a.lowers_to(b),
            None => h.id is None,
        }
        &&& h.expression == self.expression
        &&& h.generator == self.generator
        &&& h.is_async == self.is_async
        &&& self.params.lowers_to(*h.params)
        &&& match self.body {
            Some(a) => h.body matches Some(b) && a.lowers_to(*b),
            None => h.body is None,
        }
    }
}

impl ast::FunctionBody {
    /// Holds when `h` is the lowering of this function body.
    pub open spec fn lowers_to(&self, h: hir::FunctionBody) -> bool
        decreases self,
    {
        &&& h.span == self.span
        &&& directives_lower_to(self.directives@, h.directives@)
        &&& statements_lower_to(self.statements@, h.statements@)
    }
}

impl ast::FormalParameters {
    /// Holds when `h` is the lowering of this formal parameters.
    pub open spec fn lowers_to(&self, h: hir::FormalParameters) -> bool
        decreases self,
    {
        &&& h.span == self.span
        &&& h.kind == self.kind.lowered()
        &&& formal_parameter_items_lower_to(self.items@, h.items@)
    }
}

impl ast::FormalParameter {
    /// Holds when `h` is the lowering of this formal parameter.
    pub open spec fn lowers_to(&self, h: hir::FormalParameter) -> bool
        decreases self,
    {
        &&& h.span == self.span
        &&& self.pattern.lowers_to(h.pattern)
        &&& decorators_lower_to(self.decorators@, h.decorators@)
    }
}

/// Holds when `h` has the length of `s` and holds, at each position, the lowering of
/// what `s` holds there.
pub open spec fn formal_parameter_items_lower_to(
    s: Seq<ast::FormalParameter>,
    h: Seq<hir::FormalParameter>,
) -> bool
    decreases s,
{
    &&& h.len() == s.len()
    &&& forall|i: int| 0 <= i < s.len() ==> (#[trigger] s[i]).lowers_to(h[i])
}

impl ast::Class {
    /// Holds when `h` is the lowering of this class.
    pub open spec fn lowers_to(&self, h: hir::Class) -> bool
        decreases self,
    {
        &&& h.class_type == self.class_type.lowered()
        &&& h.span == self.span
        &&& match self.id {
            Some(a) => h.id matches Some(b) && a.lowers_to(b),
            None => h.id is None,
        }
        &&& match self.super_class {
            Some(a) => h.super_class matches Some(b) && a.lowers_to(b),
            None => h.super_class is None,
        }
        &&& self.body.lowers_to(*h.body)
        &&& decorators_lower_to(self.decorators@, h.decorators@)
    }
}

impl ast::ClassBody {
    /// Holds when `h` is the lowering of this class body.
    pub open spec fn lowers_to(&self, h: hir::ClassBody) -> bool
        decreases self,
    {
        &&& h.span == self.span
        &&& class_elements_lower_to(self.body@, h.body@)
    }
}

impl ast::ClassElement {
    /// Holds when this class element has no meaning at run time, so that lowering
    /// leaves it out.
    pub open spec fn is_erased(&self) -> bool {
        match self {
            ast::ClassElement::TSAbstractMethodDefinition(_) => true,
            ast::ClassElement::TSAbstractPropertyDefinition(_) => true,
            ast::ClassElement::TSIndexSignature(_) => true,
            _ => false,
        }
    }

    /// Holds when `h` is the lowering of this class element.
    pub open spec fn lowers_to(&self, h: hir::ClassElement) -> bool
        decreases self,
    {
        match self {
            ast::ClassElement::StaticBlock(x) => {
                h matches hir::ClassElement::StaticBlock(y) && x.lowers_to(*y)
            },
            ast::ClassElement::MethodDefinition(x) => {
                h matches hir::ClassElement::MethodDefinition(y) && x.lowers_to(*y)
            },
            ast::ClassElement::PropertyDefinition(x) => {
                h matches hir::ClassElement::PropertyDefinition(y) && x.lowers_to(*y)
            },
            ast::ClassElement::AccessorProperty(x) => {
                h matches hir::ClassElement::AccessorProperty(y) && x.lowers_to(*y)
            },
            ast::ClassElement::TSAbstractMethodDefinition(_) => false,
            ast::ClassElement::TSAbstractPropertyDefinition(_) => false,
            ast::ClassElement::TSIndexSignature(_) => false,
        }
    }
}

/// Holds when `h` is what is left of `s` after lowering: the erased class members are
/// dropped, every other one is lowered, and those stay in their order.
pub open spec fn class_elements_lower_to(
    s: Seq<ast::ClassElement>,
    h: Seq<hir::ClassElement>,
) -> bool
    decreases s,
{
    if s.len() == 0 {
        h.len() == 0
    } else if s.last().is_erased() {
        class_elements_lower_to(s.drop_last(), h)
    } else {
        &&& h.len() > 0
        &&& s.last().lowers_to(h.last())
        &&& class_elements_lower_to(s.drop_last(), h.drop_last())
    }
}

/// How many of the class members in `s` are erased.
pub open spec fn erased_class_elements(s: Seq<ast::ClassElement>) -> nat
    decreases s.len(),
{
    if s.len() == 0 {
        0
    } else if s.last().is_erased() {
        erased_class_elements(s.drop_last()) + 1
    } else {
        erased_class_elements(s.drop_last())
    }
}

impl ast::StaticBlock {
    /// Holds when `h` is the lowering of this static block.
    pub open spec fn lowers_to(&self, h: hir::StaticBlock) -> bool
        decreases self,
    {
        &&& h.span == self.span
        &&& statements_lower_to(self.body@, h.body@)
    }
}

impl ast::MethodDefinition {
    /// Holds when `h` is the lowering of this method definition.
    pub open spec fn lowers_to(&self, h: hir::MethodDefinition) -> bool
        decreases self,
    {
        &&& h.span == self.span
        &&& self.key.lowers_to(h.key)
        &&& self.value.lowers_to(*h.value)
        &&& h.kind == self.kind.lowered()
        &&& h.computed == self.computed
        &&& h.is_static == self.is_static
        &&& h.is_override == self.is_override
        &&& h.optional == self.optional
        &&& decorators_lower_to(self.decorators@, h.decorators@)
    }
}

impl ast::PropertyDefinition {
    /// Holds when `h` is the lowering of this property definition.
    pub open spec fn lowers_to(&self, h: hir::PropertyDefinition) -> bool
        decreases self,
    {
        &&& h.span == self.span
        &&& self.key.lowers_to(h.key)
        &&& match self.value {
            Some(a) => h.value matches Some(b) && a.lowers_to(b),
            None => h.value is None,
        }
        &&& h.computed == self.computed
        &&& h.is_static == self.is_static
        &&& h.declare == self.declare
        &&& h.is_override == self.is_override
        &&& h.optional == self.optional
        &&& h.definite == self.definite
        &&& h.readonly == self.readonly
        &&& decorators_lower_to(self.decorators@, h.decorators@)
    }
}

impl ast::AccessorProperty {
    /// Holds when `h` is the lowering of this accessor property.
    pub open spec fn lowers_to(&self, h: hir::AccessorProperty) -> bool
        decreases self,
    {
        &&& h.span == self.span
        &&& self.key.lowers_to(h.key)
        &&& match self.value {
            Some(a) => h.value matches Some(b) && a.lowers_to(b),
            None => h.value is None,
        }
        &&& h.computed == self.computed
        &&& h.is_static == self.is_static
    }
}

impl ast::Decorator {
    /// Holds when `h` is the lowering of this decorator.
    pub open spec fn lowers_to(&self, h: hir::Decorator) -> bool
        decreases self,
    {
        &&& h.span == self.span
        &&& self.expression.lowers_to(h.expression)
    }
}

/// Holds when `h` has the length of `s` and holds, at each position, the lowering of
/// what `s` holds there.
pub open spec fn decorators_lower_to(s: Seq<ast::Decorator>, h: Seq<hir::Decorator>) -> bool
    decreases s,
{
    &&& h.len() == s.len()
    &&& forall|i: int| 0 <= i < s.len() ==> (#[trigger] s[i]).lowers_to(h[i])
}

} // verus!
