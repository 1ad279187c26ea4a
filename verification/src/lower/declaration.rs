//! Lowering of declarations, functions and classes.

use vstd::prelude::*;
use crate::ast;
use crate::hir;
use crate::lower::AstLower;
use crate::relation::declaration::{
    class_elements_lower_to, decorators_lower_to, formal_parameter_items_lower_to,
    variable_declarators_lower_to,
};

verus! {

impl AstLower {
    /// Lowers a declaration. A declaration that only concerns types gives
    /// nothing.
    pub fn lower_declaration(
        &self,
        decl: &ast::Declaration,
    ) -> (out: Option<hir::Declaration>)
        requires
            decl.well_formed(),
        ensures
            decl.lowers_to_optional(out),
            out matches Some(h) ==> h.span() == decl.span(),
        decreases decl, 0int,
    {
        match decl {
            ast::Declaration::VariableDeclaration(decl) => {
                Some(hir::Declaration::VariableDeclaration(self.lower_variable_declaration(decl)))
            },
            ast::Declaration::FunctionDeclaration(func) => {
                let func = self.lower_function(func);
                Some(hir::Declaration::FunctionDeclaration(func))
            },
            ast::Declaration::ClassDeclaration(class) => {
                let class = self.lower_class(class);
                Some(hir::Declaration::ClassDeclaration(class))
            },
            ast::Declaration::TSTypeAliasDeclaration(_)
            | ast::Declaration::TSInterfaceDeclaration(_)
            | ast::Declaration::TSEnumDeclaration(_)
            | ast::Declaration::TSModuleDeclaration(_)
            | ast::Declaration::TSImportEqualsDeclaration(_) => None,
        }
    }

    /// Lowers a variable declaration.
    pub fn lower_variable_declaration(
        &self,
        decl: &ast::VariableDeclaration,
    ) -> (out: Box<hir::VariableDeclaration>)
        requires
            decl.well_formed(),
        ensures
            decl.lowers_to(*out),
        decreases decl,
    {
        let kind = match decl.kind {
            ast::VariableDeclarationKind::Var => hir::VariableDeclarationKind::Var,
            ast::VariableDeclarationKind::Const => hir::VariableDeclarationKind::Const,
            ast::VariableDeclarationKind::Let => hir::VariableDeclarationKind::Let,
        };
        let declarations = self.lower_variable_declarators(&decl.declarations);
        Box::new(hir::VariableDeclaration { span: decl.span, kind, declarations })
    }

    /// Lowers a variable declarator.
    pub fn lower_variable_declarator(
        &self,
        decl: &ast::VariableDeclarator,
    ) -> (out: hir::VariableDeclarator)
        requires
            decl.well_formed(),
        ensures
            decl.lowers_to(out),
        decreases decl,
    {
        let kind = match decl.kind {
            ast::VariableDeclarationKind::Var => hir::VariableDeclarationKind::Var,
            ast::VariableDeclarationKind::Const => hir::VariableDeclarationKind::Const,
            ast::VariableDeclarationKind::Let => hir::VariableDeclarationKind::Let,
        };
        let id = self.lower_binding_pattern(&decl.id);
        let init = match &decl.init {
            Some(x) => Some(self.lower_expression(x)),
            None => None,
        };
        hir::VariableDeclarator { span: decl.span, kind, id, init, definite: decl.definite }
    }

    /// Lowers a list of variable declarators, first to last.
    pub fn lower_variable_declarators(
        &self,
        items: &Vec<ast::VariableDeclarator>,
    ) -> (out: Vec<hir::VariableDeclarator>)
        requires
            forall|i: int| 0 <= i < items@.len() ==> (#[trigger] items@[i]).well_formed(),
        ensures
            variable_declarators_lower_to(items@, out@),
        decreases items,
    {
        let mut vec: Vec<hir::VariableDeclarator> = Vec::with_capacity(items.len());
        let mut i: usize = 0;
        while i < items.len()
            invariant
                i <= items.len(),
                vec@.len() == i,
                forall|j: int| 0 <= j < items@.len() ==> (#[trigger] items@[j]).well_formed(),
                forall|j: int| 0 <= j < i ==> (#[trigger] items@[j]).lowers_to(vec@[j]),
            decreases items.len() - i,
        {
            let item = self.lower_variable_declarator(&items[i]);
            vec.push(item);
            i += 1;
        }
        vec
    }

    /// Lowers a function.
    pub fn lower_function(&self, func: &ast::Function) -> (out: Box<hir::Function>)
        requires
            func.well_formed(),
        ensures
            func.lowers_to(*out),
        decreases func, 0int,
    {
        let function_type = match func.function_type {
            ast::FunctionType::FunctionDeclaration => hir::FunctionType::FunctionDeclaration,
            ast::FunctionType::FunctionExpression => hir::FunctionType::FunctionExpression,
            ast::FunctionType::TSDeclareFunction => hir::FunctionType::TSDeclareFunction,
        };
        let id = match &func.id {
            Some(x) => Some(self.lower_binding_identifier(x)),
            None => None,
        };
        let params = self.lower_formal_parameters(&func.params);
        let body = match &func.body {
            Some(x) => Some(self.lower_function_body(x)),
            None => None,
        };
        Box::new(hir::Function {
            function_type,
            span: func.span,
            id,
            expression: func.expression,
            generator: func.generator,
            is_async: func.is_async,
            params,
            body,
        })
    }

    /// Lowers a function in expression position.
    pub fn lower_function_expression(&self, func: &ast::Function) -> (out: hir::Expression)
        requires
            func.well_formed(),
        ensures
            out matches hir::Expression::FunctionExpression(h) && func.lowers_to(*h),
        decreases func, 1int,
    {
        let func = self.lower_function(func);
        hir::Expression::FunctionExpression(func)
    }

    /// Lowers a function body.
    pub fn lower_function_body(
        &self,
        body: &ast::FunctionBody,
    ) -> (out: Box<hir::FunctionBody>)
        requires
            body.well_formed(),
        ensures
            body.lowers_to(*out),
        decreases body,
    {
        let directives = self.lower_vec(&body.directives, Self::lower_directive);
        let statements = self.lower_statements(&body.statements);
        Box::new(hir::FunctionBody { span: body.span, directives, statements })
    }

    /// Lowers a formal parameters.
    pub fn lower_formal_parameters(
        &self,
        params: &ast::FormalParameters,
    ) -> (out: Box<hir::FormalParameters>)
        requires
            params.well_formed(),
        ensures
            params.lowers_to(*out),
        decreases params,
    {
        let kind = match params.kind {
            ast::FormalParameterKind::FormalParameter => hir::FormalParameterKind::FormalParameter,
            ast::FormalParameterKind::UniqueFormalParameters => {
                hir::FormalParameterKind::UniqueFormalParameters
            },
            ast::FormalParameterKind::ArrowFormalParameters => {
                hir::FormalParameterKind::ArrowFormalParameters
            },
            ast::FormalParameterKind::Signature => hir::FormalParameterKind::Signature,
        };
        let items = self.lower_formal_parameter_items(&params.items);
        Box::new(hir::FormalParameters { span: params.span, kind, items })
    }

    /// Lowers a formal parameter.
    pub fn lower_formal_parameter(
        &self,
        param: &ast::FormalParameter,
    ) -> (out: hir::FormalParameter)
        requires
            param.well_formed(),
        ensures
            param.lowers_to(out),
        decreases param,
    {
        let pattern = self.lower_binding_pattern(&param.pattern);
        let decorators = self.lower_decorators(&param.decorators);
        hir::FormalParameter { span: param.span, pattern, decorators }
    }

    /// Lowers a list of formal parameters, first to last.
    pub fn lower_formal_parameter_items(
        &self,
        items: &Vec<ast::FormalParameter>,
    ) -> (out: Vec<hir::FormalParameter>)
        requires
            forall|i: int| 0 <= i < items@.len() ==> (#[trigger] items@[i]).well_formed(),
        ensures
            formal_parameter_items_lower_to(items@, out@),
        decreases items,
    {
        let mut vec: Vec<hir::FormalParameter> = Vec::with_capacity(items.len());
        let mut i: usize = 0;
        while i < items.len()
            invariant
                i <= items.len(),
                vec@.len() == i,
                forall|j: int| 0 <= j < items@.len() ==> (#[trigger] items@[j]).well_formed(),
                forall|j: int| 0 <= j < i ==> (#[trigger] items@[j]).lowers_to(vec@[j]),
            decreases items.len() - i,
        {
            let item = self.lower_formal_parameter(&items[i]);
            vec.push(item);
            i += 1;
        }
        vec
    }

    /// Lowers a class.
    pub fn lower_class(&self, class: &ast::Class) -> (out: Box<hir::Class>)
        requires
            class.well_formed(),
        ensures
            class.lowers_to(*out),
        decreases class, 0int,
    {
        let class_type = match class.class_type {
            ast::ClassType::ClassDeclaration => hir::ClassType::ClassDeclaration,
            ast::ClassType::ClassExpression => hir::ClassType::ClassExpression,
        };
        let id = match &class.id {
            Some(x) => Some(self.lower_binding_identifier(x)),
            None => None,
        };
        let super_class = match &class.super_class {
            Some(x) => Some(self.lower_expression(x)),
            None => None,
        };
        let body = self.lower_class_body(&class.body);
        let decorators = self.lower_decorators(&class.decorators);
        Box::new(hir::Class { class_type, span: class.span, id, super_class, body, decorators })
    }

    /// Lowers a class in expression position.
    pub fn lower_class_expression(&self, class: &ast::Class) -> (out: hir::Expression)
        requires
            class.well_formed(),
        ensures
            out matches hir::Expression::ClassExpression(h) && class.lowers_to(*h),
        decreases class, 1int,
    {
        let class = self.lower_class(class);
        hir::Expression::ClassExpression(class)
    }

    /// Lowers the members of a class. Erased members are dropped; the others keep
    /// their order.
    pub fn lower_class_body(&self, class_body: &ast::ClassBody) -> (out: Box<hir::ClassBody>)
        requires
            class_body.well_formed(),
        ensures
            class_body.lowers_to(*out),
        decreases class_body,
    {
        let body = self.lower_class_elements(&class_body.body);
        Box::new(hir::ClassBody { span: class_body.span, body })
    }

    /// Lowers a list of class members, dropping the erased ones.
    pub fn lower_class_elements(
        &self,
        elems: &Vec<ast::ClassElement>,
    ) -> (out: Vec<hir::ClassElement>)
        requires
            forall|i: int| 0 <= i < elems@.len() ==> (#[trigger] elems@[i]).well_formed(),
        ensures
            class_elements_lower_to(elems@, out@),
        decreases elems,
    {
        let mut body: Vec<hir::ClassElement> = Vec::with_capacity(elems.len());
        let mut i: usize = 0;
        while i < elems.len()
            invariant
                i <= elems.len(),
                forall|j: int| 0 <= j < elems@.len() ==> (#[trigger] elems@[j]).well_formed(),
                class_elements_lower_to(elems@.take(i as int), body@),
            decreases elems.len() - i,
        {
            let ghost before = body@;
            if let Some(elem) = self.lower_class_element(&elems[i]) {
                body.push(elem);
            }
            proof {
                let next = elems@.take(i + 1);
                assert(next.drop_last() =~= elems@.take(i as int));
                assert(next.last() == elems@[i as int]);
                if !elems@[i as int].is_erased() {
                    assert(body@.drop_last() =~= before);
                }
            }
            i += 1;
        }
        assert(elems@.take(elems.len() as int) =~= elems@);
        body
    }

    /// Lowers a member of a class. A member that only concerns types gives
    /// nothing.
    pub fn lower_class_element(
        &self,
        elem: &ast::ClassElement,
    ) -> (out: Option<hir::ClassElement>)
        requires
            elem.well_formed(),
        ensures
            match out {
                Some(h) => !elem.is_erased() && elem.lowers_to(h),
                None => elem.is_erased(),
            },
            out matches Some(h) ==> h.span() == elem.span(),
        decreases elem,
    {
        match elem {
            ast::ClassElement::StaticBlock(block) => {
                let block = self.lower_static_block(block);
                Some(hir::ClassElement::StaticBlock(block))
            },
            ast::ClassElement::MethodDefinition(def) => {
                let def = self.lower_method_definition(def);
                Some(hir::ClassElement::MethodDefinition(def))
            },
            ast::ClassElement::PropertyDefinition(def) => {
                let def = self.lower_property_definition(def);
                Some(hir::ClassElement::PropertyDefinition(def))
            },
            ast::ClassElement::AccessorProperty(prop) => {
                let prop = self.lower_accessor_property(prop);
                Some(hir::ClassElement::AccessorProperty(prop))
            },
            ast::ClassElement::TSAbstractMethodDefinition(_)
            | ast::ClassElement::TSAbstractPropertyDefinition(_)
            | ast::ClassElement::TSIndexSignature(_) => None,
        }
    }

    /// Lowers a static block.
    pub fn lower_static_block(
        &self,
        block: &ast::StaticBlock,
    ) -> (out: Box<hir::StaticBlock>)
        requires
            block.well_formed(),
        ensures
            block.lowers_to(*out),
        decreases block,
    {
        let body = self.lower_statements(&block.body);
        Box::new(hir::StaticBlock { span: block.span, body })
    }

    /// Lowers a method definition.
    pub fn lower_method_definition(
        &self,
        def: &ast::MethodDefinition,
    ) -> (out: Box<hir::MethodDefinition>)
        requires
            def.well_formed(),
        ensures
            def.lowers_to(*out),
        decreases def,
    {
        let key = self.lower_property_key(&def.key);
        let value = self.lower_function(&def.value);
        let kind = match def.kind {
            ast::MethodDefinitionKind::Constructor => hir::MethodDefinitionKind::Constructor,
            ast::MethodDefinitionKind::Method => hir::MethodDefinitionKind::Method,
            ast::MethodDefinitionKind::Getter => hir::MethodDefinitionKind::Getter,
            ast::MethodDefinitionKind::Setter => hir::MethodDefinitionKind::Setter,
        };
        let decorators = self.lower_decorators(&def.decorators);
        Box::new(hir::MethodDefinition {
            span: def.span,
            key,
            value,
            kind,
            computed: def.computed,
            is_static: def.is_static,
            is_override: def.is_override,
            optional: def.optional,
            decorators,
        })
    }

    /// Lowers a property definition.
    pub fn lower_property_definition(
        &self,
        def: &ast::PropertyDefinition,
    ) -> (out: Box<hir::PropertyDefinition>)
        requires
            def.well_formed(),
        ensures
            def.lowers_to(*out),
        decreases def,
    {
        let key = self.lower_property_key(&def.key);
        let value = match &def.value {
            Some(x) => Some(self.lower_expression(x)),
            None => None,
        };
        let decorators = self.lower_decorators(&def.decorators);
        Box::new(hir::PropertyDefinition {
            span: def.span,
            key,
            value,
            computed: def.computed,
            is_static: def.is_static,
            declare: def.declare,
            is_override: def.is_override,
            optional: def.optional,
            definite: def.definite,
            readonly: def.readonly,
            decorators,
        })
    }

    /// Lowers an accessor property.
    pub fn lower_accessor_property(
        &self,
        def: &ast::AccessorProperty,
    ) -> (out: Box<hir::AccessorProperty>)
        requires
            def.well_formed(),
        ensures
            def.lowers_to(*out),
        decreases def,
    {
        let key = self.lower_property_key(&def.key);
        let value = match &def.value {
            Some(x) => Some(self.lower_expression(x)),
            None => None,
        };
        Box::new(hir::AccessorProperty {
            span: def.span,
            key,
            value,
            computed: def.computed,
            is_static: def.is_static,
        })
    }

    /// Lowers a decorator.
    pub fn lower_decorator(&self, decorator: &ast::Decorator) -> (out: hir::Decorator)
        requires
            decorator.well_formed(),
        ensures
            decorator.lowers_to(out),
        decreases decorator,
    {
        let expression = self.lower_expression(&decorator.expression);
        hir::Decorator { span: decorator.span, expression }
    }

    /// Lowers a list of decorators, first to last.
    pub fn lower_decorators(&self, items: &Vec<ast::Decorator>) -> (out: Vec<hir::Decorator>)
        requires
            forall|i: int| 0 <= i < items@.len() ==> (#[trigger] items@[i]).well_formed(),
        ensures
            decorators_lower_to(items@, out@),
        decreases items,
    {
        let mut vec: Vec<hir::Decorator> = Vec::with_capacity(items.len());
        let mut i: usize = 0;
        while i < items.len()
            invariant
                i <= items.len(),
                vec@.len() == i,
                forall|j: int| 0 <= j < items@.len() ==> (#[trigger] items@[j]).well_formed(),
                forall|j: int| 0 <= j < i ==> (#[trigger] items@[j]).lowers_to(vec@[j]),
            decreases items.len() - i,
        {
            let item = self.lower_decorator(&items[i]);
            vec.push(item);
            i += 1;
        }
        vec
    }
}

} // verus!
