//! Lowering of import and export forms.

use vstd::prelude::*;
use crate::ast;
use crate::hir;
use crate::lower::AstLower;

verus! {

impl AstLower {
    /// Lowers an import or export form to a statement. A form that only concerns
    /// types gives nothing, and so does a default export of an erased
    /// declaration.
    pub fn lower_module_declaration(
        &self,
        decl: &ast::ModuleDeclaration,
    ) -> (out: Option<hir::Statement>)
        requires
            decl.well_formed(),
        ensures
            match out {
                Some(s) => {
                    &&& !decl.is_erased()
                    &&& s matches hir::Statement::ModuleDeclaration(h)
                    &&& decl.lowers_to(*h)
                },
                None => decl.is_erased(),
            },
            out matches Some(s) ==> s.span() == decl.span(),
        decreases decl,
    {
        let decl = match decl {
            ast::ModuleDeclaration::ImportDeclaration(decl) => {
                let decl = self.lower_import_declaration(decl);
                hir::ModuleDeclaration::ImportDeclaration(decl)
            },
            ast::ModuleDeclaration::ExportAllDeclaration(decl) => {
                let decl = self.lower_export_all_declaration(decl);
                hir::ModuleDeclaration::ExportAllDeclaration(decl)
            },
            ast::ModuleDeclaration::ExportDefaultDeclaration(decl) => {
                match self.lower_export_default_declaration(decl) {
                    Some(decl) => hir::ModuleDeclaration::ExportDefaultDeclaration(decl),
                    None => {
                        return None;
                    },
                }
            },
            ast::ModuleDeclaration::ExportNamedDeclaration(decl) => {
                let decl = self.lower_export_named_declaration(decl);
                hir::ModuleDeclaration::ExportNamedDeclaration(decl)
            },
            ast::ModuleDeclaration::TSExportAssignment(_)
            | ast::ModuleDeclaration::TSNamespaceExportDeclaration(_) => {
                return None;
            },
        };
        Some(hir::Statement::ModuleDeclaration(Box::new(decl)))
    }

    /// Lowers an import declaration.
    pub fn lower_import_declaration(
        &self,
        decl: &ast::ImportDeclaration,
    ) -> (out: Box<hir::ImportDeclaration>)
        ensures
            decl.lowers_to(*out),
    {
        let specifiers = self.lower_vec(&decl.specifiers, Self::lower_import_declaration_specifier);
        let source = self.lower_string_literal(&decl.source);
        let assertions = match &decl.assertions {
            Some(x) => Some(self.lower_vec(x, Self::lower_import_attribute)),
            None => None,
        };
        let import_kind = match decl.import_kind {
            ast::ImportOrExportKind::Value => hir::ImportOrExportKind::Value,
            ast::ImportOrExportKind::Type => hir::ImportOrExportKind::Type,
        };
        Box::new(hir::ImportDeclaration {
            span: decl.span,
            specifiers,
            source,
            assertions,
            import_kind,
        })
    }

    /// Lowers one entry of an import attribute list.
    pub fn lower_import_attribute(
        &self,
        attribute: &ast::ImportAttribute,
    ) -> (out: hir::ImportAttribute)
        ensures
            attribute.lowers_to(out),
    {
        let key = match &attribute.key {
            ast::ImportAttributeKey::Identifier(ident) => {
                let ident = self.lower_identifier_name(ident);
                hir::ImportAttributeKey::Identifier(ident)
            },
            ast::ImportAttributeKey::StringLiteral(lit) => {
                let lit = self.lower_string_literal(lit);
                hir::ImportAttributeKey::StringLiteral(lit)
            },
        };
        let value = self.lower_string_literal(&attribute.value);
        hir::ImportAttribute { span: attribute.span, key, value }
    }

    /// Lowers an import declaration specifier.
    pub fn lower_import_declaration_specifier(
        &self,
        specifier: &ast::ImportDeclarationSpecifier,
    ) -> (out: hir::ImportDeclarationSpecifier)
        ensures
            specifier.lowers_to(out),
    {
        match specifier {
            ast::ImportDeclarationSpecifier::ImportSpecifier(x) => {
                hir::ImportDeclarationSpecifier::ImportSpecifier(self.lower_import_specifier(x))
            },
            ast::ImportDeclarationSpecifier::ImportDefaultSpecifier(x) => {
                hir::ImportDeclarationSpecifier::ImportDefaultSpecifier(
                    self.lower_import_default_specifier(x),
                )
            },
            ast::ImportDeclarationSpecifier::ImportNamespaceSpecifier(x) => {
                hir::ImportDeclarationSpecifier::ImportNamespaceSpecifier(
                    self.lower_import_name_specifier(x),
                )
            },
        }
    }

    /// Lowers a module export name.
    pub fn lower_module_export_name(
        &self,
        name: &ast::ModuleExportName,
    ) -> (out: hir::ModuleExportName)
        ensures
            name.lowers_to(out),
    {
        match name {
            ast::ModuleExportName::Identifier(x) => {
                hir::ModuleExportName::Identifier(self.lower_identifier_name(x))
            },
            ast::ModuleExportName::StringLiteral(x) => {
                hir::ModuleExportName::StringLiteral(self.lower_string_literal(x))
            },
        }
    }

    /// Lowers an import specifier.
    pub fn lower_import_specifier(
        &self,
        specifier: &ast::ImportSpecifier,
    ) -> (out: hir::ImportSpecifier)
        ensures
            specifier.lowers_to(out),
    {
        let imported = self.lower_module_export_name(&specifier.imported);
        let local = self.lower_binding_identifier(&specifier.local);
        hir::ImportSpecifier { span: specifier.span, imported, local }
    }

    /// Lowers an import default specifier.
    pub fn lower_import_default_specifier(
        &self,
        specifier: &ast::ImportDefaultSpecifier,
    ) -> (out: hir::ImportDefaultSpecifier)
        ensures
            specifier.lowers_to(out),
    {
        let local = self.lower_binding_identifier(&specifier.local);
        hir::ImportDefaultSpecifier { span: specifier.span, local }
    }

    /// Lowers an import namespace specifier.
    pub fn lower_import_name_specifier(
        &self,
        specifier: &ast::ImportNamespaceSpecifier,
    ) -> (out: hir::ImportNamespaceSpecifier)
        ensures
            specifier.lowers_to(out),
    {
        let local = self.lower_binding_identifier(&specifier.local);
        hir::ImportNamespaceSpecifier { span: specifier.span, local }
    }

    /// Lowers an export all declaration.
    pub fn lower_export_all_declaration(
        &self,
        decl: &ast::ExportAllDeclaration,
    ) -> (out: Box<hir::ExportAllDeclaration>)
        ensures
            decl.lowers_to(*out),
    {
        let exported = match &decl.exported {
            Some(x) => Some(self.lower_module_export_name(x)),
            None => None,
        };
        let source = self.lower_string_literal(&decl.source);
        let assertions = match &decl.assertions {
            Some(x) => Some(self.lower_vec(x, Self::lower_import_attribute)),
            None => None,
        };
        let export_kind = match decl.export_kind {
            ast::ImportOrExportKind::Value => hir::ImportOrExportKind::Value,
            ast::ImportOrExportKind::Type => hir::ImportOrExportKind::Type,
        };
        Box::new(hir::ExportAllDeclaration {
            span: decl.span,
            exported,
            source,
            assertions,
            export_kind,
        })
    }

    /// Lowers a default export. Where what is exported is erased, the whole
    /// export is.
    pub fn lower_export_default_declaration(
        &self,
        decl: &ast::ExportDefaultDeclaration,
    ) -> (out: Option<Box<hir::ExportDefaultDeclaration>>)
        requires
            decl.well_formed(),
        ensures
            match out {
                Some(h) => !decl.is_erased() && decl.lowers_to(*h),
                None => decl.is_erased(),
            },
        decreases decl,
    {
        let declaration = match &decl.declaration {
            ast::ExportDefaultDeclarationKind::Expression(expr) => {
                let expr = self.lower_expression(expr);
                hir::ExportDefaultDeclarationKind::Expression(expr)
            },
            ast::ExportDefaultDeclarationKind::FunctionDeclaration(decl) => {
                let decl = self.lower_function(decl);
                hir::ExportDefaultDeclarationKind::FunctionDeclaration(decl)
            },
            ast::ExportDefaultDeclarationKind::ClassDeclaration(class) => {
                let class = self.lower_class(class);
                hir::ExportDefaultDeclarationKind::ClassDeclaration(class)
            },
            ast::ExportDefaultDeclarationKind::TSEnumDeclaration(_)
            | ast::ExportDefaultDeclarationKind::TSInterfaceDeclaration(_) => {
                return None;
            },
        };
        let exported = self.lower_module_export_name(&decl.exported);
        Some(Box::new(hir::ExportDefaultDeclaration { span: decl.span, declaration, exported }))
    }

    /// Lowers an export named declaration.
    pub fn lower_export_named_declaration(
        &self,
        decl: &ast::ExportNamedDeclaration,
    ) -> (out: Box<hir::ExportNamedDeclaration>)
        requires
            decl.well_formed(),
        ensures
            decl.lowers_to(*out),
        decreases decl,
    {
        let declaration = match &decl.declaration {
            Some(x) => self.lower_declaration(x),
            None => None,
        };
        let specifiers = self.lower_vec(&decl.specifiers, Self::lower_export_specifier);
        let source = match &decl.source {
            Some(x) => Some(self.lower_string_literal(x)),
            None => None,
        };
        let export_kind = match decl.export_kind {
            ast::ImportOrExportKind::Value => hir::ImportOrExportKind::Value,
            ast::ImportOrExportKind::Type => hir::ImportOrExportKind::Type,
        };
        Box::new(hir::ExportNamedDeclaration {
            span: decl.span,
            declaration,
            specifiers,
            source,
            export_kind,
        })
    }

    /// Lowers an export specifier.
    pub fn lower_export_specifier(
        &self,
        specifier: &ast::ExportSpecifier,
    ) -> (out: hir::ExportSpecifier)
        ensures
            specifier.lowers_to(out),
    {
        let local = self.lower_module_export_name(&specifier.local);
        let exported = self.lower_module_export_name(&specifier.exported);
        hir::ExportSpecifier { span: specifier.span, local, exported }
    }
}

} // verus!
