//! What lowering an import or export form means.

use vstd::prelude::*;
use crate::ast;
use crate::hir;

verus! {

impl ast::ImportOrExportKind {
    /// The tag of the reduced tree that means the same.
    pub open spec fn lowered(self) -> hir::ImportOrExportKind {
        match self {
            ast::ImportOrExportKind::Value => hir::ImportOrExportKind::Value,
            ast::ImportOrExportKind::Type => hir::ImportOrExportKind::Type,
        }
    }
}

impl ast::ModuleDeclaration {
    /// Holds when this module declaration has no meaning at run time, so that lowering
    /// leaves it out.
    pub open spec fn is_erased(&self) -> bool {
        match self {
            ast::ModuleDeclaration::ExportDefaultDeclaration(x) => x.is_erased(),
            ast::ModuleDeclaration::TSExportAssignment(_) => true,
            ast::ModuleDeclaration::TSNamespaceExportDeclaration(_) => true,
            _ => false,
        }
    }

    /// Holds when `h` is the lowering of this module declaration.
    pub open spec fn lowers_to(&self, h: hir::ModuleDeclaration) -> bool
        decreases self,
    {
        match self {
            ast::ModuleDeclaration::ImportDeclaration(x) => {
                h matches hir::ModuleDeclaration::ImportDeclaration(y) && x.lowers_to(*y)
            },
            ast::ModuleDeclaration::ExportAllDeclaration(x) => {
                h matches hir::ModuleDeclaration::ExportAllDeclaration(y) && x.lowers_to(*y)
            },
            ast::ModuleDeclaration::ExportDefaultDeclaration(x) => {
                h matches hir::ModuleDeclaration::ExportDefaultDeclaration(y) && x.lowers_to(*y)
            },
            ast::ModuleDeclaration::ExportNamedDeclaration(x) => {
                h matches hir::ModuleDeclaration::ExportNamedDeclaration(y) && x.lowers_to(*y)
            },
            ast::ModuleDeclaration::TSExportAssignment(_) => false,
            ast::ModuleDeclaration::TSNamespaceExportDeclaration(_) => false,
        }
    }
}

impl ast::ImportDeclaration {
    /// Holds when `h` is the lowering of this import declaration.
    pub open spec fn lowers_to(&self, h: hir::ImportDeclaration) -> bool {
        &&& h.span == self.span
        &&& import_declaration_specifiers_lower_to(self.specifiers@, h.specifiers@)
        &&& self.source.lowers_to(h.source)
        &&& match self.assertions {
            Some(a) => {
                h.assertions matches Some(b) && import_attributes_lower_to(a@, b@)
            },
            None => h.assertions is None,
        }
        &&& h.import_kind == self.import_kind.lowered()
    }
}

impl ast::ImportAttribute {
    /// Holds when `h` is the lowering of this import attribute.
    pub open spec fn lowers_to(&self, h: hir::ImportAttribute) -> bool {
        &&& h.span == self.span
        &&& self.key.lowers_to(h.key)
        &&& self.value.lowers_to(h.value)
    }
}

/// Holds when `h` has the length of `s` and holds, at each position, the lowering of
/// what `s` holds there.
pub open spec fn import_attributes_lower_to(
    s: Seq<ast::ImportAttribute>,
    h: Seq<hir::ImportAttribute>,
) -> bool {
    &&& h.len() == s.len()
    &&& forall|i: int| 0 <= i < s.len() ==> (#[trigger] s[i]).lowers_to(h[i])
}

impl ast::ImportAttributeKey {
    /// Holds when `h` is the lowering of this import attribute key.
    pub open spec fn lowers_to(&self, h: hir::ImportAttributeKey) -> bool {
        match self {
            ast::ImportAttributeKey::Identifier(x) => {
                h matches hir::ImportAttributeKey::Identifier(y) && x.lowers_to(y)
            },
            ast::ImportAttributeKey::StringLiteral(x) => {
                h matches hir::ImportAttributeKey::StringLiteral(y) && x.lowers_to(y)
            },
        }
    }
}

impl ast::ImportDeclarationSpecifier {
    /// Holds when `h` is the lowering of this import declaration specifier.
    pub open spec fn lowers_to(&self, h: hir::ImportDeclarationSpecifier) -> bool {
        match self {
            ast::ImportDeclarationSpecifier::ImportSpecifier(x) => {
                h matches hir::ImportDeclarationSpecifier::ImportSpecifier(y) && x.lowers_to(y)
            },
            ast::ImportDeclarationSpecifier::ImportDefaultSpecifier(x) => {
                h matches hir::ImportDeclarationSpecifier::ImportDefaultSpecifier(y)
                    && x.lowers_to(y)
            },
            ast::ImportDeclarationSpecifier::ImportNamespaceSpecifier(x) => {
                h matches hir::ImportDeclarationSpecifier::ImportNamespaceSpecifier(y)
                    && x.lowers_to(y)
            },
        }
    }
}

/// Holds when `h` has the length of `s` and holds, at each position, the lowering of
/// what `s` holds there.
pub open spec fn import_declaration_specifiers_lower_to(
    s: Seq<ast::ImportDeclarationSpecifier>,
    h: Seq<hir::ImportDeclarationSpecifier>,
) -> bool {
    &&& h.len() == s.len()
    &&& forall|i: int| 0 <= i < s.len() ==> (#[trigger] s[i]).lowers_to(h[i])
}

impl ast::ModuleExportName {
    /// Holds when `h` is the lowering of this module export name.
    pub open spec fn lowers_to(&self, h: hir::ModuleExportName) -> bool {
        match self {
            ast::ModuleExportName::Identifier(x) => {
                h matches hir::ModuleExportName::Identifier(y) && x.lowers_to(y)
            },
            ast::ModuleExportName::StringLiteral(x) => {
                h matches hir::ModuleExportName::StringLiteral(y) && x.lowers_to(y)
            },
        }
    }
}

impl ast::ImportSpecifier {
    /// Holds when `h` is the lowering of this import specifier.
    pub open spec fn lowers_to(&self, h: hir::ImportSpecifier) -> bool {
        &&& h.span == self.span
        &&& self.imported.lowers_to(h.imported)
        &&& self.local.lowers_to(h.local)
    }
}

impl ast::ImportDefaultSpecifier {
    /// Holds when `h` is the lowering of this import default specifier.
    pub open spec fn lowers_to(&self, h: hir::ImportDefaultSpecifier) -> bool {
        &&& h.span == self.span
        &&& self.local.lowers_to(h.local)
    }
}

impl ast::ImportNamespaceSpecifier {
    /// Holds when `h` is the lowering of this import namespace specifier.
    pub open spec fn lowers_to(&self, h: hir::ImportNamespaceSpecifier) -> bool {
        &&& h.span == self.span
        &&& self.local.lowers_to(h.local)
    }
}

impl ast::ExportAllDeclaration {
    /// Holds when `h` is the lowering of this export all declaration.
    pub open spec fn lowers_to(&self, h: hir::ExportAllDeclaration) -> bool {
        &&& h.span == self.span
        &&& match self.exported {
            Some(a) => h.exported matches Some(b) && a.lowers_to(b),
            None => h.exported is None,
        }
        &&& self.source.lowers_to(h.source)
        &&& match self.assertions {
            Some(a) => {
                h.assertions matches Some(b) && import_attributes_lower_to(a@, b@)
            },
            None => h.assertions is None,
        }
        &&& h.export_kind == self.export_kind.lowered()
    }
}

impl ast::ExportDefaultDeclaration {
    /// Holds when this export default declaration has no meaning at run time, so that lowering
    /// leaves it out.
    pub open spec fn is_erased(&self) -> bool {
        self.declaration.is_erased()
    }

    /// Holds when `h` is the lowering of this export default declaration.
    pub open spec fn lowers_to(&self, h: hir::ExportDefaultDeclaration) -> bool
        decreases self,
    {
        &&& h.span == self.span
        &&& self.declaration.lowers_to(h.declaration)
        &&& self.exported.lowers_to(h.exported)
    }
}

impl ast::ExportDefaultDeclarationKind {
    /// Holds when this export default declaration kind has no meaning at run time, so that lowering
    /// leaves it out.
    pub open spec fn is_erased(&self) -> bool {
        match self {
            ast::ExportDefaultDeclarationKind::TSEnumDeclaration(_) => true,
            ast::ExportDefaultDeclarationKind::TSInterfaceDeclaration(_) => true,
            _ => false,
        }
    }

    /// Holds when `h` is the lowering of this export default declaration kind.
    pub open spec fn lowers_to(&self, h: hir::ExportDefaultDeclarationKind) -> bool
        decreases self,
    {
        match self {
            ast::ExportDefaultDeclarationKind::Expression(x) => {
                h matches hir::ExportDefaultDeclarationKind::Expression(y) && x.lowers_to(y)
            },
            ast::ExportDefaultDeclarationKind::FunctionDeclaration(x) => {
                h matches hir::ExportDefaultDeclarationKind::FunctionDeclaration(y)
                    && x.lowers_to(*y)
            },
            ast::ExportDefaultDeclarationKind::ClassDeclaration(x) => {
                h matches hir::ExportDefaultDeclarationKind::ClassDeclaration(y) && x.lowers_to(*y)
            },
            ast::ExportDefaultDeclarationKind::TSEnumDeclaration(_) => false,
            ast::ExportDefaultDeclarationKind::TSInterfaceDeclaration(_) => false,
        }
    }
}

impl ast::ExportNamedDeclaration {
    /// Holds when `h` is the lowering of this export named declaration.
    pub open spec fn lowers_to(&self, h: hir::ExportNamedDeclaration) -> bool
        decreases self,
    {
        &&& h.span == self.span
        &&& match self.declaration {
            Some(a) => a.lowers_to_optional(h.declaration),
            None => h.declaration is None,
        }
        &&& export_specifiers_lower_to(self.specifiers@, h.specifiers@)
        &&& match self.source {
            Some(a) => h.source matches Some(b) && a.lowers_to(b),
            None => h.source is None,
        }
        &&& h.export_kind == self.export_kind.lowered()
    }
}

impl ast::ExportSpecifier {
    /// Holds when `h` is the lowering of this export specifier.
    pub open spec fn lowers_to(&self, h: hir::ExportSpecifier) -> bool {
        &&& h.span == self.span
        &&& self.local.lowers_to(h.local)
        &&& self.exported.lowers_to(h.exported)
    }
}

/// Holds when `h` has the length of `s` and holds, at each position, the lowering of
/// what `s` holds there.
pub open spec fn export_specifiers_lower_to(
    s: Seq<ast::ExportSpecifier>,
    h: Seq<hir::ExportSpecifier>,
) -> bool {
    &&& h.len() == s.len()
    &&& forall|i: int| 0 <= i < s.len() ==> (#[trigger] s[i]).lowers_to(h[i])
}

} // verus!
