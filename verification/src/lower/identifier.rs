//! Lowering of identifiers.

use vstd::prelude::*;
use crate::ast;
use crate::hir;
use crate::lower::AstLower;

verus! {

impl AstLower {
    /// Lowers an identifier reference.
    pub fn lower_identifier_reference(
        &self,
        ident: &ast::IdentifierReference,
    ) -> (out: hir::IdentifierReference)
        ensures
            ident.lowers_to(out),
    {
        hir::IdentifierReference { span: ident.span, name: ident.name.clone() }
    }

    /// Lowers a private identifier.
    pub fn lower_private_identifier(
        &self,
        ident: &ast::PrivateIdentifier,
    ) -> (out: hir::PrivateIdentifier)
        ensures
            ident.lowers_to(out),
    {
        hir::PrivateIdentifier { span: ident.span, name: ident.name.clone() }
    }

    /// Lowers a label identifier.
    pub fn lower_label_identifier(
        &self,
        ident: &ast::LabelIdentifier,
    ) -> (out: hir::LabelIdentifier)
        ensures
            ident.lowers_to(out),
    {
        hir::LabelIdentifier { span: ident.span, name: ident.name.clone() }
    }

    /// Lowers an identifier name.
    pub fn lower_identifier_name(
        &self,
        ident: &ast::IdentifierName,
    ) -> (out: hir::IdentifierName)
        ensures
            ident.lowers_to(out),
    {
        hir::IdentifierName { span: ident.span, name: ident.name.clone() }
    }

    /// Lowers a binding identifier.
    pub fn lower_binding_identifier(
        &self,
        ident: &ast::BindingIdentifier,
    ) -> (out: hir::BindingIdentifier)
        ensures
            ident.lowers_to(out),
    {
        hir::BindingIdentifier { span: ident.span, name: ident.name.clone() }
    }
}

} // verus!
