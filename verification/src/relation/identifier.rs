//! What lowering an identifier means.

use vstd::prelude::*;
use crate::ast;
use crate::hir;
use crate::source::atom_chars;

verus! {

impl ast::IdentifierReference {
    /// Holds when `h` is the lowering of this identifier reference.
    pub open spec fn lowers_to(&self, h: hir::IdentifierReference) -> bool {
        &&& h.span == self.span
        &&& atom_chars(h.name) == atom_chars(self.name)
    }
}

impl ast::PrivateIdentifier {
    /// Holds when `h` is the lowering of this private identifier.
    pub open spec fn lowers_to(&self, h: hir::PrivateIdentifier) -> bool {
        &&& h.span == self.span
        &&& atom_chars(h.name) == atom_chars(self.name)
    }
}

impl ast::LabelIdentifier {
    /// Holds when `h` is the lowering of this label identifier.
    pub open spec fn lowers_to(&self, h: hir::LabelIdentifier) -> bool {
        &&& h.span == self.span
        &&& atom_chars(h.name) == atom_chars(self.name)
    }
}

impl ast::IdentifierName {
    /// Holds when `h` is the lowering of this identifier name.
    pub open spec fn lowers_to(&self, h: hir::IdentifierName) -> bool {
        &&& h.span == self.span
        &&& atom_chars(h.name) == atom_chars(self.name)
    }
}

impl ast::BindingIdentifier {
    /// Holds when `h` is the lowering of this binding identifier.
    pub open spec fn lowers_to(&self, h: hir::BindingIdentifier) -> bool {
        &&& h.span == self.span
        &&& atom_chars(h.name) == atom_chars(self.name)
    }
}

} // verus!
