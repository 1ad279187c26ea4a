//! What lowering a whole program means.

use vstd::prelude::*;
use crate::ast;
use crate::hir;
use crate::relation::statement::statements_lower_to;

verus! {

impl ast::Program {
    /// Holds when `h` is the lowering of this program.
    pub open spec fn lowers_to(&self, h: hir::Program) -> bool {
        &&& h.span == self.span
        &&& directives_lower_to(self.directives@, h.directives@)
        &&& statements_lower_to(self.body@, h.body@)
    }
}

impl ast::Directive {
    /// Holds when `h` is the lowering of this directive.
    pub open spec fn lowers_to(&self, h: hir::Directive) -> bool {
        &&& h.span == self.span
        &&& self.expression.lowers_to(h.expression)
        &&& h.directive@ == self.directive@
    }
}

/// Holds when `h` has the length of `s` and holds, at each position, the lowering of
/// what `s` holds there.
pub open spec fn directives_lower_to(s: Seq<ast::Directive>, h: Seq<hir::Directive>) -> bool {
    &&& h.len() == s.len()
    &&& forall|i: int| 0 <= i < s.len() ==> (#[trigger] s[i]).lowers_to(h[i])
}

} // verus!
