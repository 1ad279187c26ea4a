//! Lowering: from the syntax tree to the reduced tree.
//!
//! [`AstLower`] walks a syntax tree once, top down and left to right, and
//! builds the reduced tree. What it builds is fixed by the relation in
//! [`crate::relation`]: every function here ensures that its result is the
//! lowering of its argument.

use vstd::prelude::*;
use crate::ast;
use crate::hir;
use crate::laws::list::lemma_statements_length;
use crate::relation::statement::{erased_statements, statements_lower_to};

mod declaration;
mod expression;
mod identifier;
mod literal;
mod module;
mod pattern;
mod statement;
mod target;

verus! {

/// The lowering pass. It keeps no state from one call to the next.
pub struct AstLower {}

impl AstLower {
    /// Makes a lowering pass.
    pub fn new() -> (lower: AstLower) {
        AstLower {}
    }

    /// Lowers a whole program. The body of the result holds the statements of
    /// the program that are not erased, lowered and in their order.
    pub fn build(self, program: &ast::Program) -> (out: hir::Program)
        requires
            program.well_formed(),
        ensures
            program.lowers_to(out),
            out.body@.len() == program.body@.len() - erased_statements(program.body@),
    {
        self.lower_program(program)
    }

    /// Applies `cb` to every item of `items`, first to last, and collects the
    /// results in the same order.
    pub fn lower_vec<T, R, F>(&self, items: &Vec<T>, cb: F) -> (out: Vec<R>) where
        F: Fn(&Self, &T) -> R,

        requires
            forall|i: int|
                0 <= i < items@.len() ==> call_requires(cb, (self, #[trigger] &items@[i])),
        ensures
            out@.len() == items@.len(),
            forall|i: int|
                0 <= i < items@.len() ==> call_ensures(cb, (self, &items@[i]), #[trigger] out@[i]),
    {
        let mut vec: Vec<R> = Vec::with_capacity(items.len());
        let mut i: usize = 0;
        while i < items.len()
            invariant
                i <= items.len(),
                vec@.len() == i,
                forall|j: int|
                    0 <= j < items@.len() ==> call_requires(cb, (self, #[trigger] &items@[j])),
                forall|j: int|
                    0 <= j < i ==> call_ensures(cb, (self, &items@[j]), #[trigger] vec@[j]),
            decreases items.len() - i,
        {
            let item = cb(self, &items[i]);
            vec.push(item);
            i += 1;
        }
        vec
    }

    /// Lowers a list of statements. Erased statements are dropped; the others
    /// keep their order.
    pub fn lower_statements(&self, stmts: &Vec<ast::Statement>) -> (out: Vec<hir::Statement>)
        requires
            forall|i: int| 0 <= i < stmts@.len() ==> (#[trigger] stmts@[i]).well_formed(),
        ensures
            statements_lower_to(stmts@, out@),
            out@.len() == stmts@.len() - erased_statements(stmts@),
        decreases stmts,
    {
        let mut vec: Vec<hir::Statement> = Vec::with_capacity(stmts.len());
        let mut i: usize = 0;
        while i < stmts.len()
            invariant
                i <= stmts.len(),
                forall|j: int| 0 <= j < stmts@.len() ==> (#[trigger] stmts@[j]).well_formed(),
                statements_lower_to(stmts@.take(i as int), vec@),
            decreases stmts.len() - i,
        {
            let ghost before = vec@;
            if let Some(stmt) = self.lower_statement(&stmts[i]) {
                vec.push(stmt);
            }
            proof {
                let next = stmts@.take(i + 1);
                assert(next.drop_last() =~= stmts@.take(i as int));
                assert(next.last() == stmts@[i as int]);
                if !stmts@[i as int].is_erased() {
                    assert(vec@.drop_last() =~= before);
                }
            }
            i += 1;
        }
        assert(stmts@.take(stmts.len() as int) =~= stmts@);
        proof {
            lemma_statements_length(stmts@, vec@);
        }
        vec
    }

    /// Lowers a program: its directives one by one, its statements as a list.
    pub fn lower_program(&self, program: &ast::Program) -> (out: hir::Program)
        requires
            program.well_formed(),
        ensures
            program.lowers_to(out),
            out.body@.len() == program.body@.len() - erased_statements(program.body@),
    {
        let directives = self.lower_vec(&program.directives, Self::lower_directive);
        let body = self.lower_statements(&program.body);
        hir::Program { span: program.span, directives, body }
    }

    /// Lowers a directive.
    pub fn lower_directive(&self, directive: &ast::Directive) -> (out: hir::Directive)
        ensures
            directive.lowers_to(out),
    {
        let expression = self.lower_string_literal(&directive.expression);
        hir::Directive { span: directive.span, expression, directive: directive.directive.clone() }
    }
}

} // verus!
