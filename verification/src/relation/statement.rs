//! What lowering a statement means.

use vstd::prelude::*;
use crate::ast;
use crate::hir;

verus! {

impl ast::Statement {
    /// Holds when this statement has no meaning at run time, so that lowering
    /// leaves it out.
    pub open spec fn is_erased(&self) -> bool {
        match self {
            ast::Statement::ModuleDeclaration(x) => x.is_erased(),
            ast::Statement::Declaration(x) => x.is_erased(),
            _ => false,
        }
    }

    /// Holds when `h` is the lowering of this statement.
    pub open spec fn lowers_to(&self, h: hir::Statement) -> bool
        decreases self, 0int,
    {
        match self {
            ast::Statement::BlockStatement(x) => {
                h matches hir::Statement::BlockStatement(y) && x.lowers_to(*y)
            },
            ast::Statement::BreakStatement(x) => {
                h matches hir::Statement::BreakStatement(y) && x.lowers_to(*y)
            },
            ast::Statement::ContinueStatement(x) => {
                h matches hir::Statement::ContinueStatement(y) && x.lowers_to(*y)
            },
            ast::Statement::DebuggerStatement(x) => {
                h matches hir::Statement::DebuggerStatement(y) && x.lowers_to(*y)
            },
            ast::Statement::DoWhileStatement(x) => {
                h matches hir::Statement::DoWhileStatement(y) && x.lowers_to(*y)
            },
            ast::Statement::EmptyStatement(x) => {
                h matches hir::Statement::EmptyStatement(y) && x.lowers_to(*y)
            },
            ast::Statement::ExpressionStatement(x) => {
                h matches hir::Statement::ExpressionStatement(y) && x.lowers_to(*y)
            },
            ast::Statement::ForInStatement(x) => {
                h matches hir::Statement::ForInStatement(y) && x.lowers_to(*y)
            },
            ast::Statement::ForOfStatement(x) => {
                h matches hir::Statement::ForOfStatement(y) && x.lowers_to(*y)
            },
            ast::Statement::ForStatement(x) => {
                h matches hir::Statement::ForStatement(y) && x.lowers_to(*y)
            },
            ast::Statement::IfStatement(x) => {
                h matches hir::Statement::IfStatement(y) && x.lowers_to(*y)
            },
            ast::Statement::LabeledStatement(x) => {
                h matches hir::Statement::LabeledStatement(y) && x.lowers_to(*y)
            },
            ast::Statement::ReturnStatement(x) => {
                h matches hir::Statement::ReturnStatement(y) && x.lowers_to(*y)
            },
            ast::Statement::SwitchStatement(x) => {
                h matches hir::Statement::SwitchStatement(y) && x.lowers_to(*y)
            },
            ast::Statement::ThrowStatement(x) => {
                h matches hir::Statement::ThrowStatement(y) && x.lowers_to(*y)
            },
            ast::Statement::TryStatement(x) => {
                h matches hir::Statement::TryStatement(y) && x.lowers_to(*y)
            },
            ast::Statement::WhileStatement(x) => {
                h matches hir::Statement::WhileStatement(y) && x.lowers_to(*y)
            },
            ast::Statement::WithStatement(x) => {
                h matches hir::Statement::WithStatement(y) && x.lowers_to(*y)
            },
            ast::Statement::ModuleDeclaration(x) => {
                h matches hir::Statement::ModuleDeclaration(y) && x.lowers_to(*y)
            },
            ast::Statement::Declaration(x) => {
                h matches hir::Statement::Declaration(y) && x.lowers_to(y)
            },
        }
    }

    /// Holds when `out` is what lowering gives for this statement where one may be
    /// left out: nothing for an erased statement, its lowering otherwise.
    pub open spec fn lowers_to_optional(&self, out: Option<hir::Statement>) -> bool
        decreases self, 1int,
    {
        match out {
            Some(h) => !self.is_erased() && self.lowers_to(h),
            None => self.is_erased(),
        }
    }

    /// Holds when `h` is what lowering gives for this statement where the parent
    /// needs one: an empty statement at the same position for an erased
    /// statement, its lowering otherwise.
    pub open spec fn lowers_to_or_empty(&self, h: hir::Statement) -> bool
        decreases self, 1int,
    {
        if self.is_erased() {
            h matches hir::Statement::EmptyStatement(e) && e.span == self.span()
        } else {
            self.lowers_to(h)
        }
    }
}

/// Holds when `h` is what is left of `s` after lowering: the erased statements are
/// dropped, every other one is lowered, and those stay in their order.
pub open spec fn statements_lower_to(s: Seq<ast::Statement>, h: Seq<hir::Statement>) -> bool
    decreases s,
{
    if s.len() == 0 {
        h.len() == 0
    } else if s.last().is_erased() {
        statements_lower_to(s.drop_last(), h)
    } else {
        &&& h.len() > 0
        &&& s.last().lowers_to(h.last())
        &&& statements_lower_to(s.drop_last(), h.drop_last())
    }
}

/// How many of the statements in `s` are erased.
pub open spec fn erased_statements(s: Seq<ast::Statement>) -> nat
    decreases s.len(),
{
    if s.len() == 0 {
        0
    } else if s.last().is_erased() {
        erased_statements(s.drop_last()) + 1
    } else {
        erased_statements(s.drop_last())
    }
}

impl ast::BlockStatement {
    /// Holds when `h` is the lowering of this block statement.
    pub open spec fn lowers_to(&self, h: hir::BlockStatement) -> bool
        decreases self,
    {
        &&& h.span == self.span
        &&& statements_lower_to(self.body@, h.body@)
    }
}

impl ast::BreakStatement {
    /// Holds when `h` is the lowering of this `break` statement.
    pub open spec fn lowers_to(&self, h: hir::BreakStatement) -> bool {
        &&& h.span == self.span
        &&& match self.label {
            Some(a) => h.label matches Some(b) && a.lowers_to(b),
            None => h.label is None,
        }
    }
}

impl ast::ContinueStatement {
    /// Holds when `h` is the lowering of this `continue` statement.
    pub open spec fn lowers_to(&self, h: hir::ContinueStatement) -> bool {
        &&& h.span == self.span
        &&& match self.label {
            Some(a) => h.label matches Some(b) && a.lowers_to(b),
            None => h.label is None,
        }
    }
}

impl ast::DebuggerStatement {
    /// Holds when `h` is the lowering of this `debugger` statement.
    pub open spec fn lowers_to(&self, h: hir::DebuggerStatement) -> bool {
        &&& h.span == self.span
    }
}

impl ast::DoWhileStatement {
    /// Holds when `h` is the lowering of this `do`-`while` statement.
    pub open spec fn lowers_to(&self, h: hir::DoWhileStatement) -> bool
        decreases self,
    {
        &&& h.span == self.span
        &&& self.body.lowers_to_or_empty(h.body)
        &&& self.test.lowers_to(h.test)
    }
}

impl ast::EmptyStatement {
    /// Holds when `h` is the lowering of this empty statement.
    pub open spec fn lowers_to(&self, h: hir::EmptyStatement) -> bool {
        &&& h.span == self.span
    }
}

impl ast::ExpressionStatement {
    /// Holds when `h` is the lowering of this expression statement.
    pub open spec fn lowers_to(&self, h: hir::ExpressionStatement) -> bool
        decreases self,
    {
        &&& h.span == self.span
        &&& self.expression.lowers_to(h.expression)
    }
}

impl ast::ForStatement {
    /// Holds when `h` is the lowering of this `for` statement.
    pub open spec fn lowers_to(&self, h: hir::ForStatement) -> bool
        decreases self,
    {
        &&& h.span == self.span
        &&& match self.init {
            Some(a) => h.init matches Some(b) && a.lowers_to(b),
            None => h.init is None,
        }
        &&& match self.test {
            Some(a) => h.test matches Some(b) && a.lowers_to(b),
            None => h.test is None,
        }
        &&& match self.update {
            Some(a) => h.update matches Some(b) && a.lowers_to(b),
            None => h.update is None,
        }
        &&& self.body.lowers_to_or_empty(h.body)
    }
}

impl ast::ForStatementInit {
    /// Holds when `h` is the lowering of this `for` initialiser.
    pub open spec fn lowers_to(&self, h: hir::ForStatementInit) -> bool
        decreases self,
    {
        match self {
            ast::ForStatementInit::VariableDeclaration(x) => {
                h matches hir::ForStatementInit::VariableDeclaration(y) && x.lowers_to(*y)
            },
            ast::ForStatementInit::Expression(x) => {
                h matches hir::ForStatementInit::Expression(y) && x.lowers_to(y)
            },
        }
    }
}

impl ast::ForInStatement {
    /// Holds when `h` is the lowering of this `for`-`in` statement.
    pub open spec fn lowers_to(&self, h: hir::ForInStatement) -> bool
        decreases self,
    {
        &&& h.span == self.span
        &&& self.left.lowers_to(h.left)
        &&& self.right.lowers_to(h.right)
        &&& self.body.lowers_to_or_empty(h.body)
    }
}

impl ast::ForOfStatement {
    /// Holds when `h` is the lowering of this `for`-`of` statement.
    pub open spec fn lowers_to(&self, h: hir::ForOfStatement) -> bool
        decreases self,
    {
        &&& h.span == self.span
        &&& h.is_await == self.is_await
        &&& self.left.lowers_to(h.left)
        &&& self.right.lowers_to(h.right)
        &&& self.body.lowers_to_or_empty(h.body)
    }
}

impl ast::ForStatementLeft {
    /// Holds when `h` is the lowering of this `for` left-hand side.
    pub open spec fn lowers_to(&self, h: hir::ForStatementLeft) -> bool
        decreases self,
    {
        match self {
            ast::ForStatementLeft::VariableDeclaration(x) => {
                h matches hir::ForStatementLeft::VariableDeclaration(y) && x.lowers_to(*y)
            },
            ast::ForStatementLeft::AssignmentTarget(x) => {
                h matches hir::ForStatementLeft::AssignmentTarget(y) && x.lowers_to(y)
            },
        }
    }
}

impl ast::IfStatement {
    /// Holds when `h` is the lowering of this `if` statement.
    pub open spec fn lowers_to(&self, h: hir::IfStatement) -> bool
        decreases self,
    {
        &&& h.span == self.span
        &&& self.test.lowers_to(h.test)
        &&& self.consequent.lowers_to_or_empty(h.consequent)
        &&& match self.alternate {
            Some(a) => h.alternate matches Some(b) && a.lowers_to_or_empty(b),
            None => h.alternate is None,
        }
    }
}

impl ast::LabeledStatement {
    /// Holds when `h` is the lowering of this labeled statement.
    pub open spec fn lowers_to(&self, h: hir::LabeledStatement) -> bool
        decreases self,
    {
        &&& h.span == self.span
        &&& self.label.lowers_to(h.label)
        &&& self.body.lowers_to_or_empty(h.body)
    }
}

impl ast::ReturnStatement {
    /// Holds when `h` is the lowering of this `return` statement.
    pub open spec fn lowers_to(&self, h: hir::ReturnStatement) -> bool
        decreases self,
    {
        &&& h.span == self.span
        &&& match self.argument {
            Some(a) => h.argument matches Some(b) && a.lowers_to(b),
            None => h.argument is None,
        }
    }
}

impl ast::SwitchStatement {
    /// Holds when `h` is the lowering of this `switch` statement.
    pub open spec fn lowers_to(&self, h: hir::SwitchStatement) -> bool
        decreases self,
    {
        &&& h.span == self.span
        &&& self.discriminant.lowers_to(h.discriminant)
        &&& switch_cases_lower_to(self.cases@, h.cases@)
    }
}

impl ast::SwitchCase {
    /// Holds when `h` is the lowering of this `switch` case.
    pub open spec fn lowers_to(&self, h: hir::SwitchCase) -> bool
        decreases self,
    {
        &&& h.span == self.span
        &&& match self.test {
            Some(a) => h.test matches Some(b) && a.lowers_to(b),
            None => h.test is None,
        }
        &&& statements_lower_to(self.consequent@, h.consequent@)
    }
}

/// Holds when `h` has the length of `s` and holds, at each position, the lowering of
/// what `s` holds there.
pub open spec fn switch_cases_lower_to(s: Seq<ast::SwitchCase>, h: Seq<hir::SwitchCase>) -> bool
    decreases s,
{
    &&& h.len() == s.len()
    &&& forall|i: int| 0 <= i < s.len() ==> (#[trigger] s[i]).lowers_to(h[i])
}

impl ast::ThrowStatement {
    /// Holds when `h` is the lowering of this `throw` statement.
    pub open spec fn lowers_to(&self, h: hir::ThrowStatement) -> bool
        decreases self,
    {
        &&& h.span == self.span
        &&& self.argument.lowers_to(h.argument)
    }
}

impl ast::TryStatement {
    /// Holds when `h` is the lowering of this `try` statement.
    pub open spec fn lowers_to(&self, h: hir::TryStatement) -> bool
        decreases self,
    {
        &&& h.span == self.span
        &&& self.block.lowers_to(*h.block)
        &&& match self.handler {
            Some(a) => h.handler matches Some(b) && a.lowers_to(*b),
            None => h.handler is None,
        }
        &&& match self.finalizer {
            Some(a) => h.finalizer matches Some(b) && a.lowers_to(*b),
            None => h.finalizer is None,
        }
    }
}

impl ast::CatchClause {
    /// Holds when `h` is the lowering of this `catch` clause.
    pub open spec fn lowers_to(&self, h: hir::CatchClause) -> bool
        decreases self,
    {
        &&& h.span == self.span
        &&& match self.param {
            Some(a) => h.param matches Some(b) && a.lowers_to(b),
            None => h.param is None,
        }
        &&& self.body.lowers_to(*h.body)
    }
}

impl ast::WhileStatement {
    /// Holds when `h` is the lowering of this `while` statement.
    pub open spec fn lowers_to(&self, h: hir::WhileStatement) -> bool
        decreases self,
    {
        &&& h.span == self.span
        &&& self.test.lowers_to(h.test)
        &&& self.body.lowers_to_or_empty(h.body)
    }
}

impl ast::WithStatement {
    /// Holds when `h` is the lowering of this `with` statement.
    pub open spec fn lowers_to(&self, h: hir::WithStatement) -> bool
        decreases self,
    {
        &&& h.span == self.span
        &&& self.object.lowers_to(h.object)
        &&& self.body.lowers_to_or_empty(h.body)
    }
}

} // verus!
