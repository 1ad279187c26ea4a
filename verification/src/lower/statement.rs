//! Lowering of statements.

use vstd::prelude::*;
use crate::ast;
use crate::hir;
use crate::lower::AstLower;
use crate::relation::statement::switch_cases_lower_to;

verus! {

impl AstLower {
    /// Lowers a statement where one may be left out. An erased statement gives
    /// nothing.
    pub fn lower_statement(
        &self,
        statement: &ast::Statement,
    ) -> (out: Option<hir::Statement>)
        requires
            statement.well_formed(),
        ensures
            statement.lowers_to_optional(out),
            out matches Some(h) ==> h.span() == statement.span(),
        decreases statement, 0int,
    {
        match statement {
            ast::Statement::BlockStatement(stmt) => Some(self.lower_block_statement(stmt)),
            ast::Statement::BreakStatement(stmt) => Some(self.lower_break_statement(stmt)),
            ast::Statement::ContinueStatement(stmt) => Some(self.lower_continue_statement(stmt)),
            ast::Statement::DebuggerStatement(stmt) => Some(self.lower_debugger_statement(stmt)),
            ast::Statement::DoWhileStatement(stmt) => Some(self.lower_do_while_statement(stmt)),
            ast::Statement::EmptyStatement(stmt) => Some(self.lower_empty_statement(stmt)),
            ast::Statement::ExpressionStatement(stmt) => {
                Some(self.lower_expression_statement(stmt))
            },
            ast::Statement::ForInStatement(stmt) => Some(self.lower_for_in_statement(stmt)),
            ast::Statement::ForOfStatement(stmt) => Some(self.lower_for_of_statement(stmt)),
            ast::Statement::ForStatement(stmt) => Some(self.lower_for_statement(stmt)),
            ast::Statement::IfStatement(stmt) => Some(self.lower_if_statement(stmt)),
            ast::Statement::LabeledStatement(stmt) => Some(self.lower_labeled_statement(stmt)),
            ast::Statement::ReturnStatement(stmt) => Some(self.lower_return_statement(stmt)),
            ast::Statement::SwitchStatement(stmt) => Some(self.lower_switch_statement(stmt)),
            ast::Statement::ThrowStatement(stmt) => Some(self.lower_throw_statement(stmt)),
            ast::Statement::TryStatement(stmt) => Some(self.lower_try_statement(stmt)),
            ast::Statement::WhileStatement(stmt) => Some(self.lower_while_statement(stmt)),
            ast::Statement::WithStatement(stmt) => Some(self.lower_with_statement(stmt)),
            ast::Statement::ModuleDeclaration(decl) => self.lower_module_declaration(decl),
            ast::Statement::Declaration(decl) => match self.lower_declaration(decl) {
                Some(decl) => Some(hir::Statement::Declaration(decl)),
                None => None,
            },
        }
    }

    /// Lowers a statement where the parent needs one. An erased statement gives
    /// an empty statement at the same position.
    pub fn lower_statement_or_empty(
        &self,
        statement: &ast::Statement,
    ) -> (out: hir::Statement)
        requires
            statement.well_formed(),
        ensures
            statement.lowers_to_or_empty(out),
            out.span() == statement.span(),
        decreases statement, 1int,
    {
        match self.lower_statement(statement) {
            Some(stmt) => stmt,
            None => {
                hir::Statement::EmptyStatement(
                    Box::new(hir::EmptyStatement { span: statement.span() }),
                )
            },
        }
    }

    /// Lowers a block that is part of another node.
    pub fn lower_block(&self, stmt: &ast::BlockStatement) -> (out: Box<hir::BlockStatement>)
        requires
            stmt.well_formed(),
        ensures
            stmt.lowers_to(*out),
        decreases stmt,
    {
        let body = self.lower_statements(&stmt.body);
        Box::new(hir::BlockStatement { span: stmt.span, body })
    }

    /// Lowers a block statement.
    pub fn lower_block_statement(&self, stmt: &ast::BlockStatement) -> (out: hir::Statement)
        requires
            stmt.well_formed(),
        ensures
            out matches hir::Statement::BlockStatement(h) && stmt.lowers_to(*h),
        decreases stmt,
    {
        let body = self.lower_statements(&stmt.body);
        hir::Statement::BlockStatement(Box::new(hir::BlockStatement { span: stmt.span, body }))
    }

    /// Lowers a `break` statement.
    pub fn lower_break_statement(&self, stmt: &ast::BreakStatement) -> (out: hir::Statement)
        ensures
            out matches hir::Statement::BreakStatement(h) && stmt.lowers_to(*h),
    {
        let label = match &stmt.label {
            Some(x) => Some(self.lower_label_identifier(x)),
            None => None,
        };
        hir::Statement::BreakStatement(Box::new(hir::BreakStatement { span: stmt.span, label }))
    }

    /// Lowers a `continue` statement.
    pub fn lower_continue_statement(
        &self,
        stmt: &ast::ContinueStatement,
    ) -> (out: hir::Statement)
        ensures
            out matches hir::Statement::ContinueStatement(h) && stmt.lowers_to(*h),
    {
        let label = match &stmt.label {
            Some(x) => Some(self.lower_label_identifier(x)),
            None => None,
        };
        hir::Statement::ContinueStatement(Box::new(hir::ContinueStatement {
            span: stmt.span,
            label,
        }))
    }

    /// Lowers a `debugger` statement.
    pub fn lower_debugger_statement(
        &self,
        stmt: &ast::DebuggerStatement,
    ) -> (out: hir::Statement)
        ensures
            out matches hir::Statement::DebuggerStatement(h) && stmt.lowers_to(*h),
    {
        hir::Statement::DebuggerStatement(Box::new(hir::DebuggerStatement { span: stmt.span }))
    }

    /// Lowers a `do`-`while` statement.
    pub fn lower_do_while_statement(
        &self,
        stmt: &ast::DoWhileStatement,
    ) -> (out: hir::Statement)
        requires
            stmt.well_formed(),
        ensures
            out matches hir::Statement::DoWhileStatement(h) && stmt.lowers_to(*h),
        decreases stmt,
    {
        let body = self.lower_statement_or_empty(&stmt.body);
        let test = self.lower_expression(&stmt.test);
        hir::Statement::DoWhileStatement(Box::new(hir::DoWhileStatement {
            span: stmt.span,
            body,
            test,
        }))
    }

    /// Lowers an empty statement.
    pub fn lower_empty_statement(&self, stmt: &ast::EmptyStatement) -> (out: hir::Statement)
        ensures
            out matches hir::Statement::EmptyStatement(h) && stmt.lowers_to(*h),
    {
        hir::Statement::EmptyStatement(Box::new(hir::EmptyStatement { span: stmt.span }))
    }

    /// Lowers an expression statement.
    pub fn lower_expression_statement(
        &self,
        stmt: &ast::ExpressionStatement,
    ) -> (out: hir::Statement)
        requires
            stmt.well_formed(),
        ensures
            out matches hir::Statement::ExpressionStatement(h) && stmt.lowers_to(*h),
        decreases stmt,
    {
        let expression = self.lower_expression(&stmt.expression);
        hir::Statement::ExpressionStatement(Box::new(hir::ExpressionStatement {
            span: stmt.span,
            expression,
        }))
    }

    /// Lowers a `for` statement.
    pub fn lower_for_statement(&self, stmt: &ast::ForStatement) -> (out: hir::Statement)
        requires
            stmt.well_formed(),
        ensures
            out matches hir::Statement::ForStatement(h) && stmt.lowers_to(*h),
        decreases stmt,
    {
        let init = match &stmt.init {
            Some(x) => Some(self.lower_for_statement_init(x)),
            None => None,
        };
        let test = match &stmt.test {
            Some(x) => Some(self.lower_expression(x)),
            None => None,
        };
        let update = match &stmt.update {
            Some(x) => Some(self.lower_expression(x)),
            None => None,
        };
        let body = self.lower_statement_or_empty(&stmt.body);
        hir::Statement::ForStatement(Box::new(hir::ForStatement {
            span: stmt.span,
            init,
            test,
            update,
            body,
        }))
    }

    /// Lowers a `for` initialiser.
    pub fn lower_for_statement_init(
        &self,
        init: &ast::ForStatementInit,
    ) -> (out: hir::ForStatementInit)
        requires
            init.well_formed(),
        ensures
            init.lowers_to(out),
        decreases init,
    {
        match init {
            ast::ForStatementInit::VariableDeclaration(x) => {
                hir::ForStatementInit::VariableDeclaration(self.lower_variable_declaration(x))
            },
            ast::ForStatementInit::Expression(x) => {
                hir::ForStatementInit::Expression(self.lower_expression(x))
            },
        }
    }

    /// Lowers a `for`-`in` statement.
    pub fn lower_for_in_statement(&self, stmt: &ast::ForInStatement) -> (out: hir::Statement)
        requires
            stmt.well_formed(),
        ensures
            out matches hir::Statement::ForInStatement(h) && stmt.lowers_to(*h),
        decreases stmt,
    {
        let left = self.lower_for_statement_left(&stmt.left);
        let right = self.lower_expression(&stmt.right);
        let body = self.lower_statement_or_empty(&stmt.body);
        hir::Statement::ForInStatement(Box::new(hir::ForInStatement {
            span: stmt.span,
            left,
            right,
            body,
        }))
    }

    /// Lowers a `for`-`of` statement.
    pub fn lower_for_of_statement(&self, stmt: &ast::ForOfStatement) -> (out: hir::Statement)
        requires
            stmt.well_formed(),
        ensures
            out matches hir::Statement::ForOfStatement(h) && stmt.lowers_to(*h),
        decreases stmt,
    {
        let left = self.lower_for_statement_left(&stmt.left);
        let right = self.lower_expression(&stmt.right);
        let body = self.lower_statement_or_empty(&stmt.body);
        hir::Statement::ForOfStatement(Box::new(hir::ForOfStatement {
            span: stmt.span,
            is_await: stmt.is_await,
            left,
            right,
            body,
        }))
    }

    /// Lowers a `for` left-hand side.
    pub fn lower_for_statement_left(
        &self,
        left: &ast::ForStatementLeft,
    ) -> (out: hir::ForStatementLeft)
        requires
            left.well_formed(),
        ensures
            left.lowers_to(out),
        decreases left,
    {
        match left {
            ast::ForStatementLeft::VariableDeclaration(x) => {
                hir::ForStatementLeft::VariableDeclaration(self.lower_variable_declaration(x))
            },
            ast::ForStatementLeft::AssignmentTarget(x) => {
                hir::ForStatementLeft::AssignmentTarget(self.lower_assignment_target(x))
            },
        }
    }

    /// Lowers an `if` statement. Both branches are positions that need a
    /// statement: where the `else` branch is erased, an empty statement stands in
    /// its place.
    pub fn lower_if_statement(&self, stmt: &ast::IfStatement) -> (out: hir::Statement)
        requires
            stmt.well_formed(),
        ensures
            out matches hir::Statement::IfStatement(h) && stmt.lowers_to(*h),
            out matches hir::Statement::IfStatement(h) ==> (h.alternate is Some
                <==> stmt.alternate is Some),
        decreases stmt,
    {
        let test = self.lower_expression(&stmt.test);
        let consequent = self.lower_statement_or_empty(&stmt.consequent);
        let alternate = match &stmt.alternate {
            Some(x) => Some(self.lower_statement_or_empty(x)),
            None => None,
        };
        hir::Statement::IfStatement(Box::new(hir::IfStatement {
            span: stmt.span,
            test,
            consequent,
            alternate,
        }))
    }

    /// Lowers a labeled statement.
    pub fn lower_labeled_statement(
        &self,
        stmt: &ast::LabeledStatement,
    ) -> (out: hir::Statement)
        requires
            stmt.well_formed(),
        ensures
            out matches hir::Statement::LabeledStatement(h) && stmt.lowers_to(*h),
        decreases stmt,
    {
        let label = self.lower_label_identifier(&stmt.label);
        let body = self.lower_statement_or_empty(&stmt.body);
        hir::Statement::LabeledStatement(Box::new(hir::LabeledStatement {
            span: stmt.span,
            label,
            body,
        }))
    }

    /// Lowers a `return` statement.
    pub fn lower_return_statement(
        &self,
        stmt: &ast::ReturnStatement,
    ) -> (out: hir::Statement)
        requires
            stmt.well_formed(),
        ensures
            out matches hir::Statement::ReturnStatement(h) && stmt.lowers_to(*h),
        decreases stmt,
    {
        let argument = match &stmt.argument {
            Some(x) => Some(self.lower_expression(x)),
            None => None,
        };
        hir::Statement::ReturnStatement(Box::new(hir::ReturnStatement {
            span: stmt.span,
            argument,
        }))
    }

    /// Lowers a `switch` statement.
    pub fn lower_switch_statement(
        &self,
        stmt: &ast::SwitchStatement,
    ) -> (out: hir::Statement)
        requires
            stmt.well_formed(),
        ensures
            out matches hir::Statement::SwitchStatement(h) && stmt.lowers_to(*h),
        decreases stmt,
    {
        let discriminant = self.lower_expression(&stmt.discriminant);
        let cases = self.lower_switch_cases(&stmt.cases);
        hir::Statement::SwitchStatement(Box::new(hir::SwitchStatement {
            span: stmt.span,
            discriminant,
            cases,
        }))
    }

    /// Lowers a `switch` case.
    pub fn lower_switch_case(&self, case: &ast::SwitchCase) -> (out: hir::SwitchCase)
        requires
            case.well_formed(),
        ensures
            case.lowers_to(out),
        decreases case,
    {
        let test = match &case.test {
            Some(x) => Some(self.lower_expression(x)),
            None => None,
        };
        let consequent = self.lower_statements(&case.consequent);
        hir::SwitchCase { span: case.span, test, consequent }
    }

    /// Lowers a list of `switch` cases, first to last.
    pub fn lower_switch_cases(
        &self,
        items: &Vec<ast::SwitchCase>,
    ) -> (out: Vec<hir::SwitchCase>)
        requires
            forall|i: int| 0 <= i < items@.len() ==> (#[trigger] items@[i]).well_formed(),
        ensures
            switch_cases_lower_to(items@, out@),
        decreases items,
    {
        let mut vec: Vec<hir::SwitchCase> = Vec::with_capacity(items.len());
        let mut i: usize = 0;
        while i < items.len()
            invariant
                i <= items.len(),
                vec@.len() == i,
                forall|j: int| 0 <= j < items@.len() ==> (#[trigger] items@[j]).well_formed(),
                forall|j: int| 0 <= j < i ==> (#[trigger] items@[j]).lowers_to(vec@[j]),
            decreases items.len() - i,
        {
            let item = self.lower_switch_case(&items[i]);
            vec.push(item);
            i += 1;
        }
        vec
    }

    /// Lowers a `throw` statement.
    pub fn lower_throw_statement(&self, stmt: &ast::ThrowStatement) -> (out: hir::Statement)
        requires
            stmt.well_formed(),
        ensures
            out matches hir::Statement::ThrowStatement(h) && stmt.lowers_to(*h),
        decreases stmt,
    {
        let argument = self.lower_expression(&stmt.argument);
        hir::Statement::ThrowStatement(Box::new(hir::ThrowStatement {
            span: stmt.span,
            argument,
        }))
    }

    /// Lowers a `try` statement.
    pub fn lower_try_statement(&self, stmt: &ast::TryStatement) -> (out: hir::Statement)
        requires
            stmt.well_formed(),
        ensures
            out matches hir::Statement::TryStatement(h) && stmt.lowers_to(*h),
        decreases stmt,
    {
        let block = self.lower_block(&stmt.block);
        let handler = match &stmt.handler {
            Some(x) => Some(self.lower_catch_clause(x)),
            None => None,
        };
        let finalizer = match &stmt.finalizer {
            Some(x) => Some(self.lower_block(x)),
            None => None,
        };
        hir::Statement::TryStatement(Box::new(hir::TryStatement {
            span: stmt.span,
            block,
            handler,
            finalizer,
        }))
    }

    /// Lowers a `catch` clause.
    pub fn lower_catch_clause(
        &self,
        clause: &ast::CatchClause,
    ) -> (out: Box<hir::CatchClause>)
        requires
            clause.well_formed(),
        ensures
            clause.lowers_to(*out),
        decreases clause,
    {
        let param = match &clause.param {
            Some(x) => Some(self.lower_binding_pattern(x)),
            None => None,
        };
        let body = self.lower_block(&clause.body);
        Box::new(hir::CatchClause { span: clause.span, param, body })
    }

    /// Lowers a `while` statement.
    pub fn lower_while_statement(&self, stmt: &ast::WhileStatement) -> (out: hir::Statement)
        requires
            stmt.well_formed(),
        ensures
            out matches hir::Statement::WhileStatement(h) && stmt.lowers_to(*h),
        decreases stmt,
    {
        let test = self.lower_expression(&stmt.test);
        let body = self.lower_statement_or_empty(&stmt.body);
        hir::Statement::WhileStatement(Box::new(hir::WhileStatement {
            span: stmt.span,
            test,
            body,
        }))
    }

    /// Lowers a `with` statement.
    pub fn lower_with_statement(&self, stmt: &ast::WithStatement) -> (out: hir::Statement)
        requires
            stmt.well_formed(),
        ensures
            out matches hir::Statement::WithStatement(h) && stmt.lowers_to(*h),
        decreases stmt,
    {
        let object = self.lower_expression(&stmt.object);
        let body = self.lower_statement_or_empty(&stmt.body);
        hir::Statement::WithStatement(Box::new(hir::WithStatement {
            span: stmt.span,
            object,
            body,
        }))
    }
}

} // verus!
