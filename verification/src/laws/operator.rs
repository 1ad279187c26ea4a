//! Laws of tags: an operator or kind tag of the syntax tree and the tag it lowers
//! to mean the same.

use vstd::prelude::*;
use crate::ast;

verus! {

/// Lowering keeps the symbol of an assignment operator: printing the lowered tag gives back what
/// was written.
pub proof fn lemma_assignment_operator_keeps_symbol(op: ast::AssignmentOperator)
    ensures
        op.lowered().symbol() == op.symbol(),
{
}

/// Two assignment operators that lower to the same tag are the same operator.
pub proof fn lemma_assignment_operator_is_injective(
    a: ast::AssignmentOperator,
    b: ast::AssignmentOperator,
)
    requires
        a.lowered() == b.lowered(),
    ensures
        a == b,
{
}

/// Two assignment operators written with the same symbol are the same operator: within the
/// family a symbol has one meaning.
pub proof fn lemma_assignment_operator_symbols_differ(
    a: ast::AssignmentOperator,
    b: ast::AssignmentOperator,
)
    requires
        a.symbol() == b.symbol(),
    ensures
        a == b,
{
    reveal_strlit("=");
    reveal_strlit("+=");
    reveal_strlit("-=");
    reveal_strlit("*=");
    reveal_strlit("/=");
    reveal_strlit("%=");
    reveal_strlit("<<=");
    reveal_strlit(">>=");
    reveal_strlit(">>>=");
    reveal_strlit("|=");
    reveal_strlit("^=");
    reveal_strlit("&=");
    reveal_strlit("&&=");
    reveal_strlit("||=");
    reveal_strlit("??=");
    reveal_strlit("**=");
    let s = a.symbol();
    let t = b.symbol();
    assert(s.len() == t.len());
    if s.len() > 0 {
        assert(s[0] == t[0]);
    }
    if s.len() > 1 {
        assert(s[1] == t[1]);
    }
    if s.len() > 2 {
        assert(s[2] == t[2]);
    }
}

/// Lowering keeps the symbol of a binary operator: printing the lowered tag gives back what
/// was written.
pub proof fn lemma_binary_operator_keeps_symbol(op: ast::BinaryOperator)
    ensures
        op.lowered().symbol() == op.symbol(),
{
}

/// Two binary operators that lower to the same tag are the same operator.
pub proof fn lemma_binary_operator_is_injective(a: ast::BinaryOperator, b: ast::BinaryOperator)
    requires
        a.lowered() == b.lowered(),
    ensures
        a == b,
{
}

/// Two binary operators written with the same symbol are the same operator: within the
/// family a symbol has one meaning.
pub proof fn lemma_binary_operator_symbols_differ(a: ast::BinaryOperator, b: ast::BinaryOperator)
    requires
        a.symbol() == b.symbol(),
    ensures
        a == b,
{
    reveal_strlit("==");
    reveal_strlit("!=");
    reveal_strlit("===");
    reveal_strlit("!==");
    reveal_strlit("<");
    reveal_strlit("<=");
    reveal_strlit(">");
    reveal_strlit(">=");
    reveal_strlit("<<");
    reveal_strlit(">>");
    reveal_strlit(">>>");
    reveal_strlit("+");
    reveal_strlit("-");
    reveal_strlit("*");
    reveal_strlit("/");
    reveal_strlit("%");
    reveal_strlit("|");
    reveal_strlit("^");
    reveal_strlit("&");
    reveal_strlit("in");
    reveal_strlit("instanceof");
    reveal_strlit("**");
    let s = a.symbol();
    let t = b.symbol();
    assert(s.len() == t.len());
    if s.len() > 0 {
        assert(s[0] == t[0]);
    }
    if s.len() > 1 {
        assert(s[1] == t[1]);
    }
    if s.len() > 2 {
        assert(s[2] == t[2]);
    }
}

/// Lowering keeps the symbol of a logical operator: printing the lowered tag gives back what
/// was written.
pub proof fn lemma_logical_operator_keeps_symbol(op: ast::LogicalOperator)
    ensures
        op.lowered().symbol() == op.symbol(),
{
}

/// Two logical operators that lower to the same tag are the same operator.
pub proof fn lemma_logical_operator_is_injective(a: ast::LogicalOperator, b: ast::LogicalOperator)
    requires
        a.lowered() == b.lowered(),
    ensures
        a == b,
{
}

/// Two logical operators written with the same symbol are the same operator: within the
/// family a symbol has one meaning.
pub proof fn lemma_logical_operator_symbols_differ(a: ast::LogicalOperator, b: ast::LogicalOperator)
    requires
        a.symbol() == b.symbol(),
    ensures
        a == b,
{
    reveal_strlit("||");
    reveal_strlit("&&");
    reveal_strlit("??");
    let s = a.symbol();
    let t = b.symbol();
    assert(s.len() == t.len());
    if s.len() > 0 {
        assert(s[0] == t[0]);
    }
    if s.len() > 1 {
        assert(s[1] == t[1]);
    }
}

/// Lowering keeps the symbol of an unary operator: printing the lowered tag gives back what
/// was written.
pub proof fn lemma_unary_operator_keeps_symbol(op: ast::UnaryOperator)
    ensures
        op.lowered().symbol() == op.symbol(),
{
}

/// Two unary operators that lower to the same tag are the same operator.
pub proof fn lemma_unary_operator_is_injective(a: ast::UnaryOperator, b: ast::UnaryOperator)
    requires
        a.lowered() == b.lowered(),
    ensures
        a == b,
{
}

/// Two unary operators written with the same symbol are the same operator: within the
/// family a symbol has one meaning.
pub proof fn lemma_unary_operator_symbols_differ(a: ast::UnaryOperator, b: ast::UnaryOperator)
    requires
        a.symbol() == b.symbol(),
    ensures
        a == b,
{
    reveal_strlit("-");
    reveal_strlit("+");
    reveal_strlit("!");
    reveal_strlit("~");
    reveal_strlit("typeof");
    reveal_strlit("void");
    reveal_strlit("delete");
    let s = a.symbol();
    let t = b.symbol();
    assert(s.len() == t.len());
    if s.len() > 0 {
        assert(s[0] == t[0]);
    }
    if s.len() > 1 {
        assert(s[1] == t[1]);
    }
    if s.len() > 2 {
        assert(s[2] == t[2]);
    }
    if s.len() > 3 {
        assert(s[3] == t[3]);
    }
    if s.len() > 4 {
        assert(s[4] == t[4]);
    }
    if s.len() > 5 {
        assert(s[5] == t[5]);
    }
}

/// Lowering keeps the symbol of an update operator: printing the lowered tag gives back what
/// was written.
pub proof fn lemma_update_operator_keeps_symbol(op: ast::UpdateOperator)
    ensures
        op.lowered().symbol() == op.symbol(),
{
}

/// Two update operators that lower to the same tag are the same operator.
pub proof fn lemma_update_operator_is_injective(a: ast::UpdateOperator, b: ast::UpdateOperator)
    requires
        a.lowered() == b.lowered(),
    ensures
        a == b,
{
}

/// Two update operators written with the same symbol are the same operator: within the
/// family a symbol has one meaning.
pub proof fn lemma_update_operator_symbols_differ(a: ast::UpdateOperator, b: ast::UpdateOperator)
    requires
        a.symbol() == b.symbol(),
    ensures
        a == b,
{
    reveal_strlit("++");
    reveal_strlit("--");
    let s = a.symbol();
    let t = b.symbol();
    assert(s.len() == t.len());
    if s.len() > 0 {
        assert(s[0] == t[0]);
    }
    if s.len() > 1 {
        assert(s[1] == t[1]);
    }
}

/// Two property kinds that lower to the same tag are the same.
pub proof fn lemma_property_kind_is_injective(a: ast::PropertyKind, b: ast::PropertyKind)
    requires
        a.lowered() == b.lowered(),
    ensures
        a == b,
{
}

/// Two variable declaration kinds that lower to the same tag are the same.
pub proof fn lemma_variable_declaration_kind_is_injective(
    a: ast::VariableDeclarationKind,
    b: ast::VariableDeclarationKind,
)
    requires
        a.lowered() == b.lowered(),
    ensures
        a == b,
{
}

/// Two function types that lower to the same tag are the same.
pub proof fn lemma_function_type_is_injective(a: ast::FunctionType, b: ast::FunctionType)
    requires
        a.lowered() == b.lowered(),
    ensures
        a == b,
{
}

/// Two formal parameter kinds that lower to the same tag are the same.
pub proof fn lemma_formal_parameter_kind_is_injective(
    a: ast::FormalParameterKind,
    b: ast::FormalParameterKind,
)
    requires
        a.lowered() == b.lowered(),
    ensures
        a == b,
{
}

/// Two class types that lower to the same tag are the same.
pub proof fn lemma_class_type_is_injective(a: ast::ClassType, b: ast::ClassType)
    requires
        a.lowered() == b.lowered(),
    ensures
        a == b,
{
}

/// Two method definition kinds that lower to the same tag are the same.
pub proof fn lemma_method_definition_kind_is_injective(
    a: ast::MethodDefinitionKind,
    b: ast::MethodDefinitionKind,
)
    requires
        a.lowered() == b.lowered(),
    ensures
        a == b,
{
}

/// Two import or export kinds that lower to the same tag are the same.
pub proof fn lemma_import_or_export_kind_is_injective(
    a: ast::ImportOrExportKind,
    b: ast::ImportOrExportKind,
)
    requires
        a.lowered() == b.lowered(),
    ensures
        a == b,
{
}

/// Two number bases that lower to the same tag are the same.
pub proof fn lemma_number_base_is_injective(a: ast::NumberBase, b: ast::NumberBase)
    requires
        a.lowered() == b.lowered(),
    ensures
        a == b,
{
}

} // verus!
