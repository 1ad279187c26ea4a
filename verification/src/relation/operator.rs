//! How operator tags carry over.

use vstd::prelude::*;
use crate::ast;
use crate::hir;

verus! {

impl ast::AssignmentOperator {
    /// The tag of the reduced tree that means the same.
    pub open spec fn lowered(self) -> hir::AssignmentOperator {
        match self {
            ast::AssignmentOperator::Assign => hir::AssignmentOperator::Assign,
            ast::AssignmentOperator::Addition => hir::AssignmentOperator::Addition,
            ast::AssignmentOperator::Subtraction => hir::AssignmentOperator::Subtraction,
            ast::AssignmentOperator::Multiplication => hir::AssignmentOperator::Multiplication,
            ast::AssignmentOperator::Division => hir::AssignmentOperator::Division,
            ast::AssignmentOperator::Remainder => hir::AssignmentOperator::Remainder,
            ast::AssignmentOperator::ShiftLeft => hir::AssignmentOperator::ShiftLeft,
            ast::AssignmentOperator::ShiftRight => hir::AssignmentOperator::ShiftRight,
            ast::AssignmentOperator::ShiftRightZeroFill => {
                hir::AssignmentOperator::ShiftRightZeroFill
            },
            ast::AssignmentOperator::BitwiseOR => hir::AssignmentOperator::BitwiseOR,
            ast::AssignmentOperator::BitwiseXOR => hir::AssignmentOperator::BitwiseXOR,
            ast::AssignmentOperator::BitwiseAnd => hir::AssignmentOperator::BitwiseAnd,
            ast::AssignmentOperator::LogicalAnd => hir::AssignmentOperator::LogicalAnd,
            ast::AssignmentOperator::LogicalOr => hir::AssignmentOperator::LogicalOr,
            ast::AssignmentOperator::LogicalNullish => hir::AssignmentOperator::LogicalNullish,
            ast::AssignmentOperator::Exponential => hir::AssignmentOperator::Exponential,
        }
    }
}

impl ast::BinaryOperator {
    /// The tag of the reduced tree that means the same.
    pub open spec fn lowered(self) -> hir::BinaryOperator {
        match self {
            ast::BinaryOperator::Equality => hir::BinaryOperator::Equality,
            ast::BinaryOperator::Inequality => hir::BinaryOperator::Inequality,
            ast::BinaryOperator::StrictEquality => hir::BinaryOperator::StrictEquality,
            ast::BinaryOperator::StrictInequality => hir::BinaryOperator::StrictInequality,
            ast::BinaryOperator::LessThan => hir::BinaryOperator::LessThan,
            ast::BinaryOperator::LessEqualThan => hir::BinaryOperator::LessEqualThan,
            ast::BinaryOperator::GreaterThan => hir::BinaryOperator::GreaterThan,
            ast::BinaryOperator::GreaterEqualThan => hir::BinaryOperator::GreaterEqualThan,
            ast::BinaryOperator::ShiftLeft => hir::BinaryOperator::ShiftLeft,
            ast::BinaryOperator::ShiftRight => hir::BinaryOperator::ShiftRight,
            ast::BinaryOperator::ShiftRightZeroFill => hir::BinaryOperator::ShiftRightZeroFill,
            ast::BinaryOperator::Addition => hir::BinaryOperator::Addition,
            ast::BinaryOperator::Subtraction => hir::BinaryOperator::Subtraction,
            ast::BinaryOperator::Multiplication => hir::BinaryOperator::Multiplication,
            ast::BinaryOperator::Division => hir::BinaryOperator::Division,
            ast::BinaryOperator::Remainder => hir::BinaryOperator::Remainder,
            ast::BinaryOperator::BitwiseOR => hir::BinaryOperator::BitwiseOR,
            ast::BinaryOperator::BitwiseXOR => hir::BinaryOperator::BitwiseXOR,
            ast::BinaryOperator::BitwiseAnd => hir::BinaryOperator::BitwiseAnd,
            ast::BinaryOperator::In => hir::BinaryOperator::In,
            ast::BinaryOperator::Instanceof => hir::BinaryOperator::Instanceof,
            ast::BinaryOperator::Exponential => hir::BinaryOperator::Exponential,
        }
    }
}

impl ast::LogicalOperator {
    /// The tag of the reduced tree that means the same.
    pub open spec fn lowered(self) -> hir::LogicalOperator {
        match self {
            ast::LogicalOperator::Or => hir::LogicalOperator::Or,
            ast::LogicalOperator::And => hir::LogicalOperator::And,
            ast::LogicalOperator::Coalesce => hir::LogicalOperator::Coalesce,
        }
    }
}

impl ast::UnaryOperator {
    /// The tag of the reduced tree that means the same.
    pub open spec fn lowered(self) -> hir::UnaryOperator {
        match self {
            ast::UnaryOperator::UnaryNegation => hir::UnaryOperator::UnaryNegation,
            ast::UnaryOperator::UnaryPlus => hir::UnaryOperator::UnaryPlus,
            ast::UnaryOperator::LogicalNot => hir::UnaryOperator::LogicalNot,
            ast::UnaryOperator::BitwiseNot => hir::UnaryOperator::BitwiseNot,
            ast::UnaryOperator::Typeof => hir::UnaryOperator::Typeof,
            ast::UnaryOperator::Void => hir::UnaryOperator::Void,
            ast::UnaryOperator::Delete => hir::UnaryOperator::Delete,
        }
    }
}

impl ast::UpdateOperator {
    /// The tag of the reduced tree that means the same.
    pub open spec fn lowered(self) -> hir::UpdateOperator {
        match self {
            ast::UpdateOperator::Increment => hir::UpdateOperator::Increment,
            ast::UpdateOperator::Decrement => hir::UpdateOperator::Decrement,
        }
    }
}

} // verus!
