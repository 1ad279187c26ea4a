//! Every kind of expression that survives lowering, one test each.

use oxc_ast_lower::ast;
use oxc_ast_lower::hir;
use oxc_ast_lower::lower::AstLower;
use oxc_span::Span;

fn sp(start: u32, end: u32) -> Span {
    Span { start, end }
}

fn lower(stmt: ast::Statement) -> Vec<hir::Statement> {
    AstLower::new().lower_statements(&vec![stmt])
}

#[test]
fn lowers_expression_bigint_literal() {
    let input = ast::Statement::DoWhileStatement(Box::new(ast::DoWhileStatement {
        span: sp(20, 25),
        body: ast::Statement::EmptyStatement(Box::new(ast::EmptyStatement { span: sp(30, 35) })),
        test: ast::Expression::BigintLiteral(Box::new(ast::BigintLiteral {
            span: sp(10, 15),
            value: "value1".into(),
        })),
    }));
    let expected = hir::Statement::DoWhileStatement(Box::new(hir::DoWhileStatement {
        span: sp(20, 25),
        body: hir::Statement::EmptyStatement(Box::new(hir::EmptyStatement { span: sp(30, 35) })),
        test: hir::Expression::BigintLiteral(Box::new(hir::BigintLiteral {
            span: sp(10, 15),
            value: "value1".into(),
        })),
    }));
    assert_eq!(lower(input), vec![expected]);
}

#[test]
fn lowers_expression_boolean_literal() {
    let input = ast::Statement::DoWhileStatement(Box::new(ast::DoWhileStatement {
        span: sp(20, 25),
        body: ast::Statement::EmptyStatement(Box::new(ast::EmptyStatement { span: sp(30, 35) })),
        test: ast::Expression::BooleanLiteral(Box::new(ast::BooleanLiteral {
            span: sp(10, 15),
            value: true,
        })),
    }));
    let expected = hir::Statement::DoWhileStatement(Box::new(hir::DoWhileStatement {
        span: sp(20, 25),
        body: hir::Statement::EmptyStatement(Box::new(hir::EmptyStatement { span: sp(30, 35) })),
        test: hir::Expression::BooleanLiteral(Box::new(hir::BooleanLiteral {
            span: sp(10, 15),
            value: true,
        })),
    }));
    assert_eq!(lower(input), vec![expected]);
}

#[test]
fn lowers_expression_null_literal() {
    let input = ast::Statement::DoWhileStatement(Box::new(ast::DoWhileStatement {
        span: sp(20, 25),
        body: ast::Statement::EmptyStatement(Box::new(ast::EmptyStatement { span: sp(30, 35) })),
        test: ast::Expression::NullLiteral(Box::new(ast::NullLiteral { span: sp(10, 15) })),
    }));
    let expected = hir::Statement::DoWhileStatement(Box::new(hir::DoWhileStatement {
        span: sp(20, 25),
        body: hir::Statement::EmptyStatement(Box::new(hir::EmptyStatement { span: sp(30, 35) })),
        test: hir::Expression::NullLiteral(Box::new(hir::NullLiteral { span: sp(10, 15) })),
    }));
    assert_eq!(lower(input), vec![expected]);
}

#[test]
fn lowers_expression_number_literal() {
    let input = ast::Statement::DoWhileStatement(Box::new(ast::DoWhileStatement {
        span: sp(20, 25),
        body: ast::Statement::EmptyStatement(Box::new(ast::EmptyStatement { span: sp(30, 35) })),
        test: ast::Expression::NumberLiteral(Box::new(ast::NumberLiteral {
            span: sp(10, 15),
            value: 0x4045_0000_0000_0000,
            raw: "raw1".into(),
            base: ast::NumberBase::Binary,
        })),
    }));
    let expected = hir::Statement::DoWhileStatement(Box::new(hir::DoWhileStatement {
        span: sp(20, 25),
        body: hir::Statement::EmptyStatement(Box::new(hir::EmptyStatement { span: sp(30, 35) })),
        test: hir::Expression::NumberLiteral(Box::new(hir::NumberLiteral {
            span: sp(10, 15),
            value: 0x4045_0000_0000_0000,
            raw: "raw1".into(),
            base: hir::NumberBase::Binary,
        })),
    }));
    assert_eq!(lower(input), vec![expected]);
}

#[test]
fn lowers_expression_reg_exp_literal() {
    let input = ast::Statement::DoWhileStatement(Box::new(ast::DoWhileStatement {
        span: sp(20, 25),
        body: ast::Statement::EmptyStatement(Box::new(ast::EmptyStatement { span: sp(30, 35) })),
        test: ast::Expression::RegExpLiteral(Box::new(ast::RegExpLiteral {
            span: sp(10, 15),
            regex: ast::RegExp {
                pattern: "pattern1".into(),
                flags: ast::RegExpFlags { bits: 0x03 },
            },
        })),
    }));
    let expected = hir::Statement::DoWhileStatement(Box::new(hir::DoWhileStatement {
        span: sp(20, 25),
        body: hir::Statement::EmptyStatement(Box::new(hir::EmptyStatement { span: sp(30, 35) })),
        test: hir::Expression::RegExpLiteral(Box::new(hir::RegExpLiteral {
            span: sp(10, 15),
            regex: hir::RegExp {
                pattern: "pattern1".into(),
                flags: hir::RegExpFlags { bits: 0x03 },
            },
        })),
    }));
    assert_eq!(lower(input), vec![expected]);
}

#[test]
fn lowers_expression_string_literal() {
    let input = ast::Statement::DoWhileStatement(Box::new(ast::DoWhileStatement {
        span: sp(20, 25),
        body: ast::Statement::EmptyStatement(Box::new(ast::EmptyStatement { span: sp(30, 35) })),
        test: ast::Expression::StringLiteral(Box::new(ast::StringLiteral {
            span: sp(10, 15),
            value: "value1".into(),
        })),
    }));
    let expected = hir::Statement::DoWhileStatement(Box::new(hir::DoWhileStatement {
        span: sp(20, 25),
        body: hir::Statement::EmptyStatement(Box::new(hir::EmptyStatement { span: sp(30, 35) })),
        test: hir::Expression::StringLiteral(Box::new(hir::StringLiteral {
            span: sp(10, 15),
            value: "value1".into(),
        })),
    }));
    assert_eq!(lower(input), vec![expected]);
}

#[test]
fn lowers_expression_template_literal() {
    let input = ast::Statement::DoWhileStatement(Box::new(ast::DoWhileStatement {
        span: sp(60, 65),
        body: ast::Statement::EmptyStatement(Box::new(ast::EmptyStatement { span: sp(70, 75) })),
        test: ast::Expression::TemplateLiteral(Box::new(ast::TemplateLiteral {
            span: sp(10, 15),
            quasis: vec![
                ast::TemplateElement {
                    span: sp(20, 25),
                    tail: true,
                    value: ast::TemplateElementValue {
                        raw: "raw1".into(),
                        cooked: Some("cooked2".into()),
                    },
                },
                ast::TemplateElement {
                    span: sp(30, 35),
                    tail: true,
                    value: ast::TemplateElementValue {
                        raw: "raw3".into(),
                        cooked: Some("cooked4".into()),
                    },
                },
            ],
            expressions: vec![
                ast::Expression::Identifier(Box::new(ast::IdentifierReference {
                    span: sp(40, 45),
                    name: "name5".into(),
                })),
                ast::Expression::Identifier(Box::new(ast::IdentifierReference {
                    span: sp(50, 55),
                    name: "name6".into(),
                })),
            ],
        })),
    }));
    let expected = hir::Statement::DoWhileStatement(Box::new(hir::DoWhileStatement {
        span: sp(60, 65),
        body: hir::Statement::EmptyStatement(Box::new(hir::EmptyStatement { span: sp(70, 75) })),
        test: hir::Expression::TemplateLiteral(Box::new(hir::TemplateLiteral {
            span: sp(10, 15),
            quasis: vec![
                hir::TemplateElement {
                    span: sp(20, 25),
                    tail: true,
                    value: hir::TemplateElementValue {
                        raw: "raw1".into(),
                        cooked: Some("cooked2".into()),
                    },
                },
                hir::TemplateElement {
                    span: sp(30, 35),
                    tail: true,
                    value: hir::TemplateElementValue {
                        raw: "raw3".into(),
                        cooked: Some("cooked4".into()),
                    },
                },
            ],
            expressions: vec![
                hir::Expression::Identifier(Box::new(hir::IdentifierReference {
                    span: sp(40, 45),
                    name: "name5".into(),
                })),
                hir::Expression::Identifier(Box::new(hir::IdentifierReference {
                    span: sp(50, 55),
                    name: "name6".into(),
                })),
            ],
        })),
    }));
    assert_eq!(lower(input), vec![expected]);
}

#[test]
fn lowers_expression_identifier() {
    let input = ast::Statement::DoWhileStatement(Box::new(ast::DoWhileStatement {
        span: sp(20, 25),
        body: ast::Statement::EmptyStatement(Box::new(ast::EmptyStatement { span: sp(30, 35) })),
        test: ast::Expression::Identifier(Box::new(ast::IdentifierReference {
            span: sp(10, 15),
            name: "name1".into(),
        })),
    }));
    let expected = hir::Statement::DoWhileStatement(Box::new(hir::DoWhileStatement {
        span: sp(20, 25),
        body: hir::Statement::EmptyStatement(Box::new(hir::EmptyStatement { span: sp(30, 35) })),
        test: hir::Expression::Identifier(Box::new(hir::IdentifierReference {
            span: sp(10, 15),
            name: "name1".into(),
        })),
    }));
    assert_eq!(lower(input), vec![expected]);
}

#[test]
fn lowers_expression_meta_property() {
    let input = ast::Statement::DoWhileStatement(Box::new(ast::DoWhileStatement {
        span: sp(40, 45),
        body: ast::Statement::EmptyStatement(Box::new(ast::EmptyStatement { span: sp(50, 55) })),
        test: ast::Expression::MetaProperty(Box::new(ast::MetaProperty {
            span: sp(10, 15),
            meta: ast::IdentifierName { span: sp(20, 25), name: "name1".into() },
            property: ast::IdentifierName { span: sp(30, 35), name: "name2".into() },
        })),
    }));
    let expected = hir::Statement::DoWhileStatement(Box::new(hir::DoWhileStatement {
        span: sp(40, 45),
        body: hir::Statement::EmptyStatement(Box::new(hir::EmptyStatement { span: sp(50, 55) })),
        test: hir::Expression::MetaProperty(Box::new(hir::MetaProperty {
            span: sp(10, 15),
            meta: hir::IdentifierName { span: sp(20, 25), name: "name1".into() },
            property: hir::IdentifierName { span: sp(30, 35), name: "name2".into() },
        })),
    }));
    assert_eq!(lower(input), vec![expected]);
}

#[test]
fn lowers_array_expression() {
    let input = ast::Statement::DoWhileStatement(Box::new(ast::DoWhileStatement {
        span: sp(50, 55),
        body: ast::Statement::EmptyStatement(Box::new(ast::EmptyStatement { span: sp(60, 65) })),
        test: ast::Expression::ArrayExpression(Box::new(ast::ArrayExpression {
            span: sp(10, 15),
            elements: vec![
                ast::ArrayExpressionElement::Expression(ast::Expression::Identifier(Box::new(
                    ast::IdentifierReference { span: sp(20, 25), name: "name1".into() },
                ))),
                ast::ArrayExpressionElement::Expression(ast::Expression::Identifier(Box::new(
                    ast::IdentifierReference { span: sp(30, 35), name: "name2".into() },
                ))),
            ],
            trailing_comma: Some(sp(40, 45)),
        })),
    }));
    let expected = hir::Statement::DoWhileStatement(Box::new(hir::DoWhileStatement {
        span: sp(50, 55),
        body: hir::Statement::EmptyStatement(Box::new(hir::EmptyStatement { span: sp(60, 65) })),
        test: hir::Expression::ArrayExpression(Box::new(hir::ArrayExpression {
            span: sp(10, 15),
            elements: vec![
                hir::ArrayExpressionElement::Expression(hir::Expression::Identifier(Box::new(
                    hir::IdentifierReference { span: sp(20, 25), name: "name1".into() },
                ))),
                hir::ArrayExpressionElement::Expression(hir::Expression::Identifier(Box::new(
                    hir::IdentifierReference { span: sp(30, 35), name: "name2".into() },
                ))),
            ],
            trailing_comma: Some(sp(40, 45)),
        })),
    }));
    assert_eq!(lower(input), vec![expected]);
}

#[test]
fn lowers_arrow_function_expression() {
    let input = ast::Statement::DoWhileStatement(Box::new(ast::DoWhileStatement {
        span: sp(80, 85),
        body: ast::Statement::EmptyStatement(Box::new(ast::EmptyStatement { span: sp(90, 95) })),
        test: ast::Expression::ArrowFunctionExpression(Box::new(ast::ArrowExpression {
            span: sp(10, 15),
            expression: true,
            generator: true,
            is_async: true,
            params: Box::new(ast::FormalParameters {
                span: sp(20, 25),
                kind: ast::FormalParameterKind::UniqueFormalParameters,
                items: vec![
                    ast::FormalParameter {
                        span: sp(30, 35),
                        pattern: ast::BindingPattern {
                            kind: ast::BindingPatternKind::BindingIdentifier(Box::new(
                                ast::BindingIdentifier { span: sp(40, 45), name: "name1".into() },
                            )),
                        },
                        decorators: vec![],
                    },
                ],
            }),
            body: Box::new(ast::FunctionBody {
                span: sp(50, 55),
                directives: vec![
                    ast::Directive {
                        span: sp(60, 65),
                        expression: ast::StringLiteral { span: sp(70, 75), value: "value2".into() },
                        directive: "directive3".into(),
                    },
                ],
                statements: vec![],
            }),
        })),
    }));
    let expected = hir::Statement::DoWhileStatement(Box::new(hir::DoWhileStatement {
        span: sp(80, 85),
        body: hir::Statement::EmptyStatement(Box::new(hir::EmptyStatement { span: sp(90, 95) })),
        test: hir::Expression::ArrowFunctionExpression(Box::new(hir::ArrowExpression {
            span: sp(10, 15),
            expression: true,
            generator: true,
            is_async: true,
            params: Box::new(hir::FormalParameters {
                span: sp(20, 25),
                kind: hir::FormalParameterKind::UniqueFormalParameters,
                items: vec![
                    hir::FormalParameter {
                        span: sp(30, 35),
                        pattern: hir::BindingPattern::BindingIdentifier(Box::new(
                            hir::BindingIdentifier { span: sp(40, 45), name: "name1".into() },
                        )),
                        decorators: vec![],
                    },
                ],
            }),
            body: Box::new(hir::FunctionBody {
                span: sp(50, 55),
                directives: vec![
                    hir::Directive {
                        span: sp(60, 65),
                        expression: hir::StringLiteral { span: sp(70, 75), value: "value2".into() },
                        directive: "directive3".into(),
                    },
                ],
                statements: vec![],
            }),
        })),
    }));
    assert_eq!(lower(input), vec![expected]);
}

#[test]
fn lowers_assignment_expression() {
    let input = ast::Statement::DoWhileStatement(Box::new(ast::DoWhileStatement {
        span: sp(40, 45),
        body: ast::Statement::EmptyStatement(Box::new(ast::EmptyStatement { span: sp(50, 55) })),
        test: ast::Expression::AssignmentExpression(Box::new(ast::AssignmentExpression {
            span: sp(10, 15),
            operator: ast::AssignmentOperator::Addition,
            left: ast::AssignmentTarget::SimpleAssignmentTarget(
                ast::SimpleAssignmentTarget::AssignmentTargetIdentifier(Box::new(
                    ast::IdentifierReference { span: sp(20, 25), name: "name1".into() },
                )),
            ),
            right: ast::Expression::Identifier(Box::new(ast::IdentifierReference {
                span: sp(30, 35),
                name: "name2".into(),
            })),
        })),
    }));
    let expected = hir::Statement::DoWhileStatement(Box::new(hir::DoWhileStatement {
        span: sp(40, 45),
        body: hir::Statement::EmptyStatement(Box::new(hir::EmptyStatement { span: sp(50, 55) })),
        test: hir::Expression::AssignmentExpression(Box::new(hir::AssignmentExpression {
            span: sp(10, 15),
            operator: hir::AssignmentOperator::Addition,
            left: hir::AssignmentTarget::SimpleAssignmentTarget(
                hir::SimpleAssignmentTarget::AssignmentTargetIdentifier(Box::new(
                    hir::IdentifierReference { span: sp(20, 25), name: "name1".into() },
                )),
            ),
            right: hir::Expression::Identifier(Box::new(hir::IdentifierReference {
                span: sp(30, 35),
                name: "name2".into(),
            })),
        })),
    }));
    assert_eq!(lower(input), vec![expected]);
}

#[test]
fn lowers_await_expression() {
    let input = ast::Statement::DoWhileStatement(Box::new(ast::DoWhileStatement {
        span: sp(30, 35),
        body: ast::Statement::EmptyStatement(Box::new(ast::EmptyStatement { span: sp(40, 45) })),
        test: ast::Expression::AwaitExpression(Box::new(ast::AwaitExpression {
            span: sp(10, 15),
            argument: ast::Expression::Identifier(Box::new(ast::IdentifierReference {
                span: sp(20, 25),
                name: "name1".into(),
            })),
        })),
    }));
    let expected = hir::Statement::DoWhileStatement(Box::new(hir::DoWhileStatement {
        span: sp(30, 35),
        body: hir::Statement::EmptyStatement(Box::new(hir::EmptyStatement { span: sp(40, 45) })),
        test: hir::Expression::AwaitExpression(Box::new(hir::AwaitExpression {
            span: sp(10, 15),
            argument: hir::Expression::Identifier(Box::new(hir::IdentifierReference {
                span: sp(20, 25),
                name: "name1".into(),
            })),
        })),
    }));
    assert_eq!(lower(input), vec![expected]);
}

#[test]
fn lowers_binary_expression() {
    let input = ast::Statement::DoWhileStatement(Box::new(ast::DoWhileStatement {
        span: sp(40, 45),
        body: ast::Statement::EmptyStatement(Box::new(ast::EmptyStatement { span: sp(50, 55) })),
        test: ast::Expression::BinaryExpression(Box::new(ast::BinaryExpression {
            span: sp(10, 15),
            left: ast::Expression::Identifier(Box::new(ast::IdentifierReference {
                span: sp(20, 25),
                name: "name1".into(),
            })),
            operator: ast::BinaryOperator::Inequality,
            right: ast::Expression::Identifier(Box::new(ast::IdentifierReference {
                span: sp(30, 35),
                name: "name2".into(),
            })),
        })),
    }));
    let expected = hir::Statement::DoWhileStatement(Box::new(hir::DoWhileStatement {
        span: sp(40, 45),
        body: hir::Statement::EmptyStatement(Box::new(hir::EmptyStatement { span: sp(50, 55) })),
        test: hir::Expression::BinaryExpression(Box::new(hir::BinaryExpression {
            span: sp(10, 15),
            left: hir::Expression::Identifier(Box::new(hir::IdentifierReference {
                span: sp(20, 25),
                name: "name1".into(),
            })),
            operator: hir::BinaryOperator::Inequality,
            right: hir::Expression::Identifier(Box::new(hir::IdentifierReference {
                span: sp(30, 35),
                name: "name2".into(),
            })),
        })),
    }));
    assert_eq!(lower(input), vec![expected]);
}

#[test]
fn lowers_call_expression() {
    let input = ast::Statement::DoWhileStatement(Box::new(ast::DoWhileStatement {
        span: sp(50, 55),
        body: ast::Statement::EmptyStatement(Box::new(ast::EmptyStatement { span: sp(60, 65) })),
        test: ast::Expression::CallExpression(Box::new(ast::CallExpression {
            span: sp(10, 15),
            callee: ast::Expression::Identifier(Box::new(ast::IdentifierReference {
                span: sp(20, 25),
                name: "name1".into(),
            })),
            arguments: vec![
                ast::Argument::Expression(ast::Expression::Identifier(Box::new(
                    ast::IdentifierReference { span: sp(30, 35), name: "name2".into() },
                ))),
                ast::Argument::Expression(ast::Expression::Identifier(Box::new(
                    ast::IdentifierReference { span: sp(40, 45), name: "name3".into() },
                ))),
            ],
            optional: true,
        })),
    }));
    let expected = hir::Statement::DoWhileStatement(Box::new(hir::DoWhileStatement {
        span: sp(50, 55),
        body: hir::Statement::EmptyStatement(Box::new(hir::EmptyStatement { span: sp(60, 65) })),
        test: hir::Expression::CallExpression(Box::new(hir::CallExpression {
            span: sp(10, 15),
            callee: hir::Expression::Identifier(Box::new(hir::IdentifierReference {
                span: sp(20, 25),
                name: "name1".into(),
            })),
            arguments: vec![
                hir::Argument::Expression(hir::Expression::Identifier(Box::new(
                    hir::IdentifierReference { span: sp(30, 35), name: "name2".into() },
                ))),
                hir::Argument::Expression(hir::Expression::Identifier(Box::new(
                    hir::IdentifierReference { span: sp(40, 45), name: "name3".into() },
                ))),
            ],
            optional: true,
        })),
    }));
    assert_eq!(lower(input), vec![expected]);
}

#[test]
fn lowers_chain_expression() {
    let input = ast::Statement::DoWhileStatement(Box::new(ast::DoWhileStatement {
        span: sp(50, 55),
        body: ast::Statement::EmptyStatement(Box::new(ast::EmptyStatement { span: sp(60, 65) })),
        test: ast::Expression::ChainExpression(Box::new(ast::ChainExpression {
            span: sp(10, 15),
            expression: ast::ChainElement::CallExpression(Box::new(ast::CallExpression {
                span: sp(20, 25),
                callee: ast::Expression::Identifier(Box::new(ast::IdentifierReference {
                    span: sp(30, 35),
                    name: "name1".into(),
                })),
                arguments: vec![
                    ast::Argument::Expression(ast::Expression::Identifier(Box::new(
                        ast::IdentifierReference { span: sp(40, 45), name: "name2".into() },
                    ))),
                ],
                optional: true,
            })),
        })),
    }));
    let expected = hir::Statement::DoWhileStatement(Box::new(hir::DoWhileStatement {
        span: sp(50, 55),
        body: hir::Statement::EmptyStatement(Box::new(hir::EmptyStatement { span: sp(60, 65) })),
        test: hir::Expression::ChainExpression(Box::new(hir::ChainExpression {
            span: sp(10, 15),
            expression: hir::ChainElement::CallExpression(Box::new(hir::CallExpression {
                span: sp(20, 25),
                callee: hir::Expression::Identifier(Box::new(hir::IdentifierReference {
                    span: sp(30, 35),
                    name: "name1".into(),
                })),
                arguments: vec![
                    hir::Argument::Expression(hir::Expression::Identifier(Box::new(
                        hir::IdentifierReference { span: sp(40, 45), name: "name2".into() },
                    ))),
                ],
                optional: true,
            })),
        })),
    }));
    assert_eq!(lower(input), vec![expected]);
}

#[test]
fn lowers_class_expression() {
    let input = ast::Statement::DoWhileStatement(Box::new(ast::DoWhileStatement {
        span: sp(90, 95),
        body: ast::Statement::EmptyStatement(Box::new(ast::EmptyStatement { span: sp(100, 105) })),
        test: ast::Expression::ClassExpression(Box::new(ast::Class {
            class_type: ast::ClassType::ClassExpression,
            span: sp(10, 15),
            id: Some(ast::BindingIdentifier { span: sp(20, 25), name: "name1".into() }),
            super_class: Some(ast::Expression::Identifier(Box::new(ast::IdentifierReference {
                span: sp(30, 35),
                name: "name2".into(),
            }))),
            body: Box::new(ast::ClassBody { span: sp(40, 45), body: vec![] }),
            decorators: vec![
                ast::Decorator {
                    span: sp(50, 55),
                    expression: ast::Expression::Identifier(Box::new(ast::IdentifierReference {
                        span: sp(60, 65),
                        name: "name3".into(),
                    })),
                },
                ast::Decorator {
                    span: sp(70, 75),
                    expression: ast::Expression::Identifier(Box::new(ast::IdentifierReference {
                        span: sp(80, 85),
                        name: "name4".into(),
                    })),
                },
            ],
        })),
    }));
    let expected = hir::Statement::DoWhileStatement(Box::new(hir::DoWhileStatement {
        span: sp(90, 95),
        body: hir::Statement::EmptyStatement(Box::new(hir::EmptyStatement { span: sp(100, 105) })),
        test: hir::Expression::ClassExpression(Box::new(hir::Class {
            class_type: hir::ClassType::ClassExpression,
            span: sp(10, 15),
            id: Some(hir::BindingIdentifier { span: sp(20, 25), name: "name1".into() }),
            super_class: Some(hir::Expression::Identifier(Box::new(hir::IdentifierReference {
                span: sp(30, 35),
                name: "name2".into(),
            }))),
            body: Box::new(hir::ClassBody { span: sp(40, 45), body: vec![] }),
            decorators: vec![
                hir::Decorator {
                    span: sp(50, 55),
                    expression: hir::Expression::Identifier(Box::new(hir::IdentifierReference {
                        span: sp(60, 65),
                        name: "name3".into(),
                    })),
                },
                hir::Decorator {
                    span: sp(70, 75),
                    expression: hir::Expression::Identifier(Box::new(hir::IdentifierReference {
                        span: sp(80, 85),
                        name: "name4".into(),
                    })),
                },
            ],
        })),
    }));
    assert_eq!(lower(input), vec![expected]);
}

#[test]
fn lowers_conditional_expression() {
    let input = ast::Statement::DoWhileStatement(Box::new(ast::DoWhileStatement {
        span: sp(50, 55),
        body: ast::Statement::EmptyStatement(Box::new(ast::EmptyStatement { span: sp(60, 65) })),
        test: ast::Expression::ConditionalExpression(Box::new(ast::ConditionalExpression {
            span: sp(10, 15),
            test: ast::Expression::Identifier(Box::new(ast::IdentifierReference {
                span: sp(20, 25),
                name: "name1".into(),
            })),
            consequent: ast::Expression::Identifier(Box::new(ast::IdentifierReference {
                span: sp(30, 35),
                name: "name2".into(),
            })),
            alternate: ast::Expression::Identifier(Box::new(ast::IdentifierReference {
                span: sp(40, 45),
                name: "name3".into(),
            })),
        })),
    }));
    let expected = hir::Statement::DoWhileStatement(Box::new(hir::DoWhileStatement {
        span: sp(50, 55),
        body: hir::Statement::EmptyStatement(Box::new(hir::EmptyStatement { span: sp(60, 65) })),
        test: hir::Expression::ConditionalExpression(Box::new(hir::ConditionalExpression {
            span: sp(10, 15),
            test: hir::Expression::Identifier(Box::new(hir::IdentifierReference {
                span: sp(20, 25),
                name: "name1".into(),
            })),
            consequent: hir::Expression::Identifier(Box::new(hir::IdentifierReference {
                span: sp(30, 35),
                name: "name2".into(),
            })),
            alternate: hir::Expression::Identifier(Box::new(hir::IdentifierReference {
                span: sp(40, 45),
                name: "name3".into(),
            })),
        })),
    }));
    assert_eq!(lower(input), vec![expected]);
}

#[test]
fn lowers_function_expression() {
    let input = ast::Statement::DoWhileStatement(Box::new(ast::DoWhileStatement {
        span: sp(90, 95),
        body: ast::Statement::EmptyStatement(Box::new(ast::EmptyStatement { span: sp(100, 105) })),
        test: ast::Expression::FunctionExpression(Box::new(ast::Function {
            function_type: ast::FunctionType::FunctionExpression,
            span: sp(10, 15),
            id: Some(ast::BindingIdentifier { span: sp(20, 25), name: "name1".into() }),
            expression: true,
            generator: true,
            is_async: true,
            params: Box::new(ast::FormalParameters {
                span: sp(30, 35),
                kind: ast::FormalParameterKind::UniqueFormalParameters,
                items: vec![
                    ast::FormalParameter {
                        span: sp(40, 45),
                        pattern: ast::BindingPattern {
                            kind: ast::BindingPatternKind::BindingIdentifier(Box::new(
                                ast::BindingIdentifier { span: sp(50, 55), name: "name2".into() },
                            )),
                        },
                        decorators: vec![],
                    },
                ],
            }),
            body: Some(Box::new(ast::FunctionBody {
                span: sp(60, 65),
                directives: vec![
                    ast::Directive {
                        span: sp(70, 75),
                        expression: ast::StringLiteral { span: sp(80, 85), value: "value3".into() },
                        directive: "directive4".into(),
                    },
                ],
                statements: vec![],
            })),
        })),
    }));
    let expected = hir::Statement::DoWhileStatement(Box::new(hir::DoWhileStatement {
        span: sp(90, 95),
        body: hir::Statement::EmptyStatement(Box::new(hir::EmptyStatement { span: sp(100, 105) })),
        test: hir::Expression::FunctionExpression(Box::new(hir::Function {
            function_type: hir::FunctionType::FunctionExpression,
            span: sp(10, 15),
            id: Some(hir::BindingIdentifier { span: sp(20, 25), name: "name1".into() }),
            expression: true,
            generator: true,
            is_async: true,
            params: Box::new(hir::FormalParameters {
                span: sp(30, 35),
                kind: hir::FormalParameterKind::UniqueFormalParameters,
                items: vec![
                    hir::FormalParameter {
                        span: sp(40, 45),
                        pattern: hir::BindingPattern::BindingIdentifier(Box::new(
                            hir::BindingIdentifier { span: sp(50, 55), name: "name2".into() },
                        )),
                        decorators: vec![],
                    },
                ],
            }),
            body: Some(Box::new(hir::FunctionBody {
                span: sp(60, 65),
                directives: vec![
                    hir::Directive {
                        span: sp(70, 75),
                        expression: hir::StringLiteral { span: sp(80, 85), value: "value3".into() },
                        directive: "directive4".into(),
                    },
                ],
                statements: vec![],
            })),
        })),
    }));
    assert_eq!(lower(input), vec![expected]);
}

#[test]
fn lowers_import_expression() {
    let input = ast::Statement::DoWhileStatement(Box::new(ast::DoWhileStatement {
        span: sp(50, 55),
        body: ast::Statement::EmptyStatement(Box::new(ast::EmptyStatement { span: sp(60, 65) })),
        test: ast::Expression::ImportExpression(Box::new(ast::ImportExpression {
            span: sp(10, 15),
            source: ast::Expression::Identifier(Box::new(ast::IdentifierReference {
                span: sp(20, 25),
                name: "name1".into(),
            })),
            arguments: vec![
                ast::Expression::Identifier(Box::new(ast::IdentifierReference {
                    span: sp(30, 35),
                    name: "name2".into(),
                })),
                ast::Expression::Identifier(Box::new(ast::IdentifierReference {
                    span: sp(40, 45),
                    name: "name3".into(),
                })),
            ],
        })),
    }));
    let expected = hir::Statement::DoWhileStatement(Box::new(hir::DoWhileStatement {
        span: sp(50, 55),
        body: hir::Statement::EmptyStatement(Box::new(hir::EmptyStatement { span: sp(60, 65) })),
        test: hir::Expression::ImportExpression(Box::new(hir::ImportExpression {
            span: sp(10, 15),
            source: hir::Expression::Identifier(Box::new(hir::IdentifierReference {
                span: sp(20, 25),
                name: "name1".into(),
            })),
            arguments: vec![
                hir::Expression::Identifier(Box::new(hir::IdentifierReference {
                    span: sp(30, 35),
                    name: "name2".into(),
                })),
                hir::Expression::Identifier(Box::new(hir::IdentifierReference {
                    span: sp(40, 45),
                    name: "name3".into(),
                })),
            ],
        })),
    }));
    assert_eq!(lower(input), vec![expected]);
}

#[test]
fn lowers_logical_expression() {
    let input = ast::Statement::DoWhileStatement(Box::new(ast::DoWhileStatement {
        span: sp(40, 45),
        body: ast::Statement::EmptyStatement(Box::new(ast::EmptyStatement { span: sp(50, 55) })),
        test: ast::Expression::LogicalExpression(Box::new(ast::LogicalExpression {
            span: sp(10, 15),
            left: ast::Expression::Identifier(Box::new(ast::IdentifierReference {
                span: sp(20, 25),
                name: "name1".into(),
            })),
            operator: ast::LogicalOperator::And,
            right: ast::Expression::Identifier(Box::new(ast::IdentifierReference {
                span: sp(30, 35),
                name: "name2".into(),
            })),
        })),
    }));
    let expected = hir::Statement::DoWhileStatement(Box::new(hir::DoWhileStatement {
        span: sp(40, 45),
        body: hir::Statement::EmptyStatement(Box::new(hir::EmptyStatement { span: sp(50, 55) })),
        test: hir::Expression::LogicalExpression(Box::new(hir::LogicalExpression {
            span: sp(10, 15),
            left: hir::Expression::Identifier(Box::new(hir::IdentifierReference {
                span: sp(20, 25),
                name: "name1".into(),
            })),
            operator: hir::LogicalOperator::And,
            right: hir::Expression::Identifier(Box::new(hir::IdentifierReference {
                span: sp(30, 35),
                name: "name2".into(),
            })),
        })),
    }));
    assert_eq!(lower(input), vec![expected]);
}

#[test]
fn lowers_member_expression() {
    let input = ast::Statement::DoWhileStatement(Box::new(ast::DoWhileStatement {
        span: sp(40, 45),
        body: ast::Statement::EmptyStatement(Box::new(ast::EmptyStatement { span: sp(50, 55) })),
        test: ast::Expression::MemberExpression(Box::new(
            ast::MemberExpression::StaticMemberExpression(ast::StaticMemberExpression {
                span: sp(10, 15),
                object: ast::Expression::Identifier(Box::new(ast::IdentifierReference {
                    span: sp(20, 25),
                    name: "name1".into(),
                })),
                property: ast::IdentifierName { span: sp(30, 35), name: "name2".into() },
                optional: true,
            }),
        )),
    }));
    let expected = hir::Statement::DoWhileStatement(Box::new(hir::DoWhileStatement {
        span: sp(40, 45),
        body: hir::Statement::EmptyStatement(Box::new(hir::EmptyStatement { span: sp(50, 55) })),
        test: hir::Expression::MemberExpression(Box::new(
            hir::MemberExpression::StaticMemberExpression(hir::StaticMemberExpression {
                span: sp(10, 15),
                object: hir::Expression::Identifier(Box::new(hir::IdentifierReference {
                    span: sp(20, 25),
                    name: "name1".into(),
                })),
                property: hir::IdentifierName { span: sp(30, 35), name: "name2".into() },
                optional: true,
            }),
        )),
    }));
    assert_eq!(lower(input), vec![expected]);
}

#[test]
fn lowers_new_expression() {
    let input = ast::Statement::DoWhileStatement(Box::new(ast::DoWhileStatement {
        span: sp(50, 55),
        body: ast::Statement::EmptyStatement(Box::new(ast::EmptyStatement { span: sp(60, 65) })),
        test: ast::Expression::NewExpression(Box::new(ast::NewExpression {
            span: sp(10, 15),
            callee: ast::Expression::Identifier(Box::new(ast::IdentifierReference {
                span: sp(20, 25),
                name: "name1".into(),
            })),
            arguments: vec![
                ast::Argument::Expression(ast::Expression::Identifier(Box::new(
                    ast::IdentifierReference { span: sp(30, 35), name: "name2".into() },
                ))),
                ast::Argument::Expression(ast::Expression::Identifier(Box::new(
                    ast::IdentifierReference { span: sp(40, 45), name: "name3".into() },
                ))),
            ],
        })),
    }));
    let expected = hir::Statement::DoWhileStatement(Box::new(hir::DoWhileStatement {
        span: sp(50, 55),
        body: hir::Statement::EmptyStatement(Box::new(hir::EmptyStatement { span: sp(60, 65) })),
        test: hir::Expression::NewExpression(Box::new(hir::NewExpression {
            span: sp(10, 15),
            callee: hir::Expression::Identifier(Box::new(hir::IdentifierReference {
                span: sp(20, 25),
                name: "name1".into(),
            })),
            arguments: vec![
                hir::Argument::Expression(hir::Expression::Identifier(Box::new(
                    hir::IdentifierReference { span: sp(30, 35), name: "name2".into() },
                ))),
                hir::Argument::Expression(hir::Expression::Identifier(Box::new(
                    hir::IdentifierReference { span: sp(40, 45), name: "name3".into() },
                ))),
            ],
        })),
    }));
    assert_eq!(lower(input), vec![expected]);
}

#[test]
fn lowers_object_expression() {
    let input = ast::Statement::DoWhileStatement(Box::new(ast::DoWhileStatement {
        span: sp(90, 95),
        body: ast::Statement::EmptyStatement(Box::new(ast::EmptyStatement { span: sp(100, 105) })),
        test: ast::Expression::ObjectExpression(Box::new(ast::ObjectExpression {
            span: sp(10, 15),
            properties: vec![
                ast::ObjectProperty::Property(Box::new(ast::Property {
                    span: sp(20, 25),
                    kind: ast::PropertyKind::Getter,
                    key: ast::PropertyKey::Identifier(Box::new(ast::IdentifierName {
                        span: sp(30, 35),
                        name: "name1".into(),
                    })),
                    value: ast::PropertyValue::Expression(ast::Expression::Identifier(Box::new(
                        ast::IdentifierReference { span: sp(40, 45), name: "name2".into() },
                    ))),
                    method: true,
                    shorthand: true,
                    computed: true,
                })),
                ast::ObjectProperty::Property(Box::new(ast::Property {
                    span: sp(50, 55),
                    kind: ast::PropertyKind::Getter,
                    key: ast::PropertyKey::Identifier(Box::new(ast::IdentifierName {
                        span: sp(60, 65),
                        name: "name3".into(),
                    })),
                    value: ast::PropertyValue::Expression(ast::Expression::Identifier(Box::new(
                        ast::IdentifierReference { span: sp(70, 75), name: "name4".into() },
                    ))),
                    method: true,
                    shorthand: true,
                    computed: true,
                })),
            ],
            trailing_comma: Some(sp(80, 85)),
        })),
    }));
    let expected = hir::Statement::DoWhileStatement(Box::new(hir::DoWhileStatement {
        span: sp(90, 95),
        body: hir::Statement::EmptyStatement(Box::new(hir::EmptyStatement { span: sp(100, 105) })),
        test: hir::Expression::ObjectExpression(Box::new(hir::ObjectExpression {
            span: sp(10, 15),
            properties: vec![
                hir::ObjectProperty::Property(Box::new(hir::Property {
                    span: sp(20, 25),
                    kind: hir::PropertyKind::Getter,
                    key: hir::PropertyKey::Identifier(Box::new(hir::IdentifierName {
                        span: sp(30, 35),
                        name: "name1".into(),
                    })),
                    value: hir::PropertyValue::Expression(hir::Expression::Identifier(Box::new(
                        hir::IdentifierReference { span: sp(40, 45), name: "name2".into() },
                    ))),
                    method: true,
                    shorthand: true,
                    computed: true,
                })),
                hir::ObjectProperty::Property(Box::new(hir::Property {
                    span: sp(50, 55),
                    kind: hir::PropertyKind::Getter,
                    key: hir::PropertyKey::Identifier(Box::new(hir::IdentifierName {
                        span: sp(60, 65),
                        name: "name3".into(),
                    })),
                    value: hir::PropertyValue::Expression(hir::Expression::Identifier(Box::new(
                        hir::IdentifierReference { span: sp(70, 75), name: "name4".into() },
                    ))),
                    method: true,
                    shorthand: true,
                    computed: true,
                })),
            ],
            trailing_comma: Some(sp(80, 85)),
        })),
    }));
    assert_eq!(lower(input), vec![expected]);
}

#[test]
fn lowers_private_in_expression() {
    let input = ast::Statement::DoWhileStatement(Box::new(ast::DoWhileStatement {
        span: sp(40, 45),
        body: ast::Statement::EmptyStatement(Box::new(ast::EmptyStatement { span: sp(50, 55) })),
        test: ast::Expression::PrivateInExpression(Box::new(ast::PrivateInExpression {
            span: sp(10, 15),
            left: ast::PrivateIdentifier { span: sp(20, 25), name: "name1".into() },
            right: ast::Expression::Identifier(Box::new(ast::IdentifierReference {
                span: sp(30, 35),
                name: "name2".into(),
            })),
        })),
    }));
    let expected = hir::Statement::DoWhileStatement(Box::new(hir::DoWhileStatement {
        span: sp(40, 45),
        body: hir::Statement::EmptyStatement(Box::new(hir::EmptyStatement { span: sp(50, 55) })),
        test: hir::Expression::PrivateInExpression(Box::new(hir::PrivateInExpression {
            span: sp(10, 15),
            left: hir::PrivateIdentifier { span: sp(20, 25), name: "name1".into() },
            right: hir::Expression::Identifier(Box::new(hir::IdentifierReference {
                span: sp(30, 35),
                name: "name2".into(),
            })),
        })),
    }));
    assert_eq!(lower(input), vec![expected]);
}

#[test]
fn lowers_sequence_expression() {
    let input = ast::Statement::DoWhileStatement(Box::new(ast::DoWhileStatement {
        span: sp(40, 45),
        body: ast::Statement::EmptyStatement(Box::new(ast::EmptyStatement { span: sp(50, 55) })),
        test: ast::Expression::SequenceExpression(Box::new(ast::SequenceExpression {
            span: sp(10, 15),
            expressions: vec![
                ast::Expression::Identifier(Box::new(ast::IdentifierReference {
                    span: sp(20, 25),
                    name: "name1".into(),
                })),
                ast::Expression::Identifier(Box::new(ast::IdentifierReference {
                    span: sp(30, 35),
                    name: "name2".into(),
                })),
            ],
        })),
    }));
    let expected = hir::Statement::DoWhileStatement(Box::new(hir::DoWhileStatement {
        span: sp(40, 45),
        body: hir::Statement::EmptyStatement(Box::new(hir::EmptyStatement { span: sp(50, 55) })),
        test: hir::Expression::SequenceExpression(Box::new(hir::SequenceExpression {
            span: sp(10, 15),
            expressions: vec![
                hir::Expression::Identifier(Box::new(hir::IdentifierReference {
                    span: sp(20, 25),
                    name: "name1".into(),
                })),
                hir::Expression::Identifier(Box::new(hir::IdentifierReference {
                    span: sp(30, 35),
                    name: "name2".into(),
                })),
            ],
        })),
    }));
    assert_eq!(lower(input), vec![expected]);
}

#[test]
fn lowers_tagged_template_expression() {
    let input = ast::Statement::DoWhileStatement(Box::new(ast::DoWhileStatement {
        span: sp(60, 65),
        body: ast::Statement::EmptyStatement(Box::new(ast::EmptyStatement { span: sp(70, 75) })),
        test: ast::Expression::TaggedTemplateExpression(Box::new(ast::TaggedTemplateExpression {
            span: sp(10, 15),
            tag: ast::Expression::Identifier(Box::new(ast::IdentifierReference {
                span: sp(20, 25),
                name: "name1".into(),
            })),
            quasi: ast::TemplateLiteral {
                span: sp(30, 35),
                quasis: vec![
                    ast::TemplateElement {
                        span: sp(40, 45),
                        tail: true,
                        value: ast::TemplateElementValue {
                            raw: "raw2".into(),
                            cooked: Some("cooked3".into()),
                        },
                    },
                ],
                expressions: vec![
                    ast::Expression::Identifier(Box::new(ast::IdentifierReference {
                        span: sp(50, 55),
                        name: "name4".into(),
                    })),
                ],
            },
        })),
    }));
    let expected = hir::Statement::DoWhileStatement(Box::new(hir::DoWhileStatement {
        span: sp(60, 65),
        body: hir::Statement::EmptyStatement(Box::new(hir::EmptyStatement { span: sp(70, 75) })),
        test: hir::Expression::TaggedTemplateExpression(Box::new(hir::TaggedTemplateExpression {
            span: sp(10, 15),
            tag: hir::Expression::Identifier(Box::new(hir::IdentifierReference {
                span: sp(20, 25),
                name: "name1".into(),
            })),
            quasi: hir::TemplateLiteral {
                span: sp(30, 35),
                quasis: vec![
                    hir::TemplateElement {
                        span: sp(40, 45),
                        tail: true,
                        value: hir::TemplateElementValue {
                            raw: "raw2".into(),
                            cooked: Some("cooked3".into()),
                        },
                    },
                ],
                expressions: vec![
                    hir::Expression::Identifier(Box::new(hir::IdentifierReference {
                        span: sp(50, 55),
                        name: "name4".into(),
                    })),
                ],
            },
        })),
    }));
    assert_eq!(lower(input), vec![expected]);
}

#[test]
fn lowers_this_expression() {
    let input = ast::Statement::DoWhileStatement(Box::new(ast::DoWhileStatement {
        span: sp(20, 25),
        body: ast::Statement::EmptyStatement(Box::new(ast::EmptyStatement { span: sp(30, 35) })),
        test: ast::Expression::ThisExpression(Box::new(ast::ThisExpression { span: sp(10, 15) })),
    }));
    let expected = hir::Statement::DoWhileStatement(Box::new(hir::DoWhileStatement {
        span: sp(20, 25),
        body: hir::Statement::EmptyStatement(Box::new(hir::EmptyStatement { span: sp(30, 35) })),
        test: hir::Expression::ThisExpression(Box::new(hir::ThisExpression { span: sp(10, 15) })),
    }));
    assert_eq!(lower(input), vec![expected]);
}

#[test]
fn lowers_unary_expression() {
    let input = ast::Statement::DoWhileStatement(Box::new(ast::DoWhileStatement {
        span: sp(30, 35),
        body: ast::Statement::EmptyStatement(Box::new(ast::EmptyStatement { span: sp(40, 45) })),
        test: ast::Expression::UnaryExpression(Box::new(ast::UnaryExpression {
            span: sp(10, 15),
            operator: ast::UnaryOperator::UnaryPlus,
            prefix: true,
            argument: ast::Expression::Identifier(Box::new(ast::IdentifierReference {
                span: sp(20, 25),
                name: "name1".into(),
            })),
        })),
    }));
    let expected = hir::Statement::DoWhileStatement(Box::new(hir::DoWhileStatement {
        span: sp(30, 35),
        body: hir::Statement::EmptyStatement(Box::new(hir::EmptyStatement { span: sp(40, 45) })),
        test: hir::Expression::UnaryExpression(Box::new(hir::UnaryExpression {
            span: sp(10, 15),
            operator: hir::UnaryOperator::UnaryPlus,
            prefix: true,
            argument: hir::Expression::Identifier(Box::new(hir::IdentifierReference {
                span: sp(20, 25),
                name: "name1".into(),
            })),
        })),
    }));
    assert_eq!(lower(input), vec![expected]);
}

#[test]
fn lowers_update_expression() {
    let input = ast::Statement::DoWhileStatement(Box::new(ast::DoWhileStatement {
        span: sp(30, 35),
        body: ast::Statement::EmptyStatement(Box::new(ast::EmptyStatement { span: sp(40, 45) })),
        test: ast::Expression::UpdateExpression(Box::new(ast::UpdateExpression {
            span: sp(10, 15),
            operator: ast::UpdateOperator::Decrement,
            prefix: true,
            argument: ast::SimpleAssignmentTarget::AssignmentTargetIdentifier(Box::new(
                ast::IdentifierReference { span: sp(20, 25), name: "name1".into() },
            )),
        })),
    }));
    let expected = hir::Statement::DoWhileStatement(Box::new(hir::DoWhileStatement {
        span: sp(30, 35),
        body: hir::Statement::EmptyStatement(Box::new(hir::EmptyStatement { span: sp(40, 45) })),
        test: hir::Expression::UpdateExpression(Box::new(hir::UpdateExpression {
            span: sp(10, 15),
            operator: hir::UpdateOperator::Decrement,
            prefix: true,
            argument: hir::SimpleAssignmentTarget::AssignmentTargetIdentifier(Box::new(
                hir::IdentifierReference { span: sp(20, 25), name: "name1".into() },
            )),
        })),
    }));
    assert_eq!(lower(input), vec![expected]);
}

#[test]
fn lowers_yield_expression() {
    let input = ast::Statement::DoWhileStatement(Box::new(ast::DoWhileStatement {
        span: sp(30, 35),
        body: ast::Statement::EmptyStatement(Box::new(ast::EmptyStatement { span: sp(40, 45) })),
        test: ast::Expression::YieldExpression(Box::new(ast::YieldExpression {
            span: sp(10, 15),
            delegate: true,
            argument: Some(ast::Expression::Identifier(Box::new(ast::IdentifierReference {
                span: sp(20, 25),
                name: "name1".into(),
            }))),
        })),
    }));
    let expected = hir::Statement::DoWhileStatement(Box::new(hir::DoWhileStatement {
        span: sp(30, 35),
        body: hir::Statement::EmptyStatement(Box::new(hir::EmptyStatement { span: sp(40, 45) })),
        test: hir::Expression::YieldExpression(Box::new(hir::YieldExpression {
            span: sp(10, 15),
            delegate: true,
            argument: Some(hir::Expression::Identifier(Box::new(hir::IdentifierReference {
                span: sp(20, 25),
                name: "name1".into(),
            }))),
        })),
    }));
    assert_eq!(lower(input), vec![expected]);
}

#[test]
fn lowers_expression_super() {
    let input = ast::Statement::DoWhileStatement(Box::new(ast::DoWhileStatement {
        span: sp(20, 25),
        body: ast::Statement::EmptyStatement(Box::new(ast::EmptyStatement { span: sp(30, 35) })),
        test: ast::Expression::Super(Box::new(ast::Super { span: sp(10, 15) })),
    }));
    let expected = hir::Statement::DoWhileStatement(Box::new(hir::DoWhileStatement {
        span: sp(20, 25),
        body: hir::Statement::EmptyStatement(Box::new(hir::EmptyStatement { span: sp(30, 35) })),
        test: hir::Expression::Super(Box::new(hir::Super { span: sp(10, 15) })),
    }));
    assert_eq!(lower(input), vec![expected]);
}

#[test]
fn lowers_array_expression_element_spread_element() {
    let input = ast::Statement::DoWhileStatement(Box::new(ast::DoWhileStatement {
        span: sp(50, 55),
        body: ast::Statement::EmptyStatement(Box::new(ast::EmptyStatement { span: sp(60, 65) })),
        test: ast::Expression::ArrayExpression(Box::new(ast::ArrayExpression {
            span: sp(30, 35),
            elements: vec![
                ast::ArrayExpressionElement::SpreadElement(Box::new(ast::SpreadElement {
                    span: sp(10, 15),
                    argument: ast::Expression::Identifier(Box::new(ast::IdentifierReference {
                        span: sp(20, 25),
                        name: "name1".into(),
                    })),
                })),
            ],
            trailing_comma: Some(sp(40, 45)),
        })),
    }));
    let expected = hir::Statement::DoWhileStatement(Box::new(hir::DoWhileStatement {
        span: sp(50, 55),
        body: hir::Statement::EmptyStatement(Box::new(hir::EmptyStatement { span: sp(60, 65) })),
        test: hir::Expression::ArrayExpression(Box::new(hir::ArrayExpression {
            span: sp(30, 35),
            elements: vec![
                hir::ArrayExpressionElement::SpreadElement(Box::new(hir::SpreadElement {
                    span: sp(10, 15),
                    argument: hir::Expression::Identifier(Box::new(hir::IdentifierReference {
                        span: sp(20, 25),
                        name: "name1".into(),
                    })),
                })),
            ],
            trailing_comma: Some(sp(40, 45)),
        })),
    }));
    assert_eq!(lower(input), vec![expected]);
}

#[test]
fn lowers_array_expression_element_expression() {
    let input = ast::Statement::DoWhileStatement(Box::new(ast::DoWhileStatement {
        span: sp(40, 45),
        body: ast::Statement::EmptyStatement(Box::new(ast::EmptyStatement { span: sp(50, 55) })),
        test: ast::Expression::ArrayExpression(Box::new(ast::ArrayExpression {
            span: sp(20, 25),
            elements: vec![
                ast::ArrayExpressionElement::Expression(ast::Expression::Identifier(Box::new(
                    ast::IdentifierReference { span: sp(10, 15), name: "name1".into() },
                ))),
            ],
            trailing_comma: Some(sp(30, 35)),
        })),
    }));
    let expected = hir::Statement::DoWhileStatement(Box::new(hir::DoWhileStatement {
        span: sp(40, 45),
        body: hir::Statement::EmptyStatement(Box::new(hir::EmptyStatement { span: sp(50, 55) })),
        test: hir::Expression::ArrayExpression(Box::new(hir::ArrayExpression {
            span: sp(20, 25),
            elements: vec![
                hir::ArrayExpressionElement::Expression(hir::Expression::Identifier(Box::new(
                    hir::IdentifierReference { span: sp(10, 15), name: "name1".into() },
                ))),
            ],
            trailing_comma: Some(sp(30, 35)),
        })),
    }));
    assert_eq!(lower(input), vec![expected]);
}

#[test]
fn lowers_array_expression_element_elision() {
    let input = ast::Statement::DoWhileStatement(Box::new(ast::DoWhileStatement {
        span: sp(40, 45),
        body: ast::Statement::EmptyStatement(Box::new(ast::EmptyStatement { span: sp(50, 55) })),
        test: ast::Expression::ArrayExpression(Box::new(ast::ArrayExpression {
            span: sp(20, 25),
            elements: vec![ast::ArrayExpressionElement::Elision(sp(10, 15))],
            trailing_comma: Some(sp(30, 35)),
        })),
    }));
    let expected = hir::Statement::DoWhileStatement(Box::new(hir::DoWhileStatement {
        span: sp(40, 45),
        body: hir::Statement::EmptyStatement(Box::new(hir::EmptyStatement { span: sp(50, 55) })),
        test: hir::Expression::ArrayExpression(Box::new(hir::ArrayExpression {
            span: sp(20, 25),
            elements: vec![hir::ArrayExpressionElement::Elision(sp(10, 15))],
            trailing_comma: Some(sp(30, 35)),
        })),
    }));
    assert_eq!(lower(input), vec![expected]);
}

#[test]
fn lowers_argument_spread_element() {
    let input = ast::Statement::DoWhileStatement(Box::new(ast::DoWhileStatement {
        span: sp(50, 55),
        body: ast::Statement::EmptyStatement(Box::new(ast::EmptyStatement { span: sp(60, 65) })),
        test: ast::Expression::CallExpression(Box::new(ast::CallExpression {
            span: sp(30, 35),
            callee: ast::Expression::Identifier(Box::new(ast::IdentifierReference {
                span: sp(40, 45),
                name: "name2".into(),
            })),
            arguments: vec![
                ast::Argument::SpreadElement(Box::new(ast::SpreadElement {
                    span: sp(10, 15),
                    argument: ast::Expression::Identifier(Box::new(ast::IdentifierReference {
                        span: sp(20, 25),
                        name: "name1".into(),
                    })),
                })),
            ],
            optional: true,
        })),
    }));
    let expected = hir::Statement::DoWhileStatement(Box::new(hir::DoWhileStatement {
        span: sp(50, 55),
        body: hir::Statement::EmptyStatement(Box::new(hir::EmptyStatement { span: sp(60, 65) })),
        test: hir::Expression::CallExpression(Box::new(hir::CallExpression {
            span: sp(30, 35),
            callee: hir::Expression::Identifier(Box::new(hir::IdentifierReference {
                span: sp(40, 45),
                name: "name2".into(),
            })),
            arguments: vec![
                hir::Argument::SpreadElement(Box::new(hir::SpreadElement {
                    span: sp(10, 15),
                    argument: hir::Expression::Identifier(Box::new(hir::IdentifierReference {
                        span: sp(20, 25),
                        name: "name1".into(),
                    })),
                })),
            ],
            optional: true,
        })),
    }));
    assert_eq!(lower(input), vec![expected]);
}

#[test]
fn lowers_argument_expression() {
    let input = ast::Statement::DoWhileStatement(Box::new(ast::DoWhileStatement {
        span: sp(40, 45),
        body: ast::Statement::EmptyStatement(Box::new(ast::EmptyStatement { span: sp(50, 55) })),
        test: ast::Expression::CallExpression(Box::new(ast::CallExpression {
            span: sp(20, 25),
            callee: ast::Expression::Identifier(Box::new(ast::IdentifierReference {
                span: sp(30, 35),
                name: "name2".into(),
            })),
            arguments: vec![
                ast::Argument::Expression(ast::Expression::Identifier(Box::new(
                    ast::IdentifierReference { span: sp(10, 15), name: "name1".into() },
                ))),
            ],
            optional: true,
        })),
    }));
    let expected = hir::Statement::DoWhileStatement(Box::new(hir::DoWhileStatement {
        span: sp(40, 45),
        body: hir::Statement::EmptyStatement(Box::new(hir::EmptyStatement { span: sp(50, 55) })),
        test: hir::Expression::CallExpression(Box::new(hir::CallExpression {
            span: sp(20, 25),
            callee: hir::Expression::Identifier(Box::new(hir::IdentifierReference {
                span: sp(30, 35),
                name: "name2".into(),
            })),
            arguments: vec![
                hir::Argument::Expression(hir::Expression::Identifier(Box::new(
                    hir::IdentifierReference { span: sp(10, 15), name: "name1".into() },
                ))),
            ],
            optional: true,
        })),
    }));
    assert_eq!(lower(input), vec![expected]);
}

#[test]
fn lowers_chain_element_call_expression() {
    let input = ast::Statement::DoWhileStatement(Box::new(ast::DoWhileStatement {
        span: sp(60, 65),
        body: ast::Statement::EmptyStatement(Box::new(ast::EmptyStatement { span: sp(70, 75) })),
        test: ast::Expression::ChainExpression(Box::new(ast::ChainExpression {
            span: sp(50, 55),
            expression: ast::ChainElement::CallExpression(Box::new(ast::CallExpression {
                span: sp(10, 15),
                callee: ast::Expression::Identifier(Box::new(ast::IdentifierReference {
                    span: sp(20, 25),
                    name: "name1".into(),
                })),
                arguments: vec![
                    ast::Argument::Expression(ast::Expression::Identifier(Box::new(
                        ast::IdentifierReference { span: sp(30, 35), name: "name2".into() },
                    ))),
                    ast::Argument::Expression(ast::Expression::Identifier(Box::new(
                        ast::IdentifierReference { span: sp(40, 45), name: "name3".into() },
                    ))),
                ],
                optional: true,
            })),
        })),
    }));
    let expected = hir::Statement::DoWhileStatement(Box::new(hir::DoWhileStatement {
        span: sp(60, 65),
        body: hir::Statement::EmptyStatement(Box::new(hir::EmptyStatement { span: sp(70, 75) })),
        test: hir::Expression::ChainExpression(Box::new(hir::ChainExpression {
            span: sp(50, 55),
            expression: hir::ChainElement::CallExpression(Box::new(hir::CallExpression {
                span: sp(10, 15),
                callee: hir::Expression::Identifier(Box::new(hir::IdentifierReference {
                    span: sp(20, 25),
                    name: "name1".into(),
                })),
                arguments: vec![
                    hir::Argument::Expression(hir::Expression::Identifier(Box::new(
                        hir::IdentifierReference { span: sp(30, 35), name: "name2".into() },
                    ))),
                    hir::Argument::Expression(hir::Expression::Identifier(Box::new(
                        hir::IdentifierReference { span: sp(40, 45), name: "name3".into() },
                    ))),
                ],
                optional: true,
            })),
        })),
    }));
    assert_eq!(lower(input), vec![expected]);
}

#[test]
fn lowers_chain_element_member_expression() {
    let input = ast::Statement::DoWhileStatement(Box::new(ast::DoWhileStatement {
        span: sp(50, 55),
        body: ast::Statement::EmptyStatement(Box::new(ast::EmptyStatement { span: sp(60, 65) })),
        test: ast::Expression::ChainExpression(Box::new(ast::ChainExpression {
            span: sp(40, 45),
            expression: ast::ChainElement::MemberExpression(Box::new(
                ast::MemberExpression::StaticMemberExpression(ast::StaticMemberExpression {
                    span: sp(10, 15),
                    object: ast::Expression::Identifier(Box::new(ast::IdentifierReference {
                        span: sp(20, 25),
                        name: "name1".into(),
                    })),
                    property: ast::IdentifierName { span: sp(30, 35), name: "name2".into() },
                    optional: true,
                }),
            )),
        })),
    }));
    let expected = hir::Statement::DoWhileStatement(Box::new(hir::DoWhileStatement {
        span: sp(50, 55),
        body: hir::Statement::EmptyStatement(Box::new(hir::EmptyStatement { span: sp(60, 65) })),
        test: hir::Expression::ChainExpression(Box::new(hir::ChainExpression {
            span: sp(40, 45),
            expression: hir::ChainElement::MemberExpression(Box::new(
                hir::MemberExpression::StaticMemberExpression(hir::StaticMemberExpression {
                    span: sp(10, 15),
                    object: hir::Expression::Identifier(Box::new(hir::IdentifierReference {
                        span: sp(20, 25),
                        name: "name1".into(),
                    })),
                    property: hir::IdentifierName { span: sp(30, 35), name: "name2".into() },
                    optional: true,
                }),
            )),
        })),
    }));
    assert_eq!(lower(input), vec![expected]);
}

#[test]
fn lowers_computed_member_expression() {
    let input = ast::Statement::DoWhileStatement(Box::new(ast::DoWhileStatement {
        span: sp(40, 45),
        body: ast::Statement::EmptyStatement(Box::new(ast::EmptyStatement { span: sp(50, 55) })),
        test: ast::Expression::MemberExpression(Box::new(
            ast::MemberExpression::ComputedMemberExpression(ast::ComputedMemberExpression {
                span: sp(10, 15),
                object: ast::Expression::Identifier(Box::new(ast::IdentifierReference {
                    span: sp(20, 25),
                    name: "name1".into(),
                })),
                expression: ast::Expression::Identifier(Box::new(ast::IdentifierReference {
                    span: sp(30, 35),
                    name: "name2".into(),
                })),
                optional: true,
            }),
        )),
    }));
    let expected = hir::Statement::DoWhileStatement(Box::new(hir::DoWhileStatement {
        span: sp(40, 45),
        body: hir::Statement::EmptyStatement(Box::new(hir::EmptyStatement { span: sp(50, 55) })),
        test: hir::Expression::MemberExpression(Box::new(
            hir::MemberExpression::ComputedMemberExpression(hir::ComputedMemberExpression {
                span: sp(10, 15),
                object: hir::Expression::Identifier(Box::new(hir::IdentifierReference {
                    span: sp(20, 25),
                    name: "name1".into(),
                })),
                expression: hir::Expression::Identifier(Box::new(hir::IdentifierReference {
                    span: sp(30, 35),
                    name: "name2".into(),
                })),
                optional: true,
            }),
        )),
    }));
    assert_eq!(lower(input), vec![expected]);
}

#[test]
fn lowers_static_member_expression() {
    let input = ast::Statement::DoWhileStatement(Box::new(ast::DoWhileStatement {
        span: sp(40, 45),
        body: ast::Statement::EmptyStatement(Box::new(ast::EmptyStatement { span: sp(50, 55) })),
        test: ast::Expression::MemberExpression(Box::new(
            ast::MemberExpression::StaticMemberExpression(ast::StaticMemberExpression {
                span: sp(10, 15),
                object: ast::Expression::Identifier(Box::new(ast::IdentifierReference {
                    span: sp(20, 25),
                    name: "name1".into(),
                })),
                property: ast::IdentifierName { span: sp(30, 35), name: "name2".into() },
                optional: true,
            }),
        )),
    }));
    let expected = hir::Statement::DoWhileStatement(Box::new(hir::DoWhileStatement {
        span: sp(40, 45),
        body: hir::Statement::EmptyStatement(Box::new(hir::EmptyStatement { span: sp(50, 55) })),
        test: hir::Expression::MemberExpression(Box::new(
            hir::MemberExpression::StaticMemberExpression(hir::StaticMemberExpression {
                span: sp(10, 15),
                object: hir::Expression::Identifier(Box::new(hir::IdentifierReference {
                    span: sp(20, 25),
                    name: "name1".into(),
                })),
                property: hir::IdentifierName { span: sp(30, 35), name: "name2".into() },
                optional: true,
            }),
        )),
    }));
    assert_eq!(lower(input), vec![expected]);
}

#[test]
fn lowers_member_expression_private_field_expression() {
    let input = ast::Statement::DoWhileStatement(Box::new(ast::DoWhileStatement {
        span: sp(40, 45),
        body: ast::Statement::EmptyStatement(Box::new(ast::EmptyStatement { span: sp(50, 55) })),
        test: ast::Expression::MemberExpression(Box::new(
            ast::MemberExpression::PrivateFieldExpression(ast::PrivateFieldExpression {
                span: sp(10, 15),
                object: ast::Expression::Identifier(Box::new(ast::IdentifierReference {
                    span: sp(20, 25),
                    name: "name1".into(),
                })),
                field: ast::PrivateIdentifier { span: sp(30, 35), name: "name2".into() },
                optional: true,
            }),
        )),
    }));
    let expected = hir::Statement::DoWhileStatement(Box::new(hir::DoWhileStatement {
        span: sp(40, 45),
        body: hir::Statement::EmptyStatement(Box::new(hir::EmptyStatement { span: sp(50, 55) })),
        test: hir::Expression::MemberExpression(Box::new(
            hir::MemberExpression::PrivateFieldExpression(hir::PrivateFieldExpression {
                span: sp(10, 15),
                object: hir::Expression::Identifier(Box::new(hir::IdentifierReference {
                    span: sp(20, 25),
                    name: "name1".into(),
                })),
                field: hir::PrivateIdentifier { span: sp(30, 35), name: "name2".into() },
                optional: true,
            }),
        )),
    }));
    assert_eq!(lower(input), vec![expected]);
}

#[test]
fn lowers_object_property_property() {
    let input = ast::Statement::DoWhileStatement(Box::new(ast::DoWhileStatement {
        span: sp(60, 65),
        body: ast::Statement::EmptyStatement(Box::new(ast::EmptyStatement { span: sp(70, 75) })),
        test: ast::Expression::ObjectExpression(Box::new(ast::ObjectExpression {
            span: sp(40, 45),
            properties: vec![
                ast::ObjectProperty::Property(Box::new(ast::Property {
                    span: sp(10, 15),
                    kind: ast::PropertyKind::Getter,
                    key: ast::PropertyKey::Identifier(Box::new(ast::IdentifierName {
                        span: sp(20, 25),
                        name: "name1".into(),
                    })),
                    value: ast::PropertyValue::Expression(ast::Expression::Identifier(Box::new(
                        ast::IdentifierReference { span: sp(30, 35), name: "name2".into() },
                    ))),
                    method: true,
                    shorthand: true,
                    computed: true,
                })),
            ],
            trailing_comma: Some(sp(50, 55)),
        })),
    }));
    let expected = hir::Statement::DoWhileStatement(Box::new(hir::DoWhileStatement {
        span: sp(60, 65),
        body: hir::Statement::EmptyStatement(Box::new(hir::EmptyStatement { span: sp(70, 75) })),
        test: hir::Expression::ObjectExpression(Box::new(hir::ObjectExpression {
            span: sp(40, 45),
            properties: vec![
                hir::ObjectProperty::Property(Box::new(hir::Property {
                    span: sp(10, 15),
                    kind: hir::PropertyKind::Getter,
                    key: hir::PropertyKey::Identifier(Box::new(hir::IdentifierName {
                        span: sp(20, 25),
                        name: "name1".into(),
                    })),
                    value: hir::PropertyValue::Expression(hir::Expression::Identifier(Box::new(
                        hir::IdentifierReference { span: sp(30, 35), name: "name2".into() },
                    ))),
                    method: true,
                    shorthand: true,
                    computed: true,
                })),
            ],
            trailing_comma: Some(sp(50, 55)),
        })),
    }));
    assert_eq!(lower(input), vec![expected]);
}

#[test]
fn lowers_object_property_spread_property() {
    let input = ast::Statement::DoWhileStatement(Box::new(ast::DoWhileStatement {
        span: sp(50, 55),
        body: ast::Statement::EmptyStatement(Box::new(ast::EmptyStatement { span: sp(60, 65) })),
        test: ast::Expression::ObjectExpression(Box::new(ast::ObjectExpression {
            span: sp(30, 35),
            properties: vec![
                ast::ObjectProperty::SpreadProperty(Box::new(ast::SpreadElement {
                    span: sp(10, 15),
                    argument: ast::Expression::Identifier(Box::new(ast::IdentifierReference {
                        span: sp(20, 25),
                        name: "name1".into(),
                    })),
                })),
            ],
            trailing_comma: Some(sp(40, 45)),
        })),
    }));
    let expected = hir::Statement::DoWhileStatement(Box::new(hir::DoWhileStatement {
        span: sp(50, 55),
        body: hir::Statement::EmptyStatement(Box::new(hir::EmptyStatement { span: sp(60, 65) })),
        test: hir::Expression::ObjectExpression(Box::new(hir::ObjectExpression {
            span: sp(30, 35),
            properties: vec![
                hir::ObjectProperty::SpreadProperty(Box::new(hir::SpreadElement {
                    span: sp(10, 15),
                    argument: hir::Expression::Identifier(Box::new(hir::IdentifierReference {
                        span: sp(20, 25),
                        name: "name1".into(),
                    })),
                })),
            ],
            trailing_comma: Some(sp(40, 45)),
        })),
    }));
    assert_eq!(lower(input), vec![expected]);
}

#[test]
fn lowers_property_key_identifier() {
    let input = ast::Statement::DoWhileStatement(Box::new(ast::DoWhileStatement {
        span: sp(60, 65),
        body: ast::Statement::EmptyStatement(Box::new(ast::EmptyStatement { span: sp(70, 75) })),
        test: ast::Expression::ObjectExpression(Box::new(ast::ObjectExpression {
            span: sp(40, 45),
            properties: vec![
                ast::ObjectProperty::Property(Box::new(ast::Property {
                    span: sp(20, 25),
                    kind: ast::PropertyKind::Getter,
                    key: ast::PropertyKey::Identifier(Box::new(ast::IdentifierName {
                        span: sp(10, 15),
                        name: "name1".into(),
                    })),
                    value: ast::PropertyValue::Expression(ast::Expression::Identifier(Box::new(
                        ast::IdentifierReference { span: sp(30, 35), name: "name2".into() },
                    ))),
                    method: true,
                    shorthand: true,
                    computed: true,
                })),
            ],
            trailing_comma: Some(sp(50, 55)),
        })),
    }));
    let expected = hir::Statement::DoWhileStatement(Box::new(hir::DoWhileStatement {
        span: sp(60, 65),
        body: hir::Statement::EmptyStatement(Box::new(hir::EmptyStatement { span: sp(70, 75) })),
        test: hir::Expression::ObjectExpression(Box::new(hir::ObjectExpression {
            span: sp(40, 45),
            properties: vec![
                hir::ObjectProperty::Property(Box::new(hir::Property {
                    span: sp(20, 25),
                    kind: hir::PropertyKind::Getter,
                    key: hir::PropertyKey::Identifier(Box::new(hir::IdentifierName {
                        span: sp(10, 15),
                        name: "name1".into(),
                    })),
                    value: hir::PropertyValue::Expression(hir::Expression::Identifier(Box::new(
                        hir::IdentifierReference { span: sp(30, 35), name: "name2".into() },
                    ))),
                    method: true,
                    shorthand: true,
                    computed: true,
                })),
            ],
            trailing_comma: Some(sp(50, 55)),
        })),
    }));
    assert_eq!(lower(input), vec![expected]);
}

#[test]
fn lowers_property_key_private_identifier() {
    let input = ast::Statement::DoWhileStatement(Box::new(ast::DoWhileStatement {
        span: sp(60, 65),
        body: ast::Statement::EmptyStatement(Box::new(ast::EmptyStatement { span: sp(70, 75) })),
        test: ast::Expression::ObjectExpression(Box::new(ast::ObjectExpression {
            span: sp(40, 45),
            properties: vec![
                ast::ObjectProperty::Property(Box::new(ast::Property {
                    span: sp(20, 25),
                    kind: ast::PropertyKind::Getter,
                    key: ast::PropertyKey::PrivateIdentifier(Box::new(ast::PrivateIdentifier {
                        span: sp(10, 15),
                        name: "name1".into(),
                    })),
                    value: ast::PropertyValue::Expression(ast::Expression::Identifier(Box::new(
                        ast::IdentifierReference { span: sp(30, 35), name: "name2".into() },
                    ))),
                    method: true,
                    shorthand: true,
                    computed: true,
                })),
            ],
            trailing_comma: Some(sp(50, 55)),
        })),
    }));
    let expected = hir::Statement::DoWhileStatement(Box::new(hir::DoWhileStatement {
        span: sp(60, 65),
        body: hir::Statement::EmptyStatement(Box::new(hir::EmptyStatement { span: sp(70, 75) })),
        test: hir::Expression::ObjectExpression(Box::new(hir::ObjectExpression {
            span: sp(40, 45),
            properties: vec![
                hir::ObjectProperty::Property(Box::new(hir::Property {
                    span: sp(20, 25),
                    kind: hir::PropertyKind::Getter,
                    key: hir::PropertyKey::PrivateIdentifier(Box::new(hir::PrivateIdentifier {
                        span: sp(10, 15),
                        name: "name1".into(),
                    })),
                    value: hir::PropertyValue::Expression(hir::Expression::Identifier(Box::new(
                        hir::IdentifierReference { span: sp(30, 35), name: "name2".into() },
                    ))),
                    method: true,
                    shorthand: true,
                    computed: true,
                })),
            ],
            trailing_comma: Some(sp(50, 55)),
        })),
    }));
    assert_eq!(lower(input), vec![expected]);
}

#[test]
fn lowers_property_key_expression() {
    let input = ast::Statement::DoWhileStatement(Box::new(ast::DoWhileStatement {
        span: sp(60, 65),
        body: ast::Statement::EmptyStatement(Box::new(ast::EmptyStatement { span: sp(70, 75) })),
        test: ast::Expression::ObjectExpression(Box::new(ast::ObjectExpression {
            span: sp(40, 45),
            properties: vec![
                ast::ObjectProperty::Property(Box::new(ast::Property {
                    span: sp(20, 25),
                    kind: ast::PropertyKind::Getter,
                    key: ast::PropertyKey::Expression(ast::Expression::Identifier(Box::new(
                        ast::IdentifierReference { span: sp(10, 15), name: "name1".into() },
                    ))),
                    value: ast::PropertyValue::Expression(ast::Expression::Identifier(Box::new(
                        ast::IdentifierReference { span: sp(30, 35), name: "name2".into() },
                    ))),
                    method: true,
                    shorthand: true,
                    computed: true,
                })),
            ],
            trailing_comma: Some(sp(50, 55)),
        })),
    }));
    let expected = hir::Statement::DoWhileStatement(Box::new(hir::DoWhileStatement {
        span: sp(60, 65),
        body: hir::Statement::EmptyStatement(Box::new(hir::EmptyStatement { span: sp(70, 75) })),
        test: hir::Expression::ObjectExpression(Box::new(hir::ObjectExpression {
            span: sp(40, 45),
            properties: vec![
                hir::ObjectProperty::Property(Box::new(hir::Property {
                    span: sp(20, 25),
                    kind: hir::PropertyKind::Getter,
                    key: hir::PropertyKey::Expression(hir::Expression::Identifier(Box::new(
                        hir::IdentifierReference { span: sp(10, 15), name: "name1".into() },
                    ))),
                    value: hir::PropertyValue::Expression(hir::Expression::Identifier(Box::new(
                        hir::IdentifierReference { span: sp(30, 35), name: "name2".into() },
                    ))),
                    method: true,
                    shorthand: true,
                    computed: true,
                })),
            ],
            trailing_comma: Some(sp(50, 55)),
        })),
    }));
    assert_eq!(lower(input), vec![expected]);
}

#[test]
fn lowers_property_value_pattern() {
    let input = ast::Statement::DoWhileStatement(Box::new(ast::DoWhileStatement {
        span: sp(60, 65),
        body: ast::Statement::EmptyStatement(Box::new(ast::EmptyStatement { span: sp(70, 75) })),
        test: ast::Expression::ObjectExpression(Box::new(ast::ObjectExpression {
            span: sp(40, 45),
            properties: vec![
                ast::ObjectProperty::Property(Box::new(ast::Property {
                    span: sp(20, 25),
                    kind: ast::PropertyKind::Getter,
                    key: ast::PropertyKey::Identifier(Box::new(ast::IdentifierName {
                        span: sp(30, 35),
                        name: "name2".into(),
                    })),
                    value: ast::PropertyValue::Pattern(ast::BindingPattern {
                        kind: ast::BindingPatternKind::BindingIdentifier(Box::new(
                            ast::BindingIdentifier { span: sp(10, 15), name: "name1".into() },
                        )),
                    }),
                    method: true,
                    shorthand: true,
                    computed: true,
                })),
            ],
            trailing_comma: Some(sp(50, 55)),
        })),
    }));
    let expected = hir::Statement::DoWhileStatement(Box::new(hir::DoWhileStatement {
        span: sp(60, 65),
        body: hir::Statement::EmptyStatement(Box::new(hir::EmptyStatement { span: sp(70, 75) })),
        test: hir::Expression::ObjectExpression(Box::new(hir::ObjectExpression {
            span: sp(40, 45),
            properties: vec![
                hir::ObjectProperty::Property(Box::new(hir::Property {
                    span: sp(20, 25),
                    kind: hir::PropertyKind::Getter,
                    key: hir::PropertyKey::Identifier(Box::new(hir::IdentifierName {
                        span: sp(30, 35),
                        name: "name2".into(),
                    })),
                    value: hir::PropertyValue::Pattern(hir::BindingPattern::BindingIdentifier(
                        Box::new(hir::BindingIdentifier { span: sp(10, 15), name: "name1".into() }),
                    )),
                    method: true,
                    shorthand: true,
                    computed: true,
                })),
            ],
            trailing_comma: Some(sp(50, 55)),
        })),
    }));
    assert_eq!(lower(input), vec![expected]);
}

#[test]
fn lowers_property_value_expression() {
    let input = ast::Statement::DoWhileStatement(Box::new(ast::DoWhileStatement {
        span: sp(60, 65),
        body: ast::Statement::EmptyStatement(Box::new(ast::EmptyStatement { span: sp(70, 75) })),
        test: ast::Expression::ObjectExpression(Box::new(ast::ObjectExpression {
            span: sp(40, 45),
            properties: vec![
                ast::ObjectProperty::Property(Box::new(ast::Property {
                    span: sp(20, 25),
                    kind: ast::PropertyKind::Getter,
                    key: ast::PropertyKey::Identifier(Box::new(ast::IdentifierName {
                        span: sp(30, 35),
                        name: "name2".into(),
                    })),
                    value: ast::PropertyValue::Expression(ast::Expression::Identifier(Box::new(
                        ast::IdentifierReference { span: sp(10, 15), name: "name1".into() },
                    ))),
                    method: true,
                    shorthand: true,
                    computed: true,
                })),
            ],
            trailing_comma: Some(sp(50, 55)),
        })),
    }));
    let expected = hir::Statement::DoWhileStatement(Box::new(hir::DoWhileStatement {
        span: sp(60, 65),
        body: hir::Statement::EmptyStatement(Box::new(hir::EmptyStatement { span: sp(70, 75) })),
        test: hir::Expression::ObjectExpression(Box::new(hir::ObjectExpression {
            span: sp(40, 45),
            properties: vec![
                hir::ObjectProperty::Property(Box::new(hir::Property {
                    span: sp(20, 25),
                    kind: hir::PropertyKind::Getter,
                    key: hir::PropertyKey::Identifier(Box::new(hir::IdentifierName {
                        span: sp(30, 35),
                        name: "name2".into(),
                    })),
                    value: hir::PropertyValue::Expression(hir::Expression::Identifier(Box::new(
                        hir::IdentifierReference { span: sp(10, 15), name: "name1".into() },
                    ))),
                    method: true,
                    shorthand: true,
                    computed: true,
                })),
            ],
            trailing_comma: Some(sp(50, 55)),
        })),
    }));
    assert_eq!(lower(input), vec![expected]);
}
