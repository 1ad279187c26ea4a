//! The syntax tree as a parser hands it over: every construct of the surface
//! language, including those that only matter to static typing and those that
//! later stages cannot handle yet.

use vstd::prelude::*;
use oxc_span::{Atom, Span};

verus! {

// Program

/// Root of a tree: a whole script or module.
#[derive(Debug, PartialEq)]
pub struct Program {
    pub span: Span,
    pub directives: Vec<Directive>,
    pub body: Vec<Statement>,
}

/// Directive prologue entry such as `"use strict"`.
#[derive(Debug, PartialEq)]
pub struct Directive {
    pub span: Span,
    pub expression: StringLiteral,
    pub directive: String,
}

// Statements

/// Statement of any kind.
#[derive(Debug, PartialEq)]
pub enum Statement {
    BlockStatement(Box<BlockStatement>),
    BreakStatement(Box<BreakStatement>),
    ContinueStatement(Box<ContinueStatement>),
    DebuggerStatement(Box<DebuggerStatement>),
    DoWhileStatement(Box<DoWhileStatement>),
    EmptyStatement(Box<EmptyStatement>),
    ExpressionStatement(Box<ExpressionStatement>),
    ForInStatement(Box<ForInStatement>),
    ForOfStatement(Box<ForOfStatement>),
    ForStatement(Box<ForStatement>),
    IfStatement(Box<IfStatement>),
    LabeledStatement(Box<LabeledStatement>),
    ReturnStatement(Box<ReturnStatement>),
    SwitchStatement(Box<SwitchStatement>),
    ThrowStatement(Box<ThrowStatement>),
    TryStatement(Box<TryStatement>),
    WhileStatement(Box<WhileStatement>),
    WithStatement(Box<WithStatement>),
    ModuleDeclaration(Box<ModuleDeclaration>),
    Declaration(Declaration),
}

impl Statement {
    /// Source range of the node this value holds.
    pub open spec fn spec_span(&self) -> Span {
        match self {
            Statement::BlockStatement(x) => x.span,
            Statement::BreakStatement(x) => x.span,
            Statement::ContinueStatement(x) => x.span,
            Statement::DebuggerStatement(x) => x.span,
            Statement::DoWhileStatement(x) => x.span,
            Statement::EmptyStatement(x) => x.span,
            Statement::ExpressionStatement(x) => x.span,
            Statement::ForInStatement(x) => x.span,
            Statement::ForOfStatement(x) => x.span,
            Statement::ForStatement(x) => x.span,
            Statement::IfStatement(x) => x.span,
            Statement::LabeledStatement(x) => x.span,
            Statement::ReturnStatement(x) => x.span,
            Statement::SwitchStatement(x) => x.span,
            Statement::ThrowStatement(x) => x.span,
            Statement::TryStatement(x) => x.span,
            Statement::WhileStatement(x) => x.span,
            Statement::WithStatement(x) => x.span,
            Statement::ModuleDeclaration(x) => x.span(),
            Statement::Declaration(x) => x.span(),
        }
    }

    /// Returns the source range of the node this value holds.
    #[verifier::when_used_as_spec(spec_span)]
    pub fn span(&self) -> (span: Span)
        ensures
            span == self.spec_span(),
    {
        match self {
            Statement::BlockStatement(x) => x.span,
            Statement::BreakStatement(x) => x.span,
            Statement::ContinueStatement(x) => x.span,
            Statement::DebuggerStatement(x) => x.span,
            Statement::DoWhileStatement(x) => x.span,
            Statement::EmptyStatement(x) => x.span,
            Statement::ExpressionStatement(x) => x.span,
            Statement::ForInStatement(x) => x.span,
            Statement::ForOfStatement(x) => x.span,
            Statement::ForStatement(x) => x.span,
            Statement::IfStatement(x) => x.span,
            Statement::LabeledStatement(x) => x.span,
            Statement::ReturnStatement(x) => x.span,
            Statement::SwitchStatement(x) => x.span,
            Statement::ThrowStatement(x) => x.span,
            Statement::TryStatement(x) => x.span,
            Statement::WhileStatement(x) => x.span,
            Statement::WithStatement(x) => x.span,
            Statement::ModuleDeclaration(x) => x.span(),
            Statement::Declaration(x) => x.span(),
        }
    }
}

/// Braced statement list.
#[derive(Debug, PartialEq)]
pub struct BlockStatement {
    pub span: Span,
    pub body: Vec<Statement>,
}

/// `break` with an optional label.
#[derive(Debug, PartialEq)]
pub struct BreakStatement {
    pub span: Span,
    pub label: Option<LabelIdentifier>,
}

/// `continue` with an optional label.
#[derive(Debug, PartialEq)]
pub struct ContinueStatement {
    pub span: Span,
    pub label: Option<LabelIdentifier>,
}

/// `debugger` statement.
#[derive(Debug, PartialEq)]
pub struct DebuggerStatement {
    pub span: Span,
}

/// `do ... while (...)` loop.
#[derive(Debug, PartialEq)]
pub struct DoWhileStatement {
    pub span: Span,
    pub body: Statement,
    pub test: Expression,
}

/// Lone semicolon.
#[derive(Debug, PartialEq)]
pub struct EmptyStatement {
    pub span: Span,
}

/// Expression in statement position.
#[derive(Debug, PartialEq)]
pub struct ExpressionStatement {
    pub span: Span,
    pub expression: Expression,
}

/// Three-part `for` loop.
#[derive(Debug, PartialEq)]
pub struct ForStatement {
    pub span: Span,
    pub init: Option<ForStatementInit>,
    pub test: Option<Expression>,
    pub update: Option<Expression>,
    pub body: Statement,
}

/// Initialiser of a three-part `for` loop.
#[derive(Debug, PartialEq)]
pub enum ForStatementInit {
    VariableDeclaration(Box<VariableDeclaration>),
    Expression(Expression),
}

/// `for ... in` loop.
#[derive(Debug, PartialEq)]
pub struct ForInStatement {
    pub span: Span,
    pub left: ForStatementLeft,
    pub right: Expression,
    pub body: Statement,
}

/// `for ... of` loop; `is_await` marks `for await`.
#[derive(Debug, PartialEq)]
pub struct ForOfStatement {
    pub span: Span,
    pub is_await: bool,
    pub left: ForStatementLeft,
    pub right: Expression,
    pub body: Statement,
}

/// Left-hand side of a `for ... in` or `for ... of` loop.
#[derive(Debug, PartialEq)]
pub enum ForStatementLeft {
    VariableDeclaration(Box<VariableDeclaration>),
    AssignmentTarget(AssignmentTarget),
}

/// `if` with an optional `else` branch.
#[derive(Debug, PartialEq)]
pub struct IfStatement {
    pub span: Span,
    pub test: Expression,
    pub consequent: Statement,
    pub alternate: Option<Statement>,
}

/// Statement carrying a label.
#[derive(Debug, PartialEq)]
pub struct LabeledStatement {
    pub span: Span,
    pub label: LabelIdentifier,
    pub body: Statement,
}

/// `return` with an optional value.
#[derive(Debug, PartialEq)]
pub struct ReturnStatement {
    pub span: Span,
    pub argument: Option<Expression>,
}

/// `switch` statement.
#[derive(Debug, PartialEq)]
pub struct SwitchStatement {
    pub span: Span,
    pub discriminant: Expression,
    pub cases: Vec<SwitchCase>,
}

/// One `case` or `default` clause; `test` is absent for `default`.
#[derive(Debug, PartialEq)]
pub struct SwitchCase {
    pub span: Span,
    pub test: Option<Expression>,
    pub consequent: Vec<Statement>,
}

/// `throw` statement.
#[derive(Debug, PartialEq)]
pub struct ThrowStatement {
    pub span: Span,
    pub argument: Expression,
}

/// `try` with optional `catch` and `finally`.
#[derive(Debug, PartialEq)]
pub struct TryStatement {
    pub span: Span,
    pub block: Box<BlockStatement>,
    pub handler: Option<Box<CatchClause>>,
    pub finalizer: Option<Box<BlockStatement>>,
}

/// `catch` clause with an optional binding.
#[derive(Debug, PartialEq)]
pub struct CatchClause {
    pub span: Span,
    pub param: Option<BindingPattern>,
    pub body: Box<BlockStatement>,
}

/// `while` loop.
#[derive(Debug, PartialEq)]
pub struct WhileStatement {
    pub span: Span,
    pub test: Expression,
    pub body: Statement,
}

/// `with` statement.
#[derive(Debug, PartialEq)]
pub struct WithStatement {
    pub span: Span,
    pub object: Expression,
    pub body: Statement,
}

// Expressions

/// Whether an object property is a plain value, a getter or a setter.
#[derive(Debug, Clone, Copy, PartialEq, Eq, Structural)]
pub enum PropertyKind {
    Init,
    Getter,
    Setter,
}

/// Expression of any kind.
#[derive(Debug, PartialEq)]
pub enum Expression {
    BigintLiteral(Box<BigintLiteral>),
    BooleanLiteral(Box<BooleanLiteral>),
    NullLiteral(Box<NullLiteral>),
    NumberLiteral(Box<NumberLiteral>),
    RegExpLiteral(Box<RegExpLiteral>),
    StringLiteral(Box<StringLiteral>),
    TemplateLiteral(Box<TemplateLiteral>),
    Identifier(Box<IdentifierReference>),
    MetaProperty(Box<MetaProperty>),
    ArrayExpression(Box<ArrayExpression>),
    ArrowFunctionExpression(Box<ArrowExpression>),
    AssignmentExpression(Box<AssignmentExpression>),
    AwaitExpression(Box<AwaitExpression>),
    BinaryExpression(Box<BinaryExpression>),
    CallExpression(Box<CallExpression>),
    ChainExpression(Box<ChainExpression>),
    ClassExpression(Box<Class>),
    ConditionalExpression(Box<ConditionalExpression>),
    FunctionExpression(Box<Function>),
    ImportExpression(Box<ImportExpression>),
    LogicalExpression(Box<LogicalExpression>),
    MemberExpression(Box<MemberExpression>),
    NewExpression(Box<NewExpression>),
    ObjectExpression(Box<ObjectExpression>),
    PrivateInExpression(Box<PrivateInExpression>),
    SequenceExpression(Box<SequenceExpression>),
    TaggedTemplateExpression(Box<TaggedTemplateExpression>),
    ThisExpression(Box<ThisExpression>),
    UnaryExpression(Box<UnaryExpression>),
    UpdateExpression(Box<UpdateExpression>),
    YieldExpression(Box<YieldExpression>),
    Super(Box<Super>),
    JSXElement(Box<JSXElement>),
    JSXFragment(Box<JSXFragment>),
    ParenthesizedExpression(Box<ParenthesizedExpression>),
    TSAsExpression(Box<TSAsExpression>),
    TSSatisfiesExpression(Box<TSSatisfiesExpression>),
    TSNonNullExpression(Box<TSNonNullExpression>),
    TSTypeAssertion(Box<TSTypeAssertion>),
    TSInstantiationExpression(Box<TSInstantiationExpression>),
}

impl Expression {
    /// Source range of the node this value holds.
    pub open spec fn span(&self) -> Span {
        match self {
            Expression::BigintLiteral(x) => x.span,
            Expression::BooleanLiteral(x) => x.span,
            Expression::NullLiteral(x) => x.span,
            Expression::NumberLiteral(x) => x.span,
            Expression::RegExpLiteral(x) => x.span,
            Expression::StringLiteral(x) => x.span,
            Expression::TemplateLiteral(x) => x.span,
            Expression::Identifier(x) => x.span,
            Expression::MetaProperty(x) => x.span,
            Expression::ArrayExpression(x) => x.span,
            Expression::ArrowFunctionExpression(x) => x.span,
            Expression::AssignmentExpression(x) => x.span,
            Expression::AwaitExpression(x) => x.span,
            Expression::BinaryExpression(x) => x.span,
            Expression::CallExpression(x) => x.span,
            Expression::ChainExpression(x) => x.span,
            Expression::ClassExpression(x) => x.span,
            Expression::ConditionalExpression(x) => x.span,
            Expression::FunctionExpression(x) => x.span,
            Expression::ImportExpression(x) => x.span,
            Expression::LogicalExpression(x) => x.span,
            Expression::MemberExpression(x) => x.span(),
            Expression::NewExpression(x) => x.span,
            Expression::ObjectExpression(x) => x.span,
            Expression::PrivateInExpression(x) => x.span,
            Expression::SequenceExpression(x) => x.span,
            Expression::TaggedTemplateExpression(x) => x.span,
            Expression::ThisExpression(x) => x.span,
            Expression::UnaryExpression(x) => x.span,
            Expression::UpdateExpression(x) => x.span,
            Expression::YieldExpression(x) => x.span,
            Expression::Super(x) => x.span,
            Expression::JSXElement(x) => x.span,
            Expression::JSXFragment(x) => x.span,
            Expression::ParenthesizedExpression(x) => x.span,
            Expression::TSAsExpression(x) => x.span,
            Expression::TSSatisfiesExpression(x) => x.span,
            Expression::TSNonNullExpression(x) => x.span,
            Expression::TSTypeAssertion(x) => x.span,
            Expression::TSInstantiationExpression(x) => x.span,
        }
    }
}

/// `new.target` or `import.meta`.
#[derive(Debug, PartialEq)]
pub struct MetaProperty {
    pub span: Span,
    pub meta: IdentifierName,
    pub property: IdentifierName,
}

/// Array literal.
#[derive(Debug, PartialEq)]
pub struct ArrayExpression {
    pub span: Span,
    pub elements: Vec<ArrayExpressionElement>,
    pub trailing_comma: Option<Span>,
}

/// Slot of an array literal; `Elision` is a hole.
#[derive(Debug, PartialEq)]
pub enum ArrayExpressionElement {
    SpreadElement(Box<SpreadElement>),
    Expression(Expression),
    Elision(Span),
}

/// Call argument.
#[derive(Debug, PartialEq)]
pub enum Argument {
    SpreadElement(Box<SpreadElement>),
    Expression(Expression),
}

/// `...` applied to an expression.
#[derive(Debug, PartialEq)]
pub struct SpreadElement {
    pub span: Span,
    pub argument: Expression,
}

/// Assignment, plain or compound.
#[derive(Debug, PartialEq)]
pub struct AssignmentExpression {
    pub span: Span,
    pub operator: AssignmentOperator,
    pub left: AssignmentTarget,
    pub right: Expression,
}

/// Arrow function.
#[derive(Debug, PartialEq)]
pub struct ArrowExpression {
    pub span: Span,
    pub expression: bool,
    pub generator: bool,
    pub is_async: bool,
    pub params: Box<FormalParameters>,
    pub body: Box<FunctionBody>,
}

/// `await` expression.
#[derive(Debug, PartialEq)]
pub struct AwaitExpression {
    pub span: Span,
    pub argument: Expression,
}

/// Binary expression.
#[derive(Debug, PartialEq)]
pub struct BinaryExpression {
    pub span: Span,
    pub left: Expression,
    pub operator: BinaryOperator,
    pub right: Expression,
}

/// Function call; `optional` marks `?.()`.
#[derive(Debug, PartialEq)]
pub struct CallExpression {
    pub span: Span,
    pub callee: Expression,
    pub arguments: Vec<Argument>,
    pub optional: bool,
}

/// Optional chain.
#[derive(Debug, PartialEq)]
pub struct ChainExpression {
    pub span: Span,
    pub expression: ChainElement,
}

/// What an optional chain wraps: a call or a member access.
#[derive(Debug, PartialEq)]
pub enum ChainElement {
    CallExpression(Box<CallExpression>),
    MemberExpression(Box<MemberExpression>),
}

/// Ternary conditional.
#[derive(Debug, PartialEq)]
pub struct ConditionalExpression {
    pub span: Span,
    pub test: Expression,
    pub consequent: Expression,
    pub alternate: Expression,
}

/// Dynamic `import(...)`.
#[derive(Debug, PartialEq)]
pub struct ImportExpression {
    pub span: Span,
    pub source: Expression,
    pub arguments: Vec<Expression>,
}

/// Short-circuiting logical expression.
#[derive(Debug, PartialEq)]
pub struct LogicalExpression {
    pub span: Span,
    pub left: Expression,
    pub operator: LogicalOperator,
    pub right: Expression,
}

/// Member access.
#[derive(Debug, PartialEq)]
pub enum MemberExpression {
    ComputedMemberExpression(ComputedMemberExpression),
    StaticMemberExpression(StaticMemberExpression),
    PrivateFieldExpression(PrivateFieldExpression),
}

impl MemberExpression {
    /// Source range of the node this value holds.
    pub open spec fn span(&self) -> Span {
        match self {
            MemberExpression::ComputedMemberExpression(x) => x.span,
            MemberExpression::StaticMemberExpression(x) => x.span,
            MemberExpression::PrivateFieldExpression(x) => x.span,
        }
    }
}

/// `object[expression]`.
#[derive(Debug, PartialEq)]
pub struct ComputedMemberExpression {
    pub span: Span,
    pub object: Expression,
    pub expression: Expression,
    pub optional: bool,
}

/// `object.property`.
#[derive(Debug, PartialEq)]
pub struct StaticMemberExpression {
    pub span: Span,
    pub object: Expression,
    pub property: IdentifierName,
    pub optional: bool,
}

/// `object.#field`.
#[derive(Debug, PartialEq)]
pub struct PrivateFieldExpression {
    pub span: Span,
    pub object: Expression,
    pub field: PrivateIdentifier,
    pub optional: bool,
}

/// `new` expression.
#[derive(Debug, PartialEq)]
pub struct NewExpression {
    pub span: Span,
    pub callee: Expression,
    pub arguments: Vec<Argument>,
}

/// Object literal.
#[derive(Debug, PartialEq)]
pub struct ObjectExpression {
    pub span: Span,
    pub properties: Vec<ObjectProperty>,
    pub trailing_comma: Option<Span>,
}

/// Member of an object literal.
#[derive(Debug, PartialEq)]
pub enum ObjectProperty {
    Property(Box<Property>),
    SpreadProperty(Box<SpreadElement>),
}

/// Keyed member of an object literal or object pattern.
#[derive(Debug, PartialEq)]
pub struct Property {
    pub span: Span,
    pub kind: PropertyKind,
    pub key: PropertyKey,
    pub value: PropertyValue,
    pub method: bool,
    pub shorthand: bool,
    pub computed: bool,
}

/// Key of a property or class member.
#[derive(Debug, PartialEq)]
pub enum PropertyKey {
    Identifier(Box<IdentifierName>),
    PrivateIdentifier(Box<PrivateIdentifier>),
    Expression(Expression),
}

/// Value of a property: a pattern inside a destructuring, an expression otherwise.
#[derive(Debug, PartialEq)]
pub enum PropertyValue {
    Pattern(BindingPattern),
    Expression(Expression),
}

/// `#field in object`.
#[derive(Debug, PartialEq)]
pub struct PrivateInExpression {
    pub span: Span,
    pub left: PrivateIdentifier,
    pub right: Expression,
}

/// Comma-separated expressions.
#[derive(Debug, PartialEq)]
pub struct SequenceExpression {
    pub span: Span,
    pub expressions: Vec<Expression>,
}

/// Template literal applied to a tag.
#[derive(Debug, PartialEq)]
pub struct TaggedTemplateExpression {
    pub span: Span,
    pub tag: Expression,
    pub quasi: TemplateLiteral,
}

/// `this`.
#[derive(Debug, PartialEq)]
pub struct ThisExpression {
    pub span: Span,
}

/// Unary expression.
#[derive(Debug, PartialEq)]
pub struct UnaryExpression {
    pub span: Span,
    pub operator: UnaryOperator,
    pub prefix: bool,
    pub argument: Expression,
}

/// `++` or `--`, prefix or postfix.
#[derive(Debug, PartialEq)]
pub struct UpdateExpression {
    pub span: Span,
    pub operator: UpdateOperator,
    pub prefix: bool,
    pub argument: SimpleAssignmentTarget,
}

/// `yield`; `delegate` marks `yield*`.
#[derive(Debug, PartialEq)]
pub struct YieldExpression {
    pub span: Span,
    pub delegate: bool,
    pub argument: Option<Expression>,
}

/// `super`.
#[derive(Debug, PartialEq)]
pub struct Super {
    pub span: Span,
}

/// Markup element. Only its position is kept: the element is not lowered.
#[derive(Debug, PartialEq)]
pub struct JSXElement {
    pub span: Span,
}

/// Markup fragment. Only its position is kept: the fragment is not lowered.
#[derive(Debug, PartialEq)]
pub struct JSXFragment {
    pub span: Span,
}

/// Expression in parentheses. The wrapper has no runtime meaning.
#[derive(Debug, PartialEq)]
pub struct ParenthesizedExpression {
    pub span: Span,
    pub expression: Expression,
}

/// `expression as Type`. The wrapper has no runtime meaning.
#[derive(Debug, PartialEq)]
pub struct TSAsExpression {
    pub span: Span,
    pub expression: Expression,
}

/// `expression satisfies Type`. The wrapper has no runtime meaning.
#[derive(Debug, PartialEq)]
pub struct TSSatisfiesExpression {
    pub span: Span,
    pub expression: Expression,
}

/// `expression!`. The wrapper has no runtime meaning.
#[derive(Debug, PartialEq)]
pub struct TSNonNullExpression {
    pub span: Span,
    pub expression: Expression,
}

/// `<Type>expression`. The wrapper has no runtime meaning.
#[derive(Debug, PartialEq)]
pub struct TSTypeAssertion {
    pub span: Span,
    pub expression: Expression,
}

/// `expression<Type>`. The wrapper has no runtime meaning.
#[derive(Debug, PartialEq)]
pub struct TSInstantiationExpression {
    pub span: Span,
    pub expression: Expression,
}

// Operators

/// Operator of an assignment expression.
#[derive(Debug, Clone, Copy, PartialEq, Eq, Structural)]
pub enum AssignmentOperator {
    Assign,
    Addition,
    Subtraction,
    Multiplication,
    Division,
    Remainder,
    ShiftLeft,
    ShiftRight,
    ShiftRightZeroFill,
    BitwiseOR,
    BitwiseXOR,
    BitwiseAnd,
    LogicalAnd,
    LogicalOr,
    LogicalNullish,
    Exponential,
}

impl AssignmentOperator {
    /// The symbol this operator is written with.
    pub open spec fn symbol(self) -> Seq<char> {
        match self {
            AssignmentOperator::Assign => "="@,
            AssignmentOperator::Addition => "+="@,
            AssignmentOperator::Subtraction => "-="@,
            AssignmentOperator::Multiplication => "*="@,
            AssignmentOperator::Division => "/="@,
            AssignmentOperator::Remainder => "%="@,
            AssignmentOperator::ShiftLeft => "<<="@,
            AssignmentOperator::ShiftRight => ">>="@,
            AssignmentOperator::ShiftRightZeroFill => ">>>="@,
            AssignmentOperator::BitwiseOR => "|="@,
            AssignmentOperator::BitwiseXOR => "^="@,
            AssignmentOperator::BitwiseAnd => "&="@,
            AssignmentOperator::LogicalAnd => "&&="@,
            AssignmentOperator::LogicalOr => "||="@,
            AssignmentOperator::LogicalNullish => "??="@,
            AssignmentOperator::Exponential => "**="@,
        }
    }

    /// Returns the symbol this operator is written with.
    pub fn as_str(&self) -> (s: &'static str)
        ensures
            s@ == self.symbol(),
    {
        match self {
            AssignmentOperator::Assign => "=",
            AssignmentOperator::Addition => "+=",
            AssignmentOperator::Subtraction => "-=",
            AssignmentOperator::Multiplication => "*=",
            AssignmentOperator::Division => "/=",
            AssignmentOperator::Remainder => "%=",
            AssignmentOperator::ShiftLeft => "<<=",
            AssignmentOperator::ShiftRight => ">>=",
            AssignmentOperator::ShiftRightZeroFill => ">>>=",
            AssignmentOperator::BitwiseOR => "|=",
            AssignmentOperator::BitwiseXOR => "^=",
            AssignmentOperator::BitwiseAnd => "&=",
            AssignmentOperator::LogicalAnd => "&&=",
            AssignmentOperator::LogicalOr => "||=",
            AssignmentOperator::LogicalNullish => "??=",
            AssignmentOperator::Exponential => "**=",
        }
    }
}

/// Operator of a binary expression.
#[derive(Debug, Clone, Copy, PartialEq, Eq, Structural)]
pub enum BinaryOperator {
    Equality,
    Inequality,
    StrictEquality,
    StrictInequality,
    LessThan,
    LessEqualThan,
    GreaterThan,
    GreaterEqualThan,
    ShiftLeft,
    ShiftRight,
    ShiftRightZeroFill,
    Addition,
    Subtraction,
    Multiplication,
    Division,
    Remainder,
    BitwiseOR,
    BitwiseXOR,
    BitwiseAnd,
    In,
    Instanceof,
    Exponential,
}

impl BinaryOperator {
    /// The symbol this operator is written with.
    pub open spec fn symbol(self) -> Seq<char> {
        match self {
            BinaryOperator::Equality => "=="@,
            BinaryOperator::Inequality => "!="@,
            BinaryOperator::StrictEquality => "==="@,
            BinaryOperator::StrictInequality => "!=="@,
            BinaryOperator::LessThan => "<"@,
            BinaryOperator::LessEqualThan => "<="@,
            BinaryOperator::GreaterThan => ">"@,
            BinaryOperator::GreaterEqualThan => ">="@,
            BinaryOperator::ShiftLeft => "<<"@,
            BinaryOperator::ShiftRight => ">>"@,
            BinaryOperator::ShiftRightZeroFill => ">>>"@,
            BinaryOperator::Addition => "+"@,
            BinaryOperator::Subtraction => "-"@,
            BinaryOperator::Multiplication => "*"@,
            BinaryOperator::Division => "/"@,
            BinaryOperator::Remainder => "%"@,
            BinaryOperator::BitwiseOR => "|"@,
            BinaryOperator::BitwiseXOR => "^"@,
            BinaryOperator::BitwiseAnd => "&"@,
            BinaryOperator::In => "in"@,
            BinaryOperator::Instanceof => "instanceof"@,
            BinaryOperator::Exponential => "**"@,
        }
    }

    /// Returns the symbol this operator is written with.
    pub fn as_str(&self) -> (s: &'static str)
        ensures
            s@ == self.symbol(),
    {
        match self {
            BinaryOperator::Equality => "==",
            BinaryOperator::Inequality => "!=",
            BinaryOperator::StrictEquality => "===",
            BinaryOperator::StrictInequality => "!==",
            BinaryOperator::LessThan => "<",
            BinaryOperator::LessEqualThan => "<=",
            BinaryOperator::GreaterThan => ">",
            BinaryOperator::GreaterEqualThan => ">=",
            BinaryOperator::ShiftLeft => "<<",
            BinaryOperator::ShiftRight => ">>",
            BinaryOperator::ShiftRightZeroFill => ">>>",
            BinaryOperator::Addition => "+",
            BinaryOperator::Subtraction => "-",
            BinaryOperator::Multiplication => "*",
            BinaryOperator::Division => "/",
            BinaryOperator::Remainder => "%",
            BinaryOperator::BitwiseOR => "|",
            BinaryOperator::BitwiseXOR => "^",
            BinaryOperator::BitwiseAnd => "&",
            BinaryOperator::In => "in",
            BinaryOperator::Instanceof => "instanceof",
            BinaryOperator::Exponential => "**",
        }
    }
}

/// Operator of a short-circuiting logical expression.
#[derive(Debug, Clone, Copy, PartialEq, Eq, Structural)]
pub enum LogicalOperator {
    Or,
    And,
    Coalesce,
}

impl LogicalOperator {
    /// The symbol this operator is written with.
    pub open spec fn symbol(self) -> Seq<char> {
        match self {
            LogicalOperator::Or => "||"@,
            LogicalOperator::And => "&&"@,
            LogicalOperator::Coalesce => "??"@,
        }
    }

    /// Returns the symbol this operator is written with.
    pub fn as_str(&self) -> (s: &'static str)
        ensures
            s@ == self.symbol(),
    {
        match self {
            LogicalOperator::Or => "||",
            LogicalOperator::And => "&&",
            LogicalOperator::Coalesce => "??",
        }
    }
}

/// Operator of a unary expression.
#[derive(Debug, Clone, Copy, PartialEq, Eq, Structural)]
pub enum UnaryOperator {
    UnaryNegation,
    UnaryPlus,
    LogicalNot,
    BitwiseNot,
    Typeof,
    Void,
    Delete,
}

impl UnaryOperator {
    /// The symbol this operator is written with.
    pub open spec fn symbol(self) -> Seq<char> {
        match self {
            UnaryOperator::UnaryNegation => "-"@,
            UnaryOperator::UnaryPlus => "+"@,
            UnaryOperator::LogicalNot => "!"@,
            UnaryOperator::BitwiseNot => "~"@,
            UnaryOperator::Typeof => "typeof"@,
            UnaryOperator::Void => "void"@,
            UnaryOperator::Delete => "delete"@,
        }
    }

    /// Returns the symbol this operator is written with.
    pub fn as_str(&self) -> (s: &'static str)
        ensures
            s@ == self.symbol(),
    {
        match self {
            UnaryOperator::UnaryNegation => "-",
            UnaryOperator::UnaryPlus => "+",
            UnaryOperator::LogicalNot => "!",
            UnaryOperator::BitwiseNot => "~",
            UnaryOperator::Typeof => "typeof",
            UnaryOperator::Void => "void",
            UnaryOperator::Delete => "delete",
        }
    }
}

/// Operator of an update expression.
#[derive(Debug, Clone, Copy, PartialEq, Eq, Structural)]
pub enum UpdateOperator {
    Increment,
    Decrement,
}

impl UpdateOperator {
    /// The symbol this operator is written with.
    pub open spec fn symbol(self) -> Seq<char> {
        match self {
            UpdateOperator::Increment => "++"@,
            UpdateOperator::Decrement => "--"@,
        }
    }

    /// Returns the symbol this operator is written with.
    pub fn as_str(&self) -> (s: &'static str)
        ensures
            s@ == self.symbol(),
    {
        match self {
            UpdateOperator::Increment => "++",
            UpdateOperator::Decrement => "--",
        }
    }
}

// Assignment targets

/// Left-hand side of an assignment.
#[derive(Debug, PartialEq)]
pub enum AssignmentTarget {
    SimpleAssignmentTarget(SimpleAssignmentTarget),
    AssignmentTargetPattern(AssignmentTargetPattern),
}

/// Assignment target that names a single place.
#[derive(Debug, PartialEq)]
pub enum SimpleAssignmentTarget {
    AssignmentTargetIdentifier(Box<IdentifierReference>),
    MemberAssignmentTarget(Box<MemberExpression>),
    TSAsExpression(Box<TSAsExpression>),
    TSSatisfiesExpression(Box<TSSatisfiesExpression>),
    TSNonNullExpression(Box<TSNonNullExpression>),
    TSTypeAssertion(Box<TSTypeAssertion>),
}

/// Destructuring assignment target.
#[derive(Debug, PartialEq)]
pub enum AssignmentTargetPattern {
    ArrayAssignmentTarget(Box<ArrayAssignmentTarget>),
    ObjectAssignmentTarget(Box<ObjectAssignmentTarget>),
}

impl AssignmentTargetPattern {
    /// Source range of the node this value holds.
    pub open spec fn span(&self) -> Span {
        match self {
            AssignmentTargetPattern::ArrayAssignmentTarget(x) => x.span,
            AssignmentTargetPattern::ObjectAssignmentTarget(x) => x.span,
        }
    }
}

/// Array destructuring target; an absent element is a hole.
#[derive(Debug, PartialEq)]
pub struct ArrayAssignmentTarget {
    pub span: Span,
    pub elements: Vec<Option<AssignmentTargetMaybeDefault>>,
    pub rest: Option<AssignmentTarget>,
    pub trailing_comma: Option<Span>,
}

/// Object destructuring target.
#[derive(Debug, PartialEq)]
pub struct ObjectAssignmentTarget {
    pub span: Span,
    pub properties: Vec<AssignmentTargetProperty>,
    pub rest: Option<AssignmentTarget>,
}

/// Destructuring element with or without a default value.
#[derive(Debug, PartialEq)]
pub enum AssignmentTargetMaybeDefault {
    AssignmentTarget(AssignmentTarget),
    AssignmentTargetWithDefault(Box<AssignmentTargetWithDefault>),
}

/// Destructuring element with a default value.
#[derive(Debug, PartialEq)]
pub struct AssignmentTargetWithDefault {
    pub span: Span,
    pub binding: AssignmentTarget,
    pub init: Expression,
}

/// Member of an object destructuring target.
#[derive(Debug, PartialEq)]
pub enum AssignmentTargetProperty {
    AssignmentTargetPropertyIdentifier(Box<AssignmentTargetPropertyIdentifier>),
    AssignmentTargetPropertyProperty(Box<AssignmentTargetPropertyProperty>),
}

/// Shorthand member `{ a = 1 }` of an object destructuring target.
#[derive(Debug, PartialEq)]
pub struct AssignmentTargetPropertyIdentifier {
    pub span: Span,
    pub binding: IdentifierReference,
    pub init: Option<Expression>,
}

/// Keyed member `{ a: b }` of an object destructuring target.
#[derive(Debug, PartialEq)]
pub struct AssignmentTargetPropertyProperty {
    pub span: Span,
    pub name: PropertyKey,
    pub binding: AssignmentTargetMaybeDefault,
}

// Binding patterns

/// Binding pattern: what a declaration, a parameter or a `catch` clause binds.
#[derive(Debug, PartialEq)]
pub struct BindingPattern {
    pub kind: BindingPatternKind,
}

impl BindingPattern {
    /// Source range of the pattern.
    pub open spec fn span(&self) -> Span {
        self.kind.span()
    }
}

/// Shape of a binding pattern.
#[derive(Debug, PartialEq)]
pub enum BindingPatternKind {
    BindingIdentifier(Box<BindingIdentifier>),
    ObjectPattern(Box<ObjectPattern>),
    ArrayPattern(Box<ArrayPattern>),
    RestElement(Box<RestElement>),
    AssignmentPattern(Box<AssignmentPattern>),
}

impl BindingPatternKind {
    /// Source range of the node this value holds.
    pub open spec fn span(&self) -> Span {
        match self {
            BindingPatternKind::BindingIdentifier(x) => x.span,
            BindingPatternKind::ObjectPattern(x) => x.span,
            BindingPatternKind::ArrayPattern(x) => x.span,
            BindingPatternKind::RestElement(x) => x.span,
            BindingPatternKind::AssignmentPattern(x) => x.span,
        }
    }
}

/// Object destructuring pattern.
#[derive(Debug, PartialEq)]
pub struct ObjectPattern {
    pub span: Span,
    pub properties: Vec<ObjectPatternProperty>,
}

/// Member of an object destructuring pattern.
#[derive(Debug, PartialEq)]
pub enum ObjectPatternProperty {
    Property(Box<Property>),
    RestElement(Box<RestElement>),
}

/// Array destructuring pattern; an absent element is a hole.
#[derive(Debug, PartialEq)]
pub struct ArrayPattern {
    pub span: Span,
    pub elements: Vec<Option<BindingPattern>>,
}

/// `...rest` inside a pattern.
#[derive(Debug, PartialEq)]
pub struct RestElement {
    pub span: Span,
    pub argument: BindingPattern,
}

/// Pattern with a default value.
#[derive(Debug, PartialEq)]
pub struct AssignmentPattern {
    pub span: Span,
    pub left: BindingPattern,
    pub right: Expression,
}

// Identifiers

/// Identifier that refers to a binding.
#[derive(Debug, PartialEq)]
pub struct IdentifierReference {
    pub span: Span,
    pub name: Atom,
}

/// `#name` of a private class member.
#[derive(Debug, PartialEq)]
pub struct PrivateIdentifier {
    pub span: Span,
    pub name: Atom,
}

/// Name of a statement label.
#[derive(Debug, PartialEq)]
pub struct LabelIdentifier {
    pub span: Span,
    pub name: Atom,
}

/// Identifier used as a plain name, such as a property name.
#[derive(Debug, PartialEq)]
pub struct IdentifierName {
    pub span: Span,
    pub name: Atom,
}

/// Identifier that introduces a binding.
#[derive(Debug, PartialEq)]
pub struct BindingIdentifier {
    pub span: Span,
    pub name: Atom,
}

// Literals

/// Radix a numeric literal was written in.
#[derive(Debug, Clone, Copy, PartialEq, Eq, Structural)]
pub enum NumberBase {
    Decimal,
    Binary,
    Octal,
    Hex,
}

/// Numeric literal. `value` holds the IEEE 754 double-precision bit pattern of
/// the number; `raw` is the source text.
#[derive(Debug, PartialEq)]
pub struct NumberLiteral {
    pub span: Span,
    pub value: u64,
    pub raw: String,
    pub base: NumberBase,
}

/// `true` or `false`.
#[derive(Debug, PartialEq)]
pub struct BooleanLiteral {
    pub span: Span,
    pub value: bool,
}

/// `null`.
#[derive(Debug, PartialEq)]
pub struct NullLiteral {
    pub span: Span,
}

/// Arbitrary-precision integer literal; `value` holds its decimal digits.
#[derive(Debug, PartialEq)]
pub struct BigintLiteral {
    pub span: Span,
    pub value: String,
}

/// String literal.
#[derive(Debug, PartialEq)]
pub struct StringLiteral {
    pub span: Span,
    pub value: Atom,
}

/// Template literal: text pieces interleaved with expressions.
#[derive(Debug, PartialEq)]
pub struct TemplateLiteral {
    pub span: Span,
    pub quasis: Vec<TemplateElement>,
    pub expressions: Vec<Expression>,
}

/// Regular expression literal.
#[derive(Debug, PartialEq)]
pub struct RegExpLiteral {
    pub span: Span,
    pub regex: RegExp,
}

/// Pattern and flags of a regular expression.
#[derive(Debug, PartialEq)]
pub struct RegExp {
    pub pattern: Atom,
    pub flags: RegExpFlags,
}

/// Text piece of a template literal.
#[derive(Debug, PartialEq)]
pub struct TemplateElement {
    pub span: Span,
    pub tail: bool,
    pub value: TemplateElementValue,
}

/// Text of a template piece, as written and with escapes resolved.
#[derive(Debug, PartialEq)]
pub struct TemplateElementValue {
    pub raw: Atom,
    pub cooked: Option<Atom>,
}

/// Flags of a regular expression, one bit each.
#[derive(Debug, Clone, Copy, PartialEq, Eq, Structural)]
pub struct RegExpFlags {
    pub bits: u8,
}

impl RegExpFlags {
    /// `g`: global search.
    pub const G: u8 = 0x01;
    /// `i`: case-insensitive search.
    pub const I: u8 = 0x02;
    /// `m`: multi-line search.
    pub const M: u8 = 0x04;
    /// `s`: `.` matches line terminators.
    pub const S: u8 = 0x08;
    /// `u`: Unicode mode.
    pub const U: u8 = 0x10;
    /// `y`: sticky search.
    pub const Y: u8 = 0x20;
    /// `d`: match indices.
    pub const D: u8 = 0x40;
    /// `v`: Unicode sets mode.
    pub const V: u8 = 0x80;
    /// Every defined flag.
    pub const ALL: u8 = 0xff;

    /// Returns the flags as a bit set.
    pub fn bits(&self) -> (bits: u8)
        ensures
            bits == self.bits,
    {
        self.bits
    }
}

// Modules

/// Whether an import or export concerns values or types only.
#[derive(Debug, Clone, Copy, PartialEq, Eq, Structural)]
pub enum ImportOrExportKind {
    Value,
    Type,
}

/// Import or export form.
#[derive(Debug, PartialEq)]
pub enum ModuleDeclaration {
    ImportDeclaration(Box<ImportDeclaration>),
    ExportAllDeclaration(Box<ExportAllDeclaration>),
    ExportDefaultDeclaration(Box<ExportDefaultDeclaration>),
    ExportNamedDeclaration(Box<ExportNamedDeclaration>),
    TSExportAssignment(Box<TSExportAssignment>),
    TSNamespaceExportDeclaration(Box<TSNamespaceExportDeclaration>),
}

impl ModuleDeclaration {
    /// Source range of the node this value holds.
    pub open spec fn spec_span(&self) -> Span {
        match self {
            ModuleDeclaration::ImportDeclaration(x) => x.span,
            ModuleDeclaration::ExportAllDeclaration(x) => x.span,
            ModuleDeclaration::ExportDefaultDeclaration(x) => x.span,
            ModuleDeclaration::ExportNamedDeclaration(x) => x.span,
            ModuleDeclaration::TSExportAssignment(x) => x.span,
            ModuleDeclaration::TSNamespaceExportDeclaration(x) => x.span,
        }
    }

    /// Returns the source range of the node this value holds.
    #[verifier::when_used_as_spec(spec_span)]
    pub fn span(&self) -> (span: Span)
        ensures
            span == self.spec_span(),
    {
        match self {
            ModuleDeclaration::ImportDeclaration(x) => x.span,
            ModuleDeclaration::ExportAllDeclaration(x) => x.span,
            ModuleDeclaration::ExportDefaultDeclaration(x) => x.span,
            ModuleDeclaration::ExportNamedDeclaration(x) => x.span,
            ModuleDeclaration::TSExportAssignment(x) => x.span,
            ModuleDeclaration::TSNamespaceExportDeclaration(x) => x.span,
        }
    }
}

/// `import` declaration.
#[derive(Debug, PartialEq)]
pub struct ImportDeclaration {
    pub span: Span,
    pub specifiers: Vec<ImportDeclarationSpecifier>,
    pub source: StringLiteral,
    pub assertions: Option<Vec<ImportAttribute>>,
    pub import_kind: ImportOrExportKind,
}

/// `key: "value"` entry of an import attribute list.
#[derive(Debug, PartialEq)]
pub struct ImportAttribute {
    pub span: Span,
    pub key: ImportAttributeKey,
    pub value: StringLiteral,
}

/// Key of an import attribute.
#[derive(Debug, PartialEq)]
pub enum ImportAttributeKey {
    Identifier(IdentifierName),
    StringLiteral(StringLiteral),
}

/// One imported binding.
#[derive(Debug, PartialEq)]
pub enum ImportDeclarationSpecifier {
    ImportSpecifier(ImportSpecifier),
    ImportDefaultSpecifier(ImportDefaultSpecifier),
    ImportNamespaceSpecifier(ImportNamespaceSpecifier),
}

/// Name under which a binding crosses a module boundary.
#[derive(Debug, PartialEq)]
pub enum ModuleExportName {
    Identifier(IdentifierName),
    StringLiteral(StringLiteral),
}

/// `imported as local`.
#[derive(Debug, PartialEq)]
pub struct ImportSpecifier {
    pub span: Span,
    pub imported: ModuleExportName,
    pub local: BindingIdentifier,
}

/// Default import.
#[derive(Debug, PartialEq)]
pub struct ImportDefaultSpecifier {
    pub span: Span,
    pub local: BindingIdentifier,
}

/// `* as local`.
#[derive(Debug, PartialEq)]
pub struct ImportNamespaceSpecifier {
    pub span: Span,
    pub local: BindingIdentifier,
}

/// `export * from`.
#[derive(Debug, PartialEq)]
pub struct ExportAllDeclaration {
    pub span: Span,
    pub exported: Option<ModuleExportName>,
    pub source: StringLiteral,
    pub assertions: Option<Vec<ImportAttribute>>,
    pub export_kind: ImportOrExportKind,
}

/// `export default`.
#[derive(Debug, PartialEq)]
pub struct ExportDefaultDeclaration {
    pub span: Span,
    pub declaration: ExportDefaultDeclarationKind,
    pub exported: ModuleExportName,
}

/// What `export default` exports.
#[derive(Debug, PartialEq)]
pub enum ExportDefaultDeclarationKind {
    Expression(Expression),
    FunctionDeclaration(Box<Function>),
    ClassDeclaration(Box<Class>),
    TSEnumDeclaration(Box<TSEnumDeclaration>),
    TSInterfaceDeclaration(Box<TSInterfaceDeclaration>),
}

/// `export` of a declaration or of a specifier list.
#[derive(Debug, PartialEq)]
pub struct ExportNamedDeclaration {
    pub span: Span,
    pub declaration: Option<Declaration>,
    pub specifiers: Vec<ExportSpecifier>,
    pub source: Option<StringLiteral>,
    pub export_kind: ImportOrExportKind,
}

/// `local as exported`.
#[derive(Debug, PartialEq)]
pub struct ExportSpecifier {
    pub span: Span,
    pub local: ModuleExportName,
    pub exported: ModuleExportName,
}

/// `export = expression`. Type-level only: kept for its position.
#[derive(Debug, PartialEq)]
pub struct TSExportAssignment {
    pub span: Span,
}

/// `export as namespace name`. Type-level only: kept for its position.
#[derive(Debug, PartialEq)]
pub struct TSNamespaceExportDeclaration {
    pub span: Span,
}

// Declarations, functions and classes

/// Keyword that introduces a variable declaration.
#[derive(Debug, Clone, Copy, PartialEq, Eq, Structural)]
pub enum VariableDeclarationKind {
    Var,
    Const,
    Let,
}

/// Syntactic position of a function.
#[derive(Debug, Clone, Copy, PartialEq, Eq, Structural)]
pub enum FunctionType {
    FunctionDeclaration,
    FunctionExpression,
    TSDeclareFunction,
}

/// Grammar production a parameter list was parsed with.
#[derive(Debug, Clone, Copy, PartialEq, Eq, Structural)]
pub enum FormalParameterKind {
    FormalParameter,
    UniqueFormalParameters,
    ArrowFormalParameters,
    Signature,
}

/// Syntactic position of a class.
#[derive(Debug, Clone, Copy, PartialEq, Eq, Structural)]
pub enum ClassType {
    ClassDeclaration,
    ClassExpression,
}

/// Role of a class method.
#[derive(Debug, Clone, Copy, PartialEq, Eq, Structural)]
pub enum MethodDefinitionKind {
    Constructor,
    Method,
    Getter,
    Setter,
}

/// Declaration in statement position.
#[derive(Debug, PartialEq)]
pub enum Declaration {
    VariableDeclaration(Box<VariableDeclaration>),
    FunctionDeclaration(Box<Function>),
    ClassDeclaration(Box<Class>),
    TSTypeAliasDeclaration(Box<TSTypeAliasDeclaration>),
    TSInterfaceDeclaration(Box<TSInterfaceDeclaration>),
    TSEnumDeclaration(Box<TSEnumDeclaration>),
    TSModuleDeclaration(Box<TSModuleDeclaration>),
    TSImportEqualsDeclaration(Box<TSImportEqualsDeclaration>),
}

impl Declaration {
    /// Source range of the node this value holds.
    pub open spec fn spec_span(&self) -> Span {
        match self {
            Declaration::VariableDeclaration(x) => x.span,
            Declaration::FunctionDeclaration(x) => x.span,
            Declaration::ClassDeclaration(x) => x.span,
            Declaration::TSTypeAliasDeclaration(x) => x.span,
            Declaration::TSInterfaceDeclaration(x) => x.span,
            Declaration::TSEnumDeclaration(x) => x.span,
            Declaration::TSModuleDeclaration(x) => x.span,
            Declaration::TSImportEqualsDeclaration(x) => x.span,
        }
    }

    /// Returns the source range of the node this value holds.
    #[verifier::when_used_as_spec(spec_span)]
    pub fn span(&self) -> (span: Span)
        ensures
            span == self.spec_span(),
    {
        match self {
            Declaration::VariableDeclaration(x) => x.span,
            Declaration::FunctionDeclaration(x) => x.span,
            Declaration::ClassDeclaration(x) => x.span,
            Declaration::TSTypeAliasDeclaration(x) => x.span,
            Declaration::TSInterfaceDeclaration(x) => x.span,
            Declaration::TSEnumDeclaration(x) => x.span,
            Declaration::TSModuleDeclaration(x) => x.span,
            Declaration::TSImportEqualsDeclaration(x) => x.span,
        }
    }
}

/// `var`, `let` or `const` declaration.
#[derive(Debug, PartialEq)]
pub struct VariableDeclaration {
    pub span: Span,
    pub kind: VariableDeclarationKind,
    pub declarations: Vec<VariableDeclarator>,
}

/// One binding of a variable declaration.
#[derive(Debug, PartialEq)]
pub struct VariableDeclarator {
    pub span: Span,
    pub kind: VariableDeclarationKind,
    pub id: BindingPattern,
    pub init: Option<Expression>,
    pub definite: bool,
}

/// Function declaration or expression; `body` is absent for an ambient declaration.
#[derive(Debug, PartialEq)]
pub struct Function {
    pub function_type: FunctionType,
    pub span: Span,
    pub id: Option<BindingIdentifier>,
    pub expression: bool,
    pub generator: bool,
    pub is_async: bool,
    pub params: Box<FormalParameters>,
    pub body: Option<Box<FunctionBody>>,
}

/// Body of a function.
#[derive(Debug, PartialEq)]
pub struct FunctionBody {
    pub span: Span,
    pub directives: Vec<Directive>,
    pub statements: Vec<Statement>,
}

/// Parameter list.
#[derive(Debug, PartialEq)]
pub struct FormalParameters {
    pub span: Span,
    pub kind: FormalParameterKind,
    pub items: Vec<FormalParameter>,
}

/// One parameter.
#[derive(Debug, PartialEq)]
pub struct FormalParameter {
    pub span: Span,
    pub pattern: BindingPattern,
    pub decorators: Vec<Decorator>,
}

/// Class declaration or expression.
#[derive(Debug, PartialEq)]
pub struct Class {
    pub class_type: ClassType,
    pub span: Span,
    pub id: Option<BindingIdentifier>,
    pub super_class: Option<Expression>,
    pub body: Box<ClassBody>,
    pub decorators: Vec<Decorator>,
}

/// Members of a class.
#[derive(Debug, PartialEq)]
pub struct ClassBody {
    pub span: Span,
    pub body: Vec<ClassElement>,
}

/// Member of a class.
#[derive(Debug, PartialEq)]
pub enum ClassElement {
    StaticBlock(Box<StaticBlock>),
    MethodDefinition(Box<MethodDefinition>),
    PropertyDefinition(Box<PropertyDefinition>),
    AccessorProperty(Box<AccessorProperty>),
    TSAbstractMethodDefinition(Box<TSAbstractMethodDefinition>),
    TSAbstractPropertyDefinition(Box<TSAbstractPropertyDefinition>),
    TSIndexSignature(Box<TSIndexSignature>),
}

impl ClassElement {
    /// Source range of the node this value holds.
    pub open spec fn span(&self) -> Span {
        match self {
            ClassElement::StaticBlock(x) => x.span,
            ClassElement::MethodDefinition(x) => x.span,
            ClassElement::PropertyDefinition(x) => x.span,
            ClassElement::AccessorProperty(x) => x.span,
            ClassElement::TSAbstractMethodDefinition(x) => x.span,
            ClassElement::TSAbstractPropertyDefinition(x) => x.span,
            ClassElement::TSIndexSignature(x) => x.span,
        }
    }
}

/// `static { ... }` block.
#[derive(Debug, PartialEq)]
pub struct StaticBlock {
    pub span: Span,
    pub body: Vec<Statement>,
}

/// Method, constructor or accessor of a class.
#[derive(Debug, PartialEq)]
pub struct MethodDefinition {
    pub span: Span,
    pub key: PropertyKey,
    pub value: Box<Function>,
    pub kind: MethodDefinitionKind,
    pub computed: bool,
    pub is_static: bool,
    pub is_override: bool,
    pub optional: bool,
    pub decorators: Vec<Decorator>,
}

/// Field of a class.
#[derive(Debug, PartialEq)]
pub struct PropertyDefinition {
    pub span: Span,
    pub key: PropertyKey,
    pub value: Option<Expression>,
    pub computed: bool,
    pub is_static: bool,
    pub declare: bool,
    pub is_override: bool,
    pub optional: bool,
    pub definite: bool,
    pub readonly: bool,
    pub decorators: Vec<Decorator>,
}

/// `accessor` field of a class.
#[derive(Debug, PartialEq)]
pub struct AccessorProperty {
    pub span: Span,
    pub key: PropertyKey,
    pub value: Option<Expression>,
    pub computed: bool,
    pub is_static: bool,
}

/// `@expression` applied to a class, member or parameter.
#[derive(Debug, PartialEq)]
pub struct Decorator {
    pub span: Span,
    pub expression: Expression,
}

/// `type Name = ...`. Type-level only: kept for its position.
#[derive(Debug, PartialEq)]
pub struct TSTypeAliasDeclaration {
    pub span: Span,
}

/// `interface` declaration. Type-level only: kept for its position.
#[derive(Debug, PartialEq)]
pub struct TSInterfaceDeclaration {
    pub span: Span,
}

/// `enum` declaration. Type-level only: kept for its position.
#[derive(Debug, PartialEq)]
pub struct TSEnumDeclaration {
    pub span: Span,
}

/// `namespace` or `module` declaration. Type-level only: kept for its position.
#[derive(Debug, PartialEq)]
pub struct TSModuleDeclaration {
    pub span: Span,
}

/// `import name = ...`. Type-level only: kept for its position.
#[derive(Debug, PartialEq)]
pub struct TSImportEqualsDeclaration {
    pub span: Span,
}

/// `abstract` method of a class. Type-level only: kept for its position.
#[derive(Debug, PartialEq)]
pub struct TSAbstractMethodDefinition {
    pub span: Span,
}

/// `abstract` field of a class. Type-level only: kept for its position.
#[derive(Debug, PartialEq)]
pub struct TSAbstractPropertyDefinition {
    pub span: Span,
}

/// Index signature of a class. Type-level only: kept for its position.
#[derive(Debug, PartialEq)]
pub struct TSIndexSignature {
    pub span: Span,
}

} // verus!
