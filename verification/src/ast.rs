//! The syntax tree. Every token is referred to by its index in the token list, so the tree
//! keeps the place of every token it was built from.
use vstd::prelude::*;

verus! {

/// A sequence of syntax nodes.
#[derive(Debug)]
pub enum List<T> {
    Nil,
    Cons(Box<T>, Box<List<T>>),
}

impl<T> List<T> {
    pub open spec fn spec_len(self) -> nat
        decreases self,
    {
        match self {
            List::Nil => 0,
            List::Cons(_, rest) => 1 + rest.spec_len(),
        }
    }

    /// The number of nodes in the list.
    pub fn len(&self) -> (r: usize)
        requires
            self.spec_len() <= usize::MAX,
        ensures
            r == self.spec_len(),
        decreases self,
    {
        match self {
            List::Nil => 0,
            List::Cons(_, rest) => 1 + rest.len(),
        }
    }
}

/// A non-empty list of items with a separator between each two.
#[derive(Debug)]
pub struct SeparatedList1<T> {
    /// Every item but the last, each with the separator after it.
    pub items: List<(T, usize)>,
    pub last_item: Box<T>,
}

/// A non-empty list of items with a separator between each two, and maybe one after the last.
#[derive(Debug)]
pub struct SeparatedListTrailing1<T> {
    pub items: List<(T, usize)>,
    pub last_item: Box<T>,
    pub trailing: Option<usize>,
}

/// A possibly empty list of items with separators, and maybe one after the last.
pub type SeparatedListTrailing0<T> = Option<SeparatedListTrailing1<T>>;

/// How tightly an operator binds. Later variants bind more tightly.
#[derive(Clone, Copy, Debug, PartialEq, Eq, Structural)]
pub enum Precedence {
    Lowest,
    Comma,
    Assignment,
    Ternary,
    LogicalOr,
    LogicalAnd,
    BitwiseOr,
    BitwiseXor,
    BitwiseAnd,
    Equality,
    Comparison,
    Bitshift,
    Additive,
    Multiplicative,
    Prefix,
    Postfix,
    Property,
}

impl Precedence {
    pub open spec fn spec_level(self) -> u8 {
        match self {
            Precedence::Lowest => 0,
            Precedence::Comma => 1,
            Precedence::Assignment => 2,
            Precedence::Ternary => 3,
            Precedence::LogicalOr => 4,
            Precedence::LogicalAnd => 5,
            Precedence::BitwiseOr => 6,
            Precedence::BitwiseXor => 7,
            Precedence::BitwiseAnd => 8,
            Precedence::Equality => 9,
            Precedence::Comparison => 10,
            Precedence::Bitshift => 11,
            Precedence::Additive => 12,
            Precedence::Multiplicative => 13,
            Precedence::Prefix => 14,
            Precedence::Postfix => 15,
            Precedence::Property => 16,
        }
    }

    /// The place of this precedence in the order from loosest to tightest.
    pub fn level(self) -> (r: u8)
        ensures
            r == self.spec_level(),
    {
        match self {
            Precedence::Lowest => 0,
            Precedence::Comma => 1,
            Precedence::Assignment => 2,
            Precedence::Ternary => 3,
            Precedence::LogicalOr => 4,
            Precedence::LogicalAnd => 5,
            Precedence::BitwiseOr => 6,
            Precedence::BitwiseXor => 7,
            Precedence::BitwiseAnd => 8,
            Precedence::Equality => 9,
            Precedence::Comparison => 10,
            Precedence::Bitshift => 11,
            Precedence::Additive => 12,
            Precedence::Multiplicative => 13,
            Precedence::Prefix => 14,
            Precedence::Postfix => 15,
            Precedence::Property => 16,
        }
    }
}

#[derive(Clone, Copy, Debug, PartialEq, Eq, Structural)]
pub struct Identifier {
    pub token: usize,
}

#[derive(Clone, Copy, Debug, PartialEq, Eq, Structural)]
pub enum MethodIdentifier {
    Constructor(usize),
    Identifier(Identifier),
}

#[derive(Clone, Copy, Debug, PartialEq, Eq, Structural)]
pub enum BinaryOperatorKind {
    Assign,
    NewSlot,
    AddAssign,
    SubtractAssign,
    MultiplyAssign,
    DivideAssign,
    ModuloAssign,
    LogicalOr,
    LogicalAnd,
    BitwiseOr,
    BitwiseXor,
    BitwiseAnd,
    Equal,
    NotEqual,
    ThreeWay,
    Less,
    LessEqual,
    Greater,
    GreaterEqual,
    In,
    Instanceof,
    ShiftLeft,
    ShiftRight,
    UnsignedShiftRight,
    Add,
    Subtract,
    Multiply,
    Divide,
    Modulo,
}

/// A binary operator, with the first and last of the tokens it is written with.
#[derive(Clone, Copy, Debug, PartialEq, Eq, Structural)]
pub struct BinaryOperator {
    pub kind: BinaryOperatorKind,
    pub first: usize,
    pub last: usize,
}

#[derive(Clone, Copy, Debug, PartialEq, Eq, Structural)]
pub enum PrefixOperatorKind {
    Negate,
    Not,
    BitwiseNot,
    Increment,
    Decrement,
    Typeof,
    Clone,
    Delete,
}

#[derive(Clone, Copy, Debug, PartialEq, Eq, Structural)]
pub struct PrefixOperator {
    pub kind: PrefixOperatorKind,
    pub token: usize,
}

#[derive(Clone, Copy, Debug, PartialEq, Eq, Structural)]
pub enum PostfixOperatorKind {
    Increment,
    Decrement,
}

#[derive(Clone, Copy, Debug, PartialEq, Eq, Structural)]
pub struct PostfixOperator {
    pub kind: PostfixOperatorKind,
    pub token: usize,
}

// ----- types -----

#[derive(Debug)]
pub enum Type {
    Local(LocalType),
    Plain(PlainType),
    Array(ArrayType),
    Generic(GenericType),
    FunctionRef(FunctionRefType),
    Struct(StructType),
    Reference(ReferenceType),
    Nullable(NullableType),
}

/// `local`
#[derive(Debug)]
pub struct LocalType {
    pub local: usize,
}

/// A named type, such as `int`.
#[derive(Debug)]
pub struct PlainType {
    pub name: Identifier,
}

/// `T[len]`
#[derive(Debug)]
pub struct ArrayType {
    pub base: Box<Type>,
    pub open: usize,
    pub len: Box<Expression>,
    pub close: usize,
}

/// `T<A, B>`
#[derive(Debug)]
pub struct GenericType {
    pub base: Box<Type>,
    pub open: usize,
    pub params: SeparatedListTrailing1<Type>,
    pub close: usize,
}

/// `R functionref(A a, B)`
#[derive(Debug)]
pub struct FunctionRefType {
    pub return_type: Option<Box<Type>>,
    pub functionref: usize,
    pub open: usize,
    pub params: SeparatedListTrailing0<FunctionRefParam>,
    pub close: usize,
}

#[derive(Debug)]
pub struct FunctionRefParam {
    pub type_: Type,
    pub name: Option<Identifier>,
}

/// `struct { ... }`
#[derive(Debug)]
pub struct StructType {
    pub struct_: usize,
    pub definition: StructDefinition,
}

/// `T&`
#[derive(Debug)]
pub struct ReferenceType {
    pub base: Box<Type>,
    pub reference: usize,
}

/// `T ornull`
#[derive(Debug)]
pub struct NullableType {
    pub base: Box<Type>,
    pub ornull: usize,
}

#[derive(Debug)]
pub struct StructDefinition {
    pub open: usize,
    pub properties: List<Preprocessable<StructProperty>>,
    pub close: usize,
}

/// `T name = value,`
#[derive(Debug)]
pub struct StructProperty {
    pub type_: Type,
    pub name: Identifier,
    pub initializer: Option<VarInitializer>,
    pub comma: Option<usize>,
}

// ----- preprocessor -----

/// An item that may stand in a preprocessor conditional.
#[allow(non_camel_case_types)]
#[derive(Debug)]
pub enum Preprocessable<T> {
    PREPROCESSED(Box<PreprocessorIfExpression<List<Preprocessable<T>>>>),
    UNCONDITIONAL(T),
}

/// `#if condition content #else content #endif`
#[derive(Debug)]
pub struct PreprocessorIfExpression<T> {
    pub if_: usize,
    pub condition: Box<Expression>,
    pub content: T,
    pub else_: Option<PreprocessorElse<T>>,
    pub endif: usize,
}

#[derive(Debug)]
pub struct PreprocessorElse<T> {
    pub else_: usize,
    pub content: T,
}

// ----- variables -----

/// `= value`
#[derive(Debug)]
pub struct VarInitializer {
    pub assign: usize,
    pub value: Box<Expression>,
}

/// `name = value`
#[derive(Debug)]
pub struct VarDefinition {
    pub name: Identifier,
    pub initializer: Option<VarInitializer>,
}

// ----- expressions -----

#[derive(Debug)]
pub enum Expression {
    Function(FunctionExpression),
    Parens(ParensExpression),
    Literal(LiteralExpression),
    Var(VarExpression),
    RootVar(RootVarExpression),
    Table(TableExpression),
    Class(ClassExpression),
    Array(ArrayExpression),
    Vector(VectorExpression),
    Prefix(PrefixExpression),
    Delegate(DelegateExpression),
    Expect(ExpectExpression),
    Lambda(LambdaExpression),
    Preprocessed(Box<PreprocessorIfExpression<Box<Expression>>>),
    Property(PropertyExpression),
    Ternary(TernaryExpression),
    Binary(BinaryExpression),
    Index(IndexExpression),
    Postfix(PostfixExpression),
    Call(CallExpression),
    Comma(CommaExpression),
}

/// `R function(params) body`
#[derive(Debug)]
pub struct FunctionExpression {
    pub return_type: Option<Type>,
    pub function: usize,
    pub definition: Box<FunctionDefinition>,
}

/// `(value)`
#[derive(Debug)]
pub struct ParensExpression {
    pub open: usize,
    pub value: Box<Expression>,
    pub close: usize,
}

/// A literal; its value is the literal token's.
#[derive(Debug)]
pub struct LiteralExpression {
    pub token: usize,
}

#[derive(Debug)]
pub struct VarExpression {
    pub name: Identifier,
}

/// `::name`
#[derive(Debug)]
pub struct RootVarExpression {
    pub root: usize,
    pub name: Identifier,
}

/// `{ slots ... }`
#[derive(Debug)]
pub struct TableExpression {
    pub open: usize,
    pub slots: List<TableSlot>,
    pub spread: Option<usize>,
    pub close: usize,
}

#[derive(Debug)]
pub struct TableSlot {
    pub ty: TableSlotType,
    pub comma: Option<usize>,
}

#[derive(Debug)]
pub enum TableSlotType {
    /// `name = value`
    Property { name: Identifier, initializer: VarInitializer },
    /// `[name] = value`
    ComputedProperty { open: usize, name: Box<Expression>, close: usize, initializer: VarInitializer },
    /// `"name": value`
    JsonProperty { name: usize, colon: usize, value: Box<Expression> },
}

/// `class definition`
#[derive(Debug)]
pub struct ClassExpression {
    pub class: usize,
    pub definition: ClassDefinition,
}

/// `extends base { members }`
#[derive(Debug)]
pub struct ClassDefinition {
    pub extends: Option<ClassExtends>,
    pub open: usize,
    pub members: List<ClassMember>,
    pub close: usize,
}

#[derive(Debug)]
pub struct ClassExtends {
    pub extends: usize,
    pub name: Box<Expression>,
}

#[derive(Debug)]
pub enum ClassMember {
    /// `name = value;`
    Property { name: Identifier, initializer: Option<VarInitializer>, semicolon: Option<usize> },
    /// `function name(params) body`
    Function { function: usize, name: MethodIdentifier, definition: Box<FunctionDefinition> },
    /// `constructor(params) body`
    Constructor { constructor: usize, definition: Box<FunctionDefinition> },
}

/// `[values ...]`
#[derive(Debug)]
pub struct ArrayExpression {
    pub open: usize,
    pub values: List<Preprocessable<ArrayValue>>,
    pub spread: Option<usize>,
    pub close: usize,
}

/// `value,`
#[derive(Debug)]
pub struct ArrayValue {
    pub value: Box<Expression>,
    pub separator: Option<usize>,
}

/// `<x, y, z>`
#[derive(Debug)]
pub struct VectorExpression {
    pub open: usize,
    pub x: Box<Expression>,
    pub comma_1: usize,
    pub y: Box<Expression>,
    pub comma_2: usize,
    pub z: Box<Expression>,
    pub close: usize,
}

#[derive(Debug)]
pub struct PrefixExpression {
    pub operator: PrefixOperator,
    pub value: Box<Expression>,
}

/// `delegate parent : value`
#[derive(Debug)]
pub struct DelegateExpression {
    pub delegate: usize,
    pub parent: Box<Expression>,
    pub colon: usize,
    pub value: Box<Expression>,
}

/// `expect T(value)`
#[derive(Debug)]
pub struct ExpectExpression {
    pub expect: usize,
    pub ty: Type,
    pub open: usize,
    pub value: Box<Expression>,
    pub close: usize,
}

/// `@(params) value`
#[derive(Debug)]
pub struct LambdaExpression {
    pub at: usize,
    pub open: usize,
    pub params: List<FunctionParam>,
    pub close: usize,
    pub value: Box<Expression>,
}

/// `base.property`
#[derive(Debug)]
pub struct PropertyExpression {
    pub base: Box<Expression>,
    pub dot: usize,
    pub property: MethodIdentifier,
}

/// `condition ? true_value : false_value`
#[derive(Debug)]
pub struct TernaryExpression {
    pub condition: Box<Expression>,
    pub question: usize,
    pub true_value: Box<Expression>,
    pub separator: usize,
    pub false_value: Box<Expression>,
}

#[derive(Debug)]
pub struct BinaryExpression {
    pub left: Box<Expression>,
    pub operator: BinaryOperator,
    pub right: Box<Expression>,
}

/// `base[index]`
#[derive(Debug)]
pub struct IndexExpression {
    pub base: Box<Expression>,
    pub open: usize,
    pub index: Box<Expression>,
    pub close: usize,
}

#[derive(Debug)]
pub struct PostfixExpression {
    pub value: Box<Expression>,
    pub operator: PostfixOperator,
}

/// `function(arguments) { post_initializer }`
#[derive(Debug)]
pub struct CallExpression {
    pub function: Box<Expression>,
    pub open: usize,
    pub arguments: List<CallArgument>,
    pub close: usize,
    pub post_initializer: Option<TableExpression>,
}

/// `value,`
#[derive(Debug)]
pub struct CallArgument {
    pub value: Box<Expression>,
    pub comma: Option<usize>,
}

/// `a, b, c`
#[derive(Debug)]
pub struct CommaExpression {
    pub values: SeparatedList1<Expression>,
}

// ----- functions -----

/// `(params) body`
#[derive(Debug)]
pub struct FunctionDefinition {
    pub open: usize,
    pub params: List<FunctionParam>,
    pub close: usize,
    pub body: Box<StatementType>,
}

/// `T name = value,`
#[derive(Debug)]
pub struct FunctionParam {
    pub type_: Option<Type>,
    pub name: Identifier,
    pub initializer: Option<VarInitializer>,
    pub comma: Option<usize>,
}

// ----- statements -----

#[derive(Debug)]
pub struct Statement {
    pub ty: StatementType,
    pub semicolon: Option<usize>,
}

#[derive(Debug)]
pub enum StatementType {
    Empty(EmptyStatement),
    Block(BlockStatement),
    If(IfStatement),
    While(WhileStatement),
    DoWhile(DoWhileStatement),
    Switch(SwitchStatement),
    For(ForStatement),
    Foreach(ForeachStatement),
    TryCatch(TryCatchStatement),
    Break(BreakStatement),
    Continue(ContinueStatement),
    Return(ReturnStatement),
    Yield(YieldStatement),
    Throw(ThrowStatement),
    Const(ConstDefinitionStatement),
    ClassDefinition(ClassDefinitionStatement),
    EnumDefinition(EnumDefinitionStatement),
    FunctionDefinition(FunctionDefinitionStatement),
    ConstructorDefinition(ConstructorDefinitionStatement),
    VarDefinition(VarDefinitionStatement),
    StructDefinition(StructDefinitionStatement),
    TypeDefinition(TypeDefinitionStatement),
    Thread(ThreadStatement),
    DelayThread(DelayThreadStatement),
    WaitThread(WaitThreadStatement),
    WaitThreadSolo(WaitThreadSoloStatement),
    Wait(WaitStatement),
    Global(GlobalStatement),
    GlobalizeAllFunctions(GlobalizeAllFunctionsStatement),
    Untyped(UntypedStatement),
    Preprocessed(Box<PreprocessorIfExpression<List<Statement>>>),
    PreprocessedDocumentation(PreprocessedDocumentation),
    Expression(ExpressionStatement),
}

/// Nothing, or the `Empty` token at the end of the input.
#[derive(Debug)]
pub struct EmptyStatement {
    pub empty: Option<usize>,
}

#[derive(Debug)]
pub struct BlockStatement {
    pub open: usize,
    pub statements: List<Statement>,
    pub close: usize,
}

#[derive(Debug)]
pub struct IfStatement {
    pub if_: usize,
    pub open: usize,
    pub condition: Box<Expression>,
    pub close: usize,
    pub ty: IfStatementType,
}

#[derive(Debug)]
pub enum IfStatementType {
    NoElse { body: Box<StatementType> },
    Else {
        body: Box<StatementType>,
        semicolon: Option<usize>,
        else_: usize,
        else_body: Box<StatementType>,
    },
}

#[derive(Debug)]
pub struct WhileStatement {
    pub while_: usize,
    pub open: usize,
    pub condition: Box<Expression>,
    pub close: usize,
    pub body: Box<StatementType>,
}

#[derive(Debug)]
pub struct DoWhileStatement {
    pub do_: usize,
    pub body: Box<Statement>,
    pub while_: usize,
    pub open: usize,
    pub condition: Box<Expression>,
    pub close: usize,
}

#[derive(Debug)]
pub struct SwitchStatement {
    pub switch: usize,
    pub open_condition: usize,
    pub condition: Box<Expression>,
    pub close_condition: usize,
    pub open_cases: usize,
    pub cases: List<SwitchCase>,
    pub close_cases: usize,
}

/// `case value: body` or `default: body`
#[derive(Debug)]
pub struct SwitchCase {
    pub condition: SwitchCaseCondition,
    pub colon: usize,
    pub body: List<Statement>,
}

#[derive(Debug)]
pub enum SwitchCaseCondition {
    Default { default: usize },
    Case { case: usize, value: Box<Expression> },
}

#[derive(Debug)]
pub struct ForStatement {
    pub for_: usize,
    pub open: usize,
    pub initializer: Option<ForDefinition>,
    pub semicolon_1: usize,
    pub condition: Option<Box<Expression>>,
    pub semicolon_2: usize,
    pub increment: Option<Box<Expression>>,
    pub close: usize,
    pub body: Box<StatementType>,
}

#[derive(Debug)]
pub enum ForDefinition {
    Definition(VarDefinitionStatement),
    Expression(Box<Expression>),
}

#[derive(Debug)]
pub struct ForeachStatement {
    pub foreach: usize,
    pub open: usize,
    pub index: Option<ForeachIndex>,
    pub value_type: Option<Type>,
    pub value_name: Identifier,
    pub in_: usize,
    pub array: Box<Expression>,
    pub close: usize,
    pub body: Box<StatementType>,
}

/// `T name,`
#[derive(Debug)]
pub struct ForeachIndex {
    pub type_: Option<Type>,
    pub name: Identifier,
    pub comma: usize,
}

#[derive(Debug)]
pub struct TryCatchStatement {
    pub try_: usize,
    pub body: Box<Statement>,
    pub catch: usize,
    pub open: usize,
    pub catch_name: Identifier,
    pub close: usize,
    pub catch_body: Box<StatementType>,
}

#[derive(Debug)]
pub struct BreakStatement {
    pub break_: usize,
}

#[derive(Debug)]
pub struct ContinueStatement {
    pub continue_: usize,
}

#[derive(Debug)]
pub struct ReturnStatement {
    pub return_: usize,
    pub value: Option<Box<Expression>>,
}

#[derive(Debug)]
pub struct YieldStatement {
    pub yield_: usize,
    pub value: Option<Box<Expression>>,
}

#[derive(Debug)]
pub struct ThrowStatement {
    pub throw: usize,
    pub value: Box<Expression>,
}

/// `const T name = value`
#[derive(Debug)]
pub struct ConstDefinitionStatement {
    pub const_: usize,
    pub const_type: Option<Type>,
    pub name: Identifier,
    pub initializer: VarInitializer,
}

/// `class name definition`
#[derive(Debug)]
pub struct ClassDefinitionStatement {
    pub class: usize,
    pub name: Box<Expression>,
    pub definition: ClassDefinition,
}

/// `enum name { entries }`
#[derive(Debug)]
pub struct EnumDefinitionStatement {
    pub enum_: usize,
    pub name: Identifier,
    pub open: usize,
    pub entries: List<EnumEntry>,
    pub close: usize,
}

/// `name = value,`
#[derive(Debug)]
pub struct EnumEntry {
    pub name: Identifier,
    pub initializer: Option<VarInitializer>,
    pub comma: Option<usize>,
}

/// `R function a::b(params) body`
#[derive(Debug)]
pub struct FunctionDefinitionStatement {
    pub return_type: Option<Type>,
    pub function: usize,
    pub name: SeparatedList1<Identifier>,
    pub definition: Box<FunctionDefinition>,
}

/// `function a::b::constructor(params) body`
#[derive(Debug)]
pub struct ConstructorDefinitionStatement {
    pub function: usize,
    pub namespaces: List<(Identifier, usize)>,
    pub last_name: Identifier,
    pub last_namespace: usize,
    pub constructor: usize,
    pub definition: Box<FunctionDefinition>,
}

/// `T a = 1, b`
#[derive(Debug)]
pub struct VarDefinitionStatement {
    pub type_: Type,
    pub definitions: SeparatedListTrailing1<VarDefinition>,
}

/// `struct name definition`
#[derive(Debug)]
pub struct StructDefinitionStatement {
    pub struct_: usize,
    pub name: Identifier,
    pub definition: StructDefinition,
}

/// `typedef name T`
#[derive(Debug)]
pub struct TypeDefinitionStatement {
    pub typedef: usize,
    pub name: Identifier,
    pub type_: Type,
}

#[derive(Debug)]
pub struct ThreadStatement {
    pub thread: usize,
    pub value: Box<Expression>,
}

/// `delaythread(duration) value`
#[derive(Debug)]
pub struct DelayThreadStatement {
    pub delay_thread: usize,
    pub open: usize,
    pub duration: Box<Expression>,
    pub close: usize,
    pub value: Box<Expression>,
}

#[derive(Debug)]
pub struct WaitThreadStatement {
    pub wait_thread: usize,
    pub value: Box<Expression>,
}

#[derive(Debug)]
pub struct WaitThreadSoloStatement {
    pub wait_thread_solo: usize,
    pub value: Box<Expression>,
}

#[derive(Debug)]
pub struct WaitStatement {
    pub wait: usize,
    pub value: Box<Expression>,
}

/// `global definition`
#[derive(Debug)]
pub struct GlobalStatement {
    pub global: usize,
    pub definition: GlobalDefinition,
}

#[derive(Debug)]
pub enum GlobalDefinition {
    Function { function: usize, name: Identifier },
    UntypedVar { name: Identifier, initializer: VarInitializer },
    TypedVar(VarDefinitionStatement),
    Const(ConstDefinitionStatement),
    Enum(EnumDefinitionStatement),
    Class(ClassDefinitionStatement),
    Struct(StructDefinitionStatement),
    Type(TypeDefinitionStatement),
}

#[derive(Debug)]
pub struct GlobalizeAllFunctionsStatement {
    pub globalize_all_functions: usize,
}

#[derive(Debug)]
pub struct UntypedStatement {
    pub untyped: usize,
}

/// `#document(class, "property", "help text")`; the optional class and its comma are read
/// and not kept.
#[derive(Debug)]
pub struct PreprocessedDocumentation {
    pub document: usize,
    pub open: usize,
    pub property: usize,
    pub seperator: usize,
    pub help_text: usize,
    pub close: usize,
}

#[derive(Debug)]
pub struct ExpressionStatement {
    pub value: Box<Expression>,
}

} // verus!
