//! Tokens as produced by the lexer: the input of the delimiter matcher and of the parser.
use vstd::prelude::*;

verus! {

/// The dialect of Squirrel being parsed.
#[derive(Clone, Copy, Debug, PartialEq, Eq, Structural)]
pub enum Flavor {
    /// Vanilla Squirrel 3, without types.
    SquirrelVanilla,
    /// Respawn's Squirrel, with a type system.
    SquirrelRespawn,
}

/// A fixed token: punctuation, an operator or a keyword.
#[derive(Clone, Copy, Debug, PartialEq, Eq, Structural)]
pub enum TerminalToken {
    OpenBrace,
    CloseBrace,
    OpenSquare,
    CloseSquare,
    OpenBracket,
    CloseBracket,
    OpenAttributes,
    CloseAttributes,
    Semicolon,
    Comma,
    Dot,
    Colon,
    Namespace,
    Question,
    Ellipsis,
    At,
    Assign,
    NewSlot,
    AddEqual,
    SubtractEqual,
    MultiplyEqual,
    DivideEqual,
    ModuloEqual,
    Less,
    Greater,
    LessEqual,
    GreaterEqual,
    ThreeWay,
    Equal,
    NotEqual,
    Add,
    Subtract,
    Multiply,
    Divide,
    Modulo,
    LogicalAnd,
    LogicalOr,
    BitwiseAnd,
    BitwiseOr,
    BitwiseXor,
    ShiftLeft,
    Not,
    BitwiseNot,
    Increment,
    Decrement,
    In,
    Instanceof,
    Typeof,
    Clone,
    Delete,
    Local,
    Struct,
    FunctionRef,
    Function,
    Constructor,
    Class,
    Extends,
    Const,
    Enum,
    If,
    Else,
    While,
    Do,
    Switch,
    Case,
    Default,
    For,
    Foreach,
    Try,
    Catch,
    Break,
    Continue,
    Return,
    Yield,
    Throw,
    Typedef,
    Thread,
    DelayThread,
    WaitThread,
    WaitThreadSolo,
    Wait,
    Global,
    GlobalizeAllFunctions,
    Untyped,
    Delegate,
    Expect,
    OrNull,
    PreprocessorIf,
    PreprocessorElse,
    PreprocessorEndIf,
    PreprocessorDocument,
}

/// The contents of a string literal, by the kind of quoting it used.
#[derive(Clone, Debug, PartialEq, Eq)]
pub enum StringToken {
    /// `"text"`
    Literal(String),
    /// `@"text"`
    Verbatim(String),
    /// `$"text"`
    Asset(String),
}

/// A literal value.
#[derive(Clone, Debug, PartialEq, Eq)]
pub enum LiteralToken {
    Int(i64),
    /// A character literal, as its source text.
    Char(String),
    /// A floating point literal, kept as its source text: this library never interprets it.
    Float(String),
    String(StringToken),
}

/// What kind of token a token is.
#[derive(Clone, Debug, PartialEq, Eq)]
pub enum TokenType {
    /// Stands at the end of a token list and holds the comments that follow the last token.
    Empty,
    Terminal(TerminalToken),
    Literal(LiteralToken),
    Identifier(String),
}

/// A range of byte offsets into the source text.
#[derive(Clone, Copy, Debug, PartialEq, Eq, Structural)]
pub struct SourceRange {
    pub start: usize,
    pub end: usize,
}

/// A token with its place in the source.
#[derive(Clone, Debug, PartialEq, Eq)]
pub struct Token {
    pub ty: TokenType,
    pub range: SourceRange,
    /// Whether a line break follows this token.
    pub new_line: bool,
}

/// A token with attached metadata.
#[derive(Clone, Debug, PartialEq, Eq)]
pub struct TokenItem {
    /// The actual token.
    pub token: Token,
    /// The index of the corresponding closing delimiter token, if this token is an opening
    /// delimiter that was closed.
    pub close_index: Option<usize>,
}

impl TokenType {
    /// Whether this token is the given terminal.
    pub open spec fn is_terminal(self, t: TerminalToken) -> bool {
        self == TokenType::Terminal(t)
    }
}

/// Tells whether a token is the given terminal.
pub fn token_is_terminal(ty: &TokenType, t: TerminalToken) -> (r: bool)
    ensures
        r == ty.is_terminal(t),
{
    match ty {
        TokenType::Terminal(received) => *received == t,
        _ => false,
    }
}

} // verus!
