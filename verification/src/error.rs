//! Errors that the parser reports.
use crate::token::TerminalToken;
use vstd::prelude::*;

verus! {

/// Whether an error applies to the token at its index, or to the space before it.
#[derive(Clone, Copy, Debug, PartialEq, Eq, Structural)]
pub enum TokenAffinity {
    Before,
    Inline,
}

/// The syntactic construct that was being parsed when an error was met.
#[derive(Clone, Copy, Debug, PartialEq, Eq, Structural)]
pub enum ContextType {
    Span,
    Expression,
    Type,
    Statement,
    BlockStatement,
    FunctionLiteral,
    ClassLiteral,
    TableLiteral,
    ArrayLiteral,
    VectorLiteral,
    LambdaLiteral,
    FunctionParamList,
    CallArgumentList,
    GenericArgumentList,
    IfStatement,
    IfStatementCondition,
    WhileStatement,
    WhileStatementCondition,
    DoWhileStatement,
    DoWhileStatementCondition,
    SwitchStatement,
    SwitchStatementCondition,
    ForStatement,
    ForStatementCondition,
    ForeachStatement,
    ForeachStatementCondition,
    TryCatchStatementCatchName,
    ReturnStatement,
    YieldStatement,
    ThrowStatement,
    ConstDefinition,
    ClassDefinition,
    EnumDefinition,
    FunctionDefinition,
    VarDefinition,
    StructDefinition,
    TypeDefinition,
    ThreadStatement,
    DelayThreadStatement,
    WaitThreadStatement,
    WaitThreadSoloStatement,
    WaitStatement,
    GlobalStatement,
    PreProcessorDocumentationStatement,
    PreprocessorIf,
}

/// What the parser expected and did not find.
#[derive(Clone, Copy, Debug, PartialEq, Eq, Structural)]
pub enum ParseErrorType {
    ExpectedTerminal(TerminalToken),
    /// Two terminals with nothing between them, such as `>>`.
    ExpectedCompound2(TerminalToken, TerminalToken),
    /// Three terminals with nothing between them, such as `>>>`.
    ExpectedCompound3(TerminalToken, TerminalToken, TerminalToken),
    ExpectedIdentifier,
    ExpectedLiteral,
    ExpectedStringLiteral,
    ExpectedValue,
    ExpectedOperator,
    ExpectedPrefixOperator,
    ExpectedPostfixOperator,
    ExpectedBinaryOperator,
    ExpectedType,
    ExpectedTypeModifier,
    ExpectedGlobalDefinition,
    ExpectedStatement,
    ExpectedEndOfStatement,
    ExpectedTableSlot,
    ExpectedClassMember,
    ExpectedSwitchCase,
    /// The end of a delimited group was expected here.
    ExpectedEndOfGroup,
    /// An opening delimiter that has no matching closing delimiter.
    UnmatchedOpener(TerminalToken),
    /// An operator that binds less tightly than the surrounding expression allows.
    Precedence,
    IllegalLineBreak,
}

/// The construct an error was met in, and the tokens it spans.
#[derive(Clone, Copy, Debug, PartialEq, Eq, Structural)]
pub struct ParseErrorContext {
    pub ty: ContextType,
    pub start: usize,
    pub end: usize,
}

/// An error met while parsing.
#[derive(Clone, Copy, Debug, PartialEq, Eq, Structural)]
pub struct ParseError {
    pub ty: ParseErrorType,
    /// The index of the token where the error was met.
    pub token_index: usize,
    pub affinity: TokenAffinity,
    /// A fatal error stops all alternatives: the input was recognized as a construct that
    /// then turned out to be malformed.
    pub is_fatal: bool,
    /// The innermost construct the error was met in.
    pub context: Option<ParseErrorContext>,
}

impl ParseError {
    pub open spec fn spec_new(ty: ParseErrorType, token_index: usize, affinity: TokenAffinity) -> ParseError {
        ParseError { ty, token_index, affinity, is_fatal: false, context: None }
    }

    /// A non-fatal error without context.
    pub fn new(ty: ParseErrorType, token_index: usize, affinity: TokenAffinity) -> (r: ParseError)
        ensures
            r == Self::spec_new(ty, token_index, affinity),
    {
        ParseError { ty, token_index, affinity, is_fatal: false, context: None }
    }

    /// The error with the given context, unless it already has one: the innermost context
    /// is kept.
    pub open spec fn spec_with_context(self, ty: ContextType, start: usize) -> ParseError {
        match self.context {
            Some(_) => self,
            None => ParseError {
                context: Some(ParseErrorContext { ty, start, end: self.token_index }),
                ..self
            },
        }
    }

    pub fn with_context(self, ty: ContextType, start: usize) -> (r: ParseError)
        ensures
            r == self.spec_with_context(ty, start),
    {
        match self.context {
            Some(_) => self,
            None => ParseError {
                context: Some(ParseErrorContext { ty, start, end: self.token_index }),
                ..self
            },
        }
    }

    /// The error with a context of type `from` that starts at `start` turned into one of type
    /// `to`; otherwise the error with context `to`, as `with_context` gives.
    pub open spec fn spec_replace_context(self, from: ContextType, to: ContextType, start: usize) -> ParseError {
        match self.context {
            Some(c) => if c.ty == from && c.start == start {
                ParseError { context: Some(ParseErrorContext { ty: to, ..c }), ..self }
            } else {
                self
            },
            None => self.spec_with_context(to, start),
        }
    }

    pub fn replace_context(self, from: ContextType, to: ContextType, start: usize) -> (r: ParseError)
        ensures
            r == self.spec_replace_context(from, to, start),
    {
        match self.context {
            Some(c) => if c.ty == from && c.start == start {
                ParseError { context: Some(ParseErrorContext { ty: to, ..c }), ..self }
            } else {
                self
            },
            None => self.with_context(to, start),
        }
    }
}

/// Only the innermost context of an error is kept: giving a context to an error that already
/// has one leaves it as it is.
pub proof fn lemma_innermost_context_kept(
    e: ParseError,
    inner: ContextType,
    inner_start: usize,
    outer: ContextType,
    outer_start: usize,
)
    ensures
        e.spec_with_context(inner, inner_start).spec_with_context(outer, outer_start)
            == e.spec_with_context(inner, inner_start),
        e.spec_with_context(inner, inner_start).context is Some,
{
}

} // verus!
