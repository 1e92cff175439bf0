//! Prefix, postfix and binary operators.
use crate::ast::{
    BinaryOperator, BinaryOperatorKind, PostfixOperator, PostfixOperatorKind, Precedence,
    PrefixOperator, PrefixOperatorKind,
};
use crate::error::ParseErrorType;
use crate::parser::result::ParseResult;
use crate::parser::token_list::TokenList;
use crate::token::{TerminalToken, TokenType};
use vstd::prelude::*;

verus! {

impl BinaryOperatorKind {
    pub open spec fn spec_precedence(self) -> Precedence {
        match self {
            BinaryOperatorKind::Assign | BinaryOperatorKind::NewSlot | BinaryOperatorKind::AddAssign
            | BinaryOperatorKind::SubtractAssign | BinaryOperatorKind::MultiplyAssign
            | BinaryOperatorKind::DivideAssign | BinaryOperatorKind::ModuloAssign => Precedence::Assignment,
            BinaryOperatorKind::LogicalOr => Precedence::LogicalOr,
            BinaryOperatorKind::LogicalAnd => Precedence::LogicalAnd,
            BinaryOperatorKind::BitwiseOr => Precedence::BitwiseOr,
            BinaryOperatorKind::BitwiseXor => Precedence::BitwiseXor,
            BinaryOperatorKind::BitwiseAnd => Precedence::BitwiseAnd,
            BinaryOperatorKind::Equal | BinaryOperatorKind::NotEqual | BinaryOperatorKind::ThreeWay => Precedence::Equality,
            BinaryOperatorKind::Less | BinaryOperatorKind::LessEqual | BinaryOperatorKind::Greater
            | BinaryOperatorKind::GreaterEqual | BinaryOperatorKind::In | BinaryOperatorKind::Instanceof => Precedence::Comparison,
            BinaryOperatorKind::ShiftLeft | BinaryOperatorKind::ShiftRight
            | BinaryOperatorKind::UnsignedShiftRight => Precedence::Bitshift,
            BinaryOperatorKind::Add | BinaryOperatorKind::Subtract => Precedence::Additive,
            BinaryOperatorKind::Multiply | BinaryOperatorKind::Divide | BinaryOperatorKind::Modulo => Precedence::Multiplicative,
        }
    }

    /// How tightly the operator binds.
    pub fn precedence(self) -> (r: Precedence)
        ensures
            r == self.spec_precedence(),
    {
        match self {
            BinaryOperatorKind::Assign | BinaryOperatorKind::NewSlot | BinaryOperatorKind::AddAssign
            | BinaryOperatorKind::SubtractAssign | BinaryOperatorKind::MultiplyAssign
            | BinaryOperatorKind::DivideAssign | BinaryOperatorKind::ModuloAssign => Precedence::Assignment,
            BinaryOperatorKind::LogicalOr => Precedence::LogicalOr,
            BinaryOperatorKind::LogicalAnd => Precedence::LogicalAnd,
            BinaryOperatorKind::BitwiseOr => Precedence::BitwiseOr,
            BinaryOperatorKind::BitwiseXor => Precedence::BitwiseXor,
            BinaryOperatorKind::BitwiseAnd => Precedence::BitwiseAnd,
            BinaryOperatorKind::Equal | BinaryOperatorKind::NotEqual | BinaryOperatorKind::ThreeWay => Precedence::Equality,
            BinaryOperatorKind::Less | BinaryOperatorKind::LessEqual | BinaryOperatorKind::Greater
            | BinaryOperatorKind::GreaterEqual | BinaryOperatorKind::In | BinaryOperatorKind::Instanceof => Precedence::Comparison,
            BinaryOperatorKind::ShiftLeft | BinaryOperatorKind::ShiftRight
            | BinaryOperatorKind::UnsignedShiftRight => Precedence::Bitshift,
            BinaryOperatorKind::Add | BinaryOperatorKind::Subtract => Precedence::Additive,
            BinaryOperatorKind::Multiply | BinaryOperatorKind::Divide | BinaryOperatorKind::Modulo => Precedence::Multiplicative,
        }
    }
}

impl BinaryOperator {
    pub open spec fn spec_precedence(self) -> Precedence {
        self.kind.spec_precedence()
    }

    pub fn precedence(&self) -> (r: Precedence)
        ensures
            r == self.spec_precedence(),
    {
        self.kind.precedence()
    }
}

/// The binary operator written with the single terminal `t`, if there is one. `>` is left
/// out: it starts `>>` and `>>>` too.
pub open spec fn spec_single_binary(t: TerminalToken) -> Option<BinaryOperatorKind> {
    match t {
        TerminalToken::Assign => Some(BinaryOperatorKind::Assign),
        TerminalToken::NewSlot => Some(BinaryOperatorKind::NewSlot),
        TerminalToken::AddEqual => Some(BinaryOperatorKind::AddAssign),
        TerminalToken::SubtractEqual => Some(BinaryOperatorKind::SubtractAssign),
        TerminalToken::MultiplyEqual => Some(BinaryOperatorKind::MultiplyAssign),
        TerminalToken::DivideEqual => Some(BinaryOperatorKind::DivideAssign),
        TerminalToken::ModuloEqual => Some(BinaryOperatorKind::ModuloAssign),
        TerminalToken::LogicalOr => Some(BinaryOperatorKind::LogicalOr),
        TerminalToken::LogicalAnd => Some(BinaryOperatorKind::LogicalAnd),
        TerminalToken::BitwiseOr => Some(BinaryOperatorKind::BitwiseOr),
        TerminalToken::BitwiseXor => Some(BinaryOperatorKind::BitwiseXor),
        TerminalToken::BitwiseAnd => Some(BinaryOperatorKind::BitwiseAnd),
        TerminalToken::Equal => Some(BinaryOperatorKind::Equal),
        TerminalToken::NotEqual => Some(BinaryOperatorKind::NotEqual),
        TerminalToken::ThreeWay => Some(BinaryOperatorKind::ThreeWay),
        TerminalToken::Less => Some(BinaryOperatorKind::Less),
        TerminalToken::LessEqual => Some(BinaryOperatorKind::LessEqual),
        TerminalToken::GreaterEqual => Some(BinaryOperatorKind::GreaterEqual),
        TerminalToken::In => Some(BinaryOperatorKind::In),
        TerminalToken::Instanceof => Some(BinaryOperatorKind::Instanceof),
        TerminalToken::ShiftLeft => Some(BinaryOperatorKind::ShiftLeft),
        TerminalToken::Add => Some(BinaryOperatorKind::Add),
        TerminalToken::Subtract => Some(BinaryOperatorKind::Subtract),
        TerminalToken::Multiply => Some(BinaryOperatorKind::Multiply),
        TerminalToken::Divide => Some(BinaryOperatorKind::Divide),
        TerminalToken::Modulo => Some(BinaryOperatorKind::Modulo),
        _ => None,
    }
}

fn single_binary(t: TerminalToken) -> (r: Option<BinaryOperatorKind>)
    ensures
        r == spec_single_binary(t),
{
    match t {
        TerminalToken::Assign => Some(BinaryOperatorKind::Assign),
        TerminalToken::NewSlot => Some(BinaryOperatorKind::NewSlot),
        TerminalToken::AddEqual => Some(BinaryOperatorKind::AddAssign),
        TerminalToken::SubtractEqual => Some(BinaryOperatorKind::SubtractAssign),
        TerminalToken::MultiplyEqual => Some(BinaryOperatorKind::MultiplyAssign),
        TerminalToken::DivideEqual => Some(BinaryOperatorKind::DivideAssign),
        TerminalToken::ModuloEqual => Some(BinaryOperatorKind::ModuloAssign),
        TerminalToken::LogicalOr => Some(BinaryOperatorKind::LogicalOr),
        TerminalToken::LogicalAnd => Some(BinaryOperatorKind::LogicalAnd),
        TerminalToken::BitwiseOr => Some(BinaryOperatorKind::BitwiseOr),
        TerminalToken::BitwiseXor => Some(BinaryOperatorKind::BitwiseXor),
        TerminalToken::BitwiseAnd => Some(BinaryOperatorKind::BitwiseAnd),
        TerminalToken::Equal => Some(BinaryOperatorKind::Equal),
        TerminalToken::NotEqual => Some(BinaryOperatorKind::NotEqual),
        TerminalToken::ThreeWay => Some(BinaryOperatorKind::ThreeWay),
        TerminalToken::Less => Some(BinaryOperatorKind::Less),
        TerminalToken::LessEqual => Some(BinaryOperatorKind::LessEqual),
        TerminalToken::GreaterEqual => Some(BinaryOperatorKind::GreaterEqual),
        TerminalToken::In => Some(BinaryOperatorKind::In),
        TerminalToken::Instanceof => Some(BinaryOperatorKind::Instanceof),
        TerminalToken::ShiftLeft => Some(BinaryOperatorKind::ShiftLeft),
        TerminalToken::Add => Some(BinaryOperatorKind::Add),
        TerminalToken::Subtract => Some(BinaryOperatorKind::Subtract),
        TerminalToken::Multiply => Some(BinaryOperatorKind::Multiply),
        TerminalToken::Divide => Some(BinaryOperatorKind::Divide),
        TerminalToken::Modulo => Some(BinaryOperatorKind::Modulo),
        _ => None,
    }
}

pub open spec fn spec_binary_operator<'s>(tokens: TokenList<'s>) -> ParseResult<'s, BinaryOperator> {
    if tokens.next_is(TerminalToken::Greater) {
        match tokens.spec_terminal3(TerminalToken::Greater, TerminalToken::Greater, TerminalToken::Greater) {
            Ok((t, (a, _, c))) => Ok(
                (t, BinaryOperator { kind: BinaryOperatorKind::UnsignedShiftRight, first: a, last: c }),
            ),
            Err(_) => match tokens.spec_terminal2(TerminalToken::Greater, TerminalToken::Greater) {
                Ok((t, (a, b))) => Ok(
                    (t, BinaryOperator { kind: BinaryOperatorKind::ShiftRight, first: a, last: b }),
                ),
                Err(_) => Ok(
                    (
                        tokens.at(tokens.index + 1),
                        BinaryOperator {
                            kind: BinaryOperatorKind::Greater,
                            first: tokens.index,
                            last: tokens.index,
                        },
                    ),
                ),
            },
        }
    } else if tokens.index < tokens.end && tokens.item(tokens.index as int).token.ty is Terminal
        && spec_single_binary(tokens.item(tokens.index as int).token.ty->Terminal_0) is Some {
        Ok(
            (
                tokens.at(tokens.index + 1),
                BinaryOperator {
                    kind: spec_single_binary(tokens.item(tokens.index as int).token.ty->Terminal_0).unwrap(),
                    first: tokens.index,
                    last: tokens.index,
                },
            ),
        )
    } else {
        Err(tokens.spec_error(ParseErrorType::ExpectedBinaryOperator))
    }
}

/// A binary operator. `>>` and `>>>` are written as `>` tokens that touch.
pub fn binary_operator<'s>(tokens: TokenList<'s>) -> (r: ParseResult<'s, BinaryOperator>)
    requires
        tokens.wf(),
    ensures
        r == spec_binary_operator(tokens),
{
    if tokens.peek_terminal(TerminalToken::Greater) {
        match tokens.terminal3(TerminalToken::Greater, TerminalToken::Greater, TerminalToken::Greater) {
            Ok((t, (a, _, c))) => Ok(
                (t, BinaryOperator { kind: BinaryOperatorKind::UnsignedShiftRight, first: a, last: c }),
            ),
            Err(_) => match tokens.terminal2(TerminalToken::Greater, TerminalToken::Greater) {
                Ok((t, (a, b))) => Ok(
                    (t, BinaryOperator { kind: BinaryOperatorKind::ShiftRight, first: a, last: b }),
                ),
                Err(_) => Ok(
                    (
                        TokenList { index: tokens.index + 1, ..tokens },
                        BinaryOperator {
                            kind: BinaryOperatorKind::Greater,
                            first: tokens.index,
                            last: tokens.index,
                        },
                    ),
                ),
            },
        }
    } else {
        if tokens.index < tokens.end {
            if let TokenType::Terminal(t) = tokens.tokens[tokens.index].token.ty {
                if let Some(kind) = single_binary(t) {
                    return Ok(
                        (
                            TokenList { index: tokens.index + 1, ..tokens },
                            BinaryOperator { kind, first: tokens.index, last: tokens.index },
                        ),
                    );
                }
            }
        }
        Err(tokens.error(ParseErrorType::ExpectedBinaryOperator))
    }
}

pub open spec fn spec_prefix_kind(t: TerminalToken) -> Option<PrefixOperatorKind> {
    match t {
        TerminalToken::Subtract => Some(PrefixOperatorKind::Negate),
        TerminalToken::Not => Some(PrefixOperatorKind::Not),
        TerminalToken::BitwiseNot => Some(PrefixOperatorKind::BitwiseNot),
        TerminalToken::Increment => Some(PrefixOperatorKind::Increment),
        TerminalToken::Decrement => Some(PrefixOperatorKind::Decrement),
        TerminalToken::Typeof => Some(PrefixOperatorKind::Typeof),
        TerminalToken::Clone => Some(PrefixOperatorKind::Clone),
        TerminalToken::Delete => Some(PrefixOperatorKind::Delete),
        _ => None,
    }
}

fn prefix_kind(t: TerminalToken) -> (r: Option<PrefixOperatorKind>)
    ensures
        r == spec_prefix_kind(t),
{
    match t {
        TerminalToken::Subtract => Some(PrefixOperatorKind::Negate),
        TerminalToken::Not => Some(PrefixOperatorKind::Not),
        TerminalToken::BitwiseNot => Some(PrefixOperatorKind::BitwiseNot),
        TerminalToken::Increment => Some(PrefixOperatorKind::Increment),
        TerminalToken::Decrement => Some(PrefixOperatorKind::Decrement),
        TerminalToken::Typeof => Some(PrefixOperatorKind::Typeof),
        TerminalToken::Clone => Some(PrefixOperatorKind::Clone),
        TerminalToken::Delete => Some(PrefixOperatorKind::Delete),
        _ => None,
    }
}

pub open spec fn spec_prefix_operator<'s>(tokens: TokenList<'s>) -> ParseResult<'s, PrefixOperator> {
    if tokens.index < tokens.end && tokens.item(tokens.index as int).token.ty is Terminal
        && spec_prefix_kind(tokens.item(tokens.index as int).token.ty->Terminal_0) is Some {
        Ok(
            (
                tokens.at(tokens.index + 1),
                PrefixOperator {
                    kind: spec_prefix_kind(tokens.item(tokens.index as int).token.ty->Terminal_0).unwrap(),
                    token: tokens.index,
                },
            ),
        )
    } else {
        Err(tokens.spec_error(ParseErrorType::ExpectedPrefixOperator))
    }
}

/// A prefix operator: `-`, `!`, `~`, `++`, `--`, `typeof`, `clone` or `delete`.
pub fn prefix_operator<'s>(tokens: TokenList<'s>) -> (r: ParseResult<'s, PrefixOperator>)
    requires
        tokens.wf(),
    ensures
        r == spec_prefix_operator(tokens),
{
    if tokens.index < tokens.end {
        if let TokenType::Terminal(t) = tokens.tokens[tokens.index].token.ty {
            if let Some(kind) = prefix_kind(t) {
                return Ok(
                    (
                        TokenList { index: tokens.index + 1, ..tokens },
                        PrefixOperator { kind, token: tokens.index },
                    ),
                );
            }
        }
    }
    Err(tokens.error(ParseErrorType::ExpectedPrefixOperator))
}

pub open spec fn spec_postfix_kind(t: TerminalToken) -> Option<PostfixOperatorKind> {
    match t {
        TerminalToken::Increment => Some(PostfixOperatorKind::Increment),
        TerminalToken::Decrement => Some(PostfixOperatorKind::Decrement),
        _ => None,
    }
}

pub open spec fn spec_postfix_operator<'s>(tokens: TokenList<'s>) -> ParseResult<'s, PostfixOperator> {
    if tokens.index < tokens.end && tokens.item(tokens.index as int).token.ty is Terminal
        && spec_postfix_kind(tokens.item(tokens.index as int).token.ty->Terminal_0) is Some {
        Ok(
            (
                tokens.at(tokens.index + 1),
                PostfixOperator {
                    kind: spec_postfix_kind(tokens.item(tokens.index as int).token.ty->Terminal_0).unwrap(),
                    token: tokens.index,
                },
            ),
        )
    } else {
        Err(tokens.spec_error(ParseErrorType::ExpectedPostfixOperator))
    }
}

/// A postfix operator: `++` or `--`.
pub fn postfix_operator<'s>(tokens: TokenList<'s>) -> (r: ParseResult<'s, PostfixOperator>)
    requires
        tokens.wf(),
    ensures
        r == spec_postfix_operator(tokens),
{
    if tokens.index < tokens.end {
        if let TokenType::Terminal(t) = tokens.tokens[tokens.index].token.ty {
            let kind = match t {
                TerminalToken::Increment => Some(PostfixOperatorKind::Increment),
                TerminalToken::Decrement => Some(PostfixOperatorKind::Decrement),
                _ => None,
            };
            if let Some(kind) = kind {
                return Ok(
                    (
                        TokenList { index: tokens.index + 1, ..tokens },
                        PostfixOperator { kind, token: tokens.index },
                    ),
                );
            }
        }
    }
    Err(tokens.error(ParseErrorType::ExpectedPostfixOperator))
}

} // verus!
