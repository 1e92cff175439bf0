//! Identifiers.
use crate::ast::{Identifier, MethodIdentifier};
use crate::error::ParseErrorType;
use crate::parser::result::{ParseResult, spec_map_val, spec_or_try, is_soft_err};
use crate::parser::token_list::TokenList;
use crate::token::{TerminalToken, TokenType};
use vstd::prelude::*;

verus! {

pub open spec fn spec_identifier<'s>(tokens: TokenList<'s>) -> ParseResult<'s, Identifier> {
    if tokens.index < tokens.end && tokens.item(tokens.index as int).token.ty is Identifier {
        Ok((tokens.at(tokens.index + 1), Identifier { token: tokens.index }))
    } else {
        Err(tokens.spec_error(ParseErrorType::ExpectedIdentifier))
    }
}

/// An identifier token.
pub fn identifier<'s>(tokens: TokenList<'s>) -> (r: ParseResult<'s, Identifier>)
    requires
        tokens.wf(),
    ensures
        r == spec_identifier(tokens),
{
    if let Some((next, item)) = tokens.split_first() {
        if let TokenType::Identifier(_) = item.token.ty {
            return Ok((next, Identifier { token: tokens.index }));
        }
    }
    Err(tokens.error(ParseErrorType::ExpectedIdentifier))
}

pub open spec fn spec_method_identifier<'s>(tokens: TokenList<'s>) -> ParseResult<'s, MethodIdentifier> {
    spec_or_try(
        spec_map_val(
            tokens.spec_terminal(TerminalToken::Constructor),
            |t: usize| MethodIdentifier::Constructor(t),
        ),
        spec_map_val(spec_identifier(tokens), |i: Identifier| MethodIdentifier::Identifier(i)),
    )
}

/// The name of a method: an identifier, or `constructor`.
pub fn method_identifier<'s>(tokens: TokenList<'s>) -> (r: ParseResult<'s, MethodIdentifier>)
    requires
        tokens.wf(),
    ensures
        r == spec_method_identifier(tokens),
{
    let r = match tokens.terminal(TerminalToken::Constructor) {
        Ok((t, c)) => Ok((t, MethodIdentifier::Constructor(c))),
        Err(e) => Err(e),
    };
    if is_soft_err(&r) {
        match identifier(tokens) {
            Ok((t, i)) => Ok((t, MethodIdentifier::Identifier(i))),
            Err(e) => Err(e),
        }
    } else {
        r
    }
}

} // verus!
