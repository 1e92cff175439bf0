//! Slots of table literals.
use crate::ast::{Expression, Identifier, List, Precedence, TableSlot, TableSlotType, VarInitializer};
use crate::error::ParseErrorType;
use crate::parser::expression::{expression, spec_expression};
use crate::parser::identifier::{identifier, spec_identifier};
use crate::parser::preprocessed::{StopAt, spec_stops_at, stops_at};
use crate::parser::result::{
    ParseResult, consumes, definite, is_soft_err, maybe, moves_on, or_error, spec_definite,
    spec_map_val, spec_maybe, spec_or_error, spec_or_try, spec_unreachable,
};
use crate::parser::token_list::TokenList;
use crate::parser::variable::{spec_var_initializer, var_initializer};
use crate::token::{LiteralToken, TerminalToken, TokenType};
use vstd::prelude::*;

verus! {

pub open spec fn spec_string_literal<'s>(tokens: TokenList<'s>) -> ParseResult<'s, usize> {
    if tokens.index < tokens.end && tokens.item(tokens.index as int).token.ty is Literal
        && tokens.item(tokens.index as int).token.ty->Literal_0 is String {
        Ok((tokens.at(tokens.index + 1), tokens.index))
    } else {
        Err(tokens.spec_error(ParseErrorType::ExpectedStringLiteral))
    }
}

/// The index of the next token, if it is a string literal.
pub fn string_literal<'s>(tokens: TokenList<'s>) -> (r: ParseResult<'s, usize>)
    requires
        tokens.wf(),
    ensures
        r == spec_string_literal(tokens),
        consumes(tokens, r),
{
    if tokens.index < tokens.end {
        if let TokenType::Literal(LiteralToken::String(_)) = tokens.tokens[tokens.index].token.ty {
            return Ok((TokenList { index: tokens.index + 1, ..tokens }, tokens.index));
        }
    }
    Err(tokens.error(ParseErrorType::ExpectedStringLiteral))
}

#[verifier::opaque]
pub open spec fn spec_property_slot<'s>(tokens: TokenList<'s>) -> ParseResult<'s, TableSlotType>
    decreases tokens.end - tokens.index, 1int,
{
    match spec_identifier(tokens) {
        Err(e) => Err(e),
        Ok((t1, name)) => spec_map_val(
            spec_var_initializer(t1),
            |initializer: VarInitializer| TableSlotType::Property { name, initializer },
        ),
    }
}

/// `name = value`
fn property_slot<'s>(tokens: TokenList<'s>) -> (r: ParseResult<'s, TableSlotType>)
    requires
        tokens.wf(),
    ensures
        r == spec_property_slot(tokens),
        consumes(tokens, r),
    decreases tokens.end - tokens.index, 1int,
{
    proof {
        reveal(spec_property_slot);
        reveal(spec_var_initializer);
    }
    let (t1, name) = identifier(tokens)?;
    match var_initializer(t1) {
        Ok((t2, initializer)) => Ok((t2, TableSlotType::Property { name, initializer })),
        Err(e) => Err(e),
    }
}

#[verifier::opaque]
pub open spec fn spec_computed_slot<'s>(tokens: TokenList<'s>) -> ParseResult<'s, TableSlotType>
    decreases tokens.end - tokens.index, 1int,
{
    match tokens.spec_terminal(TerminalToken::OpenSquare) {
        Err(e) => Err(e),
        Ok((t1, open)) => spec_definite(
            match spec_expression(t1, Precedence::Lowest) {
                Err(e) => Err(e),
                Ok((t2, name)) => if tokens.advances_to(t2) {
                    match t2.spec_terminal(TerminalToken::CloseSquare) {
                        Err(e) => Err(e),
                        Ok((t3, close)) => spec_map_val(
                            spec_var_initializer(t3),
                            |initializer: VarInitializer| TableSlotType::ComputedProperty {
                                open,
                                name,
                                close,
                                initializer,
                            },
                        ),
                    }
                } else {
                    spec_unreachable(tokens)
                },
            },
        ),
    }
}

/// `[name] = value`
fn computed_slot<'s>(tokens: TokenList<'s>) -> (r: ParseResult<'s, TableSlotType>)
    requires
        tokens.wf(),
    ensures
        r == spec_computed_slot(tokens),
        consumes(tokens, r),
    decreases tokens.end - tokens.index, 1int,
{
    proof {
        reveal(spec_computed_slot);
        reveal(spec_expression);
        reveal(spec_var_initializer);
    }
    let (t1, open) = tokens.terminal(TerminalToken::OpenSquare)?;
    definite(
        match expression(t1, Precedence::Lowest) {
            Err(e) => Err(e),
            Ok((t2, name)) => match t2.terminal(TerminalToken::CloseSquare) {
                Err(e) => Err(e),
                Ok((t3, close)) => match var_initializer(t3) {
                    Ok((t4, initializer)) => Ok(
                        (t4, TableSlotType::ComputedProperty { open, name, close, initializer }),
                    ),
                    Err(e) => Err(e),
                },
            },
        },
    )
}

#[verifier::opaque]
pub open spec fn spec_json_slot<'s>(tokens: TokenList<'s>) -> ParseResult<'s, TableSlotType>
    decreases tokens.end - tokens.index, 1int,
{
    match spec_string_literal(tokens) {
        Err(e) => Err(e),
        Ok((t1, name)) => match t1.spec_terminal(TerminalToken::Colon) {
            Err(e) => Err(e),
            Ok((t2, colon)) => spec_definite(
                spec_map_val(
                    spec_expression(t2, Precedence::Comma),
                    |value: Box<Expression>| TableSlotType::JsonProperty { name, colon, value },
                ),
            ),
        },
    }
}

/// `"name": value`
fn json_slot<'s>(tokens: TokenList<'s>) -> (r: ParseResult<'s, TableSlotType>)
    requires
        tokens.wf(),
    ensures
        r == spec_json_slot(tokens),
        consumes(tokens, r),
    decreases tokens.end - tokens.index, 1int,
{
    proof {
        reveal(spec_json_slot);
        reveal(spec_expression);
    }
    let (t1, name) = string_literal(tokens)?;
    let (t2, colon) = t1.terminal(TerminalToken::Colon)?;
    definite(
        match expression(t2, Precedence::Comma) {
            Ok((t3, value)) => Ok((t3, TableSlotType::JsonProperty { name, colon, value })),
            Err(e) => Err(e),
        },
    )
}

#[verifier::opaque]
pub open spec fn spec_table_slot<'s>(tokens: TokenList<'s>) -> ParseResult<'s, TableSlot>
    decreases tokens.end - tokens.index, 2int,
{
    let r = spec_or_try(spec_property_slot(tokens), spec_computed_slot(tokens));
    let r = spec_or_try(r, spec_json_slot(tokens));
    match spec_or_error(r, tokens.spec_error(ParseErrorType::ExpectedTableSlot)) {
        Err(e) => Err(e),
        Ok((t1, ty)) => match spec_maybe(t1.spec_terminal(TerminalToken::Comma), t1) {
            Err(e) => Err(e),
            Ok((t2, comma)) => Ok((t2, TableSlot { ty, comma })),
        },
    }
}

/// A slot of a table literal, and the comma after it, if any.
pub fn table_slot<'s>(tokens: TokenList<'s>) -> (r: ParseResult<'s, TableSlot>)
    requires
        tokens.wf(),
    ensures
        r == spec_table_slot(tokens),
        consumes(tokens, r),
    decreases tokens.end - tokens.index, 2int,
{
    proof {
        reveal(spec_table_slot);
        reveal(spec_property_slot);
        reveal(spec_computed_slot);
        reveal(spec_json_slot);
    }
    let r = property_slot(tokens);
    let r = if is_soft_err(&r) {
        computed_slot(tokens)
    } else {
        r
    };
    let r = if is_soft_err(&r) {
        json_slot(tokens)
    } else {
        r
    };
    let (t1, ty) = or_error(r, tokens.error(ParseErrorType::ExpectedTableSlot))?;
    let (t2, comma) = maybe(t1.terminal(TerminalToken::Comma), t1)?;
    Ok((t2, TableSlot { ty, comma }))
}

#[verifier::opaque]
pub open spec fn spec_table_slots_until<'s>(tokens: TokenList<'s>, stop: StopAt) -> ParseResult<'s, List<TableSlot>>
    decreases tokens.end - tokens.index, 3int,
{
    if spec_stops_at(tokens, stop) {
        Ok((tokens, List::Nil))
    } else {
        match spec_table_slot(tokens) {
            Err(e) => Err(e),
            Ok((t1, s)) => if tokens.advances_to(t1) {
                spec_map_val(
                    spec_table_slots_until(t1, stop),
                    |l: List<TableSlot>| List::Cons(Box::new(s), Box::new(l)),
                )
            } else {
                spec_unreachable(tokens)
            },
        }
    }
}

/// Slots up to where `stop` says the list ends.
pub fn table_slots_until<'s>(tokens: TokenList<'s>, stop: StopAt) -> (r: ParseResult<'s, List<TableSlot>>)
    requires
        tokens.wf(),
    ensures
        r == spec_table_slots_until(tokens, stop),
        moves_on(tokens, r),
    decreases tokens.end - tokens.index, 3int,
{
    proof {
        reveal(spec_table_slots_until);
        reveal(spec_table_slot);
    }
    if stops_at(tokens, stop) {
        return Ok((tokens, List::Nil));
    }
    let (t1, s) = table_slot(tokens)?;
    match table_slots_until(t1, stop) {
        Ok((t2, l)) => Ok((t2, List::Cons(Box::new(s), Box::new(l)))),
        Err(e) => Err(e),
    }
}

} // verus!
