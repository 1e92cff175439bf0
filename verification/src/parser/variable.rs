//! Variable definitions and initializers.
use crate::ast::{Expression, Identifier, Precedence, VarDefinition, VarInitializer};
use crate::parser::expression::{expression, spec_expression};
use crate::parser::identifier::{identifier, spec_identifier};
use crate::parser::result::{
    ParseResult, consumes, definite, maybe, spec_definite, spec_map_val, spec_maybe,
};
use crate::parser::token_list::TokenList;
use crate::token::TerminalToken;
use vstd::prelude::*;

verus! {

#[verifier::opaque]
pub open spec fn spec_var_definition<'s>(tokens: TokenList<'s>) -> ParseResult<'s, VarDefinition>
    decreases tokens.end - tokens.index, 1int,
{
    match spec_identifier(tokens) {
        Err(e) => Err(e),
        Ok((t1, name)) => match spec_maybe(spec_var_initializer(t1), t1) {
            Err(e) => Err(e),
            Ok((t2, initializer)) => Ok((t2, VarDefinition { name, initializer })),
        },
    }
}

/// A variable definition is a name with the initializer after it, if one follows: `name = value`
/// reads through the value, and a name with no `=` after it has no initializer.
pub proof fn lemma_var_definition<'s>(tokens: TokenList<'s>)
    requires
        tokens.wf(),
        tokens.index < tokens.end,
        tokens.item(tokens.index as int).token.ty is Identifier,
    ensures
        spec_var_initializer(tokens.at(tokens.index + 1)) matches Ok((t, initializer))
            ==> spec_var_definition(tokens) == Ok::<(TokenList<'s>, VarDefinition), crate::error::ParseError>(
            (t, VarDefinition { name: Identifier { token: tokens.index }, initializer: Some(initializer) }),
        ),
        crate::parser::result::is_soft(spec_var_initializer(tokens.at(tokens.index + 1)))
            ==> spec_var_definition(tokens) == Ok::<(TokenList<'s>, VarDefinition), crate::error::ParseError>(
            (
                tokens.at(tokens.index + 1),
                VarDefinition { name: Identifier { token: tokens.index }, initializer: None },
            ),
        ),
{
    reveal(spec_var_definition);
    reveal(spec_var_initializer);
}

/// `name`, or `name = value`.
pub fn var_definition<'s>(tokens: TokenList<'s>) -> (r: ParseResult<'s, VarDefinition>)
    requires
        tokens.wf(),
    ensures
        r == spec_var_definition(tokens),
        consumes(tokens, r),
    decreases tokens.end - tokens.index, 1int,
{
    proof {
        reveal(spec_var_definition);
        reveal(spec_var_initializer);
    }
    let (t1, name) = identifier(tokens)?;
    let (t2, initializer) = maybe(var_initializer(t1), t1)?;
    Ok((t2, VarDefinition { name, initializer }))
}

#[verifier::opaque]
pub open spec fn spec_var_initializer<'s>(tokens: TokenList<'s>) -> ParseResult<'s, VarInitializer>
    decreases tokens.end - tokens.index, 1int,
{
    match tokens.spec_terminal(TerminalToken::Assign) {
        Err(e) => Err(e),
        Ok((t1, assign)) => spec_definite(
            spec_map_val(
                spec_expression(t1, Precedence::Comma),
                |value: Box<Expression>| VarInitializer { assign, value },
            ),
        ),
    }
}

/// `= value`.
pub fn var_initializer<'s>(tokens: TokenList<'s>) -> (r: ParseResult<'s, VarInitializer>)
    requires
        tokens.wf(),
    ensures
        r == spec_var_initializer(tokens),
        consumes(tokens, r),
    decreases tokens.end - tokens.index, 1int,
{
    proof {
        reveal(spec_var_initializer);
        reveal(spec_expression);
    }
    let (t1, assign) = tokens.terminal(TerminalToken::Assign)?;
    definite(
        match expression(t1, Precedence::Comma) {
            Ok((t2, value)) => Ok((t2, VarInitializer { assign, value })),
            Err(e) => Err(e),
        },
    )
}

} // verus!
