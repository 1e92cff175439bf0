//! Enum entries.
use crate::ast::{EnumEntry, List};
use crate::parser::identifier::{identifier, spec_identifier};
use crate::parser::result::{
    ParseResult, consumes, maybe, moves_on, spec_map_val, spec_maybe, spec_unreachable,
};
use crate::parser::token_list::TokenList;
use crate::parser::variable::{spec_var_initializer, var_initializer};
use crate::token::TerminalToken;
use vstd::prelude::*;

verus! {

#[verifier::opaque]
pub open spec fn spec_enum_entry<'s>(tokens: TokenList<'s>) -> ParseResult<'s, EnumEntry>
    decreases tokens.end - tokens.index, 1int,
{
    match spec_identifier(tokens) {
        Err(e) => Err(e),
        Ok((t1, name)) => match spec_maybe(spec_var_initializer(t1), t1) {
            Err(e) => Err(e),
            Ok((t2, initializer)) => match spec_maybe(t2.spec_terminal(TerminalToken::Comma), t2) {
                Err(e) => Err(e),
                Ok((t3, comma)) => Ok((t3, EnumEntry { name, initializer, comma })),
            },
        },
    }
}

/// An enum entry is a name, the initializer after it if one follows, and the comma after that
/// if one follows.
pub proof fn lemma_enum_entry<'s>(tokens: TokenList<'s>)
    requires
        tokens.wf(),
        tokens.index < tokens.end,
        tokens.item(tokens.index as int).token.ty is Identifier,
    ensures
        spec_var_initializer(tokens.at(tokens.index + 1)) matches Ok((t, initializer)) ==> {
            &&& t.next_is(TerminalToken::Comma) ==> spec_enum_entry(tokens) == Ok::<
                (TokenList<'s>, EnumEntry),
                crate::error::ParseError,
            >(
                (
                    t.at(t.index + 1),
                    EnumEntry {
                        name: crate::ast::Identifier { token: tokens.index },
                        initializer: Some(initializer),
                        comma: Some(t.index),
                    },
                ),
            )
            &&& !t.next_is(TerminalToken::Comma) ==> spec_enum_entry(tokens) == Ok::<
                (TokenList<'s>, EnumEntry),
                crate::error::ParseError,
            >(
                (
                    t,
                    EnumEntry {
                        name: crate::ast::Identifier { token: tokens.index },
                        initializer: Some(initializer),
                        comma: None,
                    },
                ),
            )
        },
        crate::parser::result::is_soft(spec_var_initializer(tokens.at(tokens.index + 1))) ==> {
            let t = tokens.at(tokens.index + 1);
            &&& t.next_is(TerminalToken::Comma) ==> spec_enum_entry(tokens) == Ok::<
                (TokenList<'s>, EnumEntry),
                crate::error::ParseError,
            >(
                (
                    t.at(t.index + 1),
                    EnumEntry {
                        name: crate::ast::Identifier { token: tokens.index },
                        initializer: None,
                        comma: Some(t.index),
                    },
                ),
            )
            &&& !t.next_is(TerminalToken::Comma) ==> spec_enum_entry(tokens) == Ok::<
                (TokenList<'s>, EnumEntry),
                crate::error::ParseError,
            >(
                (
                    t,
                    EnumEntry {
                        name: crate::ast::Identifier { token: tokens.index },
                        initializer: None,
                        comma: None,
                    },
                ),
            )
        },
{
    reveal(spec_enum_entry);
    reveal(spec_var_initializer);
}

/// `name = value,`
pub fn enum_entry<'s>(tokens: TokenList<'s>) -> (r: ParseResult<'s, EnumEntry>)
    requires
        tokens.wf(),
    ensures
        r == spec_enum_entry(tokens),
        consumes(tokens, r),
    decreases tokens.end - tokens.index, 1int,
{
    proof {
        reveal(spec_enum_entry);
        reveal(spec_var_initializer);
    }
    let (t1, name) = identifier(tokens)?;
    let (t2, initializer) = maybe(var_initializer(t1), t1)?;
    let (t3, comma) = maybe(t2.terminal(TerminalToken::Comma), t2)?;
    Ok((t3, EnumEntry { name, initializer, comma }))
}

#[verifier::opaque]
pub open spec fn spec_enum_entries<'s>(tokens: TokenList<'s>) -> ParseResult<'s, List<EnumEntry>>
    decreases tokens.end - tokens.index, 2int,
{
    match spec_maybe(spec_enum_entry(tokens), tokens) {
        Err(e) => Err(e),
        Ok((t1, None)) => Ok((t1, List::Nil)),
        Ok((t1, Some(x))) => if tokens.advances_to(t1) {
            spec_map_val(spec_enum_entries(t1), |l: List<EnumEntry>| List::Cons(Box::new(x), Box::new(l)))
        } else {
            spec_unreachable(tokens)
        },
    }
}

/// A list of each enum entry reads every one there is: where it ends, no enum entry starts.
pub proof fn lemma_enum_entries_read_all<'s>(tokens: TokenList<'s>)
    ensures
        spec_enum_entries(tokens) matches Ok((t, _)) ==> crate::parser::result::is_soft(spec_enum_entry(t)),
    decreases tokens.end - tokens.index,
{
    reveal(spec_enum_entries);
    reveal(spec_enum_entry);
    match crate::parser::result::spec_maybe(spec_enum_entry(tokens), tokens) {
        Ok((t1, Some(_))) => {
            if tokens.advances_to(t1) {
                lemma_enum_entries_read_all(t1);
            }
        },
        _ => {},
    }
}

/// As many entries as there are.
pub fn enum_entries<'s>(tokens: TokenList<'s>) -> (r: ParseResult<'s, List<EnumEntry>>)
    requires
        tokens.wf(),
    ensures
        r == spec_enum_entries(tokens),
        moves_on(tokens, r),
    decreases tokens.end - tokens.index, 2int,
{
    proof {
        reveal(spec_enum_entries);
        reveal(spec_enum_entry);
    }
    let (t1, x) = maybe(enum_entry(tokens), tokens)?;
    match x {
        None => Ok((t1, List::Nil)),
        Some(x) => match enum_entries(t1) {
            Ok((t2, l)) => Ok((t2, List::Cons(Box::new(x), Box::new(l)))),
            Err(e) => Err(e),
        },
    }
}

} // verus!
