//! The result of a parse step, and the ways to combine such results.
use crate::error::{ContextType, ParseError, ParseErrorType};
use crate::parser::token_list::TokenList;
use vstd::prelude::*;

verus! {

/// A parsed value with the tokens after it, or an error.
pub type ParseResult<'s, T> = Result<(TokenList<'s>, T), ParseError>;

/// A non-fatal error: the input is not this construct, and another one may be tried.
pub open spec fn is_soft<'s, T>(r: ParseResult<'s, T>) -> bool {
    match r {
        Err(e) => !e.is_fatal,
        Ok(_) => false,
    }
}

pub fn is_soft_err<'s, T>(r: &ParseResult<'s, T>) -> (b: bool)
    ensures
        b == is_soft(*r),
{
    match r {
        Err(e) => !e.is_fatal,
        Ok(_) => false,
    }
}

/// `r`, or `other` when `r` is a non-fatal error.
pub open spec fn spec_or_try<'s, T>(r: ParseResult<'s, T>, other: ParseResult<'s, T>) -> ParseResult<'s, T> {
    if is_soft(r) {
        other
    } else {
        r
    }
}

/// The value of `r` mapped by `f`.
pub open spec fn spec_map_val<'s, A, B>(r: ParseResult<'s, A>, f: spec_fn(A) -> B) -> ParseResult<'s, B> {
    match r {
        Ok((t, v)) => Ok((t, f(v))),
        Err(e) => Err(e),
    }
}

pub open spec fn spec_maybe<'s, T>(r: ParseResult<'s, T>, tokens: TokenList<'s>) -> ParseResult<'s, Option<T>> {
    match r {
        Ok((t, v)) => Ok((t, Some(v))),
        Err(e) => if e.is_fatal {
            Err(e)
        } else {
            Ok((tokens, None))
        },
    }
}

/// Turns a non-fatal error into the absence of a value at `tokens`.
pub fn maybe<'s, T>(r: ParseResult<'s, T>, tokens: TokenList<'s>) -> (o: ParseResult<'s, Option<T>>)
    ensures
        o == spec_maybe(r, tokens),
{
    match r {
        Ok((t, v)) => Ok((t, Some(v))),
        Err(e) => if e.is_fatal {
            Err(e)
        } else {
            Ok((tokens, None))
        },
    }
}

pub open spec fn spec_definite<'s, T>(r: ParseResult<'s, T>) -> ParseResult<'s, T> {
    match r {
        Ok(v) => Ok(v),
        Err(e) => Err(ParseError { is_fatal: true, ..e }),
    }
}

/// Makes an error fatal.
pub fn definite<'s, T>(r: ParseResult<'s, T>) -> (o: ParseResult<'s, T>)
    ensures
        o == spec_definite(r),
{
    match r {
        Ok(v) => Ok(v),
        Err(e) => Err(ParseError { is_fatal: true, ..e }),
    }
}

pub open spec fn spec_not_definite<'s, T>(r: ParseResult<'s, T>) -> ParseResult<'s, T> {
    match r {
        Ok(v) => Ok(v),
        Err(e) => Err(ParseError { is_fatal: false, ..e }),
    }
}

/// Makes an error non-fatal.
pub fn not_definite<'s, T>(r: ParseResult<'s, T>) -> (o: ParseResult<'s, T>)
    ensures
        o == spec_not_definite(r),
{
    match r {
        Ok(v) => Ok(v),
        Err(e) => Err(ParseError { is_fatal: false, ..e }),
    }
}

pub open spec fn spec_with_context<'s, T>(
    r: ParseResult<'s, T>,
    ty: ContextType,
    tokens: TokenList<'s>,
) -> ParseResult<'s, T> {
    match r {
        Ok(v) => Ok(v),
        Err(e) => Err(e.spec_with_context(ty, tokens.index)),
    }
}

/// Gives an error the context `ty`, starting at `tokens`, unless it has one.
pub fn with_context<'s, T>(r: ParseResult<'s, T>, ty: ContextType, tokens: TokenList<'s>) -> (o:
    ParseResult<'s, T>)
    ensures
        o == spec_with_context(r, ty, tokens),
{
    match r {
        Ok(v) => Ok(v),
        Err(e) => Err(e.with_context(ty, tokens.index)),
    }
}

pub open spec fn spec_replace_context<'s, T>(
    r: ParseResult<'s, T>,
    from: ContextType,
    to: ContextType,
    tokens: TokenList<'s>,
) -> ParseResult<'s, T> {
    match r {
        Ok(v) => Ok(v),
        Err(e) => Err(e.spec_replace_context(from, to, tokens.index)),
    }
}

/// Turns an error context `from` that starts at `tokens` into `to`.
pub fn replace_context<'s, T>(
    r: ParseResult<'s, T>,
    from: ContextType,
    to: ContextType,
    tokens: TokenList<'s>,
) -> (o: ParseResult<'s, T>)
    ensures
        o == spec_replace_context(r, from, to, tokens),
{
    match r {
        Ok(v) => Ok(v),
        Err(e) => Err(e.replace_context(from, to, tokens.index)),
    }
}

pub open spec fn spec_or_error<'s, T>(r: ParseResult<'s, T>, err: ParseError) -> ParseResult<'s, T> {
    if is_soft(r) {
        Err(err)
    } else {
        r
    }
}

/// Replaces a non-fatal error with `err`.
pub fn or_error<'s, T>(r: ParseResult<'s, T>, err: ParseError) -> (o: ParseResult<'s, T>)
    ensures
        o == spec_or_error(r, err),
{
    if is_soft_err(&r) {
        Err(err)
    } else {
        r
    }
}

pub open spec fn spec_not_line_ending<'s, T>(r: ParseResult<'s, T>) -> ParseResult<'s, T> {
    match r {
        Ok((t, v)) => if t.spec_is_newline() {
            Err(t.spec_error(ParseErrorType::IllegalLineBreak))
        } else {
            Ok((t, v))
        },
        Err(e) => Err(e),
    }
}

/// Fails when a line break follows the parsed value.
pub fn not_line_ending<'s, T>(r: ParseResult<'s, T>) -> (o: ParseResult<'s, T>)
    requires
        r matches Ok((t, _)) ==> t.wf(),
    ensures
        o == spec_not_line_ending(r),
{
    match r {
        Ok((t, v)) => if t.is_newline() {
            Err(t.error(ParseErrorType::IllegalLineBreak))
        } else {
            Ok((t, v))
        },
        Err(e) => Err(e),
    }
}

} // verus!

verus! {

/// The value of a parse step that is never taken: each step only moves forward through the
/// tokens, so a step that would move back is not made.
pub open spec fn spec_unreachable<'s, T>(tokens: TokenList<'s>) -> ParseResult<'s, T> {
    Err(tokens.spec_error(ParseErrorType::ExpectedEndOfGroup))
}

} // verus!

verus! {

/// A successful result reads the same tokens, from `tokens` on.
pub open spec fn moves_on<'s, T>(tokens: TokenList<'s>, r: ParseResult<'s, T>) -> bool {
    r matches Ok((t, _)) ==> tokens.follows(t)
}

/// A successful result reads the same tokens, and has read at least one of them.
pub open spec fn consumes<'s, T>(tokens: TokenList<'s>, r: ParseResult<'s, T>) -> bool {
    r matches Ok((t, _)) ==> tokens.advances_to(t)
}

} // verus!
