//! Values of array literals.
use crate::ast::{
    ArrayValue, Expression, List, Precedence, PreprocessorElse, PreprocessorIfExpression,
    Preprocessable,
};
use crate::parser::expression::{expression, spec_expression};
use crate::parser::preprocessed::{
    StopAt, preprocessor_if_head, spec_preprocessor_if_head, spec_stops_at, stops_at,
};
use crate::parser::result::{
    ParseResult, consumes, definite, is_soft_err, maybe, moves_on, spec_definite, spec_map_val,
    spec_maybe, spec_or_try, spec_unreachable,
};
use crate::parser::token_list::TokenList;
use crate::token::TerminalToken;
use vstd::prelude::*;

verus! {

#[verifier::opaque]
pub open spec fn spec_possibly_preprocessed_array_value<'s>(tokens: TokenList<'s>) -> ParseResult<'s, Preprocessable<ArrayValue>>
    decreases tokens.end - tokens.index, 10int,
{
    spec_or_try(spec_preprocessed_array_value(tokens), spec_array_value(tokens))
}

/// A value, or a preprocessor conditional of values.
pub fn possibly_preprocessed_array_value<'s>(tokens: TokenList<'s>) -> (r: ParseResult<'s, Preprocessable<ArrayValue>>)
    requires
        tokens.wf(),
    ensures
        r == spec_possibly_preprocessed_array_value(tokens),
        consumes(tokens, r),
    decreases tokens.end - tokens.index, 10int,
{
    proof {
        reveal(spec_possibly_preprocessed_array_value);
        reveal(spec_preprocessed_array_value);
        reveal(spec_array_value);
    }
    let r = preprocessed_array_value(tokens);
    if is_soft_err(&r) {
        array_value(tokens)
    } else {
        r
    }
}

#[verifier::opaque]
pub open spec fn spec_array_value<'s>(tokens: TokenList<'s>) -> ParseResult<'s, Preprocessable<ArrayValue>>
    decreases tokens.end - tokens.index, 9int,
{
    match spec_expression(tokens, Precedence::Comma) {
        Err(e) => Err(e),
        Ok((t1, value)) => match spec_maybe(t1.spec_terminal(TerminalToken::Comma), t1) {
            Err(e) => Err(e),
            Ok((t2, separator)) => Ok((t2, Preprocessable::UNCONDITIONAL(ArrayValue { value, separator }))),
        },
    }
}

/// `value,`
pub fn array_value<'s>(tokens: TokenList<'s>) -> (r: ParseResult<'s, Preprocessable<ArrayValue>>)
    requires
        tokens.wf(),
    ensures
        r == spec_array_value(tokens),
        consumes(tokens, r),
    decreases tokens.end - tokens.index, 9int,
{
    proof {
        reveal(spec_array_value);
        reveal(spec_expression);
    }
    let (t1, value) = expression(tokens, Precedence::Comma)?;
    let (t2, separator) = maybe(t1.terminal(TerminalToken::Comma), t1)?;
    Ok((t2, Preprocessable::UNCONDITIONAL(ArrayValue { value, separator })))
}

#[verifier::opaque]
pub open spec fn spec_array_values_until<'s>(tokens: TokenList<'s>, stop: StopAt) -> ParseResult<'s, List<Preprocessable<ArrayValue>>>
    decreases tokens.end - tokens.index, 11int,
{
    if spec_stops_at(tokens, stop) {
        Ok((tokens, List::Nil))
    } else {
        match spec_possibly_preprocessed_array_value(tokens) {
            Err(e) => Err(e),
            Ok((t1, v)) => if tokens.advances_to(t1) {
                spec_map_val(
                    spec_array_values_until(t1, stop),
                    |l: List<Preprocessable<ArrayValue>>| List::Cons(Box::new(v), Box::new(l)),
                )
            } else {
                spec_unreachable(tokens)
            },
        }
    }
}

/// Values up to where `stop` says the list ends.
pub fn array_values_until<'s>(tokens: TokenList<'s>, stop: StopAt) -> (r: ParseResult<'s, List<Preprocessable<ArrayValue>>>)
    requires
        tokens.wf(),
    ensures
        r == spec_array_values_until(tokens, stop),
        moves_on(tokens, r),
    decreases tokens.end - tokens.index, 11int,
{
    proof {
        reveal(spec_array_values_until);
        reveal(spec_possibly_preprocessed_array_value);
    }
    if stops_at(tokens, stop) {
        return Ok((tokens, List::Nil));
    }
    let (t1, v) = possibly_preprocessed_array_value(tokens)?;
    match array_values_until(t1, stop) {
        Ok((t2, l)) => Ok((t2, List::Cons(Box::new(v), Box::new(l)))),
        Err(e) => Err(e),
    }
}

#[verifier::opaque]
pub open spec fn spec_preprocessed_array_value<'s>(tokens: TokenList<'s>) -> ParseResult<'s, Preprocessable<ArrayValue>>
    decreases tokens.end - tokens.index, 2int,
{
    match spec_preprocessor_if_head(tokens) {
        Err(e) => Err(e),
        Ok((t1, (if_, condition))) => if tokens.advances_to(t1) {
            spec_definite(
                match spec_array_values_until(t1, StopAt::PreprocessorBranch) {
                    Err(e) => Err(e),
                    Ok((t2, content)) => if tokens.advances_to(t2) {
                        match spec_maybe(t2.spec_terminal(TerminalToken::PreprocessorElse), t2) {
                            Err(e) => Err(e),
                            Ok((t3, None)) => match t3.spec_terminal(TerminalToken::PreprocessorEndIf) {
                                Err(e) => Err(e),
                                Ok((t4, endif)) => Ok(
                                    (
                                        t4,
                                        Preprocessable::PREPROCESSED(
                                            Box::new(
                                                PreprocessorIfExpression {
                                                    if_,
                                                    condition,
                                                    content,
                                                    else_: None,
                                                    endif,
                                                },
                                            ),
                                        ),
                                    ),
                                ),
                            },
                            Ok((t3, Some(else_))) => match spec_array_values_until(
                                t3,
                                StopAt::PreprocessorBranch,
                            ) {
                                Err(e) => Err(e),
                                Ok((t4, else_content)) => match t4.spec_terminal(
                                    TerminalToken::PreprocessorEndIf,
                                ) {
                                    Err(e) => Err(e),
                                    Ok((t5, endif)) => Ok(
                                        (
                                            t5,
                                            Preprocessable::PREPROCESSED(
                                                Box::new(
                                                    PreprocessorIfExpression {
                                                        if_,
                                                        condition,
                                                        content,
                                                        else_: Some(
                                                            PreprocessorElse {
                                                                else_,
                                                                content: else_content,
                                                            },
                                                        ),
                                                        endif,
                                                    },
                                                ),
                                            ),
                                        ),
                                    ),
                                },
                            },
                        }
                    } else {
                        spec_unreachable(tokens)
                    },
                },
            )
        } else {
            spec_unreachable(tokens)
        },
    }
}

/// `#if condition values #else values #endif`
pub fn preprocessed_array_value<'s>(tokens: TokenList<'s>) -> (r: ParseResult<'s, Preprocessable<ArrayValue>>)
    requires
        tokens.wf(),
    ensures
        r == spec_preprocessed_array_value(tokens),
        consumes(tokens, r),
    decreases tokens.end - tokens.index, 2int,
{
    proof {
        reveal(spec_preprocessed_array_value);
        reveal(spec_preprocessor_if_head);
        reveal(spec_array_values_until);
    }
    let (t1, (if_, condition)) = preprocessor_if_head(tokens)?;
    definite(
        match array_values_until(t1, StopAt::PreprocessorBranch) {
            Err(e) => Err(e),
            Ok((t2, content)) => match maybe(t2.terminal(TerminalToken::PreprocessorElse), t2) {
                Err(e) => Err(e),
                Ok((t3, None)) => match t3.terminal(TerminalToken::PreprocessorEndIf) {
                    Err(e) => Err(e),
                    Ok((t4, endif)) => Ok(
                        (
                            t4,
                            Preprocessable::PREPROCESSED(
                                Box::new(
                                    PreprocessorIfExpression { if_, condition, content, else_: None, endif },
                                ),
                            ),
                        ),
                    ),
                },
                Ok((t3, Some(else_))) => match array_values_until(t3, StopAt::PreprocessorBranch) {
                    Err(e) => Err(e),
                    Ok((t4, else_content)) => match t4.terminal(TerminalToken::PreprocessorEndIf) {
                        Err(e) => Err(e),
                        Ok((t5, endif)) => Ok(
                            (
                                t5,
                                Preprocessable::PREPROCESSED(
                                    Box::new(
                                        PreprocessorIfExpression {
                                            if_,
                                            condition,
                                            content,
                                            else_: Some(PreprocessorElse { else_, content: else_content }),
                                            endif,
                                        },
                                    ),
                                ),
                            ),
                        ),
                    },
                },
            },
        },
    )
}

} // verus!
