//! Struct definitions.
use crate::ast::{
    List, PreprocessorElse, PreprocessorIfExpression, Preprocessable, StructDefinition,
    StructProperty,
};
use crate::error::ContextType;
use crate::parser::identifier::{identifier, spec_identifier};
use crate::parser::preprocessed::{
    preprocessed_if_contents_terminal, preprocessor_if_head, spec_preprocessed_if_contents_terminal,
    spec_preprocessor_if_head,
};
use crate::parser::result::{
    ParseResult, consumes, definite, is_soft_err, maybe, moves_on, spec_definite, spec_map_val,
    spec_maybe, spec_or_try, spec_unreachable, spec_with_context, with_context,
};
use crate::parser::token_list::TokenList;
use crate::parser::type_::{spec_type_, type_};
use crate::parser::variable::{spec_var_initializer, var_initializer};
use crate::token::TerminalToken;
use vstd::prelude::*;

verus! {

#[verifier::opaque]
pub open spec fn spec_struct_definition<'s>(tokens: TokenList<'s>) -> ParseResult<'s, StructDefinition>
    decreases tokens.end - tokens.index, 1int,
{
    match tokens.spec_terminal(TerminalToken::OpenBrace) {
        Err(e) => Err(e),
        Ok((t1, open)) => spec_with_context(
            match spec_struct_properties(t1) {
                Err(e) => Err(e),
                Ok((t2, properties)) => match t2.spec_terminal(TerminalToken::CloseBrace) {
                    Err(e) => Err(e),
                    Ok((t3, close)) => Ok((t3, StructDefinition { open, properties, close })),
                },
            },
            ContextType::Span,
            tokens,
        ),
    }
}

/// `{ properties }`
pub fn struct_definition<'s>(tokens: TokenList<'s>) -> (r: ParseResult<'s, StructDefinition>)
    requires
        tokens.wf(),
    ensures
        r == spec_struct_definition(tokens),
        consumes(tokens, r),
    decreases tokens.end - tokens.index, 1int,
{
    proof {
        reveal(spec_struct_definition);
        reveal(spec_struct_properties);
    }
    let (t1, open) = tokens.terminal(TerminalToken::OpenBrace)?;
    with_context(
        match struct_properties(t1) {
            Err(e) => Err(e),
            Ok((t2, properties)) => match t2.terminal(TerminalToken::CloseBrace) {
                Err(e) => Err(e),
                Ok((t3, close)) => Ok((t3, StructDefinition { open, properties, close })),
            },
        },
        ContextType::Span,
        tokens,
    )
}

#[verifier::opaque]
pub open spec fn spec_struct_properties<'s>(tokens: TokenList<'s>) -> ParseResult<'s, List<Preprocessable<StructProperty>>>
    decreases tokens.end - tokens.index, 8int,
{
    match spec_maybe(spec_possibly_preprocessed_struct_property(tokens), tokens) {
        Err(e) => Err(e),
        Ok((t1, None)) => Ok((t1, List::Nil)),
        Ok((t1, Some(p))) => if tokens.advances_to(t1) {
            spec_map_val(
                spec_struct_properties(t1),
                |l: List<Preprocessable<StructProperty>>| List::Cons(Box::new(p), Box::new(l)),
            )
        } else {
            spec_unreachable(tokens)
        },
    }
}

/// As many properties as there are.
fn struct_properties<'s>(tokens: TokenList<'s>) -> (r: ParseResult<'s, List<Preprocessable<StructProperty>>>)
    requires
        tokens.wf(),
    ensures
        r == spec_struct_properties(tokens),
        moves_on(tokens, r),
    decreases tokens.end - tokens.index, 8int,
{
    proof {
        reveal(spec_struct_properties);
        reveal(spec_possibly_preprocessed_struct_property);
    }
    let (t1, p) = maybe(possibly_preprocessed_struct_property(tokens), tokens)?;
    match p {
        None => Ok((t1, List::Nil)),
        Some(p) => match struct_properties(t1) {
            Ok((t2, l)) => Ok((t2, List::Cons(Box::new(p), Box::new(l)))),
            Err(e) => Err(e),
        },
    }
}

#[verifier::opaque]
pub open spec fn spec_struct_properties_until_branch<'s>(tokens: TokenList<'s>) -> ParseResult<'s, List<Preprocessable<StructProperty>>>
    decreases tokens.end - tokens.index, 8int,
{
    if spec_preprocessed_if_contents_terminal(tokens) {
        Ok((tokens, List::Nil))
    } else {
        match spec_possibly_preprocessed_struct_property(tokens) {
            Err(e) => Err(e),
            Ok((t1, p)) => if tokens.advances_to(t1) {
                spec_map_val(
                    spec_struct_properties_until_branch(t1),
                    |l: List<Preprocessable<StructProperty>>| List::Cons(Box::new(p), Box::new(l)),
                )
            } else {
                spec_unreachable(tokens)
            },
        }
    }
}

/// Properties up to the end of a preprocessor branch.
fn struct_properties_until_branch<'s>(tokens: TokenList<'s>) -> (r: ParseResult<'s, List<Preprocessable<StructProperty>>>)
    requires
        tokens.wf(),
    ensures
        r == spec_struct_properties_until_branch(tokens),
        moves_on(tokens, r),
    decreases tokens.end - tokens.index, 8int,
{
    proof {
        reveal(spec_struct_properties_until_branch);
        reveal(spec_possibly_preprocessed_struct_property);
    }
    if preprocessed_if_contents_terminal(tokens) {
        return Ok((tokens, List::Nil));
    }
    let (t1, p) = possibly_preprocessed_struct_property(tokens)?;
    match struct_properties_until_branch(t1) {
        Ok((t2, l)) => Ok((t2, List::Cons(Box::new(p), Box::new(l)))),
        Err(e) => Err(e),
    }
}

#[verifier::opaque]
pub open spec fn spec_possibly_preprocessed_struct_property<'s>(tokens: TokenList<'s>) -> ParseResult<'s, Preprocessable<StructProperty>>
    decreases tokens.end - tokens.index, 7int,
{
    spec_or_try(spec_preprocessed_struct_properties(tokens), spec_struct_property(tokens))
}

/// A property, or a preprocessor conditional of properties.
pub fn possibly_preprocessed_struct_property<'s>(tokens: TokenList<'s>) -> (r: ParseResult<'s, Preprocessable<StructProperty>>)
    requires
        tokens.wf(),
    ensures
        r == spec_possibly_preprocessed_struct_property(tokens),
        consumes(tokens, r),
    decreases tokens.end - tokens.index, 7int,
{
    proof {
        reveal(spec_possibly_preprocessed_struct_property);
        reveal(spec_preprocessed_struct_properties);
        reveal(spec_struct_property);
    }
    let r = preprocessed_struct_properties(tokens);
    if is_soft_err(&r) {
        struct_property(tokens)
    } else {
        r
    }
}

#[verifier::opaque]
pub open spec fn spec_struct_property<'s>(tokens: TokenList<'s>) -> ParseResult<'s, Preprocessable<StructProperty>>
    decreases tokens.end - tokens.index, 6int,
{
    match spec_type_(tokens) {
        Err(e) => Err(e),
        Ok((t1, type_)) => if tokens.follows(t1) { spec_definite(
            match spec_identifier(t1) {
                Err(e) => Err(e),
                Ok((t2, name)) => match spec_maybe(spec_var_initializer(t2), t2) {
                    Err(e) => Err(e),
                    Ok((t3, initializer)) => match spec_maybe(
                        t3.spec_terminal(TerminalToken::Comma),
                        t3,
                    ) {
                        Err(e) => Err(e),
                        Ok((t4, comma)) => Ok(
                            (
                                t4,
                                Preprocessable::UNCONDITIONAL(
                                    StructProperty { type_, name, initializer, comma },
                                ),
                            ),
                        ),
                    },
                },
            },
        ) } else { spec_unreachable(tokens) },
    }
}

/// `T name = value,`
pub fn struct_property<'s>(tokens: TokenList<'s>) -> (r: ParseResult<'s, Preprocessable<StructProperty>>)
    requires
        tokens.wf(),
    ensures
        r == spec_struct_property(tokens),
        consumes(tokens, r),
    decreases tokens.end - tokens.index, 6int,
{
    proof {
        reveal(spec_struct_property);
        reveal(spec_type_);
        reveal(spec_var_initializer);
    }
    let (t1, type_) = type_(tokens)?;
    definite(
        match identifier(t1) {
            Err(e) => Err(e),
            Ok((t2, name)) => match maybe(var_initializer(t2), t2) {
                Err(e) => Err(e),
                Ok((t3, initializer)) => match maybe(t3.terminal(TerminalToken::Comma), t3) {
                    Err(e) => Err(e),
                    Ok((t4, comma)) => Ok(
                        (
                            t4,
                            Preprocessable::UNCONDITIONAL(
                                StructProperty { type_, name, initializer, comma },
                            ),
                        ),
                    ),
                },
            },
        },
    )
}

#[verifier::opaque]
pub open spec fn spec_preprocessed_struct_properties<'s>(tokens: TokenList<'s>) -> ParseResult<'s, Preprocessable<StructProperty>>
    decreases tokens.end - tokens.index, 2int,
{
    match spec_preprocessor_if_head(tokens) {
        Err(e) => Err(e),
        Ok((t1, (if_, condition))) => if tokens.advances_to(t1) {
            spec_definite(
                match spec_struct_properties_until_branch(t1) {
                    Err(e) => Err(e),
                    Ok((t2, content)) => if tokens.advances_to(t2) {
                        match spec_maybe(t2.spec_terminal(TerminalToken::PreprocessorElse), t2) {
                            Err(e) => Err(e),
                            Ok((t3, None)) => match t3.spec_terminal(TerminalToken::PreprocessorEndIf) {
                                Err(e) => Err(e),
                                Ok((t4, endif)) => Ok(
                                    (
                                        t4,
                                        Preprocessable::PREPROCESSED(
                                            Box::new(
                                                PreprocessorIfExpression {
                                                    if_,
                                                    condition,
                                                    content,
                                                    else_: None,
                                                    endif,
                                                },
                                            ),
                                        ),
                                    ),
                                ),
                            },
                            Ok((t3, Some(else_))) => match spec_struct_properties_until_branch(t3) {
                                Err(e) => Err(e),
                                Ok((t4, else_content)) => match t4.spec_terminal(
                                    TerminalToken::PreprocessorEndIf,
                                ) {
                                    Err(e) => Err(e),
                                    Ok((t5, endif)) => Ok(
                                        (
                                            t5,
                                            Preprocessable::PREPROCESSED(
                                                Box::new(
                                                    PreprocessorIfExpression {
                                                        if_,
                                                        condition,
                                                        content,
                                                        else_: Some(
                                                            PreprocessorElse {
                                                                else_,
                                                                content: else_content,
                                                            },
                                                        ),
                                                        endif,
                                                    },
                                                ),
                                            ),
                                        ),
                                    ),
                                },
                            },
                        }
                    } else {
                        spec_unreachable(tokens)
                    },
                },
            )
        } else {
            spec_unreachable(tokens)
        },
    }
}

/// `#if condition properties #else properties #endif`
pub fn preprocessed_struct_properties<'s>(tokens: TokenList<'s>) -> (r: ParseResult<'s, Preprocessable<StructProperty>>)
    requires
        tokens.wf(),
    ensures
        r == spec_preprocessed_struct_properties(tokens),
        consumes(tokens, r),
    decreases tokens.end - tokens.index, 2int,
{
    proof {
        reveal(spec_preprocessed_struct_properties);
        reveal(spec_preprocessor_if_head);
        reveal(spec_struct_properties_until_branch);
    }
    let (t1, (if_, condition)) = preprocessor_if_head(tokens)?;
    definite(
        match struct_properties_until_branch(t1) {
            Err(e) => Err(e),
            Ok((t2, content)) => match maybe(t2.terminal(TerminalToken::PreprocessorElse), t2) {
                Err(e) => Err(e),
                Ok((t3, None)) => match t3.terminal(TerminalToken::PreprocessorEndIf) {
                    Err(e) => Err(e),
                    Ok((t4, endif)) => Ok(
                        (
                            t4,
                            Preprocessable::PREPROCESSED(
                                Box::new(
                                    PreprocessorIfExpression { if_, condition, content, else_: None, endif },
                                ),
                            ),
                        ),
                    ),
                },
                Ok((t3, Some(else_))) => match struct_properties_until_branch(t3) {
                    Err(e) => Err(e),
                    Ok((t4, else_content)) => match t4.terminal(TerminalToken::PreprocessorEndIf) {
                        Err(e) => Err(e),
                        Ok((t5, endif)) => Ok(
                            (
                                t5,
                                Preprocessable::PREPROCESSED(
                                    Box::new(
                                        PreprocessorIfExpression {
                                            if_,
                                            condition,
                                            content,
                                            else_: Some(PreprocessorElse { else_, content: else_content }),
                                            endif,
                                        },
                                    ),
                                ),
                            ),
                        ),
                    },
                },
            },
        },
    )
}

} // verus!
