//! Function parameters, definitions and call arguments.
use crate::ast::{CallArgument, FunctionDefinition, FunctionParam, Identifier, List, Precedence, StatementType, Type};
use crate::error::ContextType;
use crate::parser::statement::{spec_statement_type, statement_type};
use crate::parser::expression::{expression, spec_expression};
use crate::parser::identifier::{identifier, spec_identifier};
use crate::parser::result::{
    ParseResult, consumes, is_soft_err, maybe, moves_on, not_definite, spec_map_val, spec_maybe,
    spec_not_definite, spec_or_try, spec_unreachable, spec_with_context, with_context,
};
use crate::parser::token_list::TokenList;
use crate::parser::type_::{spec_type_, type_};
use crate::parser::variable::{spec_var_initializer, var_initializer};
use crate::token::TerminalToken;
use vstd::prelude::*;

verus! {

#[verifier::opaque]
pub open spec fn spec_call_argument<'s>(tokens: TokenList<'s>) -> ParseResult<'s, CallArgument>
    decreases tokens.end - tokens.index, 9int,
{
    match spec_expression(tokens, Precedence::Comma) {
        Err(e) => Err(e),
        Ok((t1, value)) => match spec_maybe(t1.spec_terminal(TerminalToken::Comma), t1) {
            Err(e) => Err(e),
            Ok((t2, comma)) => Ok((t2, CallArgument { value, comma })),
        },
    }
}

/// A call argument is a value read above comma precedence, so that commas separate the
/// arguments, with the comma after it if one follows.
pub proof fn lemma_call_argument<'s>(tokens: TokenList<'s>)
    ensures
        spec_expression(tokens, Precedence::Comma) matches Ok((t, value)) ==> {
            &&& t.next_is(TerminalToken::Comma) ==> spec_call_argument(tokens) == Ok::<
                (TokenList<'s>, CallArgument),
                crate::error::ParseError,
            >((t.at(t.index + 1), CallArgument { value, comma: Some(t.index) }))
            &&& !t.next_is(TerminalToken::Comma) ==> spec_call_argument(tokens) == Ok::<
                (TokenList<'s>, CallArgument),
                crate::error::ParseError,
            >((t, CallArgument { value, comma: None }))
        },
        spec_expression(tokens, Precedence::Comma) is Err ==> spec_call_argument(tokens) is Err,
{
    reveal(spec_call_argument);
    reveal(spec_expression);
}

/// `value,`
pub fn call_argument<'s>(tokens: TokenList<'s>) -> (r: ParseResult<'s, CallArgument>)
    requires
        tokens.wf(),
    ensures
        r == spec_call_argument(tokens),
        consumes(tokens, r),
    decreases tokens.end - tokens.index, 9int,
{
    proof {
        reveal(spec_call_argument);
        reveal(spec_expression);
    }
    let (t1, value) = expression(tokens, Precedence::Comma)?;
    let (t2, comma) = maybe(t1.terminal(TerminalToken::Comma), t1)?;
    Ok((t2, CallArgument { value, comma }))
}

#[verifier::opaque]
pub open spec fn spec_call_arguments<'s>(tokens: TokenList<'s>) -> ParseResult<'s, List<CallArgument>>
    decreases tokens.end - tokens.index, 10int,
{
    match spec_maybe(spec_call_argument(tokens), tokens) {
        Err(e) => Err(e),
        Ok((t1, None)) => Ok((t1, List::Nil)),
        Ok((t1, Some(a))) => if tokens.advances_to(t1) {
            spec_map_val(
                spec_call_arguments(t1),
                |l: List<CallArgument>| List::Cons(Box::new(a), Box::new(l)),
            )
        } else {
            spec_unreachable(tokens)
        },
    }
}

/// A list of each call argument reads every one there is: where it ends, no call argument starts.
pub proof fn lemma_call_arguments_read_all<'s>(tokens: TokenList<'s>)
    ensures
        spec_call_arguments(tokens) matches Ok((t, _)) ==> crate::parser::result::is_soft(spec_call_argument(t)),
    decreases tokens.end - tokens.index,
{
    reveal(spec_call_arguments);
    reveal(spec_call_argument);
    match crate::parser::result::spec_maybe(spec_call_argument(tokens), tokens) {
        Ok((t1, Some(_))) => {
            if tokens.advances_to(t1) {
                lemma_call_arguments_read_all(t1);
            }
        },
        _ => {},
    }
}

/// As many call arguments as there are.
pub fn call_arguments<'s>(tokens: TokenList<'s>) -> (r: ParseResult<'s, List<CallArgument>>)
    requires
        tokens.wf(),
    ensures
        r == spec_call_arguments(tokens),
        moves_on(tokens, r),
    decreases tokens.end - tokens.index, 10int,
{
    proof {
        reveal(spec_call_arguments);
        reveal(spec_call_argument);
    }
    let (t1, a) = maybe(call_argument(tokens), tokens)?;
    match a {
        None => Ok((t1, List::Nil)),
        Some(a) => match call_arguments(t1) {
            Ok((t2, l)) => Ok((t2, List::Cons(Box::new(a), Box::new(l)))),
            Err(e) => Err(e),
        },
    }
}

#[verifier::opaque]
pub open spec fn spec_typed_param_head<'s>(tokens: TokenList<'s>) -> ParseResult<'s, (Option<Type>, Identifier)>
    decreases tokens.end - tokens.index, 6int,
{
    spec_not_definite(
        match spec_type_(tokens) {
            Err(e) => Err(e),
            Ok((t1, ty)) => spec_map_val(spec_identifier(t1), |name: Identifier| (Some(ty), name)),
        },
    )
}

/// `T name`
fn typed_param_head<'s>(tokens: TokenList<'s>) -> (r: ParseResult<'s, (Option<Type>, Identifier)>)
    requires
        tokens.wf(),
    ensures
        r == spec_typed_param_head(tokens),
        consumes(tokens, r),
    decreases tokens.end - tokens.index, 6int,
{
    proof {
        reveal(spec_typed_param_head);
        reveal(spec_type_);
    }
    not_definite(
        match type_(tokens) {
            Err(e) => Err(e),
            Ok((t1, ty)) => match identifier(t1) {
                Ok((t2, name)) => Ok((t2, (Some(ty), name))),
                Err(e) => Err(e),
            },
        },
    )
}

#[verifier::opaque]
pub open spec fn spec_function_param<'s>(tokens: TokenList<'s>) -> ParseResult<'s, FunctionParam>
    decreases tokens.end - tokens.index, 7int,
{
    match spec_or_try(
        spec_typed_param_head(tokens),
        spec_map_val(spec_identifier(tokens), |name: Identifier| (None::<Type>, name)),
    ) {
        Err(e) => Err(e),
        Ok((t1, (type_, name))) => if tokens.advances_to(t1) {
            match spec_maybe(spec_var_initializer(t1), t1) {
                Err(e) => Err(e),
                Ok((t2, initializer)) => match spec_maybe(t2.spec_terminal(TerminalToken::Comma), t2) {
                    Err(e) => Err(e),
                    Ok((t3, comma)) => Ok((t3, FunctionParam { type_, name, initializer, comma })),
                },
            }
        } else {
            spec_unreachable(tokens)
        },
    }
}

/// `T name = value,`, where the type and the default value may be left out.
pub fn function_param<'s>(tokens: TokenList<'s>) -> (r: ParseResult<'s, FunctionParam>)
    requires
        tokens.wf(),
    ensures
        r == spec_function_param(tokens),
        consumes(tokens, r),
    decreases tokens.end - tokens.index, 7int,
{
    proof {
        reveal(spec_function_param);
        reveal(spec_typed_param_head);
        reveal(spec_var_initializer);
    }
    let r = typed_param_head(tokens);
    let r = if is_soft_err(&r) {
        match identifier(tokens) {
            Ok((t, name)) => Ok((t, (None, name))),
            Err(e) => Err(e),
        }
    } else {
        r
    };
    let (t1, (type_, name)) = r?;
    let (t2, initializer) = maybe(var_initializer(t1), t1)?;
    let (t3, comma) = maybe(t2.terminal(TerminalToken::Comma), t2)?;
    Ok((t3, FunctionParam { type_, name, initializer, comma }))
}

#[verifier::opaque]
pub open spec fn spec_function_params<'s>(tokens: TokenList<'s>) -> ParseResult<'s, List<FunctionParam>>
    decreases tokens.end - tokens.index, 8int,
{
    match spec_maybe(spec_function_param(tokens), tokens) {
        Err(e) => Err(e),
        Ok((t1, None)) => Ok((t1, List::Nil)),
        Ok((t1, Some(p))) => if tokens.advances_to(t1) {
            spec_map_val(
                spec_function_params(t1),
                |l: List<FunctionParam>| List::Cons(Box::new(p), Box::new(l)),
            )
        } else {
            spec_unreachable(tokens)
        },
    }
}

/// A list of each function parameter reads every one there is: where it ends, no function parameter starts.
pub proof fn lemma_function_params_read_all<'s>(tokens: TokenList<'s>)
    ensures
        spec_function_params(tokens) matches Ok((t, _)) ==> crate::parser::result::is_soft(spec_function_param(t)),
    decreases tokens.end - tokens.index,
{
    reveal(spec_function_params);
    reveal(spec_function_param);
    match crate::parser::result::spec_maybe(spec_function_param(tokens), tokens) {
        Ok((t1, Some(_))) => {
            if tokens.advances_to(t1) {
                lemma_function_params_read_all(t1);
            }
        },
        _ => {},
    }
}

/// As many parameters as there are.
pub fn function_params<'s>(tokens: TokenList<'s>) -> (r: ParseResult<'s, List<FunctionParam>>)
    requires
        tokens.wf(),
    ensures
        r == spec_function_params(tokens),
        moves_on(tokens, r),
    decreases tokens.end - tokens.index, 8int,
{
    proof {
        reveal(spec_function_params);
        reveal(spec_function_param);
    }
    let (t1, p) = maybe(function_param(tokens), tokens)?;
    match p {
        None => Ok((t1, List::Nil)),
        Some(p) => match function_params(t1) {
            Ok((t2, l)) => Ok((t2, List::Cons(Box::new(p), Box::new(l)))),
            Err(e) => Err(e),
        },
    }
}

} // verus!

verus! {

#[verifier::opaque]
pub open spec fn spec_function_definition<'s>(tokens: TokenList<'s>) -> ParseResult<'s, FunctionDefinition>
    decreases tokens.end - tokens.index, 1int,
{
    match tokens.spec_terminal(TerminalToken::OpenBracket) {
        Err(e) => Err(e),
        Ok((t1, open)) => match spec_with_context(
            match spec_function_params(t1) {
                Err(e) => Err(e),
                Ok((t2, params)) => match t2.spec_terminal(TerminalToken::CloseBracket) {
                    Err(e) => Err(e),
                    Ok((t3, close)) => Ok((t3, (params, close))),
                },
            },
            ContextType::FunctionParamList,
            tokens,
        ) {
            Err(e) => Err(e),
            Ok((t3, (params, close))) => if tokens.advances_to(t3) {
                spec_map_val(
                    spec_statement_type(t3),
                    |body: StatementType| FunctionDefinition { open, params, close, body: Box::new(body) },
                )
            } else {
                spec_unreachable(tokens)
            },
        },
    }
}

/// `(params) body`
pub fn function_definition<'s>(tokens: TokenList<'s>) -> (r: ParseResult<'s, FunctionDefinition>)
    requires
        tokens.wf(),
    ensures
        r == spec_function_definition(tokens),
        consumes(tokens, r),
    decreases tokens.end - tokens.index, 1int,
{
    proof {
        reveal(spec_function_definition);
        reveal(spec_function_params);
        reveal(spec_statement_type);
    }
    let (t1, open) = tokens.terminal(TerminalToken::OpenBracket)?;
    let (t3, (params, close)) = with_context(
        match function_params(t1) {
            Err(e) => Err(e),
            Ok((t2, params)) => match t2.terminal(TerminalToken::CloseBracket) {
                Err(e) => Err(e),
                Ok((t3, close)) => Ok((t3, (params, close))),
            },
        },
        ContextType::FunctionParamList,
        tokens,
    )?;
    match statement_type(t3) {
        Ok((t4, body)) => Ok((t4, FunctionDefinition { open, params, close, body: Box::new(body) })),
        Err(e) => Err(e),
    }
}

} // verus!
