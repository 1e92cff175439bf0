//! Parts of control statements: `if` bodies, `switch` cases, `for` and `foreach` heads.
use crate::ast::{
    Expression, ForDefinition, ForeachIndex, Identifier, IfStatementType, List, Precedence,
    Statement, StatementType, SwitchCase, SwitchCaseCondition, Type, VarDefinitionStatement,
};
use crate::error::ParseErrorType;
use crate::parser::expression::{expression, spec_expression};
use crate::parser::identifier::{identifier, spec_identifier};
use crate::parser::result::{
    ParseResult, consumes, definite, is_soft_err, maybe, moves_on, not_definite, or_error,
    spec_definite, spec_map_val, spec_maybe, spec_not_definite, spec_or_error, spec_or_try,
    spec_unreachable,
};
use crate::parser::statement::{
    spec_statement_type, spec_statements, spec_typed_var_definition_statement, statement_type,
    statements, typed_var_definition_statement,
};
use crate::parser::token_list::TokenList;
use crate::parser::type_::{spec_type_, type_};
use crate::token::TerminalToken;
use vstd::prelude::*;

verus! {

#[verifier::opaque]
pub open spec fn spec_if_statement_type<'s>(tokens: TokenList<'s>) -> ParseResult<'s, IfStatementType>
    decreases tokens.end - tokens.index, 12int,
{
    match spec_statement_type(tokens) {
        Err(e) => Err(e),
        Ok((t1, body)) => if tokens.follows(t1) {
            match spec_maybe(t1.spec_terminal(TerminalToken::Semicolon), t1) {
                Err(e) => Err(e),
                Ok((t2, semicolon)) => match t2.spec_terminal(TerminalToken::Else) {
                    Err(_) => Ok((t1, IfStatementType::NoElse { body: Box::new(body) })),
                    Ok((t3, else_)) => spec_definite(
                        spec_map_val(
                            spec_statement_type(t3),
                            |else_body: StatementType| IfStatementType::Else {
                                body: Box::new(body),
                                semicolon,
                                else_,
                                else_body: Box::new(else_body),
                            },
                        ),
                    ),
                },
            }
        } else {
            spec_unreachable(tokens)
        },
    }
}

/// The body of an `if`, and the `else` branch after it, if there is one. A `;` may end the
/// body before the `else`.
pub fn if_statement_type<'s>(tokens: TokenList<'s>) -> (r: ParseResult<'s, IfStatementType>)
    requires
        tokens.wf(),
    ensures
        r == spec_if_statement_type(tokens),
        moves_on(tokens, r),
    decreases tokens.end - tokens.index, 12int,
{
    proof {
        reveal(spec_if_statement_type);
        reveal(spec_statement_type);
    }
    let (t1, body) = statement_type(tokens)?;
    let (t2, semicolon) = maybe(t1.terminal(TerminalToken::Semicolon), t1)?;
    match t2.terminal(TerminalToken::Else) {
        Err(_) => Ok((t1, IfStatementType::NoElse { body: Box::new(body) })),
        Ok((t3, else_)) => definite(
            match statement_type(t3) {
                Ok((t4, else_body)) => Ok(
                    (
                        t4,
                        IfStatementType::Else {
                            body: Box::new(body),
                            semicolon,
                            else_,
                            else_body: Box::new(else_body),
                        },
                    ),
                ),
                Err(e) => Err(e),
            },
        ),
    }
}

#[verifier::opaque]
pub open spec fn spec_case_condition<'s>(tokens: TokenList<'s>) -> ParseResult<'s, SwitchCaseCondition>
    decreases tokens.end - tokens.index, 1int,
{
    match tokens.spec_terminal(TerminalToken::Case) {
        Err(e) => Err(e),
        Ok((t1, case)) => spec_definite(
            spec_map_val(
                spec_expression(t1, Precedence::Lowest),
                |value: Box<Expression>| SwitchCaseCondition::Case { case, value },
            ),
        ),
    }
}

/// `case value`
fn case_condition<'s>(tokens: TokenList<'s>) -> (r: ParseResult<'s, SwitchCaseCondition>)
    requires
        tokens.wf(),
    ensures
        r == spec_case_condition(tokens),
        consumes(tokens, r),
    decreases tokens.end - tokens.index, 1int,
{
    proof {
        reveal(spec_case_condition);
        reveal(spec_expression);
    }
    let (t1, case) = tokens.terminal(TerminalToken::Case)?;
    definite(
        match expression(t1, Precedence::Lowest) {
            Ok((t2, value)) => Ok((t2, SwitchCaseCondition::Case { case, value })),
            Err(e) => Err(e),
        },
    )
}

#[verifier::opaque]
pub open spec fn spec_switch_case<'s>(tokens: TokenList<'s>) -> ParseResult<'s, SwitchCase>
    decreases tokens.end - tokens.index, 2int,
{
    let r = spec_or_try(
        spec_case_condition(tokens),
        spec_map_val(
            tokens.spec_terminal(TerminalToken::Default),
            |default: usize| SwitchCaseCondition::Default { default },
        ),
    );
    match spec_or_error(r, tokens.spec_error(ParseErrorType::ExpectedSwitchCase)) {
        Err(e) => Err(e),
        Ok((t1, condition)) => if tokens.advances_to(t1) {
            spec_definite(
                match t1.spec_terminal(TerminalToken::Colon) {
                    Err(e) => Err(e),
                    Ok((t2, colon)) => spec_map_val(
                        spec_statements(t2),
                        |body: List<Statement>| SwitchCase { condition, colon, body },
                    ),
                },
            )
        } else {
            spec_unreachable(tokens)
        },
    }
}

/// `case value: statements` or `default: statements`.
pub fn switch_case<'s>(tokens: TokenList<'s>) -> (r: ParseResult<'s, SwitchCase>)
    requires
        tokens.wf(),
    ensures
        r == spec_switch_case(tokens),
        consumes(tokens, r),
    decreases tokens.end - tokens.index, 2int,
{
    proof {
        reveal(spec_switch_case);
        reveal(spec_case_condition);
        reveal(spec_statements);
    }
    let r = case_condition(tokens);
    let r = if is_soft_err(&r) {
        match tokens.terminal(TerminalToken::Default) {
            Ok((t, default)) => Ok((t, SwitchCaseCondition::Default { default })),
            Err(e) => Err(e),
        }
    } else {
        r
    };
    let (t1, condition) = or_error(r, tokens.error(ParseErrorType::ExpectedSwitchCase))?;
    definite(
        match t1.terminal(TerminalToken::Colon) {
            Err(e) => Err(e),
            Ok((t2, colon)) => match statements(t2) {
                Ok((t3, body)) => Ok((t3, SwitchCase { condition, colon, body })),
                Err(e) => Err(e),
            },
        },
    )
}

#[verifier::opaque]
pub open spec fn spec_switch_cases<'s>(tokens: TokenList<'s>) -> ParseResult<'s, List<SwitchCase>>
    decreases tokens.end - tokens.index, 3int,
{
    match spec_maybe(spec_switch_case(tokens), tokens) {
        Err(e) => Err(e),
        Ok((t1, None)) => Ok((t1, List::Nil)),
        Ok((t1, Some(c))) => if tokens.advances_to(t1) {
            spec_map_val(
                spec_switch_cases(t1),
                |l: List<SwitchCase>| List::Cons(Box::new(c), Box::new(l)),
            )
        } else {
            spec_unreachable(tokens)
        },
    }
}

/// A list of each switch case reads every one there is: where it ends, no switch case starts.
pub proof fn lemma_switch_cases_read_all<'s>(tokens: TokenList<'s>)
    ensures
        spec_switch_cases(tokens) matches Ok((t, _)) ==> crate::parser::result::is_soft(spec_switch_case(t)),
    decreases tokens.end - tokens.index,
{
    reveal(spec_switch_cases);
    reveal(spec_switch_case);
    match crate::parser::result::spec_maybe(spec_switch_case(tokens), tokens) {
        Ok((t1, Some(_))) => {
            if tokens.advances_to(t1) {
                lemma_switch_cases_read_all(t1);
            }
        },
        _ => {},
    }
}

/// As many cases as there are.
pub fn switch_cases<'s>(tokens: TokenList<'s>) -> (r: ParseResult<'s, List<SwitchCase>>)
    requires
        tokens.wf(),
    ensures
        r == spec_switch_cases(tokens),
        moves_on(tokens, r),
    decreases tokens.end - tokens.index, 3int,
{
    proof {
        reveal(spec_switch_cases);
        reveal(spec_switch_case);
    }
    let (t1, c) = maybe(switch_case(tokens), tokens)?;
    match c {
        None => Ok((t1, List::Nil)),
        Some(c) => match switch_cases(t1) {
            Ok((t2, l)) => Ok((t2, List::Cons(Box::new(c), Box::new(l)))),
            Err(e) => Err(e),
        },
    }
}

#[verifier::opaque]
pub open spec fn spec_for_var_definition<'s>(tokens: TokenList<'s>) -> ParseResult<'s, VarDefinitionStatement>
    decreases tokens.end - tokens.index, 6int,
{
    match spec_not_definite(spec_type_(tokens)) {
        Err(e) => Err(e),
        Ok((t1, ty)) => if tokens.advances_to(t1) {
            spec_typed_var_definition_statement(t1, ty)
        } else {
            spec_unreachable(tokens)
        },
    }
}

/// `T a = 1, b = 2`
fn for_var_definition<'s>(tokens: TokenList<'s>) -> (r: ParseResult<'s, VarDefinitionStatement>)
    requires
        tokens.wf(),
    ensures
        r == spec_for_var_definition(tokens),
        consumes(tokens, r),
    decreases tokens.end - tokens.index, 6int,
{
    proof {
        reveal(spec_for_var_definition);
        reveal(spec_type_);
        reveal(spec_typed_var_definition_statement);
    }
    let (t1, ty) = not_definite(type_(tokens))?;
    typed_var_definition_statement(t1, ty)
}

#[verifier::opaque]
pub open spec fn spec_for_definition<'s>(tokens: TokenList<'s>) -> ParseResult<'s, ForDefinition>
    decreases tokens.end - tokens.index, 9int,
{
    spec_or_try(
        spec_map_val(spec_for_var_definition(tokens), |d: VarDefinitionStatement| ForDefinition::Definition(d)),
        spec_map_val(
            spec_expression(tokens, Precedence::Lowest),
            |e: Box<Expression>| ForDefinition::Expression(e),
        ),
    )
}

/// The initializer of a `for` loop: a variable definition, or an expression.
pub fn for_definition<'s>(tokens: TokenList<'s>) -> (r: ParseResult<'s, ForDefinition>)
    requires
        tokens.wf(),
    ensures
        r == spec_for_definition(tokens),
        consumes(tokens, r),
    decreases tokens.end - tokens.index, 9int,
{
    proof {
        reveal(spec_for_definition);
        reveal(spec_for_var_definition);
        reveal(spec_expression);
    }
    let r = match for_var_definition(tokens) {
        Ok((t, d)) => Ok((t, ForDefinition::Definition(d))),
        Err(e) => Err(e),
    };
    if is_soft_err(&r) {
        match expression(tokens, Precedence::Lowest) {
            Ok((t, e)) => Ok((t, ForDefinition::Expression(e))),
            Err(e) => Err(e),
        }
    } else {
        r
    }
}

#[verifier::opaque]
pub open spec fn spec_typed_name<'s>(tokens: TokenList<'s>, after: TerminalToken) -> ParseResult<'s, (Option<Type>, Identifier, usize)>
    decreases tokens.end - tokens.index, 6int,
{
    spec_not_definite(
        match spec_type_(tokens) {
            Err(e) => Err(e),
            Ok((t1, ty)) => match spec_identifier(t1) {
                Err(e) => Err(e),
                Ok((t2, name)) => match t2.spec_terminal(after) {
                    Err(e) => Err(e),
                    Ok((t3, a)) => Ok((t3, (Some(ty), name, a))),
                },
            },
        },
    )
}

/// `T name` followed by the terminal `after`.
fn typed_name<'s>(tokens: TokenList<'s>, after: TerminalToken) -> (r: ParseResult<'s, (Option<Type>, Identifier, usize)>)
    requires
        tokens.wf(),
    ensures
        r == spec_typed_name(tokens, after),
        consumes(tokens, r),
    decreases tokens.end - tokens.index, 6int,
{
    proof {
        reveal(spec_typed_name);
        reveal(spec_type_);
    }
    not_definite(
        match type_(tokens) {
            Err(e) => Err(e),
            Ok((t1, ty)) => match identifier(t1) {
                Err(e) => Err(e),
                Ok((t2, name)) => match t2.terminal(after) {
                    Err(e) => Err(e),
                    Ok((t3, a)) => Ok((t3, (Some(ty), name, a))),
                },
            },
        },
    )
}

pub open spec fn spec_untyped_name<'s>(tokens: TokenList<'s>, after: TerminalToken) -> ParseResult<'s, (Option<Type>, Identifier, usize)> {
    match spec_identifier(tokens) {
        Err(e) => Err(e),
        Ok((t1, name)) => match t1.spec_terminal(after) {
            Err(e) => Err(e),
            Ok((t2, a)) => Ok((t2, (None, name, a))),
        },
    }
}

/// `name` followed by the terminal `after`.
fn untyped_name<'s>(tokens: TokenList<'s>, after: TerminalToken) -> (r: ParseResult<'s, (Option<Type>, Identifier, usize)>)
    requires
        tokens.wf(),
    ensures
        r == spec_untyped_name(tokens, after),
        consumes(tokens, r),
{
    let (t1, name) = identifier(tokens)?;
    let (t2, a) = t1.terminal(after)?;
    Ok((t2, (None, name, a)))
}

#[verifier::opaque]
pub open spec fn spec_maybe_typed_name<'s>(tokens: TokenList<'s>, after: TerminalToken) -> ParseResult<'s, (Option<Type>, Identifier, usize)>
    decreases tokens.end - tokens.index, 7int,
{
    spec_or_try(spec_typed_name(tokens, after), spec_untyped_name(tokens, after))
}

fn maybe_typed_name<'s>(tokens: TokenList<'s>, after: TerminalToken) -> (r: ParseResult<'s, (Option<Type>, Identifier, usize)>)
    requires
        tokens.wf(),
    ensures
        r == spec_maybe_typed_name(tokens, after),
        consumes(tokens, r),
    decreases tokens.end - tokens.index, 7int,
{
    proof {
        reveal(spec_maybe_typed_name);
        reveal(spec_typed_name);
    }
    let r = typed_name(tokens, after);
    if is_soft_err(&r) {
        untyped_name(tokens, after)
    } else {
        r
    }
}

#[verifier::opaque]
pub open spec fn spec_foreach_index<'s>(tokens: TokenList<'s>) -> ParseResult<'s, ForeachIndex>
    decreases tokens.end - tokens.index, 8int,
{
    spec_map_val(
        spec_maybe_typed_name(tokens, TerminalToken::Comma),
        |v: (Option<Type>, Identifier, usize)| ForeachIndex { type_: v.0, name: v.1, comma: v.2 },
    )
}

/// `T index,` in a `foreach` head; the type may be left out.
pub fn foreach_index<'s>(tokens: TokenList<'s>) -> (r: ParseResult<'s, ForeachIndex>)
    requires
        tokens.wf(),
    ensures
        r == spec_foreach_index(tokens),
        consumes(tokens, r),
    decreases tokens.end - tokens.index, 8int,
{
    proof {
        reveal(spec_foreach_index);
        reveal(spec_maybe_typed_name);
    }
    match maybe_typed_name(tokens, TerminalToken::Comma) {
        Ok((t, (type_, name, comma))) => Ok((t, ForeachIndex { type_, name, comma })),
        Err(e) => Err(e),
    }
}

#[verifier::opaque]
pub open spec fn spec_foreach_value<'s>(tokens: TokenList<'s>) -> ParseResult<'s, (Option<Type>, Identifier, usize)>
    decreases tokens.end - tokens.index, 8int,
{
    spec_maybe_typed_name(tokens, TerminalToken::In)
}

/// `T value in` in a `foreach` head; the type may be left out.
pub fn foreach_value<'s>(tokens: TokenList<'s>) -> (r: ParseResult<'s, (Option<Type>, Identifier, usize)>)
    requires
        tokens.wf(),
    ensures
        r == spec_foreach_value(tokens),
        consumes(tokens, r),
    decreases tokens.end - tokens.index, 8int,
{
    proof {
        reveal(spec_foreach_value);
        reveal(spec_maybe_typed_name);
    }
    maybe_typed_name(tokens, TerminalToken::In)
}

} // verus!
