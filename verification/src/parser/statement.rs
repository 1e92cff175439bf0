//! Statements.
use crate::ast::{
    BlockStatement, BreakStatement, ClassDefinition, ClassDefinitionStatement,
    ConstDefinitionStatement, ConstructorDefinitionStatement, ContinueStatement,
    DelayThreadStatement, DoWhileStatement, EmptyStatement, EnumDefinitionStatement,
    EnumEntry, Expression, ExpressionStatement, ForDefinition, ForStatement, ForeachIndex,
    ForeachStatement, FunctionDefinition, FunctionDefinitionStatement, GlobalDefinition,
    GlobalStatement, GlobalizeAllFunctionsStatement, Identifier, IfStatement, IfStatementType,
    List, Precedence, PreprocessedDocumentation, PreprocessorElse, PreprocessorIfExpression,
    ReturnStatement, SeparatedList1, SeparatedListTrailing1, Statement, StatementType,
    StructDefinition, StructDefinitionStatement, SwitchCase, SwitchStatement, ThreadStatement,
    ThrowStatement, TryCatchStatement, Type, TypeDefinitionStatement, UntypedStatement,
    VarDefinition, VarDefinitionStatement, VarInitializer, WaitStatement,
    WaitThreadSoloStatement, WaitThreadStatement, WhileStatement, YieldStatement,
};
use crate::error::{ContextType, ParseErrorType};
use crate::parser::class::{class_definition, spec_class_definition};
use crate::parser::control::{
    for_definition, foreach_index, foreach_value, if_statement_type, spec_for_definition,
    spec_foreach_index, spec_foreach_value, spec_if_statement_type, spec_switch_cases,
    switch_cases,
};
use crate::parser::enum_::{enum_entries, spec_enum_entries};
use crate::parser::expression::{expression, spec_expression, spec_var, var};
use crate::parser::function::{function_definition, spec_function_definition};
use crate::parser::global::{global_definition, spec_global_definition};
use crate::parser::identifier::{identifier, spec_identifier};
use crate::parser::preprocessed::{
    preprocessed_if_contents_terminal, preprocessor_if_head, spec_preprocessed_if_contents_terminal,
    spec_preprocessor_if_head,
};
use crate::parser::result::{
    ParseResult, consumes, definite, is_soft, is_soft_err, maybe, moves_on, not_definite, or_error,
    replace_context, spec_definite, spec_map_val, spec_maybe, spec_not_definite, spec_or_error,
    spec_or_try, spec_replace_context, spec_unreachable, spec_with_context, with_context,
};
use crate::parser::struct_::{spec_struct_definition, struct_definition};
use crate::parser::table::{spec_string_literal, string_literal};
use crate::parser::token_list::TokenList;
use crate::parser::type_::{spec_type_, type_};
use crate::parser::variable::{
    spec_var_definition, spec_var_initializer, var_definition, var_initializer,
};
use crate::token::{TerminalToken, TokenType};
use vstd::prelude::*;

verus! {

/// Whether a statement parsed up to `next` may end there: it had a semicolon, or a line
/// break, the end of input, a `}` or an `Empty` token stands at its end.
pub open spec fn spec_may_end_statement<'s>(next: TokenList<'s>, statement: Statement) -> bool {
    ||| statement.semicolon is Some
    ||| next.spec_is_newline()
    ||| next.spec_is_ended()
    ||| (next.index > 0 && next.item(next.index - 1).token.ty == TokenType::Terminal(TerminalToken::CloseBrace))
    ||| (next.index < next.end && next.item(next.index as int).token.ty == TokenType::Empty)
    ||| next.next_is(TerminalToken::CloseBrace)
}

#[verifier::opaque]
pub open spec fn spec_statement<'s>(tokens: TokenList<'s>) -> ParseResult<'s, Statement>
    decreases tokens.end - tokens.index, 13int,
{
    match spec_inner_statement(tokens) {
        Err(e) => Err(e),
        Ok((t1, statement)) => if spec_may_end_statement(t1, statement) {
            Ok((t1, statement))
        } else {
            Err(
                t1.spec_error_before(ParseErrorType::ExpectedEndOfStatement).spec_with_context(
                    ContextType::Statement,
                    tokens.index,
                ),
            )
        },
    }
}

/// A statement, which must end with a semicolon, a line break, the end of the input, or a
/// `}` before or after it.
pub fn statement<'s>(tokens: TokenList<'s>) -> (r: ParseResult<'s, Statement>)
    requires
        tokens.wf(),
    ensures
        r == spec_statement(tokens),
        consumes(tokens, r),
    decreases tokens.end - tokens.index, 13int,
{
    proof {
        reveal(spec_statement);
        reveal(spec_inner_statement);
    }
    let (next, statement) = inner_statement(tokens)?;
    // A statement must end with a semicolon, newline, or end of input.
    if statement.semicolon.is_some() || next.is_newline() || next.is_ended() {
        return Ok((next, statement));
    }
    // A statement can end if the last token was a `}`.
    if let Some(last_item) = next.previous() {
        if let TokenType::Terminal(TerminalToken::CloseBrace) = last_item.token.ty {
            return Ok((next, statement));
        }
    }
    // A statement can end if the next token is an empty statement.
    if let Some(next_item) = next.next() {
        if let TokenType::Empty = next_item.token.ty {
            return Ok((next, statement));
        }
    }
    // A statement can end if the next token is a `}`.
    if next.peek_terminal(TerminalToken::CloseBrace) {
        return Ok((next, statement));
    }
    Err(next.error_before(ParseErrorType::ExpectedEndOfStatement).with_context(ContextType::Statement, tokens.index))
}

/// A statement that parses ends with a semicolon, a line break or the end of the input, or
/// stands next to a `}` or an empty token.
pub proof fn lemma_statement_ends<'s>(tokens: TokenList<'s>)
    ensures
        spec_statement(tokens) matches Ok((t, s)) ==> spec_may_end_statement(t, s),
{
    reveal(spec_statement);
}

#[verifier::opaque]
pub open spec fn spec_inner_statement<'s>(tokens: TokenList<'s>) -> ParseResult<'s, Statement>
    decreases tokens.end - tokens.index, 12int,
{
    match tokens.spec_terminal(TerminalToken::Semicolon) {
        Ok((t1, semicolon)) => Ok(
            (t1, Statement { ty: StatementType::Empty(EmptyStatement { empty: None }), semicolon: Some(semicolon) }),
        ),
        Err(_) => match spec_statement_type(tokens) {
            Err(e) => Err(e),
            Ok((t1, ty)) => match spec_maybe(t1.spec_terminal(TerminalToken::Semicolon), t1) {
                Err(e) => Err(e),
                Ok((t2, semicolon)) => Ok((t2, Statement { ty, semicolon })),
            },
        },
    }
}

/// A statement and the semicolon after it, if any; a lone semicolon is an empty statement.
fn inner_statement<'s>(tokens: TokenList<'s>) -> (r: ParseResult<'s, Statement>)
    requires
        tokens.wf(),
    ensures
        r == spec_inner_statement(tokens),
        consumes(tokens, r),
    decreases tokens.end - tokens.index, 12int,
{
    proof {
        reveal(spec_inner_statement);
        reveal(spec_statement_type);
    }
    if let Ok((t1, semicolon)) = tokens.terminal(TerminalToken::Semicolon) {
        return Ok(
            (t1, Statement { ty: StatementType::Empty(EmptyStatement { empty: None }), semicolon: Some(semicolon) }),
        );
    }
    let (t1, ty) = statement_type(tokens)?;
    let (t2, semicolon) = maybe(t1.terminal(TerminalToken::Semicolon), t1)?;
    Ok((t2, Statement { ty, semicolon }))
}

/// A result that reads the same tokens from `tokens` on, and moves on unless a `;` is next.
pub open spec fn moves_on_unless_semicolon<'s, T>(tokens: TokenList<'s>, r: ParseResult<'s, T>) -> bool {
    r matches Ok((t, _)) ==> tokens.follows(t) && (t.index == tokens.index ==> tokens.next_is(
        TerminalToken::Semicolon,
    ))
}

#[verifier::opaque]
pub open spec fn spec_statement_type<'s>(tokens: TokenList<'s>) -> ParseResult<'s, StatementType>
    decreases tokens.end - tokens.index, 11int,
{
    if tokens.next_is(TerminalToken::Semicolon) {
        Ok((tokens, StatementType::Empty(EmptyStatement { empty: None })))
    } else if tokens.index < tokens.end && tokens.item(tokens.index as int).token.ty == TokenType::Empty {
        Ok((tokens.at(tokens.index + 1), StatementType::Empty(EmptyStatement { empty: Some(tokens.index) })))
    } else {
        spec_or_error(
            spec_with_context(
                spec_or_try(spec_statement_type_first(tokens), spec_statement_type_second(tokens)),
                ContextType::Statement,
                tokens,
            ),
            tokens.spec_error(ParseErrorType::ExpectedStatement),
        )
    }
}

/// A `block statement` starts with its keyword: elsewhere it is a soft error.
pub proof fn lemma_block_statement_starts_with_keyword<'s>(tokens: TokenList<'s>)
    ensures
        !tokens.next_is(TerminalToken::OpenBrace) ==> is_soft(spec_block_statement(tokens)),
{
    reveal(spec_block_statement);
    reveal(spec_keyword_value);
    reveal(spec_same_line_value);
}

/// A `if statement` starts with its keyword: elsewhere it is a soft error.
pub proof fn lemma_if_statement_starts_with_keyword<'s>(tokens: TokenList<'s>)
    ensures
        !tokens.next_is(TerminalToken::If) ==> is_soft(spec_if_statement(tokens)),
{
    reveal(spec_if_statement);
    reveal(spec_keyword_value);
    reveal(spec_same_line_value);
}

/// A `while statement` starts with its keyword: elsewhere it is a soft error.
pub proof fn lemma_while_statement_starts_with_keyword<'s>(tokens: TokenList<'s>)
    ensures
        !tokens.next_is(TerminalToken::While) ==> is_soft(spec_while_statement(tokens)),
{
    reveal(spec_while_statement);
    reveal(spec_keyword_value);
    reveal(spec_same_line_value);
}

/// A `do while statement` starts with its keyword: elsewhere it is a soft error.
pub proof fn lemma_do_while_statement_starts_with_keyword<'s>(tokens: TokenList<'s>)
    ensures
        !tokens.next_is(TerminalToken::Do) ==> is_soft(spec_do_while_statement(tokens)),
{
    reveal(spec_do_while_statement);
    reveal(spec_keyword_value);
    reveal(spec_same_line_value);
}

/// A `switch statement` starts with its keyword: elsewhere it is a soft error.
pub proof fn lemma_switch_statement_starts_with_keyword<'s>(tokens: TokenList<'s>)
    ensures
        !tokens.next_is(TerminalToken::Switch) ==> is_soft(spec_switch_statement(tokens)),
{
    reveal(spec_switch_statement);
    reveal(spec_keyword_value);
    reveal(spec_same_line_value);
}

/// A `for statement` starts with its keyword: elsewhere it is a soft error.
pub proof fn lemma_for_statement_starts_with_keyword<'s>(tokens: TokenList<'s>)
    ensures
        !tokens.next_is(TerminalToken::For) ==> is_soft(spec_for_statement(tokens)),
{
    reveal(spec_for_statement);
    reveal(spec_keyword_value);
    reveal(spec_same_line_value);
}

/// A `foreach statement` starts with its keyword: elsewhere it is a soft error.
pub proof fn lemma_foreach_statement_starts_with_keyword<'s>(tokens: TokenList<'s>)
    ensures
        !tokens.next_is(TerminalToken::Foreach) ==> is_soft(spec_foreach_statement(tokens)),
{
    reveal(spec_foreach_statement);
    reveal(spec_keyword_value);
    reveal(spec_same_line_value);
}

/// A `try catch statement` starts with its keyword: elsewhere it is a soft error.
pub proof fn lemma_try_catch_statement_starts_with_keyword<'s>(tokens: TokenList<'s>)
    ensures
        !tokens.next_is(TerminalToken::Try) ==> is_soft(spec_try_catch_statement(tokens)),
{
    reveal(spec_try_catch_statement);
    reveal(spec_keyword_value);
    reveal(spec_same_line_value);
}

/// A `break statement` starts with its keyword: elsewhere it is a soft error.
pub proof fn lemma_break_statement_starts_with_keyword<'s>(tokens: TokenList<'s>)
    ensures
        !tokens.next_is(TerminalToken::Break) ==> is_soft(spec_break_statement(tokens)),
{
    reveal(spec_keyword_value);
    reveal(spec_same_line_value);
}

/// A `continue statement` starts with its keyword: elsewhere it is a soft error.
pub proof fn lemma_continue_statement_starts_with_keyword<'s>(tokens: TokenList<'s>)
    ensures
        !tokens.next_is(TerminalToken::Continue) ==> is_soft(spec_continue_statement(tokens)),
{
    reveal(spec_keyword_value);
    reveal(spec_same_line_value);
}

/// A `return statement` starts with its keyword: elsewhere it is a soft error.
pub proof fn lemma_return_statement_starts_with_keyword<'s>(tokens: TokenList<'s>)
    ensures
        !tokens.next_is(TerminalToken::Return) ==> is_soft(spec_return_statement(tokens)),
{
    reveal(spec_return_statement);
    reveal(spec_keyword_value);
    reveal(spec_same_line_value);
}

/// A `yield statement` starts with its keyword: elsewhere it is a soft error.
pub proof fn lemma_yield_statement_starts_with_keyword<'s>(tokens: TokenList<'s>)
    ensures
        !tokens.next_is(TerminalToken::Yield) ==> is_soft(spec_yield_statement(tokens)),
{
    reveal(spec_yield_statement);
    reveal(spec_keyword_value);
    reveal(spec_same_line_value);
}

/// A `throw statement` starts with its keyword: elsewhere it is a soft error.
pub proof fn lemma_throw_statement_starts_with_keyword<'s>(tokens: TokenList<'s>)
    ensures
        !tokens.next_is(TerminalToken::Throw) ==> is_soft(spec_throw_statement(tokens)),
{
    reveal(spec_throw_statement);
    reveal(spec_keyword_value);
    reveal(spec_same_line_value);
}

/// A `const definition statement` starts with its keyword: elsewhere it is a soft error.
pub proof fn lemma_const_definition_statement_starts_with_keyword<'s>(tokens: TokenList<'s>)
    ensures
        !tokens.next_is(TerminalToken::Const) ==> is_soft(spec_const_definition_statement(tokens)),
{
    reveal(spec_const_definition_statement);
    reveal(spec_keyword_value);
    reveal(spec_same_line_value);
}

/// A `class definition statement` starts with its keyword: elsewhere it is a soft error.
pub proof fn lemma_class_definition_statement_starts_with_keyword<'s>(tokens: TokenList<'s>)
    ensures
        !tokens.next_is(TerminalToken::Class) ==> is_soft(spec_class_definition_statement(tokens)),
{
    reveal(spec_class_definition_statement);
    reveal(spec_keyword_value);
    reveal(spec_same_line_value);
}

/// A `enum definition statement` starts with its keyword: elsewhere it is a soft error.
pub proof fn lemma_enum_definition_statement_starts_with_keyword<'s>(tokens: TokenList<'s>)
    ensures
        !tokens.next_is(TerminalToken::Enum) ==> is_soft(spec_enum_definition_statement(tokens)),
{
    reveal(spec_enum_definition_statement);
    reveal(spec_keyword_value);
    reveal(spec_same_line_value);
}

/// A `void function definition statement` starts with its keyword: elsewhere it is a soft error.
pub proof fn lemma_void_function_definition_statement_starts_with_keyword<'s>(tokens: TokenList<'s>)
    ensures
        !tokens.next_is(TerminalToken::Function) ==> is_soft(spec_void_function_definition_statement(tokens)),
{
    reveal(spec_void_function_definition_statement);
    reveal(spec_keyword_value);
    reveal(spec_same_line_value);
}

/// A `struct definition statement` starts with its keyword: elsewhere it is a soft error.
pub proof fn lemma_struct_definition_statement_starts_with_keyword<'s>(tokens: TokenList<'s>)
    ensures
        !tokens.next_is(TerminalToken::Struct) ==> is_soft(spec_struct_definition_statement(tokens)),
{
    reveal(spec_struct_definition_statement);
    reveal(spec_keyword_value);
    reveal(spec_same_line_value);
}

/// A `type definition statement` starts with its keyword: elsewhere it is a soft error.
pub proof fn lemma_type_definition_statement_starts_with_keyword<'s>(tokens: TokenList<'s>)
    ensures
        !tokens.next_is(TerminalToken::Typedef) ==> is_soft(spec_type_definition_statement(tokens)),
{
    reveal(spec_type_definition_statement);
    reveal(spec_keyword_value);
    reveal(spec_same_line_value);
}

/// A `thread statement` starts with its keyword: elsewhere it is a soft error.
pub proof fn lemma_thread_statement_starts_with_keyword<'s>(tokens: TokenList<'s>)
    ensures
        !tokens.next_is(TerminalToken::Thread) ==> is_soft(spec_thread_statement(tokens)),
{
    reveal(spec_thread_statement);
    reveal(spec_keyword_value);
    reveal(spec_same_line_value);
}

/// A `delay thread statement` starts with its keyword: elsewhere it is a soft error.
pub proof fn lemma_delay_thread_statement_starts_with_keyword<'s>(tokens: TokenList<'s>)
    ensures
        !tokens.next_is(TerminalToken::DelayThread) ==> is_soft(spec_delay_thread_statement(tokens)),
{
    reveal(spec_delay_thread_statement);
    reveal(spec_keyword_value);
    reveal(spec_same_line_value);
}

/// A `wait thread statement` starts with its keyword: elsewhere it is a soft error.
pub proof fn lemma_wait_thread_statement_starts_with_keyword<'s>(tokens: TokenList<'s>)
    ensures
        !tokens.next_is(TerminalToken::WaitThread) ==> is_soft(spec_wait_thread_statement(tokens)),
{
    reveal(spec_wait_thread_statement);
    reveal(spec_keyword_value);
    reveal(spec_same_line_value);
}

/// A `wait thread solo statement` starts with its keyword: elsewhere it is a soft error.
pub proof fn lemma_wait_thread_solo_statement_starts_with_keyword<'s>(tokens: TokenList<'s>)
    ensures
        !tokens.next_is(TerminalToken::WaitThreadSolo) ==> is_soft(spec_wait_thread_solo_statement(tokens)),
{
    reveal(spec_wait_thread_solo_statement);
    reveal(spec_keyword_value);
    reveal(spec_same_line_value);
}

/// A `wait statement` starts with its keyword: elsewhere it is a soft error.
pub proof fn lemma_wait_statement_starts_with_keyword<'s>(tokens: TokenList<'s>)
    ensures
        !tokens.next_is(TerminalToken::Wait) ==> is_soft(spec_wait_statement(tokens)),
{
    reveal(spec_wait_statement);
    reveal(spec_keyword_value);
    reveal(spec_same_line_value);
}

/// A `global statement` starts with its keyword: elsewhere it is a soft error.
pub proof fn lemma_global_statement_starts_with_keyword<'s>(tokens: TokenList<'s>)
    ensures
        !tokens.next_is(TerminalToken::Global) ==> is_soft(spec_global_statement(tokens)),
{
    reveal(spec_global_statement);
    reveal(spec_keyword_value);
    reveal(spec_same_line_value);
}

/// A `globalize all functions statement` starts with its keyword: elsewhere it is a soft error.
pub proof fn lemma_globalize_all_functions_statement_starts_with_keyword<'s>(tokens: TokenList<'s>)
    ensures
        !tokens.next_is(TerminalToken::GlobalizeAllFunctions) ==> is_soft(spec_globalize_all_functions_statement(tokens)),
{
    reveal(spec_keyword_value);
    reveal(spec_same_line_value);
}

/// A `untyped statement` starts with its keyword: elsewhere it is a soft error.
pub proof fn lemma_untyped_statement_starts_with_keyword<'s>(tokens: TokenList<'s>)
    ensures
        !tokens.next_is(TerminalToken::Untyped) ==> is_soft(spec_untyped_statement(tokens)),
{
    reveal(spec_keyword_value);
    reveal(spec_same_line_value);
}

/// A `preprocessed if statement` starts with its keyword: elsewhere it is a soft error.
pub proof fn lemma_preprocessed_if_statement_starts_with_keyword<'s>(tokens: TokenList<'s>)
    ensures
        !tokens.next_is(TerminalToken::PreprocessorIf) ==> is_soft(spec_preprocessed_if_statement(tokens)),
{
    reveal(spec_preprocessed_if_statement);
    reveal(spec_keyword_value);
    reveal(spec_same_line_value);
    reveal(crate::parser::preprocessed::spec_preprocessor_if_head);
}

/// A `preprocessed documentation statement` starts with its keyword: elsewhere it is a soft error.
pub proof fn lemma_preprocessed_documentation_statement_starts_with_keyword<'s>(tokens: TokenList<'s>)
    ensures
        !tokens.next_is(TerminalToken::PreprocessorDocument) ==> is_soft(spec_preprocessed_documentation_statement(tokens)),
{
    reveal(spec_keyword_value);
    reveal(spec_same_line_value);
}

/// Where a `local`, `functionref` or `struct` type cannot start, a typed definition does not
/// start either.
proof fn lemma_typed_definition_soft<'s>(tokens: TokenList<'s>, k: TerminalToken)
    requires
        tokens.next_is(k),
        k != TerminalToken::Local,
        k != TerminalToken::FunctionRef,
        k != TerminalToken::Struct,
    ensures
        is_soft(spec_typed_function_or_var_definition_statement(tokens)),
{
    reveal(spec_typed_function_or_var_definition_statement);
    reveal(spec_type_);
    reveal(crate::parser::type_::spec_base);
    reveal(crate::parser::type_::spec_void_function_ref);
    reveal(crate::parser::type_::spec_function_ref);
    reveal(crate::parser::type_::spec_struct_);
}

/// A statement that starts with `OpenBrace` is that statement: when it parses, `statement_type`
/// gives it, whatever kinds of statement are tried before it.
#[verifier::rlimit(40)]
pub proof fn lemma_statement_block_statement<'s>(tokens: TokenList<'s>)
    ensures
        tokens.next_is(TerminalToken::OpenBrace) ==> (spec_block_statement(tokens) matches Ok((t, s))
            ==> spec_statement_type(tokens) == Ok::<(TokenList<'s>, StatementType), crate::error::ParseError>(
            (t, StatementType::Block(s)),
        )),
{
    if tokens.next_is(TerminalToken::OpenBrace) {
        lemma_typed_definition_soft(tokens, TerminalToken::OpenBrace);
    }
    reveal(spec_block_statement);
    reveal(spec_typed_function_or_var_definition_statement);
    reveal(spec_statement_type);
    reveal(spec_statement_type_first);
}

/// A statement that starts with `If` is that statement: when it parses, `statement_type`
/// gives it, whatever kinds of statement are tried before it.
#[verifier::rlimit(40)]
pub proof fn lemma_statement_if_statement<'s>(tokens: TokenList<'s>)
    ensures
        tokens.next_is(TerminalToken::If) ==> (spec_if_statement(tokens) matches Ok((t, s))
            ==> spec_statement_type(tokens) == Ok::<(TokenList<'s>, StatementType), crate::error::ParseError>(
            (t, StatementType::If(s)),
        )),
{
    if tokens.next_is(TerminalToken::If) {
        lemma_typed_definition_soft(tokens, TerminalToken::If);
    lemma_block_statement_starts_with_keyword(tokens);
    }
    reveal(spec_block_statement);
    reveal(spec_if_statement);
    reveal(spec_typed_function_or_var_definition_statement);
    reveal(spec_statement_type);
    reveal(spec_statement_type_first);
}

/// A statement that starts with `While` is that statement: when it parses, `statement_type`
/// gives it, whatever kinds of statement are tried before it.
#[verifier::rlimit(40)]
pub proof fn lemma_statement_while_statement<'s>(tokens: TokenList<'s>)
    ensures
        tokens.next_is(TerminalToken::While) ==> (spec_while_statement(tokens) matches Ok((t, s))
            ==> spec_statement_type(tokens) == Ok::<(TokenList<'s>, StatementType), crate::error::ParseError>(
            (t, StatementType::While(s)),
        )),
{
    if tokens.next_is(TerminalToken::While) {
        lemma_typed_definition_soft(tokens, TerminalToken::While);
    lemma_block_statement_starts_with_keyword(tokens);
    lemma_if_statement_starts_with_keyword(tokens);
    }
    reveal(spec_block_statement);
    reveal(spec_if_statement);
    reveal(spec_while_statement);
    reveal(spec_typed_function_or_var_definition_statement);
    reveal(spec_statement_type);
    reveal(spec_statement_type_first);
}

/// A statement that starts with `Do` is that statement: when it parses, `statement_type`
/// gives it, whatever kinds of statement are tried before it.
#[verifier::rlimit(40)]
pub proof fn lemma_statement_do_while_statement<'s>(tokens: TokenList<'s>)
    ensures
        tokens.next_is(TerminalToken::Do) ==> (spec_do_while_statement(tokens) matches Ok((t, s))
            ==> spec_statement_type(tokens) == Ok::<(TokenList<'s>, StatementType), crate::error::ParseError>(
            (t, StatementType::DoWhile(s)),
        )),
{
    if tokens.next_is(TerminalToken::Do) {
        lemma_typed_definition_soft(tokens, TerminalToken::Do);
    lemma_block_statement_starts_with_keyword(tokens);
    lemma_if_statement_starts_with_keyword(tokens);
    lemma_while_statement_starts_with_keyword(tokens);
    }
    reveal(spec_block_statement);
    reveal(spec_if_statement);
    reveal(spec_while_statement);
    reveal(spec_do_while_statement);
    reveal(spec_typed_function_or_var_definition_statement);
    reveal(spec_statement_type);
    reveal(spec_statement_type_first);
}

/// A statement that starts with `Switch` is that statement: when it parses, `statement_type`
/// gives it, whatever kinds of statement are tried before it.
#[verifier::rlimit(40)]
pub proof fn lemma_statement_switch_statement<'s>(tokens: TokenList<'s>)
    ensures
        tokens.next_is(TerminalToken::Switch) ==> (spec_switch_statement(tokens) matches Ok((t, s))
            ==> spec_statement_type(tokens) == Ok::<(TokenList<'s>, StatementType), crate::error::ParseError>(
            (t, StatementType::Switch(s)),
        )),
{
    if tokens.next_is(TerminalToken::Switch) {
        lemma_typed_definition_soft(tokens, TerminalToken::Switch);
    lemma_block_statement_starts_with_keyword(tokens);
    lemma_if_statement_starts_with_keyword(tokens);
    lemma_while_statement_starts_with_keyword(tokens);
    lemma_do_while_statement_starts_with_keyword(tokens);
    }
    reveal(spec_block_statement);
    reveal(spec_if_statement);
    reveal(spec_while_statement);
    reveal(spec_do_while_statement);
    reveal(spec_switch_statement);
    reveal(spec_typed_function_or_var_definition_statement);
    reveal(spec_statement_type);
    reveal(spec_statement_type_first);
}

/// A statement that starts with `For` is that statement: when it parses, `statement_type`
/// gives it, whatever kinds of statement are tried before it.
#[verifier::rlimit(40)]
pub proof fn lemma_statement_for_statement<'s>(tokens: TokenList<'s>)
    ensures
        tokens.next_is(TerminalToken::For) ==> (spec_for_statement(tokens) matches Ok((t, s))
            ==> spec_statement_type(tokens) == Ok::<(TokenList<'s>, StatementType), crate::error::ParseError>(
            (t, StatementType::For(s)),
        )),
{
    if tokens.next_is(TerminalToken::For) {
        lemma_typed_definition_soft(tokens, TerminalToken::For);
    lemma_block_statement_starts_with_keyword(tokens);
    lemma_if_statement_starts_with_keyword(tokens);
    lemma_while_statement_starts_with_keyword(tokens);
    lemma_do_while_statement_starts_with_keyword(tokens);
    lemma_switch_statement_starts_with_keyword(tokens);
    }
    reveal(spec_block_statement);
    reveal(spec_if_statement);
    reveal(spec_while_statement);
    reveal(spec_do_while_statement);
    reveal(spec_switch_statement);
    reveal(spec_for_statement);
    reveal(spec_typed_function_or_var_definition_statement);
    reveal(spec_statement_type);
    reveal(spec_statement_type_first);
}

/// A statement that starts with `Foreach` is that statement: when it parses, `statement_type`
/// gives it, whatever kinds of statement are tried before it.
#[verifier::rlimit(40)]
pub proof fn lemma_statement_foreach_statement<'s>(tokens: TokenList<'s>)
    ensures
        tokens.next_is(TerminalToken::Foreach) ==> (spec_foreach_statement(tokens) matches Ok((t, s))
            ==> spec_statement_type(tokens) == Ok::<(TokenList<'s>, StatementType), crate::error::ParseError>(
            (t, StatementType::Foreach(s)),
        )),
{
    if tokens.next_is(TerminalToken::Foreach) {
        lemma_typed_definition_soft(tokens, TerminalToken::Foreach);
    lemma_block_statement_starts_with_keyword(tokens);
    lemma_if_statement_starts_with_keyword(tokens);
    lemma_while_statement_starts_with_keyword(tokens);
    lemma_do_while_statement_starts_with_keyword(tokens);
    lemma_switch_statement_starts_with_keyword(tokens);
    lemma_for_statement_starts_with_keyword(tokens);
    }
    reveal(spec_block_statement);
    reveal(spec_if_statement);
    reveal(spec_while_statement);
    reveal(spec_do_while_statement);
    reveal(spec_switch_statement);
    reveal(spec_for_statement);
    reveal(spec_foreach_statement);
    reveal(spec_typed_function_or_var_definition_statement);
    reveal(spec_statement_type);
    reveal(spec_statement_type_first);
}

/// A statement that starts with `Try` is that statement: when it parses, `statement_type`
/// gives it, whatever kinds of statement are tried before it.
#[verifier::rlimit(40)]
pub proof fn lemma_statement_try_catch_statement<'s>(tokens: TokenList<'s>)
    ensures
        tokens.next_is(TerminalToken::Try) ==> (spec_try_catch_statement(tokens) matches Ok((t, s))
            ==> spec_statement_type(tokens) == Ok::<(TokenList<'s>, StatementType), crate::error::ParseError>(
            (t, StatementType::TryCatch(s)),
        )),
{
    if tokens.next_is(TerminalToken::Try) {
        lemma_typed_definition_soft(tokens, TerminalToken::Try);
    lemma_block_statement_starts_with_keyword(tokens);
    lemma_if_statement_starts_with_keyword(tokens);
    lemma_while_statement_starts_with_keyword(tokens);
    lemma_do_while_statement_starts_with_keyword(tokens);
    lemma_switch_statement_starts_with_keyword(tokens);
    lemma_for_statement_starts_with_keyword(tokens);
    lemma_foreach_statement_starts_with_keyword(tokens);
    }
    reveal(spec_block_statement);
    reveal(spec_if_statement);
    reveal(spec_while_statement);
    reveal(spec_do_while_statement);
    reveal(spec_switch_statement);
    reveal(spec_for_statement);
    reveal(spec_foreach_statement);
    reveal(spec_try_catch_statement);
    reveal(spec_typed_function_or_var_definition_statement);
    reveal(spec_statement_type);
    reveal(spec_statement_type_first);
}

/// A statement that starts with `Break` is that statement: when it parses, `statement_type`
/// gives it, whatever kinds of statement are tried before it.
#[verifier::rlimit(40)]
pub proof fn lemma_statement_break_statement<'s>(tokens: TokenList<'s>)
    ensures
        tokens.next_is(TerminalToken::Break) ==> (spec_break_statement(tokens) matches Ok((t, s))
            ==> spec_statement_type(tokens) == Ok::<(TokenList<'s>, StatementType), crate::error::ParseError>(
            (t, StatementType::Break(s)),
        )),
{
    if tokens.next_is(TerminalToken::Break) {
        lemma_typed_definition_soft(tokens, TerminalToken::Break);
    lemma_block_statement_starts_with_keyword(tokens);
    lemma_if_statement_starts_with_keyword(tokens);
    lemma_while_statement_starts_with_keyword(tokens);
    lemma_do_while_statement_starts_with_keyword(tokens);
    lemma_switch_statement_starts_with_keyword(tokens);
    lemma_for_statement_starts_with_keyword(tokens);
    lemma_foreach_statement_starts_with_keyword(tokens);
    lemma_try_catch_statement_starts_with_keyword(tokens);
    }
    reveal(spec_block_statement);
    reveal(spec_if_statement);
    reveal(spec_while_statement);
    reveal(spec_do_while_statement);
    reveal(spec_switch_statement);
    reveal(spec_for_statement);
    reveal(spec_foreach_statement);
    reveal(spec_try_catch_statement);
    reveal(spec_typed_function_or_var_definition_statement);
    reveal(spec_statement_type);
    reveal(spec_statement_type_first);
}

/// A statement that starts with `Continue` is that statement: when it parses, `statement_type`
/// gives it, whatever kinds of statement are tried before it.
#[verifier::rlimit(40)]
pub proof fn lemma_statement_continue_statement<'s>(tokens: TokenList<'s>)
    ensures
        tokens.next_is(TerminalToken::Continue) ==> (spec_continue_statement(tokens) matches Ok((t, s))
            ==> spec_statement_type(tokens) == Ok::<(TokenList<'s>, StatementType), crate::error::ParseError>(
            (t, StatementType::Continue(s)),
        )),
{
    if tokens.next_is(TerminalToken::Continue) {
        lemma_typed_definition_soft(tokens, TerminalToken::Continue);
    lemma_block_statement_starts_with_keyword(tokens);
    lemma_if_statement_starts_with_keyword(tokens);
    lemma_while_statement_starts_with_keyword(tokens);
    lemma_do_while_statement_starts_with_keyword(tokens);
    lemma_switch_statement_starts_with_keyword(tokens);
    lemma_for_statement_starts_with_keyword(tokens);
    lemma_foreach_statement_starts_with_keyword(tokens);
    lemma_try_catch_statement_starts_with_keyword(tokens);
    lemma_break_statement_starts_with_keyword(tokens);
    }
    reveal(spec_block_statement);
    reveal(spec_if_statement);
    reveal(spec_while_statement);
    reveal(spec_do_while_statement);
    reveal(spec_switch_statement);
    reveal(spec_for_statement);
    reveal(spec_foreach_statement);
    reveal(spec_try_catch_statement);
    reveal(spec_typed_function_or_var_definition_statement);
    reveal(spec_statement_type);
    reveal(spec_statement_type_first);
}

/// A statement that starts with `Return` is that statement: when it parses, `statement_type`
/// gives it, whatever kinds of statement are tried before it.
#[verifier::rlimit(40)]
pub proof fn lemma_statement_return_statement<'s>(tokens: TokenList<'s>)
    ensures
        tokens.next_is(TerminalToken::Return) ==> (spec_return_statement(tokens) matches Ok((t, s))
            ==> spec_statement_type(tokens) == Ok::<(TokenList<'s>, StatementType), crate::error::ParseError>(
            (t, StatementType::Return(s)),
        )),
{
    if tokens.next_is(TerminalToken::Return) {
        lemma_typed_definition_soft(tokens, TerminalToken::Return);
    lemma_block_statement_starts_with_keyword(tokens);
    lemma_if_statement_starts_with_keyword(tokens);
    lemma_while_statement_starts_with_keyword(tokens);
    lemma_do_while_statement_starts_with_keyword(tokens);
    lemma_switch_statement_starts_with_keyword(tokens);
    lemma_for_statement_starts_with_keyword(tokens);
    lemma_foreach_statement_starts_with_keyword(tokens);
    lemma_try_catch_statement_starts_with_keyword(tokens);
    lemma_break_statement_starts_with_keyword(tokens);
    lemma_continue_statement_starts_with_keyword(tokens);
    }
    reveal(spec_block_statement);
    reveal(spec_if_statement);
    reveal(spec_while_statement);
    reveal(spec_do_while_statement);
    reveal(spec_switch_statement);
    reveal(spec_for_statement);
    reveal(spec_foreach_statement);
    reveal(spec_try_catch_statement);
    reveal(spec_return_statement);
    reveal(spec_typed_function_or_var_definition_statement);
    reveal(spec_statement_type);
    reveal(spec_statement_type_first);
}

/// A statement that starts with `Yield` is that statement: when it parses, `statement_type`
/// gives it, whatever kinds of statement are tried before it.
#[verifier::rlimit(40)]
pub proof fn lemma_statement_yield_statement<'s>(tokens: TokenList<'s>)
    ensures
        tokens.next_is(TerminalToken::Yield) ==> (spec_yield_statement(tokens) matches Ok((t, s))
            ==> spec_statement_type(tokens) == Ok::<(TokenList<'s>, StatementType), crate::error::ParseError>(
            (t, StatementType::Yield(s)),
        )),
{
    if tokens.next_is(TerminalToken::Yield) {
        lemma_typed_definition_soft(tokens, TerminalToken::Yield);
    lemma_block_statement_starts_with_keyword(tokens);
    lemma_if_statement_starts_with_keyword(tokens);
    lemma_while_statement_starts_with_keyword(tokens);
    lemma_do_while_statement_starts_with_keyword(tokens);
    lemma_switch_statement_starts_with_keyword(tokens);
    lemma_for_statement_starts_with_keyword(tokens);
    lemma_foreach_statement_starts_with_keyword(tokens);
    lemma_try_catch_statement_starts_with_keyword(tokens);
    lemma_break_statement_starts_with_keyword(tokens);
    lemma_continue_statement_starts_with_keyword(tokens);
    lemma_return_statement_starts_with_keyword(tokens);
    }
    reveal(spec_block_statement);
    reveal(spec_if_statement);
    reveal(spec_while_statement);
    reveal(spec_do_while_statement);
    reveal(spec_switch_statement);
    reveal(spec_for_statement);
    reveal(spec_foreach_statement);
    reveal(spec_try_catch_statement);
    reveal(spec_return_statement);
    reveal(spec_yield_statement);
    reveal(spec_typed_function_or_var_definition_statement);
    reveal(spec_statement_type);
    reveal(spec_statement_type_first);
}

/// A statement that starts with `Throw` is that statement: when it parses, `statement_type`
/// gives it, whatever kinds of statement are tried before it.
#[verifier::rlimit(40)]
pub proof fn lemma_statement_throw_statement<'s>(tokens: TokenList<'s>)
    ensures
        tokens.next_is(TerminalToken::Throw) ==> (spec_throw_statement(tokens) matches Ok((t, s))
            ==> spec_statement_type(tokens) == Ok::<(TokenList<'s>, StatementType), crate::error::ParseError>(
            (t, StatementType::Throw(s)),
        )),
{
    if tokens.next_is(TerminalToken::Throw) {
        lemma_typed_definition_soft(tokens, TerminalToken::Throw);
    lemma_block_statement_starts_with_keyword(tokens);
    lemma_if_statement_starts_with_keyword(tokens);
    lemma_while_statement_starts_with_keyword(tokens);
    lemma_do_while_statement_starts_with_keyword(tokens);
    lemma_switch_statement_starts_with_keyword(tokens);
    lemma_for_statement_starts_with_keyword(tokens);
    lemma_foreach_statement_starts_with_keyword(tokens);
    lemma_try_catch_statement_starts_with_keyword(tokens);
    lemma_break_statement_starts_with_keyword(tokens);
    lemma_continue_statement_starts_with_keyword(tokens);
    lemma_return_statement_starts_with_keyword(tokens);
    lemma_yield_statement_starts_with_keyword(tokens);
    }
    reveal(spec_block_statement);
    reveal(spec_if_statement);
    reveal(spec_while_statement);
    reveal(spec_do_while_statement);
    reveal(spec_switch_statement);
    reveal(spec_for_statement);
    reveal(spec_foreach_statement);
    reveal(spec_try_catch_statement);
    reveal(spec_return_statement);
    reveal(spec_yield_statement);
    reveal(spec_throw_statement);
    reveal(spec_typed_function_or_var_definition_statement);
    reveal(spec_statement_type);
    reveal(spec_statement_type_first);
}

/// A statement that starts with `Const` is that statement: when it parses, `statement_type`
/// gives it, whatever kinds of statement are tried before it.
#[verifier::rlimit(40)]
pub proof fn lemma_statement_const_definition_statement<'s>(tokens: TokenList<'s>)
    ensures
        tokens.next_is(TerminalToken::Const) ==> (spec_const_definition_statement(tokens) matches Ok((t, s))
            ==> spec_statement_type(tokens) == Ok::<(TokenList<'s>, StatementType), crate::error::ParseError>(
            (t, StatementType::Const(s)),
        )),
{
    if tokens.next_is(TerminalToken::Const) {
        lemma_typed_definition_soft(tokens, TerminalToken::Const);
    lemma_block_statement_starts_with_keyword(tokens);
    lemma_if_statement_starts_with_keyword(tokens);
    lemma_while_statement_starts_with_keyword(tokens);
    lemma_do_while_statement_starts_with_keyword(tokens);
    lemma_switch_statement_starts_with_keyword(tokens);
    lemma_for_statement_starts_with_keyword(tokens);
    lemma_foreach_statement_starts_with_keyword(tokens);
    lemma_try_catch_statement_starts_with_keyword(tokens);
    lemma_break_statement_starts_with_keyword(tokens);
    lemma_continue_statement_starts_with_keyword(tokens);
    lemma_return_statement_starts_with_keyword(tokens);
    lemma_yield_statement_starts_with_keyword(tokens);
    lemma_throw_statement_starts_with_keyword(tokens);
    }
    reveal(spec_block_statement);
    reveal(spec_if_statement);
    reveal(spec_while_statement);
    reveal(spec_do_while_statement);
    reveal(spec_switch_statement);
    reveal(spec_for_statement);
    reveal(spec_foreach_statement);
    reveal(spec_try_catch_statement);
    reveal(spec_return_statement);
    reveal(spec_yield_statement);
    reveal(spec_throw_statement);
    reveal(spec_const_definition_statement);
    reveal(spec_typed_function_or_var_definition_statement);
    reveal(spec_statement_type);
    reveal(spec_statement_type_first);
}

/// A statement that starts with `Class` is that statement: when it parses, `statement_type`
/// gives it, whatever kinds of statement are tried before it.
#[verifier::rlimit(40)]
pub proof fn lemma_statement_class_definition_statement<'s>(tokens: TokenList<'s>)
    ensures
        tokens.next_is(TerminalToken::Class) ==> (spec_class_definition_statement(tokens) matches Ok((t, s))
            ==> spec_statement_type(tokens) == Ok::<(TokenList<'s>, StatementType), crate::error::ParseError>(
            (t, StatementType::ClassDefinition(s)),
        )),
{
    if tokens.next_is(TerminalToken::Class) {
        lemma_typed_definition_soft(tokens, TerminalToken::Class);
    lemma_block_statement_starts_with_keyword(tokens);
    lemma_if_statement_starts_with_keyword(tokens);
    lemma_while_statement_starts_with_keyword(tokens);
    lemma_do_while_statement_starts_with_keyword(tokens);
    lemma_switch_statement_starts_with_keyword(tokens);
    lemma_for_statement_starts_with_keyword(tokens);
    lemma_foreach_statement_starts_with_keyword(tokens);
    lemma_try_catch_statement_starts_with_keyword(tokens);
    lemma_break_statement_starts_with_keyword(tokens);
    lemma_continue_statement_starts_with_keyword(tokens);
    lemma_return_statement_starts_with_keyword(tokens);
    lemma_yield_statement_starts_with_keyword(tokens);
    lemma_throw_statement_starts_with_keyword(tokens);
    lemma_const_definition_statement_starts_with_keyword(tokens);
    }
    reveal(spec_block_statement);
    reveal(spec_if_statement);
    reveal(spec_while_statement);
    reveal(spec_do_while_statement);
    reveal(spec_switch_statement);
    reveal(spec_for_statement);
    reveal(spec_foreach_statement);
    reveal(spec_try_catch_statement);
    reveal(spec_return_statement);
    reveal(spec_yield_statement);
    reveal(spec_throw_statement);
    reveal(spec_const_definition_statement);
    reveal(spec_class_definition_statement);
    reveal(spec_typed_function_or_var_definition_statement);
    reveal(spec_statement_type);
    reveal(spec_statement_type_first);
}

/// A statement that starts with `Enum` is that statement: when it parses, `statement_type`
/// gives it, whatever kinds of statement are tried before it.
#[verifier::rlimit(40)]
pub proof fn lemma_statement_enum_definition_statement<'s>(tokens: TokenList<'s>)
    ensures
        tokens.next_is(TerminalToken::Enum) ==> (spec_enum_definition_statement(tokens) matches Ok((t, s))
            ==> spec_statement_type(tokens) == Ok::<(TokenList<'s>, StatementType), crate::error::ParseError>(
            (t, StatementType::EnumDefinition(s)),
        )),
{
    if tokens.next_is(TerminalToken::Enum) {
        lemma_typed_definition_soft(tokens, TerminalToken::Enum);
    lemma_block_statement_starts_with_keyword(tokens);
    lemma_if_statement_starts_with_keyword(tokens);
    lemma_while_statement_starts_with_keyword(tokens);
    lemma_do_while_statement_starts_with_keyword(tokens);
    lemma_switch_statement_starts_with_keyword(tokens);
    lemma_for_statement_starts_with_keyword(tokens);
    lemma_foreach_statement_starts_with_keyword(tokens);
    lemma_try_catch_statement_starts_with_keyword(tokens);
    lemma_break_statement_starts_with_keyword(tokens);
    lemma_continue_statement_starts_with_keyword(tokens);
    lemma_return_statement_starts_with_keyword(tokens);
    lemma_yield_statement_starts_with_keyword(tokens);
    lemma_throw_statement_starts_with_keyword(tokens);
    lemma_const_definition_statement_starts_with_keyword(tokens);
    lemma_class_definition_statement_starts_with_keyword(tokens);
    }
    reveal(spec_block_statement);
    reveal(spec_if_statement);
    reveal(spec_while_statement);
    reveal(spec_do_while_statement);
    reveal(spec_switch_statement);
    reveal(spec_for_statement);
    reveal(spec_foreach_statement);
    reveal(spec_try_catch_statement);
    reveal(spec_return_statement);
    reveal(spec_yield_statement);
    reveal(spec_throw_statement);
    reveal(spec_const_definition_statement);
    reveal(spec_class_definition_statement);
    reveal(spec_enum_definition_statement);
    reveal(spec_typed_function_or_var_definition_statement);
    reveal(spec_statement_type);
    reveal(spec_statement_type_first);
}

/// A statement that starts with `function` is a function definition: when it parses,
/// `statement_type` gives it.
#[verifier::rlimit(40)]
pub proof fn lemma_statement_function<'s>(tokens: TokenList<'s>)
    ensures
        tokens.next_is(TerminalToken::Function) ==> (spec_void_function_definition_statement(tokens)
            matches Ok((t, s)) ==> spec_statement_type(tokens) == Ok::<
            (TokenList<'s>, StatementType),
            crate::error::ParseError,
        >((t, s))),
{
    if tokens.next_is(TerminalToken::Function) {
        lemma_typed_definition_soft(tokens, TerminalToken::Function);
    lemma_block_statement_starts_with_keyword(tokens);
    lemma_if_statement_starts_with_keyword(tokens);
    lemma_while_statement_starts_with_keyword(tokens);
    lemma_do_while_statement_starts_with_keyword(tokens);
    lemma_switch_statement_starts_with_keyword(tokens);
    lemma_for_statement_starts_with_keyword(tokens);
    lemma_foreach_statement_starts_with_keyword(tokens);
    lemma_try_catch_statement_starts_with_keyword(tokens);
    lemma_break_statement_starts_with_keyword(tokens);
    lemma_continue_statement_starts_with_keyword(tokens);
    lemma_return_statement_starts_with_keyword(tokens);
    lemma_yield_statement_starts_with_keyword(tokens);
    lemma_throw_statement_starts_with_keyword(tokens);
    lemma_const_definition_statement_starts_with_keyword(tokens);
    lemma_class_definition_statement_starts_with_keyword(tokens);
    lemma_enum_definition_statement_starts_with_keyword(tokens);
    }
    reveal(spec_block_statement);
    reveal(spec_if_statement);
    reveal(spec_while_statement);
    reveal(spec_do_while_statement);
    reveal(spec_switch_statement);
    reveal(spec_for_statement);
    reveal(spec_foreach_statement);
    reveal(spec_try_catch_statement);
    reveal(spec_return_statement);
    reveal(spec_yield_statement);
    reveal(spec_throw_statement);
    reveal(spec_const_definition_statement);
    reveal(spec_class_definition_statement);
    reveal(spec_enum_definition_statement);
    reveal(spec_void_function_definition_statement);
    reveal(spec_typed_function_or_var_definition_statement);
    reveal(spec_statement_type);
    reveal(spec_statement_type_first);
}

/// None of the first kinds of statement starts at a keyword of a later kind.
#[verifier::rlimit(60)]
proof fn lemma_statement_type_first_soft<'s>(tokens: TokenList<'s>, k: TerminalToken)
    requires
        tokens.next_is(k),
        k != TerminalToken::Local,
        k != TerminalToken::FunctionRef,
        k != TerminalToken::Struct,
        k != TerminalToken::Function,
        k != TerminalToken::OpenBrace && k != TerminalToken::If && k != TerminalToken::While && k != TerminalToken::Do && k != TerminalToken::Switch && k != TerminalToken::For && k != TerminalToken::Foreach && k != TerminalToken::Try && k != TerminalToken::Break && k != TerminalToken::Continue && k != TerminalToken::Return && k != TerminalToken::Yield && k != TerminalToken::Throw && k != TerminalToken::Const && k != TerminalToken::Class && k != TerminalToken::Enum,
    ensures
        is_soft(spec_statement_type_first(tokens)),
{
    lemma_typed_definition_soft(tokens, k);
    lemma_block_statement_starts_with_keyword(tokens);
    lemma_if_statement_starts_with_keyword(tokens);
    lemma_while_statement_starts_with_keyword(tokens);
    lemma_do_while_statement_starts_with_keyword(tokens);
    lemma_switch_statement_starts_with_keyword(tokens);
    lemma_for_statement_starts_with_keyword(tokens);
    lemma_foreach_statement_starts_with_keyword(tokens);
    lemma_try_catch_statement_starts_with_keyword(tokens);
    lemma_break_statement_starts_with_keyword(tokens);
    lemma_continue_statement_starts_with_keyword(tokens);
    lemma_return_statement_starts_with_keyword(tokens);
    lemma_yield_statement_starts_with_keyword(tokens);
    lemma_throw_statement_starts_with_keyword(tokens);
    lemma_const_definition_statement_starts_with_keyword(tokens);
    lemma_class_definition_statement_starts_with_keyword(tokens);
    lemma_enum_definition_statement_starts_with_keyword(tokens);
    lemma_void_function_definition_statement_starts_with_keyword(tokens);
    reveal(spec_block_statement);
    reveal(spec_if_statement);
    reveal(spec_while_statement);
    reveal(spec_do_while_statement);
    reveal(spec_switch_statement);
    reveal(spec_for_statement);
    reveal(spec_foreach_statement);
    reveal(spec_try_catch_statement);
    reveal(spec_return_statement);
    reveal(spec_yield_statement);
    reveal(spec_throw_statement);
    reveal(spec_const_definition_statement);
    reveal(spec_class_definition_statement);
    reveal(spec_enum_definition_statement);
    reveal(spec_void_function_definition_statement);
    reveal(spec_typed_function_or_var_definition_statement);
    reveal(spec_statement_type_first);
}

/// A statement that starts with `Typedef` is that statement: when it parses, `statement_type`
/// gives it, whatever kinds of statement are tried before it.
#[verifier::rlimit(40)]
pub proof fn lemma_statement_type_definition_statement<'s>(tokens: TokenList<'s>)
    ensures
        tokens.next_is(TerminalToken::Typedef) ==> (spec_type_definition_statement(tokens) matches Ok((t, s))
            ==> spec_statement_type(tokens) == Ok::<(TokenList<'s>, StatementType), crate::error::ParseError>(
            (t, StatementType::TypeDefinition(s)),
        )),
{
    if tokens.next_is(TerminalToken::Typedef) {
        lemma_statement_type_first_soft(tokens, TerminalToken::Typedef);
    lemma_struct_definition_statement_starts_with_keyword(tokens);
    }
    reveal(spec_struct_definition_statement);
    reveal(spec_type_definition_statement);
    reveal(spec_statement_type);
    reveal(spec_statement_type_first);
    reveal(spec_statement_type_second);
}

/// A statement that starts with `Thread` is that statement: when it parses, `statement_type`
/// gives it, whatever kinds of statement are tried before it.
#[verifier::rlimit(40)]
pub proof fn lemma_statement_thread_statement<'s>(tokens: TokenList<'s>)
    ensures
        tokens.next_is(TerminalToken::Thread) ==> (spec_thread_statement(tokens) matches Ok((t, s))
            ==> spec_statement_type(tokens) == Ok::<(TokenList<'s>, StatementType), crate::error::ParseError>(
            (t, StatementType::Thread(s)),
        )),
{
    if tokens.next_is(TerminalToken::Thread) {
        lemma_statement_type_first_soft(tokens, TerminalToken::Thread);
    lemma_struct_definition_statement_starts_with_keyword(tokens);
    lemma_type_definition_statement_starts_with_keyword(tokens);
    }
    reveal(spec_struct_definition_statement);
    reveal(spec_type_definition_statement);
    reveal(spec_thread_statement);
    reveal(spec_statement_type);
    reveal(spec_statement_type_first);
    reveal(spec_statement_type_second);
}

/// A statement that starts with `DelayThread` is that statement: when it parses, `statement_type`
/// gives it, whatever kinds of statement are tried before it.
#[verifier::rlimit(40)]
pub proof fn lemma_statement_delay_thread_statement<'s>(tokens: TokenList<'s>)
    ensures
        tokens.next_is(TerminalToken::DelayThread) ==> (spec_delay_thread_statement(tokens) matches Ok((t, s))
            ==> spec_statement_type(tokens) == Ok::<(TokenList<'s>, StatementType), crate::error::ParseError>(
            (t, StatementType::DelayThread(s)),
        )),
{
    if tokens.next_is(TerminalToken::DelayThread) {
        lemma_statement_type_first_soft(tokens, TerminalToken::DelayThread);
    lemma_struct_definition_statement_starts_with_keyword(tokens);
    lemma_type_definition_statement_starts_with_keyword(tokens);
    lemma_thread_statement_starts_with_keyword(tokens);
    }
    reveal(spec_struct_definition_statement);
    reveal(spec_type_definition_statement);
    reveal(spec_thread_statement);
    reveal(spec_delay_thread_statement);
    reveal(spec_statement_type);
    reveal(spec_statement_type_first);
    reveal(spec_statement_type_second);
}

/// A statement that starts with `WaitThread` is that statement: when it parses, `statement_type`
/// gives it, whatever kinds of statement are tried before it.
#[verifier::rlimit(40)]
pub proof fn lemma_statement_wait_thread_statement<'s>(tokens: TokenList<'s>)
    ensures
        tokens.next_is(TerminalToken::WaitThread) ==> (spec_wait_thread_statement(tokens) matches Ok((t, s))
            ==> spec_statement_type(tokens) == Ok::<(TokenList<'s>, StatementType), crate::error::ParseError>(
            (t, StatementType::WaitThread(s)),
        )),
{
    if tokens.next_is(TerminalToken::WaitThread) {
        lemma_statement_type_first_soft(tokens, TerminalToken::WaitThread);
    lemma_struct_definition_statement_starts_with_keyword(tokens);
    lemma_type_definition_statement_starts_with_keyword(tokens);
    lemma_thread_statement_starts_with_keyword(tokens);
    lemma_delay_thread_statement_starts_with_keyword(tokens);
    }
    reveal(spec_struct_definition_statement);
    reveal(spec_type_definition_statement);
    reveal(spec_thread_statement);
    reveal(spec_delay_thread_statement);
    reveal(spec_wait_thread_statement);
    reveal(spec_statement_type);
    reveal(spec_statement_type_first);
    reveal(spec_statement_type_second);
}

/// A statement that starts with `WaitThreadSolo` is that statement: when it parses, `statement_type`
/// gives it, whatever kinds of statement are tried before it.
#[verifier::rlimit(40)]
pub proof fn lemma_statement_wait_thread_solo_statement<'s>(tokens: TokenList<'s>)
    ensures
        tokens.next_is(TerminalToken::WaitThreadSolo) ==> (spec_wait_thread_solo_statement(tokens) matches Ok((t, s))
            ==> spec_statement_type(tokens) == Ok::<(TokenList<'s>, StatementType), crate::error::ParseError>(
            (t, StatementType::WaitThreadSolo(s)),
        )),
{
    if tokens.next_is(TerminalToken::WaitThreadSolo) {
        lemma_statement_type_first_soft(tokens, TerminalToken::WaitThreadSolo);
    lemma_struct_definition_statement_starts_with_keyword(tokens);
    lemma_type_definition_statement_starts_with_keyword(tokens);
    lemma_thread_statement_starts_with_keyword(tokens);
    lemma_delay_thread_statement_starts_with_keyword(tokens);
    lemma_wait_thread_statement_starts_with_keyword(tokens);
    }
    reveal(spec_struct_definition_statement);
    reveal(spec_type_definition_statement);
    reveal(spec_thread_statement);
    reveal(spec_delay_thread_statement);
    reveal(spec_wait_thread_statement);
    reveal(spec_wait_thread_solo_statement);
    reveal(spec_statement_type);
    reveal(spec_statement_type_first);
    reveal(spec_statement_type_second);
}

/// A statement that starts with `Wait` is that statement: when it parses, `statement_type`
/// gives it, whatever kinds of statement are tried before it.
#[verifier::rlimit(40)]
pub proof fn lemma_statement_wait_statement<'s>(tokens: TokenList<'s>)
    ensures
        tokens.next_is(TerminalToken::Wait) ==> (spec_wait_statement(tokens) matches Ok((t, s))
            ==> spec_statement_type(tokens) == Ok::<(TokenList<'s>, StatementType), crate::error::ParseError>(
            (t, StatementType::Wait(s)),
        )),
{
    if tokens.next_is(TerminalToken::Wait) {
        lemma_statement_type_first_soft(tokens, TerminalToken::Wait);
    lemma_struct_definition_statement_starts_with_keyword(tokens);
    lemma_type_definition_statement_starts_with_keyword(tokens);
    lemma_thread_statement_starts_with_keyword(tokens);
    lemma_delay_thread_statement_starts_with_keyword(tokens);
    lemma_wait_thread_statement_starts_with_keyword(tokens);
    lemma_wait_thread_solo_statement_starts_with_keyword(tokens);
    }
    reveal(spec_struct_definition_statement);
    reveal(spec_type_definition_statement);
    reveal(spec_thread_statement);
    reveal(spec_delay_thread_statement);
    reveal(spec_wait_thread_statement);
    reveal(spec_wait_thread_solo_statement);
    reveal(spec_wait_statement);
    reveal(spec_statement_type);
    reveal(spec_statement_type_first);
    reveal(spec_statement_type_second);
}

/// A statement that starts with `Global` is that statement: when it parses, `statement_type`
/// gives it, whatever kinds of statement are tried before it.
#[verifier::rlimit(40)]
pub proof fn lemma_statement_global_statement<'s>(tokens: TokenList<'s>)
    ensures
        tokens.next_is(TerminalToken::Global) ==> (spec_global_statement(tokens) matches Ok((t, s))
            ==> spec_statement_type(tokens) == Ok::<(TokenList<'s>, StatementType), crate::error::ParseError>(
            (t, StatementType::Global(s)),
        )),
{
    if tokens.next_is(TerminalToken::Global) {
        lemma_statement_type_first_soft(tokens, TerminalToken::Global);
    lemma_struct_definition_statement_starts_with_keyword(tokens);
    lemma_type_definition_statement_starts_with_keyword(tokens);
    lemma_thread_statement_starts_with_keyword(tokens);
    lemma_delay_thread_statement_starts_with_keyword(tokens);
    lemma_wait_thread_statement_starts_with_keyword(tokens);
    lemma_wait_thread_solo_statement_starts_with_keyword(tokens);
    lemma_wait_statement_starts_with_keyword(tokens);
    }
    reveal(spec_struct_definition_statement);
    reveal(spec_type_definition_statement);
    reveal(spec_thread_statement);
    reveal(spec_delay_thread_statement);
    reveal(spec_wait_thread_statement);
    reveal(spec_wait_thread_solo_statement);
    reveal(spec_wait_statement);
    reveal(spec_global_statement);
    reveal(spec_statement_type);
    reveal(spec_statement_type_first);
    reveal(spec_statement_type_second);
}

/// A statement that starts with `GlobalizeAllFunctions` is that statement: when it parses, `statement_type`
/// gives it, whatever kinds of statement are tried before it.
#[verifier::rlimit(40)]
pub proof fn lemma_statement_globalize_all_functions_statement<'s>(tokens: TokenList<'s>)
    ensures
        tokens.next_is(TerminalToken::GlobalizeAllFunctions) ==> (spec_globalize_all_functions_statement(tokens) matches Ok((t, s))
            ==> spec_statement_type(tokens) == Ok::<(TokenList<'s>, StatementType), crate::error::ParseError>(
            (t, StatementType::GlobalizeAllFunctions(s)),
        )),
{
    if tokens.next_is(TerminalToken::GlobalizeAllFunctions) {
        lemma_statement_type_first_soft(tokens, TerminalToken::GlobalizeAllFunctions);
    lemma_struct_definition_statement_starts_with_keyword(tokens);
    lemma_type_definition_statement_starts_with_keyword(tokens);
    lemma_thread_statement_starts_with_keyword(tokens);
    lemma_delay_thread_statement_starts_with_keyword(tokens);
    lemma_wait_thread_statement_starts_with_keyword(tokens);
    lemma_wait_thread_solo_statement_starts_with_keyword(tokens);
    lemma_wait_statement_starts_with_keyword(tokens);
    lemma_global_statement_starts_with_keyword(tokens);
    }
    reveal(spec_struct_definition_statement);
    reveal(spec_type_definition_statement);
    reveal(spec_thread_statement);
    reveal(spec_delay_thread_statement);
    reveal(spec_wait_thread_statement);
    reveal(spec_wait_thread_solo_statement);
    reveal(spec_wait_statement);
    reveal(spec_global_statement);
    reveal(spec_statement_type);
    reveal(spec_statement_type_first);
    reveal(spec_statement_type_second);
}

/// A statement that starts with `Untyped` is that statement: when it parses, `statement_type`
/// gives it, whatever kinds of statement are tried before it.
#[verifier::rlimit(40)]
pub proof fn lemma_statement_untyped_statement<'s>(tokens: TokenList<'s>)
    ensures
        tokens.next_is(TerminalToken::Untyped) ==> (spec_untyped_statement(tokens) matches Ok((t, s))
            ==> spec_statement_type(tokens) == Ok::<(TokenList<'s>, StatementType), crate::error::ParseError>(
            (t, StatementType::Untyped(s)),
        )),
{
    if tokens.next_is(TerminalToken::Untyped) {
        lemma_statement_type_first_soft(tokens, TerminalToken::Untyped);
    lemma_struct_definition_statement_starts_with_keyword(tokens);
    lemma_type_definition_statement_starts_with_keyword(tokens);
    lemma_thread_statement_starts_with_keyword(tokens);
    lemma_delay_thread_statement_starts_with_keyword(tokens);
    lemma_wait_thread_statement_starts_with_keyword(tokens);
    lemma_wait_thread_solo_statement_starts_with_keyword(tokens);
    lemma_wait_statement_starts_with_keyword(tokens);
    lemma_global_statement_starts_with_keyword(tokens);
    lemma_globalize_all_functions_statement_starts_with_keyword(tokens);
    }
    reveal(spec_struct_definition_statement);
    reveal(spec_type_definition_statement);
    reveal(spec_thread_statement);
    reveal(spec_delay_thread_statement);
    reveal(spec_wait_thread_statement);
    reveal(spec_wait_thread_solo_statement);
    reveal(spec_wait_statement);
    reveal(spec_global_statement);
    reveal(spec_statement_type);
    reveal(spec_statement_type_first);
    reveal(spec_statement_type_second);
}

/// A statement that starts with `PreprocessorIf` is that statement: when it parses, `statement_type`
/// gives it, whatever kinds of statement are tried before it.
#[verifier::rlimit(40)]
pub proof fn lemma_statement_preprocessed_if_statement<'s>(tokens: TokenList<'s>)
    ensures
        tokens.next_is(TerminalToken::PreprocessorIf) ==> (spec_preprocessed_if_statement(tokens) matches Ok((t, s))
            ==> spec_statement_type(tokens) == Ok::<(TokenList<'s>, StatementType), crate::error::ParseError>(
            (t, StatementType::Preprocessed(s)),
        )),
{
    if tokens.next_is(TerminalToken::PreprocessorIf) {
        lemma_statement_type_first_soft(tokens, TerminalToken::PreprocessorIf);
    lemma_struct_definition_statement_starts_with_keyword(tokens);
    lemma_type_definition_statement_starts_with_keyword(tokens);
    lemma_thread_statement_starts_with_keyword(tokens);
    lemma_delay_thread_statement_starts_with_keyword(tokens);
    lemma_wait_thread_statement_starts_with_keyword(tokens);
    lemma_wait_thread_solo_statement_starts_with_keyword(tokens);
    lemma_wait_statement_starts_with_keyword(tokens);
    lemma_global_statement_starts_with_keyword(tokens);
    lemma_globalize_all_functions_statement_starts_with_keyword(tokens);
    lemma_untyped_statement_starts_with_keyword(tokens);
    }
    reveal(spec_struct_definition_statement);
    reveal(spec_type_definition_statement);
    reveal(spec_thread_statement);
    reveal(spec_delay_thread_statement);
    reveal(spec_wait_thread_statement);
    reveal(spec_wait_thread_solo_statement);
    reveal(spec_wait_statement);
    reveal(spec_global_statement);
    reveal(spec_preprocessed_if_statement);
    reveal(spec_statement_type);
    reveal(spec_statement_type_first);
    reveal(spec_statement_type_second);
}

/// A statement that starts with `PreprocessorDocument` is that statement: when it parses, `statement_type`
/// gives it, whatever kinds of statement are tried before it.
#[verifier::rlimit(40)]
pub proof fn lemma_statement_preprocessed_documentation_statement<'s>(tokens: TokenList<'s>)
    ensures
        tokens.next_is(TerminalToken::PreprocessorDocument) ==> (spec_preprocessed_documentation_statement(tokens) matches Ok((t, s))
            ==> spec_statement_type(tokens) == Ok::<(TokenList<'s>, StatementType), crate::error::ParseError>(
            (t, StatementType::PreprocessedDocumentation(s)),
        )),
{
    if tokens.next_is(TerminalToken::PreprocessorDocument) {
        lemma_statement_type_first_soft(tokens, TerminalToken::PreprocessorDocument);
    lemma_struct_definition_statement_starts_with_keyword(tokens);
    lemma_type_definition_statement_starts_with_keyword(tokens);
    lemma_thread_statement_starts_with_keyword(tokens);
    lemma_delay_thread_statement_starts_with_keyword(tokens);
    lemma_wait_thread_statement_starts_with_keyword(tokens);
    lemma_wait_thread_solo_statement_starts_with_keyword(tokens);
    lemma_wait_statement_starts_with_keyword(tokens);
    lemma_global_statement_starts_with_keyword(tokens);
    lemma_globalize_all_functions_statement_starts_with_keyword(tokens);
    lemma_untyped_statement_starts_with_keyword(tokens);
    lemma_preprocessed_if_statement_starts_with_keyword(tokens);
    }
    reveal(spec_struct_definition_statement);
    reveal(spec_type_definition_statement);
    reveal(spec_thread_statement);
    reveal(spec_delay_thread_statement);
    reveal(spec_wait_thread_statement);
    reveal(spec_wait_thread_solo_statement);
    reveal(spec_wait_statement);
    reveal(spec_global_statement);
    reveal(spec_preprocessed_if_statement);
    reveal(spec_statement_type);
    reveal(spec_statement_type_first);
    reveal(spec_statement_type_second);
}

/// The kind of a statement, without the semicolon after it. Before a `;` it is an empty
/// statement that reads nothing; an `Empty` token is an empty statement too.
pub fn statement_type<'s>(tokens: TokenList<'s>) -> (r: ParseResult<'s, StatementType>)
    requires
        tokens.wf(),
    ensures
        r == spec_statement_type(tokens),
        moves_on_unless_semicolon(tokens, r),
    decreases tokens.end - tokens.index, 11int,
{
    proof {
        reveal(spec_statement_type);
        reveal(spec_statement_type_first);
        reveal(spec_statement_type_second);
    }
    // Look ahead to allow empty statements.
    if tokens.peek_terminal(TerminalToken::Semicolon) {
        return Ok((tokens, StatementType::Empty(EmptyStatement { empty: None })));
    }
    // An `empty` token can appear at the end of the token list.
    if let Some((t1, empty)) = tokens.empty() {
        return Ok((t1, StatementType::Empty(EmptyStatement { empty: Some(empty) })));
    }
    let r = statement_type_first(tokens);
    let r = if is_soft_err(&r) {
        statement_type_second(tokens)
    } else {
        r
    };
    or_error(
        with_context(r, ContextType::Statement, tokens),
        tokens.error(ParseErrorType::ExpectedStatement),
    )
}

#[verifier::opaque]
pub open spec fn spec_statement_type_first<'s>(tokens: TokenList<'s>) -> ParseResult<'s, StatementType>
    decreases tokens.end - tokens.index, 7int,
{
    // The typed definition comes first, so that a return type is read as one.
    let r = spec_typed_function_or_var_definition_statement(tokens);
    let r = spec_or_try(r, spec_map_val(spec_block_statement(tokens), |s: BlockStatement| StatementType::Block(s)));
    let r = spec_or_try(r, spec_map_val(spec_if_statement(tokens), |s: IfStatement| StatementType::If(s)));
    let r = spec_or_try(r, spec_map_val(spec_while_statement(tokens), |s: WhileStatement| StatementType::While(s)));
    let r = spec_or_try(r, spec_map_val(spec_do_while_statement(tokens), |s: DoWhileStatement| StatementType::DoWhile(s)));
    let r = spec_or_try(r, spec_map_val(spec_switch_statement(tokens), |s: SwitchStatement| StatementType::Switch(s)));
    let r = spec_or_try(r, spec_map_val(spec_for_statement(tokens), |s: ForStatement| StatementType::For(s)));
    let r = spec_or_try(r, spec_map_val(spec_foreach_statement(tokens), |s: ForeachStatement| StatementType::Foreach(s)));
    let r = spec_or_try(r, spec_map_val(spec_try_catch_statement(tokens), |s: TryCatchStatement| StatementType::TryCatch(s)));
    let r = spec_or_try(r, spec_map_val(spec_break_statement(tokens), |s: BreakStatement| StatementType::Break(s)));
    let r = spec_or_try(r, spec_map_val(spec_continue_statement(tokens), |s: ContinueStatement| StatementType::Continue(s)));
    let r = spec_or_try(r, spec_map_val(spec_return_statement(tokens), |s: ReturnStatement| StatementType::Return(s)));
    let r = spec_or_try(r, spec_map_val(spec_yield_statement(tokens), |s: YieldStatement| StatementType::Yield(s)));
    let r = spec_or_try(r, spec_map_val(spec_throw_statement(tokens), |s: ThrowStatement| StatementType::Throw(s)));
    let r = spec_or_try(r, spec_map_val(spec_const_definition_statement(tokens), |s: ConstDefinitionStatement| StatementType::Const(s)));
    let r = spec_or_try(r, spec_map_val(spec_class_definition_statement(tokens), |s: ClassDefinitionStatement| StatementType::ClassDefinition(s)));
    let r = spec_or_try(r, spec_map_val(spec_enum_definition_statement(tokens), |s: EnumDefinitionStatement| StatementType::EnumDefinition(s)));
    spec_or_try(r, spec_void_function_definition_statement(tokens))
}

/// The first alternatives of `statement_type`, in order.
fn statement_type_first<'s>(tokens: TokenList<'s>) -> (r: ParseResult<'s, StatementType>)
    requires
        tokens.wf(),
    ensures
        r == spec_statement_type_first(tokens),
        consumes(tokens, r),
    decreases tokens.end - tokens.index, 7int,
{
    proof {
        reveal(spec_statement_type_first);
        reveal(spec_typed_function_or_var_definition_statement);
        reveal(spec_block_statement);
        reveal(spec_if_statement);
        reveal(spec_while_statement);
        reveal(spec_do_while_statement);
        reveal(spec_switch_statement);
        reveal(spec_for_statement);
        reveal(spec_foreach_statement);
        reveal(spec_try_catch_statement);
        reveal(spec_return_statement);
        reveal(spec_yield_statement);
        reveal(spec_throw_statement);
        reveal(spec_const_definition_statement);
        reveal(spec_class_definition_statement);
        reveal(spec_enum_definition_statement);
        reveal(spec_void_function_definition_statement);
    }
    let r = typed_function_or_var_definition_statement(tokens);
    let r = if is_soft_err(&r) { match block_statement(tokens) { Ok((t, s)) => Ok((t, StatementType::Block(s))), Err(e) => Err(e) } } else { r };
    let r = if is_soft_err(&r) { match if_statement(tokens) { Ok((t, s)) => Ok((t, StatementType::If(s))), Err(e) => Err(e) } } else { r };
    let r = if is_soft_err(&r) { match while_statement(tokens) { Ok((t, s)) => Ok((t, StatementType::While(s))), Err(e) => Err(e) } } else { r };
    let r = if is_soft_err(&r) { match do_while_statement(tokens) { Ok((t, s)) => Ok((t, StatementType::DoWhile(s))), Err(e) => Err(e) } } else { r };
    let r = if is_soft_err(&r) { match switch_statement(tokens) { Ok((t, s)) => Ok((t, StatementType::Switch(s))), Err(e) => Err(e) } } else { r };
    let r = if is_soft_err(&r) { match for_statement(tokens) { Ok((t, s)) => Ok((t, StatementType::For(s))), Err(e) => Err(e) } } else { r };
    let r = if is_soft_err(&r) { match foreach_statement(tokens) { Ok((t, s)) => Ok((t, StatementType::Foreach(s))), Err(e) => Err(e) } } else { r };
    let r = if is_soft_err(&r) { match try_catch_statement(tokens) { Ok((t, s)) => Ok((t, StatementType::TryCatch(s))), Err(e) => Err(e) } } else { r };
    let r = if is_soft_err(&r) { match break_statement(tokens) { Ok((t, s)) => Ok((t, StatementType::Break(s))), Err(e) => Err(e) } } else { r };
    let r = if is_soft_err(&r) { match continue_statement(tokens) { Ok((t, s)) => Ok((t, StatementType::Continue(s))), Err(e) => Err(e) } } else { r };
    let r = if is_soft_err(&r) { match return_statement(tokens) { Ok((t, s)) => Ok((t, StatementType::Return(s))), Err(e) => Err(e) } } else { r };
    let r = if is_soft_err(&r) { match yield_statement(tokens) { Ok((t, s)) => Ok((t, StatementType::Yield(s))), Err(e) => Err(e) } } else { r };
    let r = if is_soft_err(&r) { match throw_statement(tokens) { Ok((t, s)) => Ok((t, StatementType::Throw(s))), Err(e) => Err(e) } } else { r };
    let r = if is_soft_err(&r) { match const_definition_statement(tokens) { Ok((t, s)) => Ok((t, StatementType::Const(s))), Err(e) => Err(e) } } else { r };
    let r = if is_soft_err(&r) { match class_definition_statement(tokens) { Ok((t, s)) => Ok((t, StatementType::ClassDefinition(s))), Err(e) => Err(e) } } else { r };
    let r = if is_soft_err(&r) { match enum_definition_statement(tokens) { Ok((t, s)) => Ok((t, StatementType::EnumDefinition(s))), Err(e) => Err(e) } } else { r };
    if is_soft_err(&r) {
        void_function_definition_statement(tokens)
    } else {
        r
    }
}

#[verifier::opaque]
pub open spec fn spec_statement_type_second<'s>(tokens: TokenList<'s>) -> ParseResult<'s, StatementType>
    decreases tokens.end - tokens.index, 10int,
{
    let r = spec_map_val(spec_struct_definition_statement(tokens), |s: StructDefinitionStatement| StatementType::StructDefinition(s));
    let r = spec_or_try(r, spec_map_val(spec_type_definition_statement(tokens), |s: TypeDefinitionStatement| StatementType::TypeDefinition(s)));
    let r = spec_or_try(r, spec_map_val(spec_thread_statement(tokens), |s: ThreadStatement| StatementType::Thread(s)));
    let r = spec_or_try(r, spec_map_val(spec_delay_thread_statement(tokens), |s: DelayThreadStatement| StatementType::DelayThread(s)));
    let r = spec_or_try(r, spec_map_val(spec_wait_thread_statement(tokens), |s: WaitThreadStatement| StatementType::WaitThread(s)));
    let r = spec_or_try(r, spec_map_val(spec_wait_thread_solo_statement(tokens), |s: WaitThreadSoloStatement| StatementType::WaitThreadSolo(s)));
    let r = spec_or_try(r, spec_map_val(spec_wait_statement(tokens), |s: WaitStatement| StatementType::Wait(s)));
    let r = spec_or_try(r, spec_map_val(spec_global_statement(tokens), |s: GlobalStatement| StatementType::Global(s)));
    let r = spec_or_try(r, spec_map_val(spec_globalize_all_functions_statement(tokens), |s: GlobalizeAllFunctionsStatement| StatementType::GlobalizeAllFunctions(s)));
    let r = spec_or_try(r, spec_map_val(spec_untyped_statement(tokens), |s: UntypedStatement| StatementType::Untyped(s)));
    let r = spec_or_try(r, spec_map_val(spec_preprocessed_if_statement(tokens), |s: Box<PreprocessorIfExpression<List<Statement>>>| StatementType::Preprocessed(s)));
    let r = spec_or_try(r, spec_map_val(spec_preprocessed_documentation_statement(tokens), |s: PreprocessedDocumentation| StatementType::PreprocessedDocumentation(s)));
    spec_or_try(r, spec_map_val(spec_expression_statement(tokens), |s: ExpressionStatement| StatementType::Expression(s)))
}

/// The remaining alternatives of `statement_type`, in order.
fn statement_type_second<'s>(tokens: TokenList<'s>) -> (r: ParseResult<'s, StatementType>)
    requires
        tokens.wf(),
    ensures
        r == spec_statement_type_second(tokens),
        consumes(tokens, r),
    decreases tokens.end - tokens.index, 10int,
{
    proof {
        reveal(spec_statement_type_second);
        reveal(spec_struct_definition_statement);
        reveal(spec_type_definition_statement);
        reveal(spec_thread_statement);
        reveal(spec_delay_thread_statement);
        reveal(spec_wait_thread_statement);
        reveal(spec_wait_thread_solo_statement);
        reveal(spec_wait_statement);
        reveal(spec_global_statement);
        reveal(spec_preprocessed_if_statement);
        reveal(spec_expression_statement);
    }
    let r = match struct_definition_statement(tokens) { Ok((t, s)) => Ok((t, StatementType::StructDefinition(s))), Err(e) => Err(e) };
    let r = if is_soft_err(&r) { match type_definition_statement(tokens) { Ok((t, s)) => Ok((t, StatementType::TypeDefinition(s))), Err(e) => Err(e) } } else { r };
    let r = if is_soft_err(&r) { match thread_statement(tokens) { Ok((t, s)) => Ok((t, StatementType::Thread(s))), Err(e) => Err(e) } } else { r };
    let r = if is_soft_err(&r) { match delay_thread_statement(tokens) { Ok((t, s)) => Ok((t, StatementType::DelayThread(s))), Err(e) => Err(e) } } else { r };
    let r = if is_soft_err(&r) { match wait_thread_statement(tokens) { Ok((t, s)) => Ok((t, StatementType::WaitThread(s))), Err(e) => Err(e) } } else { r };
    let r = if is_soft_err(&r) { match wait_thread_solo_statement(tokens) { Ok((t, s)) => Ok((t, StatementType::WaitThreadSolo(s))), Err(e) => Err(e) } } else { r };
    let r = if is_soft_err(&r) { match wait_statement(tokens) { Ok((t, s)) => Ok((t, StatementType::Wait(s))), Err(e) => Err(e) } } else { r };
    let r = if is_soft_err(&r) { match global_statement(tokens) { Ok((t, s)) => Ok((t, StatementType::Global(s))), Err(e) => Err(e) } } else { r };
    let r = if is_soft_err(&r) { match globalize_all_functions_statement(tokens) { Ok((t, s)) => Ok((t, StatementType::GlobalizeAllFunctions(s))), Err(e) => Err(e) } } else { r };
    let r = if is_soft_err(&r) { match untyped_statement(tokens) { Ok((t, s)) => Ok((t, StatementType::Untyped(s))), Err(e) => Err(e) } } else { r };
    let r = if is_soft_err(&r) { match preprocessed_if_statement(tokens) { Ok((t, s)) => Ok((t, StatementType::Preprocessed(s))), Err(e) => Err(e) } } else { r };
    let r = if is_soft_err(&r) { match preprocessed_documentation_statement(tokens) { Ok((t, s)) => Ok((t, StatementType::PreprocessedDocumentation(s))), Err(e) => Err(e) } } else { r };
    if is_soft_err(&r) {
        match expression_statement(tokens) {
            Ok((t, s)) => Ok((t, StatementType::Expression(s))),
            Err(e) => Err(e),
        }
    } else {
        r
    }
}

} // verus!

verus! {

#[verifier::opaque]
pub open spec fn spec_expression_statement<'s>(tokens: TokenList<'s>) -> ParseResult<'s, ExpressionStatement>
    decreases tokens.end - tokens.index, 9int,
{
    spec_with_context(
        spec_map_val(spec_expression(tokens, Precedence::Lowest), |value: Box<Expression>| ExpressionStatement { value }),
        ContextType::Expression,
        tokens,
    )
}

/// An expression used as a statement.
pub fn expression_statement<'s>(tokens: TokenList<'s>) -> (r: ParseResult<'s, ExpressionStatement>)
    requires
        tokens.wf(),
    ensures
        r == spec_expression_statement(tokens),
        consumes(tokens, r),
    decreases tokens.end - tokens.index, 9int,
{
    proof {
        reveal(spec_expression_statement);
        reveal(spec_expression);
    }
    with_context(
        match expression(tokens, Precedence::Lowest) {
            Ok((t, value)) => Ok((t, ExpressionStatement { value })),
            Err(e) => Err(e),
        },
        ContextType::Expression,
        tokens,
    )
}

#[verifier::opaque]
pub open spec fn spec_statements<'s>(tokens: TokenList<'s>) -> ParseResult<'s, List<Statement>>
    decreases tokens.end - tokens.index, 14int,
{
    match spec_maybe(spec_statement(tokens), tokens) {
        Err(e) => Err(e),
        Ok((t1, None)) => Ok((t1, List::Nil)),
        Ok((t1, Some(s))) => if tokens.advances_to(t1) {
            spec_map_val(spec_statements(t1), |l: List<Statement>| List::Cons(Box::new(s), Box::new(l)))
        } else {
            spec_unreachable(tokens)
        },
    }
}

/// A list of each statement reads every one there is: where it ends, no statement starts.
pub proof fn lemma_statements_read_all<'s>(tokens: TokenList<'s>)
    ensures
        spec_statements(tokens) matches Ok((t, _)) ==> crate::parser::result::is_soft(spec_statement(t)),
    decreases tokens.end - tokens.index,
{
    reveal(spec_statements);
    reveal(spec_statement);
    match crate::parser::result::spec_maybe(spec_statement(tokens), tokens) {
        Ok((t1, Some(_))) => {
            if tokens.advances_to(t1) {
                lemma_statements_read_all(t1);
            }
        },
        _ => {},
    }
}

/// As many statements as there are: the list ends where no statement starts, and fails only
/// on a statement that started and turned out malformed, with a fatal error.
pub fn statements<'s>(tokens: TokenList<'s>) -> (r: ParseResult<'s, List<Statement>>)
    requires
        tokens.wf(),
    ensures
        r == spec_statements(tokens),
        moves_on(tokens, r),
        r matches Err(e) ==> e.is_fatal,
    decreases tokens.end - tokens.index, 14int,
{
    proof {
        reveal(spec_statements);
        reveal(spec_statement);
    }
    let (t1, s) = maybe(statement(tokens), tokens)?;
    match s {
        None => Ok((t1, List::Nil)),
        Some(s) => match statements(t1) {
            Ok((t2, l)) => Ok((t2, List::Cons(Box::new(s), Box::new(l)))),
            Err(e) => Err(e),
        },
    }
}

#[verifier::opaque]
pub open spec fn spec_statements_until_branch<'s>(tokens: TokenList<'s>) -> ParseResult<'s, List<Statement>>
    decreases tokens.end - tokens.index, 14int,
{
    if spec_preprocessed_if_contents_terminal(tokens) {
        Ok((tokens, List::Nil))
    } else {
        match spec_statement(tokens) {
            Err(e) => Err(e),
            Ok((t1, s)) => if tokens.advances_to(t1) {
                spec_map_val(spec_statements_until_branch(t1), |l: List<Statement>| List::Cons(Box::new(s), Box::new(l)))
            } else {
                spec_unreachable(tokens)
            },
        }
    }
}

/// Statements up to the end of a preprocessor branch.
pub fn statements_until_branch<'s>(tokens: TokenList<'s>) -> (r: ParseResult<'s, List<Statement>>)
    requires
        tokens.wf(),
    ensures
        r == spec_statements_until_branch(tokens),
        moves_on(tokens, r),
    decreases tokens.end - tokens.index, 14int,
{
    proof {
        reveal(spec_statements_until_branch);
        reveal(spec_statement);
    }
    if preprocessed_if_contents_terminal(tokens) {
        return Ok((tokens, List::Nil));
    }
    let (t1, s) = statement(tokens)?;
    match statements_until_branch(t1) {
        Ok((t2, l)) => Ok((t2, List::Cons(Box::new(s), Box::new(l)))),
        Err(e) => Err(e),
    }
}

#[verifier::opaque]
pub open spec fn spec_block_statement<'s>(tokens: TokenList<'s>) -> ParseResult<'s, BlockStatement>
    decreases tokens.end - tokens.index, 1int,
{
    match tokens.spec_terminal(TerminalToken::OpenBrace) {
        Err(e) => Err(e),
        Ok((t1, open)) => spec_definite(
            spec_with_context(
                match spec_statements(t1) {
                    Err(e) => Err(e),
                    Ok((t2, statements)) => match t2.spec_terminal(TerminalToken::CloseBrace) {
                        Err(e) => Err(e),
                        Ok((t3, close)) => Ok((t3, BlockStatement { open, statements, close })),
                    },
                },
                ContextType::BlockStatement,
                tokens,
            ),
        ),
    }
}

/// `{ statements }`
pub fn block_statement<'s>(tokens: TokenList<'s>) -> (r: ParseResult<'s, BlockStatement>)
    requires
        tokens.wf(),
    ensures
        r == spec_block_statement(tokens),
        consumes(tokens, r),
    decreases tokens.end - tokens.index, 1int,
{
    proof {
        reveal(spec_block_statement);
        reveal(spec_statements);
    }
    let (t1, open) = tokens.terminal(TerminalToken::OpenBrace)?;
    definite(
        with_context(
            match statements(t1) {
                Err(e) => Err(e),
                Ok((t2, statements)) => match t2.terminal(TerminalToken::CloseBrace) {
                    Err(e) => Err(e),
                    Ok((t3, close)) => Ok((t3, BlockStatement { open, statements, close })),
                },
            },
            ContextType::BlockStatement,
            tokens,
        ),
    )
}

#[verifier::opaque]
pub open spec fn spec_preprocessed_if_statement<'s>(tokens: TokenList<'s>) -> ParseResult<'s, Box<PreprocessorIfExpression<List<Statement>>>>
    decreases tokens.end - tokens.index, 2int,
{
    match spec_preprocessor_if_head(tokens) {
        Err(e) => Err(e),
        Ok((t1, (if_, condition))) => if tokens.advances_to(t1) {
            spec_definite(
                match spec_statements_until_branch(t1) {
                    Err(e) => Err(e),
                    Ok((t2, content)) => if tokens.advances_to(t2) {
                        match spec_maybe(t2.spec_terminal(TerminalToken::PreprocessorElse), t2) {
                            Err(e) => Err(e),
                            Ok((t3, None)) => match t3.spec_terminal(TerminalToken::PreprocessorEndIf) {
                                Err(e) => Err(e),
                                Ok((t4, endif)) => Ok(
                                    (t4, Box::new(PreprocessorIfExpression { if_, condition, content, else_: None, endif })),
                                ),
                            },
                            Ok((t3, Some(else_))) => match spec_statements_until_branch(t3) {
                                Err(e) => Err(e),
                                Ok((t4, else_content)) => match t4.spec_terminal(TerminalToken::PreprocessorEndIf) {
                                    Err(e) => Err(e),
                                    Ok((t5, endif)) => Ok(
                                        (
                                            t5,
                                            Box::new(
                                                PreprocessorIfExpression {
                                                    if_,
                                                    condition,
                                                    content,
                                                    else_: Some(PreprocessorElse { else_, content: else_content }),
                                                    endif,
                                                },
                                            ),
                                        ),
                                    ),
                                },
                            },
                        }
                    } else {
                        spec_unreachable(tokens)
                    },
                },
            )
        } else {
            spec_unreachable(tokens)
        },
    }
}

/// `#if condition statements #else statements #endif`
pub fn preprocessed_if_statement<'s>(tokens: TokenList<'s>) -> (r: ParseResult<'s, Box<PreprocessorIfExpression<List<Statement>>>>)
    requires
        tokens.wf(),
    ensures
        r == spec_preprocessed_if_statement(tokens),
        consumes(tokens, r),
    decreases tokens.end - tokens.index, 2int,
{
    proof {
        reveal(spec_preprocessed_if_statement);
        reveal(spec_preprocessor_if_head);
        reveal(spec_statements_until_branch);
    }
    let (t1, (if_, condition)) = preprocessor_if_head(tokens)?;
    definite(
        match statements_until_branch(t1) {
            Err(e) => Err(e),
            Ok((t2, content)) => match maybe(t2.terminal(TerminalToken::PreprocessorElse), t2) {
                Err(e) => Err(e),
                Ok((t3, None)) => match t3.terminal(TerminalToken::PreprocessorEndIf) {
                    Err(e) => Err(e),
                    Ok((t4, endif)) => Ok(
                        (t4, Box::new(PreprocessorIfExpression { if_, condition, content, else_: None, endif })),
                    ),
                },
                Ok((t3, Some(else_))) => match statements_until_branch(t3) {
                    Err(e) => Err(e),
                    Ok((t4, else_content)) => match t4.terminal(TerminalToken::PreprocessorEndIf) {
                        Err(e) => Err(e),
                        Ok((t5, endif)) => Ok(
                            (
                                t5,
                                Box::new(
                                    PreprocessorIfExpression {
                                        if_,
                                        condition,
                                        content,
                                        else_: Some(PreprocessorElse { else_, content: else_content }),
                                        endif,
                                    },
                                ),
                            ),
                        ),
                    },
                },
            },
        },
    )
}

/// The tokens after an optional class name and its comma in a `#document` statement.
pub open spec fn spec_after_documented_class<'s>(tokens: TokenList<'s>) -> TokenList<'s> {
    match spec_var(tokens) {
        Ok((t1, _)) => match t1.spec_terminal(TerminalToken::Comma) {
            Ok((t2, _)) => t2,
            Err(_) => tokens,
        },
        Err(_) => tokens,
    }
}

pub open spec fn spec_preprocessed_documentation_statement<'s>(tokens: TokenList<'s>) -> ParseResult<'s, PreprocessedDocumentation> {
    match tokens.spec_terminal(TerminalToken::PreprocessorDocument) {
        Err(e) => Err(e),
        Ok((t1, document)) => spec_definite(
            match t1.spec_terminal(TerminalToken::OpenBracket) {
                Err(e) => Err(e),
                Ok((t2, open)) => spec_with_context(
                    match spec_string_literal(spec_after_documented_class(t2)) {
                        Err(e) => Err(e),
                        Ok((t3, property)) => match t3.spec_terminal(TerminalToken::Comma) {
                            Err(e) => Err(e),
                            Ok((t4, seperator)) => match spec_string_literal(t4) {
                                Err(e) => Err(e),
                                Ok((t5, help_text)) => match t5.spec_terminal(TerminalToken::CloseBracket) {
                                    Err(e) => Err(e),
                                    Ok((t6, close)) => Ok(
                                        (t6, PreprocessedDocumentation { document, open, property, seperator, help_text, close }),
                                    ),
                                },
                            },
                        },
                    },
                    ContextType::PreProcessorDocumentationStatement,
                    t1,
                ),
            },
        ),
    }
}

/// `#document(class, "property", "help text")`, where the class may be left out.
pub fn preprocessed_documentation_statement<'s>(tokens: TokenList<'s>) -> (r: ParseResult<'s, PreprocessedDocumentation>)
    requires
        tokens.wf(),
    ensures
        r == spec_preprocessed_documentation_statement(tokens),
        consumes(tokens, r),
{
    let (t1, document) = tokens.terminal(TerminalToken::PreprocessorDocument)?;
    definite(
        match t1.terminal(TerminalToken::OpenBracket) {
            Err(e) => Err(e),
            Ok((t2, open)) => {
                let start = match var(t2) {
                    Ok((n, _)) => match n.terminal(TerminalToken::Comma) {
                        Ok((n2, _)) => n2,
                        Err(_) => t2,
                    },
                    Err(_) => t2,
                };
                with_context(
                    match string_literal(start) {
                        Err(e) => Err(e),
                        Ok((t3, property)) => match t3.terminal(TerminalToken::Comma) {
                            Err(e) => Err(e),
                            Ok((t4, seperator)) => match string_literal(t4) {
                                Err(e) => Err(e),
                                Ok((t5, help_text)) => match t5.terminal(TerminalToken::CloseBracket) {
                                    Err(e) => Err(e),
                                    Ok((t6, close)) => Ok(
                                        (t6, PreprocessedDocumentation { document, open, property, seperator, help_text, close }),
                                    ),
                                },
                            },
                        },
                    },
                    ContextType::PreProcessorDocumentationStatement,
                    t1,
                )
            },
        },
    )
}

/// The spec of a parenthesized condition: `(`, an expression, `)`, with the given context.
#[verifier::opaque]
pub open spec fn spec_condition<'s>(tokens: TokenList<'s>, ctx: ContextType) -> ParseResult<'s, (usize, Box<Expression>, usize)>
    decreases tokens.end - tokens.index, 1int,
{
    match tokens.spec_terminal(TerminalToken::OpenBracket) {
        Err(e) => Err(e),
        Ok((t1, open)) => spec_with_context(
            match spec_expression(t1, Precedence::Lowest) {
                Err(e) => Err(e),
                Ok((t2, condition)) => match t2.spec_terminal(TerminalToken::CloseBracket) {
                    Err(e) => Err(e),
                    Ok((t3, close)) => Ok((t3, (open, condition, close))),
                },
            },
            ctx,
            tokens,
        ),
    }
}

/// `(condition)`
pub fn condition<'s>(tokens: TokenList<'s>, ctx: ContextType) -> (r: ParseResult<'s, (usize, Box<Expression>, usize)>)
    requires
        tokens.wf(),
    ensures
        r == spec_condition(tokens, ctx),
        consumes(tokens, r),
    decreases tokens.end - tokens.index, 1int,
{
    proof {
        reveal(spec_condition);
        reveal(spec_expression);
    }
    let (t1, open) = tokens.terminal(TerminalToken::OpenBracket)?;
    with_context(
        match expression(t1, Precedence::Lowest) {
            Err(e) => Err(e),
            Ok((t2, condition)) => match t2.terminal(TerminalToken::CloseBracket) {
                Err(e) => Err(e),
                Ok((t3, close)) => Ok((t3, (open, condition, close))),
            },
        },
        ctx,
        tokens,
    )
}

#[verifier::opaque]
pub open spec fn spec_if_statement<'s>(tokens: TokenList<'s>) -> ParseResult<'s, IfStatement>
    decreases tokens.end - tokens.index, 2int,
{
    spec_with_context(
        match tokens.spec_terminal(TerminalToken::If) {
            Err(e) => Err(e),
            Ok((t1, if_)) => spec_definite(
                match spec_condition(t1, ContextType::IfStatementCondition) {
                    Err(e) => Err(e),
                    Ok((t2, (open, condition, close))) => if tokens.advances_to(t2) {
                        spec_map_val(
                            spec_if_statement_type(t2),
                            |ty: IfStatementType| IfStatement { if_, open, condition, close, ty },
                        )
                    } else {
                        spec_unreachable(tokens)
                    },
                },
            ),
        },
        ContextType::IfStatement,
        tokens,
    )
}

/// `if (condition) body else body`
pub fn if_statement<'s>(tokens: TokenList<'s>) -> (r: ParseResult<'s, IfStatement>)
    requires
        tokens.wf(),
    ensures
        r == spec_if_statement(tokens),
        consumes(tokens, r),
    decreases tokens.end - tokens.index, 2int,
{
    proof {
        reveal(spec_if_statement);
        reveal(spec_condition);
        reveal(spec_if_statement_type);
    }
    let r = match tokens.terminal(TerminalToken::If) {
        Err(e) => Err(e),
        Ok((t1, if_)) => definite(
            match condition(t1, ContextType::IfStatementCondition) {
                Err(e) => Err(e),
                Ok((t2, (open, condition, close))) => match if_statement_type(t2) {
                    Ok((t3, ty)) => Ok((t3, IfStatement { if_, open, condition, close, ty })),
                    Err(e) => Err(e),
                },
            },
        ),
    };
    with_context(r, ContextType::IfStatement, tokens)
}

#[verifier::opaque]
pub open spec fn spec_loop_body<'s>(tokens: TokenList<'s>) -> ParseResult<'s, StatementType>
    decreases tokens.end - tokens.index, 12int,
{
    spec_replace_context(spec_statement_type(tokens), ContextType::BlockStatement, ContextType::Span, tokens)
}

/// The body of a loop or a `catch`: a statement, whose block context becomes a span.
fn loop_body<'s>(tokens: TokenList<'s>) -> (r: ParseResult<'s, StatementType>)
    requires
        tokens.wf(),
    ensures
        r == spec_loop_body(tokens),
        moves_on(tokens, r),
    decreases tokens.end - tokens.index, 12int,
{
    proof {
        reveal(spec_loop_body);
        reveal(spec_statement_type);
    }
    replace_context(statement_type(tokens), ContextType::BlockStatement, ContextType::Span, tokens)
}

#[verifier::opaque]
pub open spec fn spec_while_statement<'s>(tokens: TokenList<'s>) -> ParseResult<'s, WhileStatement>
    decreases tokens.end - tokens.index, 2int,
{
    spec_with_context(
        match tokens.spec_terminal(TerminalToken::While) {
            Err(e) => Err(e),
            Ok((t1, while_)) => spec_definite(
                match spec_condition(t1, ContextType::WhileStatementCondition) {
                    Err(e) => Err(e),
                    Ok((t2, (open, condition, close))) => if tokens.advances_to(t2) {
                        spec_map_val(
                            spec_loop_body(t2),
                            |body: StatementType| WhileStatement { while_, open, condition, close, body: Box::new(body) },
                        )
                    } else {
                        spec_unreachable(tokens)
                    },
                },
            ),
        },
        ContextType::WhileStatement,
        tokens,
    )
}

/// `while (condition) body`
pub fn while_statement<'s>(tokens: TokenList<'s>) -> (r: ParseResult<'s, WhileStatement>)
    requires
        tokens.wf(),
    ensures
        r == spec_while_statement(tokens),
        consumes(tokens, r),
    decreases tokens.end - tokens.index, 2int,
{
    proof {
        reveal(spec_while_statement);
        reveal(spec_condition);
        reveal(spec_loop_body);
    }
    let r = match tokens.terminal(TerminalToken::While) {
        Err(e) => Err(e),
        Ok((t1, while_)) => definite(
            match condition(t1, ContextType::WhileStatementCondition) {
                Err(e) => Err(e),
                Ok((t2, (open, condition, close))) => match loop_body(t2) {
                    Ok((t3, body)) => Ok((t3, WhileStatement { while_, open, condition, close, body: Box::new(body) })),
                    Err(e) => Err(e),
                },
            },
        ),
    };
    with_context(r, ContextType::WhileStatement, tokens)
}

#[verifier::opaque]
pub open spec fn spec_do_while_statement<'s>(tokens: TokenList<'s>) -> ParseResult<'s, DoWhileStatement>
    decreases tokens.end - tokens.index, 2int,
{
    spec_with_context(
        match tokens.spec_terminal(TerminalToken::Do) {
            Err(e) => Err(e),
            Ok((t1, do_)) => spec_definite(
                match spec_replace_context(spec_inner_statement(t1), ContextType::BlockStatement, ContextType::Span, t1) {
                    Err(e) => Err(e),
                    Ok((t2, body)) => if tokens.advances_to(t2) {
                        match t2.spec_terminal(TerminalToken::While) {
                            Err(e) => Err(e),
                            Ok((t3, while_)) => spec_map_val(
                                spec_condition(t3, ContextType::DoWhileStatementCondition),
                                |c: (usize, Box<Expression>, usize)| DoWhileStatement {
                                    do_,
                                    body: Box::new(body),
                                    while_,
                                    open: c.0,
                                    condition: c.1,
                                    close: c.2,
                                },
                            ),
                        }
                    } else {
                        spec_unreachable(tokens)
                    },
                },
            ),
        },
        ContextType::DoWhileStatement,
        tokens,
    )
}

/// `do body while (condition)`
pub fn do_while_statement<'s>(tokens: TokenList<'s>) -> (r: ParseResult<'s, DoWhileStatement>)
    requires
        tokens.wf(),
    ensures
        r == spec_do_while_statement(tokens),
        consumes(tokens, r),
    decreases tokens.end - tokens.index, 2int,
{
    proof {
        reveal(spec_do_while_statement);
        reveal(spec_inner_statement);
        reveal(spec_condition);
    }
    let r = match tokens.terminal(TerminalToken::Do) {
        Err(e) => Err(e),
        Ok((t1, do_)) => definite(
            match replace_context(inner_statement(t1), ContextType::BlockStatement, ContextType::Span, t1) {
                Err(e) => Err(e),
                Ok((t2, body)) => match t2.terminal(TerminalToken::While) {
                    Err(e) => Err(e),
                    Ok((t3, while_)) => match condition(t3, ContextType::DoWhileStatementCondition) {
                        Ok((t4, (open, condition, close))) => Ok(
                            (t4, DoWhileStatement { do_, body: Box::new(body), while_, open, condition, close }),
                        ),
                        Err(e) => Err(e),
                    },
                },
            },
        ),
    };
    with_context(r, ContextType::DoWhileStatement, tokens)
}

#[verifier::opaque]
pub open spec fn spec_switch_statement<'s>(tokens: TokenList<'s>) -> ParseResult<'s, SwitchStatement>
    decreases tokens.end - tokens.index, 2int,
{
    spec_with_context(
        match tokens.spec_terminal(TerminalToken::Switch) {
            Err(e) => Err(e),
            Ok((t1, switch)) => spec_definite(
                match spec_condition(t1, ContextType::SwitchStatementCondition) {
                    Err(e) => Err(e),
                    Ok((t2, (open_condition, condition, close_condition))) => if tokens.advances_to(t2) {
                        match t2.spec_terminal(TerminalToken::OpenBrace) {
                            Err(e) => Err(e),
                            Ok((t3, open_cases)) => spec_with_context(
                                match spec_switch_cases(t3) {
                                    Err(e) => Err(e),
                                    Ok((t4, cases)) => match t4.spec_terminal(TerminalToken::CloseBrace) {
                                        Err(e) => Err(e),
                                        Ok((t5, close_cases)) => Ok(
                                            (
                                                t5,
                                                SwitchStatement {
                                                    switch,
                                                    open_condition,
                                                    condition,
                                                    close_condition,
                                                    open_cases,
                                                    cases,
                                                    close_cases,
                                                },
                                            ),
                                        ),
                                    },
                                },
                                ContextType::Span,
                                t2,
                            ),
                        }
                    } else {
                        spec_unreachable(tokens)
                    },
                },
            ),
        },
        ContextType::SwitchStatement,
        tokens,
    )
}

/// `switch (condition) { cases }`
pub fn switch_statement<'s>(tokens: TokenList<'s>) -> (r: ParseResult<'s, SwitchStatement>)
    requires
        tokens.wf(),
    ensures
        r == spec_switch_statement(tokens),
        consumes(tokens, r),
    decreases tokens.end - tokens.index, 2int,
{
    proof {
        reveal(spec_switch_statement);
        reveal(spec_condition);
        reveal(spec_switch_cases);
    }
    let r = match tokens.terminal(TerminalToken::Switch) {
        Err(e) => Err(e),
        Ok((t1, switch)) => definite(
            match condition(t1, ContextType::SwitchStatementCondition) {
                Err(e) => Err(e),
                Ok((t2, (open_condition, condition, close_condition))) => match t2.terminal(TerminalToken::OpenBrace) {
                    Err(e) => Err(e),
                    Ok((t3, open_cases)) => with_context(
                        match switch_cases(t3) {
                            Err(e) => Err(e),
                            Ok((t4, cases)) => match t4.terminal(TerminalToken::CloseBrace) {
                                Err(e) => Err(e),
                                Ok((t5, close_cases)) => Ok(
                                    (
                                        t5,
                                        SwitchStatement {
                                            switch,
                                            open_condition,
                                            condition,
                                            close_condition,
                                            open_cases,
                                            cases,
                                            close_cases,
                                        },
                                    ),
                                ),
                            },
                        },
                        ContextType::Span,
                        t2,
                    ),
                },
            },
        ),
    };
    with_context(r, ContextType::SwitchStatement, tokens)
}

} // verus!

verus! {

/// The inside of a `for` head after `(`: initializer, condition and increment.
#[verifier::opaque]
pub open spec fn spec_for_head<'s>(tokens: TokenList<'s>) -> ParseResult<'s, (Option<ForDefinition>, usize, Option<Box<Expression>>, usize, Option<Box<Expression>>)>
    decreases tokens.end - tokens.index, 10int,
{
    match spec_maybe(spec_for_definition(tokens), tokens) {
        Err(e) => Err(e),
        Ok((t1, initializer)) => if tokens.follows(t1) {
            match t1.spec_terminal(TerminalToken::Semicolon) {
                Err(e) => Err(e),
                Ok((t2, semicolon_1)) => match spec_maybe(spec_expression(t2, Precedence::Lowest), t2) {
                    Err(e) => Err(e),
                    Ok((t3, condition)) => if tokens.follows(t3) {
                        match t3.spec_terminal(TerminalToken::Semicolon) {
                            Err(e) => Err(e),
                            Ok((t4, semicolon_2)) => match spec_maybe(spec_expression(t4, Precedence::Lowest), t4) {
                                Err(e) => Err(e),
                                Ok((t5, increment)) => Ok((t5, (initializer, semicolon_1, condition, semicolon_2, increment))),
                            },
                        }
                    } else {
                        spec_unreachable(tokens)
                    },
                },
            }
        } else {
            spec_unreachable(tokens)
        },
    }
}

fn for_head<'s>(tokens: TokenList<'s>) -> (r: ParseResult<'s, (Option<ForDefinition>, usize, Option<Box<Expression>>, usize, Option<Box<Expression>>)>)
    requires
        tokens.wf(),
    ensures
        r == spec_for_head(tokens),
        consumes(tokens, r),
    decreases tokens.end - tokens.index, 10int,
{
    proof {
        reveal(spec_for_head);
        reveal(spec_for_definition);
        reveal(spec_expression);
    }
    let (t1, initializer) = maybe(for_definition(tokens), tokens)?;
    let (t2, semicolon_1) = t1.terminal(TerminalToken::Semicolon)?;
    let (t3, condition) = maybe(expression(t2, Precedence::Lowest), t2)?;
    let (t4, semicolon_2) = t3.terminal(TerminalToken::Semicolon)?;
    let (t5, increment) = maybe(expression(t4, Precedence::Lowest), t4)?;
    Ok((t5, (initializer, semicolon_1, condition, semicolon_2, increment)))
}

#[verifier::opaque]
pub open spec fn spec_for_statement<'s>(tokens: TokenList<'s>) -> ParseResult<'s, ForStatement>
    decreases tokens.end - tokens.index, 2int,
{
    spec_with_context(
        match tokens.spec_terminal(TerminalToken::For) {
            Err(e) => Err(e),
            Ok((t1, for_)) => spec_definite(
                match t1.spec_terminal(TerminalToken::OpenBracket) {
                    Err(e) => Err(e),
                    Ok((t2, open)) => match spec_with_context(
                        match spec_for_head(t2) {
                            Err(e) => Err(e),
                            Ok((t3, head)) => match t3.spec_terminal(TerminalToken::CloseBracket) {
                                Err(e) => Err(e),
                                Ok((t4, close)) => Ok((t4, (head, close))),
                            },
                        },
                        ContextType::ForStatementCondition,
                        t1,
                    ) {
                        Err(e) => Err(e),
                        Ok((t4, (head, close))) => if tokens.advances_to(t4) {
                            spec_map_val(
                                spec_loop_body(t4),
                                |body: StatementType| ForStatement {
                                    for_,
                                    open,
                                    initializer: head.0,
                                    semicolon_1: head.1,
                                    condition: head.2,
                                    semicolon_2: head.3,
                                    increment: head.4,
                                    close,
                                    body: Box::new(body),
                                },
                            )
                        } else {
                            spec_unreachable(tokens)
                        },
                    },
                },
            ),
        },
        ContextType::ForStatement,
        tokens,
    )
}

/// `for (initializer; condition; increment) body`, where each of the three may be left out.
pub fn for_statement<'s>(tokens: TokenList<'s>) -> (r: ParseResult<'s, ForStatement>)
    requires
        tokens.wf(),
    ensures
        r == spec_for_statement(tokens),
        consumes(tokens, r),
    decreases tokens.end - tokens.index, 2int,
{
    proof {
        reveal(spec_for_statement);
        reveal(spec_for_head);
        reveal(spec_loop_body);
    }
    let r = match tokens.terminal(TerminalToken::For) {
        Err(e) => Err(e),
        Ok((t1, for_)) => definite(
            match t1.terminal(TerminalToken::OpenBracket) {
                Err(e) => Err(e),
                Ok((t2, open)) => match with_context(
                    match for_head(t2) {
                        Err(e) => Err(e),
                        Ok((t3, head)) => match t3.terminal(TerminalToken::CloseBracket) {
                            Err(e) => Err(e),
                            Ok((t4, close)) => Ok((t4, (head, close))),
                        },
                    },
                    ContextType::ForStatementCondition,
                    t1,
                ) {
                    Err(e) => Err(e),
                    Ok((t4, ((initializer, semicolon_1, condition, semicolon_2, increment), close))) => match loop_body(t4) {
                        Ok((t5, body)) => Ok(
                            (
                                t5,
                                ForStatement {
                                    for_,
                                    open,
                                    initializer,
                                    semicolon_1,
                                    condition,
                                    semicolon_2,
                                    increment,
                                    close,
                                    body: Box::new(body),
                                },
                            ),
                        ),
                        Err(e) => Err(e),
                    },
                },
            },
        ),
    };
    with_context(r, ContextType::ForStatement, tokens)
}

/// The inside of a `foreach` head after `(`: index, value and the array.
#[verifier::opaque]
pub open spec fn spec_foreach_head<'s>(tokens: TokenList<'s>) -> ParseResult<'s, (Option<ForeachIndex>, (Option<Type>, Identifier, usize), Box<Expression>)>
    decreases tokens.end - tokens.index, 9int,
{
    match spec_maybe(spec_foreach_index(tokens), tokens) {
        Err(e) => Err(e),
        Ok((t1, index)) => if tokens.follows(t1) {
            match spec_foreach_value(t1) {
                Err(e) => Err(e),
                Ok((t2, value)) => if tokens.advances_to(t2) {
                    spec_map_val(
                        spec_expression(t2, Precedence::Lowest),
                        |array: Box<Expression>| (index, value, array),
                    )
                } else {
                    spec_unreachable(tokens)
                },
            }
        } else {
            spec_unreachable(tokens)
        },
    }
}

fn foreach_head<'s>(tokens: TokenList<'s>) -> (r: ParseResult<'s, (Option<ForeachIndex>, (Option<Type>, Identifier, usize), Box<Expression>)>)
    requires
        tokens.wf(),
    ensures
        r == spec_foreach_head(tokens),
        consumes(tokens, r),
    decreases tokens.end - tokens.index, 9int,
{
    proof {
        reveal(spec_foreach_head);
        reveal(spec_foreach_index);
        reveal(spec_foreach_value);
        reveal(spec_expression);
    }
    let (t1, index) = maybe(foreach_index(tokens), tokens)?;
    let (t2, value) = foreach_value(t1)?;
    match expression(t2, Precedence::Lowest) {
        Ok((t3, array)) => Ok((t3, (index, value, array))),
        Err(e) => Err(e),
    }
}

#[verifier::opaque]
pub open spec fn spec_foreach_statement<'s>(tokens: TokenList<'s>) -> ParseResult<'s, ForeachStatement>
    decreases tokens.end - tokens.index, 2int,
{
    spec_with_context(
        match tokens.spec_terminal(TerminalToken::Foreach) {
            Err(e) => Err(e),
            Ok((t1, foreach)) => spec_definite(
                match t1.spec_terminal(TerminalToken::OpenBracket) {
                    Err(e) => Err(e),
                    Ok((t2, open)) => match spec_with_context(
                        match spec_foreach_head(t2) {
                            Err(e) => Err(e),
                            Ok((t3, head)) => match t3.spec_terminal(TerminalToken::CloseBracket) {
                                Err(e) => Err(e),
                                Ok((t4, close)) => Ok((t4, (head, close))),
                            },
                        },
                        ContextType::ForeachStatementCondition,
                        t1,
                    ) {
                        Err(e) => Err(e),
                        Ok((t4, (head, close))) => if tokens.advances_to(t4) {
                            spec_map_val(
                                spec_loop_body(t4),
                                |body: StatementType| ForeachStatement {
                                    foreach,
                                    open,
                                    index: head.0,
                                    value_type: head.1.0,
                                    value_name: head.1.1,
                                    in_: head.1.2,
                                    array: head.2,
                                    close,
                                    body: Box::new(body),
                                },
                            )
                        } else {
                            spec_unreachable(tokens)
                        },
                    },
                },
            ),
        },
        ContextType::ForeachStatement,
        tokens,
    )
}

/// `foreach (T index, T value in array) body`, where the index and the types may be left
/// out.
pub fn foreach_statement<'s>(tokens: TokenList<'s>) -> (r: ParseResult<'s, ForeachStatement>)
    requires
        tokens.wf(),
    ensures
        r == spec_foreach_statement(tokens),
        consumes(tokens, r),
    decreases tokens.end - tokens.index, 2int,
{
    proof {
        reveal(spec_foreach_statement);
        reveal(spec_foreach_head);
        reveal(spec_loop_body);
    }
    let r = match tokens.terminal(TerminalToken::Foreach) {
        Err(e) => Err(e),
        Ok((t1, foreach)) => definite(
            match t1.terminal(TerminalToken::OpenBracket) {
                Err(e) => Err(e),
                Ok((t2, open)) => match with_context(
                    match foreach_head(t2) {
                        Err(e) => Err(e),
                        Ok((t3, head)) => match t3.terminal(TerminalToken::CloseBracket) {
                            Err(e) => Err(e),
                            Ok((t4, close)) => Ok((t4, (head, close))),
                        },
                    },
                    ContextType::ForeachStatementCondition,
                    t1,
                ) {
                    Err(e) => Err(e),
                    Ok((t4, ((index, (value_type, value_name, in_), array), close))) => match loop_body(t4) {
                        Ok((t5, body)) => Ok(
                            (
                                t5,
                                ForeachStatement {
                                    foreach,
                                    open,
                                    index,
                                    value_type,
                                    value_name,
                                    in_,
                                    array,
                                    close,
                                    body: Box::new(body),
                                },
                            ),
                        ),
                        Err(e) => Err(e),
                    },
                },
            },
        ),
    };
    with_context(r, ContextType::ForeachStatement, tokens)
}

#[verifier::opaque]
pub open spec fn spec_try_catch_statement<'s>(tokens: TokenList<'s>) -> ParseResult<'s, TryCatchStatement>
    decreases tokens.end - tokens.index, 2int,
{
    match tokens.spec_terminal(TerminalToken::Try) {
        Err(e) => Err(e),
        Ok((t1, try_)) => spec_definite(
            match spec_replace_context(spec_inner_statement(t1), ContextType::BlockStatement, ContextType::Span, t1) {
                Err(e) => Err(e),
                Ok((t2, body)) => if tokens.advances_to(t2) {
                    match t2.spec_terminal(TerminalToken::Catch) {
                        Err(e) => Err(e),
                        Ok((t3, catch)) => match t3.spec_terminal(TerminalToken::OpenBracket) {
                            Err(e) => Err(e),
                            Ok((t4, open)) => match spec_with_context(
                                match spec_identifier(t4) {
                                    Err(e) => Err(e),
                                    Ok((t5, catch_name)) => match t5.spec_terminal(TerminalToken::CloseBracket) {
                                        Err(e) => Err(e),
                                        Ok((t6, close)) => Ok((t6, (catch_name, close))),
                                    },
                                },
                                ContextType::TryCatchStatementCatchName,
                                t3,
                            ) {
                                Err(e) => Err(e),
                                Ok((t6, (catch_name, close))) => spec_map_val(
                                    spec_loop_body(t6),
                                    |catch_body: StatementType| TryCatchStatement {
                                        try_,
                                        body: Box::new(body),
                                        catch,
                                        open,
                                        catch_name,
                                        close,
                                        catch_body: Box::new(catch_body),
                                    },
                                ),
                            },
                        },
                    }
                } else {
                    spec_unreachable(tokens)
                },
            },
        ),
    }
}

/// `try body catch (name) body`
pub fn try_catch_statement<'s>(tokens: TokenList<'s>) -> (r: ParseResult<'s, TryCatchStatement>)
    requires
        tokens.wf(),
    ensures
        r == spec_try_catch_statement(tokens),
        consumes(tokens, r),
    decreases tokens.end - tokens.index, 2int,
{
    proof {
        reveal(spec_try_catch_statement);
        reveal(spec_inner_statement);
        reveal(spec_loop_body);
    }
    let (t1, try_) = tokens.terminal(TerminalToken::Try)?;
    definite(
        match replace_context(inner_statement(t1), ContextType::BlockStatement, ContextType::Span, t1) {
            Err(e) => Err(e),
            Ok((t2, body)) => match t2.terminal(TerminalToken::Catch) {
                Err(e) => Err(e),
                Ok((t3, catch)) => match t3.terminal(TerminalToken::OpenBracket) {
                    Err(e) => Err(e),
                    Ok((t4, open)) => match with_context(
                        match identifier(t4) {
                            Err(e) => Err(e),
                            Ok((t5, catch_name)) => match t5.terminal(TerminalToken::CloseBracket) {
                                Err(e) => Err(e),
                                Ok((t6, close)) => Ok((t6, (catch_name, close))),
                            },
                        },
                        ContextType::TryCatchStatementCatchName,
                        t3,
                    ) {
                        Err(e) => Err(e),
                        Ok((t6, (catch_name, close))) => match loop_body(t6) {
                            Ok((t7, catch_body)) => Ok(
                                (
                                    t7,
                                    TryCatchStatement {
                                        try_,
                                        body: Box::new(body),
                                        catch,
                                        open,
                                        catch_name,
                                        close,
                                        catch_body: Box::new(catch_body),
                                    },
                                ),
                            ),
                            Err(e) => Err(e),
                        },
                    },
                },
            },
        },
    )
}

pub open spec fn spec_break_statement<'s>(tokens: TokenList<'s>) -> ParseResult<'s, BreakStatement> {
    spec_map_val(tokens.spec_terminal(TerminalToken::Break), |break_: usize| BreakStatement { break_ })
}

/// `break`
pub fn break_statement<'s>(tokens: TokenList<'s>) -> (r: ParseResult<'s, BreakStatement>)
    requires
        tokens.wf(),
    ensures
        r == spec_break_statement(tokens),
        consumes(tokens, r),
{
    match tokens.terminal(TerminalToken::Break) {
        Ok((t, break_)) => Ok((t, BreakStatement { break_ })),
        Err(e) => Err(e),
    }
}

pub open spec fn spec_continue_statement<'s>(tokens: TokenList<'s>) -> ParseResult<'s, ContinueStatement> {
    spec_map_val(tokens.spec_terminal(TerminalToken::Continue), |continue_: usize| ContinueStatement { continue_ })
}

/// `continue`
pub fn continue_statement<'s>(tokens: TokenList<'s>) -> (r: ParseResult<'s, ContinueStatement>)
    requires
        tokens.wf(),
    ensures
        r == spec_continue_statement(tokens),
        consumes(tokens, r),
{
    match tokens.terminal(TerminalToken::Continue) {
        Ok((t, continue_)) => Ok((t, ContinueStatement { continue_ })),
        Err(e) => Err(e),
    }
}

/// A value on the same line as the keyword before it, if there is one.
#[verifier::opaque]
pub open spec fn spec_same_line_value<'s>(tokens: TokenList<'s>) -> ParseResult<'s, Option<Box<Expression>>>
    decreases tokens.end - tokens.index, 9int,
{
    if tokens.spec_is_newline() {
        Ok((tokens, None))
    } else {
        spec_maybe(spec_expression(tokens, Precedence::Lowest), tokens)
    }
}

fn same_line_value<'s>(tokens: TokenList<'s>) -> (r: ParseResult<'s, Option<Box<Expression>>>)
    requires
        tokens.wf(),
    ensures
        r == spec_same_line_value(tokens),
        moves_on(tokens, r),
    decreases tokens.end - tokens.index, 9int,
{
    proof {
        reveal(spec_same_line_value);
        reveal(spec_expression);
    }
    if tokens.is_newline() {
        Ok((tokens, None))
    } else {
        maybe(expression(tokens, Precedence::Lowest), tokens)
    }
}

#[verifier::opaque]
pub open spec fn spec_return_statement<'s>(tokens: TokenList<'s>) -> ParseResult<'s, ReturnStatement>
    decreases tokens.end - tokens.index, 1int,
{
    spec_with_context(
        match tokens.spec_terminal(TerminalToken::Return) {
            Err(e) => Err(e),
            Ok((t1, return_)) => spec_definite(
                spec_map_val(spec_same_line_value(t1), |value: Option<Box<Expression>>| ReturnStatement { return_, value }),
            ),
        },
        ContextType::ReturnStatement,
        tokens,
    )
}

/// `return value`; the value may follow only on the same line.
pub fn return_statement<'s>(tokens: TokenList<'s>) -> (r: ParseResult<'s, ReturnStatement>)
    requires
        tokens.wf(),
    ensures
        r == spec_return_statement(tokens),
        consumes(tokens, r),
    decreases tokens.end - tokens.index, 1int,
{
    proof {
        reveal(spec_return_statement);
        reveal(spec_same_line_value);
    }
    let r = match tokens.terminal(TerminalToken::Return) {
        Err(e) => Err(e),
        Ok((t1, return_)) => definite(
            match same_line_value(t1) {
                Ok((t2, value)) => Ok((t2, ReturnStatement { return_, value })),
                Err(e) => Err(e),
            },
        ),
    };
    with_context(r, ContextType::ReturnStatement, tokens)
}

#[verifier::opaque]
pub open spec fn spec_yield_statement<'s>(tokens: TokenList<'s>) -> ParseResult<'s, YieldStatement>
    decreases tokens.end - tokens.index, 1int,
{
    spec_with_context(
        match tokens.spec_terminal(TerminalToken::Yield) {
            Err(e) => Err(e),
            Ok((t1, yield_)) => spec_definite(
                spec_map_val(spec_same_line_value(t1), |value: Option<Box<Expression>>| YieldStatement { yield_, value }),
            ),
        },
        ContextType::YieldStatement,
        tokens,
    )
}

/// `yield value`; the value may follow only on the same line.
pub fn yield_statement<'s>(tokens: TokenList<'s>) -> (r: ParseResult<'s, YieldStatement>)
    requires
        tokens.wf(),
    ensures
        r == spec_yield_statement(tokens),
        consumes(tokens, r),
    decreases tokens.end - tokens.index, 1int,
{
    proof {
        reveal(spec_yield_statement);
        reveal(spec_same_line_value);
    }
    let r = match tokens.terminal(TerminalToken::Yield) {
        Err(e) => Err(e),
        Ok((t1, yield_)) => definite(
            match same_line_value(t1) {
                Ok((t2, value)) => Ok((t2, YieldStatement { yield_, value })),
                Err(e) => Err(e),
            },
        ),
    };
    with_context(r, ContextType::YieldStatement, tokens)
}

/// The spec of a keyword followed by an expression, with the given context.
#[verifier::opaque]
pub open spec fn spec_keyword_value<'s>(tokens: TokenList<'s>, keyword: TerminalToken, ctx: ContextType) -> ParseResult<'s, (usize, Box<Expression>)>
    decreases tokens.end - tokens.index, 1int,
{
    spec_with_context(
        match tokens.spec_terminal(keyword) {
            Err(e) => Err(e),
            Ok((t1, k)) => spec_definite(
                spec_map_val(spec_expression(t1, Precedence::Lowest), |value: Box<Expression>| (k, value)),
            ),
        },
        ctx,
        tokens,
    )
}

/// `keyword value`
fn keyword_value<'s>(tokens: TokenList<'s>, keyword: TerminalToken, ctx: ContextType) -> (r: ParseResult<'s, (usize, Box<Expression>)>)
    requires
        tokens.wf(),
    ensures
        r == spec_keyword_value(tokens, keyword, ctx),
        consumes(tokens, r),
    decreases tokens.end - tokens.index, 1int,
{
    proof {
        reveal(spec_keyword_value);
        reveal(spec_expression);
    }
    let r = match tokens.terminal(keyword) {
        Err(e) => Err(e),
        Ok((t1, k)) => definite(
            match expression(t1, Precedence::Lowest) {
                Ok((t2, value)) => Ok((t2, (k, value))),
                Err(e) => Err(e),
            },
        ),
    };
    with_context(r, ctx, tokens)
}

#[verifier::opaque]
pub open spec fn spec_throw_statement<'s>(tokens: TokenList<'s>) -> ParseResult<'s, ThrowStatement>
    decreases tokens.end - tokens.index, 2int,
{
    spec_map_val(
        spec_keyword_value(tokens, TerminalToken::Throw, ContextType::ThrowStatement),
        |v: (usize, Box<Expression>)| ThrowStatement { throw: v.0, value: v.1 },
    )
}

/// `throw value`
pub fn throw_statement<'s>(tokens: TokenList<'s>) -> (r: ParseResult<'s, ThrowStatement>)
    requires
        tokens.wf(),
    ensures
        r == spec_throw_statement(tokens),
        consumes(tokens, r),
    decreases tokens.end - tokens.index, 2int,
{
    proof {
        reveal(spec_throw_statement);
        reveal(spec_keyword_value);
    }
    match keyword_value(tokens, TerminalToken::Throw, ContextType::ThrowStatement) {
        Ok((t, (throw, value))) => Ok((t, ThrowStatement { throw, value })),
        Err(e) => Err(e),
    }
}

#[verifier::opaque]
pub open spec fn spec_thread_statement<'s>(tokens: TokenList<'s>) -> ParseResult<'s, ThreadStatement>
    decreases tokens.end - tokens.index, 2int,
{
    spec_map_val(
        spec_keyword_value(tokens, TerminalToken::Thread, ContextType::ThreadStatement),
        |v: (usize, Box<Expression>)| ThreadStatement { thread: v.0, value: v.1 },
    )
}

/// `thread value`
pub fn thread_statement<'s>(tokens: TokenList<'s>) -> (r: ParseResult<'s, ThreadStatement>)
    requires
        tokens.wf(),
    ensures
        r == spec_thread_statement(tokens),
        consumes(tokens, r),
    decreases tokens.end - tokens.index, 2int,
{
    proof {
        reveal(spec_thread_statement);
        reveal(spec_keyword_value);
    }
    match keyword_value(tokens, TerminalToken::Thread, ContextType::ThreadStatement) {
        Ok((t, (thread, value))) => Ok((t, ThreadStatement { thread, value })),
        Err(e) => Err(e),
    }
}

#[verifier::opaque]
pub open spec fn spec_wait_thread_statement<'s>(tokens: TokenList<'s>) -> ParseResult<'s, WaitThreadStatement>
    decreases tokens.end - tokens.index, 2int,
{
    spec_map_val(
        spec_keyword_value(tokens, TerminalToken::WaitThread, ContextType::WaitThreadStatement),
        |v: (usize, Box<Expression>)| WaitThreadStatement { wait_thread: v.0, value: v.1 },
    )
}

/// `waitthread value`
pub fn wait_thread_statement<'s>(tokens: TokenList<'s>) -> (r: ParseResult<'s, WaitThreadStatement>)
    requires
        tokens.wf(),
    ensures
        r == spec_wait_thread_statement(tokens),
        consumes(tokens, r),
    decreases tokens.end - tokens.index, 2int,
{
    proof {
        reveal(spec_wait_thread_statement);
        reveal(spec_keyword_value);
    }
    match keyword_value(tokens, TerminalToken::WaitThread, ContextType::WaitThreadStatement) {
        Ok((t, (wait_thread, value))) => Ok((t, WaitThreadStatement { wait_thread, value })),
        Err(e) => Err(e),
    }
}

#[verifier::opaque]
pub open spec fn spec_wait_thread_solo_statement<'s>(tokens: TokenList<'s>) -> ParseResult<'s, WaitThreadSoloStatement>
    decreases tokens.end - tokens.index, 2int,
{
    spec_map_val(
        spec_keyword_value(tokens, TerminalToken::WaitThreadSolo, ContextType::WaitThreadSoloStatement),
        |v: (usize, Box<Expression>)| WaitThreadSoloStatement { wait_thread_solo: v.0, value: v.1 },
    )
}

/// `waitthreadsolo value`
pub fn wait_thread_solo_statement<'s>(tokens: TokenList<'s>) -> (r: ParseResult<'s, WaitThreadSoloStatement>)
    requires
        tokens.wf(),
    ensures
        r == spec_wait_thread_solo_statement(tokens),
        consumes(tokens, r),
    decreases tokens.end - tokens.index, 2int,
{
    proof {
        reveal(spec_wait_thread_solo_statement);
        reveal(spec_keyword_value);
    }
    match keyword_value(tokens, TerminalToken::WaitThreadSolo, ContextType::WaitThreadSoloStatement) {
        Ok((t, (wait_thread_solo, value))) => Ok((t, WaitThreadSoloStatement { wait_thread_solo, value })),
        Err(e) => Err(e),
    }
}

#[verifier::opaque]
pub open spec fn spec_wait_statement<'s>(tokens: TokenList<'s>) -> ParseResult<'s, WaitStatement>
    decreases tokens.end - tokens.index, 2int,
{
    spec_map_val(
        spec_keyword_value(tokens, TerminalToken::Wait, ContextType::WaitStatement),
        |v: (usize, Box<Expression>)| WaitStatement { wait: v.0, value: v.1 },
    )
}

/// `wait value`
pub fn wait_statement<'s>(tokens: TokenList<'s>) -> (r: ParseResult<'s, WaitStatement>)
    requires
        tokens.wf(),
    ensures
        r == spec_wait_statement(tokens),
        consumes(tokens, r),
    decreases tokens.end - tokens.index, 2int,
{
    proof {
        reveal(spec_wait_statement);
        reveal(spec_keyword_value);
    }
    match keyword_value(tokens, TerminalToken::Wait, ContextType::WaitStatement) {
        Ok((t, (wait, value))) => Ok((t, WaitStatement { wait, value })),
        Err(e) => Err(e),
    }
}

#[verifier::opaque]
pub open spec fn spec_delay_thread_statement<'s>(tokens: TokenList<'s>) -> ParseResult<'s, DelayThreadStatement>
    decreases tokens.end - tokens.index, 2int,
{
    spec_with_context(
        match tokens.spec_terminal(TerminalToken::DelayThread) {
            Err(e) => Err(e),
            Ok((t1, delay_thread)) => spec_definite(
                match spec_condition(t1, ContextType::Span) {
                    Err(e) => Err(e),
                    Ok((t2, (open, duration, close))) => if tokens.advances_to(t2) {
                        spec_map_val(
                            spec_expression(t2, Precedence::Lowest),
                            |value: Box<Expression>| DelayThreadStatement { delay_thread, open, duration, close, value },
                        )
                    } else {
                        spec_unreachable(tokens)
                    },
                },
            ),
        },
        ContextType::DelayThreadStatement,
        tokens,
    )
}

/// `delaythread(duration) value`
pub fn delay_thread_statement<'s>(tokens: TokenList<'s>) -> (r: ParseResult<'s, DelayThreadStatement>)
    requires
        tokens.wf(),
    ensures
        r == spec_delay_thread_statement(tokens),
        consumes(tokens, r),
    decreases tokens.end - tokens.index, 2int,
{
    proof {
        reveal(spec_delay_thread_statement);
        reveal(spec_condition);
        reveal(spec_expression);
    }
    let r = match tokens.terminal(TerminalToken::DelayThread) {
        Err(e) => Err(e),
        Ok((t1, delay_thread)) => definite(
            match condition(t1, ContextType::Span) {
                Err(e) => Err(e),
                Ok((t2, (open, duration, close))) => match expression(t2, Precedence::Lowest) {
                    Ok((t3, value)) => Ok((t3, DelayThreadStatement { delay_thread, open, duration, close, value })),
                    Err(e) => Err(e),
                },
            },
        ),
    };
    with_context(r, ContextType::DelayThreadStatement, tokens)
}

#[verifier::opaque]
pub open spec fn spec_global_statement<'s>(tokens: TokenList<'s>) -> ParseResult<'s, GlobalStatement>
    decreases tokens.end - tokens.index, 1int,
{
    spec_with_context(
        match tokens.spec_terminal(TerminalToken::Global) {
            Err(e) => Err(e),
            Ok((t1, global)) => spec_definite(
                spec_map_val(spec_global_definition(t1), |definition: GlobalDefinition| GlobalStatement { global, definition }),
            ),
        },
        ContextType::GlobalStatement,
        tokens,
    )
}

/// `global definition`
pub fn global_statement<'s>(tokens: TokenList<'s>) -> (r: ParseResult<'s, GlobalStatement>)
    requires
        tokens.wf(),
    ensures
        r == spec_global_statement(tokens),
        consumes(tokens, r),
    decreases tokens.end - tokens.index, 1int,
{
    proof {
        reveal(spec_global_statement);
        reveal(spec_global_definition);
    }
    let r = match tokens.terminal(TerminalToken::Global) {
        Err(e) => Err(e),
        Ok((t1, global)) => definite(
            match global_definition(t1) {
                Ok((t2, definition)) => Ok((t2, GlobalStatement { global, definition })),
                Err(e) => Err(e),
            },
        ),
    };
    with_context(r, ContextType::GlobalStatement, tokens)
}

pub open spec fn spec_globalize_all_functions_statement<'s>(tokens: TokenList<'s>) -> ParseResult<'s, GlobalizeAllFunctionsStatement> {
    spec_map_val(
        tokens.spec_terminal(TerminalToken::GlobalizeAllFunctions),
        |globalize_all_functions: usize| GlobalizeAllFunctionsStatement { globalize_all_functions },
    )
}

/// `globalize_all_functions`
pub fn globalize_all_functions_statement<'s>(tokens: TokenList<'s>) -> (r: ParseResult<'s, GlobalizeAllFunctionsStatement>)
    requires
        tokens.wf(),
    ensures
        r == spec_globalize_all_functions_statement(tokens),
        consumes(tokens, r),
{
    match tokens.terminal(TerminalToken::GlobalizeAllFunctions) {
        Ok((t, globalize_all_functions)) => Ok((t, GlobalizeAllFunctionsStatement { globalize_all_functions })),
        Err(e) => Err(e),
    }
}

pub open spec fn spec_untyped_statement<'s>(tokens: TokenList<'s>) -> ParseResult<'s, UntypedStatement> {
    spec_map_val(tokens.spec_terminal(TerminalToken::Untyped), |untyped: usize| UntypedStatement { untyped })
}

/// `untyped`
pub fn untyped_statement<'s>(tokens: TokenList<'s>) -> (r: ParseResult<'s, UntypedStatement>)
    requires
        tokens.wf(),
    ensures
        r == spec_untyped_statement(tokens),
        consumes(tokens, r),
{
    match tokens.terminal(TerminalToken::Untyped) {
        Ok((t, untyped)) => Ok((t, UntypedStatement { untyped })),
        Err(e) => Err(e),
    }
}

} // verus!

verus! {

#[verifier::opaque]
pub open spec fn spec_untyped_const_definition_statement<'s>(tokens: TokenList<'s>, const_: usize) -> ParseResult<'s, ConstDefinitionStatement>
    decreases tokens.end - tokens.index, 1int,
{
    match spec_identifier(tokens) {
        Err(e) => Err(e),
        Ok((t1, name)) => spec_map_val(
            spec_var_initializer(t1),
            |initializer: VarInitializer| ConstDefinitionStatement { const_, const_type: None, name, initializer },
        ),
    }
}

fn untyped_const_definition_statement<'s>(tokens: TokenList<'s>, const_: usize) -> (r: ParseResult<'s, ConstDefinitionStatement>)
    requires
        tokens.wf(),
    ensures
        r == spec_untyped_const_definition_statement(tokens, const_),
        consumes(tokens, r),
    decreases tokens.end - tokens.index, 1int,
{
    proof {
        reveal(spec_untyped_const_definition_statement);
        reveal(spec_var_initializer);
    }
    let (t1, name) = identifier(tokens)?;
    match var_initializer(t1) {
        Ok((t2, initializer)) => Ok((t2, ConstDefinitionStatement { const_, const_type: None, name, initializer })),
        Err(e) => Err(e),
    }
}

#[verifier::opaque]
pub open spec fn spec_typed_const_definition_statement<'s>(tokens: TokenList<'s>, const_: usize) -> ParseResult<'s, ConstDefinitionStatement>
    decreases tokens.end - tokens.index, 6int,
{
    match spec_type_(tokens) {
        Err(e) => Err(e),
        Ok((t1, const_type)) => if tokens.follows(t1) {
            match spec_identifier(t1) {
                Err(e) => Err(e),
                Ok((t2, name)) => spec_map_val(
                    spec_var_initializer(t2),
                    |initializer: VarInitializer| ConstDefinitionStatement {
                        const_,
                        const_type: Some(const_type),
                        name,
                        initializer,
                    },
                ),
            }
        } else {
            spec_unreachable(tokens)
        },
    }
}

fn typed_const_definition_statement<'s>(tokens: TokenList<'s>, const_: usize) -> (r: ParseResult<'s, ConstDefinitionStatement>)
    requires
        tokens.wf(),
    ensures
        r == spec_typed_const_definition_statement(tokens, const_),
        consumes(tokens, r),
    decreases tokens.end - tokens.index, 6int,
{
    proof {
        reveal(spec_typed_const_definition_statement);
        reveal(spec_type_);
        reveal(spec_var_initializer);
    }
    let (t1, const_type) = type_(tokens)?;
    let (t2, name) = identifier(t1)?;
    match var_initializer(t2) {
        Ok((t3, initializer)) => Ok(
            (t3, ConstDefinitionStatement { const_, const_type: Some(const_type), name, initializer }),
        ),
        Err(e) => Err(e),
    }
}

#[verifier::opaque]
pub open spec fn spec_const_definition_statement<'s>(tokens: TokenList<'s>) -> ParseResult<'s, ConstDefinitionStatement>
    decreases tokens.end - tokens.index, 1int,
{
    spec_with_context(
        match tokens.spec_terminal(TerminalToken::Const) {
            Err(e) => Err(e),
            Ok((t1, const_)) => spec_definite(
                spec_or_try(
                    spec_untyped_const_definition_statement(t1, const_),
                    spec_typed_const_definition_statement(t1, const_),
                ),
            ),
        },
        ContextType::ConstDefinition,
        tokens,
    )
}

/// `const name = value` defines an untyped constant: when `const` is followed by a name and
/// an initializer, the constant has no type, that name and that initializer, and the
/// definition ends where the initializer ends.
pub proof fn lemma_untyped_const<'s>(tokens: TokenList<'s>)
    requires
        tokens.wf(),
        tokens.next_is(TerminalToken::Const),
        tokens.index + 1 < tokens.end,
        tokens.item(tokens.index + 1).token.ty is Identifier,
    ensures
        spec_var_initializer(tokens.at(tokens.index + 2)) matches Ok((t, initializer))
            ==> spec_const_definition_statement(tokens) == Ok::<
            (TokenList<'s>, ConstDefinitionStatement),
            crate::error::ParseError,
        >(
            (
                t,
                ConstDefinitionStatement {
                    const_: tokens.index,
                    const_type: None,
                    name: Identifier { token: (tokens.index + 1) as usize },
                    initializer,
                },
            ),
        ),
{
    reveal(spec_const_definition_statement);
    reveal(spec_untyped_const_definition_statement);
    reveal(spec_typed_const_definition_statement);
    reveal(spec_var_initializer);
    assert(tokens.at(tokens.index + 1).at(tokens.index + 2) == tokens.at(tokens.index + 2));
}

/// `const name = value` or `const T name = value`
pub fn const_definition_statement<'s>(tokens: TokenList<'s>) -> (r: ParseResult<'s, ConstDefinitionStatement>)
    requires
        tokens.wf(),
    ensures
        r == spec_const_definition_statement(tokens),
        consumes(tokens, r),
    decreases tokens.end - tokens.index, 1int,
{
    proof {
        reveal(spec_const_definition_statement);
        reveal(spec_untyped_const_definition_statement);
        reveal(spec_typed_const_definition_statement);
    }
    let r = match tokens.terminal(TerminalToken::Const) {
        Err(e) => Err(e),
        Ok((t1, const_)) => {
            let r = untyped_const_definition_statement(t1, const_);
            definite(
                if is_soft_err(&r) {
                    typed_const_definition_statement(t1, const_)
                } else {
                    r
                },
            )
        },
    };
    with_context(r, ContextType::ConstDefinition, tokens)
}

#[verifier::opaque]
pub open spec fn spec_class_definition_statement<'s>(tokens: TokenList<'s>) -> ParseResult<'s, ClassDefinitionStatement>
    decreases tokens.end - tokens.index, 1int,
{
    spec_with_context(
        match tokens.spec_terminal(TerminalToken::Class) {
            Err(e) => Err(e),
            Ok((t1, class)) => spec_definite(
                match spec_expression(t1, Precedence::Lowest) {
                    Err(e) => Err(e),
                    Ok((t2, name)) => if tokens.advances_to(t2) {
                        spec_map_val(
                            spec_class_definition(t2),
                            |definition: ClassDefinition| ClassDefinitionStatement { class, name, definition },
                        )
                    } else {
                        spec_unreachable(tokens)
                    },
                },
            ),
        },
        ContextType::ClassDefinition,
        tokens,
    )
}

/// `class name definition`
pub fn class_definition_statement<'s>(tokens: TokenList<'s>) -> (r: ParseResult<'s, ClassDefinitionStatement>)
    requires
        tokens.wf(),
    ensures
        r == spec_class_definition_statement(tokens),
        consumes(tokens, r),
    decreases tokens.end - tokens.index, 1int,
{
    proof {
        reveal(spec_class_definition_statement);
        reveal(spec_expression);
        reveal(spec_class_definition);
    }
    let r = match tokens.terminal(TerminalToken::Class) {
        Err(e) => Err(e),
        Ok((t1, class)) => definite(
            match expression(t1, Precedence::Lowest) {
                Err(e) => Err(e),
                Ok((t2, name)) => match class_definition(t2) {
                    Ok((t3, definition)) => Ok((t3, ClassDefinitionStatement { class, name, definition })),
                    Err(e) => Err(e),
                },
            },
        ),
    };
    with_context(r, ContextType::ClassDefinition, tokens)
}

#[verifier::opaque]
pub open spec fn spec_enum_definition_statement<'s>(tokens: TokenList<'s>) -> ParseResult<'s, EnumDefinitionStatement>
    decreases tokens.end - tokens.index, 1int,
{
    spec_with_context(
        match tokens.spec_terminal(TerminalToken::Enum) {
            Err(e) => Err(e),
            Ok((t1, enum_)) => spec_definite(
                match spec_identifier(t1) {
                    Err(e) => Err(e),
                    Ok((t2, name)) => match t2.spec_terminal(TerminalToken::OpenBrace) {
                        Err(e) => Err(e),
                        Ok((t3, open)) => spec_with_context(
                            match spec_enum_entries(t3) {
                                Err(e) => Err(e),
                                Ok((t4, entries)) => match t4.spec_terminal(TerminalToken::CloseBrace) {
                                    Err(e) => Err(e),
                                    Ok((t5, close)) => Ok((t5, EnumDefinitionStatement { enum_, name, open, entries, close })),
                                },
                            },
                            ContextType::Span,
                            t2,
                        ),
                    },
                },
            ),
        },
        ContextType::EnumDefinition,
        tokens,
    )
}

/// `enum name { entries }`
pub fn enum_definition_statement<'s>(tokens: TokenList<'s>) -> (r: ParseResult<'s, EnumDefinitionStatement>)
    requires
        tokens.wf(),
    ensures
        r == spec_enum_definition_statement(tokens),
        consumes(tokens, r),
    decreases tokens.end - tokens.index, 1int,
{
    proof {
        reveal(spec_enum_definition_statement);
        reveal(spec_enum_entries);
    }
    let r = match tokens.terminal(TerminalToken::Enum) {
        Err(e) => Err(e),
        Ok((t1, enum_)) => definite(
            match identifier(t1) {
                Err(e) => Err(e),
                Ok((t2, name)) => match t2.terminal(TerminalToken::OpenBrace) {
                    Err(e) => Err(e),
                    Ok((t3, open)) => with_context(
                        match enum_entries(t3) {
                            Err(e) => Err(e),
                            Ok((t4, entries)) => match t4.terminal(TerminalToken::CloseBrace) {
                                Err(e) => Err(e),
                                Ok((t5, close)) => Ok((t5, EnumDefinitionStatement { enum_, name, open, entries, close })),
                            },
                        },
                        ContextType::Span,
                        t2,
                    ),
                },
            },
        ),
    };
    with_context(r, ContextType::EnumDefinition, tokens)
}

#[verifier::opaque]
pub open spec fn spec_typed_function_or_var_definition_statement<'s>(tokens: TokenList<'s>) -> ParseResult<'s, StatementType>
    decreases tokens.end - tokens.index, 6int,
{
    match spec_not_definite(spec_type_(tokens)) {
        Err(e) => Err(e),
        Ok((t1, ty)) => if tokens.advances_to(t1) {
            match t1.spec_terminal(TerminalToken::Function) {
                Ok((t2, function)) => if !t1.spec_is_newline() {
                    spec_map_val(
                        spec_with_context(
                            spec_typed_function_definition_statement(t2, ty, function),
                            ContextType::FunctionDefinition,
                            tokens,
                        ),
                        |s: FunctionDefinitionStatement| StatementType::FunctionDefinition(s),
                    )
                } else {
                    // A line break between a return type and `function` is not allowed.
                    Err(t1.spec_error(ParseErrorType::IllegalLineBreak))
                },
                // A line break between a variable's type and its name is allowed.
                Err(_) => spec_map_val(
                    spec_with_context(
                        spec_typed_var_definition_statement(t1, ty),
                        ContextType::VarDefinition,
                        tokens,
                    ),
                    |s: VarDefinitionStatement| StatementType::VarDefinition(s),
                ),
            }
        } else {
            spec_unreachable(tokens)
        },
    }
}

/// A function or a variable definition that starts with a type.
pub fn typed_function_or_var_definition_statement<'s>(tokens: TokenList<'s>) -> (r: ParseResult<'s, StatementType>)
    requires
        tokens.wf(),
    ensures
        r == spec_typed_function_or_var_definition_statement(tokens),
        consumes(tokens, r),
    decreases tokens.end - tokens.index, 6int,
{
    proof {
        reveal(spec_typed_function_or_var_definition_statement);
        reveal(spec_type_);
        reveal(spec_typed_function_definition_statement);
        reveal(spec_typed_var_definition_statement);
    }
    let (t1, ty) = not_definite(type_(tokens))?;
    match t1.terminal(TerminalToken::Function) {
        Ok((t2, function)) => if !t1.is_newline() {
            match with_context(
                typed_function_definition_statement(t2, ty, function),
                ContextType::FunctionDefinition,
                tokens,
            ) {
                Ok((t3, s)) => Ok((t3, StatementType::FunctionDefinition(s))),
                Err(e) => Err(e),
            }
        } else {
            Err(t1.error(ParseErrorType::IllegalLineBreak))
        },
        Err(_) => match with_context(
            typed_var_definition_statement(t1, ty),
            ContextType::VarDefinition,
            tokens,
        ) {
            Ok((t3, s)) => Ok((t3, StatementType::VarDefinition(s))),
            Err(e) => Err(e),
        },
    }
}

#[verifier::opaque]
pub open spec fn spec_identifier_path_rest<'s>(tokens: TokenList<'s>, prev: Identifier) -> ParseResult<'s, SeparatedList1<Identifier>>
    decreases tokens.end - tokens.index,
{
    match spec_maybe(tokens.spec_terminal(TerminalToken::Namespace), tokens) {
        Err(e) => Err(e),
        Ok((t1, None)) => Ok((t1, SeparatedList1 { items: List::Nil, last_item: Box::new(prev) })),
        Ok((t1, Some(sep))) => match spec_identifier(t1) {
            Err(e) => Err(e),
            Ok((t2, item)) => match spec_identifier_path_rest(t2, item) {
                Err(e) => Err(e),
                Ok((t3, l)) => Ok(
                    (
                        t3,
                        SeparatedList1 { items: List::Cons(Box::new((prev, sep)), Box::new(l.items)), last_item: l.last_item },
                    ),
                ),
            },
        },
    }
}

/// More names after `prev`, each after a `::`.
fn identifier_path_rest<'s>(tokens: TokenList<'s>, prev: Identifier) -> (r: ParseResult<'s, SeparatedList1<Identifier>>)
    requires
        tokens.wf(),
    ensures
        r == spec_identifier_path_rest(tokens, prev),
        moves_on(tokens, r),
    decreases tokens.end - tokens.index,
{
    proof {
        reveal(spec_identifier_path_rest);
    }
    let (t1, sep) = maybe(tokens.terminal(TerminalToken::Namespace), tokens)?;
    match sep {
        None => Ok((t1, SeparatedList1 { items: List::Nil, last_item: Box::new(prev) })),
        Some(sep) => {
            let (t2, item) = identifier(t1)?;
            let (t3, l) = identifier_path_rest(t2, item)?;
            Ok((t3, SeparatedList1 { items: List::Cons(Box::new((prev, sep)), Box::new(l.items)), last_item: l.last_item }))
        },
    }
}

#[verifier::opaque]
pub open spec fn spec_identifier_path_trailing_rest<'s>(tokens: TokenList<'s>, prev: Identifier) -> ParseResult<'s, SeparatedListTrailing1<Identifier>>
    decreases tokens.end - tokens.index,
{
    match spec_maybe(tokens.spec_terminal(TerminalToken::Namespace), tokens) {
        Err(e) => Err(e),
        Ok((t1, None)) => Ok((t1, SeparatedListTrailing1 { items: List::Nil, last_item: Box::new(prev), trailing: None })),
        Ok((t1, Some(sep))) => match spec_maybe(spec_identifier(t1), t1) {
            Err(e) => Err(e),
            Ok((t2, None)) => Ok((t2, SeparatedListTrailing1 { items: List::Nil, last_item: Box::new(prev), trailing: Some(sep) })),
            Ok((t2, Some(item))) => match spec_identifier_path_trailing_rest(t2, item) {
                Err(e) => Err(e),
                Ok((t3, l)) => Ok(
                    (t3, SeparatedListTrailing1 { items: List::Cons(Box::new((prev, sep)), Box::new(l.items)), ..l }),
                ),
            },
        },
    }
}

/// More names after `prev`, each after a `::`, and maybe a `::` at the end.
fn identifier_path_trailing_rest<'s>(tokens: TokenList<'s>, prev: Identifier) -> (r: ParseResult<'s, SeparatedListTrailing1<Identifier>>)
    requires
        tokens.wf(),
    ensures
        r == spec_identifier_path_trailing_rest(tokens, prev),
        moves_on(tokens, r),
    decreases tokens.end - tokens.index,
{
    proof {
        reveal(spec_identifier_path_trailing_rest);
    }
    let (t1, sep) = maybe(tokens.terminal(TerminalToken::Namespace), tokens)?;
    match sep {
        None => Ok((t1, SeparatedListTrailing1 { items: List::Nil, last_item: Box::new(prev), trailing: None })),
        Some(sep) => {
            let (t2, item) = maybe(identifier(t1), t1)?;
            match item {
                None => Ok((t2, SeparatedListTrailing1 { items: List::Nil, last_item: Box::new(prev), trailing: Some(sep) })),
                Some(item) => {
                    let (t3, l) = identifier_path_trailing_rest(t2, item)?;
                    Ok(
                        (
                            t3,
                            SeparatedListTrailing1 {
                                items: List::Cons(Box::new((prev, sep)), Box::new(l.items)),
                                last_item: l.last_item,
                                trailing: l.trailing,
                            },
                        ),
                    )
                },
            }
        },
    }
}

#[verifier::opaque]
pub open spec fn spec_typed_function_definition_statement<'s>(tokens: TokenList<'s>, return_type: Type, function: usize) -> ParseResult<'s, FunctionDefinitionStatement>
    decreases tokens.end - tokens.index, 1int,
{
    match spec_identifier(tokens) {
        Err(e) => Err(e),
        Ok((t1, first)) => match spec_identifier_path_rest(t1, first) {
            Err(e) => Err(e),
            Ok((t2, name)) => if tokens.advances_to(t2) {
                spec_definite(
                    spec_map_val(
                        spec_function_definition(t2),
                        |definition: FunctionDefinition| FunctionDefinitionStatement {
                            return_type: Some(return_type),
                            function,
                            name,
                            definition: Box::new(definition),
                        },
                    ),
                )
            } else {
                spec_unreachable(tokens)
            },
        },
    }
}

/// The name and definition of a function, after its return type and `function`.
pub fn typed_function_definition_statement<'s>(tokens: TokenList<'s>, return_type: Type, function: usize) -> (r: ParseResult<'s, FunctionDefinitionStatement>)
    requires
        tokens.wf(),
    ensures
        r == spec_typed_function_definition_statement(tokens, return_type, function),
        consumes(tokens, r),
    decreases tokens.end - tokens.index, 1int,
{
    proof {
        reveal(spec_typed_function_definition_statement);
        reveal(spec_identifier_path_rest);
        reveal(spec_function_definition);
    }
    let (t1, first) = identifier(tokens)?;
    let (t2, name) = identifier_path_rest(t1, first)?;
    definite(
        match function_definition(t2) {
            Ok((t3, definition)) => Ok(
                (t3, FunctionDefinitionStatement { return_type: Some(return_type), function, name, definition: Box::new(definition) }),
            ),
            Err(e) => Err(e),
        },
    )
}

#[verifier::opaque]
pub open spec fn spec_var_definitions_rest<'s>(tokens: TokenList<'s>, prev: VarDefinition) -> ParseResult<'s, SeparatedListTrailing1<VarDefinition>>
    decreases tokens.end - tokens.index, 1int,
{
    match spec_maybe(tokens.spec_terminal(TerminalToken::Comma), tokens) {
        Err(e) => Err(e),
        Ok((t1, None)) => Ok((t1, SeparatedListTrailing1 { items: List::Nil, last_item: Box::new(prev), trailing: None })),
        Ok((t1, Some(sep))) => match spec_maybe(spec_var_definition(t1), t1) {
            Err(e) => Err(e),
            Ok((t2, None)) => Ok((t2, SeparatedListTrailing1 { items: List::Nil, last_item: Box::new(prev), trailing: Some(sep) })),
            Ok((t2, Some(item))) => if tokens.advances_to(t2) {
                match spec_var_definitions_rest(t2, item) {
                    Err(e) => Err(e),
                    Ok((t3, l)) => Ok(
                        (t3, SeparatedListTrailing1 { items: List::Cons(Box::new((prev, sep)), Box::new(l.items)), ..l }),
                    ),
                }
            } else {
                spec_unreachable(tokens)
            },
        },
    }
}

/// More variable definitions after `prev`, each after a comma, and maybe a comma at the end.
fn var_definitions_rest<'s>(tokens: TokenList<'s>, prev: VarDefinition) -> (r: ParseResult<'s, SeparatedListTrailing1<VarDefinition>>)
    requires
        tokens.wf(),
    ensures
        r == spec_var_definitions_rest(tokens, prev),
        moves_on(tokens, r),
    decreases tokens.end - tokens.index, 1int,
{
    proof {
        reveal(spec_var_definitions_rest);
        reveal(spec_var_definition);
    }
    let (t1, sep) = maybe(tokens.terminal(TerminalToken::Comma), tokens)?;
    match sep {
        None => Ok((t1, SeparatedListTrailing1 { items: List::Nil, last_item: Box::new(prev), trailing: None })),
        Some(sep) => {
            let (t2, item) = maybe(var_definition(t1), t1)?;
            match item {
                None => Ok((t2, SeparatedListTrailing1 { items: List::Nil, last_item: Box::new(prev), trailing: Some(sep) })),
                Some(item) => {
                    let (t3, l) = var_definitions_rest(t2, item)?;
                    Ok(
                        (
                            t3,
                            SeparatedListTrailing1 {
                                items: List::Cons(Box::new((prev, sep)), Box::new(l.items)),
                                last_item: l.last_item,
                                trailing: l.trailing,
                            },
                        ),
                    )
                },
            }
        },
    }
}

#[verifier::opaque]
pub open spec fn spec_typed_var_definition_statement<'s>(tokens: TokenList<'s>, type_: Type) -> ParseResult<'s, VarDefinitionStatement>
    decreases tokens.end - tokens.index, 1int,
{
    match spec_identifier(tokens) {
        Err(e) => Err(e),
        Ok((t1, name)) => spec_definite(
            match spec_maybe(spec_var_initializer(t1), t1) {
                Err(e) => Err(e),
                Ok((t2, initializer)) => if tokens.advances_to(t2) {
                    spec_map_val(
                        spec_var_definitions_rest(t2, VarDefinition { name, initializer }),
                        |definitions: SeparatedListTrailing1<VarDefinition>| VarDefinitionStatement { type_, definitions },
                    )
                } else {
                    spec_unreachable(tokens)
                },
            },
        ),
    }
}

/// The variables of a definition, after their type: `a = 1, b`.
pub fn typed_var_definition_statement<'s>(tokens: TokenList<'s>, type_: Type) -> (r: ParseResult<'s, VarDefinitionStatement>)
    requires
        tokens.wf(),
    ensures
        r == spec_typed_var_definition_statement(tokens, type_),
        consumes(tokens, r),
    decreases tokens.end - tokens.index, 1int,
{
    proof {
        reveal(spec_typed_var_definition_statement);
        reveal(spec_var_initializer);
        reveal(spec_var_definitions_rest);
    }
    let (t1, name) = identifier(tokens)?;
    definite(
        match maybe(var_initializer(t1), t1) {
            Err(e) => Err(e),
            Ok((t2, initializer)) => match var_definitions_rest(t2, VarDefinition { name, initializer }) {
                Ok((t3, definitions)) => Ok((t3, VarDefinitionStatement { type_, definitions })),
                Err(e) => Err(e),
            },
        },
    )
}

/// The statement for a function definition with a name read as `name`: a constructor when the
/// name ends with `::`, which must then be followed by `constructor`.
#[verifier::opaque]
pub open spec fn spec_void_function_body<'s>(tokens: TokenList<'s>, function: usize, name: SeparatedListTrailing1<Identifier>) -> ParseResult<'s, StatementType>
    decreases tokens.end - tokens.index, 2int,
{
    match name.trailing {
        Some(last_namespace) => match tokens.spec_terminal(TerminalToken::Constructor) {
            Err(e) => Err(e),
            Ok((t1, constructor)) => spec_map_val(
                spec_function_definition(t1),
                |definition: FunctionDefinition| StatementType::ConstructorDefinition(
                    ConstructorDefinitionStatement {
                        function,
                        namespaces: name.items,
                        last_name: *name.last_item,
                        last_namespace,
                        constructor,
                        definition: Box::new(definition),
                    },
                ),
            ),
        },
        None => spec_map_val(
            spec_function_definition(tokens),
            |definition: FunctionDefinition| StatementType::FunctionDefinition(
                FunctionDefinitionStatement {
                    return_type: None,
                    function,
                    name: SeparatedList1 { items: name.items, last_item: name.last_item },
                    definition: Box::new(definition),
                },
            ),
        ),
    }
}

fn void_function_body<'s>(tokens: TokenList<'s>, function: usize, name: SeparatedListTrailing1<Identifier>) -> (r: ParseResult<'s, StatementType>)
    requires
        tokens.wf(),
    ensures
        r == spec_void_function_body(tokens, function, name),
        consumes(tokens, r),
    decreases tokens.end - tokens.index, 2int,
{
    proof {
        reveal(spec_void_function_body);
        reveal(spec_function_definition);
    }
    match name.trailing {
        Some(last_namespace) => {
            let (t1, constructor) = tokens.terminal(TerminalToken::Constructor)?;
            match function_definition(t1) {
                Ok((t2, definition)) => Ok(
                    (
                        t2,
                        StatementType::ConstructorDefinition(
                            ConstructorDefinitionStatement {
                                function,
                                namespaces: name.items,
                                last_name: *name.last_item,
                                last_namespace,
                                constructor,
                                definition: Box::new(definition),
                            },
                        ),
                    ),
                ),
                Err(e) => Err(e),
            }
        },
        None => match function_definition(tokens) {
            Ok((t1, definition)) => Ok(
                (
                    t1,
                    StatementType::FunctionDefinition(
                        FunctionDefinitionStatement {
                            return_type: None,
                            function,
                            name: SeparatedList1 { items: name.items, last_item: name.last_item },
                            definition: Box::new(definition),
                        },
                    ),
                ),
            ),
            Err(e) => Err(e),
        },
    }
}

#[verifier::opaque]
pub open spec fn spec_void_function_definition_statement<'s>(tokens: TokenList<'s>) -> ParseResult<'s, StatementType>
    decreases tokens.end - tokens.index, 3int,
{
    spec_with_context(
        match tokens.spec_terminal(TerminalToken::Function) {
            Err(e) => Err(e),
            Ok((t1, function)) => match spec_identifier(t1) {
                Err(e) => Err(e),
                Ok((t2, first_name)) => spec_definite(
                    match spec_identifier_path_trailing_rest(t2, first_name) {
                        Err(e) => Err(e),
                        Ok((t3, name)) => if tokens.advances_to(t3) {
                            spec_void_function_body(t3, function, name)
                        } else {
                            spec_unreachable(tokens)
                        },
                    },
                ),
            },
        },
        ContextType::FunctionDefinition,
        tokens,
    )
}

/// `function a::b(params) body`, or `function a::b::constructor(params) body` for a
/// constructor defined out of its class.
pub fn void_function_definition_statement<'s>(tokens: TokenList<'s>) -> (r: ParseResult<'s, StatementType>)
    requires
        tokens.wf(),
    ensures
        r == spec_void_function_definition_statement(tokens),
        consumes(tokens, r),
    decreases tokens.end - tokens.index, 3int,
{
    proof {
        reveal(spec_void_function_definition_statement);
        reveal(spec_identifier_path_trailing_rest);
        reveal(spec_void_function_body);
    }
    let r = match tokens.terminal(TerminalToken::Function) {
        Err(e) => Err(e),
        Ok((t1, function)) => match identifier(t1) {
            Err(e) => Err(e),
            Ok((t2, first_name)) => definite(
                match identifier_path_trailing_rest(t2, first_name) {
                    Err(e) => Err(e),
                    Ok((t3, name)) => void_function_body(t3, function, name),
                },
            ),
        },
    };
    with_context(r, ContextType::FunctionDefinition, tokens)
}

#[verifier::opaque]
pub open spec fn spec_struct_definition_statement<'s>(tokens: TokenList<'s>) -> ParseResult<'s, StructDefinitionStatement>
    decreases tokens.end - tokens.index, 1int,
{
    spec_with_context(
        match tokens.spec_terminal(TerminalToken::Struct) {
            Err(e) => Err(e),
            Ok((t1, struct_)) => spec_definite(
                match spec_identifier(t1) {
                    Err(e) => Err(e),
                    Ok((t2, name)) => spec_map_val(
                        spec_struct_definition(t2),
                        |definition: StructDefinition| StructDefinitionStatement { struct_, name, definition },
                    ),
                },
            ),
        },
        ContextType::StructDefinition,
        tokens,
    )
}

/// `struct name { properties }`
pub fn struct_definition_statement<'s>(tokens: TokenList<'s>) -> (r: ParseResult<'s, StructDefinitionStatement>)
    requires
        tokens.wf(),
    ensures
        r == spec_struct_definition_statement(tokens),
        consumes(tokens, r),
    decreases tokens.end - tokens.index, 1int,
{
    proof {
        reveal(spec_struct_definition_statement);
        reveal(spec_struct_definition);
    }
    let r = match tokens.terminal(TerminalToken::Struct) {
        Err(e) => Err(e),
        Ok((t1, struct_)) => definite(
            match identifier(t1) {
                Err(e) => Err(e),
                Ok((t2, name)) => match struct_definition(t2) {
                    Ok((t3, definition)) => Ok((t3, StructDefinitionStatement { struct_, name, definition })),
                    Err(e) => Err(e),
                },
            },
        ),
    };
    with_context(r, ContextType::StructDefinition, tokens)
}

#[verifier::opaque]
pub open spec fn spec_type_definition_statement<'s>(tokens: TokenList<'s>) -> ParseResult<'s, TypeDefinitionStatement>
    decreases tokens.end - tokens.index, 1int,
{
    spec_with_context(
        match tokens.spec_terminal(TerminalToken::Typedef) {
            Err(e) => Err(e),
            Ok((t1, typedef)) => spec_definite(
                match spec_identifier(t1) {
                    Err(e) => Err(e),
                    Ok((t2, name)) => spec_map_val(
                        spec_type_(t2),
                        |type_: Type| TypeDefinitionStatement { typedef, name, type_ },
                    ),
                },
            ),
        },
        ContextType::TypeDefinition,
        tokens,
    )
}

/// `typedef name T`
pub fn type_definition_statement<'s>(tokens: TokenList<'s>) -> (r: ParseResult<'s, TypeDefinitionStatement>)
    requires
        tokens.wf(),
    ensures
        r == spec_type_definition_statement(tokens),
        consumes(tokens, r),
    decreases tokens.end - tokens.index, 1int,
{
    proof {
        reveal(spec_type_definition_statement);
        reveal(spec_type_);
    }
    let r = match tokens.terminal(TerminalToken::Typedef) {
        Err(e) => Err(e),
        Ok((t1, typedef)) => definite(
            match identifier(t1) {
                Err(e) => Err(e),
                Ok((t2, name)) => match type_(t2) {
                    Ok((t3, type_)) => Ok((t3, TypeDefinitionStatement { typedef, name, type_ })),
                    Err(e) => Err(e),
                },
            },
        ),
    };
    with_context(r, ContextType::TypeDefinition, tokens)
}

} // verus!
