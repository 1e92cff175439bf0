//! Expressions: values, and the operators that combine them by precedence.
use crate::ast::{
    ArrayExpression, ClassDefinition, ClassExpression, FunctionDefinition, FunctionExpression, BinaryExpression, BinaryOperator, CallArgument, CallExpression,
    CommaExpression, DelegateExpression, ExpectExpression, Expression, FunctionParam, Identifier,
    IndexExpression, LambdaExpression, List, LiteralExpression, MethodIdentifier,
    ParensExpression, PostfixExpression, PostfixOperator, Precedence, PrefixExpression,
    PrefixOperator, PreprocessorElse, PreprocessorIfExpression, PropertyExpression,
    RootVarExpression, SeparatedList1, TableExpression, TableSlot, TernaryExpression, Type,
    VarExpression, VectorExpression, ArrayValue, Preprocessable,
};
use crate::error::{ContextType, ParseErrorType};
use crate::parser::class::{class_definition, spec_class_definition};
use crate::parser::function::{function_definition, spec_function_definition};
use crate::parser::array::{array_values_until, spec_array_values_until};
use crate::parser::function::{call_arguments, function_params, spec_call_arguments, spec_function_params};
use crate::parser::identifier::{identifier, method_identifier, spec_identifier, spec_method_identifier};
use crate::parser::operator::{
    spec_prefix_kind,
    binary_operator, postfix_operator, prefix_operator, spec_binary_operator,
    spec_postfix_operator, spec_prefix_operator,
};
use crate::parser::preprocessed::{
    StopAt, preprocessor_if_head, spec_preprocessor_if_head,
};
use crate::parser::result::{
    ParseResult, consumes, definite, is_soft, is_soft_err, maybe, moves_on, not_definite, or_error,
    spec_definite, spec_map_val, spec_maybe, spec_not_definite, spec_or_error, spec_or_try,
    spec_unreachable, spec_with_context, with_context, spec_not_line_ending, not_line_ending,
};
use crate::parser::table::{spec_table_slots_until, table_slots_until};
use crate::parser::token_list::TokenList;
use crate::parser::type_::{spec_type_, type_};
use crate::token::{TerminalToken, TokenType};
use vstd::prelude::*;

verus! {

/// What an operator adds to the expression before it.
pub enum OperatorTail {
    /// `.property`
    Property { dot: usize, property: MethodIdentifier },
    /// `? true_value : false_value`
    Ternary { question: usize, true_value: Box<Expression>, separator: usize, false_value: Box<Expression> },
    /// `op right`
    Binary { operator: BinaryOperator, right: Box<Expression> },
    /// `[index]`
    Index { open: usize, index: Box<Expression>, close: usize },
    /// `++` or `--`
    Postfix { operator: PostfixOperator },
    /// `(arguments) { post_initializer }`
    Call { open: usize, arguments: List<CallArgument>, close: usize, post_initializer: Option<TableExpression> },
    /// `, b, c`: the comma after the expression and the values after it.
    Comma { first_comma: usize, values: SeparatedList1<Expression> },
}

pub open spec fn spec_apply_tail(left: Box<Expression>, tail: OperatorTail) -> Box<Expression> {
    Box::new(
        match tail {
            OperatorTail::Property { dot, property } => Expression::Property(
                PropertyExpression { base: left, dot, property },
            ),
            OperatorTail::Ternary { question, true_value, separator, false_value } => Expression::Ternary(
                TernaryExpression { condition: left, question, true_value, separator, false_value },
            ),
            OperatorTail::Binary { operator, right } => Expression::Binary(
                BinaryExpression { left, operator, right },
            ),
            OperatorTail::Index { open, index, close } => Expression::Index(
                IndexExpression { base: left, open, index, close },
            ),
            OperatorTail::Postfix { operator } => Expression::Postfix(
                PostfixExpression { value: left, operator },
            ),
            OperatorTail::Call { open, arguments, close, post_initializer } => Expression::Call(
                CallExpression { function: left, open, arguments, close, post_initializer },
            ),
            OperatorTail::Comma { first_comma, values } => Expression::Comma(
                CommaExpression {
                    values: SeparatedList1 {
                        items: List::Cons(Box::new((*left, first_comma)), Box::new(values.items)),
                        last_item: values.last_item,
                    },
                },
            ),
        },
    )
}

/// The expression `left` with the operator `tail` applied to it.
pub fn apply_tail(left: Box<Expression>, tail: OperatorTail) -> (r: Box<Expression>)
    ensures
        r == spec_apply_tail(left, tail),
{
    Box::new(
        match tail {
            OperatorTail::Property { dot, property } => Expression::Property(
                PropertyExpression { base: left, dot, property },
            ),
            OperatorTail::Ternary { question, true_value, separator, false_value } => Expression::Ternary(
                TernaryExpression { condition: left, question, true_value, separator, false_value },
            ),
            OperatorTail::Binary { operator, right } => Expression::Binary(
                BinaryExpression { left, operator, right },
            ),
            OperatorTail::Index { open, index, close } => Expression::Index(
                IndexExpression { base: left, open, index, close },
            ),
            OperatorTail::Postfix { operator } => Expression::Postfix(
                PostfixExpression { value: left, operator },
            ),
            OperatorTail::Call { open, arguments, close, post_initializer } => Expression::Call(
                CallExpression { function: left, open, arguments, close, post_initializer },
            ),
            OperatorTail::Comma { first_comma, values } => Expression::Comma(
                CommaExpression {
                    values: SeparatedList1 {
                        items: List::Cons(Box::new((*left, first_comma)), Box::new(values.items)),
                        last_item: values.last_item,
                    },
                },
            ),
        },
    )
}

#[verifier::opaque]
pub open spec fn spec_expression<'s>(tokens: TokenList<'s>, precedence: Precedence) -> ParseResult<'s, Box<Expression>>
    decreases tokens.end - tokens.index, 8int,
{
    match spec_value(tokens) {
        Err(e) => Err(e),
        Ok((t1, v)) => if tokens.follows(t1) {
            spec_expression_rest(tokens, t1, precedence, v)
        } else {
            spec_unreachable(tokens)
        },
    }
}

/// An expression whose operators all bind more tightly than `precedence`.
pub fn expression<'s>(tokens: TokenList<'s>, precedence: Precedence) -> (r: ParseResult<'s, Box<Expression>>)
    requires
        tokens.wf(),
    ensures
        r == spec_expression(tokens, precedence),
        consumes(tokens, r),
    decreases tokens.end - tokens.index, 8int,
{
    proof {
        reveal(spec_expression);
        reveal(spec_value);
        reveal(spec_expression_rest);
    }
    let (t1, v) = value(tokens)?;
    expression_rest(tokens, t1, precedence, v)
}

#[verifier::opaque]
pub open spec fn spec_expression_rest<'s>(
    start: TokenList<'s>,
    tokens: TokenList<'s>,
    precedence: Precedence,
    left: Box<Expression>,
) -> ParseResult<'s, Box<Expression>>
    decreases tokens.end - tokens.index, 3int,
{
    match spec_maybe(
        spec_with_context(spec_operator(tokens, precedence), ContextType::Expression, start),
        tokens,
    ) {
        Err(e) => Err(e),
        Ok((t1, None)) => Ok((t1, left)),
        Ok((t1, Some(tail))) => if tokens.advances_to(t1) {
            spec_expression_rest(start, t1, precedence, spec_apply_tail(left, tail))
        } else {
            spec_unreachable(tokens)
        },
    }
}

/// The operators after a value are all read: where the rest of an expression ends, no operator
/// that binds more tightly than `precedence` starts.
pub proof fn lemma_expression_rest_reads_all_operators<'s>(
    start: TokenList<'s>,
    tokens: TokenList<'s>,
    precedence: Precedence,
    left: Box<Expression>,
)
    ensures
        spec_expression_rest(start, tokens, precedence, left) matches Ok((t, _)) ==> is_soft(
            spec_operator(t, precedence),
        ),
    decreases tokens.end - tokens.index,
{
    reveal(spec_expression_rest);
    reveal(spec_operator);
    match spec_maybe(
        spec_with_context(spec_operator(tokens, precedence), ContextType::Expression, start),
        tokens,
    ) {
        Ok((t1, Some(tail))) => {
            if tokens.advances_to(t1) {
                lemma_expression_rest_reads_all_operators(
                    start,
                    t1,
                    precedence,
                    spec_apply_tail(left, tail),
                );
            }
        },
        _ => {},
    }
}

/// An expression reads every operator after its first value that binds more tightly than
/// `precedence`: where it ends, no such operator starts.
pub proof fn lemma_expression_reads_all_operators<'s>(tokens: TokenList<'s>, precedence: Precedence)
    ensures
        spec_expression(tokens, precedence) matches Ok((t, _)) ==> is_soft(spec_operator(t, precedence)),
{
    reveal(spec_expression);
    reveal(spec_value);
    reveal(spec_expression_rest);
    match spec_value(tokens) {
        Ok((t1, v)) => {
            lemma_expression_rest_reads_all_operators(tokens, t1, precedence, v);
        },
        _ => {},
    }
}

/// The operators after `left`, which started at `start`.
fn expression_rest<'s>(
    start: TokenList<'s>,
    tokens: TokenList<'s>,
    precedence: Precedence,
    left: Box<Expression>,
) -> (r: ParseResult<'s, Box<Expression>>)
    requires
        tokens.wf(),
    ensures
        r == spec_expression_rest(start, tokens, precedence, left),
        moves_on(tokens, r),
    decreases tokens.end - tokens.index, 3int,
{
    proof {
        reveal(spec_expression_rest);
        reveal(spec_operator);
    }
    let (t1, tail) = maybe(
        with_context(operator(tokens, precedence), ContextType::Expression, start),
        tokens,
    )?;
    match tail {
        None => Ok((t1, left)),
        Some(tail) => expression_rest(start, t1, precedence, apply_tail(left, tail)),
    }
}

#[verifier::opaque]
pub open spec fn spec_value<'s>(tokens: TokenList<'s>) -> ParseResult<'s, Box<Expression>>
    decreases tokens.end - tokens.index, 7int,
{
    let r = spec_map_val(spec_function(tokens), |v: FunctionExpression| Expression::Function(v));
    let r = spec_or_try(r, spec_map_val(spec_parens(tokens), |v: ParensExpression| Expression::Parens(v)));
    let r = spec_or_try(r, spec_map_val(spec_literal(tokens), |v: LiteralExpression| Expression::Literal(v)));
    let r = spec_or_try(r, spec_map_val(spec_var(tokens), |v: VarExpression| Expression::Var(v)));
    let r = spec_or_try(r, spec_map_val(spec_root_var(tokens), |v: RootVarExpression| Expression::RootVar(v)));
    let r = spec_or_try(r, spec_map_val(spec_table(tokens), |v: TableExpression| Expression::Table(v)));
    let r = spec_or_try(r, spec_map_val(spec_class(tokens), |v: ClassExpression| Expression::Class(v)));
    let r = spec_or_try(r, spec_map_val(spec_array(tokens), |v: ArrayExpression| Expression::Array(v)));
    let r = spec_or_try(r, spec_map_val(spec_vector(tokens), |v: VectorExpression| Expression::Vector(v)));
    let r = spec_or_try(r, spec_map_val(spec_prefix(tokens), |v: PrefixExpression| Expression::Prefix(v)));
    let r = spec_or_try(r, spec_map_val(spec_delegate(tokens), |v: DelegateExpression| Expression::Delegate(v)));
    let r = spec_or_try(r, spec_map_val(spec_expect(tokens), |v: ExpectExpression| Expression::Expect(v)));
    let r = spec_or_try(r, spec_map_val(spec_lambda(tokens), |v: LambdaExpression| Expression::Lambda(v)));
    let r = spec_or_try(
        r,
        spec_map_val(
            spec_preprocessed_if_expression(tokens),
            |v: Box<PreprocessorIfExpression<Box<Expression>>>| Expression::Preprocessed(v),
        ),
    );
    spec_map_val(
        spec_or_error(r, tokens.spec_error(ParseErrorType::ExpectedValue)),
        |v: Expression| Box::new(v),
    )
}

/// A parens value starts with `(`: elsewhere it is a soft error.
pub proof fn lemma_parens_value_starts<'s>(tokens: TokenList<'s>)
    ensures
        !(tokens.next_is(TerminalToken::OpenBracket)) ==> is_soft(spec_parens(tokens)),
{
    reveal(spec_parens);
}

/// A literal value starts with a literal token: elsewhere it is a soft error.
pub proof fn lemma_literal_value_starts<'s>(tokens: TokenList<'s>)
    ensures
        !(tokens.index < tokens.end && tokens.item(tokens.index as int).token.ty is Literal) ==> is_soft(spec_literal(tokens)),
{
}

/// A var value starts with a name: elsewhere it is a soft error.
pub proof fn lemma_var_value_starts<'s>(tokens: TokenList<'s>)
    ensures
        !(tokens.index < tokens.end && tokens.item(tokens.index as int).token.ty is Identifier) ==> is_soft(spec_var(tokens)),
{
}

/// A root var value starts with `::`: elsewhere it is a soft error.
pub proof fn lemma_root_var_value_starts<'s>(tokens: TokenList<'s>)
    ensures
        !(tokens.next_is(TerminalToken::Namespace)) ==> is_soft(spec_root_var(tokens)),
{
}

/// A table value starts with `{`: elsewhere it is a soft error.
pub proof fn lemma_table_value_starts<'s>(tokens: TokenList<'s>)
    ensures
        !(tokens.next_is(TerminalToken::OpenBrace)) ==> is_soft(spec_table(tokens)),
{
    reveal(spec_table);
    reveal(spec_table_delimited);
}

/// A class value starts with `class`: elsewhere it is a soft error.
pub proof fn lemma_class_value_starts<'s>(tokens: TokenList<'s>)
    ensures
        !(tokens.next_is(TerminalToken::Class)) ==> is_soft(spec_class(tokens)),
{
    reveal(spec_class);
}

/// A array value starts with `[`: elsewhere it is a soft error.
pub proof fn lemma_array_value_starts<'s>(tokens: TokenList<'s>)
    ensures
        !(tokens.next_is(TerminalToken::OpenSquare)) ==> is_soft(spec_array(tokens)),
{
    reveal(spec_array);
}

/// A vector value starts with `<`: elsewhere it is a soft error.
pub proof fn lemma_vector_value_starts<'s>(tokens: TokenList<'s>)
    ensures
        !(tokens.next_is(TerminalToken::Less)) ==> is_soft(spec_vector(tokens)),
{
    reveal(spec_vector);
}

/// A prefix value starts with a prefix operator: elsewhere it is a soft error.
pub proof fn lemma_prefix_value_starts<'s>(tokens: TokenList<'s>)
    ensures
        !(tokens.index < tokens.end && tokens.item(tokens.index as int).token.ty is Terminal && spec_prefix_kind(tokens.item(tokens.index as int).token.ty->Terminal_0) is Some) ==> is_soft(spec_prefix(tokens)),
{
    reveal(spec_prefix);
}

/// A delegate value starts with `delegate`: elsewhere it is a soft error.
pub proof fn lemma_delegate_value_starts<'s>(tokens: TokenList<'s>)
    ensures
        !(tokens.next_is(TerminalToken::Delegate)) ==> is_soft(spec_delegate(tokens)),
{
    reveal(spec_delegate);
}

/// A expect value starts with `expect`: elsewhere it is a soft error.
pub proof fn lemma_expect_value_starts<'s>(tokens: TokenList<'s>)
    ensures
        !(tokens.next_is(TerminalToken::Expect)) ==> is_soft(spec_expect(tokens)),
{
    reveal(spec_expect);
}

/// A lambda value starts with `@`: elsewhere it is a soft error.
pub proof fn lemma_lambda_value_starts<'s>(tokens: TokenList<'s>)
    ensures
        !(tokens.next_is(TerminalToken::At)) ==> is_soft(spec_lambda(tokens)),
{
    reveal(spec_lambda);
}

/// A preprocessed value starts with `#if`: elsewhere it is a soft error.
pub proof fn lemma_preprocessed_value_starts<'s>(tokens: TokenList<'s>)
    ensures
        !(tokens.next_is(TerminalToken::PreprocessorIf)) ==> is_soft(spec_preprocessed_if_expression(tokens)),
{
    reveal(spec_preprocessed_if_expression);
    reveal(crate::parser::preprocessed::spec_preprocessor_if_head);
}

/// A function literal does not start where neither a type nor `function` can start.
proof fn lemma_function_value_soft<'s>(tokens: TokenList<'s>)
    requires
        tokens.index < tokens.end,
        !(tokens.item(tokens.index as int).token.ty is Identifier),
        !tokens.next_is(TerminalToken::Local),
        !tokens.next_is(TerminalToken::FunctionRef),
        !tokens.next_is(TerminalToken::Struct),
        !tokens.next_is(TerminalToken::Function),
    ensures
        is_soft(spec_function(tokens)),
{
    reveal(spec_function);
    reveal(spec_type_);
    reveal(crate::parser::type_::spec_base);
    reveal(crate::parser::type_::spec_void_function_ref);
    reveal(crate::parser::type_::spec_function_ref);
    reveal(crate::parser::type_::spec_struct_);
}

/// A value that starts with `(` is that kind of value: when it parses, `value` gives it,
/// whatever kinds of value are tried before it.
#[verifier::rlimit(40)]
pub proof fn lemma_value_parens<'s>(tokens: TokenList<'s>)
    ensures
        tokens.next_is(TerminalToken::OpenBracket) ==> (spec_parens(tokens) matches Ok((t, x)) ==> spec_value(tokens) == Ok::<
            (TokenList<'s>, Box<Expression>),
            crate::error::ParseError,
        >((t, Box::new(Expression::Parens(x))))),
{
    if tokens.next_is(TerminalToken::OpenBracket) {
        lemma_function_value_soft(tokens);
    }
    reveal(spec_function);
    reveal(spec_parens);
    reveal(spec_value);
}

/// A value that starts with a literal token is that kind of value: when it parses, `value` gives it,
/// whatever kinds of value are tried before it.
#[verifier::rlimit(40)]
pub proof fn lemma_value_literal<'s>(tokens: TokenList<'s>)
    ensures
        tokens.index < tokens.end && tokens.item(tokens.index as int).token.ty is Literal ==> (spec_literal(tokens) matches Ok((t, x)) ==> spec_value(tokens) == Ok::<
            (TokenList<'s>, Box<Expression>),
            crate::error::ParseError,
        >((t, Box::new(Expression::Literal(x))))),
{
    if tokens.index < tokens.end && tokens.item(tokens.index as int).token.ty is Literal {
        lemma_function_value_soft(tokens);
        lemma_parens_value_starts(tokens);
    }
    reveal(spec_function);
    reveal(spec_parens);
    reveal(spec_value);
}

/// A value that starts with `::` is that kind of value: when it parses, `value` gives it,
/// whatever kinds of value are tried before it.
#[verifier::rlimit(40)]
pub proof fn lemma_value_root_var<'s>(tokens: TokenList<'s>)
    ensures
        tokens.next_is(TerminalToken::Namespace) ==> (spec_root_var(tokens) matches Ok((t, x)) ==> spec_value(tokens) == Ok::<
            (TokenList<'s>, Box<Expression>),
            crate::error::ParseError,
        >((t, Box::new(Expression::RootVar(x))))),
{
    if tokens.next_is(TerminalToken::Namespace) {
        lemma_function_value_soft(tokens);
        lemma_parens_value_starts(tokens);
        lemma_literal_value_starts(tokens);
        lemma_var_value_starts(tokens);
    }
    reveal(spec_function);
    reveal(spec_parens);
    reveal(spec_value);
}

/// A value that starts with `{` is that kind of value: when it parses, `value` gives it,
/// whatever kinds of value are tried before it.
#[verifier::rlimit(40)]
pub proof fn lemma_value_table<'s>(tokens: TokenList<'s>)
    ensures
        tokens.next_is(TerminalToken::OpenBrace) ==> (spec_table(tokens) matches Ok((t, x)) ==> spec_value(tokens) == Ok::<
            (TokenList<'s>, Box<Expression>),
            crate::error::ParseError,
        >((t, Box::new(Expression::Table(x))))),
{
    if tokens.next_is(TerminalToken::OpenBrace) {
        lemma_function_value_soft(tokens);
        lemma_parens_value_starts(tokens);
        lemma_literal_value_starts(tokens);
        lemma_var_value_starts(tokens);
        lemma_root_var_value_starts(tokens);
    }
    reveal(spec_function);
    reveal(spec_parens);
    reveal(spec_table);
    reveal(spec_value);
}

/// A value that starts with `class` is that kind of value: when it parses, `value` gives it,
/// whatever kinds of value are tried before it.
#[verifier::rlimit(40)]
pub proof fn lemma_value_class<'s>(tokens: TokenList<'s>)
    ensures
        tokens.next_is(TerminalToken::Class) ==> (spec_class(tokens) matches Ok((t, x)) ==> spec_value(tokens) == Ok::<
            (TokenList<'s>, Box<Expression>),
            crate::error::ParseError,
        >((t, Box::new(Expression::Class(x))))),
{
    if tokens.next_is(TerminalToken::Class) {
        lemma_function_value_soft(tokens);
        lemma_parens_value_starts(tokens);
        lemma_literal_value_starts(tokens);
        lemma_var_value_starts(tokens);
        lemma_root_var_value_starts(tokens);
        lemma_table_value_starts(tokens);
    }
    reveal(spec_function);
    reveal(spec_parens);
    reveal(spec_table);
    reveal(spec_class);
    reveal(spec_value);
}

/// A value that starts with `[` is that kind of value: when it parses, `value` gives it,
/// whatever kinds of value are tried before it.
#[verifier::rlimit(40)]
pub proof fn lemma_value_array<'s>(tokens: TokenList<'s>)
    ensures
        tokens.next_is(TerminalToken::OpenSquare) ==> (spec_array(tokens) matches Ok((t, x)) ==> spec_value(tokens) == Ok::<
            (TokenList<'s>, Box<Expression>),
            crate::error::ParseError,
        >((t, Box::new(Expression::Array(x))))),
{
    if tokens.next_is(TerminalToken::OpenSquare) {
        lemma_function_value_soft(tokens);
        lemma_parens_value_starts(tokens);
        lemma_literal_value_starts(tokens);
        lemma_var_value_starts(tokens);
        lemma_root_var_value_starts(tokens);
        lemma_table_value_starts(tokens);
        lemma_class_value_starts(tokens);
    }
    reveal(spec_function);
    reveal(spec_parens);
    reveal(spec_table);
    reveal(spec_class);
    reveal(spec_array);
    reveal(spec_value);
}

/// A value that starts with `<` is that kind of value: when it parses, `value` gives it,
/// whatever kinds of value are tried before it.
#[verifier::rlimit(40)]
pub proof fn lemma_value_vector<'s>(tokens: TokenList<'s>)
    ensures
        tokens.next_is(TerminalToken::Less) ==> (spec_vector(tokens) matches Ok((t, x)) ==> spec_value(tokens) == Ok::<
            (TokenList<'s>, Box<Expression>),
            crate::error::ParseError,
        >((t, Box::new(Expression::Vector(x))))),
{
    if tokens.next_is(TerminalToken::Less) {
        lemma_function_value_soft(tokens);
        lemma_parens_value_starts(tokens);
        lemma_literal_value_starts(tokens);
        lemma_var_value_starts(tokens);
        lemma_root_var_value_starts(tokens);
        lemma_table_value_starts(tokens);
        lemma_class_value_starts(tokens);
        lemma_array_value_starts(tokens);
    }
    reveal(spec_function);
    reveal(spec_parens);
    reveal(spec_table);
    reveal(spec_class);
    reveal(spec_array);
    reveal(spec_vector);
    reveal(spec_value);
}

/// A value that starts with `delegate` is that kind of value: when it parses, `value` gives it,
/// whatever kinds of value are tried before it.
#[verifier::rlimit(40)]
pub proof fn lemma_value_delegate<'s>(tokens: TokenList<'s>)
    ensures
        tokens.next_is(TerminalToken::Delegate) ==> (spec_delegate(tokens) matches Ok((t, x)) ==> spec_value(tokens) == Ok::<
            (TokenList<'s>, Box<Expression>),
            crate::error::ParseError,
        >((t, Box::new(Expression::Delegate(x))))),
{
    if tokens.next_is(TerminalToken::Delegate) {
        lemma_function_value_soft(tokens);
        lemma_parens_value_starts(tokens);
        lemma_literal_value_starts(tokens);
        lemma_var_value_starts(tokens);
        lemma_root_var_value_starts(tokens);
        lemma_table_value_starts(tokens);
        lemma_class_value_starts(tokens);
        lemma_array_value_starts(tokens);
        lemma_vector_value_starts(tokens);
        lemma_prefix_value_starts(tokens);
    }
    reveal(spec_function);
    reveal(spec_parens);
    reveal(spec_table);
    reveal(spec_class);
    reveal(spec_array);
    reveal(spec_vector);
    reveal(spec_prefix);
    reveal(spec_delegate);
    reveal(spec_value);
}

/// A value that starts with `expect` is that kind of value: when it parses, `value` gives it,
/// whatever kinds of value are tried before it.
#[verifier::rlimit(40)]
pub proof fn lemma_value_expect<'s>(tokens: TokenList<'s>)
    ensures
        tokens.next_is(TerminalToken::Expect) ==> (spec_expect(tokens) matches Ok((t, x)) ==> spec_value(tokens) == Ok::<
            (TokenList<'s>, Box<Expression>),
            crate::error::ParseError,
        >((t, Box::new(Expression::Expect(x))))),
{
    if tokens.next_is(TerminalToken::Expect) {
        lemma_function_value_soft(tokens);
        lemma_parens_value_starts(tokens);
        lemma_literal_value_starts(tokens);
        lemma_var_value_starts(tokens);
        lemma_root_var_value_starts(tokens);
        lemma_table_value_starts(tokens);
        lemma_class_value_starts(tokens);
        lemma_array_value_starts(tokens);
        lemma_vector_value_starts(tokens);
        lemma_prefix_value_starts(tokens);
        lemma_delegate_value_starts(tokens);
    }
    reveal(spec_function);
    reveal(spec_parens);
    reveal(spec_table);
    reveal(spec_class);
    reveal(spec_array);
    reveal(spec_vector);
    reveal(spec_prefix);
    reveal(spec_delegate);
    reveal(spec_expect);
    reveal(spec_value);
}

/// A value that starts with `@` is that kind of value: when it parses, `value` gives it,
/// whatever kinds of value are tried before it.
#[verifier::rlimit(40)]
pub proof fn lemma_value_lambda<'s>(tokens: TokenList<'s>)
    ensures
        tokens.next_is(TerminalToken::At) ==> (spec_lambda(tokens) matches Ok((t, x)) ==> spec_value(tokens) == Ok::<
            (TokenList<'s>, Box<Expression>),
            crate::error::ParseError,
        >((t, Box::new(Expression::Lambda(x))))),
{
    if tokens.next_is(TerminalToken::At) {
        lemma_function_value_soft(tokens);
        lemma_parens_value_starts(tokens);
        lemma_literal_value_starts(tokens);
        lemma_var_value_starts(tokens);
        lemma_root_var_value_starts(tokens);
        lemma_table_value_starts(tokens);
        lemma_class_value_starts(tokens);
        lemma_array_value_starts(tokens);
        lemma_vector_value_starts(tokens);
        lemma_prefix_value_starts(tokens);
        lemma_delegate_value_starts(tokens);
        lemma_expect_value_starts(tokens);
    }
    reveal(spec_function);
    reveal(spec_parens);
    reveal(spec_table);
    reveal(spec_class);
    reveal(spec_array);
    reveal(spec_vector);
    reveal(spec_prefix);
    reveal(spec_delegate);
    reveal(spec_expect);
    reveal(spec_lambda);
    reveal(spec_value);
}

/// A value that starts with `#if` is that kind of value: when it parses, `value` gives it,
/// whatever kinds of value are tried before it.
#[verifier::rlimit(40)]
pub proof fn lemma_value_preprocessed<'s>(tokens: TokenList<'s>)
    ensures
        tokens.next_is(TerminalToken::PreprocessorIf) ==> (spec_preprocessed_if_expression(tokens) matches Ok((t, x)) ==> spec_value(tokens) == Ok::<
            (TokenList<'s>, Box<Expression>),
            crate::error::ParseError,
        >((t, Box::new(Expression::Preprocessed(x))))),
{
    if tokens.next_is(TerminalToken::PreprocessorIf) {
        lemma_function_value_soft(tokens);
        lemma_parens_value_starts(tokens);
        lemma_literal_value_starts(tokens);
        lemma_var_value_starts(tokens);
        lemma_root_var_value_starts(tokens);
        lemma_table_value_starts(tokens);
        lemma_class_value_starts(tokens);
        lemma_array_value_starts(tokens);
        lemma_vector_value_starts(tokens);
        lemma_prefix_value_starts(tokens);
        lemma_delegate_value_starts(tokens);
        lemma_expect_value_starts(tokens);
        lemma_lambda_value_starts(tokens);
    }
    reveal(spec_function);
    reveal(spec_parens);
    reveal(spec_table);
    reveal(spec_class);
    reveal(spec_array);
    reveal(spec_vector);
    reveal(spec_prefix);
    reveal(spec_delegate);
    reveal(spec_expect);
    reveal(spec_lambda);
    reveal(spec_preprocessed_if_expression);
    reveal(spec_value);
}

/// A value: an expression with no operator after it.
fn value<'s>(tokens: TokenList<'s>) -> (r: ParseResult<'s, Box<Expression>>)
    requires
        tokens.wf(),
    ensures
        r == spec_value(tokens),
        consumes(tokens, r),
    decreases tokens.end - tokens.index, 7int,
{
    proof {
        reveal(spec_value);
        reveal(spec_function);
        reveal(spec_parens);
        reveal(spec_table);
        reveal(spec_class);
        reveal(spec_array);
        reveal(spec_vector);
        reveal(spec_prefix);
        reveal(spec_delegate);
        reveal(spec_expect);
        reveal(spec_lambda);
        reveal(spec_preprocessed_if_expression);
    }
    let r = match function(tokens) {
        Ok((t, v)) => Ok((t, Expression::Function(v))),
        Err(e) => Err(e),
    };
    let r = if is_soft_err(&r) {
        match parens(tokens) {
            Ok((t, v)) => Ok((t, Expression::Parens(v))),
            Err(e) => Err(e),
        }
    } else {
        r
    };
    let r = if is_soft_err(&r) {
        match literal(tokens) {
            Ok((t, v)) => Ok((t, Expression::Literal(v))),
            Err(e) => Err(e),
        }
    } else {
        r
    };
    let r = if is_soft_err(&r) {
        match var(tokens) {
            Ok((t, v)) => Ok((t, Expression::Var(v))),
            Err(e) => Err(e),
        }
    } else {
        r
    };
    let r = if is_soft_err(&r) {
        match root_var(tokens) {
            Ok((t, v)) => Ok((t, Expression::RootVar(v))),
            Err(e) => Err(e),
        }
    } else {
        r
    };
    let r = if is_soft_err(&r) {
        match table(tokens) {
            Ok((t, v)) => Ok((t, Expression::Table(v))),
            Err(e) => Err(e),
        }
    } else {
        r
    };
    let r = if is_soft_err(&r) {
        match class(tokens) {
            Ok((t, v)) => Ok((t, Expression::Class(v))),
            Err(e) => Err(e),
        }
    } else {
        r
    };
    let r = if is_soft_err(&r) {
        match array(tokens) {
            Ok((t, v)) => Ok((t, Expression::Array(v))),
            Err(e) => Err(e),
        }
    } else {
        r
    };
    let r = if is_soft_err(&r) {
        match vector(tokens) {
            Ok((t, v)) => Ok((t, Expression::Vector(v))),
            Err(e) => Err(e),
        }
    } else {
        r
    };
    let r = if is_soft_err(&r) {
        match prefix(tokens) {
            Ok((t, v)) => Ok((t, Expression::Prefix(v))),
            Err(e) => Err(e),
        }
    } else {
        r
    };
    let r = if is_soft_err(&r) {
        match delegate(tokens) {
            Ok((t, v)) => Ok((t, Expression::Delegate(v))),
            Err(e) => Err(e),
        }
    } else {
        r
    };
    let r = if is_soft_err(&r) {
        match expect(tokens) {
            Ok((t, v)) => Ok((t, Expression::Expect(v))),
            Err(e) => Err(e),
        }
    } else {
        r
    };
    let r = if is_soft_err(&r) {
        match lambda(tokens) {
            Ok((t, v)) => Ok((t, Expression::Lambda(v))),
            Err(e) => Err(e),
        }
    } else {
        r
    };
    let r = if is_soft_err(&r) {
        match preprocessed_if_expression(tokens) {
            Ok((t, v)) => Ok((t, Expression::Preprocessed(v))),
            Err(e) => Err(e),
        }
    } else {
        r
    };
    match or_error(r, tokens.error(ParseErrorType::ExpectedValue)) {
        Ok((t, v)) => Ok((t, Box::new(v))),
        Err(e) => Err(e),
    }
}

#[verifier::opaque]
pub open spec fn spec_preprocessed_if_expression<'s>(tokens: TokenList<'s>) -> ParseResult<'s, Box<PreprocessorIfExpression<Box<Expression>>>>
    decreases tokens.end - tokens.index, 2int,
{
    match spec_preprocessor_if_head(tokens) {
        Err(e) => Err(e),
        Ok((t1, (if_, condition))) => if tokens.advances_to(t1) {
            spec_definite(
                match spec_expression(t1, Precedence::Lowest) {
                    Err(e) => Err(e),
                    Ok((t2, content)) => if tokens.advances_to(t2) {
                        match spec_maybe(t2.spec_terminal(TerminalToken::PreprocessorElse), t2) {
                            Err(e) => Err(e),
                            Ok((t3, None)) => match t3.spec_terminal(TerminalToken::PreprocessorEndIf) {
                                Err(e) => Err(e),
                                Ok((t4, endif)) => Ok(
                                    (
                                        t4,
                                        Box::new(
                                            PreprocessorIfExpression { if_, condition, content, else_: None, endif },
                                        ),
                                    ),
                                ),
                            },
                            Ok((t3, Some(else_))) => match spec_expression(t3, Precedence::Lowest) {
                                Err(e) => Err(e),
                                Ok((t4, else_content)) => match t4.spec_terminal(
                                    TerminalToken::PreprocessorEndIf,
                                ) {
                                    Err(e) => Err(e),
                                    Ok((t5, endif)) => Ok(
                                        (
                                            t5,
                                            Box::new(
                                                PreprocessorIfExpression {
                                                    if_,
                                                    condition,
                                                    content,
                                                    else_: Some(
                                                        PreprocessorElse { else_, content: else_content },
                                                    ),
                                                    endif,
                                                },
                                            ),
                                        ),
                                    ),
                                },
                            },
                        }
                    } else {
                        spec_unreachable(tokens)
                    },
                },
            )
        } else {
            spec_unreachable(tokens)
        },
    }
}

/// `#if condition value #else value #endif`
pub fn preprocessed_if_expression<'s>(tokens: TokenList<'s>) -> (r: ParseResult<'s, Box<PreprocessorIfExpression<Box<Expression>>>>)
    requires
        tokens.wf(),
    ensures
        r == spec_preprocessed_if_expression(tokens),
        consumes(tokens, r),
    decreases tokens.end - tokens.index, 2int,
{
    proof {
        reveal(spec_preprocessed_if_expression);
        reveal(spec_preprocessor_if_head);
        reveal(spec_expression);
    }
    let (t1, (if_, condition)) = preprocessor_if_head(tokens)?;
    definite(
        match expression(t1, Precedence::Lowest) {
            Err(e) => Err(e),
            Ok((t2, content)) => match maybe(t2.terminal(TerminalToken::PreprocessorElse), t2) {
                Err(e) => Err(e),
                Ok((t3, None)) => match t3.terminal(TerminalToken::PreprocessorEndIf) {
                    Err(e) => Err(e),
                    Ok((t4, endif)) => Ok(
                        (t4, Box::new(PreprocessorIfExpression { if_, condition, content, else_: None, endif })),
                    ),
                },
                Ok((t3, Some(else_))) => match expression(t3, Precedence::Lowest) {
                    Err(e) => Err(e),
                    Ok((t4, else_content)) => match t4.terminal(TerminalToken::PreprocessorEndIf) {
                        Err(e) => Err(e),
                        Ok((t5, endif)) => Ok(
                            (
                                t5,
                                Box::new(
                                    PreprocessorIfExpression {
                                        if_,
                                        condition,
                                        content,
                                        else_: Some(PreprocessorElse { else_, content: else_content }),
                                        endif,
                                    },
                                ),
                            ),
                        ),
                    },
                },
            },
        },
    )
}

#[verifier::opaque]
pub open spec fn spec_function<'s>(tokens: TokenList<'s>) -> ParseResult<'s, FunctionExpression>
    decreases tokens.end - tokens.index, 6int,
{
    spec_with_context(
        match spec_maybe(spec_not_line_ending(spec_type_(tokens)), tokens) {
            Err(e) => Err(e),
            Ok((t1, return_type)) => if tokens.follows(t1) {
                match t1.spec_terminal(TerminalToken::Function) {
                    Err(e) => Err(e),
                    Ok((t2, function)) => spec_definite(
                        spec_map_val(
                            spec_function_definition(t2),
                            |d: FunctionDefinition| FunctionExpression { return_type, function, definition: Box::new(d) },
                        ),
                    ),
                }
            } else {
                spec_unreachable(tokens)
            },
        },
        ContextType::FunctionLiteral,
        tokens,
    )
}

/// A function literal: `R function(params) body`, where the return type, if any, stands on
/// the line of `function`.
pub fn function<'s>(tokens: TokenList<'s>) -> (r: ParseResult<'s, FunctionExpression>)
    requires
        tokens.wf(),
    ensures
        r == spec_function(tokens),
        consumes(tokens, r),
    decreases tokens.end - tokens.index, 6int,
{
    proof {
        reveal(spec_function);
        reveal(spec_type_);
        reveal(spec_function_definition);
    }
    let r = match maybe(not_line_ending(type_(tokens)), tokens) {
        Err(e) => Err(e),
        Ok((t1, return_type)) => match t1.terminal(TerminalToken::Function) {
            Err(e) => Err(e),
            Ok((t2, function)) => definite(
                match function_definition(t2) {
                    Ok((t3, d)) => Ok((t3, FunctionExpression { return_type, function, definition: Box::new(d) })),
                    Err(e) => Err(e),
                },
            ),
        },
    };
    with_context(r, ContextType::FunctionLiteral, tokens)
}

#[verifier::opaque]
pub open spec fn spec_class<'s>(tokens: TokenList<'s>) -> ParseResult<'s, ClassExpression>
    decreases tokens.end - tokens.index, 1int,
{
    spec_with_context(
        match tokens.spec_terminal(TerminalToken::Class) {
            Err(e) => Err(e),
            Ok((t1, class)) => spec_definite(
                spec_map_val(spec_class_definition(t1), |definition: ClassDefinition| ClassExpression { class, definition }),
            ),
        },
        ContextType::ClassLiteral,
        tokens,
    )
}

/// A class literal: `class definition`.
pub fn class<'s>(tokens: TokenList<'s>) -> (r: ParseResult<'s, ClassExpression>)
    requires
        tokens.wf(),
    ensures
        r == spec_class(tokens),
        consumes(tokens, r),
    decreases tokens.end - tokens.index, 1int,
{
    proof {
        reveal(spec_class);
        reveal(spec_class_definition);
    }
    let r = match tokens.terminal(TerminalToken::Class) {
        Err(e) => Err(e),
        Ok((t1, class)) => definite(
            match class_definition(t1) {
                Ok((t2, definition)) => Ok((t2, ClassExpression { class, definition })),
                Err(e) => Err(e),
            },
        ),
    };
    with_context(r, ContextType::ClassLiteral, tokens)
}

#[verifier::opaque]
pub open spec fn spec_parens<'s>(tokens: TokenList<'s>) -> ParseResult<'s, ParensExpression>
    decreases tokens.end - tokens.index, 1int,
{
    match tokens.spec_terminal(TerminalToken::OpenBracket) {
        Err(e) => Err(e),
        Ok((t1, open)) => spec_definite(
            spec_with_context(
                match spec_expression(t1, Precedence::Lowest) {
                    Err(e) => Err(e),
                    Ok((t2, value)) => match t2.spec_terminal(TerminalToken::CloseBracket) {
                        Err(e) => Err(e),
                        Ok((t3, close)) => Ok((t3, ParensExpression { open, value, close })),
                    },
                },
                ContextType::Expression,
                tokens,
            ),
        ),
    }
}

/// `(value)`
pub fn parens<'s>(tokens: TokenList<'s>) -> (r: ParseResult<'s, ParensExpression>)
    requires
        tokens.wf(),
    ensures
        r == spec_parens(tokens),
        consumes(tokens, r),
    decreases tokens.end - tokens.index, 1int,
{
    proof {
        reveal(spec_parens);
        reveal(spec_expression);
    }
    let (t1, open) = tokens.terminal(TerminalToken::OpenBracket)?;
    definite(
        with_context(
            match expression(t1, Precedence::Lowest) {
                Err(e) => Err(e),
                Ok((t2, value)) => match t2.terminal(TerminalToken::CloseBracket) {
                    Err(e) => Err(e),
                    Ok((t3, close)) => Ok((t3, ParensExpression { open, value, close })),
                },
            },
            ContextType::Expression,
            tokens,
        ),
    )
}

pub open spec fn spec_literal<'s>(tokens: TokenList<'s>) -> ParseResult<'s, LiteralExpression> {
    if tokens.index < tokens.end && tokens.item(tokens.index as int).token.ty is Literal {
        Ok((tokens.at(tokens.index + 1), LiteralExpression { token: tokens.index }))
    } else {
        Err(tokens.spec_error(ParseErrorType::ExpectedLiteral))
    }
}

/// A literal token.
pub fn literal<'s>(tokens: TokenList<'s>) -> (r: ParseResult<'s, LiteralExpression>)
    requires
        tokens.wf(),
    ensures
        r == spec_literal(tokens),
        consumes(tokens, r),
{
    if let Some((next, item)) = tokens.split_first() {
        if let TokenType::Literal(_) = item.token.ty {
            return Ok((next, LiteralExpression { token: tokens.index }));
        }
    }
    Err(tokens.error(ParseErrorType::ExpectedLiteral))
}

pub open spec fn spec_var<'s>(tokens: TokenList<'s>) -> ParseResult<'s, VarExpression> {
    spec_map_val(spec_identifier(tokens), |name: Identifier| VarExpression { name })
}

/// A variable name.
pub fn var<'s>(tokens: TokenList<'s>) -> (r: ParseResult<'s, VarExpression>)
    requires
        tokens.wf(),
    ensures
        r == spec_var(tokens),
        consumes(tokens, r),
{
    match identifier(tokens) {
        Ok((t, name)) => Ok((t, VarExpression { name })),
        Err(e) => Err(e),
    }
}

pub open spec fn spec_root_var<'s>(tokens: TokenList<'s>) -> ParseResult<'s, RootVarExpression> {
    match tokens.spec_terminal(TerminalToken::Namespace) {
        Err(e) => Err(e),
        Ok((t1, root)) => spec_definite(
            spec_map_val(spec_identifier(t1), |name: Identifier| RootVarExpression { root, name }),
        ),
    }
}

/// `::name`
pub fn root_var<'s>(tokens: TokenList<'s>) -> (r: ParseResult<'s, RootVarExpression>)
    requires
        tokens.wf(),
    ensures
        r == spec_root_var(tokens),
        consumes(tokens, r),
{
    let (t1, root) = tokens.terminal(TerminalToken::Namespace)?;
    definite(
        match identifier(t1) {
            Ok((t2, name)) => Ok((t2, RootVarExpression { root, name })),
            Err(e) => Err(e),
        },
    )
}

#[verifier::opaque]
pub open spec fn spec_table<'s>(tokens: TokenList<'s>) -> ParseResult<'s, TableExpression>
    decreases tokens.end - tokens.index, 2int,
{
    spec_table_delimited(tokens, TerminalToken::OpenBrace, TerminalToken::CloseBrace)
}

/// `{ slots }`
pub fn table<'s>(tokens: TokenList<'s>) -> (r: ParseResult<'s, TableExpression>)
    requires
        tokens.wf(),
    ensures
        r == spec_table(tokens),
        consumes(tokens, r),
    decreases tokens.end - tokens.index, 2int,
{
    proof {
        reveal(spec_table);
        reveal(spec_table_delimited);
    }
    table_delimited(tokens, TerminalToken::OpenBrace, TerminalToken::CloseBrace)
}

#[verifier::opaque]
pub open spec fn spec_table_delimited<'s>(
    tokens: TokenList<'s>,
    open_terminal: TerminalToken,
    close_terminal: TerminalToken,
) -> ParseResult<'s, TableExpression>
    decreases tokens.end - tokens.index, 1int,
{
    match tokens.spec_terminal(open_terminal) {
        Err(e) => Err(e),
        Ok((t1, open)) => spec_definite(
            spec_with_context(
                match spec_table_slots_until(t1, StopAt::CloseOrSpread(close_terminal)) {
                    Err(e) => Err(e),
                    Ok((t2, slots)) => match spec_maybe(t2.spec_terminal(TerminalToken::Ellipsis), t2) {
                        Err(e) => Err(e),
                        Ok((t3, spread)) => match t3.spec_terminal(close_terminal) {
                            Err(e) => Err(e),
                            Ok((t4, close)) => Ok((t4, TableExpression { open, slots, spread, close })),
                        },
                    },
                },
                ContextType::TableLiteral,
                tokens,
            ),
        ),
    }
}

/// A table between the given delimiters, with an optional `...` spread at the end.
pub fn table_delimited<'s>(
    tokens: TokenList<'s>,
    open_terminal: TerminalToken,
    close_terminal: TerminalToken,
) -> (r: ParseResult<'s, TableExpression>)
    requires
        tokens.wf(),
    ensures
        r == spec_table_delimited(tokens, open_terminal, close_terminal),
        consumes(tokens, r),
    decreases tokens.end - tokens.index, 1int,
{
    proof {
        reveal(spec_table_delimited);
        reveal(spec_table_slots_until);
    }
    let (t1, open) = tokens.terminal(open_terminal)?;
    definite(
        with_context(
            match table_slots_until(t1, StopAt::CloseOrSpread(close_terminal)) {
                Err(e) => Err(e),
                Ok((t2, slots)) => match maybe(t2.terminal(TerminalToken::Ellipsis), t2) {
                    Err(e) => Err(e),
                    Ok((t3, spread)) => match t3.terminal(close_terminal) {
                        Err(e) => Err(e),
                        Ok((t4, close)) => Ok((t4, TableExpression { open, slots, spread, close })),
                    },
                },
            },
            ContextType::TableLiteral,
            tokens,
        ),
    )
}

#[verifier::opaque]
pub open spec fn spec_array<'s>(tokens: TokenList<'s>) -> ParseResult<'s, ArrayExpression>
    decreases tokens.end - tokens.index, 1int,
{
    match tokens.spec_terminal(TerminalToken::OpenSquare) {
        Err(e) => Err(e),
        Ok((t1, open)) => spec_definite(
            spec_with_context(
                match spec_array_values_until(t1, StopAt::CloseOrSpread(TerminalToken::CloseSquare)) {
                    Err(e) => Err(e),
                    Ok((t2, values)) => match spec_maybe(t2.spec_terminal(TerminalToken::Ellipsis), t2) {
                        Err(e) => Err(e),
                        Ok((t3, spread)) => match t3.spec_terminal(TerminalToken::CloseSquare) {
                            Err(e) => Err(e),
                            Ok((t4, close)) => Ok((t4, ArrayExpression { open, values, spread, close })),
                        },
                    },
                },
                ContextType::ArrayLiteral,
                tokens,
            ),
        ),
    }
}

/// `[values]`, with an optional `...` spread at the end.
pub fn array<'s>(tokens: TokenList<'s>) -> (r: ParseResult<'s, ArrayExpression>)
    requires
        tokens.wf(),
    ensures
        r == spec_array(tokens),
        consumes(tokens, r),
    decreases tokens.end - tokens.index, 1int,
{
    proof {
        reveal(spec_array);
        reveal(spec_array_values_until);
    }
    let (t1, open) = tokens.terminal(TerminalToken::OpenSquare)?;
    definite(
        with_context(
            match array_values_until(t1, StopAt::CloseOrSpread(TerminalToken::CloseSquare)) {
                Err(e) => Err(e),
                Ok((t2, values)) => match maybe(t2.terminal(TerminalToken::Ellipsis), t2) {
                    Err(e) => Err(e),
                    Ok((t3, spread)) => match t3.terminal(TerminalToken::CloseSquare) {
                        Err(e) => Err(e),
                        Ok((t4, close)) => Ok((t4, ArrayExpression { open, values, spread, close })),
                    },
                },
            },
            ContextType::ArrayLiteral,
            tokens,
        ),
    )
}

#[verifier::opaque]
pub open spec fn spec_vector<'s>(tokens: TokenList<'s>) -> ParseResult<'s, VectorExpression>
    decreases tokens.end - tokens.index, 1int,
{
    spec_with_context(
        match tokens.spec_terminal(TerminalToken::Less) {
            Err(e) => Err(e),
            Ok((t1, open)) => spec_definite(
                match spec_expression(t1, Precedence::Comma) {
                    Err(e) => Err(e),
                    Ok((t2, x)) => if tokens.follows(t2) {
                        match t2.spec_terminal(TerminalToken::Comma) {
                            Err(e) => Err(e),
                            Ok((t3, comma_1)) => match spec_expression(t3, Precedence::Comma) {
                                Err(e) => Err(e),
                                Ok((t4, y)) => if tokens.follows(t4) {
                                    match t4.spec_terminal(TerminalToken::Comma) {
                                        Err(e) => Err(e),
                                        Ok((t5, comma_2)) => match spec_expression(t5, Precedence::Bitshift) {
                                            Err(e) => Err(e),
                                            Ok((t6, z)) => match t6.spec_terminal(TerminalToken::Greater) {
                                                Err(e) => Err(e),
                                                Ok((t7, close)) => Ok(
                                                    (t7, VectorExpression { open, x, comma_1, y, comma_2, z, close }),
                                                ),
                                            },
                                        },
                                    }
                                } else {
                                    spec_unreachable(tokens)
                                },
                            },
                        }
                    } else {
                        spec_unreachable(tokens)
                    },
                },
            ),
        },
        ContextType::VectorLiteral,
        tokens,
    )
}

/// `<x, y, z>`
pub fn vector<'s>(tokens: TokenList<'s>) -> (r: ParseResult<'s, VectorExpression>)
    requires
        tokens.wf(),
    ensures
        r == spec_vector(tokens),
        consumes(tokens, r),
    decreases tokens.end - tokens.index, 1int,
{
    proof {
        reveal(spec_vector);
        reveal(spec_expression);
    }
    let r = match tokens.terminal(TerminalToken::Less) {
        Err(e) => Err(e),
        Ok((t1, open)) => definite(
            match expression(t1, Precedence::Comma) {
                Err(e) => Err(e),
                Ok((t2, x)) => match t2.terminal(TerminalToken::Comma) {
                    Err(e) => Err(e),
                    Ok((t3, comma_1)) => match expression(t3, Precedence::Comma) {
                        Err(e) => Err(e),
                        Ok((t4, y)) => match t4.terminal(TerminalToken::Comma) {
                            Err(e) => Err(e),
                            Ok((t5, comma_2)) => match expression(t5, Precedence::Bitshift) {
                                Err(e) => Err(e),
                                Ok((t6, z)) => match t6.terminal(TerminalToken::Greater) {
                                    Err(e) => Err(e),
                                    Ok((t7, close)) => Ok(
                                        (t7, VectorExpression { open, x, comma_1, y, comma_2, z, close }),
                                    ),
                                },
                            },
                        },
                    },
                },
            },
        ),
    };
    with_context(r, ContextType::VectorLiteral, tokens)
}

#[verifier::opaque]
pub open spec fn spec_prefix<'s>(tokens: TokenList<'s>) -> ParseResult<'s, PrefixExpression>
    decreases tokens.end - tokens.index, 1int,
{
    match spec_prefix_operator(tokens) {
        Err(e) => Err(e),
        Ok((t1, operator)) => spec_definite(
            spec_map_val(
                spec_expression(t1, Precedence::Prefix),
                |value: Box<Expression>| PrefixExpression { operator, value },
            ),
        ),
    }
}

/// `op value`
pub fn prefix<'s>(tokens: TokenList<'s>) -> (r: ParseResult<'s, PrefixExpression>)
    requires
        tokens.wf(),
    ensures
        r == spec_prefix(tokens),
        consumes(tokens, r),
    decreases tokens.end - tokens.index, 1int,
{
    proof {
        reveal(spec_prefix);
        reveal(spec_expression);
    }
    let (t1, operator) = prefix_operator(tokens)?;
    definite(
        match expression(t1, Precedence::Prefix) {
            Ok((t2, value)) => Ok((t2, PrefixExpression { operator, value })),
            Err(e) => Err(e),
        },
    )
}

#[verifier::opaque]
pub open spec fn spec_delegate<'s>(tokens: TokenList<'s>) -> ParseResult<'s, DelegateExpression>
    decreases tokens.end - tokens.index, 1int,
{
    match tokens.spec_terminal(TerminalToken::Delegate) {
        Err(e) => Err(e),
        Ok((t1, delegate)) => spec_definite(
            match spec_expression(t1, Precedence::Lowest) {
                Err(e) => Err(e),
                Ok((t2, parent)) => if tokens.follows(t2) {
                    match t2.spec_terminal(TerminalToken::Colon) {
                        Err(e) => Err(e),
                        Ok((t3, colon)) => spec_map_val(
                            spec_expression(t3, Precedence::Comma),
                            |value: Box<Expression>| DelegateExpression { delegate, parent, colon, value },
                        ),
                    }
                } else {
                    spec_unreachable(tokens)
                },
            },
        ),
    }
}

/// `delegate parent : value`
pub fn delegate<'s>(tokens: TokenList<'s>) -> (r: ParseResult<'s, DelegateExpression>)
    requires
        tokens.wf(),
    ensures
        r == spec_delegate(tokens),
        consumes(tokens, r),
    decreases tokens.end - tokens.index, 1int,
{
    proof {
        reveal(spec_delegate);
        reveal(spec_expression);
    }
    let (t1, delegate) = tokens.terminal(TerminalToken::Delegate)?;
    definite(
        match expression(t1, Precedence::Lowest) {
            Err(e) => Err(e),
            Ok((t2, parent)) => match t2.terminal(TerminalToken::Colon) {
                Err(e) => Err(e),
                Ok((t3, colon)) => match expression(t3, Precedence::Comma) {
                    Ok((t4, value)) => Ok((t4, DelegateExpression { delegate, parent, colon, value })),
                    Err(e) => Err(e),
                },
            },
        },
    )
}

#[verifier::opaque]
pub open spec fn spec_expect<'s>(tokens: TokenList<'s>) -> ParseResult<'s, ExpectExpression>
    decreases tokens.end - tokens.index, 1int,
{
    match tokens.spec_terminal(TerminalToken::Expect) {
        Err(e) => Err(e),
        Ok((t1, expect)) => spec_definite(
            match spec_type_(t1) {
                Err(e) => Err(e),
                Ok((t2, ty)) => if tokens.follows(t2) {
                    match t2.spec_terminal(TerminalToken::OpenBracket) {
                        Err(e) => Err(e),
                        Ok((t3, open)) => spec_with_context(
                            match spec_expression(t3, Precedence::Lowest) {
                                Err(e) => Err(e),
                                Ok((t4, value)) => match t4.spec_terminal(TerminalToken::CloseBracket) {
                                    Err(e) => Err(e),
                                    Ok((t5, close)) => Ok((t5, ExpectExpression { expect, ty, open, value, close })),
                                },
                            },
                            ContextType::Expression,
                            t2,
                        ),
                    }
                } else {
                    spec_unreachable(tokens)
                },
            },
        ),
    }
}

/// `expect T(value)`
pub fn expect<'s>(tokens: TokenList<'s>) -> (r: ParseResult<'s, ExpectExpression>)
    requires
        tokens.wf(),
    ensures
        r == spec_expect(tokens),
        consumes(tokens, r),
    decreases tokens.end - tokens.index, 1int,
{
    proof {
        reveal(spec_expect);
        reveal(spec_type_);
        reveal(spec_expression);
    }
    let (t1, expect) = tokens.terminal(TerminalToken::Expect)?;
    definite(
        match type_(t1) {
            Err(e) => Err(e),
            Ok((t2, ty)) => match t2.terminal(TerminalToken::OpenBracket) {
                Err(e) => Err(e),
                Ok((t3, open)) => with_context(
                    match expression(t3, Precedence::Lowest) {
                        Err(e) => Err(e),
                        Ok((t4, value)) => match t4.terminal(TerminalToken::CloseBracket) {
                            Err(e) => Err(e),
                            Ok((t5, close)) => Ok((t5, ExpectExpression { expect, ty, open, value, close })),
                        },
                    },
                    ContextType::Expression,
                    t2,
                ),
            },
        },
    )
}

#[verifier::opaque]
pub open spec fn spec_lambda<'s>(tokens: TokenList<'s>) -> ParseResult<'s, LambdaExpression>
    decreases tokens.end - tokens.index, 1int,
{
    spec_with_context(
        match tokens.spec_terminal(TerminalToken::At) {
            Err(e) => Err(e),
            Ok((t1, at)) => spec_definite(
                match t1.spec_terminal(TerminalToken::OpenBracket) {
                    Err(e) => Err(e),
                    Ok((t2, open)) => match spec_with_context(
                        match spec_function_params(t2) {
                            Err(e) => Err(e),
                            Ok((t3, params)) => match t3.spec_terminal(TerminalToken::CloseBracket) {
                                Err(e) => Err(e),
                                Ok((t4, close)) => Ok((t4, (params, close))),
                            },
                        },
                        ContextType::FunctionParamList,
                        t1,
                    ) {
                        Err(e) => Err(e),
                        Ok((t4, (params, close))) => if tokens.advances_to(t4) {
                            spec_map_val(
                                spec_expression(t4, Precedence::Comma),
                                |value: Box<Expression>| LambdaExpression { at, open, params, close, value },
                            )
                        } else {
                            spec_unreachable(tokens)
                        },
                    },
                },
            ),
        },
        ContextType::LambdaLiteral,
        tokens,
    )
}

/// `@(params) value`
pub fn lambda<'s>(tokens: TokenList<'s>) -> (r: ParseResult<'s, LambdaExpression>)
    requires
        tokens.wf(),
    ensures
        r == spec_lambda(tokens),
        consumes(tokens, r),
    decreases tokens.end - tokens.index, 1int,
{
    proof {
        reveal(spec_lambda);
        reveal(spec_function_params);
        reveal(spec_expression);
    }
    let r = match tokens.terminal(TerminalToken::At) {
        Err(e) => Err(e),
        Ok((t1, at)) => definite(
            match t1.terminal(TerminalToken::OpenBracket) {
                Err(e) => Err(e),
                Ok((t2, open)) => match with_context(
                    match function_params(t2) {
                        Err(e) => Err(e),
                        Ok((t3, params)) => match t3.terminal(TerminalToken::CloseBracket) {
                            Err(e) => Err(e),
                            Ok((t4, close)) => Ok((t4, (params, close))),
                        },
                    },
                    ContextType::FunctionParamList,
                    t1,
                ) {
                    Err(e) => Err(e),
                    Ok((t4, (params, close))) => match expression(t4, Precedence::Comma) {
                        Ok((t5, value)) => Ok((t5, LambdaExpression { at, open, params, close, value })),
                        Err(e) => Err(e),
                    },
                },
            },
        ),
    };
    with_context(r, ContextType::LambdaLiteral, tokens)
}

#[verifier::opaque]
pub open spec fn spec_operator<'s>(tokens: TokenList<'s>, precedence: Precedence) -> ParseResult<'s, OperatorTail>
    decreases tokens.end - tokens.index, 2int,
{
    let r = spec_property(tokens, precedence);
    let r = spec_or_try(r, spec_ternary(tokens, precedence));
    let r = spec_or_try(r, spec_binary(tokens, precedence));
    let r = spec_or_try(r, spec_index(tokens, precedence));
    let r = spec_or_try(r, spec_postfix(tokens, precedence));
    let r = spec_or_try(r, spec_call(tokens, precedence));
    let r = spec_or_try(r, spec_comma(tokens, precedence));
    spec_or_error(r, tokens.spec_error(ParseErrorType::ExpectedOperator))
}

/// An operator that binds more tightly than `precedence`, with what follows it.
fn operator<'s>(tokens: TokenList<'s>, precedence: Precedence) -> (r: ParseResult<'s, OperatorTail>)
    requires
        tokens.wf(),
    ensures
        r == spec_operator(tokens, precedence),
        consumes(tokens, r),
    decreases tokens.end - tokens.index, 2int,
{
    proof {
        reveal(spec_operator);
        reveal(spec_ternary);
        reveal(spec_binary);
        reveal(spec_index);
        reveal(spec_call);
        reveal(spec_comma);
    }
    let r = property(tokens, precedence);
    let r = if is_soft_err(&r) {
        ternary(tokens, precedence)
    } else {
        r
    };
    let r = if is_soft_err(&r) {
        binary(tokens, precedence)
    } else {
        r
    };
    let r = if is_soft_err(&r) {
        index(tokens, precedence)
    } else {
        r
    };
    let r = if is_soft_err(&r) {
        postfix(tokens, precedence)
    } else {
        r
    };
    let r = if is_soft_err(&r) {
        call(tokens, precedence)
    } else {
        r
    };
    let r = if is_soft_err(&r) {
        comma(tokens, precedence)
    } else {
        r
    };
    or_error(r, tokens.error(ParseErrorType::ExpectedOperator))
}

pub open spec fn spec_property<'s>(tokens: TokenList<'s>, precedence: Precedence) -> ParseResult<'s, OperatorTail> {
    if precedence.spec_level() >= Precedence::Property.spec_level() {
        Err(tokens.spec_error(ParseErrorType::Precedence))
    } else {
        match tokens.spec_terminal(TerminalToken::Dot) {
            Err(e) => Err(e),
            Ok((t1, dot)) => spec_definite(
                spec_map_val(
                    spec_method_identifier(t1),
                    |property: MethodIdentifier| OperatorTail::Property { dot, property },
                ),
            ),
        }
    }
}

/// `.property`; left associative.
fn property<'s>(tokens: TokenList<'s>, precedence: Precedence) -> (r: ParseResult<'s, OperatorTail>)
    requires
        tokens.wf(),
    ensures
        r == spec_property(tokens, precedence),
        consumes(tokens, r),
{
    if precedence.level() >= Precedence::Property.level() {
        return Err(tokens.error(ParseErrorType::Precedence));
    }
    let (t1, dot) = tokens.terminal(TerminalToken::Dot)?;
    definite(
        match method_identifier(t1) {
            Ok((t2, property)) => Ok((t2, OperatorTail::Property { dot, property })),
            Err(e) => Err(e),
        },
    )
}

#[verifier::opaque]
pub open spec fn spec_ternary<'s>(tokens: TokenList<'s>, precedence: Precedence) -> ParseResult<'s, OperatorTail>
    decreases tokens.end - tokens.index, 1int,
{
    if precedence.spec_level() > Precedence::Ternary.spec_level() {
        Err(tokens.spec_error(ParseErrorType::Precedence))
    } else {
        match tokens.spec_terminal(TerminalToken::Question) {
            Err(e) => Err(e),
            Ok((t1, question)) => spec_definite(
                match spec_expression(t1, Precedence::Lowest) {
                    Err(e) => Err(e),
                    Ok((t2, true_value)) => if tokens.follows(t2) {
                        match t2.spec_terminal(TerminalToken::Colon) {
                            Err(e) => Err(e),
                            Ok((t3, separator)) => spec_map_val(
                                spec_expression(t3, Precedence::Ternary),
                                |false_value: Box<Expression>| OperatorTail::Ternary {
                                    question,
                                    true_value,
                                    separator,
                                    false_value,
                                },
                            ),
                        }
                    } else {
                        spec_unreachable(tokens)
                    },
                },
            ),
        }
    }
}

/// A ternary is accepted at every precedence up to its own: it parses there exactly as at the
/// lowest precedence, and a `?` then commits to a ternary, whose result is a ternary or a fatal
/// error. Since the false value is read at the ternary's own precedence, it may itself be a
/// ternary: `a ? b : c ? d : e` groups to the right.
pub proof fn lemma_ternary_right_associative<'s>(tokens: TokenList<'s>, precedence: Precedence)
    requires
        precedence.spec_level() <= Precedence::Ternary.spec_level(),
    ensures
        spec_ternary(tokens, precedence) == spec_ternary(tokens, Precedence::Lowest),
        tokens.next_is(TerminalToken::Question) ==> !crate::parser::result::is_soft(
            spec_ternary(tokens, precedence),
        ),
{
    reveal(spec_ternary);
}

/// `? true_value : false_value`; right associative.
fn ternary<'s>(tokens: TokenList<'s>, precedence: Precedence) -> (r: ParseResult<'s, OperatorTail>)
    requires
        tokens.wf(),
    ensures
        r == spec_ternary(tokens, precedence),
        consumes(tokens, r),
    decreases tokens.end - tokens.index, 1int,
{
    proof {
        reveal(spec_ternary);
        reveal(spec_expression);
    }
    if precedence.level() > Precedence::Ternary.level() {
        return Err(tokens.error(ParseErrorType::Precedence));
    }
    let (t1, question) = tokens.terminal(TerminalToken::Question)?;
    definite(
        match expression(t1, Precedence::Lowest) {
            Err(e) => Err(e),
            Ok((t2, true_value)) => match t2.terminal(TerminalToken::Colon) {
                Err(e) => Err(e),
                Ok((t3, separator)) => match expression(t3, Precedence::Ternary) {
                    Ok((t4, false_value)) => Ok(
                        (t4, OperatorTail::Ternary { question, true_value, separator, false_value }),
                    ),
                    Err(e) => Err(e),
                },
            },
        },
    )
}

#[verifier::opaque]
pub open spec fn spec_binary<'s>(tokens: TokenList<'s>, precedence: Precedence) -> ParseResult<'s, OperatorTail>
    decreases tokens.end - tokens.index, 1int,
{
    match spec_binary_operator(tokens) {
        Err(e) => Err(e),
        Ok((t1, operator)) => if precedence.spec_level() >= operator.spec_precedence().spec_level() {
            Err(t1.spec_error(ParseErrorType::Precedence))
        } else if tokens.advances_to(t1) {
            spec_definite(
                spec_map_val(
                    spec_expression(t1, operator.spec_precedence()),
                    |right: Box<Expression>| OperatorTail::Binary { operator, right },
                ),
            )
        } else {
            spec_unreachable(tokens)
        },
    }
}

/// `op right`; left associative.
fn binary<'s>(tokens: TokenList<'s>, precedence: Precedence) -> (r: ParseResult<'s, OperatorTail>)
    requires
        tokens.wf(),
    ensures
        r == spec_binary(tokens, precedence),
        consumes(tokens, r),
    decreases tokens.end - tokens.index, 1int,
{
    proof {
        reveal(spec_binary);
        reveal(spec_expression);
    }
    let (t1, operator) = binary_operator(tokens)?;
    if precedence.level() >= operator.precedence().level() {
        return Err(t1.error(ParseErrorType::Precedence));
    }
    definite(
        match expression(t1, operator.precedence()) {
            Ok((t2, right)) => Ok((t2, OperatorTail::Binary { operator, right })),
            Err(e) => Err(e),
        },
    )
}

#[verifier::opaque]
pub open spec fn spec_index<'s>(tokens: TokenList<'s>, precedence: Precedence) -> ParseResult<'s, OperatorTail>
    decreases tokens.end - tokens.index, 1int,
{
    if precedence.spec_level() >= Precedence::Postfix.spec_level() {
        Err(tokens.spec_error(ParseErrorType::Precedence))
    } else {
        match tokens.spec_terminal(TerminalToken::OpenSquare) {
            Err(e) => Err(e),
            Ok((t1, open)) => spec_definite(
                spec_with_context(
                    match spec_expression(t1, Precedence::Lowest) {
                        Err(e) => Err(e),
                        Ok((t2, index)) => match t2.spec_terminal(TerminalToken::CloseSquare) {
                            Err(e) => Err(e),
                            Ok((t3, close)) => Ok((t3, OperatorTail::Index { open, index, close })),
                        },
                    },
                    ContextType::Expression,
                    tokens,
                ),
            ),
        }
    }
}

/// `[index]`; left associative.
fn index<'s>(tokens: TokenList<'s>, precedence: Precedence) -> (r: ParseResult<'s, OperatorTail>)
    requires
        tokens.wf(),
    ensures
        r == spec_index(tokens, precedence),
        consumes(tokens, r),
    decreases tokens.end - tokens.index, 1int,
{
    proof {
        reveal(spec_index);
        reveal(spec_expression);
    }
    if precedence.level() >= Precedence::Postfix.level() {
        return Err(tokens.error(ParseErrorType::Precedence));
    }
    let (t1, open) = tokens.terminal(TerminalToken::OpenSquare)?;
    definite(
        with_context(
            match expression(t1, Precedence::Lowest) {
                Err(e) => Err(e),
                Ok((t2, index)) => match t2.terminal(TerminalToken::CloseSquare) {
                    Err(e) => Err(e),
                    Ok((t3, close)) => Ok((t3, OperatorTail::Index { open, index, close })),
                },
            },
            ContextType::Expression,
            tokens,
        ),
    )
}

pub open spec fn spec_postfix<'s>(tokens: TokenList<'s>, precedence: Precedence) -> ParseResult<'s, OperatorTail> {
    if precedence.spec_level() >= Precedence::Postfix.spec_level() {
        Err(tokens.spec_error(ParseErrorType::Precedence))
    } else if tokens.spec_is_newline() {
        Err(tokens.spec_error(ParseErrorType::IllegalLineBreak))
    } else {
        spec_map_val(
            spec_not_definite(spec_postfix_operator(tokens)),
            |operator: PostfixOperator| OperatorTail::Postfix { operator },
        )
    }
}

/// `++` or `--`; not allowed after a line break, so that `a` then `++b` on the next line is
/// not read as `(a++) b`.
fn postfix<'s>(tokens: TokenList<'s>, precedence: Precedence) -> (r: ParseResult<'s, OperatorTail>)
    requires
        tokens.wf(),
    ensures
        r == spec_postfix(tokens, precedence),
        consumes(tokens, r),
{
    if precedence.level() >= Precedence::Postfix.level() {
        return Err(tokens.error(ParseErrorType::Precedence));
    }
    if tokens.is_newline() {
        return Err(tokens.error(ParseErrorType::IllegalLineBreak));
    }
    match not_definite(postfix_operator(tokens)) {
        Ok((t, operator)) => Ok((t, OperatorTail::Postfix { operator })),
        Err(e) => Err(e),
    }
}

#[verifier::opaque]
pub open spec fn spec_call<'s>(tokens: TokenList<'s>, precedence: Precedence) -> ParseResult<'s, OperatorTail>
    decreases tokens.end - tokens.index, 1int,
{
    if precedence.spec_level() >= Precedence::Postfix.spec_level() {
        Err(tokens.spec_error(ParseErrorType::Precedence))
    } else {
        match tokens.spec_terminal(TerminalToken::OpenBracket) {
            Err(e) => Err(e),
            Ok((t1, open)) => match spec_definite(
                spec_with_context(
                    match spec_call_arguments(t1) {
                        Err(e) => Err(e),
                        Ok((t2, arguments)) => match t2.spec_terminal(TerminalToken::CloseBracket) {
                            Err(e) => Err(e),
                            Ok((t3, close)) => Ok((t3, (arguments, close))),
                        },
                    },
                    ContextType::CallArgumentList,
                    tokens,
                ),
            ) {
                Err(e) => Err(e),
                Ok((t3, (arguments, close))) => if tokens.advances_to(t3) {
                    // A post-initializer may follow the call, on the same line.
                    match (if t3.spec_is_newline() {
                        Ok((t3, None))
                    } else {
                        spec_maybe(spec_table(t3), t3)
                    }) {
                        Err(e) => Err(e),
                        Ok((t4, post_initializer)) => Ok(
                            (t4, OperatorTail::Call { open, arguments, close, post_initializer }),
                        ),
                    }
                } else {
                    spec_unreachable(tokens)
                },
            },
        }
    }
}

/// Each operator is taken exactly when it binds more tightly than the precedence the operand is
/// read at, and then parses as it does at the lowest precedence. Operators that bind as tightly
/// as the current one end the operand, so binary, postfix, index, call, property and comma
/// operators group to the left; a ternary is also taken at its own precedence, so it groups to
/// the right.
pub proof fn lemma_operator_binding<'s>(tokens: TokenList<'s>, precedence: Precedence)
    ensures
        precedence.spec_level() < Precedence::Property.spec_level() ==> spec_property(tokens, precedence)
            == spec_property(tokens, Precedence::Lowest),
        precedence.spec_level() >= Precedence::Property.spec_level() ==> is_soft(
            spec_property(tokens, precedence),
        ),
        precedence.spec_level() > Precedence::Ternary.spec_level() ==> is_soft(
            spec_ternary(tokens, precedence),
        ),
        precedence.spec_level() < Precedence::Postfix.spec_level() ==> spec_index(tokens, precedence)
            == spec_index(tokens, Precedence::Lowest) && spec_postfix(tokens, precedence)
            == spec_postfix(tokens, Precedence::Lowest) && spec_call(tokens, precedence) == spec_call(
            tokens,
            Precedence::Lowest,
        ),
        precedence.spec_level() >= Precedence::Postfix.spec_level() ==> is_soft(
            spec_index(tokens, precedence),
        ) && is_soft(spec_postfix(tokens, precedence)) && is_soft(spec_call(tokens, precedence)),
        precedence.spec_level() < Precedence::Comma.spec_level() ==> spec_comma(tokens, precedence)
            == spec_comma(tokens, Precedence::Lowest),
        precedence.spec_level() >= Precedence::Comma.spec_level() ==> is_soft(
            spec_comma(tokens, precedence),
        ),
        spec_binary_operator(tokens) matches Ok((_, op)) ==> {
            &&& precedence.spec_level() < op.spec_precedence().spec_level() ==> spec_binary(
                tokens,
                precedence,
            ) == spec_binary(tokens, Precedence::Lowest)
            &&& precedence.spec_level() >= op.spec_precedence().spec_level() ==> is_soft(
                spec_binary(tokens, precedence),
            )
        },
{
    reveal(spec_ternary);
    reveal(spec_index);
    reveal(spec_call);
    reveal(spec_comma);
    reveal(spec_binary);
}

/// The operands of the operators: the right operand of a binary operator is read at the
/// operator's own precedence, so that operators of the same precedence group to the left; a
/// ternary's true value is read at the lowest precedence and its false value at the ternary's
/// own, so that ternaries group to the right; and a prefix operator's operand is read at prefix
/// precedence.
pub proof fn lemma_operands<'s>(tokens: TokenList<'s>, precedence: Precedence)
    ensures
        spec_binary_operator(tokens) matches Ok((t1, op)) ==> (precedence.spec_level()
            < op.spec_precedence().spec_level() ==> (spec_expression(t1, op.spec_precedence()) matches Ok(
            (t2, right),
        ) ==> spec_binary(tokens, precedence) == Ok::<(TokenList<'s>, OperatorTail), crate::error::ParseError>(
            (t2, OperatorTail::Binary { operator: op, right }),
        ))),
        precedence.spec_level() <= Precedence::Ternary.spec_level() && tokens.next_is(
            TerminalToken::Question,
        ) ==> ({
            let t1 = tokens.at(tokens.index + 1);
            spec_expression(t1, Precedence::Lowest) matches Ok((t2, true_value)) ==> (tokens.follows(t2)
                && t2.next_is(TerminalToken::Colon) ==> (spec_expression(t2.at(t2.index + 1), Precedence::Ternary) matches Ok(
                (t3, false_value),
            ) ==> spec_ternary(tokens, precedence) == Ok::<(TokenList<'s>, OperatorTail), crate::error::ParseError>(
                (
                    t3,
                    OperatorTail::Ternary {
                        question: tokens.index,
                        true_value,
                        separator: t2.index,
                        false_value,
                    },
                ),
            )))
        }),
        spec_prefix_operator(tokens) matches Ok((t1, operator)) ==> (spec_expression(
            t1,
            Precedence::Prefix,
        ) matches Ok((t2, value)) ==> spec_prefix(tokens) == Ok::<
            (TokenList<'s>, PrefixExpression),
            crate::error::ParseError,
        >((t2, PrefixExpression { operator, value }))),
{
    reveal(spec_binary);
    reveal(spec_ternary);
    reveal(spec_prefix);
    reveal(spec_expression);
}

/// `(arguments)`, maybe followed on the same line by a table; left associative.
fn call<'s>(tokens: TokenList<'s>, precedence: Precedence) -> (r: ParseResult<'s, OperatorTail>)
    requires
        tokens.wf(),
    ensures
        r == spec_call(tokens, precedence),
        consumes(tokens, r),
    decreases tokens.end - tokens.index, 1int,
{
    proof {
        reveal(spec_call);
        reveal(spec_call_arguments);
        reveal(spec_table);
    }
    if precedence.level() >= Precedence::Postfix.level() {
        return Err(tokens.error(ParseErrorType::Precedence));
    }
    let (t1, open) = tokens.terminal(TerminalToken::OpenBracket)?;
    let (t3, (arguments, close)) = definite(
        with_context(
            match call_arguments(t1) {
                Err(e) => Err(e),
                Ok((t2, arguments)) => match t2.terminal(TerminalToken::CloseBracket) {
                    Err(e) => Err(e),
                    Ok((t3, close)) => Ok((t3, (arguments, close))),
                },
            },
            ContextType::CallArgumentList,
            tokens,
        ),
    )?;
    let (t4, post_initializer) = if t3.is_newline() {
        (t3, None)
    } else {
        maybe(table(t3), t3)?
    };
    Ok((t4, OperatorTail::Call { open, arguments, close, post_initializer }))
}

#[verifier::opaque]
pub open spec fn spec_comma<'s>(tokens: TokenList<'s>, precedence: Precedence) -> ParseResult<'s, OperatorTail>
    decreases tokens.end - tokens.index, 1int,
{
    if precedence.spec_level() >= Precedence::Comma.spec_level() {
        Err(tokens.spec_error(ParseErrorType::Precedence))
    } else {
        match tokens.spec_terminal(TerminalToken::Comma) {
            Err(e) => Err(e),
            Ok((t1, first_comma)) => spec_definite(
                spec_map_val(
                    spec_comma_values(t1),
                    |values: SeparatedList1<Expression>| OperatorTail::Comma { first_comma, values },
                ),
            ),
        }
    }
}

/// `, b, c`; left associative.
fn comma<'s>(tokens: TokenList<'s>, precedence: Precedence) -> (r: ParseResult<'s, OperatorTail>)
    requires
        tokens.wf(),
    ensures
        r == spec_comma(tokens, precedence),
        consumes(tokens, r),
    decreases tokens.end - tokens.index, 1int,
{
    proof {
        reveal(spec_comma);
        reveal(spec_comma_values);
    }
    if precedence.level() >= Precedence::Comma.level() {
        return Err(tokens.error(ParseErrorType::Precedence));
    }
    let (t1, first_comma) = tokens.terminal(TerminalToken::Comma)?;
    definite(
        match comma_values(t1) {
            Ok((t2, values)) => Ok((t2, OperatorTail::Comma { first_comma, values })),
            Err(e) => Err(e),
        },
    )
}

#[verifier::opaque]
pub open spec fn spec_comma_values<'s>(tokens: TokenList<'s>) -> ParseResult<'s, SeparatedList1<Expression>>
    decreases tokens.end - tokens.index, 9int,
{
    match spec_expression(tokens, Precedence::Comma) {
        Err(e) => Err(e),
        Ok((t1, first)) => if tokens.follows(t1) {
            spec_comma_values_rest(t1, first)
        } else {
            spec_unreachable(tokens)
        },
    }
}

/// Values at comma precedence, separated by commas.
fn comma_values<'s>(tokens: TokenList<'s>) -> (r: ParseResult<'s, SeparatedList1<Expression>>)
    requires
        tokens.wf(),
    ensures
        r == spec_comma_values(tokens),
        consumes(tokens, r),
    decreases tokens.end - tokens.index, 9int,
{
    proof {
        reveal(spec_comma_values);
        reveal(spec_expression);
        reveal(spec_comma_values_rest);
    }
    let (t1, first) = expression(tokens, Precedence::Comma)?;
    comma_values_rest(t1, first)
}

#[verifier::opaque]
pub open spec fn spec_comma_values_rest<'s>(tokens: TokenList<'s>, prev: Box<Expression>) -> ParseResult<'s, SeparatedList1<Expression>>
    decreases tokens.end - tokens.index, 1int,
{
    match spec_maybe(tokens.spec_terminal(TerminalToken::Comma), tokens) {
        Err(e) => Err(e),
        Ok((t1, None)) => Ok((t1, SeparatedList1 { items: List::Nil, last_item: prev })),
        Ok((t1, Some(sep))) => match spec_expression(t1, Precedence::Comma) {
            Err(e) => Err(e),
            Ok((t2, item)) => if tokens.advances_to(t2) {
                match spec_comma_values_rest(t2, item) {
                    Err(e) => Err(e),
                    Ok((t3, l)) => Ok(
                        (
                            t3,
                            SeparatedList1 {
                                items: List::Cons(Box::new((*prev, sep)), Box::new(l.items)),
                                last_item: l.last_item,
                            },
                        ),
                    ),
                }
            } else {
                spec_unreachable(tokens)
            },
        },
    }
}

fn comma_values_rest<'s>(tokens: TokenList<'s>, prev: Box<Expression>) -> (r: ParseResult<'s, SeparatedList1<Expression>>)
    requires
        tokens.wf(),
    ensures
        r == spec_comma_values_rest(tokens, prev),
        moves_on(tokens, r),
    decreases tokens.end - tokens.index, 1int,
{
    proof {
        reveal(spec_comma_values_rest);
        reveal(spec_expression);
    }
    let (t1, sep) = maybe(tokens.terminal(TerminalToken::Comma), tokens)?;
    match sep {
        None => Ok((t1, SeparatedList1 { items: List::Nil, last_item: prev })),
        Some(sep) => {
            let (t2, item) = expression(t1, Precedence::Comma)?;
            let (t3, l) = comma_values_rest(t2, item)?;
            Ok(
                (
                    t3,
                    SeparatedList1 {
                        items: List::Cons(Box::new((*prev, sep)), Box::new(l.items)),
                        last_item: l.last_item,
                    },
                ),
            )
        },
    }
}

} // verus!
