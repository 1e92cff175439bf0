//! Definitions after `global`.
use crate::ast::{
    ClassDefinitionStatement, ConstDefinitionStatement, EnumDefinitionStatement, GlobalDefinition,
    Identifier, StructDefinitionStatement, TypeDefinitionStatement, VarDefinitionStatement,
    VarInitializer,
};
use crate::error::ParseErrorType;
use crate::parser::identifier::{identifier, spec_identifier};
use crate::parser::result::{
    ParseResult, consumes, definite, is_soft_err, not_definite, not_line_ending, or_error,
    spec_definite, spec_map_val, spec_not_definite, spec_not_line_ending, spec_or_error,
    spec_or_try, spec_unreachable,
};
use crate::parser::statement::{
    class_definition_statement, const_definition_statement, enum_definition_statement,
    spec_class_definition_statement, spec_const_definition_statement,
    spec_enum_definition_statement, spec_struct_definition_statement,
    spec_type_definition_statement, spec_typed_var_definition_statement,
    struct_definition_statement, type_definition_statement, typed_var_definition_statement,
};
use crate::parser::token_list::TokenList;
use crate::parser::type_::{spec_type_, type_};
use crate::parser::variable::{spec_var_initializer, var_initializer};
use crate::token::TerminalToken;
use vstd::prelude::*;

verus! {

#[verifier::opaque]
pub open spec fn spec_global_definition<'s>(tokens: TokenList<'s>) -> ParseResult<'s, GlobalDefinition>
    decreases tokens.end - tokens.index, 7int,
{
    let r = spec_function_global(tokens);
    let r = spec_or_try(r, spec_const_global(tokens));
    let r = spec_or_try(r, spec_enum_global(tokens));
    let r = spec_or_try(r, spec_class_global(tokens));
    let r = spec_or_try(r, spec_struct_global(tokens));
    let r = spec_or_try(r, spec_type_global(tokens));
    let r = spec_or_try(r, spec_untyped_var_global(tokens));
    let r = spec_or_try(r, spec_typed_var_global(tokens));
    spec_or_error(r, tokens.spec_error(ParseErrorType::ExpectedGlobalDefinition))
}

/// What may follow `global`: a function name, or a constant, enum, class, struct, type or
/// variable definition.
pub fn global_definition<'s>(tokens: TokenList<'s>) -> (r: ParseResult<'s, GlobalDefinition>)
    requires
        tokens.wf(),
    ensures
        r == spec_global_definition(tokens),
        consumes(tokens, r),
    decreases tokens.end - tokens.index, 7int,
{
    proof {
        reveal(spec_global_definition);
        reveal(spec_const_global);
        reveal(spec_enum_global);
        reveal(spec_class_global);
        reveal(spec_struct_global);
        reveal(spec_type_global);
        reveal(spec_untyped_var_global);
        reveal(spec_typed_var_global);
    }
    let r = function_global(tokens);
    let r = if is_soft_err(&r) { const_global(tokens) } else { r };
    let r = if is_soft_err(&r) { enum_global(tokens) } else { r };
    let r = if is_soft_err(&r) { class_global(tokens) } else { r };
    let r = if is_soft_err(&r) { struct_global(tokens) } else { r };
    let r = if is_soft_err(&r) { type_global(tokens) } else { r };
    let r = if is_soft_err(&r) { untyped_var_global(tokens) } else { r };
    let r = if is_soft_err(&r) { typed_var_global(tokens) } else { r };
    or_error(r, tokens.error(ParseErrorType::ExpectedGlobalDefinition))
}

pub open spec fn spec_function_global<'s>(tokens: TokenList<'s>) -> ParseResult<'s, GlobalDefinition> {
    match tokens.spec_terminal(TerminalToken::Function) {
        Err(e) => Err(e),
        Ok((t1, function)) => spec_definite(
            spec_map_val(spec_identifier(t1), |name: Identifier| GlobalDefinition::Function { function, name }),
        ),
    }
}

/// `function name`
fn function_global<'s>(tokens: TokenList<'s>) -> (r: ParseResult<'s, GlobalDefinition>)
    requires
        tokens.wf(),
    ensures
        r == spec_function_global(tokens),
        consumes(tokens, r),
{
    let (t1, function) = tokens.terminal(TerminalToken::Function)?;
    definite(
        match identifier(t1) {
            Ok((t2, name)) => Ok((t2, GlobalDefinition::Function { function, name })),
            Err(e) => Err(e),
        },
    )
}

#[verifier::opaque]
pub open spec fn spec_const_global<'s>(tokens: TokenList<'s>) -> ParseResult<'s, GlobalDefinition>
    decreases tokens.end - tokens.index, 2int,
{
    spec_map_val(spec_const_definition_statement(tokens), |s: ConstDefinitionStatement| GlobalDefinition::Const(s))
}

fn const_global<'s>(tokens: TokenList<'s>) -> (r: ParseResult<'s, GlobalDefinition>)
    requires
        tokens.wf(),
    ensures
        r == spec_const_global(tokens),
        consumes(tokens, r),
    decreases tokens.end - tokens.index, 2int,
{
    proof {
        reveal(spec_const_global);
        reveal(spec_const_definition_statement);
    }
    match const_definition_statement(tokens) {
        Ok((t, s)) => Ok((t, GlobalDefinition::Const(s))),
        Err(e) => Err(e),
    }
}

#[verifier::opaque]
pub open spec fn spec_enum_global<'s>(tokens: TokenList<'s>) -> ParseResult<'s, GlobalDefinition>
    decreases tokens.end - tokens.index, 2int,
{
    spec_map_val(spec_enum_definition_statement(tokens), |s: EnumDefinitionStatement| GlobalDefinition::Enum(s))
}

/// After `global`, an enum definition is read as a global enum: when the tokens start with
/// neither `function` nor `const`, an enum definition that parses is the global definition.
pub proof fn lemma_global_enum<'s>(tokens: TokenList<'s>)
    requires
        !tokens.next_is(TerminalToken::Function),
        !tokens.next_is(TerminalToken::Const),
    ensures
        spec_enum_definition_statement(tokens) matches Ok((t, s)) ==> spec_global_definition(tokens)
            == Ok::<(TokenList<'s>, GlobalDefinition), crate::error::ParseError>((t, GlobalDefinition::Enum(s))),
{
    reveal(spec_global_definition);
    reveal(spec_const_global);
    reveal(spec_const_definition_statement);
    reveal(spec_enum_global);
    reveal(spec_enum_definition_statement);
    reveal(spec_class_global);
    reveal(spec_struct_global);
    reveal(spec_type_global);
    reveal(spec_untyped_var_global);
    reveal(spec_typed_var_global);
}

/// After `global`, the first keyword decides the definition: `function`, `const`, `enum`,
/// `class`, `struct` and `typedef` each start the global definition of their own kind.
pub proof fn lemma_global_by_keyword<'s>(tokens: TokenList<'s>)
    ensures
        tokens.next_is(TerminalToken::Function) ==> spec_global_definition(tokens) == spec_function_global(tokens),
        tokens.next_is(TerminalToken::Const) ==> spec_global_definition(tokens) == spec_const_global(tokens),
        tokens.next_is(TerminalToken::Enum) ==> spec_global_definition(tokens) == spec_enum_global(tokens),
        tokens.next_is(TerminalToken::Class) ==> spec_global_definition(tokens) == spec_class_global(tokens),
        tokens.next_is(TerminalToken::Struct) ==> spec_global_definition(tokens) == spec_struct_global(tokens),
        tokens.next_is(TerminalToken::Typedef) ==> spec_global_definition(tokens) == spec_type_global(tokens),
{
    reveal(spec_global_definition);
    reveal(spec_const_global);
    reveal(spec_const_definition_statement);
    reveal(spec_enum_global);
    reveal(spec_enum_definition_statement);
    reveal(spec_class_global);
    reveal(spec_class_definition_statement);
    reveal(spec_struct_global);
    reveal(spec_struct_definition_statement);
    reveal(spec_type_global);
    reveal(spec_type_definition_statement);
    reveal(spec_untyped_var_global);
    reveal(spec_typed_var_global);
}

fn enum_global<'s>(tokens: TokenList<'s>) -> (r: ParseResult<'s, GlobalDefinition>)
    requires
        tokens.wf(),
    ensures
        r == spec_enum_global(tokens),
        consumes(tokens, r),
    decreases tokens.end - tokens.index, 2int,
{
    proof {
        reveal(spec_enum_global);
        reveal(spec_enum_definition_statement);
    }
    match enum_definition_statement(tokens) {
        Ok((t, s)) => Ok((t, GlobalDefinition::Enum(s))),
        Err(e) => Err(e),
    }
}

#[verifier::opaque]
pub open spec fn spec_class_global<'s>(tokens: TokenList<'s>) -> ParseResult<'s, GlobalDefinition>
    decreases tokens.end - tokens.index, 2int,
{
    spec_map_val(spec_class_definition_statement(tokens), |s: ClassDefinitionStatement| GlobalDefinition::Class(s))
}

fn class_global<'s>(tokens: TokenList<'s>) -> (r: ParseResult<'s, GlobalDefinition>)
    requires
        tokens.wf(),
    ensures
        r == spec_class_global(tokens),
        consumes(tokens, r),
    decreases tokens.end - tokens.index, 2int,
{
    proof {
        reveal(spec_class_global);
        reveal(spec_class_definition_statement);
    }
    match class_definition_statement(tokens) {
        Ok((t, s)) => Ok((t, GlobalDefinition::Class(s))),
        Err(e) => Err(e),
    }
}

#[verifier::opaque]
pub open spec fn spec_struct_global<'s>(tokens: TokenList<'s>) -> ParseResult<'s, GlobalDefinition>
    decreases tokens.end - tokens.index, 2int,
{
    spec_map_val(spec_struct_definition_statement(tokens), |s: StructDefinitionStatement| GlobalDefinition::Struct(s))
}

fn struct_global<'s>(tokens: TokenList<'s>) -> (r: ParseResult<'s, GlobalDefinition>)
    requires
        tokens.wf(),
    ensures
        r == spec_struct_global(tokens),
        consumes(tokens, r),
    decreases tokens.end - tokens.index, 2int,
{
    proof {
        reveal(spec_struct_global);
        reveal(spec_struct_definition_statement);
    }
    match struct_definition_statement(tokens) {
        Ok((t, s)) => Ok((t, GlobalDefinition::Struct(s))),
        Err(e) => Err(e),
    }
}

#[verifier::opaque]
pub open spec fn spec_type_global<'s>(tokens: TokenList<'s>) -> ParseResult<'s, GlobalDefinition>
    decreases tokens.end - tokens.index, 2int,
{
    spec_map_val(spec_type_definition_statement(tokens), |s: TypeDefinitionStatement| GlobalDefinition::Type(s))
}

fn type_global<'s>(tokens: TokenList<'s>) -> (r: ParseResult<'s, GlobalDefinition>)
    requires
        tokens.wf(),
    ensures
        r == spec_type_global(tokens),
        consumes(tokens, r),
    decreases tokens.end - tokens.index, 2int,
{
    proof {
        reveal(spec_type_global);
        reveal(spec_type_definition_statement);
    }
    match type_definition_statement(tokens) {
        Ok((t, s)) => Ok((t, GlobalDefinition::Type(s))),
        Err(e) => Err(e),
    }
}

#[verifier::opaque]
pub open spec fn spec_untyped_var_global<'s>(tokens: TokenList<'s>) -> ParseResult<'s, GlobalDefinition>
    decreases tokens.end - tokens.index, 1int,
{
    match spec_identifier(tokens) {
        Err(e) => Err(e),
        Ok((t1, name)) => spec_map_val(
            spec_var_initializer(t1),
            |initializer: VarInitializer| GlobalDefinition::UntypedVar { name, initializer },
        ),
    }
}

/// `name = value`
fn untyped_var_global<'s>(tokens: TokenList<'s>) -> (r: ParseResult<'s, GlobalDefinition>)
    requires
        tokens.wf(),
    ensures
        r == spec_untyped_var_global(tokens),
        consumes(tokens, r),
    decreases tokens.end - tokens.index, 1int,
{
    proof {
        reveal(spec_untyped_var_global);
        reveal(spec_var_initializer);
    }
    let (t1, name) = identifier(tokens)?;
    match var_initializer(t1) {
        Ok((t2, initializer)) => Ok((t2, GlobalDefinition::UntypedVar { name, initializer })),
        Err(e) => Err(e),
    }
}

#[verifier::opaque]
pub open spec fn spec_typed_var_global<'s>(tokens: TokenList<'s>) -> ParseResult<'s, GlobalDefinition>
    decreases tokens.end - tokens.index, 6int,
{
    match spec_not_definite(spec_not_line_ending(spec_type_(tokens))) {
        Err(e) => Err(e),
        Ok((t1, type_)) => if tokens.advances_to(t1) {
            spec_map_val(
                spec_typed_var_definition_statement(t1, type_),
                |s: VarDefinitionStatement| GlobalDefinition::TypedVar(s),
            )
        } else {
            spec_unreachable(tokens)
        },
    }
}

/// `T name = value`, with the name on the type's line.
fn typed_var_global<'s>(tokens: TokenList<'s>) -> (r: ParseResult<'s, GlobalDefinition>)
    requires
        tokens.wf(),
    ensures
        r == spec_typed_var_global(tokens),
        consumes(tokens, r),
    decreases tokens.end - tokens.index, 6int,
{
    proof {
        reveal(spec_typed_var_global);
        reveal(spec_type_);
        reveal(spec_typed_var_definition_statement);
    }
    let (t1, type_) = not_definite(not_line_ending(type_(tokens)))?;
    match typed_var_definition_statement(t1, type_) {
        Ok((t2, s)) => Ok((t2, GlobalDefinition::TypedVar(s))),
        Err(e) => Err(e),
    }
}

} // verus!
