//! Class definitions.
use crate::ast::{
    ClassDefinition, ClassExtends, ClassMember, Expression, FunctionDefinition, Identifier, List,
    MethodIdentifier, Precedence, VarInitializer,
};
use crate::error::{ContextType, ParseErrorType};
use crate::parser::expression::{expression, spec_expression};
use crate::parser::function::{function_definition, spec_function_definition};
use crate::parser::identifier::{identifier, method_identifier, spec_identifier, spec_method_identifier};
use crate::parser::result::{
    ParseResult, consumes, definite, is_soft_err, maybe, moves_on, or_error, spec_definite,
    spec_map_val, spec_maybe, spec_or_error, spec_or_try, spec_unreachable, spec_with_context,
    with_context,
};
use crate::parser::token_list::TokenList;
use crate::parser::variable::{spec_var_initializer, var_initializer};
use crate::token::TerminalToken;
use vstd::prelude::*;

verus! {

#[verifier::opaque]
pub open spec fn spec_class_extends<'s>(tokens: TokenList<'s>) -> ParseResult<'s, ClassExtends>
    decreases tokens.end - tokens.index, 1int,
{
    match tokens.spec_terminal(TerminalToken::Extends) {
        Err(e) => Err(e),
        Ok((t1, extends)) => spec_definite(
            spec_map_val(
                spec_expression(t1, Precedence::Lowest),
                |name: Box<Expression>| ClassExtends { extends, name },
            ),
        ),
    }
}

/// `extends base`
pub fn class_extends<'s>(tokens: TokenList<'s>) -> (r: ParseResult<'s, ClassExtends>)
    requires
        tokens.wf(),
    ensures
        r == spec_class_extends(tokens),
        consumes(tokens, r),
    decreases tokens.end - tokens.index, 1int,
{
    proof {
        reveal(spec_class_extends);
        reveal(spec_expression);
    }
    let (t1, extends) = tokens.terminal(TerminalToken::Extends)?;
    definite(
        match expression(t1, Precedence::Lowest) {
            Ok((t2, name)) => Ok((t2, ClassExtends { extends, name })),
            Err(e) => Err(e),
        },
    )
}

#[verifier::opaque]
pub open spec fn spec_class_definition<'s>(tokens: TokenList<'s>) -> ParseResult<'s, ClassDefinition>
    decreases tokens.end - tokens.index, 2int,
{
    match spec_maybe(spec_class_extends(tokens), tokens) {
        Err(e) => Err(e),
        Ok((t1, extends)) => if tokens.follows(t1) {
            match t1.spec_terminal(TerminalToken::OpenBrace) {
                Err(e) => Err(e),
                Ok((t2, open)) => spec_with_context(
                    match spec_class_members(t2) {
                        Err(e) => Err(e),
                        Ok((t3, members)) => match t3.spec_terminal(TerminalToken::CloseBrace) {
                            Err(e) => Err(e),
                            Ok((t4, close)) => Ok((t4, ClassDefinition { extends, open, members, close })),
                        },
                    },
                    ContextType::Span,
                    t1,
                ),
            }
        } else {
            spec_unreachable(tokens)
        },
    }
}

/// `extends base { members }`, where the base class may be left out.
pub fn class_definition<'s>(tokens: TokenList<'s>) -> (r: ParseResult<'s, ClassDefinition>)
    requires
        tokens.wf(),
    ensures
        r == spec_class_definition(tokens),
        consumes(tokens, r),
    decreases tokens.end - tokens.index, 2int,
{
    proof {
        reveal(spec_class_definition);
        reveal(spec_class_extends);
        reveal(spec_class_members);
    }
    let (t1, extends) = maybe(class_extends(tokens), tokens)?;
    let (t2, open) = t1.terminal(TerminalToken::OpenBrace)?;
    with_context(
        match class_members(t2) {
            Err(e) => Err(e),
            Ok((t3, members)) => match t3.terminal(TerminalToken::CloseBrace) {
                Err(e) => Err(e),
                Ok((t4, close)) => Ok((t4, ClassDefinition { extends, open, members, close })),
            },
        },
        ContextType::Span,
        t1,
    )
}

#[verifier::opaque]
pub open spec fn spec_method_member<'s>(tokens: TokenList<'s>) -> ParseResult<'s, ClassMember>
    decreases tokens.end - tokens.index, 1int,
{
    match tokens.spec_terminal(TerminalToken::Function) {
        Err(e) => Err(e),
        Ok((t1, function)) => spec_definite(
            match spec_method_identifier(t1) {
                Err(e) => Err(e),
                Ok((t2, name)) => spec_map_val(
                    spec_function_definition(t2),
                    |d: FunctionDefinition| ClassMember::Function { function, name, definition: Box::new(d) },
                ),
            },
        ),
    }
}

/// `function name(params) body`
fn method_member<'s>(tokens: TokenList<'s>) -> (r: ParseResult<'s, ClassMember>)
    requires
        tokens.wf(),
    ensures
        r == spec_method_member(tokens),
        consumes(tokens, r),
    decreases tokens.end - tokens.index, 1int,
{
    proof {
        reveal(spec_method_member);
        reveal(spec_function_definition);
    }
    let (t1, function) = tokens.terminal(TerminalToken::Function)?;
    definite(
        match method_identifier(t1) {
            Err(e) => Err(e),
            Ok((t2, name)) => match function_definition(t2) {
                Ok((t3, d)) => Ok((t3, ClassMember::Function { function, name, definition: Box::new(d) })),
                Err(e) => Err(e),
            },
        },
    )
}

#[verifier::opaque]
pub open spec fn spec_constructor_member<'s>(tokens: TokenList<'s>) -> ParseResult<'s, ClassMember>
    decreases tokens.end - tokens.index, 1int,
{
    match tokens.spec_terminal(TerminalToken::Constructor) {
        Err(e) => Err(e),
        Ok((t1, constructor)) => spec_definite(
            spec_map_val(
                spec_function_definition(t1),
                |d: FunctionDefinition| ClassMember::Constructor { constructor, definition: Box::new(d) },
            ),
        ),
    }
}

/// `constructor(params) body`
fn constructor_member<'s>(tokens: TokenList<'s>) -> (r: ParseResult<'s, ClassMember>)
    requires
        tokens.wf(),
    ensures
        r == spec_constructor_member(tokens),
        consumes(tokens, r),
    decreases tokens.end - tokens.index, 1int,
{
    proof {
        reveal(spec_constructor_member);
        reveal(spec_function_definition);
    }
    let (t1, constructor) = tokens.terminal(TerminalToken::Constructor)?;
    definite(
        match function_definition(t1) {
            Ok((t2, d)) => Ok((t2, ClassMember::Constructor { constructor, definition: Box::new(d) })),
            Err(e) => Err(e),
        },
    )
}

#[verifier::opaque]
pub open spec fn spec_property_member<'s>(tokens: TokenList<'s>) -> ParseResult<'s, ClassMember>
    decreases tokens.end - tokens.index, 1int,
{
    match spec_identifier(tokens) {
        Err(e) => Err(e),
        Ok((t1, name)) => match spec_maybe(spec_var_initializer(t1), t1) {
            Err(e) => Err(e),
            Ok((t2, initializer)) => match spec_maybe(t2.spec_terminal(TerminalToken::Semicolon), t2) {
                Err(e) => Err(e),
                Ok((t3, semicolon)) => Ok((t3, ClassMember::Property { name, initializer, semicolon })),
            },
        },
    }
}

/// `name = value;`
fn property_member<'s>(tokens: TokenList<'s>) -> (r: ParseResult<'s, ClassMember>)
    requires
        tokens.wf(),
    ensures
        r == spec_property_member(tokens),
        consumes(tokens, r),
    decreases tokens.end - tokens.index, 1int,
{
    proof {
        reveal(spec_property_member);
        reveal(spec_var_initializer);
    }
    let (t1, name) = identifier(tokens)?;
    let (t2, initializer) = maybe(var_initializer(t1), t1)?;
    let (t3, semicolon) = maybe(t2.terminal(TerminalToken::Semicolon), t2)?;
    Ok((t3, ClassMember::Property { name, initializer, semicolon }))
}

#[verifier::opaque]
pub open spec fn spec_class_member<'s>(tokens: TokenList<'s>) -> ParseResult<'s, ClassMember>
    decreases tokens.end - tokens.index, 2int,
{
    let r = spec_method_member(tokens);
    let r = spec_or_try(r, spec_constructor_member(tokens));
    let r = spec_or_try(r, spec_property_member(tokens));
    spec_or_error(r, tokens.spec_error(ParseErrorType::ExpectedClassMember))
}

/// A method, the constructor, or a property.
pub fn class_member<'s>(tokens: TokenList<'s>) -> (r: ParseResult<'s, ClassMember>)
    requires
        tokens.wf(),
    ensures
        r == spec_class_member(tokens),
        consumes(tokens, r),
    decreases tokens.end - tokens.index, 2int,
{
    proof {
        reveal(spec_class_member);
        reveal(spec_method_member);
        reveal(spec_constructor_member);
        reveal(spec_property_member);
    }
    let r = method_member(tokens);
    let r = if is_soft_err(&r) {
        constructor_member(tokens)
    } else {
        r
    };
    let r = if is_soft_err(&r) {
        property_member(tokens)
    } else {
        r
    };
    or_error(r, tokens.error(ParseErrorType::ExpectedClassMember))
}

#[verifier::opaque]
pub open spec fn spec_class_members<'s>(tokens: TokenList<'s>) -> ParseResult<'s, List<ClassMember>>
    decreases tokens.end - tokens.index, 3int,
{
    match spec_maybe(spec_class_member(tokens), tokens) {
        Err(e) => Err(e),
        Ok((t1, None)) => Ok((t1, List::Nil)),
        Ok((t1, Some(m))) => if tokens.advances_to(t1) {
            spec_map_val(
                spec_class_members(t1),
                |l: List<ClassMember>| List::Cons(Box::new(m), Box::new(l)),
            )
        } else {
            spec_unreachable(tokens)
        },
    }
}

/// A list of each class member reads every one there is: where it ends, no class member starts.
pub proof fn lemma_class_members_read_all<'s>(tokens: TokenList<'s>)
    ensures
        spec_class_members(tokens) matches Ok((t, _)) ==> crate::parser::result::is_soft(spec_class_member(t)),
    decreases tokens.end - tokens.index,
{
    reveal(spec_class_members);
    reveal(spec_class_member);
    match crate::parser::result::spec_maybe(spec_class_member(tokens), tokens) {
        Ok((t1, Some(_))) => {
            if tokens.advances_to(t1) {
                lemma_class_members_read_all(t1);
            }
        },
        _ => {},
    }
}

/// As many members as there are.
pub fn class_members<'s>(tokens: TokenList<'s>) -> (r: ParseResult<'s, List<ClassMember>>)
    requires
        tokens.wf(),
    ensures
        r == spec_class_members(tokens),
        moves_on(tokens, r),
    decreases tokens.end - tokens.index, 3int,
{
    proof {
        reveal(spec_class_members);
        reveal(spec_class_member);
    }
    let (t1, m) = maybe(class_member(tokens), tokens)?;
    match m {
        None => Ok((t1, List::Nil)),
        Some(m) => match class_members(t1) {
            Ok((t2, l)) => Ok((t2, List::Cons(Box::new(m), Box::new(l)))),
            Err(e) => Err(e),
        },
    }
}

} // verus!
