//! Types. Only Respawn's flavor has types; the other flavors have `local` alone.
use crate::ast::{
    ArrayType, Expression, FunctionRefParam, FunctionRefType, GenericType, Identifier, List,
    LocalType, NullableType, PlainType, Precedence, ReferenceType, SeparatedListTrailing0,
    SeparatedListTrailing1, StructDefinition, StructType, Type,
};
use crate::error::{ContextType, ParseErrorType};
use crate::parser::expression::{expression, spec_expression};
use crate::parser::identifier::{identifier, spec_identifier};
use crate::parser::result::{
    is_soft,
    ParseResult, consumes, definite, is_soft_err, maybe, moves_on, or_error, spec_definite,
    spec_map_val, spec_maybe, spec_or_error, spec_or_try, spec_unreachable, spec_with_context,
    with_context,
};
use crate::parser::struct_::{spec_struct_definition, struct_definition};
use crate::parser::token_list::TokenList;
use crate::parser::token_list_ext::{end_group, spec_end_group};
use crate::token::{Flavor, TerminalToken};
use vstd::prelude::*;

verus! {

/// What a type modifier adds to the type before it.
pub enum TypeModifier {
    /// `[len]`
    Array { open: usize, len: Box<Expression>, close: usize },
    /// `<A, B>`
    Generic { open: usize, params: SeparatedListTrailing1<Type>, close: usize },
    /// `functionref(params)`, returning the type before it.
    FunctionRef(FunctionRefType),
    /// `&`
    Reference { reference: usize },
    /// `ornull`
    Nullable { ornull: usize },
}

pub open spec fn spec_apply_modifier(base: Type, m: TypeModifier) -> Type {
    match m {
        TypeModifier::Array { open, len, close } => Type::Array(
            ArrayType { base: Box::new(base), open, len, close },
        ),
        TypeModifier::Generic { open, params, close } => Type::Generic(
            GenericType { base: Box::new(base), open, params, close },
        ),
        TypeModifier::FunctionRef(f) => Type::FunctionRef(
            FunctionRefType { return_type: Some(Box::new(base)), ..f },
        ),
        TypeModifier::Reference { reference } => Type::Reference(
            ReferenceType { base: Box::new(base), reference },
        ),
        TypeModifier::Nullable { ornull } => Type::Nullable(
            NullableType { base: Box::new(base), ornull },
        ),
    }
}

/// The type `base` with the modifier `m` applied to it.
pub fn apply_modifier(base: Type, m: TypeModifier) -> (r: Type)
    ensures
        r == spec_apply_modifier(base, m),
{
    match m {
        TypeModifier::Array { open, len, close } => Type::Array(
            ArrayType { base: Box::new(base), open, len, close },
        ),
        TypeModifier::Generic { open, params, close } => Type::Generic(
            GenericType { base: Box::new(base), open, params, close },
        ),
        TypeModifier::FunctionRef(f) => Type::FunctionRef(
            FunctionRefType {
                return_type: Some(Box::new(base)),
                functionref: f.functionref,
                open: f.open,
                params: f.params,
                close: f.close,
            },
        ),
        TypeModifier::Reference { reference } => Type::Reference(
            ReferenceType { base: Box::new(base), reference },
        ),
        TypeModifier::Nullable { ornull } => Type::Nullable(
            NullableType { base: Box::new(base), ornull },
        ),
    }
}

#[verifier::opaque]
pub open spec fn spec_type_<'s>(tokens: TokenList<'s>) -> ParseResult<'s, Type>
    decreases tokens.end - tokens.index, 5int,
{
    if tokens.flavor != Flavor::SquirrelRespawn {
        spec_map_val(spec_local(tokens), |l: LocalType| Type::Local(l))
    } else {
        match spec_base(tokens) {
            Err(e) => Err(e),
            Ok((t1, ty)) => if tokens.follows(t1) {
                spec_type_rest(tokens, t1, ty)
            } else {
                spec_unreachable(tokens)
            },
        }
    }
}

/// A type: a base type followed by any number of modifiers.
pub fn type_<'s>(tokens: TokenList<'s>) -> (r: ParseResult<'s, Type>)
    requires
        tokens.wf(),
    ensures
        r == spec_type_(tokens),
        consumes(tokens, r),
    decreases tokens.end - tokens.index, 5int,
{
    proof {
        reveal(spec_type_);
        reveal(spec_base);
        reveal(spec_type_rest);
    }
    // Only SquirrelRespawn supports types. Other flavors only support `local`.
    if tokens.flavor() != Flavor::SquirrelRespawn {
        return match local(tokens) {
            Ok((t, l)) => Ok((t, Type::Local(l))),
            Err(e) => Err(e),
        };
    }
    let (t1, ty) = base(tokens)?;
    type_rest(tokens, t1, ty)
}

#[verifier::opaque]
pub open spec fn spec_type_rest<'s>(start: TokenList<'s>, tokens: TokenList<'s>, ty: Type) -> ParseResult<
    's,
    Type,
>
    decreases tokens.end - tokens.index, 4int,
{
    match spec_maybe(spec_with_context(spec_modifier(tokens), ContextType::Type, start), tokens) {
        Err(e) => Err(e),
        Ok((t1, None)) => Ok((t1, ty)),
        Ok((t1, Some(m))) => if tokens.advances_to(t1) {
            spec_type_rest(start, t1, spec_apply_modifier(ty, m))
        } else {
            spec_unreachable(tokens)
        },
    }
}

/// The modifiers after a type are all read: where the rest of a type ends, no modifier starts.
pub proof fn lemma_type_rest_reads_all_modifiers<'s>(start: TokenList<'s>, tokens: TokenList<'s>, ty: Type)
    ensures
        spec_type_rest(start, tokens, ty) matches Ok((t, _)) ==> crate::parser::result::is_soft(
            spec_modifier(t),
        ),
    decreases tokens.end - tokens.index,
{
    reveal(spec_type_rest);
    reveal(spec_modifier);
    match spec_maybe(spec_with_context(spec_modifier(tokens), ContextType::Type, start), tokens) {
        Err(_) => {},
        Ok((_, None)) => {},
        Ok((t1, Some(m))) => {
            if tokens.advances_to(t1) {
                lemma_type_rest_reads_all_modifiers(start, t1, spec_apply_modifier(ty, m));
            }
        },
    }
}

/// A type is a base type followed by every modifier after it (`[n]`, `<...>`, `functionref(...)`,
/// `&`, `ornull`): a type is never returned before a modifier that follows it.
pub proof fn lemma_type_reads_all_modifiers<'s>(tokens: TokenList<'s>)
    requires
        tokens.flavor == Flavor::SquirrelRespawn,
    ensures
        spec_type_(tokens) matches Ok((t, _)) ==> crate::parser::result::is_soft(spec_modifier(t)),
{
    reveal(spec_type_);
    reveal(spec_base);
    reveal(spec_type_rest);
    match spec_base(tokens) {
        Err(_) => {},
        Ok((t1, ty)) => {
            lemma_type_rest_reads_all_modifiers(tokens, t1, ty);
        },
    }
}

/// Each type modifier is read by its own first token: `[` an array length, `<` generic
/// arguments, `functionref` a function reference, `&` a reference and `ornull` a nullable type.
pub proof fn lemma_modifier_by_token<'s>(tokens: TokenList<'s>)
    ensures
        tokens.next_is(TerminalToken::OpenSquare) && !is_soft(spec_array_modifier(tokens))
            ==> spec_modifier(tokens) == spec_array_modifier(tokens),
        tokens.next_is(TerminalToken::Less) && !is_soft(spec_generic(tokens)) ==> spec_modifier(tokens)
            == spec_generic(tokens),
        tokens.next_is(TerminalToken::FunctionRef) ==> spec_modifier(tokens) == spec_typed_function_ref(
            tokens,
        ),
        tokens.next_is(TerminalToken::BitwiseAnd) ==> spec_modifier(tokens) == spec_reference(tokens),
        tokens.next_is(TerminalToken::OrNull) ==> spec_modifier(tokens) == spec_nullable(tokens),
        tokens.next_is(TerminalToken::BitwiseAnd) || tokens.next_is(TerminalToken::OrNull) ==> spec_modifier(
            tokens,
        ) is Ok,
{
    reveal(spec_modifier);
    reveal(spec_array_modifier);
    reveal(spec_generic);
    reveal(spec_typed_function_ref);
    reveal(spec_function_ref);
}

/// The modifiers after the type `ty`, which started at `start`.
fn type_rest<'s>(start: TokenList<'s>, tokens: TokenList<'s>, ty: Type) -> (r: ParseResult<'s, Type>)
    requires
        tokens.wf(),
    ensures
        r == spec_type_rest(start, tokens, ty),
        moves_on(tokens, r),
    decreases tokens.end - tokens.index, 4int,
{
    proof {
        reveal(spec_type_rest);
        reveal(spec_modifier);
    }
    let (t1, m) = maybe(with_context(modifier(tokens), ContextType::Type, start), tokens)?;
    match m {
        None => Ok((t1, ty)),
        Some(m) => type_rest(start, t1, apply_modifier(ty, m)),
    }
}

#[verifier::opaque]
pub open spec fn spec_base<'s>(tokens: TokenList<'s>) -> ParseResult<'s, Type>
    decreases tokens.end - tokens.index, 3int,
{
    let r = spec_map_val(spec_local(tokens), |l: LocalType| Type::Local(l));
    let r = spec_or_try(r, spec_map_val(spec_plain(tokens), |p: PlainType| Type::Plain(p)));
    let r = spec_or_try(
        r,
        spec_map_val(spec_void_function_ref(tokens), |f: FunctionRefType| Type::FunctionRef(f)),
    );
    let r = spec_or_try(r, spec_map_val(spec_struct_(tokens), |s: StructType| Type::Struct(s)));
    spec_or_error(r, tokens.spec_error(ParseErrorType::ExpectedType))
}

fn base<'s>(tokens: TokenList<'s>) -> (r: ParseResult<'s, Type>)
    requires
        tokens.wf(),
    ensures
        r == spec_base(tokens),
        consumes(tokens, r),
    decreases tokens.end - tokens.index, 3int,
{
    proof {
        reveal(spec_base);
        reveal(spec_void_function_ref);
        reveal(spec_struct_);
    }
    let r = match local(tokens) {
        Ok((t, l)) => Ok((t, Type::Local(l))),
        Err(e) => Err(e),
    };
    let r = if is_soft_err(&r) {
        match plain(tokens) {
            Ok((t, p)) => Ok((t, Type::Plain(p))),
            Err(e) => Err(e),
        }
    } else {
        r
    };
    let r = if is_soft_err(&r) {
        match void_function_ref(tokens) {
            Ok((t, f)) => Ok((t, Type::FunctionRef(f))),
            Err(e) => Err(e),
        }
    } else {
        r
    };
    let r = if is_soft_err(&r) {
        match struct_(tokens) {
            Ok((t, s)) => Ok((t, Type::Struct(s))),
            Err(e) => Err(e),
        }
    } else {
        r
    };
    or_error(r, tokens.error(ParseErrorType::ExpectedType))
}

pub open spec fn spec_local<'s>(tokens: TokenList<'s>) -> ParseResult<'s, LocalType> {
    spec_map_val(tokens.spec_terminal(TerminalToken::Local), |local: usize| LocalType { local })
}

/// `local`
pub fn local<'s>(tokens: TokenList<'s>) -> (r: ParseResult<'s, LocalType>)
    requires
        tokens.wf(),
    ensures
        r == spec_local(tokens),
        consumes(tokens, r),
{
    match tokens.terminal(TerminalToken::Local) {
        Ok((t, local)) => Ok((t, LocalType { local })),
        Err(e) => Err(e),
    }
}

pub open spec fn spec_plain<'s>(tokens: TokenList<'s>) -> ParseResult<'s, PlainType> {
    spec_map_val(spec_identifier(tokens), |name: Identifier| PlainType { name })
}

/// A named type.
pub fn plain<'s>(tokens: TokenList<'s>) -> (r: ParseResult<'s, PlainType>)
    requires
        tokens.wf(),
    ensures
        r == spec_plain(tokens),
        consumes(tokens, r),
{
    match identifier(tokens) {
        Ok((t, name)) => Ok((t, PlainType { name })),
        Err(e) => Err(e),
    }
}

#[verifier::opaque]
pub open spec fn spec_void_function_ref<'s>(tokens: TokenList<'s>) -> ParseResult<'s, FunctionRefType>
    decreases tokens.end - tokens.index, 2int,
{
    spec_function_ref(tokens)
}

/// A `functionref` type with no return type.
pub fn void_function_ref<'s>(tokens: TokenList<'s>) -> (r: ParseResult<'s, FunctionRefType>)
    requires
        tokens.wf(),
    ensures
        r == spec_void_function_ref(tokens),
        consumes(tokens, r),
    decreases tokens.end - tokens.index, 2int,
{
    proof {
        reveal(spec_void_function_ref);
        reveal(spec_function_ref);
    }
    function_ref(tokens)
}

#[verifier::opaque]
pub open spec fn spec_struct_<'s>(tokens: TokenList<'s>) -> ParseResult<'s, StructType>
    decreases tokens.end - tokens.index, 1int,
{
    match tokens.spec_terminal(TerminalToken::Struct) {
        Err(e) => Err(e),
        Ok((t1, struct_)) => spec_definite(
            spec_map_val(
                spec_struct_definition(t1),
                |definition: StructDefinition| StructType { struct_, definition },
            ),
        ),
    }
}

/// `struct { ... }`
pub fn struct_<'s>(tokens: TokenList<'s>) -> (r: ParseResult<'s, StructType>)
    requires
        tokens.wf(),
    ensures
        r == spec_struct_(tokens),
        consumes(tokens, r),
    decreases tokens.end - tokens.index, 1int,
{
    proof {
        reveal(spec_struct_);
        reveal(spec_struct_definition);
    }
    let (t1, struct_) = tokens.terminal(TerminalToken::Struct)?;
    definite(
        match struct_definition(t1) {
            Ok((t2, definition)) => Ok((t2, StructType { struct_, definition })),
            Err(e) => Err(e),
        },
    )
}

#[verifier::opaque]
pub open spec fn spec_modifier<'s>(tokens: TokenList<'s>) -> ParseResult<'s, TypeModifier>
    decreases tokens.end - tokens.index, 3int,
{
    let r = spec_array_modifier(tokens);
    let r = spec_or_try(r, spec_generic(tokens));
    let r = spec_or_try(r, spec_typed_function_ref(tokens));
    let r = spec_or_try(r, spec_reference(tokens));
    let r = spec_or_try(r, spec_nullable(tokens));
    spec_or_error(r, tokens.spec_error(ParseErrorType::ExpectedTypeModifier))
}

fn modifier<'s>(tokens: TokenList<'s>) -> (r: ParseResult<'s, TypeModifier>)
    requires
        tokens.wf(),
    ensures
        r == spec_modifier(tokens),
        consumes(tokens, r),
    decreases tokens.end - tokens.index, 3int,
{
    proof {
        reveal(spec_modifier);
        reveal(spec_array_modifier);
        reveal(spec_generic);
        reveal(spec_typed_function_ref);
    }
    let r = array_modifier(tokens);
    let r = if is_soft_err(&r) {
        generic(tokens)
    } else {
        r
    };
    let r = if is_soft_err(&r) {
        typed_function_ref(tokens)
    } else {
        r
    };
    let r = if is_soft_err(&r) {
        reference(tokens)
    } else {
        r
    };
    let r = if is_soft_err(&r) {
        nullable(tokens)
    } else {
        r
    };
    or_error(r, tokens.error(ParseErrorType::ExpectedTypeModifier))
}

#[verifier::opaque]
pub open spec fn spec_array_modifier<'s>(tokens: TokenList<'s>) -> ParseResult<'s, TypeModifier>
    decreases tokens.end - tokens.index, 1int,
{
    match tokens.spec_open_group(TerminalToken::OpenSquare, TerminalToken::CloseSquare) {
        Err(e) => Err(e),
        Ok((after, g)) => match spec_with_context(
            spec_end_group(spec_expression(g.inner, Precedence::Lowest), TerminalToken::CloseSquare),
            ContextType::Expression,
            tokens,
        ) {
            Err(e) => Err(e),
            Ok((_, len)) => Ok((after, TypeModifier::Array { open: g.open, len, close: g.close })),
        },
    }
}

/// `[len]`, where the length runs up to the matching `]`.
fn array_modifier<'s>(tokens: TokenList<'s>) -> (r: ParseResult<'s, TypeModifier>)
    requires
        tokens.wf(),
    ensures
        r == spec_array_modifier(tokens),
        consumes(tokens, r),
    decreases tokens.end - tokens.index, 1int,
{
    proof {
        reveal(spec_array_modifier);
        reveal(spec_expression);
    }
    let (after, g) = tokens.open_group(TerminalToken::OpenSquare, TerminalToken::CloseSquare)?;
    let (_, len) = with_context(
        end_group(expression(g.inner, Precedence::Lowest), TerminalToken::CloseSquare),
        ContextType::Expression,
        tokens,
    )?;
    Ok((after, TypeModifier::Array { open: g.open, len, close: g.close }))
}

#[verifier::opaque]
pub open spec fn spec_generic<'s>(tokens: TokenList<'s>) -> ParseResult<'s, TypeModifier>
    decreases tokens.end - tokens.index, 1int,
{
    spec_with_context(
        match tokens.spec_terminal(TerminalToken::Less) {
            Err(e) => Err(e),
            Ok((t1, open)) => spec_definite(
                match spec_generic_params(t1) {
                    Err(e) => Err(e),
                    Ok((t2, params)) => match t2.spec_terminal(TerminalToken::Greater) {
                        Err(e) => Err(e),
                        Ok((t3, close)) => Ok((t3, TypeModifier::Generic { open, params, close })),
                    },
                },
            ),
        },
        ContextType::GenericArgumentList,
        tokens,
    )
}

/// `<A, B>`
fn generic<'s>(tokens: TokenList<'s>) -> (r: ParseResult<'s, TypeModifier>)
    requires
        tokens.wf(),
    ensures
        r == spec_generic(tokens),
        consumes(tokens, r),
    decreases tokens.end - tokens.index, 1int,
{
    proof {
        reveal(spec_generic);
        reveal(spec_generic_params);
    }
    let r = match tokens.terminal(TerminalToken::Less) {
        Err(e) => Err(e),
        Ok((t1, open)) => definite(
            match generic_params(t1) {
                Err(e) => Err(e),
                Ok((t2, params)) => match t2.terminal(TerminalToken::Greater) {
                    Err(e) => Err(e),
                    Ok((t3, close)) => Ok((t3, TypeModifier::Generic { open, params, close })),
                },
            },
        ),
    };
    with_context(r, ContextType::GenericArgumentList, tokens)
}

#[verifier::opaque]
pub open spec fn spec_generic_param<'s>(tokens: TokenList<'s>) -> ParseResult<'s, Type>
    decreases tokens.end - tokens.index, 6int,
{
    if tokens.next_is(TerminalToken::Greater) {
        spec_type_(tokens)
    } else {
        spec_definite(spec_type_(tokens))
    }
}

/// One type argument. A `>` in its place ends the list softly, after a trailing comma.
fn generic_param<'s>(tokens: TokenList<'s>) -> (r: ParseResult<'s, Type>)
    requires
        tokens.wf(),
    ensures
        r == spec_generic_param(tokens),
        consumes(tokens, r),
    decreases tokens.end - tokens.index, 6int,
{
    proof {
        reveal(spec_generic_param);
        reveal(spec_type_);
    }
    let res = type_(tokens);
    if tokens.peek_terminal(TerminalToken::Greater) {
        res
    } else {
        definite(res)
    }
}

#[verifier::opaque]
pub open spec fn spec_generic_params<'s>(tokens: TokenList<'s>) -> ParseResult<'s, SeparatedListTrailing1<Type>>
    decreases tokens.end - tokens.index, 7int,
{
    match spec_generic_param(tokens) {
        Err(e) => Err(e),
        Ok((t1, first)) => if tokens.follows(t1) {
            spec_generic_params_rest(t1, first)
        } else {
            spec_unreachable(tokens)
        },
    }
}

fn generic_params<'s>(tokens: TokenList<'s>) -> (r: ParseResult<'s, SeparatedListTrailing1<Type>>)
    requires
        tokens.wf(),
    ensures
        r == spec_generic_params(tokens),
        consumes(tokens, r),
    decreases tokens.end - tokens.index, 7int,
{
    proof {
        reveal(spec_generic_params);
        reveal(spec_generic_param);
        reveal(spec_generic_params_rest);
    }
    let (t1, first) = generic_param(tokens)?;
    generic_params_rest(t1, first)
}

#[verifier::opaque]
pub open spec fn spec_generic_params_rest<'s>(tokens: TokenList<'s>, prev: Type) -> ParseResult<
    's,
    SeparatedListTrailing1<Type>,
>
    decreases tokens.end - tokens.index, 1int,
{
    match spec_maybe(tokens.spec_terminal(TerminalToken::Comma), tokens) {
        Err(e) => Err(e),
        Ok((t1, None)) => Ok(
            (t1, SeparatedListTrailing1 { items: List::Nil, last_item: Box::new(prev), trailing: None }),
        ),
        Ok((t1, Some(sep))) => match spec_maybe(spec_generic_param(t1), t1) {
            Err(e) => Err(e),
            Ok((t2, None)) => Ok(
                (
                    t2,
                    SeparatedListTrailing1 {
                        items: List::Nil,
                        last_item: Box::new(prev),
                        trailing: Some(sep),
                    },
                ),
            ),
            Ok((t2, Some(item))) => if tokens.advances_to(t2) {
                match spec_generic_params_rest(t2, item) {
                    Err(e) => Err(e),
                    Ok((t3, l)) => Ok(
                        (
                            t3,
                            SeparatedListTrailing1 {
                                items: List::Cons(Box::new((prev, sep)), Box::new(l.items)),
                                ..l
                            },
                        ),
                    ),
                }
            } else {
                spec_unreachable(tokens)
            },
        },
    }
}

fn generic_params_rest<'s>(tokens: TokenList<'s>, prev: Type) -> (r: ParseResult<
    's,
    SeparatedListTrailing1<Type>,
>)
    requires
        tokens.wf(),
    ensures
        r == spec_generic_params_rest(tokens, prev),
        moves_on(tokens, r),
    decreases tokens.end - tokens.index, 1int,
{
    proof {
        reveal(spec_generic_params_rest);
        reveal(spec_generic_param);
    }
    let (t1, sep) = maybe(tokens.terminal(TerminalToken::Comma), tokens)?;
    match sep {
        None => Ok(
            (t1, SeparatedListTrailing1 { items: List::Nil, last_item: Box::new(prev), trailing: None }),
        ),
        Some(sep) => {
            let (t2, item) = maybe(generic_param(t1), t1)?;
            match item {
                None => Ok(
                    (
                        t2,
                        SeparatedListTrailing1 {
                            items: List::Nil,
                            last_item: Box::new(prev),
                            trailing: Some(sep),
                        },
                    ),
                ),
                Some(item) => {
                    let (t3, l) = generic_params_rest(t2, item)?;
                    Ok(
                        (
                            t3,
                            SeparatedListTrailing1 {
                                items: List::Cons(Box::new((prev, sep)), Box::new(l.items)),
                                last_item: l.last_item,
                                trailing: l.trailing,
                            },
                        ),
                    )
                },
            }
        },
    }
}

#[verifier::opaque]
pub open spec fn spec_typed_function_ref<'s>(tokens: TokenList<'s>) -> ParseResult<'s, TypeModifier>
    decreases tokens.end - tokens.index, 2int,
{
    spec_map_val(spec_function_ref(tokens), |f: FunctionRefType| TypeModifier::FunctionRef(f))
}

/// `functionref(...)` after a return type.
fn typed_function_ref<'s>(tokens: TokenList<'s>) -> (r: ParseResult<'s, TypeModifier>)
    requires
        tokens.wf(),
    ensures
        r == spec_typed_function_ref(tokens),
        consumes(tokens, r),
    decreases tokens.end - tokens.index, 2int,
{
    proof {
        reveal(spec_typed_function_ref);
        reveal(spec_function_ref);
    }
    match function_ref(tokens) {
        Ok((t, f)) => Ok((t, TypeModifier::FunctionRef(f))),
        Err(e) => Err(e),
    }
}

pub open spec fn spec_reference<'s>(tokens: TokenList<'s>) -> ParseResult<'s, TypeModifier> {
    spec_map_val(
        tokens.spec_terminal(TerminalToken::BitwiseAnd),
        |reference: usize| TypeModifier::Reference { reference },
    )
}

/// `&`
fn reference<'s>(tokens: TokenList<'s>) -> (r: ParseResult<'s, TypeModifier>)
    requires
        tokens.wf(),
    ensures
        r == spec_reference(tokens),
        consumes(tokens, r),
{
    match tokens.terminal(TerminalToken::BitwiseAnd) {
        Ok((t, reference)) => Ok((t, TypeModifier::Reference { reference })),
        Err(e) => Err(e),
    }
}

pub open spec fn spec_nullable<'s>(tokens: TokenList<'s>) -> ParseResult<'s, TypeModifier> {
    spec_map_val(
        tokens.spec_terminal(TerminalToken::OrNull),
        |ornull: usize| TypeModifier::Nullable { ornull },
    )
}

/// `ornull`
fn nullable<'s>(tokens: TokenList<'s>) -> (r: ParseResult<'s, TypeModifier>)
    requires
        tokens.wf(),
    ensures
        r == spec_nullable(tokens),
        consumes(tokens, r),
{
    match tokens.terminal(TerminalToken::OrNull) {
        Ok((t, ornull)) => Ok((t, TypeModifier::Nullable { ornull })),
        Err(e) => Err(e),
    }
}

#[verifier::opaque]
pub open spec fn spec_function_ref<'s>(tokens: TokenList<'s>) -> ParseResult<'s, FunctionRefType>
    decreases tokens.end - tokens.index, 1int,
{
    match tokens.spec_terminal(TerminalToken::FunctionRef) {
        Err(e) => Err(e),
        Ok((t1, functionref)) => spec_definite(
            match t1.spec_open_group(TerminalToken::OpenBracket, TerminalToken::CloseBracket) {
                Err(e) => Err(e),
                Ok((after, g)) => match spec_with_context(
                    spec_end_group(spec_function_ref_params(g.inner), TerminalToken::CloseBracket),
                    ContextType::Span,
                    t1,
                ) {
                    Err(e) => Err(e),
                    Ok((_, params)) => Ok(
                        (
                            after,
                            FunctionRefType {
                                return_type: None,
                                functionref,
                                open: g.open,
                                params,
                                close: g.close,
                            },
                        ),
                    ),
                },
            },
        ),
    }
}

/// `functionref(params)`, where the parameters run up to the matching `)`.
fn function_ref<'s>(tokens: TokenList<'s>) -> (r: ParseResult<'s, FunctionRefType>)
    requires
        tokens.wf(),
    ensures
        r == spec_function_ref(tokens),
        consumes(tokens, r),
    decreases tokens.end - tokens.index, 1int,
{
    proof {
        reveal(spec_function_ref);
        reveal(spec_function_ref_params);
    }
    let (t1, functionref) = tokens.terminal(TerminalToken::FunctionRef)?;
    definite(
        match t1.open_group(TerminalToken::OpenBracket, TerminalToken::CloseBracket) {
            Err(e) => Err(e),
            Ok((after, g)) => match with_context(
                end_group(function_ref_params(g.inner), TerminalToken::CloseBracket),
                ContextType::Span,
                t1,
            ) {
                Err(e) => Err(e),
                Ok((_, params)) => Ok(
                    (
                        after,
                        FunctionRefType {
                            return_type: None,
                            functionref,
                            open: g.open,
                            params,
                            close: g.close,
                        },
                    ),
                ),
            },
        },
    )
}

#[verifier::opaque]
pub open spec fn spec_function_ref_param<'s>(tokens: TokenList<'s>) -> ParseResult<'s, FunctionRefParam>
    decreases tokens.end - tokens.index, 6int,
{
    match spec_type_(tokens) {
        Err(e) => Err(e),
        Ok((t1, type_)) => match spec_maybe(spec_identifier(t1), t1) {
            Err(e) => Err(e),
            Ok((t2, name)) => Ok((t2, FunctionRefParam { type_, name })),
        },
    }
}

/// A parameter of a `functionref` type: a type, and maybe a name.
pub fn function_ref_param<'s>(tokens: TokenList<'s>) -> (r: ParseResult<'s, FunctionRefParam>)
    requires
        tokens.wf(),
    ensures
        r == spec_function_ref_param(tokens),
        consumes(tokens, r),
    decreases tokens.end - tokens.index, 6int,
{
    proof {
        reveal(spec_function_ref_param);
        reveal(spec_type_);
    }
    let (t1, type_) = type_(tokens)?;
    let (t2, name) = maybe(identifier(t1), t1)?;
    Ok((t2, FunctionRefParam { type_, name }))
}

#[verifier::opaque]
pub open spec fn spec_function_ref_params<'s>(tokens: TokenList<'s>) -> ParseResult<
    's,
    SeparatedListTrailing0<FunctionRefParam>,
>
    decreases tokens.end - tokens.index, 7int,
{
    match spec_maybe(spec_function_ref_param(tokens), tokens) {
        Err(e) => Err(e),
        Ok((t1, None)) => Ok((t1, None)),
        Ok((t1, Some(first))) => if tokens.follows(t1) {
            spec_map_val(
                spec_function_ref_params_rest(t1, first),
                |l: SeparatedListTrailing1<FunctionRefParam>| Some(l),
            )
        } else {
            spec_unreachable(tokens)
        },
    }
}

fn function_ref_params<'s>(tokens: TokenList<'s>) -> (r: ParseResult<'s, SeparatedListTrailing0<FunctionRefParam>>)
    requires
        tokens.wf(),
    ensures
        r == spec_function_ref_params(tokens),
        moves_on(tokens, r),
    decreases tokens.end - tokens.index, 7int,
{
    proof {
        reveal(spec_function_ref_params);
        reveal(spec_function_ref_param);
        reveal(spec_function_ref_params_rest);
    }
    let (t1, first) = maybe(function_ref_param(tokens), tokens)?;
    match first {
        None => Ok((t1, None)),
        Some(first) => match function_ref_params_rest(t1, first) {
            Ok((t2, l)) => Ok((t2, Some(l))),
            Err(e) => Err(e),
        },
    }
}

#[verifier::opaque]
pub open spec fn spec_function_ref_params_rest<'s>(tokens: TokenList<'s>, prev: FunctionRefParam) -> ParseResult<
    's,
    SeparatedListTrailing1<FunctionRefParam>,
>
    decreases tokens.end - tokens.index, 1int,
{
    match spec_maybe(tokens.spec_terminal(TerminalToken::Comma), tokens) {
        Err(e) => Err(e),
        Ok((t1, None)) => Ok(
            (t1, SeparatedListTrailing1 { items: List::Nil, last_item: Box::new(prev), trailing: None }),
        ),
        Ok((t1, Some(sep))) => match spec_maybe(spec_function_ref_param(t1), t1) {
            Err(e) => Err(e),
            Ok((t2, None)) => Ok(
                (
                    t2,
                    SeparatedListTrailing1 {
                        items: List::Nil,
                        last_item: Box::new(prev),
                        trailing: Some(sep),
                    },
                ),
            ),
            Ok((t2, Some(item))) => if tokens.advances_to(t2) {
                match spec_function_ref_params_rest(t2, item) {
                    Err(e) => Err(e),
                    Ok((t3, l)) => Ok(
                        (
                            t3,
                            SeparatedListTrailing1 {
                                items: List::Cons(Box::new((prev, sep)), Box::new(l.items)),
                                ..l
                            },
                        ),
                    ),
                }
            } else {
                spec_unreachable(tokens)
            },
        },
    }
}

fn function_ref_params_rest<'s>(tokens: TokenList<'s>, prev: FunctionRefParam) -> (r: ParseResult<
    's,
    SeparatedListTrailing1<FunctionRefParam>,
>)
    requires
        tokens.wf(),
    ensures
        r == spec_function_ref_params_rest(tokens, prev),
        moves_on(tokens, r),
    decreases tokens.end - tokens.index, 1int,
{
    proof {
        reveal(spec_function_ref_params_rest);
        reveal(spec_function_ref_param);
    }
    let (t1, sep) = maybe(tokens.terminal(TerminalToken::Comma), tokens)?;
    match sep {
        None => Ok(
            (t1, SeparatedListTrailing1 { items: List::Nil, last_item: Box::new(prev), trailing: None }),
        ),
        Some(sep) => {
            let (t2, item) = maybe(function_ref_param(t1), t1)?;
            match item {
                None => Ok(
                    (
                        t2,
                        SeparatedListTrailing1 {
                            items: List::Nil,
                            last_item: Box::new(prev),
                            trailing: Some(sep),
                        },
                    ),
                ),
                Some(item) => {
                    let (t3, l) = function_ref_params_rest(t2, item)?;
                    Ok(
                        (
                            t3,
                            SeparatedListTrailing1 {
                                items: List::Cons(Box::new((prev, sep)), Box::new(l.items)),
                                last_item: l.last_item,
                                trailing: l.trailing,
                            },
                        ),
                    )
                },
            }
        },
    }
}

} // verus!
