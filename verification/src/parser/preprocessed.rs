//! Preprocessor conditionals: `#if condition ... #else ... #endif`.
use crate::ast::{Expression, Precedence};
use crate::parser::expression::{expression, spec_expression};
use crate::parser::result::{ParseResult, consumes, definite, spec_definite, spec_map_val};
use crate::parser::token_list::TokenList;
use crate::token::TerminalToken;
use vstd::prelude::*;

verus! {

/// Where a list of items ends.
#[derive(Clone, Copy, Debug, PartialEq, Eq, Structural)]
pub enum StopAt {
    /// At the `#else` or `#endif` that ends a branch of a preprocessor conditional.
    PreprocessorBranch,
    /// At the given closing terminal, or at a `...` spread.
    CloseOrSpread(TerminalToken),
}

pub open spec fn spec_preprocessed_if_contents_terminal<'s>(tokens: TokenList<'s>) -> bool {
    tokens.next_is(TerminalToken::PreprocessorElse) || tokens.next_is(TerminalToken::PreprocessorEndIf)
}

/// Whether the next token ends a branch of a preprocessor conditional.
pub fn preprocessed_if_contents_terminal<'s>(tokens: TokenList<'s>) -> (r: bool)
    requires
        tokens.wf(),
    ensures
        r == spec_preprocessed_if_contents_terminal(tokens),
{
    tokens.peek_terminal(TerminalToken::PreprocessorElse) || tokens.peek_terminal(
        TerminalToken::PreprocessorEndIf,
    )
}

pub open spec fn spec_stops_at<'s>(tokens: TokenList<'s>, stop: StopAt) -> bool {
    match stop {
        StopAt::PreprocessorBranch => spec_preprocessed_if_contents_terminal(tokens),
        StopAt::CloseOrSpread(close) => tokens.next_is(close) || tokens.next_is(TerminalToken::Ellipsis),
    }
}

/// Whether a list that ends as `stop` says ends here.
pub fn stops_at<'s>(tokens: TokenList<'s>, stop: StopAt) -> (r: bool)
    requires
        tokens.wf(),
    ensures
        r == spec_stops_at(tokens, stop),
{
    match stop {
        StopAt::PreprocessorBranch => preprocessed_if_contents_terminal(tokens),
        StopAt::CloseOrSpread(close) => tokens.peek_terminal(close) || tokens.peek_terminal(
            TerminalToken::Ellipsis,
        ),
    }
}

#[verifier::opaque]
pub open spec fn spec_preprocessor_if_head<'s>(tokens: TokenList<'s>) -> ParseResult<'s, (usize, Box<Expression>)>
    decreases tokens.end - tokens.index, 1int,
{
    match tokens.spec_terminal(TerminalToken::PreprocessorIf) {
        Err(e) => Err(e),
        Ok((t1, if_)) => spec_definite(
            spec_map_val(spec_expression(t1, Precedence::Lowest), |c: Box<Expression>| (if_, c)),
        ),
    }
}

/// `#if condition`
pub fn preprocessor_if_head<'s>(tokens: TokenList<'s>) -> (r: ParseResult<'s, (usize, Box<Expression>)>)
    requires
        tokens.wf(),
    ensures
        r == spec_preprocessor_if_head(tokens),
        consumes(tokens, r),
    decreases tokens.end - tokens.index, 1int,
{
    proof {
        reveal(spec_preprocessor_if_head);
        reveal(spec_expression);
    }
    let (t1, if_) = tokens.terminal(TerminalToken::PreprocessorIf)?;
    definite(
        match expression(t1, Precedence::Lowest) {
            Ok((t2, c)) => Ok((t2, (if_, c))),
            Err(e) => Err(e),
        },
    )
}

} // verus!
