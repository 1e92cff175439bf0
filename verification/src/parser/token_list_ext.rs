//! Reading terminals and delimited groups from a token list.
use crate::error::ParseErrorType;
use crate::lexer::{
    LexerError, lemma_tokenize_matches_delimiters, lemma_tokenize_succeeds_iff, opener_of,
    spec_closing_token, spec_tokenize,
};
use crate::parser::result::{ParseResult, spec_definite, definite};
use crate::parser::token_list::TokenList;
use crate::token::{TerminalToken, Token, TokenItem, TokenType, token_is_terminal};
use vstd::prelude::*;

verus! {

/// A group of tokens between an opening delimiter and the delimiter that closes it.
#[derive(Clone, Copy, Debug)]
pub struct Group<'s> {
    /// The index of the opening delimiter.
    pub open: usize,
    /// The index of the closing delimiter.
    pub close: usize,
    /// The tokens between the two.
    pub inner: TokenList<'s>,
}

impl<'s> TokenList<'s> {
    pub open spec fn spec_terminal(self, t: TerminalToken) -> ParseResult<'s, usize> {
        if self.next_is(t) {
            Ok((self.at(self.index + 1), self.index))
        } else {
            Err(self.spec_error(ParseErrorType::ExpectedTerminal(t)))
        }
    }

    /// The next token, if it is the given terminal.
    pub fn terminal_item(self, terminal: TerminalToken) -> (r: ParseResult<'s, &'s TokenItem>)
        requires
            self.wf(),
        ensures
            r == (match self.spec_terminal(terminal) {
                Ok((t, i)) => Ok((t, &self.tokens@[i as int])),
                Err(e) => Err(e),
            }),
    {
        if let Some((tokens, item)) = self.split_first() {
            if token_is_terminal(&item.token.ty, terminal) {
                return Ok((tokens, item));
            }
        }
        Err(self.error(ParseErrorType::ExpectedTerminal(terminal)))
    }

    /// The index of the next token, if it is the given terminal.
    pub fn terminal(self, terminal: TerminalToken) -> (r: ParseResult<'s, usize>)
        requires
            self.wf(),
        ensures
            r == self.spec_terminal(terminal),
    {
        if self.index < self.end && token_is_terminal(&self.tokens[self.index].token.ty, terminal) {
            Ok((TokenList { index: self.index + 1, ..self }, self.index))
        } else {
            Err(self.error(ParseErrorType::ExpectedTerminal(terminal)))
        }
    }

    /// Whether the tokens at `a` and `b` touch, with nothing between them in the source.
    pub open spec fn touching(self, a: int, b: int) -> bool {
        self.tokens@[a].token.range.end == self.tokens@[b].token.range.start
    }

    pub open spec fn spec_terminal2(self, t1: TerminalToken, t2: TerminalToken) -> ParseResult<
        's,
        (usize, usize),
    > {
        match self.spec_terminal(t1) {
            Err(e) => Err(e),
            Ok((tokens, a)) => match tokens.spec_terminal(t2) {
                Err(e) => Err(e),
                Ok((tokens, b)) => if self.touching(a as int, b as int) {
                    Ok((tokens, (a, b)))
                } else {
                    Err(tokens.spec_error(ParseErrorType::ExpectedCompound2(t1, t2)))
                },
            },
        }
    }

    /// Two terminals that touch in the source, such as the two halves of `>>`.
    pub fn terminal2(self, terminal_1: TerminalToken, terminal_2: TerminalToken) -> (r: ParseResult<
        's,
        (usize, usize),
    >)
        requires
            self.wf(),
        ensures
            r == self.spec_terminal2(terminal_1, terminal_2),
    {
        let (tokens, a) = self.terminal(terminal_1)?;
        let (tokens, b) = tokens.terminal(terminal_2)?;
        if self.tokens[a].token.range.end == self.tokens[b].token.range.start {
            return Ok((tokens, (a, b)));
        }
        Err(tokens.error(ParseErrorType::ExpectedCompound2(terminal_1, terminal_2)))
    }

    pub open spec fn spec_terminal3(
        self,
        t1: TerminalToken,
        t2: TerminalToken,
        t3: TerminalToken,
    ) -> ParseResult<'s, (usize, usize, usize)> {
        match self.spec_terminal(t1) {
            Err(e) => Err(e),
            Ok((tokens, a)) => match tokens.spec_terminal(t2) {
                Err(e) => Err(e),
                Ok((tokens, b)) => match tokens.spec_terminal(t3) {
                    Err(e) => Err(e),
                    Ok((tokens, c)) => if self.touching(a as int, b as int) && self.touching(
                        b as int,
                        c as int,
                    ) {
                        Ok((tokens, (a, b, c)))
                    } else {
                        Err(tokens.spec_error(ParseErrorType::ExpectedCompound3(t1, t2, t3)))
                    },
                },
            },
        }
    }

    /// Three terminals that touch in the source, such as the three parts of `>>>`.
    pub fn terminal3(
        self,
        terminal_1: TerminalToken,
        terminal_2: TerminalToken,
        terminal_3: TerminalToken,
    ) -> (r: ParseResult<'s, (usize, usize, usize)>)
        requires
            self.wf(),
        ensures
            r == self.spec_terminal3(terminal_1, terminal_2, terminal_3),
    {
        let (tokens, a) = self.terminal(terminal_1)?;
        let (tokens, b) = tokens.terminal(terminal_2)?;
        let (tokens, c) = tokens.terminal(terminal_3)?;
        if self.tokens[a].token.range.end == self.tokens[b].token.range.start
            && self.tokens[b].token.range.end == self.tokens[c].token.range.start {
            return Ok((tokens, (a, b, c)));
        }
        Err(tokens.error(ParseErrorType::ExpectedCompound3(terminal_1, terminal_2, terminal_3)))
    }

    /// `res` as it is at the end of the list, made fatal elsewhere.
    pub fn ended_or<T>(self, res: ParseResult<'s, T>) -> (r: ParseResult<'s, T>)
        ensures
            r == (if self.spec_is_ended() {
                res
            } else {
                spec_definite(res)
            }),
    {
        if self.is_ended() {
            res
        } else {
            definite(res)
        }
    }

    /// The group opened by the terminal `open`, with the list after the group.
    ///
    /// The opening terminal must have a close index, within this list, that points at the
    /// terminal `close`.
    pub open spec fn spec_open_group(self, open: TerminalToken, close: TerminalToken) -> ParseResult<
        's,
        Group<'s>,
    > {
        match self.spec_terminal(open) {
            Err(e) => Err(e),
            Ok((after_open, o)) => match self.tokens@[o as int].close_index {
                Some(c) => if o < c && c < self.end && self.tokens@[c as int].token.ty
                    == TokenType::Terminal(close) {
                    Ok(
                        (
                            self.at(c + 1),
                            Group { open: o, close: c, inner: TokenList { end: c, ..after_open } },
                        ),
                    )
                } else {
                    Err(self.spec_error(ParseErrorType::UnmatchedOpener(open)))
                },
                None => Err(self.spec_error(ParseErrorType::UnmatchedOpener(open))),
            },
        }
    }

    pub fn open_group(self, open: TerminalToken, close: TerminalToken) -> (r: ParseResult<'s, Group<'s>>)
        requires
            self.wf(),
        ensures
            r == self.spec_open_group(open, close),
            r matches Ok((t, g)) ==> self.advances_to(t) && g.inner.wf() && g.inner.tokens
                == self.tokens && g.inner.flavor == self.flavor && self.index < g.inner.index
                && g.inner.end < t.index,
    {
        let (after_open, o) = self.terminal(open)?;
        match self.tokens[o].close_index {
            Some(c) => if o < c && c < self.end && token_is_terminal(&self.tokens[c].token.ty, close) {
                Ok((TokenList { index: c + 1, ..self }, Group { open: o, close: c, inner: TokenList { end: c, ..after_open } }))
            } else {
                Err(self.error(ParseErrorType::UnmatchedOpener(open)))
            },
            None => Err(self.error(ParseErrorType::UnmatchedOpener(open))),
        }
    }
}

/// In the tokens of a successful tokenization, every opening delimiter opens a group: reading
/// a group at an opener never reports it unmatched.
pub proof fn lemma_tokenized_groups_open<'s>(
    l: Seq<Result<Token, LexerError>>,
    tokens: TokenList<'s>,
    open: TerminalToken,
)
    requires
        l.len() < usize::MAX,
        spec_tokenize(l).1.len() == 0,
        tokens.tokens@ == spec_tokenize(l).0,
        tokens.end == tokens.tokens@.len(),
        tokens.wf(),
        spec_closing_token(open) is Some,
        tokens.next_is(open),
    ensures
        tokens.spec_open_group(open, spec_closing_token(open).unwrap()) is Ok,
{
    lemma_tokenize_succeeds_iff(l);
    lemma_tokenize_matches_delimiters(l);
    let items = spec_tokenize(l).0;
    let i = tokens.index as int;
    assert(opener_of(items[i].token.ty) is Some);
    assert(items[i].close_index is Some);
}

pub open spec fn spec_end_group<'s, T>(r: ParseResult<'s, T>, close: TerminalToken) -> ParseResult<'s, T> {
    match r {
        Ok((t, v)) => if t.spec_is_ended() {
            Ok((t, v))
        } else {
            Err(t.spec_error(ParseErrorType::ExpectedTerminal(close)))
        },
        Err(e) => Err(e),
    }
}

/// Fails unless the parse of a group's inside reached the group's end.
pub fn end_group<'s, T>(r: ParseResult<'s, T>, close: TerminalToken) -> (o: ParseResult<'s, T>)
    ensures
        o == spec_end_group(r, close),
{
    match r {
        Ok((t, v)) => if t.is_ended() {
            Ok((t, v))
        } else {
            Err(t.error(ParseErrorType::ExpectedTerminal(close)))
        },
        Err(e) => Err(e),
    }
}

} // verus!
