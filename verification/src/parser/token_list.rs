//! A position in a list of tokens, and the basic ways to read tokens from it.
use crate::error::{ParseError, ParseErrorType, TokenAffinity};
use crate::token::{Flavor, TerminalToken, TokenItem, TokenType, token_is_terminal};
use vstd::prelude::*;

verus! {

/// A view of the tokens from `index` up to `end` of a token slice.
///
/// Tokens before `index` stay readable through `previous`, which tells whether a line break
/// precedes the current token.
#[derive(Clone, Copy, Debug)]
pub struct TokenList<'s> {
    pub flavor: Flavor,
    pub tokens: &'s [TokenItem],
    pub index: usize,
    pub end: usize,
}

impl<'s> TokenList<'s> {
    /// A list that starts at `index` and ends at `end` within the whole token slice.
    pub open spec fn wf(self) -> bool {
        self.index <= self.end && self.end <= self.tokens@.len()
    }

    /// The token at position `i` of the whole slice.
    pub open spec fn item(self, i: int) -> TokenItem {
        self.tokens@[i]
    }

    /// The same list, moved to position `i`.
    pub open spec fn at(self, i: int) -> TokenList<'s> {
        TokenList { index: i as usize, ..self }
    }

    /// `later` reads the same tokens as `self`, from the same position or further on.
    pub open spec fn follows(self, later: TokenList<'s>) -> bool {
        &&& later.tokens == self.tokens
        &&& later.flavor == self.flavor
        &&& later.end == self.end
        &&& self.index <= later.index
        &&& later.index <= later.end
    }

    /// `later` follows `self` and is strictly further on.
    pub open spec fn advances_to(self, later: TokenList<'s>) -> bool {
        self.follows(later) && self.index < later.index
    }

    pub open spec fn spec_is_ended(self) -> bool {
        self.index == self.end
    }

    pub open spec fn spec_next(self) -> Option<TokenItem> {
        if self.index < self.end {
            Some(self.tokens@[self.index as int])
        } else {
            None
        }
    }

    pub open spec fn spec_previous(self) -> Option<TokenItem> {
        if self.index > 0 {
            Some(self.tokens@[self.index - 1])
        } else {
            None
        }
    }

    pub open spec fn spec_is_newline(self) -> bool {
        self.index > 0 && self.tokens@[self.index - 1].token.new_line
    }

    /// Whether the next token is the given terminal.
    pub open spec fn next_is(self, t: TerminalToken) -> bool {
        self.index < self.end && self.tokens@[self.index as int].token.ty == TokenType::Terminal(t)
    }

    pub open spec fn spec_error(self, ty: ParseErrorType) -> ParseError {
        ParseError::spec_new(
            ty,
            self.index,
            if self.index == self.end {
                TokenAffinity::Before
            } else {
                TokenAffinity::Inline
            },
        )
    }

    pub open spec fn spec_error_before(self, ty: ParseErrorType) -> ParseError {
        ParseError::spec_new(ty, self.index, TokenAffinity::Before)
    }

    /// A list over all of `tokens`.
    pub fn new(flavor: Flavor, tokens: &'s [TokenItem]) -> (r: TokenList<'s>)
        ensures
            r == (TokenList { flavor, tokens, index: 0, end: tokens@.len() as usize }),
            r.wf(),
    {
        TokenList { flavor, tokens, index: 0, end: tokens.len() }
    }

    pub fn previous_index(&self) -> (r: Option<usize>)
        ensures
            r == (if self.index > 0 {
                Some((self.index - 1) as usize)
            } else {
                None
            }),
    {
        if self.index > 0 {
            Some(self.index - 1)
        } else {
            None
        }
    }

    pub fn flavor(self) -> (r: Flavor)
        ensures
            r == self.flavor,
    {
        self.flavor
    }

    pub fn previous(self) -> (r: Option<&'s TokenItem>)
        requires
            self.wf(),
        ensures
            r == (if self.index > 0 {
                Some(&self.tokens@[self.index - 1])
            } else {
                None
            }),
    {
        if self.index > 0 {
            Some(&self.tokens[self.index - 1])
        } else {
            None
        }
    }

    pub fn next(self) -> (r: Option<&'s TokenItem>)
        requires
            self.wf(),
        ensures
            r == (if self.index < self.end {
                Some(&self.tokens@[self.index as int])
            } else {
                None
            }),
    {
        if self.index < self.end {
            Some(&self.tokens[self.index])
        } else {
            None
        }
    }

    pub fn is_ended(self) -> (r: bool)
        ensures
            r == self.spec_is_ended(),
    {
        self.index == self.end
    }

    pub fn start_index(self) -> (r: usize)
        ensures
            r == self.index,
    {
        self.index
    }

    pub fn is_newline(self) -> (r: bool)
        requires
            self.wf(),
        ensures
            r == self.spec_is_newline(),
    {
        if self.index > 0 {
            self.tokens[self.index - 1].token.new_line
        } else {
            false
        }
    }

    /// The next token, and the list after it.
    pub fn split_first(self) -> (r: Option<(TokenList<'s>, &'s TokenItem)>)
        requires
            self.wf(),
        ensures
            r == (if self.index < self.end {
                Some((self.at(self.index + 1), &self.tokens@[self.index as int]))
            } else {
                None
            }),
    {
        if self.index < self.end {
            Some((TokenList { index: self.index + 1, ..self }, &self.tokens[self.index]))
        } else {
            None
        }
    }

    /// The tokens before `index`, and the tokens from `index` on.
    pub fn split_at(self, index: usize) -> (r: (TokenList<'s>, TokenList<'s>))
        requires
            self.index <= index <= self.end,
        ensures
            r.0 == (TokenList { end: index, ..self }),
            r.1 == self.at(index as int),
    {
        (TokenList { end: index, ..self }, TokenList { index, ..self })
    }

    /// An error at the next token, or just after the last one when the list has ended.
    pub fn error(self, ty: ParseErrorType) -> (r: ParseError)
        ensures
            r == self.spec_error(ty),
    {
        let affinity = if self.is_ended() {
            TokenAffinity::Before
        } else {
            TokenAffinity::Inline
        };
        ParseError::new(ty, self.start_index(), affinity)
    }

    /// An error in the space before the next token.
    pub fn error_before(self, ty: ParseErrorType) -> (r: ParseError)
        ensures
            r == self.spec_error_before(ty),
    {
        ParseError::new(ty, self.start_index(), TokenAffinity::Before)
    }

    /// The list after an `Empty` token, with the index of that token, if the next token is one.
    pub fn empty(self) -> (r: Option<(TokenList<'s>, usize)>)
        requires
            self.wf(),
        ensures
            r == (if self.index < self.end && self.tokens@[self.index as int].token.ty
                == TokenType::Empty {
                Some((self.at(self.index + 1), self.index))
            } else {
                None
            }),
    {
        if self.index < self.end {
            match self.tokens[self.index].token.ty {
                TokenType::Empty => Some((TokenList { index: self.index + 1, ..self }, self.index)),
                _ => None,
            }
        } else {
            None
        }
    }

    /// Whether the next token is the given terminal.
    pub fn peek_terminal(self, t: TerminalToken) -> (r: bool)
        requires
            self.wf(),
        ensures
            r == self.next_is(t),
    {
        self.index < self.end && token_is_terminal(&self.tokens[self.index].token.ty, t)
    }
}

} // verus!
