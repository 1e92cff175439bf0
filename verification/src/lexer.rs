//! Delimiter matching over a lexed token stream, and the result of tokenization.
pub use crate::token::TokenItem;
use crate::token::{SourceRange, TerminalToken, Token, TokenType, token_is_terminal};
use vstd::prelude::*;

verus! {

/// What went wrong while tokenizing.
#[derive(Clone, Copy, Debug, PartialEq, Eq)]
pub enum LexerErrorType {
    /// A character that cannot start any token.
    UnexpectedCharacter(char),
    /// A string literal that is not closed before the end of the input.
    UnterminatedString,
    /// A block comment that is not closed before the end of the input.
    UnterminatedComment,
    /// A number literal that cannot be read.
    InvalidNumber,
    /// An opening delimiter that is never closed.
    UnmatchedOpener { open: TerminalToken, close: TerminalToken },
}

/// An error found while tokenizing, with the source range it applies to.
#[derive(Clone, Copy, Debug, PartialEq, Eq)]
pub struct LexerError {
    pub ty: LexerErrorType,
    pub range: SourceRange,
}

impl LexerError {
    pub fn new(ty: LexerErrorType, range: SourceRange) -> (r: LexerError)
        ensures
            r == (LexerError { ty, range }),
    {
        LexerError { ty, range }
    }
}

/// The terminal that closes a tree opened by `opening`, if `opening` opens one.
pub open spec fn spec_closing_token(opening: TerminalToken) -> Option<TerminalToken> {
    match opening {
        TerminalToken::OpenBrace => Some(TerminalToken::CloseBrace),
        TerminalToken::OpenSquare => Some(TerminalToken::CloseSquare),
        TerminalToken::OpenBracket => Some(TerminalToken::CloseBracket),
        TerminalToken::OpenAttributes => Some(TerminalToken::CloseAttributes),
        TerminalToken::PreprocessorIf => Some(TerminalToken::PreprocessorEndIf),
        _ => None,
    }
}

/// Returns the token that closes a tree, if the provided token is a valid opening token.
pub fn closing_token(opening: TerminalToken) -> (r: Option<TerminalToken>)
    ensures
        r == spec_closing_token(opening),
{
    match opening {
        TerminalToken::OpenBrace => Some(TerminalToken::CloseBrace),
        TerminalToken::OpenSquare => Some(TerminalToken::CloseSquare),
        TerminalToken::OpenBracket => Some(TerminalToken::CloseBracket),
        TerminalToken::OpenAttributes => Some(TerminalToken::CloseAttributes),
        TerminalToken::PreprocessorIf => Some(TerminalToken::PreprocessorEndIf),
        _ => None,
    }
}

/// The opening and closing terminals of the tree that a token of type `ty` opens, if any.
pub open spec fn opener_of(ty: TokenType) -> Option<(TerminalToken, TerminalToken)> {
    match ty {
        TokenType::Terminal(t) => match spec_closing_token(t) {
            Some(c) => Some((t, c)),
            None => None,
        },
        _ => None,
    }
}

/// A tree that has been opened and not yet closed.
#[derive(Clone, Copy, Debug)]
pub struct Layer {
    pub open_index: usize,
    pub open_ty: TerminalToken,
    pub close_ty: TerminalToken,
}

/// The state of delimiter matching: tokens so far, their close indices, the open trees
/// (innermost last) and the errors met so far.
pub type MatchState = (Seq<Token>, Seq<Option<usize>>, Seq<Layer>, Seq<LexerError>);

/// Matching one more token, the `i`th: it closes the innermost open tree if it is that tree's
/// closing terminal, and opens a new tree if it is an opening terminal.
pub open spec fn match_step(
    closes: Seq<Option<usize>>,
    layers: Seq<Layer>,
    i: int,
    ty: TokenType,
) -> (Seq<Option<usize>>, Seq<Layer>) {
    let (c1, l1) = if layers.len() > 0 && ty == TokenType::Terminal(layers.last().close_ty) {
        (closes.update(layers.last().open_index as int, Some(i as usize)), layers.drop_last())
    } else {
        (closes, layers)
    };
    let l2 = match opener_of(ty) {
        Some((o, c)) => l1.push(Layer { open_index: i as usize, open_ty: o, close_ty: c }),
        None => l1,
    };
    (c1.push(None), l2)
}

/// The matching state after the lexed entries `l`, read in order.
pub open spec fn match_state(l: Seq<Result<Token, LexerError>>) -> MatchState
    decreases l.len(),
{
    if l.len() == 0 {
        (Seq::empty(), Seq::empty(), Seq::empty(), Seq::empty())
    } else {
        let (ts, cs, ls, es) = match_state(l.drop_last());
        match l.last() {
            Err(e) => (ts, cs, ls, es.push(e)),
            Ok(t) => {
                let (cs2, ls2) = match_step(cs, ls, ts.len() as int, t.ty);
                (ts.push(t), cs2, ls2, es)
            },
        }
    }
}

/// The error reported for the innermost tree that was never closed.
pub open spec fn unmatched_error(ts: Seq<Token>, layer: Layer) -> LexerError {
    LexerError {
        ty: LexerErrorType::UnmatchedOpener { open: layer.open_ty, close: layer.close_ty },
        range: ts[layer.open_index as int].range,
    }
}

/// The token items and errors that tokenizing the lexed entries `l` gives.
pub open spec fn spec_tokenize(l: Seq<Result<Token, LexerError>>) -> (Seq<TokenItem>, Seq<LexerError>) {
    let (ts, cs, ls, es) = match_state(l);
    let items = Seq::new(ts.len(), |i: int| TokenItem { token: ts[i], close_index: cs[i] });
    let errs = if ls.len() > 0 { es.push(unmatched_error(ts, ls.last())) } else { es };
    (items, errs)
}

/// The tokens that were lexed without error, in order.
pub open spec fn lexed_tokens(l: Seq<Result<Token, LexerError>>) -> Seq<Token>
    decreases l.len(),
{
    if l.len() == 0 {
        Seq::empty()
    } else {
        match l.last() {
            Ok(t) => lexed_tokens(l.drop_last()).push(t),
            Err(_) => lexed_tokens(l.drop_last()),
        }
    }
}

/// Whether every lexed entry is a token.
pub open spec fn all_lexed(l: Seq<Result<Token, LexerError>>) -> bool {
    forall|i: int| 0 <= i < l.len() ==> #[trigger] l[i] is Ok
}


/// Each close index points forward, at the terminal that closes the tree its token opens.
pub open spec fn closes_point_at_closers(ts: Seq<Token>, cs: Seq<Option<usize>>) -> bool {
    forall|i: int|
        0 <= i < cs.len() && #[trigger] cs[i] is Some ==> {
            let j = cs[i].unwrap() as int;
            &&& i < j < ts.len()
            &&& opener_of(ts[i].ty) is Some
            &&& ts[j].ty == TokenType::Terminal(opener_of(ts[i].ty).unwrap().1)
        }
}

/// Trees nest: every opener strictly inside a closed tree is closed inside that tree.
pub open spec fn trees_nest(ts: Seq<Token>, cs: Seq<Option<usize>>) -> bool {
    forall|i: int, k: int|
        0 <= i < k < cs.len() && #[trigger] cs[i] is Some && k < cs[i].unwrap() && #[trigger] opener_of(
            ts[k].ty,
        ) is Some ==> cs[k] is Some && cs[k].unwrap() < cs[i].unwrap()
}

/// The open trees are unclosed openers, innermost last.
pub open spec fn layers_are_open(ts: Seq<Token>, cs: Seq<Option<usize>>, ls: Seq<Layer>) -> bool {
    &&& forall|a: int|
        0 <= a < ls.len() ==> {
            let o = (#[trigger] ls[a]).open_index as int;
            &&& o < ts.len()
            &&& o < cs.len()
            &&& opener_of(ts[o].ty) == Some((ls[a].open_ty, ls[a].close_ty))
            &&& cs[o] is None
        }
    &&& forall|a: int, b: int|
        0 <= a < b < ls.len() ==> (#[trigger] ls[a]).open_index < (#[trigger] ls[b]).open_index
}

/// Every unclosed opener is an open tree.
pub open spec fn unclosed_are_layers(ts: Seq<Token>, cs: Seq<Option<usize>>, ls: Seq<Layer>) -> bool {
    forall|k: int|
        0 <= k < ts.len() && k < cs.len() && #[trigger] opener_of(ts[k].ty) is Some && cs[k] is None
            ==> exists|a: int| 0 <= a < ls.len() && (#[trigger] ls[a]).open_index == k
}

/// What holds of the matching state at every step.
pub open spec fn match_inv(ts: Seq<Token>, cs: Seq<Option<usize>>, ls: Seq<Layer>) -> bool {
    &&& cs.len() == ts.len()
    &&& closes_point_at_closers(ts, cs)
    &&& trees_nest(ts, cs)
    &&& layers_are_open(ts, cs, ls)
    &&& unclosed_are_layers(ts, cs, ls)
}

proof fn lemma_match_step(ts: Seq<Token>, cs: Seq<Option<usize>>, ls: Seq<Layer>, t: Token)
    requires
        match_inv(ts, cs, ls),
        ts.len() < usize::MAX,
    ensures
        ({
            let (cs2, ls2) = match_step(cs, ls, ts.len() as int, t.ty);
            match_inv(ts.push(t), cs2, ls2)
        }),
{
    let n = ts.len() as int;
    let ts2 = ts.push(t);
    let (cs2, ls2) = match_step(cs, ls, n, t.ty);
    let pop = ls.len() > 0 && t.ty == TokenType::Terminal(ls.last().close_ty);
    let o = if ls.len() > 0 { ls.last().open_index as int } else { -1 };
    let (c1, l1) = if pop {
        (cs.update(o, Some(n as usize)), ls.drop_last())
    } else {
        (cs, ls)
    };
    assert(cs2 == c1.push(None));
    if pop {
        assert(ls[ls.len() - 1] == ls.last());
    }
    assert forall|i: int| 0 <= i < cs2.len() && #[trigger] cs2[i] is Some implies {
        let j = cs2[i].unwrap() as int;
        &&& i < j < ts2.len()
        &&& opener_of(ts2[i].ty) is Some
        &&& ts2[j].ty == TokenType::Terminal(opener_of(ts2[i].ty).unwrap().1)
    } by {
        if pop && i == o {
        } else {
            assert(cs2[i] == cs[i]);
            assert(cs[i] is Some);
        }
    }
    assert forall|i: int, k: int|
        0 <= i < k < cs2.len() && #[trigger] cs2[i] is Some && k < cs2[i].unwrap()
            && #[trigger] opener_of(ts2[k].ty) is Some implies cs2[k] is Some && cs2[k].unwrap()
        < cs2[i].unwrap() by {
        assert(i < n);
        if pop && i == o {
            assert(k < n);
            assert(ts2[k] == ts[k]);
            if cs[k] is None {
                let a = choose|a: int| 0 <= a < ls.len() && (#[trigger] ls[a]).open_index == k;
                assert(ls[a].open_index < ls[ls.len() - 1].open_index || a == ls.len() - 1);
            }
            assert(cs[k] is Some);
            assert(cs2[k] == cs[k]);
        } else {
            assert(cs2[i] == cs[i]);
            assert(cs[i] is Some);
            assert(ts2[k] == ts[k]);
            assert(cs[k] is Some);
            if pop {
                assert(cs[o] is None);
            }
            assert(cs2[k] == cs[k]);
        }
    }
    assert forall|a: int| 0 <= a < ls2.len() implies {
        let oa = (#[trigger] ls2[a]).open_index as int;
        &&& oa < ts2.len()
        &&& oa < cs2.len()
        &&& opener_of(ts2[oa].ty) == Some((ls2[a].open_ty, ls2[a].close_ty))
        &&& cs2[oa] is None
    } by {
        if a < l1.len() {
            assert(ls2[a] == l1[a]);
            assert(l1[a] == ls[a]);
            if pop {
                assert(ls[a].open_index < ls[ls.len() - 1].open_index);
            }
        }
    }
    assert forall|k: int|
        0 <= k < ts2.len() && k < cs2.len() && #[trigger] opener_of(ts2[k].ty) is Some && cs2[k] is None
            implies exists|a: int| 0 <= a < ls2.len() && (#[trigger] ls2[a]).open_index == k by {
        if k == n {
            assert(ls2[ls2.len() - 1].open_index == k);
        } else {
            assert(ts2[k] == ts[k]);
            if pop {
                assert(k != o);
            }
            assert(cs2[k] == cs[k]);
            let a = choose|a: int| 0 <= a < ls.len() && (#[trigger] ls[a]).open_index == k;
            if pop {
                assert(a != ls.len() - 1);
            }
            assert(l1[a] == ls[a]);
            assert(ls2[a] == l1[a]);
        }
    }
}

/// The matching state keeps its invariant, and its errors are the lexer's errors.
proof fn lemma_match_state(l: Seq<Result<Token, LexerError>>)
    requires
        l.len() < usize::MAX,
    ensures
        ({
            let (ts, cs, ls, es) = match_state(l);
            &&& match_inv(ts, cs, ls)
            &&& ts == lexed_tokens(l)
            &&& ts.len() <= l.len()
            &&& (es.len() == 0 <==> all_lexed(l))
        }),
    decreases l.len(),
{
    if l.len() > 0 {
        let p = l.drop_last();
        lemma_match_state(p);
        let (ts, cs, ls, es) = match_state(p);
        match l.last() {
            Err(e) => {
                assert(!(l[l.len() - 1] is Ok));
            },
            Ok(t) => {
                lemma_match_step(ts, cs, ls, t);
            },
        }
        if all_lexed(l) {
            assert forall|i: int| 0 <= i < p.len() implies #[trigger] p[i] is Ok by {
                assert(p[i] == l[i]);
            }
            assert(l[l.len() - 1] is Ok);
        }
        if all_lexed(p) && l.last() is Ok {
            assert forall|i: int| 0 <= i < l.len() implies #[trigger] l[i] is Ok by {
                if i < p.len() {
                    assert(p[i] == l[i]);
                }
            }
        }
    }
}

/// Tokenizing keeps every token that was lexed, in order, and adds nothing.
pub proof fn lemma_tokenize_keeps_tokens(l: Seq<Result<Token, LexerError>>)
    requires
        l.len() < usize::MAX,
    ensures
        spec_tokenize(l).0.len() == lexed_tokens(l).len(),
        forall|i: int|
            0 <= i < lexed_tokens(l).len() ==> #[trigger] spec_tokenize(l).0[i].token
                == lexed_tokens(l)[i],
{
    lemma_match_state(l);
}

/// Every close index points forward at the terminal that closes the tree its token opens, and
/// trees nest: an opener inside a closed tree is closed inside it.
pub proof fn lemma_tokenize_matches_delimiters(l: Seq<Result<Token, LexerError>>)
    requires
        l.len() < usize::MAX,
    ensures
        ({
            let items = spec_tokenize(l).0;
            &&& forall|i: int|
                0 <= i < items.len() && #[trigger] items[i].close_index is Some ==> {
                    let j = items[i].close_index.unwrap() as int;
                    &&& i < j < items.len()
                    &&& opener_of(items[i].token.ty) is Some
                    &&& items[j].token.ty == TokenType::Terminal(
                        opener_of(items[i].token.ty).unwrap().1,
                    )
                }
            &&& forall|i: int, k: int|
                0 <= i < k < items.len() && #[trigger] items[i].close_index is Some && k
                    < items[i].close_index.unwrap() && #[trigger] opener_of(items[k].token.ty) is Some
                    ==> items[k].close_index is Some && items[k].close_index.unwrap()
                    < items[i].close_index.unwrap()
        }),
{
    lemma_match_state(l);
    let (ts, cs, ls, es) = match_state(l);
    let items = spec_tokenize(l).0;
    assert forall|i: int| 0 <= i < items.len() && #[trigger] items[i].close_index is Some implies {
        let j = items[i].close_index.unwrap() as int;
        &&& i < j < items.len()
        &&& opener_of(items[i].token.ty) is Some
        &&& items[j].token.ty == TokenType::Terminal(opener_of(items[i].token.ty).unwrap().1)
    } by {
        assert(cs[i] is Some);
    }
    assert forall|i: int, k: int|
        0 <= i < k < items.len() && #[trigger] items[i].close_index is Some && k
            < items[i].close_index.unwrap() && #[trigger] opener_of(items[k].token.ty) is Some
            implies items[k].close_index is Some && items[k].close_index.unwrap()
        < items[i].close_index.unwrap() by {
        assert(cs[i] is Some);
        assert(opener_of(ts[k].ty) is Some);
    }
}

/// Tokenizing succeeds exactly when every entry was lexed without error and every opening
/// delimiter is closed.
pub proof fn lemma_tokenize_succeeds_iff(l: Seq<Result<Token, LexerError>>)
    requires
        l.len() < usize::MAX,
    ensures
        spec_tokenize(l).1.len() == 0 <==> (all_lexed(l) && forall|i: int|
            0 <= i < spec_tokenize(l).0.len() && #[trigger] opener_of(spec_tokenize(l).0[i].token.ty)
                is Some ==> spec_tokenize(l).0[i].close_index is Some),
{
    lemma_match_state(l);
    let (ts, cs, ls, es) = match_state(l);
    let items = spec_tokenize(l).0;
    if ls.len() > 0 {
        let o = ls[0].open_index as int;
        assert(opener_of(items[o].token.ty) is Some);
        assert(items[o].close_index is None);
    } else {
        assert forall|i: int|
            0 <= i < items.len() && #[trigger] opener_of(items[i].token.ty) is Some implies items[i].close_index
            is Some by {
            assert(opener_of(ts[i].ty) is Some);
            if cs[i] is None {
                let a = choose|a: int| 0 <= a < ls.len() && (#[trigger] ls[a]).open_index == i;
            }
        }
    }
}


/// Matches the delimiters of a lexed token stream.
///
/// Each entry is a token or the error the lexer met in its place. The tokens are kept in
/// order; an opening delimiter gets the index of the terminal that closes it, where one does.
/// A closing terminal that does not close the innermost open tree is kept as it is. The
/// result is a failure when the lexer met an error, or when a tree is left open: then the
/// innermost such tree is reported.
pub fn tokenize(lexed: Vec<Result<Token, LexerError>>) -> (res: TokenizeResult)
    requires
        lexed.len() < usize::MAX,
    ensures
        res.spec_tokens() == spec_tokenize(lexed@).0,
        res.spec_errors() == spec_tokenize(lexed@).1,
        res is Success <==> spec_tokenize(lexed@).1.len() == 0,
{
    let ghost l = lexed@;
    let mut items: Vec<TokenItem> = Vec::new();
    let mut layers: Vec<Layer> = Vec::new();
    let mut errs: Vec<LexerError> = Vec::new();
    proof {
        lemma_match_state(l.take(0));
        assert(l.take(0) =~= Seq::<Result<Token, LexerError>>::empty());
    }
    for maybe_token in it: lexed
        invariant
            it.seq() == l,
            l.len() < usize::MAX,
            ({
                let (ts, cs, ls, es) = match_state(l.take(it.index() as int));
                &&& items@.len() == ts.len()
                &&& forall|i: int| 0 <= i < ts.len() ==> (#[trigger] items@[i]).token == ts[i]
                    && items@[i].close_index == cs[i]
                &&& layers@ == ls
                &&& errs@ == es
                &&& match_inv(ts, cs, ls)
                &&& ts.len() <= it.index()
            }),
    {
        let ghost k = it.index() as int;
        proof {
            assert(l.take(k + 1).drop_last() =~= l.take(k));
            assert(l.take(k + 1).last() == l[k]);
            lemma_match_state(l.take(k + 1));
        }
        match maybe_token {
            Err(err) => {
                errs.push(err);
            },
            Ok(token) => {
                let token_index = items.len();
                let n = layers.len();
                if n > 0 {
                    let top_open = layers[n - 1].open_index;
                    let top_close = layers[n - 1].close_ty;
                    if token_is_terminal(&token.ty, top_close) {
                        items[top_open].close_index = Some(token_index);
                        layers.pop();
                    }
                }
                match &token.ty {
                    TokenType::Terminal(open_ty) => {
                        match closing_token(*open_ty) {
                            Some(close_ty) => {
                                layers.push(
                                    Layer { open_index: token_index, open_ty: *open_ty, close_ty },
                                );
                            },
                            None => {},
                        }
                    },
                    _ => {},
                }
                items.push(TokenItem { token, close_index: None });
            },
        }
    }
    proof {
        assert(l.take(l.len() as int) =~= l);
    }
    let n = layers.len();
    if n > 0 {
        let top = layers[n - 1];
        let range = items[top.open_index].token.range;
        errs.push(
            LexerError::new(
                LexerErrorType::UnmatchedOpener { open: top.open_ty, close: top.close_ty },
                range,
            ),
        );
    }
    proof {
        let (ts, cs, ls, es) = match_state(l);
        assert(items@ =~= spec_tokenize(l).0);
    }
    if errs.len() == 0 {
        TokenizeResult::Success(items)
    } else {
        TokenizeResult::Failure(TokenizeFailure(items, errs))
    }
}

/// Tokens that failed to tokenize, along with the errors met.
#[derive(Clone, Debug)]
pub struct TokenizeFailure(pub Vec<TokenItem>, pub Vec<LexerError>);

impl TokenizeFailure {
    pub fn items(&self) -> (r: &Vec<TokenItem>)
        ensures
            r@ == self.0@,
    {
        &self.0
    }

    pub fn errors(&self) -> (r: &[LexerError])
        ensures
            r@ == self.1@,
    {
        self.1.as_slice()
    }
}

/// The result of tokenizing.
#[derive(Clone, Debug)]
pub enum TokenizeResult {
    /// Tokenization was successful.
    Success(Vec<TokenItem>),
    /// Tokenization failed with a list of tokens parsed so far and a list of errors.
    Failure(TokenizeFailure),
}

impl TokenizeResult {
    /// The tokens held, whether or not tokenization succeeded.
    pub open spec fn spec_tokens(self) -> Seq<TokenItem> {
        match self {
            TokenizeResult::Success(tokens) => tokens@,
            TokenizeResult::Failure(failure) => failure.0@,
        }
    }

    /// The errors held: none when tokenization succeeded.
    pub open spec fn spec_errors(self) -> Seq<LexerError> {
        match self {
            TokenizeResult::Success(_) => Seq::empty(),
            TokenizeResult::Failure(failure) => failure.1@,
        }
    }

    pub fn tokens(&self) -> (r: &Vec<TokenItem>)
        ensures
            r@ == self.spec_tokens(),
    {
        match self {
            TokenizeResult::Success(tokens) => tokens,
            TokenizeResult::Failure(failure) => &failure.0,
        }
    }

    pub fn into_tokens(self) -> (r: Vec<TokenItem>)
        ensures
            r@ == self.spec_tokens(),
    {
        match self {
            TokenizeResult::Success(tokens) => tokens,
            TokenizeResult::Failure(failure) => failure.0,
        }
    }

    pub fn errors(&self) -> (r: &[LexerError])
        ensures
            r@ == self.spec_errors(),
    {
        match self {
            TokenizeResult::Success(_) => {
                let empty: &[LexerError] = &[];
                assert(empty@ =~= Seq::<LexerError>::empty());
                empty
            },
            TokenizeResult::Failure(failure) => failure.errors(),
        }
    }

    pub fn split(self) -> (r: (Vec<TokenItem>, Vec<LexerError>))
        ensures
            r.0@ == self.spec_tokens(),
            r.1@ == self.spec_errors(),
    {
        match self {
            TokenizeResult::Success(tokens) => (tokens, Vec::new()),
            TokenizeResult::Failure(failure) => (failure.0, failure.1),
        }
    }

    /// The tokens of a successful tokenization.
    pub fn unwrap(self) -> (r: Vec<TokenItem>)
        requires
            self is Success,
        ensures
            r@ == self.spec_tokens(),
    {
        match self {
            TokenizeResult::Success(tokens) => tokens,
            TokenizeResult::Failure(failure) => failure.0,
        }
    }

    /// The failure of an unsuccessful tokenization.
    pub fn unwrap_err(self) -> (r: TokenizeFailure)
        requires
            self is Failure,
        ensures
            self == TokenizeResult::Failure(r),
    {
        match self {
            TokenizeResult::Success(tokens) => TokenizeFailure(tokens, Vec::new()),
            TokenizeResult::Failure(failure) => failure,
        }
    }
}

} // verus!
