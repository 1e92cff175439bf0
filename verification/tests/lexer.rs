use sqparse::lexer::{tokenize, LexerError, LexerErrorType, TokenizeResult};
use sqparse::token::{SourceRange, TerminalToken, Token, TokenType};

fn term(t: TerminalToken, start: usize) -> Result<Token, LexerError> {
    Ok(Token {
        ty: TokenType::Terminal(t),
        range: SourceRange { start, end: start + 1 },
        new_line: false,
    })
}

fn name(s: &str, start: usize) -> Result<Token, LexerError> {
    Ok(Token {
        ty: TokenType::Identifier(s.to_string()),
        range: SourceRange { start, end: start + s.len() },
        new_line: false,
    })
}

fn bad(start: usize) -> Result<Token, LexerError> {
    Err(LexerError {
        ty: LexerErrorType::UnterminatedString,
        range: SourceRange { start, end: start + 1 },
    })
}

#[test]
fn nested_delimiters_point_at_their_closers() {
    // { ( a ) [ ] }
    let lexed = vec![
        term(TerminalToken::OpenBrace, 0),
        term(TerminalToken::OpenBracket, 2),
        name("a", 4),
        term(TerminalToken::CloseBracket, 6),
        term(TerminalToken::OpenSquare, 8),
        term(TerminalToken::CloseSquare, 9),
        term(TerminalToken::CloseBrace, 11),
    ];
    let result = tokenize(lexed);
    assert!(matches!(result, TokenizeResult::Success(_)));
    let items = result.unwrap();
    assert_eq!(items.len(), 7);
    let closes: Vec<Option<usize>> = items.iter().map(|i| i.close_index).collect();
    assert_eq!(closes, vec![Some(6), Some(3), None, None, Some(5), None, None]);
    assert_eq!(items[2].token.ty, TokenType::Identifier("a".to_string()));
}

#[test]
fn preprocessor_if_is_closed_by_endif() {
    let lexed = vec![
        term(TerminalToken::PreprocessorIf, 0),
        name("SERVER", 4),
        term(TerminalToken::PreprocessorElse, 11),
        term(TerminalToken::PreprocessorEndIf, 17),
    ];
    let items = tokenize(lexed).unwrap();
    assert_eq!(items[0].close_index, Some(3));
    assert_eq!(items[2].close_index, None);
}

#[test]
fn unmatched_opener_is_reported_with_its_range() {
    // { ( }
    let lexed = vec![
        term(TerminalToken::OpenBrace, 0),
        term(TerminalToken::OpenBracket, 2),
        term(TerminalToken::CloseBrace, 4),
    ];
    let result = tokenize(lexed);
    assert!(matches!(result, TokenizeResult::Failure(_)));
    assert_eq!(result.tokens().len(), 3);
    let errors = result.errors();
    assert_eq!(errors.len(), 1);
    assert_eq!(
        errors[0].ty,
        LexerErrorType::UnmatchedOpener {
            open: TerminalToken::OpenBracket,
            close: TerminalToken::CloseBracket,
        }
    );
    assert_eq!(errors[0].range, SourceRange { start: 2, end: 3 });
    // The brace does not close the bracket's tree, so it is left open too.
    assert_eq!(result.tokens()[0].close_index, None);
    assert_eq!(result.tokens()[1].close_index, None);
}

#[test]
fn stray_closer_is_kept_without_error() {
    let lexed = vec![name("a", 0), term(TerminalToken::CloseBracket, 1)];
    let result = tokenize(lexed);
    assert!(matches!(result, TokenizeResult::Success(_)));
    assert_eq!(result.tokens().len(), 2);
    assert_eq!(result.errors().len(), 0);
}

#[test]
fn lexer_errors_are_collected_and_tokens_kept() {
    let lexed = vec![name("a", 0), bad(2), name("b", 4), bad(6)];
    let result = tokenize(lexed);
    let (items, errors) = result.split();
    assert_eq!(items.len(), 2);
    assert_eq!(items[1].token.ty, TokenType::Identifier("b".to_string()));
    assert_eq!(errors.len(), 2);
    assert_eq!(errors[0].range.start, 2);
    assert_eq!(errors[1].range.start, 6);
}

#[test]
fn lexer_errors_come_before_the_unmatched_opener() {
    let lexed = vec![term(TerminalToken::OpenSquare, 0), bad(2)];
    let failure = tokenize(lexed).unwrap_err();
    assert_eq!(failure.items().len(), 1);
    let errors = failure.errors();
    assert_eq!(errors.len(), 2);
    assert_eq!(errors[0].ty, LexerErrorType::UnterminatedString);
    assert_eq!(
        errors[1].ty,
        LexerErrorType::UnmatchedOpener {
            open: TerminalToken::OpenSquare,
            close: TerminalToken::CloseSquare,
        }
    );
}

#[test]
fn only_the_innermost_open_tree_is_reported() {
    // { [
    let lexed = vec![term(TerminalToken::OpenBrace, 0), term(TerminalToken::OpenSquare, 2)];
    let failure = tokenize(lexed).unwrap_err();
    assert_eq!(failure.errors().len(), 1);
    assert_eq!(failure.errors()[0].range.start, 2);
}

#[test]
fn accessors_agree_on_success() {
    let lexed = vec![name("a", 0), name("b", 2)];
    let result = tokenize(lexed);
    let tokens = result.tokens().clone();
    assert_eq!(result.errors().len(), 0);
    let (split_tokens, split_errors) = result.clone().split();
    assert_eq!(split_tokens, tokens);
    assert!(split_errors.is_empty());
    assert_eq!(result.into_tokens(), tokens);
}

#[test]
fn accessors_agree_on_failure() {
    let lexed = vec![name("a", 0), bad(2)];
    let result = tokenize(lexed);
    let tokens = result.tokens().clone();
    let errors = result.errors().to_vec();
    let (split_tokens, split_errors) = result.clone().split();
    assert_eq!(split_tokens, tokens);
    assert_eq!(split_errors, errors);
    assert_eq!(result.into_tokens(), tokens);
}

#[test]
fn empty_input_tokenizes_to_nothing() {
    let result = tokenize(Vec::new());
    assert!(matches!(result, TokenizeResult::Success(_)));
    assert!(result.unwrap().is_empty());
}
