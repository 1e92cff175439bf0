use sqparse::ast::{BinaryOperatorKind, PostfixOperatorKind, Precedence, PrefixOperatorKind};
use sqparse::error::{ContextType, ParseError, ParseErrorType, TokenAffinity};
use sqparse::lexer::{tokenize, LexerError, TokenizeResult};
use sqparse::parser::expression::literal;
use sqparse::parser::operator::{binary_operator, postfix_operator, prefix_operator};
use sqparse::parser::result::{definite, maybe, not_definite, not_line_ending, or_error};
use sqparse::parser::table::string_literal;
use sqparse::parser::token_list::TokenList;
use sqparse::parser::token_list_ext::end_group;
use sqparse::token::{Flavor, LiteralToken, SourceRange, StringToken, TerminalToken, Token, TokenItem, TokenType};

const SYMBOLS: &[(&str, TerminalToken)] = &[
    ("...", TerminalToken::Ellipsis),
    ("<=>", TerminalToken::ThreeWay),
    ("<-", TerminalToken::NewSlot),
    ("::", TerminalToken::Namespace),
    ("+=", TerminalToken::AddEqual),
    ("-=", TerminalToken::SubtractEqual),
    ("<=", TerminalToken::LessEqual),
    (">=", TerminalToken::GreaterEqual),
    ("==", TerminalToken::Equal),
    ("!=", TerminalToken::NotEqual),
    ("&&", TerminalToken::LogicalAnd),
    ("||", TerminalToken::LogicalOr),
    ("<<", TerminalToken::ShiftLeft),
    ("++", TerminalToken::Increment),
    ("--", TerminalToken::Decrement),
    ("{", TerminalToken::OpenBrace),
    ("}", TerminalToken::CloseBrace),
    ("[", TerminalToken::OpenSquare),
    ("]", TerminalToken::CloseSquare),
    ("(", TerminalToken::OpenBracket),
    (")", TerminalToken::CloseBracket),
    (";", TerminalToken::Semicolon),
    (",", TerminalToken::Comma),
    (".", TerminalToken::Dot),
    (":", TerminalToken::Colon),
    ("?", TerminalToken::Question),
    ("@", TerminalToken::At),
    ("=", TerminalToken::Assign),
    ("<", TerminalToken::Less),
    (">", TerminalToken::Greater),
    ("+", TerminalToken::Add),
    ("-", TerminalToken::Subtract),
    ("*", TerminalToken::Multiply),
    ("/", TerminalToken::Divide),
    ("%", TerminalToken::Modulo),
    ("&", TerminalToken::BitwiseAnd),
    ("|", TerminalToken::BitwiseOr),
    ("^", TerminalToken::BitwiseXor),
    ("!", TerminalToken::Not),
    ("~", TerminalToken::BitwiseNot),
];

fn keyword(word: &str) -> Option<TerminalToken> {
    Some(match word {
        "in" => TerminalToken::In,
        "instanceof" => TerminalToken::Instanceof,
        "typeof" => TerminalToken::Typeof,
        "clone" => TerminalToken::Clone,
        "delete" => TerminalToken::Delete,
        "local" => TerminalToken::Local,
        "struct" => TerminalToken::Struct,
        "functionref" => TerminalToken::FunctionRef,
        "function" => TerminalToken::Function,
        "constructor" => TerminalToken::Constructor,
        "class" => TerminalToken::Class,
        "extends" => TerminalToken::Extends,
        "delegate" => TerminalToken::Delegate,
        "expect" => TerminalToken::Expect,
        "ornull" => TerminalToken::OrNull,
        "return" => TerminalToken::Return,
        "const" => TerminalToken::Const,
        "enum" => TerminalToken::Enum,
        "if" => TerminalToken::If,
        "else" => TerminalToken::Else,
        "while" => TerminalToken::While,
        "do" => TerminalToken::Do,
        "switch" => TerminalToken::Switch,
        "case" => TerminalToken::Case,
        "default" => TerminalToken::Default,
        "for" => TerminalToken::For,
        "foreach" => TerminalToken::Foreach,
        "try" => TerminalToken::Try,
        "catch" => TerminalToken::Catch,
        "break" => TerminalToken::Break,
        "continue" => TerminalToken::Continue,
        "yield" => TerminalToken::Yield,
        "throw" => TerminalToken::Throw,
        "typedef" => TerminalToken::Typedef,
        "thread" => TerminalToken::Thread,
        "delaythread" => TerminalToken::DelayThread,
        "waitthread" => TerminalToken::WaitThread,
        "waitthreadsolo" => TerminalToken::WaitThreadSolo,
        "wait" => TerminalToken::Wait,
        "global" => TerminalToken::Global,
        "globalize_all_functions" => TerminalToken::GlobalizeAllFunctions,
        "untyped" => TerminalToken::Untyped,
        _ => return None,
    })
}

/// Splits `src` into tokens: words, numbers, double-quoted strings and the symbols above.
fn lex(src: &str) -> Vec<TokenItem> {
    let bytes = src.as_bytes();
    let mut lexed: Vec<Result<Token, LexerError>> = Vec::new();
    let mut i = 0;
    while i < bytes.len() {
        let c = bytes[i] as char;
        if c == '\n' {
            // A line break is recorded on the token before it.
            if let Some(Ok(last)) = lexed.last_mut() {
                let last: &mut Token = last;
                last.new_line = true;
            }
            i += 1;
            continue;
        }
        if c == ' ' {
            i += 1;
            continue;
        }
        let start = i;
        let ty = if c == '#' {
            i += 1;
            while i < bytes.len() && (bytes[i] as char).is_ascii_alphabetic() {
                i += 1;
            }
            TokenType::Terminal(match &src[start..i] {
                "#if" => TerminalToken::PreprocessorIf,
                "#else" => TerminalToken::PreprocessorElse,
                "#endif" => TerminalToken::PreprocessorEndIf,
                _ => TerminalToken::PreprocessorDocument,
            })
        } else if c.is_ascii_alphabetic() || c == '_' {
            while i < bytes.len() && ((bytes[i] as char).is_ascii_alphanumeric() || bytes[i] == b'_') {
                i += 1;
            }
            let word = &src[start..i];
            match keyword(word) {
                Some(t) => TokenType::Terminal(t),
                None => TokenType::Identifier(word.to_string()),
            }
        } else if c.is_ascii_digit() {
            while i < bytes.len() && (bytes[i] as char).is_ascii_digit() {
                i += 1;
            }
            TokenType::Literal(LiteralToken::Int(src[start..i].parse().unwrap()))
        } else if c == '"' {
            i += 1;
            while bytes[i] != b'"' {
                i += 1;
            }
            i += 1;
            TokenType::Literal(LiteralToken::String(StringToken::Literal(src[start + 1..i - 1].to_string())))
        } else {
            let (text, t) = SYMBOLS.iter().find(|(text, _)| src[i..].starts_with(text)).unwrap();
            i += text.len();
            TokenType::Terminal(*t)
        };
        lexed.push(Ok(Token { ty, range: SourceRange { start, end: i }, new_line: false }));
    }
    match tokenize(lexed) {
        TokenizeResult::Success(items) => items,
        TokenizeResult::Failure(_) => panic!("the test input does not tokenize"),
    }
}

fn list(items: &[TokenItem]) -> TokenList<'_> {
    TokenList::new(Flavor::SquirrelRespawn, items)
}

#[test]
fn literal_and_string_literal_errors() {
    let items = lex("a \"s\" 1");
    let err = literal(list(&items)).unwrap_err();
    assert_eq!(err.ty, ParseErrorType::ExpectedLiteral);
    let err = string_literal(list(&items)).unwrap_err();
    assert_eq!(err.ty, ParseErrorType::ExpectedStringLiteral);
    let (rest, _) = list(&items).split_first().unwrap();
    let (rest, index) = string_literal(rest).unwrap();
    assert_eq!(index, 1);
    let (rest, lit) = literal(rest).unwrap();
    assert_eq!(lit.token, 2);
    assert!(rest.is_ended());
}

#[test]
fn operator_errors() {
    let items = lex("a");
    assert_eq!(prefix_operator(list(&items)).unwrap_err().ty, ParseErrorType::ExpectedPrefixOperator);
    assert_eq!(postfix_operator(list(&items)).unwrap_err().ty, ParseErrorType::ExpectedPostfixOperator);
    assert_eq!(binary_operator(list(&items)).unwrap_err().ty, ParseErrorType::ExpectedBinaryOperator);
}

#[test]
fn operators_are_read() {
    let items = lex("typeof ++ <=>");
    let (rest, p) = prefix_operator(list(&items)).unwrap();
    assert_eq!(p.kind, PrefixOperatorKind::Typeof);
    let (rest, q) = postfix_operator(rest).unwrap();
    assert_eq!(q.kind, PostfixOperatorKind::Increment);
    let (rest, b) = binary_operator(rest).unwrap();
    assert_eq!(b.kind, BinaryOperatorKind::ThreeWay);
    assert_eq!((b.first, b.last), (2, 2));
    assert!(rest.is_ended());
}

#[test]
fn compound_terminals_must_touch() {
    let items = lex(">> > >");
    let (rest, (a, b)) = list(&items).terminal2(TerminalToken::Greater, TerminalToken::Greater).unwrap();
    assert_eq!((a, b), (0, 1));
    let err = rest.terminal2(TerminalToken::Greater, TerminalToken::Greater).unwrap_err();
    assert_eq!(err.ty, ParseErrorType::ExpectedCompound2(TerminalToken::Greater, TerminalToken::Greater));
    let items = lex(">>> >> >");
    let (rest, t) = list(&items)
        .terminal3(TerminalToken::Greater, TerminalToken::Greater, TerminalToken::Greater)
        .unwrap();
    assert_eq!(t, (0, 1, 2));
    let err = rest
        .terminal3(TerminalToken::Greater, TerminalToken::Greater, TerminalToken::Greater)
        .unwrap_err();
    assert_eq!(
        err.ty,
        ParseErrorType::ExpectedCompound3(TerminalToken::Greater, TerminalToken::Greater, TerminalToken::Greater)
    );
}

#[test]
fn groups_open_at_their_close_index() {
    let items = lex("( a b ) c");
    let (rest, group) = list(&items).open_group(TerminalToken::OpenBracket, TerminalToken::CloseBracket).unwrap();
    assert_eq!(group.open, 0);
    assert_eq!(group.close, 3);
    assert_eq!(group.inner.start_index(), 1);
    assert_eq!(rest.start_index(), 4);
    // The inside ends at the closing delimiter.
    let (inner_rest, _) = group.inner.split_first().unwrap();
    assert!(!inner_rest.is_ended());
    let err = end_group(Ok((inner_rest, ())), TerminalToken::CloseBracket).unwrap_err();
    assert_eq!(err.ty, ParseErrorType::ExpectedTerminal(TerminalToken::CloseBracket));
    assert_eq!(err.token_index, 2);
    let (ended, _) = inner_rest.split_first().unwrap();
    assert!(end_group(Ok((ended, ())), TerminalToken::CloseBracket).is_ok());
}

#[test]
fn opener_without_close_index_is_unmatched() {
    let token = Token {
        ty: TokenType::Terminal(TerminalToken::OpenBracket),
        range: SourceRange { start: 0, end: 1 },
        new_line: false,
    };
    let items = vec![TokenItem { token, close_index: None }];
    let err = list(&items).open_group(TerminalToken::OpenBracket, TerminalToken::CloseBracket).unwrap_err();
    assert_eq!(err.ty, ParseErrorType::UnmatchedOpener(TerminalToken::OpenBracket));
    assert_eq!(err.token_index, 0);
    assert_eq!(err.affinity, TokenAffinity::Inline);
}

#[test]
fn line_break_after_a_value_can_be_illegal() {
    let items = lex("a\nb");
    let (rest, _) = list(&items).split_first().unwrap();
    assert!(rest.is_newline());
    let err = not_line_ending(Ok((rest, ()))).unwrap_err();
    assert_eq!(err.ty, ParseErrorType::IllegalLineBreak);
    assert_eq!(err.token_index, 1);
    let items = lex("a b");
    let (rest, _) = list(&items).split_first().unwrap();
    assert!(!rest.is_newline());
    assert!(not_line_ending(Ok((rest, ()))).is_ok());
}

#[test]
fn errors_at_the_end_sit_before_it() {
    let items = lex("a");
    let (rest, _) = list(&items).split_first().unwrap();
    assert!(rest.is_ended());
    let err = rest.error(ParseErrorType::ExpectedValue);
    assert_eq!(err.affinity, TokenAffinity::Before);
    assert_eq!(err.token_index, 1);
    let err = list(&items).error(ParseErrorType::ExpectedValue);
    assert_eq!(err.affinity, TokenAffinity::Inline);
    let err = list(&items).error_before(ParseErrorType::ExpectedValue);
    assert_eq!(err.affinity, TokenAffinity::Before);
}

#[test]
fn innermost_context_is_kept() {
    let e = ParseError::new(ParseErrorType::ExpectedValue, 4, TokenAffinity::Inline);
    assert!(e.context.is_none());
    let inner = e.with_context(ContextType::Expression, 2);
    let c = inner.context.unwrap();
    assert_eq!((c.ty, c.start, c.end), (ContextType::Expression, 2, 4));
    let outer = inner.with_context(ContextType::Statement, 0);
    assert_eq!(outer, inner);
}

#[test]
fn replace_context_renames_only_a_context_started_here() {
    let e = ParseError::new(ParseErrorType::ExpectedValue, 4, TokenAffinity::Inline)
        .with_context(ContextType::BlockStatement, 2);
    let same_start = e.replace_context(ContextType::BlockStatement, ContextType::Span, 2);
    assert_eq!(same_start.context.unwrap().ty, ContextType::Span);
    let other_start = e.replace_context(ContextType::BlockStatement, ContextType::Span, 1);
    assert_eq!(other_start, e);
    let bare = ParseError::new(ParseErrorType::ExpectedValue, 4, TokenAffinity::Inline);
    let given = bare.replace_context(ContextType::BlockStatement, ContextType::Span, 1);
    assert_eq!(given.context.unwrap().ty, ContextType::Span);
    assert_eq!(given.context.unwrap().start, 1);
}

#[test]
fn fatality_and_soft_errors() {
    let items = lex("a b");
    let tokens = list(&items);
    let soft: Result<(TokenList, ()), ParseError> = Err(tokens.error(ParseErrorType::ExpectedValue));
    assert!(!soft.unwrap_err().is_fatal);
    let fatal = definite(soft);
    assert!(fatal.unwrap_err().is_fatal);
    assert!(!not_definite(fatal).unwrap_err().is_fatal);
    // A soft error becomes the absence of a value; a fatal one stays.
    let (at, none) = maybe(soft, tokens).unwrap();
    assert!(none.is_none());
    assert_eq!(at.start_index(), 0);
    assert!(maybe(fatal, tokens).is_err());
    // Only a soft error is replaced.
    let replaced = or_error(soft, tokens.error(ParseErrorType::ExpectedStatement)).unwrap_err();
    assert_eq!(replaced.ty, ParseErrorType::ExpectedStatement);
    let kept = or_error(fatal, tokens.error(ParseErrorType::ExpectedStatement)).unwrap_err();
    assert_eq!(kept.ty, ParseErrorType::ExpectedValue);
}

#[test]
fn token_list_navigation() {
    let items = lex("a b c");
    let tokens = list(&items);
    assert_eq!(tokens.previous_index(), None);
    assert!(tokens.previous().is_none());
    assert_eq!(tokens.flavor(), Flavor::SquirrelRespawn);
    let (before, after) = tokens.split_at(2);
    assert_eq!(before.start_index(), 0);
    assert_eq!(after.start_index(), 2);
    let (before_rest, _) = before.split_first().unwrap();
    let (before_end, _) = before_rest.split_first().unwrap();
    assert!(before_end.is_ended());
    assert_eq!(after.previous_index(), Some(1));
    assert_eq!(after.previous().unwrap().token.ty, TokenType::Identifier("b".to_string()));
    assert_eq!(after.next().unwrap().token.ty, TokenType::Identifier("c".to_string()));
    assert!(after.peek_terminal(TerminalToken::Comma) == false);
}

#[test]
fn precedence_levels_order_operators() {
    assert_eq!(Precedence::Lowest.level(), 0);
    assert_eq!(Precedence::Comma.level(), 1);
    assert_eq!(Precedence::Property.level(), 16);
    assert_eq!(BinaryOperatorKind::AddAssign.precedence(), Precedence::Assignment);
    assert_eq!(BinaryOperatorKind::Modulo.precedence(), Precedence::Multiplicative);
    assert_eq!(BinaryOperatorKind::UnsignedShiftRight.precedence(), Precedence::Bitshift);
    assert_eq!(BinaryOperatorKind::Instanceof.precedence(), Precedence::Comparison);
    assert!(BinaryOperatorKind::Multiply.precedence().level() > BinaryOperatorKind::Add.precedence().level());
}

#[test]
fn tokenized_openers_open_groups() {
    let items = lex("{ [ a ] ( ) }");
    let tokens = list(&items);
    let (after, outer) = tokens.open_group(TerminalToken::OpenBrace, TerminalToken::CloseBrace).unwrap();
    assert!(after.is_ended());
    assert_eq!((outer.open, outer.close), (0, 6));
    let (rest, square) = outer.inner.open_group(TerminalToken::OpenSquare, TerminalToken::CloseSquare).unwrap();
    assert_eq!((square.open, square.close), (1, 3));
    let (rest, round) = rest.open_group(TerminalToken::OpenBracket, TerminalToken::CloseBracket).unwrap();
    assert_eq!((round.open, round.close), (4, 5));
    assert!(rest.is_ended());
    // A closer of another kind does not close the group.
    let err = tokens.open_group(TerminalToken::OpenBrace, TerminalToken::CloseSquare).unwrap_err();
    assert_eq!(err.ty, ParseErrorType::UnmatchedOpener(TerminalToken::OpenBrace));
}
