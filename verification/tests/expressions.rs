use sqparse::ast::{
    BinaryOperatorKind, Expression, List, MethodIdentifier, Precedence, PrefixOperatorKind,
    TableSlotType,
};
use sqparse::error::{ContextType, ParseErrorType};
use sqparse::lexer::{tokenize, LexerError, TokenizeResult};
use sqparse::parser::expression::expression;
use sqparse::parser::identifier::{identifier, method_identifier};
use sqparse::parser::token_list::TokenList;
use sqparse::token::{Flavor, LiteralToken, SourceRange, StringToken, TerminalToken, Token, TokenItem, TokenType};

const SYMBOLS: &[(&str, TerminalToken)] = &[
    ("...", TerminalToken::Ellipsis),
    ("<=>", TerminalToken::ThreeWay),
    ("<-", TerminalToken::NewSlot),
    ("::", TerminalToken::Namespace),
    ("+=", TerminalToken::AddEqual),
    ("-=", TerminalToken::SubtractEqual),
    ("<=", TerminalToken::LessEqual),
    (">=", TerminalToken::GreaterEqual),
    ("==", TerminalToken::Equal),
    ("!=", TerminalToken::NotEqual),
    ("&&", TerminalToken::LogicalAnd),
    ("||", TerminalToken::LogicalOr),
    ("<<", TerminalToken::ShiftLeft),
    ("++", TerminalToken::Increment),
    ("--", TerminalToken::Decrement),
    ("{", TerminalToken::OpenBrace),
    ("}", TerminalToken::CloseBrace),
    ("[", TerminalToken::OpenSquare),
    ("]", TerminalToken::CloseSquare),
    ("(", TerminalToken::OpenBracket),
    (")", TerminalToken::CloseBracket),
    (";", TerminalToken::Semicolon),
    (",", TerminalToken::Comma),
    (".", TerminalToken::Dot),
    (":", TerminalToken::Colon),
    ("?", TerminalToken::Question),
    ("@", TerminalToken::At),
    ("=", TerminalToken::Assign),
    ("<", TerminalToken::Less),
    (">", TerminalToken::Greater),
    ("+", TerminalToken::Add),
    ("-", TerminalToken::Subtract),
    ("*", TerminalToken::Multiply),
    ("/", TerminalToken::Divide),
    ("%", TerminalToken::Modulo),
    ("&", TerminalToken::BitwiseAnd),
    ("|", TerminalToken::BitwiseOr),
    ("^", TerminalToken::BitwiseXor),
    ("!", TerminalToken::Not),
    ("~", TerminalToken::BitwiseNot),
];

fn keyword(word: &str) -> Option<TerminalToken> {
    Some(match word {
        "in" => TerminalToken::In,
        "instanceof" => TerminalToken::Instanceof,
        "typeof" => TerminalToken::Typeof,
        "clone" => TerminalToken::Clone,
        "delete" => TerminalToken::Delete,
        "local" => TerminalToken::Local,
        "struct" => TerminalToken::Struct,
        "functionref" => TerminalToken::FunctionRef,
        "function" => TerminalToken::Function,
        "constructor" => TerminalToken::Constructor,
        "class" => TerminalToken::Class,
        "extends" => TerminalToken::Extends,
        "delegate" => TerminalToken::Delegate,
        "expect" => TerminalToken::Expect,
        "ornull" => TerminalToken::OrNull,
        "return" => TerminalToken::Return,
        _ => return None,
    })
}

/// Splits `src` into tokens: words, numbers, double-quoted strings and the symbols above.
fn lex(src: &str) -> Vec<TokenItem> {
    let bytes = src.as_bytes();
    let mut lexed: Vec<Result<Token, LexerError>> = Vec::new();
    let mut i = 0;
    while i < bytes.len() {
        let c = bytes[i] as char;
        if c == '\n' {
            // A line break is recorded on the token before it.
            if let Some(Ok(last)) = lexed.last_mut() {
                let last: &mut Token = last;
                last.new_line = true;
            }
            i += 1;
            continue;
        }
        if c == ' ' {
            i += 1;
            continue;
        }
        let start = i;
        let ty = if c.is_ascii_alphabetic() || c == '_' {
            while i < bytes.len() && ((bytes[i] as char).is_ascii_alphanumeric() || bytes[i] == b'_') {
                i += 1;
            }
            let word = &src[start..i];
            match keyword(word) {
                Some(t) => TokenType::Terminal(t),
                None => TokenType::Identifier(word.to_string()),
            }
        } else if c.is_ascii_digit() {
            while i < bytes.len() && (bytes[i] as char).is_ascii_digit() {
                i += 1;
            }
            TokenType::Literal(LiteralToken::Int(src[start..i].parse().unwrap()))
        } else if c == '"' {
            i += 1;
            while bytes[i] != b'"' {
                i += 1;
            }
            i += 1;
            TokenType::Literal(LiteralToken::String(StringToken::Literal(src[start + 1..i - 1].to_string())))
        } else {
            let (text, t) = SYMBOLS.iter().find(|(text, _)| src[i..].starts_with(text)).unwrap();
            i += text.len();
            TokenType::Terminal(*t)
        };
        lexed.push(Ok(Token { ty, range: SourceRange { start, end: i }, new_line: false }));
    }
    match tokenize(lexed) {
        TokenizeResult::Success(items) => items,
        TokenizeResult::Failure(_) => panic!("the test input does not tokenize"),
    }
}

fn list_len<T>(l: &List<T>) -> usize {
    match l {
        List::Nil => 0,
        List::Cons(_, rest) => 1 + list_len(rest),
    }
}

fn parse(items: &[TokenItem]) -> Box<Expression> {
    let tokens = TokenList::new(Flavor::SquirrelRespawn, items);
    let (rest, e) = expression(tokens, Precedence::Lowest).unwrap();
    assert!(rest.is_ended(), "not all tokens were read");
    e
}

fn binary_kind(e: &Expression) -> BinaryOperatorKind {
    match e {
        Expression::Binary(b) => b.operator.kind,
        other => panic!("not a binary expression: {:?}", other),
    }
}

#[test]
fn identifier_reads_one_name() {
    let items = lex("foo bar");
    let tokens = TokenList::new(Flavor::SquirrelRespawn, &items);
    let (rest, id) = identifier(tokens).unwrap();
    assert_eq!(id.token, 0);
    assert_eq!(rest.start_index(), 1);
}

#[test]
fn identifier_rejects_a_terminal() {
    let items = lex("+");
    let tokens = TokenList::new(Flavor::SquirrelRespawn, &items);
    let err = identifier(tokens).unwrap_err();
    assert_eq!(err.ty, ParseErrorType::ExpectedIdentifier);
    assert_eq!(err.token_index, 0);
    assert!(!err.is_fatal);
}

#[test]
fn method_identifier_accepts_constructor() {
    let items = lex("constructor");
    let tokens = TokenList::new(Flavor::SquirrelRespawn, &items);
    let (_, m) = method_identifier(tokens).unwrap();
    assert!(matches!(m, MethodIdentifier::Constructor(0)));
}

#[test]
fn multiplication_binds_tighter_than_addition() {
    let items = lex("a + b * c");
    let e = parse(&items);
    assert_eq!(binary_kind(&e), BinaryOperatorKind::Add);
    match *e {
        Expression::Binary(b) => {
            assert!(matches!(*b.left, Expression::Var(_)));
            assert_eq!(binary_kind(&b.right), BinaryOperatorKind::Multiply);
        }
        _ => unreachable!(),
    }
}

#[test]
fn same_precedence_operators_group_left() {
    let items = lex("a - b - c");
    let e = parse(&items);
    match *e {
        Expression::Binary(b) => {
            assert_eq!(b.operator.kind, BinaryOperatorKind::Subtract);
            assert_eq!(binary_kind(&b.left), BinaryOperatorKind::Subtract);
            assert!(matches!(*b.right, Expression::Var(_)));
        }
        _ => unreachable!(),
    }
}

#[test]
fn assignment_groups_left_like_every_binary_operator() {
    let items = lex("a = b = c");
    let e = parse(&items);
    match *e {
        Expression::Binary(b) => {
            assert_eq!(b.operator.kind, BinaryOperatorKind::Assign);
            assert_eq!(binary_kind(&b.left), BinaryOperatorKind::Assign);
            assert!(matches!(*b.right, Expression::Var(_)));
        }
        _ => unreachable!(),
    }
}

#[test]
fn touching_greater_signs_shift_right() {
    let items = lex("a >> b");
    assert_eq!(binary_kind(&parse(&items)), BinaryOperatorKind::ShiftRight);
    let items = lex("a >>> b");
    assert_eq!(binary_kind(&parse(&items)), BinaryOperatorKind::UnsignedShiftRight);
}

#[test]
fn separated_greater_signs_are_not_a_shift() {
    let items = lex("a > > b");
    let tokens = TokenList::new(Flavor::SquirrelRespawn, &items);
    let err = expression(tokens, Precedence::Lowest).unwrap_err();
    assert_eq!(err.ty, ParseErrorType::ExpectedValue);
    assert_eq!(err.token_index, 2);
}

#[test]
fn comparison_and_logic() {
    let items = lex("a == b && c >= d || !e");
    let e = parse(&items);
    match *e {
        Expression::Binary(b) => {
            assert_eq!(b.operator.kind, BinaryOperatorKind::LogicalOr);
            assert_eq!(binary_kind(&b.left), BinaryOperatorKind::LogicalAnd);
            assert!(matches!(*b.right, Expression::Prefix(_)));
        }
        _ => unreachable!(),
    }
}

#[test]
fn less_than_after_a_name_reads_as_a_generic_type() {
    // `a <` starts a generic type argument list, so the type argument `b` must be followed
    // by `>`.
    let items = lex("a < b && c");
    let tokens = TokenList::new(Flavor::SquirrelRespawn, &items);
    let err = expression(tokens, Precedence::Lowest).unwrap_err();
    assert_eq!(err.ty, ParseErrorType::ExpectedTerminal(TerminalToken::Greater));
    assert_eq!(err.token_index, 3);
    assert!(err.is_fatal);
    assert_eq!(err.context.unwrap().ty, ContextType::GenericArgumentList);
}

#[test]
fn less_than_after_a_literal_compares() {
    let items = lex("1 < b");
    assert_eq!(binary_kind(&parse(&items)), BinaryOperatorKind::Less);
}

#[test]
fn ternary_expression() {
    let items = lex("a ? b : c");
    let e = parse(&items);
    match *e {
        Expression::Ternary(t) => {
            assert_eq!(t.question, 1);
            assert_eq!(t.separator, 3);
            assert!(matches!(*t.false_value, Expression::Var(_)));
        }
        other => panic!("{:?}", other),
    }
}

#[test]
fn property_call_and_index_chain() {
    let items = lex("a.b(1, 2)[0]");
    let e = parse(&items);
    match *e {
        Expression::Index(i) => {
            assert_eq!(i.open, 8);
            match *i.base {
                Expression::Call(c) => {
                    assert_eq!(list_len(&c.arguments), 2);
                    assert!(matches!(*c.function, Expression::Property(_)));
                }
                other => panic!("{:?}", other),
            }
        }
        other => panic!("{:?}", other),
    }
}

#[test]
fn postfix_and_prefix_operators() {
    let items = lex("-a++");
    let e = parse(&items);
    match *e {
        Expression::Prefix(p) => {
            assert_eq!(p.operator.kind, PrefixOperatorKind::Negate);
            assert!(matches!(*p.value, Expression::Postfix(_)));
        }
        other => panic!("{:?}", other),
    }
}

#[test]
fn comma_expression_collects_values() {
    let items = lex("a, b, c");
    let e = parse(&items);
    match *e {
        Expression::Comma(c) => assert_eq!(list_len(&c.values.items), 2),
        other => panic!("{:?}", other),
    }
}

#[test]
fn comma_is_excluded_above_its_precedence() {
    let items = lex("a, b");
    let tokens = TokenList::new(Flavor::SquirrelRespawn, &items);
    let (rest, e) = expression(tokens, Precedence::Comma).unwrap();
    assert!(matches!(*e, Expression::Var(_)));
    assert_eq!(rest.start_index(), 1);
}

#[test]
fn parens_and_literals() {
    let items = lex("(1 + \"x\")");
    let e = parse(&items);
    match *e {
        Expression::Parens(p) => {
            assert_eq!(p.open, 0);
            assert_eq!(p.close, 4);
            assert_eq!(binary_kind(&p.value), BinaryOperatorKind::Add);
        }
        other => panic!("{:?}", other),
    }
}

#[test]
fn root_var_expression() {
    let items = lex("::a");
    match *parse(&items) {
        Expression::RootVar(r) => {
            assert_eq!(r.root, 0);
            assert_eq!(r.name.token, 1);
        }
        other => panic!("{:?}", other),
    }
}

#[test]
fn table_with_each_kind_of_slot() {
    let items = lex("{ a = 1, [b] = 2, \"c\": 3 }");
    match *parse(&items) {
        Expression::Table(t) => {
            assert_eq!(t.open, 0);
            assert_eq!(t.close, 14);
            assert_eq!(list_len(&t.slots), 3);
            match &t.slots {
                List::Cons(first, rest) => {
                    assert!(matches!(first.ty, TableSlotType::Property { .. }));
                    assert_eq!(first.comma, Some(4));
                    match &**rest {
                        List::Cons(second, rest) => {
                            assert!(matches!(second.ty, TableSlotType::ComputedProperty { .. }));
                            match &**rest {
                                List::Cons(third, _) => {
                                    assert!(matches!(third.ty, TableSlotType::JsonProperty { .. }));
                                    assert_eq!(third.comma, None);
                                }
                                List::Nil => unreachable!(),
                            }
                        }
                        List::Nil => unreachable!(),
                    }
                }
                List::Nil => unreachable!(),
            }
        }
        other => panic!("{:?}", other),
    }
}

#[test]
fn bad_table_slot_is_a_fatal_error() {
    let items = lex("{ + }");
    let tokens = TokenList::new(Flavor::SquirrelRespawn, &items);
    let err = expression(tokens, Precedence::Lowest).unwrap_err();
    assert_eq!(err.ty, ParseErrorType::ExpectedTableSlot);
    assert_eq!(err.token_index, 1);
    assert!(err.is_fatal);
}

#[test]
fn array_with_trailing_comma() {
    let items = lex("[1, 2,]");
    match *parse(&items) {
        Expression::Array(a) => {
            assert_eq!(list_len(&a.values), 2);
            assert_eq!(a.close, 5);
            assert_eq!(a.spread, None);
        }
        other => panic!("{:?}", other),
    }
}

#[test]
fn vector_expression() {
    let items = lex("<1, 2, 3>");
    match *parse(&items) {
        Expression::Vector(v) => {
            assert_eq!(v.comma_1, 2);
            assert_eq!(v.comma_2, 4);
            assert_eq!(v.close, 6);
        }
        other => panic!("{:?}", other),
    }
}

#[test]
fn lambda_expression() {
    let items = lex("@(a, b) a + b");
    match *parse(&items) {
        Expression::Lambda(l) => {
            assert_eq!(list_len(&l.params), 2);
            assert_eq!(l.close, 5);
            assert_eq!(binary_kind(&l.value), BinaryOperatorKind::Add);
        }
        other => panic!("{:?}", other),
    }
}

#[test]
fn function_expression_with_body() {
    let items = lex("function(a) { return a }");
    match *parse(&items) {
        Expression::Function(f) => {
            assert_eq!(f.function, 0);
            assert!(f.return_type.is_none());
            assert_eq!(list_len(&f.definition.params), 1);
        }
        other => panic!("{:?}", other),
    }
}

#[test]
fn class_expression_with_members() {
    let items = lex("class { x = 1; constructor() {} function f() {} }");
    match *parse(&items) {
        Expression::Class(c) => {
            assert_eq!(c.class, 0);
            assert_eq!(list_len(&c.definition.members), 3);
        }
        other => panic!("{:?}", other),
    }
}

#[test]
fn delegate_and_expect_expressions() {
    let items = lex("delegate a : b");
    assert!(matches!(*parse(&items), Expression::Delegate(_)));
    let items = lex("expect int(a)");
    match *parse(&items) {
        Expression::Expect(e) => {
            assert_eq!(e.open, 2);
            assert_eq!(e.close, 4);
        }
        other => panic!("{:?}", other),
    }
}

#[test]
fn missing_value_is_reported() {
    let items = lex("a +");
    let tokens = TokenList::new(Flavor::SquirrelRespawn, &items);
    let err = expression(tokens, Precedence::Lowest).unwrap_err();
    assert_eq!(err.ty, ParseErrorType::ExpectedValue);
    assert_eq!(err.token_index, 2);
    let context = err.context.unwrap();
    assert_eq!(context.ty, ContextType::Expression);
    assert_eq!(context.start, 0);
}

#[test]
fn empty_input_is_not_a_value() {
    let items: Vec<TokenItem> = Vec::new();
    let tokens = TokenList::new(Flavor::SquirrelRespawn, &items);
    let err = expression(tokens, Precedence::Lowest).unwrap_err();
    assert_eq!(err.ty, ParseErrorType::ExpectedValue);
    assert!(!err.is_fatal);
}
