use sqparse::ast::{
    Expression, ForDefinition, GlobalDefinition, IfStatementType, List, Preprocessable, Statement, StatementType,
    SwitchCaseCondition, Type,
};
use sqparse::error::{ContextType, ParseErrorType};
use sqparse::lexer::{tokenize, LexerError, TokenizeResult};
use sqparse::parser::class::class_member;
use sqparse::parser::control::switch_case;
use sqparse::parser::statement::{statement, statements};
use sqparse::parser::token_list::TokenList;
use sqparse::parser::type_::type_;
use sqparse::token::{Flavor, LiteralToken, SourceRange, StringToken, TerminalToken, Token, TokenItem, TokenType};

const SYMBOLS: &[(&str, TerminalToken)] = &[
    ("...", TerminalToken::Ellipsis),
    ("<=>", TerminalToken::ThreeWay),
    ("<-", TerminalToken::NewSlot),
    ("::", TerminalToken::Namespace),
    ("+=", TerminalToken::AddEqual),
    ("-=", TerminalToken::SubtractEqual),
    ("<=", TerminalToken::LessEqual),
    (">=", TerminalToken::GreaterEqual),
    ("==", TerminalToken::Equal),
    ("!=", TerminalToken::NotEqual),
    ("&&", TerminalToken::LogicalAnd),
    ("||", TerminalToken::LogicalOr),
    ("<<", TerminalToken::ShiftLeft),
    ("++", TerminalToken::Increment),
    ("--", TerminalToken::Decrement),
    ("{", TerminalToken::OpenBrace),
    ("}", TerminalToken::CloseBrace),
    ("[", TerminalToken::OpenSquare),
    ("]", TerminalToken::CloseSquare),
    ("(", TerminalToken::OpenBracket),
    (")", TerminalToken::CloseBracket),
    (";", TerminalToken::Semicolon),
    (",", TerminalToken::Comma),
    (".", TerminalToken::Dot),
    (":", TerminalToken::Colon),
    ("?", TerminalToken::Question),
    ("@", TerminalToken::At),
    ("=", TerminalToken::Assign),
    ("<", TerminalToken::Less),
    (">", TerminalToken::Greater),
    ("+", TerminalToken::Add),
    ("-", TerminalToken::Subtract),
    ("*", TerminalToken::Multiply),
    ("/", TerminalToken::Divide),
    ("%", TerminalToken::Modulo),
    ("&", TerminalToken::BitwiseAnd),
    ("|", TerminalToken::BitwiseOr),
    ("^", TerminalToken::BitwiseXor),
    ("!", TerminalToken::Not),
    ("~", TerminalToken::BitwiseNot),
];

fn keyword(word: &str) -> Option<TerminalToken> {
    Some(match word {
        "in" => TerminalToken::In,
        "instanceof" => TerminalToken::Instanceof,
        "typeof" => TerminalToken::Typeof,
        "clone" => TerminalToken::Clone,
        "delete" => TerminalToken::Delete,
        "local" => TerminalToken::Local,
        "struct" => TerminalToken::Struct,
        "functionref" => TerminalToken::FunctionRef,
        "function" => TerminalToken::Function,
        "constructor" => TerminalToken::Constructor,
        "class" => TerminalToken::Class,
        "extends" => TerminalToken::Extends,
        "delegate" => TerminalToken::Delegate,
        "expect" => TerminalToken::Expect,
        "ornull" => TerminalToken::OrNull,
        "return" => TerminalToken::Return,
        "const" => TerminalToken::Const,
        "enum" => TerminalToken::Enum,
        "if" => TerminalToken::If,
        "else" => TerminalToken::Else,
        "while" => TerminalToken::While,
        "do" => TerminalToken::Do,
        "switch" => TerminalToken::Switch,
        "case" => TerminalToken::Case,
        "default" => TerminalToken::Default,
        "for" => TerminalToken::For,
        "foreach" => TerminalToken::Foreach,
        "try" => TerminalToken::Try,
        "catch" => TerminalToken::Catch,
        "break" => TerminalToken::Break,
        "continue" => TerminalToken::Continue,
        "yield" => TerminalToken::Yield,
        "throw" => TerminalToken::Throw,
        "typedef" => TerminalToken::Typedef,
        "thread" => TerminalToken::Thread,
        "delaythread" => TerminalToken::DelayThread,
        "waitthread" => TerminalToken::WaitThread,
        "waitthreadsolo" => TerminalToken::WaitThreadSolo,
        "wait" => TerminalToken::Wait,
        "global" => TerminalToken::Global,
        "globalize_all_functions" => TerminalToken::GlobalizeAllFunctions,
        "untyped" => TerminalToken::Untyped,
        _ => return None,
    })
}

/// Splits `src` into tokens: words, numbers, double-quoted strings and the symbols above.
fn lex(src: &str) -> Vec<TokenItem> {
    let bytes = src.as_bytes();
    let mut lexed: Vec<Result<Token, LexerError>> = Vec::new();
    let mut i = 0;
    while i < bytes.len() {
        let c = bytes[i] as char;
        if c == '\n' {
            // A line break is recorded on the token before it.
            if let Some(Ok(last)) = lexed.last_mut() {
                let last: &mut Token = last;
                last.new_line = true;
            }
            i += 1;
            continue;
        }
        if c == ' ' {
            i += 1;
            continue;
        }
        let start = i;
        let ty = if c == '#' {
            i += 1;
            while i < bytes.len() && (bytes[i] as char).is_ascii_alphabetic() {
                i += 1;
            }
            TokenType::Terminal(match &src[start..i] {
                "#if" => TerminalToken::PreprocessorIf,
                "#else" => TerminalToken::PreprocessorElse,
                "#endif" => TerminalToken::PreprocessorEndIf,
                _ => TerminalToken::PreprocessorDocument,
            })
        } else if c.is_ascii_alphabetic() || c == '_' {
            while i < bytes.len() && ((bytes[i] as char).is_ascii_alphanumeric() || bytes[i] == b'_') {
                i += 1;
            }
            let word = &src[start..i];
            match keyword(word) {
                Some(t) => TokenType::Terminal(t),
                None => TokenType::Identifier(word.to_string()),
            }
        } else if c.is_ascii_digit() {
            while i < bytes.len() && (bytes[i] as char).is_ascii_digit() {
                i += 1;
            }
            TokenType::Literal(LiteralToken::Int(src[start..i].parse().unwrap()))
        } else if c == '"' {
            i += 1;
            while bytes[i] != b'"' {
                i += 1;
            }
            i += 1;
            TokenType::Literal(LiteralToken::String(StringToken::Literal(src[start + 1..i - 1].to_string())))
        } else {
            let (text, t) = SYMBOLS.iter().find(|(text, _)| src[i..].starts_with(text)).unwrap();
            i += text.len();
            TokenType::Terminal(*t)
        };
        lexed.push(Ok(Token { ty, range: SourceRange { start, end: i }, new_line: false }));
    }
    match tokenize(lexed) {
        TokenizeResult::Success(items) => items,
        TokenizeResult::Failure(_) => panic!("the test input does not tokenize"),
    }
}

fn list_len<T>(l: &List<T>) -> usize {
    match l {
        List::Nil => 0,
        List::Cons(_, rest) => 1 + list_len(rest),
    }
}

fn parse_all(items: &[TokenItem]) -> Vec<Statement> {
    parse_all_in(Flavor::SquirrelRespawn, items)
}

fn parse_all_in(flavor: Flavor, items: &[TokenItem]) -> Vec<Statement> {
    let tokens = TokenList::new(flavor, items);
    let (rest, list) = statements(tokens).unwrap();
    assert!(rest.is_ended(), "not all tokens were read");
    let mut out = Vec::new();
    let mut l = list;
    loop {
        match l {
            List::Nil => break,
            List::Cons(s, rest) => {
                out.push(*s);
                l = *rest;
            }
        }
    }
    out
}

fn parse_one(src: &str) -> StatementType {
    let items = lex(src);
    let mut all = parse_all(&items);
    assert_eq!(all.len(), 1);
    all.remove(0).ty
}

fn parse_type(src: &str) -> Type {
    let items = lex(src);
    let tokens = TokenList::new(Flavor::SquirrelRespawn, &items);
    let (rest, ty) = type_(tokens).unwrap();
    assert!(rest.is_ended(), "not all tokens were read");
    ty
}

#[test]
fn typed_variables_with_initializers() {
    match parse_one("int a = 1, b") {
        StatementType::VarDefinition(v) => {
            assert!(matches!(v.type_, Type::Plain(_)));
            assert_eq!(list_len(&v.definitions.items), 1);
            assert!(v.definitions.last_item.initializer.is_none());
            assert_eq!(v.definitions.last_item.name.token, 5);
        }
        other => panic!("{:?}", other),
    }
}

#[test]
fn typed_function_definition() {
    match parse_one("int function f(int a, b = 2) { return a + b }") {
        StatementType::FunctionDefinition(f) => {
            assert!(matches!(f.return_type, Some(Type::Plain(_))));
            assert_eq!(f.function, 1);
            assert_eq!(list_len(&f.definition.params), 2);
            assert!(matches!(*f.definition.body, StatementType::Block(_)));
        }
        other => panic!("{:?}", other),
    }
}

#[test]
fn void_function_definition() {
    match parse_one("void function f() {}") {
        StatementType::FunctionDefinition(f) => {
            assert!(matches!(f.return_type, Some(Type::Plain(_))));
            assert_eq!(f.function, 1);
            assert_eq!(list_len(&f.definition.params), 0);
        }
        other => panic!("{:?}", other),
    }
}

#[test]
fn untyped_function_definition() {
    match parse_one("function a::b() {}") {
        StatementType::FunctionDefinition(f) => {
            assert!(f.return_type.is_none());
            assert_eq!(list_len(&f.name.items), 1);
        }
        other => panic!("{:?}", other),
    }
}

#[test]
fn if_else_chain() {
    match parse_one("if (a) b() else if (c) d() else e()") {
        StatementType::If(s) => {
            assert_eq!(s.if_, 0);
            assert_eq!(s.close, 3);
            match s.ty {
                IfStatementType::Else { else_, .. } => assert_eq!(else_, 7),
                other => panic!("{:?}", other),
            }
        }
        other => panic!("{:?}", other),
    }
}

#[test]
fn if_without_else() {
    match parse_one("if (a) { b() }") {
        StatementType::If(s) => assert!(matches!(s.ty, IfStatementType::NoElse { .. })),
        other => panic!("{:?}", other),
    }
}

#[test]
fn while_and_do_while_loops() {
    assert!(matches!(parse_one("while (a) a--"), StatementType::While(_)));
    match parse_one("do { a++ } while (a > 3)") {
        StatementType::DoWhile(d) => {
            assert_eq!(d.do_, 0);
            assert_eq!(d.while_, 5);
        }
        other => panic!("{:?}", other),
    }
}

#[test]
fn switch_with_case_and_default() {
    match parse_one("switch (a) { case 1: b(); break\n default: c() }") {
        StatementType::Switch(s) => {
            assert_eq!(list_len(&s.cases), 2);
            match &s.cases {
                List::Cons(first, rest) => {
                    assert!(matches!(first.condition, SwitchCaseCondition::Case { .. }));
                    assert_eq!(list_len(&first.body), 2);
                    match &**rest {
                        List::Cons(second, _) => {
                            assert!(matches!(second.condition, SwitchCaseCondition::Default { .. }))
                        }
                        List::Nil => unreachable!(),
                    }
                }
                List::Nil => unreachable!(),
            }
        }
        other => panic!("{:?}", other),
    }
}

#[test]
fn for_loop_with_all_parts() {
    match parse_one("for (int i = 0; i != 10; i++) {}") {
        StatementType::For(f) => {
            assert!(matches!(f.initializer, Some(ForDefinition::Definition(_))));
            assert!(f.condition.is_some());
            assert!(f.increment.is_some());
        }
        other => panic!("{:?}", other),
    }
}

#[test]
fn for_loop_with_no_parts() {
    match parse_one("for (;;) {}") {
        StatementType::For(f) => {
            assert!(f.initializer.is_none());
            assert!(f.condition.is_none());
            assert!(f.increment.is_none());
        }
        other => panic!("{:?}", other),
    }
}

#[test]
fn foreach_with_index_and_types() {
    match parse_one("foreach (int i, string s in list) {}") {
        StatementType::Foreach(f) => {
            assert!(f.index.is_some());
            assert!(f.value_type.is_some());
            assert_eq!(f.value_name.token, 6);
            assert_eq!(f.in_, 7);
        }
        other => panic!("{:?}", other),
    }
    match parse_one("foreach (x in list) {}") {
        StatementType::Foreach(f) => {
            assert!(f.index.is_none());
            assert!(f.value_type.is_none());
        }
        other => panic!("{:?}", other),
    }
}

#[test]
fn try_catch_statement() {
    match parse_one("try { a() } catch (e) { b() }") {
        StatementType::TryCatch(t) => {
            assert_eq!(t.try_, 0);
            assert_eq!(t.catch_name.token, 8);
        }
        other => panic!("{:?}", other),
    }
}

#[test]
fn jump_statements() {
    let items = lex("break\ncontinue\nreturn\nreturn 1\nyield 2\nthrow 3");
    let all = parse_all(&items);
    assert_eq!(all.len(), 6);
    assert!(matches!(all[0].ty, StatementType::Break(_)));
    assert!(matches!(all[1].ty, StatementType::Continue(_)));
    match &all[2].ty {
        StatementType::Return(r) => assert!(r.value.is_none()),
        other => panic!("{:?}", other),
    }
    match &all[3].ty {
        StatementType::Return(r) => assert!(r.value.is_some()),
        other => panic!("{:?}", other),
    }
    assert!(matches!(all[4].ty, StatementType::Yield(_)));
    assert!(matches!(all[5].ty, StatementType::Throw(_)));
}

#[test]
fn const_and_enum_definitions() {
    match parse_one("const int A = 1") {
        StatementType::Const(c) => {
            assert!(c.const_type.is_some());
            assert_eq!(c.name.token, 2);
        }
        other => panic!("{:?}", other),
    }
    match parse_one("enum E { A, B = 2, C }") {
        StatementType::EnumDefinition(e) => assert_eq!(list_len(&e.entries), 3),
        other => panic!("{:?}", other),
    }
}

#[test]
fn class_and_struct_definitions() {
    match parse_one("class A extends B { x = 1 }") {
        StatementType::ClassDefinition(c) => {
            assert!(c.definition.extends.is_some());
            assert_eq!(list_len(&c.definition.members), 1);
        }
        other => panic!("{:?}", other),
    }
    match parse_one("struct S { int a, string b = \"x\" }") {
        StatementType::StructDefinition(s) => {
            assert_eq!(s.name.token, 1);
            assert_eq!(list_len(&s.definition.properties), 2);
        }
        other => panic!("{:?}", other),
    }
}

#[test]
fn typedef_and_thread_statements() {
    match parse_one("typedef T array<int>") {
        StatementType::TypeDefinition(t) => assert!(matches!(t.type_, Type::Generic(_))),
        other => panic!("{:?}", other),
    }
    assert!(matches!(parse_one("thread f()"), StatementType::Thread(_)));
    match parse_one("delaythread(1) f()") {
        StatementType::DelayThread(d) => {
            assert_eq!(d.open, 1);
            assert_eq!(d.close, 3);
        }
        other => panic!("{:?}", other),
    }
    assert!(matches!(parse_one("waitthread f()"), StatementType::WaitThread(_)));
    assert!(matches!(parse_one("waitthreadsolo f()"), StatementType::WaitThreadSolo(_)));
    assert!(matches!(parse_one("wait 1"), StatementType::Wait(_)));
}

#[test]
fn global_definitions() {
    match parse_one("global function f") {
        StatementType::Global(g) => {
            assert!(matches!(g.definition, GlobalDefinition::Function { .. }))
        }
        other => panic!("{:?}", other),
    }
    match parse_one("global int a = 1") {
        StatementType::Global(g) => assert!(matches!(g.definition, GlobalDefinition::TypedVar(_))),
        other => panic!("{:?}", other),
    }
    match parse_one("global a = 1") {
        StatementType::Global(g) => {
            assert!(matches!(g.definition, GlobalDefinition::UntypedVar { .. }))
        }
        other => panic!("{:?}", other),
    }
    assert!(matches!(parse_one("globalize_all_functions"), StatementType::GlobalizeAllFunctions(_)));
    assert!(matches!(parse_one("untyped"), StatementType::Untyped(_)));
}

#[test]
fn preprocessed_statements() {
    match parse_one("#if SERVER\n a()\n b()\n #else\n c()\n #endif") {
        StatementType::Preprocessed(p) => {
            assert_eq!(list_len(&p.content), 2);
            let e = p.else_.unwrap();
            assert_eq!(list_len(&e.content), 1);
        }
        other => panic!("{:?}", other),
    }
}

#[test]
fn statements_split_on_lines_and_semicolons() {
    let items = lex("a()\nb(); c()");
    let all = parse_all(&items);
    assert_eq!(all.len(), 3);
    assert_eq!(all[0].semicolon, None);
    assert_eq!(all[1].semicolon, Some(6));
    assert!(matches!(all[2].ty, StatementType::Expression(_)));
}

#[test]
fn lone_semicolon_is_an_empty_statement() {
    let items = lex(";");
    let all = parse_all(&items);
    assert_eq!(all.len(), 1);
    assert!(matches!(all[0].ty, StatementType::Empty(_)));
    assert_eq!(all[0].semicolon, Some(0));
}

#[test]
fn statements_on_one_line_need_a_separator() {
    let items = lex("a() b()");
    let tokens = TokenList::new(Flavor::SquirrelRespawn, &items);
    let err = statement(tokens).unwrap_err();
    assert_eq!(err.ty, ParseErrorType::ExpectedEndOfStatement);
    assert_eq!(err.token_index, 3);
    assert!(!err.is_fatal);
    let context = err.context.unwrap();
    assert_eq!(context.ty, ContextType::Statement);
    assert_eq!(context.start, 0);
}

#[test]
fn statement_before_a_closing_brace_needs_no_separator() {
    match parse_one("{ a() }") {
        StatementType::Block(b) => assert_eq!(list_len(&b.statements), 1),
        other => panic!("{:?}", other),
    }
}

#[test]
fn closing_brace_is_not_a_statement() {
    let items = lex("a }");
    let tokens = TokenList::new(Flavor::SquirrelRespawn, &items);
    let (rest, s) = statement(tokens).unwrap();
    assert!(matches!(s.ty, StatementType::Expression(_)));
    assert_eq!(rest.start_index(), 1);
    let err = statement(rest).unwrap_err();
    assert_eq!(err.ty, ParseErrorType::ExpectedStatement);
}

#[test]
fn malformed_if_is_a_fatal_error_in_context() {
    let items = lex("if a");
    let tokens = TokenList::new(Flavor::SquirrelRespawn, &items);
    let err = statement(tokens).unwrap_err();
    assert_eq!(err.ty, ParseErrorType::ExpectedTerminal(TerminalToken::OpenBracket));
    assert!(err.is_fatal);
    assert_eq!(err.context.unwrap().ty, ContextType::IfStatement);
}

#[test]
fn bad_switch_case_is_reported() {
    let items = lex("b:");
    let tokens = TokenList::new(Flavor::SquirrelRespawn, &items);
    let err = switch_case(tokens).unwrap_err();
    assert_eq!(err.ty, ParseErrorType::ExpectedSwitchCase);
    assert_eq!(err.token_index, 0);
    assert!(!err.is_fatal);
}

#[test]
fn switch_body_without_a_case_expects_its_end() {
    let items = lex("switch (a) { b }");
    let tokens = TokenList::new(Flavor::SquirrelRespawn, &items);
    let err = statement(tokens).unwrap_err();
    assert_eq!(err.ty, ParseErrorType::ExpectedTerminal(TerminalToken::CloseBrace));
    assert_eq!(err.token_index, 5);
    assert!(err.is_fatal);
}

#[test]
fn bad_class_member_is_reported() {
    let items = lex("+");
    let tokens = TokenList::new(Flavor::SquirrelRespawn, &items);
    let err = class_member(tokens).unwrap_err();
    assert_eq!(err.ty, ParseErrorType::ExpectedClassMember);
    assert_eq!(err.token_index, 0);
    let items = lex("class A { + }");
    let tokens = TokenList::new(Flavor::SquirrelRespawn, &items);
    let err = statement(tokens).unwrap_err();
    assert_eq!(err.ty, ParseErrorType::ExpectedTerminal(TerminalToken::CloseBrace));
    assert_eq!(err.token_index, 3);
}

#[test]
fn bad_global_definition_is_reported() {
    let items = lex("global +");
    let tokens = TokenList::new(Flavor::SquirrelRespawn, &items);
    let err = statement(tokens).unwrap_err();
    assert_eq!(err.ty, ParseErrorType::ExpectedGlobalDefinition);
    assert_eq!(err.token_index, 1);
}

#[test]
fn bad_type_after_typedef_is_reported() {
    let items = lex("typedef T +");
    let tokens = TokenList::new(Flavor::SquirrelRespawn, &items);
    let err = statement(tokens).unwrap_err();
    assert_eq!(err.ty, ParseErrorType::ExpectedType);
    assert_eq!(err.token_index, 2);
}

#[test]
fn plain_and_generic_types() {
    assert!(matches!(parse_type("int"), Type::Plain(_)));
    match parse_type("table<string, int>") {
        Type::Generic(g) => {
            assert_eq!(g.open, 1);
            assert_eq!(g.close, 5);
            assert_eq!(list_len(&g.params.items), 1);
        }
        other => panic!("{:?}", other),
    }
}

#[test]
fn nested_generics_close_with_touching_greater_signs() {
    match parse_type("array<array<int>>") {
        Type::Generic(g) => {
            assert_eq!(g.close, 6);
            assert!(matches!(*g.params.last_item, Type::Generic(_)));
        }
        other => panic!("{:?}", other),
    }
}

#[test]
fn type_modifiers() {
    match parse_type("int ornull") {
        Type::Nullable(n) => assert_eq!(n.ornull, 1),
        other => panic!("{:?}", other),
    }
    match parse_type("int&") {
        Type::Reference(r) => assert_eq!(r.reference, 1),
        other => panic!("{:?}", other),
    }
    match parse_type("int[3]") {
        Type::Array(a) => {
            assert_eq!(a.open, 1);
            assert_eq!(a.close, 3);
            assert!(matches!(*a.len, Expression::Literal(_)));
        }
        other => panic!("{:?}", other),
    }
}

#[test]
fn local_struct_and_functionref_types() {
    assert!(matches!(parse_type("local"), Type::Local(_)));
    match parse_type("struct { int a }") {
        Type::Struct(s) => assert_eq!(list_len(&s.definition.properties), 1),
        other => panic!("{:?}", other),
    }
    match parse_type("functionref(int, string s)") {
        Type::FunctionRef(f) => {
            assert!(f.return_type.is_none());
            assert_eq!(f.open, 1);
            assert_eq!(f.close, 6);
        }
        other => panic!("{:?}", other),
    }
    match parse_type("int functionref()") {
        Type::FunctionRef(f) => {
            assert!(f.return_type.is_some());
            assert!(f.params.is_none());
        }
        other => panic!("{:?}", other),
    }
}

#[test]
fn terminal_is_not_a_type() {
    let items = lex("+");
    let tokens = TokenList::new(Flavor::SquirrelRespawn, &items);
    let err = type_(tokens).unwrap_err();
    assert_eq!(err.ty, ParseErrorType::ExpectedType);
    assert!(!err.is_fatal);
}

#[test]
fn line_break_before_postfix_operator_starts_a_new_statement() {
    let items = lex("a\n++b");
    let all = parse_all(&items);
    assert_eq!(all.len(), 2);
    match &all[0].ty {
        StatementType::Expression(e) => assert!(matches!(*e.value, Expression::Var(_))),
        other => panic!("{:?}", other),
    }
    match &all[1].ty {
        StatementType::Expression(e) => assert!(matches!(*e.value, Expression::Prefix(_))),
        other => panic!("{:?}", other),
    }
}

#[test]
fn post_initializer_only_on_the_same_line() {
    match parse_one("f() { x = 1 }") {
        StatementType::Expression(e) => match *e.value {
            Expression::Call(c) => assert!(c.post_initializer.is_some()),
            other => panic!("{:?}", other),
        },
        other => panic!("{:?}", other),
    }
    let items = lex("f()\n{ x = 1 }");
    let all = parse_all(&items);
    assert_eq!(all.len(), 2);
    match &all[0].ty {
        StatementType::Expression(e) => match &*e.value {
            Expression::Call(c) => assert!(c.post_initializer.is_none()),
            other => panic!("{:?}", other),
        },
        other => panic!("{:?}", other),
    }
    assert!(matches!(all[1].ty, StatementType::Block(_)));
}

#[test]
fn return_value_only_on_the_same_line() {
    let items = lex("return\nfoo");
    let all = parse_all(&items);
    assert_eq!(all.len(), 2);
    match &all[0].ty {
        StatementType::Return(r) => assert!(r.value.is_none()),
        other => panic!("{:?}", other),
    }
}

#[test]
fn line_break_between_return_type_and_function() {
    // The type on its own line is a statement of its own.
    let items = lex("int\nfunction f() {}");
    let all = parse_all(&items);
    assert_eq!(all.len(), 2);
    assert!(matches!(all[0].ty, StatementType::Expression(_)));
    match &all[1].ty {
        StatementType::FunctionDefinition(f) => assert!(f.return_type.is_none()),
        other => panic!("{:?}", other),
    }
}

#[test]
fn line_break_between_type_and_variable_is_allowed() {
    match parse_one("int\na = 1") {
        StatementType::VarDefinition(v) => {
            assert!(matches!(v.type_, Type::Plain(_)));
            assert!(v.definitions.last_item.initializer.is_some());
        }
        other => panic!("{:?}", other),
    }
}

#[test]
fn constructor_defined_outside_its_class() {
    match parse_one("function A::B::constructor() {}") {
        StatementType::ConstructorDefinition(c) => {
            assert_eq!(list_len(&c.namespaces), 1);
            assert_eq!(c.last_name.token, 3);
            assert_eq!(c.last_namespace, 4);
            assert_eq!(c.constructor, 5);
        }
        other => panic!("{:?}", other),
    }
}

#[test]
fn only_respawn_has_named_types() {
    let items = lex("local a = 1");
    let all = parse_all_in(Flavor::SquirrelVanilla, &items);
    match &all[0].ty {
        StatementType::VarDefinition(v) => assert!(matches!(v.type_, Type::Local(_))),
        other => panic!("{:?}", other),
    }
    let items = lex("int a");
    let tokens = TokenList::new(Flavor::SquirrelVanilla, &items);
    let err = statement(tokens).unwrap_err();
    assert_eq!(err.ty, ParseErrorType::ExpectedEndOfStatement);
    assert_eq!(err.token_index, 1);
    let tokens = TokenList::new(Flavor::SquirrelVanilla, &items);
    assert_eq!(type_(tokens).unwrap_err().ty, ParseErrorType::ExpectedTerminal(TerminalToken::Local));
}

#[test]
fn statement_list_stops_where_no_statement_starts() {
    let items = lex("a()\nb() }");
    let tokens = TokenList::new(Flavor::SquirrelRespawn, &items);
    let (rest, list) = statements(tokens).unwrap();
    assert_eq!(list_len(&list), 2);
    assert_eq!(rest.start_index(), 6);
    let items = lex("}");
    let tokens = TokenList::new(Flavor::SquirrelRespawn, &items);
    let (rest, list) = statements(tokens).unwrap();
    assert_eq!(list_len(&list), 0);
    assert_eq!(rest.start_index(), 0);
}

#[test]
fn statement_list_fails_only_fatally() {
    let items = lex("a()\nb +");
    let tokens = TokenList::new(Flavor::SquirrelRespawn, &items);
    let err = statements(tokens).unwrap_err();
    assert!(err.is_fatal);
    assert_eq!(err.ty, ParseErrorType::ExpectedValue);
    assert_eq!(err.token_index, 5);
}

#[test]
fn documentation_with_and_without_a_class() {
    match parse_one("#document(\"prop\", \"help\")") {
        StatementType::PreprocessedDocumentation(d) => {
            assert_eq!(d.open, 1);
            assert_eq!(d.property, 2);
            assert_eq!(d.seperator, 3);
            assert_eq!(d.help_text, 4);
            assert_eq!(d.close, 5);
        }
        other => panic!("{:?}", other),
    }
    match parse_one("#document(A, \"prop\", \"help\")") {
        StatementType::PreprocessedDocumentation(d) => {
            assert_eq!(d.property, 4);
            assert_eq!(d.close, 7);
        }
        other => panic!("{:?}", other),
    }
}

#[test]
fn documentation_needs_string_literals() {
    let items = lex("#document(a, b)");
    let tokens = TokenList::new(Flavor::SquirrelRespawn, &items);
    let err = statement(tokens).unwrap_err();
    assert_eq!(err.ty, ParseErrorType::ExpectedStringLiteral);
    assert!(err.is_fatal);
    assert_eq!(err.context.unwrap().ty, ContextType::PreProcessorDocumentationStatement);
}

#[test]
fn struct_with_preprocessed_properties() {
    match parse_one("struct S { #if X\n int a\n #else\n int c\n #endif\n int b }") {
        StatementType::StructDefinition(s) => {
            assert_eq!(list_len(&s.definition.properties), 2);
            match &s.definition.properties {
                List::Cons(first, _) => match &**first {
                    Preprocessable::PREPROCESSED(p) => {
                        assert_eq!(list_len(&p.content), 1);
                        assert!(p.else_.is_some());
                    }
                    other => panic!("{:?}", other),
                },
                List::Nil => unreachable!(),
            }
        }
        other => panic!("{:?}", other),
    }
}

#[test]
fn array_with_preprocessed_values() {
    match parse_one("x = [1, #if X\n 2, #endif\n 3]") {
        StatementType::Expression(e) => match *e.value {
            Expression::Binary(b) => match *b.right {
                Expression::Array(a) => assert_eq!(list_len(&a.values), 3),
                other => panic!("{:?}", other),
            },
            other => panic!("{:?}", other),
        },
        other => panic!("{:?}", other),
    }
}
