use tracy_gizmos::attributes::{
    capture, instrument, make_start_capture, make_zone, try_capture, try_instrument,
    try_parse_str_literal, Error, Expansion,
};
use tracy_gizmos::tokens::{Delimiter, ItemToken, Spacing, Span, Token};

fn ident(text: &str) -> ItemToken {
    ItemToken::Ident(text.to_string())
}

fn literal(text: &str) -> ItemToken {
    ItemToken::Literal(text.to_string())
}

/// `fn <name>() {}`
fn function(name: &str) -> Vec<ItemToken> {
    vec![
        ident("fn"),
        ident(name),
        ItemToken::Group(Delimiter::Parenthesis),
        ItemToken::Group(Delimiter::Brace),
    ]
}

fn punct(ch: char, spacing: Spacing) -> Token {
    Token::Punct { ch, spacing, span: Span::CallSite }
}

fn word(name: &'static str) -> Token {
    Token::Ident { name, span: Span::CallSite }
}

/// `::tracy_gizmos::zone!("<name>");`
fn zone_statement(name: &str) -> Vec<Token> {
    vec![
        punct(':', Spacing::Joint),
        punct(':', Spacing::Alone),
        word("tracy_gizmos"),
        punct(':', Spacing::Joint),
        punct(':', Spacing::Alone),
        word("zone"),
        punct('!', Spacing::Alone),
        Token::Open { delimiter: Delimiter::Parenthesis, span: Span::CallSite },
        Token::Literal { content: name.to_string(), span: Span::CallSite },
        Token::Close,
        punct(';', Spacing::Alone),
    ]
}

/// `let _tracy = ::tracy_gizmos::start_capture();`
fn capture_statement() -> Vec<Token> {
    vec![
        word("let"),
        Token::Ident { name: "_tracy", span: Span::MixedSite },
        punct('=', Spacing::Alone),
        punct(':', Spacing::Joint),
        punct(':', Spacing::Alone),
        word("tracy_gizmos"),
        punct(':', Spacing::Joint),
        punct(':', Spacing::Alone),
        word("start_capture"),
        Token::Open { delimiter: Delimiter::Parenthesis, span: Span::CallSite },
        Token::Close,
        punct(';', Spacing::Alone),
    ]
}

/// `::core::compile_error!{"<text>"}`
fn report(text: &str, at: usize) -> Vec<Token> {
    let span = Span::Token(at);
    vec![
        Token::Punct { ch: ':', spacing: Spacing::Joint, span },
        Token::Punct { ch: ':', spacing: Spacing::Alone, span },
        Token::Ident { name: "core", span },
        Token::Punct { ch: ':', spacing: Spacing::Joint, span },
        Token::Punct { ch: ':', spacing: Spacing::Alone, span },
        Token::Ident { name: "compile_error", span },
        Token::Punct { ch: '!', spacing: Spacing::Alone, span },
        Token::Open { delimiter: Delimiter::Brace, span },
        Token::Literal { content: text.to_string(), span },
        Token::Close,
    ]
}

fn error(text: &'static str, at: usize) -> Error {
    Error { text, start: Span::Token(at), end: Span::Token(at) }
}

#[test]
fn zone_statement_names_the_macro_from_the_root() {
    assert_eq!(make_zone("work"), zone_statement("work"));
    assert_eq!(make_zone(""), zone_statement(""));
}

#[test]
fn capture_statement_binds_a_hidden_local() {
    assert_eq!(make_start_capture(), capture_statement());
}

#[test]
fn error_is_reported_at_one_token() {
    assert_eq!(
        Error::new("Only functions can be instrumented.", Span::Token(4)),
        error("Only functions can be instrumented.", 4)
    );
}

#[test]
fn error_becomes_a_compile_error_call() {
    let e = Error { text: "no", start: Span::Token(1), end: Span::Token(3) };
    let tokens = e.to_compile_error();
    assert_eq!(tokens.len(), 10);
    assert_eq!(tokens[0], Token::Punct { ch: ':', spacing: Spacing::Joint, span: Span::Token(1) });
    assert_eq!(tokens[2], Token::Ident { name: "core", span: Span::Token(1) });
    assert_eq!(tokens[5], Token::Ident { name: "compile_error", span: Span::Token(1) });
    assert_eq!(tokens[6], Token::Punct { ch: '!', spacing: Spacing::Alone, span: Span::Token(1) });
    assert_eq!(tokens[7], Token::Open { delimiter: Delimiter::Brace, span: Span::Token(3) });
    assert_eq!(tokens[8], Token::Literal { content: "no".to_string(), span: Span::Token(3) });
    assert_eq!(tokens[9], Token::Close);
    assert_eq!(error("no", 2).to_compile_error(), report("no", 2));
}

#[test]
fn string_literal_loses_its_quotes() {
    assert_eq!(try_parse_str_literal("\"Heavy\""), Some("Heavy"));
    assert_eq!(try_parse_str_literal("\"\""), Some(""));
    assert_eq!(try_parse_str_literal("\"a\\\"b\""), Some("a\\\"b"));
    assert_eq!(try_parse_str_literal("\"héavy\""), Some("héavy"));
}

#[test]
fn other_literals_are_no_prefix() {
    assert_eq!(try_parse_str_literal(""), None);
    assert_eq!(try_parse_str_literal("\""), None);
    assert_eq!(try_parse_str_literal("42"), None);
    assert_eq!(try_parse_str_literal("r\"raw\""), None);
    assert_eq!(try_parse_str_literal("b\"bytes\""), None);
    assert_eq!(try_parse_str_literal("'c'"), None);
}

#[test]
fn string_literal_loses_its_last_character_whatever_it_is() {
    assert_eq!(try_parse_str_literal("\"ab"), Some("a"));
    assert_eq!(try_parse_str_literal("\"x"), Some(""));
}

#[test]
fn function_gets_a_zone_under_its_name() {
    assert_eq!(try_instrument(&vec![], &function("work")), Ok(zone_statement("work")));
    assert_eq!(
        instrument(&vec![], &function("work")),
        Expansion::Body(zone_statement("work"))
    );
}

#[test]
fn zone_name_takes_the_prefix_of_the_attribute() {
    let attr = vec![literal("\"Heavy\"")];
    assert_eq!(try_instrument(&attr, &function("work")), Ok(zone_statement("Heavy::work")));
}

#[test]
fn attribute_without_a_string_gives_no_prefix() {
    assert_eq!(try_instrument(&vec![literal("42")], &function("work")), Ok(zone_statement("work")));
    assert_eq!(
        try_instrument(&vec![ident("Heavy")], &function("work")),
        Ok(zone_statement("work"))
    );
    assert_eq!(
        try_instrument(&vec![ident("x"), literal("\"Heavy\"")], &function("work")),
        Ok(zone_statement("work"))
    );
}

#[test]
fn raw_name_loses_its_mark() {
    assert_eq!(try_instrument(&vec![], &function("r#loop")), Ok(zone_statement("loop")));
    assert_eq!(
        try_instrument(&vec![literal("\"Heavy\"")], &function("r#loop")),
        Ok(zone_statement("Heavy::loop"))
    );
    assert_eq!(try_instrument(&vec![], &function("r")), Ok(zone_statement("r")));
    assert_eq!(try_instrument(&vec![], &function("rx")), Ok(zone_statement("rx")));
}

#[test]
fn words_before_fn_are_passed_over() {
    let item = vec![
        ItemToken::Punct('#'),
        ItemToken::Group(Delimiter::Bracket),
        ident("pub"),
        ItemToken::Group(Delimiter::Parenthesis),
        ident("unsafe"),
        ident("extern"),
        literal("\"C\""),
        ident("fn"),
        ident("work"),
        ItemToken::Punct('<'),
        ident("T"),
        ItemToken::Punct('>'),
        ItemToken::Group(Delimiter::Parenthesis),
        ItemToken::Punct('-'),
        ItemToken::Punct('>'),
        ident("T"),
        ItemToken::Group(Delimiter::Brace),
    ];
    assert_eq!(try_instrument(&vec![], &item), Ok(zone_statement("work")));
}

#[test]
fn const_function_is_refused_at_the_word() {
    let item = vec![
        ident("pub"),
        ident("const"),
        ident("fn"),
        ident("work"),
        ItemToken::Group(Delimiter::Parenthesis),
        ItemToken::Group(Delimiter::Brace),
    ];
    assert_eq!(
        try_instrument(&vec![], &item),
        Err(error("Const functions can't be instrumented.", 1))
    );
    assert_eq!(try_capture(&item), Err(error("Const functions can't be a capture scope.", 1)));
}

#[test]
fn async_function_is_refused_at_the_word() {
    let item = vec![
        ident("async"),
        ident("fn"),
        ident("work"),
        ItemToken::Group(Delimiter::Parenthesis),
        ItemToken::Group(Delimiter::Brace),
    ];
    assert_eq!(
        try_instrument(&vec![], &item),
        Err(error("Async functions can't be instrumented, yet.", 0))
    );
    assert_eq!(
        try_capture(&item),
        Err(error("Async functions can't be a capture scope, yet.", 0))
    );
}

#[test]
fn other_items_are_refused_at_their_first_token() {
    let item = vec![ident("pub"), ident("struct"), ident("S"), ItemToken::Punct(';')];
    assert_eq!(
        try_instrument(&vec![], &item),
        Err(error("Only functions can be instrumented.", 0))
    );
    assert_eq!(try_capture(&item), Err(error("Only functions can be a capture scope.", 0)));
}

#[test]
fn fn_without_a_name_is_no_function() {
    assert_eq!(
        try_instrument(&vec![], &vec![ident("pub"), ident("fn")]),
        Err(error("Only functions can be instrumented.", 0))
    );
    assert_eq!(
        try_instrument(
            &vec![],
            &vec![ident("fn"), ItemToken::Group(Delimiter::Parenthesis), ItemToken::Group(Delimiter::Brace)]
        ),
        Err(error("Only functions can be instrumented.", 0))
    );
    assert_eq!(
        try_instrument(&vec![], &vec![ItemToken::Punct(';')]),
        Err(error("Only functions can be instrumented.", 0))
    );
}

#[test]
fn function_without_a_body_is_refused_at_its_last_token() {
    let item = vec![
        ident("fn"),
        ident("work"),
        ItemToken::Group(Delimiter::Parenthesis),
        ItemToken::Punct(';'),
    ];
    assert_eq!(
        try_instrument(&vec![], &item),
        Err(error("Function without a body can't be instrumented.", 3))
    );
    assert_eq!(
        try_capture(&item),
        Err(error("Function without a body can't be a capture scope.", 3))
    );
    assert_eq!(
        try_instrument(&vec![], &vec![ident("fn"), ident("work")]),
        Err(error("Function without a body can't be instrumented.", 1))
    );
    let round = vec![ident("fn"), ident("work"), ItemToken::Group(Delimiter::Parenthesis)];
    assert_eq!(
        try_instrument(&vec![], &round),
        Err(error("Function without a body can't be instrumented.", 2))
    );
}

#[test]
fn raw_keywords_do_not_end_the_search() {
    let item = vec![
        ident("r#const"),
        ident("fn"),
        ident("work"),
        ItemToken::Group(Delimiter::Parenthesis),
        ItemToken::Group(Delimiter::Brace),
    ];
    assert_eq!(try_instrument(&vec![], &item), Ok(zone_statement("work")));
}

#[test]
fn refused_item_expands_to_a_report() {
    let item = vec![ident("const"), ident("fn"), ident("work")];
    assert_eq!(
        instrument(&vec![], &item),
        Expansion::Failure(report("Const functions can't be instrumented.", 0))
    );
    assert_eq!(
        capture(&vec![], &item),
        Expansion::Failure(report("Const functions can't be a capture scope.", 0))
    );
}

#[test]
fn capture_starts_before_the_zone_opens() {
    let mut expected = capture_statement();
    expected.extend(zone_statement("main"));
    assert_eq!(try_capture(&function("main")).as_ref(), Ok(&expected));
    assert_eq!(capture(&vec![], &function("main")), Expansion::Body(expected));
}

#[test]
fn capture_takes_no_prefix() {
    let mut expected = capture_statement();
    expected.extend(zone_statement("main"));
    assert_eq!(
        capture(&vec![literal("\"Heavy\"")], &function("r#main")),
        Expansion::Body(expected)
    );
}
