use idgrab::parser::{classify, classify_text, parse_int_literal, string_from_glyphs, Lexer};
use idgrab::scan::{CharClass, Glyph};
use idgrab::token::{Expected, ParseError, Token};

fn ident(text: &str) -> Token {
    Token::Ident(text.to_string())
}

fn string(text: &str) -> Token {
    Token::StringLiteral(text.to_string())
}

fn all_tokens(input: &str) -> Vec<Token> {
    let mut lexer = Lexer::from_str(input);
    let mut tokens = Vec::new();
    while let Some(token) = lexer.next_token().unwrap() {
        tokens.push(token);
    }
    tokens
}

#[test]
fn lexer_hello() {
    let hello_world = "Hello World";
    let mut lexer = Lexer::from_str(hello_world);
    let first_token = lexer.next_token().unwrap().unwrap();
    assert_eq!(first_token, Token::Ident("Hello".to_string()));
    let second_token = lexer.next_token().unwrap().unwrap();
    assert_eq!(second_token, Token::Ident("World".to_string()));

    assert!(lexer.next_token().unwrap().is_none());
}

#[test]
fn lexer_string_literal() {
    let input = "  \" This is a string \" ";
    let mut lexer = Lexer::from_str(input);
    let token = lexer.next_token().unwrap().unwrap();
    assert_eq!(token, Token::StringLiteral(" This is a string ".to_string()));
    assert!(lexer.next_token().unwrap().is_none());
}

#[test]
fn lexer_script() {
    let test_input = "Filename=\"test.txt\"";
    let mut lexer = Lexer::from_str(test_input);
    assert_eq!(lexer.next_token().unwrap().unwrap(), Token::Ident("Filename".to_string()));
    assert_eq!(lexer.next_token().unwrap().unwrap(), Token::Symbol('='));
    assert_eq!(
        lexer.next_token().unwrap().unwrap(),
        Token::StringLiteral("test.txt".to_string())
    );
    assert!(lexer.next_token().unwrap().is_none());
}

#[test]
fn lexer_script_with_ws() {
    let test_input = " Filename  =\n \"test.txt\"\n\n";
    let mut lexer = Lexer::from_str(test_input);
    assert_eq!(lexer.next_token().unwrap().unwrap(), Token::Ident("Filename".to_string()));
    assert_eq!(lexer.next_token().unwrap().unwrap(), Token::Symbol('='));
    assert_eq!(
        lexer.next_token().unwrap().unwrap(),
        Token::StringLiteral("test.txt".to_string())
    );
    assert!(lexer.next_token().unwrap().is_none());
}

#[test]
fn lexer_end_of_input_repeats() {
    let mut lexer = Lexer::from_str("  \n ");
    assert!(lexer.next_token().unwrap().is_none());
    assert!(lexer.next_token().unwrap().is_none());
    assert_eq!(lexer.line(), 2);
}

#[test]
fn lexer_empty_input() {
    let mut lexer = Lexer::from_str("");
    assert_eq!(lexer.line(), 1);
    assert!(lexer.next_token().unwrap().is_none());
    assert_eq!(lexer.line(), 1);
}

#[test]
fn lexer_comment_is_skipped_with_its_newline() {
    let mut lexer = Lexer::from_str("# comment\nFoo");
    assert_eq!(lexer.next_token().unwrap().unwrap(), ident("Foo"));
    assert_eq!(lexer.line(), 2);
    assert!(lexer.next_token().unwrap().is_none());
}

#[test]
fn lexer_comment_at_end_without_newline() {
    assert_eq!(all_tokens("Foo # trailing"), vec![ident("Foo")]);
    assert_eq!(all_tokens("# only a comment"), Vec::<Token>::new());
}

#[test]
fn lexer_several_comments_in_a_row() {
    let input = "# one\n  # two\n\n#three\nBar # four\nBaz";
    assert_eq!(all_tokens(input), vec![ident("Bar"), ident("Baz")]);
}

#[test]
fn lexer_comment_ends_an_identifier() {
    assert_eq!(all_tokens("abc#comment\nfoo"), vec![ident("abc"), ident("foo")]);
}

#[test]
fn lexer_quote_ends_an_identifier() {
    assert_eq!(all_tokens("abc\"str\"def"), vec![ident("abc"), string("str"), ident("def")]);
}

#[test]
fn lexer_hash_inside_string_is_text() {
    assert_eq!(all_tokens("\"a # b\""), vec![string("a # b")]);
}

#[test]
fn lexer_string_keeps_backslashes_and_newlines() {
    let mut lexer = Lexer::from_str("\"a\\n\nb\" x");
    assert_eq!(lexer.next_token().unwrap().unwrap(), string("a\\n\nb"));
    assert_eq!(lexer.line(), 2);
    assert_eq!(lexer.next_token().unwrap().unwrap(), ident("x"));
}

#[test]
fn lexer_empty_string() {
    assert_eq!(all_tokens("\"\""), vec![string("")]);
}

#[test]
fn lexer_symbols() {
    assert_eq!(
        all_tokens("{ } = ,;"),
        vec![
            Token::Symbol('{'),
            Token::Symbol('}'),
            Token::Symbol('='),
            Token::Symbol(','),
            Token::Symbol(';'),
        ]
    );
}

#[test]
fn lexer_identifier_with_underscores_and_digits() {
    assert_eq!(all_tokens("_a1_b2 x9"), vec![ident("_a1_b2"), ident("x9")]);
}

#[test]
fn lexer_unicode_identifier() {
    assert_eq!(all_tokens("héllo wörld"), vec![ident("héllo"), ident("wörld")]);
}

#[test]
fn lexer_numbers() {
    assert_eq!(
        all_tokens("0 42 -17 007 -0"),
        vec![
            Token::NumericLiteral(0),
            Token::NumericLiteral(42),
            Token::NumericLiteral(-17),
            Token::NumericLiteral(7),
            Token::NumericLiteral(0),
        ]
    );
}

#[test]
fn lexer_number_limits() {
    assert_eq!(
        all_tokens("9223372036854775807 -9223372036854775808"),
        vec![Token::NumericLiteral(i64::MAX), Token::NumericLiteral(i64::MIN)]
    );
}

#[test]
fn lexer_number_too_large() {
    let mut lexer = Lexer::from_str("\n9223372036854775808");
    assert_eq!(lexer.next_token(), Err(ParseError::MalformedNumber { line: 2 }));
    let mut lexer = Lexer::from_str("-9223372036854775809");
    assert_eq!(lexer.next_token(), Err(ParseError::MalformedNumber { line: 1 }));
    let mut lexer = Lexer::from_str("99999999999999999999999999999999999999999999");
    assert_eq!(lexer.next_token(), Err(ParseError::MalformedNumber { line: 1 }));
}

#[test]
fn lexer_lone_minus_is_malformed() {
    let mut lexer = Lexer::from_str("- 5");
    assert_eq!(lexer.next_token(), Err(ParseError::MalformedNumber { line: 1 }));
    assert_eq!(lexer.next_token().unwrap().unwrap(), Token::NumericLiteral(5));
}

#[test]
fn lexer_non_ascii_digit_is_malformed() {
    let mut lexer = Lexer::from_str("1\u{0663}");
    assert_eq!(lexer.next_token(), Err(ParseError::MalformedNumber { line: 1 }));
    assert!(lexer.next_token().unwrap().is_none());
}

#[test]
fn lexer_number_stops_at_letters() {
    assert_eq!(all_tokens("12ab"), vec![Token::NumericLiteral(12), ident("ab")]);
    assert_eq!(all_tokens("ab12"), vec![ident("ab12")]);
    assert_eq!(all_tokens("ab-12"), vec![ident("ab"), Token::NumericLiteral(-12)]);
}

#[test]
fn lexer_unterminated_string_reports_opening_line() {
    let mut lexer = Lexer::from_str("Fonts {\n \"A\nB\n\nC");
    assert_eq!(lexer.next_token().unwrap().unwrap(), ident("Fonts"));
    assert_eq!(lexer.next_token().unwrap().unwrap(), Token::Symbol('{'));
    let error = lexer.next_token().unwrap_err();
    assert_eq!(error, ParseError::UnterminatedString { line: 2 });
    assert!(error.is_lexical());
    assert!(!error.is_syntax());
    assert_eq!(error.line(), 2);
    assert_eq!(lexer.line(), 5);
    assert!(lexer.next_token().unwrap().is_none());
}

#[test]
fn lexer_counts_each_newline_once() {
    let mut lexer = Lexer::from_str("a\nb\n\nc");
    assert_eq!(lexer.line(), 1);
    lexer.next_token().unwrap();
    assert_eq!(lexer.line(), 1);
    lexer.next_token().unwrap();
    assert_eq!(lexer.line(), 2);
    lexer.next_token().unwrap();
    assert_eq!(lexer.line(), 4);
}

#[test]
fn lexer_unget_returns_the_token_first() {
    let mut lexer = Lexer::from_str("a b");
    let first = lexer.next_token().unwrap().unwrap();
    assert_eq!(first, ident("a"));
    lexer.unget_token(first);
    assert_eq!(lexer.next_token().unwrap().unwrap(), ident("a"));
    assert_eq!(lexer.next_token().unwrap().unwrap(), ident("b"));
    assert!(lexer.next_token().unwrap().is_none());
}

#[test]
fn lexer_unget_holds_one_token() {
    let mut lexer = Lexer::from_str("a");
    assert!(!lexer.has_buffered_token());
    lexer.unget_token(Token::Symbol('{'));
    assert!(lexer.has_buffered_token());
    assert_eq!(lexer.line(), 1);
    assert_eq!(lexer.next_token().unwrap().unwrap(), Token::Symbol('{'));
    assert!(!lexer.has_buffered_token());
    assert_eq!(lexer.next_token().unwrap().unwrap(), ident("a"));
}

#[test]
fn lexer_unget_feeds_expect() {
    let mut lexer = Lexer::from_str("=");
    lexer.unget_token(Token::NumericLiteral(7));
    assert_eq!(lexer.get_int_literal(), Ok(7));
    assert_eq!(lexer.expect_symbol('='), Ok(()));
}

#[test]
fn expect_ident_accepts_and_rejects() {
    let mut lexer = Lexer::from_str("Lump\nOther \"Lump\"");
    assert_eq!(lexer.expect_ident("Lump"), Ok(()));
    assert_eq!(
        lexer.expect_ident("Lump"),
        Err(ParseError::UnexpectedToken {
            expected: Expected::Ident("Lump".to_string()),
            found: Some(ident("Other")),
            line: 1,
        })
    );
    assert_eq!(
        lexer.expect_ident("Lump"),
        Err(ParseError::UnexpectedToken {
            expected: Expected::Ident("Lump".to_string()),
            found: Some(string("Lump")),
            line: 2,
        })
    );
    let error = lexer.expect_ident("Lump").unwrap_err();
    assert_eq!(
        error,
        ParseError::UnexpectedToken {
            expected: Expected::Ident("Lump".to_string()),
            found: None,
            line: 2,
        }
    );
    assert!(error.is_syntax());
    assert!(!error.is_lexical());
}

#[test]
fn expect_symbol_accepts_and_rejects() {
    let mut lexer = Lexer::from_str("{ }");
    assert_eq!(lexer.expect_symbol('{'), Ok(()));
    assert_eq!(
        lexer.expect_symbol('{'),
        Err(ParseError::UnexpectedToken {
            expected: Expected::Symbol('{'),
            found: Some(Token::Symbol('}')),
            line: 1,
        })
    );
    assert_eq!(
        lexer.expect_symbol('{'),
        Err(ParseError::UnexpectedToken {
            expected: Expected::Symbol('{'),
            found: None,
            line: 1,
        })
    );
}

#[test]
fn get_string_literal_accepts_and_rejects() {
    let mut lexer = Lexer::from_str("\"name\" 12 \"open");
    assert_eq!(lexer.get_string_literal(), Ok("name".to_string()));
    assert_eq!(
        lexer.get_string_literal(),
        Err(ParseError::UnexpectedToken {
            expected: Expected::StringLiteral,
            found: Some(Token::NumericLiteral(12)),
            line: 1,
        })
    );
    assert_eq!(lexer.get_string_literal(), Err(ParseError::UnterminatedString { line: 1 }));
    assert_eq!(
        lexer.get_string_literal(),
        Err(ParseError::UnexpectedToken {
            expected: Expected::StringLiteral,
            found: None,
            line: 1,
        })
    );
}

#[test]
fn get_int_literal_accepts_and_rejects() {
    let mut lexer = Lexer::from_str("-5 five");
    assert_eq!(lexer.get_int_literal(), Ok(-5));
    assert_eq!(
        lexer.get_int_literal(),
        Err(ParseError::UnexpectedToken {
            expected: Expected::IntegerLiteral,
            found: Some(ident("five")),
            line: 1,
        })
    );
    assert_eq!(
        lexer.get_int_literal(),
        Err(ParseError::UnexpectedToken {
            expected: Expected::IntegerLiteral,
            found: None,
            line: 1,
        })
    );
}

#[test]
fn token_clone_is_equal() {
    let tokens = vec![ident("a"), Token::Symbol('{'), string("s"), Token::NumericLiteral(-3)];
    for token in &tokens {
        assert_eq!(&token.clone(), token);
    }
    let error = ParseError::UnknownToken { token: ident("a"), line: 3 };
    assert_eq!(error.clone(), error);
    let expected = Expected::Ident("x".to_string());
    assert_eq!(expected.clone(), expected);
}

fn glyph(c: char, whitespace: bool, numeric: bool, alphanumeric: bool) -> Glyph {
    Glyph { c, whitespace, numeric, alphanumeric }
}

#[test]
fn classify_follows_unicode() {
    assert_eq!(classify('a'), glyph('a', false, false, true));
    assert_eq!(classify('7'), glyph('7', false, true, true));
    assert_eq!(classify(' '), glyph(' ', true, false, false));
    assert_eq!(classify('\n'), glyph('\n', true, false, false));
    assert_eq!(classify('\u{a0}'), glyph('\u{a0}', true, false, false));
    assert_eq!(classify('_'), glyph('_', false, false, false));
    assert_eq!(classify('{'), glyph('{', false, false, false));
    assert_eq!(classify('-'), glyph('-', false, false, false));
    assert_eq!(classify('é'), glyph('é', false, false, true));
    assert_eq!(classify('½'), glyph('½', false, true, true));
    assert_eq!(
        classify_text("a 1"),
        vec![
            glyph('a', false, false, true),
            glyph(' ', true, false, false),
            glyph('1', false, true, true),
        ]
    );
    assert_eq!(classify_text(""), Vec::<Glyph>::new());
}

#[test]
fn char_classes_read_the_glyph() {
    let digit = glyph('7', false, true, true);
    let space = glyph(' ', true, false, false);
    let underscore = glyph('_', false, false, false);
    let feed = glyph('\n', true, false, false);
    let quote = glyph('"', false, false, false);
    assert!(CharClass::Whitespace.contains(space));
    assert!(!CharClass::Whitespace.contains(digit));
    assert!(CharClass::Numeric.contains(digit));
    assert!(!CharClass::Numeric.contains(underscore));
    assert!(CharClass::IdentChar.contains(digit));
    assert!(CharClass::IdentChar.contains(underscore));
    assert!(!CharClass::IdentChar.contains(space));
    assert!(CharClass::NotNewline.contains(space));
    assert!(!CharClass::NotNewline.contains(feed));
    assert!(CharClass::NotQuote.contains(feed));
    assert!(!CharClass::NotQuote.contains(quote));
}

#[test]
fn lexer_goes_by_the_classes_it_is_given() {
    // With `x` declared whitespace and `!` declared alphanumeric, "x!y!" reads as one identifier.
    let glyphs = vec![
        glyph('x', true, false, false),
        glyph('!', false, false, true),
        glyph('y', false, false, true),
        glyph('!', false, false, true),
    ];
    let mut lexer = Lexer::from_glyphs(glyphs);
    assert_eq!(lexer.next_token().unwrap().unwrap(), ident("!y!"));
    assert!(lexer.next_token().unwrap().is_none());
}

#[test]
fn lexer_from_glyphs_agrees_with_from_str() {
    let input = "Fonts { \"A\" } # c\nTiles8 -4";
    let mut by_text = Lexer::from_str(input);
    let mut by_glyphs = Lexer::from_glyphs(classify_text(input));
    loop {
        let a = by_text.next_token();
        let b = by_glyphs.next_token();
        assert_eq!(a, b);
        assert_eq!(by_text.line(), by_glyphs.line());
        if a == Ok(None) {
            break;
        }
    }
}

#[test]
fn int_literal_values() {
    let glyphs = classify_text("x-120y");
    assert_eq!(parse_int_literal(&glyphs, 1, 5), Some(-120));
    assert_eq!(parse_int_literal(&glyphs, 2, 5), Some(120));
    assert_eq!(parse_int_literal(&glyphs, 1, 2), None);
    assert_eq!(parse_int_literal(&glyphs, 2, 2), None);
    assert_eq!(parse_int_literal(&glyphs, 0, 3), None);
    assert_eq!(parse_int_literal(&glyphs, 2, 6), None);
    assert_eq!(string_from_glyphs(&glyphs, 1, 5), "-120");
    assert_eq!(string_from_glyphs(&glyphs, 3, 3), "");
    let glyphs = classify_text("+5");
    assert_eq!(parse_int_literal(&glyphs, 0, 2), None);
}
