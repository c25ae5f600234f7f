use idgrab::grammar::Directive;
use idgrab::headers::{GfxHeaders, Lump, MiscChunk};
use idgrab::layout::{Category, MiscKind, TileClass};
use idgrab::parser::Lexer;
use idgrab::script::{keyword, parse_block, parse_directive, parse_gfx_script, parse_tokens};
use idgrab::token::{Expected, ParseError, Token};

fn names(list: &[&str]) -> Vec<String> {
    list.iter().map(|s| s.to_string()).collect()
}

fn lump(name: &str, start_chunk: u32, end_chunk: u32) -> Lump {
    Lump { name: name.to_string(), start_chunk, end_chunk }
}

#[test]
fn script_fonts_and_lump() {
    let headers =
        parse_gfx_script("Fonts { \"A\" \"B\" } Bitmaps { Lump \"L1\" { \"X\" \"Y\" } }").unwrap();
    assert_eq!(headers.fonts, names(&["A", "B"]));
    assert!(headers.fonts_masked.is_empty());
    assert_eq!(headers.bitmaps, names(&["X", "Y"]));
    assert_eq!(headers.bitmaps_start(), 5);
    assert_eq!(headers.lumps, vec![lump("L1", 5, 6)]);
}

#[test]
fn script_empty_is_empty_inventory() {
    let headers = parse_gfx_script("").unwrap();
    assert_eq!(headers.extension, None);
    assert!(headers.fonts.is_empty());
    assert!(headers.misc_chunks.is_empty());
    assert!(headers.lumps.is_empty());
    assert_eq!(headers.num_chunks(), 3);
    let headers = parse_gfx_script("  # nothing here\n").unwrap();
    assert_eq!(headers.num_chunks(), 3);
}

#[test]
fn script_extension_last_wins() {
    let headers = parse_gfx_script("Extension \"CK4\"\nExtension \"CK5\"").unwrap();
    assert_eq!(headers.extension, Some("CK5".to_string()));
}

#[test]
fn script_all_directives() {
    let text = "
        # A complete script
        Extension \"CK4\"
        Fonts { \"MAIN\" }
        FontsMasked { \"MASKED\" }
        Bitmaps { \"TITLE\" Lump \"CONTROLS\" { \"UP\" \"DOWN\" } \"END\" }
        BitmapsMasked { }
        Sprites { Lump \"KEEN\" { \"STAND\" } Lump \"EMPTY\" { } }
        Tiles8 104
        Tiles8Masked 20
        Tiles16 1296
        Tiles16Masked 2916
        Tiles32 0
        Tiles32Masked 0
        B8000Text \"ORDERSCREEN\"
        Terminator \"LOGO\"
        Article \"HELP\"
        Chunk \"PLAIN\"
        Demo 0
        Demo 1
    ";
    let headers = parse_gfx_script(text).unwrap();
    assert_eq!(headers.extension, Some("CK4".to_string()));
    assert_eq!(headers.fonts, names(&["MAIN"]));
    assert_eq!(headers.fonts_masked, names(&["MASKED"]));
    assert_eq!(headers.bitmaps, names(&["TITLE", "UP", "DOWN", "END"]));
    assert!(headers.bitmaps_masked.is_empty());
    assert_eq!(headers.sprites, names(&["STAND"]));
    assert_eq!(headers.tile8_count, 104);
    assert_eq!(headers.tile8_masked_count, 20);
    assert_eq!(headers.tile16_count, 1296);
    assert_eq!(headers.tile16_masked_count, 2916);
    assert_eq!(headers.tile32_count, 0);
    assert_eq!(headers.tile32_masked_count, 0);
    assert_eq!(
        headers.misc_chunks,
        vec![
            MiscChunk::B8000Text("ORDERSCREEN".to_string()),
            MiscChunk::Terminator("LOGO".to_string()),
            MiscChunk::Article("HELP".to_string()),
            MiscChunk::Chunk("PLAIN".to_string()),
            MiscChunk::Demo(0),
            MiscChunk::Demo(1),
        ]
    );
    assert_eq!(
        headers.lumps,
        vec![lump("CONTROLS", 6, 7), lump("KEEN", 9, 9), lump("EMPTY", 10, 9)]
    );
    assert_eq!(headers.num_chunks(), 3 + 1 + 1 + 4 + 0 + 1 + 1 + 1 + 1296 + 2916 + 6);
}

#[test]
fn script_tile_counts_last_wins() {
    let headers = parse_gfx_script("Tiles16 5 Tiles16 9").unwrap();
    assert_eq!(headers.tile16_count, 9);
}

#[test]
fn script_tile_count_keeps_low_32_bits() {
    let headers = parse_gfx_script("Tiles32 -1 Tiles16 4294967297 Demo -2").unwrap();
    assert_eq!(headers.tile32_count, u32::MAX);
    assert_eq!(headers.tile16_count, 1);
    assert_eq!(headers.misc_chunks, vec![MiscChunk::Demo(u32::MAX - 1)]);
}

#[test]
fn script_lump_end_is_category_end_at_close() {
    let headers =
        parse_gfx_script("Sprites { \"A\" Lump \"L\" { \"B\" \"C\" } \"D\" } Fonts { \"F\" }")
            .unwrap();
    // The lump was recorded while the fonts were still empty.
    assert_eq!(headers.lumps, vec![lump("L", 4, 5)]);
    assert_eq!(headers.sprites_start(), 4);
    assert_eq!(headers.sprites, names(&["A", "B", "C", "D"]));
}

#[test]
fn script_block_can_be_reopened() {
    let headers = parse_gfx_script("Fonts { \"A\" } Fonts { \"B\" }").unwrap();
    assert_eq!(headers.fonts, names(&["A", "B"]));
}

#[test]
fn script_nested_lump_is_rejected() {
    let error =
        parse_gfx_script("Bitmaps {\n Lump \"A\" {\n \"X\"\n Lump \"B\" { } } }").unwrap_err();
    assert_eq!(error, ParseError::NestedLump { line: 4 });
    assert!(error.is_syntax());
}

#[test]
fn script_unterminated_string_reports_opening_line() {
    let error = parse_gfx_script("Fonts { \"A").unwrap_err();
    assert_eq!(error, ParseError::UnterminatedString { line: 1 });
    assert!(error.is_lexical());
    let error = parse_gfx_script("Fonts {\n\n \"A\n\n\n").unwrap_err();
    assert_eq!(error, ParseError::UnterminatedString { line: 3 });
}

#[test]
fn script_end_of_input_inside_block() {
    assert_eq!(parse_gfx_script("Fonts {\n \"A\"\n"), Err(ParseError::UnexpectedEof { line: 3 }));
    assert_eq!(
        parse_gfx_script("Fonts { Lump \"L\" { \"A\" }"),
        Err(ParseError::UnexpectedEof { line: 1 })
    );
    assert_eq!(
        parse_gfx_script("Fonts { Lump \"L\" { \"A\""),
        Err(ParseError::UnexpectedEof { line: 1 })
    );
}

#[test]
fn script_unknown_top_level_token() {
    assert_eq!(
        parse_gfx_script("Fonts { }\nBogus 1"),
        Err(ParseError::UnknownToken { token: Token::Ident("Bogus".to_string()), line: 2 })
    );
    assert_eq!(
        parse_gfx_script("}"),
        Err(ParseError::UnknownToken { token: Token::Symbol('}'), line: 1 })
    );
    assert_eq!(
        parse_gfx_script("\"text\""),
        Err(ParseError::UnknownToken { token: Token::StringLiteral("text".to_string()), line: 1 })
    );
    assert_eq!(
        parse_gfx_script("Lump \"L\" { }"),
        Err(ParseError::UnknownToken { token: Token::Ident("Lump".to_string()), line: 1 })
    );
    assert_eq!(
        parse_gfx_script("fonts { }"),
        Err(ParseError::UnknownToken { token: Token::Ident("fonts".to_string()), line: 1 })
    );
}

#[test]
fn script_unknown_token_in_block() {
    assert_eq!(
        parse_gfx_script("Sprites { \"A\" 12 }"),
        Err(ParseError::UnknownToken { token: Token::NumericLiteral(12), line: 1 })
    );
    assert_eq!(
        parse_gfx_script("Sprites {\n Fonts { } }"),
        Err(ParseError::UnknownToken { token: Token::Ident("Fonts".to_string()), line: 2 })
    );
}

#[test]
fn script_missing_arguments() {
    assert_eq!(
        parse_gfx_script("Fonts \"A\""),
        Err(ParseError::UnexpectedToken {
            expected: Expected::Symbol('{'),
            found: Some(Token::StringLiteral("A".to_string())),
            line: 1,
        })
    );
    assert_eq!(
        parse_gfx_script("Extension\n\n12"),
        Err(ParseError::UnexpectedToken {
            expected: Expected::StringLiteral,
            found: Some(Token::NumericLiteral(12)),
            line: 1,
        })
    );
    assert_eq!(
        parse_gfx_script("Tiles8"),
        Err(ParseError::UnexpectedToken {
            expected: Expected::IntegerLiteral,
            found: None,
            line: 1,
        })
    );
    assert_eq!(
        parse_gfx_script("Bitmaps { Lump { } }"),
        Err(ParseError::UnexpectedToken {
            expected: Expected::StringLiteral,
            found: Some(Token::Symbol('{')),
            line: 1,
        })
    );
    assert_eq!(
        parse_gfx_script("Bitmaps { Lump \"L\" \"X\" }"),
        Err(ParseError::UnexpectedToken {
            expected: Expected::Symbol('{'),
            found: Some(Token::StringLiteral("X".to_string())),
            line: 1,
        })
    );
    assert_eq!(
        parse_gfx_script("Demo \"zero\""),
        Err(ParseError::UnexpectedToken {
            expected: Expected::IntegerLiteral,
            found: Some(Token::StringLiteral("zero".to_string())),
            line: 1,
        })
    );
}

#[test]
fn script_malformed_number() {
    assert_eq!(parse_gfx_script("Tiles8\n-"), Err(ParseError::MalformedNumber { line: 2 }));
}

#[test]
fn script_first_error_wins() {
    // The unknown keyword comes before the unterminated string.
    assert_eq!(
        parse_gfx_script("Bogus \"unterminated"),
        Err(ParseError::UnknownToken { token: Token::Ident("Bogus".to_string()), line: 1 })
    );
}

#[test]
fn keyword_table() {
    assert_eq!(keyword("Extension"), Some(Directive::Extension));
    assert_eq!(keyword("Fonts"), Some(Directive::Block(Category::Fonts)));
    assert_eq!(keyword("FontsMasked"), Some(Directive::Block(Category::FontsMasked)));
    assert_eq!(keyword("Bitmaps"), Some(Directive::Block(Category::Bitmaps)));
    assert_eq!(keyword("BitmapsMasked"), Some(Directive::Block(Category::BitmapsMasked)));
    assert_eq!(keyword("Sprites"), Some(Directive::Block(Category::Sprites)));
    assert_eq!(keyword("Tiles8"), Some(Directive::Tiles(TileClass::Tile8)));
    assert_eq!(keyword("Tiles8Masked"), Some(Directive::Tiles(TileClass::Tile8Masked)));
    assert_eq!(keyword("Tiles16"), Some(Directive::Tiles(TileClass::Tile16)));
    assert_eq!(keyword("Tiles16Masked"), Some(Directive::Tiles(TileClass::Tile16Masked)));
    assert_eq!(keyword("Tiles32"), Some(Directive::Tiles(TileClass::Tile32)));
    assert_eq!(keyword("Tiles32Masked"), Some(Directive::Tiles(TileClass::Tile32Masked)));
    assert_eq!(keyword("Chunk"), Some(Directive::Misc(MiscKind::Chunk)));
    assert_eq!(keyword("Article"), Some(Directive::Misc(MiscKind::Article)));
    assert_eq!(keyword("B8000Text"), Some(Directive::Misc(MiscKind::B8000Text)));
    assert_eq!(keyword("Terminator"), Some(Directive::Misc(MiscKind::Terminator)));
    assert_eq!(keyword("Demo"), Some(Directive::Demo));
    assert_eq!(keyword("Lump"), None);
    assert_eq!(keyword("demo"), None);
    assert_eq!(keyword(""), None);
}

#[test]
fn default_inventory_is_empty() {
    let headers = GfxHeaders::default();
    assert!(headers.layout_fits());
    assert_eq!(headers.num_chunks(), 3);
    assert_eq!(headers.extension, None);
}

#[test]
fn parse_tokens_reads_from_where_the_lexer_stands() {
    let mut lexer = Lexer::from_str("Bogus Fonts { \"A\" } Demo 4");
    lexer.next_token().unwrap();
    let headers = parse_tokens(&mut lexer).unwrap();
    assert_eq!(headers.fonts, names(&["A"]));
    assert_eq!(headers.misc_chunks, vec![MiscChunk::Demo(4)]);
    assert!(lexer.next_token().unwrap().is_none());
}

#[test]
fn parse_block_stops_behind_its_brace() {
    let mut lexer = Lexer::from_str("\"A\" Lump \"L\" { \"B\" } } Rest");
    let mut headers = GfxHeaders::new();
    assert_eq!(parse_block(&mut lexer, &mut headers, Category::Sprites), Ok(()));
    assert_eq!(headers.sprites, names(&["A", "B"]));
    assert_eq!(headers.lumps, vec![lump("L", 4, 4)]);
    assert_eq!(lexer.next_token().unwrap().unwrap(), Token::Ident("Rest".to_string()));
}

#[test]
fn parse_directive_reads_its_argument() {
    let mut lexer = Lexer::from_str("12 \"CK4\" \"T\" 3 { \"S\" } x");
    let mut headers = GfxHeaders::new();
    assert_eq!(
        parse_directive(&mut lexer, &mut headers, Directive::Tiles(TileClass::Tile32Masked)),
        Ok(())
    );
    assert_eq!(parse_directive(&mut lexer, &mut headers, Directive::Extension), Ok(()));
    assert_eq!(
        parse_directive(&mut lexer, &mut headers, Directive::Misc(MiscKind::Terminator)),
        Ok(())
    );
    assert_eq!(parse_directive(&mut lexer, &mut headers, Directive::Demo), Ok(()));
    assert_eq!(
        parse_directive(&mut lexer, &mut headers, Directive::Block(Category::FontsMasked)),
        Ok(())
    );
    assert_eq!(headers.tile32_masked_count, 12);
    assert_eq!(headers.extension, Some("CK4".to_string()));
    assert_eq!(
        headers.misc_chunks,
        vec![MiscChunk::Terminator("T".to_string()), MiscChunk::Demo(3)]
    );
    assert_eq!(headers.fonts_masked, names(&["S"]));
    assert_eq!(
        parse_directive(&mut lexer, &mut headers, Directive::Demo),
        Err(ParseError::UnexpectedToken {
            expected: Expected::IntegerLiteral,
            found: Some(Token::Ident("x".to_string())),
            line: 1,
        })
    );
}

#[test]
fn lumps_of_a_script_lie_in_the_named_span() {
    let headers = parse_gfx_script(
        "Fonts { Lump \"A\" { } \"F\" Lump \"B\" { \"G\" \"H\" } }
         Sprites { \"S\" Lump \"C\" { \"T\" } Lump \"D\" { } }",
    )
    .unwrap();
    assert_eq!(
        headers.lumps,
        vec![lump("A", 3, 2), lump("B", 4, 5), lump("C", 7, 7), lump("D", 8, 7)]
    );
    for lump in &headers.lumps {
        assert!(3 <= lump.start_chunk);
        assert!(lump.start_chunk <= lump.end_chunk + 1);
        assert!(lump.end_chunk < headers.tile8_start());
    }
}
