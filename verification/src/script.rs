//! Reading a script into an inventory.

use vstd::prelude::*;
use crate::grammar;
use crate::grammar::{directive_of, Directive, OpenLump};
use crate::headers::{GfxHeaders, MiscChunk};
use crate::layout::{Category, Inventory, MiscKind, TileClass};
use crate::parser::Lexer;
use crate::text::{chars_eq, to_chars};
use crate::token::{ParseError, ParseErrorView, Token};

verus! {

/// Whether `chars` spells `word`.
fn is_word(chars: &Vec<char>, word: &str) -> (same: bool)
    ensures
        same == (chars@ == word@),
{
    let word_chars = to_chars(word);
    chars_eq(chars, &word_chars)
}

/// The directive that the identifier `name` stands for at the top level of a
/// script, if it is a keyword.
pub fn keyword(name: &str) -> (directive: Option<Directive>)
    ensures
        directive == directive_of(name@),
{
    let chars = to_chars(name);
    if is_word(&chars, "Extension") {
        Some(Directive::Extension)
    } else if is_word(&chars, "Fonts") {
        Some(Directive::Block(Category::Fonts))
    } else if is_word(&chars, "FontsMasked") {
        Some(Directive::Block(Category::FontsMasked))
    } else if is_word(&chars, "Bitmaps") {
        Some(Directive::Block(Category::Bitmaps))
    } else if is_word(&chars, "BitmapsMasked") {
        Some(Directive::Block(Category::BitmapsMasked))
    } else if is_word(&chars, "Sprites") {
        Some(Directive::Block(Category::Sprites))
    } else if is_word(&chars, "Tiles8") {
        Some(Directive::Tiles(TileClass::Tile8))
    } else if is_word(&chars, "Tiles8Masked") {
        Some(Directive::Tiles(TileClass::Tile8Masked))
    } else if is_word(&chars, "Tiles16") {
        Some(Directive::Tiles(TileClass::Tile16))
    } else if is_word(&chars, "Tiles16Masked") {
        Some(Directive::Tiles(TileClass::Tile16Masked))
    } else if is_word(&chars, "Tiles32") {
        Some(Directive::Tiles(TileClass::Tile32))
    } else if is_word(&chars, "Tiles32Masked") {
        Some(Directive::Tiles(TileClass::Tile32Masked))
    } else if is_word(&chars, "Chunk") {
        Some(Directive::Misc(MiscKind::Chunk))
    } else if is_word(&chars, "Article") {
        Some(Directive::Misc(MiscKind::Article))
    } else if is_word(&chars, "B8000Text") {
        Some(Directive::Misc(MiscKind::B8000Text))
    } else if is_word(&chars, "Terminator") {
        Some(Directive::Misc(MiscKind::Terminator))
    } else if is_word(&chars, "Demo") {
        Some(Directive::Demo)
    } else {
        None
    }
}

/// The mathematical content of the lump that a block has open.
pub open spec fn open_lump_view(open: Option<(String, u32)>) -> Option<OpenLump> {
    match open {
        Some((name, start_chunk)) => Some(OpenLump { name: name@, start_chunk }),
        None => None,
    }
}

/// Reads the body of a block of `category`, up to and with the brace that
/// ends it, and declares its names and lumps in `headers`.
pub fn parse_block(lexer: &mut Lexer, headers: &mut GfxHeaders, category: Category) -> (result:
    Result<(), ParseError>)
    requires
        old(lexer).wf(),
        old(lexer)@.buffered is None,
        old(headers)@.named_fits(),
    ensures
        final(lexer).wf(),
        final(lexer)@.buffered is None,
        final(lexer)@.text == old(lexer)@.text,
        match result {
            Ok(()) => {
                &&& grammar::parse_block(
                    old(lexer)@.text,
                    old(lexer)@.pos,
                    old(headers)@,
                    category,
                    None,
                ) == Ok::<(Inventory, int), ParseErrorView>((final(headers)@, final(lexer)@.pos))
                &&& final(headers)@.named_fits()
            },
            Err(error) => grammar::parse_block(
                old(lexer)@.text,
                old(lexer)@.pos,
                old(headers)@,
                category,
                None,
            ) == Err::<(Inventory, int), ParseErrorView>(error@),
        },
{
    let ghost text = lexer@.text;
    let ghost goal = grammar::parse_block(text, lexer@.pos, headers@, category, None);
    let mut open: Option<(String, u32)> = None;
    loop
        invariant
            lexer.wf(),
            lexer@.buffered is None,
            lexer@.text == text,
            text == old(lexer)@.text,
            goal == grammar::parse_block(
                text,
                old(lexer)@.pos,
                old(headers)@,
                category,
                None,
            ),
            headers@.named_fits(),
            grammar::parse_block(text, lexer@.pos, headers@, category, open_lump_view(open))
                == goal,
        decreases text.len() - lexer@.pos,
    {
        proof {
            grammar::lemma_reads_advance(text, lexer@.pos);
        }
        let token = match lexer.next_token()? {
            Some(token) => token,
            None => {
                return Err(ParseError::UnexpectedEof { line: lexer.line() });
            },
        };
        let line = lexer.line();
        let closes = match &token {
            Token::Symbol(c) => *c == '}',
            _ => false,
        };
        let opens = match &token {
            Token::Ident(name) => crate::text::str_eq(name.as_str(), "Lump"),
            _ => false,
        };
        if closes {
            match open.take() {
                Some((name, start_chunk)) => {
                    headers.close_lump(category, name, start_chunk);
                },
                None => {
                    return Ok(());
                },
            }
        } else if opens {
            if open.is_some() {
                return Err(ParseError::NestedLump { line });
            }
            proof {
                grammar::lemma_reads_advance(text, lexer@.pos);
            }
            let name = lexer.get_string_literal()?;
            proof {
                grammar::lemma_reads_advance(text, lexer@.pos);
            }
            lexer.expect_symbol('{')?;
            open = Some((name, headers.next_index(category)));
        } else {
            match token {
                Token::StringLiteral(name) => {
                    if !headers.has_room() {
                        return Err(ParseError::TooManyChunks { line });
                    }
                    headers.push_entry(category, name);
                },
                other => {
                    return Err(ParseError::UnknownToken { token: other, line });
                },
            }
        }
    }
}

/// Carries out one directive whose keyword has just been read.
pub fn parse_directive(lexer: &mut Lexer, headers: &mut GfxHeaders, directive: Directive) -> (result:
    Result<(), ParseError>)
    requires
        old(lexer).wf(),
        old(lexer)@.buffered is None,
        old(headers)@.named_fits(),
    ensures
        final(lexer).wf(),
        final(lexer)@.buffered is None,
        final(lexer)@.text == old(lexer)@.text,
        match result {
            Ok(()) => {
                &&& grammar::parse_directive(
                    old(lexer)@.text,
                    old(lexer)@.pos,
                    old(headers)@,
                    directive,
                ) == Ok::<(Inventory, int), ParseErrorView>((final(headers)@, final(lexer)@.pos))
                &&& final(headers)@.named_fits()
            },
            Err(error) => grammar::parse_directive(
                old(lexer)@.text,
                old(lexer)@.pos,
                old(headers)@,
                directive,
            ) == Err::<(Inventory, int), ParseErrorView>(error@),
        },
{
    match directive {
        Directive::Extension => {
            let extension = lexer.get_string_literal()?;
            headers.set_extension(extension);
            Ok(())
        },
        Directive::Block(category) => {
            lexer.expect_symbol('{')?;
            parse_block(lexer, headers, category)
        },
        Directive::Tiles(class) => {
            let count = lexer.get_int_literal()?;
            headers.set_tile_count(class, #[verifier::truncate] (count as u32));
            Ok(())
        },
        Directive::Misc(kind) => {
            let name = lexer.get_string_literal()?;
            headers.push_misc(MiscChunk::named(kind, name));
            Ok(())
        },
        Directive::Demo => {
            let number = lexer.get_int_literal()?;
            headers.push_misc(MiscChunk::Demo(#[verifier::truncate] (number as u32)));
            Ok(())
        },
    }
}

/// Reads directives from the lexer until its input ends and returns the
/// inventory that they declare, or the first error.
pub fn parse_tokens(lexer: &mut Lexer) -> (result: Result<GfxHeaders, ParseError>)
    requires
        old(lexer).wf(),
        old(lexer)@.buffered is None,
    ensures
        final(lexer).wf(),
        final(lexer)@.text == old(lexer)@.text,
        match result {
            Ok(headers) => {
                &&& grammar::parse_script(
                    old(lexer)@.text,
                    old(lexer)@.pos,
                    Inventory::empty(),
                ) == Ok::<Inventory, ParseErrorView>(headers@)
                &&& headers@.named_fits()
                &&& headers@.lumps_in_range()
            },
            Err(error) => grammar::parse_script(
                old(lexer)@.text,
                old(lexer)@.pos,
                Inventory::empty(),
            ) == Err::<Inventory, ParseErrorView>(error@),
        },
{
    let mut headers = GfxHeaders::new();
    let ghost text = lexer@.text;
    let ghost goal = grammar::parse_script(text, lexer@.pos, Inventory::empty());
    proof {
        grammar::lemma_script_keeps_lumps_in_range(text, lexer@.pos, Inventory::empty());
    }
    loop
        invariant
            lexer.wf(),
            lexer@.buffered is None,
            lexer@.text == text,
            text == old(lexer)@.text,
            goal == grammar::parse_script(text, old(lexer)@.pos, Inventory::empty()),
            goal matches Ok(declared) ==> declared.lumps_in_range(),
            headers@.named_fits(),
            grammar::parse_script(text, lexer@.pos, headers@) == goal,
        decreases text.len() - lexer@.pos,
    {
        proof {
            grammar::lemma_reads_advance(text, lexer@.pos);
        }
        let token = match lexer.next_token()? {
            Some(token) => token,
            None => {
                return Ok(headers);
            },
        };
        let directive = match &token {
            Token::Ident(name) => keyword(name.as_str()),
            _ => None,
        };
        match directive {
            Some(directive) => {
                proof {
                    grammar::lemma_directive_advances(text, lexer@.pos, headers@, directive);
                }
                parse_directive(lexer, &mut headers, directive)?;
            },
            None => {
                return Err(ParseError::UnknownToken { token, line: lexer.line() });
            },
        }
    }
}

/// Reads a whole script and returns the inventory that it declares, or the
/// first error in it.
pub fn parse_gfx_script(script_text: &str) -> (result: Result<GfxHeaders, ParseError>)
    ensures
        match result {
            Ok(headers) => {
                &&& grammar::parse(script_text@) == Ok::<Inventory, ParseErrorView>(headers@)
                &&& headers@.named_fits()
                &&& headers@.lumps_in_range()
            },
            Err(error) => grammar::parse(script_text@) == Err::<Inventory, ParseErrorView>(
                error@,
            ),
        },
{
    let mut lexer = Lexer::from_str(script_text);
    parse_tokens(&mut lexer)
}

} // verus!
