//! The grammar of scripts: which inventory a text declares.
//!
//! A script is a sequence of directives. [`parse`] reads them from the first
//! character on, token by token as [`scan`] finds them, and stops at the
//! first error.

use vstd::prelude::*;
use crate::layout::{
    lemma_closed_lump, Category, Inventory, MiscChunkView, MiscKind, TileClass,
    HEADER_CHUNK_COUNT,
};
use crate::scan::{expect, glyphs_of, lemma_scan_advances, line_at, scan, Glyph};
use crate::token::{ExpectedView, ParseErrorView, TokenView};

verus! {

/// What a keyword at the top level of a script asks for.
#[derive(Clone, Copy, Debug, PartialEq, Eq, Structural)]
pub enum Directive {
    /// `Extension <string>`: the file extension of the game.
    Extension,
    /// `Fonts`, `FontsMasked`, `Bitmaps`, `BitmapsMasked`, `Sprites`: a block
    /// of names in braces.
    Block(Category),
    /// `Tiles8` .. `Tiles32Masked <int>`: the count of a tile class.
    Tiles(TileClass),
    /// `Chunk`, `Article`, `B8000Text`, `Terminator <string>`: one more
    /// miscellaneous chunk.
    Misc(MiscKind),
    /// `Demo <int>`: one more demo chunk.
    Demo,
}

/// The directive that an identifier at the top level stands for.
pub open spec fn directive_of(name: Seq<char>) -> Option<Directive> {
    if name == "Extension"@ {
        Some(Directive::Extension)
    } else if name == "Fonts"@ {
        Some(Directive::Block(Category::Fonts))
    } else if name == "FontsMasked"@ {
        Some(Directive::Block(Category::FontsMasked))
    } else if name == "Bitmaps"@ {
        Some(Directive::Block(Category::Bitmaps))
    } else if name == "BitmapsMasked"@ {
        Some(Directive::Block(Category::BitmapsMasked))
    } else if name == "Sprites"@ {
        Some(Directive::Block(Category::Sprites))
    } else if name == "Tiles8"@ {
        Some(Directive::Tiles(TileClass::Tile8))
    } else if name == "Tiles8Masked"@ {
        Some(Directive::Tiles(TileClass::Tile8Masked))
    } else if name == "Tiles16"@ {
        Some(Directive::Tiles(TileClass::Tile16))
    } else if name == "Tiles16Masked"@ {
        Some(Directive::Tiles(TileClass::Tile16Masked))
    } else if name == "Tiles32"@ {
        Some(Directive::Tiles(TileClass::Tile32))
    } else if name == "Tiles32Masked"@ {
        Some(Directive::Tiles(TileClass::Tile32Masked))
    } else if name == "Chunk"@ {
        Some(Directive::Misc(MiscKind::Chunk))
    } else if name == "Article"@ {
        Some(Directive::Misc(MiscKind::Article))
    } else if name == "B8000Text"@ {
        Some(Directive::Misc(MiscKind::B8000Text))
    } else if name == "Terminator"@ {
        Some(Directive::Misc(MiscKind::Terminator))
    } else if name == "Demo"@ {
        Some(Directive::Demo)
    } else {
        None
    }
}

/// The directive that a token at the top level stands for. Only identifiers
/// can be directives.
pub open spec fn directive_of_token(token: TokenView) -> Option<Directive> {
    match token {
        TokenView::Ident(name) => directive_of(name),
        _ => None,
    }
}

/// Reads a string literal at `pos`: its text, and the position behind it.
pub open spec fn read_string(text: Seq<Glyph>, pos: int) -> Result<(Seq<char>, int), ParseErrorView> {
    let step = scan(text, pos);
    match expect(step.outcome, ExpectedView::StringLiteral, line_at(text, pos)) {
        Ok(TokenView::StringLiteral(content)) => Ok((content, step.end)),
        Ok(_) => Err(arbitrary()),
        Err(error) => Err(error),
    }
}

/// Reads an integer literal at `pos`: its value, and the position behind it.
pub open spec fn read_int(text: Seq<Glyph>, pos: int) -> Result<(i64, int), ParseErrorView> {
    let step = scan(text, pos);
    match expect(step.outcome, ExpectedView::IntegerLiteral, line_at(text, pos)) {
        Ok(TokenView::NumericLiteral(value)) => Ok((value, step.end)),
        Ok(_) => Err(arbitrary()),
        Err(error) => Err(error),
    }
}

/// Reads the symbol `sym` at `pos`: the position behind it.
pub open spec fn read_symbol(text: Seq<Glyph>, pos: int, sym: char) -> Result<int, ParseErrorView> {
    let step = scan(text, pos);
    match expect(step.outcome, ExpectedView::Symbol(sym), line_at(text, pos)) {
        Ok(_) => Ok(step.end),
        Err(error) => Err(error),
    }
}

/// A lump that has been opened and not closed yet.
pub struct OpenLump {
    pub name: Seq<char>,
    /// The chunk index that the category had reached when the lump opened.
    pub start_chunk: u32,
}

/// Reads the body of the block of `category` from `pos` up to the brace that
/// ends the block: the inventory after it, and the position behind the brace.
///
/// A string literal declares one more name. `Lump <string> {` opens a lump at
/// the category's next chunk index, unless one is open already; the names
/// inside it are declared like the others. `}` closes the open lump and goes
/// on with the block or, with no lump open, ends the block.
pub open spec fn parse_block(
    text: Seq<Glyph>,
    pos: int,
    inventory: Inventory,
    category: Category,
    open: Option<OpenLump>,
) -> Result<(Inventory, int), ParseErrorView>
    decreases text.len() - pos,
{
    let step = scan(text, pos);
    let line = line_at(text, step.end);
    proof {
        lemma_reads_advance(text, pos);
    }
    match step.outcome {
        Err(error) => Err(error),
        Ok(None) => Err(ParseErrorView::UnexpectedEof { line }),
        Ok(Some(token)) => {
            if token == TokenView::Symbol('}') {
                match open {
                    Some(lump) => parse_block(
                        text,
                        step.end,
                        inventory.close_lump(category, lump.name, lump.start_chunk as int),
                        category,
                        None,
                    ),
                    None => Ok((inventory, step.end)),
                }
            } else if token == TokenView::Ident("Lump"@) {
                if open is Some {
                    Err(ParseErrorView::NestedLump { line })
                } else {
                    match read_string(text, step.end) {
                        Err(error) => Err(error),
                        Ok((name, after_name)) => match read_symbol(text, after_name, '{') {
                            Err(error) => Err(error),
                            Ok(after_brace) => {
                                proof {
                                    lemma_reads_advance(text, step.end);
                                    lemma_reads_advance(text, after_name);
                                }
                                parse_block(
                                    text,
                                    after_brace,
                                    inventory,
                                    category,
                                    Some(
                                        OpenLump {
                                            name,
                                            start_chunk: inventory.next_index(category) as u32,
                                        },
                                    ),
                                )
                            },
                        },
                    }
                }
            } else {
                match token {
                    TokenView::StringLiteral(name) => {
                        if HEADER_CHUNK_COUNT + inventory.named_count() >= u32::MAX {
                            Err(ParseErrorView::TooManyChunks { line })
                        } else {
                            parse_block(
                                text,
                                step.end,
                                inventory.push_entry(category, name),
                                category,
                                open,
                            )
                        }
                    },
                    _ => Err(ParseErrorView::UnknownToken { token, line }),
                }
            }
        },
    }
}

/// Carries out one directive whose keyword ends at `pos`: the inventory after
/// it, and the position behind its argument.
pub open spec fn parse_directive(
    text: Seq<Glyph>,
    pos: int,
    inventory: Inventory,
    directive: Directive,
) -> Result<(Inventory, int), ParseErrorView> {
    match directive {
        Directive::Extension => match read_string(text, pos) {
            Ok((extension, end)) => Ok((Inventory { extension: Some(extension), ..inventory }, end)),
            Err(error) => Err(error),
        },
        Directive::Block(category) => match read_symbol(text, pos, '{') {
            Ok(end) => parse_block(text, end, inventory, category, None),
            Err(error) => Err(error),
        },
        Directive::Tiles(class) => match read_int(text, pos) {
            Ok((count, end)) => Ok((inventory.set_tile_count(class, count as u32), end)),
            Err(error) => Err(error),
        },
        Directive::Misc(kind) => match read_string(text, pos) {
            Ok((name, end)) => Ok((inventory.push_misc(MiscChunkView::named(kind, name)), end)),
            Err(error) => Err(error),
        },
        Directive::Demo => match read_int(text, pos) {
            Ok((number, end)) => Ok(
                (inventory.push_misc(MiscChunkView::Demo(number as u32)), end),
            ),
            Err(error) => Err(error),
        },
    }
}

/// Reads directives from `pos` to the end of the text, starting from
/// `inventory`. A token that is no directive is an error.
pub open spec fn parse_script(text: Seq<Glyph>, pos: int, inventory: Inventory) -> Result<
    Inventory,
    ParseErrorView,
>
    decreases text.len() - pos,
{
    let step = scan(text, pos);
    match step.outcome {
        Err(error) => Err(error),
        Ok(None) => Ok(inventory),
        Ok(Some(token)) => match directive_of_token(token) {
            Some(directive) => match parse_directive(text, step.end, inventory, directive) {
                Ok((next, end)) => {
                    proof {
                        lemma_reads_advance(text, pos);
                        lemma_directive_advances(text, step.end, inventory, directive);
                    }
                    parse_script(text, end, next)
                },
                Err(error) => Err(error),
            },
            None => Err(ParseErrorView::UnknownToken { token, line: line_at(text, step.end) }),
        },
    }
}

/// The inventory that a script declares whose characters come with their
/// classes, or the first error in it.
pub open spec fn parse_glyphs(text: Seq<Glyph>) -> Result<Inventory, ParseErrorView> {
    parse_script(text, 0, Inventory::empty())
}

/// The inventory that the script `text` declares, or the first error in it.
pub open spec fn parse(text: Seq<char>) -> Result<Inventory, ParseErrorView> {
    parse_glyphs(glyphs_of(text))
}

/// A reading step that finds a token moves forward, and stays in the text;
/// so do the three reading operations.
pub proof fn lemma_reads_advance(text: Seq<Glyph>, pos: int)
    ensures
        scan(text, pos).outcome matches Ok(Some(_)) ==> 0 <= pos < scan(text, pos).end
            <= text.len(),
        read_string(text, pos) matches Ok((_, end)) ==> 0 <= pos < end <= text.len(),
        read_int(text, pos) matches Ok((_, end)) ==> 0 <= pos < end <= text.len(),
        forall|sym: char| #[trigger]
            read_symbol(text, pos, sym) matches Ok(end) ==> 0 <= pos < end <= text.len(),
{
    if 0 <= pos <= text.len() {
        lemma_scan_advances(text, pos);
    }
}

/// A block that is read to its end ends behind where it began.
pub proof fn lemma_block_advances(
    text: Seq<Glyph>,
    pos: int,
    inventory: Inventory,
    category: Category,
    open: Option<OpenLump>,
)
    ensures
        parse_block(text, pos, inventory, category, open) matches Ok((_, end)) ==> 0 <= pos < end
            <= text.len(),
    decreases text.len() - pos,
{
    let step = scan(text, pos);
    lemma_reads_advance(text, pos);
    match step.outcome {
        Ok(Some(token)) => {
            if token == TokenView::Symbol('}') {
                match open {
                    Some(lump) => {
                        lemma_block_advances(
                            text,
                            step.end,
                            inventory.close_lump(category, lump.name, lump.start_chunk as int),
                            category,
                            None,
                        );
                    },
                    None => {},
                }
            } else if token == TokenView::Ident("Lump"@) {
                if open is None {
                    lemma_reads_advance(text, step.end);
                    match read_string(text, step.end) {
                        Ok((name, after_name)) => {
                            lemma_reads_advance(text, after_name);
                            match read_symbol(text, after_name, '{') {
                                Ok(after_brace) => {
                                    lemma_block_advances(
                                        text,
                                        after_brace,
                                        inventory,
                                        category,
                                        Some(
                                            OpenLump {
                                                name,
                                                start_chunk: inventory.next_index(category) as u32,
                                            },
                                        ),
                                    );
                                },
                                Err(_) => {},
                            }
                        },
                        Err(_) => {},
                    }
                }
            } else {
                match token {
                    TokenView::StringLiteral(name) => {
                        if HEADER_CHUNK_COUNT + inventory.named_count() < u32::MAX {
                            lemma_block_advances(
                                text,
                                step.end,
                                inventory.push_entry(category, name),
                                category,
                                open,
                            );
                        }
                    },
                    _ => {},
                }
            }
        },
        _ => {},
    }
}

/// A closing brace with a lump open closes the lump and not the block: the
/// lump is recorded with the end that the category has reached, and the block
/// goes on behind the brace with no lump open.
pub proof fn lemma_brace_closes_open_lump(
    text: Seq<Glyph>,
    pos: int,
    inventory: Inventory,
    category: Category,
    open: OpenLump,
)
    requires
        scan(text, pos).outcome == Ok::<Option<TokenView>, ParseErrorView>(
            Some(TokenView::Symbol('}')),
        ),
    ensures
        parse_block(text, pos, inventory, category, Some(open)) == parse_block(
            text,
            scan(text, pos).end,
            inventory.close_lump(category, open.name, open.start_chunk as int),
            category,
            None,
        ),
{
}

/// Opening a lump inside an open lump is an error: whatever follows, the
/// block is not read.
pub proof fn lemma_nested_lump_is_rejected(
    text: Seq<Glyph>,
    pos: int,
    inventory: Inventory,
    category: Category,
    open: OpenLump,
)
    requires
        scan(text, pos).outcome == Ok::<Option<TokenView>, ParseErrorView>(
            Some(TokenView::Ident("Lump"@)),
        ),
    ensures
        parse_block(text, pos, inventory, category, Some(open)) == Err::<
            (Inventory, int),
            ParseErrorView,
        >(ParseErrorView::NestedLump { line: line_at(text, scan(text, pos).end) }),
{
    reveal_strlit("Lump");
    assert(TokenView::Ident("Lump"@) != TokenView::Symbol('}'));
}

/// Whether a lump that is open in a block of `category` was opened at a
/// chunk index that the category had reached.
pub open spec fn open_lump_in_range(
    inventory: Inventory,
    category: Category,
    open: Option<OpenLump>,
) -> bool {
    match open {
        Some(lump) => inventory.category_start(category) <= lump.start_chunk
            <= inventory.next_index(category),
        None => true,
    }
}

/// Reading a block keeps the named categories within 32 bits and every
/// recorded lump inside the span of the named categories.
pub proof fn lemma_block_keeps_lumps_in_range(
    text: Seq<Glyph>,
    pos: int,
    inventory: Inventory,
    category: Category,
    open: Option<OpenLump>,
)
    requires
        inventory.named_fits(),
        inventory.lumps_in_range(),
        open_lump_in_range(inventory, category, open),
    ensures
        parse_block(text, pos, inventory, category, open) matches Ok((after, _))
            ==> after.named_fits() && after.lumps_in_range(),
    decreases text.len() - pos,
{
    let step = scan(text, pos);
    lemma_reads_advance(text, pos);
    match step.outcome {
        Ok(Some(token)) => {
            if token == TokenView::Symbol('}') {
                match open {
                    Some(lump) => {
                        lemma_closed_lump(inventory, category, lump.name, lump.start_chunk as int);
                        lemma_block_keeps_lumps_in_range(
                            text,
                            step.end,
                            inventory.close_lump(category, lump.name, lump.start_chunk as int),
                            category,
                            None,
                        );
                    },
                    None => {},
                }
            } else if token == TokenView::Ident("Lump"@) {
                if open is None {
                    lemma_reads_advance(text, step.end);
                    match read_string(text, step.end) {
                        Ok((name, after_name)) => {
                            lemma_reads_advance(text, after_name);
                            match read_symbol(text, after_name, '{') {
                                Ok(after_brace) => {
                                    lemma_block_keeps_lumps_in_range(
                                        text,
                                        after_brace,
                                        inventory,
                                        category,
                                        Some(
                                            OpenLump {
                                                name,
                                                start_chunk: inventory.next_index(category) as u32,
                                            },
                                        ),
                                    );
                                },
                                Err(_) => {},
                            }
                        },
                        Err(_) => {},
                    }
                }
            } else {
                match token {
                    TokenView::StringLiteral(name) => {
                        if HEADER_CHUNK_COUNT + inventory.named_count() < u32::MAX {
                            lemma_block_keeps_lumps_in_range(
                                text,
                                step.end,
                                inventory.push_entry(category, name),
                                category,
                                open,
                            );
                        }
                    },
                    _ => {},
                }
            }
        },
        _ => {},
    }
}

/// Carrying out a directive keeps the named categories within 32 bits and
/// every recorded lump inside the span of the named categories.
pub proof fn lemma_directive_keeps_lumps_in_range(
    text: Seq<Glyph>,
    pos: int,
    inventory: Inventory,
    directive: Directive,
)
    requires
        inventory.named_fits(),
        inventory.lumps_in_range(),
    ensures
        parse_directive(text, pos, inventory, directive) matches Ok((after, _))
            ==> after.named_fits() && after.lumps_in_range(),
{
    match directive {
        Directive::Block(category) => match read_symbol(text, pos, '{') {
            Ok(end) => {
                lemma_block_keeps_lumps_in_range(text, end, inventory, category, None);
            },
            Err(_) => {},
        },
        _ => {},
    }
}

/// In the inventory that a script declares, the named categories fit 32 bits
/// and every lump lies inside the span of the named categories.
pub proof fn lemma_script_keeps_lumps_in_range(text: Seq<Glyph>, pos: int, inventory: Inventory)
    requires
        inventory.named_fits(),
        inventory.lumps_in_range(),
    ensures
        parse_script(text, pos, inventory) matches Ok(after) ==> after.named_fits()
            && after.lumps_in_range(),
    decreases text.len() - pos,
{
    let step = scan(text, pos);
    lemma_reads_advance(text, pos);
    match step.outcome {
        Ok(Some(token)) => match directive_of_token(token) {
            Some(directive) => {
                lemma_directive_advances(text, step.end, inventory, directive);
                lemma_directive_keeps_lumps_in_range(text, step.end, inventory, directive);
                match parse_directive(text, step.end, inventory, directive) {
                    Ok((next, end)) => {
                        lemma_script_keeps_lumps_in_range(text, end, next);
                    },
                    Err(_) => {},
                }
            },
            None => {},
        },
        _ => {},
    }
}

/// A directive that is carried out ends behind its keyword.
pub proof fn lemma_directive_advances(
    text: Seq<Glyph>,
    pos: int,
    inventory: Inventory,
    directive: Directive,
)
    ensures
        parse_directive(text, pos, inventory, directive) matches Ok((_, end)) ==> 0 <= pos < end
            <= text.len(),
{
    lemma_reads_advance(text, pos);
    match directive {
        Directive::Block(category) => match read_symbol(text, pos, '{') {
            Ok(end) => {
                lemma_block_advances(text, end, inventory, category, None);
            },
            Err(_) => {},
        },
        _ => {},
    }
}

} // verus!
