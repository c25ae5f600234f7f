//! The chunk layout: which chunk index every asset of an inventory gets.
//!
//! Chunks are numbered in a fixed order of categories: the header chunks, the
//! five lists of named assets, the six tile classes, and the miscellaneous
//! chunks. Everything here is a pure function of the inventory's content.

use vstd::prelude::*;

verus! {

/// The number of chunks at the front of every archive that hold no asset.
pub const HEADER_CHUNK_COUNT: u32 = 3;

/// The five categories whose assets are listed by name.
#[derive(Clone, Copy, Debug, PartialEq, Eq, Structural)]
pub enum Category {
    Fonts,
    FontsMasked,
    Bitmaps,
    BitmapsMasked,
    Sprites,
}

/// The six classes of tiles, each with a count of its own.
#[derive(Clone, Copy, Debug, PartialEq, Eq, Structural)]
pub enum TileClass {
    Tile8,
    Tile8Masked,
    Tile16,
    Tile16Masked,
    Tile32,
    Tile32Masked,
}

/// The kinds of miscellaneous chunks that carry a name.
#[derive(Clone, Copy, Debug, PartialEq, Eq, Structural)]
pub enum MiscKind {
    Chunk,
    Article,
    B8000Text,
    Terminator,
}

/// The mathematical content of a lump: a named range of chunk indices.
pub struct LumpView {
    pub name: Seq<char>,
    pub start_chunk: u32,
    pub end_chunk: u32,
}

/// The mathematical content of a miscellaneous chunk.
pub enum MiscChunkView {
    Chunk(Seq<char>),
    Article(Seq<char>),
    B8000Text(Seq<char>),
    Terminator(Seq<char>),
    Demo(u32),
}

impl MiscChunkView {
    /// The named chunk of the given kind.
    pub open spec fn named(kind: MiscKind, name: Seq<char>) -> MiscChunkView {
        match kind {
            MiscKind::Chunk => MiscChunkView::Chunk(name),
            MiscKind::Article => MiscChunkView::Article(name),
            MiscKind::B8000Text => MiscChunkView::B8000Text(name),
            MiscKind::Terminator => MiscChunkView::Terminator(name),
        }
    }
}

/// The mathematical content of an asset inventory.
pub struct Inventory {
    pub extension: Option<Seq<char>>,
    pub fonts: Seq<Seq<char>>,
    pub fonts_masked: Seq<Seq<char>>,
    pub bitmaps: Seq<Seq<char>>,
    pub bitmaps_masked: Seq<Seq<char>>,
    pub sprites: Seq<Seq<char>>,
    pub tile8_count: u32,
    pub tile8_masked_count: u32,
    pub tile16_count: u32,
    pub tile16_masked_count: u32,
    pub tile32_count: u32,
    pub tile32_masked_count: u32,
    pub misc_chunks: Seq<MiscChunkView>,
    pub lumps: Seq<LumpView>,
}

impl Inventory {
    /// The inventory that declares nothing.
    pub open spec fn empty() -> Inventory {
        Inventory {
            extension: None,
            fonts: Seq::empty(),
            fonts_masked: Seq::empty(),
            bitmaps: Seq::empty(),
            bitmaps_masked: Seq::empty(),
            sprites: Seq::empty(),
            tile8_count: 0,
            tile8_masked_count: 0,
            tile16_count: 0,
            tile16_masked_count: 0,
            tile32_count: 0,
            tile32_masked_count: 0,
            misc_chunks: Seq::empty(),
            lumps: Seq::empty(),
        }
    }

    /// The names declared in a category, in the order of their declaration.
    pub open spec fn list(self, category: Category) -> Seq<Seq<char>> {
        match category {
            Category::Fonts => self.fonts,
            Category::FontsMasked => self.fonts_masked,
            Category::Bitmaps => self.bitmaps,
            Category::BitmapsMasked => self.bitmaps_masked,
            Category::Sprites => self.sprites,
        }
    }

    /// The declared count of a tile class.
    pub open spec fn tile_count(self, class: TileClass) -> u32 {
        match class {
            TileClass::Tile8 => self.tile8_count,
            TileClass::Tile8Masked => self.tile8_masked_count,
            TileClass::Tile16 => self.tile16_count,
            TileClass::Tile16Masked => self.tile16_masked_count,
            TileClass::Tile32 => self.tile32_count,
            TileClass::Tile32Masked => self.tile32_masked_count,
        }
    }

    /// How many chunk indices a tile class takes up. All 8-pixel tiles of one
    /// class share a single chunk; the larger tiles take one chunk each.
    pub open spec fn tile_occupancy(self, class: TileClass) -> int {
        match class {
            TileClass::Tile8 | TileClass::Tile8Masked => if self.tile_count(class) != 0 {
                1
            } else {
                0
            },
            _ => self.tile_count(class) as int,
        }
    }

    /// How many assets the five named categories hold together.
    pub open spec fn named_count(self) -> int {
        (self.fonts.len() + self.fonts_masked.len() + self.bitmaps.len()
            + self.bitmaps_masked.len() + self.sprites.len()) as int
    }

    /// The total number of chunks: the header chunks, every category's
    /// occupancy, and the miscellaneous chunks.
    pub open spec fn num_chunks(self) -> int {
        HEADER_CHUNK_COUNT + self.fonts.len() + self.fonts_masked.len() + self.bitmaps.len()
            + self.bitmaps_masked.len() + self.sprites.len() + self.tile_occupancy(
            TileClass::Tile8,
        ) + self.tile_occupancy(TileClass::Tile8Masked) + self.tile16_count
            + self.tile16_masked_count + self.tile32_count + self.tile32_masked_count
            + self.misc_chunks.len()
    }

    /// The first chunk index of the fonts: the one behind the header chunks.
    pub open spec fn fonts_start(self) -> int {
        HEADER_CHUNK_COUNT as int
    }

    /// The first chunk index of the masked fonts.
    pub open spec fn fonts_masked_start(self) -> int {
        self.fonts_start() + self.fonts.len()
    }

    /// The first chunk index of the bitmaps.
    pub open spec fn bitmaps_start(self) -> int {
        self.fonts_masked_start() + self.fonts_masked.len()
    }

    /// The first chunk index of the masked bitmaps.
    pub open spec fn bitmaps_masked_start(self) -> int {
        self.bitmaps_start() + self.bitmaps.len()
    }

    /// The first chunk index of the sprites.
    pub open spec fn sprites_start(self) -> int {
        self.bitmaps_masked_start() + self.bitmaps_masked.len()
    }

    /// The first chunk index of the 8-pixel tiles.
    pub open spec fn tile8_start(self) -> int {
        self.sprites_start() + self.sprites.len()
    }

    /// The first chunk index of the masked 8-pixel tiles.
    pub open spec fn tile8_masked_start(self) -> int {
        self.tile8_start() + self.tile_occupancy(TileClass::Tile8)
    }

    /// The first chunk index of the 16-pixel tiles.
    pub open spec fn tile16_start(self) -> int {
        self.tile8_masked_start() + self.tile_occupancy(TileClass::Tile8Masked)
    }

    /// The first chunk index of the masked 16-pixel tiles.
    pub open spec fn tile16_masked_start(self) -> int {
        self.tile16_start() + self.tile_occupancy(TileClass::Tile16)
    }

    /// The first chunk index of the 32-pixel tiles.
    pub open spec fn tile32_start(self) -> int {
        self.tile16_masked_start() + self.tile_occupancy(TileClass::Tile16Masked)
    }

    /// The first chunk index of the masked 32-pixel tiles.
    pub open spec fn tile32_masked_start(self) -> int {
        self.tile32_start() + self.tile_occupancy(TileClass::Tile32)
    }

    /// The first chunk index of the miscellaneous chunks.
    pub open spec fn misc_start(self) -> int {
        self.tile32_masked_start() + self.tile_occupancy(TileClass::Tile32Masked)
    }

    /// The first chunk index of a named category.
    pub open spec fn category_start(self, category: Category) -> int {
        match category {
            Category::Fonts => self.fonts_start(),
            Category::FontsMasked => self.fonts_masked_start(),
            Category::Bitmaps => self.bitmaps_start(),
            Category::BitmapsMasked => self.bitmaps_masked_start(),
            Category::Sprites => self.sprites_start(),
        }
    }

    /// Whether every chunk index of the named categories is a 32-bit number.
    pub open spec fn named_fits(self) -> bool {
        HEADER_CHUNK_COUNT + self.named_count() <= u32::MAX
    }

    /// Whether every chunk index of the layout is a 32-bit number.
    pub open spec fn fits(self) -> bool {
        self.num_chunks() <= u32::MAX
    }

    /// The named category that chunk index `chunk` falls into, if any.
    pub open spec fn category_at(self, chunk: int) -> Option<Category> {
        if chunk < self.fonts_start() {
            None
        } else if chunk < self.fonts_masked_start() {
            Some(Category::Fonts)
        } else if chunk < self.bitmaps_start() {
            Some(Category::FontsMasked)
        } else if chunk < self.bitmaps_masked_start() {
            Some(Category::Bitmaps)
        } else if chunk < self.sprites_start() {
            Some(Category::BitmapsMasked)
        } else if chunk < self.tile8_start() {
            Some(Category::Sprites)
        } else {
            None
        }
    }

    /// The declared name of the asset at chunk index `chunk`. Only the five
    /// named categories have one; header, tile and miscellaneous chunks do not.
    pub open spec fn chunk_name(self, chunk: int) -> Option<Seq<char>> {
        match self.category_at(chunk) {
            Some(category) => Some(self.list(category)[chunk - self.category_start(category)]),
            None => None,
        }
    }

    /// The name at chunk index `chunk` with the tag of its category in front.
    pub open spec fn tagged_chunk_name(self, chunk: int) -> Option<Seq<char>> {
        match self.category_at(chunk) {
            Some(category) => Some(
                category_tag(category) + self.list(category)[chunk - self.category_start(
                    category,
                )],
            ),
            None => None,
        }
    }

    /// The inventory with one more name at the end of a category.
    pub open spec fn push_entry(self, category: Category, name: Seq<char>) -> Inventory {
        match category {
            Category::Fonts => Inventory { fonts: self.fonts.push(name), ..self },
            Category::FontsMasked => Inventory {
                fonts_masked: self.fonts_masked.push(name),
                ..self
            },
            Category::Bitmaps => Inventory { bitmaps: self.bitmaps.push(name), ..self },
            Category::BitmapsMasked => Inventory {
                bitmaps_masked: self.bitmaps_masked.push(name),
                ..self
            },
            Category::Sprites => Inventory { sprites: self.sprites.push(name), ..self },
        }
    }

    /// The inventory with the count of one tile class replaced.
    pub open spec fn set_tile_count(self, class: TileClass, count: u32) -> Inventory {
        match class {
            TileClass::Tile8 => Inventory { tile8_count: count, ..self },
            TileClass::Tile8Masked => Inventory { tile8_masked_count: count, ..self },
            TileClass::Tile16 => Inventory { tile16_count: count, ..self },
            TileClass::Tile16Masked => Inventory { tile16_masked_count: count, ..self },
            TileClass::Tile32 => Inventory { tile32_count: count, ..self },
            TileClass::Tile32Masked => Inventory { tile32_masked_count: count, ..self },
        }
    }

    /// The inventory with one more miscellaneous chunk at the end.
    pub open spec fn push_misc(self, chunk: MiscChunkView) -> Inventory {
        Inventory { misc_chunks: self.misc_chunks.push(chunk), ..self }
    }

    /// The chunk index that the next name declared in `category` will get.
    /// A lump that opens now starts there.
    pub open spec fn next_index(self, category: Category) -> int {
        self.category_start(category) + self.list(category).len()
    }

    /// The inventory after a lump of `category` that started at `start_chunk`
    /// has closed: the lump is recorded, and it ends at the category's last
    /// chunk, which is the category's start plus its length minus one.
    pub open spec fn close_lump(self, category: Category, name: Seq<char>, start_chunk: int)
        -> Inventory {
        Inventory {
            lumps: self.lumps.push(
                LumpView {
                    name,
                    start_chunk: start_chunk as u32,
                    end_chunk: (self.category_start(category) + self.list(category).len()
                        - 1) as u32,
                },
            ),
            ..self
        }
    }

    /// Whether every recorded lump lies in the span of the named categories:
    /// it starts behind the header chunks, ends before the tiles, and its end
    /// is not more than one chunk before its start, where an empty lump ends.
    pub open spec fn lumps_in_range(self) -> bool {
        forall|i: int|
            0 <= i < self.lumps.len() ==> HEADER_CHUNK_COUNT <= (#[trigger] self.lumps[i]).start_chunk
                <= self.lumps[i].end_chunk + 1 <= self.tile8_start()
    }

    /// The chunk index of the first demo among the miscellaneous chunks.
    pub open spec fn demo_start(self) -> Option<int> {
        first_demo(self.misc_chunks, self.misc_start())
    }
}

/// The chunk index of the first demo in `chunks`, whose first chunk has the
/// index `start`.
pub open spec fn first_demo(chunks: Seq<MiscChunkView>, start: int) -> Option<int>
    decreases chunks.len(),
{
    if chunks.len() == 0 {
        None
    } else if chunks[0] is Demo {
        Some(start)
    } else {
        first_demo(chunks.drop_first(), start + 1)
    }
}

/// The tag that a downstream engine puts in front of a name of the category.
pub open spec fn category_tag(category: Category) -> Seq<char> {
    match category {
        Category::Fonts => "FON_"@,
        Category::FontsMasked => "FONM_"@,
        Category::Bitmaps => "PIC_"@,
        Category::BitmapsMasked => "PICM_"@,
        Category::Sprites => "SPR_"@,
    }
}

/// The total chunk count is what summing category by category gives: the
/// start of the last category plus its length. No category, empty or not, is
/// counted twice or left out.
pub proof fn lemma_total_is_sum_of_categories(inventory: Inventory)
    ensures
        inventory.num_chunks() == inventory.misc_start() + inventory.misc_chunks.len(),
        inventory.num_chunks() == HEADER_CHUNK_COUNT + inventory.named_count()
            + inventory.tile_occupancy(TileClass::Tile8) + inventory.tile_occupancy(
            TileClass::Tile8Masked,
        ) + inventory.tile_occupancy(TileClass::Tile16) + inventory.tile_occupancy(
            TileClass::Tile16Masked,
        ) + inventory.tile_occupancy(TileClass::Tile32) + inventory.tile_occupancy(
            TileClass::Tile32Masked,
        ) + inventory.misc_chunks.len(),
{
}

/// Each category starts where the one before it ends: at that one's start plus
/// its occupancy. The starts therefore never decrease along the fixed order.
pub proof fn lemma_starts_are_cumulative(inventory: Inventory)
    ensures
        inventory.fonts_start() == HEADER_CHUNK_COUNT,
        inventory.fonts_masked_start() == inventory.fonts_start() + inventory.fonts.len(),
        inventory.bitmaps_start() == inventory.fonts_masked_start()
            + inventory.fonts_masked.len(),
        inventory.bitmaps_masked_start() == inventory.bitmaps_start() + inventory.bitmaps.len(),
        inventory.sprites_start() == inventory.bitmaps_masked_start()
            + inventory.bitmaps_masked.len(),
        inventory.tile8_start() == inventory.sprites_start() + inventory.sprites.len(),
        inventory.tile8_masked_start() == inventory.tile8_start() + inventory.tile_occupancy(
            TileClass::Tile8,
        ),
        inventory.tile16_start() == inventory.tile8_masked_start() + inventory.tile_occupancy(
            TileClass::Tile8Masked,
        ),
        inventory.tile16_masked_start() == inventory.tile16_start() + inventory.tile16_count,
        inventory.tile32_start() == inventory.tile16_masked_start()
            + inventory.tile16_masked_count,
        inventory.tile32_masked_start() == inventory.tile32_start() + inventory.tile32_count,
        inventory.misc_start() == inventory.tile32_masked_start()
            + inventory.tile32_masked_count,
        0 <= inventory.tile_occupancy(TileClass::Tile8) <= 1,
        0 <= inventory.tile_occupancy(TileClass::Tile8Masked) <= 1,
        HEADER_CHUNK_COUNT <= inventory.fonts_start() <= inventory.fonts_masked_start()
            <= inventory.bitmaps_start() <= inventory.bitmaps_masked_start()
            <= inventory.sprites_start() <= inventory.tile8_start()
            <= inventory.tile8_masked_start() <= inventory.tile16_start()
            <= inventory.tile16_masked_start() <= inventory.tile32_start()
            <= inventory.tile32_masked_start() <= inventory.misc_start()
            <= inventory.num_chunks(),
{
}

/// A lump that closes is recorded behind the lumps that are there, under its
/// name and with the start it was opened at. Its end is the category's start
/// plus the category's length at that moment, minus one: it spans the names
/// that were declared since it was opened. Nothing else changes.
pub proof fn lemma_closed_lump(
    inventory: Inventory,
    category: Category,
    name: Seq<char>,
    start_chunk: int,
)
    requires
        inventory.named_fits(),
        HEADER_CHUNK_COUNT <= start_chunk <= inventory.next_index(category),
    ensures
        ({
            let closed = inventory.close_lump(category, name, start_chunk);
            let lump = closed.lumps.last();
            &&& closed.lumps.len() == inventory.lumps.len() + 1
            &&& closed.lumps.drop_last() == inventory.lumps
            &&& lump.name == name
            &&& lump.start_chunk == start_chunk
            &&& lump.end_chunk == inventory.category_start(category) + inventory.list(
                category,
            ).len() - 1
            &&& lump.end_chunk + 1 - lump.start_chunk == inventory.next_index(category)
                - start_chunk
            &&& closed == (Inventory { lumps: closed.lumps, ..inventory })
            &&& inventory.lumps_in_range() ==> closed.lumps_in_range()
        }),
{
    let closed = inventory.close_lump(category, name, start_chunk);
    assert(closed.lumps.drop_last() =~= inventory.lumps);
}

/// The name lookup finds every declared name at its chunk index: the `i`-th
/// name of a category sits at the category's start plus `i`.
pub proof fn lemma_chunk_name_of_entry(inventory: Inventory, category: Category, i: int)
    requires
        0 <= i < inventory.list(category).len(),
    ensures
        inventory.category_at(inventory.category_start(category) + i) == Some(category),
        inventory.chunk_name(inventory.category_start(category) + i) == Some(
            inventory.list(category)[i],
        ),
        inventory.tagged_chunk_name(inventory.category_start(category) + i) == Some(
            category_tag(category) + inventory.list(category)[i],
        ),
{
}

/// The name lookup finds nothing outside the five named categories: not among
/// the header chunks, and not in the span of the tiles and miscellaneous
/// chunks or behind it.
pub proof fn lemma_chunk_name_outside_named(inventory: Inventory, chunk: int)
    requires
        chunk < HEADER_CHUNK_COUNT || inventory.tile8_start() <= chunk,
    ensures
        inventory.chunk_name(chunk) is None,
        inventory.tagged_chunk_name(chunk) is None,
{
}

/// The name lookup answers exactly on the span of the named categories, and
/// what it answers is a declared name of the category that the index lies in.
pub proof fn lemma_chunk_name_inside_named(inventory: Inventory, chunk: int)
    requires
        HEADER_CHUNK_COUNT <= chunk < inventory.tile8_start(),
    ensures
        inventory.category_at(chunk) matches Some(category) && {
            let i = chunk - inventory.category_start(category);
            &&& 0 <= i < inventory.list(category).len()
            &&& inventory.chunk_name(chunk) == Some(inventory.list(category)[i])
        },
{
}

} // verus!
