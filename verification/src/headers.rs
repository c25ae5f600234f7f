//! The asset inventory that a script declares, and its chunk layout.

use vstd::prelude::*;
use crate::layout::{
    category_tag, first_demo, Category, Inventory, LumpView, MiscChunkView, MiscKind, TileClass,
    HEADER_CHUNK_COUNT,
};

verus! {

/// The mathematical content of every element of `items`, in order.
pub open spec fn views<T: View>(items: Seq<T>) -> Seq<T::V> {
    Seq::new(items.len(), |i: int| items[i]@)
}

/// The mathematical content of an optional string.
pub open spec fn option_view(text: Option<String>) -> Option<Seq<char>> {
    match text {
        Some(s) => Some(s@),
        None => None,
    }
}

/// A named, contiguous range of chunk indices inside one category.
#[derive(Debug, PartialEq)]
pub struct Lump {
    pub name: String,
    /// The index of the first chunk of the lump.
    pub start_chunk: u32,
    /// The index of the last chunk of the lump; one less than `start_chunk`
    /// when the lump is empty.
    pub end_chunk: u32,
}

impl View for Lump {
    type V = LumpView;

    open spec fn view(&self) -> LumpView {
        LumpView { name: self.name@, start_chunk: self.start_chunk, end_chunk: self.end_chunk }
    }
}

/// A chunk behind the tiles, outside the named categories.
#[derive(Debug, PartialEq)]
pub enum MiscChunk {
    /// A plain chunk.
    Chunk(String),
    /// The text of an article.
    Article(String),
    /// A text-mode screen.
    B8000Text(String),
    /// A terminator script.
    Terminator(String),
    /// A recorded demo, with its number.
    Demo(u32),
}

impl View for MiscChunk {
    type V = MiscChunkView;

    open spec fn view(&self) -> MiscChunkView {
        match *self {
            MiscChunk::Chunk(name) => MiscChunkView::Chunk(name@),
            MiscChunk::Article(name) => MiscChunkView::Article(name@),
            MiscChunk::B8000Text(name) => MiscChunkView::B8000Text(name@),
            MiscChunk::Terminator(name) => MiscChunkView::Terminator(name@),
            MiscChunk::Demo(number) => MiscChunkView::Demo(number),
        }
    }
}

impl MiscChunk {
    /// The named chunk of the given kind.
    pub fn named(kind: MiscKind, name: String) -> (chunk: MiscChunk)
        ensures
            chunk@ == MiscChunkView::named(kind, name@),
    {
        match kind {
            MiscKind::Chunk => MiscChunk::Chunk(name),
            MiscKind::Article => MiscChunk::Article(name),
            MiscKind::B8000Text => MiscChunk::B8000Text(name),
            MiscKind::Terminator => MiscChunk::Terminator(name),
        }
    }
}

/// Everything that a script declares.
///
/// The three header chunks are not stored: every archive has them.
#[derive(Debug, PartialEq)]
pub struct GfxHeaders {
    /// The file extension of the game, used in the output for decoration.
    pub extension: Option<String>,
    pub fonts: Vec<String>,
    pub fonts_masked: Vec<String>,
    pub bitmaps: Vec<String>,
    pub bitmaps_masked: Vec<String>,
    pub sprites: Vec<String>,
    pub tile8_count: u32,
    pub tile8_masked_count: u32,
    pub tile16_count: u32,
    pub tile16_masked_count: u32,
    pub tile32_count: u32,
    pub tile32_masked_count: u32,
    pub misc_chunks: Vec<MiscChunk>,
    pub lumps: Vec<Lump>,
}

impl View for GfxHeaders {
    type V = Inventory;

    open spec fn view(&self) -> Inventory {
        Inventory {
            extension: option_view(self.extension),
            fonts: views(self.fonts@),
            fonts_masked: views(self.fonts_masked@),
            bitmaps: views(self.bitmaps@),
            bitmaps_masked: views(self.bitmaps_masked@),
            sprites: views(self.sprites@),
            tile8_count: self.tile8_count,
            tile8_masked_count: self.tile8_masked_count,
            tile16_count: self.tile16_count,
            tile16_masked_count: self.tile16_masked_count,
            tile32_count: self.tile32_count,
            tile32_masked_count: self.tile32_masked_count,
            misc_chunks: views(self.misc_chunks@),
            lumps: views(self.lumps@),
        }
    }
}

impl Default for GfxHeaders {
    fn default() -> (headers: GfxHeaders)
        ensures
            headers@ == Inventory::empty(),
    {
        GfxHeaders::new()
    }
}

impl GfxHeaders {
    /// The inventory that declares nothing.
    pub fn new() -> (headers: GfxHeaders)
        ensures
            headers@ == Inventory::empty(),
    {
        let headers = GfxHeaders {
            extension: None,
            fonts: Vec::new(),
            fonts_masked: Vec::new(),
            bitmaps: Vec::new(),
            bitmaps_masked: Vec::new(),
            sprites: Vec::new(),
            tile8_count: 0,
            tile8_masked_count: 0,
            tile16_count: 0,
            tile16_masked_count: 0,
            tile32_count: 0,
            tile32_masked_count: 0,
            misc_chunks: Vec::new(),
            lumps: Vec::new(),
        };
        assert(headers@.fonts =~= Seq::empty());
        assert(headers@.fonts_masked =~= Seq::empty());
        assert(headers@.bitmaps =~= Seq::empty());
        assert(headers@.bitmaps_masked =~= Seq::empty());
        assert(headers@.sprites =~= Seq::empty());
        assert(headers@.misc_chunks =~= Seq::empty());
        assert(headers@.lumps =~= Seq::empty());
        headers
    }

    /// The names declared in a category.
    pub fn list(&self, category: Category) -> (names: &Vec<String>)
        ensures
            views(names@) == self@.list(category),
    {
        match category {
            Category::Fonts => &self.fonts,
            Category::FontsMasked => &self.fonts_masked,
            Category::Bitmaps => &self.bitmaps,
            Category::BitmapsMasked => &self.bitmaps_masked,
            Category::Sprites => &self.sprites,
        }
    }

    /// The declared count of a tile class.
    pub fn tile_count(&self, class: TileClass) -> (count: u32)
        ensures
            count == self@.tile_count(class),
    {
        match class {
            TileClass::Tile8 => self.tile8_count,
            TileClass::Tile8Masked => self.tile8_masked_count,
            TileClass::Tile16 => self.tile16_count,
            TileClass::Tile16Masked => self.tile16_masked_count,
            TileClass::Tile32 => self.tile32_count,
            TileClass::Tile32Masked => self.tile32_masked_count,
        }
    }

    /// Whether the whole layout fits the 32-bit chunk index space. The
    /// functions that return chunk indices ask for it.
    pub fn layout_fits(&self) -> (fits: bool)
        ensures
            fits == self@.fits(),
    {
        let limit: u64 = 0xffff_ffff;
        let mut total: u64 = 3;
        if !add_within(&mut total, self.fonts.len(), limit) {
            return false;
        }
        if !add_within(&mut total, self.fonts_masked.len(), limit) {
            return false;
        }
        if !add_within(&mut total, self.bitmaps.len(), limit) {
            return false;
        }
        if !add_within(&mut total, self.bitmaps_masked.len(), limit) {
            return false;
        }
        if !add_within(&mut total, self.sprites.len(), limit) {
            return false;
        }
        let tile8: usize = if self.tile8_count != 0 {
            1
        } else {
            0
        };
        if !add_within(&mut total, tile8, limit) {
            return false;
        }
        let tile8_masked: usize = if self.tile8_masked_count != 0 {
            1
        } else {
            0
        };
        if !add_within(&mut total, tile8_masked, limit) {
            return false;
        }
        if !add_within(&mut total, self.tile16_count as usize, limit) {
            return false;
        }
        if !add_within(&mut total, self.tile16_masked_count as usize, limit) {
            return false;
        }
        if !add_within(&mut total, self.tile32_count as usize, limit) {
            return false;
        }
        if !add_within(&mut total, self.tile32_masked_count as usize, limit) {
            return false;
        }
        if !add_within(&mut total, self.misc_chunks.len(), limit) {
            return false;
        }
        true
    }

    /// The total number of chunks.
    pub fn num_chunks(&self) -> (count: u32)
        requires
            self@.fits(),
        ensures
            count == self@.num_chunks(),
    {
        self.misc_start() + self.misc_chunks.len() as u32
    }

    /// The first chunk index of the fonts: the one behind the header chunks.
    pub fn fonts_start(&self) -> (start: u32)
        ensures
            start == self@.fonts_start(),
    {
        HEADER_CHUNK_COUNT
    }

    /// The first chunk index of the masked fonts.
    pub fn fonts_masked_start(&self) -> (start: u32)
        requires
            self@.fonts_masked_start() <= u32::MAX,
        ensures
            start == self@.fonts_masked_start(),
    {
        self.fonts_start() + self.fonts.len() as u32
    }

    /// The first chunk index of the bitmaps.
    pub fn bitmaps_start(&self) -> (start: u32)
        requires
            self@.bitmaps_start() <= u32::MAX,
        ensures
            start == self@.bitmaps_start(),
    {
        self.fonts_masked_start() + self.fonts_masked.len() as u32
    }

    /// The first chunk index of the masked bitmaps.
    pub fn bitmaps_masked_start(&self) -> (start: u32)
        requires
            self@.bitmaps_masked_start() <= u32::MAX,
        ensures
            start == self@.bitmaps_masked_start(),
    {
        self.bitmaps_start() + self.bitmaps.len() as u32
    }

    /// The first chunk index of the sprites.
    pub fn sprites_start(&self) -> (start: u32)
        requires
            self@.sprites_start() <= u32::MAX,
        ensures
            start == self@.sprites_start(),
    {
        self.bitmaps_masked_start() + self.bitmaps_masked.len() as u32
    }

    /// The first chunk index of the 8-pixel tiles.
    pub fn tile8_start(&self) -> (start: u32)
        requires
            self@.tile8_start() <= u32::MAX,
        ensures
            start == self@.tile8_start(),
    {
        self.sprites_start() + self.sprites.len() as u32
    }

    /// The first chunk index of the masked 8-pixel tiles.
    pub fn tile8_masked_start(&self) -> (start: u32)
        requires
            self@.tile8_masked_start() <= u32::MAX,
        ensures
            start == self@.tile8_masked_start(),
    {
        self.tile8_start() + if self.tile8_count != 0 {
            1
        } else {
            0
        }
    }

    /// The first chunk index of the 16-pixel tiles.
    pub fn tile16_start(&self) -> (start: u32)
        requires
            self@.tile16_start() <= u32::MAX,
        ensures
            start == self@.tile16_start(),
    {
        self.tile8_masked_start() + if self.tile8_masked_count != 0 {
            1
        } else {
            0
        }
    }

    /// The first chunk index of the masked 16-pixel tiles.
    pub fn tile16_masked_start(&self) -> (start: u32)
        requires
            self@.tile16_masked_start() <= u32::MAX,
        ensures
            start == self@.tile16_masked_start(),
    {
        self.tile16_start() + self.tile16_count
    }

    /// The first chunk index of the 32-pixel tiles.
    pub fn tile32_start(&self) -> (start: u32)
        requires
            self@.tile32_start() <= u32::MAX,
        ensures
            start == self@.tile32_start(),
    {
        self.tile16_masked_start() + self.tile16_masked_count
    }

    /// The first chunk index of the masked 32-pixel tiles.
    pub fn tile32_masked_start(&self) -> (start: u32)
        requires
            self@.tile32_masked_start() <= u32::MAX,
        ensures
            start == self@.tile32_masked_start(),
    {
        self.tile32_start() + self.tile32_count
    }

    /// The first chunk index of the miscellaneous chunks.
    pub fn misc_start(&self) -> (start: u32)
        requires
            self@.misc_start() <= u32::MAX,
        ensures
            start == self@.misc_start(),
    {
        self.tile32_masked_start() + self.tile32_masked_count
    }

    /// The first chunk index of a named category.
    pub fn category_start(&self, category: Category) -> (start: u32)
        requires
            self@.category_start(category) <= u32::MAX,
        ensures
            start == self@.category_start(category),
    {
        match category {
            Category::Fonts => self.fonts_start(),
            Category::FontsMasked => self.fonts_masked_start(),
            Category::Bitmaps => self.bitmaps_start(),
            Category::BitmapsMasked => self.bitmaps_masked_start(),
            Category::Sprites => self.sprites_start(),
        }
    }

    /// The chunk index that the next name declared in `category` will get.
    pub fn next_index(&self, category: Category) -> (index: u32)
        requires
            self@.next_index(category) <= u32::MAX,
        ensures
            index == self@.next_index(category),
    {
        self.category_start(category) + self.list(category).len() as u32
    }

    /// Whether the named categories hold so few assets that one more still
    /// gets a 32-bit chunk index.
    pub fn has_room(&self) -> (room: bool)
        ensures
            room == (HEADER_CHUNK_COUNT + self@.named_count() < u32::MAX),
    {
        let limit: u64 = 0xffff_fffe;
        let mut total: u64 = 3;
        if !add_within(&mut total, self.fonts.len(), limit) {
            return false;
        }
        if !add_within(&mut total, self.fonts_masked.len(), limit) {
            return false;
        }
        if !add_within(&mut total, self.bitmaps.len(), limit) {
            return false;
        }
        if !add_within(&mut total, self.bitmaps_masked.len(), limit) {
            return false;
        }
        if !add_within(&mut total, self.sprites.len(), limit) {
            return false;
        }
        true
    }

    /// Finds the named category that a chunk index falls into, and the place
    /// of the chunk in that category's list.
    fn locate(&self, chunk: u32) -> (place: Option<(Category, usize)>)
        ensures
            match place {
                Some((category, i)) => {
                    &&& self@.category_at(chunk as int) == Some(category)
                    &&& i == chunk - self@.category_start(category)
                    &&& i < self@.list(category).len()
                },
                None => self@.category_at(chunk as int) is None,
            },
    {
        if chunk < HEADER_CHUNK_COUNT {
            return None;
        }
        let mut i: usize = (chunk - HEADER_CHUNK_COUNT) as usize;
        if i < self.fonts.len() {
            return Some((Category::Fonts, i));
        }
        i -= self.fonts.len();
        if i < self.fonts_masked.len() {
            return Some((Category::FontsMasked, i));
        }
        i -= self.fonts_masked.len();
        if i < self.bitmaps.len() {
            return Some((Category::Bitmaps, i));
        }
        i -= self.bitmaps.len();
        if i < self.bitmaps_masked.len() {
            return Some((Category::BitmapsMasked, i));
        }
        i -= self.bitmaps_masked.len();
        if i < self.sprites.len() {
            return Some((Category::Sprites, i));
        }
        None
    }

    /// The declared name of the asset at a chunk index. Only fonts, masked
    /// fonts, bitmaps, masked bitmaps and sprites have one: the answer is
    /// `None` for header, tile and miscellaneous chunks and behind the end.
    pub fn chunk_name(&self, chunk: u32) -> (name: Option<String>)
        ensures
            option_view(name) == self@.chunk_name(chunk as int),
    {
        match self.locate(chunk) {
            Some((category, i)) => {
                let names = self.list(category);
                Some(names[i].clone())
            },
            None => None,
        }
    }

    /// The name at a chunk index with the tag of its category in front:
    /// `FON_`, `FONM_`, `PIC_`, `PICM_` or `SPR_`.
    pub fn omnispeak_chunk_name(&self, chunk: u32) -> (name: Option<String>)
        ensures
            option_view(name) == self@.tagged_chunk_name(chunk as int),
    {
        match self.locate(chunk) {
            Some((category, i)) => {
                let names = self.list(category);
                let mut tagged = String::from_str(tag_of(category));
                tagged.append(names[i].as_str());
                Some(tagged)
            },
            None => None,
        }
    }

    /// Sets the file extension of the game.
    pub fn set_extension(&mut self, extension: String)
        ensures
            final(self)@ == (Inventory { extension: Some(extension@), ..old(self)@ }),
    {
        self.extension = Some(extension);
    }

    /// Declares one more name at the end of a category.
    pub fn push_entry(&mut self, category: Category, name: String)
        ensures
            final(self)@ == old(self)@.push_entry(category, name@),
    {
        match category {
            Category::Fonts => {
                self.fonts.push(name);
                assert(self@.fonts =~= old(self)@.fonts.push(name@));
            },
            Category::FontsMasked => {
                self.fonts_masked.push(name);
                assert(self@.fonts_masked =~= old(self)@.fonts_masked.push(name@));
            },
            Category::Bitmaps => {
                self.bitmaps.push(name);
                assert(self@.bitmaps =~= old(self)@.bitmaps.push(name@));
            },
            Category::BitmapsMasked => {
                self.bitmaps_masked.push(name);
                assert(self@.bitmaps_masked =~= old(self)@.bitmaps_masked.push(name@));
            },
            Category::Sprites => {
                self.sprites.push(name);
                assert(self@.sprites =~= old(self)@.sprites.push(name@));
            },
        }
    }

    /// Replaces the count of one tile class.
    pub fn set_tile_count(&mut self, class: TileClass, count: u32)
        ensures
            final(self)@ == old(self)@.set_tile_count(class, count),
    {
        match class {
            TileClass::Tile8 => {
                self.tile8_count = count;
            },
            TileClass::Tile8Masked => {
                self.tile8_masked_count = count;
            },
            TileClass::Tile16 => {
                self.tile16_count = count;
            },
            TileClass::Tile16Masked => {
                self.tile16_masked_count = count;
            },
            TileClass::Tile32 => {
                self.tile32_count = count;
            },
            TileClass::Tile32Masked => {
                self.tile32_masked_count = count;
            },
        }
    }

    /// Declares one more miscellaneous chunk.
    pub fn push_misc(&mut self, chunk: MiscChunk)
        ensures
            final(self)@ == old(self)@.push_misc(chunk@),
    {
        self.misc_chunks.push(chunk);
        assert(self@.misc_chunks =~= old(self)@.misc_chunks.push(chunk@));
    }

    /// Records a lump of `category` that was opened at `start_chunk` and
    /// closes now. Its last chunk is the last one that the category holds at
    /// this moment: the category's start plus its length minus one.
    pub fn close_lump(&mut self, category: Category, name: String, start_chunk: u32)
        requires
            old(self)@.next_index(category) <= u32::MAX,
        ensures
            final(self)@ == old(self)@.close_lump(category, name@, start_chunk as int),
            final(self)@.lumps.last().end_chunk == old(self)@.category_start(category) + old(
                self,
            )@.list(category).len() - 1,
    {
        let end_chunk = self.next_index(category) - 1;
        let lump = Lump { name, start_chunk, end_chunk };
        self.lumps.push(lump);
        assert(self@.lumps =~= old(self)@.lumps.push(lump@));
    }

    /// The chunk index of the first demo among the miscellaneous chunks.
    pub fn demo_start(&self) -> (start: Option<u32>)
        requires
            self@.fits(),
        ensures
            match start {
                Some(index) => self@.demo_start() == Some(index as int),
                None => self@.demo_start() is None,
            },
    {
        let first = self.misc_start();
        let mut i: usize = 0;
        assert(self@.misc_chunks.skip(0) =~= self@.misc_chunks);
        while i < self.misc_chunks.len()
            invariant
                0 <= i <= self.misc_chunks@.len(),
                first == self@.misc_start(),
                self@.fits(),
                self@.demo_start() == first_demo(
                    self@.misc_chunks.skip(i as int),
                    first + i,
                ),
            decreases self.misc_chunks@.len() - i,
        {
            let ghost rest = self@.misc_chunks.skip(i as int);
            assert(rest.drop_first() =~= self@.misc_chunks.skip(i + 1));
            assert(rest[0] == self.misc_chunks@[i as int]@);
            if let MiscChunk::Demo(_) = &self.misc_chunks[i] {
                return Some(first + i as u32);
            }
            i += 1;
        }
        None
    }
}

/// Adds `amount` to `total` when the sum stays within `limit`, and says
/// whether it did.
fn add_within(total: &mut u64, amount: usize, limit: u64) -> (within: bool)
    requires
        *old(total) <= limit <= u32::MAX,
    ensures
        within == (*old(total) + amount <= limit),
        within ==> *final(total) == *old(total) + amount,
        !within ==> *final(total) == *old(total),
{
    if amount as u64 <= limit - *total {
        *total = *total + amount as u64;
        true
    } else {
        false
    }
}

/// The tag of a category as text.
fn tag_of(category: Category) -> (tag: &'static str)
    ensures
        tag@ == category_tag(category),
{
    match category {
        Category::Fonts => "FON_",
        Category::FontsMasked => "FONM_",
        Category::Bitmaps => "PIC_",
        Category::BitmapsMasked => "PICM_",
        Category::Sprites => "SPR_",
    }
}

} // verus!
