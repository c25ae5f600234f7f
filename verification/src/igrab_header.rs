//! The C header and the assembly header that IGRAB wrote beside an archive.
//!
//! Both give every bitmap, masked bitmap and sprite its chunk number, then the
//! lumps, the count of every category and the first chunk of every category.
//! Fonts get no names of their own. IGRAB 0.4 also names the miscellaneous
//! chunks.

use vstd::prelude::*;
use crate::headers::{views, GfxHeaders, MiscChunk};
use crate::igrab::{IGrabOptions, IGrabVersion};
use crate::layout::{Category, Inventory, LumpView, MiscChunkView};
use crate::join::{lemma_join13, lemma_join14};
use crate::text::{
    concat_lines, decimal, number_line, optional_text, push_decimal, push_number_line,
};

verus! {

/// The suffix that marks the chunks of a category in a header.
pub open spec fn igrab_suffix(category: Category) -> Seq<char> {
    match category {
        Category::Fonts => "FON"@,
        Category::FontsMasked => "FONM"@,
        Category::Bitmaps => "PIC"@,
        Category::BitmapsMasked => "PICM"@,
        Category::Sprites => "SPR"@,
    }
}

/// The comment at the top of the C header. The time stamp, where there is
/// one, brings its own line end.
pub open spec fn igrab_banner(
    inventory: Inventory,
    version: IGrabVersion,
    timestamp: Option<Seq<char>>,
) -> Seq<char> {
    "//////////////////////////////////////\n//\n"@ + match inventory.extension {
        Some(extension) => "// Graphics .H file for "@ + extension + "\n"@,
        None => Seq::empty(),
    } + match timestamp {
        Some(time) => "// idGrab-ed on "@ + time,
        None => Seq::empty(),
    } + "// idGrab emulating IGRAB "@ + version.name()
        + "\n//\n//////////////////////////////////////\n\n"@
}

/// The lines of the chunks of a category in the C header, by their place in
/// the list. The first chunk of a category is written as the first of an
/// `enum` is.
pub open spec fn igrab_entries(inventory: Inventory, options: IGrabOptions, category: Category)
    -> spec_fn(int) -> Seq<char> {
    |i: int|
        options.chunk_line(
            inventory.list(category)[i],
            Some(igrab_suffix(category)),
            (inventory.category_start(category) + i) as u32,
            i == 0,
        )
}

/// Whether every chunk of a category can be laid out in the C header.
pub open spec fn igrab_entries_fit(inventory: Inventory, options: IGrabOptions, category: Category)
    -> bool {
    forall|i: int|
        0 <= i < inventory.list(category).len() ==> options.chunk_line_fits(
            #[trigger] inventory.list(category)[i],
            Some(igrab_suffix(category)),
            i == 0,
        )
}

/// The line of the miscellaneous chunk with the index `index` in the C
/// header of IGRAB 0.4.
pub open spec fn igrab_misc_line(options: IGrabOptions, chunk: MiscChunkView, index: int) -> Seq<
    char,
> {
    match chunk {
        MiscChunkView::Chunk(name) => options.chunk_line(name, None, index as u32, true),
        MiscChunkView::B8000Text(name) => options.chunk_line(name, None, index as u32, true),
        MiscChunkView::Article(name) => options.chunk_line(name, None, index as u32, true),
        MiscChunkView::Terminator(name) => options.chunk_line(name, None, index as u32, true),
        MiscChunkView::Demo(number) => "\t\tDEMO"@ + decimal(number as nat) + "="@ + decimal(
            index as nat,
        ) + ",\n"@,
    }
}

/// The lines of the miscellaneous chunks in the C header, by their place.
pub open spec fn igrab_misc_lines(inventory: Inventory, options: IGrabOptions) -> spec_fn(int) -> Seq<
    char,
> {
    |i: int| igrab_misc_line(options, inventory.misc_chunks[i], inventory.misc_start() + i)
}

/// The chunk numbers of the C header: an `enum` for IGRAB 0.4, which also
/// holds the miscellaneous chunks, and a list of `#define` for IGRAB 0.24.
pub open spec fn igrab_chunks(inventory: Inventory, options: IGrabOptions) -> Seq<char> {
    let named = concat_lines(
        inventory.bitmaps.len(),
        igrab_entries(inventory, options, Category::Bitmaps),
    ) + "\n"@ + concat_lines(
        inventory.bitmaps_masked.len(),
        igrab_entries(inventory, options, Category::BitmapsMasked),
    ) + "\n"@ + concat_lines(
        inventory.sprites.len(),
        igrab_entries(inventory, options, Category::Sprites),
    );
    match options.version {
        IGrabVersion::ZeroPointFour => "typedef enum {\n"@ + named + concat_lines(
            inventory.misc_chunks.len(),
            igrab_misc_lines(inventory, options),
        ) + "\t\tENUMEND\n\t     } graphicnums;\n\n"@,
        IGrabVersion::ZeroPointTwoFour => named,
    }
}

/// The two lines of every lump in the C header, by the place of the lump.
pub open spec fn igrab_lump_lines(lumps: Seq<LumpView>) -> spec_fn(int) -> Seq<char> {
    |i: int|
        "#define "@ + lumps[i].name + "_LUMP_START "@ + decimal(lumps[i].start_chunk as nat)
            + "\n#define "@ + lumps[i].name + "_LUMP_END "@ + decimal(lumps[i].end_chunk as nat)
            + "\n"@
}

/// The count of every category in the C header.
pub open spec fn igrab_counts(inventory: Inventory) -> Seq<char> {
    "//\n// Amount of each data item\n//\n"@ + number_line(
        "#define NUMCHUNKS    "@,
        inventory.num_chunks() as nat,
    ) + number_line("#define NUMFONT      "@, inventory.fonts.len()) + number_line(
        "#define NUMFONTM     "@,
        inventory.fonts_masked.len(),
    ) + number_line("#define NUMPICS      "@, inventory.bitmaps.len()) + number_line(
        "#define NUMPICM      "@,
        inventory.bitmaps_masked.len(),
    ) + number_line("#define NUMSPRITES   "@, inventory.sprites.len()) + number_line(
        "#define NUMTILE8     "@,
        inventory.tile8_count as nat,
    ) + number_line("#define NUMTILE8M    "@, inventory.tile8_masked_count as nat)
        + number_line("#define NUMTILE16    "@, inventory.tile16_count as nat) + number_line(
        "#define NUMTILE16M   "@,
        inventory.tile16_masked_count as nat,
    ) + number_line("#define NUMTILE32    "@, inventory.tile32_count as nat) + number_line(
        "#define NUMTILE32M   "@,
        inventory.tile32_masked_count as nat,
    )
}

/// The first chunk of every category in the C header, and the last lines.
pub open spec fn igrab_starts(inventory: Inventory) -> Seq<char> {
    "//\n// File offsets for data items\n//\n#define STRUCTPIC    0\n#define STRUCTPICM   1\n#define STRUCTSPRITE 2\n\n"@
        + number_line("#define STARTFONT    "@, inventory.fonts_start() as nat) + number_line(
        "#define STARTFONTM   "@,
        inventory.fonts_masked_start() as nat,
    ) + number_line("#define STARTPICS    "@, inventory.bitmaps_start() as nat) + number_line(
        "#define STARTPICM    "@,
        inventory.bitmaps_masked_start() as nat,
    ) + number_line("#define STARTSPRITES "@, inventory.sprites_start() as nat) + number_line(
        "#define STARTTILE8   "@,
        inventory.tile8_start() as nat,
    ) + number_line("#define STARTTILE8M  "@, inventory.tile8_masked_start() as nat)
        + number_line("#define STARTTILE16  "@, inventory.tile16_start() as nat) + number_line(
        "#define STARTTILE16M "@,
        inventory.tile16_masked_start() as nat,
    ) + number_line("#define STARTTILE32  "@, inventory.tile32_start() as nat) + number_line(
        "#define STARTTILE32M "@,
        inventory.tile32_masked_start() as nat,
    ) + number_line("#define STARTEXTERNS "@, inventory.misc_start() as nat)
        + "\n//\n// Thank you for using idGrab!\n//\n"@
}

/// The whole C header of an inventory.
pub open spec fn igrab_header(
    inventory: Inventory,
    options: IGrabOptions,
    timestamp: Option<Seq<char>>,
) -> Seq<char> {
    igrab_banner(inventory, options.version, timestamp) + igrab_chunks(inventory, options)
        + "//\n// Data LUMPs\n//\n"@ + concat_lines(
        inventory.lumps.len(),
        igrab_lump_lines(inventory.lumps),
    ) + igrab_counts(inventory) + igrab_starts(inventory)
}

/// Whether the C header of an inventory can be written: the layout fits 32
/// bits, and every name fits the column of the chunk numbers.
pub open spec fn igrab_header_fits(inventory: Inventory, options: IGrabOptions) -> bool {
    &&& inventory.fits()
    &&& igrab_entries_fit(inventory, options, Category::Bitmaps)
    &&& igrab_entries_fit(inventory, options, Category::BitmapsMasked)
    &&& igrab_entries_fit(inventory, options, Category::Sprites)
}

/// The suffix of a category as text.
pub fn suffix_of(category: Category) -> (suffix: &'static str)
    ensures
        suffix@ == igrab_suffix(category),
{
    match category {
        Category::Fonts => "FON",
        Category::FontsMasked => "FONM",
        Category::Bitmaps => "PIC",
        Category::BitmapsMasked => "PICM",
        Category::Sprites => "SPR",
    }
}

impl GfxHeaders {
    fn write_igrab_banner(&self, f: &mut String, version: IGrabVersion, timestamp: Option<&str>)
        ensures
            final(f)@ == old(f)@ + igrab_banner(self@, version, optional_text(timestamp)),
    {
        f.append("//////////////////////////////////////\n//\n");
        match &self.extension {
            Some(extension) => {
                f.append("// Graphics .H file for ");
                f.append(extension.as_str());
                f.append("\n");
            },
            None => {},
        }
        match timestamp {
            Some(time) => {
                f.append("// idGrab-ed on ");
                f.append(time);
            },
            None => {},
        }
        f.append("// idGrab emulating IGRAB ");
        f.append(version.as_str());
        f.append("\n//\n//////////////////////////////////////\n\n");
        assert(f@ =~= old(f)@ + igrab_banner(self@, version, optional_text(timestamp)));
    }

    /// Whether every chunk of a category can be laid out in the C header.
    fn igrab_entries_fit(&self, options: &IGrabOptions, category: Category) -> (fit: bool)
        ensures
            fit == igrab_entries_fit(self@, *options, category),
    {
        let names = self.list(category);
        let mut i: usize = 0;
        while i < names.len()
            invariant
                0 <= i <= names@.len(),
                views(names@) == self@.list(category),
                forall|k: int|
                    0 <= k < i ==> options.chunk_line_fits(
                        #[trigger] self@.list(category)[k],
                        Some(igrab_suffix(category)),
                        k == 0,
                    ),
            decreases names@.len() - i,
        {
            if !options.can_write_chunk_line(names[i].as_str(), Some(suffix_of(category)), i == 0) {
                assert(!options.chunk_line_fits(
                    self@.list(category)[i as int],
                    Some(igrab_suffix(category)),
                    i == 0,
                ));
                return false;
            }
            i += 1;
        }
        true
    }

    fn write_igrab_entries(&self, f: &mut String, options: &IGrabOptions, category: Category)
        requires
            self@.fits(),
            igrab_entries_fit(self@, *options, category),
        ensures
            final(f)@ == old(f)@ + concat_lines(
                self@.list(category).len(),
                igrab_entries(self@, *options, category),
            ),
    {
        let names = self.list(category);
        let first = self.category_start(category);
        let mut i: usize = 0;
        assert(f@ =~= old(f)@ + concat_lines(0, igrab_entries(self@, *options, category)));
        while i < names.len()
            invariant
                0 <= i <= names@.len(),
                self@.fits(),
                igrab_entries_fit(self@, *options, category),
                views(names@) == self@.list(category),
                first == self@.category_start(category),
                f@ == old(f)@ + concat_lines(i as nat, igrab_entries(self@, *options, category)),
            decreases names@.len() - i,
        {
            assert(options.chunk_line_fits(
                self@.list(category)[i as int],
                Some(igrab_suffix(category)),
                i == 0,
            ));
            options.write_chunk_line(
                f,
                names[i].as_str(),
                Some(suffix_of(category)),
                first + i as u32,
                i == 0,
            );
            i += 1;
            assert(f@ =~= old(f)@ + concat_lines(
                i as nat,
                igrab_entries(self@, *options, category),
            ));
        }
    }

    fn write_igrab_misc(&self, f: &mut String, options: &IGrabOptions)
        requires
            self@.fits(),
            options.version == IGrabVersion::ZeroPointFour,
        ensures
            final(f)@ == old(f)@ + concat_lines(
                self@.misc_chunks.len(),
                igrab_misc_lines(self@, *options),
            ),
    {
        let first = self.misc_start();
        let mut i: usize = 0;
        assert(f@ =~= old(f)@ + concat_lines(0, igrab_misc_lines(self@, *options)));
        while i < self.misc_chunks.len()
            invariant
                0 <= i <= self.misc_chunks@.len(),
                self@.fits(),
                options.version == IGrabVersion::ZeroPointFour,
                first == self@.misc_start(),
                f@ == old(f)@ + concat_lines(i as nat, igrab_misc_lines(self@, *options)),
            decreases self.misc_chunks@.len() - i,
        {
            let index = first + i as u32;
            let ghost before = f@;
            match &self.misc_chunks[i] {
                MiscChunk::Chunk(name) => {
                    options.write_chunk_line(f, name.as_str(), None, index, true);
                },
                MiscChunk::B8000Text(name) => {
                    options.write_chunk_line(f, name.as_str(), None, index, true);
                },
                MiscChunk::Article(name) => {
                    options.write_chunk_line(f, name.as_str(), None, index, true);
                },
                MiscChunk::Terminator(name) => {
                    options.write_chunk_line(f, name.as_str(), None, index, true);
                },
                MiscChunk::Demo(number) => {
                    f.append("\t\tDEMO");
                    push_decimal(f, *number as u64);
                    f.append("=");
                    push_decimal(f, index as u64);
                    f.append(",\n");
                },
            }
            assert(f@ =~= before + igrab_misc_lines(self@, *options)(i as int));
            i += 1;
            assert(f@ =~= old(f)@ + concat_lines(i as nat, igrab_misc_lines(self@, *options)));
        }
    }

    fn write_igrab_chunks(&self, f: &mut String, options: &IGrabOptions)
        requires
            igrab_header_fits(self@, *options),
        ensures
            final(f)@ == old(f)@ + igrab_chunks(self@, *options),
    {
        let enumerate = options.version == IGrabVersion::ZeroPointFour;
        if enumerate {
            f.append("typedef enum {\n");
        }
        self.write_igrab_entries(f, options, Category::Bitmaps);
        f.append("\n");
        self.write_igrab_entries(f, options, Category::BitmapsMasked);
        f.append("\n");
        self.write_igrab_entries(f, options, Category::Sprites);
        if enumerate {
            self.write_igrab_misc(f, options);
            f.append("\t\tENUMEND\n\t     } graphicnums;\n\n");
        }
        proof {
            let bitmaps = concat_lines(
                self@.bitmaps.len(),
                igrab_entries(self@, *options, Category::Bitmaps),
            );
            let bitmaps_masked = concat_lines(
                self@.bitmaps_masked.len(),
                igrab_entries(self@, *options, Category::BitmapsMasked),
            );
            let sprites = concat_lines(
                self@.sprites.len(),
                igrab_entries(self@, *options, Category::Sprites),
            );
            let misc = concat_lines(self@.misc_chunks.len(), igrab_misc_lines(self@, *options));
            if enumerate {
                lemma_join_enum(
                    old(f)@,
                    "typedef enum {\n"@,
                    bitmaps,
                    "\n"@,
                    bitmaps_masked,
                    sprites,
                    misc,
                    "\t\tENUMEND\n\t     } graphicnums;\n\n"@,
                );
            } else {
                lemma_join_defines(old(f)@, bitmaps, "\n"@, bitmaps_masked, sprites);
            }
        }
    }

    fn write_igrab_lumps(&self, f: &mut String)
        ensures
            final(f)@ == old(f)@ + concat_lines(
                self@.lumps.len(),
                igrab_lump_lines(self@.lumps),
            ),
    {
        let mut i: usize = 0;
        assert(f@ =~= old(f)@ + concat_lines(0, igrab_lump_lines(self@.lumps)));
        while i < self.lumps.len()
            invariant
                0 <= i <= self.lumps@.len(),
                f@ == old(f)@ + concat_lines(i as nat, igrab_lump_lines(self@.lumps)),
            decreases self.lumps@.len() - i,
        {
            let ghost before = f@;
            let lump = &self.lumps[i];
            f.append("#define ");
            f.append(lump.name.as_str());
            f.append("_LUMP_START ");
            push_decimal(f, lump.start_chunk as u64);
            f.append("\n#define ");
            f.append(lump.name.as_str());
            f.append("_LUMP_END ");
            push_decimal(f, lump.end_chunk as u64);
            f.append("\n");
            assert(f@ =~= before + igrab_lump_lines(self@.lumps)(i as int));
            i += 1;
            assert(f@ =~= old(f)@ + concat_lines(i as nat, igrab_lump_lines(self@.lumps)));
        }
    }

    fn write_igrab_counts(&self, f: &mut String)
        requires
            self@.fits(),
        ensures
            final(f)@ == old(f)@ + igrab_counts(self@),
    {
        f.append("//\n// Amount of each data item\n//\n");
        push_number_line(f, "#define NUMCHUNKS    ", self.num_chunks() as u64);
        push_number_line(f, "#define NUMFONT      ", self.fonts.len() as u64);
        push_number_line(f, "#define NUMFONTM     ", self.fonts_masked.len() as u64);
        push_number_line(f, "#define NUMPICS      ", self.bitmaps.len() as u64);
        push_number_line(f, "#define NUMPICM      ", self.bitmaps_masked.len() as u64);
        push_number_line(f, "#define NUMSPRITES   ", self.sprites.len() as u64);
        push_number_line(f, "#define NUMTILE8     ", self.tile8_count as u64);
        push_number_line(f, "#define NUMTILE8M    ", self.tile8_masked_count as u64);
        push_number_line(f, "#define NUMTILE16    ", self.tile16_count as u64);
        push_number_line(f, "#define NUMTILE16M   ", self.tile16_masked_count as u64);
        push_number_line(f, "#define NUMTILE32    ", self.tile32_count as u64);
        push_number_line(f, "#define NUMTILE32M   ", self.tile32_masked_count as u64);
        proof {
            lemma_join13(
                old(f)@,
                "//\n// Amount of each data item\n//\n"@,
                number_line("#define NUMCHUNKS    "@, self@.num_chunks() as nat),
                number_line("#define NUMFONT      "@, self@.fonts.len()),
                number_line("#define NUMFONTM     "@, self@.fonts_masked.len()),
                number_line("#define NUMPICS      "@, self@.bitmaps.len()),
                number_line("#define NUMPICM      "@, self@.bitmaps_masked.len()),
                number_line("#define NUMSPRITES   "@, self@.sprites.len()),
                number_line("#define NUMTILE8     "@, self.tile8_count as nat),
                number_line("#define NUMTILE8M    "@, self.tile8_masked_count as nat),
                number_line("#define NUMTILE16    "@, self.tile16_count as nat),
                number_line("#define NUMTILE16M   "@, self.tile16_masked_count as nat),
                number_line("#define NUMTILE32    "@, self.tile32_count as nat),
                number_line("#define NUMTILE32M   "@, self.tile32_masked_count as nat),
            );
        }
    }

    fn write_igrab_starts(&self, f: &mut String)
        requires
            self@.fits(),
        ensures
            final(f)@ == old(f)@ + igrab_starts(self@),
    {
        f.append(
            "//\n// File offsets for data items\n//\n#define STRUCTPIC    0\n#define STRUCTPICM   1\n#define STRUCTSPRITE 2\n\n",
        );
        push_number_line(f, "#define STARTFONT    ", self.fonts_start() as u64);
        push_number_line(f, "#define STARTFONTM   ", self.fonts_masked_start() as u64);
        push_number_line(f, "#define STARTPICS    ", self.bitmaps_start() as u64);
        push_number_line(f, "#define STARTPICM    ", self.bitmaps_masked_start() as u64);
        push_number_line(f, "#define STARTSPRITES ", self.sprites_start() as u64);
        push_number_line(f, "#define STARTTILE8   ", self.tile8_start() as u64);
        push_number_line(f, "#define STARTTILE8M  ", self.tile8_masked_start() as u64);
        push_number_line(f, "#define STARTTILE16  ", self.tile16_start() as u64);
        push_number_line(f, "#define STARTTILE16M ", self.tile16_masked_start() as u64);
        push_number_line(f, "#define STARTTILE32  ", self.tile32_start() as u64);
        push_number_line(f, "#define STARTTILE32M ", self.tile32_masked_start() as u64);
        push_number_line(f, "#define STARTEXTERNS ", self.misc_start() as u64);
        f.append("\n//\n// Thank you for using idGrab!\n//\n");
        proof {
            lemma_join14(
                old(f)@,
                "//\n// File offsets for data items\n//\n#define STRUCTPIC    0\n#define STRUCTPICM   1\n#define STRUCTSPRITE 2\n\n"@,
                number_line("#define STARTFONT    "@, self@.fonts_start() as nat),
                number_line("#define STARTFONTM   "@, self@.fonts_masked_start() as nat),
                number_line("#define STARTPICS    "@, self@.bitmaps_start() as nat),
                number_line("#define STARTPICM    "@, self@.bitmaps_masked_start() as nat),
                number_line("#define STARTSPRITES "@, self@.sprites_start() as nat),
                number_line("#define STARTTILE8   "@, self@.tile8_start() as nat),
                number_line("#define STARTTILE8M  "@, self@.tile8_masked_start() as nat),
                number_line("#define STARTTILE16  "@, self@.tile16_start() as nat),
                number_line("#define STARTTILE16M "@, self@.tile16_masked_start() as nat),
                number_line("#define STARTTILE32  "@, self@.tile32_start() as nat),
                number_line("#define STARTTILE32M "@, self@.tile32_masked_start() as nat),
                number_line("#define STARTEXTERNS "@, self@.misc_start() as nat),
                "\n//\n// Thank you for using idGrab!\n//\n"@,
            );
        }
    }

    /// Whether [`GfxHeaders::write_igrab_header`] can write the inventory.
    pub fn can_write_igrab_header(&self, igrab_options: &IGrabOptions) -> (can: bool)
        ensures
            can == igrab_header_fits(self@, *igrab_options),
    {
        self.layout_fits() && self.igrab_entries_fit(igrab_options, Category::Bitmaps)
            && self.igrab_entries_fit(igrab_options, Category::BitmapsMasked)
            && self.igrab_entries_fit(igrab_options, Category::Sprites)
    }

    /// Appends the C header of the inventory to `f`. A time stamp, where one
    /// is given, is written into the banner as it is.
    pub fn write_igrab_header(
        &self,
        f: &mut String,
        igrab_options: &IGrabOptions,
        timestamp: Option<&str>,
    )
        requires
            igrab_header_fits(self@, *igrab_options),
        ensures
            final(f)@ == old(f)@ + igrab_header(
                self@,
                *igrab_options,
                optional_text(timestamp),
            ),
    {
        self.write_igrab_banner(f, igrab_options.version, timestamp);
        self.write_igrab_chunks(f, igrab_options);
        f.append("//\n// Data LUMPs\n//\n");
        self.write_igrab_lumps(f);
        self.write_igrab_counts(f);
        self.write_igrab_starts(f);
        proof {
            lemma_join_header(
                old(f)@,
                igrab_banner(self@, igrab_options.version, optional_text(timestamp)),
                igrab_chunks(self@, *igrab_options),
                "//\n// Data LUMPs\n//\n"@,
                concat_lines(self@.lumps.len(), igrab_lump_lines(self@.lumps)),
                igrab_counts(self@),
                igrab_starts(self@),
            );
        }
    }
}

/// Joining the parts of the chunk numbers of an `enum` one by one gives the
/// text that is their concatenation.
proof fn lemma_join_enum(
    base: Seq<char>,
    open: Seq<char>,
    a: Seq<char>,
    gap: Seq<char>,
    b: Seq<char>,
    c: Seq<char>,
    misc: Seq<char>,
    close: Seq<char>,
)
    ensures
        base + open + a + gap + b + gap + c + misc + close == base + (open + (a + gap + b + gap
            + c) + misc + close),
{
    assert(base + open + a + gap + b + gap + c + misc + close =~= base + (open + (a + gap + b
        + gap + c) + misc + close));
}

/// Joining the three lists of `#define` one by one gives the text that is
/// their concatenation.
proof fn lemma_join_defines(
    base: Seq<char>,
    a: Seq<char>,
    gap: Seq<char>,
    b: Seq<char>,
    c: Seq<char>,
)
    ensures
        base + a + gap + b + gap + c == base + (a + gap + b + gap + c),
{
    assert(base + a + gap + b + gap + c =~= base + (a + gap + b + gap + c));
}

/// Joining the six parts of a header one by one gives the text that is their
/// concatenation.
proof fn lemma_join_header(
    base: Seq<char>,
    a: Seq<char>,
    b: Seq<char>,
    c: Seq<char>,
    d: Seq<char>,
    e: Seq<char>,
    g: Seq<char>,
)
    ensures
        base + a + b + c + d + e + g == base + (a + b + c + d + e + g),
{
    assert(base + a + b + c + d + e + g =~= base + (a + b + c + d + e + g));
}

} // verus!
