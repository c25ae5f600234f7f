//! The assembly header that IGRAB wrote beside an archive: the same numbers
//! as the C header, as assignments.

use vstd::prelude::*;
use crate::headers::{views, GfxHeaders, MiscChunk};
use crate::igrab::{IGrabOptions, IGrabVersion};
use crate::igrab_header::{igrab_suffix, suffix_of};
use crate::layout::{Category, Inventory, LumpView, MiscChunkView};
use crate::join::{lemma_join13, lemma_join14};
use crate::text::{
    concat_lines, decimal, number_line, optional_text, push_decimal, push_number_line,
};

verus! {

/// The comment at the top of the assembly header. The time stamp, where
/// there is one, brings its own line end.
pub open spec fn asm_banner(
    inventory: Inventory,
    version: IGrabVersion,
    timestamp: Option<Seq<char>>,
) -> Seq<char> {
    ";=====================================\n;\n"@ + match inventory.extension {
        Some(extension) => "; Graphics .H file for ."@ + extension + "\n"@,
        None => Seq::empty(),
    } + match timestamp {
        Some(time) => "; idGrab-ed on "@ + time,
        None => Seq::empty(),
    } + "; idGrab emulating IGRAB "@ + version.name()
        + "\n;\n;=====================================\n\n"@
}

/// The lines of the chunks of a category in the assembly header, by their
/// place in the list.
pub open spec fn asm_entries(inventory: Inventory, options: IGrabOptions, category: Category)
    -> spec_fn(int) -> Seq<char> {
    |i: int|
        options.asm_chunk_line(
            inventory.list(category)[i],
            Some(igrab_suffix(category)),
            (inventory.category_start(category) + i) as u32,
        )
}

/// Whether every chunk of a category can be laid out in the assembly header.
pub open spec fn asm_entries_fit(inventory: Inventory, options: IGrabOptions, category: Category)
    -> bool {
    forall|i: int|
        0 <= i < inventory.list(category).len() ==> options.asm_chunk_line_fits(
            #[trigger] inventory.list(category)[i],
            Some(igrab_suffix(category)),
        )
}

/// Whether a miscellaneous chunk can be laid out in the assembly header. A
/// demo always can.
pub open spec fn asm_misc_fits(options: IGrabOptions, chunk: MiscChunkView) -> bool {
    match chunk {
        MiscChunkView::Chunk(name) => options.asm_chunk_line_fits(name, None),
        MiscChunkView::B8000Text(name) => options.asm_chunk_line_fits(name, None),
        MiscChunkView::Article(name) => options.asm_chunk_line_fits(name, None),
        MiscChunkView::Terminator(name) => options.asm_chunk_line_fits(name, None),
        MiscChunkView::Demo(_) => true,
    }
}

/// Whether every miscellaneous chunk can be laid out in the assembly header.
pub open spec fn asm_all_misc_fit(inventory: Inventory, options: IGrabOptions) -> bool {
    forall|i: int|
        0 <= i < inventory.misc_chunks.len() ==> asm_misc_fits(
            options,
            #[trigger] inventory.misc_chunks[i],
        )
}

/// The line of the miscellaneous chunk with the index `index` in the
/// assembly header of IGRAB 0.4.
pub open spec fn asm_misc_line(options: IGrabOptions, chunk: MiscChunkView, index: int) -> Seq<
    char,
> {
    match chunk {
        MiscChunkView::Chunk(name) => options.asm_chunk_line(name, None, index as u32),
        MiscChunkView::B8000Text(name) => options.asm_chunk_line(name, None, index as u32),
        MiscChunkView::Article(name) => options.asm_chunk_line(name, None, index as u32),
        MiscChunkView::Terminator(name) => options.asm_chunk_line(name, None, index as u32),
        MiscChunkView::Demo(number) => "DEMO"@ + decimal(number as nat) + "  \t=\t"@ + decimal(
            index as nat,
        ) + "\n"@,
    }
}

/// The lines of the miscellaneous chunks in the assembly header, by their
/// place.
pub open spec fn asm_misc_lines(inventory: Inventory, options: IGrabOptions) -> spec_fn(int) -> Seq<
    char,
> {
    |i: int| asm_misc_line(options, inventory.misc_chunks[i], inventory.misc_start() + i)
}

/// The chunk numbers of the assembly header. IGRAB 0.4 also numbers the
/// miscellaneous chunks.
pub open spec fn asm_chunks(inventory: Inventory, options: IGrabOptions) -> Seq<char> {
    let named = concat_lines(
        inventory.bitmaps.len(),
        asm_entries(inventory, options, Category::Bitmaps),
    ) + "\n"@ + concat_lines(
        inventory.bitmaps_masked.len(),
        asm_entries(inventory, options, Category::BitmapsMasked),
    ) + "\n"@ + concat_lines(
        inventory.sprites.len(),
        asm_entries(inventory, options, Category::Sprites),
    );
    match options.version {
        IGrabVersion::ZeroPointFour => named + concat_lines(
            inventory.misc_chunks.len(),
            asm_misc_lines(inventory, options),
        ) + "\n"@,
        IGrabVersion::ZeroPointTwoFour => named + "\n"@,
    }
}

/// The two lines of every lump in the assembly header, by the place of the
/// lump.
pub open spec fn asm_lump_lines(lumps: Seq<LumpView>) -> spec_fn(int) -> Seq<char> {
    |i: int|
        lumps[i].name + "_LUMP_START  \t=\t"@ + decimal(lumps[i].start_chunk as nat) + "\n"@
            + lumps[i].name + "_LUMP_END  \t=\t"@ + decimal(lumps[i].end_chunk as nat) + "\n"@
}

/// The count of every category in the assembly header.
pub open spec fn asm_counts(inventory: Inventory) -> Seq<char> {
    ";\n; Amount of each data item\n;\n"@ + number_line(
        "NUMCHUNKS\t=\t"@,
        inventory.num_chunks() as nat,
    ) + number_line("NUMFONT  \t=\t"@, inventory.fonts.len()) + number_line(
        "NUMFONTM  \t=\t"@,
        inventory.fonts_masked.len(),
    ) + number_line("NUMPICS  \t=\t"@, inventory.bitmaps.len()) + number_line(
        "NUMPICM  \t=\t"@,
        inventory.bitmaps_masked.len(),
    ) + number_line("NUMSPRITES  \t=\t"@, inventory.sprites.len()) + number_line(
        "NUMTILE8  \t=\t"@,
        inventory.tile8_count as nat,
    ) + number_line("NUMTILE8M  \t=\t"@, inventory.tile8_masked_count as nat) + number_line(
        "NUMTILE16  \t=\t"@,
        inventory.tile16_count as nat,
    ) + number_line("NUMTILE16M  \t=\t"@, inventory.tile16_masked_count as nat) + number_line(
        "NUMTILE32  \t=\t"@,
        inventory.tile32_count as nat,
    ) + number_line("NUMTILE32M  \t=\t"@, inventory.tile32_masked_count as nat)
}

/// The first chunk of every category in the assembly header, and the last
/// lines.
pub open spec fn asm_starts(inventory: Inventory) -> Seq<char> {
    ";\n; File offsets for data items\n;\nSTRUCTPIC  \t=\t0\nSTRUCTPICM  \t=\t1\nSTRUCTSPRITE  \t=\t2\n\n"@
        + number_line("STARTFONT  \t=\t"@, inventory.fonts_start() as nat) + number_line(
        "STARTFONTM  \t=\t"@,
        inventory.fonts_masked_start() as nat,
    ) + number_line("STARTPICS  \t=\t"@, inventory.bitmaps_start() as nat) + number_line(
        "STARTPICM  \t=\t"@,
        inventory.bitmaps_masked_start() as nat,
    ) + number_line("STARTSPRITES  \t=\t"@, inventory.sprites_start() as nat) + number_line(
        "STARTTILE8  \t=\t"@,
        inventory.tile8_start() as nat,
    ) + number_line("STARTTILE8M  \t=\t"@, inventory.tile8_masked_start() as nat)
        + number_line("STARTTILE16  \t=\t"@, inventory.tile16_start() as nat) + number_line(
        "STARTTILE16M  \t=\t"@,
        inventory.tile16_masked_start() as nat,
    ) + number_line("STARTTILE32  \t=\t"@, inventory.tile32_start() as nat) + number_line(
        "STARTTILE32M  \t=\t"@,
        inventory.tile32_masked_start() as nat,
    ) + number_line("STARTEXTERNS  \t=\t"@, inventory.misc_start() as nat)
        + "\n;\n; Thank you for using idGrab!\n;\n"@
}

/// The whole assembly header of an inventory.
pub open spec fn igrab_asm_header(
    inventory: Inventory,
    options: IGrabOptions,
    timestamp: Option<Seq<char>>,
) -> Seq<char> {
    asm_banner(inventory, options.version, timestamp) + asm_chunks(inventory, options)
        + concat_lines(inventory.lumps.len(), asm_lump_lines(inventory.lumps)) + asm_counts(
        inventory,
    ) + asm_starts(inventory)
}

/// Whether the assembly header of an inventory can be written: the layout
/// fits 32 bits, and every name that gets a line fits the column of the `=`.
pub open spec fn igrab_asm_header_fits(inventory: Inventory, options: IGrabOptions) -> bool {
    &&& inventory.fits()
    &&& asm_entries_fit(inventory, options, Category::Bitmaps)
    &&& asm_entries_fit(inventory, options, Category::BitmapsMasked)
    &&& asm_entries_fit(inventory, options, Category::Sprites)
    &&& options.version == IGrabVersion::ZeroPointFour ==> asm_all_misc_fit(inventory, options)
}

fn asm_misc_fits_exec(options: &IGrabOptions, chunk: &MiscChunk) -> (fits: bool)
    ensures
        fits == asm_misc_fits(*options, chunk@),
{
    match chunk {
        MiscChunk::Chunk(name) => options.can_write_asm_chunk_line(name.as_str(), None),
        MiscChunk::B8000Text(name) => options.can_write_asm_chunk_line(name.as_str(), None),
        MiscChunk::Article(name) => options.can_write_asm_chunk_line(name.as_str(), None),
        MiscChunk::Terminator(name) => options.can_write_asm_chunk_line(name.as_str(), None),
        MiscChunk::Demo(_) => true,
    }
}

impl GfxHeaders {
    fn write_asm_banner(&self, f: &mut String, version: IGrabVersion, timestamp: Option<&str>)
        ensures
            final(f)@ == old(f)@ + asm_banner(self@, version, optional_text(timestamp)),
    {
        f.append(";=====================================\n;\n");
        match &self.extension {
            Some(extension) => {
                f.append("; Graphics .H file for .");
                f.append(extension.as_str());
                f.append("\n");
            },
            None => {},
        }
        match timestamp {
            Some(time) => {
                f.append("; idGrab-ed on ");
                f.append(time);
            },
            None => {},
        }
        f.append("; idGrab emulating IGRAB ");
        f.append(version.as_str());
        f.append("\n;\n;=====================================\n\n");
        assert(f@ =~= old(f)@ + asm_banner(self@, version, optional_text(timestamp)));
    }

    /// Whether every chunk of a category can be laid out in the assembly
    /// header.
    fn asm_entries_fit(&self, options: &IGrabOptions, category: Category) -> (fit: bool)
        ensures
            fit == asm_entries_fit(self@, *options, category),
    {
        let names = self.list(category);
        let mut i: usize = 0;
        while i < names.len()
            invariant
                0 <= i <= names@.len(),
                views(names@) == self@.list(category),
                forall|k: int|
                    0 <= k < i ==> options.asm_chunk_line_fits(
                        #[trigger] self@.list(category)[k],
                        Some(igrab_suffix(category)),
                    ),
            decreases names@.len() - i,
        {
            if !options.can_write_asm_chunk_line(names[i].as_str(), Some(suffix_of(category))) {
                assert(!options.asm_chunk_line_fits(
                    self@.list(category)[i as int],
                    Some(igrab_suffix(category)),
                ));
                return false;
            }
            i += 1;
        }
        true
    }

    /// Whether every miscellaneous chunk can be laid out in the assembly
    /// header.
    fn asm_all_misc_fit(&self, options: &IGrabOptions) -> (fit: bool)
        ensures
            fit == asm_all_misc_fit(self@, *options),
    {
        let mut i: usize = 0;
        while i < self.misc_chunks.len()
            invariant
                0 <= i <= self.misc_chunks@.len(),
                forall|k: int|
                    0 <= k < i ==> asm_misc_fits(*options, #[trigger] self@.misc_chunks[k]),
            decreases self.misc_chunks@.len() - i,
        {
            if !asm_misc_fits_exec(options, &self.misc_chunks[i]) {
                assert(!asm_misc_fits(*options, self@.misc_chunks[i as int]));
                return false;
            }
            i += 1;
        }
        true
    }

    fn write_asm_entries(&self, f: &mut String, options: &IGrabOptions, category: Category)
        requires
            self@.fits(),
            asm_entries_fit(self@, *options, category),
        ensures
            final(f)@ == old(f)@ + concat_lines(
                self@.list(category).len(),
                asm_entries(self@, *options, category),
            ),
    {
        let names = self.list(category);
        let first = self.category_start(category);
        let mut i: usize = 0;
        assert(f@ =~= old(f)@ + concat_lines(0, asm_entries(self@, *options, category)));
        while i < names.len()
            invariant
                0 <= i <= names@.len(),
                self@.fits(),
                asm_entries_fit(self@, *options, category),
                views(names@) == self@.list(category),
                first == self@.category_start(category),
                f@ == old(f)@ + concat_lines(i as nat, asm_entries(self@, *options, category)),
            decreases names@.len() - i,
        {
            assert(options.asm_chunk_line_fits(
                self@.list(category)[i as int],
                Some(igrab_suffix(category)),
            ));
            options.write_asm_chunk_line(
                f,
                names[i].as_str(),
                Some(suffix_of(category)),
                first + i as u32,
            );
            i += 1;
            assert(f@ =~= old(f)@ + concat_lines(i as nat, asm_entries(self@, *options, category)));
        }
    }

    fn write_asm_misc(&self, f: &mut String, options: &IGrabOptions)
        requires
            self@.fits(),
            asm_all_misc_fit(self@, *options),
        ensures
            final(f)@ == old(f)@ + concat_lines(
                self@.misc_chunks.len(),
                asm_misc_lines(self@, *options),
            ),
    {
        let first = self.misc_start();
        let mut i: usize = 0;
        assert(f@ =~= old(f)@ + concat_lines(0, asm_misc_lines(self@, *options)));
        while i < self.misc_chunks.len()
            invariant
                0 <= i <= self.misc_chunks@.len(),
                self@.fits(),
                asm_all_misc_fit(self@, *options),
                first == self@.misc_start(),
                f@ == old(f)@ + concat_lines(i as nat, asm_misc_lines(self@, *options)),
            decreases self.misc_chunks@.len() - i,
        {
            let index = first + i as u32;
            let ghost before = f@;
            assert(asm_misc_fits(*options, self@.misc_chunks[i as int]));
            match &self.misc_chunks[i] {
                MiscChunk::Chunk(name) => {
                    options.write_asm_chunk_line(f, name.as_str(), None, index);
                },
                MiscChunk::B8000Text(name) => {
                    options.write_asm_chunk_line(f, name.as_str(), None, index);
                },
                MiscChunk::Article(name) => {
                    options.write_asm_chunk_line(f, name.as_str(), None, index);
                },
                MiscChunk::Terminator(name) => {
                    options.write_asm_chunk_line(f, name.as_str(), None, index);
                },
                MiscChunk::Demo(number) => {
                    f.append("DEMO");
                    push_decimal(f, *number as u64);
                    f.append("  \t=\t");
                    push_decimal(f, index as u64);
                    f.append("\n");
                },
            }
            assert(f@ =~= before + asm_misc_lines(self@, *options)(i as int));
            i += 1;
            assert(f@ =~= old(f)@ + concat_lines(i as nat, asm_misc_lines(self@, *options)));
        }
    }

    fn write_asm_chunks(&self, f: &mut String, options: &IGrabOptions)
        requires
            igrab_asm_header_fits(self@, *options),
        ensures
            final(f)@ == old(f)@ + asm_chunks(self@, *options),
    {
        self.write_asm_entries(f, options, Category::Bitmaps);
        f.append("\n");
        self.write_asm_entries(f, options, Category::BitmapsMasked);
        f.append("\n");
        self.write_asm_entries(f, options, Category::Sprites);
        let numbered = options.version == IGrabVersion::ZeroPointFour;
        if numbered {
            self.write_asm_misc(f, options);
        }
        f.append("\n");
        proof {
            let bitmaps = concat_lines(
                self@.bitmaps.len(),
                asm_entries(self@, *options, Category::Bitmaps),
            );
            let bitmaps_masked = concat_lines(
                self@.bitmaps_masked.len(),
                asm_entries(self@, *options, Category::BitmapsMasked),
            );
            let sprites = concat_lines(
                self@.sprites.len(),
                asm_entries(self@, *options, Category::Sprites),
            );
            let misc = concat_lines(self@.misc_chunks.len(), asm_misc_lines(self@, *options));
            if numbered {
                lemma_join_numbered(old(f)@, bitmaps, "\n"@, bitmaps_masked, sprites, misc);
            } else {
                lemma_join_named(old(f)@, bitmaps, "\n"@, bitmaps_masked, sprites);
            }
        }
    }

    fn write_asm_lumps(&self, f: &mut String)
        ensures
            final(f)@ == old(f)@ + concat_lines(self@.lumps.len(), asm_lump_lines(self@.lumps)),
    {
        let mut i: usize = 0;
        assert(f@ =~= old(f)@ + concat_lines(0, asm_lump_lines(self@.lumps)));
        while i < self.lumps.len()
            invariant
                0 <= i <= self.lumps@.len(),
                f@ == old(f)@ + concat_lines(i as nat, asm_lump_lines(self@.lumps)),
            decreases self.lumps@.len() - i,
        {
            let ghost before = f@;
            let lump = &self.lumps[i];
            f.append(lump.name.as_str());
            f.append("_LUMP_START  \t=\t");
            push_decimal(f, lump.start_chunk as u64);
            f.append("\n");
            f.append(lump.name.as_str());
            f.append("_LUMP_END  \t=\t");
            push_decimal(f, lump.end_chunk as u64);
            f.append("\n");
            assert(f@ =~= before + asm_lump_lines(self@.lumps)(i as int));
            i += 1;
            assert(f@ =~= old(f)@ + concat_lines(i as nat, asm_lump_lines(self@.lumps)));
        }
    }

    fn write_asm_counts(&self, f: &mut String)
        requires
            self@.fits(),
        ensures
            final(f)@ == old(f)@ + asm_counts(self@),
    {
        f.append(";\n; Amount of each data item\n;\n");
        push_number_line(f, "NUMCHUNKS\t=\t", self.num_chunks() as u64);
        push_number_line(f, "NUMFONT  \t=\t", self.fonts.len() as u64);
        push_number_line(f, "NUMFONTM  \t=\t", self.fonts_masked.len() as u64);
        push_number_line(f, "NUMPICS  \t=\t", self.bitmaps.len() as u64);
        push_number_line(f, "NUMPICM  \t=\t", self.bitmaps_masked.len() as u64);
        push_number_line(f, "NUMSPRITES  \t=\t", self.sprites.len() as u64);
        push_number_line(f, "NUMTILE8  \t=\t", self.tile8_count as u64);
        push_number_line(f, "NUMTILE8M  \t=\t", self.tile8_masked_count as u64);
        push_number_line(f, "NUMTILE16  \t=\t", self.tile16_count as u64);
        push_number_line(f, "NUMTILE16M  \t=\t", self.tile16_masked_count as u64);
        push_number_line(f, "NUMTILE32  \t=\t", self.tile32_count as u64);
        push_number_line(f, "NUMTILE32M  \t=\t", self.tile32_masked_count as u64);
        proof {
            lemma_join13(
                old(f)@,
                ";\n; Amount of each data item\n;\n"@,
                number_line("NUMCHUNKS\t=\t"@, self@.num_chunks() as nat),
                number_line("NUMFONT  \t=\t"@, self@.fonts.len()),
                number_line("NUMFONTM  \t=\t"@, self@.fonts_masked.len()),
                number_line("NUMPICS  \t=\t"@, self@.bitmaps.len()),
                number_line("NUMPICM  \t=\t"@, self@.bitmaps_masked.len()),
                number_line("NUMSPRITES  \t=\t"@, self@.sprites.len()),
                number_line("NUMTILE8  \t=\t"@, self.tile8_count as nat),
                number_line("NUMTILE8M  \t=\t"@, self.tile8_masked_count as nat),
                number_line("NUMTILE16  \t=\t"@, self.tile16_count as nat),
                number_line("NUMTILE16M  \t=\t"@, self.tile16_masked_count as nat),
                number_line("NUMTILE32  \t=\t"@, self.tile32_count as nat),
                number_line("NUMTILE32M  \t=\t"@, self.tile32_masked_count as nat),
            );
        }
    }

    fn write_asm_starts(&self, f: &mut String)
        requires
            self@.fits(),
        ensures
            final(f)@ == old(f)@ + asm_starts(self@),
    {
        f.append(
            ";\n; File offsets for data items\n;\nSTRUCTPIC  \t=\t0\nSTRUCTPICM  \t=\t1\nSTRUCTSPRITE  \t=\t2\n\n",
        );
        push_number_line(f, "STARTFONT  \t=\t", self.fonts_start() as u64);
        push_number_line(f, "STARTFONTM  \t=\t", self.fonts_masked_start() as u64);
        push_number_line(f, "STARTPICS  \t=\t", self.bitmaps_start() as u64);
        push_number_line(f, "STARTPICM  \t=\t", self.bitmaps_masked_start() as u64);
        push_number_line(f, "STARTSPRITES  \t=\t", self.sprites_start() as u64);
        push_number_line(f, "STARTTILE8  \t=\t", self.tile8_start() as u64);
        push_number_line(f, "STARTTILE8M  \t=\t", self.tile8_masked_start() as u64);
        push_number_line(f, "STARTTILE16  \t=\t", self.tile16_start() as u64);
        push_number_line(f, "STARTTILE16M  \t=\t", self.tile16_masked_start() as u64);
        push_number_line(f, "STARTTILE32  \t=\t", self.tile32_start() as u64);
        push_number_line(f, "STARTTILE32M  \t=\t", self.tile32_masked_start() as u64);
        push_number_line(f, "STARTEXTERNS  \t=\t", self.misc_start() as u64);
        f.append("\n;\n; Thank you for using idGrab!\n;\n");
        proof {
            lemma_join14(
                old(f)@,
                ";\n; File offsets for data items\n;\nSTRUCTPIC  \t=\t0\nSTRUCTPICM  \t=\t1\nSTRUCTSPRITE  \t=\t2\n\n"@,
                number_line("STARTFONT  \t=\t"@, self@.fonts_start() as nat),
                number_line("STARTFONTM  \t=\t"@, self@.fonts_masked_start() as nat),
                number_line("STARTPICS  \t=\t"@, self@.bitmaps_start() as nat),
                number_line("STARTPICM  \t=\t"@, self@.bitmaps_masked_start() as nat),
                number_line("STARTSPRITES  \t=\t"@, self@.sprites_start() as nat),
                number_line("STARTTILE8  \t=\t"@, self@.tile8_start() as nat),
                number_line("STARTTILE8M  \t=\t"@, self@.tile8_masked_start() as nat),
                number_line("STARTTILE16  \t=\t"@, self@.tile16_start() as nat),
                number_line("STARTTILE16M  \t=\t"@, self@.tile16_masked_start() as nat),
                number_line("STARTTILE32  \t=\t"@, self@.tile32_start() as nat),
                number_line("STARTTILE32M  \t=\t"@, self@.tile32_masked_start() as nat),
                number_line("STARTEXTERNS  \t=\t"@, self@.misc_start() as nat),
                "\n;\n; Thank you for using idGrab!\n;\n"@,
            );
        }
    }

    /// Whether [`GfxHeaders::write_igrab_asm_header`] can write the inventory.
    pub fn can_write_igrab_asm_header(&self, igrab_options: &IGrabOptions) -> (can: bool)
        ensures
            can == igrab_asm_header_fits(self@, *igrab_options),
    {
        self.layout_fits() && self.asm_entries_fit(igrab_options, Category::Bitmaps)
            && self.asm_entries_fit(igrab_options, Category::BitmapsMasked)
            && self.asm_entries_fit(igrab_options, Category::Sprites) && (igrab_options.version
            != IGrabVersion::ZeroPointFour || self.asm_all_misc_fit(igrab_options))
    }

    /// Appends the assembly header of the inventory to `f`. A time stamp,
    /// where one is given, is written into the banner as it is.
    pub fn write_igrab_asm_header(
        &self,
        f: &mut String,
        igrab_options: &IGrabOptions,
        timestamp: Option<&str>,
    )
        requires
            igrab_asm_header_fits(self@, *igrab_options),
        ensures
            final(f)@ == old(f)@ + igrab_asm_header(
                self@,
                *igrab_options,
                optional_text(timestamp),
            ),
    {
        self.write_asm_banner(f, igrab_options.version, timestamp);
        self.write_asm_chunks(f, igrab_options);
        self.write_asm_lumps(f);
        self.write_asm_counts(f);
        self.write_asm_starts(f);
        proof {
            lemma_join_asm(
                old(f)@,
                asm_banner(self@, igrab_options.version, optional_text(timestamp)),
                asm_chunks(self@, *igrab_options),
                concat_lines(self@.lumps.len(), asm_lump_lines(self@.lumps)),
                asm_counts(self@),
                asm_starts(self@),
            );
        }
    }
}

/// Joining the three lists, the miscellaneous chunks and the empty line one
/// by one gives the text that is their concatenation.
proof fn lemma_join_numbered(
    base: Seq<char>,
    a: Seq<char>,
    gap: Seq<char>,
    b: Seq<char>,
    c: Seq<char>,
    misc: Seq<char>,
)
    ensures
        base + a + gap + b + gap + c + misc + gap == base + ((a + gap + b + gap + c) + misc + gap),
{
    assert(base + a + gap + b + gap + c + misc + gap =~= base + ((a + gap + b + gap + c) + misc
        + gap));
}

/// Joining the three lists and the empty line one by one gives the text that
/// is their concatenation.
proof fn lemma_join_named(base: Seq<char>, a: Seq<char>, gap: Seq<char>, b: Seq<char>, c: Seq<char>)
    ensures
        base + a + gap + b + gap + c + gap == base + ((a + gap + b + gap + c) + gap),
{
    assert(base + a + gap + b + gap + c + gap =~= base + ((a + gap + b + gap + c) + gap));
}

/// Joining the five parts of the header one by one gives the text that is
/// their concatenation.
proof fn lemma_join_asm(
    base: Seq<char>,
    a: Seq<char>,
    b: Seq<char>,
    c: Seq<char>,
    d: Seq<char>,
    e: Seq<char>,
)
    ensures
        base + a + b + c + d + e == base + (a + b + c + d + e),
{
    assert(base + a + b + c + d + e =~= base + (a + b + c + d + e));
}

} // verus!
