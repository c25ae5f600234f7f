//! The variable file for Omnispeak: every named chunk as an integer variable,
//! the demos, and the lumps with their boundaries.

use vstd::prelude::*;
use crate::headers::{views, GfxHeaders, MiscChunk};
use crate::layout::{Category, Inventory, LumpView, MiscChunkView};
use crate::join::lemma_join11;
use crate::text::{concat_lines, decimal, push_decimal};

verus! {

/// The comment that stands above the variables of a category.
pub open spec fn omnispeak_heading(category: Category) -> Seq<char> {
    match category {
        Category::Fonts => "# Fonts\n"@,
        Category::FontsMasked => "# Masked Fonts\n"@,
        Category::Bitmaps => "# Bitmaps\n"@,
        Category::BitmapsMasked => "# Masked Bitmaps\n"@,
        Category::Sprites => "# Sprites\n"@,
    }
}

/// What stands before the name in the variable of a chunk of a category.
pub open spec fn omnispeak_prefix(category: Category) -> Seq<char> {
    match category {
        Category::Fonts => "%int FON_"@,
        Category::FontsMasked => "%int FONM_"@,
        Category::Bitmaps => "%int PIC_"@,
        Category::BitmapsMasked => "%int MPIC_"@,
        Category::Sprites => "%int SPR_"@,
    }
}

/// The variables of the chunks of a category, by their place in the list.
pub open spec fn omnispeak_entries(inventory: Inventory, category: Category) -> spec_fn(int) -> Seq<
    char,
> {
    |i: int|
        omnispeak_prefix(category) + inventory.list(category)[i] + " "@ + decimal(
            (inventory.category_start(category) + i) as nat,
        ) + "\n"@
}

/// The heading of a category and the variables of its chunks.
pub open spec fn omnispeak_category(inventory: Inventory, category: Category) -> Seq<char> {
    omnispeak_heading(category) + concat_lines(
        inventory.list(category).len(),
        omnispeak_entries(inventory, category),
    )
}

/// The line of the miscellaneous chunk with the index `index`: a variable
/// for a named chunk, a comment for a demo.
pub open spec fn omnispeak_misc_line(chunk: MiscChunkView, index: int) -> Seq<char> {
    match chunk {
        MiscChunkView::Chunk(name) => "%int EXTERN_"@ + name + " "@ + decimal(index as nat)
            + "\n"@,
        MiscChunkView::B8000Text(name) => "%int EXTERN_"@ + name + " "@ + decimal(index as nat)
            + "\n"@,
        MiscChunkView::Article(name) => "%int TEXT_"@ + name + " "@ + decimal(index as nat)
            + "\n"@,
        MiscChunkView::Terminator(name) => "%int EXTERN_"@ + name + " "@ + decimal(index as nat)
            + "\n"@,
        MiscChunkView::Demo(number) => "# Demo "@ + decimal(number as nat) + " = "@ + decimal(
            index as nat,
        ) + "\n"@,
    }
}

/// The lines of the miscellaneous chunks, by their place in the list.
pub open spec fn omnispeak_misc_lines(inventory: Inventory) -> spec_fn(int) -> Seq<char> {
    |i: int| omnispeak_misc_line(inventory.misc_chunks[i], inventory.misc_start() + i)
}

/// One element of an array of lump boundaries: the chunk by its tagged name
/// where it has one, by its number where it has none, and a comma behind
/// every element but the last.
pub open spec fn omnispeak_boundary(inventory: Inventory, chunk: u32, last: bool) -> Seq<char> {
    "\t"@ + match inventory.tagged_chunk_name(chunk as int) {
        Some(name) => "@"@ + name,
        None => decimal(chunk as nat),
    } + if last {
        "\n"@
    } else {
        ",\n"@
    }
}

/// The first chunks of the lumps, by the place of the lump.
pub open spec fn omnispeak_lump_starts(inventory: Inventory) -> spec_fn(int) -> Seq<char> {
    |i: int|
        omnispeak_boundary(
            inventory,
            inventory.lumps[i].start_chunk,
            i == inventory.lumps.len() - 1,
        )
}

/// The last chunks of the lumps, by the place of the lump.
pub open spec fn omnispeak_lump_ends(inventory: Inventory) -> spec_fn(int) -> Seq<char> {
    |i: int|
        omnispeak_boundary(
            inventory,
            inventory.lumps[i].end_chunk,
            i == inventory.lumps.len() - 1,
        )
}

/// The variables that number the lumps, by the place of the lump.
pub open spec fn omnispeak_lump_names(lumps: Seq<LumpView>) -> spec_fn(int) -> Seq<char> {
    |i: int| "%int LUMP_"@ + lumps[i].name + " "@ + decimal(i as nat) + "\n"@
}

/// The part of the file on the lumps.
pub open spec fn omnispeak_lumps(inventory: Inventory) -> Seq<char> {
    "#\n# Lumps\n#\n%int NUMLUMPS "@ + decimal(inventory.lumps.len()) + "\n%intarray lumpStarts\n"@
        + concat_lines(inventory.lumps.len(), omnispeak_lump_starts(inventory))
        + "%intarray lumpEnds\n"@ + concat_lines(
        inventory.lumps.len(),
        omnispeak_lump_ends(inventory),
    ) + "# Lump names\n"@ + concat_lines(
        inventory.lumps.len(),
        omnispeak_lump_names(inventory.lumps),
    )
}

/// The whole variable file of an inventory that has a demo.
pub open spec fn omnispeak_cfg(inventory: Inventory) -> Seq<char> {
    "# GFX Header (Omnispeak)\n\n"@ + omnispeak_category(inventory, Category::Fonts)
        + omnispeak_category(inventory, Category::FontsMasked) + omnispeak_category(
        inventory,
        Category::Bitmaps,
    ) + omnispeak_category(inventory, Category::BitmapsMasked) + omnispeak_category(
        inventory,
        Category::Sprites,
    ) + concat_lines(inventory.misc_chunks.len(), omnispeak_misc_lines(inventory))
        + "%int DEMOSTART "@ + decimal(inventory.demo_start().unwrap() as nat) + "\n"@
        + omnispeak_lumps(inventory)
}

fn heading_of(category: Category) -> (heading: &'static str)
    ensures
        heading@ == omnispeak_heading(category),
{
    match category {
        Category::Fonts => "# Fonts\n",
        Category::FontsMasked => "# Masked Fonts\n",
        Category::Bitmaps => "# Bitmaps\n",
        Category::BitmapsMasked => "# Masked Bitmaps\n",
        Category::Sprites => "# Sprites\n",
    }
}

fn prefix_of(category: Category) -> (prefix: &'static str)
    ensures
        prefix@ == omnispeak_prefix(category),
{
    match category {
        Category::Fonts => "%int FON_",
        Category::FontsMasked => "%int FONM_",
        Category::Bitmaps => "%int PIC_",
        Category::BitmapsMasked => "%int MPIC_",
        Category::Sprites => "%int SPR_",
    }
}

fn write_misc_line(f: &mut String, chunk: &MiscChunk, index: u32)
    ensures
        final(f)@ == old(f)@ + omnispeak_misc_line(chunk@, index as int),
{
    match chunk {
        MiscChunk::Chunk(name) => {
            f.append("%int EXTERN_");
            f.append(name.as_str());
            f.append(" ");
        },
        MiscChunk::B8000Text(name) => {
            f.append("%int EXTERN_");
            f.append(name.as_str());
            f.append(" ");
        },
        MiscChunk::Article(name) => {
            f.append("%int TEXT_");
            f.append(name.as_str());
            f.append(" ");
        },
        MiscChunk::Terminator(name) => {
            f.append("%int EXTERN_");
            f.append(name.as_str());
            f.append(" ");
        },
        MiscChunk::Demo(number) => {
            f.append("# Demo ");
            push_decimal(f, *number as u64);
            f.append(" = ");
        },
    }
    push_decimal(f, index as u64);
    f.append("\n");
    assert(f@ =~= old(f)@ + omnispeak_misc_line(chunk@, index as int));
}

impl GfxHeaders {
    fn write_omnispeak_category(&self, f: &mut String, category: Category)
        requires
            self@.fits(),
        ensures
            final(f)@ == old(f)@ + omnispeak_category(self@, category),
    {
        f.append(heading_of(category));
        let ghost base = f@;
        let names = self.list(category);
        let first = self.category_start(category);
        let mut i: usize = 0;
        assert(f@ =~= base + concat_lines(0, omnispeak_entries(self@, category)));
        while i < names.len()
            invariant
                0 <= i <= names@.len(),
                self@.fits(),
                views(names@) == self@.list(category),
                first == self@.category_start(category),
                f@ == base + concat_lines(i as nat, omnispeak_entries(self@, category)),
            decreases names@.len() - i,
        {
            let ghost before = f@;
            f.append(prefix_of(category));
            f.append(names[i].as_str());
            f.append(" ");
            push_decimal(f, (first + i as u32) as u64);
            f.append("\n");
            assert(f@ =~= before + omnispeak_entries(self@, category)(i as int));
            i += 1;
            assert(f@ =~= base + concat_lines(i as nat, omnispeak_entries(self@, category)));
        }
        assert(f@ =~= old(f)@ + omnispeak_category(self@, category));
    }

    fn write_omnispeak_misc(&self, f: &mut String)
        requires
            self@.fits(),
        ensures
            final(f)@ == old(f)@ + concat_lines(
                self@.misc_chunks.len(),
                omnispeak_misc_lines(self@),
            ),
    {
        let first = self.misc_start();
        let mut i: usize = 0;
        assert(f@ =~= old(f)@ + concat_lines(0, omnispeak_misc_lines(self@)));
        while i < self.misc_chunks.len()
            invariant
                0 <= i <= self.misc_chunks@.len(),
                self@.fits(),
                first == self@.misc_start(),
                f@ == old(f)@ + concat_lines(i as nat, omnispeak_misc_lines(self@)),
            decreases self.misc_chunks@.len() - i,
        {
            write_misc_line(f, &self.misc_chunks[i], first + i as u32);
            i += 1;
            assert(f@ =~= old(f)@ + concat_lines(i as nat, omnispeak_misc_lines(self@)));
        }
    }

    fn write_omnispeak_boundary(&self, f: &mut String, chunk: u32, last: bool)
        ensures
            final(f)@ == old(f)@ + omnispeak_boundary(self@, chunk, last),
    {
        f.append("\t");
        match self.omnispeak_chunk_name(chunk) {
            Some(name) => {
                f.append("@");
                f.append(name.as_str());
            },
            None => {
                push_decimal(f, chunk as u64);
            },
        }
        if last {
            f.append("\n");
        } else {
            f.append(",\n");
        }
        assert(f@ =~= old(f)@ + omnispeak_boundary(self@, chunk, last));
    }

    fn write_omnispeak_lump_starts(&self, f: &mut String)
        ensures
            final(f)@ == old(f)@ + concat_lines(
                self@.lumps.len(),
                omnispeak_lump_starts(self@),
            ),
    {
        let mut i: usize = 0;
        assert(f@ =~= old(f)@ + concat_lines(0, omnispeak_lump_starts(self@)));
        while i < self.lumps.len()
            invariant
                0 <= i <= self.lumps@.len(),
                f@ == old(f)@ + concat_lines(i as nat, omnispeak_lump_starts(self@)),
            decreases self.lumps@.len() - i,
        {
            let last = i + 1 == self.lumps.len();
            self.write_omnispeak_boundary(f, self.lumps[i].start_chunk, last);
            i += 1;
            assert(f@ =~= old(f)@ + concat_lines(i as nat, omnispeak_lump_starts(self@)));
        }
    }

    fn write_omnispeak_lump_ends(&self, f: &mut String)
        ensures
            final(f)@ == old(f)@ + concat_lines(self@.lumps.len(), omnispeak_lump_ends(self@)),
    {
        let mut i: usize = 0;
        assert(f@ =~= old(f)@ + concat_lines(0, omnispeak_lump_ends(self@)));
        while i < self.lumps.len()
            invariant
                0 <= i <= self.lumps@.len(),
                f@ == old(f)@ + concat_lines(i as nat, omnispeak_lump_ends(self@)),
            decreases self.lumps@.len() - i,
        {
            let last = i + 1 == self.lumps.len();
            self.write_omnispeak_boundary(f, self.lumps[i].end_chunk, last);
            i += 1;
            assert(f@ =~= old(f)@ + concat_lines(i as nat, omnispeak_lump_ends(self@)));
        }
    }

    fn write_omnispeak_lump_names(&self, f: &mut String)
        ensures
            final(f)@ == old(f)@ + concat_lines(
                self@.lumps.len(),
                omnispeak_lump_names(self@.lumps),
            ),
    {
        let mut i: usize = 0;
        assert(f@ =~= old(f)@ + concat_lines(0, omnispeak_lump_names(self@.lumps)));
        while i < self.lumps.len()
            invariant
                0 <= i <= self.lumps@.len(),
                f@ == old(f)@ + concat_lines(i as nat, omnispeak_lump_names(self@.lumps)),
            decreases self.lumps@.len() - i,
        {
            let ghost before = f@;
            f.append("%int LUMP_");
            f.append(self.lumps[i].name.as_str());
            f.append(" ");
            push_decimal(f, i as u64);
            f.append("\n");
            assert(f@ =~= before + omnispeak_lump_names(self@.lumps)(i as int));
            i += 1;
            assert(f@ =~= old(f)@ + concat_lines(i as nat, omnispeak_lump_names(self@.lumps)));
        }
    }

    fn write_omnispeak_lumps(&self, f: &mut String)
        ensures
            final(f)@ == old(f)@ + omnispeak_lumps(self@),
    {
        f.append("#\n# Lumps\n#\n%int NUMLUMPS ");
        push_decimal(f, self.lumps.len() as u64);
        f.append("\n%intarray lumpStarts\n");
        self.write_omnispeak_lump_starts(f);
        f.append("%intarray lumpEnds\n");
        self.write_omnispeak_lump_ends(f);
        f.append("# Lump names\n");
        self.write_omnispeak_lump_names(f);
        assert(f@ =~= old(f)@ + omnispeak_lumps(self@));
    }

    /// Whether [`GfxHeaders::write_omnispeak_cfg`] can write the inventory:
    /// the layout fits 32 bits, and there is a demo to name as the first.
    pub fn can_write_omnispeak_cfg(&self) -> (can: bool)
        ensures
            can == (self@.fits() && self@.demo_start() is Some),
    {
        self.layout_fits() && self.demo_start().is_some()
    }

    /// Appends the variable file of the inventory to `f`.
    pub fn write_omnispeak_cfg(&self, f: &mut String)
        requires
            self@.fits(),
            self@.demo_start() is Some,
        ensures
            final(f)@ == old(f)@ + omnispeak_cfg(self@),
    {
        f.append("# GFX Header (Omnispeak)\n\n");
        self.write_omnispeak_category(f, Category::Fonts);
        self.write_omnispeak_category(f, Category::FontsMasked);
        self.write_omnispeak_category(f, Category::Bitmaps);
        self.write_omnispeak_category(f, Category::BitmapsMasked);
        self.write_omnispeak_category(f, Category::Sprites);
        self.write_omnispeak_misc(f);
        f.append("%int DEMOSTART ");
        let demo_start = self.demo_start();
        push_decimal(f, demo_start.unwrap() as u64);
        f.append("\n");
        self.write_omnispeak_lumps(f);
        proof {
            lemma_join11(
                old(f)@,
                "# GFX Header (Omnispeak)\n\n"@,
                omnispeak_category(self@, Category::Fonts),
                omnispeak_category(self@, Category::FontsMasked),
                omnispeak_category(self@, Category::Bitmaps),
                omnispeak_category(self@, Category::BitmapsMasked),
                omnispeak_category(self@, Category::Sprites),
                concat_lines(self@.misc_chunks.len(), omnispeak_misc_lines(self@)),
                "%int DEMOSTART "@,
                decimal(self@.demo_start().unwrap() as nat),
                "\n"@,
                omnispeak_lumps(self@),
            );
        }
    }
}

} // verus!
