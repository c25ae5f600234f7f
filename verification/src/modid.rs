//! The definition script for ModId and uGrab: one line per category with its
//! count and its first chunk, and one line per miscellaneous chunk.

use vstd::prelude::*;
use crate::headers::{GfxHeaders, MiscChunk};
use crate::layout::{Inventory, MiscChunkView};
use crate::join::{lemma_join11, lemma_join3};
use crate::text::{concat_lines, decimal, push_decimal};

verus! {

/// The lines at the top of the script: the game, its extension if it has
/// one, and the total number of chunks.
pub open spec fn modid_head(inventory: Inventory) -> Seq<char> {
    "# ModID Script: Automatically Generated\nGALAXY\n"@ + match inventory.extension {
        Some(extension) => "\tGAMEEXT "@ + extension + "\n"@,
        None => Seq::empty(),
    } + "\tGRSTARTS 3\n\tCHUNKS "@ + decimal(inventory.num_chunks() as nat) + "\n"@
}

/// The line of one category: its label, the count, the first chunk, and what
/// ends the line.
pub open spec fn modid_category(label: Seq<char>, count: nat, start: int, tail: Seq<char>) -> Seq<
    char,
> {
    label + decimal(count) + " "@ + decimal(start as nat) + tail
}

/// The lines of the eleven categories, in the order of the layout.
pub open spec fn modid_categories(inventory: Inventory) -> Seq<char> {
    modid_category("\t\tFONT\t\t"@, inventory.fonts.len(), inventory.fonts_start(), "\n"@)
        + modid_category(
        "\t\tFONTM\t\t"@,
        inventory.fonts_masked.len(),
        inventory.fonts_masked_start(),
        "\n"@,
    ) + modid_category(
        "\t\tPICS\t\t"@,
        inventory.bitmaps.len(),
        inventory.bitmaps_start(),
        " 0\n"@,
    ) + modid_category(
        "\t\tPICM\t\t"@,
        inventory.bitmaps_masked.len(),
        inventory.bitmaps_masked_start(),
        " 1\n"@,
    ) + modid_category(
        "\t\tSPRITES\t\t"@,
        inventory.sprites.len(),
        inventory.sprites_start(),
        " 2\n"@,
    ) + modid_category(
        "\t\tTILE8\t\t"@,
        inventory.tile8_count as nat,
        inventory.tile8_start(),
        "\n"@,
    ) + modid_category(
        "\t\tTILE8M\t\t"@,
        inventory.tile8_masked_count as nat,
        inventory.tile8_masked_start(),
        "\n"@,
    ) + modid_category(
        "\t\tTILE16\t\t"@,
        inventory.tile16_count as nat,
        inventory.tile16_start(),
        "\n"@,
    ) + modid_category(
        "\t\tTILE16M\t\t"@,
        inventory.tile16_masked_count as nat,
        inventory.tile16_masked_start(),
        "\n"@,
    ) + modid_category(
        "\t\tTILE32\t\t"@,
        inventory.tile32_count as nat,
        inventory.tile32_start(),
        "\n"@,
    ) + modid_category(
        "\t\tTILE32M\t\t"@,
        inventory.tile32_masked_count as nat,
        inventory.tile32_masked_start(),
        "\n"@,
    )
}

/// The line of the miscellaneous chunk with the index `index`.
pub open spec fn modid_misc_line(chunk: MiscChunkView, index: int) -> Seq<char> {
    match chunk {
        MiscChunkView::Chunk(name) => "\t\tMISC "@ + decimal(index as nat) + " "@ + name + "\n"@,
        MiscChunkView::B8000Text(name) => "\t\tB800TEXT "@ + decimal(index as nat) + " "@ + name
            + "\n"@,
        MiscChunkView::Article(name) => "\t\tTEXT "@ + decimal(index as nat) + " "@ + name
            + "\n"@,
        MiscChunkView::Terminator(name) => "\t\tTERMINATOR "@ + decimal(index as nat) + " "@
            + name + "\n"@,
        MiscChunkView::Demo(number) => "\t\tDEMO "@ + decimal(index as nat) + " "@ + decimal(
            number as nat,
        ) + "\n"@,
    }
}

/// The lines of the miscellaneous chunks, by their place in the list.
pub open spec fn modid_misc_lines(inventory: Inventory) -> spec_fn(int) -> Seq<char> {
    |i: int| modid_misc_line(inventory.misc_chunks[i], inventory.misc_start() + i)
}

/// The whole definition script of an inventory.
pub open spec fn modid_script(inventory: Inventory) -> Seq<char> {
    modid_head(inventory) + modid_categories(inventory) + concat_lines(
        inventory.misc_chunks.len(),
        modid_misc_lines(inventory),
    )
}

fn write_category(script: &mut String, label: &str, count: u64, start: u32, tail: &str)
    ensures
        final(script)@ == old(script)@ + modid_category(label@, count as nat, start as int, tail@),
{
    script.append(label);
    push_decimal(script, count);
    script.append(" ");
    push_decimal(script, start as u64);
    script.append(tail);
    assert(script@ =~= old(script)@ + modid_category(
        label@,
        count as nat,
        start as int,
        tail@,
    ));
}

fn write_misc_line(script: &mut String, chunk: &MiscChunk, index: u32)
    ensures
        final(script)@ == old(script)@ + modid_misc_line(chunk@, index as int),
{
    match chunk {
        MiscChunk::Chunk(name) => {
            script.append("\t\tMISC ");
            push_decimal(script, index as u64);
            script.append(" ");
            script.append(name.as_str());
        },
        MiscChunk::B8000Text(name) => {
            script.append("\t\tB800TEXT ");
            push_decimal(script, index as u64);
            script.append(" ");
            script.append(name.as_str());
        },
        MiscChunk::Article(name) => {
            script.append("\t\tTEXT ");
            push_decimal(script, index as u64);
            script.append(" ");
            script.append(name.as_str());
        },
        MiscChunk::Terminator(name) => {
            script.append("\t\tTERMINATOR ");
            push_decimal(script, index as u64);
            script.append(" ");
            script.append(name.as_str());
        },
        MiscChunk::Demo(number) => {
            script.append("\t\tDEMO ");
            push_decimal(script, index as u64);
            script.append(" ");
            push_decimal(script, *number as u64);
        },
    }
    script.append("\n");
    assert(script@ =~= old(script)@ + modid_misc_line(chunk@, index as int));
}

impl GfxHeaders {
    fn write_modid_head(&self, script: &mut String)
        requires
            self@.fits(),
        ensures
            final(script)@ == old(script)@ + modid_head(self@),
    {
        script.append("# ModID Script: Automatically Generated\nGALAXY\n");
        match &self.extension {
            Some(extension) => {
                script.append("\tGAMEEXT ");
                script.append(extension.as_str());
                script.append("\n");
            },
            None => {},
        }
        script.append("\tGRSTARTS 3\n\tCHUNKS ");
        push_decimal(script, self.num_chunks() as u64);
        script.append("\n");
        assert(script@ =~= old(script)@ + modid_head(self@));
    }

    fn write_modid_categories(&self, script: &mut String)
        requires
            self@.fits(),
        ensures
            final(script)@ == old(script)@ + modid_categories(self@),
    {
        write_category(script, "\t\tFONT\t\t", self.fonts.len() as u64, self.fonts_start(), "\n");
        write_category(
            script,
            "\t\tFONTM\t\t",
            self.fonts_masked.len() as u64,
            self.fonts_masked_start(),
            "\n",
        );
        write_category(
            script,
            "\t\tPICS\t\t",
            self.bitmaps.len() as u64,
            self.bitmaps_start(),
            " 0\n",
        );
        write_category(
            script,
            "\t\tPICM\t\t",
            self.bitmaps_masked.len() as u64,
            self.bitmaps_masked_start(),
            " 1\n",
        );
        write_category(
            script,
            "\t\tSPRITES\t\t",
            self.sprites.len() as u64,
            self.sprites_start(),
            " 2\n",
        );
        write_category(
            script,
            "\t\tTILE8\t\t",
            self.tile8_count as u64,
            self.tile8_start(),
            "\n",
        );
        write_category(
            script,
            "\t\tTILE8M\t\t",
            self.tile8_masked_count as u64,
            self.tile8_masked_start(),
            "\n",
        );
        write_category(
            script,
            "\t\tTILE16\t\t",
            self.tile16_count as u64,
            self.tile16_start(),
            "\n",
        );
        write_category(
            script,
            "\t\tTILE16M\t\t",
            self.tile16_masked_count as u64,
            self.tile16_masked_start(),
            "\n",
        );
        write_category(
            script,
            "\t\tTILE32\t\t",
            self.tile32_count as u64,
            self.tile32_start(),
            "\n",
        );
        write_category(
            script,
            "\t\tTILE32M\t\t",
            self.tile32_masked_count as u64,
            self.tile32_masked_start(),
            "\n",
        );
        proof {
            lemma_join11(
                old(script)@,
                modid_category("\t\tFONT\t\t"@, self@.fonts.len(), self@.fonts_start(), "\n"@),
                modid_category(
                    "\t\tFONTM\t\t"@,
                    self@.fonts_masked.len(),
                    self@.fonts_masked_start(),
                    "\n"@,
                ),
                modid_category(
                    "\t\tPICS\t\t"@,
                    self@.bitmaps.len(),
                    self@.bitmaps_start(),
                    " 0\n"@,
                ),
                modid_category(
                    "\t\tPICM\t\t"@,
                    self@.bitmaps_masked.len(),
                    self@.bitmaps_masked_start(),
                    " 1\n"@,
                ),
                modid_category(
                    "\t\tSPRITES\t\t"@,
                    self@.sprites.len(),
                    self@.sprites_start(),
                    " 2\n"@,
                ),
                modid_category(
                    "\t\tTILE8\t\t"@,
                    self.tile8_count as nat,
                    self@.tile8_start(),
                    "\n"@,
                ),
                modid_category(
                    "\t\tTILE8M\t\t"@,
                    self.tile8_masked_count as nat,
                    self@.tile8_masked_start(),
                    "\n"@,
                ),
                modid_category(
                    "\t\tTILE16\t\t"@,
                    self.tile16_count as nat,
                    self@.tile16_start(),
                    "\n"@,
                ),
                modid_category(
                    "\t\tTILE16M\t\t"@,
                    self.tile16_masked_count as nat,
                    self@.tile16_masked_start(),
                    "\n"@,
                ),
                modid_category(
                    "\t\tTILE32\t\t"@,
                    self.tile32_count as nat,
                    self@.tile32_start(),
                    "\n"@,
                ),
                modid_category(
                    "\t\tTILE32M\t\t"@,
                    self.tile32_masked_count as nat,
                    self@.tile32_masked_start(),
                    "\n"@,
                ),
            );
        }
    }

    /// Appends the definition script of the inventory to `script`.
    pub fn write_modid_script(&self, script: &mut String)
        requires
            self@.fits(),
        ensures
            final(script)@ == old(script)@ + modid_script(self@),
    {
        self.write_modid_head(script);
        self.write_modid_categories(script);
        let ghost base = script@;
        let first = self.misc_start();
        let mut i: usize = 0;
        assert(script@ =~= base + concat_lines(0, modid_misc_lines(self@)));
        while i < self.misc_chunks.len()
            invariant
                0 <= i <= self.misc_chunks@.len(),
                self@.fits(),
                first == self@.misc_start(),
                script@ == base + concat_lines(i as nat, modid_misc_lines(self@)),
            decreases self.misc_chunks@.len() - i,
        {
            write_misc_line(script, &self.misc_chunks[i], first + i as u32);
            i += 1;
            assert(script@ =~= base + concat_lines(i as nat, modid_misc_lines(self@)));
        }
        proof {
            lemma_join3(
                old(script)@,
                modid_head(self@),
                modid_categories(self@),
                concat_lines(self@.misc_chunks.len(), modid_misc_lines(self@)),
            );
        }
    }
}

} // verus!
