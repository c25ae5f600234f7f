//! The binary layout-info file: 23 numbers of 16 bits, least significant
//! byte first.

use vstd::prelude::*;
use crate::binary_io::{le16_bytes, write_le16};
use crate::headers::GfxHeaders;
use crate::layout::Inventory;

verus! {

/// The low 16 bits of `value`.
pub open spec fn low16(value: int) -> u16 {
    (value % 0x1_0000) as u16
}

/// The numbers of the layout-info file, in the order of the file: the tile
/// counts, the tile starts, the counts and the starts of bitmaps, masked
/// bitmaps and sprites, the indices of the three header chunks, and the count
/// and the start of the miscellaneous chunks.
pub open spec fn gfxinfoe_values(inventory: Inventory) -> Seq<int> {
    seq![
        inventory.tile8_count as int,
        inventory.tile8_masked_count as int,
        inventory.tile16_count as int,
        inventory.tile16_masked_count as int,
        inventory.tile32_count as int,
        inventory.tile32_masked_count as int,
        inventory.tile8_start(),
        inventory.tile8_masked_start(),
        inventory.tile16_start(),
        inventory.tile16_masked_start(),
        inventory.tile32_start(),
        inventory.tile32_masked_start(),
        inventory.bitmaps.len() as int,
        inventory.bitmaps_masked.len() as int,
        inventory.sprites.len() as int,
        inventory.bitmaps_start(),
        inventory.bitmaps_masked_start(),
        inventory.sprites_start(),
        0,
        1,
        2,
        inventory.misc_chunks.len() as int,
        inventory.misc_start(),
    ]
}

/// The low 16 bits of every number, two bytes each, least significant first.
pub open spec fn le16_words(values: Seq<int>) -> Seq<u8>
    decreases values.len(),
{
    if values.len() == 0 {
        Seq::empty()
    } else {
        le16_words(values.drop_last()) + le16_bytes(low16(values.last()))
    }
}

/// The content of the layout-info file of an inventory.
pub open spec fn gfxinfoe(inventory: Inventory) -> Seq<u8> {
    le16_words(gfxinfoe_values(inventory))
}

/// The file has two bytes for every number in it.
pub proof fn lemma_le16_words_len(values: Seq<int>)
    ensures
        le16_words(values).len() == 2 * values.len(),
    decreases values.len(),
{
    if values.len() > 0 {
        lemma_le16_words_len(values.drop_last());
    }
}

impl GfxHeaders {
    /// Appends the layout-info file to `writer`. Numbers beyond 16 bits lose
    /// their high bits.
    pub fn write_gfxinfoe(&self, writer: &mut Vec<u8>)
        requires
            self@.fits(),
        ensures
            final(writer)@ == old(writer)@ + gfxinfoe(self@),
            final(writer)@.len() == old(writer)@.len() + 46,
    {
        let mut values: Vec<u32> = Vec::new();
        values.push(self.tile8_count);
        values.push(self.tile8_masked_count);
        values.push(self.tile16_count);
        values.push(self.tile16_masked_count);
        values.push(self.tile32_count);
        values.push(self.tile32_masked_count);
        values.push(self.tile8_start());
        values.push(self.tile8_masked_start());
        values.push(self.tile16_start());
        values.push(self.tile16_masked_start());
        values.push(self.tile32_start());
        values.push(self.tile32_masked_start());
        values.push(self.bitmaps.len() as u32);
        values.push(self.bitmaps_masked.len() as u32);
        values.push(self.sprites.len() as u32);
        values.push(self.bitmaps_start());
        values.push(self.bitmaps_masked_start());
        values.push(self.sprites_start());
        values.push(0);
        values.push(1);
        values.push(2);
        values.push(self.misc_chunks.len() as u32);
        values.push(self.misc_start());
        let ghost wanted = gfxinfoe_values(self@);
        assert(values@.len() == 23 && wanted.len() == 23);
        assert(forall|k: int| 0 <= k < 23 ==> values@[k] as int == wanted[k]);
        let mut i: usize = 0;
        assert(wanted.take(0) =~= Seq::<int>::empty());
        assert(writer@ =~= old(writer)@ + le16_words(wanted.take(0)));
        while i < values.len()
            invariant
                0 <= i <= values@.len(),
                values@.len() == wanted.len(),
                forall|k: int| 0 <= k < values@.len() ==> values@[k] as int == wanted[k],
                writer@ == old(writer)@ + le16_words(wanted.take(i as int)),
            decreases values@.len() - i,
        {
            write_le16((values[i] % 0x1_0000) as u16, writer);
            i += 1;
            assert(wanted.take(i as int).drop_last() =~= wanted.take(i - 1));
            assert(writer@ =~= old(writer)@ + le16_words(wanted.take(i as int)));
        }
        assert(wanted.take(i as int) =~= wanted);
        proof {
            lemma_le16_words_len(wanted);
        }
    }
}

} // verus!
