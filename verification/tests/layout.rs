use idgrab::headers::{GfxHeaders, Lump, MiscChunk};
use idgrab::layout::{Category, MiscKind, TileClass, HEADER_CHUNK_COUNT};
use idgrab::script::parse_gfx_script;

fn sample() -> GfxHeaders {
    parse_gfx_script(
        "Fonts { \"F0\" \"F1\" }
         FontsMasked { \"M0\" }
         Bitmaps { \"B0\" \"B1\" \"B2\" }
         BitmapsMasked { \"BM0\" }
         Sprites { \"S0\" \"S1\" }
         Tiles8 104 Tiles8Masked 12 Tiles16 5 Tiles16Masked 7 Tiles32 2 Tiles32Masked 3
         Chunk \"C\" Demo 1",
    )
    .unwrap()
}

#[test]
fn empty_inventory_layout() {
    let headers = GfxHeaders::new();
    assert_eq!(HEADER_CHUNK_COUNT, 3);
    assert!(headers.layout_fits());
    assert_eq!(headers.num_chunks(), 3);
    assert_eq!(headers.fonts_start(), 3);
    assert_eq!(headers.fonts_masked_start(), 3);
    assert_eq!(headers.bitmaps_start(), 3);
    assert_eq!(headers.bitmaps_masked_start(), 3);
    assert_eq!(headers.sprites_start(), 3);
    assert_eq!(headers.tile8_start(), 3);
    assert_eq!(headers.tile8_masked_start(), 3);
    assert_eq!(headers.tile16_start(), 3);
    assert_eq!(headers.tile16_masked_start(), 3);
    assert_eq!(headers.tile32_start(), 3);
    assert_eq!(headers.tile32_masked_start(), 3);
    assert_eq!(headers.misc_start(), 3);
    assert_eq!(headers.demo_start(), None);
}

#[test]
fn starts_are_cumulative() {
    let headers = sample();
    assert_eq!(headers.fonts_start(), 3);
    assert_eq!(headers.fonts_masked_start(), 5);
    assert_eq!(headers.bitmaps_start(), 6);
    assert_eq!(headers.bitmaps_masked_start(), 9);
    assert_eq!(headers.sprites_start(), 10);
    assert_eq!(headers.tile8_start(), 12);
    assert_eq!(headers.tile8_masked_start(), 13);
    assert_eq!(headers.tile16_start(), 14);
    assert_eq!(headers.tile16_masked_start(), 19);
    assert_eq!(headers.tile32_start(), 26);
    assert_eq!(headers.tile32_masked_start(), 28);
    assert_eq!(headers.misc_start(), 31);
    assert_eq!(headers.num_chunks(), 33);
    assert_eq!(headers.demo_start(), Some(32));
}

#[test]
fn category_accessors_agree_with_named_ones() {
    let headers = sample();
    assert_eq!(headers.category_start(Category::Fonts), headers.fonts_start());
    assert_eq!(headers.category_start(Category::FontsMasked), headers.fonts_masked_start());
    assert_eq!(headers.category_start(Category::Bitmaps), headers.bitmaps_start());
    assert_eq!(headers.category_start(Category::BitmapsMasked), headers.bitmaps_masked_start());
    assert_eq!(headers.category_start(Category::Sprites), headers.sprites_start());
    assert_eq!(headers.list(Category::Bitmaps), &headers.bitmaps);
    assert_eq!(headers.list(Category::Sprites).len(), 2);
    assert_eq!(headers.next_index(Category::Bitmaps), 9);
    assert_eq!(headers.next_index(Category::Sprites), 12);
    assert_eq!(headers.tile_count(TileClass::Tile8), 104);
    assert_eq!(headers.tile_count(TileClass::Tile8Masked), 12);
    assert_eq!(headers.tile_count(TileClass::Tile16), 5);
    assert_eq!(headers.tile_count(TileClass::Tile16Masked), 7);
    assert_eq!(headers.tile_count(TileClass::Tile32), 2);
    assert_eq!(headers.tile_count(TileClass::Tile32Masked), 3);
    assert!(headers.has_room());
}

#[test]
fn tile8_classes_take_one_chunk_or_none() {
    let mut headers = GfxHeaders::new();
    headers.set_tile_count(TileClass::Tile8, 1000);
    assert_eq!(headers.tile8_masked_start(), 4);
    assert_eq!(headers.num_chunks(), 4);
    headers.set_tile_count(TileClass::Tile8Masked, 1);
    assert_eq!(headers.tile16_start(), 5);
    assert_eq!(headers.num_chunks(), 5);
    headers.set_tile_count(TileClass::Tile8, 0);
    assert_eq!(headers.tile8_masked_start(), 3);
    assert_eq!(headers.tile16_start(), 4);
    assert_eq!(headers.num_chunks(), 4);
    headers.set_tile_count(TileClass::Tile16, 10);
    headers.set_tile_count(TileClass::Tile32Masked, 4);
    assert_eq!(headers.tile16_masked_start(), 14);
    assert_eq!(headers.misc_start(), 18);
    assert_eq!(headers.num_chunks(), 18);
}

#[test]
fn total_is_sum_of_categories_whichever_are_empty() {
    let scripts = [
        "",
        "Fonts { \"A\" }",
        "Sprites { \"A\" \"B\" }",
        "Tiles8 5",
        "Tiles8Masked 5",
        "Tiles16 5",
        "Tiles32Masked 5",
        "Chunk \"X\"",
        "Fonts { \"A\" } Tiles32 2 Demo 0",
        "FontsMasked { \"A\" } Bitmaps { \"B\" } BitmapsMasked { \"C\" }",
    ];
    for script in scripts {
        let headers = parse_gfx_script(script).unwrap();
        let tile8 = if headers.tile8_count != 0 { 1 } else { 0 };
        let tile8_masked = if headers.tile8_masked_count != 0 { 1 } else { 0 };
        let sum = 3
            + headers.fonts.len() as u32
            + headers.fonts_masked.len() as u32
            + headers.bitmaps.len() as u32
            + headers.bitmaps_masked.len() as u32
            + headers.sprites.len() as u32
            + tile8
            + tile8_masked
            + headers.tile16_count
            + headers.tile16_masked_count
            + headers.tile32_count
            + headers.tile32_masked_count
            + headers.misc_chunks.len() as u32;
        assert_eq!(headers.num_chunks(), sum);
        assert_eq!(headers.num_chunks(), headers.misc_start() + headers.misc_chunks.len() as u32);
        let starts = [
            headers.fonts_start(),
            headers.fonts_masked_start(),
            headers.bitmaps_start(),
            headers.bitmaps_masked_start(),
            headers.sprites_start(),
            headers.tile8_start(),
            headers.tile8_masked_start(),
            headers.tile16_start(),
            headers.tile16_masked_start(),
            headers.tile32_start(),
            headers.tile32_masked_start(),
            headers.misc_start(),
            headers.num_chunks(),
        ];
        for pair in starts.windows(2) {
            assert!(pair[0] <= pair[1]);
        }
    }
}

#[test]
fn chunk_name_covers_exactly_the_named_categories() {
    let headers = sample();
    let expected = ["F0", "F1", "M0", "B0", "B1", "B2", "BM0", "S0", "S1"];
    for chunk in 0..3 {
        assert_eq!(headers.chunk_name(chunk), None);
        assert_eq!(headers.omnispeak_chunk_name(chunk), None);
    }
    for (i, name) in expected.iter().enumerate() {
        assert_eq!(headers.chunk_name(3 + i as u32), Some(name.to_string()));
    }
    for chunk in headers.tile8_start()..headers.num_chunks() + 5 {
        assert_eq!(headers.chunk_name(chunk), None);
        assert_eq!(headers.omnispeak_chunk_name(chunk), None);
    }
    assert_eq!(headers.chunk_name(u32::MAX), None);
}

#[test]
fn omnispeak_chunk_name_has_category_tag() {
    let headers = sample();
    assert_eq!(headers.omnispeak_chunk_name(3), Some("FON_F0".to_string()));
    assert_eq!(headers.omnispeak_chunk_name(4), Some("FON_F1".to_string()));
    assert_eq!(headers.omnispeak_chunk_name(5), Some("FONM_M0".to_string()));
    assert_eq!(headers.omnispeak_chunk_name(6), Some("PIC_B0".to_string()));
    assert_eq!(headers.omnispeak_chunk_name(8), Some("PIC_B2".to_string()));
    assert_eq!(headers.omnispeak_chunk_name(9), Some("PICM_BM0".to_string()));
    assert_eq!(headers.omnispeak_chunk_name(10), Some("SPR_S0".to_string()));
    assert_eq!(headers.omnispeak_chunk_name(11), Some("SPR_S1".to_string()));
    assert_eq!(headers.omnispeak_chunk_name(12), None);
}

#[test]
fn chunk_name_with_empty_categories_between() {
    let headers = parse_gfx_script("Fonts { \"F\" } Sprites { \"S\" }").unwrap();
    assert_eq!(headers.chunk_name(3), Some("F".to_string()));
    assert_eq!(headers.chunk_name(4), Some("S".to_string()));
    assert_eq!(headers.omnispeak_chunk_name(4), Some("SPR_S".to_string()));
    assert_eq!(headers.chunk_name(5), None);
}

#[test]
fn layout_that_overflows_is_detected() {
    let mut headers = GfxHeaders::new();
    headers.set_tile_count(TileClass::Tile16, u32::MAX - 3);
    assert!(headers.layout_fits());
    assert_eq!(headers.num_chunks(), u32::MAX);
    headers.set_tile_count(TileClass::Tile32, 1);
    assert!(!headers.layout_fits());
    // The names can still be looked up.
    headers.push_entry(Category::Fonts, "F".to_string());
    assert_eq!(headers.chunk_name(3), Some("F".to_string()));
    assert!(headers.has_room());
}

#[test]
fn building_an_inventory_by_hand() {
    let mut headers = GfxHeaders::new();
    headers.set_extension("CK6".to_string());
    headers.push_entry(Category::Bitmaps, "A".to_string());
    let start = headers.next_index(Category::Bitmaps);
    headers.push_entry(Category::Bitmaps, "B".to_string());
    headers.push_entry(Category::Bitmaps, "C".to_string());
    headers.close_lump(Category::Bitmaps, "L".to_string(), start);
    headers.push_misc(MiscChunk::named(MiscKind::Article, "TXT".to_string()));
    headers.push_misc(MiscChunk::Demo(2));
    assert_eq!(headers.extension, Some("CK6".to_string()));
    assert_eq!(
        headers.lumps,
        vec![Lump { name: "L".to_string(), start_chunk: 4, end_chunk: 5 }]
    );
    assert_eq!(
        headers.misc_chunks,
        vec![MiscChunk::Article("TXT".to_string()), MiscChunk::Demo(2)]
    );
    assert_eq!(MiscChunk::named(MiscKind::Chunk, "X".to_string()), MiscChunk::Chunk("X".to_string()));
    assert_eq!(
        MiscChunk::named(MiscKind::B8000Text, "X".to_string()),
        MiscChunk::B8000Text("X".to_string())
    );
    assert_eq!(
        MiscChunk::named(MiscKind::Terminator, "X".to_string()),
        MiscChunk::Terminator("X".to_string())
    );
    assert_eq!(headers.demo_start(), Some(7));
}
