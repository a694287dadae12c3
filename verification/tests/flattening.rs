use kojacoord_protocol::flattening::{
    alias_modern_item, alias_modern_name, escape, snake_from_display, strip_wood_planks, ModernBlock,
};
use kojacoord_protocol::tables::{
    block_table, item_table, BlockIndex, ItemEntry, LegacyBlock, SkippedBlock, Variation,
};

fn modern(name: &str, display: &str, default_state: Option<u32>, min_state_id: Option<u32>) -> ModernBlock {
    ModernBlock { name: name.to_string(), display_name: display.to_string(), default_state, min_state_id }
}

#[test]
fn snake_case_of_display_names() {
    assert_eq!(snake_from_display("Light blue Wool"), "light_blue_wool");
    assert_eq!(snake_from_display("Jack o'Lantern"), "jack_o_lantern");
    assert_eq!(snake_from_display("  Block of (Iron)  "), "block_of_iron");
    assert_eq!(snake_from_display("Stone"), "stone");
    assert_eq!(snake_from_display(""), "");
    assert_eq!(snake_from_display("!!!"), "");
    assert_eq!(snake_from_display("A--B"), "a_b");
    assert_eq!(snake_from_display("Ünïcode Block 2"), "n_code_block_2");
}

#[test]
fn wood_planks_rewrite() {
    assert_eq!(strip_wood_planks("oak_wood_planks"), Some("oak_planks".to_string()));
    assert_eq!(strip_wood_planks("dark_oak_wood_planks"), Some("dark_oak_planks".to_string()));
    assert_eq!(strip_wood_planks("_wood_planks"), Some("_planks".to_string()));
    assert_eq!(strip_wood_planks("oak_planks"), None);
    assert_eq!(strip_wood_planks(""), None);
}

#[test]
fn block_aliases() {
    assert_eq!(alias_modern_name("web"), Some("cobweb"));
    assert_eq!(alias_modern_name("snow_layer"), Some("snow"));
    assert_eq!(alias_modern_name("snow"), Some("snow_block"));
    assert_eq!(alias_modern_name("double_oak_wood_slab"), Some("oak_slab"));
    assert_eq!(alias_modern_name("inverted_daylight_sensor"), Some("daylight_detector"));
    assert_eq!(alias_modern_name("stone"), None);
}

#[test]
fn item_aliases_try_blocks_first() {
    assert_eq!(alias_modern_item("record_cat"), Some("music_disc_cat"));
    assert_eq!(alias_modern_item("noteblock"), Some("note_block"));
    // Both tables name `skull`; the block table wins.
    assert_eq!(alias_modern_item("skull"), Some("skeleton_skull"));
    assert_eq!(alias_modern_item("leaves2"), Some("oak_leaves"));
    assert_eq!(alias_modern_item("diamond"), None);
}

#[test]
fn escaping_for_toml() {
    assert_eq!(escape(r#"a "b" \c"#), r#"a \"b\" \\c"#);
    assert_eq!(escape("plain"), "plain");
    assert_eq!(escape(""), "");
}

#[test]
fn modern_block_state_prefers_the_default() {
    assert_eq!(modern("oak_log", "Oak Log", Some(73), Some(72)).state(), Some(73));
    assert_eq!(modern("oak_log", "Oak Log", None, Some(72)).state(), Some(72));
    assert_eq!(modern("oak_log", "Oak Log", None, None).state(), None);
}

#[test]
fn block_lookup_order() {
    let m = vec![
        modern("stone", "Stone", Some(1), None),
        modern("polished_andesite", "Polished Andesite", Some(7), None),
        modern("cobweb", "Cobweb", Some(1341), None),
        modern("oak_planks", "Oak Planks", Some(13), None),
        modern("stone", "Stone again", Some(99), None),
    ];
    let index = BlockIndex::new(&m);
    // By name, the last block of that name.
    assert_eq!(index.resolve("stone"), Some(4));
    // By snake_case display name.
    assert_eq!(index.resolve("polished_andesite"), Some(1));
    // By curated rename.
    assert_eq!(index.resolve("web"), Some(2));
    // By the planks rewrite.
    assert_eq!(index.resolve("oak_wood_planks"), Some(3));
    assert_eq!(index.resolve("nothing"), None);
}

#[test]
fn block_rows_and_skips() {
    let m = vec![
        modern("stone", "Stone", Some(1), None),
        modern("granite", "Granite", Some(2), None),
        modern("air", "Air", None, None),
    ];
    let legacy = vec![
        LegacyBlock { id: 1, name: "stone".to_string(), display_name: "Stone".to_string(), variations: vec![
            Variation { metadata: 0, display_name: "Stone".to_string() },
            Variation { metadata: 1, display_name: "Granite".to_string() },
            Variation { metadata: 2, display_name: "Smooth Granite".to_string() },
            Variation { metadata: 16, display_name: "Too Far".to_string() },
        ] },
        LegacyBlock { id: 0, name: "air".to_string(), display_name: "Air".to_string(), variations: vec![] },
        LegacyBlock { id: 200, name: "mystery".to_string(), display_name: "Mystery".to_string(), variations: vec![] },
        LegacyBlock { id: 3, name: "stone".to_string(), display_name: "Weird".to_string(), variations: vec![
            Variation { metadata: 0, display_name: "No Such Thing".to_string() },
        ] },
    ];
    let (rows, skipped) = block_table(&legacy, &m);
    let rows: Vec<(u32, u32, u32, String)> =
        rows.into_iter().map(|r| (r.legacy_id, r.metadata, r.state, r.display_name)).collect();
    assert_eq!(rows, vec![
        (1, 0, 1, "Stone".to_string()),
        (1, 1, 2, "Granite".to_string()),
        // metadata 0 falls back to the block's own name.
        (3, 0, 1, "No Such Thing".to_string()),
    ]);
    assert_eq!(skipped.len(), 4);
    assert!(matches!(&skipped[0], SkippedBlock::NoMatch { metadata: 2, key, .. } if key == "smooth_granite"));
    assert!(matches!(&skipped[1], SkippedBlock::MetaOutOfRange { metadata: 16, .. }));
    // `air` resolves, but to a block without a state.
    assert!(matches!(&skipped[2], SkippedBlock::NoVariants { id: 0, .. }));
    assert!(matches!(&skipped[3], SkippedBlock::NoVariants { id: 200, .. }));
}

#[test]
fn item_rows_and_skips() {
    let item = |id: i32, name: &str, display: &str| ItemEntry { id, name: name.to_string(), display_name: display.to_string() };
    let m = vec![item(1, "stone", "Stone"), item(800, "music_disc_cat", "Music Disc"), item(-5, "broken", "Broken")];
    let legacy = vec![
        item(1, "stone", "Stone"),
        item(2267, "record_cat", "Music Disc"),
        item(40000, "stone", "Stone"),
        item(7, "broken", "Broken"),
        item(8, "unknown", "Unknown"),
    ];
    let (rows, skipped) = item_table(&legacy, &m);
    let rows: Vec<(i32, i32)> = rows.iter().map(|r| (r.legacy_id, r.modern_id)).collect();
    // "Music Disc" matches by display name before the alias is tried.
    assert_eq!(rows, vec![(1, 1), (2267, 800)]);
    let skipped: Vec<(String, i32)> = skipped.into_iter().map(|s| (s.name, s.id)).collect();
    assert_eq!(skipped, vec![
        ("stone".to_string(), 40000),
        ("broken".to_string(), 7),
        ("unknown".to_string(), 8),
    ]);
}

#[test]
fn snake_names_are_snake_case_and_stable() {
    for s in ["Light blue Wool", "  Block of (Iron)  ", "A--B", "Ünïcode Block 2", "_x__y_", "Redstone Torch (on)"] {
        let r = snake_from_display(s);
        assert!(r.chars().all(|c| c.is_ascii_lowercase() || c.is_ascii_digit() || c == '_'), "{r}");
        assert!(!r.starts_with('_') && !r.ends_with('_') && !r.contains("__"), "{r}");
        assert_eq!(snake_from_display(&r), r);
    }
}
