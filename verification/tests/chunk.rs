use kojacoord_protocol::types::chunk::{
    BiomeConverter, BlockStateConverter, ChunkData, ChunkFormat, FlattenedChunkSection, LegacyChunkSection,
    ModernBiomeChunkSection, NewHeightChunkSection,
};

#[test]
fn block_state_conversion() {
    let converter = BlockStateConverter::new();

    // Test legacy to flattened
    let flattened = converter.to_flattened(1);
    assert_eq!(flattened, "minecraft:stone");

    // Test flattened to legacy
    let legacy = converter.to_legacy("minecraft:stone");
    assert_eq!(legacy, 1);
}

#[test]
fn biome_conversion() {
    let converter = BiomeConverter::new();

    // Test legacy to modern
    let modern = converter.to_modern(1);
    assert_eq!(modern, 5); // Plains

    // Test modern to legacy
    let legacy = converter.to_legacy(5);
    assert_eq!(legacy, 1);
}

#[test]
fn block_ids_past_the_table_become_air() {
    let c = BlockStateConverter::new();
    assert_eq!(c.to_flattened(4096), "minecraft:air");
    assert_eq!(c.to_flattened(u16::MAX), "minecraft:air");
    assert_eq!(c.to_flattened(61), "minecraft:air");
    assert_eq!(c.to_flattened(60), "minecraft:black_wool");
}

#[test]
fn unknown_block_names_become_id_zero() {
    let c = BlockStateConverter::default();
    assert_eq!(c.to_legacy("minecraft:nonexistent"), 0);
    assert_eq!(c.to_legacy("minecraft:granite"), 0);
    // Air fills every id from 61 on, but its own id is 0.
    assert_eq!(c.to_legacy("minecraft:air"), 0);
}

#[test]
fn known_block_ids_roundtrip() {
    let c = BlockStateConverter::new();
    for id in 0u16..=60 {
        let name = c.to_flattened(id);
        assert_eq!(c.to_legacy(&name), id, "{name}");
    }
}

#[test]
fn biome_ids_roundtrip() {
    let c = BiomeConverter::default();
    // Ocean is legacy 0 and modern 0, though ids 40 to 255 map to 0 too.
    assert_eq!(c.to_legacy(0), 0);
    assert_eq!(c.to_legacy(9999), 0);
    assert_eq!(c.to_legacy(-1), 0);
    assert_eq!(c.to_legacy(40), 0);
    for legacy in 0u8..=39 {
        assert_eq!(c.to_legacy(c.to_modern(legacy)), legacy);
    }
    assert_eq!(c.to_modern(255), 0);
}

#[test]
fn section_constructors() {
    let s = LegacyChunkSection::new();
    assert_eq!(s.size(), 4096 + 3 * 2048);
    assert!(s.blocks.iter().all(|b| *b == 0));
    let f = FlattenedChunkSection::default();
    assert_eq!(f.palette, vec!["minecraft:air".to_string()]);
    assert_eq!(f.block_states.len(), 256);
    let m = ModernBiomeChunkSection::new();
    assert_eq!(m.biomes.len(), 256);
    let n = NewHeightChunkSection::new();
    assert_eq!(n.biomes.len(), 64);
}

#[test]
fn chunk_data_format_and_count() {
    let d = ChunkData::Legacy(vec![LegacyChunkSection::new(), LegacyChunkSection::new()]);
    assert_eq!(d.format(), ChunkFormat::Legacy);
    assert_eq!(d.section_count(), 2);
    let d = ChunkData::NewHeight(vec![]);
    assert_eq!(d.format(), ChunkFormat::NewHeight);
    assert_eq!(d.section_count(), 0);
    assert_eq!(ChunkData::Flattened(vec![FlattenedChunkSection::new()]).format(), ChunkFormat::Flattened);
    assert_eq!(ChunkData::ModernBiomes(vec![]).format(), ChunkFormat::ModernBiomes);
}
