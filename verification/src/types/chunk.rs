//! Per-era chunk section layouts and the block and biome id converters
//! used when chunks cross the 1.13 flattening.
//!
//! Chunks changed wire layout four times: the 1.13 flattening (numeric
//! block ids become palette state names), the 1.14 biome array, and the
//! 1.18 height rework (sections from Y -64 up to 320).
use crate::registry::str_eq;
use std::collections::HashMap;
use vstd::prelude::*;

verus! {

broadcast use vstd::std_specs::hash::group_hash_axioms;

#[derive(Debug, Clone, Copy, PartialEq, Eq, Structural)]
pub enum ChunkFormat {
    /// Before 1.13: 8-bit block ids plus 4-bit metadata nibbles.
    Legacy,
    /// 1.13: state palette plus a packed long array.
    Flattened,
    /// 1.14 to 1.17: adds the per-section biome array.
    ModernBiomes,
    /// 1.18 on: sections span Y from -64 to 320.
    NewHeight,
}

/// A section before 1.13: a 16×16×16 cube of block ids, with metadata and
/// light packed four bits per block.
#[derive(Debug, Clone)]
pub struct LegacyChunkSection {
    /// Block ids, one byte per block.
    pub blocks: Vec<u8>,
    /// Block metadata, four bits per block.
    pub metadata: Vec<u8>,
    /// Block light, four bits per block.
    pub block_light: Vec<u8>,
    /// Sky light, four bits per block.
    pub sky_light: Vec<u8>,
}

/// `n` zero bytes.
pub open spec fn zeros<T>(n: nat, z: T) -> Seq<T> {
    Seq::new(n, |_i: int| z)
}

impl LegacyChunkSection {
    /// An all-air section with no light.
    pub fn new() -> (r: Self)
        ensures
            r.blocks@ == zeros(4096, 0u8),
            r.metadata@ == zeros(2048, 0u8),
            r.block_light@ == zeros(2048, 0u8),
            r.sky_light@ == zeros(2048, 0u8),
    {
        let r = Self {
            blocks: vec![0u8; 4096],
            metadata: vec![0u8; 2048],
            block_light: vec![0u8; 2048],
            sky_light: vec![0u8; 2048],
        };
        assert(r.blocks@ =~= zeros(4096, 0u8));
        assert(r.metadata@ =~= zeros(2048, 0u8));
        assert(r.block_light@ =~= zeros(2048, 0u8));
        assert(r.sky_light@ =~= zeros(2048, 0u8));
        r
    }

    /// The number of bytes the section's arrays hold.
    pub fn size(&self) -> (r: usize)
        requires
            self.blocks.len() + self.metadata.len() + self.block_light.len() + self.sky_light.len()
                <= usize::MAX,
        ensures
            r == self.blocks.len() + self.metadata.len() + self.block_light.len()
                + self.sky_light.len(),
    {
        self.blocks.len() + self.metadata.len() + self.block_light.len() + self.sky_light.len()
    }
}

impl Default for LegacyChunkSection {
    fn default() -> (r: Self)
        ensures
            r.blocks@ == zeros(4096, 0u8),
            r.metadata@ == zeros(2048, 0u8),
            r.block_light@ == zeros(2048, 0u8),
            r.sky_light@ == zeros(2048, 0u8),
    {
        Self::new()
    }
}

/// A section from 1.13 on: palette indices packed into longs, the palette of
/// state names, and the light arrays.
#[derive(Debug, Clone)]
pub struct FlattenedChunkSection {
    /// Block states as palette indices.
    pub block_states: Vec<i64>,
    /// The state names the indices refer to.
    pub palette: Vec<String>,
    pub block_light: Vec<u8>,
    pub sky_light: Vec<u8>,
}

/// The view of a palette: its state names.
pub open spec fn palette_names(p: Seq<String>) -> Seq<Seq<char>> {
    p.map_values(|s: String| s@)
}

/// The palette of an all-air section.
pub open spec fn air_palette() -> Seq<Seq<char>> {
    seq!["minecraft:air"@]
}

/// What `FlattenedChunkSection::new` returns.
pub open spec fn is_empty_flattened(s: FlattenedChunkSection) -> bool {
    &&& s.block_states@ == zeros(256, 0i64)
    &&& palette_names(s.palette@) == air_palette()
    &&& s.block_light@ == zeros(2048, 0u8)
    &&& s.sky_light@ == zeros(2048, 0u8)
}

impl FlattenedChunkSection {
    /// An all-air section: every index 0, palette `["minecraft:air"]`.
    pub fn new() -> (r: Self)
        ensures
            is_empty_flattened(r),
    {
        let air = String::from_str("minecraft:air");
        let palette = vec![air];
        let r = Self {
            block_states: vec![0i64; 256],
            palette,
            block_light: vec![0u8; 2048],
            sky_light: vec![0u8; 2048],
        };
        assert(r.block_states@ =~= zeros(256, 0i64));
        assert(palette_names(r.palette@) =~= air_palette());
        assert(r.block_light@ =~= zeros(2048, 0u8));
        assert(r.sky_light@ =~= zeros(2048, 0u8));
        r
    }
}

impl Default for FlattenedChunkSection {
    fn default() -> (r: Self)
        ensures
            is_empty_flattened(r),
    {
        Self::new()
    }
}

/// A section from 1.14 to 1.17: the flattened block grid and one biome per
/// (x, z) column.
#[derive(Debug, Clone)]
pub struct ModernBiomeChunkSection {
    pub block_states: FlattenedChunkSection,
    /// Biome ids, 256 of them.
    pub biomes: Vec<i32>,
}

impl ModernBiomeChunkSection {
    pub fn new() -> (r: Self)
        ensures
            is_empty_flattened(r.block_states),
            r.biomes@ == zeros(256, 0i32),
    {
        let r = Self { block_states: FlattenedChunkSection::new(), biomes: vec![0i32; 256] };
        assert(r.biomes@ =~= zeros(256, 0i32));
        r
    }
}

impl Default for ModernBiomeChunkSection {
    fn default() -> (r: Self)
        ensures
            is_empty_flattened(r.block_states),
            r.biomes@ == zeros(256, 0i32),
    {
        Self::new()
    }
}

/// A section from 1.18 on: the flattened block grid and a 4×4×4 biome volume
/// (64 entries, in (y, z, x) order).
#[derive(Debug, Clone)]
pub struct NewHeightChunkSection {
    pub block_states: FlattenedChunkSection,
    pub biomes: Vec<i32>,
}

impl NewHeightChunkSection {
    pub fn new() -> (r: Self)
        ensures
            is_empty_flattened(r.block_states),
            r.biomes@ == zeros(64, 0i32),
    {
        let r = Self { block_states: FlattenedChunkSection::new(), biomes: vec![0i32; 64] };
        assert(r.biomes@ =~= zeros(64, 0i32));
        r
    }
}

impl Default for NewHeightChunkSection {
    fn default() -> (r: Self)
        ensures
            is_empty_flattened(r.block_states),
            r.biomes@ == zeros(64, 0i32),
    {
        Self::new()
    }
}

/// The sections of a chunk, in whichever format they were read.
#[derive(Debug, Clone)]
pub enum ChunkData {
    Legacy(Vec<LegacyChunkSection>),
    Flattened(Vec<FlattenedChunkSection>),
    ModernBiomes(Vec<ModernBiomeChunkSection>),
    NewHeight(Vec<NewHeightChunkSection>),
}

impl ChunkData {
    pub fn format(&self) -> (r: ChunkFormat)
        ensures
            r == match self {
                ChunkData::Legacy(_) => ChunkFormat::Legacy,
                ChunkData::Flattened(_) => ChunkFormat::Flattened,
                ChunkData::ModernBiomes(_) => ChunkFormat::ModernBiomes,
                ChunkData::NewHeight(_) => ChunkFormat::NewHeight,
            },
    {
        match self {
            ChunkData::Legacy(_) => ChunkFormat::Legacy,
            ChunkData::Flattened(_) => ChunkFormat::Flattened,
            ChunkData::ModernBiomes(_) => ChunkFormat::ModernBiomes,
            ChunkData::NewHeight(_) => ChunkFormat::NewHeight,
        }
    }

    pub fn section_count(&self) -> (r: usize)
        ensures
            r == match self {
                ChunkData::Legacy(s) => s.len(),
                ChunkData::Flattened(s) => s.len(),
                ChunkData::ModernBiomes(s) => s.len(),
                ChunkData::NewHeight(s) => s.len(),
            },
    {
        match self {
            ChunkData::Legacy(sections) => sections.len(),
            ChunkData::Flattened(sections) => sections.len(),
            ChunkData::ModernBiomes(sections) => sections.len(),
            ChunkData::NewHeight(sections) => sections.len(),
        }
    }
}

// ── Reverse lookups ─────────────────────────────────────────────────────

/// `i` is the last index of `t` holding `x`.
pub open spec fn is_last<A>(t: Seq<A>, x: A, i: int) -> bool {
    &&& 0 <= i < t.len()
    &&& t[i] == x
    &&& forall|j: int| i < j < t.len() ==> t[j] != x
}

/// `i` is the first index of `t` holding `x`.
pub open spec fn is_first<A>(t: Seq<A>, x: A, i: int) -> bool {
    &&& 0 <= i < t.len()
    &&& t[i] == x
    &&& forall|j: int| 0 <= j < i ==> t[j] != x
}

/// The index a reverse lookup of `x` gives: the first index holding it, so
/// that each id of a table whose earlier ids hold other values maps back to
/// itself; 0 when `x` does not occur.
pub open spec fn reverse_index<A>(t: Seq<A>, x: A) -> int {
    if t.contains(x) {
        choose|i: int| is_first(t, x, i)
    } else {
        0
    }
}

pub proof fn lemma_last_exists<A>(t: Seq<A>, x: A, i: int)
    requires
        0 <= i < t.len(),
        t[i] == x,
    ensures
        exists|j: int| is_last(t, x, j),
    decreases t.len() - i,
{
    if exists|j: int| i < j < t.len() && t[j] == x {
        let j = choose|j: int| i < j < t.len() && t[j] == x;
        lemma_last_exists(t, x, j);
    } else {
        assert(is_last(t, x, i));
    }
}

pub proof fn lemma_last_unique<A>(t: Seq<A>, x: A, i: int, j: int)
    requires
        is_last(t, x, i),
        is_last(t, x, j),
    ensures
        i == j,
{
}

pub proof fn lemma_first_exists<A>(t: Seq<A>, x: A, i: int)
    requires
        0 <= i < t.len(),
        t[i] == x,
    ensures
        exists|j: int| is_first(t, x, j),
    decreases i,
{
    if exists|j: int| 0 <= j < i && t[j] == x {
        let j = choose|j: int| 0 <= j < i && t[j] == x;
        lemma_first_exists(t, x, j);
    } else {
        assert(is_first(t, x, i));
    }
}

pub proof fn lemma_first_unique<A>(t: Seq<A>, x: A, i: int, j: int)
    requires
        is_first(t, x, i),
        is_first(t, x, j),
    ensures
        i == j,
{
}

/// The reverse index of a value that occurs is its first index.
pub proof fn lemma_reverse_index_is_first<A>(t: Seq<A>, x: A, i: int)
    requires
        is_first(t, x, i),
    ensures
        reverse_index(t, x) == i,
{
    assert(t.contains(x)) by {
        assert(t[i] == x);
    }
    let c = choose|c: int| is_first(t, x, c);
    lemma_first_exists(t, x, i);
    lemma_first_unique(t, x, c, i);
}

/// Looking a value up and reading the table there gives the value back, for
/// every value the table holds.
pub proof fn lemma_reverse_then_forward<A>(t: Seq<A>, x: A)
    requires
        t.contains(x),
    ensures
        0 <= reverse_index(t, x) < t.len(),
        t[reverse_index(t, x)] == x,
{
    let i = choose|i: int| 0 <= i < t.len() && t[i] == x;
    lemma_first_exists(t, x, i);
    let j = choose|j: int| is_first(t, x, j);
    lemma_reverse_index_is_first(t, x, j);
}

/// Reading the table at `i` and looking the value up gives `i` back exactly
/// when no earlier index holds the same value.
pub proof fn lemma_forward_then_reverse<A>(t: Seq<A>, i: int)
    requires
        0 <= i < t.len(),
    ensures
        reverse_index(t, t[i]) == i <==> forall|j: int| 0 <= j < i ==> t[j] != t[i],
{
    let x = t[i];
    lemma_first_exists(t, x, i);
    let k = choose|k: int| is_first(t, x, k);
    lemma_reverse_index_is_first(t, x, k);
}

// ── Block ids ───────────────────────────────────────────────────────────

/// The block names with a known legacy id, indexed by that id.
pub open spec fn known_blocks() -> Seq<Seq<char>> {
    seq![
        "minecraft:air"@,
        "minecraft:stone"@,
        "minecraft:grass_block"@,
        "minecraft:dirt"@,
        "minecraft:cobblestone"@,
        "minecraft:oak_planks"@,
        "minecraft:spruce_planks"@,
        "minecraft:birch_planks"@,
        "minecraft:jungle_planks"@,
        "minecraft:acacia_planks"@,
        "minecraft:dark_oak_planks"@,
        "minecraft:bedrock"@,
        "minecraft:water"@,
        "minecraft:lava"@,
        "minecraft:sand"@,
        "minecraft:gravel"@,
        "minecraft:gold_ore"@,
        "minecraft:iron_ore"@,
        "minecraft:coal_ore"@,
        "minecraft:oak_log"@,
        "minecraft:spruce_log"@,
        "minecraft:birch_log"@,
        "minecraft:jungle_log"@,
        "minecraft:acacia_log"@,
        "minecraft:dark_oak_log"@,
        "minecraft:oak_leaves"@,
        "minecraft:spruce_leaves"@,
        "minecraft:birch_leaves"@,
        "minecraft:jungle_leaves"@,
        "minecraft:acacia_leaves"@,
        "minecraft:dark_oak_leaves"@,
        "minecraft:glass"@,
        "minecraft:lapis_ore"@,
        "minecraft:lapis_block"@,
        "minecraft:sandstone"@,
        "minecraft:note_block"@,
        "minecraft:bed"@,
        "minecraft:powered_rail"@,
        "minecraft:detector_rail"@,
        "minecraft:sticky_piston"@,
        "minecraft:web"@,
        "minecraft:tall_grass"@,
        "minecraft:dead_bush"@,
        "minecraft:piston"@,
        "minecraft:piston_head"@,
        "minecraft:white_wool"@,
        "minecraft:orange_wool"@,
        "minecraft:magenta_wool"@,
        "minecraft:light_blue_wool"@,
        "minecraft:yellow_wool"@,
        "minecraft:lime_wool"@,
        "minecraft:pink_wool"@,
        "minecraft:gray_wool"@,
        "minecraft:light_gray_wool"@,
        "minecraft:cyan_wool"@,
        "minecraft:purple_wool"@,
        "minecraft:blue_wool"@,
        "minecraft:brown_wool"@,
        "minecraft:green_wool"@,
        "minecraft:red_wool"@,
        "minecraft:black_wool"@,
    ]
}

/// The position of `s` among the names of `known_blocks`, or 61.
spec fn known_block_index(s: Seq<char>) -> int {
    if s == "minecraft:air"@ { 0 } else
    if s == "minecraft:stone"@ { 1 } else
    if s == "minecraft:grass_block"@ { 2 } else
    if s == "minecraft:dirt"@ { 3 } else
    if s == "minecraft:cobblestone"@ { 4 } else
    if s == "minecraft:oak_planks"@ { 5 } else
    if s == "minecraft:spruce_planks"@ { 6 } else
    if s == "minecraft:birch_planks"@ { 7 } else
    if s == "minecraft:jungle_planks"@ { 8 } else
    if s == "minecraft:acacia_planks"@ { 9 } else
    if s == "minecraft:dark_oak_planks"@ { 10 } else
    if s == "minecraft:bedrock"@ { 11 } else
    if s == "minecraft:water"@ { 12 } else
    if s == "minecraft:lava"@ { 13 } else
    if s == "minecraft:sand"@ { 14 } else
    if s == "minecraft:gravel"@ { 15 } else
    if s == "minecraft:gold_ore"@ { 16 } else
    if s == "minecraft:iron_ore"@ { 17 } else
    if s == "minecraft:coal_ore"@ { 18 } else
    if s == "minecraft:oak_log"@ { 19 } else
    if s == "minecraft:spruce_log"@ { 20 } else
    if s == "minecraft:birch_log"@ { 21 } else
    if s == "minecraft:jungle_log"@ { 22 } else
    if s == "minecraft:acacia_log"@ { 23 } else
    if s == "minecraft:dark_oak_log"@ { 24 } else
    if s == "minecraft:oak_leaves"@ { 25 } else
    if s == "minecraft:spruce_leaves"@ { 26 } else
    if s == "minecraft:birch_leaves"@ { 27 } else
    if s == "minecraft:jungle_leaves"@ { 28 } else
    if s == "minecraft:acacia_leaves"@ { 29 } else
    if s == "minecraft:dark_oak_leaves"@ { 30 } else
    if s == "minecraft:glass"@ { 31 } else
    if s == "minecraft:lapis_ore"@ { 32 } else
    if s == "minecraft:lapis_block"@ { 33 } else
    if s == "minecraft:sandstone"@ { 34 } else
    if s == "minecraft:note_block"@ { 35 } else
    if s == "minecraft:bed"@ { 36 } else
    if s == "minecraft:powered_rail"@ { 37 } else
    if s == "minecraft:detector_rail"@ { 38 } else
    if s == "minecraft:sticky_piston"@ { 39 } else
    if s == "minecraft:web"@ { 40 } else
    if s == "minecraft:tall_grass"@ { 41 } else
    if s == "minecraft:dead_bush"@ { 42 } else
    if s == "minecraft:piston"@ { 43 } else
    if s == "minecraft:piston_head"@ { 44 } else
    if s == "minecraft:white_wool"@ { 45 } else
    if s == "minecraft:orange_wool"@ { 46 } else
    if s == "minecraft:magenta_wool"@ { 47 } else
    if s == "minecraft:light_blue_wool"@ { 48 } else
    if s == "minecraft:yellow_wool"@ { 49 } else
    if s == "minecraft:lime_wool"@ { 50 } else
    if s == "minecraft:pink_wool"@ { 51 } else
    if s == "minecraft:gray_wool"@ { 52 } else
    if s == "minecraft:light_gray_wool"@ { 53 } else
    if s == "minecraft:cyan_wool"@ { 54 } else
    if s == "minecraft:purple_wool"@ { 55 } else
    if s == "minecraft:blue_wool"@ { 56 } else
    if s == "minecraft:brown_wool"@ { 57 } else
    if s == "minecraft:green_wool"@ { 58 } else
    if s == "minecraft:red_wool"@ { 59 } else
    if s == "minecraft:black_wool"@ { 60 } else { 61 }
}

/// The names of `known_blocks` are pairwise distinct.
#[verifier::rlimit(100)]
#[verifier::spinoff_prover]
proof fn lemma_known_blocks_distinct()
    ensures
        forall|a: int, b: int| 0 <= a < b < 61 ==> known_blocks()[a] != known_blocks()[b],
{
    reveal_strlit("minecraft:air");
    assert("minecraft:air"@.len() == 13);
    reveal_strlit("minecraft:stone");
    assert("minecraft:stone"@.len() == 15);
    reveal_strlit("minecraft:grass_block");
    assert("minecraft:grass_block"@.len() == 21);
    reveal_strlit("minecraft:dirt");
    assert("minecraft:dirt"@.len() == 14);
    reveal_strlit("minecraft:cobblestone");
    assert("minecraft:cobblestone"@.len() == 21);
    reveal_strlit("minecraft:oak_planks");
    assert("minecraft:oak_planks"@.len() == 20);
    reveal_strlit("minecraft:spruce_planks");
    assert("minecraft:spruce_planks"@.len() == 23);
    reveal_strlit("minecraft:birch_planks");
    assert("minecraft:birch_planks"@.len() == 22);
    reveal_strlit("minecraft:jungle_planks");
    assert("minecraft:jungle_planks"@.len() == 23);
    reveal_strlit("minecraft:acacia_planks");
    assert("minecraft:acacia_planks"@.len() == 23);
    reveal_strlit("minecraft:dark_oak_planks");
    assert("minecraft:dark_oak_planks"@.len() == 25);
    reveal_strlit("minecraft:bedrock");
    assert("minecraft:bedrock"@.len() == 17);
    reveal_strlit("minecraft:water");
    assert("minecraft:water"@.len() == 15);
    reveal_strlit("minecraft:lava");
    assert("minecraft:lava"@.len() == 14);
    reveal_strlit("minecraft:sand");
    assert("minecraft:sand"@.len() == 14);
    reveal_strlit("minecraft:gravel");
    assert("minecraft:gravel"@.len() == 16);
    reveal_strlit("minecraft:gold_ore");
    assert("minecraft:gold_ore"@.len() == 18);
    reveal_strlit("minecraft:iron_ore");
    assert("minecraft:iron_ore"@.len() == 18);
    reveal_strlit("minecraft:coal_ore");
    assert("minecraft:coal_ore"@.len() == 18);
    reveal_strlit("minecraft:oak_log");
    assert("minecraft:oak_log"@.len() == 17);
    reveal_strlit("minecraft:spruce_log");
    assert("minecraft:spruce_log"@.len() == 20);
    reveal_strlit("minecraft:birch_log");
    assert("minecraft:birch_log"@.len() == 19);
    reveal_strlit("minecraft:jungle_log");
    assert("minecraft:jungle_log"@.len() == 20);
    reveal_strlit("minecraft:acacia_log");
    assert("minecraft:acacia_log"@.len() == 20);
    reveal_strlit("minecraft:dark_oak_log");
    assert("minecraft:dark_oak_log"@.len() == 22);
    reveal_strlit("minecraft:oak_leaves");
    assert("minecraft:oak_leaves"@.len() == 20);
    reveal_strlit("minecraft:spruce_leaves");
    assert("minecraft:spruce_leaves"@.len() == 23);
    reveal_strlit("minecraft:birch_leaves");
    assert("minecraft:birch_leaves"@.len() == 22);
    reveal_strlit("minecraft:jungle_leaves");
    assert("minecraft:jungle_leaves"@.len() == 23);
    reveal_strlit("minecraft:acacia_leaves");
    assert("minecraft:acacia_leaves"@.len() == 23);
    reveal_strlit("minecraft:dark_oak_leaves");
    assert("minecraft:dark_oak_leaves"@.len() == 25);
    reveal_strlit("minecraft:glass");
    assert("minecraft:glass"@.len() == 15);
    reveal_strlit("minecraft:lapis_ore");
    assert("minecraft:lapis_ore"@.len() == 19);
    reveal_strlit("minecraft:lapis_block");
    assert("minecraft:lapis_block"@.len() == 21);
    reveal_strlit("minecraft:sandstone");
    assert("minecraft:sandstone"@.len() == 19);
    reveal_strlit("minecraft:note_block");
    assert("minecraft:note_block"@.len() == 20);
    reveal_strlit("minecraft:bed");
    assert("minecraft:bed"@.len() == 13);
    reveal_strlit("minecraft:powered_rail");
    assert("minecraft:powered_rail"@.len() == 22);
    reveal_strlit("minecraft:detector_rail");
    assert("minecraft:detector_rail"@.len() == 23);
    reveal_strlit("minecraft:sticky_piston");
    assert("minecraft:sticky_piston"@.len() == 23);
    reveal_strlit("minecraft:web");
    assert("minecraft:web"@.len() == 13);
    reveal_strlit("minecraft:tall_grass");
    assert("minecraft:tall_grass"@.len() == 20);
    reveal_strlit("minecraft:dead_bush");
    assert("minecraft:dead_bush"@.len() == 19);
    reveal_strlit("minecraft:piston");
    assert("minecraft:piston"@.len() == 16);
    reveal_strlit("minecraft:piston_head");
    assert("minecraft:piston_head"@.len() == 21);
    reveal_strlit("minecraft:white_wool");
    assert("minecraft:white_wool"@.len() == 20);
    reveal_strlit("minecraft:orange_wool");
    assert("minecraft:orange_wool"@.len() == 21);
    reveal_strlit("minecraft:magenta_wool");
    assert("minecraft:magenta_wool"@.len() == 22);
    reveal_strlit("minecraft:light_blue_wool");
    assert("minecraft:light_blue_wool"@.len() == 25);
    reveal_strlit("minecraft:yellow_wool");
    assert("minecraft:yellow_wool"@.len() == 21);
    reveal_strlit("minecraft:lime_wool");
    assert("minecraft:lime_wool"@.len() == 19);
    reveal_strlit("minecraft:pink_wool");
    assert("minecraft:pink_wool"@.len() == 19);
    reveal_strlit("minecraft:gray_wool");
    assert("minecraft:gray_wool"@.len() == 19);
    reveal_strlit("minecraft:light_gray_wool");
    assert("minecraft:light_gray_wool"@.len() == 25);
    reveal_strlit("minecraft:cyan_wool");
    assert("minecraft:cyan_wool"@.len() == 19);
    reveal_strlit("minecraft:purple_wool");
    assert("minecraft:purple_wool"@.len() == 21);
    reveal_strlit("minecraft:blue_wool");
    assert("minecraft:blue_wool"@.len() == 19);
    reveal_strlit("minecraft:brown_wool");
    assert("minecraft:brown_wool"@.len() == 20);
    reveal_strlit("minecraft:green_wool");
    assert("minecraft:green_wool"@.len() == 20);
    reveal_strlit("minecraft:red_wool");
    assert("minecraft:red_wool"@.len() == 18);
    reveal_strlit("minecraft:black_wool");
    assert("minecraft:black_wool"@.len() == 20);
    assert("minecraft:air"@[10] != "minecraft:bed"@[10]);
    assert("minecraft:air"@[10] != "minecraft:web"@[10]);
    assert("minecraft:stone"@[10] != "minecraft:water"@[10]);
    assert("minecraft:stone"@[10] != "minecraft:glass"@[10]);
    assert("minecraft:grass_block"@[10] != "minecraft:cobblestone"@[10]);
    assert("minecraft:grass_block"@[10] != "minecraft:lapis_block"@[10]);
    assert("minecraft:grass_block"@[10] != "minecraft:piston_head"@[10]);
    assert("minecraft:grass_block"@[10] != "minecraft:orange_wool"@[10]);
    assert("minecraft:grass_block"@[10] != "minecraft:yellow_wool"@[10]);
    assert("minecraft:grass_block"@[10] != "minecraft:purple_wool"@[10]);
    assert("minecraft:dirt"@[10] != "minecraft:lava"@[10]);
    assert("minecraft:dirt"@[10] != "minecraft:sand"@[10]);
    assert("minecraft:cobblestone"@[10] != "minecraft:lapis_block"@[10]);
    assert("minecraft:cobblestone"@[10] != "minecraft:piston_head"@[10]);
    assert("minecraft:cobblestone"@[10] != "minecraft:orange_wool"@[10]);
    assert("minecraft:cobblestone"@[10] != "minecraft:yellow_wool"@[10]);
    assert("minecraft:cobblestone"@[10] != "minecraft:purple_wool"@[10]);
    assert("minecraft:oak_planks"@[10] != "minecraft:spruce_log"@[10]);
    assert("minecraft:oak_planks"@[10] != "minecraft:jungle_log"@[10]);
    assert("minecraft:oak_planks"@[10] != "minecraft:acacia_log"@[10]);
    assert("minecraft:oak_planks"@[14] != "minecraft:oak_leaves"@[14]);
    assert("minecraft:oak_planks"@[10] != "minecraft:note_block"@[10]);
    assert("minecraft:oak_planks"@[10] != "minecraft:tall_grass"@[10]);
    assert("minecraft:oak_planks"@[10] != "minecraft:white_wool"@[10]);
    assert("minecraft:oak_planks"@[10] != "minecraft:brown_wool"@[10]);
    assert("minecraft:oak_planks"@[10] != "minecraft:green_wool"@[10]);
    assert("minecraft:oak_planks"@[10] != "minecraft:black_wool"@[10]);
    assert("minecraft:spruce_planks"@[10] != "minecraft:jungle_planks"@[10]);
    assert("minecraft:spruce_planks"@[10] != "minecraft:acacia_planks"@[10]);
    assert("minecraft:spruce_planks"@[17] != "minecraft:spruce_leaves"@[17]);
    assert("minecraft:spruce_planks"@[10] != "minecraft:jungle_leaves"@[10]);
    assert("minecraft:spruce_planks"@[10] != "minecraft:acacia_leaves"@[10]);
    assert("minecraft:spruce_planks"@[10] != "minecraft:detector_rail"@[10]);
    assert("minecraft:spruce_planks"@[11] != "minecraft:sticky_piston"@[11]);
    assert("minecraft:birch_planks"@[10] != "minecraft:dark_oak_log"@[10]);
    assert("minecraft:birch_planks"@[16] != "minecraft:birch_leaves"@[16]);
    assert("minecraft:birch_planks"@[10] != "minecraft:powered_rail"@[10]);
    assert("minecraft:birch_planks"@[10] != "minecraft:magenta_wool"@[10]);
    assert("minecraft:jungle_planks"@[10] != "minecraft:acacia_planks"@[10]);
    assert("minecraft:jungle_planks"@[10] != "minecraft:spruce_leaves"@[10]);
    assert("minecraft:jungle_planks"@[17] != "minecraft:jungle_leaves"@[17]);
    assert("minecraft:jungle_planks"@[10] != "minecraft:acacia_leaves"@[10]);
    assert("minecraft:jungle_planks"@[10] != "minecraft:detector_rail"@[10]);
    assert("minecraft:jungle_planks"@[10] != "minecraft:sticky_piston"@[10]);
    assert("minecraft:acacia_planks"@[10] != "minecraft:spruce_leaves"@[10]);
    assert("minecraft:acacia_planks"@[10] != "minecraft:jungle_leaves"@[10]);
    assert("minecraft:acacia_planks"@[17] != "minecraft:acacia_leaves"@[17]);
    assert("minecraft:acacia_planks"@[10] != "minecraft:detector_rail"@[10]);
    assert("minecraft:acacia_planks"@[10] != "minecraft:sticky_piston"@[10]);
    assert("minecraft:dark_oak_planks"@[19] != "minecraft:dark_oak_leaves"@[19]);
    assert("minecraft:dark_oak_planks"@[10] != "minecraft:light_blue_wool"@[10]);
    assert("minecraft:dark_oak_planks"@[10] != "minecraft:light_gray_wool"@[10]);
    assert("minecraft:bedrock"@[10] != "minecraft:oak_log"@[10]);
    assert("minecraft:water"@[10] != "minecraft:glass"@[10]);
    assert("minecraft:lava"@[10] != "minecraft:sand"@[10]);
    assert("minecraft:gravel"@[10] != "minecraft:piston"@[10]);
    assert("minecraft:gold_ore"@[10] != "minecraft:iron_ore"@[10]);
    assert("minecraft:gold_ore"@[10] != "minecraft:coal_ore"@[10]);
    assert("minecraft:gold_ore"@[10] != "minecraft:red_wool"@[10]);
    assert("minecraft:iron_ore"@[10] != "minecraft:coal_ore"@[10]);
    assert("minecraft:iron_ore"@[10] != "minecraft:red_wool"@[10]);
    assert("minecraft:coal_ore"@[10] != "minecraft:red_wool"@[10]);
    assert("minecraft:spruce_log"@[10] != "minecraft:jungle_log"@[10]);
    assert("minecraft:spruce_log"@[10] != "minecraft:acacia_log"@[10]);
    assert("minecraft:spruce_log"@[10] != "minecraft:oak_leaves"@[10]);
    assert("minecraft:spruce_log"@[10] != "minecraft:note_block"@[10]);
    assert("minecraft:spruce_log"@[10] != "minecraft:tall_grass"@[10]);
    assert("minecraft:spruce_log"@[10] != "minecraft:white_wool"@[10]);
    assert("minecraft:spruce_log"@[10] != "minecraft:brown_wool"@[10]);
    assert("minecraft:spruce_log"@[10] != "minecraft:green_wool"@[10]);
    assert("minecraft:spruce_log"@[10] != "minecraft:black_wool"@[10]);
    assert("minecraft:birch_log"@[10] != "minecraft:lapis_ore"@[10]);
    assert("minecraft:birch_log"@[10] != "minecraft:sandstone"@[10]);
    assert("minecraft:birch_log"@[10] != "minecraft:dead_bush"@[10]);
    assert("minecraft:birch_log"@[10] != "minecraft:lime_wool"@[10]);
    assert("minecraft:birch_log"@[10] != "minecraft:pink_wool"@[10]);
    assert("minecraft:birch_log"@[10] != "minecraft:gray_wool"@[10]);
    assert("minecraft:birch_log"@[10] != "minecraft:cyan_wool"@[10]);
    assert("minecraft:birch_log"@[11] != "minecraft:blue_wool"@[11]);
    assert("minecraft:jungle_log"@[10] != "minecraft:acacia_log"@[10]);
    assert("minecraft:jungle_log"@[10] != "minecraft:oak_leaves"@[10]);
    assert("minecraft:jungle_log"@[10] != "minecraft:note_block"@[10]);
    assert("minecraft:jungle_log"@[10] != "minecraft:tall_grass"@[10]);
    assert("minecraft:jungle_log"@[10] != "minecraft:white_wool"@[10]);
    assert("minecraft:jungle_log"@[10] != "minecraft:brown_wool"@[10]);
    assert("minecraft:jungle_log"@[10] != "minecraft:green_wool"@[10]);
    assert("minecraft:jungle_log"@[10] != "minecraft:black_wool"@[10]);
    assert("minecraft:acacia_log"@[10] != "minecraft:oak_leaves"@[10]);
    assert("minecraft:acacia_log"@[10] != "minecraft:note_block"@[10]);
    assert("minecraft:acacia_log"@[10] != "minecraft:tall_grass"@[10]);
    assert("minecraft:acacia_log"@[10] != "minecraft:white_wool"@[10]);
    assert("minecraft:acacia_log"@[10] != "minecraft:brown_wool"@[10]);
    assert("minecraft:acacia_log"@[10] != "minecraft:green_wool"@[10]);
    assert("minecraft:acacia_log"@[10] != "minecraft:black_wool"@[10]);
    assert("minecraft:dark_oak_log"@[10] != "minecraft:birch_leaves"@[10]);
    assert("minecraft:dark_oak_log"@[10] != "minecraft:powered_rail"@[10]);
    assert("minecraft:dark_oak_log"@[10] != "minecraft:magenta_wool"@[10]);
    assert("minecraft:oak_leaves"@[10] != "minecraft:note_block"@[10]);
    assert("minecraft:oak_leaves"@[10] != "minecraft:tall_grass"@[10]);
    assert("minecraft:oak_leaves"@[10] != "minecraft:white_wool"@[10]);
    assert("minecraft:oak_leaves"@[10] != "minecraft:brown_wool"@[10]);
    assert("minecraft:oak_leaves"@[10] != "minecraft:green_wool"@[10]);
    assert("minecraft:oak_leaves"@[10] != "minecraft:black_wool"@[10]);
    assert("minecraft:spruce_leaves"@[10] != "minecraft:jungle_leaves"@[10]);
    assert("minecraft:spruce_leaves"@[10] != "minecraft:acacia_leaves"@[10]);
    assert("minecraft:spruce_leaves"@[10] != "minecraft:detector_rail"@[10]);
    assert("minecraft:spruce_leaves"@[11] != "minecraft:sticky_piston"@[11]);
    assert("minecraft:birch_leaves"@[10] != "minecraft:powered_rail"@[10]);
    assert("minecraft:birch_leaves"@[10] != "minecraft:magenta_wool"@[10]);
    assert("minecraft:jungle_leaves"@[10] != "minecraft:acacia_leaves"@[10]);
    assert("minecraft:jungle_leaves"@[10] != "minecraft:detector_rail"@[10]);
    assert("minecraft:jungle_leaves"@[10] != "minecraft:sticky_piston"@[10]);
    assert("minecraft:acacia_leaves"@[10] != "minecraft:detector_rail"@[10]);
    assert("minecraft:acacia_leaves"@[10] != "minecraft:sticky_piston"@[10]);
    assert("minecraft:dark_oak_leaves"@[10] != "minecraft:light_blue_wool"@[10]);
    assert("minecraft:dark_oak_leaves"@[10] != "minecraft:light_gray_wool"@[10]);
    assert("minecraft:lapis_ore"@[10] != "minecraft:sandstone"@[10]);
    assert("minecraft:lapis_ore"@[10] != "minecraft:dead_bush"@[10]);
    assert("minecraft:lapis_ore"@[11] != "minecraft:lime_wool"@[11]);
    assert("minecraft:lapis_ore"@[10] != "minecraft:pink_wool"@[10]);
    assert("minecraft:lapis_ore"@[10] != "minecraft:gray_wool"@[10]);
    assert("minecraft:lapis_ore"@[10] != "minecraft:cyan_wool"@[10]);
    assert("minecraft:lapis_ore"@[10] != "minecraft:blue_wool"@[10]);
    assert("minecraft:lapis_block"@[10] != "minecraft:piston_head"@[10]);
    assert("minecraft:lapis_block"@[10] != "minecraft:orange_wool"@[10]);
    assert("minecraft:lapis_block"@[10] != "minecraft:yellow_wool"@[10]);
    assert("minecraft:lapis_block"@[10] != "minecraft:purple_wool"@[10]);
    assert("minecraft:sandstone"@[10] != "minecraft:dead_bush"@[10]);
    assert("minecraft:sandstone"@[10] != "minecraft:lime_wool"@[10]);
    assert("minecraft:sandstone"@[10] != "minecraft:pink_wool"@[10]);
    assert("minecraft:sandstone"@[10] != "minecraft:gray_wool"@[10]);
    assert("minecraft:sandstone"@[10] != "minecraft:cyan_wool"@[10]);
    assert("minecraft:sandstone"@[10] != "minecraft:blue_wool"@[10]);
    assert("minecraft:note_block"@[10] != "minecraft:tall_grass"@[10]);
    assert("minecraft:note_block"@[10] != "minecraft:white_wool"@[10]);
    assert("minecraft:note_block"@[10] != "minecraft:brown_wool"@[10]);
    assert("minecraft:note_block"@[10] != "minecraft:green_wool"@[10]);
    assert("minecraft:note_block"@[10] != "minecraft:black_wool"@[10]);
    assert("minecraft:bed"@[10] != "minecraft:web"@[10]);
    assert("minecraft:powered_rail"@[10] != "minecraft:magenta_wool"@[10]);
    assert("minecraft:detector_rail"@[10] != "minecraft:sticky_piston"@[10]);
    assert("minecraft:tall_grass"@[10] != "minecraft:white_wool"@[10]);
    assert("minecraft:tall_grass"@[10] != "minecraft:brown_wool"@[10]);
    assert("minecraft:tall_grass"@[10] != "minecraft:green_wool"@[10]);
    assert("minecraft:tall_grass"@[10] != "minecraft:black_wool"@[10]);
    assert("minecraft:dead_bush"@[10] != "minecraft:lime_wool"@[10]);
    assert("minecraft:dead_bush"@[10] != "minecraft:pink_wool"@[10]);
    assert("minecraft:dead_bush"@[10] != "minecraft:gray_wool"@[10]);
    assert("minecraft:dead_bush"@[10] != "minecraft:cyan_wool"@[10]);
    assert("minecraft:dead_bush"@[10] != "minecraft:blue_wool"@[10]);
    assert("minecraft:piston_head"@[10] != "minecraft:orange_wool"@[10]);
    assert("minecraft:piston_head"@[10] != "minecraft:yellow_wool"@[10]);
    assert("minecraft:piston_head"@[11] != "minecraft:purple_wool"@[11]);
    assert("minecraft:white_wool"@[10] != "minecraft:brown_wool"@[10]);
    assert("minecraft:white_wool"@[10] != "minecraft:green_wool"@[10]);
    assert("minecraft:white_wool"@[10] != "minecraft:black_wool"@[10]);
    assert("minecraft:orange_wool"@[10] != "minecraft:yellow_wool"@[10]);
    assert("minecraft:orange_wool"@[10] != "minecraft:purple_wool"@[10]);
    assert("minecraft:light_blue_wool"@[16] != "minecraft:light_gray_wool"@[16]);
    assert("minecraft:yellow_wool"@[10] != "minecraft:purple_wool"@[10]);
    assert("minecraft:lime_wool"@[10] != "minecraft:pink_wool"@[10]);
    assert("minecraft:lime_wool"@[10] != "minecraft:gray_wool"@[10]);
    assert("minecraft:lime_wool"@[10] != "minecraft:cyan_wool"@[10]);
    assert("minecraft:lime_wool"@[10] != "minecraft:blue_wool"@[10]);
    assert("minecraft:pink_wool"@[10] != "minecraft:gray_wool"@[10]);
    assert("minecraft:pink_wool"@[10] != "minecraft:cyan_wool"@[10]);
    assert("minecraft:pink_wool"@[10] != "minecraft:blue_wool"@[10]);
    assert("minecraft:gray_wool"@[10] != "minecraft:cyan_wool"@[10]);
    assert("minecraft:gray_wool"@[10] != "minecraft:blue_wool"@[10]);
    assert("minecraft:cyan_wool"@[10] != "minecraft:blue_wool"@[10]);
    assert("minecraft:brown_wool"@[10] != "minecraft:green_wool"@[10]);
    assert("minecraft:brown_wool"@[11] != "minecraft:black_wool"@[11]);
    assert("minecraft:green_wool"@[10] != "minecraft:black_wool"@[10]);
    let k = known_blocks();
    assert(known_block_index("minecraft:air"@) == 0);
    assert(k[0] == "minecraft:air"@);
    assert(known_block_index("minecraft:stone"@) == 1);
    assert(k[1] == "minecraft:stone"@);
    assert(known_block_index("minecraft:grass_block"@) == 2);
    assert(k[2] == "minecraft:grass_block"@);
    assert(known_block_index("minecraft:dirt"@) == 3);
    assert(k[3] == "minecraft:dirt"@);
    assert(known_block_index("minecraft:cobblestone"@) == 4);
    assert(k[4] == "minecraft:cobblestone"@);
    assert(known_block_index("minecraft:oak_planks"@) == 5);
    assert(k[5] == "minecraft:oak_planks"@);
    assert(known_block_index("minecraft:spruce_planks"@) == 6);
    assert(k[6] == "minecraft:spruce_planks"@);
    assert(known_block_index("minecraft:birch_planks"@) == 7);
    assert(k[7] == "minecraft:birch_planks"@);
    assert(known_block_index("minecraft:jungle_planks"@) == 8);
    assert(k[8] == "minecraft:jungle_planks"@);
    assert(known_block_index("minecraft:acacia_planks"@) == 9);
    assert(k[9] == "minecraft:acacia_planks"@);
    assert(known_block_index("minecraft:dark_oak_planks"@) == 10);
    assert(k[10] == "minecraft:dark_oak_planks"@);
    assert(known_block_index("minecraft:bedrock"@) == 11);
    assert(k[11] == "minecraft:bedrock"@);
    assert(known_block_index("minecraft:water"@) == 12);
    assert(k[12] == "minecraft:water"@);
    assert(known_block_index("minecraft:lava"@) == 13);
    assert(k[13] == "minecraft:lava"@);
    assert(known_block_index("minecraft:sand"@) == 14);
    assert(k[14] == "minecraft:sand"@);
    assert(known_block_index("minecraft:gravel"@) == 15);
    assert(k[15] == "minecraft:gravel"@);
    assert(known_block_index("minecraft:gold_ore"@) == 16);
    assert(k[16] == "minecraft:gold_ore"@);
    assert(known_block_index("minecraft:iron_ore"@) == 17);
    assert(k[17] == "minecraft:iron_ore"@);
    assert(known_block_index("minecraft:coal_ore"@) == 18);
    assert(k[18] == "minecraft:coal_ore"@);
    assert(known_block_index("minecraft:oak_log"@) == 19);
    assert(k[19] == "minecraft:oak_log"@);
    assert(known_block_index("minecraft:spruce_log"@) == 20);
    assert(k[20] == "minecraft:spruce_log"@);
    assert(known_block_index("minecraft:birch_log"@) == 21);
    assert(k[21] == "minecraft:birch_log"@);
    assert(known_block_index("minecraft:jungle_log"@) == 22);
    assert(k[22] == "minecraft:jungle_log"@);
    assert(known_block_index("minecraft:acacia_log"@) == 23);
    assert(k[23] == "minecraft:acacia_log"@);
    assert(known_block_index("minecraft:dark_oak_log"@) == 24);
    assert(k[24] == "minecraft:dark_oak_log"@);
    assert(known_block_index("minecraft:oak_leaves"@) == 25);
    assert(k[25] == "minecraft:oak_leaves"@);
    assert(known_block_index("minecraft:spruce_leaves"@) == 26);
    assert(k[26] == "minecraft:spruce_leaves"@);
    assert(known_block_index("minecraft:birch_leaves"@) == 27);
    assert(k[27] == "minecraft:birch_leaves"@);
    assert(known_block_index("minecraft:jungle_leaves"@) == 28);
    assert(k[28] == "minecraft:jungle_leaves"@);
    assert(known_block_index("minecraft:acacia_leaves"@) == 29);
    assert(k[29] == "minecraft:acacia_leaves"@);
    assert(known_block_index("minecraft:dark_oak_leaves"@) == 30);
    assert(k[30] == "minecraft:dark_oak_leaves"@);
    assert(known_block_index("minecraft:glass"@) == 31);
    assert(k[31] == "minecraft:glass"@);
    assert(known_block_index("minecraft:lapis_ore"@) == 32);
    assert(k[32] == "minecraft:lapis_ore"@);
    assert(known_block_index("minecraft:lapis_block"@) == 33);
    assert(k[33] == "minecraft:lapis_block"@);
    assert(known_block_index("minecraft:sandstone"@) == 34);
    assert(k[34] == "minecraft:sandstone"@);
    assert(known_block_index("minecraft:note_block"@) == 35);
    assert(k[35] == "minecraft:note_block"@);
    assert(known_block_index("minecraft:bed"@) == 36);
    assert(k[36] == "minecraft:bed"@);
    assert(known_block_index("minecraft:powered_rail"@) == 37);
    assert(k[37] == "minecraft:powered_rail"@);
    assert(known_block_index("minecraft:detector_rail"@) == 38);
    assert(k[38] == "minecraft:detector_rail"@);
    assert(known_block_index("minecraft:sticky_piston"@) == 39);
    assert(k[39] == "minecraft:sticky_piston"@);
    assert(known_block_index("minecraft:web"@) == 40);
    assert(k[40] == "minecraft:web"@);
    assert(known_block_index("minecraft:tall_grass"@) == 41);
    assert(k[41] == "minecraft:tall_grass"@);
    assert(known_block_index("minecraft:dead_bush"@) == 42);
    assert(k[42] == "minecraft:dead_bush"@);
    assert(known_block_index("minecraft:piston"@) == 43);
    assert(k[43] == "minecraft:piston"@);
    assert(known_block_index("minecraft:piston_head"@) == 44);
    assert(k[44] == "minecraft:piston_head"@);
    assert(known_block_index("minecraft:white_wool"@) == 45);
    assert(k[45] == "minecraft:white_wool"@);
    assert(known_block_index("minecraft:orange_wool"@) == 46);
    assert(k[46] == "minecraft:orange_wool"@);
    assert(known_block_index("minecraft:magenta_wool"@) == 47);
    assert(k[47] == "minecraft:magenta_wool"@);
    assert(known_block_index("minecraft:light_blue_wool"@) == 48);
    assert(k[48] == "minecraft:light_blue_wool"@);
    assert(known_block_index("minecraft:yellow_wool"@) == 49);
    assert(k[49] == "minecraft:yellow_wool"@);
    assert(known_block_index("minecraft:lime_wool"@) == 50);
    assert(k[50] == "minecraft:lime_wool"@);
    assert(known_block_index("minecraft:pink_wool"@) == 51);
    assert(k[51] == "minecraft:pink_wool"@);
    assert(known_block_index("minecraft:gray_wool"@) == 52);
    assert(k[52] == "minecraft:gray_wool"@);
    assert(known_block_index("minecraft:light_gray_wool"@) == 53);
    assert(k[53] == "minecraft:light_gray_wool"@);
    assert(known_block_index("minecraft:cyan_wool"@) == 54);
    assert(k[54] == "minecraft:cyan_wool"@);
    assert(known_block_index("minecraft:purple_wool"@) == 55);
    assert(k[55] == "minecraft:purple_wool"@);
    assert(known_block_index("minecraft:blue_wool"@) == 56);
    assert(k[56] == "minecraft:blue_wool"@);
    assert(known_block_index("minecraft:brown_wool"@) == 57);
    assert(k[57] == "minecraft:brown_wool"@);
    assert(known_block_index("minecraft:green_wool"@) == 58);
    assert(k[58] == "minecraft:green_wool"@);
    assert(known_block_index("minecraft:red_wool"@) == 59);
    assert(k[59] == "minecraft:red_wool"@);
    assert(known_block_index("minecraft:black_wool"@) == 60);
    assert(k[60] == "minecraft:black_wool"@);
    assert forall|i: int| 0 <= i < 61 implies #[trigger] known_block_index(k[i]) == i by {
        assert(i == 0 || i == 1 || i == 2 || i == 3 || i == 4 || i == 5 || i == 6 || i == 7 || i == 8 || i == 9 || i == 10 || i == 11 || i == 12 || i == 13 || i == 14 || i == 15 || i == 16 || i == 17 || i == 18 || i == 19 || i == 20 || i == 21 || i == 22 || i == 23 || i == 24 || i == 25 || i == 26 || i == 27 || i == 28 || i == 29 || i == 30 || i == 31 || i == 32 || i == 33 || i == 34 || i == 35 || i == 36 || i == 37 || i == 38 || i == 39 || i == 40 || i == 41 || i == 42 || i == 43 || i == 44 || i == 45 || i == 46 || i == 47 || i == 48 || i == 49 || i == 50 || i == 51 || i == 52 || i == 53 || i == 54 || i == 55 || i == 56 || i == 57 || i == 58 || i == 59 || i == 60);
    }
    assert forall|a: int, b: int| 0 <= a < b < 61 implies k[a] != k[b] by {
        assert(known_block_index(k[a]) == a);
        assert(known_block_index(k[b]) == b);
    }
}

/// The number of legacy block ids the converter covers.
pub const LEGACY_BLOCK_IDS: usize = 4096;

/// The converter's table: the known names, then air up to id 4095.
pub open spec fn block_table() -> Seq<Seq<char>> {
    known_blocks() + zeros((LEGACY_BLOCK_IDS - known_blocks().len()) as nat, "minecraft:air"@)
}

/// The two block lookups undo each other on the known ids: each of ids 0
/// to 60 comes back from its name (air, which also fills ids 61 to 4095,
/// comes back as 0), and a name the table does not hold gives 0.
pub proof fn lemma_block_round_trip()
    ensures
        block_table().len() == LEGACY_BLOCK_IDS,
        forall|i: int| 0 <= i < 61 ==> reverse_index(block_table(), #[trigger] block_table()[i]) == i,
        forall|x: Seq<char>| !block_table().contains(x) ==> reverse_index(block_table(), x) == 0,
{
    let t = block_table();
    let k = known_blocks();
    assert(k.len() == 61);
    assert(t.len() == LEGACY_BLOCK_IDS);
    lemma_known_blocks_distinct();
    assert forall|i: int| 0 <= i < 61 implies reverse_index(t, #[trigger] t[i]) == i by {
        assert(t[i] == k[i]);
        assert forall|j: int| 0 <= j < i implies t[j] != t[i] by {
            assert(t[j] == k[j]);
        }
        lemma_reverse_index_is_first(t, t[i], i);
    }
}

/// What `to_flattened` returns for `id` on table `t`.
pub open spec fn spec_to_flattened(t: Seq<Seq<char>>, id: u16) -> Seq<char> {
    if id < t.len() {
        t[id as int]
    } else {
        "minecraft:air"@
    }
}

/// Pre-1.13 numeric block id ↔ 1.13 state name, for the blocks in
/// `known_blocks`. Unknown ids become air on the way forward and unknown
/// names id 0 on the way back: one wrong block is better than a dropped
/// chunk.
#[derive(Debug, Clone)]
pub struct BlockStateConverter {
    legacy_to_flattened: Vec<&'static str>,
    /// One pair per distinct name: the name and its first id.
    flattened_to_legacy: Vec<(&'static str, u16)>,
}

/// The reverse pairs as plain values.
pub open spec fn pairs_view(p: Seq<(&'static str, u16)>) -> Seq<(Seq<char>, u16)> {
    p.map_values(|e: (&'static str, u16)| (e.0@, e.1))
}

pub open spec fn pair_names(p: Seq<(Seq<char>, u16)>) -> Seq<Seq<char>> {
    p.map_values(|e: (Seq<char>, u16)| e.0)
}

/// `rev` holds, for each name of `t`, that name and its first index, and
/// nothing else.
pub open spec fn is_reverse_of(rev: Seq<(Seq<char>, u16)>, t: Seq<Seq<char>>) -> bool {
    &&& forall|k: int| 0 <= k < rev.len() ==> is_first(t, #[trigger] rev[k].0, rev[k].1 as int)
    &&& forall|i: int| 0 <= i < t.len() ==> pair_names(rev).contains(#[trigger] t[i])
    &&& forall|a: int, b: int| 0 <= a < b < rev.len() ==> #[trigger] rev[a].0 != #[trigger] rev[b].0
}

impl BlockStateConverter {
    /// The names, indexed by legacy id.
    pub closed spec fn table(&self) -> Seq<Seq<char>> {
        self.legacy_to_flattened@.map_values(|s: &'static str| s@)
    }

    pub closed spec fn wf(&self) -> bool {
        &&& self.legacy_to_flattened.len() <= 65536
        &&& is_reverse_of(pairs_view(self.flattened_to_legacy@), self.table())
    }

    fn known_table() -> (r: Vec<&'static str>)
        ensures
            r@.map_values(|s: &'static str| s@) == known_blocks(),
    {
        let v: Vec<&'static str> = vec![
        "minecraft:air",
        "minecraft:stone",
        "minecraft:grass_block",
        "minecraft:dirt",
        "minecraft:cobblestone",
        "minecraft:oak_planks",
        "minecraft:spruce_planks",
        "minecraft:birch_planks",
        "minecraft:jungle_planks",
        "minecraft:acacia_planks",
        "minecraft:dark_oak_planks",
        "minecraft:bedrock",
        "minecraft:water",
        "minecraft:lava",
        "minecraft:sand",
        "minecraft:gravel",
        "minecraft:gold_ore",
        "minecraft:iron_ore",
        "minecraft:coal_ore",
        "minecraft:oak_log",
        "minecraft:spruce_log",
        "minecraft:birch_log",
        "minecraft:jungle_log",
        "minecraft:acacia_log",
        "minecraft:dark_oak_log",
        "minecraft:oak_leaves",
        "minecraft:spruce_leaves",
        "minecraft:birch_leaves",
        "minecraft:jungle_leaves",
        "minecraft:acacia_leaves",
        "minecraft:dark_oak_leaves",
        "minecraft:glass",
        "minecraft:lapis_ore",
        "minecraft:lapis_block",
        "minecraft:sandstone",
        "minecraft:note_block",
        "minecraft:bed",
        "minecraft:powered_rail",
        "minecraft:detector_rail",
        "minecraft:sticky_piston",
        "minecraft:web",
        "minecraft:tall_grass",
        "minecraft:dead_bush",
        "minecraft:piston",
        "minecraft:piston_head",
        "minecraft:white_wool",
        "minecraft:orange_wool",
        "minecraft:magenta_wool",
        "minecraft:light_blue_wool",
        "minecraft:yellow_wool",
        "minecraft:lime_wool",
        "minecraft:pink_wool",
        "minecraft:gray_wool",
        "minecraft:light_gray_wool",
        "minecraft:cyan_wool",
        "minecraft:purple_wool",
        "minecraft:blue_wool",
        "minecraft:brown_wool",
        "minecraft:green_wool",
        "minecraft:red_wool",
        "minecraft:black_wool",
        ];
        assert(v@.map_values(|s: &'static str| s@) =~= known_blocks());
        v
    }

    /// The reverse pairs of `t`: each distinct name with its first index.
    fn build_reverse(t: &Vec<&'static str>) -> (r: Vec<(&'static str, u16)>)
        requires
            t.len() <= 65536,
        ensures
            is_reverse_of(pairs_view(r@), t@.map_values(|s: &'static str| s@)),
    {
        let ghost tv = t@.map_values(|s: &'static str| s@);
        let mut rev: Vec<(&'static str, u16)> = Vec::new();
        let n = t.len();
        let mut i: usize = 0;
        while i < n
            invariant
                n == t.len(),
                n <= 65536,
                tv == t@.map_values(|s: &'static str| s@),
                i <= n,
                is_reverse_of(pairs_view(rev@), tv.take(i as int)),
            decreases n - i,
        {
            let name = t[i];
            let ghost pre = tv.take(i as int);
            let ghost post = tv.take(i as int + 1);
            let ghost rv = pairs_view(rev@);
            assert(name@ == tv[i as int]);
            assert(post == pre.push(name@));
            let m = rev.len();
            let mut k: usize = 0;
            while k < m
                invariant
                    m == rev.len(),
                    rv == pairs_view(rev@),
                    k <= m,
                    forall|q: int| 0 <= q < k ==> rv[q].0 != name@,
                ensures
                    k <= m,
                    forall|q: int| 0 <= q < k ==> rv[q].0 != name@,
                    k < m ==> rv[k as int].0 == name@,
                decreases m - k,
            {
                assert(rv[k as int] == (rev@[k as int].0@, rev@[k as int].1));
                if str_eq(rev[k].0, name) {
                    break;
                }
                k += 1;
            }
            if k < m {
                proof {
                    assert(rv[k as int].0 == name@);
                    assert(pair_names(rv)[k as int] == name@);
                    assert forall|q: int| 0 <= q < rv.len() implies is_first(post, #[trigger] rv[q].0, rv[q].1 as int) by {
                        assert(is_first(pre, rv[q].0, rv[q].1 as int));
                    }
                    assert forall|j: int| 0 <= j < post.len() implies pair_names(rv).contains(#[trigger] post[j]) by {
                        if j < i {
                            assert(post[j] == pre[j]);
                        }
                    }
                }
            } else {
                rev.push((name, i as u16));
                proof {
                    let rv2 = pairs_view(rev@);
                    assert(rv2 =~= rv.push((name@, i as u16)));
                    assert(pair_names(rv2) =~= pair_names(rv).push(name@));
                    assert forall|q: int| 0 <= q < rv2.len() implies is_first(post, #[trigger] rv2[q].0, rv2[q].1 as int) by {
                        if q < rv.len() {
                            assert(rv2[q] == rv[q]);
                            assert(is_first(pre, rv[q].0, rv[q].1 as int));
                        } else {
                            assert forall|j: int| 0 <= j < i implies post[j] != name@ by {
                                assert(post[j] == pre[j]);
                                assert(pair_names(rv).contains(pre[j]));
                                let w = choose|w: int| 0 <= w < pair_names(rv).len() && pair_names(rv)[w] == pre[j];
                                assert(rv[w].0 != name@);
                            }
                        }
                    }
                    assert forall|j: int| 0 <= j < post.len() implies pair_names(rv2).contains(#[trigger] post[j]) by {
                        if j < i {
                            assert(post[j] == pre[j]);
                            assert(pair_names(rv).contains(pre[j]));
                            let w = choose|w: int| 0 <= w < pair_names(rv).len() && pair_names(rv)[w] == pre[j];
                            assert(pair_names(rv2)[w] == pre[j]);
                        } else {
                            assert(pair_names(rv2)[rv.len() as int] == name@);
                        }
                    }
                    assert forall|a: int, b: int| 0 <= a < b < rv2.len() implies #[trigger] rv2[a].0 != #[trigger] rv2[b].0 by {
                        if b == rv.len() {
                            assert(rv2[a] == rv[a]);
                        }
                    }
                }
            }
            i += 1;
        }
        assert(tv.take(n as int) =~= tv);
        rev
    }

    /// The table of `known_blocks`, air for every other id below 4096, and
    /// its reverse.
    pub fn new() -> (r: Self)
        ensures
            r.wf(),
            r.table() == block_table(),
    {
        let mut t = Self::known_table();
        let ghost k = known_blocks();
        assert(k.len() == 61);
        while t.len() < LEGACY_BLOCK_IDS
            invariant
                k == known_blocks(),
                t.len() <= LEGACY_BLOCK_IDS,
                t@.map_values(|s: &'static str| s@) == k + zeros((t.len() - k.len()) as nat, "minecraft:air"@),
            decreases LEGACY_BLOCK_IDS - t.len(),
        {
            let ghost before = t@.map_values(|s: &'static str| s@);
            t.push("minecraft:air");
            assert(t@.map_values(|s: &'static str| s@) =~= before.push("minecraft:air"@));
            assert(k + zeros((t.len() - k.len()) as nat, "minecraft:air"@) =~= (k + zeros(
                (t.len() - 1 - k.len()) as nat,
                "minecraft:air"@,
            )).push("minecraft:air"@));
        }
        let rev = Self::build_reverse(&t);
        Self { legacy_to_flattened: t, flattened_to_legacy: rev }
    }

    /// Legacy id → `"minecraft:<name>"`, air for any id past the table.
    pub fn to_flattened(&self, legacy_id: u16) -> (r: String)
        ensures
            r@ == spec_to_flattened(self.table(), legacy_id),
    {
        let i = legacy_id as usize;
        if i < self.legacy_to_flattened.len() {
            String::from_str(self.legacy_to_flattened[i])
        } else {
            String::from_str("minecraft:air")
        }
    }

    /// Name → legacy id: the first id with that name (so air gives 0 and
    /// each known id maps back to itself), or 0 (air) for a name the table
    /// does not hold.
    pub fn to_legacy(&self, flattened_id: &str) -> (r: u16)
        requires
            self.wf(),
        ensures
            r == reverse_index(self.table(), flattened_id@),
    {
        let ghost t = self.table();
        let ghost rv = pairs_view(self.flattened_to_legacy@);
        let n = self.flattened_to_legacy.len();
        let mut k: usize = 0;
        while k < n
            invariant
                n == self.flattened_to_legacy.len(),
                rv == pairs_view(self.flattened_to_legacy@),
                t == self.table(),
                is_reverse_of(rv, t),
                k <= n,
                forall|q: int| 0 <= q < k ==> rv[q].0 != flattened_id@,
            decreases n - k,
        {
            let (name, id) = self.flattened_to_legacy[k];
            if str_eq(name, flattened_id) {
                proof {
                    assert(rv[k as int] == (name@, id));
                    assert(is_first(t, rv[k as int].0, rv[k as int].1 as int));
                    lemma_reverse_index_is_first(t, flattened_id@, id as int);
                }
                return id;
            }
            k += 1;
        }
        proof {
            if t.contains(flattened_id@) {
                let i = choose|i: int| 0 <= i < t.len() && t[i] == flattened_id@;
                assert(pair_names(rv).contains(t[i]));
                let q = choose|q: int| 0 <= q < pair_names(rv).len() && pair_names(rv)[q] == t[i];
                assert(rv[q].0 == flattened_id@);
            }
        }
        0
    }
}

impl Default for BlockStateConverter {
    fn default() -> (r: Self)
        ensures
            r.wf(),
            r.table() == block_table(),
    {
        Self::new()
    }
}

// ── Biome ids ───────────────────────────────────────────────────────────

/// The modern biome ids of the legacy ids with a known mapping.
pub open spec fn known_biomes() -> Seq<i32> {
    seq![0i32, 5i32, 3i32, 6i32, 2i32, 4i32, 1i32, 7i32, 8i32, 9i32, 10i32, 11i32, 12i32, 13i32, 14i32, 15i32, 16i32, 17i32, 18i32, 19i32, 20i32, 21i32, 22i32, 23i32, 24i32, 25i32, 26i32, 27i32, 28i32, 29i32, 30i32, 31i32, 32i32, 33i32, 34i32, 35i32, 36i32, 37i32, 38i32, 39i32]
}

/// The number of legacy biome ids.
pub const LEGACY_BIOME_IDS: usize = 256;

/// The converter's table: the known mappings, then 0 up to id 255.
pub open spec fn biome_table() -> Seq<i32> {
    known_biomes() + zeros((LEGACY_BIOME_IDS - known_biomes().len()) as nat, 0i32)
}

/// Pre-1.16 numeric biome id ↔ 1.16 registry id.
#[derive(Debug, Clone)]
pub struct BiomeConverter {
    legacy_to_modern: Vec<i32>,
    modern_to_legacy: HashMap<i32, u8>,
}

/// `m` maps each value of `t` to its first index, and holds nothing else.
pub open spec fn is_reverse_map(m: Map<i32, u8>, t: Seq<i32>) -> bool {
    &&& forall|x: i32| #[trigger] m.contains_key(x) <==> t.contains(x)
    &&& forall|x: i32| #[trigger] m.contains_key(x) ==> is_first(t, x, m[x] as int)
}

impl BiomeConverter {
    /// The modern ids, indexed by legacy id.
    pub closed spec fn table(&self) -> Seq<i32> {
        self.legacy_to_modern@
    }

    pub closed spec fn wf(&self) -> bool {
        &&& self.legacy_to_modern.len() <= 256
        &&& is_reverse_map(self.modern_to_legacy@, self.legacy_to_modern@)
    }

    pub fn new() -> (r: Self)
        ensures
            r.wf(),
            r.table() == biome_table(),
    {
        let mut t: Vec<i32> = vec![0, 5, 3, 6, 2, 4, 1, 7, 8, 9, 10, 11, 12, 13, 14, 15, 16, 17, 18, 19, 20, 21, 22, 23, 24, 25, 26, 27, 28, 29, 30, 31, 32, 33, 34, 35, 36, 37, 38, 39];
        assert(t@ =~= known_biomes());
        while t.len() < LEGACY_BIOME_IDS
            invariant
                t.len() <= LEGACY_BIOME_IDS,
                t@ == known_biomes() + zeros((t.len() - known_biomes().len()) as nat, 0i32),
            decreases LEGACY_BIOME_IDS - t.len(),
        {
            let ghost before = t@;
            t.push(0);
            assert(known_biomes() + zeros((t.len() - known_biomes().len()) as nat, 0i32) =~= before.push(0i32));
        }
        let mut m: HashMap<i32, u8> = HashMap::new();
        let n = t.len();
        let mut i: usize = 0;
        while i < n
            invariant
                n == t.len(),
                n <= 256,
                i <= n,
                is_reverse_map(m@, t@.take(i as int)),
            decreases n - i,
        {
            let ghost pre = t@.take(i as int);
            let ghost post = t@.take(i as int + 1);
            assert(post == pre.push(t@[i as int]));
            let x = t[i];
            if !m.contains_key(&x) {
                m.insert(x, i as u8);
                proof {
                    assert forall|y: i32| #[trigger] m@.contains_key(y) <==> post.contains(y) by {
                        if post.contains(y) && y != x {
                            let j = choose|j: int| 0 <= j < post.len() && post[j] == y;
                            assert(pre[j] == y);
                        }
                        if pre.contains(y) {
                            let j = choose|j: int| 0 <= j < pre.len() && pre[j] == y;
                            assert(post[j] == y);
                        }
                        if y == x {
                            assert(post[i as int] == y);
                        }
                    }
                    assert forall|y: i32| #[trigger] m@.contains_key(y) implies is_first(post, y, m@[y] as int) by {
                        if y != x {
                            assert(is_first(pre, y, m@[y] as int));
                        } else {
                            assert forall|j: int| 0 <= j < i implies post[j] != x by {
                                assert(post[j] == pre[j]);
                                if pre[j] == x {
                                    assert(pre.contains(x));
                                }
                            }
                        }
                    }
                }
            } else {
                proof {
                    assert(pre.contains(x));
                    assert forall|y: i32| #[trigger] m@.contains_key(y) <==> post.contains(y) by {
                        if post.contains(y) && y != x {
                            let j = choose|j: int| 0 <= j < post.len() && post[j] == y;
                            assert(pre[j] == y);
                        }
                        if pre.contains(y) {
                            let j = choose|j: int| 0 <= j < pre.len() && pre[j] == y;
                            assert(post[j] == y);
                        }
                    }
                    assert forall|y: i32| #[trigger] m@.contains_key(y) implies is_first(post, y, m@[y] as int) by {
                        assert(is_first(pre, y, m@[y] as int));
                    }
                }
            }
            i += 1;
        }
        assert(t@.take(n as int) =~= t@);
        Self { legacy_to_modern: t, modern_to_legacy: m }
    }

    /// Legacy biome id → modern id; 0 for an id past the table.
    pub fn to_modern(&self, legacy_id: u8) -> (r: i32)
        ensures
            r == if legacy_id < self.table().len() { self.table()[legacy_id as int] } else { 0 },
    {
        let i = legacy_id as usize;
        if i < self.legacy_to_modern.len() {
            self.legacy_to_modern[i]
        } else {
            0
        }
    }

    /// Modern biome id → legacy id: the first legacy id mapped to it (so
    /// ocean, 0, gives 0 and each known legacy id maps back to itself), or 0.
    pub fn to_legacy(&self, modern_id: i32) -> (r: u8)
        requires
            self.wf(),
        ensures
            r == reverse_index(self.table(), modern_id),
    {
        match self.modern_to_legacy.get(&modern_id) {
            Some(v) => {
                proof {
                    lemma_reverse_index_is_first(self.table(), modern_id, *v as int);
                }
                *v
            },
            None => 0,
        }
    }
}

/// The biome table read as a function of the legacy id: the first seven
/// ids are permuted, ids 7 to 39 map to themselves, the rest to 0.
pub open spec fn biome_at(l: int) -> i32 {
    if l == 1 { 5 } else if l == 2 { 3 } else if l == 3 { 6 } else if l == 4 { 2 }
    else if l == 5 { 4 } else if l == 6 { 1 } else if 7 <= l < 40 { l as i32 } else { 0 }
}

proof fn lemma_biome_table_at(l: int)
    requires
        0 <= l < 256,
    ensures
        biome_table()[l] == biome_at(l),
{
    let k = known_biomes();
    assert(k.len() == 40);
    if l < 40 {
        assert(biome_table()[l] == k[l]);
        assert(k[l] == biome_at(l)) by {
            assert(k =~= Seq::new(40, |j: int| biome_at(j)));
        }
    } else {
        assert(biome_table()[l] == zeros(216, 0i32)[l - 40]);
    }
}

/// The two biome lookups undo each other: every legacy id with a known
/// mapping (0 to 39) comes back from the modern id it maps to, ocean (0)
/// comes back as 0, and a modern id outside 0 to 39 gives legacy id 0.
pub proof fn lemma_biome_round_trip()
    ensures
        biome_table().len() == LEGACY_BIOME_IDS,
        forall|l: int| 0 <= l < 40 ==> reverse_index(biome_table(), #[trigger] biome_table()[l]) == l,
        reverse_index(biome_table(), 0i32) == 0,
        forall|m: i32| !(0 <= m <= 39) ==> reverse_index(biome_table(), m) == 0,
{
    let t = biome_table();
    assert(t.len() == 256);
    assert forall|l: int| 0 <= l < 40 implies reverse_index(t, #[trigger] t[l]) == l by {
        lemma_biome_table_at(l);
        assert forall|j: int| 0 <= j < l implies t[j] != t[l] by {
            lemma_biome_table_at(j);
        }
        lemma_reverse_index_is_first(t, t[l], l);
    }
    lemma_biome_table_at(0);
    lemma_reverse_index_is_first(t, 0i32, 0);
    assert forall|m: i32| !(0 <= m <= 39) implies reverse_index(t, m) == 0 by {
        if t.contains(m) {
            let j = choose|j: int| 0 <= j < t.len() && t[j] == m;
            lemma_biome_table_at(j);
        }
    }
}

/// The biomes with a pre-1.16 numeric id below 40, by their pre-1.16
/// names.
pub enum Biome {
    Ocean,
    Plains,
    Desert,
    ExtremeHills,
    Forest,
    Taiga,
    Swampland,
    River,
    Hell,
    Sky,
    FrozenOcean,
    FrozenRiver,
    IcePlains,
    IceMountains,
    MushroomFields,
    MushroomFieldShore,
    Beach,
    DesertHills,
    ForestHills,
    TaigaHills,
    ExtremeHillsEdge,
    Jungle,
    JungleHills,
    JungleEdge,
    DeepOcean,
    StoneBeach,
    ColdBeach,
    BirchForest,
    BirchForestHills,
    RoofedForest,
    ColdTaiga,
    ColdTaigaHills,
    MegaTaiga,
    MegaTaigaHills,
    ExtremeHillsPlus,
    Savanna,
    SavannaPlateau,
    Mesa,
    MesaPlateauF,
    MesaPlateau,
}

/// The pre-1.16 numeric biome registry: the biome each legacy id names.
pub open spec fn legacy_biome(l: int) -> Option<Biome> {
    if l == 0 { Some(Biome::Ocean) } else
    if l == 1 { Some(Biome::Plains) } else
    if l == 2 { Some(Biome::Desert) } else
    if l == 3 { Some(Biome::ExtremeHills) } else
    if l == 4 { Some(Biome::Forest) } else
    if l == 5 { Some(Biome::Taiga) } else
    if l == 6 { Some(Biome::Swampland) } else
    if l == 7 { Some(Biome::River) } else
    if l == 8 { Some(Biome::Hell) } else
    if l == 9 { Some(Biome::Sky) } else
    if l == 10 { Some(Biome::FrozenOcean) } else
    if l == 11 { Some(Biome::FrozenRiver) } else
    if l == 12 { Some(Biome::IcePlains) } else
    if l == 13 { Some(Biome::IceMountains) } else
    if l == 14 { Some(Biome::MushroomFields) } else
    if l == 15 { Some(Biome::MushroomFieldShore) } else
    if l == 16 { Some(Biome::Beach) } else
    if l == 17 { Some(Biome::DesertHills) } else
    if l == 18 { Some(Biome::ForestHills) } else
    if l == 19 { Some(Biome::TaigaHills) } else
    if l == 20 { Some(Biome::ExtremeHillsEdge) } else
    if l == 21 { Some(Biome::Jungle) } else
    if l == 22 { Some(Biome::JungleHills) } else
    if l == 23 { Some(Biome::JungleEdge) } else
    if l == 24 { Some(Biome::DeepOcean) } else
    if l == 25 { Some(Biome::StoneBeach) } else
    if l == 26 { Some(Biome::ColdBeach) } else
    if l == 27 { Some(Biome::BirchForest) } else
    if l == 28 { Some(Biome::BirchForestHills) } else
    if l == 29 { Some(Biome::RoofedForest) } else
    if l == 30 { Some(Biome::ColdTaiga) } else
    if l == 31 { Some(Biome::ColdTaigaHills) } else
    if l == 32 { Some(Biome::MegaTaiga) } else
    if l == 33 { Some(Biome::MegaTaigaHills) } else
    if l == 34 { Some(Biome::ExtremeHillsPlus) } else
    if l == 35 { Some(Biome::Savanna) } else
    if l == 36 { Some(Biome::SavannaPlateau) } else
    if l == 37 { Some(Biome::Mesa) } else
    if l == 38 { Some(Biome::MesaPlateauF) } else
    if l == 39 { Some(Biome::MesaPlateau) } else { None }
}

/// The 1.16 registry id of each biome, listed in registry order with the
/// biome's 1.16 name.
pub open spec fn modern_biome_id(b: Biome) -> i32 {
    match b {
        Biome::Ocean => 0,  // minecraft:ocean
        Biome::Swampland => 1,  // minecraft:swamp
        Biome::Forest => 2,  // minecraft:forest
        Biome::Desert => 3,  // minecraft:desert
        Biome::Taiga => 4,  // minecraft:taiga
        Biome::Plains => 5,  // minecraft:plains
        Biome::ExtremeHills => 6,  // minecraft:windswept_hills
        Biome::River => 7,  // minecraft:river
        Biome::Hell => 8,  // minecraft:nether
        Biome::Sky => 9,  // minecraft:the_end
        Biome::FrozenOcean => 10,  // minecraft:frozen_ocean
        Biome::FrozenRiver => 11,  // minecraft:frozen_river
        Biome::IcePlains => 12,  // minecraft:snowy_plains
        Biome::IceMountains => 13,  // minecraft:snowy_slopes
        Biome::MushroomFields => 14,  // minecraft:mushroom_fields
        Biome::MushroomFieldShore => 15,  // minecraft:mushroom_field_shore
        Biome::Beach => 16,  // minecraft:beach
        Biome::DesertHills => 17,  // minecraft:desert_hills
        Biome::ForestHills => 18,  // minecraft:wooded_hills
        Biome::TaigaHills => 19,  // minecraft:taiga_hills
        Biome::ExtremeHillsEdge => 20,  // minecraft:mountain_edge
        Biome::Jungle => 21,  // minecraft:jungle
        Biome::JungleHills => 22,  // minecraft:jungle_hills
        Biome::JungleEdge => 23,  // minecraft:sparse_jungle
        Biome::DeepOcean => 24,  // minecraft:deep_ocean
        Biome::StoneBeach => 25,  // minecraft:stony_shore
        Biome::ColdBeach => 26,  // minecraft:snowy_beach
        Biome::BirchForest => 27,  // minecraft:birch_forest
        Biome::BirchForestHills => 28,  // minecraft:birch_forest_hills
        Biome::RoofedForest => 29,  // minecraft:dark_forest
        Biome::ColdTaiga => 30,  // minecraft:snowy_taiga
        Biome::ColdTaigaHills => 31,  // minecraft:snowy_taiga_hills
        Biome::MegaTaiga => 32,  // minecraft:old_growth_pine_taiga
        Biome::MegaTaigaHills => 33,  // minecraft:old_growth_pine_taiga_hills
        Biome::ExtremeHillsPlus => 34,  // minecraft:windswept_gravelly_hills
        Biome::Savanna => 35,  // minecraft:savanna
        Biome::SavannaPlateau => 36,  // minecraft:savanna_plateau
        Biome::Mesa => 37,  // minecraft:badlands
        Biome::MesaPlateauF => 38,  // minecraft:badlands_plateau
        Biome::MesaPlateau => 39,  // minecraft:wooded_badlands_plateau
    }
}

/// `to_modern` maps each legacy id below 40 to the 1.16 id of the same
/// biome (Desert, legacy 2, to desert, 3; Forest, legacy 4, to forest, 2),
/// and `to_legacy` maps that 1.16 id back to the legacy id.
pub proof fn lemma_biome_ids_name_the_same_biome()
    ensures
        forall|l: int| 0 <= l < 40 ==> (legacy_biome(l) matches Some(b) && #[trigger] biome_table()[l]
            == modern_biome_id(b)),
        forall|l: int| 0 <= l < 40 ==> (#[trigger] legacy_biome(l) matches Some(b) && reverse_index(biome_table(), modern_biome_id(b)) == l),
{
    assert forall|l: int| 0 <= l < 40 implies (legacy_biome(l) matches Some(b) && #[trigger] biome_table()[l]
        == modern_biome_id(b)) by {
        lemma_biome_table_at(l);
        assert(l == 0 || l == 1 || l == 2 || l == 3 || l == 4 || l == 5 || l == 6 || l == 7 || l == 8 || l == 9 || l == 10 || l == 11 || l == 12 || l == 13 || l == 14 || l == 15 || l == 16 || l == 17 || l == 18 || l == 19 || l == 20 || l == 21 || l == 22 || l == 23 || l == 24 || l == 25 || l == 26 || l == 27 || l == 28 || l == 29 || l == 30 || l == 31 || l == 32 || l == 33 || l == 34 || l == 35 || l == 36 || l == 37 || l == 38 || l == 39);
    }
    lemma_biome_round_trip();
    assert forall|l: int| 0 <= l < 40 implies (#[trigger] legacy_biome(l) matches Some(b) && reverse_index(biome_table(), modern_biome_id(b)) == l) by {
        assert(legacy_biome(l) matches Some(b) && biome_table()[l] == modern_biome_id(b));
    }
}

impl Default for BiomeConverter {
    fn default() -> (r: Self)
        ensures
            r.wf(),
            r.table() == biome_table(),
    {
        Self::new()
    }
}

} // verus!
