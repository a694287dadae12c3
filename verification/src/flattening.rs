//! The name mappings behind the 1.12 → 1.13 flattening tables: the
//! curated renames, the `_wood_planks` rewrite, and the snake_case form of
//! display names.
use crate::registry::str_eq;
use vstd::prelude::*;
use vstd::string::*;

verus! {

/// A 1.13 block as the data files describe it.
pub struct ModernBlock {
    pub name: String,
    pub display_name: String,
    /// The state for placing the block as-is.
    pub default_state: Option<u32>,
    /// The lowest state id, used when `default_state` is missing.
    pub min_state_id: Option<u32>,
}

impl ModernBlock {
    /// The state to record for the block: `default_state`, else
    /// `min_state_id`.
    pub fn state(&self) -> (r: Option<u32>)
        ensures
            r == if self.default_state is Some { self.default_state } else { self.min_state_id },
    {
        match self.default_state {
            Some(s) => Some(s),
            None => self.min_state_id,
        }
    }
}

/// A rename table: (legacy name, modern name) pairs, tried in order.
pub type AliasTable = Seq<(Seq<char>, Seq<char>)>;

/// The modern name of the first pair whose legacy name is `key`.
pub open spec fn first_alias(t: AliasTable, key: Seq<char>) -> Option<Seq<char>>
    decreases t.len(),
{
    if t.len() == 0 {
        None
    } else if t[0].0 == key {
        Some(t[0].1)
    } else {
        first_alias(t.drop_first(), key)
    }
}

pub open spec fn alias_view(t: Seq<(&'static str, &'static str)>) -> AliasTable {
    t.map_values(|p: (&'static str, &'static str)| (p.0@, p.1@))
}

/// Looks `key` up in `t`, first match wins.
fn lookup_alias(t: &Vec<(&'static str, &'static str)>, key: &str) -> (r: Option<&'static str>)
    ensures
        match first_alias(alias_view(t@), key@) {
            Some(m) => r is Some && r->0@ == m,
            None => r is None,
        },
{
    let ghost tv = alias_view(t@);
    let n = t.len();
    let mut i: usize = 0;
    assert(tv.skip(0) =~= tv);
    while i < n
        invariant
            n == t.len(),
            tv == alias_view(t@),
            i <= n,
            first_alias(tv, key@) == first_alias(tv.skip(i as int), key@),
        decreases n - i,
    {
        let (k, v) = t[i];
        proof {
            assert(tv.skip(i as int)[0] == (k@, v@));
            assert(tv.skip(i as int).drop_first() =~= tv.skip(i as int + 1));
        }
        if str_eq(k, key) {
            return Some(v);
        }
        i += 1;
    }
    proof {
        assert(tv.skip(n as int).len() == 0);
    }
    None
}

/// The block renames between 1.12 and 1.13 that the name lookups miss: the
/// documented renames, the merged double slabs and tile-entity colours
/// collapsed to a default, the hardened clay → terracotta family, and the
/// wood stairs and slabs.
pub open spec fn block_aliases() -> AliasTable {
    seq![
        ("flowing_water"@, "water"@),
        ("flowing_lava"@, "lava"@),
        ("web"@, "cobweb"@),
        ("deadbush"@, "dead_bush"@),
        ("yellow_flower"@, "dandelion"@),
        ("noteblock"@, "note_block"@),
        ("lit_pumpkin"@, "jack_o_lantern"@),
        ("magma"@, "magma_block"@),
        ("red_nether_brick"@, "red_nether_bricks"@),
        ("end_bricks"@, "end_stone_bricks"@),
        ("snow_layer"@, "snow"@),
        ("snow"@, "snow_block"@),
        ("trapdoor"@, "oak_trapdoor"@),
        ("sapling"@, "oak_sapling"@),
        ("tallgrass"@, "grass"@),
        ("leaves"@, "oak_leaves"@),
        ("log"@, "oak_log"@),
        ("daylight_detector_inverted"@, "daylight_detector"@),
        ("piston_extension"@, "moving_piston"@),
        ("bed"@, "red_bed"@),
        ("standing_banner"@, "white_banner"@),
        ("wall_banner"@, "white_wall_banner"@),
        ("skull"@, "skeleton_skull"@),
        ("double_stone_slab"@, "smooth_stone_slab"@),
        ("double_stone_slab2"@, "red_sandstone_slab"@),
        ("double_wooden_slab"@, "oak_slab"@),
        ("purpur_double_slab"@, "purpur_slab"@),
        ("beetroot_seeds"@, "beetroots"@),
        ("carrots"@, "carrots"@),
        ("potatoes"@, "potatoes"@),
        ("wheat"@, "wheat"@),
        ("brick_block"@, "bricks"@),
        ("fence"@, "oak_fence"@),
        ("wooden_trapdoor"@, "oak_trapdoor"@),
        ("wooden_pressure_plate"@, "oak_pressure_plate"@),
        ("button"@, "oak_button"@),
        ("stone_brick"@, "stone_bricks"@),
        ("chiseled_stone_brick"@, "chiseled_stone_bricks"@),
        ("cracked_stone_brick"@, "cracked_stone_bricks"@),
        ("mossy_stone_brick"@, "mossy_stone_bricks"@),
        ("nether_brick"@, "nether_bricks"@),
        ("melon_block"@, "melon"@),
        ("reeds"@, "sugar_cane"@),
        ("waterlily"@, "lily_pad"@),
        ("mob_spawner"@, "spawner"@),
        ("pillar_quartz_block"@, "quartz_pillar"@),
        ("lit_redstone_lamp"@, "redstone_lamp"@),
        ("lit_redstone_ore"@, "redstone_ore"@),
        ("quartz_ore"@, "nether_quartz_ore"@),
        ("slime"@, "slime_block"@),
        ("portal"@, "nether_portal"@),
        ("burning_furnace"@, "furnace"@),
        ("powered_comparator"@, "comparator"@),
        ("daylight_sensor"@, "daylight_detector"@),
        ("slightly_damaged_anvil"@, "chipped_anvil"@),
        ("very_damaged_anvil"@, "damaged_anvil"@),
        ("white_hardened_clay"@, "white_terracotta"@),
        ("orange_hardened_clay"@, "orange_terracotta"@),
        ("magenta_hardened_clay"@, "magenta_terracotta"@),
        ("light_blue_hardened_clay"@, "light_blue_terracotta"@),
        ("yellow_hardened_clay"@, "yellow_terracotta"@),
        ("lime_hardened_clay"@, "lime_terracotta"@),
        ("pink_hardened_clay"@, "pink_terracotta"@),
        ("gray_hardened_clay"@, "gray_terracotta"@),
        ("light_gray_hardened_clay"@, "light_gray_terracotta"@),
        ("cyan_hardened_clay"@, "cyan_terracotta"@),
        ("purple_hardened_clay"@, "purple_terracotta"@),
        ("blue_hardened_clay"@, "blue_terracotta"@),
        ("brown_hardened_clay"@, "brown_terracotta"@),
        ("green_hardened_clay"@, "green_terracotta"@),
        ("red_hardened_clay"@, "red_terracotta"@),
        ("black_hardened_clay"@, "black_terracotta"@),
        ("stone_slab"@, "smooth_stone_slab"@),
        ("wooden_slab"@, "oak_slab"@),
        ("smooth_double_stone_slab"@, "smooth_stone_slab"@),
        ("smooth_double_sandstone_slab"@, "smooth_sandstone_slab"@),
        ("upper_red_sandstone_slab"@, "red_sandstone_slab"@),
        ("bricks_slab"@, "brick_slab"@),
        ("double_bricks_slab"@, "brick_slab"@),
        ("oak_wood_stairs"@, "oak_stairs"@),
        ("spruce_wood_stairs"@, "spruce_stairs"@),
        ("birch_wood_stairs"@, "birch_stairs"@),
        ("jungle_wood_stairs"@, "jungle_stairs"@),
        ("acacia_wood_stairs"@, "acacia_stairs"@),
        ("dark_oak_wood_stairs"@, "dark_oak_stairs"@),
        ("oak_wood_slab"@, "oak_slab"@),
        ("double_oak_wood_slab"@, "oak_slab"@),
        ("spruce_wood_slab"@, "spruce_slab"@),
        ("double_spruce_wood_slab"@, "spruce_slab"@),
        ("birch_wood_slab"@, "birch_slab"@),
        ("double_birch_wood_slab"@, "birch_slab"@),
        ("jungle_wood_slab"@, "jungle_slab"@),
        ("double_jungle_wood_slab"@, "jungle_slab"@),
        ("acacia_wood_slab"@, "acacia_slab"@),
        ("double_acacia_wood_slab"@, "acacia_slab"@),
        ("dark_oak_wood_slab"@, "dark_oak_slab"@),
        ("double_dark_oak_wood_slab"@, "dark_oak_slab"@),
        ("tile_double_quartz_slab"@, "quartz_slab"@),
        ("weighted_pressure_plate_light"@, "light_weighted_pressure_plate"@),
        ("weighted_pressure_plate_heavy"@, "heavy_weighted_pressure_plate"@),
        ("stone_monster_egg"@, "infested_stone"@),
        ("cobblestone_monster_egg"@, "infested_cobblestone"@),
        ("stone_brick_monster_egg"@, "infested_stone_bricks"@),
        ("mossy_stone_brick_monster_egg"@, "infested_mossy_stone_bricks"@),
        ("cracked_stone_brick_monster_egg"@, "infested_cracked_stone_bricks"@),
        ("chiseled_stone_brick_monster_egg"@, "infested_chiseled_stone_bricks"@),
        ("double_tallgrass"@, "tall_grass"@),
        ("standing_sign"@, "sign"@),
        ("head"@, "skeleton_skull"@),
        ("mushroom"@, "brown_mushroom"@),
        ("potato"@, "potatoes"@),
        ("carrot"@, "carrots"@),
        ("cauldront"@, "cauldron"@),
        ("fence_gate"@, "oak_fence_gate"@),
        ("double_sandstone_slab"@, "sandstone_slab"@),
        ("double_stone_wooden_slab"@, "petrified_oak_slab"@),
        ("stone_wooden_slab"@, "petrified_oak_slab"@),
        ("double_cobblestone_slab"@, "cobblestone_slab"@),
        ("double_stone_brick_slab"@, "stone_brick_slab"@),
        ("double_nether_brick_slab"@, "nether_brick_slab"@),
        ("double_quartz_slab"@, "quartz_slab"@),
        ("smooth_double_red_sandstone_slab"@, "smooth_red_sandstone_slab"@),
        ("inverted_daylight_sensor"@, "daylight_detector"@),
    ]
}

fn block_alias_table() -> (r: Vec<(&'static str, &'static str)>)
    ensures
        alias_view(r@) == block_aliases(),
{
    let v: Vec<(&'static str, &'static str)> = vec![
        ("flowing_water", "water"),
        ("flowing_lava", "lava"),
        ("web", "cobweb"),
        ("deadbush", "dead_bush"),
        ("yellow_flower", "dandelion"),
        ("noteblock", "note_block"),
        ("lit_pumpkin", "jack_o_lantern"),
        ("magma", "magma_block"),
        ("red_nether_brick", "red_nether_bricks"),
        ("end_bricks", "end_stone_bricks"),
        ("snow_layer", "snow"),
        ("snow", "snow_block"),
        ("trapdoor", "oak_trapdoor"),
        ("sapling", "oak_sapling"),
        ("tallgrass", "grass"),
        ("leaves", "oak_leaves"),
        ("log", "oak_log"),
        ("daylight_detector_inverted", "daylight_detector"),
        ("piston_extension", "moving_piston"),
        ("bed", "red_bed"),
        ("standing_banner", "white_banner"),
        ("wall_banner", "white_wall_banner"),
        ("skull", "skeleton_skull"),
        ("double_stone_slab", "smooth_stone_slab"),
        ("double_stone_slab2", "red_sandstone_slab"),
        ("double_wooden_slab", "oak_slab"),
        ("purpur_double_slab", "purpur_slab"),
        ("beetroot_seeds", "beetroots"),
        ("carrots", "carrots"),
        ("potatoes", "potatoes"),
        ("wheat", "wheat"),
        ("brick_block", "bricks"),
        ("fence", "oak_fence"),
        ("wooden_trapdoor", "oak_trapdoor"),
        ("wooden_pressure_plate", "oak_pressure_plate"),
        ("button", "oak_button"),
        ("stone_brick", "stone_bricks"),
        ("chiseled_stone_brick", "chiseled_stone_bricks"),
        ("cracked_stone_brick", "cracked_stone_bricks"),
        ("mossy_stone_brick", "mossy_stone_bricks"),
        ("nether_brick", "nether_bricks"),
        ("melon_block", "melon"),
        ("reeds", "sugar_cane"),
        ("waterlily", "lily_pad"),
        ("mob_spawner", "spawner"),
        ("pillar_quartz_block", "quartz_pillar"),
        ("lit_redstone_lamp", "redstone_lamp"),
        ("lit_redstone_ore", "redstone_ore"),
        ("quartz_ore", "nether_quartz_ore"),
        ("slime", "slime_block"),
        ("portal", "nether_portal"),
        ("burning_furnace", "furnace"),
        ("powered_comparator", "comparator"),
        ("daylight_sensor", "daylight_detector"),
        ("slightly_damaged_anvil", "chipped_anvil"),
        ("very_damaged_anvil", "damaged_anvil"),
        ("white_hardened_clay", "white_terracotta"),
        ("orange_hardened_clay", "orange_terracotta"),
        ("magenta_hardened_clay", "magenta_terracotta"),
        ("light_blue_hardened_clay", "light_blue_terracotta"),
        ("yellow_hardened_clay", "yellow_terracotta"),
        ("lime_hardened_clay", "lime_terracotta"),
        ("pink_hardened_clay", "pink_terracotta"),
        ("gray_hardened_clay", "gray_terracotta"),
        ("light_gray_hardened_clay", "light_gray_terracotta"),
        ("cyan_hardened_clay", "cyan_terracotta"),
        ("purple_hardened_clay", "purple_terracotta"),
        ("blue_hardened_clay", "blue_terracotta"),
        ("brown_hardened_clay", "brown_terracotta"),
        ("green_hardened_clay", "green_terracotta"),
        ("red_hardened_clay", "red_terracotta"),
        ("black_hardened_clay", "black_terracotta"),
        ("stone_slab", "smooth_stone_slab"),
        ("wooden_slab", "oak_slab"),
        ("smooth_double_stone_slab", "smooth_stone_slab"),
        ("smooth_double_sandstone_slab", "smooth_sandstone_slab"),
        ("upper_red_sandstone_slab", "red_sandstone_slab"),
        ("bricks_slab", "brick_slab"),
        ("double_bricks_slab", "brick_slab"),
        ("oak_wood_stairs", "oak_stairs"),
        ("spruce_wood_stairs", "spruce_stairs"),
        ("birch_wood_stairs", "birch_stairs"),
        ("jungle_wood_stairs", "jungle_stairs"),
        ("acacia_wood_stairs", "acacia_stairs"),
        ("dark_oak_wood_stairs", "dark_oak_stairs"),
        ("oak_wood_slab", "oak_slab"),
        ("double_oak_wood_slab", "oak_slab"),
        ("spruce_wood_slab", "spruce_slab"),
        ("double_spruce_wood_slab", "spruce_slab"),
        ("birch_wood_slab", "birch_slab"),
        ("double_birch_wood_slab", "birch_slab"),
        ("jungle_wood_slab", "jungle_slab"),
        ("double_jungle_wood_slab", "jungle_slab"),
        ("acacia_wood_slab", "acacia_slab"),
        ("double_acacia_wood_slab", "acacia_slab"),
        ("dark_oak_wood_slab", "dark_oak_slab"),
        ("double_dark_oak_wood_slab", "dark_oak_slab"),
        ("tile_double_quartz_slab", "quartz_slab"),
        ("weighted_pressure_plate_light", "light_weighted_pressure_plate"),
        ("weighted_pressure_plate_heavy", "heavy_weighted_pressure_plate"),
        ("stone_monster_egg", "infested_stone"),
        ("cobblestone_monster_egg", "infested_cobblestone"),
        ("stone_brick_monster_egg", "infested_stone_bricks"),
        ("mossy_stone_brick_monster_egg", "infested_mossy_stone_bricks"),
        ("cracked_stone_brick_monster_egg", "infested_cracked_stone_bricks"),
        ("chiseled_stone_brick_monster_egg", "infested_chiseled_stone_bricks"),
        ("double_tallgrass", "tall_grass"),
        ("standing_sign", "sign"),
        ("head", "skeleton_skull"),
        ("mushroom", "brown_mushroom"),
        ("potato", "potatoes"),
        ("carrot", "carrots"),
        ("cauldront", "cauldron"),
        ("fence_gate", "oak_fence_gate"),
        ("double_sandstone_slab", "sandstone_slab"),
        ("double_stone_wooden_slab", "petrified_oak_slab"),
        ("stone_wooden_slab", "petrified_oak_slab"),
        ("double_cobblestone_slab", "cobblestone_slab"),
        ("double_stone_brick_slab", "stone_brick_slab"),
        ("double_nether_brick_slab", "nether_brick_slab"),
        ("double_quartz_slab", "quartz_slab"),
        ("smooth_double_red_sandstone_slab", "smooth_red_sandstone_slab"),
        ("inverted_daylight_sensor", "daylight_detector"),
    ];
    assert(alias_view(v@) =~= block_aliases());
    v
}

/// Item renames that have no block of the same name: music discs, fish,
/// fireworks, the generic spawn egg and the like.
pub open spec fn item_aliases() -> AliasTable {
    seq![
        ("record_13"@, "music_disc_13"@),
        ("record_cat"@, "music_disc_cat"@),
        ("record_blocks"@, "music_disc_blocks"@),
        ("record_chirp"@, "music_disc_chirp"@),
        ("record_far"@, "music_disc_far"@),
        ("record_mall"@, "music_disc_mall"@),
        ("record_mellohi"@, "music_disc_mellohi"@),
        ("record_stal"@, "music_disc_stal"@),
        ("record_strad"@, "music_disc_strad"@),
        ("record_ward"@, "music_disc_ward"@),
        ("record_11"@, "music_disc_11"@),
        ("record_wait"@, "music_disc_wait"@),
        ("fish"@, "cod"@),
        ("cooked_fish"@, "cooked_cod"@),
        ("experience_bottle"@, "experience_bottle"@),
        ("fireworks"@, "firework_rocket"@),
        ("firework_charge"@, "firework_star"@),
        ("speckled_melon"@, "glistering_melon_slice"@),
        ("melon"@, "melon_slice"@),
        ("netherbrick"@, "nether_brick"@),
        ("leather_helmet"@, "leather_helmet"@),
        ("skull"@, "skeleton_skull"@),
        ("spawn_egg"@, "pig_spawn_egg"@),
        ("log2"@, "oak_leaves"@),
        ("leaves2"@, "oak_leaves"@),
        ("stained_hardened_clay"@, "white_terracotta"@),
    ]
}

fn item_alias_table() -> (r: Vec<(&'static str, &'static str)>)
    ensures
        alias_view(r@) == item_aliases(),
{
    let v: Vec<(&'static str, &'static str)> = vec![
        ("record_13", "music_disc_13"),
        ("record_cat", "music_disc_cat"),
        ("record_blocks", "music_disc_blocks"),
        ("record_chirp", "music_disc_chirp"),
        ("record_far", "music_disc_far"),
        ("record_mall", "music_disc_mall"),
        ("record_mellohi", "music_disc_mellohi"),
        ("record_stal", "music_disc_stal"),
        ("record_strad", "music_disc_strad"),
        ("record_ward", "music_disc_ward"),
        ("record_11", "music_disc_11"),
        ("record_wait", "music_disc_wait"),
        ("fish", "cod"),
        ("cooked_fish", "cooked_cod"),
        ("experience_bottle", "experience_bottle"),
        ("fireworks", "firework_rocket"),
        ("firework_charge", "firework_star"),
        ("speckled_melon", "glistering_melon_slice"),
        ("melon", "melon_slice"),
        ("netherbrick", "nether_brick"),
        ("leather_helmet", "leather_helmet"),
        ("skull", "skeleton_skull"),
        ("spawn_egg", "pig_spawn_egg"),
        ("log2", "oak_leaves"),
        ("leaves2", "oak_leaves"),
        ("stained_hardened_clay", "white_terracotta"),
    ];
    assert(alias_view(v@) =~= item_aliases());
    v
}

/// The curated 1.13 name of a 1.12 block name, if it has one.
pub fn alias_modern_name(legacy: &str) -> (r: Option<&'static str>)
    ensures
        match first_alias(block_aliases(), legacy@) {
            Some(m) => r is Some && r->0@ == m,
            None => r is None,
        },
{
    let t = block_alias_table();
    lookup_alias(&t, legacy)
}

/// The name an item alias gives: the block rename if there is one, else
/// the item rename.
pub open spec fn spec_alias_modern_item(legacy: Seq<char>) -> Option<Seq<char>> {
    match first_alias(block_aliases(), legacy) {
        Some(m) => Some(m),
        None => first_alias(item_aliases(), legacy),
    }
}

/// The curated 1.13 name of a 1.12 item name: placeable items share the
/// block renames, the rest have their own.
pub fn alias_modern_item(legacy: &str) -> (r: Option<&'static str>)
    ensures
        match spec_alias_modern_item(legacy@) {
            Some(m) => r is Some && r->0@ == m,
            None => r is None,
        },
{
    if let Some(via_block) = alias_modern_name(legacy) {
        return Some(via_block);
    }
    let t = item_alias_table();
    lookup_alias(&t, legacy)
}

/// `str::strip_suffix`: the part of `s` before `suffix`, when `s` ends
/// with it.
#[verifier::external_body]
fn strip_suffix<'a>(s: &'a str, suffix: &str) -> (r: Option<&'a str>)
    ensures
        r is Some <==> ends_with(s@, suffix@),
        r matches Some(p) ==> p@ == s@.take(s@.len() - suffix@.len()),
{
    s.strip_suffix(suffix)
}

/// `String::push`: appends one character.
#[verifier::external_body]
fn push_char(s: &mut String, c: char)
    ensures
        final(s)@ == old(s)@.push(c),
{
    s.push(c)
}

pub open spec fn ends_with(s: Seq<char>, suffix: Seq<char>) -> bool {
    suffix.len() <= s.len() && s.skip(s.len() - suffix.len()) == suffix
}

/// `oak_wood_planks` → `oak_planks`, for every name ending in
/// `_wood_planks`.
pub fn strip_wood_planks(s: &str) -> (r: Option<String>)
    ensures
        ends_with(s@, "_wood_planks"@) <==> r is Some,
        r matches Some(o) ==> o@ == s@.take(s@.len() - "_wood_planks"@.len()) + "_planks"@,
{
    match strip_suffix(s, "_wood_planks") {
        Some(p) => {
            let mut out = String::from_str(p);
            out.append("_planks");
            Some(out)
        },
        None => None,
    }
}

pub open spec fn is_ascii_alnum(c: char) -> bool {
    ('0' <= c && c <= '9') || ('a' <= c && c <= 'z') || ('A' <= c && c <= 'Z')
}

pub open spec fn ascii_lower(c: char) -> char {
    if 'A' <= c && c <= 'Z' {
        ((c as u32) + 32) as char
    } else {
        c
    }
}

/// Reading `s` left to right: each ASCII letter or digit is written in
/// lower case, each run of other characters after one becomes a single
/// `_`. Also returns whether the output ends in `_` or is empty.
pub open spec fn snake_scan(s: Seq<char>) -> (Seq<char>, bool)
    decreases s.len(),
{
    if s.len() == 0 {
        (Seq::empty(), true)
    } else {
        let (out, under) = snake_scan(s.drop_last());
        let c = s.last();
        if is_ascii_alnum(c) {
            (out.push(ascii_lower(c)), false)
        } else if !under {
            (out.push('_'), true)
        } else {
            (out, under)
        }
    }
}

/// `s` without its trailing underscores.
pub open spec fn trim_underscores(s: Seq<char>) -> Seq<char>
    decreases s.len(),
{
    if s.len() > 0 && s.last() == '_' {
        trim_underscores(s.drop_last())
    } else {
        s
    }
}

/// The snake_case registry form of a display name.
pub open spec fn spec_snake(s: Seq<char>) -> Seq<char> {
    trim_underscores(snake_scan(s).0)
}

/// A character of the snake_case form: a lower-case ASCII letter, a digit
/// or `_`.
pub open spec fn is_snake_char(c: char) -> bool {
    ('a' <= c && c <= 'z') || ('0' <= c && c <= '9') || c == '_'
}

/// Only snake_case characters, no `_` first and no two `_` in a row.
pub open spec fn snake_shape(t: Seq<char>) -> bool {
    &&& forall|i: int| 0 <= i < t.len() ==> is_snake_char(#[trigger] t[i])
    &&& t.len() > 0 ==> t[0] != '_'
    &&& forall|i: int| 0 <= i < t.len() - 1 ==> !(#[trigger] t[i] == '_' && t[i + 1] == '_')
}

/// A snake_case name: `snake_shape`, and no `_` last either.
pub open spec fn is_snake(t: Seq<char>) -> bool {
    &&& snake_shape(t)
    &&& t.len() > 0 ==> t.last() != '_'
}

proof fn lemma_scan_shape(s: Seq<char>)
    ensures
        snake_shape(snake_scan(s).0),
        snake_scan(s).1 <==> (snake_scan(s).0.len() == 0 || snake_scan(s).0.last() == '_'),
    decreases s.len(),
{
    if s.len() > 0 {
        lemma_scan_shape(s.drop_last());
        let (out, under) = snake_scan(s.drop_last());
        let c = s.last();
        if is_ascii_alnum(c) {
            let o2 = out.push(ascii_lower(c));
            assert forall|i: int| 0 <= i < o2.len() implies is_snake_char(#[trigger] o2[i]) by {
                if i < out.len() {
                    assert(o2[i] == out[i]);
                }
            }
            assert forall|i: int| 0 <= i < o2.len() - 1 implies !(#[trigger] o2[i] == '_' && o2[i + 1] == '_') by {
                assert(o2[i] == out[i]);
            }
        } else if !under {
            let o2 = out.push('_');
            assert forall|i: int| 0 <= i < o2.len() implies is_snake_char(#[trigger] o2[i]) by {
                if i < out.len() {
                    assert(o2[i] == out[i]);
                }
            }
            assert forall|i: int| 0 <= i < o2.len() - 1 implies !(#[trigger] o2[i] == '_' && o2[i + 1] == '_') by {
                assert(o2[i] == out[i]);
                if i == out.len() - 1 {
                    assert(out.last() != '_');
                } else {
                    assert(o2[i + 1] == out[i + 1]);
                }
            }
        }
    }
}

proof fn lemma_trim_shape(t: Seq<char>)
    requires
        snake_shape(t),
    ensures
        is_snake(trim_underscores(t)),
    decreases t.len(),
{
    if t.len() > 0 && t.last() == '_' {
        let d = t.drop_last();
        assert forall|i: int| 0 <= i < d.len() - 1 implies !(#[trigger] d[i] == '_' && d[i + 1] == '_') by {
            assert(d[i] == t[i] && d[i + 1] == t[i + 1]);
        }
        assert forall|i: int| 0 <= i < d.len() implies is_snake_char(#[trigger] d[i]) by {
            assert(d[i] == t[i]);
        }
        lemma_trim_shape(d);
    }
}

/// Scanning a name already in snake shape gives it back unchanged.
proof fn lemma_scan_of_shape(r: Seq<char>)
    requires
        snake_shape(r),
    ensures
        snake_scan(r).0 == r,
        snake_scan(r).1 <==> (r.len() == 0 || r.last() == '_'),
    decreases r.len(),
{
    if r.len() > 0 {
        let d = r.drop_last();
        assert forall|i: int| 0 <= i < d.len() - 1 implies !(#[trigger] d[i] == '_' && d[i + 1] == '_') by {
            assert(d[i] == r[i] && d[i + 1] == r[i + 1]);
        }
        assert forall|i: int| 0 <= i < d.len() implies is_snake_char(#[trigger] d[i]) by {
            assert(d[i] == r[i]);
        }
        lemma_scan_of_shape(d);
        let c = r.last();
        assert(is_snake_char(r[r.len() - 1]));
        if c == '_' {
            if d.len() > 0 {
                assert(!(r[r.len() - 2] == '_' && r[r.len() - 1] == '_'));
            }
        }
        assert(d.push(c) =~= r);
    }
}

/// What `snake_from_display` returns is a snake_case name (letters, digits
/// and `_` only, no `_` first, last or twice in a row), and converting it
/// again changes nothing.
pub proof fn lemma_snake_laws(s: Seq<char>)
    ensures
        is_snake(spec_snake(s)),
        spec_snake(spec_snake(s)) == spec_snake(s),
{
    lemma_scan_shape(s);
    lemma_trim_shape(snake_scan(s).0);
    let r = spec_snake(s);
    lemma_scan_of_shape(r);
}

fn is_alnum(c: char) -> (r: bool)
    ensures
        r == is_ascii_alnum(c),
{
    ('0' <= c && c <= '9') || ('a' <= c && c <= 'z') || ('A' <= c && c <= 'Z')
}

fn lower(c: char) -> (r: char)
    requires
        is_ascii_alnum(c),
    ensures
        r == ascii_lower(c),
{
    if 'A' <= c && c <= 'Z' {
        let b = c as u8;
        (b + 32) as char
    } else {
        c
    }
}

/// "Light blue Wool" → "light_blue_wool": letters and digits lower-cased,
/// every other run turned into one `_`, none at either end.
pub fn snake_from_display(s: &str) -> (r: String)
    ensures
        r@ == spec_snake(s@),
        is_snake(r@),
{
    let n = s.unicode_len();
    let mut out = String::new();
    let mut pending = false;
    let mut i: usize = 0;
    while i < n
        invariant
            n == s@.len(),
            i <= n,
            snake_scan(s@.take(i as int)).0 == if pending { out@.push('_') } else { out@ },
            snake_scan(s@.take(i as int)).1 == (pending || out@.len() == 0),
            pending ==> out@.len() > 0,
            out@.len() > 0 ==> out@.last() != '_',
        decreases n - i,
    {
        let c = s.get_char(i);
        proof {
            assert(s@.take(i as int + 1).drop_last() =~= s@.take(i as int));
            assert(s@.take(i as int + 1).last() == c);
        }
        if is_alnum(c) {
            if pending {
                push_char(&mut out, '_');
                pending = false;
            }
            let l = lower(c);
            push_char(&mut out, l);
        } else if out.unicode_len() > 0 {
            pending = true;
        }
        i += 1;
    }
    proof {
        assert(s@.take(n as int) =~= s@);
        assert(trim_underscores(out@) == out@);
        if pending {
            assert(out@.push('_').drop_last() =~= out@);
            assert(trim_underscores(out@.push('_')) == trim_underscores(out@));
        }
        lemma_snake_laws(s@);
    }
    out
}

/// The escape of one character inside a TOML basic string.
pub open spec fn escape_char(c: char) -> Seq<char> {
    if c == '\\' {
        seq!['\\', '\\']
    } else if c == '"' {
        seq!['\\', '"']
    } else {
        seq![c]
    }
}

pub open spec fn spec_escape(s: Seq<char>) -> Seq<char>
    decreases s.len(),
{
    if s.len() == 0 {
        Seq::empty()
    } else {
        spec_escape(s.drop_last()) + escape_char(s.last())
    }
}

/// Backslashes doubled and quotes backslash-escaped, for a TOML string.
pub fn escape(s: &str) -> (r: String)
    ensures
        r@ == spec_escape(s@),
{
    let n = s.unicode_len();
    let mut out = String::new();
    let mut i: usize = 0;
    while i < n
        invariant
            n == s@.len(),
            i <= n,
            out@ == spec_escape(s@.take(i as int)),
        decreases n - i,
    {
        let c = s.get_char(i);
        proof {
            assert(s@.take(i as int + 1).drop_last() =~= s@.take(i as int));
            assert(s@.take(i as int + 1).last() == c);
        }
        if c == '\\' {
            push_char(&mut out, '\\');
            push_char(&mut out, '\\');
        } else if c == '"' {
            push_char(&mut out, '\\');
            push_char(&mut out, '"');
        } else {
            push_char(&mut out, c);
        }
        assert(out@ =~= spec_escape(s@.take(i as int + 1)));
        i += 1;
    }
    assert(s@.take(n as int) =~= s@);
    out
}

} // verus!
