//! The rows of the block and item flattening tables: which 1.13 block or
//! item each 1.12 entry maps to, matched by registry name, then by the
//! snake_case form of the display name, then by the curated renames.
use crate::flattening::{
    alias_modern_item, alias_modern_name, ends_with, first_alias, snake_from_display,
    spec_alias_modern_item, spec_snake, strip_wood_planks, block_aliases, ModernBlock,
};
use crate::registry::str_eq;
use crate::types::chunk::{is_last, lemma_last_exists, lemma_last_unique};
use vstd::prelude::*;

verus! {

/// A 1.12 block: its numeric id, registry name, display name, and the
/// metadata variations it has.
pub struct LegacyBlock {
    pub id: u32,
    pub name: String,
    pub display_name: String,
    pub variations: Vec<Variation>,
}

/// One metadata variation of a 1.12 block.
pub struct Variation {
    pub metadata: u32,
    pub display_name: String,
}

/// An item of either version.
pub struct ItemEntry {
    pub id: i32,
    pub name: String,
    pub display_name: String,
}

/// A row of the block table: (legacy id, legacy metadata, 1.13 state,
/// display name).
pub struct BlockRow {
    pub legacy_id: u32,
    pub metadata: u32,
    pub state: u32,
    pub display_name: String,
}

/// Why a block, or one of its variations, got no row.
pub enum SkippedBlock {
    /// A block without variations whose name matched nothing.
    NoVariants { name: String, id: u32 },
    /// A variation whose metadata does not fit the 4-bit field.
    MetaOutOfRange { display_name: String, metadata: u32 },
    /// A variation that matched nothing, with the key that was tried.
    NoMatch { display_name: String, metadata: u32, key: String },
}

/// A row of the item table: (legacy id, 1.13 id, display name).
pub struct ItemRow {
    pub legacy_id: i32,
    pub modern_id: i32,
    pub display_name: String,
}

/// An item that got no row: (name, legacy id).
pub struct SkippedItem {
    pub name: String,
    pub id: i32,
}

// ── Views ───────────────────────────────────────────────────────────────

pub type BlockRowView = (u32, u32, u32, Seq<char>);

pub enum SkippedBlockView {
    NoVariants(Seq<char>, u32),
    MetaOutOfRange(Seq<char>, u32),
    NoMatch(Seq<char>, u32, Seq<char>),
}

pub type ItemRowView = (i32, i32, Seq<char>);

impl View for BlockRow {
    type V = BlockRowView;

    open spec fn view(&self) -> BlockRowView {
        (self.legacy_id, self.metadata, self.state, self.display_name@)
    }
}

impl View for SkippedBlock {
    type V = SkippedBlockView;

    open spec fn view(&self) -> SkippedBlockView {
        match self {
            SkippedBlock::NoVariants { name, id } => SkippedBlockView::NoVariants(name@, *id),
            SkippedBlock::MetaOutOfRange { display_name, metadata } => SkippedBlockView::MetaOutOfRange(
                display_name@,
                *metadata,
            ),
            SkippedBlock::NoMatch { display_name, metadata, key } => SkippedBlockView::NoMatch(
                display_name@,
                *metadata,
                key@,
            ),
        }
    }
}

impl View for ItemRow {
    type V = ItemRowView;

    open spec fn view(&self) -> ItemRowView {
        (self.legacy_id, self.modern_id, self.display_name@)
    }
}

impl View for SkippedItem {
    type V = (Seq<char>, i32);

    open spec fn view(&self) -> (Seq<char>, i32) {
        (self.name@, self.id)
    }
}

pub open spec fn views<T: View>(v: Seq<T>) -> Seq<T::V> {
    v.map_values(|x: T| x@)
}

// ── Lookups ─────────────────────────────────────────────────────────────

/// The last index of `t` holding `x`, if any: a map filled in order keeps
/// the last entry for a repeated key.
pub open spec fn last_index_of(t: Seq<Seq<char>>, x: Seq<char>) -> Option<int> {
    if t.contains(x) {
        Some(choose|i: int| is_last(t, x, i))
    } else {
        None
    }
}

/// `last_index_of` is the last index holding the value.
pub proof fn lemma_last_index_of(t: Seq<Seq<char>>, x: Seq<char>, i: int)
    requires
        is_last(t, x, i),
    ensures
        last_index_of(t, x) == Some(i),
{
    assert(t[i] == x);
    lemma_last_exists(t, x, i);
    let c = choose|c: int| is_last(t, x, c);
    lemma_last_unique(t, x, c, i);
}

/// The index of the last entry of `t` equal to `key`.
fn find_last(t: &Vec<String>, key: &str) -> (r: Option<usize>)
    ensures
        match last_index_of(views(t@), key@) {
            Some(i) => r is Some && r->0 == i,
            None => r is None,
        },
{
    let ghost tv = views(t@);
    let mut i: usize = t.len();
    while i > 0
        invariant
            i <= t.len(),
            tv == views(t@),
            forall|j: int| i <= j < t.len() ==> tv[j] != key@,
        decreases i,
    {
        i -= 1;
        assert(tv[i as int] == t@[i as int]@);
        if str_eq(t[i].as_str(), key) {
            proof {
                lemma_last_index_of(tv, key@, i as int);
            }
            return Some(i);
        }
    }
    proof {
        if tv.contains(key@) {
            let j = choose|j: int| 0 <= j < tv.len() && tv[j] == key@;
            assert(tv[j] != key@);
        }
    }
    None
}

/// Where a 1.12 block name leads among the 1.13 blocks with registry names
/// `names` and snake_case display names `snakes`: the name itself, then its
/// snake_case form, then its curated rename, then its `_wood_planks`
/// rewrite. Each later step is tried only when the earlier ones miss.
pub open spec fn resolve_block(names: Seq<Seq<char>>, snakes: Seq<Seq<char>>, key: Seq<char>) -> Option<int> {
    if last_index_of(names, key) is Some {
        last_index_of(names, key)
    } else if last_index_of(snakes, key) is Some {
        last_index_of(snakes, key)
    } else if first_alias(block_aliases(), key) is Some && last_index_of(
        names,
        first_alias(block_aliases(), key)->0,
    ) is Some {
        last_index_of(names, first_alias(block_aliases(), key)->0)
    } else if ends_with(key, "_wood_planks"@) {
        last_index_of(names, key.take(key.len() - "_wood_planks"@.len()) + "_planks"@)
    } else {
        None
    }
}

/// The registry names of the 1.13 blocks.
pub open spec fn block_names(m: Seq<ModernBlock>) -> Seq<Seq<char>> {
    m.map_values(|b: ModernBlock| b.name@)
}

/// The snake_case display names of the 1.13 blocks.
pub open spec fn block_snakes(m: Seq<ModernBlock>) -> Seq<Seq<char>> {
    m.map_values(|b: ModernBlock| spec_snake(b.display_name@))
}

/// The state of a 1.13 block, as `ModernBlock::state` gives it.
pub open spec fn block_state(b: ModernBlock) -> Option<u32> {
    if b.default_state is Some {
        b.default_state
    } else {
        b.min_state_id
    }
}

/// The state that `key` resolves to, if it resolves to a block with one.
pub open spec fn resolved_state(m: Seq<ModernBlock>, key: Seq<char>) -> Option<u32> {
    match resolve_block(block_names(m), block_snakes(m), key) {
        Some(i) => block_state(m[i]),
        None => None,
    }
}

/// The index tables a block lookup runs on.
pub struct BlockIndex {
    names: Vec<String>,
    snakes: Vec<String>,
}

impl BlockIndex {
    pub closed spec fn names(&self) -> Seq<Seq<char>> {
        views(self.names@)
    }

    pub closed spec fn snakes(&self) -> Seq<Seq<char>> {
        views(self.snakes@)
    }

    /// The registry names and snake_case display names of `modern`.
    pub fn new(modern: &Vec<ModernBlock>) -> (r: Self)
        ensures
            r.names() == block_names(modern@),
            r.snakes() == block_snakes(modern@),
    {
        let mut names: Vec<String> = Vec::new();
        let mut snakes: Vec<String> = Vec::new();
        let mut i: usize = 0;
        while i < modern.len()
            invariant
                i <= modern.len(),
                views(names@) == block_names(modern@).take(i as int),
                views(snakes@) == block_snakes(modern@).take(i as int),
            decreases modern.len() - i,
        {
            let b = &modern[i];
            let ghost n0 = names@;
            let ghost s0 = snakes@;
            names.push(String::from_str(b.name.as_str()));
            snakes.push(snake_from_display(b.display_name.as_str()));
            assert(views(names@) =~= views(n0).push(b.name@));
            assert(views(snakes@) =~= views(s0).push(spec_snake(b.display_name@)));
            assert(block_names(modern@).take(i as int + 1) =~= block_names(modern@).take(i as int).push(b.name@));
            assert(block_snakes(modern@).take(i as int + 1) =~= block_snakes(modern@).take(i as int).push(
                spec_snake(b.display_name@),
            ));
            i += 1;
        }
        assert(block_names(modern@).take(i as int) =~= block_names(modern@));
        assert(block_snakes(modern@).take(i as int) =~= block_snakes(modern@));
        Self { names, snakes }
    }

    /// The index of the 1.13 block that `key` resolves to.
    pub fn resolve(&self, key: &str) -> (r: Option<usize>)
        ensures
            match resolve_block(self.names(), self.snakes(), key@) {
                Some(i) => r is Some && r->0 == i,
                None => r is None,
            },
    {
        if let Some(i) = find_last(&self.names, key) {
            return Some(i);
        }
        if let Some(i) = find_last(&self.snakes, key) {
            return Some(i);
        }
        if let Some(alias) = alias_modern_name(key) {
            if let Some(i) = find_last(&self.names, alias) {
                return Some(i);
            }
        }
        if let Some(rewritten) = strip_wood_planks(key) {
            return find_last(&self.names, rewritten.as_str());
        }
        None
    }
}

// ── Block rows ──────────────────────────────────────────────────────────

/// What one variation of block `b` contributes: a row, or the reason it
/// has none.
pub open spec fn variation_outcome(
    m: Seq<ModernBlock>,
    b_id: u32,
    b_name: Seq<char>,
    v_meta: u32,
    v_display: Seq<char>,
) -> Result<BlockRowView, SkippedBlockView> {
    if v_meta >= 16 {
        Err(SkippedBlockView::MetaOutOfRange(v_display, v_meta))
    } else {
        let key = spec_snake(v_display);
        let state = if resolve_block(block_names(m), block_snakes(m), key) is Some {
            resolved_state(m, key)
        } else if v_meta == 0 {
            resolved_state(m, b_name)
        } else {
            None
        };
        match state {
            Some(s) => Ok((b_id, v_meta, s, v_display)),
            None => Err(SkippedBlockView::NoMatch(v_display, v_meta, key)),
        }
    }
}

/// The rows and skips of the first `n` variations of a block.
pub open spec fn variation_rows(
    m: Seq<ModernBlock>,
    b_id: u32,
    b_name: Seq<char>,
    vs: Seq<Variation>,
    n: nat,
) -> (Seq<BlockRowView>, Seq<SkippedBlockView>)
    decreases n,
{
    if n == 0 || n > vs.len() {
        (Seq::empty(), Seq::empty())
    } else {
        let (rows, skips) = variation_rows(m, b_id, b_name, vs, (n - 1) as nat);
        let v = vs[n - 1];
        match variation_outcome(m, b_id, b_name, v.metadata, v.display_name@) {
            Ok(row) => (rows.push(row), skips),
            Err(skip) => (rows, skips.push(skip)),
        }
    }
}

/// What one 1.12 block contributes to the table.
pub open spec fn block_outcome(m: Seq<ModernBlock>, b: LegacyBlock) -> (Seq<BlockRowView>, Seq<SkippedBlockView>) {
    if b.variations@.len() == 0 {
        match resolved_state(m, b.name@) {
            Some(s) => (seq![(b.id, 0u32, s, b.display_name@)], Seq::empty()),
            None => (Seq::empty(), seq![SkippedBlockView::NoVariants(b.name@, b.id)]),
        }
    } else {
        variation_rows(m, b.id, b.name@, b.variations@, b.variations@.len())
    }
}

/// The rows and skips of the first `n` 1.12 blocks, in order.
pub open spec fn block_table_rows(m: Seq<ModernBlock>, legacy: Seq<LegacyBlock>, n: nat) -> (
    Seq<BlockRowView>,
    Seq<SkippedBlockView>,
)
    decreases n,
{
    if n == 0 || n > legacy.len() {
        (Seq::empty(), Seq::empty())
    } else {
        let (rows, skips) = block_table_rows(m, legacy, (n - 1) as nat);
        let (r, s) = block_outcome(m, legacy[n - 1]);
        (rows + r, skips + s)
    }
}

/// Every out-of-range report in `skips` is for metadata of 16 or more.
pub open spec fn meta_skips_out_of_range(skips: Seq<SkippedBlockView>) -> bool {
    forall|k: int| 0 <= k < skips.len() ==> (#[trigger] skips[k] matches SkippedBlockView::MetaOutOfRange(_d, meta)
        ==> meta >= 16)
}

/// What the table owes variation `v` of the block with id `b_id` and name
/// `b_name`: a report when its metadata does not fit 4 bits; else a row
/// with the state its snake_case display name resolves to, where it
/// resolves to one; else, for metadata 0 only, a row with the state of the
/// block's own name.
pub open spec fn variation_covered(
    m: Seq<ModernBlock>,
    rows: Seq<BlockRowView>,
    skips: Seq<SkippedBlockView>,
    b_id: u32,
    b_name: Seq<char>,
    v: Variation,
) -> bool {
    &&& v.metadata >= 16 ==> skips.contains(SkippedBlockView::MetaOutOfRange(v.display_name@, v.metadata))
    &&& (v.metadata < 16 && resolved_state(m, spec_snake(v.display_name@)) is Some) ==> rows.contains(
        (b_id, v.metadata, resolved_state(m, spec_snake(v.display_name@))->0, v.display_name@),
    )
    &&& (v.metadata == 0 && resolve_block(block_names(m), block_snakes(m), spec_snake(v.display_name@)) is None
        && resolved_state(m, b_name) is Some) ==> rows.contains(
        (b_id, 0u32, resolved_state(m, b_name)->0, v.display_name@),
    )
}

/// Every row carries metadata that fits 4 bits.
pub open spec fn rows_meta_in_range(rows: Seq<BlockRowView>) -> bool {
    forall|k: int| 0 <= k < rows.len() ==> (#[trigger] rows[k]).1 < 16
}

proof fn lemma_contains_push<A>(s: Seq<A>, x: A, y: A)
    requires
        s.contains(x),
    ensures
        s.push(y).contains(x),
{
    let i = choose|i: int| 0 <= i < s.len() && s[i] == x;
    assert(s.push(y)[i] == x);
}

proof fn lemma_contains_concat<A>(a: Seq<A>, b: Seq<A>, x: A)
    requires
        a.contains(x) || b.contains(x),
    ensures
        (a + b).contains(x),
{
    if a.contains(x) {
        let i = choose|i: int| 0 <= i < a.len() && a[i] == x;
        assert((a + b)[i] == x);
    } else {
        let i = choose|i: int| 0 <= i < b.len() && b[i] == x;
        assert((a + b)[a.len() + i] == x);
    }
}

proof fn lemma_variation_rows_meta(m: Seq<ModernBlock>, b_id: u32, b_name: Seq<char>, vs: Seq<Variation>, n: nat)
    requires
        n <= vs.len(),
    ensures
        meta_skips_out_of_range(variation_rows(m, b_id, b_name, vs, n).1),
        rows_meta_in_range(variation_rows(m, b_id, b_name, vs, n).0),
        forall|j: int| 0 <= j < n ==> variation_covered(
            m,
            variation_rows(m, b_id, b_name, vs, n).0,
            variation_rows(m, b_id, b_name, vs, n).1,
            b_id,
            b_name,
            #[trigger] vs[j],
        ),
    decreases n,
{
    if n > 0 {
        lemma_variation_rows_meta(m, b_id, b_name, vs, (n - 1) as nat);
        let (rows0, skips0) = variation_rows(m, b_id, b_name, vs, (n - 1) as nat);
        let (rows, skips) = variation_rows(m, b_id, b_name, vs, n);
        let v = vs[n - 1];
        let out = variation_outcome(m, b_id, b_name, v.metadata, v.display_name@);
        assert forall|k: int| 0 <= k < skips.len() implies (#[trigger] skips[k] matches SkippedBlockView::MetaOutOfRange(_d, meta)
            ==> meta >= 16) by {
            if k < skips0.len() {
                assert(skips[k] == skips0[k]);
            }
        }
        assert forall|k: int| 0 <= k < rows.len() implies (#[trigger] rows[k]).1 < 16 by {
            if k < rows0.len() {
                assert(rows[k] == rows0[k]);
            }
        }
        assert forall|j: int| 0 <= j < n implies variation_covered(m, rows, skips, b_id, b_name, #[trigger] vs[j]) by {
            let w = vs[j];
            let key = spec_snake(w.display_name@);
            if j < n - 1 {
                assert(variation_covered(m, rows0, skips0, b_id, b_name, w));
                if w.metadata >= 16 {
                    lemma_contains_push(skips0, SkippedBlockView::MetaOutOfRange(w.display_name@, w.metadata), out->Err_0);
                }
                if w.metadata < 16 && resolved_state(m, key) is Some {
                    let row = (b_id, w.metadata, resolved_state(m, key)->0, w.display_name@);
                    if out is Ok {
                        lemma_contains_push(rows0, row, out->Ok_0);
                    }
                }
                if w.metadata == 0 && resolve_block(block_names(m), block_snakes(m), key) is None && resolved_state(m, b_name) is Some {
                    let row = (b_id, 0u32, resolved_state(m, b_name)->0, w.display_name@);
                    if out is Ok {
                        lemma_contains_push(rows0, row, out->Ok_0);
                    }
                }
            } else {
                if w.metadata >= 16 {
                    assert(skips == skips0.push(SkippedBlockView::MetaOutOfRange(w.display_name@, w.metadata)));
                    assert(skips[skips0.len() as int] == SkippedBlockView::MetaOutOfRange(w.display_name@, w.metadata));
                }
                if w.metadata < 16 && resolved_state(m, key) is Some {
                    let row = (b_id, w.metadata, resolved_state(m, key)->0, w.display_name@);
                    assert(rows == rows0.push(row));
                    assert(rows[rows0.len() as int] == row);
                }
                if w.metadata == 0 && resolve_block(block_names(m), block_snakes(m), key) is None && resolved_state(m, b_name) is Some {
                    let row = (b_id, 0u32, resolved_state(m, b_name)->0, w.display_name@);
                    assert(rows == rows0.push(row));
                    assert(rows[rows0.len() as int] == row);
                }
            }
        }
    }
}

/// What the table owes a 1.12 block without variations: a row with
/// metadata 0 and the state its registry name resolves to, where it
/// resolves to one.
pub open spec fn plain_block_covered(m: Seq<ModernBlock>, rows: Seq<BlockRowView>, b: LegacyBlock) -> bool {
    (b.variations@.len() == 0 && resolved_state(m, b.name@) is Some) ==> rows.contains(
        (b.id, 0u32, resolved_state(m, b.name@)->0, b.display_name@),
    )
}

proof fn lemma_block_table_rows_meta(m: Seq<ModernBlock>, legacy: Seq<LegacyBlock>, n: nat)
    requires
        n <= legacy.len(),
    ensures
        meta_skips_out_of_range(block_table_rows(m, legacy, n).1),
        rows_meta_in_range(block_table_rows(m, legacy, n).0),
        forall|i: int| 0 <= i < n ==> plain_block_covered(m, block_table_rows(m, legacy, n).0, #[trigger] legacy[i]),
        forall|i: int, j: int| 0 <= i < n && 0 <= j < legacy[i].variations@.len() ==> variation_covered(
            m,
            block_table_rows(m, legacy, n).0,
            block_table_rows(m, legacy, n).1,
            legacy[i].id,
            legacy[i].name@,
            #[trigger] legacy[i].variations@[j],
        ),
    decreases n,
{
    if n > 0 {
        lemma_block_table_rows_meta(m, legacy, (n - 1) as nat);
        let (rows0, skips0) = block_table_rows(m, legacy, (n - 1) as nat);
        let b = legacy[n - 1];
        let (r, s) = block_outcome(m, b);
        let rows = rows0 + r;
        let skips = skips0 + s;
        if b.variations@.len() != 0 {
            lemma_variation_rows_meta(m, b.id, b.name@, b.variations@, b.variations@.len());
        }
        assert(meta_skips_out_of_range(s));
        assert(rows_meta_in_range(r));
        assert forall|k: int| 0 <= k < skips.len() implies (#[trigger] skips[k] matches SkippedBlockView::MetaOutOfRange(_d, meta)
            ==> meta >= 16) by {
            if k < skips0.len() {
                assert(skips[k] == skips0[k]);
            } else {
                assert(skips[k] == s[k - skips0.len()]);
            }
        }
        assert forall|k: int| 0 <= k < rows.len() implies (#[trigger] rows[k]).1 < 16 by {
            if k < rows0.len() {
                assert(rows[k] == rows0[k]);
            } else {
                assert(rows[k] == r[k - rows0.len()]);
            }
        }
        assert forall|i: int| 0 <= i < n implies plain_block_covered(m, rows, #[trigger] legacy[i]) by {
            let w = legacy[i];
            if w.variations@.len() == 0 && resolved_state(m, w.name@) is Some {
                let row = (w.id, 0u32, resolved_state(m, w.name@)->0, w.display_name@);
                if i < n - 1 {
                    assert(plain_block_covered(m, rows0, w));
                } else {
                    assert(r[0] == row);
                }
                lemma_contains_concat(rows0, r, row);
            }
        }
        assert forall|i: int, j: int| 0 <= i < n && 0 <= j < legacy[i].variations@.len() implies variation_covered(
            m, rows, skips, legacy[i].id, legacy[i].name@, #[trigger] legacy[i].variations@[j]) by {
            let w = legacy[i].variations@[j];
            let (rr, ss) = if i < n - 1 { (rows0, skips0) } else { (r, s) };
            assert(variation_covered(m, rr, ss, legacy[i].id, legacy[i].name@, w));
            let key = spec_snake(w.display_name@);
            if w.metadata >= 16 {
                lemma_contains_concat(skips0, s, SkippedBlockView::MetaOutOfRange(w.display_name@, w.metadata));
            }
            if w.metadata < 16 && resolved_state(m, key) is Some {
                lemma_contains_concat(rows0, r, (legacy[i].id, w.metadata, resolved_state(m, key)->0, w.display_name@));
            }
            if w.metadata == 0 && resolve_block(block_names(m), block_snakes(m), key) is None && resolved_state(m, legacy[i].name@) is Some {
                lemma_contains_concat(rows0, r, (legacy[i].id, 0u32, resolved_state(m, legacy[i].name@)->0, w.display_name@));
            }
        }
    }
}

/// Metadata decides the out-of-range report and nothing else: every such
/// report is for metadata of 16 or more, every row has metadata below 16,
/// and every variation with metadata of 16 or more is reported. A variation
/// with metadata below 16 whose snake_case display name resolves to a 1.13
/// block with a state has the row (block id, metadata, that state, display
/// name); one with metadata 0 whose display name resolves to nothing falls
/// back to the block's name; a block without variations gets the row of its
/// name with metadata 0.
pub proof fn lemma_block_table_metadata(m: Seq<ModernBlock>, legacy: Seq<LegacyBlock>)
    ensures
        meta_skips_out_of_range(block_table_rows(m, legacy, legacy.len()).1),
        rows_meta_in_range(block_table_rows(m, legacy, legacy.len()).0),
        forall|i: int| 0 <= i < legacy.len() ==> plain_block_covered(m, block_table_rows(m, legacy, legacy.len()).0, #[trigger] legacy[i]),
        forall|i: int, j: int| 0 <= i < legacy.len() && 0 <= j < legacy[i].variations@.len() ==> variation_covered(
            m,
            block_table_rows(m, legacy, legacy.len()).0,
            block_table_rows(m, legacy, legacy.len()).1,
            legacy[i].id,
            legacy[i].name@,
            #[trigger] legacy[i].variations@[j],
        ),
{
    lemma_block_table_rows_meta(m, legacy, legacy.len());
}

fn state_at(modern: &Vec<ModernBlock>, i: Option<usize>) -> (r: Option<u32>)
    requires
        i matches Some(k) ==> k < modern.len(),
    ensures
        r == match i {
            Some(k) => block_state(modern@[k as int]),
            None => None,
        },
{
    match i {
        Some(k) => modern[k].state(),
        None => None,
    }
}

proof fn lemma_resolve_in_range(names: Seq<Seq<char>>, snakes: Seq<Seq<char>>, key: Seq<char>)
    requires
        names.len() == snakes.len(),
    ensures
        resolve_block(names, snakes, key) matches Some(i) ==> 0 <= i < names.len(),
{
    if names.contains(key) {
        let i = choose|i: int| 0 <= i < names.len() && names[i] == key;
        lemma_last_exists(names, key, i);
    }
    if snakes.contains(key) {
        let i = choose|i: int| 0 <= i < snakes.len() && snakes[i] == key;
        lemma_last_exists(snakes, key, i);
    }
    if first_alias(block_aliases(), key) is Some {
        let a = first_alias(block_aliases(), key)->0;
        if names.contains(a) {
            let i = choose|i: int| 0 <= i < names.len() && names[i] == a;
            lemma_last_exists(names, a, i);
        }
    }
    if ends_with(key, "_wood_planks"@) {
        let r = key.take(key.len() - "_wood_planks"@.len()) + "_planks"@;
        if names.contains(r) {
            let i = choose|i: int| 0 <= i < names.len() && names[i] == r;
            lemma_last_exists(names, r, i);
        }
    }
}

/// The rows of the block flattening table, and the 1.12 blocks (or
/// variations) that got none. A block without variations is matched by its
/// registry name, with metadata 0. Each variation is matched by the
/// snake_case form of its display name, and a variation with metadata 0
/// falls back to the block's name; metadata of 16 or more does not fit the
/// 4-bit field and is skipped.
pub fn block_table(legacy: &Vec<LegacyBlock>, modern: &Vec<ModernBlock>) -> (r: (Vec<BlockRow>, Vec<SkippedBlock>))
    ensures
        (views(r.0@), views(r.1@)) == block_table_rows(modern@, legacy@, legacy@.len()),
        meta_skips_out_of_range(views(r.1@)),
        rows_meta_in_range(views(r.0@)),
        forall|i: int| 0 <= i < legacy@.len() ==> plain_block_covered(modern@, views(r.0@), #[trigger] legacy@[i]),
        forall|i: int, j: int| 0 <= i < legacy@.len() && 0 <= j < legacy@[i].variations@.len() ==> variation_covered(
            modern@,
            views(r.0@),
            views(r.1@),
            legacy@[i].id,
            legacy@[i].name@,
            #[trigger] legacy@[i].variations@[j],
        ),
{
    proof {
        lemma_block_table_metadata(modern@, legacy@);
    }
    let index = BlockIndex::new(modern);
    let ghost m = modern@;
    let mut rows: Vec<BlockRow> = Vec::new();
    let mut skipped: Vec<SkippedBlock> = Vec::new();
    let mut i: usize = 0;
    proof {
        assert(views(rows@) =~= Seq::<BlockRowView>::empty());
        assert(views(skipped@) =~= Seq::<SkippedBlockView>::empty());
    }
    while i < legacy.len()
        invariant
            i <= legacy.len(),
            m == modern@,
            index.names() == block_names(m),
            index.snakes() == block_snakes(m),
            (views(rows@), views(skipped@)) == block_table_rows(m, legacy@, i as nat),
        decreases legacy.len() - i,
    {
        let b = &legacy[i];
        let ghost rows0 = views(rows@);
        let ghost skips0 = views(skipped@);
        proof {
            lemma_resolve_in_range(block_names(m), block_snakes(m), b.name@);
        }
        if b.variations.len() == 0 {
            let st = state_at(modern, index.resolve(b.name.as_str()));
            match st {
                Some(state) => {
                    rows.push(BlockRow {
                        legacy_id: b.id,
                        metadata: 0,
                        state,
                        display_name: String::from_str(b.display_name.as_str()),
                    });
                    assert(views(rows@) =~= rows0 + seq![(b.id, 0u32, state, b.display_name@)]);
                    assert(views(skipped@) =~= skips0 + Seq::<SkippedBlockView>::empty());
                },
                None => {
                    skipped.push(SkippedBlock::NoVariants { name: String::from_str(b.name.as_str()), id: b.id });
                    assert(views(skipped@) =~= skips0 + seq![SkippedBlockView::NoVariants(b.name@, b.id)]);
                    assert(views(rows@) =~= rows0 + Seq::<BlockRowView>::empty());
                },
            }
        } else {
            let mut j: usize = 0;
            proof {
                assert(views(rows@) =~= rows0 + variation_rows(m, b.id, b.name@, b.variations@, 0).0);
                assert(views(skipped@) =~= skips0 + variation_rows(m, b.id, b.name@, b.variations@, 0).1);
            }
            while j < b.variations.len()
                invariant
                    b == &legacy@[i as int],
                    j <= b.variations.len(),
                    m == modern@,
                    index.names() == block_names(m),
                    index.snakes() == block_snakes(m),
                    views(rows@) == rows0 + variation_rows(m, b.id, b.name@, b.variations@, j as nat).0,
                    views(skipped@) == skips0 + variation_rows(m, b.id, b.name@, b.variations@, j as nat).1,
                decreases b.variations.len() - j,
            {
                let v = &b.variations[j];
                proof {
                    lemma_resolve_in_range(block_names(m), block_snakes(m), b.name@);
                }
                let ghost r0 = views(rows@);
                let ghost k0 = views(skipped@);
                if v.metadata >= 16 {
                    skipped.push(SkippedBlock::MetaOutOfRange {
                        display_name: String::from_str(v.display_name.as_str()),
                        metadata: v.metadata,
                    });
                    assert(views(skipped@) =~= k0.push(SkippedBlockView::MetaOutOfRange(v.display_name@, v.metadata)));
                } else {
                    let key = snake_from_display(v.display_name.as_str());
                    proof {
                        lemma_resolve_in_range(block_names(m), block_snakes(m), key@);
                    }
                    let found = index.resolve(key.as_str());
                    let st = if found.is_some() {
                        state_at(modern, found)
                    } else if v.metadata == 0 {
                        state_at(modern, index.resolve(b.name.as_str()))
                    } else {
                        None
                    };
                    match st {
                        Some(state) => {
                            rows.push(BlockRow {
                                legacy_id: b.id,
                                metadata: v.metadata,
                                state,
                                display_name: String::from_str(v.display_name.as_str()),
                            });
                            assert(views(rows@) =~= r0.push((b.id, v.metadata, state, v.display_name@)));
                        },
                        None => {
                            skipped.push(SkippedBlock::NoMatch {
                                display_name: String::from_str(v.display_name.as_str()),
                                metadata: v.metadata,
                                key,
                            });
                            assert(views(skipped@) =~= k0.push(
                                SkippedBlockView::NoMatch(v.display_name@, v.metadata, spec_snake(v.display_name@)),
                            ));
                        },
                    }
                }
                j += 1;
            }
        }
        i += 1;
    }
    (rows, skipped)
}

// ── Item rows ───────────────────────────────────────────────────────────

/// The registry names of a list of items.
pub open spec fn item_names(m: Seq<ItemEntry>) -> Seq<Seq<char>> {
    m.map_values(|e: ItemEntry| e.name@)
}

/// The snake_case display names of a list of items.
pub open spec fn item_snakes(m: Seq<ItemEntry>) -> Seq<Seq<char>> {
    m.map_values(|e: ItemEntry| spec_snake(e.display_name@))
}

/// Where a 1.12 item leads among the 1.13 items: its registry name, then
/// the snake_case form of its display name, then its curated rename.
pub open spec fn resolve_item(names: Seq<Seq<char>>, snakes: Seq<Seq<char>>, name: Seq<char>, display: Seq<char>) -> Option<int> {
    if last_index_of(names, name) is Some {
        last_index_of(names, name)
    } else if last_index_of(snakes, spec_snake(display)) is Some {
        last_index_of(snakes, spec_snake(display))
    } else if spec_alias_modern_item(name) is Some {
        last_index_of(names, spec_alias_modern_item(name)->0)
    } else {
        None
    }
}

/// What one 1.12 item contributes: a row when it resolves to an item with a
/// non-negative id and its own id fits an `i16`.
pub open spec fn item_outcome(m: Seq<ItemEntry>, l: ItemEntry) -> Result<ItemRowView, (Seq<char>, i32)> {
    match resolve_item(item_names(m), item_snakes(m), l.name@, l.display_name@) {
        Some(k) => if i16::MIN <= l.id <= i16::MAX && m[k].id >= 0 {
            Ok((l.id, m[k].id, l.display_name@))
        } else {
            Err((l.name@, l.id))
        },
        None => Err((l.name@, l.id)),
    }
}

/// The rows and skips of the first `n` 1.12 items, in order.
pub open spec fn item_table_rows(m: Seq<ItemEntry>, legacy: Seq<ItemEntry>, n: nat) -> (Seq<ItemRowView>, Seq<(Seq<char>, i32)>)
    decreases n,
{
    if n == 0 || n > legacy.len() {
        (Seq::empty(), Seq::empty())
    } else {
        let (rows, skips) = item_table_rows(m, legacy, (n - 1) as nat);
        match item_outcome(m, legacy[n - 1]) {
            Ok(row) => (rows.push(row), skips),
            Err(skip) => (rows, skips.push(skip)),
        }
    }
}

proof fn lemma_resolve_item_in_range(names: Seq<Seq<char>>, snakes: Seq<Seq<char>>, name: Seq<char>, display: Seq<char>)
    requires
        names.len() == snakes.len(),
    ensures
        resolve_item(names, snakes, name, display) matches Some(i) ==> 0 <= i < names.len(),
{
    if names.contains(name) {
        let i = choose|i: int| 0 <= i < names.len() && names[i] == name;
        lemma_last_exists(names, name, i);
    }
    let d = spec_snake(display);
    if snakes.contains(d) {
        let i = choose|i: int| 0 <= i < snakes.len() && snakes[i] == d;
        lemma_last_exists(snakes, d, i);
    }
    if spec_alias_modern_item(name) is Some {
        let a = spec_alias_modern_item(name)->0;
        if names.contains(a) {
            let i = choose|i: int| 0 <= i < names.len() && names[i] == a;
            lemma_last_exists(names, a, i);
        }
    }
}

/// The rows of the item flattening table, and the 1.12 items that got
/// none.
pub fn item_table(legacy: &Vec<ItemEntry>, modern: &Vec<ItemEntry>) -> (r: (Vec<ItemRow>, Vec<SkippedItem>))
    ensures
        (views(r.0@), views(r.1@)) == item_table_rows(modern@, legacy@, legacy@.len()),
{
    let ghost m = modern@;
    let mut names: Vec<String> = Vec::new();
    let mut snakes: Vec<String> = Vec::new();
    let mut k: usize = 0;
    while k < modern.len()
        invariant
            k <= modern.len(),
            views(names@) == item_names(modern@).take(k as int),
            views(snakes@) == item_snakes(modern@).take(k as int),
        decreases modern.len() - k,
    {
        let e = &modern[k];
        let ghost n0 = names@;
        let ghost s0 = snakes@;
        names.push(String::from_str(e.name.as_str()));
        snakes.push(snake_from_display(e.display_name.as_str()));
        assert(views(names@) =~= views(n0).push(e.name@));
        assert(views(snakes@) =~= views(s0).push(spec_snake(e.display_name@)));
        assert(item_names(modern@).take(k as int + 1) =~= item_names(modern@).take(k as int).push(e.name@));
        assert(item_snakes(modern@).take(k as int + 1) =~= item_snakes(modern@).take(k as int).push(
            spec_snake(e.display_name@),
        ));
        k += 1;
    }
    assert(item_names(modern@).take(k as int) =~= item_names(modern@));
    assert(item_snakes(modern@).take(k as int) =~= item_snakes(modern@));
    let mut rows: Vec<ItemRow> = Vec::new();
    let mut skipped: Vec<SkippedItem> = Vec::new();
    let mut i: usize = 0;
    proof {
        assert(views(rows@) =~= Seq::<ItemRowView>::empty());
        assert(views(skipped@) =~= Seq::<(Seq<char>, i32)>::empty());
    }
    while i < legacy.len()
        invariant
            i <= legacy.len(),
            m == modern@,
            views(names@) == item_names(m),
            views(snakes@) == item_snakes(m),
            (views(rows@), views(skipped@)) == item_table_rows(m, legacy@, i as nat),
        decreases legacy.len() - i,
    {
        let l = &legacy[i];
        let ghost r0 = views(rows@);
        let ghost k0 = views(skipped@);
        proof {
            lemma_resolve_item_in_range(item_names(m), item_snakes(m), l.name@, l.display_name@);
        }
        let mut found = find_last(&names, l.name.as_str());
        if found.is_none() {
            let dkey = snake_from_display(l.display_name.as_str());
            found = find_last(&snakes, dkey.as_str());
            if found.is_none() {
                if let Some(alias) = alias_modern_item(l.name.as_str()) {
                    found = find_last(&names, alias);
                }
            }
        }
        assert(match resolve_item(item_names(m), item_snakes(m), l.name@, l.display_name@) {
            Some(k) => found is Some && found->0 == k,
            None => found is None,
        });
        assert(item_table_rows(m, legacy@, i as nat + 1) == match item_outcome(m, legacy@[i as int]) {
            Ok(row) => (r0.push(row), k0),
            Err(skip) => (r0, k0.push(skip)),
        });
        assert(legacy@[i as int] == *l);
        let ok = match found {
            Some(k) => -32768 <= l.id && l.id <= 32767 && modern[k].id >= 0,
            None => false,
        };
        if ok {
            let k = match found {
                Some(k) => k,
                None => 0,
            };
            let modern_id = modern[k].id;
            let ghost kk = resolve_item(item_names(m), item_snakes(m), l.name@, l.display_name@)->0;
            assert(resolve_item(item_names(m), item_snakes(m), l.name@, l.display_name@) is Some);
            assert(kk == k);
            assert(m[kk].id == modern_id);
            assert(i16::MIN <= l.id <= i16::MAX);
            assert(item_outcome(m, legacy@[i as int]) == Ok::<ItemRowView, (Seq<char>, i32)>(
                (l.id, modern_id, l.display_name@),
            ));
            rows.push(ItemRow { legacy_id: l.id, modern_id, display_name: String::from_str(l.display_name.as_str()) });
            assert(views(rows@) =~= r0.push((l.id, modern_id, l.display_name@)));
        } else {
            assert(item_outcome(m, legacy@[i as int]) == Err::<ItemRowView, (Seq<char>, i32)>((l.name@, l.id)));
            skipped.push(SkippedItem { name: String::from_str(l.name.as_str()), id: l.id });
            assert(views(skipped@) =~= k0.push((l.name@, l.id)));
        }
        i += 1;
    }
    (rows, skipped)
}

} // verus!
