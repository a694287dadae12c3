//! The `(protocol, state, direction, name) -> packet id` table, with lookups
//! that fall back to the newest entry registered at or below a protocol id.
use std::collections::HashMap;
use vstd::prelude::*;

verus! {

#[derive(Debug, Clone, Copy, PartialEq, Eq, Hash, Structural)]
pub enum ProtocolState {
    Handshake,
    Status,
    Login,
    Configuration,
    Play,
}

#[derive(Debug, Clone, Copy, PartialEq, Eq, Hash, Structural)]
pub enum Direction {
    Serverbound,
    Clientbound,
}

#[derive(Debug, Clone)]
pub struct PacketMeta {
    pub id: u8,
    pub name: &'static str,
}

/// One registered packet as plain values: (protocol id, packet id, name).
pub type EntryView = (u32, u8, Seq<char>);

/// The number of (state, direction) pairs.
pub const BUCKETS: usize = 10;

/// Where the entries of a (state, direction) pair are kept.
pub open spec fn bucket_of(state: ProtocolState, dir: Direction) -> int {
    let s = match state {
        ProtocolState::Handshake => 0int,
        ProtocolState::Status => 1,
        ProtocolState::Login => 2,
        ProtocolState::Configuration => 3,
        ProtocolState::Play => 4,
    };
    let d = match dir {
        Direction::Serverbound => 0int,
        Direction::Clientbound => 1,
    };
    2 * s + d
}

fn bucket_index(state: ProtocolState, dir: Direction) -> (r: usize)
    ensures
        r == bucket_of(state, dir),
        r < BUCKETS,
{
    let s: usize = match state {
        ProtocolState::Handshake => 0,
        ProtocolState::Status => 1,
        ProtocolState::Login => 2,
        ProtocolState::Configuration => 3,
        ProtocolState::Play => 4,
    };
    let d: usize = match dir {
        Direction::Serverbound => 0,
        Direction::Clientbound => 1,
    };
    2 * s + d
}

/// `str == str`, from std's `PartialEq` for `str`: whether the two strings
/// have the same characters.
#[verifier::external_body]
pub(crate) fn str_eq(a: &str, b: &str) -> (r: bool)
    ensures
        r == (a@ == b@),
{
    a == b
}

/// The entries of one bucket in the order they were first registered.
/// No two of them share both protocol id and name.
pub open spec fn unique_keys(es: Seq<EntryView>) -> bool {
    forall|i: int, j: int|
        0 <= i < j < es.len() ==> !(#[trigger] es[i].0 == #[trigger] es[j].0 && es[i].2 == es[j].2)
}

/// The index of the entry for `(proto, name)`, if there is one.
pub open spec fn key_index(es: Seq<EntryView>, proto: u32, name: Seq<char>) -> Option<int> {
    if exists|i: int| 0 <= i < es.len() && es[i].0 == proto && es[i].2 == name {
        Some(choose|i: int| 0 <= i < es.len() && es[i].0 == proto && es[i].2 == name)
    } else {
        None
    }
}

/// `register` on one bucket: updates the id of an existing `(proto, name)`
/// entry, or appends a new entry.
pub open spec fn register_entry(es: Seq<EntryView>, proto: u32, name: Seq<char>, id: u8) -> Seq<EntryView> {
    match key_index(es, proto, name) {
        Some(i) => es.update(i, (proto, id, name)),
        None => es.push((proto, id, name)),
    }
}

/// The packet id registered for exactly `(proto, name)`.
pub open spec fn lookup_id(es: Seq<EntryView>, proto: u32, name: Seq<char>) -> Option<u8> {
    match key_index(es, proto, name) {
        Some(i) => Some(es[i].1),
        None => None,
    }
}

/// `k` is the entry chosen by the fallback: among the entries satisfying
/// `wanted` with a protocol id at most `proto`, the one with the highest
/// protocol id, the first such on a tie.
pub open spec fn is_fallback(es: Seq<EntryView>, proto: u32, wanted: spec_fn(EntryView) -> bool, k: int) -> bool {
    &&& 0 <= k < es.len()
    &&& wanted(es[k])
    &&& es[k].0 <= proto
    &&& forall|j: int| 0 <= j < es.len() && wanted(#[trigger] es[j]) && es[j].0 <= proto ==> es[j].0 <= es[k].0
    &&& forall|j: int| 0 <= j < k && wanted(#[trigger] es[j]) && es[j].0 <= proto ==> es[j].0 < es[k].0
}

/// The first index whose entry has protocol id `proto` and satisfies `wanted`.
pub open spec fn is_first_exact(es: Seq<EntryView>, proto: u32, wanted: spec_fn(EntryView) -> bool, k: int) -> bool {
    &&& 0 <= k < es.len()
    &&& wanted(es[k])
    &&& es[k].0 == proto
    &&& forall|j: int| 0 <= j < k ==> !(wanted(#[trigger] es[j]) && es[j].0 == proto)
}

/// What the version-tolerant lookups return: the entry registered at
/// exactly `proto` (the first one), else the fallback entry, else none.
pub open spec fn versioned_pick(es: Seq<EntryView>, proto: u32, wanted: spec_fn(EntryView) -> bool) -> Option<int> {
    if exists|k: int| is_first_exact(es, proto, wanted, k) {
        Some(choose|k: int| is_first_exact(es, proto, wanted, k))
    } else if exists|k: int| is_fallback(es, proto, wanted, k) {
        Some(choose|k: int| is_fallback(es, proto, wanted, k))
    } else {
        None
    }
}

/// The id `get_id_for_version` returns for `name` at `proto`.
pub open spec fn versioned_id(es: Seq<EntryView>, proto: u32, name: Seq<char>) -> Option<u8> {
    match versioned_pick(es, proto, named(name)) {
        Some(k) => Some(es[k].1),
        None => None,
    }
}

/// After registering `(proto, name) -> id`, an exact lookup of that key
/// gives `id`.
pub proof fn lemma_register_then_get(es: Seq<EntryView>, proto: u32, name: Seq<char>, id: u8)
    requires
        unique_keys(es),
    ensures
        lookup_id(register_entry(es, proto, name, id), proto, name) == Some(id),
{
    let es2 = register_entry(es, proto, name, id);
    match key_index(es, proto, name) {
        Some(i) => {
            assert(es2[i] == (proto, id, name));
            lemma_key_index_unique(es2, proto, name, i);
        },
        None => {
            let i = es.len() as int;
            assert(es2[i] == (proto, id, name));
            assert forall|j: int| 0 <= j < i implies !(es2[j].0 == proto && es2[j].2 == name) by {
                assert(es2[j] == es[j]);
            }
            lemma_key_index_first(es2, proto, name, i);
        },
    }
}

/// Registering one key leaves the exact lookup of every other key as it was.
pub proof fn lemma_register_keeps_others(
    es: Seq<EntryView>,
    proto: u32,
    name: Seq<char>,
    id: u8,
    other_proto: u32,
    other_name: Seq<char>,
)
    requires
        unique_keys(es),
        other_proto != proto || other_name != name,
    ensures
        lookup_id(register_entry(es, proto, name, id), other_proto, other_name) == lookup_id(
            es,
            other_proto,
            other_name,
        ),
{
    let es2 = register_entry(es, proto, name, id);
    assert(unique_keys(es2)) by {
        lemma_register_unique(es, proto, name, id);
    }
    match key_index(es, other_proto, other_name) {
        Some(i) => {
            assert(es2[i] == es[i]);
            lemma_key_index_unique(es2, other_proto, other_name, i);
        },
        None => {
            if exists|j: int| 0 <= j < es2.len() && es2[j].0 == other_proto && es2[j].2 == other_name {
                let j = choose|j: int| 0 <= j < es2.len() && es2[j].0 == other_proto && es2[j].2 == other_name;
                if j < es.len() {
                    assert(es2[j] == es[j] || es2[j] == (proto, id, name));
                }
            }
        },
    }
}

/// Registering keeps the keys of a bucket distinct.
pub proof fn lemma_register_unique(es: Seq<EntryView>, proto: u32, name: Seq<char>, id: u8)
    requires
        unique_keys(es),
    ensures
        unique_keys(register_entry(es, proto, name, id)),
{
    let es2 = register_entry(es, proto, name, id);
    match key_index(es, proto, name) {
        Some(i) => {
            assert forall|a: int, b: int| 0 <= a < b < es2.len() implies !(#[trigger] es2[a].0
                == #[trigger] es2[b].0 && es2[a].2 == es2[b].2) by {
                assert(es2[a].0 == es[a].0 && es2[a].2 == es[a].2);
                assert(es2[b].0 == es[b].0 && es2[b].2 == es[b].2);
            }
        },
        None => {
            assert forall|a: int, b: int| 0 <= a < b < es2.len() implies !(#[trigger] es2[a].0
                == #[trigger] es2[b].0 && es2[a].2 == es2[b].2) by {
                if b == es.len() {
                    assert(es2[a] == es[a]);
                } else {
                    assert(es2[a] == es[a] && es2[b] == es[b]);
                }
            }
        },
    }
}

proof fn lemma_key_index_unique(es: Seq<EntryView>, proto: u32, name: Seq<char>, i: int)
    requires
        unique_keys(es),
        0 <= i < es.len(),
        es[i].0 == proto && es[i].2 == name,
    ensures
        key_index(es, proto, name) == Some(i),
{
    let k = choose|k: int| 0 <= k < es.len() && es[k].0 == proto && es[k].2 == name;
    if k < i {
        assert(!(es[k].0 == es[i].0 && es[k].2 == es[i].2));
    } else if i < k {
        assert(!(es[i].0 == es[k].0 && es[i].2 == es[k].2));
    }
}

proof fn lemma_key_index_first(es: Seq<EntryView>, proto: u32, name: Seq<char>, i: int)
    requires
        0 <= i < es.len(),
        es[i].0 == proto && es[i].2 == name,
        forall|j: int| 0 <= j < es.len() && j != i ==> !(es[j].0 == proto && es[j].2 == name),
    ensures
        key_index(es, proto, name) == Some(i),
{
}

/// An id registered at protocol `from` answers every later protocol `proto`
/// up to the next registration of the same name: the lookup at a
/// subversion inherits it.
pub proof fn lemma_subversion_inherits(es: Seq<EntryView>, from: u32, proto: u32, name: Seq<char>, k: int)
    requires
        unique_keys(es),
        0 <= k < es.len(),
        es[k].0 == from,
        es[k].2 == name,
        from <= proto,
        forall|j: int| 0 <= j < es.len() && #[trigger] es[j].2 == name ==> !(from < es[j].0 <= proto),
    ensures
        versioned_id(es, proto, name) == Some(es[k].1),
{
    let wanted = named(name);
    if from == proto {
        assert(is_first_exact(es, proto, wanted, k)) by {
            assert forall|j: int| 0 <= j < k implies !(wanted(#[trigger] es[j]) && es[j].0 == proto) by {
                assert(!(es[j].0 == es[k].0 && es[j].2 == es[k].2));
            }
        }
        let c = choose|c: int| is_first_exact(es, proto, wanted, c);
        lemma_first_exact_unique(es, proto, wanted, c, k);
    } else {
        assert forall|c: int| !is_first_exact(es, proto, wanted, c) by {
            if is_first_exact(es, proto, wanted, c) {
                assert(es[c].2 == name);
            }
        }
        assert(is_fallback(es, proto, wanted, k)) by {
            assert forall|j: int| 0 <= j < es.len() && wanted(#[trigger] es[j]) && es[j].0 <= proto implies es[j].0 <= es[k].0 by {
                assert(es[j].2 == name);
            }
            assert forall|j: int| 0 <= j < k && wanted(#[trigger] es[j]) && es[j].0 <= proto implies es[j].0 < es[k].0 by {
                assert(es[j].2 == name);
                assert(!(es[j].0 == es[k].0 && es[j].2 == es[k].2));
            }
        }
        let c = choose|c: int| is_fallback(es, proto, wanted, c);
        lemma_fallback_unique(es, proto, wanted, c, k);
    }
}

/// No entry for `name` at or below `proto`: the versioned lookup finds
/// nothing.
pub proof fn lemma_absent_below(es: Seq<EntryView>, proto: u32, name: Seq<char>)
    requires
        forall|j: int| 0 <= j < es.len() && #[trigger] es[j].2 == name ==> es[j].0 > proto,
    ensures
        versioned_id(es, proto, name) is None,
{
    let wanted = named(name);
    assert forall|c: int| !is_first_exact(es, proto, wanted, c) by {
        if is_first_exact(es, proto, wanted, c) {
            assert(es[c].2 == name);
        }
    }
    assert forall|c: int| !is_fallback(es, proto, wanted, c) by {
        if is_fallback(es, proto, wanted, c) {
            assert(es[c].2 == name);
        }
    }
}

pub open spec fn named(name: Seq<char>) -> spec_fn(EntryView) -> bool {
    |e: EntryView| e.2 == name
}

pub open spec fn with_id(id: u8) -> spec_fn(EntryView) -> bool {
    |e: EntryView| e.1 == id
}

/// What a lookup matches entries on.
pub enum Key {
    Name(&'static str),
    Id(u8),
}

impl Key {
    pub open spec fn wanted(self) -> spec_fn(EntryView) -> bool {
        match self {
            Key::Name(n) => named(n@),
            Key::Id(i) => with_id(i),
        }
    }
}

fn key_matches(meta: &PacketMeta, key: &Key) -> (r: bool)
    ensures
        r == key.wanted()((0u32, meta.id, meta.name@)),
{
    match key {
        Key::Name(n) => str_eq(meta.name, n),
        Key::Id(i) => meta.id == *i,
    }
}

pub proof fn lemma_first_exact_unique(es: Seq<EntryView>, proto: u32, wanted: spec_fn(EntryView) -> bool, a: int, b: int)
    requires
        is_first_exact(es, proto, wanted, a),
        is_first_exact(es, proto, wanted, b),
    ensures
        a == b,
{
    if a < b {
        assert(wanted(es[a]) && es[a].0 == proto);
    } else if b < a {
        assert(wanted(es[b]) && es[b].0 == proto);
    }
}

pub proof fn lemma_fallback_unique(es: Seq<EntryView>, proto: u32, wanted: spec_fn(EntryView) -> bool, a: int, b: int)
    requires
        is_fallback(es, proto, wanted, a),
        is_fallback(es, proto, wanted, b),
    ensures
        a == b,
{
    assert(wanted(es[a]) && wanted(es[b]));
    if a < b {
        assert(es[a].0 <= es[b].0);
    } else if b < a {
        assert(es[b].0 <= es[a].0);
    }
}

/// The index `versioned_pick` chooses in a bucket.
fn pick(bucket: &Vec<(u32, PacketMeta)>, proto: u32, key: &Key) -> (r: Option<usize>)
    ensures
        r matches Some(k) ==> versioned_pick(bucket@.map_values(|e: (u32, PacketMeta)| entry_view(e)), proto, key.wanted()) == Some(k as int),
        r is None ==> versioned_pick(bucket@.map_values(|e: (u32, PacketMeta)| entry_view(e)), proto, key.wanted()) is None,
{
    let ghost es = bucket@.map_values(|e: (u32, PacketMeta)| entry_view(e));
    let ghost wanted = key.wanted();
    let n = bucket.len();
    let mut i: usize = 0;
    while i < n
        invariant
            n == bucket.len(),
            es == bucket@.map_values(|e: (u32, PacketMeta)| entry_view(e)),
            wanted == key.wanted(),
            i <= n,
            forall|j: int| 0 <= j < i ==> !(wanted(#[trigger] es[j]) && es[j].0 == proto),
        decreases n - i,
    {
        let m = key_matches(&bucket[i].1, key);
        assert(es[i as int] == entry_view(bucket@[i as int]));
        if bucket[i].0 == proto && m {
            proof {
                assert(is_first_exact(es, proto, wanted, i as int));
                let k = choose|k: int| is_first_exact(es, proto, wanted, k);
                lemma_first_exact_unique(es, proto, wanted, k, i as int);
            }
            return Some(i);
        }
        i += 1;
    }
    assert(!exists|k: int| is_first_exact(es, proto, wanted, k));
    let mut best: Option<usize> = None;
    let mut best_proto: u32 = 0;
    let mut i: usize = 0;
    while i < n
        invariant
            n == bucket.len(),
            es == bucket@.map_values(|e: (u32, PacketMeta)| entry_view(e)),
            wanted == key.wanted(),
            i <= n,
            best is None ==> forall|j: int| 0 <= j < i ==> !(wanted(#[trigger] es[j]) && es[j].0 <= proto),
            best matches Some(k) ==> {
                &&& k < i
                &&& wanted(es[k as int])
                &&& es[k as int].0 <= proto
                &&& best_proto == es[k as int].0
                &&& forall|j: int| 0 <= j < i && wanted(#[trigger] es[j]) && es[j].0 <= proto ==> es[j].0 <= es[k as int].0
                &&& forall|j: int| 0 <= j < k && wanted(#[trigger] es[j]) && es[j].0 <= proto ==> es[j].0 < es[k as int].0
            },
        decreases n - i,
    {
        let m = key_matches(&bucket[i].1, key);
        assert(es[i as int] == entry_view(bucket@[i as int]));
        let p = bucket[i].0;
        if m && p <= proto && (best.is_none() || p > best_proto) {
            best = Some(i);
            best_proto = p;
        }
        i += 1;
    }
    proof {
        match best {
            Some(k) => {
                assert(is_fallback(es, proto, wanted, k as int));
                let c = choose|c: int| is_fallback(es, proto, wanted, c);
                lemma_fallback_unique(es, proto, wanted, c, k as int);
            },
            None => {
                assert(!exists|k: int| is_fallback(es, proto, wanted, k));
            },
        }
    }
    best
}

/// Distinct (state, direction) pairs are kept in distinct buckets.
pub proof fn lemma_bucket_of_injective(s1: ProtocolState, d1: Direction, s2: ProtocolState, d2: Direction)
    ensures
        bucket_of(s1, d1) == bucket_of(s2, d2) ==> s1 == s2 && d1 == d2,
        0 <= bucket_of(s1, d1) < BUCKETS,
{
}

/// `name` is registered at exactly `p`.
pub open spec fn registered_at(es: Seq<EntryView>, p: u32, name: Seq<char>) -> bool {
    lookup_id(es, p, name) is Some
}

/// `p` is the highest protocol id, at most `proto`, at which `name` is
/// registered.
pub open spec fn is_highest_registered(es: Seq<EntryView>, proto: u32, name: Seq<char>, p: u32) -> bool {
    &&& p <= proto
    &&& registered_at(es, p, name)
    &&& forall|q: u32| p < q <= proto ==> !#[trigger] registered_at(es, q, name)
}

/// The version-tolerant lookup of `name` at `proto` is the exact lookup at
/// the highest protocol id, at most `proto`, where `name` was registered,
/// and finds nothing when `name` was registered only above `proto`.
pub proof fn lemma_versioned_is_highest_exact(es: Seq<EntryView>, proto: u32, name: Seq<char>)
    requires
        unique_keys(es),
    ensures
        (forall|p: u32| p <= proto ==> !#[trigger] registered_at(es, p, name)) ==> versioned_id(es, proto, name) is None,
        forall|p: u32| #[trigger] is_highest_registered(es, proto, name, p) ==> versioned_id(es, proto, name) == lookup_id(es, p, name),
{
    let wanted = named(name);
    assert forall|j: int| 0 <= j < es.len() implies lookup_id(es, #[trigger] es[j].0, es[j].2) == Some(es[j].1) by {
        lemma_key_index_unique(es, es[j].0, es[j].2, j);
    }
    if forall|p: u32| p <= proto ==> !#[trigger] registered_at(es, p, name) {
        assert forall|j: int| 0 <= j < es.len() && #[trigger] es[j].2 == name implies es[j].0 > proto by {
            assert(lookup_id(es, es[j].0, es[j].2) == Some(es[j].1));
            if es[j].0 <= proto {
                assert(registered_at(es, es[j].0, name));
            }
        }
        lemma_absent_below(es, proto, name);
    }
    assert forall|p: u32| #[trigger] is_highest_registered(es, proto, name, p) implies versioned_id(es, proto, name) == lookup_id(es, p, name) by {
        let k = key_index(es, p, name)->0;
        assert(0 <= k < es.len() && es[k].0 == p && es[k].2 == name);
        assert forall|j: int| 0 <= j < es.len() && #[trigger] es[j].2 == name implies !(p < es[j].0 <= proto) by {
            assert(lookup_id(es, es[j].0, es[j].2) == Some(es[j].1));
            if p < es[j].0 && es[j].0 <= proto {
                assert(registered_at(es, es[j].0, name));
            }
        }
        lemma_subversion_inherits(es, p, proto, name, k);
    }
}

/// The name a lookup by id picks at `proto`.
pub open spec fn versioned_name(es: Seq<EntryView>, proto: u32, id: u8) -> Option<Seq<char>> {
    match versioned_pick(es, proto, with_id(id)) {
        Some(k) => Some(es[k].2),
        None => None,
    }
}

/// Where some name is registered with `id` at exactly `proto`, the lookup by
/// id finds a name, and that name's exact lookup at `proto` gives `id` back.
pub proof fn lemma_name_from_id_maps_back(es: Seq<EntryView>, proto: u32, id: u8, name: Seq<char>)
    requires
        unique_keys(es),
        lookup_id(es, proto, name) == Some(id),
    ensures
        versioned_name(es, proto, id) is Some,
        lookup_id(es, proto, versioned_name(es, proto, id)->0) == Some(id),
{
    let wanted = with_id(id);
    let i = key_index(es, proto, name)->0;
    assert(wanted(es[i]) && es[i].0 == proto);
    lemma_first_exact_below(es, proto, wanted, i);
    let k = choose|k: int| is_first_exact(es, proto, wanted, k);
    assert(versioned_pick(es, proto, wanted) == Some(k));
    lemma_key_index_unique(es, proto, es[k].2, k);
}

/// Some index satisfying the exact test at or below `i` gives a first one.
proof fn lemma_first_exact_below(es: Seq<EntryView>, proto: u32, wanted: spec_fn(EntryView) -> bool, i: int)
    requires
        0 <= i < es.len(),
        wanted(es[i]) && es[i].0 == proto,
    ensures
        exists|k: int| is_first_exact(es, proto, wanted, k),
    decreases i,
{
    if exists|j: int| 0 <= j < i && wanted(#[trigger] es[j]) && es[j].0 == proto {
        let j = choose|j: int| 0 <= j < i && wanted(#[trigger] es[j]) && es[j].0 == proto;
        lemma_first_exact_below(es, proto, wanted, j);
    } else {
        assert(is_first_exact(es, proto, wanted, i));
    }
}

/// The entries kept under bucket number `b`, none where there is no bucket.
pub open spec fn bucket_view(m: Map<u8, Vec<(u32, PacketMeta)>>, b: int) -> Seq<EntryView> {
    if m.contains_key(b as u8) {
        m[b as u8]@.map_values(|e: (u32, PacketMeta)| entry_view(e))
    } else {
        Seq::empty()
    }
}

/// The entries of each (state, direction) pair, kept under its bucket
/// number (`bucket_of`); a pair with nothing registered has no bucket yet.
pub struct PacketRegistry {
    map: HashMap<u8, Vec<(u32, PacketMeta)>>,
}

pub open spec fn entry_view(e: (u32, PacketMeta)) -> EntryView {
    (e.0, e.1.id, e.1.name@)
}

impl PacketRegistry {
    /// The entries of each (state, direction) pair, by `bucket_of`.
    pub closed spec fn buckets(&self) -> Seq<Seq<EntryView>> {
        Seq::new(BUCKETS as nat, |b: int| bucket_view(self.map@, b))
    }

    pub open spec fn entries(&self, state: ProtocolState, dir: Direction) -> Seq<EntryView> {
        self.buckets()[bucket_of(state, dir)]
    }

    pub closed spec fn wf(&self) -> bool {
        forall|b: int| 0 <= b < BUCKETS ==> unique_keys(#[trigger] self.buckets()[b])
    }

    pub fn new() -> (r: Self)
        ensures
            r.wf(),
            r.buckets() == empty_buckets(),
            forall|s: ProtocolState, d: Direction| r.entries(s, d) == Seq::<EntryView>::empty(),
    {
        let map: HashMap<u8, Vec<(u32, PacketMeta)>> = HashMap::new();
        let r = Self { map };
        assert forall|b: int| 0 <= b < BUCKETS implies #[trigger] r.buckets()[b] == empty_buckets()[b] by {
            assert(r.buckets()[b] =~= Seq::<EntryView>::empty());
        }
        assert(r.buckets() =~= empty_buckets());
        proof {
            assert forall|s: ProtocolState, d: Direction|
                r.entries(s, d) == Seq::<EntryView>::empty() by {
                assert(r.entries(s, d) =~= Seq::<EntryView>::empty());
            }
        }
        r
    }

    /// Adds the packet id for `(proto, state, dir, name)`, replacing the id
    /// of an earlier registration of the same key.
    pub fn register(&mut self, proto: u32, state: ProtocolState, dir: Direction, name: &'static str, id: u8)
        requires
            old(self).wf(),
        ensures
            final(self).wf(),
            final(self).buckets() == old(self).buckets().update(
                bucket_of(state, dir),
                register_entry(old(self).entries(state, dir), proto, name@, id),
            ),
            lookup_id(final(self).entries(state, dir), proto, name@) == Some(id),
            forall|p: u32, s: ProtocolState, d: Direction, n: Seq<char>|
                !(p == proto && s == state && d == dir && n == name@) ==> #[trigger] lookup_id(
                    final(self).entries(s, d),
                    p,
                    n,
                ) == lookup_id(old(self).entries(s, d), p, n),
    {
        let b = bucket_index(state, dir);
        let key = b as u8;
        let ghost es = self.buckets()[b as int];
        let ghost old_buckets = self.buckets();
        let ghost old_map = self.map@;
        let mut bucket: Vec<(u32, PacketMeta)> = match self.map.remove(&key) {
            Some(v) => v,
            None => Vec::new(),
        };
        assert(bucket@.map_values(|e: (u32, PacketMeta)| entry_view(e)) =~= es);
        let n = bucket.len();
        let mut i: usize = 0;
        while i < n
            invariant
                n == bucket.len(),
                es == bucket@.map_values(|e: (u32, PacketMeta)| entry_view(e)),
                i <= n,
                forall|j: int| 0 <= j < i ==> !(#[trigger] es[j].0 == proto && es[j].2 == name@),
            ensures
                i <= n,
                forall|j: int| 0 <= j < i ==> !(#[trigger] es[j].0 == proto && es[j].2 == name@),
                i < n ==> es[i as int].0 == proto && es[i as int].2 == name@,
            decreases n - i,
        {
            assert(es[i as int] == entry_view(bucket@[i as int]));
            if bucket[i].0 == proto && str_eq(bucket[i].1.name, name) {
                break;
            }
            i += 1;
        }
        if i < n {
            assert(es[i as int].0 == proto && es[i as int].2 == name@);
            let ghost k = choose|k: int| 0 <= k < es.len() && es[k].0 == proto && es[k].2 == name@;
            assert(k == i as int);
            let stored = bucket[i].1.name;
            bucket.set(i, (proto, PacketMeta { id, name: stored }));
            assert(bucket@.map_values(|e: (u32, PacketMeta)| entry_view(e)) =~= es.update(i as int, (proto, id, name@)));
        } else {
            bucket.push((proto, PacketMeta { id, name }));
            assert(bucket@.map_values(|e: (u32, PacketMeta)| entry_view(e)) =~= es.push((proto, id, name@)));
        }
        self.map.insert(key, bucket);
        assert(self.map@ == old_map.insert(key, bucket));
        assert forall|c: int| 0 <= c < BUCKETS implies #[trigger] self.buckets()[c] == old_buckets.update(
            b as int,
            register_entry(es, proto, name@, id),
        )[c] by {
            if c != b as int {
                assert((c as u8) != key);
            }
        }
        assert(self.buckets() =~= old_buckets.update(b as int, register_entry(es, proto, name@, id)));
        assert forall|c: int| 0 <= c < BUCKETS implies unique_keys(#[trigger] self.buckets()[c]) by {
            if c != b as int {
                assert(self.buckets()[c] == old_buckets[c]);
            } else {
                lemma_register_unique(es, proto, name@, id);
            }
        }
        proof {
            lemma_register_then_get(es, proto, name@, id);
            assert forall|p: u32, s: ProtocolState, d: Direction, n: Seq<char>|
                !(p == proto && s == state && d == dir && n == name@) implies #[trigger] lookup_id(
                    self.entries(s, d),
                    p,
                    n,
                ) == lookup_id(old_buckets[bucket_of(s, d)], p, n) by {
                lemma_bucket_of_injective(s, d, state, dir);
                if bucket_of(s, d) == b as int {
                    lemma_register_keeps_others(es, proto, name@, id, p, n);
                }
            }
        }
    }

    /// The packet id registered for exactly `(proto, state, dir, name)`.
    pub fn get_id(&self, proto: u32, state: ProtocolState, dir: Direction, name: &'static str) -> (r: Option<u8>)
        requires
            self.wf(),
        ensures
            r == lookup_id(self.entries(state, dir), proto, name@),
    {
        let b = bucket_index(state, dir);
        let ghost es = self.buckets()[b as int];
        let bucket = match self.map.get(&(b as u8)) {
            Some(v) => v,
            None => {
                return None;
            },
        };
        assert(bucket@.map_values(|e: (u32, PacketMeta)| entry_view(e)) =~= es);
        assert(unique_keys(es));
        let n = bucket.len();
        let mut i: usize = 0;
        while i < n
            invariant
                n == bucket.len(),
                es == bucket@.map_values(|e: (u32, PacketMeta)| entry_view(e)),
                es == self.entries(state, dir),
                unique_keys(es),
                i <= n,
                forall|j: int| 0 <= j < i ==> !(#[trigger] es[j].0 == proto && es[j].2 == name@),
            decreases n - i,
        {
            assert(es[i as int] == entry_view(bucket@[i as int]));
            if bucket[i].0 == proto && str_eq(bucket[i].1.name, name) {
                proof {
                    assert(es[i as int].0 == proto && es[i as int].2 == name@);
                    let k = choose|k: int| 0 <= k < es.len() && es[k].0 == proto && es[k].2 == name@;
                    assert(k == i as int);
                }
                return Some(bucket[i].1.id);
            }
            i += 1;
        }
        None
    }

    /// The packet id for `name` at protocol `proto`: the one registered at
    /// exactly `proto`, else the one registered at the highest protocol below
    /// it. Registering an id once per protocol bump thus covers every
    /// subversion in between.
    pub fn get_id_for_version(&self, proto: u32, state: ProtocolState, dir: Direction, name: &'static str) -> (r: Option<u8>)
        requires
            self.wf(),
        ensures
            r == versioned_id(self.entries(state, dir), proto, name@),
    {
        let b = bucket_index(state, dir);
        let bucket = match self.map.get(&(b as u8)) {
            Some(v) => v,
            None => {
                return None;
            },
        };
        assert(bucket@.map_values(|e: (u32, PacketMeta)| entry_view(e)) =~= self.entries(state, dir));
        let key = Key::Name(name);
        match pick(bucket, proto, &key) {
            Some(k) => {
                assert(self.entries(state, dir)[k as int] == entry_view(bucket@[k as int]));
                Some(bucket[k].1.id)
            },
            None => None,
        }
    }

    /// The packet name for id `id` at protocol `proto`, chosen as in
    /// `get_id_for_version`.
    pub fn get_name_from_id(&self, proto: u32, state: ProtocolState, dir: Direction, id: u8) -> (r: Option<&'static str>)
        requires
            self.wf(),
        ensures
            match versioned_pick(self.entries(state, dir), proto, with_id(id)) {
                Some(k) => r is Some && r->0@ == self.entries(state, dir)[k].2,
                None => r is None,
            },
    {
        let b = bucket_index(state, dir);
        let bucket = match self.map.get(&(b as u8)) {
            Some(v) => v,
            None => {
                return None;
            },
        };
        assert(bucket@.map_values(|e: (u32, PacketMeta)| entry_view(e)) =~= self.entries(state, dir));
        let key = Key::Id(id);
        match pick(bucket, proto, &key) {
            Some(k) => {
                assert(self.entries(state, dir)[k as int] == entry_view(bucket@[k as int]));
                Some(bucket[k].1.name)
            },
            None => None,
        }
    }
}

impl PacketRegistry {
    /// `get_id_for_version` is `get_id` at the highest protocol id, at most
    /// `proto`, where `name` was registered in that state and direction,
    /// and finds nothing where there is no such protocol id.
    pub proof fn lemma_version_lookup_is_highest_exact(&self, proto: u32, state: ProtocolState, dir: Direction, name: Seq<char>)
        requires
            self.wf(),
        ensures
            (forall|p: u32| p <= proto ==> !#[trigger] registered_at(self.entries(state, dir), p, name))
                ==> versioned_id(self.entries(state, dir), proto, name) is None,
            forall|p: u32| #[trigger] is_highest_registered(self.entries(state, dir), proto, name, p)
                ==> versioned_id(self.entries(state, dir), proto, name) == lookup_id(self.entries(state, dir), p, name),
    {
        lemma_bucket_of_injective(state, dir, state, dir);
        lemma_versioned_is_highest_exact(self.entries(state, dir), proto, name);
    }

    /// Where `name` is registered with `id` at exactly `proto`,
    /// `get_name_from_id` finds a name whose `get_id` at `proto` is `id`.
    pub proof fn lemma_name_from_id_maps_back(&self, proto: u32, state: ProtocolState, dir: Direction, id: u8, name: Seq<char>)
        requires
            self.wf(),
            lookup_id(self.entries(state, dir), proto, name) == Some(id),
        ensures
            versioned_name(self.entries(state, dir), proto, id) is Some,
            lookup_id(self.entries(state, dir), proto, versioned_name(self.entries(state, dir), proto, id)->0) == Some(id),
    {
        lemma_bucket_of_injective(state, dir, state, dir);
        lemma_name_from_id_maps_back(self.entries(state, dir), proto, id, name);
    }
}


// ── The built-in table ──────────────────────────────────────────────────

/// One row of the built-in table: (protocol id, state, direction, name,
/// packet id). A row is registered at the protocol where its id first
/// appeared; the protocols after it inherit it through the fallback of
/// `get_id_for_version`.
pub type Entry = (u32, ProtocolState, Direction, &'static str, u8);

pub type EntrySpec = (u32, ProtocolState, Direction, Seq<char>, u8);

pub open spec fn entry_spec(e: Entry) -> EntrySpec {
    (e.0, e.1, e.2, e.3@, e.4)
}

/// The buckets after registering one row.
pub open spec fn register_row(bs: Seq<Seq<EntryView>>, row: EntrySpec) -> Seq<Seq<EntryView>> {
    let b = bucket_of(row.1, row.2);
    bs.update(b, register_entry(bs[b], row.0, row.3, row.4))
}

/// The buckets after registering `rows` in order.
pub open spec fn register_all(bs: Seq<Seq<EntryView>>, rows: Seq<EntrySpec>) -> Seq<Seq<EntryView>>
    decreases rows.len(),
{
    if rows.len() == 0 {
        bs
    } else {
        register_row(register_all(bs, rows.drop_last()), rows.last())
    }
}

pub proof fn lemma_register_all_append(bs: Seq<Seq<EntryView>>, a: Seq<EntrySpec>, b: Seq<EntrySpec>)
    ensures
        register_all(bs, a + b) == register_all(register_all(bs, a), b),
    decreases b.len(),
{
    if b.len() == 0 {
        assert(a + b =~= a);
    } else {
        assert((a + b).drop_last() =~= a + b.drop_last());
        lemma_register_all_append(bs, a, b.drop_last());
    }
}

/// The buckets of an empty registry.
pub open spec fn empty_buckets() -> Seq<Seq<EntryView>> {
    Seq::new(BUCKETS as nat, |_i: int| Seq::<EntryView>::empty())
}

/// 1.6.x, before the netty rewrite: single-byte ids without length framing.
pub open spec fn pre_netty_rows() -> Seq<EntrySpec> {
    seq![
        (78, ProtocolState::Login, Direction::Serverbound, "HandshakeC2S"@, 0x02u8),
        (78, ProtocolState::Login, Direction::Clientbound, "EncryptionKeyRequestS2C"@, 0xFDu8),
        (78, ProtocolState::Login, Direction::Serverbound, "EncryptionKeyResponseC2S"@, 0xFCu8),
        (78, ProtocolState::Login, Direction::Clientbound, "LoginRequestS2C"@, 0x01u8),
    ]
}

fn pre_netty_table() -> (r: Vec<Entry>)
    ensures
        r@.map_values(|e: Entry| entry_spec(e)) == pre_netty_rows(),
{
    let v: Vec<Entry> = vec![
        (78, ProtocolState::Login, Direction::Serverbound, "HandshakeC2S", 0x02),
        (78, ProtocolState::Login, Direction::Clientbound, "EncryptionKeyRequestS2C", 0xFD),
        (78, ProtocolState::Login, Direction::Serverbound, "EncryptionKeyResponseC2S", 0xFC),
        (78, ProtocolState::Login, Direction::Clientbound, "LoginRequestS2C", 0x01),
    ];
    assert(v@.map_values(|e: Entry| entry_spec(e)) =~= pre_netty_rows());
    v
}

/// The handshake state: one packet, the same for every netty version.
pub open spec fn handshake_rows() -> Seq<EntrySpec> {
    seq![
        (4, ProtocolState::Handshake, Direction::Serverbound, "ServerboundHandshake"@, 0x00u8),
    ]
}

fn handshake_table() -> (r: Vec<Entry>)
    ensures
        r@.map_values(|e: Entry| entry_spec(e)) == handshake_rows(),
{
    let v: Vec<Entry> = vec![
        (4, ProtocolState::Handshake, Direction::Serverbound, "ServerboundHandshake", 0x00),
    ];
    assert(v@.map_values(|e: Entry| entry_spec(e)) =~= handshake_rows());
    v
}

/// The status state, unchanged since 1.7.
pub open spec fn status_rows() -> Seq<EntrySpec> {
    seq![
        (4, ProtocolState::Status, Direction::Serverbound, "ServerboundStatusRequest"@, 0x00u8),
        (4, ProtocolState::Status, Direction::Serverbound, "ServerboundPingRequest"@, 0x01u8),
        (4, ProtocolState::Status, Direction::Clientbound, "ClientboundStatusResponse"@, 0x00u8),
        (4, ProtocolState::Status, Direction::Clientbound, "ClientboundPongResponse"@, 0x01u8),
    ]
}

fn status_table() -> (r: Vec<Entry>)
    ensures
        r@.map_values(|e: Entry| entry_spec(e)) == status_rows(),
{
    let v: Vec<Entry> = vec![
        (4, ProtocolState::Status, Direction::Serverbound, "ServerboundStatusRequest", 0x00),
        (4, ProtocolState::Status, Direction::Serverbound, "ServerboundPingRequest", 0x01),
        (4, ProtocolState::Status, Direction::Clientbound, "ClientboundStatusResponse", 0x00),
        (4, ProtocolState::Status, Direction::Clientbound, "ClientboundPongResponse", 0x01),
    ];
    assert(v@.map_values(|e: Entry| entry_spec(e)) =~= status_rows());
    v
}

/// The login state: 1.8 adds SetCompression, 1.13 the plugin messages, 1.20.2 LoginAcknowledged.
pub open spec fn login_rows() -> Seq<EntrySpec> {
    seq![
        (4, ProtocolState::Login, Direction::Serverbound, "ServerboundLoginStart"@, 0x00u8),
        (4, ProtocolState::Login, Direction::Serverbound, "ServerboundEncryptionResponse"@, 0x01u8),
        (4, ProtocolState::Login, Direction::Clientbound, "ClientboundLoginDisconnect"@, 0x00u8),
        (4, ProtocolState::Login, Direction::Clientbound, "ClientboundEncryptionRequest"@, 0x01u8),
        (4, ProtocolState::Login, Direction::Clientbound, "ClientboundLoginSuccess"@, 0x02u8),
        (47, ProtocolState::Login, Direction::Clientbound, "ClientboundSetCompression"@, 0x03u8),
        (393, ProtocolState::Login, Direction::Clientbound, "ClientboundLoginPluginRequest"@, 0x04u8),
        (393, ProtocolState::Login, Direction::Serverbound, "ServerboundLoginPluginResponse"@, 0x02u8),
        (764, ProtocolState::Login, Direction::Serverbound, "ServerboundLoginAcknowledged"@, 0x03u8),
    ]
}

fn login_table() -> (r: Vec<Entry>)
    ensures
        r@.map_values(|e: Entry| entry_spec(e)) == login_rows(),
{
    let v: Vec<Entry> = vec![
        (4, ProtocolState::Login, Direction::Serverbound, "ServerboundLoginStart", 0x00),
        (4, ProtocolState::Login, Direction::Serverbound, "ServerboundEncryptionResponse", 0x01),
        (4, ProtocolState::Login, Direction::Clientbound, "ClientboundLoginDisconnect", 0x00),
        (4, ProtocolState::Login, Direction::Clientbound, "ClientboundEncryptionRequest", 0x01),
        (4, ProtocolState::Login, Direction::Clientbound, "ClientboundLoginSuccess", 0x02),
        (47, ProtocolState::Login, Direction::Clientbound, "ClientboundSetCompression", 0x03),
        (393, ProtocolState::Login, Direction::Clientbound, "ClientboundLoginPluginRequest", 0x04),
        (393, ProtocolState::Login, Direction::Serverbound, "ServerboundLoginPluginResponse", 0x02),
        (764, ProtocolState::Login, Direction::Serverbound, "ServerboundLoginAcknowledged", 0x03),
    ];
    assert(v@.map_values(|e: Entry| entry_spec(e)) =~= login_rows());
    v
}

/// The configuration state, from 1.20.2; 1.20.5 shifts the ids by one.
pub open spec fn configuration_rows() -> Seq<EntrySpec> {
    seq![
        (764, ProtocolState::Configuration, Direction::Clientbound, "ClientboundPluginMessage"@, 0x00u8),
        (764, ProtocolState::Configuration, Direction::Clientbound, "ClientboundDisconnect"@, 0x01u8),
        (764, ProtocolState::Configuration, Direction::Clientbound, "FinishConfiguration"@, 0x02u8),
        (764, ProtocolState::Configuration, Direction::Clientbound, "ClientboundKeepAlive"@, 0x03u8),
        (764, ProtocolState::Configuration, Direction::Clientbound, "ClientboundRegistryData"@, 0x05u8),
        (764, ProtocolState::Configuration, Direction::Serverbound, "AcknowledgeFinishConfiguration"@, 0x02u8),
        (766, ProtocolState::Configuration, Direction::Clientbound, "ClientboundPluginMessage"@, 0x01u8),
        (766, ProtocolState::Configuration, Direction::Clientbound, "ClientboundDisconnect"@, 0x02u8),
        (766, ProtocolState::Configuration, Direction::Clientbound, "FinishConfiguration"@, 0x03u8),
        (766, ProtocolState::Configuration, Direction::Clientbound, "ClientboundKeepAlive"@, 0x04u8),
        (766, ProtocolState::Configuration, Direction::Clientbound, "ClientboundRegistryData"@, 0x07u8),
    ]
}

fn configuration_table() -> (r: Vec<Entry>)
    ensures
        r@.map_values(|e: Entry| entry_spec(e)) == configuration_rows(),
{
    let v: Vec<Entry> = vec![
        (764, ProtocolState::Configuration, Direction::Clientbound, "ClientboundPluginMessage", 0x00),
        (764, ProtocolState::Configuration, Direction::Clientbound, "ClientboundDisconnect", 0x01),
        (764, ProtocolState::Configuration, Direction::Clientbound, "FinishConfiguration", 0x02),
        (764, ProtocolState::Configuration, Direction::Clientbound, "ClientboundKeepAlive", 0x03),
        (764, ProtocolState::Configuration, Direction::Clientbound, "ClientboundRegistryData", 0x05),
        (764, ProtocolState::Configuration, Direction::Serverbound, "AcknowledgeFinishConfiguration", 0x02),
        (766, ProtocolState::Configuration, Direction::Clientbound, "ClientboundPluginMessage", 0x01),
        (766, ProtocolState::Configuration, Direction::Clientbound, "ClientboundDisconnect", 0x02),
        (766, ProtocolState::Configuration, Direction::Clientbound, "FinishConfiguration", 0x03),
        (766, ProtocolState::Configuration, Direction::Clientbound, "ClientboundKeepAlive", 0x04),
        (766, ProtocolState::Configuration, Direction::Clientbound, "ClientboundRegistryData", 0x07),
    ];
    assert(v@.map_values(|e: Entry| entry_spec(e)) =~= configuration_rows());
    v
}

/// The play state, 1.7.10 and 1.8.
pub open spec fn play_a_rows() -> Seq<EntrySpec> {
    seq![
        (5, ProtocolState::Play, Direction::Clientbound, "ClientboundKeepAlive"@, 0x00u8),
        (5, ProtocolState::Play, Direction::Clientbound, "ClientboundJoinGame"@, 0x01u8),
        (5, ProtocolState::Play, Direction::Clientbound, "ClientboundChatMessage"@, 0x02u8),
        (5, ProtocolState::Play, Direction::Clientbound, "ClientboundRespawn"@, 0x07u8),
        (5, ProtocolState::Play, Direction::Clientbound, "ClientboundPlayerPosition"@, 0x08u8),
        (5, ProtocolState::Play, Direction::Clientbound, "ClientboundSetHeldItem"@, 0x09u8),
        (5, ProtocolState::Play, Direction::Clientbound, "ClientboundSetCarriedItem"@, 0x09u8),
        (5, ProtocolState::Play, Direction::Clientbound, "ClientboundNamedSoundEffect"@, 0x29u8),
        (5, ProtocolState::Play, Direction::Clientbound, "ClientboundSound"@, 0x29u8),
        (5, ProtocolState::Play, Direction::Clientbound, "ClientboundPlayerAbilities"@, 0x39u8),
        (5, ProtocolState::Play, Direction::Clientbound, "ClientboundPluginMessage"@, 0x3Fu8),
        (5, ProtocolState::Play, Direction::Clientbound, "ClientboundCustomPayload"@, 0x3Fu8),
        (5, ProtocolState::Play, Direction::Clientbound, "ClientboundDisconnect"@, 0x40u8),
        (5, ProtocolState::Play, Direction::Serverbound, "ServerboundKeepAlive"@, 0x00u8),
        (5, ProtocolState::Play, Direction::Serverbound, "ServerboundChatMessage"@, 0x01u8),
        (5, ProtocolState::Play, Direction::Serverbound, "ServerboundPluginMessage"@, 0x17u8),
        (5, ProtocolState::Play, Direction::Serverbound, "ServerboundCustomPayload"@, 0x17u8),
        (47, ProtocolState::Play, Direction::Clientbound, "ClientboundKeepAlive"@, 0x00u8),
        (47, ProtocolState::Play, Direction::Clientbound, "ClientboundJoinGame"@, 0x01u8),
        (47, ProtocolState::Play, Direction::Clientbound, "ClientboundLoginPlay"@, 0x01u8),
        (47, ProtocolState::Play, Direction::Clientbound, "ClientboundChatMessage"@, 0x02u8),
        (47, ProtocolState::Play, Direction::Clientbound, "ClientboundRespawn"@, 0x07u8),
        (47, ProtocolState::Play, Direction::Clientbound, "ClientboundPlayerPosition"@, 0x08u8),
        (47, ProtocolState::Play, Direction::Clientbound, "ClientboundSetHeldItem"@, 0x09u8),
        (47, ProtocolState::Play, Direction::Clientbound, "ClientboundSetCarriedItem"@, 0x09u8),
        (47, ProtocolState::Play, Direction::Clientbound, "ClientboundNamedSoundEffect"@, 0x29u8),
        (47, ProtocolState::Play, Direction::Clientbound, "ClientboundSound"@, 0x29u8),
        (47, ProtocolState::Play, Direction::Clientbound, "ClientboundPlayerAbilities"@, 0x39u8),
        (47, ProtocolState::Play, Direction::Clientbound, "ClientboundPluginMessage"@, 0x3Fu8),
        (47, ProtocolState::Play, Direction::Clientbound, "ClientboundCustomPayload"@, 0x3Fu8),
        (47, ProtocolState::Play, Direction::Clientbound, "ClientboundDisconnect"@, 0x40u8),
    ]
}

fn play_a_table() -> (r: Vec<Entry>)
    ensures
        r@.map_values(|e: Entry| entry_spec(e)) == play_a_rows(),
{
    let v: Vec<Entry> = vec![
        (5, ProtocolState::Play, Direction::Clientbound, "ClientboundKeepAlive", 0x00),
        (5, ProtocolState::Play, Direction::Clientbound, "ClientboundJoinGame", 0x01),
        (5, ProtocolState::Play, Direction::Clientbound, "ClientboundChatMessage", 0x02),
        (5, ProtocolState::Play, Direction::Clientbound, "ClientboundRespawn", 0x07),
        (5, ProtocolState::Play, Direction::Clientbound, "ClientboundPlayerPosition", 0x08),
        (5, ProtocolState::Play, Direction::Clientbound, "ClientboundSetHeldItem", 0x09),
        (5, ProtocolState::Play, Direction::Clientbound, "ClientboundSetCarriedItem", 0x09),
        (5, ProtocolState::Play, Direction::Clientbound, "ClientboundNamedSoundEffect", 0x29),
        (5, ProtocolState::Play, Direction::Clientbound, "ClientboundSound", 0x29),
        (5, ProtocolState::Play, Direction::Clientbound, "ClientboundPlayerAbilities", 0x39),
        (5, ProtocolState::Play, Direction::Clientbound, "ClientboundPluginMessage", 0x3F),
        (5, ProtocolState::Play, Direction::Clientbound, "ClientboundCustomPayload", 0x3F),
        (5, ProtocolState::Play, Direction::Clientbound, "ClientboundDisconnect", 0x40),
        (5, ProtocolState::Play, Direction::Serverbound, "ServerboundKeepAlive", 0x00),
        (5, ProtocolState::Play, Direction::Serverbound, "ServerboundChatMessage", 0x01),
        (5, ProtocolState::Play, Direction::Serverbound, "ServerboundPluginMessage", 0x17),
        (5, ProtocolState::Play, Direction::Serverbound, "ServerboundCustomPayload", 0x17),
        (47, ProtocolState::Play, Direction::Clientbound, "ClientboundKeepAlive", 0x00),
        (47, ProtocolState::Play, Direction::Clientbound, "ClientboundJoinGame", 0x01),
        (47, ProtocolState::Play, Direction::Clientbound, "ClientboundLoginPlay", 0x01),
        (47, ProtocolState::Play, Direction::Clientbound, "ClientboundChatMessage", 0x02),
        (47, ProtocolState::Play, Direction::Clientbound, "ClientboundRespawn", 0x07),
        (47, ProtocolState::Play, Direction::Clientbound, "ClientboundPlayerPosition", 0x08),
        (47, ProtocolState::Play, Direction::Clientbound, "ClientboundSetHeldItem", 0x09),
        (47, ProtocolState::Play, Direction::Clientbound, "ClientboundSetCarriedItem", 0x09),
        (47, ProtocolState::Play, Direction::Clientbound, "ClientboundNamedSoundEffect", 0x29),
        (47, ProtocolState::Play, Direction::Clientbound, "ClientboundSound", 0x29),
        (47, ProtocolState::Play, Direction::Clientbound, "ClientboundPlayerAbilities", 0x39),
        (47, ProtocolState::Play, Direction::Clientbound, "ClientboundPluginMessage", 0x3F),
        (47, ProtocolState::Play, Direction::Clientbound, "ClientboundCustomPayload", 0x3F),
        (47, ProtocolState::Play, Direction::Clientbound, "ClientboundDisconnect", 0x40),
    ];
    assert(v@.map_values(|e: Entry| entry_spec(e)) =~= play_a_rows());
    v
}

/// The play state, 1.9 to 1.13.
pub open spec fn play_b_rows() -> Seq<EntrySpec> {
    seq![
        (107, ProtocolState::Play, Direction::Clientbound, "ClientboundKeepAlive"@, 0x1Fu8),
        (107, ProtocolState::Play, Direction::Clientbound, "ClientboundJoinGame"@, 0x23u8),
        (107, ProtocolState::Play, Direction::Clientbound, "ClientboundChatMessage"@, 0x0Fu8),
        (107, ProtocolState::Play, Direction::Clientbound, "ClientboundRespawn"@, 0x33u8),
        (107, ProtocolState::Play, Direction::Clientbound, "ClientboundPlayerPosition"@, 0x2Eu8),
        (107, ProtocolState::Play, Direction::Clientbound, "ClientboundSetHeldItem"@, 0x37u8),
        (107, ProtocolState::Play, Direction::Clientbound, "ClientboundSetCarriedItem"@, 0x37u8),
        (107, ProtocolState::Play, Direction::Clientbound, "ClientboundNamedSoundEffect"@, 0x19u8),
        (107, ProtocolState::Play, Direction::Clientbound, "ClientboundSound"@, 0x19u8),
        (107, ProtocolState::Play, Direction::Clientbound, "ClientboundPlayerAbilities"@, 0x2Bu8),
        (107, ProtocolState::Play, Direction::Clientbound, "ClientboundPluginMessage"@, 0x18u8),
        (107, ProtocolState::Play, Direction::Clientbound, "ClientboundCustomPayload"@, 0x18u8),
        (107, ProtocolState::Play, Direction::Clientbound, "ClientboundDisconnect"@, 0x1Au8),
        (107, ProtocolState::Play, Direction::Clientbound, "ClientboundBossBar"@, 0x0Cu8),
        (107, ProtocolState::Play, Direction::Serverbound, "ServerboundKeepAlive"@, 0x0Bu8),
        (107, ProtocolState::Play, Direction::Serverbound, "ServerboundChatMessage"@, 0x02u8),
        (107, ProtocolState::Play, Direction::Serverbound, "ServerboundPluginMessage"@, 0x09u8),
        (107, ProtocolState::Play, Direction::Serverbound, "ServerboundCustomPayload"@, 0x09u8),
        (335, ProtocolState::Play, Direction::Clientbound, "ClientboundRespawn"@, 0x35u8),
        (335, ProtocolState::Play, Direction::Clientbound, "ClientboundPlayerPosition"@, 0x2Fu8),
        (335, ProtocolState::Play, Direction::Clientbound, "ClientboundSetHeldItem"@, 0x3Au8),
        (335, ProtocolState::Play, Direction::Clientbound, "ClientboundSetCarriedItem"@, 0x3Au8),
        (335, ProtocolState::Play, Direction::Clientbound, "ClientboundPlayerAbilities"@, 0x2Cu8),
        (393, ProtocolState::Play, Direction::Clientbound, "ClientboundKeepAlive"@, 0x21u8),
        (393, ProtocolState::Play, Direction::Clientbound, "ClientboundJoinGame"@, 0x25u8),
        (393, ProtocolState::Play, Direction::Clientbound, "ClientboundChatMessage"@, 0x0Eu8),
        (393, ProtocolState::Play, Direction::Clientbound, "ClientboundRespawn"@, 0x38u8),
        (393, ProtocolState::Play, Direction::Clientbound, "ClientboundPlayerPosition"@, 0x32u8),
        (393, ProtocolState::Play, Direction::Clientbound, "ClientboundSetHeldItem"@, 0x3Du8),
        (393, ProtocolState::Play, Direction::Clientbound, "ClientboundSetCarriedItem"@, 0x3Du8),
        (393, ProtocolState::Play, Direction::Clientbound, "ClientboundNamedSoundEffect"@, 0x1Au8),
        (393, ProtocolState::Play, Direction::Clientbound, "ClientboundSound"@, 0x1Au8),
        (393, ProtocolState::Play, Direction::Clientbound, "ClientboundPlayerAbilities"@, 0x2Eu8),
        (393, ProtocolState::Play, Direction::Clientbound, "ClientboundPluginMessage"@, 0x19u8),
        (393, ProtocolState::Play, Direction::Clientbound, "ClientboundCustomPayload"@, 0x19u8),
        (393, ProtocolState::Play, Direction::Clientbound, "ClientboundDisconnect"@, 0x1Bu8),
        (393, ProtocolState::Play, Direction::Clientbound, "ClientboundBossBar"@, 0x0Cu8),
        (393, ProtocolState::Play, Direction::Serverbound, "ServerboundKeepAlive"@, 0x0Eu8),
        (393, ProtocolState::Play, Direction::Serverbound, "ServerboundChatMessage"@, 0x02u8),
        (393, ProtocolState::Play, Direction::Serverbound, "ServerboundPluginMessage"@, 0x0Au8),
        (393, ProtocolState::Play, Direction::Serverbound, "ServerboundCustomPayload"@, 0x0Au8),
    ]
}

fn play_b_table() -> (r: Vec<Entry>)
    ensures
        r@.map_values(|e: Entry| entry_spec(e)) == play_b_rows(),
{
    let v: Vec<Entry> = vec![
        (107, ProtocolState::Play, Direction::Clientbound, "ClientboundKeepAlive", 0x1F),
        (107, ProtocolState::Play, Direction::Clientbound, "ClientboundJoinGame", 0x23),
        (107, ProtocolState::Play, Direction::Clientbound, "ClientboundChatMessage", 0x0F),
        (107, ProtocolState::Play, Direction::Clientbound, "ClientboundRespawn", 0x33),
        (107, ProtocolState::Play, Direction::Clientbound, "ClientboundPlayerPosition", 0x2E),
        (107, ProtocolState::Play, Direction::Clientbound, "ClientboundSetHeldItem", 0x37),
        (107, ProtocolState::Play, Direction::Clientbound, "ClientboundSetCarriedItem", 0x37),
        (107, ProtocolState::Play, Direction::Clientbound, "ClientboundNamedSoundEffect", 0x19),
        (107, ProtocolState::Play, Direction::Clientbound, "ClientboundSound", 0x19),
        (107, ProtocolState::Play, Direction::Clientbound, "ClientboundPlayerAbilities", 0x2B),
        (107, ProtocolState::Play, Direction::Clientbound, "ClientboundPluginMessage", 0x18),
        (107, ProtocolState::Play, Direction::Clientbound, "ClientboundCustomPayload", 0x18),
        (107, ProtocolState::Play, Direction::Clientbound, "ClientboundDisconnect", 0x1A),
        (107, ProtocolState::Play, Direction::Clientbound, "ClientboundBossBar", 0x0C),
        (107, ProtocolState::Play, Direction::Serverbound, "ServerboundKeepAlive", 0x0B),
        (107, ProtocolState::Play, Direction::Serverbound, "ServerboundChatMessage", 0x02),
        (107, ProtocolState::Play, Direction::Serverbound, "ServerboundPluginMessage", 0x09),
        (107, ProtocolState::Play, Direction::Serverbound, "ServerboundCustomPayload", 0x09),
        (335, ProtocolState::Play, Direction::Clientbound, "ClientboundRespawn", 0x35),
        (335, ProtocolState::Play, Direction::Clientbound, "ClientboundPlayerPosition", 0x2F),
        (335, ProtocolState::Play, Direction::Clientbound, "ClientboundSetHeldItem", 0x3A),
        (335, ProtocolState::Play, Direction::Clientbound, "ClientboundSetCarriedItem", 0x3A),
        (335, ProtocolState::Play, Direction::Clientbound, "ClientboundPlayerAbilities", 0x2C),
        (393, ProtocolState::Play, Direction::Clientbound, "ClientboundKeepAlive", 0x21),
        (393, ProtocolState::Play, Direction::Clientbound, "ClientboundJoinGame", 0x25),
        (393, ProtocolState::Play, Direction::Clientbound, "ClientboundChatMessage", 0x0E),
        (393, ProtocolState::Play, Direction::Clientbound, "ClientboundRespawn", 0x38),
        (393, ProtocolState::Play, Direction::Clientbound, "ClientboundPlayerPosition", 0x32),
        (393, ProtocolState::Play, Direction::Clientbound, "ClientboundSetHeldItem", 0x3D),
        (393, ProtocolState::Play, Direction::Clientbound, "ClientboundSetCarriedItem", 0x3D),
        (393, ProtocolState::Play, Direction::Clientbound, "ClientboundNamedSoundEffect", 0x1A),
        (393, ProtocolState::Play, Direction::Clientbound, "ClientboundSound", 0x1A),
        (393, ProtocolState::Play, Direction::Clientbound, "ClientboundPlayerAbilities", 0x2E),
        (393, ProtocolState::Play, Direction::Clientbound, "ClientboundPluginMessage", 0x19),
        (393, ProtocolState::Play, Direction::Clientbound, "ClientboundCustomPayload", 0x19),
        (393, ProtocolState::Play, Direction::Clientbound, "ClientboundDisconnect", 0x1B),
        (393, ProtocolState::Play, Direction::Clientbound, "ClientboundBossBar", 0x0C),
        (393, ProtocolState::Play, Direction::Serverbound, "ServerboundKeepAlive", 0x0E),
        (393, ProtocolState::Play, Direction::Serverbound, "ServerboundChatMessage", 0x02),
        (393, ProtocolState::Play, Direction::Serverbound, "ServerboundPluginMessage", 0x0A),
        (393, ProtocolState::Play, Direction::Serverbound, "ServerboundCustomPayload", 0x0A),
    ];
    assert(v@.map_values(|e: Entry| entry_spec(e)) =~= play_b_rows());
    v
}

/// The play state, 1.14 to 1.17.
pub open spec fn play_c_rows() -> Seq<EntrySpec> {
    seq![
        (477, ProtocolState::Play, Direction::Clientbound, "ClientboundKeepAlive"@, 0x20u8),
        (477, ProtocolState::Play, Direction::Clientbound, "ClientboundChatMessage"@, 0x0Eu8),
        (477, ProtocolState::Play, Direction::Clientbound, "ClientboundRespawn"@, 0x3Au8),
        (477, ProtocolState::Play, Direction::Clientbound, "ClientboundPlayerPosition"@, 0x35u8),
        (477, ProtocolState::Play, Direction::Clientbound, "ClientboundSetHeldItem"@, 0x3Fu8),
        (477, ProtocolState::Play, Direction::Clientbound, "ClientboundSetCarriedItem"@, 0x3Fu8),
        (477, ProtocolState::Play, Direction::Clientbound, "ClientboundNamedSoundEffect"@, 0x52u8),
        (477, ProtocolState::Play, Direction::Clientbound, "ClientboundSound"@, 0x52u8),
        (477, ProtocolState::Play, Direction::Clientbound, "ClientboundPlayerAbilities"@, 0x32u8),
        (477, ProtocolState::Play, Direction::Clientbound, "ClientboundPluginMessage"@, 0x18u8),
        (477, ProtocolState::Play, Direction::Clientbound, "ClientboundCustomPayload"@, 0x18u8),
        (477, ProtocolState::Play, Direction::Clientbound, "ClientboundDisconnect"@, 0x1Au8),
        (477, ProtocolState::Play, Direction::Clientbound, "ClientboundBossBar"@, 0x0Du8),
        (477, ProtocolState::Play, Direction::Clientbound, "ClientboundLevelChunkWithLight"@, 0x21u8),
        (477, ProtocolState::Play, Direction::Serverbound, "ServerboundChatMessage"@, 0x03u8),
        (477, ProtocolState::Play, Direction::Serverbound, "ServerboundPluginMessage"@, 0x0Bu8),
        (477, ProtocolState::Play, Direction::Serverbound, "ServerboundCustomPayload"@, 0x0Bu8),
        (573, ProtocolState::Play, Direction::Clientbound, "ClientboundKeepAlive"@, 0x21u8),
        (573, ProtocolState::Play, Direction::Clientbound, "ClientboundJoinGame"@, 0x26u8),
        (573, ProtocolState::Play, Direction::Clientbound, "ClientboundChatMessage"@, 0x0Fu8),
        (573, ProtocolState::Play, Direction::Clientbound, "ClientboundRespawn"@, 0x3Bu8),
        (573, ProtocolState::Play, Direction::Clientbound, "ClientboundPlayerPosition"@, 0x36u8),
        (573, ProtocolState::Play, Direction::Clientbound, "ClientboundSetHeldItem"@, 0x40u8),
        (573, ProtocolState::Play, Direction::Clientbound, "ClientboundSetCarriedItem"@, 0x40u8),
        (573, ProtocolState::Play, Direction::Clientbound, "ClientboundPlayerAbilities"@, 0x32u8),
        (573, ProtocolState::Play, Direction::Clientbound, "ClientboundPluginMessage"@, 0x19u8),
        (573, ProtocolState::Play, Direction::Clientbound, "ClientboundCustomPayload"@, 0x19u8),
        (573, ProtocolState::Play, Direction::Clientbound, "ClientboundDisconnect"@, 0x1Bu8),
        (735, ProtocolState::Play, Direction::Clientbound, "ClientboundKeepAlive"@, 0x1Fu8),
        (735, ProtocolState::Play, Direction::Clientbound, "ClientboundJoinGame"@, 0x24u8),
        (735, ProtocolState::Play, Direction::Clientbound, "ClientboundChatMessage"@, 0x0Eu8),
        (735, ProtocolState::Play, Direction::Clientbound, "ClientboundRespawn"@, 0x39u8),
        (735, ProtocolState::Play, Direction::Clientbound, "ClientboundPlayerPosition"@, 0x34u8),
        (735, ProtocolState::Play, Direction::Clientbound, "ClientboundSetHeldItem"@, 0x3Fu8),
        (735, ProtocolState::Play, Direction::Clientbound, "ClientboundSetCarriedItem"@, 0x3Fu8),
        (735, ProtocolState::Play, Direction::Clientbound, "ClientboundNamedSoundEffect"@, 0x50u8),
        (735, ProtocolState::Play, Direction::Clientbound, "ClientboundSound"@, 0x50u8),
        (735, ProtocolState::Play, Direction::Clientbound, "ClientboundPlayerAbilities"@, 0x30u8),
        (735, ProtocolState::Play, Direction::Clientbound, "ClientboundPluginMessage"@, 0x17u8),
        (735, ProtocolState::Play, Direction::Clientbound, "ClientboundCustomPayload"@, 0x17u8),
        (735, ProtocolState::Play, Direction::Clientbound, "ClientboundDisconnect"@, 0x19u8),
        (735, ProtocolState::Play, Direction::Clientbound, "ClientboundBossBar"@, 0x0Du8),
        (735, ProtocolState::Play, Direction::Clientbound, "ClientboundLevelChunkWithLight"@, 0x20u8),
        (735, ProtocolState::Play, Direction::Serverbound, "ServerboundChatMessage"@, 0x03u8),
        (735, ProtocolState::Play, Direction::Serverbound, "ServerboundPluginMessage"@, 0x0Bu8),
        (735, ProtocolState::Play, Direction::Serverbound, "ServerboundCustomPayload"@, 0x0Bu8),
        (755, ProtocolState::Play, Direction::Clientbound, "ClientboundKeepAlive"@, 0x21u8),
        (755, ProtocolState::Play, Direction::Clientbound, "ClientboundJoinGame"@, 0x26u8),
        (755, ProtocolState::Play, Direction::Clientbound, "ClientboundChatMessage"@, 0x0Fu8),
        (755, ProtocolState::Play, Direction::Clientbound, "ClientboundRespawn"@, 0x3Du8),
        (755, ProtocolState::Play, Direction::Clientbound, "ClientboundPlayerPosition"@, 0x38u8),
        (755, ProtocolState::Play, Direction::Clientbound, "ClientboundSetHeldItem"@, 0x48u8),
        (755, ProtocolState::Play, Direction::Clientbound, "ClientboundSetCarriedItem"@, 0x48u8),
        (755, ProtocolState::Play, Direction::Clientbound, "ClientboundNamedSoundEffect"@, 0x5Cu8),
        (755, ProtocolState::Play, Direction::Clientbound, "ClientboundSound"@, 0x5Cu8),
        (755, ProtocolState::Play, Direction::Clientbound, "ClientboundPlayerAbilities"@, 0x32u8),
        (755, ProtocolState::Play, Direction::Clientbound, "ClientboundPluginMessage"@, 0x18u8),
        (755, ProtocolState::Play, Direction::Clientbound, "ClientboundCustomPayload"@, 0x18u8),
        (755, ProtocolState::Play, Direction::Clientbound, "ClientboundDisconnect"@, 0x1Au8),
    ]
}

fn play_c_table() -> (r: Vec<Entry>)
    ensures
        r@.map_values(|e: Entry| entry_spec(e)) == play_c_rows(),
{
    let v: Vec<Entry> = vec![
        (477, ProtocolState::Play, Direction::Clientbound, "ClientboundKeepAlive", 0x20),
        (477, ProtocolState::Play, Direction::Clientbound, "ClientboundChatMessage", 0x0E),
        (477, ProtocolState::Play, Direction::Clientbound, "ClientboundRespawn", 0x3A),
        (477, ProtocolState::Play, Direction::Clientbound, "ClientboundPlayerPosition", 0x35),
        (477, ProtocolState::Play, Direction::Clientbound, "ClientboundSetHeldItem", 0x3F),
        (477, ProtocolState::Play, Direction::Clientbound, "ClientboundSetCarriedItem", 0x3F),
        (477, ProtocolState::Play, Direction::Clientbound, "ClientboundNamedSoundEffect", 0x52),
        (477, ProtocolState::Play, Direction::Clientbound, "ClientboundSound", 0x52),
        (477, ProtocolState::Play, Direction::Clientbound, "ClientboundPlayerAbilities", 0x32),
        (477, ProtocolState::Play, Direction::Clientbound, "ClientboundPluginMessage", 0x18),
        (477, ProtocolState::Play, Direction::Clientbound, "ClientboundCustomPayload", 0x18),
        (477, ProtocolState::Play, Direction::Clientbound, "ClientboundDisconnect", 0x1A),
        (477, ProtocolState::Play, Direction::Clientbound, "ClientboundBossBar", 0x0D),
        (477, ProtocolState::Play, Direction::Clientbound, "ClientboundLevelChunkWithLight", 0x21),
        (477, ProtocolState::Play, Direction::Serverbound, "ServerboundChatMessage", 0x03),
        (477, ProtocolState::Play, Direction::Serverbound, "ServerboundPluginMessage", 0x0B),
        (477, ProtocolState::Play, Direction::Serverbound, "ServerboundCustomPayload", 0x0B),
        (573, ProtocolState::Play, Direction::Clientbound, "ClientboundKeepAlive", 0x21),
        (573, ProtocolState::Play, Direction::Clientbound, "ClientboundJoinGame", 0x26),
        (573, ProtocolState::Play, Direction::Clientbound, "ClientboundChatMessage", 0x0F),
        (573, ProtocolState::Play, Direction::Clientbound, "ClientboundRespawn", 0x3B),
        (573, ProtocolState::Play, Direction::Clientbound, "ClientboundPlayerPosition", 0x36),
        (573, ProtocolState::Play, Direction::Clientbound, "ClientboundSetHeldItem", 0x40),
        (573, ProtocolState::Play, Direction::Clientbound, "ClientboundSetCarriedItem", 0x40),
        (573, ProtocolState::Play, Direction::Clientbound, "ClientboundPlayerAbilities", 0x32),
        (573, ProtocolState::Play, Direction::Clientbound, "ClientboundPluginMessage", 0x19),
        (573, ProtocolState::Play, Direction::Clientbound, "ClientboundCustomPayload", 0x19),
        (573, ProtocolState::Play, Direction::Clientbound, "ClientboundDisconnect", 0x1B),
        (735, ProtocolState::Play, Direction::Clientbound, "ClientboundKeepAlive", 0x1F),
        (735, ProtocolState::Play, Direction::Clientbound, "ClientboundJoinGame", 0x24),
        (735, ProtocolState::Play, Direction::Clientbound, "ClientboundChatMessage", 0x0E),
        (735, ProtocolState::Play, Direction::Clientbound, "ClientboundRespawn", 0x39),
        (735, ProtocolState::Play, Direction::Clientbound, "ClientboundPlayerPosition", 0x34),
        (735, ProtocolState::Play, Direction::Clientbound, "ClientboundSetHeldItem", 0x3F),
        (735, ProtocolState::Play, Direction::Clientbound, "ClientboundSetCarriedItem", 0x3F),
        (735, ProtocolState::Play, Direction::Clientbound, "ClientboundNamedSoundEffect", 0x50),
        (735, ProtocolState::Play, Direction::Clientbound, "ClientboundSound", 0x50),
        (735, ProtocolState::Play, Direction::Clientbound, "ClientboundPlayerAbilities", 0x30),
        (735, ProtocolState::Play, Direction::Clientbound, "ClientboundPluginMessage", 0x17),
        (735, ProtocolState::Play, Direction::Clientbound, "ClientboundCustomPayload", 0x17),
        (735, ProtocolState::Play, Direction::Clientbound, "ClientboundDisconnect", 0x19),
        (735, ProtocolState::Play, Direction::Clientbound, "ClientboundBossBar", 0x0D),
        (735, ProtocolState::Play, Direction::Clientbound, "ClientboundLevelChunkWithLight", 0x20),
        (735, ProtocolState::Play, Direction::Serverbound, "ServerboundChatMessage", 0x03),
        (735, ProtocolState::Play, Direction::Serverbound, "ServerboundPluginMessage", 0x0B),
        (735, ProtocolState::Play, Direction::Serverbound, "ServerboundCustomPayload", 0x0B),
        (755, ProtocolState::Play, Direction::Clientbound, "ClientboundKeepAlive", 0x21),
        (755, ProtocolState::Play, Direction::Clientbound, "ClientboundJoinGame", 0x26),
        (755, ProtocolState::Play, Direction::Clientbound, "ClientboundChatMessage", 0x0F),
        (755, ProtocolState::Play, Direction::Clientbound, "ClientboundRespawn", 0x3D),
        (755, ProtocolState::Play, Direction::Clientbound, "ClientboundPlayerPosition", 0x38),
        (755, ProtocolState::Play, Direction::Clientbound, "ClientboundSetHeldItem", 0x48),
        (755, ProtocolState::Play, Direction::Clientbound, "ClientboundSetCarriedItem", 0x48),
        (755, ProtocolState::Play, Direction::Clientbound, "ClientboundNamedSoundEffect", 0x5C),
        (755, ProtocolState::Play, Direction::Clientbound, "ClientboundSound", 0x5C),
        (755, ProtocolState::Play, Direction::Clientbound, "ClientboundPlayerAbilities", 0x32),
        (755, ProtocolState::Play, Direction::Clientbound, "ClientboundPluginMessage", 0x18),
        (755, ProtocolState::Play, Direction::Clientbound, "ClientboundCustomPayload", 0x18),
        (755, ProtocolState::Play, Direction::Clientbound, "ClientboundDisconnect", 0x1A),
    ];
    assert(v@.map_values(|e: Entry| entry_spec(e)) =~= play_c_rows());
    v
}

/// The play state, 1.19 to 1.21.
pub open spec fn play_d_rows() -> Seq<EntrySpec> {
    seq![
        (759, ProtocolState::Play, Direction::Clientbound, "ClientboundKeepAlive"@, 0x1Eu8),
        (759, ProtocolState::Play, Direction::Clientbound, "ClientboundJoinGame"@, 0x23u8),
        (759, ProtocolState::Play, Direction::Clientbound, "ClientboundLogin"@, 0x23u8),
        (759, ProtocolState::Play, Direction::Clientbound, "ClientboundSystemChat"@, 0x5Fu8),
        (759, ProtocolState::Play, Direction::Clientbound, "ClientboundRespawn"@, 0x39u8),
        (759, ProtocolState::Play, Direction::Clientbound, "ClientboundPlayerPosition"@, 0x37u8),
        (759, ProtocolState::Play, Direction::Clientbound, "ClientboundSetHeldItem"@, 0x47u8),
        (759, ProtocolState::Play, Direction::Clientbound, "ClientboundSetCarriedItem"@, 0x47u8),
        (759, ProtocolState::Play, Direction::Clientbound, "ClientboundSound"@, 0x5Du8),
        (759, ProtocolState::Play, Direction::Clientbound, "ClientboundPlayerAbilities"@, 0x2Fu8),
        (759, ProtocolState::Play, Direction::Clientbound, "ClientboundPluginMessage"@, 0x15u8),
        (759, ProtocolState::Play, Direction::Clientbound, "ClientboundCustomPayload"@, 0x15u8),
        (759, ProtocolState::Play, Direction::Clientbound, "ClientboundDisconnect"@, 0x17u8),
        (759, ProtocolState::Play, Direction::Serverbound, "ServerboundChatMessage"@, 0x04u8),
        (759, ProtocolState::Play, Direction::Serverbound, "ServerboundChatCommand"@, 0x03u8),
        (759, ProtocolState::Play, Direction::Serverbound, "ServerboundPluginMessage"@, 0x0Cu8),
        (759, ProtocolState::Play, Direction::Serverbound, "ServerboundCustomPayload"@, 0x0Cu8),
        (762, ProtocolState::Play, Direction::Clientbound, "ClientboundKeepAlive"@, 0x23u8),
        (762, ProtocolState::Play, Direction::Clientbound, "ClientboundJoinGame"@, 0x28u8),
        (762, ProtocolState::Play, Direction::Clientbound, "ClientboundLogin"@, 0x28u8),
        (762, ProtocolState::Play, Direction::Clientbound, "ClientboundSystemChat"@, 0x64u8),
        (762, ProtocolState::Play, Direction::Clientbound, "ClientboundRespawn"@, 0x41u8),
        (762, ProtocolState::Play, Direction::Clientbound, "ClientboundPlayerPosition"@, 0x3Cu8),
        (762, ProtocolState::Play, Direction::Clientbound, "ClientboundSetHeldItem"@, 0x4Du8),
        (762, ProtocolState::Play, Direction::Clientbound, "ClientboundSetCarriedItem"@, 0x4Du8),
        (762, ProtocolState::Play, Direction::Clientbound, "ClientboundSound"@, 0x62u8),
        (762, ProtocolState::Play, Direction::Clientbound, "ClientboundPlayerAbilities"@, 0x34u8),
        (762, ProtocolState::Play, Direction::Clientbound, "ClientboundPluginMessage"@, 0x17u8),
        (762, ProtocolState::Play, Direction::Clientbound, "ClientboundCustomPayload"@, 0x17u8),
        (762, ProtocolState::Play, Direction::Clientbound, "ClientboundDisconnect"@, 0x1Au8),
        (765, ProtocolState::Play, Direction::Clientbound, "ClientboundKeepAlive"@, 0x24u8),
        (765, ProtocolState::Play, Direction::Clientbound, "ClientboundJoinGame"@, 0x29u8),
        (765, ProtocolState::Play, Direction::Clientbound, "ClientboundLogin"@, 0x29u8),
        (765, ProtocolState::Play, Direction::Clientbound, "ClientboundSystemChat"@, 0x69u8),
        (765, ProtocolState::Play, Direction::Clientbound, "ClientboundRespawn"@, 0x45u8),
        (765, ProtocolState::Play, Direction::Clientbound, "ClientboundPlayerPosition"@, 0x3Eu8),
        (765, ProtocolState::Play, Direction::Clientbound, "ClientboundSetHeldItem"@, 0x51u8),
        (765, ProtocolState::Play, Direction::Clientbound, "ClientboundSetCarriedItem"@, 0x51u8),
        (765, ProtocolState::Play, Direction::Clientbound, "ClientboundSound"@, 0x66u8),
        (765, ProtocolState::Play, Direction::Clientbound, "ClientboundPlayerAbilities"@, 0x36u8),
        (765, ProtocolState::Play, Direction::Clientbound, "ClientboundPluginMessage"@, 0x18u8),
        (765, ProtocolState::Play, Direction::Clientbound, "ClientboundCustomPayload"@, 0x18u8),
        (765, ProtocolState::Play, Direction::Clientbound, "ClientboundDisconnect"@, 0x1Bu8),
        (765, ProtocolState::Play, Direction::Serverbound, "ServerboundChatMessage"@, 0x05u8),
        (765, ProtocolState::Play, Direction::Serverbound, "ServerboundChatCommand"@, 0x04u8),
        (765, ProtocolState::Play, Direction::Serverbound, "ServerboundKeepAlive"@, 0x14u8),
        (765, ProtocolState::Play, Direction::Serverbound, "ServerboundPluginMessage"@, 0x0Fu8),
        (765, ProtocolState::Play, Direction::Serverbound, "ServerboundCustomPayload"@, 0x0Fu8),
        (767, ProtocolState::Play, Direction::Clientbound, "ClientboundKeepAlive"@, 0x26u8),
        (767, ProtocolState::Play, Direction::Clientbound, "ClientboundJoinGame"@, 0x2Bu8),
        (767, ProtocolState::Play, Direction::Clientbound, "ClientboundLogin"@, 0x2Bu8),
        (767, ProtocolState::Play, Direction::Clientbound, "ClientboundSystemChat"@, 0x6Cu8),
        (767, ProtocolState::Play, Direction::Clientbound, "ClientboundRespawn"@, 0x47u8),
        (767, ProtocolState::Play, Direction::Clientbound, "ClientboundPlayerPosition"@, 0x40u8),
        (767, ProtocolState::Play, Direction::Clientbound, "ClientboundSetHeldItem"@, 0x53u8),
        (767, ProtocolState::Play, Direction::Clientbound, "ClientboundSetCarriedItem"@, 0x53u8),
        (767, ProtocolState::Play, Direction::Clientbound, "ClientboundSound"@, 0x68u8),
        (767, ProtocolState::Play, Direction::Clientbound, "ClientboundPlayerAbilities"@, 0x38u8),
        (767, ProtocolState::Play, Direction::Clientbound, "ClientboundPluginMessage"@, 0x19u8),
        (767, ProtocolState::Play, Direction::Clientbound, "ClientboundCustomPayload"@, 0x19u8),
        (767, ProtocolState::Play, Direction::Clientbound, "ClientboundDisconnect"@, 0x1Du8),
        (767, ProtocolState::Play, Direction::Serverbound, "ServerboundChatMessage"@, 0x07u8),
        (767, ProtocolState::Play, Direction::Serverbound, "ServerboundChatCommand"@, 0x05u8),
        (767, ProtocolState::Play, Direction::Serverbound, "ServerboundKeepAlive"@, 0x18u8),
        (767, ProtocolState::Play, Direction::Serverbound, "ServerboundPluginMessage"@, 0x13u8),
        (767, ProtocolState::Play, Direction::Serverbound, "ServerboundCustomPayload"@, 0x13u8),
    ]
}

fn play_d_table() -> (r: Vec<Entry>)
    ensures
        r@.map_values(|e: Entry| entry_spec(e)) == play_d_rows(),
{
    let v: Vec<Entry> = vec![
        (759, ProtocolState::Play, Direction::Clientbound, "ClientboundKeepAlive", 0x1E),
        (759, ProtocolState::Play, Direction::Clientbound, "ClientboundJoinGame", 0x23),
        (759, ProtocolState::Play, Direction::Clientbound, "ClientboundLogin", 0x23),
        (759, ProtocolState::Play, Direction::Clientbound, "ClientboundSystemChat", 0x5F),
        (759, ProtocolState::Play, Direction::Clientbound, "ClientboundRespawn", 0x39),
        (759, ProtocolState::Play, Direction::Clientbound, "ClientboundPlayerPosition", 0x37),
        (759, ProtocolState::Play, Direction::Clientbound, "ClientboundSetHeldItem", 0x47),
        (759, ProtocolState::Play, Direction::Clientbound, "ClientboundSetCarriedItem", 0x47),
        (759, ProtocolState::Play, Direction::Clientbound, "ClientboundSound", 0x5D),
        (759, ProtocolState::Play, Direction::Clientbound, "ClientboundPlayerAbilities", 0x2F),
        (759, ProtocolState::Play, Direction::Clientbound, "ClientboundPluginMessage", 0x15),
        (759, ProtocolState::Play, Direction::Clientbound, "ClientboundCustomPayload", 0x15),
        (759, ProtocolState::Play, Direction::Clientbound, "ClientboundDisconnect", 0x17),
        (759, ProtocolState::Play, Direction::Serverbound, "ServerboundChatMessage", 0x04),
        (759, ProtocolState::Play, Direction::Serverbound, "ServerboundChatCommand", 0x03),
        (759, ProtocolState::Play, Direction::Serverbound, "ServerboundPluginMessage", 0x0C),
        (759, ProtocolState::Play, Direction::Serverbound, "ServerboundCustomPayload", 0x0C),
        (762, ProtocolState::Play, Direction::Clientbound, "ClientboundKeepAlive", 0x23),
        (762, ProtocolState::Play, Direction::Clientbound, "ClientboundJoinGame", 0x28),
        (762, ProtocolState::Play, Direction::Clientbound, "ClientboundLogin", 0x28),
        (762, ProtocolState::Play, Direction::Clientbound, "ClientboundSystemChat", 0x64),
        (762, ProtocolState::Play, Direction::Clientbound, "ClientboundRespawn", 0x41),
        (762, ProtocolState::Play, Direction::Clientbound, "ClientboundPlayerPosition", 0x3C),
        (762, ProtocolState::Play, Direction::Clientbound, "ClientboundSetHeldItem", 0x4D),
        (762, ProtocolState::Play, Direction::Clientbound, "ClientboundSetCarriedItem", 0x4D),
        (762, ProtocolState::Play, Direction::Clientbound, "ClientboundSound", 0x62),
        (762, ProtocolState::Play, Direction::Clientbound, "ClientboundPlayerAbilities", 0x34),
        (762, ProtocolState::Play, Direction::Clientbound, "ClientboundPluginMessage", 0x17),
        (762, ProtocolState::Play, Direction::Clientbound, "ClientboundCustomPayload", 0x17),
        (762, ProtocolState::Play, Direction::Clientbound, "ClientboundDisconnect", 0x1A),
        (765, ProtocolState::Play, Direction::Clientbound, "ClientboundKeepAlive", 0x24),
        (765, ProtocolState::Play, Direction::Clientbound, "ClientboundJoinGame", 0x29),
        (765, ProtocolState::Play, Direction::Clientbound, "ClientboundLogin", 0x29),
        (765, ProtocolState::Play, Direction::Clientbound, "ClientboundSystemChat", 0x69),
        (765, ProtocolState::Play, Direction::Clientbound, "ClientboundRespawn", 0x45),
        (765, ProtocolState::Play, Direction::Clientbound, "ClientboundPlayerPosition", 0x3E),
        (765, ProtocolState::Play, Direction::Clientbound, "ClientboundSetHeldItem", 0x51),
        (765, ProtocolState::Play, Direction::Clientbound, "ClientboundSetCarriedItem", 0x51),
        (765, ProtocolState::Play, Direction::Clientbound, "ClientboundSound", 0x66),
        (765, ProtocolState::Play, Direction::Clientbound, "ClientboundPlayerAbilities", 0x36),
        (765, ProtocolState::Play, Direction::Clientbound, "ClientboundPluginMessage", 0x18),
        (765, ProtocolState::Play, Direction::Clientbound, "ClientboundCustomPayload", 0x18),
        (765, ProtocolState::Play, Direction::Clientbound, "ClientboundDisconnect", 0x1B),
        (765, ProtocolState::Play, Direction::Serverbound, "ServerboundChatMessage", 0x05),
        (765, ProtocolState::Play, Direction::Serverbound, "ServerboundChatCommand", 0x04),
        (765, ProtocolState::Play, Direction::Serverbound, "ServerboundKeepAlive", 0x14),
        (765, ProtocolState::Play, Direction::Serverbound, "ServerboundPluginMessage", 0x0F),
        (765, ProtocolState::Play, Direction::Serverbound, "ServerboundCustomPayload", 0x0F),
        (767, ProtocolState::Play, Direction::Clientbound, "ClientboundKeepAlive", 0x26),
        (767, ProtocolState::Play, Direction::Clientbound, "ClientboundJoinGame", 0x2B),
        (767, ProtocolState::Play, Direction::Clientbound, "ClientboundLogin", 0x2B),
        (767, ProtocolState::Play, Direction::Clientbound, "ClientboundSystemChat", 0x6C),
        (767, ProtocolState::Play, Direction::Clientbound, "ClientboundRespawn", 0x47),
        (767, ProtocolState::Play, Direction::Clientbound, "ClientboundPlayerPosition", 0x40),
        (767, ProtocolState::Play, Direction::Clientbound, "ClientboundSetHeldItem", 0x53),
        (767, ProtocolState::Play, Direction::Clientbound, "ClientboundSetCarriedItem", 0x53),
        (767, ProtocolState::Play, Direction::Clientbound, "ClientboundSound", 0x68),
        (767, ProtocolState::Play, Direction::Clientbound, "ClientboundPlayerAbilities", 0x38),
        (767, ProtocolState::Play, Direction::Clientbound, "ClientboundPluginMessage", 0x19),
        (767, ProtocolState::Play, Direction::Clientbound, "ClientboundCustomPayload", 0x19),
        (767, ProtocolState::Play, Direction::Clientbound, "ClientboundDisconnect", 0x1D),
        (767, ProtocolState::Play, Direction::Serverbound, "ServerboundChatMessage", 0x07),
        (767, ProtocolState::Play, Direction::Serverbound, "ServerboundChatCommand", 0x05),
        (767, ProtocolState::Play, Direction::Serverbound, "ServerboundKeepAlive", 0x18),
        (767, ProtocolState::Play, Direction::Serverbound, "ServerboundPluginMessage", 0x13),
        (767, ProtocolState::Play, Direction::Serverbound, "ServerboundCustomPayload", 0x13),
    ];
    assert(v@.map_values(|e: Entry| entry_spec(e)) =~= play_d_rows());
    v
}

/// Every row of the built-in table, in registration order.
pub open spec fn default_rows() -> Seq<EntrySpec> {
    pre_netty_rows() + handshake_rows() + status_rows() + login_rows() + configuration_rows()
        + play_a_rows() + play_b_rows() + play_c_rows() + play_d_rows()
}

/// The buckets of the registry that `build_default_registry` returns.
pub open spec fn default_buckets() -> Seq<Seq<EntryView>> {
    register_all(empty_buckets(), default_rows())
}

// ── What the built-in table registers ──────────────────────────────────

/// `row` registers exactly the key `(p, s, d, n)`.
pub open spec fn row_is(row: EntrySpec, p: u32, s: ProtocolState, d: Direction, n: Seq<char>) -> bool {
    row.0 == p && row.1 == s && row.2 == d && row.3 == n
}

/// The id of the last row of `rows` that registers `(p, s, d, n)`.
pub open spec fn last_row_id(rows: Seq<EntrySpec>, p: u32, s: ProtocolState, d: Direction, n: Seq<char>) -> Option<u8>
    decreases rows.len(),
{
    if rows.len() == 0 {
        None
    } else if row_is(rows.last(), p, s, d, n) {
        Some(rows.last().4)
    } else {
        last_row_id(rows.drop_last(), p, s, d, n)
    }
}
/// Registering `rows` in order keeps each bucket's keys distinct, and the
/// exact lookup of a key afterwards gives the id of the last row that
/// registered it, or what it gave before where no row did.
pub proof fn lemma_register_all_lookup(
    bs: Seq<Seq<EntryView>>,
    rows: Seq<EntrySpec>,
    p: u32,
    s: ProtocolState,
    d: Direction,
    n: Seq<char>,
)
    requires
        bs.len() == BUCKETS,
        forall|b: int| 0 <= b < BUCKETS ==> unique_keys(#[trigger] bs[b]),
    ensures
        register_all(bs, rows).len() == BUCKETS,
        forall|b: int| 0 <= b < BUCKETS ==> unique_keys(#[trigger] register_all(bs, rows)[b]),
        lookup_id(register_all(bs, rows)[bucket_of(s, d)], p, n) == match last_row_id(rows, p, s, d, n) {
            Some(i) => Some(i),
            None => lookup_id(bs[bucket_of(s, d)], p, n),
        },
    decreases rows.len(),
{
    lemma_bucket_of_injective(s, d, s, d);
    if rows.len() > 0 {
        lemma_register_all_lookup(bs, rows.drop_last(), p, s, d, n);
        let r0 = register_all(bs, rows.drop_last());
        let row = rows.last();
        let c = bucket_of(row.1, row.2);
        lemma_bucket_of_injective(row.1, row.2, s, d);
        let r1 = register_all(bs, rows);
        assert(r1 == r0.update(c, register_entry(r0[c], row.0, row.3, row.4)));
        assert forall|b: int| 0 <= b < BUCKETS implies unique_keys(#[trigger] r1[b]) by {
            if b == c {
                lemma_register_unique(r0[c], row.0, row.3, row.4);
            }
        }
        if row_is(row, p, s, d, n) {
            lemma_register_then_get(r0[c], row.0, row.3, row.4);
        } else if c == bucket_of(s, d) {
            lemma_register_keeps_others(r0[c], row.0, row.3, row.4, p, n);
        }
    }
}

proof fn lemma_last_row_none(t: Seq<EntrySpec>, p: u32, s: ProtocolState, d: Direction, n: Seq<char>)
    requires
        forall|i: int| 0 <= i < t.len() ==> !row_is(#[trigger] t[i], p, s, d, n),
    ensures
        last_row_id(t, p, s, d, n) is None,
    decreases t.len(),
{
    if t.len() > 0 {
        assert(!row_is(t[t.len() - 1], p, s, d, n));
        assert forall|i: int| 0 <= i < t.drop_last().len() implies !row_is(#[trigger] t.drop_last()[i], p, s, d, n) by {
            assert(t.drop_last()[i] == t[i]);
        }
        lemma_last_row_none(t.drop_last(), p, s, d, n);
    }
}

proof fn lemma_last_row_at(t: Seq<EntrySpec>, p: u32, s: ProtocolState, d: Direction, n: Seq<char>, i: int)
    requires
        0 <= i < t.len(),
        row_is(t[i], p, s, d, n),
        forall|j: int| i < j < t.len() ==> !row_is(#[trigger] t[j], p, s, d, n),
    ensures
        last_row_id(t, p, s, d, n) == Some(t[i].4),
    decreases t.len(),
{
    if i < t.len() - 1 {
        assert(!row_is(t[t.len() - 1], p, s, d, n));
        let u = t.drop_last();
        assert(u[i] == t[i]);
        assert forall|j: int| i < j < u.len() implies !row_is(#[trigger] u[j], p, s, d, n) by {
            assert(u[j] == t[j]);
        }
        lemma_last_row_at(u, p, s, d, n, i);
    }
}

proof fn lemma_last_row_append(a: Seq<EntrySpec>, b: Seq<EntrySpec>, p: u32, s: ProtocolState, d: Direction, n: Seq<char>)
    ensures
        last_row_id(a + b, p, s, d, n) == match last_row_id(b, p, s, d, n) {
            Some(i) => Some(i),
            None => last_row_id(a, p, s, d, n),
        },
    decreases b.len(),
{
    if b.len() == 0 {
        assert(a + b =~= a);
    } else {
        assert((a + b).drop_last() =~= a + b.drop_last());
        assert((a + b).last() == b.last());
        lemma_last_row_append(a, b.drop_last(), p, s, d, n);
    }
}

proof fn lemma_last_row_none_outside(
    t: Seq<EntrySpec>,
    q: u32,
    st: ProtocolState,
    dir: Direction,
    n: Seq<char>,
    s_t: ProtocolState,
    a: u32,
    b: u32,
)
    requires
        forall|i: int| 0 <= i < t.len() ==> (#[trigger] t[i]).1 == s_t && a <= t[i].0 <= b,
        s_t != st || q < a || q > b,
    ensures
        last_row_id(t, q, st, dir, n) is None,
{
    assert forall|i: int| 0 <= i < t.len() implies !row_is(#[trigger] t[i], q, st, dir, n) by {
        assert(t[i].1 == s_t && a <= t[i].0 <= b);
    }
    lemma_last_row_none(t, q, st, dir, n);
}

/// The first of two lookups that finds something.
pub open spec fn or_else(a: Option<u8>, b: Option<u8>) -> Option<u8> {
    if a is Some {
        a
    } else {
        b
    }
}

proof fn lemma_default_last(q: u32, st: ProtocolState, dir: Direction, n: Seq<char>)
    ensures
        last_row_id(default_rows(), q, st, dir, n) == or_else(
            last_row_id(play_d_rows(), q, st, dir, n),
            or_else(
                last_row_id(play_c_rows(), q, st, dir, n),
                or_else(
                    last_row_id(play_b_rows(), q, st, dir, n),
                    or_else(
                        last_row_id(play_a_rows(), q, st, dir, n),
                        or_else(
                            last_row_id(configuration_rows(), q, st, dir, n),
                            or_else(
                                last_row_id(login_rows(), q, st, dir, n),
                                or_else(
                                    last_row_id(status_rows(), q, st, dir, n),
                                    or_else(
                                        last_row_id(handshake_rows(), q, st, dir, n),
                                        last_row_id(pre_netty_rows(), q, st, dir, n),
                                    ),
                                ),
                            ),
                        ),
                    ),
                ),
            ),
        ),
{
    let t1 = pre_netty_rows() + handshake_rows();
    let t2 = t1 + status_rows();
    let t3 = t2 + login_rows();
    let t4 = t3 + configuration_rows();
    let t5 = t4 + play_a_rows();
    let t6 = t5 + play_b_rows();
    let t7 = t6 + play_c_rows();
    lemma_last_row_append(pre_netty_rows(), handshake_rows(), q, st, dir, n);
    lemma_last_row_append(t1, status_rows(), q, st, dir, n);
    lemma_last_row_append(t2, login_rows(), q, st, dir, n);
    lemma_last_row_append(t3, configuration_rows(), q, st, dir, n);
    lemma_last_row_append(t4, play_a_rows(), q, st, dir, n);
    lemma_last_row_append(t5, play_b_rows(), q, st, dir, n);
    lemma_last_row_append(t6, play_c_rows(), q, st, dir, n);
    lemma_last_row_append(t7, play_d_rows(), q, st, dir, n);
}

/// In the built-in registry, the exact lookup of a key is the id of the
/// last row of the built-in table that registers it.
pub proof fn lemma_default_lookup(q: u32, st: ProtocolState, dir: Direction, n: Seq<char>)
    ensures
        unique_keys(default_buckets()[bucket_of(st, dir)]),
        lookup_id(default_buckets()[bucket_of(st, dir)], q, n) == last_row_id(default_rows(), q, st, dir, n),
{
    let e = empty_buckets();
    assert forall|b: int| 0 <= b < BUCKETS implies unique_keys(#[trigger] e[b]) by {
        assert(e[b] =~= Seq::<EntryView>::empty());
    }
    lemma_bucket_of_injective(st, dir, st, dir);
    lemma_register_all_lookup(e, default_rows(), q, st, dir, n);
    assert(e[bucket_of(st, dir)] =~= Seq::<EntryView>::empty());
}

/// A name registered at `lo` with `id`, and at no other protocol from `lo`
/// to `hi`, is looked up as `id` at every protocol from `lo` to `hi`.
proof fn lemma_versioned_from_lookups(es: Seq<EntryView>, n: Seq<char>, lo: u32, hi: u32, id: u8, p: u32)
    requires
        unique_keys(es),
        lo <= p <= hi,
        forall|q: u32| lo <= q <= hi ==> #[trigger] lookup_id(es, q, n) == if q == lo {
            Some(id)
        } else {
            None
        },
    ensures
        versioned_id(es, p, n) == Some(id),
{
    lemma_versioned_is_highest_exact(es, p, n);
    assert(lookup_id(es, lo, n) == Some(id));
    assert forall|q: u32| lo < q <= p implies !#[trigger] registered_at(es, q, n) by {
        assert(lookup_id(es, q, n) is None);
    }
    assert(is_highest_registered(es, p, n, lo));
}

proof fn lemma_pre_netty_rows_shape()
    ensures
        forall|i: int| 0 <= i < pre_netty_rows().len() ==> (#[trigger] pre_netty_rows()[i]).1 == ProtocolState::Login && 78 <= pre_netty_rows()[i].0 <= 78,
{
    let t = pre_netty_rows();
    assert forall|i: int| 0 <= i < t.len() implies (#[trigger] t[i]).1 == ProtocolState::Login && 78 <= t[i].0 <= 78 by {
        assert(i == 0 || i == 1 || i == 2 || i == 3);
    }
}

proof fn lemma_handshake_rows_shape()
    ensures
        forall|i: int| 0 <= i < handshake_rows().len() ==> (#[trigger] handshake_rows()[i]).1 == ProtocolState::Handshake && 4 <= handshake_rows()[i].0 <= 4,
{
    let t = handshake_rows();
    assert forall|i: int| 0 <= i < t.len() implies (#[trigger] t[i]).1 == ProtocolState::Handshake && 4 <= t[i].0 <= 4 by {
        assert(i == 0);
    }
}

proof fn lemma_status_rows_shape()
    ensures
        forall|i: int| 0 <= i < status_rows().len() ==> (#[trigger] status_rows()[i]).1 == ProtocolState::Status && 4 <= status_rows()[i].0 <= 4,
{
    let t = status_rows();
    assert forall|i: int| 0 <= i < t.len() implies (#[trigger] t[i]).1 == ProtocolState::Status && 4 <= t[i].0 <= 4 by {
        assert(i == 0 || i == 1 || i == 2 || i == 3);
    }
}

proof fn lemma_login_rows_shape()
    ensures
        forall|i: int| 0 <= i < login_rows().len() ==> (#[trigger] login_rows()[i]).1 == ProtocolState::Login && 4 <= login_rows()[i].0 <= 764,
{
    let t = login_rows();
    assert forall|i: int| 0 <= i < t.len() implies (#[trigger] t[i]).1 == ProtocolState::Login && 4 <= t[i].0 <= 764 by {
        assert(i == 0 || i == 1 || i == 2 || i == 3 || i == 4 || i == 5 || i == 6 || i == 7 || i == 8);
    }
}

proof fn lemma_configuration_rows_shape()
    ensures
        forall|i: int| 0 <= i < configuration_rows().len() ==> (#[trigger] configuration_rows()[i]).1 == ProtocolState::Configuration && 764 <= configuration_rows()[i].0 <= 766,
{
    let t = configuration_rows();
    assert forall|i: int| 0 <= i < t.len() implies (#[trigger] t[i]).1 == ProtocolState::Configuration && 764 <= t[i].0 <= 766 by {
        assert(i == 0 || i == 1 || i == 2 || i == 3 || i == 4 || i == 5 || i == 6 || i == 7 || i == 8 || i == 9 || i == 10);
    }
}

proof fn lemma_play_a_rows_shape()
    ensures
        forall|i: int| 0 <= i < play_a_rows().len() ==> (#[trigger] play_a_rows()[i]).1 == ProtocolState::Play && 5 <= play_a_rows()[i].0 <= 47,
{
    let t = play_a_rows();
    assert forall|i: int| 0 <= i < t.len() implies (#[trigger] t[i]).1 == ProtocolState::Play && 5 <= t[i].0 <= 47 by {
        assert(i == 0 || i == 1 || i == 2 || i == 3 || i == 4 || i == 5 || i == 6 || i == 7 || i == 8 || i == 9 || i == 10 || i == 11 || i == 12 || i == 13 || i == 14 || i == 15 || i == 16 || i == 17 || i == 18 || i == 19 || i == 20 || i == 21 || i == 22 || i == 23 || i == 24 || i == 25 || i == 26 || i == 27 || i == 28 || i == 29 || i == 30);
    }
}

proof fn lemma_play_b_rows_shape()
    ensures
        forall|i: int| 0 <= i < play_b_rows().len() ==> (#[trigger] play_b_rows()[i]).1 == ProtocolState::Play && 107 <= play_b_rows()[i].0 <= 393,
{
    let t = play_b_rows();
    assert forall|i: int| 0 <= i < t.len() implies (#[trigger] t[i]).1 == ProtocolState::Play && 107 <= t[i].0 <= 393 by {
        assert(i == 0 || i == 1 || i == 2 || i == 3 || i == 4 || i == 5 || i == 6 || i == 7 || i == 8 || i == 9 || i == 10 || i == 11 || i == 12 || i == 13 || i == 14 || i == 15 || i == 16 || i == 17 || i == 18 || i == 19 || i == 20 || i == 21 || i == 22 || i == 23 || i == 24 || i == 25 || i == 26 || i == 27 || i == 28 || i == 29 || i == 30 || i == 31 || i == 32 || i == 33 || i == 34 || i == 35 || i == 36 || i == 37 || i == 38 || i == 39 || i == 40);
    }
}

proof fn lemma_play_c_rows_shape()
    ensures
        forall|i: int| 0 <= i < play_c_rows().len() ==> (#[trigger] play_c_rows()[i]).1 == ProtocolState::Play && 477 <= play_c_rows()[i].0 <= 755,
{
    let t = play_c_rows();
    assert forall|i: int| 0 <= i < t.len() implies (#[trigger] t[i]).1 == ProtocolState::Play && 477 <= t[i].0 <= 755 by {
        assert(i == 0 || i == 1 || i == 2 || i == 3 || i == 4 || i == 5 || i == 6 || i == 7 || i == 8 || i == 9 || i == 10 || i == 11 || i == 12 || i == 13 || i == 14 || i == 15 || i == 16 || i == 17 || i == 18 || i == 19 || i == 20 || i == 21 || i == 22 || i == 23 || i == 24 || i == 25 || i == 26 || i == 27 || i == 28 || i == 29 || i == 30 || i == 31 || i == 32 || i == 33 || i == 34 || i == 35 || i == 36 || i == 37 || i == 38 || i == 39 || i == 40 || i == 41 || i == 42 || i == 43 || i == 44 || i == 45 || i == 46 || i == 47 || i == 48 || i == 49 || i == 50 || i == 51 || i == 52 || i == 53 || i == 54 || i == 55 || i == 56 || i == 57 || i == 58);
    }
}

proof fn lemma_play_d_rows_shape()
    ensures
        forall|i: int| 0 <= i < play_d_rows().len() ==> (#[trigger] play_d_rows()[i]).1 == ProtocolState::Play && 759 <= play_d_rows()[i].0 <= 767,
{
    let t = play_d_rows();
    assert forall|i: int| 0 <= i < t.len() implies (#[trigger] t[i]).1 == ProtocolState::Play && 759 <= t[i].0 <= 767 by {
        assert(i == 0 || i == 1 || i == 2 || i == 3 || i == 4 || i == 5 || i == 6 || i == 7 || i == 8 || i == 9 || i == 10 || i == 11 || i == 12 || i == 13 || i == 14 || i == 15 || i == 16 || i == 17 || i == 18 || i == 19 || i == 20 || i == 21 || i == 22 || i == 23 || i == 24 || i == 25 || i == 26 || i == 27 || i == 28 || i == 29 || i == 30 || i == 31 || i == 32 || i == 33 || i == 34 || i == 35 || i == 36 || i == 37 || i == 38 || i == 39 || i == 40 || i == 41 || i == 42 || i == 43 || i == 44 || i == 45 || i == 46 || i == 47 || i == 48 || i == 49 || i == 50 || i == 51 || i == 52 || i == 53 || i == 54 || i == 55 || i == 56 || i == 57 || i == 58 || i == 59 || i == 60 || i == 61 || i == 62 || i == 63 || i == 64 || i == 65);
    }
}

#[verifier::rlimit(100)]
#[verifier::spinoff_prover]
proof fn lemma_play_b_rows_clientbound_chat_message_107(q: u32)
    requires
        107 <= q <= 392,
    ensures
        last_row_id(play_b_rows(), q, ProtocolState::Play, Direction::Clientbound, "ClientboundChatMessage"@) == if q == 107 { Some(0x0Fu8) } else { None },
{
    reveal_strlit("ClientboundChatMessage");
    assert("ClientboundChatMessage"@.len() == 22);
    reveal_strlit("ClientboundBossBar");
    assert("ClientboundBossBar"@.len() == 18);
    reveal_strlit("ClientboundCustomPayload");
    assert("ClientboundCustomPayload"@.len() == 24);
    reveal_strlit("ClientboundDisconnect");
    assert("ClientboundDisconnect"@.len() == 21);
    reveal_strlit("ClientboundJoinGame");
    assert("ClientboundJoinGame"@.len() == 19);
    reveal_strlit("ClientboundKeepAlive");
    assert("ClientboundKeepAlive"@.len() == 20);
    reveal_strlit("ClientboundNamedSoundEffect");
    assert("ClientboundNamedSoundEffect"@.len() == 27);
    reveal_strlit("ClientboundPlayerAbilities");
    assert("ClientboundPlayerAbilities"@.len() == 26);
    reveal_strlit("ClientboundPlayerPosition");
    assert("ClientboundPlayerPosition"@.len() == 25);
    reveal_strlit("ClientboundPluginMessage");
    assert("ClientboundPluginMessage"@.len() == 24);
    reveal_strlit("ClientboundRespawn");
    assert("ClientboundRespawn"@.len() == 18);
    reveal_strlit("ClientboundSetCarriedItem");
    assert("ClientboundSetCarriedItem"@.len() == 25);
    reveal_strlit("ClientboundSetHeldItem");
    assert("ClientboundSetHeldItem"@.len() == 22);
    assert("ClientboundSetHeldItem"@[11] != "ClientboundChatMessage"@[11]);
    reveal_strlit("ClientboundSound");
    assert("ClientboundSound"@.len() == 16);
    let t = play_b_rows();
    let n = "ClientboundChatMessage"@;
    if q == 107 {
        assert forall|i: int| 2 < i < t.len() implies !row_is(#[trigger] t[i], q, ProtocolState::Play, Direction::Clientbound, n) by {
            assert(i == 0 || i == 1 || i == 2 || i == 3 || i == 4 || i == 5 || i == 6 || i == 7 || i == 8 || i == 9 || i == 10 || i == 11 || i == 12 || i == 13 || i == 14 || i == 15 || i == 16 || i == 17 || i == 18 || i == 19 || i == 20 || i == 21 || i == 22 || i == 23 || i == 24 || i == 25 || i == 26 || i == 27 || i == 28 || i == 29 || i == 30 || i == 31 || i == 32 || i == 33 || i == 34 || i == 35 || i == 36 || i == 37 || i == 38 || i == 39 || i == 40);
        }
        assert(t[2] == (107u32, ProtocolState::Play, Direction::Clientbound, n, 0x0Fu8));
        lemma_last_row_at(t, q, ProtocolState::Play, Direction::Clientbound, n, 2);
    } else {
        assert forall|i: int| 0 <= i < t.len() implies !row_is(#[trigger] t[i], q, ProtocolState::Play, Direction::Clientbound, n) by {
            assert(i == 0 || i == 1 || i == 2 || i == 3 || i == 4 || i == 5 || i == 6 || i == 7 || i == 8 || i == 9 || i == 10 || i == 11 || i == 12 || i == 13 || i == 14 || i == 15 || i == 16 || i == 17 || i == 18 || i == 19 || i == 20 || i == 21 || i == 22 || i == 23 || i == 24 || i == 25 || i == 26 || i == 27 || i == 28 || i == 29 || i == 30 || i == 31 || i == 32 || i == 33 || i == 34 || i == 35 || i == 36 || i == 37 || i == 38 || i == 39 || i == 40);
        }
        lemma_last_row_none(t, q, ProtocolState::Play, Direction::Clientbound, n);
    }
}

/// In the built-in registry, `ClientboundChatMessage` (Play, Clientbound) registered at protocol
/// 107 has id 0x0F, and nothing registers it again before 393: every
/// protocol from protocol 107 to 392 looks it up as 0x0F.
pub proof fn lemma_default_clientbound_chat_message_107(p: u32)
    requires
        107 <= p <= 392,
    ensures
        versioned_id(
            default_buckets()[bucket_of(ProtocolState::Play, Direction::Clientbound)],
            p,
            "ClientboundChatMessage"@,
        ) == Some(0x0Fu8),
{
    let st = ProtocolState::Play;
    let dir = Direction::Clientbound;
    let n = "ClientboundChatMessage"@;
    let es = default_buckets()[bucket_of(st, dir)];
    assert forall|q: u32| 107 <= q <= 392 implies #[trigger] lookup_id(es, q, n) == if q == 107 {
        Some(0x0Fu8)
    } else {
        None
    } by {
        lemma_default_lookup(q, st, dir, n);
        lemma_default_last(q, st, dir, n);
        lemma_pre_netty_rows_shape();
        lemma_last_row_none_outside(pre_netty_rows(), q, st, dir, n, ProtocolState::Login, 78, 78);
        lemma_handshake_rows_shape();
        lemma_last_row_none_outside(handshake_rows(), q, st, dir, n, ProtocolState::Handshake, 4, 4);
        lemma_status_rows_shape();
        lemma_last_row_none_outside(status_rows(), q, st, dir, n, ProtocolState::Status, 4, 4);
        lemma_login_rows_shape();
        lemma_last_row_none_outside(login_rows(), q, st, dir, n, ProtocolState::Login, 4, 764);
        lemma_configuration_rows_shape();
        lemma_last_row_none_outside(configuration_rows(), q, st, dir, n, ProtocolState::Configuration, 764, 766);
        lemma_play_a_rows_shape();
        lemma_last_row_none_outside(play_a_rows(), q, st, dir, n, ProtocolState::Play, 5, 47);
        lemma_play_b_rows_clientbound_chat_message_107(q);
        lemma_play_c_rows_shape();
        lemma_last_row_none_outside(play_c_rows(), q, st, dir, n, ProtocolState::Play, 477, 755);
        lemma_play_d_rows_shape();
        lemma_last_row_none_outside(play_d_rows(), q, st, dir, n, ProtocolState::Play, 759, 767);
    }
    lemma_default_lookup(p, st, dir, n);
    lemma_versioned_from_lookups(es, n, 107, 392, 0x0Fu8, p);
}

#[verifier::rlimit(100)]
#[verifier::spinoff_prover]
proof fn lemma_play_b_rows_clientbound_keep_alive_107(q: u32)
    requires
        107 <= q <= 392,
    ensures
        last_row_id(play_b_rows(), q, ProtocolState::Play, Direction::Clientbound, "ClientboundKeepAlive"@) == if q == 107 { Some(0x1Fu8) } else { None },
{
    reveal_strlit("ClientboundKeepAlive");
    assert("ClientboundKeepAlive"@.len() == 20);
    reveal_strlit("ClientboundBossBar");
    assert("ClientboundBossBar"@.len() == 18);
    reveal_strlit("ClientboundChatMessage");
    assert("ClientboundChatMessage"@.len() == 22);
    reveal_strlit("ClientboundCustomPayload");
    assert("ClientboundCustomPayload"@.len() == 24);
    reveal_strlit("ClientboundDisconnect");
    assert("ClientboundDisconnect"@.len() == 21);
    reveal_strlit("ClientboundJoinGame");
    assert("ClientboundJoinGame"@.len() == 19);
    reveal_strlit("ClientboundNamedSoundEffect");
    assert("ClientboundNamedSoundEffect"@.len() == 27);
    reveal_strlit("ClientboundPlayerAbilities");
    assert("ClientboundPlayerAbilities"@.len() == 26);
    reveal_strlit("ClientboundPlayerPosition");
    assert("ClientboundPlayerPosition"@.len() == 25);
    reveal_strlit("ClientboundPluginMessage");
    assert("ClientboundPluginMessage"@.len() == 24);
    reveal_strlit("ClientboundRespawn");
    assert("ClientboundRespawn"@.len() == 18);
    reveal_strlit("ClientboundSetCarriedItem");
    assert("ClientboundSetCarriedItem"@.len() == 25);
    reveal_strlit("ClientboundSetHeldItem");
    assert("ClientboundSetHeldItem"@.len() == 22);
    reveal_strlit("ClientboundSound");
    assert("ClientboundSound"@.len() == 16);
    let t = play_b_rows();
    let n = "ClientboundKeepAlive"@;
    if q == 107 {
        assert forall|i: int| 0 < i < t.len() implies !row_is(#[trigger] t[i], q, ProtocolState::Play, Direction::Clientbound, n) by {
            assert(i == 0 || i == 1 || i == 2 || i == 3 || i == 4 || i == 5 || i == 6 || i == 7 || i == 8 || i == 9 || i == 10 || i == 11 || i == 12 || i == 13 || i == 14 || i == 15 || i == 16 || i == 17 || i == 18 || i == 19 || i == 20 || i == 21 || i == 22 || i == 23 || i == 24 || i == 25 || i == 26 || i == 27 || i == 28 || i == 29 || i == 30 || i == 31 || i == 32 || i == 33 || i == 34 || i == 35 || i == 36 || i == 37 || i == 38 || i == 39 || i == 40);
        }
        assert(t[0] == (107u32, ProtocolState::Play, Direction::Clientbound, n, 0x1Fu8));
        lemma_last_row_at(t, q, ProtocolState::Play, Direction::Clientbound, n, 0);
    } else {
        assert forall|i: int| 0 <= i < t.len() implies !row_is(#[trigger] t[i], q, ProtocolState::Play, Direction::Clientbound, n) by {
            assert(i == 0 || i == 1 || i == 2 || i == 3 || i == 4 || i == 5 || i == 6 || i == 7 || i == 8 || i == 9 || i == 10 || i == 11 || i == 12 || i == 13 || i == 14 || i == 15 || i == 16 || i == 17 || i == 18 || i == 19 || i == 20 || i == 21 || i == 22 || i == 23 || i == 24 || i == 25 || i == 26 || i == 27 || i == 28 || i == 29 || i == 30 || i == 31 || i == 32 || i == 33 || i == 34 || i == 35 || i == 36 || i == 37 || i == 38 || i == 39 || i == 40);
        }
        lemma_last_row_none(t, q, ProtocolState::Play, Direction::Clientbound, n);
    }
}

/// In the built-in registry, `ClientboundKeepAlive` (Play, Clientbound) registered at protocol
/// 107 has id 0x1F, and nothing registers it again before 393: every
/// protocol from protocol 107 to 392 looks it up as 0x1F.
pub proof fn lemma_default_clientbound_keep_alive_107(p: u32)
    requires
        107 <= p <= 392,
    ensures
        versioned_id(
            default_buckets()[bucket_of(ProtocolState::Play, Direction::Clientbound)],
            p,
            "ClientboundKeepAlive"@,
        ) == Some(0x1Fu8),
{
    let st = ProtocolState::Play;
    let dir = Direction::Clientbound;
    let n = "ClientboundKeepAlive"@;
    let es = default_buckets()[bucket_of(st, dir)];
    assert forall|q: u32| 107 <= q <= 392 implies #[trigger] lookup_id(es, q, n) == if q == 107 {
        Some(0x1Fu8)
    } else {
        None
    } by {
        lemma_default_lookup(q, st, dir, n);
        lemma_default_last(q, st, dir, n);
        lemma_pre_netty_rows_shape();
        lemma_last_row_none_outside(pre_netty_rows(), q, st, dir, n, ProtocolState::Login, 78, 78);
        lemma_handshake_rows_shape();
        lemma_last_row_none_outside(handshake_rows(), q, st, dir, n, ProtocolState::Handshake, 4, 4);
        lemma_status_rows_shape();
        lemma_last_row_none_outside(status_rows(), q, st, dir, n, ProtocolState::Status, 4, 4);
        lemma_login_rows_shape();
        lemma_last_row_none_outside(login_rows(), q, st, dir, n, ProtocolState::Login, 4, 764);
        lemma_configuration_rows_shape();
        lemma_last_row_none_outside(configuration_rows(), q, st, dir, n, ProtocolState::Configuration, 764, 766);
        lemma_play_a_rows_shape();
        lemma_last_row_none_outside(play_a_rows(), q, st, dir, n, ProtocolState::Play, 5, 47);
        lemma_play_b_rows_clientbound_keep_alive_107(q);
        lemma_play_c_rows_shape();
        lemma_last_row_none_outside(play_c_rows(), q, st, dir, n, ProtocolState::Play, 477, 755);
        lemma_play_d_rows_shape();
        lemma_last_row_none_outside(play_d_rows(), q, st, dir, n, ProtocolState::Play, 759, 767);
    }
    lemma_default_lookup(p, st, dir, n);
    lemma_versioned_from_lookups(es, n, 107, 392, 0x1Fu8, p);
}

#[verifier::rlimit(100)]
#[verifier::spinoff_prover]
proof fn lemma_play_b_rows_clientbound_disconnect_107(q: u32)
    requires
        107 <= q <= 392,
    ensures
        last_row_id(play_b_rows(), q, ProtocolState::Play, Direction::Clientbound, "ClientboundDisconnect"@) == if q == 107 { Some(0x1Au8) } else { None },
{
    reveal_strlit("ClientboundDisconnect");
    assert("ClientboundDisconnect"@.len() == 21);
    reveal_strlit("ClientboundBossBar");
    assert("ClientboundBossBar"@.len() == 18);
    reveal_strlit("ClientboundChatMessage");
    assert("ClientboundChatMessage"@.len() == 22);
    reveal_strlit("ClientboundCustomPayload");
    assert("ClientboundCustomPayload"@.len() == 24);
    reveal_strlit("ClientboundJoinGame");
    assert("ClientboundJoinGame"@.len() == 19);
    reveal_strlit("ClientboundKeepAlive");
    assert("ClientboundKeepAlive"@.len() == 20);
    reveal_strlit("ClientboundNamedSoundEffect");
    assert("ClientboundNamedSoundEffect"@.len() == 27);
    reveal_strlit("ClientboundPlayerAbilities");
    assert("ClientboundPlayerAbilities"@.len() == 26);
    reveal_strlit("ClientboundPlayerPosition");
    assert("ClientboundPlayerPosition"@.len() == 25);
    reveal_strlit("ClientboundPluginMessage");
    assert("ClientboundPluginMessage"@.len() == 24);
    reveal_strlit("ClientboundRespawn");
    assert("ClientboundRespawn"@.len() == 18);
    reveal_strlit("ClientboundSetCarriedItem");
    assert("ClientboundSetCarriedItem"@.len() == 25);
    reveal_strlit("ClientboundSetHeldItem");
    assert("ClientboundSetHeldItem"@.len() == 22);
    reveal_strlit("ClientboundSound");
    assert("ClientboundSound"@.len() == 16);
    let t = play_b_rows();
    let n = "ClientboundDisconnect"@;
    if q == 107 {
        assert forall|i: int| 12 < i < t.len() implies !row_is(#[trigger] t[i], q, ProtocolState::Play, Direction::Clientbound, n) by {
            assert(i == 0 || i == 1 || i == 2 || i == 3 || i == 4 || i == 5 || i == 6 || i == 7 || i == 8 || i == 9 || i == 10 || i == 11 || i == 12 || i == 13 || i == 14 || i == 15 || i == 16 || i == 17 || i == 18 || i == 19 || i == 20 || i == 21 || i == 22 || i == 23 || i == 24 || i == 25 || i == 26 || i == 27 || i == 28 || i == 29 || i == 30 || i == 31 || i == 32 || i == 33 || i == 34 || i == 35 || i == 36 || i == 37 || i == 38 || i == 39 || i == 40);
        }
        assert(t[12] == (107u32, ProtocolState::Play, Direction::Clientbound, n, 0x1Au8));
        lemma_last_row_at(t, q, ProtocolState::Play, Direction::Clientbound, n, 12);
    } else {
        assert forall|i: int| 0 <= i < t.len() implies !row_is(#[trigger] t[i], q, ProtocolState::Play, Direction::Clientbound, n) by {
            assert(i == 0 || i == 1 || i == 2 || i == 3 || i == 4 || i == 5 || i == 6 || i == 7 || i == 8 || i == 9 || i == 10 || i == 11 || i == 12 || i == 13 || i == 14 || i == 15 || i == 16 || i == 17 || i == 18 || i == 19 || i == 20 || i == 21 || i == 22 || i == 23 || i == 24 || i == 25 || i == 26 || i == 27 || i == 28 || i == 29 || i == 30 || i == 31 || i == 32 || i == 33 || i == 34 || i == 35 || i == 36 || i == 37 || i == 38 || i == 39 || i == 40);
        }
        lemma_last_row_none(t, q, ProtocolState::Play, Direction::Clientbound, n);
    }
}

/// In the built-in registry, `ClientboundDisconnect` (Play, Clientbound) registered at protocol
/// 107 has id 0x1A, and nothing registers it again before 393: every
/// protocol from protocol 107 to 392 looks it up as 0x1A.
pub proof fn lemma_default_clientbound_disconnect_107(p: u32)
    requires
        107 <= p <= 392,
    ensures
        versioned_id(
            default_buckets()[bucket_of(ProtocolState::Play, Direction::Clientbound)],
            p,
            "ClientboundDisconnect"@,
        ) == Some(0x1Au8),
{
    let st = ProtocolState::Play;
    let dir = Direction::Clientbound;
    let n = "ClientboundDisconnect"@;
    let es = default_buckets()[bucket_of(st, dir)];
    assert forall|q: u32| 107 <= q <= 392 implies #[trigger] lookup_id(es, q, n) == if q == 107 {
        Some(0x1Au8)
    } else {
        None
    } by {
        lemma_default_lookup(q, st, dir, n);
        lemma_default_last(q, st, dir, n);
        lemma_pre_netty_rows_shape();
        lemma_last_row_none_outside(pre_netty_rows(), q, st, dir, n, ProtocolState::Login, 78, 78);
        lemma_handshake_rows_shape();
        lemma_last_row_none_outside(handshake_rows(), q, st, dir, n, ProtocolState::Handshake, 4, 4);
        lemma_status_rows_shape();
        lemma_last_row_none_outside(status_rows(), q, st, dir, n, ProtocolState::Status, 4, 4);
        lemma_login_rows_shape();
        lemma_last_row_none_outside(login_rows(), q, st, dir, n, ProtocolState::Login, 4, 764);
        lemma_configuration_rows_shape();
        lemma_last_row_none_outside(configuration_rows(), q, st, dir, n, ProtocolState::Configuration, 764, 766);
        lemma_play_a_rows_shape();
        lemma_last_row_none_outside(play_a_rows(), q, st, dir, n, ProtocolState::Play, 5, 47);
        lemma_play_b_rows_clientbound_disconnect_107(q);
        lemma_play_c_rows_shape();
        lemma_last_row_none_outside(play_c_rows(), q, st, dir, n, ProtocolState::Play, 477, 755);
        lemma_play_d_rows_shape();
        lemma_last_row_none_outside(play_d_rows(), q, st, dir, n, ProtocolState::Play, 759, 767);
    }
    lemma_default_lookup(p, st, dir, n);
    lemma_versioned_from_lookups(es, n, 107, 392, 0x1Au8, p);
}

#[verifier::rlimit(100)]
#[verifier::spinoff_prover]
proof fn lemma_play_b_rows_clientbound_join_game_107(q: u32)
    requires
        107 <= q <= 392,
    ensures
        last_row_id(play_b_rows(), q, ProtocolState::Play, Direction::Clientbound, "ClientboundJoinGame"@) == if q == 107 { Some(0x23u8) } else { None },
{
    reveal_strlit("ClientboundJoinGame");
    assert("ClientboundJoinGame"@.len() == 19);
    reveal_strlit("ClientboundBossBar");
    assert("ClientboundBossBar"@.len() == 18);
    reveal_strlit("ClientboundChatMessage");
    assert("ClientboundChatMessage"@.len() == 22);
    reveal_strlit("ClientboundCustomPayload");
    assert("ClientboundCustomPayload"@.len() == 24);
    reveal_strlit("ClientboundDisconnect");
    assert("ClientboundDisconnect"@.len() == 21);
    reveal_strlit("ClientboundKeepAlive");
    assert("ClientboundKeepAlive"@.len() == 20);
    reveal_strlit("ClientboundNamedSoundEffect");
    assert("ClientboundNamedSoundEffect"@.len() == 27);
    reveal_strlit("ClientboundPlayerAbilities");
    assert("ClientboundPlayerAbilities"@.len() == 26);
    reveal_strlit("ClientboundPlayerPosition");
    assert("ClientboundPlayerPosition"@.len() == 25);
    reveal_strlit("ClientboundPluginMessage");
    assert("ClientboundPluginMessage"@.len() == 24);
    reveal_strlit("ClientboundRespawn");
    assert("ClientboundRespawn"@.len() == 18);
    reveal_strlit("ClientboundSetCarriedItem");
    assert("ClientboundSetCarriedItem"@.len() == 25);
    reveal_strlit("ClientboundSetHeldItem");
    assert("ClientboundSetHeldItem"@.len() == 22);
    reveal_strlit("ClientboundSound");
    assert("ClientboundSound"@.len() == 16);
    let t = play_b_rows();
    let n = "ClientboundJoinGame"@;
    if q == 107 {
        assert forall|i: int| 1 < i < t.len() implies !row_is(#[trigger] t[i], q, ProtocolState::Play, Direction::Clientbound, n) by {
            assert(i == 0 || i == 1 || i == 2 || i == 3 || i == 4 || i == 5 || i == 6 || i == 7 || i == 8 || i == 9 || i == 10 || i == 11 || i == 12 || i == 13 || i == 14 || i == 15 || i == 16 || i == 17 || i == 18 || i == 19 || i == 20 || i == 21 || i == 22 || i == 23 || i == 24 || i == 25 || i == 26 || i == 27 || i == 28 || i == 29 || i == 30 || i == 31 || i == 32 || i == 33 || i == 34 || i == 35 || i == 36 || i == 37 || i == 38 || i == 39 || i == 40);
        }
        assert(t[1] == (107u32, ProtocolState::Play, Direction::Clientbound, n, 0x23u8));
        lemma_last_row_at(t, q, ProtocolState::Play, Direction::Clientbound, n, 1);
    } else {
        assert forall|i: int| 0 <= i < t.len() implies !row_is(#[trigger] t[i], q, ProtocolState::Play, Direction::Clientbound, n) by {
            assert(i == 0 || i == 1 || i == 2 || i == 3 || i == 4 || i == 5 || i == 6 || i == 7 || i == 8 || i == 9 || i == 10 || i == 11 || i == 12 || i == 13 || i == 14 || i == 15 || i == 16 || i == 17 || i == 18 || i == 19 || i == 20 || i == 21 || i == 22 || i == 23 || i == 24 || i == 25 || i == 26 || i == 27 || i == 28 || i == 29 || i == 30 || i == 31 || i == 32 || i == 33 || i == 34 || i == 35 || i == 36 || i == 37 || i == 38 || i == 39 || i == 40);
        }
        lemma_last_row_none(t, q, ProtocolState::Play, Direction::Clientbound, n);
    }
}

/// In the built-in registry, `ClientboundJoinGame` (Play, Clientbound) registered at protocol
/// 107 has id 0x23, and nothing registers it again before 393: every
/// protocol from protocol 107 to 392 looks it up as 0x23.
pub proof fn lemma_default_clientbound_join_game_107(p: u32)
    requires
        107 <= p <= 392,
    ensures
        versioned_id(
            default_buckets()[bucket_of(ProtocolState::Play, Direction::Clientbound)],
            p,
            "ClientboundJoinGame"@,
        ) == Some(0x23u8),
{
    let st = ProtocolState::Play;
    let dir = Direction::Clientbound;
    let n = "ClientboundJoinGame"@;
    let es = default_buckets()[bucket_of(st, dir)];
    assert forall|q: u32| 107 <= q <= 392 implies #[trigger] lookup_id(es, q, n) == if q == 107 {
        Some(0x23u8)
    } else {
        None
    } by {
        lemma_default_lookup(q, st, dir, n);
        lemma_default_last(q, st, dir, n);
        lemma_pre_netty_rows_shape();
        lemma_last_row_none_outside(pre_netty_rows(), q, st, dir, n, ProtocolState::Login, 78, 78);
        lemma_handshake_rows_shape();
        lemma_last_row_none_outside(handshake_rows(), q, st, dir, n, ProtocolState::Handshake, 4, 4);
        lemma_status_rows_shape();
        lemma_last_row_none_outside(status_rows(), q, st, dir, n, ProtocolState::Status, 4, 4);
        lemma_login_rows_shape();
        lemma_last_row_none_outside(login_rows(), q, st, dir, n, ProtocolState::Login, 4, 764);
        lemma_configuration_rows_shape();
        lemma_last_row_none_outside(configuration_rows(), q, st, dir, n, ProtocolState::Configuration, 764, 766);
        lemma_play_a_rows_shape();
        lemma_last_row_none_outside(play_a_rows(), q, st, dir, n, ProtocolState::Play, 5, 47);
        lemma_play_b_rows_clientbound_join_game_107(q);
        lemma_play_c_rows_shape();
        lemma_last_row_none_outside(play_c_rows(), q, st, dir, n, ProtocolState::Play, 477, 755);
        lemma_play_d_rows_shape();
        lemma_last_row_none_outside(play_d_rows(), q, st, dir, n, ProtocolState::Play, 759, 767);
    }
    lemma_default_lookup(p, st, dir, n);
    lemma_versioned_from_lookups(es, n, 107, 392, 0x23u8, p);
}

#[verifier::rlimit(100)]
#[verifier::spinoff_prover]
proof fn lemma_play_c_rows_clientbound_join_game_735(q: u32)
    requires
        735 <= q <= 754,
    ensures
        last_row_id(play_c_rows(), q, ProtocolState::Play, Direction::Clientbound, "ClientboundJoinGame"@) == if q == 735 { Some(0x24u8) } else { None },
{
    reveal_strlit("ClientboundJoinGame");
    assert("ClientboundJoinGame"@.len() == 19);
    reveal_strlit("ClientboundBossBar");
    assert("ClientboundBossBar"@.len() == 18);
    reveal_strlit("ClientboundChatMessage");
    assert("ClientboundChatMessage"@.len() == 22);
    reveal_strlit("ClientboundCustomPayload");
    assert("ClientboundCustomPayload"@.len() == 24);
    reveal_strlit("ClientboundDisconnect");
    assert("ClientboundDisconnect"@.len() == 21);
    reveal_strlit("ClientboundKeepAlive");
    assert("ClientboundKeepAlive"@.len() == 20);
    reveal_strlit("ClientboundLevelChunkWithLight");
    assert("ClientboundLevelChunkWithLight"@.len() == 30);
    reveal_strlit("ClientboundNamedSoundEffect");
    assert("ClientboundNamedSoundEffect"@.len() == 27);
    reveal_strlit("ClientboundPlayerAbilities");
    assert("ClientboundPlayerAbilities"@.len() == 26);
    reveal_strlit("ClientboundPlayerPosition");
    assert("ClientboundPlayerPosition"@.len() == 25);
    reveal_strlit("ClientboundPluginMessage");
    assert("ClientboundPluginMessage"@.len() == 24);
    reveal_strlit("ClientboundRespawn");
    assert("ClientboundRespawn"@.len() == 18);
    reveal_strlit("ClientboundSetCarriedItem");
    assert("ClientboundSetCarriedItem"@.len() == 25);
    reveal_strlit("ClientboundSetHeldItem");
    assert("ClientboundSetHeldItem"@.len() == 22);
    reveal_strlit("ClientboundSound");
    assert("ClientboundSound"@.len() == 16);
    let t = play_c_rows();
    let n = "ClientboundJoinGame"@;
    if q == 735 {
        assert forall|i: int| 29 < i < t.len() implies !row_is(#[trigger] t[i], q, ProtocolState::Play, Direction::Clientbound, n) by {
            assert(i == 0 || i == 1 || i == 2 || i == 3 || i == 4 || i == 5 || i == 6 || i == 7 || i == 8 || i == 9 || i == 10 || i == 11 || i == 12 || i == 13 || i == 14 || i == 15 || i == 16 || i == 17 || i == 18 || i == 19 || i == 20 || i == 21 || i == 22 || i == 23 || i == 24 || i == 25 || i == 26 || i == 27 || i == 28 || i == 29 || i == 30 || i == 31 || i == 32 || i == 33 || i == 34 || i == 35 || i == 36 || i == 37 || i == 38 || i == 39 || i == 40 || i == 41 || i == 42 || i == 43 || i == 44 || i == 45 || i == 46 || i == 47 || i == 48 || i == 49 || i == 50 || i == 51 || i == 52 || i == 53 || i == 54 || i == 55 || i == 56 || i == 57 || i == 58);
        }
        assert(t[29] == (735u32, ProtocolState::Play, Direction::Clientbound, n, 0x24u8));
        lemma_last_row_at(t, q, ProtocolState::Play, Direction::Clientbound, n, 29);
    } else {
        assert forall|i: int| 0 <= i < t.len() implies !row_is(#[trigger] t[i], q, ProtocolState::Play, Direction::Clientbound, n) by {
            assert(i == 0 || i == 1 || i == 2 || i == 3 || i == 4 || i == 5 || i == 6 || i == 7 || i == 8 || i == 9 || i == 10 || i == 11 || i == 12 || i == 13 || i == 14 || i == 15 || i == 16 || i == 17 || i == 18 || i == 19 || i == 20 || i == 21 || i == 22 || i == 23 || i == 24 || i == 25 || i == 26 || i == 27 || i == 28 || i == 29 || i == 30 || i == 31 || i == 32 || i == 33 || i == 34 || i == 35 || i == 36 || i == 37 || i == 38 || i == 39 || i == 40 || i == 41 || i == 42 || i == 43 || i == 44 || i == 45 || i == 46 || i == 47 || i == 48 || i == 49 || i == 50 || i == 51 || i == 52 || i == 53 || i == 54 || i == 55 || i == 56 || i == 57 || i == 58);
        }
        lemma_last_row_none(t, q, ProtocolState::Play, Direction::Clientbound, n);
    }
}

/// In the built-in registry, `ClientboundJoinGame` (Play, Clientbound) registered at protocol
/// 735 has id 0x24, and nothing registers it again before 755: every
/// protocol from protocol 735 to 754 looks it up as 0x24.
pub proof fn lemma_default_clientbound_join_game_735(p: u32)
    requires
        735 <= p <= 754,
    ensures
        versioned_id(
            default_buckets()[bucket_of(ProtocolState::Play, Direction::Clientbound)],
            p,
            "ClientboundJoinGame"@,
        ) == Some(0x24u8),
{
    let st = ProtocolState::Play;
    let dir = Direction::Clientbound;
    let n = "ClientboundJoinGame"@;
    let es = default_buckets()[bucket_of(st, dir)];
    assert forall|q: u32| 735 <= q <= 754 implies #[trigger] lookup_id(es, q, n) == if q == 735 {
        Some(0x24u8)
    } else {
        None
    } by {
        lemma_default_lookup(q, st, dir, n);
        lemma_default_last(q, st, dir, n);
        lemma_pre_netty_rows_shape();
        lemma_last_row_none_outside(pre_netty_rows(), q, st, dir, n, ProtocolState::Login, 78, 78);
        lemma_handshake_rows_shape();
        lemma_last_row_none_outside(handshake_rows(), q, st, dir, n, ProtocolState::Handshake, 4, 4);
        lemma_status_rows_shape();
        lemma_last_row_none_outside(status_rows(), q, st, dir, n, ProtocolState::Status, 4, 4);
        lemma_login_rows_shape();
        lemma_last_row_none_outside(login_rows(), q, st, dir, n, ProtocolState::Login, 4, 764);
        lemma_configuration_rows_shape();
        lemma_last_row_none_outside(configuration_rows(), q, st, dir, n, ProtocolState::Configuration, 764, 766);
        lemma_play_a_rows_shape();
        lemma_last_row_none_outside(play_a_rows(), q, st, dir, n, ProtocolState::Play, 5, 47);
        lemma_play_b_rows_shape();
        lemma_last_row_none_outside(play_b_rows(), q, st, dir, n, ProtocolState::Play, 107, 393);
        lemma_play_c_rows_clientbound_join_game_735(q);
        lemma_play_d_rows_shape();
        lemma_last_row_none_outside(play_d_rows(), q, st, dir, n, ProtocolState::Play, 759, 767);
    }
    lemma_default_lookup(p, st, dir, n);
    lemma_versioned_from_lookups(es, n, 735, 754, 0x24u8, p);
}

#[verifier::rlimit(100)]
#[verifier::spinoff_prover]
proof fn lemma_play_d_rows_clientbound_system_chat_767(q: u32)
    requires
        767 <= q <= 4294967295,
    ensures
        last_row_id(play_d_rows(), q, ProtocolState::Play, Direction::Clientbound, "ClientboundSystemChat"@) == if q == 767 { Some(0x6Cu8) } else { None },
{
    reveal_strlit("ClientboundSystemChat");
    assert("ClientboundSystemChat"@.len() == 21);
    reveal_strlit("ClientboundCustomPayload");
    assert("ClientboundCustomPayload"@.len() == 24);
    reveal_strlit("ClientboundDisconnect");
    assert("ClientboundDisconnect"@.len() == 21);
    assert("ClientboundDisconnect"@[11] != "ClientboundSystemChat"@[11]);
    reveal_strlit("ClientboundJoinGame");
    assert("ClientboundJoinGame"@.len() == 19);
    reveal_strlit("ClientboundKeepAlive");
    assert("ClientboundKeepAlive"@.len() == 20);
    reveal_strlit("ClientboundLogin");
    assert("ClientboundLogin"@.len() == 16);
    reveal_strlit("ClientboundPlayerAbilities");
    assert("ClientboundPlayerAbilities"@.len() == 26);
    reveal_strlit("ClientboundPlayerPosition");
    assert("ClientboundPlayerPosition"@.len() == 25);
    reveal_strlit("ClientboundPluginMessage");
    assert("ClientboundPluginMessage"@.len() == 24);
    reveal_strlit("ClientboundRespawn");
    assert("ClientboundRespawn"@.len() == 18);
    reveal_strlit("ClientboundSetCarriedItem");
    assert("ClientboundSetCarriedItem"@.len() == 25);
    reveal_strlit("ClientboundSetHeldItem");
    assert("ClientboundSetHeldItem"@.len() == 22);
    reveal_strlit("ClientboundSound");
    assert("ClientboundSound"@.len() == 16);
    let t = play_d_rows();
    let n = "ClientboundSystemChat"@;
    if q == 767 {
        assert forall|i: int| 51 < i < t.len() implies !row_is(#[trigger] t[i], q, ProtocolState::Play, Direction::Clientbound, n) by {
            assert(i == 0 || i == 1 || i == 2 || i == 3 || i == 4 || i == 5 || i == 6 || i == 7 || i == 8 || i == 9 || i == 10 || i == 11 || i == 12 || i == 13 || i == 14 || i == 15 || i == 16 || i == 17 || i == 18 || i == 19 || i == 20 || i == 21 || i == 22 || i == 23 || i == 24 || i == 25 || i == 26 || i == 27 || i == 28 || i == 29 || i == 30 || i == 31 || i == 32 || i == 33 || i == 34 || i == 35 || i == 36 || i == 37 || i == 38 || i == 39 || i == 40 || i == 41 || i == 42 || i == 43 || i == 44 || i == 45 || i == 46 || i == 47 || i == 48 || i == 49 || i == 50 || i == 51 || i == 52 || i == 53 || i == 54 || i == 55 || i == 56 || i == 57 || i == 58 || i == 59 || i == 60 || i == 61 || i == 62 || i == 63 || i == 64 || i == 65);
        }
        assert(t[51] == (767u32, ProtocolState::Play, Direction::Clientbound, n, 0x6Cu8));
        lemma_last_row_at(t, q, ProtocolState::Play, Direction::Clientbound, n, 51);
    } else {
        assert forall|i: int| 0 <= i < t.len() implies !row_is(#[trigger] t[i], q, ProtocolState::Play, Direction::Clientbound, n) by {
            assert(i == 0 || i == 1 || i == 2 || i == 3 || i == 4 || i == 5 || i == 6 || i == 7 || i == 8 || i == 9 || i == 10 || i == 11 || i == 12 || i == 13 || i == 14 || i == 15 || i == 16 || i == 17 || i == 18 || i == 19 || i == 20 || i == 21 || i == 22 || i == 23 || i == 24 || i == 25 || i == 26 || i == 27 || i == 28 || i == 29 || i == 30 || i == 31 || i == 32 || i == 33 || i == 34 || i == 35 || i == 36 || i == 37 || i == 38 || i == 39 || i == 40 || i == 41 || i == 42 || i == 43 || i == 44 || i == 45 || i == 46 || i == 47 || i == 48 || i == 49 || i == 50 || i == 51 || i == 52 || i == 53 || i == 54 || i == 55 || i == 56 || i == 57 || i == 58 || i == 59 || i == 60 || i == 61 || i == 62 || i == 63 || i == 64 || i == 65);
        }
        lemma_last_row_none(t, q, ProtocolState::Play, Direction::Clientbound, n);
    }
}

/// In the built-in registry, `ClientboundSystemChat` (Play, Clientbound) registered at protocol
/// 767 has id 0x6C, and nothing registers it again after: every
/// protocol from protocol 767 on looks it up as 0x6C.
pub proof fn lemma_default_clientbound_system_chat_767(p: u32)
    requires
        767 <= p <= 4294967295,
    ensures
        versioned_id(
            default_buckets()[bucket_of(ProtocolState::Play, Direction::Clientbound)],
            p,
            "ClientboundSystemChat"@,
        ) == Some(0x6Cu8),
{
    let st = ProtocolState::Play;
    let dir = Direction::Clientbound;
    let n = "ClientboundSystemChat"@;
    let es = default_buckets()[bucket_of(st, dir)];
    assert forall|q: u32| 767 <= q <= 4294967295 implies #[trigger] lookup_id(es, q, n) == if q == 767 {
        Some(0x6Cu8)
    } else {
        None
    } by {
        lemma_default_lookup(q, st, dir, n);
        lemma_default_last(q, st, dir, n);
        lemma_pre_netty_rows_shape();
        lemma_last_row_none_outside(pre_netty_rows(), q, st, dir, n, ProtocolState::Login, 78, 78);
        lemma_handshake_rows_shape();
        lemma_last_row_none_outside(handshake_rows(), q, st, dir, n, ProtocolState::Handshake, 4, 4);
        lemma_status_rows_shape();
        lemma_last_row_none_outside(status_rows(), q, st, dir, n, ProtocolState::Status, 4, 4);
        lemma_login_rows_shape();
        lemma_last_row_none_outside(login_rows(), q, st, dir, n, ProtocolState::Login, 4, 764);
        lemma_configuration_rows_shape();
        lemma_last_row_none_outside(configuration_rows(), q, st, dir, n, ProtocolState::Configuration, 764, 766);
        lemma_play_a_rows_shape();
        lemma_last_row_none_outside(play_a_rows(), q, st, dir, n, ProtocolState::Play, 5, 47);
        lemma_play_b_rows_shape();
        lemma_last_row_none_outside(play_b_rows(), q, st, dir, n, ProtocolState::Play, 107, 393);
        lemma_play_c_rows_shape();
        lemma_last_row_none_outside(play_c_rows(), q, st, dir, n, ProtocolState::Play, 477, 755);
        lemma_play_d_rows_clientbound_system_chat_767(q);
    }
    lemma_default_lookup(p, st, dir, n);
    lemma_versioned_from_lookups(es, n, 767, 4294967295, 0x6Cu8, p);
}

#[verifier::rlimit(100)]
#[verifier::spinoff_prover]
proof fn lemma_configuration_rows_finish_configuration_764(q: u32)
    requires
        764 <= q <= 765,
    ensures
        last_row_id(configuration_rows(), q, ProtocolState::Configuration, Direction::Clientbound, "FinishConfiguration"@) == if q == 764 { Some(0x02u8) } else { None },
{
    reveal_strlit("FinishConfiguration");
    assert("FinishConfiguration"@.len() == 19);
    reveal_strlit("ClientboundDisconnect");
    assert("ClientboundDisconnect"@.len() == 21);
    reveal_strlit("ClientboundKeepAlive");
    assert("ClientboundKeepAlive"@.len() == 20);
    reveal_strlit("ClientboundPluginMessage");
    assert("ClientboundPluginMessage"@.len() == 24);
    reveal_strlit("ClientboundRegistryData");
    assert("ClientboundRegistryData"@.len() == 23);
    let t = configuration_rows();
    let n = "FinishConfiguration"@;
    if q == 764 {
        assert forall|i: int| 2 < i < t.len() implies !row_is(#[trigger] t[i], q, ProtocolState::Configuration, Direction::Clientbound, n) by {
            assert(i == 0 || i == 1 || i == 2 || i == 3 || i == 4 || i == 5 || i == 6 || i == 7 || i == 8 || i == 9 || i == 10);
        }
        assert(t[2] == (764u32, ProtocolState::Configuration, Direction::Clientbound, n, 0x02u8));
        lemma_last_row_at(t, q, ProtocolState::Configuration, Direction::Clientbound, n, 2);
    } else {
        assert forall|i: int| 0 <= i < t.len() implies !row_is(#[trigger] t[i], q, ProtocolState::Configuration, Direction::Clientbound, n) by {
            assert(i == 0 || i == 1 || i == 2 || i == 3 || i == 4 || i == 5 || i == 6 || i == 7 || i == 8 || i == 9 || i == 10);
        }
        lemma_last_row_none(t, q, ProtocolState::Configuration, Direction::Clientbound, n);
    }
}

/// In the built-in registry, `FinishConfiguration` (Configuration, Clientbound) registered at protocol
/// 764 has id 0x02, and nothing registers it again before 766: every
/// protocol from protocol 764 to 765 looks it up as 0x02.
pub proof fn lemma_default_finish_configuration_764(p: u32)
    requires
        764 <= p <= 765,
    ensures
        versioned_id(
            default_buckets()[bucket_of(ProtocolState::Configuration, Direction::Clientbound)],
            p,
            "FinishConfiguration"@,
        ) == Some(0x02u8),
{
    let st = ProtocolState::Configuration;
    let dir = Direction::Clientbound;
    let n = "FinishConfiguration"@;
    let es = default_buckets()[bucket_of(st, dir)];
    assert forall|q: u32| 764 <= q <= 765 implies #[trigger] lookup_id(es, q, n) == if q == 764 {
        Some(0x02u8)
    } else {
        None
    } by {
        lemma_default_lookup(q, st, dir, n);
        lemma_default_last(q, st, dir, n);
        lemma_pre_netty_rows_shape();
        lemma_last_row_none_outside(pre_netty_rows(), q, st, dir, n, ProtocolState::Login, 78, 78);
        lemma_handshake_rows_shape();
        lemma_last_row_none_outside(handshake_rows(), q, st, dir, n, ProtocolState::Handshake, 4, 4);
        lemma_status_rows_shape();
        lemma_last_row_none_outside(status_rows(), q, st, dir, n, ProtocolState::Status, 4, 4);
        lemma_login_rows_shape();
        lemma_last_row_none_outside(login_rows(), q, st, dir, n, ProtocolState::Login, 4, 764);
        lemma_configuration_rows_finish_configuration_764(q);
        lemma_play_a_rows_shape();
        lemma_last_row_none_outside(play_a_rows(), q, st, dir, n, ProtocolState::Play, 5, 47);
        lemma_play_b_rows_shape();
        lemma_last_row_none_outside(play_b_rows(), q, st, dir, n, ProtocolState::Play, 107, 393);
        lemma_play_c_rows_shape();
        lemma_last_row_none_outside(play_c_rows(), q, st, dir, n, ProtocolState::Play, 477, 755);
        lemma_play_d_rows_shape();
        lemma_last_row_none_outside(play_d_rows(), q, st, dir, n, ProtocolState::Play, 759, 767);
    }
    lemma_default_lookup(p, st, dir, n);
    lemma_versioned_from_lookups(es, n, 764, 765, 0x02u8, p);
}

#[verifier::rlimit(100)]
#[verifier::spinoff_prover]
proof fn lemma_pre_netty_rows_clientbound_login_success_4(q: u32)
    requires
        4 <= q <= 4294967295,
    ensures
        last_row_id(pre_netty_rows(), q, ProtocolState::Login, Direction::Clientbound, "ClientboundLoginSuccess"@) == None::<u8>,
{
    reveal_strlit("ClientboundLoginSuccess");
    assert("ClientboundLoginSuccess"@.len() == 23);
    reveal_strlit("EncryptionKeyRequestS2C");
    assert("EncryptionKeyRequestS2C"@.len() == 23);
    assert("EncryptionKeyRequestS2C"@[0] != "ClientboundLoginSuccess"@[0]);
    reveal_strlit("LoginRequestS2C");
    assert("LoginRequestS2C"@.len() == 15);
    let t = pre_netty_rows();
    let n = "ClientboundLoginSuccess"@;
    assert forall|i: int| 0 <= i < t.len() implies !row_is(#[trigger] t[i], q, ProtocolState::Login, Direction::Clientbound, n) by {
        assert(i == 0 || i == 1 || i == 2 || i == 3);
    }
    lemma_last_row_none(t, q, ProtocolState::Login, Direction::Clientbound, n);
}

#[verifier::rlimit(100)]
#[verifier::spinoff_prover]
proof fn lemma_login_rows_clientbound_login_success_4(q: u32)
    requires
        4 <= q <= 4294967295,
    ensures
        last_row_id(login_rows(), q, ProtocolState::Login, Direction::Clientbound, "ClientboundLoginSuccess"@) == if q == 4 { Some(0x02u8) } else { None },
{
    reveal_strlit("ClientboundLoginSuccess");
    assert("ClientboundLoginSuccess"@.len() == 23);
    reveal_strlit("ClientboundEncryptionRequest");
    assert("ClientboundEncryptionRequest"@.len() == 28);
    reveal_strlit("ClientboundLoginDisconnect");
    assert("ClientboundLoginDisconnect"@.len() == 26);
    reveal_strlit("ClientboundLoginPluginRequest");
    assert("ClientboundLoginPluginRequest"@.len() == 29);
    reveal_strlit("ClientboundSetCompression");
    assert("ClientboundSetCompression"@.len() == 25);
    let t = login_rows();
    let n = "ClientboundLoginSuccess"@;
    if q == 4 {
        assert forall|i: int| 4 < i < t.len() implies !row_is(#[trigger] t[i], q, ProtocolState::Login, Direction::Clientbound, n) by {
            assert(i == 0 || i == 1 || i == 2 || i == 3 || i == 4 || i == 5 || i == 6 || i == 7 || i == 8);
        }
        assert(t[4] == (4u32, ProtocolState::Login, Direction::Clientbound, n, 0x02u8));
        lemma_last_row_at(t, q, ProtocolState::Login, Direction::Clientbound, n, 4);
    } else {
        assert forall|i: int| 0 <= i < t.len() implies !row_is(#[trigger] t[i], q, ProtocolState::Login, Direction::Clientbound, n) by {
            assert(i == 0 || i == 1 || i == 2 || i == 3 || i == 4 || i == 5 || i == 6 || i == 7 || i == 8);
        }
        lemma_last_row_none(t, q, ProtocolState::Login, Direction::Clientbound, n);
    }
}

/// In the built-in registry, `ClientboundLoginSuccess` (Login, Clientbound) registered at protocol
/// 4 has id 0x02, and nothing registers it again after: every
/// protocol from protocol 4 on looks it up as 0x02.
pub proof fn lemma_default_clientbound_login_success_4(p: u32)
    requires
        4 <= p <= 4294967295,
    ensures
        versioned_id(
            default_buckets()[bucket_of(ProtocolState::Login, Direction::Clientbound)],
            p,
            "ClientboundLoginSuccess"@,
        ) == Some(0x02u8),
{
    let st = ProtocolState::Login;
    let dir = Direction::Clientbound;
    let n = "ClientboundLoginSuccess"@;
    let es = default_buckets()[bucket_of(st, dir)];
    assert forall|q: u32| 4 <= q <= 4294967295 implies #[trigger] lookup_id(es, q, n) == if q == 4 {
        Some(0x02u8)
    } else {
        None
    } by {
        lemma_default_lookup(q, st, dir, n);
        lemma_default_last(q, st, dir, n);
        lemma_pre_netty_rows_clientbound_login_success_4(q);
        lemma_handshake_rows_shape();
        lemma_last_row_none_outside(handshake_rows(), q, st, dir, n, ProtocolState::Handshake, 4, 4);
        lemma_status_rows_shape();
        lemma_last_row_none_outside(status_rows(), q, st, dir, n, ProtocolState::Status, 4, 4);
        lemma_login_rows_clientbound_login_success_4(q);
        lemma_configuration_rows_shape();
        lemma_last_row_none_outside(configuration_rows(), q, st, dir, n, ProtocolState::Configuration, 764, 766);
        lemma_play_a_rows_shape();
        lemma_last_row_none_outside(play_a_rows(), q, st, dir, n, ProtocolState::Play, 5, 47);
        lemma_play_b_rows_shape();
        lemma_last_row_none_outside(play_b_rows(), q, st, dir, n, ProtocolState::Play, 107, 393);
        lemma_play_c_rows_shape();
        lemma_last_row_none_outside(play_c_rows(), q, st, dir, n, ProtocolState::Play, 477, 755);
        lemma_play_d_rows_shape();
        lemma_last_row_none_outside(play_d_rows(), q, st, dir, n, ProtocolState::Play, 759, 767);
    }
    lemma_default_lookup(p, st, dir, n);
    lemma_versioned_from_lookups(es, n, 4, 4294967295, 0x02u8, p);
}

#[verifier::rlimit(100)]
#[verifier::spinoff_prover]
proof fn lemma_login_rows_serverbound_login_acknowledged_764(q: u32)
    requires
        764 <= q <= 4294967295,
    ensures
        last_row_id(login_rows(), q, ProtocolState::Login, Direction::Serverbound, "ServerboundLoginAcknowledged"@) == if q == 764 { Some(0x03u8) } else { None },
{
    reveal_strlit("ServerboundLoginAcknowledged");
    assert("ServerboundLoginAcknowledged"@.len() == 28);
    let t = login_rows();
    let n = "ServerboundLoginAcknowledged"@;
    if q == 764 {
        assert forall|i: int| 8 < i < t.len() implies !row_is(#[trigger] t[i], q, ProtocolState::Login, Direction::Serverbound, n) by {
            assert(i == 0 || i == 1 || i == 2 || i == 3 || i == 4 || i == 5 || i == 6 || i == 7 || i == 8);
        }
        assert(t[8] == (764u32, ProtocolState::Login, Direction::Serverbound, n, 0x03u8));
        lemma_last_row_at(t, q, ProtocolState::Login, Direction::Serverbound, n, 8);
    } else {
        assert forall|i: int| 0 <= i < t.len() implies !row_is(#[trigger] t[i], q, ProtocolState::Login, Direction::Serverbound, n) by {
            assert(i == 0 || i == 1 || i == 2 || i == 3 || i == 4 || i == 5 || i == 6 || i == 7 || i == 8);
        }
        lemma_last_row_none(t, q, ProtocolState::Login, Direction::Serverbound, n);
    }
}

/// In the built-in registry, `ServerboundLoginAcknowledged` (Login, Serverbound) registered at protocol
/// 764 has id 0x03, and nothing registers it again after: every
/// protocol from protocol 764 on looks it up as 0x03.
pub proof fn lemma_default_serverbound_login_acknowledged_764(p: u32)
    requires
        764 <= p <= 4294967295,
    ensures
        versioned_id(
            default_buckets()[bucket_of(ProtocolState::Login, Direction::Serverbound)],
            p,
            "ServerboundLoginAcknowledged"@,
        ) == Some(0x03u8),
{
    let st = ProtocolState::Login;
    let dir = Direction::Serverbound;
    let n = "ServerboundLoginAcknowledged"@;
    let es = default_buckets()[bucket_of(st, dir)];
    assert forall|q: u32| 764 <= q <= 4294967295 implies #[trigger] lookup_id(es, q, n) == if q == 764 {
        Some(0x03u8)
    } else {
        None
    } by {
        lemma_default_lookup(q, st, dir, n);
        lemma_default_last(q, st, dir, n);
        lemma_pre_netty_rows_shape();
        lemma_last_row_none_outside(pre_netty_rows(), q, st, dir, n, ProtocolState::Login, 78, 78);
        lemma_handshake_rows_shape();
        lemma_last_row_none_outside(handshake_rows(), q, st, dir, n, ProtocolState::Handshake, 4, 4);
        lemma_status_rows_shape();
        lemma_last_row_none_outside(status_rows(), q, st, dir, n, ProtocolState::Status, 4, 4);
        lemma_login_rows_serverbound_login_acknowledged_764(q);
        lemma_configuration_rows_shape();
        lemma_last_row_none_outside(configuration_rows(), q, st, dir, n, ProtocolState::Configuration, 764, 766);
        lemma_play_a_rows_shape();
        lemma_last_row_none_outside(play_a_rows(), q, st, dir, n, ProtocolState::Play, 5, 47);
        lemma_play_b_rows_shape();
        lemma_last_row_none_outside(play_b_rows(), q, st, dir, n, ProtocolState::Play, 107, 393);
        lemma_play_c_rows_shape();
        lemma_last_row_none_outside(play_c_rows(), q, st, dir, n, ProtocolState::Play, 477, 755);
        lemma_play_d_rows_shape();
        lemma_last_row_none_outside(play_d_rows(), q, st, dir, n, ProtocolState::Play, 759, 767);
    }
    lemma_default_lookup(p, st, dir, n);
    lemma_versioned_from_lookups(es, n, 764, 4294967295, 0x03u8, p);
}

#[verifier::rlimit(100)]
#[verifier::spinoff_prover]
proof fn lemma_play_b_rows_serverbound_keep_alive_107(q: u32)
    requires
        107 <= q <= 392,
    ensures
        last_row_id(play_b_rows(), q, ProtocolState::Play, Direction::Serverbound, "ServerboundKeepAlive"@) == if q == 107 { Some(0x0Bu8) } else { None },
{
    reveal_strlit("ServerboundKeepAlive");
    assert("ServerboundKeepAlive"@.len() == 20);
    reveal_strlit("ServerboundChatMessage");
    assert("ServerboundChatMessage"@.len() == 22);
    reveal_strlit("ServerboundCustomPayload");
    assert("ServerboundCustomPayload"@.len() == 24);
    reveal_strlit("ServerboundPluginMessage");
    assert("ServerboundPluginMessage"@.len() == 24);
    let t = play_b_rows();
    let n = "ServerboundKeepAlive"@;
    if q == 107 {
        assert forall|i: int| 14 < i < t.len() implies !row_is(#[trigger] t[i], q, ProtocolState::Play, Direction::Serverbound, n) by {
            assert(i == 0 || i == 1 || i == 2 || i == 3 || i == 4 || i == 5 || i == 6 || i == 7 || i == 8 || i == 9 || i == 10 || i == 11 || i == 12 || i == 13 || i == 14 || i == 15 || i == 16 || i == 17 || i == 18 || i == 19 || i == 20 || i == 21 || i == 22 || i == 23 || i == 24 || i == 25 || i == 26 || i == 27 || i == 28 || i == 29 || i == 30 || i == 31 || i == 32 || i == 33 || i == 34 || i == 35 || i == 36 || i == 37 || i == 38 || i == 39 || i == 40);
        }
        assert(t[14] == (107u32, ProtocolState::Play, Direction::Serverbound, n, 0x0Bu8));
        lemma_last_row_at(t, q, ProtocolState::Play, Direction::Serverbound, n, 14);
    } else {
        assert forall|i: int| 0 <= i < t.len() implies !row_is(#[trigger] t[i], q, ProtocolState::Play, Direction::Serverbound, n) by {
            assert(i == 0 || i == 1 || i == 2 || i == 3 || i == 4 || i == 5 || i == 6 || i == 7 || i == 8 || i == 9 || i == 10 || i == 11 || i == 12 || i == 13 || i == 14 || i == 15 || i == 16 || i == 17 || i == 18 || i == 19 || i == 20 || i == 21 || i == 22 || i == 23 || i == 24 || i == 25 || i == 26 || i == 27 || i == 28 || i == 29 || i == 30 || i == 31 || i == 32 || i == 33 || i == 34 || i == 35 || i == 36 || i == 37 || i == 38 || i == 39 || i == 40);
        }
        lemma_last_row_none(t, q, ProtocolState::Play, Direction::Serverbound, n);
    }
}

/// In the built-in registry, `ServerboundKeepAlive` (Play, Serverbound) registered at protocol
/// 107 has id 0x0B, and nothing registers it again before 393: every
/// protocol from protocol 107 to 392 looks it up as 0x0B.
pub proof fn lemma_default_serverbound_keep_alive_107(p: u32)
    requires
        107 <= p <= 392,
    ensures
        versioned_id(
            default_buckets()[bucket_of(ProtocolState::Play, Direction::Serverbound)],
            p,
            "ServerboundKeepAlive"@,
        ) == Some(0x0Bu8),
{
    let st = ProtocolState::Play;
    let dir = Direction::Serverbound;
    let n = "ServerboundKeepAlive"@;
    let es = default_buckets()[bucket_of(st, dir)];
    assert forall|q: u32| 107 <= q <= 392 implies #[trigger] lookup_id(es, q, n) == if q == 107 {
        Some(0x0Bu8)
    } else {
        None
    } by {
        lemma_default_lookup(q, st, dir, n);
        lemma_default_last(q, st, dir, n);
        lemma_pre_netty_rows_shape();
        lemma_last_row_none_outside(pre_netty_rows(), q, st, dir, n, ProtocolState::Login, 78, 78);
        lemma_handshake_rows_shape();
        lemma_last_row_none_outside(handshake_rows(), q, st, dir, n, ProtocolState::Handshake, 4, 4);
        lemma_status_rows_shape();
        lemma_last_row_none_outside(status_rows(), q, st, dir, n, ProtocolState::Status, 4, 4);
        lemma_login_rows_shape();
        lemma_last_row_none_outside(login_rows(), q, st, dir, n, ProtocolState::Login, 4, 764);
        lemma_configuration_rows_shape();
        lemma_last_row_none_outside(configuration_rows(), q, st, dir, n, ProtocolState::Configuration, 764, 766);
        lemma_play_a_rows_shape();
        lemma_last_row_none_outside(play_a_rows(), q, st, dir, n, ProtocolState::Play, 5, 47);
        lemma_play_b_rows_serverbound_keep_alive_107(q);
        lemma_play_c_rows_shape();
        lemma_last_row_none_outside(play_c_rows(), q, st, dir, n, ProtocolState::Play, 477, 755);
        lemma_play_d_rows_shape();
        lemma_last_row_none_outside(play_d_rows(), q, st, dir, n, ProtocolState::Play, 759, 767);
    }
    lemma_default_lookup(p, st, dir, n);
    lemma_versioned_from_lookups(es, n, 107, 392, 0x0Bu8, p);
}

#[verifier::rlimit(100)]
#[verifier::spinoff_prover]
proof fn lemma_play_b_rows_serverbound_chat_message_107(q: u32)
    requires
        107 <= q <= 392,
    ensures
        last_row_id(play_b_rows(), q, ProtocolState::Play, Direction::Serverbound, "ServerboundChatMessage"@) == if q == 107 { Some(0x02u8) } else { None },
{
    reveal_strlit("ServerboundChatMessage");
    assert("ServerboundChatMessage"@.len() == 22);
    reveal_strlit("ServerboundCustomPayload");
    assert("ServerboundCustomPayload"@.len() == 24);
    reveal_strlit("ServerboundKeepAlive");
    assert("ServerboundKeepAlive"@.len() == 20);
    reveal_strlit("ServerboundPluginMessage");
    assert("ServerboundPluginMessage"@.len() == 24);
    let t = play_b_rows();
    let n = "ServerboundChatMessage"@;
    if q == 107 {
        assert forall|i: int| 15 < i < t.len() implies !row_is(#[trigger] t[i], q, ProtocolState::Play, Direction::Serverbound, n) by {
            assert(i == 0 || i == 1 || i == 2 || i == 3 || i == 4 || i == 5 || i == 6 || i == 7 || i == 8 || i == 9 || i == 10 || i == 11 || i == 12 || i == 13 || i == 14 || i == 15 || i == 16 || i == 17 || i == 18 || i == 19 || i == 20 || i == 21 || i == 22 || i == 23 || i == 24 || i == 25 || i == 26 || i == 27 || i == 28 || i == 29 || i == 30 || i == 31 || i == 32 || i == 33 || i == 34 || i == 35 || i == 36 || i == 37 || i == 38 || i == 39 || i == 40);
        }
        assert(t[15] == (107u32, ProtocolState::Play, Direction::Serverbound, n, 0x02u8));
        lemma_last_row_at(t, q, ProtocolState::Play, Direction::Serverbound, n, 15);
    } else {
        assert forall|i: int| 0 <= i < t.len() implies !row_is(#[trigger] t[i], q, ProtocolState::Play, Direction::Serverbound, n) by {
            assert(i == 0 || i == 1 || i == 2 || i == 3 || i == 4 || i == 5 || i == 6 || i == 7 || i == 8 || i == 9 || i == 10 || i == 11 || i == 12 || i == 13 || i == 14 || i == 15 || i == 16 || i == 17 || i == 18 || i == 19 || i == 20 || i == 21 || i == 22 || i == 23 || i == 24 || i == 25 || i == 26 || i == 27 || i == 28 || i == 29 || i == 30 || i == 31 || i == 32 || i == 33 || i == 34 || i == 35 || i == 36 || i == 37 || i == 38 || i == 39 || i == 40);
        }
        lemma_last_row_none(t, q, ProtocolState::Play, Direction::Serverbound, n);
    }
}

/// In the built-in registry, `ServerboundChatMessage` (Play, Serverbound) registered at protocol
/// 107 has id 0x02, and nothing registers it again before 393: every
/// protocol from protocol 107 to 392 looks it up as 0x02.
pub proof fn lemma_default_serverbound_chat_message_107(p: u32)
    requires
        107 <= p <= 392,
    ensures
        versioned_id(
            default_buckets()[bucket_of(ProtocolState::Play, Direction::Serverbound)],
            p,
            "ServerboundChatMessage"@,
        ) == Some(0x02u8),
{
    let st = ProtocolState::Play;
    let dir = Direction::Serverbound;
    let n = "ServerboundChatMessage"@;
    let es = default_buckets()[bucket_of(st, dir)];
    assert forall|q: u32| 107 <= q <= 392 implies #[trigger] lookup_id(es, q, n) == if q == 107 {
        Some(0x02u8)
    } else {
        None
    } by {
        lemma_default_lookup(q, st, dir, n);
        lemma_default_last(q, st, dir, n);
        lemma_pre_netty_rows_shape();
        lemma_last_row_none_outside(pre_netty_rows(), q, st, dir, n, ProtocolState::Login, 78, 78);
        lemma_handshake_rows_shape();
        lemma_last_row_none_outside(handshake_rows(), q, st, dir, n, ProtocolState::Handshake, 4, 4);
        lemma_status_rows_shape();
        lemma_last_row_none_outside(status_rows(), q, st, dir, n, ProtocolState::Status, 4, 4);
        lemma_login_rows_shape();
        lemma_last_row_none_outside(login_rows(), q, st, dir, n, ProtocolState::Login, 4, 764);
        lemma_configuration_rows_shape();
        lemma_last_row_none_outside(configuration_rows(), q, st, dir, n, ProtocolState::Configuration, 764, 766);
        lemma_play_a_rows_shape();
        lemma_last_row_none_outside(play_a_rows(), q, st, dir, n, ProtocolState::Play, 5, 47);
        lemma_play_b_rows_serverbound_chat_message_107(q);
        lemma_play_c_rows_shape();
        lemma_last_row_none_outside(play_c_rows(), q, st, dir, n, ProtocolState::Play, 477, 755);
        lemma_play_d_rows_shape();
        lemma_last_row_none_outside(play_d_rows(), q, st, dir, n, ProtocolState::Play, 759, 767);
    }
    lemma_default_lookup(p, st, dir, n);
    lemma_versioned_from_lookups(es, n, 107, 392, 0x02u8, p);
}

#[verifier::rlimit(100)]
#[verifier::spinoff_prover]
proof fn lemma_play_b_rows_clientbound_player_position_335(q: u32)
    requires
        335 <= q <= 392,
    ensures
        last_row_id(play_b_rows(), q, ProtocolState::Play, Direction::Clientbound, "ClientboundPlayerPosition"@) == if q == 335 { Some(0x2Fu8) } else { None },
{
    reveal_strlit("ClientboundPlayerPosition");
    assert("ClientboundPlayerPosition"@.len() == 25);
    reveal_strlit("ClientboundPlayerAbilities");
    assert("ClientboundPlayerAbilities"@.len() == 26);
    reveal_strlit("ClientboundRespawn");
    assert("ClientboundRespawn"@.len() == 18);
    reveal_strlit("ClientboundSetCarriedItem");
    assert("ClientboundSetCarriedItem"@.len() == 25);
    assert("ClientboundSetCarriedItem"@[11] != "ClientboundPlayerPosition"@[11]);
    reveal_strlit("ClientboundSetHeldItem");
    assert("ClientboundSetHeldItem"@.len() == 22);
    let t = play_b_rows();
    let n = "ClientboundPlayerPosition"@;
    if q == 335 {
        assert forall|i: int| 19 < i < t.len() implies !row_is(#[trigger] t[i], q, ProtocolState::Play, Direction::Clientbound, n) by {
            assert(i == 0 || i == 1 || i == 2 || i == 3 || i == 4 || i == 5 || i == 6 || i == 7 || i == 8 || i == 9 || i == 10 || i == 11 || i == 12 || i == 13 || i == 14 || i == 15 || i == 16 || i == 17 || i == 18 || i == 19 || i == 20 || i == 21 || i == 22 || i == 23 || i == 24 || i == 25 || i == 26 || i == 27 || i == 28 || i == 29 || i == 30 || i == 31 || i == 32 || i == 33 || i == 34 || i == 35 || i == 36 || i == 37 || i == 38 || i == 39 || i == 40);
        }
        assert(t[19] == (335u32, ProtocolState::Play, Direction::Clientbound, n, 0x2Fu8));
        lemma_last_row_at(t, q, ProtocolState::Play, Direction::Clientbound, n, 19);
    } else {
        assert forall|i: int| 0 <= i < t.len() implies !row_is(#[trigger] t[i], q, ProtocolState::Play, Direction::Clientbound, n) by {
            assert(i == 0 || i == 1 || i == 2 || i == 3 || i == 4 || i == 5 || i == 6 || i == 7 || i == 8 || i == 9 || i == 10 || i == 11 || i == 12 || i == 13 || i == 14 || i == 15 || i == 16 || i == 17 || i == 18 || i == 19 || i == 20 || i == 21 || i == 22 || i == 23 || i == 24 || i == 25 || i == 26 || i == 27 || i == 28 || i == 29 || i == 30 || i == 31 || i == 32 || i == 33 || i == 34 || i == 35 || i == 36 || i == 37 || i == 38 || i == 39 || i == 40);
        }
        lemma_last_row_none(t, q, ProtocolState::Play, Direction::Clientbound, n);
    }
}

/// In the built-in registry, `ClientboundPlayerPosition` (Play, Clientbound) registered at protocol
/// 335 has id 0x2F, and nothing registers it again before 393: every
/// protocol from protocol 335 to 392 looks it up as 0x2F.
pub proof fn lemma_default_clientbound_player_position_335(p: u32)
    requires
        335 <= p <= 392,
    ensures
        versioned_id(
            default_buckets()[bucket_of(ProtocolState::Play, Direction::Clientbound)],
            p,
            "ClientboundPlayerPosition"@,
        ) == Some(0x2Fu8),
{
    let st = ProtocolState::Play;
    let dir = Direction::Clientbound;
    let n = "ClientboundPlayerPosition"@;
    let es = default_buckets()[bucket_of(st, dir)];
    assert forall|q: u32| 335 <= q <= 392 implies #[trigger] lookup_id(es, q, n) == if q == 335 {
        Some(0x2Fu8)
    } else {
        None
    } by {
        lemma_default_lookup(q, st, dir, n);
        lemma_default_last(q, st, dir, n);
        lemma_pre_netty_rows_shape();
        lemma_last_row_none_outside(pre_netty_rows(), q, st, dir, n, ProtocolState::Login, 78, 78);
        lemma_handshake_rows_shape();
        lemma_last_row_none_outside(handshake_rows(), q, st, dir, n, ProtocolState::Handshake, 4, 4);
        lemma_status_rows_shape();
        lemma_last_row_none_outside(status_rows(), q, st, dir, n, ProtocolState::Status, 4, 4);
        lemma_login_rows_shape();
        lemma_last_row_none_outside(login_rows(), q, st, dir, n, ProtocolState::Login, 4, 764);
        lemma_configuration_rows_shape();
        lemma_last_row_none_outside(configuration_rows(), q, st, dir, n, ProtocolState::Configuration, 764, 766);
        lemma_play_a_rows_shape();
        lemma_last_row_none_outside(play_a_rows(), q, st, dir, n, ProtocolState::Play, 5, 47);
        lemma_play_b_rows_clientbound_player_position_335(q);
        lemma_play_c_rows_shape();
        lemma_last_row_none_outside(play_c_rows(), q, st, dir, n, ProtocolState::Play, 477, 755);
        lemma_play_d_rows_shape();
        lemma_last_row_none_outside(play_d_rows(), q, st, dir, n, ProtocolState::Play, 759, 767);
    }
    lemma_default_lookup(p, st, dir, n);
    lemma_versioned_from_lookups(es, n, 335, 392, 0x2Fu8, p);
}

#[verifier::rlimit(100)]
#[verifier::spinoff_prover]
proof fn lemma_play_b_rows_clientbound_respawn_335(q: u32)
    requires
        335 <= q <= 392,
    ensures
        last_row_id(play_b_rows(), q, ProtocolState::Play, Direction::Clientbound, "ClientboundRespawn"@) == if q == 335 { Some(0x35u8) } else { None },
{
    reveal_strlit("ClientboundRespawn");
    assert("ClientboundRespawn"@.len() == 18);
    reveal_strlit("ClientboundPlayerAbilities");
    assert("ClientboundPlayerAbilities"@.len() == 26);
    reveal_strlit("ClientboundPlayerPosition");
    assert("ClientboundPlayerPosition"@.len() == 25);
    reveal_strlit("ClientboundSetCarriedItem");
    assert("ClientboundSetCarriedItem"@.len() == 25);
    reveal_strlit("ClientboundSetHeldItem");
    assert("ClientboundSetHeldItem"@.len() == 22);
    let t = play_b_rows();
    let n = "ClientboundRespawn"@;
    if q == 335 {
        assert forall|i: int| 18 < i < t.len() implies !row_is(#[trigger] t[i], q, ProtocolState::Play, Direction::Clientbound, n) by {
            assert(i == 0 || i == 1 || i == 2 || i == 3 || i == 4 || i == 5 || i == 6 || i == 7 || i == 8 || i == 9 || i == 10 || i == 11 || i == 12 || i == 13 || i == 14 || i == 15 || i == 16 || i == 17 || i == 18 || i == 19 || i == 20 || i == 21 || i == 22 || i == 23 || i == 24 || i == 25 || i == 26 || i == 27 || i == 28 || i == 29 || i == 30 || i == 31 || i == 32 || i == 33 || i == 34 || i == 35 || i == 36 || i == 37 || i == 38 || i == 39 || i == 40);
        }
        assert(t[18] == (335u32, ProtocolState::Play, Direction::Clientbound, n, 0x35u8));
        lemma_last_row_at(t, q, ProtocolState::Play, Direction::Clientbound, n, 18);
    } else {
        assert forall|i: int| 0 <= i < t.len() implies !row_is(#[trigger] t[i], q, ProtocolState::Play, Direction::Clientbound, n) by {
            assert(i == 0 || i == 1 || i == 2 || i == 3 || i == 4 || i == 5 || i == 6 || i == 7 || i == 8 || i == 9 || i == 10 || i == 11 || i == 12 || i == 13 || i == 14 || i == 15 || i == 16 || i == 17 || i == 18 || i == 19 || i == 20 || i == 21 || i == 22 || i == 23 || i == 24 || i == 25 || i == 26 || i == 27 || i == 28 || i == 29 || i == 30 || i == 31 || i == 32 || i == 33 || i == 34 || i == 35 || i == 36 || i == 37 || i == 38 || i == 39 || i == 40);
        }
        lemma_last_row_none(t, q, ProtocolState::Play, Direction::Clientbound, n);
    }
}

/// In the built-in registry, `ClientboundRespawn` (Play, Clientbound) registered at protocol
/// 335 has id 0x35, and nothing registers it again before 393: every
/// protocol from protocol 335 to 392 looks it up as 0x35.
pub proof fn lemma_default_clientbound_respawn_335(p: u32)
    requires
        335 <= p <= 392,
    ensures
        versioned_id(
            default_buckets()[bucket_of(ProtocolState::Play, Direction::Clientbound)],
            p,
            "ClientboundRespawn"@,
        ) == Some(0x35u8),
{
    let st = ProtocolState::Play;
    let dir = Direction::Clientbound;
    let n = "ClientboundRespawn"@;
    let es = default_buckets()[bucket_of(st, dir)];
    assert forall|q: u32| 335 <= q <= 392 implies #[trigger] lookup_id(es, q, n) == if q == 335 {
        Some(0x35u8)
    } else {
        None
    } by {
        lemma_default_lookup(q, st, dir, n);
        lemma_default_last(q, st, dir, n);
        lemma_pre_netty_rows_shape();
        lemma_last_row_none_outside(pre_netty_rows(), q, st, dir, n, ProtocolState::Login, 78, 78);
        lemma_handshake_rows_shape();
        lemma_last_row_none_outside(handshake_rows(), q, st, dir, n, ProtocolState::Handshake, 4, 4);
        lemma_status_rows_shape();
        lemma_last_row_none_outside(status_rows(), q, st, dir, n, ProtocolState::Status, 4, 4);
        lemma_login_rows_shape();
        lemma_last_row_none_outside(login_rows(), q, st, dir, n, ProtocolState::Login, 4, 764);
        lemma_configuration_rows_shape();
        lemma_last_row_none_outside(configuration_rows(), q, st, dir, n, ProtocolState::Configuration, 764, 766);
        lemma_play_a_rows_shape();
        lemma_last_row_none_outside(play_a_rows(), q, st, dir, n, ProtocolState::Play, 5, 47);
        lemma_play_b_rows_clientbound_respawn_335(q);
        lemma_play_c_rows_shape();
        lemma_last_row_none_outside(play_c_rows(), q, st, dir, n, ProtocolState::Play, 477, 755);
        lemma_play_d_rows_shape();
        lemma_last_row_none_outside(play_d_rows(), q, st, dir, n, ProtocolState::Play, 759, 767);
    }
    lemma_default_lookup(p, st, dir, n);
    lemma_versioned_from_lookups(es, n, 335, 392, 0x35u8, p);
}

#[verifier::rlimit(100)]
#[verifier::spinoff_prover]
proof fn lemma_play_c_rows_clientbound_keep_alive_735(q: u32)
    requires
        735 <= q <= 754,
    ensures
        last_row_id(play_c_rows(), q, ProtocolState::Play, Direction::Clientbound, "ClientboundKeepAlive"@) == if q == 735 { Some(0x1Fu8) } else { None },
{
    reveal_strlit("ClientboundKeepAlive");
    assert("ClientboundKeepAlive"@.len() == 20);
    reveal_strlit("ClientboundBossBar");
    assert("ClientboundBossBar"@.len() == 18);
    reveal_strlit("ClientboundChatMessage");
    assert("ClientboundChatMessage"@.len() == 22);
    reveal_strlit("ClientboundCustomPayload");
    assert("ClientboundCustomPayload"@.len() == 24);
    reveal_strlit("ClientboundDisconnect");
    assert("ClientboundDisconnect"@.len() == 21);
    reveal_strlit("ClientboundJoinGame");
    assert("ClientboundJoinGame"@.len() == 19);
    reveal_strlit("ClientboundLevelChunkWithLight");
    assert("ClientboundLevelChunkWithLight"@.len() == 30);
    reveal_strlit("ClientboundNamedSoundEffect");
    assert("ClientboundNamedSoundEffect"@.len() == 27);
    reveal_strlit("ClientboundPlayerAbilities");
    assert("ClientboundPlayerAbilities"@.len() == 26);
    reveal_strlit("ClientboundPlayerPosition");
    assert("ClientboundPlayerPosition"@.len() == 25);
    reveal_strlit("ClientboundPluginMessage");
    assert("ClientboundPluginMessage"@.len() == 24);
    reveal_strlit("ClientboundRespawn");
    assert("ClientboundRespawn"@.len() == 18);
    reveal_strlit("ClientboundSetCarriedItem");
    assert("ClientboundSetCarriedItem"@.len() == 25);
    reveal_strlit("ClientboundSetHeldItem");
    assert("ClientboundSetHeldItem"@.len() == 22);
    reveal_strlit("ClientboundSound");
    assert("ClientboundSound"@.len() == 16);
    let t = play_c_rows();
    let n = "ClientboundKeepAlive"@;
    if q == 735 {
        assert forall|i: int| 28 < i < t.len() implies !row_is(#[trigger] t[i], q, ProtocolState::Play, Direction::Clientbound, n) by {
            assert(i == 0 || i == 1 || i == 2 || i == 3 || i == 4 || i == 5 || i == 6 || i == 7 || i == 8 || i == 9 || i == 10 || i == 11 || i == 12 || i == 13 || i == 14 || i == 15 || i == 16 || i == 17 || i == 18 || i == 19 || i == 20 || i == 21 || i == 22 || i == 23 || i == 24 || i == 25 || i == 26 || i == 27 || i == 28 || i == 29 || i == 30 || i == 31 || i == 32 || i == 33 || i == 34 || i == 35 || i == 36 || i == 37 || i == 38 || i == 39 || i == 40 || i == 41 || i == 42 || i == 43 || i == 44 || i == 45 || i == 46 || i == 47 || i == 48 || i == 49 || i == 50 || i == 51 || i == 52 || i == 53 || i == 54 || i == 55 || i == 56 || i == 57 || i == 58);
        }
        assert(t[28] == (735u32, ProtocolState::Play, Direction::Clientbound, n, 0x1Fu8));
        lemma_last_row_at(t, q, ProtocolState::Play, Direction::Clientbound, n, 28);
    } else {
        assert forall|i: int| 0 <= i < t.len() implies !row_is(#[trigger] t[i], q, ProtocolState::Play, Direction::Clientbound, n) by {
            assert(i == 0 || i == 1 || i == 2 || i == 3 || i == 4 || i == 5 || i == 6 || i == 7 || i == 8 || i == 9 || i == 10 || i == 11 || i == 12 || i == 13 || i == 14 || i == 15 || i == 16 || i == 17 || i == 18 || i == 19 || i == 20 || i == 21 || i == 22 || i == 23 || i == 24 || i == 25 || i == 26 || i == 27 || i == 28 || i == 29 || i == 30 || i == 31 || i == 32 || i == 33 || i == 34 || i == 35 || i == 36 || i == 37 || i == 38 || i == 39 || i == 40 || i == 41 || i == 42 || i == 43 || i == 44 || i == 45 || i == 46 || i == 47 || i == 48 || i == 49 || i == 50 || i == 51 || i == 52 || i == 53 || i == 54 || i == 55 || i == 56 || i == 57 || i == 58);
        }
        lemma_last_row_none(t, q, ProtocolState::Play, Direction::Clientbound, n);
    }
}

/// In the built-in registry, `ClientboundKeepAlive` (Play, Clientbound) registered at protocol
/// 735 has id 0x1F, and nothing registers it again before 755: every
/// protocol from protocol 735 to 754 looks it up as 0x1F.
pub proof fn lemma_default_clientbound_keep_alive_735(p: u32)
    requires
        735 <= p <= 754,
    ensures
        versioned_id(
            default_buckets()[bucket_of(ProtocolState::Play, Direction::Clientbound)],
            p,
            "ClientboundKeepAlive"@,
        ) == Some(0x1Fu8),
{
    let st = ProtocolState::Play;
    let dir = Direction::Clientbound;
    let n = "ClientboundKeepAlive"@;
    let es = default_buckets()[bucket_of(st, dir)];
    assert forall|q: u32| 735 <= q <= 754 implies #[trigger] lookup_id(es, q, n) == if q == 735 {
        Some(0x1Fu8)
    } else {
        None
    } by {
        lemma_default_lookup(q, st, dir, n);
        lemma_default_last(q, st, dir, n);
        lemma_pre_netty_rows_shape();
        lemma_last_row_none_outside(pre_netty_rows(), q, st, dir, n, ProtocolState::Login, 78, 78);
        lemma_handshake_rows_shape();
        lemma_last_row_none_outside(handshake_rows(), q, st, dir, n, ProtocolState::Handshake, 4, 4);
        lemma_status_rows_shape();
        lemma_last_row_none_outside(status_rows(), q, st, dir, n, ProtocolState::Status, 4, 4);
        lemma_login_rows_shape();
        lemma_last_row_none_outside(login_rows(), q, st, dir, n, ProtocolState::Login, 4, 764);
        lemma_configuration_rows_shape();
        lemma_last_row_none_outside(configuration_rows(), q, st, dir, n, ProtocolState::Configuration, 764, 766);
        lemma_play_a_rows_shape();
        lemma_last_row_none_outside(play_a_rows(), q, st, dir, n, ProtocolState::Play, 5, 47);
        lemma_play_b_rows_shape();
        lemma_last_row_none_outside(play_b_rows(), q, st, dir, n, ProtocolState::Play, 107, 393);
        lemma_play_c_rows_clientbound_keep_alive_735(q);
        lemma_play_d_rows_shape();
        lemma_last_row_none_outside(play_d_rows(), q, st, dir, n, ProtocolState::Play, 759, 767);
    }
    lemma_default_lookup(p, st, dir, n);
    lemma_versioned_from_lookups(es, n, 735, 754, 0x1Fu8, p);
}

#[verifier::rlimit(100)]
#[verifier::spinoff_prover]
proof fn lemma_play_d_rows_clientbound_keep_alive_759(q: u32)
    requires
        759 <= q <= 761,
    ensures
        last_row_id(play_d_rows(), q, ProtocolState::Play, Direction::Clientbound, "ClientboundKeepAlive"@) == if q == 759 { Some(0x1Eu8) } else { None },
{
    reveal_strlit("ClientboundKeepAlive");
    assert("ClientboundKeepAlive"@.len() == 20);
    reveal_strlit("ClientboundCustomPayload");
    assert("ClientboundCustomPayload"@.len() == 24);
    reveal_strlit("ClientboundDisconnect");
    assert("ClientboundDisconnect"@.len() == 21);
    reveal_strlit("ClientboundJoinGame");
    assert("ClientboundJoinGame"@.len() == 19);
    reveal_strlit("ClientboundLogin");
    assert("ClientboundLogin"@.len() == 16);
    reveal_strlit("ClientboundPlayerAbilities");
    assert("ClientboundPlayerAbilities"@.len() == 26);
    reveal_strlit("ClientboundPlayerPosition");
    assert("ClientboundPlayerPosition"@.len() == 25);
    reveal_strlit("ClientboundPluginMessage");
    assert("ClientboundPluginMessage"@.len() == 24);
    reveal_strlit("ClientboundRespawn");
    assert("ClientboundRespawn"@.len() == 18);
    reveal_strlit("ClientboundSetCarriedItem");
    assert("ClientboundSetCarriedItem"@.len() == 25);
    reveal_strlit("ClientboundSetHeldItem");
    assert("ClientboundSetHeldItem"@.len() == 22);
    reveal_strlit("ClientboundSound");
    assert("ClientboundSound"@.len() == 16);
    reveal_strlit("ClientboundSystemChat");
    assert("ClientboundSystemChat"@.len() == 21);
    let t = play_d_rows();
    let n = "ClientboundKeepAlive"@;
    if q == 759 {
        assert forall|i: int| 0 < i < t.len() implies !row_is(#[trigger] t[i], q, ProtocolState::Play, Direction::Clientbound, n) by {
            assert(i == 0 || i == 1 || i == 2 || i == 3 || i == 4 || i == 5 || i == 6 || i == 7 || i == 8 || i == 9 || i == 10 || i == 11 || i == 12 || i == 13 || i == 14 || i == 15 || i == 16 || i == 17 || i == 18 || i == 19 || i == 20 || i == 21 || i == 22 || i == 23 || i == 24 || i == 25 || i == 26 || i == 27 || i == 28 || i == 29 || i == 30 || i == 31 || i == 32 || i == 33 || i == 34 || i == 35 || i == 36 || i == 37 || i == 38 || i == 39 || i == 40 || i == 41 || i == 42 || i == 43 || i == 44 || i == 45 || i == 46 || i == 47 || i == 48 || i == 49 || i == 50 || i == 51 || i == 52 || i == 53 || i == 54 || i == 55 || i == 56 || i == 57 || i == 58 || i == 59 || i == 60 || i == 61 || i == 62 || i == 63 || i == 64 || i == 65);
        }
        assert(t[0] == (759u32, ProtocolState::Play, Direction::Clientbound, n, 0x1Eu8));
        lemma_last_row_at(t, q, ProtocolState::Play, Direction::Clientbound, n, 0);
    } else {
        assert forall|i: int| 0 <= i < t.len() implies !row_is(#[trigger] t[i], q, ProtocolState::Play, Direction::Clientbound, n) by {
            assert(i == 0 || i == 1 || i == 2 || i == 3 || i == 4 || i == 5 || i == 6 || i == 7 || i == 8 || i == 9 || i == 10 || i == 11 || i == 12 || i == 13 || i == 14 || i == 15 || i == 16 || i == 17 || i == 18 || i == 19 || i == 20 || i == 21 || i == 22 || i == 23 || i == 24 || i == 25 || i == 26 || i == 27 || i == 28 || i == 29 || i == 30 || i == 31 || i == 32 || i == 33 || i == 34 || i == 35 || i == 36 || i == 37 || i == 38 || i == 39 || i == 40 || i == 41 || i == 42 || i == 43 || i == 44 || i == 45 || i == 46 || i == 47 || i == 48 || i == 49 || i == 50 || i == 51 || i == 52 || i == 53 || i == 54 || i == 55 || i == 56 || i == 57 || i == 58 || i == 59 || i == 60 || i == 61 || i == 62 || i == 63 || i == 64 || i == 65);
        }
        lemma_last_row_none(t, q, ProtocolState::Play, Direction::Clientbound, n);
    }
}

/// In the built-in registry, `ClientboundKeepAlive` (Play, Clientbound) registered at protocol
/// 759 has id 0x1E, and nothing registers it again before 762: every
/// protocol from protocol 759 to 761 looks it up as 0x1E.
pub proof fn lemma_default_clientbound_keep_alive_759(p: u32)
    requires
        759 <= p <= 761,
    ensures
        versioned_id(
            default_buckets()[bucket_of(ProtocolState::Play, Direction::Clientbound)],
            p,
            "ClientboundKeepAlive"@,
        ) == Some(0x1Eu8),
{
    let st = ProtocolState::Play;
    let dir = Direction::Clientbound;
    let n = "ClientboundKeepAlive"@;
    let es = default_buckets()[bucket_of(st, dir)];
    assert forall|q: u32| 759 <= q <= 761 implies #[trigger] lookup_id(es, q, n) == if q == 759 {
        Some(0x1Eu8)
    } else {
        None
    } by {
        lemma_default_lookup(q, st, dir, n);
        lemma_default_last(q, st, dir, n);
        lemma_pre_netty_rows_shape();
        lemma_last_row_none_outside(pre_netty_rows(), q, st, dir, n, ProtocolState::Login, 78, 78);
        lemma_handshake_rows_shape();
        lemma_last_row_none_outside(handshake_rows(), q, st, dir, n, ProtocolState::Handshake, 4, 4);
        lemma_status_rows_shape();
        lemma_last_row_none_outside(status_rows(), q, st, dir, n, ProtocolState::Status, 4, 4);
        lemma_login_rows_shape();
        lemma_last_row_none_outside(login_rows(), q, st, dir, n, ProtocolState::Login, 4, 764);
        lemma_configuration_rows_shape();
        lemma_last_row_none_outside(configuration_rows(), q, st, dir, n, ProtocolState::Configuration, 764, 766);
        lemma_play_a_rows_shape();
        lemma_last_row_none_outside(play_a_rows(), q, st, dir, n, ProtocolState::Play, 5, 47);
        lemma_play_b_rows_shape();
        lemma_last_row_none_outside(play_b_rows(), q, st, dir, n, ProtocolState::Play, 107, 393);
        lemma_play_c_rows_shape();
        lemma_last_row_none_outside(play_c_rows(), q, st, dir, n, ProtocolState::Play, 477, 755);
        lemma_play_d_rows_clientbound_keep_alive_759(q);
    }
    lemma_default_lookup(p, st, dir, n);
    lemma_versioned_from_lookups(es, n, 759, 761, 0x1Eu8, p);
}

#[verifier::rlimit(100)]
#[verifier::spinoff_prover]
proof fn lemma_pre_netty_rows_serverbound_login_acknowledged_before_764(q: u32)
    requires
        q <= 763,
    ensures
        last_row_id(pre_netty_rows(), q, ProtocolState::Login, Direction::Serverbound, "ServerboundLoginAcknowledged"@) is None,
{
    reveal_strlit("ServerboundLoginAcknowledged");
    assert("ServerboundLoginAcknowledged"@.len() == 28);
    reveal_strlit("EncryptionKeyResponseC2S");
    assert("EncryptionKeyResponseC2S"@.len() == 24);
    reveal_strlit("HandshakeC2S");
    assert("HandshakeC2S"@.len() == 12);
    let t = pre_netty_rows();
    let n = "ServerboundLoginAcknowledged"@;
    assert forall|i: int| 0 <= i < t.len() implies !row_is(#[trigger] t[i], q, ProtocolState::Login, Direction::Serverbound, n) by {
        assert(i == 0 || i == 1 || i == 2 || i == 3);
    }
    lemma_last_row_none(t, q, ProtocolState::Login, Direction::Serverbound, n);
}

#[verifier::rlimit(100)]
#[verifier::spinoff_prover]
proof fn lemma_login_rows_serverbound_login_acknowledged_before_764(q: u32)
    requires
        q <= 763,
    ensures
        last_row_id(login_rows(), q, ProtocolState::Login, Direction::Serverbound, "ServerboundLoginAcknowledged"@) is None,
{
    reveal_strlit("ServerboundLoginAcknowledged");
    assert("ServerboundLoginAcknowledged"@.len() == 28);
    reveal_strlit("ServerboundEncryptionResponse");
    assert("ServerboundEncryptionResponse"@.len() == 29);
    reveal_strlit("ServerboundLoginPluginResponse");
    assert("ServerboundLoginPluginResponse"@.len() == 30);
    reveal_strlit("ServerboundLoginStart");
    assert("ServerboundLoginStart"@.len() == 21);
    let t = login_rows();
    let n = "ServerboundLoginAcknowledged"@;
    assert forall|i: int| 0 <= i < t.len() implies !row_is(#[trigger] t[i], q, ProtocolState::Login, Direction::Serverbound, n) by {
        assert(i == 0 || i == 1 || i == 2 || i == 3 || i == 4 || i == 5 || i == 6 || i == 7 || i == 8);
    }
    lemma_last_row_none(t, q, ProtocolState::Login, Direction::Serverbound, n);
}

/// In the built-in registry, `ServerboundLoginAcknowledged` (Login, Serverbound) first appears at
/// protocol 764: every protocol before it finds no id.
pub proof fn lemma_default_serverbound_login_acknowledged_before_764(p: u32)
    requires
        p <= 763,
    ensures
        versioned_id(
            default_buckets()[bucket_of(ProtocolState::Login, Direction::Serverbound)],
            p,
            "ServerboundLoginAcknowledged"@,
        ) is None,
{
    let st = ProtocolState::Login;
    let dir = Direction::Serverbound;
    let n = "ServerboundLoginAcknowledged"@;
    let es = default_buckets()[bucket_of(st, dir)];
    assert forall|q: u32| q <= p implies !#[trigger] registered_at(es, q, n) by {
        lemma_default_lookup(q, st, dir, n);
        lemma_default_last(q, st, dir, n);
        lemma_pre_netty_rows_serverbound_login_acknowledged_before_764(q);
        lemma_handshake_rows_shape();
        lemma_last_row_none_outside(handshake_rows(), q, st, dir, n, ProtocolState::Handshake, 4, 4);
        lemma_status_rows_shape();
        lemma_last_row_none_outside(status_rows(), q, st, dir, n, ProtocolState::Status, 4, 4);
        lemma_login_rows_serverbound_login_acknowledged_before_764(q);
        lemma_configuration_rows_shape();
        lemma_last_row_none_outside(configuration_rows(), q, st, dir, n, ProtocolState::Configuration, 764, 766);
        lemma_play_a_rows_shape();
        lemma_last_row_none_outside(play_a_rows(), q, st, dir, n, ProtocolState::Play, 5, 47);
        lemma_play_b_rows_shape();
        lemma_last_row_none_outside(play_b_rows(), q, st, dir, n, ProtocolState::Play, 107, 393);
        lemma_play_c_rows_shape();
        lemma_last_row_none_outside(play_c_rows(), q, st, dir, n, ProtocolState::Play, 477, 755);
        lemma_play_d_rows_shape();
        lemma_last_row_none_outside(play_d_rows(), q, st, dir, n, ProtocolState::Play, 759, 767);
    }
    lemma_default_lookup(p, st, dir, n);
    lemma_versioned_is_highest_exact(es, p, n);
}

/// In the built-in registry, `FinishConfiguration` (Configuration, Clientbound) first appears at
/// protocol 764: every protocol before it finds no id.
pub proof fn lemma_default_finish_configuration_before_764(p: u32)
    requires
        p <= 763,
    ensures
        versioned_id(
            default_buckets()[bucket_of(ProtocolState::Configuration, Direction::Clientbound)],
            p,
            "FinishConfiguration"@,
        ) is None,
{
    let st = ProtocolState::Configuration;
    let dir = Direction::Clientbound;
    let n = "FinishConfiguration"@;
    let es = default_buckets()[bucket_of(st, dir)];
    assert forall|q: u32| q <= p implies !#[trigger] registered_at(es, q, n) by {
        lemma_default_lookup(q, st, dir, n);
        lemma_default_last(q, st, dir, n);
        lemma_pre_netty_rows_shape();
        lemma_last_row_none_outside(pre_netty_rows(), q, st, dir, n, ProtocolState::Login, 78, 78);
        lemma_handshake_rows_shape();
        lemma_last_row_none_outside(handshake_rows(), q, st, dir, n, ProtocolState::Handshake, 4, 4);
        lemma_status_rows_shape();
        lemma_last_row_none_outside(status_rows(), q, st, dir, n, ProtocolState::Status, 4, 4);
        lemma_login_rows_shape();
        lemma_last_row_none_outside(login_rows(), q, st, dir, n, ProtocolState::Login, 4, 764);
        lemma_configuration_rows_shape();
        lemma_last_row_none_outside(configuration_rows(), q, st, dir, n, ProtocolState::Configuration, 764, 766);
        lemma_play_a_rows_shape();
        lemma_last_row_none_outside(play_a_rows(), q, st, dir, n, ProtocolState::Play, 5, 47);
        lemma_play_b_rows_shape();
        lemma_last_row_none_outside(play_b_rows(), q, st, dir, n, ProtocolState::Play, 107, 393);
        lemma_play_c_rows_shape();
        lemma_last_row_none_outside(play_c_rows(), q, st, dir, n, ProtocolState::Play, 477, 755);
        lemma_play_d_rows_shape();
        lemma_last_row_none_outside(play_d_rows(), q, st, dir, n, ProtocolState::Play, 759, 767);
    }
    lemma_default_lookup(p, st, dir, n);
    lemma_versioned_is_highest_exact(es, p, n);
}

impl PacketRegistry {
    /// Registers the rows of `table` in order.
    fn register_rows(&mut self, table: Vec<Entry>)
        requires
            old(self).wf(),
        ensures
            final(self).wf(),
            final(self).buckets() == register_all(
                old(self).buckets(),
                table@.map_values(|e: Entry| entry_spec(e)),
            ),
    {
        let ghost start = self.buckets();
        let ghost rows = table@.map_values(|e: Entry| entry_spec(e));
        let n = table.len();
        let mut i: usize = 0;
        while i < n
            invariant
                n == table.len(),
                rows == table@.map_values(|e: Entry| entry_spec(e)),
                i <= n,
                self.wf(),
                self.buckets() == register_all(start, rows.take(i as int)),
            decreases n - i,
        {
            let (proto, state, dir, name, id) = table[i];
            proof {
                assert(rows.take(i as int + 1).drop_last() =~= rows.take(i as int));
                assert(rows.take(i as int + 1).last() == entry_spec(table@[i as int]));
            }
            self.register(proto, state, dir, name, id);
            i += 1;
        }
        assert(rows.take(n as int) =~= rows);
    }
}

/// The registry with the built-in table: every row registered in order.
pub fn build_default_registry() -> (r: PacketRegistry)
    ensures
        r.wf(),
        r.buckets() == default_buckets(),
{
    let mut r = PacketRegistry::new();
    let ghost e = empty_buckets();
    assert(r.buckets() =~= e);
    r.register_rows(pre_netty_table());
    r.register_rows(handshake_table());
    r.register_rows(status_table());
    r.register_rows(login_table());
    r.register_rows(configuration_table());
    r.register_rows(play_a_table());
    r.register_rows(play_b_table());
    r.register_rows(play_c_table());
    r.register_rows(play_d_table());
    proof {
        let t1 = pre_netty_rows();
        let t2 = t1 + handshake_rows();
        let t3 = t2 + status_rows();
        let t4 = t3 + login_rows();
        let t5 = t4 + configuration_rows();
        let t6 = t5 + play_a_rows();
        let t7 = t6 + play_b_rows();
        let t8 = t7 + play_c_rows();
        lemma_register_all_append(e, t1, handshake_rows());
        lemma_register_all_append(e, t2, status_rows());
        lemma_register_all_append(e, t3, login_rows());
        lemma_register_all_append(e, t4, configuration_rows());
        lemma_register_all_append(e, t5, play_a_rows());
        lemma_register_all_append(e, t6, play_b_rows());
        lemma_register_all_append(e, t7, play_c_rows());
        lemma_register_all_append(e, t8, play_d_rows());
    }
    r
}

impl Default for PacketRegistry {
    fn default() -> (r: Self)
        ensures
            r.wf(),
            r.buckets() == default_buckets(),
    {
        build_default_registry()
    }
}

} // verus!
