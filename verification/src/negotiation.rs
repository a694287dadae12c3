//! Protocol version table and "nearest known version" resolution.
//!
//! Every Java Edition release where the protocol number changed has a
//! `ProtocolVersion` variant; releases that kept the number share the variant
//! of the release before them. An `Epoch` groups versions close enough that
//! one converter handles the whole range.
use vstd::prelude::*;

verus! {

#[derive(Debug, Clone, Copy, PartialEq, Eq, Hash, Structural)]
#[allow(non_camel_case_types)]
pub enum ProtocolVersion {
    V1_6_1, // 73 (pre-netty)
    V1_6_2, // 74 (pre-netty)
    V1_6_4, // 78 (pre-netty; also covers 1.6.3)
    V1_7_2, // 4 — first netty release
    V1_7_6, // 5 (also 1.7.10)
    V1_7_10, // 5, alias
    V1_8, // 47
    V1_9, // 107
    V1_9_1, // 108
    V1_9_2, // 109
    V1_9_4, // 110
    V1_10, // 210
    V1_11, // 315
    V1_11_1, // 316
    V1_12, // 335
    V1_12_1, // 338
    V1_12_2, // 340
    V1_13, // 393
    V1_13_1, // 401
    V1_13_2, // 404
    V1_14, // 477
    V1_14_1, // 480
    V1_14_2, // 485
    V1_14_3, // 490
    V1_14_4, // 498
    V1_15, // 573
    V1_15_1, // 575
    V1_15_2, // 578
    V1_16, // 735
    V1_16_1, // 736
    V1_16_2, // 751
    V1_16_3, // 753
    V1_16_4, // 754 (also 1.16.5)
    V1_16_5, // 754, alias
    V1_17, // 755
    V1_17_1, // 756
    V1_18, // 757
    V1_18_2, // 758
    V1_19, // 759
    V1_19_1, // 760
    V1_19_3, // 761
    V1_19_4, // 762
    V1_20, // 763
    V1_20_2, // 764
    V1_20_4, // 765
    V1_20_6, // 766
    V1_21, // 767
    V1_21_2, // 768
    V1_21_4, // 769
    V1_21_5, // 770
    Unknown(u32),
}

/// Coarse-grained version family used by converter dispatch.
#[derive(Debug, Clone, Copy, PartialEq, Eq, Hash, PartialOrd, Ord, Structural)]
#[allow(non_camel_case_types)]
pub enum Epoch {
    /// Pre-netty (1.6.4 and earlier). Completely different framing.
    PreNetty,
    /// 1.7.x — first netty release.
    V1_7,
    /// 1.8.x — single bump.
    V1_8,
    /// 1.9 → 1.12.2 — packet ids change but the block palette is still numeric.
    V1_9_To_1_12,
    /// 1.13 → 1.15.2 — flattening, no biome storage rework yet.
    V1_13_To_1_15,
    /// 1.16 → 1.16.5 — nether update; dimension codec.
    V1_16,
    /// 1.17 → 1.18.2 — new world height and chunk encoding.
    V1_17_To_1_18,
    /// 1.19 → 1.19.4 — chat signing, profile keys.
    V1_19,
    /// 1.20 → 1.20.6 — configuration phase introduced.
    V1_20,
    /// 1.21+ — registry data packet rework.
    V1_21Plus,
    /// No known version.
    Unknown,
}

/// The versions that have a typed-packet module of their own.
#[derive(Debug, Clone, Copy, PartialEq, Eq, Hash, Structural)]
#[allow(non_camel_case_types)]
pub enum CanonicalVersion {
    V1_6_4,
    V1_7_10,
    V1_8,
    V1_12_2,
    V1_16_5,
    V1_19_4,
    V1_20_4,
    V1_21,
}

/// Every known protocol id, ascending.
pub open spec fn supported_ids() -> Seq<u32> {
    seq![4, 5, 47, 73, 74, 78, 107, 108, 109, 110, 210, 315, 316, 335, 338, 340, 393, 401, 404, 477, 480, 485, 490, 498, 573, 575, 578, 735, 736, 751, 753, 754, 755, 756, 757, 758, 759, 760, 761, 762, 763, 764, 765, 766, 767, 768, 769, 770]
}

/// Whether `id` is one of the known protocol ids.
pub open spec fn is_known_id(id: u32) -> bool {
    id == 4
        || id == 5
        || id == 47
        || id == 73
        || id == 74
        || id == 78
        || id == 107
        || id == 108
        || id == 109
        || id == 110
        || id == 210
        || id == 315
        || id == 316
        || id == 335
        || id == 338
        || id == 340
        || id == 393
        || id == 401
        || id == 404
        || id == 477
        || id == 480
        || id == 485
        || id == 490
        || id == 498
        || id == 573
        || id == 575
        || id == 578
        || id == 735
        || id == 736
        || id == 751
        || id == 753
        || id == 754
        || id == 755
        || id == 756
        || id == 757
        || id == 758
        || id == 759
        || id == 760
        || id == 761
        || id == 762
        || id == 763
        || id == 764
        || id == 765
        || id == 766
        || id == 767
        || id == 768
        || id == 769
        || id == 770
}

pub proof fn lemma_known_ids(id: u32)
    ensures
        supported_ids().contains(id) <==> is_known_id(id),
{
    let s = supported_ids();
    assert(s.len() == 48);
    if is_known_id(id) {
        if id == 4 { assert(s[0] == id); }
        if id == 5 { assert(s[1] == id); }
        if id == 47 { assert(s[2] == id); }
        if id == 73 { assert(s[3] == id); }
        if id == 74 { assert(s[4] == id); }
        if id == 78 { assert(s[5] == id); }
        if id == 107 { assert(s[6] == id); }
        if id == 108 { assert(s[7] == id); }
        if id == 109 { assert(s[8] == id); }
        if id == 110 { assert(s[9] == id); }
        if id == 210 { assert(s[10] == id); }
        if id == 315 { assert(s[11] == id); }
        if id == 316 { assert(s[12] == id); }
        if id == 335 { assert(s[13] == id); }
        if id == 338 { assert(s[14] == id); }
        if id == 340 { assert(s[15] == id); }
        if id == 393 { assert(s[16] == id); }
        if id == 401 { assert(s[17] == id); }
        if id == 404 { assert(s[18] == id); }
        if id == 477 { assert(s[19] == id); }
        if id == 480 { assert(s[20] == id); }
        if id == 485 { assert(s[21] == id); }
        if id == 490 { assert(s[22] == id); }
        if id == 498 { assert(s[23] == id); }
        if id == 573 { assert(s[24] == id); }
        if id == 575 { assert(s[25] == id); }
        if id == 578 { assert(s[26] == id); }
        if id == 735 { assert(s[27] == id); }
        if id == 736 { assert(s[28] == id); }
        if id == 751 { assert(s[29] == id); }
        if id == 753 { assert(s[30] == id); }
        if id == 754 { assert(s[31] == id); }
        if id == 755 { assert(s[32] == id); }
        if id == 756 { assert(s[33] == id); }
        if id == 757 { assert(s[34] == id); }
        if id == 758 { assert(s[35] == id); }
        if id == 759 { assert(s[36] == id); }
        if id == 760 { assert(s[37] == id); }
        if id == 761 { assert(s[38] == id); }
        if id == 762 { assert(s[39] == id); }
        if id == 763 { assert(s[40] == id); }
        if id == 764 { assert(s[41] == id); }
        if id == 765 { assert(s[42] == id); }
        if id == 766 { assert(s[43] == id); }
        if id == 767 { assert(s[44] == id); }
        if id == 768 { assert(s[45] == id); }
        if id == 769 { assert(s[46] == id); }
        if id == 770 { assert(s[47] == id); }
    }
    if s.contains(id) {
        let k = choose|k: int| 0 <= k < s.len() && s[k] == id;
        if k == 0 { assert(id == 4); }
        if k == 1 { assert(id == 5); }
        if k == 2 { assert(id == 47); }
        if k == 3 { assert(id == 73); }
        if k == 4 { assert(id == 74); }
        if k == 5 { assert(id == 78); }
        if k == 6 { assert(id == 107); }
        if k == 7 { assert(id == 108); }
        if k == 8 { assert(id == 109); }
        if k == 9 { assert(id == 110); }
        if k == 10 { assert(id == 210); }
        if k == 11 { assert(id == 315); }
        if k == 12 { assert(id == 316); }
        if k == 13 { assert(id == 335); }
        if k == 14 { assert(id == 338); }
        if k == 15 { assert(id == 340); }
        if k == 16 { assert(id == 393); }
        if k == 17 { assert(id == 401); }
        if k == 18 { assert(id == 404); }
        if k == 19 { assert(id == 477); }
        if k == 20 { assert(id == 480); }
        if k == 21 { assert(id == 485); }
        if k == 22 { assert(id == 490); }
        if k == 23 { assert(id == 498); }
        if k == 24 { assert(id == 573); }
        if k == 25 { assert(id == 575); }
        if k == 26 { assert(id == 578); }
        if k == 27 { assert(id == 735); }
        if k == 28 { assert(id == 736); }
        if k == 29 { assert(id == 751); }
        if k == 30 { assert(id == 753); }
        if k == 31 { assert(id == 754); }
        if k == 32 { assert(id == 755); }
        if k == 33 { assert(id == 756); }
        if k == 34 { assert(id == 757); }
        if k == 35 { assert(id == 758); }
        if k == 36 { assert(id == 759); }
        if k == 37 { assert(id == 760); }
        if k == 38 { assert(id == 761); }
        if k == 39 { assert(id == 762); }
        if k == 40 { assert(id == 763); }
        if k == 41 { assert(id == 764); }
        if k == 42 { assert(id == 765); }
        if k == 43 { assert(id == 766); }
        if k == 44 { assert(id == 767); }
        if k == 45 { assert(id == 768); }
        if k == 46 { assert(id == 769); }
        if k == 47 { assert(id == 770); }
    }
}

/// The family a known protocol id belongs to, by id range.
pub open spec fn epoch_of_id(id: u32) -> Epoch {
    if 73 <= id <= 78 {
        Epoch::PreNetty
    } else if id <= 5 {
        Epoch::V1_7
    } else if id <= 47 {
        Epoch::V1_8
    } else if id <= 340 {
        Epoch::V1_9_To_1_12
    } else if id <= 578 {
        Epoch::V1_13_To_1_15
    } else if id <= 754 {
        Epoch::V1_16
    } else if id <= 758 {
        Epoch::V1_17_To_1_18
    } else if id <= 762 {
        Epoch::V1_19
    } else if id <= 766 {
        Epoch::V1_20
    } else {
        Epoch::V1_21Plus
    }
}

/// The typed-packet version that serves each family.
pub open spec fn canonical_of_epoch(e: Epoch) -> CanonicalVersion {
    match e {
        Epoch::PreNetty => CanonicalVersion::V1_6_4,
        Epoch::V1_7 => CanonicalVersion::V1_7_10,
        Epoch::V1_8 => CanonicalVersion::V1_8,
        Epoch::V1_9_To_1_12 => CanonicalVersion::V1_12_2,
        Epoch::V1_13_To_1_15 => CanonicalVersion::V1_16_5,
        Epoch::V1_16 => CanonicalVersion::V1_16_5,
        Epoch::V1_17_To_1_18 => CanonicalVersion::V1_19_4,
        Epoch::V1_19 => CanonicalVersion::V1_19_4,
        Epoch::V1_20 => CanonicalVersion::V1_20_4,
        Epoch::V1_21Plus => CanonicalVersion::V1_21,
        Epoch::Unknown => CanonicalVersion::V1_12_2,
    }
}

impl ProtocolVersion {
    /// The wire protocol id of each version.
    pub open spec fn spec_id(self) -> u32 {
        match self {
            ProtocolVersion::V1_6_1 => 73,
            ProtocolVersion::V1_6_2 => 74,
            ProtocolVersion::V1_6_4 => 78,
            ProtocolVersion::V1_7_2 => 4,
            ProtocolVersion::V1_7_6 => 5,
            ProtocolVersion::V1_7_10 => 5,
            ProtocolVersion::V1_8 => 47,
            ProtocolVersion::V1_9 => 107,
            ProtocolVersion::V1_9_1 => 108,
            ProtocolVersion::V1_9_2 => 109,
            ProtocolVersion::V1_9_4 => 110,
            ProtocolVersion::V1_10 => 210,
            ProtocolVersion::V1_11 => 315,
            ProtocolVersion::V1_11_1 => 316,
            ProtocolVersion::V1_12 => 335,
            ProtocolVersion::V1_12_1 => 338,
            ProtocolVersion::V1_12_2 => 340,
            ProtocolVersion::V1_13 => 393,
            ProtocolVersion::V1_13_1 => 401,
            ProtocolVersion::V1_13_2 => 404,
            ProtocolVersion::V1_14 => 477,
            ProtocolVersion::V1_14_1 => 480,
            ProtocolVersion::V1_14_2 => 485,
            ProtocolVersion::V1_14_3 => 490,
            ProtocolVersion::V1_14_4 => 498,
            ProtocolVersion::V1_15 => 573,
            ProtocolVersion::V1_15_1 => 575,
            ProtocolVersion::V1_15_2 => 578,
            ProtocolVersion::V1_16 => 735,
            ProtocolVersion::V1_16_1 => 736,
            ProtocolVersion::V1_16_2 => 751,
            ProtocolVersion::V1_16_3 => 753,
            ProtocolVersion::V1_16_4 => 754,
            ProtocolVersion::V1_16_5 => 754,
            ProtocolVersion::V1_17 => 755,
            ProtocolVersion::V1_17_1 => 756,
            ProtocolVersion::V1_18 => 757,
            ProtocolVersion::V1_18_2 => 758,
            ProtocolVersion::V1_19 => 759,
            ProtocolVersion::V1_19_1 => 760,
            ProtocolVersion::V1_19_3 => 761,
            ProtocolVersion::V1_19_4 => 762,
            ProtocolVersion::V1_20 => 763,
            ProtocolVersion::V1_20_2 => 764,
            ProtocolVersion::V1_20_4 => 765,
            ProtocolVersion::V1_20_6 => 766,
            ProtocolVersion::V1_21 => 767,
            ProtocolVersion::V1_21_2 => 768,
            ProtocolVersion::V1_21_4 => 769,
            ProtocolVersion::V1_21_5 => 770,
            ProtocolVersion::Unknown(x) => x,
        }
    }

    /// The two variants that share their id with a later one and are never
    /// the result of `from_id`.
    pub open spec fn is_alias(self) -> bool {
        self == ProtocolVersion::V1_7_6 || self == ProtocolVersion::V1_16_4
    }

    /// Map a wire protocol id to its version: the one non-alias variant
    /// with that id, or `Unknown(id)`.
    pub fn from_id(id: u32) -> (r: Self)
        ensures
            r.spec_id() == id,
            !r.is_alias(),
            r is Unknown <==> !supported_ids().contains(id),
    {
        let r = match id {
            73 => ProtocolVersion::V1_6_1,
            74 => ProtocolVersion::V1_6_2,
            78 => ProtocolVersion::V1_6_4,
            4 => ProtocolVersion::V1_7_2,
            5 => ProtocolVersion::V1_7_10,
            47 => ProtocolVersion::V1_8,
            107 => ProtocolVersion::V1_9,
            108 => ProtocolVersion::V1_9_1,
            109 => ProtocolVersion::V1_9_2,
            110 => ProtocolVersion::V1_9_4,
            210 => ProtocolVersion::V1_10,
            315 => ProtocolVersion::V1_11,
            316 => ProtocolVersion::V1_11_1,
            335 => ProtocolVersion::V1_12,
            338 => ProtocolVersion::V1_12_1,
            340 => ProtocolVersion::V1_12_2,
            393 => ProtocolVersion::V1_13,
            401 => ProtocolVersion::V1_13_1,
            404 => ProtocolVersion::V1_13_2,
            477 => ProtocolVersion::V1_14,
            480 => ProtocolVersion::V1_14_1,
            485 => ProtocolVersion::V1_14_2,
            490 => ProtocolVersion::V1_14_3,
            498 => ProtocolVersion::V1_14_4,
            573 => ProtocolVersion::V1_15,
            575 => ProtocolVersion::V1_15_1,
            578 => ProtocolVersion::V1_15_2,
            735 => ProtocolVersion::V1_16,
            736 => ProtocolVersion::V1_16_1,
            751 => ProtocolVersion::V1_16_2,
            753 => ProtocolVersion::V1_16_3,
            754 => ProtocolVersion::V1_16_5,
            755 => ProtocolVersion::V1_17,
            756 => ProtocolVersion::V1_17_1,
            757 => ProtocolVersion::V1_18,
            758 => ProtocolVersion::V1_18_2,
            759 => ProtocolVersion::V1_19,
            760 => ProtocolVersion::V1_19_1,
            761 => ProtocolVersion::V1_19_3,
            762 => ProtocolVersion::V1_19_4,
            763 => ProtocolVersion::V1_20,
            764 => ProtocolVersion::V1_20_2,
            765 => ProtocolVersion::V1_20_4,
            766 => ProtocolVersion::V1_20_6,
            767 => ProtocolVersion::V1_21,
            768 => ProtocolVersion::V1_21_2,
            769 => ProtocolVersion::V1_21_4,
            770 => ProtocolVersion::V1_21_5,
            x => ProtocolVersion::Unknown(x),
        };
        proof {
            lemma_known_ids(id);
        }
        r
    }

    /// Wire protocol id.
    pub fn id(&self) -> (r: u32)
        ensures
            r == self.spec_id(),
    {
        match self {
            ProtocolVersion::V1_6_1 => 73,
            ProtocolVersion::V1_6_2 => 74,
            ProtocolVersion::V1_6_4 => 78,
            ProtocolVersion::V1_7_2 => 4,
            ProtocolVersion::V1_7_6 => 5,
            ProtocolVersion::V1_7_10 => 5,
            ProtocolVersion::V1_8 => 47,
            ProtocolVersion::V1_9 => 107,
            ProtocolVersion::V1_9_1 => 108,
            ProtocolVersion::V1_9_2 => 109,
            ProtocolVersion::V1_9_4 => 110,
            ProtocolVersion::V1_10 => 210,
            ProtocolVersion::V1_11 => 315,
            ProtocolVersion::V1_11_1 => 316,
            ProtocolVersion::V1_12 => 335,
            ProtocolVersion::V1_12_1 => 338,
            ProtocolVersion::V1_12_2 => 340,
            ProtocolVersion::V1_13 => 393,
            ProtocolVersion::V1_13_1 => 401,
            ProtocolVersion::V1_13_2 => 404,
            ProtocolVersion::V1_14 => 477,
            ProtocolVersion::V1_14_1 => 480,
            ProtocolVersion::V1_14_2 => 485,
            ProtocolVersion::V1_14_3 => 490,
            ProtocolVersion::V1_14_4 => 498,
            ProtocolVersion::V1_15 => 573,
            ProtocolVersion::V1_15_1 => 575,
            ProtocolVersion::V1_15_2 => 578,
            ProtocolVersion::V1_16 => 735,
            ProtocolVersion::V1_16_1 => 736,
            ProtocolVersion::V1_16_2 => 751,
            ProtocolVersion::V1_16_3 => 753,
            ProtocolVersion::V1_16_4 => 754,
            ProtocolVersion::V1_16_5 => 754,
            ProtocolVersion::V1_17 => 755,
            ProtocolVersion::V1_17_1 => 756,
            ProtocolVersion::V1_18 => 757,
            ProtocolVersion::V1_18_2 => 758,
            ProtocolVersion::V1_19 => 759,
            ProtocolVersion::V1_19_1 => 760,
            ProtocolVersion::V1_19_3 => 761,
            ProtocolVersion::V1_19_4 => 762,
            ProtocolVersion::V1_20 => 763,
            ProtocolVersion::V1_20_2 => 764,
            ProtocolVersion::V1_20_4 => 765,
            ProtocolVersion::V1_20_6 => 766,
            ProtocolVersion::V1_21 => 767,
            ProtocolVersion::V1_21_2 => 768,
            ProtocolVersion::V1_21_4 => 769,
            ProtocolVersion::V1_21_5 => 770,
            ProtocolVersion::Unknown(x) => *x,
        }
    }

    pub fn is_supported(&self) -> (r: bool)
        ensures
            r == !(self is Unknown),
    {
        !matches!(self, ProtocolVersion::Unknown(_))
    }

    pub open spec fn spec_epoch(self) -> Epoch {
        if self is Unknown {
            Epoch::Unknown
        } else {
            epoch_of_id(self.spec_id())
        }
    }

    /// Coarse-grained family used for converter routing: `Unknown` for
    /// unknown versions, else the family of the version's id range.
    pub fn epoch(&self) -> (r: Epoch)
        ensures
            r == self.spec_epoch(),
    {
        match self {
            ProtocolVersion::V1_6_1
            | ProtocolVersion::V1_6_2
            | ProtocolVersion::V1_6_4 => Epoch::PreNetty,
            ProtocolVersion::V1_7_2
            | ProtocolVersion::V1_7_6
            | ProtocolVersion::V1_7_10 => Epoch::V1_7,
            ProtocolVersion::V1_8 => Epoch::V1_8,
            ProtocolVersion::V1_9
            | ProtocolVersion::V1_9_1
            | ProtocolVersion::V1_9_2
            | ProtocolVersion::V1_9_4
            | ProtocolVersion::V1_10
            | ProtocolVersion::V1_11
            | ProtocolVersion::V1_11_1
            | ProtocolVersion::V1_12
            | ProtocolVersion::V1_12_1
            | ProtocolVersion::V1_12_2 => Epoch::V1_9_To_1_12,
            ProtocolVersion::V1_13
            | ProtocolVersion::V1_13_1
            | ProtocolVersion::V1_13_2
            | ProtocolVersion::V1_14
            | ProtocolVersion::V1_14_1
            | ProtocolVersion::V1_14_2
            | ProtocolVersion::V1_14_3
            | ProtocolVersion::V1_14_4
            | ProtocolVersion::V1_15
            | ProtocolVersion::V1_15_1
            | ProtocolVersion::V1_15_2 => Epoch::V1_13_To_1_15,
            ProtocolVersion::V1_16
            | ProtocolVersion::V1_16_1
            | ProtocolVersion::V1_16_2
            | ProtocolVersion::V1_16_3
            | ProtocolVersion::V1_16_4
            | ProtocolVersion::V1_16_5 => Epoch::V1_16,
            ProtocolVersion::V1_17
            | ProtocolVersion::V1_17_1
            | ProtocolVersion::V1_18
            | ProtocolVersion::V1_18_2 => Epoch::V1_17_To_1_18,
            ProtocolVersion::V1_19
            | ProtocolVersion::V1_19_1
            | ProtocolVersion::V1_19_3
            | ProtocolVersion::V1_19_4 => Epoch::V1_19,
            ProtocolVersion::V1_20
            | ProtocolVersion::V1_20_2
            | ProtocolVersion::V1_20_4
            | ProtocolVersion::V1_20_6 => Epoch::V1_20,
            ProtocolVersion::V1_21
            | ProtocolVersion::V1_21_2
            | ProtocolVersion::V1_21_4
            | ProtocolVersion::V1_21_5 => Epoch::V1_21Plus,
            ProtocolVersion::Unknown(_) => Epoch::Unknown,
        }
    }

    /// The version whose typed-packet module serves this version's family.
    pub fn canonical_typed_packet_version(&self) -> (r: CanonicalVersion)
        ensures
            r == canonical_of_epoch(self.spec_epoch()),
    {
        match self.epoch() {
            Epoch::PreNetty => CanonicalVersion::V1_6_4,
            Epoch::V1_7 => CanonicalVersion::V1_7_10,
            Epoch::V1_8 => CanonicalVersion::V1_8,
            Epoch::V1_9_To_1_12 => CanonicalVersion::V1_12_2,
            Epoch::V1_13_To_1_15 => CanonicalVersion::V1_16_5,
            Epoch::V1_16 => CanonicalVersion::V1_16_5,
            Epoch::V1_17_To_1_18 => CanonicalVersion::V1_19_4,
            Epoch::V1_19 => CanonicalVersion::V1_19_4,
            Epoch::V1_20 => CanonicalVersion::V1_20_4,
            Epoch::V1_21Plus => CanonicalVersion::V1_21,
            Epoch::Unknown => CanonicalVersion::V1_12_2,
        }
    }
}

impl CanonicalVersion {
    pub open spec fn spec_as_protocol_version(self) -> ProtocolVersion {
        match self {
            CanonicalVersion::V1_6_4 => ProtocolVersion::V1_6_4,
            CanonicalVersion::V1_7_10 => ProtocolVersion::V1_7_10,
            CanonicalVersion::V1_8 => ProtocolVersion::V1_8,
            CanonicalVersion::V1_12_2 => ProtocolVersion::V1_12_2,
            CanonicalVersion::V1_16_5 => ProtocolVersion::V1_16_5,
            CanonicalVersion::V1_19_4 => ProtocolVersion::V1_19_4,
            CanonicalVersion::V1_20_4 => ProtocolVersion::V1_20_4,
            CanonicalVersion::V1_21 => ProtocolVersion::V1_21,
        }
    }

    /// The protocol version of the same name.
    pub fn as_protocol_version(self) -> (r: ProtocolVersion)
        ensures
            r == self.spec_as_protocol_version(),
    {
        match self {
            CanonicalVersion::V1_6_4 => ProtocolVersion::V1_6_4,
            CanonicalVersion::V1_7_10 => ProtocolVersion::V1_7_10,
            CanonicalVersion::V1_8 => ProtocolVersion::V1_8,
            CanonicalVersion::V1_12_2 => ProtocolVersion::V1_12_2,
            CanonicalVersion::V1_16_5 => ProtocolVersion::V1_16_5,
            CanonicalVersion::V1_19_4 => ProtocolVersion::V1_19_4,
            CanonicalVersion::V1_20_4 => ProtocolVersion::V1_20_4,
            CanonicalVersion::V1_21 => ProtocolVersion::V1_21,
        }
    }
}

/// The release a version is named after, as minor * 100 + patch: 1.12 is
/// 1200, 1.12.1 is 1201; -1 for `Unknown`.
pub open spec fn release_number(v: ProtocolVersion) -> int {
    match v {
            ProtocolVersion::V1_6_1 => 601,
            ProtocolVersion::V1_6_2 => 602,
            ProtocolVersion::V1_6_4 => 604,
            ProtocolVersion::V1_7_2 => 702,
            ProtocolVersion::V1_7_6 => 706,
            ProtocolVersion::V1_7_10 => 710,
            ProtocolVersion::V1_8 => 800,
            ProtocolVersion::V1_9 => 900,
            ProtocolVersion::V1_9_1 => 901,
            ProtocolVersion::V1_9_2 => 902,
            ProtocolVersion::V1_9_4 => 904,
            ProtocolVersion::V1_10 => 1000,
            ProtocolVersion::V1_11 => 1100,
            ProtocolVersion::V1_11_1 => 1101,
            ProtocolVersion::V1_12 => 1200,
            ProtocolVersion::V1_12_1 => 1201,
            ProtocolVersion::V1_12_2 => 1202,
            ProtocolVersion::V1_13 => 1300,
            ProtocolVersion::V1_13_1 => 1301,
            ProtocolVersion::V1_13_2 => 1302,
            ProtocolVersion::V1_14 => 1400,
            ProtocolVersion::V1_14_1 => 1401,
            ProtocolVersion::V1_14_2 => 1402,
            ProtocolVersion::V1_14_3 => 1403,
            ProtocolVersion::V1_14_4 => 1404,
            ProtocolVersion::V1_15 => 1500,
            ProtocolVersion::V1_15_1 => 1501,
            ProtocolVersion::V1_15_2 => 1502,
            ProtocolVersion::V1_16 => 1600,
            ProtocolVersion::V1_16_1 => 1601,
            ProtocolVersion::V1_16_2 => 1602,
            ProtocolVersion::V1_16_3 => 1603,
            ProtocolVersion::V1_16_4 => 1604,
            ProtocolVersion::V1_16_5 => 1605,
            ProtocolVersion::V1_17 => 1700,
            ProtocolVersion::V1_17_1 => 1701,
            ProtocolVersion::V1_18 => 1800,
            ProtocolVersion::V1_18_2 => 1802,
            ProtocolVersion::V1_19 => 1900,
            ProtocolVersion::V1_19_1 => 1901,
            ProtocolVersion::V1_19_3 => 1903,
            ProtocolVersion::V1_19_4 => 1904,
            ProtocolVersion::V1_20 => 2000,
            ProtocolVersion::V1_20_2 => 2002,
            ProtocolVersion::V1_20_4 => 2004,
            ProtocolVersion::V1_20_6 => 2006,
            ProtocolVersion::V1_21 => 2100,
            ProtocolVersion::V1_21_2 => 2102,
            ProtocolVersion::V1_21_4 => 2104,
            ProtocolVersion::V1_21_5 => 2105,
            ProtocolVersion::Unknown(_) => -1,
    }
}

/// Protocol ids grow with the release: of two known, non-alias versions of
/// the same framing (both before 1.7, or both from 1.7 on), the later
/// release has the higher id. With `from_id` covering exactly the known
/// ids, this fixes which version each id names.
pub proof fn lemma_ids_follow_releases(a: ProtocolVersion, b: ProtocolVersion)
    requires
        !(a is Unknown),
        !(b is Unknown),
        !a.is_alias(),
        !b.is_alias(),
        (release_number(a) < 700) == (release_number(b) < 700),
        release_number(a) < release_number(b),
    ensures
        a.spec_id() < b.spec_id(),
{
}

/// The family of a release, by its number (minor * 100 + patch): 1.6 and
/// earlier, 1.7, 1.8, 1.9 to 1.12, 1.13 to 1.15, 1.16, 1.17 to 1.18, 1.19,
/// 1.20, then 1.21 and later.
pub open spec fn epoch_of_release(r: int) -> Epoch {
    if r < 700 {
        Epoch::PreNetty
    } else if r < 800 {
        Epoch::V1_7
    } else if r < 900 {
        Epoch::V1_8
    } else if r < 1300 {
        Epoch::V1_9_To_1_12
    } else if r < 1600 {
        Epoch::V1_13_To_1_15
    } else if r < 1700 {
        Epoch::V1_16
    } else if r < 1900 {
        Epoch::V1_17_To_1_18
    } else if r < 2000 {
        Epoch::V1_19
    } else if r < 2100 {
        Epoch::V1_20
    } else {
        Epoch::V1_21Plus
    }
}

/// A known version's family is the family of the release it is named
/// after; `Unknown` has the `Unknown` family.
pub proof fn lemma_epoch_follows_release(v: ProtocolVersion)
    ensures
        v is Unknown ==> v.spec_epoch() == Epoch::Unknown,
        !(v is Unknown) ==> v.spec_epoch() == epoch_of_release(release_number(v)),
{
}

/// A version is determined by its id, among the non-alias variants: so
/// `from_id(v.id()) == v` for every version `v` that is not an alias (and,
/// for `Unknown(x)`, whose `x` is not a known id).
pub proof fn lemma_version_determined_by_id(a: ProtocolVersion, b: ProtocolVersion)
    requires
        a.spec_id() == b.spec_id(),
        !a.is_alias(),
        !b.is_alias(),
        (a is Unknown) == (b is Unknown),
    ensures
        a == b,
{
}

/// Every known id is the id of some version that is not `Unknown`, and
/// every version that is not `Unknown` has a known id.
pub proof fn lemma_known_versions(v: ProtocolVersion)
    ensures
        !(v is Unknown) ==> supported_ids().contains(v.spec_id()),
{
    lemma_known_ids(v.spec_id());
}

pub struct VersionRegistry;

/// Distance between two protocol ids.
pub open spec fn id_distance(a: u32, b: u32) -> int {
    if a >= b {
        a - b
    } else {
        b - a
    }
}

/// The first index of `ids` whose entry is nearest to `id`.
pub open spec fn is_first_nearest(ids: Seq<u32>, id: u32, k: int) -> bool {
    &&& 0 <= k < ids.len()
    &&& forall|j: int| 0 <= j < ids.len() ==> id_distance(ids[k], id) <= id_distance(#[trigger] ids[j], id)
    &&& forall|j: int| 0 <= j < k ==> id_distance(ids[k], id) < id_distance(#[trigger] ids[j], id)
}

impl VersionRegistry {
    /// Every known protocol id, ascending.
    pub const SUPPORTED: [u32; 48] = [
        4, 5, 47, 73, 74, 78, 107, 108, 109, 110, 210, 315, 316, 335, 338, 340, 393, 401, 404, 477, 480, 485, 490, 498, 573, 575, 578, 735, 736, 751, 753, 754, 755, 756, 757, 758, 759, 760, 761, 762, 763, 764, 765, 766, 767, 768, 769, 770,
    ];

    /// Resolve any wire protocol id to the closest known version: the version
    /// itself when the id is known, else the known id nearest to it (the
    /// lower one on a tie).
    pub fn nearest(protocol_id: u32) -> (r: ProtocolVersion)
        ensures
            !(r is Unknown),
            supported_ids().contains(protocol_id) ==> r.spec_id() == protocol_id,
            !supported_ids().contains(protocol_id) ==> exists|k: int|
                is_first_nearest(supported_ids(), protocol_id, k) && r.spec_id() == supported_ids()[k],
            !r.is_alias(),
    {
        let exact = ProtocolVersion::from_id(protocol_id);
        if exact.is_supported() {
            return exact;
        }
        let ids = Self::SUPPORTED;
        assert(ids@ == supported_ids());
        let mut best: u32 = ids[0];
        let mut best_dist: u64 = if ids[0] >= protocol_id {
            (ids[0] - protocol_id) as u64
        } else {
            (protocol_id - ids[0]) as u64
        };
        let ghost mut best_k: int = 0;
        let mut i: usize = 1;
        while i < ids.len()
            invariant
                ids@ == supported_ids(),
                1 <= i <= ids.len(),
                0 <= best_k < i,
                best == ids@[best_k],
                best_dist == id_distance(best, protocol_id),
                forall|j: int| 0 <= j < i ==> id_distance(best, protocol_id) <= id_distance(#[trigger] ids@[j], protocol_id),
                forall|j: int| 0 <= j < best_k ==> id_distance(best, protocol_id) < id_distance(#[trigger] ids@[j], protocol_id),
            decreases ids.len() - i,
        {
            let s = ids[i];
            let d: u64 = if s >= protocol_id {
                (s - protocol_id) as u64
            } else {
                (protocol_id - s) as u64
            };
            if d < best_dist {
                best = s;
                best_dist = d;
                proof {
                    best_k = i as int;
                }
            }
            i += 1;
        }
        proof {
            assert(is_first_nearest(supported_ids(), protocol_id, best_k));
            lemma_known_ids(best);
            assert(supported_ids().contains(best)) by {
                assert(supported_ids()[best_k] == best);
            }
        }
        ProtocolVersion::from_id(best)
    }
}

} // verus!
