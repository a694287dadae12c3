//! Which protocols carry the dimension codec inside JoinGame.
use vstd::prelude::*;

verus! {

/// The first protocol whose JoinGame carries the dimension codec (1.16).
pub const FIRST_CODEC_PROTOCOL: u32 = 735;

/// The last protocol whose JoinGame carries it (1.20.1); 1.20.2 moved the
/// codec into the configuration phase.
pub const LAST_CODEC_PROTOCOL: u32 = 763;

/// Whether JoinGame carries the dimension codec at protocol `proto`.
pub fn carries_dimension_codec(proto: u32) -> (r: bool)
    ensures
        r == (FIRST_CODEC_PROTOCOL <= proto && proto <= LAST_CODEC_PROTOCOL),
{
    FIRST_CODEC_PROTOCOL <= proto && proto <= LAST_CODEC_PROTOCOL
}

} // verus!
