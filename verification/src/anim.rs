//! Presentation-side animation markers.

use vstd::prelude::*;

verus! {

/// Marks a sprite hierarchy to be faded out over the given time.
pub struct FadeOutSpriteHiearchy {
    pub duration_ms: u64,
}

} // verus!
