//! Mission pacing.

use vstd::prelude::*;
use crate::types::EnemyKind;

verus! {

/// Points for a kill, by archetype.
///
/// Matched by archetype rather than looked up by name: a string table would
/// score a renamed archetype as zero.
pub fn score_for(kind: EnemyKind) -> (r: u32)
    ensures
        r == crate::config::kill_score(kind),
{
    match kind {
        EnemyKind::Skirmisher => 100,
        EnemyKind::Artillery => 175,
        EnemyKind::Boss => 2500,
    }
}

} // verus!
