//! Every gameplay number that is a whole quantity, in one place.
//!
//! Counts, capacities and flags keep their own types. Figures measured in
//! metres, seconds, hit points or degrees that the tuning sets to a whole
//! number are held here exactly, as integers, and the simulation's float code
//! reads them from here; fractional figures sit beside that float code. Either
//! way each number is written once.

pub mod sim;
pub mod world;
pub mod player;
pub mod camera;
pub mod rifle;
pub mod missiles;
pub mod blade;
pub mod skirmisher;
pub mod artillery;
pub mod boss;
pub mod targeting;
pub mod mission;
pub mod fx;

use vstd::prelude::*;
use crate::types::EnemyKind;
use crate::text::{chars_spell, lemma_unpadded_is_trimmed, lowered, normalize, normalized};

verus! {

/// The points each archetype is worth.
pub open spec fn kill_score(kind: EnemyKind) -> nat {
    match kind {
        EnemyKind::Skirmisher => 100,
        EnemyKind::Artillery => 175,
        EnemyKind::Boss => 2500,
    }
}

/// Score awarded per kill.
pub fn score_for(enemy: EnemyKind) -> (r: u32)
    ensures
        r == kill_score(enemy),
{
    match enemy {
        EnemyKind::Skirmisher => 100,
        EnemyKind::Artillery => 175,
        EnemyKind::Boss => 2500,
    }
}

/// The boss is worth more than ten siege units, and every archetype is worth
/// something.
pub proof fn lemma_score_table_is_ordered(kind: EnemyKind)
    ensures
        kill_score(EnemyKind::Boss) > 10 * kill_score(EnemyKind::Artillery),
        kill_score(EnemyKind::Skirmisher) < kill_score(EnemyKind::Artillery),
        kill_score(kind) > 0,
{
}

/// One of the three selectable frames.
///
/// An enum, so a frame that does not exist cannot be selected.
#[derive(Debug, Clone, Copy, PartialEq, Eq, Hash, Structural)]
pub enum MechPresetId {
    Light,
    /// The frame a project starts on, and the one an unfamiliar stored choice
    /// falls back to.
    Balanced,
    Heavy,
}

/// The frames in the order they are offered.
pub const MECH_PRESET_IDS: [MechPresetId; 3] = [
    MechPresetId::Light,
    MechPresetId::Balanced,
    MechPresetId::Heavy,
];

impl MechPresetId {
    /// The id as the briefing screen and stored preferences spell it.
    pub open spec fn key_text(self) -> Seq<char> {
        match self {
            MechPresetId::Light => "light"@,
            MechPresetId::Balanced => "balanced"@,
            MechPresetId::Heavy => "heavy"@,
        }
    }

    /// The frame's name on the briefing screen.
    pub open spec fn label_text(self) -> Seq<char> {
        match self {
            MechPresetId::Light => "VYPER"@,
            MechPresetId::Balanced => "RANGER"@,
            MechPresetId::Heavy => "BASTION"@,
        }
    }

    /// The frame a stored choice names once trimmed and lowercased: a key or
    /// a frame name selects that frame, anything else the balanced one.
    pub open spec fn chosen_by(key: Seq<char>) -> MechPresetId {
        if key == "light"@ || key == "vyper"@ {
            MechPresetId::Light
        } else if key == "heavy"@ || key == "bastion"@ {
            MechPresetId::Heavy
        } else {
            MechPresetId::Balanced
        }
    }

    pub fn label(self) -> (r: &'static str)
        ensures
            r@ == self.label_text(),
    {
        match self {
            MechPresetId::Light => "VYPER",
            MechPresetId::Balanced => "RANGER",
            MechPresetId::Heavy => "BASTION",
        }
    }

    pub fn key(self) -> (r: &'static str)
        ensures
            r@ == self.key_text(),
    {
        match self {
            MechPresetId::Light => "light",
            MechPresetId::Balanced => "balanced",
            MechPresetId::Heavy => "heavy",
        }
    }

    /// Parse a stored choice, falling back to the balanced frame.
    ///
    /// Falling back rather than failing: a stored preference can be edited by
    /// a person or written by an older version, and a game that refuses to
    /// start over an unfamiliar string is worse than one that starts on the
    /// default.
    pub fn parse(value: &str) -> (r: MechPresetId)
        ensures
            r == MechPresetId::chosen_by(normalized(value@)),
    {
        let key = normalize(value);
        if chars_spell(&key, "light") || chars_spell(&key, "vyper") {
            MechPresetId::Light
        } else if chars_spell(&key, "heavy") || chars_spell(&key, "bastion") {
            MechPresetId::Heavy
        } else {
            MechPresetId::Balanced
        }
    }
}

impl Default for MechPresetId {
    fn default() -> (r: Self)
        ensures
            r == MechPresetId::Balanced,
    {
        MechPresetId::Balanced
    }
}

/// Every frame's key and every frame's name parse back to that frame,
/// whatever case the name is written in.
pub proof fn lemma_preset_choices_round_trip(id: MechPresetId)
    ensures
        MechPresetId::chosen_by(normalized(id.key_text())) == id,
        MechPresetId::chosen_by(normalized(id.label_text())) == id,
{
    reveal_strlit("light");
    reveal_strlit("balanced");
    reveal_strlit("heavy");
    reveal_strlit("VYPER");
    reveal_strlit("RANGER");
    reveal_strlit("BASTION");
    reveal_strlit("vyper");
    reveal_strlit("bastion");
    lemma_unpadded_is_trimmed(id.key_text());
    lemma_unpadded_is_trimmed(id.label_text());
    match id {
        MechPresetId::Light => {
            assert(lowered("light"@) =~= "light"@);
            assert(lowered("VYPER"@) =~= "vyper"@);
        },
        MechPresetId::Balanced => {
            assert(lowered("balanced"@) =~= "balanced"@);
            assert(lowered("RANGER"@)[0] == 'r');
            assert(lowered("RANGER"@).len() == 6);
        },
        MechPresetId::Heavy => {
            assert(lowered("heavy"@) =~= "heavy"@);
            assert(lowered("BASTION"@) =~= "bastion"@);
        },
    }
}

} // verus!
