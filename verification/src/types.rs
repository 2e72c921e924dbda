//! The shapes the simulation is made of: sides, archetypes, weapons, the beats
//! of a blade swing, mission phases and the names of the events the
//! simulation reports.

use vstd::prelude::*;
use crate::text::same_text;

verus! {

/// Which side something is on. Player and enemy never collide with their own.
#[derive(Debug, Clone, Copy, PartialEq, Eq, Hash, Structural)]
pub enum Faction {
    Player,
    Enemy,
}

impl Faction {
    pub open spec fn label_text(self) -> Seq<char> {
        match self {
            Faction::Player => "player"@,
            Faction::Enemy => "enemy"@,
        }
    }

    /// Whether `other` is a valid target for this faction.
    pub fn hostile_to(self, other: Self) -> (r: bool)
        ensures
            r <==> self != other,
    {
        self != other
    }

    pub fn label(self) -> (r: &'static str)
        ensures
            r@ == self.label_text(),
    {
        match self {
            Faction::Player => "player",
            Faction::Enemy => "enemy",
        }
    }
}

/// Hostility is symmetric and nothing is hostile to its own side.
pub proof fn lemma_hostility_is_symmetric_and_irreflexive(a: Faction, b: Faction)
    ensures
        (a != b) == (b != a),
        !(a != a),
        a != b ==> (a == Faction::Player && b == Faction::Enemy) || (a == Faction::Enemy && b
            == Faction::Player),
{
}

/// The three enemy archetypes.
#[derive(Debug, Clone, Copy, PartialEq, Eq, Hash, Structural)]
pub enum EnemyKind {
    Skirmisher,
    Artillery,
    Boss,
}

impl EnemyKind {
    pub open spec fn label_text(self) -> Seq<char> {
        match self {
            EnemyKind::Skirmisher => "skirmisher"@,
            EnemyKind::Artillery => "artillery"@,
            EnemyKind::Boss => "boss"@,
        }
    }

    pub open spec fn display_text(self) -> Seq<char> {
        match self {
            EnemyKind::Skirmisher => "S-2 SKIRMISHER"@,
            EnemyKind::Artillery => "M-8 SIEGE UNIT"@,
            EnemyKind::Boss => "ASHFRAME PATRIARCH"@,
        }
    }

    pub fn label(self) -> (r: &'static str)
        ensures
            r@ == self.label_text(),
    {
        match self {
            EnemyKind::Skirmisher => "skirmisher",
            EnemyKind::Artillery => "artillery",
            EnemyKind::Boss => "boss",
        }
    }

    /// The name shown in a target readout.
    pub fn display_name(self) -> (r: &'static str)
        ensures
            r@ == self.display_text(),
    {
        match self {
            EnemyKind::Skirmisher => "S-2 SKIRMISHER",
            EnemyKind::Artillery => "M-8 SIEGE UNIT",
            EnemyKind::Boss => "ASHFRAME PATRIARCH",
        }
    }

    /// The archetype a label names, if any. An unrecognised label names
    /// nothing rather than falling back to a default, so a renamed archetype
    /// is never scored as something else.
    pub fn from_label(text: &str) -> (r: Option<EnemyKind>)
        ensures
            r matches Some(k) ==> k.label_text() == text@,
            r is None ==> forall|k: EnemyKind| k.label_text() != text@,
    {
        if same_text(text, "skirmisher") {
            Some(EnemyKind::Skirmisher)
        } else if same_text(text, "artillery") {
            Some(EnemyKind::Artillery)
        } else if same_text(text, "boss") {
            Some(EnemyKind::Boss)
        } else {
            None
        }
    }
}

/// Every archetype's label reads back as that archetype, and no two
/// archetypes share a label.
pub proof fn lemma_enemy_labels_round_trip(a: EnemyKind, b: EnemyKind)
    ensures
        a.label_text() == b.label_text() ==> a == b,
        a.display_text() == b.display_text() ==> a == b,
{
    reveal_strlit("skirmisher");
    reveal_strlit("artillery");
    reveal_strlit("boss");
    reveal_strlit("S-2 SKIRMISHER");
    reveal_strlit("M-8 SIEGE UNIT");
    reveal_strlit("ASHFRAME PATRIARCH");
    if a != b {
        assert(a.label_text()[0] != b.label_text()[0]);
        assert(a.display_text()[0] != b.display_text()[0]);
    }
}


/// Every weapon in the game, on both sides.
#[derive(Debug, Clone, Copy, PartialEq, Eq, Hash, Structural)]
pub enum WeaponId {
    Rifle,
    Missiles,
    Blade,
    EnemyGun,
    EnemyMortar,
    BossBarrage,
}

impl WeaponId {
    pub open spec fn label_text(self) -> Seq<char> {
        match self {
            WeaponId::Rifle => "rifle"@,
            WeaponId::Missiles => "missiles"@,
            WeaponId::Blade => "blade"@,
            WeaponId::EnemyGun => "enemy-gun"@,
            WeaponId::EnemyMortar => "enemy-mortar"@,
            WeaponId::BossBarrage => "boss-barrage"@,
        }
    }

    pub open spec fn belongs_to_player(self) -> bool {
        self == WeaponId::Rifle || self == WeaponId::Missiles || self == WeaponId::Blade
    }

    pub fn label(self) -> (r: &'static str)
        ensures
            r@ == self.label_text(),
    {
        match self {
            WeaponId::Rifle => "rifle",
            WeaponId::Missiles => "missiles",
            WeaponId::Blade => "blade",
            WeaponId::EnemyGun => "enemy-gun",
            WeaponId::EnemyMortar => "enemy-mortar",
            WeaponId::BossBarrage => "boss-barrage",
        }
    }

    /// Whether this weapon belongs to the player.
    pub fn is_player_weapon(self) -> (r: bool)
        ensures
            r == self.belongs_to_player(),
    {
        match self {
            WeaponId::Rifle | WeaponId::Missiles | WeaponId::Blade => true,
            _ => false,
        }
    }
}

/// Where a blade swing is: at rest, or in one of its three beats.
#[derive(Debug, Clone, Copy, PartialEq, Eq, Hash, Structural)]
pub enum BladePhase {
    Idle,
    Windup,
    Active,
    Recovery,
}

/// Where a mission has got to.
///
/// The mission runs `Intro`, `Wave1`, `Gap1`, `Wave2`, `Gap2`, `Boss`, and
/// ends in `Victory` or `Defeat`. `Idle` is a mission that has not been
/// started.
#[derive(Debug, Clone, Copy, PartialEq, Eq, Hash, Structural)]
pub enum MissionPhase {
    Idle,
    Intro,
    Wave1,
    Gap1,
    Wave2,
    Gap2,
    Boss,
    Victory,
    Defeat,
}

impl MissionPhase {
    pub open spec fn label_text(self) -> Seq<char> {
        match self {
            MissionPhase::Idle => "idle"@,
            MissionPhase::Intro => "intro"@,
            MissionPhase::Wave1 => "wave1"@,
            MissionPhase::Gap1 => "gap1"@,
            MissionPhase::Wave2 => "wave2"@,
            MissionPhase::Gap2 => "gap2"@,
            MissionPhase::Boss => "boss"@,
            MissionPhase::Victory => "victory"@,
            MissionPhase::Defeat => "defeat"@,
        }
    }

    pub open spec fn terminal(self) -> bool {
        self == MissionPhase::Victory || self == MissionPhase::Defeat
    }

    pub open spec fn combat(self) -> bool {
        self == MissionPhase::Wave1 || self == MissionPhase::Wave2 || self == MissionPhase::Boss
    }

    pub fn label(self) -> (r: &'static str)
        ensures
            r@ == self.label_text(),
    {
        match self {
            MissionPhase::Idle => "idle",
            MissionPhase::Intro => "intro",
            MissionPhase::Wave1 => "wave1",
            MissionPhase::Gap1 => "gap1",
            MissionPhase::Wave2 => "wave2",
            MissionPhase::Gap2 => "gap2",
            MissionPhase::Boss => "boss",
            MissionPhase::Victory => "victory",
            MissionPhase::Defeat => "defeat",
        }
    }

    /// Whether the mission has ended, one way or the other.
    pub fn is_terminal(self) -> (r: bool)
        ensures
            r == self.terminal(),
    {
        match self {
            MissionPhase::Victory | MissionPhase::Defeat => true,
            _ => false,
        }
    }

    /// Whether enemies should be acting.
    pub fn is_combat(self) -> (r: bool)
        ensures
            r == self.combat(),
    {
        match self {
            MissionPhase::Wave1 | MissionPhase::Wave2 | MissionPhase::Boss => true,
            _ => false,
        }
    }
}

/// A finished mission is never a fight, and no two phases share a label.
pub proof fn lemma_mission_phases_are_well_named(a: MissionPhase, b: MissionPhase)
    ensures
        !(a.terminal() && a.combat()),
        a.label_text() == b.label_text() ==> a == b,
{
    reveal_strlit("idle");
    reveal_strlit("intro");
    reveal_strlit("wave1");
    reveal_strlit("gap1");
    reveal_strlit("wave2");
    reveal_strlit("gap2");
    reveal_strlit("boss");
    reveal_strlit("victory");
    reveal_strlit("defeat");
    if a.label_text() == b.label_text() {
        let (x, y) = (a.label_text(), b.label_text());
        assert(x.len() == y.len() && x[0] == y[0] && x[x.len() - 1] == y[y.len() - 1]);
        assert(x[2] == y[2]);
    }
}

/// Weapons split cleanly between the sides, and no two share a label.
pub proof fn lemma_weapons_are_well_named(a: WeaponId, b: WeaponId)
    ensures
        a.label_text() == b.label_text() ==> a == b,
{
    reveal_strlit("rifle");
    reveal_strlit("missiles");
    reveal_strlit("blade");
    reveal_strlit("enemy-gun");
    reveal_strlit("enemy-mortar");
    reveal_strlit("boss-barrage");
    if a.label_text() == b.label_text() {
        let (x, y) = (a.label_text(), b.label_text());
        assert(x.len() == y.len() && x[0] == y[0]);
    }
}

/// The name of each thing the simulation can report.
///
/// Every event the simulation emits carries one of these, and its label is the
/// tag that logs, replays and the renderer switch on. Two events sharing a tag
/// would be two behaviours silently merged, so the labels are proved distinct.
#[derive(Debug, Clone, Copy, PartialEq, Eq, Hash, Structural)]
pub enum EventKind {
    Fire,
    DryFire,
    ReloadStart,
    ReloadEnd,
    MissileLaunch,
    Blade,
    BladeHit,
    Impact,
    Hit,
    Destroy,
    Explosion,
    Stagger,
    Unstagger,
    PlayerDamage,
    PlayerStagger,
    Jump,
    Land,
    QuickBoost,
    AssaultStart,
    AssaultEnd,
    EnergyEmpty,
    EnergyRestored,
    RepairStart,
    RepairEnd,
    LockAcquired,
    LockLost,
    EnemyFire,
    Telegraph,
    OutOfBounds,
    Hint,
    Objective,
    MissionComplete,
    MissionFailed,
}

impl EventKind {
    pub open spec fn label_text(self) -> Seq<char> {
        match self {
            EventKind::Fire => "fire"@,
            EventKind::DryFire => "dry-fire"@,
            EventKind::ReloadStart => "reload-start"@,
            EventKind::ReloadEnd => "reload-end"@,
            EventKind::MissileLaunch => "missile-launch"@,
            EventKind::Blade => "blade"@,
            EventKind::BladeHit => "blade-hit"@,
            EventKind::Impact => "impact"@,
            EventKind::Hit => "hit"@,
            EventKind::Destroy => "destroy"@,
            EventKind::Explosion => "explosion"@,
            EventKind::Stagger => "stagger"@,
            EventKind::Unstagger => "unstagger"@,
            EventKind::PlayerDamage => "player-damage"@,
            EventKind::PlayerStagger => "player-stagger"@,
            EventKind::Jump => "jump"@,
            EventKind::Land => "land"@,
            EventKind::QuickBoost => "quick-boost"@,
            EventKind::AssaultStart => "assault-start"@,
            EventKind::AssaultEnd => "assault-end"@,
            EventKind::EnergyEmpty => "energy-empty"@,
            EventKind::EnergyRestored => "energy-restored"@,
            EventKind::RepairStart => "repair-start"@,
            EventKind::RepairEnd => "repair-end"@,
            EventKind::LockAcquired => "lock-acquired"@,
            EventKind::LockLost => "lock-lost"@,
            EventKind::EnemyFire => "enemy-fire"@,
            EventKind::Telegraph => "telegraph"@,
            EventKind::OutOfBounds => "out-of-bounds"@,
            EventKind::Hint => "hint"@,
            EventKind::Objective => "objective"@,
            EventKind::MissionComplete => "mission-complete"@,
            EventKind::MissionFailed => "mission-failed"@,
        }
    }

    /// A short label, for logs and tests.
    pub fn label(self) -> (r: &'static str)
        ensures
            r@ == self.label_text(),
    {
        match self {
            EventKind::Fire => "fire",
            EventKind::DryFire => "dry-fire",
            EventKind::ReloadStart => "reload-start",
            EventKind::ReloadEnd => "reload-end",
            EventKind::MissileLaunch => "missile-launch",
            EventKind::Blade => "blade",
            EventKind::BladeHit => "blade-hit",
            EventKind::Impact => "impact",
            EventKind::Hit => "hit",
            EventKind::Destroy => "destroy",
            EventKind::Explosion => "explosion",
            EventKind::Stagger => "stagger",
            EventKind::Unstagger => "unstagger",
            EventKind::PlayerDamage => "player-damage",
            EventKind::PlayerStagger => "player-stagger",
            EventKind::Jump => "jump",
            EventKind::Land => "land",
            EventKind::QuickBoost => "quick-boost",
            EventKind::AssaultStart => "assault-start",
            EventKind::AssaultEnd => "assault-end",
            EventKind::EnergyEmpty => "energy-empty",
            EventKind::EnergyRestored => "energy-restored",
            EventKind::RepairStart => "repair-start",
            EventKind::RepairEnd => "repair-end",
            EventKind::LockAcquired => "lock-acquired",
            EventKind::LockLost => "lock-lost",
            EventKind::EnemyFire => "enemy-fire",
            EventKind::Telegraph => "telegraph",
            EventKind::OutOfBounds => "out-of-bounds",
            EventKind::Hint => "hint",
            EventKind::Objective => "objective",
            EventKind::MissionComplete => "mission-complete",
            EventKind::MissionFailed => "mission-failed",
        }
    }
}

/// The kind whose label has this length, third character and last
/// character. Those three facts already tell every label apart.
spec fn event_kind_by_shape(len: nat, third: char, last: char) -> EventKind {
    if len == 4 && third == 'r' && last == 'e' {
        EventKind::Fire
    } else if len == 8 && third == 'y' && last == 'e' {
        EventKind::DryFire
    } else if len == 12 && third == 'l' && last == 't' {
        EventKind::ReloadStart
    } else if len == 10 && third == 'l' && last == 'd' {
        EventKind::ReloadEnd
    } else if len == 14 && third == 's' && last == 'h' {
        EventKind::MissileLaunch
    } else if len == 5 && third == 'a' && last == 'e' {
        EventKind::Blade
    } else if len == 9 && third == 'a' && last == 't' {
        EventKind::BladeHit
    } else if len == 6 && third == 'p' && last == 't' {
        EventKind::Impact
    } else if len == 3 && third == 't' && last == 't' {
        EventKind::Hit
    } else if len == 7 && third == 's' && last == 'y' {
        EventKind::Destroy
    } else if len == 9 && third == 'p' && last == 'n' {
        EventKind::Explosion
    } else if len == 7 && third == 'a' && last == 'r' {
        EventKind::Stagger
    } else if len == 9 && third == 's' && last == 'r' {
        EventKind::Unstagger
    } else if len == 13 && third == 'a' && last == 'e' {
        EventKind::PlayerDamage
    } else if len == 14 && third == 'a' && last == 'r' {
        EventKind::PlayerStagger
    } else if len == 4 && third == 'm' && last == 'p' {
        EventKind::Jump
    } else if len == 4 && third == 'n' && last == 'd' {
        EventKind::Land
    } else if len == 11 && third == 'i' && last == 't' {
        EventKind::QuickBoost
    } else if len == 13 && third == 's' && last == 't' {
        EventKind::AssaultStart
    } else if len == 11 && third == 's' && last == 'd' {
        EventKind::AssaultEnd
    } else if len == 12 && third == 'e' && last == 'y' {
        EventKind::EnergyEmpty
    } else if len == 15 && third == 'e' && last == 'd' {
        EventKind::EnergyRestored
    } else if len == 12 && third == 'p' && last == 't' {
        EventKind::RepairStart
    } else if len == 10 && third == 'p' && last == 'd' {
        EventKind::RepairEnd
    } else if len == 13 && third == 'c' && last == 'd' {
        EventKind::LockAcquired
    } else if len == 9 && third == 'c' && last == 't' {
        EventKind::LockLost
    } else if len == 10 && third == 'e' && last == 'e' {
        EventKind::EnemyFire
    } else if len == 9 && third == 'l' && last == 'h' {
        EventKind::Telegraph
    } else if len == 13 && third == 't' && last == 's' {
        EventKind::OutOfBounds
    } else if len == 4 && third == 'n' && last == 't' {
        EventKind::Hint
    } else if len == 9 && third == 'j' && last == 'e' {
        EventKind::Objective
    } else if len == 16 && third == 's' && last == 'e' {
        EventKind::MissionComplete
    } else {
        EventKind::MissionFailed
    }
}

spec fn label_shape_kind(text: Seq<char>) -> EventKind {
    event_kind_by_shape(text.len(), text[2], text[text.len() - 1])
}

proof fn lemma_label_shape_identifies(k: EventKind)
    ensures
        label_shape_kind(k.label_text()) == k,
{
    match k {
        EventKind::Fire => {
            reveal_strlit("fire");
        },
        EventKind::DryFire => {
            reveal_strlit("dry-fire");
        },
        EventKind::ReloadStart => {
            reveal_strlit("reload-start");
        },
        EventKind::ReloadEnd => {
            reveal_strlit("reload-end");
        },
        EventKind::MissileLaunch => {
            reveal_strlit("missile-launch");
        },
        EventKind::Blade => {
            reveal_strlit("blade");
        },
        EventKind::BladeHit => {
            reveal_strlit("blade-hit");
        },
        EventKind::Impact => {
            reveal_strlit("impact");
        },
        EventKind::Hit => {
            reveal_strlit("hit");
        },
        EventKind::Destroy => {
            reveal_strlit("destroy");
        },
        EventKind::Explosion => {
            reveal_strlit("explosion");
        },
        EventKind::Stagger => {
            reveal_strlit("stagger");
        },
        EventKind::Unstagger => {
            reveal_strlit("unstagger");
        },
        EventKind::PlayerDamage => {
            reveal_strlit("player-damage");
        },
        EventKind::PlayerStagger => {
            reveal_strlit("player-stagger");
        },
        EventKind::Jump => {
            reveal_strlit("jump");
        },
        EventKind::Land => {
            reveal_strlit("land");
        },
        EventKind::QuickBoost => {
            reveal_strlit("quick-boost");
        },
        EventKind::AssaultStart => {
            reveal_strlit("assault-start");
        },
        EventKind::AssaultEnd => {
            reveal_strlit("assault-end");
        },
        EventKind::EnergyEmpty => {
            reveal_strlit("energy-empty");
        },
        EventKind::EnergyRestored => {
            reveal_strlit("energy-restored");
        },
        EventKind::RepairStart => {
            reveal_strlit("repair-start");
        },
        EventKind::RepairEnd => {
            reveal_strlit("repair-end");
        },
        EventKind::LockAcquired => {
            reveal_strlit("lock-acquired");
        },
        EventKind::LockLost => {
            reveal_strlit("lock-lost");
        },
        EventKind::EnemyFire => {
            reveal_strlit("enemy-fire");
        },
        EventKind::Telegraph => {
            reveal_strlit("telegraph");
        },
        EventKind::OutOfBounds => {
            reveal_strlit("out-of-bounds");
        },
        EventKind::Hint => {
            reveal_strlit("hint");
        },
        EventKind::Objective => {
            reveal_strlit("objective");
        },
        EventKind::MissionComplete => {
            reveal_strlit("mission-complete");
        },
        EventKind::MissionFailed => {
            reveal_strlit("mission-failed");
        },
    }
}

/// No two kinds of event share a label.
pub proof fn lemma_event_labels_are_distinct(a: EventKind, b: EventKind)
    ensures
        a.label_text() == b.label_text() ==> a == b,
{
    lemma_label_shape_identifies(a);
    lemma_label_shape_identifies(b);
}

} // verus!
