//! The enemies' bookkeeping: what each unit is doing, and the roster that
//! hands out units and ids.
//!
//! The roster reuses dead units of the right kind rather than allocating
//! fresh ones, so a mission that is restarted many times does not grow its
//! list without bound, and it numbers new units from 1000 upwards so that no
//! enemy can share an id with the player.

pub mod tactics;

use vstd::prelude::*;
use crate::mission::MissionFacts;
use crate::types::EnemyKind;

verus! {

/// What a unit is doing.
#[derive(Debug, Clone, Copy, PartialEq, Eq, Structural)]
pub enum AiState {
    Idle,
    Engage,
    Reposition,
    Telegraph,
    Attack,
    Staggered,
    Dead,
}

impl AiState {
    pub open spec fn label_text(self) -> Seq<char> {
        match self {
            AiState::Idle => "idle"@,
            AiState::Engage => "engage"@,
            AiState::Reposition => "reposition"@,
            AiState::Telegraph => "telegraph"@,
            AiState::Attack => "attack"@,
            AiState::Staggered => "staggered"@,
            AiState::Dead => "dead"@,
        }
    }

    pub fn label(self) -> (r: &'static str)
        ensures
            r@ == self.label_text(),
    {
        match self {
            AiState::Idle => "idle",
            AiState::Engage => "engage",
            AiState::Reposition => "reposition",
            AiState::Telegraph => "telegraph",
            AiState::Attack => "attack",
            AiState::Staggered => "staggered",
            AiState::Dead => "dead",
        }
    }
}

/// The first id handed to an enemy. Everything below belongs to the player.
pub const FIRST_ENEMY_ID: u32 = 1000;

/// One unit as the roster sees it.
#[derive(Debug, Clone, Copy, PartialEq, Eq, Structural)]
pub struct RosterEntry {
    pub id: u32,
    pub kind: EnemyKind,
    pub alive: bool,
}

/// How many of `entries` are alive.
pub open spec fn living(entries: Seq<RosterEntry>) -> nat
    decreases entries.len(),
{
    if entries.len() == 0 {
        0
    } else {
        living(entries.drop_last()) + if entries.last().alive {
            1nat
        } else {
            0nat
        }
    }
}

/// Whether `entries[i]` is a dead unit of `kind`, which `obtain` may reuse.
pub open spec fn reusable(entries: Seq<RosterEntry>, i: int, kind: EnemyKind) -> bool {
    0 <= i < entries.len() && !entries[i].alive && entries[i].kind == kind
}

/// The enemies in a mission: creation, reuse and lookup.
#[derive(Debug)]
pub struct EnemyRoster {
    entries: Vec<RosterEntry>,
}

impl View for EnemyRoster {
    type V = Seq<RosterEntry>;

    closed spec fn view(&self) -> Seq<RosterEntry> {
        self.entries@
    }
}

impl EnemyRoster {
    /// Units are numbered in the order they were created, from 1000. Every
    /// roster is so numbered.
    pub open spec fn wf(&self) -> bool {
        forall|i: int| 0 <= i < self@.len() ==> #[trigger] self@[i].id == FIRST_ENEMY_ID + i
    }

    #[verifier::type_invariant]
    closed spec fn numbered(self) -> bool {
        forall|i: int|
            0 <= i < self.entries@.len() ==> #[trigger] self.entries@[i].id == FIRST_ENEMY_ID + i
    }

    pub fn new() -> (r: Self)
        ensures
            r.wf(),
            r@ == Seq::<RosterEntry>::empty(),
    {
        EnemyRoster { entries: Vec::new() }
    }

    pub fn len(&self) -> (n: usize)
        ensures
            n == self@.len(),
    {
        self.entries.len()
    }

    pub fn entry(&self, index: usize) -> (e: RosterEntry)
        requires
            index < self@.len(),
        ensures
            e == self@[index as int],
    {
        self.entries[index]
    }

    /// The place of a unit of `kind` for the mission to deploy: the first
    /// dead unit of that kind when there is one, untouched, for the caller to
    /// revive; otherwise a new live unit on the end, with the next id.
    pub fn obtain(&mut self, kind: EnemyKind) -> (index: usize)
        requires
            (exists|i: int| reusable(old(self)@, i, kind)) || old(self)@.len() < u32::MAX
                - FIRST_ENEMY_ID,
        ensures
            final(self).wf(),
            index < final(self)@.len(),
            final(self)@[index as int].kind == kind,
            (exists|i: int| reusable(old(self)@, i, kind)) ==> {
                &&& final(self)@ == old(self)@
                &&& reusable(old(self)@, index as int, kind)
                &&& forall|i: int| 0 <= i < index ==> !reusable(old(self)@, i, kind)
            },
            (forall|i: int| !reusable(old(self)@, i, kind)) ==> {
                &&& index == old(self)@.len()
                &&& final(self)@ == old(self)@.push(
                    RosterEntry { id: (FIRST_ENEMY_ID + index) as u32, kind, alive: true },
                )
            },
    {
        proof {
            use_type_invariant(&*self);
        }
        let n = self.entries.len();
        let mut i: usize = 0;
        while i < n
            invariant
                n == self@.len(),
                self@ == old(self)@,
                self.wf(),
                i <= n,
                forall|j: int| 0 <= j < i ==> !reusable(self@, j, kind),
            decreases n - i,
        {
            let e = self.entries[i];
            if !e.alive && e.kind == kind {
                assert(reusable(old(self)@, i as int, kind));
                return i;
            }
            i = i + 1;
        }
        let id: u32 = FIRST_ENEMY_ID + (n as u32);
        let mut entries: Vec<RosterEntry> = Vec::new();
        std::mem::swap(&mut entries, &mut self.entries);
        entries.push(RosterEntry { id, kind, alive: true });
        proof {
            assert forall|j: int| 0 <= j < entries@.len() implies #[trigger] entries@[j].id
                == FIRST_ENEMY_ID + j by {
                if j < n {
                    assert(entries@[j] == old(self)@[j]);
                }
            }
        }
        self.entries = entries;
        n
    }

    /// Where the unit with `id` sits, if the roster has it.
    pub fn by_id(&self, id: u32) -> (r: Option<usize>)
        ensures
            r matches Some(i) ==> i < self@.len() && self@[i as int].id == id,
            r is None ==> forall|i: int| 0 <= i < self@.len() ==> self@[i].id != id,
    {
        proof {
            use_type_invariant(self);
        }
        if id < FIRST_ENEMY_ID {
            return None;
        }
        let offset = id - FIRST_ENEMY_ID;
        if (offset as usize) < self.entries.len() {
            Some(offset as usize)
        } else {
            None
        }
    }

    /// How many units are alive.
    pub fn active_count(&self) -> (n: usize)
        ensures
            n == living(self@),
    {
        let mut count: usize = 0;
        let mut i: usize = 0;
        while i < self.entries.len()
            invariant
                i <= self@.len(),
                count == living(self@.subrange(0, i as int)),
                count <= i,
            decreases self@.len() - i,
        {
            proof {
                assert(self@.subrange(0, i + 1).drop_last() =~= self@.subrange(0, i as int));
            }
            if self.entries[i].alive {
                count = count + 1;
            }
            i = i + 1;
        }
        assert(self@.subrange(0, self@.len() as int) =~= self@);
        count
    }

    /// Whether a unit of `kind` is alive. The mission reads this for the boss:
    /// an ordered boss that is not alive has been destroyed.
    pub fn any_alive(&self, kind: EnemyKind) -> (r: bool)
        ensures
            r <==> exists|i: int| 0 <= i < self@.len() && self@[i].alive && self@[i].kind == kind,
    {
        let n = self.entries.len();
        let mut i: usize = 0;
        while i < n
            invariant
                n == self@.len(),
                i <= n,
                forall|j: int| 0 <= j < i ==> !(self@[j].alive && self@[j].kind == kind),
            decreases n - i,
        {
            if self.entries[i].alive && self.entries[i].kind == kind {
                return true;
            }
            i = i + 1;
        }
        false
    }

    /// What the mission needs to know about the roster this step.
    pub fn mission_facts(&self, player_alive: bool) -> (f: MissionFacts)
        ensures
            f.alive_enemies == living(self@),
            f.boss_alive <==> exists|i: int|
                0 <= i < self@.len() && self@[i].alive && self@[i].kind == EnemyKind::Boss,
            f.player_alive == player_alive,
    {
        MissionFacts {
            alive_enemies: self.active_count(),
            boss_alive: self.any_alive(EnemyKind::Boss),
            player_alive,
        }
    }

    /// Record whether the unit at `index` is alive, as combat decided.
    pub fn set_alive(&mut self, index: usize, alive: bool)
        requires
            index < old(self)@.len(),
        ensures
            final(self).wf(),
            final(self)@ == old(self)@.update(
                index as int,
                RosterEntry { alive, ..old(self)@[index as int] },
            ),
    {
        proof {
            use_type_invariant(&*self);
        }
        let mut e = self.entries[index];
        e.alive = alive;
        let mut entries: Vec<RosterEntry> = Vec::new();
        std::mem::swap(&mut entries, &mut self.entries);
        entries.set(index, e);
        proof {
            assert forall|j: int| 0 <= j < entries@.len() implies #[trigger] entries@[j].id
                == FIRST_ENEMY_ID + j by {
                assert(entries@[j].id == old(self)@[j].id);
            }
        }
        self.entries = entries;
    }

    /// Deactivate everything, for a restart. Ids and kinds are kept, so every
    /// unit is available for reuse.
    pub fn clear(&mut self)
        ensures
            final(self).wf(),
            final(self)@.len() == old(self)@.len(),
            forall|i: int|
                0 <= i < final(self)@.len() ==> #[trigger] final(self)@[i] == (RosterEntry {
                    alive: false,
                    ..old(self)@[i]
                }),
    {
        self.set_all_alive(false);
    }

    /// Bring every unit back, for a restart that keeps the roster.
    pub fn revive_all(&mut self)
        ensures
            final(self).wf(),
            final(self)@.len() == old(self)@.len(),
            forall|i: int|
                0 <= i < final(self)@.len() ==> #[trigger] final(self)@[i] == (RosterEntry {
                    alive: true,
                    ..old(self)@[i]
                }),
    {
        self.set_all_alive(true);
    }

    fn set_all_alive(&mut self, alive: bool)
        ensures
            final(self).wf(),
            final(self)@.len() == old(self)@.len(),
            forall|i: int|
                0 <= i < final(self)@.len() ==> #[trigger] final(self)@[i] == (RosterEntry {
                    alive,
                    ..old(self)@[i]
                }),
    {
        proof {
            use_type_invariant(&*self);
        }
        let mut entries: Vec<RosterEntry> = Vec::new();
        std::mem::swap(&mut entries, &mut self.entries);
        let n = entries.len();
        let mut i: usize = 0;
        while i < n
            invariant
                n == entries@.len(),
                n == old(self)@.len(),
                old(self).wf(),
                i <= n,
                forall|j: int|
                    0 <= j < i ==> #[trigger] entries@[j] == (RosterEntry {
                        alive,
                        ..old(self)@[j]
                    }),
                forall|j: int| i <= j < n ==> #[trigger] entries@[j] == old(self)@[j],
            decreases n - i,
        {
            let mut e = entries[i];
            e.alive = alive;
            entries.set(i, e);
            i = i + 1;
        }
        proof {
            assert forall|j: int| 0 <= j < entries@.len() implies #[trigger] entries@[j].id
                == FIRST_ENEMY_ID + j by {
                assert(entries@[j].id == old(self)@[j].id);
            }
        }
        self.entries = entries;
    }
}

impl Clone for EnemyRoster {
    /// The same units.
    fn clone(&self) -> (r: Self)
        ensures
            r@ == self@,
    {
        proof {
            use_type_invariant(self);
        }
        let entries = self.entries.clone();
        proof {
            assert(entries@ =~= self.entries@);
        }
        EnemyRoster { entries }
    }
}

/// No two units in a well-formed roster share an id, and none shares the
/// player's: every id is at least 1000.
pub proof fn lemma_roster_ids_are_unique(roster: &EnemyRoster, i: int, j: int)
    requires
        roster.wf(),
        0 <= i < roster@.len(),
        0 <= j < roster@.len(),
    ensures
        roster@[i].id >= FIRST_ENEMY_ID,
        roster@[i].id == roster@[j].id ==> i == j,
{
    assert(roster@[i].id == FIRST_ENEMY_ID + i);
    assert(roster@[j].id == FIRST_ENEMY_ID + j);
}

} // verus!
