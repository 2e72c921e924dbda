//! The projectile pool's bookkeeping.
//!
//! Every round in flight occupies one slot of a fixed pool. A new round takes
//! the first free slot at or after a cursor, so successive spawns usually find
//! one on the first look; a saturated pool recycles the slot under the cursor,
//! which is the oldest round, rather than refusing to fire. A weapon that
//! silently stopped working under sustained fire would be worse than one whose
//! oldest round vanishes.

use vstd::prelude::*;
use crate::types::WeaponId;

verus! {

/// Fixed pool size.
pub const POOL_SIZE: usize = 420;

/// What kind of round this is. The kind decides what happens on impact: a
/// bullet is consumed and reports a surface, a missile or mortar detonates and
/// splashes.
#[derive(Debug, Clone, Copy, PartialEq, Eq, Structural)]
pub enum ProjectileKind {
    Bullet,
    Missile,
    Mortar,
    Barrage,
}

pub open spec fn enemy_round_kind(weapon: WeaponId) -> ProjectileKind {
    match weapon {
        WeaponId::EnemyMortar => ProjectileKind::Mortar,
        WeaponId::BossBarrage => ProjectileKind::Barrage,
        _ => ProjectileKind::Bullet,
    }
}

/// The kind of round an enemy weapon fires: mortars and barrages are their
/// own kinds, everything else flies as a bullet.
pub fn kind_for_enemy_weapon(weapon: WeaponId) -> (k: ProjectileKind)
    ensures
        k == enemy_round_kind(weapon),
{
    match weapon {
        WeaponId::EnemyMortar => ProjectileKind::Mortar,
        WeaponId::BossBarrage => ProjectileKind::Barrage,
        _ => ProjectileKind::Bullet,
    }
}

/// How many slots are occupied.
pub open spec fn occupied(active: Seq<bool>) -> nat
    decreases active.len(),
{
    if active.len() == 0 {
        0
    } else {
        occupied(active.drop_last()) + if active.last() {
            1nat
        } else {
            0nat
        }
    }
}

/// The slot `offset` places past `cursor`, wrapping round the pool.
pub open spec fn slot_after(cursor: int, offset: int) -> int {
    (cursor + offset) % (POOL_SIZE as int)
}

/// Whether any slot is free.
pub open spec fn has_free(active: Seq<bool>) -> bool {
    exists|i: int| 0 <= i < active.len() && !active[i]
}

proof fn lemma_occupied_update(s: Seq<bool>, i: int, b: bool)
    requires
        0 <= i < s.len(),
    ensures
        occupied(s.update(i, b)) + (if s[i] {
            1int
        } else {
            0int
        }) == occupied(s) + (if b {
            1int
        } else {
            0int
        }),
    decreases s.len(),
{
    let t = s.update(i, b);
    if i == s.len() - 1 {
        assert(t.drop_last() =~= s.drop_last());
    } else {
        lemma_occupied_update(s.drop_last(), i, b);
        assert(t.drop_last() =~= s.drop_last().update(i, b));
    }
}

proof fn lemma_occupied_bound(s: Seq<bool>)
    ensures
        occupied(s) <= s.len(),
    decreases s.len(),
{
    if s.len() > 0 {
        lemma_occupied_bound(s.drop_last());
    }
}

/// Which slots of the pool hold a round in flight, and where the next search
/// starts.
#[derive(Debug)]
pub struct ProjectilePool {
    active: Vec<bool>,
    cursor: usize,
}

impl ProjectilePool {
    pub closed spec fn slots(&self) -> Seq<bool> {
        self.active@
    }

    pub closed spec fn next_search(&self) -> int {
        self.cursor as int
    }

    /// What every pool satisfies: its full set of slots, and a cursor on one
    /// of them.
    pub open spec fn wf(&self) -> bool {
        &&& self.slots().len() == POOL_SIZE
        &&& 0 <= self.next_search() < POOL_SIZE
    }

    /// Every pool has its full set of slots and a cursor on one of them.
    #[verifier::type_invariant]
    closed spec fn inner_wf(self) -> bool {
        self.active@.len() == POOL_SIZE && self.cursor < POOL_SIZE
    }

    /// An empty pool, searching from the first slot.
    pub fn new() -> (r: Self)
        ensures
            r.wf(),
            r.next_search() == 0,
            forall|i: int| 0 <= i < POOL_SIZE ==> !#[trigger] r.slots()[i],
    {
        let mut active: Vec<bool> = Vec::new();
        let mut i: usize = 0;
        while i < POOL_SIZE
            invariant
                i <= POOL_SIZE,
                active@.len() == i,
                forall|j: int| 0 <= j < i ==> !#[trigger] active@[j],
            decreases POOL_SIZE - i,
        {
            active.push(false);
            i = i + 1;
        }
        ProjectilePool { active, cursor: 0 }
    }

    pub fn is_active(&self, index: usize) -> (r: bool)
        requires
            index < POOL_SIZE,
        ensures
            r == self.slots()[index as int],
            self.wf(),
    {
        proof {
            use_type_invariant(self);
        }
        self.active[index]
    }

    /// Take a slot for a new round and mark it in flight.
    ///
    /// The slot is the first free one at or after the cursor, wrapping round;
    /// when every slot is in flight it is the slot under the cursor, whose
    /// round is replaced. The next search starts just past the slot taken.
    pub fn claim(&mut self) -> (index: usize)
        ensures
            final(self).wf(),
            index < POOL_SIZE,
            final(self).slots() == old(self).slots().update(index as int, true),
            final(self).next_search() == (index + 1) % (POOL_SIZE as int),
            has_free(old(self).slots()) ==> {
                &&& !old(self).slots()[index as int]
                &&& exists|k: int|
                    0 <= k < POOL_SIZE && index == slot_after(old(self).next_search(), k)
                        && forall|j: int|
                        0 <= j < k ==> old(self).slots()[slot_after(
                            old(self).next_search(),
                            j,
                        )]
            },
            !has_free(old(self).slots()) ==> index == old(self).next_search(),
            occupied(final(self).slots()) == occupied(old(self).slots()) + if has_free(
                old(self).slots(),
            ) {
                1int
            } else {
                0int
            },
    {
        proof {
            use_type_invariant(&*self);
        }
        let start = self.cursor;
        let mut offset: usize = 0;
        while offset < POOL_SIZE
            invariant
                self.active@ == old(self).active@,
                self.cursor == start,
                start == old(self).cursor,
                start < POOL_SIZE,
                self.active@.len() == POOL_SIZE,
                offset <= POOL_SIZE,
                forall|j: int| 0 <= j < offset ==> self.active@[slot_after(start as int, j)],
            decreases POOL_SIZE - offset,
        {
            let index = (start + offset) % POOL_SIZE;
            if !self.active[index] {
                let ghost before = self.active@;
                self.active[index] = true;
                self.cursor = (index + 1) % POOL_SIZE;
                proof {
                    assert(has_free(before));
                    lemma_occupied_update(before, index as int, true);
                    assert(index as int == slot_after(start as int, offset as int));
                    let k = offset as int;
                    assert(0 <= k < POOL_SIZE && index == slot_after(old(self).next_search(), k)
                        && forall|j: int|
                        0 <= j < k ==> old(self).slots()[slot_after(old(self).next_search(), j)]);
                }
                return index;
            }
            offset = offset + 1;
        }
        proof {
            assert forall|i: int| 0 <= i < POOL_SIZE implies self.active@[i] by {
                let k = (i - start + POOL_SIZE as int) % (POOL_SIZE as int);
                assert(slot_after(start as int, k) == i);
            }
            assert(!has_free(self.active@));
            assert(self.active@.update(start as int, true) =~= self.active@);
        }
        self.cursor = (start + 1) % POOL_SIZE;
        start
    }

    /// Return a slot to the pool, as a round that expired or hit something.
    pub fn release(&mut self, index: usize)
        requires
            index < POOL_SIZE,
        ensures
            final(self).wf(),
            final(self).slots() == old(self).slots().update(index as int, false),
            final(self).next_search() == old(self).next_search(),
    {
        proof {
            use_type_invariant(&*self);
        }
        self.active[index] = false;
    }

    /// How many rounds are in flight.
    pub fn active_count(&self) -> (n: usize)
        ensures
            self.wf(),
            n == occupied(self.slots()),
    {
        proof {
            use_type_invariant(&*self);
        }
        let mut count: usize = 0;
        let mut i: usize = 0;
        while i < self.active.len()
            invariant
                i <= self.active@.len(),
                count == occupied(self.active@.subrange(0, i as int)),
                count <= i,
            decreases self.active@.len() - i,
        {
            proof {
                assert(self.active@.subrange(0, i + 1).drop_last() =~= self.active@.subrange(
                    0,
                    i as int,
                ));
            }
            if self.active[i] {
                count = count + 1;
            }
            i = i + 1;
        }
        assert(self.active@.subrange(0, self.active@.len() as int) =~= self.active@);
        count
    }

    /// Drop every round in flight. The cursor stays where it was.
    pub fn clear(&mut self)
        ensures
            final(self).wf(),
            final(self).next_search() == old(self).next_search(),
            forall|i: int| 0 <= i < POOL_SIZE ==> !#[trigger] final(self).slots()[i],
    {
        proof {
            use_type_invariant(&*self);
        }
        let mut i: usize = 0;
        while i < POOL_SIZE
            invariant
                self.active@.len() == POOL_SIZE,
                self.cursor == old(self).cursor,
                self.cursor < POOL_SIZE,
                i <= POOL_SIZE,
                forall|j: int| 0 <= j < i ==> !#[trigger] self.active@[j],
            decreases POOL_SIZE - i,
        {
            self.active[i] = false;
            i = i + 1;
        }
    }
}

impl Clone for ProjectilePool {
    /// The same slots and the same cursor.
    fn clone(&self) -> (r: Self)
        ensures
            r.slots() == self.slots(),
            r.next_search() == self.next_search(),
    {
        proof {
            use_type_invariant(self);
        }
        let active = self.active.clone();
        proof {
            assert(active@ =~= self.active@);
        }
        ProjectilePool { active, cursor: self.cursor }
    }
}

/// A pool never holds more rounds than it has slots.
pub proof fn lemma_pool_is_bounded(pool: &ProjectilePool)
    requires
        pool.wf(),
    ensures
        occupied(pool.slots()) <= POOL_SIZE,
{
    lemma_occupied_bound(pool.slots());
}

} // verus!
