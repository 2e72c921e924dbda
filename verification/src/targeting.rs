//! Target lock: which enemy is locked, and what changes when the lock moves.
//!
//! The lock is held by id and resolved against the enemy list whenever a
//! position is needed, so it can never point at an enemy that has left the
//! list. Scoring candidates and judging whether the lock is still valid are
//! angle and distance tests made by the float code; the decisions those tests
//! feed are made here.

use vstd::prelude::*;

verus! {

/// What moving the lock reported: the lock that was lost, and the one taken.
#[derive(Debug, Clone, Copy, PartialEq, Eq, Structural)]
pub struct LockChange {
    pub lost: Option<u32>,
    pub acquired: Option<u32>,
}

pub open spec fn no_change() -> LockChange {
    LockChange { lost: None, acquired: None }
}

/// What a frame's check of the lock decided.
#[derive(Debug, Clone, Copy, PartialEq, Eq, Structural)]
pub enum LockTrack {
    /// There is no lock to check.
    Idle,
    /// The lock on this id is gone: its enemy left the list, died, or stayed
    /// out of reach past the grace window.
    Lost(u32),
    /// The target is in reach; the grace window starts over.
    Steady,
    /// The target is out of reach, and the lock holds through the grace
    /// window.
    Holding,
}

/// The lock.
#[derive(Debug, Clone, Copy, PartialEq, Eq)]
pub struct TargetLock {
    locked: Option<u32>,
    holding: bool,
}

impl TargetLock {
    /// The locked enemy's id, if any.
    pub closed spec fn target_id(&self) -> Option<u32> {
        self.locked
    }

    /// True while a lock exists but is temporarily invalid, inside its grace
    /// window.
    pub closed spec fn is_holding(&self) -> bool {
        self.holding
    }

    pub fn new() -> (r: Self)
        ensures
            r.target_id() is None,
            !r.is_holding(),
    {
        TargetLock { locked: None, holding: false }
    }

    pub fn locked_id(&self) -> (r: Option<u32>)
        ensures
            r == self.target_id(),
    {
        self.locked
    }

    pub fn holding(&self) -> (r: bool)
        ensures
            r == self.is_holding(),
    {
        self.holding
    }

    /// Lock onto `id`, which `present` says is in the enemy list.
    ///
    /// Locking what is already locked changes nothing and reports nothing, and
    /// an id the list does not hold is refused. Otherwise the previous lock,
    /// if there was one, is reported lost before the new one is reported
    /// taken.
    pub fn lock_on(&mut self, id: u32, present: bool) -> (c: LockChange)
        ensures
            old(self).target_id() == Some(id) || !present ==> {
                &&& c == no_change()
                &&& *final(self) == *old(self)
            },
            old(self).target_id() != Some(id) && present ==> {
                &&& c == (LockChange { lost: old(self).target_id(), acquired: Some(id) })
                &&& final(self).target_id() == Some(id)
                &&& !final(self).is_holding()
            },
    {
        if self.locked == Some(id) || !present {
            return LockChange { lost: None, acquired: None };
        }
        let lost = self.locked;
        self.locked = Some(id);
        self.holding = false;
        LockChange { lost, acquired: Some(id) }
    }

    /// Check the lock for a frame. `target_alive` says the locked enemy is in
    /// the list and alive; `in_reach` that it is within range, inside the
    /// cone and visible; `grace_runs_out` that the grace window ends within
    /// this frame. A target gone or dead loses the lock at once; one out of
    /// reach is held until the grace window runs out.
    pub fn track(&mut self, target_alive: bool, in_reach: bool, grace_runs_out: bool) -> (r:
        LockTrack)
        ensures
            old(self).target_id() is None ==> r == LockTrack::Idle && *final(self) == *old(self),
            old(self).target_id() matches Some(id) ==> {
                if !target_alive || (!in_reach && grace_runs_out) {
                    &&& r == LockTrack::Lost(id)
                    &&& final(self).target_id() is None
                    &&& !final(self).is_holding()
                } else {
                    &&& r == (if in_reach {
                        LockTrack::Steady
                    } else {
                        LockTrack::Holding
                    })
                    &&& final(self).target_id() == Some(id)
                    &&& final(self).is_holding() == !in_reach
                }
            },
    {
        match self.locked {
            None => LockTrack::Idle,
            Some(id) => {
                if !target_alive || (!in_reach && grace_runs_out) {
                    self.locked = None;
                    self.holding = false;
                    LockTrack::Lost(id)
                } else if in_reach {
                    self.holding = false;
                    LockTrack::Steady
                } else {
                    self.holding = true;
                    LockTrack::Holding
                }
            },
        }
    }

    /// Drop the lock, reporting the id that was locked. Dropping no lock
    /// reports nothing.
    pub fn release(&mut self) -> (lost: Option<u32>)
        ensures
            lost == old(self).target_id(),
            final(self).target_id() is None,
            old(self).target_id() is Some ==> !final(self).is_holding(),
            old(self).target_id() is None ==> *final(self) == *old(self),
    {
        match self.locked {
            None => None,
            Some(previous) => {
                self.locked = None;
                self.holding = false;
                Some(previous)
            },
        }
    }
}

/// The position of the first candidate with `id`, if any.
pub open spec fn position_of(ids: Seq<u32>, id: u32) -> Option<int> {
    if exists|i: int| 0 <= i < ids.len() && ids[i] == id {
        Some(choose|i: int| 0 <= i < ids.len() && ids[i] == id && forall|j: int| 0 <= j < i ==> ids[j] != id)
    } else {
        None
    }
}

/// The candidate the wheel moves to: the first when nothing in the list is
/// locked, otherwise the next or previous one, wrapping at both ends.
pub open spec fn cycled(ids: Seq<u32>, locked: Option<u32>, forward: bool) -> int {
    let current = match locked {
        Some(id) => position_of(ids, id),
        None => None,
    };
    match current {
        None => 0,
        Some(i) => if forward {
            (i + 1) % (ids.len() as int)
        } else {
            (i + ids.len() - 1) % (ids.len() as int)
        },
    }
}

proof fn lemma_first_position(ids: Seq<u32>, id: u32, i: int)
    requires
        0 <= i < ids.len(),
        ids[i] == id,
        forall|j: int| 0 <= j < i ==> ids[j] != id,
    ensures
        position_of(ids, id) == Some(i),
{
    let k = choose|k: int| 0 <= k < ids.len() && ids[k] == id && forall|j: int| 0 <= j < k ==> ids[j] != id;
    assert(0 <= k < ids.len() && ids[k] == id && forall|j: int| 0 <= j < k ==> ids[j] != id);
    if k < i {
        assert(ids[k] != id);
    }
    if i < k {
        assert(ids[i] != id);
    }
}

/// Where `id` first appears among `ids`.
fn find_position(ids: &Vec<u32>, id: u32) -> (r: Option<usize>)
    ensures
        r matches Some(i) ==> i < ids@.len() && position_of(ids@, id) == Some(i as int),
        r is None ==> position_of(ids@, id) is None,
{
    let len = ids.len();
    let mut i: usize = 0;
    while i < len
        invariant
            len == ids@.len(),
            i <= len,
            forall|j: int| 0 <= j < i ==> ids@[j] != id,
        decreases len - i,
    {
        if ids[i] == id {
            proof {
                lemma_first_position(ids@, id, i as int);
            }
            return Some(i);
        }
        i = i + 1;
    }
    None
}

/// Which candidate a scroll of the wheel selects, given the candidates' ids
/// in screen order and the current lock.
pub fn cycle_index(ids: &Vec<u32>, locked: Option<u32>, forward: bool) -> (next: usize)
    requires
        ids@.len() > 0,
    ensures
        next < ids@.len(),
        next == cycled(ids@, locked, forward),
{
    let len = ids.len();
    let current = match locked {
        Some(id) => find_position(ids, id),
        None => None,
    };
    match current {
        None => 0,
        Some(index) => if forward {
            (index + 1) % len
        } else {
            assert((index + len - 1) % (len as int) == if index == 0 {
                len - 1
            } else {
                index - 1
            }) by (nonlinear_arith)
                requires
                    index < len,
            {
                if index > 0 {
                    assert(index + len - 1 == (index - 1) + len);
                }
            }
            if index == 0 {
                len - 1
            } else {
                index - 1
            }
        },
    }
}

/// Scrolling one way and then back returns to the candidate that was locked.
pub proof fn lemma_cycle_round_trip(ids: Seq<u32>, i: int)
    requires
        0 <= i < ids.len(),
        forall|a: int, b: int| 0 <= a < b < ids.len() ==> ids[a] != ids[b],
    ensures
        cycled(ids, Some(ids[cycled(ids, Some(ids[i]), true)]), false) == i,
        cycled(ids, Some(ids[cycled(ids, Some(ids[i]), false)]), true) == i,
{
    let n = ids.len() as int;
    lemma_first_position(ids, ids[i], i);
    let f = (i + 1) % n;
    let b = (i + n - 1) % n;
    lemma_first_position(ids, ids[f], f);
    lemma_first_position(ids, ids[b], b);
    assert((f + n - 1) % n == i) by (nonlinear_arith)
        requires
            0 <= i < n,
            f == (i + 1) % n,
    {
        if i + 1 < n {
            assert(f == i + 1);
        } else {
            assert(f == 0);
        }
    }
    assert((b + 1) % n == i) by (nonlinear_arith)
        requires
            0 <= i < n,
            b == (i + n - 1) % n,
    {
        if i > 0 {
            assert(b == i - 1);
        } else {
            assert(b == n - 1);
        }
    }
}

} // verus!
