//! The player's decisions: the weapons and repairs, as a machine over whole
//! rounds, missiles and blade phases; the movement modes (quick boost,
//! assault boost, jump and flight); and the energy gauge's announcements.
//!
//! The caller keeps the countdowns in seconds and the energy in its tank.
//! Each frame it reports what they say as plain facts, and this module
//! decides: which rounds are spent, when a reload starts and ends, when a
//! volley launches, which phase the blade is in, which movement modes are on
//! and when a jump fires. It answers with the actions to carry out, in the
//! order they happen.

use vstd::prelude::*;
use crate::config::{missiles, player as frame, rifle};
use crate::types::{BladePhase, WeaponId};

verus! {

/// The triggers, pulled out of the movement intent because they are about
/// weapons rather than about moving.
#[derive(Debug, Clone, Copy, PartialEq, Eq, Default, Structural)]
pub struct Triggers {
    pub fire_primary: bool,
    pub missile_pressed: bool,
    pub blade_pressed: bool,
    pub reload_pressed: bool,
    pub repair_pressed: bool,
}

/// What the caller's countdowns say this frame.
#[derive(Debug, Clone, Copy, PartialEq, Eq, Default, Structural)]
pub struct WeaponClock {
    /// The reload under way finishes within this frame.
    pub reload_elapses: bool,
    /// The autocannon's cycle time has run out.
    pub rifle_ready: bool,
    /// The frame is staggered and cannot start anything.
    pub staggered: bool,
    /// The missile pod's cooldown has run out.
    pub pod_ready: bool,
    /// The interval between two launches of the running volley ends within
    /// this frame.
    pub launch_due: bool,
    /// The blade's cooldown has run out.
    pub blade_ready: bool,
    /// The blade phase under way ends within this frame.
    pub blade_elapses: bool,
    /// A wind-up begun this frame would already end within it.
    pub windup_elapses: bool,
}

/// The discrete state of the weapons.
#[derive(Debug, Clone, Copy, PartialEq, Eq, Structural)]
pub struct Loadout {
    /// Rounds in the autocannon's magazine.
    pub ammo: u32,
    /// Whether a reload is under way.
    pub reloading: bool,
    /// Missiles of the current volley still to launch.
    pub volley_left: u32,
    /// The enemy the current volley was fired at, if any.
    pub volley_target: Option<u32>,
    /// The blade's phase.
    pub phase: BladePhase,
    /// Whether this swing's lunge has been given.
    pub lunge_applied: bool,
    /// Repair charges left.
    pub repairs: u32,
}

/// One thing the weapons do this frame.
#[derive(Debug, Clone, Copy, PartialEq, Eq, Structural)]
pub enum WeaponAction {
    /// The reload has finished and the magazine is full.
    ReloadEnd,
    /// A reload starts.
    ReloadStart,
    /// The autocannon fires one round.
    Fire,
    /// A trigger was pulled on a weapon that cannot fire.
    DryFire(WeaponId),
    /// A volley begins; its first missile leaves this same frame.
    VolleyStart,
    /// One missile of the volley leaves; `left` are still to come.
    Launch { left: u32 },
    /// The blade enters a phase.
    Swing(BladePhase),
    /// The step into the swing, given once per swing.
    Lunge,
    /// The swing is over and the blade's cooldown starts.
    BladeRest,
}

/// A loadout that the weapons can be in.
pub open spec fn sound(l: Loadout) -> bool {
    &&& l.ammo <= rifle::MAGAZINE
    &&& l.volley_left <= missiles::COUNT
    &&& l.repairs <= frame::REPAIRS
}

/// A full magazine, an idle blade, no volley and every repair charge.
pub open spec fn fresh_loadout() -> Loadout {
    Loadout {
        ammo: rifle::MAGAZINE,
        reloading: false,
        volley_left: 0,
        volley_target: None,
        phase: BladePhase::Idle,
        lunge_applied: false,
        repairs: frame::REPAIRS,
    }
}

/// The reload: a running reload ends when its time is up and fills the
/// magazine; otherwise the reload key starts one, unless the magazine is
/// already full.
pub open spec fn reload_stage(l: Loadout, t: Triggers, c: WeaponClock) -> (Loadout, Seq<WeaponAction>) {
    if l.reloading {
        if c.reload_elapses {
            (Loadout { reloading: false, ammo: rifle::MAGAZINE, ..l }, seq![WeaponAction::ReloadEnd])
        } else {
            (l, seq![])
        }
    } else if t.reload_pressed && l.ammo < rifle::MAGAZINE {
        (Loadout { reloading: true, ..l }, seq![WeaponAction::ReloadStart])
    } else {
        (l, seq![])
    }
}

/// Whether the autocannon's trigger is live: held, cycled, not reloading and
/// not staggered.
pub open spec fn rifle_live(l: Loadout, t: Triggers, c: WeaponClock) -> bool {
    t.fire_primary && c.rifle_ready && !l.reloading && !c.staggered
}

/// The autocannon: a live trigger fires one round, or on an empty magazine
/// clicks and starts a reload by itself.
pub open spec fn rifle_stage(l: Loadout, t: Triggers, c: WeaponClock) -> (Loadout, Seq<WeaponAction>) {
    if rifle_live(l, t, c) {
        if l.ammo > 0 {
            (Loadout { ammo: (l.ammo - 1) as u32, ..l }, seq![WeaponAction::Fire])
        } else {
            (
                Loadout { reloading: true, ..l },
                seq![WeaponAction::DryFire(WeaponId::Rifle), WeaponAction::ReloadStart],
            )
        }
    } else {
        (l, seq![])
    }
}

/// Whether the missile trigger is live: pressed, the pod cooled down, no
/// volley under way and not staggered.
pub open spec fn pod_live(l: Loadout, t: Triggers, c: WeaponClock) -> bool {
    t.missile_pressed && c.pod_ready && l.volley_left == 0 && !c.staggered
}

/// The missile pod: a live trigger without the lock the pod needs only
/// clicks; with it, a volley of the whole pod starts at the locked enemy.
/// While a volley runs, one missile leaves each time the interval is up, and
/// the first leaves in the frame the volley starts.
pub open spec fn pod_stage(l: Loadout, t: Triggers, lock: Option<u32>, c: WeaponClock) -> (
    Loadout,
    Seq<WeaponAction>,
) {
    let refused = pod_live(l, t, c) && missiles::LOCK_REQUIRED && lock is None;
    let begun = pod_live(l, t, c) && !refused;
    let l1 = if begun {
        Loadout { volley_left: missiles::COUNT, volley_target: lock, ..l }
    } else {
        l
    };
    let a1 = if refused {
        seq![WeaponAction::DryFire(WeaponId::Missiles)]
    } else if begun {
        seq![WeaponAction::VolleyStart]
    } else {
        seq![]
    };
    if l1.volley_left > 0 && (begun || c.launch_due) {
        let left = (l1.volley_left - 1) as u32;
        (Loadout { volley_left: left, ..l1 }, a1.push(WeaponAction::Launch { left }))
    } else {
        (l1, a1)
    }
}

/// Whether a swing starts: the blade key on an idle, cooled-down blade, not
/// staggered.
pub open spec fn swing_begins(l: Loadout, t: Triggers, c: WeaponClock) -> bool {
    t.blade_pressed && l.phase == BladePhase::Idle && c.blade_ready && !c.staggered
}

/// The blade: a swing starts in its wind-up; each phase gives way to the next
/// when its time is up, one change per frame; the lunge is given once, on the
/// first frame of the damage window; after the recovery the blade rests.
pub open spec fn blade_stage(l: Loadout, t: Triggers, c: WeaponClock) -> (Loadout, Seq<WeaponAction>) {
    let begun = swing_begins(l, t, c);
    let l1 = if begun {
        Loadout { phase: BladePhase::Windup, lunge_applied: false, ..l }
    } else {
        l
    };
    let a1 = if begun {
        seq![WeaponAction::Swing(BladePhase::Windup)]
    } else {
        seq![]
    };
    let elapsed = if begun {
        c.windup_elapses
    } else {
        c.blade_elapses
    };
    match l1.phase {
        BladePhase::Idle => (l1, a1),
        BladePhase::Windup => if elapsed {
            (Loadout { phase: BladePhase::Active, ..l1 }, a1.push(WeaponAction::Swing(BladePhase::Active)))
        } else {
            (l1, a1)
        },
        BladePhase::Active => {
            let l2 = Loadout { lunge_applied: true, ..l1 };
            let a2 = if l1.lunge_applied {
                a1
            } else {
                a1.push(WeaponAction::Lunge)
            };
            if elapsed {
                (Loadout { phase: BladePhase::Recovery, ..l2 }, a2.push(WeaponAction::Swing(BladePhase::Recovery)))
            } else {
                (l2, a2)
            }
        },
        BladePhase::Recovery => if elapsed {
            (Loadout { phase: BladePhase::Idle, ..l1 }, a1.push(WeaponAction::BladeRest))
        } else {
            (l1, a1)
        },
    }
}

/// One frame of the weapons: the reload, then the autocannon, then the
/// missile pod, then the blade, each seeing what the one before it did.
pub open spec fn weapons_step(l: Loadout, t: Triggers, lock: Option<u32>, c: WeaponClock) -> (
    Loadout,
    Seq<WeaponAction>,
) {
    let (l1, a1) = reload_stage(l, t, c);
    let (l2, a2) = rifle_stage(l1, t, c);
    let (l3, a3) = pod_stage(l2, t, lock, c);
    let (l4, a4) = blade_stage(l3, t, c);
    (l4, a1 + a2 + a3 + a4)
}

fn reload(l: Loadout, t: Triggers, c: WeaponClock, acts: &mut Vec<WeaponAction>) -> (r: Loadout)
    ensures
        r == reload_stage(l, t, c).0,
        final(acts)@ == old(acts)@ + reload_stage(l, t, c).1,
{
    if l.reloading {
        if c.reload_elapses {
            acts.push(WeaponAction::ReloadEnd);
            Loadout { reloading: false, ammo: rifle::MAGAZINE, ..l }
        } else {
            assert(old(acts)@ + seq![] =~= old(acts)@);
            l
        }
    } else if t.reload_pressed && l.ammo < rifle::MAGAZINE {
        acts.push(WeaponAction::ReloadStart);
        Loadout { reloading: true, ..l }
    } else {
        assert(old(acts)@ + seq![] =~= old(acts)@);
        l
    }
}

fn rifle(l: Loadout, t: Triggers, c: WeaponClock, acts: &mut Vec<WeaponAction>) -> (r: Loadout)
    ensures
        r == rifle_stage(l, t, c).0,
        final(acts)@ == old(acts)@ + rifle_stage(l, t, c).1,
{
    if t.fire_primary && c.rifle_ready && !l.reloading && !c.staggered {
        if l.ammo > 0 {
            acts.push(WeaponAction::Fire);
            Loadout { ammo: l.ammo - 1, ..l }
        } else {
            acts.push(WeaponAction::DryFire(WeaponId::Rifle));
            acts.push(WeaponAction::ReloadStart);
            assert(acts@ =~= old(acts)@ + seq![
                WeaponAction::DryFire(WeaponId::Rifle),
                WeaponAction::ReloadStart,
            ]);
            Loadout { reloading: true, ..l }
        }
    } else {
        assert(old(acts)@ + seq![] =~= old(acts)@);
        l
    }
}

fn pod(
    l: Loadout,
    t: Triggers,
    lock: Option<u32>,
    c: WeaponClock,
    acts: &mut Vec<WeaponAction>,
) -> (r: Loadout)
    ensures
        r == pod_stage(l, t, lock, c).0,
        final(acts)@ == old(acts)@ + pod_stage(l, t, lock, c).1,
{
    let live = t.missile_pressed && c.pod_ready && l.volley_left == 0 && !c.staggered;
    let refused = live && missiles::LOCK_REQUIRED && lock.is_none();
    let begun = live && !refused;
    let ghost start = acts@;
    let mut l1 = l;
    if refused {
        acts.push(WeaponAction::DryFire(WeaponId::Missiles));
    } else if begun {
        acts.push(WeaponAction::VolleyStart);
        l1 = Loadout { volley_left: missiles::COUNT, volley_target: lock, ..l };
    }
    let ghost a1 = if refused {
        seq![WeaponAction::DryFire(WeaponId::Missiles)]
    } else if begun {
        seq![WeaponAction::VolleyStart]
    } else {
        seq![]
    };
    assert(acts@ =~= start + a1);
    if l1.volley_left > 0 && (begun || c.launch_due) {
        let left = l1.volley_left - 1;
        acts.push(WeaponAction::Launch { left });
        assert(acts@ =~= start + a1.push(WeaponAction::Launch { left }));
        Loadout { volley_left: left, ..l1 }
    } else {
        l1
    }
}

fn blade(l: Loadout, t: Triggers, c: WeaponClock, acts: &mut Vec<WeaponAction>) -> (r: Loadout)
    ensures
        r == blade_stage(l, t, c).0,
        final(acts)@ == old(acts)@ + blade_stage(l, t, c).1,
{
    let begun = t.blade_pressed && l.phase == BladePhase::Idle && c.blade_ready && !c.staggered;
    let ghost start = acts@;
    let mut l1 = l;
    if begun {
        acts.push(WeaponAction::Swing(BladePhase::Windup));
        l1 = Loadout { phase: BladePhase::Windup, lunge_applied: false, ..l };
    }
    let ghost a1 = if begun {
        seq![WeaponAction::Swing(BladePhase::Windup)]
    } else {
        seq![]
    };
    assert(acts@ =~= start + a1);
    let elapsed = if begun {
        c.windup_elapses
    } else {
        c.blade_elapses
    };
    match l1.phase {
        BladePhase::Idle => l1,
        BladePhase::Windup => if elapsed {
            acts.push(WeaponAction::Swing(BladePhase::Active));
            assert(acts@ =~= start + a1.push(WeaponAction::Swing(BladePhase::Active)));
            Loadout { phase: BladePhase::Active, ..l1 }
        } else {
            l1
        },
        BladePhase::Active => {
            let ghost a2 = if l1.lunge_applied {
                a1
            } else {
                a1.push(WeaponAction::Lunge)
            };
            if !l1.lunge_applied {
                acts.push(WeaponAction::Lunge);
            }
            assert(acts@ =~= start + a2);
            let l2 = Loadout { lunge_applied: true, ..l1 };
            if elapsed {
                acts.push(WeaponAction::Swing(BladePhase::Recovery));
                assert(acts@ =~= start + a2.push(WeaponAction::Swing(BladePhase::Recovery)));
                Loadout { phase: BladePhase::Recovery, ..l2 }
            } else {
                l2
            }
        },
        BladePhase::Recovery => if elapsed {
            acts.push(WeaponAction::BladeRest);
            assert(acts@ =~= start + a1.push(WeaponAction::BladeRest));
            Loadout { phase: BladePhase::Idle, ..l1 }
        } else {
            l1
        },
    }
}

/// The player's weapons: the loadout, and the enemies the current swing has
/// already struck.
#[derive(Debug, Clone)]
pub struct Armoury {
    loadout: Loadout,
    /// Struck by this swing, in the order they were struck.
    swing_hits: Vec<u32>,
}

impl Armoury {
    /// The state of the weapons.
    pub closed spec fn state(&self) -> Loadout {
        self.loadout
    }

    /// The enemies this swing has struck, in order.
    pub closed spec fn struck(&self) -> Seq<u32> {
        self.swing_hits@
    }

    /// Full magazine, idle blade, every repair charge.
    pub fn new() -> (r: Self)
        ensures
            r.state() == fresh_loadout(),
            r.struck() == Seq::<u32>::empty(),
    {
        Armoury {
            loadout: Loadout {
                ammo: rifle::MAGAZINE,
                reloading: false,
                volley_left: 0,
                volley_target: None,
                phase: BladePhase::Idle,
                lunge_applied: false,
                repairs: frame::REPAIRS,
            },
            swing_hits: Vec::new(),
        }
    }

    /// Rearm for a new sortie.
    pub fn reset(&mut self)
        ensures
            final(self).state() == fresh_loadout(),
            final(self).struck() == Seq::<u32>::empty(),
    {
        *self = Armoury::new();
    }

    /// The state of the weapons.
    pub fn loadout(&self) -> (r: Loadout)
        ensures
            r == self.state(),
    {
        self.loadout
    }

    /// Rounds in the magazine.
    pub fn ammo(&self) -> (r: u32)
        ensures
            r == self.state().ammo,
    {
        self.loadout.ammo
    }

    /// Whether a reload is under way.
    pub fn reloading(&self) -> (r: bool)
        ensures
            r == self.state().reloading,
    {
        self.loadout.reloading
    }

    /// The blade's phase.
    pub fn phase(&self) -> (r: BladePhase)
        ensures
            r == self.state().phase,
    {
        self.loadout.phase
    }

    /// Repair charges left.
    pub fn repairs(&self) -> (r: u32)
        ensures
            r == self.state().repairs,
    {
        self.loadout.repairs
    }

    /// Missiles of the current volley still to launch.
    pub fn volley_left(&self) -> (r: u32)
        ensures
            r == self.state().volley_left,
    {
        self.loadout.volley_left
    }

    /// Which enemy the current volley was fired at, if any.
    pub fn volley_target(&self) -> (r: Option<u32>)
        ensures
            r == self.state().volley_target,
    {
        self.loadout.volley_target
    }

    /// One frame of the weapons, from the triggers, the lock the targeting
    /// holds and what the countdowns say. Returns what the weapons do, in
    /// order. A swing that starts clears the list of enemies struck.
    pub fn tick(&mut self, triggers: Triggers, lock: Option<u32>, clock: WeaponClock) -> (acts: Vec<
        WeaponAction,
    >)
        ensures
            final(self).state() == weapons_step(old(self).state(), triggers, lock, clock).0,
            acts@ == weapons_step(old(self).state(), triggers, lock, clock).1,
            final(self).struck() == (if swing_begins(old(self).state(), triggers, clock) {
                Seq::<u32>::empty()
            } else {
                old(self).struck()
            }),
    {
        let ghost l0 = self.loadout;
        let mut acts: Vec<WeaponAction> = Vec::new();
        let l1 = reload(self.loadout, triggers, clock, &mut acts);
        let l2 = rifle(l1, triggers, clock, &mut acts);
        let l3 = pod(l2, triggers, lock, clock, &mut acts);
        let begins = triggers.blade_pressed && l3.phase == BladePhase::Idle && clock.blade_ready
            && !clock.staggered;
        let l4 = blade(l3, triggers, clock, &mut acts);
        if begins {
            // Cleared per swing, which is what makes it one hit per target per
            // swing rather than one per frame.
            self.swing_hits.clear();
        }
        self.loadout = l4;
        proof {
            let (m1, a1) = reload_stage(l0, triggers, clock);
            let (m2, a2) = rifle_stage(m1, triggers, clock);
            let (m3, a3) = pod_stage(m2, triggers, lock, clock);
            assert(m3.phase == l0.phase);
            assert(acts@ =~= a1 + a2 + a3 + blade_stage(m3, triggers, clock).1);
        }
        acts
    }

    /// Note that the current swing overlaps enemy `id`. Returns whether the
    /// swing had not struck it yet, so a swing cannot strike one enemy twice.
    pub fn register_blade_hit(&mut self, id: u32) -> (r: bool)
        ensures
            r == !old(self).struck().contains(id),
            final(self).struck() == (if r {
                old(self).struck().push(id)
            } else {
                old(self).struck()
            }),
            final(self).state() == old(self).state(),
    {
        let mut i: usize = 0;
        while i < self.swing_hits.len()
            invariant
                i <= self.swing_hits@.len(),
                forall|j: int| 0 <= j < i ==> self.swing_hits@[j] != id,
            decreases self.swing_hits@.len() - i,
        {
            if self.swing_hits[i] == id {
                return false;
            }
            i = i + 1;
        }
        self.swing_hits.push(id);
        true
    }

    /// Spend a repair charge when the key is pressed and the frame can be
    /// repaired (`ready`: on the ground, hurt, and no repair already under
    /// way). Returns the charges left when a repair starts.
    pub fn repair(&mut self, pressed: bool, ready: bool) -> (r: Option<u32>)
        ensures
            (pressed && ready && old(self).state().repairs > 0) ==> r == Some(
                (old(self).state().repairs - 1) as u32,
            ),
            !(pressed && ready && old(self).state().repairs > 0) ==> r is None,
            final(self).state() == (match r {
                Some(left) => Loadout { repairs: left, ..old(self).state() },
                None => old(self).state(),
            }),
            final(self).struck() == old(self).struck(),
    {
        if pressed && ready && self.loadout.repairs > 0 {
            self.loadout.repairs = self.loadout.repairs - 1;
            Some(self.loadout.repairs)
        } else {
            None
        }
    }
}

impl Default for Armoury {
    fn default() -> (r: Self)
        ensures
            r.state() == fresh_loadout(),
            r.struck() == Seq::<u32>::empty(),
    {
        Armoury::new()
    }
}

/// What the controls and the caller's measures say about movement this
/// frame.
#[derive(Debug, Clone, Copy, PartialEq, Eq, Default, Structural)]
pub struct MovementCues {
    /// The quick-boost key was pressed this frame.
    pub boost_pressed: bool,
    /// A quick boost may start: enough energy, its cooldown over, not
    /// staggered and not repairing.
    pub boost_ready: bool,
    /// The quick boost under way ends within this frame.
    pub boost_elapses: bool,
    /// A quick boost begun this frame would already end within it.
    pub fresh_boost_elapses: bool,
    /// The assault key is held.
    pub assault_held: bool,
    /// The tank is not empty.
    pub energy_left: bool,
    /// The tank would not be empty after paying for a quick boost.
    pub energy_after_boost: bool,
    /// The frame is staggered.
    pub staggered: bool,
    /// A repair is under way.
    pub repairing: bool,
    /// A jump press is still buffered.
    pub jump_due: bool,
    /// The mech stands on the ground.
    pub grounded: bool,
    /// The mech left the ground only a moment ago and may still jump.
    pub coyote: bool,
    /// The jump key is held, asking for thrust.
    pub jump_held: bool,
}

/// Which of the mech's movement modes are on.
#[derive(Debug, Clone, Copy, PartialEq, Eq, Default, Structural)]
pub struct Mobility {
    /// A quick boost is under way.
    pub boosting: bool,
    /// The assault boost is on.
    pub assaulting: bool,
    /// The mech is thrusting upward.
    pub flying: bool,
}

/// One thing the mech's movement does this frame.
#[derive(Debug, Clone, Copy, PartialEq, Eq, Structural)]
pub enum MoveAction {
    /// A quick boost starts and its energy is paid.
    QuickBoost,
    /// The assault boost switches on.
    AssaultStart,
    /// The assault boost switches off.
    AssaultEnd,
    /// The mech jumps.
    Jump,
}

/// One frame of the movement modes: a quick boost first, then the assault
/// boost, which a running quick boost holds off, then the jump, then flight,
/// which the assault boost rules out. Each mode is announced when it starts,
/// and the assault boost also when it stops.
pub open spec fn movement_step(m: Mobility, c: MovementCues) -> (Mobility, Seq<MoveAction>) {
    let boost = c.boost_pressed && c.boost_ready;
    let boosting = if boost {
        !c.fresh_boost_elapses
    } else {
        m.boosting && !c.boost_elapses
    };
    let energy = if boost {
        c.energy_after_boost
    } else {
        c.energy_left
    };
    let assaulting = c.assault_held && energy && !c.staggered && !c.repairing && !boosting;
    let jump = c.jump_due && (c.grounded || c.coyote);
    let flying = c.jump_held && !(c.grounded && !jump) && energy && !c.staggered && !assaulting;
    let a1 = if boost {
        seq![MoveAction::QuickBoost]
    } else {
        seq![]
    };
    let a2 = if assaulting && !m.assaulting {
        a1.push(MoveAction::AssaultStart)
    } else if !assaulting && m.assaulting {
        a1.push(MoveAction::AssaultEnd)
    } else {
        a1
    };
    let a3 = if jump {
        a2.push(MoveAction::Jump)
    } else {
        a2
    };
    (Mobility { boosting, assaulting, flying }, a3)
}

impl Mobility {
    /// Standing still, nothing on.
    pub fn new() -> (r: Self)
        ensures
            r == (Mobility { boosting: false, assaulting: false, flying: false }),
    {
        Mobility { boosting: false, assaulting: false, flying: false }
    }

    /// Whether energy is being spent, which holds off regeneration.
    pub fn spending(&self) -> (r: bool)
        ensures
            r == (self.boosting || self.flying || self.assaulting),
    {
        self.boosting || self.flying || self.assaulting
    }

    /// Touching down ends flight; nothing else changes.
    pub fn land(&mut self)
        ensures
            *final(self) == (Mobility { flying: false, ..*old(self) }),
    {
        self.flying = false;
    }

    /// One frame of the movement modes. Returns what happens, in order.
    pub fn step(&mut self, cues: MovementCues) -> (acts: Vec<MoveAction>)
        ensures
            *final(self) == movement_step(*old(self), cues).0,
            acts@ == movement_step(*old(self), cues).1,
    {
        let m = *self;
        let mut acts: Vec<MoveAction> = Vec::new();
        let boost = cues.boost_pressed && cues.boost_ready;
        if boost {
            acts.push(MoveAction::QuickBoost);
        }
        let boosting = if boost {
            !cues.fresh_boost_elapses
        } else {
            m.boosting && !cues.boost_elapses
        };
        let energy = if boost {
            cues.energy_after_boost
        } else {
            cues.energy_left
        };
        let assaulting = cues.assault_held && energy && !cues.staggered && !cues.repairing
            && !boosting;
        if assaulting && !m.assaulting {
            acts.push(MoveAction::AssaultStart);
        } else if !assaulting && m.assaulting {
            acts.push(MoveAction::AssaultEnd);
        }
        let jump = cues.jump_due && (cues.grounded || cues.coyote);
        if jump {
            acts.push(MoveAction::Jump);
        }
        let flying = cues.jump_held && !(cues.grounded && !jump) && energy && !cues.staggered
            && !assaulting;
        *self = Mobility { boosting, assaulting, flying };
        proof {
            assert(acts@ =~= movement_step(m, cues).1);
        }
        acts
    }
}

/// What the energy gauge announces.
#[derive(Debug, Clone, Copy, PartialEq, Eq, Structural)]
pub enum GaugeNotice {
    /// The tank has just run empty.
    Empty,
    /// The tank has refilled far enough to count again.
    Restored,
}

/// The gauge's announcement, from whether it was already reported empty,
/// whether the tank is empty now and whether it is above a quarter. An empty
/// tank is reported once; it is reported restored only once it is back
/// above a quarter, not on the first drop of regeneration.
pub open spec fn gauge_notice(was_empty: bool, empty: bool, above_quarter: bool) -> Option<GaugeNotice> {
    if empty && !was_empty {
        Some(GaugeNotice::Empty)
    } else if !empty && was_empty && above_quarter {
        Some(GaugeNotice::Restored)
    } else {
        None
    }
}

/// The gauge's edge detector.
#[derive(Debug, Clone, Copy, PartialEq, Eq, Default, Structural)]
pub struct Gauge {
    /// Whether an empty tank has been reported and not yet a recovery.
    pub reported_empty: bool,
}

impl Gauge {
    pub fn new() -> (r: Self)
        ensures
            !r.reported_empty,
    {
        Gauge { reported_empty: false }
    }

    /// Read the tank for a frame and return what to announce.
    pub fn read(&mut self, empty: bool, above_quarter: bool) -> (r: Option<GaugeNotice>)
        ensures
            r == gauge_notice(old(self).reported_empty, empty, above_quarter),
            final(self).reported_empty == match r {
                Some(GaugeNotice::Empty) => true,
                Some(GaugeNotice::Restored) => false,
                None => old(self).reported_empty,
            },
    {
        if empty && !self.reported_empty {
            self.reported_empty = true;
            Some(GaugeNotice::Empty)
        } else if !empty && self.reported_empty && above_quarter {
            self.reported_empty = false;
            Some(GaugeNotice::Restored)
        } else {
            None
        }
    }
}

/// The assault boost and flight never run together, a quick boost under
/// way holds the assault boost off, and neither runs while staggered.
pub proof fn lemma_movement_modes_exclude_each_other(m: Mobility, c: MovementCues)
    ensures
        ({
            let n = movement_step(m, c).0;
            &&& !(n.assaulting && n.flying)
            &&& !(n.assaulting && n.boosting)
            &&& c.staggered ==> !n.assaulting && !n.flying
        }),
{
}

/// The assault boost is announced exactly when it changes: a start only
/// when it was off and is now on, an end only when it was on and is now off.
pub proof fn lemma_assault_changes_are_announced_once(m: Mobility, c: MovementCues)
    ensures
        ({
            let (n, a) = movement_step(m, c);
            &&& a.contains(MoveAction::AssaultStart) <==> (!m.assaulting && n.assaulting)
            &&& a.contains(MoveAction::AssaultEnd) <==> (m.assaulting && !n.assaulting)
        }),
{
    broadcast use {
        vstd::seq_lib::lemma_seq_contains_after_push,
        vstd::seq_lib::lemma_seq_empty_contains_nothing,
    };
}

/// A buffered jump fires on the ground or within the grace after leaving
/// it, and only then; a jump pressed just before landing still fires.
pub proof fn lemma_a_buffered_jump_fires(m: Mobility, c: MovementCues)
    ensures
        movement_step(m, c).1.contains(MoveAction::Jump) <==> (c.jump_due && (c.grounded
            || c.coyote)),
{
    broadcast use {
        vstd::seq_lib::lemma_seq_contains_after_push,
        vstd::seq_lib::lemma_seq_empty_contains_nothing,
    };
}

/// An empty tank cannot fly.
pub proof fn lemma_no_flight_on_an_empty_tank(m: Mobility, c: MovementCues)
    requires
        !c.energy_left,
        !(c.boost_pressed && c.boost_ready),
    ensures
        !movement_step(m, c).0.flying,
{
}

/// The gauge alternates: it never reports an empty tank twice without a
/// recovery between, nor a recovery without an empty tank before it.
pub proof fn lemma_the_gauge_alternates(was_empty: bool, empty: bool, above_quarter: bool)
    ensures
        gauge_notice(was_empty, empty, above_quarter) == Some(GaugeNotice::Empty) ==> !was_empty,
        gauge_notice(was_empty, empty, above_quarter) == Some(GaugeNotice::Restored) ==> was_empty,
        was_empty && empty ==> gauge_notice(was_empty, empty, above_quarter) is None,
{
}

/// The phase that follows `p` in a swing.
pub open spec fn next_phase(p: BladePhase) -> BladePhase {
    match p {
        BladePhase::Idle => BladePhase::Windup,
        BladePhase::Windup => BladePhase::Active,
        BladePhase::Active => BladePhase::Recovery,
        BladePhase::Recovery => BladePhase::Idle,
    }
}

/// A frame never takes the weapons out of a sound loadout: the magazine
/// never holds more than it can, a volley never more than the pod.
pub proof fn lemma_weapons_keep_the_loadout_sound(
    l: Loadout,
    t: Triggers,
    lock: Option<u32>,
    c: WeaponClock,
)
    requires
        sound(l),
    ensures
        sound(weapons_step(l, t, lock, c).0),
{
}

/// Rounds are spent only by firing, one per shot, and only a finished reload
/// fills the magazine.
pub proof fn lemma_a_shot_spends_one_round(l: Loadout, t: Triggers, lock: Option<u32>, c: WeaponClock)
    ensures
        ({
            let (n, a) = weapons_step(l, t, lock, c);
            let spent: int = if a.contains(WeaponAction::Fire) { 1 } else { 0 };
            &&& a.contains(WeaponAction::ReloadEnd) ==> n.ammo == rifle::MAGAZINE - spent
            &&& !a.contains(WeaponAction::ReloadEnd) ==> n.ammo == l.ammo - spent
        }),
{
    broadcast use {
        vstd::seq_lib::lemma_seq_concat_contains_all_elements,
        vstd::seq_lib::lemma_seq_contains_after_push,
        vstd::seq_lib::lemma_seq_empty_contains_nothing,
    };
}

/// Holding the trigger on an empty magazine leaves a reload under way, with
/// no round fired: the magazine reloads itself.
pub proof fn lemma_an_empty_magazine_reloads_itself(
    l: Loadout,
    t: Triggers,
    lock: Option<u32>,
    c: WeaponClock,
)
    requires
        l.ammo == 0,
        !l.reloading,
        t.fire_primary,
        c.rifle_ready,
        !c.staggered,
    ensures
        ({
            let (n, a) = weapons_step(l, t, lock, c);
            &&& n.reloading
            &&& n.ammo == 0
            &&& a.contains(WeaponAction::ReloadStart)
            &&& !a.contains(WeaponAction::Fire)
        }),
{
    broadcast use {
        vstd::seq_lib::lemma_seq_concat_contains_all_elements,
        vstd::seq_lib::lemma_seq_contains_after_push,
        vstd::seq_lib::lemma_seq_empty_contains_nothing,
    };
}

/// A reload that runs out fills the magazine before anything else happens
/// in that frame.
pub proof fn lemma_a_finished_reload_fills_the_magazine(
    l: Loadout,
    t: Triggers,
    lock: Option<u32>,
    c: WeaponClock,
)
    requires
        l.reloading,
        c.reload_elapses,
    ensures
        ({
            let (n, a) = weapons_step(l, t, lock, c);
            &&& a.len() > 0 && a[0] == WeaponAction::ReloadEnd
            &&& !n.reloading
            &&& n.ammo >= rifle::MAGAZINE - 1
        }),
{
}

/// Without a lock the pod only clicks: no volley starts and no missile
/// leaves.
pub proof fn lemma_a_volley_needs_a_lock(l: Loadout, t: Triggers, c: WeaponClock)
    requires
        l.volley_left == 0,
    ensures
        ({
            let (n, a) = weapons_step(l, t, None, c);
            &&& n.volley_left == 0
            &&& !a.contains(WeaponAction::VolleyStart)
            &&& forall|k: u32| !a.contains(WeaponAction::Launch { left: k })
            &&& pod_live(l, t, c) ==> a.contains(WeaponAction::DryFire(WeaponId::Missiles))
        }),
{
    broadcast use {
        vstd::seq_lib::lemma_seq_concat_contains_all_elements,
        vstd::seq_lib::lemma_seq_contains_after_push,
        vstd::seq_lib::lemma_seq_empty_contains_nothing,
    };
}

/// A volley empties the pod one missile at a time: it starts with the whole
/// pod at the locked enemy and launches its first missile at once; after
/// that each frame launches at most one; and no volley starts while one is
/// running.
pub proof fn lemma_a_volley_fires_the_whole_pod(
    l: Loadout,
    t: Triggers,
    lock: Option<u32>,
    c: WeaponClock,
)
    ensures
        ({
            let (n, a) = weapons_step(l, t, lock, c);
            &&& a.contains(WeaponAction::VolleyStart) ==> {
                &&& l.volley_left == 0
                &&& lock is Some
                &&& a.contains(WeaponAction::Launch { left: (missiles::COUNT - 1) as u32 })
                &&& n.volley_left == missiles::COUNT - 1
                &&& n.volley_target == lock
            }
            &&& !a.contains(WeaponAction::VolleyStart) ==> {
                &&& n.volley_target == l.volley_target
                &&& (n.volley_left == l.volley_left || (l.volley_left > 0 && n.volley_left
                    == l.volley_left - 1 && a.contains(WeaponAction::Launch { left: n.volley_left })))
            }
        }),
{
    broadcast use {
        vstd::seq_lib::lemma_seq_concat_contains_all_elements,
        vstd::seq_lib::lemma_seq_contains_after_push,
        vstd::seq_lib::lemma_seq_empty_contains_nothing,
    };
    let (l1, a1) = reload_stage(l, t, c);
    let (l2, a2) = rifle_stage(l1, t, c);
    let (l3, a3) = pod_stage(l2, t, lock, c);
    let (l4, a4) = blade_stage(l3, t, c);
    assert(l2.volley_left == l.volley_left && l2.volley_target == l.volley_target);
    assert(l4.volley_left == l3.volley_left && l4.volley_target == l3.volley_target);
    assert(!a1.contains(WeaponAction::VolleyStart) && !a2.contains(WeaponAction::VolleyStart)
        && !a4.contains(WeaponAction::VolleyStart));
    assert(weapons_step(l, t, lock, c).1 == a1 + a2 + a3 + a4);
    assert(a3.contains(WeaponAction::VolleyStart) <==> (pod_live(l2, t, c) && !(
    missiles::LOCK_REQUIRED && lock is None)));
}

/// The blade moves through its swing in order, wind-up, damage window,
/// recovery and back to rest, at most one phase a frame, except that a swing
/// begun this frame may also finish its wind-up in it. A swing leaves rest
/// exactly when it begins; every phase it enters is announced; and the
/// return to rest starts the blade's cooldown.
pub proof fn lemma_the_blade_runs_through_its_phases(
    l: Loadout,
    t: Triggers,
    lock: Option<u32>,
    c: WeaponClock,
)
    ensures
        ({
            let (n, a) = weapons_step(l, t, lock, c);
            &&& {
                ||| n.phase == l.phase
                ||| n.phase == next_phase(l.phase)
                ||| (l.phase == BladePhase::Idle && n.phase == BladePhase::Active)
            }
            &&& l.phase == BladePhase::Idle ==> (n.phase != BladePhase::Idle <==> swing_begins(
                l,
                t,
                c,
            ))
            &&& swing_begins(l, t, c) ==> a.contains(WeaponAction::Swing(BladePhase::Windup))
            &&& n.phase != l.phase && n.phase != BladePhase::Idle ==> a.contains(
                WeaponAction::Swing(n.phase),
            )
            &&& n.phase != l.phase && n.phase == BladePhase::Idle ==> a.contains(
                WeaponAction::BladeRest,
            )
        }),
{
    broadcast use {
        vstd::seq_lib::lemma_seq_concat_contains_all_elements,
        vstd::seq_lib::lemma_seq_contains_after_push,
        vstd::seq_lib::lemma_seq_empty_contains_nothing,
    };
    let (l1, a1) = reload_stage(l, t, c);
    let (l2, a2) = rifle_stage(l1, t, c);
    let (l3, a3) = pod_stage(l2, t, lock, c);
    assert(l3.phase == l.phase && l3.lunge_applied == l.lunge_applied);
    assert(swing_begins(l3, t, c) == swing_begins(l, t, c));
}

/// A swing cannot be restarted before it has run its course.
pub proof fn lemma_the_blade_cannot_be_spammed(
    l: Loadout,
    t: Triggers,
    lock: Option<u32>,
    c: WeaponClock,
)
    requires
        l.phase != BladePhase::Idle,
    ensures
        !weapons_step(l, t, lock, c).1.contains(WeaponAction::Swing(BladePhase::Windup)),
        !swing_begins(l, t, c),
{
    broadcast use {
        vstd::seq_lib::lemma_seq_concat_contains_all_elements,
        vstd::seq_lib::lemma_seq_contains_after_push,
        vstd::seq_lib::lemma_seq_empty_contains_nothing,
    };
}

/// The lunge is given only on a frame that starts in the damage window
/// without it, and is then remembered until the next swing.
pub proof fn lemma_one_lunge_per_swing(l: Loadout, t: Triggers, lock: Option<u32>, c: WeaponClock)
    ensures
        ({
            let (n, a) = weapons_step(l, t, lock, c);
            &&& a.contains(WeaponAction::Lunge) ==> l.phase == BladePhase::Active
                && !l.lunge_applied && n.lunge_applied
            &&& l.phase == BladePhase::Active ==> n.lunge_applied
        }),
{
    broadcast use {
        vstd::seq_lib::lemma_seq_concat_contains_all_elements,
        vstd::seq_lib::lemma_seq_contains_after_push,
        vstd::seq_lib::lemma_seq_empty_contains_nothing,
    };
}

/// A staggered frame starts nothing: no shot, no click, no volley and no
/// swing. What was already running carries on.
pub proof fn lemma_a_staggered_frame_starts_nothing(
    l: Loadout,
    t: Triggers,
    lock: Option<u32>,
    c: WeaponClock,
)
    requires
        c.staggered,
    ensures
        ({
            let a = weapons_step(l, t, lock, c).1;
            &&& !a.contains(WeaponAction::Fire)
            &&& !a.contains(WeaponAction::VolleyStart)
            &&& !a.contains(WeaponAction::Swing(BladePhase::Windup))
            &&& forall|w: WeaponId| !a.contains(WeaponAction::DryFire(w))
        }),
{
    broadcast use {
        vstd::seq_lib::lemma_seq_concat_contains_all_elements,
        vstd::seq_lib::lemma_seq_contains_after_push,
        vstd::seq_lib::lemma_seq_empty_contains_nothing,
    };
}

/// Once a swing has struck an enemy, the same enemy is refused until the
/// next swing clears the list.
pub proof fn lemma_a_swing_strikes_each_enemy_once(struck: Seq<u32>, id: u32)
    ensures
        struck.push(id).contains(id),
        !Seq::<u32>::empty().contains(id),
{
    broadcast use {
        vstd::seq_lib::lemma_seq_contains_after_push,
        vstd::seq_lib::lemma_seq_empty_contains_nothing,
    };
}

/// When the assault boost runs: never during a repair or a stagger, never
/// without the key held, and never while a quick boost is under way; and
/// with the key held, energy in the tank, no repair, no stagger and no quick
/// boost at all, it runs.
pub proof fn lemma_when_the_assault_boost_runs(m: Mobility, c: MovementCues)
    ensures
        ({
            let (n, a) = movement_step(m, c);
            &&& (c.repairing || c.staggered || !c.assault_held) ==> !n.assaulting
                && !a.contains(MoveAction::AssaultStart)
            &&& (c.assault_held && c.energy_left && !c.staggered && !c.repairing
                && !c.boost_pressed && !m.boosting) ==> n.assaulting
        }),
{
    broadcast use {
        vstd::seq_lib::lemma_seq_contains_after_push,
        vstd::seq_lib::lemma_seq_empty_contains_nothing,
    };
}

/// A quick boost starts exactly when the key is pressed and a boost is
/// ready; without one starting, a boost that is not under way stays off, and
/// one under way runs on until its time is up.
pub proof fn lemma_when_a_quick_boost_runs(m: Mobility, c: MovementCues)
    ensures
        ({
            let (n, a) = movement_step(m, c);
            &&& a.contains(MoveAction::QuickBoost) <==> (c.boost_pressed && c.boost_ready)
            &&& (!(c.boost_pressed && c.boost_ready) && !m.boosting) ==> !n.boosting
            &&& (!(c.boost_pressed && c.boost_ready) && m.boosting && !c.boost_elapses)
                ==> n.boosting
        }),
{
    broadcast use {
        vstd::seq_lib::lemma_seq_contains_after_push,
        vstd::seq_lib::lemma_seq_empty_contains_nothing,
    };
}

/// Flight needs the jump key held, off the ground, out of a stagger and out
/// of the assault boost: a mech standing on the ground that does not jump
/// this frame does not fly.
pub proof fn lemma_when_the_mech_flies(m: Mobility, c: MovementCues)
    ensures
        ({
            let (n, a) = movement_step(m, c);
            &&& n.flying ==> c.jump_held && !c.staggered && !n.assaulting
            &&& (c.grounded && !a.contains(MoveAction::Jump)) ==> !n.flying
        }),
{
    broadcast use {
        vstd::seq_lib::lemma_seq_contains_after_push,
        vstd::seq_lib::lemma_seq_empty_contains_nothing,
    };
}

/// The gauge speaks exactly on the edges: it reports an empty tank exactly
/// when the tank is empty and has not been reported, and a recovery exactly
/// when a reported tank is no longer empty and is above a quarter.
pub proof fn lemma_the_gauge_speaks_on_the_edges(was_empty: bool, empty: bool, above_quarter: bool)
    ensures
        gauge_notice(was_empty, empty, above_quarter) == Some(GaugeNotice::Empty) <==> (empty
            && !was_empty),
        gauge_notice(was_empty, empty, above_quarter) == Some(GaugeNotice::Restored) <==> (!empty
            && was_empty && above_quarter),
{
}

/// The missile pod keeps its interval: in a frame that starts no volley a
/// missile leaves only when the launch interval is up, and otherwise the
/// volley is unchanged.
pub proof fn lemma_a_volley_keeps_its_interval(
    l: Loadout,
    t: Triggers,
    lock: Option<u32>,
    c: WeaponClock,
)
    ensures
        ({
            let (n, a) = weapons_step(l, t, lock, c);
            &&& (!a.contains(WeaponAction::VolleyStart) && !c.launch_due) ==> {
                &&& n.volley_left == l.volley_left
                &&& forall|k: u32| !a.contains(WeaponAction::Launch { left: k })
            }
            &&& (!a.contains(WeaponAction::VolleyStart) && c.launch_due && l.volley_left > 0)
                ==> n.volley_left == l.volley_left - 1 && a.contains(
                WeaponAction::Launch { left: n.volley_left },
            )
        }),
{
    broadcast use {
        vstd::seq_lib::lemma_seq_concat_contains_all_elements,
        vstd::seq_lib::lemma_seq_contains_after_push,
        vstd::seq_lib::lemma_seq_empty_contains_nothing,
    };
    let (l1, a1) = reload_stage(l, t, c);
    let (l2, a2) = rifle_stage(l1, t, c);
    let (l3, a3) = pod_stage(l2, t, lock, c);
    let (l4, a4) = blade_stage(l3, t, c);
    assert(l2.volley_left == l.volley_left);
    assert(l4.volley_left == l3.volley_left);
    assert(forall|k: u32|
        !a1.contains(WeaponAction::Launch { left: k }) && !a2.contains(
            WeaponAction::Launch { left: k },
        ) && !a4.contains(WeaponAction::Launch { left: k }));
    assert(!a1.contains(WeaponAction::VolleyStart) && !a2.contains(WeaponAction::VolleyStart)
        && !a4.contains(WeaponAction::VolleyStart));
    assert(weapons_step(l, t, lock, c).1 == a1 + a2 + a3 + a4);
}

/// When the autocannon fires: only with the trigger held, the cycle time
/// run out and no stagger, and never during a reload that is still running;
/// and with all of that, a round in the magazine and no reload asked for, it
/// fires exactly one round.
pub proof fn lemma_when_the_autocannon_fires(
    l: Loadout,
    t: Triggers,
    lock: Option<u32>,
    c: WeaponClock,
)
    ensures
        ({
            let (n, a) = weapons_step(l, t, lock, c);
            &&& a.contains(WeaponAction::Fire) ==> t.fire_primary && c.rifle_ready && !c.staggered
                && (!l.reloading || c.reload_elapses)
            &&& (t.fire_primary && c.rifle_ready && !c.staggered && !l.reloading
                && !t.reload_pressed && l.ammo > 0) ==> a.contains(WeaponAction::Fire) && n.ammo
                == l.ammo - 1
            &&& (l.reloading && !c.reload_elapses) ==> n.reloading && !a.contains(
                WeaponAction::ReloadEnd,
            ) && !a.contains(WeaponAction::Fire)
        }),
{
    broadcast use {
        vstd::seq_lib::lemma_seq_concat_contains_all_elements,
        vstd::seq_lib::lemma_seq_contains_after_push,
        vstd::seq_lib::lemma_seq_empty_contains_nothing,
    };
}

/// When a swing starts and moves on: it starts exactly when the blade key is
/// pressed on an idle, cooled-down blade out of a stagger; and a phase under
/// way holds until its time is up.
pub proof fn lemma_when_the_blade_moves(
    l: Loadout,
    t: Triggers,
    lock: Option<u32>,
    c: WeaponClock,
)
    ensures
        ({
            let (n, a) = weapons_step(l, t, lock, c);
            &&& a.contains(WeaponAction::Swing(BladePhase::Windup)) <==> (t.blade_pressed
                && l.phase == BladePhase::Idle && c.blade_ready && !c.staggered)
            &&& (l.phase != BladePhase::Idle && !c.blade_elapses) ==> n.phase == l.phase
            &&& (l.phase == BladePhase::Idle && !(t.blade_pressed && c.blade_ready
                && !c.staggered)) ==> n.phase == BladePhase::Idle
        }),
{
    broadcast use {
        vstd::seq_lib::lemma_seq_concat_contains_all_elements,
        vstd::seq_lib::lemma_seq_contains_after_push,
        vstd::seq_lib::lemma_seq_empty_contains_nothing,
    };
    let (l1, a1) = reload_stage(l, t, c);
    let (l2, a2) = rifle_stage(l1, t, c);
    let (l3, a3) = pod_stage(l2, t, lock, c);
    assert(l3.phase == l.phase);
    assert(!a1.contains(WeaponAction::Swing(BladePhase::Windup)) && !a2.contains(
        WeaponAction::Swing(BladePhase::Windup),
    ) && !a3.contains(WeaponAction::Swing(BladePhase::Windup)));
}

} // verus!
