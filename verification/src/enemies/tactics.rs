//! What each archetype decides to do, frame by frame.
//!
//! A unit's countdowns, distances and line of sight are kept by the caller
//! in metres and seconds. Each frame it reports what they say as plain
//! facts, and the archetype's tactics decide what the unit does: when a
//! burst starts, which round is the last, when a warning is given and what
//! follows it. Movement is not decided here; only the choices that change
//! what the unit will do next.

use vstd::prelude::*;
use crate::config::{artillery, boss, skirmisher};
use crate::enemies::AiState;
use crate::types::EnemyKind;

verus! {

/// What a unit's surroundings and countdowns say this frame.
#[derive(Debug, Clone, Copy, PartialEq, Eq, Default, Structural)]
pub struct Senses {
    /// The unit is staggered and cannot act.
    pub staggered: bool,
    /// The countdown of the warning or dash under way ends within this frame.
    pub timer_elapses: bool,
    /// The interval before the next round of the burst ends within this
    /// frame.
    pub burst_due: bool,
    /// The unit's cooldown has run out.
    pub ready: bool,
    /// The unit sees its target and has it within sight range.
    pub clear_shot: bool,
    /// The target is within the boss's slam range.
    pub close: bool,
    /// The boss has lost enough health to lengthen its barrage.
    pub wounded: bool,
    /// The boss's roll for a dash came up. Read only where
    /// [`rolls_for_dash`] holds.
    pub dash_roll: bool,
}

/// The discrete state of a unit's behaviour.
#[derive(Debug, Clone, Copy, PartialEq, Eq, Structural)]
pub struct Tactics {
    pub state: AiState,
    /// Rounds of the current burst, salvo or barrage still to fire.
    pub burst_left: u32,
    /// Whether the boss is in the middle of a dash.
    pub dashing: bool,
}

/// What a unit's warning announces.
#[derive(Debug, Clone, Copy, PartialEq, Eq, Structural)]
pub enum Threat {
    /// Artillery marking where its mortars will land.
    Mortar,
    /// The boss winding up a slam around itself.
    Slam,
    /// The boss marking where its barrage will fall.
    Barrage,
}

/// One thing a unit does this frame.
#[derive(Debug, Clone, Copy, PartialEq, Eq, Structural)]
pub enum TacticAction {
    /// One round of the archetype's weapon.
    Shoot,
    /// The burst is over and the cooldown starts.
    Rest,
    /// A warning starts, and its countdown with it.
    Warn(Threat),
    /// A salvo or barrage of `rounds` begins; its first round comes on the
    /// next frame.
    Salvo { rounds: u32 },
    /// The boss's slam lands.
    Slam,
    /// The boss starts a dash.
    Dash,
    /// The boss's dash is over and a short cooldown starts.
    DashEnd,
}

/// A unit as it is first built, before it is sent in.
pub open spec fn dormant() -> Tactics {
    Tactics { state: AiState::Idle, burst_left: 0, dashing: false }
}

/// A unit just sent in: engaging, with nothing under way.
pub open spec fn engaging() -> Tactics {
    Tactics { state: AiState::Engage, burst_left: 0, dashing: false }
}

/// The boss's barrage: half again as long once it is wounded, rounded to
/// the nearest round, halves upward.
pub open spec fn barrage_rounds(wounded: bool) -> u32 {
    if wounded {
        ((boss::BARRAGE_COUNT * 3 + 1) / 2) as u32
    } else {
        boss::BARRAGE_COUNT
    }
}

/// The longest burst an archetype fires.
pub open spec fn most_rounds(kind: EnemyKind) -> u32 {
    match kind {
        EnemyKind::Skirmisher => skirmisher::BURST_COUNT,
        EnemyKind::Artillery => artillery::SALVO_COUNT,
        EnemyKind::Boss => barrage_rounds(true),
    }
}

/// A state the archetype can be in: never more rounds to fire than its
/// longest burst, and only the boss dashes.
pub open spec fn sound(kind: EnemyKind, t: Tactics) -> bool {
    &&& t.burst_left <= most_rounds(kind)
    &&& t.dashing ==> kind == EnemyKind::Boss
}

/// Fire the next round of a burst when it is due. The last round ends the
/// burst.
pub open spec fn fire_round(t: Tactics, due: bool) -> (Tactics, Seq<TacticAction>) {
    if due && t.burst_left > 0 {
        let left = (t.burst_left - 1) as u32;
        if left == 0 {
            (Tactics { burst_left: 0, ..t }, seq![TacticAction::Shoot, TacticAction::Rest])
        } else {
            (Tactics { burst_left: left, ..t }, seq![TacticAction::Shoot])
        }
    } else {
        (t, seq![])
    }
}

/// A skirmisher: a burst starts only with a clear shot and the cooldown
/// over, but once started it finishes, a round each time the interval is up
/// and the first at once.
pub open spec fn skirmisher_step(t: Tactics, s: Senses) -> (Tactics, Seq<TacticAction>) {
    let begun = t.burst_left == 0 && s.ready && s.clear_shot;
    if begun {
        fire_round(Tactics { burst_left: skirmisher::BURST_COUNT, ..t }, true)
    } else {
        fire_round(t, s.burst_due)
    }
}

/// The end of a salvo or barrage: the last round puts the unit back to
/// engaging.
pub open spec fn salvo_round(t: Tactics, due: bool) -> (Tactics, Seq<TacticAction>) {
    let (n, a) = fire_round(t, due);
    if a.len() == 2 {
        (Tactics { state: AiState::Engage, ..n }, a)
    } else {
        (n, a)
    }
}

/// Artillery: it marks the target before every salvo and fires only when
/// the mark's countdown is over; the salvo then runs to its end.
pub open spec fn artillery_step(t: Tactics, s: Senses) -> (Tactics, Seq<TacticAction>) {
    match t.state {
        AiState::Telegraph => if s.timer_elapses {
            (
                Tactics { state: AiState::Attack, burst_left: artillery::SALVO_COUNT, ..t },
                seq![TacticAction::Salvo { rounds: artillery::SALVO_COUNT }],
            )
        } else {
            (t, seq![])
        },
        AiState::Attack => salvo_round(t, s.burst_due),
        _ => if s.ready && s.clear_shot {
            (Tactics { state: AiState::Telegraph, ..t }, seq![TacticAction::Warn(Threat::Mortar)])
        } else {
            (t, seq![])
        },
    }
}

/// Whether the boss rolls for a dash this frame: free to choose, its
/// cooldown over and the target out of slam range.
pub open spec fn rolls_for_dash(kind: EnemyKind, t: Tactics, s: Senses) -> bool {
    &&& kind == EnemyKind::Boss
    &&& !s.staggered
    &&& !t.dashing
    &&& t.state != AiState::Telegraph
    &&& t.state != AiState::Attack
    &&& s.ready
    &&& !s.close
}

/// The boss: a dash runs its course; a warning ends in a barrage, with a
/// slam first if the target is still close; a barrage runs to its end; and
/// when free to choose, it slams a close target, otherwise dashes or marks a
/// barrage as the roll decides.
pub open spec fn boss_step(t: Tactics, s: Senses) -> (Tactics, Seq<TacticAction>) {
    if t.dashing {
        if s.timer_elapses {
            (Tactics { dashing: false, state: AiState::Engage, ..t }, seq![TacticAction::DashEnd])
        } else {
            (t, seq![])
        }
    } else {
        match t.state {
            AiState::Telegraph => if s.timer_elapses {
                let rounds = barrage_rounds(s.wounded);
                let opening = if s.close {
                    seq![TacticAction::Slam]
                } else {
                    seq![]
                };
                (
                    Tactics { state: AiState::Attack, burst_left: rounds, ..t },
                    opening.push(TacticAction::Salvo { rounds }),
                )
            } else {
                (t, seq![])
            },
            AiState::Attack => salvo_round(t, s.burst_due),
            _ => if !s.ready {
                (t, seq![])
            } else if s.close {
                (Tactics { state: AiState::Telegraph, ..t }, seq![TacticAction::Warn(Threat::Slam)])
            } else if s.dash_roll {
                (Tactics { dashing: true, state: AiState::Attack, ..t }, seq![TacticAction::Dash])
            } else {
                (
                    Tactics { state: AiState::Telegraph, ..t },
                    seq![TacticAction::Warn(Threat::Barrage)],
                )
            },
        }
    }
}

/// One frame of a unit's tactics. A staggered unit does nothing but note
/// that it is staggered.
pub open spec fn tactic_step(kind: EnemyKind, t: Tactics, s: Senses) -> (Tactics, Seq<TacticAction>) {
    if s.staggered {
        (Tactics { state: AiState::Staggered, ..t }, seq![])
    } else {
        match kind {
            EnemyKind::Skirmisher => skirmisher_step(t, s),
            EnemyKind::Artillery => artillery_step(t, s),
            EnemyKind::Boss => boss_step(t, s),
        }
    }
}

/// The length of the boss's barrage.
pub fn barrage_length(wounded: bool) -> (r: u32)
    ensures
        r == barrage_rounds(wounded),
{
    if wounded {
        (boss::BARRAGE_COUNT * 3 + 1) / 2
    } else {
        boss::BARRAGE_COUNT
    }
}

fn fire(t: Tactics, due: bool, acts: &mut Vec<TacticAction>) -> (r: Tactics)
    ensures
        r == fire_round(t, due).0,
        final(acts)@ == old(acts)@ + fire_round(t, due).1,
{
    if due && t.burst_left > 0 {
        let left = t.burst_left - 1;
        acts.push(TacticAction::Shoot);
        if left == 0 {
            acts.push(TacticAction::Rest);
            assert(acts@ =~= old(acts)@ + seq![TacticAction::Shoot, TacticAction::Rest]);
        } else {
            assert(acts@ =~= old(acts)@ + seq![TacticAction::Shoot]);
        }
        Tactics { burst_left: left, ..t }
    } else {
        assert(old(acts)@ + seq![] =~= old(acts)@);
        t
    }
}

fn salvo(t: Tactics, due: bool, acts: &mut Vec<TacticAction>) -> (r: Tactics)
    ensures
        r == salvo_round(t, due).0,
        final(acts)@ == old(acts)@ + salvo_round(t, due).1,
{
    let n = fire(t, due, acts);
    if due && t.burst_left == 1 {
        Tactics { state: AiState::Engage, ..n }
    } else {
        n
    }
}

impl Tactics {
    /// A unit as it is first built.
    pub fn dormant() -> (r: Self)
        ensures
            r == dormant(),
    {
        Tactics { state: AiState::Idle, burst_left: 0, dashing: false }
    }

    /// A unit just sent in.
    pub fn engaging() -> (r: Self)
        ensures
            r == engaging(),
    {
        Tactics { state: AiState::Engage, burst_left: 0, dashing: false }
    }

    /// Whether the boss rolls for a dash this frame, so the caller draws
    /// from its generator only when the roll is read.
    pub fn rolls_for_dash(&self, kind: EnemyKind, senses: Senses) -> (r: bool)
        ensures
            r == rolls_for_dash(kind, *self, senses),
    {
        kind == EnemyKind::Boss && !senses.staggered && !self.dashing && self.state
            != AiState::Telegraph && self.state != AiState::Attack && senses.ready && !senses.close
    }

    /// One frame of the unit's tactics. Returns what the unit does, in
    /// order.
    pub fn step(&mut self, kind: EnemyKind, senses: Senses) -> (acts: Vec<TacticAction>)
        ensures
            *final(self) == tactic_step(kind, *old(self), senses).0,
            acts@ == tactic_step(kind, *old(self), senses).1,
    {
        let t = *self;
        let mut acts: Vec<TacticAction> = Vec::new();
        let ghost empty = acts@;
        if senses.staggered {
            self.state = AiState::Staggered;
            return acts;
        }
        let n = match kind {
            EnemyKind::Skirmisher => {
                if t.burst_left == 0 && senses.ready && senses.clear_shot {
                    fire(Tactics { burst_left: skirmisher::BURST_COUNT, ..t }, true, &mut acts)
                } else {
                    fire(t, senses.burst_due, &mut acts)
                }
            },
            EnemyKind::Artillery => match t.state {
                AiState::Telegraph => if senses.timer_elapses {
                    acts.push(TacticAction::Salvo { rounds: artillery::SALVO_COUNT });
                    Tactics { state: AiState::Attack, burst_left: artillery::SALVO_COUNT, ..t }
                } else {
                    t
                },
                AiState::Attack => salvo(t, senses.burst_due, &mut acts),
                _ => if senses.ready && senses.clear_shot {
                    acts.push(TacticAction::Warn(Threat::Mortar));
                    Tactics { state: AiState::Telegraph, ..t }
                } else {
                    t
                },
            },
            EnemyKind::Boss => if t.dashing {
                if senses.timer_elapses {
                    acts.push(TacticAction::DashEnd);
                    Tactics { dashing: false, state: AiState::Engage, ..t }
                } else {
                    t
                }
            } else {
                match t.state {
                    AiState::Telegraph => if senses.timer_elapses {
                        let rounds = barrage_length(senses.wounded);
                        if senses.close {
                            acts.push(TacticAction::Slam);
                        }
                        acts.push(TacticAction::Salvo { rounds });
                        Tactics { state: AiState::Attack, burst_left: rounds, ..t }
                    } else {
                        t
                    },
                    AiState::Attack => salvo(t, senses.burst_due, &mut acts),
                    _ => if !senses.ready {
                        t
                    } else if senses.close {
                        acts.push(TacticAction::Warn(Threat::Slam));
                        Tactics { state: AiState::Telegraph, ..t }
                    } else if senses.dash_roll {
                        acts.push(TacticAction::Dash);
                        Tactics { dashing: true, state: AiState::Attack, ..t }
                    } else {
                        acts.push(TacticAction::Warn(Threat::Barrage));
                        Tactics { state: AiState::Telegraph, ..t }
                    },
                }
            },
        };
        proof {
            assert(acts@ =~= tactic_step(kind, t, senses).1);
        }
        *self = n;
        acts
    }
}

/// A frame never takes a unit out of a sound state: no burst longer than
/// its archetype's longest, and only the boss dashes.
pub proof fn lemma_tactics_stay_sound(kind: EnemyKind, t: Tactics, s: Senses)
    requires
        sound(kind, t),
    ensures
        sound(kind, tactic_step(kind, t, s).0),
{
}

/// A staggered unit does not act: it fires nothing, warns of nothing and
/// only notes that it is staggered.
pub proof fn lemma_a_staggered_unit_does_not_act(kind: EnemyKind, t: Tactics, s: Senses)
    requires
        s.staggered,
    ensures
        tactic_step(kind, t, s).1 == Seq::<TacticAction>::empty(),
        tactic_step(kind, t, s).0.state == AiState::Staggered,
        tactic_step(kind, t, s).0.burst_left == t.burst_left,
{
}

/// A unit with nothing under way and no clear shot holds its fire: no
/// round and no warning.
pub proof fn lemma_no_clear_shot_no_fire(kind: EnemyKind, t: Tactics, s: Senses)
    requires
        kind != EnemyKind::Boss,
        !s.clear_shot,
        t.burst_left == 0,
        t.state != AiState::Telegraph,
    ensures
        tactic_step(kind, t, s).1 == Seq::<TacticAction>::empty(),
{
}

/// A skirmisher fires in bursts: at most one round a frame, never more
/// than a burst holds, and the round that empties the burst starts the
/// cooldown.
pub proof fn lemma_a_skirmisher_fires_in_bursts(t: Tactics, s: Senses)
    requires
        sound(EnemyKind::Skirmisher, t),
    ensures
        ({
            let (n, a) = tactic_step(EnemyKind::Skirmisher, t, s);
            &&& a.len() <= 2
            &&& a.len() > 0 ==> a[0] == TacticAction::Shoot
            &&& a.len() == 2 <==> (a.len() > 0 && n.burst_left == 0)
            &&& a.len() == 2 ==> a[1] == TacticAction::Rest
            &&& n.burst_left <= skirmisher::BURST_COUNT
        }),
{
}

/// Artillery warns before it fires: a salvo follows only a finished
/// warning, and a round only comes in a running salvo.
pub proof fn lemma_artillery_telegraphs_before_it_fires(t: Tactics, s: Senses)
    ensures
        ({
            let (n, a) = tactic_step(EnemyKind::Artillery, t, s);
            &&& n.state == AiState::Attack && t.state != AiState::Attack ==> t.state
                == AiState::Telegraph && a == seq![TacticAction::Salvo { rounds: artillery::SALVO_COUNT }]
            &&& n.state == AiState::Telegraph && t.state != AiState::Telegraph ==> a == seq![
                TacticAction::Warn(Threat::Mortar),
            ]
            &&& a.len() > 0 && a[0] == TacticAction::Shoot ==> t.state == AiState::Attack
        }),
{
}

/// The boss answers a close target with a slam warning whenever it is free
/// to choose, and a slam lands only at the end of a warning with the target
/// still close.
pub proof fn lemma_the_boss_slams_when_the_target_is_close(t: Tactics, s: Senses)
    ensures
        ({
            let (n, a) = tactic_step(EnemyKind::Boss, t, s);
            &&& (!s.staggered && !t.dashing && t.state != AiState::Telegraph && t.state
                != AiState::Attack && s.ready && s.close) ==> a == seq![
                TacticAction::Warn(Threat::Slam),
            ] && n.state == AiState::Telegraph
            &&& a.len() > 0 && a[0] == TacticAction::Slam ==> t.state == AiState::Telegraph
                && s.close && s.timer_elapses
        }),
{
}

/// The boss's barrage is longer once it is wounded.
pub proof fn lemma_a_wounded_boss_fires_longer_barrages()
    ensures
        barrage_rounds(true) > barrage_rounds(false),
        barrage_rounds(false) == boss::BARRAGE_COUNT,
{
}

/// The dash roll decides nothing unless the boss rolls for it.
pub proof fn lemma_the_roll_matters_only_when_rolled(kind: EnemyKind, t: Tactics, s: Senses)
    requires
        !rolls_for_dash(kind, t, s),
    ensures
        tactic_step(kind, t, Senses { dash_roll: true, ..s }) == tactic_step(
            kind,
            t,
            Senses { dash_roll: false, ..s },
        ),
{
}

/// A skirmisher starts a burst only with its cooldown over and a clear shot:
/// with nothing under way, and the cooldown still running or no clear shot,
/// it fires nothing and its state stays as it was. A burst under way fires
/// only when the next round is due; when one is due, exactly one round
/// leaves.
pub proof fn lemma_a_skirmisher_waits_for_its_cooldown(t: Tactics, s: Senses)
    requires
        !s.staggered,
    ensures
        ({
            let (n, a) = tactic_step(EnemyKind::Skirmisher, t, s);
            &&& (t.burst_left == 0 && !(s.ready && s.clear_shot)) ==> n == t && a.len() == 0
            &&& (t.burst_left > 0 && !s.burst_due) ==> n == t && a.len() == 0
            &&& (t.burst_left > 0 && s.burst_due) ==> n.burst_left == t.burst_left - 1 && a.len()
                >= 1 && a[0] == TacticAction::Shoot
            &&& (t.burst_left == 0 && s.ready && s.clear_shot) ==> n.burst_left
                == skirmisher::BURST_COUNT - 1 && a.len() >= 1 && a[0] == TacticAction::Shoot
            &&& n.state == t.state
        }),
{
}

/// Artillery waits on each countdown: a warning holds until its countdown
/// runs out, a salvo fires only when its next round is due, and a warning
/// starts exactly when the cooldown is over and the shot is clear.
pub proof fn lemma_artillery_waits_on_its_countdowns(t: Tactics, s: Senses)
    requires
        !s.staggered,
    ensures
        ({
            let (n, a) = tactic_step(EnemyKind::Artillery, t, s);
            &&& (t.state == AiState::Telegraph && !s.timer_elapses) ==> n == t && a.len() == 0
            &&& (t.state == AiState::Attack && !s.burst_due) ==> n == t && a.len() == 0
            &&& (t.state != AiState::Telegraph && t.state != AiState::Attack) ==> (a.len() > 0
                <==> (s.ready && s.clear_shot))
        }),
{
}

/// The boss waits on its countdowns too: a dash runs until its countdown
/// ends, a warning holds until its countdown runs out, a barrage fires only
/// when its next round is due, and when free to choose it does nothing until
/// its cooldown is over. A dash comes only from a roll that came up, with the
/// target out of slam range.
pub proof fn lemma_the_boss_waits_on_its_countdowns(t: Tactics, s: Senses)
    requires
        !s.staggered,
    ensures
        ({
            let (n, a) = tactic_step(EnemyKind::Boss, t, s);
            &&& (t.dashing && !s.timer_elapses) ==> n == t && a.len() == 0
            &&& (!t.dashing && t.state == AiState::Telegraph && !s.timer_elapses) ==> n == t
                && a.len() == 0
            &&& (!t.dashing && t.state == AiState::Attack && !s.burst_due) ==> n == t && a.len()
                == 0
            &&& (!t.dashing && t.state != AiState::Telegraph && t.state != AiState::Attack
                && !s.ready) ==> n == t && a.len() == 0
            &&& (a.len() > 0 && a[0] == TacticAction::Dash) ==> s.dash_roll && !s.close && s.ready
                && !t.dashing && n.dashing
        }),
{
}

} // verus!
