//! Mission flow: Operation ASHEN YARD.
//!
//! Deploy, break the skirmisher screen, survive the siege pair, then bring
//! down the Patriarch. The mission owns phase transitions and the real
//! statistics the results screen reports; it never invents numbers. Every
//! count here is incremented from something that actually happened.
//!
//! The mission decides *what* arrives and *when*; where a unit appears belongs
//! to the world, which the mission reaches only through [`MissionHooks`]. Each
//! step returns the calls the world is to receive, in order, and the caller
//! delivers them. Countdowns are kept in seconds by the caller, who reports
//! each step whether the current countdown has run out.

use vstd::prelude::*;
use crate::config::{kill_score, mission::score_for};
use crate::text::same_text;
use crate::types::{EnemyKind, MissionPhase};

verus! {

/// A request to put one unit into the world.
#[derive(Debug, Clone, Copy, PartialEq, Eq, Structural)]
pub struct SpawnOrder {
    pub kind: EnemyKind,
    /// Index into the arena's spawn list for that kind.
    pub slot: usize,
}

/// The three deployments of the operation.
#[derive(Debug, Clone, Copy, PartialEq, Eq, Structural)]
pub enum Wave {
    /// The opening screen: three skirmishers, one per slot.
    Screen,
    /// The siege wave: three more skirmishers covering a pair of artillery
    /// units.
    Siege,
    /// The boss and its escort.
    Patriarch,
}

pub open spec fn order(kind: EnemyKind, slot: usize) -> SpawnOrder {
    SpawnOrder { kind, slot }
}

/// What each wave deploys, in order.
pub open spec fn wave_orders(wave: Wave) -> Seq<SpawnOrder> {
    match wave {
        Wave::Screen => seq![
            order(EnemyKind::Skirmisher, 0),
            order(EnemyKind::Skirmisher, 1),
            order(EnemyKind::Skirmisher, 2),
        ],
        Wave::Siege => seq![
            order(EnemyKind::Skirmisher, 3),
            order(EnemyKind::Skirmisher, 4),
            order(EnemyKind::Artillery, 0),
            order(EnemyKind::Skirmisher, 5),
            order(EnemyKind::Artillery, 1),
        ],
        Wave::Patriarch => seq![
            order(EnemyKind::Boss, 0),
            order(EnemyKind::Skirmisher, 6),
            order(EnemyKind::Skirmisher, 7),
        ],
    }
}

/// The orders of `wave`, in deployment order.
pub fn orders_for(wave: Wave) -> (r: Vec<SpawnOrder>)
    ensures
        r@ == wave_orders(wave),
{
    let r = match wave {
        Wave::Screen => vec![
            SpawnOrder { kind: EnemyKind::Skirmisher, slot: 0 },
            SpawnOrder { kind: EnemyKind::Skirmisher, slot: 1 },
            SpawnOrder { kind: EnemyKind::Skirmisher, slot: 2 },
        ],
        Wave::Siege => vec![
            SpawnOrder { kind: EnemyKind::Skirmisher, slot: 3 },
            SpawnOrder { kind: EnemyKind::Skirmisher, slot: 4 },
            SpawnOrder { kind: EnemyKind::Artillery, slot: 0 },
            SpawnOrder { kind: EnemyKind::Skirmisher, slot: 5 },
            SpawnOrder { kind: EnemyKind::Artillery, slot: 1 },
        ],
        Wave::Patriarch => vec![
            SpawnOrder { kind: EnemyKind::Boss, slot: 0 },
            SpawnOrder { kind: EnemyKind::Skirmisher, slot: 6 },
            SpawnOrder { kind: EnemyKind::Skirmisher, slot: 7 },
        ],
    };
    assert(r@ =~= wave_orders(wave));
    r
}

/// Which of `available` spawn points an order for `slot` uses: the slot
/// itself, wrapped round when the arena has fewer points. With no points at
/// all there is none, and the world falls back to the player's own spawn
/// rather than dropping the unit, because a wave that quietly arrives one
/// short would stall the mission with nothing to shoot.
pub fn spawn_point_for(slot: usize, available: usize) -> (r: Option<usize>)
    ensures
        available == 0 ==> r is None,
        available > 0 ==> r == Some((slot % available) as usize),
        r matches Some(i) ==> i < available,
{
    if available == 0 {
        None
    } else {
        Some(slot % available)
    }
}

/// What the mission is allowed to ask the world to do. Each
/// [`MissionCall`] a step returns names one of these calls.
pub trait MissionHooks {
    fn spawn(&mut self, order: SpawnOrder);

    fn set_objective(&mut self, text: &str);

    fn complete(&mut self);

    fn fail(&mut self);
}

/// Live world facts the mission reacts to. Read only, and deliberately narrow:
/// the mission has no business knowing where anything is.
#[derive(Debug, Clone, Copy, PartialEq, Eq, Default, Structural)]
pub struct MissionFacts {
    pub alive_enemies: usize,
    pub boss_alive: bool,
    pub player_alive: bool,
}

/// What one step of the mission does.
#[derive(Debug, Clone, Copy, PartialEq, Eq, Structural)]
pub struct MissionStep {
    /// The phase after the step.
    pub next: MissionPhase,
    /// A wave to deploy, if the step starts one.
    pub deploy: Option<Wave>,
    /// Whether the objective line changes.
    pub announce: bool,
    /// Whether the operation has just been won.
    pub complete: bool,
    /// Whether the operation has just been lost.
    pub fail: bool,
    /// Whether the step opens a gap between waves, whose countdown the caller
    /// starts.
    pub start_gap: bool,
}

pub open spec fn stay(phase: MissionPhase) -> MissionStep {
    MissionStep {
        next: phase,
        deploy: None,
        announce: false,
        complete: false,
        fail: false,
        start_gap: false,
    }
}

pub open spec fn enter(phase: MissionPhase, deploy: Option<Wave>, start_gap: bool) -> MissionStep {
    MissionStep {
        next: phase,
        deploy,
        announce: true,
        complete: phase == MissionPhase::Victory,
        fail: false,
        start_gap,
    }
}

/// One step of Operation ASHEN YARD.
///
/// A finished mission does nothing. Losing the frame ends the operation
/// whatever else was happening, and it is checked first, so a wave cannot be
/// cleared by a shot that lands in the same step the player dies in.
/// Countdown phases move on when their countdown has run out; a wave ends when
/// the yard is clear; the boss phase ends when the ordered boss is down,
/// whether or not its escort still stands.
pub open spec fn transition(
    phase: MissionPhase,
    boss_ordered: bool,
    facts: MissionFacts,
    countdown_elapsed: bool,
) -> MissionStep {
    if phase.terminal() {
        stay(phase)
    } else if !facts.player_alive {
        MissionStep {
            next: MissionPhase::Defeat,
            deploy: None,
            announce: true,
            complete: false,
            fail: true,
            start_gap: false,
        }
    } else {
        match phase {
            MissionPhase::Intro => if countdown_elapsed {
                enter(MissionPhase::Wave1, Some(Wave::Screen), false)
            } else {
                stay(phase)
            },
            MissionPhase::Wave1 => if facts.alive_enemies == 0 {
                enter(MissionPhase::Gap1, None, true)
            } else {
                stay(phase)
            },
            MissionPhase::Gap1 => if countdown_elapsed {
                enter(MissionPhase::Wave2, Some(Wave::Siege), false)
            } else {
                stay(phase)
            },
            MissionPhase::Wave2 => if facts.alive_enemies == 0 {
                enter(MissionPhase::Gap2, None, true)
            } else {
                stay(phase)
            },
            MissionPhase::Gap2 => if countdown_elapsed {
                enter(MissionPhase::Boss, Some(Wave::Patriarch), false)
            } else {
                stay(phase)
            },
            MissionPhase::Boss => if boss_ordered && !facts.boss_alive {
                enter(MissionPhase::Victory, None, false)
            } else {
                stay(phase)
            },
            _ => stay(phase),
        }
    }
}

/// Where a phase sits in the operation.
pub open spec fn rank(phase: MissionPhase) -> nat {
    match phase {
        MissionPhase::Idle => 0,
        MissionPhase::Intro => 0,
        MissionPhase::Wave1 => 1,
        MissionPhase::Gap1 => 2,
        MissionPhase::Wave2 => 3,
        MissionPhase::Gap2 => 4,
        MissionPhase::Boss => 5,
        MissionPhase::Victory => 6,
        MissionPhase::Defeat => 6,
    }
}

/// The objective line for each phase. A mission that has not been started
/// has none.
pub open spec fn objective_text(phase: MissionPhase) -> Seq<char> {
    match phase {
        MissionPhase::Idle => ""@,
        MissionPhase::Intro => "DEPLOY — move out and sweep the yard"@,
        MissionPhase::Wave1 => "CONTACT — destroy the skirmisher screen"@,
        MissionPhase::Gap1 => "REGROUP — more hostiles inbound"@,
        MissionPhase::Wave2 => "HOLD — siege units detected"@,
        MissionPhase::Gap2 => "REGROUP — more hostiles inbound"@,
        MissionPhase::Boss => "PRIORITY — destroy the ASHFRAME PATRIARCH"@,
        MissionPhase::Victory => "MISSION COMPLETE"@,
        MissionPhase::Defeat => "FRAME LOST"@,
    }
}

/// The objective line for the HUD.
pub fn objective_for(phase: MissionPhase) -> (r: &'static str)
    ensures
        r@ == objective_text(phase),
{
    match phase {
        MissionPhase::Idle => "",
        MissionPhase::Intro => "DEPLOY — move out and sweep the yard",
        MissionPhase::Wave1 => "CONTACT — destroy the skirmisher screen",
        MissionPhase::Gap1 => "REGROUP — more hostiles inbound",
        MissionPhase::Wave2 => "HOLD — siege units detected",
        MissionPhase::Gap2 => "REGROUP — more hostiles inbound",
        MissionPhase::Boss => "PRIORITY — destroy the ASHFRAME PATRIARCH",
        MissionPhase::Victory => "MISSION COMPLETE",
        MissionPhase::Defeat => "FRAME LOST",
    }
}

/// One call the mission makes on the world, through [`MissionHooks`].
#[derive(Debug, Clone, Copy, PartialEq, Eq, Structural)]
pub enum MissionCall {
    /// `set_objective` with the objective line of this phase.
    Objective(MissionPhase),
    /// `spawn` with this order.
    Spawn(SpawnOrder),
    /// `complete`.
    Complete,
    /// `fail`.
    Fail,
}

/// One `spawn` call for each order, in order.
pub open spec fn spawn_calls(orders: Seq<SpawnOrder>) -> Seq<MissionCall> {
    orders.map_values(|o: SpawnOrder| MissionCall::Spawn(o))
}

/// The calls a step makes: the new objective line when it announces one,
/// the orders of the wave it deploys, then `complete` or `fail` when it ends
/// the operation.
pub open spec fn calls_for(step: MissionStep) -> Seq<MissionCall> {
    let objective = if step.announce {
        seq![MissionCall::Objective(step.next)]
    } else {
        seq![]
    };
    let deployed = match step.deploy {
        Some(wave) => spawn_calls(wave_orders(wave)),
        None => seq![],
    };
    let complete = if step.complete {
        seq![MissionCall::Complete]
    } else {
        seq![]
    };
    let fail = if step.fail {
        seq![MissionCall::Fail]
    } else {
        seq![]
    };
    objective + deployed + complete + fail
}

/// The whole-number statistics the results screen reports.
#[derive(Debug, Clone, Copy, PartialEq, Eq, Default, Structural)]
pub struct MissionTally {
    pub kills: u32,
    pub repairs_used: u32,
    pub shots_fired: u32,
    pub score: u32,
}

/// The mission's phase, statistics and tutorial memory.
#[derive(Debug, Clone)]
pub struct MissionFlow {
    phase: MissionPhase,
    tally: MissionTally,
    /// Hints already shown, in the order they were claimed.
    hints: Vec<String>,
    /// Whether the boss has been ordered in. The world reads this to know
    /// that an absent boss means a dead boss rather than one that has not
    /// arrived.
    boss_ordered: bool,
}

impl MissionFlow {
    /// The phase the mission is in.
    pub closed spec fn stage(&self) -> MissionPhase {
        self.phase
    }

    /// The statistics so far.
    pub closed spec fn counts(&self) -> MissionTally {
        self.tally
    }

    pub closed spec fn ordered_boss(&self) -> bool {
        self.boss_ordered
    }

    /// The hints shown so far, in order.
    pub closed spec fn shown(&self) -> Seq<Seq<char>> {
        self.hints@.map_values(|h: String| h@)
    }

    pub fn new() -> (r: Self)
        ensures
            r.stage() == MissionPhase::Intro,
            r.counts() == (MissionTally { kills: 0, repairs_used: 0, shots_fired: 0, score: 0 }),
            r.shown() == Seq::<Seq<char>>::empty(),
            !r.ordered_boss(),
    {
        let r = MissionFlow {
            phase: MissionPhase::Intro,
            tally: MissionTally { kills: 0, repairs_used: 0, shots_fired: 0, score: 0 },
            hints: Vec::new(),
            boss_ordered: false,
        };
        assert(r.shown() =~= Seq::<Seq<char>>::empty());
        r
    }

    /// Start the operation over.
    pub fn reset(&mut self)
        ensures
            final(self).stage() == MissionPhase::Intro,
            final(self).counts() == (MissionTally {
                kills: 0,
                repairs_used: 0,
                shots_fired: 0,
                score: 0,
            }),
            final(self).shown() == Seq::<Seq<char>>::empty(),
            !final(self).ordered_boss(),
    {
        *self = MissionFlow::new();
    }

    /// Whether the mission has ended, one way or the other.
    pub fn finished(&self) -> (r: bool)
        ensures
            r == self.stage().terminal(),
    {
        self.phase.is_terminal()
    }

    /// Whether the current phase is one that waits on a countdown.
    pub fn counting_down(&self) -> (r: bool)
        ensures
            r == (self.stage() == MissionPhase::Intro || self.stage() == MissionPhase::Gap1
                || self.stage() == MissionPhase::Gap2),
    {
        match self.phase {
            MissionPhase::Intro | MissionPhase::Gap1 | MissionPhase::Gap2 => true,
            _ => false,
        }
    }

    /// The objective line for the HUD.
    pub fn objective(&self) -> (r: &'static str)
        ensures
            r@ == objective_text(self.stage()),
    {
        objective_for(self.phase)
    }

    /// The phase the mission is in.
    pub fn phase(&self) -> (r: MissionPhase)
        ensures
            r == self.stage(),
    {
        self.phase
    }

    /// The statistics so far.
    pub fn tally(&self) -> (r: MissionTally)
        ensures
            r == self.counts(),
    {
        self.tally
    }

    /// Whether the boss has been sent in.
    pub fn boss_ordered(&self) -> (r: bool)
        ensures
            r == self.ordered_boss(),
    {
        self.boss_ordered
    }

    /// Hints shown so far, in order.
    pub fn hints(&self) -> (r: &[String])
        ensures
            r@.map_values(|h: String| h@) == self.shown(),
    {
        self.hints.as_slice()
    }

    /// Claim a named hint. True the first time only, so the UI shows it once.
    pub fn claim_hint(&mut self, id: &str) -> (r: bool)
        ensures
            r == !old(self).shown().contains(id@),
            final(self).shown() == (if r {
                old(self).shown().push(id@)
            } else {
                old(self).shown()
            }),
            final(self).stage() == old(self).stage(),
            final(self).counts() == old(self).counts(),
            final(self).ordered_boss() == old(self).ordered_boss(),
    {
        let n = self.hints.len();
        let mut i: usize = 0;
        while i < n
            invariant
                n == self.hints@.len(),
                self.hints@ == old(self).hints@,
                i <= n,
                forall|j: int| 0 <= j < i ==> self.hints@[j]@ != id@,
            decreases n - i,
        {
            if same_text(self.hints[i].as_str(), id) {
                proof {
                    assert(self.shown()[i as int] == id@);
                }
                return false;
            }
            i = i + 1;
        }
        proof {
            assert forall|j: int| 0 <= j < self.shown().len() implies self.shown()[j] != id@ by {
                assert(self.shown()[j] == self.hints@[j]@);
            }
        }
        let owned = id.to_string();
        self.hints.push(owned);
        proof {
            assert(self.shown() =~= old(self).shown().push(id@));
        }
        true
    }

    /// Record a kill against the score table.
    pub fn register_kill(&mut self, kind: EnemyKind)
        requires
            old(self).counts().kills < u32::MAX,
            old(self).counts().score + kill_score(kind) <= u32::MAX,
        ensures
            final(self).counts() == (MissionTally {
                kills: (old(self).counts().kills + 1) as u32,
                score: (old(self).counts().score + kill_score(kind)) as u32,
                ..old(self).counts()
            }),
            final(self).stage() == old(self).stage(),
            final(self).shown() == old(self).shown(),
            final(self).ordered_boss() == old(self).ordered_boss(),
    {
        self.tally.kills = self.tally.kills + 1;
        self.tally.score = self.tally.score + score_for(kind);
    }

    /// Record a round that left the barrel.
    pub fn record_shot(&mut self)
        requires
            old(self).counts().shots_fired < u32::MAX,
        ensures
            final(self).counts() == (MissionTally {
                shots_fired: (old(self).counts().shots_fired + 1) as u32,
                ..old(self).counts()
            }),
            final(self).stage() == old(self).stage(),
            final(self).shown() == old(self).shown(),
            final(self).ordered_boss() == old(self).ordered_boss(),
    {
        self.tally.shots_fired = self.tally.shots_fired + 1;
    }

    /// Record a repair that started.
    pub fn record_repair(&mut self)
        requires
            old(self).counts().repairs_used < u32::MAX,
        ensures
            final(self).counts() == (MissionTally {
                repairs_used: (old(self).counts().repairs_used + 1) as u32,
                ..old(self).counts()
            }),
            final(self).stage() == old(self).stage(),
            final(self).shown() == old(self).shown(),
            final(self).ordered_boss() == old(self).ordered_boss(),
    {
        self.tally.repairs_used = self.tally.repairs_used + 1;
    }

    /// What this step does, from the world's facts and whether the current
    /// countdown has run out.
    pub fn decide(&self, facts: MissionFacts, countdown_elapsed: bool) -> (s: MissionStep)
        ensures
            s == transition(self.stage(), self.ordered_boss(), facts, countdown_elapsed),
    {
        let phase = self.phase;
        let hold = MissionStep {
            next: phase,
            deploy: None,
            announce: false,
            complete: false,
            fail: false,
            start_gap: false,
        };
        if phase.is_terminal() {
            return hold;
        }
        if !facts.player_alive {
            return MissionStep {
                next: MissionPhase::Defeat,
                deploy: None,
                announce: true,
                complete: false,
                fail: true,
                start_gap: false,
            };
        }
        let go = |next: MissionPhase, deploy: Option<Wave>, start_gap: bool| -> (s: MissionStep)
            ensures
                s == enter(next, deploy, start_gap),
            {
                MissionStep {
                    next,
                    deploy,
                    announce: true,
                    complete: next == MissionPhase::Victory,
                    fail: false,
                    start_gap,
                }
            };
        match phase {
            MissionPhase::Intro => if countdown_elapsed {
                go(MissionPhase::Wave1, Some(Wave::Screen), false)
            } else {
                hold
            },
            MissionPhase::Wave1 => if facts.alive_enemies == 0 {
                go(MissionPhase::Gap1, None, true)
            } else {
                hold
            },
            MissionPhase::Gap1 => if countdown_elapsed {
                go(MissionPhase::Wave2, Some(Wave::Siege), false)
            } else {
                hold
            },
            MissionPhase::Wave2 => if facts.alive_enemies == 0 {
                go(MissionPhase::Gap2, None, true)
            } else {
                hold
            },
            MissionPhase::Gap2 => if countdown_elapsed {
                go(MissionPhase::Boss, Some(Wave::Patriarch), false)
            } else {
                hold
            },
            MissionPhase::Boss => if self.boss_ordered && !facts.boss_alive {
                go(MissionPhase::Victory, None, false)
            } else {
                hold
            },
            _ => hold,
        }
    }

    /// Advance the mission one fixed step. Returns the step, whose
    /// `start_gap` tells the caller to start the countdown to the next wave,
    /// and the calls the world is to receive through [`MissionHooks`], in
    /// order: the new objective line when the step announces one, the orders
    /// of the wave it deploys, then the end of the operation.
    pub fn advance(&mut self, facts: MissionFacts, countdown_elapsed: bool) -> (r: (
        MissionStep,
        Vec<MissionCall>,
    ))
        ensures
            r.0 == transition(old(self).stage(), old(self).ordered_boss(), facts, countdown_elapsed),
            r.1@ == calls_for(r.0),
            final(self).stage() == r.0.next,
            final(self).ordered_boss() == (old(self).ordered_boss() || r.0.deploy == Some(
                Wave::Patriarch,
            )),
            final(self).counts() == old(self).counts(),
            final(self).shown() == old(self).shown(),
    {
        let step = self.decide(facts, countdown_elapsed);
        self.phase = step.next;
        let mut calls: Vec<MissionCall> = Vec::new();
        if step.announce {
            calls.push(MissionCall::Objective(step.next));
        }
        let ghost head = calls@;
        match step.deploy {
            Some(wave) => {
                if wave == Wave::Patriarch {
                    self.boss_ordered = true;
                }
                let orders = orders_for(wave);
                let mut i: usize = 0;
                while i < orders.len()
                    invariant
                        i <= orders@.len(),
                        orders@ == wave_orders(wave),
                        calls@ == head + spawn_calls(orders@.take(i as int)),
                    decreases orders@.len() - i,
                {
                    calls.push(MissionCall::Spawn(orders[i]));
                    proof {
                        assert(orders@.take(i + 1) == orders@.take(i as int).push(orders@[i as int]));
                        assert(spawn_calls(orders@.take(i + 1)) =~= spawn_calls(
                            orders@.take(i as int),
                        ).push(MissionCall::Spawn(orders@[i as int])));
                    }
                    i = i + 1;
                }
                assert(orders@.take(orders@.len() as int) =~= orders@);
            },
            None => {
                assert(head + seq![] =~= head);
            },
        }
        let ghost middle = calls@;
        if step.complete {
            calls.push(MissionCall::Complete);
        }
        if step.fail {
            calls.push(MissionCall::Fail);
        }
        proof {
            let deployed = match step.deploy {
                Some(w) => spawn_calls(wave_orders(w)),
                None => seq![],
            };
            assert(middle == head + deployed);
            let c: Seq<MissionCall> = if step.complete { seq![MissionCall::Complete] } else { seq![] };
            let f: Seq<MissionCall> = if step.fail { seq![MissionCall::Fail] } else { seq![] };
            assert(calls@ =~= head + deployed + c + f);
        }
        (step, calls)
    }
}

/// A finished mission stays where it is and makes no call on the world.
pub proof fn lemma_finished_mission_is_silent(
    phase: MissionPhase,
    boss_ordered: bool,
    facts: MissionFacts,
    elapsed: bool,
)
    requires
        phase.terminal(),
    ensures
        transition(phase, boss_ordered, facts, elapsed) == stay(phase),
        calls_for(transition(phase, boss_ordered, facts, elapsed)) == Seq::<MissionCall>::empty(),
{
    assert(calls_for(stay(phase)) =~= Seq::<MissionCall>::empty());
}

/// Losing the frame fails the mission from any unfinished phase, and a
/// defeat is never also a victory.
pub proof fn lemma_losing_the_frame_fails_the_mission(
    phase: MissionPhase,
    boss_ordered: bool,
    facts: MissionFacts,
    elapsed: bool,
)
    requires
        !phase.terminal(),
        !facts.player_alive,
    ensures
        transition(phase, boss_ordered, facts, elapsed).next == MissionPhase::Defeat,
        transition(phase, boss_ordered, facts, elapsed).fail,
        !transition(phase, boss_ordered, facts, elapsed).complete,
        calls_for(transition(phase, boss_ordered, facts, elapsed)) == seq![
            MissionCall::Objective(MissionPhase::Defeat),
            MissionCall::Fail,
        ],
        objective_text(MissionPhase::Defeat) == "FRAME LOST"@,
{
    let s = transition(phase, boss_ordered, facts, elapsed);
    assert(calls_for(s) =~= seq![MissionCall::Objective(MissionPhase::Defeat), MissionCall::Fail]);
}

/// The operation only ever moves forward, one phase at a time, and the only
/// way to win is to bring down a boss that was ordered in.
pub proof fn lemma_mission_moves_forward(
    phase: MissionPhase,
    boss_ordered: bool,
    facts: MissionFacts,
    elapsed: bool,
)
    ensures
        ({
            let s = transition(phase, boss_ordered, facts, elapsed);
            &&& rank(s.next) >= rank(phase)
            &&& s.next != phase && s.next != MissionPhase::Defeat ==> rank(s.next) == rank(phase)
                + 1
            &&& s.complete <==> (s.next == MissionPhase::Victory && phase != MissionPhase::Victory)
            &&& s.complete ==> phase == MissionPhase::Boss && boss_ordered && !facts.boss_alive
                && facts.player_alive
            &&& !(s.complete && s.fail)
        }),
{
}

/// Bringing down an ordered boss wins the operation whether or not its escort
/// still stands, announcing the win and completing exactly once; nothing
/// else at the boss phase does, and while the boss stands no call is made.
pub proof fn lemma_the_boss_is_the_objective(boss_ordered: bool, facts: MissionFacts, elapsed: bool)
    ensures
        transition(MissionPhase::Boss, boss_ordered, facts, elapsed).next == MissionPhase::Victory
            <==> (facts.player_alive && boss_ordered && !facts.boss_alive),
        (facts.player_alive && boss_ordered && !facts.boss_alive) ==> calls_for(
            transition(MissionPhase::Boss, boss_ordered, facts, elapsed),
        ) == seq![MissionCall::Objective(MissionPhase::Victory), MissionCall::Complete],
        (facts.player_alive && facts.boss_alive) ==> calls_for(
            transition(MissionPhase::Boss, boss_ordered, facts, elapsed),
        ) == Seq::<MissionCall>::empty(),
        objective_text(MissionPhase::Victory) == "MISSION COMPLETE"@,
{
    let s = transition(MissionPhase::Boss, boss_ordered, facts, elapsed);
    if facts.player_alive && boss_ordered && !facts.boss_alive {
        assert(calls_for(s) =~= seq![MissionCall::Objective(MissionPhase::Victory), MissionCall::Complete]);
    }
    if facts.player_alive && facts.boss_alive {
        assert(calls_for(s) =~= Seq::<MissionCall>::empty());
    }
}

/// Waves arrive only when a countdown runs out, each the size the operation
/// calls for, and the boss leads its own wave.
pub proof fn lemma_waves_arrive_in_order(
    phase: MissionPhase,
    boss_ordered: bool,
    facts: MissionFacts,
    elapsed: bool,
)
    ensures
        ({
            let s = transition(phase, boss_ordered, facts, elapsed);
            &&& s.deploy is Some ==> elapsed && facts.player_alive
            &&& s.deploy == Some(Wave::Screen) <==> (phase == MissionPhase::Intro && s.next
                == MissionPhase::Wave1)
            &&& s.deploy == Some(Wave::Siege) <==> (phase == MissionPhase::Gap1 && s.next
                == MissionPhase::Wave2)
            &&& s.deploy == Some(Wave::Patriarch) <==> (phase == MissionPhase::Gap2 && s.next
                == MissionPhase::Boss)
            &&& s.start_gap <==> (s.next == MissionPhase::Gap1 || s.next == MissionPhase::Gap2)
                && s.next != phase
            &&& s.deploy matches Some(w) ==> calls_for(s) == seq![MissionCall::Objective(s.next)]
                + spawn_calls(wave_orders(w))
        }),
        wave_orders(Wave::Screen).len() == 3,
        wave_orders(Wave::Siege).len() == 5,
        wave_orders(Wave::Patriarch).len() == 3,
        wave_orders(Wave::Patriarch)[0].kind == EnemyKind::Boss,
        forall|i: int|
            1 <= i < 3 ==> #[trigger] wave_orders(Wave::Patriarch)[i].kind != EnemyKind::Boss,
        forall|i: int| 0 <= i < 3 ==> #[trigger] wave_orders(Wave::Screen)[i].kind == EnemyKind::Skirmisher,
{
    let s = transition(phase, boss_ordered, facts, elapsed);
    if let Some(w) = s.deploy {
        assert(calls_for(s) =~= seq![MissionCall::Objective(s.next)] + spawn_calls(wave_orders(w)));
    }
}

/// A hint, once claimed, is never claimed again.
pub proof fn lemma_hint_claimed_once(shown: Seq<Seq<char>>, id: Seq<char>)
    ensures
        shown.push(id).contains(id),
{
    assert(shown.push(id)[shown.len() as int] == id);
}

/// Objective lines tell the phases apart, except the two gaps, which share a
/// line on purpose.
pub proof fn lemma_objectives_tell_phases_apart(a: MissionPhase, b: MissionPhase)
    ensures
        objective_text(a) == objective_text(b) ==> a == b || (rank(a) == 2 || rank(a) == 4) && (
        rank(b) == 2 || rank(b) == 4),
{
    reveal_strlit("");
    reveal_strlit("DEPLOY — move out and sweep the yard");
    reveal_strlit("CONTACT — destroy the skirmisher screen");
    reveal_strlit("REGROUP — more hostiles inbound");
    reveal_strlit("HOLD — siege units detected");
    reveal_strlit("PRIORITY — destroy the ASHFRAME PATRIARCH");
    reveal_strlit("MISSION COMPLETE");
    reveal_strlit("FRAME LOST");
    if objective_text(a) == objective_text(b) {
        let (x, y) = (objective_text(a), objective_text(b));
        assert(x.len() == y.len() && x[0] == y[0] && x[1] == y[1]);
    }
}

/// A wave ends exactly when the yard is clear: from either wave, with the
/// player alive, the step leaves the wave if and only if no enemy is left,
/// and then it opens a gap without deploying anything.
pub proof fn lemma_a_wave_ends_when_the_yard_is_clear(
    phase: MissionPhase,
    boss_ordered: bool,
    facts: MissionFacts,
    elapsed: bool,
)
    requires
        phase == MissionPhase::Wave1 || phase == MissionPhase::Wave2,
        facts.player_alive,
    ensures
        ({
            let s = transition(phase, boss_ordered, facts, elapsed);
            &&& (s.next != phase) <==> (facts.alive_enemies == 0)
            &&& facts.alive_enemies == 0 ==> s.start_gap && s.deploy is None && s.announce
            &&& facts.alive_enemies != 0 ==> calls_for(s) == Seq::<MissionCall>::empty()
        }),
{
    let s = transition(phase, boss_ordered, facts, elapsed);
    if facts.alive_enemies != 0 {
        assert(calls_for(s) =~= Seq::<MissionCall>::empty());
    }
}

/// A countdown phase moves on exactly when its countdown has run out,
/// whatever the yard holds.
pub proof fn lemma_countdowns_decide_the_pauses(
    phase: MissionPhase,
    boss_ordered: bool,
    facts: MissionFacts,
    elapsed: bool,
)
    requires
        phase == MissionPhase::Intro || phase == MissionPhase::Gap1 || phase == MissionPhase::Gap2,
        facts.player_alive,
    ensures
        (transition(phase, boss_ordered, facts, elapsed).next != phase) <==> elapsed,
        elapsed ==> transition(phase, boss_ordered, facts, elapsed).deploy is Some,
{
}

} // verus!
