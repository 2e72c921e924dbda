use ashframe_sim::mission::{
    objective_for, orders_for, spawn_point_for, MissionCall, MissionFacts, MissionFlow,
    MissionHooks, MissionStep, SpawnOrder, Wave,
};
use ashframe_sim::types::{EnemyKind, MissionPhase};

#[derive(Debug, Default)]
struct Recorder {
    spawned: Vec<SpawnOrder>,
    objectives: Vec<String>,
    completed: u32,
    failed: u32,
}

impl MissionHooks for Recorder {
    fn spawn(&mut self, order: SpawnOrder) {
        self.spawned.push(order);
    }
    fn set_objective(&mut self, text: &str) {
        self.objectives.push(text.to_string());
    }
    fn complete(&mut self) {
        self.completed += 1;
    }
    fn fail(&mut self) {
        self.failed += 1;
    }
}

const ALIVE: MissionFacts = MissionFacts {
    alive_enemies: 1,
    boss_alive: false,
    player_alive: true,
};

const CLEAR: MissionFacts = MissionFacts {
    alive_enemies: 0,
    boss_alive: false,
    player_alive: true,
};

/// One step of the flow, with its calls delivered to `rec`.
fn advance(m: &mut MissionFlow, facts: MissionFacts, elapsed: bool, rec: &mut Recorder) -> MissionStep {
    let (step, calls) = m.advance(facts, elapsed);
    for call in calls {
        match call {
            MissionCall::Objective(phase) => rec.set_objective(objective_for(phase)),
            MissionCall::Spawn(order) => rec.spawn(order),
            MissionCall::Complete => rec.complete(),
            MissionCall::Fail => rec.fail(),
        }
    }
    step
}

/// Drive the flow to `phase`, letting every countdown run out at once.
fn run_to(m: &mut MissionFlow, rec: &mut Recorder, facts: MissionFacts, phase: MissionPhase) {
    for _ in 0..20 {
        if m.phase() == phase {
            return;
        }
        advance(m, facts, true, rec);
    }
    panic!("never reached {:?}", phase);
}

#[test]
fn the_mission_opens_on_a_deploy_countdown() {
    let m = MissionFlow::new();
    assert_eq!(m.phase(), MissionPhase::Intro);
    assert!(m.counting_down());
    assert!(m.objective().starts_with("DEPLOY"));
}

#[test]
fn the_intro_waits_for_its_countdown() {
    let mut m = MissionFlow::new();
    let mut rec = Recorder::default();
    for _ in 0..10 {
        assert!(!advance(&mut m, ALIVE, false, &mut rec).start_gap);
    }
    assert_eq!(m.phase(), MissionPhase::Intro);
    assert!(rec.spawned.is_empty());
    assert!(rec.objectives.is_empty());
}

#[test]
fn the_intro_ends_with_the_skirmisher_screen_arriving() {
    let mut m = MissionFlow::new();
    let mut rec = Recorder::default();
    advance(&mut m, ALIVE, true, &mut rec);
    assert_eq!(m.phase(), MissionPhase::Wave1);
    assert_eq!(rec.spawned.len(), 3);
    assert!(rec.spawned.iter().all(|o| o.kind == EnemyKind::Skirmisher));
    assert_eq!(
        rec.spawned.iter().map(|o| o.slot).collect::<Vec<_>>(),
        vec![0, 1, 2]
    );
    assert_eq!(
        rec.objectives.last().unwrap(),
        "CONTACT — destroy the skirmisher screen"
    );
}

#[test]
fn a_cleared_wave_starts_a_gap_rather_than_the_next_wave() {
    let mut m = MissionFlow::new();
    let mut rec = Recorder::default();
    run_to(&mut m, &mut rec, ALIVE, MissionPhase::Wave1);
    let gap = advance(&mut m, CLEAR, false, &mut rec).start_gap;
    assert!(gap, "clearing a wave opens a gap");
    assert_eq!(m.phase(), MissionPhase::Gap1);
    assert!(m.objective().starts_with("REGROUP"));
    assert_eq!(rec.spawned.len(), 3);
}

#[test]
fn the_boss_arrives_only_after_the_siege_wave_is_broken() {
    let mut m = MissionFlow::new();
    let mut rec = Recorder::default();
    run_to(&mut m, &mut rec, ALIVE, MissionPhase::Wave1);
    advance(&mut m, CLEAR, false, &mut rec);
    advance(&mut m, CLEAR, true, &mut rec);
    assert_eq!(m.phase(), MissionPhase::Wave2);
    assert_eq!(rec.spawned.len(), 8);
    assert_eq!(
        rec.spawned[3..]
            .iter()
            .filter(|o| o.kind == EnemyKind::Artillery)
            .count(),
        2
    );
    assert!(!m.boss_ordered());
    advance(&mut m, CLEAR, false, &mut rec);
    assert_eq!(m.phase(), MissionPhase::Gap2);
    advance(&mut m, CLEAR, true, &mut rec);
    assert_eq!(m.phase(), MissionPhase::Boss);
    assert!(m.boss_ordered());
    assert_eq!(rec.spawned.len(), 11);
    assert_eq!(rec.spawned[8].kind, EnemyKind::Boss);
    assert_eq!(rec.spawned[10].kind, EnemyKind::Skirmisher);
}

#[test]
fn killing_the_boss_completes_the_mission() {
    let mut m = MissionFlow::new();
    let mut rec = Recorder::default();
    run_to(&mut m, &mut rec, CLEAR, MissionPhase::Boss);
    let boss_up = MissionFacts {
        alive_enemies: 3,
        boss_alive: true,
        player_alive: true,
    };
    for _ in 0..10 {
        advance(&mut m, boss_up, true, &mut rec);
    }
    assert_eq!(m.phase(), MissionPhase::Boss);
    assert_eq!(rec.completed, 0);
    let boss_down = MissionFacts {
        alive_enemies: 2,
        boss_alive: false,
        player_alive: true,
    };
    advance(&mut m, boss_down, false, &mut rec);
    assert_eq!(m.phase(), MissionPhase::Victory);
    assert_eq!(rec.completed, 1);
    assert!(m.finished());
    assert_eq!(m.objective(), "MISSION COMPLETE");
}

#[test]
fn losing_the_frame_fails_the_mission_from_any_phase() {
    for phase in [
        MissionPhase::Intro,
        MissionPhase::Wave1,
        MissionPhase::Gap1,
        MissionPhase::Wave2,
        MissionPhase::Gap2,
        MissionPhase::Boss,
    ] {
        let mut m = MissionFlow::new();
        let mut rec = Recorder::default();
        run_to(&mut m, &mut rec, CLEAR, phase);
        let spawned = rec.spawned.len();
        advance(&mut m, 
            MissionFacts {
                alive_enemies: 0,
                boss_alive: false,
                player_alive: false,
            },
            true,
            &mut rec,
        );
        assert_eq!(m.phase(), MissionPhase::Defeat, "from {:?}", phase);
        assert_eq!(rec.failed, 1);
        assert_eq!(rec.completed, 0);
        assert_eq!(rec.spawned.len(), spawned, "a dead pilot gets no reinforcements");
        assert_eq!(rec.objectives.last().unwrap(), "FRAME LOST");
    }
}

#[test]
fn a_finished_mission_stops_talking() {
    let mut m = MissionFlow::new();
    let mut rec = Recorder::default();
    advance(&mut m, 
        MissionFacts {
            alive_enemies: 0,
            boss_alive: false,
            player_alive: false,
        },
        false,
        &mut rec,
    );
    let before = rec.objectives.len();
    for _ in 0..60 {
        advance(&mut m, ALIVE, true, &mut rec);
    }
    assert_eq!(m.phase(), MissionPhase::Defeat);
    assert_eq!(rec.objectives.len(), before);
    assert_eq!(rec.failed, 1);
}

#[test]
fn kills_are_scored_by_archetype() {
    let mut m = MissionFlow::new();
    m.register_kill(EnemyKind::Skirmisher);
    m.register_kill(EnemyKind::Artillery);
    m.register_kill(EnemyKind::Boss);
    assert_eq!(m.tally().kills, 3);
    assert_eq!(m.tally().score, 100 + 175 + 2500);
    m.record_shot();
    m.record_shot();
    m.record_repair();
    assert_eq!(m.tally().shots_fired, 2);
    assert_eq!(m.tally().repairs_used, 1);
}

#[test]
fn a_hint_is_claimed_once() {
    let mut m = MissionFlow::new();
    assert!(m.claim_hint("move"));
    assert!(!m.claim_hint("move"));
    assert!(m.claim_hint("boost"));
    assert_eq!(m.hints(), ["move".to_string(), "boost".to_string()]);
}

#[test]
fn a_reset_puts_everything_back() {
    let mut m = MissionFlow::new();
    let mut rec = Recorder::default();
    m.register_kill(EnemyKind::Boss);
    m.claim_hint("move");
    run_to(&mut m, &mut rec, CLEAR, MissionPhase::Boss);
    m.reset();
    assert_eq!(m.phase(), MissionPhase::Intro);
    assert_eq!(m.tally().kills, 0);
    assert_eq!(m.tally().score, 0);
    assert!(m.hints().is_empty());
    assert!(!m.boss_ordered());
}

#[test]
fn every_phase_says_something_different() {
    let phases = [
        MissionPhase::Intro,
        MissionPhase::Wave1,
        MissionPhase::Gap1,
        MissionPhase::Wave2,
        MissionPhase::Gap2,
        MissionPhase::Boss,
        MissionPhase::Victory,
        MissionPhase::Defeat,
    ];
    for (i, a) in phases.iter().enumerate() {
        for b in &phases[i + 1..] {
            let gaps = matches!(a, MissionPhase::Gap1 | MissionPhase::Gap2)
                && matches!(b, MissionPhase::Gap1 | MissionPhase::Gap2);
            if gaps {
                assert_eq!(objective_for(*a), objective_for(*b));
            } else {
                assert_ne!(objective_for(*a), objective_for(*b));
            }
        }
    }
}

#[test]
fn the_waves_are_the_ones_the_operation_calls_for() {
    assert_eq!(orders_for(Wave::Screen).len(), 3);
    assert_eq!(orders_for(Wave::Siege).len(), 5);
    let boss = orders_for(Wave::Patriarch);
    assert_eq!(boss[0], SpawnOrder { kind: EnemyKind::Boss, slot: 0 });
    assert_eq!(boss[2], SpawnOrder { kind: EnemyKind::Skirmisher, slot: 7 });
}

#[test]
fn a_missing_spawn_point_wraps_or_falls_back() {
    assert_eq!(spawn_point_for(3, 8), Some(3));
    assert_eq!(spawn_point_for(9, 8), Some(1));
    assert_eq!(spawn_point_for(0, 1), Some(0));
    assert_eq!(spawn_point_for(5, 0), None);
}

#[test]
fn the_escorts_do_not_have_to_die_for_the_mission_to_end() {
    let mut m = MissionFlow::new();
    let mut rec = Recorder::default();
    run_to(&mut m, &mut rec, CLEAR, MissionPhase::Boss);
    let facts = MissionFacts {
        alive_enemies: 2,
        boss_alive: false,
        player_alive: true,
    };
    advance(&mut m, facts, false, &mut rec);
    assert_eq!(m.phase(), MissionPhase::Victory);
}

#[test]
fn death_beats_a_cleared_yard_in_the_same_step() {
    let mut m = MissionFlow::new();
    let mut rec = Recorder::default();
    run_to(&mut m, &mut rec, ALIVE, MissionPhase::Wave1);
    advance(&mut m, CLEAR, false, &mut rec);
    advance(&mut m, CLEAR, true, &mut rec);
    assert_eq!(m.phase(), MissionPhase::Wave2);
    advance(&mut m, 
        MissionFacts {
            alive_enemies: 0,
            boss_alive: false,
            player_alive: false,
        },
        false,
        &mut rec,
    );
    assert_eq!(m.phase(), MissionPhase::Defeat);
}

#[test]
fn a_boss_that_was_never_ordered_cannot_be_killed() {
    // Reaching the boss phase orders the boss; before that, an absent boss
    // is one that has not arrived, and the wave phases ignore it.
    let mut m = MissionFlow::new();
    let mut rec = Recorder::default();
    run_to(&mut m, &mut rec, ALIVE, MissionPhase::Wave1);
    for _ in 0..5 {
        advance(&mut m, ALIVE, true, &mut rec);
    }
    assert_eq!(m.phase(), MissionPhase::Wave1);
    assert_eq!(rec.completed, 0);
}

#[test]
fn a_step_returns_its_calls_in_order() {
    let mut m = MissionFlow::new();
    let (step, calls) = m.advance(ALIVE, true);
    assert_eq!(step.next, MissionPhase::Wave1);
    let mut expected = vec![MissionCall::Objective(MissionPhase::Wave1)];
    expected.extend(orders_for(Wave::Screen).into_iter().map(MissionCall::Spawn));
    assert_eq!(calls, expected);
    let lost = MissionFacts {
        player_alive: false,
        ..ALIVE
    };
    let (_, calls) = m.advance(lost, false);
    assert_eq!(
        calls,
        vec![MissionCall::Objective(MissionPhase::Defeat), MissionCall::Fail]
    );
    let (_, calls) = m.advance(CLEAR, true);
    assert!(calls.is_empty(), "a finished mission makes no call");
}
