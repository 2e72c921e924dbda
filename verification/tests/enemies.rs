use ashframe_sim::config::{artillery, boss, skirmisher};
use ashframe_sim::enemies::tactics::{barrage_length, Senses, TacticAction, Tactics, Threat};
use ashframe_sim::enemies::{AiState, EnemyRoster, FIRST_ENEMY_ID};
use ashframe_sim::types::EnemyKind;

#[test]
fn a_new_unit_gets_the_next_id_and_is_alive() {
    let mut roster = EnemyRoster::new();
    let a = roster.obtain(EnemyKind::Skirmisher);
    let b = roster.obtain(EnemyKind::Boss);
    assert_eq!((a, b), (0, 1));
    assert_eq!(roster.entry(a).id, FIRST_ENEMY_ID);
    assert_eq!(roster.entry(b).id, FIRST_ENEMY_ID + 1);
    assert!(roster.entry(b).alive);
    assert_eq!(roster.active_count(), 2);
}

#[test]
fn a_dead_unit_of_the_right_kind_is_reused() {
    let mut roster = EnemyRoster::new();
    let a = roster.obtain(EnemyKind::Skirmisher);
    let b = roster.obtain(EnemyKind::Artillery);
    roster.set_alive(a, false);
    roster.set_alive(b, false);
    // The dead artillery unit is not a skirmisher, the dead skirmisher is.
    assert_eq!(roster.obtain(EnemyKind::Skirmisher), a);
    assert_eq!(roster.len(), 2);
    // Obtaining does not revive: that is the caller's job.
    assert!(!roster.entry(a).alive);
    // A living unit is never handed out again.
    roster.set_alive(a, true);
    let c = roster.obtain(EnemyKind::Skirmisher);
    assert_eq!(c, 2);
    assert_eq!(roster.entry(c).id, FIRST_ENEMY_ID + 2);
}

#[test]
fn lookup_by_id_finds_the_unit() {
    let mut roster = EnemyRoster::new();
    for _ in 0..4 {
        roster.obtain(EnemyKind::Skirmisher);
    }
    assert_eq!(roster.by_id(FIRST_ENEMY_ID + 2), Some(2));
    assert_eq!(roster.by_id(1), None, "the player's id is not an enemy's");
    assert_eq!(roster.by_id(FIRST_ENEMY_ID + 4), None);
}

#[test]
fn clearing_and_reviving_keep_the_units() {
    let mut roster = EnemyRoster::new();
    roster.obtain(EnemyKind::Skirmisher);
    roster.obtain(EnemyKind::Boss);
    roster.clear();
    assert_eq!(roster.active_count(), 0);
    assert_eq!(roster.len(), 2);
    assert!(!roster.any_alive(EnemyKind::Boss));
    roster.revive_all();
    assert_eq!(roster.active_count(), 2);
    assert!(roster.any_alive(EnemyKind::Boss));
}

#[test]
fn the_roster_reports_what_the_mission_needs() {
    let mut roster = EnemyRoster::new();
    let boss = roster.obtain(EnemyKind::Boss);
    roster.obtain(EnemyKind::Skirmisher);
    let facts = roster.mission_facts(true);
    assert_eq!(facts.alive_enemies, 2);
    assert!(facts.boss_alive);
    assert!(facts.player_alive);
    roster.set_alive(boss, false);
    let facts = roster.mission_facts(false);
    assert_eq!(facts.alive_enemies, 1);
    assert!(!facts.boss_alive);
    assert!(!facts.player_alive);
}

#[test]
fn ai_states_have_their_labels() {
    assert_eq!(AiState::Idle.label(), "idle");
    assert_eq!(AiState::Telegraph.label(), "telegraph");
    assert_eq!(AiState::Dead.label(), "dead");
}

fn go() -> Senses {
    Senses {
        ready: true,
        clear_shot: true,
        ..Senses::default()
    }
}

#[test]
fn a_staggered_unit_does_not_act() {
    for kind in [EnemyKind::Skirmisher, EnemyKind::Artillery, EnemyKind::Boss] {
        let mut t = Tactics::engaging();
        let acts = t.step(
            kind,
            Senses {
                staggered: true,
                ..go()
            },
        );
        assert!(acts.is_empty(), "a staggered unit cannot shoot");
        assert_eq!(t.state, AiState::Staggered);
    }
}

#[test]
fn a_skirmisher_fires_in_bursts_rather_than_a_stream() {
    let mut t = Tactics::engaging();
    assert_eq!(t.step(EnemyKind::Skirmisher, go()), vec![TacticAction::Shoot]);
    assert_eq!(t.burst_left, skirmisher::BURST_COUNT - 1);
    // Not due yet: nothing, even with the cooldown over.
    assert!(t.step(EnemyKind::Skirmisher, go()).is_empty());
    let due = Senses {
        burst_due: true,
        ..go()
    };
    assert_eq!(t.step(EnemyKind::Skirmisher, due), vec![TacticAction::Shoot]);
    assert_eq!(
        t.step(EnemyKind::Skirmisher, due),
        vec![TacticAction::Shoot, TacticAction::Rest]
    );
    assert_eq!(t.burst_left, 0);
    // A burst runs to its end even after sight is lost.
    let mut u = Tactics::engaging();
    u.step(EnemyKind::Skirmisher, go());
    let blind = Senses {
        burst_due: true,
        ..Senses::default()
    };
    assert_eq!(u.step(EnemyKind::Skirmisher, blind), vec![TacticAction::Shoot]);
}

#[test]
fn a_unit_behind_a_wall_holds_fire() {
    for kind in [EnemyKind::Skirmisher, EnemyKind::Artillery] {
        let mut t = Tactics::engaging();
        let blind = Senses {
            ready: true,
            ..Senses::default()
        };
        assert!(t.step(kind, blind).is_empty());
        assert_eq!(t, Tactics::engaging());
    }
}

#[test]
fn artillery_telegraphs_before_it_fires() {
    let mut t = Tactics::engaging();
    assert_eq!(
        t.step(EnemyKind::Artillery, go()),
        vec![TacticAction::Warn(Threat::Mortar)]
    );
    assert_eq!(t.state, AiState::Telegraph);
    assert!(t.step(EnemyKind::Artillery, go()).is_empty(), "still warning");
    let over = Senses {
        timer_elapses: true,
        ..go()
    };
    assert_eq!(
        t.step(EnemyKind::Artillery, over),
        vec![TacticAction::Salvo {
            rounds: artillery::SALVO_COUNT
        }]
    );
    assert_eq!(t.state, AiState::Attack);
    let due = Senses {
        burst_due: true,
        ..go()
    };
    let mut shots = 0;
    let mut rested = false;
    for _ in 0..10 {
        for a in t.step(EnemyKind::Artillery, due) {
            match a {
                TacticAction::Shoot => shots += 1,
                TacticAction::Rest => rested = true,
                _ => {}
            }
        }
        if rested {
            break;
        }
    }
    assert_eq!(shots, artillery::SALVO_COUNT);
    assert_eq!(t.state, AiState::Engage);
}

#[test]
fn the_boss_slams_when_the_player_is_close() {
    let mut t = Tactics::engaging();
    let close = Senses {
        ready: true,
        close: true,
        ..Senses::default()
    };
    assert!(!t.rolls_for_dash(EnemyKind::Boss, close));
    assert_eq!(
        t.step(EnemyKind::Boss, close),
        vec![TacticAction::Warn(Threat::Slam)]
    );
    let over = Senses {
        timer_elapses: true,
        ..close
    };
    assert_eq!(
        t.step(EnemyKind::Boss, over),
        vec![
            TacticAction::Slam,
            TacticAction::Salvo {
                rounds: boss::BARRAGE_COUNT
            }
        ]
    );
    assert_eq!(t.state, AiState::Attack);
}

#[test]
fn the_boss_dashes_or_marks_a_barrage_as_the_roll_decides() {
    let far = Senses {
        ready: true,
        ..Senses::default()
    };
    let mut t = Tactics::engaging();
    assert!(t.rolls_for_dash(EnemyKind::Boss, far));
    assert_eq!(
        t.step(
            EnemyKind::Boss,
            Senses {
                dash_roll: true,
                ..far
            }
        ),
        vec![TacticAction::Dash]
    );
    assert!(t.dashing);
    assert!(!t.rolls_for_dash(EnemyKind::Boss, far), "no roll mid-dash");
    assert!(t.step(EnemyKind::Boss, far).is_empty());
    let over = Senses {
        timer_elapses: true,
        ..far
    };
    assert_eq!(t.step(EnemyKind::Boss, over), vec![TacticAction::DashEnd]);
    assert_eq!(t, Tactics::engaging());

    let mut u = Tactics::engaging();
    assert_eq!(
        u.step(EnemyKind::Boss, far),
        vec![TacticAction::Warn(Threat::Barrage)]
    );
    assert_eq!(u.state, AiState::Telegraph);
}

#[test]
fn a_wounded_boss_fires_a_longer_barrage() {
    assert_eq!(barrage_length(false), 10);
    assert_eq!(barrage_length(true), 15);
    let mut t = Tactics {
        state: AiState::Telegraph,
        burst_left: 0,
        dashing: false,
    };
    let over = Senses {
        timer_elapses: true,
        wounded: true,
        ..Senses::default()
    };
    assert_eq!(
        t.step(EnemyKind::Boss, over),
        vec![TacticAction::Salvo { rounds: 15 }]
    );
    assert_eq!(t.burst_left, 15);
}

#[test]
fn only_the_boss_rolls() {
    let t = Tactics::engaging();
    assert!(!t.rolls_for_dash(EnemyKind::Skirmisher, go()));
    assert!(!t.rolls_for_dash(EnemyKind::Artillery, go()));
    assert!(!t.rolls_for_dash(
        EnemyKind::Boss,
        Senses {
            ready: false,
            ..Senses::default()
        }
    ));
    assert_eq!(Tactics::dormant().state, AiState::Idle);
}
