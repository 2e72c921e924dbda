use ashframe_sim::config::{missiles, player as frame, rifle};
use ashframe_sim::player::{
    Armoury, Gauge, GaugeNotice, Loadout, Mobility, MoveAction, MovementCues, Triggers,
    WeaponAction, WeaponClock,
};
use ashframe_sim::types::{BladePhase, WeaponId};

const DT: f32 = 1.0 / 120.0;
const RELOAD_TIME: f32 = 1.75;
const RPM: f32 = 7.2;
const LAUNCH_INTERVAL: f32 = 0.09;
const POD_COOLDOWN: f32 = 7.5;
const WINDUP: f32 = 0.19;
const ACTIVE: f32 = 0.16;
const RECOVERY: f32 = 0.27;
const BLADE_COOLDOWN: f32 = 1.0;

/// The weapons with the countdowns a frame keeps for them.
struct Rig {
    arms: Armoury,
    fire_cooldown: f32,
    reload_timer: f32,
    missile_cooldown: f32,
    volley_timer: f32,
    blade_timer: f32,
    blade_cooldown: f32,
    log: Vec<WeaponAction>,
}

impl Rig {
    fn new() -> Self {
        Rig {
            arms: Armoury::new(),
            fire_cooldown: 0.0,
            reload_timer: 0.0,
            missile_cooldown: 0.0,
            volley_timer: 0.0,
            blade_timer: 0.0,
            blade_cooldown: 0.0,
            log: Vec::new(),
        }
    }

    fn step(&mut self, triggers: Triggers, lock: Option<u32>) {
        self.fire_cooldown = (self.fire_cooldown - DT).max(0.0);
        self.blade_cooldown = (self.blade_cooldown - DT).max(0.0);
        self.missile_cooldown = (self.missile_cooldown - DT).max(0.0);

        let clock = WeaponClock {
            reload_elapses: self.reload_timer - DT <= 0.0,
            rifle_ready: self.fire_cooldown <= 0.0,
            staggered: false,
            pod_ready: self.missile_cooldown <= 0.0,
            launch_due: self.volley_timer - DT <= 0.0,
            blade_ready: self.blade_cooldown <= 0.0,
            blade_elapses: self.blade_timer - DT <= 0.0,
            windup_elapses: WINDUP - DT <= 0.0,
        };
        let before = self.arms.loadout();
        let acts = self.arms.tick(triggers, lock, clock);
        if before.reloading {
            self.reload_timer -= DT;
        }
        if before.volley_left > 0 {
            self.volley_timer -= DT;
        }
        if before.phase != BladePhase::Idle {
            self.blade_timer -= DT;
        }
        for act in &acts {
            match *act {
                WeaponAction::ReloadEnd => self.reload_timer = 0.0,
                WeaponAction::ReloadStart => self.reload_timer = RELOAD_TIME,
                WeaponAction::Fire => self.fire_cooldown = 1.0 / RPM,
                WeaponAction::VolleyStart => self.missile_cooldown = POD_COOLDOWN,
                WeaponAction::Launch { .. } => self.volley_timer = LAUNCH_INTERVAL,
                WeaponAction::Swing(BladePhase::Windup) => self.blade_timer = WINDUP - DT,
                WeaponAction::Swing(BladePhase::Active) => self.blade_timer = ACTIVE,
                WeaponAction::Swing(BladePhase::Recovery) => self.blade_timer = RECOVERY,
                WeaponAction::BladeRest => self.blade_cooldown = BLADE_COOLDOWN,
                _ => {}
            }
        }
        self.log.extend(acts);
    }

    fn count(&self, f: impl Fn(&WeaponAction) -> bool) -> usize {
        self.log.iter().filter(|a| f(a)).count()
    }
}

fn fire() -> Triggers {
    Triggers {
        fire_primary: true,
        ..Triggers::default()
    }
}

fn missile() -> Triggers {
    Triggers {
        missile_pressed: true,
        ..Triggers::default()
    }
}

fn swing() -> Triggers {
    Triggers {
        blade_pressed: true,
        ..Triggers::default()
    }
}

fn ready() -> WeaponClock {
    WeaponClock {
        rifle_ready: true,
        pod_ready: true,
        blade_ready: true,
        ..WeaponClock::default()
    }
}

#[test]
fn a_new_armoury_is_full() {
    let arms = Armoury::new();
    assert_eq!(arms.ammo(), rifle::MAGAZINE);
    assert_eq!(arms.repairs(), frame::REPAIRS);
    assert_eq!(arms.phase(), BladePhase::Idle);
    assert!(!arms.reloading());
    assert_eq!(arms.volley_left(), 0);
    assert_eq!(arms.volley_target(), None);
}

#[test]
fn firing_consumes_ammunition_and_respects_the_rate() {
    let mut rig = Rig::new();
    for _ in 0..120 {
        rig.step(fire(), None);
    }
    // One second at 7.2 rounds per second is seven shots, not 120.
    let shots = rig.count(|a| *a == WeaponAction::Fire);
    assert!(
        (6..=9).contains(&shots),
        "a second of fire should be about seven rounds, got {shots}"
    );
    assert_eq!(rig.arms.ammo(), rifle::MAGAZINE - shots as u32);
}

#[test]
fn an_empty_magazine_reloads_itself() {
    let mut rig = Rig::new();
    for _ in 0..rifle::MAGAZINE {
        let acts = rig.arms.tick(fire(), None, ready());
        assert_eq!(acts, vec![WeaponAction::Fire]);
    }
    assert_eq!(rig.arms.ammo(), 0);
    rig.log.clear();

    rig.step(fire(), None);
    assert!(rig.log.contains(&WeaponAction::DryFire(WeaponId::Rifle)));
    assert!(
        rig.log.contains(&WeaponAction::ReloadStart),
        "an empty gun should reload itself"
    );

    for _ in 0..(RELOAD_TIME / DT) as u32 + 10 {
        rig.step(Triggers::default(), None);
    }
    assert_eq!(rig.arms.ammo(), rifle::MAGAZINE, "the magazine should be full");
    assert!(rig.log.contains(&WeaponAction::ReloadEnd));
}

#[test]
fn player_a_missile_volley_needs_a_lock() {
    let mut rig = Rig::new();
    rig.step(missile(), None);
    assert!(
        rig.log.contains(&WeaponAction::DryFire(WeaponId::Missiles)),
        "firing without a lock should refuse"
    );
    assert_eq!(rig.count(|a| matches!(a, WeaponAction::Launch { .. })), 0);
}

#[test]
fn a_missile_volley_fires_every_round_in_the_pod() {
    let mut rig = Rig::new();
    rig.step(missile(), Some(7));
    for _ in 0..240 {
        rig.step(Triggers::default(), Some(7));
    }
    assert_eq!(
        rig.count(|a| matches!(a, WeaponAction::Launch { .. })),
        missiles::COUNT as usize,
        "the whole pod should have emptied"
    );
    assert_eq!(rig.arms.volley_target(), Some(7));
}

#[test]
fn the_launches_count_down_the_pod() {
    let mut arms = Armoury::new();
    let first = arms.tick(missile(), Some(3), ready());
    assert_eq!(
        first,
        vec![WeaponAction::VolleyStart, WeaponAction::Launch { left: 5 }]
    );
    let due = WeaponClock {
        launch_due: true,
        ..ready()
    };
    let mut lefts = Vec::new();
    for _ in 0..8 {
        for a in arms.tick(Triggers::default(), Some(3), due) {
            if let WeaponAction::Launch { left } = a {
                lefts.push(left);
            }
        }
    }
    assert_eq!(lefts, vec![4, 3, 2, 1, 0]);
    assert_eq!(arms.volley_left(), 0);
}

#[test]
fn the_blade_runs_through_its_three_phases() {
    let mut rig = Rig::new();
    rig.step(swing(), None);
    let mut seen = vec![rig.arms.phase()];
    for _ in 0..240 {
        rig.step(Triggers::default(), None);
        seen.push(rig.arms.phase());
        if rig.arms.phase() == BladePhase::Idle && seen.len() > 5 {
            break;
        }
    }
    assert!(seen.contains(&BladePhase::Windup), "windup");
    assert!(seen.contains(&BladePhase::Active), "active");
    assert!(seen.contains(&BladePhase::Recovery), "recovery");
    assert_eq!(rig.arms.phase(), BladePhase::Idle, "and back to idle");
    assert!(
        rig.count(|a| matches!(a, WeaponAction::Swing(_))) >= 3,
        "each phase is announced"
    );
    assert_eq!(rig.count(|a| *a == WeaponAction::Lunge), 1, "one lunge per swing");
}

#[test]
fn a_swing_hits_each_target_once() {
    let mut arms = Armoury::new();
    assert!(arms.register_blade_hit(4), "the first hit counts");
    assert!(!arms.register_blade_hit(4), "the second does not");
    assert!(arms.register_blade_hit(5), "a different target still counts");
}

#[test]
fn a_new_swing_can_hit_the_same_target_again() {
    let mut rig = Rig::new();
    rig.arms.register_blade_hit(4);
    rig.step(swing(), None);
    for _ in 0..240 {
        rig.step(Triggers::default(), None);
        if rig.arms.phase() == BladePhase::Idle {
            break;
        }
    }
    assert!(
        rig.arms.register_blade_hit(4),
        "a fresh swing should be able to hit the same enemy"
    );
}

#[test]
fn the_blade_cannot_be_spammed() {
    let mut rig = Rig::new();
    for _ in 0..600 {
        rig.step(swing(), None);
    }
    // Five seconds at one swing per (phases + cooldown) is a handful, not
    // six hundred.
    let swings = rig.count(|a| matches!(a, WeaponAction::Swing(_))) / 3;
    assert!(
        (2..=6).contains(&swings),
        "the blade should be rate limited, got {swings} swings in five seconds"
    );
}

#[test]
fn a_staggered_frame_starts_nothing() {
    let mut arms = Armoury::new();
    let stunned = WeaponClock {
        staggered: true,
        ..ready()
    };
    let all = Triggers {
        fire_primary: true,
        missile_pressed: true,
        blade_pressed: true,
        ..Triggers::default()
    };
    assert!(arms.tick(all, Some(1), stunned).is_empty());
    assert_eq!(arms.ammo(), rifle::MAGAZINE);
    assert_eq!(arms.phase(), BladePhase::Idle);
}

#[test]
fn the_reload_key_waits_for_a_spent_round() {
    let mut arms = Armoury::new();
    let reload = Triggers {
        reload_pressed: true,
        ..Triggers::default()
    };
    assert!(arms.tick(reload, None, ready()).is_empty(), "a full magazine does not reload");
    arms.tick(fire(), None, ready());
    assert_eq!(arms.tick(reload, None, ready()), vec![WeaponAction::ReloadStart]);
    assert!(arms.reloading());
    assert!(arms.tick(fire(), None, ready()).is_empty(), "no shots while reloading");
    let done = WeaponClock {
        reload_elapses: true,
        ..ready()
    };
    assert_eq!(
        arms.tick(fire(), None, done),
        vec![WeaponAction::ReloadEnd, WeaponAction::Fire]
    );
    assert_eq!(arms.ammo(), rifle::MAGAZINE - 1);
}

#[test]
fn a_quick_frame_can_finish_the_windup_at_once() {
    let mut arms = Armoury::new();
    let long = WeaponClock {
        windup_elapses: true,
        ..ready()
    };
    assert_eq!(
        arms.tick(swing(), None, long),
        vec![
            WeaponAction::Swing(BladePhase::Windup),
            WeaponAction::Swing(BladePhase::Active)
        ]
    );
    assert_eq!(arms.phase(), BladePhase::Active);
    assert_eq!(arms.loadout().lunge_applied, false);
}

#[test]
fn a_repair_refuses_at_full_health() {
    let mut arms = Armoury::new();
    // Full health: the frame is not ready for a repair.
    assert_eq!(arms.repair(true, false), None);
    assert_eq!(arms.repairs(), frame::REPAIRS);
}

#[test]
fn a_repair_spends_one_charge() {
    let mut arms = Armoury::new();
    assert_eq!(arms.repair(false, true), None, "not without the key");
    assert_eq!(arms.repair(true, true), Some(frame::REPAIRS - 1));
    assert_eq!(arms.repairs(), frame::REPAIRS - 1);
}

#[test]
fn repairs_run_out() {
    let mut arms = Armoury::new();
    for _ in 0..frame::REPAIRS + 3 {
        arms.repair(true, true);
    }
    assert_eq!(arms.repairs(), 0, "charges should not go below zero");
}

#[test]
fn a_reset_restores_everything() {
    let mut arms = Armoury::new();
    for _ in 0..40 {
        arms.tick(fire(), None, ready());
    }
    arms.repair(true, true);
    arms.tick(swing(), None, ready());
    arms.register_blade_hit(9);
    arms.reset();
    let fresh: Loadout = Armoury::new().loadout();
    assert_eq!(arms.loadout(), fresh);
    assert_eq!(arms.ammo(), rifle::MAGAZINE);
    assert_eq!(arms.repairs(), frame::REPAIRS);
    assert_eq!(arms.phase(), BladePhase::Idle);
    assert!(arms.register_blade_hit(9));
}

fn standing() -> MovementCues {
    MovementCues {
        grounded: true,
        energy_left: true,
        energy_after_boost: true,
        boost_ready: true,
        ..MovementCues::default()
    }
}

#[test]
fn a_jump_pressed_just_before_landing_still_fires() {
    let mut m = Mobility::new();
    // Still in the air: buffered, nothing yet.
    let airborne = MovementCues {
        jump_due: true,
        grounded: false,
        ..standing()
    };
    assert!(m.step(airborne).is_empty());
    // The buffer is still live on landing, so the jump fires.
    let landed = MovementCues {
        jump_due: true,
        ..standing()
    };
    assert_eq!(m.step(landed), vec![MoveAction::Jump]);
    // Just off an edge, within the grace, it fires too.
    let off_edge = MovementCues {
        jump_due: true,
        grounded: false,
        coyote: true,
        ..standing()
    };
    assert_eq!(Mobility::new().step(off_edge), vec![MoveAction::Jump]);
}

#[test]
fn sustained_thrust_lifts_the_mech() {
    let mut m = Mobility::new();
    let thrust = MovementCues {
        jump_due: true,
        jump_held: true,
        ..standing()
    };
    assert_eq!(m.step(thrust), vec![MoveAction::Jump]);
    assert!(m.flying, "the jump leaves the ground, so thrust flies");
    assert!(m.spending());
    m.land();
    assert!(!m.flying);
}

#[test]
fn flight_cannot_lift_the_mech_with_no_energy() {
    let mut m = Mobility::new();
    let empty = MovementCues {
        jump_held: true,
        grounded: false,
        energy_left: false,
        ..standing()
    };
    m.step(empty);
    assert!(!m.flying, "an empty tank should not fly");
}

#[test]
fn a_quick_boost_holds_off_the_assault_boost() {
    let mut m = Mobility::new();
    let both = MovementCues {
        boost_pressed: true,
        assault_held: true,
        ..standing()
    };
    assert_eq!(m.step(both), vec![MoveAction::QuickBoost]);
    assert!(m.boosting && !m.assaulting);
    let over = MovementCues {
        assault_held: true,
        boost_elapses: true,
        ..standing()
    };
    assert_eq!(m.step(over), vec![MoveAction::AssaultStart]);
    assert!(!m.boosting && m.assaulting);
    // Held on, nothing more is announced; let go, and its end is.
    let held = MovementCues {
        assault_held: true,
        ..standing()
    };
    assert!(m.step(held).is_empty());
    assert_eq!(m.step(standing()), vec![MoveAction::AssaultEnd]);
    assert!(!m.assaulting);
}

#[test]
fn the_assault_boost_rules_out_flight() {
    let mut m = Mobility::new();
    let both = MovementCues {
        assault_held: true,
        jump_held: true,
        grounded: false,
        ..standing()
    };
    assert_eq!(m.step(both), vec![MoveAction::AssaultStart]);
    assert!(m.assaulting && !m.flying);
}

#[test]
fn a_boost_that_empties_the_tank_stops_the_assault() {
    let mut m = Mobility {
        assaulting: true,
        ..Mobility::new()
    };
    let drained = MovementCues {
        boost_pressed: true,
        assault_held: true,
        energy_after_boost: false,
        fresh_boost_elapses: true,
        ..standing()
    };
    assert_eq!(
        m.step(drained),
        vec![MoveAction::QuickBoost, MoveAction::AssaultEnd]
    );
    assert!(!m.assaulting && !m.boosting);
}

#[test]
fn running_the_tank_empty_is_announced_once() {
    let mut g = Gauge::new();
    assert_eq!(g.read(true, false), Some(GaugeNotice::Empty));
    for _ in 0..10 {
        assert_eq!(g.read(true, false), None, "once, not every frame");
    }
    // A drop of energy back is not a recovery.
    assert_eq!(g.read(false, false), None);
    assert_eq!(g.read(false, true), Some(GaugeNotice::Restored));
    assert_eq!(g.read(false, true), None);
    assert!(!g.reported_empty);
}
