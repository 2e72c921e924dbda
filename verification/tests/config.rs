use ashframe_sim::config::{
    artillery, boss, fx, mission, missiles, player, rifle, score_for, sim, skirmisher, world,
    MechPresetId, MECH_PRESET_IDS,
};
use ashframe_sim::types::EnemyKind;

#[test]
fn the_arena_is_the_size_the_readme_claims() {
    // "Playable area is roughly 300 x 300."
    assert_eq!(world::HALF * 2, 300);
}

#[test]
fn the_kill_plane_is_below_the_floor() {
    assert!(world::KILL_PLANE < world::FLOOR_Y);
}

#[test]
fn gravity_pulls_downwards() {
    assert!(world::GRAVITY < 0, "gravity must be negative");
}

#[test]
fn preset_ids_round_trip_through_their_keys() {
    for id in MECH_PRESET_IDS {
        assert_eq!(MechPresetId::parse(id.key()), id);
        assert_eq!(MechPresetId::parse(id.label()), id);
    }
}

#[test]
fn an_unfamiliar_stored_choice_falls_back_rather_than_failing() {
    assert_eq!(MechPresetId::parse("nonsense"), MechPresetId::Balanced);
    assert_eq!(MechPresetId::parse(""), MechPresetId::Balanced);
    assert_eq!(MechPresetId::default(), MechPresetId::Balanced);
}

#[test]
fn the_score_table_covers_every_enemy() {
    assert_eq!(score_for(EnemyKind::Skirmisher), 100);
    assert_eq!(score_for(EnemyKind::Artillery), 175);
    assert_eq!(score_for(EnemyKind::Boss), 2500);
}

#[test]
fn a_boss_is_worth_more_than_a_whole_wave_of_skirmishers() {
    assert!(score_for(EnemyKind::Boss) > score_for(EnemyKind::Artillery) * 10);
}

#[test]
fn the_missile_lock_is_required_as_documented() {
    assert!(missiles::LOCK_REQUIRED);
}

#[test]
fn enemy_tiers_are_ordered_by_toughness() {
    assert!(skirmisher::HEALTH < artillery::HEALTH);
    assert!(artillery::HEALTH < boss::HEALTH);
    assert!(skirmisher::STABILITY < artillery::STABILITY);
    assert!(artillery::STABILITY < boss::STABILITY);
}

#[test]
fn presenting_more_than_the_limits_is_not_possible() {
    assert!(fx::MAX_PARTICLES > 0 && fx::MAX_PARTICLES <= 4096);
    assert!(fx::MAX_VOICES > 0 && fx::MAX_VOICES <= 128);
}

#[test]
fn energy_economy_is_coherent() {
    assert!(player::ENERGY_QUICK_BOOST > 0);
    assert!(player::ENERGY_MAX > player::ENERGY_QUICK_BOOST);
    assert!(
        player::ENERGY_MAX > player::ENERGY_MIN_TO_BOOST,
        "a full bar must be able to start a boost"
    );
    assert!(player::ENERGY_REGEN_GROUND > player::ENERGY_REGEN_AIR);
}

#[test]
fn flight_caps_descent_but_still_permits_it() {
    assert!(player::FLIGHT_FALL_CAP < 0, "the cap must be a descent");
    assert!(
        player::FLIGHT_FALL_CAP > -player::FALL_MAX,
        "thrusting must fall more slowly than falling"
    );
}

#[test]
fn a_repair_does_not_heal_more_than_a_frame_has() {
    assert!(player::REPAIR_AMOUNT < player::HEALTH_MAX);
    assert!(player::REPAIRS > 0);
}

// -- parsing and counts -----------------------------------------------------

#[test]
fn the_mission_module_scores_as_the_table_does() {
    for kind in [EnemyKind::Skirmisher, EnemyKind::Artillery, EnemyKind::Boss] {
        assert_eq!(mission::score_for(kind), score_for(kind));
    }
}

#[test]
fn stored_choices_are_trimmed_and_case_folded() {
    assert_eq!(MechPresetId::parse("  Heavy \n"), MechPresetId::Heavy);
    assert_eq!(MechPresetId::parse("\tVyPeR"), MechPresetId::Light);
    assert_eq!(MechPresetId::parse("BASTION"), MechPresetId::Heavy);
    assert_eq!(MechPresetId::parse("ranger"), MechPresetId::Balanced);
    assert_eq!(MechPresetId::parse("\u{3000}light\u{a0}"), MechPresetId::Light);
    // Interior whitespace is not trimmed.
    assert_eq!(MechPresetId::parse("li ght"), MechPresetId::Balanced);
    // Only ASCII is case-folded: a dotted capital stays what it is.
    assert_eq!(MechPresetId::parse("L\u{130}GHT"), MechPresetId::Balanced);
}

#[test]
fn preset_keys_and_labels_read_as_documented() {
    assert_eq!(MechPresetId::Light.key(), "light");
    assert_eq!(MechPresetId::Balanced.key(), "balanced");
    assert_eq!(MechPresetId::Heavy.key(), "heavy");
    assert_eq!(MechPresetId::Light.label(), "VYPER");
    assert_eq!(MechPresetId::Balanced.label(), "RANGER");
    assert_eq!(MechPresetId::Heavy.label(), "BASTION");
}

#[test]
fn the_simulation_counts_are_what_the_readme_documents() {
    assert_eq!(sim::HZ, 120);
    assert!(sim::MAX_STEPS > 0);
    assert_eq!(rifle::MAGAZINE, 42);
    assert_eq!(missiles::COUNT, 6);
    assert_eq!(rifle::NAME, "VK-40 AUTOCANNON");
}

#[test]
fn a_stored_choice_is_trimmed_of_whitespace_as_the_standard_library_reads_it() {
    for code in 0u32..0x3100 {
        let Some(c) = char::from_u32(code) else {
            continue;
        };
        let padded = format!("{c}heavy{c}");
        let expected = if c.is_whitespace() {
            MechPresetId::Heavy
        } else {
            MechPresetId::Balanced
        };
        assert_eq!(MechPresetId::parse(&padded), expected, "U+{code:04X}");
    }
}

#[test]
fn the_catch_up_cap_is_under_a_second_of_steps() {
    // The whole-number half of the catch-up budget: the step cap binds well
    // inside one second of simulation.
    assert!(sim::MAX_STEPS > 0);
    assert!(sim::MAX_STEPS < sim::HZ);
}

#[test]
fn the_rifle_is_the_fast_one_and_outranges_its_speed() {
    assert!(rifle::SPEED > missiles::SPEED, "the rifle is the fast one");
    assert!(rifle::RANGE > rifle::SPEED);
}

#[test]
fn a_rifle_round_moves_more_than_a_metre_per_step() {
    // Speed in metres per second against steps per second: more than one
    // metre a step, so collisions must be swept.
    assert!(rifle::SPEED as u32 > sim::HZ);
}
