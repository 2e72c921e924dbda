use ashframe_sim::projectiles::{kind_for_enemy_weapon, ProjectileKind, ProjectilePool, POOL_SIZE};
use ashframe_sim::types::WeaponId;

#[test]
fn spawns_take_successive_slots() {
    let mut pool = ProjectilePool::new();
    assert_eq!(pool.active_count(), 0);
    assert_eq!(pool.claim(), 0);
    assert_eq!(pool.claim(), 1);
    assert_eq!(pool.claim(), 2);
    assert_eq!(pool.active_count(), 3);
}

#[test]
fn a_released_slot_is_found_again_after_the_cursor_wraps() {
    let mut pool = ProjectilePool::new();
    for _ in 0..POOL_SIZE {
        pool.claim();
    }
    assert_eq!(pool.active_count(), POOL_SIZE);
    pool.release(7);
    assert!(!pool.is_active(7));
    // The cursor is back at the start; the search walks forward to the hole.
    assert_eq!(pool.claim(), 7);
    assert_eq!(pool.active_count(), POOL_SIZE);
}

#[test]
fn a_saturated_pool_recycles_the_slot_under_the_cursor() {
    let mut pool = ProjectilePool::new();
    for _ in 0..POOL_SIZE {
        pool.claim();
    }
    assert_eq!(pool.claim(), 0);
    assert_eq!(pool.claim(), 1);
    assert_eq!(pool.active_count(), POOL_SIZE);
}

#[test]
fn clearing_empties_the_pool() {
    let mut pool = ProjectilePool::new();
    for _ in 0..10 {
        pool.claim();
    }
    pool.clear();
    assert_eq!(pool.active_count(), 0);
    // The search resumes where it left off.
    assert_eq!(pool.claim(), 10);
}

#[test]
fn enemy_weapons_fire_their_own_kinds() {
    assert_eq!(kind_for_enemy_weapon(WeaponId::EnemyMortar), ProjectileKind::Mortar);
    assert_eq!(kind_for_enemy_weapon(WeaponId::BossBarrage), ProjectileKind::Barrage);
    assert_eq!(kind_for_enemy_weapon(WeaponId::EnemyGun), ProjectileKind::Bullet);
}
