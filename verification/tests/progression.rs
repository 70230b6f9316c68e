use combat_core::bosses::{BossPhase, PHASE_1_HP, PHASE_2_HP, PHASE_3_HP};
use combat_core::level::Level;
use combat_core::player::Player;

#[test]
fn levels_advance_in_order_and_the_last_repeats() {
    assert_eq!(Level::Tutorial.next(), Level::Phase1);
    assert_eq!(Level::Phase1.next(), Level::Phase2);
    assert_eq!(Level::Phase2.next(), Level::Phase3);
    assert_eq!(Level::Phase3.next(), Level::Phase3);
    assert!(!Level::Tutorial.is_last());
    assert!(!Level::Phase2.is_last());
    assert!(Level::Phase3.is_last());
    assert_eq!(Level::default(), Level::Tutorial);
}

#[test]
fn player_stats_grow_by_level() {
    assert_eq!(Level::Tutorial.player_stats(), 3);
    assert_eq!(Level::Phase1.player_stats(), 6);
    assert_eq!(Level::Phase2.player_stats(), 9);
    assert_eq!(Level::Phase3.player_stats(), 12);
}

#[test]
fn boss_phase_health_bookkeeping() {
    let p1 = BossPhase::for_phase(1);
    let p2 = BossPhase::for_phase(2);
    let p3 = BossPhase::for_phase(3);
    assert_eq!(p1.max_hp, PHASE_1_HP);
    assert_eq!(p2.max_hp, PHASE_2_HP);
    assert_eq!(p3.max_hp, PHASE_3_HP);
    assert_eq!(p1.total_hp(), PHASE_1_HP + PHASE_2_HP + PHASE_3_HP);
    assert_eq!(p1.current_base_hp(), PHASE_2_HP + PHASE_3_HP);
    assert_eq!(p2.current_base_hp(), PHASE_3_HP);
    assert_eq!(p3.current_base_hp(), 0);
    // The health bar is consistent: each phase's share sits on top of the
    // phases below it.
    assert_eq!(p1.current_base_hp() + p1.max_hp, p1.total_hp());
}

#[test]
fn player_resources_saturate() {
    let mut p = Player::default();
    assert_eq!(p.life, 3);
    for _ in 0..5 {
        p.take_hit();
    }
    assert_eq!(p.life, 0);
    p.decrement_ammo(10);
    assert_eq!(p.ammo, 0);
    p.increment_ammo(2);
    assert_eq!(p.ammo, 2);
    p.decrement_ammo(1);
    assert_eq!(p.ammo, 1);
}
