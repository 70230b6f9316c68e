use combat_core::bosses::{
    boss_teleport_system, phase1_boss, phase2_boss, phase3_boss, tutorial_boss, TeleportAbility,
    PHASE_1_HP, PHASE_2_HP, PHASE_3_HP,
};
use combat_core::timer::Timer;
use combat_core::enemies::{basic_enemy, eye_enemy, narak_enemy, snake_enemy};
use combat_core::pattern::ShootingPattern;
use combat_core::timer::TimerMode;

#[test]
fn basic_enemy_configuration() {
    let e = basic_enemy();
    assert_eq!(e.life, 3);
    assert_eq!(e.shooting_range, 250);
    assert_eq!(e.attacks.len(), 1);
    let a = &e.attacks[0];
    assert_eq!(a.cooldown_timer.duration, 1500);
    assert_eq!(a.cooldown_timer.mode, TimerMode::Repeating);
    assert_eq!(a.duration.duration, 4500);
    assert_eq!(a.duration.mode, TimerMode::Once);
    assert!(matches!(a.shooting_pattern[0], ShootingPattern::Straight));
}

#[test]
fn eye_enemy_alternates_straight_and_flank() {
    let e = eye_enemy();
    assert_eq!(e.life, 5);
    assert_eq!(e.attacks.len(), 2);
    assert!(matches!(e.attacks[0].shooting_pattern[0], ShootingPattern::Straight));
    assert!(matches!(
        e.attacks[1].shooting_pattern[0],
        ShootingPattern::Flank { angle: 22_500 }
    ));
}

#[test]
fn snake_enemy_has_no_attacks() {
    let e = snake_enemy();
    assert_eq!(e.life, 5);
    assert!(e.attacks.is_empty());
}

#[test]
fn narak_enemy_mixes_patterns() {
    let e = narak_enemy();
    assert_eq!(e.attacks.len(), 2);
    assert_eq!(e.attacks[0].shooting_pattern.len(), 2);
    assert!(matches!(e.attacks[1].shooting_pattern[0], ShootingPattern::Ring { count: 4 }));
}

#[test]
fn bosses_start_held_by_their_intro() {
    for boss in [tutorial_boss(), phase1_boss(), phase2_boss(), phase3_boss()] {
        assert!(boss.intro_playing);
        assert!(!boss.moves.is_empty());
    }
    assert_eq!(tutorial_boss().life, 3);
    assert_eq!(phase1_boss().life, PHASE_1_HP as usize);
    assert_eq!(phase2_boss().life, PHASE_2_HP as usize);
    assert_eq!(phase3_boss().life, PHASE_3_HP as usize);
    // The sweep boss walks its arc through the attack's own timers.
    let t = tutorial_boss();
    assert!(matches!(
        t.attacks[0].shooting_pattern[0],
        ShootingPattern::Sweep { arc: 90_000, clockwise: true }
    ));
    assert_eq!(phase2_boss().attacks.len(), 4);
    assert_eq!(phase3_boss().attacks.len(), 3);
}

#[test]
fn teleport_cycles_through_its_positions() {
    let mut t = TeleportAbility {
        positions: vec![(0, 110), (245, 58), (-29, 0)],
        timer: Timer::new(20, TimerMode::Repeating),
        current_index: 0,
    };
    assert_eq!(boss_teleport_system(&mut t, 10), None);
    assert_eq!(boss_teleport_system(&mut t, 10), Some((0, 110)));
    assert_eq!(t.current_index, 1);
    assert_eq!(boss_teleport_system(&mut t, 20), Some((245, 58)));
    assert_eq!(boss_teleport_system(&mut t, 20), Some((-29, 0)));
    assert_eq!(boss_teleport_system(&mut t, 20), Some((0, 110)));
    assert_eq!(t.current_index, 1);
}
