use combat_core::enemies::{
    get_shooting_patterns, Enemy, EnemyAttack, Move, VelocityCommand, RANDOM_MAX_MOVES,
    RANDOM_MAX_SPEED, RANDOM_MAX_TIME, RANDOM_MIN_MOVES, RANDOM_MIN_SPEED, RANDOM_MIN_TIME,
};
use combat_core::pattern::{Dir, ShootingPattern, TURN};
use combat_core::timer::{Timer, TimerMode};

fn ring_attack() -> EnemyAttack {
    EnemyAttack {
        cooldown_timer: Timer::from_seconds(1, TimerMode::Repeating),
        duration: Timer::from_seconds(3, TimerMode::Once),
        shooting_pattern: vec![ShootingPattern::Ring { count: 8 }],
    }
}

/// Scenario: shooting range 300, target at distance 250, one attack with a
/// repeating one-second cooldown, a one-shot three-second duration and a
/// ring-of-eight pattern. A full eight-direction volley fires at one and two
/// seconds; at three seconds the duration completes and the cursor advances
/// without firing.
#[test]
fn ring_volley_schedule() {
    let mut e = Enemy::default().with_shooting_range(300).with_attack(ring_attack());
    let volley1 = e.shooting_step(250, 0, 0, 1000);
    let dirs1 = volley1.expect("volley at one second");
    assert_eq!(dirs1.len(), 8);
    for (i, d) in dirs1.iter().enumerate() {
        assert_eq!(*d, Dir { num: (i as i64) * TURN, den: 8 });
    }
    let volley2 = e.shooting_step(250, 0, 0, 1000);
    assert_eq!(volley2.expect("volley at two seconds").len(), 8);
    let volley3 = e.shooting_step(250, 0, 0, 1000);
    assert!(volley3.is_none(), "duration completed: no volley while the cursor advances");
    assert_eq!(e.attack_idx, 0); // one attack: wraps back onto itself
}

#[test]
fn out_of_range_target_freezes_the_timers() {
    let mut e = Enemy::default().with_shooting_range(300).with_attack(ring_attack());
    // Distance 500 > 300: nothing advances.
    assert!(e.shooting_step(400, 300, 0, 1000).is_none());
    assert_eq!(e.attacks[0].cooldown_timer.elapsed, 0);
    assert_eq!(e.attacks[0].duration.elapsed, 0);
    // Exactly on the range boundary counts as in range.
    assert!(e.shooting_step(300, 0, 0, 1000).is_some());
}

#[test]
fn attacker_without_attacks_never_fires() {
    let mut e = Enemy::default();
    assert!(e.shooting_step(10, 10, 0, 1000).is_none());
}

/// The cursor advances exactly one position (mod the list length) when a
/// duration completes, and the newly selected attack is not fired with stale
/// cooldown state on that tick.
#[test]
fn cursor_advances_one_position_on_duration_completion() {
    let quick = EnemyAttack {
        cooldown_timer: Timer::from_seconds(10, TimerMode::Repeating),
        duration: Timer::from_seconds(1, TimerMode::Once),
        shooting_pattern: vec![ShootingPattern::Straight],
    };
    let mut e = Enemy::default()
        .with_shooting_range(300)
        .with_attack(quick.clone())
        .with_attack(quick.clone())
        .with_attack(quick);
    assert_eq!(e.attack_idx, 0);
    assert!(e.shooting_step(10, 0, 0, 1000).is_none());
    assert_eq!(e.attack_idx, 1);
    // The finished attack's duration was reset for its next turn.
    assert_eq!(e.attacks[0].duration.elapsed, 0);
    assert!(e.shooting_step(10, 0, 0, 1000).is_none());
    assert_eq!(e.attack_idx, 2);
    assert!(e.shooting_step(10, 0, 0, 1000).is_none());
    assert_eq!(e.attack_idx, 0);
}

#[test]
fn intro_cinematic_holds_scheduler_and_moves() {
    let mut e = Enemy::default().with_shooting_range(300).with_attack(ring_attack());
    e.intro_playing = true;
    assert!(e.shooting_step(10, 0, 0, 1000).is_none());
    assert_eq!(e.attacks[0].duration.elapsed, 0);
    assert_eq!(e.update_moves(1000), VelocityCommand::Keep);
}

#[test]
fn empty_attack_volley_is_empty_but_timers_run() {
    let mut e = Enemy::default().with_shooting_range(300).with_attack(EnemyAttack {
        cooldown_timer: Timer::from_seconds(1, TimerMode::Repeating),
        duration: Timer::from_seconds(3, TimerMode::Once),
        shooting_pattern: vec![],
    });
    let volley = e.shooting_step(10, 0, 0, 1000);
    assert_eq!(volley.expect("cooldown completed").len(), 0);
    assert_eq!(e.attacks[0].cooldown_timer.elapsed, 0); // wrapped
}

#[test]
fn moves_are_consumed_front_to_back() {
    let seg = |ticks: u64| {
        Move::UnitVelocity(
            combat_core::enemies::Velocity { heading: 90_000, speed: 20 },
            Timer::new(ticks, TimerMode::Once),
        )
    };
    let mut e = Enemy::default();
    e.moves = vec![seg(100), seg(200)];
    // While the front segment's timer runs, its velocity applies.
    match e.update_moves(60) {
        VelocityCommand::Apply(v) => {
            assert_eq!(v.heading, 90_000);
            assert_eq!(v.speed, 20);
        },
        other => panic!("expected a velocity, got {:?}", other),
    }
    assert_eq!(e.moves.len(), 2);
    // 60 more ticks: at 120 >= 100 the timer completes, but completion is
    // observed on the following step, which discards the segment and stops.
    assert!(matches!(e.update_moves(60), VelocityCommand::Apply(_)));
    assert_eq!(e.update_moves(60), VelocityCommand::Zero);
    assert_eq!(e.moves.len(), 1);
}

#[test]
fn empty_move_queue_refills_with_a_random_batch() {
    let mut e = Enemy::default();
    assert!(e.moves.is_empty());
    assert_eq!(e.update_moves(16), VelocityCommand::Keep);
    assert!(RANDOM_MIN_MOVES <= e.moves.len() && e.moves.len() <= RANDOM_MAX_MOVES);
    for m in e.moves.iter() {
        match m {
            Move::UnitVelocity(v, t) => {
                assert!(0 <= v.heading && v.heading < TURN);
                assert!(RANDOM_MIN_SPEED <= v.speed && v.speed <= RANDOM_MAX_SPEED);
                assert!(RANDOM_MIN_TIME <= t.duration && t.duration <= RANDOM_MAX_TIME);
                assert_eq!(t.elapsed, 0);
            },
        }
    }
}

#[test]
fn random_batch_sizes_stay_in_bounds() {
    for _ in 0..50 {
        let ms = Enemy::get_random_linear_moves();
        assert!(RANDOM_MIN_MOVES <= ms.len() && ms.len() <= RANDOM_MAX_MOVES);
    }
    assert_eq!(Enemy::get_random_linear_n_moves(7).len(), 7);
}

#[test]
fn random_draws_actually_vary() {
    // Headings are drawn uniformly from a third of a million values; a
    // hundred draws repeating one single value means the source is not
    // sampling its range.
    let mut headings = std::collections::HashSet::new();
    for _ in 0..100 {
        match Enemy::get_random_move_unit_velocity() {
            Move::UnitVelocity(v, _) => {
                headings.insert(v.heading);
            },
        }
    }
    assert!(headings.len() > 1);
}

#[test]
fn new_random_attacker_starts_with_moves_and_no_attacks() {
    let e = Enemy::new_random(5);
    assert_eq!(e.life, 5);
    assert!(e.attacks.is_empty());
    assert_eq!(e.shooting_range, 100);
    assert!(!e.moves.is_empty());
}

#[test]
fn sweep_reads_the_owning_attacks_timers() {
    let mut attack = EnemyAttack {
        cooldown_timer: Timer::new(500, TimerMode::Repeating),
        duration: Timer::new(1000, TimerMode::Once),
        shooting_pattern: vec![ShootingPattern::Sweep { arc: 90_000, clockwise: true }],
    };
    let early = get_shooting_patterns(0, &attack.shooting_pattern[0].clone(), &attack);
    assert_eq!(early[0], Dir { num: 90_000, den: 2 });
    attack.duration.tick(600);
    let late = get_shooting_patterns(0, &attack.shooting_pattern[0].clone(), &attack);
    assert_eq!(late[0], Dir { num: -90_000, den: 2 });
}
