use combat_core::pattern::Dir;
use combat_core::projectiles::{
    basic_projectile, bounce_down_projectile, enemy_basic_bullet, lifespan_projectile,
    player_chakra, Due, Hostility, OtherHit, Projectile,
};
use combat_core::timer::{Timer, TimerMode};

fn dir() -> Dir {
    Dir { num: 0, den: 1 }
}

#[test]
fn spawners_set_the_documented_dues() {
    let chakra = player_chakra(dir(), Hostility::Friendly);
    assert!(chakra.recallable);
    assert!(!chakra.recalled);
    assert_eq!(chakra.dues.len(), 2);
    assert_eq!(chakra.dues[0], Due::BounceDown(5));
    let bullet = enemy_basic_bullet(dir(), Hostility::Hostile);
    assert!(!bullet.recallable);
    assert_eq!(bullet.dues[0], Due::BounceDown(3));
    assert!(basic_projectile(dir(), Hostility::Friendly).dues.is_empty());
    assert_eq!(bounce_down_projectile(dir(), Hostility::Hostile).dues[0], Due::BounceDown(5));
    assert_eq!(lifespan_projectile(dir(), Hostility::Hostile).dues.len(), 1);
}

#[test]
fn bounce_counts_down_and_despawns_on_the_last_bounce() {
    // BounceDown(3), not recallable: flies through two contacts, gone on the
    // third.
    let mut p = enemy_basic_bullet(dir(), Hostility::Hostile);
    assert_eq!(p.resolve_other_contact(), OtherHit::Fly);
    assert_eq!(p.dues[0], Due::BounceDown(2));
    assert_eq!(p.resolve_other_contact(), OtherHit::Fly);
    assert_eq!(p.dues[0], Due::BounceDown(1));
    assert_eq!(p.resolve_other_contact(), OtherHit::Despawn);
}

#[test]
fn bounce_of_one_despawns_immediately() {
    let mut p = Projectile {
        dues: vec![Due::BounceDown(1)],
        ..basic_projectile(dir(), Hostility::Hostile)
    };
    assert_eq!(p.resolve_other_contact(), OtherHit::Despawn);
}

#[test]
fn recallable_weapon_halts_on_its_last_bounce() {
    let mut p = player_chakra(dir(), Hostility::Friendly);
    for expected in [4usize, 3, 2] {
        assert_eq!(p.resolve_other_contact(), OtherHit::Fly);
        assert_eq!(p.dues[0], Due::BounceDown(expected));
    }
    assert_eq!(p.resolve_other_contact(), OtherHit::Fly);
    assert_eq!(p.dues[0], Due::BounceDown(1));
    // Last surviving bounce: halted, not despawned, and it stays halted.
    assert_eq!(p.resolve_other_contact(), OtherHit::Halt);
    assert_eq!(p.dues[0], Due::BounceDown(1));
    assert_eq!(p.resolve_other_contact(), OtherHit::Halt);
}

#[test]
fn no_bounce_due_despawns_on_first_contact() {
    let mut p = basic_projectile(dir(), Hostility::Friendly);
    assert_eq!(p.resolve_other_contact(), OtherHit::Despawn);
    let mut lives = lifespan_projectile(dir(), Hostility::Hostile);
    assert_eq!(lives.resolve_other_contact(), OtherHit::Despawn);
}

#[test]
fn exhausted_bounce_count_despawns() {
    let mut p = Projectile {
        dues: vec![Due::BounceDown(0)],
        ..basic_projectile(dir(), Hostility::Hostile)
    };
    assert_eq!(p.resolve_other_contact(), OtherHit::Despawn);
}

#[test]
fn lifespan_expires_by_time_alone_and_never_early() {
    // Lifespan of 3 ticks: the sweep ticks it while it runs and expires the
    // projectile on the first sweep that finds it already finished.
    let mut p = Projectile {
        dues: vec![Due::Lifespan(Timer::new(3, TimerMode::Once))],
        ..basic_projectile(dir(), Hostility::Hostile)
    };
    assert!(!p.lifespan_step(1));
    assert!(!p.lifespan_step(1));
    assert!(!p.lifespan_step(1)); // reaches 3: finished, checked next sweep
    assert!(p.lifespan_step(1));
}

#[test]
fn bounce_dues_are_untouched_by_the_sweep() {
    let mut p = Projectile {
        dues: vec![Due::BounceDown(2), Due::Lifespan(Timer::new(100, TimerMode::Once))],
        ..basic_projectile(dir(), Hostility::Hostile)
    };
    assert!(!p.lifespan_step(50));
    assert_eq!(p.dues[0], Due::BounceDown(2));
    match p.dues[1] {
        Due::Lifespan(t) => assert_eq!(t.elapsed, 50),
        _ => panic!("lifespan due expected"),
    }
}

#[test]
fn collision_does_not_touch_lifespans() {
    let mut p = Projectile {
        dues: vec![Due::BounceDown(2), Due::Lifespan(Timer::new(100, TimerMode::Once))],
        ..basic_projectile(dir(), Hostility::Hostile)
    };
    assert_eq!(p.resolve_other_contact(), OtherHit::Fly);
    match p.dues[1] {
        Due::Lifespan(t) => assert_eq!(t.elapsed, 0),
        _ => panic!("lifespan due expected"),
    }
}
