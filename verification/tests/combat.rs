use combat_core::collision::{filter_pairs, ColliderInfo, Contact, Cue, Role};
use combat_core::enemies::Enemy;
use combat_core::pattern::Dir;
use combat_core::player::Player;
use combat_core::projectiles::{
    basic_projectile, enemy_basic_bullet, player_chakra, Due, Hostility, Projectile,
};
use combat_core::timer::{Timer, TimerMode};
use combat_core::world::{CombatState, ProjSlot, Resolution, ThrowOutcome};

fn dir() -> Dir {
    Dir { num: 0, den: 1 }
}

fn world() -> CombatState {
    CombatState::new(Player::default())
}

fn live(p: Projectile) -> ProjSlot {
    ProjSlot { proj: p, alive: true }
}

fn live_friendly_count(w: &CombatState) -> usize {
    w.projectiles
        .iter()
        .filter(|s| s.alive && matches!(s.proj.hostility, Hostility::Friendly))
        .count()
}

#[test]
fn hostile_projectile_damages_player_and_despawns() {
    let mut w = world();
    w.projectiles.push(live(enemy_basic_bullet(dir(), Hostility::Hostile)));
    let (cue, halt) = w.resolve_contact(Role::Player, Role::Projectile(0));
    assert_eq!(cue, Some(Cue::PlayerHit));
    assert_eq!(halt, None);
    assert_eq!(w.player.life, 2);
    assert!(!w.projectiles[0].alive);
}

#[test]
fn friendly_projectile_reaching_player_despawns_without_damage() {
    let mut w = world();
    w.projectiles.push(live(player_chakra(dir(), Hostility::Friendly)));
    let (cue, _) = w.resolve_contact(Role::Projectile(0), Role::Player);
    assert_eq!(cue, None);
    assert_eq!(w.player.life, 3);
    assert!(!w.projectiles[0].alive);
}

#[test]
fn friendly_projectile_damages_attacker_and_despawns() {
    let mut w = world();
    w.enemies.push(Enemy::new_random(3));
    w.projectiles.push(live(player_chakra(dir(), Hostility::Friendly)));
    let (cue, _) = w.resolve_contact(Role::Enemy(0), Role::Projectile(0));
    assert_eq!(cue, Some(Cue::EnemyHit));
    assert_eq!(w.enemies[0].life, 2);
    assert!(!w.projectiles[0].alive);
}

#[test]
fn hostile_projectile_drains_off_attacker_without_damage() {
    // Friendly fire: no life change; the projectile spends a bounce as if it
    // had met an obstacle.
    let mut w = world();
    w.enemies.push(Enemy::new_random(3));
    w.projectiles.push(live(enemy_basic_bullet(dir(), Hostility::Hostile)));
    let (cue, halt) = w.resolve_contact(Role::Enemy(0), Role::Projectile(0));
    assert_eq!(cue, None);
    assert_eq!(halt, None);
    assert_eq!(w.enemies[0].life, 3);
    assert!(w.projectiles[0].alive);
    assert_eq!(w.projectiles[0].proj.dues[0], Due::BounceDown(2));
}

/// Scenario: two hostile projectiles collide mid-air — a ricochet cue and
/// nothing else; both continue flying.
#[test]
fn projectile_pair_only_ricochets() {
    let mut w = world();
    w.projectiles.push(live(enemy_basic_bullet(dir(), Hostility::Hostile)));
    w.projectiles.push(live(enemy_basic_bullet(dir(), Hostility::Hostile)));
    let (cue, halt) = w.resolve_contact(Role::Projectile(0), Role::Projectile(1));
    assert_eq!(cue, Some(Cue::Ricochet));
    assert_eq!(halt, None);
    assert!(w.projectiles[0].alive && w.projectiles[1].alive);
    assert_eq!(w.projectiles[0].proj.dues[0], Due::BounceDown(3));
    assert_eq!(w.projectiles[1].proj.dues[0], Due::BounceDown(3));
}

/// Scenario: a projectile with a bounce count of three hits three successive
/// obstacles and despawns on the third; a fourth contact is a no-op because
/// the projectile is already gone.
#[test]
fn three_bounces_then_gone_then_noop() {
    let mut w = world();
    w.projectiles.push(live(Projectile {
        dues: vec![Due::BounceDown(3)],
        ..basic_projectile(dir(), Hostility::Hostile)
    }));
    let (_, _) = w.resolve_contact(Role::Projectile(0), Role::Other);
    assert!(w.projectiles[0].alive);
    assert_eq!(w.projectiles[0].proj.dues[0], Due::BounceDown(2));
    let (_, _) = w.resolve_contact(Role::Other, Role::Projectile(0));
    assert!(w.projectiles[0].alive);
    assert_eq!(w.projectiles[0].proj.dues[0], Due::BounceDown(1));
    let (_, _) = w.resolve_contact(Role::Projectile(0), Role::Other);
    assert!(!w.projectiles[0].alive, "despawned after the third obstacle");
    // Fourth contact: the pending-despawn mark keeps the event from
    // matching again.
    let before = w.projectiles[0].proj.dues.clone();
    let (cue, halt) = w.resolve_contact(Role::Projectile(0), Role::Other);
    assert_eq!((cue, halt), (None, None));
    assert_eq!(w.projectiles[0].proj.dues, before);
}

#[test]
fn recallable_weapon_is_halted_on_its_last_bounce() {
    let mut w = world();
    let mut chakra = player_chakra(dir(), Hostility::Friendly);
    chakra.dues[0] = Due::BounceDown(1);
    w.projectiles.push(live(chakra));
    let (cue, halt) = w.resolve_contact(Role::Projectile(0), Role::Other);
    assert_eq!(cue, None);
    assert_eq!(halt, Some(0));
    assert!(w.projectiles[0].alive);
}

#[test]
fn player_enemy_contact_is_not_resolved_here() {
    let mut w = world();
    w.enemies.push(Enemy::new_random(3));
    let (cue, halt) = w.resolve_contact(Role::Player, Role::Enemy(0));
    assert_eq!((cue, halt), (None, None));
    assert_eq!(w.player.life, 3);
    assert_eq!(w.enemies[0].life, 3);
}

#[test]
fn dangling_handles_are_skipped_or_treated_as_other() {
    let mut w = world();
    w.projectiles.push(live(enemy_basic_bullet(dir(), Hostility::Hostile)));
    // A dangling attacker handle: the projectile resolves as against an
    // obstacle.
    let (cue, _) = w.resolve_contact(Role::Enemy(7), Role::Projectile(0));
    assert_eq!(cue, None);
    assert_eq!(w.projectiles[0].proj.dues[0], Due::BounceDown(2));
    // A dangling projectile handle: nothing matches.
    let (cue, halt) = w.resolve_contact(Role::Player, Role::Projectile(9));
    assert_eq!((cue, halt), (None, None));
    assert_eq!(w.player.life, 3);
}

/// Player life saturates at zero under any number of hits.
#[test]
fn player_life_never_goes_negative() {
    let mut w = world();
    for _ in 0..5 {
        w.projectiles.push(live(enemy_basic_bullet(dir(), Hostility::Hostile)));
    }
    for i in 0..5 {
        w.resolve_contact(Role::Player, Role::Projectile(i));
    }
    assert_eq!(w.player.life, 0);
}

/// Attacker life saturates at zero as well.
#[test]
fn attacker_life_never_goes_negative() {
    let mut w = world();
    w.enemies.push(Enemy::new_random(2));
    for _ in 0..4 {
        w.projectiles.push(live(player_chakra(dir(), Hostility::Friendly)));
    }
    for i in 0..4 {
        w.resolve_contact(Role::Enemy(0), Role::Projectile(i));
    }
    assert_eq!(w.enemies[0].life, 0);
}

/// Ammo conservation: ammo plus friendly projectiles in flight is constant
/// across throws, collisions and the end-of-tick restoration.
#[test]
fn ammo_is_conserved_through_throw_hit_and_restore() {
    let mut w = world();
    w.enemies.push(Enemy::new_random(3));
    let total = w.player.ammo + live_friendly_count(&w);
    assert_eq!(total, 3);
    assert_eq!(w.apply_player_throw(dir()), ThrowOutcome::Thrown);
    assert_eq!(w.player.ammo, 2);
    assert_eq!(w.player.ammo + live_friendly_count(&w), total);
    // The chakra hits the attacker and despawns; the batch removal at the
    // end of the tick restores the ammo.
    let contacts = vec![Contact { first: Role::Enemy(0), second: Role::Projectile(0) }];
    let (rs, _) = w.fixed_update(&contacts, 16);
    assert_eq!(rs.len(), 1);
    assert_eq!(rs[0], Resolution { cue: Some(Cue::EnemyHit), halt: None });
    assert_eq!(w.player.ammo, 3);
    assert_eq!(w.player.ammo + live_friendly_count(&w), total);
    assert!(w.projectiles.is_empty());
}

#[test]
fn throw_is_gated_by_the_cooldown() {
    let mut w = world();
    assert_eq!(w.apply_player_throw(dir()), ThrowOutcome::Thrown);
    // Gate re-armed: a second throw does nothing at all.
    assert_eq!(w.apply_player_throw(dir()), ThrowOutcome::NotReady);
    assert_eq!(w.player.ammo, 2);
    assert_eq!(w.projectiles.len(), 1);
    // Once the cooldown has run out the next throw is accepted.
    w.update_cools(w.player.cool);
    assert_eq!(w.apply_player_throw(dir()), ThrowOutcome::Thrown);
    assert_eq!(w.player.ammo, 1);
}

#[test]
fn throw_without_ammo_recalls_friendly_projectiles() {
    let mut w = world();
    w.projectiles.push(live(player_chakra(dir(), Hostility::Friendly)));
    w.projectiles.push(live(enemy_basic_bullet(dir(), Hostility::Hostile)));
    w.player.ammo = 0;
    assert_eq!(w.apply_player_throw(dir()), ThrowOutcome::Recalled);
    assert!(w.projectiles[0].proj.recalled);
    assert!(!w.projectiles[1].proj.recalled, "hostile projectiles are not recalled");
    assert_eq!(w.player.ammo, 0);
}

/// Lifespan projectiles despawn at their time, never before, regardless of
/// collision activity.
#[test]
fn lifespan_expiry_is_time_based() {
    let mut w = world();
    w.projectiles.push(live(Projectile {
        dues: vec![Due::Lifespan(Timer::new(50, TimerMode::Once))],
        ..basic_projectile(dir(), Hostility::Hostile)
    }));
    let none: Vec<Contact> = vec![];
    let (_, _) = w.fixed_update(&none, 30);
    assert_eq!(w.projectiles.len(), 1, "still flying before its time");
    let (_, _) = w.fixed_update(&none, 30); // 60 >= 50: finished
    assert_eq!(w.projectiles.len(), 1, "finishes on this sweep, expires on the next");
    let (_, _) = w.fixed_update(&none, 1);
    assert!(w.projectiles.is_empty(), "gone once its countdown had run out");
}

#[test]
fn passthrough_filter_rules() {
    let plain = ColliderInfo {
        is_player: false,
        is_projectile: false,
        recalled: false,
        passthrough: false,
    };
    let player = ColliderInfo { is_player: true, ..plain };
    let projectile = ColliderInfo { is_projectile: true, ..plain };
    let recalled_proj = ColliderInfo { is_projectile: true, recalled: true, ..plain };
    let immune_wall = ColliderInfo { passthrough: true, ..plain };
    // A recalled projectile interacts only with the player.
    assert!(filter_pairs(&recalled_proj, &player));
    assert!(filter_pairs(&player, &recalled_proj));
    assert!(!filter_pairs(&recalled_proj, &plain));
    assert!(!filter_pairs(&recalled_proj, &projectile));
    assert!(!filter_pairs(&immune_wall, &recalled_proj));
    // A projectile flies through passthrough-immune obstacles.
    assert!(!filter_pairs(&projectile, &immune_wall));
    assert!(!filter_pairs(&immune_wall, &projectile));
    // Everything else reaches the physics narrow phase.
    assert!(filter_pairs(&projectile, &plain));
    assert!(filter_pairs(&projectile, &projectile));
    assert!(filter_pairs(&player, &plain));
    assert!(filter_pairs(&player, &projectile));
    assert!(filter_pairs(&plain, &plain));
}

#[test]
fn enemy_shooting_spawns_hostile_bullets_into_the_world() {
    let mut w = world();
    let attack = combat_core::enemies::EnemyAttack {
        cooldown_timer: Timer::from_seconds(1, TimerMode::Repeating),
        duration: Timer::from_seconds(3, TimerMode::Once),
        shooting_pattern: vec![combat_core::pattern::ShootingPattern::Ring { count: 8 }],
    };
    w.enemies.push(Enemy::default().with_shooting_range(300).with_attack(attack));
    w.enemy_shooting_system(0, 250, 0, 0, 1000);
    assert_eq!(w.projectiles.len(), 8);
    for s in w.projectiles.iter() {
        assert!(s.alive);
        assert!(matches!(s.proj.hostility, Hostility::Hostile));
        assert_eq!(s.proj.dues[0], Due::BounceDown(3));
    }
    // Hostile spawns leave the ammo ledger untouched.
    assert_eq!(w.player.ammo, 3);
}
