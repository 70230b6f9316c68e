//! Boss hit-point bookkeeping across the three boss phases. A boss is not
//! despawned when its life reaches zero — the caller reads the life value
//! and reacts — so the phase record only tracks how much of the total
//! health bar each phase represents.

use vstd::prelude::*;

use crate::enemies::{
    attack_is, new_attack, Enemy, RANDOM_MAX_MOVES, RANDOM_MIN_MOVES,
};
use crate::pattern::ShootingPattern;
use crate::timer::{Timer, TimerMode, MAX_DELTA};

verus! {

pub const PHASE_1_HP: u32 = 20;

pub const PHASE_2_HP: u32 = 30;

pub const PHASE_3_HP: u32 = 40;

/// Which boss phase an attacker belongs to, and that phase's share of the
/// shared health bar.
#[derive(Clone, Copy, Debug, PartialEq, Eq, Structural)]
pub struct BossPhase {
    pub current_phase: u8,
    pub max_hp: u32,
}

impl BossPhase {
    pub open spec fn wf(self) -> bool {
        &&& 1 <= self.current_phase <= 3
        &&& self.max_hp == match self.current_phase {
            1u8 => PHASE_1_HP,
            2u8 => PHASE_2_HP,
            _ => PHASE_3_HP,
        }
    }

    /// The phase record for phase 1, 2 or 3.
    pub fn for_phase(phase: u8) -> (b: BossPhase)
        requires
            1 <= phase <= 3,
        ensures
            b.current_phase == phase,
            b.max_hp == match phase {
                1u8 => PHASE_1_HP,
                2u8 => PHASE_2_HP,
                _ => PHASE_3_HP,
            },
            b.wf(),
    {
        let max_hp = match phase {
            1 => PHASE_1_HP,
            2 => PHASE_2_HP,
            _ => PHASE_3_HP,
        };
        BossPhase { current_phase: phase, max_hp }
    }

    /// The whole health bar: the three phases together.
    pub fn total_hp(&self) -> (n: u32)
        ensures
            n == PHASE_1_HP + PHASE_2_HP + PHASE_3_HP,
    {
        PHASE_1_HP + PHASE_2_HP + PHASE_3_HP
    }

    /// How much health remains below this phase: the shares of the phases
    /// that have not yet been fought.
    pub fn current_base_hp(&self) -> (n: u32)
        requires
            1 <= self.current_phase <= 3,
        ensures
            n == match self.current_phase {
                1u8 => PHASE_2_HP + PHASE_3_HP,
                2u8 => PHASE_3_HP as int,
                _ => 0int,
            },
    {
        match self.current_phase {
            1 => PHASE_2_HP + PHASE_3_HP,
            2 => PHASE_3_HP,
            _ => 0,
        }
    }
}

/// A boss ability: cycle through a fixed list of positions on a repeating
/// timer.
#[derive(Clone, Debug)]
pub struct TeleportAbility {
    pub positions: Vec<(i64, i64)>,
    pub timer: Timer,
    pub current_index: usize,
}

impl TeleportAbility {
    pub open spec fn wf(self) -> bool {
        &&& self.timer.wf()
        &&& self.timer.mode == TimerMode::Repeating
        &&& self.positions@.len() > 0 ==> self.current_index < self.positions@.len()
    }
}

/// Advance a boss's teleport timer; each time it completes, hand the caller
/// the next destination and move the cursor one position (mod the list
/// length). An empty position list teleports nowhere.
pub fn boss_teleport_system(t: &mut TeleportAbility, delta: u64) -> (dest: Option<(i64, i64)>)
    requires
        old(t).wf(),
        delta <= MAX_DELTA,
    ensures
        final(t).wf(),
        final(t).positions == old(t).positions,
        final(t).timer == old(t).timer.spec_tick(delta),
        ({
            let fired = old(t).timer.spec_tick(delta).times_finished_this_tick > 0;
            if fired && old(t).positions@.len() > 0 {
                &&& dest == Some(old(t).positions@[old(t).current_index as int])
                &&& final(t).current_index == (old(t).current_index + 1) as int % (
                old(t).positions@.len() as int)
            } else {
                &&& dest is None
                &&& final(t).current_index == old(t).current_index
            }
        }),
{
    t.timer.tick(delta);
    if t.timer.just_finished() && t.positions.len() > 0 {
        let dest = t.positions[t.current_index];
        t.current_index = (t.current_index + 1) % t.positions.len();
        Some(dest)
    } else {
        None
    }
}

/// The tutorial boss: three lives, one sweeping attack, held by its intro
/// cinematic until the caller clears the flag.
pub fn tutorial_boss() -> (e: Enemy)
    ensures
        e.life == 3,
        e.shooting_range == 300,
        e.attack_idx == 0,
        e.intro_playing,
        RANDOM_MIN_MOVES <= e.moves@.len() <= RANDOM_MAX_MOVES,
        e.attacks@.len() == 1,
        attack_is(
            e.attacks@[0],
            500,
            1000,
            seq![ShootingPattern::Sweep { arc: 90_000, clockwise: true }],
        ),
        e.wf(),
{
    let mut ps: Vec<ShootingPattern> = Vec::new();
    ps.push(ShootingPattern::Sweep { arc: 90_000, clockwise: true });
    proof {
        assert(ps@ =~= seq![ShootingPattern::Sweep { arc: 90_000, clockwise: true }]);
    }
    let mut e = Enemy::new_random(3).with_shooting_range(300).with_attack(new_attack(
        500,
        1000,
        ps,
    ));
    e.intro_playing = true;
    e
}

/// The first boss phase: a clean five-shot spread, then a spaced-out ring to
/// dodge through.
pub fn phase1_boss() -> (e: Enemy)
    ensures
        e.life == PHASE_1_HP,
        e.shooting_range == 300,
        e.attack_idx == 0,
        e.intro_playing,
        RANDOM_MIN_MOVES <= e.moves@.len() <= RANDOM_MAX_MOVES,
        e.attacks@.len() == 2,
        attack_is(
            e.attacks@[0],
            800,
            2400,
            seq![ShootingPattern::Spread { count: 5, arc: 90_000 }],
        ),
        attack_is(e.attacks@[1], 2000, 2000, seq![ShootingPattern::Ring { count: 8 }]),
        e.wf(),
{
    let mut ps0: Vec<ShootingPattern> = Vec::new();
    ps0.push(ShootingPattern::Spread { count: 5, arc: 90_000 });
    proof {
        assert(ps0@ =~= seq![ShootingPattern::Spread { count: 5, arc: 90_000 }]);
    }
    let mut ps1: Vec<ShootingPattern> = Vec::new();
    ps1.push(ShootingPattern::Ring { count: 8 });
    proof {
        assert(ps1@ =~= seq![ShootingPattern::Ring { count: 8 }]);
    }
    let mut e = Enemy::new_random(PHASE_1_HP as usize)
        .with_shooting_range(300)
        .with_attack(new_attack(800, 2400, ps0))
        .with_attack(new_attack(2000, 2000, ps1));
    e.intro_playing = true;
    e
}

/// The second boss phase: fast sweeps in both directions, a wide spread
/// mixed with random suppression fire, and a denser ring.
pub fn phase2_boss() -> (e: Enemy)
    ensures
        e.life == PHASE_2_HP,
        e.shooting_range == 400,
        e.attack_idx == 0,
        e.intro_playing,
        RANDOM_MIN_MOVES <= e.moves@.len() <= RANDOM_MAX_MOVES,
        e.attacks@.len() == 4,
        attack_is(
            e.attacks@[0],
            150,
            1500,
            seq![ShootingPattern::Sweep { arc: 120_000, clockwise: true }],
        ),
        attack_is(
            e.attacks@[1],
            1000,
            3000,
            seq![
                ShootingPattern::Spread { count: 4, arc: 75_000 },
                ShootingPattern::Random { count: 3, arc: 45_000 },
            ],
        ),
        attack_is(
            e.attacks@[2],
            150,
            1500,
            seq![ShootingPattern::Sweep { arc: 120_000, clockwise: false }],
        ),
        attack_is(e.attacks@[3], 1500, 1500, seq![ShootingPattern::Ring { count: 10 }]),
        e.wf(),
{
    let mut ps0: Vec<ShootingPattern> = Vec::new();
    ps0.push(ShootingPattern::Sweep { arc: 120_000, clockwise: true });
    proof {
        assert(ps0@ =~= seq![ShootingPattern::Sweep { arc: 120_000, clockwise: true }]);
    }
    let mut ps1: Vec<ShootingPattern> = Vec::new();
    ps1.push(ShootingPattern::Spread { count: 4, arc: 75_000 });
    ps1.push(ShootingPattern::Random { count: 3, arc: 45_000 });
    proof {
        assert(ps1@ =~= seq![
            ShootingPattern::Spread { count: 4, arc: 75_000 },
            ShootingPattern::Random { count: 3, arc: 45_000 },
        ]);
    }
    let mut ps2: Vec<ShootingPattern> = Vec::new();
    ps2.push(ShootingPattern::Sweep { arc: 120_000, clockwise: false });
    proof {
        assert(ps2@ =~= seq![ShootingPattern::Sweep { arc: 120_000, clockwise: false }]);
    }
    let mut ps3: Vec<ShootingPattern> = Vec::new();
    ps3.push(ShootingPattern::Ring { count: 10 });
    proof {
        assert(ps3@ =~= seq![ShootingPattern::Ring { count: 10 }]);
    }
    let mut e = Enemy::new_random(PHASE_2_HP as usize)
        .with_shooting_range(400)
        .with_attack(new_attack(150, 1500, ps0))
        .with_attack(new_attack(1000, 3000, ps1))
        .with_attack(new_attack(150, 1500, ps2))
        .with_attack(new_attack(1500, 1500, ps3));
    e.intro_playing = true;
    e
}

/// The third boss phase: a pincer punishing standing still, dense ring
/// chaos, and a sweeping wall with a tight spread.
pub fn phase3_boss() -> (e: Enemy)
    ensures
        e.life == PHASE_3_HP,
        e.shooting_range == 350,
        e.attack_idx == 0,
        e.intro_playing,
        RANDOM_MIN_MOVES <= e.moves@.len() <= RANDOM_MAX_MOVES,
        e.attacks@.len() == 3,
        attack_is(
            e.attacks@[0],
            600,
            2400,
            seq![ShootingPattern::Straight, ShootingPattern::Flank { angle: 35_000 }],
        ),
        attack_is(
            e.attacks@[1],
            1500,
            3000,
            seq![
                ShootingPattern::Ring { count: 12 },
                ShootingPattern::Random { count: 5, arc: 90_000 },
            ],
        ),
        attack_is(
            e.attacks@[2],
            250,
            2000,
            seq![
                ShootingPattern::Sweep { arc: 90_000, clockwise: false },
                ShootingPattern::Spread { count: 2, arc: 15_000 },
            ],
        ),
        e.wf(),
{
    let mut ps0: Vec<ShootingPattern> = Vec::new();
    ps0.push(ShootingPattern::Straight);
    ps0.push(ShootingPattern::Flank { angle: 35_000 });
    proof {
        assert(ps0@ =~= seq![ShootingPattern::Straight, ShootingPattern::Flank { angle: 35_000 }]);
    }
    let mut ps1: Vec<ShootingPattern> = Vec::new();
    ps1.push(ShootingPattern::Ring { count: 12 });
    ps1.push(ShootingPattern::Random { count: 5, arc: 90_000 });
    proof {
        assert(ps1@ =~= seq![
            ShootingPattern::Ring { count: 12 },
            ShootingPattern::Random { count: 5, arc: 90_000 },
        ]);
    }
    let mut ps2: Vec<ShootingPattern> = Vec::new();
    ps2.push(ShootingPattern::Sweep { arc: 90_000, clockwise: false });
    ps2.push(ShootingPattern::Spread { count: 2, arc: 15_000 });
    proof {
        assert(ps2@ =~= seq![
            ShootingPattern::Sweep { arc: 90_000, clockwise: false },
            ShootingPattern::Spread { count: 2, arc: 15_000 },
        ]);
    }
    let mut e = Enemy::new_random(PHASE_3_HP as usize)
        .with_shooting_range(350)
        .with_attack(new_attack(600, 2400, ps0))
        .with_attack(new_attack(1500, 3000, ps1))
        .with_attack(new_attack(250, 2000, ps2));
    e.intro_playing = true;
    e
}

} // verus!
