//! Attackers (enemies and bosses): their movement-intent queue and the
//! per-tick attack scheduler that cycles through timed attacks and asks the
//! pattern generator for volleys.
//!
//! Positions and ranges are integer world units; the caller supplies the
//! target offset and the aim angle it computed from that offset.

use vstd::prelude::*;

use crate::pattern::{pattern_directions, spec_emit, Dir, ShootingPattern, TURN};
use crate::rng::random_in_range;
use crate::timer::{Timer, TimerMode, MAX_DELTA, MAX_DURATION};

verus! {

/// Largest world coordinate (and shooting range) the scheduler accepts, so
/// that squared distances stay inside `i64`.
pub const MAX_COORD: i64 = 1_000_000;

/// A movement intent: a heading (angle units) and speed (world units per
/// second), applied until the timer completes.
#[derive(Clone, Copy, Debug, PartialEq, Eq, Structural)]
pub struct Velocity {
    pub heading: i64,
    pub speed: i64,
}

/// One timed segment of the movement-intent queue.
#[derive(Clone, Copy, Debug, PartialEq, Eq, Structural)]
pub enum Move {
    UnitVelocity(Velocity, Timer),
}

pub open spec fn wf_move(m: Move) -> bool {
    match m {
        Move::UnitVelocity(_, t) => t.wf() && t.mode == TimerMode::Once,
    }
}

/// What the movement queue tells the physics substrate to do this tick.
#[derive(Clone, Copy, Debug, PartialEq, Eq, Structural)]
pub enum VelocityCommand {
    /// Apply this heading and speed.
    Apply(Velocity),
    /// The front segment just ended: stop.
    Zero,
    /// Nothing to apply this tick (queue was refilled, or the attacker is
    /// held by its intro cinematic).
    Keep,
}

/// A timed, cyclable attack: a repeating cooldown firing one volley each
/// time it completes, a one-shot duration bounding how long the attack stays
/// current, and the patterns of one volley.
#[derive(Clone, Debug)]
pub struct EnemyAttack {
    pub cooldown_timer: Timer,
    pub duration: Timer,
    pub shooting_pattern: Vec<ShootingPattern>,
}

impl EnemyAttack {
    pub open spec fn wf(self) -> bool {
        &&& self.cooldown_timer.wf()
        &&& self.cooldown_timer.mode == TimerMode::Repeating
        &&& self.duration.wf()
        &&& self.duration.mode == TimerMode::Once
        &&& forall|i: int|
            0 <= i < self.shooting_pattern@.len() ==> (#[trigger] self.shooting_pattern@[i]).wf()
    }
}

/// An enemy or boss: life, a movement-intent queue, a cyclic list of
/// attacks with a shared cursor, and an activation range.
#[derive(Clone, Debug)]
pub struct Enemy {
    pub life: usize,
    pub moves: Vec<Move>,
    pub attacks: Vec<EnemyAttack>,
    pub shooting_range: i64,
    pub attack_idx: usize,
    /// While a boss intro cinematic plays, neither the movement queue nor
    /// the attack scheduler advance.
    pub intro_playing: bool,
}

impl Enemy {
    pub open spec fn wf(self) -> bool {
        &&& 0 <= self.shooting_range <= MAX_COORD
        &&& forall|i: int| 0 <= i < self.attacks@.len() ==> (#[trigger] self.attacks@[i]).wf()
        &&& forall|i: int| 0 <= i < self.moves@.len() ==> wf_move(#[trigger] self.moves@[i])
    }
}

impl Default for Enemy {
    fn default() -> (e: Enemy)
        ensures
            e.life == 1,
            e.moves@ == Seq::<Move>::empty(),
            e.attacks@ == Seq::<EnemyAttack>::empty(),
            e.shooting_range == 100,
            e.attack_idx == 0,
            !e.intro_playing,
            e.wf(),
    {
        let e = Enemy {
            life: 1,
            moves: Vec::new(),
            attacks: Vec::new(),
            shooting_range: 100,
            attack_idx: 0,
            intro_playing: false,
        };
        proof {
            assert(e.moves@ =~= Seq::<Move>::empty());
            assert(e.attacks@ =~= Seq::<EnemyAttack>::empty());
        }
        e
    }
}

pub const RANDOM_MAX_SPEED: i64 = 65;

pub const RANDOM_MIN_SPEED: i64 = 15;

pub const RANDOM_MAX_TIME: u64 = 2000;

pub const RANDOM_MIN_TIME: u64 = 500;

pub const RANDOM_MAX_MOVES: usize = 10;

pub const RANDOM_MIN_MOVES: usize = 2;

/// What every randomly drawn movement segment satisfies.
pub open spec fn wf_random_move(m: Move) -> bool {
    match m {
        Move::UnitVelocity(v, t) => {
            &&& 0 <= v.heading < TURN
            &&& RANDOM_MIN_SPEED <= v.speed <= RANDOM_MAX_SPEED
            &&& t.wf()
            &&& t.mode == TimerMode::Once
            &&& t.elapsed == 0
            &&& RANDOM_MIN_TIME <= t.duration <= RANDOM_MAX_TIME
        },
    }
}

impl Enemy {
    /// A fresh attacker with a randomly filled movement queue.
    pub fn new_random(life: usize) -> (e: Enemy)
        ensures
            e.life == life,
            RANDOM_MIN_MOVES <= e.moves@.len() <= RANDOM_MAX_MOVES,
            forall|i: int| 0 <= i < e.moves@.len() ==> wf_random_move(#[trigger] e.moves@[i]),
            e.attacks@ == Seq::<EnemyAttack>::empty(),
            e.shooting_range == 100,
            e.attack_idx == 0,
            !e.intro_playing,
            e.wf(),
    {
        let e = Enemy {
            life,
            moves: Enemy::get_random_linear_moves(),
            attacks: Vec::new(),
            shooting_range: 100,
            attack_idx: 0,
            intro_playing: false,
        };
        proof {
            assert(e.attacks@ =~= Seq::<EnemyAttack>::empty());
        }
        e
    }

    /// Refill: append a freshly generated random batch to the queue.
    pub fn random_linear_moves(&mut self)
        ensures
            ({
                let added = final(self).moves@.skip(old(self).moves@.len() as int);
                &&& final(self).moves@ == old(self).moves@ + added
                &&& RANDOM_MIN_MOVES <= added.len() <= RANDOM_MAX_MOVES
                &&& forall|i: int| 0 <= i < added.len() ==> wf_random_move(#[trigger] added[i])
            }),
            final(self).life == old(self).life,
            final(self).attacks == old(self).attacks,
            final(self).shooting_range == old(self).shooting_range,
            final(self).attack_idx == old(self).attack_idx,
            final(self).intro_playing == old(self).intro_playing,
            old(self).wf() ==> final(self).wf(),
    {
        let ghost n0 = self.moves@.len();
        let mut batch = Enemy::get_random_linear_moves();
        let ghost b = batch@;
        self.moves.append(&mut batch);
        proof {
            assert(self.moves@.skip(n0 as int) =~= b);
        }
    }

    /// A random batch of two to ten segments.
    pub fn get_random_linear_moves() -> (ms: Vec<Move>)
        ensures
            RANDOM_MIN_MOVES <= ms@.len() <= RANDOM_MAX_MOVES,
            forall|i: int| 0 <= i < ms@.len() ==> wf_random_move(#[trigger] ms@[i]),
    {
        let n = random_in_range(RANDOM_MIN_MOVES as i64, RANDOM_MAX_MOVES as i64);
        Enemy::get_random_linear_n_moves(n as usize)
    }

    /// `n` random segments.
    pub fn get_random_linear_n_moves(n: usize) -> (ms: Vec<Move>)
        ensures
            ms@.len() == n,
            forall|i: int| 0 <= i < ms@.len() ==> wf_random_move(#[trigger] ms@[i]),
    {
        let mut ms: Vec<Move> = Vec::new();
        let mut i: usize = 0;
        while i < n
            invariant
                i <= n,
                ms@.len() == i,
                forall|j: int| 0 <= j < i ==> wf_random_move(#[trigger] ms@[j]),
            decreases n - i,
        {
            ms.push(Enemy::get_random_move_unit_velocity());
            i = i + 1;
        }
        ms
    }

    /// One random segment: uniform heading, uniform speed, uniform duration.
    pub fn get_random_move_unit_velocity() -> (m: Move)
        ensures
            wf_random_move(m),
    {
        let mag = random_in_range(RANDOM_MIN_SPEED, RANDOM_MAX_SPEED);
        let ang = random_in_range(0, TURN - 1);
        let dur = random_in_range(RANDOM_MIN_TIME as i64, RANDOM_MAX_TIME as i64);
        Move::UnitVelocity(
            Velocity { heading: ang, speed: mag },
            Timer::new(dur as u64, TimerMode::Once),
        )
    }

    pub fn with_attack(self, attack: EnemyAttack) -> (e: Enemy)
        ensures
            e.attacks@ == self.attacks@.push(attack),
            e.life == self.life,
            e.moves == self.moves,
            e.shooting_range == self.shooting_range,
            e.attack_idx == self.attack_idx,
            e.intro_playing == self.intro_playing,
            self.wf() && attack.wf() ==> e.wf(),
    {
        let mut e = self;
        e.attacks.push(attack);
        e
    }

    pub fn with_shooting_range(self, range: i64) -> (e: Enemy)
        requires
            0 <= range <= MAX_COORD,
        ensures
            e == (Enemy { shooting_range: range, ..self }),
            self.wf() ==> e.wf(),
    {
        let mut e = self;
        e.shooting_range = range;
        e
    }

    /// Consume the movement-intent queue, front to back: while the front
    /// segment's timer runs, apply its velocity; when it completes, discard
    /// it and stop; when the queue is empty, refill it with a random batch.
    /// An attacker held by its intro cinematic does nothing.
    pub fn update_moves(&mut self, delta: u64) -> (cmd: VelocityCommand)
        requires
            old(self).wf(),
            delta <= MAX_DELTA,
        ensures
            final(self).life == old(self).life,
            final(self).attacks == old(self).attacks,
            final(self).shooting_range == old(self).shooting_range,
            final(self).attack_idx == old(self).attack_idx,
            final(self).intro_playing == old(self).intro_playing,
            final(self).wf(),
            old(self).intro_playing ==> cmd == VelocityCommand::Keep && *final(self) == *old(self),
            !old(self).intro_playing && old(self).moves@.len() == 0 ==> {
                &&& cmd == VelocityCommand::Keep
                &&& RANDOM_MIN_MOVES <= final(self).moves@.len() <= RANDOM_MAX_MOVES
                &&& forall|i: int|
                    0 <= i < final(self).moves@.len() ==> wf_random_move(
                        #[trigger] final(self).moves@[i],
                    )
            },
            !old(self).intro_playing && old(self).moves@.len() > 0 ==> match old(self).moves@[0] {
                Move::UnitVelocity(v, t) => if t.finished {
                    cmd == VelocityCommand::Zero && final(self).moves@ == old(self).moves@.skip(1)
                } else {
                    cmd == VelocityCommand::Apply(v) && final(self).moves@ == old(
                        self,
                    ).moves@.update(0, Move::UnitVelocity(v, t.spec_tick(delta)))
                },
            },
    {
        if self.intro_playing {
            return VelocityCommand::Keep;
        }
        if self.moves.len() == 0 {
            self.random_linear_moves();
            return VelocityCommand::Keep;
        }
        let m = self.moves.remove(0);
        match m {
            Move::UnitVelocity(v, t) => {
                if t.is_finished() {
                    VelocityCommand::Zero
                } else {
                    let mut t2 = t;
                    t2.tick(delta);
                    self.moves.insert(0, Move::UnitVelocity(v, t2));
                    proof {
                        assert(self.moves@ =~= old(self).moves@.update(
                            0,
                            Move::UnitVelocity(v, t.spec_tick(delta)),
                        ));
                    }
                    VelocityCommand::Apply(v)
                }
            },
        }
    }
}

/// Whether an attack has exactly this configuration: fresh timers with the
/// given cooldown and duration, and exactly these patterns.
pub open spec fn attack_is(
    a: EnemyAttack,
    cooldown_ticks: u64,
    duration_ticks: u64,
    ps: Seq<ShootingPattern>,
) -> bool {
    &&& a.cooldown_timer == Timer::spec_new(cooldown_ticks, TimerMode::Repeating)
    &&& a.duration == Timer::spec_new(duration_ticks, TimerMode::Once)
    &&& a.shooting_pattern@ == ps
}

/// A fresh attack: a repeating cooldown, a one-shot duration (in ticks) and
/// the patterns of one volley.
pub fn new_attack(
    cooldown_ticks: u64,
    duration_ticks: u64,
    shooting_pattern: Vec<ShootingPattern>,
) -> (a: EnemyAttack)
    requires
        1 <= cooldown_ticks <= MAX_DURATION,
        1 <= duration_ticks <= MAX_DURATION,
    ensures
        attack_is(a, cooldown_ticks, duration_ticks, shooting_pattern@),
        (forall|i: int| 0 <= i < shooting_pattern@.len() ==> (#[trigger] shooting_pattern@[i]).wf())
            ==> a.wf(),
{
    EnemyAttack {
        cooldown_timer: Timer::new(cooldown_ticks, TimerMode::Repeating),
        duration: Timer::new(duration_ticks, TimerMode::Once),
        shooting_pattern,
    }
}

/// The first-level enemy: three lives, a short reach, one straight shot
/// every one and a half seconds for a four-and-a-half-second window.
pub fn basic_enemy() -> (e: Enemy)
    ensures
        e.life == 3,
        e.shooting_range == 250,
        e.attack_idx == 0,
        !e.intro_playing,
        RANDOM_MIN_MOVES <= e.moves@.len() <= RANDOM_MAX_MOVES,
        e.attacks@.len() == 1,
        attack_is(e.attacks@[0], 1500, 4500, seq![ShootingPattern::Straight]),
        e.wf(),
{
    let mut ps: Vec<ShootingPattern> = Vec::new();
    ps.push(ShootingPattern::Straight);
    proof {
        assert(ps@ =~= seq![ShootingPattern::Straight]);
    }
    let a = new_attack(1500, 4500, ps);
    Enemy::new_random(3).with_shooting_range(250).with_attack(a)
}

/// The second-level enemy: five lives, alternating a fast straight shot and
/// an even faster flanking pair.
pub fn eye_enemy() -> (e: Enemy)
    ensures
        e.life == 5,
        e.shooting_range == 300,
        e.attack_idx == 0,
        !e.intro_playing,
        RANDOM_MIN_MOVES <= e.moves@.len() <= RANDOM_MAX_MOVES,
        e.attacks@.len() == 2,
        attack_is(e.attacks@[0], 500, 2000, seq![ShootingPattern::Straight]),
        attack_is(e.attacks@[1], 200, 2000, seq![ShootingPattern::Flank { angle: 22_500 }]),
        e.wf(),
{
    let mut ps0: Vec<ShootingPattern> = Vec::new();
    ps0.push(ShootingPattern::Straight);
    proof {
        assert(ps0@ =~= seq![ShootingPattern::Straight]);
    }
    let mut ps1: Vec<ShootingPattern> = Vec::new();
    ps1.push(ShootingPattern::Flank { angle: 22_500 });
    proof {
        assert(ps1@ =~= seq![ShootingPattern::Flank { angle: 22_500 }]);
    }
    Enemy::new_random(5)
        .with_shooting_range(300)
        .with_attack(new_attack(500, 2000, ps0))
        .with_attack(new_attack(200, 2000, ps1))
}

/// The third-level enemy: five lives and no attacks of its own — it only
/// chases.
pub fn snake_enemy() -> (e: Enemy)
    ensures
        e.life == 5,
        e.attacks@.len() == 0,
        e.attack_idx == 0,
        !e.intro_playing,
        RANDOM_MIN_MOVES <= e.moves@.len() <= RANDOM_MAX_MOVES,
        e.wf(),
{
    Enemy::new_random(5)
}

/// The fourth-level enemy: five lives, long reach, alternating a pincer
/// (flank plus straight) and a four-point ring with a straight chaser.
pub fn narak_enemy() -> (e: Enemy)
    ensures
        e.life == 5,
        e.shooting_range == 400,
        e.attack_idx == 0,
        !e.intro_playing,
        RANDOM_MIN_MOVES <= e.moves@.len() <= RANDOM_MAX_MOVES,
        e.attacks@.len() == 2,
        attack_is(
            e.attacks@[0],
            1000,
            3000,
            seq![ShootingPattern::Flank { angle: 45_000 }, ShootingPattern::Straight],
        ),
        attack_is(
            e.attacks@[1],
            1000,
            3000,
            seq![ShootingPattern::Ring { count: 4 }, ShootingPattern::Straight],
        ),
        e.wf(),
{
    let mut ps0: Vec<ShootingPattern> = Vec::new();
    ps0.push(ShootingPattern::Flank { angle: 45_000 });
    ps0.push(ShootingPattern::Straight);
    proof {
        assert(ps0@ =~= seq![ShootingPattern::Flank { angle: 45_000 }, ShootingPattern::Straight]);
    }
    let mut ps1: Vec<ShootingPattern> = Vec::new();
    ps1.push(ShootingPattern::Ring { count: 4 });
    ps1.push(ShootingPattern::Straight);
    proof {
        assert(ps1@ =~= seq![ShootingPattern::Ring { count: 4 }, ShootingPattern::Straight]);
    }
    Enemy::new_random(5)
        .with_shooting_range(400)
        .with_attack(new_attack(1000, 3000, ps0))
        .with_attack(new_attack(1000, 3000, ps1))
}

/// Whether the target offset lies within the activation range (compared by
/// squared distance, which is exact).
pub open spec fn in_range(dx: int, dy: int, range: int) -> bool {
    dx * dx + dy * dy <= range * range
}

/// Total number of directions a volley over these patterns emits, counting
/// from index `i`.
pub open spec fn volley_len_from(patterns: Seq<ShootingPattern>, i: int) -> int
    decreases patterns.len() - i,
{
    if i < 0 || i >= patterns.len() {
        0
    } else {
        patterns[i].emitted_len() + volley_len_from(patterns, i + 1)
    }
}

pub open spec fn volley_len(patterns: Seq<ShootingPattern>) -> int {
    volley_len_from(patterns, 0)
}

/// The volley of a deterministic pattern list: the concatenation, in order,
/// of every pattern's emission for the given aim and attack-timer snapshot.
pub open spec fn spec_volley_from(
    aim: int,
    patterns: Seq<ShootingPattern>,
    i: int,
    cooldown: int,
    duration: int,
    elapsed: int,
) -> Seq<Dir>
    decreases patterns.len() - i,
{
    if i < 0 || i >= patterns.len() {
        Seq::empty()
    } else {
        spec_emit(aim, patterns[i], cooldown, duration, elapsed) + spec_volley_from(
            aim,
            patterns,
            i + 1,
            cooldown,
            duration,
            elapsed,
        )
    }
}

pub open spec fn spec_volley(
    aim: int,
    patterns: Seq<ShootingPattern>,
    cooldown: int,
    duration: int,
    elapsed: int,
) -> Seq<Dir> {
    spec_volley_from(aim, patterns, 0, cooldown, duration, elapsed)
}

/// Whether a pattern list contains no random jitter, so its volley is a
/// function of the aim and the timer snapshot alone.
pub open spec fn all_deterministic(patterns: Seq<ShootingPattern>) -> bool {
    forall|i: int| 0 <= i < patterns.len() ==> !((#[trigger] patterns[i]) is Random)
}

/// Emit one pattern's directions for the given aim, reading the timer
/// snapshot (cooldown length, duration length, elapsed duration) from the
/// owning attack — only `Sweep` depends on it.
pub fn get_shooting_patterns(
    aim: i64,
    pattern: &ShootingPattern,
    current_attack: &EnemyAttack,
) -> (dirs: Vec<Dir>)
    requires
        pattern.wf(),
        current_attack.wf(),
        -TURN <= aim <= TURN,
    ensures
        dirs@.len() == pattern.emitted_len(),
        forall|i: int| 0 <= i < dirs@.len() ==> (#[trigger] dirs@[i]).wf(),
        !(pattern is Random) ==> dirs@ == spec_emit(
            aim as int,
            *pattern,
            current_attack.cooldown_timer.duration as int,
            current_attack.duration.duration as int,
            current_attack.duration.elapsed as int,
        ),
        (*pattern matches ShootingPattern::Random { count: _, arc } ==> crate::pattern::random_bounds(
            dirs@,
            aim as int,
            arc as int,
        )),
{
    pattern_directions(
        aim,
        pattern,
        current_attack.cooldown_timer.duration,
        current_attack.duration.duration,
        current_attack.duration.elapsed,
    )
}

impl Enemy {
    /// One scheduler tick for this attacker against a target at offset
    /// `(dx, dy)` with caller-computed aim angle `aim`.
    ///
    /// Skips (changing nothing) while the intro cinematic plays, when there
    /// are no attacks, or when the target is out of range. Otherwise the
    /// current attack's duration timer advances; if it completes, the timer
    /// resets and the cursor advances exactly one position (mod the list
    /// length) without firing — the newly selected attack starts cold, its
    /// own timers untouched. Otherwise the cooldown timer advances, and each
    /// time it completes one volley is emitted over the attack's patterns.
    pub fn shooting_step(&mut self, dx: i64, dy: i64, aim: i64, delta: u64) -> (volley: Option<
        Vec<Dir>,
    >)
        requires
            old(self).wf(),
            -MAX_COORD <= dx <= MAX_COORD,
            -MAX_COORD <= dy <= MAX_COORD,
            -TURN <= aim <= TURN,
            delta <= MAX_DELTA,
        ensures
            final(self).wf(),
            final(self).life == old(self).life,
            final(self).moves == old(self).moves,
            final(self).shooting_range == old(self).shooting_range,
            final(self).intro_playing == old(self).intro_playing,
            (old(self).intro_playing || old(self).attacks@.len() == 0 || !in_range(
                dx as int,
                dy as int,
                old(self).shooting_range as int,
            )) ==> (*final(self) == *old(self) && volley is None),
            (!old(self).intro_playing && old(self).attacks@.len() > 0 && in_range(
                dx as int,
                dy as int,
                old(self).shooting_range as int,
            )) ==> ({
                let len = old(self).attacks@.len() as int;
                let idx = old(self).attack_idx as int % len;
                let a = old(self).attacks@[idx];
                let ad = a.duration.spec_tick(delta);
                if ad.finished {
                    &&& volley is None
                    &&& final(self).attack_idx == (idx + 1) % len
                    &&& final(self).attacks@ == old(self).attacks@.update(
                        idx,
                        EnemyAttack { duration: ad.spec_reset(), ..a },
                    )
                } else {
                    let ac = a.cooldown_timer.spec_tick(delta);
                    &&& final(self).attack_idx == old(self).attack_idx
                    &&& final(self).attacks@ == old(self).attacks@.update(
                        idx,
                        EnemyAttack { duration: ad, cooldown_timer: ac, ..a },
                    )
                    &&& (ac.times_finished_this_tick == 0 ==> volley is None)
                    &&& (ac.times_finished_this_tick > 0 ==> (volley matches Some(dirs) && {
                        let ps = a.shooting_pattern@;
                        &&& dirs@.len() == volley_len(ps)
                        &&& forall|i: int| 0 <= i < dirs@.len() ==> (#[trigger] dirs@[i]).wf()
                        &&& (all_deterministic(ps) ==> dirs@ == spec_volley(
                            aim as int,
                            ps,
                            a.cooldown_timer.duration as int,
                            a.duration.duration as int,
                            ad.elapsed as int,
                        ))
                    }))
                }
            }),
    {
        if self.intro_playing || self.attacks.len() == 0 {
            return None;
        }
        proof {
            assert(0 <= dx * dx <= 1_000_000_000_000) by (nonlinear_arith)
                requires -1_000_000 <= dx <= 1_000_000;
            assert(0 <= dy * dy <= 1_000_000_000_000) by (nonlinear_arith)
                requires -1_000_000 <= dy <= 1_000_000;
            assert(0 <= self.shooting_range * self.shooting_range <= 1_000_000_000_000)
                by (nonlinear_arith)
                requires 0 <= self.shooting_range <= 1_000_000;
        }
        let dist_sq: i64 = dx * dx + dy * dy;
        let range_sq: i64 = self.shooting_range * self.shooting_range;
        if dist_sq > range_sq {
            return None;
        }
        let len = self.attacks.len();
        let idx = self.attack_idx % len;
        let mut a = self.attacks.remove(idx);
        let ghost a0 = a;
        a.duration.tick(delta);
        if a.duration.is_finished() {
            a.duration.reset();
            self.attacks.insert(idx, a);
            self.attack_idx = (idx + 1) % len;
            proof {
                assert(self.attacks@ =~= old(self).attacks@.update(
                    idx as int,
                    EnemyAttack { duration: a0.duration.spec_tick(delta).spec_reset(), ..a0 },
                ));
            }
            return None;
        }
        a.cooldown_timer.tick(delta);
        let fire = a.cooldown_timer.just_finished();
        let mut volley: Option<Vec<Dir>> = None;
        if fire {
            let ghost ps = a.shooting_pattern@;
            let ghost cd = a0.cooldown_timer.duration as int;
            let ghost dd = a0.duration.duration as int;
            let ghost el = a.duration.elapsed as int;
            let mut dirs: Vec<Dir> = Vec::new();
            let mut pi: usize = 0;
            while pi < a.shooting_pattern.len()
                invariant
                    a.wf(),
                    pi <= a.shooting_pattern@.len(),
                    a.shooting_pattern@ == ps,
                    -TURN <= aim <= TURN,
                    1 <= a.cooldown_timer.duration <= MAX_DURATION,
                    1 <= a.duration.duration <= MAX_DURATION,
                    a.duration.elapsed <= MAX_DURATION,
                    cd == a.cooldown_timer.duration as int,
                    dd == a.duration.duration as int,
                    el == a.duration.elapsed as int,
                    dirs@.len() == volley_len(ps) - volley_len_from(ps, pi as int),
                    forall|i: int| 0 <= i < dirs@.len() ==> (#[trigger] dirs@[i]).wf(),
                    all_deterministic(ps) ==> spec_volley(aim as int, ps, cd, dd, el) =~= dirs@
                        + spec_volley_from(aim as int, ps, pi as int, cd, dd, el),
                decreases a.shooting_pattern@.len() - pi,
            {
                let p = &a.shooting_pattern[pi];
                let mut emitted = get_shooting_patterns(aim, p, &a);
                dirs.append(&mut emitted);
                pi = pi + 1;
            }
            volley = Some(dirs);
        }
        self.attacks.insert(idx, a);
        proof {
            assert(self.attacks@ =~= old(self).attacks@.update(
                idx as int,
                EnemyAttack {
                    duration: a0.duration.spec_tick(delta),
                    cooldown_timer: a0.cooldown_timer.spec_tick(delta),
                    ..a0
                },
            ));
        }
        volley
    }
}

} // verus!
