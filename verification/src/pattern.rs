//! Pattern generation: mapping one aim direction to a list of emission
//! directions.
//!
//! A direction is an exact rational angle: `num / den` angle units, where
//! [`TURN`] units make one full circle. Keeping directions rational makes
//! every spacing rule exact — a spread of `count` shots across an arc steps
//! by precisely `arc / (count - 1)`, with no rounding — at the price of
//! leaving the conversion to unit vectors to the caller.

use vstd::prelude::*;

verus! {

/// Angle units in one full circle.
pub const TURN: i64 = 360_000;

/// The fixed fallback direction (a quarter turn, straight up) used when a
/// zero-length aim vector would otherwise make the aim angle meaningless.
pub const FALLBACK_DIR: i64 = 90_000;

/// Most emission directions a single pattern may ask for.
pub const MAX_COUNT: usize = 10_000;

/// An exact rational angle: `num / den` angle units.
#[derive(Clone, Copy, Debug, PartialEq, Eq, Structural)]
pub struct Dir {
    pub num: i64,
    pub den: i64,
}

impl Dir {
    pub open spec fn wf(self) -> bool {
        self.den >= 1
    }
}

/// A pure geometric rule mapping one aim angle to a set of emission angles.
/// Arcs and angles are in angle units ([`TURN`] per circle).
#[derive(Clone, Debug)]
pub enum ShootingPattern {
    /// One shot along the aim direction.
    Straight,
    /// `count` shots evenly spaced across `arc`, centered on the aim.
    Spread { count: usize, arc: i64 },
    /// `count` shots evenly spaced around the full circle, anchored at the
    /// aim angle.
    Ring { count: usize },
    /// Two shots at `angle` to either side of the aim.
    Flank { angle: i64 },
    /// `count` shots with independent uniform offsets in `[-arc/2, arc/2]`.
    Random { count: usize, arc: i64 },
    /// One shot per volley, walking across `arc` as the owning attack's
    /// duration window elapses.
    Sweep { arc: i64, clockwise: bool },
}

impl ShootingPattern {
    /// Configuration validity, demanded of every pattern an attack carries:
    /// counts are bounded, a ring has at least one shot, and arcs fit inside
    /// one turn. A configuration outside these bounds (a ring of zero shots)
    /// is rejected where the attack is built, not patched up at emission
    /// time.
    pub open spec fn wf(self) -> bool {
        match self {
            ShootingPattern::Straight => true,
            ShootingPattern::Spread { count, arc } => count <= MAX_COUNT && 0 <= arc <= TURN,
            ShootingPattern::Ring { count } => 1 <= count <= MAX_COUNT,
            ShootingPattern::Flank { angle } => 0 <= angle <= TURN,
            ShootingPattern::Random { count, arc } => count <= MAX_COUNT && 0 <= arc <= TURN,
            ShootingPattern::Sweep { arc, clockwise: _ } => 0 <= arc <= TURN,
        }
    }

    /// How many directions the pattern emits per volley.
    pub open spec fn emitted_len(self) -> int {
        match self {
            ShootingPattern::Straight => 1,
            ShootingPattern::Spread { count, arc: _ } => if count <= 1 { 1int } else { count as int },
            ShootingPattern::Ring { count } => count as int,
            ShootingPattern::Flank { angle: _ } => 2,
            ShootingPattern::Random { count, arc: _ } => count as int,
            ShootingPattern::Sweep { .. } => 1,
        }
    }
}

/// The single direction of a straight shot.
pub open spec fn straight_dirs(aim: int) -> Seq<Dir> {
    seq![Dir { num: aim as i64, den: 1 }]
}

/// Numerator of the i-th spread direction over denominator `2 * (count - 1)`:
/// the exact value `aim - arc/2 + i * arc/(count - 1)`.
pub open spec fn spread_num(aim: int, count: int, arc: int, i: int) -> int {
    2 * aim * (count - 1) - arc * (count - 1) + 2 * i * arc
}

/// The `count >= 2` spread fan, centered on the aim.
pub open spec fn spread_dirs(aim: int, count: int, arc: int) -> Seq<Dir> {
    Seq::new(
        count as nat,
        |i: int| Dir {
            num: spread_num(aim, count, arc, i) as i64,
            den: (2 * (count - 1)) as i64,
        },
    )
}

/// The ring of `count` directions: the i-th is exactly `aim + i * TURN/count`.
pub open spec fn ring_dirs(aim: int, count: int) -> Seq<Dir> {
    Seq::new(
        count as nat,
        |i: int| Dir { num: (aim * count + i * (TURN as int)) as i64, den: count as i64 },
    )
}

/// The flank pair: `aim - angle` then `aim + angle`.
pub open spec fn flank_dirs(aim: int, angle: int) -> Seq<Dir> {
    seq![
        Dir { num: (aim - angle) as i64, den: 1 },
        Dir { num: (aim + angle) as i64, den: 1 },
    ]
}

/// Total discrete sweep steps: `duration / cooldown`, at least one.
pub open spec fn sweep_total(cooldown: int, duration: int) -> int {
    let t = duration / cooldown;
    if t >= 1 { t } else { 1 }
}

/// Which sweep step the elapsed duration falls in, clamped to the last step.
pub open spec fn sweep_index(cooldown: int, duration: int, elapsed: int) -> int {
    let k = elapsed / cooldown;
    let last = sweep_total(cooldown, duration) - 1;
    if k <= last { k } else { last }
}

pub open spec fn sweep_den(cooldown: int, duration: int) -> int {
    let t = sweep_total(cooldown, duration);
    if t > 1 { 2 * (t - 1) } else { 2 }
}

/// Numerator of the sweep direction: the offset interpolates linearly from
/// `+arc/2` to `-arc/2` (clockwise) or the reverse, as the step advances.
pub open spec fn sweep_num(
    aim: int,
    arc: int,
    clockwise: bool,
    cooldown: int,
    duration: int,
    elapsed: int,
) -> int {
    let t = sweep_total(cooldown, duration);
    let k = sweep_index(cooldown, duration, elapsed);
    if t > 1 {
        if clockwise {
            2 * aim * (t - 1) + arc * (t - 1) - 2 * k * arc
        } else {
            2 * aim * (t - 1) - arc * (t - 1) + 2 * k * arc
        }
    } else {
        if clockwise { 2 * aim + arc } else { 2 * aim - arc }
    }
}

pub open spec fn sweep_dir(
    aim: int,
    arc: int,
    clockwise: bool,
    cooldown: int,
    duration: int,
    elapsed: int,
) -> Dir {
    Dir {
        num: sweep_num(aim, arc, clockwise, cooldown, duration, elapsed) as i64,
        den: sweep_den(cooldown, duration) as i64,
    }
}

/// The directions a deterministic pattern emits for the given aim and
/// owning-attack timer snapshot. `Random` draws fresh jitter per call, so it
/// has no fixed emission; callers never equate its output to this function.
pub open spec fn spec_emit(
    aim: int,
    pattern: ShootingPattern,
    cooldown: int,
    duration: int,
    elapsed: int,
) -> Seq<Dir> {
    match pattern {
        ShootingPattern::Straight => straight_dirs(aim),
        ShootingPattern::Spread { count, arc } => if count <= 1 {
            straight_dirs(aim)
        } else {
            spread_dirs(aim, count as int, arc as int)
        },
        ShootingPattern::Ring { count } => ring_dirs(aim, count as int),
        ShootingPattern::Flank { angle } => flank_dirs(aim, angle as int),
        ShootingPattern::Random { .. } => arbitrary(),
        ShootingPattern::Sweep { arc, clockwise } => seq![
            sweep_dir(aim, arc as int, clockwise, cooldown, duration, elapsed)
        ],
    }
}

/// What is known of every `Random` emission: denominator 2 and a numerator
/// within `arc` half-units of the aim, i.e. an offset in `[-arc/2, arc/2]`.
pub open spec fn random_bounds(ds: Seq<Dir>, aim: int, arc: int) -> bool {
    forall|i: int|
        0 <= i < ds.len() ==> {
            &&& (#[trigger] ds[i]).den == 2
            &&& 2 * aim - arc <= ds[i].num <= 2 * aim + arc
        }
}

/// Bounded multiplication: the workhorse for ruling out overflow in the
/// direction numerators.
proof fn lemma_mul_bound(a: int, b: int, amax: int, bmax: int)
    by (nonlinear_arith)
    requires
        0 <= amax,
        -amax <= a <= amax,
        0 <= b <= bmax,
    ensures
        -(amax * bmax) <= a * b <= amax * bmax,
{
}

proof fn lemma_spread_num_in_range(aim: int, count: int, arc: int, i: int)
    by (nonlinear_arith)
    requires
        -TURN <= aim <= TURN,
        2 <= count <= MAX_COUNT,
        0 <= arc <= TURN,
        0 <= i < count,
    ensures
        -20_000_000_000 <= 2 * aim * (count - 1) - arc * (count - 1) + 2 * i * arc
            <= 20_000_000_000,
{
}

/// Law: a spread over more than one shot is evenly spaced, its first and
/// last directions differ by exactly the arc, and the fan is symmetric about
/// the aim direction. All directions share the denominator `2 * (count - 1)`,
/// so consecutive numerators differing by `2 * arc` is an exact step of
/// `arc / (count - 1)`, and a numerator sum of `2 * aim * den` for each
/// mirrored pair means the pair's average is exactly the aim angle.
pub proof fn lemma_spread_properties(aim: int, count: int, arc: int)
    requires
        -TURN <= aim <= TURN,
        2 <= count <= MAX_COUNT,
        0 <= arc <= TURN,
    ensures
        ({
            let ds = spread_dirs(aim, count, arc);
            let den = 2 * (count - 1);
            &&& ds.len() == count
            &&& forall|i: int| 0 <= i < count ==> (#[trigger] ds[i]).den == den
            &&& forall|i: int|
                #![trigger ds[i + 1]]
                0 <= i < count - 1 ==> ds[i + 1].num - ds[i].num == 2 * arc
            &&& ds[count - 1].num - ds[0].num == arc * den
            &&& forall|i: int| 0 <= i < count ==> (#[trigger] ds[i]).num + ds[count - 1 - i].num
                == 2 * aim * den
        }),
{
    let ds = spread_dirs(aim, count, arc);
    assert forall|i: int| 0 <= i < count implies (#[trigger] ds[i]).num == spread_num(
        aim,
        count,
        arc,
        i,
    ) by {
        lemma_spread_num_in_range(aim, count, arc, i);
    }
    assert forall|i: int| #![trigger ds[i + 1]] 0 <= i < count - 1 implies ds[i + 1].num
        - ds[i].num == 2 * arc by {
        assert(ds[i].num == spread_num(aim, count, arc, i));
        assert(ds[i + 1].num == spread_num(aim, count, arc, i + 1));
        assert(2 * aim * (count - 1) - arc * (count - 1) + 2 * (i + 1) * arc - (2 * aim * (count
            - 1) - arc * (count - 1) + 2 * i * arc) == 2 * arc) by (nonlinear_arith);
    }
    assert(2 * aim * (count - 1) - arc * (count - 1) + 2 * (count - 1) * arc - (2 * aim * (count
        - 1) - arc * (count - 1) + 2 * 0 * arc) == arc * (2 * (count - 1))) by (nonlinear_arith);
    assert forall|i: int| 0 <= i < count implies (#[trigger] ds[i]).num + ds[count - 1 - i].num
        == 2 * aim * (2 * (count - 1)) by {
        assert(ds[count - 1 - i].num == spread_num(aim, count, arc, count - 1 - i));
        assert(2 * aim * (count - 1) - arc * (count - 1) + 2 * i * arc + (2 * aim * (count - 1)
            - arc * (count - 1) + 2 * (count - 1 - i) * arc) == 2 * aim * (2 * (count - 1)))
            by (nonlinear_arith);
    }
}

proof fn lemma_ring_num_in_range(aim: int, count: int, i: int)
    by (nonlinear_arith)
    requires
        -TURN <= aim <= TURN,
        1 <= count <= MAX_COUNT,
        0 <= i < count,
    ensures
        -8_000_000_000 <= aim * count + i * (TURN as int) <= 8_000_000_000,
{
}

/// Law: the ring of `count` directions is evenly spaced by exactly one
/// `count`-th of a full circle and anchored at the aim angle. All directions
/// share the denominator `count`, so consecutive numerators differing by
/// `TURN` is an exact step of `TURN / count`. (That the emitted unit vectors
/// sum to approximately zero is a numeric fact about sine and cosine, checked
/// by a test rather than stated here.)
pub proof fn lemma_ring_properties(aim: int, count: int)
    requires
        -TURN <= aim <= TURN,
        1 <= count <= MAX_COUNT,
    ensures
        ({
            let ds = ring_dirs(aim, count);
            &&& ds.len() == count
            &&& forall|i: int| 0 <= i < count ==> (#[trigger] ds[i]).den == count
            &&& forall|i: int|
                #![trigger ds[i + 1]]
                0 <= i < count - 1 ==> ds[i + 1].num - ds[i].num == TURN
            &&& ds[0].num == aim * count
        }),
{
    let ds = ring_dirs(aim, count);
    assert forall|i: int| 0 <= i < count implies (#[trigger] ds[i]).num == aim * count + i * (
    TURN as int) by {
        lemma_ring_num_in_range(aim, count, i);
    }
}

/// Law: a flank always emits exactly two directions, one `angle` below and
/// one `angle` above the aim, symmetric about it (their numerators sum to
/// `2 * aim` over denominator 1).
pub proof fn lemma_flank_symmetric(aim: int, angle: int)
    requires
        -TURN <= aim <= TURN,
        0 <= angle <= TURN,
    ensures
        ({
            let ds = flank_dirs(aim, angle);
            &&& ds.len() == 2
            &&& ds[0].den == 1 && ds[1].den == 1
            &&& ds[0].num == aim - angle
            &&& ds[1].num == aim + angle
            &&& ds[0].num + ds[1].num == 2 * aim
        }),
{
}

/// The aim angle derived from a target offset, with the fixed fallback when
/// the offset is zero. `raw` is the caller-computed angle of `(dx, dy)` in
/// angle units; for a zero offset no such angle exists and the fallback
/// replaces it.
pub fn safe_dir(dx: i64, dy: i64, raw: i64) -> (aim: i64)
    ensures
        aim == if dx == 0 && dy == 0 { FALLBACK_DIR as int } else { raw as int },
{
    if dx == 0 && dy == 0 {
        FALLBACK_DIR
    } else {
        raw
    }
}

/// Emit the directions of one pattern for the given aim angle and the owning
/// attack's timer snapshot (cooldown duration, duration-window length and
/// elapsed time, all in ticks — only `Sweep` reads them).
pub fn pattern_directions(
    aim: i64,
    pattern: &ShootingPattern,
    cooldown_ticks: u64,
    duration_ticks: u64,
    elapsed_ticks: u64,
) -> (dirs: Vec<Dir>)
    requires
        pattern.wf(),
        -TURN <= aim <= TURN,
        1 <= cooldown_ticks <= crate::timer::MAX_DURATION,
        1 <= duration_ticks <= crate::timer::MAX_DURATION,
        elapsed_ticks <= crate::timer::MAX_DURATION,
    ensures
        dirs@.len() == pattern.emitted_len(),
        forall|i: int| 0 <= i < dirs@.len() ==> (#[trigger] dirs@[i]).wf(),
        !(pattern is Random) ==> dirs@ == spec_emit(
            aim as int,
            *pattern,
            cooldown_ticks as int,
            duration_ticks as int,
            elapsed_ticks as int,
        ),
        (*pattern matches ShootingPattern::Random { count: _, arc } ==> random_bounds(
            dirs@,
            aim as int,
            arc as int,
        )),
{
    match pattern {
        ShootingPattern::Straight => {
            let mut dirs: Vec<Dir> = Vec::new();
            dirs.push(Dir { num: aim, den: 1 });
            proof {
                assert(dirs@ =~= straight_dirs(aim as int));
            }
            dirs
        },
        ShootingPattern::Spread { count, arc } => {
            let count = *count;
            let arc = *arc;
            if count <= 1 {
                let mut dirs: Vec<Dir> = Vec::new();
                dirs.push(Dir { num: aim, den: 1 });
                proof {
                    assert(dirs@ =~= straight_dirs(aim as int));
                }
                return dirs;
            }
            let n1: i64 = (count as i64) - 1;
            proof {
                lemma_mul_bound(2 * (aim as int), n1 as int, 2 * (TURN as int), n1 as int);
                lemma_mul_bound(arc as int, n1 as int, TURN as int, n1 as int);
            }
            let base: i64 = 2 * aim * n1 - arc * n1;
            let den: i64 = 2 * n1;
            let mut dirs: Vec<Dir> = Vec::new();
            let mut i: usize = 0;
            while i < count
                invariant
                    2 <= count <= MAX_COUNT,
                    0 <= arc <= TURN,
                    -TURN <= aim <= TURN,
                    n1 == count - 1,
                    base == 2 * aim * (count - 1) - arc * (count - 1),
                    -11_000_000_000 <= base <= 11_000_000_000,
                    den == 2 * (count - 1),
                    i <= count,
                    dirs@.len() == i,
                    forall|j: int|
                        0 <= j < i ==> dirs@[j] == spread_dirs(aim as int, count as int, arc as int)[j],
                decreases count - i,
            {
                proof {
                    lemma_mul_bound(2 * (i as int), arc as int, 2 * (count as int), TURN as int);
                }
                let num: i64 = base + 2 * (i as i64) * arc;
                dirs.push(Dir { num, den });
                i = i + 1;
            }
            proof {
                assert(dirs@ =~= spread_dirs(aim as int, count as int, arc as int));
            }
            dirs
        },
        ShootingPattern::Ring { count } => {
            let count = *count;
            proof {
                lemma_mul_bound(aim as int, count as int, TURN as int, MAX_COUNT as int);
            }
            let base: i64 = aim * (count as i64);
            let mut dirs: Vec<Dir> = Vec::new();
            let mut i: usize = 0;
            while i < count
                invariant
                    1 <= count <= MAX_COUNT,
                    -TURN <= aim <= TURN,
                    base == aim * count,
                    -3_600_000_000 <= base <= 3_600_000_000,
                    i <= count,
                    dirs@.len() == i,
                    forall|j: int| 0 <= j < i ==> dirs@[j] == ring_dirs(aim as int, count as int)[j],
                decreases count - i,
            {
                let num: i64 = base + (i as i64) * TURN;
                dirs.push(Dir { num, den: count as i64 });
                i = i + 1;
            }
            proof {
                assert(dirs@ =~= ring_dirs(aim as int, count as int));
            }
            dirs
        },
        ShootingPattern::Flank { angle } => {
            let angle = *angle;
            let mut dirs: Vec<Dir> = Vec::new();
            dirs.push(Dir { num: aim - angle, den: 1 });
            dirs.push(Dir { num: aim + angle, den: 1 });
            proof {
                assert(dirs@ =~= flank_dirs(aim as int, angle as int));
            }
            dirs
        },
        ShootingPattern::Random { count, arc } => {
            let count = *count;
            let arc = *arc;
            let mut dirs: Vec<Dir> = Vec::new();
            let mut i: usize = 0;
            while i < count
                invariant
                    count <= MAX_COUNT,
                    0 <= arc <= TURN,
                    -TURN <= aim <= TURN,
                    i <= count,
                    dirs@.len() == i,
                    forall|j: int|
                        0 <= j < i ==> {
                            &&& (#[trigger] dirs@[j]).den == 2
                            &&& 2 * aim - arc <= dirs@[j].num <= 2 * aim + arc
                        },
                decreases count - i,
            {
                let off: i64 = crate::rng::random_in_range(-arc, arc);
                dirs.push(Dir { num: 2 * aim + off, den: 2 });
                i = i + 1;
            }
            dirs
        },
        ShootingPattern::Sweep { arc, clockwise } => {
            let arc = *arc;
            let clockwise = *clockwise;
            let ghost cd = cooldown_ticks as int;
            let ghost dd = duration_ticks as int;
            let ghost el = elapsed_ticks as int;
            proof {
                assert((dd / cd) * cd <= dd) by (nonlinear_arith)
                    requires 1 <= cd, 0 <= dd;
                assert(dd / cd <= dd) by (nonlinear_arith)
                    requires 1 <= cd, 0 <= dd;
            }
            let total_q: u64 = duration_ticks / cooldown_ticks;
            let total: u64 = if total_q >= 1 { total_q } else { 1 };
            proof {
                assert(el / cd <= el) by (nonlinear_arith)
                    requires 1 <= cd, 0 <= el;
            }
            let kq: u64 = elapsed_ticks / cooldown_ticks;
            let k: u64 = if kq <= total - 1 { kq } else { total - 1 };
            let mut dirs: Vec<Dir> = Vec::new();
            if total > 1 {
                let t1: i64 = (total - 1) as i64;
                let ki: i64 = k as i64;
                proof {
                    lemma_mul_bound(2 * (aim as int), t1 as int, 2 * (TURN as int), t1 as int);
                    lemma_mul_bound(arc as int, t1 as int, TURN as int, t1 as int);
                    lemma_mul_bound(2 * (ki as int), arc as int, 2 * (t1 as int), TURN as int);
                }
                let num: i64 = if clockwise {
                    2 * aim * t1 + arc * t1 - 2 * ki * arc
                } else {
                    2 * aim * t1 - arc * t1 + 2 * ki * arc
                };
                dirs.push(Dir { num, den: 2 * t1 });
            } else {
                let num: i64 = if clockwise { 2 * aim + arc } else { 2 * aim - arc };
                dirs.push(Dir { num, den: 2 });
            }
            proof {
                assert(dirs@ =~= seq![sweep_dir(aim as int, arc as int, clockwise, cd, dd, el)]);
            }
            dirs
        },
    }
}

} // verus!
