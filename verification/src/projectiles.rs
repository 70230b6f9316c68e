//! Projectile data and per-projectile resolution of expiry conditions.
//!
//! A projectile carries a fixed direction, a hostility tag assigned at spawn,
//! and an ordered list of [`Due`] conditions. Lifespan dues are resolved
//! purely by elapsed time in the once-per-tick lifecycle sweep; bounce dues
//! are resolved only by contact with obstacles.

use vstd::prelude::*;

use crate::pattern::Dir;
use crate::timer::{Timer, TimerMode, MAX_DELTA, MAX_DURATION, TICKS_PER_SECOND};

verus! {

/// Who a projectile can damage: a `Friendly` projectile damages attackers, a
/// `Hostile` one damages the player. Fixed at spawn.
#[derive(Clone, Copy, Debug, PartialEq, Eq, Structural)]
pub enum Hostility {
    Friendly,
    Hostile,
}

/// A post-spawn expiry condition: despawn when a countdown runs out, or
/// after the remaining bounces are used up.
#[derive(Clone, Copy, Debug, PartialEq, Eq, Structural)]
pub enum Due {
    Lifespan(Timer),
    BounceDown(usize),
}

/// What a contact with an obstacle does to a projectile.
#[derive(Clone, Copy, Debug, PartialEq, Eq, Structural)]
pub enum OtherHit {
    /// The projectile keeps flying (a bounce was spent).
    Fly,
    /// Last surviving bounce of a recallable weapon: the caller zeroes its
    /// velocity; the projectile stays alive, waiting to be recalled.
    Halt,
    /// The projectile is despawned.
    Despawn,
}

/// A projectile: direction fixed at spawn, one hostility tag, and an ordered
/// list of dues.
#[derive(Clone, Debug)]
pub struct Projectile {
    pub direction: Dir,
    pub hostility: Hostility,
    /// Marks the recallable player weapon, which survives its last bounce
    /// with zeroed velocity instead of despawning.
    pub recallable: bool,
    /// A recalled projectile flies back to its owner and interacts with
    /// nothing else (see the passthrough filter).
    pub recalled: bool,
    pub dues: Vec<Due>,
}

impl Projectile {
    /// Every lifespan due carries a well-formed one-shot timer.
    pub open spec fn wf(self) -> bool {
        forall|i: int|
            0 <= i < self.dues@.len() ==> match #[trigger] self.dues@[i] {
                Due::Lifespan(t) => t.wf() && t.mode == TimerMode::Once,
                Due::BounceDown(_) => true,
            }
    }
}

impl Default for Projectile {
    /// A neutral projectile aimed straight down with no dues; spawners
    /// override every field.
    fn default() -> (p: Projectile)
        ensures
            p.direction == (Dir { num: -90_000i64, den: 1 }),
            p.hostility == Hostility::Hostile,
            !p.recallable,
            !p.recalled,
            p.dues@ == Seq::<Due>::empty(),
            p.wf(),
    {
        Projectile {
            direction: Dir { num: -90_000, den: 1 },
            hostility: Hostility::Hostile,
            recallable: false,
            recalled: false,
            dues: Vec::new(),
        }
    }
}

/// How one due reacts to an obstacle contact: a bounce count of two or more
/// is decremented; everything else is unchanged (a count of one or zero ends
/// the projectile instead, see `due_forces_despawn`).
pub open spec fn due_bounce_step(d: Due) -> Due {
    match d {
        Due::BounceDown(c) => if c >= 2 {
            Due::BounceDown((c - 1) as usize)
        } else {
            d
        },
        Due::Lifespan(_) => d,
    }
}

/// Whether this due ends the projectile on an obstacle contact: no bounces
/// left, or the last bounce of a projectile that is not recallable.
pub open spec fn due_forces_despawn(d: Due, recallable: bool) -> bool {
    match d {
        Due::BounceDown(c) => c == 0 || (c == 1 && !recallable),
        Due::Lifespan(_) => false,
    }
}

/// Whether this due halts a recallable projectile (last surviving bounce).
pub open spec fn due_halts(d: Due, recallable: bool) -> bool {
    match d {
        Due::BounceDown(c) => c == 1 && recallable,
        Due::Lifespan(_) => false,
    }
}

pub open spec fn has_bounce_due(dues: Seq<Due>) -> bool {
    exists|i: int| 0 <= i < dues.len() && (#[trigger] dues[i]) is BounceDown
}

/// The aggregate outcome of an obstacle contact over a due list: a
/// projectile with no bounce due despawns unconditionally; otherwise a due
/// out of bounces despawns it, a last recallable bounce halts it, and
/// otherwise it keeps flying.
pub open spec fn other_hit_outcome(dues: Seq<Due>, recallable: bool) -> OtherHit {
    if !has_bounce_due(dues) {
        OtherHit::Despawn
    } else if exists|i: int|
        0 <= i < dues.len() && due_forces_despawn(#[trigger] dues[i], recallable) {
        OtherHit::Despawn
    } else if exists|i: int| 0 <= i < dues.len() && due_halts(#[trigger] dues[i], recallable) {
        OtherHit::Halt
    } else {
        OtherHit::Fly
    }
}

impl Projectile {
    /// Resolve a qualifying contact with an obstacle (or anything else that
    /// is neither player, attacker nor projectile): spend one bounce of
    /// every bounce due and report whether the projectile flies on, halts,
    /// or despawns.
    pub fn resolve_other_contact(&mut self) -> (out: OtherHit)
        ensures
            out == other_hit_outcome(old(self).dues@, old(self).recallable),
            final(self).dues@ == old(self).dues@.map_values(|d: Due| due_bounce_step(d)),
            final(self).direction == old(self).direction,
            final(self).hostility == old(self).hostility,
            final(self).recallable == old(self).recallable,
            final(self).recalled == old(self).recalled,
            old(self).wf() ==> final(self).wf(),
    {
        let ghost dues0 = self.dues@;
        let recallable = self.recallable;
        let mut new_dues: Vec<Due> = Vec::new();
        let mut saw_bounce = false;
        let mut despawn = false;
        let mut halt = false;
        let mut i: usize = 0;
        while i < self.dues.len()
            invariant
                i <= self.dues@.len(),
                self.dues@ == dues0,
                self.recallable == recallable,
                new_dues@.len() == i,
                forall|j: int| 0 <= j < i ==> new_dues@[j] == due_bounce_step(#[trigger] dues0[j]),
                saw_bounce == exists|j: int| 0 <= j < i && (#[trigger] dues0[j]) is BounceDown,
                despawn == exists|j: int|
                    0 <= j < i && due_forces_despawn(#[trigger] dues0[j], recallable),
                halt == exists|j: int| 0 <= j < i && due_halts(#[trigger] dues0[j], recallable),
            decreases self.dues@.len() - i,
        {
            let d = self.dues[i];
            match d {
                Due::BounceDown(c) => {
                    saw_bounce = true;
                    if c == 0 {
                        despawn = true;
                        new_dues.push(d);
                    } else if c == 1 {
                        if recallable {
                            halt = true;
                        } else {
                            despawn = true;
                        }
                        new_dues.push(d);
                    } else {
                        new_dues.push(Due::BounceDown(c - 1));
                    }
                },
                Due::Lifespan(_) => {
                    new_dues.push(d);
                },
            }
            i = i + 1;
        }
        self.dues = new_dues;
        proof {
            assert(self.dues@ =~= dues0.map_values(|d: Due| due_bounce_step(d)));
        }
        if despawn || !saw_bounce {
            OtherHit::Despawn
        } else if halt {
            OtherHit::Halt
        } else {
            OtherHit::Fly
        }
    }
}

/// Whether a due is a lifespan whose countdown has completed.
pub open spec fn is_finished_lifespan(d: Due) -> bool {
    match d {
        Due::Lifespan(t) => t.finished,
        Due::BounceDown(_) => false,
    }
}

/// A due after one lifecycle-sweep tick: lifespans advance, bounces are
/// untouched.
pub open spec fn ticked_due(d: Due, delta: u64) -> Due {
    match d {
        Due::Lifespan(t) => Due::Lifespan(t.spec_tick(delta)),
        Due::BounceDown(_) => d,
    }
}

/// The first index (from `i`) of an already-finished lifespan, or the length
/// if none: the sweep stops ticking at that point and expires the
/// projectile.
pub open spec fn first_finished_index(dues: Seq<Due>, i: int) -> int
    decreases dues.len() - i,
{
    if i < 0 || i >= dues.len() {
        dues.len() as int
    } else if is_finished_lifespan(dues[i]) {
        i
    } else {
        first_finished_index(dues, i + 1)
    }
}

/// The due list after one sweep: every due before the first finished
/// lifespan is ticked; from that point on nothing is touched.
pub open spec fn swept_dues(dues: Seq<Due>, delta: u64) -> Seq<Due> {
    Seq::new(
        dues.len(),
        |j: int|
            if j < first_finished_index(dues, 0) {
                ticked_due(dues[j], delta)
            } else {
                dues[j]
            },
    )
}

/// Whether one sweep expires the projectile: some lifespan had already
/// completed when the sweep reached it.
pub open spec fn sweep_expires(dues: Seq<Due>) -> bool {
    first_finished_index(dues, 0) < dues.len()
}

proof fn lemma_first_finished_from(dues: Seq<Due>, i: int)
    requires
        0 <= i <= dues.len(),
        forall|j: int| 0 <= j < i ==> !is_finished_lifespan(#[trigger] dues[j]),
    ensures
        first_finished_index(dues, 0) == first_finished_index(dues, i),
    decreases i,
{
    if i > 0 {
        lemma_first_finished_from(dues, i - 1);
    }
}

impl Projectile {
    /// One lifecycle-sweep step for this projectile: tick every lifespan due
    /// in order until one is found already finished; report whether the
    /// projectile must be despawned. Bounce dues are untouched — they change
    /// only via collision.
    pub fn lifespan_step(&mut self, delta: u64) -> (expired: bool)
        requires
            old(self).wf(),
            delta <= MAX_DELTA,
        ensures
            expired == sweep_expires(old(self).dues@),
            final(self).dues@ == swept_dues(old(self).dues@, delta),
            final(self).direction == old(self).direction,
            final(self).hostility == old(self).hostility,
            final(self).recallable == old(self).recallable,
            final(self).recalled == old(self).recalled,
            final(self).wf(),
    {
        let ghost dues0 = self.dues@;
        let mut i: usize = 0;
        let mut expired = false;
        while i < self.dues.len() && !expired
            invariant
                old(self).wf(),
                delta <= MAX_DELTA,
                i <= self.dues@.len(),
                self.dues@.len() == dues0.len(),
                self.direction == old(self).direction,
                self.hostility == old(self).hostility,
                self.recallable == old(self).recallable,
                self.recalled == old(self).recalled,
                dues0 == old(self).dues@,
                forall|j: int| i <= j < dues0.len() ==> #[trigger] self.dues@[j] == dues0[j],
                !expired ==> forall|j: int|
                    0 <= j < i ==> !is_finished_lifespan(#[trigger] dues0[j]),
                !expired ==> forall|j: int|
                    0 <= j < i ==> #[trigger] self.dues@[j] == ticked_due(dues0[j], delta),
                expired ==> {
                    &&& i < dues0.len()
                    &&& is_finished_lifespan(dues0[i as int])
                    &&& forall|j: int|
                        0 <= j < i ==> !is_finished_lifespan(#[trigger] dues0[j])
                    &&& forall|j: int|
                        0 <= j < i ==> #[trigger] self.dues@[j] == ticked_due(dues0[j], delta)
                },
                self.wf(),
            decreases dues0.len() - i, if expired { 0int } else { 1int },
        {
            let d = self.dues[i];
            match d {
                Due::Lifespan(t) => {
                    if t.is_finished() {
                        expired = true;
                    } else {
                        let mut t2 = t;
                        t2.tick(delta);
                        self.dues.set(i, Due::Lifespan(t2));
                        i = i + 1;
                    }
                },
                Due::BounceDown(_) => {
                    i = i + 1;
                },
            }
        }
        proof {
            lemma_first_finished_from(dues0, i as int);
            if expired {
                assert(first_finished_index(dues0, 0) == i);
            } else {
                assert(first_finished_index(dues0, 0) == dues0.len());
            }
            assert(self.dues@ =~= swept_dues(dues0, delta));
        }
        expired
    }
}

/// Whether a run of lifecycle sweeps with the given time steps expires the
/// projectile: some sweep finds a lifespan already finished.
pub open spec fn run_lifecycle(dues: Seq<Due>, deltas: Seq<u64>) -> bool
    decreases deltas.len(),
{
    if deltas.len() == 0 {
        false
    } else if sweep_expires(dues) {
        true
    } else {
        run_lifecycle(swept_dues(dues, deltas[0]), deltas.skip(1))
    }
}

/// Law: a projectile whose only due is a lifespan timer is expired by a run
/// of sweeps exactly when the time accumulated before the last sweep reaches
/// the timer's duration — at its time, never before, and independent of any
/// collision activity (contacts never touch lifespan dues).
pub proof fn lemma_lifespan_exact(t: Timer, deltas: Seq<u64>)
    requires
        t.wf(),
        t.mode == TimerMode::Once,
        forall|i: int| 0 <= i < deltas.len() ==> #[trigger] deltas[i] <= MAX_DELTA,
    ensures
        run_lifecycle(seq![Due::Lifespan(t)], deltas) <==> (deltas.len() >= 1 && t.elapsed
            + crate::timer::total_ticks(deltas.take(deltas.len() - 1)) >= t.duration),
    decreases deltas.len(),
{
    let dues = seq![Due::Lifespan(t)];
    let n = deltas.len() as int;
    if n == 0 {
    } else if t.finished {
        assert(sweep_expires(dues));
        crate::timer::lemma_total_ticks_nonneg(deltas.take(n - 1));
    } else {
        assert(!is_finished_lifespan(dues[0]));
        assert(first_finished_index(dues, 1) == 1);
        assert(first_finished_index(dues, 0) == 1);
        assert(!sweep_expires(dues));
        let d0 = deltas[0];
        let t2 = t.spec_tick(d0);
        assert(swept_dues(dues, d0) =~= seq![Due::Lifespan(t2)]);
        let rest = deltas.skip(1);
        assert(forall|i: int| 0 <= i < rest.len() ==> #[trigger] rest[i] <= MAX_DELTA);
        lemma_lifespan_exact(t2, rest);
        if n == 1 {
            assert(t.elapsed < t.duration);
            assert(deltas.take(0) =~= Seq::<u64>::empty());
        } else {
            let head = deltas.take(n - 1);
            assert(head.len() == n - 1);
            assert(head[0] == d0);
            assert(head.skip(1) =~= rest.take(n - 2));
            assert(crate::timer::total_ticks(head) == d0 + crate::timer::total_ticks(
                rest.take(n - 2),
            ));
            crate::timer::lemma_total_ticks_nonneg(rest.take(n - 2));
            if t.elapsed + d0 >= t.duration {
                assert(t2.elapsed == t.duration);
                assert(run_lifecycle(seq![Due::Lifespan(t2)], rest));
            } else {
                assert(t2.elapsed == t.elapsed + d0);
            }
        }
    }
}

/// The due list after `k` qualifying obstacle contacts.
pub open spec fn bounce_hits(dues: Seq<Due>, k: int) -> Seq<Due>
    decreases k,
{
    if k <= 0 {
        dues
    } else {
        bounce_hits(dues, k - 1).map_values(|d: Due| due_bounce_step(d))
    }
}

/// Law: a projectile whose only due is a bounce count of `n` (and which is
/// not the recallable player weapon) keeps flying through its first `n - 1`
/// qualifying obstacle contacts and despawns exactly on the `n`-th: after
/// `k` prior contacts, the next contact despawns it if and only if
/// `k + 1 >= n`.
pub proof fn lemma_bouncedown_exact(n: usize, k: int)
    requires
        n >= 1,
        0 <= k,
    ensures
        ({
            let s = bounce_hits(seq![Due::BounceDown(n)], k);
            &&& s.len() == 1
            &&& s == seq![Due::BounceDown((if n - k >= 1 { n - k } else { 1int }) as usize)]
            &&& other_hit_outcome(s, false) == (if k + 1 >= n {
                OtherHit::Despawn
            } else {
                OtherHit::Fly
            })
        }),
    decreases k,
{
    if k == 0 {
        let s = bounce_hits(seq![Due::BounceDown(n)], 0);
        assert(s == seq![Due::BounceDown(n)]);
        assert(s[0] is BounceDown);
        assert(has_bounce_due(s));
        if n == 1 {
            assert(due_forces_despawn(s[0], false));
        } else {
            assert(forall|i: int| 0 <= i < s.len() ==> !due_forces_despawn(#[trigger] s[i], false));
            assert(forall|i: int| 0 <= i < s.len() ==> !due_halts(#[trigger] s[i], false));
        }
    } else {
        lemma_bouncedown_exact(n, k - 1);
        let prev = bounce_hits(seq![Due::BounceDown(n)], k - 1);
        let s = bounce_hits(seq![Due::BounceDown(n)], k);
        assert(s == prev.map_values(|d: Due| due_bounce_step(d)));
        let c = (if n - (k - 1) >= 1 { n - (k - 1) } else { 1int }) as usize;
        assert(prev == seq![Due::BounceDown(c)]);
        assert(s[0] == due_bounce_step(Due::BounceDown(c)));
        assert(s =~= seq![Due::BounceDown((if n - k >= 1 { n - k } else { 1int }) as usize)]);
        let s0 = s[0];
        assert(s0 is BounceDown);
        assert(has_bounce_due(s));
        let cc = (if n - k >= 1 { n - k } else { 1int }) as usize;
        if k + 1 >= n {
            assert(cc == 1);
            assert(due_forces_despawn(s[0], false));
        } else {
            assert(cc >= 2);
            assert(forall|i: int| 0 <= i < s.len() ==> !due_forces_despawn(#[trigger] s[i], false));
            assert(forall|i: int| 0 <= i < s.len() ==> !due_halts(#[trigger] s[i], false));
        }
    }
}

/// The due list of the player's chakra: five bounces, then a four-second
/// lifespan.
pub open spec fn chakra_dues() -> Seq<Due> {
    seq![
        Due::BounceDown(5),
        Due::Lifespan(Timer {
            duration: (4 * TICKS_PER_SECOND) as u64,
            elapsed: 0,
            mode: TimerMode::Once,
            finished: false,
            times_finished_this_tick: 0,
        }),
    ]
}

/// The due list of the standard attacker bullet: three bounces, then a
/// three-second lifespan.
pub open spec fn bullet_dues() -> Seq<Due> {
    seq![
        Due::BounceDown(3),
        Due::Lifespan(Timer {
            duration: (3 * TICKS_PER_SECOND) as u64,
            elapsed: 0,
            mode: TimerMode::Once,
            finished: false,
            times_finished_this_tick: 0,
        }),
    ]
}

/// The recallable player weapon: five bounces and a four-second lifespan,
/// spun off in the throw direction.
pub fn player_chakra(direction: Dir, hostility: Hostility) -> (p: Projectile)
    ensures
        p.direction == direction,
        p.hostility == hostility,
        p.recallable,
        !p.recalled,
        p.dues@ == chakra_dues(),
        p.wf(),
{
    let mut dues: Vec<Due> = Vec::new();
    dues.push(Due::BounceDown(5));
    dues.push(Due::Lifespan(Timer::from_seconds(4, TimerMode::Once)));
    let p = Projectile { direction, hostility, recallable: true, recalled: false, dues };
    proof {
        assert(p.dues@ =~= chakra_dues());
    }
    p
}

/// The standard attacker bullet: three bounces and a three-second lifespan.
pub fn enemy_basic_bullet(direction: Dir, hostility: Hostility) -> (p: Projectile)
    ensures
        p.direction == direction,
        p.hostility == hostility,
        !p.recallable,
        !p.recalled,
        p.dues@ == bullet_dues(),
        p.wf(),
{
    let mut dues: Vec<Due> = Vec::new();
    dues.push(Due::BounceDown(3));
    dues.push(Due::Lifespan(Timer::from_seconds(3, TimerMode::Once)));
    let p = Projectile { direction, hostility, recallable: false, recalled: false, dues };
    proof {
        assert(p.dues@ =~= bullet_dues());
    }
    p
}

/// A projectile with no dues: it despawns on its first obstacle contact.
pub fn basic_projectile(direction: Dir, hostility: Hostility) -> (p: Projectile)
    ensures
        p.direction == direction,
        p.hostility == hostility,
        !p.recallable,
        !p.recalled,
        p.dues@ == Seq::<Due>::empty(),
        p.wf(),
{
    let p = Projectile { direction, hostility, recallable: false, recalled: false, dues: Vec::new() };
    proof {
        assert(p.dues@ =~= Seq::<Due>::empty());
    }
    p
}

/// A projectile that is gone after its bounces are used up.
pub fn bounce_down_projectile(direction: Dir, hostility: Hostility) -> (p: Projectile)
    ensures
        p.direction == direction,
        p.hostility == hostility,
        !p.recallable,
        !p.recalled,
        p.dues@ == seq![Due::BounceDown(5)],
        p.wf(),
{
    let mut dues: Vec<Due> = Vec::new();
    dues.push(Due::BounceDown(5));
    let p = Projectile { direction, hostility, recallable: false, recalled: false, dues };
    proof {
        assert(p.dues@ =~= seq![Due::BounceDown(5)]);
    }
    p
}

/// A projectile that expires after a five-second lifespan.
pub fn lifespan_projectile(direction: Dir, hostility: Hostility) -> (p: Projectile)
    ensures
        p.direction == direction,
        p.hostility == hostility,
        !p.recallable,
        !p.recalled,
        p.dues@ == seq![
            Due::Lifespan(Timer {
                duration: (5 * TICKS_PER_SECOND) as u64,
                elapsed: 0,
                mode: TimerMode::Once,
                finished: false,
                times_finished_this_tick: 0,
            }),
        ],
        p.wf(),
{
    let mut dues: Vec<Due> = Vec::new();
    dues.push(Due::Lifespan(Timer::from_seconds(5, TimerMode::Once)));
    let p = Projectile { direction, hostility, recallable: false, recalled: false, dues };
    proof {
        assert(p.dues@ =~= seq![
            Due::Lifespan(Timer {
                duration: (5 * TICKS_PER_SECOND) as u64,
                elapsed: 0,
                mode: TimerMode::Once,
                finished: false,
                times_finished_this_tick: 0,
            }),
        ]);
    }
    p
}

/// The player's throw-cooldown gate: a one-shot timer that must finish
/// before the next throw.
#[derive(Clone, Copy, Debug)]
pub struct Cool(pub Timer);

impl Cool {
    pub fn new(duration: u64) -> (c: Cool)
        requires
            1 <= duration <= MAX_DURATION,
        ensures
            c.0 == (Timer {
                duration,
                elapsed: 0,
                mode: TimerMode::Once,
                finished: false,
                times_finished_this_tick: 0,
            }),
            c.0.wf(),
    {
        Cool(Timer::new(duration, TimerMode::Once))
    }
}

} // verus!
