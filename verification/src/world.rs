//! The simulation-world state for one fixed tick domain: the player's
//! resources, the attackers, and every live projectile.
//!
//! This module owns the collision resolver (contact events become damage,
//! despawns, bounces and cues, each event resolved exactly once), the
//! lifecycle sweep (lifespans expire by time alone), and the ammo
//! bookkeeping that ties projectile retirement back to the thrower. The
//! central resource law: the player's ammo plus the number of friendly
//! projectiles in the world never changes, except that a throw moves one
//! unit from ammo into flight and a retirement moves it back.

use vstd::prelude::*;

use crate::collision::{Contact, Cue, Role};
use crate::enemies::Enemy;
use crate::pattern::Dir;
use crate::player::{sat_dec, Player};
use crate::projectiles::{
    bullet_dues, chakra_dues, due_bounce_step, enemy_basic_bullet, other_hit_outcome, Due,
    player_chakra, swept_dues, sweep_expires, Cool, Hostility, OtherHit, Projectile,
};
use crate::timer::{Timer, TimerMode, MAX_DELTA};

verus! {

/// Ceiling on the player's ammo plus the number of friendly projectiles, so
/// that restoring ammo can never overflow.
pub const MAX_AMMO: usize = 1_000_000_000;

/// One projectile entity of the world. `alive` is the pending-despawn mark:
/// a projectile already marked is final — no later collision event in the
/// same tick may match it again — and it is removed in a single batch at the
/// end of the tick.
#[derive(Clone, Debug)]
pub struct ProjSlot {
    pub proj: Projectile,
    pub alive: bool,
}

/// The combat world of one level: the single player, the attackers, and the
/// projectiles in flight.
#[derive(Clone, Debug)]
pub struct CombatState {
    pub player: Player,
    /// The throw-cooldown gate; a throw is accepted only once it finished.
    pub cool: Cool,
    pub enemies: Vec<Enemy>,
    pub projectiles: Vec<ProjSlot>,
}

/// Whether a slot holds a friendly projectile (alive or pending despawn).
pub open spec fn friendly_weight(s: ProjSlot) -> int {
    if s.proj.hostility is Friendly {
        1
    } else {
        0
    }
}

/// Number of friendly slots from index `i` on.
pub open spec fn friendly_from(s: Seq<ProjSlot>, i: int) -> int
    decreases s.len() - i,
{
    if i < 0 || i >= s.len() {
        0
    } else {
        friendly_weight(s[i]) + friendly_from(s, i + 1)
    }
}

/// Number of friendly slots in the world. Between ticks every slot is
/// alive, so this is exactly the number of friendly projectiles in flight.
pub open spec fn friendly_count(s: Seq<ProjSlot>) -> int {
    friendly_from(s, 0)
}

proof fn lemma_friendly_from_bounds(s: Seq<ProjSlot>, j: int)
    requires
        0 <= j <= s.len(),
    ensures
        0 <= friendly_from(s, j) <= s.len() - j,
    decreases s.len() - j,
{
    if j < s.len() {
        lemma_friendly_from_bounds(s, j + 1);
    }
}

proof fn lemma_friendly_from_update(s: Seq<ProjSlot>, i: int, x: ProjSlot, j: int)
    requires
        0 <= i < s.len(),
        0 <= j <= s.len(),
    ensures
        friendly_from(s.update(i, x), j) == friendly_from(s, j) + if j <= i {
            friendly_weight(x) - friendly_weight(s[i])
        } else {
            0int
        },
    decreases s.len() - j,
{
    if j < s.len() {
        lemma_friendly_from_update(s, i, x, j + 1);
    }
}

/// Replacing a slot changes the friendly count by the weight difference.
proof fn lemma_friendly_update(s: Seq<ProjSlot>, i: int, x: ProjSlot)
    requires
        0 <= i < s.len(),
    ensures
        friendly_count(s.update(i, x)) == friendly_count(s) + friendly_weight(x)
            - friendly_weight(s[i]),
{
    lemma_friendly_from_update(s, i, x, 0);
}

proof fn lemma_friendly_from_push(s: Seq<ProjSlot>, x: ProjSlot, j: int)
    requires
        0 <= j <= s.len(),
    ensures
        friendly_from(s.push(x), j) == friendly_from(s, j) + friendly_weight(x),
    decreases s.len() - j,
{
    if j < s.len() {
        lemma_friendly_from_push(s, x, j + 1);
    } else {
        assert(s.push(x)[j] == x);
        assert(friendly_from(s.push(x), j + 1) == 0);
    }
}

/// Appending a slot adds its weight to the friendly count.
proof fn lemma_friendly_push(s: Seq<ProjSlot>, x: ProjSlot)
    ensures
        friendly_count(s.push(x)) == friendly_count(s) + friendly_weight(x),
{
    lemma_friendly_from_push(s, x, 0);
}

impl CombatState {
    pub open spec fn wf(self) -> bool {
        &&& self.player.wf()
        &&& self.cool.0.wf()
        &&& self.cool.0.mode == TimerMode::Once
        &&& forall|i: int| 0 <= i < self.enemies@.len() ==> (#[trigger] self.enemies@[i]).wf()
        &&& forall|i: int|
            0 <= i < self.projectiles@.len() ==> (#[trigger] self.projectiles@[i]).proj.wf()
        &&& self.player.ammo + friendly_count(self.projectiles@) <= MAX_AMMO
    }

    /// A fresh world around the given player, with an expired cooldown gate
    /// so the first throw is accepted.
    pub fn new(player: Player) -> (w: CombatState)
        requires
            player.wf(),
            player.ammo <= MAX_AMMO,
        ensures
            w.player == player,
            w.enemies@ == Seq::<Enemy>::empty(),
            w.projectiles@ == Seq::<ProjSlot>::empty(),
            w.cool.0.finished,
            w.wf(),
    {
        let mut gate = Cool::new(player.cool);
        gate.0.tick(player.cool);
        let w = CombatState { player, cool: gate, enemies: Vec::new(), projectiles: Vec::new() };
        proof {
            assert(w.enemies@ =~= Seq::<Enemy>::empty());
            assert(w.projectiles@ =~= Seq::<ProjSlot>::empty());
        }
        w
    }

    /// Advance the throw-cooldown gate.
    pub fn update_cools(&mut self, delta: u64)
        requires
            old(self).wf(),
            delta <= MAX_DELTA,
        ensures
            final(self).cool.0 == old(self).cool.0.spec_tick(delta),
            final(self).player == old(self).player,
            final(self).enemies == old(self).enemies,
            final(self).projectiles == old(self).projectiles,
            final(self).wf(),
    {
        self.cool.0.tick(delta);
    }

    /// The once-per-tick lifecycle sweep: tick every live projectile's
    /// lifespan dues and mark for despawn those whose countdown had run out,
    /// independent of collision activity. Marked projectiles are left in
    /// place for the end-of-tick batch removal.
    pub fn update_projectiles(&mut self, delta: u64)
        requires
            old(self).wf(),
            delta <= MAX_DELTA,
        ensures
            final(self).player == old(self).player,
            final(self).cool == old(self).cool,
            final(self).enemies == old(self).enemies,
            final(self).projectiles@.len() == old(self).projectiles@.len(),
            friendly_count(final(self).projectiles@) == friendly_count(old(self).projectiles@),
            forall|i: int|
                0 <= i < old(self).projectiles@.len() ==> {
                    let s0 = #[trigger] old(self).projectiles@[i];
                    let s1 = final(self).projectiles@[i];
                    if s0.alive {
                        &&& s1.alive == !sweep_expires(s0.proj.dues@)
                        &&& s1.proj.dues@ == swept_dues(s0.proj.dues@, delta)
                        &&& s1.proj.direction == s0.proj.direction
                        &&& s1.proj.hostility == s0.proj.hostility
                        &&& s1.proj.recallable == s0.proj.recallable
                        &&& s1.proj.recalled == s0.proj.recalled
                    } else {
                        s1 == s0
                    }
                },
            final(self).wf(),
    {
        let ghost pr0 = self.projectiles@;
        let mut i: usize = 0;
        while i < self.projectiles.len()
            invariant
                old(self).wf(),
                delta <= MAX_DELTA,
                i <= self.projectiles@.len(),
                self.projectiles@.len() == pr0.len(),
                pr0 == old(self).projectiles@,
                self.player == old(self).player,
                self.cool == old(self).cool,
                self.enemies == old(self).enemies,
                friendly_count(self.projectiles@) == friendly_count(pr0),
                forall|j: int| i <= j < pr0.len() ==> #[trigger] self.projectiles@[j] == pr0[j],
                forall|j: int|
                    0 <= j < i ==> {
                        let s0 = #[trigger] pr0[j];
                        let s1 = self.projectiles@[j];
                        if s0.alive {
                            &&& s1.alive == !sweep_expires(s0.proj.dues@)
                            &&& s1.proj.dues@ == swept_dues(s0.proj.dues@, delta)
                            &&& s1.proj.direction == s0.proj.direction
                            &&& s1.proj.hostility == s0.proj.hostility
                            &&& s1.proj.recallable == s0.proj.recallable
                            &&& s1.proj.recalled == s0.proj.recalled
                        } else {
                            s1 == s0
                        }
                    },
                forall|j: int|
                    0 <= j < self.projectiles@.len() ==> (#[trigger] self.projectiles@[j]).proj.wf(),
            decreases pr0.len() - i,
        {
            let alive = self.projectiles[i].alive;
            if alive {
                let ghost before = self.projectiles@;
                let mut slot = self.projectiles.remove(i);
                let expired = slot.proj.lifespan_step(delta);
                if expired {
                    slot.alive = false;
                }
                let ghost newslot = slot;
                self.projectiles.insert(i, slot);
                proof {
                    assert(self.projectiles@ =~= before.update(i as int, newslot));
                    lemma_friendly_update(before, i as int, newslot);
                }
            }
            i = i + 1;
        }
    }

    /// End-of-tick batch removal: drop every projectile marked for despawn
    /// and restore one ammo to the player for each retired friendly
    /// projectile (however it was retired — hit, bounce-out, lifespan or
    /// recall arrival).
    pub fn restore_ammo(&mut self)
        requires
            old(self).wf(),
        ensures
            final(self).player.life == old(self).player.life,
            final(self).player.cool == old(self).player.cool,
            final(self).cool == old(self).cool,
            final(self).enemies == old(self).enemies,
            forall|i: int|
                0 <= i < final(self).projectiles@.len()
                    ==> (#[trigger] final(self).projectiles@[i]).alive,
            final(self).player.ammo + friendly_count(final(self).projectiles@)
                == old(self).player.ammo + friendly_count(old(self).projectiles@),
            final(self).player.ammo >= old(self).player.ammo,
            final(self).wf(),
    {
        let ghost pr0 = self.projectiles@;
        let mut kept: Vec<ProjSlot> = Vec::new();
        let mut credit: usize = 0;
        proof {
            lemma_friendly_from_bounds(pr0, 0);
        }
        while self.projectiles.len() > 0
            invariant
                old(self).wf(),
                pr0 == old(self).projectiles@,
                self.player == old(self).player,
                self.cool == old(self).cool,
                self.enemies == old(self).enemies,
                self.projectiles@ == pr0.skip(pr0.len() - self.projectiles@.len()),
                self.projectiles@.len() <= pr0.len(),
                forall|j: int| 0 <= j < kept@.len() ==> (#[trigger] kept@[j]).alive,
                forall|j: int| 0 <= j < kept@.len() ==> (#[trigger] kept@[j]).proj.wf(),
                credit + friendly_count(kept@) + friendly_from(
                    pr0,
                    pr0.len() - self.projectiles@.len(),
                ) == friendly_count(pr0),
                credit >= 0,
                credit + friendly_count(kept@) <= friendly_count(pr0),
                friendly_count(kept@) >= 0,
            decreases self.projectiles@.len(),
        {
            let ghost i = pr0.len() - self.projectiles@.len();
            let ghost rest = self.projectiles@;
            let slot = self.projectiles.remove(0);
            proof {
                assert(rest[0] == pr0[i]);
                assert(self.projectiles@ =~= pr0.skip(i + 1));
                lemma_friendly_from_bounds(kept@, 0);
                lemma_friendly_from_bounds(pr0, i + 1);
            }
            if slot.alive {
                let ghost k0 = kept@;
                let ghost newslot = slot;
                kept.push(slot);
                proof {
                    lemma_friendly_push(k0, newslot);
                }
            } else {
                let friendly = match slot.proj.hostility {
                    Hostility::Friendly => true,
                    Hostility::Hostile => false,
                };
                if friendly {
                    proof {
                        lemma_friendly_from_bounds(pr0, 0);
                    }
                    credit = credit + 1;
                }
            }
        }
        proof {
            assert(friendly_from(pr0, pr0.len() as int) == 0);
        }
        self.projectiles = kept;
        self.player.increment_ammo(credit);
    }
}

/// What a throw attempt did.
#[derive(Clone, Copy, Debug, PartialEq, Eq, Structural)]
pub enum ThrowOutcome {
    /// One chakra left in the throw direction; ammo paid, cooldown armed.
    Thrown,
    /// Out of ammo: every friendly projectile in flight was recalled
    /// instead.
    Recalled,
    /// The cooldown gate has not finished; nothing happened.
    NotReady,
}

impl CombatState {
    /// The player's throw action. Accepted only when the cooldown gate has
    /// finished. With ammo in hand, one recallable chakra is spawned along
    /// `dir`, one ammo is spent and the cooldown restarts; with none, every
    /// friendly projectile in flight is recalled instead.
    pub fn apply_player_throw(&mut self, dir: Dir) -> (out: ThrowOutcome)
        requires
            old(self).wf(),
        ensures
            final(self).player.life == old(self).player.life,
            final(self).player.cool == old(self).player.cool,
            final(self).enemies == old(self).enemies,
            final(self).player.ammo + friendly_count(final(self).projectiles@)
                == old(self).player.ammo + friendly_count(old(self).projectiles@),
            final(self).wf(),
            !old(self).cool.0.finished ==> out == ThrowOutcome::NotReady && *final(self) == *old(
                self,
            ),
            old(self).cool.0.finished && old(self).player.ammo > 0 ==> {
                &&& out == ThrowOutcome::Thrown
                &&& final(self).player.ammo == old(self).player.ammo - 1
                &&& final(self).cool.0 == (Timer {
                    duration: old(self).player.cool,
                    elapsed: 0,
                    mode: TimerMode::Once,
                    finished: false,
                    times_finished_this_tick: 0,
                })
                &&& final(self).projectiles@.len() == old(self).projectiles@.len() + 1
                &&& forall|i: int|
                    0 <= i < old(self).projectiles@.len() ==> final(self).projectiles@[i] == old(
                        self,
                    ).projectiles@[i]
                &&& ({
                    let last = final(self).projectiles@.last();
                    &&& last.alive
                    &&& last.proj.direction == dir
                    &&& last.proj.hostility is Friendly
                    &&& last.proj.recallable
                    &&& !last.proj.recalled
                    &&& last.proj.dues@ == chakra_dues()
                })
            },
            old(self).cool.0.finished && old(self).player.ammo == 0 ==> {
                &&& out == ThrowOutcome::Recalled
                &&& final(self).player == old(self).player
                &&& final(self).cool == old(self).cool
                &&& final(self).projectiles@.len() == old(self).projectiles@.len()
                &&& forall|i: int|
                    0 <= i < old(self).projectiles@.len() ==> {
                        let s0 = #[trigger] old(self).projectiles@[i];
                        let s1 = final(self).projectiles@[i];
                        &&& s1.alive == s0.alive
                        &&& s1.proj.direction == s0.proj.direction
                        &&& s1.proj.hostility == s0.proj.hostility
                        &&& s1.proj.recallable == s0.proj.recallable
                        &&& s1.proj.dues == s0.proj.dues
                        &&& s1.proj.recalled == (s0.proj.recalled || (s0.alive
                            && s0.proj.hostility is Friendly))
                    }
            },
    {
        if !self.cool.0.is_finished() {
            return ThrowOutcome::NotReady;
        }
        if self.player.ammo != 0 {
            let p = player_chakra(dir, Hostility::Friendly);
            let ghost pr0 = self.projectiles@;
            let ghost newslot = ProjSlot { proj: p, alive: true };
            self.projectiles.push(ProjSlot { proj: p, alive: true });
            proof {
                lemma_friendly_push(pr0, newslot);
            }
            self.player.decrement_ammo(1);
            self.cool = Cool::new(self.player.cool);
            ThrowOutcome::Thrown
        } else {
            let ghost pr0 = self.projectiles@;
            let mut i: usize = 0;
            while i < self.projectiles.len()
                invariant
                    old(self).wf(),
                    i <= self.projectiles@.len(),
                    self.projectiles@.len() == pr0.len(),
                    pr0 == old(self).projectiles@,
                    self.player == old(self).player,
                    self.cool == old(self).cool,
                    self.enemies == old(self).enemies,
                    friendly_count(self.projectiles@) == friendly_count(pr0),
                    forall|j: int| i <= j < pr0.len() ==> #[trigger] self.projectiles@[j] == pr0[j],
                    forall|j: int|
                        0 <= j < i ==> {
                            let s0 = #[trigger] pr0[j];
                            let s1 = self.projectiles@[j];
                            &&& s1.alive == s0.alive
                            &&& s1.proj.direction == s0.proj.direction
                            &&& s1.proj.hostility == s0.proj.hostility
                            &&& s1.proj.recallable == s0.proj.recallable
                            &&& s1.proj.dues == s0.proj.dues
                            &&& s1.proj.recalled == (s0.proj.recalled || (s0.alive
                                && s0.proj.hostility is Friendly))
                        },
                    forall|j: int|
                        0 <= j < self.projectiles@.len() ==> (#[trigger] self.projectiles@[j]).proj.wf(),
                decreases pr0.len() - i,
            {
                let alive = self.projectiles[i].alive;
                let friendly = match self.projectiles[i].proj.hostility {
                    Hostility::Friendly => true,
                    Hostility::Hostile => false,
                };
                if alive && friendly {
                    let ghost before = self.projectiles@;
                    let mut slot = self.projectiles.remove(i);
                    slot.proj.recalled = true;
                    let ghost newslot = slot;
                    self.projectiles.insert(i, slot);
                    proof {
                        assert(self.projectiles@ =~= before.update(i as int, newslot));
                        lemma_friendly_update(before, i as int, newslot);
                    }
                }
                i = i + 1;
            }
            ThrowOutcome::Recalled
        }
    }
}

/// The per-event output of the resolver: at most one cue and at most one
/// halted projectile (whose velocity the caller zeroes).
#[derive(Clone, Copy, Debug, PartialEq, Eq, Structural)]
pub struct Resolution {
    pub cue: Option<Cue>,
    pub halt: Option<usize>,
}

/// Whether `r` names a projectile already marked for despawn: such an event
/// is skipped entirely (despawning is final and idempotent).
pub open spec fn role_dead_proj(pr: Seq<ProjSlot>, r: Role) -> bool {
    match r {
        Role::Projectile(i) => i < pr.len() && !pr[i as int].alive,
        _ => false,
    }
}

/// Whether `r` names a live projectile. A projectile index out of bounds (a
/// dangling handle) is treated as `Other`, as is a dangling attacker index.
pub open spec fn role_live_proj(pr: Seq<ProjSlot>, r: Role) -> bool {
    match r {
        Role::Projectile(i) => i < pr.len() && pr[i as int].alive,
        _ => false,
    }
}

pub open spec fn role_valid_enemy(en: Seq<Enemy>, r: Role) -> bool {
    match r {
        Role::Enemy(j) => j < en.len(),
        _ => false,
    }
}

/// Player against projectile `i`: the projectile despawns; a hostile one
/// also costs the player one life (saturating) and raises the player-hit
/// cue.
pub open spec fn player_proj_case(
    pl0: Player,
    pr0: Seq<ProjSlot>,
    i: int,
    pl: Player,
    pr: Seq<ProjSlot>,
    cue: Option<Cue>,
) -> bool {
    let slot = pr0[i];
    &&& pr == pr0.update(i, ProjSlot { alive: false, ..slot })
    &&& pl.ammo == pl0.ammo
    &&& pl.cool == pl0.cool
    &&& if slot.proj.hostility is Hostile {
        pl.life == sat_dec(pl0.life as int) && cue == Some(Cue::PlayerHit)
    } else {
        pl.life == pl0.life && cue == Option::<Cue>::None
    }
}

/// Projectile `i` against an obstacle (or an attacker it cannot damage):
/// bounce dues are spent; the projectile despawns, halts or flies on
/// according to its due resolution.
pub open spec fn due_res_case(
    pr0: Seq<ProjSlot>,
    i: int,
    pr: Seq<ProjSlot>,
    halt: Option<usize>,
) -> bool {
    let slot = pr0[i];
    let out = other_hit_outcome(slot.proj.dues@, slot.proj.recallable);
    &&& pr.len() == pr0.len()
    &&& forall|k: int| 0 <= k < pr0.len() && k != i ==> pr[k] == pr0[k]
    &&& pr[i].alive == (slot.alive && !(out is Despawn))
    &&& pr[i].proj.dues@ == slot.proj.dues@.map_values(|d: Due| due_bounce_step(d))
    &&& pr[i].proj.direction == slot.proj.direction
    &&& pr[i].proj.hostility == slot.proj.hostility
    &&& pr[i].proj.recallable == slot.proj.recallable
    &&& pr[i].proj.recalled == slot.proj.recalled
    &&& halt == if out is Halt {
        Some(i as usize)
    } else {
        Option::<usize>::None
    }
}

/// Attacker `j` against projectile `i`: a friendly projectile costs the
/// attacker one life (saturating), despawns and raises the enemy-hit cue; a
/// hostile one is friendly fire — no life change — and falls through to the
/// projectile's own due resolution for despawn.
pub open spec fn enemy_proj_case(
    en0: Seq<Enemy>,
    pr0: Seq<ProjSlot>,
    j: int,
    i: int,
    en: Seq<Enemy>,
    pr: Seq<ProjSlot>,
    cue: Option<Cue>,
    halt: Option<usize>,
) -> bool {
    let slot = pr0[i];
    if slot.proj.hostility is Friendly {
        &&& en == en0.update(j, Enemy { life: sat_dec(en0[j].life as int) as usize, ..en0[j] })
        &&& pr == pr0.update(i, ProjSlot { alive: false, ..slot })
        &&& cue == Some(Cue::EnemyHit)
        &&& halt == Option::<usize>::None
    } else {
        &&& en == en0
        &&& due_res_case(pr0, i, pr, halt)
        &&& cue == Option::<Cue>::None
    }
}

/// The complete resolution rule for one contact event, first matching rule
/// winning: events naming an already-despawned projectile are skipped;
/// player–projectile and attacker–projectile pairs are resolved in either
/// order; two projectiles only ricochet (neither is altered or despawned);
/// a projectile against anything else undergoes due resolution; every other
/// pair is a no-op.
pub open spec fn resolves_to(
    pl0: Player,
    en0: Seq<Enemy>,
    pr0: Seq<ProjSlot>,
    a: Role,
    b: Role,
    pl: Player,
    en: Seq<Enemy>,
    pr: Seq<ProjSlot>,
    cue: Option<Cue>,
    halt: Option<usize>,
) -> bool {
    let skip = pl == pl0 && en == en0 && pr == pr0 && cue == Option::<Cue>::None && halt
        == Option::<usize>::None;
    if role_dead_proj(pr0, a) || role_dead_proj(pr0, b) {
        skip
    } else if a is Player {
        if role_live_proj(pr0, b) {
            en == en0 && halt == Option::<usize>::None && player_proj_case(
                pl0,
                pr0,
                b->Projectile_0 as int,
                pl,
                pr,
                cue,
            )
        } else {
            skip
        }
    } else if b is Player {
        if role_live_proj(pr0, a) {
            en == en0 && halt == Option::<usize>::None && player_proj_case(
                pl0,
                pr0,
                a->Projectile_0 as int,
                pl,
                pr,
                cue,
            )
        } else {
            skip
        }
    } else if role_valid_enemy(en0, a) {
        if role_live_proj(pr0, b) {
            pl == pl0 && enemy_proj_case(
                en0,
                pr0,
                a->Enemy_0 as int,
                b->Projectile_0 as int,
                en,
                pr,
                cue,
                halt,
            )
        } else {
            skip
        }
    } else if role_valid_enemy(en0, b) {
        if role_live_proj(pr0, a) {
            pl == pl0 && enemy_proj_case(
                en0,
                pr0,
                b->Enemy_0 as int,
                a->Projectile_0 as int,
                en,
                pr,
                cue,
                halt,
            )
        } else {
            skip
        }
    } else if role_live_proj(pr0, a) && role_live_proj(pr0, b) {
        pl == pl0 && en == en0 && pr == pr0 && cue == Some(Cue::Ricochet) && halt
            == Option::<usize>::None
    } else if role_live_proj(pr0, a) {
        pl == pl0 && en == en0 && due_res_case(pr0, a->Projectile_0 as int, pr, halt) && cue
            == Option::<Cue>::None
    } else if role_live_proj(pr0, b) {
        pl == pl0 && en == en0 && due_res_case(pr0, b->Projectile_0 as int, pr, halt) && cue
            == Option::<Cue>::None
    } else {
        skip
    }
}

impl CombatState {
    /// Player hit by projectile `i` (rule: hostile costs a life and cues,
    /// any projectile reaching the player despawns).
    fn hit_player(&mut self, i: usize) -> (cue: Option<Cue>)
        requires
            old(self).wf(),
            i < old(self).projectiles@.len(),
        ensures
            final(self).wf(),
            final(self).enemies == old(self).enemies,
            final(self).cool == old(self).cool,
            final(self).player.ammo == old(self).player.ammo,
            final(self).player.cool == old(self).player.cool,
            final(self).projectiles@.len() == old(self).projectiles@.len(),
            friendly_count(final(self).projectiles@) == friendly_count(old(self).projectiles@),
            player_proj_case(
                old(self).player,
                old(self).projectiles@,
                i as int,
                final(self).player,
                final(self).projectiles@,
                cue,
            ),
    {
        let ghost pr0 = self.projectiles@;
        let hostile = match self.projectiles[i].proj.hostility {
            Hostility::Hostile => true,
            Hostility::Friendly => false,
        };
        let cue: Option<Cue> = if hostile {
            self.player.take_hit();
            Some(Cue::PlayerHit)
        } else {
            None
        };
        let mut slot = self.projectiles.remove(i);
        slot.alive = false;
        let ghost newslot = slot;
        self.projectiles.insert(i, slot);
        proof {
            assert(self.projectiles@ =~= pr0.update(i as int, newslot));
            lemma_friendly_update(pr0, i as int, newslot);
        }
        cue
    }

    /// Projectile `i` undergoes due resolution (obstacle contact, or
    /// friendly fire against an attacker).
    fn due_resolve_slot(&mut self, i: usize) -> (halt: Option<usize>)
        requires
            old(self).wf(),
            i < old(self).projectiles@.len(),
        ensures
            final(self).wf(),
            final(self).enemies == old(self).enemies,
            final(self).cool == old(self).cool,
            final(self).player == old(self).player,
            final(self).projectiles@.len() == old(self).projectiles@.len(),
            friendly_count(final(self).projectiles@) == friendly_count(old(self).projectiles@),
            due_res_case(old(self).projectiles@, i as int, final(self).projectiles@, halt),
    {
        let ghost pr0 = self.projectiles@;
        let mut slot = self.projectiles.remove(i);
        let out = slot.proj.resolve_other_contact();
        let halt: Option<usize> = match out {
            OtherHit::Despawn => {
                slot.alive = false;
                None
            },
            OtherHit::Halt => Some(i),
            OtherHit::Fly => None,
        };
        let ghost newslot = slot;
        self.projectiles.insert(i, slot);
        proof {
            assert(self.projectiles@ =~= pr0.update(i as int, newslot));
            lemma_friendly_update(pr0, i as int, newslot);
        }
        halt
    }

    /// Attacker `j` hit by projectile `i`.
    fn hit_enemy(&mut self, j: usize, i: usize) -> (r: (Option<Cue>, Option<usize>))
        requires
            old(self).wf(),
            j < old(self).enemies@.len(),
            i < old(self).projectiles@.len(),
        ensures
            final(self).wf(),
            final(self).cool == old(self).cool,
            final(self).player == old(self).player,
            final(self).enemies@.len() == old(self).enemies@.len(),
            final(self).projectiles@.len() == old(self).projectiles@.len(),
            friendly_count(final(self).projectiles@) == friendly_count(old(self).projectiles@),
            enemy_proj_case(
                old(self).enemies@,
                old(self).projectiles@,
                j as int,
                i as int,
                final(self).enemies@,
                final(self).projectiles@,
                r.0,
                r.1,
            ),
    {
        let ghost pr0 = self.projectiles@;
        let ghost en0 = self.enemies@;
        let friendly = match self.projectiles[i].proj.hostility {
            Hostility::Friendly => true,
            Hostility::Hostile => false,
        };
        if friendly {
            let mut e = self.enemies.remove(j);
            if e.life > 0 {
                e.life = e.life - 1;
            }
            let ghost newe = e;
            self.enemies.insert(j, e);
            let mut slot = self.projectiles.remove(i);
            slot.alive = false;
            let ghost newslot = slot;
            self.projectiles.insert(i, slot);
            proof {
                assert(self.enemies@ =~= en0.update(
                    j as int,
                    Enemy { life: sat_dec(en0[j as int].life as int) as usize, ..en0[j as int] },
                ));
                assert(self.projectiles@ =~= pr0.update(i as int, newslot));
                lemma_friendly_update(pr0, i as int, newslot);
            }
            (Some(Cue::EnemyHit), None)
        } else {
            let halt = self.due_resolve_slot(i);
            (None, halt)
        }
    }

    /// Whether `r` names a projectile already marked for despawn.
    fn role_dead(&self, r: Role) -> (dead: bool)
        ensures
            dead == role_dead_proj(self.projectiles@, r),
    {
        match r {
            Role::Projectile(i) => i < self.projectiles.len() && !self.projectiles[i].alive,
            _ => false,
        }
    }

    /// Resolve one contact-start event, applying the first matching rule
    /// exactly once (see [`resolves_to`]).
    pub fn resolve_contact(&mut self, a: Role, b: Role) -> (r: (Option<Cue>, Option<usize>))
        requires
            old(self).wf(),
        ensures
            final(self).wf(),
            final(self).cool == old(self).cool,
            final(self).player.ammo == old(self).player.ammo,
            final(self).player.cool == old(self).player.cool,
            final(self).enemies@.len() == old(self).enemies@.len(),
            final(self).projectiles@.len() == old(self).projectiles@.len(),
            friendly_count(final(self).projectiles@) == friendly_count(old(self).projectiles@),
            resolves_to(
                old(self).player,
                old(self).enemies@,
                old(self).projectiles@,
                a,
                b,
                final(self).player,
                final(self).enemies@,
                final(self).projectiles@,
                r.0,
                r.1,
            ),
    {
        if self.role_dead(a) || self.role_dead(b) {
            return (None, None);
        }
        match (a, b) {
            (Role::Player, Role::Projectile(i)) => {
                if i < self.projectiles.len() {
                    let cue = self.hit_player(i);
                    (cue, None)
                } else {
                    (None, None)
                }
            },
            (Role::Projectile(i), Role::Player) => {
                if i < self.projectiles.len() {
                    let cue = self.hit_player(i);
                    (cue, None)
                } else {
                    (None, None)
                }
            },
            (Role::Player, _) => (None, None),
            (_, Role::Player) => (None, None),
            (Role::Enemy(j), Role::Projectile(i)) => {
                if j < self.enemies.len() && i < self.projectiles.len() {
                    self.hit_enemy(j, i)
                } else if j < self.enemies.len() {
                    (None, None)
                } else if i < self.projectiles.len() {
                    // dangling attacker handle: the projectile met an
                    // obstacle as far as resolution is concerned
                    let halt = self.due_resolve_slot(i);
                    (None, halt)
                } else {
                    (None, None)
                }
            },
            (Role::Projectile(i), Role::Enemy(j)) => {
                if j < self.enemies.len() && i < self.projectiles.len() {
                    self.hit_enemy(j, i)
                } else if j < self.enemies.len() {
                    (None, None)
                } else if i < self.projectiles.len() {
                    let halt = self.due_resolve_slot(i);
                    (None, halt)
                } else {
                    (None, None)
                }
            },
            (Role::Enemy(_), _) => (None, None),
            (_, Role::Enemy(_)) => (None, None),
            (Role::Projectile(i), Role::Projectile(k)) => {
                match (i < self.projectiles.len(), k < self.projectiles.len()) {
                    (true, true) => (Some(Cue::Ricochet), None),
                    (true, false) => {
                        let halt = self.due_resolve_slot(i);
                        (None, halt)
                    },
                    (false, true) => {
                        let halt = self.due_resolve_slot(k);
                        (None, halt)
                    },
                    (false, false) => (None, None),
                }
            },
            (Role::Projectile(i), Role::Other) => {
                if i < self.projectiles.len() {
                    let halt = self.due_resolve_slot(i);
                    (None, halt)
                } else {
                    (None, None)
                }
            },
            (Role::Other, Role::Projectile(i)) => {
                if i < self.projectiles.len() {
                    let halt = self.due_resolve_slot(i);
                    (None, halt)
                } else {
                    (None, None)
                }
            },
            (Role::Other, Role::Other) => (None, None),
        }
    }
}

/// A ghost snapshot of the world's combat-relevant state: the player, the
/// attackers, and the projectile slots.
pub type WorldView = (Player, Seq<Enemy>, Seq<ProjSlot>);

/// Whether `trace` records a run of the resolver over `contacts`: it starts
/// at the world before the batch, each event advances it by exactly one
/// [`resolves_to`] step, in event order, and the i-th resolution records the
/// i-th event's cue and halt.
pub open spec fn batch_resolves(
    contacts: Seq<Contact>,
    trace: Seq<WorldView>,
    rs: Seq<Resolution>,
) -> bool {
    &&& trace.len() == contacts.len() + 1
    &&& rs.len() == contacts.len()
    &&& forall|k: int|
        0 <= k < contacts.len() ==> resolves_to(
            (#[trigger] trace[k]).0,
            trace[k].1,
            trace[k].2,
            contacts[k].first,
            contacts[k].second,
            trace[k + 1].0,
            trace[k + 1].1,
            trace[k + 1].2,
            rs[k].cue,
            rs[k].halt,
        )
}

impl CombatState {
    pub open spec fn view_of(self) -> WorldView {
        (self.player, self.enemies@, self.projectiles@)
    }

    /// Consume one fixed tick's contact-start events, resolving each exactly
    /// once, in event order; returns one resolution per event together with
    /// the ghost trace of intermediate worlds that witnesses the run.
    /// Resolution never touches ammo or the cooldown gate, and the number of
    /// friendly projectiles in the world (alive or pending despawn) is
    /// unchanged.
    pub fn on_collision(&mut self, contacts: &Vec<Contact>) -> (r: (
        Vec<Resolution>,
        Ghost<Seq<WorldView>>,
    ))
        requires
            old(self).wf(),
        ensures
            final(self).wf(),
            final(self).cool == old(self).cool,
            final(self).player.ammo == old(self).player.ammo,
            final(self).player.cool == old(self).player.cool,
            final(self).enemies@.len() == old(self).enemies@.len(),
            final(self).projectiles@.len() == old(self).projectiles@.len(),
            friendly_count(final(self).projectiles@) == friendly_count(old(self).projectiles@),
            r.0@.len() == contacts@.len(),
            r.1@.first() == old(self).view_of(),
            r.1@.last() == final(self).view_of(),
            batch_resolves(contacts@, r.1@, r.0@),
    {
        let ghost pl0 = self.player;
        let mut rs: Vec<Resolution> = Vec::new();
        let ghost mut trace: Seq<WorldView> = seq![self.view_of()];
        let mut i: usize = 0;
        while i < contacts.len()
            invariant
                old(self).wf(),
                self.wf(),
                i <= contacts@.len(),
                self.cool == old(self).cool,
                self.player.ammo == old(self).player.ammo,
                self.player.cool == old(self).player.cool,
                self.enemies@.len() == old(self).enemies@.len(),
                self.projectiles@.len() == old(self).projectiles@.len(),
                friendly_count(self.projectiles@) == friendly_count(old(self).projectiles@),
                rs@.len() == i,
                trace.len() == i + 1,
                trace.first() == old(self).view_of(),
                trace.last() == self.view_of(),
                forall|k: int|
                    0 <= k < i ==> resolves_to(
                        (#[trigger] trace[k]).0,
                        trace[k].1,
                        trace[k].2,
                        contacts@[k].first,
                        contacts@[k].second,
                        trace[k + 1].0,
                        trace[k + 1].1,
                        trace[k + 1].2,
                        rs@[k].cue,
                        rs@[k].halt,
                    ),
            decreases contacts@.len() - i,
        {
            let c = contacts[i];
            let (cue, halt) = self.resolve_contact(c.first, c.second);
            rs.push(Resolution { cue, halt });
            proof {
                trace = trace.push(self.view_of());
            }
            i = i + 1;
        }
        (rs, Ghost(trace))
    }

    /// One scheduler tick for attacker `idx` (see
    /// [`Enemy::shooting_step`](crate::enemies::Enemy::shooting_step)): its
    /// timers advance and, each time its cooldown completes, one volley of
    /// hostile bullets is spawned into the world, one per emitted direction.
    pub fn enemy_shooting_system(
        &mut self,
        idx: usize,
        dx: i64,
        dy: i64,
        aim: i64,
        delta: u64,
    )
        requires
            old(self).wf(),
            idx < old(self).enemies@.len(),
            -crate::enemies::MAX_COORD <= dx <= crate::enemies::MAX_COORD,
            -crate::enemies::MAX_COORD <= dy <= crate::enemies::MAX_COORD,
            -crate::pattern::TURN <= aim <= crate::pattern::TURN,
            delta <= MAX_DELTA,
        ensures
            final(self).wf(),
            final(self).player == old(self).player,
            final(self).cool == old(self).cool,
            final(self).enemies@.len() == old(self).enemies@.len(),
            forall|k: int|
                0 <= k < old(self).enemies@.len() && k != idx ==> final(self).enemies@[k] == old(
                    self,
                ).enemies@[k],
            friendly_count(final(self).projectiles@) == friendly_count(old(self).projectiles@),
            forall|k: int|
                0 <= k < old(self).projectiles@.len() ==> final(self).projectiles@[k] == old(
                    self,
                ).projectiles@[k],
            ({
                let e0 = old(self).enemies@[idx as int];
                let e1 = final(self).enemies@[idx as int];
                let fired = !e0.intro_playing && e0.attacks@.len() > 0 && crate::enemies::in_range(
                    dx as int,
                    dy as int,
                    e0.shooting_range as int,
                );
                &&& e1.life == e0.life
                &&& e1.moves == e0.moves
                &&& e1.shooting_range == e0.shooting_range
                &&& e1.intro_playing == e0.intro_playing
                &&& (!fired ==> e1 == e0 && final(self).projectiles@ == old(self).projectiles@)
                &&& (fired ==> {
                    let len = e0.attacks@.len() as int;
                    let cur = e0.attack_idx as int % len;
                    let a = e0.attacks@[cur];
                    let ad = a.duration.spec_tick(delta);
                    if ad.finished {
                        &&& e1.attack_idx == (cur + 1) % len
                        &&& e1.attacks@ == e0.attacks@.update(
                            cur,
                            crate::enemies::EnemyAttack { duration: ad.spec_reset(), ..a },
                        )
                        &&& final(self).projectiles@ == old(self).projectiles@
                    } else {
                        let ac = a.cooldown_timer.spec_tick(delta);
                        &&& e1.attack_idx == e0.attack_idx
                        &&& e1.attacks@ == e0.attacks@.update(
                            cur,
                            crate::enemies::EnemyAttack {
                                duration: ad,
                                cooldown_timer: ac,
                                ..a
                            },
                        )
                        &&& (ac.times_finished_this_tick == 0 ==> final(self).projectiles@ == old(
                            self,
                        ).projectiles@)
                        &&& (ac.times_finished_this_tick > 0 ==> {
                            let ps = a.shooting_pattern@;
                            let n0 = old(self).projectiles@.len() as int;
                            &&& final(self).projectiles@.len() == n0 + crate::enemies::volley_len(
                                ps,
                            )
                            &&& forall|k: int|
                                n0 <= k < final(self).projectiles@.len() ==> {
                                    let s = #[trigger] final(self).projectiles@[k];
                                    &&& s.alive
                                    &&& s.proj.hostility is Hostile
                                    &&& !s.proj.recallable
                                    &&& !s.proj.recalled
                                    &&& s.proj.dues@ == bullet_dues()
                                    &&& s.proj.direction.wf()
                                }
                            &&& (crate::enemies::all_deterministic(ps) ==> forall|k: int|
                                n0 <= k < final(self).projectiles@.len()
                                    ==> (#[trigger] final(self).projectiles@[k]).proj.direction
                                    == crate::enemies::spec_volley(
                                    aim as int,
                                    ps,
                                    a.cooldown_timer.duration as int,
                                    a.duration.duration as int,
                                    ad.elapsed as int,
                                )[k - n0])
                        })
                    }
                })
            }),
    {
        let mut e = self.enemies.remove(idx);
        let volley = e.shooting_step(dx, dy, aim, delta);
        self.enemies.insert(idx, e);
        proof {
            assert(self.enemies@ =~= old(self).enemies@.update(
                idx as int,
                self.enemies@[idx as int],
            ));
        }
        match volley {
            None => {},
            Some(dirs) => {
                let ghost pr0 = self.projectiles@;
                let ghost ds = dirs@;
                let ghost en_after = self.enemies@;
                let mut k: usize = 0;
                while k < dirs.len()
                    invariant
                        old(self).wf(),
                        self.player == old(self).player,
                        self.cool == old(self).cool,
                        self.enemies@ == en_after,
                        pr0 == old(self).projectiles@,
                        k <= ds.len(),
                        dirs@ == ds,
                        self.projectiles@.len() == pr0.len() + k,
                        friendly_count(self.projectiles@) == friendly_count(pr0),
                        forall|j: int| 0 <= j < pr0.len() ==> #[trigger] self.projectiles@[j] == pr0[j],
                        forall|j: int|
                            pr0.len() <= j < self.projectiles@.len() ==> {
                                let s = #[trigger] self.projectiles@[j];
                                &&& s.alive
                                &&& s.proj.hostility is Hostile
                                &&& !s.proj.recallable
                                &&& !s.proj.recalled
                                &&& s.proj.dues@ == bullet_dues()
                                &&& s.proj.direction == ds[j - pr0.len()]
                                &&& s.proj.wf()
                            },
                    decreases ds.len() - k,
                {
                    let d = dirs[k];
                    let p = enemy_basic_bullet(d, Hostility::Hostile);
                    let ghost before = self.projectiles@;
                    let ghost newslot = ProjSlot { proj: p, alive: true };
                    self.projectiles.push(ProjSlot { proj: p, alive: true });
                    proof {
                        lemma_friendly_push(before, newslot);
                    }
                    k = k + 1;
                }
            },
        }
    }

    /// One whole fixed tick: resolve this tick's contact events, sweep the
    /// lifecycles, advance the throw-cooldown gate, then remove everything
    /// marked for despawn and restore ammo for the retired friendly
    /// projectiles. Ammo plus friendly projectiles in flight is conserved,
    /// and afterwards every remaining projectile is alive.
    pub fn fixed_update(&mut self, contacts: &Vec<Contact>, delta: u64) -> (r: (
        Vec<Resolution>,
        Ghost<Seq<WorldView>>,
    ))
        requires
            old(self).wf(),
            delta <= MAX_DELTA,
        ensures
            final(self).wf(),
            final(self).player.ammo + friendly_count(final(self).projectiles@)
                == old(self).player.ammo + friendly_count(old(self).projectiles@),
            final(self).player.ammo >= old(self).player.ammo,
            final(self).player.cool == old(self).player.cool,
            final(self).cool.0 == old(self).cool.0.spec_tick(delta),
            final(self).enemies@.len() == old(self).enemies@.len(),
            forall|i: int|
                0 <= i < final(self).projectiles@.len()
                    ==> (#[trigger] final(self).projectiles@[i]).alive,
            r.0@.len() == contacts@.len(),
            r.1@.first() == old(self).view_of(),
            batch_resolves(contacts@, r.1@, r.0@),
    {
        let (rs, trace) = self.on_collision(contacts);
        self.update_projectiles(delta);
        self.update_cools(delta);
        self.restore_ammo();
        (rs, trace)
    }
}

} // verus!
