//! The player's combat resources: life, ammo and the throw-cooldown
//! duration. Both life counters in the game (the player's and an
//! attacker's) fall by saturating subtraction and can never go negative.

use vstd::prelude::*;

use crate::timer::{MAX_DURATION, TICKS_PER_SECOND};

verus! {

/// The player's combat state. `cool` is the duration (in ticks) of the
/// throw-cooldown gate armed after each throw.
#[derive(Clone, Copy, Debug, PartialEq, Eq, Structural)]
pub struct Player {
    pub life: usize,
    pub ammo: usize,
    pub cool: u64,
}

impl Player {
    pub open spec fn wf(self) -> bool {
        1 <= self.cool <= MAX_DURATION
    }
}

impl Default for Player {
    /// Three lives, three shots, a one-second throw cooldown.
    fn default() -> (p: Player)
        ensures
            p.life == 3,
            p.ammo == 3,
            p.cool == TICKS_PER_SECOND,
            p.wf(),
    {
        Player { life: 3, ammo: 3, cool: TICKS_PER_SECOND }
    }
}

/// A life counter after one hit: down by one, saturating at zero.
pub open spec fn sat_dec(life: int) -> int {
    if life > 0 {
        life - 1
    } else {
        0
    }
}

/// A life counter after `k` hits.
pub open spec fn after_hits(life: int, k: int) -> int
    decreases k,
{
    if k <= 0 {
        life
    } else {
        sat_dec(after_hits(life, k - 1))
    }
}

/// Law: under any number of hits, a life counter lands exactly on
/// `life - k`, saturating at zero — it never goes negative.
pub proof fn lemma_life_saturates(life: int, k: int)
    requires
        life >= 0,
        k >= 0,
    ensures
        after_hits(life, k) == if k <= life { life - k } else { 0int },
        after_hits(life, k) >= 0,
    decreases k,
{
    if k > 0 {
        lemma_life_saturates(life, k - 1);
    }
}

impl Player {
    /// One hit from a hostile projectile: life falls by one, never below
    /// zero.
    pub fn take_hit(&mut self)
        ensures
            final(self).life == sat_dec(old(self).life as int),
            final(self).ammo == old(self).ammo,
            final(self).cool == old(self).cool,
            old(self).wf() ==> final(self).wf(),
    {
        if self.life > 0 {
            self.life = self.life - 1;
        }
    }

    /// Restore ammo when friendly projectiles are retired.
    pub fn increment_ammo(&mut self, n: usize)
        requires
            old(self).ammo + n <= usize::MAX,
        ensures
            final(self).ammo == old(self).ammo + n,
            final(self).life == old(self).life,
            final(self).cool == old(self).cool,
            old(self).wf() ==> final(self).wf(),
    {
        self.ammo = self.ammo + n;
    }

    /// Spend ammo on a throw, saturating at zero.
    pub fn decrement_ammo(&mut self, n: usize)
        ensures
            final(self).ammo == if old(self).ammo >= n {
                old(self).ammo - n
            } else {
                0int
            },
            final(self).life == old(self).life,
            final(self).cool == old(self).cool,
            old(self).wf() ==> final(self).wf(),
    {
        if self.ammo >= n {
            self.ammo = self.ammo - n;
        } else {
            self.ammo = 0;
        }
    }
}

} // verus!
