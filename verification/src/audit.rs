//! Checks, on a world as it is, what should always be true of it.

use crate::data::GameData;
use crate::entities::Entities;
use crate::momentum::Momentum;
use vstd::prelude::*;

verus! {

/// Whether the momentum is within its limit.
pub fn momentum_is_wf(m: &Momentum) -> (b: bool)
    ensures
        b == m.wf(),
{
    let mx: i64 = m.mx as i64;
    let my: i64 = m.my as i64;
    let max: i64 = m.max as i64;
    max >= 0 && -max <= mx && mx <= max && -max <= my && my <= max
}

impl Entities {
    /// Whether every momentum is within its limit.
    pub fn momentum_is_bounded(&self) -> (b: bool)
        ensures
            b == self@.momentum_bounded(),
    {
        let mut a: usize = 0;
        while a < self.momentum.len()
            invariant
                0 <= a <= self@.momentum.len(),
                forall|i: int|
                    0 <= i < a ==> (#[trigger] self@.momentum[i] matches Some(m) ==> m.wf()),
            decreases self@.momentum.len() - a,
        {
            match self.momentum.get(a) {
                Some(m) => {
                    if !momentum_is_wf(&m) {
                        assert(!(self@.momentum[a as int] matches Some(m) ==> m.wf()));
                        return false;
                    }
                },
                None => {},
            }
            a = a + 1;
        }
        true
    }

    /// Whether no entity without hit points is alive or blocks its tile.
    pub fn is_dead_when_spent(&self) -> (b: bool)
        requires
            self.wf(),
        ensures
            b == self@.dead_when_spent(true),
    {
        assert(self@.wf());
        let mut a: usize = 0;
        while a < self.fighter.len()
            invariant
                self@.wf(),
                0 <= a <= self@.fighter.len(),
                forall|i: int| 0 <= i < a ==> !#[trigger] self@.spent(i, true),
            decreases self@.fighter.len() - a,
        {
            let spent_out: bool = match self.fighter.get(a) {
                Some(f) => f.hp <= 0,
                None => false,
            };
            let alive: bool = match self.status.get(a) {
                Some(s) => s.alive,
                None => false,
            };
            if spent_out && (alive || self.blocks.get(a) == Some(true)) {
                assert(self@.spent(a as int, true));
                return false;
            }
            a = a + 1;
        }
        true
    }

    /// Whether no two entities that block movement stand on one tile.
    pub fn blockers_are_apart(&self) -> (b: bool)
        requires
            self.wf(),
        ensures
            b == self@.blockers_apart(),
    {
        assert(self@.wf());
        let n: usize = self.pos.len();
        let mut a: usize = 0;
        while a < n
            invariant
                self@.wf(),
                n == self@.pos.len(),
                0 <= a <= n,
                forall|i: int, j: int|
                    #![trigger self@.blocks[i], self@.blocks[j]]
                    0 <= i < a && 0 <= j < n && i != j && self@.blocks[i] == Some(true)
                        && self@.blocks[j] == Some(true) && self@.pos[i] is Some ==> self@.pos[i]
                        != self@.pos[j],
            decreases n - a,
        {
            if self.blocks.get(a) == Some(true) && self.pos.get(a).is_some() {
                let mut c: usize = 0;
                while c < n
                    invariant
                        self@.wf(),
                        n == self@.pos.len(),
                        0 <= a < n,
                        0 <= c <= n,
                        self@.blocks[a as int] == Some(true),
                        self@.pos[a as int] is Some,
                        forall|j: int|
                            #![trigger self@.blocks[j]]
                            0 <= j < c && j != a && self@.blocks[j] == Some(true)
                                ==> self@.pos[a as int] != self@.pos[j],
                    decreases n - c,
                {
                    if c != a && self.blocks.get(c) == Some(true) && self.pos.get(c)
                        == self.pos.get(a) {
                        assert(self@.blocks[a as int] == Some(true) && self@.blocks[c as int]
                            == Some(true));
                        return false;
                    }
                    c = c + 1;
                }
            }
            a = a + 1;
        }
        true
    }
}

impl GameData {
    /// Whether every entity that blocks movement stands on the map.
    pub fn blockers_are_on_map(&self) -> (b: bool)
        requires
            self.wf(),
        ensures
            b == self@.blockers_on_map(),
    {
        assert(self.entities@.wf());
        let n: usize = self.entities.pos.len();
        let mut a: usize = 0;
        while a < n
            invariant
                self.wf(),
                self.entities@.wf(),
                n == self@.entities.pos.len(),
                0 <= a <= n,
                forall|i: int|
                    0 <= i < a && #[trigger] self@.entities.blocks[i] == Some(true)
                        && self@.entities.pos[i] is Some ==> self@.map.in_bounds(
                        self@.entities.pos[i]->0,
                    ),
            decreases n - a,
        {
            if self.entities.blocks.get(a) == Some(true) {
                match self.entities.pos.get(a) {
                    Some(p) => {
                        if !self.map.is_within_bounds(p.0, p.1) {
                            assert(self@.entities.blocks[a as int] == Some(true));
                            return false;
                        }
                    },
                    None => {},
                }
            }
            a = a + 1;
        }
        true
    }

    /// Whether the world is as it should be between turns: it is well
    /// formed, no two entities that block movement stand on one tile, each
    /// of them stands on the map, every momentum is within its limit, and
    /// no entity without hit points is alive or blocks its tile.
    pub fn is_sound(&self) -> (b: bool)
        ensures
            b == (self.wf() && self@.entities.valid() && self@.blockers_on_map()
                && self@.entities.dead_when_spent(true)),
    {
        self.is_wf() && self.entities.blockers_are_apart() && self.entities.momentum_is_bounded()
            && self.blockers_are_on_map() && self.entities.is_dead_when_spent()
    }
}

} // verus!
