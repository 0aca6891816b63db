//! "Star Wars Blaster Challenge": an X-wing at the bottom of the screen shoots
//! at TIE fighters falling from the top; being rammed costs a life.
//!
//! Positions and movement are floating point and stay with the caller; this
//! module holds the integer part of the game: the frame counter, lives,
//! score, the pacing of enemy spawns and the life markers of the display.

use vstd::prelude::*;
use crate::host::Draws;

verus! {

/// Lives at the start of a game.
pub const START_LIVES: i32 = 3;

/// The screen width.
pub const SCREEN_W: u32 = 320;

/// Enemies spawn after more than `SPAWN_BASE - min(score, SPAWN_SPEEDUP_CAP)`
/// frames since the last one.
pub const SPAWN_BASE: u32 = 61;

pub const SPAWN_SPEEDUP_CAP: u32 = 60;

/// The integer part of the game's state.
#[derive(Clone, Copy, Debug, PartialEq, Eq, Structural)]
pub struct Counters {
    pub frame: u32,
    pub lives: i32,
    pub score: u32,
    pub last_enemy_spawn: u32,
}

/// A new enemy: its column and its falling speed in pixels per frame.
#[derive(Clone, Copy, Debug, PartialEq, Eq, Structural)]
pub struct EnemySpawn {
    pub x: u32,
    pub dy: u32,
}

/// The frames that must pass, strictly, between two spawns at score `score`.
pub open spec fn spawn_gap(score: u32) -> int {
    SPAWN_BASE - (if score < SPAWN_SPEEDUP_CAP {
        score as int
    } else {
        SPAWN_SPEEDUP_CAP as int
    })
}

/// The enemy that two random numbers give: a column on the screen and a
/// speed of one to three pixels per frame.
pub open spec fn spec_enemy(rx: u32, rdy: u32) -> EnemySpawn {
    EnemySpawn { x: (rx % SCREEN_W) as u32, dy: (rdy % 3 + 1) as u32 }
}

pub fn enemy_from_rolls(rx: u32, rdy: u32) -> (e: EnemySpawn)
    ensures
        e == spec_enemy(rx, rdy),
{
    EnemySpawn { x: rx % SCREEN_W, dy: rdy % 3 + 1 }
}

/// The x positions of the life markers: one per life, from the right edge
/// leftwards, twenty pixels apart.
pub open spec fn spec_markers(lives: i32) -> Seq<i32> {
    Seq::new(lives as nat, |i: int| (300 - i * 20) as i32)
}

impl Counters {
    /// The last spawn never lies in the future.
    pub open spec fn wf(self) -> bool {
        self.last_enemy_spawn <= self.frame
    }

    /// The counters at the start of the first game.
    pub fn new() -> (c: Counters)
        ensures
            c == (Counters { frame: 0, lives: START_LIVES, score: 0, last_enemy_spawn: 0 }),
            c.wf(),
    {
        Counters { frame: 0, lives: START_LIVES, score: 0, last_enemy_spawn: 0 }
    }

    /// The fire button was pressed: once the game is over (no lives left), it
    /// first starts a new game with full lives and no score. Returns whether
    /// it did.
    pub fn fire(&mut self) -> (restarted: bool)
        ensures
            restarted == (old(self).lives <= 0),
            restarted ==> *final(self) == (Counters {
                lives: START_LIVES,
                score: 0,
                ..*old(self)
            }),
            !restarted ==> *final(self) == *old(self),
    {
        if self.lives <= 0 {
            self.lives = START_LIVES;
            self.score = 0;
            true
        } else {
            false
        }
    }

    /// An enemy is due once more than [`spawn_gap`] frames have passed since
    /// the last one.
    pub open spec fn spec_spawn_due(self) -> bool {
        self.frame - self.last_enemy_spawn > spawn_gap(self.score)
    }

    pub fn spawn_due(&self) -> (due: bool)
        requires
            self.wf(),
        ensures
            due == self.spec_spawn_due(),
    {
        let cap = if self.score < SPAWN_SPEEDUP_CAP {
            self.score
        } else {
            SPAWN_SPEEDUP_CAP
        };
        self.frame - self.last_enemy_spawn > SPAWN_BASE - cap
    }

    /// Spawns an enemy when one is due, drawing its column and then its speed
    /// from `draws`, and records the frame of the spawn. An enemy is due once
    /// more than `61 - min(score, 60)` frames have passed since the last one;
    /// its column is the first number drawn mod 320 and its speed the second
    /// mod 3, plus one.
    pub fn try_spawn_from(&mut self, draws: &mut Draws) -> (e: Option<EnemySpawn>)
        requires
            old(self).wf(),
        ensures
            ({
                let c = *old(self);
                let d = old(draws).drawn();
                let n = final(draws).drawn();
                let i = d.len() as int;
                let due = c.frame - c.last_enemy_spawn > 61 - (if c.score < 60 {
                    c.score as int
                } else {
                    60
                });
                &&& (e is Some) == due
                &&& due == c.spec_spawn_due()
                &&& due ==> n.len() == d.len() + 2 && n.subrange(0, i) == d
                    && e == Some(EnemySpawn { x: n[i] % 320, dy: (n[i + 1] % 3 + 1) as u32 })
                &&& due ==> *final(self) == (Counters { last_enemy_spawn: c.frame, ..c })
                &&& !due ==> n == d && *final(self) == c
            }),
            final(self).wf(),
    {
        if self.spawn_due() {
            let ghost d = draws.drawn();
            let rx = draws.draw();
            let rdy = draws.draw();
            let en = enemy_from_rolls(rx, rdy);
            proof {
                assert(draws.drawn().subrange(0, d.len() as int) =~= d);
            }
            self.last_enemy_spawn = self.frame;
            Some(en)
        } else {
            None
        }
    }

    /// Spawns an enemy when one is due, drawing its column and its speed from
    /// the host's random numbers, as [`Counters::try_spawn_from`] does.
    pub fn try_spawn(&mut self) -> (e: Option<EnemySpawn>)
        requires
            old(self).wf(),
        ensures
            e is Some == old(self).spec_spawn_due(),
            e matches Some(en) ==> exists|rx: u32, rdy: u32| en == spec_enemy(rx, rdy),
            e is Some ==> *final(self) == (Counters {
                last_enemy_spawn: old(self).frame,
                ..*old(self)
            }),
            e is None ==> *final(self) == *old(self),
            final(self).wf(),
    {
        let mut draws = Draws::new();
        let e = self.try_spawn_from(&mut draws);
        proof {
            let n = draws.drawn();
            if e is Some {
                assert(e->0 == spec_enemy(n[0], n[1]));
            }
        }
        e
    }

    /// A shot hit an enemy.
    pub fn score_hit(&mut self)
        requires
            old(self).score < u32::MAX,
        ensures
            *final(self) == (Counters { score: (old(self).score + 1) as u32, ..*old(self) }),
    {
        self.score = self.score + 1;
    }

    /// An enemy rammed the ship.
    pub fn lose_life(&mut self)
        requires
            old(self).lives > i32::MIN,
        ensures
            *final(self) == (Counters { lives: (old(self).lives - 1) as i32, ..*old(self) }),
    {
        self.lives = self.lives - 1;
    }

    /// Drawing the life markers computes without `i32` overflow.
    pub open spec fn markers_defined(self) -> bool {
        self.lives <= 0 || (self.lives - 1) * 20 <= i32::MAX
    }

    /// The life markers to draw, or `None` once the game is over.
    pub fn life_markers(&self) -> (m: Option<Vec<i32>>)
        requires
            self.markers_defined(),
        ensures
            self.lives <= 0 ==> m is None,
            self.lives > 0 ==> (m matches Some(v) && v@ == spec_markers(self.lives)),
    {
        if self.lives <= 0 {
            return None;
        }
        let mut xs: Vec<i32> = Vec::new();
        let mut i: i32 = 0;
        while i < self.lives
            invariant
                0 <= i <= self.lives,
                (self.lives - 1) * 20 <= i32::MAX,
                xs@ =~= spec_markers(i),
            decreases self.lives - i,
        {
            assert(i * 20 <= (self.lives - 1) * 20) by (nonlinear_arith)
                requires
                    0 <= i < self.lives,
            ;
            xs.push(300 - i * 20);
            i = i + 1;
            assert(xs@ =~= spec_markers(i));
        }
        Some(xs)
    }

    /// Ends a frame.
    pub fn end_frame(&mut self)
        requires
            old(self).frame < u32::MAX,
        ensures
            *final(self) == (Counters { frame: (old(self).frame + 1) as u32, ..*old(self) }),
            old(self).wf() ==> final(self).wf(),
    {
        self.frame = self.frame + 1;
    }
}

/// Law: spawns are at least two frames apart, a higher score never delays a
/// spawn, and from a score of sixty on the pace no longer quickens.
pub proof fn spawn_pacing(c: Counters, score2: u32)
    requires
        c.wf(),
    ensures
        c.spec_spawn_due() ==> c.frame - c.last_enemy_spawn >= 2,
        c.score <= score2 && c.spec_spawn_due() ==> (Counters { score: score2, ..c }).spec_spawn_due(),
        c.score >= SPAWN_SPEEDUP_CAP && score2 >= SPAWN_SPEEDUP_CAP ==> (Counters {
            score: score2,
            ..c
        }).spec_spawn_due() == c.spec_spawn_due(),
{
}

/// Law: every enemy appears on the screen and falls at one to three pixels a
/// frame.
pub proof fn enemies_are_on_screen(rx: u32, rdy: u32)
    ensures
        spec_enemy(rx, rdy).x < SCREEN_W,
        1 <= spec_enemy(rx, rdy).dy <= 3,
{
}

/// Law: there is one life marker per life, the first at x = 300 and each next
/// one twenty pixels further left.
pub proof fn markers_layout(lives: i32)
    requires
        lives > 0,
        (lives - 1) * 20 <= i32::MAX,
    ensures
        spec_markers(lives).len() == lives,
        spec_markers(lives)[0] == 300,
        forall|i: int|
            0 < i < lives ==> #[trigger] spec_markers(lives)[i] == spec_markers(lives)[i - 1] - 20,
{
    assert forall|i: int| 0 < i < lives implies #[trigger] spec_markers(lives)[i] == spec_markers(
        lives,
    )[i - 1] - 20 by {
        assert(i * 20 <= (lives - 1) * 20) by (nonlinear_arith)
            requires
                0 < i < lives,
        ;
    }
}

/// Law: an enemy is due exactly when more than `61 - min(score, 60)` frames
/// have passed since the last spawn, and the enemy two random numbers give
/// stands in column `rx % 320` and falls at `rdy % 3 + 1` pixels per frame.
pub proof fn spawn_rules(c: Counters, rx: u32, rdy: u32)
    ensures
        c.spec_spawn_due() == (c.frame - c.last_enemy_spawn > 61 - (if c.score < 60 {
            c.score as int
        } else {
            60
        })),
        spec_enemy(rx, rdy).x == rx % 320,
        spec_enemy(rx, rdy).dy == rdy % 3 + 1,
{
}

} // verus!
