//! Properties of whole runs, proved over the level's step relation: how
//! the score tallies gone projectiles, that a dead avatar stays frozen,
//! and that the restart button does nothing until the arena has cleared.
use vstd::prelude::*;

use crate::avatar::LittleGuy;
use crate::host::held;
use crate::host::BUTTON_1;
use crate::host::BUTTON_2;
use crate::host::BUTTON_DOWN;
use crate::host::BUTTON_LEFT;
use crate::host::BUTTON_RIGHT;
use crate::host::BUTTON_UP;
use crate::level::Level;

verus! {

/// Whether a tick performs the restart: only an avatar dead after its
/// own move, an arena empty after this tick's removals, and the restart
/// button held do.
pub open spec fn restart_fires(l: Level, gamepad: u8) -> bool {
    &&& l.little_guy.stepped(gamepad).is_dead
    &&& Level::survivors(l.balls@).len() == 0
    &&& held(gamepad, BUTTON_1)
}

/// The projectiles one tick scores: the ones going gone, when the
/// avatar survived its own move this tick; none otherwise.
pub open spec fn scored_gone(l: Level, gamepad: u8) -> int {
    if !l.little_guy.stepped(gamepad).is_dead {
        Level::gone_count(l.balls@)
    } else {
        0
    }
}

/// The scored gone-transitions summed over a run: `trace` holds the
/// level before and after each tick, `pads` the gamepad each tick read.
pub open spec fn scored_gone_total(trace: Seq<Level>, pads: Seq<u8>) -> int
    decreases pads.len(),
{
    if pads.len() == 0 {
        0int
    } else {
        scored_gone_total(trace.drop_last(), pads.drop_last()) + scored_gone(
            trace[pads.len() - 1],
            pads.last(),
        )
    }
}

/// One tick partitions the stepped projectiles: every projectile either
/// survives or is counted gone, so the gone count is never negative and
/// the score only grows while the avatar lives.
pub proof fn lemma_survivors_partition(bs: Seq<crate::ball::Ball>)
    ensures
        Level::survivors(bs).len() + Level::gone_count(bs) == bs.len(),
        0 <= Level::gone_count(bs) <= bs.len(),
    decreases bs.len(),
{
    if bs.len() > 0 {
        lemma_survivors_partition(bs.drop_last());
    }
}

/// The score after a run of ticks equals the score before plus the
/// cumulative count of projectiles whose gone-transition occurred while
/// the avatar was alive — provided no tick performed a restart, which
/// resets the tally.
pub proof fn lemma_score_tallies_gone(trace: Seq<Level>, pads: Seq<u8>)
    requires
        trace.len() == pads.len() + 1,
        forall|i: int|
            0 <= i < pads.len() ==> Level::step_rel(trace[i], trace[i + 1], #[trigger] pads[i]),
        forall|i: int| 0 <= i < pads.len() ==> !restart_fires(trace[i], #[trigger] pads[i]),
    ensures
        trace.last().score == trace.first().score + scored_gone_total(trace, pads),
    decreases pads.len(),
{
    if pads.len() > 0 {
        let t2 = trace.drop_last();
        let p2 = pads.drop_last();
        assert forall|i: int|
            0 <= i < p2.len() implies Level::step_rel(t2[i], t2[i + 1], #[trigger] p2[i]) by {
            assert(Level::step_rel(trace[i], trace[i + 1], pads[i]));
        }
        assert forall|i: int| 0 <= i < p2.len() implies !restart_fires(t2[i], #[trigger] p2[i]) by {
            assert(!restart_fires(trace[i], pads[i]));
        }
        lemma_score_tallies_gone(t2, p2);
        let n = pads.len() as int;
        assert(Level::step_rel(trace[n - 1], trace[n], pads[n - 1]));
    }
}

/// Once the avatar is dead, its position is frozen for all subsequent
/// ticks until a restart: over any run that starts with a dead avatar
/// and performs no restart, every state holds the avatar dead at the
/// starting position.
pub proof fn lemma_dead_avatar_frozen(trace: Seq<Level>, pads: Seq<u8>)
    requires
        trace.len() == pads.len() + 1,
        forall|i: int|
            0 <= i < pads.len() ==> Level::step_rel(trace[i], trace[i + 1], #[trigger] pads[i]),
        forall|i: int| 0 <= i < pads.len() ==> !restart_fires(trace[i], #[trigger] pads[i]),
        trace.first().little_guy.is_dead,
    ensures
        forall|i: int|
            0 <= i < trace.len() ==> {
                &&& (#[trigger] trace[i]).little_guy.x == trace.first().little_guy.x
                &&& trace[i].little_guy.y == trace.first().little_guy.y
                &&& trace[i].little_guy.is_dead
            },
    decreases pads.len(),
{
    if pads.len() > 0 {
        let t2 = trace.drop_last();
        let p2 = pads.drop_last();
        assert forall|i: int|
            0 <= i < p2.len() implies Level::step_rel(t2[i], t2[i + 1], #[trigger] p2[i]) by {
            assert(Level::step_rel(trace[i], trace[i + 1], pads[i]));
        }
        assert forall|i: int| 0 <= i < p2.len() implies !restart_fires(t2[i], #[trigger] p2[i]) by {
            assert(!restart_fires(trace[i], pads[i]));
        }
        lemma_dead_avatar_frozen(t2, p2);
        let n = pads.len() as int;
        let first = trace.first();
        assert(t2.first() == first);
        assert forall|i: int|
            0 <= i < trace.len() implies {
                &&& (#[trigger] trace[i]).little_guy.x == first.little_guy.x
                &&& trace[i].little_guy.y == first.little_guy.y
                &&& trace[i].little_guy.is_dead
            } by {
            if i < n {
                assert(t2[i] == trace[i]);
                assert(t2[i].little_guy.x == t2.first().little_guy.x && t2[i].little_guy.y
                    == t2.first().little_guy.y && t2[i].little_guy.is_dead);
            } else {
                assert(t2[n - 1] == trace[n - 1]);
                assert(t2[n - 1].little_guy.x == t2.first().little_guy.x && t2[n
                    - 1].little_guy.y == t2.first().little_guy.y && t2[n - 1].little_guy.is_dead);
                assert(Level::step_rel(trace[n - 1], trace[n], pads[n - 1]));
                assert(!restart_fires(trace[n - 1], pads[n - 1]));
                let a1 = trace[n - 1].little_guy.stepped(pads[n - 1]);
                assert(a1.x == trace[n - 1].little_guy.x && a1.y == trace[n - 1].little_guy.y
                    && a1.is_dead);
                assert(trace[n].little_guy == a1);
            }
        }
    }
}

/// A fresh, tick-zero state is only reachable one way: if a tick ends
/// at tick count zero, the avatar was dead after its move, and either
/// the run had never ticked or the arena had cleared and the restart
/// button was held.
pub proof fn lemma_restart_gated(pre: Level, post: Level, gamepad: u8)
    requires
        pre.wf(),
        Level::step_rel(pre, post, gamepad),
        post.ticks == 0,
    ensures
        pre.little_guy.stepped(gamepad).is_dead,
        pre.ticks == 0 || (Level::survivors(pre.balls@).len() == 0 && held(gamepad, BUTTON_1)),
{
}

/// Two gamepad masks that agree on every button the simulation reads
/// while the game is live — the four directions and the cheat button.
/// They may differ on the restart button.
pub open spec fn same_controls(g1: u8, g2: u8) -> bool {
    &&& held(g1, BUTTON_LEFT) == held(g2, BUTTON_LEFT)
    &&& held(g1, BUTTON_RIGHT) == held(g2, BUTTON_RIGHT)
    &&& held(g1, BUTTON_UP) == held(g2, BUTTON_UP)
    &&& held(g1, BUTTON_DOWN) == held(g2, BUTTON_DOWN)
    &&& held(g1, BUTTON_2) == held(g2, BUTTON_2)
}

/// The avatar reads only the directions and the cheat button.
pub proof fn lemma_avatar_ignores_restart_button(a: LittleGuy, g1: u8, g2: u8)
    requires
        same_controls(g1, g2),
    ensures
        a.stepped(g1) == a.stepped(g2),
{
}

/// Pressing restart at any other time is a no-op: unless the avatar is
/// dead with the arena cleared, a tick relates the same states and emits
/// the same tones whether or not the restart button is held.
pub proof fn lemma_restart_noop_unless_cleared(pre: Level, post: Level, g1: u8, g2: u8)
    requires
        Level::step_rel(pre, post, g1),
        same_controls(g1, g2),
        !(pre.little_guy.stepped(g1).is_dead && Level::survivors(pre.balls@).len() == 0),
    ensures
        Level::step_rel(pre, post, g2),
        Level::level_tones(pre, g1) == Level::level_tones(pre, g2),
{
    lemma_avatar_ignores_restart_button(pre.little_guy, g1, g2);
}

} // verus!
