use vstd::prelude::*;

use crate::direction::{delta_of, Direction};
use crate::player::{clamp, cooldown_after, in_arena, run, PlayerState, ARENA_MAX};

verus! {

/// Whatever the state it starts from, a frame leaves the player on a tile of
/// the arena; from a well-formed state it leaves a well-formed one.
pub proof fn lemma_step_stays_in_arena(p: PlayerState, d: Direction)
    ensures
        in_arena(p.step(d).x, p.step(d).y),
        p.wf() ==> p.step(d).wf(),
{
}

/// Any number of frames from a well-formed state keep it well-formed.
pub proof fn lemma_run_wf(p: PlayerState, d: Direction, n: nat)
    requires
        p.wf(),
    ensures
        run(p, d, n).wf(),
        run(p, d, n).cooldown_max == p.cooldown_max,
    decreases n,
{
    if n > 0 {
        lemma_run_wf(p, d, (n - 1) as nat);
    }
}

/// Playing `a` frames and then `b` more is playing `a + b` frames.
pub proof fn lemma_run_split(p: PlayerState, d: Direction, a: nat, b: nat)
    ensures
        run(run(p, d, a), d, b) == run(p, d, a + b),
    decreases b,
{
    if b > 0 {
        lemma_run_split(p, d, a, (b - 1) as nat);
        assert((a + b - 1) as nat == a + (b - 1) as nat);
    }
}

/// Before its countdown runs out the player stays on its tile while the
/// countdown drops by one a frame.
proof fn lemma_still_before_move(p: PlayerState, d: Direction, k: nat)
    requires
        p.wf(),
        k < p.cooldown,
    ensures
        run(p, d, k).x == p.x,
        run(p, d, k).y == p.y,
        run(p, d, k).cooldown == p.cooldown - k,
        run(p, d, k).cooldown_max == p.cooldown_max,
    decreases k,
{
    if k > 0 {
        lemma_still_before_move(p, d, (k - 1) as nat);
    }
}

/// Over any `cooldown_max` consecutive frames that face `d`, the player moves
/// exactly once: it keeps its tile until its countdown runs out, then steps
/// one tile in `d` (clamped into the arena) and keeps that tile for the rest
/// of the frames. From a full countdown the step comes on the last frame.
pub proof fn lemma_one_move_per_cycle(p: PlayerState, d: Direction, k: nat)
    requires
        p.wf(),
        1 <= k <= p.cooldown_max,
    ensures
        k < p.cooldown ==> run(p, d, k).x == p.x && run(p, d, k).y == p.y,
        k >= p.cooldown ==> run(p, d, k).x == clamp(p.x + delta_of(d).0) && run(p, d, k).y
            == clamp(p.y + delta_of(d).1),
        k == p.cooldown ==> run(p, d, k).cooldown == p.cooldown_max,
{
    if k < p.cooldown {
        lemma_still_before_move(p, d, k);
    } else {
        let c = p.cooldown as nat;
        lemma_still_before_move(p, d, (c - 1) as nat);
        let q = run(p, d, c);
        assert(q == run(p, d, (c - 1) as nat).step(d));
        lemma_run_wf(p, d, c);
        let rest = (k - c) as nat;
        assert(rest < q.cooldown);
        lemma_still_before_move(q, d, rest);
        lemma_run_split(p, d, c, rest);
        assert(c + rest == k);
    }
}

/// From a full countdown, and with the next tile in `d` inside the arena, the
/// frames of one cycle that face `d` leave the player on its tile but for the
/// last one, which moves it exactly one tile in `d` and restarts the countdown.
pub proof fn lemma_step_on_last_frame(p: PlayerState, d: Direction, k: nat)
    requires
        p.wf(),
        p.cooldown == p.cooldown_max,
        in_arena(p.x + delta_of(d).0, p.y + delta_of(d).1),
        1 <= k <= p.cooldown_max,
    ensures
        k < p.cooldown_max ==> run(p, d, k).x == p.x && run(p, d, k).y == p.y,
        k == p.cooldown_max ==> run(p, d, k).x == p.x + delta_of(d).0 && run(p, d, k).y == p.y
            + delta_of(d).1 && run(p, d, k).cooldown == p.cooldown_max,
{
    lemma_one_move_per_cycle(p, d, k);
}

/// A player at the arena's edge that keeps facing out of it stays on its tile
/// for any number of frames, while its countdown runs and restarts as it
/// always does.
pub proof fn lemma_stuck_at_edge(p: PlayerState, d: Direction, n: nat)
    requires
        p.wf(),
        (p.x == 0 && d == Direction::East) || (p.x == ARENA_MAX && d == Direction::West) || (p.y
            == 0 && d == Direction::South) || (p.y == ARENA_MAX && d == Direction::North),
    ensures
        run(p, d, n).x == p.x,
        run(p, d, n).y == p.y,
        run(p, d, n).cooldown == cooldown_after(p.cooldown, p.cooldown_max, n),
    decreases n,
{
    if n > 0 {
        lemma_stuck_at_edge(p, d, (n - 1) as nat);
        lemma_run_wf(p, d, (n - 1) as nat);
    }
}

} // verus!
