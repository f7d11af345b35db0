use vstd::prelude::*;

use crate::bricks::alive_count;
use crate::bricks::dead_count;
use crate::bricks::lemma_alive_dead_partition;
use crate::bricks::lemma_counts_after_kill;
use crate::entities::UserInput;
use crate::game::advance_spec;
use crate::game::advance_status;
use crate::game::after_bricks;
use crate::game::ball_missed;
use crate::game::first_hit;
use crate::game::lemma_advance_preserves_wf;
use crate::game::lemma_after_bricks_wf;
use crate::game::lemma_first_hit_props;
use crate::game::terminal;
use crate::game::wf;
use crate::game::GameV;
use crate::game::Status;

verus! {

/// A tick never revives a brick and never changes brick geometry: the
/// alive and dead counts still partition the field afterwards, the alive
/// count never grows, and every brick dead before the tick is dead after
/// it.
pub proof fn lemma_bricks_monotonic(g: GameV)
    requires
        wf(g),
        !terminal(g),
    ensures
        alive_count(advance_spec(g).bricks) + dead_count(advance_spec(g).bricks) == advance_spec(
            g,
        ).bricks.len(),
        advance_spec(g).bricks.len() == g.bricks.len(),
        alive_count(advance_spec(g).bricks) <= alive_count(g.bricks),
        forall|i: int|
            0 <= i < g.bricks.len() && !g.bricks[i].alive ==> !(#[trigger] advance_spec(
                g,
            ).bricks[i]).alive,
        forall|i: int|
            0 <= i < g.bricks.len() ==> (#[trigger] advance_spec(g).bricks[i]).x == g.bricks[i].x
                && advance_spec(g).bricks[i].y == g.bricks[i].y && advance_spec(g).bricks[i].width
                == g.bricks[i].width && advance_spec(g).bricks[i].height == g.bricks[i].height,
{
    let k = first_hit(g.bricks, g.ball.x as int, g.ball.y as int);
    lemma_first_hit_props(g.bricks, g.ball.x as int, g.ball.y as int, 0);
    lemma_alive_dead_partition(g.bricks);
    if k >= 0 {
        lemma_counts_after_kill(g.bricks, k, crate::entities::Brick { alive: false, ..g.bricks[k] });
    }
    assert(advance_spec(g).bricks == after_bricks(g).bricks);
}

/// The paddle never leaves the canvas: after any tick its left edge is at
/// least 0 and its right edge at most the canvas width.
pub proof fn lemma_paddle_in_bounds(g: GameV)
    requires
        wf(g),
        !terminal(g),
    ensures
        0 <= advance_spec(g).paddle.x,
        advance_spec(g).paddle.x + advance_spec(g).paddle.width <= g.canvas_width,
        advance_spec(g).paddle.width == g.paddle.width,
{
    lemma_advance_preserves_wf(g);
}

/// The score never exceeds the brick count, and a tick reports `Won`
/// exactly when the score has reached it — that is, when the last brick
/// has been destroyed.
pub proof fn lemma_won_iff_cleared(g: GameV)
    requires
        wf(g),
        !terminal(g),
    ensures
        advance_spec(g).score <= g.bricks.len(),
        advance_status(g) == Status::Won <==> advance_spec(g).score == g.bricks.len(),
{
    lemma_after_bricks_wf(g);
    lemma_alive_dead_partition(after_bricks(g).bricks);
}

/// `Lost` is reported exactly when the last life is lost to a missed
/// ball: one life remains, the tick has not already been won, and the
/// projected ball crosses the bottom boundary outside the paddle span.
/// The lives then transition from 1 to 0.
pub proof fn lemma_lost_iff_last_miss(g: GameV)
    requires
        wf(g),
        !terminal(g),
    ensures
        advance_status(g) == Status::Lost <==> (after_bricks(g).score != g.bricks.len()
            && ball_missed(after_bricks(g)) && g.lives == 1),
        advance_status(g) == Status::Lost ==> advance_spec(g).lives == 0,
{
    lemma_after_bricks_wf(g);
}

/// The states a session runs through from snapshot `g` under a given
/// sequence of input snapshots, one tick per input.
pub open spec fn run_trace(g: GameV, inputs: Seq<UserInput>) -> Seq<GameV>
    decreases inputs.len(),
{
    if inputs.len() == 0 {
        Seq::empty()
    } else {
        let g1 = advance_spec(GameV { input: inputs[0], ..g });
        seq![g1] + run_trace(g1, inputs.drop_first())
    }
}

/// Every state of a replay stays well formed while play continues: as
/// long as no earlier tick reached a terminal state, the snapshot after
/// tick `i` still satisfies `wf` — in particular the paddle is still on
/// the canvas and the score still counts the destroyed bricks, at every
/// tick.
pub proof fn lemma_trace_stays_wf(g: GameV, inputs: Seq<UserInput>, i: int)
    requires
        wf(g),
        !terminal(g),
        0 <= i < run_trace(g, inputs).len(),
        forall|j: int| 0 <= j < i ==> !terminal(#[trigger] run_trace(g, inputs)[j]),
    ensures
        wf(run_trace(g, inputs)[i]),
    decreases i,
{
    let g0 = GameV { input: inputs[0], ..g };
    assert(wf(g0));
    assert(!terminal(g0));
    lemma_advance_preserves_wf(g0);
    let g1 = advance_spec(g0);
    let rest = run_trace(g1, inputs.drop_first());
    assert(run_trace(g, inputs) == seq![g1] + rest);
    if i > 0 {
        assert(run_trace(g, inputs)[i] == rest[i - 1]);
        assert(!terminal(g1)) by {
            assert(run_trace(g, inputs)[0] == g1);
        }
        assert forall|j: int| 0 <= j < i - 1 implies !terminal(#[trigger] rest[j]) by {
            assert(rest[j] == run_trace(g, inputs)[j + 1]);
        }
        lemma_trace_stays_wf(g1, inputs.drop_first(), i - 1);
    }
}

/// Deterministic replay: the tick transition is a pure function of the
/// session snapshot, so identical starting snapshots fed identical
/// sequences of input snapshots run through identical state sequences —
/// there is no hidden randomness. `advance`'s postcondition ties every
/// executable session to `advance_spec`, so the same holds of executable
/// runs.
pub proof fn lemma_deterministic_replay(a: GameV, b: GameV, inputs: Seq<UserInput>)
    requires
        a == b,
    ensures
        run_trace(a, inputs) == run_trace(b, inputs),
{
}

} // verus!
