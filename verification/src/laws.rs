//! Laws of the session, proved over the step functions: ball speed is
//! invariant under ticks, paddles stay in their band, selections stay within
//! the options, and a mouse release with no drag active changes nothing.

use vstd::prelude::*;

use crate::session::{key_step, mouse_move_step, mouse_up_step, tick_step};
use crate::state::{Game, Key, MouseButton, MAX_SELECTION, PADDLE_HEIGHT, WINDOW_HEIGHT};

verus! {

/// The state after n ticks.
pub open spec fn ticked(g: Game, n: nat) -> Game
    decreases n,
{
    if n == 0 {
        g
    } else {
        tick_step(ticked(g, (n - 1) as nat))
    }
}

/// The state after a sequence of key presses, in order.
pub open spec fn keys_applied(g: Game, ks: Seq<Key>) -> Game
    decreases ks.len(),
{
    if ks.len() == 0 {
        g
    } else {
        keys_applied(key_step(g, ks[0]), ks.drop_first())
    }
}

/// A tick keeps the session well formed.
pub proof fn lemma_tick_preserves_wf(g: Game)
    requires
        g.wf(),
    ensures
        tick_step(g).wf(),
{
}

/// One tick never changes the ball's speed: each velocity component comes
/// out unchanged or negated, so the sum of the squared components stays
/// what it was.
pub proof fn lemma_tick_preserves_speed(g: Game)
    requires
        g.wf(),
    ensures
        tick_step(g).ball_vx == g.ball_vx || tick_step(g).ball_vx == -g.ball_vx,
        tick_step(g).ball_vy == g.ball_vy || tick_step(g).ball_vy == -g.ball_vy,
        tick_step(g).ball_vx * tick_step(g).ball_vx + tick_step(g).ball_vy * tick_step(g).ball_vy
            == g.ball_vx * g.ball_vx + g.ball_vy * g.ball_vy,
{
    let a = g.ball_vx as int;
    let b = g.ball_vy as int;
    assert((-a) * (-a) == a * a) by (nonlinear_arith);
    assert((-b) * (-b) == b * b) by (nonlinear_arith);
}

/// Across any number of ticks the ball's speed is invariant: walls and
/// paddles only ever flip a velocity component's sign, so each component's
/// magnitude, and with it the speed, stays what it was.
pub proof fn lemma_ticks_preserve_speed(g: Game, n: nat)
    requires
        g.wf(),
    ensures
        ticked(g, n).wf(),
        ticked(g, n).ball_vx == g.ball_vx || ticked(g, n).ball_vx == -g.ball_vx,
        ticked(g, n).ball_vy == g.ball_vy || ticked(g, n).ball_vy == -g.ball_vy,
        ticked(g, n).ball_vx * ticked(g, n).ball_vx + ticked(g, n).ball_vy * ticked(g, n).ball_vy
            == g.ball_vx * g.ball_vx + g.ball_vy * g.ball_vy,
    decreases n,
{
    if n > 0 {
        lemma_ticks_preserve_speed(g, (n - 1) as nat);
        lemma_tick_preserves_wf(ticked(g, (n - 1) as nat));
        lemma_tick_preserves_speed(ticked(g, (n - 1) as nat));
    }
}

/// A drag always leaves the dragged paddle inside the band
/// [0, window height - paddle height]: the cursor's y is clamped to it.
pub proof fn lemma_drag_keeps_paddles_in_band(g: Game, y: int)
    ensures
        g.left_paddle_dragging ==> 0 <= mouse_move_step(g, y).left_paddle_y <= WINDOW_HEIGHT
            - PADDLE_HEIGHT,
        !g.left_paddle_dragging && g.right_paddle_dragging ==> 0 <= mouse_move_step(
            g,
            y,
        ).right_paddle_y <= WINDOW_HEIGHT - PADDLE_HEIGHT,
{
}

/// Any key step leaves both paddles inside the band
/// [0, window height - paddle height]: a key move is clamped to it, and
/// every other key leaves the paddles where they were.
pub proof fn lemma_key_moves_keep_paddles_in_band(g: Game, k: Key)
    requires
        0 <= g.left_paddle_y <= WINDOW_HEIGHT - PADDLE_HEIGHT,
        0 <= g.right_paddle_y <= WINDOW_HEIGHT - PADDLE_HEIGHT,
    ensures
        0 <= key_step(g, k).left_paddle_y <= WINDOW_HEIGHT - PADDLE_HEIGHT,
        0 <= key_step(g, k).right_paddle_y <= WINDOW_HEIGHT - PADDLE_HEIGHT,
{
}

/// Whatever keys arrive, in any order and number, both selection indices
/// stay within the four options.
pub proof fn lemma_selections_stay_in_range(g: Game, ks: Seq<Key>)
    requires
        g.menu_selection <= MAX_SELECTION,
        g.pause_selection <= MAX_SELECTION,
    ensures
        keys_applied(g, ks).menu_selection <= MAX_SELECTION,
        keys_applied(g, ks).pause_selection <= MAX_SELECTION,
    decreases ks.len(),
{
    if ks.len() > 0 {
        lemma_selections_stay_in_range(key_step(g, ks[0]), ks.drop_first());
    }
}

/// Releasing a mouse button while no drag is active changes nothing.
pub proof fn lemma_mouse_up_without_drag_is_noop(g: Game, b: MouseButton)
    requires
        !g.left_paddle_dragging,
        !g.right_paddle_dragging,
    ensures
        mouse_up_step(g, b) == g,
{
}

} // verus!
