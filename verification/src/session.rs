//! The session's operations: starting, restarting and stopping a game, the
//! per-frame physics tick, and the keyboard and mouse event handlers.
//!
//! Each operation's effect is stated as a spec-level step function on `Game`;
//! the executable methods are proved to compute exactly that step.

use vstd::prelude::*;

use crate::geometry::{
    clamp_i32, clamped, in_rect, in_rect_half_open, rect_contains, rect_contains_half_open,
};
use crate::state::{
    speed_of, Difficulty, Game, Key, MouseButton, Screen, BALL_CENTER_X, BALL_CENTER_Y,
    BALL_RADIUS, MAX_SELECTION, MENU_OPTION_HEIGHT, MENU_OPTION_WIDTH, MENU_TOP, MENU_X,
    PADDLE_CENTER_Y, PADDLE_HEIGHT, PADDLE_SPEED, PADDLE_WIDTH, RIGHT_PADDLE_X, WINDOW_HEIGHT,
};

verus! {

// ---------------------------------------------------------------------------
// Step functions: the mathematical model of each operation.
// ---------------------------------------------------------------------------

/// Launch a game at the session's difficulty: both velocity components are
/// set to the difficulty's speed (rightward and downward), and play begins.
pub open spec fn started(g: Game) -> Game {
    Game { ball_vx: speed_of(g.difficulty), ball_vy: speed_of(g.difficulty), screen: Screen::Playing, ..g }
}

/// Center both paddles and the ball, then launch at the stored difficulty.
pub open spec fn restarted(g: Game) -> Game {
    started(
        Game {
            left_paddle_y: PADDLE_CENTER_Y,
            right_paddle_y: PADDLE_CENTER_Y,
            ball_x: BALL_CENTER_X,
            ball_y: BALL_CENTER_Y,
            ..g
        },
    )
}

/// Leave play for the difficulty menu; positions stay as they are.
pub open spec fn stopped(g: Game) -> Game {
    Game { screen: Screen::Menu, ..g }
}

/// The ball, at center y, touches or leaves the top or bottom wall.
pub open spec fn wall_hit(y: int) -> bool {
    y - BALL_RADIUS < 0 || y + BALL_RADIUS > WINDOW_HEIGHT
}

/// The moved ball bounces off the left paddle: its left edge is inside the
/// paddle's column and its center point lies in the paddle's rectangle,
/// taken half-open (the paddle's right and bottom edges count as outside).
pub open spec fn left_paddle_hit(g: Game, x: int, y: int) -> bool {
    x - BALL_RADIUS < PADDLE_WIDTH && in_rect_half_open(
        x,
        y,
        0,
        g.left_paddle_y as int,
        PADDLE_WIDTH as int,
        PADDLE_HEIGHT as int,
    )
}

/// Symmetric bounce test against the right paddle, on its half-open
/// rectangle.
pub open spec fn right_paddle_hit(g: Game, x: int, y: int) -> bool {
    x + BALL_RADIUS > RIGHT_PADDLE_X && in_rect_half_open(
        x,
        y,
        RIGHT_PADDLE_X as int,
        g.right_paddle_y as int,
        PADDLE_WIDTH as int,
        PADDLE_HEIGHT as int,
    )
}

/// One physics tick. Outside play it changes nothing. In play the ball
/// advances by its velocity, then a wall contact flips the vertical velocity
/// and a paddle contact flips the horizontal one. The position is never
/// clamped back inside the window, and the contact tests use the ball's
/// center point, so a fast ball can pass a paddle's edge without bouncing;
/// both are deliberate, as the session has always behaved.
pub open spec fn tick_step(g: Game) -> Game {
    if g.screen != Screen::Playing {
        g
    } else {
        let x = g.ball_x + g.ball_vx;
        let y = g.ball_y + g.ball_vy;
        let vy = if wall_hit(y) {
            -g.ball_vy
        } else {
            g.ball_vy as int
        };
        let vx = if left_paddle_hit(g, x, y) || right_paddle_hit(g, x, y) {
            -g.ball_vx
        } else {
            g.ball_vx as int
        };
        Game { ball_x: x as i32, ball_y: y as i32, ball_vx: vx as i32, ball_vy: vy as i32, ..g }
    }
}

/// Move a selection one option up, stopping at the first option.
pub open spec fn sel_up(s: usize) -> usize {
    if s > 0 {
        (s - 1) as usize
    } else {
        s
    }
}

/// Move a selection one option down, stopping at the last option.
pub open spec fn sel_down(s: usize) -> usize {
    if s < MAX_SELECTION {
        (s + 1) as usize
    } else {
        s
    }
}

/// Act on main-menu option i: the first three choose a difficulty and launch;
/// the fourth returns to the home screen; anything else does nothing.
pub open spec fn menu_activate(g: Game, i: usize) -> Game {
    if i == 0 {
        started(Game { difficulty: Difficulty::Easy, ..g })
    } else if i == 1 {
        started(Game { difficulty: Difficulty::Medium, ..g })
    } else if i == 2 {
        started(Game { difficulty: Difficulty::Hard, ..g })
    } else if i == 3 {
        Game { screen: Screen::Home, ..g }
    } else {
        g
    }
}

/// Act on pause-menu option i: resume unchanged, restart, stop to the menu,
/// or return to the home screen; anything else does nothing.
pub open spec fn pause_activate(g: Game, i: usize) -> Game {
    if i == 0 {
        Game { screen: Screen::Playing, ..g }
    } else if i == 1 {
        restarted(g)
    } else if i == 2 {
        stopped(g)
    } else if i == 3 {
        Game { screen: Screen::Home, ..g }
    } else {
        g
    }
}

/// A key press on the home screen: Enter opens the menu.
pub open spec fn home_key(g: Game, k: Key) -> Game {
    if k == Key::Enter {
        Game { screen: Screen::Menu, ..g }
    } else {
        g
    }
}

/// A key press in the main menu: W/Up and S/Down move the selection, Enter
/// acts on the selected option.
pub open spec fn menu_key(g: Game, k: Key) -> Game {
    match k {
        Key::W | Key::Up => Game { menu_selection: sel_up(g.menu_selection), ..g },
        Key::S | Key::Down => Game { menu_selection: sel_down(g.menu_selection), ..g },
        Key::Enter => menu_activate(g, g.menu_selection),
        _ => g,
    }
}

/// The paddle position one key step away: the old position moved by delta
/// and clamped to the band [0, window height - paddle height], so the paddle
/// always stays fully inside the window.
pub open spec fn stepped_paddle(y: int, delta: int) -> i32 {
    clamped(y + delta, 0, WINDOW_HEIGHT - PADDLE_HEIGHT) as i32
}

/// A key press during play: W/S step the left paddle, Up/Down the right one,
/// each move clamped to the band; P pauses.
pub open spec fn playing_key(g: Game, k: Key) -> Game {
    match k {
        Key::W => Game { left_paddle_y: stepped_paddle(g.left_paddle_y as int, -PADDLE_SPEED as int), ..g },
        Key::S => Game { left_paddle_y: stepped_paddle(g.left_paddle_y as int, PADDLE_SPEED as int), ..g },
        Key::Up => Game {
            right_paddle_y: stepped_paddle(g.right_paddle_y as int, -PADDLE_SPEED as int),
            ..g
        },
        Key::Down => Game {
            right_paddle_y: stepped_paddle(g.right_paddle_y as int, PADDLE_SPEED as int),
            ..g
        },
        Key::P => Game { screen: Screen::Paused, ..g },
        _ => g,
    }
}

/// A key press in the pause menu: like the main menu, over the pause options.
pub open spec fn paused_key(g: Game, k: Key) -> Game {
    match k {
        Key::W | Key::Up => Game { pause_selection: sel_up(g.pause_selection), ..g },
        Key::S | Key::Down => Game { pause_selection: sel_down(g.pause_selection), ..g },
        Key::Enter => pause_activate(g, g.pause_selection),
        _ => g,
    }
}

/// The whole keyboard transition: dispatch on the current screen.
pub open spec fn key_step(g: Game, k: Key) -> Game {
    match g.screen {
        Screen::Home => home_key(g, k),
        Screen::Menu => menu_key(g, k),
        Screen::Playing => playing_key(g, k),
        Screen::Paused => paused_key(g, k),
    }
}

/// The first menu option whose hit region contains (x, y), if any. The four
/// regions stack vertically at the option spacing, so a point on a shared
/// edge belongs to the upper option.
pub open spec fn option_at(x: int, y: int) -> Option<usize> {
    if in_rect(x, y, MENU_X as int, MENU_TOP as int, MENU_OPTION_WIDTH as int, MENU_OPTION_HEIGHT as int) {
        Some(0usize)
    } else if in_rect(x, y, MENU_X as int, MENU_TOP + MENU_OPTION_HEIGHT, MENU_OPTION_WIDTH as int, MENU_OPTION_HEIGHT as int) {
        Some(1usize)
    } else if in_rect(x, y, MENU_X as int, MENU_TOP + 2 * MENU_OPTION_HEIGHT, MENU_OPTION_WIDTH as int, MENU_OPTION_HEIGHT as int) {
        Some(2usize)
    } else if in_rect(x, y, MENU_X as int, MENU_TOP + 3 * MENU_OPTION_HEIGHT, MENU_OPTION_WIDTH as int, MENU_OPTION_HEIGHT as int) {
        Some(3usize)
    } else {
        None
    }
}

/// A left-button press. On the home screen it opens the menu. In either menu
/// it selects and immediately acts on the option under the cursor, if any.
/// During play it begins dragging the paddle under the cursor, the left one
/// checked first. Other buttons do nothing.
pub open spec fn mouse_down_step(g: Game, b: MouseButton, x: int, y: int) -> Game {
    if b != MouseButton::Left {
        g
    } else {
        match g.screen {
            Screen::Home => Game { screen: Screen::Menu, ..g },
            Screen::Menu => match option_at(x, y) {
                Some(i) => menu_activate(Game { menu_selection: i, ..g }, i),
                None => g,
            },
            Screen::Paused => match option_at(x, y) {
                Some(i) => pause_activate(Game { pause_selection: i, ..g }, i),
                None => g,
            },
            Screen::Playing => if in_rect(
                x,
                y,
                0,
                g.left_paddle_y as int,
                PADDLE_WIDTH as int,
                PADDLE_HEIGHT as int,
            ) {
                Game { left_paddle_dragging: true, ..g }
            } else if in_rect(
                x,
                y,
                RIGHT_PADDLE_X as int,
                g.right_paddle_y as int,
                PADDLE_WIDTH as int,
                PADDLE_HEIGHT as int,
            ) {
                Game { right_paddle_dragging: true, ..g }
            } else {
                g
            },
        }
    }
}

/// Releasing the left button ends every drag; other buttons do nothing.
pub open spec fn mouse_up_step(g: Game, b: MouseButton) -> Game {
    if b == MouseButton::Left {
        Game { left_paddle_dragging: false, right_paddle_dragging: false, ..g }
    } else {
        g
    }
}

/// Pointer motion: a dragged paddle's top edge follows the cursor's y,
/// clamped to the valid band; with no drag active nothing changes. Should
/// both drag flags ever be set, the left paddle takes precedence and only
/// it follows the cursor.
pub open spec fn mouse_move_step(g: Game, y: int) -> Game {
    if g.left_paddle_dragging {
        Game {
            left_paddle_y: clamped(y, 0, WINDOW_HEIGHT - PADDLE_HEIGHT) as i32,
            ..g
        }
    } else if g.right_paddle_dragging {
        Game {
            right_paddle_y: clamped(y, 0, WINDOW_HEIGHT - PADDLE_HEIGHT) as i32,
            ..g
        }
    } else {
        g
    }
}

// ---------------------------------------------------------------------------
// Executable operations.
// ---------------------------------------------------------------------------

/// Move a paddle by delta and clamp it to the band; the arithmetic runs in
/// i64 so no i32 position can overflow it.
fn step_paddle(y: i32, delta: i32) -> (r: i32)
    ensures
        r == stepped_paddle(y as int, delta as int),
{
    let moved = (y as i64) + (delta as i64);
    let hi = (WINDOW_HEIGHT - PADDLE_HEIGHT) as i64;
    if moved < 0 {
        0
    } else if moved > hi {
        WINDOW_HEIGHT - PADDLE_HEIGHT
    } else {
        moved as i32
    }
}

/// The first menu option whose hit region contains (x, y).
pub fn menu_option_at(x: i32, y: i32) -> (r: Option<usize>)
    ensures
        r == option_at(x as int, y as int),
        r matches Some(i) ==> i <= MAX_SELECTION,
{
    if rect_contains(x, y, MENU_X, MENU_TOP, MENU_OPTION_WIDTH, MENU_OPTION_HEIGHT) {
        Some(0)
    } else if rect_contains(x, y, MENU_X, MENU_TOP + MENU_OPTION_HEIGHT, MENU_OPTION_WIDTH, MENU_OPTION_HEIGHT) {
        Some(1)
    } else if rect_contains(x, y, MENU_X, MENU_TOP + 2 * MENU_OPTION_HEIGHT, MENU_OPTION_WIDTH, MENU_OPTION_HEIGHT) {
        Some(2)
    } else if rect_contains(x, y, MENU_X, MENU_TOP + 3 * MENU_OPTION_HEIGHT, MENU_OPTION_WIDTH, MENU_OPTION_HEIGHT) {
        Some(3)
    } else {
        None
    }
}

impl Game {
    /// Launch a game at the stored difficulty: velocity becomes (s, s) with
    /// s the difficulty's speed, and the screen becomes Playing.
    pub fn start_game(&mut self)
        ensures
            *final(self) == started(*old(self)),
            final(self).ball_vx == speed_of(old(self).difficulty),
            final(self).ball_vy == speed_of(old(self).difficulty),
            final(self).screen == Screen::Playing,
            old(self).wf() ==> final(self).wf(),
    {
        match self.difficulty {
            Difficulty::Easy => {
                self.ball_vx = 2;
                self.ball_vy = 2;
            }
            Difficulty::Medium => {
                self.ball_vx = 4;
                self.ball_vy = 4;
            }
            Difficulty::Hard => {
                self.ball_vx = 6;
                self.ball_vy = 6;
            }
        }
        self.screen = Screen::Playing;
    }

    /// Center both paddles and the ball, then launch at the stored
    /// difficulty.
    pub fn restart_game(&mut self)
        ensures
            *final(self) == restarted(*old(self)),
            old(self).wf() ==> final(self).wf(),
    {
        self.left_paddle_y = PADDLE_CENTER_Y;
        self.right_paddle_y = PADDLE_CENTER_Y;
        self.ball_x = BALL_CENTER_X;
        self.ball_y = BALL_CENTER_Y;
        self.start_game();
    }

    /// Leave play for the difficulty menu; positions stay as they are.
    pub fn stop_game(&mut self)
        ensures
            *final(self) == stopped(*old(self)),
            final(self).screen == Screen::Menu,
            old(self).wf() ==> final(self).wf(),
    {
        self.screen = Screen::Menu;
    }

    /// One physics tick; see `tick_step`. Outside play nothing changes. The
    /// bound on the ball's coordinates only keeps the advanced position
    /// representable.
    pub fn update(&mut self)
        requires
            old(self).screen == Screen::Playing ==> {
                &&& i32::MIN <= old(self).ball_x + old(self).ball_vx <= i32::MAX
                &&& i32::MIN <= old(self).ball_y + old(self).ball_vy <= i32::MAX
                &&& old(self).ball_vx != i32::MIN
                &&& old(self).ball_vy != i32::MIN
            },
        ensures
            *final(self) == tick_step(*old(self)),
            old(self).screen != Screen::Playing ==> *final(self) == *old(self),
            old(self).screen == Screen::Playing ==> final(self).ball_x == old(self).ball_x
                + old(self).ball_vx,
            old(self).screen == Screen::Playing ==> final(self).ball_y == old(self).ball_y
                + old(self).ball_vy,
            final(self).ball_vx == old(self).ball_vx || final(self).ball_vx == -old(self).ball_vx,
            final(self).ball_vy == old(self).ball_vy || final(self).ball_vy == -old(self).ball_vy,
            old(self).wf() ==> final(self).wf(),
    {
        if self.screen == Screen::Playing {
            self.ball_x = self.ball_x + self.ball_vx;
            self.ball_y = self.ball_y + self.ball_vy;

            let y64 = self.ball_y as i64;
            if y64 - (BALL_RADIUS as i64) < 0 || y64 + (BALL_RADIUS as i64) > (WINDOW_HEIGHT as i64) {
                self.ball_vy = -self.ball_vy;
            }

            let x64 = self.ball_x as i64;
            if x64 - (BALL_RADIUS as i64) < (PADDLE_WIDTH as i64) && rect_contains_half_open(
                self.ball_x,
                self.ball_y,
                0,
                self.left_paddle_y,
                PADDLE_WIDTH,
                PADDLE_HEIGHT,
            ) {
                self.ball_vx = -self.ball_vx;
            }
            if x64 + (BALL_RADIUS as i64) > (RIGHT_PADDLE_X as i64) && rect_contains_half_open(
                self.ball_x,
                self.ball_y,
                RIGHT_PADDLE_X,
                self.right_paddle_y,
                PADDLE_WIDTH,
                PADDLE_HEIGHT,
            ) {
                self.ball_vx = -self.ball_vx;
            }
        }
    }

    /// Act on main-menu option i; keyboard Enter and a click on the option
    /// share this path.
    pub fn activate_menu_option(&mut self, i: usize)
        ensures
            *final(self) == menu_activate(*old(self), i),
            old(self).wf() ==> final(self).wf(),
    {
        if i == 0 {
            self.difficulty = Difficulty::Easy;
            self.start_game();
        } else if i == 1 {
            self.difficulty = Difficulty::Medium;
            self.start_game();
        } else if i == 2 {
            self.difficulty = Difficulty::Hard;
            self.start_game();
        } else if i == 3 {
            self.screen = Screen::Home;
        }
    }

    /// Act on pause-menu option i; keyboard Enter and a click on the option
    /// share this path.
    pub fn activate_pause_option(&mut self, i: usize)
        ensures
            *final(self) == pause_activate(*old(self), i),
            old(self).wf() ==> final(self).wf(),
    {
        if i == 0 {
            self.screen = Screen::Playing;
        } else if i == 1 {
            self.restart_game();
        } else if i == 2 {
            self.stop_game();
        } else if i == 3 {
            self.screen = Screen::Home;
        }
    }

    /// A key press; see `key_step` for the transition it computes.
    pub fn key_down_event(&mut self, key: Key)
        ensures
            *final(self) == key_step(*old(self), key),
            old(self).wf() ==> final(self).wf(),
    {
        match self.screen {
            Screen::Home => {
                if key == Key::Enter {
                    self.screen = Screen::Menu;
                }
            }
            Screen::Menu => {
                match key {
                    Key::W | Key::Up => {
                        if self.menu_selection > 0 {
                            self.menu_selection = self.menu_selection - 1;
                        }
                    }
                    Key::S | Key::Down => {
                        if self.menu_selection < MAX_SELECTION {
                            self.menu_selection = self.menu_selection + 1;
                        }
                    }
                    Key::Enter => {
                        let i = self.menu_selection;
                        self.activate_menu_option(i);
                    }
                    _ => {}
                }
            }
            Screen::Playing => {
                match key {
                    Key::W => {
                        self.left_paddle_y = step_paddle(self.left_paddle_y, -PADDLE_SPEED);
                    }
                    Key::S => {
                        self.left_paddle_y = step_paddle(self.left_paddle_y, PADDLE_SPEED);
                    }
                    Key::Up => {
                        self.right_paddle_y = step_paddle(self.right_paddle_y, -PADDLE_SPEED);
                    }
                    Key::Down => {
                        self.right_paddle_y = step_paddle(self.right_paddle_y, PADDLE_SPEED);
                    }
                    Key::P => {
                        self.screen = Screen::Paused;
                    }
                    _ => {}
                }
            }
            Screen::Paused => {
                match key {
                    Key::W | Key::Up => {
                        if self.pause_selection > 0 {
                            self.pause_selection = self.pause_selection - 1;
                        }
                    }
                    Key::S | Key::Down => {
                        if self.pause_selection < MAX_SELECTION {
                            self.pause_selection = self.pause_selection + 1;
                        }
                    }
                    Key::Enter => {
                        let i = self.pause_selection;
                        self.activate_pause_option(i);
                    }
                    _ => {}
                }
            }
        }
    }

    /// A mouse-button press at (x, y); see `mouse_down_step`.
    pub fn mouse_button_down_event(&mut self, button: MouseButton, x: i32, y: i32)
        ensures
            *final(self) == mouse_down_step(*old(self), button, x as int, y as int),
            old(self).wf() ==> final(self).wf(),
    {
        if button == MouseButton::Left {
            match self.screen {
                Screen::Home => {
                    self.screen = Screen::Menu;
                }
                Screen::Menu => {
                    match menu_option_at(x, y) {
                        Some(i) => {
                            self.menu_selection = i;
                            self.activate_menu_option(i);
                        }
                        None => {}
                    }
                }
                Screen::Paused => {
                    match menu_option_at(x, y) {
                        Some(i) => {
                            self.pause_selection = i;
                            self.activate_pause_option(i);
                        }
                        None => {}
                    }
                }
                Screen::Playing => {
                    if rect_contains(x, y, 0, self.left_paddle_y, PADDLE_WIDTH, PADDLE_HEIGHT) {
                        self.left_paddle_dragging = true;
                    } else if rect_contains(
                        x,
                        y,
                        RIGHT_PADDLE_X,
                        self.right_paddle_y,
                        PADDLE_WIDTH,
                        PADDLE_HEIGHT,
                    ) {
                        self.right_paddle_dragging = true;
                    }
                }
            }
        }
    }

    /// A mouse-button release: the left button ends every drag. With no drag
    /// active this changes nothing at all.
    pub fn mouse_button_up_event(&mut self, button: MouseButton, _x: i32, _y: i32)
        ensures
            *final(self) == mouse_up_step(*old(self), button),
            !old(self).left_paddle_dragging && !old(self).right_paddle_dragging ==> *final(self)
                == *old(self),
            old(self).wf() ==> final(self).wf(),
    {
        if button == MouseButton::Left {
            self.left_paddle_dragging = false;
            self.right_paddle_dragging = false;
        }
    }

    /// Pointer motion to (x, y): a dragged paddle follows y, clamped to the
    /// valid band; see `mouse_move_step`.
    pub fn mouse_motion_event(&mut self, _x: i32, y: i32)
        ensures
            *final(self) == mouse_move_step(*old(self), y as int),
            old(self).left_paddle_dragging ==> 0 <= final(self).left_paddle_y <= WINDOW_HEIGHT
                - PADDLE_HEIGHT,
            !old(self).left_paddle_dragging && old(self).right_paddle_dragging
                ==> 0 <= final(self).right_paddle_y <= WINDOW_HEIGHT - PADDLE_HEIGHT,
            old(self).wf() ==> final(self).wf(),
    {
        if self.left_paddle_dragging {
            self.left_paddle_y = clamp_i32(y, 0, WINDOW_HEIGHT - PADDLE_HEIGHT);
        } else if self.right_paddle_dragging {
            self.right_paddle_y = clamp_i32(y, 0, WINDOW_HEIGHT - PADDLE_HEIGHT);
        }
    }
}

} // verus!
