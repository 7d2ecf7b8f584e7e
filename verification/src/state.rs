//! The game state: screens, difficulties, input events, the session struct,
//! its well-formedness invariant, and the initial state.

use vstd::prelude::*;

verus! {

/// Logical canvas width, in pixels.
pub const WINDOW_WIDTH: i32 = 800;
/// Logical canvas height, in pixels.
pub const WINDOW_HEIGHT: i32 = 600;
/// Width of each paddle.
pub const PADDLE_WIDTH: i32 = 20;
/// Height of each paddle.
pub const PADDLE_HEIGHT: i32 = 100;
/// Vertical distance a paddle moves per key-down event.
pub const PADDLE_SPEED: i32 = 5;
/// Radius of the ball.
pub const BALL_RADIUS: i32 = 10;

/// Left edge of every menu option's hit region.
pub const MENU_X: i32 = 300;
/// Top edge of the first menu option's hit region.
pub const MENU_TOP: i32 = 200;
/// Width of each menu option's hit region.
pub const MENU_OPTION_WIDTH: i32 = 200;
/// Height of each menu option's hit region; options stack at this spacing.
pub const MENU_OPTION_HEIGHT: i32 = 50;
/// Highest valid selection index: both menus have exactly four options.
pub const MAX_SELECTION: usize = 3;

/// Top-edge y of a vertically centered paddle: half the window height less
/// half the paddle height.
pub const PADDLE_CENTER_Y: i32 = 250;
/// x of the window center, where the ball starts and restarts.
pub const BALL_CENTER_X: i32 = 400;
/// y of the window center, where the ball starts and restarts.
pub const BALL_CENTER_Y: i32 = 300;
/// Left edge of the right paddle.
pub const RIGHT_PADDLE_X: i32 = WINDOW_WIDTH - PADDLE_WIDTH;

/// The top-level mode of the session; exactly one is current and it gates
/// which inputs and which physics are active.
#[derive(Clone, Copy, PartialEq, Eq, Structural, Debug)]
pub enum Screen {
    Home,
    Menu,
    Playing,
    Paused,
}

/// Difficulty chosen in the menu; it fixes the ball's launch speed.
#[derive(Clone, Copy, PartialEq, Eq, Structural, Debug)]
pub enum Difficulty {
    Easy,
    Medium,
    Hard,
}

/// The keys the session reacts to. The host maps every other key to `Other`,
/// which every screen ignores.
#[derive(Clone, Copy, PartialEq, Eq, Structural, Debug)]
pub enum Key {
    W,
    S,
    Up,
    Down,
    Enter,
    P,
    Other,
}

/// Mouse buttons as the session sees them: only the left one acts; the host
/// maps every other button to `Other`.
#[derive(Clone, Copy, PartialEq, Eq, Structural, Debug)]
pub enum MouseButton {
    Left,
    Other,
}

/// Initial ball speed for a difficulty: both velocity components are set to
/// this value when a game starts.
pub open spec fn speed_of(d: Difficulty) -> i32 {
    match d {
        Difficulty::Easy => 2,
        Difficulty::Medium => 4,
        Difficulty::Hard => 6,
    }
}

/// The whole session: every mutable value of the game lives here.
///
/// Coordinates are pixels of the 800x600 canvas, origin at the top left,
/// x growing right and y growing down. Paddle positions are top-edge y
/// coordinates; the left paddle spans x in [0, 20], the right paddle
/// x in [780, 800].
#[derive(Clone, Copy, PartialEq, Eq, Structural, Debug)]
pub struct Game {
    /// Top-edge y of the left paddle.
    pub left_paddle_y: i32,
    /// Top-edge y of the right paddle.
    pub right_paddle_y: i32,
    /// Ball center x.
    pub ball_x: i32,
    /// Ball center y.
    pub ball_y: i32,
    /// Ball velocity, in pixels per tick.
    pub ball_vx: i32,
    /// Ball velocity, in pixels per tick.
    pub ball_vy: i32,
    /// Difficulty the next or current game runs at.
    pub difficulty: Difficulty,
    /// Current screen.
    pub screen: Screen,
    /// Highlighted option of the main menu.
    pub menu_selection: usize,
    /// Highlighted option of the pause menu.
    pub pause_selection: usize,
    /// The left paddle follows the mouse while this holds.
    pub left_paddle_dragging: bool,
    /// The right paddle follows the mouse while this holds.
    pub right_paddle_dragging: bool,
}

impl Game {
    /// Well-formedness: what the constructor establishes and every operation
    /// preserves.
    ///
    /// Velocity components never exceed the hardest launch speed in magnitude
    /// (bounces only flip signs). Selections stay within the four options.
    /// Paddles stay fully inside the window: every move, by key or by drag,
    /// is clamped to [0, window height - paddle height].
    pub open spec fn wf(self) -> bool {
        &&& -6 <= self.ball_vx <= 6
        &&& -6 <= self.ball_vy <= 6
        &&& self.menu_selection <= MAX_SELECTION
        &&& self.pause_selection <= MAX_SELECTION
        &&& 0 <= self.left_paddle_y <= WINDOW_HEIGHT - PADDLE_HEIGHT
        &&& 0 <= self.right_paddle_y <= WINDOW_HEIGHT - PADDLE_HEIGHT
    }

    /// The state a fresh session holds: home screen, paddles vertically
    /// centered, ball centered and at rest, medium difficulty highlighted.
    pub open spec fn initial() -> Game {
        Game {
            left_paddle_y: PADDLE_CENTER_Y,
            right_paddle_y: PADDLE_CENTER_Y,
            ball_x: BALL_CENTER_X,
            ball_y: BALL_CENTER_Y,
            ball_vx: 0,
            ball_vy: 0,
            difficulty: Difficulty::Medium,
            screen: Screen::Home,
            menu_selection: 1,
            pause_selection: 0,
            left_paddle_dragging: false,
            right_paddle_dragging: false,
        }
    }

    /// Create a fresh session.
    pub fn new() -> (g: Game)
        ensures
            g == Game::initial(),
            g.wf(),
    {
        Game {
            left_paddle_y: PADDLE_CENTER_Y,
            right_paddle_y: PADDLE_CENTER_Y,
            ball_x: BALL_CENTER_X,
            ball_y: BALL_CENTER_Y,
            ball_vx: 0,
            ball_vy: 0,
            difficulty: Difficulty::Medium,
            screen: Screen::Home,
            menu_selection: 1,
            pause_selection: 0,
            left_paddle_dragging: false,
            right_paddle_dragging: false,
        }
    }
}

} // verus!
