//! The render-description step: from the current state, the list of
//! primitives a host should draw, in drawing order. Purely derived; nothing
//! is mutated. The host turns each command into its graphics library's calls
//! and each label into its text.

use vstd::prelude::*;

use crate::state::{
    Game, Screen, BALL_RADIUS, MENU_OPTION_HEIGHT, MENU_TOP, MENU_X, PADDLE_HEIGHT, PADDLE_WIDTH,
    RIGHT_PADDLE_X,
};

verus! {

/// The palette the session draws with.
#[derive(Clone, Copy, PartialEq, Eq, Structural, Debug)]
pub enum Color {
    Black,
    White,
    Green,
    Yellow,
}

/// The fixed texts the session shows; the host owns the wording.
#[derive(Clone, Copy, PartialEq, Eq, Structural, Debug)]
pub enum Label {
    /// The home screen's welcome banner.
    HomeTitle,
    /// The home screen's hint: press Enter or click for the menu.
    HomeHint,
    /// The menu's title.
    MenuTitle,
    /// Menu option: easy difficulty.
    Easy,
    /// Menu option: medium difficulty.
    Medium,
    /// Menu option: hard difficulty.
    Hard,
    /// Menu and pause option: back to the home screen.
    BackToHome,
    /// How to navigate a menu and select.
    NavHint,
    /// The paddle controls and the pause key.
    ControlsHint,
    /// Pause option: resume play.
    Resume,
    /// Pause option: restart play.
    Restart,
    /// Pause option: stop to the menu.
    StopGame,
}

/// One primitive draw request. Coordinates are canvas pixels; a rectangle's
/// (x, y) is its top-left corner, a circle's its center, a text's the
/// top-left of its first glyph. Scale is the text's pixel size.
#[derive(Clone, Copy, PartialEq, Eq, Structural, Debug)]
pub enum DrawCmd {
    Rect { x: i32, y: i32, w: i32, h: i32, color: Color },
    Circle { x: i32, y: i32, radius: i32, color: Color },
    Text { x: i32, y: i32, scale: i32, color: Color, label: Label },
}

/// Yellow for the highlighted option, white for the rest.
pub open spec fn option_color(selected: bool) -> Color {
    if selected {
        Color::Yellow
    } else {
        Color::White
    }
}

/// One menu or pause option's text, the i-th from the top.
pub open spec fn option_cmd(label: Label, i: int, selected: bool) -> DrawCmd {
    DrawCmd::Text {
        x: MENU_X,
        y: (MENU_TOP + i * MENU_OPTION_HEIGHT) as i32,
        scale: 30,
        color: option_color(selected),
        label,
    }
}

/// What the home screen shows.
pub open spec fn home_cmds() -> Seq<DrawCmd> {
    seq![
        DrawCmd::Text { x: 100, y: 100, scale: 50, color: Color::Green, label: Label::HomeTitle },
        DrawCmd::Text { x: 150, y: 400, scale: 20, color: Color::White, label: Label::HomeHint },
    ]
}

/// What the main menu shows: title, the four options with the selected one
/// highlighted, and the navigation hint.
pub open spec fn menu_cmds(sel: usize) -> Seq<DrawCmd> {
    seq![
        DrawCmd::Text { x: 250, y: 100, scale: 50, color: Color::White, label: Label::MenuTitle },
        option_cmd(Label::Easy, 0, sel == 0),
        option_cmd(Label::Medium, 1, sel == 1),
        option_cmd(Label::Hard, 2, sel == 2),
        option_cmd(Label::BackToHome, 3, sel == 3),
        DrawCmd::Text { x: 100, y: 400, scale: 20, color: Color::White, label: Label::NavHint },
    ]
}

/// What play shows: both paddles, the ball, and the controls hint.
pub open spec fn play_cmds(g: Game) -> Seq<DrawCmd> {
    seq![
        DrawCmd::Rect {
            x: 0,
            y: g.left_paddle_y,
            w: PADDLE_WIDTH,
            h: PADDLE_HEIGHT,
            color: Color::White,
        },
        DrawCmd::Rect {
            x: RIGHT_PADDLE_X,
            y: g.right_paddle_y,
            w: PADDLE_WIDTH,
            h: PADDLE_HEIGHT,
            color: Color::White,
        },
        DrawCmd::Circle { x: g.ball_x, y: g.ball_y, radius: BALL_RADIUS, color: Color::Green },
        DrawCmd::Text { x: 10, y: 10, scale: 20, color: Color::White, label: Label::ControlsHint },
    ]
}

/// What the pause screen adds over the play field: the four pause options
/// and the navigation hint.
pub open spec fn pause_menu_cmds(sel: usize) -> Seq<DrawCmd> {
    seq![
        option_cmd(Label::Resume, 0, sel == 0),
        option_cmd(Label::Restart, 1, sel == 1),
        option_cmd(Label::StopGame, 2, sel == 2),
        option_cmd(Label::BackToHome, 3, sel == 3),
        DrawCmd::Text { x: 100, y: 400, scale: 20, color: Color::White, label: Label::NavHint },
    ]
}

/// Everything the current screen shows, in drawing order.
pub open spec fn draw_seq(g: Game) -> Seq<DrawCmd> {
    match g.screen {
        Screen::Home => home_cmds(),
        Screen::Menu => menu_cmds(g.menu_selection),
        Screen::Playing => play_cmds(g),
        Screen::Paused => play_cmds(g) + pause_menu_cmds(g.pause_selection),
    }
}

impl Game {
    /// List what the current screen shows, in drawing order; see `draw_seq`.
    pub fn draw(&self) -> (cmds: Vec<DrawCmd>)
        ensures
            cmds@ == draw_seq(*self),
    {
        let mut cmds: Vec<DrawCmd> = Vec::new();
        match self.screen {
            Screen::Home => {
                cmds.push(
                    DrawCmd::Text {
                        x: 100,
                        y: 100,
                        scale: 50,
                        color: Color::Green,
                        label: Label::HomeTitle,
                    },
                );
                cmds.push(
                    DrawCmd::Text {
                        x: 150,
                        y: 400,
                        scale: 20,
                        color: Color::White,
                        label: Label::HomeHint,
                    },
                );
            }
            Screen::Menu => {
                cmds.push(
                    DrawCmd::Text {
                        x: 250,
                        y: 100,
                        scale: 50,
                        color: Color::White,
                        label: Label::MenuTitle,
                    },
                );
                cmds.push(option_text(Label::Easy, 0, self.menu_selection == 0));
                cmds.push(option_text(Label::Medium, 1, self.menu_selection == 1));
                cmds.push(option_text(Label::Hard, 2, self.menu_selection == 2));
                cmds.push(option_text(Label::BackToHome, 3, self.menu_selection == 3));
                cmds.push(
                    DrawCmd::Text {
                        x: 100,
                        y: 400,
                        scale: 20,
                        color: Color::White,
                        label: Label::NavHint,
                    },
                );
            }
            Screen::Playing | Screen::Paused => {
                cmds.push(
                    DrawCmd::Rect {
                        x: 0,
                        y: self.left_paddle_y,
                        w: PADDLE_WIDTH,
                        h: PADDLE_HEIGHT,
                        color: Color::White,
                    },
                );
                cmds.push(
                    DrawCmd::Rect {
                        x: RIGHT_PADDLE_X,
                        y: self.right_paddle_y,
                        w: PADDLE_WIDTH,
                        h: PADDLE_HEIGHT,
                        color: Color::White,
                    },
                );
                cmds.push(
                    DrawCmd::Circle {
                        x: self.ball_x,
                        y: self.ball_y,
                        radius: BALL_RADIUS,
                        color: Color::Green,
                    },
                );
                cmds.push(
                    DrawCmd::Text {
                        x: 10,
                        y: 10,
                        scale: 20,
                        color: Color::White,
                        label: Label::ControlsHint,
                    },
                );
                if self.screen == Screen::Paused {
                    cmds.push(option_text(Label::Resume, 0, self.pause_selection == 0));
                    cmds.push(option_text(Label::Restart, 1, self.pause_selection == 1));
                    cmds.push(option_text(Label::StopGame, 2, self.pause_selection == 2));
                    cmds.push(option_text(Label::BackToHome, 3, self.pause_selection == 3));
                    cmds.push(
                        DrawCmd::Text {
                            x: 100,
                            y: 400,
                            scale: 20,
                            color: Color::White,
                            label: Label::NavHint,
                        },
                    );
                }
            }
        }
        proof {
            assert(cmds@ =~= draw_seq(*self));
        }
        cmds
    }

}

/// Build one option's text command, the i-th from the top.
fn option_text(label: Label, i: i32, selected: bool) -> (cmd: DrawCmd)
    requires
        0 <= i <= 3,
    ensures
        cmd == option_cmd(label, i as int, selected),
{
    DrawCmd::Text {
        x: MENU_X,
        y: MENU_TOP + i * MENU_OPTION_HEIGHT,
        scale: 30,
        color: if selected {
            Color::Yellow
        } else {
            Color::White
        },
        label,
    }
}

} // verus!
