use pong::state::{Difficulty, Game, Key, MouseButton, Screen};

#[test]
fn initial_state_is_home_and_centered() {
    let g = Game::new();
    assert_eq!(g.screen, Screen::Home);
    assert_eq!(g.difficulty, Difficulty::Medium);
    assert_eq!(g.left_paddle_y, 250);
    assert_eq!(g.right_paddle_y, 250);
    assert_eq!(g.ball_x, 400);
    assert_eq!(g.ball_y, 300);
    assert_eq!(g.ball_vx, 0);
    assert_eq!(g.ball_vy, 0);
    assert_eq!(g.menu_selection, 1);
    assert_eq!(g.pause_selection, 0);
    assert!(!g.left_paddle_dragging);
    assert!(!g.right_paddle_dragging);
}

#[test]
fn enter_from_home_opens_menu_with_medium_highlighted() {
    let mut g = Game::new();
    g.key_down_event(Key::Enter);
    assert_eq!(g.screen, Screen::Menu);
    assert_eq!(g.menu_selection, 1);
}

#[test]
fn enter_on_default_selection_starts_medium_game() {
    let mut g = Game::new();
    g.key_down_event(Key::Enter);
    g.key_down_event(Key::Enter);
    assert_eq!(g.screen, Screen::Playing);
    assert_eq!(g.difficulty, Difficulty::Medium);
    assert_eq!(g.ball_vx, 4);
    assert_eq!(g.ball_vy, 4);
}

#[test]
fn start_game_sets_speed_per_difficulty() {
    for (d, s) in [
        (Difficulty::Easy, 2),
        (Difficulty::Medium, 4),
        (Difficulty::Hard, 6),
    ] {
        let mut g = Game::new();
        g.difficulty = d;
        g.start_game();
        assert_eq!(g.screen, Screen::Playing);
        assert_eq!(g.ball_vx, s);
        assert_eq!(g.ball_vy, s);
    }
}

#[test]
fn menu_enter_starts_game_at_selected_difficulty() {
    let mut g = Game::new();
    g.key_down_event(Key::Enter);
    g.key_down_event(Key::W);
    assert_eq!(g.menu_selection, 0);
    g.key_down_event(Key::Enter);
    assert_eq!(g.screen, Screen::Playing);
    assert_eq!(g.difficulty, Difficulty::Easy);
    assert_eq!(g.ball_vx, 2);

    let mut h = Game::new();
    h.key_down_event(Key::Enter);
    h.key_down_event(Key::Down);
    assert_eq!(h.menu_selection, 2);
    h.key_down_event(Key::Enter);
    assert_eq!(h.difficulty, Difficulty::Hard);
    assert_eq!(h.ball_vx, 6);
    assert_eq!(h.ball_vy, 6);
}

#[test]
fn menu_back_to_home_option_returns_home() {
    let mut g = Game::new();
    g.key_down_event(Key::Enter);
    g.key_down_event(Key::Down);
    g.key_down_event(Key::Down);
    assert_eq!(g.menu_selection, 3);
    g.key_down_event(Key::Enter);
    assert_eq!(g.screen, Screen::Home);
}

#[test]
fn menu_navigation_clamps_at_both_ends() {
    let mut g = Game::new();
    g.key_down_event(Key::Enter);
    g.key_down_event(Key::Up);
    assert_eq!(g.menu_selection, 0);
    g.key_down_event(Key::W);
    assert_eq!(g.menu_selection, 0);
    for _ in 0..7 {
        g.key_down_event(Key::Down);
    }
    assert_eq!(g.menu_selection, 3);
    g.key_down_event(Key::S);
    assert_eq!(g.menu_selection, 3);
}

#[test]
fn pause_navigation_clamps_at_both_ends() {
    let mut g = Game::new();
    g.screen = Screen::Paused;
    g.key_down_event(Key::W);
    assert_eq!(g.pause_selection, 0);
    for _ in 0..9 {
        g.key_down_event(Key::S);
    }
    assert_eq!(g.pause_selection, 3);
    g.key_down_event(Key::Down);
    assert_eq!(g.pause_selection, 3);
}

#[test]
fn tick_moves_ball_by_velocity() {
    let mut g = Game::new();
    g.screen = Screen::Playing;
    g.ball_vx = 4;
    g.ball_vy = 4;
    g.update();
    assert_eq!(g.ball_x, 404);
    assert_eq!(g.ball_y, 304);
    assert_eq!(g.ball_vx, 4);
    assert_eq!(g.ball_vy, 4);
}

#[test]
fn tick_outside_playing_changes_nothing() {
    for s in [Screen::Home, Screen::Menu, Screen::Paused] {
        let mut g = Game::new();
        g.screen = s;
        g.ball_vx = 6;
        g.ball_vy = 6;
        let before = g;
        g.update();
        assert_eq!(g, before);
    }
}

#[test]
fn tick_bounces_off_bottom_wall_without_clamping() {
    let mut g = Game::new();
    g.screen = Screen::Playing;
    g.ball_y = 587;
    g.ball_vx = 4;
    g.ball_vy = 4;
    g.update();
    // 591 + radius 10 exceeds 600: the vertical velocity flips and the
    // position stays past the line.
    assert_eq!(g.ball_y, 591);
    assert_eq!(g.ball_vy, -4);
    assert_eq!(g.ball_vx, 4);
    // Speed magnitude is unchanged through the bounce.
    assert_eq!(g.ball_vx * g.ball_vx + g.ball_vy * g.ball_vy, 32);
}

#[test]
fn tick_bounces_off_top_wall() {
    let mut g = Game::new();
    g.screen = Screen::Playing;
    g.ball_y = 12;
    g.ball_vx = 4;
    g.ball_vy = -4;
    g.update();
    assert_eq!(g.ball_y, 8);
    assert_eq!(g.ball_vy, 4);
}

#[test]
fn tick_bounces_off_left_paddle() {
    let mut g = Game::new();
    g.screen = Screen::Playing;
    g.ball_x = 22;
    g.ball_y = 300;
    g.ball_vx = -4;
    g.ball_vy = 4;
    g.update();
    assert_eq!(g.ball_x, 18);
    assert_eq!(g.ball_vx, 4);
}

#[test]
fn tick_bounces_off_right_paddle() {
    let mut g = Game::new();
    g.screen = Screen::Playing;
    g.ball_x = 795;
    g.ball_y = 300;
    g.ball_vx = 4;
    g.ball_vy = 4;
    g.update();
    assert_eq!(g.ball_x, 799);
    assert_eq!(g.ball_vx, -4);
}

#[test]
fn tick_past_right_paddle_passes_through() {
    // The contact test uses the ball's center point: once the center has
    // passed the paddle's far edge (x = 800), no bounce registers, and the
    // position is never clamped back inside the window.
    let mut g = Game::new();
    g.screen = Screen::Playing;
    g.ball_x = 805;
    g.ball_y = 300;
    g.ball_vx = 4;
    g.ball_vy = 4;
    g.update();
    assert_eq!(g.ball_x, 809);
    assert_eq!(g.ball_y, 304);
    assert_eq!(g.ball_vx, 4);
    assert_eq!(g.ball_vy, 4);
}

#[test]
fn tick_with_center_outside_paddle_column_does_not_bounce() {
    // The ball's left edge reaches x = 11, inside the paddle's column, but
    // its center (21) sits just past the column's right edge (20), so the
    // center-point test registers nothing.
    let mut g = Game::new();
    g.screen = Screen::Playing;
    g.ball_x = 25;
    g.ball_y = 300;
    g.ball_vx = -4;
    g.ball_vy = 0;
    g.update();
    assert_eq!(g.ball_x, 21);
    assert_eq!(g.ball_vx, -4);
}

#[test]
fn paddle_keys_step_by_five_and_stop_at_edges() {
    let mut g = Game::new();
    g.screen = Screen::Playing;
    g.key_down_event(Key::W);
    assert_eq!(g.left_paddle_y, 245);
    g.key_down_event(Key::S);
    assert_eq!(g.left_paddle_y, 250);
    g.key_down_event(Key::Up);
    assert_eq!(g.right_paddle_y, 245);
    g.key_down_event(Key::Down);
    assert_eq!(g.right_paddle_y, 250);

    g.left_paddle_y = 0;
    g.key_down_event(Key::W);
    assert_eq!(g.left_paddle_y, 0);
    g.left_paddle_y = 500;
    g.key_down_event(Key::S);
    assert_eq!(g.left_paddle_y, 500);
    g.right_paddle_y = 0;
    g.key_down_event(Key::Up);
    assert_eq!(g.right_paddle_y, 0);
    g.right_paddle_y = 500;
    g.key_down_event(Key::Down);
    assert_eq!(g.right_paddle_y, 500);
}

#[test]
fn paddle_key_clamps_even_from_dragged_position() {
    // A drag may park the paddle at a y that is no multiple of the step;
    // a key move from there clamps to the band's edge rather than stepping
    // past it.
    let mut g = Game::new();
    g.screen = Screen::Playing;
    g.mouse_button_down_event(MouseButton::Left, 10, 300);
    assert!(g.left_paddle_dragging);
    g.mouse_motion_event(10, 3);
    assert_eq!(g.left_paddle_y, 3);
    g.key_down_event(Key::W);
    assert_eq!(g.left_paddle_y, 0);
    g.mouse_motion_event(10, 498);
    assert_eq!(g.left_paddle_y, 498);
    g.key_down_event(Key::S);
    assert_eq!(g.left_paddle_y, 500);
}

#[test]
fn tick_on_paddle_far_column_edge_does_not_bounce() {
    // The paddle rectangles are half-open: a moved center exactly on the
    // left paddle's far edge (x = 20) or on the right paddle's far edge
    // (x = 800) counts as outside, so no bounce registers.
    let mut g = Game::new();
    g.screen = Screen::Playing;
    g.ball_x = 24;
    g.ball_y = 300;
    g.ball_vx = -4;
    g.ball_vy = 0;
    g.update();
    assert_eq!(g.ball_x, 20);
    assert_eq!(g.ball_vx, -4);

    let mut h = Game::new();
    h.screen = Screen::Playing;
    h.ball_x = 796;
    h.ball_y = 300;
    h.ball_vx = 4;
    h.ball_vy = 0;
    h.update();
    assert_eq!(h.ball_x, 800);
    assert_eq!(h.ball_vx, 4);
}

#[test]
fn tick_on_paddle_bottom_edge_does_not_bounce() {
    // Half-open in y too: a center exactly at paddle_y + height is outside.
    let mut g = Game::new();
    g.screen = Screen::Playing;
    g.ball_x = 22;
    g.ball_y = 346;
    g.ball_vx = -4;
    g.ball_vy = 4;
    g.update();
    assert_eq!(g.ball_x, 18);
    assert_eq!(g.ball_y, 350);
    assert_eq!(g.ball_vx, -4);
}

#[test]
fn tick_on_paddle_top_edge_bounces() {
    // The top edge is inside: a center exactly at paddle_y registers.
    let mut g = Game::new();
    g.screen = Screen::Playing;
    g.ball_x = 22;
    g.ball_y = 246;
    g.ball_vx = -4;
    g.ball_vy = 4;
    g.update();
    assert_eq!(g.ball_x, 18);
    assert_eq!(g.ball_y, 250);
    assert_eq!(g.ball_vx, 4);
}

#[test]
fn drag_clamps_paddle_to_band() {
    let mut g = Game::new();
    g.screen = Screen::Playing;
    g.mouse_button_down_event(MouseButton::Left, 10, 300);
    g.mouse_motion_event(10, -50);
    assert_eq!(g.left_paddle_y, 0);
    g.mouse_motion_event(10, 10000);
    assert_eq!(g.left_paddle_y, 500);
    g.mouse_motion_event(10, 123);
    assert_eq!(g.left_paddle_y, 123);
}

#[test]
fn drag_follows_right_paddle_too() {
    let mut g = Game::new();
    g.screen = Screen::Playing;
    g.mouse_button_down_event(MouseButton::Left, 790, 300);
    assert!(!g.left_paddle_dragging);
    assert!(g.right_paddle_dragging);
    g.mouse_motion_event(790, 77);
    assert_eq!(g.right_paddle_y, 77);
    assert_eq!(g.left_paddle_y, 250);
}

#[test]
fn mouse_down_outside_paddles_starts_no_drag() {
    let mut g = Game::new();
    g.screen = Screen::Playing;
    let before = g;
    g.mouse_button_down_event(MouseButton::Left, 400, 300);
    assert_eq!(g, before);
}

#[test]
fn mouse_up_ends_all_drags() {
    let mut g = Game::new();
    g.screen = Screen::Playing;
    g.mouse_button_down_event(MouseButton::Left, 10, 300);
    assert!(g.left_paddle_dragging);
    g.mouse_button_up_event(MouseButton::Left, 10, 300);
    assert!(!g.left_paddle_dragging);
    assert!(!g.right_paddle_dragging);
}

#[test]
fn mouse_up_without_drag_changes_nothing() {
    let mut g = Game::new();
    g.screen = Screen::Playing;
    g.ball_x = 123;
    g.menu_selection = 2;
    let before = g;
    g.mouse_button_up_event(MouseButton::Left, 400, 300);
    assert_eq!(g, before);
    g.mouse_button_up_event(MouseButton::Other, 0, 0);
    assert_eq!(g, before);
}

#[test]
fn mouse_up_of_other_button_keeps_drag() {
    let mut g = Game::new();
    g.screen = Screen::Playing;
    g.mouse_button_down_event(MouseButton::Left, 10, 300);
    g.mouse_button_up_event(MouseButton::Other, 10, 300);
    assert!(g.left_paddle_dragging);
}

#[test]
fn mouse_motion_without_drag_changes_nothing() {
    let mut g = Game::new();
    g.screen = Screen::Playing;
    let before = g;
    g.mouse_motion_event(400, 42);
    assert_eq!(g, before);
}

#[test]
fn click_anywhere_on_home_opens_menu() {
    let mut g = Game::new();
    g.mouse_button_down_event(MouseButton::Left, 7, 593);
    assert_eq!(g.screen, Screen::Menu);
}

#[test]
fn click_on_easy_option_starts_easy_game() {
    let mut g = Game::new();
    g.screen = Screen::Menu;
    g.mouse_button_down_event(MouseButton::Left, 310, 215);
    assert_eq!(g.menu_selection, 0);
    assert_eq!(g.difficulty, Difficulty::Easy);
    assert_eq!(g.screen, Screen::Playing);
    assert_eq!(g.ball_vx, 2);
    assert_eq!(g.ball_vy, 2);
}

#[test]
fn click_on_shared_region_edge_hits_the_upper_option() {
    // y = 250 lies on the edge both the first and the second region touch;
    // the first region is tested first and wins.
    let mut g = Game::new();
    g.screen = Screen::Menu;
    g.mouse_button_down_event(MouseButton::Left, 300, 250);
    assert_eq!(g.menu_selection, 0);
    assert_eq!(g.difficulty, Difficulty::Easy);
}

#[test]
fn click_outside_menu_options_changes_nothing() {
    let mut g = Game::new();
    g.screen = Screen::Menu;
    let before = g;
    g.mouse_button_down_event(MouseButton::Left, 100, 100);
    assert_eq!(g, before);
    g.mouse_button_down_event(MouseButton::Left, 501, 215);
    assert_eq!(g, before);
    g.mouse_button_down_event(MouseButton::Left, 310, 401);
    assert_eq!(g, before);
}

#[test]
fn click_on_menu_back_to_home_returns_home() {
    let mut g = Game::new();
    g.screen = Screen::Menu;
    g.mouse_button_down_event(MouseButton::Left, 400, 360);
    assert_eq!(g.menu_selection, 3);
    assert_eq!(g.screen, Screen::Home);
}

#[test]
fn non_left_button_is_ignored_everywhere() {
    for s in [Screen::Home, Screen::Menu, Screen::Playing, Screen::Paused] {
        let mut g = Game::new();
        g.screen = s;
        let before = g;
        g.mouse_button_down_event(MouseButton::Other, 310, 215);
        assert_eq!(g, before);
    }
}

#[test]
fn unrecognized_key_is_a_no_op_on_every_screen() {
    for s in [Screen::Home, Screen::Menu, Screen::Playing, Screen::Paused] {
        let mut g = Game::new();
        g.screen = s;
        let before = g;
        g.key_down_event(Key::Other);
        assert_eq!(g, before);
    }
    // Keys another screen would act on are ignored too.
    let mut g = Game::new();
    let before = g;
    g.key_down_event(Key::P);
    assert_eq!(g, before);
}

#[test]
fn p_key_pauses_play() {
    let mut g = Game::new();
    g.screen = Screen::Playing;
    g.key_down_event(Key::P);
    assert_eq!(g.screen, Screen::Paused);
}

#[test]
fn pause_resume_keeps_positions() {
    let mut g = Game::new();
    g.screen = Screen::Paused;
    g.ball_x = 123;
    g.ball_y = 45;
    g.ball_vx = -6;
    g.ball_vy = 6;
    g.left_paddle_y = 17;
    g.pause_selection = 0;
    g.key_down_event(Key::Enter);
    assert_eq!(g.screen, Screen::Playing);
    assert_eq!(g.ball_x, 123);
    assert_eq!(g.ball_y, 45);
    assert_eq!(g.ball_vx, -6);
    assert_eq!(g.left_paddle_y, 17);
}

#[test]
fn pause_restart_recenters_and_relaunches() {
    let mut g = Game::new();
    g.difficulty = Difficulty::Hard;
    g.screen = Screen::Paused;
    g.ball_x = 700;
    g.ball_y = 11;
    g.ball_vx = -6;
    g.ball_vy = 6;
    g.left_paddle_y = 0;
    g.right_paddle_y = 480;
    g.pause_selection = 1;
    g.key_down_event(Key::Enter);
    assert_eq!(g.screen, Screen::Playing);
    assert_eq!(g.left_paddle_y, 250);
    assert_eq!(g.right_paddle_y, 250);
    assert_eq!(g.ball_x, 400);
    assert_eq!(g.ball_y, 300);
    assert_eq!(g.ball_vx, 6);
    assert_eq!(g.ball_vy, 6);
}

#[test]
fn pause_stop_returns_to_menu_keeping_positions() {
    let mut g = Game::new();
    g.screen = Screen::Paused;
    g.ball_x = 700;
    g.left_paddle_y = 33;
    g.pause_selection = 2;
    g.key_down_event(Key::Enter);
    assert_eq!(g.screen, Screen::Menu);
    assert_eq!(g.ball_x, 700);
    assert_eq!(g.left_paddle_y, 33);
}

#[test]
fn pause_back_to_home() {
    let mut g = Game::new();
    g.screen = Screen::Paused;
    g.pause_selection = 3;
    g.key_down_event(Key::Enter);
    assert_eq!(g.screen, Screen::Home);
}

#[test]
fn pause_click_on_restart_restarts() {
    let mut g = Game::new();
    g.screen = Screen::Paused;
    g.ball_x = 10;
    g.ball_vx = 4;
    g.ball_vy = -4;
    // The second option's region starts at y = 250.
    g.mouse_button_down_event(MouseButton::Left, 350, 260);
    assert_eq!(g.pause_selection, 1);
    assert_eq!(g.screen, Screen::Playing);
    assert_eq!(g.ball_x, 400);
    assert_eq!(g.ball_vx, 4);
    assert_eq!(g.ball_vy, 4);
}

#[test]
fn speed_magnitude_invariant_over_many_ticks() {
    let mut g = Game::new();
    g.difficulty = Difficulty::Hard;
    g.start_game();
    let speed = g.ball_vx * g.ball_vx + g.ball_vy * g.ball_vy;
    for _ in 0..2000 {
        g.update();
        assert_eq!(g.ball_vx * g.ball_vx + g.ball_vy * g.ball_vy, speed);
        assert_eq!(g.ball_vx.abs(), 6);
        assert_eq!(g.ball_vy.abs(), 6);
    }
}

#[test]
fn activating_an_out_of_range_option_is_a_no_op() {
    let mut g = Game::new();
    g.screen = Screen::Menu;
    g.menu_selection = 2;
    let before = g;
    g.activate_menu_option(7);
    assert_eq!(g, before);

    let mut p = Game::new();
    p.screen = Screen::Paused;
    let before = p;
    p.activate_pause_option(9);
    assert_eq!(p, before);
}

#[test]
fn stop_then_menu_start_relaunches_at_chosen_speed() {
    let mut g = Game::new();
    g.difficulty = Difficulty::Hard;
    g.start_game();
    g.key_down_event(Key::P);
    g.pause_selection = 2;
    g.key_down_event(Key::Enter);
    assert_eq!(g.screen, Screen::Menu);
    // Re-entering play goes through the menu again and relaunches.
    g.key_down_event(Key::Enter);
    assert_eq!(g.screen, Screen::Playing);
    assert_eq!(g.difficulty, Difficulty::Medium);
    assert_eq!(g.ball_vx, 4);
    assert_eq!(g.ball_vy, 4);
}
