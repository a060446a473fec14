use std::cell::Cell;

use lyzah::Time;
use lyzah::application::{App, Ticker};
use lyzah::fixed::FX_ONE;
use lyzah::game::Game;
use lyzah::input::{DeviceEvent, Input, Point2};
use lyzah::instance::Vec3;
use lyzah::stage::Stage;
use lyzah::text::Text;
use lyzah::window::WindowMode;

#[test]
fn a_fresh_clock_is_zero() {
    let time = Time::default();
    assert_eq!(time.elapsed_micros, 0);
    assert_eq!(time.delta_micros, 0);
    assert_eq!(time.frames, 0);
}

#[test]
fn a_game_ticker_runs_the_loop() {
    let mut game = Game::new();
    assert!(game.ticker.is_none());
    game.add_ticker(60);
    assert_eq!(game.ticker.unwrap().tickrate, 60);

    let mut game = Game::new();
    game.add_ticker(30);
    let ticks = Cell::new(0u32);
    let ran = game.start_ticker(&|| ticks.set(ticks.get() + 1));
    assert!(ran);
    assert_eq!(ticks.get(), 1);

    let idle = Game::new();
    let ran = idle.start_ticker(&|| ticks.set(ticks.get() + 1));
    assert!(!ran);
    assert_eq!(ticks.get(), 1);
}

#[test]
fn the_app_ticker_computes_its_interval() {
    let mut app = App::new();
    assert!(app.ticker.is_none());
    app.add_ticker(3);
    let ticker = app.ticker.unwrap();
    assert_eq!(ticker.tickrate, 3);
    assert_eq!(ticker.tick_interval_ms(), 333);
    assert_eq!(Ticker::new(60).tick_interval_ms(), 16);
}

#[test]
fn input_tracks_key_presses() {
    let mut input = Input::default();
    input.process_device_event(&DeviceEvent::Key { key: 17, pressed: true });
    assert_eq!(input.pressed_keys, vec![17]);
    assert!(input.released_keys.is_empty());

    input.process_device_event(&DeviceEvent::Key { key: 17, pressed: false });
    assert!(input.pressed_keys.is_empty());
    assert_eq!(input.released_keys, vec![17]);

    // The released list only reflects the latest event.
    input.process_device_event(&DeviceEvent::Other);
    assert!(input.released_keys.is_empty());
}

#[test]
fn input_tracks_mouse_buttons_and_motion() {
    let mut input = Input::default();
    input.process_device_event(&DeviceEvent::Button { button: 1, pressed: true });
    assert_eq!(input.pressed_mouse_buttons, vec![1]);
    input.process_device_event(&DeviceEvent::Button { button: 1, pressed: false });
    assert!(input.pressed_mouse_buttons.is_empty());
    assert_eq!(input.released_mouse_buttons, vec![1]);

    input.process_device_event(&DeviceEvent::MouseMotion { dx: 3, dy: -4 });
    assert_eq!(input.mouse_delta, Point2 { x: 3, y: -4 });
    input.reset_mouse_delta();
    assert_eq!(input.mouse_delta, Point2 { x: 0, y: 0 });
}

#[test]
fn mouse_position_is_window_centered() {
    let mut input = Input::default();
    // The pointer at the top-left corner of an 800 by 600 window.
    input.update_mouse_pos(Point2 { x: 0, y: 0 }, 800, 600);
    assert_eq!(input.mouse_pos, Point2 { x: -400 * FX_ONE, y: 300 * FX_ONE });
    // The pointer at the center.
    input.update_mouse_pos(Point2 { x: 400 * FX_ONE, y: 300 * FX_ONE }, 800, 600);
    assert_eq!(input.mouse_pos, Point2 { x: 0, y: 0 });
}

#[test]
fn input_records_focus_and_modifiers() {
    let mut input = Input::default();
    input.set_focused(true);
    input.set_mouse_inside_window(true);
    input.update_modifiers_state(0b100);
    assert!(input.is_focused);
    assert!(input.is_mouse_inside_window);
    assert_eq!(input.modifiers_state, 0b100);
}

#[test]
fn text_starts_at_the_origin_with_the_default_size() {
    let text = Text::new(2, "hello");
    assert_eq!(text.font_id, 2);
    assert_eq!(text.text, "hello");
    assert_eq!(text.font_size, 32 * FX_ONE);
    assert_eq!(text.position, Vec3 { x: 0, y: 0, z: 0 });
}

#[test]
fn a_stage_starts_empty() {
    let stage = Stage::new();
    assert!(stage.children.is_empty());
}

#[test]
fn window_modes_are_the_two_expected() {
    let m = WindowMode::Fullscreen;
    assert!(matches!(m, WindowMode::Fullscreen));
    assert!(matches!(WindowMode::Windowed, WindowMode::Windowed));
}
