use render_resources::input::{Input, KeyCode};
use render_resources::window::WindowSettings;

#[test]
fn keys_start_released_and_track_press_and_release() {
    let mut input = Input::new();
    assert!(!input.get_key(KeyCode::W));
    input.press_key(KeyCode::W);
    assert!(input.get_key(KeyCode::W));
    assert!(!input.get_key(KeyCode::S));
    input.press_key(KeyCode::Up);
    input.release_key(KeyCode::W);
    assert!(!input.get_key(KeyCode::W));
    assert!(input.get_key(KeyCode::Up));
}

#[test]
fn mouse_buttons_track_press_and_release() {
    let mut input = Input::new();
    input.press_mouse_button(0);
    input.press_mouse_button(3);
    assert!(input.mouse_state[0]);
    assert!(!input.mouse_state[1]);
    assert!(input.mouse_state[3]);
    input.release_mouse_button(0);
    assert!(!input.mouse_state[0]);
    assert!(input.mouse_state[3]);
}

#[test]
fn window_settings_keep_title_and_dimensions() {
    let settings = WindowSettings::new("main window", (1280, 720));
    assert_eq!(settings.title, "main window");
    assert_eq!(settings.dimensions, (1280, 720));
}
