use game_core::input::{Input, Key};

#[test]
fn nothing_held_at_start() {
    let input = Input::new();
    assert!(!input.is_pressed(Key::KeyW));
    assert!(!input.is_pressed(Key::Escape));
}

#[test]
fn press_then_release() {
    let mut input = Input::new();
    input.handle_keyboard(Key::KeyW, true);
    input.handle_keyboard(Key::Space, true);
    assert!(input.is_pressed(Key::KeyW));
    assert!(input.is_pressed(Key::Space));
    assert!(!input.is_pressed(Key::KeyS));
    input.handle_keyboard(Key::KeyW, false);
    assert!(!input.is_pressed(Key::KeyW));
    assert!(input.is_pressed(Key::Space));
}

#[test]
fn repeated_press_needs_one_release() {
    let mut input = Input::new();
    input.handle_keyboard(Key::ArrowUp, true);
    input.handle_keyboard(Key::ArrowUp, true);
    input.handle_keyboard(Key::ArrowUp, true);
    input.handle_keyboard(Key::ArrowUp, false);
    assert!(!input.is_pressed(Key::ArrowUp));
}

#[test]
fn release_of_unheld_key_changes_nothing() {
    let mut input = Input::new();
    input.handle_keyboard(Key::KeyK, true);
    input.handle_keyboard(Key::KeyJ, false);
    assert!(input.is_pressed(Key::KeyK));
    assert!(!input.is_pressed(Key::KeyJ));
}
