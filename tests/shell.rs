use splash_handshake::greeting::greet;
use splash_handshake::input::{forward, InputEvent, UiEvent};
use splash_handshake::text::same_text;
use splash_handshake::window::{
    menu_command, swap_steps, tray_click_reveals_main, MenuCommand, PointerButton, PointerState,
    SwapStep, MAIN_LABEL, QUIT_ID, SPLASH_LABEL,
};

#[test]
fn swap_skips_missing_windows() {
    assert_eq!(
        swap_steps(false, true),
        vec![SwapStep::MissingSplash, SwapStep::ShowMain, SwapStep::FocusMain]
    );
    assert_eq!(
        swap_steps(true, false),
        vec![SwapStep::CloseSplash, SwapStep::MissingMain]
    );
    assert_eq!(
        swap_steps(false, false),
        vec![SwapStep::MissingSplash, SwapStep::MissingMain]
    );
}

#[test]
fn window_labels() {
    assert_eq!(SPLASH_LABEL, "splashscreen");
    assert_eq!(MAIN_LABEL, "main");
    assert_eq!(QUIT_ID, "quit");
}

#[test]
fn left_release_on_tray_reveals_main() {
    assert!(tray_click_reveals_main(PointerButton::Left, PointerState::Up));
    assert!(!tray_click_reveals_main(PointerButton::Left, PointerState::Down));
    assert!(!tray_click_reveals_main(PointerButton::Right, PointerState::Up));
    assert!(!tray_click_reveals_main(PointerButton::Middle, PointerState::Up));
}

#[test]
fn quit_entry_quits() {
    assert_eq!(menu_command("quit"), MenuCommand::Quit);
    assert_eq!(menu_command("Quit"), MenuCommand::Unhandled);
    assert_eq!(menu_command("settings"), MenuCommand::Unhandled);
    assert_eq!(menu_command(""), MenuCommand::Unhandled);
}

#[test]
fn input_events_forwarded() {
    let m = forward(InputEvent::MouseMove { x: 12, y: -7 }).unwrap();
    assert_eq!(m, UiEvent::MouseMove(12, -7));
    assert_eq!(m.name(), "mouse-move");
    let k = forward(InputEvent::KeyPress("KeyA".to_string())).unwrap();
    assert_eq!(k, UiEvent::KeyPress("KeyA".to_string()));
    assert_eq!(k.name(), "key-press");
    assert_eq!(forward(InputEvent::Other), None);
}

#[test]
fn greet_formats_name() {
    assert_eq!(greet("Ada"), "Hello, Ada! You've been greeted from Rust!");
    assert_eq!(greet(""), "Hello, ! You've been greeted from Rust!");
    assert_eq!(greet("Zoë"), "Hello, Zoë! You've been greeted from Rust!");
}

#[test]
fn text_comparison() {
    assert!(same_text("", ""));
    assert!(same_text("héllo", "héllo"));
    assert!(!same_text("héllo", "hello"));
    assert!(!same_text("ab", "abc"));
}
