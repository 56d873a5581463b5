//! What happens to the windows: the swap that ends the handshake, and the
//! tray icon's click and menu.
use vstd::prelude::*;
use crate::text::same_text;

verus! {

/// The label of the splash window.
pub const SPLASH_LABEL: &'static str = "splashscreen";

/// The label of the main window.
pub const MAIN_LABEL: &'static str = "main";

/// The id of the tray menu's one entry.
pub const QUIT_ID: &'static str = "quit";

/// One step of the window swap.
#[derive(Clone, Copy, Debug, PartialEq, Eq, Structural)]
pub enum SwapStep {
    /// Close the splash window.
    CloseSplash,
    /// Show the main window.
    ShowMain,
    /// Give the main window the focus.
    FocusMain,
    /// The splash window was not found: report it and skip closing it.
    MissingSplash,
    /// The main window was not found: report it and skip showing it.
    MissingMain,
}

/// The steps of the swap, in order, given which windows were found.
pub open spec fn swap_plan(splash_found: bool, main_found: bool) -> Seq<SwapStep> {
    (if splash_found {
        seq![SwapStep::CloseSplash]
    } else {
        seq![SwapStep::MissingSplash]
    }) + (if main_found {
        seq![SwapStep::ShowMain, SwapStep::FocusMain]
    } else {
        seq![SwapStep::MissingMain]
    })
}

/// The steps of the window swap: the splash window is closed and the main
/// window shown and focused; a window that was not found is reported and
/// its part skipped, while the other part still runs.
pub fn swap_steps(splash_found: bool, main_found: bool) -> (r: Vec<SwapStep>)
    ensures
        r@ == swap_plan(splash_found, main_found),
{
    let mut r: Vec<SwapStep> = Vec::new();
    if splash_found {
        r.push(SwapStep::CloseSplash);
    } else {
        r.push(SwapStep::MissingSplash);
    }
    if main_found {
        r.push(SwapStep::ShowMain);
        r.push(SwapStep::FocusMain);
    } else {
        r.push(SwapStep::MissingMain);
    }
    assert(r@ =~= swap_plan(splash_found, main_found));
    r
}

/// A mouse button, as the tray icon reports it.
#[derive(Clone, Copy, Debug, PartialEq, Eq, Structural)]
pub enum PointerButton {
    Left,
    Right,
    Middle,
}

/// Whether a button went down or came up.
#[derive(Clone, Copy, Debug, PartialEq, Eq, Structural)]
pub enum PointerState {
    Up,
    Down,
}

/// Whether a click on the tray icon shows and focuses the main window: a
/// left click, on release.
pub fn tray_click_reveals_main(button: PointerButton, state: PointerState) -> (r: bool)
    ensures
        r == (button == PointerButton::Left && state == PointerState::Up),
{
    match (button, state) {
        (PointerButton::Left, PointerState::Up) => true,
        _ => false,
    }
}

/// What a selection in the tray menu does.
#[derive(Clone, Copy, Debug, PartialEq, Eq, Structural)]
pub enum MenuCommand {
    /// End the process.
    Quit,
    /// No entry has this id; it is only reported.
    Unhandled,
}

/// The command of the tray menu entry with the given id.
pub fn menu_command(id: &str) -> (r: MenuCommand)
    ensures
        r == (if id@ == QUIT_ID@ {
            MenuCommand::Quit
        } else {
            MenuCommand::Unhandled
        }),
{
    if same_text(id, QUIT_ID) {
        MenuCommand::Quit
    } else {
        MenuCommand::Unhandled
    }
}

} // verus!
