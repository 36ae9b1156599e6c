//! The tray and window lifecycle: how a tray-menu selection, a click on
//! the tray icon, a close request, or a second launched instance maps to
//! window operations. The surrounding binary receives the OS events,
//! asks, and carries the returned operations out in order on the single
//! main window.

use vstd::prelude::*;

verus! {

/// One operation on the main window, in the order the shell performs
/// them.
#[derive(Clone, Copy, Debug, PartialEq, Eq, Structural)]
pub enum WindowOp {
    Show,
    Hide,
    Unminimize,
    Focus,
    Destroy,
}

/// What a tray event asks for, as a closed enumeration: the string menu
/// identifiers of the OS menu are mapped onto it, unknown ones onto
/// `Ignore`.
#[derive(Clone, Copy, Debug, PartialEq, Eq, Structural)]
pub enum TrayAction {
    RevealWindow,
    ConcealWindow,
    QuitApp,
    Ignore,
}

/// How the shell quits: run the PNG cleanup first, destroy the window,
/// then exit with this code.
#[derive(Clone, Copy, Debug, PartialEq, Eq, Structural)]
pub struct QuitPlan {
    pub cleanup_pngs: bool,
    pub destroy_window: bool,
    pub exit_code: i32,
}

/// The answer to a close request on the window: the close is suppressed
/// and the window hidden, so the process lives on in the tray.
#[derive(Clone, Copy, Debug, PartialEq, Eq, Structural)]
pub struct CloseResponse {
    pub prevent_close: bool,
    pub hide_window: bool,
}

/// The action behind each menu identifier: `show`, `hide` and `quit` are
/// the three items the tray menu carries; anything else is ignored.
pub open spec fn spec_menu_action(id: Seq<char>) -> TrayAction {
    if id == "show"@ {
        TrayAction::RevealWindow
    } else if id == "hide"@ {
        TrayAction::ConcealWindow
    } else if id == "quit"@ {
        TrayAction::QuitApp
    } else {
        TrayAction::Ignore
    }
}

/// The operations an action performs on the window. Revealing shows,
/// unminimizes and focuses; concealing hides; quitting destroys the
/// window (the rest of quitting stands in [`quit_plan`]).
pub open spec fn spec_window_ops(action: TrayAction) -> Seq<WindowOp> {
    match action {
        TrayAction::RevealWindow => seq![WindowOp::Show, WindowOp::Unminimize, WindowOp::Focus],
        TrayAction::ConcealWindow => seq![WindowOp::Hide],
        TrayAction::QuitApp => seq![WindowOp::Destroy],
        TrayAction::Ignore => Seq::empty(),
    }
}

fn str_eq(a: &str, b: &str) -> (r: bool)
    ensures
        r == (a@ == b@),
{
    let owned_a = a.to_owned();
    let owned_b = b.to_owned();
    owned_a == owned_b
}

/// Maps a tray-menu identifier to its action.
pub fn menu_action(id: &str) -> (r: TrayAction)
    ensures
        r == spec_menu_action(id@),
{
    if str_eq(id, "show") {
        TrayAction::RevealWindow
    } else if str_eq(id, "hide") {
        TrayAction::ConcealWindow
    } else if str_eq(id, "quit") {
        TrayAction::QuitApp
    } else {
        TrayAction::Ignore
    }
}

/// A left click on the tray icon toggles the window: hide it when it is
/// visible, reveal it otherwise.
pub fn click_action(window_visible: bool) -> (r: TrayAction)
    ensures
        r == if window_visible {
            TrayAction::ConcealWindow
        } else {
            TrayAction::RevealWindow
        },
{
    if window_visible {
        TrayAction::ConcealWindow
    } else {
        TrayAction::RevealWindow
    }
}

/// The window operations for an action, in execution order.
pub fn window_ops(action: TrayAction) -> (r: Vec<WindowOp>)
    ensures
        r@ == spec_window_ops(action),
{
    let mut ops: Vec<WindowOp> = Vec::new();
    match action {
        TrayAction::RevealWindow => {
            ops.push(WindowOp::Show);
            ops.push(WindowOp::Unminimize);
            ops.push(WindowOp::Focus);
        },
        TrayAction::ConcealWindow => {
            ops.push(WindowOp::Hide);
        },
        TrayAction::QuitApp => {
            ops.push(WindowOp::Destroy);
        },
        TrayAction::Ignore => {},
    }
    proof {
        assert(ops@ =~= spec_window_ops(action));
    }
    ops
}

/// Quitting runs the PNG cleanup, destroys the window, and exits with
/// code zero.
pub fn quit_plan() -> (r: QuitPlan)
    ensures
        r == (QuitPlan { cleanup_pngs: true, destroy_window: true, exit_code: 0i32 }),
{
    QuitPlan { cleanup_pngs: true, destroy_window: true, exit_code: 0 }
}

/// Closing the window never ends the process: the close is suppressed
/// and the window hidden instead.
pub fn close_requested_response() -> (r: CloseResponse)
    ensures
        r == (CloseResponse { prevent_close: true, hide_window: true }),
{
    CloseResponse { prevent_close: true, hide_window: true }
}

/// When a second instance launches, the running instance's window is
/// focused, shown and unminimized, in that order.
pub fn second_instance_ops() -> (r: Vec<WindowOp>)
    ensures
        r@ == seq![WindowOp::Focus, WindowOp::Show, WindowOp::Unminimize],
{
    let mut ops: Vec<WindowOp> = Vec::new();
    ops.push(WindowOp::Focus);
    ops.push(WindowOp::Show);
    ops.push(WindowOp::Unminimize);
    proof {
        assert(ops@ =~= seq![WindowOp::Focus, WindowOp::Show, WindowOp::Unminimize]);
    }
    ops
}

/// A tray action either operates on the window or quits, never both: the
/// quit action is the only one whose operations destroy the window, and
/// reveal and conceal never do.
pub proof fn lemma_tray_actions_disjoint(action: TrayAction)
    ensures
        spec_window_ops(action).contains(WindowOp::Destroy) <==> action == TrayAction::QuitApp,
        action != TrayAction::QuitApp ==> forall|i: int|
            0 <= i < spec_window_ops(action).len() ==> spec_window_ops(action)[i]
                != WindowOp::Destroy,
{
    if action == TrayAction::QuitApp {
        assert(spec_window_ops(action)[0] == WindowOp::Destroy);
    }
}

} // verus!
