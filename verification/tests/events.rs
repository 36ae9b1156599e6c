use pip_shell::hotkey::hotkey_response;
use pip_shell::hotkey::InputEvent;
use pip_shell::hotkey::Key;
use pip_shell::hotkey::TogglePipEvent;
use pip_shell::tray::click_action;
use pip_shell::tray::close_requested_response;
use pip_shell::tray::menu_action;
use pip_shell::tray::quit_plan;
use pip_shell::tray::second_instance_ops;
use pip_shell::tray::window_ops;
use pip_shell::tray::TrayAction;
use pip_shell::tray::WindowOp;

#[test]
fn toggle_key_press_emits_one_toggle_event() {
    let r = hotkey_response(&InputEvent::KeyPress(Key::KeyM));
    assert_eq!(r, Some(TogglePipEvent { toggle: true }));
}

#[test]
fn toggle_key_release_emits_nothing() {
    assert_eq!(hotkey_response(&InputEvent::KeyRelease(Key::KeyM)), None);
}

#[test]
fn other_keys_and_pointer_events_emit_nothing() {
    assert_eq!(hotkey_response(&InputEvent::KeyPress(Key::Other)), None);
    assert_eq!(hotkey_response(&InputEvent::KeyRelease(Key::Other)), None);
    assert_eq!(hotkey_response(&InputEvent::Pointer), None);
}

#[test]
fn menu_identifiers_map_to_their_actions() {
    assert_eq!(menu_action("show"), TrayAction::RevealWindow);
    assert_eq!(menu_action("hide"), TrayAction::ConcealWindow);
    assert_eq!(menu_action("quit"), TrayAction::QuitApp);
    assert_eq!(menu_action("settings"), TrayAction::Ignore);
    assert_eq!(menu_action(""), TrayAction::Ignore);
}

#[test]
fn tray_click_toggles_visibility() {
    assert_eq!(click_action(true), TrayAction::ConcealWindow);
    assert_eq!(click_action(false), TrayAction::RevealWindow);
}

#[test]
fn reveal_shows_unminimizes_and_focuses_in_order() {
    assert_eq!(
        window_ops(TrayAction::RevealWindow),
        vec![WindowOp::Show, WindowOp::Unminimize, WindowOp::Focus]
    );
}

#[test]
fn conceal_only_hides() {
    assert_eq!(window_ops(TrayAction::ConcealWindow), vec![WindowOp::Hide]);
}

#[test]
fn quit_destroys_the_window_after_cleanup() {
    assert_eq!(window_ops(TrayAction::QuitApp), vec![WindowOp::Destroy]);
    let plan = quit_plan();
    assert!(plan.cleanup_pngs);
    assert!(plan.destroy_window);
    assert_eq!(plan.exit_code, 0);
}

#[test]
fn ignored_actions_touch_nothing() {
    assert_eq!(window_ops(TrayAction::Ignore), Vec::<WindowOp>::new());
}

#[test]
fn closing_the_window_hides_it_instead() {
    let r = close_requested_response();
    assert!(r.prevent_close);
    assert!(r.hide_window);
}

#[test]
fn second_instance_refocuses_the_running_window() {
    assert_eq!(
        second_instance_ops(),
        vec![WindowOp::Focus, WindowOp::Show, WindowOp::Unminimize]
    );
}
