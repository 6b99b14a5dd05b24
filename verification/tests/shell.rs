use dsh_desktop::paths::Platform;
use dsh_desktop::server::ServerState;
use dsh_desktop::shell::{
    close_main, handle_main_minimize_event, hide_to_tray, is_owned_overlay, minimize_transition,
    on_run_event, on_tray_click, on_tray_menu, on_window_event, overlays_allowed, raise_overlay,
    restore_from_tray, shell_event, should_show_owned_overlay, MainWindow, MinimizeTransition,
    RunEvent, RunReaction, ShellAction, ShellState, TrayReaction, WindowEvent, WindowReaction,
    OWNED_OVERLAY_LABELS,
};
use dsh_desktop::zorder::WindowState;

const SHOWN: Option<MainWindow> = Some(MainWindow { visible: Some(true), minimized: Some(false) });

fn fresh() -> ShellState {
    ShellState { minimized: false, withdrawn: false }
}

#[test]
fn minimize_transition_only_fires_on_edge() {
    assert_eq!(
        minimize_transition(false, false),
        MinimizeTransition::Unchanged
    );
    assert_eq!(
        minimize_transition(true, true),
        MinimizeTransition::Unchanged
    );
    assert_eq!(
        minimize_transition(false, true),
        MinimizeTransition::Minimized
    );
    assert_eq!(
        minimize_transition(true, false),
        MinimizeTransition::Restored
    );
}

#[test]
fn owned_overlays_stay_hidden_while_main_is_minimized_or_hidden() {
    assert!(!should_show_owned_overlay(true, true));
    assert!(!should_show_owned_overlay(true, false));
    assert!(
        !should_show_owned_overlay(false, false),
        "hide-to-tray must not resurrect the frameless dsh overlay"
    );
    assert!(should_show_owned_overlay(false, true));
    assert_eq!(OWNED_OVERLAY_LABELS, ["dsh", "chrome-btn"]);
}

#[test]
fn overlays_need_a_main_window_that_shows() {
    let state = fresh();
    assert!(overlays_allowed(&state, SHOWN));
    assert!(overlays_allowed(&state, Some(MainWindow { visible: Some(true), minimized: None })));
    assert!(!overlays_allowed(&state, Some(MainWindow { visible: None, minimized: None })));
    assert!(!overlays_allowed(&state, Some(MainWindow { visible: Some(true), minimized: Some(true) })));
    assert!(!overlays_allowed(&state, None));
    assert!(!overlays_allowed(&ShellState { withdrawn: true, ..state }, SHOWN));
}

#[test]
fn looks_at_the_main_window_fire_once() {
    let mut state = fresh();
    assert_eq!(handle_main_minimize_event(&mut state, false), None);
    assert_eq!(handle_main_minimize_event(&mut state, true), Some(ShellAction::HideOverlays));
    assert_eq!(handle_main_minimize_event(&mut state, true), None);
    assert!(state.minimized);
    assert_eq!(handle_main_minimize_event(&mut state, false), Some(ShellAction::EmitRestore));
    assert_eq!(state, fresh());
}

#[test]
fn the_tray_hides_and_restores() {
    let mut state = ShellState { minimized: true, withdrawn: false };
    assert_eq!(
        hide_to_tray(&mut state),
        vec![ShellAction::EmitWithdraw, ShellAction::HideOverlays, ShellAction::HideMain]
    );
    assert!(state.withdrawn);
    assert_eq!(handle_main_minimize_event(&mut state, false), Some(ShellAction::HideOverlays));
    assert!(state.minimized);
    assert!(!raise_overlay(Platform::Unix, overlays_allowed(&state, SHOWN), false, true));
    assert_eq!(
        restore_from_tray(&mut state),
        vec![
            ShellAction::UnminimizeMain,
            ShellAction::ShowMain,
            ShellAction::FocusMain,
            ShellAction::EmitRestore,
        ]
    );
    assert_eq!(state, ShellState { minimized: true, withdrawn: false });
}

#[test]
fn announcements_have_names() {
    assert_eq!(shell_event(ShellAction::EmitWithdraw), Some("app:withdraw"));
    assert_eq!(shell_event(ShellAction::EmitRestore), Some("app:restore"));
    assert_eq!(shell_event(ShellAction::HideMain), None);
}

#[test]
fn overlays_are_raised_where_they_may_be() {
    assert!(raise_overlay(Platform::Unix, true, true, false));
    assert!(!raise_overlay(Platform::Unix, false, false, true));
    assert!(raise_overlay(Platform::Windows, true, false, true));
    assert!(!raise_overlay(Platform::Windows, true, true, true));
    assert!(!raise_overlay(Platform::Windows, true, false, false));
    assert!(!raise_overlay(Platform::Windows, false, false, true));
}

#[test]
fn closing_the_main_window_leaves_no_server() {
    let windows = WindowState { dsh_root_pid: 42, main_hwnd: 3, picker_hwnd: 4 };
    let mut server = ServerState { pid: Some(42) };
    let mut after = windows;
    let mut state = fresh();
    let (victim, actions) = close_main(&mut server, &mut after, &mut state, Platform::Windows);
    assert_eq!(victim, Some(42));
    assert_eq!(
        actions,
        vec![ShellAction::EmitWithdraw, ShellAction::HideOverlays, ShellAction::HideMain]
    );
    assert_eq!(server.pid, None);
    assert_eq!(after, WindowState { dsh_root_pid: 0, ..windows });
    assert_eq!(state, ShellState { minimized: false, withdrawn: true });
    assert!(!overlays_allowed(&state, SHOWN));
    let (again, _) = close_main(&mut server, &mut after, &mut state, Platform::Windows);
    assert_eq!(again, None);
}

#[test]
fn leaving_the_application_ends_the_server() {
    assert_eq!(on_run_event(RunEvent::ExitRequested), RunReaction::EndServer);
    assert_eq!(on_run_event(RunEvent::Exited), RunReaction::EndServer);
    assert_eq!(on_run_event(RunEvent::Reopened), RunReaction::Restore);
    assert_eq!(on_run_event(RunEvent::Other), RunReaction::Nothing);
}

#[test]
fn closing_puts_the_application_away() {
    assert_eq!(on_window_event("main", WindowEvent::CloseRequested), WindowReaction::KeepOpenAndWithdraw);
    assert_eq!(on_window_event("chrome-btn", WindowEvent::CloseRequested), WindowReaction::KeepOpen);
    assert_eq!(on_window_event("dsh", WindowEvent::CloseRequested), WindowReaction::Nothing);
    assert_eq!(on_window_event("main", WindowEvent::Placed), WindowReaction::CheckMinimized);
    assert_eq!(on_window_event("dsh", WindowEvent::Placed), WindowReaction::Nothing);
    assert_eq!(on_window_event("main", WindowEvent::Other), WindowReaction::Nothing);
    assert!(is_owned_overlay("dsh"));
    assert!(is_owned_overlay("chrome-btn"));
    assert!(!is_owned_overlay("main"));
}

#[test]
fn the_tray_reacts_to_quit_and_clicks() {
    assert_eq!(on_tray_menu("quit"), TrayReaction::Quit);
    assert_eq!(on_tray_menu("other"), TrayReaction::Nothing);
    assert_eq!(on_tray_click(true, true), TrayReaction::Restore);
    assert_eq!(on_tray_click(true, false), TrayReaction::Nothing);
    assert_eq!(on_tray_click(false, true), TrayReaction::Nothing);
}
