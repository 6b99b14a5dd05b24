//! The windows of the application: the main window, its overlays, and the tray.
use vstd::prelude::*;

use crate::paths::Platform;
use crate::server::{given_up, rooted, roots_agree, stop_server, ServerState};
use crate::text::same_text;
use crate::zorder::{allow_overlay_z_raise, z_raise_allowed, WindowState};

verus! {

/// The main window.
pub const MAIN_LABEL: &'static str = "main";

/// The frameless windows that belong to the main window and show only with it.
pub const OWNED_OVERLAY_LABELS: [&'static str; 2] = ["dsh", "chrome-btn"];

/// The entry of the tray menu that ends the application.
pub const QUIT_ID: &'static str = "quit";

/// What is remembered of the main window.
#[derive(Clone, Copy, Debug, PartialEq, Eq, Structural)]
pub struct ShellState {
    /// It was minimized when it was last looked at.
    pub minimized: bool,
    /// It was put away into the tray.
    pub withdrawn: bool,
}

/// What the window system reports of the main window; `None` where it could not tell.
#[derive(Clone, Copy, Debug)]
pub struct MainWindow {
    pub visible: Option<bool>,
    pub minimized: Option<bool>,
}

/// How the main window changed.
#[derive(Clone, Copy, Debug, PartialEq, Eq, Structural)]
pub enum MinimizeTransition {
    Unchanged,
    Minimized,
    Restored,
}

/// Something to do with the windows of the application.
#[derive(Clone, Copy, Debug, PartialEq, Eq, Structural)]
pub enum ShellAction {
    HideOverlays,
    HideMain,
    UnminimizeMain,
    ShowMain,
    FocusMain,
    EmitWithdraw,
    EmitRestore,
}

/// An event of a window.
#[derive(Clone, Copy, Debug, PartialEq, Eq, Structural)]
pub enum WindowEvent {
    CloseRequested,
    /// The window was resized or moved, or the focus came or went.
    Placed,
    Other,
}

/// What an event of a window leads to.
#[derive(Clone, Copy, Debug, PartialEq, Eq, Structural)]
pub enum WindowReaction {
    Nothing,
    /// The window stays open.
    KeepOpen,
    /// The window stays open, the application goes into the tray, and its server is ended; see
    /// `close_main`.
    KeepOpenAndWithdraw,
    /// The main window is looked at: it may have been minimized or restored.
    CheckMinimized,
}

/// An event of the application as a whole.
#[derive(Clone, Copy, Debug, PartialEq, Eq, Structural)]
pub enum RunEvent {
    /// The application was asked for again while it runs.
    Reopened,
    ExitRequested,
    Exited,
    Other,
}

/// What an event of the application as a whole leads to.
#[derive(Clone, Copy, Debug, PartialEq, Eq, Structural)]
pub enum RunReaction {
    Nothing,
    Restore,
    /// The server is given up (`stop_server`) and its process group ended.
    EndServer,
}

/// What a click in the tray leads to.
#[derive(Clone, Copy, Debug, PartialEq, Eq, Structural)]
pub enum TrayReaction {
    Nothing,
    Restore,
    Quit,
}

/// The change between two looks at the main window.
pub open spec fn transition(was_minimized: bool, is_minimized: bool) -> MinimizeTransition {
    if was_minimized == is_minimized {
        MinimizeTransition::Unchanged
    } else if is_minimized {
        MinimizeTransition::Minimized
    } else {
        MinimizeTransition::Restored
    }
}

/// The change between two looks at the main window.
pub fn minimize_transition(was_minimized: bool, is_minimized: bool) -> (change: MinimizeTransition)
    ensures
        change == transition(was_minimized, is_minimized),
{
    match (was_minimized, is_minimized) {
        (false, true) => MinimizeTransition::Minimized,
        (true, false) => MinimizeTransition::Restored,
        _ => MinimizeTransition::Unchanged,
    }
}

/// Overlays show only with a main window that shows.
pub open spec fn overlay_may_show(main_minimized: bool, main_visible: bool) -> bool {
    main_visible && !main_minimized
}

/// Whether the overlays of the main window may show.
pub fn should_show_owned_overlay(main_minimized: bool, main_visible: bool) -> (show: bool)
    ensures
        show == overlay_may_show(main_minimized, main_visible),
{
    main_visible && !main_minimized
}

/// The answer of the window system, taken for `false` where there is none.
pub open spec fn known(answer: Option<bool>) -> bool {
    answer == Some(true)
}

fn is_known(answer: Option<bool>) -> (yes: bool)
    ensures
        yes == known(answer),
{
    match answer {
        Some(yes) => yes,
        None => false,
    }
}

/// Overlays may show in this state of the application.
pub open spec fn overlays_ok(state: ShellState, main: Option<MainWindow>) -> bool {
    !state.withdrawn && match main {
        Some(m) => overlay_may_show(known(m.minimized), known(m.visible)),
        None => false,
    }
}

/// Whether overlays may show: not while the application is in the tray, nor without a main window
/// that shows.
pub fn overlays_allowed(state: &ShellState, main: Option<MainWindow>) -> (allowed: bool)
    ensures
        allowed == overlays_ok(*state, main),
{
    if state.withdrawn {
        return false;
    }
    match main {
        Some(m) => should_show_owned_overlay(is_known(m.minimized), is_known(m.visible)),
        None => false,
    }
}

/// What a look at the main window leads to.
pub open spec fn minimize_reaction(state: ShellState, is_minimized: bool) -> Option<ShellAction> {
    if state.withdrawn {
        Some(ShellAction::HideOverlays)
    } else {
        match transition(state.minimized, is_minimized) {
            MinimizeTransition::Unchanged => None,
            MinimizeTransition::Minimized => Some(ShellAction::HideOverlays),
            MinimizeTransition::Restored => Some(ShellAction::EmitRestore),
        }
    }
}

/// The state after a look at the main window; in the tray nothing is remembered.
pub open spec fn after_look(state: ShellState, is_minimized: bool) -> ShellState {
    if state.withdrawn {
        state
    } else {
        ShellState { minimized: is_minimized, ..state }
    }
}

/// Takes in a look at the main window.
pub fn handle_main_minimize_event(state: &mut ShellState, is_minimized: bool) -> (action: Option<
    ShellAction,
>)
    ensures
        *final(state) == after_look(*old(state), is_minimized),
        action == minimize_reaction(*old(state), is_minimized),
{
    if state.withdrawn {
        return Some(ShellAction::HideOverlays);
    }
    let was_minimized: bool = state.minimized;
    state.minimized = is_minimized;
    match minimize_transition(was_minimized, is_minimized) {
        MinimizeTransition::Unchanged => None,
        MinimizeTransition::Minimized => Some(ShellAction::HideOverlays),
        MinimizeTransition::Restored => Some(ShellAction::EmitRestore),
    }
}

/// The state of an application that went into the tray.
pub open spec fn withdrawn(state: ShellState) -> ShellState {
    ShellState { withdrawn: true, ..state }
}

/// The state of an application that came back from the tray.
pub open spec fn restored(state: ShellState) -> ShellState {
    ShellState { withdrawn: false, ..state }
}

/// What putting the application away does to its windows.
pub open spec fn withdraw_actions() -> Seq<ShellAction> {
    seq![ShellAction::EmitWithdraw, ShellAction::HideOverlays, ShellAction::HideMain]
}

/// Puts the application away into the tray.
pub fn hide_to_tray(state: &mut ShellState) -> (actions: Vec<ShellAction>)
    ensures
        *final(state) == withdrawn(*old(state)),
        actions@ == withdraw_actions(),
{
    state.withdrawn = true;
    let actions = vec![ShellAction::EmitWithdraw, ShellAction::HideOverlays, ShellAction::HideMain];
    assert(actions@ == withdraw_actions());
    actions
}

/// Closes the main window: the application goes into the tray, and the server that it runs is given
/// up. The first result is the process whose group is to be ended, if there is one; the second is
/// what to do with the windows.
pub fn close_main(
    server: &mut ServerState,
    windows: &mut WindowState,
    shell: &mut ShellState,
    platform: Platform,
) -> (done: (Option<u32>, Vec<ShellAction>))
    ensures
        (done.0, *final(server)) == given_up(*old(server)),
        *final(windows) == rooted(*old(windows), *final(server), platform),
        *final(shell) == withdrawn(*old(shell)),
        done.1@ == withdraw_actions(),
{
    let victim: Option<u32> = stop_server(server, windows, platform);
    (victim, hide_to_tray(shell))
}

/// Brings the application back from the tray.
pub fn restore_from_tray(state: &mut ShellState) -> (actions: Vec<ShellAction>)
    ensures
        *final(state) == restored(*old(state)),
        actions@ == seq![
            ShellAction::UnminimizeMain,
            ShellAction::ShowMain,
            ShellAction::FocusMain,
            ShellAction::EmitRestore,
        ],
{
    state.withdrawn = false;
    let actions = vec![
        ShellAction::UnminimizeMain,
        ShellAction::ShowMain,
        ShellAction::FocusMain,
        ShellAction::EmitRestore,
    ];
    assert(actions@ == seq![
        ShellAction::UnminimizeMain,
        ShellAction::ShowMain,
        ShellAction::FocusMain,
        ShellAction::EmitRestore,
    ]);
    actions
}

/// The event that an action announces, if it announces one.
pub fn shell_event(action: ShellAction) -> (event: Option<&'static str>)
    ensures
        match action {
            ShellAction::EmitWithdraw => event matches Some(e) && e@ == "app:withdraw"@,
            ShellAction::EmitRestore => event matches Some(e) && e@ == "app:restore"@,
            _ => event is None,
        },
{
    match action {
        ShellAction::EmitWithdraw => Some("app:withdraw"),
        ShellAction::EmitRestore => Some("app:restore"),
        _ => None,
    }
}

/// An overlay is shown above its siblings when asked for.
pub open spec fn raise_granted(
    platform: Platform,
    allowed: bool,
    picker_showing: bool,
    foreground_is_ours: bool,
) -> bool {
    allowed && (platform == Platform::Windows ==> z_raise_allowed(
        picker_showing,
        foreground_is_ours,
    ))
}

/// Whether an overlay is shown above its siblings when asked for: overlays must be allowed to show,
/// and on Windows they yield to dialogs and to other applications.
pub fn raise_overlay(
    platform: Platform,
    allowed: bool,
    picker_showing: bool,
    foreground_is_ours: bool,
) -> (raise: bool)
    ensures
        raise == raise_granted(platform, allowed, picker_showing, foreground_is_ours),
{
    if !allowed {
        return false;
    }
    match platform {
        Platform::Windows => allow_overlay_z_raise(picker_showing, foreground_is_ours),
        Platform::Unix => true,
    }
}

/// A label of an overlay.
pub open spec fn overlay_label(label: Seq<char>) -> bool {
    label == "dsh"@ || label == "chrome-btn"@
}

/// Whether a window is an overlay of the main window.
pub fn is_owned_overlay(label: &str) -> (yes: bool)
    ensures
        yes == overlay_label(label@),
{
    same_text(label, OWNED_OVERLAY_LABELS[0]) || same_text(label, OWNED_OVERLAY_LABELS[1])
}

/// What an event of a window leads to.
pub open spec fn reaction(label: Seq<char>, event: WindowEvent) -> WindowReaction {
    match event {
        WindowEvent::CloseRequested => if label == "main"@ {
            WindowReaction::KeepOpenAndWithdraw
        } else if label == "chrome-btn"@ {
            WindowReaction::KeepOpen
        } else {
            WindowReaction::Nothing
        },
        WindowEvent::Placed => if label == "main"@ {
            WindowReaction::CheckMinimized
        } else {
            WindowReaction::Nothing
        },
        WindowEvent::Other => WindowReaction::Nothing,
    }
}

/// What an event of the window `label` leads to.
pub fn on_window_event(label: &str, event: WindowEvent) -> (what: WindowReaction)
    ensures
        what == reaction(label@, event),
{
    match event {
        WindowEvent::CloseRequested => if same_text(label, MAIN_LABEL) {
            WindowReaction::KeepOpenAndWithdraw
        } else if same_text(label, OWNED_OVERLAY_LABELS[1]) {
            WindowReaction::KeepOpen
        } else {
            WindowReaction::Nothing
        },
        WindowEvent::Placed => if same_text(label, MAIN_LABEL) {
            WindowReaction::CheckMinimized
        } else {
            WindowReaction::Nothing
        },
        WindowEvent::Other => WindowReaction::Nothing,
    }
}

/// What an event of the application as a whole leads to.
pub open spec fn run_reaction(event: RunEvent) -> RunReaction {
    match event {
        RunEvent::Reopened => RunReaction::Restore,
        RunEvent::ExitRequested => RunReaction::EndServer,
        RunEvent::Exited => RunReaction::EndServer,
        RunEvent::Other => RunReaction::Nothing,
    }
}

/// What an event of the application as a whole leads to.
pub fn on_run_event(event: RunEvent) -> (what: RunReaction)
    ensures
        what == run_reaction(event),
{
    match event {
        RunEvent::Reopened => RunReaction::Restore,
        RunEvent::ExitRequested | RunEvent::Exited => RunReaction::EndServer,
        RunEvent::Other => RunReaction::Nothing,
    }
}

/// What choosing an entry of the tray menu leads to.
pub fn on_tray_menu(id: &str) -> (what: TrayReaction)
    ensures
        what == (if id@ == "quit"@ {
            TrayReaction::Quit
        } else {
            TrayReaction::Nothing
        }),
{
    if same_text(id, QUIT_ID) {
        TrayReaction::Quit
    } else {
        TrayReaction::Nothing
    }
}

/// What a click on the tray icon leads to; it counts when the left button is let go.
pub fn on_tray_click(left_button: bool, released: bool) -> (what: TrayReaction)
    ensures
        what == (if left_button && released {
            TrayReaction::Restore
        } else {
            TrayReaction::Nothing
        }),
{
    if left_button && released {
        TrayReaction::Restore
    } else {
        TrayReaction::Nothing
    }
}

/// A look at the main window has an effect only when the window was minimized or restored since the
/// last look; a second look at the same window has none.
pub proof fn law_minimize_fires_on_edges_only(state: ShellState, is_minimized: bool)
    requires
        !state.withdrawn,
    ensures
        minimize_reaction(state, is_minimized) is Some <==> state.minimized != is_minimized,
        minimize_reaction(after_look(state, is_minimized), is_minimized) is None,
{
}

/// In the tray nothing brings overlays up: no look at the main window announces a restored window
/// or changes what is remembered, and no request to raise an overlay is granted, whatever the
/// window system reports.
pub proof fn law_tray_keeps_overlays_hidden(
    state: ShellState,
    is_minimized: bool,
    main: Option<MainWindow>,
    platform: Platform,
    picker_showing: bool,
    foreground: bool,
)
    requires
        state.withdrawn,
    ensures
        minimize_reaction(state, is_minimized) == Some(ShellAction::HideOverlays),
        after_look(state, is_minimized) == state,
        !raise_granted(platform, overlays_ok(state, main), picker_showing, foreground),
{
}

/// Overlays are never raised while the main window is minimized, hidden or missing.
pub proof fn law_overlays_need_the_main_window(
    state: ShellState,
    main: Option<MainWindow>,
    platform: Platform,
    picker_showing: bool,
    foreground: bool,
)
    requires
        raise_granted(platform, overlays_ok(state, main), picker_showing, foreground),
    ensures
        main matches Some(m) && m.visible == Some(true) && m.minimized != Some(true),
        !state.withdrawn,
{
}

/// Coming back from the tray undoes going there: what was remembered of the main window is as it
/// was before, and overlays may show again as they could then.
pub proof fn law_restore_undoes_withdraw(state: ShellState, main: Option<MainWindow>)
    requires
        !state.withdrawn,
    ensures
        restored(withdrawn(state)) == state,
        overlays_ok(restored(withdrawn(state)), main) == overlays_ok(state, main),
{
}

/// Closing the main window leaves no server process: the one that this application ran is given up
/// to be ended, none is remembered, and no overlay may show. The window itself may stay open in the
/// tray. No other window has this effect; the one that opens the toolbar just stays open.
pub proof fn law_closing_leaves_no_server(
    label: Seq<char>,
    server: ServerState,
    windows: WindowState,
    shell: ShellState,
    main: Option<MainWindow>,
    platform: Platform,
)
    ensures
        reaction(label, WindowEvent::CloseRequested) == WindowReaction::KeepOpenAndWithdraw <==> label
            == "main"@,
        reaction(label, WindowEvent::CloseRequested) == WindowReaction::KeepOpen <==> label
            == "chrome-btn"@,
        given_up(server).0 == server.pid,
        given_up(server).1.pid is None,
        roots_agree(
            given_up(server).1,
            rooted(windows, given_up(server).1, platform),
            platform,
        ),
        !overlays_ok(withdrawn(shell), main),
        withdraw_actions().contains(ShellAction::HideOverlays),
        withdraw_actions().contains(ShellAction::HideMain),
{
    reveal_strlit("main");
    reveal_strlit("chrome-btn");
    assert("main"@.len() != "chrome-btn"@.len());
    assert(withdraw_actions()[1] == ShellAction::HideOverlays);
    assert(withdraw_actions()[2] == ShellAction::HideMain);
}

/// Leaving the application gives its server up to be ended, and does so once: both events of an
/// exit lead to it, and the second finds no process.
pub proof fn law_exit_ends_the_server(event: RunEvent, server: ServerState)
    ensures
        run_reaction(event) == RunReaction::EndServer <==> event == RunEvent::ExitRequested || event
            == RunEvent::Exited,
        given_up(server).0 == server.pid,
        given_up(given_up(server).1).0 is None,
{
}

/// Overlays may show exactly while the application is not in the tray and its main window is known
/// to be visible and not known to be minimized.
pub proof fn law_overlays_show_with_the_main_window(state: ShellState, main: Option<MainWindow>)
    ensures
        overlays_ok(state, main) <==> !state.withdrawn && (main matches Some(m) && m.visible == Some(
            true,
        ) && m.minimized != Some(true)),
        forall|minimized: bool, visible: bool| #[trigger]
            overlay_may_show(minimized, visible) <==> visible && !minimized,
{
}

/// A main window that became minimized takes its overlays with it, one that was restored announces
/// that, and one that did not change leads to nothing; how it was found is remembered. In the tray
/// every look hides the overlays, and nothing is remembered.
pub proof fn law_looks_at_the_main_window(state: ShellState, is_minimized: bool)
    ensures
        state.withdrawn ==> minimize_reaction(state, is_minimized) == Some(
            ShellAction::HideOverlays,
        ) && after_look(state, is_minimized) == state,
        !state.withdrawn ==> after_look(state, is_minimized) == (ShellState {
            minimized: is_minimized,
            withdrawn: false,
        }),
        !state.withdrawn && state.minimized == is_minimized ==> minimize_reaction(
            state,
            is_minimized,
        ) is None,
        !state.withdrawn && !state.minimized && is_minimized ==> minimize_reaction(
            state,
            is_minimized,
        ) == Some(ShellAction::HideOverlays),
        !state.withdrawn && state.minimized && !is_minimized ==> minimize_reaction(
            state,
            is_minimized,
        ) == Some(ShellAction::EmitRestore),
{
}

/// Going into the tray and coming back change only whether the application is there. Going there
/// announces it, then hides the overlays, then the main window.
pub proof fn law_tray_in_full(state: ShellState)
    ensures
        withdrawn(state) == (ShellState { minimized: state.minimized, withdrawn: true }),
        restored(state) == (ShellState { minimized: state.minimized, withdrawn: false }),
        withdraw_actions() == seq![
            ShellAction::EmitWithdraw,
            ShellAction::HideOverlays,
            ShellAction::HideMain,
        ],
{
}

/// An overlay that is asked for is raised exactly if overlays may show and, on Windows, no dialog
/// shows and this application is in front.
pub proof fn law_raised_iff_nothing_is_in_the_way(
    platform: Platform,
    allowed: bool,
    picker_showing: bool,
    foreground_is_ours: bool,
)
    ensures
        raise_granted(platform, allowed, picker_showing, foreground_is_ours) <==> allowed && (
        platform == Platform::Unix || !picker_showing && foreground_is_ours),
{
}

/// Each event of a window leads to something for the windows that it concerns and to nothing for
/// all others: closing for the main window and the one that opens the toolbar, a change of place or
/// focus for the main window.
pub proof fn law_window_reactions(label: Seq<char>)
    ensures
        reaction(label, WindowEvent::CloseRequested) == (if label == "main"@ {
            WindowReaction::KeepOpenAndWithdraw
        } else if label == "chrome-btn"@ {
            WindowReaction::KeepOpen
        } else {
            WindowReaction::Nothing
        }),
        reaction(label, WindowEvent::Placed) == WindowReaction::CheckMinimized <==> label == "main"@,
        reaction(label, WindowEvent::Placed) == WindowReaction::Nothing <==> label != "main"@,
        reaction(label, WindowEvent::Other) == WindowReaction::Nothing,
        overlay_label(label) <==> label == "dsh"@ || label == "chrome-btn"@,
{
}

/// The application comes back exactly when it is asked for again, and gives its server up exactly
/// when it is left.
pub proof fn law_run_reactions(event: RunEvent)
    ensures
        run_reaction(event) == RunReaction::Restore <==> event == RunEvent::Reopened,
        run_reaction(event) == RunReaction::EndServer <==> event == RunEvent::ExitRequested || event
            == RunEvent::Exited,
        run_reaction(event) == RunReaction::Nothing <==> event == RunEvent::Other,
{
}

/// The main window changed exactly if it was found otherwise before, and then to how it was found.
pub proof fn law_transitions(was_minimized: bool, is_minimized: bool)
    ensures
        transition(was_minimized, is_minimized) == MinimizeTransition::Unchanged <==> was_minimized
            == is_minimized,
        transition(was_minimized, is_minimized) == MinimizeTransition::Minimized <==> !was_minimized
            && is_minimized,
        transition(was_minimized, is_minimized) == MinimizeTransition::Restored <==> was_minimized
            && !is_minimized,
{
}

} // verus!
