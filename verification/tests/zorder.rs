use dsh_desktop::paths::Platform;
use dsh_desktop::zorder::{
    allow_overlay_z_raise, apply_tool_window_hwnd, consider_lift, foreground_is_ours, is_elevated,
    is_visible_toplevel, lift_foreign_dialog, mark_elevated_title, on_win_event, parent_pid,
    picker_is_showing, pid_is_under_root_with, raise_win32, remember_dsh_root_pid,
    remember_main_hwnd, scan_and_lift_pickers, should_lift_foreign_window, snapshot_is_open,
    window_class, PickerScan, ProcessEntry32W, WindowFacts, WindowOp, WindowState,
    EVENT_OBJECT_DESTROY, EVENT_OBJECT_HIDE, EVENT_OBJECT_SHOW, EVENT_SYSTEM_DIALOGSTART,
};

const EMPTY: WindowState = WindowState { dsh_root_pid: 0, main_hwnd: 0, picker_hwnd: 0 };

fn entry(pid: u32, parent: u32) -> ProcessEntry32W {
    ProcessEntry32W {
        dw_size: 0,
        cnt_usage: 0,
        th32_process_id: pid,
        th32_default_heap_id: 0,
        th32_module_id: 0,
        cnt_threads: 1,
        th32_parent_process_id: parent,
        pc_pri_class_base: 8,
        dw_flags: 0,
        sz_exe_file: [0; 260],
    }
}

fn facts(class: &str, pid: u32) -> WindowFacts {
    WindowFacts {
        visible_toplevel: true,
        pid,
        class: class.to_string(),
        our_pid: 1,
        foreground_is_ours: false,
    }
}

fn lift(hwnd: isize, main: isize) -> Vec<WindowOp> {
    let mut ops = vec![WindowOp::AllowForeground { process: 0xFFFF_FFFF }];
    if main != 0 {
        ops.push(WindowOp::SetOwner { hwnd, owner: main });
    }
    ops.push(WindowOp::SetPosition { hwnd, after: -1, flags: 0x0001 | 0x0002 | 0x0040 });
    ops.push(WindowOp::BringToTop { hwnd });
    ops.push(WindowOp::SetForeground { hwnd });
    ops
}

#[test]
fn pid_is_under_root_walks_ancestors() {
    let parent_of = |pid: u32| match pid {
        30 => Some(20),
        20 => Some(10),
        10 => Some(1),
        _ => None,
    };
    assert!(pid_is_under_root_with(30, 10, parent_of));
    assert!(pid_is_under_root_with(10, 10, parent_of));
    assert!(!pid_is_under_root_with(30, 99, parent_of));
    assert!(!pid_is_under_root_with(1, 10, parent_of));
}

#[test]
fn a_walk_is_bounded_and_survives_cycles() {
    assert!(!pid_is_under_root_with(1, 9, |pid| Some(3 - pid)));
    assert!(!pid_is_under_root_with(5, 9, |pid| Some(pid)));
    assert!(!pid_is_under_root_with(5, 0, |_| Some(0)));
    assert!(pid_is_under_root_with(163, 100, |pid| Some(pid - 1)));
    assert!(!pid_is_under_root_with(164, 100, |pid| Some(pid - 1)));
}

#[test]
fn parents_come_from_the_process_table() {
    let table = vec![entry(4, 1), entry(7, 4), entry(7, 9)];
    assert_eq!(parent_pid(&table, 7), Some(4));
    assert_eq!(parent_pid(&table, 4), Some(1));
    assert_eq!(parent_pid(&table, 5), None);
    assert!(snapshot_is_open(3));
    assert!(!snapshot_is_open(0));
    assert!(!snapshot_is_open(-1));
    assert!(pid_is_under_root_with(7, 1, |pid| parent_pid(&table, pid)));
}

#[test]
fn overlay_z_raise_yields_to_foreign_picker_and_other_apps() {
    assert!(allow_overlay_z_raise(false, true));
    assert!(!allow_overlay_z_raise(true, true));
    assert!(!allow_overlay_z_raise(false, false));
    assert!(!allow_overlay_z_raise(true, false));
}

#[test]
fn lift_dsh_worker_dialogs_but_not_our_own_windows() {
    assert!(!should_lift_foreign_window("#32770", 1, 1, false, true, true));
    assert!(!should_lift_foreign_window("#32770", 9, 1, false, true, false));
    assert!(should_lift_foreign_window("#32770", 9, 1, false, true, true));
    assert!(should_lift_foreign_window("Chrome_WidgetWin_1", 9, 1, true, false, true));
    assert!(!should_lift_foreign_window("Chrome_WidgetWin_1", 9, 1, false, true, true));
}

#[test]
fn the_root_is_remembered_on_windows_only() {
    let mut state = EMPTY;
    remember_dsh_root_pid(&mut state, Platform::Unix, Some(7));
    assert_eq!(state, EMPTY);
    remember_dsh_root_pid(&mut state, Platform::Windows, Some(7));
    assert_eq!(state.dsh_root_pid, 7);
    remember_dsh_root_pid(&mut state, Platform::Windows, None);
    assert_eq!(state, EMPTY);
    remember_main_hwnd(&mut state, 5);
    assert_eq!(state, WindowState { main_hwnd: 5, ..EMPTY });
}

#[test]
fn windows_are_judged_by_what_the_system_reports() {
    assert!(is_visible_toplevel(5, 1, 1, 5));
    assert!(!is_visible_toplevel(5, 0, 1, 5));
    assert!(!is_visible_toplevel(5, 1, 0, 5));
    assert!(!is_visible_toplevel(5, 1, 1, 6));
    assert!(foreground_is_ours(5, 7, 7));
    assert!(!foreground_is_ours(0, 7, 7));
    assert!(!foreground_is_ours(5, 8, 7));
    assert!(picker_is_showing(&WindowState { picker_hwnd: 5, ..EMPTY }, true));
    assert!(!picker_is_showing(&WindowState { picker_hwnd: 5, ..EMPTY }, false));
    assert!(!picker_is_showing(&EMPTY, true));
}

#[test]
fn window_classes_are_read_from_the_buffer() {
    let mut buf = [0u16; 256];
    for (i, unit) in "#32770".encode_utf16().enumerate() {
        buf[i] = unit;
    }
    assert_eq!(window_class(&buf, 6), "#32770");
    assert_eq!(window_class(&buf, 3), "#32");
    assert_eq!(window_class(&buf, 0), "");
    assert_eq!(window_class(&buf, -1), "");
    assert_eq!(window_class(&[0xd83d, 0xde00, 0xd800], 3), "\u{1f600}\u{fffd}");
}

#[test]
fn a_dialog_is_lifted_above_the_main_window() {
    let mut state = WindowState { main_hwnd: 3, ..EMPTY };
    assert_eq!(lift_foreign_dialog(&mut state, 9), lift(9, 3));
    assert_eq!(state.picker_hwnd, 9);
    let mut alone = EMPTY;
    assert_eq!(lift_foreign_dialog(&mut alone, 9), lift(9, 0));
    assert_eq!(alone.main_hwnd, 0);
}

#[test]
fn only_wanted_windows_are_lifted() {
    let parent_of = |pid: u32| if pid == 30 { Some(20) } else { None };
    let start = WindowState { dsh_root_pid: 20, main_hwnd: 3, picker_hwnd: 0 };
    let mut state = start;
    assert_eq!(consider_lift(&mut state, 9, &facts("x", 30), true, parent_of), lift(9, 3));
    assert_eq!(state.picker_hwnd, 9);
    let mut state = start;
    assert!(consider_lift(&mut state, 9, &facts("x", 30), false, parent_of).is_empty());
    assert!(consider_lift(&mut state, 9, &facts("#32770", 40), true, parent_of).is_empty());
    assert!(consider_lift(&mut state, 0, &facts("x", 30), true, parent_of).is_empty());
    let mut hidden = facts("x", 30);
    hidden.visible_toplevel = false;
    assert!(consider_lift(&mut state, 9, &hidden, true, parent_of).is_empty());
    let mut ours = facts("x", 30);
    ours.our_pid = 30;
    assert!(consider_lift(&mut state, 9, &ours, true, parent_of).is_empty());
    assert_eq!(state, start);
    let mut dialog = facts("#32770", 40);
    dialog.foreground_is_ours = true;
    assert_eq!(consider_lift(&mut state, 9, &dialog, false, parent_of), lift(9, 3));
    let mut rootless = EMPTY;
    assert!(consider_lift(&mut rootless, 9, &facts("x", 30), true, parent_of).is_empty());
}

#[test]
fn a_scan_lifts_again_or_looks_at_all() {
    let mut state = WindowState { dsh_root_pid: 1, main_hwnd: 3, picker_hwnd: 9 };
    let scan = scan_and_lift_pickers(&mut state, true);
    assert!(matches!(scan, PickerScan::Relift(ops) if ops == lift(9, 3)));
    assert_eq!(state.picker_hwnd, 9);
    assert!(matches!(scan_and_lift_pickers(&mut state, false), PickerScan::ConsiderAll));
    assert_eq!(state, WindowState { dsh_root_pid: 1, main_hwnd: 3, picker_hwnd: 0 });
    assert!(matches!(scan_and_lift_pickers(&mut state, true), PickerScan::ConsiderAll));
}

#[test]
fn events_bring_and_take_dialogs() {
    let start = WindowState { picker_hwnd: 9, ..EMPTY };
    let mut state = start;
    assert!(on_win_event(&mut state, EVENT_OBJECT_SHOW, 5, 0));
    assert!(on_win_event(&mut state, EVENT_SYSTEM_DIALOGSTART, 5, 0));
    assert!(!on_win_event(&mut state, EVENT_OBJECT_SHOW, 5, 1));
    assert!(!on_win_event(&mut state, EVENT_OBJECT_SHOW, 0, 0));
    assert!(!on_win_event(&mut state, 0x8004, 5, 0));
    assert!(!on_win_event(&mut state, EVENT_OBJECT_HIDE, 5, 0));
    assert!(!on_win_event(&mut state, EVENT_OBJECT_HIDE, 9, 1));
    assert_eq!(state, start);
    assert!(!on_win_event(&mut state, EVENT_OBJECT_HIDE, 9, 0));
    assert_eq!(state, EMPTY);
    let mut state = start;
    assert!(!on_win_event(&mut state, EVENT_OBJECT_DESTROY, 9, 0));
    assert_eq!(state, EMPTY);
}

#[test]
fn overlays_leave_the_task_bar_once() {
    let flags = 0x0001 | 0x0002 | 0x0004 | 0x0010 | 0x0020;
    assert_eq!(
        apply_tool_window_hwnd(5, 0x0004_0100),
        vec![
            WindowOp::SetExStyle { hwnd: 5, style: 0x0180 },
            WindowOp::SetPosition { hwnd: 5, after: 0, flags },
        ]
    );
    assert!(apply_tool_window_hwnd(5, 0x0180).is_empty());
    assert_eq!(
        apply_tool_window_hwnd(5, -1),
        vec![
            WindowOp::SetExStyle { hwnd: 5, style: -0x0004_0001 },
            WindowOp::SetPosition { hwnd: 5, after: 0, flags },
        ]
    );
    assert!(apply_tool_window_hwnd(5, -0x0004_0001).is_empty());
}

#[test]
fn an_overlay_is_raised_without_the_focus() {
    assert_eq!(
        raise_win32(5),
        WindowOp::SetPosition { hwnd: 5, after: 0, flags: 0x0001 | 0x0002 | 0x0010 | 0x0200 }
    );
}

#[test]
fn an_elevated_title_is_marked_once() {
    assert_eq!(mark_elevated_title(true, "DSH Desktop"), Some("DSH Desktop (Elevated)".to_string()));
    assert_eq!(mark_elevated_title(true, "DSH Desktop (Elevated)"), None);
    assert_eq!(mark_elevated_title(false, "DSH Desktop"), None);
    assert_eq!(mark_elevated_title(true, ""), Some(" (Elevated)".to_string()));
    assert!(is_elevated(1, 1, 1));
    assert!(!is_elevated(0, 1, 1));
    assert!(!is_elevated(1, 0, 1));
    assert!(!is_elevated(1, 1, 0));
}

#[test]
fn overlays_yield_while_a_lifted_dialog_shows() {
    let mut state = EMPTY;
    lift_foreign_dialog(&mut state, 9);
    assert!(!allow_overlay_z_raise(picker_is_showing(&state, true), true));
    assert!(allow_overlay_z_raise(picker_is_showing(&state, false), true));
}
