//! Keeping dialogs of the Harness above the windows of this application.
//!
//! The workers of the Harness open their file pickers in processes of their own. Such a dialog is
//! lifted above the windows of this application, which in turn yield to it. The functions here
//! decide on the facts that the window system reports and return the operations to perform.
use vstd::prelude::*;

use crate::paths::Platform;
use crate::text::{chars_of, lone_unit, opt_text, same_text, utf16_lossy, utf16_text};

verus! {

/// How many processes are looked at between a process and the root of a tree.
pub const MAX_ANCESTORS: u32 = 64;

/// The window class of a dialog.
pub const DIALOG_CLASS: &'static str = "#32770";

/// The object that an event must be about: the window itself.
pub const OBJID_WINDOW: i32 = 0;

pub const EVENT_SYSTEM_DIALOGSTART: u32 = 0x0010;

pub const EVENT_OBJECT_DESTROY: u32 = 0x8001;

pub const EVENT_OBJECT_SHOW: u32 = 0x8002;

pub const EVENT_OBJECT_HIDE: u32 = 0x8003;

pub const WS_EX_APPWINDOW: i32 = 0x0004_0000;

pub const WS_EX_TOOLWINDOW: i32 = 0x0000_0080;

pub const SWP_NOSIZE: u32 = 0x0001;

pub const SWP_NOMOVE: u32 = 0x0002;

pub const SWP_NOZORDER: u32 = 0x0004;

pub const SWP_NOACTIVATE: u32 = 0x0010;

pub const SWP_FRAMECHANGED: u32 = 0x0020;

pub const SWP_SHOWWINDOW: u32 = 0x0040;

pub const SWP_NOOWNERZORDER: u32 = 0x0200;

/// Stands for the place above all windows that are not topmost.
pub const HWND_TOPMOST: isize = -1;

/// Stands for every process where one is allowed to take the foreground.
pub const ASFW_ANY: u32 = 0xFFFF_FFFF;

/// An entry of the process table.
#[derive(Debug)]
pub struct ProcessEntry32W {
    pub dw_size: u32,
    pub cnt_usage: u32,
    pub th32_process_id: u32,
    pub th32_default_heap_id: usize,
    pub th32_module_id: u32,
    pub cnt_threads: u32,
    pub th32_parent_process_id: u32,
    pub pc_pri_class_base: i32,
    pub dw_flags: u32,
    pub sz_exe_file: [u16; 260],
}

/// What is remembered of processes and windows; zero stands for none.
#[derive(Clone, Copy, Debug, PartialEq, Eq, Structural)]
pub struct WindowState {
    /// The process at the root of the tree of the Harness.
    pub dsh_root_pid: u32,
    /// The main window.
    pub main_hwnd: isize,
    /// The dialog that was lifted last, as long as it shows.
    pub picker_hwnd: isize,
}

/// What the window system reports of a window.
#[derive(Debug)]
pub struct WindowFacts {
    pub visible_toplevel: bool,
    /// The process that the window belongs to.
    pub pid: u32,
    pub class: String,
    /// This process.
    pub our_pid: u32,
    pub foreground_is_ours: bool,
}

/// An operation on windows to perform.
#[derive(Clone, Copy, Debug, PartialEq, Eq, Structural)]
pub enum WindowOp {
    AllowForeground { process: u32 },
    SetOwner { hwnd: isize, owner: isize },
    SetExStyle { hwnd: isize, style: i32 },
    SetPosition { hwnd: isize, after: isize, flags: u32 },
    BringToTop { hwnd: isize },
    SetForeground { hwnd: isize },
}

/// The parent that a walk goes on to: one that is another process and not the zero that stands for
/// none.
pub open spec fn onward(pid: u32, parent: Option<u32>) -> Option<u32> {
    match parent {
        Some(p) if p != 0 && p != pid => Some(p),
        _ => None,
    }
}

/// A walk from `pid` towards its ancestors, which asks `parent_of` for each and looks at no more
/// than `fuel` processes, can end with `found`: it ends with `true` at `root`, and with `false`
/// where there is no parent to go on to or nothing is left to look at.
pub open spec fn tree_walk<F: Fn(u32) -> Option<u32>>(
    parent_of: F,
    pid: u32,
    root: u32,
    fuel: nat,
    found: bool,
) -> bool
    decreases fuel,
{
    if fuel == 0 {
        !found
    } else if pid == root {
        found
    } else {
        exists|parent: Option<u32>| #[trigger]
            call_ensures(parent_of, (pid,), parent) && match onward(pid, parent) {
                Some(p) => tree_walk(parent_of, p, root, (fuel - 1) as nat, found),
                None => !found,
            }
    }
}

/// Whether `pid` is `root` or a descendant of it, as far as the walk over `parent_of` shows.
pub fn pid_is_under_root_with(
    pid: u32,
    root: u32,
    parent_of: impl Fn(u32) -> Option<u32>,
) -> (found: bool)
    requires
        forall|p: u32| call_requires(parent_of, (p,)),
    ensures
        tree_walk(parent_of, pid, root, MAX_ANCESTORS as nat, found),
        pid == root ==> found,
{
    let mut current: u32 = pid;
    let mut left: u32 = MAX_ANCESTORS;
    while left > 0
        invariant
            left <= MAX_ANCESTORS,
            pid == root ==> left == MAX_ANCESTORS,
            left == MAX_ANCESTORS ==> current == pid,
            forall|p: u32| call_requires(parent_of, (p,)),
            forall|found: bool| #[trigger]
                tree_walk(parent_of, current, root, left as nat, found) ==> tree_walk(
                    parent_of,
                    pid,
                    root,
                    MAX_ANCESTORS as nat,
                    found,
                ),
        decreases left,
    {
        if current == root {
            assert(tree_walk(parent_of, current, root, left as nat, true));
            return true;
        }
        let answer = parent_of(current);
        match answer {
            Some(parent) if parent != 0 && parent != current => {
                let ghost child = current;
                let ghost fuel = left as nat;
                current = parent;
                left = left - 1;
                assert forall|found: bool| #[trigger]
                    tree_walk(parent_of, current, root, left as nat, found) implies tree_walk(
                    parent_of,
                    pid,
                    root,
                    MAX_ANCESTORS as nat,
                    found,
                ) by {
                    assert(onward(child, answer) == Some(current));
                    assert(call_ensures(parent_of, (child,), answer));
                    assert(left as nat == (fuel - 1) as nat);
                    assert(tree_walk(parent_of, child, root, fuel, found));
                }
            },
            _ => {
                assert(onward(current, answer) is None);
                assert(call_ensures(parent_of, (current,), answer));
                assert(tree_walk(parent_of, current, root, left as nat, false));
                return false;
            },
        }
    }
    assert(tree_walk(parent_of, current, root, left as nat, false));
    false
}

/// Whether a walk over a fixed table of parents finds `root`.
pub open spec fn under_root(
    parent: spec_fn(u32) -> Option<u32>,
    pid: u32,
    root: u32,
    fuel: nat,
) -> bool
    decreases fuel,
{
    fuel > 0 && (pid == root || match onward(pid, parent(pid)) {
        Some(p) => under_root(parent, p, root, (fuel - 1) as nat),
        None => false,
    })
}

/// The ancestor of `pid` that is `k` generations away, in a fixed table of parents.
pub open spec fn ancestor(parent: spec_fn(u32) -> Option<u32>, pid: u32, k: nat) -> Option<u32>
    decreases k,
{
    if k == 0 {
        Some(pid)
    } else {
        match onward(pid, parent(pid)) {
            Some(p) => ancestor(parent, p, (k - 1) as nat),
            None => None,
        }
    }
}

/// Where the answers about parents do not change during the walk, its outcome is fixed by them.
pub proof fn law_walk_follows_the_table<F: Fn(u32) -> Option<u32>>(
    parent_of: F,
    parent: spec_fn(u32) -> Option<u32>,
    pid: u32,
    root: u32,
    fuel: nat,
    found: bool,
)
    requires
        forall|p: u32, answer: Option<u32>| #[trigger]
            call_ensures(parent_of, (p,), answer) ==> answer == parent(p),
        tree_walk(parent_of, pid, root, fuel, found),
    ensures
        found == under_root(parent, pid, root, fuel),
    decreases fuel,
{
    if fuel > 0 && pid != root {
        let answer = choose|answer: Option<u32>| #[trigger]
            call_ensures(parent_of, (pid,), answer) && match onward(pid, answer) {
                Some(p) => tree_walk(parent_of, p, root, (fuel - 1) as nat, found),
                None => !found,
            };
        match onward(pid, answer) {
            Some(p) => {
                law_walk_follows_the_table(parent_of, parent, p, root, (fuel - 1) as nat, found);
            },
            None => {},
        }
    }
}

/// A process is under `root` exactly if `root` is the process or an ancestor of it that is fewer
/// generations away than the walk looks at.
pub proof fn law_under_root_iff_ancestor(
    parent: spec_fn(u32) -> Option<u32>,
    pid: u32,
    root: u32,
    fuel: nat,
)
    ensures
        under_root(parent, pid, root, fuel) <==> exists|k: nat|
            k < fuel && #[trigger] ancestor(parent, pid, k) == Some(root),
    decreases fuel,
{
    if fuel > 0 {
        if pid == root {
            assert(ancestor(parent, pid, 0) == Some(root));
        } else {
            match onward(pid, parent(pid)) {
                Some(p) => {
                    law_under_root_iff_ancestor(parent, p, root, (fuel - 1) as nat);
                    if under_root(parent, p, root, (fuel - 1) as nat) {
                        let k = choose|k: nat|
                            k < fuel - 1 && #[trigger] ancestor(parent, p, k) == Some(root);
                        assert(ancestor(parent, pid, k + 1) == Some(root));
                    }
                    if exists|k: nat| k < fuel && #[trigger] ancestor(parent, pid, k) == Some(root) {
                        let k = choose|k: nat|
                            k < fuel && #[trigger] ancestor(parent, pid, k) == Some(root);
                        assert(k > 0);
                        assert(ancestor(parent, p, (k - 1) as nat) == Some(root));
                    }
                },
                None => {},
            }
        }
    }
}

/// The parent of `pid` by the process table: that of the first entry for `pid`.
pub open spec fn table_parent(entries: Seq<ProcessEntry32W>, pid: u32) -> Option<u32>
    decreases entries.len(),
{
    if entries.len() == 0 {
        None
    } else if entries[0].th32_process_id == pid {
        Some(entries[0].th32_parent_process_id)
    } else {
        table_parent(entries.drop_first(), pid)
    }
}

/// The parent of `pid` by the process table.
pub fn parent_pid(entries: &Vec<ProcessEntry32W>, pid: u32) -> (parent: Option<u32>)
    ensures
        parent == table_parent(entries@, pid),
{
    let mut i: usize = 0;
    assert(entries@.skip(0) == entries@);
    while i < entries.len()
        invariant
            i <= entries@.len(),
            table_parent(entries@, pid) == table_parent(entries@.skip(i as int), pid),
        decreases entries@.len() - i,
    {
        if entries[i].th32_process_id == pid {
            return Some(entries[i].th32_parent_process_id);
        }
        assert(entries@.skip(i as int).drop_first() == entries@.skip(i + 1));
        i += 1;
    }
    None
}

/// Whether a handle to the process table is one that can be read from.
pub fn snapshot_is_open(snapshot: isize) -> (open: bool)
    ensures
        open == (snapshot != 0 && snapshot != -1),
{
    snapshot != 0 && snapshot != -1
}

/// Overlays of this application may be raised: not above a dialog that shows, and not while another
/// application is in front.
pub open spec fn z_raise_allowed(picker_showing: bool, foreground_is_ours: bool) -> bool {
    !picker_showing && foreground_is_ours
}

/// Whether overlays of this application may be raised.
pub fn allow_overlay_z_raise(picker_showing: bool, foreground_is_ours: bool) -> (allowed: bool)
    ensures
        allowed == z_raise_allowed(picker_showing, foreground_is_ours),
{
    !picker_showing && foreground_is_ours
}

/// Whether a window is to be lifted above those of this application: a visible top-level window of
/// another process, which is in the tree of the Harness, or is a dialog that opened while this
/// application was in front.
pub open spec fn lift_wanted(
    class: Seq<char>,
    window_pid: u32,
    our_pid: u32,
    in_dsh_tree: bool,
    foreground_is_ours: bool,
    is_visible_toplevel: bool,
) -> bool {
    &&& is_visible_toplevel
    &&& window_pid != our_pid
    &&& in_dsh_tree || (class == "#32770"@ && foreground_is_ours)
}

/// Whether a window is to be lifted above those of this application.
pub fn should_lift_foreign_window(
    class: &str,
    window_pid: u32,
    our_pid: u32,
    in_dsh_tree: bool,
    foreground_is_ours: bool,
    is_visible_toplevel: bool,
) -> (lift: bool)
    ensures
        lift == lift_wanted(
            class@,
            window_pid,
            our_pid,
            in_dsh_tree,
            foreground_is_ours,
            is_visible_toplevel,
        ),
{
    if !is_visible_toplevel || window_pid == our_pid {
        return false;
    }
    if in_dsh_tree {
        return true;
    }
    same_text(class, DIALOG_CLASS) && foreground_is_ours
}

/// Remembers the root of the process tree of the Harness, or that there is none. Only Windows needs
/// to know.
pub fn remember_dsh_root_pid(state: &mut WindowState, platform: Platform, pid: Option<u32>)
    ensures
        *final(state) == (match platform {
            Platform::Windows => WindowState {
                dsh_root_pid: match pid {
                    Some(p) => p,
                    None => 0,
                },
                ..*old(state)
            },
            Platform::Unix => *old(state),
        }),
{
    match platform {
        Platform::Windows => {
            state.dsh_root_pid = match pid {
                Some(p) => p,
                None => 0,
            };
        },
        Platform::Unix => {},
    }
}

/// Remembers the main window.
pub fn remember_main_hwnd(state: &mut WindowState, hwnd: isize)
    ensures
        *final(state) == (WindowState { main_hwnd: hwnd, ..*old(state) }),
{
    state.main_hwnd = hwnd;
}

/// A lifted dialog shows.
pub open spec fn picker_shows(state: WindowState, visible_toplevel: bool) -> bool {
    state.picker_hwnd != 0 && visible_toplevel
}

/// Whether a lifted dialog shows; `visible_toplevel` is what the window system reports of the one
/// that is remembered.
pub fn picker_is_showing(state: &WindowState, visible_toplevel: bool) -> (showing: bool)
    ensures
        showing == picker_shows(*state, visible_toplevel),
{
    state.picker_hwnd != 0 && visible_toplevel
}

/// Whether a window exists, shows, and is its own root, by the answers of the window system.
pub fn is_visible_toplevel(
    hwnd: isize,
    is_window: i32,
    is_window_visible: i32,
    root_ancestor: isize,
) -> (yes: bool)
    ensures
        yes == (is_window != 0 && is_window_visible != 0 && root_ancestor == hwnd),
{
    is_window != 0 && is_window_visible != 0 && root_ancestor == hwnd
}

/// Whether the window in front belongs to this process; there may be none in front.
pub fn foreground_is_ours(foreground: isize, foreground_pid: u32, our_pid: u32) -> (ours: bool)
    ensures
        ours == (foreground != 0 && foreground_pid == our_pid),
{
    foreground != 0 && foreground_pid == our_pid
}

/// The class of a window, from the buffer that the window system filled and the length that it
/// gave; a length that is not positive means that there is none.
pub fn window_class(buf: &[u16], n: i32) -> (class: String)
    requires
        n <= buf@.len(),
    ensures
        class@ == (if n <= 0 {
            Seq::<char>::empty()
        } else {
            utf16_lossy(buf@.subrange(0, n as int))
        }),
        n > 0 && (forall|i: int| 0 <= i < n ==> lone_unit(#[trigger] buf@[i])) ==> class@
            == buf@.subrange(0, n as int).map_values(|u: u16| u as char),
{
    if n <= 0 {
        return String::new();
    }
    utf16_text(vstd::slice::slice_subrange(buf, 0, n as usize))
}

/// The operations that lift the dialog `hwnd` above the main window.
pub open spec fn lift_ops(hwnd: isize, main: isize) -> Seq<WindowOp> {
    seq![WindowOp::AllowForeground { process: ASFW_ANY }] + (if main != 0 {
        seq![WindowOp::SetOwner { hwnd, owner: main }]
    } else {
        seq![]
    }) + seq![
        WindowOp::SetPosition { hwnd, after: HWND_TOPMOST, flags: 0x0043 },
        WindowOp::BringToTop { hwnd },
        WindowOp::SetForeground { hwnd },
    ]
}

/// Lifts a dialog and remembers it.
pub fn lift_foreign_dialog(state: &mut WindowState, hwnd: isize) -> (ops: Vec<WindowOp>)
    ensures
        *final(state) == (WindowState { picker_hwnd: hwnd, ..*old(state) }),
        ops@ == lift_ops(hwnd, old(state).main_hwnd),
{
    state.picker_hwnd = hwnd;
    let main: isize = state.main_hwnd;
    let mut ops: Vec<WindowOp> = Vec::new();
    ops.push(WindowOp::AllowForeground { process: ASFW_ANY });
    if main != 0 {
        ops.push(WindowOp::SetOwner { hwnd, owner: main });
    }
    assert(SWP_NOSIZE | SWP_NOMOVE | SWP_SHOWWINDOW == 0x0043) by (bit_vector);
    ops.push(
        WindowOp::SetPosition {
            hwnd,
            after: HWND_TOPMOST,
            flags: SWP_NOSIZE | SWP_NOMOVE | SWP_SHOWWINDOW,
        },
    );
    ops.push(WindowOp::BringToTop { hwnd });
    ops.push(WindowOp::SetForeground { hwnd });
    assert(ops@ == lift_ops(hwnd, main));
    ops
}

/// Whether the window of `facts` can be found in the tree of the Harness to be `in_tree`. Without
/// leave to walk the tree, or without a tree, it is not in it.
pub open spec fn tree_verdict<F: Fn(u32) -> Option<u32>>(
    state: WindowState,
    facts: WindowFacts,
    allow_tree_walk: bool,
    parent_of: F,
    in_tree: bool,
) -> bool {
    if allow_tree_walk && state.dsh_root_pid != 0 {
        tree_walk(parent_of, facts.pid, state.dsh_root_pid, MAX_ANCESTORS as nat, in_tree)
    } else {
        !in_tree
    }
}

/// The outcome of considering a window: it is lifted and remembered, or nothing happens.
pub open spec fn lift_outcome(
    before: WindowState,
    after: WindowState,
    hwnd: isize,
    lift: bool,
    ops: Seq<WindowOp>,
) -> bool {
    if lift {
        after == (WindowState { picker_hwnd: hwnd, ..before }) && ops == lift_ops(
            hwnd,
            before.main_hwnd,
        )
    } else {
        after == before && ops == Seq::<WindowOp>::empty()
    }
}

/// Lifts a window if it is a dialog to be lifted. `parent_of` gives the parent of a process.
pub fn consider_lift(
    state: &mut WindowState,
    hwnd: isize,
    facts: &WindowFacts,
    allow_tree_walk: bool,
    parent_of: impl Fn(u32) -> Option<u32>,
) -> (ops: Vec<WindowOp>)
    requires
        forall|p: u32| call_requires(parent_of, (p,)),
    ensures
        hwnd == 0 || !facts.visible_toplevel || facts.pid == facts.our_pid ==> lift_outcome(
            *old(state),
            *final(state),
            hwnd,
            false,
            ops@,
        ),
        hwnd != 0 && facts.visible_toplevel && facts.pid != facts.our_pid ==> exists|in_tree: bool|
         #[trigger]
            tree_verdict(*old(state), *facts, allow_tree_walk, parent_of, in_tree) && lift_outcome(
                *old(state),
                *final(state),
                hwnd,
                lift_wanted(
                    facts.class@,
                    facts.pid,
                    facts.our_pid,
                    in_tree,
                    facts.foreground_is_ours,
                    true,
                ),
                ops@,
            ),
{
    if hwnd == 0 || !facts.visible_toplevel || facts.pid == facts.our_pid {
        return Vec::new();
    }
    let root: u32 = state.dsh_root_pid;
    let in_tree: bool = allow_tree_walk && root != 0 && pid_is_under_root_with(
        facts.pid,
        root,
        parent_of,
    );
    assert(tree_verdict(*old(state), *facts, allow_tree_walk, parent_of, in_tree));
    if !should_lift_foreign_window(
        facts.class.as_str(),
        facts.pid,
        facts.our_pid,
        in_tree,
        facts.foreground_is_ours,
        true,
    ) {
        return Vec::new();
    }
    lift_foreign_dialog(state, hwnd)
}

/// What a look for dialogs does.
#[derive(Debug)]
pub enum PickerScan {
    /// Lift the dialog that is remembered once more.
    Relift(Vec<WindowOp>),
    /// Consider every window, without walking the process tree.
    ConsiderAll,
}

/// Looks for dialogs to lift. `picker_visible` is what the window system reports of the dialog that
/// is remembered; one that no longer shows is forgotten.
pub fn scan_and_lift_pickers(state: &mut WindowState, picker_visible: bool) -> (scan: PickerScan)
    ensures
        if old(state).picker_hwnd != 0 && picker_visible {
            *final(state) == *old(state) && (scan matches PickerScan::Relift(ops) && ops@
                == lift_ops(old(state).picker_hwnd, old(state).main_hwnd))
        } else {
            *final(state) == (WindowState { picker_hwnd: 0, ..*old(state) }) && scan
                is ConsiderAll
        },
{
    let hwnd: isize = state.picker_hwnd;
    if picker_is_showing(state, picker_visible) {
        return PickerScan::Relift(lift_foreign_dialog(state, hwnd));
    }
    if hwnd != 0 {
        state.picker_hwnd = 0;
    }
    PickerScan::ConsiderAll
}

/// Whether an event asks for a window to be considered for lifting.
pub open spec fn event_asks(event: u32, hwnd: isize, id_object: i32) -> bool {
    id_object == OBJID_WINDOW && hwnd != 0 && (event == EVENT_OBJECT_SHOW || event
        == EVENT_SYSTEM_DIALOGSTART)
}

/// Whether an event takes the dialog that is remembered away.
pub open spec fn event_forgets(state: WindowState, event: u32, hwnd: isize, id_object: i32) -> bool {
    id_object == OBJID_WINDOW && hwnd != 0 && (event == EVENT_OBJECT_HIDE || event
        == EVENT_OBJECT_DESTROY) && state.picker_hwnd == hwnd
}

/// Takes in an event of the window system: a lifted dialog that hides or is destroyed is forgotten.
/// The result says whether the window is to be considered for lifting, the process tree walked.
pub fn on_win_event(state: &mut WindowState, event: u32, hwnd: isize, id_object: i32) -> (
    consider: bool)
    ensures
        consider == event_asks(event, hwnd, id_object),
        *final(state) == (if event_forgets(*old(state), event, hwnd, id_object) {
            WindowState { picker_hwnd: 0, ..*old(state) }
        } else {
            *old(state)
        }),
{
    if id_object != OBJID_WINDOW || hwnd == 0 {
        return false;
    }
    if event == EVENT_OBJECT_HIDE || event == EVENT_OBJECT_DESTROY {
        if state.picker_hwnd == hwnd {
            state.picker_hwnd = 0;
        }
        return false;
    }
    event == EVENT_OBJECT_SHOW || event == EVENT_SYSTEM_DIALOGSTART
}

/// The extended style of a window that has no button of its own in the task bar.
pub open spec fn tool_style(style: i32) -> i32 {
    (style | WS_EX_TOOLWINDOW) & !WS_EX_APPWINDOW
}

/// Takes the button of an overlay out of the task bar. A window whose style is right already is left
/// alone.
pub fn apply_tool_window_hwnd(hwnd: isize, style: i32) -> (ops: Vec<WindowOp>)
    ensures
        ops@ == (if tool_style(style) == style {
            Seq::<WindowOp>::empty()
        } else {
            seq![
                WindowOp::SetExStyle { hwnd, style: tool_style(style) },
                WindowOp::SetPosition { hwnd, after: 0, flags: 0x0037 },
            ]
        }),
{
    let new_style: i32 = (style | WS_EX_TOOLWINDOW) & !WS_EX_APPWINDOW;
    let mut ops: Vec<WindowOp> = Vec::new();
    if new_style == style {
        return ops;
    }
    ops.push(WindowOp::SetExStyle { hwnd, style: new_style });
    assert(SWP_NOSIZE | SWP_NOMOVE | SWP_NOZORDER | SWP_NOACTIVATE | SWP_FRAMECHANGED == 0x0037)
        by (bit_vector);
    ops.push(
        WindowOp::SetPosition {
            hwnd,
            after: 0,
            flags: SWP_NOSIZE | SWP_NOMOVE | SWP_NOZORDER | SWP_NOACTIVATE | SWP_FRAMECHANGED,
        },
    );
    ops
}

/// Brings a window to the top of its siblings without giving it the focus.
pub fn raise_win32(hwnd: isize) -> (op: WindowOp)
    ensures
        op == (WindowOp::SetPosition { hwnd, after: 0, flags: 0x0213 }),
{
    assert(SWP_NOSIZE | SWP_NOMOVE | SWP_NOACTIVATE | SWP_NOOWNERZORDER == 0x0213) by (bit_vector);
    WindowOp::SetPosition {
        hwnd,
        after: 0,
        flags: SWP_NOSIZE | SWP_NOMOVE | SWP_NOACTIVATE | SWP_NOOWNERZORDER,
    }
}

/// Whether this process runs elevated, by the answers to opening its token and asking for the
/// elevation of it. A question that failed counts as not elevated.
pub fn is_elevated(token_opened: i32, elevation_read: i32, elevation: u32) -> (elevated: bool)
    ensures
        elevated == (token_opened != 0 && elevation_read != 0 && elevation != 0),
{
    token_opened != 0 && elevation_read != 0 && elevation != 0
}

/// What the title of the main window ends with while this process runs elevated.
pub const ELEVATED_SUFFIX: &'static str = " (Elevated)";

/// `title` ends with `suffix`.
pub open spec fn ends_with(title: Seq<char>, suffix: Seq<char>) -> bool {
    suffix.len() <= title.len() && title.skip(title.len() - suffix.len()) == suffix
}

/// The title to give the main window, or `None` if it stays.
pub open spec fn marked_title(elevated: bool, title: Seq<char>) -> Option<Seq<char>> {
    if elevated && !ends_with(title, " (Elevated)"@) {
        Some(title + " (Elevated)"@)
    } else {
        None
    }
}

fn has_suffix(title: &str, suffix: &str) -> (yes: bool)
    ensures
        yes == ends_with(title@, suffix@),
{
    let b: Vec<char> = chars_of(title);
    let tail: Vec<char> = chars_of(suffix);
    let n: usize = b.len();
    if tail.len() > n {
        return false;
    }
    let from: usize = n - tail.len();
    let mut i: usize = 0;
    while i < tail.len()
        invariant
            b@ == title@,
            tail@ == suffix@,
            n == b@.len(),
            from + tail@.len() == n,
            i <= tail@.len(),
            forall|k: int| 0 <= k < i ==> b@[from + k] == #[trigger] tail@[k],
        decreases tail@.len() - i,
    {
        if b[from + i] != tail[i] {
            assert(title@.skip(from as int)[i as int] != suffix@[i as int]);
            return false;
        }
        i += 1;
    }
    assert(title@.skip(from as int) == suffix@);
    true
}

/// The title to give the main window so that it shows that this process runs elevated, or `None` if
/// it stays.
pub fn mark_elevated_title(elevated: bool, title: &str) -> (marked: Option<String>)
    ensures
        opt_text(marked) == marked_title(elevated, title@),
{
    if !elevated || has_suffix(title, ELEVATED_SUFFIX) {
        return None;
    }
    Some(title.to_owned().concat(ELEVATED_SUFFIX))
}

/// A window whose style was set as that of an overlay is left alone the next time, and the change
/// touches no bit but the two that tell overlays from main windows.
pub proof fn law_tool_style_settles(style: i32)
    ensures
        tool_style(tool_style(style)) == tool_style(style),
        tool_style(style) & WS_EX_TOOLWINDOW == WS_EX_TOOLWINDOW,
        tool_style(style) & WS_EX_APPWINDOW == 0,
        tool_style(style) & !(WS_EX_TOOLWINDOW | WS_EX_APPWINDOW) == style & !(WS_EX_TOOLWINDOW
            | WS_EX_APPWINDOW),
{
    assert((((style | 0x80i32) & !0x40000i32) | 0x80i32) & !0x40000i32 == (style | 0x80i32)
        & !0x40000i32) by (bit_vector);
    assert(((style | 0x80i32) & !0x40000i32) & 0x80i32 == 0x80i32) by (bit_vector);
    assert(((style | 0x80i32) & !0x40000i32) & 0x40000i32 == 0i32) by (bit_vector);
    assert(((style | 0x80i32) & !0x40000i32) & !(0x80i32 | 0x40000i32) == style & !(0x80i32
        | 0x40000i32)) by (bit_vector);
}

/// A title is marked once only.
pub proof fn law_title_is_marked_once(elevated: bool, title: Seq<char>, marked: Seq<char>)
    requires
        marked_title(elevated, title) == Some(marked),
    ensures
        ends_with(marked, " (Elevated)"@),
        marked_title(elevated, marked) is None,
{
    let suffix = " (Elevated)"@;
    assert(marked.skip(marked.len() - suffix.len()) == suffix);
}

/// Windows of this application, and windows that do not show, are never lifted.
pub proof fn law_own_and_hidden_windows_stay(
    class: Seq<char>,
    window_pid: u32,
    our_pid: u32,
    in_tree: bool,
    foreground: bool,
    visible: bool,
)
    requires
        window_pid == our_pid || !visible,
    ensures
        !lift_wanted(class, window_pid, our_pid, in_tree, foreground, visible),
{
}

/// Outside the tree of the Harness only dialogs are lifted, and only while this application is in
/// front.
pub proof fn law_strangers_are_lifted_as_dialogs_only(
    class: Seq<char>,
    window_pid: u32,
    our_pid: u32,
    foreground: bool,
    visible: bool,
)
    requires
        lift_wanted(class, window_pid, our_pid, false, foreground, visible),
    ensures
        class == "#32770"@,
        foreground,
{
}

/// As long as a dialog that was lifted shows, overlays of this application are not raised.
pub proof fn law_overlays_yield_to_a_lifted_dialog(
    before: WindowState,
    after: WindowState,
    hwnd: isize,
    ops: Seq<WindowOp>,
    foreground: bool,
)
    requires
        hwnd != 0,
        lift_outcome(before, after, hwnd, true, ops),
    ensures
        !z_raise_allowed(picker_shows(after, true), foreground),
{
}

/// `chain` leads from `pid` to `root`: each process is the parent of the one before it, and another
/// one than that, and none is the zero that stands for no process.
pub open spec fn linked(
    parent: spec_fn(u32) -> Option<u32>,
    chain: Seq<u32>,
    pid: u32,
    root: u32,
) -> bool {
    &&& chain.len() > 0
    &&& chain[0] == pid
    &&& chain[chain.len() - 1] == root
    &&& forall|i: int|
        0 < i < chain.len() ==> parent(chain[i - 1]) == Some(#[trigger] chain[i]) && chain[i] != 0
            && chain[i] != chain[i - 1]
}

proof fn lemma_under_root_iff_linked(
    parent: spec_fn(u32) -> Option<u32>,
    pid: u32,
    root: u32,
    fuel: nat,
)
    ensures
        under_root(parent, pid, root, fuel) <==> exists|chain: Seq<u32>| #[trigger]
            linked(parent, chain, pid, root) && chain.len() <= fuel,
    decreases fuel,
{
    if fuel > 0 {
        if pid == root {
            assert(linked(parent, seq![pid], pid, root));
        } else {
            if under_root(parent, pid, root, fuel) {
                let p = onward(pid, parent(pid))->0;
                lemma_under_root_iff_linked(parent, p, root, (fuel - 1) as nat);
                let rest = choose|chain: Seq<u32>| #[trigger]
                    linked(parent, chain, p, root) && chain.len() <= fuel - 1;
                let chain = seq![pid] + rest;
                assert forall|i: int| 0 < i < chain.len() implies parent(chain[i - 1]) == Some(
                    #[trigger] chain[i],
                ) && chain[i] != 0 && chain[i] != chain[i - 1] by {
                    assert(chain[i] == rest[i - 1]);
                    if i > 1 {
                        assert(chain[i - 1] == rest[i - 2]);
                    }
                }
                assert(linked(parent, chain, pid, root));
            }
            if exists|chain: Seq<u32>| #[trigger]
                linked(parent, chain, pid, root) && chain.len() <= fuel {
                let chain = choose|chain: Seq<u32>| #[trigger]
                    linked(parent, chain, pid, root) && chain.len() <= fuel;
                let p = chain[1];
                let rest = chain.drop_first();
                assert forall|i: int| 0 < i < rest.len() implies parent(rest[i - 1]) == Some(
                    #[trigger] rest[i],
                ) && rest[i] != 0 && rest[i] != rest[i - 1] by {
                    assert(rest[i] == chain[i + 1]);
                    assert(rest[i - 1] == chain[i]);
                }
                assert(linked(parent, rest, p, root));
                lemma_under_root_iff_linked(parent, p, root, (fuel - 1) as nat);
            }
        }
    }
}

/// Where the answers about parents do not change, a process is found under the root exactly if a
/// chain of parents of at most 64 processes, itself and the root counted, leads there.
pub proof fn law_found_iff_a_chain_leads_to_the_root<F: Fn(u32) -> Option<u32>>(
    parent_of: F,
    parent: spec_fn(u32) -> Option<u32>,
    pid: u32,
    root: u32,
    found: bool,
)
    requires
        forall|p: u32, answer: Option<u32>| #[trigger]
            call_ensures(parent_of, (p,), answer) ==> answer == parent(p),
        tree_walk(parent_of, pid, root, MAX_ANCESTORS as nat, found),
    ensures
        found <==> exists|chain: Seq<u32>| #[trigger]
            linked(parent, chain, pid, root) && chain.len() <= 64,
{
    law_walk_follows_the_table(parent_of, parent, pid, root, MAX_ANCESTORS as nat, found);
    lemma_under_root_iff_linked(parent, pid, root, MAX_ANCESTORS as nat);
}

/// A window is in the tree of the Harness exactly if the tree may be walked, there is one, and a
/// chain of parents of at most 64 processes leads from its process to the root.
pub proof fn law_window_is_in_the_tree_iff_a_chain_says_so<F: Fn(u32) -> Option<u32>>(
    state: WindowState,
    facts: WindowFacts,
    allow_tree_walk: bool,
    parent_of: F,
    parent: spec_fn(u32) -> Option<u32>,
    in_tree: bool,
)
    requires
        forall|p: u32, answer: Option<u32>| #[trigger]
            call_ensures(parent_of, (p,), answer) ==> answer == parent(p),
        tree_verdict(state, facts, allow_tree_walk, parent_of, in_tree),
    ensures
        in_tree <==> allow_tree_walk && state.dsh_root_pid != 0 && exists|chain: Seq<u32>| #[trigger]
            linked(parent, chain, facts.pid, state.dsh_root_pid) && chain.len() <= 64,
{
    if allow_tree_walk && state.dsh_root_pid != 0 {
        law_found_iff_a_chain_leads_to_the_root(
            parent_of,
            parent,
            facts.pid,
            state.dsh_root_pid,
            in_tree,
        );
    }
}

/// The parent of a process is the one that the first entry for the process names; without an entry
/// there is none.
pub proof fn law_first_entry_names_the_parent(entries: Seq<ProcessEntry32W>, pid: u32, k: int)
    requires
        0 <= k <= entries.len(),
        forall|q: int| 0 <= q < k ==> (#[trigger] entries[q]).th32_process_id != pid,
        k < entries.len() ==> entries[k].th32_process_id == pid,
    ensures
        k < entries.len() ==> table_parent(entries, pid) == Some(entries[k].th32_parent_process_id),
        k == entries.len() ==> table_parent(entries, pid) is None,
    decreases k,
{
    if k > 0 {
        let rest = entries.drop_first();
        assert(entries[0].th32_process_id != pid);
        assert forall|q: int| 0 <= q < k - 1 implies (#[trigger] rest[q]).th32_process_id
            != pid by {
            assert(rest[q] == entries[q + 1]);
        }
        law_first_entry_names_the_parent(rest, pid, k - 1);
    }
}

/// Overlays may be raised exactly if no dialog shows and this application is in front.
pub proof fn law_overlays_yield(state: WindowState, visible: bool, foreground: bool)
    ensures
        z_raise_allowed(picker_shows(state, visible), foreground) <==> foreground && (
        state.picker_hwnd == 0 || !visible),
        picker_shows(state, visible) <==> state.picker_hwnd != 0 && visible,
{
}

/// A window is lifted exactly if it shows, belongs to another process, and is either of the tree of
/// the Harness or a dialog while this application is in front.
pub proof fn law_lifted_iff_a_foreign_dialog(
    class: Seq<char>,
    window_pid: u32,
    our_pid: u32,
    in_tree: bool,
    foreground: bool,
    visible: bool,
)
    ensures
        lift_wanted(class, window_pid, our_pid, in_tree, foreground, visible) <==> visible
            && window_pid != our_pid && (in_tree || foreground && class == "#32770"@),
{
}

/// Lifting lets every process take the foreground first, makes the main window the owner if there is
/// one, and then puts the dialog above all windows, shown and with its place and size kept, brings
/// it to the top and to the foreground. The dialog is remembered, and nothing else changes.
pub proof fn law_lifting_in_full(
    before: WindowState,
    after: WindowState,
    hwnd: isize,
    lift: bool,
    ops: Seq<WindowOp>,
)
    requires
        lift_outcome(before, after, hwnd, lift, ops),
    ensures
        after.dsh_root_pid == before.dsh_root_pid,
        after.main_hwnd == before.main_hwnd,
        after.picker_hwnd == (if lift {
            hwnd
        } else {
            before.picker_hwnd
        }),
        !lift ==> ops == Seq::<WindowOp>::empty(),
        lift && before.main_hwnd == 0 ==> ops == seq![
            WindowOp::AllowForeground { process: 0xFFFF_FFFF },
            WindowOp::SetPosition { hwnd, after: -1isize, flags: 0x0043 },
            WindowOp::BringToTop { hwnd },
            WindowOp::SetForeground { hwnd },
        ],
        lift && before.main_hwnd != 0 ==> ops == seq![
            WindowOp::AllowForeground { process: 0xFFFF_FFFF },
            WindowOp::SetOwner { hwnd, owner: before.main_hwnd },
            WindowOp::SetPosition { hwnd, after: -1isize, flags: 0x0043 },
            WindowOp::BringToTop { hwnd },
            WindowOp::SetForeground { hwnd },
        ],
        lift_ops(hwnd, before.main_hwnd).len() == (if before.main_hwnd == 0 {
            4
        } else {
            5nat
        }),
        lift ==> ops == lift_ops(hwnd, before.main_hwnd),
{
}

/// Only events about a window itself count. Showing, or the start of a dialog, asks for the window
/// to be considered; hiding or destroying the dialog that is remembered makes it forgotten. No event
/// does both.
pub proof fn law_window_events(state: WindowState, event: u32, hwnd: isize, id_object: i32)
    ensures
        event_asks(event, hwnd, id_object) <==> id_object == 0 && hwnd != 0 && (event == 0x8002
            || event == 0x0010),
        event_forgets(state, event, hwnd, id_object) <==> id_object == 0 && hwnd != 0
            && state.picker_hwnd == hwnd && (event == 0x8001 || event == 0x8003),
        !(event_asks(event, hwnd, id_object) && event_forgets(state, event, hwnd, id_object)),
{
}

/// The style of an overlay has the bit of tool windows, has not the bit of windows with a button in
/// the task bar, and agrees with the style before in every other bit.
pub proof fn law_tool_style_bits(style: i32)
    ensures
        tool_style(style) & 0x80 == 0x80,
        tool_style(style) & 0x40000 == 0,
        tool_style(style) & !0x40080 == style & !0x40080,
        tool_style(style) == style <==> style & 0x40080 == 0x80,
{
    assert(((style | 0x80i32) & !0x40000i32) & 0x80i32 == 0x80i32) by (bit_vector);
    assert(((style | 0x80i32) & !0x40000i32) & 0x40000i32 == 0i32) by (bit_vector);
    assert(((style | 0x80i32) & !0x40000i32) & !0x40080i32 == style & !0x40080i32) by (bit_vector);
    assert((style | 0x80i32) & !0x40000i32 == style <==> style & 0x40080i32 == 0x80i32)
        by (bit_vector);
}

/// A title is marked exactly while the process runs elevated and only if it is not the mark behind
/// some text already; the mark is put behind the title.
pub proof fn law_title_is_marked_iff_elevated(elevated: bool, title: Seq<char>)
    ensures
        marked_title(elevated, title) is Some <==> elevated && !(exists|stem: Seq<char>|
            title == #[trigger] (stem + " (Elevated)"@)),
        marked_title(elevated, title) matches Some(marked) ==> marked == title + " (Elevated)"@,
{
    let suffix = " (Elevated)"@;
    if ends_with(title, suffix) {
        let stem = title.take(title.len() - suffix.len());
        assert(title == stem + suffix) by {
            assert(title == stem + title.skip(title.len() - suffix.len()));
        }
    }
    if exists|stem: Seq<char>| title == #[trigger] (stem + suffix) {
        let stem = choose|stem: Seq<char>| title == #[trigger] (stem + suffix);
        assert(title.skip(title.len() - suffix.len()) == suffix);
    }
}

} // verus!
