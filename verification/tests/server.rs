use dsh_desktop::paths::Platform;
use dsh_desktop::server::{
    finish_start, kill_process_group, launch_result, runs_after_stop, server_exited,
    server_started, server_status, spawn_error, start_internal, status_of, stop_event,
    stop_server, KillPlan, LaunchEnd, ServerState, Signal, SignalStep, StartFacts, StartPlan,
    StartStep, RESTART_PAUSE_MS,
};
use dsh_desktop::settings::{AppSettings, LaunchSource};
use dsh_desktop::zorder::{WindowOp, WindowState};

const WINDOWS: WindowState = WindowState { dsh_root_pid: 0, main_hwnd: 3, picker_hwnd: 4 };

fn facts(owned: bool, web_ready: Option<bool>, port_open: Option<bool>) -> StartFacts {
    StartFacts { owned, web_ready, port_open }
}

#[test]
fn the_status_names_port_and_address() {
    let status = status_of(LaunchSource::Npx, true);
    assert!(status.running);
    assert_eq!(status.port, 3080);
    assert_eq!(status.url, "http://127.0.0.1:3080");
    assert_eq!(status.source, LaunchSource::Npx);
}

#[test]
fn a_second_server_is_never_launched() {
    assert_eq!(
        start_internal(&facts(true, None, None)),
        StartStep::Settled(StartPlan::AlreadyOwned)
    );
    assert_eq!(start_internal(&facts(false, None, None)), StartStep::ProbeWeb);
    assert_eq!(
        start_internal(&facts(false, Some(true), None)),
        StartStep::Settled(StartPlan::ReuseReady)
    );
    assert_eq!(start_internal(&facts(false, Some(false), None)), StartStep::ProbePort);
    assert_eq!(
        start_internal(&facts(false, Some(false), Some(true))),
        StartStep::Settled(StartPlan::AwaitBoot)
    );
    assert_eq!(
        start_internal(&facts(false, Some(false), Some(false))),
        StartStep::Settled(StartPlan::Launch)
    );
}

#[test]
fn each_plan_has_its_effects() {
    let cases = [
        (StartPlan::AlreadyOwned, None, None),
        (StartPlan::ReuseReady, Some("server:ready"), None),
        (StartPlan::AwaitBoot, None, Some(false)),
    ];
    for (plan, event, wait) in cases {
        let mut server = ServerState { pid: Some(7) };
        let mut windows = WINDOWS;
        let report =
            finish_start(&mut server, &mut windows, Platform::Windows, LaunchSource::Npx, plan, None)
                .unwrap();
        assert_eq!(report.event, event);
        assert_eq!(report.wait, wait);
        assert!(report.ops.is_empty());
        assert!(report.status.running);
        assert_eq!(report.status.source, LaunchSource::Npx);
        assert_eq!(server.pid, Some(7));
        assert_eq!(windows, WINDOWS);
    }
}

#[test]
fn a_launched_server_is_taken_over_and_waited_for() {
    let mut server = ServerState { pid: None };
    let mut windows = WINDOWS;
    let report = finish_start(
        &mut server,
        &mut windows,
        Platform::Windows,
        LaunchSource::Local,
        StartPlan::Launch,
        Some(Ok(42)),
    )
    .unwrap();
    assert_eq!(report.event, None);
    assert_eq!(report.wait, Some(true));
    assert_eq!(report.ops, vec![WindowOp::AllowForeground { process: 42 }]);
    assert!(report.status.running);
    assert_eq!(report.status.url, "http://127.0.0.1:3080");
    assert_eq!(server.pid, Some(42));
    assert_eq!(windows, WindowState { dsh_root_pid: 42, ..WINDOWS });
}

#[test]
fn a_launch_that_fails_leaves_nothing_behind() {
    let settings = AppSettings { source: LaunchSource::Npx, local_path: String::new() };
    for (end, text) in [
        (LaunchEnd::NotBuilt("no repository".to_string()), "no repository"),
        (
            LaunchEnd::NotSpawned("gone".to_string()),
            "无法启动 npx @deepseek-ai/dsh web：gone",
        ),
    ] {
        let launch = launch_result(&settings, end);
        let mut server = ServerState { pid: None };
        let mut windows = WINDOWS;
        let result = finish_start(
            &mut server,
            &mut windows,
            Platform::Windows,
            LaunchSource::Npx,
            StartPlan::Launch,
            Some(launch),
        );
        assert_eq!(result.err(), Some(text.to_string()));
        assert_eq!(server.pid, None);
        assert_eq!(windows, WINDOWS);
    }
    assert_eq!(launch_result(&settings, LaunchEnd::Spawned(42)), Ok(42));
}

#[test]
fn a_failed_launch_names_the_command() {
    let npx = AppSettings { source: LaunchSource::Npx, local_path: "/x".to_string() };
    assert_eq!(spawn_error(&npx, "gone"), "无法启动 npx @deepseek-ai/dsh web：gone");
    let local = AppSettings { source: LaunchSource::Local, local_path: " /x ".to_string() };
    assert_eq!(
        spawn_error(&local, "gone"),
        "无法启动本地 dsh（node --import tsx/esm apps/cli/src/bin.ts web @ /x）：gone"
    );
}

#[test]
fn the_process_tree_root_follows_the_server() {
    let mut server = ServerState { pid: None };
    let mut windows = WINDOWS;
    let ops = server_started(&mut server, &mut windows, Platform::Windows, 42);
    assert_eq!(ops, vec![WindowOp::AllowForeground { process: 42 }]);
    assert_eq!(server.pid, Some(42));
    assert_eq!(windows, WindowState { dsh_root_pid: 42, ..WINDOWS });
    server_exited(&mut server, &mut windows, Platform::Windows);
    assert_eq!(server.pid, None);
    assert_eq!(windows, WINDOWS);
    assert!(server_started(&mut server, &mut windows, Platform::Unix, 42).is_empty());
    assert_eq!(windows, WINDOWS);
}

#[test]
fn stopping_twice_ends_one_process() {
    let mut server = ServerState { pid: Some(42) };
    let mut windows = WindowState { dsh_root_pid: 42, ..WINDOWS };
    assert_eq!(stop_server(&mut server, &mut windows, Platform::Windows), Some(42));
    assert_eq!(stop_event(Some(42)), Some("server:stopped"));
    assert_eq!(windows, WINDOWS);
    assert_eq!(stop_server(&mut server, &mut windows, Platform::Windows), None);
    assert_eq!(windows, WINDOWS);
    assert_eq!(stop_event(None), None);
    assert_eq!(server.pid, None);
}

#[test]
fn a_foreign_server_may_keep_running() {
    assert!(!runs_after_stop(Some(42), true));
    assert!(runs_after_stop(None, true));
    assert!(!runs_after_stop(None, false));
    assert!(server_status(&ServerState { pid: Some(42) }, false));
    assert!(server_status(&ServerState { pid: None }, true));
    assert!(!server_status(&ServerState { pid: None }, false));
    assert_eq!(RESTART_PAUSE_MS, 600);
}

#[test]
fn a_process_group_is_asked_and_then_forced() {
    let steps = |target| {
        vec![
            SignalStep::Send { target, signal: Signal::Terminate },
            SignalStep::Pause { ms: 400 },
            SignalStep::Send { target, signal: Signal::Kill },
        ]
    };
    assert!(matches!(kill_process_group(Platform::Unix, 42), KillPlan::Signals(s) if s == steps(-42)));
    assert!(matches!(kill_process_group(Platform::Unix, 0), KillPlan::Signals(s) if s == steps(0)));
    assert!(matches!(
        kill_process_group(Platform::Unix, 0x7fff_ffff),
        KillPlan::Signals(s) if s == steps(-0x7fff_ffff)
    ));
    assert!(matches!(
        kill_process_group(Platform::Unix, 0xffff_ffff),
        KillPlan::Signals(s) if s == steps(1)
    ));
}

#[test]
fn a_process_tree_on_windows_is_ended_by_taskkill() {
    match kill_process_group(Platform::Windows, 0x8000_0000) {
        KillPlan::Run(c) => {
            assert_eq!(c.program, "taskkill");
            assert_eq!(
                c.args,
                vec![
                    "/PID".to_string(),
                    "2147483648".to_string(),
                    "/T".to_string(),
                    "/F".to_string()
                ]
            );
            assert!(c.hidden_console);
            assert_eq!(c.path, None);
        }
        KillPlan::Signals(_) => panic!("signals on Windows"),
    }
}
