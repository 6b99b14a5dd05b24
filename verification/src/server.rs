//! The server process: starting it, stopping it, and what is reported about it.
use vstd::prelude::*;

use crate::command::{bare, hidden, hide_console, new_command, push_args, with_args, CommandSpec};
use crate::paths::Platform;
use crate::readiness::{url, PORT};
use crate::settings::{AppSettings, LaunchSource, SettingsView};
use crate::text::{decimal, decimal_text, literals, trim, trim_text};
use crate::zorder::{remember_dsh_root_pid, WindowOp, WindowState};

verus! {

/// The pause between stopping the server and starting it again, in milliseconds.
pub const RESTART_PAUSE_MS: u64 = 600;

/// How long the process group has to end by itself, in milliseconds.
pub const KILL_GRACE_MS: u64 = 400;

/// The server process that this application runs.
#[derive(Clone, Copy, Debug, PartialEq, Eq, Structural)]
pub struct ServerState {
    pub pid: Option<u32>,
}

/// What is reported about the server.
#[derive(Clone, Debug)]
pub struct Status {
    pub running: bool,
    pub port: u16,
    pub url: String,
    pub source: LaunchSource,
}

/// `status` is the report on a server that runs or does not.
pub open spec fn reports(status: Status, source: LaunchSource, running: bool) -> bool {
    &&& status.running == running
    &&& status.port == 3080
    &&& status.url@ == "http://127.0.0.1:3080"@
    &&& status.source == source
}

/// The report on a server that runs or does not.
pub fn status_of(source: LaunchSource, running: bool) -> (status: Status)
    ensures
        reports(status, source, running),
{
    Status { running, port: PORT, url: url(), source }
}

/// What is known when the server is to be started; what was not looked at yet is `None`.
#[derive(Clone, Copy, Debug, PartialEq, Eq, Structural)]
pub struct StartFacts {
    /// This application runs a server process.
    pub owned: bool,
    /// A server is up.
    pub web_ready: Option<bool>,
    /// Something accepts connections on the port.
    pub port_open: Option<bool>,
}

/// How the server is started.
#[derive(Clone, Copy, Debug, PartialEq, Eq, Structural)]
pub enum StartPlan {
    /// It runs already.
    AlreadyOwned,
    /// One that this application does not run is up: use it, and say that it is.
    ReuseReady,
    /// One that this application does not run is booting: use it, and wait for it.
    AwaitBoot,
    /// Launch it, and wait for it as long as the process lives.
    Launch,
}

/// The next step of starting the server.
#[derive(Clone, Copy, Debug, PartialEq, Eq, Structural)]
pub enum StartStep {
    /// Find out whether a server is up.
    ProbeWeb,
    /// Find out whether something accepts connections on the port.
    ProbePort,
    Settled(StartPlan),
}

/// The next step of starting the server, by what is known.
pub open spec fn start_step(facts: StartFacts) -> StartStep {
    if facts.owned {
        StartStep::Settled(StartPlan::AlreadyOwned)
    } else {
        match facts.web_ready {
            None => StartStep::ProbeWeb,
            Some(true) => StartStep::Settled(StartPlan::ReuseReady),
            Some(false) => match facts.port_open {
                None => StartStep::ProbePort,
                Some(true) => StartStep::Settled(StartPlan::AwaitBoot),
                Some(false) => StartStep::Settled(StartPlan::Launch),
            },
        }
    }
}

/// The next step of starting the server. A server that is up, or booting, is used instead of a
/// second one, which would find the port taken.
pub fn start_internal(facts: &StartFacts) -> (step: StartStep)
    ensures
        step == start_step(*facts),
{
    if facts.owned {
        return StartStep::Settled(StartPlan::AlreadyOwned);
    }
    match facts.web_ready {
        None => StartStep::ProbeWeb,
        Some(true) => StartStep::Settled(StartPlan::ReuseReady),
        Some(false) => match facts.port_open {
            None => StartStep::ProbePort,
            Some(true) => StartStep::Settled(StartPlan::AwaitBoot),
            Some(false) => StartStep::Settled(StartPlan::Launch),
        },
    }
}

/// What is said when the server process cannot be launched.
pub open spec fn launch_failure(settings: SettingsView, detail: Seq<char>) -> Seq<char> {
    (match settings.source {
        LaunchSource::Npx => "无法启动 npx @deepseek-ai/dsh web"@,
        LaunchSource::Local => "无法启动本地 dsh（node --import tsx/esm apps/cli/src/bin.ts web @ "@ + trim(
            settings.local_path,
        ) + "）"@,
    }) + "："@ + detail
}

/// What is said when the server process cannot be launched for the reason `detail`.
pub fn spawn_error(settings: &AppSettings, detail: &str) -> (text: String)
    ensures
        text@ == launch_failure(settings@, detail@),
{
    let mut text: String = match settings.source {
        LaunchSource::Npx => "无法启动 npx @deepseek-ai/dsh web".to_owned(),
        LaunchSource::Local => "无法启动本地 dsh（node --import tsx/esm apps/cli/src/bin.ts web @ ".to_owned().concat(
            trim_text(settings.local_path.as_str()).as_str(),
        ).concat("）"),
    };
    text.append("：");
    text.append(detail);
    text
}

/// How far launching the server process came.
#[derive(Debug)]
pub enum LaunchEnd {
    /// There is no command to run, for the reason that is given.
    NotBuilt(String),
    /// The command could not be started, for the reason that is given.
    NotSpawned(String),
    /// The process runs, with this number.
    Spawned(u32),
}

/// What launching the server process comes to: its number, or what to tell the user.
pub open spec fn launch_verdict(settings: SettingsView, end: LaunchEnd) -> Result<u32, Seq<char>> {
    match end {
        LaunchEnd::NotBuilt(reason) => Err(reason@),
        LaunchEnd::NotSpawned(detail) => Err(launch_failure(settings, detail@)),
        LaunchEnd::Spawned(pid) => Ok(pid),
    }
}

/// What launching the server process comes to. The reason why there is no command is passed on as
/// it is; that a command could not be started is said of the command.
pub fn launch_result(settings: &AppSettings, end: LaunchEnd) -> (result: Result<u32, String>)
    ensures
        launch_verdict(settings@, end) == (match result {
            Ok(pid) => Ok::<u32, Seq<char>>(pid),
            Err(e) => Err(e@),
        }),
{
    match end {
        LaunchEnd::NotBuilt(reason) => Err(reason),
        LaunchEnd::NotSpawned(detail) => Err(spawn_error(settings, detail.as_str())),
        LaunchEnd::Spawned(pid) => Ok(pid),
    }
}

/// The root of the process tree that is remembered is the server process, where that is needed.
pub open spec fn roots_agree(
    server: ServerState,
    windows: WindowState,
    platform: Platform,
) -> bool {
    platform == Platform::Windows ==> windows.dsh_root_pid == (match server.pid {
        Some(pid) => pid,
        None => 0,
    })
}

/// `windows` with the root of the process tree set to that of `server`, where that is needed.
pub open spec fn rooted(windows: WindowState, server: ServerState, platform: Platform) -> WindowState {
    match platform {
        Platform::Windows => WindowState {
            dsh_root_pid: match server.pid {
                Some(pid) => pid,
                None => 0,
            },
            ..windows
        },
        Platform::Unix => windows,
    }
}

/// The operations on windows that go with taking over the server process `pid`: on Windows it is
/// allowed to come to the front.
pub open spec fn start_ops(platform: Platform, pid: u32) -> Seq<WindowOp> {
    match platform {
        Platform::Windows => seq![WindowOp::AllowForeground { process: pid }],
        Platform::Unix => seq![],
    }
}

/// Takes over a server process that was launched. On Windows it is allowed to come to the front.
pub fn server_started(
    server: &mut ServerState,
    windows: &mut WindowState,
    platform: Platform,
    pid: u32,
) -> (ops: Vec<WindowOp>)
    ensures
        *final(server) == (ServerState { pid: Some(pid) }),
        *final(windows) == rooted(*old(windows), *final(server), platform),
        roots_agree(*final(server), *final(windows), platform),
        ops@ == start_ops(platform, pid),
{
    server.pid = Some(pid);
    remember_dsh_root_pid(windows, platform, Some(pid));
    let mut ops: Vec<WindowOp> = Vec::new();
    match platform {
        Platform::Windows => {
            ops.push(WindowOp::AllowForeground { process: pid });
        },
        Platform::Unix => {},
    }
    ops
}

/// What a start that did not fail leads to.
#[derive(Debug)]
pub struct StartReport {
    /// What is reported about the server.
    pub status: Status,
    /// The event that is announced at once, if there is one.
    pub event: Option<&'static str>,
    /// The server is waited for; the value says whether only as long as this application runs it.
    pub wait: Option<bool>,
    /// The operations on windows to perform.
    pub ops: Vec<WindowOp>,
}

/// Whether a plan waits for the server, and whether only as long as this application runs it.
pub open spec fn plan_wait(plan: StartPlan) -> Option<bool> {
    match plan {
        StartPlan::AwaitBoot => Some(false),
        StartPlan::Launch => Some(true),
        _ => None,
    }
}

/// The event that a plan announces at once: only a server that is up already is announced.
pub open spec fn plan_event(plan: StartPlan) -> Option<Seq<char>> {
    if plan == StartPlan::ReuseReady {
        Some("server:ready"@)
    } else {
        None
    }
}

/// What an optional event is called.
pub open spec fn event_name(event: Option<&'static str>) -> Option<Seq<char>> {
    match event {
        Some(name) => Some(name@),
        None => None,
    }
}

/// Brings a start to its end. `launch` is what came of launching, where the plan launches. A launch
/// that failed fails the start with the same words: nothing is reported, announced or waited for,
/// and no process is taken over. Otherwise the server is reported as running.
pub fn finish_start(
    server: &mut ServerState,
    windows: &mut WindowState,
    platform: Platform,
    source: LaunchSource,
    plan: StartPlan,
    launch: Option<Result<u32, String>>,
) -> (result: Result<StartReport, String>)
    ensures
        match launch {
            Some(Err(e)) => {
                &&& result == Err::<StartReport, String>(e)
                &&& *final(server) == *old(server)
                &&& *final(windows) == *old(windows)
            },
            Some(Ok(pid)) => {
                &&& result matches Ok(report) && reports(report.status, source, true) && event_name(
                    report.event,
                ) == plan_event(plan) && report.wait == plan_wait(plan) && report.ops@ == start_ops(
                    platform,
                    pid,
                )
                &&& *final(server) == (ServerState { pid: Some(pid) })
                &&& *final(windows) == rooted(*old(windows), *final(server), platform)
            },
            None => {
                &&& result matches Ok(report) && reports(report.status, source, true) && event_name(
                    report.event,
                ) == plan_event(plan) && report.wait == plan_wait(plan) && report.ops@
                    == Seq::<WindowOp>::empty()
                &&& *final(server) == *old(server)
                &&& *final(windows) == *old(windows)
            },
        },
{
    let ops: Vec<WindowOp> = match launch {
        Some(Err(e)) => {
            return Err(e);
        },
        Some(Ok(pid)) => server_started(server, windows, platform, pid),
        None => Vec::new(),
    };
    let event: Option<&'static str> = match plan {
        StartPlan::ReuseReady => Some("server:ready"),
        _ => None,
    };
    let wait: Option<bool> = match plan {
        StartPlan::AwaitBoot => Some(false),
        StartPlan::Launch => Some(true),
        _ => None,
    };
    Ok(StartReport { status: status_of(source, true), event, wait, ops })
}

/// Takes in that the server process has ended.
pub fn server_exited(server: &mut ServerState, windows: &mut WindowState, platform: Platform)
    ensures
        *final(server) == (ServerState { pid: None }),
        *final(windows) == rooted(*old(windows), *final(server), platform),
        roots_agree(*final(server), *final(windows), platform),
{
    server.pid = None;
    remember_dsh_root_pid(windows, platform, None);
}

/// Giving a server up: the process to end, if this application ran one, and what is left.
pub open spec fn given_up(server: ServerState) -> (Option<u32>, ServerState) {
    (server.pid, ServerState { pid: None })
}

/// Gives up the server process. The result is the process whose group is to be ended, if this
/// application ran one.
pub fn stop_server(server: &mut ServerState, windows: &mut WindowState, platform: Platform) -> (
    victim: Option<u32>)
    ensures
        (victim, *final(server)) == given_up(*old(server)),
        *final(windows) == rooted(*old(windows), *final(server), platform),
        roots_agree(*final(server), *final(windows), platform),
{
    let victim: Option<u32> = server.pid;
    server.pid = None;
    remember_dsh_root_pid(windows, platform, None);
    victim
}

/// The event that stopping the server announces: only where a process was given up.
pub fn stop_event(victim: Option<u32>) -> (event: Option<&'static str>)
    ensures
        event_name(event) == (if victim is Some {
            Some("server:stopped"@)
        } else {
            None
        }),
{
    match victim {
        Some(_) => Some("server:stopped"),
        None => None,
    }
}

/// Whether a server runs after it was stopped: one that this application did not run may still
/// have the port.
pub fn runs_after_stop(victim: Option<u32>, port_open: bool) -> (running: bool)
    ensures
        running == (victim is None && port_open),
{
    match victim {
        Some(_) => false,
        None => port_open,
    }
}

/// Whether a server runs: one of this application, or another one that has the port.
pub fn server_status(server: &ServerState, port_open: bool) -> (running: bool)
    ensures
        running == (server.pid is Some || port_open),
{
    server.pid.is_some() || port_open
}

/// A signal for a process group.
#[derive(Clone, Copy, Debug, PartialEq, Eq, Structural)]
pub enum Signal {
    /// Asks the processes to end.
    Terminate,
    /// Ends them.
    Kill,
}

/// One step of ending a process group with signals.
#[derive(Clone, Copy, Debug, PartialEq, Eq, Structural)]
pub enum SignalStep {
    /// Send a signal; a negative target stands for the group of the process.
    Send { target: i32, signal: Signal },
    Pause { ms: u64 },
}

/// How a server process is ended together with everything that it started.
#[derive(Debug)]
pub enum KillPlan {
    Signals(Vec<SignalStep>),
    Run(CommandSpec),
}

/// The number that stands for the group of `pid` where signals are sent. A number beyond the range
/// of process identifiers wraps around.
pub open spec fn group_target(pid: u32) -> int {
    if pid <= i32::MAX {
        -(pid as int)
    } else {
        0x1_0000_0000 - pid
    }
}

fn group_of(pid: u32) -> (target: i32)
    requires
        pid != 0x8000_0000,
    ensures
        target == group_target(pid),
{
    if pid <= 0x7fff_ffff {
        -(pid as i32)
    } else {
        (0x1_0000_0000 - pid as u64) as i32
    }
}

/// Ends the process `pid` together with everything that it started: asked first and then forced, or
/// by the system's own command on Windows.
pub fn kill_process_group(platform: Platform, pid: u32) -> (plan: KillPlan)
    requires
        platform == Platform::Unix ==> pid != 0x8000_0000,
    ensures
        match platform {
            Platform::Unix => plan matches KillPlan::Signals(steps) && {
                &&& steps@.len() == 3
                &&& steps@[0] matches SignalStep::Send { target, signal } && target
                    == group_target(pid) && signal == Signal::Terminate
                &&& steps@[1] == (SignalStep::Pause { ms: 400 })
                &&& steps@[2] matches SignalStep::Send { target, signal } && target
                    == group_target(pid) && signal == Signal::Kill
            },
            Platform::Windows => plan matches KillPlan::Run(c) && c@ == hidden(
                with_args(
                    bare("taskkill"@),
                    seq!["/PID"@, decimal(pid as nat), "/T"@, "/F"@],
                ),
            ),
        },
{
    match platform {
        Platform::Unix => {
            let target: i32 = group_of(pid);
            KillPlan::Signals(
                vec![
                    SignalStep::Send { target, signal: Signal::Terminate },
                    SignalStep::Pause { ms: KILL_GRACE_MS },
                    SignalStep::Send { target, signal: Signal::Kill },
                ],
            )
        },
        Platform::Windows => {
            let pid_text: String = decimal_text(pid);
            let mut c = new_command("taskkill");
            let list = ["/PID", pid_text.as_str(), "/T", "/F"];
            push_args(&mut c, &list);
            assert(literals(list@) == seq!["/PID"@, decimal(pid as nat), "/T"@, "/F"@]);
            hide_console(&mut c);
            KillPlan::Run(c)
        },
    }
}

/// A server process is launched only where this application runs none, none is up, and nothing has
/// the port.
pub proof fn law_no_second_server(facts: StartFacts)
    ensures
        start_step(facts) == StartStep::Settled(StartPlan::Launch) <==> !facts.owned
            && facts.web_ready == Some(false) && facts.port_open == Some(false),
{
}

/// Starting settles once both questions are answered, and asks no question twice.
pub proof fn law_start_settles(facts: StartFacts)
    ensures
        start_step(facts) == StartStep::ProbeWeb ==> facts.web_ready is None,
        start_step(facts) == StartStep::ProbePort ==> facts.port_open is None,
        facts.web_ready is Some && facts.port_open is Some ==> start_step(facts) is Settled,
{
}

/// Stopping a second time ends no process and changes nothing: what the first stop leaves is a
/// state without a server, with which the windows agree.
pub proof fn law_stop_is_idempotent(server: ServerState, windows: WindowState, platform: Platform)
    ensures
        ({
            let stopped = given_up(server).1;
            let after = rooted(windows, stopped, platform);
            &&& given_up(stopped) == (None::<u32>, stopped)
            &&& rooted(after, stopped, platform) == after
            &&& roots_agree(stopped, after, platform)
        }),
{
}

/// The server process is forgotten completely when it ends: the windows are remembered as before
/// it was launched, if they agreed with a state without a server then.
pub proof fn law_exit_undoes_start(windows: WindowState, platform: Platform, pid: u32)
    requires
        roots_agree(ServerState { pid: None }, windows, platform),
    ensures
        rooted(
            rooted(windows, ServerState { pid: Some(pid) }, platform),
            ServerState { pid: None },
            platform,
        ) == windows,
{
}

/// A start asks one question after the other and settles as soon as the answer is known: at once if
/// this application runs a server, then by whether one is up, then by whether the port is taken.
pub proof fn law_start_follows_the_answers(facts: StartFacts)
    ensures
        start_step(facts) == StartStep::Settled(StartPlan::AlreadyOwned) <==> facts.owned,
        start_step(facts) == StartStep::ProbeWeb <==> !facts.owned && facts.web_ready is None,
        start_step(facts) == StartStep::Settled(StartPlan::ReuseReady) <==> !facts.owned
            && facts.web_ready == Some(true),
        start_step(facts) == StartStep::ProbePort <==> !facts.owned && facts.web_ready == Some(false)
            && facts.port_open is None,
        start_step(facts) == StartStep::Settled(StartPlan::AwaitBoot) <==> !facts.owned
            && facts.web_ready == Some(false) && facts.port_open == Some(true),
        start_step(facts) == StartStep::Settled(StartPlan::Launch) <==> !facts.owned
            && facts.web_ready == Some(false) && facts.port_open == Some(false),
{
}

/// Only a server that was found up is announced at once; one that boots or was launched is waited
/// for, and only the one that was launched as long as its process lives.
pub proof fn law_plans_announce_or_wait(plan: StartPlan)
    ensures
        plan == StartPlan::ReuseReady ==> plan_event(plan) == Some("server:ready"@),
        plan != StartPlan::ReuseReady ==> plan_event(plan) is None,
        plan_wait(plan) == Some(true) <==> plan == StartPlan::Launch,
        plan_wait(plan) == Some(false) <==> plan == StartPlan::AwaitBoot,
        plan_wait(plan) is None <==> plan == StartPlan::AlreadyOwned || plan
            == StartPlan::ReuseReady,
{
}

/// A launch that failed is told in the words of what failed: the reason why there is no command as
/// it is, and otherwise the command that could not be started, with the repository of a local one,
/// and the reason at the end.
pub proof fn law_launch_failures_are_told(settings: SettingsView, end: LaunchEnd)
    ensures
        end matches LaunchEnd::Spawned(pid) ==> launch_verdict(settings, end) == Ok::<
            u32,
            Seq<char>,
        >(pid),
        end matches LaunchEnd::NotBuilt(reason) ==> launch_verdict(settings, end) == Err::<
            u32,
            Seq<char>,
        >(reason@),
        end matches LaunchEnd::NotSpawned(detail) ==> launch_verdict(settings, end) == Err::<
            u32,
            Seq<char>,
        >(launch_failure(settings, detail@)),
        forall|detail: Seq<char>|
            settings.source == LaunchSource::Npx ==> #[trigger] launch_failure(settings, detail)
                == "无法启动 npx @deepseek-ai/dsh web"@ + "："@ + detail,
        forall|detail: Seq<char>|
            settings.source == LaunchSource::Local ==> #[trigger] launch_failure(settings, detail)
                == "无法启动本地 dsh（node --import tsx/esm apps/cli/src/bin.ts web @ "@ + trim(
                settings.local_path,
            ) + "）"@ + "："@ + detail,
{
}

/// On Windows the root of the process tree is the server process, or zero without one, and the
/// process is let to the front when it is taken over; elsewhere nothing is remembered or done. The
/// windows that are remembered stay as they are.
pub proof fn law_tree_root_follows_the_server(
    windows: WindowState,
    server: ServerState,
    platform: Platform,
    pid: u32,
)
    ensures
        rooted(windows, server, platform).main_hwnd == windows.main_hwnd,
        rooted(windows, server, platform).picker_hwnd == windows.picker_hwnd,
        platform == Platform::Unix ==> rooted(windows, server, platform) == windows,
        platform == Platform::Windows && server.pid is None ==> rooted(
            windows,
            server,
            platform,
        ).dsh_root_pid == 0,
        platform == Platform::Windows && server.pid is Some ==> rooted(
            windows,
            server,
            platform,
        ).dsh_root_pid == server.pid->0,
        roots_agree(server, windows, platform) <==> rooted(windows, server, platform) == windows,
        platform == Platform::Windows ==> start_ops(platform, pid) == seq![
            WindowOp::AllowForeground { process: pid },
        ],
        platform == Platform::Unix ==> start_ops(platform, pid) == Seq::<WindowOp>::empty(),
{
}

/// Giving a server up hands out exactly the process that ran, and keeps none.
pub proof fn law_given_up_is_what_ran(server: ServerState)
    ensures
        given_up(server).0 == server.pid,
        given_up(server).1 == (ServerState { pid: None }),
{
}

/// Signals go to the group of the process: the target is the negated number of the process, counted
/// in 32 bits, and fits into them wherever one does.
pub proof fn law_signals_go_to_the_group(pid: u32)
    ensures
        pid <= 0x7fff_ffff ==> group_target(pid) == -(pid as int),
        pid > 0x7fff_ffff ==> group_target(pid) + pid == 0x1_0000_0000,
        pid != 0x8000_0000 ==> i32::MIN < group_target(pid) <= i32::MAX,
{
}

/// A report names the port and the address that the server always has, and passes the rest on.
pub proof fn law_reports_name_the_address(status: Status, source: LaunchSource, running: bool)
    ensures
        reports(status, source, running) <==> status.running == running && status.port == 3080
            && status.url@ == "http://127.0.0.1:3080"@ && status.source == source,
{
}

/// An event that is announced has the name that it carries.
pub proof fn law_events_have_names(name: &'static str)
    ensures
        event_name(Some(name)) == Some(name@),
        event_name(None) is None,
{
}

} // verus!
