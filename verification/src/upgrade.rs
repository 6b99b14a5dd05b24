//! Upgrading the Harness.
//!
//! The published package is upgraded by one command, a local repository by several, each of which
//! runs only if the one before it succeeded. After a successful upgrade a server that this
//! application runs is started again. An upgrade is a machine that takes in what happened and says
//! what to do next.
use vstd::prelude::*;

use crate::command::{
    fetch_latest_command, local_upgrade, local_upgrade_steps, npx_upgrade_command, web_command,
    CommandSpec, CommandView, LocalProbe, UpgradeStep,
};
use crate::faults::{fault_message, fault_text, Fault};
use crate::paths::Host;
use crate::settings::{
    repo_verdict, validate_local_repo, AppSettings, LaunchSource, RepoProbe, SettingsView,
};
use crate::text::{opt_text, texts};
use crate::version::{reported_version, version_or_unknown};

verus! {

/// How long late output is waited for after the last command, in milliseconds.
pub const SETTLE_PAUSE_MS: u64 = 150;

/// What a command of an upgrade, and what it is called in the log, hold.
pub open spec fn entry(step: (Option<String>, CommandSpec)) -> (Option<Seq<char>>, CommandView) {
    (opt_text(step.0), step.1@)
}

/// What the commands of an upgrade, or the reason why there are none, hold.
pub open spec fn entries(
    result: Result<Vec<(Option<String>, CommandSpec)>, String>,
) -> Result<Seq<(Option<Seq<char>>, CommandView)>, Seq<char>> {
    match result {
        Ok(steps) => Ok(steps@.map_values(|step: (Option<String>, CommandSpec)| entry(step))),
        Err(e) => Err(e@),
    }
}

/// The commands of an upgrade, in order, each with what it is called in the log, or the reason why
/// there are none: one command without a name for the published package, those of the repository
/// for a local source that is valid.
pub open spec fn upgrade_plan(host: Host, settings: SettingsView, repo: RepoProbe) -> Result<
    Seq<(Option<Seq<char>>, CommandView)>,
    Seq<char>,
> {
    match settings.source {
        LaunchSource::Npx => Ok(seq![(None, fetch_latest_command(host))]),
        LaunchSource::Local => match repo_verdict(settings.local_path, repo) {
            Err(e) => Err(e),
            Ok(dir) => Ok(
                local_upgrade(host, dir).map_values(
                    |step: (Seq<char>, CommandView)| (Some(step.0), step.1),
                ),
            ),
        },
    }
}

/// The commands of an upgrade, in order, each with what it is called in the log. A local repository
/// that is not valid is refused before any command runs; what was found of it does not matter for
/// the published package.
pub fn upgrade_commands(host: &Host, settings: &AppSettings, repo: RepoProbe) -> (result: Result<
    Vec<(Option<String>, CommandSpec)>,
    String,
>)
    ensures
        entries(result) == upgrade_plan(*host, settings@, repo),
{
    let mut list: Vec<(Option<String>, CommandSpec)> = Vec::new();
    match settings.source {
        LaunchSource::Npx => {
            list.push((None, npx_upgrade_command(host)));
            assert(list@.map_values(|step: (Option<String>, CommandSpec)| entry(step)) == seq![
                (None::<Seq<char>>, fetch_latest_command(*host)),
            ]);
        },
        LaunchSource::Local => {
            let dir: String = match validate_local_repo(settings.local_path.as_str(), repo) {
                Err(e) => {
                    return Err(e);
                },
                Ok(dir) => dir,
            };
            let steps: Vec<UpgradeStep> = local_upgrade_steps(host, dir.as_str());
            let ghost plan = local_upgrade(*host, dir@);
            for step in it: steps
                invariant
                    it.seq().map_values(|step: UpgradeStep| step@) == plan,
                    list@.len() == it.index(),
                    forall|k: int|
                        0 <= k < list@.len() ==> entry(#[trigger] list@[k]) == (
                            Some(plan[k].0),
                            plan[k].1,
                        ),
            {
                assert(step@ == it.seq().map_values(|step: UpgradeStep| step@)[it.index() as int]);
                list.push((Some(step.label), step.command));
            }
            assert(list@.map_values(|step: (Option<String>, CommandSpec)| entry(step))
                == plan.map_values(|step: (Seq<char>, CommandView)| (Some(step.0), step.1)));
        },
    }
    Ok(list)
}

/// How a command of the upgrade ended.
#[derive(Debug)]
pub enum StepResult {
    Succeeded,
    Failed,
    /// It could not be started, for the reason that is given.
    NotStarted(String),
}

/// How a command of the upgrade ended.
pub enum StepView {
    Succeeded,
    Failed,
    NotStarted(Seq<char>),
}

impl View for StepResult {
    type V = StepView;

    open spec fn view(&self) -> StepView {
        match self {
            StepResult::Succeeded => StepView::Succeeded,
            StepResult::Failed => StepView::Failed,
            StepResult::NotStarted(e) => StepView::NotStarted(e@),
        }
    }
}

/// How a command ended, by what came of starting it and of waiting for it.
pub open spec fn step_result(started: Result<(), String>, success: Option<bool>) -> StepView {
    match started {
        Err(e) => StepView::NotStarted(fault_text(Fault::StartCommand) + "："@ + e@),
        Ok(_) => if success == Some(true) {
            StepView::Succeeded
        } else {
            StepView::Failed
        },
    }
}

/// How a command ended. `started` holds the reason if it could not be started, and `success` says
/// whether it reported success, if it could be waited for.
pub fn run_logged_command(started: Result<(), String>, success: Option<bool>) -> (result: StepResult)
    ensures
        result@ == step_result(started, success),
{
    match started {
        Err(e) => StepResult::NotStarted(fault_message(Fault::StartCommand, e.as_str())),
        Ok(_) => match success {
            Some(true) => StepResult::Succeeded,
            _ => StepResult::Failed,
        },
    }
}

/// What became of the server after a successful upgrade.
#[derive(Debug)]
pub enum RestartOutcome {
    /// This application ran none.
    NotOwned,
    Restarted,
    /// It could not be started again, for the reason that is given.
    Failed(String),
}

/// What became of the server after a successful upgrade.
pub enum RestartView {
    NotOwned,
    Restarted,
    Failed(Seq<char>),
}

impl View for RestartOutcome {
    type V = RestartView;

    open spec fn view(&self) -> RestartView {
        match self {
            RestartOutcome::NotOwned => RestartView::NotOwned,
            RestartOutcome::Restarted => RestartView::Restarted,
            RestartOutcome::Failed(e) => RestartView::Failed(e@),
        }
    }
}

/// What an optional outcome holds.
pub open spec fn opt_restart(outcome: Option<RestartOutcome>) -> Option<RestartView> {
    match outcome {
        Some(o) => Some(o@),
        None => None,
    }
}

/// Where an upgrade stands.
#[derive(Clone, Copy, Debug, PartialEq, Eq, Structural)]
pub enum UpgradeState {
    /// The command with this number runs.
    Running(usize),
    /// The commands have ended, well or not, and late output is waited for.
    Settling(bool),
    /// The server is being started again.
    Restarting,
    Finished,
}

/// Something that happened during an upgrade.
#[derive(Debug)]
pub enum UpgradeEvent {
    StepEnded(StepResult),
    /// Late output has been waited for; `owned` says whether this application runs a server.
    Settled { owned: bool },
    /// The server was started again, or could not be, for the reason that is given.
    RestartEnded(Option<String>),
}

/// Something that happened during an upgrade.
pub enum EventView {
    StepEnded(StepView),
    Settled { owned: bool },
    RestartEnded(Option<Seq<char>>),
}

impl View for UpgradeEvent {
    type V = EventView;

    open spec fn view(&self) -> EventView {
        match self {
            UpgradeEvent::StepEnded(result) => EventView::StepEnded(result@),
            UpgradeEvent::Settled { owned } => EventView::Settled { owned: *owned },
            UpgradeEvent::RestartEnded(reason) => EventView::RestartEnded(opt_text(*reason)),
        }
    }
}

/// What an upgrade does next.
#[derive(Debug)]
pub enum UpgradeAction {
    /// Run the command with this number.
    Run(usize),
    /// Wait for late output.
    Settle,
    /// Stop the server and start it again.
    Restart,
    /// Report the end of the upgrade: what became of the server if the upgrade went well, and
    /// `None` if it did not.
    Report(Option<RestartOutcome>),
    /// Give the upgrade up, for the reason that is given.
    GiveUp(String),
    /// The event does not belong here.
    Ignore,
}

/// What an upgrade does next.
pub enum ActionView {
    Run(usize),
    Settle,
    Restart,
    Report(Option<RestartView>),
    GiveUp(Seq<char>),
    Ignore,
}

impl View for UpgradeAction {
    type V = ActionView;

    open spec fn view(&self) -> ActionView {
        match self {
            UpgradeAction::Run(i) => ActionView::Run(*i),
            UpgradeAction::Settle => ActionView::Settle,
            UpgradeAction::Restart => ActionView::Restart,
            UpgradeAction::Report(outcome) => ActionView::Report(opt_restart(*outcome)),
            UpgradeAction::GiveUp(reason) => ActionView::GiveUp(reason@),
            UpgradeAction::Ignore => ActionView::Ignore,
        }
    }
}

/// How many commands an upgrade has.
pub open spec fn step_count(source: LaunchSource) -> usize {
    match source {
        LaunchSource::Npx => 1,
        LaunchSource::Local => 3,
    }
}

/// A state that an upgrade can be in: a command that runs is one of its commands.
pub open spec fn valid_state(source: LaunchSource, state: UpgradeState) -> bool {
    state matches UpgradeState::Running(i) ==> i < step_count(source)
}

/// What the command of a local upgrade with the given number is called.
pub open spec fn step_label(index: nat) -> Seq<char> {
    if index == 0 {
        "git pull"@
    } else if index == 1 {
        "pnpm install"@
    } else {
        "pnpm run build"@
    }
}

/// What is said when a command of the upgrade could not be started.
pub open spec fn abort_message(source: LaunchSource, index: nat, reason: Seq<char>) -> Seq<char> {
    match source {
        LaunchSource::Npx => "无法启动升级命令（npx --yes @deepseek-ai/dsh@latest --version）："@ + reason,
        LaunchSource::Local => "无法启动 "@ + step_label(index) + "："@ + reason,
    }
}

/// The next state and action of an upgrade.
pub open spec fn next(source: LaunchSource, state: UpgradeState, event: EventView) -> (
    UpgradeState,
    ActionView,
) {
    match (state, event) {
        (UpgradeState::Running(i), EventView::StepEnded(result)) => match result {
            StepView::NotStarted(reason) => (
                UpgradeState::Finished,
                ActionView::GiveUp(abort_message(source, i as nat, reason)),
            ),
            StepView::Failed => (UpgradeState::Settling(false), ActionView::Settle),
            StepView::Succeeded => if i + 1 < step_count(source) {
                (UpgradeState::Running((i + 1) as usize), ActionView::Run((i + 1) as usize))
            } else {
                (UpgradeState::Settling(true), ActionView::Settle)
            },
        },
        (UpgradeState::Settling(ok), EventView::Settled { owned }) => if !ok {
            (UpgradeState::Finished, ActionView::Report(None))
        } else if owned {
            (UpgradeState::Restarting, ActionView::Restart)
        } else {
            (UpgradeState::Finished, ActionView::Report(Some(RestartView::NotOwned)))
        },
        (UpgradeState::Restarting, EventView::RestartEnded(reason)) => (
            UpgradeState::Finished,
            ActionView::Report(
                Some(
                    match reason {
                        Some(e) => RestartView::Failed(e),
                        None => RestartView::Restarted,
                    },
                ),
            ),
        ),
        _ => (state, ActionView::Ignore),
    }
}

/// The state in which an upgrade begins: with its first command.
pub fn upgrade_begin(source: LaunchSource) -> (state: UpgradeState)
    ensures
        state == UpgradeState::Running(0),
        valid_state(source, state),
{
    UpgradeState::Running(0)
}

fn label_text(index: usize) -> (label: &'static str)
    ensures
        label@ == step_label(index as nat),
{
    if index == 0 {
        "git pull"
    } else if index == 1 {
        "pnpm install"
    } else {
        "pnpm run build"
    }
}

fn abort_text(source: LaunchSource, index: usize, reason: &str) -> (text: String)
    ensures
        text@ == abort_message(source, index as nat, reason@),
{
    match source {
        LaunchSource::Npx => "无法启动升级命令（npx --yes @deepseek-ai/dsh@latest --version）：".to_owned().concat(
            reason,
        ),
        LaunchSource::Local => "无法启动 ".to_owned().concat(label_text(index)).concat("：").concat(
            reason,
        ),
    }
}

/// Takes in what happened during an upgrade and says what to do next.
pub fn upgrade_dsh_inner(source: LaunchSource, state: UpgradeState, event: UpgradeEvent) -> (step: (
    UpgradeState,
    UpgradeAction,
))
    requires
        valid_state(source, state),
    ensures
        valid_state(source, step.0),
        (step.0, step.1@) == next(source, state, event@),
{
    match (state, event) {
        (UpgradeState::Running(i), UpgradeEvent::StepEnded(result)) => match result {
            StepResult::NotStarted(reason) => (
                UpgradeState::Finished,
                UpgradeAction::GiveUp(abort_text(source, i, reason.as_str())),
            ),
            StepResult::Failed => (UpgradeState::Settling(false), UpgradeAction::Settle),
            StepResult::Succeeded => {
                let count: usize = match source {
                    LaunchSource::Npx => 1,
                    LaunchSource::Local => 3,
                };
                if i + 1 < count {
                    (UpgradeState::Running(i + 1), UpgradeAction::Run(i + 1))
                } else {
                    (UpgradeState::Settling(true), UpgradeAction::Settle)
                }
            },
        },
        (UpgradeState::Settling(ok), UpgradeEvent::Settled { owned }) => if !ok {
            (UpgradeState::Finished, UpgradeAction::Report(None))
        } else if owned {
            (UpgradeState::Restarting, UpgradeAction::Restart)
        } else {
            (UpgradeState::Finished, UpgradeAction::Report(Some(RestartOutcome::NotOwned)))
        },
        (UpgradeState::Restarting, UpgradeEvent::RestartEnded(reason)) => {
            let outcome: RestartOutcome = match reason {
                Some(e) => RestartOutcome::Failed(e),
                None => RestartOutcome::Restarted,
            };
            (UpgradeState::Finished, UpgradeAction::Report(Some(outcome)))
        },
        (state, _) => (state, UpgradeAction::Ignore),
    }
}

/// The line that announces a command of a local upgrade in the log.
pub fn step_announcement(label: &str) -> (line: String)
    ensures
        line@ == "$ "@ + label@,
{
    "$ ".to_owned().concat(label)
}

/// What is said of a successful upgrade.
pub open spec fn success_message(outcome: RestartView) -> Seq<char> {
    match outcome {
        RestartView::NotOwned =>
            "升级完成，已安装最新版（当前无本应用运行的服务，下次启动即生效）"@,
        RestartView::Restarted => "升级完成，服务已用新版本重启"@,
        RestartView::Failed(e) => "升级成功，但重启失败："@ + e + "，请手动点击重启"@,
    }
}

/// Whether the server runs the new version after a successful upgrade, and what is said.
pub fn restart_after_upgrade(outcome: &RestartOutcome) -> (report: (bool, String))
    ensures
        report.0 <==> outcome is Restarted,
        report.1@ == success_message(outcome@),
{
    match outcome {
        RestartOutcome::NotOwned => (
            false,
            "升级完成，已安装最新版（当前无本应用运行的服务，下次启动即生效）".to_owned(),
        ),
        RestartOutcome::Restarted => (true, "升级完成，服务已用新版本重启".to_owned()),
        RestartOutcome::Failed(e) => (
            false,
            "升级成功，但重启失败：".to_owned().concat(e.as_str()).concat("，请手动点击重启"),
        ),
    }
}

/// What is reported about an upgrade.
#[derive(Clone, Debug)]
pub struct UpgradeResult {
    pub ok: bool,
    pub version: String,
    pub restarted: bool,
    pub message: String,
}

/// What is said of an upgrade that failed.
pub open spec fn failure_message(source: LaunchSource) -> Seq<char> {
    match source {
        LaunchSource::Npx => "升级失败，请检查网络后重试"@,
        LaunchSource::Local =>
            "升级失败（git pull / pnpm install / pnpm run build），请查看 CLI 日志"@,
    }
}

/// The report on an upgrade that ended, with the version that its output names. `restart` is what
/// became of the server if the upgrade went well, and `None` if it did not.
pub fn upgrade_report(source: LaunchSource, lines: &[String], restart: &Option<RestartOutcome>) -> (
    report: UpgradeResult)
    ensures
        report.ok <==> restart is Some,
        report.version@ == version_or_unknown(texts(lines@)),
        report.restarted <==> opt_restart(*restart) == Some(RestartView::Restarted),
        report.message@ == (match opt_restart(*restart) {
            Some(outcome) => success_message(outcome),
            None => failure_message(source),
        }),
{
    let version: String = reported_version(lines);
    match restart {
        Some(outcome) => {
            let (restarted, message) = restart_after_upgrade(outcome);
            UpgradeResult { ok: true, version, restarted, message }
        },
        None => {
            let message: String = match source {
                LaunchSource::Npx => "升级失败，请检查网络后重试".to_owned(),
                LaunchSource::Local =>
                    "升级失败（git pull / pnpm install / pnpm run build），请查看 CLI 日志".to_owned(),
            };
            UpgradeResult { ok: false, version, restarted: false, message }
        },
    }
}

/// Where an upgrade stands after its commands ended with `results`, one after the other; a result
/// behind the end of the commands changes nothing.
pub open spec fn run(
    source: LaunchSource,
    state: UpgradeState,
    results: Seq<StepView>,
) -> UpgradeState
    decreases results.len(),
{
    if results.len() == 0 {
        state
    } else {
        run(
            source,
            next(source, state, EventView::StepEnded(results[0])).0,
            results.drop_first(),
        )
    }
}

proof fn lemma_run_ended(source: LaunchSource, state: UpgradeState, results: Seq<StepView>)
    requires
        !(state is Running),
    ensures
        run(source, state, results) == state,
    decreases results.len(),
{
    if results.len() > 0 {
        lemma_run_ended(source, state, results.drop_first());
    }
}

proof fn lemma_run(source: LaunchSource, index: usize, results: Seq<StepView>)
    requires
        index < step_count(source),
        index + results.len() == step_count(source),
    ensures
        run(source, UpgradeState::Running(index), results) == UpgradeState::Settling(true)
            <==> forall|i: int|
            0 <= i < results.len() ==> #[trigger] results[i] == StepView::Succeeded,
    decreases results.len(),
{
    let rest = results.drop_first();
    assert(forall|i: int| 0 <= i < rest.len() ==> rest[i] == results[i + 1]);
    if results[0] == StepView::Succeeded {
        if index + 1 < step_count(source) {
            lemma_run(source, (index + 1) as usize, rest);
            if forall|i: int| 0 <= i < rest.len() ==> #[trigger] rest[i] == StepView::Succeeded {
                assert forall|i: int| 0 <= i < results.len() implies #[trigger] results[i]
                    == StepView::Succeeded by {
                    if i > 0 {
                        assert(rest[i - 1] == results[i]);
                    }
                }
            } else {
                let k = choose|k: int|
                    0 <= k < rest.len() && #[trigger] rest[k] != StepView::Succeeded;
                assert(results[k + 1] != StepView::Succeeded);
            }
        } else {
            lemma_run_ended(source, UpgradeState::Settling(true), rest);
        }
    } else {
        lemma_run_ended(
            source,
            next(source, UpgradeState::Running(index), EventView::StepEnded(results[0])).0,
            rest,
        );
    }
}

/// An upgrade goes well exactly if all of its commands succeed.
pub proof fn law_upgrade_succeeds_iff_all_steps_do(source: LaunchSource, results: Seq<StepView>)
    requires
        results.len() == step_count(source),
    ensures
        run(source, UpgradeState::Running(0), results) == UpgradeState::Settling(true)
            <==> forall|i: int|
            0 <= i < results.len() ==> #[trigger] results[i] == StepView::Succeeded,
{
    lemma_run(source, 0, results);
}

/// A command runs only right behind another one that succeeded, and no command is left out.
pub proof fn law_steps_run_in_order(
    source: LaunchSource,
    state: UpgradeState,
    event: EventView,
    index: usize,
)
    requires
        valid_state(source, state),
        next(source, state, event).1 == ActionView::Run(index),
    ensures
        index > 0,
        state == UpgradeState::Running((index - 1) as usize),
        event == EventView::StepEnded(StepView::Succeeded),
        next(source, state, event).0 == UpgradeState::Running(index),
{
}

/// The server is started again only after an upgrade that went well, and only if this application
/// ran it.
pub proof fn law_restart_needs_success_and_ownership(
    source: LaunchSource,
    state: UpgradeState,
    event: EventView,
)
    ensures
        next(source, state, event).1 == ActionView::Restart <==> state == UpgradeState::Settling(
            true,
        ) && event == (EventView::Settled { owned: true }),
{
}

/// An upgrade ends once: it finishes exactly with a report or by being given up, and after that no
/// event has an effect.
pub proof fn law_upgrade_ends_once(source: LaunchSource, state: UpgradeState, event: EventView)
    ensures
        state != UpgradeState::Finished ==> (next(source, state, event).0 == UpgradeState::Finished
            <==> (next(source, state, event).1 is Report || next(
            source,
            state,
            event,
        ).1 is GiveUp)),
        next(source, UpgradeState::Finished, event) == (
            UpgradeState::Finished,
            ActionView::Ignore,
        ),
{
}

/// The commands of an upgrade are as many as it has steps; those of a repository are called as
/// their steps are, and run in it.
pub proof fn law_steps_are_the_commands(
    host: Host,
    settings: SettingsView,
    repo: RepoProbe,
    list: Seq<(Option<Seq<char>>, CommandView)>,
)
    requires
        upgrade_plan(host, settings, repo) == Ok::<
            Seq<(Option<Seq<char>>, CommandView)>,
            Seq<char>,
        >(list),
    ensures
        list.len() == step_count(settings.source),
        settings.source == LaunchSource::Local ==> forall|i: int|
            0 <= i < list.len() ==> (#[trigger] list[i]).0 == Some(step_label(i as nat)) && (
            repo_verdict(settings.local_path, repo) matches Ok(dir) && list[i].1.cwd == Some(dir)),
{
}

/// An upgrade is refused exactly for a local source whose repository is not valid, and in the words
/// in which a launch is refused.
pub proof fn law_upgrade_is_refused_as_a_launch_is(
    host: Host,
    settings: SettingsView,
    repo: RepoProbe,
)
    ensures
        upgrade_plan(host, settings, repo) is Ok <==> settings.source == LaunchSource::Npx
            || repo_verdict(settings.local_path, repo) is Ok,
        upgrade_plan(host, settings, repo) matches Err(reason) ==> forall|probe: LocalProbe|
            probe.repo == repo ==> #[trigger] web_command(host, settings, probe) == Err::<
                CommandView,
                Seq<char>,
            >(reason),
{
}

/// An upgrade has one command for the published package and three for a repository, and a state is
/// valid exactly if no command runs that it does not have.
pub proof fn law_number_of_steps(source: LaunchSource, index: usize, state: UpgradeState)
    ensures
        step_count(LaunchSource::Npx) == 1,
        step_count(LaunchSource::Local) == 3,
        valid_state(source, UpgradeState::Running(index)) <==> index < step_count(source),
        !(state is Running) ==> valid_state(source, state),
{
}

/// A command succeeded exactly if it was started and reported success; one that could not be started
/// keeps the reason, and every other end is a failure.
pub proof fn law_steps_end_in_three_ways(started: Result<(), String>, success: Option<bool>)
    ensures
        step_result(started, success) == StepView::Succeeded <==> started is Ok && success == Some(
            true,
        ),
        step_result(started, success) == StepView::Failed <==> started is Ok && success != Some(true),
        started matches Err(e) ==> step_result(started, success) == StepView::NotStarted(
            "无法启动命令"@ + "："@ + e@,
        ),
{
}

/// What follows the end of a command depends on how it ended alone: success leads to the next
/// command or, behind the last one, to a settling that goes well; failure to a settling that does
/// not; and a command that could not be started ends the upgrade with words that name it.
pub proof fn law_step_decides_what_follows(
    source: LaunchSource,
    index: usize,
    result: StepView,
)
    requires
        index < step_count(source),
    ensures
        result == StepView::Succeeded && index + 1 < step_count(source) ==> next(
            source,
            UpgradeState::Running(index),
            EventView::StepEnded(result),
        ) == (UpgradeState::Running((index + 1) as usize), ActionView::Run((index + 1) as usize)),
        result == StepView::Succeeded && index + 1 == step_count(source) ==> next(
            source,
            UpgradeState::Running(index),
            EventView::StepEnded(result),
        ) == (UpgradeState::Settling(true), ActionView::Settle),
        result == StepView::Failed ==> next(
            source,
            UpgradeState::Running(index),
            EventView::StepEnded(result),
        ) == (UpgradeState::Settling(false), ActionView::Settle),
        result matches StepView::NotStarted(reason) ==> next(
            source,
            UpgradeState::Running(index),
            EventView::StepEnded(result),
        ).0 == UpgradeState::Finished && next(
            source,
            UpgradeState::Running(index),
            EventView::StepEnded(result),
        ).1 == ActionView::GiveUp(
            (match source {
                LaunchSource::Npx => "无法启动升级命令（npx --yes @deepseek-ai/dsh@latest --version）："@,
                LaunchSource::Local => "无法启动 "@ + (if index == 0 {
                    "git pull"@
                } else if index == 1 {
                    "pnpm install"@
                } else {
                    "pnpm run build"@
                }) + "："@,
            }) + reason,
        ),
{
}

/// An upgrade that did not go well is reported as failed, whether or not this application runs a
/// server; a good end is reported only after a settling that went well. A server that runs is then
/// started again, and the report tells how that went.
pub proof fn law_end_is_reported_as_it_was(
    source: LaunchSource,
    owned: bool,
    reason: Option<Seq<char>>,
    state: UpgradeState,
    event: EventView,
)
    ensures
        next(source, UpgradeState::Settling(false), EventView::Settled { owned }) == (
            UpgradeState::Finished,
            ActionView::Report(None),
        ),
        next(source, UpgradeState::Settling(true), EventView::Settled { owned: true }) == (
            UpgradeState::Restarting,
            ActionView::Restart,
        ),
        next(source, UpgradeState::Settling(true), EventView::Settled { owned: false }) == (
            UpgradeState::Finished,
            ActionView::Report(Some(RestartView::NotOwned)),
        ),
        next(source, UpgradeState::Restarting, EventView::RestartEnded(None)) == (
            UpgradeState::Finished,
            ActionView::Report(Some(RestartView::Restarted)),
        ),
        reason matches Some(e) ==> next(
            source,
            UpgradeState::Restarting,
            EventView::RestartEnded(reason),
        ) == (UpgradeState::Finished, ActionView::Report(Some(RestartView::Failed(e)))),
        (next(source, state, event).1 matches ActionView::Report(outcome) && outcome is Some)
            ==> state == UpgradeState::Settling(true) || state == UpgradeState::Restarting,
        next(source, state, event).1 == ActionView::Report(None) ==> state
            == UpgradeState::Settling(false),
{
}

/// An event that does not belong to the state is ignored, and leaves the state as it is.
pub proof fn law_misplaced_events_are_ignored(
    source: LaunchSource,
    state: UpgradeState,
    event: EventView,
)
    ensures
        next(source, state, event).1 == ActionView::Ignore <==> !(state is Running
            && event is StepEnded || state is Settling && event is Settled || state is Restarting
            && event is RestartEnded),
        next(source, state, event).1 == ActionView::Ignore ==> next(source, state, event).0 == state,
{
}

/// The last action of an upgrade whose commands ended with `results`, where a server is `owned` or
/// not, and starting it again ends with `reason`.
pub open spec fn last_action(
    source: LaunchSource,
    results: Seq<StepView>,
    owned: bool,
    reason: Option<Seq<char>>,
) -> ActionView {
    let settled = next(
        source,
        run(source, UpgradeState::Running(0), results),
        EventView::Settled { owned },
    );
    if settled.1 == ActionView::Restart {
        next(source, settled.0, EventView::RestartEnded(reason)).1
    } else {
        settled.1
    }
}

proof fn lemma_run_settles(source: LaunchSource, index: usize, results: Seq<StepView>)
    requires
        index < step_count(source),
        index + results.len() == step_count(source),
        forall|i: int| 0 <= i < results.len() ==> !(#[trigger] results[i] is NotStarted),
    ensures
        run(source, UpgradeState::Running(index), results) is Settling,
    decreases results.len(),
{
    let rest = results.drop_first();
    assert(!(results[0] is NotStarted));
    assert forall|i: int| 0 <= i < rest.len() implies !(#[trigger] rest[i] is NotStarted) by {
        assert(rest[i] == results[i + 1]);
    }
    if results[0] == StepView::Succeeded && index + 1 < step_count(source) {
        lemma_run_settles(source, (index + 1) as usize, rest);
    } else {
        lemma_run_ended(
            source,
            next(source, UpgradeState::Running(index), EventView::StepEnded(results[0])).0,
            rest,
        );
    }
}

/// From its first command to its report, an upgrade whose commands could all be started is reported
/// as good exactly if every one of them succeeded. The report then says that the server runs the new
/// version exactly if this application ran one and starting it again went well, and otherwise
/// whether there was none or why it could not be started.
pub proof fn law_report_is_good_iff_every_step_succeeded(
    source: LaunchSource,
    results: Seq<StepView>,
    owned: bool,
    reason: Option<Seq<char>>,
)
    requires
        results.len() == (match source {
            LaunchSource::Npx => 1nat,
            LaunchSource::Local => 3nat,
        }),
        forall|i: int| 0 <= i < results.len() ==> !(#[trigger] results[i] is NotStarted),
    ensures
        (forall|i: int| 0 <= i < results.len() ==> #[trigger] results[i] == StepView::Succeeded)
            ==> last_action(source, results, owned, reason) == ActionView::Report(
            Some(
                if !owned {
                    RestartView::NotOwned
                } else {
                    match reason {
                        None => RestartView::Restarted,
                        Some(e) => RestartView::Failed(e),
                    }
                },
            ),
        ),
        (exists|i: int| 0 <= i < results.len() && #[trigger] results[i] == StepView::Failed)
            ==> last_action(source, results, owned, reason) == ActionView::Report(None),
{
    lemma_run(source, 0, results);
    lemma_run_settles(source, 0, results);
}

/// What is said of an upgrade tells how it went: of one that went well what became of the server,
/// with the reason where it could not be started again, and of one that failed what to look at.
pub proof fn law_upgrade_messages(outcome: RestartView, source: LaunchSource)
    ensures
        outcome == RestartView::NotOwned ==> success_message(outcome)
            == "升级完成，已安装最新版（当前无本应用运行的服务，下次启动即生效）"@,
        outcome == RestartView::Restarted ==> success_message(outcome)
            == "升级完成，服务已用新版本重启"@,
        outcome matches RestartView::Failed(e) ==> success_message(outcome)
            == "升级成功，但重启失败："@ + e + "，请手动点击重启"@,
        source == LaunchSource::Npx ==> failure_message(source) == "升级失败，请检查网络后重试"@,
        source == LaunchSource::Local ==> failure_message(source)
            == "升级失败（git pull / pnpm install / pnpm run build），请查看 CLI 日志"@,
{
}

/// The published package is upgraded by the one command that fetches the latest, whatever was found
/// of a repository; a valid repository by its own commands under their names.
pub proof fn law_upgrade_plan_of_each_source(
    host: Host,
    settings: SettingsView,
    repo: RepoProbe,
    i: int,
)
    ensures
        settings.source == LaunchSource::Npx ==> (upgrade_plan(host, settings, repo) matches Ok(list)
            && list.len() == 1 && list[0].0 is None && list[0].1 == fetch_latest_command(host)),
        settings.source == LaunchSource::Local ==> (repo_verdict(
            settings.local_path,
            repo,
        ) matches Ok(dir) ==> (upgrade_plan(host, settings, repo) matches Ok(list) && list.len()
            == local_upgrade(host, dir).len() && (0 <= i < list.len() ==> list[i].0 == Some(
            local_upgrade(host, dir)[i].0,
        ) && list[i].1 == local_upgrade(host, dir)[i].1))),
        settings.source == LaunchSource::Local ==> (repo_verdict(
            settings.local_path,
            repo,
        ) matches Err(e) ==> upgrade_plan(host, settings, repo) == Err::<
            Seq<(Option<Seq<char>>, CommandView)>,
            Seq<char>,
        >(e)),
{
}

/// The commands of an upgrade, and what became of the server, hold what they are made of.
pub proof fn law_upgrade_values_hold_their_parts(
    steps: Vec<(Option<String>, CommandSpec)>,
    reason: String,
    outcome: RestartOutcome,
)
    ensures
        entries(Ok(steps)) matches Ok(list) && list.len() == steps@.len() && forall|i: int|
            0 <= i < list.len() ==> #[trigger] list[i] == (opt_text(steps@[i].0), steps@[i].1@),
        entries(Err(reason)) == Err::<Seq<(Option<Seq<char>>, CommandView)>, Seq<char>>(reason@),
        opt_restart(Some(outcome)) == Some(outcome@),
        opt_restart(None) is None,
        outcome@ is Restarted <==> outcome is Restarted,
        outcome@ is NotOwned <==> outcome is NotOwned,
        outcome matches RestartOutcome::Failed(e) ==> outcome@ == RestartView::Failed(e@),
{
}

} // verus!
