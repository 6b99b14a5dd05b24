//! The child processes that the shell runs.
use vstd::prelude::*;

use crate::paths::{
    child_path, find_node, local_source_bin, merged_child_path, modules_place, node_missing,
    node_modules_bin, same_place, same_tool, source_place, usable_node, Host, JoinedPath, Located,
    Platform, Probed, ToolFile,
};
use crate::settings::{
    repo_verdict, validate_local_repo, AppSettings, LaunchSource, RepoProbe, SettingsView,
};
use crate::text::{literals, opt_text, owned_texts, texts};

verus! {

/// The arguments that make the Harness serve its web UI. `--no-open` keeps it from opening the
/// default browser.
pub const DSH_WEB_ARGS: [&'static str; 2] = ["web", "--no-open"];

/// The process creation flag of Windows that keeps a console window from appearing.
pub const CREATE_NO_WINDOW: u32 = 0x0800_0000;

/// A child process to run.
#[derive(Debug)]
pub struct CommandSpec {
    pub program: String,
    pub args: Vec<String>,
    /// The working directory, or `None` for that of this process.
    pub cwd: Option<String>,
    /// The `PATH`, or `None` for the inherited one.
    pub path: Option<String>,
    /// Other environment variables that are set, in order.
    pub env: Vec<(String, String)>,
    /// No console window appears (`CREATE_NO_WINDOW`).
    pub hidden_console: bool,
}

/// What a child process to run is made of.
#[verifier::ext_equal]
pub struct CommandView {
    pub program: Seq<char>,
    pub args: Seq<Seq<char>>,
    pub cwd: Option<Seq<char>>,
    pub path: Option<Seq<char>>,
    pub env: Seq<(Seq<char>, Seq<char>)>,
    pub hidden_console: bool,
}

impl View for CommandSpec {
    type V = CommandView;

    open spec fn view(&self) -> CommandView {
        CommandView {
            program: self.program@,
            args: texts(self.args@),
            cwd: opt_text(self.cwd),
            path: opt_text(self.path),
            env: self.env@.map_values(|pair: (String, String)| (pair.0@, pair.1@)),
            hidden_console: self.hidden_console,
        }
    }
}

/// What a command, or the reason why there is none, holds.
pub open spec fn command_result(result: Result<CommandSpec, String>) -> Result<
    CommandView,
    Seq<char>,
> {
    match result {
        Ok(c) => Ok(c@),
        Err(e) => Err(e@),
    }
}

/// A program without arguments, in the working directory and environment of this process.
pub open spec fn bare(program: Seq<char>) -> CommandView {
    CommandView {
        program,
        args: seq![],
        cwd: None,
        path: None,
        env: seq![],
        hidden_console: false,
    }
}

/// `command` with more arguments behind its own.
pub open spec fn with_args(command: CommandView, more: Seq<Seq<char>>) -> CommandView {
    CommandView { args: command.args + more, ..command }
}

/// `command` with the given working directory.
pub open spec fn in_dir(command: CommandView, dir: Seq<char>) -> CommandView {
    CommandView { cwd: Some(dir), ..command }
}

/// `command` with a variable set behind those that it sets already.
pub open spec fn with_env(
    command: CommandView,
    name: Seq<char>,
    value: Seq<char>,
) -> CommandView {
    CommandView { env: command.env.push((name, value)), ..command }
}

/// `command` with the directories of tools, and those of `extra` that exist, at the front of its
/// `PATH`. Where there is nothing to add it stays as it is.
pub open spec fn with_child_path(
    command: CommandView,
    host: Host,
    extra: Seq<Probed>,
) -> CommandView {
    match child_path(host, extra) {
        Some(path) => CommandView { path: Some(path), ..command },
        None => command,
    }
}

/// `command` without a console window.
pub open spec fn hidden(command: CommandView) -> CommandView {
    CommandView { hidden_console: true, ..command }
}

pub(crate) fn new_command(program: &str) -> (c: CommandSpec)
    ensures
        c@ == bare(program@),
{
    let c = CommandSpec {
        program: program.to_owned(),
        args: Vec::new(),
        cwd: None,
        path: None,
        env: Vec::new(),
        hidden_console: false,
    };
    assert(c@ =~= bare(program@));
    c
}

fn push_arg(c: &mut CommandSpec, arg: &str)
    ensures
        final(c)@ == with_args(old(c)@, seq![arg@]),
{
    let ghost before = c@;
    c.args.push(arg.to_owned());
    assert(c@.args == before.args + seq![arg@]);
    assert(c@ =~= with_args(before, seq![arg@]));
}

pub(crate) fn push_args(c: &mut CommandSpec, more: &[&str])
    ensures
        final(c)@ == with_args(old(c)@, literals(more@)),
{
    let ghost before = c@;
    let ghost all = literals(more@);
    let mut i: usize = 0;
    assert(c@ =~= with_args(before, all.take(0)));
    while i < more.len()
        invariant
            i <= more@.len(),
            all == literals(more@),
            c@ == with_args(before, all.take(i as int)),
        decreases more@.len() - i,
    {
        push_arg(c, more[i]);
        assert(all.take(i + 1) == all.take(i as int) + seq![all[i as int]]);
        assert(c@ =~= with_args(before, all.take(i + 1)));
        i += 1;
    }
    assert(all.take(i as int) == all);
}

fn set_dir(c: &mut CommandSpec, dir: &str)
    ensures
        final(c)@ == in_dir(old(c)@, dir@),
{
    c.cwd = Some(dir.to_owned());
}

fn set_env(c: &mut CommandSpec, name: &str, value: &str)
    ensures
        final(c)@ == with_env(old(c)@, name@, value@),
{
    let ghost before = c@;
    c.env.push((name.to_owned(), value.to_owned()));
    assert(c@.env == before.env.push((name@, value@)));
    assert(c@ =~= with_env(before, name@, value@));
}

/// Puts the directories of tools, and those of `extra` that exist, at the front of the `PATH` of a
/// child.
pub fn apply_child_path(c: &mut CommandSpec, host: &Host, extra: &Vec<Probed>)
    ensures
        final(c)@ == with_child_path(old(c)@, *host, extra@),
{
    match merged_child_path(host, extra) {
        Some(path) => {
            c.path = Some(path);
        },
        None => {},
    }
}

/// Keeps the console of a child from appearing.
pub fn hide_console(c: &mut CommandSpec)
    ensures
        final(c)@ == hidden(old(c)@),
{
    c.hidden_console = true;
}

/// The first of `probed` that was found.
pub open spec fn first_present(probed: Seq<Probed>) -> Option<Seq<char>>
    decreases probed.len(),
{
    if probed.len() == 0 {
        None
    } else if probed[0].present {
        Some(probed[0].path@)
    } else {
        first_present(probed.drop_first())
    }
}

fn pick_first_present(probed: &Vec<Probed>) -> (path: Option<String>)
    ensures
        opt_text(path) == first_present(probed@),
{
    let mut i: usize = 0;
    assert(probed@.skip(0) == probed@);
    while i < probed.len()
        invariant
            i <= probed@.len(),
            first_present(probed@) == first_present(probed@.skip(i as int)),
        decreases probed@.len() - i,
    {
        if probed[i].present {
            return Some(probed[i].path.clone());
        }
        assert(probed@.skip(i as int).drop_first() == probed@.skip(i + 1));
        i += 1;
    }
    None
}

/// The places where fnm may be installed, in order of preference.
pub fn fnm_candidates() -> (places: Vec<String>)
    ensures
        texts(places@) == seq![
            "/opt/homebrew/bin/fnm"@,
            "/opt/homebrew/opt/fnm/bin/fnm"@,
            "/usr/local/bin/fnm"@,
        ],
{
    owned_texts(&["/opt/homebrew/bin/fnm", "/opt/homebrew/opt/fnm/bin/fnm", "/usr/local/bin/fnm"])
}

/// How a tool of the Node.js world is launched.
pub open spec fn tool_command(host: Host, tool: Seq<char>) -> CommandView {
    match host.platform {
        Platform::Windows => hidden(
            with_child_path(with_args(bare("cmd"@), seq!["/C"@, tool]), host, seq![]),
        ),
        Platform::Unix => match first_present(host.fnm@) {
            Some(fnm) => with_args(
                bare(fnm),
                seq!["exec"@, "--using"@, "default"@, "--"@, tool],
            ),
            None => with_child_path(bare(tool), host, seq![]),
        },
    }
}

/// Launches a tool so that it also works from a graphical shell. On Windows it goes through
/// `cmd /C`, which resolves the batch shims of npx and pnpm; elsewhere through fnm where that is
/// installed. Otherwise it is found on a `PATH` with the directories of tools.
pub fn base_tool_cmd(host: &Host, tool: &str) -> (c: CommandSpec)
    ensures
        c@ == tool_command(*host, tool@),
{
    let none: Vec<Probed> = Vec::new();
    match host.platform {
        Platform::Windows => {
            let mut c = new_command("cmd");
            let list = ["/C", tool];
            push_args(&mut c, &list);
            assert(literals(list@) == seq!["/C"@, tool@]);
            apply_child_path(&mut c, host, &none);
            hide_console(&mut c);
            assert(none@ == Seq::<Probed>::empty());
            c
        },
        Platform::Unix => match pick_first_present(&host.fnm) {
            Some(fnm) => {
                let mut c = new_command(fnm.as_str());
                let list = ["exec", "--using", "default", "--", tool];
                push_args(&mut c, &list);
                assert(literals(list@) == seq!["exec"@, "--using"@, "default"@, "--"@, tool@]);
                c
            },
            None => {
                let mut c = new_command(tool);
                apply_child_path(&mut c, host, &none);
                assert(none@ == Seq::<Probed>::empty());
                c
            },
        },
    }
}

/// How git is launched.
pub open spec fn git_command(host: Host) -> CommandView {
    match host.platform {
        Platform::Windows => tool_command(host, "git"@),
        Platform::Unix => bare("git"@),
    }
}

/// How git is launched.
pub fn git_cmd(host: &Host) -> (c: CommandSpec)
    ensures
        c@ == git_command(*host),
{
    match host.platform {
        Platform::Windows => base_tool_cmd(host, "git"),
        Platform::Unix => new_command("git"),
    }
}

/// A Node.js, how the system writes its path, and the directory that it is in.
#[derive(Debug)]
pub struct NodeFile {
    pub tool: ToolFile,
    pub path: String,
    pub dir: Option<Probed>,
}

/// What was found of a local repository and of the tools to run it with. Each answer names what it
/// is about; an answer about something else than what is asked for is none.
#[derive(Debug)]
pub struct LocalProbe {
    pub repo: RepoProbe,
    /// Which of `node_candidates` hold a file.
    pub node_files: Vec<bool>,
    /// The one of them that `find_node` picks.
    pub node: Option<NodeFile>,
    /// The entry point of the sources, `local_source_bin`.
    pub bin: Located,
    /// The directory of the commands that the repository has installed for itself,
    /// `node_modules_bin`.
    pub modules_bin: Located,
}

/// `answer` says that `place` was found.
pub open spec fn found(answer: Located, place: (Seq<char>, Seq<Seq<char>>)) -> bool {
    answer.place@ == place && answer.present
}

/// The Node.js to run, if there is a usable one: the one that `find_node` picks.
pub open spec fn chosen_node(host: Host, probe: LocalProbe) -> Option<NodeFile> {
    match (usable_node(host, probe.node_files@), probe.node) {
        (Some(tool), Some(node)) if node.tool@ == tool => Some(node),
        _ => None,
    }
}

/// The directories that are put in front of the `PATH` of a local Harness, with whether each was
/// found.
pub open spec fn local_extras(node: NodeFile, dir: Seq<char>, probe: LocalProbe) -> Seq<Probed> {
    let modules = Probed {
        path: probe.modules_bin.path,
        present: found(probe.modules_bin, modules_place(dir)),
    };
    match node.dir {
        Some(parent) => seq![parent, modules],
        None => seq![modules],
    }
}

/// How the Harness in the repository `dir` is run with `args`.
pub open spec fn local_command(
    host: Host,
    dir: Seq<char>,
    probe: LocalProbe,
    args: Seq<Seq<char>>,
) -> Result<CommandView, Seq<char>> {
    match chosen_node(host, probe) {
        None => Err(node_missing()),
        Some(node) => if !found(probe.bin, source_place(dir)) {
            Err("找不到源码入口："@ + probe.bin.path@)
        } else {
            let plain = CommandView {
                args: seq!["--import"@, "tsx/esm"@, probe.bin.path@] + args,
                cwd: Some(dir),
                ..bare(node.path@)
            };
            let with_path = with_child_path(plain, host, local_extras(node, dir, probe));
            Ok(
                match host.platform {
                    Platform::Windows => hidden(with_path),
                    Platform::Unix => with_path,
                },
            )
        },
    }
}

fn is_found(answer: &Located, place: &JoinedPath) -> (yes: bool)
    ensures
        yes == found(*answer, place@),
{
    same_place(&answer.place, place) && answer.present
}

fn choose_node<'a>(host: &Host, probe: &'a LocalProbe) -> (node: Result<&'a NodeFile, String>)
    ensures
        match chosen_node(*host, *probe) {
            Some(n) => node matches Ok(file) && *file == n,
            None => node matches Err(e) && e@ == node_missing(),
        },
{
    match find_node(host, &probe.node_files) {
        Err(e) => Err(e),
        Ok(tool) => match &probe.node {
            Some(node) if same_tool(&node.tool, &tool) => Ok(node),
            _ => Err(
                "找不到 node。从资源管理器启动时 PATH 往往没有 Node.js，请安装 Node.js 22+".to_owned(),
            ),
        },
    }
}

fn copy_probed(probed: &Probed) -> (copy: Probed)
    ensures
        copy == *probed,
{
    Probed { path: probed.path.clone(), present: probed.present }
}

/// Runs the sources of the Harness in the repository `dir` directly with Node.js:
/// `node --import tsx/esm apps/cli/src/bin.ts`. This does not go through pnpm, so it works wherever
/// this program was launched from.
pub fn local_dsh_command(
    host: &Host,
    dir: &str,
    probe: &LocalProbe,
    extra_args: &[&str],
) -> (result: Result<CommandSpec, String>)
    ensures
        command_result(result) == local_command(*host, dir@, *probe, literals(extra_args@)),
{
    match choose_node(host, probe) {
        Err(e) => Err(e),
        Ok(node) => {
            if !is_found(&probe.bin, &local_source_bin(dir)) {
                return Err("找不到源码入口：".to_owned().concat(probe.bin.path.as_str()));
            }
            let mut extras: Vec<Probed> = Vec::new();
            match &node.dir {
                Some(parent) => {
                    extras.push(copy_probed(parent));
                },
                None => {},
            }
            extras.push(
                Probed {
                    path: probe.modules_bin.path.clone(),
                    present: is_found(&probe.modules_bin, &node_modules_bin(dir)),
                },
            );
            assert(extras@ == local_extras(*node, dir@, *probe));
            let mut c = new_command(node.path.as_str());
            let list = ["--import", "tsx/esm", probe.bin.path.as_str()];
            push_args(&mut c, &list);
            push_args(&mut c, extra_args);
            assert(c@.args == seq!["--import"@, "tsx/esm"@, probe.bin.path@] + literals(
                extra_args@,
            ));
            set_dir(&mut c, dir);
            apply_child_path(&mut c, host, &extras);
            match host.platform {
                Platform::Windows => {
                    hide_console(&mut c);
                },
                Platform::Unix => {},
            }
            Ok(c)
        },
    }
}

/// How the Harness in the repository of the settings is run with `args`.
pub open spec fn validated_local_command(
    host: Host,
    settings: SettingsView,
    probe: LocalProbe,
    args: Seq<Seq<char>>,
) -> Result<CommandView, Seq<char>> {
    match repo_verdict(settings.local_path, probe.repo) {
        Err(e) => Err(e),
        Ok(dir) => local_command(host, dir, probe, args),
    }
}

fn validated_local_dsh_command(
    host: &Host,
    settings: &AppSettings,
    probe: &LocalProbe,
    extra_args: &[&str],
) -> (result: Result<CommandSpec, String>)
    ensures
        command_result(result) == validated_local_command(
            *host,
            settings@,
            *probe,
            literals(extra_args@),
        ),
{
    match validate_local_repo(settings.local_path.as_str(), probe.repo) {
        Err(e) => Err(e),
        Ok(dir) => local_dsh_command(host, dir.as_str(), probe, extra_args),
    }
}

/// How the web server is launched.
pub open spec fn web_command(host: Host, settings: SettingsView, probe: LocalProbe) -> Result<
    CommandView,
    Seq<char>,
> {
    match settings.source {
        LaunchSource::Npx => Ok(
            with_args(
                tool_command(host, "npx"@),
                seq!["--yes"@, "@deepseek-ai/dsh"@, "web"@, "--no-open"@],
            ),
        ),
        LaunchSource::Local => validated_local_command(
            host,
            settings,
            probe,
            seq!["web"@, "--no-open"@],
        ),
    }
}

/// Launches the web server. What was found of a local repository matters only if the settings name
/// it as the source.
pub fn dsh_command(host: &Host, settings: &AppSettings, probe: &LocalProbe) -> (result: Result<
    CommandSpec,
    String,
>)
    ensures
        command_result(result) == web_command(*host, settings@, *probe),
{
    assert(literals(DSH_WEB_ARGS@) == seq!["web"@, "--no-open"@]);
    match settings.source {
        LaunchSource::Npx => {
            let mut c = base_tool_cmd(host, "npx");
            let ghost before = c@;
            let list = ["--yes", "@deepseek-ai/dsh"];
            push_args(&mut c, &list);
            push_args(&mut c, &DSH_WEB_ARGS);
            assert(c@.args == before.args + seq![
                "--yes"@,
                "@deepseek-ai/dsh"@,
                "web"@,
                "--no-open"@,
            ]);
            Ok(c)
        },
        LaunchSource::Local => validated_local_dsh_command(host, settings, probe, &DSH_WEB_ARGS),
    }
}

/// How the version of the Harness is asked for.
pub open spec fn ask_version_command(
    host: Host,
    settings: SettingsView,
    probe: LocalProbe,
) -> Result<CommandView, Seq<char>> {
    match settings.source {
        LaunchSource::Npx => Ok(
            with_env(
                with_args(
                    tool_command(host, "npx"@),
                    seq!["--yes"@, "@deepseek-ai/dsh"@, "--version"@],
                ),
                "npm_config_update_notifier"@,
                "false"@,
            ),
        ),
        LaunchSource::Local => validated_local_command(host, settings, probe, seq!["--version"@]),
    }
}

/// Asks the Harness for its version. There is no `--` in front of `--version`: npx hands everything
/// behind the package name to the program, which would receive it too.
pub fn version_command(host: &Host, settings: &AppSettings, probe: &LocalProbe) -> (result: Result<
    CommandSpec,
    String,
>)
    ensures
        command_result(result) == ask_version_command(*host, settings@, *probe),
{
    match settings.source {
        LaunchSource::Npx => {
            let mut c = base_tool_cmd(host, "npx");
            let list = ["--yes", "@deepseek-ai/dsh", "--version"];
            push_args(&mut c, &list);
            assert(literals(list@) == seq!["--yes"@, "@deepseek-ai/dsh"@, "--version"@]);
            set_env(&mut c, "npm_config_update_notifier", "false");
            Ok(c)
        },
        LaunchSource::Local => {
            let list = ["--version"];
            assert(literals(list@) == seq!["--version"@]);
            validated_local_dsh_command(host, settings, probe, &list)
        },
    }
}

/// How the newest published Harness is fetched.
pub open spec fn fetch_latest_command(host: Host) -> CommandView {
    with_env(
        with_args(
            tool_command(host, "npx"@),
            seq!["--yes"@, "@deepseek-ai/dsh@latest"@, "--version"@],
        ),
        "npm_config_update_notifier"@,
        "false"@,
    )
}

/// Fetches the newest published Harness: the tag `@latest` makes npx do so.
pub fn npx_upgrade_command(host: &Host) -> (c: CommandSpec)
    ensures
        c@ == fetch_latest_command(*host),
{
    let mut c = base_tool_cmd(host, "npx");
    let list = ["--yes", "@deepseek-ai/dsh@latest", "--version"];
    push_args(&mut c, &list);
    assert(literals(list@) == seq!["--yes"@, "@deepseek-ai/dsh@latest"@, "--version"@]);
    set_env(&mut c, "npm_config_update_notifier", "false");
    c
}

/// One command of an upgrade and what it is called.
#[derive(Debug)]
pub struct UpgradeStep {
    pub label: String,
    pub command: CommandSpec,
}

impl View for UpgradeStep {
    type V = (Seq<char>, CommandView);

    open spec fn view(&self) -> (Seq<char>, CommandView) {
        (self.label@, self.command@)
    }
}

/// The commands that bring the repository `dir` up to date, in order.
pub open spec fn local_upgrade(host: Host, dir: Seq<char>) -> Seq<(Seq<char>, CommandView)> {
    seq![
        ("git pull"@, in_dir(with_args(git_command(host), seq!["pull"@]), dir)),
        (
            "pnpm install"@,
            in_dir(with_args(tool_command(host, "pnpm"@), seq!["install"@]), dir),
        ),
        (
            "pnpm run build"@,
            in_dir(with_args(tool_command(host, "pnpm"@), seq!["run"@, "build"@]), dir),
        ),
    ]
}

/// The commands that bring the repository `dir` up to date, in order.
pub fn local_upgrade_steps(host: &Host, dir: &str) -> (steps: Vec<UpgradeStep>)
    ensures
        steps@.map_values(|step: UpgradeStep| step@) == local_upgrade(*host, dir@),
{
    let mut pull = git_cmd(host);
    push_arg(&mut pull, "pull");
    set_dir(&mut pull, dir);

    let mut install = base_tool_cmd(host, "pnpm");
    push_arg(&mut install, "install");
    set_dir(&mut install, dir);

    let mut build = base_tool_cmd(host, "pnpm");
    let list = ["run", "build"];
    push_args(&mut build, &list);
    assert(literals(list@) == seq!["run"@, "build"@]);
    set_dir(&mut build, dir);

    let mut steps: Vec<UpgradeStep> = Vec::new();
    steps.push(UpgradeStep { label: "git pull".to_owned(), command: pull });
    steps.push(UpgradeStep { label: "pnpm install".to_owned(), command: install });
    steps.push(UpgradeStep { label: "pnpm run build".to_owned(), command: build });
    assert(steps@.map_values(|step: UpgradeStep| step@) == local_upgrade(*host, dir@));
    steps
}

/// Whatever the source, the web server is launched with `web --no-open` as its last arguments, so
/// that no browser opens.
pub proof fn law_web_launch_opens_no_browser(
    host: Host,
    settings: SettingsView,
    probe: LocalProbe,
    command: CommandView,
)
    requires
        web_command(host, settings, probe) == Ok::<CommandView, Seq<char>>(command),
    ensures
        command.args.len() >= 2,
        command.args[command.args.len() - 2] == "web"@,
        command.args[command.args.len() - 1] == "--no-open"@,
{
}

/// Asking for the version hands `--version` to the Harness right behind its name or entry point.
pub proof fn law_version_is_asked_directly(
    host: Host,
    settings: SettingsView,
    probe: LocalProbe,
    command: CommandView,
)
    requires
        ask_version_command(host, settings, probe) == Ok::<CommandView, Seq<char>>(command),
    ensures
        command.args.len() >= 2,
        command.args[command.args.len() - 2] == match settings.source {
            LaunchSource::Npx => "@deepseek-ai/dsh"@,
            LaunchSource::Local => probe.bin.path@,
        },
        command.args[command.args.len() - 1] == "--version"@,
{
}

/// The published package is launched whatever was found of a local repository, and always can be.
pub proof fn law_npx_needs_no_repository(
    host: Host,
    settings: SettingsView,
    one: LocalProbe,
    other: LocalProbe,
)
    requires
        settings.source == LaunchSource::Npx,
    ensures
        web_command(host, settings, one) is Ok,
        web_command(host, settings, one) == web_command(host, settings, other),
        ask_version_command(host, settings, one) is Ok,
        ask_version_command(host, settings, one) == ask_version_command(host, settings, other),
{
}

/// A local Harness runs only if the repository is valid, and then in its directory: under the
/// Node.js that is first among the places where it is looked for, on the entry point
/// `apps/cli/src/bin.ts` of that repository.
pub proof fn law_local_launch_runs_the_sources(
    host: Host,
    settings: SettingsView,
    probe: LocalProbe,
    command: CommandView,
)
    requires
        settings.source == LaunchSource::Local,
        web_command(host, settings, probe) == Ok::<CommandView, Seq<char>>(command)
            || ask_version_command(host, settings, probe) == Ok::<CommandView, Seq<char>>(command),
    ensures
        probe.node matches Some(node) && usable_node(host, probe.node_files@) == Some(node.tool@)
            && command.program == node.path@,
        repo_verdict(settings.local_path, probe.repo) matches Ok(dir) && command.cwd == Some(dir)
            && probe.bin.place@ == (dir, seq!["apps"@, "cli"@, "src"@, "bin.ts"@]),
        probe.bin.present,
        command.args[0] == "--import"@,
        command.args[1] == "tsx/esm"@,
        command.args[2] == probe.bin.path@,
{
}

/// Launching and asking for the version succeed for the published package, and for a local
/// repository exactly if it is valid and Node.js and the entry point were found.
pub proof fn law_launch_succeeds_iff_all_is_found(
    host: Host,
    settings: SettingsView,
    probe: LocalProbe,
)
    ensures
        web_command(host, settings, probe) is Ok <==> settings.source == LaunchSource::Npx || (
        repo_verdict(settings.local_path, probe.repo) matches Ok(dir) && chosen_node(
            host,
            probe,
        ) is Some && found(probe.bin, source_place(dir))),
        ask_version_command(host, settings, probe) is Ok <==> web_command(
            host,
            settings,
            probe,
        ) is Ok,
{
}

/// Where the repository of the settings is not valid, launching and asking for the version are
/// both refused, and with the same words.
pub proof fn law_invalid_repository_is_refused(
    host: Host,
    settings: SettingsView,
    probe: LocalProbe,
    reason: Seq<char>,
)
    requires
        settings.source == LaunchSource::Local,
        repo_verdict(settings.local_path, probe.repo) == Err::<Seq<char>, Seq<char>>(reason),
    ensures
        web_command(host, settings, probe) == Err::<CommandView, Seq<char>>(reason),
        ask_version_command(host, settings, probe) == Err::<CommandView, Seq<char>>(reason),
{
}

/// On Windows npx, pnpm and git are launched as `cmd /C <tool> ...`, as if typed in a terminal.
pub proof fn law_windows_tools_go_through_cmd(host: Host, tool: Seq<char>)
    requires
        host.platform == Platform::Windows,
    ensures
        tool_command(host, tool).program == "cmd"@,
        tool_command(host, tool).args == seq!["/C"@, tool],
        git_command(host) == tool_command(host, "git"@),
{
}

/// On Windows no child shows a console window; elsewhere there is none to hide.
pub proof fn law_console_is_hidden_on_windows(
    host: Host,
    settings: SettingsView,
    probe: LocalProbe,
    dir: Seq<char>,
)
    ensures
        web_command(host, settings, probe) matches Ok(c) ==> c.hidden_console == (host.platform
            == Platform::Windows),
        ask_version_command(host, settings, probe) matches Ok(c) ==> c.hidden_console == (
        host.platform == Platform::Windows),
        fetch_latest_command(host).hidden_console == (host.platform == Platform::Windows),
        forall|i: int|
            0 <= i < local_upgrade(host, dir).len() ==> (#[trigger] local_upgrade(
                host,
                dir,
            )[i]).1.hidden_console == (host.platform == Platform::Windows),
{
}

/// Every step of a local upgrade runs in the directory of the repository.
pub proof fn law_upgrade_stays_in_the_repository(host: Host, dir: Seq<char>)
    ensures
        local_upgrade(host, dir).len() == 3,
        forall|i: int|
            0 <= i < local_upgrade(host, dir).len() ==> (#[trigger] local_upgrade(
                host,
                dir,
            )[i]).1.cwd == Some(dir),
{
}

/// Of several places the first one that was found is picked; where none was found there is none.
pub proof fn law_first_found_is_picked(probed: Seq<Probed>, k: int)
    requires
        0 <= k <= probed.len(),
        forall|q: int| 0 <= q < k ==> !(#[trigger] probed[q]).present,
        k < probed.len() ==> probed[k].present,
    ensures
        k < probed.len() ==> first_present(probed) == Some(probed[k].path@),
        k == probed.len() ==> first_present(probed) is None,
    decreases k,
{
    if k > 0 {
        let rest = probed.drop_first();
        assert(!probed[0].present);
        assert forall|q: int| 0 <= q < k - 1 implies !(#[trigger] rest[q]).present by {
            assert(rest[q] == probed[q + 1]);
        }
        law_first_found_is_picked(rest, k - 1);
    }
}

/// On Windows a tool runs through `cmd /C`, without a console, on a `PATH` with the directories of
/// tools. Elsewhere it runs through the fnm that was found first, on the inherited `PATH`; without
/// fnm it runs itself, on a `PATH` with the directories of tools. Nothing else is set.
pub proof fn law_tools_run_as_the_platform_asks(host: Host, tool: Seq<char>)
    ensures
        tool_command(host, tool).cwd is None,
        tool_command(host, tool).env == Seq::<(Seq<char>, Seq<char>)>::empty(),
        tool_command(host, tool).hidden_console <==> host.platform == Platform::Windows,
        host.platform == Platform::Windows ==> tool_command(host, tool).program == "cmd"@
            && tool_command(host, tool).args == seq!["/C"@, tool] && tool_command(host, tool).path
            == child_path(host, seq![]),
        host.platform == Platform::Unix ==> (first_present(host.fnm@) matches Some(fnm)
            ==> tool_command(host, tool).program == fnm && tool_command(host, tool).args == seq![
            "exec"@,
            "--using"@,
            "default"@,
            "--"@,
            tool,
        ] && tool_command(host, tool).path is None),
        host.platform == Platform::Unix && first_present(host.fnm@) is None ==> tool_command(
            host,
            tool,
        ).program == tool && tool_command(host, tool).args == Seq::<Seq<char>>::empty()
            && tool_command(host, tool).path == child_path(host, seq![]),
{
    let empty = Seq::<Seq<char>>::empty();
    assert(empty + seq!["/C"@, tool] == seq!["/C"@, tool]);
    let list = seq!["exec"@, "--using"@, "default"@, "--"@, tool];
    assert(empty + list == list);
}

/// git runs as the other tools do on Windows, and plainly elsewhere.
pub proof fn law_git_runs_plainly(host: Host)
    ensures
        host.platform == Platform::Windows ==> git_command(host) == tool_command(host, "git"@),
        host.platform == Platform::Unix ==> git_command(host).program == "git"@ && git_command(
            host,
        ).args == Seq::<Seq<char>>::empty() && git_command(host).path is None && git_command(
            host,
        ).cwd is None && git_command(host).env == Seq::<(Seq<char>, Seq<char>)>::empty()
            && !git_command(host).hidden_console,
{
}

/// On every platform the published package is what npx runs: the arguments of a launch are those of
/// the tool npx and then `--yes @deepseek-ai/dsh web --no-open`; those of a question for the version
/// end with `--version` instead, and those of an upgrade name the latest package. Program, `PATH`
/// and console are those of the tool; only a launch leaves the update notifier on.
pub proof fn law_npx_runs_the_published_package(
    host: Host,
    settings: SettingsView,
    probe: LocalProbe,
)
    requires
        settings.source == LaunchSource::Npx,
    ensures
        web_command(host, settings, probe) matches Ok(c) && c.args == tool_command(
            host,
            "npx"@,
        ).args + seq!["--yes"@, "@deepseek-ai/dsh"@, "web"@, "--no-open"@] && c.env == Seq::<
            (Seq<char>, Seq<char>),
        >::empty() && runs_like(c, tool_command(host, "npx"@)),
        ask_version_command(host, settings, probe) matches Ok(c) && c.args == tool_command(
            host,
            "npx"@,
        ).args + seq!["--yes"@, "@deepseek-ai/dsh"@, "--version"@] && c.env == seq![
            ("npm_config_update_notifier"@, "false"@),
        ] && runs_like(c, tool_command(host, "npx"@)),
        fetch_latest_command(host).args == tool_command(host, "npx"@).args + seq![
            "--yes"@,
            "@deepseek-ai/dsh@latest"@,
            "--version"@,
        ],
        fetch_latest_command(host).env == seq![("npm_config_update_notifier"@, "false"@)],
        runs_like(fetch_latest_command(host), tool_command(host, "npx"@)),
{
    let empty = Seq::<(Seq<char>, Seq<char>)>::empty();
    assert(empty.push(("npm_config_update_notifier"@, "false"@)) == seq![
        ("npm_config_update_notifier"@, "false"@),
    ]);
}

/// Two commands have the program, working directory, `PATH` and console in common.
pub open spec fn runs_like(a: CommandView, b: CommandView) -> bool {
    a.program == b.program && a.cwd == b.cwd && a.path == b.path && a.hidden_console
        == b.hidden_console
}

/// A local Harness is launched with `--import tsx/esm`, its entry point and `web --no-open`, and
/// asked for its version with `--version` in their place. Its `PATH` begins with the directory of
/// Node.js and then that of the commands of the repository, each if it was found; an answer about
/// another directory does not count. No variable is set, and the console is hidden on Windows.
pub proof fn law_local_command_in_full(
    host: Host,
    settings: SettingsView,
    probe: LocalProbe,
    node: NodeFile,
    dir: Seq<char>,
    asked: bool,
    command: CommandView,
)
    requires
        settings.source == LaunchSource::Local,
        repo_verdict(settings.local_path, probe.repo) == Ok::<Seq<char>, Seq<char>>(dir),
        probe.node == Some(node),
        (if asked {
            ask_version_command(host, settings, probe)
        } else {
            web_command(host, settings, probe)
        }) == Ok::<CommandView, Seq<char>>(command),
    ensures
        command.program == node.path@,
        command.cwd == Some(dir),
        command.args == (if asked {
            seq!["--import"@, "tsx/esm"@, probe.bin.path@, "--version"@]
        } else {
            seq!["--import"@, "tsx/esm"@, probe.bin.path@, "web"@, "--no-open"@]
        }),
        command.env == Seq::<(Seq<char>, Seq<char>)>::empty(),
        command.hidden_console <==> host.platform == Platform::Windows,
        forall|extra: Seq<Probed>| #[trigger]
            extra_dirs(extra, node, probe.modules_bin, dir) ==> command.path == child_path(
                host,
                extra,
            ),
{
    let head = seq!["--import"@, "tsx/esm"@, probe.bin.path@];
    assert(head + seq!["--version"@] == seq!["--import"@, "tsx/esm"@, probe.bin.path@, "--version"@]);
    assert(head + seq!["web"@, "--no-open"@] == seq![
        "--import"@,
        "tsx/esm"@,
        probe.bin.path@,
        "web"@,
        "--no-open"@,
    ]);
    assert forall|extra: Seq<Probed>| #[trigger]
        extra_dirs(extra, node, probe.modules_bin, dir) implies command.path == child_path(
        host,
        extra,
    ) by {
        assert(extra == local_extras(node, dir, probe));
    }
}

/// `extra` is the directory of Node.js, if it has one, and the directory `node_modules/.bin` of the
/// repository `dir`.
pub open spec fn extra_dirs(
    extra: Seq<Probed>,
    node: NodeFile,
    modules: Located,
    dir: Seq<char>,
) -> bool {
    let last = extra.len() - 1;
    &&& extra.len() == (if node.dir is Some {
        2
    } else {
        1nat
    })
    &&& node.dir matches Some(parent) ==> extra[0] == parent
    &&& extra[last].path == modules.path
    &&& extra[last].present == (modules.present && modules.place@ == (
        dir,
        seq!["node_modules"@, ".bin"@],
    ))
}

/// A local launch that is refused says why: what is wrong with the repository comes first, then a
/// Node.js that is missing, then an entry point that is missing.
pub proof fn law_local_refusals(
    host: Host,
    settings: SettingsView,
    probe: LocalProbe,
    dir: Seq<char>,
)
    requires
        settings.source == LaunchSource::Local,
        repo_verdict(settings.local_path, probe.repo) == Ok::<Seq<char>, Seq<char>>(dir),
    ensures
        !(probe.node matches Some(node) && usable_node(host, probe.node_files@) == Some(node.tool@))
            ==> web_command(host, settings, probe) == Err::<CommandView, Seq<char>>(
            "找不到 node。从资源管理器启动时 PATH 往往没有 Node.js，请安装 Node.js 22+"@,
        ),
        (probe.node matches Some(node) && usable_node(host, probe.node_files@) == Some(node.tool@))
            && !(probe.bin.present && probe.bin.place@ == (
            dir,
            seq!["apps"@, "cli"@, "src"@, "bin.ts"@],
        )) ==> web_command(host, settings, probe) == Err::<CommandView, Seq<char>>(
            "找不到源码入口："@ + probe.bin.path@,
        ),
        (probe.node matches Some(node) && usable_node(host, probe.node_files@) == Some(node.tool@))
            && probe.bin.present && probe.bin.place@ == (
            dir,
            seq!["apps"@, "cli"@, "src"@, "bin.ts"@],
        ) ==> web_command(host, settings, probe) is Ok,
        web_command(host, settings, probe) is Err ==> ask_version_command(host, settings, probe)
            == web_command(host, settings, probe),
        web_command(host, settings, probe) is Ok <==> ask_version_command(
            host,
            settings,
            probe,
        ) is Ok,
{
}

/// A repository is brought up to date by `git pull`, `pnpm install` and `pnpm run build`, in this
/// order and in its directory; otherwise each runs as its tool does.
pub proof fn law_local_upgrade_commands(host: Host, dir: Seq<char>)
    ensures
        local_upgrade(host, dir).len() == 3,
        local_upgrade(host, dir)[0].0 == "git pull"@,
        local_upgrade(host, dir)[0].1 == (CommandView {
            args: git_command(host).args + seq!["pull"@],
            cwd: Some(dir),
            ..git_command(host)
        }),
        local_upgrade(host, dir)[1].0 == "pnpm install"@,
        local_upgrade(host, dir)[1].1 == (CommandView {
            args: tool_command(host, "pnpm"@).args + seq!["install"@],
            cwd: Some(dir),
            ..tool_command(host, "pnpm"@)
        }),
        local_upgrade(host, dir)[2].0 == "pnpm run build"@,
        local_upgrade(host, dir)[2].1 == (CommandView {
            args: tool_command(host, "pnpm"@).args + seq!["run"@, "build"@],
            cwd: Some(dir),
            ..tool_command(host, "pnpm"@)
        }),
{
}

/// Setting the `PATH` of a child, and hiding its console, touch nothing else of it; where there is
/// no directory to add, the `PATH` stays too.
pub proof fn law_one_thing_is_changed_at_a_time(
    command: CommandView,
    host: Host,
    extra: Seq<Probed>,
)
    ensures
        with_child_path(command, host, extra) == (CommandView {
            path: if child_path(host, extra) is Some {
                child_path(host, extra)
            } else {
                command.path
            },
            ..command
        }),
        hidden(command) == (CommandView { hidden_console: true, ..command }),
{
}

/// Whatever the arguments, the sources in `dir` are run exactly if the Node.js that is picked and the
/// entry point of `dir` were found. The arguments stand behind the entry point unchanged; all else
/// is the same for all arguments.
pub proof fn law_arguments_are_passed_on(
    host: Host,
    dir: Seq<char>,
    probe: LocalProbe,
    node: NodeFile,
    args: Seq<Seq<char>>,
    other: Seq<Seq<char>>,
    extra: Seq<Probed>,
)
    requires
        probe.node == Some(node),
        extra_dirs(extra, node, probe.modules_bin, dir),
    ensures
        local_command(host, dir, probe, args) is Ok <==> usable_node(host, probe.node_files@) == Some(
            node.tool@,
        ) && probe.bin.present && probe.bin.place@ == (
            dir,
            seq!["apps"@, "cli"@, "src"@, "bin.ts"@],
        ),
        local_command(host, dir, probe, args) matches Err(e) ==> local_command(
            host,
            dir,
            probe,
            other,
        ) == Err::<CommandView, Seq<char>>(e),
        local_command(host, dir, probe, args) matches Ok(c) ==> c == (CommandView {
            program: node.path@,
            args: seq!["--import"@, "tsx/esm"@, probe.bin.path@] + args,
            cwd: Some(dir),
            path: child_path(host, extra),
            env: seq![],
            hidden_console: host.platform == Platform::Windows,
        }),
{
    assert(extra == local_extras(node, dir, probe));
}

/// A result of commands holds the command, or the reason, that it is made of.
pub proof fn law_command_results(command: CommandSpec, reason: String)
    ensures
        command_result(Ok(command)) == Ok::<CommandView, Seq<char>>(command@),
        command_result(Err(reason)) == Err::<CommandView, Seq<char>>(reason@),
        command@.program == command.program@,
        command@.args == texts(command.args@),
        command@.cwd == opt_text(command.cwd),
        command@.path == opt_text(command.path),
        command@.hidden_console == command.hidden_console,
        command@.env.len() == command.env@.len(),
        forall|i: int|
            0 <= i < command.env@.len() ==> #[trigger] command@.env[i] == (
                command.env@[i].0@,
                command.env@[i].1@,
            ),
{
}

} // verus!
