use dsh_desktop::command::{
    apply_child_path, base_tool_cmd, dsh_command, fnm_candidates, git_cmd, hide_console,
    local_dsh_command, local_upgrade_steps, npx_upgrade_command, version_command, CommandSpec,
    LocalProbe, NodeFile, CREATE_NO_WINDOW, DSH_WEB_ARGS,
};
use dsh_desktop::paths::{
    local_source_bin, node_candidates, node_modules_bin, Host, JoinedPath, Located, Platform, Probed,
    ToolFile,
};
use dsh_desktop::settings::{AppSettings, LaunchSource, RepoProbe};

fn host(platform: Platform) -> Host {
    Host {
        platform,
        tool_dirs: vec!["/tools".to_string()],
        path_var: Some("/usr/bin".to_string()),
        fnm: Vec::new(),
    }
}

fn there(path: &str) -> Probed {
    Probed { path: path.to_string(), present: true }
}

fn gone(path: &str) -> Probed {
    Probed { path: path.to_string(), present: false }
}

fn located(place: JoinedPath, path: &str) -> Located {
    Located { place, path: path.to_string(), present: true }
}

fn node_in(dir: &str, file: &str) -> NodeFile {
    NodeFile {
        tool: ToolFile { dir: dir.to_string(), file: file.to_string() },
        path: format!("{dir}/{file}"),
        dir: Some(there(dir)),
    }
}

/// A repository in `/repo`, run by the node in `/tools`.
fn local_probe() -> LocalProbe {
    LocalProbe {
        repo: RepoProbe { is_dir: true, has_package_json: true, has_cli_dir: true },
        node_files: vec![true],
        node: Some(node_in("/tools", "node")),
        bin: located(local_source_bin("/repo"), "/repo/apps/cli/src/bin.ts"),
        modules_bin: located(node_modules_bin("/repo"), "/repo/node_modules/.bin"),
    }
}

/// The same on Windows.
fn windows_probe() -> LocalProbe {
    LocalProbe { node: Some(node_in("/tools", "node.exe")), ..local_probe() }
}

fn probe_for(platform: Platform) -> LocalProbe {
    match platform {
        Platform::Windows => windows_probe(),
        Platform::Unix => local_probe(),
    }
}

fn settings(source: LaunchSource) -> AppSettings {
    AppSettings { source, local_path: " /repo ".to_string() }
}

fn args(c: &CommandSpec) -> Vec<&str> {
    c.args.iter().map(|a| a.as_str()).collect()
}

#[test]
fn web_launch_passes_no_open() {
    assert_eq!(DSH_WEB_ARGS[0], "web");
    assert!(
        DSH_WEB_ARGS.contains(&"--no-open"),
        "dsh web --no-open is the public switch that skips the default browser"
    );
}

#[test]
fn both_sources_are_launched_without_a_browser() {
    for source in [LaunchSource::Npx, LaunchSource::Local] {
        for platform in [Platform::Windows, Platform::Unix] {
            let c = dsh_command(&host(platform), &settings(source), &probe_for(platform)).unwrap();
            let all = args(&c);
            assert_eq!(all[all.len() - 2..], ["web", "--no-open"]);
            assert_eq!(c.hidden_console, platform == Platform::Windows);
        }
    }
}

#[test]
fn tools_on_windows_go_through_cmd() {
    let c = base_tool_cmd(&host(Platform::Windows), "pnpm");
    assert_eq!(c.program, "cmd");
    assert_eq!(args(&c), vec!["/C", "pnpm"]);
    assert_eq!(c.path, Some("/tools;/usr/bin".to_string()));
    assert!(c.hidden_console);
    assert!(c.cwd.is_none());
    assert_eq!(args(&git_cmd(&host(Platform::Windows))), vec!["/C", "git"]);
}

#[test]
fn tools_elsewhere_prefer_fnm() {
    let mut unix = host(Platform::Unix);
    let plain = base_tool_cmd(&unix, "npx");
    assert_eq!(plain.program, "npx");
    assert!(plain.args.is_empty());
    assert_eq!(plain.path, Some("/tools:/usr/bin".to_string()));
    assert!(!plain.hidden_console);
    unix.fnm = vec![gone("/opt/homebrew/bin/fnm"), there("/usr/local/bin/fnm")];
    let fnm = base_tool_cmd(&unix, "npx");
    assert_eq!(fnm.program, "/usr/local/bin/fnm");
    assert_eq!(args(&fnm), vec!["exec", "--using", "default", "--", "npx"]);
    assert_eq!(fnm.path, None);
    let git = git_cmd(&unix);
    assert_eq!(git.program, "git");
    assert!(git.args.is_empty());
    assert_eq!(git.path, None);
    assert_eq!(
        fnm_candidates(),
        vec![
            "/opt/homebrew/bin/fnm".to_string(),
            "/opt/homebrew/opt/fnm/bin/fnm".to_string(),
            "/usr/local/bin/fnm".to_string(),
        ]
    );
}

#[test]
fn the_published_package_is_launched_with_npx() {
    let mut probe = local_probe();
    probe.repo.is_dir = false;
    let c = dsh_command(&host(Platform::Unix), &settings(LaunchSource::Npx), &probe).unwrap();
    assert_eq!(c.program, "npx");
    assert_eq!(args(&c), vec!["--yes", "@deepseek-ai/dsh", "web", "--no-open"]);
    assert!(c.env.is_empty());
    let v = version_command(&host(Platform::Windows), &settings(LaunchSource::Npx), &probe).unwrap();
    assert_eq!(args(&v), vec!["/C", "npx", "--yes", "@deepseek-ai/dsh", "--version"]);
    assert_eq!(v.env, vec![("npm_config_update_notifier".to_string(), "false".to_string())]);
}

#[test]
fn a_local_harness_runs_its_sources() {
    let c = dsh_command(&host(Platform::Unix), &settings(LaunchSource::Local), &local_probe()).unwrap();
    assert_eq!(c.program, "/tools/node");
    assert_eq!(
        args(&c),
        vec!["--import", "tsx/esm", "/repo/apps/cli/src/bin.ts", "web", "--no-open"]
    );
    assert_eq!(c.cwd, Some("/repo".to_string()));
    assert_eq!(
        c.path,
        Some("/tools:/repo/node_modules/.bin:/usr/bin".to_string())
    );
    let v = version_command(&host(Platform::Unix), &settings(LaunchSource::Local), &local_probe()).unwrap();
    assert_eq!(
        args(&v),
        vec!["--import", "tsx/esm", "/repo/apps/cli/src/bin.ts", "--version"]
    );
    assert!(v.env.is_empty());
}

const NO_NODE: &str = "找不到 node。从资源管理器启动时 PATH 往往没有 Node.js，请安装 Node.js 22+";

#[test]
fn a_local_harness_that_cannot_run_says_why() {
    let unix = host(Platform::Unix);
    let local = settings(LaunchSource::Local);
    let mut no_repo = local_probe();
    no_repo.repo.has_cli_dir = false;
    no_repo.node = None;
    let reason = "不是有效的 DeepSeek Harness 仓库（缺少 package.json 或 apps/cli）：/repo".to_string();
    assert_eq!(dsh_command(&unix, &local, &no_repo).err(), Some(reason.clone()));
    assert_eq!(version_command(&unix, &local, &no_repo).err(), Some(reason));
    let mut no_node = local_probe();
    no_node.node_files = vec![false, false];
    no_node.bin.present = false;
    assert_eq!(dsh_command(&unix, &local, &no_node).err(), Some(NO_NODE.to_string()));
    let mut no_bin = local_probe();
    no_bin.bin.present = false;
    assert_eq!(
        dsh_command(&unix, &local, &no_bin).err(),
        Some("找不到源码入口：/repo/apps/cli/src/bin.ts".to_string())
    );
}

#[test]
fn a_local_harness_runs_the_node_that_is_found_first() {
    let unix = host(Platform::Unix);
    let places: Vec<String> = node_candidates(&unix).iter().map(|t| t.dir.clone()).collect();
    assert_eq!(places, vec!["/tools".to_string(), "/usr/bin".to_string()]);
    let mut probe = local_probe();
    probe.node_files = vec![false, true];
    let local = settings(LaunchSource::Local);
    assert_eq!(dsh_command(&unix, &local, &probe).err(), Some(NO_NODE.to_string()));
    probe.node = Some(node_in("/usr/bin", "node"));
    let c = dsh_command(&unix, &local, &probe).unwrap();
    assert_eq!(c.program, "/usr/bin/node");
    assert_eq!(
        c.path,
        Some("/usr/bin:/repo/node_modules/.bin:/tools:/usr/bin".to_string())
    );
    let mut batch = windows_probe();
    batch.node_files = vec![false, true];
    batch.node = Some(node_in("/tools", "node.cmd"));
    let refused = dsh_command(&host(Platform::Windows), &local, &batch);
    assert_eq!(refused.err(), Some(NO_NODE.to_string()));
}

#[test]
fn answers_about_another_repository_do_not_count() {
    let unix = host(Platform::Unix);
    let local = settings(LaunchSource::Local);
    let mut other_bin = local_probe();
    other_bin.bin = located(local_source_bin("/other"), "/other/apps/cli/src/bin.ts");
    assert_eq!(
        dsh_command(&unix, &local, &other_bin).err(),
        Some("找不到源码入口：/other/apps/cli/src/bin.ts".to_string())
    );
    let mut other_place = local_probe();
    other_place.bin.place = node_modules_bin("/repo");
    assert!(dsh_command(&unix, &local, &other_place).is_err());
    let mut other_modules = local_probe();
    other_modules.modules_bin = located(node_modules_bin("/other"), "/other/node_modules/.bin");
    let c = dsh_command(&unix, &local, &other_modules).unwrap();
    assert_eq!(c.path, Some("/tools:/usr/bin".to_string()));
}

#[test]
fn a_node_without_a_directory_adds_none() {
    let mut probe = windows_probe();
    probe.node = Some(NodeFile { dir: None, ..node_in("/tools", "node.exe") });
    probe.modules_bin.present = false;
    let c = local_dsh_command(&host(Platform::Windows), "/repo", &probe, &["x", "y"]).unwrap();
    assert_eq!(c.program, "/tools/node.exe");
    assert_eq!(c.path, Some("/tools;/usr/bin".to_string()));
    assert_eq!(args(&c)[3..], ["x", "y"]);
    assert!(c.hidden_console);
}

#[test]
fn upgrades_fetch_the_latest_package() {
    let c = npx_upgrade_command(&host(Platform::Unix));
    assert_eq!(c.program, "npx");
    assert_eq!(args(&c), vec!["--yes", "@deepseek-ai/dsh@latest", "--version"]);
    assert_eq!(c.env, vec![("npm_config_update_notifier".to_string(), "false".to_string())]);
}

#[test]
fn a_repository_is_upgraded_in_three_steps() {
    let steps = local_upgrade_steps(&host(Platform::Unix), "/repo");
    let labels: Vec<&str> = steps.iter().map(|s| s.label.as_str()).collect();
    assert_eq!(labels, vec!["git pull", "pnpm install", "pnpm run build"]);
    assert_eq!(steps[0].command.program, "git");
    assert_eq!(args(&steps[0].command), vec!["pull"]);
    assert_eq!(steps[1].command.program, "pnpm");
    assert_eq!(args(&steps[1].command), vec!["install"]);
    assert_eq!(args(&steps[2].command), vec!["run", "build"]);
    for step in &steps {
        assert_eq!(step.command.cwd, Some("/repo".to_string()));
    }
    let windows = local_upgrade_steps(&host(Platform::Windows), "/repo");
    assert_eq!(args(&windows[0].command), vec!["/C", "git", "pull"]);
    assert_eq!(args(&windows[2].command), vec!["/C", "pnpm", "run", "build"]);
}

#[test]
fn a_child_path_is_set_only_where_there_is_one() {
    let mut c = git_cmd(&host(Platform::Unix));
    let mut bare = host(Platform::Unix);
    bare.tool_dirs.clear();
    apply_child_path(&mut c, &bare, &Vec::new());
    assert_eq!(c.path, None);
    apply_child_path(&mut c, &bare, &vec![there("/x")]);
    assert_eq!(c.path, Some("/x:/usr/bin".to_string()));
    hide_console(&mut c);
    assert!(c.hidden_console);
    assert_eq!(CREATE_NO_WINDOW, 0x0800_0000);
}
