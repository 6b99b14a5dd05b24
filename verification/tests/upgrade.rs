use dsh_desktop::command::{dsh_command, LocalProbe};
use dsh_desktop::paths::{local_source_bin, node_modules_bin, Host, Located, Platform};
use dsh_desktop::settings::{AppSettings, LaunchSource, RepoProbe};
use dsh_desktop::upgrade::StepResult::{Failed, NotStarted, Succeeded};
use dsh_desktop::upgrade::{
    restart_after_upgrade, run_logged_command, step_announcement, upgrade_begin,
    upgrade_commands, upgrade_dsh_inner, upgrade_report, RestartOutcome, StepResult, UpgradeAction, UpgradeEvent,
    UpgradeState, SETTLE_PAUSE_MS,
};

fn run(source: LaunchSource, results: Vec<StepResult>) -> (UpgradeState, UpgradeAction) {
    let mut step = (upgrade_begin(source), UpgradeAction::Run(0));
    for result in results {
        step = upgrade_dsh_inner(source, step.0, UpgradeEvent::StepEnded(result));
    }
    step
}

fn reason(source: LaunchSource, results: Vec<StepResult>) -> String {
    match run(source, results) {
        (UpgradeState::Finished, UpgradeAction::GiveUp(text)) => text,
        other => panic!("{:?}", other),
    }
}

#[test]
fn an_upgrade_succeeds_when_every_step_does() {
    let good = UpgradeState::Settling(true);
    assert_eq!(run(LaunchSource::Npx, vec![Succeeded]).0, good);
    assert_eq!(run(LaunchSource::Npx, vec![Failed]).0, UpgradeState::Settling(false));
    let two = run(LaunchSource::Local, vec![Succeeded, Succeeded]);
    assert_eq!(two.0, UpgradeState::Running(2));
    assert!(matches!(two.1, UpgradeAction::Run(2)));
    let three = run(LaunchSource::Local, vec![Succeeded, Succeeded, Succeeded]);
    assert_eq!(three.0, good);
    assert!(matches!(three.1, UpgradeAction::Settle));
}

#[test]
fn an_upgrade_stops_at_the_first_failure() {
    let failed = run(LaunchSource::Local, vec![Succeeded, Failed]);
    assert_eq!(failed.0, UpgradeState::Settling(false));
    assert!(matches!(failed.1, UpgradeAction::Settle));
    let late = run(LaunchSource::Local, vec![Succeeded, Failed, Succeeded]);
    assert_eq!(late.0, UpgradeState::Settling(false));
    assert!(matches!(late.1, UpgradeAction::Ignore));
}

#[test]
fn a_step_that_cannot_start_ends_the_upgrade() {
    let x = || NotStarted("x".to_string());
    assert_eq!(reason(LaunchSource::Local, vec![x()]), "无法启动 git pull：x");
    assert_eq!(reason(LaunchSource::Local, vec![Succeeded, x()]), "无法启动 pnpm install：x");
    assert_eq!(
        reason(LaunchSource::Local, vec![Succeeded, Succeeded, x()]),
        "无法启动 pnpm run build：x"
    );
    assert_eq!(
        reason(LaunchSource::Npx, vec![x()]),
        "无法启动升级命令（npx --yes @deepseek-ai/dsh@latest --version）：x"
    );
}

#[test]
fn the_server_is_restarted_after_success_only() {
    let source = LaunchSource::Npx;
    let settled = |state, owned| upgrade_dsh_inner(source, state, UpgradeEvent::Settled { owned });
    let restart = settled(UpgradeState::Settling(true), true);
    assert_eq!(restart.0, UpgradeState::Restarting);
    assert!(matches!(restart.1, UpgradeAction::Restart));
    let idle = settled(UpgradeState::Settling(true), false);
    assert_eq!(idle.0, UpgradeState::Finished);
    assert!(matches!(idle.1, UpgradeAction::Report(Some(RestartOutcome::NotOwned))));
    let failed = settled(UpgradeState::Settling(false), true);
    assert_eq!(failed.0, UpgradeState::Finished);
    assert!(matches!(failed.1, UpgradeAction::Report(None)));
    let ended = |e| upgrade_dsh_inner(source, UpgradeState::Restarting, UpgradeEvent::RestartEnded(e));
    assert!(matches!(ended(None).1, UpgradeAction::Report(Some(RestartOutcome::Restarted))));
    assert!(matches!(
        ended(Some("x".to_string())).1,
        UpgradeAction::Report(Some(RestartOutcome::Failed(e))) if e == "x"
    ));
    let over = settled(UpgradeState::Finished, true);
    assert_eq!(over.0, UpgradeState::Finished);
    assert!(matches!(over.1, UpgradeAction::Ignore));
}

#[test]
fn commands_end_in_three_ways() {
    assert!(matches!(run_logged_command(Ok(()), Some(true)), Succeeded));
    assert!(matches!(run_logged_command(Ok(()), Some(false)), Failed));
    assert!(matches!(run_logged_command(Ok(()), None), Failed));
    assert!(matches!(
        run_logged_command(Err("x".to_string()), None),
        NotStarted(e) if e == "无法启动命令：x"
    ));
}

#[test]
fn steps_are_announced_in_the_log() {
    assert_eq!(step_announcement("git pull"), "$ git pull");
    assert_eq!(SETTLE_PAUSE_MS, 150);
}

#[test]
fn a_restart_is_reported() {
    assert_eq!(
        restart_after_upgrade(&RestartOutcome::Restarted),
        (true, "升级完成，服务已用新版本重启".to_string())
    );
    assert_eq!(
        restart_after_upgrade(&RestartOutcome::Failed("x".to_string())),
        (false, "升级成功，但重启失败：x，请手动点击重启".to_string())
    );
    assert_eq!(
        restart_after_upgrade(&RestartOutcome::NotOwned),
        (
            false,
            "升级完成，已安装最新版（当前无本应用运行的服务，下次启动即生效）".to_string()
        )
    );
}

#[test]
fn an_upgrade_is_reported() {
    let lines = vec!["$ git pull".to_string(), "dsh 1.2.3".to_string()];
    let good = upgrade_report(LaunchSource::Local, &lines, &Some(RestartOutcome::Restarted));
    assert!(good.ok && good.restarted);
    assert_eq!(good.version, "1.2.3");
    assert_eq!(good.message, "升级完成，服务已用新版本重启");
    let idle = upgrade_report(LaunchSource::Npx, &[], &Some(RestartOutcome::NotOwned));
    assert!(idle.ok && !idle.restarted);
    assert_eq!(idle.version, "unknown");
    let npx = upgrade_report(LaunchSource::Npx, &[], &None);
    assert!(!npx.ok && !npx.restarted);
    assert_eq!(npx.message, "升级失败，请检查网络后重试");
    let local = upgrade_report(LaunchSource::Local, &[], &None);
    assert_eq!(
        local.message,
        "升级失败（git pull / pnpm install / pnpm run build），请查看 CLI 日志"
    );
}

const VALID: RepoProbe = RepoProbe { is_dir: true, has_package_json: true, has_cli_dir: true };
const MISSING: RepoProbe = RepoProbe { is_dir: false, has_package_json: false, has_cli_dir: false };

fn unix() -> Host {
    Host { platform: Platform::Unix, tool_dirs: Vec::new(), path_var: None, fnm: Vec::new() }
}

fn settings(source: LaunchSource) -> AppSettings {
    AppSettings { source, local_path: " /repo ".to_string() }
}

#[test]
fn the_published_package_is_upgraded_by_one_command() {
    let steps = upgrade_commands(&unix(), &settings(LaunchSource::Npx), MISSING).unwrap();
    assert_eq!(steps.len(), 1);
    assert_eq!(steps[0].0, None);
    assert_eq!(steps[0].1.program, "npx");
    assert_eq!(steps[0].1.args.join(" "), "--yes @deepseek-ai/dsh@latest --version");
    assert_eq!(steps[0].1.cwd, None);
}

#[test]
fn a_repository_is_upgraded_by_its_own_commands() {
    let steps = upgrade_commands(&unix(), &settings(LaunchSource::Local), VALID).unwrap();
    let lines: Vec<String> = steps
        .iter()
        .map(|(_, c)| format!("{} {}", c.program, c.args.join(" ")))
        .collect();
    assert_eq!(lines, vec!["git pull", "pnpm install", "pnpm run build"]);
    for (i, (label, command)) in steps.iter().enumerate() {
        assert_eq!(label.as_ref(), Some(&lines[i]));
        assert_eq!(command.cwd, Some("/repo".to_string()));
    }
}

#[test]
fn an_invalid_repository_is_not_upgraded() {
    let local = settings(LaunchSource::Local);
    let refused = upgrade_commands(&unix(), &local, MISSING).err();
    assert_eq!(refused, Some("本地仓库不存在：/repo".to_string()));
    let nowhere = |place| Located { place, path: String::new(), present: false };
    let probe = LocalProbe {
        repo: MISSING,
        node_files: Vec::new(),
        node: None,
        bin: nowhere(local_source_bin("/repo")),
        modules_bin: nowhere(node_modules_bin("/repo")),
    };
    assert_eq!(dsh_command(&unix(), &local, &probe).err(), refused);
    let blank = AppSettings { source: LaunchSource::Local, local_path: "  ".to_string() };
    assert_eq!(
        upgrade_commands(&unix(), &blank, VALID).err(),
        Some("本地仓库路径不能为空".to_string())
    );
}
