use dsh_desktop::paths::Platform;
use dsh_desktop::settings::{
    default_local_path, default_settings, load_settings, repo_dir, set_settings,
    validate_local_repo, AppSettings, LaunchSource, RepoProbe, SETTINGS_FILE,
};

fn probe(is_dir: bool, has_package_json: bool, has_cli_dir: bool) -> RepoProbe {
    RepoProbe { is_dir, has_package_json, has_cli_dir }
}

fn look(path: &str) -> RepoProbe {
    let dir = std::path::PathBuf::from(repo_dir(path));
    probe(
        dir.is_dir(),
        dir.join("package.json").is_file(),
        dir.join("apps").join("cli").is_dir(),
    )
}

#[test]
fn validate_local_repo_rejects_empty_and_missing() {
    assert!(validate_local_repo("", look("")).is_err());
    assert!(validate_local_repo("   ", look("   ")).is_err());
    assert!(validate_local_repo(
        "Z:\\definitely-not-a-dsh-repo",
        look("Z:\\definitely-not-a-dsh-repo")
    )
    .is_err());
}

#[test]
fn each_fault_of_a_repository_has_its_words() {
    assert_eq!(
        validate_local_repo(" \t\u{3000}", probe(true, true, true)),
        Err("本地仓库路径不能为空".to_string())
    );
    assert_eq!(
        validate_local_repo(" /a b ", probe(false, true, true)),
        Err("本地仓库不存在：/a b".to_string())
    );
    let invalid = "不是有效的 DeepSeek Harness 仓库（缺少 package.json 或 apps/cli）：/a".to_string();
    assert_eq!(validate_local_repo("/a", probe(true, false, true)), Err(invalid.clone()));
    assert_eq!(validate_local_repo("/a\n", probe(true, true, false)), Err(invalid));
}

#[test]
fn a_valid_repository_gives_its_directory() {
    assert_eq!(
        validate_local_repo("  /home/me/deepseek-harness \n", probe(true, true, true)),
        Ok("/home/me/deepseek-harness".to_string())
    );
    assert_eq!(repo_dir("\u{a0}/x y\u{2003}"), "/x y");
}

#[test]
fn settings_are_checked_for_a_local_source_only() {
    let local = AppSettings { source: LaunchSource::Local, local_path: "/a".to_string() };
    let npx = AppSettings { source: LaunchSource::Npx, local_path: "".to_string() };
    assert_eq!(
        set_settings(local.clone(), probe(false, false, false)).err(),
        Some("本地仓库不存在：/a".to_string())
    );
    let kept = set_settings(local, probe(true, true, true)).unwrap();
    assert_eq!(kept.source, LaunchSource::Local);
    assert_eq!(kept.local_path, "/a");
    let kept = set_settings(npx, probe(false, false, false)).unwrap();
    assert_eq!(kept.source, LaunchSource::Npx);
    assert_eq!(kept.local_path, "");
}

#[test]
fn unsaved_settings_are_the_initial_ones() {
    let home = Some("/home/me".to_string());
    assert_eq!(
        default_local_path(Platform::Windows, &home),
        r"H:\github\deepseek-harness"
    );
    assert_eq!(default_local_path(Platform::Unix, &home), "/home/me/github/deepseek-harness");
    assert_eq!(default_local_path(Platform::Unix, &None), "/github/deepseek-harness");
    let initial = default_settings(Platform::Unix, &home);
    assert_eq!(initial.source, LaunchSource::Local);
    assert_eq!(initial.local_path, "/home/me/github/deepseek-harness");
    let loaded = load_settings(None, Platform::Unix, &home);
    assert_eq!(loaded.source, initial.source);
    assert_eq!(loaded.local_path, initial.local_path);
    let saved = AppSettings { source: LaunchSource::Npx, local_path: "x".to_string() };
    let loaded = load_settings(Some(saved), Platform::Unix, &home);
    assert_eq!(loaded.source, LaunchSource::Npx);
    assert_eq!(loaded.local_path, "x");
    assert_eq!(SETTINGS_FILE, "settings.json");
}
