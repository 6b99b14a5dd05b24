//! How the Harness is launched, and which settings are accepted.
use vstd::prelude::*;

use crate::paths::Platform;
use crate::text::{blank, law_trim_takes_the_middle, trim, trim_text, white_space};

verus! {

/// The name of the settings file in the directory of the application's data.
pub const SETTINGS_FILE: &'static str = "settings.json";

/// Where the Harness is launched from: the published package, or a local repository.
#[derive(Clone, Copy, Debug, PartialEq, Eq, Structural)]
pub enum LaunchSource {
    Npx,
    Local,
}

/// The settings of the application.
#[derive(Clone, Debug)]
pub struct AppSettings {
    pub source: LaunchSource,
    pub local_path: String,
}

/// What the settings hold.
#[verifier::ext_equal]
pub struct SettingsView {
    pub source: LaunchSource,
    pub local_path: Seq<char>,
}

impl View for AppSettings {
    type V = SettingsView;

    open spec fn view(&self) -> SettingsView {
        SettingsView { source: self.source, local_path: self.local_path@ }
    }
}

/// What was found of a repository on disk.
#[derive(Clone, Copy, Debug)]
pub struct RepoProbe {
    /// The path is a directory.
    pub is_dir: bool,
    /// There is a file `package.json` in it.
    pub has_package_json: bool,
    /// There is a directory `apps/cli` in it.
    pub has_cli_dir: bool,
}

/// The path of the local repository that is proposed to begin with.
pub open spec fn initial_local_path(platform: Platform, home: Option<String>) -> Seq<char> {
    match platform {
        Platform::Windows => "H:\\github\\deepseek-harness"@,
        Platform::Unix => match home {
            Some(h) => h@ + "/github/deepseek-harness"@,
            None => "/github/deepseek-harness"@,
        },
    }
}

/// The path of the local repository that is proposed to begin with. `home` is the home directory,
/// if the environment names one.
pub fn default_local_path(platform: Platform, home: &Option<String>) -> (path: String)
    ensures
        path@ == initial_local_path(platform, *home),
{
    match platform {
        Platform::Windows => "H:\\github\\deepseek-harness".to_owned(),
        Platform::Unix => match home {
            Some(h) => h.clone().concat("/github/deepseek-harness"),
            None => "/github/deepseek-harness".to_owned(),
        },
    }
}

/// The settings that hold as long as none were saved.
pub open spec fn initial_settings(platform: Platform, home: Option<String>) -> SettingsView {
    SettingsView { source: LaunchSource::Local, local_path: initial_local_path(platform, home) }
}

/// The settings that hold as long as none were saved.
pub fn default_settings(platform: Platform, home: &Option<String>) -> (settings: AppSettings)
    ensures
        settings@ == initial_settings(platform, *home),
{
    AppSettings { source: LaunchSource::Local, local_path: default_local_path(platform, home) }
}

/// The saved settings, if they could be read, and the initial ones otherwise.
pub fn load_settings(
    saved: Option<AppSettings>,
    platform: Platform,
    home: &Option<String>,
) -> (settings: AppSettings)
    ensures
        settings@ == match saved {
            Some(s) => s@,
            None => initial_settings(platform, *home),
        },
{
    match saved {
        Some(s) => s,
        None => default_settings(platform, home),
    }
}

/// The directory that a path typed by the user stands for: the path without the white space around
/// it.
pub fn repo_dir(path: &str) -> (dir: String)
    ensures
        dir@ == trim(path@),
{
    trim_text(path)
}

/// The verdict on `path` as a Harness repository: the directory, or what to tell the user.
pub open spec fn repo_verdict(path: Seq<char>, probe: RepoProbe) -> Result<Seq<char>, Seq<char>> {
    let dir = trim(path);
    if dir.len() == 0 {
        Err("本地仓库路径不能为空"@)
    } else if !probe.is_dir {
        Err("本地仓库不存在："@ + dir)
    } else if !probe.has_package_json || !probe.has_cli_dir {
        Err("不是有效的 DeepSeek Harness 仓库（缺少 package.json 或 apps/cli）："@ + dir)
    } else {
        Ok(dir)
    }
}

/// What a result with texts on both sides holds.
pub open spec fn text_result(result: Result<String, String>) -> Result<Seq<char>, Seq<char>> {
    match result {
        Ok(s) => Ok(s@),
        Err(e) => Err(e@),
    }
}

/// Accepts `path` as a Harness repository, given what was found at `repo_dir(path)`.
pub fn validate_local_repo(path: &str, probe: RepoProbe) -> (verdict: Result<String, String>)
    ensures
        text_result(verdict) == repo_verdict(path@, probe),
{
    let dir: String = trim_text(path);
    if dir.as_str().is_empty() {
        return Err("本地仓库路径不能为空".to_owned());
    }
    if !probe.is_dir {
        return Err("本地仓库不存在：".to_owned().concat(dir.as_str()));
    }
    if !probe.has_package_json || !probe.has_cli_dir {
        return Err(
            "不是有效的 DeepSeek Harness 仓库（缺少 package.json 或 apps/cli）：".to_owned().concat(
                dir.as_str(),
            ),
        );
    }
    Ok(dir)
}

/// Accepts settings that are to be saved. A local source needs a valid repository; what was found
/// of it does not matter otherwise.
pub fn set_settings(settings: AppSettings, probe: RepoProbe) -> (verdict: Result<
    AppSettings,
    String,
>)
    ensures
        match (settings.source, repo_verdict(settings.local_path@, probe)) {
            (LaunchSource::Local, Err(e)) => verdict matches Err(text) && text@ == e,
            _ => verdict == Ok::<AppSettings, String>(settings),
        },
{
    match settings.source {
        LaunchSource::Local => match validate_local_repo(settings.local_path.as_str(), probe) {
            Ok(_) => Ok(settings),
            Err(e) => Err(e),
        },
        LaunchSource::Npx => Ok(settings),
    }
}

/// A path is accepted exactly if something is left of it without the white space around it, and that
/// is a directory with a file `package.json` and a directory `apps/cli`. It is then accepted as what
/// is left, and otherwise refused for the first of these that fails.
pub proof fn law_repository_is_accepted_iff_complete(path: Seq<char>, probe: RepoProbe)
    ensures
        repo_verdict(path, probe) is Ok <==> trim(path).len() > 0 && probe.is_dir
            && probe.has_package_json && probe.has_cli_dir,
        repo_verdict(path, probe) matches Ok(dir) ==> dir == trim(path),
        repo_verdict(path, probe) == Err::<Seq<char>, Seq<char>>("本地仓库路径不能为空"@) <== trim(
            path,
        ).len() == 0,
        trim(path).len() > 0 && !probe.is_dir ==> repo_verdict(path, probe) == Err::<
            Seq<char>,
            Seq<char>,
        >("本地仓库不存在："@ + trim(path)),
        trim(path).len() > 0 && probe.is_dir && !(probe.has_package_json && probe.has_cli_dir)
            ==> repo_verdict(path, probe) == Err::<Seq<char>, Seq<char>>(
            "不是有效的 DeepSeek Harness 仓库（缺少 package.json 或 apps/cli）："@ + trim(path),
        ),
{
}

/// White space around a path does not matter for the verdict on it.
pub proof fn law_verdict_ignores_white_space_around(
    before: Seq<char>,
    path: Seq<char>,
    after: Seq<char>,
    probe: RepoProbe,
)
    requires
        blank(before),
        blank(after),
        path.len() > 0,
        !white_space(path[0]),
        !white_space(path[path.len() - 1]),
    ensures
        repo_verdict(before + path + after, probe) == repo_verdict(path, probe),
{
    law_trim_takes_the_middle(before, path, after);
    let empty = Seq::<char>::empty();
    law_trim_takes_the_middle(empty, path, empty);
    assert(empty + path + empty == path);
}

/// To begin with, a local repository is the source: on Windows at a fixed path, whatever the home
/// directory is, and elsewhere in the home directory.
pub proof fn law_initial_settings(platform: Platform, home: Option<String>, other: Option<String>)
    ensures
        initial_settings(platform, home).source == LaunchSource::Local,
        initial_settings(platform, home).local_path == initial_local_path(platform, home),
        platform == Platform::Windows ==> initial_local_path(platform, home)
            == "H:\\github\\deepseek-harness"@ && initial_local_path(platform, other)
            == initial_local_path(platform, home),
        platform == Platform::Unix ==> initial_local_path(platform, home) == (match home {
            Some(h) => h@,
            None => ""@,
        }) + "/github/deepseek-harness"@,
{
    reveal_strlit("");
    assert(""@ + "/github/deepseek-harness"@ == "/github/deepseek-harness"@);
}

/// A verdict holds the text that it is made of, on the side on which it stands.
pub proof fn law_verdicts_hold_their_text(text: String)
    ensures
        text_result(Ok(text)) == Ok::<Seq<char>, Seq<char>>(text@),
        text_result(Err(text)) == Err::<Seq<char>, Seq<char>>(text@),
{
}

} // verus!
