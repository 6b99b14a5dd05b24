use std::path::PathBuf;

use dsh_desktop::paths::{
    extra_tool_candidates, extra_tool_dirs, find_in_dirs, find_node, local_source_bin,
    merged_child_path, node_candidates, node_modules_bin, path_sep, repo_cli_dir,
    repo_package_file, tool_candidates, Host, JoinedPath, Platform, Probed, ToolEnv,
};

fn texts(list: &[&str]) -> Vec<String> {
    list.iter().map(|s| s.to_string()).collect()
}

fn probed(list: &[(&str, bool)]) -> Vec<Probed> {
    list.iter().map(|(path, present)| Probed { path: path.to_string(), present: *present }).collect()
}

fn host(platform: Platform, tool_dirs: &[&str], path_var: Option<&str>) -> Host {
    Host {
        platform,
        tool_dirs: texts(tool_dirs),
        path_var: path_var.map(|p| p.to_string()),
        fnm: Vec::new(),
    }
}

fn assemble(path: &JoinedPath) -> PathBuf {
    let mut out = PathBuf::from(&path.base);
    for part in &path.parts {
        out = out.join(part);
    }
    out
}

#[test]
fn local_source_bin_is_cwd_independent() {
    let dir = PathBuf::from(r"H:\github\deepseek-harness");
    assert_eq!(
        assemble(&local_source_bin(r"H:\github\deepseek-harness")),
        dir.join("apps").join("cli").join("src").join("bin.ts")
    );
}

#[test]
fn places_in_a_repository() {
    let dir = PathBuf::from("/repo");
    assert_eq!(assemble(&node_modules_bin("/repo")), dir.join("node_modules").join(".bin"));
    assert_eq!(assemble(&repo_package_file("/repo")), dir.join("package.json"));
    assert_eq!(assemble(&repo_cli_dir("/repo")), dir.join("apps").join("cli"));
}

#[test]
fn path_separators() {
    assert_eq!(path_sep(Platform::Windows), ';');
    assert_eq!(path_sep(Platform::Unix), ':');
}

#[test]
fn windows_tool_directories_come_from_the_environment() {
    let full = ToolEnv {
        program_files: Some(r"C:\PF".to_string()),
        program_files_x86: Some(r"C:\PF86".to_string()),
        local_app_data: Some(r"C:\L".to_string()),
        app_data: Some(r"C:\A".to_string()),
    };
    assert_eq!(
        extra_tool_candidates(Platform::Windows, &full),
        texts(&[
            r"C:\PF\nodejs",
            r"C:\PF86\nodejs",
            r"C:\L\Programs\nodejs",
            r"C:\A\npm",
            r"C:\A\nvm",
            r"C:\L\pnpm",
            r"C:\L\Volta\bin",
            r"C:\L\fnm",
            r"C:\Program Files\Git\cmd",
            r"C:\Program Files (x86)\Git\cmd",
        ])
    );
    let empty = ToolEnv {
        program_files: None,
        program_files_x86: None,
        local_app_data: None,
        app_data: Some("D:".to_string()),
    };
    assert_eq!(
        extra_tool_candidates(Platform::Windows, &empty),
        texts(&[
            r"D:\npm",
            r"D:\nvm",
            r"C:\Program Files\Git\cmd",
            r"C:\Program Files (x86)\Git\cmd",
        ])
    );
    assert_eq!(
        extra_tool_candidates(Platform::Unix, &full),
        texts(&["/opt/homebrew/bin", "/opt/homebrew/opt/fnm/bin", "/usr/local/bin"])
    );
}

#[test]
fn only_existing_tool_directories_are_kept() {
    let found = probed(&[("/a", true), ("/b", false), ("/c", true), ("/a", true)]);
    assert_eq!(extra_tool_dirs(&found), texts(&["/a", "/c", "/a"]));
    assert_eq!(extra_tool_dirs(&Vec::new()), Vec::<String>::new());
}

#[test]
fn a_child_gets_the_added_directories_first() {
    let unix = host(Platform::Unix, &["/opt/bin", "/node", "/opt/bin"], Some("/usr/bin:/bin"));
    let extra = probed(&[("/node", true), ("/gone", false), ("/repo/.bin", true)]);
    assert_eq!(
        merged_child_path(&unix, &extra),
        Some("/node:/repo/.bin:/opt/bin:/usr/bin:/bin".to_string())
    );
    let windows = host(Platform::Windows, &[r"C:\x"], Some(r"C:\Windows"));
    assert_eq!(merged_child_path(&windows, &Vec::new()), Some(r"C:\x;C:\Windows".to_string()));
}

#[test]
fn directories_given_twice_stay_twice() {
    let unix = host(Platform::Unix, &[], None);
    let extra = probed(&[("/a", true), ("/a", true)]);
    assert_eq!(merged_child_path(&unix, &extra), Some("/a:/a".to_string()));
}

#[test]
fn an_empty_path_adds_nothing() {
    let with_empty = host(Platform::Unix, &["/a"], Some(""));
    assert_eq!(merged_child_path(&with_empty, &Vec::new()), Some("/a".to_string()));
    let without = host(Platform::Unix, &["/a"], None);
    assert_eq!(merged_child_path(&without, &Vec::new()), Some("/a".to_string()));
}

#[test]
fn nothing_to_add_keeps_the_inherited_path() {
    let plain = host(Platform::Unix, &[], Some("/usr/bin"));
    assert_eq!(merged_child_path(&plain, &probed(&[("/gone", false)])), None);
}

#[test]
fn splitting_a_child_path_gives_its_entries() {
    let unix = host(Platform::Unix, &["/opt/bin"], Some("/usr/bin::/bin"));
    let path = merged_child_path(&unix, &probed(&[("/node", true)])).unwrap();
    let entries: Vec<&str> = path.split(':').collect();
    assert_eq!(entries, vec!["/node", "/opt/bin", "/usr/bin", "", "/bin"]);
}

fn places(host: &Host, name: &str, extra: &[&str]) -> Vec<(String, String)> {
    tool_candidates(host, name, &texts(extra)).into_iter().map(|t| (t.dir, t.file)).collect()
}

fn pair(dir: &str, file: &str) -> (String, String) {
    (dir.to_string(), file.to_string())
}

#[test]
fn tools_are_searched_directory_by_directory() {
    let windows = host(Platform::Windows, &[r"C:\t"], Some(r";C:\a;;C:\b;"));
    assert_eq!(
        places(&windows, "npx", &[r"C:\e"]),
        vec![
            pair(r"C:\e", "npx.exe"),
            pair(r"C:\e", "npx.cmd"),
            pair(r"C:\e", "npx"),
            pair(r"C:\t", "npx.exe"),
            pair(r"C:\t", "npx.cmd"),
            pair(r"C:\t", "npx"),
            pair(r"C:\a", "npx.exe"),
            pair(r"C:\a", "npx.cmd"),
            pair(r"C:\a", "npx"),
            pair(r"C:\b", "npx.exe"),
            pair(r"C:\b", "npx.cmd"),
            pair(r"C:\b", "npx"),
        ]
    );
    let unix = host(Platform::Unix, &["/t"], Some("/a:/b"));
    assert_eq!(
        places(&unix, "node", &[]),
        vec![pair("/t", "node"), pair("/a", "node"), pair("/b", "node")]
    );
    assert_eq!(places(&host(Platform::Unix, &[], None), "node", &[]), Vec::new());
}

#[test]
fn the_earliest_file_is_found() {
    let unix = host(Platform::Unix, &["/t"], Some("/a:/b"));
    let list = tool_candidates(&unix, "node", &Vec::new());
    let hit = find_in_dirs(&list, &vec![false, true, true]).unwrap();
    assert_eq!((hit.dir.as_str(), hit.file.as_str()), ("/a", "node"));
    assert!(find_in_dirs(&list, &vec![false, false, false]).is_none());
    assert!(find_in_dirs(&list, &Vec::new()).is_none());
    assert!(find_in_dirs(&Vec::new(), &vec![true]).is_none());
}

#[test]
fn node_must_not_be_a_batch_file() {
    let missing = "找不到 node。从资源管理器启动时 PATH 往往没有 Node.js，请安装 Node.js 22+";
    let windows = host(Platform::Windows, &[r"C:\t", r"C:\u"], None);
    assert_eq!(node_candidates(&windows).len(), 6);
    let exe = find_node(&windows, &vec![false, false, false, true]).unwrap();
    assert_eq!((exe.dir.as_str(), exe.file.as_str()), (r"C:\u", "node.exe"));
    let bare = find_node(&windows, &vec![false, false, true]).unwrap();
    assert_eq!((bare.dir.as_str(), bare.file.as_str()), (r"C:\t", "node"));
    let batch = find_node(&windows, &vec![false, true, false, true]);
    assert_eq!(batch.err(), Some(missing.to_string()));
    let none = find_node(&windows, &Vec::new());
    assert_eq!(none.err(), Some(missing.to_string()));
}
