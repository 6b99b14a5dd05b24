//! Where tools are looked for, and the `PATH` that child processes get.
//!
//! A process that was launched from a graphical shell often lacks the directories of Node.js, pnpm
//! and git on its `PATH`. The functions here list the places to try, pick among what was found
//! there, and merge the directories into the `PATH` of a child.
use vstd::prelude::*;

use crate::text::{
    chars_of, copy_texts, join, join_texts, law_split_at_separator, law_split_undoes_join, literals,
    opt_text, owned_texts, same_text, split, split_text, texts,
};

verus! {

/// The family of systems that the shell runs on.
#[derive(Clone, Copy, Debug, PartialEq, Eq, Structural)]
pub enum Platform {
    Windows,
    Unix,
}

/// The path that is reached from `base` by joining `parts` one after the other.
#[derive(Debug)]
pub struct JoinedPath {
    pub base: String,
    pub parts: Vec<String>,
}

impl View for JoinedPath {
    type V = (Seq<char>, Seq<Seq<char>>);

    open spec fn view(&self) -> (Seq<char>, Seq<Seq<char>>) {
        (self.base@, texts(self.parts@))
    }
}

/// A path and whether what was expected there (a file, or a directory) was found.
#[derive(Debug)]
pub struct Probed {
    pub path: String,
    pub present: bool,
}

/// A place, how the system writes its path, and whether what was expected there (a file, or a
/// directory) was found.
#[derive(Debug)]
pub struct Located {
    pub place: JoinedPath,
    pub path: String,
    pub present: bool,
}

/// The environment variables that installation directories are derived from; a variable that is
/// not set is `None`.
#[derive(Debug)]
pub struct ToolEnv {
    pub program_files: Option<String>,
    pub program_files_x86: Option<String>,
    pub local_app_data: Option<String>,
    pub app_data: Option<String>,
}

/// What is known of the machine when a command is put together.
#[derive(Debug)]
pub struct Host {
    pub platform: Platform,
    /// The tool directories that exist.
    pub tool_dirs: Vec<String>,
    /// The inherited `PATH`, if it is set.
    pub path_var: Option<String>,
    /// The places where fnm may be installed, in order of preference.
    pub fnm: Vec<Probed>,
}

/// A file called `file` in the directory `dir`.
#[derive(Debug)]
pub struct ToolFile {
    pub dir: String,
    pub file: String,
}

impl View for ToolFile {
    type V = (Seq<char>, Seq<char>);

    open spec fn view(&self) -> (Seq<char>, Seq<char>) {
        (self.dir@, self.file@)
    }
}

/// What a list of tool files holds.
pub open spec fn tool_files(list: Seq<ToolFile>) -> Seq<(Seq<char>, Seq<char>)> {
    list.map_values(|t: ToolFile| t@)
}

/// The character between the entries of a `PATH`.
pub open spec fn separator(platform: Platform) -> char {
    match platform {
        Platform::Windows => ';',
        Platform::Unix => ':',
    }
}

/// The character between the entries of a `PATH`.
pub fn path_sep(platform: Platform) -> (sep: char)
    ensures
        sep == separator(platform),
{
    match platform {
        Platform::Windows => ';',
        Platform::Unix => ':',
    }
}

fn path_sep_text(platform: Platform) -> (sep: &'static str)
    ensures
        sep@ == seq![separator(platform)],
{
    proof {
        reveal_strlit(";");
        reveal_strlit(":");
    }
    match platform {
        Platform::Windows => ";",
        Platform::Unix => ":",
    }
}

/// `base` with `tail` behind it, if there is a base.
pub open spec fn under(base: Option<String>, tail: Seq<char>) -> Seq<Seq<char>> {
    match base {
        Some(b) => seq![b@ + tail],
        None => seq![],
    }
}

/// The directories that a graphical process often lacks, in the order in which they are tried.
pub open spec fn tool_dir_candidates(platform: Platform, env: ToolEnv) -> Seq<Seq<char>> {
    match platform {
        Platform::Windows => under(env.program_files, "\\nodejs"@) + under(
            env.program_files_x86,
            "\\nodejs"@,
        ) + under(env.local_app_data, "\\Programs\\nodejs"@) + under(env.app_data, "\\npm"@)
            + under(env.app_data, "\\nvm"@) + under(env.local_app_data, "\\pnpm"@) + under(
            env.local_app_data,
            "\\Volta\\bin"@,
        ) + under(env.local_app_data, "\\fnm"@) + seq![
            "C:\\Program Files\\Git\\cmd"@,
            "C:\\Program Files (x86)\\Git\\cmd"@,
        ],
        Platform::Unix => seq![
            "/opt/homebrew/bin"@,
            "/opt/homebrew/opt/fnm/bin"@,
            "/usr/local/bin"@,
        ],
    }
}

fn push_under(dirs: &mut Vec<String>, base: &Option<String>, tail: &str)
    ensures
        texts(final(dirs)@) == texts(old(dirs)@) + under(*base, tail@),
{
    let ghost before = texts(dirs@);
    match base {
        Some(b) => {
            dirs.push(b.clone().concat(tail));
            assert(texts(dirs@) == before.push(b@ + tail@));
        },
        None => {},
    }
}

/// The directories to look at for `extra_tool_dirs`.
pub fn extra_tool_candidates(platform: Platform, env: &ToolEnv) -> (dirs: Vec<String>)
    ensures
        texts(dirs@) == tool_dir_candidates(platform, *env),
{
    match platform {
        Platform::Windows => {
            let mut dirs: Vec<String> = Vec::new();
            push_under(&mut dirs, &env.program_files, "\\nodejs");
            push_under(&mut dirs, &env.program_files_x86, "\\nodejs");
            push_under(&mut dirs, &env.local_app_data, "\\Programs\\nodejs");
            push_under(&mut dirs, &env.app_data, "\\npm");
            push_under(&mut dirs, &env.app_data, "\\nvm");
            push_under(&mut dirs, &env.local_app_data, "\\pnpm");
            push_under(&mut dirs, &env.local_app_data, "\\Volta\\bin");
            push_under(&mut dirs, &env.local_app_data, "\\fnm");
            let ghost before = texts(dirs@);
            dirs.push("C:\\Program Files\\Git\\cmd".to_owned());
            dirs.push("C:\\Program Files (x86)\\Git\\cmd".to_owned());
            assert(texts(dirs@) == before + seq![
                "C:\\Program Files\\Git\\cmd"@,
                "C:\\Program Files (x86)\\Git\\cmd"@,
            ]);
            assert(texts(dirs@) == tool_dir_candidates(platform, *env));
            dirs
        },
        Platform::Unix => {
            owned_texts(&["/opt/homebrew/bin", "/opt/homebrew/opt/fnm/bin", "/usr/local/bin"])
        },
    }
}

/// The paths of `probed` that were found, in order.
pub open spec fn present(probed: Seq<Probed>) -> Seq<Seq<char>>
    decreases probed.len(),
{
    if probed.len() == 0 {
        seq![]
    } else if probed.last().present {
        present(probed.drop_last()).push(probed.last().path@)
    } else {
        present(probed.drop_last())
    }
}

/// The tool directories that exist, of those that were looked at.
pub fn extra_tool_dirs(probed: &Vec<Probed>) -> (dirs: Vec<String>)
    ensures
        texts(dirs@) == present(probed@),
{
    let mut dirs: Vec<String> = Vec::new();
    let mut i: usize = 0;
    while i < probed.len()
        invariant
            i <= probed@.len(),
            texts(dirs@) == present(probed@.take(i as int)),
        decreases probed@.len() - i,
    {
        let ghost before = texts(dirs@);
        assert(probed@.take(i + 1).drop_last() == probed@.take(i as int));
        if probed[i].present {
            dirs.push(probed[i].path.clone());
            assert(texts(dirs@) == before.push(probed@[i as int].path@));
        }
        i += 1;
    }
    assert(probed@.take(i as int) == probed@);
    dirs
}

/// `first`, followed by those of `more` that are not there yet.
pub open spec fn merge(first: Seq<Seq<char>>, more: Seq<Seq<char>>) -> Seq<Seq<char>>
    decreases more.len(),
{
    if more.len() == 0 {
        first
    } else {
        let merged = merge(first, more.drop_last());
        if merged.contains(more.last()) {
            merged
        } else {
            merged.push(more.last())
        }
    }
}

/// The directories that a child's `PATH` starts with: those of `extra` that exist, then the tool
/// directories that are not among them.
pub open spec fn child_dirs(host: Host, extra: Seq<Probed>) -> Seq<Seq<char>> {
    merge(present(extra), texts(host.tool_dirs@))
}

/// The `PATH` of a child: the directories of `child_dirs`, then what was inherited. If there is no
/// directory to add, the child keeps the `PATH` that it inherits.
pub open spec fn child_path(host: Host, extra: Seq<Probed>) -> Option<Seq<char>> {
    let dirs = child_dirs(host, extra);
    let sep = seq![separator(host.platform)];
    if dirs.len() == 0 {
        None
    } else {
        match host.path_var {
            Some(p) if p@.len() > 0 => Some(join(dirs, sep) + sep + p@),
            _ => Some(join(dirs, sep)),
        }
    }
}

/// Whether `list` holds `text`.
pub fn holds_text(list: &Vec<String>, text: &str) -> (found: bool)
    ensures
        found == texts(list@).contains(text@),
{
    let mut i: usize = 0;
    while i < list.len()
        invariant
            i <= list@.len(),
            forall|k: int| 0 <= k < i ==> #[trigger] texts(list@)[k] != text@,
        decreases list@.len() - i,
    {
        if same_text(list[i].as_str(), text) {
            assert(texts(list@)[i as int] == text@);
            return true;
        }
        i += 1;
    }
    false
}

fn same_texts(a: &Vec<String>, b: &Vec<String>) -> (same: bool)
    ensures
        same == (texts(a@) == texts(b@)),
{
    assert(texts(a@).len() == a@.len() && texts(b@).len() == b@.len());
    if a.len() != b.len() {
        return false;
    }
    let mut i: usize = 0;
    while i < a.len()
        invariant
            a@.len() == b@.len(),
            i <= a@.len(),
            forall|k: int| 0 <= k < i ==> #[trigger] texts(a@)[k] == texts(b@)[k],
        decreases a@.len() - i,
    {
        if !same_text(a[i].as_str(), b[i].as_str()) {
            assert(texts(a@)[i as int] != texts(b@)[i as int]);
            return false;
        }
        i += 1;
    }
    assert(texts(a@) == texts(b@));
    true
}

/// Whether two joined paths are made of the same parts.
pub(crate) fn same_place(a: &JoinedPath, b: &JoinedPath) -> (same: bool)
    ensures
        same == (a@ == b@),
{
    same_text(a.base.as_str(), b.base.as_str()) && same_texts(&a.parts, &b.parts)
}

/// Whether two tool files have the same directory and name.
pub(crate) fn same_tool(a: &ToolFile, b: &ToolFile) -> (same: bool)
    ensures
        same == (a@ == b@),
{
    same_text(a.dir.as_str(), b.dir.as_str()) && same_text(a.file.as_str(), b.file.as_str())
}

/// The `PATH` for a child process, or `None` if the child keeps the one it inherits.
pub fn merged_child_path(host: &Host, extra: &Vec<Probed>) -> (path: Option<String>)
    ensures
        opt_text(path) == child_path(*host, extra@),
{
    let mut dirs: Vec<String> = extra_tool_dirs(extra);
    let ghost first = texts(dirs@);
    let ghost more = texts(host.tool_dirs@);
    let mut i: usize = 0;
    assert(more.take(0) == Seq::<Seq<char>>::empty());
    while i < host.tool_dirs.len()
        invariant
            i <= host.tool_dirs@.len(),
            more == texts(host.tool_dirs@),
            texts(dirs@) == merge(first, more.take(i as int)),
        decreases host.tool_dirs@.len() - i,
    {
        let ghost before = texts(dirs@);
        assert(more.take(i + 1).drop_last() == more.take(i as int));
        if !holds_text(&dirs, host.tool_dirs[i].as_str()) {
            dirs.push(host.tool_dirs[i].clone());
            assert(texts(dirs@) == before.push(more[i as int]));
        }
        i += 1;
    }
    assert(more.take(i as int) == more);
    assert(texts(dirs@).len() == dirs@.len());
    if dirs.len() == 0 {
        return None;
    }
    let mut path: String = join_texts(&dirs, path_sep_text(host.platform));
    match &host.path_var {
        Some(p) => {
            if !p.as_str().is_empty() {
                path.append(path_sep_text(host.platform));
                path.append(p.as_str());
            }
        },
        None => {},
    }
    Some(path)
}

/// The entries of a `PATH` that are not empty, in order.
pub open spec fn path_entries(pieces: Seq<Seq<char>>) -> Seq<Seq<char>>
    decreases pieces.len(),
{
    if pieces.len() == 0 {
        seq![]
    } else if pieces.last().len() > 0 {
        path_entries(pieces.drop_last()).push(pieces.last())
    } else {
        path_entries(pieces.drop_last())
    }
}

/// The directories that are searched for a tool: `extra`, the tool directories, then the entries
/// of the inherited `PATH`.
pub open spec fn search_dirs(host: Host, extra: Seq<Seq<char>>) -> Seq<Seq<char>> {
    extra + texts(host.tool_dirs@) + match host.path_var {
        Some(p) => path_entries(split(p@, separator(host.platform))),
        None => seq![],
    }
}

/// The file names that a tool may have.
pub open spec fn file_names(platform: Platform, name: Seq<char>) -> Seq<Seq<char>> {
    match platform {
        Platform::Windows => seq![name + ".exe"@, name + ".cmd"@, name],
        Platform::Unix => seq![name],
    }
}

/// Each of `files` in `dir`.
pub open spec fn in_dir(dir: Seq<char>, files: Seq<Seq<char>>) -> Seq<(Seq<char>, Seq<char>)> {
    files.map_values(|file: Seq<char>| (dir, file))
}

/// Each of `files` in each of `dirs`, directory by directory.
pub open spec fn in_dirs(dirs: Seq<Seq<char>>, files: Seq<Seq<char>>) -> Seq<
    (Seq<char>, Seq<char>),
>
    decreases dirs.len(),
{
    if dirs.len() == 0 {
        seq![]
    } else {
        in_dirs(dirs.drop_last(), files) + in_dir(dirs.last(), files)
    }
}

fn all_search_dirs(host: &Host, extra: &Vec<String>) -> (dirs: Vec<String>)
    ensures
        texts(dirs@) == search_dirs(*host, texts(extra@)),
{
    let mut dirs: Vec<String> = copy_texts(extra);
    let ghost head = texts(extra@);
    let ghost tools = texts(host.tool_dirs@);
    let mut i: usize = 0;
    while i < host.tool_dirs.len()
        invariant
            i <= host.tool_dirs@.len(),
            tools == texts(host.tool_dirs@),
            texts(dirs@) == head + tools.take(i as int),
        decreases host.tool_dirs@.len() - i,
    {
        let ghost before = texts(dirs@);
        dirs.push(host.tool_dirs[i].clone());
        assert(texts(dirs@) == before.push(tools[i as int]));
        assert(tools.take(i + 1) == tools.take(i as int).push(tools[i as int]));
        i += 1;
    }
    assert(tools.take(i as int) == tools);
    match &host.path_var {
        Some(p) => {
            let pieces: Vec<String> = split_text(p.as_str(), path_sep(host.platform));
            let ghost split_path = texts(pieces@);
            let mut k: usize = 0;
            assert(texts(dirs@) == head + tools + path_entries(split_path.take(0)));
            while k < pieces.len()
                invariant
                    k <= pieces@.len(),
                    split_path == texts(pieces@),
                    texts(dirs@) == head + tools + path_entries(split_path.take(k as int)),
                decreases pieces@.len() - k,
            {
                let ghost before = texts(dirs@);
                assert(split_path.take(k + 1).drop_last() == split_path.take(k as int));
                if !pieces[k].as_str().is_empty() {
                    dirs.push(pieces[k].clone());
                    assert(texts(dirs@) == before.push(split_path[k as int]));
                }
                k += 1;
            }
            assert(split_path.take(k as int) == split_path);
        },
        None => {
            assert(head + tools + Seq::<Seq<char>>::empty() == head + tools);
        },
    }
    dirs
}

fn tool_file_names(platform: Platform, name: &str) -> (names: Vec<String>)
    ensures
        texts(names@) == file_names(platform, name@),
{
    let mut names: Vec<String> = Vec::new();
    match platform {
        Platform::Windows => {
            names.push(name.to_owned().concat(".exe"));
            names.push(name.to_owned().concat(".cmd"));
            names.push(name.to_owned());
        },
        Platform::Unix => {
            names.push(name.to_owned());
        },
    }
    assert(texts(names@) == file_names(platform, name@));
    names
}

/// The places where `find_in_dirs` looks for the tool `name`, in order.
pub fn tool_candidates(host: &Host, name: &str, extra: &Vec<String>) -> (places: Vec<ToolFile>)
    ensures
        tool_files(places@) == in_dirs(
            search_dirs(*host, texts(extra@)),
            file_names(host.platform, name@),
        ),
{
    let dirs: Vec<String> = all_search_dirs(host, extra);
    let names: Vec<String> = tool_file_names(host.platform, name);
    let ghost all_dirs = texts(dirs@);
    let ghost files = texts(names@);
    let mut places: Vec<ToolFile> = Vec::new();
    let mut i: usize = 0;
    while i < dirs.len()
        invariant
            i <= dirs@.len(),
            all_dirs == texts(dirs@),
            files == texts(names@),
            tool_files(places@) == in_dirs(all_dirs.take(i as int), files),
        decreases dirs@.len() - i,
    {
        let ghost rows = tool_files(places@);
        let ghost row = in_dir(all_dirs[i as int], files);
        let mut k: usize = 0;
        assert(row.take(0) == Seq::<(Seq<char>, Seq<char>)>::empty());
        while k < names.len()
            invariant
                i < dirs@.len(),
                k <= names@.len(),
                all_dirs == texts(dirs@),
                files == texts(names@),
                row == in_dir(all_dirs[i as int], files),
                tool_files(places@) == rows + row.take(k as int),
            decreases names@.len() - k,
        {
            let ghost before = tool_files(places@);
            places.push(ToolFile { dir: dirs[i].clone(), file: names[k].clone() });
            assert(tool_files(places@) == before.push(row[k as int]));
            assert(row.take(k + 1) == row.take(k as int).push(row[k as int]));
            k += 1;
        }
        assert(row.take(k as int) == row);
        assert(all_dirs.take(i + 1).drop_last() == all_dirs.take(i as int));
        i += 1;
    }
    assert(all_dirs.take(i as int) == all_dirs);
    places
}

/// The place with the number `k` holds a file.
pub open spec fn found_at(is_file: Seq<bool>, k: int) -> bool {
    0 <= k < is_file.len() && is_file[k]
}

/// The first of `places` that holds a file, from the place with the number `k` on.
pub open spec fn first_found(
    places: Seq<(Seq<char>, Seq<char>)>,
    is_file: Seq<bool>,
    k: int,
) -> Option<(Seq<char>, Seq<char>)>
    decreases places.len() - k,
{
    if k >= places.len() {
        None
    } else if found_at(is_file, k) {
        Some(places[k])
    } else {
        first_found(places, is_file, k + 1)
    }
}

/// What an optional tool file holds.
pub open spec fn opt_tool_file(tool: Option<ToolFile>) -> Option<(Seq<char>, Seq<char>)> {
    match tool {
        Some(t) => Some(t@),
        None => None,
    }
}

/// The first of `places` that holds a file. `is_file` says of each place whether it does; a place
/// that it does not speak of holds none.
pub fn find_in_dirs(places: &Vec<ToolFile>, is_file: &Vec<bool>) -> (found: Option<ToolFile>)
    ensures
        opt_tool_file(found) == first_found(tool_files(places@), is_file@, 0),
{
    let mut k: usize = 0;
    while k < places.len()
        invariant
            k <= places@.len(),
            first_found(tool_files(places@), is_file@, 0) == first_found(
                tool_files(places@),
                is_file@,
                k as int,
            ),
        decreases places@.len() - k,
    {
        if k < is_file.len() && is_file[k] {
            return Some(
                ToolFile { dir: places[k].dir.clone(), file: places[k].file.clone() },
            );
        }
        k += 1;
    }
    None
}

/// A file name whose extension is `cmd`, in whatever case.
pub open spec fn cmd_extension(file: Seq<char>) -> bool {
    let n = file.len();
    &&& n > 4
    &&& file[n - 4] == '.'
    &&& file[n - 3] == 'c' || file[n - 3] == 'C'
    &&& file[n - 2] == 'm' || file[n - 2] == 'M'
    &&& file[n - 1] == 'd' || file[n - 1] == 'D'
}

fn has_cmd_extension(file: &str) -> (yes: bool)
    ensures
        yes == cmd_extension(file@),
{
    let b: Vec<char> = chars_of(file);
    let n: usize = b.len();
    n > 4 && b[n - 4] == '.' && (b[n - 3] == 'c' || b[n - 3] == 'C') && (b[n - 2] == 'm' || b[n - 2]
        == 'M') && (b[n - 1] == 'd' || b[n - 1] == 'D')
}

/// What is said when no usable Node.js is found.
pub open spec fn node_missing() -> Seq<char> {
    "找不到 node。从资源管理器启动时 PATH 往往没有 Node.js，请安装 Node.js 22+"@
}

/// The places where Node.js is looked for, in order.
pub open spec fn node_places(host: Host) -> Seq<(Seq<char>, Seq<char>)> {
    in_dirs(search_dirs(host, seq![]), file_names(host.platform, "node"@))
}

/// The places where Node.js is looked for, in order.
pub fn node_candidates(host: &Host) -> (places: Vec<ToolFile>)
    ensures
        tool_files(places@) == node_places(*host),
{
    let extra: Vec<String> = Vec::new();
    assert(texts(extra@) == Seq::<Seq<char>>::empty());
    tool_candidates(host, "node", &extra)
}

/// The Node.js that is used, of the places where it is looked for. A batch file in its place is not
/// usable, and nothing behind it is tried.
pub open spec fn usable_node(host: Host, is_file: Seq<bool>) -> Option<(Seq<char>, Seq<char>)> {
    match first_found(node_places(host), is_file, 0) {
        Some(tool) if !cmd_extension(tool.1) => Some(tool),
        _ => None,
    }
}

/// The first Node.js among `node_candidates`, of which `is_file` tells what is there. A batch file
/// in its place is not usable, and nothing behind it is tried.
pub fn find_node(host: &Host, is_file: &Vec<bool>) -> (found: Result<ToolFile, String>)
    ensures
        match usable_node(*host, is_file@) {
            Some(tool) => found matches Ok(t) && t@ == tool,
            None => found matches Err(e) && e@ == node_missing(),
        },
{
    let places: Vec<ToolFile> = node_candidates(host);
    match find_in_dirs(&places, is_file) {
        Some(tool) => {
            if has_cmd_extension(tool.file.as_str()) {
                Err(
                    "找不到 node。从资源管理器启动时 PATH 往往没有 Node.js，请安装 Node.js 22+".to_owned(),
                )
            } else {
                Ok(tool)
            }
        },
        None => Err(
            "找不到 node。从资源管理器启动时 PATH 往往没有 Node.js，请安装 Node.js 22+".to_owned(),
        ),
    }
}

fn joined(base: &str, parts: &[&str]) -> (path: JoinedPath)
    ensures
        path@ == (base@, literals(parts@)),
{
    JoinedPath { base: base.to_owned(), parts: owned_texts(parts) }
}

/// The entry point of the Harness sources in the repository `dir`.
pub open spec fn source_place(dir: Seq<char>) -> (Seq<char>, Seq<Seq<char>>) {
    (dir, seq!["apps"@, "cli"@, "src"@, "bin.ts"@])
}

/// The entry point of the Harness sources in the repository `dir`, wherever this program was
/// started from.
pub fn local_source_bin(dir: &str) -> (path: JoinedPath)
    ensures
        path@ == source_place(dir@),
{
    let path = joined(dir, &["apps", "cli", "src", "bin.ts"]);
    assert(path@.1 == seq!["apps"@, "cli"@, "src"@, "bin.ts"@]);
    path
}

/// The directory of the commands that the repository `dir` has installed for itself.
pub open spec fn modules_place(dir: Seq<char>) -> (Seq<char>, Seq<Seq<char>>) {
    (dir, seq!["node_modules"@, ".bin"@])
}

/// The directory of the commands that the repository `dir` has installed for itself.
pub fn node_modules_bin(dir: &str) -> (path: JoinedPath)
    ensures
        path@ == modules_place(dir@),
{
    let path = joined(dir, &["node_modules", ".bin"]);
    assert(path@.1 == seq!["node_modules"@, ".bin"@]);
    path
}

/// The package file that a Harness repository has.
pub fn repo_package_file(dir: &str) -> (path: JoinedPath)
    ensures
        path@ == (dir@, seq!["package.json"@]),
{
    let path = joined(dir, &["package.json"]);
    assert(path@.1 == seq!["package.json"@]);
    path
}

/// The directory of the command line program that a Harness repository has.
pub fn repo_cli_dir(dir: &str) -> (path: JoinedPath)
    ensures
        path@ == (dir@, seq!["apps"@, "cli"@]),
{
    let path = joined(dir, &["apps", "cli"]);
    assert(path@.1 == seq!["apps"@, "cli"@]);
    path
}

/// Merging keeps the first list at the front and adds exactly what is missing: every directory of
/// the second list is there, nothing else is, and none that was added stood there before.
pub proof fn law_merge_adds_what_is_missing(first: Seq<Seq<char>>, more: Seq<Seq<char>>)
    ensures
        first.len() <= merge(first, more).len(),
        merge(first, more).take(first.len() as int) == first,
        forall|d: Seq<char>| more.contains(d) ==> #[trigger] merge(first, more).contains(d),
        forall|d: Seq<char>| #[trigger]
            merge(first, more).contains(d) ==> first.contains(d) || more.contains(d),
        forall|i: int, j: int|
            0 <= i < j < merge(first, more).len() && first.len() <= j ==> #[trigger] merge(
                first,
                more,
            )[i] != #[trigger] merge(first, more)[j],
    decreases more.len(),
{
    if more.len() == 0 {
        assert(first.take(first.len() as int) == first);
    } else {
        let front = more.drop_last();
        law_merge_adds_what_is_missing(first, front);
        let old_dirs = merge(first, front);
        let dirs = merge(first, more);
        assert(dirs.take(first.len() as int) == old_dirs.take(first.len() as int));
        assert(more.contains(more[more.len() - 1]));
        assert forall|d: Seq<char>| more.contains(d) implies #[trigger] dirs.contains(d) by {
            let k = choose|k: int| 0 <= k < more.len() && more[k] == d;
            if k < front.len() {
                assert(front[k] == d);
                assert(front.contains(d));
                assert(old_dirs.contains(d));
                let m = choose|m: int| 0 <= m < old_dirs.len() && old_dirs[m] == d;
                assert(dirs[m] == d);
            } else if !old_dirs.contains(d) {
                assert(dirs[old_dirs.len() as int] == d);
            }
        }
        assert forall|d: Seq<char>| #[trigger] dirs.contains(d) implies first.contains(d)
            || more.contains(d) by {
            let m = choose|m: int| 0 <= m < dirs.len() && dirs[m] == d;
            if m < old_dirs.len() {
                assert(old_dirs[m] == d);
                assert(old_dirs.contains(d));
                if front.contains(d) {
                    let k = choose|k: int| 0 <= k < front.len() && front[k] == d;
                    assert(more[k] == d);
                }
            }
        }
        assert forall|i: int, j: int| 0 <= i < j < dirs.len() && first.len() <= j implies (
        #[trigger] dirs[i]) != (#[trigger] dirs[j]) by {
            assert(dirs[i] == old_dirs[i]);
            if j < old_dirs.len() {
                assert(dirs[j] == old_dirs[j]);
            } else {
                assert(old_dirs.contains(old_dirs[i]));
            }
        }
    }
}

/// A child finds the added directories first and then everything that was on the inherited `PATH`,
/// in the inherited order, as long as no added directory holds the separator in its name.
pub proof fn law_child_path_entries(host: Host, extra: Seq<Probed>)
    requires
        child_dirs(host, extra).len() > 0,
        forall|i: int|
            0 <= i < child_dirs(host, extra).len() ==> !(#[trigger] child_dirs(
                host,
                extra,
            )[i]).contains(separator(host.platform)),
    ensures
        child_path(host, extra) matches Some(path) && split(path, separator(host.platform))
            == child_dirs(host, extra) + match host.path_var {
            Some(p) if p@.len() > 0 => split(p@, separator(host.platform)),
            _ => seq![],
        },
{
    let dirs = child_dirs(host, extra);
    let sep = separator(host.platform);
    law_split_undoes_join(dirs, sep);
    match host.path_var {
        Some(p) if p@.len() > 0 => {
            law_split_at_separator(join(dirs, seq![sep]), sep, p@);
        },
        _ => {
            assert(dirs + Seq::<Seq<char>>::empty() == dirs);
        },
    }
}

/// Places are tried directory by directory, and within a directory name by name.
pub proof fn law_search_order(dirs: Seq<Seq<char>>, files: Seq<Seq<char>>, i: int, j: int)
    requires
        0 <= i < dirs.len(),
        0 <= j < files.len(),
    ensures
        in_dirs(dirs, files).len() == dirs.len() * files.len(),
        i * files.len() + j < in_dirs(dirs, files).len(),
        in_dirs(dirs, files)[i * files.len() + j] == (dirs[i], files[j]),
    decreases dirs.len(),
{
    let front = dirs.drop_last();
    let n = front.len() as int;
    let m = files.len() as int;
    assert((n + 1) * m == n * m + m) by (nonlinear_arith);
    lemma_in_dirs_len(front, files);
    if i < n {
        law_search_order(front, files, i, j);
        assert(front[i] == dirs[i]);
    } else {
        assert(i == n);
    }
}

proof fn lemma_in_dirs_len(dirs: Seq<Seq<char>>, files: Seq<Seq<char>>)
    ensures
        in_dirs(dirs, files).len() == dirs.len() * files.len(),
    decreases dirs.len(),
{
    let m = files.len() as int;
    if dirs.len() == 0 {
        assert(0 * m == 0);
    } else {
        let n = dirs.len() - 1;
        lemma_in_dirs_len(dirs.drop_last(), files);
        assert((n + 1) * m == n * m + m) by (nonlinear_arith);
    }
}

proof fn lemma_first_found(places: Seq<(Seq<char>, Seq<char>)>, is_file: Seq<bool>, from: int)
    requires
        0 <= from,
    ensures
        match first_found(places, is_file, from) {
            Some(place) => exists|k: int|
                from <= k < places.len() && #[trigger] found_at(is_file, k) && place == places[k]
                    && (forall|q: int| from <= q < k ==> !#[trigger] found_at(is_file, q)),
            None => forall|q: int| from <= q < places.len() ==> !#[trigger] found_at(is_file, q),
        },
    decreases places.len() - from,
{
    if from < places.len() {
        if !found_at(is_file, from) {
            lemma_first_found(places, is_file, from + 1);
        }
    }
}

/// A search gives the earliest place that holds a file, and nothing exactly if no place does. A
/// place that was not answered for holds none.
pub proof fn law_search_takes_the_earliest(
    places: Seq<(Seq<char>, Seq<char>)>,
    is_file: Seq<bool>,
)
    ensures
        match first_found(places, is_file, 0) {
            Some(place) => exists|k: int|
                0 <= k < places.len() && k < is_file.len() && #[trigger] is_file[k] && place
                    == places[k] && (forall|q: int| 0 <= q < k ==> !#[trigger] is_file[q]),
            None => forall|q: int|
                0 <= q < places.len() && q < is_file.len() ==> !#[trigger] is_file[q],
        },
{
    lemma_first_found(places, is_file, 0);
    match first_found(places, is_file, 0) {
        Some(place) => {
            let k = choose|k: int|
                0 <= k < places.len() && #[trigger] found_at(is_file, k) && place == places[k] && (
                forall|q: int| 0 <= q < k ==> !#[trigger] found_at(is_file, q));
            assert(is_file[k]);
            assert forall|q: int| 0 <= q < k implies !#[trigger] is_file[q] by {
                assert(!found_at(is_file, q));
            }
        },
        None => {
            assert forall|q: int| 0 <= q < places.len() && q < is_file.len() implies !#[trigger] is_file[q] by {
                assert(!found_at(is_file, q));
            }
        },
    }
}

/// The entries of a `PATH` are parted by semicolons on Windows and by colons elsewhere.
pub proof fn law_separator_of_each_platform(platform: Platform)
    ensures
        separator(platform) == ';' <==> platform == Platform::Windows,
        separator(platform) == ':' <==> platform == Platform::Unix,
{
}

/// The bases that are set, each with the tail that goes with it, in order.
pub open spec fn set_bases(pairs: Seq<(Option<String>, Seq<char>)>) -> Seq<Seq<char>>
    decreases pairs.len(),
{
    if pairs.len() == 0 {
        seq![]
    } else {
        match pairs[0].0 {
            Some(base) => seq![base@ + pairs[0].1] + set_bases(pairs.drop_first()),
            None => set_bases(pairs.drop_first()),
        }
    }
}

proof fn lemma_set_bases_step(
    base: Option<String>,
    tail: Seq<char>,
    rest: Seq<(Option<String>, Seq<char>)>,
)
    ensures
        set_bases(seq![(base, tail)] + rest) == under(base, tail) + set_bases(rest),
{
    assert((seq![(base, tail)] + rest).drop_first() == rest);
    assert(Seq::<Seq<char>>::empty() + set_bases(rest) == set_bases(rest));
}

/// On Windows the directories that are tried come from the variables that are set, in a fixed order,
/// and then two fixed directories of git; a variable that is not set leaves the others as they are.
/// Elsewhere they are fixed.
pub proof fn law_tool_directories(platform: Platform, env: ToolEnv)
    ensures
        platform == Platform::Windows ==> tool_dir_candidates(platform, env) == set_bases(
            seq![
                (env.program_files, "\\nodejs"@),
                (env.program_files_x86, "\\nodejs"@),
                (env.local_app_data, "\\Programs\\nodejs"@),
                (env.app_data, "\\npm"@),
                (env.app_data, "\\nvm"@),
                (env.local_app_data, "\\pnpm"@),
                (env.local_app_data, "\\Volta\\bin"@),
                (env.local_app_data, "\\fnm"@),
            ],
        ) + seq!["C:\\Program Files\\Git\\cmd"@, "C:\\Program Files (x86)\\Git\\cmd"@],
        platform == Platform::Unix ==> tool_dir_candidates(platform, env) == seq![
            "/opt/homebrew/bin"@,
            "/opt/homebrew/opt/fnm/bin"@,
            "/usr/local/bin"@,
        ],
{
    let p8 = Seq::<(Option<String>, Seq<char>)>::empty();
    let p7 = seq![(env.local_app_data, "\\fnm"@)] + p8;
    let p6 = seq![(env.local_app_data, "\\Volta\\bin"@)] + p7;
    let p5 = seq![(env.local_app_data, "\\pnpm"@)] + p6;
    let p4 = seq![(env.app_data, "\\nvm"@)] + p5;
    let p3 = seq![(env.app_data, "\\npm"@)] + p4;
    let p2 = seq![(env.local_app_data, "\\Programs\\nodejs"@)] + p3;
    let p1 = seq![(env.program_files_x86, "\\nodejs"@)] + p2;
    let p0 = seq![(env.program_files, "\\nodejs"@)] + p1;
    lemma_set_bases_step(env.local_app_data, "\\fnm"@, p8);
    lemma_set_bases_step(env.local_app_data, "\\Volta\\bin"@, p7);
    lemma_set_bases_step(env.local_app_data, "\\pnpm"@, p6);
    lemma_set_bases_step(env.app_data, "\\nvm"@, p5);
    lemma_set_bases_step(env.app_data, "\\npm"@, p4);
    lemma_set_bases_step(env.local_app_data, "\\Programs\\nodejs"@, p3);
    lemma_set_bases_step(env.program_files_x86, "\\nodejs"@, p2);
    lemma_set_bases_step(env.program_files, "\\nodejs"@, p1);
    assert(p0 == seq![
        (env.program_files, "\\nodejs"@),
        (env.program_files_x86, "\\nodejs"@),
        (env.local_app_data, "\\Programs\\nodejs"@),
        (env.app_data, "\\npm"@),
        (env.app_data, "\\nvm"@),
        (env.local_app_data, "\\pnpm"@),
        (env.local_app_data, "\\Volta\\bin"@),
        (env.local_app_data, "\\fnm"@),
    ]);
    let git = seq!["C:\\Program Files\\Git\\cmd"@, "C:\\Program Files (x86)\\Git\\cmd"@];
    if platform == Platform::Windows {
        assert(tool_dir_candidates(platform, env) == set_bases(p0) + git);
    }
}

/// Of several paths exactly those that were found are kept, in order: what is kept of two lists
/// together is what is kept of each.
pub proof fn law_found_paths_are_kept(a: Seq<Probed>, b: Seq<Probed>)
    ensures
        present(a + b) == present(a) + present(b),
        a.len() == 0 ==> present(a) == Seq::<Seq<char>>::empty(),
        a.len() == 1 && a[0].present ==> present(a) == seq![a[0].path@],
        a.len() == 1 && !a[0].present ==> present(a) == Seq::<Seq<char>>::empty(),
    decreases b.len(),
{
    reveal_with_fuel(present, 2);
    if b.len() == 0 {
        assert(a + b == a);
    } else {
        law_found_paths_are_kept(a, b.drop_last());
        assert((a + b).drop_last() == a + b.drop_last());
        assert((a + b).last() == b.last());
        assert((present(a) + present(b.drop_last())).push(b.last().path@) == present(a) + present(
            b.drop_last(),
        ).push(b.last().path@));
    }
}

/// Merging goes through the second list in order: a directory is added behind what is there, unless
/// it is there already, and two lists one after the other are merged as one.
pub proof fn law_merge_goes_in_order(first: Seq<Seq<char>>, a: Seq<Seq<char>>, b: Seq<Seq<char>>)
    ensures
        merge(first, a + b) == merge(merge(first, a), b),
        a.len() == 0 ==> merge(first, a) == first,
        a.len() == 1 && first.contains(a[0]) ==> merge(first, a) == first,
        a.len() == 1 && !first.contains(a[0]) ==> merge(first, a) == first.push(a[0]),
    decreases b.len(),
{
    reveal_with_fuel(merge, 2);
    if b.len() == 0 {
        assert(a + b == a);
    } else {
        law_merge_goes_in_order(first, a, b.drop_last());
        assert((a + b).drop_last() == a + b.drop_last());
        assert((a + b).last() == b.last());
    }
}

/// A child keeps the inherited `PATH` exactly if there is no directory to add. Otherwise its `PATH`
/// begins with the directories to add, those of `extra` that were found first, then the tool
/// directories; what was inherited stands behind them unchanged, unless it is empty or missing.
pub proof fn law_child_path_adds_in_front(host: Host, extra: Seq<Probed>)
    ensures
        child_dirs(host, extra) == merge(present(extra), texts(host.tool_dirs@)),
        child_path(host, extra) is None <==> present(extra).len() == 0 && host.tool_dirs@.len()
            == 0,
        child_path(host, extra) matches Some(path) ==> {
            let front = join(child_dirs(host, extra), seq![separator(host.platform)]);
            path == match host.path_var {
                Some(p) => if p@ == Seq::<char>::empty() {
                    front
                } else {
                    front + seq![separator(host.platform)] + p@
                },
                None => front,
            }
        },
{
    law_merge_adds_what_is_missing(present(extra), texts(host.tool_dirs@));
    let dirs = child_dirs(host, extra);
    assert(texts(host.tool_dirs@).len() == host.tool_dirs@.len());
    if host.tool_dirs@.len() > 0 {
        let tool = texts(host.tool_dirs@)[0];
        assert(texts(host.tool_dirs@).contains(tool));
        assert(dirs.contains(tool));
    } else {
        assert(dirs == present(extra));
    }
    match host.path_var {
        Some(p) => {
            if p@.len() == 0 {
                assert(p@ == Seq::<char>::empty());
            }
        },
        None => {},
    }
}

/// Of the pieces of a `PATH` exactly those that are not empty are entries, in order.
pub proof fn law_empty_entries_are_left_out(a: Seq<Seq<char>>, b: Seq<Seq<char>>)
    ensures
        path_entries(a + b) == path_entries(a) + path_entries(b),
        a.len() == 0 ==> path_entries(a) == Seq::<Seq<char>>::empty(),
        a.len() == 1 && a[0].len() > 0 ==> path_entries(a) == a,
        a.len() == 1 && a[0].len() == 0 ==> path_entries(a) == Seq::<Seq<char>>::empty(),
    decreases b.len(),
{
    reveal_with_fuel(path_entries, 2);
    if a.len() == 1 {
        assert(Seq::<Seq<char>>::empty().push(a[0]) == a);
    }
    if b.len() == 0 {
        assert(a + b == a);
    } else {
        law_empty_entries_are_left_out(a, b.drop_last());
        assert((a + b).drop_last() == a + b.drop_last());
        assert((a + b).last() == b.last());
        assert((path_entries(a) + path_entries(b.drop_last())).push(b.last()) == path_entries(a)
            + path_entries(b.drop_last()).push(b.last()));
    }
}

/// A tool is looked for in the directories that are asked for, then in the tool directories, then in
/// the entries of the inherited `PATH`; without a `PATH` the first two are all.
pub proof fn law_searched_directories(host: Host, extra: Seq<Seq<char>>, i: int)
    ensures
        search_dirs(host, extra).take((extra.len() + host.tool_dirs@.len()) as int) == extra + texts(
            host.tool_dirs@,
        ),
        search_dirs(host, extra).skip((extra.len() + host.tool_dirs@.len()) as int)
            == match host.path_var {
            Some(p) => path_entries(split(p@, separator(host.platform))),
            None => Seq::<Seq<char>>::empty(),
        },
        0 <= i < extra.len() ==> search_dirs(host, extra)[i] == extra[i],
        0 <= i < host.tool_dirs@.len() ==> search_dirs(host, extra)[extra.len() + i]
            == host.tool_dirs@[i]@,
{
    assert(texts(host.tool_dirs@).len() == host.tool_dirs@.len());
}

/// On Windows a tool may be a program, a batch file, or have no extension, and is looked for in that
/// order; elsewhere it has its own name only.
pub proof fn law_tool_file_names(platform: Platform, name: Seq<char>)
    ensures
        platform == Platform::Windows ==> file_names(platform, name) == seq![
            name + ".exe"@,
            name + ".cmd"@,
            name,
        ],
        platform == Platform::Unix ==> file_names(platform, name) == seq![name],
{
}

/// The lower case of an ASCII letter; another character stays.
pub open spec fn lower(c: char) -> char {
    if 'A' <= c <= 'Z' {
        (c as u32 + 32) as char
    } else {
        c
    }
}

/// A file name has the extension `cmd` exactly if, in lower case, it ends with `.cmd` and something
/// stands in front of that.
pub proof fn law_batch_extension(file: Seq<char>)
    ensures
        cmd_extension(file) <==> file.len() > 4 && file.skip(file.len() - 4).map_values(
            |c: char| lower(c),
        ) == ".cmd"@,
{
    reveal_strlit(".cmd");
    if file.len() > 4 {
        let n = file.len();
        let tail = file.skip(n - 4);
        let low = tail.map_values(|c: char| lower(c));
        assert(low[0] == lower(file[n - 4]) && low[1] == lower(file[n - 3]) && low[2] == lower(
            file[n - 2],
        ) && low[3] == lower(file[n - 1]));
        if low == ".cmd"@ {
            assert(low[0] == '.' && low[1] == 'c' && low[2] == 'm' && low[3] == 'd');
        }
        if cmd_extension(file) {
            assert(low == ".cmd"@);
        }
    }
}

/// Node.js is looked for in every directory that is searched: on Windows as `node.exe`, `node.cmd`
/// and `node`, elsewhere as `node`.
pub proof fn law_node_places(host: Host, i: int)
    requires
        0 <= i < search_dirs(host, seq![]).len(),
    ensures
        host.platform == Platform::Unix ==> node_places(host).len() == search_dirs(
            host,
            seq![],
        ).len() && node_places(host)[i] == (search_dirs(host, seq![])[i], "node"@),
        host.platform == Platform::Windows ==> node_places(host).len() == 3 * search_dirs(
            host,
            seq![],
        ).len() && node_places(host)[3 * i] == (search_dirs(host, seq![])[i], "node.exe"@)
            && node_places(host)[3 * i + 1] == (search_dirs(host, seq![])[i], "node.cmd"@)
            && node_places(host)[3 * i + 2] == (search_dirs(host, seq![])[i], "node"@),
{
    reveal_strlit("node");
    reveal_strlit(".exe");
    reveal_strlit(".cmd");
    reveal_strlit("node.exe");
    reveal_strlit("node.cmd");
    let dirs = search_dirs(host, seq![]);
    let files = file_names(host.platform, "node"@);
    assert("node"@ + ".exe"@ == "node.exe"@);
    assert("node"@ + ".cmd"@ == "node.cmd"@);
    law_search_order(dirs, files, i, 0);
    if host.platform == Platform::Windows {
        law_search_order(dirs, files, i, 1);
        law_search_order(dirs, files, i, 2);
        assert(i * 3 == 3 * i && dirs.len() * 3 == 3 * dirs.len());
    } else {
        assert(files.len() == 1);
        assert(i * 1 == i && dirs.len() * 1 == dirs.len());
    }
}

proof fn lemma_first_found_is(
    places: Seq<(Seq<char>, Seq<char>)>,
    is_file: Seq<bool>,
    from: int,
    k: int,
)
    requires
        0 <= from <= k < places.len(),
        k < is_file.len(),
        is_file[k],
        forall|q: int| from <= q < k ==> !#[trigger] is_file[q],
    ensures
        first_found(places, is_file, from) == Some(places[k]),
    decreases k - from,
{
    if from < k {
        assert(!is_file[from]);
        lemma_first_found_is(places, is_file, from + 1, k);
    }
}

/// The Node.js that is used is the earliest file among the places where it is looked for. Where that
/// is the batch file of Windows there is none to use, and nothing behind it is tried.
pub proof fn law_node_is_the_earliest_file(host: Host, is_file: Seq<bool>, k: int)
    requires
        0 <= k < node_places(host).len(),
        k < is_file.len(),
        is_file[k],
        forall|q: int| 0 <= q < k ==> !#[trigger] is_file[q],
    ensures
        host.platform == Platform::Windows && k % 3 == 1 <==> usable_node(host, is_file) is None,
        usable_node(host, is_file) matches Some(tool) ==> tool == node_places(host)[k],
{
    lemma_first_found_is(node_places(host), is_file, 0, k);
    let dirs = search_dirs(host, seq![]);
    let files = file_names(host.platform, "node"@);
    lemma_in_dirs_len(dirs, files);
    reveal_strlit("node");
    reveal_strlit("node.exe");
    reveal_strlit("node.cmd");
    assert("node.exe"@.len() == 8 && "node.exe"@[7] == 'e');
    assert("node.cmd"@.len() == 8 && "node.cmd"@[4] == '.' && "node.cmd"@[5] == 'c'
        && "node.cmd"@[6] == 'm' && "node.cmd"@[7] == 'd');
    assert("node"@.len() == 4);
    if host.platform == Platform::Windows {
        assert(dirs.len() * 3 == 3 * dirs.len());
        law_node_places(host, k / 3);
        assert(k == 3 * (k / 3) || k == 3 * (k / 3) + 1 || k == 3 * (k / 3) + 2);
    } else {
        assert(files.len() == 1);
        assert(dirs.len() * 1 == dirs.len());
        law_node_places(host, k);
    }
}

/// Where no place holds a file there is no Node.js to use, and the user is told to install it.
pub proof fn law_no_file_no_node(host: Host, is_file: Seq<bool>)
    requires
        forall|q: int|
            0 <= q < node_places(host).len() && q < is_file.len() ==> !#[trigger] is_file[q],
    ensures
        usable_node(host, is_file) is None,
        node_missing()
            == "找不到 node。从资源管理器启动时 PATH 往往没有 Node.js，请安装 Node.js 22+"@,
{
    law_search_takes_the_earliest(node_places(host), is_file);
}

/// The entry point of the sources and the directory of installed commands lie in the repository.
pub proof fn law_places_in_the_repository(dir: Seq<char>)
    ensures
        source_place(dir) == (dir, seq!["apps"@, "cli"@, "src"@, "bin.ts"@]),
        modules_place(dir) == (dir, seq!["node_modules"@, ".bin"@]),
{
}

/// Tool files hold their directories and names, in order.
pub proof fn law_tool_files_hold_each(list: Seq<ToolFile>, tool: ToolFile)
    ensures
        tool_files(list).len() == list.len(),
        forall|i: int|
            0 <= i < list.len() ==> #[trigger] tool_files(list)[i] == (list[i].dir@, list[i].file@),
        opt_tool_file(Some(tool)) == Some((tool.dir@, tool.file@)),
        opt_tool_file(None) is None,
{
}

} // verus!
