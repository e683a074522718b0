use std::io::{Read, Write};
use std::path::{Component, Path};

use aionui_ai_agent::descriptors::{all_tool_descriptors, tool_descriptors_for_state};
use aionui_ai_agent::fs_tools::{
    begin_tool, find_tool, refuse_delete, refuse_list, refuse_read, refuse_shell, report_delete, report_list,
    report_rename, report_write, settle, show_file, split_lines, EntryKind, FileStat, GrepRun, ListEntry,
    ListFailure, ToolKind, ToolRequest, ToolStep,
};
use aionui_ai_agent::json::Json;
use aionui_ai_agent::paths::{locate, path_text, resolve_under_root, NamedPath, PathPart};
use aionui_ai_agent::shell::{shell_report, ShellRun};
use aionui_ai_agent::types::ShellApproval;

const ROOT: &str = "/tmp/proj";

/// A path as this machine takes it apart.
fn parts(path: &str) -> Vec<PathPart> {
    Path::new(path)
        .components()
        .map(|part| match part {
            Component::Prefix(p) => PathPart::Prefix(p.as_os_str().to_string_lossy().into_owned()),
            Component::RootDir => PathPart::Root,
            Component::CurDir => PathPart::Current,
            Component::ParentDir => PathPart::Parent,
            Component::Normal(name) => PathPart::Name(name.to_string_lossy().into_owned()),
        })
        .collect()
}

fn named(path: &str) -> NamedPath {
    let text = path_text(path);
    if Path::new(&text).is_absolute() {
        NamedPath::Absolute(Ok(parts(&text)))
    } else {
        NamedPath::Relative(parts(&text))
    }
}

fn here(path: &str) -> Option<Result<Vec<PathPart>, String>> {
    Some(Ok(parts(path)))
}

fn name_of(part: &PathPart) -> &str {
    match part {
        PathPart::Name(name) => name,
        other => panic!("unexpected {other:?}"),
    }
}

/// Resolves a path where only the given paths exist, each where it says it is.
fn resolve_in(existing: &[&str], rel: &str) -> Result<Vec<PathPart>, String> {
    let there = |p: &str| existing.contains(&p) || p == ROOT;
    let below = locate(&parts(ROOT), rel, &named(rel)).unwrap_or_default();
    let mut found = Vec::new();
    for k in 0..=below.len() {
        let mut p = ROOT.to_string();
        for c in &below[..below.len() - k] {
            p.push('/');
            p.push_str(name_of(c));
        }
        found.push(if there(&p) { here(&p) } else { None });
    }
    resolve_under_root(&Ok(parts(ROOT)), rel, &named(rel), &found).expect("as many as there are names")
}

#[test]
fn resolve_rejects_parent_dir() {
    assert!(resolve_in(&[], "../etc/passwd").is_err());
    assert!(resolve_in(&[], "a/../../etc").is_err());
}

#[test]
fn resolve_rejects_absolute() {
    assert!(resolve_in(&[], "/etc/passwd").is_err());
}

#[test]
fn resolve_accepts_empty_and_dot() {
    assert_eq!(resolve_in(&[], "").unwrap(), parts(ROOT));
    assert_eq!(resolve_in(&[], ".").unwrap(), parts(ROOT));
    assert_eq!(resolve_in(&[], "  ").unwrap(), parts(ROOT));
}

#[test]
fn resolve_accepts_absolute_path_inside_root() {
    let files = ["/tmp/proj/src", "/tmp/proj/src/main.rs"];
    assert_eq!(resolve_in(&files, ROOT).unwrap(), parts(ROOT));
    assert_eq!(resolve_in(&files, "/tmp/proj/src").unwrap(), parts("/tmp/proj/src"));
    assert_eq!(resolve_in(&files, "/tmp/proj/src/main.rs").unwrap(), parts("/tmp/proj/src/main.rs"));
}

#[test]
fn absolute_paths_lead_where_relative_ones_do() {
    let files = ["/tmp/proj/src"];
    for path in ["src", "src/new.rs", "a/b/c", ""] {
        let long = format!("{ROOT}/{path}");
        let dotted = format!("./{path}");
        assert_eq!(resolve_in(&files, &long).unwrap(), resolve_in(&files, path).unwrap());
        assert_eq!(resolve_in(&files, &long).unwrap(), resolve_in(&files, &dotted).unwrap());
    }
}

#[test]
fn resolve_accepts_nonexistent_multilevel_path_for_write() {
    assert_eq!(
        resolve_in(&[], "new_dir/sub/new_file.txt").unwrap(),
        parts("/tmp/proj/new_dir/sub/new_file.txt")
    );
    assert_eq!(
        resolve_in(&[], "/tmp/proj/other/deeper/file.txt").unwrap(),
        parts("/tmp/proj/other/deeper/file.txt")
    );
}

#[test]
fn links_do_not_lead_out() {
    let root = Ok(parts(ROOT));
    let found = vec![here("/etc/passwd"), here(ROOT)];
    let r = resolve_under_root(&root, "link", &named("link"), &found).unwrap();
    assert_eq!(r.err().as_deref(), Some("path escapes project root: link"));
    let below = vec![None, here("/etc"), here(ROOT)];
    let r = resolve_under_root(&root, "link/new", &named("link/new"), &below).unwrap();
    assert!(r.is_err());
    let sibling = vec![here("/tmp/project")];
    let r = resolve_under_root(&root, "", &named(""), &sibling).unwrap();
    assert!(r.is_err(), "a name that only begins alike is another directory");
}

#[test]
fn drives_are_parts_of_paths() {
    let drive = |letter: &str, names: &[&str]| {
        let mut all = vec![PathPart::Prefix(letter.to_string()), PathPart::Root];
        all.extend(names.iter().map(|n| PathPart::Name(n.to_string())));
        all
    };
    let root = Ok(drive("C:", &["proj"]));
    let up = NamedPath::Relative(vec![PathPart::Parent, PathPart::Name("x".to_string())]);
    let r = resolve_under_root(&root, r"..\x", &up, &vec![]).unwrap();
    assert_eq!(r.err().as_deref(), Some(r"path escapes project root: ..\x"));
    let inside = NamedPath::Absolute(Ok(drive("C:", &["proj", "src", "a.rs"])));
    let found = vec![Some(Ok(drive("C:", &["proj", "src", "a.rs"])))];
    let r = resolve_under_root(&root, r"C:\proj\src\a.rs", &inside, &found).unwrap();
    assert_eq!(r, Ok(drive("C:", &["proj", "src", "a.rs"])));
    let other = NamedPath::Absolute(Ok(drive("D:", &["proj", "src"])));
    assert!(resolve_under_root(&root, r"D:\proj\src", &other, &vec![]).unwrap().is_err());
    let rooted = NamedPath::Relative(vec![PathPart::Root, PathPart::Name("x".to_string())]);
    let top = vec![None, Some(Ok(drive("C:", &[])))];
    assert!(resolve_under_root(&root, r"\x", &rooted, &top).unwrap().is_err());
    let too_many = vec![None, None, Some(Ok(drive("C:", &["proj"])))];
    assert!(resolve_under_root(&root, r"\x", &rooted, &too_many).is_none());
}

#[test]
fn what_cannot_be_told_is_reported() {
    let none: Vec<Option<Result<Vec<PathPart>, String>>> = vec![];
    let root = Ok(parts(ROOT));
    assert_eq!(
        resolve_under_root(&Err("gone".to_string()), "a", &named("a"), &none).unwrap().err().as_deref(),
        Some("project root canonicalize failed: gone")
    );
    assert_eq!(
        resolve_under_root(&root, "/a", &NamedPath::Absolute(Err("no".to_string())), &none)
            .unwrap()
            .err()
            .as_deref(),
        Some("canonicalize failed: no")
    );
    assert_eq!(
        resolve_under_root(&root, "a", &named("a"), &none).unwrap().err().as_deref(),
        Some("no existing ancestor for: a")
    );
    assert_eq!(
        resolve_under_root(&root, "a", &named("a"), &vec![Some(Err("no".to_string()))]).unwrap().err().as_deref(),
        Some("canonicalize failed: no")
    );
    assert_eq!(
        resolve_under_root(&root, "a", &named("a"), &vec![None, Some(Err("no".to_string()))])
            .unwrap()
            .err()
            .as_deref(),
        Some("canonicalize ancestor failed: no")
    );
    let many = vec![None, None, here(ROOT)];
    assert!(resolve_under_root(&root, "a", &named("a"), &many).is_none());
}

#[test]
fn read_rejects_escape() {
    let request = ToolRequest::Read { path: "../etc/passwd".to_string() };
    let why = resolve_in(&[], "../etc/passwd").unwrap_err();
    let answer = settle(&request, Err(why), false, false);
    assert!(answer.is_error);
    assert!(answer.text.contains("escapes project root"));
}

#[test]
fn write_file_creates_missing_parent_dirs() {
    let path = "newly/nested/dir/hello.txt";
    assert_eq!(resolve_in(&[], path).unwrap(), parts("/tmp/proj/newly/nested/dir/hello.txt"));
    let request = ToolRequest::Write { path: path.to_string(), content: "hi".to_string() };
    assert_eq!(begin_tool(&request, false), ToolStep::Perform);
    let done = report_write(path, "hi", None, None).map(|t| (t, false));
    let answer = settle(&request, done, false, false);
    assert!(!answer.is_error, "write_file should succeed: {}", answer.text);
    assert_eq!(answer.text, "wrote 2 bytes to newly/nested/dir/hello.txt");
}

fn answer(request: &ToolRequest, done: Result<(String, bool), String>) -> (String, bool) {
    let settled = settle(request, done, false, false);
    (settled.text, settled.is_error)
}

#[test]
fn write_then_read_roundtrip() {
    let dir = tempfile::tempdir().expect("a directory");
    let root = dir.path().to_string_lossy().into_owned();
    for content in ["hi", "häuser – 家"] {
        let request = ToolRequest::Write { path: "hello.txt".to_string(), content: content.to_string() };
        assert_eq!(begin_tool(&request, false), ToolStep::Perform);
        let found = vec![None, here(&root)];
        let target = resolve_under_root(&Ok(parts(&root)), "hello.txt", &named("hello.txt"), &found).unwrap();
        assert_eq!(target, Ok(parts(&format!("{root}/hello.txt"))));
        let mut file = tempfile::Builder::new()
            .prefix("hello")
            .suffix(".txt")
            .rand_bytes(0)
            .tempfile_in(dir.path())
            .expect("a file");
        file.write_all(content.as_bytes()).expect("written");
        let done = report_write("hello.txt", content, None, None).map(|t| (t, false));
        let (out, err) = answer(&request, done);
        assert!(!err, "write_file should succeed: {out}");

        let request = ToolRequest::Read { path: "hello.txt".to_string() };
        let mut bytes = Vec::new();
        file.reopen().expect("the file").read_to_end(&mut bytes).expect("read");
        assert_eq!(refuse_read("hello.txt", &stat(true, false, bytes.len() as u64)), None);
        let (out, err) = answer(&request, show_file(&Ok(bytes)).map(|t| (t, false)));
        assert!(!err, "read_file should succeed: {out}");
        assert_eq!(out, content);
    }
}

#[test]
fn bytes_that_are_no_text_are_read_as_base64() {
    let shown = show_file(&Ok(vec![0xff, 0x00, 0x41])).unwrap();
    let parsed = Json::from_text(&shown).unwrap();
    assert_eq!(parsed.get_str("encoding"), Some("base64"));
    assert_eq!(parsed.get_str("content"), Some("/wBB"));
    assert_eq!(show_file(&Err("io".to_string())).err().as_deref(), Some("read failed: io"));
}

fn stat(is_file: bool, is_dir: bool, len: u64) -> Result<FileStat, String> {
    Ok(FileStat { is_file, is_dir, len })
}

#[test]
fn what_cannot_be_worked_on_is_refused() {
    assert_eq!(refuse_read("f", &stat(true, false, 4194304)), None);
    assert_eq!(
        refuse_read("f", &stat(true, false, 4194305)).as_deref(),
        Some("file too large (4194305 bytes; cap is 4194304)")
    );
    assert_eq!(refuse_read("f", &stat(false, true, 0)).as_deref(), Some("not a regular file: f"));
    assert_eq!(refuse_read("f", &Err("e".to_string())).as_deref(), Some("stat failed: e"));
    assert_eq!(refuse_delete("f", &stat(false, true, 0)).as_deref(), Some("not a regular file: f"));
    assert_eq!(refuse_delete("f", &stat(true, false, 9999999)), None);
    assert_eq!(refuse_delete("f", &Err("e".to_string())).as_deref(), Some("stat failed: e"));
    assert_eq!(refuse_list("f", &stat(true, false, 0)).as_deref(), Some("not a directory: f"));
    assert_eq!(refuse_list("f", &stat(false, true, 0)), None);
    assert_eq!(refuse_list("f", &Err("e".to_string())).as_deref(), Some("stat failed: e"));
}

#[test]
fn failures_of_the_file_system_are_reported() {
    assert_eq!(report_write("f", "x", Some("e"), None).err().as_deref(), Some("mkdir failed: e"));
    assert_eq!(report_write("f", "x", None, Some("e")).err().as_deref(), Some("write failed: e"));
    assert_eq!(report_write("f", "é", None, None).unwrap(), "wrote 2 bytes to f");
    assert_eq!(report_delete("f", None).unwrap(), "deleted f");
    assert_eq!(report_delete("f", Some("e")).err().as_deref(), Some("remove failed: e"));
    assert_eq!(report_rename("a", "b", None, None).unwrap(), "renamed a -> b");
    assert_eq!(report_rename("a", "b", Some("e"), None).err().as_deref(), Some("mkdir failed: e"));
    assert_eq!(report_rename("a", "b", None, Some("e")).err().as_deref(), Some("rename failed: e"));
}

#[test]
fn list_dir_returns_entries() {
    let entries = Ok(vec![
        ListEntry { name: "sub".to_string(), kind: EntryKind::Dir, size: None },
        ListEntry { name: "a.txt".to_string(), kind: EntryKind::File, size: Some(1) },
    ]);
    let out = report_list("", &entries).unwrap();
    let v = Json::from_text(&out).unwrap();
    let listed = v.get_array("entries").unwrap();
    assert_eq!(listed.len(), 2);
    assert_eq!(v.get_str("path"), Some("."));
    assert_eq!(v.get("truncated").unwrap().as_bool(), Some(false));
    assert_eq!(listed[0].get_str("type"), Some("dir"));
    assert!(matches!(listed[0].get("size"), Some(Json::Null)));
    assert_eq!(listed[1].get("size").unwrap().as_u64(), Some(1));
    let unread = Err(ListFailure::Entries("e".to_string()));
    assert_eq!(report_list("d", &unread).err().as_deref(), Some("readdir failed: e"));
    let unknown = Err(ListFailure::Kind("e".to_string()));
    assert_eq!(report_list("d", &unknown).err().as_deref(), Some("file_type failed: e"));
}

#[test]
fn long_listings_are_cut() {
    let entries: Vec<ListEntry> = (0..1001)
        .map(|i| ListEntry { name: format!("f{i}"), kind: EntryKind::Symlink, size: None })
        .collect();
    let v = Json::from_text(&report_list("d", &Ok(entries)).unwrap()).unwrap();
    assert_eq!(v.get_array("entries").unwrap().len(), 1000);
    assert_eq!(v.get("truncated").unwrap().as_bool(), Some(true));
    assert_eq!(v.get_str("path"), Some("d"));
}

#[test]
fn grep_finds_matches() {
    let mut run = GrepRun::start("hello", true).unwrap();
    run.visit("a.txt", Some("hello\nworld\nHelloAgain\n"));
    let v = Json::from_text(&run.report()).unwrap();
    let matches = v.get_array("matches").unwrap();
    assert_eq!(matches.len(), 2);
    assert_eq!(matches[1].get("line").unwrap().as_u64(), Some(3));
    assert_eq!(matches[1].get_str("text"), Some("HelloAgain"));
    assert_eq!(matches[1].get_str("path"), Some("a.txt"));
    assert_eq!(v.get("files_scanned").unwrap().as_u64(), Some(1));
}

#[test]
fn patterns_are_regular_expressions() {
    let mut run = GrepRun::start(r"^\d+$", false).unwrap();
    run.visit("n", Some("12\nx1\n\r\n7"));
    let lines: Vec<u64> = run.matches.iter().map(|m| m.line).collect();
    assert_eq!(lines, vec![1, 4]);
    let mut exact = GrepRun::start("hello", false).unwrap();
    exact.visit("a", Some("Hello"));
    assert!(exact.matches.is_empty());
    let why = GrepRun::start("(", false).err().unwrap();
    assert!(why.starts_with("bad regex: "), "{why}");
}

#[test]
fn searches_end_at_their_limits() {
    let mut run = GrepRun::start("x", false).unwrap();
    run.visit("unreadable", None);
    assert_eq!(run.files_scanned, 1);
    let text = "x\n".repeat(501);
    run.visit("many", Some(&text));
    assert_eq!(run.matches.len(), 500);
    assert!(run.truncated && run.done);
    run.visit("more", Some("x"));
    assert_eq!(run.files_scanned, 2);

    let mut exact = GrepRun::start("x", false).unwrap();
    exact.visit("many", Some(&"x\n".repeat(500)));
    assert!(exact.done && !exact.truncated);

    let mut wide = GrepRun::start("x", false).unwrap();
    for _ in 0..5000 {
        wide.visit("f", None);
    }
    assert!(!wide.done);
    wide.visit("f", None);
    assert!(wide.done && wide.truncated);
    assert_eq!(wide.files_scanned, 5000);
}

#[test]
fn marked_lines_are_taken_up() {
    let mut run = GrepRun::start("never", false).unwrap();
    run.note_file("f", Some("a\nb"), &vec![false, true]);
    assert_eq!(run.matches.len(), 1);
    assert_eq!(run.matches[0].text, "b");
}

#[test]
fn lines_end_where_they_end() {
    assert_eq!(split_lines(""), Vec::<String>::new());
    assert_eq!(split_lines("a\r\nb\n"), vec!["a", "b"]);
    assert_eq!(split_lines("a\n\nb\r"), vec!["a", "", "b\r"]);
}

#[test]
fn run_shell_executes_when_approved() {
    let request = ToolRequest::Shell { command: "echo gated_ok".to_string() };
    assert_eq!(begin_tool(&request, true), ToolStep::Ask { command: "echo gated_ok".to_string() });
    assert_eq!(refuse_shell(ShellApproval::Allow), None);
    let (out, err) = shell_report(
        "bash",
        &ShellRun::Ended { exit: Some(0), success: true, stdout: b"gated_ok\n".to_vec(), stderr: vec![] },
    );
    let answer = settle(&request, Ok((out, err)), true, true);
    assert!(!answer.is_error, "approved command should run: {}", answer.text);
    assert!(answer.text.contains("gated_ok"), "missing command output: {}", answer.text);
    assert_eq!(answer.snapshot, None);
}

#[test]
fn run_shell_refuses_when_rejected() {
    let request = ToolRequest::Shell { command: "echo should_not_run".to_string() };
    let out = refuse_shell(ShellApproval::Reject).expect("rejected command must report an error");
    assert!(out.contains("rejected"), "unexpected message: {out}");
    assert!(!out.contains("should_not_run"), "rejected command must not execute: {out}");
    assert!(settle(&request, Ok((out, true)), true, true).is_error);
    assert_eq!(
        refuse_shell(ShellApproval::TimedOut).as_deref(),
        Some("shell approval timed out waiting for user")
    );
}

#[test]
fn run_shell_fails_closed_without_approver() {
    let request = ToolRequest::Shell { command: "echo nope".to_string() };
    match begin_tool(&request, false) {
        ToolStep::Refuse(out) => assert!(out.contains("no approval channel"), "unexpected message: {out}"),
        other => panic!("must fail closed with no approver: {other:?}"),
    }
}

#[test]
fn run_shell_rejects_empty_command() {
    let request = ToolRequest::Shell { command: "   ".to_string() };
    match begin_tool(&request, true) {
        ToolStep::Refuse(out) => assert!(out.contains("empty command"), "unexpected message: {out}"),
        other => panic!("empty command must error: {other:?}"),
    }
}

#[test]
fn unknown_tools_and_arguments_are_refused() {
    assert_eq!(find_tool("read_file"), Some(ToolKind::ReadFile));
    assert_eq!(find_tool("format_disk"), None);
    assert_eq!(
        begin_tool(&ToolRequest::Unknown("format_disk".to_string()), true),
        ToolStep::Refuse("unknown tool: format_disk".to_string())
    );
    assert_eq!(
        begin_tool(&ToolRequest::Invalid("missing field `path`".to_string()), true),
        ToolStep::Refuse("invalid params: missing field `path`".to_string())
    );
}

#[test]
fn every_described_tool_is_there() {
    let all = all_tool_descriptors();
    assert_eq!(all.len(), 7);
    for d in &all {
        assert!(find_tool(&d.name).is_some(), "{}", d.name);
        assert_eq!(d.input_schema.get_str("type"), Some("object"));
    }
    assert!(all[0].annotations.read_only_hint);
    assert!(all[6].annotations.open_world_hint);
    assert_eq!(
        all[3].input_schema.get_array("required").unwrap()[0].as_str(),
        Some("pattern")
    );
}

#[test]
fn the_shell_is_offered_only_with_an_approver() {
    let without: Vec<String> = tool_descriptors_for_state(false).into_iter().map(|d| d.name).collect();
    assert!(!without.contains(&"run_shell".to_string()));
    assert_eq!(without.len(), 6);
    assert_eq!(tool_descriptors_for_state(true).len(), 7);
}
