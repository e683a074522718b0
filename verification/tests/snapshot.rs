use std::io::Write;

use aionui_ai_agent::fs_tools::{
    begin_tool, refuse_delete, report_delete, report_rename, settle, FileStat, ToolRequest, ToolStep,
};
use aionui_ai_agent::json::Json;
use aionui_ai_agent::snapshot::{Ledger, LedgerAction, LedgerEvent, LedgerPhase, ToolSnapshotRow};
use tempfile::{NamedTempFile, TempDir};

const SHA: &str = "0123456789abcdef0123456789abcdef01234567";

/// Keeps a call where everything goes well.
fn keep(id: &str, files: Vec<String>) -> (Ledger, ToolSnapshotRow) {
    let (mut ledger, action) = Ledger::begin(id, "conv-hook", files, false);
    assert_eq!(action, LedgerAction::Initialise);
    assert!(matches!(ledger.advance(&LedgerEvent::Initialised { failed: None }), LedgerAction::Commit { .. }));
    let row = match ledger.advance(&LedgerEvent::Committed { sha: SHA.to_string(), now: 5 }) {
        LedgerAction::Insert(row) => row,
        other => panic!("unexpected {other:?}"),
    };
    assert_eq!(ledger.advance(&LedgerEvent::Inserted { failed: None }), LedgerAction::Nothing);
    (ledger, row)
}

fn changed(request: &ToolRequest, text: &str) -> Vec<String> {
    let answer = settle(request, Ok((text.to_string(), false)), true, true);
    assert!(!answer.is_error);
    answer.snapshot.expect("something changed")
}

#[test]
fn snapshot_hook_records_write_file_ledger_row() {
    let request = ToolRequest::Write { path: "hello.txt".to_string(), content: "hi".to_string() };
    let (_, row) = keep("call-1", changed(&request, "wrote 2 bytes to hello.txt"));
    assert_eq!(row.tool_call_id, "call-1");
    assert_eq!(row.conversation_id, "conv-hook");
    assert_eq!(row.files_changed_json, r#"["hello.txt"]"#);
    assert_eq!(row.commit_sha.len(), 40, "commit sha should be 40 hex chars");
    assert_eq!(row.created_at, 5);
}

/// A file with a name in a directory of its own.
fn file_named(stem: &str) -> (TempDir, NamedTempFile) {
    let dir = tempfile::tempdir().expect("a directory");
    let mut file = tempfile::Builder::new()
        .prefix(stem)
        .suffix(".txt")
        .rand_bytes(0)
        .tempfile_in(dir.path())
        .expect("a file");
    file.write_all(b"x").expect("written");
    (dir, file)
}

#[test]
fn snapshot_hook_records_delete_file_ledger_row() {
    let (dir, file) = file_named("bye");
    let there = dir.path().join("bye.txt");
    assert!(there.exists());
    let request = ToolRequest::Delete { path: "bye.txt".to_string() };
    assert_eq!(begin_tool(&request, false), ToolStep::Perform);
    assert_eq!(refuse_delete("bye.txt", &Ok(FileStat { is_file: true, is_dir: false, len: 1 })), None);
    let failed = file.close().err().map(|e| e.to_string());
    let out = report_delete("bye.txt", failed.as_deref()).expect("delete_file should succeed");
    assert!(!there.exists());
    let (ledger, row) = keep("call-del", changed(&request, &out));
    assert_eq!(row.tool_call_id, "call-del");
    assert_eq!(row.conversation_id, "conv-hook");
    assert_eq!(row.files_changed_json, r#"["bye.txt"]"#);
    assert!(ledger.outcome.success);
}

#[test]
fn snapshot_hook_records_rename_with_both_paths() {
    let (dir, file) = file_named("old");
    let request = ToolRequest::Rename { from: "old.txt".to_string(), to: "new.txt".to_string() };
    assert_eq!(begin_tool(&request, false), ToolStep::Perform);
    let failed = file.persist(dir.path().join("new.txt")).err().map(|e| e.to_string());
    let out = report_rename("old.txt", "new.txt", None, failed.as_deref()).expect("rename should succeed");
    assert!(!dir.path().join("old.txt").exists());
    assert!(dir.path().join("new.txt").exists());
    let (ledger, row) = keep("call-rename", changed(&request, &out));
    assert_eq!(row.tool_call_id, "call-rename");
    assert_eq!(row.conversation_id, "conv-hook");
    let files = Json::from_text(&row.files_changed_json).expect("valid json");
    let names: Vec<&str> = files.as_array().unwrap().iter().map(|f| f.as_str().unwrap()).collect();
    assert_eq!(names, vec!["old.txt", "new.txt"]);
    assert!(ledger.outcome.success);
}

#[test]
fn snapshot_hook_is_inert_when_tool_call_id_missing() {
    let request = ToolRequest::Write { path: "silent.txt".to_string(), content: "x".to_string() };
    let answer = settle(&request, Ok(("ok".to_string(), false)), false, true);
    assert!(!answer.is_error);
    assert_eq!(answer.snapshot, None);
}

#[test]
fn snapshot_hook_no_ops_when_hook_absent() {
    let request = ToolRequest::Write { path: "nohook.txt".to_string(), content: "x".to_string() };
    let answer = settle(&request, Ok(("ok".to_string(), false)), true, false);
    assert!(!answer.is_error);
    assert_eq!(answer.snapshot, None);
}

#[test]
fn failed_calls_leave_no_snapshot() {
    let request = ToolRequest::Delete { path: "x".to_string() };
    let answer = settle(&request, Err("remove failed: e".to_string()), true, true);
    assert!(answer.is_error);
    assert_eq!(answer.snapshot, None);
    let looked = ToolRequest::Read { path: "x".to_string() };
    assert_eq!(settle(&looked, Ok(("t".to_string(), false)), true, true).snapshot, None);
}

#[test]
fn ledger_hook_outcome_reports_success_for_write_file() {
    let (ledger, _) = keep("call-obs-success", vec!["obs.txt".to_string()]);
    assert!(ledger.outcome.files_count == 1);
    assert_eq!(ledger.outcome.tool_call_id, "call-obs-success");
    assert!(ledger.outcome.success);
    assert_eq!(ledger.outcome.stage, "complete");
    assert_eq!(ledger.outcome.commit_sha.as_deref(), Some(SHA));
    assert!(ledger.outcome.error.is_none());
}

#[test]
fn ledger_hook_outcome_reports_skipped_for_empty_changes() {
    let (ledger, action) = Ledger::begin("call-skip", "conv-hook", vec![], false);
    assert_eq!(action, LedgerAction::Nothing);
    assert!(ledger.outcome.success, "empty-changes hook should be a clean skip");
    assert_eq!(ledger.outcome.stage, "skipped");
    assert!(ledger.outcome.warning.is_some());
    assert!(ledger.outcome.error.is_none());
    assert!(ledger.outcome.commit_sha.is_none());
}

#[test]
fn what_goes_wrong_is_recorded() {
    let files = vec!["f".to_string()];
    let (mut l, _) = Ledger::begin("c", "v", files.clone(), false);
    l.advance(&LedgerEvent::Initialised { failed: Some("e".to_string()) });
    assert_eq!(l.outcome.error.as_deref(), Some("snapshot service init failed: e"));
    assert_eq!(l.outcome.stage, "init");
    assert!(!l.ready);

    let (mut l, action) = Ledger::begin("c", "v", files.clone(), true);
    assert!(matches!(action, LedgerAction::Commit { .. }), "a ready service is not asked again");
    l.advance(&LedgerEvent::CommitFailed { why: "e".to_string() });
    assert_eq!(l.outcome.error.as_deref(), Some("commit_tool_snapshot failed: e"));
    assert_eq!(l.outcome.stage, "commit");

    let (mut l, _) = Ledger::begin("c", "v", files, true);
    l.advance(&LedgerEvent::Committed { sha: SHA.to_string(), now: 1 });
    l.advance(&LedgerEvent::Inserted { failed: Some("e".to_string()) });
    assert_eq!(l.outcome.error.as_deref(), Some("insert opencode_tool_snapshots ledger row: e"));
    assert_eq!(l.outcome.stage, "persist");
    assert_eq!(l.phase, LedgerPhase::Finished);
    assert!(!l.outcome.success);
}
