//! Reading the events of a server's event stream.
use vstd::prelude::*;

use crate::json::{opt_str, Json, JsonV, NumberV, Obj};
use crate::order::{by_text, sort_texts, sorted, sorting_forgets_order, texts_are_ordered};
use crate::text::{
    ascii_lowercase, ascii_lowered, begins, cat3, chars_of, contains, is_word, join, joined, joined_words_read_back,
    lemma_words_are_words, lowercased, occurs,
    split_words, starts_with, str_eq, string_between, to_lowercase, words,
};
use crate::types::{TypedErrorData, TypedErrorDataV};

verus! {

/// What the dispatcher does with an event, by its type.
#[derive(Debug, Clone, Copy, PartialEq, Eq, Structural)]
pub enum EventKind {
    SessionStatus,
    SessionIdle,
    SessionError,
    Retried,
    ModelSwitched,
    AgentSwitched,
    PartDelta,
    PartUpdated,
    MessageUpdated,
    TodoUpdated,
    PermissionAsked,
    ToolInput,
    ToolProgress,
    QuestionAsked,
    QuestionClosed,
    CatalogChanged,
    PermissionReplied,
    InstallationUpdated,
    SkillUpdated,
    SessionCompacted,
    Other,
}

/// The kind of an event type.
pub open spec fn kind_of(t: Seq<char>) -> EventKind {
    if t == "session.status"@ {
        EventKind::SessionStatus
    } else if t == "session.idle"@ {
        EventKind::SessionIdle
    } else if t == "session.error"@ {
        EventKind::SessionError
    } else if t == "session.next.retried"@ {
        EventKind::Retried
    } else if t == "session.next.model.switched"@ {
        EventKind::ModelSwitched
    } else if t == "session.next.agent.switched"@ {
        EventKind::AgentSwitched
    } else if t == "message.part.delta"@ {
        EventKind::PartDelta
    } else if t == "message.part.updated"@ {
        EventKind::PartUpdated
    } else if t == "message.updated"@ {
        EventKind::MessageUpdated
    } else if t == "todo.updated"@ {
        EventKind::TodoUpdated
    } else if t == "permission.asked"@ {
        EventKind::PermissionAsked
    } else if t == "session.next.tool.input.started"@ || t == "session.next.tool.input.delta"@ || t == "session.next.tool.input.ended"@ || t == "session.next.tool_input.started"@ || t == "session.next.tool_input.delta"@ || t == "session.next.tool_input.ended"@ || t == "message.next.tool.input.started"@ || t == "message.next.tool.input.delta"@ || t == "message.next.tool.input.ended"@ {
        EventKind::ToolInput
    } else if t == "session.next.tool.progress"@ || t == "session.next.tool_progress"@ || t == "message.next.tool.progress"@ {
        EventKind::ToolProgress
    } else if t == "question.asked"@ {
        EventKind::QuestionAsked
    } else if t == "question.replied"@ || t == "question.rejected"@ {
        EventKind::QuestionClosed
    } else if t == "models-dev.refreshed"@ || t == "catalog.model.updated"@ {
        EventKind::CatalogChanged
    } else if t == "permission.replied"@ {
        EventKind::PermissionReplied
    } else if t == "installation.updated"@ || t == "installation.update-available"@ {
        EventKind::InstallationUpdated
    } else if t == "skill.updated"@ {
        EventKind::SkillUpdated
    } else if t == "session.compacted"@ {
        EventKind::SessionCompacted
    } else {
        EventKind::Other
    }
}

/// The kind of an event type.
pub fn event_kind(t: &str) -> (r: EventKind)
    ensures
        r == kind_of(t@),
{
    if str_eq(t, "session.status") {
        EventKind::SessionStatus
    } else if str_eq(t, "session.idle") {
        EventKind::SessionIdle
    } else if str_eq(t, "session.error") {
        EventKind::SessionError
    } else if str_eq(t, "session.next.retried") {
        EventKind::Retried
    } else if str_eq(t, "session.next.model.switched") {
        EventKind::ModelSwitched
    } else if str_eq(t, "session.next.agent.switched") {
        EventKind::AgentSwitched
    } else if str_eq(t, "message.part.delta") {
        EventKind::PartDelta
    } else if str_eq(t, "message.part.updated") {
        EventKind::PartUpdated
    } else if str_eq(t, "message.updated") {
        EventKind::MessageUpdated
    } else if str_eq(t, "todo.updated") {
        EventKind::TodoUpdated
    } else if str_eq(t, "permission.asked") {
        EventKind::PermissionAsked
    } else if str_eq(t, "session.next.tool.input.started")
        || str_eq(t, "session.next.tool.input.delta")
        || str_eq(t, "session.next.tool.input.ended")
        || str_eq(t, "session.next.tool_input.started")
        || str_eq(t, "session.next.tool_input.delta")
        || str_eq(t, "session.next.tool_input.ended")
        || str_eq(t, "message.next.tool.input.started")
        || str_eq(t, "message.next.tool.input.delta")
        || str_eq(t, "message.next.tool.input.ended") {
        EventKind::ToolInput
    } else if str_eq(t, "session.next.tool.progress")
        || str_eq(t, "session.next.tool_progress")
        || str_eq(t, "message.next.tool.progress") {
        EventKind::ToolProgress
    } else if str_eq(t, "question.asked") {
        EventKind::QuestionAsked
    } else if str_eq(t, "question.replied")
        || str_eq(t, "question.rejected") {
        EventKind::QuestionClosed
    } else if str_eq(t, "models-dev.refreshed")
        || str_eq(t, "catalog.model.updated") {
        EventKind::CatalogChanged
    } else if str_eq(t, "permission.replied") {
        EventKind::PermissionReplied
    } else if str_eq(t, "installation.updated")
        || str_eq(t, "installation.update-available") {
        EventKind::InstallationUpdated
    } else if str_eq(t, "skill.updated") {
        EventKind::SkillUpdated
    } else if str_eq(t, "session.compacted") {
        EventKind::SessionCompacted
    } else {
        EventKind::Other
    }
}

/// Each event type calls for what it names.
pub proof fn event_types_call_for_what_they_name()
    ensures
        kind_of("session.status"@) == EventKind::SessionStatus,
        kind_of("session.idle"@) == EventKind::SessionIdle,
        kind_of("session.error"@) == EventKind::SessionError,
        kind_of("session.next.retried"@) == EventKind::Retried,
        kind_of("session.next.model.switched"@) == EventKind::ModelSwitched,
        kind_of("session.next.agent.switched"@) == EventKind::AgentSwitched,
        kind_of("message.part.delta"@) == EventKind::PartDelta,
        kind_of("message.part.updated"@) == EventKind::PartUpdated,
        kind_of("message.updated"@) == EventKind::MessageUpdated,
        kind_of("todo.updated"@) == EventKind::TodoUpdated,
        kind_of("permission.asked"@) == EventKind::PermissionAsked,
        kind_of("session.next.tool.input.started"@) == EventKind::ToolInput,
        kind_of("session.next.tool.input.delta"@) == EventKind::ToolInput,
        kind_of("session.next.tool.input.ended"@) == EventKind::ToolInput,
        kind_of("session.next.tool_input.started"@) == EventKind::ToolInput,
        kind_of("session.next.tool_input.delta"@) == EventKind::ToolInput,
        kind_of("session.next.tool_input.ended"@) == EventKind::ToolInput,
        kind_of("message.next.tool.input.started"@) == EventKind::ToolInput,
        kind_of("message.next.tool.input.delta"@) == EventKind::ToolInput,
        kind_of("message.next.tool.input.ended"@) == EventKind::ToolInput,
        kind_of("session.next.tool.progress"@) == EventKind::ToolProgress,
        kind_of("session.next.tool_progress"@) == EventKind::ToolProgress,
        kind_of("message.next.tool.progress"@) == EventKind::ToolProgress,
        kind_of("question.asked"@) == EventKind::QuestionAsked,
        kind_of("question.replied"@) == EventKind::QuestionClosed,
        kind_of("question.rejected"@) == EventKind::QuestionClosed,
        kind_of("models-dev.refreshed"@) == EventKind::CatalogChanged,
        kind_of("catalog.model.updated"@) == EventKind::CatalogChanged,
        kind_of("permission.replied"@) == EventKind::PermissionReplied,
        kind_of("installation.updated"@) == EventKind::InstallationUpdated,
        kind_of("installation.update-available"@) == EventKind::InstallationUpdated,
        kind_of("skill.updated"@) == EventKind::SkillUpdated,
        kind_of("session.compacted"@) == EventKind::SessionCompacted,
{
    reveal_strlit("session.status");
    assert("session.status"@.len() == 14);
    reveal_strlit("session.idle");
    assert("session.idle"@.len() == 12);
    reveal_strlit("session.error");
    assert("session.error"@.len() == 13);
    reveal_strlit("session.next.retried");
    assert("session.next.retried"@.len() == 20);
    reveal_strlit("session.next.model.switched");
    assert("session.next.model.switched"@.len() == 27);
    reveal_strlit("session.next.agent.switched");
    assert("session.next.agent.switched"@.len() == 27);
    reveal_strlit("message.part.delta");
    assert("message.part.delta"@.len() == 18);
    reveal_strlit("message.part.updated");
    assert("message.part.updated"@.len() == 20);
    reveal_strlit("message.updated");
    assert("message.updated"@.len() == 15);
    reveal_strlit("todo.updated");
    assert("todo.updated"@.len() == 12);
    reveal_strlit("permission.asked");
    assert("permission.asked"@.len() == 16);
    reveal_strlit("session.next.tool.input.started");
    assert("session.next.tool.input.started"@.len() == 31);
    reveal_strlit("session.next.tool.input.delta");
    assert("session.next.tool.input.delta"@.len() == 29);
    reveal_strlit("session.next.tool.input.ended");
    assert("session.next.tool.input.ended"@.len() == 29);
    reveal_strlit("session.next.tool_input.started");
    assert("session.next.tool_input.started"@.len() == 31);
    reveal_strlit("session.next.tool_input.delta");
    assert("session.next.tool_input.delta"@.len() == 29);
    reveal_strlit("session.next.tool_input.ended");
    assert("session.next.tool_input.ended"@.len() == 29);
    reveal_strlit("message.next.tool.input.started");
    assert("message.next.tool.input.started"@.len() == 31);
    reveal_strlit("message.next.tool.input.delta");
    assert("message.next.tool.input.delta"@.len() == 29);
    reveal_strlit("message.next.tool.input.ended");
    assert("message.next.tool.input.ended"@.len() == 29);
    reveal_strlit("session.next.tool.progress");
    assert("session.next.tool.progress"@.len() == 26);
    reveal_strlit("session.next.tool_progress");
    assert("session.next.tool_progress"@.len() == 26);
    reveal_strlit("message.next.tool.progress");
    assert("message.next.tool.progress"@.len() == 26);
    reveal_strlit("question.asked");
    assert("question.asked"@.len() == 14);
    reveal_strlit("question.replied");
    assert("question.replied"@.len() == 16);
    reveal_strlit("question.rejected");
    assert("question.rejected"@.len() == 17);
    reveal_strlit("models-dev.refreshed");
    assert("models-dev.refreshed"@.len() == 20);
    reveal_strlit("catalog.model.updated");
    assert("catalog.model.updated"@.len() == 21);
    reveal_strlit("permission.replied");
    assert("permission.replied"@.len() == 18);
    reveal_strlit("installation.updated");
    assert("installation.updated"@.len() == 20);
    reveal_strlit("installation.update-available");
    assert("installation.update-available"@.len() == 29);
    reveal_strlit("skill.updated");
    assert("skill.updated"@.len() == 13);
    reveal_strlit("session.compacted");
    assert("session.compacted"@.len() == 17);
    assert("session.next.agent.switched"@[13] != "session.next.model.switched"@[13]);
    assert("message.part.updated"@[0] != "session.next.retried"@[0]);
    assert("todo.updated"@[0] != "session.idle"@[0]);
    assert("session.next.tool.input.ended"@[24] != "session.next.tool.input.delta"@[24]);
    assert("session.next.tool_input.started"@[17] != "session.next.tool.input.started"@[17]);
    assert("session.next.tool_input.delta"@[17] != "session.next.tool.input.delta"@[17]);
    assert("session.next.tool_input.delta"@[17] != "session.next.tool.input.ended"@[17]);
    assert("session.next.tool_input.ended"@[17] != "session.next.tool.input.delta"@[17]);
    assert("session.next.tool_input.ended"@[17] != "session.next.tool.input.ended"@[17]);
    assert("session.next.tool_input.ended"@[24] != "session.next.tool_input.delta"@[24]);
    assert("message.next.tool.input.started"@[0] != "session.next.tool.input.started"@[0]);
    assert("message.next.tool.input.started"@[0] != "session.next.tool_input.started"@[0]);
    assert("message.next.tool.input.delta"@[0] != "session.next.tool.input.delta"@[0]);
    assert("message.next.tool.input.delta"@[0] != "session.next.tool.input.ended"@[0]);
    assert("message.next.tool.input.delta"@[0] != "session.next.tool_input.delta"@[0]);
    assert("message.next.tool.input.delta"@[0] != "session.next.tool_input.ended"@[0]);
    assert("message.next.tool.input.ended"@[0] != "session.next.tool.input.delta"@[0]);
    assert("message.next.tool.input.ended"@[0] != "session.next.tool.input.ended"@[0]);
    assert("message.next.tool.input.ended"@[0] != "session.next.tool_input.delta"@[0]);
    assert("message.next.tool.input.ended"@[0] != "session.next.tool_input.ended"@[0]);
    assert("message.next.tool.input.ended"@[24] != "message.next.tool.input.delta"@[24]);
    assert("session.next.tool_progress"@[17] != "session.next.tool.progress"@[17]);
    assert("message.next.tool.progress"@[0] != "session.next.tool.progress"@[0]);
    assert("message.next.tool.progress"@[0] != "session.next.tool_progress"@[0]);
    assert("question.asked"@[0] != "session.status"@[0]);
    assert("question.replied"@[0] != "permission.asked"@[0]);
    assert("models-dev.refreshed"@[0] != "session.next.retried"@[0]);
    assert("models-dev.refreshed"@[1] != "message.part.updated"@[1]);
    assert("permission.replied"@[0] != "message.part.delta"@[0]);
    assert("installation.updated"@[0] != "session.next.retried"@[0]);
    assert("installation.updated"@[0] != "message.part.updated"@[0]);
    assert("installation.updated"@[0] != "models-dev.refreshed"@[0]);
    assert("installation.update-available"@[0] != "session.next.tool.input.delta"@[0]);
    assert("installation.update-available"@[0] != "session.next.tool.input.ended"@[0]);
    assert("installation.update-available"@[0] != "session.next.tool_input.delta"@[0]);
    assert("installation.update-available"@[0] != "session.next.tool_input.ended"@[0]);
    assert("installation.update-available"@[0] != "message.next.tool.input.delta"@[0]);
    assert("installation.update-available"@[0] != "message.next.tool.input.ended"@[0]);
    assert("skill.updated"@[1] != "session.error"@[1]);
    assert("session.compacted"@[0] != "question.rejected"@[0]);
}

/// The event types that arrive and call for nothing.
pub open spec fn known_ignored(t: Seq<char>) -> bool {
    ||| t == "server.connected"@
    ||| t == "server.heartbeat"@
    ||| t == "server.instance.disposed"@
    ||| t == "global.disposed"@
    ||| t == "account.added"@
    ||| t == "account.removed"@
    ||| t == "account.switched"@
    ||| t == "file.edited"@
    ||| t == "file.watcher.updated"@
    ||| t == "command.executed"@
    ||| t == "lsp.updated"@
    ||| t == "lsp.client.diagnostics"@
    ||| t == "mcp.tools.changed"@
    ||| t == "mcp.browser.open.failed"@
    ||| t == "project.updated"@
    ||| t == "vcs.branch.updated"@
    ||| t == "workspace.failed"@
    ||| t == "workspace.ready"@
    ||| t == "workspace.status"@
    ||| t == "worktree.failed"@
    ||| t == "worktree.ready"@
    ||| t == "pty.created"@
    ||| t == "pty.deleted"@
    ||| t == "pty.exited"@
    ||| t == "pty.updated"@
    ||| t == "tui.command.execute"@
    ||| t == "tui.prompt.append"@
    ||| t == "tui.session.select"@
    ||| t == "tui.toast.show"@
    ||| t == "session.next.prompted"@
    ||| t == "session.next.synthetic"@
    ||| t == "session.next.step.started"@
    ||| t == "session.next.step.ended"@
    ||| t == "session.next.step.failed"@
    ||| t == "session.next.text.started"@
    ||| t == "session.next.text.delta"@
    ||| t == "session.next.text.ended"@
    ||| t == "session.next.reasoning.started"@
    ||| t == "session.next.reasoning.delta"@
    ||| t == "session.next.reasoning.ended"@
    ||| t == "session.next.shell.started"@
    ||| t == "session.next.shell.ended"@
    ||| t == "session.next.tool.called"@
    ||| t == "session.next.tool.success"@
    ||| t == "session.next.tool.failed"@
    ||| t == "session.next.compaction.started"@
    ||| t == "session.next.compaction.delta"@
    ||| t == "session.next.compaction.ended"@
    ||| t == "session.created"@
    ||| t == "session.updated"@
    ||| t == "session.deleted"@
    ||| t == "session.diff"@
    ||| t == "message.removed"@
    ||| t == "message.part.removed"@
}

/// Whether an event type is known to call for nothing.
pub fn is_known_ignored_event(event_type: &str) -> (r: bool)
    ensures
        r == known_ignored(event_type@),
{
    str_eq(event_type, "server.connected")
        || str_eq(event_type, "server.heartbeat")
        || str_eq(event_type, "server.instance.disposed")
        || str_eq(event_type, "global.disposed")
        || str_eq(event_type, "account.added")
        || str_eq(event_type, "account.removed")
        || str_eq(event_type, "account.switched")
        || str_eq(event_type, "file.edited")
        || str_eq(event_type, "file.watcher.updated")
        || str_eq(event_type, "command.executed")
        || str_eq(event_type, "lsp.updated")
        || str_eq(event_type, "lsp.client.diagnostics")
        || str_eq(event_type, "mcp.tools.changed")
        || str_eq(event_type, "mcp.browser.open.failed")
        || str_eq(event_type, "project.updated")
        || str_eq(event_type, "vcs.branch.updated")
        || str_eq(event_type, "workspace.failed")
        || str_eq(event_type, "workspace.ready")
        || str_eq(event_type, "workspace.status")
        || str_eq(event_type, "worktree.failed")
        || str_eq(event_type, "worktree.ready")
        || str_eq(event_type, "pty.created")
        || str_eq(event_type, "pty.deleted")
        || str_eq(event_type, "pty.exited")
        || str_eq(event_type, "pty.updated")
        || str_eq(event_type, "tui.command.execute")
        || str_eq(event_type, "tui.prompt.append")
        || str_eq(event_type, "tui.session.select")
        || str_eq(event_type, "tui.toast.show")
        || str_eq(event_type, "session.next.prompted")
        || str_eq(event_type, "session.next.synthetic")
        || str_eq(event_type, "session.next.step.started")
        || str_eq(event_type, "session.next.step.ended")
        || str_eq(event_type, "session.next.step.failed")
        || str_eq(event_type, "session.next.text.started")
        || str_eq(event_type, "session.next.text.delta")
        || str_eq(event_type, "session.next.text.ended")
        || str_eq(event_type, "session.next.reasoning.started")
        || str_eq(event_type, "session.next.reasoning.delta")
        || str_eq(event_type, "session.next.reasoning.ended")
        || str_eq(event_type, "session.next.shell.started")
        || str_eq(event_type, "session.next.shell.ended")
        || str_eq(event_type, "session.next.tool.called")
        || str_eq(event_type, "session.next.tool.success")
        || str_eq(event_type, "session.next.tool.failed")
        || str_eq(event_type, "session.next.compaction.started")
        || str_eq(event_type, "session.next.compaction.delta")
        || str_eq(event_type, "session.next.compaction.ended")
        || str_eq(event_type, "session.created")
        || str_eq(event_type, "session.updated")
        || str_eq(event_type, "session.deleted")
        || str_eq(event_type, "session.diff")
        || str_eq(event_type, "message.removed")
        || str_eq(event_type, "message.part.removed")
}

/// The event inside the wrapping that the global stream puts round it; any
/// other value as it is.
pub open spec fn unwrapped(raw: JsonV) -> JsonV {
    match raw.field("payload"@) {
        Some(p) => p,
        None => raw,
    }
}

/// Takes an event out of its wrapping.
pub fn unwrap_event(raw: Json) -> (r: Json)
    ensures
        r@ == unwrapped(raw@),
{
    let inner = match raw.get("payload") {
        Some(p) => Some(p.copy()),
        None => None,
    };
    match inner {
        Some(p) => p,
        None => raw,
    }
}

/// An event that is not wrapped is its own inside.
pub proof fn unwrapping_is_identity_on_raw_events(raw: JsonV)
    requires
        raw.field("payload"@) is None,
    ensures
        unwrapped(raw) == raw,
{
}

/// The status that listeners are told for a server's status, and the reason.
pub open spec fn status_of(raw: Option<Seq<char>>) -> (Seq<char>, Option<Seq<char>>) {
    match raw {
        None => ("idle"@, None),
        Some(s) => if s == "busy"@ || s == "running"@ {
            ("running"@, None)
        } else if s == "idle"@ {
            ("idle"@, None)
        } else if s == "aborting"@ {
            ("aborting"@, None)
        } else if s == "aborted"@ {
            ("aborted"@, Some("aborted"@))
        } else if s == "error"@ || s == "errored"@ {
            ("errored"@, Some("errored"@))
        } else {
            ("idle"@, Some(s))
        },
    }
}

/// The status that listeners are told for a server's status, and the reason.
pub fn opencode_status(raw: Option<&str>) -> (r: (String, Option<String>))
    ensures
        r.deep_view() == status_of(opt_str(raw)),
{
    match raw {
        None => ("idle".to_owned(), None),
        Some(s) => if str_eq(s, "busy") || str_eq(s, "running") {
            ("running".to_owned(), None)
        } else if str_eq(s, "idle") {
            ("idle".to_owned(), None)
        } else if str_eq(s, "aborting") {
            ("aborting".to_owned(), None)
        } else if str_eq(s, "aborted") {
            ("aborted".to_owned(), Some("aborted".to_owned()))
        } else if str_eq(s, "error") || str_eq(s, "errored") {
            ("errored".to_owned(), Some("errored".to_owned()))
        } else {
            ("idle".to_owned(), Some(s.to_owned()))
        },
    }
}

/// Why a session went idle.
pub open spec fn idle_reason_of(props: JsonV) -> Seq<char> {
    match props.field_text("reason"@) {
        None => "completed"@,
        Some(s) => if s == "completed"@ || s == "aborted"@ || s == "errored"@ || s == "compacted"@ {
            s
        } else if occurs(s, "abort"@) {
            "aborted"@
        } else if occurs(s, "error"@) {
            "errored"@
        } else if occurs(s, "compact"@) {
            "compacted"@
        } else {
            "completed"@
        },
    }
}

/// Why a session went idle.
pub fn opencode_idle_reason(props: &Json) -> (r: String)
    ensures
        r@ == idle_reason_of(props@),
{
    match props.get_str("reason") {
        None => "completed".to_owned(),
        Some(s) => if str_eq(s, "completed") || str_eq(s, "aborted") || str_eq(s, "errored") || str_eq(
            s,
            "compacted",
        ) {
            s.to_owned()
        } else if contains(s, "abort") {
            "aborted".to_owned()
        } else if contains(s, "error") {
            "errored".to_owned()
        } else if contains(s, "compact") {
            "compacted".to_owned()
        } else {
            "completed".to_owned()
        },
    }
}

/// Why a request to the model is tried again.
pub open spec fn retry_reason_of(raw: Option<Seq<char>>) -> Seq<char> {
    match raw {
        None => "unknown"@,
        Some(s) => if s == "rate_limit"@ || s == "transient"@ || s == "tool_error"@ || s
            == "provider_error"@ || s == "context_overflow"@ {
            s
        } else if occurs(s, "rate"@) || occurs(s, "limit"@) {
            "rate_limit"@
        } else if occurs(s, "context"@) {
            "context_overflow"@
        } else if occurs(s, "tool"@) {
            "tool_error"@
        } else if occurs(s, "provider"@) {
            "provider_error"@
        } else if occurs(s, "timeout"@) || occurs(s, "temporary"@) || occurs(s, "transient"@) {
            "transient"@
        } else {
            "unknown"@
        },
    }
}

/// Why a request to the model is tried again.
pub fn retry_reason(raw: Option<&str>) -> (r: String)
    ensures
        r@ == retry_reason_of(opt_str(raw)),
{
    match raw {
        None => "unknown".to_owned(),
        Some(s) => if str_eq(s, "rate_limit") || str_eq(s, "transient") || str_eq(s, "tool_error")
            || str_eq(s, "provider_error") || str_eq(s, "context_overflow") {
            s.to_owned()
        } else if contains(s, "rate") || contains(s, "limit") {
            "rate_limit".to_owned()
        } else if contains(s, "context") {
            "context_overflow".to_owned()
        } else if contains(s, "tool") {
            "tool_error".to_owned()
        } else if contains(s, "provider") {
            "provider_error".to_owned()
        } else if contains(s, "timeout") || contains(s, "temporary") || contains(s, "transient") {
            "transient".to_owned()
        } else {
            "unknown".to_owned()
        },
    }
}

/// Whether a word announces a token.
pub open spec fn is_bearer(w: Seq<char>) -> bool {
    ascii_lowered(w) == ascii_lowered("Bearer"@)
}

/// Whether word `i` is the one that an announcing word stands before.
pub open spec fn follows_bearer(ws: Seq<Seq<char>>, i: int) -> bool
    decreases i,
{
    i > 0 && !follows_bearer(ws, i - 1) && is_bearer(ws[i - 1])
}

/// Whether word `i` is left out of a redacted text.
pub open spec fn is_secret_word(ws: Seq<Seq<char>>, i: int) -> bool {
    follows_bearer(ws, i) || is_bearer(ws[i]) || begins(ws[i], "sk-"@)
}

/// The words with the secret ones blanked.
pub open spec fn redacted_words(ws: Seq<Seq<char>>) -> Seq<Seq<char>> {
    Seq::new(
        ws.len(),
        |i: int|
            if is_secret_word(ws, i) {
                "[REDACTED]"@
            } else {
                ws[i]
            },
    )
}

/// A text with its secret words blanked and single spaces between words.
pub open spec fn redacted(s: Seq<char>) -> Seq<char> {
    joined(redacted_words(words(s)), " "@)
}

/// Blanks bearer tokens and `sk-` keys.
pub fn redact_sensitive_text(input: &str) -> (r: String)
    ensures
        r@ == redacted(input@),
{
    let ws = split_words(input);
    let ghost wv = ws.deep_view();
    let bearer = ascii_lowercase("Bearer");
    let mut out: Vec<String> = Vec::new();
    let mut redact_next: bool = false;
    let mut i: usize = 0;
    while i < ws.len()
        invariant
            i <= ws.len(),
            wv == ws.deep_view(),
            bearer@ == ascii_lowered("Bearer"@),
            out.len() == i,
            redact_next == follows_bearer(wv, i as int),
            forall|k: int|
                0 <= k < i ==> (#[trigger] out@[k])@ == (if is_secret_word(wv, k) {
                    "[REDACTED]"@
                } else {
                    wv[k]
                }),
        decreases ws.len() - i,
    {
        let lowered = ascii_lowercase(ws[i].as_str());
        let is_b = str_eq(lowered.as_str(), bearer.as_str());
        assert(wv[i as int] == ws@[i as int]@);
        if redact_next {
            out.push("[REDACTED]".to_owned());
            redact_next = false;
        } else if is_b {
            out.push("[REDACTED]".to_owned());
            redact_next = true;
        } else if starts_with(ws[i].as_str(), "sk-") {
            out.push("[REDACTED]".to_owned());
        } else {
            out.push(ws[i].clone());
        }
        i += 1;
    }
    assert(out.deep_view() =~= redacted_words(wv));
    join(&out, " ")
}

/// What stands for a secret is a word, and no secret itself.
proof fn lemma_blank_is_no_secret()
    ensures
        is_word("[REDACTED]"@),
        !is_bearer("[REDACTED]"@),
        !begins("[REDACTED]"@, "sk-"@),
{
    reveal_strlit("[REDACTED]");
    reveal_strlit("Bearer");
    reveal_strlit("sk-");
    assert(ascii_lowered("[REDACTED]"@).len() != ascii_lowered("Bearer"@).len());
    if begins("[REDACTED]"@, "sk-"@) {
        assert("[REDACTED]"@.take(3)[0] == "sk-"@[0]);
    }
}

/// A redacted text has as many words as the text, in their order, with single spaces
/// between them. None of them begins with `sk-` or announces a token. What is no secret
/// is kept, and what is one is blanked.
pub proof fn redaction_leaves_no_secret(s: Seq<char>)
    ensures
        words(redacted(s)).len() == words(s).len(),
        redacted(s) == joined(words(redacted(s)), " "@),
        forall|i: int|
            0 <= i < words(redacted(s)).len() ==> !begins(#[trigger] words(redacted(s))[i], "sk-"@)
                && !is_bearer(words(redacted(s))[i]),
        forall|i: int|
            0 <= i < words(s).len() ==> #[trigger] words(redacted(s))[i] == (if is_secret_word(
                words(s),
                i,
            ) {
                "[REDACTED]"@
            } else {
                words(s)[i]
            }),
{
    let ws = words(s);
    let rw = redacted_words(ws);
    lemma_words_are_words(s);
    lemma_blank_is_no_secret();
    assert forall|i: int| 0 <= i < rw.len() implies is_word(#[trigger] rw[i]) by {
        assert(is_word(ws[i]));
    }
    joined_words_read_back(rw);
}

/// The word after the first one that announces a token is blanked.
pub proof fn redaction_blanks_the_first_token(s: Seq<char>, i: int)
    requires
        0 <= i < words(s).len() - 1,
        is_bearer(words(s)[i]),
        forall|k: int| 0 <= k < i ==> !is_bearer(#[trigger] words(s)[k]),
    ensures
        words(redacted(s))[i + 1] == "[REDACTED]"@,
{
    redaction_leaves_no_secret(s);
    let ws = words(s);
    if i > 0 {
        assert(!is_bearer(ws[i - 1]));
    }
    assert(!follows_bearer(ws, i));
    assert(follows_bearer(ws, i + 1));
    assert(is_secret_word(ws, i + 1));
}

/// Redacting a redacted text changes nothing.
pub proof fn redacting_twice_is_redacting(s: Seq<char>)
    ensures
        redacted(redacted(s)) == redacted(s),
{
    redaction_leaves_no_secret(s);
    let rw = words(redacted(s));
    assert forall|i: int| 0 <= i < rw.len() implies redacted_words(rw)[i] == rw[i] by {
        assert(!begins(rw[i], "sk-"@));
        if i > 0 {
            assert(!is_bearer(rw[i - 1]));
        }
    }
    assert(redacted_words(rw) =~= rw);
}

/// The first `n` characters of a text, or all of it.
pub open spec fn cut(s: Seq<char>, n: nat) -> Seq<char> {
    if s.len() <= n {
        s
    } else {
        s.take(n as int)
    }
}

/// The first five hundred characters.
pub fn truncate_500(input: &str) -> (r: String)
    ensures
        r@ == cut(input@, 500),
        r@.len() <= 500,
{
    let v = chars_of(input);
    if v.len() <= 500 {
        input.to_owned()
    } else {
        let r = string_between(&v, 0, 500);
        assert(r@ =~= input@.take(500));
        r
    }
}

/// The value under the first of two keys that is there.
pub open spec fn either(v: JsonV, a: Seq<char>, b: Seq<char>) -> Option<JsonV> {
    match v.field(a) {
        Some(x) => Some(x),
        None => v.field(b),
    }
}

/// The text under the first of two keys that is there.
pub open spec fn either_text(v: JsonV, a: Seq<char>, b: Seq<char>) -> Option<Seq<char>> {
    match either(v, a, b) {
        Some(x) => x.text(),
        None => None,
    }
}

/// The value under the first of two keys that is there.
pub fn get_either<'a>(v: &'a Json, a: &str, b: &str) -> (r: Option<&'a Json>)
    ensures
        crate::json::opt_tree(r) == either(v@, a@, b@),
{
    match v.get(a) {
        Some(x) => Some(x),
        None => v.get(b),
    }
}

/// The text under the first of two keys that is there.
pub fn get_either_str<'a>(v: &'a Json, a: &str, b: &str) -> (r: Option<&'a str>)
    ensures
        opt_str(r) == either_text(v@, a@, b@),
{
    match get_either(v, a, b) {
        Some(x) => x.as_str(),
        None => None,
    }
}

/// A text, or another where there is none.
pub open spec fn text_or(t: Option<Seq<char>>, d: Seq<char>) -> Seq<char> {
    match t {
        Some(s) => s,
        None => d,
    }
}

/// A text, or another where there is none.
pub fn str_or<'a>(t: Option<&'a str>, d: &'a str) -> (r: &'a str)
    ensures
        r@ == text_or(opt_str(t), d@),
{
    match t {
        Some(s) => s,
        None => d,
    }
}

/// The error object of a `session.error` event.
pub open spec fn error_of(props: JsonV) -> JsonV {
    match props.field("error"@) {
        Some(e) => e,
        None => JsonV::Null,
    }
}

/// The object that holds the error's details.
pub open spec fn error_data_of(props: JsonV) -> JsonV {
    match error_of(props).field("data"@) {
        Some(d) => d,
        None => error_of(props),
    }
}

/// The message of a `session.error` event as the server gave it.
pub open spec fn raw_message_of(props: JsonV) -> Seq<char> {
    let found = match error_data_of(props).field("message"@) {
        Some(m) => Some(m),
        None => error_of(props).field("message"@),
    };
    let as_text = match found {
        Some(m) => m.text(),
        None => None,
    };
    match as_text {
        Some(t) => t,
        None => text_or(props.field_text("error"@), "OpenCode session error"@),
    }
}

/// The name of the error.
pub open spec fn error_name_of(props: JsonV) -> Seq<char> {
    text_or(either_text(error_of(props), "name"@, "type"@), Seq::empty())
}

/// The class of an error, by its name, by its message and its body in small letters, and
/// by its message alone in small letters.
pub open spec fn error_class(name: Seq<char>, all: Seq<char>, low: Seq<char>) -> Seq<char> {
    if occurs(all, "context"@) || occurs(all, "window"@) {
        "context_overflow"@
    } else if occurs(all, "maximum context"@) || (occurs(all, "token"@) && occurs(all, "limit"@)) {
        "context_overflow"@
    } else if name == "ProviderAuthError"@ {
        "provider_auth"@
    } else if name == "ContextOverflowError"@ {
        "context_overflow"@
    } else if name == "MessageOutputLengthError"@ {
        "output_length"@
    } else if name == "MessageAbortedError"@ {
        "aborted"@
    } else if name == "StructuredOutputError"@ {
        "structured_output"@
    } else if name == "APIError"@ {
        "api"@
    } else if occurs(low, "auth"@) {
        "provider_auth"@
    } else if occurs(low, "abort"@) {
        "aborted"@
    } else {
        "unknown"@
    }
}

/// The class of an error, given in small letters what it is looked for in: `all` is its
/// message and its body, `low` its message.
pub fn classify_error(name: &str, all: &str, low: &str) -> (r: String)
    ensures
        r@ == error_class(name@, all@, low@),
{
    if contains(all, "context") || contains(all, "window") {
        "context_overflow".to_owned()
    } else if contains(all, "maximum context") || (contains(all, "token") && contains(
        all,
        "limit",
    )) {
        "context_overflow".to_owned()
    } else if str_eq(name, "ProviderAuthError") {
        "provider_auth".to_owned()
    } else if str_eq(name, "ContextOverflowError") {
        "context_overflow".to_owned()
    } else if str_eq(name, "MessageOutputLengthError") {
        "output_length".to_owned()
    } else if str_eq(name, "MessageAbortedError") {
        "aborted".to_owned()
    } else if str_eq(name, "StructuredOutputError") {
        "structured_output".to_owned()
    } else if str_eq(name, "APIError") {
        "api".to_owned()
    } else if contains(low, "auth") {
        "provider_auth".to_owned()
    } else if contains(low, "abort") {
        "aborted".to_owned()
    } else {
        "unknown".to_owned()
    }
}

/// The class of an error, by its name, its message and its body.
pub open spec fn error_kind_of(name: Seq<char>, message: Seq<char>, body: Seq<char>) -> Seq<char> {
    error_class(name, lowercased(message + " "@ + body), lowercased(message))
}

/// The class of an error.
pub fn error_kind(name: &str, message: &str, body: &str) -> (r: String)
    ensures
        r@ == error_kind_of(name@, message@, body@),
{
    let joined_text = cat3(message, " ", body);
    let all = to_lowercase(joined_text.as_str());
    let low = to_lowercase(message);
    classify_error(name, all.as_str(), low.as_str())
}

/// The entries with one more, where there is a value.
pub open spec fn put_if(o: Seq<(Seq<char>, JsonV)>, key: Seq<char>, value: Option<JsonV>) -> Seq<
    (Seq<char>, JsonV),
> {
    match value {
        Some(v) => o.push((key, v)),
        None => o,
    }
}

/// A text as a JSON value.
pub open spec fn text_json(t: Option<Seq<char>>) -> Option<JsonV> {
    match t {
        Some(s) => Some(JsonV::Str(s)),
        None => None,
    }
}

/// A number as a JSON value.
pub open spec fn number_json(n: Option<u64>) -> Option<JsonV> {
    match n {
        Some(k) => Some(JsonV::Number(NumberV::Unsigned(k))),
        None => None,
    }
}

/// The number under the first of two keys that is there.
pub open spec fn either_number(v: JsonV, a: Seq<char>, b: Seq<char>) -> Option<u64> {
    match either(v, a, b) {
        Some(x) => x.unsigned(),
        None => None,
    }
}

/// The number under a key.
pub open spec fn field_number(v: JsonV, key: Seq<char>) -> Option<u64> {
    match v.field(key) {
        Some(x) => x.unsigned(),
        None => None,
    }
}

/// What is told about an error besides its message, from the error's details.
pub open spec fn error_metadata_of(data: JsonV) -> Seq<(Seq<char>, JsonV)> {
    let o = Seq::<(Seq<char>, JsonV)>::empty();
    let o = put_if(o, "provider_id"@, text_json(either_text(data, "providerID"@, "providerId"@)));
    let o = put_if(o, "used"@, number_json(field_number(data, "used"@)));
    let o = put_if(o, "limit"@, number_json(field_number(data, "limit"@)));
    let o = put_if(
        o,
        "status_code"@,
        number_json(either_number(data, "statusCode"@, "status_code"@)),
    );
    let o = put_if(
        o,
        "body"@,
        match data.field_text("body"@) {
            Some(b) => Some(JsonV::Str(redacted(cut(b, 500)))),
            None => None,
        },
    );
    let o = put_if(o, "schema"@, text_json(either_text(data, "schema"@, "schemaName"@)));
    put_if(o, "partial"@, either(data, "partial"@, "partialJson"@))
}

/// The truth value under a key.
pub open spec fn field_truth(v: JsonV, key: Seq<char>) -> Option<bool> {
    match v.field(key) {
        Some(x) => x.truth(),
        None => None,
    }
}

/// The truth value under a key.
pub fn get_bool(v: &Json, key: &str) -> (r: Option<bool>)
    ensures
        r == field_truth(v@, key@),
{
    match v.get(key) {
        Some(x) => x.as_bool(),
        None => None,
    }
}

/// The number under a key.
pub fn get_u64(v: &Json, key: &str) -> (r: Option<u64>)
    ensures
        r == field_number(v@, key@),
{
    match v.get(key) {
        Some(x) => x.as_u64(),
        None => None,
    }
}

/// The number under the first of two keys that is there.
pub fn get_either_u64(v: &Json, a: &str, b: &str) -> (r: Option<u64>)
    ensures
        r == either_number(v@, a@, b@),
{
    match get_either(v, a, b) {
        Some(x) => x.as_u64(),
        None => None,
    }
}

/// The classified error of a `session.error` event.
pub open spec fn typed_error_of(props: JsonV) -> TypedErrorDataV {
    let data = error_data_of(props);
    let message = raw_message_of(props);
    let metadata = error_metadata_of(data);
    TypedErrorDataV {
        message: redacted(cut(message, 500)),
        kind: error_kind_of(
            error_name_of(props),
            message,
            text_or(data.field_text("body"@), Seq::empty()),
        ),
        metadata: if metadata.len() == 0 {
            None
        } else {
            Some(JsonV::Object(metadata))
        },
        recoverable: match field_truth(props, "recoverable"@) {
            Some(b) => b,
            None => match field_truth(data, "recoverable"@) {
                Some(b) => b,
                None => false,
            },
        },
    }
}

/// Appends an entry that holds a string, where there is one.
fn put_text(o: Obj, key: &str, t: Option<&str>) -> (r: Obj)
    ensures
        r@ == put_if(o@, key@, text_json(opt_str(t))),
{
    match t {
        Some(s) => o.put_str(key, s),
        None => o,
    }
}

/// Appends an entry that holds a number, where there is one.
fn put_number(o: Obj, key: &str, n: Option<u64>) -> (r: Obj)
    ensures
        r@ == put_if(o@, key@, number_json(n)),
{
    match n {
        Some(k) => o.put(key, Json::number(k)),
        None => o,
    }
}

/// What is told about an error besides its message.
fn error_metadata(data: &Json) -> (r: Obj)
    ensures
        r@ == error_metadata_of(data@),
{
    let o = Obj::new();
    let o = put_text(o, "provider_id", get_either_str(data, "providerID", "providerId"));
    let o = put_number(o, "used", get_u64(data, "used"));
    let o = put_number(o, "limit", get_u64(data, "limit"));
    let o = put_number(o, "status_code", get_either_u64(data, "statusCode", "status_code"));
    let o = match data.get_str("body") {
        Some(b) => {
            let short = truncate_500(b);
            let clean = redact_sensitive_text(short.as_str());
            o.put_str("body", clean.as_str())
        },
        None => o,
    };
    let o = put_text(o, "schema", get_either_str(data, "schema", "schemaName"));
    match get_either(data, "partial", "partialJson") {
        Some(p) => o.put("partial", p.copy()),
        None => o,
    }
}

/// Classifies the error of a `session.error` event.
pub fn typed_error_from_props(props: &Json) -> (r: TypedErrorData)
    ensures
        r@ == typed_error_of(props@),
{
    let null = Json::Null;
    let error = match props.get("error") {
        Some(e) => e,
        None => &null,
    };
    let name = str_or(get_either_str(error, "name", "type"), "");
    let data = match error.get("data") {
        Some(d) => d,
        None => error,
    };
    let found = match data.get("message") {
        Some(m) => Some(m),
        None => error.get("message"),
    };
    let as_text = match found {
        Some(m) => m.as_str(),
        None => None,
    };
    let raw_message = match as_text {
        Some(t) => t,
        None => str_or(props.get_str("error"), "OpenCode session error"),
    };
    proof {
        reveal_strlit("");
        assert(""@ =~= Seq::<char>::empty());
    }
    let short = truncate_500(raw_message);
    let message = redact_sensitive_text(short.as_str());
    let kind = error_kind(name, raw_message, str_or(data.get_str("body"), ""));
    let metadata = error_metadata(data);
    let recoverable = match get_bool(props, "recoverable") {
        Some(b) => b,
        None => match get_bool(data, "recoverable") {
            Some(b) => b,
            None => false,
        },
    };
    let metadata = if metadata.members.len() == 0 {
        None
    } else {
        Some(metadata.build())
    };
    TypedErrorData { message, kind, metadata, recoverable }
}

/// What `DefaultHasher` makes of a list of strings.
pub uninterp spec fn hash_of_strings(keys: Seq<Seq<char>>) -> u64;

/// Feeds a list of strings to a fresh `std::hash::DefaultHasher` and takes its
/// digest. Such a hasher is not seeded, so within one build the digest is a function of
/// the list. Which function is left to the standard library: it differs between its
/// releases, and between machines of another word size or byte order. So a digest is
/// compared with digests of the same build only.
#[verifier::external_body]
fn hash_strings(keys: &Vec<String>) -> (r: u64)
    ensures
        r == hash_of_strings(keys.deep_view()),
{
    let mut hasher = std::hash::DefaultHasher::new();
    std::hash::Hash::hash(keys, &mut hasher);
    std::hash::Hasher::finish(&hasher)
}

/// The character of a hexadecimal digit.
pub open spec fn hex_digit(d: nat) -> char {
    if d < 10 {
        (0x30 + d) as char
    } else {
        (0x61 + d - 10) as char
    }
}

/// A number as `width` hexadecimal digits.
pub open spec fn hex(n: nat, width: nat) -> Seq<char>
    decreases width,
{
    if width == 0 {
        Seq::empty()
    } else {
        hex(n / 16, (width - 1) as nat).push(hex_digit(n % 16))
    }
}

/// The character of a hexadecimal digit.
fn hex_char(d: u64) -> (r: char)
    requires
        d < 16,
    ensures
        r == hex_digit(d as nat),
{
    if d < 10 {
        crate::text::digit_char(d)
    } else if d == 10 {
        'a'
    } else if d == 11 {
        'b'
    } else if d == 12 {
        'c'
    } else if d == 13 {
        'd'
    } else if d == 14 {
        'e'
    } else {
        'f'
    }
}

/// Writes a number as `width` hexadecimal digits.
fn hex_text(n: u64, width: usize) -> (r: String)
    ensures
        r@ == hex(n as nat, width as nat),
        r@.len() == width,
    decreases width,
{
    if width == 0 {
        String::new()
    } else {
        let mut out = hex_text(n / 16, width - 1);
        out.push(hex_char(n % 16));
        out
    }
}

/// The names of an object's entries; none where it is no object.
pub open spec fn key_names(props: JsonV) -> Seq<Seq<char>> {
    match props {
        JsonV::Object(o) => o.map_values(|e: (Seq<char>, JsonV)| e.0),
        _ => Seq::empty(),
    }
}

/// A digest of an event's property names.
pub open spec fn fingerprint_of(props: JsonV) -> Seq<char> {
    hex(hash_of_strings(sorted(key_names(props), by_text())) as nat, 16)
}

/// A sixteen-digit digest of an event's property names; the values do not enter
/// into it.
pub fn event_property_fingerprint(props: &Json) -> (r: String)
    ensures
        r@ == fingerprint_of(props@),
        r@.len() == 16,
{
    let mut keys: Vec<String> = Vec::new();
    match props.as_object() {
        Some(o) => {
            let ghost ov = crate::json::entries(o@);
            let mut i: usize = 0;
            while i < o.len()
                invariant
                    i <= o.len(),
                    ov == crate::json::entries(o@),
                    keys.len() == i,
                    forall|k: int| 0 <= k < i ==> (#[trigger] keys@[k])@ == ov[k].0,
                decreases o.len() - i,
            {
                keys.push(o[i].0.clone());
                i += 1;
            }
            assert(keys.deep_view() =~= key_names(props@));
        },
        None => {
            assert(keys.deep_view() =~= key_names(props@));
        },
    }
    let ordered = sort_texts(&keys);
    hex_text(hash_strings(&ordered), 16)
}

/// Events whose properties have the same names, in whatever order and with
/// whatever values, have the same fingerprint.
pub proof fn fingerprint_depends_on_names_only(a: JsonV, b: JsonV)
    requires
        key_names(a).to_multiset() == key_names(b).to_multiset(),
    ensures
        fingerprint_of(a) == fingerprint_of(b),
{
    texts_are_ordered();
    sorting_forgets_order(key_names(a), key_names(b), by_text());
}

} // verus!
