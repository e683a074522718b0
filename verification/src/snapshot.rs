//! The ledger of what tool calls changed: for each call a snapshot is committed and a
//! row is kept. Whatever goes wrong here is recorded and never reaches the tool's answer.
use vstd::prelude::*;

use crate::json::{json_text, lemma_strings_are_plain, parse_result, strings_v, Json, JsonV};
use crate::text::cat;
use crate::types::{copy_opt, copy_strings};

verus! {

/// How far the keeping of a call has come.
#[derive(Debug, Clone, Copy, PartialEq, Eq, Structural)]
pub enum LedgerPhase {
    Initialising,
    Committing,
    Persisting,
    Finished,
}

impl View for LedgerPhase {
    type V = LedgerPhase;

    open spec fn view(&self) -> LedgerPhase {
        *self
    }
}

impl DeepView for LedgerPhase {
    type V = LedgerPhase;

    open spec fn deep_view(&self) -> LedgerPhase {
        *self
    }
}

/// What became of the keeping of a call.
#[derive(Debug, PartialEq, Eq)]
pub struct LedgerHookOutcome {
    pub tool_call_id: String,
    pub conversation_id: String,
    pub stage: String,
    pub success: bool,
    pub files_count: usize,
    pub commit_sha: Option<String>,
    pub error: Option<String>,
    pub warning: Option<String>,
}

/// Model of [`LedgerHookOutcome`].
pub struct LedgerHookOutcomeV {
    pub tool_call_id: Seq<char>,
    pub conversation_id: Seq<char>,
    pub stage: Seq<char>,
    pub success: bool,
    pub files_count: usize,
    pub commit_sha: Option<Seq<char>>,
    pub error: Option<Seq<char>>,
    pub warning: Option<Seq<char>>,
}

impl View for LedgerHookOutcome {
    type V = LedgerHookOutcomeV;

    open spec fn view(&self) -> LedgerHookOutcomeV {
        LedgerHookOutcomeV {
            tool_call_id: self.tool_call_id.deep_view(),
            conversation_id: self.conversation_id.deep_view(),
            stage: self.stage.deep_view(),
            success: self.success.deep_view(),
            files_count: self.files_count.deep_view(),
            commit_sha: self.commit_sha.deep_view(),
            error: self.error.deep_view(),
            warning: self.warning.deep_view(),
        }
    }
}

impl DeepView for LedgerHookOutcome {
    type V = LedgerHookOutcomeV;

    open spec fn deep_view(&self) -> LedgerHookOutcomeV {
        self@
    }
}

impl LedgerHookOutcome {
    /// An equal value.
    pub fn copy(&self) -> (r: LedgerHookOutcome)
        ensures
            r@ == self@,
    {
        LedgerHookOutcome {
            tool_call_id: self.tool_call_id.clone(),
            conversation_id: self.conversation_id.clone(),
            stage: self.stage.clone(),
            success: self.success,
            files_count: self.files_count,
            commit_sha: copy_opt(&self.commit_sha),
            error: copy_opt(&self.error),
            warning: copy_opt(&self.warning),
        }
    }
}

/// A row of the ledger.
#[derive(Debug, PartialEq, Eq)]
pub struct ToolSnapshotRow {
    pub tool_call_id: String,
    pub conversation_id: String,
    pub commit_sha: String,
    pub files_changed_json: String,
    pub created_at: i64,
}

/// Model of [`ToolSnapshotRow`].
pub struct ToolSnapshotRowV {
    pub tool_call_id: Seq<char>,
    pub conversation_id: Seq<char>,
    pub commit_sha: Seq<char>,
    pub files_changed_json: Seq<char>,
    pub created_at: i64,
}

impl View for ToolSnapshotRow {
    type V = ToolSnapshotRowV;

    open spec fn view(&self) -> ToolSnapshotRowV {
        ToolSnapshotRowV {
            tool_call_id: self.tool_call_id.deep_view(),
            conversation_id: self.conversation_id.deep_view(),
            commit_sha: self.commit_sha.deep_view(),
            files_changed_json: self.files_changed_json.deep_view(),
            created_at: self.created_at.deep_view(),
        }
    }
}

impl DeepView for ToolSnapshotRow {
    type V = ToolSnapshotRowV;

    open spec fn deep_view(&self) -> ToolSnapshotRowV {
        self@
    }
}

/// What happened.
#[allow(inconsistent_fields)]
#[derive(Debug, PartialEq, Eq)]
pub enum LedgerEvent {
    /// The snapshot service is ready, or why it is not.
    Initialised { failed: Option<String> },
    /// The snapshot was committed.
    Committed { sha: String, now: i64 },
    /// The snapshot was not committed.
    CommitFailed { why: String },
    /// The row is kept, or why it is not.
    Inserted { failed: Option<String> },
}

/// Model of [`LedgerEvent`].
#[allow(inconsistent_fields)]
pub enum LedgerEventV {
    Initialised { failed: Option<Seq<char>> },
    Committed { sha: Seq<char>, now: i64 },
    CommitFailed { why: Seq<char> },
    Inserted { failed: Option<Seq<char>> },
}

impl View for LedgerEvent {
    type V = LedgerEventV;

    open spec fn view(&self) -> LedgerEventV {
        match self {
            LedgerEvent::Initialised { failed } => LedgerEventV::Initialised { failed: failed.deep_view() },
            LedgerEvent::Committed { sha, now } => LedgerEventV::Committed { sha: sha.deep_view(), now: now.deep_view() },
            LedgerEvent::CommitFailed { why } => LedgerEventV::CommitFailed { why: why.deep_view() },
            LedgerEvent::Inserted { failed } => LedgerEventV::Inserted { failed: failed.deep_view() },
        }
    }
}

impl DeepView for LedgerEvent {
    type V = LedgerEventV;

    open spec fn deep_view(&self) -> LedgerEventV {
        self@
    }
}

/// What is to be done next.
#[derive(Debug, PartialEq, Eq)]
pub enum LedgerAction {
    /// Make the snapshot service ready for the workspace.
    Initialise,
    /// Commit a snapshot of the files under the name of the call.
    Commit { tool_call_id: String, files: Vec<String> },
    /// Keep a row.
    Insert(ToolSnapshotRow),
    /// Nothing.
    Nothing,
}

/// Model of [`LedgerAction`].
pub enum LedgerActionV {
    Initialise,
    Commit { tool_call_id: Seq<char>, files: Seq<Seq<char>> },
    Insert(ToolSnapshotRowV),
    Nothing,
}

impl View for LedgerAction {
    type V = LedgerActionV;

    open spec fn view(&self) -> LedgerActionV {
        match self {
            LedgerAction::Initialise => LedgerActionV::Initialise,
            LedgerAction::Commit { tool_call_id, files } => LedgerActionV::Commit { tool_call_id: tool_call_id.deep_view(), files: files.deep_view() },
            LedgerAction::Insert(x) => LedgerActionV::Insert(x.deep_view()),
            LedgerAction::Nothing => LedgerActionV::Nothing,
        }
    }
}

impl DeepView for LedgerAction {
    type V = LedgerActionV;

    open spec fn deep_view(&self) -> LedgerActionV {
        self@
    }
}

/// The keeping of a call.
#[derive(Debug, PartialEq, Eq)]
pub struct Ledger {
    pub phase: LedgerPhase,
    pub files: Vec<String>,
    /// The snapshot service was made ready.
    pub ready: bool,
    pub outcome: LedgerHookOutcome,
}

/// Model of [`Ledger`].
pub struct LedgerV {
    pub phase: LedgerPhase,
    pub files: Seq<Seq<char>>,
    pub ready: bool,
    pub outcome: LedgerHookOutcomeV,
}

impl View for Ledger {
    type V = LedgerV;

    open spec fn view(&self) -> LedgerV {
        LedgerV {
            phase: self.phase.deep_view(),
            files: self.files.deep_view(),
            ready: self.ready.deep_view(),
            outcome: self.outcome.deep_view(),
        }
    }
}

impl DeepView for Ledger {
    type V = LedgerV;

    open spec fn deep_view(&self) -> LedgerV {
        self@
    }
}

/// The outcome of a keeping that has not begun.
pub open spec fn fresh_outcome(
    tool_call_id: Seq<char>,
    conversation_id: Seq<char>,
    files_count: usize,
) -> LedgerHookOutcomeV {
    LedgerHookOutcomeV {
        tool_call_id,
        conversation_id,
        stage: "init"@,
        success: false,
        files_count,
        commit_sha: None,
        error: None,
        warning: None,
    }
}

impl LedgerHookOutcome {
    /// The outcome of a keeping that has not begun.
    pub fn new(tool_call_id: &str, conversation_id: &str, files_count: usize) -> (r: LedgerHookOutcome)
        ensures
            r@ == fresh_outcome(tool_call_id@, conversation_id@, files_count),
    {
        LedgerHookOutcome {
            tool_call_id: tool_call_id.to_owned(),
            conversation_id: conversation_id.to_owned(),
            stage: "init".to_owned(),
            success: false,
            files_count,
            commit_sha: None,
            error: None,
            warning: None,
        }
    }
}

/// The keeping of a call, begun. A call that changed nothing is not kept. The service
/// is made ready once.
pub open spec fn ledger_begun(
    tool_call_id: Seq<char>,
    conversation_id: Seq<char>,
    files: Seq<Seq<char>>,
    ready: bool,
) -> (LedgerV, LedgerActionV) {
    let outcome = fresh_outcome(tool_call_id, conversation_id, files.len() as usize);
    if files.len() == 0 {
        (
            LedgerV {
                phase: LedgerPhase::Finished,
                files,
                ready,
                outcome: LedgerHookOutcomeV {
                    stage: "skipped"@,
                    success: true,
                    warning: Some("no changed files; hook is a no-op"@),
                    ..outcome
                },
            },
            LedgerActionV::Nothing,
        )
    } else if !ready {
        (
            LedgerV { phase: LedgerPhase::Initialising, files, ready, outcome },
            LedgerActionV::Initialise,
        )
    } else {
        (
            LedgerV {
                phase: LedgerPhase::Committing,
                files,
                ready,
                outcome: LedgerHookOutcomeV { stage: "commit"@, ..outcome },
            },
            LedgerActionV::Commit { tool_call_id, files },
        )
    }
}

/// The keeping of a call, ended by a failure.
pub open spec fn ledger_failed(l: LedgerV, why: Seq<char>) -> (LedgerV, LedgerActionV) {
    (
        LedgerV {
            phase: LedgerPhase::Finished,
            outcome: LedgerHookOutcomeV { error: Some(why), ..l.outcome },
            ..l
        },
        LedgerActionV::Nothing,
    )
}

/// The keeping of a call after something happened, and what is to be done next. What
/// does not belong to its phase is passed over.
pub open spec fn ledger_advanced(l: LedgerV, event: LedgerEventV) -> (LedgerV, LedgerActionV) {
    match (l.phase, event) {
        (LedgerPhase::Initialising, LedgerEventV::Initialised { failed }) => match failed {
            Some(e) => ledger_failed(l, "snapshot service init failed: "@ + e),
            None => (
                LedgerV {
                    phase: LedgerPhase::Committing,
                    ready: true,
                    outcome: LedgerHookOutcomeV { stage: "commit"@, ..l.outcome },
                    ..l
                },
                LedgerActionV::Commit { tool_call_id: l.outcome.tool_call_id, files: l.files },
            ),
        },
        (LedgerPhase::Committing, LedgerEventV::CommitFailed { why }) => ledger_failed(
            l,
            "commit_tool_snapshot failed: "@ + why,
        ),
        (LedgerPhase::Committing, LedgerEventV::Committed { sha, now }) => (
            LedgerV {
                phase: LedgerPhase::Persisting,
                outcome: LedgerHookOutcomeV {
                    commit_sha: Some(sha),
                    stage: "persist"@,
                    ..l.outcome
                },
                ..l
            },
            LedgerActionV::Insert(
                ToolSnapshotRowV {
                    tool_call_id: l.outcome.tool_call_id,
                    conversation_id: l.outcome.conversation_id,
                    commit_sha: sha,
                    files_changed_json: json_text(strings_v(l.files)),
                    created_at: now,
                },
            ),
        ),
        (LedgerPhase::Persisting, LedgerEventV::Inserted { failed }) => match failed {
            Some(e) => ledger_failed(l, "insert opencode_tool_snapshots ledger row: "@ + e),
            None => (
                LedgerV {
                    phase: LedgerPhase::Finished,
                    outcome: LedgerHookOutcomeV { stage: "complete"@, success: true, ..l.outcome },
                    ..l
                },
                LedgerActionV::Nothing,
            ),
        },
        _ => (l, LedgerActionV::Nothing),
    }
}

impl Ledger {
    /// Begins the keeping of a call.
    pub fn begin(tool_call_id: &str, conversation_id: &str, files: Vec<String>, ready: bool) -> (r: (
        Ledger,
        LedgerAction,
    ))
        ensures
            (r.0@, r.1@) == ledger_begun(tool_call_id@, conversation_id@, files.deep_view(), ready),
    {
        let mut outcome = LedgerHookOutcome::new(tool_call_id, conversation_id, files.len());
        if files.len() == 0 {
            outcome.stage = "skipped".to_owned();
            outcome.success = true;
            outcome.warning = Some("no changed files; hook is a no-op".to_owned());
            return (
                Ledger { phase: LedgerPhase::Finished, files, ready, outcome },
                LedgerAction::Nothing,
            );
        }
        if !ready {
            return (
                Ledger { phase: LedgerPhase::Initialising, files, ready, outcome },
                LedgerAction::Initialise,
            );
        }
        outcome.stage = "commit".to_owned();
        let action = LedgerAction::Commit {
            tool_call_id: tool_call_id.to_owned(),
            files: copy_strings(&files),
        };
        (Ledger { phase: LedgerPhase::Committing, files, ready, outcome }, action)
    }

    fn fail(&mut self, why: String) -> (r: LedgerAction)
        ensures
            (final(self)@, r@) == ledger_failed(old(self)@, why@),
    {
        self.phase = LedgerPhase::Finished;
        self.outcome.error = Some(why);
        LedgerAction::Nothing
    }

    /// Goes on after something happened. The files are read back from the row that is kept.
    pub fn advance(&mut self, event: &LedgerEvent) -> (r: LedgerAction)
        ensures
            (final(self)@, r@) == ledger_advanced(old(self)@, event@),
            r@ matches LedgerActionV::Insert(row) ==> parse_result(row.files_changed_json) == Ok::<
                JsonV,
                Seq<char>,
            >(strings_v(old(self)@.files)),
    {
        match self.phase {
            LedgerPhase::Initialising => match event {
                LedgerEvent::Initialised { failed } => match failed {
                    Some(e) => self.fail(cat("snapshot service init failed: ", e.as_str())),
                    None => {
                        self.phase = LedgerPhase::Committing;
                        self.ready = true;
                        self.outcome.stage = "commit".to_owned();
                        LedgerAction::Commit {
                            tool_call_id: self.outcome.tool_call_id.clone(),
                            files: copy_strings(&self.files),
                        }
                    },
                },
                _ => LedgerAction::Nothing,
            },
            LedgerPhase::Committing => match event {
                LedgerEvent::CommitFailed { why } => self.fail(
                    cat("commit_tool_snapshot failed: ", why.as_str()),
                ),
                LedgerEvent::Committed { sha, now } => {
                    self.phase = LedgerPhase::Persisting;
                    self.outcome.commit_sha = Some(sha.clone());
                    self.outcome.stage = "persist".to_owned();
                    let names = Json::strings(&self.files);
                    let files_changed_json = names.to_text();
                    proof {
                        lemma_strings_are_plain(
                            self@.files,
                            parse_result(files_changed_json@)->Ok_0,
                        );
                    }
                    LedgerAction::Insert(
                        ToolSnapshotRow {
                            tool_call_id: self.outcome.tool_call_id.clone(),
                            conversation_id: self.outcome.conversation_id.clone(),
                            commit_sha: sha.clone(),
                            files_changed_json,
                            created_at: *now,
                        },
                    )
                },
                _ => LedgerAction::Nothing,
            },
            LedgerPhase::Persisting => match event {
                LedgerEvent::Inserted { failed } => match failed {
                    Some(e) => self.fail(
                        cat("insert opencode_tool_snapshots ledger row: ", e.as_str()),
                    ),
                    None => {
                        self.phase = LedgerPhase::Finished;
                        self.outcome.stage = "complete".to_owned();
                        self.outcome.success = true;
                        LedgerAction::Nothing
                    },
                },
                _ => LedgerAction::Nothing,
            },
            LedgerPhase::Finished => LedgerAction::Nothing,
        }
    }
}

/// Whether an outcome fits how far a keeping has come: it failed exactly where an
/// error is recorded.
pub open spec fn consistent(l: LedgerV) -> bool {
    if l.phase == LedgerPhase::Finished {
        l.outcome.success == (l.outcome.error is None)
    } else {
        !l.outcome.success && l.outcome.error is None
    }
}

/// Every keeping that ended either succeeded or tells what went wrong.
pub proof fn an_ended_keeping_tells(
    tool_call_id: Seq<char>,
    conversation_id: Seq<char>,
    files: Seq<Seq<char>>,
    ready: bool,
    l: LedgerV,
    event: LedgerEventV,
)
    ensures
        consistent(ledger_begun(tool_call_id, conversation_id, files, ready).0),
        consistent(l) ==> consistent(ledger_advanced(l, event).0),
{
}

/// A row is kept only of a committed snapshot, under the name of the call, and of all
/// the files that it changed.
pub proof fn rows_name_their_snapshot(l: LedgerV, event: LedgerEventV)
    ensures
        ledger_advanced(l, event).1 matches LedgerActionV::Insert(row) ==> {
            &&& event matches LedgerEventV::Committed { sha, now } && row.commit_sha == sha
                && row.created_at == now
            &&& row.tool_call_id == l.outcome.tool_call_id
            &&& row.conversation_id == l.outcome.conversation_id
            &&& row.files_changed_json == json_text(strings_v(l.files))
        },
{
}

/// The service is made ready at most once: where it is ready it is not asked again.
pub proof fn readiness_is_asked_once(
    tool_call_id: Seq<char>,
    conversation_id: Seq<char>,
    files: Seq<Seq<char>>,
    l: LedgerV,
    event: LedgerEventV,
)
    ensures
        ledger_begun(tool_call_id, conversation_id, files, true).1 !is Initialise,
        l.ready ==> ledger_advanced(l, event).0.ready,
        ledger_advanced(l, event).1 !is Initialise,
{
}

} // verus!
