//! The tools that work on the project's files: what is refused, what the model is told,
//! and which files a call changed.
use vstd::prelude::*;
use vstd::utf8::{decode_utf8, encode_utf8, valid_utf8};

use crate::config::{base64_encode, base64_of};
use crate::json::{fields, json_text, opt_str, trees, Json, JsonV, NumberV, Obj};
use crate::text::{
    cat, cat4, cat5, chars_of, dec, is_blank, pieces, split_char, str_eq, string_between, trim,
    trimmed, u64_dec,
};
use crate::types::{outcome, ShellApproval};

verus! {

/// The longest file that is read, in bytes.
pub const MAX_READ_BYTES: u64 = 4194304;

/// How many files a search looks into.
pub const MAX_GREP_FILES: usize = 5000;

/// How many matches a search reports.
pub const MAX_GREP_MATCHES: usize = 500;

/// How many entries a listing shows.
pub const MAX_LIST_ENTRIES: usize = 1000;

/// A tool.
#[derive(Debug, Clone, Copy, PartialEq, Eq, Structural)]
pub enum ToolKind {
    ReadFile,
    WriteFile,
    ListDir,
    GrepDir,
    DeleteFile,
    Rename,
    RunShell,
}

impl View for ToolKind {
    type V = ToolKind;

    open spec fn view(&self) -> ToolKind {
        *self
    }
}

impl DeepView for ToolKind {
    type V = ToolKind;

    open spec fn deep_view(&self) -> ToolKind {
        *self
    }
}

/// What a call asks for.
#[allow(inconsistent_fields)]
#[derive(Debug, PartialEq, Eq)]
pub enum ToolRequest {
    /// A tool that there is none of.
    Unknown(String),
    /// Arguments that do not fit the tool, and why.
    Invalid(String),
    /// Read a file.
    Read { path: String },
    /// Write a file.
    Write { path: String, content: String },
    /// List a directory.
    List { path: String },
    /// Search files.
    Grep { pattern: String, path: String, case_insensitive: bool },
    /// Delete a file.
    Delete { path: String },
    /// Rename a file.
    Rename { from: String, to: String },
    /// Run a command.
    Shell { command: String },
}

/// Model of [`ToolRequest`].
#[allow(inconsistent_fields)]
pub enum ToolRequestV {
    Unknown(Seq<char>),
    Invalid(Seq<char>),
    Read { path: Seq<char> },
    Write { path: Seq<char>, content: Seq<char> },
    List { path: Seq<char> },
    Grep { pattern: Seq<char>, path: Seq<char>, case_insensitive: bool },
    Delete { path: Seq<char> },
    Rename { from: Seq<char>, to: Seq<char> },
    Shell { command: Seq<char> },
}

impl View for ToolRequest {
    type V = ToolRequestV;

    open spec fn view(&self) -> ToolRequestV {
        match self {
            ToolRequest::Unknown(x) => ToolRequestV::Unknown(x.deep_view()),
            ToolRequest::Invalid(x) => ToolRequestV::Invalid(x.deep_view()),
            ToolRequest::Read { path } => ToolRequestV::Read { path: path.deep_view() },
            ToolRequest::Write { path, content } => ToolRequestV::Write { path: path.deep_view(), content: content.deep_view() },
            ToolRequest::List { path } => ToolRequestV::List { path: path.deep_view() },
            ToolRequest::Grep { pattern, path, case_insensitive } => ToolRequestV::Grep { pattern: pattern.deep_view(), path: path.deep_view(), case_insensitive: case_insensitive.deep_view() },
            ToolRequest::Delete { path } => ToolRequestV::Delete { path: path.deep_view() },
            ToolRequest::Rename { from, to } => ToolRequestV::Rename { from: from.deep_view(), to: to.deep_view() },
            ToolRequest::Shell { command } => ToolRequestV::Shell { command: command.deep_view() },
        }
    }
}

impl DeepView for ToolRequest {
    type V = ToolRequestV;

    open spec fn deep_view(&self) -> ToolRequestV {
        self@
    }
}

/// What is to be done for a call.
#[derive(Debug, PartialEq, Eq)]
pub enum ToolStep {
    /// Nothing: it is refused.
    Refuse(String),
    /// What it asks for.
    Perform,
    /// Ask the user whether a command may run.
    Ask { command: String },
}

/// Model of [`ToolStep`].
pub enum ToolStepV {
    Refuse(Seq<char>),
    Perform,
    Ask { command: Seq<char> },
}

impl View for ToolStep {
    type V = ToolStepV;

    open spec fn view(&self) -> ToolStepV {
        match self {
            ToolStep::Refuse(x) => ToolStepV::Refuse(x.deep_view()),
            ToolStep::Perform => ToolStepV::Perform,
            ToolStep::Ask { command } => ToolStepV::Ask { command: command.deep_view() },
        }
    }
}

impl DeepView for ToolStep {
    type V = ToolStepV;

    open spec fn deep_view(&self) -> ToolStepV {
        self@
    }
}

/// What is known of a file.
#[derive(Debug, PartialEq, Eq)]
pub struct FileStat {
    pub is_file: bool,
    pub is_dir: bool,
    pub len: u64,
}

/// Model of [`FileStat`].
pub struct FileStatV {
    pub is_file: bool,
    pub is_dir: bool,
    pub len: u64,
}

impl View for FileStat {
    type V = FileStatV;

    open spec fn view(&self) -> FileStatV {
        FileStatV {
            is_file: self.is_file.deep_view(),
            is_dir: self.is_dir.deep_view(),
            len: self.len.deep_view(),
        }
    }
}

impl DeepView for FileStat {
    type V = FileStatV;

    open spec fn deep_view(&self) -> FileStatV {
        self@
    }
}

/// What a directory entry is.
#[derive(Debug, Clone, Copy, PartialEq, Eq, Structural)]
pub enum EntryKind {
    Dir,
    File,
    Symlink,
    Other,
}

impl View for EntryKind {
    type V = EntryKind;

    open spec fn view(&self) -> EntryKind {
        *self
    }
}

impl DeepView for EntryKind {
    type V = EntryKind;

    open spec fn deep_view(&self) -> EntryKind {
        *self
    }
}

/// An entry of a directory.
#[derive(Debug, PartialEq, Eq)]
pub struct ListEntry {
    pub name: String,
    pub kind: EntryKind,
    /// The size of a file, where it is known.
    pub size: Option<u64>,
}

/// Model of [`ListEntry`].
pub struct ListEntryV {
    pub name: Seq<char>,
    pub kind: EntryKind,
    pub size: Option<u64>,
}

impl View for ListEntry {
    type V = ListEntryV;

    open spec fn view(&self) -> ListEntryV {
        ListEntryV {
            name: self.name.deep_view(),
            kind: self.kind.deep_view(),
            size: self.size.deep_view(),
        }
    }
}

impl DeepView for ListEntry {
    type V = ListEntryV;

    open spec fn deep_view(&self) -> ListEntryV {
        self@
    }
}

/// What a call comes to.
#[derive(Debug, PartialEq, Eq)]
pub struct ToolAnswer {
    pub text: String,
    pub is_error: bool,
    /// The changed files that a snapshot is to be taken of.
    pub snapshot: Option<Vec<String>>,
}

/// Model of [`ToolAnswer`].
pub struct ToolAnswerV {
    pub text: Seq<char>,
    pub is_error: bool,
    pub snapshot: Option<Seq<Seq<char>>>,
}

impl View for ToolAnswer {
    type V = ToolAnswerV;

    open spec fn view(&self) -> ToolAnswerV {
        ToolAnswerV {
            text: self.text.deep_view(),
            is_error: self.is_error.deep_view(),
            snapshot: self.snapshot.deep_view(),
        }
    }
}

impl DeepView for ToolAnswer {
    type V = ToolAnswerV;

    open spec fn deep_view(&self) -> ToolAnswerV {
        self@
    }
}

/// A line that matches.
#[derive(Debug, PartialEq, Eq)]
pub struct GrepMatch {
    pub path: String,
    pub line: u64,
    pub text: String,
}

/// Model of [`GrepMatch`].
pub struct GrepMatchV {
    pub path: Seq<char>,
    pub line: u64,
    pub text: Seq<char>,
}

impl View for GrepMatch {
    type V = GrepMatchV;

    open spec fn view(&self) -> GrepMatchV {
        GrepMatchV {
            path: self.path.deep_view(),
            line: self.line.deep_view(),
            text: self.text.deep_view(),
        }
    }
}

impl DeepView for GrepMatch {
    type V = GrepMatchV;

    open spec fn deep_view(&self) -> GrepMatchV {
        self@
    }
}

/// A search under way.
#[derive(Debug, PartialEq, Eq)]
pub struct GrepRun {
    pub pattern: String,
    pub case_insensitive: bool,
    pub files_scanned: usize,
    pub truncated: bool,
    pub matches: Vec<GrepMatch>,
    /// Nothing more is looked into.
    pub done: bool,
}

/// Model of [`GrepRun`].
pub struct GrepRunV {
    pub pattern: Seq<char>,
    pub case_insensitive: bool,
    pub files_scanned: usize,
    pub truncated: bool,
    pub matches: Seq<GrepMatchV>,
    pub done: bool,
}

impl View for GrepRun {
    type V = GrepRunV;

    open spec fn view(&self) -> GrepRunV {
        GrepRunV {
            pattern: self.pattern.deep_view(),
            case_insensitive: self.case_insensitive.deep_view(),
            files_scanned: self.files_scanned.deep_view(),
            truncated: self.truncated.deep_view(),
            matches: self.matches.deep_view(),
            done: self.done.deep_view(),
        }
    }
}

impl DeepView for GrepRun {
    type V = GrepRunV;

    open spec fn deep_view(&self) -> GrepRunV {
        self@
    }
}

/// The tool of a name.
pub open spec fn tool_named(name: Seq<char>) -> Option<ToolKind> {
    if name == "read_file"@ {
        Some(ToolKind::ReadFile)
    } else if name == "write_file"@ {
        Some(ToolKind::WriteFile)
    } else if name == "list_dir"@ {
        Some(ToolKind::ListDir)
    } else if name == "grep_dir"@ {
        Some(ToolKind::GrepDir)
    } else if name == "delete_file"@ {
        Some(ToolKind::DeleteFile)
    } else if name == "rename"@ {
        Some(ToolKind::Rename)
    } else if name == "run_shell"@ {
        Some(ToolKind::RunShell)
    } else {
        None
    }
}

/// The tool of a name.
pub fn find_tool(name: &str) -> (r: Option<ToolKind>)
    ensures
        r == tool_named(name@),
{
    if str_eq(name, "read_file") {
        Some(ToolKind::ReadFile)
    } else if str_eq(name, "write_file") {
        Some(ToolKind::WriteFile)
    } else if str_eq(name, "list_dir") {
        Some(ToolKind::ListDir)
    } else if str_eq(name, "grep_dir") {
        Some(ToolKind::GrepDir)
    } else if str_eq(name, "delete_file") {
        Some(ToolKind::DeleteFile)
    } else if str_eq(name, "rename") {
        Some(ToolKind::Rename)
    } else if str_eq(name, "run_shell") {
        Some(ToolKind::RunShell)
    } else {
        None
    }
}

/// What is to be done for a call. A command runs only after someone approved it:
/// where nobody can, it is refused.
pub open spec fn first_step(request: ToolRequestV, has_approver: bool) -> ToolStepV {
    match request {
        ToolRequestV::Unknown(name) => ToolStepV::Refuse("unknown tool: "@ + name),
        ToolRequestV::Invalid(e) => ToolStepV::Refuse("invalid params: "@ + e),
        ToolRequestV::Shell { command } => if trimmed(command).len() == 0 {
            ToolStepV::Refuse("empty command"@)
        } else if !has_approver {
            ToolStepV::Refuse(
                "shell execution is unavailable: no approval channel is configured for this session"@,
            )
        } else {
            ToolStepV::Ask { command: trimmed(command) }
        },
        _ => ToolStepV::Perform,
    }
}

/// What is to be done for a call.
pub fn begin_tool(request: &ToolRequest, has_approver: bool) -> (r: ToolStep)
    ensures
        r@ == first_step(request@, has_approver),
{
    match request {
        ToolRequest::Unknown(name) => ToolStep::Refuse(cat("unknown tool: ", name.as_str())),
        ToolRequest::Invalid(e) => ToolStep::Refuse(cat("invalid params: ", e.as_str())),
        ToolRequest::Shell { command } => {
            if is_blank(command.as_str()) {
                ToolStep::Refuse("empty command".to_owned())
            } else if !has_approver {
                ToolStep::Refuse(
                    "shell execution is unavailable: no approval channel is configured for this session".to_owned(),
                )
            } else {
                ToolStep::Ask { command: trim(command.as_str()) }
            }
        },
        _ => ToolStep::Perform,
    }
}

/// What the model is told where a command may not run.
pub open spec fn shell_refusal(approval: ShellApproval) -> Option<Seq<char>> {
    match approval {
        ShellApproval::Allow => None,
        ShellApproval::Reject => Some("command was rejected by the user"@),
        ShellApproval::TimedOut => Some("shell approval timed out waiting for user"@),
    }
}

/// What the model is told where a command may not run; `None` where it may.
pub fn refuse_shell(approval: ShellApproval) -> (r: Option<String>)
    ensures
        r.deep_view() == shell_refusal(approval),
{
    match approval {
        ShellApproval::Allow => None,
        ShellApproval::Reject => Some("command was rejected by the user".to_owned()),
        ShellApproval::TimedOut => Some("shell approval timed out waiting for user".to_owned()),
    }
}

/// No command runs without a word of the user.
pub proof fn commands_need_approval(command: Seq<char>, has_approver: bool)
    ensures
        first_step(ToolRequestV::Shell { command }, has_approver) !is Perform,
        first_step(ToolRequestV::Shell { command }, false) is Refuse,
{
}

/// The files that a successful call changed.
pub open spec fn changed_files(request: ToolRequestV) -> Seq<Seq<char>> {
    match request {
        ToolRequestV::Write { path, .. } => Seq::empty().push(path),
        ToolRequestV::Delete { path } => Seq::empty().push(path),
        ToolRequestV::Rename { from, to } => Seq::empty().push(from).push(to),
        _ => Seq::empty(),
    }
}

fn list_changes(request: &ToolRequest) -> (r: Vec<String>)
    ensures
        r.deep_view() == changed_files(request@),
{
    let mut v: Vec<String> = Vec::new();
    match request {
        ToolRequest::Write { path, .. } => {
            v.push(path.clone());
        },
        ToolRequest::Delete { path } => {
            v.push(path.clone());
        },
        ToolRequest::Rename { from, to } => {
            v.push(from.clone());
            v.push(to.clone());
        },
        _ => {},
    }
    assert(v.deep_view() =~= changed_files(request@));
    v
}

/// What a call comes to. `done` is what it returned and whether that is an error, or
/// why it failed. A snapshot is taken of what a successful call changed, where the
/// call can be named and snapshots are kept.
pub open spec fn settled(
    request: ToolRequestV,
    done: Result<(Seq<char>, bool), Seq<char>>,
    has_call_id: bool,
    has_hook: bool,
) -> ToolAnswerV {
    match done {
        Ok((text, false)) => ToolAnswerV {
            text,
            is_error: false,
            snapshot: if changed_files(request).len() > 0 && has_call_id && has_hook {
                Some(changed_files(request))
            } else {
                None
            },
        },
        Ok((text, true)) => ToolAnswerV { text, is_error: true, snapshot: None },
        Err(e) => ToolAnswerV { text: e, is_error: true, snapshot: None },
    }
}

/// What a call comes to.
pub fn settle(
    request: &ToolRequest,
    done: Result<(String, bool), String>,
    has_call_id: bool,
    has_hook: bool,
) -> (r: ToolAnswer)
    ensures
        r@ == settled(request@, outcome(done), has_call_id, has_hook),
{
    match done {
        Ok((text, is_error)) => {
            if is_error {
                return ToolAnswer { text, is_error: true, snapshot: None };
            }
            let changed = list_changes(request);
            let snapshot = if changed.len() > 0 && has_call_id && has_hook {
                Some(changed)
            } else {
                None
            };
            ToolAnswer { text, is_error: false, snapshot }
        },
        Err(e) => ToolAnswer { text: e, is_error: true, snapshot: None },
    }
}

/// Only writing, deleting and renaming leave a snapshot, and only where they succeed.
pub proof fn only_changes_are_kept(
    request: ToolRequestV,
    done: Result<(Seq<char>, bool), Seq<char>>,
    has_call_id: bool,
    has_hook: bool,
)
    ensures
        settled(request, done, has_call_id, has_hook).snapshot is Some <==> {
            &&& request is Write || request is Delete || request is Rename
            &&& done matches Ok((_, e)) && !e
            &&& has_call_id
            &&& has_hook
        },
        settled(request, done, has_call_id, has_hook).is_error == settled(
            request,
            done,
            false,
            false,
        ).is_error,
        settled(request, done, has_call_id, has_hook).text == settled(
            request,
            done,
            false,
            false,
        ).text,
{
}

/// Why a file is not read.
pub open spec fn read_refusal(
    rel: Seq<char>,
    stat: Result<FileStatV, Seq<char>>,
) -> Option<Seq<char>> {
    match stat {
        Err(e) => Some("stat failed: "@ + e),
        Ok(s) => if !s.is_file {
            Some("not a regular file: "@ + rel)
        } else if s.len > MAX_READ_BYTES {
            Some(
                "file too large ("@ + dec(s.len as nat) + " bytes; cap is "@ + dec(
                    MAX_READ_BYTES as nat,
                ) + ")"@,
            )
        } else {
            None
        },
    }
}

/// Why a file is not read; `None` where it is.
pub fn refuse_read(rel: &str, stat: &Result<FileStat, String>) -> (r: Option<String>)
    ensures
        r.deep_view() == read_refusal(rel@, outcome(*stat)),
{
    match stat {
        Err(e) => Some(cat("stat failed: ", e.as_str())),
        Ok(s) => {
            if !s.is_file {
                Some(cat("not a regular file: ", rel))
            } else if s.len > MAX_READ_BYTES {
                let n = u64_dec(s.len);
                let m = u64_dec(MAX_READ_BYTES);
                Some(cat5("file too large (", n.as_str(), " bytes; cap is ", m.as_str(), ")"))
            } else {
                None
            }
        },
    }
}

/// `String::from_utf8` of std: the text that bytes encode, where they are UTF-8.
#[verifier::external_body]
fn from_utf8(bytes: &Vec<u8>) -> (r: Option<String>)
    ensures
        match r {
            Some(s) => valid_utf8(bytes@) && s@ == decode_utf8(bytes@),
            None => !valid_utf8(bytes@),
        },
{
    String::from_utf8(bytes.clone()).ok()
}

/// What the model gets of a file: its text, or its bytes in base64.
pub open spec fn shown_file(bytes: Seq<u8>) -> Seq<char> {
    if valid_utf8(bytes) {
        decode_utf8(bytes)
    } else {
        json_text(
            JsonV::Object(
                fields().push(("encoding"@, JsonV::Str("base64"@))).push(
                    ("content"@, JsonV::Str(base64_of(bytes))),
                ),
            ),
        )
    }
}

/// What the model gets of a file.
pub open spec fn read_of(bytes: Result<Seq<u8>, Seq<char>>) -> Result<Seq<char>, Seq<char>> {
    match bytes {
        Ok(b) => Ok(shown_file(b)),
        Err(e) => Err("read failed: "@ + e),
    }
}

/// What the model gets of a file.
pub fn show_file(bytes: &Result<Vec<u8>, String>) -> (r: Result<String, String>)
    ensures
        outcome(r) == read_of(
            match *bytes {
                Ok(b) => Ok(b@),
                Err(e) => Err(e@),
            },
        ),
{
    match bytes {
        Ok(b) => match from_utf8(b) {
            Some(s) => Ok(s),
            None => {
                let content = base64_encode(b.as_slice());
                let j = Obj::new().put_str("encoding", "base64").put_str("content", content.as_str()).build();
                Ok(j.to_text())
            },
        },
        Err(e) => Err(cat("read failed: ", e.as_str())),
    }
}

/// What was written as text is read as that text.
pub proof fn written_text_reads_back(content: Seq<char>)
    ensures
        read_of(Ok(encode_utf8(content))) == Ok::<Seq<char>, Seq<char>>(content),
{
    vstd::utf8::encode_utf8_valid_utf8(content);
    vstd::utf8::encode_utf8_decode_utf8(content);
}

/// What becomes of a write: the directories were made or not, the file was written or
/// not.
pub open spec fn write_of(
    rel: Seq<char>,
    content: Seq<char>,
    made: Option<Seq<char>>,
    written: Option<Seq<char>>,
) -> Result<Seq<char>, Seq<char>> {
    if made is Some {
        Err("mkdir failed: "@ + made->0)
    } else if written is Some {
        Err("write failed: "@ + written->0)
    } else {
        Ok("wrote "@ + dec(encode_utf8(content).len()) + " bytes to "@ + rel)
    }
}

/// What becomes of a write, given what failed.
pub fn report_write(rel: &str, content: &str, made: Option<&str>, written: Option<&str>) -> (r: Result<
    String,
    String,
>)
    ensures
        outcome(r) == write_of(rel@, content@, opt_str(made), opt_str(written)),
{
    match made {
        Some(e) => Err(cat("mkdir failed: ", e)),
        None => match written {
            Some(e) => Err(cat("write failed: ", e)),
            None => {
                let n = u64_dec(content.as_bytes().len() as u64);
                Ok(cat4("wrote ", n.as_str(), " bytes to ", rel))
            },
        },
    }
}

/// Why a file is not deleted.
pub open spec fn delete_refusal(
    rel: Seq<char>,
    stat: Result<FileStatV, Seq<char>>,
) -> Option<Seq<char>> {
    match stat {
        Err(e) => Some("stat failed: "@ + e),
        Ok(s) => if !s.is_file {
            Some("not a regular file: "@ + rel)
        } else {
            None
        },
    }
}

/// Why a file is not deleted; `None` where it is.
pub fn refuse_delete(rel: &str, stat: &Result<FileStat, String>) -> (r: Option<String>)
    ensures
        r.deep_view() == delete_refusal(rel@, outcome(*stat)),
{
    match stat {
        Err(e) => Some(cat("stat failed: ", e.as_str())),
        Ok(s) => {
            if !s.is_file {
                Some(cat("not a regular file: ", rel))
            } else {
                None
            }
        },
    }
}

/// What becomes of a deletion.
pub fn report_delete(rel: &str, failed: Option<&str>) -> (r: Result<String, String>)
    ensures
        outcome(r) == (match opt_str(failed) {
            Some(e) => Err::<Seq<char>, Seq<char>>("remove failed: "@ + e),
            None => Ok("deleted "@ + rel@),
        }),
{
    match failed {
        Some(e) => Err(cat("remove failed: ", e)),
        None => Ok(cat("deleted ", rel)),
    }
}

/// What becomes of a renaming: the directories were made or not, the file was moved
/// or not.
pub open spec fn rename_of(
    from: Seq<char>,
    to: Seq<char>,
    made: Option<Seq<char>>,
    moved: Option<Seq<char>>,
) -> Result<Seq<char>, Seq<char>> {
    if made is Some {
        Err("mkdir failed: "@ + made->0)
    } else if moved is Some {
        Err("rename failed: "@ + moved->0)
    } else {
        Ok("renamed "@ + from + " -> "@ + to)
    }
}

/// What becomes of a renaming, given what failed.
pub fn report_rename(from: &str, to: &str, made: Option<&str>, moved: Option<&str>) -> (r: Result<
    String,
    String,
>)
    ensures
        outcome(r) == rename_of(from@, to@, opt_str(made), opt_str(moved)),
{
    match made {
        Some(e) => Err(cat("mkdir failed: ", e)),
        None => match moved {
            Some(e) => Err(cat("rename failed: ", e)),
            None => Ok(cat4("renamed ", from, " -> ", to)),
        },
    }
}

/// Why a directory is not listed.
pub open spec fn list_refusal(
    rel: Seq<char>,
    stat: Result<FileStatV, Seq<char>>,
) -> Option<Seq<char>> {
    match stat {
        Err(e) => Some("stat failed: "@ + e),
        Ok(s) => if !s.is_dir {
            Some("not a directory: "@ + rel)
        } else {
            None
        },
    }
}

/// Why a directory is not listed; `None` where it is.
pub fn refuse_list(rel: &str, stat: &Result<FileStat, String>) -> (r: Option<String>)
    ensures
        r.deep_view() == list_refusal(rel@, outcome(*stat)),
{
    match stat {
        Err(e) => Some(cat("stat failed: ", e.as_str())),
        Ok(s) => {
            if !s.is_dir {
                Some(cat("not a directory: ", rel))
            } else {
                None
            }
        },
    }
}

/// The word for what an entry is.
pub open spec fn kind_word(kind: EntryKind) -> Seq<char> {
    match kind {
        EntryKind::Dir => "dir"@,
        EntryKind::File => "file"@,
        EntryKind::Symlink => "symlink"@,
        EntryKind::Other => "other"@,
    }
}

fn word_of(kind: EntryKind) -> (r: &'static str)
    ensures
        r@ == kind_word(kind),
{
    match kind {
        EntryKind::Dir => "dir",
        EntryKind::File => "file",
        EntryKind::Symlink => "symlink",
        EntryKind::Other => "other",
    }
}

/// An entry, as it is shown. Only files have a size.
pub open spec fn entry_v(e: ListEntryV) -> JsonV {
    JsonV::Object(
        fields().push(("name"@, JsonV::Str(e.name))).push(("type"@, JsonV::Str(kind_word(e.kind)))).push(
            (
                "size"@,
                match e.size {
                    Some(n) => if e.kind == EntryKind::File {
                        JsonV::Number(NumberV::Unsigned(n))
                    } else {
                        JsonV::Null
                    },
                    None => JsonV::Null,
                },
            ),
        ),
    )
}

impl ListEntry {
    /// The entry, as it is shown.
    pub fn to_json(&self) -> (r: Json)
        ensures
            r@ == entry_v(self@),
    {
        let size = match self.size {
            Some(n) => if self.kind == EntryKind::File {
                Json::number(n)
            } else {
                Json::Null
            },
            None => Json::Null,
        };
        Obj::new().put_str("name", self.name.as_str()).put_str("type", word_of(self.kind)).put(
            "size",
            size,
        ).build()
    }
}

/// The first entries of a directory, as many as are shown.
pub open spec fn shown_entries(entries: Seq<ListEntryV>) -> Seq<JsonV> {
    let n = if entries.len() > MAX_LIST_ENTRIES {
        MAX_LIST_ENTRIES as nat
    } else {
        entries.len()
    };
    Seq::new(n, |i: int| entry_v(entries[i]))
}

/// A listing, as it is shown.
pub open spec fn listing_v(rel: Seq<char>, entries: Seq<ListEntryV>) -> JsonV {
    JsonV::Object(
        fields().push(
            (
                "path"@,
                JsonV::Str(
                    if trimmed(rel).len() == 0 {
                        "."@
                    } else {
                        rel
                    },
                ),
            ),
        ).push(("truncated"@, JsonV::Bool(entries.len() > MAX_LIST_ENTRIES))).push(
            ("entries"@, JsonV::Array(shown_entries(entries))),
        ),
    )
}

/// Why a directory could not be listed.
#[derive(Debug, PartialEq, Eq)]
pub enum ListFailure {
    /// Its entries could not be read.
    Entries(String),
    /// Of an entry it could not be told what it is.
    Kind(String),
}

/// Model of [`ListFailure`].
pub enum ListFailureV {
    Entries(Seq<char>),
    Kind(Seq<char>),
}

impl View for ListFailure {
    type V = ListFailureV;

    open spec fn view(&self) -> ListFailureV {
        match self {
            ListFailure::Entries(e) => ListFailureV::Entries(e.deep_view()),
            ListFailure::Kind(e) => ListFailureV::Kind(e.deep_view()),
        }
    }
}

impl DeepView for ListFailure {
    type V = ListFailureV;

    open spec fn deep_view(&self) -> ListFailureV {
        self@
    }
}

/// What becomes of a listing: its text, or why the directory could not be read.
pub open spec fn listing_of(
    rel: Seq<char>,
    entries: Result<Seq<ListEntryV>, ListFailureV>,
) -> Result<Seq<char>, Seq<char>> {
    match entries {
        Ok(e) => Ok(json_text(listing_v(rel, e))),
        Err(ListFailureV::Entries(e)) => Err("readdir failed: "@ + e),
        Err(ListFailureV::Kind(e)) => Err("file_type failed: "@ + e),
    }
}

/// What becomes of a listing, given the entries in the order in which they were read.
/// Of more entries than are shown it is enough to give one.
pub fn report_list(rel: &str, entries: &Result<Vec<ListEntry>, ListFailure>) -> (r: Result<String, String>)
    ensures
        outcome(r) == listing_of(rel@, outcome(*entries)),
{
    match entries {
        Ok(v) => {
            let mut shown: Vec<Json> = Vec::new();
            let mut i: usize = 0;
            while i < v.len() && i < MAX_LIST_ENTRIES
                invariant
                    i <= v.len(),
                    i <= MAX_LIST_ENTRIES,
                    shown.len() == i,
                    forall|k: int| 0 <= k < i ==> (#[trigger] shown@[k])@ == entry_v(v@[k]@),
                decreases v.len() - i,
            {
                shown.push(v[i].to_json());
                i += 1;
            }
            assert(trees(shown@) =~= shown_entries(v.deep_view()));
            let path = if is_blank(rel) {
                "."
            } else {
                rel
            };
            let j = Obj::new().put_str("path", path).put_bool("truncated", v.len() > MAX_LIST_ENTRIES).put(
                "entries",
                Json::array(shown),
            ).build();
            Ok(j.to_text())
        },
        Err(ListFailure::Entries(e)) => Err(cat("readdir failed: ", e.as_str())),
        Err(ListFailure::Kind(e)) => Err(cat("file_type failed: ", e.as_str())),
    }
}

/// A listing shows no more entries than it may, and says where there are more.
pub proof fn listings_are_bounded(rel: Seq<char>, entries: Seq<ListEntryV>)
    ensures
        shown_entries(entries).len() <= MAX_LIST_ENTRIES,
        shown_entries(entries).len() == entries.len() <==> entries.len() <= MAX_LIST_ENTRIES,
{
}

/// A line without the carriage return before its line feed.
pub open spec fn without_return(line: Seq<char>) -> Seq<char> {
    if line.len() > 0 && line.last() == '\r' {
        line.drop_last()
    } else {
        line
    }
}

/// The lines of a text. The last line feed ends a line and begins none.
pub open spec fn lines_of(s: Seq<char>) -> Seq<Seq<char>> {
    let p = pieces(s, '\n');
    let ended = Seq::new((p.len() - 1) as nat, |i: int| without_return(p[i]));
    if p.last().len() == 0 {
        ended
    } else {
        ended.push(p.last())
    }
}

/// The lines of a text.
pub fn split_lines(s: &str) -> (r: Vec<String>)
    ensures
        r.deep_view() == lines_of(s@),
{
    let p = split_char(s, '\n');
    let ghost pv = p.deep_view();
    proof {
        lemma_some_piece(s@, '\n');
    }
    let last: usize = p.len() - 1;
    let mut out: Vec<String> = Vec::new();
    let mut i: usize = 0;
    while i < last
        invariant
            i <= last < p.len(),
            pv == p.deep_view(),
            out.len() == i,
            forall|k: int| 0 <= k < i ==> (#[trigger] out@[k])@ == without_return(pv[k]),
        decreases last - i,
    {
        let v = chars_of(p[i].as_str());
        let line = if v.len() > 0 && v[v.len() - 1] == '\r' {
            let l = string_between(&v, 0, v.len() - 1);
            assert(l@ =~= pv[i as int].drop_last());
            l
        } else {
            p[i].clone()
        };
        out.push(line);
        i += 1;
    }
    let ghost ended = Seq::new((pv.len() - 1) as nat, |i: int| without_return(pv[i]));
    assert(out.deep_view() =~= ended);
    if !p[last].as_str().is_empty() {
        out.push(p[last].clone());
        assert(out.deep_view() =~= ended.push(pv.last()));
    }
    out
}

proof fn lemma_some_piece(s: Seq<char>, c: char)
    ensures
        pieces(s, c).len() > 0,
    decreases s.len(),
{
    if s.len() > 0 {
        lemma_some_piece(s.drop_last(), c);
    }
}

/// The words in which the `regex` crate refuses a pattern; `None` where it takes it.
pub uninterp spec fn regex_error(pattern: Seq<char>, case_insensitive: bool) -> Option<Seq<char>>;

/// Whether the `regex` crate finds a pattern in a text.
pub uninterp spec fn regex_matches(pattern: Seq<char>, case_insensitive: bool, text: Seq<char>) -> bool;

/// Builds a pattern with `regex::RegexBuilder` and asks `regex::Regex::is_match` of each
/// line: the answers, in order, or the words of the error that `build` returned. What
/// a pattern means is left to the crate.
#[verifier::external_body]
fn match_lines(pattern: &str, case_insensitive: bool, lines: &Vec<String>) -> (r: Result<Vec<bool>, String>)
    ensures
        match r {
            Ok(m) => {
                &&& regex_error(pattern@, case_insensitive) is None
                &&& m@.len() == lines@.len()
                &&& forall|i: int|
                    0 <= i < lines@.len() ==> #[trigger] m@[i] == regex_matches(
                        pattern@,
                        case_insensitive,
                        lines@[i]@,
                    )
            },
            Err(e) => regex_error(pattern@, case_insensitive) == Some(e@),
        },
{
    let built = regex::RegexBuilder::new(pattern).case_insensitive(case_insensitive).build();
    let re = built.map_err(|e| e.to_string())?;
    Ok(lines.iter().map(|line| re.is_match(line)).collect())
}

/// Which lines a pattern is found in; none where it is no pattern.
pub open spec fn hits(pattern: Seq<char>, case_insensitive: bool, lines: Seq<Seq<char>>) -> Seq<bool> {
    Seq::new(
        lines.len(),
        |i: int|
            regex_error(pattern, case_insensitive) is None && regex_matches(
                pattern,
                case_insensitive,
                lines[i],
            ),
    )
}

/// The matches in the first `n` lines of a file.
pub open spec fn found(path: Seq<char>, lines: Seq<Seq<char>>, hits: Seq<bool>, n: nat) -> Seq<
    GrepMatchV,
>
    decreases n,
{
    if n == 0 {
        Seq::empty()
    } else {
        let before = found(path, lines, hits, (n - 1) as nat);
        if hits[n - 1] {
            before.push(GrepMatchV { path, line: n as u64, text: lines[n - 1] })
        } else {
            before
        }
    }
}

/// A search after one more file, given which of its lines match. A file that cannot
/// be read counts and matches nowhere. Matches beyond the limit are left out, and the
/// search says so; with the limit reached it is over.
pub open spec fn searched(
    g: GrepRunV,
    path: Seq<char>,
    contents: Option<Seq<char>>,
    hits: Seq<bool>,
) -> GrepRunV {
    if g.done {
        g
    } else if g.files_scanned >= MAX_GREP_FILES {
        GrepRunV { truncated: true, done: true, ..g }
    } else {
        let counted = GrepRunV { files_scanned: (g.files_scanned + 1) as usize, ..g };
        match contents {
            None => counted,
            Some(c) => {
                let all = g.matches + found(path, lines_of(c), hits, lines_of(c).len());
                if all.len() > MAX_GREP_MATCHES {
                    GrepRunV {
                        matches: all.take(MAX_GREP_MATCHES as int),
                        truncated: true,
                        done: true,
                        ..counted
                    }
                } else {
                    GrepRunV { matches: all, done: all.len() >= MAX_GREP_MATCHES, ..counted }
                }
            },
        }
    }
}

/// A match, as it is shown.
pub open spec fn match_v(m: GrepMatchV) -> JsonV {
    JsonV::Object(
        fields().push(("path"@, JsonV::Str(m.path))).push(
            ("line"@, JsonV::Number(NumberV::Unsigned(m.line))),
        ).push(("text"@, JsonV::Str(m.text))),
    )
}

/// What a search found, as it is shown.
pub open spec fn search_v(g: GrepRunV) -> JsonV {
    JsonV::Object(
        fields().push(("pattern"@, JsonV::Str(g.pattern))).push(
            ("files_scanned"@, JsonV::Number(NumberV::Unsigned(g.files_scanned as u64))),
        ).push(("truncated"@, JsonV::Bool(g.truncated))).push(
            (
                "matches"@,
                JsonV::Array(Seq::new(g.matches.len(), |i: int| match_v(g.matches[i]))),
            ),
        ),
    )
}

impl GrepMatch {
    /// The match, as it is shown.
    pub fn to_json(&self) -> (r: Json)
        ensures
            r@ == match_v(self@),
    {
        Obj::new().put_str("path", self.path.as_str()).put("line", Json::number(self.line)).put_str(
            "text",
            self.text.as_str(),
        ).build()
    }
}

/// The model of a search that has not begun.
pub open spec fn fresh_search(pattern: Seq<char>, case_insensitive: bool) -> GrepRunV {
    GrepRunV {
        pattern,
        case_insensitive,
        files_scanned: 0,
        truncated: false,
        matches: Seq::empty(),
        done: false,
    }
}

impl GrepRunV {
    /// Whether a search stayed within its limits.
    pub open spec fn in_bounds(self) -> bool {
        &&& self.files_scanned <= MAX_GREP_FILES
        &&& self.matches.len() <= MAX_GREP_MATCHES
    }
}

impl GrepRun {
    /// A search for a pattern, or why it is none.
    pub fn start(pattern: &str, case_insensitive: bool) -> (r: Result<GrepRun, String>)
        ensures
            outcome(r) == (match regex_error(pattern@, case_insensitive) {
                Some(e) => Err::<GrepRunV, Seq<char>>("bad regex: "@ + e),
                None => Ok(fresh_search(pattern@, case_insensitive)),
            }),
    {
        let none: Vec<String> = Vec::new();
        match match_lines(pattern, case_insensitive, &none) {
            Err(e) => Err(cat("bad regex: ", e.as_str())),
            Ok(_) => {
                let matches: Vec<GrepMatch> = Vec::new();
                assert(matches.deep_view() =~= Seq::<GrepMatchV>::empty());
                Ok(
                    GrepRun {
                        pattern: pattern.to_owned(),
                        case_insensitive,
                        files_scanned: 0,
                        truncated: false,
                        matches,
                        done: false,
                    },
                )
            },
        }
    }

    /// Looks into a file; `None` for the contents of one that cannot be read.
    pub fn visit(&mut self, path: &str, contents: Option<&str>)
        requires
            old(self)@.in_bounds(),
        ensures
            final(self)@ == searched(
                old(self)@,
                path@,
                opt_str(contents),
                match opt_str(contents) {
                    Some(c) => hits(old(self)@.pattern, old(self)@.case_insensitive, lines_of(c)),
                    None => Seq::empty(),
                },
            ),
            final(self)@.in_bounds(),
    {
        let marks = match contents {
            None => Vec::new(),
            Some(c) => {
                let lines = split_lines(c);
                let ghost want = hits(self@.pattern, self@.case_insensitive, lines_of(c@));
                match match_lines(self.pattern.as_str(), self.case_insensitive, &lines) {
                    Ok(m) => {
                        assert(m@ =~= want);
                        m
                    },
                    Err(_) => {
                        let mut none: Vec<bool> = Vec::new();
                        let mut i: usize = 0;
                        while i < lines.len()
                            invariant
                                i <= lines.len(),
                                none.len() == i,
                                forall|k: int| 0 <= k < i ==> !(#[trigger] none@[k]),
                            decreases lines.len() - i,
                        {
                            none.push(false);
                            i += 1;
                        }
                        assert(none@ =~= want);
                        none
                    },
                }
            },
        };
        assert(contents is None ==> marks@ =~= Seq::<bool>::empty());
        self.note_file(path, contents, &marks);
    }

    /// Takes up a file, given which of its lines match.
    pub fn note_file(&mut self, path: &str, contents: Option<&str>, marks: &Vec<bool>)
        requires
            old(self)@.in_bounds(),
            contents is Some ==> marks@.len() == lines_of(contents->0@).len(),
        ensures
            final(self)@ == searched(old(self)@, path@, opt_str(contents), marks@),
            final(self)@.in_bounds(),
    {
        if self.done {
            return ;
        }
        if self.files_scanned >= MAX_GREP_FILES {
            self.truncated = true;
            self.done = true;
            return ;
        }
        self.files_scanned = self.files_scanned + 1;
        match contents {
            None => {},
            Some(c) => {
                let lines = split_lines(c);
                let ghost lv = lines.deep_view();
                let ghost mv = marks@;
                let ghost counted = self@;
                let ghost base = self@.matches;
                let mut i: usize = 0;
                assert(base + found(path@, lv, mv, 0) =~= base);
                while i < lines.len()
                    invariant
                        i <= lines.len(),
                        lv == lines.deep_view(),
                        lv == lines_of(c@),
                        mv == marks@,
                        marks.len() == lines.len(),
                        contents == Some(c),
                        base == old(self)@.matches,
                        counted == (GrepRunV {
                            files_scanned: (old(self)@.files_scanned + 1) as usize,
                            ..old(self)@
                        }),
                        old(self)@.in_bounds(),
                        !old(self)@.done,
                        old(self)@.files_scanned < MAX_GREP_FILES,
                        base.len() <= MAX_GREP_MATCHES,
                        self@ == (GrepRunV {
                            matches: base + found(path@, lv, mv, i as nat),
                            ..counted
                        }),
                        self@.matches.len() <= MAX_GREP_MATCHES,
                    decreases lines.len() - i,
                {
                    if marks[i] {
                        if self.matches.len() >= MAX_GREP_MATCHES {
                            self.truncated = true;
                            self.done = true;
                            proof {
                                lemma_found_grows(path@, lv, mv, i as nat + 1, lv.len());
                                let all = base + found(path@, lv, mv, lv.len());
                                let part = base + found(path@, lv, mv, i as nat);
                                lemma_found_grows(path@, lv, mv, i as nat, lv.len());
                                assert(all.take(MAX_GREP_MATCHES as int) =~= part);
                            }
                            return ;
                        }
                        let ghost before = self@.matches;
                        self.matches.push(
                            GrepMatch {
                                path: path.to_owned(),
                                line: i as u64 + 1,
                                text: lines[i].clone(),
                            },
                        );
                        proof {
                            let m = GrepMatchV {
                                path: path@,
                                line: (i + 1) as u64,
                                text: lv[i as int],
                            };
                            assert(self@.matches =~= before.push(m));
                            assert(base + found(path@, lv, mv, i as nat).push(m) =~= (base + found(
                                path@,
                                lv,
                                mv,
                                i as nat,
                            )).push(m));
                        }
                    }
                    i += 1;
                }
                if self.matches.len() >= MAX_GREP_MATCHES {
                    self.done = true;
                }
            },
        }
    }

    /// What the search found, as a JSON text.
    pub fn report(&self) -> (r: String)
        ensures
            r@ == json_text(search_v(self@)),
    {
        let mut all: Vec<Json> = Vec::new();
        let mut i: usize = 0;
        while i < self.matches.len()
            invariant
                i <= self.matches.len(),
                all.len() == i,
                forall|k: int| 0 <= k < i ==> (#[trigger] all@[k])@ == match_v(self.matches@[k]@),
            decreases self.matches.len() - i,
        {
            all.push(self.matches[i].to_json());
            i += 1;
        }
        assert(trees(all@) =~= Seq::new(self@.matches.len(), |i: int| match_v(self@.matches[i])));
        let j = Obj::new().put_str("pattern", self.pattern.as_str()).put(
            "files_scanned",
            Json::number(self.files_scanned as u64),
        ).put_bool("truncated", self.truncated).put("matches", Json::array(all)).build();
        j.to_text()
    }
}

proof fn lemma_found_grows(
    path: Seq<char>,
    lines: Seq<Seq<char>>,
    hits: Seq<bool>,
    i: nat,
    n: nat,
)
    requires
        i <= n,
    ensures
        found(path, lines, hits, i).len() <= found(path, lines, hits, n).len(),
        found(path, lines, hits, n).take(found(path, lines, hits, i).len() as int) == found(
            path,
            lines,
            hits,
            i,
        ),
    decreases n,
{
    let a = found(path, lines, hits, i);
    let b = found(path, lines, hits, n);
    if i < n {
        lemma_found_grows(path, lines, hits, i, (n - 1) as nat);
        let m = found(path, lines, hits, (n - 1) as nat);
        assert(b.take(a.len() as int) =~= m.take(a.len() as int));
    } else {
        assert(b.take(a.len() as int) =~= a);
    }
}

/// A search never reports more matches than it may, nor looks into more files.
pub proof fn searches_are_bounded(
    g: GrepRunV,
    path: Seq<char>,
    contents: Option<Seq<char>>,
    hits: Seq<bool>,
)
    requires
        g.in_bounds(),
    ensures
        searched(g, path, contents, hits).in_bounds(),
        g.done ==> searched(g, path, contents, hits) == g,
{
}

/// What a search has found, further files leave in place.
pub proof fn searches_keep_what_they_found(
    g: GrepRunV,
    path: Seq<char>,
    contents: Option<Seq<char>>,
    hits: Seq<bool>,
)
    requires
        g.in_bounds(),
    ensures
        g.matches.is_prefix_of(searched(g, path, contents, hits).matches),
{
}

} // verus!
