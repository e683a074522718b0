//! Shell commands on the user's machine: which shell runs them, what the model is told
//! of the outcome, and the prompts that tools put to the user.
use vstd::prelude::*;

use crate::json::{opt_str, Json, JsonV};
use crate::text::{
    ascii_lowercase, ascii_lowered, begins, cat, cat3, cat4, chars_of, contains, from_utf8_lossy, i64_dec,
    is_blank, lemma_not_blank, lossy_text, occurs, signed_dec, string_between, trim, trimmed,
};
use crate::types::copy_opt;

verus! {

/// How long a command may run, in seconds.
pub const SHELL_TIMEOUT_SECS: u64 = 120;

/// How many bytes of a report the model gets.
pub const MAX_SHELL_OUTPUT: usize = 1048576;

/// The variable that names a shell to use.
pub const SHELL_OVERRIDE_ENV: &'static str = "AIONUI_LOCAL_SHELL";

/// What a machine says of its shell.
#[derive(Debug, PartialEq, Eq)]
pub struct ShellEnv {
    pub windows: bool,
    /// The name of the operating system.
    pub os: String,
    /// The value of the overriding variable.
    pub override_shell: Option<String>,
    /// The login shell.
    pub shell: Option<String>,
    /// The command interpreter of Windows.
    pub comspec: Option<String>,
}

/// Model of [`ShellEnv`].
pub struct ShellEnvV {
    pub windows: bool,
    pub os: Seq<char>,
    pub override_shell: Option<Seq<char>>,
    pub shell: Option<Seq<char>>,
    pub comspec: Option<Seq<char>>,
}

impl View for ShellEnv {
    type V = ShellEnvV;

    open spec fn view(&self) -> ShellEnvV {
        ShellEnvV {
            windows: self.windows.deep_view(),
            os: self.os.deep_view(),
            override_shell: self.override_shell.deep_view(),
            shell: self.shell.deep_view(),
            comspec: self.comspec.deep_view(),
        }
    }
}

impl DeepView for ShellEnv {
    type V = ShellEnvV;

    open spec fn deep_view(&self) -> ShellEnvV {
        self@
    }
}

/// A shell: the program, and the flag that makes it run a command.
#[derive(Debug, PartialEq, Eq)]
pub struct ShellSpec {
    pub program: String,
    pub arg: String,
    /// `os/shell`, for people to read.
    pub label: String,
}

/// Model of [`ShellSpec`].
pub struct ShellSpecV {
    pub program: Seq<char>,
    pub arg: Seq<char>,
    pub label: Seq<char>,
}

impl View for ShellSpec {
    type V = ShellSpecV;

    open spec fn view(&self) -> ShellSpecV {
        ShellSpecV {
            program: self.program.deep_view(),
            arg: self.arg.deep_view(),
            label: self.label.deep_view(),
        }
    }
}

impl DeepView for ShellSpec {
    type V = ShellSpecV;

    open spec fn deep_view(&self) -> ShellSpecV {
        self@
    }
}

/// What became of a command.
#[derive(Debug, PartialEq, Eq)]
pub enum ShellRun {
    /// It ran too long.
    TimedOut,
    /// The shell did not start.
    LaunchFailed(String),
    /// It ended; without a code where a signal ended it.
    Ended { exit: Option<i32>, success: bool, stdout: Vec<u8>, stderr: Vec<u8> },
}

/// Model of [`ShellRun`].
pub enum ShellRunV {
    TimedOut,
    LaunchFailed(Seq<char>),
    Ended { exit: Option<i32>, success: bool, stdout: Seq<u8>, stderr: Seq<u8> },
}

impl View for ShellRun {
    type V = ShellRunV;

    open spec fn view(&self) -> ShellRunV {
        match self {
            ShellRun::TimedOut => ShellRunV::TimedOut,
            ShellRun::LaunchFailed(x) => ShellRunV::LaunchFailed(x.deep_view()),
            ShellRun::Ended { exit, success, stdout, stderr } => ShellRunV::Ended { exit: exit.deep_view(), success: success.deep_view(), stdout: stdout.deep_view(), stderr: stderr.deep_view() },
        }
    }
}

impl DeepView for ShellRun {
    type V = ShellRunV;

    open spec fn deep_view(&self) -> ShellRunV {
        self@
    }
}

/// The sessions that a tool call comes from.
#[derive(Debug, PartialEq, Eq)]
pub struct McpRequestContext {
    pub session_id: Option<String>,
    pub parent_session_id: Option<String>,
}

/// Model of [`McpRequestContext`].
pub struct McpRequestContextV {
    pub session_id: Option<Seq<char>>,
    pub parent_session_id: Option<Seq<char>>,
}

impl View for McpRequestContext {
    type V = McpRequestContextV;

    open spec fn view(&self) -> McpRequestContextV {
        McpRequestContextV {
            session_id: self.session_id.deep_view(),
            parent_session_id: self.parent_session_id.deep_view(),
        }
    }
}

impl DeepView for McpRequestContext {
    type V = McpRequestContextV;

    open spec fn deep_view(&self) -> McpRequestContextV {
        self@
    }
}

impl McpRequestContext {
    /// An equal value.
    pub fn copy(&self) -> (r: McpRequestContext)
        ensures
            r@ == self@,
    {
        McpRequestContext {
            session_id: copy_opt(&self.session_id),
            parent_session_id: copy_opt(&self.parent_session_id),
        }
    }
}

/// What a tool asks the user for.
#[derive(Debug, PartialEq, Eq)]
pub struct ElicitationRequest {
    pub tool_name: String,
    pub message: String,
    /// The shape of the answer; free text where there is none.
    pub requested_schema: Option<Json>,
}

/// Model of [`ElicitationRequest`].
pub struct ElicitationRequestV {
    pub tool_name: Seq<char>,
    pub message: Seq<char>,
    pub requested_schema: Option<JsonV>,
}

impl View for ElicitationRequest {
    type V = ElicitationRequestV;

    open spec fn view(&self) -> ElicitationRequestV {
        ElicitationRequestV {
            tool_name: self.tool_name.deep_view(),
            message: self.message.deep_view(),
            requested_schema: self.requested_schema.deep_view(),
        }
    }
}

impl DeepView for ElicitationRequest {
    type V = ElicitationRequestV;

    open spec fn deep_view(&self) -> ElicitationRequestV {
        self@
    }
}

/// What the user answered.
#[derive(Debug, PartialEq, Eq)]
pub enum ElicitationOutcome {
    /// The answer.
    Accepted(Json),
    /// The user gave none.
    Declined,
}

/// Model of [`ElicitationOutcome`].
pub enum ElicitationOutcomeV {
    Accepted(JsonV),
    Declined,
}

impl View for ElicitationOutcome {
    type V = ElicitationOutcomeV;

    open spec fn view(&self) -> ElicitationOutcomeV {
        match self {
            ElicitationOutcome::Accepted(x) => ElicitationOutcomeV::Accepted(x.deep_view()),
            ElicitationOutcome::Declined => ElicitationOutcomeV::Declined,
        }
    }
}

impl DeepView for ElicitationOutcome {
    type V = ElicitationOutcomeV;

    open spec fn deep_view(&self) -> ElicitationOutcomeV {
        self@
    }
}

/// The final component of a path, whichever separator it is written with.
pub open spec fn base_of(path: Seq<char>) -> Seq<char> {
    path.skip(last_separator(path, path.len()))
}

/// The place right behind the last separator among the first `n` characters; 0
/// where there is none.
pub open spec fn last_separator(path: Seq<char>, n: nat) -> int
    decreases n,
{
    if n == 0 {
        0
    } else if path[n - 1] == '/' || path[n - 1] == '\\' {
        n as int
    } else {
        last_separator(path, (n - 1) as nat)
    }
}

/// The final component of a path, whichever separator it is written with.
pub fn basename(path: &str) -> (r: String)
    ensures
        r@ == base_of(path@),
{
    let v = chars_of(path);
    let mut n: usize = v.len();
    while n > 0 && v[n - 1] != '/' && v[n - 1] != '\\'
        invariant
            n <= v.len(),
            v@ == path@,
            last_separator(path@, path@.len()) == last_separator(path@, n as nat),
        decreases n,
    {
        n -= 1;
    }
    let r = string_between(&v, n, v.len());
    assert(r@ =~= path@.skip(n as int));
    r
}

/// A base name holds no separator.
pub proof fn base_names_hold_no_separator(path: Seq<char>, i: int)
    requires
        0 <= i < base_of(path).len(),
    ensures
        base_of(path)[i] != '/',
        base_of(path)[i] != '\\',
{
    lemma_behind_separator(path, path.len());
}

proof fn lemma_behind_separator(path: Seq<char>, n: nat)
    requires
        n <= path.len(),
    ensures
        0 <= last_separator(path, n) <= n,
        forall|k: int|
            last_separator(path, n) <= k < n ==> path[k] != '/' && #[trigger] path[k] != '\\',
    decreases n,
{
    if n > 0 && path[n - 1] != '/' && path[n - 1] != '\\' {
        lemma_behind_separator(path, (n - 1) as nat);
    }
}

/// A setting that is there and not blank.
pub open spec fn told(v: Option<Seq<char>>) -> Option<Seq<char>> {
    match v {
        Some(s) if trimmed(s).len() > 0 => Some(s),
        _ => None,
    }
}

fn get_told(v: &Option<String>) -> (r: Option<&str>)
    ensures
        opt_str(r) == told(v.deep_view()),
{
    match v {
        Some(s) => if is_blank(s.as_str()) {
            None
        } else {
            Some(s.as_str())
        },
        None => None,
    }
}

/// The shell of a machine. What the override names wins; on Windows it is a program
/// for which the flag fits, elsewhere the login shell is next.
pub open spec fn shell_of(env: ShellEnvV) -> ShellSpecV {
    if env.windows {
        match told(env.override_shell) {
            Some(c) => {
                let program = trimmed(c);
                let lower = ascii_lowered(program);
                ShellSpecV {
                    program,
                    arg: if occurs(lower, "powershell"@) || occurs(lower, "pwsh"@) {
                        "-Command"@
                    } else {
                        "/C"@
                    },
                    label: "windows/"@ + base_of(program),
                }
            },
            None => {
                let program = match told(env.comspec) {
                    Some(c) => c,
                    None => "cmd.exe"@,
                };
                ShellSpecV { program, arg: "/C"@, label: "windows/"@ + base_of(program) }
            },
        }
    } else {
        let program = match told(env.override_shell) {
            Some(c) => c,
            None => match told(env.shell) {
                Some(c) => c,
                None => "/bin/sh"@,
            },
        };
        ShellSpecV { program, arg: "-c"@, label: env.os + "/"@ + base_of(program) }
    }
}

/// The shell of a machine.
pub fn resolve_shell(env: &ShellEnv) -> (r: ShellSpec)
    ensures
        r@ == shell_of(env@),
{
    if env.windows {
        match get_told(&env.override_shell) {
            Some(c) => {
                let program = trim(c);
                let lower = ascii_lowercase(program.as_str());
                let arg = if contains(lower.as_str(), "powershell") || contains(
                    lower.as_str(),
                    "pwsh",
                ) {
                    "-Command"
                } else {
                    "/C"
                };
                let base = basename(program.as_str());
                ShellSpec { program, arg: arg.to_owned(), label: cat("windows/", base.as_str()) }
            },
            None => {
                let program = match get_told(&env.comspec) {
                    Some(c) => c,
                    None => "cmd.exe",
                };
                let base = basename(program);
                ShellSpec {
                    program: program.to_owned(),
                    arg: "/C".to_owned(),
                    label: cat("windows/", base.as_str()),
                }
            },
        }
    } else {
        let program = match get_told(&env.override_shell) {
            Some(c) => c,
            None => match get_told(&env.shell) {
                Some(c) => c,
                None => "/bin/sh",
            },
        };
        let base = basename(program);
        ShellSpec {
            program: program.to_owned(),
            arg: "-c".to_owned(),
            label: cat3(env.os.as_str(), "/", base.as_str()),
        }
    }
}

/// The label of a machine's shell, `os/shell`.
pub fn shell_hint(env: &ShellEnv) -> (r: String)
    ensures
        r@ == shell_of(env@).label,
{
    resolve_shell(env).label
}

/// How many bytes UTF-8 takes for a character.
pub open spec fn width(c: char) -> nat {
    if (c as u32) < 0x80 {
        1
    } else if (c as u32) < 0x800 {
        2
    } else if (c as u32) < 0x10000 {
        3
    } else {
        4
    }
}

/// How many bytes UTF-8 takes for a text.
pub open spec fn byte_len(s: Seq<char>) -> nat
    decreases s.len(),
{
    if s.len() == 0 {
        0
    } else {
        byte_len(s.drop_last()) + width(s.last())
    }
}

/// How many characters of a text fit in `max` bytes, given that its first `n` do.
pub open spec fn fitting(s: Seq<char>, max: nat, n: nat) -> nat
    decreases s.len() - n,
{
    if n >= s.len() || byte_len(s.take(n as int + 1)) > max {
        n
    } else {
        fitting(s, max, n + 1)
    }
}

/// The longest start of a text that fits in `max` bytes.
pub open spec fn byte_cut(s: Seq<char>, max: nat) -> Seq<char> {
    s.take(fitting(s, max, 0) as int)
}

fn char_width(c: char) -> (r: usize)
    ensures
        r == width(c),
{
    if (c as u32) < 0x80 {
        1
    } else if (c as u32) < 0x800 {
        2
    } else if (c as u32) < 0x10000 {
        3
    } else {
        4
    }
}

/// The longest start of a text that fits in `max` bytes; `None` where all of it does.
pub fn cut_to_bytes(s: &str, max: usize) -> (r: Option<String>)
    requires
        max <= usize::MAX - 4,
    ensures
        r.deep_view() == (if byte_len(s@) <= max {
            None
        } else {
            Some(byte_cut(s@, max as nat))
        }),
{
    let v = chars_of(s);
    let mut n: usize = 0;
    let mut used: usize = 0;
    assert(s@.take(0) =~= Seq::<char>::empty());
    while n < v.len()
        invariant
            n <= v.len(),
            v@ == s@,
            used <= max <= usize::MAX - 4,
            used == byte_len(s@.take(n as int)),
            fitting(s@, max as nat, 0) == fitting(s@, max as nat, n as nat),
        decreases v.len() - n,
    {
        let w: usize = char_width(v[n]);
        assert(s@.take(n as int + 1).drop_last() =~= s@.take(n as int));
        assert(s@.take(n as int + 1).last() == v@[n as int]);
        if used + w > max {
            proof {
                lemma_byte_len_grows(s@, n as int + 1);
            }
            let r = string_between(&v, 0, n);
            assert(r@ =~= s@.take(n as int));
            return Some(r);
        }
        used += w;
        n += 1;
    }
    assert(s@.take(n as int) =~= s@);
    None
}

proof fn lemma_byte_len_grows(s: Seq<char>, n: int)
    requires
        0 <= n <= s.len(),
    ensures
        byte_len(s.take(n)) <= byte_len(s),
    decreases s.len() - n,
{
    if n < s.len() {
        assert(s.take(n + 1).drop_last() =~= s.take(n));
        lemma_byte_len_grows(s, n + 1);
    } else {
        assert(s.take(n) =~= s);
    }
}

/// What is cut fits.
pub proof fn cut_text_fits(s: Seq<char>, max: nat)
    ensures
        byte_len(byte_cut(s, max)) <= max,
        begins(s, byte_cut(s, max)),
{
    assert(s.take(0) =~= Seq::<char>::empty());
    lemma_fitting(s, max, 0);
    assert(s.take(byte_cut(s, max).len() as int) =~= byte_cut(s, max));
}

proof fn lemma_fitting(s: Seq<char>, max: nat, n: nat)
    requires
        n <= s.len(),
        byte_len(s.take(n as int)) <= max,
    ensures
        n <= fitting(s, max, n) <= s.len(),
        byte_len(s.take(fitting(s, max, n) as int)) <= max,
    decreases s.len() - n,
{
    if n < s.len() && byte_len(s.take(n as int + 1)) <= max {
        lemma_fitting(s, max, n + 1);
    }
}

/// The section of a report that shows a stream; none where the stream is blank.
pub open spec fn section(title: Seq<char>, text: Seq<char>) -> Seq<char> {
    if trimmed(text).len() == 0 {
        Seq::empty()
    } else if text.last() == '\n' {
        title + text
    } else {
        title + text + "\n"@
    }
}

fn write_section(title: &str, text: &str) -> (r: String)
    ensures
        r@ == section(title@, text@),
{
    if is_blank(text) {
        let r = String::new();
        assert(r@ =~= Seq::<char>::empty());
        return r;
    }
    let v = chars_of(text);
    proof {
        lemma_not_blank(text@);
    }
    if v[v.len() - 1] == '\n' {
        cat(title, text)
    } else {
        cat3(title, text, "\n")
    }
}

/// How a command ended.
pub open spec fn exit_text(exit: Option<i32>) -> Seq<char> {
    match exit {
        Some(c) => signed_dec(c as int),
        None => "terminated by signal"@,
    }
}

/// The report on a command that ran, in full.
pub open spec fn full_report(exit: Option<i32>, stdout: Seq<char>, stderr: Seq<char>) -> Seq<char> {
    "exit code: "@ + exit_text(exit) + "\n"@ + section("--- stdout ---\n"@, stdout) + section(
        "--- stderr ---\n"@,
        stderr,
    )
}

/// The report with what is too long cut off.
pub open spec fn bounded(report: Seq<char>) -> Seq<char> {
    if byte_len(report) > MAX_SHELL_OUTPUT {
        byte_cut(report, MAX_SHELL_OUTPUT as nat) + "\n…[output truncated]"@
    } else {
        report
    }
}

/// What the model is told of a command, and whether that is an error.
pub open spec fn report_of(program: Seq<char>, run: ShellRunV) -> (Seq<char>, bool) {
    match run {
        ShellRunV::TimedOut => ("command timed out after 120s"@, true),
        ShellRunV::LaunchFailed(e) => (
            "failed to launch shell ("@ + program + "): "@ + e,
            true,
        ),
        ShellRunV::Ended { exit, success, stdout, stderr } => (
            bounded(full_report(exit, lossy_text(stdout), lossy_text(stderr))),
            !success,
        ),
    }
}

/// What the model is told of a command that ran, given what it wrote.
pub fn write_report(exit: Option<i32>, stdout: &str, stderr: &str) -> (r: String)
    ensures
        r@ == bounded(full_report(exit, stdout@, stderr@)),
{
    let code = match exit {
        Some(c) => i64_dec(c as i64),
        None => "terminated by signal".to_owned(),
    };
    let out = write_section("--- stdout ---\n", stdout);
    let err = write_section("--- stderr ---\n", stderr);
    let head = cat3("exit code: ", code.as_str(), "\n");
    let report = cat3(head.as_str(), out.as_str(), err.as_str());
    match cut_to_bytes(report.as_str(), MAX_SHELL_OUTPUT) {
        Some(c) => cat(c.as_str(), "\n…[output truncated]"),
        None => report,
    }
}

/// What the model is told of a command, and whether that is an error.
pub fn shell_report(program: &str, run: &ShellRun) -> (r: (String, bool))
    ensures
        r.deep_view() == report_of(program@, run@),
{
    match run {
        ShellRun::TimedOut => ("command timed out after 120s".to_owned(), true),
        ShellRun::LaunchFailed(e) => (
            cat4("failed to launch shell (", program, "): ", e.as_str()),
            true,
        ),
        ShellRun::Ended { exit, success, stdout, stderr } => {
            let out = from_utf8_lossy(stdout);
            let err = from_utf8_lossy(stderr);
            assert(stdout.deep_view() =~= stdout@);
            assert(stderr.deep_view() =~= stderr@);
            (write_report(*exit, out.as_str(), err.as_str()), !*success)
        },
    }
}

} // verus!
