//! What a remote agent remembers between events.
use vstd::prelude::*;

use crate::collections::assoc;
use crate::json::{Json, JsonV};
use crate::models::{AgentModeOption, AgentModeOptionV, RemoteSkillInfo, RemoteSkillInfoV};
use crate::question::{PendingQuestion, PendingQuestionV};
use crate::text::{begins, starts_with, str_eq, strip_prefix, trim_end_char, without_suffix_char};
use crate::types::{
    copy_opt, AgentStreamEventV, Confirmation, ConfirmationV, Effect, EffectV, RemoteAgentStatus,
};

verus! {

/// A slash command that the server offers.
#[derive(Debug, PartialEq, Eq)]
pub struct OpenCodeCommand {
    pub name: String,
    pub description: Option<String>,
    pub template: Option<String>,
    pub agent: Option<String>,
    pub model: Option<String>,
}

/// Model of [`OpenCodeCommand`].
pub struct OpenCodeCommandV {
    pub name: Seq<char>,
    pub description: Option<Seq<char>>,
    pub template: Option<Seq<char>>,
    pub agent: Option<Seq<char>>,
    pub model: Option<Seq<char>>,
}

impl View for OpenCodeCommand {
    type V = OpenCodeCommandV;

    open spec fn view(&self) -> OpenCodeCommandV {
        OpenCodeCommandV {
            name: self.name.deep_view(),
            description: self.description.deep_view(),
            template: self.template.deep_view(),
            agent: self.agent.deep_view(),
            model: self.model.deep_view(),
        }
    }
}

impl DeepView for OpenCodeCommand {
    type V = OpenCodeCommandV;

    open spec fn deep_view(&self) -> OpenCodeCommandV {
        self@
    }
}

impl OpenCodeCommand {
    /// An equal value.
    pub fn copy(&self) -> (r: OpenCodeCommand)
        ensures
            r@ == self@,
    {
        OpenCodeCommand {
            name: self.name.clone(),
            description: copy_opt(&self.description),
            template: copy_opt(&self.template),
            agent: copy_opt(&self.agent),
            model: copy_opt(&self.model),
        }
    }
}

/// Equal values, in the same order.
pub fn copy_open_code_commands(v: &Vec<OpenCodeCommand>) -> (r: Vec<OpenCodeCommand>)
    ensures
        r.deep_view() == v.deep_view(),
{
    let mut out: Vec<OpenCodeCommand> = Vec::new();
    let mut i: usize = 0;
    while i < v.len()
        invariant
            i <= v.len(),
            out.len() == i,
            forall|k: int| 0 <= k < i ==> (#[trigger] out@[k]).deep_view() == v@[k].deep_view(),
        decreases v.len() - i,
    {
        out.push(v[i].copy());
        i += 1;
    }
    assert(out.deep_view() =~= v.deep_view());
    out
}

/// Streamed text of one part that has not been told yet.
#[derive(Debug, PartialEq, Eq)]
pub struct PendingDelta {
    pub message_id: String,
    pub part_id: String,
    pub reasoning: bool,
    pub content: String,
}

/// Model of [`PendingDelta`].
pub struct PendingDeltaV {
    pub message_id: Seq<char>,
    pub part_id: Seq<char>,
    pub reasoning: bool,
    pub content: Seq<char>,
}

impl View for PendingDelta {
    type V = PendingDeltaV;

    open spec fn view(&self) -> PendingDeltaV {
        PendingDeltaV {
            message_id: self.message_id.deep_view(),
            part_id: self.part_id.deep_view(),
            reasoning: self.reasoning.deep_view(),
            content: self.content.deep_view(),
        }
    }
}

impl DeepView for PendingDelta {
    type V = PendingDeltaV;

    open spec fn deep_view(&self) -> PendingDeltaV {
        self@
    }
}

/// What an "always" approval covers.
#[derive(Debug, PartialEq, Eq)]
pub struct ApprovalKey {
    pub action: Option<String>,
    pub command_type: Option<String>,
}

/// Model of [`ApprovalKey`].
pub struct ApprovalKeyV {
    pub action: Option<Seq<char>>,
    pub command_type: Option<Seq<char>>,
}

impl View for ApprovalKey {
    type V = ApprovalKeyV;

    open spec fn view(&self) -> ApprovalKeyV {
        ApprovalKeyV {
            action: self.action.deep_view(),
            command_type: self.command_type.deep_view(),
        }
    }
}

impl DeepView for ApprovalKey {
    type V = ApprovalKeyV;

    open spec fn deep_view(&self) -> ApprovalKeyV {
        self@
    }
}

/// The state of a remote agent.
#[derive(Debug, PartialEq, Eq)]
pub struct RemoteState {
    pub session_key: Option<String>,
    /// The confirmations that wait for the user, oldest first.
    pub confirmations: Vec<Confirmation>,
    pub has_messages: bool,
    /// Whether the root session produces a turn that no `Finish` has ended yet.
    pub root_turn_active: bool,
    /// Whether the turn that the user asked for last has ended; until the next
    /// prompt the root session cannot start another.
    pub finished_current_user_turn: bool,
    /// What the user approved for the rest of the session.
    pub approval_memory: Vec<ApprovalKey>,
    pub connection_status: RemoteAgentStatus,
    /// The root session on the server.
    pub opencode_session_id: Option<String>,
    /// The parts whose text is reasoning.
    pub reasoning_parts: Vec<String>,
    /// The messages whose model has been told.
    pub model_info_emitted: Vec<String>,
    pub desired_model: Option<Json>,
    pub desired_agent: Option<String>,
    pub opencode_commands: Option<Vec<OpenCodeCommand>>,
    pub opencode_agents: Option<Vec<AgentModeOption>>,
    pub opencode_skills: Option<Vec<RemoteSkillInfo>>,
    pub model_context_limits: Option<Vec<(String, u64)>>,
    /// The parked shell commands, by the id of their confirmation.
    pub pending_shell_approvals: Vec<String>,
    /// The parked elicitations, by the id of their confirmation.
    pub pending_elicitations: Vec<String>,
    /// Answered permission requests, each with the time of the answer.
    pub recently_replied_permissions: Vec<(String, i64)>,
    /// The directory trees in which the user allows everything.
    pub auto_accept_paths: Vec<String>,
    /// The sessions to which the user allows everything.
    pub auto_accept_sessions: Vec<String>,
    /// The tool calls that have been announced.
    pub opencode_tool_call_ids: Vec<String>,
    /// The sub-agent sessions, each with its parent.
    pub child_sessions: Vec<(String, String)>,
    /// When each sub-agent's progress was told last.
    pub last_subtask_progress_ms: Vec<(String, i64)>,
    /// The questions whose answers are being gathered.
    pub pending_questions: Vec<PendingQuestion>,
    /// Answered questions, each with the time of the answer.
    pub recently_replied_questions: Vec<(String, i64)>,
    /// Streamed text that has not been told yet, oldest first.
    pub pending_deltas: Vec<PendingDelta>,
}

/// Model of [`RemoteState`].
pub struct RemoteStateV {
    pub session_key: Option<Seq<char>>,
    pub confirmations: Seq<ConfirmationV>,
    pub has_messages: bool,
    pub root_turn_active: bool,
    pub finished_current_user_turn: bool,
    pub approval_memory: Seq<ApprovalKeyV>,
    pub connection_status: RemoteAgentStatus,
    pub opencode_session_id: Option<Seq<char>>,
    pub reasoning_parts: Seq<Seq<char>>,
    pub model_info_emitted: Seq<Seq<char>>,
    pub desired_model: Option<JsonV>,
    pub desired_agent: Option<Seq<char>>,
    pub opencode_commands: Option<Seq<OpenCodeCommandV>>,
    pub opencode_agents: Option<Seq<AgentModeOptionV>>,
    pub opencode_skills: Option<Seq<RemoteSkillInfoV>>,
    pub model_context_limits: Option<Seq<(Seq<char>, u64)>>,
    pub pending_shell_approvals: Seq<Seq<char>>,
    pub pending_elicitations: Seq<Seq<char>>,
    pub recently_replied_permissions: Seq<(Seq<char>, i64)>,
    pub auto_accept_paths: Seq<Seq<char>>,
    pub auto_accept_sessions: Seq<Seq<char>>,
    pub opencode_tool_call_ids: Seq<Seq<char>>,
    pub child_sessions: Seq<(Seq<char>, Seq<char>)>,
    pub last_subtask_progress_ms: Seq<(Seq<char>, i64)>,
    pub pending_questions: Seq<PendingQuestionV>,
    pub recently_replied_questions: Seq<(Seq<char>, i64)>,
    pub pending_deltas: Seq<PendingDeltaV>,
}

impl View for RemoteState {
    type V = RemoteStateV;

    open spec fn view(&self) -> RemoteStateV {
        RemoteStateV {
            session_key: self.session_key.deep_view(),
            confirmations: self.confirmations.deep_view(),
            has_messages: self.has_messages.deep_view(),
            root_turn_active: self.root_turn_active.deep_view(),
            finished_current_user_turn: self.finished_current_user_turn.deep_view(),
            approval_memory: self.approval_memory.deep_view(),
            connection_status: self.connection_status.deep_view(),
            opencode_session_id: self.opencode_session_id.deep_view(),
            reasoning_parts: self.reasoning_parts.deep_view(),
            model_info_emitted: self.model_info_emitted.deep_view(),
            desired_model: self.desired_model.deep_view(),
            desired_agent: self.desired_agent.deep_view(),
            opencode_commands: self.opencode_commands.deep_view(),
            opencode_agents: self.opencode_agents.deep_view(),
            opencode_skills: self.opencode_skills.deep_view(),
            model_context_limits: self.model_context_limits.deep_view(),
            pending_shell_approvals: self.pending_shell_approvals.deep_view(),
            pending_elicitations: self.pending_elicitations.deep_view(),
            recently_replied_permissions: self.recently_replied_permissions.deep_view(),
            auto_accept_paths: self.auto_accept_paths.deep_view(),
            auto_accept_sessions: self.auto_accept_sessions.deep_view(),
            opencode_tool_call_ids: self.opencode_tool_call_ids.deep_view(),
            child_sessions: self.child_sessions.deep_view(),
            last_subtask_progress_ms: self.last_subtask_progress_ms.deep_view(),
            pending_questions: self.pending_questions.deep_view(),
            recently_replied_questions: self.recently_replied_questions.deep_view(),
            pending_deltas: self.pending_deltas.deep_view(),
        }
    }
}

impl DeepView for RemoteState {
    type V = RemoteStateV;

    open spec fn deep_view(&self) -> RemoteStateV {
        self@
    }
}

/// The state before anything has happened. The workspace of the conversation is
/// blessed from the start where it is an absolute path.
pub open spec fn initial_state(workspace: Seq<char>, resume: Option<Seq<char>>) -> RemoteStateV {
    let root = without_suffix_char(workspace, '/');
    RemoteStateV {
        session_key: None,
        confirmations: Seq::empty(),
        has_messages: false,
        root_turn_active: false,
        finished_current_user_turn: false,
        approval_memory: Seq::empty(),
        connection_status: RemoteAgentStatus::Unknown,
        opencode_session_id: resume,
        reasoning_parts: Seq::empty(),
        model_info_emitted: Seq::empty(),
        desired_model: None,
        desired_agent: None,
        opencode_commands: None,
        opencode_agents: None,
        opencode_skills: None,
        model_context_limits: None,
        pending_shell_approvals: Seq::empty(),
        pending_elicitations: Seq::empty(),
        recently_replied_permissions: Seq::empty(),
        auto_accept_paths: if begins(root, "/"@) {
            seq![root]
        } else {
            Seq::empty()
        },
        auto_accept_sessions: Seq::empty(),
        opencode_tool_call_ids: Seq::empty(),
        child_sessions: Seq::empty(),
        last_subtask_progress_ms: Seq::empty(),
        pending_questions: Seq::empty(),
        recently_replied_questions: Seq::empty(),
        pending_deltas: Seq::empty(),
    }
}

impl RemoteState {
    /// The state before anything has happened.
    pub fn new(workspace: &str, resume_session_id: Option<String>) -> (r: RemoteState)
        ensures
            r@ == initial_state(workspace@, resume_session_id.deep_view()),
    {
        let root = trim_end_char(workspace, '/');
        let mut paths: Vec<String> = Vec::new();
        if starts_with(root.as_str(), "/") {
            paths.push(root);
        }
        let r = RemoteState {
            session_key: None,
            confirmations: Vec::new(),
            has_messages: false,
            root_turn_active: false,
            finished_current_user_turn: false,
            approval_memory: Vec::new(),
            connection_status: RemoteAgentStatus::Unknown,
            opencode_session_id: resume_session_id,
            reasoning_parts: Vec::new(),
            model_info_emitted: Vec::new(),
            desired_model: None,
            desired_agent: None,
            opencode_commands: None,
            opencode_agents: None,
            opencode_skills: None,
            model_context_limits: None,
            pending_shell_approvals: Vec::new(),
            pending_elicitations: Vec::new(),
            recently_replied_permissions: Vec::new(),
            auto_accept_paths: paths,
            auto_accept_sessions: Vec::new(),
            opencode_tool_call_ids: Vec::new(),
            child_sessions: Vec::new(),
            last_subtask_progress_ms: Vec::new(),
            pending_questions: Vec::new(),
            recently_replied_questions: Vec::new(),
            pending_deltas: Vec::new(),
        };
        proof {
            let i = initial_state(workspace@, resume_session_id.deep_view());
            assert(r@.confirmations =~= i.confirmations);
            assert(r@.approval_memory =~= i.approval_memory);
            assert(r@.reasoning_parts =~= i.reasoning_parts);
            assert(r@.model_info_emitted =~= i.model_info_emitted);
            assert(r@.pending_shell_approvals =~= i.pending_shell_approvals);
            assert(r@.pending_elicitations =~= i.pending_elicitations);
            assert(r@.recently_replied_permissions =~= i.recently_replied_permissions);
            assert(r@.auto_accept_paths =~= i.auto_accept_paths);
            assert(r@.auto_accept_sessions =~= i.auto_accept_sessions);
            assert(r@.opencode_tool_call_ids =~= i.opencode_tool_call_ids);
            assert(r@.child_sessions =~= i.child_sessions);
            assert(r@.last_subtask_progress_ms =~= i.last_subtask_progress_ms);
            assert(r@.pending_questions =~= i.pending_questions);
            assert(r@.recently_replied_questions =~= i.recently_replied_questions);
            assert(r@.pending_deltas =~= i.pending_deltas);
        }
        r
    }
}

/// Whether a blessed directory covers a path: the path is the directory or lies
/// below it. Slashes at the end of either do not count.
pub open spec fn covers(prefix: Seq<char>, target: Seq<char>) -> bool {
    let p = without_suffix_char(prefix, '/');
    let t = without_suffix_char(target, '/');
    t == p || (begins(t, p) && begins(t.skip(p.len() as int), "/"@))
}

/// Whether any blessed directory covers a path.
pub open spec fn under_blessed(target: Seq<char>, prefixes: Seq<Seq<char>>) -> bool {
    exists|i: int| 0 <= i < prefixes.len() && covers(#[trigger] prefixes[i], target)
}

/// Whether any blessed directory covers a path.
pub fn path_is_under_blessed(target: &str, prefixes: &Vec<String>) -> (r: bool)
    ensures
        r == under_blessed(target@, prefixes.deep_view()),
{
    let ghost pv = prefixes.deep_view();
    let t = trim_end_char(target, '/');
    let mut i: usize = 0;
    while i < prefixes.len()
        invariant
            i <= prefixes.len(),
            pv == prefixes.deep_view(),
            t@ == without_suffix_char(target@, '/'),
            forall|k: int| 0 <= k < i ==> !covers(#[trigger] pv[k], target@),
        decreases prefixes.len() - i,
    {
        let p = trim_end_char(prefixes[i].as_str(), '/');
        assert(pv[i as int] == prefixes@[i as int]@);
        let hit = if str_eq(t.as_str(), p.as_str()) {
            true
        } else {
            match strip_prefix(t.as_str(), p.as_str()) {
                Some(rest) => starts_with(rest.as_str(), "/"),
                None => false,
            }
        };
        if hit {
            assert(covers(pv[i as int], target@));
            return true;
        }
        i += 1;
    }
    false
}

/// A blessed directory covers itself and whatever lies below it, and no other
/// directory whose name merely begins like its own.
pub proof fn blessing_covers_a_tree(dir: Seq<char>, rest: Seq<char>)
    requires
        dir.len() > 0,
        dir.last() != '/',
        rest.len() > 0,
        rest.last() != '/',
    ensures
        covers(dir, dir),
        covers(dir, dir.push('/')),
        covers(dir, dir.push('/') + rest),
        rest[0] != '/' ==> !covers(dir, dir + rest),
{
    reveal_strlit("/");
    assert(without_suffix_char(dir, '/') == dir);
    assert(dir.push('/').drop_last() =~= dir);
    reveal_with_fuel(without_suffix_char, 2);
    assert(without_suffix_char(dir.push('/'), '/') == dir);
    let below = dir.push('/') + rest;
    assert(below.last() == rest.last());
    assert(below.take(dir.len() as int) =~= dir);
    assert(below.skip(dir.len() as int).take(1) =~= "/"@);
    let beside = dir + rest;
    assert(beside.last() == rest.last());
    if rest[0] != '/' {
        assert(beside.skip(dir.len() as int)[0] == rest[0]);
        assert(beside.len() != dir.len());
        if covers(dir, beside) {
            assert(beside.skip(dir.len() as int).take(1)[0] == "/"@[0]);
        }
    }
}

/// Whether a session, or one that it descends from in at most `steps` steps, is
/// blessed.
pub open spec fn blessed_line(
    session: Seq<char>,
    blessed: Seq<Seq<char>>,
    children: Seq<(Seq<char>, Seq<char>)>,
    steps: nat,
) -> bool
    decreases steps,
{
    blessed.contains(session) || (steps > 0 && match assoc(children, session) {
        Some(parent) => blessed_line(parent, blessed, children, (steps - 1) as nat),
        None => false,
    })
}

/// The value under a key.
pub fn pair_get<'a>(m: &'a Vec<(String, String)>, key: &str) -> (r: Option<&'a str>)
    ensures
        crate::json::opt_str(r) == assoc(m.deep_view(), key@),
{
    let ghost mv = m.deep_view();
    let mut i: usize = 0;
    assert(mv.skip(0) =~= mv);
    while i < m.len()
        invariant
            i <= m.len(),
            mv == m.deep_view(),
            assoc(mv, key@) == assoc(mv.skip(i as int), key@),
        decreases m.len() - i,
    {
        assert(mv.skip(i as int)[0] == mv[i as int]);
        if str_eq(m[i].0.as_str(), key) {
            return Some(m[i].1.as_str());
        }
        assert(mv.skip(i as int).drop_first() =~= mv.skip(i as int + 1));
        i += 1;
    }
    None
}

/// Whether a session or one that it descends from is blessed.
pub fn session_or_ancestor_blessed(
    session_id: &str,
    blessed: &Vec<String>,
    children: &Vec<(String, String)>,
) -> (r: bool)
    ensures
        r == blessed_line(
            session_id@,
            blessed.deep_view(),
            children.deep_view(),
            children.deep_view().len(),
        ),
{
    let mut current: &str = session_id;
    let mut steps: usize = children.len();
    loop
        invariant
            steps <= children.len(),
            blessed_line(
                session_id@,
                blessed.deep_view(),
                children.deep_view(),
                children.deep_view().len(),
            ) == blessed_line(current@, blessed.deep_view(), children.deep_view(), steps as nat),
        decreases steps,
    {
        if crate::collections::set_has(blessed, current) {
            return true;
        }
        if steps == 0 {
            return false;
        }
        match pair_get(children, current) {
            Some(parent) => {
                current = parent;
                steps -= 1;
            },
            None => {
                return false;
            },
        }
    }
}

/// The session that is `steps` generations above a session: itself, the one that started
/// it, and so on. None where the line ends before.
pub open spec fn forebear(
    session: Seq<char>,
    children: Seq<(Seq<char>, Seq<char>)>,
    steps: nat,
) -> Option<Seq<char>>
    decreases steps,
{
    if steps == 0 {
        Some(session)
    } else {
        match forebear(session, children, (steps - 1) as nat) {
            Some(s) => assoc(children, s),
            None => None,
        }
    }
}

/// Whether a session is another one, or was started by it directly or through any number
/// of sub-agents.
pub open spec fn descends(
    session: Seq<char>,
    from: Seq<char>,
    children: Seq<(Seq<char>, Seq<char>)>,
) -> bool {
    exists|steps: nat| #[trigger] forebear(session, children, steps) == Some(from)
}

proof fn lemma_forebear_from_parent(
    session: Seq<char>,
    children: Seq<(Seq<char>, Seq<char>)>,
    steps: nat,
)
    requires
        steps > 0,
    ensures
        forebear(session, children, steps) == match assoc(children, session) {
            Some(p) => forebear(p, children, (steps - 1) as nat),
            None => None,
        },
    decreases steps,
{
    reveal_with_fuel(forebear, 2);
    if steps > 1 {
        lemma_forebear_from_parent(session, children, (steps - 1) as nat);
    }
}

proof fn lemma_line_reaches(
    session: Seq<char>,
    from: Seq<char>,
    blessed: Seq<Seq<char>>,
    children: Seq<(Seq<char>, Seq<char>)>,
    n: nat,
    steps: nat,
)
    requires
        blessed.contains(from),
        forebear(session, children, n) == Some(from),
        n <= steps,
    ensures
        blessed_line(session, blessed, children, steps),
    decreases n,
{
    if n > 0 {
        lemma_forebear_from_parent(session, children, n);
        lemma_line_reaches(
            assoc(children, session)->0,
            from,
            blessed,
            children,
            (n - 1) as nat,
            (steps - 1) as nat,
        );
    }
}

/// Two places of a line that hold the same session are followed by the same sessions.
proof fn lemma_line_repeats(
    session: Seq<char>,
    children: Seq<(Seq<char>, Seq<char>)>,
    i: nat,
    j: nat,
    more: nat,
)
    requires
        forebear(session, children, i) == forebear(session, children, j),
    ensures
        forebear(session, children, i + more) == forebear(session, children, j + more),
    decreases more,
{
    if more > 0 {
        lemma_line_repeats(session, children, i, j, (more - 1) as nat);
        assert(i + more - 1 == i + (more - 1) as nat);
        assert(j + more - 1 == j + (more - 1) as nat);
    }
}

proof fn lemma_line_goes_on(
    session: Seq<char>,
    children: Seq<(Seq<char>, Seq<char>)>,
    i: nat,
    n: nat,
)
    requires
        i <= n,
        forebear(session, children, n) is Some,
    ensures
        forebear(session, children, i) is Some,
    decreases n,
{
    if i < n {
        lemma_line_goes_on(session, children, i, (n - 1) as nat);
    }
}

/// A session that is found above another one is found in no more steps than there are
/// sub-agents.
proof fn lemma_short_line(
    session: Seq<char>,
    from: Seq<char>,
    children: Seq<(Seq<char>, Seq<char>)>,
    n: nat,
) -> (m: nat)
    requires
        forebear(session, children, n) == Some(from),
    ensures
        m <= children.len(),
        forebear(session, children, m) == Some(from),
    decreases n,
{
    if n <= children.len() {
        n
    } else {
        let line = Seq::new(n, |i: int| forebear(session, children, i as nat)->0);
        assert forall|i: int| 0 <= i < line.len() implies assoc(
            children,
            #[trigger] line[i],
        ) is Some && forebear(session, children, i as nat) == Some(line[i]) by {
            lemma_line_goes_on(session, children, i as nat, n);
            lemma_line_goes_on(session, children, (i + 1) as nat, n);
        }
        if line.no_duplicates() {
            crate::collections::different_keys_fit(children, line);
        }
        let (i, j) = choose|i: int, j: int|
            0 <= i < line.len() && 0 <= j < line.len() && i < j && line[i] == line[j];
        assert(0 <= i < j < n && line[i] == line[j]);
        lemma_line_repeats(session, children, i as nat, j as nat, (n - j) as nat);
        assert(j as nat + (n - j) as nat == n);
        lemma_short_line(session, from, children, (i + (n - j)) as nat)
    }
}

/// Blessing a session blesses it and everything that descends from it.
pub proof fn blessing_reaches_descendants(
    session: Seq<char>,
    from: Seq<char>,
    blessed: Seq<Seq<char>>,
    children: Seq<(Seq<char>, Seq<char>)>,
)
    requires
        blessed.contains(from),
        descends(session, from, children),
    ensures
        blessed_line(session, blessed, children, children.len()),
{
    let n = choose|n: nat| #[trigger] forebear(session, children, n) == Some(from);
    let m = lemma_short_line(session, from, children, n);
    lemma_line_reaches(session, from, blessed, children, m, children.len());
}

/// Whether an entry of the queue has another id.
pub open spec fn other_call(call_id: Seq<char>) -> spec_fn(ConfirmationV) -> bool {
    |c: ConfirmationV| c.call_id != call_id
}

/// The queue without the confirmations of an id.
pub open spec fn without_call(q: Seq<ConfirmationV>, call_id: Seq<char>) -> Seq<ConfirmationV> {
    q.filter(other_call(call_id))
}

/// The queue with a confirmation at its end, in place of any other of its id.
pub open spec fn queued(q: Seq<ConfirmationV>, c: ConfirmationV) -> Seq<ConfirmationV> {
    without_call(q, c.call_id).push(c)
}

/// The queue with several confirmations put in one after the other.
pub open spec fn queued_all(q: Seq<ConfirmationV>, cs: Seq<ConfirmationV>) -> Seq<ConfirmationV>
    decreases cs.len(),
{
    if cs.len() == 0 {
        q
    } else {
        queued(queued_all(q, cs.drop_last()), cs.last())
    }
}

/// Takes the confirmations of an id out of the queue.
pub fn drop_call(q: &mut Vec<Confirmation>, call_id: &str)
    ensures
        final(q).deep_view() == without_call(old(q).deep_view(), call_id@),
{
    let ghost qv = q.deep_view();
    let ghost p = other_call(call_id@);
    let mut out: Vec<Confirmation> = Vec::new();
    let mut i: usize = 0;
    proof {
        crate::collections::filter_start(qv, p);
        assert(out.deep_view() =~= Seq::<ConfirmationV>::empty());
    }
    while i < q.len()
        invariant
            i <= q.len(),
            qv == q.deep_view(),
            p == other_call(call_id@),
            out.deep_view() == qv.take(i as int).filter(p),
        decreases q.len() - i,
    {
        let ghost ov = out.deep_view();
        proof {
            crate::collections::filter_step(qv, i as int, p);
            assert(qv[i as int] == q@[i as int]@);
        }
        if !str_eq(q[i].call_id.as_str(), call_id) {
            out.push(q[i].copy());
            assert(out.deep_view() =~= ov.push(qv[i as int]));
        }
        i += 1;
    }
    assert(qv.take(qv.len() as int) =~= qv);
    *q = out;
}

/// Puts a confirmation at the end of the queue, in place of any other of its id.
pub fn enqueue(q: &mut Vec<Confirmation>, c: Confirmation)
    ensures
        final(q).deep_view() == queued(old(q).deep_view(), c@),
{
    drop_call(q, c.call_id.as_str());
    let ghost before = q.deep_view();
    q.push(c);
    assert(q.deep_view() =~= before.push(c@));
}

/// Whether the confirmation belongs to another question request.
pub open spec fn other_request(request_id: Seq<char>) -> spec_fn(ConfirmationV) -> bool {
    |c: ConfirmationV|
        match crate::question::call_id_parts(c.call_id) {
            Some(p) => p.0 != request_id,
            None => true,
        }
}

/// The queue without the cards of a question request.
pub open spec fn without_request(q: Seq<ConfirmationV>, request_id: Seq<char>) -> Seq<ConfirmationV> {
    q.filter(other_request(request_id))
}

/// Takes the cards of a question request out of the queue.
pub fn drop_request(q: &mut Vec<Confirmation>, request_id: &str)
    ensures
        final(q).deep_view() == without_request(old(q).deep_view(), request_id@),
{
    let ghost qv = q.deep_view();
    let ghost p = other_request(request_id@);
    let mut out: Vec<Confirmation> = Vec::new();
    let mut i: usize = 0;
    proof {
        crate::collections::filter_start(qv, p);
        assert(out.deep_view() =~= Seq::<ConfirmationV>::empty());
    }
    while i < q.len()
        invariant
            i <= q.len(),
            qv == q.deep_view(),
            p == other_request(request_id@),
            out.deep_view() == qv.take(i as int).filter(p),
        decreases q.len() - i,
    {
        let ghost ov = out.deep_view();
        proof {
            crate::collections::filter_step(qv, i as int, p);
            assert(qv[i as int] == q@[i as int]@);
        }
        let keep = match crate::question::parse_question_call_id(q[i].call_id.as_str()) {
            Some(parts) => !str_eq(parts.0.as_str(), request_id),
            None => true,
        };
        if keep {
            out.push(q[i].copy());
            assert(out.deep_view() =~= ov.push(qv[i as int]));
        }
        i += 1;
    }
    assert(qv.take(qv.len() as int) =~= qv);
    *q = out;
}

/// The place of the first request with an id; the length where there is none.
pub open spec fn request_at(q: Seq<PendingQuestionV>, id: Seq<char>) -> int
    decreases q.len(),
{
    if q.len() == 0 {
        0
    } else if q[0].request_id == id {
        0
    } else {
        1 + request_at(q.drop_first(), id)
    }
}

/// Whether a request is pending.
pub open spec fn has_request(q: Seq<PendingQuestionV>, id: Seq<char>) -> bool {
    request_at(q, id) < q.len()
}

/// The requests without the first one of an id.
pub open spec fn without_pending(q: Seq<PendingQuestionV>, id: Seq<char>) -> Seq<PendingQuestionV> {
    if has_request(q, id) {
        q.remove(request_at(q, id))
    } else {
        q
    }
}

/// `request_at` points into the list or right behind it.
pub proof fn lemma_request_at(q: Seq<PendingQuestionV>, id: Seq<char>)
    ensures
        0 <= request_at(q, id) <= q.len(),
        has_request(q, id) ==> q[request_at(q, id)].request_id == id,
    decreases q.len(),
{
    if q.len() > 0 && q[0].request_id != id {
        lemma_request_at(q.drop_first(), id);
    }
}

/// Finds the first request with an id.
pub fn find_request(q: &Vec<PendingQuestion>, id: &str) -> (r: Option<usize>)
    ensures
        match r {
            Some(i) => i < q.len() && i == request_at(q.deep_view(), id@),
            None => !has_request(q.deep_view(), id@),
        },
{
    let ghost qv = q.deep_view();
    let mut i: usize = 0;
    assert(qv.skip(0) =~= qv);
    while i < q.len()
        invariant
            i <= q.len(),
            qv == q.deep_view(),
            request_at(qv, id@) == i + request_at(qv.skip(i as int), id@),
        decreases q.len() - i,
    {
        assert(qv.skip(i as int)[0] == q@[i as int]@);
        if str_eq(q[i].request_id.as_str(), id) {
            return Some(i);
        }
        assert(qv.skip(i as int).drop_first() =~= qv.skip(i as int + 1));
        i += 1;
    }
    None
}

/// Takes the first request with an id out.
pub fn drop_pending(q: &mut Vec<PendingQuestion>, id: &str)
    ensures
        final(q).deep_view() == without_pending(old(q).deep_view(), id@),
{
    let ghost qv = q.deep_view();
    match find_request(q, id) {
        Some(i) => {
            let _ = q.remove(i);
            assert(q.deep_view() =~= qv.remove(i as int));
        },
        None => {},
    }
}

/// The place of a part's pending text; the length where there is none.
pub open spec fn delta_at(d: Seq<PendingDeltaV>, message: Seq<char>, part: Seq<char>) -> int
    decreases d.len(),
{
    if d.len() == 0 {
        0
    } else if d[0].message_id == message && d[0].part_id == part {
        0
    } else {
        1 + delta_at(d.drop_first(), message, part)
    }
}

/// The pending text with a delta appended to its part.
pub open spec fn with_delta(
    d: Seq<PendingDeltaV>,
    message: Seq<char>,
    part: Seq<char>,
    delta: Seq<char>,
    reasoning: bool,
) -> Seq<PendingDeltaV> {
    let i = delta_at(d, message, part);
    if i < d.len() {
        d.update(i, PendingDeltaV { content: d[i].content + delta, ..d[i] })
    } else {
        d.push(PendingDeltaV { message_id: message, part_id: part, reasoning, content: delta })
    }
}

/// How pending text is told.
pub open spec fn delta_effect(d: PendingDeltaV) -> EffectV {
    EffectV::Emit(
        if d.reasoning {
            AgentStreamEventV::Thinking { content: d.content }
        } else {
            AgentStreamEventV::Text { content: d.content }
        },
    )
}

/// How all pending text is told.
pub open spec fn delta_effects(d: Seq<PendingDeltaV>) -> Seq<EffectV> {
    d.map_values(|x: PendingDeltaV| delta_effect(x))
}

/// Whether pending text is of a part.
pub open spec fn of_part(part: Seq<char>) -> spec_fn(PendingDeltaV) -> bool {
    |d: PendingDeltaV| d.part_id == part
}

/// Whether pending text is of another part.
pub open spec fn of_other_part(part: Seq<char>) -> spec_fn(PendingDeltaV) -> bool {
    |d: PendingDeltaV| d.part_id != part
}

/// Appends a delta to the pending text of its part.
pub fn push_delta(
    d: &mut Vec<PendingDelta>,
    message: &str,
    part: &str,
    delta: &str,
    reasoning: bool,
)
    ensures
        final(d).deep_view() == with_delta(
            old(d).deep_view(),
            message@,
            part@,
            delta@,
            reasoning,
        ),
{
    let ghost dv = d.deep_view();
    let mut i: usize = 0;
    assert(dv.skip(0) =~= dv);
    while i < d.len()
        invariant
            i <= d.len(),
            dv == d.deep_view(),
            dv == old(d).deep_view(),
            delta_at(dv, message@, part@) == i + delta_at(dv.skip(i as int), message@, part@),
        decreases d.len() - i,
    {
        assert(dv.skip(i as int)[0] == d@[i as int]@);
        if str_eq(d[i].message_id.as_str(), message) && str_eq(d[i].part_id.as_str(), part) {
            let grown = PendingDelta {
                message_id: d[i].message_id.clone(),
                part_id: d[i].part_id.clone(),
                reasoning: d[i].reasoning,
                content: crate::text::cat(d[i].content.as_str(), delta),
            };
            d.set(i, grown);
            assert(d.deep_view() =~= dv.update(
                i as int,
                PendingDeltaV { content: dv[i as int].content + delta@, ..dv[i as int] },
            ));
            return;
        }
        assert(dv.skip(i as int).drop_first() =~= dv.skip(i as int + 1));
        i += 1;
    }
    let fresh = PendingDelta {
        message_id: message.to_owned(),
        part_id: part.to_owned(),
        reasoning,
        content: delta.to_owned(),
    };
    d.push(fresh);
    assert(d.deep_view() =~= dv.push(fresh@));
}

/// Appends an effect.
pub fn then_do(fx: &mut Vec<Effect>, e: Effect)
    ensures
        final(fx).deep_view() == old(fx).deep_view().push(e@),
{
    let ghost before = fx.deep_view();
    fx.push(e);
    assert(fx.deep_view() =~= before.push(e@));
}

/// No effects.
pub fn no_effects() -> (r: Vec<Effect>)
    ensures
        r.deep_view() == Seq::<EffectV>::empty(),
{
    let r: Vec<Effect> = Vec::new();
    assert(r.deep_view() =~= Seq::<EffectV>::empty());
    r
}

/// The effect that tells pending text.
fn tell_delta(d: &PendingDelta) -> (r: Effect)
    ensures
        r@ == delta_effect(d@),
{
    if d.reasoning {
        Effect::Emit(crate::types::AgentStreamEvent::Thinking { content: d.content.clone() })
    } else {
        Effect::Emit(crate::types::AgentStreamEvent::Text { content: d.content.clone() })
    }
}

/// Tells all pending text.
pub fn flush_all(d: &mut Vec<PendingDelta>, fx: &mut Vec<Effect>)
    ensures
        final(d).deep_view() == Seq::<PendingDeltaV>::empty(),
        final(fx).deep_view() == old(fx).deep_view() + delta_effects(old(d).deep_view()),
{
    let ghost dv = d.deep_view();
    let ghost before = fx.deep_view();
    let mut i: usize = 0;
    assert(before + delta_effects(dv.take(0)) =~= before);
    while i < d.len()
        invariant
            i <= d.len(),
            dv == d.deep_view(),
            fx.deep_view() == before + delta_effects(dv.take(i as int)),
        decreases d.len() - i,
    {
        assert(dv[i as int] == d@[i as int]@);
        then_do(fx, tell_delta(&d[i]));
        assert(before + delta_effects(dv.take(i as int + 1)) =~= (before + delta_effects(
            dv.take(i as int),
        )).push(delta_effect(dv[i as int])));
        i += 1;
    }
    assert(dv.take(dv.len() as int) =~= dv);
    let none: Vec<PendingDelta> = Vec::new();
    assert(none.deep_view() =~= Seq::<PendingDeltaV>::empty());
    *d = none;
}

/// Tells the pending text of a part.
pub fn flush_part(d: &mut Vec<PendingDelta>, part: &str, fx: &mut Vec<Effect>)
    ensures
        final(d).deep_view() == old(d).deep_view().filter(of_other_part(part@)),
        final(fx).deep_view() == old(fx).deep_view() + delta_effects(
            old(d).deep_view().filter(of_part(part@)),
        ),
{
    let ghost dv = d.deep_view();
    let ghost before = fx.deep_view();
    let ghost p = of_part(part@);
    let ghost q = of_other_part(part@);
    let mut rest: Vec<PendingDelta> = Vec::new();
    let mut i: usize = 0;
    proof {
        crate::collections::filter_start(dv, p);
        crate::collections::filter_start(dv, q);
        assert(before + delta_effects(Seq::<PendingDeltaV>::empty()) =~= before);
        assert(rest.deep_view() =~= Seq::<PendingDeltaV>::empty());
    }
    while i < d.len()
        invariant
            i <= d.len(),
            dv == d.deep_view(),
            p == of_part(part@),
            q == of_other_part(part@),
            fx.deep_view() == before + delta_effects(dv.take(i as int).filter(p)),
            rest.deep_view() == dv.take(i as int).filter(q),
        decreases d.len() - i,
    {
        proof {
            crate::collections::filter_step(dv, i as int, p);
            crate::collections::filter_step(dv, i as int, q);
            assert(dv[i as int] == d@[i as int]@);
        }
        let ghost told = dv.take(i as int).filter(p);
        let ghost kept = rest.deep_view();
        if str_eq(d[i].part_id.as_str(), part) {
            then_do(fx, tell_delta(&d[i]));
            assert(before + delta_effects(told.push(dv[i as int])) =~= (before + delta_effects(
                told,
            )).push(delta_effect(dv[i as int])));
        } else {
            let same = PendingDelta {
                message_id: d[i].message_id.clone(),
                part_id: d[i].part_id.clone(),
                reasoning: d[i].reasoning,
                content: d[i].content.clone(),
            };
            rest.push(same);
            assert(rest.deep_view() =~= kept.push(dv[i as int]));
        }
        i += 1;
    }
    assert(dv.take(dv.len() as int) =~= dv);
    *d = rest;
}

} // verus!
