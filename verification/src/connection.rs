//! The connection to a server: how it comes up, how its event stream is cut into
//! events, and how it is taken up again after it broke.
use vstd::prelude::*;

use crate::config::{
    auth, base_url_of, event_path, event_path_of, is_server_tool_host, normalize_base_url, RemoteAgentConfig,
};
use crate::events::{unwrap_event, unwrapped};
use crate::http::{HttpMethod, HttpRequest, HttpRequestV};
use crate::json::{opt_tree, parsed_text, Json, JsonV};
use crate::state::{RemoteState, RemoteStateV};
use crate::text::{
    begins, cat, chars_of, from_utf8_lossy, lossy_text, pieces, split_char, str_eq, string_between,
    strip_prefix,
};
use crate::types::{copy_opt, AppError, AppErrorV, RemoteAgentStatus};

verus! {

/// The shortest wait before the event stream is read again, in milliseconds.
pub const RECONNECT_DELAY_MIN_MS: u64 = 250;

/// The longest wait before the event stream is read again, in milliseconds.
pub const RECONNECT_DELAY_MAX_MS: u64 = 5000;

/// How long the stream may be silent, in milliseconds.
pub const HEARTBEAT_TIMEOUT_MS: u64 = 30000;

/// Why a pass over the event stream ended.
#[derive(Debug, Clone, Copy, PartialEq, Eq, Structural)]
pub enum ReaderExit {
    /// The request for the stream failed.
    ConnectFailed,
    /// The server closed the stream.
    Eof,
    /// The transport failed.
    StreamError,
    /// The stream was silent for too long.
    HeartbeatTimeout,
    /// The server disposed of its instance.
    ServerDisposed,
}

impl View for ReaderExit {
    type V = ReaderExit;

    open spec fn view(&self) -> ReaderExit {
        *self
    }
}

impl DeepView for ReaderExit {
    type V = ReaderExit;

    open spec fn deep_view(&self) -> ReaderExit {
        *self
    }
}

/// How far a connection has come.
#[derive(Debug, Clone, Copy, PartialEq, Eq, Structural)]
pub enum ConnectPhase {
    /// It has not begun.
    Idle,
    /// The health check is out.
    Checking,
    /// The session to come back to is being looked up.
    Probing,
    /// The API description is being fetched.
    Describing,
    /// The event stream is being read.
    Reading,
    /// The stream is to be read again after a wait.
    Waiting,
    /// It cannot be had.
    Failed,
}

impl View for ConnectPhase {
    type V = ConnectPhase;

    open spec fn view(&self) -> ConnectPhase {
        *self
    }
}

impl DeepView for ConnectPhase {
    type V = ConnectPhase;

    open spec fn deep_view(&self) -> ConnectPhase {
        *self
    }
}

/// What happened to a connection.
#[derive(Debug, PartialEq, Eq)]
pub enum ConnectEvent {
    /// It is to begin.
    Begin,
    /// The health check was not answered.
    HealthUnreachable(String),
    /// The health check was answered.
    HealthAnswered { ok: bool, status: String },
    /// Whether the server knows the session.
    SessionProbed { ok: bool },
    /// The API description, where it could be read.
    ApiDescription(Option<Json>),
    /// A pass over the stream ended.
    ReaderEnded(ReaderExit),
    /// The wait is over.
    Slept,
}

/// Model of [`ConnectEvent`].
pub enum ConnectEventV {
    Begin,
    HealthUnreachable(Seq<char>),
    HealthAnswered { ok: bool, status: Seq<char> },
    SessionProbed { ok: bool },
    ApiDescription(Option<JsonV>),
    ReaderEnded(ReaderExit),
    Slept,
}

impl View for ConnectEvent {
    type V = ConnectEventV;

    open spec fn view(&self) -> ConnectEventV {
        match self {
            ConnectEvent::Begin => ConnectEventV::Begin,
            ConnectEvent::HealthUnreachable(x) => ConnectEventV::HealthUnreachable(x.deep_view()),
            ConnectEvent::HealthAnswered { ok, status } => ConnectEventV::HealthAnswered { ok: ok.deep_view(), status: status.deep_view() },
            ConnectEvent::SessionProbed { ok } => ConnectEventV::SessionProbed { ok: ok.deep_view() },
            ConnectEvent::ApiDescription(x) => ConnectEventV::ApiDescription(x.deep_view()),
            ConnectEvent::ReaderEnded(x) => ConnectEventV::ReaderEnded(x.deep_view()),
            ConnectEvent::Slept => ConnectEventV::Slept,
        }
    }
}

impl DeepView for ConnectEvent {
    type V = ConnectEventV;

    open spec fn deep_view(&self) -> ConnectEventV {
        self@
    }
}

/// What a connection asks for.
#[derive(Debug, PartialEq, Eq)]
pub enum ConnectAction {
    /// Ask for the server's health.
    CheckHealth(HttpRequest),
    /// Look a session up.
    ProbeSession(HttpRequest),
    /// Register the local file tools.
    EnsureLocalTools,
    /// Fetch the commands, agents and skills that are not known yet.
    PrimeCatalogs,
    /// Forward the log to the server.
    RegisterForwarder,
    /// Fetch the API description.
    FetchApiDescription(HttpRequest),
    /// Take on the sub-agents that came up unseen.
    BackfillChildren,
    /// Read the event stream.
    ReadEvents { url: String, auth: Option<String> },
    /// Give the turn slot back.
    ReleaseTurnSlot,
    /// Wait.
    Sleep { ms: u64 },
    /// Give up.
    Fail(AppError),
}

/// Model of [`ConnectAction`].
pub enum ConnectActionV {
    CheckHealth(HttpRequestV),
    ProbeSession(HttpRequestV),
    EnsureLocalTools,
    PrimeCatalogs,
    RegisterForwarder,
    FetchApiDescription(HttpRequestV),
    BackfillChildren,
    ReadEvents { url: Seq<char>, auth: Option<Seq<char>> },
    ReleaseTurnSlot,
    Sleep { ms: u64 },
    Fail(AppErrorV),
}

impl View for ConnectAction {
    type V = ConnectActionV;

    open spec fn view(&self) -> ConnectActionV {
        match self {
            ConnectAction::CheckHealth(x) => ConnectActionV::CheckHealth(x.deep_view()),
            ConnectAction::ProbeSession(x) => ConnectActionV::ProbeSession(x.deep_view()),
            ConnectAction::EnsureLocalTools => ConnectActionV::EnsureLocalTools,
            ConnectAction::PrimeCatalogs => ConnectActionV::PrimeCatalogs,
            ConnectAction::RegisterForwarder => ConnectActionV::RegisterForwarder,
            ConnectAction::FetchApiDescription(x) => ConnectActionV::FetchApiDescription(x.deep_view()),
            ConnectAction::BackfillChildren => ConnectActionV::BackfillChildren,
            ConnectAction::ReadEvents { url, auth } => ConnectActionV::ReadEvents { url: url.deep_view(), auth: auth.deep_view() },
            ConnectAction::ReleaseTurnSlot => ConnectActionV::ReleaseTurnSlot,
            ConnectAction::Sleep { ms } => ConnectActionV::Sleep { ms: ms.deep_view() },
            ConnectAction::Fail(x) => ConnectActionV::Fail(x.deep_view()),
        }
    }
}

impl DeepView for ConnectAction {
    type V = ConnectActionV;

    open spec fn deep_view(&self) -> ConnectActionV {
        self@
    }
}

/// A connection to a server.
#[derive(Debug, PartialEq, Eq)]
pub struct Connection {
    pub phase: ConnectPhase,
    pub base_url: String,
    /// The value of the `Authorization` header.
    pub auth: Option<String>,
    /// Whether the server runs the tools.
    pub server_tools: bool,
    /// Where the event stream is.
    pub event_url: String,
    /// The next wait.
    pub backoff_ms: u64,
}

/// Model of [`Connection`].
pub struct ConnectionV {
    pub phase: ConnectPhase,
    pub base_url: Seq<char>,
    pub auth: Option<Seq<char>>,
    pub server_tools: bool,
    pub event_url: Seq<char>,
    pub backoff_ms: u64,
}

impl View for Connection {
    type V = ConnectionV;

    open spec fn view(&self) -> ConnectionV {
        ConnectionV {
            phase: self.phase.deep_view(),
            base_url: self.base_url.deep_view(),
            auth: self.auth.deep_view(),
            server_tools: self.server_tools.deep_view(),
            event_url: self.event_url.deep_view(),
            backoff_ms: self.backoff_ms.deep_view(),
        }
    }
}

impl DeepView for Connection {
    type V = ConnectionV;

    open spec fn deep_view(&self) -> ConnectionV {
        self@
    }
}

/// What has been read of the event stream and is not complete.
#[derive(Debug, PartialEq, Eq)]
pub struct EventReader {
    pub buffer: String,
    /// Whether the stream has announced that it is up.
    pub saw_connected: bool,
}

/// Model of [`EventReader`].
pub struct EventReaderV {
    pub buffer: Seq<char>,
    pub saw_connected: bool,
}

impl View for EventReader {
    type V = EventReaderV;

    open spec fn view(&self) -> EventReaderV {
        EventReaderV {
            buffer: self.buffer.deep_view(),
            saw_connected: self.saw_connected.deep_view(),
        }
    }
}

impl DeepView for EventReader {
    type V = EventReaderV;

    open spec fn deep_view(&self) -> EventReaderV {
        self@
    }
}

/// The place of the first empty line at or behind `from`: of the first of two line
/// feeds in a row; the length where there is none.
pub open spec fn blank_at(s: Seq<char>, from: int) -> int
    decreases s.len() - from,
{
    if from + 1 >= s.len() {
        s.len() as int
    } else if s[from] == '\n' && s[from + 1] == '\n' {
        from
    } else {
        blank_at(s, from + 1)
    }
}

/// The complete frames of a stream: what stands before each empty line.
pub open spec fn frames(s: Seq<char>) -> Seq<Seq<char>>
    decreases s.len(),
{
    let i = blank_at(s, 0);
    if 0 <= i && i + 1 < s.len() {
        seq![s.take(i)] + frames(s.skip(i + 2))
    } else {
        Seq::empty()
    }
}

/// What stands behind the last complete frame.
pub open spec fn leftover(s: Seq<char>) -> Seq<char>
    decreases s.len(),
{
    let i = blank_at(s, 0);
    if 0 <= i && i + 1 < s.len() {
        leftover(s.skip(i + 2))
    } else {
        s
    }
}

/// Line `i` of a frame: a carriage return before a line feed belongs to the line end.
pub open spec fn line_of(lines: Seq<Seq<char>>, i: int) -> Seq<char> {
    let l = lines[i];
    if i + 1 < lines.len() && l.len() > 0 && l.last() == '\r' {
        l.drop_last()
    } else {
        l
    }
}

/// The payloads of the first `n` lines of a frame.
pub open spec fn data_in(lines: Seq<Seq<char>>, n: nat) -> Seq<Seq<char>>
    decreases n,
{
    if n == 0 {
        Seq::empty()
    } else {
        let before = data_in(lines, (n - 1) as nat);
        let line = line_of(lines, n - 1);
        if begins(line, "data: "@) {
            before.push(line.skip("data: "@.len() as int))
        } else {
            before
        }
    }
}

/// The payloads of a frame: what its `data:` lines hold.
pub open spec fn frame_data(frame: Seq<char>) -> Seq<Seq<char>> {
    let lines = pieces(frame, '\n');
    data_in(lines, lines.len())
}

/// The payloads of several frames.
pub open spec fn payloads(fs: Seq<Seq<char>>) -> Seq<Seq<char>>
    decreases fs.len(),
{
    if fs.len() == 0 {
        Seq::empty()
    } else {
        payloads(fs.drop_last()) + frame_data(fs.last())
    }
}

proof fn lemma_blank_at(s: Seq<char>, from: int)
    requires
        0 <= from,
    ensures
        blank_at(s, from) == s.len() || (from <= blank_at(s, from) && blank_at(s, from) + 1 < s.len()
            && s[blank_at(s, from)] == '\n' && s[blank_at(s, from) + 1] == '\n'),
        forall|k: int|
            from <= k < blank_at(s, from) && k + 1 < s.len() ==> !(#[trigger] s[k] == '\n' && s[k
                + 1] == '\n'),
    decreases s.len() - from,
{
    if from + 1 < s.len() && !(s[from] == '\n' && s[from + 1] == '\n') {
        lemma_blank_at(s, from + 1);
    }
}

proof fn lemma_blank_is(s: Seq<char>, from: int, i: int)
    requires
        0 <= from <= i,
        i + 1 < s.len(),
        s[i] == '\n',
        s[i + 1] == '\n',
        forall|k: int| from <= k < i ==> !(#[trigger] s[k] == '\n' && s[k + 1] == '\n'),
    ensures
        blank_at(s, from) == i,
    decreases i - from,
{
    if from < i {
        assert(!(s[from] == '\n' && s[from + 1] == '\n'));
        lemma_blank_is(s, from + 1, i);
    }
}

proof fn lemma_payloads_first(f: Seq<char>, fs: Seq<Seq<char>>)
    ensures
        payloads(seq![f] + fs) == frame_data(f) + payloads(fs),
    decreases fs.len(),
{
    let all = seq![f] + fs;
    if fs.len() == 0 {
        assert(all.drop_last() =~= Seq::<Seq<char>>::empty());
        assert(payloads(all.drop_last()) =~= Seq::<Seq<char>>::empty());
        assert(all.last() == f);
        assert(frame_data(f) + payloads(fs) =~= frame_data(f));
        assert(payloads(all) =~= frame_data(f));
    } else {
        assert(all.drop_last() =~= seq![f] + fs.drop_last());
        lemma_payloads_first(f, fs.drop_last());
        assert(all.last() == fs.last());
        assert(payloads(all) =~= frame_data(f) + payloads(fs));
    }
}

/// How a stream is cut into chunks does not matter: the frames of a text, followed by
/// those of what was left over and the rest, are the frames of both together.
pub proof fn chunks_do_not_matter(a: Seq<char>, b: Seq<char>)
    ensures
        frames(a + b) == frames(a) + frames(leftover(a) + b),
        leftover(a + b) == leftover(leftover(a) + b),
    decreases a.len(),
{
    let i = blank_at(a, 0);
    lemma_blank_at(a, 0);
    if i + 1 < a.len() {
        let s = a + b;
        assert forall|k: int| 0 <= k < i implies !(#[trigger] s[k] == '\n' && s[k + 1] == '\n') by {
            assert(s[k] == a[k] && s[k + 1] == a[k + 1]);
        }
        assert(s[i] == a[i] && s[i + 1] == a[i + 1]);
        lemma_blank_is(s, 0, i);
        assert(s.take(i) =~= a.take(i));
        assert(s.skip(i + 2) =~= a.skip(i + 2) + b);
        chunks_do_not_matter(a.skip(i + 2), b);
        assert(frames(s) =~= frames(a) + frames(leftover(a) + b));
    } else {
        assert(frames(a) + frames(a + b) =~= frames(a + b));
    }
}

fn read_frame(frame: &str, out: &mut Vec<String>)
    ensures
        final(out).deep_view() == old(out).deep_view() + frame_data(frame@),
{
    let lines = split_char(frame, '\n');
    let ghost lv = lines.deep_view();
    let ghost before = out.deep_view();
    let mut i: usize = 0;
    assert(before + data_in(lv, 0) =~= before);
    while i < lines.len()
        invariant
            i <= lines.len(),
            lv == lines.deep_view(),
            out.deep_view() == before + data_in(lv, i as nat),
        decreases lines.len() - i,
    {
        let ghost sofar = out.deep_view();
        let v = chars_of(lines[i].as_str());
        assert(v@ == lv[i as int]);
        let line = if i + 1 < lines.len() && v.len() > 0 && v[v.len() - 1] == '\r' {
            let l = string_between(&v, 0, v.len() - 1);
            assert(l@ =~= lv[i as int].drop_last());
            l
        } else {
            lines[i].clone()
        };
        assert(line@ == line_of(lv, i as int));
        match strip_prefix(line.as_str(), "data: ") {
            Some(d) => {
                out.push(d);
                assert(out.deep_view() =~= sofar.push(d@));
                assert(out.deep_view() =~= before + data_in(lv, i as nat + 1));
            },
            None => {},
        }
        i += 1;
    }
}

impl EventReader {
    /// A reader that has read nothing.
    pub fn new() -> (r: EventReader)
        ensures
            r@ == (EventReaderV { buffer: Seq::empty(), saw_connected: false }),
    {
        let r = EventReader { buffer: String::new(), saw_connected: false };
        assert(r@.buffer =~= Seq::<char>::empty());
        r
    }

    /// Takes a piece of the stream and hands out the payloads that it completes.
    pub fn feed(&mut self, text: &str) -> (r: Vec<String>)
        ensures
            r.deep_view() == payloads(frames(old(self)@.buffer + text@)),
            final(self)@ == (EventReaderV {
                buffer: leftover(old(self)@.buffer + text@),
                ..old(self)@
            }),
    {
        let whole = cat(self.buffer.as_str(), text);
        let v = chars_of(whole.as_str());
        let ghost s = v@;
        let mut out: Vec<String> = Vec::new();
        let mut from: usize = 0;
        let mut at: usize = 0;
        proof {
            assert(s.skip(0) =~= s);
            assert(out.deep_view() =~= Seq::<Seq<char>>::empty());
            assert(out.deep_view() + payloads(frames(s)) =~= payloads(frames(s)));
        }
        while at < v.len() && at + 1 < v.len()
            invariant
                v@ == s,
                from <= at <= v.len(),
                payloads(frames(s)) == out.deep_view() + payloads(frames(s.skip(from as int))),
                leftover(s) == leftover(s.skip(from as int)),
                forall|k: int|
                    from <= k < at && k + 1 < s.len() ==> !(#[trigger] s[k] == '\n' && s[k + 1]
                        == '\n'),
            decreases v.len() - at,
        {
            if v[at] == '\n' && v[at + 1] == '\n' {
                let frame = string_between(&v, from, at);
                let ghost rest = s.skip(from as int);
                let ghost i = at - from;
                let ghost sofar = out.deep_view();
                proof {
                    assert forall|k: int| 0 <= k < i implies !(#[trigger] rest[k] == '\n' && rest[k
                        + 1] == '\n') by {
                        assert(rest[k] == s[from + k] && rest[k + 1] == s[from + k + 1]);
                    }
                    assert(rest[i] == s[at as int] && rest[i + 1] == s[at + 1]);
                    lemma_blank_is(rest, 0, i);
                    assert(frame@ =~= rest.take(i));
                    assert(rest.skip(i + 2) =~= s.skip(at + 2));
                    lemma_payloads_first(rest.take(i), frames(rest.skip(i + 2)));
                }
                read_frame(frame.as_str(), &mut out);
                proof {
                    assert(out.deep_view() + payloads(frames(s.skip(at + 2))) =~= sofar + (
                    frame_data(frame@) + payloads(frames(s.skip(at + 2)))));
                }
                from = at + 2;
                at = from;
            } else {
                at += 1;
            }
        }
        let left = string_between(&v, from, v.len());
        proof {
            let rest = s.skip(from as int);
            assert(left@ =~= rest);
            lemma_blank_at(rest, 0);
            let i = blank_at(rest, 0);
            if i + 1 < rest.len() {
                assert(s[from + i] == '\n' && s[from + i + 1] == '\n');
                assert(from + i < at);
            }
            assert(out.deep_view() + payloads(Seq::<Seq<char>>::empty()) =~= out.deep_view());
        }
        self.buffer = left;
        out
    }

    /// Takes a chunk of the stream as it came and hands out the payloads that it
    /// completes.
    pub fn feed_bytes(&mut self, chunk: &Vec<u8>) -> (r: Vec<String>)
        ensures
            r.deep_view() == payloads(frames(old(self)@.buffer + lossy_text(chunk@))),
            final(self)@ == (EventReaderV {
                buffer: leftover(old(self)@.buffer + lossy_text(chunk@)),
                ..old(self)@
            }),
    {
        let text = from_utf8_lossy(chunk);
        self.feed(text.as_str())
    }

    /// Looks at an event before it is dealt with: the first `server.connected` of a
    /// stream marks the connection as up. Tells whether the server has been disposed
    /// of, which ends the reading.
    pub fn note_event(&mut self, state: &mut RemoteState, event: Option<&Json>) -> (disposed: bool)
        ensures
            final(self)@.buffer == old(self)@.buffer,
            final(self)@.saw_connected == (old(self)@.saw_connected || event_name(opt_tree(event))
                == Some("server.connected"@)),
            final(state)@ == connected_by(
                old(state)@,
                old(self)@.saw_connected,
                event_name(opt_tree(event)),
            ),
            disposed == (event_name(opt_tree(event)) == Some("server.instance.disposed"@)),
    {
        proof {
            reveal_strlit("server.connected");
            reveal_strlit("server.instance.disposed");
            assert("server.connected"@.len() != "server.instance.disposed"@.len());
        }
        let event = match event {
            Some(e) => e,
            None => {
                return false;
            },
        };
        let inner = unwrap_event(event.copy());
        match inner.get_str("type") {
            Some(t) => {
                if str_eq(t, "server.connected") {
                    if !self.saw_connected {
                        self.saw_connected = true;
                        state.connection_status = RemoteAgentStatus::Connected;
                    }
                    false
                } else {
                    str_eq(t, "server.instance.disposed")
                }
            },
            None => false,
        }
    }

    /// Looks at the text of an event before it is dealt with.
    pub fn note_data(&mut self, state: &mut RemoteState, data: &str) -> (disposed: bool)
        ensures
            final(self)@.buffer == old(self)@.buffer,
            final(self)@.saw_connected == (old(self)@.saw_connected || event_name(parsed_text(data@))
                == Some("server.connected"@)),
            final(state)@ == connected_by(
                old(state)@,
                old(self)@.saw_connected,
                event_name(parsed_text(data@)),
            ),
            disposed == (event_name(parsed_text(data@)) == Some("server.instance.disposed"@)),
    {
        match Json::from_text(data) {
            Some(v) => self.note_event(state, Some(&v)),
            None => self.note_event(state, None),
        }
    }
}

/// The type of an event.
pub open spec fn event_name(event: Option<JsonV>) -> Option<Seq<char>> {
    match event {
        Some(v) => unwrapped(v).field_text("type"@),
        None => None,
    }
}

/// The state once an event has been looked at.
pub open spec fn connected_by(s: RemoteStateV, saw_connected: bool, name: Option<Seq<char>>) -> RemoteStateV {
    if name == Some("server.connected"@) && !saw_connected {
        RemoteStateV { connection_status: RemoteAgentStatus::Connected, ..s }
    } else {
        s
    }
}

/// The state, the connection and the actions after an event.
pub struct LinkStepV {
    pub state: RemoteStateV,
    pub link: ConnectionV,
    pub actions: Seq<ConnectActionV>,
}

impl ConnectionV {
    /// A request that looks something up at the server.
    pub open spec fn lookup(self, path: Seq<char>, timeout_secs: u64) -> HttpRequestV {
        HttpRequestV {
            method: HttpMethod::Get,
            url: self.base_url + path,
            auth: self.auth,
            body: None,
            timeout_secs,
        }
    }
}

/// The next wait after one of `ms`: twice as long, up to the longest.
pub open spec fn next_backoff(ms: u64) -> u64 {
    if 2 * ms > RECONNECT_DELAY_MAX_MS {
        RECONNECT_DELAY_MAX_MS
    } else {
        (2 * ms) as u64
    }
}

/// What is done once the session to come back to is settled.
pub open spec fn subscribing(s: RemoteStateV, c: ConnectionV, local_tools: bool) -> LinkStepV {
    LinkStepV {
        state: s,
        link: ConnectionV { phase: ConnectPhase::Describing, ..c },
        actions: (if local_tools {
            seq![ConnectActionV::EnsureLocalTools]
        } else {
            Seq::empty()
        }).push(ConnectActionV::PrimeCatalogs).push(ConnectActionV::RegisterForwarder).push(
            ConnectActionV::FetchApiDescription(c.lookup("/doc"@, 5)),
        ),
    }
}

/// The health check's answer.
pub open spec fn on_health(s: RemoteStateV, c: ConnectionV, ok: bool, status: Seq<char>) -> LinkStepV {
    if !ok {
        failed(s, c, "OpenCode health check returned "@ + status)
    } else {
        let s = RemoteStateV { connection_status: RemoteAgentStatus::Connected, ..s };
        match s.opencode_session_id {
            Some(id) => LinkStepV {
                state: s,
                link: ConnectionV { phase: ConnectPhase::Probing, ..c },
                actions: seq![
                    ConnectActionV::ProbeSession(c.lookup("/session/"@ + id, 10)),
                ],
            },
            None => subscribing(s, c, false),
        }
    }
}

/// A connection that cannot be had.
pub open spec fn failed(s: RemoteStateV, c: ConnectionV, why: Seq<char>) -> LinkStepV {
    LinkStepV {
        state: s,
        link: ConnectionV { phase: ConnectPhase::Failed, ..c },
        actions: seq![ConnectActionV::Fail(AppErrorV::Internal(why))],
    }
}

/// A pass over the event stream that ended, for whatever reason: the stream is read
/// again after a wait. A connection that was up waits the shortest time. The turn
/// slot is given back where the server disposed of its instance.
pub open spec fn on_reader_exit(s: RemoteStateV, c: ConnectionV, exit: ReaderExit) -> LinkStepV {
    let wait = if s.connection_status == RemoteAgentStatus::Connected {
        RECONNECT_DELAY_MIN_MS
    } else {
        c.backoff_ms
    };
    LinkStepV {
        state: RemoteStateV {
            connection_status: if s.connection_status == RemoteAgentStatus::Error {
                RemoteAgentStatus::Error
            } else {
                RemoteAgentStatus::Reconnecting
            },
            ..s
        },
        link: ConnectionV {
            phase: ConnectPhase::Waiting,
            backoff_ms: next_backoff(wait),
            ..c
        },
        actions: (if exit == ReaderExit::ServerDisposed {
            seq![ConnectActionV::ReleaseTurnSlot]
        } else {
            Seq::empty()
        }).push(ConnectActionV::Sleep { ms: wait }),
    }
}

/// The stream is read (again), after sub-agents that came up meanwhile are taken on.
pub open spec fn reading(s: RemoteStateV, c: ConnectionV) -> LinkStepV {
    LinkStepV {
        state: s,
        link: ConnectionV { phase: ConnectPhase::Reading, ..c },
        actions: Seq::<ConnectActionV>::empty().push(ConnectActionV::BackfillChildren).push(
            ConnectActionV::ReadEvents { url: c.event_url, auth: c.auth },
        ),
    }
}

/// How a connection goes on. An event that does not belong to its phase changes
/// nothing.
pub open spec fn link_step(s: RemoteStateV, c: ConnectionV, e: ConnectEventV) -> LinkStepV {
    match (c.phase, e) {
        (ConnectPhase::Idle, ConnectEventV::Begin) => LinkStepV {
            state: s,
            link: ConnectionV { phase: ConnectPhase::Checking, ..c },
            actions: seq![ConnectActionV::CheckHealth(c.lookup("/global/health"@, 10))],
        },
        (ConnectPhase::Checking, ConnectEventV::HealthUnreachable(why)) => failed(
            s,
            c,
            "OpenCode health check failed: "@ + why,
        ),
        (ConnectPhase::Checking, ConnectEventV::HealthAnswered { ok, status }) => on_health(
            s,
            c,
            ok,
            status,
        ),
        (ConnectPhase::Probing, ConnectEventV::SessionProbed { ok }) => if ok {
            subscribing(s, c, !c.server_tools)
        } else {
            subscribing(RemoteStateV { opencode_session_id: None, ..s }, c, false)
        },
        (ConnectPhase::Describing, ConnectEventV::ApiDescription(doc)) => reading(
            s,
            ConnectionV {
                event_url: c.base_url + event_path_of(doc),
                backoff_ms: RECONNECT_DELAY_MIN_MS,
                ..c
            },
        ),
        (ConnectPhase::Reading, ConnectEventV::ReaderEnded(exit)) => on_reader_exit(s, c, exit),
        (ConnectPhase::Waiting, ConnectEventV::Slept) => reading(s, c),
        _ => LinkStepV { state: s, link: c, actions: Seq::empty() },
    }
}

fn act(actions: &mut Vec<ConnectAction>, a: ConnectAction)
    ensures
        final(actions).deep_view() == old(actions).deep_view().push(a@),
{
    let ghost before = actions.deep_view();
    actions.push(a);
    assert(actions.deep_view() =~= before.push(a@));
}

fn no_actions() -> (r: Vec<ConnectAction>)
    ensures
        r.deep_view() == Seq::<ConnectActionV>::empty(),
{
    let r: Vec<ConnectAction> = Vec::new();
    assert(r.deep_view() =~= Seq::<ConnectActionV>::empty());
    r
}

impl Connection {
    /// A connection to a server that has not begun.
    pub fn new(cfg: &RemoteAgentConfig) -> (r: Connection)
        ensures
            r@ == (ConnectionV {
                phase: ConnectPhase::Idle,
                base_url: base_url_of(cfg@.url),
                auth: cfg@.auth_header(),
                server_tools: cfg@.server_tools(),
                event_url: Seq::empty(),
                backoff_ms: RECONNECT_DELAY_MIN_MS,
            }),
            r.in_bounds(),
    {
        let r = Connection {
            phase: ConnectPhase::Idle,
            base_url: normalize_base_url(cfg.url.as_str()),
            auth: auth(cfg),
            server_tools: is_server_tool_host(cfg),
            event_url: String::new(),
            backoff_ms: RECONNECT_DELAY_MIN_MS,
        };
        assert(r@.event_url =~= Seq::<char>::empty());
        r
    }

    /// Whether the wait is within its limits.
    pub open spec fn in_bounds(self) -> bool {
        RECONNECT_DELAY_MIN_MS <= self@.backoff_ms <= RECONNECT_DELAY_MAX_MS
    }

    fn look_up(&self, path: &str, timeout_secs: u64) -> (r: HttpRequest)
        ensures
            r@ == self@.lookup(path@, timeout_secs),
    {
        HttpRequest {
            method: HttpMethod::Get,
            url: cat(self.base_url.as_str(), path),
            auth: copy_opt(&self.auth),
            body: None,
            timeout_secs,
        }
    }

    fn fail(&mut self, why: String, actions: &mut Vec<ConnectAction>)
        ensures
            final(self)@ == (ConnectionV { phase: ConnectPhase::Failed, ..old(self)@ }),
            final(actions).deep_view() == old(actions).deep_view().push(
                ConnectActionV::Fail(AppErrorV::Internal(why@)),
            ),
    {
        self.phase = ConnectPhase::Failed;
        act(actions, ConnectAction::Fail(AppError::Internal(why)));
    }

    fn subscribe(&mut self, local_tools: bool, actions: &mut Vec<ConnectAction>)
        requires
            old(actions).deep_view() == Seq::<ConnectActionV>::empty(),
        ensures
            forall|s: RemoteStateV|
                final(self)@ == (#[trigger] subscribing(s, old(self)@, local_tools)).link,
            forall|s: RemoteStateV|
                final(actions).deep_view() == (#[trigger] subscribing(
                    s,
                    old(self)@,
                    local_tools,
                )).actions,
    {
        self.phase = ConnectPhase::Describing;
        if local_tools {
            act(actions, ConnectAction::EnsureLocalTools);
        }
        act(actions, ConnectAction::PrimeCatalogs);
        act(actions, ConnectAction::RegisterForwarder);
        act(actions, ConnectAction::FetchApiDescription(self.look_up("/doc", 5)));
    }

    fn read_again(&mut self, actions: &mut Vec<ConnectAction>)
        requires
            old(actions).deep_view() == Seq::<ConnectActionV>::empty(),
        ensures
            forall|s: RemoteStateV| final(self)@ == (#[trigger] reading(s, old(self)@)).link,
            forall|s: RemoteStateV|
                final(actions).deep_view() == (#[trigger] reading(s, old(self)@)).actions,
    {
        self.phase = ConnectPhase::Reading;
        act(actions, ConnectAction::BackfillChildren);
        act(
            actions,
            ConnectAction::ReadEvents { url: self.event_url.clone(), auth: copy_opt(&self.auth) },
        );
    }

    /// Goes on with a connection: takes what happened, and says what to do next.
    pub fn advance(&mut self, state: &mut RemoteState, event: ConnectEvent) -> (r: Vec<ConnectAction>)
        requires
            old(self).in_bounds(),
        ensures
            final(self)@ == link_step(old(state)@, old(self)@, event@).link,
            final(state)@ == link_step(old(state)@, old(self)@, event@).state,
            r.deep_view() == link_step(old(state)@, old(self)@, event@).actions,
            final(self).in_bounds(),
    {
        let mut actions = no_actions();
        match (self.phase, event) {
            (ConnectPhase::Idle, ConnectEvent::Begin) => {
                self.phase = ConnectPhase::Checking;
                act(&mut actions, ConnectAction::CheckHealth(self.look_up("/global/health", 10)));
            },
            (ConnectPhase::Checking, ConnectEvent::HealthUnreachable(why)) => {
                self.fail(cat("OpenCode health check failed: ", why.as_str()), &mut actions);
            },
            (ConnectPhase::Checking, ConnectEvent::HealthAnswered { ok, status }) => {
                if !ok {
                    self.fail(cat("OpenCode health check returned ", status.as_str()), &mut actions);
                } else {
                    state.connection_status = RemoteAgentStatus::Connected;
                    match &state.opencode_session_id {
                        Some(id) => {
                            self.phase = ConnectPhase::Probing;
                            let path = cat("/session/", id.as_str());
                            act(
                                &mut actions,
                                ConnectAction::ProbeSession(self.look_up(path.as_str(), 10)),
                            );
                        },
                        None => {
                            self.subscribe(false, &mut actions);
                        },
                    }
                }
            },
            (ConnectPhase::Probing, ConnectEvent::SessionProbed { ok }) => {
                if ok {
                    let local_tools = !self.server_tools;
                    self.subscribe(local_tools, &mut actions);
                } else {
                    state.opencode_session_id = None;
                    self.subscribe(false, &mut actions);
                }
            },
            (ConnectPhase::Describing, ConnectEvent::ApiDescription(doc)) => {
                let path = match &doc {
                    Some(d) => event_path(Some(d)),
                    None => event_path(None),
                };
                self.event_url = cat(self.base_url.as_str(), path);
                self.backoff_ms = RECONNECT_DELAY_MIN_MS;
                self.read_again(&mut actions);
            },
            (ConnectPhase::Reading, ConnectEvent::ReaderEnded(exit)) => {
                let wait: u64 = if state.connection_status == RemoteAgentStatus::Connected {
                    RECONNECT_DELAY_MIN_MS
                } else {
                    self.backoff_ms
                };
                if state.connection_status != RemoteAgentStatus::Error {
                    state.connection_status = RemoteAgentStatus::Reconnecting;
                }
                self.phase = ConnectPhase::Waiting;
                self.backoff_ms = if 2 * wait > RECONNECT_DELAY_MAX_MS {
                    RECONNECT_DELAY_MAX_MS
                } else {
                    2 * wait
                };
                if exit == ReaderExit::ServerDisposed {
                    act(&mut actions, ConnectAction::ReleaseTurnSlot);
                }
                act(&mut actions, ConnectAction::Sleep { ms: wait });
            },
            (ConnectPhase::Waiting, ConnectEvent::Slept) => {
                self.read_again(&mut actions);
            },
            _ => {},
        }
        actions
    }
}

/// However a pass over the stream ends, the stream is read again after a wait that is
/// within its limits, and the next wait is at most twice as long.
pub proof fn reading_goes_on(s: RemoteStateV, c: ConnectionV, exit: ReaderExit)
    requires
        c.phase == ConnectPhase::Reading,
        RECONNECT_DELAY_MIN_MS <= c.backoff_ms <= RECONNECT_DELAY_MAX_MS,
    ensures
        ({
            let ended = link_step(s, c, ConnectEventV::ReaderEnded(exit));
            let again = link_step(ended.state, ended.link, ConnectEventV::Slept);
            &&& ended.actions.last() matches ConnectActionV::Sleep { ms } && RECONNECT_DELAY_MIN_MS
                <= ms <= RECONNECT_DELAY_MAX_MS
            &&& RECONNECT_DELAY_MIN_MS <= ended.link.backoff_ms <= RECONNECT_DELAY_MAX_MS
            &&& ended.link.backoff_ms <= 2 * ended.actions.last()->ms
            &&& again.link.phase == ConnectPhase::Reading
            &&& again.actions.last() == (ConnectActionV::ReadEvents { url: c.event_url, auth: c.auth })
        }),
{
}

/// A connection that was up is tried again after the shortest wait.
pub proof fn a_working_connection_is_retried_soon(s: RemoteStateV, c: ConnectionV, exit: ReaderExit)
    requires
        c.phase == ConnectPhase::Reading,
        s.connection_status == RemoteAgentStatus::Connected,
    ensures
        link_step(s, c, ConnectEventV::ReaderEnded(exit)).actions.last() == (
        ConnectActionV::Sleep { ms: RECONNECT_DELAY_MIN_MS }),
{
}

/// A session that the server no longer knows is forgotten, so that the next prompt
/// starts a fresh one; one that it knows is kept.
pub proof fn stale_sessions_are_forgotten(s: RemoteStateV, c: ConnectionV)
    requires
        c.phase == ConnectPhase::Probing,
    ensures
        link_step(
            s,
            c,
            ConnectEventV::SessionProbed { ok: false },
        ).state.opencode_session_id is None,
        link_step(s, c, ConnectEventV::SessionProbed { ok: true }).state == s,
{
}

/// An event of the stream is read whole once its blank line has come: what is behind
/// `data: ` is its payload. Nothing is left of it.
pub proof fn an_event_of_the_stream_is_read(payload: Seq<char>)
    requires
        !payload.contains('\n'),
    ensures
        payloads(frames("data: "@ + payload + "\n\n"@)) == seq![payload],
        leftover("data: "@ + payload + "\n\n"@).len() == 0,
        frames("data: "@ + payload + "\n"@).len() == 0,
        leftover("data: "@ + payload + "\n"@) == "data: "@ + payload + "\n"@,
{
    reveal_strlit("data: ");
    reveal_strlit("\n\n");
    reveal_strlit("\n");
    let line = "data: "@ + payload;
    assert("data: "@.len() == 6);
    assert forall|k: int| 0 <= k < line.len() implies line[k] != '\n' by {
        if k >= 6 {
            assert(line[k] == payload[k - 6]);
        } else {
            assert(line[k] == "data: "@[k]);
            assert("data: "@[0] == 'd' && "data: "@[1] == 'a' && "data: "@[2] == 't' && "data: "@[3] == 'a'
                && "data: "@[4] == ':' && "data: "@[5] == ' ');
        }
    }
    let s = line + "\n\n"@;
    let n = line.len() as int;
    assert(s[n] == '\n' && s[n + 1] == '\n');
    assert forall|k: int| 0 <= k < n implies !(#[trigger] s[k] == '\n' && s[k + 1] == '\n') by {
        assert(s[k] == line[k]);
    }
    lemma_blank_is(s, 0, n);
    assert(s.take(n) =~= line);
    assert(s.skip(n + 2) =~= Seq::<char>::empty());
    assert(frames(Seq::empty()) =~= Seq::<Seq<char>>::empty());
    assert(frames(s) =~= seq![line]);
    assert(leftover(Seq::empty()) =~= Seq::<char>::empty());
    assert(leftover(s) == leftover(s.skip(n + 2)));
    lemma_line_alone(line);
    assert(frame_data(line) =~= seq![payload]) by {
        assert(pieces(line, '\n') == seq![line]);
        reveal_with_fuel(data_in, 2);
        assert(line.take(6) =~= "data: "@);
        assert(line.skip(6) =~= payload);
    }
    assert(payloads(Seq::<Seq<char>>::empty()) =~= Seq::<Seq<char>>::empty());
    assert(seq![line].drop_last() =~= Seq::<Seq<char>>::empty());
    assert(payloads(seq![line]) =~= seq![payload]);
    let t = line + "\n"@;
    lemma_blank_at(t, 0);
    let i = blank_at(t, 0);
    if i + 1 < t.len() {
        assert(t[i] == line[i]);
    }
}

proof fn lemma_line_alone(a: Seq<char>)
    requires
        forall|k: int| 0 <= k < a.len() ==> #[trigger] a[k] != '\n',
    ensures
        pieces(a, '\n') == seq![a],
    decreases a.len(),
{
    if a.len() > 0 {
        let d = a.drop_last();
        assert forall|k: int| 0 <= k < d.len() implies #[trigger] d[k] != '\n' by {
            assert(d[k] == a[k]);
        }
        lemma_line_alone(d);
        assert(a[a.len() - 1] != '\n');
        assert(d.push(a.last()) =~= a);
        assert(pieces(a, '\n') =~= seq![a]);
    } else {
        assert(a =~= Seq::<char>::empty());
    }
}

/// The events of a stream are read in the order in which they came.
pub proof fn events_are_read_in_order(first: Seq<char>, rest: Seq<char>)
    requires
        !first.contains('\n'),
    ensures
        payloads(frames("data: "@ + first + "\n\n"@ + rest)) == seq![first] + payloads(frames(rest)),
{
    let a = "data: "@ + first + "\n\n"@;
    an_event_of_the_stream_is_read(first);
    chunks_do_not_matter(a, rest);
    assert(leftover(a) + rest =~= rest);
    lemma_payloads_of(frames(a), frames(rest));
}

proof fn lemma_payloads_of(a: Seq<Seq<char>>, b: Seq<Seq<char>>)
    ensures
        payloads(a + b) == payloads(a) + payloads(b),
    decreases b.len(),
{
    if b.len() == 0 {
        assert(a + b =~= a);
        assert(payloads(a) + payloads(b) =~= payloads(a));
    } else {
        assert((a + b).drop_last() =~= a + b.drop_last());
        lemma_payloads_of(a, b.drop_last());
        assert(payloads(a + b) =~= payloads(a) + payloads(b));
    }
}

/// A line of the stream that is no data hands nothing out.
pub proof fn other_lines_hand_nothing_out(line: Seq<char>)
    requires
        !line.contains('\n'),
        !begins(line, "data: "@),
    ensures
        frame_data(line).len() == 0,
{
    lemma_line_alone(line);
    reveal_with_fuel(data_in, 2);
}

/// A server is asked whether it is well before anything else. Where it is not, connecting
/// fails with the server's words and nothing changes; where it is, the connection is up,
/// and a session that the conversation has is looked up.
pub proof fn a_server_is_asked_for_its_health(
    s: RemoteStateV,
    c: ConnectionV,
    status: Seq<char>,
    why: Seq<char>,
)
    requires
        c.phase == ConnectPhase::Idle,
    ensures
        ({
            let begun = link_step(s, c, ConnectEventV::Begin);
            let well = link_step(s, begun.link, ConnectEventV::HealthAnswered { ok: true, status });
            let ill = link_step(s, begun.link, ConnectEventV::HealthAnswered { ok: false, status });
            let lost = link_step(s, begun.link, ConnectEventV::HealthUnreachable(why));
            &&& begun.state == s
            &&& begun.actions.len() == 1
            &&& begun.actions[0] matches ConnectActionV::CheckHealth(q) && q.method == HttpMethod::Get && q.url
                == c.base_url + "/global/health"@ && q.auth == c.auth
            &&& well.state == (RemoteStateV { connection_status: RemoteAgentStatus::Connected, ..s })
            &&& s.opencode_session_id matches Some(id) ==> well.actions.len() == 1 && (well.actions[0] matches
                ConnectActionV::ProbeSession(q) && q.method == HttpMethod::Get && q.url == c.base_url
                + ("/session/"@ + id) && q.auth == c.auth)
            &&& s.opencode_session_id is None ==> (well.actions.last() matches
                ConnectActionV::FetchApiDescription(q) && q.url == c.base_url + "/doc"@)
            &&& ill.state == s
            &&& ill.actions == seq![
                ConnectActionV::Fail(AppErrorV::Internal("OpenCode health check returned "@ + status)),
            ]
            &&& lost.state == s
            &&& lost.actions == seq![
                ConnectActionV::Fail(AppErrorV::Internal("OpenCode health check failed: "@ + why)),
            ]
        }),
{
}

/// The stream is read where the server offers it: at the global path, unless the server
/// lists the other one alone.
pub proof fn the_stream_is_read_where_it_is_offered(
    s: RemoteStateV,
    c: ConnectionV,
    doc: JsonV,
    paths: JsonV,
)
    requires
        c.phase == ConnectPhase::Describing,
        doc.field("paths"@) == Some(paths),
    ensures
        ({
            let there = link_step(s, c, ConnectEventV::ApiDescription(Some(doc)));
            let unknown = link_step(s, c, ConnectEventV::ApiDescription(None));
            let only_old = paths.field("/global/event"@) is None && paths.field("/event"@) is Some;
            &&& there.state == s
            &&& there.actions.last() == (ConnectActionV::ReadEvents {
                url: c.base_url + (if only_old {
                    "/event"@
                } else {
                    "/global/event"@
                }),
                auth: c.auth,
            })
            &&& there.actions[0] is BackfillChildren
            &&& unknown.actions.last() == (ConnectActionV::ReadEvents {
                url: c.base_url + "/global/event"@,
                auth: c.auth,
            })
        }),
{
}

/// A connection that does not come up is tried again after waits that double, from a
/// quarter of a second to five seconds. While it is down it is marked as reconnecting,
/// unless it is marked as failed. The turn is free where the server went away.
pub proof fn waits_double(s: RemoteStateV, c: ConnectionV, exit: ReaderExit)
    requires
        c.phase == ConnectPhase::Reading,
        s.connection_status != RemoteAgentStatus::Connected,
        250 <= c.backoff_ms <= 5000,
    ensures
        ({
            let ended = link_step(s, c, ConnectEventV::ReaderEnded(exit));
            &&& ended.actions.last() == (ConnectActionV::Sleep { ms: c.backoff_ms })
            &&& ended.link.backoff_ms == (if 2 * c.backoff_ms > 5000 {
                5000
            } else {
                2 * c.backoff_ms
            })
            &&& ended.state.connection_status == (if s.connection_status == RemoteAgentStatus::Error {
                RemoteAgentStatus::Error
            } else {
                RemoteAgentStatus::Reconnecting
            })
            &&& (ended.actions.len() == 2) == (exit == ReaderExit::ServerDisposed)
            &&& exit == ReaderExit::ServerDisposed ==> ended.actions[0] is ReleaseTurnSlot
        }),
{
}

/// The first word of a server that it is connected marks the connection as up; nothing
/// else does.
pub proof fn a_servers_word_marks_the_connection(s: RemoteStateV, saw: bool, name: Option<Seq<char>>)
    ensures
        connected_by(s, false, Some("server.connected"@)).connection_status == RemoteAgentStatus::Connected,
        connected_by(s, true, name) == s,
        name != Some("server.connected"@) ==> connected_by(s, saw, name) == s,
{
}

} // verus!
