//! Log events that go to a remote server: which of them, in what shape, and what
//! happens where they come faster than they are sent.
use vstd::prelude::*;

use crate::collections::{
    assoc, entry_reads_back, lemma_assoc_without, map_get, map_put, map_remove, with_entry, without_key,
};
use crate::http::{HttpMethod, HttpRequest, HttpRequestV};
use crate::json::{fields, json_text, integer_v, opt_str, with_field_v, Json, JsonNumber, JsonV, Obj};
use crate::payloads::{OpencodeLogEntry, OpencodeLogEntryV};
use crate::text::{cat, chars_of, str_eq, string_between, trim_end_char, without_suffix_char};
use crate::types::own_opt;

verus! {

/// How many entries wait to be sent.
pub const QUEUE_CAP: usize = 256;

/// How much an event matters.
#[derive(Debug, Clone, Copy, PartialEq, Eq, Structural)]
pub enum LogLevel {
    Error,
    Warn,
    Info,
    Debug,
    Trace,
}

impl View for LogLevel {
    type V = LogLevel;

    open spec fn view(&self) -> LogLevel {
        *self
    }
}

impl DeepView for LogLevel {
    type V = LogLevel;

    open spec fn deep_view(&self) -> LogLevel {
        *self
    }
}

/// An entry to be sent.
#[derive(Debug, PartialEq, Eq)]
pub struct LogEntry {
    pub level: String,
    pub message: String,
    /// Where in the program it comes from.
    pub target: String,
    pub extra: Json,
}

/// Model of [`LogEntry`].
pub struct LogEntryV {
    pub level: Seq<char>,
    pub message: Seq<char>,
    pub target: Seq<char>,
    pub extra: JsonV,
}

impl View for LogEntry {
    type V = LogEntryV;

    open spec fn view(&self) -> LogEntryV {
        LogEntryV {
            level: self.level.deep_view(),
            message: self.message.deep_view(),
            target: self.target.deep_view(),
            extra: self.extra.deep_view(),
        }
    }
}

impl DeepView for LogEntry {
    type V = LogEntryV;

    open spec fn deep_view(&self) -> LogEntryV {
        self@
    }
}

impl LogEntry {
    /// An equal value.
    pub fn copy(&self) -> (r: LogEntry)
        ensures
            r@ == self@,
    {
        LogEntry {
            level: self.level.clone(),
            message: self.message.clone(),
            target: self.target.clone(),
            extra: self.extra.copy(),
        }
    }
}

/// The value of a field of an event: never a list or an object.
#[derive(Debug, PartialEq, Eq)]
pub enum FieldValue {
    /// What is no number, such as one divided by zero.
    Null,
    Bool(bool),
    Number(JsonNumber),
    Text(String),
}

impl View for FieldValue {
    type V = JsonV;

    open spec fn view(&self) -> JsonV {
        match self {
            FieldValue::Null => JsonV::Null,
            FieldValue::Bool(b) => JsonV::Bool(*b),
            FieldValue::Number(n) => JsonV::Number(n@),
            FieldValue::Text(s) => JsonV::Str(s@),
        }
    }
}

impl FieldValue {
    /// An integer.
    pub fn integer(n: i64) -> (r: FieldValue)
        ensures
            r@ == integer_v(n as int),
    {
        if n >= 0 {
            FieldValue::Number(JsonNumber::Unsigned(n as u64))
        } else {
            FieldValue::Number(JsonNumber::Negative(n))
        }
    }

    fn into_json(self) -> (r: Json)
        ensures
            r@ == self@,
    {
        match self {
            FieldValue::Null => Json::Null,
            FieldValue::Bool(b) => Json::Bool(b),
            FieldValue::Number(n) => Json::Number(n),
            FieldValue::Text(s) => Json::Str(s),
        }
    }
}

/// Whether a value is neither a list nor an object.
pub open spec fn is_plain(v: JsonV) -> bool {
    !(v is Array) && !(v is Object)
}

/// Whether the values under some names are plain.
pub open spec fn all_plain(o: Seq<(Seq<char>, JsonV)>) -> bool {
    forall|i: int| 0 <= i < o.len() ==> is_plain((#[trigger] o[i]).1)
}

/// Whether a tree is an object whose values are plain.
pub open spec fn holds_plain_values(v: JsonV) -> bool {
    v matches JsonV::Object(o) && all_plain(o)
}

/// The fields of an event, as they are gathered.
#[derive(Debug, PartialEq, Eq)]
pub struct FieldVisitor {
    pub conversation_id: Option<String>,
    pub message: Option<String>,
    /// The other fields, by name.
    pub extra: Json,
}

/// Model of [`FieldVisitor`].
pub struct FieldVisitorV {
    pub conversation_id: Option<Seq<char>>,
    pub message: Option<Seq<char>>,
    pub extra: JsonV,
}

impl View for FieldVisitor {
    type V = FieldVisitorV;

    open spec fn view(&self) -> FieldVisitorV {
        FieldVisitorV {
            conversation_id: self.conversation_id.deep_view(),
            message: self.message.deep_view(),
            extra: self.extra.deep_view(),
        }
    }
}

impl DeepView for FieldVisitor {
    type V = FieldVisitorV;

    open spec fn deep_view(&self) -> FieldVisitorV {
        self@
    }
}

/// The entries that wait to be sent, oldest first.
#[derive(Debug, PartialEq, Eq)]
pub struct LogQueue {
    pub entries: Vec<LogEntry>,
}

/// Model of [`LogQueue`].
pub struct LogQueueV {
    pub entries: Seq<LogEntryV>,
}

impl View for LogQueue {
    type V = LogQueueV;

    open spec fn view(&self) -> LogQueueV {
        LogQueueV {
            entries: self.entries.deep_view(),
        }
    }
}

impl DeepView for LogQueue {
    type V = LogQueueV;

    open spec fn deep_view(&self) -> LogQueueV {
        self@
    }
}

/// Which conversations are forwarded, and through which queue.
#[derive(Debug, PartialEq, Eq)]
pub struct OpenCodeLogLayer {
    pub queues: Vec<(String, i64)>,
    /// The number of the next queue.
    pub next: i64,
}

/// Model of [`OpenCodeLogLayer`].
pub struct OpenCodeLogLayerV {
    pub queues: Seq<(Seq<char>, i64)>,
    pub next: i64,
}

impl View for OpenCodeLogLayer {
    type V = OpenCodeLogLayerV;

    open spec fn view(&self) -> OpenCodeLogLayerV {
        OpenCodeLogLayerV {
            queues: self.queues.deep_view(),
            next: self.next.deep_view(),
        }
    }
}

impl DeepView for OpenCodeLogLayer {
    type V = OpenCodeLogLayerV;

    open spec fn deep_view(&self) -> OpenCodeLogLayerV {
        self@
    }
}

/// The word for a level that is forwarded: noisier ones stay here.
pub open spec fn level_word(level: LogLevel) -> Option<Seq<char>> {
    match level {
        LogLevel::Error => Some("error"@),
        LogLevel::Warn => Some("warn"@),
        LogLevel::Info => Some("info"@),
        LogLevel::Debug => None,
        LogLevel::Trace => None,
    }
}

fn word_of_level(level: LogLevel) -> (r: Option<&'static str>)
    ensures
        opt_str(r) == level_word(level),
{
    match level {
        LogLevel::Error => Some("error"),
        LogLevel::Warn => Some("warn"),
        LogLevel::Info => Some("info"),
        LogLevel::Debug => None,
        LogLevel::Trace => None,
    }
}

/// A text without the characters `c` that it begins with.
pub open spec fn without_prefix_char(s: Seq<char>, c: char) -> Seq<char>
    decreases s.len(),
{
    if s.len() > 0 && s[0] == c {
        without_prefix_char(s.drop_first(), c)
    } else {
        s
    }
}

/// A text without the quotes around it.
pub open spec fn unquoted(s: Seq<char>) -> Seq<char> {
    without_suffix_char(without_prefix_char(s, '"'), '"')
}

fn unquote(s: &str) -> (r: String)
    ensures
        r@ == unquoted(s@),
{
    let v = chars_of(s);
    let mut i: usize = 0;
    assert(s@.skip(0) =~= s@);
    while i < v.len() && v[i] == '"'
        invariant
            i <= v.len(),
            v@ == s@,
            without_prefix_char(s@, '"') == without_prefix_char(s@.skip(i as int), '"'),
        decreases v.len() - i,
    {
        assert(s@.skip(i as int).drop_first() =~= s@.skip(i as int + 1));
        i += 1;
    }
    let rest = string_between(&v, i, v.len());
    assert(rest@ =~= s@.skip(i as int));
    trim_end_char(rest.as_str(), '"')
}

/// The fields with one more. The conversation and the message are kept apart; another
/// field takes the place of one with its name.
pub open spec fn recorded(v: FieldVisitorV, name: Seq<char>, value: JsonV) -> FieldVisitorV {
    if name == "conversation_id"@ {
        FieldVisitorV {
            conversation_id: Some(
                match value.text() {
                    Some(s) => s,
                    None => unquoted(json_text(value)),
                },
            ),
            ..v
        }
    } else if name == "message"@ {
        FieldVisitorV {
            message: Some(
                match value.text() {
                    Some(s) => s,
                    None => json_text(value),
                },
            ),
            ..v
        }
    } else {
        FieldVisitorV {
            extra: JsonV::Object(with_field_v(v.extra->Object_0, name, value)),
            ..v
        }
    }
}

proof fn lemma_field_keeps_plain(o: Seq<(Seq<char>, JsonV)>, name: Seq<char>, value: JsonV)
    requires
        all_plain(o),
        is_plain(value),
    ensures
        all_plain(with_field_v(o, name, value)),
    decreases o.len(),
{
    if o.len() > 0 {
        let d = o.drop_first();
        assert forall|i: int| 0 <= i < d.len() implies is_plain((#[trigger] d[i]).1) by {
            assert(d[i] == o[i + 1]);
        }
        if o[0].0 != name {
            lemma_field_keeps_plain(d, name, value);
        }
        let w = with_field_v(o, name, value);
        assert forall|i: int| 0 <= i < w.len() implies is_plain((#[trigger] w[i]).1) by {
            if i > 0 {
                if o[0].0 == name {
                    assert(w[i] == d[i - 1]);
                } else {
                    assert(w[i] == with_field_v(d, name, value)[i - 1]);
                }
            }
        }
    }
}

/// What is forwarded of an event holds plain values only, beside its message and where
/// it comes from.
pub proof fn forwarded_fields_are_plain(
    layer: OpenCodeLogLayerV,
    level: LogLevel,
    target: Seq<char>,
    event: FieldVisitorV,
)
    requires
        event.wf(),
    ensures
        routed(layer, level, target, event) matches Some((_, entry)) ==> holds_plain_values(
            entry.extra,
        ),
{
}

impl FieldVisitorV {
    /// The fields are values without parts.
    pub open spec fn wf(self) -> bool {
        holds_plain_values(self.extra)
    }
}

impl FieldVisitor {
    /// No fields yet.
    pub fn new() -> (r: FieldVisitor)
        ensures
            r@.wf(),
            r@ == (FieldVisitorV {
                conversation_id: None,
                message: None,
                extra: JsonV::Object(fields()),
            }),
    {
        FieldVisitor { conversation_id: None, message: None, extra: Obj::new().build() }
    }

    /// Takes up a field.
    pub fn record(&mut self, name: &str, value: FieldValue)
        requires
            old(self)@.wf(),
        ensures
            final(self)@ == recorded(old(self)@, name@, value@),
            final(self)@.wf(),
    {
        proof {
            lemma_field_keeps_plain(self@.extra->Object_0, name@, value@);
        }
        let value = value.into_json();
        if str_eq(name, "conversation_id") {
            let id = match value.as_str() {
                Some(s) => s.to_owned(),
                None => {
                    let t = value.to_text();
                    unquote(t.as_str())
                },
            };
            self.conversation_id = Some(id);
        } else if str_eq(name, "message") {
            let m = match value.as_str() {
                Some(s) => s.to_owned(),
                None => value.to_text(),
            };
            self.message = Some(m);
        } else {
            self.extra = self.extra.with_field(name, value);
        }
    }
}

/// The layer with a queue for a conversation, in place of the one that it had.
pub open spec fn forwarding(layer: OpenCodeLogLayerV, conversation_id: Seq<char>) -> OpenCodeLogLayerV {
    OpenCodeLogLayerV {
        queues: with_entry(layer.queues, conversation_id, layer.next),
        next: (layer.next + 1) as i64,
    }
}

/// The layer without a conversation.
pub open spec fn not_forwarding(layer: OpenCodeLogLayerV, conversation_id: Seq<char>) -> OpenCodeLogLayerV {
    OpenCodeLogLayerV { queues: without_key(layer.queues, conversation_id), ..layer }
}

/// Forwards the events of a conversation from now on; the number of their queue.
pub fn register_forwarder(layer: &mut OpenCodeLogLayer, conversation_id: &str) -> (r: i64)
    requires
        old(layer)@.next < i64::MAX,
    ensures
        r == old(layer)@.next,
        final(layer)@ == forwarding(old(layer)@, conversation_id@),
{
    let number: i64 = layer.next;
    map_put(&mut layer.queues, conversation_id, number);
    layer.next = number + 1;
    number
}

/// Forwards the events of a conversation no longer.
pub fn unregister_forwarder(layer: &mut OpenCodeLogLayer, conversation_id: &str)
    ensures
        final(layer)@ == not_forwarding(old(layer)@, conversation_id@),
{
    map_remove(&mut layer.queues, conversation_id);
}

/// What an event leads to: an entry and the queue that it goes to. Noise stays here,
/// as does what names no conversation or one that is not forwarded.
pub open spec fn routed(
    layer: OpenCodeLogLayerV,
    level: LogLevel,
    target: Seq<char>,
    event: FieldVisitorV,
) -> Option<(i64, LogEntryV)> {
    match (level_word(level), event.conversation_id) {
        (Some(word), Some(id)) => match assoc(layer.queues, id) {
            Some(queue) => Some(
                (
                    queue,
                    LogEntryV {
                        level: word,
                        message: match event.message {
                            Some(m) => m,
                            None => target,
                        },
                        target,
                        extra: event.extra,
                    },
                ),
            ),
            None => None,
        },
        _ => None,
    }
}

impl OpenCodeLogLayer {
    /// A layer that forwards nothing.
    pub fn new() -> (r: OpenCodeLogLayer)
        ensures
            r@ == (OpenCodeLogLayerV { queues: Seq::empty(), next: 0 }),
    {
        let queues: Vec<(String, i64)> = Vec::new();
        assert(queues.deep_view() =~= Seq::<(Seq<char>, i64)>::empty());
        OpenCodeLogLayer { queues, next: 0 }
    }

    /// What an event leads to.
    pub fn on_event(&self, level: LogLevel, target: &str, event: &FieldVisitor) -> (r: Option<
        (i64, LogEntry),
    >)
        ensures
            r.deep_view() == routed(self@, level, target@, event@),
    {
        let word = match word_of_level(level) {
            Some(w) => w,
            None => {
                return None;
            },
        };
        let id = match &event.conversation_id {
            Some(id) => id,
            None => {
                return None;
            },
        };
        match map_get(&self.queues, id.as_str()) {
            Some(queue) => {
                let message = match &event.message {
                    Some(m) => m.clone(),
                    None => target.to_owned(),
                };
                Some(
                    (
                        queue,
                        LogEntry {
                            level: word.to_owned(),
                            message,
                            target: target.to_owned(),
                            extra: event.extra.copy(),
                        },
                    ),
                )
            },
            None => None,
        }
    }
}

/// The entries that wait after one more came: the oldest make room for it.
pub open spec fn queued(entries: Seq<LogEntryV>, entry: LogEntryV) -> Seq<LogEntryV> {
    let all = entries.push(entry);
    if all.len() > QUEUE_CAP {
        all.skip(all.len() - QUEUE_CAP)
    } else {
        all
    }
}

impl LogQueue {
    /// A queue in which nothing waits.
    pub fn new() -> (r: LogQueue)
        ensures
            r@.entries == Seq::<LogEntryV>::empty(),
    {
        let entries: Vec<LogEntry> = Vec::new();
        assert(entries.deep_view() =~= Seq::<LogEntryV>::empty());
        LogQueue { entries }
    }

    /// Lets an entry wait.
    pub fn push(&mut self, entry: LogEntry)
        ensures
            final(self)@.entries == queued(old(self)@.entries, entry@),
    {
        let ghost before = self@.entries;
        self.entries.push(entry);
        let ghost all = self@.entries;
        assert(all =~= before.push(entry@));
        let ghost mut gone: int = 0;
        assert(all.skip(0) =~= all);
        while self.entries.len() > QUEUE_CAP
            invariant
                0 <= gone <= all.len(),
                self@.entries == all.skip(gone),
                gone > 0 ==> self@.entries.len() >= QUEUE_CAP,
            decreases self.entries.len(),
        {
            let ghost now = self@.entries;
            let dropped = self.entries.remove(0);
            proof {
                assert(self@.entries =~= now.drop_first());
                assert(all.skip(gone).drop_first() =~= all.skip(gone + 1));
                gone = gone + 1;
            }
        }
        assert(self@.entries =~= queued(before, entry@));
    }

    /// Takes the oldest entry.
    pub fn pop(&mut self) -> (r: Option<LogEntry>)
        ensures
            old(self)@.entries.len() == 0 ==> r is None && final(self)@ == old(self)@,
            old(self)@.entries.len() > 0 ==> {
                &&& r.deep_view() == Some(old(self)@.entries[0])
                &&& final(self)@.entries == old(self)@.entries.drop_first()
            },
    {
        let ghost now = self@.entries;
        if self.entries.len() == 0 {
            return None;
        }
        let first = self.entries.remove(0);
        assert(self@.entries =~= now.drop_first());
        Some(first)
    }
}

/// The request that sends an entry.
pub open spec fn log_request_v(
    base_url: Seq<char>,
    auth: Option<Seq<char>>,
    conversation_id: Seq<char>,
    entry: LogEntryV,
) -> HttpRequestV {
    HttpRequestV {
        method: HttpMethod::Post,
        url: without_suffix_char(base_url, '/') + "/log"@,
        auth,
        body: Some(
            (OpencodeLogEntryV {
                service: "aionui"@,
                level: entry.level,
                message: entry.message,
                extra: JsonV::Object(
                    fields().push(("conversation_id"@, JsonV::Str(conversation_id))).push(
                        ("target"@, JsonV::Str(entry.target)),
                    ).push(("fields"@, entry.extra)),
                ),
            }).json(),
        ),
        timeout_secs: 5,
    }
}

/// The request that sends an entry. It is sent once, whatever becomes of it.
pub fn log_request(base_url: &str, auth_header: Option<&str>, conversation_id: &str, entry: &LogEntry) -> (r:
    HttpRequest)
    ensures
        r@ == log_request_v(base_url@, opt_str(auth_header), conversation_id@, entry@),
{
    let extra = Obj::new().put_str("conversation_id", conversation_id).put_str(
        "target",
        entry.target.as_str(),
    ).put("fields", entry.extra.copy()).build();
    let body = OpencodeLogEntry {
        service: "aionui".to_owned(),
        level: entry.level.clone(),
        message: entry.message.clone(),
        extra,
    };
    let root = trim_end_char(base_url, '/');
    HttpRequest {
        method: HttpMethod::Post,
        url: cat(root.as_str(), "/log"),
        auth: own_opt(auth_header),
        body: Some(body.to_json()),
        timeout_secs: 5,
    }
}

/// A burst never holds more entries back than the queue takes, and always keeps the
/// newest.
pub proof fn bursts_drop_the_oldest(entries: Seq<LogEntryV>, entry: LogEntryV)
    requires
        entries.len() <= QUEUE_CAP,
    ensures
        queued(entries, entry).len() <= QUEUE_CAP,
        queued(entries, entry).last() == entry,
        entries.len() < QUEUE_CAP ==> queued(entries, entry) == entries.push(entry),
        entries.len() == QUEUE_CAP ==> queued(entries, entry) == entries.drop_first().push(entry),
{
    if entries.len() == QUEUE_CAP {
        assert(entries.push(entry).skip(1) =~= entries.drop_first().push(entry));
    }
}

/// Noise is not forwarded, whatever is registered.
pub proof fn noise_stays_here(
    layer: OpenCodeLogLayerV,
    target: Seq<char>,
    event: FieldVisitorV,
)
    ensures
        routed(layer, LogLevel::Debug, target, event) is None,
        routed(layer, LogLevel::Trace, target, event) is None,
{
}

/// Events of a conversation go to its newest queue while it is registered, and nowhere
/// once it no longer is; other conversations are not touched.
pub proof fn registration_routes(
    layer: OpenCodeLogLayerV,
    id: Seq<char>,
    level: LogLevel,
    target: Seq<char>,
    event: FieldVisitorV,
)
    requires
        event.conversation_id == Some(id),
    ensures
        level_word(level) is Some ==> (routed(forwarding(layer, id), level, target, event) matches Some(
            x,
        ) && x.0 == layer.next),
        routed(not_forwarding(layer, id), level, target, event) is None,
{
    entry_reads_back(layer.queues, id, layer.next);
    lemma_assoc_without(layer.queues, id);
}

} // verus!
