//! Servers that run on the user's own machine: how they are started, watched, started
//! again and stopped.
use vstd::prelude::*;

use crate::ids::random_id;
use crate::json::{
    fields, json_text, lemma_lookup_push, lookup, named_once, parse_result, plain, read_depth, reserved_name,
    same_tree, strings_v,
    Json, JsonV, Obj,
};
use crate::text::{
    begins, cat, cat3, chars_of, dec, is_digit, last_index, match_at, parse_unsigned, rfind_char,
    str_eq, string_between, u64_dec, unsigned_text,
};
use crate::types::outcome;

verus! {

/// How often a server is started again within a window.
pub const MAX_RESTARTS: u32 = 3;

/// How long the window is, in milliseconds.
pub const RESTART_WINDOW_MS: u64 = 300000;

/// How often a server's health is looked at, in seconds.
pub const HEALTH_CHECK_INTERVAL_SECS: u64 = 30;

/// How long a server may take to say where it listens, in seconds.
pub const PORT_CAPTURE_TIMEOUT_SECS: u64 = 30;

/// Where a server stands.
#[derive(Debug, Clone, Copy, PartialEq, Eq, Structural)]
pub enum LocalOpenCodeStatus {
    Starting,
    Running,
    Stopped,
    Crashed,
}

impl View for LocalOpenCodeStatus {
    type V = LocalOpenCodeStatus;

    open spec fn view(&self) -> LocalOpenCodeStatus {
        *self
    }
}

impl DeepView for LocalOpenCodeStatus {
    type V = LocalOpenCodeStatus;

    open spec fn deep_view(&self) -> LocalOpenCodeStatus {
        *self
    }
}

/// What is known of a server's process.
#[derive(Debug, Clone, Copy, PartialEq, Eq, Structural)]
pub enum ChildState {
    /// There is none.
    Absent,
    /// It runs.
    Alive,
    /// It ended well.
    Succeeded,
    /// It ended badly.
    Failed,
    /// It could not be asked.
    Unknown,
}

impl View for ChildState {
    type V = ChildState;

    open spec fn view(&self) -> ChildState {
        *self
    }
}

impl DeepView for ChildState {
    type V = ChildState;

    open spec fn deep_view(&self) -> ChildState {
        *self
    }
}

/// A server.
#[derive(Debug, PartialEq, Eq)]
pub struct OpenCodeInstance {
    pub id: String,
    pub name: String,
    pub working_dir: String,
    pub data_dir: String,
    pub port: Option<u16>,
    pub status: LocalOpenCodeStatus,
    pub pid: Option<u32>,
    pub agent_id: String,
    pub plugin_token: String,
    pub created_at: u64,
    /// How often it was started again within the window.
    pub restart_count: u32,
    /// When the window began, in milliseconds of a clock that never goes back.
    pub restart_window_start: u64,
}

/// Model of [`OpenCodeInstance`].
pub struct OpenCodeInstanceV {
    pub id: Seq<char>,
    pub name: Seq<char>,
    pub working_dir: Seq<char>,
    pub data_dir: Seq<char>,
    pub port: Option<u16>,
    pub status: LocalOpenCodeStatus,
    pub pid: Option<u32>,
    pub agent_id: Seq<char>,
    pub plugin_token: Seq<char>,
    pub created_at: u64,
    pub restart_count: u32,
    pub restart_window_start: u64,
}

impl View for OpenCodeInstance {
    type V = OpenCodeInstanceV;

    open spec fn view(&self) -> OpenCodeInstanceV {
        OpenCodeInstanceV {
            id: self.id.deep_view(),
            name: self.name.deep_view(),
            working_dir: self.working_dir.deep_view(),
            data_dir: self.data_dir.deep_view(),
            port: self.port.deep_view(),
            status: self.status.deep_view(),
            pid: self.pid.deep_view(),
            agent_id: self.agent_id.deep_view(),
            plugin_token: self.plugin_token.deep_view(),
            created_at: self.created_at.deep_view(),
            restart_count: self.restart_count.deep_view(),
            restart_window_start: self.restart_window_start.deep_view(),
        }
    }
}

impl DeepView for OpenCodeInstance {
    type V = OpenCodeInstanceV;

    open spec fn deep_view(&self) -> OpenCodeInstanceV {
        self@
    }
}

impl OpenCodeInstance {
    /// An equal value.
    pub fn copy(&self) -> (r: OpenCodeInstance)
        ensures
            r@ == self@,
    {
        OpenCodeInstance {
            id: self.id.clone(),
            name: self.name.clone(),
            working_dir: self.working_dir.clone(),
            data_dir: self.data_dir.clone(),
            port: self.port,
            status: self.status,
            pid: self.pid,
            agent_id: self.agent_id.clone(),
            plugin_token: self.plugin_token.clone(),
            created_at: self.created_at,
            restart_count: self.restart_count,
            restart_window_start: self.restart_window_start,
        }
    }
}

/// What is told of a server.
#[derive(Debug, PartialEq, Eq)]
pub struct LocalOpenCodeInstance {
    pub id: String,
    pub name: String,
    pub port: u16,
    pub status: LocalOpenCodeStatus,
    pub pid: Option<u32>,
    pub agent_id: String,
    pub working_dir: String,
    pub created_at: u64,
}

/// Model of [`LocalOpenCodeInstance`].
pub struct LocalOpenCodeInstanceV {
    pub id: Seq<char>,
    pub name: Seq<char>,
    pub port: u16,
    pub status: LocalOpenCodeStatus,
    pub pid: Option<u32>,
    pub agent_id: Seq<char>,
    pub working_dir: Seq<char>,
    pub created_at: u64,
}

impl View for LocalOpenCodeInstance {
    type V = LocalOpenCodeInstanceV;

    open spec fn view(&self) -> LocalOpenCodeInstanceV {
        LocalOpenCodeInstanceV {
            id: self.id.deep_view(),
            name: self.name.deep_view(),
            port: self.port.deep_view(),
            status: self.status.deep_view(),
            pid: self.pid.deep_view(),
            agent_id: self.agent_id.deep_view(),
            working_dir: self.working_dir.deep_view(),
            created_at: self.created_at.deep_view(),
        }
    }
}

impl DeepView for LocalOpenCodeInstance {
    type V = LocalOpenCodeInstanceV;

    open spec fn deep_view(&self) -> LocalOpenCodeInstanceV {
        self@
    }
}

/// What happened while a server was started.
#[derive(Debug, PartialEq, Eq)]
pub enum SpawnEvent {
    /// Its directory could not be made.
    DirFailed(String),
    /// Its process could not be started.
    LaunchFailed(String),
    /// Its process runs.
    Launched { pid: Option<u32> },
    /// Its output cannot be read.
    NoOutput,
    /// It wrote a line.
    Line(String),
    /// It wrote nothing more.
    Closed,
    /// It took too long.
    TimedOut,
}

/// Model of [`SpawnEvent`].
pub enum SpawnEventV {
    DirFailed(Seq<char>),
    LaunchFailed(Seq<char>),
    Launched { pid: Option<u32> },
    NoOutput,
    Line(Seq<char>),
    Closed,
    TimedOut,
}

impl View for SpawnEvent {
    type V = SpawnEventV;

    open spec fn view(&self) -> SpawnEventV {
        match self {
            SpawnEvent::DirFailed(x) => SpawnEventV::DirFailed(x.deep_view()),
            SpawnEvent::LaunchFailed(x) => SpawnEventV::LaunchFailed(x.deep_view()),
            SpawnEvent::Launched { pid } => SpawnEventV::Launched { pid: pid.deep_view() },
            SpawnEvent::NoOutput => SpawnEventV::NoOutput,
            SpawnEvent::Line(x) => SpawnEventV::Line(x.deep_view()),
            SpawnEvent::Closed => SpawnEventV::Closed,
            SpawnEvent::TimedOut => SpawnEventV::TimedOut,
        }
    }
}

impl DeepView for SpawnEvent {
    type V = SpawnEventV;

    open spec fn deep_view(&self) -> SpawnEventV {
        self@
    }
}

/// What is to be done next.
#[allow(inconsistent_fields)]
#[derive(Debug, PartialEq, Eq)]
pub enum SpawnStep {
    /// Read its output.
    Read,
    /// Nothing: it listens.
    Listening { port: u16 },
    /// Nothing: it did not start. Its process is to be ended, where it has one.
    Failed { why: String },
}

/// Model of [`SpawnStep`].
#[allow(inconsistent_fields)]
pub enum SpawnStepV {
    Read,
    Listening { port: u16 },
    Failed { why: Seq<char> },
}

impl View for SpawnStep {
    type V = SpawnStepV;

    open spec fn view(&self) -> SpawnStepV {
        match self {
            SpawnStep::Read => SpawnStepV::Read,
            SpawnStep::Listening { port } => SpawnStepV::Listening { port: port.deep_view() },
            SpawnStep::Failed { why } => SpawnStepV::Failed { why: why.deep_view() },
        }
    }
}

impl DeepView for SpawnStep {
    type V = SpawnStepV;

    open spec fn deep_view(&self) -> SpawnStepV {
        self@
    }
}

/// The servers of a machine.
#[derive(Debug, PartialEq, Eq)]
pub struct LocalOpenCodeManager {
    pub instances: Vec<OpenCodeInstance>,
    pub data_dir: Option<String>,
    /// Whether agents can be registered.
    pub has_repo: bool,
}

/// Model of [`LocalOpenCodeManager`].
pub struct LocalOpenCodeManagerV {
    pub instances: Seq<OpenCodeInstanceV>,
    pub data_dir: Option<Seq<char>>,
    pub has_repo: bool,
}

impl View for LocalOpenCodeManager {
    type V = LocalOpenCodeManagerV;

    open spec fn view(&self) -> LocalOpenCodeManagerV {
        LocalOpenCodeManagerV {
            instances: self.instances.deep_view(),
            data_dir: self.data_dir.deep_view(),
            has_repo: self.has_repo.deep_view(),
        }
    }
}

impl DeepView for LocalOpenCodeManager {
    type V = LocalOpenCodeManagerV;

    open spec fn deep_view(&self) -> LocalOpenCodeManagerV {
        self@
    }
}

/// How far a start has come.
#[derive(Debug, Clone, Copy, PartialEq, Eq, Structural)]
pub enum StartPhase {
    Endpoint,
    Registering,
    Spawning,
    Publishing,
    Ended,
}

impl View for StartPhase {
    type V = StartPhase;

    open spec fn view(&self) -> StartPhase {
        *self
    }
}

impl DeepView for StartPhase {
    type V = StartPhase;

    open spec fn deep_view(&self) -> StartPhase {
        *self
    }
}

/// A start under way.
#[derive(Debug, PartialEq, Eq)]
pub struct LocalStart {
    pub name: String,
    pub working_dir: String,
    pub data_root: String,
    pub plugin_token: String,
    /// Where the plugin calls back.
    pub endpoint: String,
    pub agent_id: String,
    pub phase: StartPhase,
}

/// Model of [`LocalStart`].
pub struct LocalStartV {
    pub name: Seq<char>,
    pub working_dir: Seq<char>,
    pub data_root: Seq<char>,
    pub plugin_token: Seq<char>,
    pub endpoint: Seq<char>,
    pub agent_id: Seq<char>,
    pub phase: StartPhase,
}

impl View for LocalStart {
    type V = LocalStartV;

    open spec fn view(&self) -> LocalStartV {
        LocalStartV {
            name: self.name.deep_view(),
            working_dir: self.working_dir.deep_view(),
            data_root: self.data_root.deep_view(),
            plugin_token: self.plugin_token.deep_view(),
            endpoint: self.endpoint.deep_view(),
            agent_id: self.agent_id.deep_view(),
            phase: self.phase.deep_view(),
        }
    }
}

impl DeepView for LocalStart {
    type V = LocalStartV;

    open spec fn deep_view(&self) -> LocalStartV {
        self@
    }
}

/// What happened.
#[derive(Debug, PartialEq, Eq)]
pub enum StartEvent {
    /// The plugin can call back.
    EndpointReady(String),
    /// It cannot.
    EndpointFailed(String),
    /// The agent is registered under an id.
    Registered(String),
    /// It is not.
    RegisterFailed(String),
    /// The server listens.
    Spawned { port: u16 },
    /// It does not.
    SpawnFailed(String),
    /// Where it listens is known.
    Published,
    /// It is not.
    PublishFailed(String),
}

/// Model of [`StartEvent`].
pub enum StartEventV {
    EndpointReady(Seq<char>),
    EndpointFailed(Seq<char>),
    Registered(Seq<char>),
    RegisterFailed(Seq<char>),
    Spawned { port: u16 },
    SpawnFailed(Seq<char>),
    Published,
    PublishFailed(Seq<char>),
}

impl View for StartEvent {
    type V = StartEventV;

    open spec fn view(&self) -> StartEventV {
        match self {
            StartEvent::EndpointReady(x) => StartEventV::EndpointReady(x.deep_view()),
            StartEvent::EndpointFailed(x) => StartEventV::EndpointFailed(x.deep_view()),
            StartEvent::Registered(x) => StartEventV::Registered(x.deep_view()),
            StartEvent::RegisterFailed(x) => StartEventV::RegisterFailed(x.deep_view()),
            StartEvent::Spawned { port } => StartEventV::Spawned { port: port.deep_view() },
            StartEvent::SpawnFailed(x) => StartEventV::SpawnFailed(x.deep_view()),
            StartEvent::Published => StartEventV::Published,
            StartEvent::PublishFailed(x) => StartEventV::PublishFailed(x.deep_view()),
        }
    }
}

impl DeepView for StartEvent {
    type V = StartEventV;

    open spec fn deep_view(&self) -> StartEventV {
        self@
    }
}

/// What is to be done next.
#[allow(inconsistent_fields)]
#[derive(Debug, PartialEq, Eq)]
pub enum StartAction {
    /// Register an agent.
    Register { name: String, plugin_token: String },
    /// Start the server with a configuration and in a directory: the data directory, and
    /// the names that are joined to it one after the other.
    Spawn { config: String, data_dir: Vec<String> },
    /// Make known where the server listens.
    Publish { agent_id: String, port: u16 },
    /// Keep the server.
    Keep,
    /// Take everything back: stop the server where it runs, unregister the agent.
    Undo { stop: bool, agent_id: String, why: String },
    /// Nothing: it failed before anything was done.
    Fail { why: String },
    /// Nothing.
    Nothing,
}

/// Model of [`StartAction`].
#[allow(inconsistent_fields)]
pub enum StartActionV {
    Register { name: Seq<char>, plugin_token: Seq<char> },
    Spawn { config: Seq<char>, data_dir: Seq<Seq<char>> },
    Publish { agent_id: Seq<char>, port: u16 },
    Keep,
    Undo { stop: bool, agent_id: Seq<char>, why: Seq<char> },
    Fail { why: Seq<char> },
    Nothing,
}

impl View for StartAction {
    type V = StartActionV;

    open spec fn view(&self) -> StartActionV {
        match self {
            StartAction::Register { name, plugin_token } => StartActionV::Register { name: name.deep_view(), plugin_token: plugin_token.deep_view() },
            StartAction::Spawn { config, data_dir } => StartActionV::Spawn { config: config.deep_view(), data_dir: data_dir.deep_view() },
            StartAction::Publish { agent_id, port } => StartActionV::Publish { agent_id: agent_id.deep_view(), port: port.deep_view() },
            StartAction::Keep => StartActionV::Keep,
            StartAction::Undo { stop, agent_id, why } => StartActionV::Undo { stop: stop.deep_view(), agent_id: agent_id.deep_view(), why: why.deep_view() },
            StartAction::Fail { why } => StartActionV::Fail { why: why.deep_view() },
            StartAction::Nothing => StartActionV::Nothing,
        }
    }
}

impl DeepView for StartAction {
    type V = StartActionV;

    open spec fn deep_view(&self) -> StartActionV {
        self@
    }
}

/// The environment in the configuration.
pub open spec fn config_env(endpoint: Seq<char>, token: Seq<char>) -> Seq<(Seq<char>, JsonV)> {
    fields().push(("AIONCORE_URL"@, JsonV::Str(endpoint))).push(
        ("AIONCORE_TOKEN"@, JsonV::Str(token)),
    )
}

/// The configuration that lets a server load the plugin and call back.
pub open spec fn config_v(endpoint: Seq<char>, token: Seq<char>) -> JsonV {
    JsonV::Object(
        fields().push(
            ("plugin"@, strings_v(Seq::empty().push("@chisl/chisl-opencode-plugin"@))),
        ).push(("env"@, JsonV::Object(config_env(endpoint, token)))),
    )
}

/// The configuration is plain, so that the server reads it as it was meant.
proof fn lemma_config_is_plain(endpoint: Seq<char>, token: Seq<char>)
    ensures
        plain(config_v(endpoint, token), read_depth()),
{
    reveal_strlit("plugin");
    reveal_strlit("env");
    reveal_strlit("AIONCORE_URL");
    reveal_strlit("AIONCORE_TOKEN");
    reveal_strlit("$serde_json::private::RawValue");
    let env = config_env(endpoint, token);
    let plugins = strings_v(Seq::empty().push("@chisl/chisl-opencode-plugin"@));
    let all = config_v(endpoint, token)->Object_0;
    assert("plugin"@.len() != "env"@.len());
    assert("AIONCORE_URL"@.len() != "AIONCORE_TOKEN"@.len());
    assert(named_once(env));
    assert(named_once(all));
    assert forall|i: int| 0 <= i < env.len() implies (#[trigger] env[i]).0 != reserved_name()
        && plain(env[i].1, 98) by {
        assert(env[i].0.len() != reserved_name().len());
    }
    assert(plain(JsonV::Object(env), 99));
    let names = plugins->Array_0;
    assert forall|i: int| 0 <= i < names.len() implies plain(#[trigger] names[i], 98) by {}
    assert(plain(plugins, 99));
    assert(all[0] == ("plugin"@, plugins));
    assert(all[1] == ("env"@, JsonV::Object(env)));
    assert forall|i: int| 0 <= i < all.len() implies (#[trigger] all[i]).0 != reserved_name()
        && plain(all[i].1, 99) by {
        assert(all[i].0.len() != reserved_name().len());
        if i == 0 {
        } else {
            assert(i == 1);
        }
    }
}

/// A configuration that is read back names the plugin, and carries the endpoint and the
/// token.
pub proof fn a_configuration_reads_back(v: JsonV, endpoint: Seq<char>, token: Seq<char>)
    requires
        same_tree(v, config_v(endpoint, token), read_depth()),
    ensures
        v.field("env"@) is Some,
        v.field("env"@)->0.field_text("AIONCORE_URL"@) == Some(endpoint),
        v.field("env"@)->0.field_text("AIONCORE_TOKEN"@) == Some(token),
        v.field_items("plugin"@) is Some,
        v.field_items("plugin"@)->0.len() == 1,
        v.field_items("plugin"@)->0[0].text() == Some("@chisl/chisl-opencode-plugin"@),
{
    reveal_strlit("plugin");
    reveal_strlit("env");
    reveal_strlit("AIONCORE_URL");
    reveal_strlit("AIONCORE_TOKEN");
    assert("plugin"@.len() != "env"@.len());
    assert("AIONCORE_URL"@.len() != "AIONCORE_TOKEN"@.len());
    let env = config_env(endpoint, token);
    let plugins = strings_v(Seq::empty().push("@chisl/chisl-opencode-plugin"@));
    let url = ("AIONCORE_URL"@, JsonV::Str(endpoint));
    let secret = ("AIONCORE_TOKEN"@, JsonV::Str(token));
    lemma_lookup_push(fields(), url, "AIONCORE_URL"@);
    lemma_lookup_push(fields().push(url), secret, "AIONCORE_URL"@);
    lemma_lookup_push(fields(), url, "AIONCORE_TOKEN"@);
    lemma_lookup_push(fields().push(url), secret, "AIONCORE_TOKEN"@);
    let first = ("plugin"@, plugins);
    let second = ("env"@, JsonV::Object(env));
    lemma_lookup_push(fields(), first, "plugin"@);
    lemma_lookup_push(fields().push(first), second, "plugin"@);
    lemma_lookup_push(fields(), first, "env"@);
    lemma_lookup_push(fields().push(first), second, "env"@);
    let all = fields().push(first).push(second);
    assert(config_v(endpoint, token) == JsonV::Object(all));
    let got = v->Object_0;
    assert(lookup(got, "env"@) is Some && lookup(all, "env"@) is Some);
    let e = lookup(got, "env"@)->0;
    assert(same_tree(e, JsonV::Object(env), 99));
    assert(lookup(e->Object_0, "AIONCORE_URL"@) is Some);
    assert(same_tree(lookup(e->Object_0, "AIONCORE_URL"@)->0, JsonV::Str(endpoint), 98));
    assert(lookup(e->Object_0, "AIONCORE_TOKEN"@) is Some);
    assert(same_tree(lookup(e->Object_0, "AIONCORE_TOKEN"@)->0, JsonV::Str(token), 98));
    assert(lookup(got, "plugin"@) is Some);
    let p = lookup(got, "plugin"@)->0;
    assert(same_tree(p, plugins, 99));
    assert(same_tree(p->Array_0[0], plugins->Array_0[0], 98));
}

/// The configuration that lets a server load the plugin and call back. It is read back
/// from the text.
pub fn generate_opencode_config(plugin_endpoint_url: &str, plugin_token: &str) -> (r: String)
    ensures
        r@ == json_text(config_v(plugin_endpoint_url@, plugin_token@)),
        parse_result(r@) is Ok,
        same_tree(
            parse_result(r@)->Ok_0,
            config_v(plugin_endpoint_url@, plugin_token@),
            read_depth(),
        ),
{
    proof {
        lemma_config_is_plain(plugin_endpoint_url@, plugin_token@);
    }
    let mut plugins: Vec<String> = Vec::new();
    plugins.push("@chisl/chisl-opencode-plugin".to_owned());
    assert(plugins.deep_view() =~= Seq::empty().push("@chisl/chisl-opencode-plugin"@));
    let env = Obj::new().put_str("AIONCORE_URL", plugin_endpoint_url).put_str(
        "AIONCORE_TOKEN",
        plugin_token,
    ).build();
    let config = Obj::new().put("plugin", Json::strings(&plugins)).put("env", env).build();
    config.to_text()
}

/// What follows of a text from the first place at which it reads `p`.
pub open spec fn from_first(s: Seq<char>, p: Seq<char>) -> Option<Seq<char>>
    decreases s.len(),
{
    if begins(s, p) {
        Some(s)
    } else if s.len() == 0 {
        None
    } else {
        from_first(s.drop_first(), p)
    }
}

/// The digits that a text begins with.
pub open spec fn leading_digits(s: Seq<char>) -> Seq<char>
    decreases s.len(),
{
    if s.len() > 0 && is_digit(s[0]) {
        Seq::empty().push(s[0]) + leading_digits(s.drop_first())
    } else {
        Seq::empty()
    }
}

/// The port in a line of a server's output: the digits after the last colon of the URL
/// in it.
pub open spec fn port_in(line: Seq<char>) -> Option<nat> {
    match from_first(line, "http://"@) {
        Some(url) => match last_index(url, ':') {
            Some(i) => unsigned_text(leading_digits(url.skip(i + 1)), u16::MAX as nat),
            None => None,
        },
        None => None,
    }
}

proof fn lemma_leading(s: Seq<char>, i: int, n: int)
    requires
        0 <= i <= n <= s.len(),
        forall|k: int| i <= k < n ==> is_digit(#[trigger] s[k]),
        n == s.len() || !is_digit(s[n]),
    ensures
        leading_digits(s.skip(i)) == s.subrange(i, n),
    decreases n - i,
{
    if i < n {
        lemma_leading(s, i + 1, n);
        assert(s.skip(i).drop_first() =~= s.skip(i + 1));
        assert(s.skip(i)[0] == s[i]);
        assert(Seq::empty().push(s[i]) + s.subrange(i + 1, n) =~= s.subrange(i, n));
    } else {
        assert(s.subrange(i, n) =~= Seq::<char>::empty());
        if i < s.len() {
            assert(s.skip(i)[0] == s[i]);
        }
    }
}

/// The port in a line of a server's output.
pub fn parse_port_from_line(line: &str) -> (r: Option<u16>)
    ensures
        (match r {
            Some(p) => Some(p as nat),
            None => None,
        }) == port_in(line@),
{
    let v = chars_of(line);
    let p = chars_of("http://");
    let mut i: usize = 0;
    assert(line@.skip(0) =~= line@);
    while i < v.len() && !match_at(&v, &p, i)
        invariant
            i <= v.len(),
            v@ == line@,
            p@ == "http://"@,
            from_first(line@, "http://"@) == from_first(line@.skip(i as int), "http://"@),
        decreases v.len() - i,
    {
        proof {
            lemma_begins_skip(line@, p@, i as int);
            assert(line@.skip(i as int).drop_first() =~= line@.skip(i as int + 1));
        }
        i += 1;
    }
    let ghost rest = line@.skip(i as int);
    proof {
        lemma_begins_skip(line@, p@, i as int);
        reveal_strlit("http://");
    }
    if i == v.len() {
        assert(rest =~= Seq::<char>::empty());
        return None;
    }
    let url = string_between(&v, i, v.len());
    assert(url@ =~= rest);
    let u = chars_of(url.as_str());
    let at = match rfind_char(&u, ':') {
        Some(at) => at,
        None => {
            return None;
        },
    };
    let from: usize = at + 1;
    let mut to: usize = from;
    while to < u.len() && '0' <= u[to] && u[to] <= '9'
        invariant
            from <= to <= u.len(),
            forall|k: int| from <= k < to ==> is_digit(#[trigger] u@[k]),
        decreases u.len() - to,
    {
        to += 1;
    }
    proof {
        lemma_leading(u@, from as int, to as int);
    }
    let digits = string_between(&u, from, to);
    match parse_unsigned(digits.as_str(), 65535) {
        Some(n) => Some(n as u16),
        None => None,
    }
}

proof fn lemma_begins_skip(s: Seq<char>, p: Seq<char>, i: int)
    requires
        0 <= i <= s.len(),
    ensures
        begins(s.skip(i), p) == crate::text::stands_at(s, p, i),
{
    if i + p.len() <= s.len() {
        assert(s.skip(i).take(p.len() as int) =~= s.subrange(i, i + p.len()));
        assert(s.skip(i).subrange(0, p.len() as int) =~= s.subrange(i, i + p.len()));
    }
}

/// Where a server's health is looked at.
pub fn health_url(port: u16) -> (r: String)
    ensures
        r@ == "http://127.0.0.1:"@ + dec(port as nat) + "/global/health"@,
{
    let p = u64_dec(port as u64);
    cat3("http://127.0.0.1:", p.as_str(), "/global/health")
}

/// A server that has not been started.
pub open spec fn fresh_instance(
    id: Seq<char>,
    name: Seq<char>,
    working_dir: Seq<char>,
    data_dir: Seq<char>,
    agent_id: Seq<char>,
    plugin_token: Seq<char>,
    created_at: u64,
    clock: u64,
) -> OpenCodeInstanceV {
    OpenCodeInstanceV {
        id,
        name,
        working_dir,
        data_dir,
        port: None,
        status: LocalOpenCodeStatus::Stopped,
        pid: None,
        agent_id,
        plugin_token,
        created_at,
        restart_count: 0,
        restart_window_start: clock,
    }
}

/// A server after something happened while it was started. Where it did not start,
/// nothing of it is left behind.
pub open spec fn spawn_advanced(i: OpenCodeInstanceV, event: SpawnEventV) -> (
    OpenCodeInstanceV,
    SpawnStepV,
) {
    let stopped = OpenCodeInstanceV { status: LocalOpenCodeStatus::Stopped, pid: None, ..i };
    match event {
        SpawnEventV::DirFailed(e) => (
            stopped,
            SpawnStepV::Failed { why: "failed to create data dir: "@ + e },
        ),
        SpawnEventV::LaunchFailed(e) => (
            stopped,
            SpawnStepV::Failed { why: "failed to spawn opencode: "@ + e },
        ),
        SpawnEventV::Launched { pid } => (
            OpenCodeInstanceV { status: LocalOpenCodeStatus::Starting, pid, ..i },
            SpawnStepV::Read,
        ),
        SpawnEventV::NoOutput => (
            stopped,
            SpawnStepV::Failed { why: "child stdout was not piped"@ },
        ),
        SpawnEventV::Line(line) => match port_in(line) {
            Some(p) => (
                OpenCodeInstanceV {
                    port: Some(p as u16),
                    status: LocalOpenCodeStatus::Running,
                    ..i
                },
                SpawnStepV::Listening { port: p as u16 },
            ),
            None => (i, SpawnStepV::Read),
        },
        SpawnEventV::Closed => (
            stopped,
            SpawnStepV::Failed { why: "could not parse port from opencode output"@ },
        ),
        SpawnEventV::TimedOut => (
            stopped,
            SpawnStepV::Failed {
                why: "timeout waiting for opencode to print its listening port"@,
            },
        ),
    }
}

/// A server after a look at its process, and whether it crashed.
pub open spec fn looked_after(i: OpenCodeInstanceV, child: ChildState) -> (OpenCodeInstanceV, bool) {
    match child {
        ChildState::Failed => (
            OpenCodeInstanceV { status: LocalOpenCodeStatus::Crashed, pid: None, ..i },
            true,
        ),
        ChildState::Succeeded => (
            OpenCodeInstanceV { status: LocalOpenCodeStatus::Stopped, pid: None, ..i },
            false,
        ),
        _ => (i, false),
    }
}

/// A server with its window of restarts brought up to a moment.
pub open spec fn window_at(i: OpenCodeInstanceV, now: u64) -> OpenCodeInstanceV {
    if now - i.restart_window_start > RESTART_WINDOW_MS {
        OpenCodeInstanceV { restart_count: 0, restart_window_start: now, ..i }
    } else {
        i
    }
}

/// What is told of a server that listens on a port.
pub open spec fn summary_v(i: OpenCodeInstanceV, port: u16) -> LocalOpenCodeInstanceV {
    LocalOpenCodeInstanceV {
        id: i.id,
        name: i.name,
        port,
        status: i.status,
        pid: i.pid,
        agent_id: i.agent_id,
        working_dir: i.working_dir,
        created_at: i.created_at,
    }
}

impl OpenCodeInstance {
    /// A server that has not been started, under a given id.
    pub fn with_id(
        id: String,
        name: &str,
        working_dir: &str,
        data_dir: &str,
        agent_id: &str,
        plugin_token: &str,
        created_at: u64,
        clock: u64,
    ) -> (r: OpenCodeInstance)
        ensures
            r@ == fresh_instance(
                id@,
                name@,
                working_dir@,
                data_dir@,
                agent_id@,
                plugin_token@,
                created_at,
                clock,
            ),
    {
        OpenCodeInstance {
            id,
            name: name.to_owned(),
            working_dir: working_dir.to_owned(),
            data_dir: data_dir.to_owned(),
            port: None,
            status: LocalOpenCodeStatus::Stopped,
            pid: None,
            agent_id: agent_id.to_owned(),
            plugin_token: plugin_token.to_owned(),
            created_at,
            restart_count: 0,
            restart_window_start: clock,
        }
    }

    /// A server that has not been started, under an id of its own.
    pub fn new(
        name: &str,
        working_dir: &str,
        data_dir: &str,
        agent_id: &str,
        plugin_token: &str,
        created_at: u64,
        clock: u64,
    ) -> (r: OpenCodeInstance)
        ensures
            r@.id.len() == 36,
            r@ == fresh_instance(
                r@.id,
                name@,
                working_dir@,
                data_dir@,
                agent_id@,
                plugin_token@,
                created_at,
                clock,
            ),
    {
        OpenCodeInstance::with_id(
            random_id(),
            name,
            working_dir,
            data_dir,
            agent_id,
            plugin_token,
            created_at,
            clock,
        )
    }

    fn fail(&mut self, why: String) -> (r: SpawnStep)
        ensures
            final(self)@ == (OpenCodeInstanceV {
                status: LocalOpenCodeStatus::Stopped,
                pid: None,
                ..old(self)@
            }),
            r@ == (SpawnStepV::Failed { why: why@ }),
    {
        self.stop();
        SpawnStep::Failed { why }
    }

    /// Takes up what happened while the server was started.
    pub fn spawn(&mut self, event: &SpawnEvent) -> (r: SpawnStep)
        ensures
            (final(self)@, r@) == spawn_advanced(old(self)@, event@),
    {
        match event {
            SpawnEvent::DirFailed(e) => self.fail(cat("failed to create data dir: ", e.as_str())),
            SpawnEvent::LaunchFailed(e) => self.fail(cat("failed to spawn opencode: ", e.as_str())),
            SpawnEvent::Launched { pid } => {
                self.pid = *pid;
                self.status = LocalOpenCodeStatus::Starting;
                SpawnStep::Read
            },
            SpawnEvent::NoOutput => self.fail("child stdout was not piped".to_owned()),
            SpawnEvent::Line(line) => match parse_port_from_line(line.as_str()) {
                Some(port) => {
                    self.port = Some(port);
                    self.status = LocalOpenCodeStatus::Running;
                    SpawnStep::Listening { port }
                },
                None => SpawnStep::Read,
            },
            SpawnEvent::Closed => self.fail("could not parse port from opencode output".to_owned()),
            SpawnEvent::TimedOut => self.fail(
                "timeout waiting for opencode to print its listening port".to_owned(),
            ),
        }
    }

    /// Notes that the server is stopped.
    pub fn stop(&mut self)
        ensures
            final(self)@ == (OpenCodeInstanceV {
                status: LocalOpenCodeStatus::Stopped,
                pid: None,
                ..old(self)@
            }),
    {
        self.status = LocalOpenCodeStatus::Stopped;
        self.pid = None;
    }

    /// Looks at the server's process; true where it crashed.
    pub fn check_crash(&mut self, child: ChildState) -> (r: bool)
        ensures
            (final(self)@, r) == looked_after(old(self)@, child),
    {
        match child {
            ChildState::Failed => {
                self.status = LocalOpenCodeStatus::Crashed;
                self.pid = None;
                true
            },
            ChildState::Succeeded => {
                self.status = LocalOpenCodeStatus::Stopped;
                self.pid = None;
                false
            },
            _ => false,
        }
    }

    /// Whether the server may be started again.
    pub fn can_restart(&mut self, now: u64) -> (r: bool)
        ensures
            final(self)@ == window_at(old(self)@, now),
            r == (window_at(old(self)@, now).restart_count < MAX_RESTARTS),
    {
        if now > self.restart_window_start && now - self.restart_window_start > RESTART_WINDOW_MS {
            self.restart_count = 0;
            self.restart_window_start = now;
        }
        self.restart_count < MAX_RESTARTS
    }

    /// Notes that the server was started again.
    pub fn record_restart(&mut self)
        requires
            old(self)@.restart_count < u32::MAX,
        ensures
            final(self)@ == (OpenCodeInstanceV {
                restart_count: (old(self)@.restart_count + 1) as u32,
                ..old(self)@
            }),
    {
        self.restart_count = self.restart_count + 1;
    }

    /// What is told of the server.
    pub fn summary(&self, port: u16) -> (r: LocalOpenCodeInstance)
        ensures
            r@ == summary_v(self@, port),
    {
        LocalOpenCodeInstance {
            id: self.id.clone(),
            name: self.name.clone(),
            port,
            status: self.status,
            pid: self.pid,
            agent_id: self.agent_id.clone(),
            working_dir: self.working_dir.clone(),
            created_at: self.created_at,
        }
    }
}

/// Within a window a server is started again at most so often; once the window is over
/// it may be started again.
pub proof fn restarts_are_bounded(i: OpenCodeInstanceV, now: u64)
    ensures
        i.restart_count >= MAX_RESTARTS && now - i.restart_window_start <= RESTART_WINDOW_MS
            ==> window_at(i, now).restart_count >= MAX_RESTARTS,
        now - i.restart_window_start > RESTART_WINDOW_MS ==> window_at(i, now).restart_count
            == 0,
        i.restart_count < MAX_RESTARTS ==> window_at(i, now).restart_count < MAX_RESTARTS,
{
}

/// A server whose start failed is not half started.
pub proof fn failed_starts_leave_nothing(i: OpenCodeInstanceV, event: SpawnEventV)
    ensures
        spawn_advanced(i, event).1 is Failed ==> {
            &&& spawn_advanced(i, event).0.status == LocalOpenCodeStatus::Stopped
            &&& spawn_advanced(i, event).0.pid is None
        },
        spawn_advanced(i, event).1 matches SpawnStepV::Listening { port } ==> {
            &&& spawn_advanced(i, event).0.status == LocalOpenCodeStatus::Running
            &&& spawn_advanced(i, event).0.port == Some(port)
        },
{
}

/// A start, begun; or why it cannot begin.
pub open spec fn start_begun(
    m: LocalOpenCodeManagerV,
    name: Option<Seq<char>>,
    working_dir: Option<Seq<char>>,
    home: Option<Seq<char>>,
    token: Seq<char>,
) -> Result<LocalStartV, Seq<char>> {
    match m.data_dir {
        None => Err("data directory not configured"@),
        Some(data_root) => if !m.has_repo {
            Err("remote agent repository not configured"@)
        } else {
            Ok(
                LocalStartV {
                    name: match name {
                        Some(n) => n,
                        None => "Local OpenCode"@,
                    },
                    working_dir: match working_dir {
                        Some(d) => d,
                        None => match home {
                            Some(h) => h,
                            None => "."@,
                        },
                    },
                    data_root,
                    plugin_token: token,
                    endpoint: Seq::empty(),
                    agent_id: Seq::empty(),
                    phase: StartPhase::Endpoint,
                },
            )
        },
    }
}

/// The directory of a start's server: the data directory, and the names that are joined
/// to it one after the other.
pub open spec fn start_dir(s: LocalStartV) -> Seq<Seq<char>> {
    Seq::empty().push(s.data_root).push("local-opencode"@).push(s.agent_id)
}

/// A start after something happened, and what is to be done next. From the moment the
/// agent is registered, whatever fails is taken back.
pub open spec fn start_advanced(s: LocalStartV, event: StartEventV) -> (LocalStartV, StartActionV) {
    let ended = LocalStartV { phase: StartPhase::Ended, ..s };
    match (s.phase, event) {
        (StartPhase::Endpoint, StartEventV::EndpointReady(endpoint)) => (
            LocalStartV { endpoint, phase: StartPhase::Registering, ..s },
            StartActionV::Register { name: s.name, plugin_token: s.plugin_token },
        ),
        (StartPhase::Endpoint, StartEventV::EndpointFailed(why)) => (
            ended,
            StartActionV::Fail { why },
        ),
        (StartPhase::Registering, StartEventV::Registered(agent_id)) => {
            let next = LocalStartV { agent_id, phase: StartPhase::Spawning, ..s };
            (
                next,
                StartActionV::Spawn {
                    config: json_text(config_v(s.endpoint, s.plugin_token)),
                    data_dir: start_dir(next),
                },
            )
        },
        (StartPhase::Registering, StartEventV::RegisterFailed(why)) => (
            ended,
            StartActionV::Fail { why },
        ),
        (StartPhase::Spawning, StartEventV::Spawned { port }) => (
            LocalStartV { phase: StartPhase::Publishing, ..s },
            StartActionV::Publish { agent_id: s.agent_id, port },
        ),
        (StartPhase::Spawning, StartEventV::SpawnFailed(why)) => (
            ended,
            StartActionV::Undo { stop: false, agent_id: s.agent_id, why },
        ),
        (StartPhase::Publishing, StartEventV::Published) => (ended, StartActionV::Keep),
        (StartPhase::Publishing, StartEventV::PublishFailed(why)) => (
            ended,
            StartActionV::Undo { stop: true, agent_id: s.agent_id, why },
        ),
        _ => (s, StartActionV::Nothing),
    }
}

impl LocalStart {
    /// Goes on after something happened.
    pub fn advance(&mut self, event: &StartEvent) -> (r: StartAction)
        ensures
            (final(self)@, r@) == start_advanced(old(self)@, event@),
    {
        match self.phase {
            StartPhase::Endpoint => match event {
                StartEvent::EndpointReady(endpoint) => {
                    self.endpoint = endpoint.clone();
                    self.phase = StartPhase::Registering;
                    StartAction::Register {
                        name: self.name.clone(),
                        plugin_token: self.plugin_token.clone(),
                    }
                },
                StartEvent::EndpointFailed(why) => {
                    self.phase = StartPhase::Ended;
                    StartAction::Fail { why: why.clone() }
                },
                _ => StartAction::Nothing,
            },
            StartPhase::Registering => match event {
                StartEvent::Registered(agent_id) => {
                    self.agent_id = agent_id.clone();
                    self.phase = StartPhase::Spawning;
                    let mut data_dir: Vec<String> = Vec::new();
                    data_dir.push(self.data_root.clone());
                    data_dir.push("local-opencode".to_owned());
                    data_dir.push(agent_id.clone());
                    assert(data_dir.deep_view() =~= start_dir(self@));
                    StartAction::Spawn {
                        config: generate_opencode_config(
                            self.endpoint.as_str(),
                            self.plugin_token.as_str(),
                        ),
                        data_dir,
                    }
                },
                StartEvent::RegisterFailed(why) => {
                    self.phase = StartPhase::Ended;
                    StartAction::Fail { why: why.clone() }
                },
                _ => StartAction::Nothing,
            },
            StartPhase::Spawning => match event {
                StartEvent::Spawned { port } => {
                    self.phase = StartPhase::Publishing;
                    StartAction::Publish { agent_id: self.agent_id.clone(), port: *port }
                },
                StartEvent::SpawnFailed(why) => {
                    self.phase = StartPhase::Ended;
                    StartAction::Undo {
                        stop: false,
                        agent_id: self.agent_id.clone(),
                        why: why.clone(),
                    }
                },
                _ => StartAction::Nothing,
            },
            StartPhase::Publishing => match event {
                StartEvent::Published => {
                    self.phase = StartPhase::Ended;
                    StartAction::Keep
                },
                StartEvent::PublishFailed(why) => {
                    self.phase = StartPhase::Ended;
                    StartAction::Undo {
                        stop: true,
                        agent_id: self.agent_id.clone(),
                        why: why.clone(),
                    }
                },
                _ => StartAction::Nothing,
            },
            StartPhase::Ended => StartAction::Nothing,
        }
    }
}

/// Whether an agent is registered in a phase.
pub open spec fn is_registered(phase: StartPhase) -> bool {
    phase == StartPhase::Spawning || phase == StartPhase::Publishing
}

/// A start that fails after the agent was registered unregisters it, and stops the
/// server where it runs.
pub proof fn failed_starts_are_taken_back(s: LocalStartV, event: StartEventV)
    ensures
        is_registered(s.phase) && start_advanced(s, event).0.phase == StartPhase::Ended ==> (
        start_advanced(s, event).1 is Keep || (start_advanced(s, event).1 matches StartActionV::Undo {
            stop,
            agent_id,
            ..
        } && agent_id == s.agent_id && stop == (s.phase == StartPhase::Publishing))),
        start_advanced(s, event).1 is Keep ==> s.phase == StartPhase::Publishing,
{
}

/// The servers with one more, in place of one with its id.
pub open spec fn kept(instances: Seq<OpenCodeInstanceV>, i: OpenCodeInstanceV) -> Seq<
    OpenCodeInstanceV,
> {
    match place_of(instances, i.id) {
        Some(k) => instances.update(k, i),
        None => instances.push(i),
    }
}

/// Where the server with an id stands.
pub open spec fn place_of(instances: Seq<OpenCodeInstanceV>, id: Seq<char>) -> Option<int>
    decreases instances.len(),
{
    if instances.len() == 0 {
        None
    } else if instances.last().id == id {
        Some(instances.len() - 1)
    } else {
        place_of(instances.drop_last(), id)
    }
}

/// Whether a server is to be ended with the rest.
pub open spec fn is_up(i: OpenCodeInstanceV) -> bool {
    i.status == LocalOpenCodeStatus::Running || i.status == LocalOpenCodeStatus::Starting
}

/// The server after all were ended.
pub open spec fn after_all(i: OpenCodeInstanceV) -> OpenCodeInstanceV {
    if is_up(i) {
        OpenCodeInstanceV { status: LocalOpenCodeStatus::Stopped, pid: None, ..i }
    } else {
        i
    }
}

/// The agents of the servers that are up.
pub open spec fn agents_up(instances: Seq<OpenCodeInstanceV>) -> Seq<Seq<char>>
    decreases instances.len(),
{
    if instances.len() == 0 {
        Seq::empty()
    } else {
        let before = agents_up(instances.drop_last());
        if is_up(instances.last()) {
            before.push(instances.last().agent_id)
        } else {
            before
        }
    }
}

/// How an unknown server is reported.
pub open spec fn not_found(id: Seq<char>) -> Seq<char> {
    "instance '"@ + id + "' not found"@
}

/// What a restart leads to, or why it is refused. The servers change only where the
/// restart is decided on.
pub open spec fn restart_begun(
    m: LocalOpenCodeManagerV,
    id: Seq<char>,
    endpoint: Result<Seq<char>, Seq<char>>,
    now: u64,
) -> (LocalOpenCodeManagerV, Result<Seq<char>, Seq<char>>) {
    if !m.has_repo {
        (m, Err("remote agent repository not configured"@))
    } else {
        match endpoint {
            Err(e) => (m, Err(e)),
            Ok(url) => match place_of(m.instances, id) {
                None => (m, Err(not_found(id))),
                Some(k) => {
                    let i = window_at(m.instances[k], now);
                    if i.restart_count < MAX_RESTARTS {
                        (
                            LocalOpenCodeManagerV {
                                instances: m.instances.update(
                                    k,
                                    OpenCodeInstanceV {
                                        status: LocalOpenCodeStatus::Stopped,
                                        pid: None,
                                        ..i
                                    },
                                ),
                                ..m
                            },
                            Ok(json_text(config_v(url, i.plugin_token))),
                        )
                    } else {
                        (
                            LocalOpenCodeManagerV { instances: m.instances.update(k, i), ..m },
                            Err("restart limit exceeded (3 restarts in 5 minutes)"@),
                        )
                    }
                },
            },
        }
    }
}

impl LocalOpenCodeManager {
    /// No servers yet.
    pub fn new() -> (r: LocalOpenCodeManager)
        ensures
            r@ == (LocalOpenCodeManagerV {
                instances: Seq::empty(),
                data_dir: None,
                has_repo: false,
            }),
    {
        let instances: Vec<OpenCodeInstance> = Vec::new();
        assert(instances.deep_view() =~= Seq::<OpenCodeInstanceV>::empty());
        LocalOpenCodeManager { instances, data_dir: None, has_repo: false }
    }

    /// Sets the directory below which the servers have theirs.
    pub fn set_data_dir(&mut self, dir: &str)
        ensures
            final(self)@ == (LocalOpenCodeManagerV { data_dir: Some(dir@), ..old(self)@ }),
    {
        self.data_dir = Some(dir.to_owned());
    }

    /// Notes that agents can be registered.
    pub fn set_remote_repo(&mut self)
        ensures
            final(self)@ == (LocalOpenCodeManagerV { has_repo: true, ..old(self)@ }),
    {
        self.has_repo = true;
    }

    /// Begins to start a server with a given token.
    pub fn start_with_token(
        &self,
        name: &Option<String>,
        working_dir: &Option<String>,
        home: &Option<String>,
        token: String,
    ) -> (r: Result<LocalStart, String>)
        ensures
            outcome(r) == start_begun(
                self@,
                name.deep_view(),
                working_dir.deep_view(),
                home.deep_view(),
                token@,
            ),
    {
        let data_root = match &self.data_dir {
            Some(d) => d.clone(),
            None => {
                return Err("data directory not configured".to_owned());
            },
        };
        if !self.has_repo {
            return Err("remote agent repository not configured".to_owned());
        }
        let name = match name {
            Some(n) => n.clone(),
            None => "Local OpenCode".to_owned(),
        };
        let working_dir = match working_dir {
            Some(d) => d.clone(),
            None => match home {
                Some(h) => h.clone(),
                None => ".".to_owned(),
            },
        };
        proof {
            reveal_strlit("");
            assert(""@ =~= Seq::<char>::empty());
        }
        Ok(
            LocalStart {
                name,
                working_dir,
                data_root,
                plugin_token: token,
                endpoint: "".to_owned(),
                agent_id: "".to_owned(),
                phase: StartPhase::Endpoint,
            },
        )
    }

    /// Begins to start a server, with a token that no one else has.
    pub fn start(&self, name: &Option<String>, working_dir: &Option<String>, home: &Option<String>) -> (r:
        Result<LocalStart, String>)
        ensures
            outcome(r) == start_begun(
                self@,
                name.deep_view(),
                working_dir.deep_view(),
                home.deep_view(),
                r->Ok_0@.plugin_token,
            ),
            r is Ok ==> r->Ok_0@.plugin_token.len() == 36,
    {
        self.start_with_token(name, working_dir, home, random_id())
    }

    /// Keeps a server.
    pub fn keep(&mut self, instance: OpenCodeInstance)
        ensures
            final(self)@ == (LocalOpenCodeManagerV {
                instances: kept(old(self)@.instances, instance@),
                ..old(self)@
            }),
    {
        let ghost iv = self@.instances;
        let ghost new = instance@;
        match self.find(instance.id.as_str()) {
            Some(k) => {
                self.instances.set(k, instance);
                assert(self@.instances =~= iv.update(k as int, new));
            },
            None => {
                self.instances.push(instance);
                assert(self@.instances =~= iv.push(new));
            },
        }
    }

    /// Where the server with an id stands.
    pub fn find(&self, id: &str) -> (r: Option<usize>)
        ensures
            (match r {
                Some(k) => Some(k as int),
                None => None,
            }) == place_of(self@.instances, id@),
            r matches Some(k) ==> k < self.instances.len(),
    {
        let ghost iv = self@.instances;
        let mut n: usize = self.instances.len();
        assert(iv.take(n as int) =~= iv);
        while n > 0
            invariant
                n <= self.instances.len(),
                iv == self@.instances,
                place_of(iv, id@) == place_of(iv.take(n as int), id@),
            decreases n,
        {
            assert(iv.take(n as int).last() == iv[n - 1]);
            if str_eq(self.instances[n - 1].id.as_str(), id) {
                return Some(n - 1);
            }
            assert(iv.take(n as int).drop_last() =~= iv.take(n - 1));
            n -= 1;
        }
        None
    }

    /// Notes that a server is stopped; its agent stays registered.
    pub fn stop(&mut self, id: &str) -> (r: Result<(), String>)
        ensures
            match place_of(old(self)@.instances, id@) {
                Some(k) => r is Ok && final(self)@ == (LocalOpenCodeManagerV {
                    instances: old(self)@.instances.update(
                        k,
                        OpenCodeInstanceV {
                            status: LocalOpenCodeStatus::Stopped,
                            pid: None,
                            ..old(self)@.instances[k]
                        },
                    ),
                    ..old(self)@
                }),
                None => r is Err && r->Err_0@ == not_found(id@) && final(self)@ == old(self)@,
            },
    {
        let ghost iv = self@.instances;
        match self.find(id) {
            Some(k) => {
                let mut i = self.instances[k].copy();
                i.stop();
                let ghost new = i@;
                self.instances.set(k, i);
                assert(self@.instances =~= iv.update(k as int, new));
                Ok(())
            },
            None => Err(cat3("instance '", id, "' not found")),
        }
    }

    /// Begins to start a server again: the configuration to start it with.
    pub fn restart(&mut self, id: &str, endpoint: &Result<String, String>, now: u64) -> (r: Result<
        String,
        String,
    >)
        ensures
            (final(self)@, outcome(r)) == restart_begun(old(self)@, id@, outcome(*endpoint), now),
    {
        if !self.has_repo {
            return Err("remote agent repository not configured".to_owned());
        }
        let url = match endpoint {
            Ok(u) => u,
            Err(e) => {
                return Err(e.clone());
            },
        };
        let ghost iv = self@.instances;
        let k = match self.find(id) {
            Some(k) => k,
            None => {
                return Err(cat3("instance '", id, "' not found"));
            },
        };
        let mut i = self.instances[k].copy();
        if !i.can_restart(now) {
            let ghost new = i@;
            self.instances.set(k, i);
            assert(self@.instances =~= iv.update(k as int, new));
            return Err("restart limit exceeded (3 restarts in 5 minutes)".to_owned());
        }
        i.stop();
        let config = generate_opencode_config(url.as_str(), i.plugin_token.as_str());
        let ghost new = i@;
        self.instances.set(k, i);
        assert(self@.instances =~= iv.update(k as int, new));
        Ok(config)
    }

    /// Ends a restart of the server at a place: `failed` where its address could not be
    /// made known.
    pub fn finish_restart(&mut self, k: usize, port: u16, failed: Option<String>) -> (r: Result<
        LocalOpenCodeInstance,
        String,
    >)
        requires
            k < old(self).instances.len(),
            old(self)@.instances[k as int].restart_count < u32::MAX,
        ensures
            match failed {
                Some(e) => {
                    &&& outcome(r) == Err::<LocalOpenCodeInstanceV, Seq<char>>(e@)
                    &&& final(self)@ == old(self)@
                },
                None => {
                    let i = old(self)@.instances[k as int];
                    &&& outcome(r) == Ok::<LocalOpenCodeInstanceV, Seq<char>>(summary_v(i, port))
                    &&& final(self)@ == (LocalOpenCodeManagerV {
                        instances: old(self)@.instances.update(
                            k as int,
                            OpenCodeInstanceV { restart_count: (i.restart_count + 1) as u32, ..i },
                        ),
                        ..old(self)@
                    })
                },
            },
    {
        match failed {
            Some(e) => Err(e),
            None => {
                let ghost iv = self@.instances;
                let mut i = self.instances[k].copy();
                let told = i.summary(port);
                i.record_restart();
                let ghost new = i@;
                self.instances.set(k, i);
                assert(self@.instances =~= iv.update(k as int, new));
                Ok(told)
            },
        }
    }

    /// What is told of all servers, after a look at their processes.
    pub fn list(&mut self, children: &Vec<ChildState>) -> (r: Vec<LocalOpenCodeInstance>)
        requires
            children.len() == old(self).instances.len(),
        ensures
            final(self)@ == (LocalOpenCodeManagerV {
                instances: Seq::new(
                    old(self)@.instances.len(),
                    |i: int| looked_after(old(self)@.instances[i], children@[i]).0,
                ),
                ..old(self)@
            }),
            r.deep_view() == Seq::new(
                old(self)@.instances.len(),
                |i: int|
                    {
                        let s = looked_after(old(self)@.instances[i], children@[i]).0;
                        summary_v(
                            s,
                            match s.port {
                                Some(p) => p,
                                None => 0,
                            },
                        )
                    },
            ),
    {
        let ghost iv = self@.instances;
        let mut seen: Vec<OpenCodeInstance> = Vec::new();
        let mut told: Vec<LocalOpenCodeInstance> = Vec::new();
        let mut k: usize = 0;
        while k < self.instances.len()
            invariant
                k <= self.instances.len(),
                self.instances.len() == children.len(),
                iv == self@.instances,
                self@ == old(self)@,
                seen.len() == k,
                told.len() == k,
                forall|i: int|
                    0 <= i < k ==> (#[trigger] seen@[i])@ == looked_after(iv[i], children@[i]).0,
                forall|i: int|
                    0 <= i < k ==> (#[trigger] told@[i])@ == {
                        let s = looked_after(iv[i], children@[i]).0;
                        summary_v(
                            s,
                            match s.port {
                                Some(p) => p,
                                None => 0,
                            },
                        )
                    },
            decreases self.instances.len() - k,
        {
            let mut i = self.instances[k].copy();
            let crashed = i.check_crash(children[k]);
            let port: u16 = match i.port {
                Some(p) => p,
                None => 0,
            };
            told.push(i.summary(port));
            seen.push(i);
            k += 1;
        }
        self.instances = seen;
        assert(self@.instances =~= Seq::new(
            iv.len(),
            |i: int| looked_after(iv[i], children@[i]).0,
        ));
        told
    }

    /// Ends all servers that are up: their agents, to be unregistered.
    pub fn kill_all(&mut self) -> (r: Vec<String>)
        ensures
            final(self)@ == (LocalOpenCodeManagerV {
                instances: Seq::new(
                    old(self)@.instances.len(),
                    |i: int| after_all(old(self)@.instances[i]),
                ),
                ..old(self)@
            }),
            r.deep_view() == agents_up(old(self)@.instances),
    {
        let ghost iv = self@.instances;
        let mut left: Vec<OpenCodeInstance> = Vec::new();
        let mut agents: Vec<String> = Vec::new();
        let mut k: usize = 0;
        assert(agents.deep_view() =~= agents_up(iv.take(0)));
        while k < self.instances.len()
            invariant
                k <= self.instances.len(),
                iv == self@.instances,
                self@ == old(self)@,
                left.len() == k,
                forall|i: int| 0 <= i < k ==> (#[trigger] left@[i])@ == after_all(iv[i]),
                agents.deep_view() == agents_up(iv.take(k as int)),
            decreases self.instances.len() - k,
        {
            let ghost av = agents.deep_view();
            let mut i = self.instances[k].copy();
            proof {
                assert(iv.take(k as int + 1).drop_last() =~= iv.take(k as int));
                assert(iv.take(k as int + 1).last() == iv[k as int]);
            }
            if i.status == LocalOpenCodeStatus::Running || i.status == LocalOpenCodeStatus::Starting {
                agents.push(i.agent_id.clone());
                assert(agents.deep_view() =~= av.push(iv[k as int].agent_id));
                i.stop();
            }
            left.push(i);
            k += 1;
        }
        assert(iv.take(iv.len() as int) =~= iv);
        self.instances = left;
        assert(self@.instances =~= Seq::new(iv.len(), |i: int| after_all(iv[i])));
        agents
    }
}

/// After all servers were ended none is up.
pub proof fn ending_all_ends_all(instances: Seq<OpenCodeInstanceV>, i: int)
    requires
        0 <= i < instances.len(),
    ensures
        !is_up(after_all(instances[i])),
{
}

} // verus!
