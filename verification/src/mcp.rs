//! How the server for the user's files is made known to a remote one: which addresses
//! are tried, which of them the remote server proves to reach, and what is left where
//! it reaches none.
use vstd::prelude::*;

use crate::http::{HttpMethod, HttpReply, HttpReplyV, HttpRequest, HttpRequestV};
use crate::json::{fields, opt_str, Json, JsonV, NumberV, Obj};
use crate::text::{cat, cat4, parse_unsigned, str_eq, unsigned_text};
use crate::types::own_opt;

verus! {

/// The variable that names an address to use.
pub const PUBLIC_URL_ENV: &'static str = "AIONUI_LOCAL_FS_MCP_PUBLIC_URL";

/// The variable that tells how long an address is waited for, in milliseconds.
pub const VERIFY_MS_ENV: &'static str = "AIONUI_LOCAL_FS_MCP_VERIFY_MS";

/// How long an address is waited for, in milliseconds.
pub const DEFAULT_VERIFY_MS: u64 = 3000;

/// How often it is looked whether the network changed, in seconds.
pub const GUARDIAN_INTERVAL_SECS: u64 = 15;

/// How long the remote server waits for a call, in milliseconds: long enough for the
/// user to approve a command.
pub const CALL_TIMEOUT_MS: u64 = 300000;

/// What a registration came to.
#[derive(Debug, Clone, Copy, PartialEq, Eq, Structural)]
pub enum RegistrationOutcome {
    /// The remote server reached an address.
    Verified,
    /// An address is registered; whether it is reached is not known.
    Unverified,
    /// No address is registered.
    Failed,
}

impl View for RegistrationOutcome {
    type V = RegistrationOutcome;

    open spec fn view(&self) -> RegistrationOutcome {
        *self
    }
}

impl DeepView for RegistrationOutcome {
    type V = RegistrationOutcome;

    open spec fn deep_view(&self) -> RegistrationOutcome {
        *self
    }
}

/// An address to try.
#[derive(Debug, PartialEq, Eq)]
pub struct Candidate {
    pub public_url: String,
    /// What the address comes from.
    pub provider: String,
}

/// Model of [`Candidate`].
pub struct CandidateV {
    pub public_url: Seq<char>,
    pub provider: Seq<char>,
}

impl View for Candidate {
    type V = CandidateV;

    open spec fn view(&self) -> CandidateV {
        CandidateV {
            public_url: self.public_url.deep_view(),
            provider: self.provider.deep_view(),
        }
    }
}

impl DeepView for Candidate {
    type V = CandidateV;

    open spec fn deep_view(&self) -> CandidateV {
        self@
    }
}

impl Candidate {
    /// An equal value.
    pub fn copy(&self) -> (r: Candidate)
        ensures
            r@ == self@,
    {
        Candidate {
            public_url: self.public_url.clone(),
            provider: self.provider.clone(),
        }
    }
}

/// How far a registration has come.
#[allow(inconsistent_fields)]
#[derive(Debug, PartialEq, Eq)]
pub enum RegistrationPhase {
    /// An address is being registered.
    Adding { index: usize },
    /// The remote server is to reach it.
    Verifying { index: usize },
    /// It is being taken back.
    Removing { index: usize },
    /// The first address is being registered after all.
    Falling,
    /// It has ended.
    Done(RegistrationOutcome),
}

/// Model of [`RegistrationPhase`].
#[allow(inconsistent_fields)]
pub enum RegistrationPhaseV {
    Adding { index: usize },
    Verifying { index: usize },
    Removing { index: usize },
    Falling,
    Done(RegistrationOutcome),
}

impl View for RegistrationPhase {
    type V = RegistrationPhaseV;

    open spec fn view(&self) -> RegistrationPhaseV {
        match self {
            RegistrationPhase::Adding { index } => RegistrationPhaseV::Adding { index: index.deep_view() },
            RegistrationPhase::Verifying { index } => RegistrationPhaseV::Verifying { index: index.deep_view() },
            RegistrationPhase::Removing { index } => RegistrationPhaseV::Removing { index: index.deep_view() },
            RegistrationPhase::Falling => RegistrationPhaseV::Falling,
            RegistrationPhase::Done(x) => RegistrationPhaseV::Done(x.deep_view()),
        }
    }
}

impl DeepView for RegistrationPhase {
    type V = RegistrationPhaseV;

    open spec fn deep_view(&self) -> RegistrationPhaseV {
        self@
    }
}

/// What happened.
#[derive(Debug, PartialEq, Eq)]
pub enum RegistrationEvent {
    /// The address was registered, or not.
    Added { ok: bool },
    /// The remote server reached it, or did not in time.
    Verified { contacted: bool },
    /// It was taken back.
    Removed,
}

/// Model of [`RegistrationEvent`].
pub enum RegistrationEventV {
    Added { ok: bool },
    Verified { contacted: bool },
    Removed,
}

impl View for RegistrationEvent {
    type V = RegistrationEventV;

    open spec fn view(&self) -> RegistrationEventV {
        match self {
            RegistrationEvent::Added { ok } => RegistrationEventV::Added { ok: ok.deep_view() },
            RegistrationEvent::Verified { contacted } => RegistrationEventV::Verified { contacted: contacted.deep_view() },
            RegistrationEvent::Removed => RegistrationEventV::Removed,
        }
    }
}

impl DeepView for RegistrationEvent {
    type V = RegistrationEventV;

    open spec fn deep_view(&self) -> RegistrationEventV {
        self@
    }
}

/// What is to be done next.
#[derive(Debug, PartialEq, Eq)]
pub enum RegistrationAction {
    /// Forget who reached the server, then register an address.
    Add { url: String },
    /// Let the remote server connect, and wait for it.
    Verify,
    /// Take the registration back.
    Remove,
    /// Nothing.
    Nothing,
}

/// Model of [`RegistrationAction`].
pub enum RegistrationActionV {
    Add { url: Seq<char> },
    Verify,
    Remove,
    Nothing,
}

impl View for RegistrationAction {
    type V = RegistrationActionV;

    open spec fn view(&self) -> RegistrationActionV {
        match self {
            RegistrationAction::Add { url } => RegistrationActionV::Add { url: url.deep_view() },
            RegistrationAction::Verify => RegistrationActionV::Verify,
            RegistrationAction::Remove => RegistrationActionV::Remove,
            RegistrationAction::Nothing => RegistrationActionV::Nothing,
        }
    }
}

impl DeepView for RegistrationAction {
    type V = RegistrationActionV;

    open spec fn deep_view(&self) -> RegistrationActionV {
        self@
    }
}

/// A registration under way.
#[derive(Debug, PartialEq, Eq)]
pub struct Registration {
    pub candidates: Vec<Candidate>,
    pub phase: RegistrationPhase,
}

/// Model of [`Registration`].
pub struct RegistrationV {
    pub candidates: Seq<CandidateV>,
    pub phase: RegistrationPhaseV,
}

impl View for Registration {
    type V = RegistrationV;

    open spec fn view(&self) -> RegistrationV {
        RegistrationV {
            candidates: self.candidates.deep_view(),
            phase: self.phase.deep_view(),
        }
    }
}

impl DeepView for Registration {
    type V = RegistrationV;

    open spec fn deep_view(&self) -> RegistrationV {
        self@
    }
}

/// What is to be done for the server of the user's files.
#[derive(Debug, Clone, Copy, PartialEq, Eq, Structural)]
pub enum LocalToolsStep {
    /// It runs and is the one that the remote server calls.
    Nothing,
    /// It runs, but the remote server calls another: it is to be registered again.
    Reclaim,
    /// It does not run: it is to be started.
    Start,
}

impl View for LocalToolsStep {
    type V = LocalToolsStep;

    open spec fn view(&self) -> LocalToolsStep {
        *self
    }
}

impl DeepView for LocalToolsStep {
    type V = LocalToolsStep;

    open spec fn deep_view(&self) -> LocalToolsStep {
        *self
    }
}

/// The name under which a conversation's server is registered.
pub open spec fn mcp_name(conversation_id: Seq<char>) -> Seq<char> {
    "aionui-local-fs-"@ + conversation_id
}

/// The name under which a conversation's server is registered.
pub fn mcp_name_for(conversation_id: &str) -> (r: String)
    ensures
        r@ == mcp_name(conversation_id@),
{
    cat("aionui-local-fs-", conversation_id)
}

/// Two conversations never share a name.
pub proof fn names_do_not_collide(a: Seq<char>, b: Seq<char>)
    ensures
        mcp_name(a) == mcp_name(b) ==> a == b,
{
    let p = "aionui-local-fs-"@;
    assert((p + a).skip(p.len() as int) =~= a);
    assert((p + b).skip(p.len() as int) =~= b);
}

/// How long an address is waited for, given the value of the variable.
pub fn verify_timeout(setting: Option<&str>) -> (r: u64)
    ensures
        r == (match setting {
            Some(s) => match unsigned_text(s@, u64::MAX as nat) {
                Some(n) => n,
                None => DEFAULT_VERIFY_MS as nat,
            },
            None => DEFAULT_VERIFY_MS as nat,
        }),
{
    match setting {
        Some(s) => match parse_unsigned(s, u64::MAX) {
            Some(n) => n,
            None => DEFAULT_VERIFY_MS,
        },
        None => DEFAULT_VERIFY_MS,
    }
}

/// What registers a server.
pub open spec fn registration_body(name: Seq<char>, url: Seq<char>, token: Seq<char>) -> JsonV {
    JsonV::Object(
        fields().push(("name"@, JsonV::Str(name))).push(
            (
                "config"@,
                JsonV::Object(
                    fields().push(("type"@, JsonV::Str("remote"@))).push(("url"@, JsonV::Str(url))).push(
                        ("enabled"@, JsonV::Bool(true)),
                    ).push(("oauth"@, JsonV::Bool(false))).push(
                        (
                            "headers"@,
                            JsonV::Object(
                                fields().push(("Authorization"@, JsonV::Str("Bearer "@ + token))),
                            ),
                        ),
                    ).push(("timeout"@, JsonV::Number(NumberV::Unsigned(CALL_TIMEOUT_MS)))),
                ),
            ),
        ),
    )
}

/// The request that registers a server.
pub fn register_mcp(base_url: &str, auth_header: Option<&str>, name: &str, url: &str, token: &str) -> (r:
    HttpRequest)
    ensures
        r@ == (HttpRequestV {
            method: HttpMethod::Post,
            url: base_url@ + "/mcp"@,
            auth: opt_str(auth_header),
            body: Some(registration_body(name@, url@, token@)),
            timeout_secs: 30,
        }),
{
    let bearer = cat("Bearer ", token);
    let headers = Obj::new().put_str("Authorization", bearer.as_str()).build();
    let config = Obj::new().put_str("type", "remote").put_str("url", url).put_bool("enabled", true).put_bool(
        "oauth",
        false,
    ).put("headers", headers).put("timeout", Json::number(CALL_TIMEOUT_MS)).build();
    let body = Obj::new().put_str("name", name).put("config", config).build();
    HttpRequest {
        method: HttpMethod::Post,
        url: cat(base_url, "/mcp"),
        auth: own_opt(auth_header),
        body: Some(body),
        timeout_secs: 30,
    }
}

/// Why a server was not registered.
pub open spec fn registration_failure(reply: HttpReplyV) -> Option<Seq<char>> {
    match reply {
        HttpReplyV::Unsent(e) => Some("OpenCode mcp.add request failed: "@ + e),
        HttpReplyV::Refused { status, body } => Some(
            "OpenCode mcp.add returned "@ + status + ": "@ + body,
        ),
        _ => None,
    }
}

/// Why a server was not registered; `None` where it was.
pub fn read_registration(reply: &HttpReply) -> (r: Option<String>)
    ensures
        r.deep_view() == registration_failure(reply@),
{
    match reply {
        HttpReply::Unsent(e) => Some(cat("OpenCode mcp.add request failed: ", e.as_str())),
        HttpReply::Refused { status, body } => Some(
            cat4("OpenCode mcp.add returned ", status.as_str(), ": ", body.as_str()),
        ),
        _ => None,
    }
}

/// Where the remote server is told to connect.
pub fn connect_url(base_url: &str, name: &str) -> (r: String)
    ensures
        r@ == base_url@ + "/mcp/"@ + name@ + "/connect"@,
{
    cat4(base_url, "/mcp/", name, "/connect")
}

/// The request that takes a registration back.
pub fn disconnect_from_opencode(base_url: &str, auth_header: Option<&str>, conversation_id: &str) -> (r:
    HttpRequest)
    ensures
        r@ == (HttpRequestV {
            method: HttpMethod::Post,
            url: base_url@ + "/mcp/"@ + mcp_name(conversation_id@) + "/disconnect"@,
            auth: opt_str(auth_header),
            body: None,
            timeout_secs: 10,
        }),
{
    let name = mcp_name_for(conversation_id);
    HttpRequest {
        method: HttpMethod::Post,
        url: cat4(base_url, "/mcp/", name.as_str(), "/disconnect"),
        auth: own_opt(auth_header),
        body: None,
        timeout_secs: 10,
    }
}

impl RegistrationV {
    /// Whether a registration's phase fits its addresses.
    pub open spec fn in_bounds(self) -> bool {
        match self.phase {
            RegistrationPhaseV::Adding { index } => index < self.candidates.len(),
            RegistrationPhaseV::Verifying { index } => index < self.candidates.len(),
            RegistrationPhaseV::Removing { index } => index < self.candidates.len(),
            RegistrationPhaseV::Falling => self.candidates.len() > 0,
            RegistrationPhaseV::Done(_) => true,
        }
    }
}

/// A registration, begun. Without addresses it has failed.
pub open spec fn registration_begun(candidates: Seq<CandidateV>) -> (
    RegistrationV,
    RegistrationActionV,
) {
    if candidates.len() == 0 {
        (
            RegistrationV {
                candidates,
                phase: RegistrationPhaseV::Done(RegistrationOutcome::Failed),
            },
            RegistrationActionV::Nothing,
        )
    } else {
        (
            RegistrationV { candidates, phase: RegistrationPhaseV::Adding { index: 0 } },
            RegistrationActionV::Add { url: candidates[0].public_url },
        )
    }
}

/// A registration with the next address; after the last one, with the first again.
pub open spec fn next_address(s: RegistrationV, index: usize) -> (
    RegistrationV,
    RegistrationActionV,
) {
    if index + 1 < s.candidates.len() {
        (
            RegistrationV {
                phase: RegistrationPhaseV::Adding { index: (index + 1) as usize },
                ..s
            },
            RegistrationActionV::Add { url: s.candidates[index + 1].public_url },
        )
    } else {
        (
            RegistrationV { phase: RegistrationPhaseV::Falling, ..s },
            RegistrationActionV::Add { url: s.candidates[0].public_url },
        )
    }
}

/// A registration that has ended.
pub open spec fn registration_ended(s: RegistrationV, outcome: RegistrationOutcome) -> (
    RegistrationV,
    RegistrationActionV,
) {
    (
        RegistrationV { phase: RegistrationPhaseV::Done(outcome), ..s },
        RegistrationActionV::Nothing,
    )
}

/// A registration after something happened, and what is to be done next. What does
/// not belong to its phase is passed over.
pub open spec fn registration_advanced(s: RegistrationV, event: RegistrationEventV) -> (
    RegistrationV,
    RegistrationActionV,
) {
    match (s.phase, event) {
        (RegistrationPhaseV::Adding { index }, RegistrationEventV::Added { ok }) => if ok {
            (
                RegistrationV { phase: RegistrationPhaseV::Verifying { index }, ..s },
                RegistrationActionV::Verify,
            )
        } else {
            next_address(s, index)
        },
        (
            RegistrationPhaseV::Verifying { index },
            RegistrationEventV::Verified { contacted },
        ) => if contacted {
            registration_ended(s, RegistrationOutcome::Verified)
        } else {
            (
                RegistrationV { phase: RegistrationPhaseV::Removing { index }, ..s },
                RegistrationActionV::Remove,
            )
        },
        (RegistrationPhaseV::Removing { index }, RegistrationEventV::Removed) => next_address(
            s,
            index,
        ),
        (RegistrationPhaseV::Falling, RegistrationEventV::Added { ok }) => registration_ended(
            s,
            if ok {
                RegistrationOutcome::Unverified
            } else {
                RegistrationOutcome::Failed
            },
        ),
        _ => (s, RegistrationActionV::Nothing),
    }
}

impl Registration {
    /// Begins to register a server under one of its addresses.
    pub fn register_candidates(candidates: Vec<Candidate>) -> (r: (Registration, RegistrationAction))
        ensures
            (r.0@, r.1@) == registration_begun(candidates.deep_view()),
            r.0@.in_bounds(),
    {
        if candidates.len() == 0 {
            return (
                Registration {
                    candidates,
                    phase: RegistrationPhase::Done(RegistrationOutcome::Failed),
                },
                RegistrationAction::Nothing,
            );
        }
        let url = candidates[0].public_url.clone();
        (
            Registration { candidates, phase: RegistrationPhase::Adding { index: 0 } },
            RegistrationAction::Add { url },
        )
    }

    fn try_next(&mut self, index: usize) -> (r: RegistrationAction)
        requires
            index < old(self).candidates.len(),
        ensures
            (final(self)@, r@) == next_address(old(self)@, index),
    {
        if index + 1 < self.candidates.len() {
            let url = self.candidates[index + 1].public_url.clone();
            self.phase = RegistrationPhase::Adding { index: index + 1 };
            RegistrationAction::Add { url }
        } else {
            let url = self.candidates[0].public_url.clone();
            self.phase = RegistrationPhase::Falling;
            RegistrationAction::Add { url }
        }
    }

    /// Goes on after something happened.
    pub fn advance(&mut self, event: &RegistrationEvent) -> (r: RegistrationAction)
        requires
            old(self)@.in_bounds(),
        ensures
            (final(self)@, r@) == registration_advanced(old(self)@, event@),
            final(self)@.in_bounds(),
    {
        match &self.phase {
            RegistrationPhase::Adding { index } => match event {
                RegistrationEvent::Added { ok } => {
                    let i: usize = *index;
                    if *ok {
                        self.phase = RegistrationPhase::Verifying { index: i };
                        RegistrationAction::Verify
                    } else {
                        self.try_next(i)
                    }
                },
                _ => RegistrationAction::Nothing,
            },
            RegistrationPhase::Verifying { index } => match event {
                RegistrationEvent::Verified { contacted } => {
                    let i: usize = *index;
                    if *contacted {
                        self.phase = RegistrationPhase::Done(RegistrationOutcome::Verified);
                        RegistrationAction::Nothing
                    } else {
                        self.phase = RegistrationPhase::Removing { index: i };
                        RegistrationAction::Remove
                    }
                },
                _ => RegistrationAction::Nothing,
            },
            RegistrationPhase::Removing { index } => match event {
                RegistrationEvent::Removed => {
                    let i: usize = *index;
                    self.try_next(i)
                },
                _ => RegistrationAction::Nothing,
            },
            RegistrationPhase::Falling => match event {
                RegistrationEvent::Added { ok } => {
                    let outcome = if *ok {
                        RegistrationOutcome::Unverified
                    } else {
                        RegistrationOutcome::Failed
                    };
                    self.phase = RegistrationPhase::Done(outcome);
                    RegistrationAction::Nothing
                },
                _ => RegistrationAction::Nothing,
            },
            RegistrationPhase::Done(_) => RegistrationAction::Nothing,
        }
    }

    /// What the registration came to; `None` while it goes on.
    pub fn outcome(&self) -> (r: Option<RegistrationOutcome>)
        ensures
            r == (match self@.phase {
                RegistrationPhaseV::Done(o) => Some(o),
                _ => None,
            }),
    {
        match &self.phase {
            RegistrationPhase::Done(o) => Some(*o),
            _ => None,
        }
    }
}

/// Whether an address before the `n`th is accepted by the remote server and reached by
/// it.
pub open spec fn some_reached(accepted: Seq<bool>, reached: Seq<bool>, n: int) -> bool {
    exists|k: int| 0 <= k < n && #[trigger] accepted[k] && reached[k]
}

/// What a registration comes to where the remote server accepts and reaches the
/// addresses as told, and accepts the first again at the end or not.
pub open spec fn run_out(
    s: RegistrationV,
    accepted: Seq<bool>,
    reached: Seq<bool>,
    fallback: bool,
    steps: nat,
) -> RegistrationV
    decreases steps,
{
    if steps == 0 {
        s
    } else {
        let event = match s.phase {
            RegistrationPhaseV::Adding { index } => RegistrationEventV::Added {
                ok: accepted[index as int],
            },
            RegistrationPhaseV::Verifying { index } => RegistrationEventV::Verified {
                contacted: reached[index as int],
            },
            RegistrationPhaseV::Removing { .. } => RegistrationEventV::Removed,
            _ => RegistrationEventV::Added { ok: fallback },
        };
        run_out(
            registration_advanced(s, event).0,
            accepted,
            reached,
            fallback,
            (steps - 1) as nat,
        )
    }
}

/// A registration is verified exactly where the remote server accepts and reaches one
/// of the addresses. Else the first address is kept, where it is accepted at the end,
/// and the registration failed where not. Either way it ends.
pub proof fn registration_takes_what_is_reached(
    candidates: Seq<CandidateV>,
    accepted: Seq<bool>,
    reached: Seq<bool>,
    fallback: bool,
)
    requires
        accepted.len() == candidates.len(),
        reached.len() == candidates.len(),
        candidates.len() <= usize::MAX,
    ensures
        run_out(
            registration_begun(candidates).0,
            accepted,
            reached,
            fallback,
            3 * candidates.len() + 1,
        ).phase == RegistrationPhaseV::Done(
            if some_reached(accepted, reached, candidates.len() as int) {
                RegistrationOutcome::Verified
            } else if candidates.len() > 0 && fallback {
                RegistrationOutcome::Unverified
            } else {
                RegistrationOutcome::Failed
            },
        ),
{
    if candidates.len() > 0 {
        lemma_run(candidates, accepted, reached, fallback, 0);
    } else {
        lemma_done(registration_begun(candidates).0, accepted, reached, fallback, 1);
    }
}

proof fn lemma_done(
    s: RegistrationV,
    accepted: Seq<bool>,
    reached: Seq<bool>,
    fallback: bool,
    steps: nat,
)
    requires
        s.phase is Done,
    ensures
        run_out(s, accepted, reached, fallback, steps) == s,
    decreases steps,
{
    if steps > 0 {
        lemma_done(s, accepted, reached, fallback, (steps - 1) as nat);
    }
}

proof fn lemma_run(
    candidates: Seq<CandidateV>,
    accepted: Seq<bool>,
    reached: Seq<bool>,
    fallback: bool,
    index: int,
)
    requires
        0 <= index < candidates.len() <= usize::MAX,
        accepted.len() == candidates.len(),
        reached.len() == candidates.len(),
        !some_reached(accepted, reached, index),
    ensures
        forall|steps: nat|
            steps >= 3 * (candidates.len() - index) + 1 ==> (#[trigger] run_out(
                RegistrationV {
                    candidates,
                    phase: RegistrationPhaseV::Adding { index: index as usize },
                },
                accepted,
                reached,
                fallback,
                steps,
            )).phase == RegistrationPhaseV::Done(
                if some_reached(accepted, reached, candidates.len() as int) {
                    RegistrationOutcome::Verified
                } else if fallback {
                    RegistrationOutcome::Unverified
                } else {
                    RegistrationOutcome::Failed
                },
            ),
    decreases candidates.len() - index,
{
    let at = RegistrationV {
        candidates,
        phase: RegistrationPhaseV::Adding { index: index as usize },
    };
    let verifying = RegistrationV {
        candidates,
        phase: RegistrationPhaseV::Verifying { index: index as usize },
    };
    let removing = RegistrationV {
        candidates,
        phase: RegistrationPhaseV::Removing { index: index as usize },
    };
    let verified = RegistrationV {
        candidates,
        phase: RegistrationPhaseV::Done(RegistrationOutcome::Verified),
    };
    let falling = RegistrationV { candidates, phase: RegistrationPhaseV::Falling };
    let fallen = RegistrationV {
        candidates,
        phase: RegistrationPhaseV::Done(
            if fallback {
                RegistrationOutcome::Unverified
            } else {
                RegistrationOutcome::Failed
            },
        ),
    };
    let here = accepted[index] && reached[index];
    if !here {
        assert(!some_reached(accepted, reached, index + 1)) by {
            if some_reached(accepted, reached, index + 1) {
                let k = choose|k: int| 0 <= k < index + 1 && #[trigger] accepted[k] && reached[k];
                assert(k < index);
                assert(some_reached(accepted, reached, index));
            }
        }
        if index + 1 < candidates.len() {
            lemma_run(candidates, accepted, reached, fallback, index + 1);
        }
    }
    assert forall|steps: nat| steps >= 3 * (candidates.len() - index) + 1 implies (
    #[trigger] run_out(at, accepted, reached, fallback, steps)).phase == RegistrationPhaseV::Done(
        if some_reached(accepted, reached, candidates.len() as int) {
            RegistrationOutcome::Verified
        } else if fallback {
            RegistrationOutcome::Unverified
        } else {
            RegistrationOutcome::Failed
        },
    ) by {
        let s1 = (steps - 1) as nat;
        let s2 = (steps - 2) as nat;
        let s3 = (steps - 3) as nat;
        let s4 = (steps - 4) as nat;
        if accepted[index] {
            assert(run_out(at, accepted, reached, fallback, steps) == run_out(
                verifying,
                accepted,
                reached,
                fallback,
                s1,
            ));
            if reached[index] {
                assert(run_out(verifying, accepted, reached, fallback, s1) == run_out(
                    verified,
                    accepted,
                    reached,
                    fallback,
                    s2,
                ));
                lemma_done(verified, accepted, reached, fallback, s2);
                assert(accepted[index] && reached[index]);
                assert(some_reached(accepted, reached, candidates.len() as int));
            } else {
                assert(run_out(verifying, accepted, reached, fallback, s1) == run_out(
                    removing,
                    accepted,
                    reached,
                    fallback,
                    s2,
                ));
                if index + 1 < candidates.len() {
                    let next = RegistrationV {
                        candidates,
                        phase: RegistrationPhaseV::Adding { index: (index + 1) as usize },
                    };
                    assert(run_out(removing, accepted, reached, fallback, s2) == run_out(
                        next,
                        accepted,
                        reached,
                        fallback,
                        s3,
                    ));
                } else {
                    assert(run_out(removing, accepted, reached, fallback, s2) == run_out(
                        falling,
                        accepted,
                        reached,
                        fallback,
                        s3,
                    ));
                    assert(run_out(falling, accepted, reached, fallback, s3) == run_out(
                        fallen,
                        accepted,
                        reached,
                        fallback,
                        s4,
                    ));
                    lemma_done(fallen, accepted, reached, fallback, s4);
                }
            }
        } else if index + 1 < candidates.len() {
            let next = RegistrationV {
                candidates,
                phase: RegistrationPhaseV::Adding { index: (index + 1) as usize },
            };
            assert(run_out(at, accepted, reached, fallback, steps) == run_out(
                next,
                accepted,
                reached,
                fallback,
                s1,
            ));
        } else {
            assert(run_out(at, accepted, reached, fallback, steps) == run_out(
                falling,
                accepted,
                reached,
                fallback,
                s1,
            ));
            assert(run_out(falling, accepted, reached, fallback, s1) == run_out(
                fallen,
                accepted,
                reached,
                fallback,
                s2,
            ));
            lemma_done(fallen, accepted, reached, fallback, s2);
        }
    }
}

/// What the start of the server comes to: the server itself where it started and an
/// address is registered.
pub open spec fn start_failure(
    start: Option<Seq<char>>,
    outcome: RegistrationOutcome,
) -> Option<Seq<char>> {
    match start {
        Some(e) => Some("failed to start local fs MCP server: "@ + e),
        None => if outcome == RegistrationOutcome::Failed {
            Some("OpenCode rejected local fs MCP registration for every candidate"@)
        } else {
            None
        },
    }
}

/// Why there is no server: it did not start, or no address is registered.
pub fn start_and_register(start: Option<&str>, outcome: RegistrationOutcome) -> (r: Option<String>)
    ensures
        r.deep_view() == start_failure(opt_str(start), outcome),
{
    match start {
        Some(e) => Some(cat("failed to start local fs MCP server: ", e)),
        None => {
            if outcome == RegistrationOutcome::Failed {
                Some("OpenCode rejected local fs MCP registration for every candidate".to_owned())
            } else {
                None
            }
        },
    }
}

/// Looks at the address of the route to the remote server: true where it changed since
/// the last look, and the server is to be registered anew.
pub fn route_changed(last: &mut Option<String>, now: Option<&str>) -> (r: bool)
    ensures
        r == (old(last).deep_view() != opt_str(now)),
        final(last).deep_view() == opt_str(now),
{
    let same = match (&*last, now) {
        (Some(a), Some(b)) => str_eq(a.as_str(), b),
        (None, None) => true,
        _ => false,
    };
    *last = own_opt(now);
    !same
}

/// What is to be done before a prompt so that the remote server calls this
/// conversation's server.
pub fn ensure_local_fs_mcp(running: bool, owns_slot: bool) -> (r: LocalToolsStep)
    ensures
        r == (if !running {
            LocalToolsStep::Start
        } else if owns_slot {
            LocalToolsStep::Nothing
        } else {
            LocalToolsStep::Reclaim
        }),
{
    if !running {
        LocalToolsStep::Start
    } else if owns_slot {
        LocalToolsStep::Nothing
    } else {
        LocalToolsStep::Reclaim
    }
}

} // verus!
