//! The event dispatcher: what each event of the server's stream changes, and what
//! it asks for.
use vstd::prelude::*;

use crate::collections::{
    age, assoc, elapsed, map_get, map_has, map_put, prune_replied_map, pruned, set_add, set_has,
    with_entry, with_member,
};
use crate::events::{
    either, either_number, either_text, event_kind, event_property_fingerprint, field_number, fingerprint_of,
    get_either, get_either_str, get_either_u64, get_u64, idle_reason_of, is_known_ignored_event, kind_of,
    known_ignored, opencode_idle_reason, opencode_status, retry_reason, retry_reason_of, status_of, str_or,
    text_or, typed_error_from_props, typed_error_of, unwrap_event, unwrapped, EventKind,
};
use crate::json::{fields, json_text, opt_str, parsed_text, trees, Json, JsonV, NumberV, Obj};
use crate::models::{checked_tokens_used, field_texts, find_limit, get_texts, limit_in, tokens_used};
use crate::question::{
    build_question_confirmations, cards_of, choice_with, make_choice, make_choice_with, parse_question_request,
    plain_choice, question_request_of, unanswered, PendingQuestion,
};
use crate::state::{
    blessed_line, delta_effects, drop_call, drop_pending, drop_request, enqueue, find_request,
    flush_all, flush_part, has_request, no_effects, of_other_part, of_part, path_is_under_blessed,
    push_delta, queued, queued_all, session_or_ancestor_blessed, then_do, under_blessed, with_delta,
    without_call, without_pending, without_request, RemoteState, RemoteStateV,
};
use crate::stream::{
    get_text_under, text_under, tool_input_of, tool_progress_of, translate_tool_input, translate_tool_progress,
};
use crate::text::{cat, cat3, join, joined, str_eq};
use crate::types::{
    copy_jsons, copy_opt, own_opt, AgentStreamEvent, AgentStreamEventV, Confirmation, ConfirmationOption,
    ConfirmationOptionV, ConfirmationV, ConversationStatus, Effect, EffectV, RemoteAgentStatus,
};

verus! {

/// How many answered questions are remembered.
pub const QUESTION_DEDUP_CAP: usize = 1024;

/// The least time between two reports of a sub-agent's progress, in milliseconds.
pub const PROGRESS_CADENCE_MS: i64 = 500;

/// A state together with the effects that led to it.
pub struct StepV {
    pub state: RemoteStateV,
    pub effects: Seq<EffectV>,
}

/// A step that does nothing.
pub open spec fn stay(s: RemoteStateV) -> StepV {
    StepV { state: s, effects: Seq::empty() }
}

/// A tool part as the tool translator reads it.
#[derive(Debug, PartialEq, Eq)]
pub struct ToolCallUpdate {
    pub tool_call_id: String,
    pub update: Json,
}

/// Model of [`ToolCallUpdate`].
pub struct ToolCallUpdateV {
    pub tool_call_id: Seq<char>,
    pub update: JsonV,
}

impl View for ToolCallUpdate {
    type V = ToolCallUpdateV;

    open spec fn view(&self) -> ToolCallUpdateV {
        ToolCallUpdateV {
            tool_call_id: self.tool_call_id.deep_view(),
            update: self.update.deep_view(),
        }
    }
}

impl DeepView for ToolCallUpdate {
    type V = ToolCallUpdateV;

    open spec fn deep_view(&self) -> ToolCallUpdateV {
        self@
    }
}

/// What the program around the agent knows when an event comes in.
#[derive(Debug, PartialEq, Eq)]
pub struct Outside {
    /// The time, in milliseconds.
    pub now: i64,
    /// Whether the sub-agent registry took the event's session on as a new child.
    pub child_registered: bool,
    /// Whether the registry's summary of the event's session changed.
    pub child_changed: bool,
    /// The tool translator's reading of the event; `None` where it has none.
    pub tool_call: Option<ToolCallUpdate>,
    /// The event's progress payload in the form that listeners take.
    pub progress: Json,
    /// The model windows that the server reports; looked at where none are cached.
    pub context_limits: Vec<(String, u64)>,
}

/// Model of [`Outside`].
pub struct OutsideV {
    pub now: i64,
    pub child_registered: bool,
    pub child_changed: bool,
    pub tool_call: Option<ToolCallUpdateV>,
    pub progress: JsonV,
    pub context_limits: Seq<(Seq<char>, u64)>,
}

impl View for Outside {
    type V = OutsideV;

    open spec fn view(&self) -> OutsideV {
        OutsideV {
            now: self.now.deep_view(),
            child_registered: self.child_registered.deep_view(),
            child_changed: self.child_changed.deep_view(),
            tool_call: self.tool_call.deep_view(),
            progress: self.progress.deep_view(),
            context_limits: self.context_limits.deep_view(),
        }
    }
}

impl DeepView for Outside {
    type V = OutsideV;

    open spec fn deep_view(&self) -> OutsideV {
        self@
    }
}

/// Where an event comes from.
#[derive(Debug, PartialEq, Eq)]
pub struct Gate {
    /// The session that the event is about.
    pub session_id: Option<String>,
    /// Whether that is a sub-agent's session.
    pub is_child: bool,
    /// The root session, where the event is not about it.
    pub parent: Option<String>,
}

/// Model of [`Gate`].
pub struct GateV {
    pub session_id: Option<Seq<char>>,
    pub is_child: bool,
    pub parent: Option<Seq<char>>,
}

impl View for Gate {
    type V = GateV;

    open spec fn view(&self) -> GateV {
        GateV {
            session_id: self.session_id.deep_view(),
            is_child: self.is_child.deep_view(),
            parent: self.parent.deep_view(),
        }
    }
}

impl DeepView for Gate {
    type V = GateV;

    open spec fn deep_view(&self) -> GateV {
        self@
    }
}

/// Whether an event is let in, and what is known of its session.
pub enum Passage {
    /// The event is another conversation's.
    Drop,
    /// The event announced a sub-agent session that is now registered.
    Registered { child: Seq<char>, parent: Seq<char> },
    /// The event is dealt with.
    Pass(GateV),
}

/// Admission: an event about no session passes, and so does one about the root
/// session or a registered sub-agent session. A newly registered sub-agent session
/// is taken on. Anything else is another conversation's.
pub open spec fn gate_of(s: RemoteStateV, event_type: Seq<char>, props: JsonV, out: OutsideV) -> Passage {
    match props.field_text("sessionID"@) {
        None => Passage::Pass(GateV { session_id: None, is_child: false, parent: None }),
        Some(e) => {
            let own = s.opencode_session_id;
            let known = assoc(s.child_sessions, e) is Some;
            if own == Some(e) {
                Passage::Pass(GateV { session_id: Some(e), is_child: false, parent: None })
            } else if event_type == "session.created"@ && own is Some && out.child_registered {
                Passage::Registered { child: e, parent: own->0 }
            } else if known {
                Passage::Pass(GateV { session_id: Some(e), is_child: true, parent: own })
            } else {
                Passage::Drop
            }
        },
    }
}

/// The end of the root turn, if one is under way: what is pending is told, then
/// `Finish`.
pub open spec fn finish_root(s: RemoteStateV, session: Option<Seq<char>>) -> StepV {
    if !s.root_turn_active {
        stay(s)
    } else {
        StepV {
            state: RemoteStateV {
                root_turn_active: false,
                finished_current_user_turn: true,
                pending_deltas: Seq::empty(),
                ..s
            },
            effects: delta_effects(s.pending_deltas).push(
                EffectV::Emit(AgentStreamEventV::Finish { session_id: session }),
            ).push(EffectV::TransitionTo(ConversationStatus::Finished)).push(EffectV::ReleaseTurnSlot),
        }
    }
}

/// The end of a sub-agent's work.
pub open spec fn complete_child(g: GateV, failed: bool, error: Option<Seq<char>>) -> Seq<EffectV> {
    match (g.session_id, g.parent) {
        (Some(child), Some(parent)) => seq![
            EffectV::CompleteChild { parent_id: parent, child_id: child, failed, error },
        ],
        _ => Seq::empty(),
    }
}

/// A session that stopped working: a sub-agent completes, the root turn ends.
pub open spec fn rest(s: RemoteStateV, g: GateV) -> StepV {
    if g.is_child {
        StepV { state: s, effects: complete_child(g, false, None) }
    } else {
        finish_root(s, g.session_id)
    }
}

/// The step with effects put before its own.
pub open spec fn after(effects: Seq<EffectV>, step: StepV) -> StepV {
    StepV { state: step.state, effects: effects + step.effects }
}

/// The status that a `session.status` event reports.
pub open spec fn status_type_of(props: JsonV) -> Option<Seq<char>> {
    match props.field("status"@) {
        Some(v) => v.field_text("type"@),
        None => None,
    }
}

/// A `session.status` event.
pub open spec fn on_status(s: RemoteStateV, props: JsonV, g: GateV) -> StepV {
    let told = match g.session_id {
        Some(sid) => seq![
            EffectV::Emit(
                AgentStreamEventV::SessionStatus {
                    session_id: sid,
                    status: status_of(status_type_of(props)).0,
                    reason: status_of(status_type_of(props)).1,
                },
            ),
        ],
        None => Seq::empty(),
    };
    if status_type_of(props) == Some("busy"@) {
        StepV {
            state: RemoteStateV {
                session_key: if g.session_id is Some {
                    g.session_id
                } else {
                    s.session_key
                },
                connection_status: RemoteAgentStatus::Connected,
                root_turn_active: s.root_turn_active || (!g.is_child
                    && !s.finished_current_user_turn),
                ..s
            },
            effects: told.push(EffectV::BumpActivity).push(
                EffectV::Emit(AgentStreamEventV::Start { session_id: g.session_id }),
            ),
        }
    } else if status_type_of(props) == Some("idle"@) {
        after(told, rest(s, g))
    } else {
        StepV { state: s, effects: told }
    }
}

/// The integer under `at`, or the present time.
pub open spec fn time_of(props: JsonV, now: i64) -> i64 {
    match props.field("at"@) {
        Some(v) => match v.signed() {
            Some(n) => n,
            None => now,
        },
        None => now,
    }
}

/// A `session.idle` event.
pub open spec fn on_idle(s: RemoteStateV, props: JsonV, g: GateV, now: i64) -> StepV {
    let told = match g.session_id {
        Some(sid) => seq![
            EffectV::Emit(
                AgentStreamEventV::SessionIdle {
                    session_id: sid,
                    reason: idle_reason_of(props),
                    at: time_of(props, now),
                },
            ),
        ],
        None => Seq::empty(),
    };
    after(told, rest(s, g))
}

/// A `session.error` event.
pub open spec fn on_error(s: RemoteStateV, props: JsonV, g: GateV) -> StepV {
    let error = typed_error_of(props);
    if g.is_child {
        StepV { state: s, effects: complete_child(g, true, Some(error.message)) }
    } else {
        let message_id = text_or(either_text(props, "messageID"@, "messageId"@), ""@);
        let part_id = text_or(either_text(props, "partID"@, "partId"@), ""@);
        if error.recoverable && message_id.len() > 0 && part_id.len() > 0 {
            StepV {
                state: s,
                effects: seq![
                    EffectV::Emit(
                        AgentStreamEventV::SessionErrorRecovered {
                            message_id,
                            part_id,
                            error,
                            recovery_action: text_or(
                                either_text(props, "recoveryAction"@, "recovery_action"@),
                                "retry"@,
                            ),
                        },
                    ),
                ],
            }
        } else {
            StepV {
                state: s,
                effects: seq![
                    EffectV::Emit(
                        AgentStreamEventV::Error {
                            message: error.message,
                            code: None,
                            kind: Some(error.kind),
                            metadata: error.metadata,
                            recoverable: Some(error.recoverable),
                        },
                    ),
                    EffectV::TransitionTo(ConversationStatus::Finished),
                ],
            }
        }
    }
}

/// The value under the first key that is there: two keys of one object, then two
/// of another.
pub open spec fn either_of_two(v: JsonV, a: Seq<char>, b: Seq<char>, w: JsonV, c: Seq<char>, d: Seq<char>) -> Option<
    JsonV,
> {
    match either(v, a, b) {
        Some(x) => Some(x),
        None => either(w, c, d),
    }
}

/// The text of an optional value.
pub open spec fn opt_text(v: Option<JsonV>) -> Option<Seq<char>> {
    match v {
        Some(x) => x.text(),
        None => None,
    }
}

/// A `session.next.retried` event.
pub open spec fn on_retried(s: RemoteStateV, props: JsonV) -> StepV {
    let error = crate::events::error_of(props);
    let message_id = text_or(
        opt_text(either_of_two(props, "messageID"@, "messageId"@, error, "messageID"@, "messageId"@)),
        ""@,
    );
    let part_id = text_or(
        opt_text(either_of_two(props, "partID"@, "partId"@, error, "partID"@, "partId"@)),
        ""@,
    );
    if message_id.len() == 0 || part_id.len() == 0 {
        stay(s)
    } else {
        StepV {
            state: s,
            effects: seq![
                EffectV::Emit(
                    AgentStreamEventV::Retry {
                        message_id,
                        part_id,
                        attempt: match field_number(props, "attempt"@) {
                            Some(n) => n,
                            None => 1,
                        },
                        reason: retry_reason_of(
                            opt_text(
                                match props.field("reason"@) {
                                    Some(r) => Some(r),
                                    None => either(error, "reason"@, "type"@),
                                },
                            ),
                        ),
                        retry_after: either_number(props, "retryAfter"@, "retry_after"@),
                        provider_hint: opt_text(
                            either_of_two(
                                props,
                                "providerHint"@,
                                "provider_hint"@,
                                error,
                                "providerID"@,
                                "providerId"@,
                            ),
                        ),
                    },
                ),
            ],
        }
    }
}

/// The text under two nested keys.
pub open spec fn nested_text(v: JsonV, outer: Seq<char>, key: Seq<char>) -> Option<Seq<char>> {
    match v.field(outer) {
        Some(x) => x.field_text(key),
        None => None,
    }
}

/// A model as it is remembered.
pub open spec fn model_json(model: Seq<char>, provider: Seq<char>, variant: Seq<char>) -> JsonV {
    JsonV::Object(
        fields().push(("modelID"@, JsonV::Str(model))).push(
            ("providerID"@, JsonV::Str(provider)),
        ).push(("variant"@, JsonV::Str(variant))),
    )
}

/// A `session.next.model.switched` event.
pub open spec fn on_model_switched(s: RemoteStateV, props: JsonV) -> StepV {
    let provider = text_or(nested_text(props, "model"@, "providerID"@), "opencode-go"@);
    let model = text_or(nested_text(props, "model"@, "id"@), ""@);
    let variant = text_or(nested_text(props, "model"@, "variant"@), "default"@);
    StepV {
        state: RemoteStateV { desired_model: Some(model_json(model, provider, variant)), ..s },
        effects: seq![
            EffectV::Emit(
                AgentStreamEventV::AcpModelInfo(
                    JsonV::Object(
                        fields().push(("current_model_id"@, JsonV::Str(model))).push(
                            ("current_model_label"@, JsonV::Str(provider + "/"@ + model)),
                        ),
                    ),
                ),
            ),
        ],
    }
}

/// How listeners are told of a mode.
pub open spec fn mode_effect(mode: Seq<char>) -> EffectV {
    EffectV::Emit(AgentStreamEventV::AcpModeInfo(JsonV::Object(seq![("mode"@, JsonV::Str(mode))])))
}

/// A `session.next.agent.switched` event.
pub open spec fn on_agent_switched(s: RemoteStateV, props: JsonV) -> StepV {
    let agent = text_or(props.field_text("agent"@), "build"@);
    StepV {
        state: RemoteStateV { desired_agent: Some(agent), ..s },
        effects: seq![mode_effect(agent)],
    }
}

/// A `message.part.delta` event.
pub open spec fn on_part_delta(s: RemoteStateV, props: JsonV) -> StepV {
    match (props.field_text("field"@), props.field_text("delta"@)) {
        (Some(field), Some(delta)) => if field != "text"@ {
            stay(s)
        } else {
            let message = text_or(props.field_text("messageID"@), ""@);
            let part = text_or(props.field_text("partID"@), ""@);
            StepV {
                state: RemoteStateV {
                    pending_deltas: with_delta(
                        s.pending_deltas,
                        message,
                        part,
                        delta,
                        s.reasoning_parts.contains(part),
                    ),
                    ..s
                },
                effects: Seq::empty(),
            }
        },
        _ => stay(s),
    }
}

/// The state and the effects after the pending text of a part has been told.
pub open spec fn flushed(s: RemoteStateV, part: JsonV) -> StepV {
    match part.field_text("id"@) {
        Some(id) => StepV {
            state: RemoteStateV {
                pending_deltas: s.pending_deltas.filter(of_other_part(id)),
                ..s
            },
            effects: delta_effects(s.pending_deltas.filter(of_part(id))),
        },
        None => stay(s),
    }
}

/// A sub-agent's progress: told where something changed, and not more often than
/// the cadence allows.
pub open spec fn child_tick(s: RemoteStateV, g: GateV, out: OutsideV) -> StepV {
    match (g.session_id, g.parent) {
        (Some(child), Some(parent)) => {
            let last = match assoc(s.last_subtask_progress_ms, child) {
                Some(t) => t,
                None => 0,
            };
            if g.is_child && out.child_changed && age(out.now, last) >= PROGRESS_CADENCE_MS {
                StepV {
                    state: RemoteStateV {
                        last_subtask_progress_ms: with_entry(
                            s.last_subtask_progress_ms,
                            child,
                            out.now,
                        ),
                        ..s
                    },
                    effects: seq![
                        EffectV::ReportChildProgress { parent_id: parent, child_id: child },
                    ],
                }
            } else {
                stay(s)
            }
        },
        _ => stay(s),
    }
}

/// A tool part: announced the first time that its call is seen, updated after.
pub open spec fn tool_part(s: RemoteStateV, g: GateV, out: OutsideV) -> StepV {
    match out.tool_call {
        Some(call) => {
            let first = !s.opencode_tool_call_ids.contains(call.tool_call_id);
            let s1 = RemoteStateV {
                opencode_tool_call_ids: with_member(s.opencode_tool_call_ids, call.tool_call_id),
                ..s
            };
            after(
                seq![
                    EffectV::Emit(
                        AgentStreamEventV::AcpToolCall {
                            tool_call_id: call.tool_call_id,
                            first,
                            update: call.update,
                        },
                    ),
                ],
                child_tick(s1, g, out),
            )
        },
        None => stay(s),
    }
}

/// A `message.part.updated` event.
pub open spec fn on_part_updated(s: RemoteStateV, props: JsonV, g: GateV, out: OutsideV) -> StepV {
    match props.field("part"@) {
        None => stay(s),
        Some(part) => {
            let f = flushed(s, part);
            let kind = part.field_text("type"@);
            if kind == Some("reasoning"@) {
                match part.field_text("id"@) {
                    Some(id) => StepV {
                        state: RemoteStateV {
                            reasoning_parts: with_member(f.state.reasoning_parts, id),
                            ..f.state
                        },
                        effects: f.effects,
                    },
                    None => f,
                }
            } else if kind == Some("tool"@) {
                after(f.effects, tool_part(f.state, g, out))
            } else {
                f
            }
        },
    }
}

/// The model of an assistant message, told the first time that it is known.
pub open spec fn model_info(s: RemoteStateV, info: JsonV) -> StepV {
    match (info.field_text("id"@), info.field_text("modelID"@), info.field_text("providerID"@)) {
        (Some(message), Some(model), Some(provider)) => if s.model_info_emitted.contains(message) {
            stay(s)
        } else {
            StepV {
                state: RemoteStateV {
                    model_info_emitted: with_member(s.model_info_emitted, message),
                    ..s
                },
                effects: seq![
                    EffectV::Emit(
                        AgentStreamEventV::AssistantModelInfo {
                            message_id: message,
                            provider_id: provider,
                            model_id: model,
                        },
                    ),
                ],
            }
        },
        _ => stay(s),
    }
}

/// How full the context window is after a message. Nothing is told where the
/// message counts no tokens, or more than fit in 64 bits.
pub open spec fn context_usage(s: RemoteStateV, info: JsonV, out: OutsideV) -> StepV {
    match info.field("tokens"@) {
        None => stay(s),
        Some(tokens) => {
            let used = tokens_used(tokens);
            if used == 0 || used > u64::MAX {
                stay(s)
            } else {
                let limits = match s.model_context_limits {
                    Some(l) => l,
                    None => out.context_limits,
                };
                match info.field_text("modelID"@) {
                    Some(model) => StepV {
                        state: RemoteStateV { model_context_limits: Some(limits), ..s },
                        effects: seq![usage_effect(used as u64, limit_in(limits, model))],
                    },
                    None => StepV { state: s, effects: seq![usage_effect(used as u64, 0)] },
                }
            }
        },
    }
}

/// How listeners are told of the context window.
pub open spec fn usage_effect(used: u64, size: u64) -> EffectV {
    EffectV::Emit(
        AgentStreamEventV::AcpContextUsage(
            JsonV::Object(
                fields().push(("used"@, JsonV::Number(NumberV::Unsigned(used)))).push(
                    ("size"@, JsonV::Number(NumberV::Unsigned(size))),
                ),
            ),
        ),
    )
}

/// A `message.updated` event.
pub open spec fn on_message_updated(s: RemoteStateV, props: JsonV, g: GateV, out: OutsideV) -> StepV {
    match props.field("info"@) {
        None => stay(s),
        Some(info) => if info.field_text("role"@) != Some("assistant"@) {
            stay(s)
        } else {
            let a = model_info(s, info);
            if info.field_text("finish"@) == Some("stop"@) && !g.is_child {
                let b = context_usage(a.state, info, out);
                after(a.effects + b.effects, finish_root(b.state, g.session_id))
            } else {
                a
            }
        },
    }
}

/// A `todo.updated` event.
pub open spec fn on_todo(s: RemoteStateV, props: JsonV, g: GateV) -> StepV {
    match props.field_items("todos"@) {
        Some(entries) => StepV {
            state: s,
            effects: seq![
                EffectV::Emit(AgentStreamEventV::Plan { session_id: g.session_id, entries }),
            ],
        },
        None => stay(s),
    }
}

/// The path that a permission request is about.
pub open spec fn target_path_of(metadata: JsonV) -> Option<Seq<char>> {
    let found = match metadata.field("filepath"@) {
        Some(v) => Some(v),
        None => either(metadata, "path"@, "parentDir"@),
    };
    match opt_text(found) {
        Some(t) => if t.len() > 0 {
            Some(t)
        } else {
            None
        },
        None => None,
    }
}

/// The details of a permission request.
pub open spec fn metadata_of(props: JsonV) -> JsonV {
    match props.field("metadata"@) {
        Some(m) => m,
        None => JsonV::Object(Seq::empty()),
    }
}

/// Whether the user has already allowed what a permission request asks for.
pub open spec fn already_allowed(s: RemoteStateV, metadata: JsonV, session: Option<Seq<char>>) -> bool {
    ||| match target_path_of(metadata) {
        Some(t) => under_blessed(t, s.auto_accept_paths),
        None => false,
    }
    ||| match session {
        Some(sid) => blessed_line(
            sid,
            s.auto_accept_sessions,
            s.child_sessions,
            s.child_sessions.len(),
        ),
        None => false,
    }
}

/// The text of a permission request's confirmation.
pub open spec fn permission_text(metadata: JsonV, patterns: Seq<Seq<char>>) -> Seq<char> {
    match metadata.field_text("command"@) {
        Some(t) => t,
        None => match metadata.field_text("description"@) {
            Some(t) => t,
            None => match metadata.field_text("filePath"@) {
                Some(t) => t,
                None => match target_path_of(metadata) {
                    Some(t) => t,
                    None => match metadata.members() {
                        Some(m) => if m.len() > 0 {
                            json_text(metadata)
                        } else {
                            joined(patterns, ", "@)
                        },
                        None => joined(patterns, ", "@),
                    },
                },
            },
        },
    }
}

/// The choices of a permission request's confirmation.
pub open spec fn permission_choices(target: Option<Seq<char>>, g: GateV) -> Seq<ConfirmationOptionV> {
    let o = seq![plain_choice("Allow once"@, "once"@)];
    let o = match target {
        Some(path) => o.push(
            choice_with("Allow this directory tree (session)"@, "allow_dir"@, "path"@, path),
        ),
        None => o,
    };
    let o = match (g.session_id, g.parent) {
        (Some(sid), Some(_)) => o.push(
            choice_with("Allow rest of this sub-agent"@, "allow_session"@, "sessionID"@, sid),
        ),
        _ => o,
    };
    o.push(plain_choice("Allow always"@, "always"@)).push(plain_choice("Reject"@, "reject"@))
}

/// The confirmation for a permission request.
pub open spec fn permission_card(id: Seq<char>, props: JsonV, g: GateV) -> ConfirmationV {
    let permission = text_or(props.field_text("permission"@), ""@);
    let metadata = metadata_of(props);
    ConfirmationV {
        id,
        call_id: id,
        title: Some(
            if permission.len() == 0 {
                "OpenCode permission request"@
            } else {
                "OpenCode wants to: "@ + permission
            },
        ),
        action: Some(permission),
        description: permission_text(metadata, field_texts(props, "patterns"@)),
        command_type: Some(permission),
        options: permission_choices(target_path_of(metadata), g),
        session_id: g.session_id,
        parent_session_id: g.parent,
    }
}

/// A `permission.asked` event: answered at once where the user has already allowed
/// it, else put to the user.
pub open spec fn on_permission_asked(
    s: RemoteStateV,
    props: JsonV,
    g: GateV,
    now: i64,
    opencode: bool,
) -> StepV {
    match props.field_text("id"@) {
        None => stay(s),
        Some(id) => if already_allowed(s, metadata_of(props), g.session_id) {
            StepV {
                state: RemoteStateV {
                    recently_replied_permissions: with_entry(
                        s.recently_replied_permissions,
                        id,
                        now,
                    ),
                    ..s
                },
                effects: if opencode {
                    seq![
                        EffectV::ReplyPermission {
                            request_id: id,
                            session_id: g.session_id,
                            reply: "once"@,
                            by_user: false,
                        },
                    ]
                } else {
                    Seq::empty()
                },
            }
        } else {
            let card = permission_card(id, props, g);
            StepV {
                state: RemoteStateV { confirmations: queued(s.confirmations, card), ..s },
                effects: seq![EffectV::Emit(AgentStreamEventV::AcpPermission(card))],
            }
        },
    }
}

/// A tool-input event.
pub open spec fn on_tool_input(s: RemoteStateV, event_type: Seq<char>, props: JsonV, g: GateV) -> StepV {
    match g.session_id {
        None => stay(s),
        Some(sid) => match tool_input_of(event_type, props, sid, g.parent) {
            Some(d) => StepV {
                state: s,
                effects: seq![EffectV::Emit(AgentStreamEventV::ToolInput(d))],
            },
            None => stay(s),
        },
    }
}

/// A tool-progress event.
pub open spec fn on_tool_progress(s: RemoteStateV, props: JsonV, g: GateV, out: OutsideV) -> StepV {
    match g.session_id {
        None => stay(s),
        Some(sid) => match tool_progress_of(props, out.progress, sid, g.parent, out.now) {
            Some(d) => StepV {
                state: s,
                effects: seq![EffectV::Emit(AgentStreamEventV::ToolProgress(d))],
            },
            None => stay(s),
        },
    }
}

/// How confirmations are put to the user.
pub open spec fn card_effects(cards: Seq<ConfirmationV>) -> Seq<EffectV> {
    cards.map_values(|c: ConfirmationV| EffectV::Emit(AgentStreamEventV::AcpPermission(c)))
}

/// A `question.asked` event: put to the user, unless it is already pending or has
/// been answered.
pub open spec fn on_question_asked(s: RemoteStateV, props: JsonV) -> StepV {
    match question_request_of(props) {
        None => stay(s),
        Some(req) => if assoc(s.recently_replied_questions, req.request_id) is Some || has_request(
            s.pending_questions,
            req.request_id,
        ) {
            stay(s)
        } else {
            StepV {
                state: RemoteStateV {
                    pending_questions: s.pending_questions.push(unanswered(req)),
                    confirmations: queued_all(s.confirmations, cards_of(req)),
                    ..s
                },
                effects: card_effects(cards_of(req)),
            }
        },
    }
}

/// The request that an answer belongs to.
pub open spec fn answered_request(props: JsonV) -> Option<Seq<char>> {
    text_under(props, "requestID"@, "id"@)
}

/// The state after a question has been closed.
pub open spec fn question_closed(s: RemoteStateV, id: Seq<char>, now: i64) -> RemoteStateV {
    RemoteStateV {
        pending_questions: without_pending(s.pending_questions, id),
        confirmations: without_request(s.confirmations, id),
        recently_replied_questions: pruned(
            with_entry(s.recently_replied_questions, id, now),
            QUESTION_DEDUP_CAP as nat,
        ),
        ..s
    }
}

/// A `question.replied` or `question.rejected` event.
pub open spec fn on_question_closed(s: RemoteStateV, props: JsonV, now: i64) -> StepV {
    match answered_request(props) {
        Some(id) => stay(question_closed(s, id, now)),
        None => stay(s),
    }
}

/// A `permission.replied` event.
pub open spec fn on_permission_replied(s: RemoteStateV, props: JsonV, now: i64) -> StepV {
    match answered_request(props) {
        Some(id) => stay(
            RemoteStateV {
                confirmations: without_call(s.confirmations, id),
                recently_replied_permissions: with_entry(s.recently_replied_permissions, id, now),
                ..s
            },
        ),
        None => stay(s),
    }
}

/// A `session.compacted` event.
pub open spec fn on_compacted(s: RemoteStateV, props: JsonV) -> StepV {
    StepV {
        state: s,
        effects: seq![
            EffectV::Emit(
                AgentStreamEventV::OpencodeSessionCompacted {
                    summary: text_or(props.field_text("summary"@), ""@),
                    tokens_reclaimed: match field_number(props, "tokensReclaimed"@) {
                        Some(n) => n,
                        None => 0,
                    },
                    original_start_message_id: text_or(
                        nested_text(props, "originalRange"@, "startMessageId"@),
                        ""@,
                    ),
                    original_end_message_id: text_or(
                        nested_text(props, "originalRange"@, "endMessageId"@),
                        ""@,
                    ),
                },
            ),
        ],
    }
}

/// An event of no handled kind.
pub open spec fn on_other(s: RemoteStateV, event_type: Seq<char>, props: JsonV) -> StepV {
    if known_ignored(event_type) {
        stay(s)
    } else {
        StepV {
            state: s,
            effects: seq![
                EffectV::NoteUnhandled { event_type, fingerprint: fingerprint_of(props) },
            ],
        }
    }
}

/// An event that was let in.
pub open spec fn on_event(
    s: RemoteStateV,
    event_type: Seq<char>,
    props: JsonV,
    g: GateV,
    out: OutsideV,
    opencode: bool,
) -> StepV {
    match kind_of(event_type) {
        EventKind::SessionStatus => on_status(s, props, g),
        EventKind::SessionIdle => on_idle(s, props, g, out.now),
        EventKind::SessionError => on_error(s, props, g),
        EventKind::Retried => on_retried(s, props),
        EventKind::ModelSwitched => on_model_switched(s, props),
        EventKind::AgentSwitched => on_agent_switched(s, props),
        EventKind::PartDelta => on_part_delta(s, props),
        EventKind::PartUpdated => on_part_updated(s, props, g, out),
        EventKind::MessageUpdated => on_message_updated(s, props, g, out),
        EventKind::TodoUpdated => on_todo(s, props, g),
        EventKind::PermissionAsked => on_permission_asked(s, props, g, out.now, opencode),
        EventKind::ToolInput => on_tool_input(s, event_type, props, g),
        EventKind::ToolProgress => on_tool_progress(s, props, g, out),
        EventKind::QuestionAsked => on_question_asked(s, props),
        EventKind::QuestionClosed => on_question_closed(s, props, out.now),
        EventKind::CatalogChanged => stay(RemoteStateV { model_context_limits: None, ..s }),
        EventKind::PermissionReplied => on_permission_replied(s, props, out.now),
        EventKind::InstallationUpdated => stay(s),
        EventKind::SkillUpdated => stay(RemoteStateV { opencode_skills: None, ..s }),
        EventKind::SessionCompacted => on_compacted(s, props),
        EventKind::Other => on_other(s, event_type, props),
    }
}

/// An event as it was read: nothing happens where it has no type or no properties,
/// or is another conversation's.
pub open spec fn on_raw(s: RemoteStateV, parsed: JsonV, out: OutsideV, opencode: bool) -> StepV {
    let raw = unwrapped(parsed);
    match (raw.field_text("type"@), raw.field("properties"@)) {
        (Some(t), Some(props)) => match gate_of(s, t, props, out) {
            Passage::Drop => stay(s),
            Passage::Registered { child, parent } => StepV {
                state: RemoteStateV { child_sessions: with_entry(s.child_sessions, child, parent), ..s },
                effects: seq![EffectV::StartChild { parent_id: parent, child_id: child }],
            },
            Passage::Pass(g) => on_event(s, t, props, g, out, opencode),
        },
        _ => stay(s),
    }
}

/// An event as it came in: nothing happens where it is no JSON.
pub open spec fn on_data(s: RemoteStateV, data: Seq<char>, out: OutsideV, opencode: bool) -> StepV {
    match parsed_text(data) {
        Some(parsed) => on_raw(s, parsed, out, opencode),
        None => stay(s),
    }
}

/// Whether a message tells how full the window of a named model is: it is an assistant's,
/// it has stopped, and it counts tokens.
pub open spec fn tells_window(info: JsonV) -> bool {
    &&& info.field_text("role"@) == Some("assistant"@)
    &&& info.field_text("finish"@) == Some("stop"@)
    &&& info.field("tokens"@) matches Some(tokens) && 0 < tokens_used(tokens) <= u64::MAX
    &&& info.field_text("modelID"@) is Some
}

/// Whether the windows of the models have to be known for an event: none are known yet,
/// and the event is a message of the root session that tells how full one is.
pub open spec fn wants_limits(s: RemoteStateV, parsed: JsonV) -> bool {
    let raw = unwrapped(parsed);
    &&& s.model_context_limits is None
    &&& raw.field_text("type"@) matches Some(t) && kind_of(t) is MessageUpdated
    &&& raw.field("properties"@) matches Some(props) && (props.field_text("sessionID"@) is None
        || props.field_text("sessionID"@) == s.opencode_session_id) && (props.field("info"@)
        matches Some(info) && tells_window(info))
}

/// Where an event does not need the windows of the models, they make no difference.
pub proof fn unwanted_limits_make_no_difference(
    s: RemoteStateV,
    parsed: JsonV,
    out: OutsideV,
    limits: Seq<(Seq<char>, u64)>,
    opencode: bool,
)
    requires
        !wants_limits(s, parsed),
    ensures
        on_raw(s, parsed, (OutsideV { context_limits: limits, ..out }), opencode) == on_raw(
            s,
            parsed,
            out,
            opencode,
        ),
{
}

/// Whether an event is let in, and what is known of its session.
enum GateResult {
    Drop,
    Registered { child: String, parent: String },
    Pass(Gate),
}

impl GateResult {
    spec fn model(self) -> Passage {
        match self {
            GateResult::Drop => Passage::Drop,
            GateResult::Registered { child, parent } => Passage::Registered {
                child: child@,
                parent: parent@,
            },
            GateResult::Pass(g) => Passage::Pass(g@),
        }
    }
}

/// Sets the value under a key.
pub fn put_pair(m: &mut Vec<(String, String)>, key: &str, value: &str)
    ensures
        final(m).deep_view() == with_entry(old(m).deep_view(), key@, value@),
{
    let ghost mv = m.deep_view();
    let ghost p = crate::collections::other_key::<Seq<char>>(key@);
    let mut out: Vec<(String, String)> = Vec::new();
    let mut i: usize = 0;
    proof {
        crate::collections::filter_start(mv, p);
        assert(out.deep_view() =~= Seq::<(Seq<char>, Seq<char>)>::empty());
    }
    while i < m.len()
        invariant
            i <= m.len(),
            mv == m.deep_view(),
            p == crate::collections::other_key::<Seq<char>>(key@),
            out.deep_view() == mv.take(i as int).filter(p),
        decreases m.len() - i,
    {
        let ghost ov = out.deep_view();
        proof {
            crate::collections::filter_step(mv, i as int, p);
        }
        if !str_eq(m[i].0.as_str(), key) {
            out.push((m[i].0.clone(), m[i].1.clone()));
            assert(out.deep_view() =~= ov.push(mv[i as int]));
        }
        i += 1;
    }
    assert(mv.take(mv.len() as int) =~= mv);
    let ghost ov = out.deep_view();
    out.push((key.to_owned(), value.to_owned()));
    assert(out.deep_view() =~= ov.push((key@, value@)));
    *m = out;
}

/// The effects that end a sub-agent's work.
fn child_completion(g: &Gate, failed: bool, error: Option<String>, fx: &mut Vec<Effect>)
    ensures
        final(fx).deep_view() == old(fx).deep_view() + complete_child(
            g@,
            failed,
            error.deep_view(),
        ),
{
    let ghost before = fx.deep_view();
    match (&g.session_id, &g.parent) {
        (Some(child), Some(parent)) => {
            then_do(
                fx,
                Effect::CompleteChild {
                    parent_id: parent.clone(),
                    child_id: child.clone(),
                    failed,
                    error,
                },
            );
            assert(fx.deep_view() =~= before + complete_child(g@, failed, error.deep_view()));
        },
        _ => {
            assert(before + Seq::<EffectV>::empty() =~= before);
        },
    }
}

fn get_nested_str<'a>(v: &'a Json, outer: &str, key: &str) -> (r: Option<&'a str>)
    ensures
        opt_str(r) == nested_text(v@, outer@, key@),
{
    match v.get(outer) {
        Some(x) => x.get_str(key),
        None => None,
    }
}

fn either_of_two_str<'a>(v: &'a Json, a: &str, b: &str, w: &'a Json, c: &str, d: &str) -> (r: Option<
    &'a str,
>)
    ensures
        opt_str(r) == opt_text(either_of_two(v@, a@, b@, w@, c@, d@)),
{
    let found = match get_either(v, a, b) {
        Some(x) => Some(x),
        None => get_either(w, c, d),
    };
    match found {
        Some(x) => x.as_str(),
        None => None,
    }
}

/// The path that a permission request is about.
pub fn extract_permission_target_path(metadata: &Json) -> (r: Option<String>)
    ensures
        r.deep_view() == target_path_of(metadata@),
{
    let found = match metadata.get("filepath") {
        Some(v) => Some(v),
        None => get_either(metadata, "path", "parentDir"),
    };
    let t = match found {
        Some(v) => v.as_str(),
        None => None,
    };
    match t {
        Some(s) => if s.is_empty() {
            None
        } else {
            Some(s.to_owned())
        },
        None => None,
    }
}

/// The entries of an agent's to-do list; `None` where the event carries no list.
pub fn extract_opencode_todo_entries(props: &Json) -> (r: Option<Vec<Json>>)
    ensures
        match r {
            Some(v) => props@.field_items("todos"@) == Some(trees(v@)),
            None => props@.field_items("todos"@) is None,
        },
{
    match props.get_array("todos") {
        Some(a) => Some(copy_jsons(a)),
        None => None,
    }
}

fn trees_are_deep_view(v: &Vec<Json>)
    ensures
        v.deep_view() == trees(v@),
{
    assert(v.deep_view() =~= trees(v@));
}

/// The text of a permission request's confirmation.
fn describe_permission(metadata: &Json, patterns: &Vec<String>) -> (r: String)
    ensures
        r@ == permission_text(metadata@, patterns.deep_view()),
{
    match metadata.get_str("command") {
        Some(t) => {
            return t.to_owned();
        },
        None => {},
    }
    match metadata.get_str("description") {
        Some(t) => {
            return t.to_owned();
        },
        None => {},
    }
    match metadata.get_str("filePath") {
        Some(t) => {
            return t.to_owned();
        },
        None => {},
    }
    match extract_permission_target_path(metadata) {
        Some(t) => {
            return t;
        },
        None => {},
    }
    match metadata.as_object() {
        Some(m) => if m.len() > 0 {
            metadata.to_text()
        } else {
            join(patterns, ", ")
        },
        None => join(patterns, ", "),
    }
}

fn choose_permission(target: &Option<String>, g: &Gate) -> (r: Vec<ConfirmationOption>)
    ensures
        r.deep_view() == permission_choices(target.deep_view(), g@),
{
    let mut out: Vec<ConfirmationOption> = Vec::new();
    let ghost mut want: Seq<ConfirmationOptionV> = seq![plain_choice("Allow once"@, "once"@)];
    out.push(make_choice("Allow once", "once"));
    assert(out.deep_view() =~= want);
    match target {
        Some(path) => {
            out.push(
                make_choice_with(
                    "Allow this directory tree (session)",
                    "allow_dir",
                    "path",
                    path.as_str(),
                ),
            );
            proof {
                want = want.push(
                    choice_with("Allow this directory tree (session)"@, "allow_dir"@, "path"@, path@),
                );
            }
            assert(out.deep_view() =~= want);
        },
        None => {},
    }
    match (&g.session_id, &g.parent) {
        (Some(sid), Some(_)) => {
            out.push(
                make_choice_with(
                    "Allow rest of this sub-agent",
                    "allow_session",
                    "sessionID",
                    sid.as_str(),
                ),
            );
            proof {
                want = want.push(
                    choice_with("Allow rest of this sub-agent"@, "allow_session"@, "sessionID"@, sid@),
                );
            }
            assert(out.deep_view() =~= want);
        },
        _ => {},
    }
    out.push(make_choice("Allow always", "always"));
    out.push(make_choice("Reject", "reject"));
    assert(out.deep_view() =~= want.push(plain_choice("Allow always"@, "always"@)).push(
        plain_choice("Reject"@, "reject"@),
    ));
    out
}

impl RemoteState {
    fn pass_gate(&self, event_type: &str, props: &Json, out: &Outside) -> (r: GateResult)
        ensures
            r.model() == gate_of(self@, event_type@, props@, out@),
    {
        let e = match props.get_str("sessionID") {
            Some(e) => e,
            None => {
                return GateResult::Pass(Gate { session_id: None, is_child: false, parent: None });
            },
        };
        let known = crate::state::pair_get(&self.child_sessions, e).is_some();
        match &self.opencode_session_id {
            Some(own) => {
                if str_eq(own.as_str(), e) {
                    GateResult::Pass(
                        Gate { session_id: Some(e.to_owned()), is_child: false, parent: None },
                    )
                } else if str_eq(event_type, "session.created") && out.child_registered {
                    GateResult::Registered { child: e.to_owned(), parent: own.clone() }
                } else if known {
                    GateResult::Pass(
                        Gate {
                            session_id: Some(e.to_owned()),
                            is_child: true,
                            parent: Some(own.clone()),
                        },
                    )
                } else {
                    GateResult::Drop
                }
            },
            None => if known {
                GateResult::Pass(
                    Gate { session_id: Some(e.to_owned()), is_child: true, parent: None },
                )
            } else {
                GateResult::Drop
            },
        }
    }

    /// Ends the root turn, if one is under way.
    pub fn emit_root_turn_finish(&mut self, session_id: &Option<String>, fx: &mut Vec<Effect>)
        ensures
            final(self)@ == finish_root(old(self)@, session_id.deep_view()).state,
            final(fx).deep_view() == old(fx).deep_view() + finish_root(
                old(self)@,
                session_id.deep_view(),
            ).effects,
    {
        let ghost before = fx.deep_view();
        let ghost deltas = self@.pending_deltas;
        if !self.root_turn_active {
            assert(before + Seq::<EffectV>::empty() =~= before);
            return;
        }
        self.root_turn_active = false;
        self.finished_current_user_turn = true;
        flush_all(&mut self.pending_deltas, fx);
        then_do(fx, Effect::Emit(AgentStreamEvent::Finish { session_id: copy_opt(session_id) }));
        then_do(fx, Effect::TransitionTo(ConversationStatus::Finished));
        then_do(fx, Effect::ReleaseTurnSlot);
        assert(fx.deep_view() =~= before + finish_root(old(self)@, session_id.deep_view()).effects);
    }

    fn come_to_rest(&mut self, g: &Gate, fx: &mut Vec<Effect>)
        ensures
            final(self)@ == rest(old(self)@, g@).state,
            final(fx).deep_view() == old(fx).deep_view() + rest(old(self)@, g@).effects,
    {
        if g.is_child {
            child_completion(g, false, None, fx);
        } else {
            self.emit_root_turn_finish(&g.session_id, fx);
        }
    }

    fn handle_status(&mut self, props: &Json, g: &Gate) -> (fx: Vec<Effect>)
        ensures
            final(self)@ == on_status(old(self)@, props@, g@).state,
            fx.deep_view() == on_status(old(self)@, props@, g@).effects,
    {
        let mut fx = no_effects();
        let status_type = get_nested_str(props, "status", "type");
        match &g.session_id {
            Some(sid) => {
                let (status, reason) = opencode_status(status_type);
                then_do(
                    &mut fx,
                    Effect::Emit(
                        AgentStreamEvent::SessionStatus { session_id: sid.clone(), status, reason },
                    ),
                );
            },
            None => {},
        }
        let (busy, idle) = match status_type {
            Some(t) => (str_eq(t, "busy"), str_eq(t, "idle")),
            None => (false, false),
        };
        proof {
            reveal_strlit("busy");
            reveal_strlit("idle");
            assert("busy"@[0] != "idle"@[0]);
        }
        if busy {
            then_do(&mut fx, Effect::BumpActivity);
            then_do(
                &mut fx,
                Effect::Emit(AgentStreamEvent::Start { session_id: copy_opt(&g.session_id) }),
            );
            if g.session_id.is_some() {
                self.session_key = copy_opt(&g.session_id);
            }
            self.connection_status = RemoteAgentStatus::Connected;
            if !g.is_child && !self.finished_current_user_turn {
                self.root_turn_active = true;
            }
        } else if idle {
            self.come_to_rest(g, &mut fx);
        }
        fx
    }

    fn handle_idle(&mut self, props: &Json, g: &Gate, now: i64) -> (fx: Vec<Effect>)
        ensures
            final(self)@ == on_idle(old(self)@, props@, g@, now).state,
            fx.deep_view() == on_idle(old(self)@, props@, g@, now).effects,
    {
        let mut fx = no_effects();
        match &g.session_id {
            Some(sid) => {
                let at: i64 = match props.get("at") {
                    Some(v) => match v.as_i64() {
                        Some(n) => n,
                        None => now,
                    },
                    None => now,
                };
                then_do(
                    &mut fx,
                    Effect::Emit(
                        AgentStreamEvent::SessionIdle {
                            session_id: sid.clone(),
                            reason: opencode_idle_reason(props),
                            at,
                        },
                    ),
                );
            },
            None => {},
        }
        self.come_to_rest(g, &mut fx);
        fx
    }

    fn handle_error(&self, props: &Json, g: &Gate) -> (fx: Vec<Effect>)
        ensures
            on_error(self@, props@, g@).state == self@,
            fx.deep_view() == on_error(self@, props@, g@).effects,
    {
        let mut fx = no_effects();
        let error = typed_error_from_props(props);
        if g.is_child {
            child_completion(g, true, Some(error.message), &mut fx);
            assert(fx.deep_view() =~= complete_child(g@, true, Some(error.message@)));
            return fx;
        }
        let message_id = str_or(get_either_str(props, "messageID", "messageId"), "");
        let part_id = str_or(get_either_str(props, "partID", "partId"), "");
        if error.recoverable && !message_id.is_empty() && !part_id.is_empty() {
            let action = str_or(get_either_str(props, "recoveryAction", "recovery_action"), "retry");
            then_do(
                &mut fx,
                Effect::Emit(
                    AgentStreamEvent::SessionErrorRecovered {
                        message_id: message_id.to_owned(),
                        part_id: part_id.to_owned(),
                        error,
                        recovery_action: action.to_owned(),
                    },
                ),
            );
        } else {
            then_do(
                &mut fx,
                Effect::Emit(
                    AgentStreamEvent::Error {
                        message: error.message,
                        code: None,
                        kind: Some(error.kind),
                        metadata: error.metadata,
                        recoverable: Some(error.recoverable),
                    },
                ),
            );
            then_do(&mut fx, Effect::TransitionTo(ConversationStatus::Finished));
        }
        fx
    }

    fn handle_retried(&self, props: &Json) -> (fx: Vec<Effect>)
        ensures
            on_retried(self@, props@).state == self@,
            fx.deep_view() == on_retried(self@, props@).effects,
    {
        let mut fx = no_effects();
        let null = Json::Null;
        let error = match props.get("error") {
            Some(e) => e,
            None => &null,
        };
        let message_id = str_or(
            either_of_two_str(props, "messageID", "messageId", error, "messageID", "messageId"),
            "",
        );
        let part_id = str_or(
            either_of_two_str(props, "partID", "partId", error, "partID", "partId"),
            "",
        );
        if message_id.is_empty() || part_id.is_empty() {
            return fx;
        }
        let reason_value = match props.get("reason") {
            Some(r) => Some(r),
            None => get_either(error, "reason", "type"),
        };
        let reason_text = match reason_value {
            Some(r) => r.as_str(),
            None => None,
        };
        let attempt: u64 = match get_u64(props, "attempt") {
            Some(n) => n,
            None => 1,
        };
        then_do(
            &mut fx,
            Effect::Emit(
                AgentStreamEvent::Retry {
                    message_id: message_id.to_owned(),
                    part_id: part_id.to_owned(),
                    attempt,
                    reason: retry_reason(reason_text),
                    retry_after: get_either_u64(props, "retryAfter", "retry_after"),
                    provider_hint: own_opt(
                        either_of_two_str(
                            props,
                            "providerHint",
                            "provider_hint",
                            error,
                            "providerID",
                            "providerId",
                        ),
                    ),
                },
            ),
        );
        fx
    }

    fn handle_model_switched(&mut self, props: &Json) -> (fx: Vec<Effect>)
        ensures
            final(self)@ == on_model_switched(old(self)@, props@).state,
            fx.deep_view() == on_model_switched(old(self)@, props@).effects,
    {
        let provider = str_or(get_nested_str(props, "model", "providerID"), "opencode-go");
        let model = str_or(get_nested_str(props, "model", "id"), "");
        let variant = str_or(get_nested_str(props, "model", "variant"), "default");
        self.desired_model = Some(make_model(model, provider, variant));
        let label = cat3(provider, "/", model);
        let info = Obj::new().put_str("current_model_id", model).put_str(
            "current_model_label",
            label.as_str(),
        ).build();
        let mut fx = no_effects();
        then_do(&mut fx, Effect::Emit(AgentStreamEvent::AcpModelInfo(info)));
        fx
    }

    fn handle_agent_switched(&mut self, props: &Json) -> (fx: Vec<Effect>)
        ensures
            final(self)@ == on_agent_switched(old(self)@, props@).state,
            fx.deep_view() == on_agent_switched(old(self)@, props@).effects,
    {
        let agent = str_or(props.get_str("agent"), "build");
        self.desired_agent = Some(agent.to_owned());
        let mut fx = no_effects();
        then_do(&mut fx, tell_mode(agent));
        fx
    }

    fn handle_part_delta(&mut self, props: &Json)
        ensures
            final(self)@ == on_part_delta(old(self)@, props@).state,
            on_part_delta(old(self)@, props@).effects == Seq::<EffectV>::empty(),
    {
        let field = match props.get_str("field") {
            Some(f) => f,
            None => {
                return;
            },
        };
        let delta = match props.get_str("delta") {
            Some(d) => d,
            None => {
                return;
            },
        };
        if !str_eq(field, "text") {
            return;
        }
        let message = str_or(props.get_str("messageID"), "");
        let part = str_or(props.get_str("partID"), "");
        let reasoning = set_has(&self.reasoning_parts, part);
        push_delta(&mut self.pending_deltas, message, part, delta, reasoning);
    }

    fn tick_subagent_progress(&mut self, g: &Gate, out: &Outside, fx: &mut Vec<Effect>)
        ensures
            final(self)@ == child_tick(old(self)@, g@, out@).state,
            final(fx).deep_view() == old(fx).deep_view() + child_tick(old(self)@, g@, out@).effects,
    {
        let ghost before = fx.deep_view();
        assert(before + Seq::<EffectV>::empty() =~= before);
        match (&g.session_id, &g.parent) {
            (Some(child), Some(parent)) => {
                let last: i64 = match map_get(&self.last_subtask_progress_ms, child.as_str()) {
                    Some(t) => t,
                    None => 0,
                };
                if g.is_child && out.child_changed && elapsed(out.now, last) >= PROGRESS_CADENCE_MS {
                    map_put(&mut self.last_subtask_progress_ms, child.as_str(), out.now);
                    then_do(
                        fx,
                        Effect::ReportChildProgress {
                            parent_id: parent.clone(),
                            child_id: child.clone(),
                        },
                    );
                    assert(fx.deep_view() =~= before + child_tick(old(self)@, g@, out@).effects);
                }
            },
            _ => {},
        }
    }

    fn handle_tool_part(&mut self, g: &Gate, out: &Outside, fx: &mut Vec<Effect>)
        ensures
            final(self)@ == tool_part(old(self)@, g@, out@).state,
            final(fx).deep_view() == old(fx).deep_view() + tool_part(old(self)@, g@, out@).effects,
    {
        let ghost before = fx.deep_view();
        match &out.tool_call {
            Some(call) => {
                let first = set_add(&mut self.opencode_tool_call_ids, call.tool_call_id.as_str());
                then_do(
                    fx,
                    Effect::Emit(
                        AgentStreamEvent::AcpToolCall {
                            tool_call_id: call.tool_call_id.clone(),
                            first,
                            update: call.update.copy(),
                        },
                    ),
                );
                self.tick_subagent_progress(g, out, fx);
                assert(fx.deep_view() =~= before + tool_part(old(self)@, g@, out@).effects);
            },
            None => {
                assert(before + Seq::<EffectV>::empty() =~= before);
            },
        }
    }

    fn handle_part_updated(&mut self, props: &Json, g: &Gate, out: &Outside) -> (fx: Vec<Effect>)
        ensures
            final(self)@ == on_part_updated(old(self)@, props@, g@, out@).state,
            fx.deep_view() == on_part_updated(old(self)@, props@, g@, out@).effects,
    {
        let mut fx = no_effects();
        let part = match props.get("part") {
            Some(p) => p,
            None => {
                return fx;
            },
        };
        match part.get_str("id") {
            Some(id) => {
                flush_part(&mut self.pending_deltas, id, &mut fx);
            },
            None => {},
        }
        let ghost f = flushed(old(self)@, part@);
        assert(fx.deep_view() =~= f.effects);
        let (reasoning, tool) = match part.get_str("type") {
            Some(t) => (str_eq(t, "reasoning"), str_eq(t, "tool")),
            None => (false, false),
        };
        proof {
            reveal_strlit("reasoning");
            reveal_strlit("tool");
            assert("reasoning"@.len() != "tool"@.len());
        }
        if reasoning {
            match part.get_str("id") {
                Some(id) => {
                    let _ = set_add(&mut self.reasoning_parts, id);
                },
                None => {},
            }
        } else if tool {
            self.handle_tool_part(g, out, &mut fx);
        }
        fx
    }

    fn note_model_info(&mut self, info: &Json, fx: &mut Vec<Effect>)
        ensures
            final(self)@ == model_info(old(self)@, info@).state,
            final(fx).deep_view() == old(fx).deep_view() + model_info(old(self)@, info@).effects,
    {
        let ghost before = fx.deep_view();
        assert(before + Seq::<EffectV>::empty() =~= before);
        match (info.get_str("id"), info.get_str("modelID"), info.get_str("providerID")) {
            (Some(message), Some(model), Some(provider)) => {
                if set_add(&mut self.model_info_emitted, message) {
                    then_do(
                        fx,
                        Effect::Emit(
                            AgentStreamEvent::AssistantModelInfo {
                                message_id: message.to_owned(),
                                provider_id: provider.to_owned(),
                                model_id: model.to_owned(),
                            },
                        ),
                    );
                    assert(fx.deep_view() =~= before + model_info(old(self)@, info@).effects);
                }
            },
            _ => {},
        }
    }

    /// The context window of a model, from the cache, which the server's report
    /// fills where it is empty.
    pub fn context_limit_for(&mut self, model_id: &str, fetched: &Vec<(String, u64)>) -> (r: u64)
        ensures
            r == limit_in(
                match old(self)@.model_context_limits {
                    Some(l) => l,
                    None => fetched.deep_view(),
                },
                model_id@,
            ),
            final(self)@ == (RemoteStateV {
                model_context_limits: match old(self)@.model_context_limits {
                    Some(l) => Some(l),
                    None => Some(fetched.deep_view()),
                },
                ..old(self)@
            }),
    {
        match &self.model_context_limits {
            Some(l) => {
                return find_limit(l, model_id);
            },
            None => {},
        }
        self.model_context_limits = Some(copy_limits(fetched));
        find_limit(fetched, model_id)
    }

    fn note_context_usage(&mut self, info: &Json, out: &Outside, fx: &mut Vec<Effect>)
        ensures
            final(self)@ == context_usage(old(self)@, info@, out@).state,
            final(fx).deep_view() == old(fx).deep_view() + context_usage(
                old(self)@,
                info@,
                out@,
            ).effects,
    {
        let ghost before = fx.deep_view();
        assert(before + Seq::<EffectV>::empty() =~= before);
        let tokens = match info.get("tokens") {
            Some(t) => t,
            None => {
                return;
            },
        };
        let used: u64 = match checked_tokens_used(tokens) {
            Some(n) => n,
            None => {
                return;
            },
        };
        if used == 0 {
            return;
        }
        let size: u64 = match info.get_str("modelID") {
            Some(model) => self.context_limit_for(model, &out.context_limits),
            None => 0,
        };
        let usage = Obj::new().put("used", Json::number(used)).put("size", Json::number(size)).build();
        then_do(fx, Effect::Emit(AgentStreamEvent::AcpContextUsage(usage)));
        assert(fx.deep_view() =~= before + context_usage(old(self)@, info@, out@).effects);
    }

    fn handle_message_updated(&mut self, props: &Json, g: &Gate, out: &Outside) -> (fx: Vec<Effect>)
        ensures
            final(self)@ == on_message_updated(old(self)@, props@, g@, out@).state,
            fx.deep_view() == on_message_updated(old(self)@, props@, g@, out@).effects,
    {
        let mut fx = no_effects();
        let info = match props.get("info") {
            Some(i) => i,
            None => {
                return fx;
            },
        };
        let is_assistant = match info.get_str("role") {
            Some(r) => str_eq(r, "assistant"),
            None => false,
        };
        if !is_assistant {
            return fx;
        }
        let ghost a = model_info(self@, info@);
        self.note_model_info(info, &mut fx);
        assert(fx.deep_view() =~= a.effects);
        let stopped = match info.get_str("finish") {
            Some(f) => str_eq(f, "stop"),
            None => false,
        };
        if stopped && !g.is_child {
            let ghost b = context_usage(a.state, info@, out@);
            self.note_context_usage(info, out, &mut fx);
            assert(fx.deep_view() == a.effects + b.effects);
            self.emit_root_turn_finish(&g.session_id, &mut fx);
        }
        fx
    }

    fn handle_todo(&self, props: &Json, g: &Gate) -> (fx: Vec<Effect>)
        ensures
            on_todo(self@, props@, g@).state == self@,
            fx.deep_view() == on_todo(self@, props@, g@).effects,
    {
        let mut fx = no_effects();
        match extract_opencode_todo_entries(props) {
            Some(entries) => {
                trees_are_deep_view(&entries);
                then_do(
                    &mut fx,
                    Effect::Emit(
                        AgentStreamEvent::Plan { session_id: copy_opt(&g.session_id), entries },
                    ),
                );
            },
            None => {},
        }
        fx
    }

    fn is_already_allowed(&self, metadata: &Json, session: &Option<String>) -> (r: bool)
        ensures
            r == already_allowed(self@, metadata@, session.deep_view()),
    {
        let path_hit = match extract_permission_target_path(metadata) {
            Some(t) => path_is_under_blessed(t.as_str(), &self.auto_accept_paths),
            None => false,
        };
        let session_hit = match session {
            Some(sid) => session_or_ancestor_blessed(
                sid.as_str(),
                &self.auto_accept_sessions,
                &self.child_sessions,
            ),
            None => false,
        };
        path_hit || session_hit
    }

    fn handle_permission_asked(&mut self, props: &Json, g: &Gate, now: i64, opencode: bool) -> (fx: Vec<
        Effect,
    >)
        ensures
            final(self)@ == on_permission_asked(old(self)@, props@, g@, now, opencode).state,
            fx.deep_view() == on_permission_asked(old(self)@, props@, g@, now, opencode).effects,
    {
        let mut fx = no_effects();
        let id = match props.get_str("id") {
            Some(id) => id,
            None => {
                return fx;
            },
        };
        let empty = Obj::new().build();
        let metadata = match props.get("metadata") {
            Some(m) => m,
            None => &empty,
        };
        if self.is_already_allowed(metadata, &g.session_id) {
            map_put(&mut self.recently_replied_permissions, id, now);
            if opencode {
                then_do(
                    &mut fx,
                    Effect::ReplyPermission {
                        request_id: id.to_owned(),
                        session_id: copy_opt(&g.session_id),
                        reply: "once".to_owned(),
                        by_user: false,
                    },
                );
            }
            return fx;
        }
        let permission = str_or(props.get_str("permission"), "");
        let patterns = get_texts(props, "patterns");
        let target = extract_permission_target_path(metadata);
        let title = if permission.is_empty() {
            "OpenCode permission request".to_owned()
        } else {
            cat("OpenCode wants to: ", permission)
        };
        let card = Confirmation {
            id: id.to_owned(),
            call_id: id.to_owned(),
            title: Some(title),
            action: Some(permission.to_owned()),
            description: describe_permission(metadata, &patterns),
            command_type: Some(permission.to_owned()),
            options: choose_permission(&target, g),
            session_id: copy_opt(&g.session_id),
            parent_session_id: copy_opt(&g.parent),
        };
        assert(card@ == permission_card(id@, props@, g@));
        let shown = card.copy();
        enqueue(&mut self.confirmations, card);
        then_do(&mut fx, Effect::Emit(AgentStreamEvent::AcpPermission(shown)));
        fx
    }

    fn handle_tool_input(&self, event_type: &str, props: &Json, g: &Gate) -> (fx: Vec<Effect>)
        ensures
            on_tool_input(self@, event_type@, props@, g@).state == self@,
            fx.deep_view() == on_tool_input(self@, event_type@, props@, g@).effects,
    {
        let mut fx = no_effects();
        match &g.session_id {
            Some(sid) => {
                match translate_tool_input(event_type, props, sid.as_str(), &g.parent) {
                    Some(d) => {
                        then_do(&mut fx, Effect::Emit(AgentStreamEvent::ToolInput(d)));
                    },
                    None => {},
                }
            },
            None => {},
        }
        fx
    }

    fn handle_tool_progress(&self, props: &Json, g: &Gate, out: &Outside) -> (fx: Vec<Effect>)
        ensures
            on_tool_progress(self@, props@, g@, out@).state == self@,
            fx.deep_view() == on_tool_progress(self@, props@, g@, out@).effects,
    {
        let mut fx = no_effects();
        match &g.session_id {
            Some(sid) => {
                match translate_tool_progress(
                    props,
                    &out.progress,
                    sid.as_str(),
                    &g.parent,
                    out.now,
                ) {
                    Some(d) => {
                        then_do(&mut fx, Effect::Emit(AgentStreamEvent::ToolProgress(d)));
                    },
                    None => {},
                }
            },
            None => {},
        }
        fx
    }

    fn handle_question_asked(&mut self, props: &Json) -> (fx: Vec<Effect>)
        ensures
            final(self)@ == on_question_asked(old(self)@, props@).state,
            fx.deep_view() == on_question_asked(old(self)@, props@).effects,
    {
        let mut fx = no_effects();
        let req = match parse_question_request(props) {
            Some(r) => r,
            None => {
                return fx;
            },
        };
        if map_has(&self.recently_replied_questions, req.request_id.as_str()) || find_request(
            &self.pending_questions,
            req.request_id.as_str(),
        ).is_some() {
            return fx;
        }
        let cards = build_question_confirmations(&req);
        let ghost cv = cards.deep_view();
        let ghost pv = self@.pending_questions;
        let ghost qv = self@.confirmations;
        self.pending_questions.push(PendingQuestion::new(&req));
        assert(self@.pending_questions =~= pv.push(unanswered(req@)));
        let ghost mid = self@;
        let mut i: usize = 0;
        proof {
            assert(cv.take(0) =~= Seq::<ConfirmationV>::empty());
            assert(fx.deep_view() =~= card_effects(cv.take(0)));
        }
        while i < cards.len()
            invariant
                i <= cards.len(),
                cv == cards.deep_view(),
                self@ == (RemoteStateV {
                    confirmations: queued_all(qv, cv.take(i as int)),
                    ..mid
                }),
                fx.deep_view() == card_effects(cv.take(i as int)),
            decreases cards.len() - i,
        {
            proof {
                assert(cv.take(i as int + 1).drop_last() =~= cv.take(i as int));
                assert(cv.take(i as int + 1).last() == cards@[i as int]@);
                assert(card_effects(cv.take(i as int + 1)) =~= card_effects(cv.take(i as int)).push(
                    EffectV::Emit(AgentStreamEventV::AcpPermission(cv[i as int])),
                ));
            }
            enqueue(&mut self.confirmations, cards[i].copy());
            then_do(&mut fx, Effect::Emit(AgentStreamEvent::AcpPermission(cards[i].copy())));
            i += 1;
        }
        assert(cv.take(cv.len() as int) =~= cv);
        fx
    }

    /// Takes a closed question out and remembers that it was answered.
    pub fn close_question(&mut self, id: &str, now: i64)
        ensures
            final(self)@ == question_closed(old(self)@, id@, now),
    {
        drop_pending(&mut self.pending_questions, id);
        drop_request(&mut self.confirmations, id);
        map_put(&mut self.recently_replied_questions, id, now);
        prune_replied_map(&mut self.recently_replied_questions, QUESTION_DEDUP_CAP);
    }

    fn handle_question_closed(&mut self, props: &Json, now: i64)
        ensures
            final(self)@ == on_question_closed(old(self)@, props@, now).state,
            on_question_closed(old(self)@, props@, now).effects == Seq::<EffectV>::empty(),
    {
        match get_text_under(props, "requestID", "id") {
            Some(id) => {
                self.close_question(id, now);
            },
            None => {},
        }
    }

    fn handle_permission_replied(&mut self, props: &Json, now: i64)
        ensures
            final(self)@ == on_permission_replied(old(self)@, props@, now).state,
            on_permission_replied(old(self)@, props@, now).effects == Seq::<EffectV>::empty(),
    {
        match get_text_under(props, "requestID", "id") {
            Some(id) => {
                drop_call(&mut self.confirmations, id);
                map_put(&mut self.recently_replied_permissions, id, now);
            },
            None => {},
        }
    }

    fn handle_compacted(&self, props: &Json) -> (fx: Vec<Effect>)
        ensures
            on_compacted(self@, props@).state == self@,
            fx.deep_view() == on_compacted(self@, props@).effects,
    {
        let mut fx = no_effects();
        let tokens_reclaimed: u64 = match get_u64(props, "tokensReclaimed") {
            Some(n) => n,
            None => 0,
        };
        then_do(
            &mut fx,
            Effect::Emit(
                AgentStreamEvent::OpencodeSessionCompacted {
                    summary: str_or(props.get_str("summary"), "").to_owned(),
                    tokens_reclaimed,
                    original_start_message_id: str_or(
                        get_nested_str(props, "originalRange", "startMessageId"),
                        "",
                    ).to_owned(),
                    original_end_message_id: str_or(
                        get_nested_str(props, "originalRange", "endMessageId"),
                        "",
                    ).to_owned(),
                },
            ),
        );
        fx
    }

    fn handle_other(&self, event_type: &str, props: &Json) -> (fx: Vec<Effect>)
        ensures
            on_other(self@, event_type@, props@).state == self@,
            fx.deep_view() == on_other(self@, event_type@, props@).effects,
    {
        let mut fx = no_effects();
        if !is_known_ignored_event(event_type) {
            then_do(
                &mut fx,
                Effect::NoteUnhandled {
                    event_type: event_type.to_owned(),
                    fingerprint: event_property_fingerprint(props),
                },
            );
        }
        fx
    }

    fn handle_passed(
        &mut self,
        event_type: &str,
        props: &Json,
        g: &Gate,
        out: &Outside,
        opencode: bool,
    ) -> (fx: Vec<Effect>)
        ensures
            final(self)@ == on_event(old(self)@, event_type@, props@, g@, out@, opencode).state,
            fx.deep_view() == on_event(
                old(self)@,
                event_type@,
                props@,
                g@,
                out@,
                opencode,
            ).effects,
    {
        match event_kind(event_type) {
            EventKind::SessionStatus => self.handle_status(props, g),
            EventKind::SessionIdle => self.handle_idle(props, g, out.now),
            EventKind::SessionError => self.handle_error(props, g),
            EventKind::Retried => self.handle_retried(props),
            EventKind::ModelSwitched => self.handle_model_switched(props),
            EventKind::AgentSwitched => self.handle_agent_switched(props),
            EventKind::PartDelta => {
                self.handle_part_delta(props);
                no_effects()
            },
            EventKind::PartUpdated => self.handle_part_updated(props, g, out),
            EventKind::MessageUpdated => self.handle_message_updated(props, g, out),
            EventKind::TodoUpdated => self.handle_todo(props, g),
            EventKind::PermissionAsked => self.handle_permission_asked(props, g, out.now, opencode),
            EventKind::ToolInput => self.handle_tool_input(event_type, props, g),
            EventKind::ToolProgress => self.handle_tool_progress(props, g, out),
            EventKind::QuestionAsked => self.handle_question_asked(props),
            EventKind::QuestionClosed => {
                self.handle_question_closed(props, out.now);
                no_effects()
            },
            EventKind::CatalogChanged => {
                self.model_context_limits = None;
                no_effects()
            },
            EventKind::PermissionReplied => {
                self.handle_permission_replied(props, out.now);
                no_effects()
            },
            EventKind::InstallationUpdated => no_effects(),
            EventKind::SkillUpdated => {
                self.opencode_skills = None;
                no_effects()
            },
            EventKind::SessionCompacted => self.handle_compacted(props),
            EventKind::Other => self.handle_other(event_type, props),
        }
    }

    /// Deals with an event that has been read.
    pub fn handle_event(&mut self, parsed: Json, out: &Outside, opencode: bool) -> (fx: Vec<Effect>)
        ensures
            final(self)@ == on_raw(old(self)@, parsed@, out@, opencode).state,
            fx.deep_view() == on_raw(old(self)@, parsed@, out@, opencode).effects,
    {
        let raw = unwrap_event(parsed);
        let event_type = match raw.get_str("type") {
            Some(t) => t,
            None => {
                return no_effects();
            },
        };
        let props = match raw.get("properties") {
            Some(p) => p,
            None => {
                return no_effects();
            },
        };
        match self.pass_gate(event_type, props, out) {
            GateResult::Drop => no_effects(),
            GateResult::Registered { child, parent } => {
                put_pair(&mut self.child_sessions, child.as_str(), parent.as_str());
                let mut fx = no_effects();
                then_do(&mut fx, Effect::StartChild { parent_id: parent, child_id: child });
                fx
            },
            GateResult::Pass(g) => self.handle_passed(event_type, props, &g, out, opencode),
        }
    }

    /// Deals with the text of an event.
    pub fn handle_opencode_sse_event(&mut self, data: &str, out: &Outside, opencode: bool) -> (fx: Vec<
        Effect,
    >)
        ensures
            final(self)@ == on_data(old(self)@, data@, out@, opencode).state,
            fx.deep_view() == on_data(old(self)@, data@, out@, opencode).effects,
    {
        match Json::from_text(data) {
            Some(parsed) => self.handle_event(parsed, out, opencode),
            None => no_effects(),
        }
    }

    /// Whether the windows of the models have to be known for an event.
    pub fn limits_wanted(&self, data: &str) -> (r: bool)
        ensures
            r == (parsed_text(data@) matches Some(parsed) && wants_limits(self@, parsed)),
    {
        if self.model_context_limits.is_some() {
            return false;
        }
        let raw = match Json::from_text(data) {
            Some(parsed) => unwrap_event(parsed),
            None => {
                return false;
            },
        };
        match (raw.get_str("type"), raw.get("properties")) {
            (Some(t), Some(props)) => {
                let of_messages = match event_kind(t) {
                    EventKind::MessageUpdated => true,
                    _ => false,
                };
                let of_root = match (props.get_str("sessionID"), &self.opencode_session_id) {
                    (None, _) => true,
                    (Some(id), Some(own)) => str_eq(id, own.as_str()),
                    (Some(_), None) => false,
                };
                match props.get("info") {
                    Some(info) => of_messages && of_root && window_told(info),
                    None => false,
                }
            },
            _ => false,
        }
    }

    /// Tells all pending text, as the stream's frame timer asks for.
    pub fn flush_deltas(&mut self) -> (fx: Vec<Effect>)
        ensures
            final(self)@ == (RemoteStateV { pending_deltas: Seq::empty(), ..old(self)@ }),
            fx.deep_view() == delta_effects(old(self)@.pending_deltas),
    {
        let mut fx = no_effects();
        flush_all(&mut self.pending_deltas, &mut fx);
        assert(fx.deep_view() =~= delta_effects(old(self)@.pending_deltas));
        fx
    }
}

fn window_told(info: &Json) -> (r: bool)
    ensures
        r == tells_window(info@),
{
    let of_assistant = match info.get_str("role") {
        Some(role) => str_eq(role, "assistant"),
        None => false,
    };
    let stopped = match info.get_str("finish") {
        Some(f) => str_eq(f, "stop"),
        None => false,
    };
    let counted = match info.get("tokens") {
        Some(tokens) => match checked_tokens_used(tokens) {
            Some(used) => used > 0,
            None => false,
        },
        None => false,
    };
    of_assistant && stopped && counted && info.get_str("modelID").is_some()
}

/// A model as it is remembered.
pub fn make_model(model: &str, provider: &str, variant: &str) -> (r: Json)
    ensures
        r@ == model_json(model@, provider@, variant@),
{
    Obj::new().put_str("modelID", model).put_str("providerID", provider).put_str(
        "variant",
        variant,
    ).build()
}

/// The effect that tells a mode.
pub fn tell_mode(mode: &str) -> (r: Effect)
    ensures
        r@ == mode_effect(mode@),
{
    Effect::Emit(AgentStreamEvent::AcpModeInfo(Obj::new().put_str("mode", mode).build()))
}

/// A copy of a map of windows.
fn copy_limits(m: &Vec<(String, u64)>) -> (r: Vec<(String, u64)>)
    ensures
        r.deep_view() == m.deep_view(),
{
    let mut out: Vec<(String, u64)> = Vec::new();
    let mut i: usize = 0;
    while i < m.len()
        invariant
            i <= m.len(),
            out.len() == i,
            forall|k: int| 0 <= k < i ==> (#[trigger] out@[k]).deep_view() == m@[k].deep_view(),
        decreases m.len() - i,
    {
        out.push((m[i].0.clone(), m[i].1));
        i += 1;
    }
    assert(out.deep_view() =~= m.deep_view());
    out
}

} // verus!
