//! What holds of words: how they are compared, cut and trimmed, and what the words of a
//! server are taken for.
use vstd::prelude::*;

use crate::collections::{filter_members, fresh};
use crate::descriptors::tools_v;
use crate::events::{
    error_class, error_metadata_of, idle_reason_of, retry_reason_of, typed_error_of,
};
use crate::json::{fields, lemma_lookup_push, lookup, JsonV, NumberV};
use crate::log_forwarder::{unquoted, without_prefix_char};
use crate::order::text_leq;
use crate::shell::{byte_cut, byte_len, fitting};
use crate::text::{is_space, occurs, trimmed, trimmed_end, trimmed_start, without_suffix_char};
use crate::tool_laws::lemma_three;

verus! {

// ---- Comparing, cutting and trimming ----

/// Texts are compared by the first characters in which they differ; a text comes after
/// what it begins with.
pub proof fn texts_compare_by_their_first_difference(
    common: Seq<char>,
    a: char,
    b: char,
    rest: Seq<char>,
    other: Seq<char>,
)
    requires
        a < b,
    ensures
        text_leq(common + seq![a] + rest, common + seq![b] + other),
        !text_leq(common + seq![b] + other, common + seq![a] + rest),
        text_leq(common, common + seq![a] + rest),
        !text_leq(common + seq![a] + rest, common),
    decreases common.len(),
{
    let x = common + seq![a] + rest;
    let y = common + seq![b] + other;
    if common.len() > 0 {
        let c = common.drop_first();
        assert(x.drop_first() =~= c + seq![a] + rest);
        assert(y.drop_first() =~= c + seq![b] + other);
        assert(x[0] == common[0] && y[0] == common[0]);
        texts_compare_by_their_first_difference(c, a, b, rest, other);
    } else {
        assert(x[0] == a && y[0] == b);
    }
}

/// A trimmed text is what stands between the white space at the ends, and no more is
/// taken off.
pub proof fn trimming_takes_white_space_off(before: Seq<char>, s: Seq<char>, after: Seq<char>)
    requires
        forall|i: int| 0 <= i < before.len() ==> is_space(#[trigger] before[i]),
        forall|i: int| 0 <= i < after.len() ==> is_space(#[trigger] after[i]),
        s.len() > 0,
        !is_space(s.first()),
        !is_space(s.last()),
    ensures
        trimmed(before + s + after) == s,
        is_space(' ') && is_space('\n') && is_space('\t') && is_space('\r'),
        !is_space('a') && !is_space('/') && !is_space('0') && !is_space('.'),
{
    assert(before + s + after =~= before + (s + after));
    lemma_trim_start(before, s + after);
    lemma_trim_end(s, after);
}

proof fn lemma_trim_start(before: Seq<char>, s: Seq<char>)
    requires
        forall|i: int| 0 <= i < before.len() ==> is_space(#[trigger] before[i]),
        s.len() > 0,
        !is_space(s.first()),
    ensures
        trimmed_start(before + s) == s,
    decreases before.len(),
{
    if before.len() > 0 {
        let d = before.drop_first();
        assert((before + s).drop_first() =~= d + s);
        assert((before + s).first() == before[0]);
        assert forall|i: int| 0 <= i < d.len() implies is_space(#[trigger] d[i]) by {
            assert(d[i] == before[i + 1]);
        }
        lemma_trim_start(d, s);
    } else {
        assert(before + s =~= s);
    }
}

proof fn lemma_trim_end(s: Seq<char>, after: Seq<char>)
    requires
        forall|i: int| 0 <= i < after.len() ==> is_space(#[trigger] after[i]),
        s.len() > 0,
        !is_space(s.last()),
    ensures
        trimmed_end(s + after) == s,
    decreases after.len(),
{
    if after.len() > 0 {
        let d = after.drop_last();
        assert((s + after).drop_last() =~= s + d);
        assert((s + after).last() == after[after.len() - 1]);
        assert forall|i: int| 0 <= i < d.len() implies is_space(#[trigger] d[i]) by {
            assert(d[i] == after[i]);
        }
        lemma_trim_end(s, d);
    } else {
        assert(s + after =~= s);
    }
}

/// Of a text as much is kept as fits: all of it where it does, else so much that one
/// character more would not.
pub proof fn as_much_is_kept_as_fits(s: Seq<char>, max: nat)
    ensures
        byte_len(s) <= max ==> byte_cut(s, max) == s,
        byte_len(byte_cut(s, max)) <= max,
        byte_cut(s, max).len() < s.len() ==> byte_len(s.take(byte_cut(s, max).len() as int + 1)) > max,
        byte_len(Seq::empty()) == 0,
        byte_len(seq!['a']) == 1,
        byte_len(seq!['\u{e9}']) == 2,
        byte_len(seq!['\u{20ac}']) == 3,
        byte_len(seq!['\u{1f600}']) == 4,
{
    reveal_with_fuel(byte_len, 2);
    crate::shell::cut_text_fits(s, max);
    lemma_fits(s, max, 0);
    assert(s.take(s.len() as int) =~= s);
    if byte_len(s) <= max && byte_cut(s, max).len() < s.len() {
        lemma_starts_are_shorter(s, byte_cut(s, max).len() as int + 1);
    }
    assert(seq!['a'].drop_last() =~= Seq::<char>::empty());
    assert(seq!['\u{e9}'].drop_last() =~= Seq::<char>::empty());
    assert(seq!['\u{20ac}'].drop_last() =~= Seq::<char>::empty());
    assert(seq!['\u{1f600}'].drop_last() =~= Seq::<char>::empty());
}

proof fn lemma_fits(s: Seq<char>, max: nat, n: nat)
    requires
        n <= s.len(),
    ensures
        n <= fitting(s, max, n) <= s.len(),
        fitting(s, max, n) < s.len() ==> byte_len(s.take(fitting(s, max, n) as int + 1)) > max,
    decreases s.len() - n,
{
    if !(n >= s.len() || byte_len(s.take(n as int + 1)) > max) {
        lemma_fits(s, max, n + 1);
    }
}

proof fn lemma_starts_are_shorter(s: Seq<char>, n: int)
    requires
        0 <= n <= s.len(),
    ensures
        byte_len(s.take(n)) <= byte_len(s),
    decreases s.len() - n,
{
    if n < s.len() {
        lemma_starts_are_shorter(s, n + 1);
        assert(s.take(n + 1).drop_last() =~= s.take(n));
    } else {
        assert(s.take(n) =~= s);
    }
}

/// The quotes around a text are taken off, and nothing else of it.
pub proof fn quotes_are_taken_off(s: Seq<char>)
    requires
        s.len() > 0,
        s.first() != '"',
        s.last() != '"',
    ensures
        unquoted(seq!['"'] + s + seq!['"']) == s,
        unquoted(s) == s,
{
    reveal_with_fuel(without_prefix_char, 2);
    reveal_with_fuel(without_suffix_char, 2);
    let q = seq!['"'] + s + seq!['"'];
    assert(q.drop_first() =~= s + seq!['"']);
    assert((s + seq!['"']).drop_last() =~= s);
    assert((s + seq!['"'])[0] == s[0]);
}

/// Of what is remembered, the entries whose time has not passed stay, and no others.
pub proof fn memories_fade(m: Seq<(Seq<char>, i64)>, now: i64, ttl: int, e: (Seq<char>, i64))
    requires
        0 <= e.1 <= now,
    ensures
        fresh(m, now, ttl).contains(e) <==> m.contains(e) && now - e.1 < ttl,
{
    filter_members(m, crate::collections::younger(now, ttl));
}

// ---- What words are taken for ----

/// An error that speaks of the context is one of the context, whatever it is called; else
/// it is what its name says; else what its words say of the credentials or of an end.
pub proof fn errors_are_what_their_words_say(name: Seq<char>, all: Seq<char>, low: Seq<char>)
    ensures
        occurs(all, "context"@) || occurs(all, "window"@) ==> error_class(name, all, low) == "context_overflow"@,
        occurs(all, "token"@) && occurs(all, "limit"@) ==> error_class(name, all, low) == "context_overflow"@,
        !occurs(all, "context"@) && !occurs(all, "window"@) && !occurs(all, "maximum context"@) && !(occurs(
            all,
            "token"@,
        ) && occurs(all, "limit"@)) ==> {
            &&& error_class("ProviderAuthError"@, all, low) == "provider_auth"@
            &&& error_class("ContextOverflowError"@, all, low) == "context_overflow"@
            &&& error_class("MessageOutputLengthError"@, all, low) == "output_length"@
            &&& error_class("MessageAbortedError"@, all, low) == "aborted"@
            &&& error_class("StructuredOutputError"@, all, low) == "structured_output"@
            &&& error_class("APIError"@, all, low) == "api"@
            &&& occurs(low, "auth"@) ==> error_class(Seq::empty(), all, low) == "provider_auth"@
            &&& !occurs(low, "auth"@) && occurs(low, "abort"@) ==> error_class(Seq::empty(), all, low) == "aborted"@
            &&& !occurs(low, "auth"@) && !occurs(low, "abort"@) ==> error_class(Seq::empty(), all, low) == "unknown"@
        },
{
    reveal_strlit("ProviderAuthError");
    reveal_strlit("ContextOverflowError");
    reveal_strlit("MessageOutputLengthError");
    reveal_strlit("MessageAbortedError");
    reveal_strlit("StructuredOutputError");
    reveal_strlit("APIError");
    assert("ProviderAuthError"@.len() == 17 && "ContextOverflowError"@.len() == 20
        && "MessageOutputLengthError"@.len() == 24 && "MessageAbortedError"@.len() == 19
        && "StructuredOutputError"@.len() == 21 && "APIError"@.len() == 8);
}

/// The class of an error is told by its name, its message and its body, without regard to
/// case.
pub proof fn errors_are_classed(props: JsonV, error: JsonV, data: JsonV, name: Seq<char>, words: Seq<char>, body: Seq<char>)
    requires
        props.field("error"@) == Some(error),
        error.field("name"@) == Some(JsonV::Str(name)),
        error.field("data"@) == Some(data),
        data.field_text("message"@) == Some(words),
        data.field_text("body"@) == Some(body),
    ensures
        typed_error_of(props).kind == error_class(
            name,
            crate::text::lowercased(words + " "@ + body),
            crate::text::lowercased(words),
        ),
        props.field("recoverable"@) == Some(JsonV::Bool(true)) ==> typed_error_of(props).recoverable,
        props.field("recoverable"@) == Some(JsonV::Bool(false)) ==> !typed_error_of(props).recoverable,
        props.field("recoverable"@) is None && data.field("recoverable"@) == Some(JsonV::Bool(true))
            ==> typed_error_of(props).recoverable,
        props.field("recoverable"@) is None && data.field("recoverable"@) is None ==> !typed_error_of(
            props,
        ).recoverable,
{
}

/// What is told of an error besides its words is what the server said: its provider, how
/// much was used of what, and the status.
pub proof fn errors_tell_their_details(data: JsonV, provider: Seq<char>, used: u64, limit: u64)
    requires
        data.field("providerID"@) == Some(JsonV::Str(provider)),
        data.field("used"@) == Some(JsonV::Number(NumberV::Unsigned(used))),
        data.field("limit"@) == Some(JsonV::Number(NumberV::Unsigned(limit))),
        data.field("statusCode"@) is None,
        data.field("status_code"@) is None,
        data.field("body"@) is None,
        data.field("schema"@) is None,
        data.field("schemaName"@) is None,
        data.field("partial"@) is None,
        data.field("partialJson"@) is None,
    ensures
        lookup(error_metadata_of(data), "provider_id"@) == Some(JsonV::Str(provider)),
        lookup(error_metadata_of(data), "used"@) == Some(JsonV::Number(NumberV::Unsigned(used))),
        lookup(error_metadata_of(data), "limit"@) == Some(JsonV::Number(NumberV::Unsigned(limit))),
        lookup(error_metadata_of(data), "status_code"@) is None,
        lookup(error_metadata_of(data), "body"@) is None,
{
    reveal_strlit("provider_id");
    reveal_strlit("used");
    reveal_strlit("limit");
    reveal_strlit("status_code");
    reveal_strlit("body");
    assert("provider_id"@.len() == 11 && "used"@.len() == 4 && "limit"@.len() == 5 && "status_code"@.len() == 11
        && "body"@.len() == 4);
    assert("provider_id"@[0] == 'p' && "status_code"@[0] == 's' && "used"@[0] == 'u' && "body"@[0] == 'b');
    let a = ("provider_id"@, JsonV::Str(provider));
    let b = ("used"@, JsonV::Number(NumberV::Unsigned(used)));
    let c = ("limit"@, JsonV::Number(NumberV::Unsigned(limit)));
    lemma_three(a, b, c);
    assert(error_metadata_of(data) =~= fields().push(a).push(b).push(c));
}

/// The status and the body of an error are told as the server said them.
pub proof fn errors_tell_their_status(data: JsonV, status: u64)
    requires
        data.field("providerID"@) is None,
        data.field("providerId"@) is None,
        data.field("used"@) is None,
        data.field("limit"@) is None,
        data.field("statusCode"@) == Some(JsonV::Number(NumberV::Unsigned(status))),
    ensures
        lookup(error_metadata_of(data), "status_code"@) == Some(JsonV::Number(NumberV::Unsigned(status))),
{
    let a = ("status_code"@, JsonV::Number(NumberV::Unsigned(status)));
    lemma_lookup_push(fields(), a, "status_code"@);
    let o = error_metadata_of(data);
    assert(fields() =~= Seq::<(Seq<char>, JsonV)>::empty());
    assert(o[0] == a);
    reveal_with_fuel(lookup, 1);
}

/// Why a request is tried again: the known reasons stand for themselves, and others for
/// the one that they speak of.
pub proof fn retries_have_their_reasons(raw: Seq<char>)
    ensures
        retry_reason_of(None) == "unknown"@,
        retry_reason_of(Some("rate_limit"@)) == "rate_limit"@,
        retry_reason_of(Some("transient"@)) == "transient"@,
        retry_reason_of(Some("tool_error"@)) == "tool_error"@,
        retry_reason_of(Some("provider_error"@)) == "provider_error"@,
        retry_reason_of(Some("context_overflow"@)) == "context_overflow"@,
        raw != "rate_limit"@ && raw != "transient"@ && raw != "tool_error"@ && raw != "provider_error"@ && raw
            != "context_overflow"@ ==> {
            &&& occurs(raw, "rate"@) || occurs(raw, "limit"@) ==> retry_reason_of(Some(raw)) == "rate_limit"@
            &&& !occurs(raw, "rate"@) && !occurs(raw, "limit"@) ==> {
                &&& occurs(raw, "context"@) ==> retry_reason_of(Some(raw)) == "context_overflow"@
                &&& !occurs(raw, "context"@) && occurs(raw, "tool"@) ==> retry_reason_of(Some(raw)) == "tool_error"@
                &&& !occurs(raw, "context"@) && !occurs(raw, "tool"@) && occurs(raw, "provider"@) ==> retry_reason_of(
                    Some(raw),
                ) == "provider_error"@
                &&& !occurs(raw, "context"@) && !occurs(raw, "tool"@) && !occurs(raw, "provider"@) && occurs(
                    raw,
                    "timeout"@,
                ) ==> retry_reason_of(Some(raw)) == "transient"@
            }
        },
{
}

/// Why a session rests: the known reasons stand for themselves, others for the one that
/// they speak of, and none for a turn that came to its end.
pub proof fn rests_have_their_reasons(props: JsonV, reason: Seq<char>)
    ensures
        props.field_text("reason"@) is None ==> idle_reason_of(props) == "completed"@,
        props.field_text("reason"@) == Some("aborted"@) ==> idle_reason_of(props) == "aborted"@,
        props.field_text("reason"@) == Some("errored"@) ==> idle_reason_of(props) == "errored"@,
        props.field_text("reason"@) == Some("compacted"@) ==> idle_reason_of(props) == "compacted"@,
        props.field_text("reason"@) == Some(reason) && reason != "completed"@ && reason != "errored"@ && reason
            != "compacted"@ && occurs(reason, "abort"@) ==> idle_reason_of(props) == "aborted"@,
        props.field_text("reason"@) == Some(reason) && reason != "completed"@ && reason != "aborted"@ && reason
            != "compacted"@ && !occurs(reason, "abort"@) && occurs(reason, "error"@) ==> idle_reason_of(props)
            == "errored"@,
{
}

// ---- The tools ----

/// What is told of a tool: those that only look say so, those that change the project say
/// that they destroy, and a command may do anything.
pub proof fn tools_say_what_they_may_do(i: int)
    requires
        0 <= i < tools_v().len(),
    ensures
        ({
            let tool = tools_v()[i];
            let a = tool.annotations;
            &&& tools_v().len() == 7
            &&& tool.name == "read_file"@ || tool.name == "list_dir"@ || tool.name == "grep_dir"@ || tool.name
                == "write_file"@ || tool.name == "delete_file"@ || tool.name == "rename"@ || tool.name
                == "run_shell"@
            &&& a.read_only_hint == (tool.name == "read_file"@ || tool.name == "list_dir"@ || tool.name
                == "grep_dir"@)
            &&& a.destructive_hint == !a.read_only_hint
            &&& a.open_world_hint == (tool.name == "run_shell"@)
            &&& a.idempotent_hint == (tool.name != "run_shell"@)
        }),
{
    reveal_strlit("read_file");
    reveal_strlit("list_dir");
    reveal_strlit("grep_dir");
    reveal_strlit("write_file");
    reveal_strlit("delete_file");
    reveal_strlit("rename");
    reveal_strlit("run_shell");
    assert("read_file"@.len() == 9 && "list_dir"@.len() == 8 && "grep_dir"@.len() == 8 && "write_file"@.len() == 10
        && "delete_file"@.len() == 11 && "rename"@.len() == 6 && "run_shell"@.len() == 9);
    assert("read_file"@[1] == 'e' && "run_shell"@[1] == 'u');
}

/// A tool names what it cannot do without.
pub proof fn tools_name_what_they_need(i: int)
    requires
        0 <= i < tools_v().len(),
    ensures
        ({
            let tool = tools_v()[i];
            let needed = tool.input_schema.field("required"@);
            &&& tool.name == "read_file"@ || tool.name == "delete_file"@ ==> needed == Some(
                JsonV::Array(seq![JsonV::Str("path"@)]),
            )
            &&& tool.name == "write_file"@ ==> needed == Some(
                JsonV::Array(seq![JsonV::Str("path"@), JsonV::Str("content"@)]),
            )
            &&& tool.name == "grep_dir"@ ==> needed == Some(JsonV::Array(seq![JsonV::Str("pattern"@)]))
            &&& tool.name == "rename"@ ==> needed == Some(
                JsonV::Array(seq![JsonV::Str("from"@), JsonV::Str("to"@)]),
            )
            &&& tool.name == "run_shell"@ ==> needed == Some(JsonV::Array(seq![JsonV::Str("command"@)]))
        }),
{
    tools_say_what_they_may_do(i);
    reveal_strlit("read_file");
    reveal_strlit("list_dir");
    reveal_strlit("grep_dir");
    reveal_strlit("write_file");
    reveal_strlit("delete_file");
    reveal_strlit("rename");
    reveal_strlit("run_shell");
    assert("read_file"@.len() == 9 && "list_dir"@.len() == 8 && "grep_dir"@.len() == 8 && "write_file"@.len() == 10
        && "delete_file"@.len() == 11 && "rename"@.len() == 6 && "run_shell"@.len() == 9);
    assert("read_file"@[1] == 'e' && "run_shell"@[1] == 'u');
    assert("list_dir"@[0] == 'l' && "grep_dir"@[0] == 'g');
    reveal_strlit("type");
    reveal_strlit("properties");
    reveal_strlit("required");
    assert("type"@.len() == 4 && "properties"@.len() == 10 && "required"@.len() == 8);
    let o = tools_v()[i].input_schema->Object_0;
    if o.len() == 3 {
        assert(o =~= fields().push(o[0]).push(o[1]).push(o[2]));
        lemma_three(o[0], o[1], o[2]);
    }
    assert(seq![JsonV::Str("path"@)] =~= Seq::empty().push(JsonV::Str("path"@)));
    assert(seq![JsonV::Str("pattern"@)] =~= Seq::empty().push(JsonV::Str("pattern"@)));
    assert(seq![JsonV::Str("command"@)] =~= Seq::empty().push(JsonV::Str("command"@)));
    assert(seq![JsonV::Str("path"@), JsonV::Str("content"@)] =~= Seq::empty().push(JsonV::Str("path"@)).push(
        JsonV::Str("content"@),
    ));
    assert(seq![JsonV::Str("from"@), JsonV::Str("to"@)] =~= Seq::empty().push(JsonV::Str("from"@)).push(
        JsonV::Str("to"@),
    ));
}

} // verus!
