//! What holds of every state that sending, connecting and listening lead to.
use vstd::prelude::*;

use crate::answer_laws::{asking_and_refusing_keep_states_well_formed, call_ids, well_formed};
use crate::collections::{distinct, entry_keeps_keys_distinct};
use crate::connection::{link_step, ConnectEventV, ConnectionV};
use crate::manager::RemoteAgentManagerV;
use crate::send::{absorbed, backfilled, message_begun, send_step, with_card, SendEventV, SendingV};
use crate::state::RemoteStateV;
use crate::types::{AgentStreamEventV, ConfirmationV};

verus! {

/// A new prompt keeps a state in order.
pub proof fn prompts_keep_states_well_formed(s: RemoteStateV, now: i64, opencode: bool)
    requires
        well_formed(s),
    ensures
        well_formed(message_begun(s, now, opencode).state),
{
    asking_and_refusing_keep_states_well_formed(s, arbitrary(), now, opencode);
}

/// The steps of a sending keep a state in order.
pub proof fn sending_keeps_states_well_formed(
    m: RemoteAgentManagerV,
    d: SendingV,
    event: SendEventV,
)
    requires
        well_formed(m.state),
    ensures
        well_formed(send_step(m, d, event).manager.state),
{
}

/// The steps of a connection keep a state in order.
pub proof fn connecting_keeps_states_well_formed(
    s: RemoteStateV,
    c: ConnectionV,
    event: ConnectEventV,
)
    requires
        well_formed(s),
    ensures
        well_formed(link_step(s, c, event).state),
{
}

/// Sub-agent sessions that were missed keep a state in order.
pub proof fn catching_up_keeps_states_well_formed(s: RemoteStateV, registered: Seq<Seq<char>>)
    requires
        well_formed(s),
    ensures
        well_formed(backfilled(s, registered).state),
    decreases registered.len(),
{
    match s.opencode_session_id {
        Some(parent) => {
            if registered.len() > 0 {
                let before = registered.drop_last();
                catching_up_keeps_states_well_formed(s, before);
                entry_keeps_keys_distinct(
                    backfilled(s, before).state.child_sessions,
                    registered.last(),
                    parent,
                );
            }
        },
        None => {},
    }
}

proof fn lemma_card_ids(q: Seq<ConfirmationV>, c: ConfirmationV)
    ensures
        forall|x: Seq<char>|
            #[trigger] call_ids(with_card(q, c)).contains(x) ==> call_ids(q).contains(x) || x
                == c.call_id,
    decreases q.len(),
{
    let n = with_card(q, c);
    if q.len() == 0 {
        assert(call_ids(n) =~= seq![c.call_id]);
    } else {
        let rest = q.drop_first();
        assert(call_ids(q) =~= seq![q[0].call_id] + call_ids(rest));
        if q[0].call_id == c.call_id {
            assert(call_ids(n) =~= call_ids(q));
        } else {
            lemma_card_ids(rest, c);
            let m = with_card(rest, c);
            assert(call_ids(n) =~= seq![q[0].call_id] + call_ids(m));
            assert forall|x: Seq<char>| #[trigger] call_ids(n).contains(x) implies call_ids(
                q,
            ).contains(x) || x == c.call_id by {
                let i = choose|i: int| 0 <= i < call_ids(n).len() && call_ids(n)[i] == x;
                if i == 0 {
                    assert(call_ids(q)[0] == x);
                } else {
                    assert(call_ids(m)[i - 1] == x);
                    assert(call_ids(m).contains(x));
                    if call_ids(rest).contains(x) {
                        let k = choose|k: int|
                            0 <= k < call_ids(rest).len() && call_ids(rest)[k] == x;
                        assert(call_ids(q)[k + 1] == x);
                    }
                }
            }
        }
    }
}

proof fn lemma_card_distinct(q: Seq<ConfirmationV>, c: ConfirmationV)
    requires
        distinct(call_ids(q)),
    ensures
        distinct(call_ids(with_card(q, c))),
    decreases q.len(),
{
    let n = with_card(q, c);
    if q.len() == 0 {
        assert(call_ids(n) =~= seq![c.call_id]);
    } else {
        let rest = q.drop_first();
        assert(call_ids(q) =~= seq![q[0].call_id] + call_ids(rest));
        assert forall|i: int, j: int|
            0 <= i < j < call_ids(rest).len() implies call_ids(rest)[i] != call_ids(rest)[j] by {
            assert(call_ids(q)[i + 1] != call_ids(q)[j + 1]);
        }
        if q[0].call_id == c.call_id {
            assert(call_ids(n) =~= call_ids(q));
        } else {
            lemma_card_distinct(rest, c);
            lemma_card_ids(rest, c);
            let m = with_card(rest, c);
            assert(call_ids(n) =~= seq![q[0].call_id] + call_ids(m));
            assert(!call_ids(rest).contains(q[0].call_id)) by {
                if call_ids(rest).contains(q[0].call_id) {
                    let k = choose|k: int|
                        0 <= k < call_ids(rest).len() && call_ids(rest)[k] == q[0].call_id;
                    assert(call_ids(q)[0] != call_ids(q)[k + 1]);
                }
            }
            assert forall|i: int, j: int|
                0 <= i < j < call_ids(n).len() implies call_ids(n)[i] != call_ids(n)[j] by {
                if i == 0 {
                    assert(call_ids(n)[j] == call_ids(m)[j - 1]);
                    assert(call_ids(m).contains(call_ids(n)[j]));
                } else {
                    assert(call_ids(m)[i - 1] != call_ids(m)[j - 1]);
                }
            }
        }
    }
}

/// An event that came over a WebSocket keeps a state in order.
pub proof fn listening_keeps_states_well_formed(s: RemoteStateV, event: AgentStreamEventV)
    requires
        well_formed(s),
    ensures
        well_formed(absorbed(s, event).state),
{
    match event {
        AgentStreamEventV::AcpPermission(card) => {
            lemma_card_distinct(s.confirmations, card);
        },
        _ => {},
    }
}

} // verus!
