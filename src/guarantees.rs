//! What holds of every run of a chat session against the registry.

use crate::admission::{admission_verdict, AdmissionVerdict, MembershipLookup};
use crate::common::IdLookup;
use crate::protocol::ClientView;
use crate::registry::{recipients, without_user, RegistryView};
use crate::session::{chat_message, next, EffectView, EventView, Phase, RecordView, SessionView};
use vstd::prelude::*;

verus! {

/// Init with a token of a user who is a member of the chat, once admitted,
/// makes the session active and puts its connection among the chat's
/// targets, unless the token is already bound to a live connection.
pub proof fn lemma_member_init_activates(
    s: SessionView,
    reg: RegistryView,
    token: Seq<char>,
    chat_id: i32,
    user_id: i32,
    now: Seq<char>,
)
    requires
        s.phase == (Phase::AwaitingInit { requested: None }),
        reg.bound_chat(token) is None,
    ensures
        ({
            let verdict = admission_verdict(IdLookup::Found(user_id), MembershipLookup::Member);
            let (s1, r1, e1) = next(s, reg, EventView::Client(ClientView::Init { token, chat_id }), now);
            let (s2, r2, e2) = next(s1, r1, EventView::Verdict(verdict), now);
            &&& e1 == (EffectView::CheckAdmission { token, chat_id })
            &&& s2.phase == (Phase::Active { token, user_id, chat_id, pending: None })
            &&& r2.targets(chat_id).contains((user_id, s.conn))
        }),
{
    let (s1, r1, e1) = next(s, reg, EventView::Client(ClientView::Init { token, chat_id }), now);
    let r2 = r1.connect(token, chat_id, user_id, s.conn);
    assert(r2.targets(chat_id).last() == (user_id, s.conn));
}

/// Init with a token that names nobody (or whose lookup failed), or by a
/// user who is not a member (or whose membership could not be checked),
/// closes the session with an error notice and leaves the registry as it was.
pub proof fn lemma_refused_init_leaves_registry(
    s: SessionView,
    reg: RegistryView,
    token: Seq<char>,
    chat_id: i32,
    token_lookup: IdLookup,
    membership: MembershipLookup,
    now: Seq<char>,
)
    requires
        s.phase == (Phase::AwaitingInit { requested: None }),
        !(token_lookup is Found) || !(membership is Member),
    ensures
        ({
            let verdict = admission_verdict(token_lookup, membership);
            let (s1, r1, e1) = next(s, reg, EventView::Client(ClientView::Init { token, chat_id }), now);
            let (s2, r2, e2) = next(s1, r1, EventView::Verdict(verdict), now);
            &&& s2.phase is Closed
            &&& r2 == reg
            &&& e2 matches EffectView::ReplyAndClose(crate::protocol::ResponseView::Error { .. })
        }),
{
}

/// The session and registry after `msgs` are sent, in order, on the token
/// `token`, each made durable before the next is read; with the effect of
/// each successful persistence.
pub open spec fn relay(
    s: SessionView,
    reg: RegistryView,
    token: Seq<char>,
    msgs: Seq<Seq<char>>,
    times: Seq<Seq<char>>,
) -> (SessionView, RegistryView, Seq<EffectView>)
    decreases msgs.len(),
{
    if msgs.len() == 0 {
        (s, reg, Seq::empty())
    } else {
        let (s0, r0, out) = relay(s, reg, token, msgs.drop_last(), times);
        let at = times[msgs.len() - 1];
        let (s1, r1, _) = next(s0, r0, EventView::Client(ClientView::Msg { token, message: msgs.last() }), at);
        let (s2, r2, d) = next(s1, r1, EventView::Persisted(true), at);
        (s2, r2, out.push(d))
    }
}

/// N messages sent in sequence by an active session, each persisted, give N
/// deliveries in the order sent, each to every other participant that the
/// registry holds for the chat.
pub proof fn lemma_sequential_messages_reach_everyone(
    s: SessionView,
    reg: RegistryView,
    token: Seq<char>,
    user_id: i32,
    chat_id: i32,
    msgs: Seq<Seq<char>>,
    times: Seq<Seq<char>>,
)
    requires
        s.phase == (Phase::Active { token, user_id, chat_id, pending: None }),
        msgs.len() == times.len(),
    ensures
        ({
            let (s2, r2, out) = relay(s, reg, token, msgs, times);
            &&& s2 == s
            &&& r2 == reg
            &&& out.len() == msgs.len()
            &&& forall|i: int| 0 <= i < msgs.len() ==> #[trigger] out[i] == (EffectView::Deliver {
                recipients: recipients(reg.targets(chat_id), user_id, s.conn),
                payload: chat_message(RecordView { chat_id, sender_id: user_id, content: msgs[i], time_stamp: times[i] }),
            })
        }),
    decreases msgs.len(),
{
    if msgs.len() > 0 {
        let last = (msgs.len() - 1) as int;
        lemma_sequential_messages_reach_everyone(s, reg, token, user_id, chat_id, msgs.drop_last(), times.drop_last());
        lemma_relay_ignores_later_times(s, reg, token, msgs.drop_last(), times);
        let (s0, r0, out0) = relay(s, reg, token, msgs.drop_last(), times);
        let (s2, r2, out) = relay(s, reg, token, msgs, times);
        assert forall|i: int| 0 <= i < msgs.len() implies #[trigger] out[i] == (EffectView::Deliver {
            recipients: recipients(reg.targets(chat_id), user_id, s.conn),
            payload: chat_message(RecordView { chat_id, sender_id: user_id, content: msgs[i], time_stamp: times[i] }),
        }) by {
            if i < last {
                assert(out[i] == out0[i]);
                assert(msgs.drop_last()[i] == msgs[i]);
                assert(times.drop_last()[i] == times[i]);
            }
        }
    }
}

/// `relay` reads only as many times as there are messages.
proof fn lemma_relay_ignores_later_times(
    s: SessionView,
    reg: RegistryView,
    token: Seq<char>,
    msgs: Seq<Seq<char>>,
    times: Seq<Seq<char>>,
)
    requires
        msgs.len() < times.len(),
    ensures
        relay(s, reg, token, msgs, times) == relay(s, reg, token, msgs, times.drop_last()),
    decreases msgs.len(),
{
    if msgs.len() > 0 {
        lemma_relay_ignores_later_times(s, reg, token, msgs.drop_last(), times);
        lemma_relay_ignores_later_times(s, reg, token, msgs.drop_last(), times.drop_last());
        assert(times[msgs.len() - 1] == times.drop_last()[msgs.len() - 1]);
    }
}

/// A delivery only ever follows a successful persistence of the message it
/// carries; no other event, and no failed persistence, delivers anything.
pub proof fn lemma_delivery_needs_persistence(s: SessionView, reg: RegistryView, e: EventView, now: Seq<char>)
    ensures
        next(s, reg, e, now).2 is Deliver ==> {
            &&& e == EventView::Persisted(true)
            &&& s.phase matches Phase::Active { pending: Some(rec), .. }
            &&& next(s, reg, e, now).2 matches EffectView::Deliver { payload, .. }
            &&& payload == chat_message(rec)
        },
{
}

/// Connections in `recipients(entries, sender, conn)` are never `conn`.
proof fn lemma_recipients_skip_sender(entries: Seq<(i32, u64)>, sender: i32, conn: u64)
    ensures
        !recipients(entries, sender, conn).contains(conn),
    decreases entries.len(),
{
    if entries.len() > 0 {
        lemma_recipients_skip_sender(entries.drop_last(), sender, conn);
        let rest = recipients(entries.drop_last(), sender, conn);
        let e = entries.last();
        if e.0 != sender && e.1 != conn {
            assert forall|i: int| 0 <= i < rest.push(e.1).len() implies rest.push(e.1)[i] != conn by {
                if i < rest.len() {
                    assert(rest[i] == rest.push(e.1)[i]);
                }
            }
        }
    }
}

/// The sender's own connection is never among the recipients of a delivery.
pub proof fn lemma_no_echo_to_sender(s: SessionView, reg: RegistryView, e: EventView, now: Seq<char>)
    ensures
        next(s, reg, e, now).2 matches EffectView::Deliver { recipients, .. } ==> !recipients.contains(s.conn),
{
    if let Phase::Active { user_id, chat_id, .. } = s.phase {
        lemma_recipients_skip_sender(reg.targets(chat_id), user_id, s.conn);
    }
}

/// No entry of `user_id` is left by `without_user`.
proof fn lemma_without_user_drops_user(entries: Seq<(i32, u64)>, user_id: i32)
    ensures
        forall|i: int| 0 <= i < without_user(entries, user_id).len() ==> (#[trigger] without_user(entries, user_id)[i]).0 != user_id,
    decreases entries.len(),
{
    if entries.len() > 0 {
        lemma_without_user_drops_user(entries.drop_last(), user_id);
        let rest = without_user(entries.drop_last(), user_id);
        let e = entries.last();
        if e.0 != user_id {
            assert forall|i: int| 0 <= i < rest.push(e).len() implies (#[trigger] rest.push(e)[i]).0 != user_id by {
                if i < rest.len() {
                    assert(rest[i] == rest.push(e)[i]);
                }
            }
        }
    }
}

/// After a user is unregistered from a chat none of its entries remain among
/// the chat's targets.
pub proof fn lemma_unregister_removes_user(reg: RegistryView, chat_id: i32, user_id: i32)
    ensures
        forall|i: int| 0 <= i < reg.unregister(chat_id, user_id).targets(chat_id).len()
            ==> (#[trigger] reg.unregister(chat_id, user_id).targets(chat_id)[i]).0 != user_id,
{
    if reg.chats.contains_key(chat_id) {
        lemma_without_user_drops_user(reg.chats[chat_id], user_id);
    }
}

/// Once an active session ends by Exit, its user has no entry left in the
/// chat and its token is unbound; a later message on that token changes
/// nothing and produces no effect.
pub proof fn lemma_closed_session_is_inert(
    s: SessionView,
    reg: RegistryView,
    token: Seq<char>,
    user_id: i32,
    chat_id: i32,
    pending: Option<RecordView>,
    message: Seq<char>,
    now: Seq<char>,
    later: Seq<char>,
)
    requires
        s.phase == (Phase::Active { token, user_id, chat_id, pending }),
    ensures
        ({
            let (s1, r1, e1) = next(s, reg, EventView::Client(ClientView::Exit { token }), now);
            &&& s1.phase is Closed
            &&& e1 == EffectView::Close
            &&& r1.bound_chat(token) is None
            &&& forall|i: int| 0 <= i < r1.targets(chat_id).len() ==> (#[trigger] r1.targets(chat_id)[i]).0 != user_id
            &&& next(s1, r1, EventView::Client(ClientView::Msg { token, message }), later) == (s1, r1, EffectView::Nothing)
        }),
{
    lemma_unregister_removes_user(reg.unbind_token(token), chat_id, user_id);
}

/// A closed session ignores every event: its state, the registry and the
/// outside world are untouched.
pub proof fn lemma_closed_ignores_events(s: SessionView, reg: RegistryView, e: EventView, now: Seq<char>)
    requires
        s.phase is Closed,
    ensures
        next(s, reg, e, now) == (s, reg, EffectView::Nothing),
{
}


/// The registry changes only when a session joins or leaves: admission binds
/// the token and registers the connection together, and the end of an
/// active session unbinds and unregisters together; every other step leaves
/// the registry as it was.
pub proof fn lemma_registry_changes_only_on_join_and_leave(s: SessionView, reg: RegistryView, e: EventView, now: Seq<char>)
    ensures
        ({
            let (s2, r2, _) = next(s, reg, e, now);
            ||| r2 == reg
            ||| (s.phase matches Phase::AwaitingInit { requested: Some((token, chat_id)) }
                && s2.phase matches Phase::Active { user_id, .. }
                && r2 == reg.connect(token, chat_id, user_id, s.conn))
            ||| (s.phase matches Phase::Active { token, user_id, chat_id, .. }
                && s2.phase is Closed
                && r2 == reg.disconnect(token, chat_id, user_id))
        }),
{
}

} // verus!
