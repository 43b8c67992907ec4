//! The per-connection chat session: `AwaitingInit`, then `Active`, then
//! `Closed` for good.
//!
//! The session does not perform I/O. Each inbound frame, and each answer to
//! an outside request it made, is handed to `handle` as an event; the
//! session updates itself and the shared registry and returns the one
//! effect the caller must carry out (send a notice, close the connection,
//! look up the admission of a token, persist a message, or deliver a message
//! to other connections).

use crate::admission::AdmissionVerdict;
use crate::protocol::{ChatClientMessage, ChatResponse, ClientView, ResponseView};
use crate::registry::{recipients, ConnectionId, ConnectionRegistry, RegistryView};
use crate::text::{i32_to_decimal, signed_decimal};
use vstd::prelude::*;

verus! {

/// A chat message accepted from a session, to be made durable.
pub struct MessageRecord {
    pub chat_id: i32,
    pub sender_id: i32,
    pub content: String,
    pub time_stamp: String,
}

pub struct RecordView {
    pub chat_id: i32,
    pub sender_id: i32,
    pub content: Seq<char>,
    pub time_stamp: Seq<char>,
}

impl View for MessageRecord {
    type V = RecordView;

    open spec fn view(&self) -> RecordView {
        RecordView {
            chat_id: self.chat_id,
            sender_id: self.sender_id,
            content: self.content@,
            time_stamp: self.time_stamp@,
        }
    }
}

impl MessageRecord {
    pub fn duplicate(&self) -> (r: MessageRecord)
        ensures
            r@ == self@,
    {
        MessageRecord {
            chat_id: self.chat_id,
            sender_id: self.sender_id,
            content: self.content.clone(),
            time_stamp: self.time_stamp.clone(),
        }
    }
}

/// Something that happened to a session.
pub enum SessionEvent {
    /// A text frame that decoded to a client message.
    Client(ChatClientMessage),
    /// A text frame that did not decode.
    Malformed,
    /// A frame that is not text.
    NonText,
    /// A close frame arrived, or the transport failed.
    TransportClosed,
    /// The stream ended with no further frame.
    StreamEnded,
    /// The answer to a `CheckAdmission` effect.
    Verdict(AdmissionVerdict),
    /// The answer to a `Persist` effect: whether the message was made durable.
    Persisted(bool),
}

pub enum EventView {
    Client(ClientView),
    Malformed,
    NonText,
    TransportClosed,
    StreamEnded,
    Verdict(AdmissionVerdict),
    Persisted(bool),
}

impl View for SessionEvent {
    type V = EventView;

    open spec fn view(&self) -> EventView {
        match self {
            SessionEvent::Client(m) => EventView::Client(m@),
            SessionEvent::Malformed => EventView::Malformed,
            SessionEvent::NonText => EventView::NonText,
            SessionEvent::TransportClosed => EventView::TransportClosed,
            SessionEvent::StreamEnded => EventView::StreamEnded,
            SessionEvent::Verdict(v) => EventView::Verdict(*v),
            SessionEvent::Persisted(b) => EventView::Persisted(*b),
        }
    }
}

/// What the caller must do after an event.
pub enum Effect {
    Nothing,
    /// Send a notice on this connection; it stays open.
    Reply(ChatResponse),
    /// Send a notice on this connection, then close it.
    ReplyAndClose(ChatResponse),
    /// Close this connection.
    Close,
    /// Resolve the token and check membership of the chat; answer with `Verdict`.
    CheckAdmission { token: String, chat_id: i32 },
    /// Make the message durable; answer with `Persisted`.
    Persist(MessageRecord),
    /// Enqueue the payload on each of these connections.
    Deliver { recipients: Vec<ConnectionId>, payload: ChatResponse },
}

pub enum EffectView {
    Nothing,
    Reply(ResponseView),
    ReplyAndClose(ResponseView),
    Close,
    CheckAdmission { token: Seq<char>, chat_id: i32 },
    Persist(RecordView),
    Deliver { recipients: Seq<u64>, payload: ResponseView },
}

impl View for Effect {
    type V = EffectView;

    open spec fn view(&self) -> EffectView {
        match self {
            Effect::Nothing => EffectView::Nothing,
            Effect::Reply(r) => EffectView::Reply(r@),
            Effect::ReplyAndClose(r) => EffectView::ReplyAndClose(r@),
            Effect::Close => EffectView::Close,
            Effect::CheckAdmission { token, chat_id } => EffectView::CheckAdmission { token: token@, chat_id: *chat_id },
            Effect::Persist(rec) => EffectView::Persist(rec@),
            Effect::Deliver { recipients, payload } => EffectView::Deliver { recipients: recipients@, payload: payload@ },
        }
    }
}

pub enum SessionState {
    /// No valid Init yet; `requested` holds the Init whose admission is being checked.
    AwaitingInit { requested: Option<(String, i32)> },
    /// Admitted; `pending` holds the message whose persistence is awaited.
    Active { token: String, user_id: i32, chat_id: i32, pending: Option<MessageRecord> },
    Closed,
}

pub enum Phase {
    AwaitingInit { requested: Option<(Seq<char>, i32)> },
    Active { token: Seq<char>, user_id: i32, chat_id: i32, pending: Option<RecordView> },
    Closed,
}

pub struct SessionView {
    pub conn: u64,
    pub phase: Phase,
}

pub open spec fn pending_init_view(p: Option<(String, i32)>) -> Option<(Seq<char>, i32)> {
    match p {
        Some((t, c)) => Some((t@, c)),
        None => None,
    }
}

pub open spec fn pending_record_view(p: Option<MessageRecord>) -> Option<RecordView> {
    match p {
        Some(r) => Some(r@),
        None => None,
    }
}

impl View for SessionState {
    type V = Phase;

    open spec fn view(&self) -> Phase {
        match self {
            SessionState::AwaitingInit { requested } => Phase::AwaitingInit { requested: pending_init_view(*requested) },
            SessionState::Active { token, user_id, chat_id, pending } => Phase::Active {
                token: token@,
                user_id: *user_id,
                chat_id: *chat_id,
                pending: pending_record_view(*pending),
            },
            SessionState::Closed => Phase::Closed,
        }
    }
}

pub open spec fn refused(text: Seq<char>) -> EffectView {
    EffectView::ReplyAndClose(ResponseView::Error { text })
}

/// The notice that relays an accepted message to the other participants.
pub open spec fn chat_message(rec: RecordView) -> ResponseView {
    ResponseView::ChatMessage {
        chat_id: rec.chat_id,
        sender: signed_decimal(rec.sender_id as int),
        message: rec.content,
        time_stamp: rec.time_stamp,
    }
}

pub open spec fn with_phase(s: SessionView, phase: Phase) -> SessionView {
    SessionView { conn: s.conn, phase }
}

pub open spec fn init_step(s: SessionView, reg: RegistryView, e: EventView) -> (SessionView, RegistryView, EffectView) {
    match e {
        EventView::Client(ClientView::Init { token, chat_id }) => (
            with_phase(s, Phase::AwaitingInit { requested: Some((token, chat_id)) }),
            reg,
            EffectView::CheckAdmission { token, chat_id },
        ),
        EventView::Client(_) => (with_phase(s, Phase::Closed), reg, refused("Wrong client message type"@)),
        EventView::Malformed => (with_phase(s, Phase::Closed), reg, refused("Internal connection request server error"@)),
        EventView::NonText => (with_phase(s, Phase::Closed), reg, refused("Wrong socket message type"@)),
        EventView::TransportClosed => (with_phase(s, Phase::Closed), reg, refused("Wrong socket message type"@)),
        EventView::StreamEnded => (with_phase(s, Phase::Closed), reg, refused("No message sent. Close connection"@)),
        _ => (s, reg, EffectView::Nothing),
    }
}

pub open spec fn admission_step(
    s: SessionView,
    reg: RegistryView,
    token: Seq<char>,
    chat_id: i32,
    e: EventView,
) -> (SessionView, RegistryView, EffectView) {
    match e {
        EventView::Verdict(AdmissionVerdict::Admitted(user_id)) => if reg.bound_chat(token) is Some {
            (with_phase(s, Phase::Closed), reg, refused("Session token already connected"@))
        } else {
            (
                with_phase(s, Phase::Active { token, user_id, chat_id, pending: None }),
                reg.connect(token, chat_id, user_id, s.conn),
                EffectView::Reply(ResponseView::Info { text: "User connected to chat!"@ }),
            )
        },
        EventView::Verdict(AdmissionVerdict::InvalidToken) => (with_phase(s, Phase::Closed), reg, refused("User not validated"@)),
        EventView::Verdict(AdmissionVerdict::NotMember) => (with_phase(s, Phase::Closed), reg, refused("User dones not belong to this chat"@)),
        EventView::Verdict(AdmissionVerdict::MembershipCheckFailed) => (with_phase(s, Phase::Closed), reg, refused("Internal validation server error 1"@)),
        EventView::TransportClosed | EventView::StreamEnded => (
            with_phase(s, Phase::Closed),
            reg,
            refused("No message sent. Close connection"@),
        ),
        _ => (with_phase(s, Phase::Closed), reg, refused("Wrong client message type"@)),
    }
}

pub open spec fn active_step(
    s: SessionView,
    reg: RegistryView,
    token: Seq<char>,
    user_id: i32,
    chat_id: i32,
    pending: Option<RecordView>,
    e: EventView,
    now: Seq<char>,
) -> (SessionView, RegistryView, EffectView) {
    let closing = reg.disconnect(token, chat_id, user_id);
    match e {
        EventView::Client(ClientView::Init { .. }) => (s, reg, EffectView::Reply(ResponseView::Info { text: "Chat session already initialized"@ })),
        EventView::Client(ClientView::Msg { token: t, message }) => if t == token {
            let rec = RecordView { chat_id, sender_id: user_id, content: message, time_stamp: now };
            (with_phase(s, Phase::Active { token, user_id, chat_id, pending: Some(rec) }), reg, EffectView::Persist(rec))
        } else {
            (with_phase(s, Phase::Closed), closing, refused("Token mismatch"@))
        },
        EventView::Client(ClientView::Exit { token: t }) => if t == token {
            (with_phase(s, Phase::Closed), closing, EffectView::Close)
        } else {
            (s, reg, EffectView::Nothing)
        },
        EventView::TransportClosed | EventView::StreamEnded => (with_phase(s, Phase::Closed), closing, EffectView::Close),
        EventView::Persisted(saved) => match pending {
            Some(rec) => {
                let idle = with_phase(s, Phase::Active { token, user_id, chat_id, pending: None });
                if saved {
                    (idle, reg, EffectView::Deliver { recipients: recipients(reg.targets(chat_id), user_id, s.conn), payload: chat_message(rec) })
                } else {
                    (idle, reg, EffectView::Reply(ResponseView::Error { text: "Message could not be saved"@ }))
                }
            },
            None => (s, reg, EffectView::Nothing),
        },
        _ => (s, reg, EffectView::Nothing),
    }
}

/// The session's transition: from its state, the registry, an event and the
/// current time, to its next state, the next registry and the effect.
pub open spec fn next(s: SessionView, reg: RegistryView, e: EventView, now: Seq<char>) -> (SessionView, RegistryView, EffectView) {
    match s.phase {
        Phase::AwaitingInit { requested: None } => init_step(s, reg, e),
        Phase::AwaitingInit { requested: Some((token, chat_id)) } => admission_step(s, reg, token, chat_id, e),
        Phase::Active { token, user_id, chat_id, pending } => active_step(s, reg, token, user_id, chat_id, pending, e, now),
        Phase::Closed => (s, reg, EffectView::Nothing),
    }
}

/// Relies on `chrono::Utc::now` and `DateTime::to_rfc3339`: the current time
/// as RFC 3339 text. Nothing is promised of its value.
#[verifier::external_body]
fn utc_now_rfc3339() -> (r: String) {
    chrono::Utc::now().to_rfc3339()
}

/// One live connection's session.
pub struct ChatSession {
    conn: ConnectionId,
    state: SessionState,
}

impl View for ChatSession {
    type V = SessionView;

    closed spec fn view(&self) -> SessionView {
        SessionView { conn: self.conn, phase: self.state@ }
    }
}

impl ChatSession {
    /// A session for a freshly accepted connection.
    pub fn new(conn: ConnectionId) -> (r: ChatSession)
        ensures
            r@ == (SessionView { conn, phase: Phase::AwaitingInit { requested: None } }),
    {
        ChatSession { conn, state: SessionState::AwaitingInit { requested: None } }
    }

    pub fn connection(&self) -> (r: ConnectionId)
        ensures
            r == self@.conn,
    {
        self.conn
    }

    pub fn is_active(&self) -> (r: bool)
        ensures
            r == self@.phase is Active,
    {
        match &self.state {
            SessionState::Active { .. } => true,
            _ => false,
        }
    }

    pub fn is_closed(&self) -> (r: bool)
        ensures
            r == self@.phase is Closed,
    {
        match &self.state {
            SessionState::Closed => true,
            _ => false,
        }
    }

    /// Handles one event, reading the clock for a message that is accepted.
    pub fn handle(&mut self, registry: &mut ConnectionRegistry, event: SessionEvent) -> (effect: Effect)
        ensures
            exists|now: Seq<char>|
                (final(self)@, final(registry)@, effect@) == next(old(self)@, old(registry)@, event@, now),
    {
        let now = utc_now_rfc3339();
        self.handle_at(registry, event, now)
    }

    /// Handles one event, with `now` as the time of a message that is accepted.
    pub fn handle_at(&mut self, registry: &mut ConnectionRegistry, event: SessionEvent, now: String) -> (effect: Effect)
        ensures
            (final(self)@, final(registry)@, effect@) == next(old(self)@, old(registry)@, event@, now@),
    {
        let mut state = SessionState::Closed;
        core::mem::swap(&mut self.state, &mut state);
        let conn = self.conn;
        match state {
            SessionState::AwaitingInit { requested: None } => {
                match event {
                    SessionEvent::Client(ChatClientMessage::Init { token, chat_id }) => {
                        let t = token.clone();
                        self.state = SessionState::AwaitingInit { requested: Some((token, chat_id)) };
                        Effect::CheckAdmission { token: t, chat_id }
                    },
                    SessionEvent::Client(_) => Effect::ReplyAndClose(ChatResponse::error("Wrong client message type")),
                    SessionEvent::Malformed => Effect::ReplyAndClose(ChatResponse::error("Internal connection request server error")),
                    SessionEvent::NonText => Effect::ReplyAndClose(ChatResponse::error("Wrong socket message type")),
                    SessionEvent::TransportClosed => Effect::ReplyAndClose(ChatResponse::error("Wrong socket message type")),
                    SessionEvent::StreamEnded => Effect::ReplyAndClose(ChatResponse::error("No message sent. Close connection")),
                    _ => {
                        self.state = SessionState::AwaitingInit { requested: None };
                        Effect::Nothing
                    },
                }
            },
            SessionState::AwaitingInit { requested: Some((token, chat_id)) } => {
                match event {
                    SessionEvent::Verdict(AdmissionVerdict::Admitted(user_id)) => {
                        if registry.bound_chat(&token).is_some() {
                            Effect::ReplyAndClose(ChatResponse::error("Session token already connected"))
                        } else {
                            registry.connect(&token, chat_id, user_id, conn);
                            self.state = SessionState::Active { token, user_id, chat_id, pending: None };
                            Effect::Reply(ChatResponse::info("User connected to chat!"))
                        }
                    },
                    SessionEvent::Verdict(AdmissionVerdict::InvalidToken) => Effect::ReplyAndClose(ChatResponse::error("User not validated")),
                    SessionEvent::Verdict(AdmissionVerdict::NotMember) => Effect::ReplyAndClose(ChatResponse::error("User dones not belong to this chat")),
                    SessionEvent::Verdict(AdmissionVerdict::MembershipCheckFailed) => Effect::ReplyAndClose(ChatResponse::error("Internal validation server error 1")),
                    SessionEvent::TransportClosed | SessionEvent::StreamEnded => {
                        Effect::ReplyAndClose(ChatResponse::error("No message sent. Close connection"))
                    },
                    _ => Effect::ReplyAndClose(ChatResponse::error("Wrong client message type")),
                }
            },
            SessionState::Active { token, user_id, chat_id, pending } => {
                match event {
                    SessionEvent::Client(ChatClientMessage::Init { .. }) => {
                        self.state = SessionState::Active { token, user_id, chat_id, pending };
                        Effect::Reply(ChatResponse::info("Chat session already initialized"))
                    },
                    SessionEvent::Client(ChatClientMessage::Msg { token: t, message }) => {
                        if t == token {
                            let rec = MessageRecord { chat_id, sender_id: user_id, content: message, time_stamp: now };
                            let out = rec.duplicate();
                            self.state = SessionState::Active { token, user_id, chat_id, pending: Some(rec) };
                            Effect::Persist(out)
                        } else {
                            registry.disconnect(&token, chat_id, user_id);
                            Effect::ReplyAndClose(ChatResponse::error("Token mismatch"))
                        }
                    },
                    SessionEvent::Client(ChatClientMessage::Exit { token: t }) => {
                        if t == token {
                            registry.disconnect(&token, chat_id, user_id);
                            Effect::Close
                        } else {
                            self.state = SessionState::Active { token, user_id, chat_id, pending };
                            Effect::Nothing
                        }
                    },
                    SessionEvent::TransportClosed | SessionEvent::StreamEnded => {
                        registry.disconnect(&token, chat_id, user_id);
                        Effect::Close
                    },
                    SessionEvent::Persisted(saved) => {
                        match pending {
                            Some(rec) => {
                                self.state = SessionState::Active { token, user_id, chat_id, pending: None };
                                if saved {
                                    let recipients = registry.recipients_of(chat_id, user_id, conn);
                                    let payload = ChatResponse::ChatMessage {
                                        chat_id: rec.chat_id,
                                        sender: i32_to_decimal(rec.sender_id),
                                        message: rec.content,
                                        time_stamp: rec.time_stamp,
                                    };
                                    Effect::Deliver { recipients, payload }
                                } else {
                                    Effect::Reply(ChatResponse::error("Message could not be saved"))
                                }
                            },
                            None => {
                                self.state = SessionState::Active { token, user_id, chat_id, pending: None };
                                Effect::Nothing
                            },
                        }
                    },
                    _ => {
                        self.state = SessionState::Active { token, user_id, chat_id, pending };
                        Effect::Nothing
                    },
                }
            },
            SessionState::Closed => Effect::Nothing,
        }
    }
}

} // verus!
