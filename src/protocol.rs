//! Messages of the duplex chat protocol, in both directions.

use vstd::prelude::*;

verus! {

/// A message from a client.
pub enum ChatClientMessage {
    Init { token: String, chat_id: i32 },
    Msg { token: String, message: String },
    Exit { token: String },
}

pub enum ClientView {
    Init { token: Seq<char>, chat_id: i32 },
    Msg { token: Seq<char>, message: Seq<char> },
    Exit { token: Seq<char> },
}

impl View for ChatClientMessage {
    type V = ClientView;

    open spec fn view(&self) -> ClientView {
        match self {
            ChatClientMessage::Init { token, chat_id } => ClientView::Init { token: token@, chat_id: *chat_id },
            ChatClientMessage::Msg { token, message } => ClientView::Msg { token: token@, message: message@ },
            ChatClientMessage::Exit { token } => ClientView::Exit { token: token@ },
        }
    }
}

/// A message from the server to one client.
pub enum ChatResponse {
    Info { text: String },
    Error { text: String },
    ChatMessage { chat_id: i32, sender: String, message: String, time_stamp: String },
}

pub enum ResponseView {
    Info { text: Seq<char> },
    Error { text: Seq<char> },
    ChatMessage { chat_id: i32, sender: Seq<char>, message: Seq<char>, time_stamp: Seq<char> },
}

impl View for ChatResponse {
    type V = ResponseView;

    open spec fn view(&self) -> ResponseView {
        match self {
            ChatResponse::Info { text } => ResponseView::Info { text: text@ },
            ChatResponse::Error { text } => ResponseView::Error { text: text@ },
            ChatResponse::ChatMessage { chat_id, sender, message, time_stamp } => ResponseView::ChatMessage {
                chat_id: *chat_id,
                sender: sender@,
                message: message@,
                time_stamp: time_stamp@,
            },
        }
    }
}

impl ChatResponse {
    pub fn info(text: &str) -> (r: ChatResponse)
        ensures
            r@ == (ResponseView::Info { text: text@ }),
    {
        ChatResponse::Info { text: String::from_str(text) }
    }

    pub fn error(text: &str) -> (r: ChatResponse)
        ensures
            r@ == (ResponseView::Error { text: text@ }),
    {
        ChatResponse::Error { text: String::from_str(text) }
    }
}

} // verus!
