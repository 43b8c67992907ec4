//! The persistence of an accepted chat message: the message is appended to
//! the log and the chat's last-message summary updated in one transaction,
//! so that both writes commit or neither does.

use crate::common_chat::ChatType;
use vstd::prelude::*;

verus! {

/// The steps of recording one message, in order.
#[derive(PartialEq, Eq, Structural, Clone, Copy, Debug)]
pub enum PersistStage {
    /// Find the chat's kind, which picks the summary table.
    ResolveKind,
    Begin,
    InsertMessage,
    UpdateSummary,
    Commit,
}

/// What to do after a stage.
#[derive(PartialEq, Eq, Structural, Clone, Copy, Debug)]
pub enum PersistAction {
    Run(PersistStage),
    /// Roll the open transaction back; the message is not recorded.
    RollBack,
    /// Recording is over: whether the message is durable.
    Finish(bool),
}

pub open spec fn after_stage_spec(stage: PersistStage, succeeded: bool) -> PersistAction {
    if succeeded {
        match stage {
            PersistStage::ResolveKind => PersistAction::Run(PersistStage::Begin),
            PersistStage::Begin => PersistAction::Run(PersistStage::InsertMessage),
            PersistStage::InsertMessage => PersistAction::Run(PersistStage::UpdateSummary),
            PersistStage::UpdateSummary => PersistAction::Run(PersistStage::Commit),
            PersistStage::Commit => PersistAction::Finish(true),
        }
    } else {
        match stage {
            PersistStage::InsertMessage | PersistStage::UpdateSummary => PersistAction::RollBack,
            _ => PersistAction::Finish(false),
        }
    }
}

/// The first stage of recording a message.
pub fn first_stage() -> (r: PersistStage)
    ensures
        r == PersistStage::ResolveKind,
{
    PersistStage::ResolveKind
}

/// What follows a stage that succeeded or failed. A failed write inside the
/// transaction rolls it back; a failed commit leaves nothing committed.
pub fn after_stage(stage: PersistStage, succeeded: bool) -> (r: PersistAction)
    ensures
        r == after_stage_spec(stage, succeeded),
{
    if succeeded {
        match stage {
            PersistStage::ResolveKind => PersistAction::Run(PersistStage::Begin),
            PersistStage::Begin => PersistAction::Run(PersistStage::InsertMessage),
            PersistStage::InsertMessage => PersistAction::Run(PersistStage::UpdateSummary),
            PersistStage::UpdateSummary => PersistAction::Run(PersistStage::Commit),
            PersistStage::Commit => PersistAction::Finish(true),
        }
    } else {
        match stage {
            PersistStage::InsertMessage | PersistStage::UpdateSummary => PersistAction::RollBack,
            _ => PersistAction::Finish(false),
        }
    }
}

/// The stages run, from the first, while every one succeeds.
pub open spec fn stages_in_order() -> Seq<PersistStage> {
    seq![
        PersistStage::ResolveKind,
        PersistStage::Begin,
        PersistStage::InsertMessage,
        PersistStage::UpdateSummary,
        PersistStage::Commit,
    ]
}

/// A message is recorded only when every stage succeeded, each in turn: the
/// stages run in order, and a failure at any of them never finishes with
/// success.
pub proof fn lemma_recorded_only_when_all_stages_succeed()
    ensures
        forall|i: int| 0 <= i < 4 ==> after_stage_spec(#[trigger] stages_in_order()[i], true) == PersistAction::Run(stages_in_order()[i + 1]),
        after_stage_spec(PersistStage::Commit, true) == PersistAction::Finish(true),
        forall|s: PersistStage| after_stage_spec(s, false) != PersistAction::Finish(true),
        forall|s: PersistStage, b: bool| after_stage_spec(s, b) == PersistAction::Finish(true) ==> s == PersistStage::Commit && b,
{
}

/// The statement that appends a message to the log: chat id, sender id,
/// content, time stamp.
pub fn insert_message_statement() -> (r: &'static str)
    ensures
        r@ == "INSERT INTO chat_messages (chat_id, sender_id, content, time_stamp) VALUES ($1, $2, $3, $4::timestamptz)"@,
{
    "INSERT INTO chat_messages (chat_id, sender_id, content, time_stamp) VALUES ($1, $2, $3, $4::timestamptz)"
}

pub open spec fn summary_statement_spec(kind: ChatType) -> Seq<char> {
    match kind {
        ChatType::Direct => "UPDATE direct_chats SET last_message = $1, last_time_stamp = $2::timestamptz WHERE chat_id = $3"@,
        ChatType::Group => "UPDATE group_chats SET last_message = $1, last_time_stamp = $2::timestamptz WHERE chat_id = $3"@,
    }
}

/// The statement that updates the summary of a chat of the given kind:
/// content, time stamp, chat id.
pub fn summary_update_statement(kind: ChatType) -> (r: &'static str)
    ensures
        r@ == summary_statement_spec(kind),
{
    match kind {
        ChatType::Direct => "UPDATE direct_chats SET last_message = $1, last_time_stamp = $2::timestamptz WHERE chat_id = $3",
        ChatType::Group => "UPDATE group_chats SET last_message = $1, last_time_stamp = $2::timestamptz WHERE chat_id = $3",
    }
}

} // verus!
