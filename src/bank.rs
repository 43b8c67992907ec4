//! Bank decisions: the funds answer, and which failure each step of a
//! transfer reports. A query outcome `Err(())` stands for a failed query;
//! a statement outcome is the number of rows it affected.

use crate::common::ResponseStatus;
use vstd::prelude::*;

verus! {

pub struct GetUserFundsRequest {
    pub token: String,
}

pub struct GetUserFundsResponse {
    pub response_status: ResponseStatus,
    pub funds: i32,
}

pub struct GetUserTransactionHistoryRequest {
    pub token: String,
}

pub struct TransferFundsRequest {
    pub sender_token: String,
    pub receiver_username: String,
    pub message: String,
    pub amount: i32,
}

/// The funds of the account that the token's user holds, or -1 with the reason.
pub fn user_funds_response(lookup: Result<Option<i32>, ()>) -> (r: GetUserFundsResponse)
    ensures
        lookup matches Ok(Some(f)) ==> r.response_status.is_success() && r.funds == f,
        lookup == Ok::<Option<i32>, ()>(None) ==> r.response_status.is_failure("No account found for this token"@) && r.funds == -1,
        lookup is Err ==> r.response_status.is_failure("No funds found. Server error!"@) && r.funds == -1,
{
    match lookup {
        Ok(Some(funds)) => GetUserFundsResponse { response_status: ResponseStatus::success(), funds },
        Ok(None) => GetUserFundsResponse { response_status: ResponseStatus::failed("No account found for this token"), funds: -1 },
        Err(()) => GetUserFundsResponse { response_status: ResponseStatus::failed("No funds found. Server error!"), funds: -1 },
    }
}

/// The status of a transaction history answer, from whether its query succeeded.
pub fn transaction_history_status(queried: bool) -> (r: ResponseStatus)
    ensures
        queried ==> r.is_success(),
        !queried ==> r.is_failure("No transaction found. Server error!"@),
{
    if queried {
        ResponseStatus::success()
    } else {
        ResponseStatus::failed("No transaction found. Server error!")
    }
}

/// Which account of a transfer is looked up.
#[derive(PartialEq, Eq, Structural, Clone, Copy, Debug)]
pub enum Party {
    Sender,
    Receiver,
}

/// The account id, or the answer that ends the transfer.
pub fn transfer_account(party: Party, lookup: Result<Option<i32>, ()>) -> (r: Result<i32, ResponseStatus>)
    ensures
        lookup matches Ok(Some(id)) ==> r == Ok::<i32, ResponseStatus>(id),
        (lookup == Ok::<Option<i32>, ()>(None) && party is Sender) ==> (r matches Err(s) && s.is_failure("No bank account found"@)),
        (lookup == Ok::<Option<i32>, ()>(None) && party is Receiver) ==> (r matches Err(s) && s.is_failure("Receiver not found"@)),
        (lookup is Err && party is Sender) ==> (r matches Err(s) && s.is_failure("No bank account found(sender). Server Error!"@)),
        (lookup is Err && party is Receiver) ==> (r matches Err(s) && s.is_failure(
            "No bank account found(receiver). Server Error!"@,
        )),
{
    match lookup {
        Ok(Some(id)) => Ok(id),
        Ok(None) => match party {
            Party::Sender => Err(ResponseStatus::failed("No bank account found")),
            Party::Receiver => Err(ResponseStatus::failed("Receiver not found")),
        },
        Err(()) => match party {
            Party::Sender => Err(ResponseStatus::failed("No bank account found(sender). Server Error!")),
            Party::Receiver => Err(ResponseStatus::failed("No bank account found(receiver). Server Error!")),
        },
    }
}

/// The steps of the transfer transaction.
#[derive(PartialEq, Eq, Structural, Clone, Copy, Debug)]
pub enum TransferStep {
    Begin,
    Subtract,
    Add,
    Record,
    Commit,
}

/// Why the transfer stops after `step` ended with `outcome`; `None` when it
/// goes on. `Begin` and `Commit` only fail or succeed.
pub open spec fn transfer_refusal_text(step: TransferStep, outcome: Result<u64, ()>) -> Option<Seq<char>> {
    match (step, outcome) {
        (TransferStep::Begin, Err(())) => Some("Internal server Error: 1!"@),
        (TransferStep::Commit, Err(())) => Some("Internal server Error: 8!"@),
        (TransferStep::Begin, Ok(_)) => None,
        (TransferStep::Commit, Ok(_)) => None,
        (TransferStep::Subtract, Ok(0)) => Some("Not enouch funds"@),
        (TransferStep::Subtract, Ok(1)) => None,
        (TransferStep::Subtract, Ok(_)) => Some("Internal server Error: 2!"@),
        (TransferStep::Subtract, Err(())) => Some("Internal server Error: 3!"@),
        (TransferStep::Add, Ok(0)) => Some("Receiver not found"@),
        (TransferStep::Add, Ok(1)) => None,
        (TransferStep::Add, Ok(_)) => Some("Internal server Error: 4!"@),
        (TransferStep::Add, Err(())) => Some("Internal server Error: 5!"@),
        (TransferStep::Record, Ok(0)) => Some("Receiver not found"@),
        (TransferStep::Record, Ok(1)) => None,
        (TransferStep::Record, Ok(_)) => Some("Internal server Error: 6!"@),
        (TransferStep::Record, Err(())) => Some("Internal server Error: 7!"@),
    }
}

pub fn transfer_refusal(step: TransferStep, outcome: Result<u64, ()>) -> (r: Option<ResponseStatus>)
    ensures
        r is None <==> transfer_refusal_text(step, outcome) is None,
        r matches Some(s) ==> s.is_failure(transfer_refusal_text(step, outcome)->Some_0),
{
    match (step, outcome) {
        (TransferStep::Begin, Err(())) => Some(ResponseStatus::failed("Internal server Error: 1!")),
        (TransferStep::Commit, Err(())) => Some(ResponseStatus::failed("Internal server Error: 8!")),
        (TransferStep::Begin, Ok(_)) => None,
        (TransferStep::Commit, Ok(_)) => None,
        (TransferStep::Subtract, Ok(0)) => Some(ResponseStatus::failed("Not enouch funds")),
        (TransferStep::Subtract, Ok(1)) => None,
        (TransferStep::Subtract, Ok(_)) => Some(ResponseStatus::failed("Internal server Error: 2!")),
        (TransferStep::Subtract, Err(())) => Some(ResponseStatus::failed("Internal server Error: 3!")),
        (TransferStep::Add, Ok(0)) => Some(ResponseStatus::failed("Receiver not found")),
        (TransferStep::Add, Ok(1)) => None,
        (TransferStep::Add, Ok(_)) => Some(ResponseStatus::failed("Internal server Error: 4!")),
        (TransferStep::Add, Err(())) => Some(ResponseStatus::failed("Internal server Error: 5!")),
        (TransferStep::Record, Ok(0)) => Some(ResponseStatus::failed("Receiver not found")),
        (TransferStep::Record, Ok(1)) => None,
        (TransferStep::Record, Ok(_)) => Some(ResponseStatus::failed("Internal server Error: 6!")),
        (TransferStep::Record, Err(())) => Some(ResponseStatus::failed("Internal server Error: 7!")),
    }
}

} // verus!
