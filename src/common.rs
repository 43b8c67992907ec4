//! Response status shared by every service, and the decisions that turn a
//! token or username lookup into a response.

use vstd::prelude::*;

verus! {

/// Outcome of a lookup that returns at most one user id.
#[derive(PartialEq, Eq, Structural, Clone, Copy, Debug)]
pub enum IdLookup {
    Found(i32),
    Missing,
    Failed,
}

pub struct ResponseStatus {
    pub success: bool,
    pub status_message: String,
}

impl ResponseStatus {
    pub fn fail(reason: String) -> (r: ResponseStatus)
        ensures
            !r.success,
            r.status_message@ == reason@,
    {
        ResponseStatus { success: false, status_message: reason }
    }

    pub fn success() -> (r: ResponseStatus)
        ensures
            r.success,
            r.status_message@ == "Success"@,
    {
        ResponseStatus { success: true, status_message: String::from_str("Success") }
    }

    /// A failed status with the given text.
    pub fn failed(reason: &str) -> (r: ResponseStatus)
        ensures
            !r.success,
            r.status_message@ == reason@,
    {
        ResponseStatus::fail(String::from_str(reason))
    }

    /// Whether this status is the failure with the given text.
    pub open spec fn is_failure(&self, text: Seq<char>) -> bool {
        !self.success && self.status_message@ == text
    }

    /// Whether this status is the success status.
    pub open spec fn is_success(&self) -> bool {
        self.success && self.status_message@ == "Success"@
    }
}

pub struct ValidateTokenRequest {
    pub token: String,
}

pub struct ValidateTokenResponse {
    pub response_status: ResponseStatus,
    pub id: Option<i32>,
}

/// The response to a token validation: the user id when the token names a user.
pub fn token_validation_response(lookup: IdLookup) -> (r: ValidateTokenResponse)
    ensures
        lookup matches IdLookup::Found(id) ==> r.response_status.is_success() && r.id == Some(id),
        lookup is Missing ==> r.response_status.is_failure("Token not validated"@) && r.id is None,
        lookup is Failed ==> r.response_status.is_failure("Token validation server internal error."@) && r.id is None,
{
    match lookup {
        IdLookup::Found(id) => ValidateTokenResponse { response_status: ResponseStatus::success(), id: Some(id) },
        IdLookup::Missing => ValidateTokenResponse {
            response_status: ResponseStatus::failed("Token not validated"),
            id: None,
        },
        IdLookup::Failed => ValidateTokenResponse {
            response_status: ResponseStatus::failed("Token validation server internal error."),
            id: None,
        },
    }
}

/// The response to a lookup of a user id by username.
pub fn user_id_lookup_response(lookup: IdLookup) -> (r: ValidateTokenResponse)
    ensures
        lookup matches IdLookup::Found(id) ==> r.response_status.is_success() && r.id == Some(id),
        lookup is Missing ==> r.response_status.is_failure("User not found"@) && r.id is None,
        lookup is Failed ==> r.response_status.is_failure("User not found internal server error"@) && r.id is None,
{
    match lookup {
        IdLookup::Found(id) => ValidateTokenResponse { response_status: ResponseStatus::success(), id: Some(id) },
        IdLookup::Missing => ValidateTokenResponse { response_status: ResponseStatus::failed("User not found"), id: None },
        IdLookup::Failed => ValidateTokenResponse {
            response_status: ResponseStatus::failed("User not found internal server error"),
            id: None,
        },
    }
}

/// The user a validation response names: its id when it succeeded.
pub fn validated_user(r: &ValidateTokenResponse) -> (u: Option<i32>)
    ensures
        u == (if r.response_status.success { r.id } else { None }),
{
    if r.response_status.success {
        r.id
    } else {
        None
    }
}

} // verus!
