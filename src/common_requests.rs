//! The token validation answer that services give to other services.

use crate::common::IdLookup;
use vstd::prelude::*;

verus! {

pub struct ValidateTokenRequest {
    pub token: String,
}

pub struct ValidateTokenResponse {
    pub success: bool,
    pub message: String,
}

/// The answer to a validation request: success exactly when the token names a user.
pub fn validation_reply(lookup: IdLookup) -> (r: ValidateTokenResponse)
    ensures
        lookup is Found ==> r.success && r.message@ == "success"@,
        lookup is Missing ==> !r.success && r.message@ == "Token not validated"@,
        lookup is Failed ==> !r.success && r.message@ == "Token validation server internal error."@,
{
    match lookup {
        IdLookup::Found(_) => ValidateTokenResponse { success: true, message: String::from_str("success") },
        IdLookup::Missing => ValidateTokenResponse { success: false, message: String::from_str("Token not validated") },
        IdLookup::Failed => ValidateTokenResponse {
            success: false,
            message: String::from_str("Token validation server internal error."),
        },
    }
}

} // verus!
