//! User data decisions.

use crate::text::{i32_to_decimal, signed_decimal};
use vstd::prelude::*;

verus! {

pub struct GetUserDataRequest {
    pub token: String,
}

pub struct GetUserDataResponse {
    pub success: bool,
    pub message: String,
    pub username: String,
    pub personal_number: String,
    pub extra_data: String,
}

pub struct GetAllUsernamesResponse {
    pub success: bool,
    pub message: String,
    pub usernames: Vec<String>,
}

/// A user's row: `extra_data` is the JSON text of the stored value.
pub struct UserDataRecord {
    pub username: String,
    pub personal_number: i32,
    pub extra_data: String,
}

impl GetUserDataResponse {
    pub fn fail(reason: &str) -> (r: GetUserDataResponse)
        ensures
            !r.success,
            r.message@ == reason@,
            r.username@.len() == 0,
            r.personal_number@.len() == 0,
            r.extra_data@.len() == 0,
    {
        GetUserDataResponse {
            success: false,
            message: String::from_str(reason),
            username: String::new(),
            personal_number: String::new(),
            extra_data: String::new(),
        }
    }

    pub fn success(username: String, personal_number: String, extra_data: String) -> (r: GetUserDataResponse)
        ensures
            r.success,
            r.message@ == "success"@,
            r.username@ == username@,
            r.personal_number@ == personal_number@,
            r.extra_data@ == extra_data@,
    {
        GetUserDataResponse { success: true, message: String::from_str("success"), username, personal_number, extra_data }
    }
}

/// The answer to a user data request, from the lookup of the token's user.
pub fn user_data_response(lookup: Result<Option<UserDataRecord>, ()>) -> (r: GetUserDataResponse)
    ensures
        lookup matches Ok(Some(u)) ==> r.success && r.message@ == "success"@ && r.username@ == u.username@
            && r.personal_number@ == signed_decimal(u.personal_number as int) && r.extra_data@ == u.extra_data@,
        lookup matches Ok(None) ==> !r.success && r.message@ == "No user data found."@ && r.username@.len() == 0
            && r.personal_number@.len() == 0 && r.extra_data@.len() == 0,
        lookup is Err ==> !r.success && r.message@ == "No user data found. Server error!"@ && r.username@.len() == 0
            && r.personal_number@.len() == 0 && r.extra_data@.len() == 0,
{
    match lookup {
        Ok(Some(u)) => GetUserDataResponse::success(u.username, i32_to_decimal(u.personal_number), u.extra_data),
        Ok(None) => GetUserDataResponse::fail("No user data found."),
        Err(()) => GetUserDataResponse::fail("No user data found. Server error!"),
    }
}

/// The answer listing every username.
pub fn all_usernames_response(lookup: Result<Vec<String>, ()>) -> (r: GetAllUsernamesResponse)
    ensures
        lookup matches Ok(names) ==> r.success && r.message@ == "success"@ && r.usernames@ == names@,
        lookup is Err ==> !r.success && r.message@ == "No usernames found: Server error!"@ && r.usernames@.len() == 0,
{
    match lookup {
        Ok(usernames) => GetAllUsernamesResponse { success: true, message: String::from_str("success"), usernames },
        Err(()) => GetAllUsernamesResponse {
            success: false,
            message: String::from_str("No usernames found: Server error!"),
            usernames: Vec::new(),
        },
    }
}

} // verus!
