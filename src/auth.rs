//! Authentication decisions: password verification, session token
//! generation, the bounded retry of token issuing, and the login answer.

use crate::common::IdLookup;
use crate::common_requests::ValidateTokenResponse;
use crate::text::digit_char;
use argon2::password_hash::Error as PasswordHashError;
use argon2::{Argon2, PasswordHash, PasswordVerifier};
use rand::rngs::OsRng;
use rand::TryRngCore;
use vstd::prelude::*;

verus! {

#[verifier::external_type_specification]
#[verifier::external_body]
pub struct ExPasswordHashError(PasswordHashError);

/// Whether a stored hash is a well-formed PHC string.
pub uninterp spec fn phc_well_formed(stored_hash: Seq<char>) -> bool;

/// Whether Argon2 with default parameters accepts `password` against the
/// well-formed PHC string `stored_hash`.
pub uninterp spec fn argon2_accepts(stored_hash: Seq<char>, password: Seq<char>) -> bool;

/// Relies on `PasswordHash::new`, which parses the PHC string and fails
/// exactly when it is not well formed, and on Argon2's
/// `PasswordVerifier::verify_password`, whose success is the answer; both
/// depend on their arguments alone.
#[verifier::external_body]
fn argon2_check(stored_hash: &str, password: &str) -> (r: Result<bool, PasswordHashError>)
    ensures
        r is Err <==> !phc_well_formed(stored_hash@),
        r matches Ok(b) ==> b == argon2_accepts(stored_hash@, password@),
{
    let parsed = PasswordHash::new(stored_hash)?;
    Ok(Argon2::default().verify_password(password.as_bytes(), &parsed).is_ok())
}

/// Checks `password`, peppered, against the stored hash.
pub fn verify_password(stored_hash: &str, password: &str, pepper: &str) -> (r: Result<bool, PasswordHashError>)
    ensures
        r is Err <==> !phc_well_formed(stored_hash@),
        r matches Ok(b) ==> b == argon2_accepts(stored_hash@, password@ + pepper@),
{
    let mut pepper_pass = String::from_str(password);
    pepper_pass.append(pepper);
    argon2_check(stored_hash, pepper_pass.as_str())
}

pub open spec fn hex_digit(n: nat) -> char {
    if n < 10 {
        digit_char(n)
    } else if n == 10 {
        'a'
    } else if n == 11 {
        'b'
    } else if n == 12 {
        'c'
    } else if n == 13 {
        'd'
    } else if n == 14 {
        'e'
    } else {
        'f'
    }
}

/// Lowercase hex text: two digits for each byte, high digit first.
pub open spec fn hex_of(bytes: Seq<u8>) -> Seq<char>
    decreases bytes.len(),
{
    if bytes.len() == 0 {
        Seq::empty()
    } else {
        hex_of(bytes.drop_last()) + seq![hex_digit((bytes.last() / 16) as nat), hex_digit((bytes.last() % 16) as nat)]
    }
}

/// Relies on `hex::encode`: each byte as two lowercase hex digits, in order.
#[verifier::external_body]
fn hex_encode(bytes: &Vec<u8>) -> (r: String)
    ensures
        r@ == hex_of(bytes@),
{
    hex::encode(bytes)
}

pub const TOKEN_BYTES: usize = 32;

/// Relies on `OsRng::try_fill_bytes` (rand): fills the buffer from the
/// operating system's generator, or fails. Nothing is promised of the bytes.
#[verifier::external_body]
fn os_random_bytes() -> (r: Option<Vec<u8>>)
    ensures
        r matches Some(v) ==> v@.len() == TOKEN_BYTES,
{
    let mut buffer = [0u8; TOKEN_BYTES];
    match OsRng.try_fill_bytes(&mut buffer) {
        Ok(()) => Some(buffer.to_vec()),
        Err(_) => None,
    }
}

/// Whether `t` is the text of a session token: the hex of 32 bytes.
pub open spec fn is_token_text(t: Seq<char>) -> bool {
    exists|b: Seq<u8>| b.len() == TOKEN_BYTES && t == hex_of(b)
}

/// A fresh random session token, or `None` when the generator failed.
pub fn generate_token() -> (r: Option<String>)
    ensures
        r matches Some(t) ==> is_token_text(t@),
{
    match os_random_bytes() {
        Some(bytes) => Some(hex_encode(&bytes)),
        None => None,
    }
}

pub const MAX_TOKEN_ATTEMPTS: usize = 8;

/// What the issuer asks for next.
pub enum IssueAction {
    /// Check that no user holds this token yet.
    CheckCollision(String),
    /// Issuing is over, with the token or the reason.
    Finish(Result<String, String>),
}

/// What follows a collision check.
pub enum CollisionStep {
    /// Store this token for the user.
    Store(String),
    /// Draw another token.
    Retry,
    /// Give up with this reason.
    Fail(String),
}

/// Issues a session token for one user, drawing at most
/// `MAX_TOKEN_ATTEMPTS` tokens until one is unused.
pub struct TokenIssuer {
    attempts: usize,
}

impl TokenIssuer {
    pub closed spec fn attempts_spec(&self) -> nat {
        self.attempts as nat
    }

    pub fn new() -> (r: TokenIssuer)
        ensures
            r.attempts_spec() == 0,
    {
        TokenIssuer { attempts: 0 }
    }

    pub fn attempts(&self) -> (r: usize)
        ensures
            r == self.attempts_spec(),
    {
        self.attempts
    }

    /// Draws the next token, unless every attempt is spent.
    pub fn next_token(&mut self) -> (r: IssueAction)
        ensures
            old(self).attempts_spec() >= MAX_TOKEN_ATTEMPTS ==> final(self).attempts_spec() == old(self).attempts_spec()
                && (r matches IssueAction::Finish(Err(e)) && e@ == "No token yielded."@),
            old(self).attempts_spec() < MAX_TOKEN_ATTEMPTS ==> final(self).attempts_spec() == old(self).attempts_spec() + 1
                && ((r matches IssueAction::CheckCollision(t) && is_token_text(t@))
                || (r matches IssueAction::Finish(Err(e)) && e@ == "Token generation failed."@)),
    {
        if self.attempts >= MAX_TOKEN_ATTEMPTS {
            return IssueAction::Finish(Err(String::from_str("No token yielded.")));
        }
        self.attempts = self.attempts + 1;
        match generate_token() {
            Some(t) => IssueAction::CheckCollision(t),
            None => IssueAction::Finish(Err(String::from_str("Token generation failed."))),
        }
    }
}

/// What follows the check whether `token` is already held (`Ok(true)`).
pub fn after_collision_check(token: String, outcome: Result<bool, ()>) -> (r: CollisionStep)
    ensures
        outcome == Ok::<bool, ()>(false) ==> (r matches CollisionStep::Store(t) && t@ == token@),
        outcome == Ok::<bool, ()>(true) ==> r is Retry,
        outcome is Err ==> (r matches CollisionStep::Fail(e) && e@ == "Database error. Token collision."@),
{
    match outcome {
        Ok(false) => CollisionStep::Store(token),
        Ok(true) => CollisionStep::Retry,
        Err(()) => CollisionStep::Fail(String::from_str("Database error. Token collision.")),
    }
}

/// The result of storing `token`, from the number of users updated.
pub fn after_store(token: String, rows_affected: Result<u64, ()>) -> (r: Result<String, String>)
    ensures
        rows_affected == Ok::<u64, ()>(1u64) ==> (r matches Ok(t) && t@ == token@),
        (rows_affected matches Ok(n) && n != 1) ==> (r matches Err(e) && e@ == "Database error. No user for token."@),
        rows_affected is Err ==> (r matches Err(e) && e@ == "Database error. Token update error."@),
{
    match rows_affected {
        Ok(1) => Ok(token),
        Ok(_) => Err(String::from_str("Database error. No user for token.")),
        Err(()) => Err(String::from_str("Database error. Token update error.")),
    }
}

pub struct LoginRequest {
    pub username: String,
    pub password: String,
}

pub struct LoginResponse {
    pub success: bool,
    pub message: String,
    pub token: String,
}

impl LoginResponse {
    pub open spec fn is_refusal(&self, text: Seq<char>) -> bool {
        !self.success && self.message@ == text && self.token@.len() == 0
    }

    pub fn refusal(text: &str) -> (r: LoginResponse)
        ensures
            r.is_refusal(text@),
    {
        LoginResponse { success: false, message: String::from_str(text), token: String::new() }
    }
}

/// What follows the lookup of the user's id and stored hash.
pub enum LoginStep {
    /// The password is right: issue a token for this user.
    IssueToken(i32),
    Reply(LoginResponse),
}

pub fn login_after_lookup(lookup: Result<Option<(i32, String)>, ()>, password: &str, pepper: &str) -> (r: LoginStep)
    ensures
        lookup matches Ok(Some((id, hash))) ==> {
            &&& !phc_well_formed(hash@) ==> (r matches LoginStep::Reply(resp) && resp.is_refusal("Password decodeing error."@))
            &&& (phc_well_formed(hash@) && argon2_accepts(hash@, password@ + pepper@)) ==> r == LoginStep::IssueToken(id)
            &&& (phc_well_formed(hash@) && !argon2_accepts(hash@, password@ + pepper@)) ==> (r matches LoginStep::Reply(resp)
                && resp.is_refusal("Wrong credentials."@))
        },
        lookup == Ok::<Option<(i32, String)>, ()>(None) ==> (r matches LoginStep::Reply(resp) && resp.is_refusal("User not found."@)),
        lookup is Err ==> (r matches LoginStep::Reply(resp) && resp.is_refusal("Login database error."@)),
{
    match lookup {
        Ok(Some((id, hash))) => match verify_password(hash.as_str(), password, pepper) {
            Err(_) => LoginStep::Reply(LoginResponse::refusal("Password decodeing error.")),
            Ok(true) => LoginStep::IssueToken(id),
            Ok(false) => LoginStep::Reply(LoginResponse::refusal("Wrong credentials.")),
        },
        Ok(None) => LoginStep::Reply(LoginResponse::refusal("User not found.")),
        Err(()) => LoginStep::Reply(LoginResponse::refusal("Login database error.")),
    }
}

/// The login answer once token issuing is over.
pub fn login_after_issue(issued: Result<String, String>) -> (r: LoginResponse)
    ensures
        issued matches Ok(t) ==> r.success && r.message@ == "success"@ && r.token@ == t@,
        issued matches Err(e) ==> !r.success && r.message@ == e@ && r.token@.len() == 0,
{
    match issued {
        Ok(token) => LoginResponse { success: true, message: String::from_str("success"), token },
        Err(e) => LoginResponse { success: false, message: e, token: String::new() },
    }
}

/// The authentication service's answer to a token validation request.
pub fn token_check_reply(lookup: IdLookup) -> (r: ValidateTokenResponse)
    ensures
        lookup is Found ==> r.success && r.message@ == "success"@,
        lookup is Missing ==> !r.success && r.message@ == "Token not validated"@,
        lookup is Failed ==> !r.success && r.message@ == "Token validation error."@,
{
    match lookup {
        IdLookup::Found(_) => ValidateTokenResponse { success: true, message: String::from_str("success") },
        IdLookup::Missing => ValidateTokenResponse { success: false, message: String::from_str("Token not validated") },
        IdLookup::Failed => ValidateTokenResponse { success: false, message: String::from_str("Token validation error.") },
    }
}

} // verus!
