//! Decisions of the chat request handlers: who may read a chat, what its
//! metadata is, and which failure each step of chat creation reports.
//! A query outcome `Err(())` stands for a failed query.

use crate::admission::AdmissionVerdict;
use crate::common::ResponseStatus;
use crate::text::{decimal, push_decimal};
use vstd::prelude::*;

verus! {

pub struct GetUserChatsRequest {
    pub token: String,
}

pub struct GetChatMetaDataRequest {
    pub token: String,
    pub chat_id: i32,
}

pub struct DirectChatMetaData {
    pub username_a: String,
    pub username_b: String,
}

pub struct GroupChatMetaData {
    pub admin_username: String,
    pub members: Vec<String>,
}

pub enum ChatMetaData {
    Direct(DirectChatMetaData),
    Group(GroupChatMetaData),
}

pub struct GetChatMetaDataResponse {
    pub response_status: ResponseStatus,
    pub chat_meta_data: Option<ChatMetaData>,
}

pub enum GroupMemberUpdate {
    AddMember(String),
    DeleteMember(String),
}

pub struct UpdateGroupChatMemberRequest {
    pub admin_token: String,
    pub chat_id: i32,
    pub update: GroupMemberUpdate,
}

pub struct CreateNewDirectChatRequest {
    pub token: String,
    pub partner_username: String,
    pub first_message: String,
}

pub struct CreateNewDirectChatResponse {
    pub response_status: ResponseStatus,
    pub chat_id: Option<i32>,
}

pub struct CreateNewGroupChatRequest {
    pub token: String,
    pub title: String,
}

pub struct CreateNewGroupChatResponse {
    pub response_status: ResponseStatus,
    pub chat_id: Option<i32>,
}

/// `Internal server error: <n>`.
pub fn internal_error(n: u32) -> (r: ResponseStatus)
    ensures
        r.is_failure("Internal server error: "@ + decimal(n as nat)),
{
    let mut text = String::from_str("Internal server error: ");
    push_decimal(&mut text, n);
    ResponseStatus::fail(text)
}

/// Why a request to read a chat is refused, if it is.
pub fn access_refusal(verdict: AdmissionVerdict) -> (r: Option<ResponseStatus>)
    ensures
        verdict is Admitted <==> r is None,
        verdict is InvalidToken ==> (r matches Some(s) && s.is_failure("Token validation failed"@)),
        verdict is MembershipCheckFailed ==> (r matches Some(s) && s.is_failure("Internal server error: 1"@)),
        verdict is NotMember ==> (r matches Some(s) && s.is_failure("Not a chat member"@)),
{
    match verdict {
        AdmissionVerdict::Admitted(_) => None,
        AdmissionVerdict::InvalidToken => Some(ResponseStatus::failed("Token validation failed")),
        AdmissionVerdict::MembershipCheckFailed => Some(ResponseStatus::failed("Internal server error: 1")),
        AdmissionVerdict::NotMember => Some(ResponseStatus::failed("Not a chat member")),
    }
}

/// Where listing a user's chats stopped.
pub enum UserChatsFailure {
    InvalidToken,
    DirectChatsQuery,
    GroupChatsQuery,
}

pub fn user_chats_refusal(failure: UserChatsFailure) -> (r: ResponseStatus)
    ensures
        failure is InvalidToken ==> r.is_failure("User not validated"@),
        failure is DirectChatsQuery ==> r.is_failure("Internal server error: 1"@),
        failure is GroupChatsQuery ==> r.is_failure("Internal server error: 2"@),
{
    match failure {
        UserChatsFailure::InvalidToken => ResponseStatus::failed("User not validated"),
        UserChatsFailure::DirectChatsQuery => ResponseStatus::failed("Internal server error: 1"),
        UserChatsFailure::GroupChatsQuery => ResponseStatus::failed("Internal server error: 2"),
    }
}

/// The chat history in the order it was written, from the newest-first page
/// that the history query returns.
pub fn history_in_order<T>(newest_first: Vec<T>) -> (r: Vec<T>)
    ensures
        r@ == newest_first@.reverse(),
{
    let mut rest = newest_first;
    let mut out: Vec<T> = Vec::new();
    let ghost whole = rest@;
    while rest.len() > 0
        invariant
            rest@ == whole.take(rest@.len() as int),
            rest@.len() <= whole.len(),
            out@ == whole.skip(rest@.len() as int).reverse(),
        decreases rest@.len(),
    {
        let ghost n = rest@.len();
        let x = rest.pop().unwrap();
        proof {
            assert(whole.take(n - 1) =~= whole.take(n as int).drop_last());
            assert(x == whole[n - 1]);
            assert(whole.skip(n - 1).reverse() =~= whole.skip(n as int).reverse().push(x));
        }
        out.push(x);
    }
    proof {
        assert(whole.skip(0) =~= whole);
    }
    out
}

impl GetChatMetaDataResponse {
    pub fn fail(response_status: ResponseStatus) -> (r: GetChatMetaDataResponse)
        ensures
            r.response_status == response_status,
            r.chat_meta_data is None,
    {
        GetChatMetaDataResponse { response_status, chat_meta_data: None }
    }
}

/// The metadata of a direct chat from its members' usernames: exactly two.
pub fn direct_chat_metadata(users: Result<Vec<String>, ()>) -> (r: GetChatMetaDataResponse)
    ensures
        users is Err ==> r.response_status.is_failure("Internal server error: 3"@) && r.chat_meta_data is None,
        users matches Ok(u) ==> (u.len() != 2 ==> r.response_status.is_failure("Invalid user amount"@) && r.chat_meta_data is None),
        users matches Ok(u) ==> (u.len() == 2 ==> r.response_status.is_success() && (r.chat_meta_data matches Some(ChatMetaData::Direct(d))
            && d.username_a@ == u[0]@ && d.username_b@ == u[1]@)),
{
    match users {
        Err(()) => GetChatMetaDataResponse::fail(ResponseStatus::failed("Internal server error: 3")),
        Ok(u) => {
            if u.len() != 2 {
                GetChatMetaDataResponse::fail(ResponseStatus::failed("Invalid user amount"))
            } else {
                let meta = DirectChatMetaData { username_a: u[0].clone(), username_b: u[1].clone() };
                GetChatMetaDataResponse { response_status: ResponseStatus::success(), chat_meta_data: Some(ChatMetaData::Direct(meta)) }
            }
        },
    }
}

/// The admin's username of a group chat, or the response that ends the request.
pub fn group_chat_admin(admin: Result<Option<String>, ()>) -> (r: Result<String, GetChatMetaDataResponse>)
    ensures
        admin matches Ok(Some(a)) ==> (r matches Ok(n) && n@ == a@),
        admin matches Ok(None) ==> (r matches Err(f) && f.response_status.is_failure("Admin not found"@) && f.chat_meta_data is None),
        admin is Err ==> (r matches Err(f) && f.response_status.is_failure("Internal server error: 4"@) && f.chat_meta_data is None),
{
    match admin {
        Ok(Some(a)) => Ok(a),
        Ok(None) => Err(GetChatMetaDataResponse::fail(ResponseStatus::failed("Admin not found"))),
        Err(()) => Err(GetChatMetaDataResponse::fail(ResponseStatus::failed("Internal server error: 4"))),
    }
}

/// The metadata of a group chat from its admin and its members' usernames.
pub fn group_chat_metadata(admin_username: String, members: Result<Vec<String>, ()>) -> (r: GetChatMetaDataResponse)
    ensures
        members is Err ==> r.response_status.is_failure("Internal server error: 5"@) && r.chat_meta_data is None,
        members matches Ok(m) ==> r.response_status.is_success() && (r.chat_meta_data matches Some(ChatMetaData::Group(g))
            && g.admin_username@ == admin_username@ && g.members@ == m@),
{
    match members {
        Err(()) => GetChatMetaDataResponse::fail(ResponseStatus::failed("Internal server error: 5")),
        Ok(m) => GetChatMetaDataResponse {
            response_status: ResponseStatus::success(),
            chat_meta_data: Some(ChatMetaData::Group(GroupChatMetaData { admin_username, members: m })),
        },
    }
}

/// Whether the requester is the group's admin, from the count of matching
/// groups; the refusal when not.
pub fn admin_refusal(admin_count: Result<i64, ()>) -> (r: Option<ResponseStatus>)
    ensures
        admin_count == Ok::<i64, ()>(0i64) ==> (r matches Some(s) && s.is_failure("Not a group admin"@)),
        admin_count is Err ==> (r matches Some(s) && s.is_failure("Internal server error: 1"@)),
        (admin_count matches Ok(n) && n != 0) ==> r is None,
{
    match admin_count {
        Ok(0) => Some(ResponseStatus::failed("Not a group admin")),
        Err(()) => Some(ResponseStatus::failed("Internal server error: 1")),
        Ok(_) => None,
    }
}

/// The answer to a member update, from whether its statement succeeded.
pub fn member_update_status(update: &GroupMemberUpdate, executed: bool) -> (r: ResponseStatus)
    ensures
        executed ==> r.is_success(),
        (!executed && update is AddMember) ==> r.is_failure("Internal server error: 2"@),
        (!executed && update is DeleteMember) ==> r.is_failure("Internal server error: 3"@),
{
    if executed {
        ResponseStatus::success()
    } else {
        match update {
            GroupMemberUpdate::AddMember(_) => ResponseStatus::failed("Internal server error: 2"),
            GroupMemberUpdate::DeleteMember(_) => ResponseStatus::failed("Internal server error: 3"),
        }
    }
}

impl CreateNewDirectChatResponse {
    pub fn fail(reason: &str) -> (r: CreateNewDirectChatResponse)
        ensures
            r.response_status.is_failure(reason@),
            r.chat_id is None,
    {
        CreateNewDirectChatResponse { response_status: ResponseStatus::failed(reason), chat_id: None }
    }

    pub fn success(chat_id: i32) -> (r: CreateNewDirectChatResponse)
        ensures
            r.response_status.is_success(),
            r.chat_id == Some(chat_id),
    {
        CreateNewDirectChatResponse { response_status: ResponseStatus::success(), chat_id: Some(chat_id) }
    }

    pub fn chat_exists(chat_id: i32) -> (r: CreateNewDirectChatResponse)
        ensures
            r.response_status.is_failure("Direct chat already exsits!"@),
            r.chat_id == Some(chat_id),
    {
        CreateNewDirectChatResponse {
            response_status: ResponseStatus::failed("Direct chat already exsits!"),
            chat_id: Some(chat_id),
        }
    }
}

/// The step at which creating a direct chat stopped.
#[derive(PartialEq, Eq, Structural, Clone, Copy, Debug)]
pub enum DirectChatStep {
    ValidateToken,
    FindPartner,
    BeginTransaction,
    CreateChat,
    AttachUsers,
    AddFirstMessage,
    CreateDirectChat,
    Commit,
}

pub open spec fn direct_chat_step_code(step: DirectChatStep) -> nat {
    match step {
        DirectChatStep::BeginTransaction => 1,
        DirectChatStep::CreateChat => 2,
        DirectChatStep::AttachUsers => 3,
        DirectChatStep::AddFirstMessage => 4,
        _ => 5,
    }
}

/// The response when creating a direct chat fails at `step`.
pub fn direct_chat_failure(step: DirectChatStep) -> (r: CreateNewDirectChatResponse)
    ensures
        r.chat_id is None,
        step is ValidateToken ==> r.response_status.is_failure("Token validation failed"@),
        step is FindPartner ==> r.response_status.is_failure("Partner does not exist"@),
        !(step is ValidateToken) && !(step is FindPartner) ==> r.response_status.is_failure(
            "Internal server error: "@ + decimal(direct_chat_step_code(step)),
        ),
{
    let code: u32 = match step {
        DirectChatStep::ValidateToken => {
            return CreateNewDirectChatResponse::fail("Token validation failed");
        },
        DirectChatStep::FindPartner => {
            return CreateNewDirectChatResponse::fail("Partner does not exist");
        },
        DirectChatStep::BeginTransaction => 1,
        DirectChatStep::CreateChat => 2,
        DirectChatStep::AttachUsers => 3,
        DirectChatStep::AddFirstMessage => 4,
        DirectChatStep::CreateDirectChat => 5,
        DirectChatStep::Commit => 5,
    };
    CreateNewDirectChatResponse { response_status: internal_error(code), chat_id: None }
}

/// The response when a direct chat between the two users already exists,
/// from the lookup of one; creation goes on when there is none, or when the
/// lookup failed.
pub fn existing_direct_chat(found: Result<Option<i32>, ()>) -> (r: Option<CreateNewDirectChatResponse>)
    ensures
        found matches Ok(Some(id)) ==> (r matches Some(resp) && resp.response_status.is_failure("Direct chat already exsits!"@)
            && resp.chat_id == Some(id)),
        !(found matches Ok(Some(_))) ==> r is None,
{
    match found {
        Ok(Some(id)) => Some(CreateNewDirectChatResponse::chat_exists(id)),
        _ => None,
    }
}

/// The step at which creating a group chat stopped.
#[derive(PartialEq, Eq, Structural, Clone, Copy, Debug)]
pub enum GroupChatStep {
    ValidateToken,
    BeginTransaction,
    CreateChat,
    AttachAdmin,
    CreateGroupChat,
    Commit,
}

pub open spec fn group_chat_step_code(step: GroupChatStep) -> nat {
    match step {
        GroupChatStep::BeginTransaction => 1,
        GroupChatStep::CreateChat => 2,
        GroupChatStep::AttachAdmin => 3,
        GroupChatStep::CreateGroupChat => 4,
        _ => 5,
    }
}

impl CreateNewGroupChatResponse {
    pub fn success(chat_id: i32) -> (r: CreateNewGroupChatResponse)
        ensures
            r.response_status.is_success(),
            r.chat_id == Some(chat_id),
    {
        CreateNewGroupChatResponse { response_status: ResponseStatus::success(), chat_id: Some(chat_id) }
    }
}

/// The response when creating a group chat fails at `step`.
pub fn group_chat_failure(step: GroupChatStep) -> (r: CreateNewGroupChatResponse)
    ensures
        r.chat_id is None,
        step is ValidateToken ==> r.response_status.is_failure("Token validation failed"@),
        !(step is ValidateToken) ==> r.response_status.is_failure("Internal server error: "@ + decimal(group_chat_step_code(step))),
{
    let code: u32 = match step {
        GroupChatStep::ValidateToken => {
            return CreateNewGroupChatResponse { response_status: ResponseStatus::failed("Token validation failed"), chat_id: None };
        },
        GroupChatStep::BeginTransaction => 1,
        GroupChatStep::CreateChat => 2,
        GroupChatStep::AttachAdmin => 3,
        GroupChatStep::CreateGroupChat => 4,
        GroupChatStep::Commit => 5,
    };
    CreateNewGroupChatResponse { response_status: internal_error(code), chat_id: None }
}

} // verus!
