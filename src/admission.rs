//! Admission of a connection into a chat: the session token must name a user
//! and that user must be a member of the chat. The lookups themselves are
//! made by the caller; these functions decide what follows each of them.

use crate::common::IdLookup;
use vstd::prelude::*;

verus! {

/// Outcome of asking whether a user is a member of a chat.
pub enum MembershipLookup {
    Member,
    NotMember,
    Failed,
}

/// What admission concluded.
#[derive(PartialEq, Eq, Structural, Clone, Copy, Debug)]
pub enum AdmissionVerdict {
    Admitted(i32),
    InvalidToken,
    NotMember,
    MembershipCheckFailed,
}

/// What to do after the token lookup.
#[derive(PartialEq, Eq, Structural, Clone, Copy, Debug)]
pub enum AdmissionStep {
    CheckMembership(i32),
    Decided(AdmissionVerdict),
}

pub open spec fn step_after_token(lookup: IdLookup) -> AdmissionStep {
    match lookup {
        IdLookup::Found(user_id) => AdmissionStep::CheckMembership(user_id),
        _ => AdmissionStep::Decided(AdmissionVerdict::InvalidToken),
    }
}

pub open spec fn verdict_after_membership(user_id: i32, lookup: MembershipLookup) -> AdmissionVerdict {
    match lookup {
        MembershipLookup::Member => AdmissionVerdict::Admitted(user_id),
        MembershipLookup::NotMember => AdmissionVerdict::NotMember,
        MembershipLookup::Failed => AdmissionVerdict::MembershipCheckFailed,
    }
}

/// A token that names a user leads to the membership check; a token that
/// names nobody, or whose lookup failed, is refused.
pub fn after_token_lookup(lookup: IdLookup) -> (r: AdmissionStep)
    ensures
        r == step_after_token(lookup),
{
    match lookup {
        IdLookup::Found(user_id) => AdmissionStep::CheckMembership(user_id),
        _ => AdmissionStep::Decided(AdmissionVerdict::InvalidToken),
    }
}

/// A member is admitted; otherwise the verdict says why not.
pub fn after_membership_lookup(user_id: i32, lookup: MembershipLookup) -> (r: AdmissionVerdict)
    ensures
        r == verdict_after_membership(user_id, lookup),
{
    match lookup {
        MembershipLookup::Member => AdmissionVerdict::Admitted(user_id),
        MembershipLookup::NotMember => AdmissionVerdict::NotMember,
        MembershipLookup::Failed => AdmissionVerdict::MembershipCheckFailed,
    }
}


/// The verdict reached from both lookups; the membership lookup only counts
/// when the token named a user.
pub open spec fn admission_verdict(token_lookup: IdLookup, membership: MembershipLookup) -> AdmissionVerdict {
    match step_after_token(token_lookup) {
        AdmissionStep::CheckMembership(user_id) => verdict_after_membership(user_id, membership),
        AdmissionStep::Decided(v) => v,
    }
}

} // verus!
