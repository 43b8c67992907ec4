//! News decisions: the feed status, and which failure each step of posting
//! an article reports.

use crate::common::ResponseStatus;
use vstd::prelude::*;

verus! {

pub struct PostNewsArticleRequest {
    pub token: String,
    pub title: String,
    pub content: String,
}

/// The status of a news feed answer, from whether its query succeeded.
pub fn news_feed_status(queried: bool) -> (r: ResponseStatus)
    ensures
        queried ==> r.is_success(),
        !queried ==> r.is_failure("News feed failed to query. Server error!"@),
{
    if queried {
        ResponseStatus::success()
    } else {
        ResponseStatus::failed("News feed failed to query. Server error!")
    }
}

/// The publisher's user id, or the answer that ends the post.
pub fn article_publisher(lookup: Result<Option<i32>, ()>) -> (r: Result<i32, ResponseStatus>)
    ensures
        lookup matches Ok(Some(id)) ==> r == Ok::<i32, ResponseStatus>(id),
        lookup == Ok::<Option<i32>, ()>(None) ==> (r matches Err(s) && s.is_failure("Post publisher not found"@)),
        lookup is Err ==> (r matches Err(s) && s.is_failure("Posting news article publisher identyfication internal server error!"@)),
{
    match lookup {
        Ok(Some(id)) => Ok(id),
        Ok(None) => Err(ResponseStatus::failed("Post publisher not found")),
        Err(()) => Err(ResponseStatus::failed("Posting news article publisher identyfication internal server error!")),
    }
}

/// The steps of the posting transaction.
#[derive(PartialEq, Eq, Structural, Clone, Copy, Debug)]
pub enum PostStep {
    Begin,
    Insert,
    Commit,
}

pub open spec fn post_refusal_text(step: PostStep, outcome: Result<u64, ()>) -> Option<Seq<char>> {
    match (step, outcome) {
        (PostStep::Begin, Err(())) => Some("Posting news internal server Error: 1!"@),
        (PostStep::Commit, Err(())) => Some("Posting news internal server error: 4!"@),
        (PostStep::Begin, Ok(_)) => None,
        (PostStep::Commit, Ok(_)) => None,
        (PostStep::Insert, Ok(0)) => Some("News article failed to post"@),
        (PostStep::Insert, Ok(1)) => None,
        (PostStep::Insert, Ok(_)) => Some("Posting news internal server error: 2!"@),
        (PostStep::Insert, Err(())) => Some("Posting news internal server error: 3!"@),
    }
}

/// Why posting stops after `step` ended with `outcome`; `None` when it goes on.
pub fn post_refusal(step: PostStep, outcome: Result<u64, ()>) -> (r: Option<ResponseStatus>)
    ensures
        r is None <==> post_refusal_text(step, outcome) is None,
        r matches Some(s) ==> s.is_failure(post_refusal_text(step, outcome)->Some_0),
{
    match (step, outcome) {
        (PostStep::Begin, Err(())) => Some(ResponseStatus::failed("Posting news internal server Error: 1!")),
        (PostStep::Commit, Err(())) => Some(ResponseStatus::failed("Posting news internal server error: 4!")),
        (PostStep::Begin, Ok(_)) => None,
        (PostStep::Commit, Ok(_)) => None,
        (PostStep::Insert, Ok(0)) => Some(ResponseStatus::failed("News article failed to post")),
        (PostStep::Insert, Ok(1)) => None,
        (PostStep::Insert, Ok(_)) => Some(ResponseStatus::failed("Posting news internal server error: 2!")),
        (PostStep::Insert, Err(())) => Some(ResponseStatus::failed("Posting news internal server error: 3!")),
    }
}

} // verus!
