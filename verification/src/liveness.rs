//! Liveness filter: per-variant rules deciding whether an event's lifecycle
//! action disqualifies it from notification.
//!
//! Edits to since-closed or since-deleted threads must not generate fresh
//! notifications; reviews and review comments, which are rarely undone, are
//! always eligible.

use vstd::prelude::*;

use crate::event::EventKind;
use crate::event::RawEvent;
use crate::event::action_model;
use crate::event::kind_model;

verus! {

/// Whether an event with the given variant tag and lifecycle action is still
/// live: an issue or pull request is live unless its action is "closed", an
/// issue comment unless its action is "deleted", and a review or review
/// comment always. The rule for an unrecognized event is never consulted,
/// since normalization already filters such events out; it is live here.
pub open spec fn spec_is_live(kind: EventKind, action: Option<Seq<char>>) -> bool {
    match kind {
        EventKind::Issue => action != Some("closed"@),
        EventKind::IssueComment => action != Some("deleted"@),
        EventKind::PullRequest => action != Some("closed"@),
        EventKind::PullRequestReview => true,
        EventKind::PullRequestReviewComment => true,
        EventKind::Unrecognized => true,
    }
}

/// Whether the event as a whole is live, under its own variant's rule.
pub open spec fn live_model(e: RawEvent) -> bool {
    spec_is_live(kind_model(e), action_model(e))
}

/// Compare a lifecycle action against a disqualifying action word.
fn action_is(action: &Option<String>, word: &str) -> (r: bool)
    ensures
        r == (match *action {
            Some(a) => a@ == word@,
            None => false,
        }),
{
    match action {
        Some(a) => {
            let w = String::from_str(word);
            *a == w
        },
        None => false,
    }
}

/// Decide liveness for a variant tag and lifecycle action.
pub fn is_live(kind: EventKind, lifecycle_action: &Option<String>) -> (r: bool)
    ensures
        r == spec_is_live(
            kind,
            match *lifecycle_action {
                Some(a) => Some(a@),
                None => None,
            },
        ),
{
    match kind {
        EventKind::Issue => !action_is(lifecycle_action, "closed"),
        EventKind::IssueComment => !action_is(lifecycle_action, "deleted"),
        EventKind::PullRequest => !action_is(lifecycle_action, "closed"),
        EventKind::PullRequestReview => true,
        EventKind::PullRequestReviewComment => true,
        EventKind::Unrecognized => true,
    }
}

/// The liveness rules, variant by variant: a "closed" issue or pull request
/// and a "deleted" issue comment are not live; any other action value is
/// live; reviews and review comments are live whatever their action.
pub proof fn lemma_liveness_rules(action: Seq<char>, any: Option<Seq<char>>)
    ensures
        !spec_is_live(EventKind::Issue, Some("closed"@)),
        !spec_is_live(EventKind::PullRequest, Some("closed"@)),
        !spec_is_live(EventKind::IssueComment, Some("deleted"@)),
        action != "closed"@ ==> spec_is_live(EventKind::Issue, Some(action)),
        action != "closed"@ ==> spec_is_live(EventKind::PullRequest, Some(action)),
        action != "deleted"@ ==> spec_is_live(EventKind::IssueComment, Some(action)),
        spec_is_live(EventKind::PullRequestReview, any),
        spec_is_live(EventKind::PullRequestReviewComment, any),
{
}

} // verus!
