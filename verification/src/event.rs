//! Raw collaboration events and their normalization to a common field set.
//!
//! A raw event is a closed tagged union over the five supported variants plus
//! an unrecognized catch-all. Normalization extracts the common
//! (author, title, url, body text, timestamp, lifecycle action) tuple with
//! variant-specific fallbacks: a missing body degrades to the empty string,
//! while a missing structural field (author, title, permalink, timestamp) on
//! a variant where it is required is a malformed-event error.

use vstd::prelude::*;

verus! {

/// A tagged inbound event, carrying the provider's native fields.
///
/// Optional fields mirror the wire format: a field is an `Option` exactly
/// where the provider may omit it. Comment and review variants carry the
/// *parent* thread's title, since a comment has no title of its own.
#[allow(inconsistent_fields)]
pub enum RawEvent {
    Issue {
        action: String,
        author: String,
        title: String,
        url: String,
        body: Option<String>,
        created_at: i64,
    },
    IssueComment {
        action: String,
        issue_title: String,
        author: String,
        url: String,
        body: Option<String>,
        created_at: i64,
    },
    PullRequest {
        action: String,
        author: Option<String>,
        title: Option<String>,
        url: Option<String>,
        body: Option<String>,
        created_at: Option<i64>,
    },
    PullRequestReview {
        author: Option<String>,
        pull_request_title: Option<String>,
        url: String,
        body: Option<String>,
        submitted_at: Option<i64>,
    },
    PullRequestReviewComment {
        author: String,
        pull_request_title: Option<String>,
        url: String,
        body: Option<String>,
        created_at: i64,
    },
    Unrecognized,
}

/// The variant tag of an event, used by the liveness rules.
#[derive(Clone, Copy, PartialEq, Eq, Structural, Debug)]
pub enum EventKind {
    Issue,
    IssueComment,
    PullRequest,
    PullRequestReview,
    PullRequestReviewComment,
    Unrecognized,
}

/// A required structural field was absent on a variant where it is
/// mandatory. Processing of that single event is aborted; no notice with
/// silently empty fields is ever produced.
#[derive(Clone, Copy, PartialEq, Eq, Structural, Debug)]
pub enum MalformedEvent {
    MissingAuthor,
    MissingTitle,
    MissingPermalink,
    MissingTimestamp,
}

/// The common field set extracted from a recognized event.
#[derive(Debug)]
pub struct NormalizedFields {
    pub author: String,
    pub title: String,
    pub url: String,
    pub body_text: String,
    pub timestamp: i64,
    pub lifecycle_action: Option<String>,
}

/// Mathematical model of a normalized field set.
pub struct FieldsModel {
    pub author: Seq<char>,
    pub title: Seq<char>,
    pub url: Seq<char>,
    pub body_text: Seq<char>,
    pub timestamp: int,
    pub lifecycle_action: Option<Seq<char>>,
}

/// The view of an optional body: absent degrades to the empty string.
pub open spec fn body_view(body: Option<String>) -> Seq<char> {
    match body {
        Some(s) => s@,
        None => Seq::<char>::empty(),
    }
}

/// The model of a normalized field set.
pub open spec fn fields_model_of(f: NormalizedFields) -> FieldsModel {
    FieldsModel {
        author: f.author@,
        title: f.title@,
        url: f.url@,
        body_text: f.body_text@,
        timestamp: f.timestamp as int,
        lifecycle_action: match f.lifecycle_action {
            Some(a) => Some(a@),
            None => None,
        },
    }
}

/// The variant tag of an event.
pub open spec fn kind_model(e: RawEvent) -> EventKind {
    match e {
        RawEvent::Issue { .. } => EventKind::Issue,
        RawEvent::IssueComment { .. } => EventKind::IssueComment,
        RawEvent::PullRequest { .. } => EventKind::PullRequest,
        RawEvent::PullRequestReview { .. } => EventKind::PullRequestReview,
        RawEvent::PullRequestReviewComment { .. } => EventKind::PullRequestReviewComment,
        RawEvent::Unrecognized => EventKind::Unrecognized,
    }
}

/// The free text searched for mentions: the event's body, empty when the
/// body is absent or the event is unrecognized.
pub open spec fn body_model(e: RawEvent) -> Seq<char> {
    match e {
        RawEvent::Issue { body, .. } => body_view(body),
        RawEvent::IssueComment { body, .. } => body_view(body),
        RawEvent::PullRequest { body, .. } => body_view(body),
        RawEvent::PullRequestReview { body, .. } => body_view(body),
        RawEvent::PullRequestReviewComment { body, .. } => body_view(body),
        RawEvent::Unrecognized => Seq::<char>::empty(),
    }
}

/// The lifecycle action of an event: the action field on issue and
/// pull-request variants, none on review variants, which have no closing or
/// deletion state to filter.
pub open spec fn action_model(e: RawEvent) -> Option<Seq<char>> {
    match e {
        RawEvent::Issue { action, .. } => Some(action@),
        RawEvent::IssueComment { action, .. } => Some(action@),
        RawEvent::PullRequest { action, .. } => Some(action@),
        RawEvent::PullRequestReview { .. } => None,
        RawEvent::PullRequestReviewComment { .. } => None,
        RawEvent::Unrecognized => None,
    }
}

/// What normalization yields: the field set of a recognized, well-formed
/// event; nothing for an unrecognized event; the first missing required
/// structural field otherwise, checked in the order author, title,
/// permalink, timestamp.
pub open spec fn normalize_model(e: RawEvent) -> Result<Option<FieldsModel>, MalformedEvent> {
    match e {
        RawEvent::Issue { action, author, title, url, body, created_at } => Ok(
            Some(
                FieldsModel {
                    author: author@,
                    title: title@,
                    url: url@,
                    body_text: body_view(body),
                    timestamp: created_at as int,
                    lifecycle_action: Some(action@),
                },
            ),
        ),
        RawEvent::IssueComment { action, issue_title, author, url, body, created_at } => Ok(
            Some(
                FieldsModel {
                    author: author@,
                    title: issue_title@,
                    url: url@,
                    body_text: body_view(body),
                    timestamp: created_at as int,
                    lifecycle_action: Some(action@),
                },
            ),
        ),
        RawEvent::PullRequest { action, author, title, url, body, created_at } => {
            if author is None {
                Err(MalformedEvent::MissingAuthor)
            } else if title is None {
                Err(MalformedEvent::MissingTitle)
            } else if url is None {
                Err(MalformedEvent::MissingPermalink)
            } else if created_at is None {
                Err(MalformedEvent::MissingTimestamp)
            } else {
                Ok(
                    Some(
                        FieldsModel {
                            author: author->0@,
                            title: title->0@,
                            url: url->0@,
                            body_text: body_view(body),
                            timestamp: created_at->0 as int,
                            lifecycle_action: Some(action@),
                        },
                    ),
                )
            }
        },
        RawEvent::PullRequestReview { author, pull_request_title, url, body, submitted_at } => {
            if author is None {
                Err(MalformedEvent::MissingAuthor)
            } else if pull_request_title is None {
                Err(MalformedEvent::MissingTitle)
            } else if submitted_at is None {
                Err(MalformedEvent::MissingTimestamp)
            } else {
                Ok(
                    Some(
                        FieldsModel {
                            author: author->0@,
                            title: pull_request_title->0@,
                            url: url@,
                            body_text: body_view(body),
                            timestamp: submitted_at->0 as int,
                            lifecycle_action: None,
                        },
                    ),
                )
            }
        },
        RawEvent::PullRequestReviewComment { author, pull_request_title, url, body, created_at } => {
            if pull_request_title is None {
                Err(MalformedEvent::MissingTitle)
            } else {
                Ok(
                    Some(
                        FieldsModel {
                            author: author@,
                            title: pull_request_title->0@,
                            url: url@,
                            body_text: body_view(body),
                            timestamp: created_at as int,
                            lifecycle_action: None,
                        },
                    ),
                )
            }
        },
        RawEvent::Unrecognized => Ok(None),
    }
}

/// The model of a normalization result.
pub open spec fn normalize_result_model(
    r: Result<Option<NormalizedFields>, MalformedEvent>,
) -> Result<Option<FieldsModel>, MalformedEvent> {
    match r {
        Ok(Some(f)) => Ok(Some(fields_model_of(f))),
        Ok(None) => Ok(None),
        Err(e) => Err(e),
    }
}

/// The body of an event, with an absent body degraded to the empty string.
fn body_or_empty(body: &Option<String>) -> (r: String)
    ensures
        r@ == body_view(*body),
{
    match body {
        Some(s) => s.clone(),
        None => String::new(),
    }
}

/// The variant tag of an event.
pub fn kind_of(event: &RawEvent) -> (k: EventKind)
    ensures
        k == kind_model(*event),
{
    match event {
        RawEvent::Issue { .. } => EventKind::Issue,
        RawEvent::IssueComment { .. } => EventKind::IssueComment,
        RawEvent::PullRequest { .. } => EventKind::PullRequest,
        RawEvent::PullRequestReview { .. } => EventKind::PullRequestReview,
        RawEvent::PullRequestReviewComment { .. } => EventKind::PullRequestReviewComment,
        RawEvent::Unrecognized => EventKind::Unrecognized,
    }
}

/// Normalize an event to the common field set.
///
/// Yields nothing for an unrecognized event, the common fields for a
/// well-formed recognized one, and the first missing required structural
/// field otherwise. Issue and issue-comment events are always well formed:
/// every field the notice needs is mandatory on their wire format. A
/// pull-request event requires author, title, permalink and creation time; a
/// review event requires its author, the parent title and the submission
/// time; a review comment requires the parent title.
pub fn normalize(event: &RawEvent) -> (r: Result<Option<NormalizedFields>, MalformedEvent>)
    ensures
        normalize_result_model(r) == normalize_model(*event),
{
    match event {
        RawEvent::Issue { action, author, title, url, body, created_at } => Ok(
            Some(
                NormalizedFields {
                    author: author.clone(),
                    title: title.clone(),
                    url: url.clone(),
                    body_text: body_or_empty(body),
                    timestamp: *created_at,
                    lifecycle_action: Some(action.clone()),
                },
            ),
        ),
        RawEvent::IssueComment { action, issue_title, author, url, body, created_at } => Ok(
            Some(
                NormalizedFields {
                    author: author.clone(),
                    title: issue_title.clone(),
                    url: url.clone(),
                    body_text: body_or_empty(body),
                    timestamp: *created_at,
                    lifecycle_action: Some(action.clone()),
                },
            ),
        ),
        RawEvent::PullRequest { action, author, title, url, body, created_at } => {
            match (author, title, url, created_at) {
                (None, _, _, _) => Err(MalformedEvent::MissingAuthor),
                (Some(_), None, _, _) => Err(MalformedEvent::MissingTitle),
                (Some(_), Some(_), None, _) => Err(MalformedEvent::MissingPermalink),
                (Some(_), Some(_), Some(_), None) => Err(MalformedEvent::MissingTimestamp),
                (Some(a), Some(t), Some(u), Some(ts)) => Ok(
                    Some(
                        NormalizedFields {
                            author: a.clone(),
                            title: t.clone(),
                            url: u.clone(),
                            body_text: body_or_empty(body),
                            timestamp: *ts,
                            lifecycle_action: Some(action.clone()),
                        },
                    ),
                ),
            }
        },
        RawEvent::PullRequestReview { author, pull_request_title, url, body, submitted_at } => {
            match (author, pull_request_title, submitted_at) {
                (None, _, _) => Err(MalformedEvent::MissingAuthor),
                (Some(_), None, _) => Err(MalformedEvent::MissingTitle),
                (Some(_), Some(_), None) => Err(MalformedEvent::MissingTimestamp),
                (Some(a), Some(t), Some(ts)) => Ok(
                    Some(
                        NormalizedFields {
                            author: a.clone(),
                            title: t.clone(),
                            url: url.clone(),
                            body_text: body_or_empty(body),
                            timestamp: *ts,
                            lifecycle_action: None,
                        },
                    ),
                ),
            }
        },
        RawEvent::PullRequestReviewComment {
            author,
            pull_request_title,
            url,
            body,
            created_at,
        } => {
            match pull_request_title {
                None => Err(MalformedEvent::MissingTitle),
                Some(t) => Ok(
                    Some(
                        NormalizedFields {
                            author: author.clone(),
                            title: t.clone(),
                            url: url.clone(),
                            body_text: body_or_empty(body),
                            timestamp: *created_at,
                            lifecycle_action: None,
                        },
                    ),
                ),
            }
        },
        RawEvent::Unrecognized => Ok(None),
    }
}

/// On a well-formed event, the normalized body text is the event's body and
/// the normalized lifecycle action is the event's action.
pub proof fn lemma_normalize_body_and_action(e: RawEvent)
    ensures
        normalize_model(e) matches Ok(Some(f)) ==> f.body_text == body_model(e)
            && f.lifecycle_action == action_model(e),
{
}

} // verus!
