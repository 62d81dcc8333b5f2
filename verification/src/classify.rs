//! Mention classifier: composes the normalizer, the liveness filter and the
//! watch-list matcher into a single decision over a raw event.

use vstd::prelude::*;

use crate::event::FieldsModel;
use crate::event::MalformedEvent;
use crate::event::NormalizedFields;
use crate::event::RawEvent;
use crate::event::body_model;
use crate::event::kind_model;
use crate::event::kind_of;
use crate::event::normalize;
use crate::event::normalize_model;
use crate::liveness::is_live;
use crate::liveness::live_model;
use crate::liveness::spec_is_live;
use crate::matcher::spec_matches;

verus! {

/// The canonical output record: a watched identity was referenced in a live
/// event. Constructed only when both liveness and mention conditions hold,
/// never partially populated.
#[derive(Debug)]
pub struct MentionNotice {
    pub actor: String,
    pub subject_title: String,
    pub permalink: String,
    pub occurred_at: i64,
}

/// Mathematical model of a mention notice.
pub struct NoticeModel {
    pub actor: Seq<char>,
    pub subject_title: Seq<char>,
    pub permalink: Seq<char>,
    pub occurred_at: int,
}

/// The model of a mention notice.
pub open spec fn notice_model_of(n: MentionNotice) -> NoticeModel {
    NoticeModel {
        actor: n.actor@,
        subject_title: n.subject_title@,
        permalink: n.permalink@,
        occurred_at: n.occurred_at as int,
    }
}

/// The model of a classification result.
pub open spec fn classify_result_model(
    r: Result<Option<MentionNotice>, MalformedEvent>,
) -> Result<Option<NoticeModel>, MalformedEvent> {
    match r {
        Ok(Some(n)) => Ok(Some(notice_model_of(n))),
        Ok(None) => Ok(None),
        Err(e) => Err(e),
    }
}

/// The notice built from a normalized field set.
pub open spec fn notice_of_fields(f: FieldsModel) -> NoticeModel {
    NoticeModel {
        actor: f.author,
        subject_title: f.title,
        permalink: f.url,
        occurred_at: f.timestamp,
    }
}

/// What classification yields for an event and a watch list: the error of a
/// malformed event; otherwise a notice exactly when the event is recognized,
/// live under its variant's rule, and its body text contains a watched
/// token; nothing in every other case.
pub open spec fn classify_model(e: RawEvent, watch_list: Seq<Seq<char>>) -> Result<
    Option<NoticeModel>,
    MalformedEvent,
> {
    match normalize_model(e) {
        Err(err) => Err(err),
        Ok(None) => Ok(None),
        Ok(Some(f)) => {
            if spec_is_live(kind_model(e), f.lifecycle_action) && spec_matches(
                f.body_text,
                watch_list,
            ) {
                Ok(Some(notice_of_fields(f)))
            } else {
                Ok(None)
            }
        },
    }
}

/// Classify a raw event against a watch list.
///
/// A pure, total decision: normalize the event; if it is unrecognized,
/// produce nothing; if a required structural field is missing, produce the
/// malformed-event error; otherwise produce a notice if and only if the
/// event is live and its body text contains at least one watched token. The
/// notice carries the normalized author, title, permalink and timestamp
/// unchanged.
pub fn classify(event: &RawEvent, watch_list: &Vec<String>) -> (r: Result<
    Option<MentionNotice>,
    MalformedEvent,
>)
    ensures
        classify_result_model(r) == classify_model(*event, watch_list.deep_view()),
{
    match normalize(event) {
        Err(err) => Err(err),
        Ok(None) => Ok(None),
        Ok(Some(f)) => {
            let kind = kind_of(event);
            let live = is_live(kind, &f.lifecycle_action);
            let mentioned = crate::matcher::matches(f.body_text.as_str(), watch_list);
            if live && mentioned {
                Ok(
                    Some(
                        MentionNotice {
                            actor: f.author,
                            subject_title: f.title,
                            permalink: f.url,
                            occurred_at: f.timestamp,
                        },
                    ),
                )
            } else {
                Ok(None)
            }
        },
    }
}

/// Classification is a function of the event and the watch list alone: any
/// two results that meet `classify`'s contract for the same inputs agree.
pub proof fn lemma_classify_deterministic(
    e: RawEvent,
    watch_list: Seq<Seq<char>>,
    r1: Result<Option<MentionNotice>, MalformedEvent>,
    r2: Result<Option<MentionNotice>, MalformedEvent>,
)
    requires
        classify_result_model(r1) == classify_model(e, watch_list),
        classify_result_model(r2) == classify_model(e, watch_list),
    ensures
        classify_result_model(r1) == classify_result_model(r2),
{
}

/// No notice is produced when the event's body text contains no watched
/// token, even for a live, well-formed event.
pub proof fn lemma_no_match_no_notice(e: RawEvent, watch_list: Seq<Seq<char>>)
    requires
        !spec_matches(body_model(e), watch_list),
    ensures
        !(classify_model(e, watch_list) matches Ok(Some(_))),
{
    crate::event::lemma_normalize_body_and_action(e);
}

/// No notice is produced when the event is not live, even when its body
/// text contains a watched token.
pub proof fn lemma_not_live_no_notice(e: RawEvent, watch_list: Seq<Seq<char>>)
    requires
        !live_model(e),
    ensures
        !(classify_model(e, watch_list) matches Ok(Some(_))),
{
    crate::event::lemma_normalize_body_and_action(e);
}

/// Title propagation: a notice produced for an issue-comment event carries
/// the parent issue's title, not any text of the comment itself.
pub proof fn lemma_issue_comment_title_from_parent(e: RawEvent, watch_list: Seq<Seq<char>>)
    ensures
        e matches RawEvent::IssueComment { issue_title, .. } ==> (classify_model(
            e,
            watch_list,
        ) matches Ok(Some(n)) ==> n.subject_title == issue_title@),
{
}

} // verus!
