use mention_watch::classify::classify;
use mention_watch::classify::MentionNotice;
use mention_watch::event::normalize;
use mention_watch::event::EventKind;
use mention_watch::event::MalformedEvent;
use mention_watch::event::RawEvent;
use mention_watch::liveness::is_live;
use mention_watch::matcher::contains_token;
use mention_watch::watchlist::prefix_handles;

fn watch(tokens: &[&str]) -> Vec<String> {
    tokens.iter().map(|t| t.to_string()).collect()
}

fn issue_event(action: &str, body: Option<&str>) -> RawEvent {
    RawEvent::Issue {
        action: action.to_string(),
        author: "ann".to_string(),
        title: "Issue title".to_string(),
        url: "https://example.test/i/1".to_string(),
        body: body.map(|b| b.to_string()),
        created_at: 1_700_000_000,
    }
}

fn expect_notice(r: Result<Option<MentionNotice>, MalformedEvent>) -> MentionNotice {
    match r {
        Ok(Some(n)) => n,
        Ok(None) => panic!("expected a notice, got none"),
        Err(e) => panic!("expected a notice, got error {:?}", e),
    }
}

#[test]
fn matches_finds_a_token() {
    assert!(mention_watch::matcher::matches("please review @alice", &watch(&["@alice"])));
}

#[test]
fn matches_is_false_without_occurrence() {
    assert!(!mention_watch::matcher::matches("please review @bob", &watch(&["@alice"])));
}

#[test]
fn matches_empty_watch_list_is_false() {
    assert!(!mention_watch::matcher::matches("please review @alice", &watch(&[])));
}

#[test]
fn matches_empty_text_is_false() {
    assert!(!mention_watch::matcher::matches("", &watch(&["@alice", "@bob"])));
}

#[test]
fn matches_any_token_suffices() {
    assert!(mention_watch::matcher::matches("cc @bob @carol", &watch(&["@zoe", "@carol"])));
}

#[test]
fn matches_has_no_word_boundary() {
    // A watched handle that is a prefix of a longer handle matches it too.
    assert!(mention_watch::matcher::matches("ping @alice2", &watch(&["@alice"])));
}

#[test]
fn matches_is_case_sensitive() {
    assert!(!mention_watch::matcher::matches("ping @Alice", &watch(&["@alice"])));
}

#[test]
fn contains_token_literal_substring() {
    assert!(contains_token("abcdef", "cde"));
    assert!(!contains_token("abcdef", "cf"));
    assert!(!contains_token("ab", "abc"));
    assert!(contains_token("abc", ""));
}

#[test]
fn liveness_rules_per_variant() {
    let closed = Some("closed".to_string());
    let deleted = Some("deleted".to_string());
    let opened = Some("opened".to_string());
    let edited = Some("edited".to_string());
    assert!(!is_live(EventKind::Issue, &closed));
    assert!(!is_live(EventKind::PullRequest, &closed));
    assert!(!is_live(EventKind::IssueComment, &deleted));
    assert!(is_live(EventKind::Issue, &opened));
    assert!(is_live(EventKind::Issue, &edited));
    assert!(is_live(EventKind::IssueComment, &closed));
    assert!(is_live(EventKind::PullRequest, &opened));
    assert!(is_live(EventKind::PullRequestReview, &None));
    assert!(is_live(EventKind::PullRequestReviewComment, &None));
    assert!(is_live(EventKind::PullRequestReview, &closed));
}

#[test]
fn classify_is_deterministic() {
    let e = issue_event("opened", Some("please review @alice"));
    let wl = watch(&["@alice"]);
    let first = expect_notice(classify(&e, &wl));
    let second = expect_notice(classify(&e, &wl));
    assert_eq!(first.actor, second.actor);
    assert_eq!(first.subject_title, second.subject_title);
    assert_eq!(first.permalink, second.permalink);
    assert_eq!(first.occurred_at, second.occurred_at);
}

#[test]
fn classify_no_match_no_notice() {
    let e = issue_event("opened", Some("nothing to see here"));
    let r = classify(&e, &watch(&["@alice"]));
    assert!(matches!(r, Ok(None)));
}

#[test]
fn classify_absent_body_is_no_match() {
    let e = issue_event("opened", None);
    let r = classify(&e, &watch(&["@alice"]));
    assert!(matches!(r, Ok(None)));
}

#[test]
fn classify_not_live_no_notice_even_with_mention() {
    let e = RawEvent::IssueComment {
        action: "deleted".to_string(),
        issue_title: "Parent".to_string(),
        author: "bob".to_string(),
        url: "https://example.test/c/2".to_string(),
        body: Some("hi @alice".to_string()),
        created_at: 42,
    };
    let r = classify(&e, &watch(&["@alice"]));
    assert!(matches!(r, Ok(None)));
}

#[test]
fn issue_comment_title_comes_from_parent_issue() {
    let e = RawEvent::IssueComment {
        action: "created".to_string(),
        issue_title: "Bug: crash on save".to_string(),
        author: "bob".to_string(),
        url: "https://example.test/c/3".to_string(),
        body: Some("looking at it, cc @alice".to_string()),
        created_at: 43,
    };
    let n = expect_notice(classify(&e, &watch(&["@alice"])));
    assert_eq!(n.subject_title, "Bug: crash on save");
    assert_eq!(n.actor, "bob");
}

#[test]
fn issue_opened_with_mention_produces_notice() {
    let e = issue_event("opened", Some("please review @alice"));
    let n = expect_notice(classify(&e, &watch(&["@alice"])));
    assert_eq!(n.actor, "ann");
    assert_eq!(n.subject_title, "Issue title");
    assert_eq!(n.permalink, "https://example.test/i/1");
    assert_eq!(n.occurred_at, 1_700_000_000);
}

#[test]
fn same_issue_closed_produces_no_notice() {
    let e = issue_event("closed", Some("please review @alice"));
    let r = classify(&e, &watch(&["@alice"]));
    assert!(matches!(r, Ok(None)));
}

#[test]
fn review_with_multi_token_watch_list_matches_any() {
    let e = RawEvent::PullRequestReview {
        author: Some("dan".to_string()),
        pull_request_title: Some("Add parser".to_string()),
        url: "https://example.test/r/4".to_string(),
        body: Some("cc @bob @carol".to_string()),
        submitted_at: Some(44),
    };
    let n = expect_notice(classify(&e, &watch(&["@carol"])));
    assert_eq!(n.actor, "dan");
    assert_eq!(n.subject_title, "Add parser");
}

#[test]
fn pull_request_missing_author_is_malformed() {
    let e = RawEvent::PullRequest {
        action: "opened".to_string(),
        author: None,
        title: Some("T".to_string()),
        url: Some("https://example.test/p/5".to_string()),
        body: Some("hi @alice".to_string()),
        created_at: Some(45),
    };
    let r = classify(&e, &watch(&["@alice"]));
    assert_eq!(r.unwrap_err(), MalformedEvent::MissingAuthor);
}

#[test]
fn pull_request_missing_title_and_permalink_and_time() {
    let base = |title: Option<&str>, url: Option<&str>, ts: Option<i64>| RawEvent::PullRequest {
        action: "opened".to_string(),
        author: Some("ann".to_string()),
        title: title.map(|s| s.to_string()),
        url: url.map(|s| s.to_string()),
        body: None,
        created_at: ts,
    };
    let wl = watch(&["@alice"]);
    assert_eq!(
        classify(&base(None, Some("u"), Some(1)), &wl).unwrap_err(),
        MalformedEvent::MissingTitle
    );
    assert_eq!(
        classify(&base(Some("t"), None, Some(1)), &wl).unwrap_err(),
        MalformedEvent::MissingPermalink
    );
    assert_eq!(
        classify(&base(Some("t"), Some("u"), None), &wl).unwrap_err(),
        MalformedEvent::MissingTimestamp
    );
}

#[test]
fn review_missing_fields_are_malformed() {
    let e = RawEvent::PullRequestReview {
        author: None,
        pull_request_title: Some("T".to_string()),
        url: "u".to_string(),
        body: None,
        submitted_at: Some(1),
    };
    assert_eq!(normalize(&e).unwrap_err(), MalformedEvent::MissingAuthor);
    let e = RawEvent::PullRequestReview {
        author: Some("a".to_string()),
        pull_request_title: None,
        url: "u".to_string(),
        body: None,
        submitted_at: Some(1),
    };
    assert_eq!(normalize(&e).unwrap_err(), MalformedEvent::MissingTitle);
    let e = RawEvent::PullRequestReview {
        author: Some("a".to_string()),
        pull_request_title: Some("T".to_string()),
        url: "u".to_string(),
        body: None,
        submitted_at: None,
    };
    assert_eq!(normalize(&e).unwrap_err(), MalformedEvent::MissingTimestamp);
    let e = RawEvent::PullRequestReviewComment {
        author: "a".to_string(),
        pull_request_title: None,
        url: "u".to_string(),
        body: None,
        created_at: 1,
    };
    assert_eq!(normalize(&e).unwrap_err(), MalformedEvent::MissingTitle);
}

#[test]
fn review_comment_title_comes_from_parent_pull_request() {
    let e = RawEvent::PullRequestReviewComment {
        author: "eve".to_string(),
        pull_request_title: Some("Refactor".to_string()),
        url: "https://example.test/rc/6".to_string(),
        body: Some("nit, @alice?".to_string()),
        created_at: 46,
    };
    let n = expect_notice(classify(&e, &watch(&["@alice"])));
    assert_eq!(n.subject_title, "Refactor");
    assert_eq!(n.actor, "eve");
    assert_eq!(n.occurred_at, 46);
}

#[test]
fn unrecognized_event_is_inert() {
    let r = classify(&RawEvent::Unrecognized, &watch(&["@alice"]));
    assert!(matches!(r, Ok(None)));
}

#[test]
fn prefix_handles_renders_tokens() {
    let logins = vec!["alice".to_string(), "bob".to_string()];
    let tokens = prefix_handles(&logins);
    assert_eq!(tokens, vec!["@alice".to_string(), "@bob".to_string()]);
}
