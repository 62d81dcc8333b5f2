use mention_watch::classify::MentionNotice;
use mention_watch::dispatch::format_chat_text;
use mention_watch::dispatch::DispatchResult;
use mention_watch::dispatch::Dispatcher;
use mention_watch::dispatch::SinkConfig;
use mention_watch::dispatch::SinkRequest;

fn sample_notice() -> MentionNotice {
    MentionNotice {
        actor: "ann".to_string(),
        subject_title: "Issue title".to_string(),
        permalink: "https://example.test/i/1".to_string(),
        occurred_at: 1_700_000_000,
    }
}

fn two_sinks() -> Vec<SinkConfig> {
    vec![
        SinkConfig::Chat { workspace: "acme".to_string(), channel: "alerts".to_string() },
        SinkConfig::RecordStore {
            token_name: "tok".to_string(),
            base_id: "base".to_string(),
            table_name: "mentions".to_string(),
        },
    ]
}

#[test]
fn chat_text_has_exact_format() {
    let text = format_chat_text(&sample_notice());
    assert_eq!(
        text,
        "ann mentioned people on watch list in Issue title\nhttps://example.test/i/1"
    );
}

#[test]
fn one_failing_sink_does_not_block_the_next() {
    let mut d = Dispatcher::new(sample_notice(), two_sinks());

    // First sink: the chat message is rendered, the attempt fails.
    let first = d.next_request().expect("first sink not offered");
    match &first {
        SinkRequest::ChatMessage { workspace, channel, text } => {
            assert_eq!(workspace.as_str(), "acme");
            assert_eq!(channel.as_str(), "alerts");
            assert_eq!(
                text.as_str(),
                "ann mentioned people on watch list in Issue title\nhttps://example.test/i/1"
            );
        }
        other => panic!("expected a chat message first, got {:?}", kind_of(other)),
    }
    assert!(!d.is_done());
    d.record_outcome(DispatchResult::Failed { reason: "connection refused".to_string() });

    // Second sink: still attempted after the failure.
    let second = d.next_request().expect("second sink not offered after a failure");
    match &second {
        SinkRequest::Record { token_name, base_id, table_name, name, repo, created } => {
            assert_eq!(token_name.as_str(), "tok");
            assert_eq!(base_id.as_str(), "base");
            assert_eq!(table_name.as_str(), "mentions");
            assert_eq!(name.as_str(), "ann");
            assert_eq!(repo.as_str(), "https://example.test/i/1");
            assert_eq!(*created, 1_700_000_000);
        }
        other => panic!("expected a record second, got {:?}", kind_of(other)),
    }
    d.record_outcome(DispatchResult::Delivered);

    assert!(d.is_done());
    assert!(d.next_request().is_none());
    let results = d.into_results();
    assert_eq!(results.len(), 2);
    assert!(!results[0].is_delivered());
    assert!(results[1].is_delivered());
    assert!(matches!(&results[0], DispatchResult::Failed { reason } if reason == "connection refused"));
}

#[test]
fn every_sink_is_attempted_exactly_once() {
    let mut d = Dispatcher::new(sample_notice(), two_sinks());
    let mut attempts = 0;
    while !d.is_done() {
        let req = d.next_request();
        assert!(req.is_some());
        attempts += 1;
        d.record_outcome(DispatchResult::Delivered);
    }
    assert_eq!(attempts, 2);
    assert!(d.next_request().is_none());
    let results = d.into_results();
    assert_eq!(results.len(), 2);
    assert!(results.iter().all(|r| r.is_delivered()));
}

#[test]
fn no_sinks_means_no_results() {
    let d = Dispatcher::new(sample_notice(), Vec::new());
    assert!(d.is_done());
    assert!(d.next_request().is_none());
    assert!(d.into_results().is_empty());
}

fn kind_of(r: &SinkRequest) -> &'static str {
    match r {
        SinkRequest::ChatMessage { .. } => "chat message",
        SinkRequest::Record { .. } => "record",
    }
}
