use article_relay::{
    build_payload, classify_message, is_ping_command, is_url_candidate, ordering_key, transition,
    Action, Event, Failure, MessageKind, Outcome, Phase, Relay, Reply,
};

fn decode(payload: &str) -> serde_json::Map<String, serde_json::Value> {
    match serde_json::from_str::<serde_json::Value>(payload) {
        Ok(serde_json::Value::Object(members)) => members,
        other => panic!("not a JSON object: {:?}", other),
    }
}

fn drive(relay: &mut Relay, events: &[Event]) -> Vec<Action> {
    events.iter().map(|e| relay.step(*e)).collect()
}

#[test]
fn url_prefix_is_case_sensitive_and_anchored() {
    assert!(is_url_candidate("http"));
    assert!(is_url_candidate("https://example.com/a"));
    assert!(is_url_candidate("httpfoo"));
    assert!(!is_url_candidate("HTTP://example.com"));
    assert!(!is_url_candidate(" http://example.com"));
    assert!(!is_url_candidate("see http://example.com"));
    assert!(!is_url_candidate("htt"));
    assert!(!is_url_candidate(""));
    assert!(!is_url_candidate("\nhttp"));
}

#[test]
fn ping_is_exact() {
    assert!(is_ping_command("!ping"));
    assert!(!is_ping_command("!ping "));
    assert!(!is_ping_command(" !ping"));
    assert!(!is_ping_command("!PING"));
    assert!(!is_ping_command("!pin"));
    assert!(!is_ping_command(""));
}

#[test]
fn classification() {
    assert_eq!(classify_message("https://example.com/a"), MessageKind::Article);
    assert_eq!(classify_message("httpfoo"), MessageKind::Article);
    assert_eq!(classify_message("!ping"), MessageKind::Ping);
    assert_eq!(classify_message("hello world"), MessageKind::Ignored);
    assert_eq!(classify_message(""), MessageKind::Ignored);
}

#[test]
fn payload_of_example_url() {
    assert_eq!(
        build_payload("https://example.com/a"),
        "{\"article_url\":\"https://example.com/a\"}"
    );
}

#[test]
fn payload_escapes_special_characters() {
    assert_eq!(
        build_payload("http\"x\\y\n\t\u{1}/é"),
        "{\"article_url\":\"http\\\"x\\\\y\\n\\t\\u0001/é\"}"
    );
    assert_eq!(build_payload("http\u{1f}\u{8}\u{c}\r"), "{\"article_url\":\"http\\u001f\\b\\f\\r\"}");
}

#[test]
fn payload_round_trips() {
    for text in ["https://example.com/a", "httpfoo", "http \"quoted\" \\ \n\u{7}\u{7f} ü 🦀", "http"] {
        let members = decode(&build_payload(text));
        assert_eq!(members.len(), 1);
        assert_eq!(members.get("article_url"), Some(&serde_json::Value::String(text.to_string())));
    }
}

#[test]
fn ordering_key_is_fixed() {
    assert_eq!(ordering_key(), "order");
}

#[test]
fn reply_texts() {
    assert_eq!(Reply::Acknowledge.text(), "OK");
    assert_eq!(Reply::Pong.text(), "Pong!");
}

#[test]
fn article_is_published_and_acknowledged() {
    let (mut relay, first) = Relay::start("https://example.com/a", "articles");
    assert_eq!(first, Action::Connect);
    assert_eq!(relay.topic, "articles");
    assert_eq!(relay.payload, "{\"article_url\":\"https://example.com/a\"}");
    let actions = drive(
        &mut relay,
        &[Event::Connected, Event::TopicChecked(true), Event::Published, Event::PublisherStopped, Event::ReplySent],
    );
    assert_eq!(
        actions,
        vec![Action::CheckTopic, Action::Publish, Action::StopPublisher, Action::Send(Reply::Acknowledge), Action::Finish]
    );
    assert_eq!(relay.phase, Phase::Finished(Outcome::Forwarded));
    assert!(relay.is_finished());
}

#[test]
fn prefix_only_text_is_still_published() {
    let (mut relay, first) = Relay::start("httpfoo", "articles");
    assert_eq!(first, Action::Connect);
    assert_eq!(relay.payload, "{\"article_url\":\"httpfoo\"}");
    let actions = drive(
        &mut relay,
        &[Event::Connected, Event::TopicChecked(false), Event::TopicCreated, Event::Published, Event::PublisherStopped, Event::ReplySent],
    );
    assert_eq!(
        actions,
        vec![
            Action::CheckTopic,
            Action::CreateTopic,
            Action::Publish,
            Action::StopPublisher,
            Action::Send(Reply::Acknowledge),
            Action::Finish
        ]
    );
    assert_eq!(actions.iter().filter(|a| **a == Action::Publish).count(), 1);
}

#[test]
fn ping_is_answered_without_publishing() {
    let (mut relay, first) = Relay::start("!ping", "articles");
    assert_eq!(first, Action::Send(Reply::Pong));
    assert_eq!(relay.payload, "");
    assert_eq!(relay.step(Event::ReplySent), Action::Finish);
    assert_eq!(relay.phase, Phase::Finished(Outcome::Answered));
}

#[test]
fn plain_text_is_ignored() {
    let (mut relay, first) = Relay::start("hello world", "articles");
    assert_eq!(first, Action::Finish);
    assert_eq!(relay.phase, Phase::Finished(Outcome::Ignored));
    assert!(relay.is_finished());
    let actions = drive(&mut relay, &[Event::Connected, Event::Published, Event::ReplySent]);
    assert_eq!(actions, vec![Action::Nothing, Action::Nothing, Action::Nothing]);
}

#[test]
fn existing_topic_is_not_created_twice() {
    for _ in 0..2 {
        let (mut relay, _) = Relay::start("https://example.com/a", "articles");
        relay.step(Event::Connected);
        assert_eq!(relay.step(Event::TopicChecked(true)), Action::Publish);
        assert_eq!(relay.phase, Phase::Publishing);
    }
}

#[test]
fn failures_are_reported_without_reply() {
    let cases = [
        (vec![Event::ConnectFailed], Failure::Connection),
        (vec![Event::Connected, Event::TopicCheckFailed], Failure::TopicCheck),
        (vec![Event::Connected, Event::TopicChecked(false), Event::TopicCreateFailed], Failure::TopicCreation),
        (vec![Event::Connected, Event::TopicChecked(true), Event::PublishFailed], Failure::Publish),
    ];
    for (events, failure) in cases {
        let (mut relay, _) = Relay::start("https://example.com/a", "articles");
        let actions = drive(&mut relay, &events);
        assert_eq!(actions.last(), Some(&Action::Report(failure)));
        assert_eq!(relay.phase, Phase::Finished(Outcome::Failed(failure)));
        assert!(!actions.iter().any(|a| matches!(a, Action::Send(_))));
    }
}

#[test]
fn reply_failure_is_only_reported() {
    let (mut relay, _) = Relay::start("https://example.com/a", "articles");
    drive(&mut relay, &[Event::Connected, Event::TopicChecked(true), Event::Published, Event::PublisherStopped]);
    assert_eq!(relay.step(Event::ReplyFailed), Action::ReportReply(Reply::Acknowledge));
    assert_eq!(relay.phase, Phase::Finished(Outcome::ReplyFailed(Reply::Acknowledge)));
    assert_eq!(relay.step(Event::ReplySent), Action::Nothing);
}

#[test]
fn out_of_place_events_change_nothing() {
    assert_eq!(transition(Phase::Connecting, Event::Published), (Phase::Connecting, Action::Nothing));
    assert_eq!(transition(Phase::Publishing, Event::TopicCreated), (Phase::Publishing, Action::Nothing));
    assert_eq!(
        transition(Phase::StoppingPublisher, Event::PublisherStopped),
        (Phase::Replying(Reply::Acknowledge), Action::Send(Reply::Acknowledge))
    );
}
