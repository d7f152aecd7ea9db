use openai_chat::bridge::{
    run_feed, BridgeAction, BridgeError, BridgeEvent, BridgeOutcome, FeedItem, RawEvent,
    StreamBridge,
};
use openai_chat::chat::{ChatCompletionChoiceDelta, ChatCompletionDelta, ChatCompletionMessageDelta};

fn fragment(id: &str, content: &str) -> ChatCompletionDelta {
    ChatCompletionDelta {
        id: id.to_string(),
        object: "chat.completion.chunk".to_string(),
        created: 1,
        model: "gpt-3.5-turbo".to_string(),
        choices: vec![ChatCompletionChoiceDelta {
            index: 0,
            finish_reason: None,
            delta: ChatCompletionMessageDelta {
                role: None,
                content: Some(content.to_string()),
                name: None,
            },
        }],
        usage: None,
    }
}

fn record(payload: &str, id: &str, content: &str) -> FeedItem {
    FeedItem::Record {
        payload: payload.to_string(),
        record: fragment(id, content),
    }
}

#[test]
fn empty_feed_completes_with_no_records() {
    let (records, outcome) = run_feed(vec![], 32);
    assert!(records.is_empty());
    assert_eq!(outcome, BridgeOutcome::Completed);
}

#[test]
fn two_fragments_concatenate() {
    let feed = vec![
        record(
            "{\"id\":\"1\",\"object\":\"chat.completion.chunk\",\"created\":1,\"model\":\"gpt-3.5-turbo\",\"choices\":[{\"index\":0,\"delta\":{\"content\":\"Hello\"}}]}",
            "1",
            "Hello",
        ),
        record(
            "{\"id\":\"1\",\"object\":\"chat.completion.chunk\",\"created\":1,\"model\":\"gpt-3.5-turbo\",\"choices\":[{\"index\":0,\"delta\":{\"content\":\"!\"}}]}",
            "1",
            "!",
        ),
    ];
    let (records, outcome) = run_feed(feed, 32);
    assert_eq!(records.len(), 2);
    let mut whole = String::new();
    for r in &records {
        if let Some(piece) = &r.choices[0].delta.content {
            whole.push_str(piece);
        }
    }
    assert_eq!(whole, "Hello!");
    assert_eq!(outcome, BridgeOutcome::Completed);
}

#[test]
fn transport_reset_after_one_record() {
    let feed = vec![
        record("{\"id\":\"1\"}", "1", "Hello"),
        FeedItem::Fault {
            detail: "connection reset".to_string(),
        },
    ];
    let (records, outcome) = run_feed(feed, 32);
    assert_eq!(records.len(), 1);
    assert_eq!(records[0], fragment("1", "Hello"));
    assert_eq!(
        outcome,
        BridgeOutcome::Failed {
            error: BridgeError::Transport {
                detail: "connection reset".to_string()
            }
        }
    );
}

#[test]
fn malformed_payload_stops_after_prior_records() {
    let feed = vec![
        record("p1", "1", "a"),
        record("p2", "1", "b"),
        FeedItem::Malformed {
            payload: "not json".to_string(),
            detail: "expected value".to_string(),
        },
        record("p3", "1", "never"),
    ];
    let (records, outcome) = run_feed(feed, 32);
    assert_eq!(records, vec![fragment("1", "a"), fragment("1", "b")]);
    assert_eq!(
        outcome,
        BridgeOutcome::Failed {
            error: BridgeError::Decode {
                detail: "expected value".to_string()
            }
        }
    );
}

#[test]
fn consumer_hangup_gives_delivery_error() {
    let feed = vec![
        record("p1", "1", "a"),
        record("p2", "1", "b"),
        record("p3", "1", "c"),
    ];
    let (records, outcome) = run_feed(feed, 2);
    assert_eq!(records, vec![fragment("1", "a"), fragment("1", "b")]);
    assert_eq!(
        outcome,
        BridgeOutcome::Failed {
            error: BridgeError::Delivery
        }
    );
}

#[test]
fn other_events_are_invisible() {
    let noisy = vec![
        FeedItem::Ignored,
        record("p1", "1", "a"),
        FeedItem::Ignored,
        FeedItem::Ignored,
        record("p2", "1", "b"),
        FeedItem::Ignored,
    ];
    let plain = vec![record("p1", "1", "a"), record("p2", "1", "b")];
    let (noisy_records, noisy_outcome) = run_feed(noisy, 32);
    let (plain_records, plain_outcome) = run_feed(plain, 32);
    assert_eq!(noisy_records, plain_records);
    assert_eq!(noisy_outcome, plain_outcome);
    assert_eq!(noisy_records.len(), 2);
}

#[test]
fn replay_of_identical_feed_is_identical() {
    let make = || {
        vec![
            record("p1", "1", "a"),
            FeedItem::Ignored,
            record("p2", "1", "b"),
            FeedItem::Malformed {
                payload: "p3".to_string(),
                detail: "bad".to_string(),
            },
        ]
    };
    let first = run_feed(make(), 32);
    let second = run_feed(make(), 32);
    assert_eq!(first.0, second.0);
    assert_eq!(first.1, second.1);
}

#[test]
fn step_machine_follows_the_protocol() {
    let mut bridge = StreamBridge::new();
    let action = bridge.step(BridgeEvent::Arrived {
        event: RawEvent::Other,
    });
    assert_eq!(action, BridgeAction::Pull);
    let action = bridge.step(BridgeEvent::Arrived {
        event: RawEvent::Message {
            payload: "{\"id\":\"1\"}".to_string(),
        },
    });
    assert_eq!(
        action,
        BridgeAction::Decode {
            payload: "{\"id\":\"1\"}".to_string()
        }
    );
    let action = bridge.step(BridgeEvent::Decoded {
        record: fragment("1", "x"),
    });
    assert_eq!(
        action,
        BridgeAction::Send {
            record: fragment("1", "x")
        }
    );
    let action = bridge.step(BridgeEvent::Sent);
    assert_eq!(action, BridgeAction::Pull);
    let action = bridge.step(BridgeEvent::Ended);
    assert_eq!(
        action,
        BridgeAction::Finish {
            outcome: BridgeOutcome::Completed
        }
    );
}

#[test]
fn send_failure_finishes_with_delivery_error() {
    let mut bridge = StreamBridge::new();
    let _ = bridge.step(BridgeEvent::Arrived {
        event: RawEvent::Message {
            payload: "p".to_string(),
        },
    });
    let _ = bridge.step(BridgeEvent::Decoded {
        record: fragment("1", "x"),
    });
    let action = bridge.step(BridgeEvent::SendFailed);
    assert_eq!(
        action,
        BridgeAction::Finish {
            outcome: BridgeOutcome::Failed {
                error: BridgeError::Delivery
            }
        }
    );
}
