//! The stream bridge: the decision core of the task that forwards a live
//! sequence of server-sent events, decoded one by one, onto a bounded queue
//! for a separate consumer.
//!
//! The bridge itself is a state machine. The surrounding runtime pulls the
//! next raw event, decodes message payloads and performs the queue sends; it
//! reports each of those results to [`StreamBridge::step`], which answers
//! with the next action to perform. Every decision of the forwarding loop —
//! which events are forwarded, in what order, and on which failure the run
//! stops — is taken here and verified.

use vstd::prelude::*;

use crate::chat::ChatCompletionDelta;

verus! {

/// A raw server-sent event as the transport hands it over: either a data
/// message carrying a text payload, or some other lifecycle signal that the
/// bridge ignores.
#[derive(Clone, Debug, PartialEq, Eq)]
pub enum RawEvent {
    Message { payload: String },
    Other,
}

/// Why a bridge run stopped early. The three failures are mutually
/// exclusive: a run surfaces the first one it meets and ends.
#[derive(Clone, Debug, PartialEq, Eq)]
pub enum BridgeError {
    /// The transport failed while producing the next event.
    Transport { detail: String },
    /// A message payload did not decode to a delta record.
    Decode { detail: String },
    /// The consumer no longer accepts records.
    Delivery,
}

/// The terminal state of a bridge run: a clean end of the source stream, or
/// the first error met.
#[derive(Clone, Debug, PartialEq, Eq)]
pub enum BridgeOutcome {
    Completed,
    Failed { error: BridgeError },
}

/// What the runtime reports back to the bridge: the result of the action the
/// bridge asked for last.
#[derive(Clone, Debug, PartialEq, Eq)]
pub enum BridgeEvent {
    /// The source stream ended cleanly.
    Ended,
    /// The source stream failed while producing the next event.
    TransportFailed { detail: String },
    /// The source stream produced a raw event.
    Arrived { event: RawEvent },
    /// The payload the bridge asked to have decoded yielded this record.
    Decoded { record: ChatCompletionDelta },
    /// The payload the bridge asked to have decoded was malformed.
    DecodeFailed { detail: String },
    /// The record the bridge asked to have sent was accepted by the queue.
    Sent,
    /// The queue no longer accepts records.
    SendFailed,
}

/// What the bridge asks the runtime to do next.
#[derive(Clone, Debug, PartialEq, Eq)]
pub enum BridgeAction {
    /// Await the next raw event from the source.
    Pull,
    /// Decode this message payload into a delta record.
    Decode { payload: String },
    /// Send this record onto the consumer queue.
    Send { record: ChatCompletionDelta },
    /// Stop: release the source and the queue sender, and report this
    /// outcome. No further step may follow.
    Finish { outcome: BridgeOutcome },
}

/// Which action the bridge is waiting on.
#[derive(Clone, Copy, Debug, PartialEq, Eq, Structural)]
pub enum BridgeState {
    /// Waiting for the next raw event.
    Pulling,
    /// Waiting for the decode of the last message payload.
    Decoding,
    /// Waiting for the send of the last decoded record.
    Sending,
    /// The run is over; the outcome went out with the final action.
    Done,
}

/// The full transition relation of the bridge: from the state it is in and
/// the event the runtime reports, to its next state and the action it asks
/// for. `None` marks the reports that the protocol never produces in that
/// state (including any report once the run is `Done`).
pub open spec fn bridge_step(s: BridgeState, ev: BridgeEvent) -> Option<(BridgeState, BridgeAction)> {
    match (s, ev) {
        (BridgeState::Pulling, BridgeEvent::Ended) => Some((
            BridgeState::Done,
            BridgeAction::Finish { outcome: BridgeOutcome::Completed },
        )),
        (BridgeState::Pulling, BridgeEvent::TransportFailed { detail }) => Some((
            BridgeState::Done,
            BridgeAction::Finish {
                outcome: BridgeOutcome::Failed { error: BridgeError::Transport { detail } },
            },
        )),
        (BridgeState::Pulling, BridgeEvent::Arrived { event }) => match event {
            RawEvent::Message { payload } => Some((
                BridgeState::Decoding,
                BridgeAction::Decode { payload },
            )),
            RawEvent::Other => Some((BridgeState::Pulling, BridgeAction::Pull)),
        },
        (BridgeState::Decoding, BridgeEvent::Decoded { record }) => Some((
            BridgeState::Sending,
            BridgeAction::Send { record },
        )),
        (BridgeState::Decoding, BridgeEvent::DecodeFailed { detail }) => Some((
            BridgeState::Done,
            BridgeAction::Finish {
                outcome: BridgeOutcome::Failed { error: BridgeError::Decode { detail } },
            },
        )),
        (BridgeState::Sending, BridgeEvent::Sent) => Some((BridgeState::Pulling, BridgeAction::Pull)),
        (BridgeState::Sending, BridgeEvent::SendFailed) => Some((
            BridgeState::Done,
            BridgeAction::Finish {
                outcome: BridgeOutcome::Failed { error: BridgeError::Delivery },
            },
        )),
        _ => None,
    }
}

/// One bridge run. Create it with [`StreamBridge::new`], then feed it the
/// runtime's reports through [`StreamBridge::step`] and perform the actions
/// it returns, starting from a pull, until it answers `Finish`.
pub struct StreamBridge {
    state: BridgeState,
}

impl StreamBridge {
    /// The state the bridge is in: which action it awaits the result of.
    pub closed spec fn state(self) -> BridgeState {
        self.state
    }

    /// A fresh bridge, about to pull its first event.
    pub fn new() -> (b: StreamBridge)
        ensures
            b.state() == BridgeState::Pulling,
    {
        StreamBridge { state: BridgeState::Pulling }
    }

    /// Take one step: consume the runtime's report of the last action and
    /// answer with the next action, exactly as the transition relation
    /// [`bridge_step`] says.
    pub fn step(&mut self, ev: BridgeEvent) -> (action: BridgeAction)
        requires
            bridge_step(old(self).state(), ev) is Some,
        ensures
            Some((final(self).state(), action)) == bridge_step(old(self).state(), ev),
    {
        match ev {
            BridgeEvent::Ended => {
                self.state = BridgeState::Done;
                BridgeAction::Finish { outcome: BridgeOutcome::Completed }
            }
            BridgeEvent::TransportFailed { detail } => {
                self.state = BridgeState::Done;
                BridgeAction::Finish {
                    outcome: BridgeOutcome::Failed { error: BridgeError::Transport { detail } },
                }
            }
            BridgeEvent::Arrived { event } => match event {
                RawEvent::Message { payload } => {
                    self.state = BridgeState::Decoding;
                    BridgeAction::Decode { payload }
                }
                RawEvent::Other => {
                    self.state = BridgeState::Pulling;
                    BridgeAction::Pull
                }
            },
            BridgeEvent::Decoded { record } => {
                self.state = BridgeState::Sending;
                BridgeAction::Send { record }
            }
            BridgeEvent::DecodeFailed { detail } => {
                self.state = BridgeState::Done;
                BridgeAction::Finish {
                    outcome: BridgeOutcome::Failed { error: BridgeError::Decode { detail } },
                }
            }
            BridgeEvent::Sent => {
                self.state = BridgeState::Pulling;
                BridgeAction::Pull
            }
            BridgeEvent::SendFailed => {
                self.state = BridgeState::Done;
                BridgeAction::Finish {
                    outcome: BridgeOutcome::Failed { error: BridgeError::Delivery },
                }
            }
        }
    }
}

/// One resolved step of a source stream, as the driving loop sees it once
/// the transport has yielded and the payload, if there was one, has been
/// decoded: either a message event paired with what its payload decoded to,
/// a non-message event, or a transport failure in place of an event.
#[derive(Clone, Debug, PartialEq, Eq)]
pub enum FeedItem {
    /// A message event whose payload decoded to `record`.
    Record { payload: String, record: ChatCompletionDelta },
    /// A message event whose payload failed to decode.
    Malformed { payload: String, detail: String },
    /// A non-message lifecycle event.
    Ignored,
    /// A transport failure in place of an event.
    Fault { detail: String },
}

/// The records a bridge run over `feed` delivers to a consumer that accepts
/// the first `accept` sends and then hangs up: the decoded records in source
/// order, up to the first fault, malformed payload or refused send.
pub open spec fn bridged_records(feed: Seq<FeedItem>, accept: nat) -> Seq<ChatCompletionDelta>
    decreases feed.len(),
{
    if feed.len() == 0 {
        Seq::empty()
    } else {
        match feed.first() {
            FeedItem::Ignored => bridged_records(feed.drop_first(), accept),
            FeedItem::Fault { .. } => Seq::empty(),
            FeedItem::Malformed { .. } => Seq::empty(),
            FeedItem::Record { payload, record } => if accept == 0 {
                Seq::empty()
            } else {
                seq![record] + bridged_records(feed.drop_first(), (accept - 1) as nat)
            },
        }
    }
}

/// The outcome of a bridge run over `feed` with a consumer that accepts the
/// first `accept` sends: `Completed` on a clean end of the feed, otherwise
/// the first fault, decode failure or refused send met.
pub open spec fn bridged_outcome(feed: Seq<FeedItem>, accept: nat) -> BridgeOutcome
    decreases feed.len(),
{
    if feed.len() == 0 {
        BridgeOutcome::Completed
    } else {
        match feed.first() {
            FeedItem::Ignored => bridged_outcome(feed.drop_first(), accept),
            FeedItem::Fault { detail } => BridgeOutcome::Failed {
                error: BridgeError::Transport { detail },
            },
            FeedItem::Malformed { detail, .. } => BridgeOutcome::Failed {
                error: BridgeError::Decode { detail },
            },
            FeedItem::Record { .. } => if accept == 0 {
                BridgeOutcome::Failed { error: BridgeError::Delivery }
            } else {
                bridged_outcome(feed.drop_first(), (accept - 1) as nat)
            },
        }
    }
}

/// Replay a fully resolved source feed through a fresh bridge, with a
/// consumer that accepts the first `accept` records and then hangs up.
/// Returns the records the consumer received, in source order, and the
/// outcome of the run — exactly what [`bridged_records`] and
/// [`bridged_outcome`] say of the feed.
#[verifier::loop_isolation(false)]
pub fn run_feed(feed: Vec<FeedItem>, accept: usize) -> (r: (Vec<ChatCompletionDelta>, BridgeOutcome))
    ensures
        r.0@ == bridged_records(feed@, accept as nat),
        r.1 == bridged_outcome(feed@, accept as nat),
{
    let ghost orig = feed@;
    let mut rest = feed;
    let mut bridge = StreamBridge::new();
    let mut delivered: Vec<ChatCompletionDelta> = Vec::new();
    let mut remaining: usize = accept;
    loop
        invariant
            bridge.state() == BridgeState::Pulling,
            bridged_records(orig, accept as nat) == delivered@ + bridged_records(
                rest@,
                remaining as nat,
            ),
            bridged_outcome(orig, accept as nat) == bridged_outcome(rest@, remaining as nat),
        decreases rest@.len(),
    {
        if rest.len() == 0 {
            let action = bridge.step(BridgeEvent::Ended);
            proof {
                assert(delivered@ + bridged_records(rest@, remaining as nat) =~= delivered@);
            }
            match action {
                BridgeAction::Finish { outcome } => {
                    return (delivered, outcome);
                }
                _ => {
                    assert(false);
                }
            }
        }
        let ghost pre = rest@;
        let item = rest.remove(0);
        proof {
            assert(rest@ =~= pre.drop_first());
        }
        match item {
            FeedItem::Ignored => {
                let _ = bridge.step(BridgeEvent::Arrived { event: RawEvent::Other });
            }
            FeedItem::Fault { detail } => {
                let action = bridge.step(BridgeEvent::TransportFailed { detail });
                match action {
                    BridgeAction::Finish { outcome } => {
                        proof {
                            assert(delivered@ + bridged_records(pre, remaining as nat)
                                =~= delivered@);
                        }
                        return (delivered, outcome);
                    }
                    _ => {
                        assert(false);
                    }
                }
            }
            FeedItem::Record { payload, record } => {
                let action = bridge.step(
                    BridgeEvent::Arrived { event: RawEvent::Message { payload } },
                );
                let action = bridge.step(BridgeEvent::Decoded { record });
                match action {
                    BridgeAction::Send { record } => {
                        if remaining == 0 {
                            let action = bridge.step(BridgeEvent::SendFailed);
                            match action {
                                BridgeAction::Finish { outcome } => {
                                    proof {
                                        assert(delivered@ + bridged_records(pre, remaining as nat)
                                            =~= delivered@);
                                    }
                                    return (delivered, outcome);
                                }
                                _ => {
                                    assert(false);
                                }
                            }
                        } else {
                            let ghost delivered_pre = delivered@;
                            delivered.push(record);
                            remaining = remaining - 1;
                            let _ = bridge.step(BridgeEvent::Sent);
                            proof {
                                assert(delivered@ =~= delivered_pre + seq![record]);
                                assert(delivered_pre + (seq![record] + bridged_records(
                                    rest@,
                                    remaining as nat,
                                )) =~= (delivered_pre + seq![record]) + bridged_records(
                                    rest@,
                                    remaining as nat,
                                ));
                            }
                        }
                    }
                    _ => {
                        assert(false);
                    }
                }
            }
            FeedItem::Malformed { payload, detail } => {
                let action = bridge.step(
                    BridgeEvent::Arrived { event: RawEvent::Message { payload } },
                );
                let action = bridge.step(BridgeEvent::DecodeFailed { detail });
                match action {
                    BridgeAction::Finish { outcome } => {
                        proof {
                            assert(delivered@ + bridged_records(pre, remaining as nat)
                                =~= delivered@);
                        }
                        return (delivered, outcome);
                    }
                    _ => {
                        assert(false);
                    }
                }
            }
        }
    }
}

} // verus!
