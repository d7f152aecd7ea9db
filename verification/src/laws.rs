//! The laws of the bridge: what a whole run delivers, stated over the
//! resolved feed a run consumes and proved from the definitions in
//! [`crate::bridge`].

use vstd::prelude::*;

use crate::bridge::{bridge_step, bridged_outcome, bridged_records, BridgeError, BridgeEvent, BridgeOutcome, BridgeState, FeedItem};
use crate::chat::ChatCompletionDelta;

verus! {

/// The feed holds no transport fault and no malformed payload.
pub open spec fn feed_clean(feed: Seq<FeedItem>) -> bool {
    forall|i: int|
        0 <= i < feed.len() ==> !((#[trigger] feed[i]) is Fault) && !(feed[i] is Malformed)
}

/// The records carried by the feed's message events, in source order.
pub open spec fn records_of(feed: Seq<FeedItem>) -> Seq<ChatCompletionDelta>
    decreases feed.len(),
{
    if feed.len() == 0 {
        Seq::empty()
    } else {
        match feed.first() {
            FeedItem::Record { record, .. } => seq![record] + records_of(feed.drop_first()),
            _ => records_of(feed.drop_first()),
        }
    }
}

/// How many well-formed records the feed's message events carry.
pub open spec fn record_count(feed: Seq<FeedItem>) -> nat {
    records_of(feed).len()
}

proof fn lemma_clean_drop_first(feed: Seq<FeedItem>)
    requires
        feed.len() > 0,
        feed_clean(feed),
    ensures
        feed_clean(feed.drop_first()),
{
    assert forall|i: int|
        0 <= i < feed.drop_first().len() implies !((#[trigger] feed.drop_first()[i]) is Fault)
        && !(feed.drop_first()[i] is Malformed) by {
        assert(feed.drop_first()[i] == feed[i + 1]);
    }
}

/// Law: over a clean feed whose records the consumer all accepts, the bridge
/// delivers exactly the decoded records, in source order, and completes.
pub proof fn lemma_clean_feed_delivered_whole(feed: Seq<FeedItem>, accept: nat)
    requires
        feed_clean(feed),
        record_count(feed) <= accept,
    ensures
        bridged_records(feed, accept) == records_of(feed),
        bridged_outcome(feed, accept) == BridgeOutcome::Completed,
    decreases feed.len(),
{
    if feed.len() == 0 {
        assert(bridged_records(feed, accept) =~= records_of(feed));
    } else {
        lemma_clean_drop_first(feed);
        assert(!(feed[0] is Fault) && !(feed[0] is Malformed));
        match feed.first() {
            FeedItem::Record { .. } => {
                lemma_clean_feed_delivered_whole(feed.drop_first(), (accept - 1) as nat);
            }
            FeedItem::Ignored => {
                lemma_clean_feed_delivered_whole(feed.drop_first(), accept);
            }
            _ => {
                assert(false);
            }
        }
    }
}

/// Law: one malformed payload at position `k`, arriving after a clean prefix
/// whose records the consumer accepts in full, stops the bridge with that
/// payload's decode error, after exactly the records decoded before `k` have
/// been delivered.
pub proof fn lemma_malformed_payload_stops_bridge(
    feed: Seq<FeedItem>,
    accept: nat,
    k: int,
    payload: String,
    detail: String,
)
    requires
        0 <= k < feed.len(),
        feed[k] == (FeedItem::Malformed { payload, detail }),
        feed_clean(feed.take(k)),
        record_count(feed.take(k)) <= accept,
    ensures
        bridged_records(feed, accept) == records_of(feed.take(k)),
        bridged_outcome(feed, accept) == (BridgeOutcome::Failed {
            error: BridgeError::Decode { detail },
        }),
    decreases k,
{
    if k == 0 {
        assert(bridged_records(feed, accept) =~= records_of(feed.take(0)));
    } else {
        let rest = feed.drop_first();
        let prefix = feed.take(k);
        assert(prefix[0] == feed[0]);
        assert(!(feed[0] is Fault) && !(feed[0] is Malformed));
        assert(rest[k - 1] == feed[k]);
        assert(rest.take(k - 1) =~= prefix.drop_first());
        lemma_clean_drop_first(prefix);
        match feed.first() {
            FeedItem::Record { record, .. } => {
                assert(record_count(rest.take(k - 1)) <= accept - 1);
                lemma_malformed_payload_stops_bridge(
                    rest,
                    (accept - 1) as nat,
                    k - 1,
                    payload,
                    detail,
                );
                assert(records_of(prefix) == seq![record] + records_of(rest.take(k - 1)));
            }
            FeedItem::Ignored => {
                lemma_malformed_payload_stops_bridge(rest, accept, k - 1, payload, detail);
                assert(records_of(prefix) == records_of(rest.take(k - 1)));
            }
            _ => {
                assert(false);
            }
        }
    }
}

/// Law: a consumer that hangs up after `accept` records turns a clean feed
/// carrying more records than that into a delivery failure, with exactly the
/// first `accept` records delivered and none attempted past the refused one.
pub proof fn lemma_consumer_hangup_stops_bridge(feed: Seq<FeedItem>, accept: nat)
    requires
        feed_clean(feed),
        record_count(feed) > accept,
    ensures
        bridged_records(feed, accept) == records_of(feed).take(accept as int),
        bridged_outcome(feed, accept) == (BridgeOutcome::Failed { error: BridgeError::Delivery }),
    decreases feed.len(),
{
    assert(feed.len() > 0);
    lemma_clean_drop_first(feed);
    assert(!(feed[0] is Fault) && !(feed[0] is Malformed));
    match feed.first() {
        FeedItem::Record { record, .. } => {
            if accept == 0 {
                assert(bridged_records(feed, accept) =~= records_of(feed).take(0));
            } else {
                lemma_consumer_hangup_stops_bridge(feed.drop_first(), (accept - 1) as nat);
                assert(records_of(feed).take(accept as int) =~= seq![record] + records_of(
                    feed.drop_first(),
                ).take(accept - 1));
            }
        }
        FeedItem::Ignored => {
            lemma_consumer_hangup_stops_bridge(feed.drop_first(), accept);
        }
        _ => {
            assert(false);
        }
    }
}

/// The feed with its non-message events removed.
pub open spec fn scrub(feed: Seq<FeedItem>) -> Seq<FeedItem>
    decreases feed.len(),
{
    if feed.len() == 0 {
        feed
    } else if feed.first() is Ignored {
        scrub(feed.drop_first())
    } else {
        seq![feed.first()] + scrub(feed.drop_first())
    }
}

/// Law: non-message events never appear as records and never change what the
/// surrounding message events produce — the bridge treats a feed and its
/// scrubbed form alike, whatever the consumer does.
pub proof fn lemma_ignored_events_invisible(feed: Seq<FeedItem>, accept: nat)
    ensures
        bridged_records(feed, accept) == bridged_records(scrub(feed), accept),
        bridged_outcome(feed, accept) == bridged_outcome(scrub(feed), accept),
    decreases feed.len(),
{
    if feed.len() == 0 {
    } else {
        let rest = feed.drop_first();
        if feed.first() is Ignored {
            lemma_ignored_events_invisible(rest, accept);
        } else {
            let s = scrub(feed);
            assert(s == seq![feed.first()] + scrub(rest));
            assert(s.len() > 0);
            assert(s.first() == feed.first());
            assert(s.drop_first() =~= scrub(rest));
            match feed.first() {
                FeedItem::Record { .. } => {
                    if accept == 0 {
                    } else {
                        lemma_ignored_events_invisible(rest, (accept - 1) as nat);
                    }
                }
                _ => {}
            }
        }
    }
}

/// Law: a finished bridge takes no further step, whatever the runtime might
/// report: no record is forwarded and no second outcome is produced after
/// the run has ended.
pub proof fn lemma_done_is_final(ev: BridgeEvent)
    ensures
        bridge_step(BridgeState::Done, ev) is None,
{
}

/// Law: the consumer never receives more records than it accepts, whatever
/// the feed holds.
pub proof fn lemma_delivery_bounded(feed: Seq<FeedItem>, accept: nat)
    ensures
        bridged_records(feed, accept).len() <= accept,
    decreases feed.len(),
{
    if feed.len() == 0 {
    } else {
        match feed.first() {
            FeedItem::Ignored => {
                lemma_delivery_bounded(feed.drop_first(), accept);
            }
            FeedItem::Record { .. } => {
                if accept > 0 {
                    lemma_delivery_bounded(feed.drop_first(), (accept - 1) as nat);
                }
            }
            _ => {}
        }
    }
}

/// Law: the bridge is deterministic — replaying an identical resolved feed
/// into a fresh bridge, against a consumer of the same behaviour, yields an
/// identical record sequence and an identical outcome.
pub proof fn lemma_replay_is_deterministic(
    feed: Seq<FeedItem>,
    replay: Seq<FeedItem>,
    accept: nat,
)
    requires
        replay == feed,
    ensures
        bridged_records(replay, accept) == bridged_records(feed, accept),
        bridged_outcome(replay, accept) == bridged_outcome(feed, accept),
{
}

} // verus!
