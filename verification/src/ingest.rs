//! The ingest step: what the loop over the gateway stream does with
//! each item it yields.
//!
//! A per-message stream error and a close frame are skipped — the
//! loop stays listening — and every forwardable text body becomes one
//! independent forwarding task. Listening is the loop's only state
//! here; draining in-flight tasks before shutdown is the extension
//! point deliberately left to the caller.

use vstd::prelude::*;

use crate::filter::Classification;
use crate::filter::RawMessage;
use crate::filter::classify;
use crate::filter::forwardable_body;

verus! {

/// One item the gateway stream yields to the loop.
pub enum GatewayItem {
    /// The stream failed to yield this message; it is skipped.
    StreamError,
    /// A decoded message.
    Message(RawMessage),
}

/// What the loop does with one item.
pub enum IngestAction {
    /// Keep listening; nothing is spawned.
    Skip,
    /// Spawn one independent forwarding task for this body.
    Spawn(Vec<u8>),
}

/// The body an item has a forwarding task spawned for, if any.
pub open spec fn forward_of(item: GatewayItem) -> Option<Seq<u8>> {
    match item {
        GatewayItem::Message(RawMessage::Text(b)) => if forwardable_body(b@) {
            Some(b@)
        } else {
            None
        },
        _ => None,
    }
}

/// Decide one item: spawn a task exactly for a forwardable text body,
/// handed on byte for byte; skip everything else.
pub fn ingest_step(item: GatewayItem) -> (a: IngestAction)
    ensures
        match a {
            IngestAction::Spawn(b) => forward_of(item) == Some(b@),
            IngestAction::Skip => forward_of(item) is None,
        },
{
    match item {
        GatewayItem::StreamError => IngestAction::Skip,
        GatewayItem::Message(msg) => match classify(msg) {
            Classification::Forwardable(b) => IngestAction::Spawn(b),
            Classification::Suppressed => IngestAction::Skip,
        },
    }
}

/// The bodies a run of items spawns tasks for, in stream order.
pub open spec fn forward_plan(items: Seq<GatewayItem>) -> Seq<Seq<u8>>
    decreases items.len(),
{
    if items.len() == 0 {
        Seq::empty()
    } else {
        let rest = forward_plan(items.drop_last());
        match forward_of(items.last()) {
            Some(b) => rest.push(b),
            None => rest,
        }
    }
}

/// How many of a run of items are forwardable.
pub open spec fn forwardable_count(items: Seq<GatewayItem>) -> nat
    decreases items.len(),
{
    if items.len() == 0 {
        0
    } else {
        forwardable_count(items.drop_last()) + if forward_of(items.last()) is Some {
            1nat
        } else {
            0nat
        }
    }
}

/// Law: every forwardable item spawns its own task — a run of items
/// spawns exactly as many tasks as it has forwardable bodies.
pub proof fn lemma_one_task_per_forwardable(items: Seq<GatewayItem>)
    ensures
        forward_plan(items).len() == forwardable_count(items),
    decreases items.len(),
{
    if items.len() > 0 {
        lemma_one_task_per_forwardable(items.drop_last());
    }
}

/// Replay the ingest step over a run of items: the spawned bodies, in
/// stream order.
pub fn plan_forwards(items: Vec<GatewayItem>) -> (r: Vec<Vec<u8>>)
    ensures
        r@.map_values(|b: Vec<u8>| b@) == forward_plan(items@),
{
    let ghost full = items@;
    let mut rest = items;
    let mut r: Vec<Vec<u8>> = Vec::new();
    let ghost mut done = Seq::<GatewayItem>::empty();
    loop
        invariant
            full == items@,
            full == done + rest@,
            r@.map_values(|b: Vec<u8>| b@) == forward_plan(done),
        decreases rest@.len(),
    {
        if rest.len() == 0 {
            assert(done =~= full);
            return r;
        }
        let ghost prev = rest@;
        let item = rest.remove(0);
        proof {
            assert(prev.first() == item);
            assert(rest@ =~= prev.drop_first());
        }
        match ingest_step(item) {
            IngestAction::Skip => {
                proof {
                    let next = done.push(item);
                    assert(next.drop_last() =~= done);
                    assert(next.last() == item);
                    assert(forward_plan(next) == forward_plan(done));
                }
            },
            IngestAction::Spawn(b) => {
                r.push(b);
                proof {
                    let next = done.push(item);
                    assert(next.drop_last() =~= done);
                    assert(next.last() == item);
                    assert(r@.map_values(|x: Vec<u8>| x@) =~= forward_plan(done).push(b@));
                }
            },
        }
        proof {
            done = done.push(item);
            assert(full =~= done + rest@);
        }
    }
}

} // verus!
