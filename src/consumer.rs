//! Decisions of the upstream consumer: which follow sets it may open a
//! stream with, and what it does with each message the stream yields.
//!
//! The consumer task owns the stream and the stall timer; it feeds each
//! message to [`consumer_step`] and carries out the result.
use crate::backoff::UpstreamError;
use std::collections::HashSet;
use vstd::prelude::*;

verus! {

broadcast use vstd::std_specs::hash::group_hash_axioms;

/// Largest follow set the upstream accepts.
pub const MAX_FOLLOWS: usize = 5000;

/// Silence on the upstream stream, in milliseconds, after which the consumer stops.
pub const UPSTREAM_STALL_MS: u64 = 90_000;

/// What the upstream stream yielded, or failed to.
#[derive(Clone, Copy, Debug, PartialEq, Eq, Structural)]
pub enum UpstreamEvent {
    /// A status by the author `author`.
    Status { author: u64 },
    /// A keepalive.
    Ping,
    /// A notice that the upstream is about to disconnect.
    Disconnect,
    /// Any other administrative message.
    Other,
    /// The stream failed.
    Failed(UpstreamError),
    /// The stream ended.
    Ended,
    /// Nothing arrived within the stall window.
    TimedOut,
}

/// What the consumer does with an event.
#[derive(Clone, Copy, Debug, PartialEq, Eq, Structural)]
pub enum ConsumerStep {
    /// Publish the status to the bus.
    Publish,
    /// Drop it and read on.
    Skip,
    /// Stop with this error.
    Stop(UpstreamError),
}

/// Checks that a follow set can open a stream: it holds between 1 and
/// [`MAX_FOLLOWS`] authors.
pub fn check_follows(follows: &HashSet<u64>) -> (r: Result<(), UpstreamError>)
    ensures
        1 <= follows@.len() <= MAX_FOLLOWS ==> r is Ok,
        !(1 <= follows@.len() <= MAX_FOLLOWS) ==> r == Err::<(), UpstreamError>(
            UpstreamError::InvalidFollowSet(follows@.len() as usize),
        ),
{
    let n = follows.len();
    if 1 <= n && n <= MAX_FOLLOWS {
        Ok(())
    } else {
        Err(UpstreamError::InvalidFollowSet(n))
    }
}

/// What the consumer for `follows` does with `event`: a status is published
/// only when its author is followed (the upstream may send others); pings,
/// disconnect notices and other administrative messages are read past; a
/// failure stops the consumer with that failure, the end of the stream with
/// an unspecific one, silence with a stall.
pub fn consumer_step(follows: &HashSet<u64>, event: UpstreamEvent) -> (r: ConsumerStep)
    ensures
        r == match event {
            UpstreamEvent::Status { author } => if follows@.contains(author) {
                ConsumerStep::Publish
            } else {
                ConsumerStep::Skip
            },
            UpstreamEvent::Ping | UpstreamEvent::Disconnect | UpstreamEvent::Other => ConsumerStep::Skip,
            UpstreamEvent::Failed(e) => ConsumerStep::Stop(e),
            UpstreamEvent::Ended => ConsumerStep::Stop(UpstreamError::Unspecific),
            UpstreamEvent::TimedOut => ConsumerStep::Stop(UpstreamError::Stall),
        },
{
    match event {
        UpstreamEvent::Status { author } => {
            if follows.contains(&author) {
                ConsumerStep::Publish
            } else {
                ConsumerStep::Skip
            }
        },
        UpstreamEvent::Ping => ConsumerStep::Skip,
        UpstreamEvent::Disconnect => ConsumerStep::Skip,
        UpstreamEvent::Other => ConsumerStep::Skip,
        UpstreamEvent::Failed(e) => ConsumerStep::Stop(e),
        UpstreamEvent::Ended => ConsumerStep::Stop(UpstreamError::Unspecific),
        UpstreamEvent::TimedOut => ConsumerStep::Stop(UpstreamError::Stall),
    }
}

} // verus!
