//! Decisions of the upstream supervisor: the single writer of the interest
//! map, which debounces interest changes into restarts, runs at most one
//! upstream consumer and backs off after failures.
//!
//! The surrounding event loop owns the timer and the consumer task; it feeds
//! each event to a [`Supervisor`] and carries out the returned action.
use crate::backoff::{delay_ms, inspect_error, kind_of, next_backoff, ErrorKind, UpstreamError};
use crate::sets::copy_set;
use crate::interest::{after_delta, drops_author, introduces_author, InterestMap};
use std::collections::HashSet;
use vstd::prelude::*;

verus! {

/// Debounce delay, in milliseconds, between an interest change and the restart it asks for.
pub const RESTART_DELAY_MS: u64 = 10_000;

/// What the event loop must do after the supervisor handled an event.
#[derive(Debug)]
pub enum SupervisorAction {
    /// Nothing.
    Wait,
    /// Arm the restart timer to fire after `delay_ms` milliseconds, replacing
    /// any timer that is armed.
    ScheduleRestart { delay_ms: u64 },
    /// Cancel the running consumer, if any, and start a new one that follows
    /// exactly `follows`.
    StartConsumer { follows: HashSet<u64> },
    /// Cancel the running consumer and stay idle.
    StopConsumer,
}

/// Whether a delta that took the map from `before` to `after` asks for a restart.
pub open spec fn restart_required(
    before: Map<u64, Set<u64>>,
    cid: u64,
    follows: Set<u64>,
    consumer_running: bool,
    always_restart: bool,
) -> bool {
    ||| introduces_author(before, follows)
    ||| (consumer_running && after_delta(before, cid, follows).dom() == Set::<u64>::empty())
    ||| (always_restart && drops_author(before, cid, follows))
}

/// State of the upstream supervisor.
pub struct Supervisor {
    interests: InterestMap,
    backing_off: bool,
    backoff: u32,
    restart_scheduled: bool,
    consumer: Option<HashSet<u64>>,
    always_restart: bool,
}

impl Supervisor {
    /// The interest map: for each followed author, the clients that want it.
    pub closed spec fn interests(&self) -> Map<u64, Set<u64>> {
        self.interests@
    }

    /// Whether the armed restart was scheduled by a failure.
    pub closed spec fn backing_off(&self) -> bool {
        self.backing_off
    }

    /// The backoff exponent.
    pub closed spec fn backoff(&self) -> u32 {
        self.backoff
    }

    /// Whether a restart timer is armed.
    pub closed spec fn restart_scheduled(&self) -> bool {
        self.restart_scheduled
    }

    /// The follow set of the running consumer, if one runs.
    pub closed spec fn consumer(&self) -> Option<Set<u64>> {
        match self.consumer {
            Some(f) => Some(f@),
            None => None,
        }
    }

    /// Whether a shrinking filter asks for a restart too.
    pub closed spec fn always_restart(&self) -> bool {
        self.always_restart
    }

    /// The initial state: no consumer, no timer, nobody interested in anything.
    pub fn new(always_restart: bool) -> (r: Supervisor)
        ensures
            r.interests() == Map::<u64, Set<u64>>::empty(),
            !r.backing_off(),
            r.backoff() == 0,
            !r.restart_scheduled(),
            r.consumer() is None,
            r.always_restart() == always_restart,
    {
        Supervisor {
            interests: InterestMap::new(),
            backing_off: false,
            backoff: 0,
            restart_scheduled: false,
            consumer: None,
            always_restart,
        }
    }

    /// Whether a consumer is running.
    pub fn consumer_running(&self) -> (r: bool)
        ensures
            r == self.consumer() is Some,
    {
        self.consumer.is_some()
    }

    /// The current backoff exponent.
    pub fn backoff_exponent(&self) -> (r: u32)
        ensures
            r == self.backoff(),
    {
        self.backoff
    }

    /// Handles a delta: client `cid` now wants exactly `follows`. A restart
    /// is (re)scheduled after the debounce delay when a new author appears,
    /// when the map empties under a running consumer, or, with
    /// `always_restart`, when an author disappears; never while backing off.
    pub fn on_delta(&mut self, cid: u64, follows: &HashSet<u64>) -> (action: SupervisorAction)
        ensures
            final(self).interests() == after_delta(old(self).interests(), cid, follows@),
            ({
                let schedule = restart_required(
                    old(self).interests(),
                    cid,
                    follows@,
                    old(self).consumer() is Some,
                    old(self).always_restart(),
                ) && !old(self).backing_off();
                &&& schedule ==> action == (SupervisorAction::ScheduleRestart {
                    delay_ms: RESTART_DELAY_MS,
                }) && final(self).restart_scheduled()
                &&& !schedule ==> action is Wait && final(self).restart_scheduled()
                    == old(self).restart_scheduled()
            }),
            final(self).backing_off() == old(self).backing_off(),
            final(self).backoff() == old(self).backoff(),
            final(self).consumer() == old(self).consumer(),
            final(self).always_restart() == old(self).always_restart(),
    {
        let effect = self.interests.apply_delta(cid, follows);
        let emptied = self.consumer.is_some() && self.interests.is_empty();
        let required = effect.grew || emptied || (self.always_restart && effect.shrunk);
        if required && !self.backing_off {
            self.restart_scheduled = true;
            SupervisorAction::ScheduleRestart { delay_ms: RESTART_DELAY_MS }
        } else {
            SupervisorAction::Wait
        }
    }

    /// Handles the restart timer firing. With nobody interested, any running
    /// consumer is stopped; otherwise a consumer starts (replacing any running
    /// one) with the current key set of the interest map as its follow set.
    pub fn on_restart(&mut self) -> (action: SupervisorAction)
        ensures
            final(self).interests() == old(self).interests(),
            !final(self).backing_off(),
            !final(self).restart_scheduled(),
            final(self).backoff() == old(self).backoff(),
            final(self).always_restart() == old(self).always_restart(),
            old(self).interests().dom() == Set::<u64>::empty() ==> {
                &&& final(self).consumer() is None
                &&& old(self).consumer() is Some ==> action is StopConsumer
                &&& old(self).consumer() is None ==> action is Wait
            },
            old(self).interests().dom() != Set::<u64>::empty() ==> {
                &&& final(self).consumer() == Some(old(self).interests().dom())
                &&& action matches SupervisorAction::StartConsumer { follows }
                    && follows@ == old(self).interests().dom()
            },
    {
        self.backing_off = false;
        self.restart_scheduled = false;
        if self.interests.is_empty() {
            if self.consumer.is_some() {
                self.consumer = None;
                SupervisorAction::StopConsumer
            } else {
                SupervisorAction::Wait
            }
        } else {
            let running = self.interests.follow_set();
            let follows = copy_set(&running);
            self.consumer = Some(running);
            SupervisorAction::StartConsumer { follows }
        }
    }

    /// Handles the end of the running consumer: classifies the failure,
    /// schedules a restart after the backoff delay and advances the exponent.
    pub fn on_consumer_exit(&mut self, error: UpstreamError) -> (action: SupervisorAction)
        ensures
            action == (SupervisorAction::ScheduleRestart {
                delay_ms: delay_ms(kind_of(error), old(self).backoff() as nat) as u64,
            }),
            final(self).backoff() == next_backoff(kind_of(error), old(self).backoff()),
            final(self).backing_off(),
            final(self).restart_scheduled(),
            final(self).consumer() is None,
            final(self).interests() == old(self).interests(),
            final(self).always_restart() == old(self).always_restart(),
    {
        let kind = ErrorKind::from_error(error);
        let delay = inspect_error(kind, &mut self.backoff);
        self.backing_off = true;
        self.restart_scheduled = true;
        self.consumer = None;
        SupervisorAction::ScheduleRestart { delay_ms: delay }
    }
}

/// The backoff exponent never falls after a rate limit, a bad status, a
/// network error or a stall; only an unspecific failure resets it, to zero.
pub proof fn lemma_backoff_monotone(kind: ErrorKind, b: u32)
    ensures
        kind != ErrorKind::Unspecific ==> next_backoff(kind, b) >= b,
        kind == ErrorKind::Unspecific ==> next_backoff(kind, b) == 0,
{
}

} // verus!
