//! Decisions of the loop that keeps the remote subscription alive.
use vstd::prelude::*;
use crate::backoff::{
    law_backoff_doubles_to_cap, spec_after_failures, spec_capped_pow2, spec_next, spec_sleep, Backoff,
    BACKOFF_MIN_SECS,
};
use crate::errors::{map_store_error, surfaces_as, NodeError, NodeErrorKind, StoreError};

verus! {

/// What to do after an attempt to subscribe.
#[derive(Debug)]
pub enum SubscribeAction {
    /// Clear the published error and drain the stream.
    Drain,
    /// Publish `error`, sleep `sleep_secs` seconds, then try again.
    Retry { error: NodeError, sleep_secs: u64 },
}

/// What to do when a subscription stream has ended.
#[derive(Debug)]
pub enum StreamEndAction {
    /// The stream ended cleanly: subscribe again at once.
    Reconnect,
    /// The stream failed: publish `error`, then subscribe again at once.
    ReportAndReconnect(NodeError),
}

/// The loop's backoff state: the delay of the next failure of the same
/// kind, and the kind of the last failure since the last reset.
pub open spec fn backoff_state(s: LiveSubscription) -> (u64, Option<NodeErrorKind>) {
    (s.spec_backoff().spec_current(), s.spec_backoff().spec_last_error())
}

/// The state of a subscription loop: its backoff and the error it last
/// published to watchers (`None` once a subscription succeeded).
pub struct LiveSubscription {
    backoff: Backoff,
    published: Option<NodeError>,
}

impl LiveSubscription {
    /// The loop's backoff.
    pub closed spec fn spec_backoff(self) -> Backoff {
        self.backoff
    }

    /// The error that the loop last published to watchers.
    pub closed spec fn spec_published(self) -> Option<NodeError> {
        self.published
    }

    /// A loop that has not tried to subscribe yet.
    pub fn new() -> (s: LiveSubscription)
        ensures
            s.spec_backoff().spec_current() == BACKOFF_MIN_SECS,
            s.spec_backoff().spec_last_error() == None::<crate::errors::NodeErrorKind>,
            s.spec_published() == None::<NodeError>,
    {
        LiveSubscription { backoff: Backoff::new(), published: None }
    }

    /// The error that the loop last published to watchers.
    pub fn published(&self) -> (r: Option<NodeError>)
        ensures
            r == self.spec_published(),
    {
        match &self.published {
            Some(e) => Some(e.duplicate()),
            None => None,
        }
    }

    /// Decides what follows an attempt to subscribe. On success the
    /// published error is cleared and the backoff reset; on failure the
    /// surfaced error is published and the backoff advanced for its kind.
    pub fn try_subscribe(&mut self, result: Result<(), StoreError>) -> (action: SubscribeAction)
        ensures
            match result {
                Ok(()) => {
                    &&& action is Drain
                    &&& final(self).spec_published() == None::<NodeError>
                    &&& final(self).spec_backoff().spec_current() == BACKOFF_MIN_SECS
                    &&& final(self).spec_backoff().spec_last_error() == None::<crate::errors::NodeErrorKind>
                },
                Err(e) => action matches SubscribeAction::Retry { error, sleep_secs } && {
                    &&& surfaces_as(e, error)
                    &&& final(self).spec_published() == Some(error)
                    &&& sleep_secs == spec_sleep(
                        old(self).spec_backoff().spec_current(),
                        old(self).spec_backoff().spec_last_error(),
                        error.spec_kind(),
                    )
                    &&& final(self).spec_backoff().spec_current() == spec_next(sleep_secs)
                    &&& final(self).spec_backoff().spec_last_error() == Some(error.spec_kind())
                    &&& forall|k: nat|
                        backoff_state(*old(self)) == #[trigger] spec_after_failures(k, error.spec_kind())
                            ==> sleep_secs == spec_capped_pow2(k) && backoff_state(*final(self))
                            == spec_after_failures(k + 1, error.spec_kind())
                },
            },
    {
        let ghost before = backoff_state(*self);
        match result {
            Ok(()) => {
                self.published = None;
                self.backoff.reset();
                SubscribeAction::Drain
            },
            Err(e) => {
                let error = map_store_error(e);
                let sleep_secs = self.backoff.advance(&error);
                self.published = Some(error.duplicate());
                proof {
                    assert forall|k: nat|
                        before == #[trigger] spec_after_failures(k, error.spec_kind()) implies
                        sleep_secs == spec_capped_pow2(k) && backoff_state(*self)
                            == spec_after_failures(k + 1, error.spec_kind()) by {
                        law_failed_subscribes_back_off(k, error.spec_kind(), before.0, before.1);
                    }
                }
                SubscribeAction::Retry { error, sleep_secs }
            },
        }
    }

    /// Decides what follows the end of a drained stream (`Ok` with the
    /// number of operations broadcast, or the stream's error). A failed
    /// stream publishes the surfaced error and resets the backoff.
    pub fn stream_ended(&mut self, result: Result<usize, StoreError>) -> (action: StreamEndAction)
        ensures
            match result {
                Ok(_) => {
                    &&& action is Reconnect
                    &&& *final(self) == *old(self)
                },
                Err(e) => action matches StreamEndAction::ReportAndReconnect(error) && {
                    &&& surfaces_as(e, error)
                    &&& final(self).spec_published() == Some(error)
                    &&& final(self).spec_backoff().spec_current() == BACKOFF_MIN_SECS
                    &&& final(self).spec_backoff().spec_last_error() == None::<crate::errors::NodeErrorKind>
                },
            },
    {
        match result {
            Ok(_) => StreamEndAction::Reconnect,
            Err(e) => {
                let error = map_store_error(e);
                self.published = Some(error.duplicate());
                self.backoff.reset();
                StreamEndAction::ReportAndReconnect(error)
            },
        }
    }
}

/// A run of failed subscribes backs off exponentially: a fresh loop, or one
/// whose subscribe just succeeded or whose stream just failed, is in the
/// state of zero failures; from the state of `k` failures of one kind, a
/// further failed subscribe of that kind sleeps `min(2^k, 60)` seconds and
/// leaves the state of `k + 1` failures. So `k` failures in a row wait 1, 2,
/// 4, ... seconds, capped at 60, and a failure of another kind, a successful
/// subscribe or a failed stream starts again at 1 second.
pub proof fn law_failed_subscribes_back_off(
    k: nat,
    kind: NodeErrorKind,
    current: u64,
    last: Option<NodeErrorKind>,
)
    requires
        (current, last) == spec_after_failures(k, kind),
    ensures
        spec_after_failures(0, kind) == (BACKOFF_MIN_SECS, None::<NodeErrorKind>),
        spec_sleep(current, last, kind) == spec_capped_pow2(k),
        (spec_next(spec_sleep(current, last, kind)), Some(kind)) == spec_after_failures(k + 1, kind),
{
    law_backoff_doubles_to_cap(k, kind);
}

} // verus!
