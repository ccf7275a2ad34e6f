//! Exponential backoff that restarts when the kind of error changes.
use vstd::prelude::*;
use vstd::arithmetic::power2::{pow2, lemma_pow2_unfold};
use crate::errors::{NodeError, NodeErrorKind};

verus! {

/// The shortest delay, in seconds.
pub const BACKOFF_MIN_SECS: u64 = 1;

/// The longest delay, in seconds.
pub const BACKOFF_MAX_SECS: u64 = 60;

/// The delay before the next attempt after a failure of kind `kind`, given
/// the current delay and the kind of the previous failure: the current delay
/// if the kind is unchanged, else the shortest delay.
pub open spec fn spec_sleep(current: u64, last: Option<NodeErrorKind>, kind: NodeErrorKind) -> u64 {
    if last == Some(kind) {
        current
    } else {
        BACKOFF_MIN_SECS
    }
}

/// The delay that follows a delay of `sleep` seconds: doubled, up to the
/// longest delay.
pub open spec fn spec_next(sleep: u64) -> u64 {
    if 2 * sleep <= BACKOFF_MAX_SECS {
        (2 * sleep) as u64
    } else {
        BACKOFF_MAX_SECS
    }
}

/// The state (current delay, kind of the last failure) after `k` failures
/// of the same kind, starting from a fresh or reset backoff.
pub open spec fn spec_after_failures(k: nat, kind: NodeErrorKind) -> (u64, Option<NodeErrorKind>)
    decreases k,
{
    if k == 0 {
        (BACKOFF_MIN_SECS, None)
    } else {
        let (c, l) = spec_after_failures((k - 1) as nat, kind);
        (spec_next(spec_sleep(c, l, kind)), Some(kind))
    }
}

/// `2^k` seconds, capped at the longest delay.
pub open spec fn spec_capped_pow2(k: nat) -> nat {
    if pow2(k) <= BACKOFF_MAX_SECS {
        pow2(k)
    } else {
        BACKOFF_MAX_SECS as nat
    }
}

/// Exponential backoff state that resets when the error variant changes.
///
/// Delays are whole seconds, from [`BACKOFF_MIN_SECS`] to [`BACKOFF_MAX_SECS`].
pub struct Backoff {
    current: u64,
    last_error: Option<NodeErrorKind>,
}

impl Backoff {
    #[verifier::type_invariant]
    spec fn within_bounds(self) -> bool {
        BACKOFF_MIN_SECS <= self.current <= BACKOFF_MAX_SECS
    }

    /// The delay, in seconds, that the next failure of the same kind waits.
    pub closed spec fn spec_current(self) -> u64 {
        self.current
    }

    /// The kind of the last failure since the last reset.
    pub closed spec fn spec_last_error(self) -> Option<NodeErrorKind> {
        self.last_error
    }

    /// A fresh backoff: the shortest delay, no failure seen.
    pub fn new() -> (b: Backoff)
        ensures
            b.spec_current() == BACKOFF_MIN_SECS,
            b.spec_last_error() == None::<NodeErrorKind>,
    {
        Backoff { current: BACKOFF_MIN_SECS, last_error: None }
    }

    /// Returns to the shortest delay and forgets the last failure.
    pub fn reset(&mut self)
        ensures
            final(self).spec_current() == BACKOFF_MIN_SECS,
            final(self).spec_last_error() == None::<NodeErrorKind>,
    {
        self.current = BACKOFF_MIN_SECS;
        self.last_error = None;
    }

    /// The delay, in seconds, that the next failure of the same kind waits.
    pub fn current_secs(&self) -> (r: u64)
        ensures
            r == self.spec_current(),
            BACKOFF_MIN_SECS <= r <= BACKOFF_MAX_SECS,
    {
        proof {
            use_type_invariant(self);
        }
        self.current
    }

    /// Records a failure: restarts from the shortest delay if the error's
    /// variant differs from the last one, returns the delay to sleep, in
    /// seconds, and doubles the delay for next time (up to the longest).
    pub fn advance(&mut self, error: &NodeError) -> (sleep_secs: u64)
        ensures
            sleep_secs == spec_sleep(old(self).spec_current(), old(self).spec_last_error(), error.spec_kind()),
            final(self).spec_current() == spec_next(sleep_secs),
            final(self).spec_last_error() == Some(error.spec_kind()),
            BACKOFF_MIN_SECS <= sleep_secs <= BACKOFF_MAX_SECS,
    {
        proof {
            use_type_invariant(&*self);
        }
        let kind = error.kind();
        let same = match self.last_error {
            Some(k) => k == kind,
            None => false,
        };
        if !same {
            self.current = BACKOFF_MIN_SECS;
            self.last_error = Some(kind);
        }
        let sleep_secs = self.current;
        if sleep_secs <= BACKOFF_MAX_SECS / 2 {
            self.current = sleep_secs * 2;
        } else {
            self.current = BACKOFF_MAX_SECS;
        }
        sleep_secs
    }
}

/// After `k` failures of one kind since a reset, the backoff waits
/// `min(2^k, 60)` seconds before the next attempt, and its last failure is
/// of that kind (for `k > 0`).
pub proof fn law_backoff_doubles_to_cap(k: nat, kind: NodeErrorKind)
    ensures
        spec_after_failures(k, kind).0 == spec_capped_pow2(k),
        k > 0 ==> spec_after_failures(k, kind).1 == Some(kind),
        spec_sleep(spec_after_failures(k, kind).0, spec_after_failures(k, kind).1, kind)
            == spec_after_failures(k, kind).0,
    decreases k,
{
    if k == 0 {
        assert(pow2(0) == 1) by {
            vstd::arithmetic::power2::lemma2_to64();
        }
    } else {
        law_backoff_doubles_to_cap((k - 1) as nat, kind);
        lemma_pow2_unfold(k);
    }
}

/// A failure whose kind differs from the last one always waits the shortest
/// delay, whatever the current delay.
pub proof fn law_backoff_restarts_on_new_kind(
    current: u64,
    last: Option<NodeErrorKind>,
    kind: NodeErrorKind,
)
    requires
        last != Some(kind),
    ensures
        spec_sleep(current, last, kind) == BACKOFF_MIN_SECS,
        spec_next(spec_sleep(current, last, kind)) == 2 * BACKOFF_MIN_SECS,
{
}

} // verus!
