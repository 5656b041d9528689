//! The time of the last corruption, shared by the two directions of one
//! connection, and the measurement taken when the server answers with an alert.
//!
//! Times are readings of the connection's monotonic clock in nanoseconds. The
//! program around the library takes the readings and guards the stamp against
//! concurrent access; the library only says what is stored and what is
//! measured.

use vstd::prelude::*;

verus! {

/// What the relay reports when the server sends an alert.
#[derive(Debug, Clone, Copy, PartialEq, Eq, Structural)]
pub enum AlertReport {
    /// No record of this connection has been corrupted so far: the alert has
    /// another cause.
    NoCorruption,
    /// The alert came `nanos` nanoseconds after the last corruption.
    Elapsed { nanos: u128 },
}

/// The single slot in which a connection keeps the time of its last
/// corruption.
///
/// The slot is empty until the client-to-server direction corrupts a record.
/// Every later corruption overwrites it. Reading it leaves it as it is, so a
/// second alert is measured against the same corruption as the first.
#[derive(Debug, Clone, Copy, PartialEq, Eq, Structural)]
pub struct CorruptionStamp {
    /// Clock reading taken at the last corruption, if there was one.
    pub sent_at: Option<u128>,
}

/// Nanoseconds from `since` to `now` on a monotonic clock: a reading that
/// does not lie after `since` counts as no time passed.
pub open spec fn elapsed_between(since: u128, now: u128) -> u128 {
    if now >= since {
        (now - since) as u128
    } else {
        0
    }
}

impl CorruptionStamp {
    /// The stamp after a corruption at time `now`.
    pub open spec fn marked(self, now: u128) -> CorruptionStamp {
        CorruptionStamp { sent_at: Some(now) }
    }

    /// The report for an alert seen at time `now`.
    pub open spec fn report(self, now: u128) -> AlertReport {
        match self.sent_at {
            None => AlertReport::NoCorruption,
            Some(since) => AlertReport::Elapsed { nanos: elapsed_between(since, now) },
        }
    }

    /// The empty stamp of a new connection.
    pub fn new() -> (stamp: CorruptionStamp)
        ensures
            stamp.sent_at is None,
    {
        CorruptionStamp { sent_at: None }
    }

    /// Records a corruption at time `now`, in place of any earlier one.
    pub fn mark(&mut self, now: u128)
        ensures
            *final(self) == old(self).marked(now),
            final(self).sent_at == Some(now),
    {
        self.sent_at = Some(now);
    }

    /// Measures an alert seen at time `now` against the stored corruption.
    /// The stamp is not cleared.
    pub fn on_alert(&self, now: u128) -> (report: AlertReport)
        ensures
            report == self.report(now),
    {
        match self.sent_at {
            None => AlertReport::NoCorruption,
            Some(since) => {
                let nanos: u128 = if now >= since {
                    now - since
                } else {
                    0
                };
                AlertReport::Elapsed { nanos }
            },
        }
    }
}

/// An alert that follows a corruption on the same connection is measured
/// against that corruption: the report is the time between the two readings,
/// whatever the stamp held before. Reading the stamp leaves it as it was, so
/// the next alert is measured against the same corruption.
pub proof fn lemma_alert_measures_last_corruption(
    before: CorruptionStamp,
    corrupted_at: u128,
    alert_at: u128,
)
    requires
        corrupted_at <= alert_at,
    ensures
        before.marked(corrupted_at).report(alert_at) == (AlertReport::Elapsed {
            nanos: (alert_at - corrupted_at) as u128,
        }),
        alert_at - corrupted_at >= 0,
        before.marked(corrupted_at).sent_at == Some(corrupted_at),
{
}

} // verus!
