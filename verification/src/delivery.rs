//! The delivery retry loop: bounded, interval-based redelivery of one
//! command to a content surface that may still be loading.
//!
//! A delivery begins with one immediate attempt. If the bridge is not yet
//! present, the command becomes pending and is retried on a fixed interval,
//! up to a fixed attempt bound; exhausting the bound drops the command
//! silently. The shell owns the timer: on every tick it makes one bridge
//! call and reports whether the bridge accepted, and [`PendingDelivery`]
//! decides what happens next.

use vstd::prelude::*;
use crate::command::RemoteCommand;

verus! {

/// How many interval retries are attempted before a pending command is
/// dropped.
pub const MAX_DELIVERY_ATTEMPTS: u32 = 40;

/// Milliseconds between two retries. Together with the attempt bound this
/// gives the ten-second delivery window.
pub const RETRY_INTERVAL_MS: u64 = 250;

/// The retry state of one command whose immediate delivery failed.
pub struct PendingDelivery {
    /// The command awaiting delivery.
    pub command: RemoteCommand,
    /// Interval retries performed so far.
    pub retries: u32,
}

/// What one retry concluded.
#[derive(Clone, Copy, Debug, PartialEq, Eq, Structural)]
pub enum DeliveryStatus {
    /// The bridge accepted the command; the timer stops.
    Delivered,
    /// The bridge is still absent and retries remain; the timer keeps going.
    Pending,
    /// The attempt bound is exhausted; the command is dropped and the timer
    /// stops.
    Dropped,
}

/// What the immediate, synchronous delivery attempt concluded.
pub enum DispatchOutcome {
    /// The bridge was present and accepted the command; no retries follow.
    DeliveredImmediately,
    /// The bridge was absent; the command is pending and a retry timer must
    /// be armed.
    Pending(PendingDelivery),
}

/// The pure transition taken by [`PendingDelivery::on_retry`].
pub open spec fn spec_on_retry(d: PendingDelivery, accepted: bool) -> (PendingDelivery, DeliveryStatus) {
    if d.retries >= MAX_DELIVERY_ATTEMPTS {
        (d, DeliveryStatus::Dropped)
    } else {
        let next = PendingDelivery { command: d.command, retries: (d.retries + 1) as u32 };
        if accepted {
            (next, DeliveryStatus::Delivered)
        } else if next.retries >= MAX_DELIVERY_ATTEMPTS {
            (next, DeliveryStatus::Dropped)
        } else {
            (next, DeliveryStatus::Pending)
        }
    }
}

/// A whole retry run over a schedule of bridge availability: `avail[k]`
/// says whether the bridge accepts on retry `k`. The run stops on the
/// first status other than [`DeliveryStatus::Pending`]; a run that
/// exhausts the schedule while still pending reports `Pending`.
pub open spec fn spec_run(d: PendingDelivery, avail: Seq<bool>) -> (PendingDelivery, DeliveryStatus)
    decreases avail.len(),
{
    if avail.len() == 0 {
        (d, DeliveryStatus::Pending)
    } else {
        let step = spec_on_retry(d, avail[0]);
        if step.1 is Pending {
            spec_run(step.0, avail.skip(1))
        } else {
            step
        }
    }
}

impl PendingDelivery {
    /// Record a command whose immediate delivery failed: no retries made
    /// yet.
    pub fn begin(command: RemoteCommand) -> (d: Self)
        ensures
            d.command == command,
            d.retries == 0,
    {
        PendingDelivery { command, retries: 0 }
    }

    /// One timer tick: the shell made one bridge call and reports whether
    /// the bridge accepted. Counts the attempt and decides whether the
    /// timer keeps going.
    pub fn on_retry(&mut self, accepted: bool) -> (s: DeliveryStatus)
        requires
            old(self).retries < MAX_DELIVERY_ATTEMPTS,
        ensures
            (*final(self), s) == spec_on_retry(*old(self), accepted),
            final(self).command == old(self).command,
            final(self).retries == old(self).retries + 1,
            accepted <==> s is Delivered,
            s is Dropped <==> (!accepted && final(self).retries == MAX_DELIVERY_ATTEMPTS),
    {
        self.retries = self.retries + 1;
        if accepted {
            DeliveryStatus::Delivered
        } else if self.retries >= MAX_DELIVERY_ATTEMPTS {
            DeliveryStatus::Dropped
        } else {
            DeliveryStatus::Pending
        }
    }
}

/// The immediate delivery attempt: the shell made one synchronous bridge
/// call for `command` and reports whether the bridge accepted. Acceptance
/// completes the delivery; otherwise the command becomes pending with no
/// retries used.
pub fn start_delivery(command: RemoteCommand, accepted: bool) -> (r: DispatchOutcome)
    ensures
        accepted ==> r is DeliveredImmediately,
        !accepted ==> (r matches DispatchOutcome::Pending(d) && d.command == command && d.retries
            == 0),
{
    if accepted {
        DispatchOutcome::DeliveredImmediately
    } else {
        DispatchOutcome::Pending(PendingDelivery::begin(command))
    }
}

/// Delivery retry bound, succeeding side: if the bridge rejects the first
/// `n` retries and accepts retry `n + 1` (all within the bound), the run
/// delivers exactly then — `n + 1` retries occur and no further attempt
/// follows.
pub proof fn lemma_retry_delivers_once(command: RemoteCommand, avail: Seq<bool>, n: int)
    requires
        0 <= n < MAX_DELIVERY_ATTEMPTS,
        n < avail.len(),
        avail[n],
        forall|j: int| 0 <= j < n ==> !avail[j],
    ensures
        ({
            let (d, s) = spec_run(PendingDelivery { command, retries: 0 }, avail);
            s is Delivered && d.retries == n + 1 && d.command == command
        }),
{
    lemma_run_from(command, avail, n, 0);
}

/// Delivery retry bound, failing side: if the bridge never becomes
/// available, exactly the bounded number of retries occur and the command
/// is then dropped.
pub proof fn lemma_retry_drops_at_bound(command: RemoteCommand, avail: Seq<bool>)
    requires
        avail.len() >= MAX_DELIVERY_ATTEMPTS,
        forall|j: int| 0 <= j < avail.len() ==> !avail[j],
    ensures
        ({
            let (d, s) = spec_run(PendingDelivery { command, retries: 0 }, avail);
            s is Dropped && d.retries == MAX_DELIVERY_ATTEMPTS && d.command == command
        }),
{
    lemma_run_all_unavailable(command, avail, 0);
}

/// Helper: a run that starts after `used` fruitless retries, with the next
/// acceptance at schedule index `n`, delivers on retry `used + n + 1`.
proof fn lemma_run_from(command: RemoteCommand, avail: Seq<bool>, n: int, used: int)
    requires
        0 <= used,
        0 <= n,
        used + n < MAX_DELIVERY_ATTEMPTS,
        n < avail.len(),
        avail[n],
        forall|j: int| 0 <= j < n ==> !avail[j],
    ensures
        ({
            let (d, s) = spec_run(PendingDelivery { command, retries: used as u32 }, avail);
            s is Delivered && d.retries == used + n + 1 && d.command == command
        }),
    decreases n,
{
    if n == 0 {
    } else {
        assert(forall|j: int| 0 <= j < n - 1 ==> !avail.skip(1)[j]);
        assert(avail.skip(1)[n - 1]);
        lemma_run_from(command, avail.skip(1), n - 1, used + 1);
    }
}

/// Helper: a run over an all-unavailable schedule long enough to finish
/// the bound, starting after `used` fruitless retries, drops the command
/// exactly at the bound.
proof fn lemma_run_all_unavailable(command: RemoteCommand, avail: Seq<bool>, used: int)
    requires
        0 <= used < MAX_DELIVERY_ATTEMPTS,
        avail.len() >= MAX_DELIVERY_ATTEMPTS - used,
        forall|j: int| 0 <= j < avail.len() ==> !avail[j],
    ensures
        ({
            let (d, s) = spec_run(PendingDelivery { command, retries: used as u32 }, avail);
            s is Dropped && d.retries == MAX_DELIVERY_ATTEMPTS && d.command == command
        }),
    decreases MAX_DELIVERY_ATTEMPTS - used,
{
    if used + 1 == MAX_DELIVERY_ATTEMPTS {
    } else {
        assert(forall|j: int| 0 <= j < avail.skip(1).len() ==> !avail.skip(1)[j]);
        lemma_run_all_unavailable(command, avail.skip(1), used + 1);
    }
}

} // verus!
