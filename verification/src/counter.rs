//! A rate counter: one writer measures the time between two events, any number
//! of readers look at the latest measurement.
//!
//! Writer and readers share a single atomic cell, so nobody ever waits for
//! anybody.  What the cell holds at a given moment is outside the verifier's
//! view; the contracts speak of which cell a value is attached to, of the
//! instant from which the next interval is measured, and of the interval that a
//! writer put into the cell last.

use std::sync::atomic::AtomicU64;
use std::sync::atomic::Ordering;
use std::sync::Arc;
use std::time::Duration;
use std::time::Instant;
use vstd::prelude::*;

verus! {

/// The interval that readers see before the first measurement: one second, in
/// microseconds.
pub const INITIAL_INTERVAL_MICROS: u64 = 1_000_000;

/// `std::time::Instant`: a point on the monotonic clock.  Nothing inside it is
/// visible to the verifier.
#[verifier::external_type_specification]
#[verifier::external_body]
pub struct ExInstant(Instant);

/// The length of a `Duration` in whole microseconds, as `Duration::as_micros`
/// gives it.
pub uninterp spec fn duration_micros(duration: Duration) -> nat;

/// `Instant::now` reads the monotonic clock.  Nothing is claimed of the instant
/// it returns.
pub assume_specification[ Instant::now ]() -> Instant;

/// The time from `earlier` to `this`, as `Instant::saturating_duration_since`
/// gives it: zero when `earlier` is the later of the two.
pub uninterp spec fn duration_between(this: Instant, earlier: Instant) -> Duration;

/// `Instant::saturating_duration_since` gives the time from `earlier` to `this`,
/// and zero when `earlier` is the later of the two.  The two instants alone
/// decide it; nothing is claimed of its length.
pub assume_specification[ Instant::saturating_duration_since ](
    this: &Instant,
    earlier: Instant,
) -> (elapsed: Duration)
    ensures
        elapsed == duration_between(*this, earlier),
;

/// `Duration::as_micros` gives the duration in whole microseconds.
pub assume_specification[ Duration::as_micros ](this: &Duration) -> (micros: u128)
    ensures
        micros == duration_micros(*this),
;

/// `Duration::from_micros` makes the duration of that many microseconds.
pub assume_specification[ Duration::from_micros ](micros: u64) -> (duration: Duration)
    ensures
        duration_micros(duration) == micros,
;

/// `Arc::clone` on the shared cell: the new handle points at the same cell.
#[verifier::external_body]
fn share(cell: &Arc<AtomicU64>) -> (shared: Arc<AtomicU64>)
    ensures
        shared == *cell,
{
    Arc::clone(cell)
}

/// The writing side of the counter.
pub struct IntervalCounter {
    last_time: Instant,
    /// The latest interval, in microseconds.
    interval: Arc<AtomicU64>,
    /// The value that this writer put into the cell last.
    recorded: Ghost<u64>,
}

/// A reading side of the counter.
pub struct Interval(Arc<AtomicU64>);

/// The interval from `earlier` to `later` as it goes into the cell: the whole
/// microseconds between the two, zero if `later` is the earlier one, of which
/// the low 64 bits are kept.
pub open spec fn interval_between(earlier: Instant, later: Instant) -> u64 {
    (duration_micros(duration_between(later, earlier)) % 0x1_0000_0000_0000_0000) as u64
}

/// The number of microseconds that goes into the cell for an interval of
/// `elapsed_micros`: its low 64 bits.
pub fn micros_to_store(elapsed_micros: u128) -> (micros: u64)
    ensures
        micros == elapsed_micros % 0x1_0000_0000_0000_0000,
        elapsed_micros <= u64::MAX ==> micros == elapsed_micros,
{
    (elapsed_micros % 0x1_0000_0000_0000_0000) as u64
}

impl IntervalCounter {
    /// The instant from which the next interval is measured.
    pub closed spec fn anchor(&self) -> Instant {
        self.last_time
    }

    /// The cell that this writer stores into.
    pub closed spec fn cell(&self) -> AtomicU64 {
        *self.interval
    }

    /// The interval, in microseconds, that this writer put into the cell last:
    /// the one the cell was made with, or the one of the last `update`.  It is
    /// what a reader gets as long as no other writer of the same cell stored
    /// after it.
    pub closed spec fn recorded(&self) -> u64 {
        self.recorded@
    }

    /// A counter anchored at the present moment, whose cell is made with one
    /// second in it: that is what readers see until the first `update`.
    pub fn new() -> (counter: Self)
        ensures
            counter.recorded() == INITIAL_INTERVAL_MICROS,
    {
        let initial = INITIAL_INTERVAL_MICROS;
        Self {
            last_time: Instant::now(),
            interval: Arc::new(AtomicU64::new(initial)),
            recorded: Ghost(initial),
        }
    }

    /// Records the time since the last `update` (or since `new`) as the
    /// interval and measures the next one from now.
    ///
    /// The anchor moves to the instant that the clock gives, whichever it is,
    /// and the interval put into the cell is the time from the anchor before to
    /// the anchor after.  The readers handed out before stay attached.
    pub fn update(&mut self)
        ensures
            final(self).recorded() == interval_between(old(self).anchor(), final(self).anchor()),
            final(self).cell() == old(self).cell(),
    {
        let now = Instant::now();
        self.record(now);
    }

    /// `update` at the instant `now`: stores the time from the anchor to `now`,
    /// in microseconds (zero if `now` lies before the anchor), and makes `now`
    /// the anchor.
    pub fn record(&mut self, now: Instant)
        ensures
            final(self).anchor() == now,
            final(self).recorded() == interval_between(old(self).anchor(), now),
            final(self).cell() == old(self).cell(),
    {
        let duration = now.saturating_duration_since(self.last_time);
        self.last_time = now;
        let micros = micros_to_store(duration.as_micros());
        self.interval.store(micros, Ordering::Release);
        self.recorded = Ghost(micros);
    }

    /// A reader of this counter's cell.  Any number may exist; none of them
    /// ever holds the writer up.
    pub fn interval(&self) -> (reader: Interval)
        ensures
            reader.cell() == self.cell(),
    {
        Interval(share(&self.interval))
    }
}

impl Clone for IntervalCounter {
    /// A second writer on the same cell, anchored where this one is.
    fn clone(&self) -> (copy: Self)
        ensures
            copy == *self,
            copy.anchor() == self.anchor(),
            copy.cell() == self.cell(),
            copy.recorded() == self.recorded(),
    {
        Self {
            last_time: self.last_time,
            interval: share(&self.interval),
            recorded: self.recorded,
        }
    }
}

impl Interval {
    /// The cell that this reader loads from.
    pub closed spec fn cell(&self) -> AtomicU64 {
        *self.0
    }

    /// The interval that the cell holds at this moment: a whole number of
    /// microseconds that fits 64 bits.
    pub fn get(&self) -> (interval: Duration)
        ensures
            duration_micros(interval) <= u64::MAX,
    {
        Duration::from_micros(self.0.load(Ordering::Relaxed))
    }
}

} // verus!
