//! A liveliness monitor for asynchronous runtimes.
//!
//! [`LivelinessMonitor::start`] hands an executor a task that does nothing
//! but report the current instant each time it is run, and ask to be run
//! again. Whoever holds the monitor reads the latest report: an executor that
//! has stopped running its tasks shows as a report that grows stale.
use crate::clock::instant_nanos;
use crate::support::watched;
use crate::support::AtomicInstant;
use crate::support::LivelinessMonitorFuture;
use crate::support::Sign;
use crate::timeline::first_word;
use std::sync::Arc;
use std::time::Duration;
use std::time::Instant;
use vstd::prelude::*;

pub mod cell;
pub mod clock;
pub mod codec;
pub mod executor;
pub mod support;
pub mod timeline;

verus! {

/// A liveliness monitor for asynchronous runtimes.
///
/// Its only constructor ([`LivelinessMonitor::start()`]) returns it wrapped in an [`Arc`] with strong count 1.
/// Should that strong count reach 0 (due to dropping all the clones you may have made of that [`Arc`], or by
/// using [`Arc::try_unwrap()`]), the associated task spawned in your runtime will end next time upon its next
/// scheduling.
#[non_exhaustive]
pub struct LivelinessMonitor {
    /// The instant of the latest liveliness report.
    pub latest_report: AtomicInstant,
}

impl LivelinessMonitor {
    /// Starts a liveliness monitor on your asynchronous runtime (of which you must pass the `spawn` method),
    /// returning both the handle the runtime may have returned, as well as a reference counted [`LivelinessMonitor`].
    ///
    /// `spawn` is called once, with the task that reports to the monitor.
    pub fn start<T, SpawnFunction: Fn(LivelinessMonitorFuture) -> T>(spawn: SpawnFunction) -> (started: (
        T,
        Arc<LivelinessMonitor>,
    ))
        requires
            forall|task: LivelinessMonitorFuture| spawn.requires((task,)),
        ensures
            exists|task: LivelinessMonitorFuture|
                watched(task) == *started.1 && spawn.ensures((task,), started.0),
            exists|seed: Instant|
                started.1.latest_report.initial_word() == first_word(
                    instant_nanos(started.1.latest_report.epoch()),
                    instant_nanos(seed),
                ),
    {
        let this = Arc::new(LivelinessMonitor { latest_report: AtomicInstant::default() });
        let task = LivelinessMonitorFuture::watching(&this);
        proof {
            let first = this.latest_report;
            let seed = choose|seed: Instant|
                first.initial_word() == first_word(
                    instant_nanos(first.epoch()),
                    instant_nanos(seed),
                );
            assert(first.initial_word() == first_word(
                instant_nanos(first.epoch()),
                instant_nanos(seed),
            ));
        }
        (spawn(task), this)
    }

    /// The instant of the latest liveliness report, as an [`std::time::Instant`].
    ///
    /// Keep in mind its resolution is limited to that of [`crate::support::AtomicDuration`],
    /// and that a busy executor may provide updates at rather low frequencies.
    ///
    /// You can probably expect that if the report hasn't been updated in the last 5 seconds,
    /// your executor is indeed stalled.
    pub fn latest_report(&self) -> (point: Instant)
        ensures
            exists|word: i64, duration: Duration, sign: Sign|
                self.latest_report.finds(word, duration, sign, point),
    {
        self.latest_report.load(std::sync::atomic::Ordering::Relaxed)
    }
}

} // verus!
