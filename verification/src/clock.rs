//! What this crate assumes of `std::time`.
//!
//! Verus knows `Duration` and `Instant` only as opaque values. The two spec
//! functions below name what such a value holds, and the contracts that follow
//! say, in those terms, what the standard library documents of each method the
//! crate calls. None of it is proved.
use std::time::Duration;
use std::time::Instant;
use vstd::prelude::*;

verus! {

/// `std::time::Instant`, carried through as an opaque value.
#[verifier::external_type_specification]
#[verifier::external_body]
pub struct ExInstant(Instant);

/// The length of a `Duration`, in nanoseconds.
pub uninterp spec fn duration_nanos(d: Duration) -> nat;

/// Where an `Instant` lies on the monotonic clock's axis, in nanoseconds from
/// an origin that the platform picks. Only differences between two positions
/// carry meaning.
pub uninterp spec fn instant_nanos(i: Instant) -> int;

pub open spec fn nanos_per_sec() -> nat {
    1_000_000_000
}

pub open spec fn nanos_per_micro() -> nat {
    1_000
}

/// `Duration::new` builds the duration of `secs` seconds and `nanos`
/// nanoseconds, carrying whole seconds out of `nanos`. It panics when that
/// carry overflows the seconds counter, which `requires` rules out.
pub assume_specification[ Duration::new ](secs: u64, nanos: u32) -> (d: Duration)
    requires
        secs + nanos / 1_000_000_000 <= u64::MAX,
    ensures
        duration_nanos(d) == secs * nanos_per_sec() + nanos,
;

/// `Duration::as_secs` returns the whole seconds that the duration contains.
pub assume_specification[ Duration::as_secs ](d: &Duration) -> (secs: u64)
    ensures
        secs == duration_nanos(*d) / nanos_per_sec(),
;

/// `Duration::subsec_micros` returns the part of the duration below one
/// second, in whole microseconds.
pub assume_specification[ Duration::subsec_micros ](d: &Duration) -> (micros: u32)
    ensures
        micros == (duration_nanos(*d) % nanos_per_sec()) / nanos_per_micro(),
;

/// `Instant::now` reads the monotonic clock. Nothing is claimed of the
/// reading.
pub assume_specification[ Instant::now ]() -> Instant;

/// `Instant::checked_duration_since` returns the time elapsed from `earlier`
/// to `later`, and `None` exactly when `earlier` is the later of the two.
pub assume_specification[ Instant::checked_duration_since ](
    later: &Instant,
    earlier: Instant,
) -> (elapsed: Option<Duration>)
    ensures
        match elapsed {
            Some(d) => instant_nanos(earlier) + duration_nanos(d) == instant_nanos(*later),
            None => instant_nanos(*later) < instant_nanos(earlier),
        },
;

/// `Instant::duration_since` returns the time elapsed from `earlier` to
/// `later`. Where `earlier` is the later of the two it returns zero today and
/// has panicked before, so `requires` rules that out.
pub assume_specification[ Instant::duration_since ](later: &Instant, earlier: Instant) -> (elapsed:
    Duration)
    requires
        instant_nanos(earlier) <= instant_nanos(*later),
    ensures
        instant_nanos(earlier) + duration_nanos(elapsed) == instant_nanos(*later),
;

/// What `Instant::checked_add` returns for `start` and `duration`: the
/// instant after `start`, or `None`. It depends on the two alone.
pub uninterp spec fn instant_after(start: Instant, duration: Duration) -> Option<Instant>;

/// What `Instant::checked_sub` returns for `start` and `duration`: the
/// instant before `start`, or `None`. It depends on the two alone.
pub uninterp spec fn instant_before(start: Instant, duration: Duration) -> Option<Instant>;

/// `Instant::checked_add` returns the instant `duration` after `start` where
/// the platform can represent it, and `None` where it cannot. Where that is
/// so is the platform's own matter: it is named, not stated.
pub assume_specification[ Instant::checked_add ](start: &Instant, duration: Duration) -> (end:
    Option<Instant>)
    ensures
        end == instant_after(*start, duration),
        end matches Some(t) ==> instant_nanos(t) == instant_nanos(*start) + duration_nanos(
            duration,
        ),
;

/// `Instant::checked_sub` returns the instant `duration` before `start` where
/// the platform can represent it, and `None` where it cannot. Where that is
/// so is the platform's own matter: it is named, not stated.
pub assume_specification[ Instant::checked_sub ](start: &Instant, duration: Duration) -> (end:
    Option<Instant>)
    ensures
        end == instant_before(*start, duration),
        end matches Some(t) ==> instant_nanos(t) == instant_nanos(*start) - duration_nanos(
            duration,
        ),
;

} // verus!
