//! The parts that a [`LivelinessMonitor`] is built from: a signed duration in
//! one atomic word, an instant kept as such a duration from an epoch, and the
//! task that keeps the instant up to date.
use crate::cell::cell_of;
use crate::cell::initial_word;
use crate::clock::duration_nanos;
use crate::clock::instant_after;
use crate::clock::instant_before;
use crate::clock::instant_nanos;
use crate::clock::nanos_per_micro;
use crate::codec::encodable;
use crate::codec::lemma_packed_again;
use crate::codec::lemma_packed_fields;
use crate::codec::lemma_packed_zero;
use crate::codec::packed;
use crate::codec::unpacked_nanos;
use crate::codec::unpacked_sign;
use crate::timeline::first_word;
use crate::timeline::lemma_fidelity;
use crate::timeline::lemma_order_survives;
use crate::timeline::lemma_point_survives;
use crate::timeline::offset_nanos;
use crate::timeline::offset_sign;
use crate::timeline::offset_word;
use crate::timeline::point_at;
use crate::timeline::shifted;
use crate::timeline::spans;
use crate::LivelinessMonitor;
use std::future::Future;
use std::pin::Pin;
use std::sync::atomic::AtomicI64;
use std::sync::atomic::Ordering;
use std::sync::Arc;
use std::sync::Weak;
use std::task::Context;
use std::task::Poll;
use std::time::Duration;
use std::time::Instant;
use vstd::prelude::*;

verus! {

/// A sign to be paired with a [`Duration`].
#[derive(Debug, Clone, Copy, PartialEq, Eq, Structural)]
pub enum Sign {
    Positive,
    Negative,
}

impl Default for Sign {
    fn default() -> (sign: Self)
        ensures
            sign == Sign::Positive,
    {
        Sign::Positive
    }
}

/// A signed [`Duration`] stored as an [`AtomicI64`].
///
/// Resolution: 1µs
/// Maximum offset: 278737 years (signed)
pub struct AtomicDuration {
    t: AtomicI64,
}

const SHIFT: u64 = 20;

const MASK: u64 = 0xfffff;

/// The most whole seconds that a word can count.
const MAX_SECS: u64 = 0x7ff_ffff_ffff;

impl AtomicDuration {
    /// Whether `duration` and `sign` are what `word` unpacks to.
    pub open spec fn unpacks(word: i64, duration: Duration, sign: Sign) -> bool {
        &&& duration_nanos(duration) == unpacked_nanos(word as int)
        &&& sign == unpacked_sign(word as int)
    }

    /// Unpacks a word. Every word unpacks to something, `i64::MIN` to its
    /// magnitude like any other; the words that [`Self::duration_to_i64`]
    /// makes unpack to what went in, less what it dropped.
    pub fn i64_to_duration(t: i64) -> (unpacked: (Duration, Sign))
        ensures
            Self::unpacks(t, unpacked.0, unpacked.1),
    {
        let sign = if t < 0 {
            Sign::Negative
        } else {
            Sign::Positive
        };
        let magnitude: u64 = if t < 0 {
            (-(t + 1)) as u64 + 1
        } else {
            t as u64
        };
        assert(magnitude & 0xfffff == magnitude % 0x10_0000) by (bit_vector);
        assert(magnitude >> 20 == magnitude / 0x10_0000) by (bit_vector);
        let micros = (magnitude & MASK) as u32;
        let secs = magnitude >> SHIFT;
        (Duration::new(secs, micros * 1000), sign)
    }

    /// Packs a duration and a sign into a word. The part of the duration
    /// below one microsecond is dropped. A duration of `2^43` seconds or more
    /// has no word.
    pub fn duration_to_i64(t: Duration, sign: Sign) -> (word: i64)
        requires
            encodable(duration_nanos(t)),
        ensures
            word == packed(duration_nanos(t), sign),
    {
        let secs = t.as_secs();
        let micros = t.subsec_micros();
        proof {
            lemma_packed_fields(duration_nanos(t));
        }
        assert(secs << 20 == secs * 0x10_0000) by (bit_vector)
            requires
                secs < 0x800_0000_0000,
        ;
        let magnitude = ((secs << SHIFT) + micros as u64) as i64;
        match sign {
            Sign::Positive => magnitude,
            Sign::Negative => -magnitude,
        }
    }

    /// Whether `duration` fits a word.
    pub fn can_hold(duration: &Duration) -> (fits: bool)
        ensures
            fits == encodable(duration_nanos(*duration)),
    {
        duration.as_secs() <= MAX_SECS
    }

    /// This type's time resolution: one microsecond, the duration of the
    /// word 1.
    pub fn resolution() -> (unit: Duration)
        ensures
            duration_nanos(unit) == 1_000,
    {
        Self::i64_to_duration(1).0
    }

    /// This type's maximum value: the duration of the largest word. Its
    /// sub-second field counts more than a second, so packing this duration
    /// again would need one bit more than a word has.
    pub fn max() -> (longest: Duration)
        ensures
            Self::unpacks(i64::MAX, longest, Sign::Positive),
            duration_nanos(longest) == 8_796_093_022_208_048_575_000,
    {
        Self::i64_to_duration(i64::MAX).0
    }

    /// Whether an atomic load accepts `ord`: `AtomicI64::load` panics on
    /// `Release` and on `AcqRel`.
    pub open spec fn loads_with(ord: Ordering) -> bool {
        ord is Relaxed || ord is Acquire || ord is SeqCst
    }

    /// Whether an atomic store accepts `ord`: `AtomicI64::store` panics on
    /// `Acquire` and on `AcqRel`.
    pub open spec fn stores_with(ord: Ordering) -> bool {
        ord is Relaxed || ord is Release || ord is SeqCst
    }

    /// Atomically loads the stored value, converting it to a duration-sign tuple.
    ///
    /// The [`Ordering`] is used in a single `load` operation. Which word that
    /// operation finds is not known here: the result is what some word
    /// unpacks to.
    pub fn load(&self, ord: Ordering) -> (unpacked: (Duration, Sign))
        requires
            Self::loads_with(ord),
        ensures
            exists|word: i64| Self::unpacks(word, unpacked.0, unpacked.1),
    {
        let word = self.t.load(ord);
        let unpacked = Self::i64_to_duration(word);
        assert(Self::unpacks(word, unpacked.0, unpacked.1));
        unpacked
    }

    /// Converts the duration-sign tuple into a word before storing it atomically.
    ///
    /// The [`Ordering`] is used in a single `store` operation.
    pub fn store(&self, duration: Duration, sign: Sign, ord: Ordering)
        requires
            encodable(duration_nanos(duration)),
            Self::stores_with(ord),
    {
        self.t.store(Self::duration_to_i64(duration, sign), ord)
    }

    /// The word that the atomic was made with.
    pub closed spec fn initial_word(&self) -> i64 {
        initial_word(self.t)
    }

    /// Makes the atomic that holds the word of `duration` and `sign`.
    pub fn new(duration: Duration, sign: Sign) -> (made: Self)
        requires
            encodable(duration_nanos(duration)),
        ensures
            made.initial_word() == packed(duration_nanos(duration), sign),
    {
        Self { t: cell_of(Self::duration_to_i64(duration, sign)) }
    }
}

/// An [`Instant`], stored as an [`AtomicDuration`] offset from an arbitrary epoch.
///
/// Due to [`Instant`] not having any const epoch, that epoch is taken by calling [`Instant::now()`] at construction.
/// [`AtomicInstant`]'s range and resolution are bound by those of [`AtomicDuration`].
///
/// Defaults to [`Instant::now()`].
pub struct AtomicInstant {
    epoch: Instant,
    since_epoch: AtomicDuration,
}

impl Default for AtomicInstant {
    /// A timepoint for the instant at which it is made: its seed is a
    /// reading of the clock.
    fn default() -> (timepoint: Self)
        ensures
            exists|seed: Instant|
                timepoint.initial_word() == first_word(
                    instant_nanos(timepoint.epoch()),
                    instant_nanos(seed),
                ),
    {
        Self::new(Instant::now())
    }
}

impl AtomicInstant {
    /// The epoch, fixed when the timepoint was made.
    pub closed spec fn epoch(&self) -> Instant {
        self.epoch
    }

    /// The word that the timepoint was made with.
    pub closed spec fn initial_word(&self) -> i64 {
        self.since_epoch.initial_word()
    }

    /// Whether the offset of `instant` from the epoch fits a word.
    pub open spec fn holds(&self, instant: Instant) -> bool {
        spans(instant_nanos(self.epoch()), instant_nanos(instant))
    }

    /// The instant that lies `duration` from `epoch` on the side that `sign`
    /// names, as the platform has it: `None` where it has none.
    pub open spec fn placed(epoch: Instant, duration: Duration, sign: Sign) -> Option<Instant> {
        match sign {
            Sign::Positive => instant_after(epoch, duration),
            Sign::Negative => instant_before(epoch, duration),
        }
    }

    /// Whether a load that finds `word` in the atomic, and unpacks it to
    /// `duration` and `sign`, returns `point`: `point` is the instant that
    /// the platform has where the word points beside the epoch, and the
    /// epoch where the platform has none there.
    pub open spec fn finds(&self, word: i64, duration: Duration, sign: Sign, point: Instant) -> bool {
        &&& AtomicDuration::unpacks(word, duration, sign)
        &&& match Self::placed(self.epoch(), duration, sign) {
            Some(t) => {
                &&& point == t
                &&& instant_nanos(point) == point_at(instant_nanos(self.epoch()), word as int)
            },
            None => point == self.epoch(),
        }
    }

    /// The offset of `instant` from `epoch`: how far, and on which side.
    pub fn offset_between(epoch: Instant, instant: Instant) -> (offset: (Duration, Sign))
        ensures
            duration_nanos(offset.0) == offset_nanos(instant_nanos(epoch), instant_nanos(instant)),
            offset.1 == offset_sign(instant_nanos(epoch), instant_nanos(instant)),
    {
        match instant.checked_duration_since(epoch) {
            Some(duration) => (duration, Sign::Positive),
            None => (epoch.duration_since(instant), Sign::Negative),
        }
    }

    /// The offset that a timepoint made at `epoch` for `instant` starts with:
    /// that of `instant`, or none where `instant` lies too far from `epoch`
    /// for a word.
    pub fn initial_offset(epoch: Instant, instant: Instant) -> (offset: (Duration, Sign))
        ensures
            encodable(duration_nanos(offset.0)),
            spans(instant_nanos(epoch), instant_nanos(instant)) ==> {
                &&& duration_nanos(offset.0) == offset_nanos(
                    instant_nanos(epoch),
                    instant_nanos(instant),
                )
                &&& offset.1 == offset_sign(instant_nanos(epoch), instant_nanos(instant))
            },
            !spans(instant_nanos(epoch), instant_nanos(instant)) ==> {
                &&& duration_nanos(offset.0) == 0
                &&& offset.1 == Sign::Positive
            },
    {
        let (duration, sign) = Self::offset_between(epoch, instant);
        if AtomicDuration::can_hold(&duration) {
            (duration, sign)
        } else {
            (Duration::new(0, 0), Sign::Positive)
        }
    }

    /// The instant that lies `duration` from `epoch` on the side that `sign`
    /// names, where the platform has one.
    pub fn instant_at(epoch: Instant, duration: Duration, sign: Sign) -> (point: Option<Instant>)
        ensures
            point == Self::placed(epoch, duration, sign),
            point matches Some(t) ==> instant_nanos(t) == shifted(
                instant_nanos(epoch),
                duration_nanos(duration),
                sign,
            ),
    {
        match sign {
            Sign::Positive => epoch.checked_add(duration),
            Sign::Negative => epoch.checked_sub(duration),
        }
    }

    /// Constructs a new [`AtomicInstant`] with `epoch` as its epoch. It starts
    /// at `instant`, or at `epoch` where `instant` lies too far from it: see
    /// [`Self::initial_offset`].
    pub fn with_epoch(epoch: Instant, instant: Instant) -> (timepoint: Self)
        ensures
            timepoint.epoch() == epoch,
            timepoint.initial_word() == first_word(instant_nanos(epoch), instant_nanos(instant)),
    {
        let (duration, sign) = Self::initial_offset(epoch, instant);
        AtomicInstant { epoch, since_epoch: AtomicDuration::new(duration, sign) }
    }

    /// Constructs a new [`AtomicInstant`], using [`Instant::now()`] as epoch.
    ///
    /// What the clock reads is not known here. Whatever it reads, the
    /// timepoint starts with the word of `instant` beside that reading.
    pub fn new(instant: Instant) -> (timepoint: Self)
        ensures
            timepoint.initial_word() == first_word(
                instant_nanos(timepoint.epoch()),
                instant_nanos(instant),
            ),
    {
        Self::with_epoch(Instant::now(), instant)
    }

    /// Atomically loads the internal atomic using the specified [`Ordering`], and uses it to reconstruct the corresponding [`Instant`].
    ///
    /// Which word the atomic holds is not known here, so the contract speaks
    /// of some word: see [`Self::finds`].
    pub fn load(&self, ord: Ordering) -> (point: Instant)
        requires
            AtomicDuration::loads_with(ord),
        ensures
            exists|word: i64, duration: Duration, sign: Sign|
                self.finds(word, duration, sign, point),
    {
        let (duration, sign) = self.since_epoch.load(ord);
        let point = match Self::instant_at(self.epoch, duration, sign) {
            Some(point) => point,
            None => self.epoch,
        };
        proof {
            let word = choose|word: i64| AtomicDuration::unpacks(word, duration, sign);
            assert(self.finds(word, duration, sign, point));
        }
        point
    }

    /// Converts the [`Instant`] into an atomically storeable value, and stores it atomically using the specified [`Ordering`].
    ///
    /// The instant has to lie within what an offset from the epoch spans;
    /// [`Self::try_store`] finds that out for an instant of which it is not
    /// known.
    pub fn store(&self, instant: Instant, ord: Ordering)
        requires
            self.holds(instant),
            AtomicDuration::stores_with(ord),
    {
        let (duration, sign) = Self::offset_between(self.epoch, instant);
        self.since_epoch.store(duration, sign, ord)
    }

    /// Stores `instant` as [`Self::store`] does where its offset from the
    /// epoch fits a word, and leaves the timepoint as it is where it does not.
    pub fn try_store(&self, instant: Instant, ord: Ordering) -> (stored: bool)
        requires
            AtomicDuration::stores_with(ord),
        ensures
            stored == self.holds(instant),
    {
        let (duration, sign) = Self::offset_between(self.epoch, instant);
        let fits = AtomicDuration::can_hold(&duration);
        if fits {
            self.since_epoch.store(duration, sign, ord);
        }
        fits
    }

    /// A shortcut for `self.try_store(std::time::Instant::now(), ord)`: an
    /// instant that the timepoint cannot hold is left out, so that the
    /// timepoint goes stale instead of wrong.
    pub fn store_now(&self, ord: Ordering)
        requires
            AtomicDuration::stores_with(ord),
    {
        self.try_store(Instant::now(), ord);
    }

    /// Fidelity: a load that finds the word of `stored` returns an instant
    /// less than one microsecond from `stored`, and never beyond it as seen
    /// from the epoch, wherever the platform has that instant.
    pub proof fn lemma_load_of_stored(
        &self,
        stored: Instant,
        word: i64,
        duration: Duration,
        sign: Sign,
        point: Instant,
    )
        requires
            self.holds(stored),
            word == offset_word(instant_nanos(self.epoch()), instant_nanos(stored)),
            self.finds(word, duration, sign, point),
            Self::placed(self.epoch(), duration, sign) is Some,
        ensures
            offset_nanos(instant_nanos(point), instant_nanos(stored)) < nanos_per_micro(),
            instant_nanos(self.epoch()) <= instant_nanos(stored) ==> instant_nanos(self.epoch())
                <= instant_nanos(point) <= instant_nanos(stored),
            instant_nanos(stored) <= instant_nanos(self.epoch()) ==> instant_nanos(stored)
                <= instant_nanos(point) <= instant_nanos(self.epoch()),
    {
        lemma_fidelity(instant_nanos(self.epoch()), instant_nanos(stored));
    }

    /// Fidelity of a fresh timepoint: a load that finds the word that the
    /// timepoint was made with for `seed` returns an instant less than one
    /// microsecond from `seed`, wherever the offset of `seed` fits a word and
    /// the platform has that instant.
    pub proof fn lemma_load_of_seed(
        &self,
        seed: Instant,
        duration: Duration,
        sign: Sign,
        point: Instant,
    )
        requires
            self.initial_word() == first_word(instant_nanos(self.epoch()), instant_nanos(seed)),
            self.holds(seed),
            self.finds(self.initial_word(), duration, sign, point),
            Self::placed(self.epoch(), duration, sign) is Some,
        ensures
            offset_nanos(instant_nanos(point), instant_nanos(seed)) < nanos_per_micro(),
            instant_nanos(self.epoch()) <= instant_nanos(seed) ==> instant_nanos(self.epoch())
                <= instant_nanos(point) <= instant_nanos(seed),
            instant_nanos(seed) <= instant_nanos(self.epoch()) ==> instant_nanos(seed)
                <= instant_nanos(point) <= instant_nanos(self.epoch()),
    {
        self.lemma_load_of_stored(seed, self.initial_word(), duration, sign, point);
    }

    /// Order: of two loads that find the words of two stored instants, the
    /// one that finds the word of the later instant never returns the earlier
    /// instant, wherever the platform has both.
    pub proof fn lemma_loads_in_order(
        &self,
        earlier: Instant,
        later: Instant,
        first: (i64, Duration, Sign, Instant),
        second: (i64, Duration, Sign, Instant),
    )
        requires
            self.holds(earlier),
            self.holds(later),
            instant_nanos(earlier) <= instant_nanos(later),
            first.0 == offset_word(instant_nanos(self.epoch()), instant_nanos(earlier)),
            second.0 == offset_word(instant_nanos(self.epoch()), instant_nanos(later)),
            self.finds(first.0, first.1, first.2, first.3),
            self.finds(second.0, second.1, second.2, second.3),
            Self::placed(self.epoch(), first.1, first.2) is Some,
            Self::placed(self.epoch(), second.1, second.2) is Some,
        ensures
            instant_nanos(first.3) <= instant_nanos(second.3),
    {
        lemma_order_survives(
            instant_nanos(self.epoch()),
            instant_nanos(earlier),
            instant_nanos(later),
        );
    }

    /// Storing back: the instant that a load returns for the word of a stored
    /// instant can be stored, and its word is the word that the load found.
    /// So a load of it returns the same instant again.
    pub proof fn lemma_loaded_stores_back(
        &self,
        stored: Instant,
        word: i64,
        duration: Duration,
        sign: Sign,
        point: Instant,
    )
        requires
            self.holds(stored),
            word == offset_word(instant_nanos(self.epoch()), instant_nanos(stored)),
            self.finds(word, duration, sign, point),
            Self::placed(self.epoch(), duration, sign) is Some,
        ensures
            self.holds(point),
            offset_word(instant_nanos(self.epoch()), instant_nanos(point)) == word,
    {
        let epoch = instant_nanos(self.epoch());
        let nanos = offset_nanos(epoch, instant_nanos(stored));
        lemma_point_survives(epoch, instant_nanos(stored));
        lemma_packed_again(nanos);
        lemma_packed_zero(nanos);
    }
}

/// The task that keeps a [`LivelinessMonitor`] up to date: each time an
/// executor runs it, it reports the current instant and asks to be run again.
/// It holds its monitor weakly, and ends once nobody else holds the monitor.
#[verifier::external_body]
pub struct LivelinessMonitorFuture {
    pub(crate) monitor: Weak<LivelinessMonitor>,
}

/// The monitor that a task reports to.
pub uninterp spec fn watched(task: LivelinessMonitorFuture) -> LivelinessMonitor;

impl LivelinessMonitorFuture {
    /// Makes the task that reports to `monitor`. The body is `Arc::downgrade`,
    /// which makes a weak pointer to the allocation that `monitor` owns.
    #[verifier::external_body]
    pub(crate) fn watching(monitor: &Arc<LivelinessMonitor>) -> (task: Self)
        ensures
            watched(task) == **monitor,
    {
        LivelinessMonitorFuture { monitor: Arc::downgrade(monitor) }
    }

    /// Tries to get hold of the monitor. The body is `Weak::upgrade`, which
    /// returns an owner of the allocation that the weak pointer was made for,
    /// or `None` once that allocation has no owner left. Which of the two
    /// depends on what the other owners have done.
    #[verifier::external_body]
    fn upgrade(&self) -> (monitor: Option<Arc<LivelinessMonitor>>)
        ensures
            monitor matches Some(owner) ==> *owner == watched(*self),
    {
        self.monitor.upgrade()
    }

    /// Takes the task out of its pin. The body is `Pin::get_mut`.
    #[verifier::external_body]
    fn unpin<'a>(task: Pin<&'a mut Self>) -> &'a mut Self {
        task.get_mut()
    }

    /// One run of the task, given what became of its monitor. With a monitor,
    /// the task reports the current instant to it, wakes itself and stays
    /// pending. Without one, it is done.
    pub fn beat(monitor: Option<Arc<LivelinessMonitor>>, cx: &mut Context<'_>) -> (state: Poll<()>)
        ensures
            monitor is Some ==> state == Poll::<()>::Pending,
            monitor is None ==> state == Poll::Ready(()),
    {
        match monitor {
            Some(monitor) => {
                monitor.latest_report.store_now(Ordering::Relaxed);
                cx.waker().wake_by_ref();
                Poll::Pending
            },
            None => Poll::Ready(()),
        }
    }
}

impl Future for LivelinessMonitorFuture {
    type Output = ();

    fn poll(self: Pin<&mut Self>, cx: &mut Context<'_>) -> Poll<()> {
        let monitor = Self::unpin(self).upgrade();
        Self::beat(monitor, cx)
    }
}

} // verus!
