//! The layout of a signed offset in one 64-bit word, as arithmetic.
//!
//! The magnitude of the word counts whole seconds above its lowest twenty
//! bits and whole microseconds in them; the word's own sign is the sign of
//! the offset. Everything here is ghost code: the executable
//! codec is [`crate::support::AtomicDuration`].
use crate::clock::nanos_per_micro;
use crate::clock::nanos_per_sec;
use crate::support::Sign;
use vstd::prelude::*;

verus! {

/// How many values the sub-second field of a word can take: `2^20`.
pub open spec fn fraction_span() -> nat {
    0x10_0000
}

/// How many whole seconds a word can count: `2^43`, the width that is left
/// of 63 bits once the sub-second field is taken.
pub open spec fn seconds_span() -> nat {
    0x800_0000_0000
}

/// Whether a duration of `nanos` nanoseconds fits a word.
pub open spec fn encodable(nanos: nat) -> bool {
    nanos / nanos_per_sec() < seconds_span()
}

/// `nanos` rounded down to whole microseconds, still in nanoseconds.
pub open spec fn whole_micros(nanos: nat) -> nat {
    (nanos - nanos % nanos_per_micro()) as nat
}

/// The magnitude of the word for a duration of `nanos` nanoseconds.
pub open spec fn packed_magnitude(nanos: nat) -> nat {
    (nanos / nanos_per_sec()) * fraction_span() + (nanos % nanos_per_sec()) / nanos_per_micro()
}

/// The word for a duration of `nanos` nanoseconds with the given sign.
pub open spec fn packed(nanos: nat, sign: Sign) -> int {
    match sign {
        Sign::Positive => packed_magnitude(nanos) as int,
        Sign::Negative => -(packed_magnitude(nanos) as int),
    }
}

/// The magnitude of a word.
pub open spec fn magnitude(word: int) -> nat {
    if word < 0 {
        (-word) as nat
    } else {
        word as nat
    }
}

/// The duration that a word holds, in nanoseconds. The sub-second field is
/// read as it stands, also where it counts a second or more.
pub open spec fn unpacked_nanos(word: int) -> nat {
    (magnitude(word) / fraction_span()) * nanos_per_sec() + (magnitude(word) % fraction_span())
        * nanos_per_micro()
}

/// The sign that a word holds. Zero is positive.
pub open spec fn unpacked_sign(word: int) -> Sign {
    if word < 0 {
        Sign::Negative
    } else {
        Sign::Positive
    }
}

/// Splitting a count into a quotient and a remainder and joining them again
/// gives the same two parts.
proof fn lemma_join_split(quotient: nat, remainder: nat, unit: nat)
    requires
        remainder < unit,
    ensures
        (quotient * unit + remainder) / unit == quotient,
        (quotient * unit + remainder) % unit == remainder,
{
    vstd::arithmetic::div_mod::lemma_fundamental_div_mod_converse(
        (quotient * unit + remainder) as int,
        unit as int,
        quotient as int,
        remainder as int,
    );
}

/// The word of an encodable duration fits 64 bits with room to negate it, and
/// its two fields are the duration's whole seconds and whole microseconds.
pub proof fn lemma_packed_fields(nanos: nat)
    requires
        encodable(nanos),
    ensures
        packed_magnitude(nanos) <= i64::MAX,
        packed_magnitude(nanos) / fraction_span() == nanos / nanos_per_sec(),
        packed_magnitude(nanos) % fraction_span() == (nanos % nanos_per_sec()) / nanos_per_micro(),
        packed_magnitude(nanos) % fraction_span() < 1_000_000,
{
    let secs = nanos / nanos_per_sec();
    let micros = (nanos % nanos_per_sec()) / nanos_per_micro();
    assert(micros < 1_000_000);
    lemma_join_split(secs, micros, fraction_span());
}

/// Unpacking the word of a duration gives the duration back, rounded down to
/// whole microseconds.
pub proof fn lemma_unpacked_magnitude(nanos: nat)
    requires
        encodable(nanos),
    ensures
        unpacked_nanos(packed_magnitude(nanos) as int) == whole_micros(nanos),
{
    lemma_packed_fields(nanos);
    let secs = nanos / nanos_per_sec();
    let below = nanos % nanos_per_sec();
    let micros = below / nanos_per_micro();
    let rest = below % nanos_per_micro();
    assert(nanos == secs * 1_000_000_000 + below);
    assert(below == micros * 1_000 + rest);
    lemma_join_split(secs * 1_000_000 + micros, rest, nanos_per_micro());
    assert(nanos == (secs * 1_000_000 + micros) * 1_000 + rest);
}

/// The word of a duration is zero exactly when the duration is shorter than
/// one microsecond.
pub proof fn lemma_packed_zero(nanos: nat)
    ensures
        packed_magnitude(nanos) == 0 <==> nanos < nanos_per_micro(),
{
    let secs = nanos / nanos_per_sec();
    let below = nanos % nanos_per_sec();
    assert(nanos == secs * 1_000_000_000 + below);
    assert(packed_magnitude(nanos) == secs * 0x10_0000 + below / 1_000);
}

/// Round trip: for every duration that fits a word and either sign, unpacking
/// the packed word gives the duration rounded down to whole microseconds, and
/// the sign. A negative sign survives only beside a magnitude: the word of
/// less than one microsecond is zero, which is positive.
pub proof fn lemma_round_trip(nanos: nat, sign: Sign)
    requires
        encodable(nanos),
        sign == Sign::Negative ==> nanos >= nanos_per_micro(),
    ensures
        unpacked_nanos(packed(nanos, sign)) == whole_micros(nanos),
        unpacked_sign(packed(nanos, sign)) == sign,
{
    lemma_unpacked_magnitude(nanos);
    lemma_packed_zero(nanos);
}

/// Whatever the sign, the word of a duration shorter than one microsecond
/// unpacks to a positive zero.
pub proof fn lemma_round_trip_of_nothing(nanos: nat, sign: Sign)
    requires
        nanos < nanos_per_micro(),
    ensures
        packed(nanos, sign) == 0,
        unpacked_nanos(packed(nanos, sign)) == 0,
        unpacked_sign(packed(nanos, sign)) == Sign::Positive,
{
    lemma_packed_zero(nanos);
}

/// What packing drops is dropped once: a duration rounded down to whole
/// microseconds packs to the word of the duration itself.
pub proof fn lemma_packed_again(nanos: nat)
    ensures
        packed_magnitude(whole_micros(nanos)) == packed_magnitude(nanos),
        whole_micros(nanos) / nanos_per_sec() == nanos / nanos_per_sec(),
{
    let secs = nanos / nanos_per_sec();
    let below = nanos % nanos_per_sec();
    let micros = below / nanos_per_micro();
    let rest = below % nanos_per_micro();
    assert(nanos == secs * 1_000_000_000 + below);
    assert(below == micros * 1_000 + rest);
    lemma_join_split(secs * 1_000_000 + micros, rest, nanos_per_micro());
    assert(nanos == (secs * 1_000_000 + micros) * 1_000 + rest);
    assert(whole_micros(nanos) == secs * 1_000_000_000 + micros * 1_000);
    lemma_join_split(secs, micros * 1_000, nanos_per_sec());
    lemma_join_split(micros, 0, nanos_per_micro());
}

/// A longer duration never packs to a smaller word.
pub proof fn lemma_packed_monotonic(shorter: nat, longer: nat)
    requires
        shorter <= longer,
    ensures
        packed_magnitude(shorter) <= packed_magnitude(longer),
        whole_micros(shorter) <= whole_micros(longer),
{
    let s1 = shorter / nanos_per_sec();
    let s2 = longer / nanos_per_sec();
    let b1 = shorter % nanos_per_sec();
    let b2 = longer % nanos_per_sec();
    assert(shorter == s1 * 1_000_000_000 + b1);
    assert(longer == s2 * 1_000_000_000 + b2);
    assert(s1 <= s2);
    assert(b1 / 1_000 < 0x10_0000);
    assert(packed_magnitude(shorter) == s1 * 0x10_0000 + b1 / 1_000);
    assert(packed_magnitude(longer) == s2 * 0x10_0000 + b2 / 1_000);
    if s1 < s2 {
        assert(packed_magnitude(shorter) < (s1 + 1) * 0x10_0000);
    }
}

} // verus!
