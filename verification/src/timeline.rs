//! Points in time as signed offsets from an epoch, as arithmetic.
//!
//! A point and an epoch are positions on one axis, in nanoseconds. The
//! offset of the point is its distance from the epoch with the side it lies
//! on. Everything here is ghost code: the executable timepoint
//! is [`crate::support::AtomicInstant`].
use crate::clock::nanos_per_micro;
use crate::codec::encodable;
use crate::codec::lemma_packed_monotonic;
use crate::codec::lemma_packed_zero;
use crate::codec::lemma_unpacked_magnitude;
use crate::codec::packed;
use crate::codec::unpacked_nanos;
use crate::codec::unpacked_sign;
use crate::codec::whole_micros;
use crate::support::Sign;
use vstd::prelude::*;

verus! {

/// The distance of `point` from `epoch`.
pub open spec fn offset_nanos(epoch: int, point: int) -> nat {
    if point < epoch {
        (epoch - point) as nat
    } else {
        (point - epoch) as nat
    }
}

/// The side of `epoch` that `point` lies on. The epoch itself is positive.
pub open spec fn offset_sign(epoch: int, point: int) -> Sign {
    if point < epoch {
        Sign::Negative
    } else {
        Sign::Positive
    }
}

/// Whether a word can hold the offset of `point` from `epoch`.
pub open spec fn spans(epoch: int, point: int) -> bool {
    encodable(offset_nanos(epoch, point))
}

/// The word that stands for `point` beside `epoch`.
pub open spec fn offset_word(epoch: int, point: int) -> int {
    packed(offset_nanos(epoch, point), offset_sign(epoch, point))
}

/// The word that a timepoint made at `epoch` for `point` starts with: that of
/// `point`, or that of `epoch` itself where no word can hold the offset of
/// `point`.
pub open spec fn first_word(epoch: int, point: int) -> int {
    if spans(epoch, point) {
        offset_word(epoch, point)
    } else {
        0
    }
}

/// The point that lies `nanos` from `epoch` on the side that `sign` names.
pub open spec fn shifted(epoch: int, nanos: nat, sign: Sign) -> int {
    match sign {
        Sign::Positive => epoch + nanos,
        Sign::Negative => epoch - nanos,
    }
}

/// The point that `word` stands for beside `epoch`.
pub open spec fn point_at(epoch: int, word: int) -> int {
    shifted(epoch, unpacked_nanos(word), unpacked_sign(word))
}

/// A point goes into a word and comes out again as the same point, moved
/// towards the epoch onto a whole microsecond of offset.
pub proof fn lemma_point_survives(epoch: int, point: int)
    requires
        spans(epoch, point),
    ensures
        point_at(epoch, offset_word(epoch, point)) == shifted(
            epoch,
            whole_micros(offset_nanos(epoch, point)),
            offset_sign(epoch, point),
        ),
{
    let nanos = offset_nanos(epoch, point);
    lemma_unpacked_magnitude(nanos);
    lemma_packed_zero(nanos);
}

/// Fidelity: the point that comes out of a word lies less than one
/// microsecond from the point that went in, and never beyond it as seen from
/// the epoch.
pub proof fn lemma_fidelity(epoch: int, point: int)
    requires
        spans(epoch, point),
    ensures
        offset_nanos(point_at(epoch, offset_word(epoch, point)), point) < nanos_per_micro(),
        epoch <= point ==> epoch <= point_at(epoch, offset_word(epoch, point)) <= point,
        point <= epoch ==> point <= point_at(epoch, offset_word(epoch, point)) <= epoch,
{
    lemma_point_survives(epoch, point);
}

/// Order: of two points that go into words beside one epoch, the later one
/// never comes out earlier than the other.
pub proof fn lemma_order_survives(epoch: int, earlier: int, later: int)
    requires
        spans(epoch, earlier),
        spans(epoch, later),
        earlier <= later,
    ensures
        point_at(epoch, offset_word(epoch, earlier)) <= point_at(epoch, offset_word(epoch, later)),
{
    lemma_point_survives(epoch, earlier);
    lemma_point_survives(epoch, later);
    if epoch <= earlier {
        lemma_packed_monotonic(offset_nanos(epoch, earlier), offset_nanos(epoch, later));
    } else if later < epoch {
        lemma_packed_monotonic(offset_nanos(epoch, later), offset_nanos(epoch, earlier));
    }
}

} // verus!
