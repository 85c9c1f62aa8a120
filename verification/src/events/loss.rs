//! How many frames were missed between two that were received, by the
//! sequence numbers of the two.

use vstd::prelude::*;

verus! {

/// The number of sequence numbers: they run from 0 to 4095 and start over.
pub const SEQUENCE_NUMBERS: u16 = 4096;

/// The sequence numbers that lie between `old` and `new`, going upwards
/// from `old` and starting over behind 4095.
pub open spec fn spec_gap(old: u16, new: u16) -> int {
    if new > old {
        new - old - 1
    } else {
        (SEQUENCE_NUMBERS + new) - old - 1
    }
}

/// The estimate of the frames that were lost between a frame with the
/// sequence number `old` and the next one received of the same sender and
/// subtype, which has the sequence number `new` and is a retransmission or
/// is none.
///
/// A retransmission under the same number is the same frame again, so none
/// was lost. Otherwise the numbers between the two were lost, and one more
/// where the new frame is a retransmission: its first transmission.
pub open spec fn spec_get_loss(old: u16, new: u16, retry: bool) -> int {
    if retry && old == new {
        0
    } else if retry {
        spec_gap(old, new) + 1
    } else {
        spec_gap(old, new)
    }
}

/// Estimates the frames that were lost between two frames of one sender and
/// subtype, the first with the sequence number `old`, the second with `new`.
pub fn get_loss(old: u16, new: u16, retry: bool) -> (lost: u16)
    requires
        old < SEQUENCE_NUMBERS,
        new < SEQUENCE_NUMBERS,
    ensures
        lost == spec_get_loss(old, new, retry),
        lost <= SEQUENCE_NUMBERS,
{
    if retry && old == new {
        return 0;
    }
    let gap = if new > old {
        new - old - 1
    } else {
        (SEQUENCE_NUMBERS + new) - old - 1
    };
    if retry {
        gap + 1
    } else {
        gap
    }
}

/// What following the sequence numbers of one sender and subtype makes of
/// the next frame, which has the number `new`: the estimate of the frames
/// lost before it, where there is one.
///
/// There is none for the first frame, when `last` is nothing, and none for
/// a frame with the number 0, with which the count starts over.
pub open spec fn spec_next_loss(last: Option<u16>, new: u16, retry: bool) -> Option<int> {
    match last {
        Some(old) => if new == 0 {
            None
        } else {
            Some(spec_get_loss(old, new, retry))
        },
        None => None,
    }
}

/// Follows the sequence numbers of one sender and subtype by one frame:
/// gives the estimate of the frames lost before the frame with the number
/// `new`, where there is one. From then on `new` is the last number seen.
pub fn next_loss(last: Option<u16>, new: u16, retry: bool) -> (lost: Option<u16>)
    requires
        new < SEQUENCE_NUMBERS,
        last matches Some(old) ==> old < SEQUENCE_NUMBERS,
    ensures
        match lost {
            Some(lost) => spec_next_loss(last, new, retry) == Some(lost as int),
            None => spec_next_loss(last, new, retry).is_none(),
        },
{
    match last {
        Some(old) => if new == 0 {
            None
        } else {
            Some(get_loss(old, new, retry))
        },
        None => None,
    }
}

} // verus!
