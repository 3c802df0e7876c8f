//! Single-precision values carried as their IEEE-754 bit patterns, and the order among them.
//!
//! Numbers rank as they compare: the greater number ranks higher, and the two zeros rank
//! alike. The patterns that encode no number rank beyond the infinities, on the side of
//! their sign.

use vstd::prelude::*;

verus! {

/// The sign bit of a single-precision bit pattern.
pub const SIGN_BIT: u32 = 0x8000_0000u32;

/// The position of a bit pattern in the numeric order of the values it encodes:
/// the magnitude bits, negated where the sign bit is set.
pub open spec fn rank(bits: u32) -> int {
    if bits >= SIGN_BIT {
        -((bits - SIGN_BIT) as int)
    } else {
        bits as int
    }
}

/// Computes `rank`.
pub fn rank_of(bits: u32) -> (r: i64)
    ensures
        r == rank(bits),
{
    if bits >= SIGN_BIT {
        let m: u32 = bits - SIGN_BIT;
        let w: i64 = m as i64;
        -w
    } else {
        bits as i64
    }
}

/// The one of two bit patterns that ranks lower; the first where they rank alike.
pub open spec fn lower(a: u32, b: u32) -> u32 {
    if rank(b) < rank(a) {
        b
    } else {
        a
    }
}

/// The one of two bit patterns that ranks higher; the first where they rank alike.
pub open spec fn higher(a: u32, b: u32) -> u32 {
    if rank(b) > rank(a) {
        b
    } else {
        a
    }
}

/// The lowest-ranking of a sequence of bit patterns; the earliest such where several rank
/// alike.
pub open spec fn lowest(values: Seq<u32>) -> u32
    recommends
        values.len() > 0,
    decreases values.len(),
{
    if values.len() <= 1 {
        values[0]
    } else {
        lower(lowest(values.drop_last()), values.last())
    }
}

/// The highest-ranking of a sequence of bit patterns; the earliest such where several rank
/// alike.
pub open spec fn highest(values: Seq<u32>) -> u32
    recommends
        values.len() > 0,
    decreases values.len(),
{
    if values.len() <= 1 {
        values[0]
    } else {
        higher(highest(values.drop_last()), values.last())
    }
}

/// Computes `lower`.
pub fn lower_of(a: u32, b: u32) -> (r: u32)
    ensures
        r == lower(a, b),
{
    if rank_of(b) < rank_of(a) {
        b
    } else {
        a
    }
}

/// Computes `higher`.
pub fn higher_of(a: u32, b: u32) -> (r: u32)
    ensures
        r == higher(a, b),
{
    if rank_of(b) > rank_of(a) {
        b
    } else {
        a
    }
}

/// The lowest of a sequence is one of its members, and none ranks below it.
pub proof fn lemma_lowest_is_least(values: Seq<u32>)
    requires
        values.len() > 0,
    ensures
        values.contains(lowest(values)),
        forall|i: int| 0 <= i < values.len() ==> rank(lowest(values)) <= rank(#[trigger] values[i]),
    decreases values.len(),
{
    if values.len() > 1 {
        let front = values.drop_last();
        lemma_lowest_is_least(front);
        let k = choose|k: int| 0 <= k < front.len() && front[k] == lowest(front);
        assert(values[k] == lowest(front));
        assert(values[values.len() - 1] == values.last());
        assert forall|i: int| 0 <= i < values.len() implies rank(lowest(values)) <= rank(
            #[trigger] values[i],
        ) by {
            if i < front.len() {
                assert(front[i] == values[i]);
            }
        }
    } else {
        assert(values[0] == lowest(values));
    }
}

/// The highest of a sequence is one of its members, and none ranks above it.
pub proof fn lemma_highest_is_greatest(values: Seq<u32>)
    requires
        values.len() > 0,
    ensures
        values.contains(highest(values)),
        forall|i: int|
            0 <= i < values.len() ==> rank(highest(values)) >= rank(#[trigger] values[i]),
    decreases values.len(),
{
    if values.len() > 1 {
        let front = values.drop_last();
        lemma_highest_is_greatest(front);
        let k = choose|k: int| 0 <= k < front.len() && front[k] == highest(front);
        assert(values[k] == highest(front));
        assert(values[values.len() - 1] == values.last());
        assert forall|i: int| 0 <= i < values.len() implies rank(highest(values)) >= rank(
            #[trigger] values[i],
        ) by {
            if i < front.len() {
                assert(front[i] == values[i]);
            }
        }
    } else {
        assert(values[0] == highest(values));
    }
}

/// The lowest and the highest of a longer prefix follow from those of the prefix before it.
pub proof fn lemma_extremes_step(values: Seq<u32>, i: int)
    requires
        1 <= i < values.len(),
    ensures
        lowest(values.take(i + 1)) == lower(lowest(values.take(i)), values[i]),
        highest(values.take(i + 1)) == higher(highest(values.take(i)), values[i]),
{
    assert(values.take(i + 1).drop_last() =~= values.take(i));
    assert(values.take(i + 1).last() == values[i]);
}

} // verus!
