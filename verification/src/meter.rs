use vstd::prelude::*;
use crate::palette::Rgb;

verus! {

/// Number of segments in each level meter.
pub const METER_SEGMENTS: usize = 24;

/// What a meter segment shows.
#[derive(Clone, Copy, Debug, PartialEq, Eq, Structural)]
pub enum Segment {
    /// Not lit.
    Off,
    /// Lit, in the safe range (the lowest sixteen segments).
    Green,
    /// Lit, in the upper range (segments 16 to 18).
    Cyan,
    /// Lit, in the warning range (segments 19 to 21).
    Orange,
    /// Lit, in the top range (segments 22 and 23).
    Red,
}

/// The colour a segment shows when it is lit, by its position from the bottom.
pub open spec fn lit_color_at(index: int) -> Segment {
    if index < 16 {
        Segment::Green
    } else if index < 19 {
        Segment::Cyan
    } else if index < 22 {
        Segment::Orange
    } else {
        Segment::Red
    }
}

/// A segment is lit when it lies below the number of lit segments.
pub open spec fn segment_at(index: int, lit_count: int) -> Segment {
    if index < lit_count { lit_color_at(index) } else { Segment::Off }
}

/// The whole meter, bottom segment first.
pub open spec fn meter_of(lit_count: int) -> Seq<Segment> {
    Seq::new(METER_SEGMENTS as nat, |i: int| segment_at(i, lit_count))
}

/// The number of lit segments in a row of segments.
pub open spec fn count_lit(s: Seq<Segment>) -> nat
    decreases s.len(),
{
    if s.len() == 0 {
        0
    } else {
        count_lit(s.drop_last()) + if s.last() is Off { 0nat } else { 1nat }
    }
}

/// The colour a segment is painted in.
pub open spec fn segment_rgb_of(s: Segment) -> Rgb {
    match s {
        Segment::Off => Rgb { r: 203, g: 213, b: 220 },
        Segment::Green => Rgb { r: 82, g: 236, b: 135 },
        Segment::Cyan => Rgb { r: 76, g: 223, b: 242 },
        Segment::Orange => Rgb { r: 252, g: 163, b: 61 },
        Segment::Red => Rgb { r: 255, g: 94, b: 94 },
    }
}

/// What the segment at `index` (0 at the bottom) shows when `lit_count`
/// segments are lit.
pub fn segment(index: usize, lit_count: usize) -> (s: Segment)
    ensures
        s == segment_at(index as int, lit_count as int),
{
    if index < lit_count {
        if index < 16 {
            Segment::Green
        } else if index < 19 {
            Segment::Cyan
        } else if index < 22 {
            Segment::Orange
        } else {
            Segment::Red
        }
    } else {
        Segment::Off
    }
}

/// The segments of a meter with `lit_count` segments lit, bottom first.
pub fn meter(lit_count: usize) -> (m: Vec<Segment>)
    ensures
        m@ == meter_of(lit_count as int),
{
    let mut m: Vec<Segment> = Vec::new();
    let mut i: usize = 0;
    while i < METER_SEGMENTS
        invariant
            i <= METER_SEGMENTS,
            m@.len() == i,
            forall|j: int| 0 <= j < i ==> m@[j] == segment_at(j, lit_count as int),
        decreases METER_SEGMENTS - i,
    {
        m.push(segment(i, lit_count));
        i += 1;
    }
    assert(m@ == meter_of(lit_count as int));
    m
}

/// The colour a segment is painted in.
pub fn segment_rgb(s: Segment) -> (c: Rgb)
    ensures
        c == segment_rgb_of(s),
        s is Off ==> c == (Rgb { r: 203, g: 213, b: 220 }),
        s is Green ==> c == (Rgb { r: 82, g: 236, b: 135 }),
        s is Cyan ==> c == (Rgb { r: 76, g: 223, b: 242 }),
        s is Orange ==> c == (Rgb { r: 252, g: 163, b: 61 }),
        s is Red ==> c == (Rgb { r: 255, g: 94, b: 94 }),
{
    match s {
        Segment::Off => Rgb { r: 203, g: 213, b: 220 },
        Segment::Green => Rgb { r: 82, g: 236, b: 135 },
        Segment::Cyan => Rgb { r: 76, g: 223, b: 242 },
        Segment::Orange => Rgb { r: 252, g: 163, b: 61 },
        Segment::Red => Rgb { r: 255, g: 94, b: 94 },
    }
}

proof fn lemma_count_prefix(lit_count: int, k: int)
    requires
        0 <= k <= METER_SEGMENTS,
    ensures
        count_lit(meter_of(lit_count).take(k)) == if lit_count < 0 {
            0
        } else if lit_count < k {
            lit_count
        } else {
            k
        },
    decreases k,
{
    let m = meter_of(lit_count);
    if k > 0 {
        lemma_count_prefix(lit_count, k - 1);
        assert(m.take(k).drop_last() == m.take(k - 1));
        assert(m.take(k).last() == segment_at(k - 1, lit_count));
    }
}

/// A meter shows as many lit segments as asked for, but no more than it has.
pub proof fn lemma_lit_count(lit_count: int)
    requires
        0 <= lit_count,
    ensures
        count_lit(meter_of(lit_count)) == if lit_count < METER_SEGMENTS {
            lit_count
        } else {
            METER_SEGMENTS as int
        },
{
    lemma_count_prefix(lit_count, METER_SEGMENTS as int);
    assert(meter_of(lit_count).take(METER_SEGMENTS as int) == meter_of(lit_count));
}

/// The lit segments form an unbroken column from the bottom: below a lit
/// segment every segment is lit.
pub proof fn lemma_lit_from_bottom(lit_count: int, i: int, j: int)
    requires
        0 <= i <= j < METER_SEGMENTS,
        !(meter_of(lit_count)[j] is Off),
    ensures
        !(meter_of(lit_count)[i] is Off),
{
}

/// A higher level never darkens a segment nor changes its colour.
pub proof fn lemma_meter_monotone(low: int, high: int, i: int)
    requires
        low <= high,
        0 <= i < METER_SEGMENTS,
        !(meter_of(low)[i] is Off),
    ensures
        meter_of(high)[i] == meter_of(low)[i],
{
}

/// The colours rise through green, cyan, orange and red from the bottom:
/// a lit segment's colour depends on its position alone.
pub proof fn lemma_color_by_position(a: int, b: int, i: int)
    requires
        0 <= i < METER_SEGMENTS,
        !(meter_of(a)[i] is Off),
        !(meter_of(b)[i] is Off),
    ensures
        meter_of(a)[i] == meter_of(b)[i],
        meter_of(a)[i] == lit_color_at(i),
{
}

/// How many segments of a row show colour `c`.
pub open spec fn count_color(s: Seq<Segment>, c: Segment) -> nat
    decreases s.len(),
{
    if s.len() == 0 {
        0
    } else {
        count_color(s.drop_last(), c) + if s.last() == c { 1nat } else { 0nat }
    }
}

/// How much of the range `[lo, hi)` lies below `a`.
pub open spec fn part_below(a: int, lo: int, hi: int) -> int {
    if a <= lo {
        0
    } else if a >= hi {
        hi - lo
    } else {
        a - lo
    }
}

proof fn lemma_zone_count_prefix(n: int, k: int, c: Segment, lo: int, hi: int)
    requires
        0 <= k <= METER_SEGMENTS,
        0 <= lo <= hi,
        forall|i: int| 0 <= i < METER_SEGMENTS ==> (lit_color_at(i) == c <==> lo <= i < hi),
        !(c is Off),
    ensures
        count_color(meter_of(n).take(k), c) == part_below(if n < k { n } else { k }, lo, hi),
    decreases k,
{
    let m = meter_of(n);
    if k > 0 {
        lemma_zone_count_prefix(n, k - 1, c, lo, hi);
        assert(m.take(k).drop_last() == m.take(k - 1));
        assert(m.take(k).last() == segment_at(k - 1, n));
    }
}

/// As the level rises the meter fills the lowest sixteen segments green,
/// the next three cyan, the next three orange and the top two red: with
/// `n` segments lit, each colour shows on the part of its band below `n`.
pub proof fn lemma_zone_counts(n: int)
    ensures
        count_color(meter_of(n), Segment::Green) == part_below(n, 0, 16),
        count_color(meter_of(n), Segment::Cyan) == part_below(n, 16, 19),
        count_color(meter_of(n), Segment::Orange) == part_below(n, 19, 22),
        count_color(meter_of(n), Segment::Red) == part_below(n, 22, 24),
{
    let m = meter_of(n);
    assert(m.take(METER_SEGMENTS as int) == m);
    lemma_zone_count_prefix(n, 24, Segment::Green, 0, 16);
    lemma_zone_count_prefix(n, 24, Segment::Cyan, 16, 19);
    lemma_zone_count_prefix(n, 24, Segment::Orange, 19, 22);
    lemma_zone_count_prefix(n, 24, Segment::Red, 22, 24);
}

} // verus!
