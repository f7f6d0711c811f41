//! Gear-mesh check: cutting a sweep into the segments it is judged over.
//!
//! Segments of equal length in samples, the ones next to the rails left out:
//! stiffness near a hard stop looks like slip.

use crate::exp::distance;
use crate::math::abs;
use vstd::prelude::*;

verus! {

/// Where segment `i` of `s` starts among `n` samples.
pub open spec fn cut(i: int, n: int, s: int) -> int {
    (i * n) / s
}

/// One segment: its first and last sample, and the counts travelled between.
#[derive(Copy, Clone, Debug, PartialEq, Eq, Structural)]
pub struct Segment {
    pub first: usize,
    pub last: usize,
    pub travel: u16,
}

/// A sweep that can be judged: a phase for every sample, at least two samples
/// to a segment, and three segments left once the edges are dropped.
pub open spec fn judgeable(n: int, phases: int, segments: int, edge_exclude: int) -> bool {
    &&& n == phases
    &&& n >= 2 * segments
    &&& segments - 2 * edge_exclude >= 3
}

pub open spec fn segment(pos: Seq<u16>, i: int, s: int) -> Segment {
    let first = cut(i, pos.len() as int, s);
    let last = cut(i + 1, pos.len() as int, s) - 1;
    Segment {
        first: first as usize,
        last: last as usize,
        travel: abs(pos[last] - pos[first]) as u16,
    }
}

proof fn lemma_cuts(i: int, n: int, s: int)
    requires
        s > 0,
        0 <= i < s,
        n >= 2 * s,
    ensures
        0 <= cut(i, n, s),
        cut(i, n, s) + 2 <= cut(i + 1, n, s) <= n,
{
    let a = cut(i, n, s);
    assert((i + 1) * n == i * n + n) by (nonlinear_arith);
    assert(a + 2 <= cut(i + 1, n, s)) by {
        vstd::arithmetic::div_mod::lemma_div_is_ordered(i * n + 2 * s, i * n + n, s);
        assert((i * n + 2 * s) / s == a + 2) by (nonlinear_arith)
            requires
                s > 0,
                a == (i * n) / s,
        ;
    }
    assert(0 <= i * n) by (nonlinear_arith)
        requires
            0 <= i,
            0 <= n,
    ;
    vstd::arithmetic::div_mod::lemma_div_pos_is_pos(i * n, s);
    assert((i + 1) * n <= s * n) by (nonlinear_arith)
        requires
            i + 1 <= s,
            0 <= n,
    ;
    vstd::arithmetic::div_mod::lemma_div_is_ordered((i + 1) * n, s * n, s);
    assert((s * n) / s == n) by {
        vstd::arithmetic::div_mod::lemma_div_multiples_vanish(n, s);
    }
}

fn cut_at(i: usize, n: usize, s: usize) -> (r: usize)
    requires
        s > 0,
        i <= s,
    ensures
        r == cut(i as int, n as int, s as int),
        r <= n,
{
    proof {
        let (i, n, s) = (i as int, n as int, s as int);
        assert(0 <= i * n <= s * n) by (nonlinear_arith)
            requires
                0 <= i <= s,
                0 <= n,
        ;
        assert(i * n <= 0xffff_ffff_ffff_ffff * 0xffff_ffff_ffff_ffff) by (nonlinear_arith)
            requires
                0 <= i <= 0xffff_ffff_ffff_ffff,
                0 <= n <= 0xffff_ffff_ffff_ffff,
        ;
        vstd::arithmetic::div_mod::lemma_div_is_ordered(i * n, s * n, s);
        vstd::arithmetic::div_mod::lemma_div_multiples_vanish(n, s);
        vstd::arithmetic::div_mod::lemma_div_pos_is_pos(i * n, s);
    }
    let p: u128 = i as u128 * n as u128;
    (p / s as u128) as usize
}

/// The segments a sweep is judged over; nothing where it cannot be.
pub fn core_segments(pos: &Vec<u16>, phases: usize, segments: usize, edge_exclude: usize) -> (r:
    Option<Vec<Segment>>)
    ensures
        r is Some <==> judgeable(
            pos@.len() as int,
            phases as int,
            segments as int,
            edge_exclude as int,
        ),
        r matches Some(v) ==> {
            &&& v@.len() == segments - 2 * edge_exclude
            &&& forall|j: int|
                0 <= j < v@.len() ==> #[trigger] v@[j] == segment(
                    pos@,
                    j + edge_exclude,
                    segments as int,
                )
            &&& forall|j: int|
                0 <= j < v@.len() ==> (#[trigger] v@[j]).first < v@[j].last < pos@.len()
        },
{
    let n: usize = pos.len();
    if n != phases || n / 2 < segments || segments < 3 {
        return None;
    }
    if edge_exclude > (segments - 3) / 2 {
        return None;
    }
    let end: usize = segments - edge_exclude;
    let mut out: Vec<Segment> = Vec::new();
    let mut i: usize = edge_exclude;
    while i < end
        invariant
            n == pos@.len(),
            n >= 2 * segments,
            segments >= 3,
            edge_exclude <= i <= end,
            end == segments - edge_exclude,
            end <= segments,
            out@.len() == i - edge_exclude,
            forall|j: int|
                0 <= j < out@.len() ==> #[trigger] out@[j] == segment(
                    pos@,
                    j + edge_exclude,
                    segments as int,
                ),
            forall|j: int| 0 <= j < out@.len() ==> (#[trigger] out@[j]).first < out@[j].last < n,
        decreases end - i,
    {
        proof {
            lemma_cuts(i as int, n as int, segments as int);
        }
        let first: usize = cut_at(i, n, segments);
        let last: usize = cut_at(i + 1, n, segments) - 1;
        out.push(Segment { first, last, travel: distance(pos[last], pos[first]) });
        i = i + 1;
    }
    Some(out)
}

/// Segments follow each other without a gap or an overlap: each starts right
/// after the one before it ends.
pub proof fn law_segments_tile(pos: Seq<u16>, i: int, s: int)
    requires
        s > 0,
        0 <= i,
        i + 1 < s,
        pos.len() >= 2 * s,
        pos.len() <= usize::MAX,
    ensures
        segment(pos, i + 1, s).first == segment(pos, i, s).last + 1,
{
    lemma_cuts(i, pos.len() as int, s);
    lemma_cuts(i + 1, pos.len() as int, s);
}

/// Segment `i` holds the samples whose place, scaled by the number of segments,
/// lies in its share of the sweep; its travel is the distance between its end
/// positions, whichever way the sweep runs.
pub proof fn law_segment_share(pos: Seq<u16>, i: int, s: int)
    requires
        s > 0,
        0 <= i < s,
        pos.len() >= 2 * s,
        pos.len() <= usize::MAX,
    ensures
        ({
            let g = segment(pos, i, s);
            let n = pos.len() as int;
            &&& g.first * s <= i * n < (g.first + 1) * s
            &&& (g.last + 1) * s <= (i + 1) * n < (g.last + 2) * s
            &&& pos[g.last as int] >= pos[g.first as int] ==> g.travel == pos[g.last as int]
                - pos[g.first as int]
            &&& pos[g.last as int] < pos[g.first as int] ==> g.travel == pos[g.first as int]
                - pos[g.last as int]
        }),
{
    let n = pos.len() as int;
    lemma_cuts(i, n, s);
    let g = segment(pos, i, s);
    vstd::arithmetic::div_mod::lemma_fundamental_div_mod(i * n, s);
    vstd::arithmetic::div_mod::lemma_mod_bound(i * n, s);
    vstd::arithmetic::div_mod::lemma_fundamental_div_mod((i + 1) * n, s);
    vstd::arithmetic::div_mod::lemma_mod_bound((i + 1) * n, s);
    let (a, b) = (cut(i, n, s), cut(i + 1, n, s));
    assert(a * s == s * a && (a + 1) * s == s * a + s && b * s == s * b && (b + 1) * s == s * b + s)
        by (nonlinear_arith);
    assert(g.first == a && g.last == b - 1);
}

/// A sweep is judged exactly when it has a phase for every sample, two samples
/// to a segment, and three segments between the edges.
pub proof fn law_judgeable(n: int, phases: int, segments: int, edges: int)
    ensures
        judgeable(n, phases, segments, edges) <==> !(n != phases || n < segments + segments
            || segments < edges + edges + 3),
{
}

} // verus!
