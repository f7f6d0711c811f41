//! Pot linearization table, and the bin bookkeeping of stitching it together
//! from several sweep chunks over one shared position axis.
//!
//! A stitch spreads each step's motor turn over the counts the pot crossed in
//! it, averages the chunks that covered a count, and bridges the counts none
//! did. Which bins a step, a chunk and a gap concern is decided here.

use crate::exp::mag16;
use crate::math::{abs, greatest, least};
use vstd::prelude::*;

verus! {

/// Knots of the table.
pub const N_KNOTS: usize = 55;

/// Covered bins that a gap's edge density is taken over.
pub const GAP_ANCHOR: usize = 8;

/// 55 corrections, evenly spaced in raw counts from `raw_min` to `raw_max`.
#[derive(Copy, Clone, Debug, PartialEq, Eq)]
pub struct PotLut {
    pub raw_min: u16,
    pub raw_max: u16,
    pub corr: [i16; 55],
}

/// Two's complement bits of an `i16`.
pub open spec fn bits16(x: i16) -> int {
    x as int % 0x1_0000
}

/// Byte `i` of the knot block, low byte first.
pub open spec fn corr_byte(corr: Seq<i16>, i: int) -> int {
    if i % 2 == 0 {
        bits16(corr[i / 2]) % 256
    } else {
        bits16(corr[i / 2]) / 256
    }
}

impl PotLut {
    /// No correction: linearization is the plain fraction of the span.
    pub fn identity(raw_min: u16, raw_max: u16) -> (r: PotLut)
        ensures
            r.raw_min == raw_min,
            r.raw_max == raw_max,
            forall|i: int| 0 <= i < N_KNOTS ==> r.corr@[i] == 0,
    {
        PotLut { raw_min, raw_max, corr: [0; 55] }
    }

    /// Some knot corrects.
    pub fn populated(&self) -> (r: bool)
        ensures
            r <==> exists|i: int| 0 <= i < N_KNOTS && #[trigger] self.corr@[i] != 0,
    {
        let mut i: usize = 0;
        while i < 55
            invariant
                i <= 55,
                forall|k: int| 0 <= k < i ==> #[trigger] self.corr@[k] == 0,
            decreases 55 - i,
        {
            if self.corr[i] != 0 {
                assert(self.corr@[i as int] != 0);
                return true;
            }
            i = i + 1;
        }
        false
    }

    /// Largest correction, in counts.
    pub fn max_corr(&self) -> (r: u16)
        ensures
            forall|i: int| 0 <= i < N_KNOTS ==> abs(#[trigger] self.corr@[i] as int) <= r,
            exists|i: int| 0 <= i < N_KNOTS && abs(#[trigger] self.corr@[i] as int) == r,
    {
        let mut best: u16 = mag16(self.corr[0]);
        let mut i: usize = 1;
        let ghost mut at: int = 0;
        while i < 55
            invariant
                1 <= i <= 55,
                0 <= at < i,
                abs(self.corr@[at] as int) == best,
                forall|k: int| 0 <= k < i ==> abs(#[trigger] self.corr@[k] as int) <= best,
            decreases 55 - i,
        {
            let m: u16 = mag16(self.corr[i]);
            if m > best {
                best = m;
                proof {
                    at = i as int;
                }
            }
            i = i + 1;
        }
        best
    }

    /// The knot block as it goes over the wire: 110 bytes, each knot low byte
    /// first.
    pub fn corr_bytes(&self) -> (r: Vec<u8>)
        ensures
            r@.len() == 2 * N_KNOTS,
            forall|i: int| 0 <= i < 2 * N_KNOTS ==> #[trigger] r@[i] == corr_byte(self.corr@, i),
    {
        let mut out: Vec<u8> = Vec::new();
        let mut k: usize = 0;
        while k < 55
            invariant
                k <= 55,
                out@.len() == 2 * k,
                forall|i: int| 0 <= i < 2 * k ==> #[trigger] out@[i] == corr_byte(self.corr@, i),
            decreases 55 - k,
        {
            let c: i16 = self.corr[k];
            let bits: u16 = if c >= 0 {
                c as u16
            } else {
                (c as i32 + 0x1_0000) as u16
            };
            assert(bits == bits16(c));
            out.push((bits % 256) as u8);
            out.push((bits / 256) as u8);
            assert(corr_byte(self.corr@, 2 * k as int) == bits % 256);
            assert(corr_byte(self.corr@, 2 * k + 1) == bits / 256);
            k = k + 1;
        }
        out
    }
}

/// A step between two samples turns the motor while the pot is in this bin: the
/// one it sits in (the top interval where it sits on the upper rail), or each of
/// those it crosses.
pub open spec fn in_step(p: u16, q: u16, raw_min: u16, raw_max: u16, bin: int) -> bool {
    let a = least(p as int, q as int);
    let b = greatest(p as int, q as int);
    if a == b {
        raw_min <= a <= raw_max && bin == least(a, raw_max - 1) - raw_min
    } else {
        a <= bin + raw_min < b && 0 <= bin && bin + raw_min < raw_max
    }
}

/// Bins from `lo` up to but not including `hi`, and how many counts the step
/// spreads its turn over.
#[derive(Copy, Clone, Debug, PartialEq, Eq, Structural)]
pub struct StepBins {
    pub lo: usize,
    pub hi: usize,
    pub counts: u16,
}

/// Where a step's turn goes.
pub fn step_bins(p: u16, q: u16, raw_min: u16, raw_max: u16) -> (r: StepBins)
    requires
        raw_min < raw_max,
    ensures
        r.lo <= r.hi <= raw_max - raw_min,
        forall|bin: int|
            #![trigger in_step(p, q, raw_min, raw_max, bin)]
            in_step(p, q, raw_min, raw_max, bin) <==> r.lo <= bin < r.hi,
        r.counts == greatest(abs(p - q), 1),
        p == q ==> r.counts == 1,
        p < q ==> r.counts == q - p,
        p > q ==> r.counts == p - q,
{
    let a: u16 = if p < q {
        p
    } else {
        q
    };
    let b: u16 = if p < q {
        q
    } else {
        p
    };
    if a == b {
        if a < raw_min || a > raw_max {
            return StepBins { lo: 0, hi: 0, counts: 1 };
        }
        let at: u16 = if a < raw_max {
            a
        } else {
            raw_max - 1
        };
        let lo: usize = (at - raw_min) as usize;
        return StepBins { lo, hi: lo + 1, counts: 1 };
    }
    let from: u16 = if a > raw_min {
        a
    } else {
        raw_min
    };
    let to: u16 = if b < raw_max {
        b
    } else {
        raw_max
    };
    if from >= to {
        return StepBins { lo: 0, hi: 0, counts: b - a };
    }
    StepBins { lo: (from - raw_min) as usize, hi: (to - raw_min) as usize, counts: b - a }
}

/// Some step of a chunk falls in a bin.
pub open spec fn in_chunk(pos: Seq<u16>, raw_min: u16, raw_max: u16, bin: int) -> bool {
    exists|k: int| 0 <= k < pos.len() - 1 && #[trigger] step_at(pos, raw_min, raw_max, k, bin)
}

/// Step `k` of a chunk falls in a bin.
pub open spec fn step_at(pos: Seq<u16>, raw_min: u16, raw_max: u16, k: int, bin: int) -> bool {
    in_step(pos[k], pos[k + 1], raw_min, raw_max, bin)
}

/// The bins a chunk covers, one flag per count of the rail span.
pub fn touched(pos: &Vec<u16>, raw_min: u16, raw_max: u16) -> (r: Vec<bool>)
    requires
        raw_min < raw_max,
    ensures
        r@.len() == raw_max - raw_min + 1,
        forall|b: int|
            0 <= b < r@.len() ==> (#[trigger] r@[b] <==> in_chunk(pos@, raw_min, raw_max, b)),
{
    let bins: usize = (raw_max - raw_min) as usize + 1;
    let mut flags: Vec<bool> = Vec::new();
    let mut j: usize = 0;
    while j < bins
        invariant
            j <= bins,
            flags@.len() == j,
            forall|b: int| 0 <= b < j ==> !(#[trigger] flags@[b]),
        decreases bins - j,
    {
        flags.push(false);
        j = j + 1;
    }
    let n: usize = pos.len();
    let steps: usize = if n > 0 {
        n - 1
    } else {
        0
    };
    let mut k: usize = 0;
    while k < steps
        invariant
            raw_min < raw_max,
            n == pos@.len(),
            k <= steps,
            steps == (if n > 0 {
                n - 1
            } else {
                0
            }),
            bins == raw_max - raw_min + 1,
            flags@.len() == bins,
            forall|b: int|
                0 <= b < bins ==> (#[trigger] flags@[b] <==> exists|i: int|
                    0 <= i < k && #[trigger] step_at(pos@, raw_min, raw_max, i, b)),
        decreases steps - k,
    {
        let s: StepBins = step_bins(pos[k], pos[k + 1], raw_min, raw_max);
        let ghost before = flags@;
        let mut c: usize = s.lo;
        while c < s.hi
            invariant
                s.lo <= c <= s.hi < bins,
                flags@.len() == bins,
                before.len() == bins,
                forall|b: int|
                    0 <= b < bins ==> #[trigger] flags@[b] == (before[b] || s.lo <= b < c),
            decreases s.hi - c,
        {
            flags.set(c, true);
            c = c + 1;
        }
        assert forall|b: int| 0 <= b < bins implies (#[trigger] flags@[b] <==> exists|i: int|
            0 <= i < k + 1 && #[trigger] step_at(pos@, raw_min, raw_max, i, b)) by {
            assert(step_at(pos@, raw_min, raw_max, k as int, b) == in_step(
                pos@[k as int],
                pos@[k + 1],
                raw_min,
                raw_max,
                b,
            ));
            assert(flags@[b] == (before[b] || s.lo <= b < s.hi));
            if before[b] {
                let i = choose|i: int| 0 <= i < k && #[trigger] step_at(pos@, raw_min, raw_max, i, b);
                assert(step_at(pos@, raw_min, raw_max, i, b));
            }
        }
        k = k + 1;
    }
    assert forall|b: int| 0 <= b < flags@.len() implies (#[trigger] flags@[b] <==> in_chunk(
        pos@,
        raw_min,
        raw_max,
        b,
    )) by {
        if flags@[b] {
            let i = choose|i: int| 0 <= i < k && #[trigger] step_at(pos@, raw_min, raw_max, i, b);
            assert(step_at(pos@, raw_min, raw_max, i, b));
        }
        if in_chunk(pos@, raw_min, raw_max, b) {
            let i = choose|i: int|
                0 <= i < pos@.len() - 1 && #[trigger] step_at(pos@, raw_min, raw_max, i, b);
            assert(i < k);
        }
    }
    flags
}

/// Chunks among the first few that cover a bin.
pub open spec fn cover_count(marks: Seq<Seq<bool>>, bin: int) -> int
    decreases marks.len(),
{
    if marks.len() == 0 {
        0
    } else {
        cover_count(marks.drop_last(), bin) + if marks.last()[bin] {
            1int
        } else {
            0
        }
    }
}

pub open spec fn mark_views(marks: Seq<Vec<bool>>) -> Seq<Seq<bool>> {
    marks.map_values(|m: Vec<bool>| m@)
}

proof fn lemma_cover_bound(marks: Seq<Seq<bool>>, bin: int)
    ensures
        0 <= cover_count(marks, bin) <= marks.len(),
    decreases marks.len(),
{
    if marks.len() > 0 {
        lemma_cover_bound(marks.drop_last(), bin);
    }
}

/// How many chunks cover each bin.
pub fn coverage(marks: &Vec<Vec<bool>>, bins: usize) -> (r: Vec<u32>)
    requires
        marks@.len() <= u32::MAX,
        forall|m: int| 0 <= m < marks@.len() ==> (#[trigger] marks@[m])@.len() == bins,
    ensures
        r@.len() == bins,
        forall|b: int|
            0 <= b < bins ==> #[trigger] r@[b] == cover_count(mark_views(marks@), b),
{
    let ghost v = mark_views(marks@);
    let n: usize = marks.len();
    let mut out: Vec<u32> = Vec::new();
    let mut b: usize = 0;
    while b < bins
        invariant
            b <= bins,
            n == marks@.len(),
            n <= u32::MAX,
            v == mark_views(marks@),
            forall|m: int| 0 <= m < marks@.len() ==> (#[trigger] marks@[m])@.len() == bins,
            out@.len() == b,
            forall|i: int| 0 <= i < b ==> #[trigger] out@[i] == cover_count(v, i),
        decreases bins - b,
    {
        let mut count: u32 = 0;
        let mut m: usize = 0;
        assert(v.take(0) =~= Seq::<Seq<bool>>::empty());
        while m < n
            invariant
                m <= n,
                b < bins,
                n == marks@.len(),
                n <= u32::MAX,
                v == mark_views(marks@),
                forall|k: int| 0 <= k < marks@.len() ==> (#[trigger] marks@[k])@.len() == bins,
                count == cover_count(v.take(m as int), b as int),
                count <= m,
            decreases n - m,
        {
            assert(v.take(m + 1).drop_last() =~= v.take(m as int));
            assert(v.take(m + 1).last() == marks@[m as int]@);
            if marks[m][b] {
                count = count + 1;
            }
            m = m + 1;
        }
        assert(v.take(n as int) =~= v);
        out.push(count);
        b = b + 1;
    }
    out
}

/// The covered bins, in order.
pub open spec fn covered_bins(cov: Seq<u32>) -> Seq<int>
    decreases cov.len(),
{
    if cov.len() == 0 {
        seq![]
    } else if cov.last() > 0 {
        covered_bins(cov.drop_last()).push(cov.len() - 1)
    } else {
        covered_bins(cov.drop_last())
    }
}

/// How much of the span was covered and between which bins.
#[derive(Copy, Clone, Debug, PartialEq, Eq, Structural)]
pub struct Covered {
    pub count: usize,
    pub first: usize,
    pub last: usize,
}

proof fn lemma_covered(cov: Seq<u32>)
    ensures
        covered_bins(cov).len() <= cov.len(),
        forall|k: int|
            0 <= k < covered_bins(cov).len() ==> 0 <= #[trigger] covered_bins(cov)[k] < cov.len()
                && cov[covered_bins(cov)[k]] > 0,
        forall|j: int, k: int|
            0 <= j < k < covered_bins(cov).len() ==> (#[trigger] covered_bins(cov)[j]) < (
            #[trigger] covered_bins(cov)[k]),
        forall|b: int| 0 <= b < cov.len() && #[trigger] cov[b] > 0 ==> covered_bins(cov).contains(b),
    decreases cov.len(),
{
    if cov.len() > 0 {
        let t = cov.drop_last();
        lemma_covered(t);
        assert forall|b: int| 0 <= b < cov.len() && #[trigger] cov[b] > 0 implies covered_bins(
            cov,
        ).contains(b) by {
            if b < t.len() {
                assert(t[b] == cov[b]);
                let k = choose|k: int| 0 <= k < covered_bins(t).len() && covered_bins(t)[k] == b;
                assert(covered_bins(cov)[k] == b);
            } else {
                assert(covered_bins(cov)[covered_bins(cov).len() - 1] == b);
            }
        }
        assert forall|k: int| 0 <= k < covered_bins(cov).len() implies 0
            <= #[trigger] covered_bins(cov)[k] < cov.len() && cov[covered_bins(cov)[k]] > 0 by {
            if k < covered_bins(t).len() {
                assert(covered_bins(t)[k] == covered_bins(cov)[k]);
                assert(t[covered_bins(t)[k]] > 0);
            }
        }
        assert forall|j: int, k: int| 0 <= j < k < covered_bins(cov).len() implies (
        #[trigger] covered_bins(cov)[j]) < (#[trigger] covered_bins(cov)[k]) by {
            assert(covered_bins(t)[j] == covered_bins(cov)[j]);
            if k < covered_bins(t).len() {
                assert(covered_bins(t)[k] == covered_bins(cov)[k]);
            }
        }
    }
}

/// Extent of the coverage; nothing where fewer than two bins are covered.
pub fn covered(cov: &Vec<u32>) -> (r: Option<Covered>)
    ensures
        r is None <==> covered_bins(cov@).len() < 2,
        r matches Some(c) ==> c.count == covered_bins(cov@).len() && c.first == covered_bins(cov@)[0]
            && c.last == covered_bins(cov@).last() && c.first < c.last < cov@.len(),
{
    let n: usize = cov.len();
    let mut count: usize = 0;
    let mut first: usize = 0;
    let mut last: usize = 0;
    let mut b: usize = 0;
    assert(cov@.take(0) =~= Seq::<u32>::empty());
    while b < n
        invariant
            b <= n,
            n == cov@.len(),
            count <= b,
            count == covered_bins(cov@.take(b as int)).len(),
            count > 0 ==> first == covered_bins(cov@.take(b as int))[0],
            count > 0 ==> last == covered_bins(cov@.take(b as int)).last(),
        decreases n - b,
    {
        assert(cov@.take(b + 1).drop_last() =~= cov@.take(b as int));
        assert(cov@.take(b + 1).last() == cov@[b as int]);
        if cov[b] > 0 {
            if count == 0 {
                first = b;
            }
            last = b;
            count = count + 1;
        }
        b = b + 1;
    }
    assert(cov@.take(n as int) =~= cov@);
    if count < 2 {
        None
    } else {
        proof {
            lemma_covered(cov@);
            let s = covered_bins(cov@);
            assert(s[0] < s[s.len() - 1]);
        }
        Some(Covered { count, first, last })
    }
}

/// Two neighbouring covered bins with uncovered ones between.
#[derive(Copy, Clone, Debug, PartialEq, Eq, Structural)]
pub struct Gap {
    pub prev: usize,
    pub next: usize,
}

/// The gaps between successive covered bins.
pub open spec fn gaps_of(bins: Seq<int>) -> Seq<Gap>
    decreases bins.len(),
{
    if bins.len() < 2 {
        seq![]
    } else {
        let (p, q) = (bins[bins.len() - 2], bins.last());
        if q > p + 1 {
            gaps_of(bins.drop_last()).push(Gap { prev: p as usize, next: q as usize })
        } else {
            gaps_of(bins.drop_last())
        }
    }
}

/// Every gap to bridge, in order.
pub fn gaps(cov: &Vec<u32>) -> (r: Vec<Gap>)
    ensures
        r@ == gaps_of(covered_bins(cov@)),
{
    let n: usize = cov.len();
    let mut out: Vec<Gap> = Vec::new();
    let mut prev: Option<usize> = None;
    let mut b: usize = 0;
    assert(cov@.take(0) =~= Seq::<u32>::empty());
    while b < n
        invariant
            b <= n,
            n == cov@.len(),
            out@ == gaps_of(covered_bins(cov@.take(b as int))),
            match prev {
                None => covered_bins(cov@.take(b as int)).len() == 0,
                Some(p) => covered_bins(cov@.take(b as int)).len() > 0 && covered_bins(
                    cov@.take(b as int),
                ).last() == p && p < b,
            },
        decreases n - b,
    {
        let ghost before = covered_bins(cov@.take(b as int));
        assert(cov@.take(b + 1).drop_last() =~= cov@.take(b as int));
        assert(cov@.take(b + 1).last() == cov@[b as int]);
        if cov[b] > 0 {
            assert(before.push(b as int).drop_last() =~= before);
            if let Some(p) = prev {
                assert(before.push(b as int)[before.len() - 1] == p);
                if b > p + 1 {
                    out.push(Gap { prev: p, next: b });
                }
            }
            prev = Some(b);
        }
        b = b + 1;
    }
    assert(cov@.take(n as int) =~= cov@);
    out
}

/// Covered bins from `start` inward, nearest first, at most `left` of them and
/// none outside `lo..=hi`.
pub open spec fn inward(cov: Seq<u32>, start: int, up: bool, lo: int, hi: int, left: int) -> Seq<
    int,
>
    decreases
            (if up {
                hi - start + 1
            } else {
                start - lo + 1
            }),
{
    if left <= 0 || start < lo || start > hi {
        seq![]
    } else {
        let next = if up {
            start + 1
        } else {
            start - 1
        };
        if cov[start] > 0 {
            seq![start] + inward(cov, next, up, lo, hi, left - 1)
        } else {
            inward(cov, next, up, lo, hi, left)
        }
    }
}

/// The bins whose densities anchor one side of a gap.
pub fn anchor_bins(cov: &Vec<u32>, start: usize, up: bool, lo: usize, hi: usize) -> (r: Vec<usize>)
    requires
        lo <= start <= hi < cov@.len(),
    ensures
        r@.map_values(|b: usize| b as int) == inward(
            cov@,
            start as int,
            up,
            lo as int,
            hi as int,
            GAP_ANCHOR as int,
        ),
{
    let mut out: Vec<usize> = Vec::new();
    let n: usize = cov.len();
    assert(hi < n);
    let mut steps: usize = if up {
        hi - start + 1
    } else {
        start - lo + 1
    };
    let ghost want = inward(cov@, start as int, up, lo as int, hi as int, GAP_ANCHOR as int);
    let ghost mut b: int = start as int;
    assert(out@.map_values(|x: usize| x as int) + want =~= want);
    while steps > 0 && out.len() < GAP_ANCHOR
        invariant
            lo <= start <= hi < cov@.len(),
            out@.len() <= GAP_ANCHOR,
            want == out@.map_values(|x: usize| x as int) + inward(
                cov@,
                b,
                up,
                lo as int,
                hi as int,
                GAP_ANCHOR - out@.len(),
            ),
            up ==> b == hi + 1 - steps && start <= b,
            !up ==> b == lo + steps - 1 && b <= start,
            steps > 0 ==> lo <= b <= hi,
        decreases steps,
    {
        let i: usize = if up {
            hi - (steps - 1)
        } else {
            lo + (steps - 1)
        };
        assert(i == b);
        let ghost before = out@.map_values(|x: usize| x as int);
        let ghost rest = inward(
            cov@,
            if up {
                b + 1
            } else {
                b - 1
            },
            up,
            lo as int,
            hi as int,
            GAP_ANCHOR - out@.len() - if cov@[b] > 0 {
                1int
            } else {
                0
            },
        );
        if cov[i] > 0 {
            out.push(i);
            assert(out@.map_values(|x: usize| x as int) =~= before.push(b));
            assert(before + (seq![b] + rest) =~= before.push(b) + rest);
        }
        steps = steps - 1;
        proof {
            b = if up {
                b + 1
            } else {
                b - 1
            };
        }
    }
    assert(out@.map_values(|x: usize| x as int) =~= want);
    out
}

/// A step puts its turn only into bins of the rail span, and a step that stays
/// strictly inside the span loses none of it: it has as many bins as counts.
pub proof fn law_step_keeps_its_turn(p: u16, q: u16, raw_min: u16, raw_max: u16, r: StepBins)
    requires
        raw_min < raw_max,
        raw_min <= p <= raw_max,
        raw_min <= q <= raw_max,
        r.lo <= r.hi,
        forall|bin: int|
            #![trigger in_step(p, q, raw_min, raw_max, bin)]
            in_step(p, q, raw_min, raw_max, bin) <==> r.lo <= bin < r.hi,
        r.counts == greatest(abs(p - q), 1),
    ensures
        r.hi - r.lo == r.counts,
{
    let a = least(p as int, q as int);
    let b = greatest(p as int, q as int);
    if a == b {
        let at = least(a, raw_max - 1) - raw_min;
        assert(in_step(p, q, raw_min, raw_max, at));
        assert(!in_step(p, q, raw_min, raw_max, at - 1));
        assert(!in_step(p, q, raw_min, raw_max, at + 1));
    } else {
        assert(in_step(p, q, raw_min, raw_max, a - raw_min));
        assert(in_step(p, q, raw_min, raw_max, b - 1 - raw_min));
        assert(!in_step(p, q, raw_min, raw_max, a - 1 - raw_min));
        assert(!in_step(p, q, raw_min, raw_max, b - raw_min));
    }
}

proof fn lemma_bin_in_gap(bins: Seq<int>, b: int)
    requires
        bins.len() >= 2,
        forall|j: int, k: int|
            0 <= j < k < bins.len() ==> (#[trigger] bins[j]) < (#[trigger] bins[k]),
        forall|k: int| 0 <= k < bins.len() ==> 0 <= #[trigger] bins[k] <= usize::MAX,
        bins[0] < b < bins.last(),
        !bins.contains(b),
    ensures
        exists|g: int|
            0 <= g < gaps_of(bins).len() && (#[trigger] gaps_of(bins)[g]).prev < b < gaps_of(
                bins,
            )[g].next,
    decreases bins.len(),
{
    let (p, q) = (bins[bins.len() - 2], bins.last());
    if b > p {
        let g = gaps_of(bins).len() - 1;
        assert(gaps_of(bins)[g] == (Gap { prev: p as usize, next: q as usize }));
    } else {
        let t = bins.drop_last();
        assert(bins[bins.len() - 2] == p);
        assert(p != b);
        assert(t.last() == p);
        if t.len() < 2 {
            assert(bins[0] == p);
        }
        assert(!t.contains(b)) by {
            if t.contains(b) {
                let k = choose|k: int| 0 <= k < t.len() && t[k] == b;
                assert(bins[k] == b);
            }
        }
        assert forall|j: int, k: int| 0 <= j < k < t.len() implies (#[trigger] t[j]) < (
        #[trigger] t[k]) by {
            assert(bins[j] < bins[k]);
        }
        assert forall|k: int| 0 <= k < t.len() implies 0 <= #[trigger] t[k] <= usize::MAX by {
            assert(0 <= bins[k] <= usize::MAX);
        }
        lemma_bin_in_gap(t, b);
        let g = choose|g: int|
            0 <= g < gaps_of(t).len() && (#[trigger] gaps_of(t)[g]).prev < b < gaps_of(t)[g].next;
        assert(gaps_of(bins)[g] == gaps_of(t)[g]);
    }
}

/// Every uncovered bin between the outermost covered ones lies in a gap, so
/// bridging the gaps leaves no hole in the integrated turn.
pub proof fn law_gaps_cover_the_holes(cov: Seq<u32>, b: int)
    requires
        cov.len() <= usize::MAX,
        covered_bins(cov).len() >= 2,
        covered_bins(cov)[0] < b < covered_bins(cov).last(),
        cov[b] == 0,
    ensures
        exists|g: int|
            0 <= g < gaps_of(covered_bins(cov)).len() && (#[trigger] gaps_of(covered_bins(cov))[g]).prev
                < b < gaps_of(covered_bins(cov))[g].next,
{
    lemma_covered(cov);
    let s = covered_bins(cov);
    if s.contains(b) {
        let k = choose|k: int| 0 <= k < s.len() && s[k] == b;
        assert(cov[s[k]] > 0);
    }
    assert forall|k: int| 0 <= k < s.len() implies 0 <= #[trigger] s[k] <= usize::MAX by {
        assert(s[k] < cov.len());
    }
    lemma_bin_in_gap(s, b);
}

/// The two bytes of a knot are its two's complement, low byte first.
pub proof fn law_knot_bytes(corr: Seq<i16>, k: int)
    requires
        0 <= k < corr.len(),
    ensures
        0 <= corr_byte(corr, 2 * k) < 256,
        0 <= corr_byte(corr, 2 * k + 1) < 256,
        corr[k] >= 0 ==> corr_byte(corr, 2 * k) + 256 * corr_byte(corr, 2 * k + 1) == corr[k],
        corr[k] < 0 ==> corr_byte(corr, 2 * k) + 256 * corr_byte(corr, 2 * k + 1) == corr[k]
            + 65_536,
{
}

/// Which bins a step falls in: those the pot crosses between the two readings,
/// whichever way it moves, as far as they lie between the rails; a reading that
/// stands still between the rails has exactly the one it sits in, the last one
/// where it sits on the upper rail.
pub proof fn law_step_crosses(p: u16, q: u16, raw_min: u16, raw_max: u16, bin: int)
    requires
        raw_min < raw_max,
    ensures
        in_step(p, q, raw_min, raw_max, bin) == in_step(q, p, raw_min, raw_max, bin),
        in_step(p, q, raw_min, raw_max, bin) ==> 0 <= bin < raw_max - raw_min,
        p < q ==> (in_step(p, q, raw_min, raw_max, bin) <==> {
            let count = raw_min + bin;
            p <= count && count < q && raw_min <= count && count < raw_max
        }),
        p == q && raw_min <= p < raw_max ==> (in_step(p, q, raw_min, raw_max, bin) <==> bin == p
            - raw_min),
        p == q && p == raw_max ==> (in_step(p, q, raw_min, raw_max, bin) <==> bin == raw_max
            - raw_min - 1),
        p == q && (p < raw_min || p > raw_max) ==> !in_step(p, q, raw_min, raw_max, bin),
{
}

/// One more chunk adds one to the bins it covers and nothing to the others.
pub proof fn law_coverage_counts(marks: Seq<Seq<bool>>, m: Seq<bool>, bin: int)
    ensures
        cover_count(Seq::<Seq<bool>>::empty(), bin) == 0,
        m[bin] ==> cover_count(marks.push(m), bin) == cover_count(marks, bin) + 1,
        !m[bin] ==> cover_count(marks.push(m), bin) == cover_count(marks, bin),
{
    assert(marks.push(m).drop_last() =~= marks);
    assert(marks.push(m).last() == m);
}

/// The covered bins are exactly those some chunk covers, each once, upward.
pub proof fn law_covered_bins(cov: Seq<u32>, b: int)
    requires
        0 <= b < cov.len(),
    ensures
        covered_bins(cov).contains(b) <==> cov[b] != 0,
        forall|j: int, k: int|
            0 <= j < k < covered_bins(cov).len() ==> (#[trigger] covered_bins(cov)[j]) < (
            #[trigger] covered_bins(cov)[k]),
        forall|k: int|
            0 <= k < covered_bins(cov).len() ==> 0 <= #[trigger] covered_bins(cov)[k] < cov.len(),
{
    lemma_covered(cov);
    if covered_bins(cov).contains(b) {
        let k = choose|k: int| 0 <= k < covered_bins(cov).len() && covered_bins(cov)[k] == b;
        assert(cov[covered_bins(cov)[k]] > 0);
    }
}

/// Every gap lies between two neighbouring covered bins that do not touch.
pub proof fn law_gaps_are_gaps(bins: Seq<int>, g: int)
    requires
        forall|k: int| 0 <= k < bins.len() ==> 0 <= #[trigger] bins[k] <= usize::MAX,
        0 <= g < gaps_of(bins).len(),
    ensures
        exists|k: int|
            0 <= k < bins.len() - 1 && gaps_of(bins)[g].prev == #[trigger] bins[k] && gaps_of(
                bins,
            )[g].next == bins[k + 1] && bins[k + 1] - bins[k] >= 2,
    decreases bins.len(),
{
    if bins.len() >= 2 {
        let t = bins.drop_last();
        let n = bins.len();
        let (p, q) = (bins[n - 2], bins[n - 1]);
        if g < gaps_of(t).len() {
            assert forall|k: int| 0 <= k < t.len() implies 0 <= #[trigger] t[k] <= usize::MAX by {
                assert(t[k] == bins[k]);
            }
            law_gaps_are_gaps(t, g);
            assert(gaps_of(bins)[g] == gaps_of(t)[g]);
            let k = choose|k: int|
                0 <= k < t.len() - 1 && gaps_of(t)[g].prev == #[trigger] t[k] && gaps_of(t)[g].next
                    == t[k + 1] && t[k + 1] - t[k] >= 2;
            assert(bins[k] == t[k] && bins[k + 1] == t[k + 1]);
        } else {
            assert(bins[n - 2] == p);
        }
    }
}

/// The bins that anchor a gap's side: covered, inside the given ends, nearest
/// first from the start, no covered one passed over, and as many as asked for
/// where there are so many.
pub proof fn law_anchors(cov: Seq<u32>, start: int, up: bool, lo: int, hi: int, left: int)
    requires
        0 <= lo <= hi < cov.len(),
        up ==> lo <= start <= hi + 1,
        !up ==> lo - 1 <= start <= hi,
    ensures
        ({
            let a = inward(cov, start, up, lo, hi, left);
            &&& left <= 0 ==> a.len() == 0
            &&& left > 0 ==> a.len() <= left
            &&& forall|k: int|
                0 <= k < a.len() ==> lo <= #[trigger] a[k] <= hi && cov[a[k]] > 0 && (if up {
                    a[k] >= start
                } else {
                    a[k] <= start
                })
            &&& forall|j: int, k: int|
                0 <= j < k < a.len() ==> (if up {
                    (#[trigger] a[j]) < (#[trigger] a[k])
                } else {
                    a[j] > a[k]
                })
            &&& forall|b: int|
                lo <= b <= hi && #[trigger] cov[b] > 0 && (if up {
                    b >= start
                } else {
                    b <= start
                }) && !a.contains(b) ==> a.len() == (if left > 0 {
                    left
                } else {
                    0
                }) && (a.len() > 0 ==> if up {
                    b > a.last()
                } else {
                    b < a.last()
                })
        }),
    decreases
            (if up {
                hi - start + 1
            } else {
                start - lo + 1
            }),
{
    let a = inward(cov, start, up, lo, hi, left);
    if left > 0 && lo <= start <= hi {
        let next = if up {
            start + 1
        } else {
            start - 1
        };
        if cov[start] > 0 {
            let r = inward(cov, next, up, lo, hi, left - 1);
            law_anchors(cov, next, up, lo, hi, left - 1);
            assert(a == seq![start] + r);
            assert(a[0] == start);
            assert forall|k: int| 0 <= k < a.len() implies lo <= #[trigger] a[k] <= hi && cov[a[k]]
                > 0 && (if up {
                a[k] >= start
            } else {
                a[k] <= start
            }) by {
                if k > 0 {
                    assert(a[k] == r[k - 1]);
                }
            }
            assert forall|j: int, k: int| 0 <= j < k < a.len() implies (if up {
                (#[trigger] a[j]) < (#[trigger] a[k])
            } else {
                a[j] > a[k]
            }) by {
                assert(a[k] == r[k - 1]);
                if j > 0 {
                    assert(a[j] == r[j - 1]);
                }
            }
            assert forall|b: int|
                lo <= b <= hi && #[trigger] cov[b] > 0 && (if up {
                    b >= start
                } else {
                    b <= start
                }) && !a.contains(b) implies a.len() == left && (if up {
                b > a.last()
            } else {
                b < a.last()
            }) by {
                assert(b != start) by {
                    if b == start {
                        assert(a[0] == b);
                    }
                }
                assert(!r.contains(b)) by {
                    if r.contains(b) {
                        let k = choose|k: int| 0 <= k < r.len() && r[k] == b;
                        assert(a[k + 1] == b);
                    }
                }
                if r.len() > 0 {
                    assert(a.last() == r.last());
                } else {
                    assert(a.last() == start);
                }
            }
        } else {
            law_anchors(cov, next, up, lo, hi, left);
            assert(a == inward(cov, next, up, lo, hi, left));
        }
    }
}

/// A gap is anchored on eight covered bins, the table has 55 knots.
pub proof fn law_table_sizes()
    ensures
        GAP_ANCHOR == 8,
        N_KNOTS == 55,
{
}

/// One more reading covers what the pot crossed on the way to it; a chunk of one
/// reading covers nothing.
pub proof fn law_chunk_grows(pos: Seq<u16>, q: u16, raw_min: u16, raw_max: u16, bin: int)
    ensures
        pos.len() < 2 ==> !in_chunk(pos, raw_min, raw_max, bin),
        pos.len() > 0 ==> (in_chunk(pos.push(q), raw_min, raw_max, bin) <==> in_chunk(
            pos,
            raw_min,
            raw_max,
            bin,
        ) || in_step(pos.last(), q, raw_min, raw_max, bin)),
{
    let t = pos.push(q);
    let n = pos.len() as int;
    if n > 0 {
        assert(step_at(t, raw_min, raw_max, n - 1, bin) == in_step(
            pos.last(),
            q,
            raw_min,
            raw_max,
            bin,
        ));
        if in_chunk(pos, raw_min, raw_max, bin) {
            let k = choose|k: int|
                0 <= k < n - 1 && #[trigger] step_at(pos, raw_min, raw_max, k, bin);
            assert(step_at(t, raw_min, raw_max, k, bin));
        }
        if in_chunk(t, raw_min, raw_max, bin) {
            let k = choose|k: int| 0 <= k < n && #[trigger] step_at(t, raw_min, raw_max, k, bin);
            if k < n - 1 {
                assert(step_at(pos, raw_min, raw_max, k, bin));
            }
        }
    }
}

} // verus!
