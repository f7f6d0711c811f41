//! Sweep captures cut into clean runs. A capture fragments at dropped and
//! corrupt frames; each maximal run of consecutive sequence numbers keeps its
//! sample spacing uniform, which the ripple analysis assumes.

use crate::frame::TelFrame;
use crate::math::{greatest, least};
use vstd::prelude::*;
use vstd::slice::slice_subrange;

verus! {

/// A valid pot reading: the converter is 12-bit, so anything larger is
/// bit-corrupted.
pub const POS_MAX: u16 = 4095;

/// A chunk shorter than this carries no usable ripple.
pub const MIN_CHUNK_SAMPLES: usize = 200;

/// A chunk spanning less than this is a stall at a rail: ripple without travel.
pub const MIN_CHUNK_SPAN: u16 = 50;

/// Width of the band at each end of a run in which rail dwell may be fused to
/// it.
pub const EDGE_DWELL_COUNTS: u16 = 8;

/// One sweep sample.
#[derive(Copy, Clone, Debug, PartialEq, Eq, Structural)]
pub struct Sample {
    pub seq: u8,
    pub pos: u16,
    pub current: i16,
}

/// A run as the analysis takes it: positions and currents side by side.
pub struct Chunk {
    pub pos: Vec<u16>,
    pub current: Vec<i16>,
}

/// A run as plain values.
pub struct Run {
    pub pos: Seq<u16>,
    pub current: Seq<i16>,
}

impl Chunk {
    pub open spec fn view(&self) -> Run {
        Run { pos: self.pos@, current: self.current@ }
    }
}

pub fn pos_plausible(pos: u16) -> (r: bool)
    ensures
        r == (pos <= POS_MAX),
{
    pos <= POS_MAX
}

/// The sample of a frame that carries a plausible position and a current.
pub open spec fn sample_of(f: TelFrame) -> Option<Sample> {
    match (f.pos, f.current) {
        (Some(p), Some(c)) if p <= POS_MAX => Some(Sample { seq: f.seq, pos: p, current: c }),
        _ => None,
    }
}

/// The samples of a capture, in order; a frame without one leaves a gap in the
/// sequence numbers.
pub open spec fn samples_of(frames: Seq<TelFrame>) -> Seq<Sample>
    decreases frames.len(),
{
    if frames.len() == 0 {
        seq![]
    } else {
        match sample_of(frames.last()) {
            Some(s) => samples_of(frames.drop_last()).push(s),
            None => samples_of(frames.drop_last()),
        }
    }
}

/// The sequence number of `b` comes right after that of `a`.
pub open spec fn follows(a: Sample, b: Sample) -> bool {
    b.seq == (a.seq + 1) % 256
}

/// No frame was dropped between `lo` and `hi`.
pub open spec fn contiguous(s: Seq<Sample>, lo: int, hi: int) -> bool {
    forall|k: int| lo < k < hi ==> follows(s[k - 1], #[trigger] s[k])
}

pub fn samples(frames: &[TelFrame]) -> (r: Vec<Sample>)
    ensures
        r@ == samples_of(frames@),
{
    let mut out: Vec<Sample> = Vec::new();
    let mut i: usize = 0;
    assert(frames@.take(0) =~= Seq::<TelFrame>::empty());
    while i < frames.len()
        invariant
            i <= frames@.len(),
            out@ == samples_of(frames@.take(i as int)),
        decreases frames@.len() - i,
    {
        let f: TelFrame = frames[i];
        assert(frames@.take(i + 1).drop_last() =~= frames@.take(i as int));
        assert(frames@.take(i + 1).last() == f);
        if let Some(pos) = f.pos {
            if pos_plausible(pos) {
                if let Some(current) = f.current {
                    out.push(Sample { seq: f.seq, pos, current });
                }
            }
        }
        i = i + 1;
    }
    assert(frames@.take(frames@.len() as int) =~= frames@);
    out
}

/// A half-open range of samples.
#[derive(Copy, Clone, Debug, PartialEq, Eq, Structural)]
pub struct Range {
    pub lo: usize,
    pub hi: usize,
}

/// The longest range of consecutive sequence numbers, the first of them where
/// several are as long; nothing where no two samples follow each other.
pub fn longest_contiguous_run(s: &[Sample]) -> (r: Option<Range>)
    ensures
        r is None <==> forall|k: int| 0 < k < s@.len() ==> !follows(s@[k - 1], #[trigger] s@[k]),
        r matches Some(b) ==> {
            &&& b.lo + 2 <= b.hi <= s@.len()
            &&& contiguous(s@, b.lo as int, b.hi as int)
            &&& forall|lo: int, hi: int|
                0 <= lo <= hi <= s@.len() && #[trigger] contiguous(s@, lo, hi) ==> hi - lo <= b.hi
                    - b.lo
            &&& forall|lo: int, hi: int|
                0 <= lo <= hi <= s@.len() && #[trigger] contiguous(s@, lo, hi) && hi - lo == b.hi
                    - b.lo ==> b.lo <= lo
        },
{
    let n: usize = s.len();
    if n < 2 {
        return None;
    }
    let mut best_lo: usize = 0;
    let mut best_hi: usize = 0;
    let mut lo: usize = 0;
    let mut i: usize = 1;
    while i < n
        invariant
            n == s@.len(),
            2 <= n,
            1 <= i <= n,
            lo < i,
            best_lo <= best_hi <= lo,
            contiguous(s@, lo as int, i as int),
            lo > 0 ==> !follows(s@[lo - 1], s@[lo as int]),
            contiguous(s@, best_lo as int, best_hi as int),
            lo > 0 ==> best_lo < best_hi,
            forall|a: int, b: int|
                0 <= a < b <= i && #[trigger] contiguous(s@, a, b) ==> (a >= lo || (b - a <= best_hi
                    - best_lo && (b - a == best_hi - best_lo ==> best_lo <= a))),
        decreases n - i,
    {
        if s[i].seq != s[i - 1].seq.wrapping_add(1) {
            assert(!follows(s@[i - 1], s@[i as int]));
            let ghost (olo, obl, obh) = (lo, best_lo, best_hi);
            if i - lo > best_hi - best_lo {
                best_lo = lo;
                best_hi = i;
            }
            proof {
                assert forall|a: int, b: int|
                    0 <= a < b <= i + 1 && #[trigger] contiguous(s@, a, b) implies (a >= i || (b - a
                    <= best_hi - best_lo && (b - a == best_hi - best_lo ==> best_lo <= a))) by {
                    if a < i && b == i + 1 {
                        assert(follows(s@[i - 1], s@[i as int]));
                    }
                }
            }
            lo = i;
        } else {
            assert(follows(s@[i - 1], s@[i as int]));
            proof {
                assert forall|a: int, b: int|
                    0 <= a < b <= i + 1 && #[trigger] contiguous(s@, a, b) implies (a >= lo || (b - a
                    <= best_hi - best_lo && (b - a == best_hi - best_lo ==> best_lo <= a))) by {
                    if a < lo && b == i + 1 {
                        assert(follows(s@[lo - 1], s@[lo as int]));
                    }
                }
            }
        }
        i = i + 1;
    }
    if n - lo > best_hi - best_lo {
        best_lo = lo;
        best_hi = n;
    }
    assert forall|a: int, b: int| 0 <= a < b <= n && #[trigger] contiguous(s@, a, b) implies b - a
        <= best_hi - best_lo && (b - a == best_hi - best_lo ==> best_lo <= a) by {}
    if best_hi - best_lo >= 2 {
        assert(follows(s@[best_lo as int], s@[best_lo + 1]));
        Some(Range { lo: best_lo, hi: best_hi })
    } else {
        assert forall|k: int| 0 < k < n implies !follows(s@[k - 1], #[trigger] s@[k]) by {
            if follows(s@[k - 1], s@[k]) {
                assert(contiguous(s@, k - 1, k + 1));
            }
        }
        None
    }
}

/// Smallest position of a run.
pub open spec fn lowest(s: Seq<Sample>) -> int
    decreases s.len(),
{
    if s.len() <= 1 {
        s[0].pos as int
    } else {
        least(lowest(s.drop_last()), s.last().pos as int)
    }
}

/// Largest position of a run.
pub open spec fn highest(s: Seq<Sample>) -> int
    decreases s.len(),
{
    if s.len() <= 1 {
        s[0].pos as int
    } else {
        greatest(highest(s.drop_last()), s.last().pos as int)
    }
}

proof fn lemma_extremes(s: Seq<Sample>)
    requires
        s.len() > 0,
    ensures
        forall|k: int| 0 <= k < s.len() ==> lowest(s) <= (#[trigger] s[k]).pos <= highest(s),
        exists|k: int| 0 <= k < s.len() && (#[trigger] s[k]).pos == lowest(s),
        exists|k: int| 0 <= k < s.len() && (#[trigger] s[k]).pos == highest(s),
    decreases s.len(),
{
    if s.len() > 1 {
        let t = s.drop_last();
        lemma_extremes(t);
        let i = choose|k: int| 0 <= k < t.len() && (#[trigger] t[k]).pos == lowest(t);
        let j = choose|k: int| 0 <= k < t.len() && (#[trigger] t[k]).pos == highest(t);
        assert(s[i].pos == lowest(t) && s[j].pos == highest(t));
        assert(s[s.len() - 1].pos == s.last().pos);
        assert forall|k: int| 0 <= k < s.len() implies lowest(s) <= (#[trigger] s[k]).pos <= highest(
            s,
        ) by {
            if k < t.len() {
                assert(t[k] == s[k]);
            }
        }
    } else {
        assert(s[0].pos == lowest(s));
    }
}

/// Extreme positions of a run.
#[derive(Copy, Clone, Debug, PartialEq, Eq, Structural)]
pub struct Extent {
    pub lo: u16,
    pub hi: u16,
}

fn extent(run: &[Sample]) -> (r: Extent)
    requires
        run@.len() > 0,
    ensures
        r.lo == lowest(run@),
        r.hi == highest(run@),
        r.lo <= r.hi,
{
    let mut lo: u16 = run[0].pos;
    let mut hi: u16 = run[0].pos;
    let mut i: usize = 1;
    assert(run@.take(1)[0] == run@[0]);
    while i < run.len()
        invariant
            1 <= i <= run@.len(),
            lo == lowest(run@.take(i as int)),
            hi == highest(run@.take(i as int)),
            lo <= hi,
        decreases run@.len() - i,
    {
        let p: u16 = run[i].pos;
        assert(run@.take(i + 1).drop_last() =~= run@.take(i as int));
        assert(run@.take(i + 1).last() == run@[i as int]);
        if p < lo {
            lo = p;
        }
        if p > hi {
            hi = p;
        }
        i = i + 1;
    }
    assert(run@.take(run@.len() as int) =~= run@);
    Extent { lo, hi }
}

/// The run ends no lower than it starts.
pub open spec fn rising(s: Seq<Sample>) -> bool {
    s.last().pos >= s[0].pos
}

/// Past the dwell band of the end the run starts from.
pub open spec fn past_head(s: Seq<Sample>, pos: int) -> bool {
    if rising(s) {
        pos > lowest(s) + EDGE_DWELL_COUNTS
    } else {
        pos < highest(s) - EDGE_DWELL_COUNTS
    }
}

/// Inside the dwell band of the end the run heads for.
pub open spec fn at_tail(s: Seq<Sample>, pos: int) -> bool {
    if rising(s) {
        pos >= highest(s) - EDGE_DWELL_COUNTS
    } else {
        pos <= lowest(s) + EDGE_DWELL_COUNTS
    }
}

/// Place of the first sample past the head band, or the length.
pub open spec fn head_end(s: Seq<Sample>, k: int) -> int
    decreases s.len() - k,
{
    if k >= s.len() || past_head(s, s[k].pos as int) {
        k
    } else {
        head_end(s, k + 1)
    }
}

/// Place of the first sample inside the tail band, or the length.
pub open spec fn tail_start(s: Seq<Sample>, k: int) -> int
    decreases s.len() - k,
{
    if k >= s.len() || at_tail(s, s[k].pos as int) {
        k
    } else {
        tail_start(s, k + 1)
    }
}

/// The run without the rail dwell fused to its ends: from the first sample past
/// the head band through the first inside the tail band. A run narrower than
/// the two bands stays whole.
pub open spec fn undwelt(s: Seq<Sample>) -> Seq<Sample> {
    if highest(s) - lowest(s) <= 2 * EDGE_DWELL_COUNTS {
        s
    } else {
        let start = head_end(s, 0);
        s.subrange(start, greatest(tail_start(s, 0) + 1, start + 1))
    }
}

proof fn lemma_bands_met(s: Seq<Sample>, h: int, t: int)
    requires
        s.len() > 0,
        highest(s) - lowest(s) > 2 * EDGE_DWELL_COUNTS,
        0 <= h <= s.len(),
        0 <= t <= s.len(),
        forall|k: int| 0 <= k < h ==> !past_head(s, (#[trigger] s[k]).pos as int),
        forall|k: int| 0 <= k < t ==> !at_tail(s, (#[trigger] s[k]).pos as int),
    ensures
        h < s.len(),
        t < s.len(),
{
    lemma_extremes(s);
    let i = choose|k: int| 0 <= k < s.len() && (#[trigger] s[k]).pos == lowest(s);
    let j = choose|k: int| 0 <= k < s.len() && (#[trigger] s[k]).pos == highest(s);
    if rising(s) {
        assert(past_head(s, s[j].pos as int));
        assert(at_tail(s, s[j].pos as int));
    } else {
        assert(past_head(s, s[i].pos as int));
        assert(at_tail(s, s[i].pos as int));
    }
}

/// Trim rail dwell fused to a run's ends. First-crossing on both ends stands up
/// to buzz and mid-run jitter.
pub fn trim_edge_dwell(run: &[Sample]) -> (r: &[Sample])
    requires
        run@.len() > 0,
    ensures
        r@ == undwelt(run@),
        1 <= r@.len() <= run@.len(),
{
    let e: Extent = extent(run);
    if e.hi - e.lo <= 2 * EDGE_DWELL_COUNTS {
        return run;
    }
    let n: usize = run.len();
    let up: bool = run[n - 1].pos >= run[0].pos;
    assert(up == rising(run@));
    let mut start: usize = 0;
    while start < n && !(up && run[start].pos > e.lo + EDGE_DWELL_COUNTS) && !(!up
        && run[start].pos < e.hi - EDGE_DWELL_COUNTS)
        invariant
            n == run@.len(),
            n > 0,
            start <= n,
            up == rising(run@),
            e.lo == lowest(run@),
            e.hi == highest(run@),
            e.hi - e.lo > 2 * EDGE_DWELL_COUNTS,
            head_end(run@, 0) == head_end(run@, start as int),
            forall|k: int| 0 <= k < start ==> !past_head(run@, (#[trigger] run@[k]).pos as int),
        decreases n - start,
    {
        start = start + 1;
    }
    let mut tail: usize = 0;
    while tail < n && !(up && run[tail].pos >= e.hi - EDGE_DWELL_COUNTS) && !(!up
        && run[tail].pos <= e.lo + EDGE_DWELL_COUNTS)
        invariant
            n == run@.len(),
            n > 0,
            tail <= n,
            up == rising(run@),
            e.lo == lowest(run@),
            e.hi == highest(run@),
            e.hi - e.lo > 2 * EDGE_DWELL_COUNTS,
            tail_start(run@, 0) == tail_start(run@, tail as int),
            forall|k: int| 0 <= k < tail ==> !at_tail(run@, (#[trigger] run@[k]).pos as int),
        decreases n - tail,
    {
        tail = tail + 1;
    }
    proof {
        lemma_bands_met(run@, start as int, tail as int);
    }
    let end: usize = if tail > start {
        tail + 1
    } else {
        start + 1
    };
    slice_subrange(run, start, end)
}

pub open spec fn positions(s: Seq<Sample>) -> Seq<u16> {
    s.map_values(|x: Sample| x.pos)
}

pub open spec fn currents(s: Seq<Sample>) -> Seq<i16> {
    s.map_values(|x: Sample| x.current)
}

pub open spec fn run_of(s: Seq<Sample>) -> Run {
    Run { pos: positions(s), current: currents(s) }
}

fn chunk_of(run: &[Sample]) -> (r: Chunk)
    ensures
        r@ == run_of(run@),
{
    let mut pos: Vec<u16> = Vec::new();
    let mut current: Vec<i16> = Vec::new();
    let mut i: usize = 0;
    while i < run.len()
        invariant
            i <= run@.len(),
            pos@ == positions(run@).take(i as int),
            current@ == currents(run@).take(i as int),
        decreases run@.len() - i,
    {
        pos.push(run[i].pos);
        current.push(run[i].current);
        assert(positions(run@).take(i + 1) =~= positions(run@).take(i as int).push(run@[i as int].pos));
        assert(currents(run@).take(i + 1) =~= currents(run@).take(i as int).push(
            run@[i as int].current,
        ));
        i = i + 1;
    }
    assert(positions(run@).take(run@.len() as int) =~= positions(run@));
    assert(currents(run@).take(run@.len() as int) =~= currents(run@));
    Chunk { pos, current }
}

/// The longest contiguous run of a capture, the first of those as long, its edge
/// dwell trimmed; nothing where no two samples follow each other.
pub open spec fn longest_trimmed(frames: Seq<TelFrame>, r: Option<Chunk>) -> bool {
    let s = samples_of(frames);
    &&& r is None <==> forall|k: int| 0 < k < s.len() ==> !follows(s[k - 1], #[trigger] s[k])
    &&& r matches Some(c) ==> exists|lo: int, hi: int|
        {
            &&& 0 <= lo && lo + 2 <= hi <= s.len()
            &&& #[trigger] contiguous(s, lo, hi)
            &&& forall|a: int, b: int|
                0 <= a <= b <= s.len() && #[trigger] contiguous(s, a, b) ==> b - a < hi - lo || (b - a
                    == hi - lo && lo <= a)
            &&& c@ == run_of(undwelt(s.subrange(lo, hi)))
        }
}

/// The one run the slip check reads: the longest contiguous one, its edge dwell
/// trimmed. Positions need not be monotonic: the ripple rides on the current,
/// so a slipping gear still carries a clean signal.
pub fn build_sweep(frames: &[TelFrame]) -> (r: Option<Chunk>)
    ensures
        longest_trimmed(frames@, r),
{
    let s: Vec<Sample> = samples(frames);
    let b: Range = match longest_contiguous_run(s.as_slice()) {
        Some(b) => b,
        None => {
            return None;
        },
    };
    let run: &[Sample] = slice_subrange(s.as_slice(), b.lo, b.hi);
    let c: Chunk = chunk_of(trim_edge_dwell(run));
    assert(contiguous(s@, b.lo as int, b.hi as int));
    Some(c)
}

/// A run worth stitching: long enough, moving, and still long enough once its
/// edge dwell is gone.
pub open spec fn keeps(run: Seq<Sample>) -> bool {
    &&& run.len() >= MIN_CHUNK_SAMPLES
    &&& highest(run) - lowest(run) >= MIN_CHUNK_SPAN
    &&& undwelt(run).len() >= MIN_CHUNK_SAMPLES
}

/// What a run contributes.
pub open spec fn kept(run: Seq<Sample>) -> Seq<Run> {
    if keeps(run) {
        seq![run_of(undwelt(run))]
    } else {
        seq![]
    }
}

/// Length of the run a capture starts with.
pub open spec fn first_run(s: Seq<Sample>, k: int) -> int
    decreases s.len() - k,
{
    if k >= s.len() || !follows(s[k - 1], s[k]) {
        k
    } else {
        first_run(s, k + 1)
    }
}

/// Every run of a capture that is worth keeping, in order.
pub open spec fn chunks_of(s: Seq<Sample>) -> Seq<Run>
    decreases s.len(),
{
    if s.len() == 0 {
        seq![]
    } else {
        proof {
            lemma_first_run(s, 1);
        }
        kept(s.take(first_run(s, 1))) + chunks_of(s.skip(first_run(s, 1)))
    }
}

/// The run a capture starts with stays inside it.
pub proof fn lemma_first_run(s: Seq<Sample>, k: int)
    requires
        1 <= k <= s.len(),
    ensures
        k <= first_run(s, k) <= s.len(),
    decreases s.len() - k,
{
    if k < s.len() && follows(s[k - 1], s[k]) {
        lemma_first_run(s, k + 1);
    }
}

/// Reading a run further along a suffix is reading it in place.
proof fn lemma_first_run_shift(s: Seq<Sample>, lo: int, k: int)
    requires
        0 <= lo,
        1 <= k <= s.len() - lo,
    ensures
        first_run(s.skip(lo), k) == first_run(s, lo + k) - lo,
    decreases s.len() - lo - k,
{
    let t = s.skip(lo);
    if k < t.len() {
        assert(t[k - 1] == s[lo + k - 1] && t[k] == s[lo + k]);
        if follows(t[k - 1], t[k]) {
            lemma_first_run_shift(s, lo, k + 1);
        }
    }
}

pub open spec fn views(chunks: Seq<Chunk>) -> Seq<Run> {
    chunks.map_values(|c: Chunk| c@)
}

/// File a run, where it is worth keeping.
fn emit_chunk(run: &[Sample], chunks: &mut Vec<Chunk>)
    requires
        run@.len() > 0,
    ensures
        views(final(chunks)@) == views(old(chunks)@) + kept(run@),
{
    let ghost before = views(chunks@);
    if run.len() < MIN_CHUNK_SAMPLES {
        assert(before + kept(run@) =~= before);
        return ;
    }
    let e: Extent = extent(run);
    if e.hi - e.lo < MIN_CHUNK_SPAN {
        assert(before + kept(run@) =~= before);
        return ;
    }
    let trimmed: &[Sample] = trim_edge_dwell(run);
    if trimmed.len() >= MIN_CHUNK_SAMPLES {
        let c: Chunk = chunk_of(trimmed);
        chunks.push(c);
        assert(views(chunks@) =~= before + kept(run@));
    } else {
        assert(before + kept(run@) =~= before);
    }
}

/// Every clean run of a capture, for the stitch.
pub fn build_sweep_chunks(frames: &[TelFrame]) -> (r: Vec<Chunk>)
    ensures
        views(r@) == chunks_of(samples_of(frames@)),
{
    let s: Vec<Sample> = samples(frames);
    let mut chunks: Vec<Chunk> = Vec::new();
    let n: usize = s.len();
    assert(views(chunks@) =~= Seq::<Run>::empty());
    if n == 0 {
        return chunks;
    }
    let mut lo: usize = 0;
    let mut i: usize = 1;
    proof {
        assert(s@.skip(0) =~= s@);
        assert(Seq::<Run>::empty() + chunks_of(s@) =~= chunks_of(s@));
        lemma_first_run(s@, 1);
    }
    while i < n
        invariant
            n == s@.len(),
            lo < i <= n,
            first_run(s@, lo + 1) == first_run(s@, i as int),
            chunks_of(s@) == views(chunks@) + chunks_of(s@.skip(lo as int)),
        decreases n - i,
    {
        if s[i].seq != s[i - 1].seq.wrapping_add(1) {
            assert(!follows(s@[i - 1], s@[i as int]));
            let ghost rest = s@.skip(lo as int);
            let ghost before = views(chunks@);
            proof {
                lemma_first_run_shift(s@, lo as int, 1);
                assert(first_run(rest, 1) == i - lo);
                assert(rest.take(i - lo) =~= s@.subrange(lo as int, i as int));
                assert(rest.skip(i - lo) =~= s@.skip(i as int));
                assert(chunks_of(rest) == kept(rest.take(i - lo)) + chunks_of(rest.skip(i - lo)));
            }
            emit_chunk(slice_subrange(s.as_slice(), lo, i), &mut chunks);
            assert(before + (kept(s@.subrange(lo as int, i as int)) + chunks_of(s@.skip(i as int)))
                =~= views(chunks@) + chunks_of(s@.skip(i as int)));
            lo = i;
        } else {
            assert(follows(s@[i - 1], s@[i as int]));
        }
        i = i + 1;
    }
    let ghost rest = s@.skip(lo as int);
    let ghost before = views(chunks@);
    proof {
        lemma_first_run_shift(s@, lo as int, 1);
        assert(rest.take(n - lo) =~= s@.subrange(lo as int, n as int));
        assert(rest.skip(n - lo) =~= Seq::<Sample>::empty());
        assert(chunks_of(rest) == kept(rest.take(n - lo)) + chunks_of(rest.skip(n - lo)));
    }
    emit_chunk(slice_subrange(s.as_slice(), lo, n), &mut chunks);
    assert(before + (kept(s@.subrange(lo as int, n as int)) + Seq::<Run>::empty()) =~= views(
        chunks@,
    ));
    chunks
}

/// A capture yields no more samples than it has frames, each of them with a
/// plausible position.
proof fn lemma_samples(frames: Seq<TelFrame>)
    ensures
        samples_of(frames).len() <= frames.len(),
        forall|k: int|
            0 <= k < samples_of(frames).len() ==> (#[trigger] samples_of(frames)[k]).pos <= POS_MAX,
    decreases frames.len(),
{
    if frames.len() > 0 {
        lemma_samples(frames.drop_last());
    }
}

proof fn lemma_head_end(s: Seq<Sample>, k: int)
    requires
        0 <= k <= s.len(),
    ensures
        k <= head_end(s, k) <= s.len(),
        forall|j: int| k <= j < head_end(s, k) ==> !past_head(s, (#[trigger] s[j]).pos as int),
    decreases s.len() - k,
{
    if k < s.len() && !past_head(s, s[k].pos as int) {
        lemma_head_end(s, k + 1);
    }
}

proof fn lemma_tail_start(s: Seq<Sample>, k: int)
    requires
        0 <= k <= s.len(),
    ensures
        k <= tail_start(s, k) <= s.len(),
        forall|j: int| k <= j < tail_start(s, k) ==> !at_tail(s, (#[trigger] s[j]).pos as int),
    decreases s.len() - k,
{
    if k < s.len() && !at_tail(s, s[k].pos as int) {
        lemma_tail_start(s, k + 1);
    }
}

/// Trimming takes samples off the two ends of a run and nothing from its
/// middle, and never takes all of them.
pub proof fn law_trim_keeps_a_piece(s: Seq<Sample>) -> (cut: (int, int))
    requires
        s.len() > 0,
    ensures
        0 <= cut.0 < cut.1 <= s.len(),
        undwelt(s) == s.subrange(cut.0, cut.1),
{
    if highest(s) - lowest(s) <= 2 * EDGE_DWELL_COUNTS {
        assert(s.subrange(0, s.len() as int) =~= s);
        (0, s.len() as int)
    } else {
        lemma_head_end(s, 0);
        lemma_tail_start(s, 0);
        lemma_bands_met(s, head_end(s, 0), tail_start(s, 0));
        let start = head_end(s, 0);
        (start, greatest(tail_start(s, 0) + 1, start + 1))
    }
}

/// Samples in all the chunks together.
pub open spec fn total(chunks: Seq<Run>) -> int
    decreases chunks.len(),
{
    if chunks.len() == 0 {
        0
    } else {
        total(chunks.drop_last()) + chunks.last().pos.len()
    }
}

proof fn lemma_total_append(a: Seq<Run>, b: Seq<Run>)
    ensures
        total(a + b) == total(a) + total(b),
    decreases b.len(),
{
    if b.len() == 0 {
        assert(a + b =~= a);
    } else {
        lemma_total_append(a, b.drop_last());
        assert((a + b).drop_last() =~= a + b.drop_last());
        assert((a + b).last() == b.last());
    }
}

/// The first few chunks hold no more than all of them.
pub proof fn lemma_total_grows(chunks: Seq<Run>, k: int)
    requires
        0 <= k <= chunks.len(),
    ensures
        0 <= total(chunks.take(k)) <= total(chunks),
    decreases chunks.len(),
{
    if k == chunks.len() {
        assert(chunks.take(k) =~= chunks);
        if k > 0 {
            lemma_total_grows(chunks.drop_last(), k - 1);
            assert(chunks.drop_last().take(k - 1) =~= chunks.drop_last());
        }
    } else {
        lemma_total_grows(chunks.drop_last(), k);
        assert(chunks.drop_last().take(k) =~= chunks.take(k));
    }
}

proof fn lemma_kept(run: Seq<Sample>)
    requires
        run.len() > 0,
        forall|k: int| 0 <= k < run.len() ==> (#[trigger] run[k]).pos <= POS_MAX,
    ensures
        total(kept(run)) <= run.len(),
        forall|c: int| 0 <= c < kept(run).len() ==> usable(#[trigger] kept(run)[c]),
{
    let cut = law_trim_keeps_a_piece(run);
    reveal_with_fuel(total, 2);
    if keeps(run) {
        let t = undwelt(run);
        assert(kept(run).drop_last() =~= Seq::<Run>::empty());
        assert forall|k: int| 0 <= k < t.len() implies (#[trigger] run_of(t).pos[k]) <= POS_MAX by {
            assert(t[k] == run[cut.0 + k]);
        }
    }
}

/// A chunk the ripple analysis can take: long enough, a current for every
/// position, and no position beyond the converter.
pub open spec fn usable(c: Run) -> bool {
    &&& c.pos.len() >= MIN_CHUNK_SAMPLES
    &&& c.current.len() == c.pos.len()
    &&& forall|k: int| 0 <= k < c.pos.len() ==> #[trigger] c.pos[k] <= POS_MAX
}

proof fn lemma_chunks(s: Seq<Sample>)
    requires
        forall|k: int| 0 <= k < s.len() ==> (#[trigger] s[k]).pos <= POS_MAX,
    ensures
        total(chunks_of(s)) <= s.len(),
        forall|c: int| 0 <= c < chunks_of(s).len() ==> usable(#[trigger] chunks_of(s)[c]),
    decreases s.len(),
{
    if s.len() > 0 {
        lemma_first_run(s, 1);
        let n = first_run(s, 1);
        let (a, b) = (kept(s.take(n)), chunks_of(s.skip(n)));
        lemma_kept(s.take(n));
        lemma_chunks(s.skip(n));
        lemma_total_append(a, b);
        assert forall|c: int| 0 <= c < (a + b).len() implies usable(#[trigger] (a + b)[c]) by {
            if c < a.len() {
                assert(usable(a[c]));
            } else {
                assert(usable(b[c - a.len()]));
            }
        }
    }
}

/// Every chunk of a capture is usable, and no sample comes out twice: together
/// they hold no more samples than the capture has frames.
pub proof fn law_chunks_are_usable(frames: Seq<TelFrame>)
    ensures
        total(chunks_of(samples_of(frames))) <= frames.len(),
        forall|c: int|
            0 <= c < chunks_of(samples_of(frames)).len() ==> usable(
                #[trigger] chunks_of(samples_of(frames))[c],
            ),
{
    lemma_samples(frames);
    lemma_chunks(samples_of(frames));
}

/// A frame gives a sample exactly when it carries a current and a position of
/// at most twelve bits; the sample is the frame's own.
pub proof fn law_frame_sample(frames: Seq<TelFrame>, f: TelFrame)
    ensures
        sample_of(f) is Some <==> f.current is Some && f.pos is Some && f.pos->0 < 4096,
        sample_of(f) matches Some(s) ==> s.seq == f.seq && f.pos == Some(s.pos) && f.current == Some(
            s.current,
        ),
        sample_of(f) matches Some(s) ==> samples_of(frames.push(f)) == samples_of(frames).push(s),
        sample_of(f) is None ==> samples_of(frames.push(f)) == samples_of(frames),
        samples_of(Seq::<TelFrame>::empty()).len() == 0,
{
    assert(frames.push(f).drop_last() =~= frames);
    assert(frames.push(f).last() == f);
}

/// Sequence numbers follow by one, and 0 follows 255.
pub proof fn law_sequence_follows(a: Sample, b: Sample)
    ensures
        a.seq < 255 ==> (follows(a, b) <==> b.seq == a.seq + 1),
        a.seq == 255 ==> (follows(a, b) <==> b.seq == 0),
{
}

/// The extremes of a run are positions of it, and no position lies outside
/// them.
pub proof fn law_run_extremes(s: Seq<Sample>)
    requires
        s.len() > 0,
    ensures
        forall|k: int| 0 <= k < s.len() ==> lowest(s) <= (#[trigger] s[k]).pos <= highest(s),
        exists|k: int| 0 <= k < s.len() && (#[trigger] s[k]).pos == lowest(s),
        exists|k: int| 0 <= k < s.len() && (#[trigger] s[k]).pos == highest(s),
{
    lemma_extremes(s);
}

/// Trimming cuts at first crossings, eight counts inside the extremes. A rising
/// run starts at its first sample more than eight above the lowest and ends
/// with the first within eight of the highest, or where it starts if that came
/// before; a falling run the other way round. A run spanning sixteen counts or
/// fewer is left whole.
pub proof fn law_trim_at_first_crossing(s: Seq<Sample>) -> (cut: (int, int))
    requires
        s.len() > 0,
    ensures
        0 <= cut.0 < cut.1 <= s.len(),
        undwelt(s) == s.subrange(cut.0, cut.1),
        highest(s) - lowest(s) <= 16 ==> undwelt(s) == s,
        highest(s) - lowest(s) > 16 && s[s.len() - 1].pos >= s[0].pos ==> {
            &&& forall|k: int| 0 <= k < cut.0 ==> (#[trigger] s[k]).pos <= lowest(s) + 8
            &&& s[cut.0].pos > lowest(s) + 8
            &&& forall|k: int| 0 <= k < cut.1 - 1 && k != cut.0 && cut.0 + 1 < cut.1 ==> (
            #[trigger] s[k]).pos < highest(s) - 8
            &&& cut.0 + 1 < cut.1 ==> s[cut.1 - 1].pos >= highest(s) - 8 && s[cut.0].pos < highest(s)
                - 8
            &&& cut.0 + 1 == cut.1 ==> exists|k: int|
                0 <= k <= cut.0 && (#[trigger] s[k]).pos >= highest(s) - 8
        },
        highest(s) - lowest(s) > 16 && s[s.len() - 1].pos < s[0].pos ==> {
            &&& forall|k: int| 0 <= k < cut.0 ==> (#[trigger] s[k]).pos >= highest(s) - 8
            &&& s[cut.0].pos < highest(s) - 8
            &&& forall|k: int| 0 <= k < cut.1 - 1 && k != cut.0 && cut.0 + 1 < cut.1 ==> (
            #[trigger] s[k]).pos > lowest(s) + 8
            &&& cut.0 + 1 < cut.1 ==> s[cut.1 - 1].pos <= lowest(s) + 8 && s[cut.0].pos > lowest(s)
                + 8
            &&& cut.0 + 1 == cut.1 ==> exists|k: int|
                0 <= k <= cut.0 && (#[trigger] s[k]).pos <= lowest(s) + 8
        },
{
    if highest(s) - lowest(s) <= 2 * EDGE_DWELL_COUNTS {
        assert(s.subrange(0, s.len() as int) =~= s);
        (0, s.len() as int)
    } else {
        let (h, t) = (head_end(s, 0), tail_start(s, 0));
        lemma_head_end(s, 0);
        lemma_tail_start(s, 0);
        lemma_bands_met(s, h, t);
        lemma_head_stops(s, 0);
        lemma_tail_stops(s, 0);
        assert(past_head(s, s[h].pos as int));
        assert(at_tail(s, s[t].pos as int));
        assert(forall|k: int| 0 <= k < h ==> !past_head(s, (#[trigger] s[k]).pos as int));
        assert(forall|k: int| 0 <= k < t ==> !at_tail(s, (#[trigger] s[k]).pos as int));
        (h, greatest(t + 1, h + 1))
    }
}

proof fn lemma_head_stops(s: Seq<Sample>, k: int)
    requires
        0 <= k <= s.len(),
        head_end(s, k) < s.len(),
    ensures
        past_head(s, s[head_end(s, k)].pos as int),
    decreases s.len() - k,
{
    if k < s.len() && !past_head(s, s[k].pos as int) {
        lemma_head_stops(s, k + 1);
    }
}

proof fn lemma_tail_stops(s: Seq<Sample>, k: int)
    requires
        0 <= k <= s.len(),
        tail_start(s, k) < s.len(),
    ensures
        at_tail(s, s[tail_start(s, k)].pos as int),
    decreases s.len() - k,
{
    if k < s.len() && !at_tail(s, s[k].pos as int) {
        lemma_tail_stops(s, k + 1);
    }
}

/// A run is kept exactly when it has 200 samples, spans 50 counts, and has 200
/// samples left after the trim; what is kept is the trimmed run, its positions
/// and currents side by side.
pub proof fn law_run_is_kept(run: Seq<Sample>)
    ensures
        run.len() >= 200 && highest(run) - lowest(run) >= 50 && undwelt(run).len() >= 200 ==> {
            &&& kept(run).len() == 1
            &&& kept(run)[0].pos.len() == undwelt(run).len()
            &&& kept(run)[0].current.len() == undwelt(run).len()
            &&& forall|k: int|
                0 <= k < undwelt(run).len() ==> #[trigger] kept(run)[0].pos[k] == undwelt(run)[k].pos
            &&& forall|k: int|
                0 <= k < undwelt(run).len() ==> #[trigger] kept(run)[0].current[k]
                    == undwelt(run)[k].current
        },
        run.len() < 200 || highest(run) - lowest(run) < 50 || undwelt(run).len() < 200 ==> kept(
            run,
        ).len() == 0,
{
}

proof fn lemma_first_run_contiguous(s: Seq<Sample>, k: int, n: int)
    requires
        1 <= k <= n <= s.len(),
        contiguous(s, k - 1, n),
        n < s.len() ==> !follows(s[n - 1], s[n]),
    ensures
        first_run(s, k) == n,
    decreases n - k,
{
    if k < n {
        assert(follows(s[k - 1], s[k]));
        lemma_first_run_contiguous(s, k + 1, n);
    }
}

/// A capture is cut at every break in the sequence and nowhere else: up to the
/// first break it is one run, and the rest is cut on its own.
pub proof fn law_chunks_cut_at_breaks(s: Seq<Sample>, n: int)
    requires
        0 < n <= s.len(),
        contiguous(s, 0, n),
        n < s.len() ==> !follows(s[n - 1], s[n]),
    ensures
        chunks_of(s) == kept(s.take(n)) + chunks_of(s.skip(n)),
        chunks_of(Seq::<Sample>::empty()).len() == 0,
{
    lemma_first_run_contiguous(s, 1, n);
}

/// Which run the slip check reads: the longest of consecutive sequence numbers,
/// and of several as long the first.
pub proof fn law_longest_run(frames: Seq<TelFrame>, lo: int, hi: int, r: Option<Chunk>)
    requires
        longest_trimmed(frames, r),
        0 <= lo,
        lo + 2 <= hi <= samples_of(frames).len(),
        contiguous(samples_of(frames), lo, hi),
        forall|a: int, b: int|
            0 <= a <= b <= samples_of(frames).len() && #[trigger] contiguous(
                samples_of(frames),
                a,
                b,
            ) && b - a >= hi - lo ==> b - a == hi - lo && a >= lo,
    ensures
        r matches Some(c) && c@ == run_of(undwelt(samples_of(frames).subrange(lo, hi))),
{
    let s = samples_of(frames);
    assert(follows(s[lo], s[lo + 1]));
    let c = r->0;
    let (a, b) = choose|a: int, b: int|
        {
            &&& 0 <= a && a + 2 <= b <= s.len()
            &&& #[trigger] contiguous(s, a, b)
            &&& forall|x: int, y: int|
                0 <= x <= y <= s.len() && #[trigger] contiguous(s, x, y) ==> y - x < b - a || (y - x
                    == b - a && a <= x)
            &&& c@ == run_of(undwelt(s.subrange(a, b)))
        };
    assert(contiguous(s, lo, hi));
}

/// A capture in which no two samples follow each other has no run.
pub proof fn law_no_run(frames: Seq<TelFrame>, r: Option<Chunk>)
    requires
        longest_trimmed(frames, r),
        forall|k: int|
            0 < k < samples_of(frames).len() ==> !follows(
                samples_of(frames)[k - 1],
                #[trigger] samples_of(frames)[k],
            ),
    ensures
        r is None,
{
}

/// One more chunk adds its samples to the total.
pub proof fn law_total_adds(chunks: Seq<Run>, c: Run)
    ensures
        total(Seq::<Run>::empty()) == 0,
        total(chunks.push(c)) == total(chunks) + c.pos.len(),
{
    assert(chunks.push(c).drop_last() =~= chunks);
}

} // verus!
