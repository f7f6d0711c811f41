//! Offline survey of a saved stream: which kind of corruption it carries, where
//! its rails are, and what of it the ripple analysis can use.
//!
//! Two kinds of corruption are told apart: whole frames lost on the way (the
//! values that survive are clean, the sequence has holes) and bit errors inside
//! frames (a position past the converter's range, or a jump no motor makes in
//! one sample).

use super::runs::{
    build_sweep, build_sweep_chunks, chunks_of, law_chunks_are_usable, lemma_total_grows,
    longest_trimmed, pos_plausible, samples_of, total, views, Chunk, Run, POS_MAX,
};
use crate::cli::ArgError;
use crate::frame::TelFrame;
use crate::math::{abs, greatest, least};
use crate::text::{chars_of, number_upto, parse_number, part, strip, stripped};
use vstd::prelude::*;

verus! {

/// A larger step between neighbouring samples is no motion: a capture traverses
/// far less than one count per sample.
pub const MAX_STEP_COUNTS: u16 = 200;

/// The mask a text writes: hex, with or without `0x` in front.
pub open spec fn mask_of(s: Seq<char>) -> Option<int> {
    let t = stripped(s);
    let d = if t.len() >= 2 && t[0] == '0' && (t[1] == 'x' || t[1] == 'X') {
        t.skip(2)
    } else {
        t
    };
    number_upto(d, 16, 0xffff)
}

pub fn parse_mask(s: &str) -> (r: Result<u16, ArgError>)
    ensures
        match mask_of(s@) {
            Some(v) => r is Ok && r->Ok_0 == v,
            None => r == Err::<u16, ArgError>(ArgError::BadNumber),
        },
{
    let t: Vec<char> = strip(&chars_of(s));
    let n: usize = t.len();
    let v: Option<u32> = if n >= 2 && t[0] == '0' && (t[1] == 'x' || t[1] == 'X') {
        let tail: Vec<char> = part(&t, 2, n);
        assert(tail@ =~= t@.skip(2));
        parse_number(&tail, 16, 0xffff)
    } else {
        parse_number(&t, 16, 0xffff)
    };
    match v {
        Some(x) => Ok(x as u16),
        None => Err(ArgError::BadNumber),
    }
}

/// Corruption tallies of a frame list.
#[derive(Copy, Clone, Debug, PartialEq, Eq, Structural)]
pub struct Classification {
    /// Frames with a position past the converter's range.
    pub out_of_range: usize,
    /// Neighbouring pairs in range whose step is too large to be motion.
    pub implausible_jumps: usize,
    /// Largest step of a neighbouring pair in range.
    pub max_consec_delta: u16,
}

pub open spec fn corrupt(f: TelFrame) -> bool {
    f.pos matches Some(p) && p > POS_MAX
}

/// Frames with a corrupt position.
pub open spec fn corrupt_count(frames: Seq<TelFrame>) -> int
    decreases frames.len(),
{
    if frames.len() == 0 {
        0
    } else {
        corrupt_count(frames.drop_last()) + if corrupt(frames.last()) {
            1int
        } else {
            0
        }
    }
}

/// The step between two frames that follow each other with nothing lost
/// between, both in range.
pub open spec fn step_of(a: TelFrame, b: TelFrame) -> Option<int> {
    match (a.pos, b.pos) {
        (Some(pa), Some(pb)) if b.seq == (a.seq + 1) % 256 && pa <= POS_MAX && pb <= POS_MAX => {
            Some(abs(pa - pb))
        },
        _ => None,
    }
}

/// Steps too large to be motion.
pub open spec fn jump_count(frames: Seq<TelFrame>) -> int
    decreases frames.len(),
{
    if frames.len() < 2 {
        0
    } else {
        jump_count(frames.drop_last()) + match step_of(frames[frames.len() - 2], frames.last()) {
            Some(d) if d > MAX_STEP_COUNTS => 1int,
            _ => 0,
        }
    }
}

/// The largest step.
pub open spec fn widest_step(frames: Seq<TelFrame>) -> int
    decreases frames.len(),
{
    if frames.len() < 2 {
        0
    } else {
        match step_of(frames[frames.len() - 2], frames.last()) {
            Some(d) => greatest(widest_step(frames.drop_last()), d),
            None => widest_step(frames.drop_last()),
        }
    }
}

fn step(a: &TelFrame, b: &TelFrame) -> (r: Option<u16>)
    ensures
        match r {
            Some(d) => step_of(*a, *b) == Some(d as int),
            None => step_of(*a, *b) is None,
        },
{
    if b.seq != a.seq.wrapping_add(1) {
        return None;
    }
    match (a.pos, b.pos) {
        (Some(pa), Some(pb)) => {
            if !pos_plausible(pa) || !pos_plausible(pb) {
                None
            } else if pa >= pb {
                Some(pa - pb)
            } else {
                Some(pb - pa)
            }
        },
        _ => None,
    }
}

pub fn classify(frames: &[TelFrame]) -> (r: Classification)
    ensures
        r.out_of_range == corrupt_count(frames@),
        r.implausible_jumps == jump_count(frames@),
        r.max_consec_delta == widest_step(frames@),
{
    let mut out_of_range: usize = 0;
    let mut implausible_jumps: usize = 0;
    let mut max_consec_delta: u16 = 0;
    let n: usize = frames.len();
    let mut i: usize = 0;
    while i < n
        invariant
            n == frames@.len(),
            i <= n,
            out_of_range <= i,
            implausible_jumps <= i,
            out_of_range == corrupt_count(frames@.take(i as int)),
            implausible_jumps == jump_count(frames@.take(i as int)),
            max_consec_delta == widest_step(frames@.take(i as int)),
        decreases n - i,
    {
        let ghost t = frames@.take(i + 1);
        assert(t.drop_last() =~= frames@.take(i as int));
        assert(t.last() == frames@[i as int]);
        if let Some(p) = frames[i].pos {
            if !pos_plausible(p) {
                out_of_range = out_of_range + 1;
            }
        }
        if i > 0 {
            assert(t[t.len() - 2] == frames@[i - 1]);
            if let Some(d) = step(&frames[i - 1], &frames[i]) {
                if d > MAX_STEP_COUNTS {
                    implausible_jumps = implausible_jumps + 1;
                }
                if d > max_consec_delta {
                    max_consec_delta = d;
                }
            }
        }
        i = i + 1;
    }
    assert(frames@.take(n as int) =~= frames@);
    Classification { out_of_range, implausible_jumps, max_consec_delta }
}

/// The plausible positions of a capture, in order.
pub open spec fn plausible(frames: Seq<TelFrame>) -> Seq<u16>
    decreases frames.len(),
{
    if frames.len() == 0 {
        seq![]
    } else {
        match frames.last().pos {
            Some(p) if p <= POS_MAX => plausible(frames.drop_last()).push(p),
            _ => plausible(frames.drop_last()),
        }
    }
}

/// Extreme positions seen, if any was plausible.
#[derive(Copy, Clone, Debug, PartialEq, Eq, Structural)]
pub struct Bounds {
    pub min: u16,
    pub max: u16,
}

/// `b` holds the least and the greatest of `p`.
pub open spec fn bounds(p: Seq<u16>, b: Bounds) -> bool {
    &&& p.contains(b.min) && p.contains(b.max)
    &&& forall|k: int| 0 <= k < p.len() ==> b.min <= #[trigger] p[k] <= b.max
}

pub fn observed(frames: &[TelFrame]) -> (r: Option<Bounds>)
    ensures
        match r {
            None => plausible(frames@).len() == 0,
            Some(b) => bounds(plausible(frames@), b),
        },
{
    let mut seen: Option<Bounds> = None;
    let n: usize = frames.len();
    let mut i: usize = 0;
    while i < n
        invariant
            n == frames@.len(),
            i <= n,
            match seen {
                None => plausible(frames@.take(i as int)).len() == 0,
                Some(b) => bounds(plausible(frames@.take(i as int)), b),
            },
        decreases n - i,
    {
        let ghost t = frames@.take(i + 1);
        let ghost before = plausible(frames@.take(i as int));
        assert(t.drop_last() =~= frames@.take(i as int));
        assert(t.last() == frames@[i as int]);
        if let Some(p) = frames[i].pos {
            if pos_plausible(p) {
                let ghost after = before.push(p);
                let next: Bounds = match seen {
                    None => Bounds { min: p, max: p },
                    Some(b) => Bounds {
                        min: if p < b.min {
                            p
                        } else {
                            b.min
                        },
                        max: if p > b.max {
                            p
                        } else {
                            b.max
                        },
                    },
                };
                proof {
                    assert(after[before.len() as int] == p);
                    if let Some(b) = seen {
                        let x = choose|k: int| 0 <= k < before.len() && before[k] == b.min;
                        let y = choose|k: int| 0 <= k < before.len() && before[k] == b.max;
                        assert(after[x] == b.min && after[y] == b.max);
                    }
                    assert forall|k: int| 0 <= k < after.len() implies next.min <= #[trigger] after[k]
                        <= next.max by {
                        if k < before.len() {
                            assert(after[k] == before[k]);
                        }
                    }
                }
                seen = Some(next);
            }
        }
        i = i + 1;
    }
    assert(frames@.take(n as int) =~= frames@);
    seen
}

/// Rails the replay works between.
#[derive(Copy, Clone, Debug, PartialEq, Eq, Structural)]
pub struct Rails {
    pub min: u16,
    pub max: u16,
    /// At least one rail was not given.
    pub from_capture: bool,
}

/// A rail that was given stands; one that was not is read off the capture, or
/// is 0 where the capture shows nothing.
pub fn rails(raw_min: Option<u16>, raw_max: Option<u16>, seen: Option<Bounds>) -> (r: Rails)
    ensures
        r.min == (match (raw_min, seen) {
            (Some(v), _) => v,
            (None, Some(b)) => b.min,
            (None, None) => 0,
        }),
        r.max == (match (raw_max, seen) {
            (Some(v), _) => v,
            (None, Some(b)) => b.max,
            (None, None) => 0,
        }),
        r.from_capture == (raw_min is None || raw_max is None),
{
    let from_capture: bool = raw_min.is_none() || raw_max.is_none();
    let min: u16 = match (raw_min, seen) {
        (Some(v), _) => v,
        (None, Some(b)) => b.min,
        (None, None) => 0,
    };
    let max: u16 = match (raw_max, seen) {
        (Some(v), _) => v,
        (None, Some(b)) => b.max,
        (None, None) => 0,
    };
    Rails { min, max, from_capture }
}

/// What a stream looks like.
#[derive(Copy, Clone, Debug, PartialEq, Eq, Structural)]
pub enum Diagnosis {
    /// Contents corrupted inside frames.
    BitErrors,
    /// Values clean, whole frames lost.
    FrameDrops,
    Clean,
}

/// More than one frame lost per hundred decoded.
pub open spec fn significant_gaps(frames: u64, seq_gaps: u64) -> bool {
    frames > 0 && least(seq_gaps * 100, u64::MAX as int) > frames
}

pub fn diagnose(c: &Classification, frames: u64, seq_gaps: u64) -> (r: Diagnosis)
    ensures
        r == Diagnosis::BitErrors <==> c.out_of_range > 0 || c.implausible_jumps > 0,
        r == Diagnosis::FrameDrops <==> c.out_of_range == 0 && c.implausible_jumps == 0
            && significant_gaps(frames, seq_gaps),
{
    if c.out_of_range > 0 || c.implausible_jumps > 0 {
        return Diagnosis::BitErrors;
    }
    let lost: u64 = if seq_gaps > u64::MAX / 100 {
        u64::MAX
    } else {
        seq_gaps * 100
    };
    if frames > 0 && lost > frames {
        Diagnosis::FrameDrops
    } else {
        Diagnosis::Clean
    }
}

/// Samples in a list of chunks.
pub fn chunk_samples(chunks: &Vec<Chunk>) -> (r: usize)
    requires
        total(views(chunks@)) <= usize::MAX,
    ensures
        r == total(views(chunks@)),
{
    let ghost v = views(chunks@);
    let n: usize = chunks.len();
    let mut sum: usize = 0;
    let mut i: usize = 0;
    assert(v.take(0) =~= Seq::<Run>::empty());
    while i < n
        invariant
            n == chunks@.len(),
            i <= n,
            v == views(chunks@),
            total(v) <= usize::MAX,
            sum == total(v.take(i as int)),
        decreases n - i,
    {
        assert(v.take(i + 1).drop_last() =~= v.take(i as int));
        assert(v.take(i + 1).last() == chunks@[i as int]@);
        proof {
            lemma_total_grows(v, i + 1);
        }
        sum = sum + chunks[i].pos.len();
        i = i + 1;
    }
    assert(v.take(n as int) =~= v);
    sum
}

/// What a replay of a capture finds.
pub struct Survey {
    pub classification: Classification,
    pub rails: Rails,
    /// The longest contiguous run.
    pub run: Option<Chunk>,
    /// Every clean run.
    pub chunks: Vec<Chunk>,
    pub chunk_samples: usize,
    pub diagnosis: Diagnosis,
}

/// Survey a decoded capture. `decoded` and `seq_gaps` are the deframer's own
/// tallies; a rail that was given overrides what the capture shows.
pub fn survey(
    frames: &[TelFrame],
    decoded: u64,
    seq_gaps: u64,
    raw_min: Option<u16>,
    raw_max: Option<u16>,
) -> (r: Survey)
    ensures
        r.classification.out_of_range == corrupt_count(frames@),
        r.classification.implausible_jumps == jump_count(frames@),
        r.classification.max_consec_delta == widest_step(frames@),
        r.rails.from_capture == (raw_min is None || raw_max is None),
        raw_min matches Some(v) ==> r.rails.min == v,
        raw_max matches Some(v) ==> r.rails.max == v,
        plausible(frames@).len() == 0 ==> (raw_min is None ==> r.rails.min == 0) && (raw_max is None
            ==> r.rails.max == 0),
        plausible(frames@).len() > 0 ==> exists|b: Bounds|
            #[trigger] bounds(plausible(frames@), b) && (raw_min is None ==> r.rails.min == b.min)
                && (raw_max is None ==> r.rails.max == b.max),
        longest_trimmed(frames@, r.run),
        views(r.chunks@) == chunks_of(samples_of(frames@)),
        r.chunk_samples == total(views(r.chunks@)),
        r.diagnosis == Diagnosis::BitErrors <==> corrupt_count(frames@) > 0 || jump_count(frames@) > 0,
        r.diagnosis == Diagnosis::FrameDrops <==> corrupt_count(frames@) <= 0 && jump_count(frames@)
            <= 0 && significant_gaps(decoded, seq_gaps),
{
    let classification: Classification = classify(frames);
    let seen: Option<Bounds> = observed(frames);
    let rails: Rails = rails(raw_min, raw_max, seen);
    let run: Option<Chunk> = build_sweep(frames);
    let chunks: Vec<Chunk> = build_sweep_chunks(frames);
    let n: usize = frames.len();
    proof {
        law_chunks_are_usable(frames@);
        if let Some(b) = seen {
            assert(bounds(plausible(frames@), b));
            let k = choose|k: int| 0 <= k < plausible(frames@).len() && plausible(frames@)[k] == b.min;
        }
    }
    let chunk_samples: usize = chunk_samples(&chunks);
    let diagnosis: Diagnosis = diagnose(&classification, decoded, seq_gaps);
    Survey { classification, rails, run, chunks, chunk_samples, diagnosis }
}

/// One more frame of a stream: it is corrupt exactly when its position needs
/// more than twelve bits, and plausible exactly when it has one that does not.
pub proof fn law_frame_tallied(frames: Seq<TelFrame>, f: TelFrame)
    ensures
        f.pos is Some && f.pos->0 >= 4096 ==> corrupt_count(frames.push(f)) == corrupt_count(frames)
            + 1,
        f.pos is None || f.pos->0 < 4096 ==> corrupt_count(frames.push(f)) == corrupt_count(frames),
        f.pos is Some && f.pos->0 < 4096 ==> plausible(frames.push(f)) == plausible(frames).push(
            f.pos->0,
        ),
        f.pos is None || f.pos->0 >= 4096 ==> plausible(frames.push(f)) == plausible(frames),
        corrupt_count(Seq::<TelFrame>::empty()) == 0,
        plausible(Seq::<TelFrame>::empty()).len() == 0,
{
    assert(frames.push(f).drop_last() =~= frames);
    assert(frames.push(f).last() == f);
}

/// A pair of frames has a step exactly when the second follows the first by one
/// sequence number, 0 after 255, and both carry a twelve-bit position; the step
/// is their distance, whichever way.
pub proof fn law_step_between(a: TelFrame, b: TelFrame)
    ensures
        step_of(a, b) is Some <==> {
            &&& a.seq < 255 ==> b.seq == a.seq + 1
            &&& a.seq == 255 ==> b.seq == 0
            &&& a.pos is Some && a.pos->0 < 4096
            &&& b.pos is Some && b.pos->0 < 4096
        },
        step_of(a, b) matches Some(d) ==> {
            &&& a.pos->0 >= b.pos->0 ==> d == a.pos->0 - b.pos->0
            &&& a.pos->0 < b.pos->0 ==> d == b.pos->0 - a.pos->0
        },
{
}

/// One more frame behind another: a step of more than 200 counts is a jump, and
/// the widest step is never below any of them.
pub proof fn law_jumps_tallied(frames: Seq<TelFrame>, a: TelFrame, b: TelFrame)
    ensures
        ({
            let was = frames.push(a);
            let now = was.push(b);
            &&& step_of(a, b) matches Some(d) ==> {
                &&& d > 200 ==> jump_count(now) == jump_count(was) + 1
                &&& d <= 200 ==> jump_count(now) == jump_count(was)
                &&& widest_step(now) >= d && widest_step(now) >= widest_step(was)
                &&& widest_step(now) == d || widest_step(now) == widest_step(was)
            }
            &&& step_of(a, b) is None ==> jump_count(now) == jump_count(was) && widest_step(now)
                == widest_step(was)
        }),
        frames.len() < 2 ==> jump_count(frames) == 0 && widest_step(frames) == 0,
{
    let was = frames.push(a);
    let now = was.push(b);
    assert(now.drop_last() =~= was);
    assert(now.last() == b && now[now.len() - 2] == a);
}

/// Frames count as dropped where the lost ones are more than one in a hundred
/// of the decoded ones.
pub proof fn law_drops_are_significant(frames: u64, seq_gaps: u64)
    requires
        frames < u64::MAX,
    ensures
        significant_gaps(frames, seq_gaps) <==> frames != 0 && 100 * seq_gaps > frames,
{
}

/// A mask is hexadecimal of at most sixteen bits, `0x` or `0X` in front of it
/// or not.
pub proof fn law_mask_prefix(s: Seq<char>)
    requires
        stripped(s) == s,
    ensures
        s.len() >= 2 && s[0] == '0' && (s[1] == 'x' || s[1] == 'X') ==> mask_of(s) == number_upto(
            s.skip(2),
            16,
            65_535,
        ),
        s.len() < 2 || s[0] != '0' || (s[1] != 'x' && s[1] != 'X') ==> mask_of(s) == number_upto(
            s,
            16,
            65_535,
        ),
{
}

/// The bounds of a capture are positions of it, with none below the one or above
/// the other; so there are never two of them.
pub proof fn law_bounds_are_extremes(p: Seq<u16>, b: Bounds, c: Bounds)
    requires
        bounds(p, b),
    ensures
        exists|k: int| 0 <= k < p.len() && #[trigger] p[k] == b.min,
        exists|k: int| 0 <= k < p.len() && #[trigger] p[k] == b.max,
        forall|k: int| 0 <= k < p.len() ==> b.min <= #[trigger] p[k] && p[k] <= b.max,
        bounds(p, c) ==> c.min == b.min && c.max == b.max,
{
    let i = choose|k: int| 0 <= k < p.len() && p[k] == b.min;
    let j = choose|k: int| 0 <= k < p.len() && p[k] == b.max;
    assert(p[i] == b.min && p[j] == b.max);
    if bounds(p, c) {
        let x = choose|k: int| 0 <= k < p.len() && p[k] == c.min;
        let y = choose|k: int| 0 <= k < p.len() && p[k] == c.max;
        assert(p[x] == c.min && p[y] == c.max);
    }
}

} // verus!
