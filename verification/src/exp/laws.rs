//! What the envelope, the window stream and the ladder do with one reading,
//! said of the counts that are read.

use super::ladder::{Ladder, Phase, Rung, RungCapture, SweepSample};
use super::{AbortReason, Cmd, Experiment, GuardState, Guarded, RigParams, WindowSample, WindowStream};
use crate::frame::{SeqUnwrap, TelemetrySnapshot};
use crate::regs::control;
use vstd::prelude::*;

verus! {

/// The command that stops the drive.
pub open spec fn stops_drive(cmd: Cmd) -> bool {
    cmd == Cmd::Write { reg: control::goal_duty(), value: 0 }
}

/// The travel guard watches both of its edges: a position below the lower one
/// or above the upper one trips a running envelope with that position, stops
/// the drive and leaves the experiment where it is. A position on or between
/// the edges never trips the guard.
pub proof fn law_guard_watches_both_edges<E: Experiment>(
    g: Guarded<E>,
    o: TelemetrySnapshot,
    lo: u16,
    hi: u16,
    next: Guarded<E>,
    cmd: Cmd,
)
    requires
        g.state == GuardState::Run,
        g.abort is None,
        g.params.pos_guard == Some((lo, hi)),
        o.fault_flags == 0,
        g.steps_to(Some(o), &next, cmd),
    ensures
        o.pos < lo ==> next.abort == Some(AbortReason::PosGuard { pos: o.pos }),
        o.pos > hi ==> next.abort == Some(AbortReason::PosGuard { pos: o.pos }),
        o.pos < lo || o.pos > hi ==> {
            &&& stops_drive(cmd)
            &&& next.state == GuardState::TorqueOff
            &&& next.exp == g.exp
        },
        lo <= o.pos && o.pos <= hi ==> !(next.abort matches Some(AbortReason::PosGuard { pos })),
{
}

/// Without a guard no position trips the envelope.
pub proof fn law_no_guard_no_edge<E: Experiment>(
    g: Guarded<E>,
    o: TelemetrySnapshot,
    next: Guarded<E>,
    cmd: Cmd,
)
    requires
        g.state == GuardState::Run,
        g.abort is None,
        g.params.pos_guard is None,
        g.steps_to(Some(o), &next, cmd),
    ensures
        !(next.abort matches Some(AbortReason::PosGuard { pos })),
{
}

/// A latched fault trips the envelope before anything else, with the flags and
/// the code that were read; without one there is no fault to report.
pub proof fn law_fault_trips_first<E: Experiment>(
    g: Guarded<E>,
    o: TelemetrySnapshot,
    next: Guarded<E>,
    cmd: Cmd,
)
    requires
        g.state == GuardState::Run,
        g.abort is None,
        g.steps_to(Some(o), &next, cmd),
    ensures
        o.fault_flags != 0 ==> {
            &&& next.abort == Some(AbortReason::Fault { flags: o.fault_flags, code: o.fault_code })
            &&& stops_drive(cmd)
            &&& next.state == GuardState::TorqueOff
            &&& next.exp == g.exp
        },
        o.fault_flags == 0 ==> !(next.abort matches Some(AbortReason::Fault { flags, code })),
{
}

/// Inside the travel guard and without a fault, a current of either sign past
/// the threshold trips a driving envelope; one at the threshold does not, and
/// nothing does while the duty mean is zero. The sign of the threshold does
/// not matter.
pub proof fn law_current_trips_while_driving<E: Experiment>(
    g: Guarded<E>,
    o: TelemetrySnapshot,
    next: Guarded<E>,
    cmd: Cmd,
)
    requires
        g.state == GuardState::Run,
        g.abort is None,
        o.fault_flags == 0,
        g.params.pos_guard matches Some(b) ==> b.0 <= o.pos && o.pos <= b.1,
        g.steps_to(Some(o), &next, cmd),
    ensures
        ({
            let i = o.i_mean_counts as int;
            let top = g.params.i_abort as int;
            let past = if top >= 0 {
                i > top || i < -top
            } else {
                i < top || i > -top
            };
            if o.duty_mean_q15 != 0 && past {
                &&& next.abort == Some(AbortReason::Overcurrent { i_mean: o.i_mean_counts })
                &&& stops_drive(cmd)
                &&& next.state == GuardState::TorqueOff
                &&& next.exp == g.exp
            } else {
                &&& next.abort is None
                &&& next.state == GuardState::Run
                &&& g.exp.steps_to(Some(o), &next.exp, cmd)
            }
        }),
{
}

/// A step without an observation never trips; a tripped envelope goes duty 0,
/// torque off, Done, whatever it is shown, and keeps its first reason.
pub proof fn law_shutdown_order<E: Experiment>(
    g: Guarded<E>,
    obs: Option<TelemetrySnapshot>,
    next: Guarded<E>,
    cmd: Cmd,
)
    requires
        g.steps_to(obs, &next, cmd),
    ensures
        next.params == g.params,
        g.state == GuardState::Run && obs is None ==> next.abort == g.abort && next.state
            == GuardState::Run && g.exp.steps_to(obs, &next.exp, cmd),
        g.state != GuardState::Run ==> next.abort == g.abort && next.exp == g.exp,
        g.state == GuardState::DutyOff ==> stops_drive(cmd) && next.state == GuardState::TorqueOff,
        g.state == GuardState::TorqueOff ==> cmd == (Cmd::Write {
            reg: control::torque_enable(),
            value: 0,
        }) && next.state == GuardState::Finished,
        g.state == GuardState::Finished ==> cmd == Cmd::Done && next.state == GuardState::Finished,
{
}

/// The slip zone holds its two ends and all between them, and nothing else.
pub proof fn law_slip_zone(p: RigParams, pos: u16)
    ensures
        pos < p.slip.0 ==> !p.slips(pos),
        pos > p.slip.1 ==> !p.slips(pos),
        pos >= p.slip.0 && pos <= p.slip.1 ==> p.slips(pos),
{
}

/// The unwrapped window number: it starts at the first number seen, and from
/// then on moves forward by the distance around the 16-bit circle.
pub proof fn law_unwrap_counts(s: SeqUnwrap, seq: u16)
    ensures
        s.pushed(seq).last == Some(seq),
        s.last is None ==> s.pushed(seq).total == seq,
        s.last matches Some(l) ==> {
            let step = if seq >= l {
                seq - l
            } else {
                seq - l + 65_536
            };
            s.total + step <= u64::MAX ==> s.pushed(seq).total == s.total + step
        },
{
    if let Some(l) = s.last {
        let step = if seq >= l {
            seq - l
        } else {
            seq - l + 65_536
        };
        assert((seq - l) % 0x1_0000 == step);
    }
}

/// A snapshot yields a sample exactly when its window is not the one before
/// and no window is left to drop; the sample is the snapshot's own window.
pub proof fn law_window_sampled(s: WindowStream, prev: u16, o: TelemetrySnapshot)
    requires
        s.unwrap.last == Some(prev),
        s.last == Some(s.unwrap.total),
    ensures
        s.sampled(o) is Some <==> o.agg_seq != prev && s.settle == 0,
        s.sampled(o) matches Some(w) ==> {
            &&& w.i == o.i_mean_counts
            &&& w.vdiff == o.vdiff_mean
            &&& w.duty_q15 == o.duty_mean_q15
            &&& w.seq == s.unwrap.pushed(o.agg_seq).total
        },
        s.after(o.agg_seq).unwrap.last == Some(o.agg_seq),
        s.after(o.agg_seq).last == Some(s.after(o.agg_seq).unwrap.total),
        s.after(o.agg_seq).settle_windows == s.settle_windows,
        o.agg_seq == prev ==> s.after(o.agg_seq).settle == s.settle && s.after(
            o.agg_seq,
        ).unwrap.total == s.unwrap.total,
        o.agg_seq != prev && s.settle > 0 ==> s.after(o.agg_seq).settle == s.settle - 1,
        s.settle == 0 ==> s.after(o.agg_seq).settle == 0,
{
    crate::frame::law_unwrap_moves_on_change(s.unwrap, prev, o.agg_seq);
}

/// A stream that has seen nothing takes the first window it is shown, or drops
/// it where a transition has been marked.
pub proof fn law_first_window(s: WindowStream, o: TelemetrySnapshot)
    requires
        s.unwrap.last is None,
        s.last is None,
    ensures
        s.settle == 0 ==> s.sampled(o) == Some(
            WindowSample {
                seq: o.agg_seq as u64,
                i: o.i_mean_counts,
                vdiff: o.vdiff_mean,
                duty_q15: o.duty_mean_q15,
            },
        ),
        s.settle > 0 ==> s.sampled(o) is None && s.after(o.agg_seq).settle == s.settle - 1,
        s.after(o.agg_seq).unwrap.last == Some(o.agg_seq),
        s.after(o.agg_seq).last == Some(o.agg_seq as u64),
{
}

/// A transition restarts the count of windows to drop and nothing else.
pub proof fn law_transition_restarts(s: WindowStream)
    ensures
        s.marked().settle == s.settle_windows,
        s.marked().unwrap == s.unwrap,
        s.marked().last == s.last,
        s.marked().settle_windows == s.settle_windows,
{
}

/// The read is within `eps` counts of the one before.
pub open spec fn held_still(last: Option<u16>, pos: u16, eps: u16) -> bool {
    last matches Some(l) && pos - l <= eps && l - pos <= eps
}

/// Still reads in a row: one more where the read is still, none where it moved.
pub open spec fn counts_still(
    last: Option<u16>,
    still: u32,
    pos: u16,
    eps: u16,
    last_then: Option<u16>,
    still_then: u32,
) -> bool {
    &&& last_then == Some(pos)
    &&& held_still(last, pos, eps) ==> still_then == still + 1
    &&& !held_still(last, pos, eps) ==> still_then == 0
}

/// The forward sweeps run from the lower edge of the band to the upper, the
/// others back; the margin comes off both edges.
pub open spec fn at_lower(l: Ladder, pos: u16) -> bool {
    pos <= l.band.0 + l.cfg.stop_margin
}

pub open spec fn at_upper(l: Ladder, pos: u16) -> bool {
    pos + l.cfg.stop_margin >= l.band.1
}

/// What one sweep read does: the window is kept with its position when it is
/// new and settled; the still reads are counted; the sweep ends at its far edge
/// or on enough still reads in a row, and is then, and only then, a stalled
/// one.
pub proof fn law_sweep_read(l: Ladder, o: TelemetrySnapshot, next: Ladder, cmd: Cmd)
    requires
        l.wf(),
        l.phase == Phase::RungEval,
        l.steps_to(Some(o), &next, cmd),
    ensures
        counts_still(l.last_pos, l.still, o.pos, l.cfg.stall_eps, next.last_pos, next.still),
        next.still >= l.cfg.stall_polls ==> next.phase == Phase::RungOff && next.stalled,
        next.still < l.cfg.stall_polls ==> next.stalled == l.stalled,
        next.still < l.cfg.stall_polls ==> (next.phase == Phase::RungOff <==> (if l.sweep % 2 == 0 {
            at_upper(l, o.pos)
        } else {
            at_lower(l, o.pos)
        })),
        next.phase == Phase::RungOff || next.phase == Phase::RungRead,
        cmd == (Cmd::Pause {
            ms: if next.phase == Phase::RungOff {
                0
            } else {
                l.cfg.poll_ms
            },
        }),
        next.samples@ == (match l.windows.sampled(o) {
            Some(w) => l.samples@.push(SweepSample { w, pos: o.pos }),
            None => l.samples@,
        }),
        next.windows == l.windows.after(o.agg_seq),
        next.polls == l.polls,
{
    assert(next@ == l@.sweep_judged(l.plan(), Some(o)));
    assert(next@.samples == next.samples@);
}

/// A sweep read that brings no telemetry is tried again and changes nothing
/// else.
pub proof fn law_sweep_read_lost(l: Ladder, next: Ladder, cmd: Cmd)
    requires
        l.wf(),
        l.phase == Phase::RungEval,
        l.steps_to(None, &next, cmd),
    ensures
        next.phase == Phase::RungRead,
        cmd == (Cmd::Pause { ms: l.cfg.poll_ms }),
        next.stalled == l.stalled,
        next.still == l.still,
        next.last_pos == l.last_pos,
        next.samples@ == l.samples@,
        next.windows == l.windows,
{
    assert(next@ == l@.sweep_judged(l.plan(), None));
    assert(next@.samples == next.samples@);
}

proof fn lemma_captures(a: Seq<RungCapture>, b: Seq<RungCapture>, r: Rung)
    requires
        super::ladder::rungs_of(b) == super::ladder::rungs_of(a).push(r),
    ensures
        b.len() == a.len() + 1,
        b.last()@ == r,
        forall|k: int| 0 <= k < a.len() ==> (#[trigger] b[k])@ == a[k]@,
{
    let x = super::ladder::rungs_of(a);
    let y = super::ladder::rungs_of(b);
    assert(y.len() == b.len() && x.len() == a.len());
    assert(y[b.len() - 1] == b[b.len() - 1]@);
    assert forall|k: int| 0 <= k < a.len() implies (#[trigger] b[k])@ == a[k]@ by {
        assert(y[k] == b[k]@ && x[k] == a[k]@);
    }
}

/// A finished sweep is filed as it was: its duty is the level's, reversed on
/// the way back; its windows and its stall flag are the ones it ended with. The
/// next sweep starts with none of them.
pub proof fn law_sweep_is_filed(l: Ladder, obs: Option<TelemetrySnapshot>, next: Ladder, cmd: Cmd)
    requires
        l.wf(),
        l.phase == Phase::RungOff,
        l.steps_to(obs, &next, cmd),
    ensures
        next.captures@.len() == l.captures@.len() + 1,
        next.captures@.last().stalled == l.stalled,
        next.captures@.last().samples@ == l.samples@,
        next.captures@.last().duty_q15 == (if l.sweep % 2 == 0 {
            l.cfg.rungs_q15@[l.sweep as int / 2] as int
        } else {
            -l.cfg.rungs_q15@[l.sweep as int / 2]
        }),
        forall|k: int|
            0 <= k < l.captures@.len() ==> (#[trigger] next.captures@[k])@ == l.captures@[k]@,
        !next.stalled,
        next.samples@.len() == 0,
        next.phase == Phase::RungRest,
        next.windows == l.windows.marked(),
        stops_drive(cmd),
{
    let r = Rung { duty: l.plan().duty(l.sweep as int), samples: l.samples@, stalled: l.stalled };
    assert(next@.captures == l@.captures.push(r));
    lemma_captures(l.captures@, next.captures@, r);
    assert(next@.samples == next.samples@);
}

/// The stall flag belongs to the sweep that is about to be filed: nothing
/// raises it but a sweep read with enough still reads in a row, and filing
/// takes it down. So a ladder that starts with it down has it up only between
/// such a read and the filing.
pub proof fn law_stall_flag_is_the_sweeps(
    l: Ladder,
    obs: Option<TelemetrySnapshot>,
    next: Ladder,
    cmd: Cmd,
)
    requires
        l.wf(),
        l.steps_to(obs, &next, cmd),
    ensures
        l.phase != Phase::RungEval && l.phase != Phase::RungOff ==> next.stalled == l.stalled,
        !l.stalled && next.stalled ==> {
            &&& l.phase == Phase::RungEval
            &&& obs is Some
            &&& next.phase == Phase::RungOff
            &&& next.still >= l.cfg.stall_polls
        },
        (l.stalled ==> l.phase == Phase::RungOff && l.still >= l.cfg.stall_polls) ==> (next.stalled
            ==> next.phase == Phase::RungOff && next.still >= next.cfg.stall_polls),
{
    assert(next@.stalled == next.stalled && next@.still == next.still);
}

/// A sweep ended by standing still is filed as a stalled one, and a sweep ended
/// at its far edge, still moving, is not.
pub proof fn law_stalled_sweep_is_filed_as_stalled(
    l: Ladder,
    o: TelemetrySnapshot,
    mid: Ladder,
    cmd: Cmd,
    obs: Option<TelemetrySnapshot>,
    end: Ladder,
    cmd2: Cmd,
)
    requires
        l.wf(),
        mid.wf(),
        l.phase == Phase::RungEval,
        !l.stalled,
        l.steps_to(Some(o), &mid, cmd),
        mid.phase == Phase::RungOff,
        mid.steps_to(obs, &end, cmd2),
    ensures
        held_still(l.last_pos, o.pos, l.cfg.stall_eps) && l.still + 1 >= l.cfg.stall_polls
            ==> end.captures@.last().stalled,
        !held_still(l.last_pos, o.pos, l.cfg.stall_eps) && l.cfg.stall_polls > 0
            ==> !end.captures@.last().stalled,
        l.still + 1 < l.cfg.stall_polls ==> !end.captures@.last().stalled,
{
    law_sweep_read(l, o, mid, cmd);
    law_sweep_is_filed(mid, obs, end, cmd2);
}

/// What one seek read does: the seek ends at the edge that the sweep leaves
/// from, on enough still reads in a row, or at the poll cap; only the last is
/// noted as a seek that gave up.
pub proof fn law_seek_read(l: Ladder, o: TelemetrySnapshot, next: Ladder, cmd: Cmd)
    requires
        l.wf(),
        l.phase == Phase::SeekEval,
        l.steps_to(Some(o), &next, cmd),
    ensures
        counts_still(l.last_pos, l.still, o.pos, l.cfg.stall_eps, next.last_pos, next.still),
        next.polls == l.polls + 1,
        ({
            let there = (if l.sweep % 2 == 0 {
                at_lower(l, o.pos)
            } else {
                at_upper(l, o.pos)
            }) || next.still >= l.cfg.stall_polls;
            let capped = next.polls >= l.cfg.seek_cap_polls;
            &&& next.phase == (if there || capped {
                Phase::SeekOff
            } else {
                Phase::SeekRead
            })
            &&& cmd == (Cmd::Pause {
                ms: if there || capped {
                    0
                } else {
                    l.cfg.seek_poll_ms
                },
            })
            &&& next.gave_up@ == (if capped && !there {
                l.gave_up@.push(l.sweep)
            } else {
                l.gave_up@
            })
        }),
        next.windows == l.windows,
{
    assert(next@ == l@.seek_judged(l.plan(), Some(o)));
    assert(next@.still == next.still && next@.polls == next.polls);
    lemma_noted(l.gave_up@, next.gave_up@, l.sweep);
}

/// A seek read that brings no telemetry counts as a poll and as nothing else.
pub proof fn law_seek_read_lost(l: Ladder, next: Ladder, cmd: Cmd)
    requires
        l.wf(),
        l.phase == Phase::SeekEval,
        l.steps_to(None, &next, cmd),
    ensures
        next.polls == l.polls + 1,
        next.last_pos == l.last_pos,
        next.still == l.still,
        next.polls >= l.cfg.seek_cap_polls ==> next.phase == Phase::SeekOff && next.gave_up@
            == l.gave_up@.push(l.sweep) && cmd == (Cmd::Pause { ms: 0 }),
        next.polls < l.cfg.seek_cap_polls ==> next.phase == Phase::SeekRead && next.gave_up@
            == l.gave_up@ && cmd == (Cmd::Pause { ms: l.cfg.seek_poll_ms }),
{
    assert(next@ == l@.seek_judged(l.plan(), None));
    assert(next@.still == next.still && next@.polls == next.polls);
    lemma_noted(l.gave_up@, next.gave_up@, l.sweep);
}

proof fn lemma_noted(a: Seq<usize>, b: Seq<usize>, x: usize)
    ensures
        super::ladder::ints_of(b) == super::ladder::ints_of(a) ==> b == a,
        super::ladder::ints_of(b) == super::ladder::ints_of(a).push(x as int) ==> b == a.push(x),
{
    let p = super::ladder::ints_of(a);
    let q = super::ladder::ints_of(b);
    assert(p.len() == a.len() && q.len() == b.len());
    if q == p {
        assert forall|k: int| 0 <= k < a.len() implies a[k] == b[k] by {
            assert(p[k] == a[k] as int && q[k] == b[k] as int);
        }
        assert(b =~= a);
    }
    if q == p.push(x as int) {
        assert forall|k: int| 0 <= k < b.len() implies b[k] == a.push(x)[k] by {
            assert(q[k] == b[k] as int);
            if k < a.len() {
                assert(p[k] == a[k] as int);
            }
        }
        assert(b =~= a.push(x));
    }
}

/// The order of a ladder: mode and torque once, then for each sweep a seek, a
/// rest, the sweep, its filing and a rest, and torque off after the last. The
/// drive is set at the start of a seek and of a sweep: the seek against the
/// sweep's own direction.
pub proof fn law_ladder_order(l: Ladder, obs: Option<TelemetrySnapshot>, next: Ladder, cmd: Cmd)
    requires
        l.wf(),
        l.steps_to(obs, &next, cmd),
    ensures
        l.phase == Phase::ModeWrite ==> next.phase == Phase::TorqueOn && cmd == (Cmd::Write {
            reg: control::mode(),
            value: 0,
        }),
        l.phase == Phase::TorqueOn ==> next.phase == Phase::SeekSet && cmd == (Cmd::Write {
            reg: control::torque_enable(),
            value: 1,
        }),
        l.phase == Phase::SeekSet ==> next.phase == Phase::SeekRead && cmd == (Cmd::Write {
            reg: control::goal_duty(),
            value: (if l.sweep % 2 == 0 {
                -l.cfg.seek_duty_q15
            } else {
                l.cfg.seek_duty_q15 as int
            }) as i32,
        }),
        l.phase == Phase::SeekRead ==> next.phase == Phase::SeekEval && cmd == Cmd::Read,
        l.phase == Phase::SeekOff ==> next.phase == Phase::SeekRest && stops_drive(cmd),
        l.phase == Phase::SeekRest ==> next.phase == Phase::RungSet && cmd == (Cmd::Pause {
            ms: l.cfg.rest_ms,
        }),
        l.phase == Phase::RungSet ==> next.phase == Phase::RungRead && cmd == (Cmd::Write {
            reg: control::goal_duty(),
            value: (if l.sweep % 2 == 0 {
                l.cfg.rungs_q15@[l.sweep as int / 2] as int
            } else {
                -l.cfg.rungs_q15@[l.sweep as int / 2]
            }) as i32,
        }),
        l.phase == Phase::RungRead ==> next.phase == Phase::RungEval && cmd == Cmd::Read,
        l.phase == Phase::RungRest ==> next.sweep == l.sweep + 1 && next.phase == (if l.sweep + 1
            < 2 * l.cfg.rungs_q15@.len() {
            Phase::SeekSet
        } else {
            Phase::FinishTorque
        }) && cmd == (Cmd::Pause { ms: l.cfg.rest_ms }),
        l.phase == Phase::FinishTorque ==> next.phase == Phase::Finished && cmd == (Cmd::Write {
            reg: control::torque_enable(),
            value: 0,
        }),
        l.phase == Phase::Finished ==> next.phase == Phase::Finished && cmd == Cmd::Done,
        l.phase != Phase::RungRest ==> next.sweep == l.sweep,
{
    assert(next@.phase == next.phase && next@.sweep == next.sweep);
}

/// What the phases leave alone: windows are dropped after each change of the
/// drive; the track of still reads starts anew with each seek and each sweep;
/// samples are taken only in a sweep, captures filed only at its end.
pub proof fn law_ladder_keeps(l: Ladder, obs: Option<TelemetrySnapshot>, next: Ladder, cmd: Cmd)
    requires
        l.wf(),
        l.steps_to(obs, &next, cmd),
    ensures
        l.phase == Phase::SeekSet || l.phase == Phase::RungSet ==> next.last_pos is None
            && next.still == 0 && next.polls == 0,
        l.phase == Phase::SeekSet || l.phase == Phase::SeekOff || l.phase == Phase::RungSet
            || l.phase == Phase::RungOff ==> next.windows.settle == l.windows.settle_windows
            && next.windows.unwrap == l.windows.unwrap && next.windows.last == l.windows.last,
        l.phase != Phase::SeekSet && l.phase != Phase::SeekOff && l.phase != Phase::RungSet
            && l.phase != Phase::RungOff && l.phase != Phase::RungEval ==> next.windows == l.windows,
        l.phase != Phase::RungEval && l.phase != Phase::RungOff ==> next.samples@ == l.samples@,
        l.phase != Phase::RungOff ==> next@.captures == l@.captures,
        l.phase != Phase::SeekEval ==> next.gave_up@ == l.gave_up@,
        l.phase != Phase::SeekSet && l.phase != Phase::RungSet && l.phase != Phase::SeekEval
            && l.phase != Phase::RungEval ==> next.last_pos == l.last_pos && next.still == l.still
            && next.polls == l.polls,
        next.band == l.band,
        next.cfg == l.cfg,
{
    assert(next@.still == next.still && next@.polls == next.polls && next@.samples == next.samples@
        && next@.windows == next.windows && next@.last_pos == next.last_pos);
    lemma_noted(l.gave_up@, next.gave_up@, l.sweep);
}

} // verus!
