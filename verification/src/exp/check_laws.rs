//! What the end-stop finder and the closed-loop checks do with one reading,
//! said of the counts that are read.

use super::endstop::{Endstop, Phase, Rail};
use super::ladder::{trimmed, unslipped, SweepSample};
use super::laws::{counts_still, stops_drive};
use super::verify::{
    current_sum, settled_at, tail_of, CPhase, LegCapture, LegView, StepCapture, StepView,
    VPhase, VerifyCurrent, VerifyVelocity,
};
use super::{Cmd, Experiment, RigParams, WindowSample};
use crate::frame::TelemetrySnapshot;
use crate::regs::control;
use vstd::prelude::*;

verus! {

/// A seek read of the end-stop finder: enough still reads in a row are the
/// rail, at this read's position and current, on the side being sought. Any
/// other read is polled again, and the other side is never touched.
pub proof fn law_endstop_read(e: Endstop, o: TelemetrySnapshot, next: Endstop, cmd: Cmd)
    requires
        e.wf(),
        e.phase == Phase::SeekEval,
        e.steps_to(Some(o), &next, cmd),
    ensures
        counts_still(e.last_pos, e.still, o.pos, e.stall_eps, next.last_pos, next.still),
        next.still >= e.stall_polls ==> {
            &&& next.phase == Phase::RestOff
            &&& cmd == (Cmd::Pause { ms: 0 })
            &&& !e.reverse ==> next.rail_fwd == Some(Rail { pos: o.pos, i: o.i_mean_counts })
            &&& e.reverse ==> next.rail_rev == Some(Rail { pos: o.pos, i: o.i_mean_counts })
        },
        next.still < e.stall_polls ==> {
            &&& next.phase == Phase::SeekRead
            &&& cmd == (Cmd::Pause { ms: e.cfg.seek_poll_ms })
            &&& next.rail_fwd == e.rail_fwd
            &&& next.rail_rev == e.rail_rev
        },
        e.reverse ==> next.rail_fwd == e.rail_fwd,
        !e.reverse ==> next.rail_rev == e.rail_rev,
        next.reverse == e.reverse,
{
}

/// The order of the end-stop finder: a seek with positive duty, a rest at duty
/// 0, a seek with negative duty, a rest, then duty 0 and torque off.
pub proof fn law_endstop_order(e: Endstop, obs: Option<TelemetrySnapshot>, next: Endstop, cmd: Cmd)
    requires
        e.wf(),
        e.steps_to(obs, &next, cmd),
    ensures
        e.phase == Phase::ModeWrite ==> next.phase == Phase::TorqueOn && cmd == (Cmd::Write {
            reg: control::mode(),
            value: 0,
        }),
        e.phase == Phase::TorqueOn ==> next.phase == Phase::SeekSet && cmd == (Cmd::Write {
            reg: control::torque_enable(),
            value: 1,
        }),
        e.phase == Phase::SeekSet ==> {
            &&& next.phase == Phase::SeekRead
            &&& next.last_pos is None
            &&& next.still == 0
            &&& !e.reverse ==> cmd == (Cmd::Write {
                reg: control::goal_duty(),
                value: e.cfg.seek_duty_q15 as i32,
            })
            &&& e.reverse ==> cmd == (Cmd::Write {
                reg: control::goal_duty(),
                value: (-e.cfg.seek_duty_q15) as i32,
            })
        },
        e.phase == Phase::SeekRead ==> next.phase == Phase::SeekEval && cmd == Cmd::Read,
        e.phase == Phase::SeekEval && obs is None ==> next == (Endstop {
            phase: Phase::SeekRead,
            ..e
        }) && cmd == (Cmd::Pause { ms: e.cfg.seek_poll_ms }),
        e.phase == Phase::RestOff ==> next.phase == Phase::RestPause && stops_drive(cmd),
        e.phase == Phase::RestPause ==> {
            &&& cmd == (Cmd::Pause { ms: e.cfg.rest_ms })
            &&& next.reverse
            &&& !e.reverse ==> next.phase == Phase::SeekSet
            &&& e.reverse ==> next.phase == Phase::FinishDuty
        },
        e.phase == Phase::FinishDuty ==> next.phase == Phase::FinishTorque && stops_drive(cmd),
        e.phase == Phase::FinishTorque ==> next.phase == Phase::Finished && cmd == (Cmd::Write {
            reg: control::torque_enable(),
            value: 0,
        }),
        e.phase == Phase::Finished ==> next == e && cmd == Cmd::Done,
        e.phase != Phase::RestPause ==> next.reverse == e.reverse,
        e.phase != Phase::SeekEval ==> next.rail_fwd == e.rail_fwd && next.rail_rev == e.rail_rev,
        next.cfg == e.cfg,
        next.stall_eps == e.stall_eps,
        next.stall_polls == e.stall_polls,
{
    let d = e.cfg.seek_duty_q15 as int;
    assert(1 * d == d && (-1) * d == -d) by (nonlinear_arith);
}

/// A seek read of the current check: enough still reads in a row, and nothing
/// else, end the seek.
pub proof fn law_current_seek_read(
    c: VerifyCurrent,
    o: TelemetrySnapshot,
    next: VerifyCurrent,
    cmd: Cmd,
)
    requires
        c.wf(),
        c.phase == CPhase::SeekEval,
        c.steps_to(Some(o), &next, cmd),
    ensures
        counts_still(c.last_pos, c.still, o.pos, c.cfg.stall_eps, next.last_pos, next.still),
        next.still >= c.cfg.stall_polls ==> next.phase == CPhase::SeekOff && cmd == (Cmd::Pause {
            ms: 0,
        }),
        next.still < c.cfg.stall_polls ==> next.phase == CPhase::SeekRead && cmd == (Cmd::Pause {
            ms: c.cfg.seek_poll_ms,
        }),
        next.windows == c.windows,
{
    assert(next@.still == next.still && next@.phase == next.phase);
}

/// A step of the current check is set with its own amplitude, reversed at the
/// second end, and starts with no window and its whole dwell ahead.
pub proof fn law_current_step_set(
    c: VerifyCurrent,
    obs: Option<TelemetrySnapshot>,
    next: VerifyCurrent,
    cmd: Cmd,
)
    requires
        c.wf(),
        c.phase == CPhase::StepSet,
        c.steps_to(obs, &next, cmd),
    ensures
        ({
            let amp = c.cfg.steps_counts@[c.step_idx as int] as int;
            let goal = if c.reverse {
                -amp
            } else {
                amp
            };
            &&& cmd == (Cmd::Write { reg: control::goal_current(), value: goal as i32 })
            &&& next.cur matches Some(x) && x.windows@.len() == 0 && (goal < 32_768 ==> x.goal
                == goal)
        }),
        next.polls_left == c.cfg.dwell_polls,
        next.phase == CPhase::StepRead,
        next.windows == c.windows.marked(),
{
    assert(next@.polls_left == next.polls_left);
    assert(next@.cur is Some);
    assert(next.cur is Some);
    assert(next@.cur->0 == (next.cur->0)@);
    let amp = c.cfg.steps_counts@[c.step_idx as int] as int;
    assert(c.plan().goal(c.reverse, c.step_idx as int) == (if c.reverse {
        -amp
    } else {
        amp
    }));
}

/// A step read: the window is kept when it is new, the dwell counts down by
/// one, and the step ends when the dwell is used up.
pub proof fn law_current_step_read(
    c: VerifyCurrent,
    o: TelemetrySnapshot,
    next: VerifyCurrent,
    cmd: Cmd,
)
    requires
        c.wf(),
        c.phase == CPhase::StepEval,
        c.cur is Some,
        c.steps_to(Some(o), &next, cmd),
    ensures
        next.cur is Some,
        next.cur->0.goal == c.cur->0.goal,
        next.cur->0.windows@ == (match c.windows.sampled(o) {
            Some(w) => c.cur->0.windows@.push(w),
            None => c.cur->0.windows@,
        }),
        next.windows == c.windows.after(o.agg_seq),
        next.polls_left == (if c.polls_left == 0 {
            0
        } else {
            c.polls_left - 1
        }),
        c.polls_left <= 1 ==> next.phase == CPhase::StepOff && cmd == (Cmd::Pause { ms: 0 }),
        c.polls_left > 1 ==> next.phase == CPhase::StepRead && cmd == (Cmd::Pause {
            ms: c.cfg.poll_ms,
        }),
{
    assert(next@.polls_left == next.polls_left);
    assert(c@.cur == Some((c.cur->0)@));
    assert(next@.cur is Some);
    assert(next@.cur->0 == (next.cur->0)@);
}

proof fn lemma_steps(a: Seq<StepCapture>, b: Seq<StepCapture>, r: StepView)
    requires
        super::verify::steps_of(b) == super::verify::steps_of(a).push(r),
    ensures
        b.len() == a.len() + 1,
        b.last()@ == r,
        forall|k: int| 0 <= k < a.len() ==> (#[trigger] b[k])@ == a[k]@,
{
    let x = super::verify::steps_of(a);
    let y = super::verify::steps_of(b);
    assert(y.len() == b.len() && x.len() == a.len());
    assert(y[b.len() - 1] == b[b.len() - 1]@);
    assert forall|k: int| 0 <= k < a.len() implies (#[trigger] b[k])@ == a[k]@ by {
        assert(y[k] == b[k]@ && x[k] == a[k]@);
    }
}

/// A finished step is filed as it stands, with the goal back at zero.
pub proof fn law_current_step_filed(
    c: VerifyCurrent,
    obs: Option<TelemetrySnapshot>,
    next: VerifyCurrent,
    cmd: Cmd,
)
    requires
        c.wf(),
        c.phase == CPhase::StepOff,
        c.cur is Some,
        c.steps_to(obs, &next, cmd),
    ensures
        next.captures@.len() == c.captures@.len() + 1,
        next.captures@.last().goal == c.cur->0.goal,
        next.captures@.last().windows@ == c.cur->0.windows@,
        forall|k: int|
            0 <= k < c.captures@.len() ==> (#[trigger] next.captures@[k])@ == c.captures@[k]@,
        next.cur is None,
        next.phase == CPhase::StepRest,
        cmd == (Cmd::Write { reg: control::goal_current(), value: 0 }),
{
    assert(c@.cur == Some((c.cur->0)@));
    assert(next@.captures == c@.captures.push((c.cur->0)@));
    lemma_steps(c.captures@, next.captures@, (c.cur->0)@);
    assert(next@.cur is None);
}

/// The order of the current check: open loop into the stop, then current mode
/// through a torque-off gap, every step with a rest after it, then back through
/// the gap for the other end, and goal and torque off at the end.
pub proof fn law_current_order(
    c: VerifyCurrent,
    obs: Option<TelemetrySnapshot>,
    next: VerifyCurrent,
    cmd: Cmd,
)
    requires
        c.wf(),
        c.steps_to(obs, &next, cmd),
    ensures
        c.phase == CPhase::ModeOpen || c.phase == CPhase::DirModeOpen ==> next.phase
            == CPhase::TorqueOn && cmd == (Cmd::Write { reg: control::mode(), value: 0 }),
        c.phase == CPhase::TorqueOn ==> next.phase == CPhase::SeekSet && cmd == (Cmd::Write {
            reg: control::torque_enable(),
            value: 1,
        }),
        c.phase == CPhase::SeekSet ==> {
            &&& next.phase == CPhase::SeekRead
            &&& next.last_pos is None
            &&& next.still == 0
            &&& cmd == (Cmd::Write {
                reg: control::goal_duty(),
                value: (if c.reverse {
                    -c.cfg.seek_duty_q15
                } else {
                    c.cfg.seek_duty_q15 as int
                }) as i32,
            })
        },
        c.phase == CPhase::SeekRead ==> next.phase == CPhase::SeekEval && cmd == Cmd::Read,
        c.phase == CPhase::SeekOff ==> next.phase == CPhase::SwitchTorqueOff && stops_drive(cmd),
        c.phase == CPhase::SwitchTorqueOff ==> next.phase == CPhase::SwitchMode && cmd == (
        Cmd::Write { reg: control::torque_enable(), value: 0 }),
        c.phase == CPhase::SwitchMode ==> next.phase == CPhase::SwitchTorqueOn && cmd == (
        Cmd::Write { reg: control::mode(), value: 1 }),
        c.phase == CPhase::SwitchTorqueOn ==> next.phase == CPhase::StepSet && next.step_idx == 0
            && cmd == (Cmd::Write { reg: control::torque_enable(), value: 1 }),
        c.phase == CPhase::StepRead ==> next.phase == CPhase::StepEval && cmd == Cmd::Read,
        c.phase == CPhase::StepRest ==> {
            let last = c.step_idx + 1 == c.cfg.steps_counts@.len();
            &&& cmd == (Cmd::Pause { ms: c.cfg.rest_ms })
            &&& next.step_idx == c.step_idx + 1
            &&& !last ==> next.phase == CPhase::StepSet && next.reverse == c.reverse
            &&& last && !c.reverse ==> next.phase == CPhase::DirTorqueOff && next.reverse
            &&& last && c.reverse ==> next.phase == CPhase::FinishGoal
        },
        c.phase == CPhase::DirTorqueOff ==> next.phase == CPhase::DirModeOpen && cmd == (
        Cmd::Write { reg: control::torque_enable(), value: 0 }),
        c.phase == CPhase::FinishGoal ==> next.phase == CPhase::FinishTorque && cmd == (
        Cmd::Write { reg: control::goal_current(), value: 0 }),
        c.phase == CPhase::FinishTorque ==> next.phase == CPhase::Finished && cmd == (
        Cmd::Write { reg: control::torque_enable(), value: 0 }),
        c.phase == CPhase::Finished ==> next@ == c@ && cmd == Cmd::Done,
        c.phase != CPhase::StepRest ==> next.reverse == c.reverse,
        c.phase != CPhase::StepRest && c.phase != CPhase::SwitchTorqueOn ==> next.step_idx
            == c.step_idx,
        c.phase != CPhase::StepOff ==> next@.captures == c@.captures,
        next.settle_windows == c.settle_windows,
        next.cfg == c.cfg,
{
    assert(next@.step_idx == next.step_idx && next@.still == next.still && next@.phase
        == next.phase && next@.last_pos == next.last_pos && next@.reverse == next.reverse);
}

/// A parking read of the velocity check: at or below the park edge, or eight
/// reads in a row within three counts, and the seek ends.
pub proof fn law_velocity_park_read(
    v: VerifyVelocity,
    o: TelemetrySnapshot,
    next: VerifyVelocity,
    cmd: Cmd,
)
    requires
        v.wf(),
        v.phase == VPhase::SeekEval,
        v.steps_to(Some(o), &next, cmd),
    ensures
        counts_still(v.last_pos, v.still, o.pos, 3, next.last_pos, next.still),
        ({
            let parked = o.pos <= v.band.0 + v.cfg.seek_margin || next.still >= 8;
            &&& parked ==> next.phase == VPhase::SeekOff && cmd == (Cmd::Pause { ms: 0 })
            &&& !parked ==> next.phase == VPhase::SeekRead && cmd == (Cmd::Pause {
                ms: v.cfg.seek_poll_ms,
            })
        }),
{
    assert(next@.still == next.still && next@.phase == next.phase && next@.last_pos
        == next.last_pos);
}

/// A leg read: the point is kept, with the ticks since the leg's first read,
/// unless the position lies in the slip zone; the leg ends at the far edge for
/// its direction or at the poll cap, which is noted with the leg's goal.
pub proof fn law_velocity_leg_read(
    v: VerifyVelocity,
    o: TelemetrySnapshot,
    next: VerifyVelocity,
    cmd: Cmd,
)
    requires
        v.wf(),
        v.phase == VPhase::LegEval,
        v.cur is Some,
        v.steps_to(Some(o), &next, cmd),
    ensures
        next.polls == v.polls + 1,
        v.tick0 matches Some(t) ==> next.tick0 == Some(t),
        v.tick0 is None ==> next.tick0 == Some(o.sample_tick),
        next.cur is Some,
        next.cur->0.goal_cps == v.cur->0.goal_cps,
        o.pos >= v.params.slip.0 && o.pos <= v.params.slip.1 ==> next.cur->0.pts@
            == v.cur->0.pts@,
        o.pos < v.params.slip.0 || o.pos > v.params.slip.1 ==> {
            let pts = next.cur->0.pts@;
            let t0 = next.tick0->0;
            &&& pts.len() == v.cur->0.pts@.len() + 1
            &&& pts.drop_last() == v.cur->0.pts@
            &&& pts.last().pos == o.pos
            &&& o.sample_tick >= t0 ==> pts.last().ticks == o.sample_tick - t0
            &&& o.sample_tick < t0 ==> pts.last().ticks == o.sample_tick - t0 + 0x1_0000_0000
        },
        ({
            let speed = v.cfg.legs_cps@[v.leg_idx as int / 2] as int;
            let goal = if v.leg_idx % 2 == 0 {
                speed
            } else {
                -speed
            };
            let turned = if goal > 0 {
                o.pos + v.cfg.margin >= v.band.1
            } else {
                o.pos <= v.band.0 + v.cfg.margin
            };
            let capped = v.polls + 1 >= v.cfg.leg_cap_polls;
            &&& turned || capped ==> next.phase == VPhase::LegOff && cmd == (Cmd::Pause { ms: 0 })
            &&& !turned && !capped ==> next.phase == VPhase::LegRead && cmd == (Cmd::Pause {
                ms: v.cfg.poll_ms,
            })
            &&& capped ==> next@.capped == v@.capped.push(goal)
            &&& !capped ==> next@.capped == v@.capped
        }),
{
    assert(next@.polls == next.polls && next@.phase == next.phase && next@.tick0 == next.tick0);
    assert(v@.cur == Some((v.cur->0)@));
    assert(next@.cur is Some);
    assert(next@.cur->0 == (next.cur->0)@);
    if o.pos < v.params.slip.0 || o.pos > v.params.slip.1 {
        let pts = next.cur->0.pts@;
        assert(pts.drop_last() =~= v.cur->0.pts@);
        let t0 = next.tick0->0;
        let d = o.sample_tick - t0;
        assert(d >= 0 ==> d % 0x1_0000_0000 == d);
        assert(d < 0 ==> d % 0x1_0000_0000 == d + 0x1_0000_0000);
    }
}

/// A leg is set with its own speed, reversed on the way back, and starts with
/// no point and no poll.
pub proof fn law_velocity_leg_set(
    v: VerifyVelocity,
    obs: Option<TelemetrySnapshot>,
    next: VerifyVelocity,
    cmd: Cmd,
)
    requires
        v.wf(),
        v.phase == VPhase::LegSet,
        v.steps_to(obs, &next, cmd),
    ensures
        ({
            let speed = v.cfg.legs_cps@[v.leg_idx as int / 2] as int;
            let goal = if v.leg_idx % 2 == 0 {
                speed
            } else {
                -speed
            };
            &&& cmd == (Cmd::Write { reg: control::goal_velocity(), value: goal as i32 })
            &&& next.cur matches Some(x) && x.pts@.len() == 0 && x.goal_cps == goal
        }),
        next.polls == 0,
        next.tick0 is None,
        next.phase == VPhase::LegRead,
{
    assert(next@.polls == next.polls && next@.tick0 == next.tick0);
    assert(next@.cur is Some);
    assert(next.cur is Some);
    assert(next@.cur->0 == (next.cur->0)@);
}

proof fn lemma_legs(a: Seq<LegCapture>, b: Seq<LegCapture>, r: LegView)
    requires
        super::verify::legs_of(b) == super::verify::legs_of(a).push(r),
    ensures
        b.len() == a.len() + 1,
        b.last()@ == r,
        forall|k: int| 0 <= k < a.len() ==> (#[trigger] b[k])@ == a[k]@,
{
    let x = super::verify::legs_of(a);
    let y = super::verify::legs_of(b);
    assert(y.len() == b.len() && x.len() == a.len());
    assert(y[b.len() - 1] == b[b.len() - 1]@);
    assert forall|k: int| 0 <= k < a.len() implies (#[trigger] b[k])@ == a[k]@ by {
        assert(y[k] == b[k]@ && x[k] == a[k]@);
    }
}

/// A finished leg is filed as it stands, with the goal back at zero.
pub proof fn law_velocity_leg_filed(
    v: VerifyVelocity,
    obs: Option<TelemetrySnapshot>,
    next: VerifyVelocity,
    cmd: Cmd,
)
    requires
        v.wf(),
        v.phase == VPhase::LegOff,
        v.cur is Some,
        v.steps_to(obs, &next, cmd),
    ensures
        next.captures@.len() == v.captures@.len() + 1,
        next.captures@.last().goal_cps == v.cur->0.goal_cps,
        next.captures@.last().pts@ == v.cur->0.pts@,
        forall|k: int|
            0 <= k < v.captures@.len() ==> (#[trigger] next.captures@[k])@ == v.captures@[k]@,
        next.cur is None,
        next.phase == VPhase::LegRest,
        cmd == (Cmd::Write { reg: control::goal_velocity(), value: 0 }),
{
    assert(v@.cur == Some((v.cur->0)@));
    assert(next@.captures == v@.captures.push((v.cur->0)@));
    lemma_legs(v.captures@, next.captures@, (v.cur->0)@);
    assert(next@.cur is None);
}

/// The order of the velocity check: park with the drive toward the low edge,
/// velocity mode through a torque-off gap, then every leg with a rest after it,
/// and goal and torque off at the end.
pub proof fn law_velocity_order(
    v: VerifyVelocity,
    obs: Option<TelemetrySnapshot>,
    next: VerifyVelocity,
    cmd: Cmd,
)
    requires
        v.wf(),
        v.steps_to(obs, &next, cmd),
    ensures
        v.phase == VPhase::ModeOpen ==> next.phase == VPhase::TorqueOn && cmd == (Cmd::Write {
            reg: control::mode(),
            value: 0,
        }),
        v.phase == VPhase::TorqueOn ==> next.phase == VPhase::SeekSet && cmd == (Cmd::Write {
            reg: control::torque_enable(),
            value: 1,
        }),
        v.phase == VPhase::SeekSet ==> {
            &&& next.phase == VPhase::SeekRead
            &&& next.last_pos is None
            &&& next.still == 0
            &&& cmd == (Cmd::Write {
                reg: control::goal_duty(),
                value: (-v.cfg.seek_duty_q15) as i32,
            })
        },
        v.phase == VPhase::SeekRead ==> next.phase == VPhase::SeekEval && cmd == Cmd::Read,
        v.phase == VPhase::SeekOff ==> next.phase == VPhase::SwitchTorqueOff && stops_drive(cmd),
        v.phase == VPhase::SwitchTorqueOff ==> next.phase == VPhase::SwitchMode && cmd == (
        Cmd::Write { reg: control::torque_enable(), value: 0 }),
        v.phase == VPhase::SwitchMode ==> next.phase == VPhase::SwitchTorqueOn && cmd == (
        Cmd::Write { reg: control::mode(), value: 2 }),
        v.phase == VPhase::SwitchTorqueOn ==> next.phase == VPhase::LegSet && cmd == (Cmd::Write {
            reg: control::torque_enable(),
            value: 1,
        }),
        v.phase == VPhase::LegRead ==> next.phase == VPhase::LegEval && cmd == Cmd::Read,
        v.phase == VPhase::LegRest ==> {
            &&& cmd == (Cmd::Pause { ms: v.cfg.rest_ms })
            &&& next.leg_idx == v.leg_idx + 1
            &&& v.leg_idx + 1 < 2 * v.cfg.legs_cps@.len() ==> next.phase == VPhase::LegSet
            &&& v.leg_idx + 1 == 2 * v.cfg.legs_cps@.len() ==> next.phase == VPhase::FinishGoal
        },
        v.phase == VPhase::FinishGoal ==> next.phase == VPhase::FinishTorque && cmd == (
        Cmd::Write { reg: control::goal_velocity(), value: 0 }),
        v.phase == VPhase::FinishTorque ==> next.phase == VPhase::Finished && cmd == (Cmd::Write {
            reg: control::torque_enable(),
            value: 0,
        }),
        v.phase == VPhase::Finished ==> next@ == v@ && cmd == Cmd::Done,
        v.phase != VPhase::LegRest ==> next.leg_idx == v.leg_idx,
        v.phase != VPhase::LegOff ==> next@.captures == v@.captures,
        v.phase != VPhase::LegEval ==> next@.capped == v@.capped,
        next.band == v.band,
        next.params == v.params,
        next.cfg == v.cfg,
{
    assert(next@.leg_idx == next.leg_idx && next@.still == next.still && next@.phase == next.phase
        && next@.last_pos == next.last_pos);
}

/// The mean of a step leaves out its first `settle` windows and no others: the
/// sum over a longer step grows by each further window's current.
pub proof fn law_step_sum(s: Seq<WindowSample>, w: WindowSample, settle: int)
    requires
        settle >= 0,
    ensures
        tail_of(s, settle).len() == (if s.len() > settle {
            s.len() - settle
        } else {
            0
        }),
        s.len() >= settle ==> current_sum(tail_of(s.push(w), settle)) == current_sum(
            tail_of(s, settle),
        ) + w.i,
        s.len() < settle ==> current_sum(tail_of(s.push(w), settle)) == 0,
{
    let t = tail_of(s.push(w), settle);
    if s.len() >= settle {
        assert(t.drop_last() =~= tail_of(s, settle));
        assert(t.last() == w);
    } else {
        assert(t.len() == 0);
    }
}

/// A step has settled at its first window within the band of the goal, on
/// either side of it: the window named is inside, and every one before it is
/// outside; a step with no such window has not settled.
pub proof fn law_settled_first(s: Seq<WindowSample>, goal: int, band: int)
    ensures
        settled_at(s, goal, band) matches Some(x) ==> exists|k: int|
            0 <= k < s.len() && (#[trigger] s[k]).seq == x && goal - band <= s[k].i <= goal + band
                && forall|j: int|
                0 <= j < k ==> !(goal - band <= (#[trigger] s[j]).i <= goal + band),
        settled_at(s, goal, band) is None ==> forall|j: int|
            0 <= j < s.len() ==> !(goal - band <= (#[trigger] s[j]).i <= goal + band),
    decreases s.len(),
{
    if s.len() > 0 {
        let inside = goal - band <= s[0].i && s[0].i <= goal + band;
        if !inside {
            let rest = s.skip(1);
            law_settled_first(rest, goal, band);
            if let Some(x) = settled_at(rest, goal, band) {
                let k = choose|k: int|
                    0 <= k < rest.len() && (#[trigger] rest[k]).seq == x && goal - band <= rest[k].i
                        <= goal + band && forall|j: int|
                        0 <= j < k ==> !(goal - band <= (#[trigger] rest[j]).i <= goal + band);
                assert(s[k + 1] == rest[k]);
                assert forall|j: int| 0 <= j < k + 1 implies !(goal - band <= (
                #[trigger] s[j]).i <= goal + band) by {
                    if j > 0 {
                        assert(rest[j - 1] == s[j]);
                    }
                }
            } else {
                assert forall|j: int| 0 <= j < s.len() implies !(goal - band <= (
                #[trigger] s[j]).i <= goal + band) by {
                    if j > 0 {
                        assert(rest[j - 1] == s[j]);
                    }
                }
            }
        }
    }
}

/// The steady windows of a sweep: as many off the end as off the start, and a
/// window between them stays exactly when its position is outside the slip
/// zone.
pub proof fn law_steady_windows(samples: Seq<SweepSample>, s: SweepSample, p: RigParams, trim: int)
    requires
        0 <= trim,
        2 * trim <= samples.len(),
    ensures
        trimmed(samples, trim).len() == samples.len() - 2 * trim,
        forall|k: int|
            0 <= k < samples.len() - 2 * trim ==> #[trigger] trimmed(samples, trim)[k]
                == samples[k + trim],
        s.pos < p.slip.0 || s.pos > p.slip.1 ==> unslipped(samples.push(s), p) == unslipped(
            samples,
            p,
        ).push(s),
        s.pos >= p.slip.0 && s.pos <= p.slip.1 ==> unslipped(samples.push(s), p) == unslipped(
            samples,
            p,
        ),
        unslipped(Seq::<SweepSample>::empty(), p).len() == 0,
{
    reveal(Seq::filter);
    assert(samples.push(s).drop_last() =~= samples);
}

} // verus!
