//! What holds of every tick, whatever the signal blocks answer.

use super::io::{DecayMode, Effort, MotorCmd, SensorFrame, StreamCall, Trace};
use super::state::{generator_at, observer_at, DrivePlan, KernelState};
use super::{
    fronted, latch_over, medium_report, mediumed, published, report, settled, stream_trace, ticked,
    written_table, KernelTiming, Replies,
};
use crate::math::{bound, greatest, least};
use crate::regions::config::DecaySelect;
use crate::regions::control::Mode;
use crate::regions::ControlTable;
use vstd::prelude::*;

verus! {

/// The tick ran with torque on and no fault, before and after the medium pass.
pub open spec fn drives(t: ControlTable, rep: Replies) -> bool {
    t.control.lifecycle.torque_enable && rep.flags_at_gate == 0 && rep.flags_at_drive == 0
}

/// The answers of one tick cover the passes that were due.
pub open spec fn answers(s: KernelState, rep: Replies) -> bool {
    &&& rep.medium is Some <==> s.medium_due()
    &&& rep.medium is Some ==> (rep.medium->0.slow is Some <==> s.slow_due())
}

/// With torque off, or with any fault latched before the enable gate or raised within
/// the tick, the bridge is disabled this very tick and the remembered duty is
/// zero.
pub proof fn law_off_or_faulted_disables(
    s: KernelState,
    timing: KernelTiming,
    frame: SensorFrame,
    t: ControlTable,
    rep: Replies,
)
    requires
        !drives(t, rep),
    ensures
        report(s, timing, frame, t, rep).cmd == MotorCmd::Disabled,
        ticked(s, timing, frame, t, rep).duty_q15 == 0,
{
}

/// Open loop passes the goal duty through, inside the duty ceiling, with the
/// configured decay and no loop between.
pub proof fn law_openloop_passthrough(
    s: KernelState,
    timing: KernelTiming,
    frame: SensorFrame,
    t: ControlTable,
    rep: Replies,
)
    requires
        drives(t, rep),
        t.control.lifecycle.mode == Mode::OpenLoop,
    ensures
        report(s, timing, frame, t, rep).cmd matches MotorCmd::Drive { duty, decay } && {
            let max = least(t.config.loop_current.duty_max_q15 as int, i16::MAX as int);
            let goal = t.control.lifecycle.goal_duty;
            &&& -max <= duty.0 <= max
            &&& -max <= goal <= max ==> duty.0 == goal
            &&& goal > max ==> duty.0 == max
            &&& goal < -max ==> duty.0 == -max
            &&& decay == DecayMode::Fast <==> t.config.limits.openloop_decay == DecaySelect::Fast
        },
{
}

/// Closed-loop drive always decays slowly, and the bridge coasts exactly while
/// the hold stands.
pub proof fn law_closed_loop_shape(
    s: KernelState,
    timing: KernelTiming,
    frame: SensorFrame,
    t: ControlTable,
    rep: Replies,
)
    requires
        drives(t, rep),
        t.control.lifecycle.mode != Mode::OpenLoop,
    ensures
        report(s, timing, frame, t, rep).cmd == MotorCmd::Coast <==> settled(
            s,
            timing,
            frame,
            t,
            rep,
        ).hold,
        report(s, timing, frame, t, rep).cmd matches MotorCmd::Drive { duty, decay } ==> decay
            == DecayMode::Slow,
{
}

/// No command and no measurement: zero duty, never a duty the loop froze at.
pub proof fn law_zero_ref_without_window(
    s: KernelState,
    timing: KernelTiming,
    frame: SensorFrame,
    t: ControlTable,
    rep: Replies,
)
    requires
        drives(t, rep),
        t.control.lifecycle.mode != Mode::OpenLoop,
        ticked(s, timing, frame, t, rep).i_ref_cc == 0,
        rep.window.i_meas is None,
    ensures
        ticked(s, timing, frame, t, rep).duty_q15 == 0,
{
}

/// Current mode commands its goal inside the directional band, fresh each tick.
pub proof fn law_current_mode_banded(
    s: KernelState,
    timing: KernelTiming,
    frame: SensorFrame,
    t: ControlTable,
    rep: Replies,
)
    requires
        drives(t, rep),
        t.control.lifecycle.mode == Mode::Current,
    ensures
        ticked(s, timing, frame, t, rep).i_ref_cc == settled(s, timing, frame, t, rep).i_band.limit(
            t.control.lifecycle.goal_current as int,
        ),
{
}

/// The enable edge is bumpless: the observer restarts at the reading with no
/// velocity and no disturbance, the profile at that estimate and at rest, and
/// the command chain at zero.
pub proof fn law_enable_edge_bumpless(s: KernelState, frame: SensorFrame, t: ControlTable, rep: Replies)
    requires
        t.control.lifecycle.torque_enable,
        rep.flags_at_gate == 0,
        !s.run_prev,
    ensures
        fronted(s, frame, t, rep).fusion == observer_at(frame.pos),
        fronted(s, frame, t, rep).traj == generator_at(observer_at(frame.pos).theta_q16 as int),
        fronted(s, frame, t, rep).i_ref_cc == 0,
        fronted(s, frame, t, rep).omega_ref_q16 == 0,
        !fronted(s, frame, t, rep).hold,
{
}

/// A mode change while running restarts the profile at the estimate, at rest,
/// and drops the hold; nothing else of the estimate moves.
pub proof fn law_mode_change_bumpless(s: KernelState, frame: SensorFrame, t: ControlTable, rep: Replies)
    requires
        s.booted,
        s.run_prev,
        t.control.lifecycle.torque_enable,
        rep.flags_at_gate == 0,
        t.control.lifecycle.mode != s.mode_prev,
    ensures
        fronted(s, frame, t, rep).fusion == s.fusion,
        fronted(s, frame, t, rep).traj == generator_at(s.fusion.theta_q16 as int),
        !fronted(s, frame, t, rep).hold,
        fronted(s, frame, t, rep).i_ref_cc == s.i_ref_cc,
{
}

/// Cadence: the medium pass runs on every tenth tick and the slow pass on every
/// thirty-second medium pass, and the very first tick runs both.
pub proof fn law_cadence(
    s: KernelState,
    timing: KernelTiming,
    frame: SensorFrame,
    t: ControlTable,
    rep: Replies,
)
    requires
        s.wf(),
        answers(s, rep),
    ensures
        KernelState::initial().medium_due(),
        KernelState::initial().slow_due(),
        ticked(s, timing, frame, t, rep).decim_med == (s.decim_med + 1) % 10,
        s.medium_due() ==> ticked(s, timing, frame, t, rep).decim_slow == (s.decim_slow + 1) % 32,
        !s.medium_due() ==> ticked(s, timing, frame, t, rep).decim_slow == s.decim_slow,
{
    reveal(mediumed);
}

/// The edges are judged against the tick before: what this tick saw of the
/// enable bit, the mode and the enable gate is what the next one compares with.
pub proof fn law_edges_remembered(
    s: KernelState,
    timing: KernelTiming,
    frame: SensorFrame,
    t: ControlTable,
    rep: Replies,
)
    ensures
        ticked(s, timing, frame, t, rep).booted,
        ticked(s, timing, frame, t, rep).te_prev == t.control.lifecycle.torque_enable,
        ticked(s, timing, frame, t, rep).mode_prev == t.control.lifecycle.mode,
        ticked(s, timing, frame, t, rep).run_prev == (t.control.lifecycle.torque_enable
            && rep.flags_at_gate == 0),
{
    reveal(mediumed);
}

/// Undervolt latches on fresh evidence only: an estimate frozen by the fault's
/// own bridge-off never latches again. Overtemperature and undervolt are judged
/// on slow passes alone.
pub proof fn law_undervolt_needs_fresh(
    s: KernelState,
    timing: KernelTiming,
    frame: SensorFrame,
    t: ControlTable,
    rep: Replies,
)
    requires
        report(s, timing, frame, t, rep).medium is Some,
        report(s, timing, frame, t, rep).medium->0.slow is Some,
        report(s, timing, frame, t, rep).medium->0.slow->0.under_volt,
    ensures
        rep.medium->0.slow->0.vbus_fresh,
        rep.medium->0.slow->0.vbus < t.config.thermal.v_undervolt_counts,
{
    reveal(medium_report);
}

/// The published duty is the command of the period this frame sampled, and a
/// tick that is not a medium one publishes the frame alone.
pub proof fn law_publish(
    s: KernelState,
    timing: KernelTiming,
    frame: SensorFrame,
    t: ControlTable,
    rep: Replies,
)
    ensures
        published(s, timing, frame, t, rep).sensors.pos == frame.pos,
        published(s, timing, frame, t, rep).sensors.current_bias_counts
            == t.telemetry.sensors.current_bias_counts,
        rep.medium is None ==> published(s, timing, frame, t, rep).estimates
            == t.telemetry.estimates,
        rep.medium is Some ==> published(s, timing, frame, t, rep).estimates.duty_applied_q15
            == s.duty_q15,
{
}

/// What the hold rests on: the position loop of a running position mode.
pub open spec fn holds_in_position(s: KernelState) -> bool {
    s.hold ==> s.run_prev && s.mode_prev == Mode::Position
}

/// The duty a command leaves on the bridge.
pub open spec fn duty_of(cmd: MotorCmd) -> int {
    match cmd {
        MotorCmd::Drive { duty, decay } => duty.0 as int,
        _ => 0,
    }
}

/// The bridge is disabled exactly when torque is off or a fault stands, and it
/// is never told to brake. With faults that stay latched within a tick, the
/// fault mask at its end alone tells.
pub proof fn law_disabled_iff_off_or_faulted(
    s: KernelState,
    timing: KernelTiming,
    frame: SensorFrame,
    t: ControlTable,
    rep: Replies,
)
    ensures
        report(s, timing, frame, t, rep).cmd == MotorCmd::Disabled <==> !drives(t, rep),
        (rep.flags_at_gate != 0 ==> rep.flags_at_drive != 0) ==> (report(
            s,
            timing,
            frame,
            t,
            rep,
        ).cmd == MotorCmd::Disabled <==> !t.control.lifecycle.torque_enable || rep.flags_at_drive
            != 0),
        report(s, timing, frame, t, rep).cmd != MotorCmd::Brake,
{
}

/// The hold stands only in a running position mode: at power-on, and after a
/// tick from any state where it does.
pub proof fn law_hold_needs_position(
    s: KernelState,
    timing: KernelTiming,
    frame: SensorFrame,
    t: ControlTable,
    rep: Replies,
)
    requires
        holds_in_position(s),
    ensures
        holds_in_position(KernelState::initial()),
        holds_in_position(ticked(s, timing, frame, t, rep)),
{
    reveal(mediumed);
}

/// The command of a running tick. Open loop: the goal duty, clamped, with the
/// configured decay. Every other mode: slow decay, or a coast, and a coast in
/// position mode alone.
pub open spec fn shaped(t: ControlTable, cmd: MotorCmd) -> bool {
    let mode = t.control.lifecycle.mode;
    let max = least(t.config.loop_current.duty_max_q15 as int, i16::MAX as int);
    &&& mode == Mode::OpenLoop ==> cmd == MotorCmd::Drive {
        duty: Effort(bound(t.control.lifecycle.goal_duty as int, -max, max) as i16),
        decay: match t.config.limits.openloop_decay {
            DecaySelect::Slow => DecayMode::Slow,
            DecaySelect::Fast => DecayMode::Fast,
        },
    }
    &&& mode != Mode::OpenLoop ==> cmd == MotorCmd::Coast || (cmd matches MotorCmd::Drive {
        duty,
        decay,
    } && decay == DecayMode::Slow)
    &&& cmd == MotorCmd::Coast ==> mode == Mode::Position
}

/// With torque on and no fault, the command has the shape its mode asks for.
pub proof fn law_drive_shape(
    s: KernelState,
    timing: KernelTiming,
    frame: SensorFrame,
    t: ControlTable,
    rep: Replies,
)
    requires
        holds_in_position(s),
        drives(t, rep),
    ensures
        shaped(t, report(s, timing, frame, t, rep).cmd),
{
    reveal(mediumed);
}

/// The current loop is handed the rail, floored at the undervolt threshold, and
/// beside it the reciprocal that the rail estimator answered for it.
pub proof fn law_rail_pair(
    s: KernelState,
    timing: KernelTiming,
    frame: SensorFrame,
    t: ControlTable,
    rep: Replies,
)
    ensures
        report(s, timing, frame, t, rep).drive matches DrivePlan::Step(q) ==> {
            &&& q.vbus_eff == greatest(
                rep.vbus_drive as int,
                t.config.thermal.v_undervolt_counts as int,
            )
            &&& q.recip_q15 == rep.recip_drive
        },
{
}

/// Over a latch that is shown, the mask at the end of the tick alone tells
/// whether the bridge is disabled, beside torque. A fault raised within the tick
/// disables this very tick's drive.
pub proof fn law_latched_fault_disables(
    s: KernelState,
    timing: KernelTiming,
    frame: SensorFrame,
    t: ControlTable,
    rep: Replies,
    before: u8,
    after: u8,
)
    requires
        latch_over(Some(before), report(s, timing, frame, t, rep), Some(after)),
    ensures
        report(s, timing, frame, t, rep).cmd == MotorCmd::Disabled
            <==> !t.control.lifecycle.torque_enable || after != 0,
        report(s, timing, frame, t, rep).raised() ==> after != 0 && report(
            s,
            timing,
            frame,
            t,
            rep,
        ).cmd == MotorCmd::Disabled,
        drives(t, rep) <==> t.control.lifecycle.torque_enable && after == 0,
{
}

/// A live stream, and no other, is told its mask and then this tick's sample,
/// once each. The sample is the frame's, beside the duty that the tick before
/// left on the bridge.
pub proof fn law_stream(
    s: KernelState,
    timing: KernelTiming,
    frame: SensorFrame,
    t: ControlTable,
    rep: Replies,
    sent: Trace<StreamCall>,
)
    ensures
        ({
            let life = t.control.lifecycle;
            let after = stream_trace(sent, report(s, timing, frame, t, rep).stream, life.tel_mask);
            if life.tel_enable && life.tel_mask != 0 {
                report(s, timing, frame, t, rep).stream matches Some(sample) && {
                    &&& after == sent.push(
                        StreamCall::Configure { enabled: true, mask: life.tel_mask },
                    ).push(StreamCall::Sample { sample })
                    &&& sample.pos == frame.pos
                    &&& sample.current_trough == frame.current_trough
                    &&& sample.duty_q15 == s.duty_q15
                    &&& sample.window_valid == rep.window.i_meas is Some
                }
            } else {
                after == sent
            }
        }),
        KernelState::initial().duty_q15 == 0,
        ticked(s, timing, frame, t, rep).duty_q15 == duty_of(report(s, timing, frame, t, rep).cmd),
{
}

/// The kernel writes telemetry alone: config, calibration, control and profile
/// are as they were, and so is the current bias among the sensors. What the
/// frame measured is published as it came.
pub proof fn law_single_writer(
    s: KernelState,
    timing: KernelTiming,
    frame: SensorFrame,
    t: ControlTable,
    rep: Replies,
)
    ensures
        ({
            let after = written_table(s, timing, frame, t, rep);
            let sensors = after.telemetry.sensors;
            &&& after.config == t.config
            &&& after.calib == t.calib
            &&& after.control == t.control
            &&& after.profile == t.profile
            &&& sensors.current_bias_counts == t.telemetry.sensors.current_bias_counts
            &&& sensors.pos == frame.pos
            &&& sensors.current == frame.current
            &&& sensors.vcal == frame.vcal
            &&& sensors.vmotor_a == frame.vmotor_a
            &&& sensors.vmotor_b == frame.vmotor_b
            &&& sensors.current_trough == frame.current_trough
        }),
{
}

/// One tick of a run: what it is given, and what the signal blocks answered.
pub struct TickIn {
    pub frame: SensorFrame,
    pub table: ControlTable,
    pub replies: Replies,
}

/// The state a run of ticks leads to from power-on.
pub open spec fn state_after(timing: KernelTiming, ticks: Seq<TickIn>) -> KernelState
    decreases ticks.len(),
{
    if ticks.len() == 0 {
        KernelState::initial()
    } else {
        let k = ticks.last();
        ticked(state_after(timing, ticks.drop_last()), timing, k.frame, k.table, k.replies)
    }
}

/// The commands a run of ticks writes to the bridge from power-on, one per
/// tick.
pub open spec fn commands_of(timing: KernelTiming, ticks: Seq<TickIn>) -> Seq<MotorCmd>
    decreases ticks.len(),
{
    if ticks.len() == 0 {
        seq![]
    } else {
        let k = ticks.last();
        let s = state_after(timing, ticks.drop_last());
        commands_of(timing, ticks.drop_last()).push(
            report(s, timing, k.frame, k.table, k.replies).cmd,
        )
    }
}

/// A run from power-on writes the bridge exactly once per tick. Each command
/// disables it exactly where torque is off or a fault stands, none brakes, and
/// every other has the shape that its mode asks for: one that coasts answers
/// position mode. What the next stream sample carries is the duty of the last
/// command.
pub proof fn law_run_commands(timing: KernelTiming, ticks: Seq<TickIn>)
    ensures
        commands_of(timing, ticks).len() == ticks.len(),
        holds_in_position(state_after(timing, ticks)),
        state_after(timing, ticks).duty_q15 == (if ticks.len() == 0 {
            0
        } else {
            duty_of(commands_of(timing, ticks).last())
        }),
        forall|k: int|
            0 <= k < ticks.len() ==> {
                let cmd = #[trigger] commands_of(timing, ticks)[k];
                &&& cmd == MotorCmd::Disabled <==> !drives(ticks[k].table, ticks[k].replies)
                &&& cmd != MotorCmd::Brake
                &&& cmd != MotorCmd::Disabled ==> shaped(ticks[k].table, cmd)
            },
    decreases ticks.len(),
{
    if ticks.len() > 0 {
        let before = ticks.drop_last();
        let last = ticks.last();
        let s = state_after(timing, before);
        law_run_commands(timing, before);
        law_hold_needs_position(s, timing, last.frame, last.table, last.replies);
        law_disabled_iff_off_or_faulted(s, timing, last.frame, last.table, last.replies);
        if drives(last.table, last.replies) {
            law_drive_shape(s, timing, last.frame, last.table, last.replies);
        }
        assert forall|k: int| 0 <= k < ticks.len() implies {
            let cmd = #[trigger] commands_of(timing, ticks)[k];
            &&& cmd == MotorCmd::Disabled <==> !drives(ticks[k].table, ticks[k].replies)
            &&& cmd != MotorCmd::Brake
            &&& cmd != MotorCmd::Disabled ==> shaped(ticks[k].table, cmd)
        } by {
            if k < before.len() {
                assert(commands_of(timing, ticks)[k] == commands_of(timing, before)[k]);
                assert(before[k] == ticks[k]);
            }
        }
    }
}

/// A shown latch over a run: `masks` holds what it shows at power-on and after
/// each tick.
pub open spec fn latched(timing: KernelTiming, ticks: Seq<TickIn>, masks: Seq<u8>) -> bool {
    &&& masks.len() == ticks.len() + 1
    &&& forall|k: int|
        0 <= k < ticks.len() ==> latch_over(
            Some(masks[k]),
            report(
                state_after(timing, ticks.take(k)),
                timing,
                (#[trigger] ticks[k]).frame,
                ticks[k].table,
                ticks[k].replies,
            ),
            Some(masks[k + 1]),
        )
}

proof fn lemma_command_at(timing: KernelTiming, ticks: Seq<TickIn>, k: int)
    requires
        0 <= k < ticks.len(),
    ensures
        commands_of(timing, ticks).len() == ticks.len(),
        commands_of(timing, ticks)[k] == report(
            state_after(timing, ticks.take(k)),
            timing,
            ticks[k].frame,
            ticks[k].table,
            ticks[k].replies,
        ).cmd,
    decreases ticks.len(),
{
    let before = ticks.drop_last();
    law_run_commands(timing, ticks);
    law_run_commands(timing, before);
    if k < before.len() {
        lemma_command_at(timing, before, k);
        assert(before.take(k) =~= ticks.take(k));
    } else {
        assert(ticks.take(k) =~= before);
    }
}

/// A run from power-on over a shown latch: each tick's command disables the
/// bridge exactly where torque is off or the latch holds a fault at the end of
/// that tick, and has the shape its mode asks for otherwise.
pub proof fn law_latched_run(timing: KernelTiming, ticks: Seq<TickIn>, masks: Seq<u8>, k: int)
    requires
        latched(timing, ticks, masks),
        0 <= k < ticks.len(),
    ensures
        commands_of(timing, ticks)[k] == MotorCmd::Disabled
            <==> !ticks[k].table.control.lifecycle.torque_enable || masks[k + 1] != 0,
        ticks[k].table.control.lifecycle.torque_enable && masks[k + 1] == 0 ==> shaped(
            ticks[k].table,
            commands_of(timing, ticks)[k],
        ),
{
    lemma_command_at(timing, ticks, k);
    law_run_commands(timing, ticks);
    law_latched_fault_disables(
        state_after(timing, ticks.take(k)),
        timing,
        ticks[k].frame,
        ticks[k].table,
        ticks[k].replies,
        masks[k],
        masks[k + 1],
    );
}

} // verus!
