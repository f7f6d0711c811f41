//! Whole runs: what an experiment has written once it has been stepped through a
//! series of observations, and the script that each run follows.

use super::endstop::{self, law_endstop_choreography, Endstop, EndstopCfg};
use super::ladder::{law_ladder_choreography, LadderPlan, LadderView, Phase};
use super::rig::Rig;
use super::verify::{
    law_current_choreography, law_velocity_choreography, wrap16, CPhase, CurrentPlan, CurrentView,
    VPhase, VelocityPlan, VelocityView,
};
use super::{put, Cmd, Experiment};
use crate::frame::TelemetrySnapshot;
use crate::regs::control;
use vstd::prelude::*;

verus! {

/// Where a machine stands after one step per observation, and the writes it
/// asked for on the way, in order.
pub open spec fn run<S>(
    next: spec_fn(S, Option<TelemetrySnapshot>) -> (S, Cmd),
    s: S,
    obs: Seq<Option<TelemetrySnapshot>>,
) -> (S, Seq<Cmd>)
    decreases obs.len(),
{
    if obs.len() == 0 {
        (s, seq![])
    } else {
        let (mid, writes) = run(next, s, obs.drop_last());
        let (end, cmd) = next(mid, obs.last());
        (
            end,
            if cmd is Write {
                writes.push(cmd)
            } else {
                writes
            },
        )
    }
}

proof fn lemma_prefix_trans<A>(a: Seq<A>, b: Seq<A>, c: Seq<A>)
    requires
        a.is_prefix_of(b),
        b.is_prefix_of(c),
    ensures
        a.is_prefix_of(c),
{
    assert forall|i: int| 0 <= i < a.len() implies a[i] == c[i] by {
        assert(a[i] == b.subrange(0, a.len() as int)[i]);
        assert(b[i] == c.subrange(0, b.len() as int)[i]);
    }
    assert(a =~= c.subrange(0, a.len() as int));
}

/// One more command behind a series.
proof fn lemma_rig_push(rig: Rig, cmds: Seq<Cmd>, cmd: Cmd)
    requires
        rig.permits_all(cmds),
        rig.after_all(cmds).permits(cmd),
    ensures
        rig.permits_all(cmds.push(cmd)),
        rig.after_all(cmds.push(cmd)) == rig.after_all(cmds).after(cmd),
{
    let all = cmds.push(cmd);
    assert(all.drop_last() =~= cmds);
    assert forall|i: int| 0 <= i < all.len() implies rig.after_all(all.take(i)).permits(
        #[trigger] all[i],
    ) by {
        if i < cmds.len() {
            assert(all.take(i) =~= cmds.take(i));
            assert(cmds[i] == all[i]);
        } else {
            assert(all.take(i) =~= cmds);
        }
    }
}

/// The end-stop machine.
pub open spec fn endstop_stepper() -> spec_fn(Endstop, Option<TelemetrySnapshot>) -> (Endstop, Cmd) {
    |e: Endstop, o: Option<TelemetrySnapshot>| e.next(o)
}

impl EndstopCfg {
    /// The writes of a whole run: open loop and torque, a seek each way with a
    /// stop behind it, a last stop, torque off.
    pub open spec fn script(self) -> Seq<Cmd> {
        seq![
            put(control::mode(), 0),
            put(control::torque_enable(), 1),
            put(control::goal_duty(), self.seek_duty_q15 as int),
            put(control::goal_duty(), 0),
            put(control::goal_duty(), -self.seek_duty_q15),
            put(control::goal_duty(), 0),
            put(control::goal_duty(), 0),
            put(control::torque_enable(), 0),
        ]
    }
}

/// Number of writes behind an end-stop run in this state.
spec fn endstop_count(e: Endstop) -> int {
    let back = if e.reverse {
        2int
    } else {
        0
    };
    match e.phase {
        endstop::Phase::ModeWrite => 0,
        endstop::Phase::TorqueOn => 1,
        endstop::Phase::SeekSet => 2 + back,
        endstop::Phase::SeekRead | endstop::Phase::SeekEval | endstop::Phase::RestOff => 3 + back,
        endstop::Phase::RestPause => 4 + back,
        endstop::Phase::FinishDuty => 6,
        endstop::Phase::FinishTorque => 7,
        endstop::Phase::Finished => 8,
    }
}

proof fn lemma_endstop_run(e: Endstop, obs: Seq<Option<TelemetrySnapshot>>)
    requires
        e.wf(),
        e.phase == endstop::Phase::ModeWrite,
        !e.reverse,
    ensures
        ({
            let (end, writes) = run(endstop_stepper(), e, obs);
            &&& end.wf()
            &&& end.cfg == e.cfg
            &&& end.phase == endstop::Phase::ModeWrite || end.phase == endstop::Phase::TorqueOn
                ==> !end.reverse
            &&& writes == e.cfg.script().take(endstop_count(end))
        }),
    decreases obs.len(),
{
    let script = e.cfg.script();
    if obs.len() > 0 {
        lemma_endstop_run(e, obs.drop_last());
        let (mid, writes) = run(endstop_stepper(), e, obs.drop_last());
        let (end, cmd) = mid.next(obs.last());
        assert((endstop_stepper())(mid, obs.last()) == mid.next(obs.last()));
        if cmd is Write {
            assert(script[endstop_count(mid)] == cmd);
            assert(script.take(endstop_count(end)) =~= writes.push(cmd));
        }
    } else {
        assert(script.take(0) =~= seq![]);
    }
}

/// An end-stop run keeps to its script, whatever it observes: what it has
/// written is always a prefix of the script, and the whole of it once it is
/// done, with both rails reached. Done is answered exactly from there on, and
/// the step that leads there takes torque off.
pub proof fn law_endstop_run(e: Endstop, obs: Seq<Option<TelemetrySnapshot>>)
    requires
        e.wf(),
        e.phase == endstop::Phase::ModeWrite,
        !e.reverse,
    ensures
        ({
            let (end, writes) = run(endstop_stepper(), e, obs);
            &&& writes.is_prefix_of(e.cfg.script())
            &&& end.phase == endstop::Phase::Finished ==> writes == e.cfg.script() && end.complete()
            &&& forall|o: Option<TelemetrySnapshot>|
                (#[trigger] end.next(o)).1 == Cmd::Done <==> end.phase == endstop::Phase::Finished
        }),
        forall|at: Endstop, o: Option<TelemetrySnapshot>|
            at.phase != endstop::Phase::Finished && (#[trigger] at.next(o)).0.phase
                == endstop::Phase::Finished ==> at.next(o).1 == put(control::torque_enable(), 0),
{
    lemma_endstop_run(e, obs);
    let (end, writes) = run(endstop_stepper(), e, obs);
    assert(writes =~= e.cfg.script().subrange(0, writes.len() as int));
    if end.phase == endstop::Phase::Finished {
        assert(writes =~= e.cfg.script());
    }
}

/// Every write of an end-stop run is safe where it comes, from a parked rig on,
/// and a finished run leaves torque off and nothing commanded.
pub proof fn law_endstop_run_is_safe(e: Endstop, obs: Seq<Option<TelemetrySnapshot>>)
    requires
        e.wf(),
        e.phase == endstop::Phase::ModeWrite,
        !e.reverse,
    ensures
        ({
            let (end, writes) = run(endstop_stepper(), e, obs);
            let rig = Rig::parked().after_all(writes);
            &&& Rig::parked().permits_all(writes)
            &&& end.posture(rig)
            &&& end.phase == endstop::Phase::Finished ==> rig.torque == 0 && rig.idle()
        }),
    decreases obs.len(),
{
    if obs.len() > 0 {
        law_endstop_run_is_safe(e, obs.drop_last());
        let (mid, writes) = run(endstop_stepper(), e, obs.drop_last());
        let (end, cmd) = mid.next(obs.last());
        let rig = Rig::parked().after_all(writes);
        law_endstop_choreography(mid, rig, obs.last());
        assert((endstop_stepper())(mid, obs.last()) == mid.next(obs.last()));
        if cmd is Write {
            lemma_rig_push(Rig::parked(), writes, cmd);
        }
    }
}

impl LadderPlan {
    /// The machine of this plan.
    pub open spec fn stepper(self) -> spec_fn(LadderView, Option<TelemetrySnapshot>) -> (
        LadderView,
        Cmd,
    ) {
        |l: LadderView, o: Option<TelemetrySnapshot>| l.next(self, o)
    }

    /// The writes of a run through its first `n` sweeps: open loop and torque,
    /// then per sweep the seek, a stop, the rung, a stop.
    pub open spec fn written_through(self, n: nat) -> Seq<Cmd>
        decreases n,
    {
        if n == 0 {
            seq![put(control::mode(), 0), put(control::torque_enable(), 1)]
        } else {
            self.written_through((n - 1) as nat).push(
                put(control::goal_duty(), self.seek(n - 1)),
            ).push(put(control::goal_duty(), 0)).push(
                put(control::goal_duty(), self.duty(n - 1)),
            ).push(put(control::goal_duty(), 0))
        }
    }

    /// The writes of a whole run: every sweep, then torque off.
    pub open spec fn script(self) -> Seq<Cmd> {
        self.written_through(self.sweeps() as nat).push(put(control::torque_enable(), 0))
    }
}

/// The writes behind a ladder in this state.
spec fn ladder_written(l: LadderView, plan: LadderPlan) -> Seq<Cmd> {
    let before = plan.written_through(l.sweep as nat);
    let seek = put(control::goal_duty(), plan.seek(l.sweep));
    let stop = put(control::goal_duty(), 0);
    let rung = put(control::goal_duty(), plan.duty(l.sweep));
    match l.phase {
        Phase::ModeWrite => seq![],
        Phase::TorqueOn => seq![put(control::mode(), 0)],
        Phase::SeekSet | Phase::FinishTorque => before,
        Phase::SeekRead | Phase::SeekEval | Phase::SeekOff => before.push(seek),
        Phase::SeekRest | Phase::RungSet => before.push(seek).push(stop),
        Phase::RungRead | Phase::RungEval | Phase::RungOff => before.push(seek).push(stop).push(rung),
        Phase::RungRest => plan.written_through((l.sweep + 1) as nat),
        Phase::Finished => before.push(put(control::torque_enable(), 0)),
    }
}

proof fn lemma_ladder_step(l: LadderView, plan: LadderPlan, obs: Option<TelemetrySnapshot>)
    requires
        plan.valid(),
        l.consistent(plan),
        l.phase == Phase::ModeWrite || l.phase == Phase::TorqueOn ==> l.sweep == 0,
    ensures
        ({
            let (n, cmd) = l.next(plan, obs);
            &&& n.consistent(plan)
            &&& n.phase == Phase::ModeWrite || n.phase == Phase::TorqueOn ==> n.sweep == 0
            &&& ladder_written(n, plan) == (if cmd is Write {
                ladder_written(l, plan).push(cmd)
            } else {
                ladder_written(l, plan)
            })
        }),
{
    if l.phase == Phase::TorqueOn {
        assert(ladder_written(l, plan).push(put(control::torque_enable(), 1))
            =~= plan.written_through(0));
    }
    if l.phase == Phase::ModeWrite {
        assert(ladder_written(l, plan).push(put(control::mode(), 0)) =~= seq![
            put(control::mode(), 0),
        ]);
    }
}

proof fn lemma_ladder_run(l: LadderView, plan: LadderPlan, obs: Seq<Option<TelemetrySnapshot>>)
    requires
        plan.valid(),
        l.consistent(plan),
        l.phase == Phase::ModeWrite,
        l.sweep == 0,
    ensures
        ({
            let (end, writes) = run(plan.stepper(), l, obs);
            &&& end.consistent(plan)
            &&& end.phase == Phase::ModeWrite || end.phase == Phase::TorqueOn ==> end.sweep == 0
            &&& writes == ladder_written(end, plan)
        }),
    decreases obs.len(),
{
    if obs.len() > 0 {
        lemma_ladder_run(l, plan, obs.drop_last());
        let mid = run(plan.stepper(), l, obs.drop_last()).0;
        lemma_ladder_step(mid, plan, obs.last());
        assert((plan.stepper())(mid, obs.last()) == mid.next(plan, obs.last()));
    }
}

proof fn lemma_ladder_prefix(plan: LadderPlan, m: nat, n: nat)
    requires
        m <= n,
    ensures
        plan.written_through(m).is_prefix_of(plan.written_through(n)),
    decreases n,
{
    if m < n {
        lemma_ladder_prefix(plan, m, (n - 1) as nat);
        let a = plan.written_through((n - 1) as nat);
        assert(a =~= plan.written_through(n).subrange(0, a.len() as int));
        lemma_prefix_trans(plan.written_through(m), a, plan.written_through(n));
    }
}

/// A ladder keeps to its script, whatever it observes: what it has written is
/// always a prefix of the script, and the whole of it once it is done, when the
/// sweeps on file are the rungs in order, each forward and then back. Done is
/// answered exactly from there on, and the step that leads there takes torque
/// off.
pub proof fn law_ladder_run(l: LadderView, plan: LadderPlan, obs: Seq<Option<TelemetrySnapshot>>)
    requires
        plan.valid(),
        l.consistent(plan),
        l.phase == Phase::ModeWrite,
        l.sweep == 0,
    ensures
        ({
            let (end, writes) = run(plan.stepper(), l, obs);
            &&& writes.is_prefix_of(plan.script())
            &&& end.phase == Phase::Finished ==> {
                &&& writes == plan.script()
                &&& end.captures.len() == plan.sweeps()
                &&& forall|k: int|
                    0 <= k < plan.sweeps() ==> (#[trigger] end.captures[k]).duty == plan.duty(k)
            }
            &&& forall|o: Option<TelemetrySnapshot>|
                (#[trigger] end.next(plan, o)).1 == Cmd::Done <==> end.phase == Phase::Finished
        }),
        forall|at: LadderView, o: Option<TelemetrySnapshot>|
            at.phase != Phase::Finished && (#[trigger] at.next(plan, o)).0.phase == Phase::Finished
                ==> at.next(plan, o).1 == put(control::torque_enable(), 0),
{
    lemma_ladder_run(l, plan, obs);
    let (end, writes) = run(plan.stepper(), l, obs);
    let n = plan.sweeps() as nat;
    let at = if end.phase == Phase::FinishTorque || end.phase == Phase::Finished {
        n
    } else {
        (end.sweep + 1) as nat
    };
    lemma_ladder_prefix(plan, 0, at);
    lemma_ladder_prefix(plan, at, n);
    assert(plan.written_through(n) =~= plan.script().subrange(
        0,
        plan.written_through(n).len() as int,
    ));
    lemma_prefix_trans(plan.written_through(at), plan.written_through(n), plan.script());
    if end.phase == Phase::Finished {
        assert(writes =~= plan.script().subrange(0, writes.len() as int));
    } else {
        let w = plan.written_through(at);
        if end.phase == Phase::ModeWrite || end.phase == Phase::TorqueOn {
            lemma_prefix_trans(plan.written_through(0), w, plan.script());
            assert(writes =~= plan.written_through(0).subrange(0, writes.len() as int));
            lemma_prefix_trans(writes, plan.written_through(0), plan.script());
        } else {
            assert(writes =~= w.subrange(0, writes.len() as int));
            lemma_prefix_trans(writes, w, plan.script());
        }
    }
}

/// What a ladder writes for one rung: seek down, stop, drive up, stop, seek up,
/// stop, drive down, stop.
pub proof fn law_ladder_rung_writes(plan: LadderPlan, k: int)
    requires
        0 <= k < plan.rungs.len(),
    ensures
        plan.written_through((2 * k + 2) as nat) == plan.written_through((2 * k) as nat) + seq![
            put(control::goal_duty(), -plan.seek_duty),
            put(control::goal_duty(), 0),
            put(control::goal_duty(), plan.rungs[k] as int),
            put(control::goal_duty(), 0),
            put(control::goal_duty(), plan.seek_duty),
            put(control::goal_duty(), 0),
            put(control::goal_duty(), -plan.rungs[k]),
            put(control::goal_duty(), 0),
        ],
{
    reveal_with_fuel(LadderPlan::written_through, 3);
    assert((2 * k + 1) / 2 == k);
    assert(plan.written_through((2 * k + 2) as nat) =~= plan.written_through((2 * k) as nat)
        + seq![
        put(control::goal_duty(), -plan.seek_duty),
        put(control::goal_duty(), 0),
        put(control::goal_duty(), plan.rungs[k] as int),
        put(control::goal_duty(), 0),
        put(control::goal_duty(), plan.seek_duty),
        put(control::goal_duty(), 0),
        put(control::goal_duty(), -plan.rungs[k]),
        put(control::goal_duty(), 0),
    ]);
}

/// Every write of a ladder run is safe where it comes, from a parked rig on: the
/// mode changes with torque off and nothing commanded, drive needs torque, and
/// torque goes with the drive at zero. A finished run leaves torque off and
/// nothing commanded.
pub proof fn law_ladder_run_is_safe(
    l: LadderView,
    plan: LadderPlan,
    obs: Seq<Option<TelemetrySnapshot>>,
)
    requires
        plan.valid(),
        -0x8000 <= plan.seek_duty < 0x8000,
        l.consistent(plan),
        l.phase == Phase::ModeWrite,
        l.sweep == 0,
    ensures
        ({
            let (end, writes) = run(plan.stepper(), l, obs);
            let rig = Rig::parked().after_all(writes);
            &&& Rig::parked().permits_all(writes)
            &&& end.posture(plan, rig)
            &&& end.phase == Phase::Finished ==> rig.torque == 0 && rig.idle()
        }),
    decreases obs.len(),
{
    if obs.len() > 0 {
        law_ladder_run_is_safe(l, plan, obs.drop_last());
        lemma_ladder_run(l, plan, obs.drop_last());
        let (mid, writes) = run(plan.stepper(), l, obs.drop_last());
        let (end, cmd) = mid.next(plan, obs.last());
        let rig = Rig::parked().after_all(writes);
        law_ladder_choreography(mid, plan, rig, obs.last());
        assert((plan.stepper())(mid, obs.last()) == mid.next(plan, obs.last()));
        if cmd is Write {
            lemma_rig_push(Rig::parked(), writes, cmd);
        }
    }
}

impl CurrentPlan {
    /// The machine of this plan.
    pub open spec fn stepper(self) -> spec_fn(CurrentView, Option<TelemetrySnapshot>) -> (
        CurrentView,
        Cmd,
    ) {
        |c: CurrentView, o: Option<TelemetrySnapshot>| c.next(self, o)
    }

    /// The writes that open one direction: seek the end in open loop, then
    /// switch to current mode with torque off.
    pub open spec fn opening(self, reverse: bool) -> Seq<Cmd> {
        seq![
            put(control::mode(), 0),
            put(control::torque_enable(), 1),
            put(control::goal_duty(), self.signed(reverse, self.seek_duty)),
            put(control::goal_duty(), 0),
            put(control::torque_enable(), 0),
            put(control::mode(), 1),
            put(control::torque_enable(), 1),
        ]
    }

    /// One direction through its first `n` steps, each followed by a zero.
    pub open spec fn direction(self, reverse: bool, n: nat) -> Seq<Cmd>
        decreases n,
    {
        if n == 0 {
            self.opening(reverse)
        } else {
            self.direction(reverse, (n - 1) as nat).push(
                put(control::goal_current(), self.goal(reverse, n - 1)),
            ).push(put(control::goal_current(), 0))
        }
    }

    /// What a direction follows on: the second follows the first, torque off.
    pub open spec fn before(self, reverse: bool) -> Seq<Cmd> {
        if reverse {
            self.direction(false, self.steps.len()).push(put(control::torque_enable(), 0))
        } else {
            seq![]
        }
    }

    /// The writes of a whole run: both directions, then a last zero and torque
    /// off.
    pub open spec fn script(self) -> Seq<Cmd> {
        (self.before(true) + self.direction(true, self.steps.len())).push(
            put(control::goal_current(), 0),
        ).push(put(control::torque_enable(), 0))
    }
}

/// The writes of a current run in this state, from its direction's opening on.
spec fn current_part(c: CurrentView, plan: CurrentPlan) -> Seq<Cmd> {
    let open = plan.opening(c.reverse);
    let n = plan.steps.len();
    let zero = put(control::goal_current(), 0);
    match c.phase {
        CPhase::ModeOpen | CPhase::DirModeOpen | CPhase::DirTorqueOff => seq![],
        CPhase::TorqueOn => open.take(1),
        CPhase::SeekSet => open.take(2),
        CPhase::SeekRead | CPhase::SeekEval | CPhase::SeekOff => open.take(3),
        CPhase::SwitchTorqueOff => open.take(4),
        CPhase::SwitchMode => open.take(5),
        CPhase::SwitchTorqueOn => open.take(6),
        CPhase::StepSet => plan.direction(c.reverse, c.step_idx as nat),
        CPhase::StepRead | CPhase::StepEval | CPhase::StepOff => plan.direction(
            c.reverse,
            c.step_idx as nat,
        ).push(put(control::goal_current(), plan.goal(c.reverse, c.step_idx))),
        CPhase::StepRest => plan.direction(c.reverse, (c.step_idx + 1) as nat),
        CPhase::FinishGoal => plan.direction(true, n),
        CPhase::FinishTorque => plan.direction(true, n).push(zero),
        CPhase::Finished => plan.direction(true, n).push(zero).push(
            put(control::torque_enable(), 0),
        ),
    }
}

/// The writes behind a current run in this state.
spec fn current_written(c: CurrentView, plan: CurrentPlan) -> Seq<Cmd> {
    if c.phase == CPhase::DirTorqueOff {
        plan.direction(false, plan.steps.len())
    } else {
        plan.before(c.reverse) + current_part(c, plan)
    }
}

proof fn lemma_current_step(c: CurrentView, plan: CurrentPlan, obs: Option<TelemetrySnapshot>)
    requires
        plan.valid(),
        c.consistent(plan),
    ensures
        ({
            let (n, cmd) = c.next(plan, obs);
            &&& n.consistent(plan)
            &&& current_written(n, plan) == (if cmd is Write {
                current_written(c, plan).push(cmd)
            } else {
                current_written(c, plan)
            })
        }),
{
    let (n, cmd) = c.next(plan, obs);
    assert(n.consistent(plan));
    let pre = plan.before(c.reverse);
    let part = current_part(c, plan);
    if cmd is Write {
        if c.phase == CPhase::DirTorqueOff {
            assert(pre + Seq::<Cmd>::empty() =~= pre);
        } else if c.phase == CPhase::DirModeOpen || c.phase == CPhase::ModeOpen {
            assert(part.push(cmd) =~= plan.opening(c.reverse).take(1));
            assert((pre + part).push(cmd) =~= pre + part.push(cmd));
        } else {
            assert(part.push(cmd) =~= current_part(n, plan));
            assert((pre + part).push(cmd) =~= pre + part.push(cmd));
        }
    } else if n.phase == CPhase::DirTorqueOff {
        assert(pre + part =~= part);
    }
}

proof fn lemma_current_run(c: CurrentView, plan: CurrentPlan, obs: Seq<Option<TelemetrySnapshot>>)
    requires
        plan.valid(),
        c.consistent(plan),
        c.phase == CPhase::ModeOpen,
    ensures
        ({
            let (end, writes) = run(plan.stepper(), c, obs);
            &&& end.consistent(plan)
            &&& writes == current_written(end, plan)
        }),
    decreases obs.len(),
{
    if obs.len() > 0 {
        lemma_current_run(c, plan, obs.drop_last());
        let mid = run(plan.stepper(), c, obs.drop_last()).0;
        lemma_current_step(mid, plan, obs.last());
        assert((plan.stepper())(mid, obs.last()) == mid.next(plan, obs.last()));
    } else {
        assert(current_written(c, plan) =~= seq![]);
    }
}

proof fn lemma_direction_prefix(plan: CurrentPlan, reverse: bool, m: nat, n: nat)
    requires
        m <= n,
    ensures
        plan.direction(reverse, m).is_prefix_of(plan.direction(reverse, n)),
    decreases n,
{
    if m < n {
        lemma_direction_prefix(plan, reverse, m, (n - 1) as nat);
        let a = plan.direction(reverse, (n - 1) as nat);
        assert(a =~= plan.direction(reverse, n).subrange(0, a.len() as int));
        lemma_prefix_trans(plan.direction(reverse, m), a, plan.direction(reverse, n));
    }
}

/// A prefix of a direction's writes, behind what came before it, is a prefix of
/// the script.
proof fn lemma_part_prefix(plan: CurrentPlan, reverse: bool, part: Seq<Cmd>)
    requires
        part.is_prefix_of(plan.direction(reverse, plan.steps.len())),
    ensures
        (plan.before(reverse) + part).is_prefix_of(plan.script()),
{
    let n = plan.steps.len();
    let d = plan.direction(reverse, n);
    let all = plan.before(reverse) + part;
    assert forall|i: int| 0 <= i < all.len() implies all[i] == plan.script()[i] by {
        let j = i - plan.before(reverse).len();
        if j >= 0 {
            assert(part[j] == d.subrange(0, part.len() as int)[j]);
        }
    }
    assert(all =~= plan.script().subrange(0, all.len() as int));
}

/// A current run keeps to its script, whatever it observes: what it has written
/// is always a prefix of the script, and the whole of it once it is done, when
/// the steps on file are those of the plan in order, in each direction. Done is
/// answered exactly from there on, and the step that leads there takes torque
/// off.
pub proof fn law_current_run(c: CurrentView, plan: CurrentPlan, obs: Seq<Option<TelemetrySnapshot>>)
    requires
        plan.valid(),
        c.consistent(plan),
        c.phase == CPhase::ModeOpen,
    ensures
        ({
            let (end, writes) = run(plan.stepper(), c, obs);
            let n = plan.steps.len() as int;
            &&& writes.is_prefix_of(plan.script())
            &&& end.phase == CPhase::Finished ==> {
                &&& writes == plan.script()
                &&& end.captures.len() == 2 * n
                &&& forall|k: int|
                    0 <= k < 2 * n ==> (#[trigger] end.captures[k]).goal == wrap16(
                        if k < n {
                            plan.goal(false, k)
                        } else {
                            plan.goal(true, k - n)
                        },
                    )
            }
            &&& forall|o: Option<TelemetrySnapshot>|
                (#[trigger] end.next(plan, o)).1 == Cmd::Done <==> end.phase == CPhase::Finished
        }),
        forall|at: CurrentView, o: Option<TelemetrySnapshot>|
            at.phase != CPhase::Finished && (#[trigger] at.next(plan, o)).0.phase == CPhase::Finished
                ==> at.next(plan, o).1 == put(control::torque_enable(), 0),
{
    lemma_current_run(c, plan, obs);
    let (end, writes) = run(plan.stepper(), c, obs);
    let n = plan.steps.len();
    let part = current_part(end, plan);
    let d = plan.direction(end.reverse, n);
    match end.phase {
        CPhase::FinishTorque => {
            assert(writes =~= plan.script().subrange(0, writes.len() as int));
        },
        CPhase::Finished => {
            assert(writes =~= plan.script());
            assert(writes =~= plan.script().subrange(0, writes.len() as int));
        },
        CPhase::DirTorqueOff => {
            let forward = plan.direction(false, n);
            assert(forward =~= forward.subrange(0, forward.len() as int));
            lemma_part_prefix(plan, false, forward);
            assert(plan.before(false) + forward =~= forward);
        },
        CPhase::FinishGoal => {
            assert(part =~= d.subrange(0, part.len() as int));
            lemma_part_prefix(plan, true, part);
        },
        CPhase::StepSet | CPhase::StepRead | CPhase::StepEval | CPhase::StepOff | CPhase::StepRest => {
            let step = plan.direction(end.reverse, (end.step_idx + 1) as nat);
            lemma_direction_prefix(plan, end.reverse, (end.step_idx + 1) as nat, n);
            assert(part =~= step.subrange(0, part.len() as int));
            lemma_prefix_trans(part, step, d);
            lemma_part_prefix(plan, end.reverse, part);
        },
        _ => {
            let open = plan.opening(end.reverse);
            lemma_direction_prefix(plan, end.reverse, 0, n);
            assert(part =~= open.subrange(0, part.len() as int));
            lemma_prefix_trans(part, open, d);
            lemma_part_prefix(plan, end.reverse, part);
        },
    }
}

/// Every write of a current run is safe where it comes, from a parked rig on: the
/// mode changes with torque off and nothing commanded, drive needs torque, and
/// torque goes with the drive at zero. A finished run leaves torque off and
/// nothing commanded.
pub proof fn law_current_run_is_safe(
    c: CurrentView,
    plan: CurrentPlan,
    obs: Seq<Option<TelemetrySnapshot>>,
)
    requires
        plan.valid(),
        -0x8000 <= plan.seek_duty < 0x8000,
        c.consistent(plan),
        c.phase == CPhase::ModeOpen,
    ensures
        ({
            let (end, writes) = run(plan.stepper(), c, obs);
            let rig = Rig::parked().after_all(writes);
            &&& Rig::parked().permits_all(writes)
            &&& end.posture(plan, rig)
            &&& end.phase == CPhase::Finished ==> rig.torque == 0 && rig.idle()
        }),
    decreases obs.len(),
{
    if obs.len() > 0 {
        law_current_run_is_safe(c, plan, obs.drop_last());
        lemma_current_run(c, plan, obs.drop_last());
        let (mid, writes) = run(plan.stepper(), c, obs.drop_last());
        let (end, cmd) = mid.next(plan, obs.last());
        let rig = Rig::parked().after_all(writes);
        law_current_choreography(mid, plan, rig, obs.last());
        assert((plan.stepper())(mid, obs.last()) == mid.next(plan, obs.last()));
        if cmd is Write {
            lemma_rig_push(Rig::parked(), writes, cmd);
        }
    }
}

impl VelocityPlan {
    /// The machine of this plan.
    pub open spec fn stepper(self) -> spec_fn(VelocityView, Option<TelemetrySnapshot>) -> (
        VelocityView,
        Cmd,
    ) {
        |v: VelocityView, o: Option<TelemetrySnapshot>| v.next(self, o)
    }

    /// The writes that open a run: park low in open loop, then switch to
    /// velocity mode with torque off.
    pub open spec fn opening(self) -> Seq<Cmd> {
        seq![
            put(control::mode(), 0),
            put(control::torque_enable(), 1),
            put(control::goal_duty(), -self.seek_duty),
            put(control::goal_duty(), 0),
            put(control::torque_enable(), 0),
            put(control::mode(), 2),
            put(control::torque_enable(), 1),
        ]
    }

    /// The writes of a run through its first `n` legs, each followed by a zero.
    pub open spec fn written_through(self, n: nat) -> Seq<Cmd>
        decreases n,
    {
        if n == 0 {
            self.opening()
        } else {
            self.written_through((n - 1) as nat).push(
                put(control::goal_velocity(), self.goal(n - 1)),
            ).push(put(control::goal_velocity(), 0))
        }
    }

    /// The writes of a whole run: every leg, then a last zero and torque off.
    pub open spec fn script(self) -> Seq<Cmd> {
        self.written_through(self.total() as nat).push(put(control::goal_velocity(), 0)).push(
            put(control::torque_enable(), 0),
        )
    }
}

/// The writes behind a velocity run in this state.
spec fn velocity_written(v: VelocityView, plan: VelocityPlan) -> Seq<Cmd> {
    let open = plan.opening();
    let before = plan.written_through(v.leg_idx as nat);
    let zero = put(control::goal_velocity(), 0);
    match v.phase {
        VPhase::ModeOpen => open.take(0),
        VPhase::TorqueOn => open.take(1),
        VPhase::SeekSet => open.take(2),
        VPhase::SeekRead | VPhase::SeekEval | VPhase::SeekOff => open.take(3),
        VPhase::SwitchTorqueOff => open.take(4),
        VPhase::SwitchMode => open.take(5),
        VPhase::SwitchTorqueOn => open.take(6),
        VPhase::LegSet | VPhase::FinishGoal => before,
        VPhase::LegRead | VPhase::LegEval | VPhase::LegOff => before.push(
            put(control::goal_velocity(), plan.goal(v.leg_idx)),
        ),
        VPhase::LegRest => plan.written_through((v.leg_idx + 1) as nat),
        VPhase::FinishTorque => before.push(zero),
        VPhase::Finished => before.push(zero).push(put(control::torque_enable(), 0)),
    }
}

/// The parking seek is not over: no leg has run.
spec fn parking(v: VelocityView) -> bool {
    match v.phase {
        VPhase::ModeOpen
        | VPhase::TorqueOn
        | VPhase::SeekSet
        | VPhase::SeekRead
        | VPhase::SeekEval
        | VPhase::SeekOff
        | VPhase::SwitchTorqueOff
        | VPhase::SwitchMode
        | VPhase::SwitchTorqueOn => true,
        _ => false,
    }
}

proof fn lemma_velocity_step(v: VelocityView, plan: VelocityPlan, obs: Option<TelemetrySnapshot>)
    requires
        plan.valid(),
        v.consistent(plan),
        parking(v) ==> v.leg_idx == 0,
    ensures
        ({
            let (n, cmd) = v.next(plan, obs);
            &&& n.consistent(plan)
            &&& parking(n) ==> n.leg_idx == 0
            &&& velocity_written(n, plan) == (if cmd is Write {
                velocity_written(v, plan).push(cmd)
            } else {
                velocity_written(v, plan)
            })
        }),
{
    let (n, cmd) = v.next(plan, obs);
    assert(n.consistent(plan));
    if parking(v) && cmd is Write {
        assert(velocity_written(n, plan) =~= velocity_written(v, plan).push(cmd));
    }
}

proof fn lemma_velocity_run(v: VelocityView, plan: VelocityPlan, obs: Seq<Option<TelemetrySnapshot>>)
    requires
        plan.valid(),
        v.consistent(plan),
        v.phase == VPhase::ModeOpen,
        v.leg_idx == 0,
    ensures
        ({
            let (end, writes) = run(plan.stepper(), v, obs);
            &&& end.consistent(plan)
            &&& parking(end) ==> end.leg_idx == 0
            &&& writes == velocity_written(end, plan)
        }),
    decreases obs.len(),
{
    if obs.len() > 0 {
        lemma_velocity_run(v, plan, obs.drop_last());
        let mid = run(plan.stepper(), v, obs.drop_last()).0;
        lemma_velocity_step(mid, plan, obs.last());
        assert((plan.stepper())(mid, obs.last()) == mid.next(plan, obs.last()));
    } else {
        assert(velocity_written(v, plan) =~= seq![]);
    }
}

proof fn lemma_legs_prefix(plan: VelocityPlan, m: nat, n: nat)
    requires
        m <= n,
    ensures
        plan.written_through(m).is_prefix_of(plan.written_through(n)),
    decreases n,
{
    if m < n {
        lemma_legs_prefix(plan, m, (n - 1) as nat);
        let a = plan.written_through((n - 1) as nat);
        assert(a =~= plan.written_through(n).subrange(0, a.len() as int));
        lemma_prefix_trans(plan.written_through(m), a, plan.written_through(n));
    }
}

/// A velocity run keeps to its script, whatever it observes: what it has written
/// is always a prefix of the script, and the whole of it once it is done, when
/// the legs on file are those of the plan in order, each speed out and back.
/// Done is answered exactly from there on, and the step that leads there takes
/// torque off.
pub proof fn law_velocity_run(v: VelocityView, plan: VelocityPlan, obs: Seq<Option<TelemetrySnapshot>>)
    requires
        plan.valid(),
        v.consistent(plan),
        v.phase == VPhase::ModeOpen,
        v.leg_idx == 0,
    ensures
        ({
            let (end, writes) = run(plan.stepper(), v, obs);
            &&& writes.is_prefix_of(plan.script())
            &&& end.phase == VPhase::Finished ==> {
                &&& writes == plan.script()
                &&& end.captures.len() == plan.total()
                &&& forall|k: int|
                    0 <= k < plan.total() ==> (#[trigger] end.captures[k]).goal == plan.goal(k)
            }
            &&& forall|o: Option<TelemetrySnapshot>|
                (#[trigger] end.next(plan, o)).1 == Cmd::Done <==> end.phase == VPhase::Finished
        }),
        forall|at: VelocityView, o: Option<TelemetrySnapshot>|
            at.phase != VPhase::Finished && (#[trigger] at.next(plan, o)).0.phase == VPhase::Finished
                ==> at.next(plan, o).1 == put(control::torque_enable(), 0),
{
    lemma_velocity_run(v, plan, obs);
    let (end, writes) = run(plan.stepper(), v, obs);
    let n = plan.total() as nat;
    if end.finishing() {
        assert(writes =~= plan.script().subrange(0, writes.len() as int));
    } else {
        let at = if parking(end) {
            0
        } else {
            (end.leg_idx + 1) as nat
        };
        let w = plan.written_through(at);
        lemma_legs_prefix(plan, at, n);
        assert(plan.written_through(n) =~= plan.script().subrange(
            0,
            plan.written_through(n).len() as int,
        ));
        lemma_prefix_trans(w, plan.written_through(n), plan.script());
        assert(writes =~= w.subrange(0, writes.len() as int));
        lemma_prefix_trans(writes, w, plan.script());
    }
}

/// What a velocity run writes for one speed: out, stop, back, stop.
pub proof fn law_velocity_leg_writes(plan: VelocityPlan, k: int)
    requires
        0 <= k < plan.legs.len(),
    ensures
        plan.written_through((2 * k + 2) as nat) == plan.written_through((2 * k) as nat) + seq![
            put(control::goal_velocity(), plan.legs[k] as int),
            put(control::goal_velocity(), 0),
            put(control::goal_velocity(), -plan.legs[k]),
            put(control::goal_velocity(), 0),
        ],
{
    reveal_with_fuel(VelocityPlan::written_through, 3);
    assert((2 * k + 1) / 2 == k);
    assert(plan.written_through((2 * k + 2) as nat) =~= plan.written_through((2 * k) as nat)
        + seq![
        put(control::goal_velocity(), plan.legs[k] as int),
        put(control::goal_velocity(), 0),
        put(control::goal_velocity(), -plan.legs[k]),
        put(control::goal_velocity(), 0),
    ]);
}

/// Every write of a velocity run is safe where it comes, from a parked rig on: the
/// mode changes with torque off and nothing commanded, drive needs torque, and
/// torque goes with the drive at zero. A finished run leaves torque off and
/// nothing commanded.
pub proof fn law_velocity_run_is_safe(
    v: VelocityView,
    plan: VelocityPlan,
    obs: Seq<Option<TelemetrySnapshot>>,
)
    requires
        plan.valid(),
        -0x8000 <= plan.seek_duty < 0x8000,
        v.consistent(plan),
        v.phase == VPhase::ModeOpen,
        v.leg_idx == 0,
    ensures
        ({
            let (end, writes) = run(plan.stepper(), v, obs);
            let rig = Rig::parked().after_all(writes);
            &&& Rig::parked().permits_all(writes)
            &&& end.posture(plan, rig)
            &&& end.phase == VPhase::Finished ==> rig.torque == 0 && rig.idle()
        }),
    decreases obs.len(),
{
    if obs.len() > 0 {
        law_velocity_run_is_safe(v, plan, obs.drop_last());
        lemma_velocity_run(v, plan, obs.drop_last());
        let (mid, writes) = run(plan.stepper(), v, obs.drop_last());
        let (end, cmd) = mid.next(plan, obs.last());
        let rig = Rig::parked().after_all(writes);
        law_velocity_choreography(mid, plan, rig, obs.last());
        assert((plan.stepper())(mid, obs.last()) == mid.next(plan, obs.last()));
        if cmd is Write {
            lemma_rig_push(Rig::parked(), writes, cmd);
        }
    }
}

} // verus!
