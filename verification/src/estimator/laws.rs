//! What the observer is for, stated on whole steps: how a step answers to the
//! current, to friction, to the disturbance, to the pot and to the back-EMF.
//! Every bound is written out in counts.

use super::fusion::{fused, predicted, within, FusionGains, Fused};
use crate::math::{count_q16, lemma_q_scales};
use vstd::prelude::*;

verus! {

/// The states lie inside their guards: 8192 counts, 32767 c/s, 4095 counts of
/// current, each in Q16.
pub open spec fn bounded(s: Fused) -> bool {
    &&& -536_870_912 <= s.theta <= 536_870_912
    &&& -2_147_418_112 <= s.omega <= 2_147_418_112
    &&& -268_369_920 <= s.tau_d <= 268_369_920
}

/// The same motor with every correction off: what is left of a step is the
/// model alone.
pub open spec fn model_only(g: FusionGains) -> FusionGains {
    FusionGains { l1_q016: 0, l2_q88: 0, l3_q88: 0, l_bemf_q016: 0, ..g }
}

proof fn lemma_model(s: Fused, i: int, pos: u16, bemf: Option<i32>, dt: int, g: FusionGains)
    requires
        bounded(s),
    ensures
        fused(s, i, pos, bemf, dt, model_only(g)) == predicted(s, i, dt, g),
{
    lemma_q_scales();
    let e = within(count_q16(pos) - predicted(s, i, dt, g).theta, 8_388_608);
    assert(0 * e == 0);
}

/// The model: current that neither friction nor the disturbance absorbs
/// accelerates the shaft, by eight times the motor constant per count, and the
/// new velocity carries it for one tick. Friction takes its share against the
/// motion, and none within one c/s of rest. The drive counts up to 8192 either
/// way, the states stop at their guards, and the disturbance stays.
pub proof fn law_model_step(s: Fused, i: int, pos: u16, bemf: Option<i32>, dt: int, g: FusionGains)
    requires
        bounded(s),
    ensures
        ({
            let p = fused(s, i, pos, bemf, dt, model_only(g));
            let fc = g.fric_fc_counts as int;
            let net = (if s.omega > 65_536 {
                i - fc
            } else if s.omega < -65_536 {
                i + fc
            } else {
                i
            }) - s.tau_d / 65_536;
            let gained = 8 * (g.b_i_q313 * net);
            let to = s.theta + (p.omega * dt) / 0x1_0000_0000;
            &&& p.tau_d == s.tau_d
            &&& -8_192 <= net <= 8_192 && -0x8000_0000 <= gained < 0x8000_0000 && -2_147_418_112
                <= s.omega + gained <= 2_147_418_112 ==> p.omega == s.omega + gained
            &&& -8_192 <= net <= 8_192 && 0 <= gained < 0x8000_0000 && s.omega + gained > 2_147_418_112
                ==> p.omega == 2_147_418_112
            &&& -8_192 <= net <= 8_192 && -0x8000_0000 <= gained <= 0 && s.omega + gained
                < -2_147_418_112 ==> p.omega == -2_147_418_112
            &&& -536_870_912 <= to <= 536_870_912 ==> p.theta == to
            &&& to > 536_870_912 ==> p.theta == 536_870_912
            &&& to < -536_870_912 ==> p.theta == -536_870_912
        }),
{
    lemma_model(s, i, pos, bemf, dt, g);
    lemma_q_scales();
}

/// Past 8192 counts of drive a step answers as at 8192.
pub proof fn law_drive_is_limited(
    s: Fused,
    i: int,
    j: int,
    pos: u16,
    bemf: Option<i32>,
    dt: int,
    g: FusionGains,
)
    requires
        bounded(s),
        -65_536 <= s.omega <= 65_536,
        s.tau_d == 0,
    ensures
        i >= 8_192 && j >= 8_192 || i <= -8_192 && j <= -8_192 ==> fused(s, i, pos, bemf, dt, g)
            == fused(s, j, pos, bemf, dt, g),
{
}

proof fn lemma_push_ordered(b: int, x: int, y: int)
    requires
        0 <= b,
        x <= y,
    ensures
        8 * (b * x) <= 8 * (b * y),
{
    assert(b * x <= b * y) by (nonlinear_arith)
        requires
            0 <= b,
            x <= y,
    ;
}

/// Friction opposes motion: the larger the Coulomb term, the less a moving
/// shaft is predicted to gain in its direction; at rest it plays no part.
pub proof fn law_friction_opposes_motion(
    s: Fused,
    i: int,
    pos: u16,
    bemf: Option<i32>,
    dt: int,
    g: FusionGains,
    h: FusionGains,
)
    requires
        bounded(s),
        h == (FusionGains { fric_fc_counts: h.fric_fc_counts, ..g }),
        g.fric_fc_counts <= h.fric_fc_counts,
    ensures
        s.omega > 65_536 ==> fused(s, i, pos, bemf, dt, model_only(h)).omega <= fused(
            s,
            i,
            pos,
            bemf,
            dt,
            model_only(g),
        ).omega,
        s.omega < -65_536 ==> fused(s, i, pos, bemf, dt, model_only(h)).omega >= fused(
            s,
            i,
            pos,
            bemf,
            dt,
            model_only(g),
        ).omega,
        -65_536 <= s.omega <= 65_536 ==> fused(s, i, pos, bemf, dt, h) == fused(
            s,
            i,
            pos,
            bemf,
            dt,
            g,
        ),
{
    lemma_model(s, i, pos, bemf, dt, g);
    lemma_model(s, i, pos, bemf, dt, h);
    let t = s.tau_d / 65_536;
    let b = g.b_i_q313 as int;
    let (fg, fh) = (g.fric_fc_counts as int, h.fric_fc_counts as int);
    lemma_push_ordered(b, within(i - fh - t, 8_192), within(i - fg - t, 8_192));
    lemma_push_ordered(b, within(i + fg - t, 8_192), within(i + fh - t, 8_192));
}

/// A moving shaft on exactly its friction current, undisturbed, keeps its
/// speed; so does one on its friction current and what the disturbance takes.
pub proof fn law_friction_balances(
    s: Fused,
    i: int,
    pos: u16,
    bemf: Option<i32>,
    dt: int,
    g: FusionGains,
)
    requires
        bounded(s),
        s.omega > 65_536 && i == g.fric_fc_counts + s.tau_d / 65_536 || s.omega < -65_536 && i
            == s.tau_d / 65_536 - g.fric_fc_counts,
    ensures
        fused(s, i, pos, bemf, dt, model_only(g)).omega == s.omega,
{
    lemma_model(s, i, pos, bemf, dt, g);
    assert(g.b_i_q313 * 0 == 0);
}

/// More current never predicts less velocity or less travel, and more
/// disturbance never predicts more.
pub proof fn law_current_drives(
    s: Fused,
    more: Fused,
    i: int,
    j: int,
    pos: u16,
    bemf: Option<i32>,
    dt: int,
    g: FusionGains,
)
    requires
        bounded(s),
        bounded(more),
        i <= j,
        0 <= dt,
        more == (Fused { tau_d: more.tau_d, ..s }),
        s.tau_d <= more.tau_d,
    ensures
        ({
            let p = fused(s, i, pos, bemf, dt, model_only(g));
            let q = fused(s, j, pos, bemf, dt, model_only(g));
            let d = fused(more, i, pos, bemf, dt, model_only(g));
            &&& p.omega <= q.omega && p.theta <= q.theta
            &&& d.omega <= p.omega && d.theta <= p.theta
        }),
{
    lemma_model(s, i, pos, bemf, dt, g);
    lemma_model(s, j, pos, bemf, dt, g);
    lemma_model(more, i, pos, bemf, dt, g);
    lemma_q_scales();
    let f = super::fusion::friction(s.omega, g.fric_fc_counts as int);
    let b = g.b_i_q313 as int;
    let (t, u) = (s.tau_d / 65_536, more.tau_d / 65_536);
    lemma_push_ordered(b, within(i - f - t, 8_192), within(j - f - t, 8_192));
    lemma_push_ordered(b, within(i - f - u, 8_192), within(i - f - t, 8_192));
    let p = predicted(s, i, dt, g).omega;
    let q = predicted(s, j, dt, g).omega;
    let d = predicted(more, i, dt, g).omega;
    assert(p * dt <= q * dt && d * dt <= p * dt) by (nonlinear_arith)
        requires
            d <= p <= q,
            0 <= dt,
    ;
    vstd::arithmetic::div_mod::lemma_div_is_ordered(p * dt, q * dt, 0x1_0000_0000);
    vstd::arithmetic::div_mod::lemma_div_is_ordered(d * dt, p * dt, 0x1_0000_0000);
}

/// The correction, against the model alone: the pot's distance from the
/// prediction, up to 128 counts either way, moves the position by its share of
/// 65536, the velocity by its gain over 256, and the disturbance by its gain
/// over 256 the other way. A pot ahead of the model means less disturbance.
pub proof fn law_pot_corrects(s: Fused, i: int, pos: u16, dt: int, g: FusionGains)
    requires
        bounded(s),
        pos < 32_768,
    ensures
        ({
            let p = fused(s, i, pos, None, dt, model_only(g));
            let c = fused(s, i, pos, None, dt, g);
            let off = pos * 65_536 - p.theta;
            let e = if off > 8_388_608 {
                8_388_608
            } else if off < -8_388_608 {
                -8_388_608
            } else {
                off
            };
            let theta = p.theta + (g.l1_q016 * e) / 65_536;
            let omega = p.omega + (g.l2_q88 * e) / 256;
            let tau_d = p.tau_d - (g.l3_q88 * e) / 256;
            &&& -536_870_912 <= theta <= 536_870_912 ==> c.theta == theta
            &&& -2_147_418_112 <= omega <= 2_147_418_112 ==> c.omega == omega
            &&& -268_369_920 <= tau_d <= 268_369_920 ==> c.tau_d == tau_d
            &&& bounded(c)
            &&& off >= 0 ==> c.theta >= p.theta && c.omega >= p.omega && c.tau_d <= p.tau_d
            &&& off <= 0 ==> c.theta <= p.theta && c.omega <= p.omega && c.tau_d >= p.tau_d
            &&& off == 0 ==> c == p
        }),
{
    lemma_model(s, i, pos, None, dt, g);
    lemma_q_scales();
    let p = predicted(s, i, dt, g);
    let e = within(pos * 65_536 - p.theta, 8_388_608);
    let (l1, l2, l3) = (g.l1_q016 as int, g.l2_q88 as int, g.l3_q88 as int);
    assert(l1 * e >= 0 && l2 * e >= 0 && l3 * e >= 0 || e < 0) by (nonlinear_arith)
        requires
            0 <= l1,
            0 <= l2,
            0 <= l3,
    ;
    assert(l1 * e <= 0 && l2 * e <= 0 && l3 * e <= 0 || e > 0) by (nonlinear_arith)
        requires
            0 <= l1,
            0 <= l2,
            0 <= l3,
    ;
}

/// The blend, against the same step without it: the velocity alone moves, by the
/// blend's share of 65536 of its distance to the estimate; a gain of zero leaves
/// it, and it never passes the estimate.
pub proof fn law_bemf_blends(s: Fused, i: int, pos: u16, w: i32, dt: int, g: FusionGains)
    requires
        bounded(s),
        -2_147_418_112 <= w <= 2_147_418_112,
    ensures
        ({
            let c = fused(s, i, pos, None, dt, g);
            let b = fused(s, i, pos, Some(w), dt, g);
            &&& b.theta == c.theta
            &&& b.tau_d == c.tau_d
            &&& -0x8000_0000 <= w - c.omega < 0x8000_0000 ==> b.omega == c.omega + (g.l_bemf_q016 * (w
                - c.omega)) / 65_536
            &&& c.omega <= w ==> c.omega <= b.omega <= w
            &&& c.omega >= w ==> c.omega >= b.omega >= w
        }),
{
    lemma_q_scales();
    let c = fused(s, i, pos, None, dt, g);
    super::fusion::law_blend_pulls_toward(c, w, g);
    let e = w - c.omega;
    let x = g.l_bemf_q016 * e;
    assert(e >= 0 ==> 0 <= x <= 65_535 * e) by (nonlinear_arith)
        requires
            x == g.l_bemf_q016 as int * e,
            0 <= g.l_bemf_q016 <= 65_535,
    ;
    assert(e <= 0 ==> 65_535 * e <= x <= 0) by (nonlinear_arith)
        requires
            x == g.l_bemf_q016 as int * e,
            0 <= g.l_bemf_q016 <= 65_535,
    ;
    assert(0 * e == 0);
}

} // verus!
