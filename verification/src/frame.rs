//! What comes back from the servo: telemetry snapshots off the bus and stream
//! frames off the side channel.

use vstd::prelude::*;

verus! {

/// The telemetry section as one read sees it.
#[derive(Copy, Clone, Debug, PartialEq, Eq, Structural)]
pub struct TelemetrySnapshot {
    pub fault_flags: u8,
    pub fault_code: u8,
    pub mode_active: u8,
    pub theta_hat_q16: i32,
    pub omega_hat_cps: i32,
    pub tau_d_counts: i16,
    pub i_lim_counts: u16,
    pub t_winding_cc: i16,
    pub vbus_counts: u16,
    pub duty_applied_q15: i16,
    pub omega_bemf_cps: i16,
    pub r_hat_q12: u16,
    pub i_hat_counts: i16,
    pub sample_tick: u32,
    pub pos: u16,
    pub current: u16,
    pub current_trough: u16,
    pub current_bias_counts: u16,
    pub i_mean_counts: i16,
    pub i_min_counts: i16,
    pub i_max_counts: i16,
    pub vdiff_mean: i16,
    pub duty_mean_q15: i16,
    pub agg_seq: u16,
}

impl TelemetrySnapshot {
    pub open spec fn zero() -> TelemetrySnapshot {
        TelemetrySnapshot {
            fault_flags: 0,
            fault_code: 0,
            mode_active: 0,
            theta_hat_q16: 0,
            omega_hat_cps: 0,
            tau_d_counts: 0,
            i_lim_counts: 0,
            t_winding_cc: 0,
            vbus_counts: 0,
            duty_applied_q15: 0,
            omega_bemf_cps: 0,
            r_hat_q12: 0,
            i_hat_counts: 0,
            sample_tick: 0,
            pos: 0,
            current: 0,
            current_trough: 0,
            current_bias_counts: 0,
            i_mean_counts: 0,
            i_min_counts: 0,
            i_max_counts: 0,
            vdiff_mean: 0,
            duty_mean_q15: 0,
            agg_seq: 0,
        }
    }
}

impl Default for TelemetrySnapshot {
    fn default() -> (r: Self)
        ensures
            r == TelemetrySnapshot::zero(),
    {
        TelemetrySnapshot {
            fault_flags: 0,
            fault_code: 0,
            mode_active: 0,
            theta_hat_q16: 0,
            omega_hat_cps: 0,
            tau_d_counts: 0,
            i_lim_counts: 0,
            t_winding_cc: 0,
            vbus_counts: 0,
            duty_applied_q15: 0,
            omega_bemf_cps: 0,
            r_hat_q12: 0,
            i_hat_counts: 0,
            sample_tick: 0,
            pos: 0,
            current: 0,
            current_trough: 0,
            current_bias_counts: 0,
            i_mean_counts: 0,
            i_min_counts: 0,
            i_max_counts: 0,
            vdiff_mean: 0,
            duty_mean_q15: 0,
            agg_seq: 0,
        }
    }
}

/// One stream frame; a field the mask left out is absent.
#[derive(Copy, Clone, Debug, PartialEq, Eq, Structural)]
pub struct TelFrame {
    pub seq: u8,
    pub window_valid: bool,
    pub pos: Option<u16>,
    pub current: Option<i16>,
    pub duty_q15: Option<i16>,
    pub vdiff: Option<i16>,
}

impl Default for TelFrame {
    fn default() -> (r: Self)
        ensures
            r == (TelFrame {
                seq: 0,
                window_valid: false,
                pos: None,
                current: None,
                duty_q15: None,
                vdiff: None,
            }),
    {
        TelFrame {
            seq: 0,
            window_valid: false,
            pos: None,
            current: None,
            duty_q15: None,
            vdiff: None,
        }
    }
}

/// Distance from one 16-bit sequence number forward to another.
pub open spec fn seq_ahead(from: u16, to: u16) -> int {
    (to - from) % 0x1_0000
}

/// Unwraps a 16-bit sequence counter: each push adds the forward distance from
/// the number before.
#[derive(Copy, Clone, Debug, PartialEq, Eq, Structural)]
pub struct SeqUnwrap {
    pub last: Option<u16>,
    pub total: u64,
}

impl SeqUnwrap {
    /// The counter after one more number.
    pub open spec fn pushed(self, seq: u16) -> SeqUnwrap {
        SeqUnwrap {
            last: Some(seq),
            total: match self.last {
                None => seq as u64,
                Some(l) => ((self.total + seq_ahead(l, seq)) % 0x1_0000_0000_0000_0000) as u64,
            },
        }
    }

    pub fn new() -> (r: Self)
        ensures
            r == (SeqUnwrap { last: None, total: 0 }),
    {
        SeqUnwrap { last: None, total: 0 }
    }

    pub fn push(&mut self, seq: u16) -> (r: u64)
        ensures
            *final(self) == old(self).pushed(seq),
            r == final(self).total,
    {
        match self.last {
            None => {
                self.total = seq as u64;
            },
            Some(l) => {
                let ahead: u16 = seq.wrapping_sub(l);
                assert(ahead == seq_ahead(l, seq));
                self.total = self.total.wrapping_add(ahead as u64);
            },
        }
        self.last = Some(seq);
        self.total
    }
}

/// A repeated number leaves the unwrapped count where it was, and any other
/// moves it.
pub proof fn law_unwrap_moves_on_change(s: SeqUnwrap, l: u16, seq: u16)
    requires
        s.last == Some(l),
    ensures
        s.pushed(seq).total == s.total <==> seq == l,
{
}

} // verus!
