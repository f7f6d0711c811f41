//! The rows the driver records: one per snapshot read, one per stream frame.

use super::csv::{cells, joined, law_row_round_trip, plain, texts};
use crate::frame::{TelFrame, TelemetrySnapshot};
use crate::text::{digit, digits_value, nibble, nibble_str, number};
use std::borrow::ToOwned;
use vstd::prelude::*;
use vstd::string::{StrSliceExecFns, StringExecFns};

verus! {

/// A number in decimal digits.
pub open spec fn decimal_of(n: int) -> Seq<char>
    decreases n,
{
    if n < 10 {
        seq![nibble(n)]
    } else {
        decimal_of(n / 10).push(nibble(n % 10))
    }
}

/// A number in decimal digits, a minus sign in front of a negative one.
pub open spec fn signed_of(v: int) -> Seq<char> {
    if v < 0 {
        seq!['-'] + decimal_of(-v)
    } else {
        decimal_of(v)
    }
}

fn decimal(n: u64) -> (r: String)
    ensures
        r@ == decimal_of(n as int),
    decreases n,
{
    if n < 10 {
        nibble_str(n as u8).to_owned()
    } else {
        let mut out: String = decimal(n / 10);
        out.append(nibble_str((n % 10) as u8));
        assert(out@ =~= decimal_of(n as int));
        out
    }
}

fn signed(v: i64) -> (r: String)
    requires
        v > i64::MIN,
    ensures
        r@ == signed_of(v as int),
{
    if v < 0 {
        proof {
            reveal_strlit("-");
        }
        let mut out: String = "-".to_owned();
        let digits: String = decimal((-v) as u64);
        out.append(digits.as_str());
        assert(out@ =~= signed_of(v as int));
        out
    } else {
        decimal(v as u64)
    }
}

/// What stands in a cell that may be empty.
pub open spec fn cell_of(v: Option<int>) -> Seq<char> {
    match v {
        Some(x) => signed_of(x),
        None => seq![],
    }
}

fn cell_u16(v: Option<u16>) -> (r: String)
    ensures
        r@ == cell_of(
            match v {
                Some(x) => Some(x as int),
                None => None,
            },
        ),
{
    match v {
        Some(x) => signed(x as i64),
        None => String::new(),
    }
}

fn cell_i16(v: Option<i16>) -> (r: String)
    ensures
        r@ == cell_of(
            match v {
                Some(x) => Some(x as int),
                None => None,
            },
        ),
{
    match v {
        Some(x) => signed(x as i64),
        None => String::new(),
    }
}

/// Write cells as one row.
pub fn join(v: &Vec<String>) -> (r: String)
    ensures
        r@ == joined(texts(v@)),
{
    let ghost all = texts(v@);
    let n: usize = v.len();
    if n == 0 {
        return String::new();
    }
    proof {
        reveal_strlit(",");
    }
    let mut out: String = v[0].clone();
    let mut i: usize = 1;
    assert(all.skip(0) =~= all);
    assert(out@ == all[0]);
    assert(joined(all) =~= out@ + (if n == 1 {
        seq![]
    } else {
        seq![','] + joined(all.skip(1))
    }));
    while i < n
        invariant
            n == v@.len(),
            1 <= i <= n,
            all == texts(v@),
            ","@ == seq![','],
            joined(all) == out@ + (if i == n {
                seq![]
            } else {
                seq![','] + joined(all.skip(i as int))
            }),
        decreases n - i,
    {
        let ghost before = out@;
        let ghost rest = all.skip(i as int);
        out.append(",");
        out.append(v[i].as_str());
        assert(rest[0] == v@[i as int]@);
        assert(rest.skip(1) =~= all.skip(i + 1));
        assert(out@ =~= before + seq![','] + rest[0]);
        if i + 1 < n {
            assert(joined(rest) == rest[0] + seq![','] + joined(rest.skip(1)));
            assert(before + (seq![','] + joined(rest)) =~= out@ + (seq![','] + joined(
                all.skip(i + 1),
            )));
        } else {
            assert(rest.len() == 1);
            assert(before + (seq![','] + joined(rest)) =~= out@ + Seq::<char>::empty());
        }
        i = i + 1;
    }
    assert(out@ + Seq::<char>::empty() =~= out@);
    out
}

/// The cells of a stream frame: sequence number, window flag, and whatever the
/// mask let through.
pub open spec fn tel_cells(f: TelFrame) -> Seq<Seq<char>> {
    seq![
        signed_of(f.seq as int),
        signed_of(
            if f.window_valid {
                1
            } else {
                0
            },
        ),
        cell_of(
            match f.pos {
                Some(x) => Some(x as int),
                None => None,
            },
        ),
        cell_of(
            match f.current {
                Some(x) => Some(x as int),
                None => None,
            },
        ),
        cell_of(
            match f.duty_q15 {
                Some(x) => Some(x as int),
                None => None,
            },
        ),
        cell_of(
            match f.vdiff {
                Some(x) => Some(x as int),
                None => None,
            },
        ),
    ]
}

pub fn tel_row(f: &TelFrame) -> (r: String)
    ensures
        r@ == joined(tel_cells(*f)),
{
    let v: Vec<String> =
        vec![
        signed(f.seq as i64),
        signed(
            if f.window_valid {
                1
            } else {
                0
            },
        ),
        cell_u16(f.pos),
        cell_i16(f.current),
        cell_i16(f.duty_q15),
        cell_i16(f.vdiff),
    ];
    assert(texts(v@) =~= tel_cells(*f));
    join(&v)
}

/// The cells of a snapshot: the host's time, then every field in order.
pub open spec fn snapshot_cells(host_ms: Seq<char>, s: TelemetrySnapshot) -> Seq<Seq<char>> {
    seq![
        host_ms,
        signed_of(s.fault_flags as int),
        signed_of(s.fault_code as int),
        signed_of(s.mode_active as int),
        signed_of(s.theta_hat_q16 as int),
        signed_of(s.omega_hat_cps as int),
        signed_of(s.tau_d_counts as int),
        signed_of(s.i_lim_counts as int),
        signed_of(s.t_winding_cc as int),
        signed_of(s.vbus_counts as int),
        signed_of(s.duty_applied_q15 as int),
        signed_of(s.omega_bemf_cps as int),
        signed_of(s.r_hat_q12 as int),
        signed_of(s.i_hat_counts as int),
        signed_of(s.sample_tick as int),
        signed_of(s.pos as int),
        signed_of(s.current as int),
        signed_of(s.current_trough as int),
        signed_of(s.current_bias_counts as int),
        signed_of(s.i_mean_counts as int),
        signed_of(s.i_min_counts as int),
        signed_of(s.i_max_counts as int),
        signed_of(s.vdiff_mean as int),
        signed_of(s.duty_mean_q15 as int),
        signed_of(s.agg_seq as int),
    ]
}

pub fn snapshot_row(host_ms: &str, s: &TelemetrySnapshot) -> (r: String)
    ensures
        r@ == joined(snapshot_cells(host_ms@, *s)),
{
    let v: Vec<String> =
        vec![
        host_ms.to_owned(),
        signed(s.fault_flags as i64),
        signed(s.fault_code as i64),
        signed(s.mode_active as i64),
        signed(s.theta_hat_q16 as i64),
        signed(s.omega_hat_cps as i64),
        signed(s.tau_d_counts as i64),
        signed(s.i_lim_counts as i64),
        signed(s.t_winding_cc as i64),
        signed(s.vbus_counts as i64),
        signed(s.duty_applied_q15 as i64),
        signed(s.omega_bemf_cps as i64),
        signed(s.r_hat_q12 as i64),
        signed(s.i_hat_counts as i64),
        signed(s.sample_tick as i64),
        signed(s.pos as i64),
        signed(s.current as i64),
        signed(s.current_trough as i64),
        signed(s.current_bias_counts as i64),
        signed(s.i_mean_counts as i64),
        signed(s.i_min_counts as i64),
        signed(s.i_max_counts as i64),
        signed(s.vdiff_mean as i64),
        signed(s.duty_mean_q15 as i64),
        signed(s.agg_seq as i64),
    ];
    assert(texts(v@) =~= snapshot_cells(host_ms@, *s));
    join(&v)
}

proof fn lemma_decimal_plain(n: int)
    requires
        n >= 0,
    ensures
        plain(decimal_of(n)),
        decimal_of(n).len() > 0,
        decimal_of(n)[0] != '+',
        decimal_of(n)[0] != '-',
    decreases n,
{
    if n >= 10 {
        lemma_decimal_plain(n / 10);
        let hi = decimal_of(n / 10);
        assert forall|k: int| 0 <= k < decimal_of(n).len() implies #[trigger] decimal_of(n)[k]
            != ',' by {
            if k < hi.len() {
                assert(decimal_of(n)[k] == hi[k]);
            }
        }
    }
}

proof fn lemma_signed_plain(v: int)
    ensures
        plain(signed_of(v)),
{
    if v < 0 {
        lemma_decimal_plain(-v);
        let d = decimal_of(-v);
        assert forall|k: int| 0 <= k < signed_of(v).len() implies #[trigger] signed_of(v)[k]
            != ',' by {
            if k > 0 {
                assert(signed_of(v)[k] == d[k - 1]);
            }
        }
    } else {
        lemma_decimal_plain(v);
    }
}

/// A number in a cell reads back as itself.
pub proof fn law_number_reads_back(n: int)
    requires
        n >= 0,
    ensures
        number(signed_of(n), 10) == Some(n),
{
    lemma_digits(n);
    lemma_decimal_plain(n);
}

proof fn lemma_digits(n: int)
    requires
        n >= 0,
    ensures
        digits_value(decimal_of(n), 10) == Some(n),
    decreases n,
{
    let s = decimal_of(n);
    if n >= 10 {
        lemma_digits(n / 10);
        assert(s.drop_last() =~= decimal_of(n / 10));
    } else {
        assert(s.drop_last() =~= Seq::<char>::empty());
        assert(digits_value(s.drop_last(), 10) == Some(0int));
    }
    assert(s.last() == nibble(n % 10));
    assert(digit(nibble(n % 10), 10) == Some(n % 10));
    assert(digits_value(s, 10) == Some(n / 10 * 10 + n % 10));
}

/// A recorded stream frame reads back as its cells.
pub proof fn law_tel_row_reads_back(f: TelFrame)
    ensures
        cells(joined(tel_cells(f))) == tel_cells(f),
{
    let v = tel_cells(f);
    assert forall|k: int| 0 <= k < v.len() implies plain(#[trigger] v[k]) by {
        lemma_signed_plain(f.seq as int);
        lemma_signed_plain(0);
        lemma_signed_plain(1);
        if let Some(x) = f.pos {
            lemma_signed_plain(x as int);
        }
        if let Some(x) = f.current {
            lemma_signed_plain(x as int);
        }
        if let Some(x) = f.duty_q15 {
            lemma_signed_plain(x as int);
        }
        if let Some(x) = f.vdiff {
            lemma_signed_plain(x as int);
        }
    }
    law_row_round_trip(v);
}

/// A recorded snapshot reads back as its cells.
pub proof fn law_snapshot_row_reads_back(host_ms: Seq<char>, s: TelemetrySnapshot)
    requires
        plain(host_ms),
    ensures
        cells(joined(snapshot_cells(host_ms, s))) == snapshot_cells(host_ms, s),
{
    let v = snapshot_cells(host_ms, s);
    assert forall|k: int| 0 <= k < v.len() implies plain(#[trigger] v[k]) by {
        lemma_signed_plain(s.fault_flags as int);
        lemma_signed_plain(s.fault_code as int);
        lemma_signed_plain(s.mode_active as int);
        lemma_signed_plain(s.theta_hat_q16 as int);
        lemma_signed_plain(s.omega_hat_cps as int);
        lemma_signed_plain(s.tau_d_counts as int);
        lemma_signed_plain(s.i_lim_counts as int);
        lemma_signed_plain(s.t_winding_cc as int);
        lemma_signed_plain(s.vbus_counts as int);
        lemma_signed_plain(s.duty_applied_q15 as int);
        lemma_signed_plain(s.omega_bemf_cps as int);
        lemma_signed_plain(s.r_hat_q12 as int);
        lemma_signed_plain(s.i_hat_counts as int);
        lemma_signed_plain(s.sample_tick as int);
        lemma_signed_plain(s.pos as int);
        lemma_signed_plain(s.current as int);
        lemma_signed_plain(s.current_trough as int);
        lemma_signed_plain(s.current_bias_counts as int);
        lemma_signed_plain(s.i_mean_counts as int);
        lemma_signed_plain(s.i_min_counts as int);
        lemma_signed_plain(s.i_max_counts as int);
        lemma_signed_plain(s.vdiff_mean as int);
        lemma_signed_plain(s.duty_mean_q15 as int);
        lemma_signed_plain(s.agg_seq as int);
    }
    law_row_round_trip(v);
}

/// The cell reads as the number: a minus sign in front of a negative one.
pub open spec fn reads(cell: Seq<char>, v: int) -> bool {
    &&& v >= 0 ==> number(cell, 10) == Some(v)
    &&& v < 0 ==> cell.len() > 0 && cell[0] == '-' && number(cell.skip(1), 10) == Some(-v)
}

proof fn lemma_reads(v: int)
    ensures
        reads(signed_of(v), v),
{
    if v < 0 {
        law_number_reads_back(-v);
        assert(signed_of(v).skip(1) =~= signed_of(-v));
    } else {
        law_number_reads_back(v);
    }
}

/// The row of a stream frame: six cells that read as the frame's own fields,
/// the window flag as 1 or 0, a field that was left out as an empty cell.
pub proof fn law_tel_row_fields(f: TelFrame)
    ensures
        ({
            let c = tel_cells(f);
            &&& c.len() == 6
            &&& reads(c[0], f.seq as int)
            &&& f.window_valid ==> reads(c[1], 1)
            &&& !f.window_valid ==> reads(c[1], 0)
            &&& f.pos matches Some(x) ==> reads(c[2], x as int)
            &&& f.pos is None ==> c[2].len() == 0
            &&& f.current matches Some(x) ==> reads(c[3], x as int)
            &&& f.current is None ==> c[3].len() == 0
            &&& f.duty_q15 matches Some(x) ==> reads(c[4], x as int)
            &&& f.duty_q15 is None ==> c[4].len() == 0
            &&& f.vdiff matches Some(x) ==> reads(c[5], x as int)
            &&& f.vdiff is None ==> c[5].len() == 0
        }),
{
    lemma_reads(f.seq as int);
    lemma_reads(1);
    lemma_reads(0);
    if let Some(x) = f.pos {
        lemma_reads(x as int);
    }
    if let Some(x) = f.current {
        lemma_reads(x as int);
    }
    if let Some(x) = f.duty_q15 {
        lemma_reads(x as int);
    }
    if let Some(x) = f.vdiff {
        lemma_reads(x as int);
    }
}

/// The row of a snapshot: the host's time, then cells that read as the
/// snapshot's own fields, in the order of its declaration.
pub proof fn law_snapshot_row_fields(host_ms: Seq<char>, s: TelemetrySnapshot)
    ensures
        ({
            let c = snapshot_cells(host_ms, s);
            &&& c.len() == 25
            &&& c[0] == host_ms
            &&& reads(c[1], s.fault_flags as int)
            &&& reads(c[2], s.fault_code as int)
            &&& reads(c[3], s.mode_active as int)
            &&& reads(c[4], s.theta_hat_q16 as int)
            &&& reads(c[5], s.omega_hat_cps as int)
            &&& reads(c[6], s.tau_d_counts as int)
            &&& reads(c[7], s.i_lim_counts as int)
            &&& reads(c[8], s.t_winding_cc as int)
            &&& reads(c[9], s.vbus_counts as int)
            &&& reads(c[10], s.duty_applied_q15 as int)
            &&& reads(c[11], s.omega_bemf_cps as int)
            &&& reads(c[12], s.r_hat_q12 as int)
            &&& reads(c[13], s.i_hat_counts as int)
            &&& reads(c[14], s.sample_tick as int)
            &&& reads(c[15], s.pos as int)
            &&& reads(c[16], s.current as int)
            &&& reads(c[17], s.current_trough as int)
            &&& reads(c[18], s.current_bias_counts as int)
            &&& reads(c[19], s.i_mean_counts as int)
            &&& reads(c[20], s.i_min_counts as int)
            &&& reads(c[21], s.i_max_counts as int)
            &&& reads(c[22], s.vdiff_mean as int)
            &&& reads(c[23], s.duty_mean_q15 as int)
            &&& reads(c[24], s.agg_seq as int)
        }),
{
    lemma_reads(s.fault_flags as int);
    lemma_reads(s.fault_code as int);
    lemma_reads(s.mode_active as int);
    lemma_reads(s.theta_hat_q16 as int);
    lemma_reads(s.omega_hat_cps as int);
    lemma_reads(s.tau_d_counts as int);
    lemma_reads(s.i_lim_counts as int);
    lemma_reads(s.t_winding_cc as int);
    lemma_reads(s.vbus_counts as int);
    lemma_reads(s.duty_applied_q15 as int);
    lemma_reads(s.omega_bemf_cps as int);
    lemma_reads(s.r_hat_q12 as int);
    lemma_reads(s.i_hat_counts as int);
    lemma_reads(s.sample_tick as int);
    lemma_reads(s.pos as int);
    lemma_reads(s.current as int);
    lemma_reads(s.current_trough as int);
    lemma_reads(s.current_bias_counts as int);
    lemma_reads(s.i_mean_counts as int);
    lemma_reads(s.i_min_counts as int);
    lemma_reads(s.i_max_counts as int);
    lemma_reads(s.vdiff_mean as int);
    lemma_reads(s.duty_mean_q15 as int);
    lemma_reads(s.agg_seq as int);
}

} // verus!
