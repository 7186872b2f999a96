//! Gap filling: heal placeholder readings in a raw measurement series.
//!
//! A channel value of exactly `0` encodes "not measured at this temperature".
//! Each channel is healed on its own: values before the first real reading
//! copy that reading backward, interior runs of placeholders are linearly
//! interpolated in temperature between the bounding readings, and trailing
//! placeholders copy the last real reading forward.  A channel with no real
//! reading at all is left as it is.

use crate::data::{col_cp, col_e, col_r, col_temp, Data, DataPair};
use crate::fixed::{fixed_lerp, fx_lerp, lemma_fx_lerp_pos};
use vstd::prelude::*;

verus! {

/// Index of the last real (nonzero) reading at or before `i`, or `-1`.
pub open spec fn chan_prev_nz(vals: Seq<u64>, i: int) -> int
    decreases i + 1,
{
    if i < 0 {
        -1
    } else if vals[i] != 0 {
        i
    } else {
        chan_prev_nz(vals, i - 1)
    }
}

/// Index of the first real (nonzero) reading at or after `i`, or `vals.len()`.
pub open spec fn chan_next_nz(vals: Seq<u64>, i: int) -> int
    decreases vals.len() - i,
{
    if i >= vals.len() {
        vals.len() as int
    } else if vals[i] != 0 {
        i
    } else {
        chan_next_nz(vals, i + 1)
    }
}

/// Whether a channel holds at least one real reading.
pub open spec fn chan_has_value(vals: Seq<u64>) -> bool {
    exists|j: int| 0 <= j < vals.len() && vals[j] != 0
}

/// The healed value of one channel at index `i`: the reading itself if real,
/// otherwise interpolated or copied from the nearest real readings.
pub open spec fn chan_filled(temps: Seq<u64>, vals: Seq<u64>, i: int) -> u64 {
    let p = chan_prev_nz(vals, i);
    let n = chan_next_nz(vals, i);
    if vals[i] != 0 {
        vals[i]
    } else if p >= 0 && n < vals.len() {
        fx_lerp(temps[p], vals[p], temps[n], vals[n], temps[i])
    } else if n < vals.len() {
        vals[n]
    } else if p >= 0 {
        vals[p]
    } else {
        0
    }
}

/// The healed channel as a whole.
pub open spec fn chan_fill(temps: Seq<u64>, vals: Seq<u64>) -> Seq<u64> {
    Seq::new(vals.len(), |i: int| chan_filled(temps, vals, i))
}

/// The healed series as a whole: each channel healed independently on the
/// shared temperature axis, the temperatures themselves kept.
pub open spec fn fill_series(s: Seq<DataPair>) -> Seq<DataPair> {
    Seq::new(
        s.len(),
        |i: int|
            DataPair(
                s[i].0,
                Data {
                    cp: chan_filled(col_temp(s), col_cp(s), i),
                    r_th: chan_filled(col_temp(s), col_r(s), i),
                    e: chan_filled(col_temp(s), col_e(s), i),
                },
            ),
    )
}

/// Basic facts about the backward search for a real reading.
pub proof fn lemma_prev_nz_props(vals: Seq<u64>, i: int)
    requires
        0 <= i < vals.len(),
    ensures
        -1 <= chan_prev_nz(vals, i) <= i,
        chan_prev_nz(vals, i) >= 0 ==> vals[chan_prev_nz(vals, i)] != 0,
        forall|j: int| 0 <= j <= i && vals[j] != 0 ==> chan_prev_nz(vals, i) >= j,
    decreases i,
{
    if vals[i] == 0 {
        if i > 0 {
            lemma_prev_nz_props(vals, i - 1);
        } else {
            assert(chan_prev_nz(vals, -1) == -1);
        }
    }
}

/// Basic facts about the forward search for a real reading.
pub proof fn lemma_next_nz_props(vals: Seq<u64>, i: int)
    requires
        0 <= i < vals.len(),
    ensures
        i <= chan_next_nz(vals, i) <= vals.len(),
        chan_next_nz(vals, i) < vals.len() ==> vals[chan_next_nz(vals, i)] != 0,
        forall|j: int| i <= j < vals.len() && vals[j] != 0 ==> chan_next_nz(vals, i) <= j,
    decreases vals.len() - i,
{
    if vals[i] == 0 {
        if i + 1 < vals.len() {
            lemma_next_nz_props(vals, i + 1);
        } else {
            assert(chan_next_nz(vals, i + 1) == vals.len() as int);
        }
    }
}

/// A healed entry of a channel with at least one real reading is never a
/// placeholder.
proof fn lemma_chan_filled_nonzero(temps: Seq<u64>, vals: Seq<u64>, i: int)
    requires
        temps.len() == vals.len(),
        0 <= i < vals.len(),
        chan_has_value(vals),
    ensures
        chan_filled(temps, vals, i) != 0,
{
    if vals[i] == 0 {
        let j = choose|j: int| 0 <= j < vals.len() && vals[j] != 0;
        lemma_prev_nz_props(vals, i);
        lemma_next_nz_props(vals, i);
        let p = chan_prev_nz(vals, i);
        let n = chan_next_nz(vals, i);
        if p >= 0 && n < vals.len() {
            lemma_fx_lerp_pos(temps[p], vals[p], temps[n], vals[n], temps[i]);
        } else if !(n < vals.len()) && !(p >= 0) {
            assert(j <= i || j >= i);
            assert(false);
        }
    }
}

/// A healed channel with at least one real reading holds no placeholder:
/// every entry of the output is nonzero.
pub proof fn lemma_fill_gaps_no_placeholders(temps: Seq<u64>, vals: Seq<u64>)
    requires
        temps.len() == vals.len(),
        chan_has_value(vals),
    ensures
        forall|i: int| 0 <= i < vals.len() ==> chan_fill(temps, vals)[i] != 0,
{
    assert forall|i: int| 0 <= i < vals.len() implies chan_fill(temps, vals)[i] != 0 by {
        lemma_chan_filled_nonzero(temps, vals, i);
    }
}

/// Healing preserves every real reading unchanged.
pub proof fn lemma_fill_gaps_preserves_values(temps: Seq<u64>, vals: Seq<u64>)
    ensures
        forall|i: int|
            0 <= i < vals.len() && vals[i] != 0 ==> chan_fill(temps, vals)[i] == vals[i],
{
}

/// A healed series of which every channel holds at least one real reading
/// contains no placeholder at all, every originally real reading is
/// preserved unchanged, and the temperature axis is kept.
pub proof fn lemma_fill_series_heals(s: Seq<DataPair>)
    requires
        chan_has_value(col_cp(s)),
        chan_has_value(col_r(s)),
        chan_has_value(col_e(s)),
    ensures
        forall|i: int|
            0 <= i < s.len() ==> fill_series(s)[i].1.cp != 0 && fill_series(s)[i].1.r_th != 0
                && fill_series(s)[i].1.e != 0,
        forall|i: int| 0 <= i < s.len() ==> fill_series(s)[i].0 == s[i].0,
        forall|i: int|
            0 <= i < s.len() && s[i].1.cp != 0 ==> fill_series(s)[i].1.cp == s[i].1.cp,
        forall|i: int|
            0 <= i < s.len() && s[i].1.r_th != 0 ==> fill_series(s)[i].1.r_th == s[i].1.r_th,
        forall|i: int| 0 <= i < s.len() && s[i].1.e != 0 ==> fill_series(s)[i].1.e == s[i].1.e,
{
    lemma_fill_gaps_no_placeholders(col_temp(s), col_cp(s));
    lemma_fill_gaps_no_placeholders(col_temp(s), col_r(s));
    lemma_fill_gaps_no_placeholders(col_temp(s), col_e(s));
    assert forall|i: int| 0 <= i < s.len() implies fill_series(s)[i].1.cp != 0 && fill_series(
        s,
    )[i].1.r_th != 0 && fill_series(s)[i].1.e != 0 by {
        assert(chan_fill(col_temp(s), col_cp(s))[i] != 0);
        assert(chan_fill(col_temp(s), col_r(s))[i] != 0);
        assert(chan_fill(col_temp(s), col_e(s))[i] != 0);
    }
}

/// Healing is idempotent: healing a healed channel changes nothing.
pub proof fn lemma_fill_gaps_idempotent(temps: Seq<u64>, vals: Seq<u64>)
    requires
        temps.len() == vals.len(),
    ensures
        chan_fill(temps, chan_fill(temps, vals)) == chan_fill(temps, vals),
{
    let f1 = chan_fill(temps, vals);
    if chan_has_value(vals) {
        lemma_fill_gaps_no_placeholders(temps, vals);
        assert forall|i: int| 0 <= i < f1.len() implies chan_fill(temps, f1)[i] == f1[i] by {
            assert(f1[i] != 0);
        }
        assert(chan_fill(temps, f1) =~= f1);
    } else {
        assert forall|i: int| 0 <= i < vals.len() implies f1[i] == 0 by {
            lemma_prev_nz_props(vals, i);
            lemma_next_nz_props(vals, i);
            assert(vals[i] == 0);
        }
        assert forall|i: int| 0 <= i < f1.len() implies chan_fill(temps, f1)[i] == f1[i] by {
            lemma_prev_nz_props(f1, i);
            lemma_next_nz_props(f1, i);
        }
        assert(chan_fill(temps, f1) =~= f1);
    }
}

/// Healing a healed series changes nothing: running the gap filler twice
/// yields the same series as running it once.
pub proof fn lemma_fill_series_idempotent(s: Seq<DataPair>)
    ensures
        fill_series(fill_series(s)) == fill_series(s),
{
    let f1 = fill_series(s);
    assert(col_temp(f1) =~= col_temp(s));
    assert(col_cp(f1) =~= chan_fill(col_temp(s), col_cp(s)));
    assert(col_r(f1) =~= chan_fill(col_temp(s), col_r(s)));
    assert(col_e(f1) =~= chan_fill(col_temp(s), col_e(s)));
    lemma_fill_gaps_idempotent(col_temp(s), col_cp(s));
    lemma_fill_gaps_idempotent(col_temp(s), col_r(s));
    lemma_fill_gaps_idempotent(col_temp(s), col_e(s));
    assert forall|i: int| 0 <= i < f1.len() implies fill_series(f1)[i] == f1[i] by {
        assert(chan_filled(col_temp(f1), col_cp(f1), i) == chan_fill(
            col_temp(s),
            chan_fill(col_temp(s), col_cp(s)),
        )[i]);
        assert(chan_filled(col_temp(f1), col_r(f1), i) == chan_fill(
            col_temp(s),
            chan_fill(col_temp(s), col_r(s)),
        )[i]);
        assert(chan_filled(col_temp(f1), col_e(f1), i) == chan_fill(
            col_temp(s),
            chan_fill(col_temp(s), col_e(s)),
        )[i]);
    }
    assert(fill_series(f1) =~= f1);
}

/// The healed value of one channel at one index.
fn filled_at(temps: &Vec<u64>, vals: &Vec<u64>, i: usize) -> (r: u64)
    requires
        temps@.len() == vals@.len(),
        i < vals@.len(),
    ensures
        r == chan_filled(temps@, vals@, i as int),
{
    if vals[i] != 0 {
        return vals[i];
    }
    let mut j: usize = i;
    while j > 0 && vals[j] == 0
        invariant
            j <= i < vals@.len(),
            chan_prev_nz(vals@, i as int) == chan_prev_nz(vals@, j as int),
        decreases j,
    {
        j = j - 1;
    }
    let has_prev: bool = vals[j] != 0;
    proof {
        if has_prev {
            assert(chan_prev_nz(vals@, j as int) == j);
        } else {
            assert(j == 0);
            assert(chan_prev_nz(vals@, -1) == -1);
            assert(chan_prev_nz(vals@, 0) == -1);
        }
    }
    let len: usize = vals.len();
    let mut k: usize = i;
    while k < len && vals[k] == 0
        invariant
            i <= k <= len,
            len == vals@.len(),
            chan_next_nz(vals@, i as int) == chan_next_nz(vals@, k as int),
        decreases len - k,
    {
        k = k + 1;
    }
    proof {
        if k < len {
            assert(chan_next_nz(vals@, k as int) == k);
        }
    }
    if has_prev && k < len {
        fixed_lerp(temps[j], vals[j], temps[k], vals[k], temps[i])
    } else if k < len {
        vals[k]
    } else if has_prev {
        vals[j]
    } else {
        0
    }
}

/// Heal one channel as a whole.
fn chan_fill_exec(temps: &Vec<u64>, vals: &Vec<u64>) -> (out: Vec<u64>)
    requires
        temps@.len() == vals@.len(),
    ensures
        out@ == chan_fill(temps@, vals@),
{
    let len: usize = vals.len();
    let mut out: Vec<u64> = Vec::new();
    let mut i: usize = 0;
    while i < len
        invariant
            i <= len,
            len == vals@.len(),
            temps@.len() == vals@.len(),
            out@.len() == i,
            forall|m: int| 0 <= m < i ==> out@[m] == chan_filled(temps@, vals@, m),
        decreases len - i,
    {
        let v: u64 = filled_at(temps, vals, i);
        out.push(v);
        i = i + 1;
    }
    assert(out@ =~= chan_fill(temps@, vals@));
    out
}

/// Heal a raw series: each of the three channels is healed independently on
/// the shared temperature axis; the temperatures themselves are kept.
pub fn fill_gaps_in_csv(thermal_list: &Vec<DataPair>) -> (out: Vec<DataPair>)
    ensures
        out@ == fill_series(thermal_list@),
{
    let len: usize = thermal_list.len();
    let mut temps: Vec<u64> = Vec::new();
    let mut cps: Vec<u64> = Vec::new();
    let mut rs: Vec<u64> = Vec::new();
    let mut es: Vec<u64> = Vec::new();
    let mut i: usize = 0;
    while i < len
        invariant
            i <= len,
            len == thermal_list@.len(),
            temps@.len() == i,
            cps@.len() == i,
            rs@.len() == i,
            es@.len() == i,
            forall|m: int| 0 <= m < i ==> temps@[m] == thermal_list@[m].0,
            forall|m: int| 0 <= m < i ==> cps@[m] == thermal_list@[m].1.cp,
            forall|m: int| 0 <= m < i ==> rs@[m] == thermal_list@[m].1.r_th,
            forall|m: int| 0 <= m < i ==> es@[m] == thermal_list@[m].1.e,
        decreases len - i,
    {
        temps.push(thermal_list[i].0);
        cps.push(thermal_list[i].1.cp);
        rs.push(thermal_list[i].1.r_th);
        es.push(thermal_list[i].1.e);
        i = i + 1;
    }
    proof {
        assert(temps@ =~= col_temp(thermal_list@));
        assert(cps@ =~= col_cp(thermal_list@));
        assert(rs@ =~= col_r(thermal_list@));
        assert(es@ =~= col_e(thermal_list@));
    }
    let cps_f: Vec<u64> = chan_fill_exec(&temps, &cps);
    let rs_f: Vec<u64> = chan_fill_exec(&temps, &rs);
    let es_f: Vec<u64> = chan_fill_exec(&temps, &es);
    let mut out: Vec<DataPair> = Vec::new();
    let mut i: usize = 0;
    while i < len
        invariant
            i <= len,
            len == thermal_list@.len(),
            out@.len() == i,
            cps_f@ == chan_fill(col_temp(thermal_list@), col_cp(thermal_list@)),
            rs_f@ == chan_fill(col_temp(thermal_list@), col_r(thermal_list@)),
            es_f@ == chan_fill(col_temp(thermal_list@), col_e(thermal_list@)),
            cps_f@.len() == len,
            rs_f@.len() == len,
            es_f@.len() == len,
            forall|m: int| 0 <= m < i ==> out@[m].0 == thermal_list@[m].0,
            forall|m: int| 0 <= m < i ==> out@[m].1.cp == cps_f@[m],
            forall|m: int| 0 <= m < i ==> out@[m].1.r_th == rs_f@[m],
            forall|m: int| 0 <= m < i ==> out@[m].1.e == es_f@[m],
        decreases len - i,
    {
        out.push(
            DataPair(
                thermal_list[i].0,
                Data { cp: cps_f[i], r_th: rs_f[i], e: es_f[i] },
            ),
        );
        i = i + 1;
    }
    proof {
        assert forall|m: int| 0 <= m < out@.len() implies out@[m] == fill_series(
            thermal_list@,
        )[m] by {
            assert(out@[m].1.cp == chan_fill(col_temp(thermal_list@), col_cp(thermal_list@))[m]);
            assert(out@[m].1.r_th == chan_fill(col_temp(thermal_list@), col_r(thermal_list@))[m]);
            assert(out@[m].1.e == chan_fill(col_temp(thermal_list@), col_e(thermal_list@))[m]);
        }
        assert(out@ =~= fill_series(thermal_list@));
    }
    out
}

} // verus!
