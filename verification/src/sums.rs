//! Summation spec functions over the engine's sequences, with the small
//! lemmas the state invariants rest on: how a sum changes under `push` and
//! `update`, that sums of unsigned values are non-negative, and that one
//! element never exceeds the whole sum.

use vstd::prelude::*;
use crate::models::{DamageDetail, SkillHistoryEntry, TurnInfo};

verus! {

/// The sum of a sequence of damage amounts.
pub open spec fn sum_u64(s: Seq<u64>) -> int
    decreases s.len(),
{
    if s.len() == 0 {
        0
    } else {
        sum_u64(s.drop_last()) + s.last()
    }
}

/// The damage slot of one turn at lineup position `i`, or zero when the
/// turn's vector has no such position.
pub open spec fn slot_val(t: TurnInfo, i: int) -> int {
    if 0 <= i < t.avatars_turn_damage@.len() {
        t.avatars_turn_damage@[i] as int
    } else {
        0
    }
}

/// The sum over a turn sequence of the damage slot at lineup position `i`.
pub open spec fn sum_slot(ts: Seq<TurnInfo>, i: int) -> int
    decreases ts.len(),
{
    if ts.len() == 0 {
        0
    } else {
        sum_slot(ts.drop_last(), i) + slot_val(ts.last(), i)
    }
}

/// The sum of the damage amounts of a detail list.
pub open spec fn sum_details(ds: Seq<DamageDetail>) -> int
    decreases ds.len(),
{
    if ds.len() == 0 {
        0
    } else {
        sum_details(ds.drop_last()) + ds.last().damage
    }
}

/// The sum of the running totals of a skill history.
pub open spec fn sum_skill_totals(ss: Seq<SkillHistoryEntry>) -> int
    decreases ss.len(),
{
    if ss.len() == 0 {
        0
    } else {
        sum_skill_totals(ss.drop_last()) + ss.last().total_damage
    }
}

pub proof fn lemma_sum_u64_nonneg(s: Seq<u64>)
    ensures
        sum_u64(s) >= 0,
    decreases s.len(),
{
    if s.len() > 0 {
        lemma_sum_u64_nonneg(s.drop_last());
    }
}

pub proof fn lemma_sum_u64_update(s: Seq<u64>, i: int, v: u64)
    requires
        0 <= i < s.len(),
    ensures
        sum_u64(s.update(i, v)) == sum_u64(s) - s[i] + v,
    decreases s.len(),
{
    if i == s.len() - 1 {
        assert(s.update(i, v).drop_last() =~= s.drop_last());
    } else {
        assert(s.update(i, v).drop_last() =~= s.drop_last().update(i, v));
        lemma_sum_u64_update(s.drop_last(), i, v);
    }
}

/// One element never exceeds the sum of the whole sequence.
pub proof fn lemma_sum_u64_elem_le(s: Seq<u64>, i: int)
    requires
        0 <= i < s.len(),
    ensures
        s[i] <= sum_u64(s),
    decreases s.len(),
{
    if i == s.len() - 1 {
        lemma_sum_u64_nonneg(s.drop_last());
    } else {
        lemma_sum_u64_elem_le(s.drop_last(), i);
    }
}

/// The sum of a prefix one longer adds exactly the next element.
pub proof fn lemma_sum_u64_take_succ(s: Seq<u64>, i: int)
    requires
        0 <= i < s.len(),
    ensures
        sum_u64(s.take(i + 1)) == sum_u64(s.take(i)) + s[i],
{
    assert(s.take(i + 1).drop_last() =~= s.take(i));
}

/// The whole sequence is its own full prefix.
pub proof fn lemma_sum_u64_take_all(s: Seq<u64>)
    ensures
        sum_u64(s.take(s.len() as int)) == sum_u64(s),
{
    assert(s.take(s.len() as int) =~= s);
}

/// A prefix sum never exceeds the full sum.
pub proof fn lemma_sum_u64_take_le(s: Seq<u64>, j: int)
    requires
        0 <= j <= s.len(),
    ensures
        sum_u64(s.take(j)) <= sum_u64(s),
    decreases s.len() - j,
{
    if j < s.len() {
        lemma_sum_u64_take_succ(s, j);
        lemma_sum_u64_take_le(s, j + 1);
    } else {
        lemma_sum_u64_take_all(s);
    }
}

/// A sequence of zeros sums to zero.
pub proof fn lemma_sum_u64_all_zero(s: Seq<u64>)
    requires
        forall|i: int| 0 <= i < s.len() ==> #[trigger] s[i] == 0,
    ensures
        sum_u64(s) == 0,
    decreases s.len(),
{
    if s.len() > 0 {
        let tl = s.drop_last();
        assert forall|i: int| 0 <= i < tl.len() implies #[trigger] tl[i] == 0 by {
            assert(tl[i] == s[i]);
            assert(s[i] == 0);
        }
        assert(s.last() == s[s.len() - 1]);
        lemma_sum_u64_all_zero(tl);
    }
}

/// Pointwise dominance carries over to the sums.
pub proof fn lemma_sum_u64_le_pointwise(a: Seq<u64>, b: Seq<u64>)
    requires
        a.len() == b.len(),
        forall|i: int| 0 <= i < a.len() ==> #[trigger] a[i] <= b[i],
    ensures
        sum_u64(a) <= sum_u64(b),
    decreases a.len(),
{
    if a.len() > 0 {
        let ta = a.drop_last();
        let tb = b.drop_last();
        assert forall|i: int| 0 <= i < ta.len() implies #[trigger] ta[i] <= tb[i] by {
            assert(ta[i] == a[i]);
            assert(tb[i] == b[i]);
            assert(a[i] <= b[i]);
        }
        assert(a.last() == a[a.len() - 1]);
        assert(b.last() == b[b.len() - 1]);
        lemma_sum_u64_le_pointwise(ta, tb);
    }
}

pub proof fn lemma_sum_slot_push(ts: Seq<TurnInfo>, t: TurnInfo, i: int)
    ensures
        sum_slot(ts.push(t), i) == sum_slot(ts, i) + slot_val(t, i),
{
    assert(ts.push(t).drop_last() =~= ts);
}

pub proof fn lemma_sum_slot_nonneg(ts: Seq<TurnInfo>, i: int)
    ensures
        sum_slot(ts, i) >= 0,
    decreases ts.len(),
{
    if ts.len() > 0 {
        lemma_sum_slot_nonneg(ts.drop_last(), i);
    }
}

pub proof fn lemma_sum_slot_update(ts: Seq<TurnInfo>, k: int, t: TurnInfo, i: int)
    requires
        0 <= k < ts.len(),
    ensures
        sum_slot(ts.update(k, t), i) == sum_slot(ts, i) - slot_val(ts[k], i) + slot_val(t, i),
    decreases ts.len(),
{
    if k == ts.len() - 1 {
        assert(ts.update(k, t).drop_last() =~= ts.drop_last());
    } else {
        assert(ts.update(k, t).drop_last() =~= ts.drop_last().update(k, t));
        lemma_sum_slot_update(ts.drop_last(), k, t, i);
    }
}

/// The slot sum of one turn never exceeds the slot sum of the history.
pub proof fn lemma_sum_slot_elem_le(ts: Seq<TurnInfo>, k: int, i: int)
    requires
        0 <= k < ts.len(),
    ensures
        slot_val(ts[k], i) <= sum_slot(ts, i),
    decreases ts.len(),
{
    if k == ts.len() - 1 {
        lemma_sum_slot_nonneg(ts.drop_last(), i);
    } else {
        lemma_sum_slot_elem_le(ts.drop_last(), k, i);
    }
}

pub proof fn lemma_sum_details_push(ds: Seq<DamageDetail>, d: DamageDetail)
    ensures
        sum_details(ds.push(d)) == sum_details(ds) + d.damage,
{
    assert(ds.push(d).drop_last() =~= ds);
}

pub proof fn lemma_sum_skill_totals_push(ss: Seq<SkillHistoryEntry>, e: SkillHistoryEntry)
    ensures
        sum_skill_totals(ss.push(e)) == sum_skill_totals(ss) + e.total_damage,
{
    assert(ss.push(e).drop_last() =~= ss);
}

pub proof fn lemma_sum_skill_totals_nonneg(ss: Seq<SkillHistoryEntry>)
    ensures
        sum_skill_totals(ss) >= 0,
    decreases ss.len(),
{
    if ss.len() > 0 {
        lemma_sum_skill_totals_nonneg(ss.drop_last());
    }
}

pub proof fn lemma_sum_skill_totals_update(ss: Seq<SkillHistoryEntry>, k: int, e: SkillHistoryEntry)
    requires
        0 <= k < ss.len(),
    ensures
        sum_skill_totals(ss.update(k, e)) == sum_skill_totals(ss) - ss[k].total_damage
            + e.total_damage,
    decreases ss.len(),
{
    if k == ss.len() - 1 {
        assert(ss.update(k, e).drop_last() =~= ss.drop_last());
    } else {
        assert(ss.update(k, e).drop_last() =~= ss.drop_last().update(k, e));
        lemma_sum_skill_totals_update(ss.drop_last(), k, e);
    }
}

/// The sum of the running totals of the entries of one avatar.
pub open spec fn sum_skill_totals_of(ss: Seq<SkillHistoryEntry>, id: u32) -> int
    decreases ss.len(),
{
    if ss.len() == 0 {
        0
    } else {
        sum_skill_totals_of(ss.drop_last(), id) + if ss.last().avatar_id == id {
            ss.last().total_damage as int
        } else {
            0
        }
    }
}

pub proof fn lemma_sum_skill_totals_take_succ(ss: Seq<SkillHistoryEntry>, j: int)
    requires
        0 <= j < ss.len(),
    ensures
        sum_skill_totals(ss.take(j + 1)) == sum_skill_totals(ss.take(j)) + ss[j].total_damage,
{
    assert(ss.take(j + 1).drop_last() =~= ss.take(j));
}

pub proof fn lemma_sum_skill_totals_take_all(ss: Seq<SkillHistoryEntry>)
    ensures
        sum_skill_totals(ss.take(ss.len() as int)) == sum_skill_totals(ss),
{
    assert(ss.take(ss.len() as int) =~= ss);
}

/// A prefix sum of running totals never exceeds the full sum.
pub proof fn lemma_sum_skill_totals_take_le(ss: Seq<SkillHistoryEntry>, j: int)
    requires
        0 <= j <= ss.len(),
    ensures
        sum_skill_totals(ss.take(j)) <= sum_skill_totals(ss),
    decreases ss.len() - j,
{
    if j < ss.len() {
        lemma_sum_skill_totals_take_succ(ss, j);
        lemma_sum_skill_totals_take_le(ss, j + 1);
    } else {
        lemma_sum_skill_totals_take_all(ss);
    }
}

pub proof fn lemma_sum_skill_totals_of_take_succ(ss: Seq<SkillHistoryEntry>, j: int, id: u32)
    requires
        0 <= j < ss.len(),
    ensures
        sum_skill_totals_of(ss.take(j + 1), id) == sum_skill_totals_of(ss.take(j), id)
            + if ss[j].avatar_id == id {
            ss[j].total_damage as int
        } else {
            0
        },
{
    assert(ss.take(j + 1).drop_last() =~= ss.take(j));
}

/// One avatar's share never exceeds the sum over all entries.
pub proof fn lemma_sum_skill_totals_of_le(ss: Seq<SkillHistoryEntry>, id: u32)
    ensures
        0 <= sum_skill_totals_of(ss, id) <= sum_skill_totals(ss),
    decreases ss.len(),
{
    if ss.len() > 0 {
        lemma_sum_skill_totals_of_le(ss.drop_last(), id);
    }
}

/// One entry's running total never exceeds the sum of all running totals.
pub proof fn lemma_sum_skill_totals_elem_le(ss: Seq<SkillHistoryEntry>, k: int)
    requires
        0 <= k < ss.len(),
    ensures
        ss[k].total_damage <= sum_skill_totals(ss),
    decreases ss.len(),
{
    if k == ss.len() - 1 {
        lemma_sum_skill_totals_nonneg(ss.drop_last());
    } else {
        lemma_sum_skill_totals_elem_le(ss.drop_last(), k);
    }
}

} // verus!
