//! Export and summary derivation: pure functions over a read-only snapshot
//! of the battle aggregate, producing the structured export document and
//! the flattened analytical dataset.
//!
//! All quantities are the engine's exact integer units; per-action-value
//! metrics and percentage shares are exact [`Ratio`] values, defined as
//! zero whenever the divisor is zero.

use vstd::prelude::*;
use crate::battle::{BattleContext, has_avatar, is_first_avatar_index};
use crate::models::{Avatar, BattleEntity, BattleStats, SkillHistoryEntry, TurnInfo};
use crate::ratio::Ratio;
use crate::sums::{
    lemma_sum_skill_totals_of_le, lemma_sum_skill_totals_of_take_succ,
    lemma_sum_skill_totals_take_all, lemma_sum_skill_totals_take_le,
    lemma_sum_skill_totals_take_succ, slot_val, sum_skill_totals, sum_skill_totals_of,
};
use crate::text::{spec_decimal, u32_to_string};

verus! {

/// A point-in-time snapshot of one participant's stats.
#[derive(Clone, Copy, Debug, PartialEq, Eq, Structural)]
pub struct StatsSnapshot {
    pub hp: u64,
    pub attack: u64,
    pub defense: u64,
    pub speed: u64,
    pub av: u64,
}

/// The snapshot of a battle-stats record.
pub open spec fn spec_snapshot(bs: BattleStats) -> StatsSnapshot {
    StatsSnapshot { hp: bs.hp, attack: bs.attack, defense: bs.defense, speed: bs.speed, av: bs.av }
}

/// One stats-history entry of an exported participant.
#[derive(Clone, Copy, Debug, PartialEq, Eq, Structural)]
pub struct ExportStatsHistory {
    pub stats: StatsSnapshot,
    pub turn_battle_id: u32,
}

/// One lineup member in the export document.
#[derive(Clone, Copy, Debug, PartialEq, Eq, Structural)]
pub struct ExportAvatarBattleInfo {
    pub avatar_id: u32,
    pub is_die: bool,
}

/// One turn-order record in the export document. The first record is a
/// synthetic sentinel with owner `-1` carrying the current wave and the
/// maximum cycle reached.
#[derive(Clone, Copy, Debug, PartialEq, Eq, Structural)]
pub struct ExportTurnBattleInfo {
    pub avatar_id: i64,
    pub action_value: u64,
    pub wave_index: u32,
    pub cycle_index: u32,
}

/// One damage tick of an exported skill invocation.
#[derive(Clone, Copy, Debug, PartialEq, Eq, Structural)]
pub struct ExportDamageDetail {
    pub damage: u64,
    pub damage_type: i64,
}

/// One skill invocation in the export document.
#[derive(Clone, Debug)]
pub struct ExportSkillBattleInfo {
    pub avatar_id: u32,
    pub damage_detail: Vec<ExportDamageDetail>,
    pub total_damage: u64,
    pub skill_type: u32,
    pub skill_name: String,
    pub turn_battle_id: u32,
}

/// Per-avatar detail in the export document. `stats` is absent when no
/// battle entity was recorded for the avatar; death attribution is not
/// populated by the engine, so `is_die` and `killer_uid` always carry
/// their sentinel values.
#[derive(Clone, Debug)]
pub struct ExportAvatarDetail {
    pub id: u32,
    pub is_die: bool,
    pub killer_uid: i32,
    pub stats: Option<StatsSnapshot>,
    pub stats_history: Vec<ExportStatsHistory>,
}

/// Per-enemy detail in the export document.
#[derive(Clone, Debug)]
pub struct ExportEnemyDetail {
    pub id: u32,
    pub is_die: bool,
    pub killer_uid: i32,
    pub position_index: u32,
    pub wave_index: u32,
    pub name: String,
    pub max_hp: u64,
    pub level: u32,
    pub stats: Option<StatsSnapshot>,
    pub stats_history: Vec<ExportStatsHistory>,
}

/// The structured export document of one battle.
pub struct ExportBattleData {
    pub lineup: Vec<ExportAvatarBattleInfo>,
    pub turn_history: Vec<ExportTurnBattleInfo>,
    pub skill_history: Vec<ExportSkillBattleInfo>,
    pub total_av: u64,
    pub total_damage: u64,
    pub damage_per_av: Ratio,
    pub cycle_index: u32,
    pub wave_index: u32,
    pub max_wave: u32,
    pub max_cycle: u32,
    pub version: String,
    pub avatar_detail: Vec<ExportAvatarDetail>,
    pub enemy_detail: Vec<ExportEnemyDetail>,
}

/// One row of the flattened analytical dataset. A row is either a
/// character summary or a skill detail, distinguished by `data_type`;
/// fields of the other kind are absent.
pub struct ComprehensiveData {
    pub data_type: String,
    pub character_name: String,
    pub character_id: u32,
    pub total_damage: Option<u64>,
    pub damage_percentage: Option<Ratio>,
    pub dpav: Option<Ratio>,
    pub primary_skill_usage_count: Option<u32>,
    pub turns_taken: Option<u32>,
    pub average_damage_per_turn: Option<Ratio>,
    pub max_single_turn_damage: Option<u64>,
    pub first_turn_number: Option<u32>,
    pub last_turn_number: Option<u32>,
    pub turn_order: Option<u32>,
    pub turn_battle_id: Option<u32>,
    pub wave: Option<u32>,
    pub cycle: Option<u32>,
    pub action_value: Option<u64>,
    pub skill_name: Option<String>,
    pub skill_type: Option<u32>,
    pub skill_type_name: Option<String>,
    pub skill_damage: Option<u64>,
    pub cumulative_damage: Option<u64>,
    pub cumulative_character_damage: Option<u64>,
    pub skill_damage_percentage: Option<Ratio>,
}

/// `k` is the first position in `es` whose entity carries `uid`.
pub open spec fn is_first_uid_index(es: Seq<BattleEntity>, uid: u32, k: int) -> bool {
    &&& 0 <= k < es.len()
    &&& es[k].entity.uid == uid
    &&& forall|j: int| 0 <= j < k ==> #[trigger] es[j].entity.uid != uid
}

/// Some position in `es` carries `uid`.
pub open spec fn has_uid(es: Seq<BattleEntity>, uid: u32) -> bool {
    exists|k: int| 0 <= k < es.len() && #[trigger] es[k].entity.uid == uid
}

/// The stats snapshot a detail record carries for `uid`: the first
/// matching battle entity's stats, or absent.
pub open spec fn stats_lookup_matches(es: Seq<BattleEntity>, uid: u32, s: Option<StatsSnapshot>) -> bool {
    if has_uid(es, uid) {
        exists|k: int| #[trigger] is_first_uid_index(es, uid, k)
            && s == Some(spec_snapshot(es[k].battle_stats))
    } else {
        s == None::<StatsSnapshot>
    }
}

/// The stats history a detail record carries: one entry keyed to the
/// initial turn-battle id when stats exist, none otherwise.
pub open spec fn stats_history_matches(s: Option<StatsSnapshot>, h: Seq<ExportStatsHistory>) -> bool {
    match s {
        Some(snap) => h.len() == 1 && h[0] == (ExportStatsHistory { stats: snap, turn_battle_id: 0 }),
        None => h.len() == 0,
    }
}

/// An exported skill invocation carries its entry's data verbatim.
pub open spec fn export_skill_matches(src: SkillHistoryEntry, dst: ExportSkillBattleInfo) -> bool {
    &&& dst.avatar_id == src.avatar_id
    &&& dst.total_damage == src.total_damage
    &&& dst.skill_type == src.skill_type
    &&& dst.skill_name@ == src.skill_name@
    &&& dst.turn_battle_id == src.turn_battle_id
    &&& dst.damage_detail@.len() == src.damage_detail@.len()
    &&& forall|j: int| 0 <= j < src.damage_detail@.len() ==> #[trigger] dst.damage_detail@[j]
        == (ExportDamageDetail {
        damage: src.damage_detail@[j].damage,
        damage_type: src.damage_detail@[j].damage_type,
    })
}

/// How many closed turns dealt damage at lineup position `i`.
pub open spec fn count_active_turns(ts: Seq<TurnInfo>, i: int) -> int
    decreases ts.len(),
{
    if ts.len() == 0 {
        0
    } else {
        count_active_turns(ts.drop_last(), i) + if slot_val(ts.last(), i) > 0 {
            1int
        } else {
            0int
        }
    }
}

/// The largest damage one closed turn dealt at lineup position `i`.
pub open spec fn max_slot_damage(ts: Seq<TurnInfo>, i: int) -> int
    decreases ts.len(),
{
    if ts.len() == 0 {
        0
    } else {
        let r = max_slot_damage(ts.drop_last(), i);
        let v = slot_val(ts.last(), i);
        if v > r {
            v
        } else {
            r
        }
    }
}

/// The one-based number of the first turn that dealt damage at position
/// `i`, or zero when none did.
pub open spec fn first_active_turn(ts: Seq<TurnInfo>, i: int) -> int
    decreases ts.len(),
{
    if ts.len() == 0 {
        0
    } else {
        let r = first_active_turn(ts.drop_last(), i);
        if r != 0 {
            r
        } else if slot_val(ts.last(), i) > 0 {
            ts.len() as int
        } else {
            0
        }
    }
}

/// The one-based number of the last turn that dealt damage at position
/// `i`, or zero when none did.
pub open spec fn last_active_turn(ts: Seq<TurnInfo>, i: int) -> int
    decreases ts.len(),
{
    if ts.len() == 0 {
        0
    } else if slot_val(ts.last(), i) > 0 {
        ts.len() as int
    } else {
        last_active_turn(ts.drop_last(), i)
    }
}

proof fn lemma_turn_stats_take_succ(ts: Seq<TurnInfo>, i: int, j: int)
    requires
        0 <= j < ts.len(),
    ensures
        count_active_turns(ts.take(j + 1), i) == count_active_turns(ts.take(j), i)
            + if slot_val(ts[j], i) > 0 { 1int } else { 0int },
        max_slot_damage(ts.take(j + 1), i) == if slot_val(ts[j], i) > max_slot_damage(
            ts.take(j),
            i,
        ) { slot_val(ts[j], i) } else { max_slot_damage(ts.take(j), i) },
        first_active_turn(ts.take(j + 1), i) == if first_active_turn(ts.take(j), i) != 0 {
            first_active_turn(ts.take(j), i)
        } else if slot_val(ts[j], i) > 0 {
            j + 1
        } else {
            0
        },
        last_active_turn(ts.take(j + 1), i) == if slot_val(ts[j], i) > 0 {
            j + 1
        } else {
            last_active_turn(ts.take(j), i)
        },
{
    assert(ts.take(j + 1).drop_last() =~= ts.take(j));
}

/// The turn statistics stay within their natural bounds.
proof fn lemma_turn_stats_bounds(ts: Seq<TurnInfo>, i: int)
    ensures
        0 <= count_active_turns(ts, i) <= ts.len(),
        0 <= max_slot_damage(ts, i) <= u64::MAX,
        0 <= first_active_turn(ts, i) <= ts.len(),
        0 <= last_active_turn(ts, i) <= ts.len(),
    decreases ts.len(),
{
    if ts.len() > 0 {
        lemma_turn_stats_bounds(ts.drop_last(), i);
    }
}

/// How many entries in `ss` belong to avatar `id` and announce the skill
/// named `name`.
pub open spec fn count_skill_uses(ss: Seq<SkillHistoryEntry>, id: u32, name: Seq<char>) -> int
    decreases ss.len(),
{
    if ss.len() == 0 {
        0
    } else {
        count_skill_uses(ss.drop_last(), id, name) + if ss.last().avatar_id == id
            && ss.last().skill_name@ == name {
            1int
        } else {
            0int
        }
    }
}

proof fn lemma_count_skill_uses_take_succ(ss: Seq<SkillHistoryEntry>, j: int, id: u32, name: Seq<char>)
    requires
        0 <= j < ss.len(),
    ensures
        count_skill_uses(ss.take(j + 1), id, name) == count_skill_uses(ss.take(j), id, name)
            + if ss[j].avatar_id == id && ss[j].skill_name@ == name { 1int } else { 0int },
{
    assert(ss.take(j + 1).drop_last() =~= ss.take(j));
}

proof fn lemma_count_skill_uses_bounds(ss: Seq<SkillHistoryEntry>, id: u32, name: Seq<char>)
    ensures
        0 <= count_skill_uses(ss, id, name) <= ss.len(),
    decreases ss.len(),
{
    if ss.len() > 0 {
        lemma_count_skill_uses_bounds(ss.drop_last(), id, name);
    }
}

/// An entry counts its own skill name at least once.
proof fn lemma_count_skill_uses_self(ss: Seq<SkillHistoryEntry>, id: u32, m: int)
    requires
        0 <= m < ss.len(),
        ss[m].avatar_id == id,
    ensures
        count_skill_uses(ss, id, ss[m].skill_name@) >= 1,
    decreases ss.len(),
{
    lemma_count_skill_uses_bounds(ss.drop_last(), id, ss[m].skill_name@);
    if m < ss.len() - 1 {
        assert(ss.drop_last()[m] == ss[m]);
        lemma_count_skill_uses_self(ss.drop_last(), id, m);
    }
}

/// `c` is the usage count of the most-used skill of avatar `id`: the
/// count of some skill name the avatar announced, at least every other
/// name's count, and zero exactly when the avatar has no entry.
pub open spec fn is_primary_usage(ss: Seq<SkillHistoryEntry>, id: u32, c: int) -> bool {
    if crate::battle::has_skill_entry(ss, id) {
        &&& exists|m: int| 0 <= m < ss.len() && #[trigger] ss[m].avatar_id == id
            && c == count_skill_uses(ss, id, ss[m].skill_name@)
        &&& forall|m: int| 0 <= m < ss.len() && #[trigger] ss[m].avatar_id == id
            ==> count_skill_uses(ss, id, ss[m].skill_name@) <= c
    } else {
        c == 0
    }
}

/// The name of a skill-type code: the four named kinds, or `Type_` with
/// the code in decimal.
pub open spec fn spec_skill_type_name(t: u32) -> Seq<char> {
    if t == 0 {
        "Basic"@
    } else if t == 1 {
        "Skill"@
    } else if t == 2 {
        "Ultimate"@
    } else if t == 3 {
        "Talent"@
    } else {
        "Type_"@ + spec_decimal(t as int)
    }
}

/// One character-summary row: the avatar's aggregate metrics, with every
/// skill-detail field absent.
pub open spec fn char_summary_row(ctx: BattleContext, i: int, row: ComprehensiveData) -> bool {
    let rt = ctx.real_time_damages@[i];
    &&& row.data_type@ == "character_summary"@
    &&& row.character_name@ == ctx.avatar_lineup@[i].name@
    &&& row.character_id == ctx.avatar_lineup@[i].id
    &&& row.total_damage == Some(rt)
    &&& row.damage_percentage == Some(Ratio::spec_of((rt * 100) as u128, ctx.total_damage as u128))
    &&& row.dpav == Some(Ratio::spec_of(rt as u128, ctx.action_value as u128))
    &&& match row.primary_skill_usage_count {
        Some(c) => is_primary_usage(ctx.skill_history@, ctx.avatar_lineup@[i].id, c as int),
        None => false,
    }
    &&& match row.turns_taken {
        Some(t) => t == count_active_turns(ctx.turn_history@, i),
        None => false,
    }
    &&& match (row.turns_taken, row.average_damage_per_turn) {
        (Some(t), Some(a)) => a == Ratio::spec_of(rt as u128, t as u128),
        _ => false,
    }
    &&& match row.max_single_turn_damage {
        Some(m) => m == max_slot_damage(ctx.turn_history@, i),
        None => false,
    }
    &&& match row.first_turn_number {
        Some(f) => f == first_active_turn(ctx.turn_history@, i),
        None => false,
    }
    &&& match row.last_turn_number {
        Some(l) => l == last_active_turn(ctx.turn_history@, i),
        None => false,
    }
    &&& row.turn_order == None::<u32>
    &&& row.turn_battle_id == None::<u32>
    &&& row.wave == None::<u32>
    &&& row.cycle == None::<u32>
    &&& row.action_value == None::<u64>
    &&& row.skill_name is None
    &&& row.skill_type == None::<u32>
    &&& row.skill_type_name is None
    &&& row.skill_damage == None::<u64>
    &&& row.cumulative_damage == None::<u64>
    &&& row.cumulative_character_damage == None::<u64>
    &&& row.skill_damage_percentage == None::<Ratio>
}

/// One skill-detail row: the invocation's identity, its reconstructed
/// wave/cycle/action-value context, the running cumulative counters, and
/// its share of the battle total, with every summary field absent.
pub open spec fn skill_detail_row(ctx: BattleContext, j: int, row: ComprehensiveData) -> bool {
    let sk = ctx.skill_history@[j];
    let eth = ctx.entity_turn_history@;
    &&& row.data_type@ == "skill_detail"@
    &&& has_avatar(ctx.avatar_lineup@, sk.avatar_id) ==> exists|k: int|
        #[trigger] is_first_avatar_index(ctx.avatar_lineup@, sk.avatar_id, k)
        && row.character_name@ == ctx.avatar_lineup@[k].name@
    &&& !has_avatar(ctx.avatar_lineup@, sk.avatar_id) ==> row.character_name@
        == "Avatar_"@ + spec_decimal(sk.avatar_id as int)
    &&& row.character_id == sk.avatar_id
    &&& row.turn_order == Some((j + 1) as u32)
    &&& row.turn_battle_id == Some(sk.turn_battle_id)
    &&& if sk.turn_battle_id < eth.len() {
        &&& row.wave == Some(eth[sk.turn_battle_id as int].wave)
        &&& row.cycle == Some(eth[sk.turn_battle_id as int].cycle)
        &&& row.action_value == Some(eth[sk.turn_battle_id as int].action_value)
    } else {
        &&& row.wave == Some(1u32)
        &&& row.cycle == Some(1u32)
        &&& row.action_value == Some(0u64)
    }
    &&& match row.skill_name {
        Some(s) => s@ == sk.skill_name@,
        None => false,
    }
    &&& row.skill_type == Some(sk.skill_type)
    &&& match row.skill_type_name {
        Some(s) => s@ == spec_skill_type_name(sk.skill_type),
        None => false,
    }
    &&& row.skill_damage == Some(sk.total_damage)
    &&& match row.cumulative_damage {
        Some(c) => c == sum_skill_totals(ctx.skill_history@.take(j + 1)),
        None => false,
    }
    &&& match row.cumulative_character_damage {
        Some(c) => c == sum_skill_totals_of(ctx.skill_history@.take(j + 1), sk.avatar_id),
        None => false,
    }
    &&& row.skill_damage_percentage == Some(Ratio::spec_of(
        (sk.total_damage * 100) as u128,
        ctx.total_damage as u128,
    ))
    &&& row.total_damage == None::<u64>
    &&& row.damage_percentage == None::<Ratio>
    &&& row.dpav == None::<Ratio>
    &&& row.primary_skill_usage_count == None::<u32>
    &&& row.turns_taken == None::<u32>
    &&& row.average_damage_per_turn == None::<Ratio>
    &&& row.max_single_turn_damage == None::<u64>
    &&& row.first_turn_number == None::<u32>
    &&& row.last_turn_number == None::<u32>
}

/// Derives export documents and analytical datasets from a read-only
/// snapshot of the battle aggregate.
pub struct BattleDataExporter {}

impl Default for BattleDataExporter {
    fn default() -> (r: Self)
        ensures
            r == (BattleDataExporter {  }),
    {
        BattleDataExporter {  }
    }
}

impl BattleDataExporter {
    pub fn new() -> (r: Self)
        ensures
            r == (BattleDataExporter {  }),
    {
        BattleDataExporter {  }
    }

    /// The per-action-value quotient, defined as zero when the action
    /// value is zero.
    pub fn calculate_damage_per_av(total_damage: u64, action_value: u64) -> (r: Ratio)
        ensures
            r == Ratio::spec_of(total_damage as u128, action_value as u128),
            action_value == 0 ==> r.is_zero(),
    {
        Ratio::of(total_damage as u128, action_value as u128)
    }

    /// The name of a skill-type code.
    pub fn get_skill_type_name(&self, skill_type: u32) -> (r: String)
        ensures
            r@ == spec_skill_type_name(skill_type),
    {
        proof {
            reveal_strlit("Basic");
            reveal_strlit("Skill");
            reveal_strlit("Ultimate");
            reveal_strlit("Talent");
        }
        if skill_type == 0 {
            String::from_str("Basic")
        } else if skill_type == 1 {
            String::from_str("Skill")
        } else if skill_type == 2 {
            String::from_str("Ultimate")
        } else if skill_type == 3 {
            String::from_str("Talent")
        } else {
            let mut s = String::from_str("Type_");
            let num = u32_to_string(skill_type);
            s.append(num.as_str());
            s
        }
    }

    /// The first matching battle entity's stats for `uid`, if any.
    fn find_stats(es: &Vec<BattleEntity>, uid: u32) -> (s: Option<StatsSnapshot>)
        ensures
            stats_lookup_matches(es@, uid, s),
    {
        let n = es.len();
        for k in 0..n
            invariant
                n == es@.len(),
                forall|j: int| 0 <= j < k ==> #[trigger] es@[j].entity.uid != uid,
        {
            if es[k].entity.uid == uid {
                let bs = es[k].battle_stats;
                proof {
                    assert(is_first_uid_index(es@, uid, k as int));
                }
                return Some(StatsSnapshot {
                    hp: bs.hp,
                    attack: bs.attack,
                    defense: bs.defense,
                    speed: bs.speed,
                    av: bs.av,
                });
            }
        }
        None
    }

    /// The singleton stats history of a present snapshot, or none.
    fn create_stats_history(stats: &Option<StatsSnapshot>) -> (h: Vec<ExportStatsHistory>)
        ensures
            stats_history_matches(*stats, h@),
    {
        let mut h: Vec<ExportStatsHistory> = Vec::new();
        match stats {
            Some(snap) => {
                h.push(ExportStatsHistory { stats: *snap, turn_battle_id: 0 });
            },
            None => {},
        }
        h
    }

    /// Derives the structured export document from the aggregate: the
    /// lineup roster, the sentinel-prefixed turn-order projection, the
    /// full skill history, the rollup totals with their exact
    /// per-action-value quotient, and the per-avatar and per-enemy detail
    /// records.
    pub fn export_battle_data(&self, battle_context: &BattleContext, version: &str) -> (d:
        ExportBattleData)
        requires
            battle_context.enemies@.len() <= u32::MAX,
        ensures
            d.lineup@.len() == battle_context.avatar_lineup@.len(),
            forall|i: int| 0 <= i < d.lineup@.len() ==> #[trigger] d.lineup@[i]
                == (ExportAvatarBattleInfo {
                avatar_id: battle_context.avatar_lineup@[i].id,
                is_die: false,
            }),
            d.turn_history@.len() == battle_context.entity_turn_history@.len() + 1,
            d.turn_history@[0] == (ExportTurnBattleInfo {
                avatar_id: -1i64,
                action_value: 0,
                wave_index: battle_context.wave,
                cycle_index: battle_context.max_cycle,
            }),
            forall|i: int| 0 <= i < battle_context.entity_turn_history@.len()
                ==> #[trigger] d.turn_history@[i + 1] == (ExportTurnBattleInfo {
                avatar_id: battle_context.entity_turn_history@[i].entity.uid as i64,
                action_value: battle_context.entity_turn_history@[i].action_value,
                wave_index: battle_context.entity_turn_history@[i].wave,
                cycle_index: battle_context.entity_turn_history@[i].cycle,
            }),
            d.skill_history@.len() == battle_context.skill_history@.len(),
            forall|k: int| 0 <= k < d.skill_history@.len() ==> export_skill_matches(
                #[trigger] battle_context.skill_history@[k],
                d.skill_history@[k],
            ),
            d.total_av == battle_context.action_value,
            d.total_damage == battle_context.total_damage,
            d.damage_per_av == Ratio::spec_of(
                battle_context.total_damage as u128,
                battle_context.action_value as u128,
            ),
            d.cycle_index == battle_context.cycle,
            d.wave_index == battle_context.wave,
            d.max_wave == battle_context.max_waves,
            d.max_cycle == battle_context.max_cycle,
            d.version@ == version@,
            d.avatar_detail@.len() == battle_context.avatar_lineup@.len(),
            forall|i: int| 0 <= i < d.avatar_detail@.len() ==> {
                let det = #[trigger] d.avatar_detail@[i];
                &&& det.id == battle_context.avatar_lineup@[i].id
                &&& det.is_die == false
                &&& det.killer_uid == -1
                &&& stats_lookup_matches(
                    battle_context.battle_avatars@,
                    battle_context.avatar_lineup@[i].id,
                    det.stats,
                )
                &&& stats_history_matches(det.stats, det.stats_history@)
            },
            d.enemy_detail@.len() == battle_context.enemies@.len(),
            forall|i: int| 0 <= i < d.enemy_detail@.len() ==> {
                let det = #[trigger] d.enemy_detail@[i];
                &&& det.id == battle_context.enemies@[i].id
                &&& det.is_die == false
                &&& det.killer_uid == -1
                &&& det.position_index == i
                &&& det.wave_index == battle_context.wave
                &&& det.name@ == battle_context.enemies@[i].name@
                &&& det.max_hp == battle_context.enemies@[i].base_stats.hp
                &&& det.level == battle_context.enemies@[i].base_stats.level
                &&& stats_lookup_matches(
                    battle_context.battle_enemies@,
                    battle_context.enemies@[i].uid,
                    det.stats,
                )
                &&& stats_history_matches(det.stats, det.stats_history@)
            },
    {
        let mut lineup: Vec<ExportAvatarBattleInfo> = Vec::new();
        let n = battle_context.avatar_lineup.len();
        for k in 0..n
            invariant
                n == battle_context.avatar_lineup@.len(),
                lineup@.len() == k,
                forall|i: int| 0 <= i < k ==> #[trigger] lineup@[i] == (ExportAvatarBattleInfo {
                    avatar_id: battle_context.avatar_lineup@[i].id,
                    is_die: false,
                }),
        {
            lineup.push(ExportAvatarBattleInfo {
                avatar_id: battle_context.avatar_lineup[k].id,
                is_die: false,
            });
        }

        let mut turn_history: Vec<ExportTurnBattleInfo> = Vec::new();
        turn_history.push(ExportTurnBattleInfo {
            avatar_id: -1i64,
            action_value: 0,
            wave_index: battle_context.wave,
            cycle_index: battle_context.max_cycle,
        });
        let eth_len = battle_context.entity_turn_history.len();
        for k in 0..eth_len
            invariant
                eth_len == battle_context.entity_turn_history@.len(),
                turn_history@.len() == k + 1,
                turn_history@[0] == (ExportTurnBattleInfo {
                    avatar_id: -1i64,
                    action_value: 0,
                    wave_index: battle_context.wave,
                    cycle_index: battle_context.max_cycle,
                }),
                forall|i: int| 0 <= i < k ==> #[trigger] turn_history@[i + 1]
                    == (ExportTurnBattleInfo {
                    avatar_id: battle_context.entity_turn_history@[i].entity.uid as i64,
                    action_value: battle_context.entity_turn_history@[i].action_value,
                    wave_index: battle_context.entity_turn_history@[i].wave,
                    cycle_index: battle_context.entity_turn_history@[i].cycle,
                }),
        {
            let rec = &battle_context.entity_turn_history[k];
            turn_history.push(ExportTurnBattleInfo {
                avatar_id: rec.entity.uid as i64,
                action_value: rec.action_value,
                wave_index: rec.wave,
                cycle_index: rec.cycle,
            });
        }

        let mut skill_history: Vec<ExportSkillBattleInfo> = Vec::new();
        let sk_len = battle_context.skill_history.len();
        for k in 0..sk_len
            invariant
                sk_len == battle_context.skill_history@.len(),
                skill_history@.len() == k,
                forall|i: int| 0 <= i < k ==> export_skill_matches(
                    #[trigger] battle_context.skill_history@[i],
                    skill_history@[i],
                ),
        {
            let src = &battle_context.skill_history[k];
            let mut detail: Vec<ExportDamageDetail> = Vec::new();
            let dn = src.damage_detail.len();
            for j in 0..dn
                invariant
                    dn == src.damage_detail@.len(),
                    detail@.len() == j,
                    forall|m: int| 0 <= m < j ==> #[trigger] detail@[m] == (ExportDamageDetail {
                        damage: src.damage_detail@[m].damage,
                        damage_type: src.damage_detail@[m].damage_type,
                    }),
            {
                detail.push(ExportDamageDetail {
                    damage: src.damage_detail[j].damage,
                    damage_type: src.damage_detail[j].damage_type,
                });
            }
            skill_history.push(ExportSkillBattleInfo {
                avatar_id: src.avatar_id,
                damage_detail: detail,
                total_damage: src.total_damage,
                skill_type: src.skill_type,
                skill_name: src.skill_name.clone(),
                turn_battle_id: src.turn_battle_id,
            });
        }

        let mut avatar_detail: Vec<ExportAvatarDetail> = Vec::new();
        for k in 0..n
            invariant
                n == battle_context.avatar_lineup@.len(),
                avatar_detail@.len() == k,
                forall|i: int| 0 <= i < k ==> {
                    let det = #[trigger] avatar_detail@[i];
                    &&& det.id == battle_context.avatar_lineup@[i].id
                    &&& det.is_die == false
                    &&& det.killer_uid == -1
                    &&& stats_lookup_matches(
                        battle_context.battle_avatars@,
                        battle_context.avatar_lineup@[i].id,
                        det.stats,
                    )
                    &&& stats_history_matches(det.stats, det.stats_history@)
                },
        {
            let id = battle_context.avatar_lineup[k].id;
            let stats = Self::find_stats(&battle_context.battle_avatars, id);
            let stats_history = Self::create_stats_history(&stats);
            avatar_detail.push(ExportAvatarDetail {
                id,
                is_die: false,
                killer_uid: -1i32,
                stats,
                stats_history,
            });
        }

        let mut enemy_detail: Vec<ExportEnemyDetail> = Vec::new();
        let en = battle_context.enemies.len();
        for k in 0..en
            invariant
                en == battle_context.enemies@.len(),
                en <= u32::MAX,
                enemy_detail@.len() == k,
                forall|i: int| 0 <= i < k ==> {
                    let det = #[trigger] enemy_detail@[i];
                    &&& det.id == battle_context.enemies@[i].id
                    &&& det.is_die == false
                    &&& det.killer_uid == -1
                    &&& det.position_index == i
                    &&& det.wave_index == battle_context.wave
                    &&& det.name@ == battle_context.enemies@[i].name@
                    &&& det.max_hp == battle_context.enemies@[i].base_stats.hp
                    &&& det.level == battle_context.enemies@[i].base_stats.level
                    &&& stats_lookup_matches(
                        battle_context.battle_enemies@,
                        battle_context.enemies@[i].uid,
                        det.stats,
                    )
                    &&& stats_history_matches(det.stats, det.stats_history@)
                },
        {
            let enemy = &battle_context.enemies[k];
            let stats = Self::find_stats(&battle_context.battle_enemies, enemy.uid);
            let stats_history = Self::create_stats_history(&stats);
            enemy_detail.push(ExportEnemyDetail {
                id: enemy.id,
                is_die: false,
                killer_uid: -1i32,
                position_index: k as u32,
                wave_index: battle_context.wave,
                name: enemy.name.clone(),
                max_hp: enemy.base_stats.hp,
                level: enemy.base_stats.level,
                stats,
                stats_history,
            });
        }

        ExportBattleData {
            lineup,
            turn_history,
            skill_history,
            total_av: battle_context.action_value,
            total_damage: battle_context.total_damage,
            damage_per_av: Self::calculate_damage_per_av(
                battle_context.total_damage,
                battle_context.action_value,
            ),
            cycle_index: battle_context.cycle,
            wave_index: battle_context.wave,
            max_wave: battle_context.max_waves,
            max_cycle: battle_context.max_cycle,
            version: String::from_str(version),
            avatar_detail,
            enemy_detail,
        }
    }

    /// Counts how often avatar `id` announced the skill named `name`.
    fn count_uses(ss: &Vec<SkillHistoryEntry>, id: u32, name: &String) -> (c: u32)
        requires
            ss@.len() < u32::MAX,
        ensures
            c == count_skill_uses(ss@, id, name@),
    {
        let mut c: u32 = 0;
        let n = ss.len();
        for k in 0..n
            invariant
                n == ss@.len() < u32::MAX,
                c == count_skill_uses(ss@.take(k as int), id, name@),
                c <= k,
        {
            proof {
                lemma_count_skill_uses_take_succ(ss@, k as int, id, name@);
            }
            if ss[k].avatar_id == id && ss[k].skill_name == *name {
                c = c + 1;
            }
        }
        proof {
            assert(ss@.take(n as int) =~= ss@);
        }
        c
    }

    /// The usage count of the most-used skill of avatar `id`, zero when
    /// the avatar announced none.
    fn primary_skill_usage(ss: &Vec<SkillHistoryEntry>, id: u32) -> (c: u32)
        requires
            ss@.len() < u32::MAX,
        ensures
            is_primary_usage(ss@, id, c as int),
    {
        let mut best: u32 = 0;
        let n = ss.len();
        for k in 0..n
            invariant
                n == ss@.len() < u32::MAX,
                forall|m: int| 0 <= m < k && #[trigger] ss@[m].avatar_id == id
                    ==> count_skill_uses(ss@, id, ss@[m].skill_name@) <= best,
                best != 0 ==> exists|m: int| 0 <= m < ss@.len() && #[trigger] ss@[m].avatar_id
                    == id && best == count_skill_uses(ss@, id, ss@[m].skill_name@),
                best == 0 ==> forall|m: int| 0 <= m < k ==> #[trigger] ss@[m].avatar_id != id,
        {
            if ss[k].avatar_id == id {
                let c = Self::count_uses(ss, id, &ss[k].skill_name);
                proof {
                    lemma_count_skill_uses_self(ss@, id, k as int);
                }
                if c > best {
                    best = c;
                }
            }
        }
        proof {
            if crate::battle::has_skill_entry(ss@, id) {
                let m0 = choose|m: int| 0 <= m < ss@.len() && #[trigger] ss@[m].avatar_id == id;
                lemma_count_skill_uses_self(ss@, id, m0);
                assert(count_skill_uses(ss@, id, ss@[m0].skill_name@) <= best);
                assert(best != 0);
            } else {
                if best != 0 {
                    let m0 = choose|m: int| 0 <= m < ss@.len() && #[trigger] ss@[m].avatar_id
                        == id && best == count_skill_uses(ss@, id, ss@[m].skill_name@);
                    assert(crate::battle::has_skill_entry(ss@, id));
                }
            }
        }
        best
    }

    /// Computes, for lineup position `i`, how many closed turns dealt
    /// damage, the largest single-turn damage, and the one-based numbers
    /// of the first and last active turns.
    fn turn_stats_for(ts: &Vec<TurnInfo>, i: usize) -> (r: (u32, u64, u32, u32))
        requires
            ts@.len() < u32::MAX,
        ensures
            r.0 == count_active_turns(ts@, i as int),
            r.1 == max_slot_damage(ts@, i as int),
            r.2 == first_active_turn(ts@, i as int),
            r.3 == last_active_turn(ts@, i as int),
    {
        let mut count: u32 = 0;
        let mut maxv: u64 = 0;
        let mut first: u32 = 0;
        let mut last: u32 = 0;
        let n = ts.len();
        for j in 0..n
            invariant
                n == ts@.len() < u32::MAX,
                count == count_active_turns(ts@.take(j as int), i as int),
                count <= j,
                maxv == max_slot_damage(ts@.take(j as int), i as int),
                first == first_active_turn(ts@.take(j as int), i as int),
                last == last_active_turn(ts@.take(j as int), i as int),
        {
            proof {
                lemma_turn_stats_take_succ(ts@, i as int, j as int);
                lemma_turn_stats_bounds(ts@.take(j as int), i as int);
            }
            let turn = &ts[j];
            let slot: u64 = if i < turn.avatars_turn_damage.len() {
                turn.avatars_turn_damage[i]
            } else {
                0
            };
            proof {
                assert(slot == slot_val(ts@[j as int], i as int));
            }
            if slot > 0 {
                count = count + 1;
                if first == 0 {
                    first = j as u32 + 1;
                }
                last = j as u32 + 1;
                if slot > maxv {
                    maxv = slot;
                }
            }
        }
        proof {
            assert(ts@.take(n as int) =~= ts@);
        }
        (count, maxv, first, last)
    }

    /// The running battle-wide cumulative damage over the first `upto`
    /// skill entries.
    fn cumulative_damage_upto(ss: &Vec<SkillHistoryEntry>, upto: usize) -> (c: u64)
        requires
            upto <= ss@.len(),
            sum_skill_totals(ss@) <= u64::MAX,
        ensures
            c == sum_skill_totals(ss@.take(upto as int)),
    {
        let mut c: u64 = 0;
        for k in 0..upto
            invariant
                upto <= ss@.len(),
                sum_skill_totals(ss@) <= u64::MAX,
                c == sum_skill_totals(ss@.take(k as int)),
        {
            proof {
                lemma_sum_skill_totals_take_succ(ss@, k as int);
                lemma_sum_skill_totals_take_le(ss@, k as int + 1);
                crate::sums::lemma_sum_skill_totals_nonneg(ss@.take(k as int));
            }
            c = c + ss[k].total_damage;
        }
        c
    }

    /// The running per-avatar cumulative damage over the first `upto`
    /// skill entries.
    fn cumulative_character_damage_upto(ss: &Vec<SkillHistoryEntry>, upto: usize, id: u32) -> (c:
        u64)
        requires
            upto <= ss@.len(),
            sum_skill_totals(ss@) <= u64::MAX,
        ensures
            c == sum_skill_totals_of(ss@.take(upto as int), id),
    {
        let mut c: u64 = 0;
        for k in 0..upto
            invariant
                upto <= ss@.len(),
                sum_skill_totals(ss@) <= u64::MAX,
                c == sum_skill_totals_of(ss@.take(k as int), id),
        {
            proof {
                lemma_sum_skill_totals_of_take_succ(ss@, k as int, id);
                lemma_sum_skill_totals_of_le(ss@.take(k as int + 1), id);
                lemma_sum_skill_totals_take_le(ss@, k as int + 1);
            }
            if ss[k].avatar_id == id {
                c = c + ss[k].total_damage;
            }
        }
        c
    }

    /// The display name for an avatar id: the first lineup match, or a
    /// placeholder naming the id.
    fn avatar_name_for(lineup: &Vec<Avatar>, id: u32) -> (s: String)
        ensures
            has_avatar(lineup@, id) ==> exists|k: int|
                #[trigger] is_first_avatar_index(lineup@, id, k) && s@ == lineup@[k].name@,
            !has_avatar(lineup@, id) ==> s@ == "Avatar_"@ + spec_decimal(id as int),
    {
        let n = lineup.len();
        for k in 0..n
            invariant
                n == lineup@.len(),
                forall|j: int| 0 <= j < k ==> #[trigger] lineup@[j].id != id,
        {
            if lineup[k].id == id {
                proof {
                    assert(is_first_avatar_index(lineup@, id, k as int));
                }
                return lineup[k].name.clone();
            }
        }
        let mut s = String::from_str("Avatar_");
        let num = u32_to_string(id);
        s.append(num.as_str());
        s
    }

    /// Derives the flattened analytical dataset: one character-summary
    /// row per lineup avatar, followed by one skill-detail row per skill
    /// invocation, in order.
    pub fn generate_comprehensive_chart_data(&self, battle_context: &BattleContext) -> (rows:
        Vec<ComprehensiveData>)
        requires
            battle_context.wf(),
            battle_context.turn_history@.len() < u32::MAX,
            battle_context.skill_history@.len() < u32::MAX,
        ensures
            rows@.len() == battle_context.avatar_lineup@.len()
                + battle_context.skill_history@.len(),
            forall|i: int| 0 <= i < battle_context.avatar_lineup@.len() ==> char_summary_row(
                *battle_context,
                i,
                #[trigger] rows@[i],
            ),
            forall|j: int| 0 <= j < battle_context.skill_history@.len() ==> skill_detail_row(
                *battle_context,
                j,
                #[trigger] rows@[battle_context.avatar_lineup@.len() + j],
            ),
    {
        let mut rows: Vec<ComprehensiveData> = Vec::new();
        let n = battle_context.avatar_lineup.len();

        for i in 0..n
            invariant
                n == battle_context.avatar_lineup@.len(),
                battle_context.wf(),
                battle_context.turn_history@.len() < u32::MAX,
                battle_context.skill_history@.len() < u32::MAX,
                rows@.len() == i,
                forall|m: int| 0 <= m < i ==> char_summary_row(
                    *battle_context,
                    m,
                    #[trigger] rows@[m],
                ),
        {
            let avatar = &battle_context.avatar_lineup[i];
            let rt = battle_context.real_time_damages[i];
            let damage_percentage = Ratio::of(
                (rt as u128) * 100,
                battle_context.total_damage as u128,
            );
            let dpav = Ratio::of(rt as u128, battle_context.action_value as u128);
            let primary = Self::primary_skill_usage(&battle_context.skill_history, avatar.id);
            let stats = Self::turn_stats_for(&battle_context.turn_history, i);
            let average = Ratio::of(rt as u128, stats.0 as u128);
            rows.push(ComprehensiveData {
                data_type: String::from_str("character_summary"),
                character_name: avatar.name.clone(),
                character_id: avatar.id,
                total_damage: Some(rt),
                damage_percentage: Some(damage_percentage),
                dpav: Some(dpav),
                primary_skill_usage_count: Some(primary),
                turns_taken: Some(stats.0),
                average_damage_per_turn: Some(average),
                max_single_turn_damage: Some(stats.1),
                first_turn_number: Some(stats.2),
                last_turn_number: Some(stats.3),
                turn_order: None,
                turn_battle_id: None,
                wave: None,
                cycle: None,
                action_value: None,
                skill_name: None,
                skill_type: None,
                skill_type_name: None,
                skill_damage: None,
                cumulative_damage: None,
                cumulative_character_damage: None,
                skill_damage_percentage: None,
            });
        }

        let m = battle_context.skill_history.len();
        for j in 0..m
            invariant
                n == battle_context.avatar_lineup@.len(),
                m == battle_context.skill_history@.len(),
                battle_context.wf(),
                battle_context.skill_history@.len() < u32::MAX,
                rows@.len() == n + j,
                forall|i: int| 0 <= i < n ==> char_summary_row(
                    *battle_context,
                    i,
                    #[trigger] rows@[i],
                ),
                forall|i: int| 0 <= i < j ==> skill_detail_row(
                    *battle_context,
                    i,
                    #[trigger] rows@[n + i],
                ),
        {
            let skill = &battle_context.skill_history[j];
            let cumulative = Self::cumulative_damage_upto(&battle_context.skill_history, j + 1);
            let char_cumulative = Self::cumulative_character_damage_upto(
                &battle_context.skill_history,
                j + 1,
                skill.avatar_id,
            );
            let tb = skill.turn_battle_id;
            let in_range = (tb as usize) < battle_context.entity_turn_history.len();
            let wave: u32 = if in_range {
                battle_context.entity_turn_history[tb as usize].wave
            } else {
                1
            };
            let cycle: u32 = if in_range {
                battle_context.entity_turn_history[tb as usize].cycle
            } else {
                1
            };
            let action_value: u64 = if in_range {
                battle_context.entity_turn_history[tb as usize].action_value
            } else {
                0
            };
            let character_name = Self::avatar_name_for(
                &battle_context.avatar_lineup,
                skill.avatar_id,
            );
            let percentage = Ratio::of(
                (skill.total_damage as u128) * 100,
                battle_context.total_damage as u128,
            );
            rows.push(ComprehensiveData {
                data_type: String::from_str("skill_detail"),
                character_name,
                character_id: skill.avatar_id,
                total_damage: None,
                damage_percentage: None,
                dpav: None,
                primary_skill_usage_count: None,
                turns_taken: None,
                average_damage_per_turn: None,
                max_single_turn_damage: None,
                first_turn_number: None,
                last_turn_number: None,
                turn_order: Some(j as u32 + 1),
                turn_battle_id: Some(tb),
                wave: Some(wave),
                cycle: Some(cycle),
                action_value: Some(action_value),
                skill_name: Some(skill.skill_name.clone()),
                skill_type: Some(skill.skill_type),
                skill_type_name: Some(self.get_skill_type_name(skill.skill_type)),
                skill_damage: Some(skill.total_damage),
                cumulative_damage: Some(cumulative),
                cumulative_character_damage: Some(char_cumulative),
                skill_damage_percentage: Some(percentage),
            });
        }
        rows
    }
}

} // verus!
