//! The battle event aggregation engine: the single battle-state aggregate,
//! one handler per event variant, and the turn/wave/cycle bookkeeping and
//! running statistics they maintain.
//!
//! The aggregate's well-formedness invariant ties every running total to
//! the event stream that produced it: the battle total equals the sum of
//! the per-avatar running damages, every closed turn's total equals the sum
//! of its per-avatar vector, and the action-value history is an exact
//! coalescing of the turn history.

use vstd::prelude::*;
use crate::models::{
    Avatar, BattleEntity, BattleStats, DamageDetail, Enemy, Entity, Event, Packet,
    SkillHistoryEntry, Stat, Team, TurnInfo, TurnOrderRecord, OnBattleBeginEvent,
    OnDamageEvent, OnEntityDefeatedEvent, OnInitializeEnemyEvent, OnSetLineupEvent,
    OnStatChangeEvent, OnTurnBeginEvent, OnUpdateCycleEvent, OnUpdateTeamFormationEvent,
    OnUpdateWaveEvent, OnUseSkillEvent, avatars_eq, copy_avatars, copy_entities, copy_enemy,
    copy_turn_info, copy_turn_infos, turns_eq,
};
use crate::sums::{
    lemma_sum_skill_totals_elem_le, lemma_sum_skill_totals_push, lemma_sum_skill_totals_update,
    lemma_sum_slot_elem_le, lemma_sum_slot_nonneg, lemma_sum_slot_push, lemma_sum_slot_update,
    lemma_sum_details_push, lemma_sum_u64_all_zero, lemma_sum_u64_elem_le,
    lemma_sum_u64_le_pointwise, lemma_sum_u64_nonneg, lemma_sum_u64_take_all,
    lemma_sum_u64_take_le, lemma_sum_u64_take_succ, lemma_sum_u64_update,
    sum_details, sum_skill_totals, sum_slot, sum_u64,
};
use crate::text::{spec_decimal, u32_to_string};

verus! {

/// Battle lifecycle: set to `Started` at lineup time, to `Ended` at battle
/// end, absent before the first lineup.
#[derive(Clone, Copy, Debug, PartialEq, Eq, Structural)]
pub enum BattleState {
    Started,
    Ended,
}

/// The battle-mode category of a stage.
#[derive(Clone, Copy, Debug, PartialEq, Eq, Structural)]
pub enum BattleMode {
    MOC,
    PF,
    AS,
    AA,
    Other,
}

/// The stage-id buckets loaded from external configuration. Only the
/// `MOC`, `PF` and `AA` buckets are recognized; any other bucket name in
/// the configuration resource is ignored by the loader.
pub struct ModeConfig {
    pub moc: Vec<u32>,
    pub pf: Vec<u32>,
    pub aa: Vec<u32>,
}

impl ModeConfig {
    /// The empty mapping, the fallback when the resource cannot be loaded.
    pub fn empty() -> (c: ModeConfig)
        ensures
            c.moc@ == Seq::<u32>::empty(),
            c.pf@ == Seq::<u32>::empty(),
            c.aa@ == Seq::<u32>::empty(),
    {
        ModeConfig { moc: Vec::new(), pf: Vec::new(), aa: Vec::new() }
    }
}

/// The mode a stage id classifies as: a configured bucket wins, and a
/// stage id in no bucket falls back to the fixed numeric-range rule for
/// `AS`, then to `Other`.
pub open spec fn spec_battle_mode(cfg: &ModeConfig, stage_id: u32) -> BattleMode {
    if cfg.moc@.contains(stage_id) {
        BattleMode::MOC
    } else if cfg.pf@.contains(stage_id) {
        BattleMode::PF
    } else if cfg.aa@.contains(stage_id) {
        BattleMode::AA
    } else if 420101 <= stage_id <= 420999 {
        BattleMode::AS
    } else {
        BattleMode::Other
    }
}

/// True when the id list holds `id`.
fn id_list_contains(v: &Vec<u32>, id: u32) -> (r: bool)
    ensures
        r == v@.contains(id),
{
    let n = v.len();
    for k in 0..n
        invariant
            n == v@.len(),
            forall|i: int| 0 <= i < k ==> v@[i] != id,
    {
        if v[k] == id {
            return true;
        }
    }
    false
}

/// A stat record after one stat-change update; unrecognized stat kinds
/// leave the record unchanged.
pub open spec fn apply_stat(s: BattleStats, st: Stat) -> BattleStats {
    match st {
        Stat::HP(v) => BattleStats { hp: v, ..s },
        Stat::Attack(v) => BattleStats { attack: v, ..s },
        Stat::Defense(v) => BattleStats { defense: v, ..s },
        Stat::Speed(v) => BattleStats { speed: v, ..s },
        Stat::AV(v) => BattleStats { av: v, ..s },
        Stat::Other(_) => s,
    }
}

/// `k` is the first position in `es` holding `ent`.
pub open spec fn is_first_entity_index(es: Seq<BattleEntity>, ent: Entity, k: int) -> bool {
    &&& 0 <= k < es.len()
    &&& es[k].entity == ent
    &&& forall|j: int| 0 <= j < k ==> #[trigger] es[j].entity != ent
}

/// Some position in `es` holds `ent`.
pub open spec fn has_entity(es: Seq<BattleEntity>, ent: Entity) -> bool {
    exists|k: int| 0 <= k < es.len() && #[trigger] es[k].entity == ent
}

/// `b` is `a` with `st` applied to the first record of `ent`, or `a`
/// itself when no record of `ent` exists.
pub open spec fn entities_stat_applied(
    a: Seq<BattleEntity>,
    b: Seq<BattleEntity>,
    ent: Entity,
    st: Stat,
) -> bool {
    if has_entity(a, ent) {
        exists|k: int|
            #[trigger] is_first_entity_index(a, ent, k) && b == a.update(
                k,
                BattleEntity { entity: a[k].entity, battle_stats: apply_stat(a[k].battle_stats, st) },
            )
    } else {
        b == a
    }
}

/// `i` is the first lineup position whose avatar carries `id`.
pub open spec fn is_first_avatar_index(s: Seq<Avatar>, id: u32, i: int) -> bool {
    &&& 0 <= i < s.len()
    &&& s[i].id == id
    &&& forall|j: int| 0 <= j < i ==> #[trigger] s[j].id != id
}

/// Some lineup position carries `id`.
pub open spec fn has_avatar(s: Seq<Avatar>, id: u32) -> bool {
    exists|k: int| 0 <= k < s.len() && #[trigger] s[k].id == id
}

/// `k` is the position of the most recent skill entry of avatar `id`.
pub open spec fn is_last_skill_index(ss: Seq<SkillHistoryEntry>, id: u32, k: int) -> bool {
    &&& 0 <= k < ss.len()
    &&& ss[k].avatar_id == id
    &&& forall|j: int| k < j < ss.len() ==> #[trigger] ss[j].avatar_id != id
}

/// Avatar `id` has at least one skill entry in `ss`.
pub open spec fn has_skill_entry(ss: Seq<SkillHistoryEntry>, id: u32) -> bool {
    exists|k: int| 0 <= k < ss.len() && #[trigger] ss[k].avatar_id == id
}

/// `post` is `pre` with one damage tick of `dmg`/`ty` appended to the
/// entry at `k`: its running total grows by `dmg`, its detail list gains
/// the tick, everything else is untouched.
pub open spec fn skill_entry_ticked(
    pre: Seq<SkillHistoryEntry>,
    post: Seq<SkillHistoryEntry>,
    k: int,
    dmg: u64,
    ty: i64,
) -> bool {
    &&& post.len() == pre.len()
    &&& forall|j: int| 0 <= j < pre.len() && j != k ==> #[trigger] post[j] == pre[j]
    &&& post[k].avatar_id == pre[k].avatar_id
    &&& post[k].skill_name == pre[k].skill_name
    &&& post[k].skill_type == pre[k].skill_type
    &&& post[k].turn_battle_id == pre[k].turn_battle_id
    &&& post[k].total_damage == pre[k].total_damage + dmg
    &&& post[k].damage_detail@ == pre[k].damage_detail@.push(
        DamageDetail { damage: dmg, damage_type: ty },
    )
}

/// Damage-to-skill association by recency: the tick lands on the most
/// recent entry of the attacking avatar, if it has one.
pub open spec fn skill_damage_attributed(
    pre: Seq<SkillHistoryEntry>,
    post: Seq<SkillHistoryEntry>,
    id: u32,
    dmg: u64,
    ty: i64,
) -> bool {
    if has_skill_entry(pre, id) {
        exists|k: int| #[trigger] is_last_skill_index(pre, id, k) && skill_entry_ticked(
            pre, post, k, dmg, ty,
        )
    } else {
        post == pre
    }
}

/// The error message a damage event with an unknown attacker reports.
pub open spec fn damage_error_msg(uid: u32) -> Seq<char> {
    "Could not find avatar "@ + spec_decimal(uid as int) + " in lineup"@
}

/// Battle begin records the wave cap and the stage, and classifies the
/// stage's mode; it never clobbers in-progress accumulation, because in
/// some flows it fires after the lineup is already established.
pub open spec fn battle_begin_spec(
    pre: BattleContext,
    post: BattleContext,
    max_waves: u32,
    stage_id: u32,
) -> bool {
    post == BattleContext {
        max_waves: max_waves,
        stage_id: stage_id,
        battle_mode: spec_battle_mode(&pre.mode_config, stage_id),
        ..pre
    }
}

/// Lineup set is the canonical new-battle boundary: histories, enemy
/// lists and counters are reset, the per-avatar vectors are re-sized to
/// the new lineup, and one zeroed battle entity is built per avatar.
pub open spec fn set_lineup_spec(pre: BattleContext, post: BattleContext, avatars: Seq<Avatar>) -> bool {
    let n = avatars.len() as int;
    &&& post.state == Some(BattleState::Started)
    &&& post.avatar_lineup@ == avatars
    &&& post.battle_avatars@.len() == n
    &&& forall|k: int| 0 <= k < n ==> #[trigger] post.battle_avatars@[k] == (BattleEntity {
        entity: Entity { uid: avatars[k].id, team: Team::Player },
        battle_stats: BattleStats { hp: 0, attack: 0, defense: 0, speed: 0, av: 0 },
    })
    &&& post.enemies@.len() == 0
    &&& post.enemy_lineup@.len() == 0
    &&& post.battle_enemies@.len() == 0
    &&& post.turn_history@.len() == 0
    &&& post.av_history@.len() == 0
    &&& post.entity_turn_history@.len() == 0
    &&& post.skill_history@.len() == 0
    &&& post.last_wave_action_value == 0
    &&& post.action_value == 0
    &&& post.current_turn_info.avatars_turn_damage@ == Seq::new(n as nat, |i: int| 0u64)
    &&& post.current_turn_info.action_value == 0
    &&& post.current_turn_info.wave == 0
    &&& post.current_turn_info.cycle == 0
    &&& post.current_turn_info.total_damage == 0
    &&& post.turn_count == 0
    &&& post.turn_battle_count == 0
    &&& post.total_damage == 0
    &&& post.real_time_damages@ == Seq::new(n as nat, |i: int| 0u64)
    &&& post.max_waves == 0
    &&& post.wave == 0
    &&& post.cycle == 0
    &&& post.max_cycle == 0
    &&& post.stage_id == 0
    &&& post.battle_mode == pre.battle_mode
    &&& post.mode_config == pre.mode_config
}

/// A damage event whose attacker sits at lineup position `i`: the open
/// turn's slot, the running per-avatar damage and the battle total all
/// grow by the amount, and the tick is attributed to the attacker's most
/// recent skill entry.
pub open spec fn damage_hit_spec(
    pre: BattleContext,
    post: BattleContext,
    i: int,
    uid: u32,
    dmg: u64,
    ty: i64,
) -> bool {
    &&& post == BattleContext {
        current_turn_info: post.current_turn_info,
        real_time_damages: post.real_time_damages,
        total_damage: post.total_damage,
        skill_history: post.skill_history,
        ..pre
    }
    &&& post.current_turn_info == TurnInfo {
        avatars_turn_damage: post.current_turn_info.avatars_turn_damage,
        ..pre.current_turn_info
    }
    &&& post.current_turn_info.avatars_turn_damage@
        == pre.current_turn_info.avatars_turn_damage@.update(
        i,
        (pre.current_turn_info.avatars_turn_damage@[i] + dmg) as u64,
    )
    &&& post.real_time_damages@ == pre.real_time_damages@.update(
        i,
        (pre.real_time_damages@[i] + dmg) as u64,
    )
    &&& post.total_damage == pre.total_damage + dmg
    &&& skill_damage_attributed(pre.skill_history@, post.skill_history@, uid, dmg, ty)
}

/// Turn begin stamps the action value, counts the turn-begin ordinal, and
/// appends the owner (when announced) to the entity-turn-order history.
pub open spec fn turn_begin_spec(
    pre: BattleContext,
    post: BattleContext,
    av: u64,
    owner: Option<Entity>,
) -> bool {
    &&& post == BattleContext {
        action_value: av,
        current_turn_info: post.current_turn_info,
        turn_battle_count: (pre.turn_battle_count + 1) as u64,
        entity_turn_history: post.entity_turn_history,
        ..pre
    }
    &&& post.current_turn_info == TurnInfo { action_value: av, ..pre.current_turn_info }
    &&& match owner {
        Some(o) => post.entity_turn_history@ == pre.entity_turn_history@.push(
            TurnOrderRecord { entity: o, action_value: av, wave: pre.wave, cycle: pre.cycle },
        ),
        None => post.entity_turn_history@ == pre.entity_turn_history@,
    }
}

/// The turn that closes when a turn-end event arrives in state `pre`.
pub open spec fn closed_turn_matches(pre: BattleContext, t: TurnInfo) -> bool {
    &&& t.avatars_turn_damage@ == pre.current_turn_info.avatars_turn_damage@
    &&& t.action_value == pre.current_turn_info.action_value
    &&& t.wave == pre.wave
    &&& t.cycle == pre.cycle
    &&& t.total_damage == sum_u64(pre.current_turn_info.avatars_turn_damage@)
}

/// `merged` is `last` with the closing turn's vector `cur` added in
/// elementwise; identity fields stay those of `last`.
pub open spec fn av_entry_merged(last: TurnInfo, cur: Seq<u64>, merged: TurnInfo) -> bool {
    &&& merged.avatars_turn_damage@.len() == last.avatars_turn_damage@.len()
    &&& forall|i: int| 0 <= i < last.avatars_turn_damage@.len()
        ==> #[trigger] merged.avatars_turn_damage@[i] == last.avatars_turn_damage@[i] + cur[i]
    &&& merged.action_value == last.action_value
    &&& merged.wave == last.wave
    &&& merged.cycle == last.cycle
    &&& merged.total_damage == last.total_damage
}

/// Turn end stamps the open turn with the running wave and cycle, closes
/// it with its summed total, pushes it onto the turn history, coalesces it
/// into the action-value history (merging when the last entry shares its
/// action value), zeroes the open turn's vector and counts the turn.
pub open spec fn turn_end_spec(pre: BattleContext, post: BattleContext) -> bool {
    &&& post == BattleContext {
        turn_history: post.turn_history,
        av_history: post.av_history,
        current_turn_info: post.current_turn_info,
        turn_count: (pre.turn_count + 1) as usize,
        ..pre
    }
    &&& post.turn_history@.len() == pre.turn_history@.len() + 1
    &&& post.turn_history@.drop_last() == pre.turn_history@
    &&& closed_turn_matches(pre, post.turn_history@.last())
    &&& if pre.av_history@.len() > 0 && pre.av_history@.last().action_value
        == pre.current_turn_info.action_value {
        &&& post.av_history@.len() == pre.av_history@.len()
        &&& post.av_history@.drop_last() == pre.av_history@.drop_last()
        &&& av_entry_merged(
            pre.av_history@.last(),
            pre.current_turn_info.avatars_turn_damage@,
            post.av_history@.last(),
        )
    } else {
        &&& post.av_history@.len() == pre.av_history@.len() + 1
        &&& post.av_history@.drop_last() == pre.av_history@
        &&& closed_turn_matches(pre, post.av_history@.last())
    }
    &&& post.current_turn_info.avatars_turn_damage@ == Seq::new(
        pre.avatar_lineup@.len(),
        |i: int| 0u64,
    )
    &&& post.current_turn_info.action_value == pre.current_turn_info.action_value
    &&& post.current_turn_info.wave == pre.wave
    &&& post.current_turn_info.cycle == pre.cycle
    &&& post.current_turn_info.total_damage == pre.current_turn_info.total_damage
}

/// Battle end only flips the lifecycle flag; derivation and persistence
/// happen outside the aggregate.
pub open spec fn battle_end_spec(pre: BattleContext, post: BattleContext) -> bool {
    post == BattleContext { state: Some(BattleState::Ended), ..pre }
}

/// Use-skill appends a fresh entry for the acting avatar, keyed by the
/// current length of the entity-turn-order history.
pub open spec fn use_skill_spec(
    pre: BattleContext,
    post: BattleContext,
    avatar_id: u32,
    skill_name: Seq<char>,
    skill_type: u32,
) -> bool {
    &&& post == BattleContext { skill_history: post.skill_history, ..pre }
    &&& post.skill_history@.len() == pre.skill_history@.len() + 1
    &&& post.skill_history@.drop_last() == pre.skill_history@
    &&& post.skill_history@.last().avatar_id == avatar_id
    &&& post.skill_history@.last().skill_name@ == skill_name
    &&& post.skill_history@.last().skill_type == skill_type
    &&& post.skill_history@.last().total_damage == 0
    &&& post.skill_history@.last().damage_detail@.len() == 0
    &&& post.skill_history@.last().turn_battle_id == pre.entity_turn_history@.len() as u32
}

/// Wave update snapshots the relative action-value baseline in `MOC`,
/// then records the wave.
pub open spec fn update_wave_spec(pre: BattleContext, post: BattleContext, w: u32) -> bool {
    post == BattleContext {
        wave: w,
        last_wave_action_value: if pre.battle_mode == BattleMode::MOC {
            pre.action_value
        } else {
            pre.last_wave_action_value
        },
        ..pre
    }
}

/// Cycle update (for a cycle differing from the stored one) records the
/// cycle and raises the running maximum when exceeded.
pub open spec fn update_cycle_spec(pre: BattleContext, post: BattleContext, c: u32) -> bool {
    post == BattleContext {
        cycle: c,
        max_cycle: if c > pre.max_cycle {
            c
        } else {
            pre.max_cycle
        },
        ..pre
    }
}

/// Stat change updates the first matching record on the entity's own
/// team; a missing record is a no-op, not an error.
pub open spec fn stat_change_spec(
    pre: BattleContext,
    post: BattleContext,
    ent: Entity,
    st: Stat,
) -> bool {
    match ent.team {
        Team::Player => {
            &&& post == BattleContext { battle_avatars: post.battle_avatars, ..pre }
            &&& entities_stat_applied(pre.battle_avatars@, post.battle_avatars@, ent, st)
        },
        Team::Enemy => {
            &&& post == BattleContext { battle_enemies: post.battle_enemies, ..pre }
            &&& entities_stat_applied(pre.battle_enemies@, post.battle_enemies@, ent, st)
        },
    }
}

/// Enemy initialization appends the enemy in spawn order and builds its
/// battle entity with HP from the base stats and everything else zero.
pub open spec fn init_enemy_spec(
    pre: BattleContext,
    post: BattleContext,
    uid: u32,
    id: u32,
    name: Seq<char>,
    base: crate::models::EnemyBaseStats,
) -> bool {
    &&& post == BattleContext { enemies: post.enemies, battle_enemies: post.battle_enemies, ..pre }
    &&& post.enemies@.len() == pre.enemies@.len() + 1
    &&& post.enemies@.drop_last() == pre.enemies@
    &&& post.enemies@.last().uid == uid
    &&& post.enemies@.last().id == id
    &&& post.enemies@.last().name@ == name
    &&& post.enemies@.last().base_stats == base
    &&& post.battle_enemies@ == pre.battle_enemies@.push(
        BattleEntity {
            entity: Entity { uid: uid, team: Team::Enemy },
            battle_stats: BattleStats { hp: base.hp, attack: 0, defense: 0, speed: 0, av: 0 },
        },
    )
}

/// A team-formation update replaces the enemy formation wholesale; a
/// player-team update is accepted but ignored.
pub open spec fn team_formation_spec(
    pre: BattleContext,
    post: BattleContext,
    team: Team,
    entities: Seq<Entity>,
) -> bool {
    match team {
        Team::Player => post == pre,
        Team::Enemy => {
            &&& post == BattleContext { enemy_lineup: post.enemy_lineup, ..pre }
            &&& post.enemy_lineup@ == entities
        },
    }
}

/// The machine-limit bounds an event must satisfy so the engine's exact
/// integer accumulators cannot overflow.
pub open spec fn event_in_bounds(pre: BattleContext, event: Event) -> bool {
    match event {
        Event::OnDamage(e) => pre.total_damage + e.damage <= u64::MAX,
        Event::OnTurnBegin(_) => pre.turn_battle_count < u64::MAX,
        Event::OnUseSkill(_) => pre.entity_turn_history@.len() < u32::MAX,
        _ => true,
    }
}

/// The packet echoing a set-lineup event.
pub open spec fn set_lineup_packet(p: Packet, avatars: Seq<Avatar>) -> bool {
    match p {
        Packet::OnSetBattleLineup { avatars: pa } => avatars_eq(pa@, avatars),
        _ => false,
    }
}

/// The packet closing a turn: it carries the turn just closed.
pub open spec fn turn_end_packet(p: Packet, pre: BattleContext) -> bool {
    match p {
        Packet::OnTurnEnd { turn_info } => closed_turn_matches(pre, turn_info),
        _ => false,
    }
}

/// The terminal snapshot packet: the full lineup, both histories and all
/// running totals, for any listener that missed intermediate events.
pub open spec fn battle_end_packet(p: Packet, pre: BattleContext) -> bool {
    match p {
        Packet::OnBattleEnd {
            avatars,
            turn_history,
            av_history,
            turn_count,
            total_damage,
            action_value,
            cycle,
            wave,
            stage_id,
        } => {
            &&& avatars_eq(avatars@, pre.avatar_lineup@)
            &&& turns_eq(turn_history@, pre.turn_history@)
            &&& turns_eq(av_history@, pre.av_history@)
            &&& turn_count == pre.turn_count
            &&& total_damage == pre.total_damage
            &&& action_value == pre.action_value
            &&& cycle == pre.cycle
            &&& wave == pre.wave
            &&& stage_id == pre.stage_id
        },
        _ => false,
    }
}

/// The packet echoing a use-skill event.
pub open spec fn use_skill_packet(
    p: Packet,
    avatar_id: u32,
    avatar_name: Seq<char>,
    skill_name: Seq<char>,
    skill_type: u32,
) -> bool {
    match p {
        Packet::OnUseSkill { avatar, skill } => {
            &&& avatar.id == avatar_id
            &&& avatar.name@ == avatar_name
            &&& skill.name@ == skill_name
            &&& skill.skill_type == skill_type
        },
        _ => false,
    }
}

/// The packet echoing an enemy initialization.
pub open spec fn init_enemy_packet(
    p: Packet,
    uid: u32,
    id: u32,
    name: Seq<char>,
    base: crate::models::EnemyBaseStats,
) -> bool {
    match p {
        Packet::OnInitializeEnemy { enemy } => {
            &&& enemy.uid == uid
            &&& enemy.id == id
            &&& enemy.name@ == name
            &&& enemy.base_stats == base
        },
        _ => false,
    }
}

/// The packet echoing a team-formation update.
pub open spec fn team_formation_packet(p: Packet, team: Team, entities: Seq<Entity>) -> bool {
    match p {
        Packet::OnUpdateTeamFormation { entities: pe, team: pt } => pe@ == entities && pt == team,
        _ => false,
    }
}

/// The error packet a damage event with an unknown attacker produces.
pub open spec fn damage_miss_packet(p: Packet, uid: u32) -> bool {
    match p {
        Packet::Error { msg } => msg@ == damage_error_msg(uid),
        _ => false,
    }
}

/// The single long-lived aggregate holding all current-battle data.
pub struct BattleContext {
    pub state: Option<BattleState>,
    pub avatar_lineup: Vec<Avatar>,
    pub battle_avatars: Vec<BattleEntity>,
    pub enemies: Vec<Enemy>,
    pub enemy_lineup: Vec<Entity>,
    pub battle_enemies: Vec<BattleEntity>,
    pub turn_history: Vec<TurnInfo>,
    pub av_history: Vec<TurnInfo>,
    pub entity_turn_history: Vec<TurnOrderRecord>,
    pub skill_history: Vec<SkillHistoryEntry>,
    /// The action value at the latest `MOC` wave transition, the baseline
    /// for a relative-action-value display.
    pub last_wave_action_value: u64,
    pub action_value: u64,
    pub current_turn_info: TurnInfo,
    pub turn_count: usize,
    /// Ordinal of turn-begin events seen this battle, distinct from
    /// `turn_count`.
    pub turn_battle_count: u64,
    pub total_damage: u64,
    pub real_time_damages: Vec<u64>,
    pub max_waves: u32,
    pub wave: u32,
    pub cycle: u32,
    pub max_cycle: u32,
    pub stage_id: u32,
    pub battle_mode: BattleMode,
    pub mode_config: ModeConfig,
}

impl BattleContext {
    /// The aggregate's well-formedness invariant, established at
    /// construction and preserved by every event handler.
    pub open spec fn wf(&self) -> bool {
        let n = self.avatar_lineup@.len() as int;
        &&& self.real_time_damages@.len() == n
        &&& self.current_turn_info.avatars_turn_damage@.len() == n
        // The battle total is the sum of the per-avatar running damages.
        &&& self.total_damage == sum_u64(self.real_time_damages@)
        // Each running damage splits into closed turns plus the open turn.
        &&& forall|i: int| 0 <= i < n ==> sum_slot(self.turn_history@, i)
            + self.current_turn_info.avatars_turn_damage@[i]
            == #[trigger] self.real_time_damages@[i]
        // Each closed turn's vector is lineup-sized and summed correctly.
        &&& forall|k: int| 0 <= k < self.turn_history@.len() ==> (
            #[trigger] self.turn_history@[k].avatars_turn_damage@.len() == n
            && self.turn_history@[k].total_damage
                == sum_u64(self.turn_history@[k].avatars_turn_damage@))
        // Action-value entries are lineup-sized.
        &&& forall|k: int| 0 <= k < self.av_history@.len()
            ==> #[trigger] self.av_history@[k].avatars_turn_damage@.len() == n
        // The action-value history repartitions the turn history.
        &&& forall|i: int| 0 <= i < n ==> #[trigger] sum_slot(self.av_history@, i)
            == sum_slot(self.turn_history@, i)
        // Skill running totals never outgrow the battle total.
        &&& sum_skill_totals(self.skill_history@) <= self.total_damage
        // Each skill entry's running total sums its detail ticks.
        &&& forall|k: int| 0 <= k < self.skill_history@.len()
            ==> #[trigger] self.skill_history@[k].total_damage
                == sum_details(self.skill_history@[k].damage_detail@)
        // The turn counter counts the closed turns.
        &&& self.turn_count == self.turn_history@.len()
    }

    /// A fresh aggregate around a loaded mode configuration.
    pub fn new(mode_config: ModeConfig) -> (ctx: BattleContext)
        ensures
            ctx.wf(),
            ctx.state == Option::<BattleState>::None,
            ctx.avatar_lineup@.len() == 0,
            ctx.battle_avatars@.len() == 0,
            ctx.enemies@.len() == 0,
            ctx.enemy_lineup@.len() == 0,
            ctx.battle_enemies@.len() == 0,
            ctx.turn_history@.len() == 0,
            ctx.av_history@.len() == 0,
            ctx.entity_turn_history@.len() == 0,
            ctx.skill_history@.len() == 0,
            ctx.last_wave_action_value == 0,
            ctx.action_value == 0,
            ctx.current_turn_info.avatars_turn_damage@.len() == 0,
            ctx.turn_count == 0,
            ctx.turn_battle_count == 0,
            ctx.total_damage == 0,
            ctx.real_time_damages@.len() == 0,
            ctx.max_waves == 0,
            ctx.wave == 0,
            ctx.cycle == 0,
            ctx.max_cycle == 0,
            ctx.stage_id == 0,
            ctx.battle_mode == BattleMode::Other,
            ctx.mode_config == mode_config,
    {
        BattleContext {
            state: None,
            avatar_lineup: Vec::new(),
            battle_avatars: Vec::new(),
            enemies: Vec::new(),
            enemy_lineup: Vec::new(),
            battle_enemies: Vec::new(),
            turn_history: Vec::new(),
            av_history: Vec::new(),
            entity_turn_history: Vec::new(),
            skill_history: Vec::new(),
            last_wave_action_value: 0,
            action_value: 0,
            current_turn_info: TurnInfo::empty(),
            turn_count: 0,
            turn_battle_count: 0,
            total_damage: 0,
            real_time_damages: Vec::new(),
            max_waves: 0,
            wave: 0,
            cycle: 0,
            max_cycle: 0,
            stage_id: 0,
            battle_mode: BattleMode::Other,
            mode_config,
        }
    }

    /// Classifies a stage id against the loaded configuration, falling
    /// back to the fixed numeric-range rule.
    pub fn get_battle_mode(&self, stage_id: u32) -> (m: BattleMode)
        ensures
            m == spec_battle_mode(&self.mode_config, stage_id),
    {
        if id_list_contains(&self.mode_config.moc, stage_id) {
            BattleMode::MOC
        } else if id_list_contains(&self.mode_config.pf, stage_id) {
            BattleMode::PF
        } else if id_list_contains(&self.mode_config.aa, stage_id) {
            BattleMode::AA
        } else if 420101 <= stage_id && stage_id <= 420999 {
            BattleMode::AS
        } else {
            BattleMode::Other
        }
    }

    /// Resolves an avatar id to its lineup position: the first position
    /// whose avatar carries the id, if any.
    pub fn find_lineup_index_by_avatar_id(&self, avatar_id: u32) -> (r: Option<usize>)
        ensures
            match r {
                Some(i) => is_first_avatar_index(self.avatar_lineup@, avatar_id, i as int),
                None => !has_avatar(self.avatar_lineup@, avatar_id),
            },
    {
        let n = self.avatar_lineup.len();
        for k in 0..n
            invariant
                n == self.avatar_lineup@.len(),
                forall|j: int| 0 <= j < k ==> #[trigger] self.avatar_lineup@[j].id != avatar_id,
        {
            if self.avatar_lineup[k].id == avatar_id {
                return Some(k);
            }
        }
        None
    }

    /// Records the wave cap and the stage, classifies and stores the
    /// battle mode, and echoes the event.
    fn handle_on_battle_begin_event(&mut self, e: OnBattleBeginEvent) -> (p: Packet)
        requires
            old(self).wf(),
        ensures
            final(self).wf(),
            battle_begin_spec(*old(self), *final(self), e.max_waves, e.stage_id),
            p == (Packet::OnBattleBegin {
                max_waves: e.max_waves,
                max_cycles: e.max_cycles,
                stage_id: e.stage_id,
            }),
    {
        self.max_waves = e.max_waves;
        self.stage_id = e.stage_id;
        self.battle_mode = self.get_battle_mode(e.stage_id);
        Packet::OnBattleBegin {
            max_waves: e.max_waves,
            max_cycles: e.max_cycles,
            stage_id: e.stage_id,
        }
    }

    /// Stamps the action value, counts the turn-begin ordinal, appends the
    /// announced owner to the entity-turn-order history, and echoes the
    /// event.
    fn handle_on_turn_begin_event(&mut self, e: OnTurnBeginEvent) -> (p: Packet)
        requires
            old(self).wf(),
            old(self).turn_battle_count < u64::MAX,
        ensures
            final(self).wf(),
            turn_begin_spec(*old(self), *final(self), e.action_value, e.turn_owner),
            p == (Packet::OnTurnBegin {
                action_value: e.action_value,
                turn_owner: e.turn_owner,
            }),
    {
        self.action_value = e.action_value;
        self.current_turn_info.action_value = e.action_value;
        self.turn_battle_count = self.turn_battle_count + 1;
        if let Some(owner) = e.turn_owner {
            self.entity_turn_history.push(TurnOrderRecord {
                entity: owner,
                action_value: e.action_value,
                wave: self.wave,
                cycle: self.cycle,
            });
        }
        Packet::OnTurnBegin { action_value: e.action_value, turn_owner: e.turn_owner }
    }

    /// Tracks nothing for a defeat in the minimal model; only echoes the
    /// event.
    fn handle_on_entity_defeated_event(&mut self, e: OnEntityDefeatedEvent) -> (p: Packet)
        requires
            old(self).wf(),
        ensures
            final(self).wf(),
            *final(self) == *old(self),
            p == (Packet::OnEntityDefeated {
                killer: e.killer,
                entity_defeated: e.entity_defeated,
            }),
    {
        Packet::OnEntityDefeated { killer: e.killer, entity_defeated: e.entity_defeated }
    }

    /// Flips the lifecycle flag to ended and emits the terminal snapshot;
    /// export derivation and persistence happen outside the aggregate.
    fn handle_on_battle_end_event(&mut self) -> (p: Packet)
        requires
            old(self).wf(),
        ensures
            final(self).wf(),
            battle_end_spec(*old(self), *final(self)),
            battle_end_packet(p, *old(self)),
    {
        self.state = Some(BattleState::Ended);
        Packet::OnBattleEnd {
            avatars: copy_avatars(&self.avatar_lineup),
            turn_history: copy_turn_infos(&self.turn_history),
            av_history: copy_turn_infos(&self.av_history),
            turn_count: self.turn_count,
            total_damage: self.total_damage,
            action_value: self.action_value,
            cycle: self.cycle,
            wave: self.wave,
            stage_id: self.stage_id,
        }
    }

    /// Appends a fresh skill entry for the acting avatar, keyed by the
    /// current entity-turn-order history length, and echoes the event.
    fn handle_on_use_skill_event(&mut self, e: OnUseSkillEvent) -> (p: Packet)
        requires
            old(self).wf(),
            old(self).entity_turn_history@.len() < u32::MAX,
        ensures
            final(self).wf(),
            use_skill_spec(*old(self), *final(self), e.avatar.id, e.skill.name@, e.skill.skill_type),
            use_skill_packet(p, e.avatar.id, e.avatar.name@, e.skill.name@, e.skill.skill_type),
    {
        let ghost pre = *self;
        let entry = SkillHistoryEntry {
            avatar_id: e.avatar.id,
            skill_name: e.skill.name.clone(),
            skill_type: e.skill.skill_type,
            total_damage: 0,
            damage_detail: Vec::new(),
            turn_battle_id: self.entity_turn_history.len() as u32,
        };
        self.skill_history.push(entry);
        proof {
            lemma_sum_skill_totals_push(pre.skill_history@, self.skill_history@.last());
            assert(self.skill_history@.drop_last() =~= pre.skill_history@);
        }
        Packet::OnUseSkill { avatar: e.avatar, skill: e.skill }
    }

    /// Snapshots the relative action-value baseline in `MOC`, records the
    /// wave, and echoes the event.
    fn handle_on_update_wave_event(&mut self, e: OnUpdateWaveEvent) -> (p: Packet)
        requires
            old(self).wf(),
        ensures
            final(self).wf(),
            update_wave_spec(*old(self), *final(self), e.wave),
            p == (Packet::OnUpdateWave { wave: e.wave }),
    {
        if self.battle_mode == BattleMode::MOC {
            self.last_wave_action_value = self.action_value;
        }
        self.wave = e.wave;
        Packet::OnUpdateWave { wave: e.wave }
    }

    /// Records the cycle, raises the running maximum when exceeded, and
    /// echoes the event. The dispatcher has already discarded duplicates.
    fn handle_on_update_cycle_event(&mut self, e: OnUpdateCycleEvent) -> (p: Packet)
        requires
            old(self).wf(),
        ensures
            final(self).wf(),
            update_cycle_spec(*old(self), *final(self), e.cycle),
            p == (Packet::OnUpdateCycle { cycle: e.cycle }),
    {
        self.cycle = e.cycle;
        if e.cycle > self.max_cycle {
            self.max_cycle = e.cycle;
        }
        Packet::OnUpdateCycle { cycle: e.cycle }
    }

    /// Updates the named stat on the entity's first record on its own
    /// team; a missing record is a no-op. Echoes the event.
    fn handle_on_stat_change_event(&mut self, e: OnStatChangeEvent) -> (p: Packet)
        requires
            old(self).wf(),
        ensures
            final(self).wf(),
            stat_change_spec(*old(self), *final(self), e.entity, e.stat),
            p == (Packet::OnStatChange { entity: e.entity, stat: e.stat }),
    {
        match e.entity.team {
            Team::Player => {
                Self::apply_stat_to_first(&mut self.battle_avatars, e.entity, e.stat);
            },
            Team::Enemy => {
                Self::apply_stat_to_first(&mut self.battle_enemies, e.entity, e.stat);
            },
        }
        Packet::OnStatChange { entity: e.entity, stat: e.stat }
    }

    /// Applies a stat update to the first record of `ent` in `records`,
    /// if one exists.
    fn apply_stat_to_first(records: &mut Vec<BattleEntity>, ent: Entity, st: Stat)
        ensures
            entities_stat_applied(old(records)@, final(records)@, ent, st),
    {
        let n = records.len();
        for k in 0..n
            invariant
                n == records@.len(),
                *records == *old(records),
                forall|j: int| 0 <= j < k ==> #[trigger] records@[j].entity != ent,
        {
            if records[k].entity == ent {
                let mut rec = records[k];
                rec.battle_stats = match st {
                    Stat::HP(v) => BattleStats { hp: v, ..rec.battle_stats },
                    Stat::Attack(v) => BattleStats { attack: v, ..rec.battle_stats },
                    Stat::Defense(v) => BattleStats { defense: v, ..rec.battle_stats },
                    Stat::Speed(v) => BattleStats { speed: v, ..rec.battle_stats },
                    Stat::AV(v) => BattleStats { av: v, ..rec.battle_stats },
                    Stat::Other(_) => rec.battle_stats,
                };
                records.set(k, rec);
                proof {
                    assert(is_first_entity_index(old(records)@, ent, k as int));
                }
                return;
            }
        }
    }

    /// Appends the enemy in spawn order, builds its battle entity with HP
    /// from the base stats, and echoes the event.
    fn handle_on_initialize_enemy_event(&mut self, e: OnInitializeEnemyEvent) -> (p: Packet)
        requires
            old(self).wf(),
        ensures
            final(self).wf(),
            init_enemy_spec(
                *old(self),
                *final(self),
                e.enemy.uid,
                e.enemy.id,
                e.enemy.name@,
                e.enemy.base_stats,
            ),
            init_enemy_packet(p, e.enemy.uid, e.enemy.id, e.enemy.name@, e.enemy.base_stats),
    {
        let ghost pre = *self;
        self.enemies.push(copy_enemy(&e.enemy));
        self.battle_enemies.push(BattleEntity {
            entity: Entity { uid: e.enemy.uid, team: Team::Enemy },
            battle_stats: BattleStats {
                hp: e.enemy.base_stats.hp,
                attack: 0,
                defense: 0,
                speed: 0,
                av: 0,
            },
        });
        proof {
            assert(self.enemies@.drop_last() =~= pre.enemies@);
        }
        Packet::OnInitializeEnemy { enemy: e.enemy }
    }

    /// Replaces the enemy formation wholesale; a player-team update is
    /// accepted but ignored. Echoes the event.
    fn handle_on_update_team_formation_event(
        &mut self,
        e: OnUpdateTeamFormationEvent,
    ) -> (p: Packet)
        requires
            old(self).wf(),
        ensures
            final(self).wf(),
            team_formation_spec(*old(self), *final(self), e.team, e.entities@),
            team_formation_packet(p, e.team, e.entities@),
    {
        match e.team {
            Team::Player => {},
            Team::Enemy => {
                self.enemy_lineup = copy_entities(&e.entities);
            },
        }
        Packet::OnUpdateTeamFormation { entities: e.entities, team: e.team }
    }

    /// A vector of `n` zeroed damage slots.
    fn zero_vec(n: usize) -> (v: Vec<u64>)
        ensures
            v@ == Seq::new(n as nat, |i: int| 0u64),
    {
        let mut v: Vec<u64> = Vec::new();
        for k in 0..n
            invariant
                v@.len() == k,
                forall|i: int| 0 <= i < k ==> #[trigger] v@[i] == 0u64,
        {
            v.push(0);
        }
        proof {
            assert(v@ =~= Seq::new(n as nat, |i: int| 0u64));
        }
        v
    }

    /// Sums a damage vector.
    fn sum_vec(v: &Vec<u64>) -> (s: u64)
        requires
            sum_u64(v@) <= u64::MAX,
        ensures
            s == sum_u64(v@),
    {
        let mut s: u64 = 0;
        let n = v.len();
        for k in 0..n
            invariant
                n == v@.len(),
                sum_u64(v@) <= u64::MAX,
                s == sum_u64(v@.take(k as int)),
        {
            proof {
                lemma_sum_u64_take_succ(v@, k as int);
                lemma_sum_u64_take_le(v@, k + 1);
                lemma_sum_u64_nonneg(v@.take(k as int));
            }
            s = s + v[k];
        }
        proof {
            lemma_sum_u64_take_all(v@);
        }
        s
    }

    /// The position of the most recent skill entry of avatar `id`, if any.
    fn find_last_skill_index(ss: &Vec<SkillHistoryEntry>, id: u32) -> (r: Option<usize>)
        ensures
            match r {
                Some(k) => is_last_skill_index(ss@, id, k as int),
                None => !has_skill_entry(ss@, id),
            },
    {
        let mut k = ss.len();
        while k > 0
            invariant
                k <= ss@.len(),
                forall|j: int| k <= j < ss@.len() ==> #[trigger] ss@[j].avatar_id != id,
            decreases k,
        {
            k = k - 1;
            if ss[k].avatar_id == id {
                return Some(k);
            }
        }
        None
    }

    /// The canonical new-battle boundary: resets all histories, enemy
    /// lists and counters, re-sizes the per-avatar vectors to the new
    /// lineup, builds one zeroed battle entity per avatar, and echoes the
    /// lineup.
    fn handle_on_set_lineup_event(&mut self, e: OnSetLineupEvent) -> (p: Packet)
        requires
            old(self).wf(),
        ensures
            final(self).wf(),
            set_lineup_spec(*old(self), *final(self), e.avatars@),
            set_lineup_packet(p, e.avatars@),
    {
        self.state = Some(BattleState::Started);
        self.current_turn_info = TurnInfo::empty();
        self.turn_history = Vec::new();
        self.av_history = Vec::new();
        self.entity_turn_history = Vec::new();
        self.skill_history = Vec::new();
        self.enemies = Vec::new();
        self.enemy_lineup = Vec::new();
        self.battle_enemies = Vec::new();
        self.turn_count = 0;
        self.turn_battle_count = 0;
        self.total_damage = 0;
        self.last_wave_action_value = 0;
        self.action_value = 0;
        self.max_waves = 0;
        self.wave = 0;
        self.cycle = 0;
        self.max_cycle = 0;
        self.stage_id = 0;

        let n = e.avatars.len();
        self.current_turn_info.avatars_turn_damage = Self::zero_vec(n);
        self.real_time_damages = Self::zero_vec(n);
        self.avatar_lineup = e.avatars;

        let mut battle_avatars: Vec<BattleEntity> = Vec::new();
        for k in 0..n
            invariant
                n == self.avatar_lineup@.len(),
                battle_avatars@.len() == k,
                forall|i: int| 0 <= i < k ==> #[trigger] battle_avatars@[i] == (BattleEntity {
                    entity: Entity { uid: self.avatar_lineup@[i].id, team: Team::Player },
                    battle_stats: BattleStats { hp: 0, attack: 0, defense: 0, speed: 0, av: 0 },
                }),
        {
            battle_avatars.push(BattleEntity {
                entity: Entity { uid: self.avatar_lineup[k].id, team: Team::Player },
                battle_stats: BattleStats::zero(),
            });
        }
        self.battle_avatars = battle_avatars;

        let p = Packet::OnSetBattleLineup { avatars: copy_avatars(&self.avatar_lineup) };
        proof {
            lemma_sum_u64_all_zero(self.real_time_damages@);
            assert forall|i: int| 0 <= i < self.avatar_lineup@.len() implies
                sum_slot(self.turn_history@, i) + self.current_turn_info.avatars_turn_damage@[i]
                == #[trigger] self.real_time_damages@[i] by {
                assert(self.real_time_damages@[i] == 0);
                assert(self.current_turn_info.avatars_turn_damage@[i] == 0);
            }
        }
        p
    }

    /// Resolves the attacker to a lineup position and accumulates the
    /// amount into the open turn, the running per-avatar damages, the
    /// battle total, and the attacker's most recent skill entry. An
    /// unknown attacker leaves the state untouched and reports an error
    /// packet instead.
    fn handle_on_damage_event(&mut self, e: OnDamageEvent) -> (p: Packet)
        requires
            old(self).wf(),
            old(self).total_damage + e.damage <= u64::MAX,
        ensures
            final(self).wf(),
            has_avatar(old(self).avatar_lineup@, e.attacker.uid) ==> exists|i: int|
                #[trigger] is_first_avatar_index(old(self).avatar_lineup@, e.attacker.uid, i)
                && damage_hit_spec(
                    *old(self),
                    *final(self),
                    i,
                    e.attacker.uid,
                    e.damage,
                    e.damage_type,
                ) && p == (Packet::OnDamage {
                    attacker: e.attacker,
                    damage: e.damage,
                    damage_type: e.damage_type,
                }),
            !has_avatar(old(self).avatar_lineup@, e.attacker.uid) ==> *final(self) == *old(self)
                && damage_miss_packet(p, e.attacker.uid),
    {
        let uid = e.attacker.uid;
        match self.find_lineup_index_by_avatar_id(uid) {
            None => {
                let mut msg = String::from_str("Could not find avatar ");
                let num = u32_to_string(uid);
                msg.append(num.as_str());
                msg.append(" in lineup");
                Packet::Error { msg }
            },
            Some(i) => {
                let ghost pre = *self;
                proof {
                    lemma_sum_slot_nonneg(pre.turn_history@, i as int);
                    lemma_sum_u64_elem_le(pre.real_time_damages@, i as int);
                }
                let cur = self.current_turn_info.avatars_turn_damage[i];
                self.current_turn_info.avatars_turn_damage.set(i, cur + e.damage);
                let rt = self.real_time_damages[i];
                self.real_time_damages.set(i, rt + e.damage);
                self.total_damage = self.total_damage + e.damage;
                proof {
                    lemma_sum_u64_update(pre.real_time_damages@, i as int, (rt + e.damage) as u64);
                }
                match Self::find_last_skill_index(&self.skill_history, uid) {
                    Some(k) => {
                        proof {
                            lemma_sum_skill_totals_elem_le(pre.skill_history@, k as int);
                        }
                        let old_total = self.skill_history[k].total_damage;
                        let entry = &mut self.skill_history[k];
                        entry.total_damage = old_total + e.damage;
                        entry.damage_detail.push(
                            DamageDetail { damage: e.damage, damage_type: e.damage_type },
                        );
                        proof {
                            lemma_sum_skill_totals_update(
                                pre.skill_history@,
                                k as int,
                                self.skill_history@[k as int],
                            );
                            lemma_sum_details_push(
                                pre.skill_history@[k as int].damage_detail@,
                                DamageDetail { damage: e.damage, damage_type: e.damage_type },
                            );
                            assert(skill_entry_ticked(
                                pre.skill_history@,
                                self.skill_history@,
                                k as int,
                                e.damage,
                                e.damage_type,
                            ));
                        }
                    },
                    None => {},
                }
                Packet::OnDamage {
                    attacker: e.attacker,
                    damage: e.damage,
                    damage_type: e.damage_type,
                }
            },
        }
    }

    /// Stamps the open turn with the running wave and cycle, closes it
    /// with its summed total, pushes it onto the turn history, coalesces
    /// it into the action-value history, zeroes the open turn's vector,
    /// counts the turn, and emits the closed turn.
    fn handle_on_turn_end_event(&mut self) -> (p: Packet)
        requires
            old(self).wf(),
        ensures
            final(self).wf(),
            turn_end_spec(*old(self), *final(self)),
            turn_end_packet(p, *old(self)),
    {
        self.current_turn_info.wave = self.wave;
        self.current_turn_info.cycle = self.cycle;
        let ghost pre = *self;
        let ghost n = pre.avatar_lineup@.len() as int;
        let ghost cur = pre.current_turn_info.avatars_turn_damage@;

        // Every slot of the open turn is bounded by its running damage,
        // so the turn total and every coalesced slot stay in range.
        proof {
            assert forall|i: int| 0 <= i < n implies #[trigger] cur[i]
                <= pre.real_time_damages@[i] by {
                lemma_sum_slot_nonneg(pre.turn_history@, i);
            }
            lemma_sum_u64_le_pointwise(cur, pre.real_time_damages@);
        }

        let mut turn_info = copy_turn_info(&self.current_turn_info);
        let total = Self::sum_vec(&turn_info.avatars_turn_damage);
        turn_info.total_damage = total;

        self.turn_history.push(copy_turn_info(&turn_info));
        let hist_len = self.turn_history.len();
        proof {
            assert(self.turn_history@.drop_last() =~= pre.turn_history@);
            assert(hist_len == pre.turn_history@.len() + 1);
        }

        let alen = self.av_history.len();
        let merge = alen > 0 && self.av_history[alen - 1].action_value == turn_info.action_value;
        if merge {
            let mut last = self.av_history.pop().unwrap();
            let ghost pre_last = pre.av_history@.last();
            proof {
                assert(self.av_history@ =~= pre.av_history@.drop_last());
                assert forall|j: int| 0 <= j < n implies pre_last.avatars_turn_damage@[j]
                    + cur[j] <= u64::MAX by {
                    lemma_sum_slot_elem_le(pre.av_history@, pre.av_history@.len() - 1, j);
                    lemma_sum_u64_elem_le(pre.real_time_damages@, j);
                }
            }
            let m = turn_info.avatars_turn_damage.len();
            for i in 0..m
                invariant
                    m == n,
                    cur.len() == n,
                    m == turn_info.avatars_turn_damage@.len(),
                    turn_info.avatars_turn_damage@ == cur,
                    last.avatars_turn_damage@.len() == n,
                    last.action_value == pre_last.action_value,
                    last.wave == pre_last.wave,
                    last.cycle == pre_last.cycle,
                    last.total_damage == pre_last.total_damage,
                    pre_last.avatars_turn_damage@.len() == n,
                    forall|j: int| 0 <= j < n ==> pre_last.avatars_turn_damage@[j] + cur[j]
                        <= u64::MAX,
                    forall|j: int| 0 <= j < i ==> #[trigger] last.avatars_turn_damage@[j]
                        == pre_last.avatars_turn_damage@[j] + cur[j],
                    forall|j: int| i <= j < n ==> #[trigger] last.avatars_turn_damage@[j]
                        == pre_last.avatars_turn_damage@[j],
            {
                let v = last.avatars_turn_damage[i] + turn_info.avatars_turn_damage[i];
                last.avatars_turn_damage.set(i, v);
            }
            self.av_history.push(last);
            proof {
                assert(self.av_history@.drop_last() =~= pre.av_history@.drop_last());
                assert(av_entry_merged(pre_last, cur, self.av_history@.last()));
                assert forall|i: int| 0 <= i < n implies #[trigger] sum_slot(self.av_history@, i)
                    == sum_slot(self.turn_history@, i) by {
                    lemma_sum_slot_push(pre.av_history@.drop_last(), self.av_history@.last(), i);
                    lemma_sum_slot_update(
                        pre.av_history@,
                        pre.av_history@.len() - 1,
                        self.av_history@.last(),
                        i,
                    );
                    assert(pre.av_history@.update(pre.av_history@.len() - 1, self.av_history@.last())
                        =~= pre.av_history@.drop_last().push(self.av_history@.last()));
                    lemma_sum_slot_push(pre.turn_history@, self.turn_history@.last(), i);
                }
            }
        } else {
            self.av_history.push(copy_turn_info(&turn_info));
            proof {
                assert(self.av_history@.drop_last() =~= pre.av_history@);
                assert forall|i: int| 0 <= i < n implies #[trigger] sum_slot(self.av_history@, i)
                    == sum_slot(self.turn_history@, i) by {
                    lemma_sum_slot_push(pre.av_history@, self.av_history@.last(), i);
                    lemma_sum_slot_push(pre.turn_history@, self.turn_history@.last(), i);
                }
            }
        }

        self.current_turn_info.avatars_turn_damage = Self::zero_vec(self.avatar_lineup.len());
        self.turn_count = self.turn_count + 1;

        proof {
            assert forall|i: int| 0 <= i < n implies sum_slot(self.turn_history@, i)
                + self.current_turn_info.avatars_turn_damage@[i]
                == #[trigger] self.real_time_damages@[i] by {
                lemma_sum_slot_push(pre.turn_history@, self.turn_history@.last(), i);
            }
        }
        Packet::OnTurnEnd { turn_info }
    }

    /// Applies one event to the aggregate and returns the packet to
    /// broadcast. A cycle update equal to the stored cycle is discarded
    /// before touching any state and produces no packet; a damage event
    /// with an unknown attacker leaves the state untouched and produces an
    /// error packet; every other event mutates the state as its transition
    /// says and echoes itself.
    pub fn handle_event(&mut self, event: Event) -> (packet: Option<Packet>)
        requires
            old(self).wf(),
            event_in_bounds(*old(self), event),
        ensures
            final(self).wf(),
            match event {
                Event::OnBattleBegin(e) => {
                    &&& battle_begin_spec(*old(self), *final(self), e.max_waves, e.stage_id)
                    &&& packet == Some(Packet::OnBattleBegin {
                        max_waves: e.max_waves,
                        max_cycles: e.max_cycles,
                        stage_id: e.stage_id,
                    })
                },
                Event::OnSetBattleLineup(e) => {
                    &&& set_lineup_spec(*old(self), *final(self), e.avatars@)
                    &&& match packet {
                        Some(p) => set_lineup_packet(p, e.avatars@),
                        None => false,
                    }
                },
                Event::OnDamage(e) => {
                    &&& has_avatar(old(self).avatar_lineup@, e.attacker.uid) ==> exists|i: int|
                        #[trigger] is_first_avatar_index(
                            old(self).avatar_lineup@,
                            e.attacker.uid,
                            i,
                        ) && damage_hit_spec(
                            *old(self),
                            *final(self),
                            i,
                            e.attacker.uid,
                            e.damage,
                            e.damage_type,
                        ) && packet == Some(Packet::OnDamage {
                            attacker: e.attacker,
                            damage: e.damage,
                            damage_type: e.damage_type,
                        })
                    &&& !has_avatar(old(self).avatar_lineup@, e.attacker.uid)
                        ==> *final(self) == *old(self) && match packet {
                        Some(p) => damage_miss_packet(p, e.attacker.uid),
                        None => false,
                    }
                },
                Event::OnTurnBegin(e) => {
                    &&& turn_begin_spec(*old(self), *final(self), e.action_value, e.turn_owner)
                    &&& packet == Some(Packet::OnTurnBegin {
                        action_value: e.action_value,
                        turn_owner: e.turn_owner,
                    })
                },
                Event::OnTurnEnd => {
                    &&& turn_end_spec(*old(self), *final(self))
                    &&& match packet {
                        Some(p) => turn_end_packet(p, *old(self)),
                        None => false,
                    }
                },
                Event::OnEntityDefeated(e) => {
                    &&& *final(self) == *old(self)
                    &&& packet == Some(Packet::OnEntityDefeated {
                        killer: e.killer,
                        entity_defeated: e.entity_defeated,
                    })
                },
                Event::OnBattleEnd => {
                    &&& battle_end_spec(*old(self), *final(self))
                    &&& match packet {
                        Some(p) => battle_end_packet(p, *old(self)),
                        None => false,
                    }
                },
                Event::OnUseSkill(e) => {
                    &&& use_skill_spec(
                        *old(self),
                        *final(self),
                        e.avatar.id,
                        e.skill.name@,
                        e.skill.skill_type,
                    )
                    &&& match packet {
                        Some(p) => use_skill_packet(
                            p,
                            e.avatar.id,
                            e.avatar.name@,
                            e.skill.name@,
                            e.skill.skill_type,
                        ),
                        None => false,
                    }
                },
                Event::OnUpdateWave(e) => {
                    &&& update_wave_spec(*old(self), *final(self), e.wave)
                    &&& packet == Some(Packet::OnUpdateWave { wave: e.wave })
                },
                Event::OnUpdateCycle(e) => {
                    if e.cycle == old(self).cycle {
                        &&& *final(self) == *old(self)
                        &&& packet == None::<Packet>
                    } else {
                        &&& update_cycle_spec(*old(self), *final(self), e.cycle)
                        &&& packet == Some(Packet::OnUpdateCycle { cycle: e.cycle })
                    }
                },
                Event::OnStatChange(e) => {
                    &&& stat_change_spec(*old(self), *final(self), e.entity, e.stat)
                    &&& packet == Some(Packet::OnStatChange { entity: e.entity, stat: e.stat })
                },
                Event::OnInitializeEnemy(e) => {
                    &&& init_enemy_spec(
                        *old(self),
                        *final(self),
                        e.enemy.uid,
                        e.enemy.id,
                        e.enemy.name@,
                        e.enemy.base_stats,
                    )
                    &&& match packet {
                        Some(p) => init_enemy_packet(
                            p,
                            e.enemy.uid,
                            e.enemy.id,
                            e.enemy.name@,
                            e.enemy.base_stats,
                        ),
                        None => false,
                    }
                },
                Event::OnUpdateTeamFormation(e) => {
                    &&& team_formation_spec(*old(self), *final(self), e.team, e.entities@)
                    &&& match packet {
                        Some(p) => team_formation_packet(p, e.team, e.entities@),
                        None => false,
                    }
                },
            },
    {
        match event {
            Event::OnBattleBegin(e) => Some(self.handle_on_battle_begin_event(e)),
            Event::OnSetBattleLineup(e) => Some(self.handle_on_set_lineup_event(e)),
            Event::OnDamage(e) => Some(self.handle_on_damage_event(e)),
            Event::OnTurnBegin(e) => Some(self.handle_on_turn_begin_event(e)),
            Event::OnTurnEnd => Some(self.handle_on_turn_end_event()),
            Event::OnEntityDefeated(e) => Some(self.handle_on_entity_defeated_event(e)),
            Event::OnBattleEnd => Some(self.handle_on_battle_end_event()),
            Event::OnUseSkill(e) => Some(self.handle_on_use_skill_event(e)),
            Event::OnUpdateWave(e) => Some(self.handle_on_update_wave_event(e)),
            Event::OnUpdateCycle(e) => {
                if e.cycle == self.cycle {
                    None
                } else {
                    Some(self.handle_on_update_cycle_event(e))
                }
            },
            Event::OnStatChange(e) => Some(self.handle_on_stat_change_event(e)),
            Event::OnInitializeEnemy(e) => Some(self.handle_on_initialize_enemy_event(e)),
            Event::OnUpdateTeamFormation(e) => Some(self.handle_on_update_team_formation_event(e)),
        }
    }

    /// Builds the persisted battle summary from the aggregate and a
    /// caller-supplied timestamp, or nothing when the lineup is empty.
    /// Writing it to disk happens outside the aggregate.
    pub fn build_battle_summary(&self, timestamp: &str) -> (r: Option<
        crate::models::BattleSummary,
    >)
        requires
            self.wf(),
        ensures
            self.avatar_lineup@.len() == 0 <==> r is None,
            match r {
                Some(s) => {
                    let n = self.avatar_lineup@.len();
                    &&& s.team_name@ == self.avatar_lineup@[0].name@
                    &&& s.lineup@.len() == n
                    &&& forall|i: int| 0 <= i < n ==> #[trigger] s.lineup@[i]@
                        == self.avatar_lineup@[i].name@
                    &&& avatars_eq(s.lineup_details@, self.avatar_lineup@)
                    &&& s.timestamp@ == timestamp@
                    &&& s.total_damage == self.total_damage
                    &&& s.total_av == self.action_value
                    &&& s.total_dpav == crate::ratio::Ratio::spec_of(
                        self.total_damage as u128,
                        self.action_value as u128,
                    )
                    &&& s.characters@.len() == n
                    &&& forall|i: int| 0 <= i < n ==> {
                        let c = #[trigger] s.characters@[i];
                        &&& c.name@ == self.avatar_lineup@[i].name@
                        &&& c.total_damage == self.real_time_damages@[i]
                        &&& c.dpav == crate::ratio::Ratio::spec_of(
                            self.real_time_damages@[i] as u128,
                            self.action_value as u128,
                        )
                    }
                },
                None => true,
            },
    {
        let n = self.avatar_lineup.len();
        if n == 0 {
            return None;
        }
        let mut lineup_names: Vec<String> = Vec::new();
        let mut characters: Vec<crate::models::CharacterSummary> = Vec::new();
        for i in 0..n
            invariant
                self.wf(),
                n == self.avatar_lineup@.len(),
                lineup_names@.len() == i,
                characters@.len() == i,
                forall|k: int| 0 <= k < i ==> #[trigger] lineup_names@[k]@
                    == self.avatar_lineup@[k].name@,
                forall|k: int| 0 <= k < i ==> {
                    let c = #[trigger] characters@[k];
                    &&& c.name@ == self.avatar_lineup@[k].name@
                    &&& c.total_damage == self.real_time_damages@[k]
                    &&& c.dpav == crate::ratio::Ratio::spec_of(
                        self.real_time_damages@[k] as u128,
                        self.action_value as u128,
                    )
                },
        {
            let avatar = &self.avatar_lineup[i];
            lineup_names.push(avatar.name.clone());
            let char_damage = self.real_time_damages[i];
            characters.push(crate::models::CharacterSummary {
                name: avatar.name.clone(),
                total_damage: char_damage,
                dpav: crate::ratio::Ratio::of(
                    char_damage as u128,
                    self.action_value as u128,
                ),
            });
        }
        Some(crate::models::BattleSummary {
            team_name: self.avatar_lineup[0].name.clone(),
            lineup: lineup_names,
            lineup_details: copy_avatars(&self.avatar_lineup),
            timestamp: String::from_str(timestamp),
            total_damage: self.total_damage,
            total_av: self.action_value,
            total_dpav: crate::ratio::Ratio::of(
                self.total_damage as u128,
                self.action_value as u128,
            ),
            characters,
        })
    }
}

/// The name of a battle mode, as it appears in summary filenames.
pub open spec fn spec_battle_mode_name(m: BattleMode) -> Seq<char> {
    match m {
        BattleMode::MOC => "MOC"@,
        BattleMode::PF => "PF"@,
        BattleMode::AS => "AS"@,
        BattleMode::AA => "AA"@,
        BattleMode::Other => "Other"@,
    }
}

/// The name of a battle mode.
pub fn battle_mode_name(m: BattleMode) -> (r: &'static str)
    ensures
        r@ == spec_battle_mode_name(m),
{
    match m {
        BattleMode::MOC => "MOC",
        BattleMode::PF => "PF",
        BattleMode::AS => "AS",
        BattleMode::AA => "AA",
        BattleMode::Other => "Other",
    }
}

/// The file name a battle summary is persisted under.
pub open spec fn spec_summary_filename(
    team: Seq<char>,
    mode: BattleMode,
    stage_id: u32,
    timestamp: Seq<char>,
) -> Seq<char> {
    "SUMMARY_"@ + team + "_"@ + spec_battle_mode_name(mode) + "_Stage"@ + spec_decimal(
        stage_id as int,
    ) + "_"@ + timestamp + ".json"@
}

/// Builds the summary file name for a team, mode, stage and timestamp.
pub fn summary_filename(team_name: &str, mode: BattleMode, stage_id: u32, timestamp: &str) -> (r:
    String)
    ensures
        r@ == spec_summary_filename(team_name@, mode, stage_id, timestamp@),
{
    let mut s = String::from_str("SUMMARY_");
    s.append(team_name);
    s.append("_");
    s.append(battle_mode_name(mode));
    s.append("_Stage");
    let num = u32_to_string(stage_id);
    s.append(num.as_str());
    s.append("_");
    s.append(timestamp);
    s.append(".json");
    s
}

/// The battle total always equals the sum of the per-avatar running
/// damages: after any sequence of events, what the lineup dealt together
/// is exactly what the battle accumulated.
pub proof fn lemma_total_damage_is_sum(ctx: BattleContext)
    requires
        ctx.wf(),
    ensures
        ctx.total_damage == sum_u64(ctx.real_time_damages@),
{
}

/// Every closed turn's total equals the sum of its per-avatar damage
/// vector.
pub proof fn lemma_turn_total_is_slot_sum(ctx: BattleContext, k: int)
    requires
        ctx.wf(),
        0 <= k < ctx.turn_history@.len(),
    ensures
        ctx.turn_history@[k].total_damage == sum_u64(ctx.turn_history@[k].avatars_turn_damage@),
{
}

/// Coalescing: when two consecutive turns close at the same action value
/// (the first of them opening a fresh action-value entry), the
/// action-value history gains one merged entry whose per-avatar vector is
/// the elementwise sum of the two turns' vectors — not two entries.
/// Between the two turn ends, `s2` may accumulate damage into the open
/// turn but keeps the histories and the action value untouched.
pub proof fn lemma_av_history_coalescing(
    s0: BattleContext,
    s1: BattleContext,
    s2: BattleContext,
    s3: BattleContext,
)
    requires
        turn_end_spec(s0, s1),
        s2.av_history@ == s1.av_history@,
        s2.current_turn_info.action_value == s1.current_turn_info.action_value,
        turn_end_spec(s2, s3),
        s0.av_history@.len() == 0 || s0.av_history@.last().action_value
            != s0.current_turn_info.action_value,
    ensures
        s3.av_history@.len() == s0.av_history@.len() + 1,
        s3.av_history@.last().avatars_turn_damage@.len()
            == s0.current_turn_info.avatars_turn_damage@.len(),
        forall|i: int| 0 <= i < s0.current_turn_info.avatars_turn_damage@.len()
            ==> #[trigger] s3.av_history@.last().avatars_turn_damage@[i]
            == s0.current_turn_info.avatars_turn_damage@[i]
            + s2.current_turn_info.avatars_turn_damage@[i],
{
    assert(s1.av_history@.len() == s0.av_history@.len() + 1);
    assert(closed_turn_matches(s0, s1.av_history@.last()));
    assert(s2.av_history@.last().action_value == s2.current_turn_info.action_value);
}

/// Recency association: a skill use followed by two damage events of its
/// avatar, with no skill use in between, leaves the avatar's newest skill
/// entry with the two ticks and their summed running total.
pub proof fn lemma_skill_damage_association(
    s0: BattleContext,
    s1: BattleContext,
    s2: BattleContext,
    s3: BattleContext,
    id: u32,
    skill_name: Seq<char>,
    skill_type: u32,
    i1: int,
    i2: int,
    d1: u64,
    d2: u64,
    ty1: i64,
    ty2: i64,
)
    requires
        use_skill_spec(s0, s1, id, skill_name, skill_type),
        damage_hit_spec(s1, s2, i1, id, d1, ty1),
        damage_hit_spec(s2, s3, i2, id, d2, ty2),
    ensures
        s3.skill_history@.len() == s0.skill_history@.len() + 1,
        s3.skill_history@.last().avatar_id == id,
        s3.skill_history@.last().total_damage == d1 + d2,
        s3.skill_history@.last().damage_detail@.len() == 2,
        s3.skill_history@.last().damage_detail@[0] == (DamageDetail {
            damage: d1,
            damage_type: ty1,
        }),
        s3.skill_history@.last().damage_detail@[1] == (DamageDetail {
            damage: d2,
            damage_type: ty2,
        }),
{
    let last = s1.skill_history@.len() - 1;
    assert(s1.skill_history@[last].avatar_id == id);
    assert(has_skill_entry(s1.skill_history@, id));
    let k1 = choose|k: int|
        #[trigger] is_last_skill_index(s1.skill_history@, id, k) && skill_entry_ticked(
            s1.skill_history@,
            s2.skill_history@,
            k,
            d1,
            ty1,
        );
    assert(k1 == last) by {
        if k1 < last {
            assert(s1.skill_history@[last].avatar_id != id);
        }
    }
    assert(s2.skill_history@[last].avatar_id == id);
    assert(has_skill_entry(s2.skill_history@, id));
    let k2 = choose|k: int|
        #[trigger] is_last_skill_index(s2.skill_history@, id, k) && skill_entry_ticked(
            s2.skill_history@,
            s3.skill_history@,
            k,
            d2,
            ty2,
        );
    assert(k2 == last) by {
        if k2 < last {
            assert(s2.skill_history@[last].avatar_id != id);
        }
    }
    assert(s2.skill_history@[last].damage_detail@ == s1.skill_history@[last].damage_detail@.push(
        DamageDetail { damage: d1, damage_type: ty1 },
    ));
    assert(s3.skill_history@.last() == s3.skill_history@[last]);
}

} // verus!
