//! The event model: the closed set of inbound event variants the engine
//! consumes, the closed set of outbound packet variants it produces, and the
//! battle entities and records those variants carry.
//!
//! Damage amounts, action values and stat values are integer units; the
//! capture layer converts its raw readings into these units before handing
//! an event to the engine.

use vstd::prelude::*;

verus! {

/// The side an entity fights on.
#[derive(Clone, Copy, Debug, PartialEq, Eq, Structural)]
pub enum Team {
    Player,
    Enemy,
}

/// A side-neutral identity: a stable unique id and a team tag.
#[derive(Clone, Copy, Debug, PartialEq, Eq, Structural)]
pub struct Entity {
    pub uid: u32,
    pub team: Team,
}

/// A player character, created once per battle when the lineup is announced.
/// The lineup order is load-bearing: per-avatar vectors are positional
/// against it.
#[derive(Clone, Debug)]
pub struct Avatar {
    pub id: u32,
    pub name: String,
}

/// Base stats an enemy spawns with.
#[derive(Clone, Copy, Debug)]
pub struct EnemyBaseStats {
    pub hp: u64,
    pub level: u32,
}

/// An enemy, appended to the enemy list in spawn order.
#[derive(Clone, Debug)]
pub struct Enemy {
    pub uid: u32,
    pub id: u32,
    pub name: String,
    pub base_stats: EnemyBaseStats,
}

/// The mutable stat record of one battle participant.
#[derive(Clone, Copy, Debug)]
pub struct BattleStats {
    pub hp: u64,
    pub attack: u64,
    pub defense: u64,
    pub speed: u64,
    pub av: u64,
}

impl BattleStats {
    /// All stats zero: the default record a participant starts with.
    pub fn zero() -> (s: BattleStats)
        ensures
            s == (BattleStats { hp: 0, attack: 0, defense: 0, speed: 0, av: 0 }),
    {
        BattleStats { hp: 0, attack: 0, defense: 0, speed: 0, av: 0 }
    }
}

/// Joins an `Entity` to its mutable `BattleStats` record.
#[derive(Clone, Copy, Debug)]
pub struct BattleEntity {
    pub entity: Entity,
    pub battle_stats: BattleStats,
}

/// One record per turn: the action value at turn start, the wave and cycle
/// it closed in, a positional per-avatar damage vector, and its total.
#[derive(Clone, Debug)]
pub struct TurnInfo {
    pub avatars_turn_damage: Vec<u64>,
    pub action_value: u64,
    pub wave: u32,
    pub cycle: u32,
    pub total_damage: u64,
}

impl TurnInfo {
    /// An empty turn record: no per-avatar slots, everything zero.
    pub fn empty() -> (t: TurnInfo)
        ensures
            t.avatars_turn_damage@ == Seq::<u64>::empty(),
            t.action_value == 0,
            t.wave == 0,
            t.cycle == 0,
            t.total_damage == 0,
    {
        TurnInfo {
            avatars_turn_damage: Vec::new(),
            action_value: 0,
            wave: 0,
            cycle: 0,
            total_damage: 0,
        }
    }
}

/// One damage tick attributed to a skill invocation.
#[derive(Clone, Copy, Debug, PartialEq, Eq, Structural)]
pub struct DamageDetail {
    pub damage: u64,
    pub damage_type: i64,
}

/// One record per skill invocation: the acting avatar, the skill identity,
/// a running total of the damage attributed to this invocation, its detail
/// ticks, and the length of the entity-turn-order history at invocation
/// time, used later to recover wave/cycle/action-value context.
#[derive(Clone, Debug)]
pub struct SkillHistoryEntry {
    pub avatar_id: u32,
    pub skill_name: String,
    pub skill_type: u32,
    pub total_damage: u64,
    pub damage_detail: Vec<DamageDetail>,
    pub turn_battle_id: u32,
}

/// A skill identity as announced by a use-skill event.
#[derive(Clone, Debug)]
pub struct Skill {
    pub name: String,
    pub skill_type: u32,
}

/// One record per turn-begin that announced its owner: who acted, at what
/// action value, in which wave and cycle.
#[derive(Clone, Debug)]
pub struct TurnOrderRecord {
    pub entity: Entity,
    pub action_value: u64,
    pub wave: u32,
    pub cycle: u32,
}

/// A stat update for one entity.
#[derive(Clone, Copy, Debug)]
pub enum Stat {
    HP(u64),
    Attack(u64),
    Defense(u64),
    Speed(u64),
    AV(u64),
    /// A stat kind the engine does not track; silently ignored.
    Other(u64),
}

pub struct OnBattleBeginEvent {
    pub max_waves: u32,
    pub max_cycles: u32,
    pub stage_id: u32,
}

pub struct OnSetLineupEvent {
    pub avatars: Vec<Avatar>,
}

pub struct OnDamageEvent {
    pub attacker: Entity,
    pub damage: u64,
    pub damage_type: i64,
}

pub struct OnTurnBeginEvent {
    pub action_value: u64,
    pub turn_owner: Option<Entity>,
}

pub struct OnEntityDefeatedEvent {
    pub killer: Entity,
    pub entity_defeated: Entity,
}

pub struct OnUseSkillEvent {
    pub avatar: Avatar,
    pub skill: Skill,
}

pub struct OnUpdateWaveEvent {
    pub wave: u32,
}

pub struct OnUpdateCycleEvent {
    pub cycle: u32,
}

pub struct OnStatChangeEvent {
    pub entity: Entity,
    pub stat: Stat,
}

pub struct OnInitializeEnemyEvent {
    pub enemy: Enemy,
}

pub struct OnUpdateTeamFormationEvent {
    pub entities: Vec<Entity>,
    pub team: Team,
}

/// The closed set of event kinds the engine consumes, in the order the
/// capture layer observed them.
pub enum Event {
    OnBattleBegin(OnBattleBeginEvent),
    OnSetBattleLineup(OnSetLineupEvent),
    OnDamage(OnDamageEvent),
    OnTurnBegin(OnTurnBeginEvent),
    OnTurnEnd,
    OnEntityDefeated(OnEntityDefeatedEvent),
    OnBattleEnd,
    OnUseSkill(OnUseSkillEvent),
    OnUpdateWave(OnUpdateWaveEvent),
    OnUpdateCycle(OnUpdateCycleEvent),
    OnStatChange(OnStatChangeEvent),
    OnInitializeEnemy(OnInitializeEnemyEvent),
    OnUpdateTeamFormation(OnUpdateTeamFormationEvent),
}

/// The closed set of outbound packets: one echo per processed event, a
/// terminal snapshot at battle end, a connection greeting, and an error
/// packet for per-event failures.
pub enum Packet {
    OnBattleBegin { max_waves: u32, max_cycles: u32, stage_id: u32 },
    OnSetBattleLineup { avatars: Vec<Avatar> },
    OnDamage { attacker: Entity, damage: u64, damage_type: i64 },
    OnTurnBegin { action_value: u64, turn_owner: Option<Entity> },
    OnTurnEnd { turn_info: TurnInfo },
    OnEntityDefeated { killer: Entity, entity_defeated: Entity },
    OnBattleEnd {
        avatars: Vec<Avatar>,
        turn_history: Vec<TurnInfo>,
        av_history: Vec<TurnInfo>,
        turn_count: usize,
        total_damage: u64,
        action_value: u64,
        cycle: u32,
        wave: u32,
        stage_id: u32,
    },
    OnUseSkill { avatar: Avatar, skill: Skill },
    OnUpdateWave { wave: u32 },
    OnUpdateCycle { cycle: u32 },
    OnStatChange { entity: Entity, stat: Stat },
    OnInitializeEnemy { enemy: Enemy },
    OnUpdateTeamFormation { entities: Vec<Entity>, team: Team },
    ConnectionGreet { version: String },
    Error { msg: String },
}

/// One lineup member's share in a persisted battle summary.
pub struct CharacterSummary {
    pub name: String,
    pub total_damage: u64,
    pub dpav: crate::ratio::Ratio,
}

/// The per-battle summary persisted at battle end.
pub struct BattleSummary {
    pub team_name: String,
    pub lineup: Vec<String>,
    pub lineup_details: Vec<Avatar>,
    pub timestamp: String,
    pub total_damage: u64,
    pub total_av: u64,
    pub total_dpav: crate::ratio::Ratio,
    pub characters: Vec<CharacterSummary>,
}

/// Two avatar records carry the same data.
pub open spec fn avatar_eq(a: Avatar, b: Avatar) -> bool {
    a.id == b.id && a.name@ == b.name@
}

/// Two avatar lists carry the same data, position by position.
pub open spec fn avatars_eq(a: Seq<Avatar>, b: Seq<Avatar>) -> bool {
    a.len() == b.len() && forall|i: int| 0 <= i < a.len() ==> avatar_eq(#[trigger] a[i], b[i])
}

/// Two turn records carry the same data.
pub open spec fn turn_eq(a: TurnInfo, b: TurnInfo) -> bool {
    &&& a.avatars_turn_damage@ == b.avatars_turn_damage@
    &&& a.action_value == b.action_value
    &&& a.wave == b.wave
    &&& a.cycle == b.cycle
    &&& a.total_damage == b.total_damage
}

/// Two turn sequences carry the same data, position by position.
pub open spec fn turns_eq(a: Seq<TurnInfo>, b: Seq<TurnInfo>) -> bool {
    a.len() == b.len() && forall|i: int| 0 <= i < a.len() ==> turn_eq(#[trigger] a[i], b[i])
}

/// Two enemy records carry the same data.
pub open spec fn enemy_eq(a: Enemy, b: Enemy) -> bool {
    a.uid == b.uid && a.id == b.id && a.name@ == b.name@ && a.base_stats == b.base_stats
}

/// Copies one avatar record.
pub fn copy_avatar(a: &Avatar) -> (r: Avatar)
    ensures
        avatar_eq(*a, r),
{
    Avatar { id: a.id, name: a.name.clone() }
}

/// Copies an avatar list.
pub fn copy_avatars(v: &Vec<Avatar>) -> (r: Vec<Avatar>)
    ensures
        avatars_eq(v@, r@),
{
    let mut r: Vec<Avatar> = Vec::new();
    let n = v.len();
    for k in 0..n
        invariant
            n == v@.len(),
            r@.len() == k,
            forall|i: int| 0 <= i < k ==> avatar_eq(#[trigger] v@[i], r@[i]),
    {
        r.push(copy_avatar(&v[k]));
    }
    r
}

/// Copies a damage vector.
pub fn copy_damage_vec(v: &Vec<u64>) -> (r: Vec<u64>)
    ensures
        r@ == v@,
{
    let mut r: Vec<u64> = Vec::new();
    let n = v.len();
    for k in 0..n
        invariant
            n == v@.len(),
            r@.len() == k,
            forall|i: int| 0 <= i < k ==> r@[i] == v@[i],
    {
        r.push(v[k]);
    }
    proof {
        assert(r@ =~= v@);
    }
    r
}

/// Copies one turn record.
pub fn copy_turn_info(t: &TurnInfo) -> (r: TurnInfo)
    ensures
        turn_eq(*t, r),
{
    TurnInfo {
        avatars_turn_damage: copy_damage_vec(&t.avatars_turn_damage),
        action_value: t.action_value,
        wave: t.wave,
        cycle: t.cycle,
        total_damage: t.total_damage,
    }
}

/// Copies a turn sequence.
pub fn copy_turn_infos(v: &Vec<TurnInfo>) -> (r: Vec<TurnInfo>)
    ensures
        turns_eq(v@, r@),
{
    let mut r: Vec<TurnInfo> = Vec::new();
    let n = v.len();
    for k in 0..n
        invariant
            n == v@.len(),
            r@.len() == k,
            forall|i: int| 0 <= i < k ==> turn_eq(#[trigger] v@[i], r@[i]),
    {
        r.push(copy_turn_info(&v[k]));
    }
    r
}

/// Copies an entity list.
pub fn copy_entities(v: &Vec<Entity>) -> (r: Vec<Entity>)
    ensures
        r@ == v@,
{
    let mut r: Vec<Entity> = Vec::new();
    let n = v.len();
    for k in 0..n
        invariant
            n == v@.len(),
            r@.len() == k,
            forall|i: int| 0 <= i < k ==> r@[i] == v@[i],
    {
        r.push(v[k]);
    }
    proof {
        assert(r@ =~= v@);
    }
    r
}

/// Copies one enemy record.
pub fn copy_enemy(e: &Enemy) -> (r: Enemy)
    ensures
        enemy_eq(*e, r),
{
    Enemy { uid: e.uid, id: e.id, name: e.name.clone(), base_stats: e.base_stats }
}

} // verus!
