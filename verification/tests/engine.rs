use veritas::battle::{BattleContext, BattleMode, BattleState, ModeConfig};
use veritas::models::{
    Avatar, Enemy, EnemyBaseStats, Entity, Event, OnBattleBeginEvent, OnDamageEvent,
    OnInitializeEnemyEvent, OnSetLineupEvent, OnStatChangeEvent, OnTurnBeginEvent,
    OnUpdateCycleEvent, OnUpdateTeamFormationEvent, OnUpdateWaveEvent, OnUseSkillEvent, Packet,
    Skill, Stat, Team,
};

fn avatar(id: u32, name: &str) -> Avatar {
    Avatar { id, name: name.to_string() }
}

fn player(uid: u32) -> Entity {
    Entity { uid, team: Team::Player }
}

fn fresh_with_lineup(ids: &[u32]) -> BattleContext {
    let mut ctx = BattleContext::new(ModeConfig::empty());
    let avatars: Vec<Avatar> = ids
        .iter()
        .map(|id| avatar(*id, &format!("Avatar{id}")))
        .collect();
    ctx.handle_event(Event::OnSetBattleLineup(OnSetLineupEvent { avatars }));
    ctx
}

fn damage(ctx: &mut BattleContext, uid: u32, amount: u64) -> Option<Packet> {
    ctx.handle_event(Event::OnDamage(OnDamageEvent {
        attacker: player(uid),
        damage: amount,
        damage_type: 0,
    }))
}

#[test]
fn total_damage_is_sum_of_real_time_damages() {
    let mut ctx = fresh_with_lineup(&[10, 20]);
    for (uid, amount) in [(10, 100u64), (20, 50), (10, 25), (20, 5)] {
        damage(&mut ctx, uid, amount);
        let sum: u64 = ctx.real_time_damages.iter().sum();
        assert_eq!(ctx.total_damage, sum);
    }
    assert_eq!(ctx.real_time_damages, vec![125, 55]);
    assert_eq!(ctx.total_damage, 180);
}

#[test]
fn closed_turn_total_is_sum_of_its_vector() {
    let mut ctx = fresh_with_lineup(&[1, 2, 3]);
    ctx.handle_event(Event::OnTurnBegin(OnTurnBeginEvent { action_value: 7, turn_owner: None }));
    damage(&mut ctx, 1, 40);
    damage(&mut ctx, 3, 2);
    ctx.handle_event(Event::OnTurnEnd);
    assert_eq!(ctx.turn_history.len(), 1);
    let turn = &ctx.turn_history[0];
    assert_eq!(turn.avatars_turn_damage, vec![40, 0, 2]);
    assert_eq!(turn.total_damage, 42);
    let sum: u64 = turn.avatars_turn_damage.iter().sum();
    assert_eq!(turn.total_damage, sum);
}

#[test]
fn av_history_coalesces_consecutive_turns_with_equal_action_value() {
    let mut ctx = fresh_with_lineup(&[1, 2]);
    ctx.handle_event(Event::OnTurnBegin(OnTurnBeginEvent { action_value: 50, turn_owner: None }));
    damage(&mut ctx, 1, 10);
    damage(&mut ctx, 2, 20);
    ctx.handle_event(Event::OnTurnEnd);
    ctx.handle_event(Event::OnTurnBegin(OnTurnBeginEvent { action_value: 50, turn_owner: None }));
    damage(&mut ctx, 1, 5);
    ctx.handle_event(Event::OnTurnEnd);

    assert_eq!(ctx.turn_history.len(), 2);
    assert_eq!(ctx.av_history.len(), 1);
    assert_eq!(ctx.av_history[0].avatars_turn_damage, vec![15, 20]);
}

#[test]
fn av_history_appends_on_new_action_value() {
    let mut ctx = fresh_with_lineup(&[1]);
    ctx.handle_event(Event::OnTurnBegin(OnTurnBeginEvent { action_value: 50, turn_owner: None }));
    damage(&mut ctx, 1, 10);
    ctx.handle_event(Event::OnTurnEnd);
    ctx.handle_event(Event::OnTurnBegin(OnTurnBeginEvent { action_value: 60, turn_owner: None }));
    damage(&mut ctx, 1, 5);
    ctx.handle_event(Event::OnTurnEnd);

    assert_eq!(ctx.av_history.len(), 2);
    assert_eq!(ctx.av_history[0].avatars_turn_damage, vec![10]);
    assert_eq!(ctx.av_history[1].avatars_turn_damage, vec![5]);
}

#[test]
fn second_lineup_resets_everything() {
    let mut ctx = fresh_with_lineup(&[1, 2, 3]);
    ctx.handle_event(Event::OnBattleBegin(OnBattleBeginEvent {
        max_waves: 3,
        max_cycles: 10,
        stage_id: 420500,
    }));
    ctx.handle_event(Event::OnTurnBegin(OnTurnBeginEvent { action_value: 5, turn_owner: None }));
    damage(&mut ctx, 1, 100);
    ctx.handle_event(Event::OnTurnEnd);
    ctx.handle_event(Event::OnUseSkill(OnUseSkillEvent {
        avatar: avatar(1, "Avatar1"),
        skill: Skill { name: "Strike".to_string(), skill_type: 0 },
    }));
    ctx.handle_event(Event::OnInitializeEnemy(OnInitializeEnemyEvent {
        enemy: Enemy {
            uid: 900,
            id: 9,
            name: "Mob".to_string(),
            base_stats: EnemyBaseStats { hp: 1000, level: 80 },
        },
    }));
    ctx.handle_event(Event::OnUpdateWave(OnUpdateWaveEvent { wave: 2 }));
    ctx.handle_event(Event::OnUpdateCycle(OnUpdateCycleEvent { cycle: 4 }));

    ctx.handle_event(Event::OnSetBattleLineup(OnSetLineupEvent {
        avatars: vec![avatar(7, "Solo")],
    }));

    assert_eq!(ctx.turn_history.len(), 0);
    assert_eq!(ctx.av_history.len(), 0);
    assert_eq!(ctx.skill_history.len(), 0);
    assert_eq!(ctx.entity_turn_history.len(), 0);
    assert_eq!(ctx.enemies.len(), 0);
    assert_eq!(ctx.battle_enemies.len(), 0);
    assert_eq!(ctx.enemy_lineup.len(), 0);
    assert_eq!(ctx.total_damage, 0);
    assert_eq!(ctx.action_value, 0);
    assert_eq!(ctx.turn_count, 0);
    assert_eq!(ctx.turn_battle_count, 0);
    assert_eq!(ctx.wave, 0);
    assert_eq!(ctx.cycle, 0);
    assert_eq!(ctx.max_cycle, 0);
    assert_eq!(ctx.max_waves, 0);
    assert_eq!(ctx.stage_id, 0);
    assert_eq!(ctx.real_time_damages, vec![0]);
    assert_eq!(ctx.current_turn_info.avatars_turn_damage, vec![0]);
    assert_eq!(ctx.avatar_lineup.len(), 1);
    assert_eq!(ctx.avatar_lineup[0].id, 7);
    assert!(matches!(ctx.state, Some(BattleState::Started)));
}

#[test]
fn unknown_attacker_leaves_totals_unchanged_and_reports_error() {
    let mut ctx = fresh_with_lineup(&[1, 2]);
    damage(&mut ctx, 1, 30);
    let packet = damage(&mut ctx, 999, 50);
    assert_eq!(ctx.total_damage, 30);
    assert_eq!(ctx.real_time_damages, vec![30, 0]);
    match packet {
        Some(Packet::Error { msg }) => {
            assert_eq!(msg, "Could not find avatar 999 in lineup");
        }
        other => panic!("expected an error packet, got {:?}", other.is_some()),
    }
}

#[test]
fn damage_is_attributed_to_most_recent_skill_entry() {
    let mut ctx = fresh_with_lineup(&[1, 2]);
    ctx.handle_event(Event::OnUseSkill(OnUseSkillEvent {
        avatar: avatar(1, "Avatar1"),
        skill: Skill { name: "Strike".to_string(), skill_type: 1 },
    }));
    damage(&mut ctx, 1, 10);
    damage(&mut ctx, 1, 10);

    assert_eq!(ctx.skill_history.len(), 1);
    let entry = &ctx.skill_history[0];
    assert_eq!(entry.avatar_id, 1);
    assert_eq!(entry.total_damage, 20);
    assert_eq!(entry.damage_detail.len(), 2);
    assert_eq!(entry.damage_detail[0].damage, 10);
    assert_eq!(entry.damage_detail[1].damage, 10);
}

#[test]
fn skill_damage_lands_on_newest_entry_of_that_avatar_only() {
    let mut ctx = fresh_with_lineup(&[1, 2]);
    let use_skill = |ctx: &mut BattleContext, id: u32, name: &str| {
        ctx.handle_event(Event::OnUseSkill(OnUseSkillEvent {
            avatar: avatar(id, &format!("Avatar{id}")),
            skill: Skill { name: name.to_string(), skill_type: 0 },
        }));
    };
    use_skill(&mut ctx, 1, "First");
    use_skill(&mut ctx, 2, "Other");
    use_skill(&mut ctx, 1, "Second");
    damage(&mut ctx, 1, 7);

    assert_eq!(ctx.skill_history.len(), 3);
    assert_eq!(ctx.skill_history[0].total_damage, 0);
    assert_eq!(ctx.skill_history[1].total_damage, 0);
    assert_eq!(ctx.skill_history[2].total_damage, 7);
    assert_eq!(ctx.skill_history[2].skill_name, "Second");
}

#[test]
fn damage_without_skill_entry_changes_no_skill_history() {
    let mut ctx = fresh_with_lineup(&[1]);
    damage(&mut ctx, 1, 10);
    assert_eq!(ctx.skill_history.len(), 0);
    assert_eq!(ctx.total_damage, 10);
}

#[test]
fn duplicate_cycle_update_is_discarded() {
    let mut ctx = fresh_with_lineup(&[1]);
    let first = ctx.handle_event(Event::OnUpdateCycle(OnUpdateCycleEvent { cycle: 5 }));
    assert!(first.is_some());
    assert_eq!(ctx.cycle, 5);
    assert_eq!(ctx.max_cycle, 5);
    let second = ctx.handle_event(Event::OnUpdateCycle(OnUpdateCycleEvent { cycle: 5 }));
    assert!(second.is_none());
    assert_eq!(ctx.cycle, 5);
    assert_eq!(ctx.max_cycle, 5);
}

#[test]
fn cycle_update_raises_max_but_never_lowers_it() {
    let mut ctx = fresh_with_lineup(&[1]);
    ctx.handle_event(Event::OnUpdateCycle(OnUpdateCycleEvent { cycle: 5 }));
    ctx.handle_event(Event::OnUpdateCycle(OnUpdateCycleEvent { cycle: 3 }));
    assert_eq!(ctx.cycle, 3);
    assert_eq!(ctx.max_cycle, 5);
}

#[test]
fn turn_begin_records_owner_and_ordinal() {
    let mut ctx = fresh_with_lineup(&[1]);
    ctx.handle_event(Event::OnUpdateWave(OnUpdateWaveEvent { wave: 2 }));
    ctx.handle_event(Event::OnUpdateCycle(OnUpdateCycleEvent { cycle: 3 }));
    ctx.handle_event(Event::OnTurnBegin(OnTurnBeginEvent {
        action_value: 11,
        turn_owner: Some(player(1)),
    }));
    ctx.handle_event(Event::OnTurnBegin(OnTurnBeginEvent { action_value: 12, turn_owner: None }));

    assert_eq!(ctx.turn_battle_count, 2);
    assert_eq!(ctx.entity_turn_history.len(), 1);
    let rec = &ctx.entity_turn_history[0];
    assert_eq!(rec.entity.uid, 1);
    assert_eq!(rec.action_value, 11);
    assert_eq!(rec.wave, 2);
    assert_eq!(rec.cycle, 3);
    assert_eq!(ctx.action_value, 12);
}

#[test]
fn use_skill_is_keyed_by_turn_order_history_length() {
    let mut ctx = fresh_with_lineup(&[1]);
    ctx.handle_event(Event::OnTurnBegin(OnTurnBeginEvent {
        action_value: 1,
        turn_owner: Some(player(1)),
    }));
    ctx.handle_event(Event::OnTurnBegin(OnTurnBeginEvent {
        action_value: 2,
        turn_owner: Some(player(1)),
    }));
    ctx.handle_event(Event::OnUseSkill(OnUseSkillEvent {
        avatar: avatar(1, "Avatar1"),
        skill: Skill { name: "Ult".to_string(), skill_type: 2 },
    }));
    assert_eq!(ctx.skill_history[0].turn_battle_id, 2);
}

#[test]
fn battle_begin_classifies_and_keeps_accumulation() {
    let mut ctx = fresh_with_lineup(&[1]);
    damage(&mut ctx, 1, 10);
    ctx.handle_event(Event::OnBattleBegin(OnBattleBeginEvent {
        max_waves: 3,
        max_cycles: 10,
        stage_id: 420500,
    }));
    assert_eq!(ctx.total_damage, 10);
    assert_eq!(ctx.max_waves, 3);
    assert_eq!(ctx.stage_id, 420500);
    assert!(matches!(ctx.battle_mode, BattleMode::AS));
}

#[test]
fn moc_wave_update_snapshots_relative_action_value() {
    let mut ctx = BattleContext::new(ModeConfig {
        moc: vec![1000],
        pf: vec![],
        aa: vec![],
    });
    ctx.handle_event(Event::OnSetBattleLineup(OnSetLineupEvent {
        avatars: vec![avatar(1, "Avatar1")],
    }));
    ctx.handle_event(Event::OnBattleBegin(OnBattleBeginEvent {
        max_waves: 3,
        max_cycles: 10,
        stage_id: 1000,
    }));
    assert!(matches!(ctx.battle_mode, BattleMode::MOC));
    ctx.handle_event(Event::OnTurnBegin(OnTurnBeginEvent { action_value: 42, turn_owner: None }));
    ctx.handle_event(Event::OnUpdateWave(OnUpdateWaveEvent { wave: 2 }));
    assert_eq!(ctx.wave, 2);
    assert_eq!(ctx.last_wave_action_value, 42);
}

#[test]
fn non_moc_wave_update_keeps_baseline() {
    let mut ctx = fresh_with_lineup(&[1]);
    ctx.handle_event(Event::OnTurnBegin(OnTurnBeginEvent { action_value: 42, turn_owner: None }));
    ctx.handle_event(Event::OnUpdateWave(OnUpdateWaveEvent { wave: 2 }));
    assert_eq!(ctx.wave, 2);
    assert_eq!(ctx.last_wave_action_value, 0);
}

#[test]
fn stat_change_updates_first_matching_record() {
    let mut ctx = fresh_with_lineup(&[1, 2]);
    ctx.handle_event(Event::OnStatChange(OnStatChangeEvent {
        entity: player(2),
        stat: Stat::HP(5000),
    }));
    ctx.handle_event(Event::OnStatChange(OnStatChangeEvent {
        entity: player(2),
        stat: Stat::Speed(134),
    }));
    assert_eq!(ctx.battle_avatars[1].battle_stats.hp, 5000);
    assert_eq!(ctx.battle_avatars[1].battle_stats.speed, 134);
    assert_eq!(ctx.battle_avatars[0].battle_stats.hp, 0);
}

#[test]
fn stat_change_for_unknown_entity_is_a_no_op() {
    let mut ctx = fresh_with_lineup(&[1]);
    let packet = ctx.handle_event(Event::OnStatChange(OnStatChangeEvent {
        entity: player(77),
        stat: Stat::Attack(1),
    }));
    assert!(packet.is_some());
    assert_eq!(ctx.battle_avatars[0].battle_stats.attack, 0);
}

#[test]
fn unrecognized_stat_kind_is_ignored() {
    let mut ctx = fresh_with_lineup(&[1]);
    ctx.handle_event(Event::OnStatChange(OnStatChangeEvent {
        entity: player(1),
        stat: Stat::Other(9),
    }));
    let stats = ctx.battle_avatars[0].battle_stats;
    assert_eq!(stats.hp, 0);
    assert_eq!(stats.attack, 0);
    assert_eq!(stats.defense, 0);
    assert_eq!(stats.speed, 0);
    assert_eq!(stats.av, 0);
}

#[test]
fn initialize_enemy_appends_in_spawn_order_with_base_hp() {
    let mut ctx = fresh_with_lineup(&[1]);
    ctx.handle_event(Event::OnInitializeEnemy(OnInitializeEnemyEvent {
        enemy: Enemy {
            uid: 500,
            id: 42,
            name: "Boss".to_string(),
            base_stats: EnemyBaseStats { hp: 90000, level: 90 },
        },
    }));
    assert_eq!(ctx.enemies.len(), 1);
    assert_eq!(ctx.enemies[0].uid, 500);
    assert_eq!(ctx.battle_enemies.len(), 1);
    assert_eq!(ctx.battle_enemies[0].entity.uid, 500);
    assert!(matches!(ctx.battle_enemies[0].entity.team, Team::Enemy));
    assert_eq!(ctx.battle_enemies[0].battle_stats.hp, 90000);
    assert_eq!(ctx.battle_enemies[0].battle_stats.attack, 0);
}

#[test]
fn team_formation_replaces_only_enemy_lineup() {
    let mut ctx = fresh_with_lineup(&[1]);
    let enemies = vec![Entity { uid: 7, team: Team::Enemy }, Entity { uid: 8, team: Team::Enemy }];
    ctx.handle_event(Event::OnUpdateTeamFormation(OnUpdateTeamFormationEvent {
        entities: enemies,
        team: Team::Enemy,
    }));
    assert_eq!(ctx.enemy_lineup.len(), 2);
    assert_eq!(ctx.enemy_lineup[0].uid, 7);

    ctx.handle_event(Event::OnUpdateTeamFormation(OnUpdateTeamFormationEvent {
        entities: vec![player(1)],
        team: Team::Player,
    }));
    assert_eq!(ctx.enemy_lineup.len(), 2);
}

#[test]
fn total_stays_consistent_across_mixed_events() {
    let mut ctx = fresh_with_lineup(&[1, 2]);
    let events: Vec<Event> = vec![
        Event::OnTurnBegin(OnTurnBeginEvent { action_value: 3, turn_owner: Some(player(1)) }),
        Event::OnUseSkill(OnUseSkillEvent {
            avatar: avatar(1, "Avatar1"),
            skill: Skill { name: "Strike".to_string(), skill_type: 0 },
        }),
        Event::OnDamage(OnDamageEvent { attacker: player(1), damage: 11, damage_type: 0 }),
        Event::OnTurnEnd,
        Event::OnUpdateWave(OnUpdateWaveEvent { wave: 2 }),
        Event::OnDamage(OnDamageEvent { attacker: player(2), damage: 7, damage_type: 1 }),
        Event::OnUpdateCycle(OnUpdateCycleEvent { cycle: 1 }),
        Event::OnTurnEnd,
        Event::OnBattleEnd,
    ];
    for event in events {
        ctx.handle_event(event);
        let sum: u64 = ctx.real_time_damages.iter().sum();
        assert_eq!(ctx.total_damage, sum);
    }
    assert_eq!(ctx.total_damage, 18);
}

#[test]
fn merged_av_entry_keeps_first_turn_identity_fields() {
    let mut ctx = fresh_with_lineup(&[1]);
    ctx.handle_event(Event::OnTurnBegin(OnTurnBeginEvent { action_value: 9, turn_owner: None }));
    damage(&mut ctx, 1, 10);
    ctx.handle_event(Event::OnTurnEnd);
    ctx.handle_event(Event::OnUpdateWave(OnUpdateWaveEvent { wave: 5 }));
    damage(&mut ctx, 1, 4);
    ctx.handle_event(Event::OnTurnEnd);

    assert_eq!(ctx.av_history.len(), 1);
    let merged = &ctx.av_history[0];
    assert_eq!(merged.avatars_turn_damage, vec![14]);
    // the merged entry keeps the identity of the turn that opened it
    assert_eq!(merged.wave, 0);
    assert_eq!(merged.total_damage, 10);
    // the turn history still records both turns separately
    assert_eq!(ctx.turn_history[1].wave, 5);
    assert_eq!(ctx.turn_history[1].total_damage, 4);
}

#[test]
fn lineup_packet_echoes_the_lineup() {
    let mut ctx = BattleContext::new(ModeConfig::empty());
    let packet = ctx.handle_event(Event::OnSetBattleLineup(OnSetLineupEvent {
        avatars: vec![avatar(5, "Echo"), avatar(6, "Fox")],
    }));
    match packet {
        Some(Packet::OnSetBattleLineup { avatars }) => {
            assert_eq!(avatars.len(), 2);
            assert_eq!(avatars[0].id, 5);
            assert_eq!(avatars[0].name, "Echo");
            assert_eq!(avatars[1].name, "Fox");
        }
        _ => panic!("expected a lineup packet"),
    }
}

#[test]
fn turn_end_packet_carries_the_closed_turn() {
    let mut ctx = fresh_with_lineup(&[1]);
    ctx.handle_event(Event::OnUpdateWave(OnUpdateWaveEvent { wave: 3 }));
    ctx.handle_event(Event::OnTurnBegin(OnTurnBeginEvent { action_value: 8, turn_owner: None }));
    damage(&mut ctx, 1, 6);
    let packet = ctx.handle_event(Event::OnTurnEnd);
    match packet {
        Some(Packet::OnTurnEnd { turn_info }) => {
            assert_eq!(turn_info.avatars_turn_damage, vec![6]);
            assert_eq!(turn_info.action_value, 8);
            assert_eq!(turn_info.wave, 3);
            assert_eq!(turn_info.total_damage, 6);
        }
        _ => panic!("expected a turn-end packet"),
    }
}

#[test]
fn turn_end_before_any_lineup_closes_an_empty_turn() {
    let mut ctx = BattleContext::new(ModeConfig::empty());
    let packet = ctx.handle_event(Event::OnTurnEnd);
    assert!(packet.is_some());
    assert_eq!(ctx.turn_history.len(), 1);
    assert_eq!(ctx.turn_history[0].avatars_turn_damage.len(), 0);
    assert_eq!(ctx.turn_history[0].total_damage, 0);
    assert_eq!(ctx.turn_count, 1);
}

#[test]
fn battle_end_emits_terminal_snapshot() {
    let mut ctx = fresh_with_lineup(&[1, 2]);
    ctx.handle_event(Event::OnTurnBegin(OnTurnBeginEvent { action_value: 10, turn_owner: None }));
    damage(&mut ctx, 1, 100);
    ctx.handle_event(Event::OnTurnEnd);
    let packet = ctx.handle_event(Event::OnBattleEnd);
    assert!(matches!(ctx.state, Some(BattleState::Ended)));
    match packet {
        Some(Packet::OnBattleEnd {
            avatars,
            turn_history,
            av_history,
            turn_count,
            total_damage,
            action_value,
            ..
        }) => {
            assert_eq!(avatars.len(), 2);
            assert_eq!(turn_history.len(), 1);
            assert_eq!(av_history.len(), 1);
            assert_eq!(turn_count, 1);
            assert_eq!(total_damage, 100);
            assert_eq!(action_value, 10);
        }
        _ => panic!("expected a terminal snapshot packet"),
    }
}
