use veritas::battle::{summary_filename, BattleContext, BattleMode, ModeConfig};
use veritas::export::BattleDataExporter;
use veritas::models::{
    Avatar, Enemy, EnemyBaseStats, Entity, Event, OnDamageEvent, OnInitializeEnemyEvent,
    OnSetLineupEvent, OnStatChangeEvent, OnTurnBeginEvent, OnUseSkillEvent, Skill, Stat, Team,
};
use veritas::ratio::Ratio;

fn avatar(id: u32, name: &str) -> Avatar {
    Avatar { id, name: name.to_string() }
}

fn ratio_value(r: Ratio) -> f64 {
    r.num as f64 / r.den as f64
}

fn two_avatar_battle() -> BattleContext {
    let mut ctx = BattleContext::new(ModeConfig::empty());
    ctx.handle_event(Event::OnSetBattleLineup(OnSetLineupEvent {
        avatars: vec![avatar(10, "Alpha"), avatar(20, "Beta")],
    }));
    ctx.handle_event(Event::OnTurnBegin(OnTurnBeginEvent { action_value: 10, turn_owner: None }));
    ctx.handle_event(Event::OnDamage(OnDamageEvent {
        attacker: Entity { uid: 10, team: Team::Player },
        damage: 100,
        damage_type: 0,
    }));
    ctx.handle_event(Event::OnTurnEnd);
    ctx.handle_event(Event::OnBattleEnd);
    ctx
}

#[test]
fn classification_prefers_config_buckets_then_range_rule() {
    let cfg = ModeConfig { moc: vec![30301], pf: vec![40401], aa: vec![50501] };
    let ctx = BattleContext::new(cfg);
    assert!(matches!(ctx.get_battle_mode(30301), BattleMode::MOC));
    assert!(matches!(ctx.get_battle_mode(40401), BattleMode::PF));
    assert!(matches!(ctx.get_battle_mode(50501), BattleMode::AA));
    assert!(matches!(ctx.get_battle_mode(420500), BattleMode::AS));
    assert!(matches!(ctx.get_battle_mode(420101), BattleMode::AS));
    assert!(matches!(ctx.get_battle_mode(420999), BattleMode::AS));
    assert!(matches!(ctx.get_battle_mode(421000), BattleMode::Other));
    assert!(matches!(ctx.get_battle_mode(1), BattleMode::Other));
}

#[test]
fn end_to_end_export_document_totals() {
    let ctx = two_avatar_battle();
    let exporter = BattleDataExporter::new();
    let data = exporter.export_battle_data(&ctx, "1.0.0");

    assert_eq!(data.total_damage, 100);
    assert_eq!(data.total_av, 10);
    assert_eq!(ratio_value(data.damage_per_av), 10.0);
    assert_eq!(data.lineup.len(), 2);
    assert_eq!(data.lineup[0].avatar_id, 10);
    assert!(!data.lineup[0].is_die);
    assert_eq!(data.version, "1.0.0");
}

#[test]
fn end_to_end_chart_data_has_one_summary_row_per_avatar() {
    let ctx = two_avatar_battle();
    let exporter = BattleDataExporter::new();
    let rows = exporter.generate_comprehensive_chart_data(&ctx);

    let summaries: Vec<_> = rows
        .iter()
        .filter(|r| r.data_type == "character_summary" && r.character_id == 10)
        .collect();
    assert_eq!(summaries.len(), 1);
    let row = summaries[0];
    assert_eq!(row.total_damage, Some(100));
    assert_eq!(ratio_value(row.damage_percentage.unwrap()), 100.0);
    assert_eq!(ratio_value(row.dpav.unwrap()), 10.0);
    assert_eq!(row.turns_taken, Some(1));
    assert_eq!(row.max_single_turn_damage, Some(100));
    assert_eq!(row.first_turn_number, Some(1));
    assert_eq!(row.last_turn_number, Some(1));
}

#[test]
fn zero_action_value_gives_zero_ratios_everywhere() {
    let mut ctx = BattleContext::new(ModeConfig::empty());
    ctx.handle_event(Event::OnSetBattleLineup(OnSetLineupEvent {
        avatars: vec![avatar(1, "Solo")],
    }));
    ctx.handle_event(Event::OnDamage(OnDamageEvent {
        attacker: Entity { uid: 1, team: Team::Player },
        damage: 50,
        damage_type: 0,
    }));
    let exporter = BattleDataExporter::new();
    let data = exporter.export_battle_data(&ctx, "0");
    assert_eq!(ratio_value(data.damage_per_av), 0.0);
    assert!(data.damage_per_av.num == 0 && data.damage_per_av.den == 1);

    let rows = exporter.generate_comprehensive_chart_data(&ctx);
    let dpav = rows[0].dpav.unwrap();
    assert!(dpav.num == 0 && dpav.den == 1);

    let summary = ctx.build_battle_summary("20240101_000000").unwrap();
    assert!(summary.total_dpav.num == 0 && summary.total_dpav.den == 1);
    assert!(summary.characters[0].dpav.num == 0 && summary.characters[0].dpav.den == 1);
}

#[test]
fn turn_order_projection_starts_with_sentinel() {
    let mut ctx = BattleContext::new(ModeConfig::empty());
    ctx.handle_event(Event::OnSetBattleLineup(OnSetLineupEvent {
        avatars: vec![avatar(1, "Solo")],
    }));
    ctx.handle_event(Event::OnTurnBegin(OnTurnBeginEvent {
        action_value: 25,
        turn_owner: Some(Entity { uid: 1, team: Team::Player }),
    }));
    let exporter = BattleDataExporter::new();
    let data = exporter.export_battle_data(&ctx, "0");
    assert_eq!(data.turn_history.len(), 2);
    assert_eq!(data.turn_history[0].avatar_id, -1);
    assert_eq!(data.turn_history[0].action_value, 0);
    assert_eq!(data.turn_history[1].avatar_id, 1);
    assert_eq!(data.turn_history[1].action_value, 25);
}

#[test]
fn export_details_carry_stats_and_positions() {
    let mut ctx = BattleContext::new(ModeConfig::empty());
    ctx.handle_event(Event::OnSetBattleLineup(OnSetLineupEvent {
        avatars: vec![avatar(1, "Solo")],
    }));
    ctx.handle_event(Event::OnStatChange(OnStatChangeEvent {
        entity: Entity { uid: 1, team: Team::Player },
        stat: Stat::HP(4321),
    }));
    for uid in [500, 501] {
        ctx.handle_event(Event::OnInitializeEnemy(OnInitializeEnemyEvent {
            enemy: Enemy {
                uid,
                id: uid * 10,
                name: format!("Mob{uid}"),
                base_stats: EnemyBaseStats { hp: 777, level: 60 },
            },
        }));
    }
    let exporter = BattleDataExporter::new();
    let data = exporter.export_battle_data(&ctx, "0");

    assert_eq!(data.avatar_detail.len(), 1);
    let det = &data.avatar_detail[0];
    assert_eq!(det.id, 1);
    assert_eq!(det.killer_uid, -1);
    assert_eq!(det.stats.unwrap().hp, 4321);
    assert_eq!(det.stats_history.len(), 1);
    assert_eq!(det.stats_history[0].turn_battle_id, 0);

    assert_eq!(data.enemy_detail.len(), 2);
    assert_eq!(data.enemy_detail[0].position_index, 0);
    assert_eq!(data.enemy_detail[1].position_index, 1);
    assert_eq!(data.enemy_detail[1].id, 5010);
    assert_eq!(data.enemy_detail[1].name, "Mob501");
    assert_eq!(data.enemy_detail[1].max_hp, 777);
    assert_eq!(data.enemy_detail[1].level, 60);
    assert_eq!(data.enemy_detail[1].stats.unwrap().hp, 777);
}

#[test]
fn skill_rows_carry_cumulative_counters_and_context() {
    let mut ctx = BattleContext::new(ModeConfig::empty());
    ctx.handle_event(Event::OnSetBattleLineup(OnSetLineupEvent {
        avatars: vec![avatar(1, "Solo"), avatar(2, "Duo")],
    }));
    let use_skill = |ctx: &mut BattleContext, id: u32, name: &str, ty: u32| {
        ctx.handle_event(Event::OnUseSkill(OnUseSkillEvent {
            avatar: avatar(id, "x"),
            skill: Skill { name: name.to_string(), skill_type: ty },
        }));
    };
    let hit = |ctx: &mut BattleContext, id: u32, dmg: u64| {
        ctx.handle_event(Event::OnDamage(OnDamageEvent {
            attacker: Entity { uid: id, team: Team::Player },
            damage: dmg,
            damage_type: 1,
        }));
    };
    use_skill(&mut ctx, 1, "Strike", 0);
    hit(&mut ctx, 1, 60);
    ctx.handle_event(Event::OnTurnBegin(OnTurnBeginEvent {
        action_value: 30,
        turn_owner: Some(Entity { uid: 1, team: Team::Player }),
    }));
    use_skill(&mut ctx, 2, "Bolt", 1);
    hit(&mut ctx, 2, 40);
    use_skill(&mut ctx, 1, "Strike", 0);
    hit(&mut ctx, 1, 100);

    let exporter = BattleDataExporter::new();
    let rows = exporter.generate_comprehensive_chart_data(&ctx);
    let details: Vec<_> = rows.iter().filter(|r| r.data_type == "skill_detail").collect();
    assert_eq!(details.len(), 3);

    assert_eq!(details[0].turn_order, Some(1));
    assert_eq!(details[0].skill_damage, Some(60));
    assert_eq!(details[0].cumulative_damage, Some(60));
    assert_eq!(details[0].cumulative_character_damage, Some(60));
    assert_eq!(ratio_value(details[0].skill_damage_percentage.unwrap()), 30.0);
    // the first invocation is keyed before any turn-order record, so its
    // context comes from the record the next turn-begin appended
    assert_eq!(details[0].turn_battle_id, Some(0));
    assert_eq!(details[0].wave, Some(0));
    assert_eq!(details[0].cycle, Some(0));
    assert_eq!(details[0].action_value, Some(30));

    assert_eq!(details[1].cumulative_damage, Some(100));
    assert_eq!(details[1].cumulative_character_damage, Some(40));
    assert_eq!(details[1].skill_type_name.as_deref(), Some("Skill"));

    assert_eq!(details[2].cumulative_damage, Some(200));
    assert_eq!(details[2].cumulative_character_damage, Some(160));
    assert_eq!(details[2].turn_battle_id, Some(1));
    // turn-battle id 1 is out of range of the single turn-order record,
    // so the context falls back to its defaults
    assert_eq!(details[2].wave, Some(1));
    assert_eq!(details[2].cycle, Some(1));
    assert_eq!(details[2].action_value, Some(0));
}

#[test]
fn primary_skill_usage_counts_the_most_used_skill() {
    let mut ctx = BattleContext::new(ModeConfig::empty());
    ctx.handle_event(Event::OnSetBattleLineup(OnSetLineupEvent {
        avatars: vec![avatar(1, "Solo")],
    }));
    for name in ["Strike", "Bolt", "Strike", "Strike", "Bolt"] {
        ctx.handle_event(Event::OnUseSkill(OnUseSkillEvent {
            avatar: avatar(1, "Solo"),
            skill: Skill { name: name.to_string(), skill_type: 0 },
        }));
    }
    let exporter = BattleDataExporter::new();
    let rows = exporter.generate_comprehensive_chart_data(&ctx);
    assert_eq!(rows[0].primary_skill_usage_count, Some(3));
}

#[test]
fn skill_type_names_cover_known_and_unknown_codes() {
    let exporter = BattleDataExporter::new();
    assert_eq!(exporter.get_skill_type_name(0), "Basic");
    assert_eq!(exporter.get_skill_type_name(1), "Skill");
    assert_eq!(exporter.get_skill_type_name(2), "Ultimate");
    assert_eq!(exporter.get_skill_type_name(3), "Talent");
    assert_eq!(exporter.get_skill_type_name(7), "Type_7");
    assert_eq!(exporter.get_skill_type_name(41), "Type_41");
}

#[test]
fn battle_summary_reflects_lineup_and_shares() {
    let mut ctx = two_avatar_battle();
    ctx.handle_event(Event::OnDamage(OnDamageEvent {
        attacker: Entity { uid: 20, team: Team::Player },
        damage: 40,
        damage_type: 0,
    }));
    let summary = ctx.build_battle_summary("20240101_120000").unwrap();
    assert_eq!(summary.team_name, "Alpha");
    assert_eq!(summary.lineup, vec!["Alpha".to_string(), "Beta".to_string()]);
    assert_eq!(summary.timestamp, "20240101_120000");
    assert_eq!(summary.total_damage, 140);
    assert_eq!(summary.total_av, 10);
    assert_eq!(ratio_value(summary.total_dpav), 14.0);
    assert_eq!(summary.characters.len(), 2);
    assert_eq!(summary.characters[0].name, "Alpha");
    assert_eq!(summary.characters[0].total_damage, 100);
    assert_eq!(ratio_value(summary.characters[0].dpav), 10.0);
    assert_eq!(summary.characters[1].total_damage, 40);
}

#[test]
fn empty_lineup_yields_no_summary() {
    let ctx = BattleContext::new(ModeConfig::empty());
    assert!(ctx.build_battle_summary("now").is_none());
}

#[test]
fn summary_filename_embeds_team_mode_stage_and_timestamp() {
    let name = summary_filename("Alpha", BattleMode::MOC, 30301, "20240101_120000");
    assert_eq!(name, "SUMMARY_Alpha_MOC_Stage30301_20240101_120000.json");
    let name = summary_filename("Solo", BattleMode::Other, 0, "t");
    assert_eq!(name, "SUMMARY_Solo_Other_Stage0_t.json");
}

#[test]
fn ratio_of_defines_division_by_zero_as_zero() {
    let r = Ratio::of(5, 0);
    assert_eq!(r.num, 0);
    assert_eq!(r.den, 1);
    let r = Ratio::of(3, 4);
    assert_eq!(r.num, 3);
    assert_eq!(r.den, 4);
    assert_eq!(ratio_value(r), 0.75);
    let z = Ratio::zero();
    assert_eq!(ratio_value(z), 0.0);
}
