use sts2core::content::lists::knowledge_curses;
use sts2core::content::{
    about_to_blow, card, card_ops, conditional_start, costs_x, curses_taken, death_summon_hp, ench_block_add,
    ench_damage_add, ench_damage_mul, enchant_by_id, enchant_of, enemy, enemy_def, enemy_private_markers,
    enemy_start_player_status, hp_left_this_form, is_strike, is_turn_phase, move_matches_form,
    offers_curse_choice, playable, random_generated_card, random_generated_card_of, relic_by_id,
    remaining_hp_including_revives, spent_once_per_combat, synth_gap, unplayable, upgradable, Arm,
    ABOUT_TO_BLOW_HP,
};
use sts2core::content::card as c;
use sts2core::ops::{Kind, Op, Scale};
use sts2core::state::{CardInst, Entity, St};

fn ent(hp: i32, max_hp: i32, pairs: &[(St, i32)]) -> Entity {
    let mut e = Entity::new(hp, max_hp);
    for &(s, v) in pairs {
        e.set(s, v);
    }
    e
}

#[test]
fn card_lists() {
    assert!(is_strike(c::STRIKE));
    assert!(is_strike(c::POMMEL_STRIKE));
    assert!(!is_strike(c::DEFEND));
    assert!(unplayable(c::WOUND));
    assert!(!unplayable(c::STRIKE));
    assert!(costs_x(c::WHIRLWIND));
    assert!(!costs_x(c::BASH));
}

#[test]
fn card_table_and_upgrades() {
    let strike = card(c::STRIKE);
    assert_eq!(strike.name, "打击");
    assert_eq!(strike.cost, 1);
    assert_eq!(strike.kind, Kind::Attack);
    assert_eq!(card_ops(c::STRIKE, false), &[Op::Damage { base: 6, hits: 1, scale: Scale::Flat }][..]);
    assert_eq!(card_ops(c::STRIKE, true), &[Op::Damage { base: 9, hits: 1, scale: Scale::Flat }][..]);
    assert!(upgradable(c::STRIKE));
    assert!(!upgradable(c::WOUND));
    assert!(!upgradable(c::SPOILS_MAP));
}

#[test]
fn some_status_cards_can_be_played() {
    assert!(playable(c::STRIKE));
    assert!(!playable(c::WOUND));
    assert!(playable(c::SLIMED));
    assert!(!playable(c::SPOILS_MAP));
}

#[test]
fn generated_cards_come_from_the_pool_and_match_the_kind() {
    for seed in 1..40u64 {
        let mut rng = seed;
        let id = random_generated_card(&mut rng, true).unwrap();
        assert_eq!(card(id).kind, Kind::Attack);
        assert_ne!(rng, seed);
        let mut again = seed;
        assert_eq!(random_generated_card(&mut again, true), Some(id));
        let mut rng = seed;
        let id = random_generated_card_of(&mut rng, Kind::Power).unwrap();
        assert_eq!(card(id).kind, Kind::Power);
        let mut rng = seed;
        assert!(random_generated_card(&mut rng, false).is_some());
    }
}

#[test]
fn once_per_combat_and_turn_phase_statuses() {
    assert!(spent_once_per_combat(St::VambraceCharge));
    assert!(spent_once_per_combat(St::UnmovableCharge));
    assert!(spent_once_per_combat(St::TeaSet));
    assert!(spent_once_per_combat(St::CentennialPuzzle));
    assert!(!spent_once_per_combat(St::Strength));
    assert!(is_turn_phase(St::PendulumPhase));
    assert!(!is_turn_phase(St::Pendulum));
    assert!(!is_turn_phase(St::Strength));
}

#[test]
fn relic_lookups() {
    let v = relic_by_id("VAMBRACE").unwrap();
    assert_eq!(v.name, "臂甲");
    assert!(relic_by_id("NO_SUCH_RELIC").is_none());
    assert_eq!(synth_gap("GIRYA"), Some("开局给力量（换过几次是局外状态，走 FightSpec::start_status）"));
    assert_eq!(synth_gap("VAMBRACE"), None);
    assert_eq!(conditional_start("PANTOGRAPH"), Some((Arm::BossRoom, St::Pantograph, 25)));
    assert_eq!(conditional_start("BONE_TEA"), Some((Arm::RelicCounter, St::UpgradeOpeningHand, 1)));
    assert_eq!(conditional_start("ANCHOR"), None);
}

#[test]
fn enchantments_are_stored_as_index_plus_one() {
    let (ix, def) = enchant_by_id("CORRUPTED").unwrap();
    assert_eq!(ix, 6);
    assert_eq!(def.damage_mul, (3, 2));
    assert!(enchant_by_id("NOT_AN_ENCHANTMENT").is_none());
    let corrupted = CardInst { id: c::STRIKE, upgraded: false, ench: ix, ench_amt: 0 };
    assert_eq!(enchant_of(&corrupted).unwrap().id, "CORRUPTED");
    assert_eq!(ench_damage_mul(&corrupted), (3, 2));
    let nimble = CardInst { id: c::DEFEND, upgraded: false, ench: 1, ench_amt: 3 };
    assert_eq!(ench_block_add(&nimble), 3);
    assert_eq!(ench_damage_add(&nimble), 0);
    let sharp = CardInst { id: c::STRIKE, upgraded: false, ench: 4, ench_amt: 2 };
    assert_eq!(ench_damage_add(&sharp), 2);
    let plain = CardInst { id: c::STRIKE, upgraded: false, ench: 0, ench_amt: 5 };
    assert!(enchant_of(&plain).is_none());
    assert_eq!((ench_block_add(&plain), ench_damage_add(&plain), ench_damage_mul(&plain)), (0, 0, (1, 1)));
    let past_the_table = CardInst { ench: 200, ..plain };
    assert!(enchant_of(&past_the_table).is_none());
}

#[test]
fn test_subject_moves_follow_its_form() {
    let boss = enemy::TEST_SUBJECT_BOSS;
    let dead = ent(0, 100, &[]);
    assert!(move_matches_form(boss, 0, &dead));
    assert!(!move_matches_form(boss, 1, &dead));
    let form1 = ent(100, 100, &[]);
    assert!(move_matches_form(boss, 1, &form1));
    assert!(!move_matches_form(boss, 3, &form1));
    let form2 = ent(200, 200, &[(St::PainfulStabs, 1)]);
    assert!(move_matches_form(boss, 3, &form2));
    assert!(!move_matches_form(boss, 1, &form2));
    let form3 = ent(300, 300, &[(St::Nemesis, 1)]);
    assert!(move_matches_form(boss, 5, &form3));
    assert!(!move_matches_form(boss, 3, &form3));
    assert!(move_matches_form(enemy::NIBBIT, 9, &dead));
}

#[test]
fn curses_taken_is_read_off_the_player() {
    let sets = knowledge_curses();
    assert_eq!(curses_taken(&ent(80, 80, &[]), sets), 0);
    assert_eq!(curses_taken(&ent(80, 80, &[(St::MindRot, 1)]), sets), 1);
    assert_eq!(curses_taken(&ent(80, 80, &[(St::Disintegration, 6)]), sets), 1);
    assert_eq!(curses_taken(&ent(80, 80, &[(St::MindRot, 1), (St::Disintegration, 7)]), sets), 2);
    assert_eq!(curses_taken(&ent(80, 80, &[(St::Disintegration, 13)]), sets), 2);
    assert_eq!(
        curses_taken(&ent(80, 80, &[(St::MindRot, 1), (St::Disintegration, 7), (St::WasteAway, 1)]), sets),
        3
    );
    assert_eq!(curses_taken(&ent(80, 80, &[(St::Disintegration, 21)]), sets), 3);
    // Artifact ate the first one: the last visible curse is the count
    assert_eq!(curses_taken(&ent(80, 80, &[(St::Sloth, 3)]), sets), 2);
    assert_eq!(curses_taken(&ent(80, 80, &[(St::Disintegration, 5)]), sets), 1);
}

#[test]
fn only_the_knowledge_demon_offers_the_curse() {
    assert!(offers_curse_choice(enemy::KNOWLEDGE_DEMON));
    assert!(!offers_curse_choice(enemy::NIBBIT));
    assert_eq!(enemy_def(enemy::KNOWLEDGE_DEMON).name, "知识恶魔");
    assert_eq!(enemy_def(enemy::SHRINK_BEETLE).max_hp, 40);
}

#[test]
fn hit_points_left_to_fight() {
    let blowing = ent(ABOUT_TO_BLOW_HP, ABOUT_TO_BLOW_HP, &[]);
    assert!(about_to_blow(&blowing));
    assert_eq!(hp_left_this_form(&blowing), 0);
    assert!(!about_to_blow(&ent(10, 20, &[])));
    assert_eq!(hp_left_this_form(&ent(12, 20, &[])), 12);
    assert_eq!(hp_left_this_form(&ent(-3, 20, &[])), 0);
}

#[test]
fn summons_on_death_count_as_hit_points() {
    assert_eq!(death_summon_hp(&ent(30, 30, &[(St::Infested, 1)])), 76);
    assert_eq!(death_summon_hp(&ent(30, 30, &[(St::Surprise, 1)])), 27);
    assert_eq!(death_summon_hp(&ent(30, 30, &[(St::Stock, 2)])), 148);
    assert_eq!(death_summon_hp(&ent(0, 30, &[(St::Stock, 2)])), 0);
    assert_eq!(death_summon_hp(&ent(0, 30, &[(St::Stock, 100_000_000)])), 0);
    assert_eq!(remaining_hp_including_revives(&ent(0, 30, &[(St::Stock, 100_000_000)])), 0);
    assert_eq!(death_summon_hp(&ent(30, 30, &[])), 0);
    assert_eq!(remaining_hp_including_revives(&ent(20, 30, &[(St::Infested, 1)])), 96);
}

#[test]
fn test_subject_forms_still_to_come() {
    assert_eq!(remaining_hp_including_revives(&ent(4, 100, &[(St::Adaptable, 1)])), 504);
    assert_eq!(remaining_hp_including_revives(&ent(10, 200, &[(St::Adaptable, 1)])), 310);
    assert_eq!(remaining_hp_including_revives(&ent(10, 300, &[])), 10);
}

#[test]
fn statuses_named_by_enemy() {
    assert_eq!(enemy_start_player_status("火箭"), vec![(St::Surrounded, 1)]);
    assert!(enemy_start_player_status("无名").is_empty());
    assert_eq!(enemy_private_markers("鬼祟珊瑚群"), vec![(St::HardenedShellCap, 20)]);
    assert_eq!(enemy_private_markers("幽灵骑士"), vec![(St::HexCaster, 1)]);
    assert!(enemy_private_markers("火箭").is_empty());
}
