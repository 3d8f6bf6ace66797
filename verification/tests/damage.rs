use sts2core::damage::{
    absorb, apply_modifiers, apply_modifiers_unpowered, artifact_absorbs, card_block, card_face_damage,
    is_debuff, is_debuff_amount, monster_block, tagged_attack_bonus,
};
use sts2core::state::{Entity, St};

fn ent(pairs: &[(St, i32)]) -> Entity {
    let mut e = Entity::new(50, 50);
    for &(s, v) in pairs {
        e.set(s, v);
    }
    e
}

#[test]
fn multipliers_are_rounded_once_not_per_step() {
    // Resentment, base 5: Weak on the attacker and Vulnerable on the defender deal 5 a hit,
    // where rounding after each step would give floor(floor(5 * 0.75) * 1.5) = 4.
    let me = ent(&[(St::Weak, 1)]);
    let boss = ent(&[(St::Vulnerable, 2)]);
    assert_eq!(apply_modifiers(5, &me, &boss), 5);
    assert_eq!(apply_modifiers(5, &me, &boss) * 2, 10);
}

#[test]
fn each_multiplier_on_its_own() {
    let plain = ent(&[]);
    assert_eq!(apply_modifiers(16, &plain, &plain), 16);
    assert_eq!(apply_modifiers(16, &plain, &ent(&[(St::Vulnerable, 1)])), 24);
    assert_eq!(apply_modifiers(16, &ent(&[(St::Weak, 1)]), &plain), 12);
    assert_eq!(apply_modifiers(10, &ent(&[(St::Shrink, -1)]), &plain), 7);
    assert_eq!(apply_modifiers(6, &ent(&[(St::PenNibArmed, 1)]), &plain), 12);
    assert_eq!(apply_modifiers(10, &plain, &ent(&[(St::Slow, 10)])), 11);
    assert_eq!(apply_modifiers(10, &plain, &ent(&[(St::Slow, 3)])), 10);
    assert_eq!(apply_modifiers(5, &plain, &ent(&[(St::Tainted, 3)])), 8);
    assert_eq!(apply_modifiers(2, &plain, &ent(&[(St::Tainted, -5)])), 0);
    assert_eq!(apply_modifiers(10, &plain, &ent(&[(St::Soar, 1)])), 5);
    assert_eq!(apply_modifiers(10, &plain, &ent(&[(St::Flutter, 1)])), 5);
    assert_eq!(apply_modifiers(10, &ent(&[(St::Vulnerable, 1)]), &ent(&[(St::Colossus, 1)])), 5);
    assert_eq!(apply_modifiers(10, &plain, &ent(&[(St::Colossus, 1)])), 10);
}

#[test]
fn back_attacks_hit_half_again() {
    let surrounded_right = ent(&[(St::Surrounded, 1), (St::FacingRight, 1)]);
    let surrounded_left = ent(&[(St::Surrounded, 1)]);
    let from_left = ent(&[(St::BackAttackLeft, 1)]);
    let from_right = ent(&[(St::BackAttackRight, 1)]);
    assert_eq!(apply_modifiers(10, &from_left, &surrounded_right), 15);
    assert_eq!(apply_modifiers(10, &from_right, &surrounded_right), 10);
    assert_eq!(apply_modifiers(10, &from_right, &surrounded_left), 15);
    assert_eq!(apply_modifiers(10, &from_left, &ent(&[(St::FacingRight, 1)])), 10);
}

#[test]
fn caps_apply_to_every_hit() {
    let capped = ent(&[(St::DamageCap, 9)]);
    assert_eq!(apply_modifiers(30, &ent(&[]), &capped), 9);
    // a 20-damage potion against the cap of 9
    assert_eq!(apply_modifiers_unpowered(20, &capped), 9);
    let ghost = ent(&[(St::Intangible, 1)]);
    assert_eq!(apply_modifiers(30, &ent(&[]), &ghost), 1);
    assert_eq!(apply_modifiers(0, &ent(&[]), &ghost), 1);
    assert_eq!(apply_modifiers_unpowered(20, &ghost), 1);
    assert_eq!(apply_modifiers_unpowered(-4, &ent(&[])), 0);
}

#[test]
fn unpowered_damage_skips_the_multipliers() {
    // a Fire Potion of 20 against Vulnerable 2 deals 20, not 30
    let vulnerable = ent(&[(St::Vulnerable, 2), (St::Slow, 10), (St::Tainted, 4)]);
    assert_eq!(apply_modifiers_unpowered(20, &vulnerable), 20);
    assert_eq!(apply_modifiers(20, &ent(&[]), &ent(&[(St::Vulnerable, 2)])), 30);
}

#[test]
fn card_face_damage_multiplies_the_base_before_strength() {
    assert_eq!(card_face_damage(6, (1, 1), 0, 0, 0), 6);
    assert_eq!(card_face_damage(6, (3, 2), 0, 2, 0), 11);
    assert_eq!(card_face_damage(5, (2, 1), 1, 2, 3), 16);
    assert_eq!(card_face_damage(-3, (3, 2), 0, 0, 0), -4);
    assert_eq!(card_face_damage(7, (3, 2), 0, -2, 0), 8);
}

#[test]
fn strike_dummy_helps_tagged_attacks_only() {
    let me = ent(&[(St::StrikeDummy, 3)]);
    assert_eq!(tagged_attack_bonus(&me, true), 3);
    assert_eq!(tagged_attack_bonus(&me, false), 0);
}

#[test]
fn block_soaks_first_and_the_rest_reaches_hp() {
    let mut e = Entity::new(40, 40);
    e.block = 8;
    assert_eq!(absorb(&mut e, 5), 0);
    assert_eq!((e.hp, e.block), (40, 3));
    assert_eq!(absorb(&mut e, 10), 7);
    assert_eq!((e.hp, e.block), (33, 0));
    assert_eq!(absorb(&mut e, 0), 0);
    assert_eq!(absorb(&mut e, -3), 0);
    assert_eq!((e.hp, e.block), (33, 0));
}

#[test]
fn slippery_keeps_block_emptying_but_takes_one() {
    let mut e = ent(&[(St::Slippery, 2)]);
    e.block = 8;
    assert_eq!(absorb(&mut e, 26), 1);
    assert_eq!((e.hp, e.block), (49, 0));
    assert_eq!(absorb(&mut e, 1), 1);
    assert_eq!(e.hp, 48);
}

#[test]
fn hardened_shell_caps_the_turns_hp_loss() {
    let mut e = ent(&[(St::HardenedShellCap, 12), (St::HardenedShell, 12)]);
    assert_eq!(absorb(&mut e, 10), 10);
    assert_eq!(e.get(St::HardenedShell), 2);
    assert_eq!(absorb(&mut e, 10), 2);
    assert_eq!(e.get(St::HardenedShell), 0);
    assert_eq!(absorb(&mut e, 10), 0);
    assert_eq!(e.hp, 38);
    assert_eq!(e.get(St::HardenedShellCap), 12);
}

#[test]
fn card_block_dexterity_frail_vambrace_unmovable() {
    let mut e = ent(&[(St::Dexterity, 2)]);
    assert_eq!(card_block(5, &mut e), 7);
    let mut e = ent(&[(St::Dexterity, 2), (St::Frail, 1)]);
    assert_eq!(card_block(5, &mut e), 5);
    let mut e = ent(&[(St::Dexterity, -9)]);
    assert_eq!(card_block(5, &mut e), 0);
    // Vambrace doubles the first card block of the combat and spends its charge
    let mut e = ent(&[(St::VambraceCharge, 1)]);
    assert_eq!(card_block(5, &mut e), 10);
    assert_eq!(e.get(St::VambraceCharge), 0);
    assert_eq!(card_block(5, &mut e), 5);
    // Unmovable doubles the first N card block gains of a turn
    let mut e = ent(&[(St::Unmovable, 1)]);
    assert_eq!(card_block(5, &mut e), 10);
    assert_eq!(e.get(St::UnmovableCharge), 1);
    assert_eq!(card_block(5, &mut e), 5);
    assert_eq!(e.get(St::UnmovableCharge), 2);
    // both: 5 -> 10 -> 20
    let mut e = ent(&[(St::Unmovable, 1), (St::VambraceCharge, 1)]);
    assert_eq!(card_block(5, &mut e), 20);
    // a zero block spends nothing
    let mut e = ent(&[(St::VambraceCharge, 1), (St::Dexterity, -5)]);
    assert_eq!(card_block(5, &mut e), 0);
    assert_eq!(e.get(St::VambraceCharge), 1);
}

#[test]
fn artifact_blocks_one_application() {
    let mut e = ent(&[(St::Artifact, 2)]);
    assert!(artifact_absorbs(&mut e, true));
    assert_eq!(e.get(St::Artifact), 1);
    assert!(!artifact_absorbs(&mut e, false));
    assert_eq!(e.get(St::Artifact), 1);
    assert!(artifact_absorbs(&mut e, true));
    assert!(!artifact_absorbs(&mut e, true));
    assert_eq!(e.get(St::Artifact), 0);
}

#[test]
fn lowering_strength_is_a_debuff_raising_it_is_not() {
    assert!(is_debuff(St::Weak));
    assert!(is_debuff(St::Vulnerable));
    assert!(!is_debuff(St::Strength));
    assert!(is_debuff_amount(St::Strength, -1));
    assert!(!is_debuff_amount(St::Strength, 2));
    assert!(is_debuff_amount(St::Dexterity, -2));
    assert!(is_debuff_amount(St::Frail, 1));
    assert!(!is_debuff_amount(St::Artifact, -1));
}

#[test]
fn enemy_block_uses_its_dexterity() {
    assert_eq!(monster_block(8, &ent(&[(St::Dexterity, 2)])), 10);
    assert_eq!(monster_block(3, &ent(&[(St::Dexterity, -5)])), 0);
    assert_eq!(monster_block(6, &ent(&[(St::Frail, 1)])), 6);
}

#[test]
fn without_multipliers_powered_and_unpowered_agree() {
    let plain = ent(&[(St::Strength, 3)]);
    for defender in [ent(&[]), ent(&[(St::DamageCap, 9)]), ent(&[(St::Intangible, 1)])] {
        for face in [-2, 0, 5, 20] {
            assert_eq!(apply_modifiers(face, &plain, &defender), apply_modifiers_unpowered(face, &defender));
        }
    }
}

#[test]
fn more_face_damage_never_deals_less() {
    let me = ent(&[(St::Weak, 1), (St::Shrink, -1)]);
    let them = ent(&[(St::Vulnerable, 1), (St::Slow, 7), (St::Tainted, -2)]);
    let mut last = apply_modifiers(-5, &me, &them);
    for face in -4..60 {
        let d = apply_modifiers(face, &me, &them);
        assert!(d >= last);
        last = d;
    }
}

#[test]
fn a_zero_card_block_leaves_a_full_counter_alone() {
    let mut e = ent(&[(St::UnmovableCharge, i32::MAX), (St::Dexterity, -3)]);
    assert_eq!(card_block(2, &mut e), 0);
    assert_eq!(e.get(St::UnmovableCharge), i32::MAX);
}
