//! Small content lists: card groups, status groups, and per-relic / per-enemy side tables.

use vstd::prelude::*;
use crate::ops::{CurseSet, HandEndDef, Op, Tgt};
use crate::state::St;
use super::{card, Arm};

verus! {

/// Cards tagged Strike.
pub open spec fn strike_cards_seq() -> Seq<u16> {
    seq![card::STRIKE, card::ASH_STRIKE, card::SETUP_STRIKE, card::POMMEL_STRIKE, card::TWIN_STRIKE, card::ULTIMATE_STRIKE, card::PERFECTED_STRIKE]
}

/// Cards tagged Strike.
pub fn strike_cards() -> (r: &'static [u16])
    ensures
        r@ == strike_cards_seq(),
{
    &[card::STRIKE, card::ASH_STRIKE, card::SETUP_STRIKE, card::POMMEL_STRIKE, card::TWIN_STRIKE, card::ULTIMATE_STRIKE, card::PERFECTED_STRIKE]
}

/// Cards that can never be played.
pub open spec fn unplayable_cards_seq() -> Seq<u16> {
    seq![card::WITHER, card::WOUND, card::UNKNOWN, card::BURN, card::INFECTION, card::DECAY, card::SHAME, card::DISINTEGRATION, card::DAZED, card::CLUMSY, card::SPOILS_MAP, card::GREED, card::DEBT]
}

/// Cards that can never be played.
pub fn unplayable_cards() -> (r: &'static [u16])
    ensures
        r@ == unplayable_cards_seq(),
{
    &[card::WITHER, card::WOUND, card::UNKNOWN, card::BURN, card::INFECTION, card::DECAY, card::SHAME, card::DISINTEGRATION, card::DAZED, card::CLUMSY, card::SPOILS_MAP, card::GREED, card::DEBT]
}

/// X-cost cards: they spend all remaining energy.
pub open spec fn x_cost_cards_seq() -> Seq<u16> {
    seq![card::WHIRLWIND, card::CASCADE]
}

/// X-cost cards: they spend all remaining energy.
pub fn x_cost_cards() -> (r: &'static [u16])
    ensures
        r@ == x_cost_cards_seq(),
{
    &[card::WHIRLWIND, card::CASCADE]
}

/// The pool random card generation draws from.
pub open spec fn gen_pool_seq() -> Seq<u16> {
    seq![card::DISMANTLE, card::ASH_STRIKE, card::DEMON_FLAME, card::LIGHTNING, card::BULLY, card::BRAND, card::DOMINATE, card::STAMPEDE, card::DEMON_FORM, card::RUTHLESS, card::HEMOKINESIS, card::SETUP_STRIKE, card::PYRE, card::FEEL_NO_PAIN, card::DARK_EMBRACE, card::RUPTURE, card::CRIMSON_MANTLE, card::VICIOUS, card::COMBUST, card::IRON_WAVE, card::SHRUG_IT_OFF, card::HEAVY_BLADE, card::UPPERCUT, card::POMMEL_STRIKE, card::TWIN_STRIKE, card::FLEX_TAUNT, card::IMMOLATE, card::SHIVER, card::BLOOD_WALL, card::BREAKTHROUGH, card::BLOODLETTING, card::OFFERING, card::BODY_SLAM, card::ROCK_ARMOR, card::MOLTEN_FIST, card::TORTURE, card::FRENZY, card::FLAME_BARRIER, card::EVIL_EYE, card::FORGOTTEN_RITE, card::RESENTMENT, card::PERFECTED_STRIKE, card::RAMPAGE, card::BARRICADE, card::SWORD_BOOMERANG, card::EXPECT_A_FIGHT, card::JUGGERNAUT, card::COLOSSUS, card::SECOND_WIND, card::BATTLE_TRANCE, card::BURNING_PACT, card::ARMAMENTS, card::HEADBUTT, card::ANGER, card::STOKE, card::INFERNAL_BLADE, card::HAVOC, card::STAMPEDE_CARD, card::ONE_TWO_PUNCH, card::JUGGLING, card::AGGRESSION, card::CINDER, card::TRUE_GRIT, card::THRASH, card::PILLAGE, card::PRIMAL_FORCE, card::WHIRLWIND, card::CASCADE, card::DRUM_OF_BATTLE, card::TEAR_ASUNDER]
}

/// The pool random card generation draws from.
pub fn gen_pool() -> (r: &'static [u16])
    ensures
        r@ == gen_pool_seq(),
{
    &[card::DISMANTLE, card::ASH_STRIKE, card::DEMON_FLAME, card::LIGHTNING, card::BULLY, card::BRAND, card::DOMINATE, card::STAMPEDE, card::DEMON_FORM, card::RUTHLESS, card::HEMOKINESIS, card::SETUP_STRIKE, card::PYRE, card::FEEL_NO_PAIN, card::DARK_EMBRACE, card::RUPTURE, card::CRIMSON_MANTLE, card::VICIOUS, card::COMBUST, card::IRON_WAVE, card::SHRUG_IT_OFF, card::HEAVY_BLADE, card::UPPERCUT, card::POMMEL_STRIKE, card::TWIN_STRIKE, card::FLEX_TAUNT, card::IMMOLATE, card::SHIVER, card::BLOOD_WALL, card::BREAKTHROUGH, card::BLOODLETTING, card::OFFERING, card::BODY_SLAM, card::ROCK_ARMOR, card::MOLTEN_FIST, card::TORTURE, card::FRENZY, card::FLAME_BARRIER, card::EVIL_EYE, card::FORGOTTEN_RITE, card::RESENTMENT, card::PERFECTED_STRIKE, card::RAMPAGE, card::BARRICADE, card::SWORD_BOOMERANG, card::EXPECT_A_FIGHT, card::JUGGERNAUT, card::COLOSSUS, card::SECOND_WIND, card::BATTLE_TRANCE, card::BURNING_PACT, card::ARMAMENTS, card::HEADBUTT, card::ANGER, card::STOKE, card::INFERNAL_BLADE, card::HAVOC, card::STAMPEDE_CARD, card::ONE_TWO_PUNCH, card::JUGGLING, card::AGGRESSION, card::CINDER, card::TRUE_GRIT, card::THRASH, card::PILLAGE, card::PRIMAL_FORCE, card::WHIRLWIND, card::CASCADE, card::DRUM_OF_BATTLE, card::TEAR_ASUNDER]
}

/// Cards that play themselves when exhausted.
pub open spec fn exhaust_end_autoplay_seq() -> Seq<u16> {
    seq![card::HOWL_FROM_BEYOND]
}

/// Cards that play themselves when exhausted.
pub fn exhaust_end_autoplay() -> (r: &'static [u16])
    ensures
        r@ == exhaust_end_autoplay_seq(),
{
    &[card::HOWL_FROM_BEYOND]
}

/// Statuses cleared at the start of the player's turn.
pub open spec fn turn_scoped_seq() -> Seq<St> {
    seq![St::Frenzy, St::FlameBarrier, St::Entrench, St::NoDraw, St::OneTwoPunch, St::Tainted, St::UnmovableCharge, St::SkittishTriggered, St::NoEnergyGain]
}

/// Statuses cleared at the start of the player's turn.
pub fn turn_scoped() -> (r: &'static [St])
    ensures
        r@ == turn_scoped_seq(),
{
    &[St::Frenzy, St::FlameBarrier, St::Entrench, St::NoDraw, St::OneTwoPunch, St::Tainted, St::UnmovableCharge, St::SkittishTriggered, St::NoEnergyGain]
}

/// Statuses that modify rules directly rather than through the rule table.
pub open spec fn rule_modifiers_seq() -> Seq<St> {
    seq![St::RedSkull, St::RedSkullActive, St::MindRot, St::Sloth, St::Barricade, St::Entrench, St::AllOrNothing, St::NoDraw, St::OneTwoPunch, St::VambraceCharge, St::Unmovable, St::UnmovableCharge, St::Imbalanced, St::OffBalance, St::Skittish, St::SkittishTriggered, St::Burrowed, St::PenNib, St::PenNibCount, St::RuinedHelmet, St::Hex]
}

/// Statuses that modify rules directly rather than through the rule table.
pub fn rule_modifiers() -> (r: &'static [St])
    ensures
        r@ == rule_modifiers_seq(),
{
    &[St::RedSkull, St::RedSkullActive, St::MindRot, St::Sloth, St::Barricade, St::Entrench, St::AllOrNothing, St::NoDraw, St::OneTwoPunch, St::VambraceCharge, St::Unmovable, St::UnmovableCharge, St::Imbalanced, St::OffBalance, St::Skittish, St::SkittishTriggered, St::Burrowed, St::PenNib, St::PenNibCount, St::RuinedHelmet, St::Hex]
}

/// Statuses read by the damage pipeline.
pub open spec fn pipeline_statuses_seq() -> Seq<St> {
    seq![St::StrikeDummy, St::Shrink, St::Slow, St::SlowSource, St::Colossus, St::Surrounded, St::BackAttackLeft, St::BackAttackRight, St::FacingRight, St::Flutter, St::Soar, St::Tainted, St::PenNibArmed, St::HardenedShell]
}

/// Statuses read by the damage pipeline.
pub fn pipeline_statuses() -> (r: &'static [St])
    ensures
        r@ == pipeline_statuses_seq(),
{
    &[St::StrikeDummy, St::Shrink, St::Slow, St::SlowSource, St::Colossus, St::Surrounded, St::BackAttackLeft, St::BackAttackRight, St::FacingRight, St::Flutter, St::Soar, St::Tainted, St::PenNibArmed, St::HardenedShell]
}

/// Statuses that only mark a fact.
pub open spec fn marker_statuses_seq() -> Seq<St> {
    seq![St::Pyre, St::Dampen, St::WasteAway, St::Thievery, St::Heist]
}

/// Statuses that only mark a fact.
pub fn marker_statuses() -> (r: &'static [St])
    ensures
        r@ == marker_statuses_seq(),
{
    &[St::Pyre, St::Dampen, St::WasteAway, St::Thievery, St::Heist]
}

/// Statuses the kernel knows it does not model.
pub open spec fn known_unmodelled_seq() -> Seq<St> {
    seq![St::Minion, St::EscapeArtist, St::Swipe, St::Hatch, St::Smoggy]
}

/// Statuses the kernel knows it does not model.
pub fn known_unmodelled() -> (r: &'static [St])
    ensures
        r@ == known_unmodelled_seq(),
{
    &[St::Minion, St::EscapeArtist, St::Swipe, St::Hatch, St::Smoggy]
}

/// Relics whose start-of-combat effect is missing when a combat is synthesised, with what is missing.
pub open spec fn synth_only_gaps_seq() -> Seq<(&'static str, &'static str)> {
    seq![("PETRIFIED_TOAD", "开局塞一瓶药水形状的石头"), ("DELICATE_FROND", "开局把空药水栏填满"), ("GIRYA", "开局给力量（换过几次是局外状态，走 FightSpec::start_status）"), ("FUR_COAT", "标记过的 7 场仗里敌人只有 1 血（哪几场是局外状态）")]
}

/// Relics whose start-of-combat effect is missing when a combat is synthesised, with what is missing.
pub fn synth_only_gaps() -> (r: &'static [(&'static str, &'static str)])
    ensures
        r@ == synth_only_gaps_seq(),
{
    &[("PETRIFIED_TOAD", "开局塞一瓶药水形状的石头"), ("DELICATE_FROND", "开局把空药水栏填满"), ("GIRYA", "开局给力量（换过几次是局外状态，走 FightSpec::start_status）"), ("FUR_COAT", "标记过的 7 场仗里敌人只有 1 血（哪几场是局外状态）")]
}

/// Relics that arm a status at combat start only under a condition.
pub open spec fn conditional_starts_seq() -> Seq<(&'static str, Arm, St, i32)> {
    seq![("VENERABLE_TEA_SET", Arm::AfterRest, St::TeaSet, 2), ("FAKE_VENERABLE_TEA_SET", Arm::AfterRest, St::TeaSet, 1), ("BONE_TEA", Arm::RelicCounter, St::UpgradeOpeningHand, 1), ("PANTOGRAPH", Arm::BossRoom, St::Pantograph, 25)]
}

/// Relics that arm a status at combat start only under a condition.
pub fn conditional_starts() -> (r: &'static [(&'static str, Arm, St, i32)])
    ensures
        r@ == conditional_starts_seq(),
{
    &[("VENERABLE_TEA_SET", Arm::AfterRest, St::TeaSet, 2), ("FAKE_VENERABLE_TEA_SET", Arm::AfterRest, St::TeaSet, 1), ("BONE_TEA", Arm::RelicCounter, St::UpgradeOpeningHand, 1), ("PANTOGRAPH", Arm::BossRoom, St::Pantograph, 25)]
}

/// Statuses an enemy puts on the player when the combat starts, by enemy name.
pub open spec fn enemy_start_player_statuses_seq() -> Seq<(&'static str, St, i32)> {
    seq![("火箭", St::Surrounded, 1)]
}

/// Statuses an enemy puts on the player when the combat starts, by enemy name.
pub fn enemy_start_player_statuses() -> (r: &'static [(&'static str, St, i32)])
    ensures
        r@ == enemy_start_player_statuses_seq(),
{
    &[("火箭", St::Surrounded, 1)]
}

/// Identity markers the rules read on an enemy, by enemy name.
pub open spec fn enemy_private_markers_seq() -> Seq<(&'static str, St, i32)> {
    seq![("幽灵骑士", St::HexCaster, 1), ("魔法骑士", St::DampenCaster, 1), ("鬼祟珊瑚群", St::HardenedShellCap, 20)]
}

/// Identity markers the rules read on an enemy, by enemy name.
pub fn enemy_private_marker_list() -> (r: &'static [(&'static str, St, i32)])
    ensures
        r@ == enemy_private_markers_seq(),
{
    &[("幽灵骑士", St::HexCaster, 1), ("魔法骑士", St::DampenCaster, 1), ("鬼祟珊瑚群", St::HardenedShellCap, 20)]
}

/// The three choices of the curse of knowledge, in the order they come.
pub open spec fn knowledge_curses_seq() -> Seq<CurseSet> {
    seq![CurseSet { disintegration: 6, other: St::MindRot, other_amt: 1, other_max_energy: 0 }, CurseSet { disintegration: 7, other: St::Sloth, other_amt: 3, other_max_energy: 0 }, CurseSet { disintegration: 8, other: St::WasteAway, other_amt: 1, other_max_energy: -1i32 }]
}

/// The three choices of the curse of knowledge, in the order they come.
pub fn knowledge_curses() -> (r: &'static [CurseSet])
    ensures
        r@ == knowledge_curses_seq(),
{
    &[CurseSet { disintegration: 6, other: St::MindRot, other_amt: 1, other_max_energy: 0 }, CurseSet { disintegration: 7, other: St::Sloth, other_amt: 3, other_max_energy: 0 }, CurseSet { disintegration: 8, other: St::WasteAway, other_amt: 1, other_max_energy: -1 }]
}

/// What cards do when still in hand at the end of the turn.
pub open spec fn hand_end_seq() -> Seq<HandEndDef> {
    seq![HandEndDef { card: card::BURN, ops: &[Op::TakeDamage(2)], void: false }, HandEndDef { card: card::BECKON, ops: &[Op::LoseHp(6)], void: false }, HandEndDef { card: card::INFECTION, ops: &[Op::TakeDamage(3)], void: false }, HandEndDef { card: card::TOXIC, ops: &[Op::TakeDamage(5)], void: false }, HandEndDef { card: card::DECAY, ops: &[Op::TakeDamage(2)], void: false }, HandEndDef { card: card::SHAME, ops: &[Op::Status { tgt: Tgt::Me, st: St::Frail, amt: 1 }], void: false, }, HandEndDef { card: card::DISINTEGRATION, ops: &[Op::TakeDamage(6)], void: false }, HandEndDef { card: card::WITHER, ops: &[Op::TakeDamage(3)], void: false }, HandEndDef { card: card::DAZED, ops: &[], void: true }, HandEndDef { card: card::CLUMSY, ops: &[], void: true }]
}

/// What cards do when still in hand at the end of the turn.
pub fn hand_end() -> (r: &'static [HandEndDef])
    ensures
        r@ == hand_end_seq(),
{
    &[HandEndDef { card: card::BURN, ops: &[Op::TakeDamage(2)], void: false }, HandEndDef { card: card::BECKON, ops: &[Op::LoseHp(6)], void: false }, HandEndDef { card: card::INFECTION, ops: &[Op::TakeDamage(3)], void: false }, HandEndDef { card: card::TOXIC, ops: &[Op::TakeDamage(5)], void: false }, HandEndDef { card: card::DECAY, ops: &[Op::TakeDamage(2)], void: false }, HandEndDef { card: card::SHAME, ops: &[Op::Status { tgt: Tgt::Me, st: St::Frail, amt: 1 }], void: false, }, HandEndDef { card: card::DISINTEGRATION, ops: &[Op::TakeDamage(6)], void: false }, HandEndDef { card: card::WITHER, ops: &[Op::TakeDamage(3)], void: false }, HandEndDef { card: card::DAZED, ops: &[], void: true }, HandEndDef { card: card::CLUMSY, ops: &[], void: true }]
}

} // verus!
