//! The rule table: powers, relics and enemy abilities as (status, hook, effects).

use vstd::prelude::*;
use crate::ops::{Amt, Hook, Kind, PowerDef, TCond, TOp};
use crate::state::St;
use super::{card, enemy};

verus! {

/// Number of rules.
pub const POWER_COUNT: u16 = 106;

/// The rule table: what each status does at each hook.
#[verifier::opaque]
pub open spec fn power_row(i: u16) -> PowerDef {
    match i {
        0 => PowerDef { st: St::OrnamentalFan, hook: Hook::PlayerAttack, ops: &[TOp::If { cond: TCond::EveryNthAttackThisTurn(3), then: &[TOp::OwnerBlock(Amt::Stacks)], }], },
        1 => PowerDef { st: St::MercuryHourglass, hook: Hook::TurnStart, ops: &[TOp::DamageAllEnemies(Amt::Stacks)], },
        2 => PowerDef { st: St::Lantern, hook: Hook::TurnStart, ops: &[TOp::If { cond: TCond::TurnAtMost(1), then: &[TOp::OwnerEnergy(Amt::Stacks)] }], },
        3 => PowerDef { st: St::UpgradeOpeningHand, hook: Hook::HandDrawn, ops: &[TOp::If { cond: TCond::TurnAtMost(1), then: &[TOp::UpgradeHand] }], },
        4 => PowerDef { st: St::JeweledMask, hook: Hook::TurnStart, ops: &[TOp::If { cond: TCond::TurnAtMost(1), then: &[TOp::MoveRandomPowerFromDrawToHandFree], }], },
        5 => PowerDef { st: St::StoneCracker, hook: Hook::TurnStart, ops: &[TOp::If { cond: TCond::TurnAtMost(1), then: &[TOp::UpgradeRandomInDraw(2)] }], },
        6 => PowerDef { st: St::BloodVial, hook: Hook::TurnStart, ops: &[TOp::If { cond: TCond::TurnAtMost(1), then: &[TOp::OwnerHeal(Amt::Stacks)] }], },
        7 => PowerDef { st: St::Pantograph, hook: Hook::TurnStart, ops: &[TOp::If { cond: TCond::TurnAtMost(1), then: &[TOp::OwnerHeal(Amt::Stacks)] }], },
        8 => PowerDef { st: St::TeaSet, hook: Hook::TurnStart, ops: &[TOp::If { cond: TCond::TurnAtMost(1), then: &[TOp::OwnerEnergy(Amt::Stacks), TOp::ClearSelf], }], },
        9 => PowerDef { st: St::HighVoltage, hook: Hook::EnemyTurnEnd, ops: &[TOp::OwnerStatus { st: St::Strength, amt: Amt::Stacks }], },
        10 => PowerDef { st: St::Territorial, hook: Hook::EnemyTurnEnd, ops: &[TOp::OwnerStatus { st: St::Strength, amt: Amt::Stacks }], },
        11 => PowerDef { st: St::ParryingShield, hook: Hook::TurnEnd, ops: &[TOp::If { cond: TCond::OwnerBlockAtLeast(10), then: &[TOp::DamageRandomEnemy(Amt::Stacks)], }], },
        12 => PowerDef { st: St::ScreamingFlagon, hook: Hook::TurnEnd, ops: &[TOp::If { cond: TCond::HandEmpty, then: &[TOp::DamageAllEnemies(Amt::Stacks)], }], },
        13 => PowerDef { st: St::CloakClasp, hook: Hook::TurnEnd, ops: &[TOp::OwnerBlock(Amt::HandCardsTimesStacks)], },
        14 => PowerDef { st: St::HornCleat, hook: Hook::TurnStart, ops: &[TOp::If { cond: TCond::TurnIs(2), then: &[TOp::OwnerBlock(Amt::Stacks)] }], },
        15 => PowerDef { st: St::Anchor, hook: Hook::TurnStart, ops: &[TOp::If { cond: TCond::TurnAtMost(1), then: &[TOp::OwnerBlock(Amt::Stacks)] }], },
        16 => PowerDef { st: St::BagOfMarbles, hook: Hook::TurnStart, ops: &[TOp::If { cond: TCond::TurnAtMost(1), then: &[TOp::AllEnemiesStatus { st: St::Vulnerable, amt: Amt::Stacks }], }], },
        17 => PowerDef { st: St::RedMask, hook: Hook::TurnStart, ops: &[TOp::If { cond: TCond::TurnAtMost(1), then: &[TOp::AllEnemiesStatus { st: St::Weak, amt: Amt::Stacks }], }], },
        18 => PowerDef { st: St::BagOfPreparation, hook: Hook::TurnStart, ops: &[TOp::If { cond: TCond::TurnAtMost(1), then: &[TOp::OwnerDraw(Amt::Stacks)] }], },
        19 => PowerDef { st: St::Candelabra, hook: Hook::TurnStart, ops: &[TOp::If { cond: TCond::TurnIs(2), then: &[TOp::OwnerEnergy(Amt::Stacks)] }], },
        20 => PowerDef { st: St::HappyFlower, hook: Hook::TurnStart, ops: &[TOp::If { cond: TCond::TurnMultipleOf(3), then: &[TOp::OwnerEnergy(Amt::Stacks)] }], },
        21 => PowerDef { st: St::FakeHappyFlower, hook: Hook::TurnStart, ops: &[TOp::If { cond: TCond::TurnMultipleOf(5), then: &[TOp::OwnerEnergy(Amt::Stacks)] }], },
        22 => PowerDef { st: St::PollinousCore, hook: Hook::TurnStart, ops: &[TOp::If { cond: TCond::TurnMultipleOf(4), then: &[TOp::OwnerDraw(Amt::Stacks)] }], },
        23 => PowerDef { st: St::PaelsBlood, hook: Hook::TurnStart, ops: &[TOp::OwnerDraw(Amt::Stacks)] },
        24 => PowerDef { st: St::PaelsFlesh, hook: Hook::TurnStart, ops: &[TOp::If { cond: TCond::TurnAtLeast(3), then: &[TOp::OwnerEnergy(Amt::Stacks)] }], },
        25 => PowerDef { st: St::Kunai, hook: Hook::PlayerAttack, ops: &[TOp::If { cond: TCond::EveryNthAttackThisTurn(3), then: &[TOp::OwnerStatus { st: St::Dexterity, amt: Amt::Stacks }], }], },
        26 => PowerDef { st: St::Flutter, hook: Hook::EnemyDamaged, ops: &[TOp::GrowSelf(-1i32)], },
        27 => PowerDef { st: St::EscapeArtist, hook: Hook::EnemyTurnEnd, ops: &[TOp::If { cond: TCond::SelfStacksAtLeast(2), then: &[TOp::GrowSelf(-1i32)] }], },
        28 => PowerDef { st: St::Tender, hook: Hook::CardPlayed, ops: &[ TOp::PlayerStatus { st: St::Strength, amt: Amt::Fixed(-1i32) }, TOp::PlayerStatus { st: St::Dexterity, amt: Amt::Fixed(-1i32) }, ], },
        29 => PowerDef { st: St::Tender, hook: Hook::TurnEnd, ops: &[ TOp::PlayerStatus { st: St::Strength, amt: Amt::CardsPlayed }, TOp::PlayerStatus { st: St::Dexterity, amt: Amt::CardsPlayed }, ], },
        30 => PowerDef { st: St::Radiance, hook: Hook::TurnStart, ops: &[TOp::OwnerEnergy(Amt::Fixed(1)), TOp::GrowSelf(-1i32)], },
        31 => PowerDef { st: St::LetterOpener, hook: Hook::PlayerSkill, ops: &[TOp::If { cond: TCond::EveryNthSkillThisTurn(3), then: &[TOp::DamageAllEnemies(Amt::Stacks)], }], },
        32 => PowerDef { st: St::CrabRage, hook: Hook::AllyDied, ops: &[ TOp::OwnerStatus { st: St::Strength, amt: Amt::Fixed(6) }, TOp::OwnerBlock(Amt::Fixed(99)), ], },
        33 => PowerDef { st: St::Ravenous, hook: Hook::AllyDied, ops: &[ TOp::OwnerStatus { st: St::Strength, amt: Amt::Stacks }, TOp::OwnerStatus { st: St::Stunned, amt: Amt::Fixed(1) }, ], },
        34 => PowerDef { st: St::CentennialPuzzle, hook: Hook::PlayerDamaged, ops: &[TOp::OwnerDraw(Amt::Stacks), TOp::ClearSelf], },
        35 => PowerDef { st: St::Akabeko, hook: Hook::TurnStart, ops: &[TOp::If { cond: TCond::TurnAtMost(1), then: &[TOp::OwnerStatus { st: St::Vigor, amt: Amt::Stacks }], }], },
        36 => PowerDef { st: St::Pendulum, hook: Hook::TurnStart, ops: &[TOp::If { cond: TCond::EveryNTurns { n: 3, phase: St::PendulumPhase }, then: &[TOp::OwnerDraw(Amt::Stacks)], }], },
        37 => PowerDef { st: St::StoneCalendar, hook: Hook::TurnEnd, ops: &[TOp::If { cond: TCond::TurnIs(7), then: &[TOp::DamageAllEnemies(Amt::Stacks)] }], },
        38 => PowerDef { st: St::Orichalcum, hook: Hook::TurnEndVeryEarly, ops: &[TOp::If { cond: TCond::OwnerHasNoBlock, then: &[TOp::OwnerStatus { st: St::OrichalcumArmed, amt: Amt::Fixed(1) }], }], },
        39 => PowerDef { st: St::Orichalcum, hook: Hook::TurnEnd, ops: &[TOp::If { cond: TCond::OwnerHas(St::OrichalcumArmed), then: &[ TOp::OwnerBlock(Amt::Stacks), TOp::OwnerStatus { st: St::OrichalcumArmed, amt: Amt::Fixed(-1i32) }, ], }], },
        40 => PowerDef { st: St::MeatOnTheBone, hook: Hook::CombatVictoryEarly, ops: &[TOp::OwnerHealIfHpAtMost { pct: 50, amt: Amt::Stacks }], },
        41 => PowerDef { st: St::BurningBlood, hook: Hook::CombatVictory, ops: &[TOp::OwnerHeal(Amt::Stacks)], },
        42 => PowerDef { st: St::DemonForm, hook: Hook::TurnStart, ops: &[TOp::OwnerStatus { st: St::Strength, amt: Amt::Stacks }], },
        43 => PowerDef { st: St::VitalSpark, hook: Hook::PlayerSkill, ops: &[TOp::PlayerStatus { st: St::Tainted, amt: Amt::Stacks }], },
        44 => PowerDef { st: St::Rage, hook: Hook::PlayerSkill, ops: &[TOp::OwnerStatus { st: St::Strength, amt: Amt::Stacks }], },
        45 => PowerDef { st: St::FeelNoPain, hook: Hook::CardExhausted, ops: &[TOp::OwnerBlock(Amt::Stacks)], },
        46 => PowerDef { st: St::DarkEmbrace, hook: Hook::CardExhausted, ops: &[TOp::OwnerDraw(Amt::Stacks)], },
        47 => PowerDef { st: St::Rupture, hook: Hook::PlayerLoseHp, ops: &[TOp::OwnerStatus { st: St::Strength, amt: Amt::Stacks }], },
        48 => PowerDef { st: St::CrimsonMantle, hook: Hook::TurnStart, ops: &[TOp::OwnerLoseHp(Amt::Fixed(1)), TOp::OwnerBlock(Amt::Stacks)], },
        49 => PowerDef { st: St::RollingBoulder, hook: Hook::TurnStart, ops: &[TOp::DamageAllEnemies(Amt::Stacks), TOp::GrowSelf(5)], },
        50 => PowerDef { st: St::Vicious, hook: Hook::ApplyVuln, ops: &[TOp::OwnerDraw(Amt::Stacks)] },
        51 => PowerDef { st: St::PlatedArmor, hook: Hook::TurnEnd, ops: &[TOp::If { cond: TCond::OwnerIsPlayer, then: &[TOp::OwnerBlock(Amt::Stacks)] }], },
        52 => PowerDef { st: St::PlatedArmor, hook: Hook::TurnStart, ops: &[ TOp::If { cond: TCond::OwnerIsPlayer, then: &[TOp::If { cond: TCond::TurnAtLeast(2), then: &[TOp::GrowSelf(-1i32)] }], }, TOp::If { cond: TCond::OwnerIsEnemy, then: &[TOp::If { cond: TCond::TurnAtMost(1), then: &[TOp::OwnerBlock(Amt::Stacks)], }], }, ], },
        53 => PowerDef { st: St::PlatedArmor, hook: Hook::EnemyTurnStart, ops: &[TOp::If { cond: TCond::OwnerIsEnemy, then: &[TOp::If { cond: TCond::TurnAtLeast(2), then: &[TOp::GrowSelf(-1i32)] }], }], },
        54 => PowerDef { st: St::PlatedArmor, hook: Hook::EnemyTurnEndEarly, ops: &[TOp::If { cond: TCond::OwnerIsEnemy, then: &[TOp::OwnerBlock(Amt::Stacks)] }], },
        55 => PowerDef { st: St::Sandpit, hook: Hook::EnemyTurnStart, ops: &[ TOp::GrowSelf(-1i32), TOp::If { cond: TCond::SelfStacksAtMost(0), then: &[TOp::KillPlayer] }, ], },
        56 => PowerDef { st: St::Constrict, hook: Hook::TurnEnd, ops: &[TOp::OwnerTakeDamage(Amt::Stacks)] },
        57 => PowerDef { st: St::Shriek, hook: Hook::EnemyDamaged, ops: &[TOp::If { cond: TCond::OwnerHpAtMostStacks, then: &[TOp::OwnerForceMove(2), TOp::ClearSelf], }], },
        58 => PowerDef { st: St::Plow, hook: Hook::EnemyDamaged, ops: &[TOp::If { cond: TCond::OwnerHpAtMostStacks, then: &[ TOp::OwnerClearStatus(St::Strength), TOp::OwnerClearStatus(St::TempStrength), TOp::OwnerForceMove(2), TOp::ClearSelf, ], }], },
        59 => PowerDef { st: St::PersonalHive, hook: Hook::EnemyDamaged, ops: &[TOp::If { cond: TCond::LastHitWasAttack, then: &[TOp::AddCardToDraw { card: card::DAZED, amt: Amt::Stacks }], }], },
        60 => PowerDef { st: St::Slumber, hook: Hook::EnemyDamaged, ops: &[TOp::If { cond: TCond::LastHitUnblocked, then: &[ TOp::GrowSelf(-1i32), TOp::If { cond: TCond::SelfStacksAtMost(0), then: &[TOp::OwnerForceMove(2)] }, ], }], },
        61 => PowerDef { st: St::Slumber, hook: Hook::EnemyTurnEnd, ops: &[ TOp::GrowSelf(-1i32), TOp::If { cond: TCond::SelfStacksAtMost(0), then: &[TOp::OwnerClearStatus(St::PlatedArmor)] }, ], },
        62 => PowerDef { st: St::Asleep, hook: Hook::EnemyDamaged, ops: &[TOp::If { cond: TCond::LastHitUnblocked, then: &[ TOp::OwnerClearStatus(St::PlatedArmor), TOp::OwnerForceMove(5), TOp::ClearSelf, ], }], },
        63 => PowerDef { st: St::Asleep, hook: Hook::EnemyTurnEndVeryEarly, ops: &[TOp::If { cond: TCond::SelfStacksAtMost(1), then: &[TOp::OwnerClearStatus(St::PlatedArmor)], }], },
        64 => PowerDef { st: St::Asleep, hook: Hook::EnemyTurnEnd, ops: &[TOp::GrowSelf(-1i32)] },
        65 => PowerDef { st: St::Slippery, hook: Hook::EnemyDamaged, ops: &[TOp::If { cond: TCond::LastHitUnblocked, then: &[TOp::GrowSelf(-1i32)] }], },
        66 => PowerDef { st: St::HardenedShellCap, hook: Hook::SideTurnStart, ops: &[TOp::OwnerSetStatus { st: St::HardenedShell, amt: Amt::Stacks }], },
        67 => PowerDef { st: St::Suck, hook: Hook::AttackUnblocked, ops: &[TOp::OwnerStatus { st: St::Strength, amt: Amt::Stacks }], },
        68 => PowerDef { st: St::Surprise, hook: Hook::EnemyDied, ops: &[ TOp::SummonN { def: enemy::SNEAKY_GREMLIN, hp: 12, count: 1 }, TOp::SummonN { def: enemy::FAT_GREMLIN, hp: 15, count: 1 }, ], },
        69 => PowerDef { st: St::Ringing, hook: Hook::TurnEnd, ops: &[TOp::ClearSelf] },
        70 => PowerDef { st: St::Tangled, hook: Hook::TurnEndLate, ops: &[TOp::ClearSelf] },
        71 => PowerDef { st: St::Infested, hook: Hook::EnemyDied, ops: &[TOp::SummonN { def: enemy::WRIGGLER, hp: 19, count: 4 }], },
        72 => PowerDef { st: St::Adaptable, hook: Hook::EnemyDied, ops: &[ TOp::ClearOwnerStatusesExcept(&[St::Adaptable, St::PainfulStabs]), TOp::If { cond: TCond::OwnerMaxHpAtLeast((super::TEST_SUBJECT_FORM1_MAX + 1) as i32), then: &[ TOp::OwnerSetMaxHp(super::TEST_SUBJECT_FORM3_HP), TOp::OwnerStatus { st: St::Nemesis, amt: Amt::Fixed(1) }, ], }, TOp::If { cond: TCond::OwnerMaxHpAtMost(super::TEST_SUBJECT_FORM1_MAX), then: &[ TOp::OwnerSetMaxHp(super::TEST_SUBJECT_FORM2_HP), TOp::OwnerStatus { st: St::PainfulStabs, amt: Amt::Fixed(1) }, ], }, TOp::OwnerForceMove(0), ], },
        73 => PowerDef { st: St::Adaptable, hook: Hook::EnemyTurnStart, ops: &[TOp::If { cond: TCond::OwnerIsDead, then: &[ TOp::OwnerHealToFull, TOp::If { cond: TCond::OwnerMaxHpAtLeast(super::TEST_SUBJECT_FORM3_HP), then: &[ TOp::OwnerClearStatus(St::Adaptable), TOp::OwnerClearStatus(St::PainfulStabs), ], }, ], }], },
        74 => PowerDef { st: St::SteamEruption, hook: Hook::EnemyDied, ops: &[ TOp::ClearOwnerStatusesExcept(&[St::SteamEruption]), TOp::OwnerSetMaxHp(super::ABOUT_TO_BLOW_HP), TOp::OwnerHealToFull, TOp::OwnerForceMove(super::WATERFALL_ABOUT_TO_BLOW_MOVE), ], },
        75 => PowerDef { st: St::Illusion, hook: Hook::EnemyDied, ops: &[ TOp::ClearOwnerStatusesExcept(&[ St::Illusion, St::Minion, St::Strength, St::TempStrength, ]), TOp::OwnerForceMove(0), ], },
        76 => PowerDef { st: St::Illusion, hook: Hook::EnemyTurnStart, ops: &[TOp::If { cond: TCond::OwnerIsDead, then: &[TOp::OwnerHealToFull] }], },
        77 => PowerDef { st: St::Reattach, hook: Hook::EnemyDied, ops: &[ TOp::ClearOwnerStatusesExcept(&[St::Reattach]), TOp::OwnerSetStatus { st: St::ReattachDue, amt: Amt::Fixed(2) }, ], },
        78 => PowerDef { st: St::ReattachDue, hook: Hook::EnemyTurnStart, ops: &[ TOp::GrowSelf(-1i32), TOp::If { cond: TCond::SelfStacksAtMost(0), then: &[ TOp::OwnerHeal(Amt::OwnerStacksOf(St::Reattach)), TOp::OwnerForceMove(3), TOp::OwnerClearStatus(St::MoveForcedThisTurn), ], }, ], },
        79 => PowerDef { st: St::Disintegration, hook: Hook::TurnEndLate, ops: &[TOp::DamagePlayer(Amt::Stacks)] },
        80 => PowerDef { st: St::Nemesis, hook: Hook::EnemyTurnEnd, ops: &[TOp::OwnerToggleStatus(St::Intangible)], },
        81 => PowerDef { st: St::Stock, hook: Hook::EnemyDied, ops: &[TOp::SummonCarryingSelfMinusOne { def: enemy::AXEBOT, hp: 74 }], },
        82 => PowerDef { st: St::PossessStrength, hook: Hook::EnemyDied, ops: &[TOp::PlayerStatus { st: St::Strength, amt: Amt::OwnerStacksOf(St::Strength) }], },
        83 => PowerDef { st: St::PossessSpeed, hook: Hook::EnemyDied, ops: &[TOp::PlayerStatus { st: St::Dexterity, amt: Amt::OwnerStacksOf(St::Dexterity) }], },
        84 => PowerDef { st: St::Galvanic, hook: Hook::CardPlayed, ops: &[TOp::If { cond: TCond::LastPlayedKindIs(Kind::Power), then: &[TOp::DamagePlayer(Amt::Stacks)], }], },
        85 => PowerDef { st: St::PaperCuts, hook: Hook::AttackUnblocked, ops: &[TOp::PlayerLoseMaxHp(Amt::Stacks)], },
        86 => PowerDef { st: St::PainfulStabs, hook: Hook::AttackUnblocked, ops: &[TOp::AddCardToDiscard { card: card::WOUND, count: 1 }], },
        87 => PowerDef { st: St::HexCaster, hook: Hook::EnemyDied, ops: &[TOp::PlayerClearStatus(St::Hex)], },
        88 => PowerDef { st: St::DampenCaster, hook: Hook::EnemyDied, ops: &[TOp::RestoreDampenedCards, TOp::PlayerClearStatus(St::Dampen)], },
        89 => PowerDef { st: St::MrStruggles, hook: Hook::TurnStart, ops: &[TOp::DamageAllEnemies(Amt::TurnNumber)], },
        90 => PowerDef { st: St::CaptainsWheel, hook: Hook::TurnStart, ops: &[TOp::If { cond: TCond::TurnIs(3), then: &[TOp::OwnerBlock(Amt::Stacks)] }], },
        91 => PowerDef { st: St::GremlinHorn, hook: Hook::EnemyDied, ops: &[TOp::OwnerEnergy(Amt::Fixed(1)), TOp::OwnerDraw(Amt::Fixed(1))], },
        92 => PowerDef { st: St::Regen, hook: Hook::TurnEnd, ops: &[TOp::OwnerHeal(Amt::Stacks), TOp::GrowSelf(-1i32)], },
        93 => PowerDef { st: St::Frenzy, hook: Hook::PlayerAttack, ops: &[TOp::OwnerBlock(Amt::Stacks)] },
        94 => PowerDef { st: St::CurlUp, hook: Hook::EnemyDamaged, ops: &[TOp::OwnerBlock(Amt::Stacks), TOp::ClearSelf], },
        95 => PowerDef { st: St::Stampede, hook: Hook::TurnEnd, ops: &[TOp::AutoPlayRandomAttacksFromHand(Amt::Stacks)], },
        96 => PowerDef { st: St::Juggling, hook: Hook::PlayerAttack, ops: &[TOp::CloneLastAttackToHandAt { nth: 3, amt: Amt::Stacks }], },
        97 => PowerDef { st: St::Aggression, hook: Hook::TurnStart, ops: &[TOp::FetchRandomAttacksFromDiscardUpgraded(Amt::Stacks)], },
        98 => PowerDef { st: St::Juggernaut, hook: Hook::GainBlock, ops: &[TOp::DamageRandomEnemy(Amt::Stacks)], },
        99 => PowerDef { st: St::Colossus, hook: Hook::TurnStart, ops: &[TOp::GrowSelf(-1i32)], },
        100 => PowerDef { st: St::FlameBarrier, hook: Hook::Attacked, ops: &[TOp::DamageContextEnemy(Amt::Stacks)], },
        101 => PowerDef { st: St::Ritual, hook: Hook::EnemyTurnEnd, ops: &[ TOp::If { cond: TCond::OwnerHas(St::RitualArmed), then: &[TOp::OwnerStatus { st: St::Strength, amt: Amt::Stacks }], }, TOp::OwnerSetStatus { st: St::RitualArmed, amt: Amt::Fixed(1) }, ], },
        102 => PowerDef { st: St::Rampart, hook: Hook::TurnStart, ops: &[TOp::BlockEnemiesOfDef { def: enemy::TURRET_OPERATOR, amt: Amt::Stacks }], },
        103 => PowerDef { st: St::Thorns, hook: Hook::Attacked, ops: &[TOp::DamageAttacker(Amt::Stacks)], },
        104 => PowerDef { st: St::Thorns, hook: Hook::EnemyAttacked, ops: &[TOp::DamageAttacker(Amt::Stacks)], },
        _ => PowerDef { st: St::WitheringPresence, hook: Hook::CardPlayed, ops: &[ TOp::GrowSelf(-1i32), TOp::If { cond: TCond::SelfStacksAtMost(0), then: &[ TOp::AddCardToHand { card: card::WITHER, count: 1 }, TOp::SetSelf(6), ], }, ], },
    }
}

/// Rule `i` of the rule table.
pub fn power_at(i: u16) -> (r: &'static PowerDef)
    requires
        i < POWER_COUNT,
    ensures
        *r == power_row(i),
{
    if i < 12 {
        power_at_0(i)
    } else if i < 24 {
        power_at_1(i)
    } else if i < 36 {
        power_at_2(i)
    } else if i < 48 {
        power_at_3(i)
    } else if i < 60 {
        power_at_4(i)
    } else if i < 72 {
        power_at_5(i)
    } else if i < 84 {
        power_at_6(i)
    } else if i < 96 {
        power_at_7(i)
    } else {
        power_at_8(i)
    }
}

fn power_at_0(i: u16) -> (r: &'static PowerDef)
    requires
        0 <= i <= 11,
    ensures
        *r == power_row(i),
{
    proof {
        reveal(power_row);
    }
    match i {
        0 => &PowerDef { st: St::OrnamentalFan, hook: Hook::PlayerAttack, ops: &[TOp::If { cond: TCond::EveryNthAttackThisTurn(3), then: &[TOp::OwnerBlock(Amt::Stacks)], }], },
        1 => &PowerDef { st: St::MercuryHourglass, hook: Hook::TurnStart, ops: &[TOp::DamageAllEnemies(Amt::Stacks)], },
        2 => &PowerDef { st: St::Lantern, hook: Hook::TurnStart, ops: &[TOp::If { cond: TCond::TurnAtMost(1), then: &[TOp::OwnerEnergy(Amt::Stacks)] }], },
        3 => &PowerDef { st: St::UpgradeOpeningHand, hook: Hook::HandDrawn, ops: &[TOp::If { cond: TCond::TurnAtMost(1), then: &[TOp::UpgradeHand] }], },
        4 => &PowerDef { st: St::JeweledMask, hook: Hook::TurnStart, ops: &[TOp::If { cond: TCond::TurnAtMost(1), then: &[TOp::MoveRandomPowerFromDrawToHandFree], }], },
        5 => &PowerDef { st: St::StoneCracker, hook: Hook::TurnStart, ops: &[TOp::If { cond: TCond::TurnAtMost(1), then: &[TOp::UpgradeRandomInDraw(2)] }], },
        6 => &PowerDef { st: St::BloodVial, hook: Hook::TurnStart, ops: &[TOp::If { cond: TCond::TurnAtMost(1), then: &[TOp::OwnerHeal(Amt::Stacks)] }], },
        7 => &PowerDef { st: St::Pantograph, hook: Hook::TurnStart, ops: &[TOp::If { cond: TCond::TurnAtMost(1), then: &[TOp::OwnerHeal(Amt::Stacks)] }], },
        8 => &PowerDef { st: St::TeaSet, hook: Hook::TurnStart, ops: &[TOp::If { cond: TCond::TurnAtMost(1), then: &[TOp::OwnerEnergy(Amt::Stacks), TOp::ClearSelf], }], },
        9 => &PowerDef { st: St::HighVoltage, hook: Hook::EnemyTurnEnd, ops: &[TOp::OwnerStatus { st: St::Strength, amt: Amt::Stacks }], },
        10 => &PowerDef { st: St::Territorial, hook: Hook::EnemyTurnEnd, ops: &[TOp::OwnerStatus { st: St::Strength, amt: Amt::Stacks }], },
        _ => &PowerDef { st: St::ParryingShield, hook: Hook::TurnEnd, ops: &[TOp::If { cond: TCond::OwnerBlockAtLeast(10), then: &[TOp::DamageRandomEnemy(Amt::Stacks)], }], },
    }
}

fn power_at_1(i: u16) -> (r: &'static PowerDef)
    requires
        12 <= i <= 23,
    ensures
        *r == power_row(i),
{
    proof {
        reveal(power_row);
    }
    match i {
        12 => &PowerDef { st: St::ScreamingFlagon, hook: Hook::TurnEnd, ops: &[TOp::If { cond: TCond::HandEmpty, then: &[TOp::DamageAllEnemies(Amt::Stacks)], }], },
        13 => &PowerDef { st: St::CloakClasp, hook: Hook::TurnEnd, ops: &[TOp::OwnerBlock(Amt::HandCardsTimesStacks)], },
        14 => &PowerDef { st: St::HornCleat, hook: Hook::TurnStart, ops: &[TOp::If { cond: TCond::TurnIs(2), then: &[TOp::OwnerBlock(Amt::Stacks)] }], },
        15 => &PowerDef { st: St::Anchor, hook: Hook::TurnStart, ops: &[TOp::If { cond: TCond::TurnAtMost(1), then: &[TOp::OwnerBlock(Amt::Stacks)] }], },
        16 => &PowerDef { st: St::BagOfMarbles, hook: Hook::TurnStart, ops: &[TOp::If { cond: TCond::TurnAtMost(1), then: &[TOp::AllEnemiesStatus { st: St::Vulnerable, amt: Amt::Stacks }], }], },
        17 => &PowerDef { st: St::RedMask, hook: Hook::TurnStart, ops: &[TOp::If { cond: TCond::TurnAtMost(1), then: &[TOp::AllEnemiesStatus { st: St::Weak, amt: Amt::Stacks }], }], },
        18 => &PowerDef { st: St::BagOfPreparation, hook: Hook::TurnStart, ops: &[TOp::If { cond: TCond::TurnAtMost(1), then: &[TOp::OwnerDraw(Amt::Stacks)] }], },
        19 => &PowerDef { st: St::Candelabra, hook: Hook::TurnStart, ops: &[TOp::If { cond: TCond::TurnIs(2), then: &[TOp::OwnerEnergy(Amt::Stacks)] }], },
        20 => &PowerDef { st: St::HappyFlower, hook: Hook::TurnStart, ops: &[TOp::If { cond: TCond::TurnMultipleOf(3), then: &[TOp::OwnerEnergy(Amt::Stacks)] }], },
        21 => &PowerDef { st: St::FakeHappyFlower, hook: Hook::TurnStart, ops: &[TOp::If { cond: TCond::TurnMultipleOf(5), then: &[TOp::OwnerEnergy(Amt::Stacks)] }], },
        22 => &PowerDef { st: St::PollinousCore, hook: Hook::TurnStart, ops: &[TOp::If { cond: TCond::TurnMultipleOf(4), then: &[TOp::OwnerDraw(Amt::Stacks)] }], },
        _ => &PowerDef { st: St::PaelsBlood, hook: Hook::TurnStart, ops: &[TOp::OwnerDraw(Amt::Stacks)] },
    }
}

fn power_at_2(i: u16) -> (r: &'static PowerDef)
    requires
        24 <= i <= 35,
    ensures
        *r == power_row(i),
{
    proof {
        reveal(power_row);
    }
    match i {
        24 => &PowerDef { st: St::PaelsFlesh, hook: Hook::TurnStart, ops: &[TOp::If { cond: TCond::TurnAtLeast(3), then: &[TOp::OwnerEnergy(Amt::Stacks)] }], },
        25 => &PowerDef { st: St::Kunai, hook: Hook::PlayerAttack, ops: &[TOp::If { cond: TCond::EveryNthAttackThisTurn(3), then: &[TOp::OwnerStatus { st: St::Dexterity, amt: Amt::Stacks }], }], },
        26 => &PowerDef { st: St::Flutter, hook: Hook::EnemyDamaged, ops: &[TOp::GrowSelf(-1)], },
        27 => &PowerDef { st: St::EscapeArtist, hook: Hook::EnemyTurnEnd, ops: &[TOp::If { cond: TCond::SelfStacksAtLeast(2), then: &[TOp::GrowSelf(-1)] }], },
        28 => &PowerDef { st: St::Tender, hook: Hook::CardPlayed, ops: &[ TOp::PlayerStatus { st: St::Strength, amt: Amt::Fixed(-1) }, TOp::PlayerStatus { st: St::Dexterity, amt: Amt::Fixed(-1) }, ], },
        29 => &PowerDef { st: St::Tender, hook: Hook::TurnEnd, ops: &[ TOp::PlayerStatus { st: St::Strength, amt: Amt::CardsPlayed }, TOp::PlayerStatus { st: St::Dexterity, amt: Amt::CardsPlayed }, ], },
        30 => &PowerDef { st: St::Radiance, hook: Hook::TurnStart, ops: &[TOp::OwnerEnergy(Amt::Fixed(1)), TOp::GrowSelf(-1)], },
        31 => &PowerDef { st: St::LetterOpener, hook: Hook::PlayerSkill, ops: &[TOp::If { cond: TCond::EveryNthSkillThisTurn(3), then: &[TOp::DamageAllEnemies(Amt::Stacks)], }], },
        32 => &PowerDef { st: St::CrabRage, hook: Hook::AllyDied, ops: &[ TOp::OwnerStatus { st: St::Strength, amt: Amt::Fixed(6) }, TOp::OwnerBlock(Amt::Fixed(99)), ], },
        33 => &PowerDef { st: St::Ravenous, hook: Hook::AllyDied, ops: &[ TOp::OwnerStatus { st: St::Strength, amt: Amt::Stacks }, TOp::OwnerStatus { st: St::Stunned, amt: Amt::Fixed(1) }, ], },
        34 => &PowerDef { st: St::CentennialPuzzle, hook: Hook::PlayerDamaged, ops: &[TOp::OwnerDraw(Amt::Stacks), TOp::ClearSelf], },
        _ => &PowerDef { st: St::Akabeko, hook: Hook::TurnStart, ops: &[TOp::If { cond: TCond::TurnAtMost(1), then: &[TOp::OwnerStatus { st: St::Vigor, amt: Amt::Stacks }], }], },
    }
}

fn power_at_3(i: u16) -> (r: &'static PowerDef)
    requires
        36 <= i <= 47,
    ensures
        *r == power_row(i),
{
    proof {
        reveal(power_row);
    }
    match i {
        36 => &PowerDef { st: St::Pendulum, hook: Hook::TurnStart, ops: &[TOp::If { cond: TCond::EveryNTurns { n: 3, phase: St::PendulumPhase }, then: &[TOp::OwnerDraw(Amt::Stacks)], }], },
        37 => &PowerDef { st: St::StoneCalendar, hook: Hook::TurnEnd, ops: &[TOp::If { cond: TCond::TurnIs(7), then: &[TOp::DamageAllEnemies(Amt::Stacks)] }], },
        38 => &PowerDef { st: St::Orichalcum, hook: Hook::TurnEndVeryEarly, ops: &[TOp::If { cond: TCond::OwnerHasNoBlock, then: &[TOp::OwnerStatus { st: St::OrichalcumArmed, amt: Amt::Fixed(1) }], }], },
        39 => &PowerDef { st: St::Orichalcum, hook: Hook::TurnEnd, ops: &[TOp::If { cond: TCond::OwnerHas(St::OrichalcumArmed), then: &[ TOp::OwnerBlock(Amt::Stacks), TOp::OwnerStatus { st: St::OrichalcumArmed, amt: Amt::Fixed(-1) }, ], }], },
        40 => &PowerDef { st: St::MeatOnTheBone, hook: Hook::CombatVictoryEarly, ops: &[TOp::OwnerHealIfHpAtMost { pct: 50, amt: Amt::Stacks }], },
        41 => &PowerDef { st: St::BurningBlood, hook: Hook::CombatVictory, ops: &[TOp::OwnerHeal(Amt::Stacks)], },
        42 => &PowerDef { st: St::DemonForm, hook: Hook::TurnStart, ops: &[TOp::OwnerStatus { st: St::Strength, amt: Amt::Stacks }], },
        43 => &PowerDef { st: St::VitalSpark, hook: Hook::PlayerSkill, ops: &[TOp::PlayerStatus { st: St::Tainted, amt: Amt::Stacks }], },
        44 => &PowerDef { st: St::Rage, hook: Hook::PlayerSkill, ops: &[TOp::OwnerStatus { st: St::Strength, amt: Amt::Stacks }], },
        45 => &PowerDef { st: St::FeelNoPain, hook: Hook::CardExhausted, ops: &[TOp::OwnerBlock(Amt::Stacks)], },
        46 => &PowerDef { st: St::DarkEmbrace, hook: Hook::CardExhausted, ops: &[TOp::OwnerDraw(Amt::Stacks)], },
        _ => &PowerDef { st: St::Rupture, hook: Hook::PlayerLoseHp, ops: &[TOp::OwnerStatus { st: St::Strength, amt: Amt::Stacks }], },
    }
}

fn power_at_4(i: u16) -> (r: &'static PowerDef)
    requires
        48 <= i <= 59,
    ensures
        *r == power_row(i),
{
    proof {
        reveal(power_row);
    }
    match i {
        48 => &PowerDef { st: St::CrimsonMantle, hook: Hook::TurnStart, ops: &[TOp::OwnerLoseHp(Amt::Fixed(1)), TOp::OwnerBlock(Amt::Stacks)], },
        49 => &PowerDef { st: St::RollingBoulder, hook: Hook::TurnStart, ops: &[TOp::DamageAllEnemies(Amt::Stacks), TOp::GrowSelf(5)], },
        50 => &PowerDef { st: St::Vicious, hook: Hook::ApplyVuln, ops: &[TOp::OwnerDraw(Amt::Stacks)] },
        51 => &PowerDef { st: St::PlatedArmor, hook: Hook::TurnEnd, ops: &[TOp::If { cond: TCond::OwnerIsPlayer, then: &[TOp::OwnerBlock(Amt::Stacks)] }], },
        52 => &PowerDef { st: St::PlatedArmor, hook: Hook::TurnStart, ops: &[ TOp::If { cond: TCond::OwnerIsPlayer, then: &[TOp::If { cond: TCond::TurnAtLeast(2), then: &[TOp::GrowSelf(-1)] }], }, TOp::If { cond: TCond::OwnerIsEnemy, then: &[TOp::If { cond: TCond::TurnAtMost(1), then: &[TOp::OwnerBlock(Amt::Stacks)], }], }, ], },
        53 => &PowerDef { st: St::PlatedArmor, hook: Hook::EnemyTurnStart, ops: &[TOp::If { cond: TCond::OwnerIsEnemy, then: &[TOp::If { cond: TCond::TurnAtLeast(2), then: &[TOp::GrowSelf(-1)] }], }], },
        54 => &PowerDef { st: St::PlatedArmor, hook: Hook::EnemyTurnEndEarly, ops: &[TOp::If { cond: TCond::OwnerIsEnemy, then: &[TOp::OwnerBlock(Amt::Stacks)] }], },
        55 => &PowerDef { st: St::Sandpit, hook: Hook::EnemyTurnStart, ops: &[ TOp::GrowSelf(-1), TOp::If { cond: TCond::SelfStacksAtMost(0), then: &[TOp::KillPlayer] }, ], },
        56 => &PowerDef { st: St::Constrict, hook: Hook::TurnEnd, ops: &[TOp::OwnerTakeDamage(Amt::Stacks)] },
        57 => &PowerDef { st: St::Shriek, hook: Hook::EnemyDamaged, ops: &[TOp::If { cond: TCond::OwnerHpAtMostStacks, then: &[TOp::OwnerForceMove(2), TOp::ClearSelf], }], },
        58 => &PowerDef { st: St::Plow, hook: Hook::EnemyDamaged, ops: &[TOp::If { cond: TCond::OwnerHpAtMostStacks, then: &[ TOp::OwnerClearStatus(St::Strength), TOp::OwnerClearStatus(St::TempStrength), TOp::OwnerForceMove(2), TOp::ClearSelf, ], }], },
        _ => &PowerDef { st: St::PersonalHive, hook: Hook::EnemyDamaged, ops: &[TOp::If { cond: TCond::LastHitWasAttack, then: &[TOp::AddCardToDraw { card: card::DAZED, amt: Amt::Stacks }], }], },
    }
}

fn power_at_5(i: u16) -> (r: &'static PowerDef)
    requires
        60 <= i <= 71,
    ensures
        *r == power_row(i),
{
    proof {
        reveal(power_row);
    }
    match i {
        60 => &PowerDef { st: St::Slumber, hook: Hook::EnemyDamaged, ops: &[TOp::If { cond: TCond::LastHitUnblocked, then: &[ TOp::GrowSelf(-1), TOp::If { cond: TCond::SelfStacksAtMost(0), then: &[TOp::OwnerForceMove(2)] }, ], }], },
        61 => &PowerDef { st: St::Slumber, hook: Hook::EnemyTurnEnd, ops: &[ TOp::GrowSelf(-1), TOp::If { cond: TCond::SelfStacksAtMost(0), then: &[TOp::OwnerClearStatus(St::PlatedArmor)] }, ], },
        62 => &PowerDef { st: St::Asleep, hook: Hook::EnemyDamaged, ops: &[TOp::If { cond: TCond::LastHitUnblocked, then: &[ TOp::OwnerClearStatus(St::PlatedArmor), TOp::OwnerForceMove(5), TOp::ClearSelf, ], }], },
        63 => &PowerDef { st: St::Asleep, hook: Hook::EnemyTurnEndVeryEarly, ops: &[TOp::If { cond: TCond::SelfStacksAtMost(1), then: &[TOp::OwnerClearStatus(St::PlatedArmor)], }], },
        64 => &PowerDef { st: St::Asleep, hook: Hook::EnemyTurnEnd, ops: &[TOp::GrowSelf(-1)] },
        65 => &PowerDef { st: St::Slippery, hook: Hook::EnemyDamaged, ops: &[TOp::If { cond: TCond::LastHitUnblocked, then: &[TOp::GrowSelf(-1)] }], },
        66 => &PowerDef { st: St::HardenedShellCap, hook: Hook::SideTurnStart, ops: &[TOp::OwnerSetStatus { st: St::HardenedShell, amt: Amt::Stacks }], },
        67 => &PowerDef { st: St::Suck, hook: Hook::AttackUnblocked, ops: &[TOp::OwnerStatus { st: St::Strength, amt: Amt::Stacks }], },
        68 => &PowerDef { st: St::Surprise, hook: Hook::EnemyDied, ops: &[ TOp::SummonN { def: enemy::SNEAKY_GREMLIN, hp: 12, count: 1 }, TOp::SummonN { def: enemy::FAT_GREMLIN, hp: 15, count: 1 }, ], },
        69 => &PowerDef { st: St::Ringing, hook: Hook::TurnEnd, ops: &[TOp::ClearSelf] },
        70 => &PowerDef { st: St::Tangled, hook: Hook::TurnEndLate, ops: &[TOp::ClearSelf] },
        _ => &PowerDef { st: St::Infested, hook: Hook::EnemyDied, ops: &[TOp::SummonN { def: enemy::WRIGGLER, hp: 19, count: 4 }], },
    }
}

fn power_at_6(i: u16) -> (r: &'static PowerDef)
    requires
        72 <= i <= 83,
    ensures
        *r == power_row(i),
{
    proof {
        reveal(power_row);
    }
    match i {
        72 => &PowerDef { st: St::Adaptable, hook: Hook::EnemyDied, ops: &[ TOp::ClearOwnerStatusesExcept(&[St::Adaptable, St::PainfulStabs]), TOp::If { cond: TCond::OwnerMaxHpAtLeast(super::TEST_SUBJECT_FORM1_MAX + 1), then: &[ TOp::OwnerSetMaxHp(super::TEST_SUBJECT_FORM3_HP), TOp::OwnerStatus { st: St::Nemesis, amt: Amt::Fixed(1) }, ], }, TOp::If { cond: TCond::OwnerMaxHpAtMost(super::TEST_SUBJECT_FORM1_MAX), then: &[ TOp::OwnerSetMaxHp(super::TEST_SUBJECT_FORM2_HP), TOp::OwnerStatus { st: St::PainfulStabs, amt: Amt::Fixed(1) }, ], }, TOp::OwnerForceMove(0), ], },
        73 => &PowerDef { st: St::Adaptable, hook: Hook::EnemyTurnStart, ops: &[TOp::If { cond: TCond::OwnerIsDead, then: &[ TOp::OwnerHealToFull, TOp::If { cond: TCond::OwnerMaxHpAtLeast(super::TEST_SUBJECT_FORM3_HP), then: &[ TOp::OwnerClearStatus(St::Adaptable), TOp::OwnerClearStatus(St::PainfulStabs), ], }, ], }], },
        74 => &PowerDef { st: St::SteamEruption, hook: Hook::EnemyDied, ops: &[ TOp::ClearOwnerStatusesExcept(&[St::SteamEruption]), TOp::OwnerSetMaxHp(super::ABOUT_TO_BLOW_HP), TOp::OwnerHealToFull, TOp::OwnerForceMove(super::WATERFALL_ABOUT_TO_BLOW_MOVE), ], },
        75 => &PowerDef { st: St::Illusion, hook: Hook::EnemyDied, ops: &[ TOp::ClearOwnerStatusesExcept(&[ St::Illusion, St::Minion, St::Strength, St::TempStrength, ]), TOp::OwnerForceMove(0), ], },
        76 => &PowerDef { st: St::Illusion, hook: Hook::EnemyTurnStart, ops: &[TOp::If { cond: TCond::OwnerIsDead, then: &[TOp::OwnerHealToFull] }], },
        77 => &PowerDef { st: St::Reattach, hook: Hook::EnemyDied, ops: &[ TOp::ClearOwnerStatusesExcept(&[St::Reattach]), TOp::OwnerSetStatus { st: St::ReattachDue, amt: Amt::Fixed(2) }, ], },
        78 => &PowerDef { st: St::ReattachDue, hook: Hook::EnemyTurnStart, ops: &[ TOp::GrowSelf(-1), TOp::If { cond: TCond::SelfStacksAtMost(0), then: &[ TOp::OwnerHeal(Amt::OwnerStacksOf(St::Reattach)), TOp::OwnerForceMove(3), TOp::OwnerClearStatus(St::MoveForcedThisTurn), ], }, ], },
        79 => &PowerDef { st: St::Disintegration, hook: Hook::TurnEndLate, ops: &[TOp::DamagePlayer(Amt::Stacks)] },
        80 => &PowerDef { st: St::Nemesis, hook: Hook::EnemyTurnEnd, ops: &[TOp::OwnerToggleStatus(St::Intangible)], },
        81 => &PowerDef { st: St::Stock, hook: Hook::EnemyDied, ops: &[TOp::SummonCarryingSelfMinusOne { def: enemy::AXEBOT, hp: 74 }], },
        82 => &PowerDef { st: St::PossessStrength, hook: Hook::EnemyDied, ops: &[TOp::PlayerStatus { st: St::Strength, amt: Amt::OwnerStacksOf(St::Strength) }], },
        _ => &PowerDef { st: St::PossessSpeed, hook: Hook::EnemyDied, ops: &[TOp::PlayerStatus { st: St::Dexterity, amt: Amt::OwnerStacksOf(St::Dexterity) }], },
    }
}

fn power_at_7(i: u16) -> (r: &'static PowerDef)
    requires
        84 <= i <= 95,
    ensures
        *r == power_row(i),
{
    proof {
        reveal(power_row);
    }
    match i {
        84 => &PowerDef { st: St::Galvanic, hook: Hook::CardPlayed, ops: &[TOp::If { cond: TCond::LastPlayedKindIs(Kind::Power), then: &[TOp::DamagePlayer(Amt::Stacks)], }], },
        85 => &PowerDef { st: St::PaperCuts, hook: Hook::AttackUnblocked, ops: &[TOp::PlayerLoseMaxHp(Amt::Stacks)], },
        86 => &PowerDef { st: St::PainfulStabs, hook: Hook::AttackUnblocked, ops: &[TOp::AddCardToDiscard { card: card::WOUND, count: 1 }], },
        87 => &PowerDef { st: St::HexCaster, hook: Hook::EnemyDied, ops: &[TOp::PlayerClearStatus(St::Hex)], },
        88 => &PowerDef { st: St::DampenCaster, hook: Hook::EnemyDied, ops: &[TOp::RestoreDampenedCards, TOp::PlayerClearStatus(St::Dampen)], },
        89 => &PowerDef { st: St::MrStruggles, hook: Hook::TurnStart, ops: &[TOp::DamageAllEnemies(Amt::TurnNumber)], },
        90 => &PowerDef { st: St::CaptainsWheel, hook: Hook::TurnStart, ops: &[TOp::If { cond: TCond::TurnIs(3), then: &[TOp::OwnerBlock(Amt::Stacks)] }], },
        91 => &PowerDef { st: St::GremlinHorn, hook: Hook::EnemyDied, ops: &[TOp::OwnerEnergy(Amt::Fixed(1)), TOp::OwnerDraw(Amt::Fixed(1))], },
        92 => &PowerDef { st: St::Regen, hook: Hook::TurnEnd, ops: &[TOp::OwnerHeal(Amt::Stacks), TOp::GrowSelf(-1)], },
        93 => &PowerDef { st: St::Frenzy, hook: Hook::PlayerAttack, ops: &[TOp::OwnerBlock(Amt::Stacks)] },
        94 => &PowerDef { st: St::CurlUp, hook: Hook::EnemyDamaged, ops: &[TOp::OwnerBlock(Amt::Stacks), TOp::ClearSelf], },
        _ => &PowerDef { st: St::Stampede, hook: Hook::TurnEnd, ops: &[TOp::AutoPlayRandomAttacksFromHand(Amt::Stacks)], },
    }
}

fn power_at_8(i: u16) -> (r: &'static PowerDef)
    requires
        96 <= i <= 105,
    ensures
        *r == power_row(i),
{
    proof {
        reveal(power_row);
    }
    match i {
        96 => &PowerDef { st: St::Juggling, hook: Hook::PlayerAttack, ops: &[TOp::CloneLastAttackToHandAt { nth: 3, amt: Amt::Stacks }], },
        97 => &PowerDef { st: St::Aggression, hook: Hook::TurnStart, ops: &[TOp::FetchRandomAttacksFromDiscardUpgraded(Amt::Stacks)], },
        98 => &PowerDef { st: St::Juggernaut, hook: Hook::GainBlock, ops: &[TOp::DamageRandomEnemy(Amt::Stacks)], },
        99 => &PowerDef { st: St::Colossus, hook: Hook::TurnStart, ops: &[TOp::GrowSelf(-1)], },
        100 => &PowerDef { st: St::FlameBarrier, hook: Hook::Attacked, ops: &[TOp::DamageContextEnemy(Amt::Stacks)], },
        101 => &PowerDef { st: St::Ritual, hook: Hook::EnemyTurnEnd, ops: &[ TOp::If { cond: TCond::OwnerHas(St::RitualArmed), then: &[TOp::OwnerStatus { st: St::Strength, amt: Amt::Stacks }], }, TOp::OwnerSetStatus { st: St::RitualArmed, amt: Amt::Fixed(1) }, ], },
        102 => &PowerDef { st: St::Rampart, hook: Hook::TurnStart, ops: &[TOp::BlockEnemiesOfDef { def: enemy::TURRET_OPERATOR, amt: Amt::Stacks }], },
        103 => &PowerDef { st: St::Thorns, hook: Hook::Attacked, ops: &[TOp::DamageAttacker(Amt::Stacks)], },
        104 => &PowerDef { st: St::Thorns, hook: Hook::EnemyAttacked, ops: &[TOp::DamageAttacker(Amt::Stacks)], },
        _ => &PowerDef { st: St::WitheringPresence, hook: Hook::CardPlayed, ops: &[ TOp::GrowSelf(-1), TOp::If { cond: TCond::SelfStacksAtMost(0), then: &[ TOp::AddCardToHand { card: card::WITHER, count: 1 }, TOp::SetSelf(6), ], }, ], },
    }
}

} // verus!
