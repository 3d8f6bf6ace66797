//! The card table: every card the kernel implements.

use vstd::prelude::*;
use crate::ops::{CardDef, Kind, Op, Scale, Tgt, Cond};
use crate::state::St;
use super::card;

verus! {

/// Number of cards in the card table.
pub const CARD_COUNT: u16 = 117;

/// The card table, by card id.
#[verifier::opaque]
pub open spec fn card_row(i: u16) -> CardDef {
    match i {
        0 => CardDef { name: "打击", cost: 1, kind: Kind::Attack, targeted: true, exhausts: false, cost_minus_attacks: false, ops: &[Op::Damage { base: 6, hits: 1, scale: Scale::Flat }], ops_upg: &[Op::Damage { base: 9, hits: 1, scale: Scale::Flat }], cost_upg: 1, },
        1 => CardDef { name: "防御", cost: 1, kind: Kind::Skill, targeted: false, exhausts: false, cost_minus_attacks: false, ops: &[Op::Block { base: 5 }], ops_upg: &[Op::Block { base: 8 }], cost_upg: 1, },
        2 => CardDef { name: "痛击", cost: 2, kind: Kind::Attack, targeted: true, exhausts: false, cost_minus_attacks: false, ops: &[ Op::Damage { base: 8, hits: 1, scale: Scale::Flat }, Op::Status { tgt: Tgt::Enemy, st: St::Vulnerable, amt: 2 }, ], ops_upg: &[ Op::Damage { base: 10, hits: 1, scale: Scale::Flat }, Op::Status { tgt: Tgt::Enemy, st: St::Vulnerable, amt: 3 }, ], cost_upg: 2, },
        3 => CardDef { name: "拆卸", cost: 1, kind: Kind::Attack, targeted: true, exhausts: false, cost_minus_attacks: false, ops: &[ Op::Damage { base: 8, hits: 1, scale: Scale::Flat }, Op::DamageIfVuln { base: 8, scale: Scale::Flat }, ], ops_upg: &[ Op::Damage { base: 10, hits: 1, scale: Scale::Flat }, Op::DamageIfVuln { base: 10, scale: Scale::Flat }, ], cost_upg: 1, },
        4 => CardDef { name: "灰烬打击", cost: 1, kind: Kind::Attack, targeted: true, exhausts: false, cost_minus_attacks: false, ops: &[Op::Damage { base: 6, hits: 1, scale: Scale::PerExhaust(3) }], ops_upg: &[Op::Damage { base: 6, hits: 1, scale: Scale::PerExhaust(4) }], cost_upg: 1, },
        5 => CardDef { name: "恶魔之焰", cost: 2, kind: Kind::Attack, targeted: true, exhausts: true, cost_minus_attacks: false, ops: &[Op::ExhaustHandDamage { per: 7 }], ops_upg: &[Op::ExhaustHandDamage { per: 10 }], cost_upg: 2, },
        6 => CardDef { name: "闪电霹雳", cost: 1, kind: Kind::Attack, targeted: false, exhausts: false, cost_minus_attacks: false, ops: &[ Op::DamageAll { base: 4, hits: 1, scale: Scale::Flat }, Op::Status { tgt: Tgt::AllEnemies, st: St::Vulnerable, amt: 1 }, ], ops_upg: &[ Op::DamageAll { base: 7, hits: 1, scale: Scale::Flat }, Op::Status { tgt: Tgt::AllEnemies, st: St::Vulnerable, amt: 1 }, ], cost_upg: 1, },
        7 => CardDef { name: "欺凌", cost: 0, kind: Kind::Attack, targeted: true, exhausts: false, cost_minus_attacks: false, ops: &[Op::Damage { base: 4, hits: 1, scale: Scale::PerTargetVuln(2) }], ops_upg: &[Op::Damage { base: 4, hits: 1, scale: Scale::PerTargetVuln(3) }], cost_upg: 0, },
        8 => CardDef { name: "烙印", cost: 0, kind: Kind::Skill, targeted: false, exhausts: false, cost_minus_attacks: false, ops: &[ Op::LoseHp(1), Op::ExhaustChoose(1), Op::Status { tgt: Tgt::Me, st: St::Strength, amt: 1 }, ], ops_upg: &[ Op::LoseHp(1), Op::ExhaustChoose(1), Op::Status { tgt: Tgt::Me, st: St::Strength, amt: 2 }, ], cost_upg: 0, },
        9 => CardDef { name: "主宰", cost: 1, kind: Kind::Skill, targeted: true, exhausts: true, cost_minus_attacks: false, ops: &[ Op::Status { tgt: Tgt::Enemy, st: St::Vulnerable, amt: 1 }, Op::StrengthPerTargetVuln, ], ops_upg: &[ Op::Status { tgt: Tgt::Enemy, st: St::Vulnerable, amt: 2 }, Op::StrengthPerTargetVuln, ], cost_upg: 1, },
        10 => CardDef { name: "踩踏", cost: 3, kind: Kind::Attack, targeted: false, exhausts: false, cost_minus_attacks: true, ops: &[Op::DamageAll { base: 12, hits: 1, scale: Scale::Flat }], ops_upg: &[Op::DamageAll { base: 15, hits: 1, scale: Scale::Flat }], cost_upg: 3, },
        11 => CardDef { name: "恶魔形态", cost: 3, kind: Kind::Power, targeted: false, exhausts: false, cost_minus_attacks: false, ops: &[Op::Status { tgt: Tgt::Me, st: St::DemonForm, amt: 2 }], ops_upg: &[Op::Status { tgt: Tgt::Me, st: St::DemonForm, amt: 3 }], cost_upg: 3, },
        12 => CardDef { name: "无情猛攻", cost: 2, kind: Kind::Attack, targeted: true, exhausts: false, cost_minus_attacks: false, ops: &[ Op::Damage { base: 14, hits: 1, scale: Scale::Flat }, Op::FreeNextAttack, ], ops_upg: &[ Op::Damage { base: 20, hits: 1, scale: Scale::Flat }, Op::FreeNextAttack, ], cost_upg: 2, },
        13 => CardDef { name: "伤口", cost: 0, kind: Kind::Status, targeted: false, exhausts: false, cost_minus_attacks: false, ops: &[], ops_upg: &[], cost_upg: 0, },
        14 => CardDef { name: "<未知牌>", cost: 0, kind: Kind::Status, targeted: false, exhausts: false, cost_minus_attacks: false, ops: &[], ops_upg: &[], cost_upg: 0, },
        15 => CardDef { name: "御血术", cost: 1, kind: Kind::Attack, targeted: true, exhausts: false, cost_minus_attacks: false, ops: &[Op::LoseHp(2), Op::Damage { base: 15, hits: 1, scale: Scale::Flat }], ops_upg: &[Op::LoseHp(2), Op::Damage { base: 20, hits: 1, scale: Scale::Flat }], cost_upg: 1, },
        16 => CardDef { name: "预备打击", cost: 1, kind: Kind::Attack, targeted: true, exhausts: false, cost_minus_attacks: false, ops: &[ Op::Damage { base: 7, hits: 1, scale: Scale::Flat }, Op::Status { tgt: Tgt::Me, st: St::Strength, amt: 2 }, Op::Status { tgt: Tgt::Me, st: St::TempStrength, amt: 2 }, ], ops_upg: &[ Op::Damage { base: 9, hits: 1, scale: Scale::Flat }, Op::Status { tgt: Tgt::Me, st: St::Strength, amt: 3 }, Op::Status { tgt: Tgt::Me, st: St::TempStrength, amt: 3 }, ], cost_upg: 1, },
        17 => CardDef { name: "薪火之源", cost: 2, kind: Kind::Power, targeted: false, exhausts: false, cost_minus_attacks: false, ops: &[Op::Status { tgt: Tgt::Me, st: St::Pyre, amt: 1 }, Op::GainMaxEnergy(1)], ops_upg: &[Op::Status { tgt: Tgt::Me, st: St::Pyre, amt: 2 }, Op::GainMaxEnergy(2)], cost_upg: 2, },
        18 => CardDef { name: "无惧疼痛", cost: 1, kind: Kind::Power, targeted: false, exhausts: false, cost_minus_attacks: false, ops: &[Op::Status { tgt: Tgt::Me, st: St::FeelNoPain, amt: 3 }], ops_upg: &[Op::Status { tgt: Tgt::Me, st: St::FeelNoPain, amt: 4 }], cost_upg: 1, },
        19 => CardDef { name: "黑暗之拥", cost: 2, kind: Kind::Power, targeted: false, exhausts: false, cost_minus_attacks: false, ops: &[Op::Status { tgt: Tgt::Me, st: St::DarkEmbrace, amt: 1 }], ops_upg: &[Op::Status { tgt: Tgt::Me, st: St::DarkEmbrace, amt: 1 }], cost_upg: 1, },
        20 => CardDef { name: "撕裂", cost: 1, kind: Kind::Power, targeted: false, exhausts: false, cost_minus_attacks: false, ops: &[Op::Status { tgt: Tgt::Me, st: St::Rupture, amt: 1 }], ops_upg: &[Op::Status { tgt: Tgt::Me, st: St::Rupture, amt: 2 }], cost_upg: 1, },
        21 => CardDef { name: "绯红披风", cost: 1, kind: Kind::Power, targeted: false, exhausts: false, cost_minus_attacks: false, ops: &[Op::Status { tgt: Tgt::Me, st: St::CrimsonMantle, amt: 8 }], ops_upg: &[Op::Status { tgt: Tgt::Me, st: St::CrimsonMantle, amt: 10 }], cost_upg: 1, },
        22 => CardDef { name: "滚石", cost: 3, kind: Kind::Power, targeted: false, exhausts: false, cost_minus_attacks: false, ops: &[Op::Status { tgt: Tgt::Me, st: St::RollingBoulder, amt: 5 }], ops_upg: &[Op::Status { tgt: Tgt::Me, st: St::RollingBoulder, amt: 10 }], cost_upg: 3, },
        23 => CardDef { name: "凶恶", cost: 1, kind: Kind::Power, targeted: false, exhausts: false, cost_minus_attacks: false, ops: &[Op::Status { tgt: Tgt::Me, st: St::Vicious, amt: 1 }], ops_upg: &[Op::Status { tgt: Tgt::Me, st: St::Vicious, amt: 2 }], cost_upg: 1, },
        24 => CardDef { name: "燃烧", cost: 1, kind: Kind::Power, targeted: false, exhausts: false, cost_minus_attacks: false, ops: &[Op::Status { tgt: Tgt::Me, st: St::Strength, amt: 2 }], ops_upg: &[Op::Status { tgt: Tgt::Me, st: St::Strength, amt: 3 }], cost_upg: 1, },
        25 => CardDef { name: "铁斩波", cost: 1, kind: Kind::Attack, targeted: true, exhausts: false, cost_minus_attacks: false, ops: &[Op::Block { base: 5 }, Op::Damage { base: 5, hits: 1, scale: Scale::Flat }], ops_upg: &[Op::Block { base: 7 }, Op::Damage { base: 7, hits: 1, scale: Scale::Flat }], cost_upg: 1, },
        26 => CardDef { name: "耸肩无视", cost: 1, kind: Kind::Skill, targeted: false, exhausts: false, cost_minus_attacks: false, ops: &[Op::Block { base: 8 }, Op::Draw(1)], ops_upg: &[Op::Block { base: 11 }, Op::Draw(1)], cost_upg: 1, },
        27 => CardDef { name: "重锤", cost: 3, kind: Kind::Attack, targeted: true, exhausts: false, cost_minus_attacks: false, ops: &[Op::Damage { base: 32, hits: 1, scale: Scale::Flat }], ops_upg: &[Op::Damage { base: 42, hits: 1, scale: Scale::Flat }], cost_upg: 3, },
        28 => CardDef { name: "上勾拳", cost: 2, kind: Kind::Attack, targeted: true, exhausts: false, cost_minus_attacks: false, ops: &[ Op::Damage { base: 13, hits: 1, scale: Scale::Flat }, Op::Status { tgt: Tgt::Enemy, st: St::Weak, amt: 1 }, Op::Status { tgt: Tgt::Enemy, st: St::Vulnerable, amt: 1 }, ], ops_upg: &[ Op::Damage { base: 13, hits: 1, scale: Scale::Flat }, Op::Status { tgt: Tgt::Enemy, st: St::Weak, amt: 2 }, Op::Status { tgt: Tgt::Enemy, st: St::Vulnerable, amt: 2 }, ], cost_upg: 2, },
        29 => CardDef { name: "剑柄打击", cost: 1, kind: Kind::Attack, targeted: true, exhausts: false, cost_minus_attacks: false, ops: &[Op::Damage { base: 9, hits: 1, scale: Scale::Flat }, Op::Draw(1)], ops_upg: &[Op::Damage { base: 10, hits: 1, scale: Scale::Flat }, Op::Draw(2)], cost_upg: 1, },
        30 => CardDef { name: "双重打击", cost: 1, kind: Kind::Attack, targeted: true, exhausts: false, cost_minus_attacks: false, ops: &[Op::Damage { base: 5, hits: 2, scale: Scale::Flat }], ops_upg: &[Op::Damage { base: 7, hits: 2, scale: Scale::Flat }], cost_upg: 1, },
        31 => CardDef { name: "挑衅", cost: 1, kind: Kind::Skill, targeted: true, exhausts: false, cost_minus_attacks: false, ops: &[Op::Block { base: 7 }, Op::Status { tgt: Tgt::Enemy, st: St::Vulnerable, amt: 1 }], ops_upg: &[Op::Block { base: 8 }, Op::Status { tgt: Tgt::Enemy, st: St::Vulnerable, amt: 2 }], cost_upg: 1, },
        32 => CardDef { name: "巨石", cost: 1, kind: Kind::Attack, targeted: true, exhausts: false, cost_minus_attacks: false, ops: &[Op::Damage { base: 16, hits: 1, scale: Scale::Flat }], ops_upg: &[Op::Damage { base: 20, hits: 1, scale: Scale::Flat }], cost_upg: 1, },
        33 => CardDef { name: "焚烧", cost: 1, kind: Kind::Attack, targeted: false, exhausts: false, cost_minus_attacks: false, ops: &[Op::DamageAll { base: 2, hits: 4, scale: Scale::Flat }], ops_upg: &[Op::DamageAll { base: 2, hits: 5, scale: Scale::Flat }], cost_upg: 1, },
        34 => CardDef { name: "战略大师", cost: 0, kind: Kind::Skill, targeted: false, exhausts: true, cost_minus_attacks: false, ops: &[Op::Draw(3)], ops_upg: &[Op::Draw(4)], cost_upg: 0, },
        35 => CardDef { name: "究极打击", cost: 1, kind: Kind::Attack, targeted: true, exhausts: false, cost_minus_attacks: false, ops: &[Op::Damage { base: 14, hits: 1, scale: Scale::Flat }], ops_upg: &[Op::Damage { base: 20, hits: 1, scale: Scale::Flat }], cost_upg: 1, },
        36 => CardDef { name: "妙计", cost: 0, kind: Kind::Skill, targeted: false, exhausts: false, cost_minus_attacks: false, ops: &[Op::Block { base: 4 }, Op::Draw(1)], ops_upg: &[Op::Block { base: 7 }, Op::Draw(1)], cost_upg: 0, },
        37 => CardDef { name: "战栗", cost: 1, kind: Kind::Skill, targeted: true, exhausts: true, cost_minus_attacks: false, ops: &[Op::Status { tgt: Tgt::Enemy, st: St::Vulnerable, amt: 3 }], ops_upg: &[Op::Status { tgt: Tgt::Enemy, st: St::Vulnerable, amt: 4 }], cost_upg: 1, },
        38 => CardDef { name: "黏液", cost: 1, kind: Kind::Status, targeted: false, exhausts: true, cost_minus_attacks: false, ops: &[Op::Draw(1)], ops_upg: &[], cost_upg: 1, },
        39 => CardDef { name: "血墙", cost: 2, kind: Kind::Skill, targeted: false, exhausts: false, cost_minus_attacks: false, ops: &[Op::LoseHp(2), Op::Block { base: 16 }], ops_upg: &[Op::LoseHp(2), Op::Block { base: 20 }], cost_upg: 2, },
        40 => CardDef { name: "突破", cost: 1, kind: Kind::Attack, targeted: false, exhausts: false, cost_minus_attacks: false, ops: &[Op::LoseHp(1), Op::DamageAll { base: 9, hits: 1, scale: Scale::Flat }], ops_upg: &[Op::LoseHp(1), Op::DamageAll { base: 13, hits: 1, scale: Scale::Flat }], cost_upg: 1, },
        41 => CardDef { name: "放血", cost: 0, kind: Kind::Skill, targeted: false, exhausts: false, cost_minus_attacks: false, ops: &[Op::LoseHp(3), Op::GainEnergy(2)], ops_upg: &[Op::LoseHp(3), Op::GainEnergy(3)], cost_upg: 0, },
        42 => CardDef { name: "生产制造", cost: 0, kind: Kind::Skill, targeted: false, exhausts: true, cost_minus_attacks: false, ops: &[Op::GainEnergy(2)], ops_upg: &[Op::GainEnergy(3)], cost_upg: 0, },
        43 => CardDef { name: "祭品", cost: 0, kind: Kind::Skill, targeted: false, exhausts: true, cost_minus_attacks: false, ops: &[Op::LoseHp(6), Op::GainEnergy(2), Op::Draw(3)], ops_upg: &[Op::LoseHp(6), Op::GainEnergy(2), Op::Draw(5)], cost_upg: 0, },
        44 => CardDef { name: "震荡波", cost: 2, kind: Kind::Skill, targeted: false, exhausts: true, cost_minus_attacks: false, ops: &[ Op::Status { tgt: Tgt::AllEnemies, st: St::Weak, amt: 3 }, Op::Status { tgt: Tgt::AllEnemies, st: St::Vulnerable, amt: 3 }, ], ops_upg: &[ Op::Status { tgt: Tgt::AllEnemies, st: St::Weak, amt: 5 }, Op::Status { tgt: Tgt::AllEnemies, st: St::Vulnerable, amt: 5 }, ], cost_upg: 2, },
        45 => CardDef { name: "时候未到", cost: 2, kind: Kind::Skill, targeted: false, exhausts: true, cost_minus_attacks: false, ops: &[Op::Heal(10)], ops_upg: &[Op::Heal(13)], cost_upg: 2, },
        46 => CardDef { name: "全身撞击", cost: 1, kind: Kind::Attack, targeted: true, exhausts: false, cost_minus_attacks: false, ops: &[Op::Damage { base: 0, hits: 1, scale: Scale::PlayerBlock }], ops_upg: &[Op::Damage { base: 0, hits: 1, scale: Scale::PlayerBlock }], cost_upg: 0, },
        47 => CardDef { name: "拳斗", cost: 1, kind: Kind::Attack, targeted: true, exhausts: false, cost_minus_attacks: false, ops: &[ Op::Damage { base: 7, hits: 1, scale: Scale::Flat }, Op::BlockEqualToLastDamage, ], ops_upg: &[ Op::Damage { base: 9, hits: 1, scale: Scale::Flat }, Op::BlockEqualToLastDamage, ], cost_upg: 1, },
        48 => CardDef { name: "岩石铠甲", cost: 1, kind: Kind::Power, targeted: false, exhausts: false, cost_minus_attacks: false, ops: &[Op::Status { tgt: Tgt::Me, st: St::PlatedArmor, amt: 4 }], ops_upg: &[Op::Status { tgt: Tgt::Me, st: St::PlatedArmor, amt: 6 }], cost_upg: 1, },
        49 => CardDef { name: "熔融之拳", cost: 1, kind: Kind::Attack, targeted: true, exhausts: true, cost_minus_attacks: false, ops: &[Op::Damage { base: 10, hits: 1, scale: Scale::Flat }, Op::DoubleTargetVuln], ops_upg: &[Op::Damage { base: 14, hits: 1, scale: Scale::Flat }, Op::DoubleTargetVuln], cost_upg: 1, },
        50 => CardDef { name: "万向斩", cost: 0, kind: Kind::Attack, targeted: true, exhausts: false, cost_minus_attacks: false, ops: &[ Op::Damage { base: 8, hits: 1, scale: Scale::Flat }, Op::DamageOthersEqualToLast, ], ops_upg: &[ Op::Damage { base: 11, hits: 1, scale: Scale::Flat }, Op::DamageOthersEqualToLast, ], cost_upg: 0, },
        51 => CardDef { name: "黑暗镣铐", cost: 0, kind: Kind::Skill, targeted: true, exhausts: true, cost_minus_attacks: false, ops: &[ Op::Status { tgt: Tgt::Enemy, st: St::Strength, amt: -9i32 }, Op::Status { tgt: Tgt::Enemy, st: St::TempStrength, amt: -9i32 }, ], ops_upg: &[ Op::Status { tgt: Tgt::Enemy, st: St::Strength, amt: -15i32 }, Op::Status { tgt: Tgt::Enemy, st: St::TempStrength, amt: -15i32 }, ], cost_upg: 0, },
        52 => CardDef { name: "凌虐", cost: 3, kind: Kind::Attack, targeted: true, exhausts: false, cost_minus_attacks: false, ops: &[ Op::Damage { base: 15, hits: 1, scale: Scale::Flat }, Op::Status { tgt: Tgt::Enemy, st: St::Strength, amt: -10i32 }, Op::Status { tgt: Tgt::Enemy, st: St::TempStrength, amt: -10i32 }, ], ops_upg: &[ Op::Damage { base: 20, hits: 1, scale: Scale::Flat }, Op::Status { tgt: Tgt::Enemy, st: St::Strength, amt: -15i32 }, Op::Status { tgt: Tgt::Enemy, st: St::TempStrength, amt: -15i32 }, ], cost_upg: 3, },
        53 => CardDef { name: "狂怒", cost: 0, kind: Kind::Skill, targeted: false, exhausts: false, cost_minus_attacks: false, ops: &[Op::Status { tgt: Tgt::Me, st: St::Frenzy, amt: 3 }], ops_upg: &[Op::Status { tgt: Tgt::Me, st: St::Frenzy, amt: 5 }], cost_upg: 0, },
        54 => CardDef { name: "火焰屏障", cost: 2, kind: Kind::Skill, targeted: false, exhausts: false, cost_minus_attacks: false, ops: &[Op::Block { base: 12 }, Op::Status { tgt: Tgt::Me, st: St::FlameBarrier, amt: 4 }], ops_upg: &[Op::Block { base: 16 }, Op::Status { tgt: Tgt::Me, st: St::FlameBarrier, amt: 6 }], cost_upg: 2, },
        55 => CardDef { name: "灼伤", cost: 0, kind: Kind::Status, targeted: false, exhausts: false, cost_minus_attacks: false, ops: &[], ops_upg: &[], cost_upg: 0, },
        56 => CardDef { name: "感染", cost: 0, kind: Kind::Status, targeted: false, exhausts: false, cost_minus_attacks: false, ops: &[], ops_upg: &[], cost_upg: 0, },
        57 => CardDef { name: "腐朽", cost: 0, kind: Kind::Curse, targeted: false, exhausts: false, cost_minus_attacks: false, ops: &[], ops_upg: &[], cost_upg: 0, },
        58 => CardDef { name: "羞耻", cost: 0, kind: Kind::Curse, targeted: false, exhausts: false, cost_minus_attacks: false, ops: &[], ops_upg: &[], cost_upg: 0, },
        59 => CardDef { name: "瓦解", cost: 0, kind: Kind::Status, targeted: false, exhausts: false, cost_minus_attacks: false, ops: &[], ops_upg: &[], cost_upg: 0, },
        60 => CardDef { name: "晕眩", cost: 0, kind: Kind::Status, targeted: false, exhausts: false, cost_minus_attacks: false, ops: &[], ops_upg: &[], cost_upg: 0, },
        61 => CardDef { name: "笨拙", cost: 0, kind: Kind::Curse, targeted: false, exhausts: false, cost_minus_attacks: false, ops: &[], ops_upg: &[], cost_upg: 0, },
        62 => CardDef { name: "邪眼", cost: 1, kind: Kind::Skill, targeted: false, exhausts: false, cost_minus_attacks: false, ops: &[ Op::Block { base: 8 }, Op::Conditional { cond: Cond::ExhaustedThisTurn, then: &[Op::Block { base: 8 }] }, ], ops_upg: &[ Op::Block { base: 11 }, Op::Conditional { cond: Cond::ExhaustedThisTurn, then: &[Op::Block { base: 11 }] }, ], cost_upg: 1, },
        63 => CardDef { name: "被遗忘的仪式", cost: 1, kind: Kind::Skill, targeted: false, exhausts: true, cost_minus_attacks: false, ops: &[Op::Conditional { cond: Cond::ExhaustedThisTurn, then: &[Op::GainEnergy(3)] }], ops_upg: &[Op::Conditional { cond: Cond::ExhaustedThisTurn, then: &[Op::GainEnergy(4)] }], cost_upg: 1, },
        64 => CardDef { name: "怨恨", cost: 0, kind: Kind::Attack, targeted: true, exhausts: false, cost_minus_attacks: false, ops: &[ Op::Damage { base: 5, hits: 1, scale: Scale::Flat }, Op::Conditional { cond: Cond::LostHpThisTurn, then: &[Op::Damage { base: 5, hits: 1, scale: Scale::Flat }], }, ], ops_upg: &[ Op::Damage { base: 5, hits: 1, scale: Scale::Flat }, Op::Conditional { cond: Cond::LostHpThisTurn, then: &[Op::Damage { base: 5, hits: 2, scale: Scale::Flat }], }, ], cost_upg: 0, },
        65 => CardDef { name: "急躁", cost: 0, kind: Kind::Skill, targeted: false, exhausts: false, cost_minus_attacks: false, ops: &[Op::Conditional { cond: Cond::NoAttackInHand, then: &[Op::Draw(2)] }], ops_upg: &[Op::Conditional { cond: Cond::NoAttackInHand, then: &[Op::Draw(3)] }], cost_upg: 0, },
        66 => CardDef { name: "完美打击", cost: 2, kind: Kind::Attack, targeted: true, exhausts: false, cost_minus_attacks: false, ops: &[Op::Damage { base: 6, hits: 1, scale: Scale::PerStrikeCard(2) }], ops_upg: &[Op::Damage { base: 6, hits: 1, scale: Scale::PerStrikeCard(3) }], cost_upg: 2, },
        67 => CardDef { name: "暴走", cost: 1, kind: Kind::Attack, targeted: true, exhausts: false, cost_minus_attacks: false, ops: &[Op::Damage { base: 9, hits: 1, scale: Scale::Flat }, Op::GrowThisCard(5)], ops_upg: &[Op::Damage { base: 9, hits: 1, scale: Scale::Flat }, Op::GrowThisCard(9)], cost_upg: 1, },
        68 => CardDef { name: "壁垒", cost: 3, kind: Kind::Power, targeted: false, exhausts: false, cost_minus_attacks: false, ops: &[Op::Status { tgt: Tgt::Me, st: St::Barricade, amt: 1 }], ops_upg: &[Op::Status { tgt: Tgt::Me, st: St::Barricade, amt: 1 }], cost_upg: 2, },
        69 => CardDef { name: "均衡", cost: 2, kind: Kind::Skill, targeted: false, exhausts: false, cost_minus_attacks: false, ops: &[Op::Block { base: 13 }, Op::Status { tgt: Tgt::Me, st: St::Entrench, amt: 1 }], ops_upg: &[Op::Block { base: 16 }, Op::Status { tgt: Tgt::Me, st: St::Entrench, amt: 1 }], cost_upg: 2, },
        70 => CardDef { name: "孤注一掷", cost: 0, kind: Kind::Skill, targeted: false, exhausts: false, cost_minus_attacks: false, ops: &[Op::Block { base: 50 }, Op::Status { tgt: Tgt::Me, st: St::AllOrNothing, amt: 1 }], ops_upg: &[Op::Block { base: 75 }, Op::Status { tgt: Tgt::Me, st: St::AllOrNothing, amt: 1 }], cost_upg: 0, },
        71 => CardDef { name: "飞剑回旋镖", cost: 1, kind: Kind::Attack, targeted: false, exhausts: false, cost_minus_attacks: false, ops: &[Op::DamageRandom { base: 3, hits: 3, scale: Scale::Flat }], ops_upg: &[Op::DamageRandom { base: 3, hits: 4, scale: Scale::Flat }], cost_upg: 1, },
        72 => CardDef { name: "狂宴", cost: 1, kind: Kind::Attack, targeted: true, exhausts: true, cost_minus_attacks: false, ops: &[ Op::Damage { base: 10, hits: 1, scale: Scale::Flat }, Op::Conditional { cond: Cond::LastAttackKilled, then: &[Op::GainMaxHp(3)] }, ], ops_upg: &[ Op::Damage { base: 12, hits: 1, scale: Scale::Flat }, Op::Conditional { cond: Cond::LastAttackKilled, then: &[Op::GainMaxHp(4)] }, ], cost_upg: 1, },
        73 => CardDef { name: "跃跃欲试", cost: 2, kind: Kind::Skill, targeted: false, exhausts: false, cost_minus_attacks: false, ops: &[ Op::EnergyPerAttackInHand { per: 1 }, Op::Status { tgt: Tgt::Me, st: St::NoEnergyGain, amt: 1 }, ], ops_upg: &[ Op::EnergyPerAttackInHand { per: 1 }, Op::Status { tgt: Tgt::Me, st: St::NoEnergyGain, amt: 1 }, ], cost_upg: 1, },
        74 => CardDef { name: "势不可当", cost: 2, kind: Kind::Power, targeted: false, exhausts: false, cost_minus_attacks: false, ops: &[Op::Status { tgt: Tgt::Me, st: St::Juggernaut, amt: 5 }], ops_upg: &[Op::Status { tgt: Tgt::Me, st: St::Juggernaut, amt: 7 }], cost_upg: 2, },
        75 => CardDef { name: "巨像", cost: 1, kind: Kind::Skill, targeted: false, exhausts: false, cost_minus_attacks: false, ops: &[Op::Block { base: 5 }, Op::Status { tgt: Tgt::Me, st: St::Colossus, amt: 1 }], ops_upg: &[Op::Block { base: 8 }, Op::Status { tgt: Tgt::Me, st: St::Colossus, amt: 1 }], cost_upg: 1, },
        76 => CardDef { name: "重振精神", cost: 1, kind: Kind::Skill, targeted: false, exhausts: false, cost_minus_attacks: false, ops: &[Op::ExhaustNonAttacksForBlock { per: 5 }], ops_upg: &[Op::ExhaustNonAttacksForBlock { per: 7 }], cost_upg: 1, },
        77 => CardDef { name: "战斗专注", cost: 0, kind: Kind::Skill, targeted: false, exhausts: false, cost_minus_attacks: false, ops: &[Op::Draw(3), Op::Status { tgt: Tgt::Me, st: St::NoDraw, amt: 1 }], ops_upg: &[Op::Draw(4), Op::Status { tgt: Tgt::Me, st: St::NoDraw, amt: 1 }], cost_upg: 0, },
        78 => CardDef { name: "燃烧契约", cost: 1, kind: Kind::Skill, targeted: false, exhausts: false, cost_minus_attacks: false, ops: &[Op::ExhaustChoose(1), Op::Draw(2)], ops_upg: &[Op::ExhaustChoose(1), Op::Draw(3)], cost_upg: 1, },
        79 => CardDef { name: "武装", cost: 1, kind: Kind::Skill, targeted: false, exhausts: false, cost_minus_attacks: false, ops: &[Op::Block { base: 5 }, Op::UpgradeInHand(1)], ops_upg: &[Op::Block { base: 5 }, Op::UpgradeAllInHand], cost_upg: 1, },
        80 => CardDef { name: "头槌", cost: 1, kind: Kind::Attack, targeted: true, exhausts: false, cost_minus_attacks: false, ops: &[ Op::Damage { base: 9, hits: 1, scale: Scale::Flat }, Op::DiscardToTopOfDraw(1), ], ops_upg: &[ Op::Damage { base: 12, hits: 1, scale: Scale::Flat }, Op::DiscardToTopOfDraw(1), ], cost_upg: 1, },
        81 => CardDef { name: "愤怒", cost: 0, kind: Kind::Attack, targeted: true, exhausts: false, cost_minus_attacks: false, ops: &[ Op::Damage { base: 6, hits: 1, scale: Scale::Flat }, Op::AddCopyOfThisToDiscard, ], ops_upg: &[ Op::Damage { base: 8, hits: 1, scale: Scale::Flat }, Op::AddCopyOfThisToDiscard, ], cost_upg: 0, },
        82 => CardDef { name: "添柴", cost: 1, kind: Kind::Skill, targeted: false, exhausts: false, cost_minus_attacks: false, ops: &[Op::ExhaustHandGenerate { upgraded: false }], ops_upg: &[Op::ExhaustHandGenerate { upgraded: true }], cost_upg: 1, },
        83 => CardDef { name: "地狱之刃", cost: 1, kind: Kind::Skill, targeted: false, exhausts: true, cost_minus_attacks: false, ops: &[Op::GenerateFree(Kind::Attack)], ops_upg: &[Op::GenerateFree(Kind::Attack)], cost_upg: 0, },
        84 => CardDef { name: "破灭", cost: 1, kind: Kind::Skill, targeted: false, exhausts: false, cost_minus_attacks: false, ops: &[Op::AutoPlayFromDrawTop { count: 1, force_exhaust: true }], ops_upg: &[Op::AutoPlayFromDrawTop { count: 1, force_exhaust: true }], cost_upg: 0, },
        85 => CardDef { name: "惊逃", cost: 2, kind: Kind::Power, targeted: false, exhausts: false, cost_minus_attacks: false, ops: &[Op::Status { tgt: Tgt::Me, st: St::Stampede, amt: 1 }], ops_upg: &[Op::Status { tgt: Tgt::Me, st: St::Stampede, amt: 1 }], cost_upg: 1, },
        86 => CardDef { name: "连环拳", cost: 1, kind: Kind::Skill, targeted: false, exhausts: false, cost_minus_attacks: false, ops: &[Op::Status { tgt: Tgt::Me, st: St::OneTwoPunch, amt: 1 }], ops_upg: &[Op::Status { tgt: Tgt::Me, st: St::OneTwoPunch, amt: 2 }], cost_upg: 1, },
        87 => CardDef { name: "杂耍", cost: 1, kind: Kind::Power, targeted: false, exhausts: false, cost_minus_attacks: false, ops: &[Op::Status { tgt: Tgt::Me, st: St::Juggling, amt: 1 }], ops_upg: &[Op::Status { tgt: Tgt::Me, st: St::Juggling, amt: 1 }], cost_upg: 1, },
        88 => CardDef { name: "好勇斗狠", cost: 1, kind: Kind::Power, targeted: false, exhausts: false, cost_minus_attacks: false, ops: &[Op::Status { tgt: Tgt::Me, st: St::Aggression, amt: 1 }], ops_upg: &[Op::Status { tgt: Tgt::Me, st: St::Aggression, amt: 1 }], cost_upg: 1, },
        89 => CardDef { name: "余烬", cost: 2, kind: Kind::Attack, targeted: true, exhausts: false, cost_minus_attacks: false, ops: &[ Op::Damage { base: 18, hits: 1, scale: Scale::Flat }, Op::ExhaustRandomFromHand(1), ], ops_upg: &[ Op::Damage { base: 24, hits: 1, scale: Scale::Flat }, Op::ExhaustRandomFromHand(1), ], cost_upg: 2, },
        90 => CardDef { name: "坚毅", cost: 1, kind: Kind::Skill, targeted: false, exhausts: false, cost_minus_attacks: false, ops: &[Op::Block { base: 7 }, Op::ExhaustRandomFromHand(1)], ops_upg: &[Op::Block { base: 9 }, Op::ExhaustChoose(1)], cost_upg: 1, },
        91 => CardDef { name: "痛殴", cost: 1, kind: Kind::Attack, targeted: true, exhausts: false, cost_minus_attacks: false, ops: &[ Op::Damage { base: 4, hits: 2, scale: Scale::Flat }, Op::ExhaustRandomAttackAddDamage, ], ops_upg: &[ Op::Damage { base: 6, hits: 2, scale: Scale::Flat }, Op::ExhaustRandomAttackAddDamage, ], cost_upg: 1, },
        92 => CardDef { name: "劫掠", cost: 1, kind: Kind::Attack, targeted: true, exhausts: false, cost_minus_attacks: false, ops: &[ Op::Damage { base: 6, hits: 1, scale: Scale::Flat }, Op::DrawUntilNonAttack, ], ops_upg: &[ Op::Damage { base: 9, hits: 1, scale: Scale::Flat }, Op::DrawUntilNonAttack, ], cost_upg: 1, },
        93 => CardDef { name: "原始力量", cost: 0, kind: Kind::Skill, targeted: false, exhausts: false, cost_minus_attacks: false, ops: &[Op::TransformAttacksInHand { into: card::BOULDER, upgraded: false }], ops_upg: &[Op::TransformAttacksInHand { into: card::BOULDER, upgraded: true }], cost_upg: 0, },
        94 => CardDef { name: "旋风斩", cost: 0, kind: Kind::Attack, targeted: false, exhausts: false, cost_minus_attacks: false, ops: &[Op::DamageAllXTimes { base: 5 }], ops_upg: &[Op::DamageAllXTimes { base: 8 }], cost_upg: 0, },
        95 => CardDef { name: "倾泻", cost: 0, kind: Kind::Skill, targeted: false, exhausts: false, cost_minus_attacks: false, ops: &[Op::AutoPlayFromDrawTopX { plus: 0, force_exhaust: false }], ops_upg: &[Op::AutoPlayFromDrawTopX { plus: 1, force_exhaust: false }], cost_upg: 0, },
        96 => CardDef { name: "孢子心灵", cost: 1, kind: Kind::Curse, targeted: false, exhausts: true, cost_minus_attacks: false, ops: &[], ops_upg: &[], cost_upg: 1, },
        97 => CardDef { name: "藏宝图", cost: 0, kind: Kind::Quest, targeted: false, exhausts: false, ops: &[], ops_upg: &[], cost_minus_attacks: false, cost_upg: 0, },
        98 => CardDef { name: "狂乱逃离", cost: 1, kind: Kind::Status, targeted: false, exhausts: false, cost_minus_attacks: false, ops: &[ Op::Status { tgt: Tgt::AllEnemies, st: St::Sandpit, amt: 1 }, Op::GrowThisCardCost(1), ], ops_upg: &[], cost_upg: 1, },
        99 => CardDef { name: "凋萎", cost: 0, kind: Kind::Status, targeted: false, exhausts: false, cost_minus_attacks: false, ops: &[], ops_upg: &[], cost_upg: 0, },
        100 => CardDef { name: "至亮之焰", cost: 0, kind: Kind::Skill, targeted: false, exhausts: false, cost_minus_attacks: false, ops: &[Op::GainEnergy(2), Op::Draw(2), Op::LoseMaxHp(1)], ops_upg: &[Op::GainEnergy(3), Op::Draw(3), Op::LoseMaxHp(1)], cost_upg: 0, },
        101 => CardDef { name: "贪婪之手", cost: 2, kind: Kind::Attack, targeted: true, exhausts: false, cost_minus_attacks: false, ops: &[Op::Damage { base: 20, hits: 1, scale: Scale::Flat }], ops_upg: &[Op::Damage { base: 25, hits: 1, scale: Scale::Flat }], cost_upg: 2, },
        102 => CardDef { name: "亮剑", cost: 0, kind: Kind::Attack, targeted: true, exhausts: false, cost_minus_attacks: false, ops: &[Op::Damage { base: 5, hits: 1, scale: Scale::Flat }, Op::Draw(1)], ops_upg: &[Op::Damage { base: 8, hits: 1, scale: Scale::Flat }, Op::Draw(1)], cost_upg: 0, },
        103 => CardDef { name: "啄击", cost: 1, kind: Kind::Attack, targeted: true, exhausts: false, cost_minus_attacks: false, ops: &[Op::Damage { base: 2, hits: 3, scale: Scale::Flat }], ops_upg: &[Op::Damage { base: 2, hits: 4, scale: Scale::Flat }], cost_upg: 1, },
        104 => CardDef { name: "岿然不动", cost: 2, kind: Kind::Skill, targeted: false, exhausts: true, cost_minus_attacks: false, ops: &[Op::Block { base: 30 }], ops_upg: &[Op::Block { base: 40 }], cost_upg: 2, },
        105 => CardDef { name: "究极防御", cost: 1, kind: Kind::Skill, targeted: false, exhausts: false, cost_minus_attacks: false, ops: &[Op::Block { base: 11 }], ops_upg: &[Op::Block { base: 15 }], cost_upg: 1, },
        106 => CardDef { name: "箭雨", cost: 1, kind: Kind::Attack, targeted: true, exhausts: false, cost_minus_attacks: false, ops: &[ Op::Damage { base: 12, hits: 1, scale: Scale::Flat }, Op::Status { tgt: Tgt::Me, st: St::Entrench, amt: 1 }, ], ops_upg: &[ Op::Damage { base: 16, hits: 1, scale: Scale::Flat }, Op::Status { tgt: Tgt::Me, st: St::Entrench, amt: 1 }, ], cost_upg: 1, },
        107 => CardDef { name: "毒素", cost: 1, kind: Kind::Status, targeted: false, exhausts: true, cost_minus_attacks: false, ops: &[], ops_upg: &[], cost_upg: 1, },
        108 => CardDef { name: "贪婪", cost: 0, kind: Kind::Curse, targeted: false, exhausts: false, cost_minus_attacks: false, ops: &[], ops_upg: &[], cost_upg: 0, },
        109 => CardDef { name: "债务", cost: 0, kind: Kind::Curse, targeted: false, exhausts: false, cost_minus_attacks: false, ops: &[], ops_upg: &[], cost_upg: 0, },
        110 => CardDef { name: "坚定不移", cost: 2, kind: Kind::Power, targeted: false, exhausts: false, cost_minus_attacks: false, ops: &[Op::Status { tgt: Tgt::Me, st: St::Unmovable, amt: 1 }], ops_upg: &[Op::Status { tgt: Tgt::Me, st: St::Unmovable, amt: 1 }], cost_upg: 1, },
        111 => CardDef { name: "吹哨", cost: 3, kind: Kind::Attack, targeted: true, exhausts: true, cost_minus_attacks: false, ops: &[Op::Damage { base: 33, hits: 1, scale: Scale::Flat }, Op::StunEnemy], ops_upg: &[Op::Damage { base: 44, hits: 1, scale: Scale::Flat }, Op::StunEnemy], cost_upg: 3, },
        112 => CardDef { name: "涅奥之怒", cost: 1, kind: Kind::Attack, targeted: true, exhausts: true, cost_minus_attacks: false, ops: &[Op::Damage { base: 10, hits: 1, scale: Scale::Flat }, Op::FetchFromDiscard(2)], ops_upg: &[], cost_upg: 1, },
        113 => CardDef { name: "战鼓", cost: 1, kind: Kind::Skill, targeted: false, exhausts: false, cost_minus_attacks: false, ops: &[Op::Draw(2)], ops_upg: &[Op::Draw(2)], cost_upg: 1, },
        114 => CardDef { name: "扯碎", cost: 2, kind: Kind::Attack, targeted: true, exhausts: false, cost_minus_attacks: false, ops: &[Op::DamagePerHpLossHit { base: 5 }], ops_upg: &[Op::DamagePerHpLossHit { base: 7 }], cost_upg: 2, },
        115 => CardDef { name: "彼岸咆哮", cost: 3, kind: Kind::Attack, targeted: false, exhausts: false, cost_minus_attacks: false, ops: &[Op::DamageAll { base: 16, hits: 1, scale: Scale::Flat }], ops_upg: &[Op::DamageAll { base: 21, hits: 1, scale: Scale::Flat }], cost_upg: 3, },
        _ => CardDef { name: "呼唤", cost: 1, kind: Kind::Status, targeted: false, exhausts: false, cost_minus_attacks: false, ops: &[], ops_upg: &[], cost_upg: 1, },
    }
}

/// The definition of card `i`.
pub fn card_at(i: u16) -> (r: &'static CardDef)
    requires
        i < CARD_COUNT,
    ensures
        *r == card_row(i),
{
    if i < 12 {
        card_at_0(i)
    } else if i < 24 {
        card_at_1(i)
    } else if i < 36 {
        card_at_2(i)
    } else if i < 48 {
        card_at_3(i)
    } else if i < 60 {
        card_at_4(i)
    } else if i < 72 {
        card_at_5(i)
    } else if i < 84 {
        card_at_6(i)
    } else if i < 96 {
        card_at_7(i)
    } else if i < 108 {
        card_at_8(i)
    } else {
        card_at_9(i)
    }
}

fn card_at_0(i: u16) -> (r: &'static CardDef)
    requires
        0 <= i <= 11,
    ensures
        *r == card_row(i),
{
    proof {
        reveal(card_row);
    }
    match i {
        0 => &CardDef { name: "打击", cost: 1, kind: Kind::Attack, targeted: true, exhausts: false, cost_minus_attacks: false, ops: &[Op::Damage { base: 6, hits: 1, scale: Scale::Flat }], ops_upg: &[Op::Damage { base: 9, hits: 1, scale: Scale::Flat }], cost_upg: 1, },
        1 => &CardDef { name: "防御", cost: 1, kind: Kind::Skill, targeted: false, exhausts: false, cost_minus_attacks: false, ops: &[Op::Block { base: 5 }], ops_upg: &[Op::Block { base: 8 }], cost_upg: 1, },
        2 => &CardDef { name: "痛击", cost: 2, kind: Kind::Attack, targeted: true, exhausts: false, cost_minus_attacks: false, ops: &[ Op::Damage { base: 8, hits: 1, scale: Scale::Flat }, Op::Status { tgt: Tgt::Enemy, st: St::Vulnerable, amt: 2 }, ], ops_upg: &[ Op::Damage { base: 10, hits: 1, scale: Scale::Flat }, Op::Status { tgt: Tgt::Enemy, st: St::Vulnerable, amt: 3 }, ], cost_upg: 2, },
        3 => &CardDef { name: "拆卸", cost: 1, kind: Kind::Attack, targeted: true, exhausts: false, cost_minus_attacks: false, ops: &[ Op::Damage { base: 8, hits: 1, scale: Scale::Flat }, Op::DamageIfVuln { base: 8, scale: Scale::Flat }, ], ops_upg: &[ Op::Damage { base: 10, hits: 1, scale: Scale::Flat }, Op::DamageIfVuln { base: 10, scale: Scale::Flat }, ], cost_upg: 1, },
        4 => &CardDef { name: "灰烬打击", cost: 1, kind: Kind::Attack, targeted: true, exhausts: false, cost_minus_attacks: false, ops: &[Op::Damage { base: 6, hits: 1, scale: Scale::PerExhaust(3) }], ops_upg: &[Op::Damage { base: 6, hits: 1, scale: Scale::PerExhaust(4) }], cost_upg: 1, },
        5 => &CardDef { name: "恶魔之焰", cost: 2, kind: Kind::Attack, targeted: true, exhausts: true, cost_minus_attacks: false, ops: &[Op::ExhaustHandDamage { per: 7 }], ops_upg: &[Op::ExhaustHandDamage { per: 10 }], cost_upg: 2, },
        6 => &CardDef { name: "闪电霹雳", cost: 1, kind: Kind::Attack, targeted: false, exhausts: false, cost_minus_attacks: false, ops: &[ Op::DamageAll { base: 4, hits: 1, scale: Scale::Flat }, Op::Status { tgt: Tgt::AllEnemies, st: St::Vulnerable, amt: 1 }, ], ops_upg: &[ Op::DamageAll { base: 7, hits: 1, scale: Scale::Flat }, Op::Status { tgt: Tgt::AllEnemies, st: St::Vulnerable, amt: 1 }, ], cost_upg: 1, },
        7 => &CardDef { name: "欺凌", cost: 0, kind: Kind::Attack, targeted: true, exhausts: false, cost_minus_attacks: false, ops: &[Op::Damage { base: 4, hits: 1, scale: Scale::PerTargetVuln(2) }], ops_upg: &[Op::Damage { base: 4, hits: 1, scale: Scale::PerTargetVuln(3) }], cost_upg: 0, },
        8 => &CardDef { name: "烙印", cost: 0, kind: Kind::Skill, targeted: false, exhausts: false, cost_minus_attacks: false, ops: &[ Op::LoseHp(1), Op::ExhaustChoose(1), Op::Status { tgt: Tgt::Me, st: St::Strength, amt: 1 }, ], ops_upg: &[ Op::LoseHp(1), Op::ExhaustChoose(1), Op::Status { tgt: Tgt::Me, st: St::Strength, amt: 2 }, ], cost_upg: 0, },
        9 => &CardDef { name: "主宰", cost: 1, kind: Kind::Skill, targeted: true, exhausts: true, cost_minus_attacks: false, ops: &[ Op::Status { tgt: Tgt::Enemy, st: St::Vulnerable, amt: 1 }, Op::StrengthPerTargetVuln, ], ops_upg: &[ Op::Status { tgt: Tgt::Enemy, st: St::Vulnerable, amt: 2 }, Op::StrengthPerTargetVuln, ], cost_upg: 1, },
        10 => &CardDef { name: "踩踏", cost: 3, kind: Kind::Attack, targeted: false, exhausts: false, cost_minus_attacks: true, ops: &[Op::DamageAll { base: 12, hits: 1, scale: Scale::Flat }], ops_upg: &[Op::DamageAll { base: 15, hits: 1, scale: Scale::Flat }], cost_upg: 3, },
        _ => &CardDef { name: "恶魔形态", cost: 3, kind: Kind::Power, targeted: false, exhausts: false, cost_minus_attacks: false, ops: &[Op::Status { tgt: Tgt::Me, st: St::DemonForm, amt: 2 }], ops_upg: &[Op::Status { tgt: Tgt::Me, st: St::DemonForm, amt: 3 }], cost_upg: 3, },
    }
}

fn card_at_1(i: u16) -> (r: &'static CardDef)
    requires
        12 <= i <= 23,
    ensures
        *r == card_row(i),
{
    proof {
        reveal(card_row);
    }
    match i {
        12 => &CardDef { name: "无情猛攻", cost: 2, kind: Kind::Attack, targeted: true, exhausts: false, cost_minus_attacks: false, ops: &[ Op::Damage { base: 14, hits: 1, scale: Scale::Flat }, Op::FreeNextAttack, ], ops_upg: &[ Op::Damage { base: 20, hits: 1, scale: Scale::Flat }, Op::FreeNextAttack, ], cost_upg: 2, },
        13 => &CardDef { name: "伤口", cost: 0, kind: Kind::Status, targeted: false, exhausts: false, cost_minus_attacks: false, ops: &[], ops_upg: &[], cost_upg: 0, },
        14 => &CardDef { name: "<未知牌>", cost: 0, kind: Kind::Status, targeted: false, exhausts: false, cost_minus_attacks: false, ops: &[], ops_upg: &[], cost_upg: 0, },
        15 => &CardDef { name: "御血术", cost: 1, kind: Kind::Attack, targeted: true, exhausts: false, cost_minus_attacks: false, ops: &[Op::LoseHp(2), Op::Damage { base: 15, hits: 1, scale: Scale::Flat }], ops_upg: &[Op::LoseHp(2), Op::Damage { base: 20, hits: 1, scale: Scale::Flat }], cost_upg: 1, },
        16 => &CardDef { name: "预备打击", cost: 1, kind: Kind::Attack, targeted: true, exhausts: false, cost_minus_attacks: false, ops: &[ Op::Damage { base: 7, hits: 1, scale: Scale::Flat }, Op::Status { tgt: Tgt::Me, st: St::Strength, amt: 2 }, Op::Status { tgt: Tgt::Me, st: St::TempStrength, amt: 2 }, ], ops_upg: &[ Op::Damage { base: 9, hits: 1, scale: Scale::Flat }, Op::Status { tgt: Tgt::Me, st: St::Strength, amt: 3 }, Op::Status { tgt: Tgt::Me, st: St::TempStrength, amt: 3 }, ], cost_upg: 1, },
        17 => &CardDef { name: "薪火之源", cost: 2, kind: Kind::Power, targeted: false, exhausts: false, cost_minus_attacks: false, ops: &[Op::Status { tgt: Tgt::Me, st: St::Pyre, amt: 1 }, Op::GainMaxEnergy(1)], ops_upg: &[Op::Status { tgt: Tgt::Me, st: St::Pyre, amt: 2 }, Op::GainMaxEnergy(2)], cost_upg: 2, },
        18 => &CardDef { name: "无惧疼痛", cost: 1, kind: Kind::Power, targeted: false, exhausts: false, cost_minus_attacks: false, ops: &[Op::Status { tgt: Tgt::Me, st: St::FeelNoPain, amt: 3 }], ops_upg: &[Op::Status { tgt: Tgt::Me, st: St::FeelNoPain, amt: 4 }], cost_upg: 1, },
        19 => &CardDef { name: "黑暗之拥", cost: 2, kind: Kind::Power, targeted: false, exhausts: false, cost_minus_attacks: false, ops: &[Op::Status { tgt: Tgt::Me, st: St::DarkEmbrace, amt: 1 }], ops_upg: &[Op::Status { tgt: Tgt::Me, st: St::DarkEmbrace, amt: 1 }], cost_upg: 1, },
        20 => &CardDef { name: "撕裂", cost: 1, kind: Kind::Power, targeted: false, exhausts: false, cost_minus_attacks: false, ops: &[Op::Status { tgt: Tgt::Me, st: St::Rupture, amt: 1 }], ops_upg: &[Op::Status { tgt: Tgt::Me, st: St::Rupture, amt: 2 }], cost_upg: 1, },
        21 => &CardDef { name: "绯红披风", cost: 1, kind: Kind::Power, targeted: false, exhausts: false, cost_minus_attacks: false, ops: &[Op::Status { tgt: Tgt::Me, st: St::CrimsonMantle, amt: 8 }], ops_upg: &[Op::Status { tgt: Tgt::Me, st: St::CrimsonMantle, amt: 10 }], cost_upg: 1, },
        22 => &CardDef { name: "滚石", cost: 3, kind: Kind::Power, targeted: false, exhausts: false, cost_minus_attacks: false, ops: &[Op::Status { tgt: Tgt::Me, st: St::RollingBoulder, amt: 5 }], ops_upg: &[Op::Status { tgt: Tgt::Me, st: St::RollingBoulder, amt: 10 }], cost_upg: 3, },
        _ => &CardDef { name: "凶恶", cost: 1, kind: Kind::Power, targeted: false, exhausts: false, cost_minus_attacks: false, ops: &[Op::Status { tgt: Tgt::Me, st: St::Vicious, amt: 1 }], ops_upg: &[Op::Status { tgt: Tgt::Me, st: St::Vicious, amt: 2 }], cost_upg: 1, },
    }
}

fn card_at_2(i: u16) -> (r: &'static CardDef)
    requires
        24 <= i <= 35,
    ensures
        *r == card_row(i),
{
    proof {
        reveal(card_row);
    }
    match i {
        24 => &CardDef { name: "燃烧", cost: 1, kind: Kind::Power, targeted: false, exhausts: false, cost_minus_attacks: false, ops: &[Op::Status { tgt: Tgt::Me, st: St::Strength, amt: 2 }], ops_upg: &[Op::Status { tgt: Tgt::Me, st: St::Strength, amt: 3 }], cost_upg: 1, },
        25 => &CardDef { name: "铁斩波", cost: 1, kind: Kind::Attack, targeted: true, exhausts: false, cost_minus_attacks: false, ops: &[Op::Block { base: 5 }, Op::Damage { base: 5, hits: 1, scale: Scale::Flat }], ops_upg: &[Op::Block { base: 7 }, Op::Damage { base: 7, hits: 1, scale: Scale::Flat }], cost_upg: 1, },
        26 => &CardDef { name: "耸肩无视", cost: 1, kind: Kind::Skill, targeted: false, exhausts: false, cost_minus_attacks: false, ops: &[Op::Block { base: 8 }, Op::Draw(1)], ops_upg: &[Op::Block { base: 11 }, Op::Draw(1)], cost_upg: 1, },
        27 => &CardDef { name: "重锤", cost: 3, kind: Kind::Attack, targeted: true, exhausts: false, cost_minus_attacks: false, ops: &[Op::Damage { base: 32, hits: 1, scale: Scale::Flat }], ops_upg: &[Op::Damage { base: 42, hits: 1, scale: Scale::Flat }], cost_upg: 3, },
        28 => &CardDef { name: "上勾拳", cost: 2, kind: Kind::Attack, targeted: true, exhausts: false, cost_minus_attacks: false, ops: &[ Op::Damage { base: 13, hits: 1, scale: Scale::Flat }, Op::Status { tgt: Tgt::Enemy, st: St::Weak, amt: 1 }, Op::Status { tgt: Tgt::Enemy, st: St::Vulnerable, amt: 1 }, ], ops_upg: &[ Op::Damage { base: 13, hits: 1, scale: Scale::Flat }, Op::Status { tgt: Tgt::Enemy, st: St::Weak, amt: 2 }, Op::Status { tgt: Tgt::Enemy, st: St::Vulnerable, amt: 2 }, ], cost_upg: 2, },
        29 => &CardDef { name: "剑柄打击", cost: 1, kind: Kind::Attack, targeted: true, exhausts: false, cost_minus_attacks: false, ops: &[Op::Damage { base: 9, hits: 1, scale: Scale::Flat }, Op::Draw(1)], ops_upg: &[Op::Damage { base: 10, hits: 1, scale: Scale::Flat }, Op::Draw(2)], cost_upg: 1, },
        30 => &CardDef { name: "双重打击", cost: 1, kind: Kind::Attack, targeted: true, exhausts: false, cost_minus_attacks: false, ops: &[Op::Damage { base: 5, hits: 2, scale: Scale::Flat }], ops_upg: &[Op::Damage { base: 7, hits: 2, scale: Scale::Flat }], cost_upg: 1, },
        31 => &CardDef { name: "挑衅", cost: 1, kind: Kind::Skill, targeted: true, exhausts: false, cost_minus_attacks: false, ops: &[Op::Block { base: 7 }, Op::Status { tgt: Tgt::Enemy, st: St::Vulnerable, amt: 1 }], ops_upg: &[Op::Block { base: 8 }, Op::Status { tgt: Tgt::Enemy, st: St::Vulnerable, amt: 2 }], cost_upg: 1, },
        32 => &CardDef { name: "巨石", cost: 1, kind: Kind::Attack, targeted: true, exhausts: false, cost_minus_attacks: false, ops: &[Op::Damage { base: 16, hits: 1, scale: Scale::Flat }], ops_upg: &[Op::Damage { base: 20, hits: 1, scale: Scale::Flat }], cost_upg: 1, },
        33 => &CardDef { name: "焚烧", cost: 1, kind: Kind::Attack, targeted: false, exhausts: false, cost_minus_attacks: false, ops: &[Op::DamageAll { base: 2, hits: 4, scale: Scale::Flat }], ops_upg: &[Op::DamageAll { base: 2, hits: 5, scale: Scale::Flat }], cost_upg: 1, },
        34 => &CardDef { name: "战略大师", cost: 0, kind: Kind::Skill, targeted: false, exhausts: true, cost_minus_attacks: false, ops: &[Op::Draw(3)], ops_upg: &[Op::Draw(4)], cost_upg: 0, },
        _ => &CardDef { name: "究极打击", cost: 1, kind: Kind::Attack, targeted: true, exhausts: false, cost_minus_attacks: false, ops: &[Op::Damage { base: 14, hits: 1, scale: Scale::Flat }], ops_upg: &[Op::Damage { base: 20, hits: 1, scale: Scale::Flat }], cost_upg: 1, },
    }
}

fn card_at_3(i: u16) -> (r: &'static CardDef)
    requires
        36 <= i <= 47,
    ensures
        *r == card_row(i),
{
    proof {
        reveal(card_row);
    }
    match i {
        36 => &CardDef { name: "妙计", cost: 0, kind: Kind::Skill, targeted: false, exhausts: false, cost_minus_attacks: false, ops: &[Op::Block { base: 4 }, Op::Draw(1)], ops_upg: &[Op::Block { base: 7 }, Op::Draw(1)], cost_upg: 0, },
        37 => &CardDef { name: "战栗", cost: 1, kind: Kind::Skill, targeted: true, exhausts: true, cost_minus_attacks: false, ops: &[Op::Status { tgt: Tgt::Enemy, st: St::Vulnerable, amt: 3 }], ops_upg: &[Op::Status { tgt: Tgt::Enemy, st: St::Vulnerable, amt: 4 }], cost_upg: 1, },
        38 => &CardDef { name: "黏液", cost: 1, kind: Kind::Status, targeted: false, exhausts: true, cost_minus_attacks: false, ops: &[Op::Draw(1)], ops_upg: &[], cost_upg: 1, },
        39 => &CardDef { name: "血墙", cost: 2, kind: Kind::Skill, targeted: false, exhausts: false, cost_minus_attacks: false, ops: &[Op::LoseHp(2), Op::Block { base: 16 }], ops_upg: &[Op::LoseHp(2), Op::Block { base: 20 }], cost_upg: 2, },
        40 => &CardDef { name: "突破", cost: 1, kind: Kind::Attack, targeted: false, exhausts: false, cost_minus_attacks: false, ops: &[Op::LoseHp(1), Op::DamageAll { base: 9, hits: 1, scale: Scale::Flat }], ops_upg: &[Op::LoseHp(1), Op::DamageAll { base: 13, hits: 1, scale: Scale::Flat }], cost_upg: 1, },
        41 => &CardDef { name: "放血", cost: 0, kind: Kind::Skill, targeted: false, exhausts: false, cost_minus_attacks: false, ops: &[Op::LoseHp(3), Op::GainEnergy(2)], ops_upg: &[Op::LoseHp(3), Op::GainEnergy(3)], cost_upg: 0, },
        42 => &CardDef { name: "生产制造", cost: 0, kind: Kind::Skill, targeted: false, exhausts: true, cost_minus_attacks: false, ops: &[Op::GainEnergy(2)], ops_upg: &[Op::GainEnergy(3)], cost_upg: 0, },
        43 => &CardDef { name: "祭品", cost: 0, kind: Kind::Skill, targeted: false, exhausts: true, cost_minus_attacks: false, ops: &[Op::LoseHp(6), Op::GainEnergy(2), Op::Draw(3)], ops_upg: &[Op::LoseHp(6), Op::GainEnergy(2), Op::Draw(5)], cost_upg: 0, },
        44 => &CardDef { name: "震荡波", cost: 2, kind: Kind::Skill, targeted: false, exhausts: true, cost_minus_attacks: false, ops: &[ Op::Status { tgt: Tgt::AllEnemies, st: St::Weak, amt: 3 }, Op::Status { tgt: Tgt::AllEnemies, st: St::Vulnerable, amt: 3 }, ], ops_upg: &[ Op::Status { tgt: Tgt::AllEnemies, st: St::Weak, amt: 5 }, Op::Status { tgt: Tgt::AllEnemies, st: St::Vulnerable, amt: 5 }, ], cost_upg: 2, },
        45 => &CardDef { name: "时候未到", cost: 2, kind: Kind::Skill, targeted: false, exhausts: true, cost_minus_attacks: false, ops: &[Op::Heal(10)], ops_upg: &[Op::Heal(13)], cost_upg: 2, },
        46 => &CardDef { name: "全身撞击", cost: 1, kind: Kind::Attack, targeted: true, exhausts: false, cost_minus_attacks: false, ops: &[Op::Damage { base: 0, hits: 1, scale: Scale::PlayerBlock }], ops_upg: &[Op::Damage { base: 0, hits: 1, scale: Scale::PlayerBlock }], cost_upg: 0, },
        _ => &CardDef { name: "拳斗", cost: 1, kind: Kind::Attack, targeted: true, exhausts: false, cost_minus_attacks: false, ops: &[ Op::Damage { base: 7, hits: 1, scale: Scale::Flat }, Op::BlockEqualToLastDamage, ], ops_upg: &[ Op::Damage { base: 9, hits: 1, scale: Scale::Flat }, Op::BlockEqualToLastDamage, ], cost_upg: 1, },
    }
}

fn card_at_4(i: u16) -> (r: &'static CardDef)
    requires
        48 <= i <= 59,
    ensures
        *r == card_row(i),
{
    proof {
        reveal(card_row);
    }
    match i {
        48 => &CardDef { name: "岩石铠甲", cost: 1, kind: Kind::Power, targeted: false, exhausts: false, cost_minus_attacks: false, ops: &[Op::Status { tgt: Tgt::Me, st: St::PlatedArmor, amt: 4 }], ops_upg: &[Op::Status { tgt: Tgt::Me, st: St::PlatedArmor, amt: 6 }], cost_upg: 1, },
        49 => &CardDef { name: "熔融之拳", cost: 1, kind: Kind::Attack, targeted: true, exhausts: true, cost_minus_attacks: false, ops: &[Op::Damage { base: 10, hits: 1, scale: Scale::Flat }, Op::DoubleTargetVuln], ops_upg: &[Op::Damage { base: 14, hits: 1, scale: Scale::Flat }, Op::DoubleTargetVuln], cost_upg: 1, },
        50 => &CardDef { name: "万向斩", cost: 0, kind: Kind::Attack, targeted: true, exhausts: false, cost_minus_attacks: false, ops: &[ Op::Damage { base: 8, hits: 1, scale: Scale::Flat }, Op::DamageOthersEqualToLast, ], ops_upg: &[ Op::Damage { base: 11, hits: 1, scale: Scale::Flat }, Op::DamageOthersEqualToLast, ], cost_upg: 0, },
        51 => &CardDef { name: "黑暗镣铐", cost: 0, kind: Kind::Skill, targeted: true, exhausts: true, cost_minus_attacks: false, ops: &[ Op::Status { tgt: Tgt::Enemy, st: St::Strength, amt: -9 }, Op::Status { tgt: Tgt::Enemy, st: St::TempStrength, amt: -9 }, ], ops_upg: &[ Op::Status { tgt: Tgt::Enemy, st: St::Strength, amt: -15 }, Op::Status { tgt: Tgt::Enemy, st: St::TempStrength, amt: -15 }, ], cost_upg: 0, },
        52 => &CardDef { name: "凌虐", cost: 3, kind: Kind::Attack, targeted: true, exhausts: false, cost_minus_attacks: false, ops: &[ Op::Damage { base: 15, hits: 1, scale: Scale::Flat }, Op::Status { tgt: Tgt::Enemy, st: St::Strength, amt: -10 }, Op::Status { tgt: Tgt::Enemy, st: St::TempStrength, amt: -10 }, ], ops_upg: &[ Op::Damage { base: 20, hits: 1, scale: Scale::Flat }, Op::Status { tgt: Tgt::Enemy, st: St::Strength, amt: -15 }, Op::Status { tgt: Tgt::Enemy, st: St::TempStrength, amt: -15 }, ], cost_upg: 3, },
        53 => &CardDef { name: "狂怒", cost: 0, kind: Kind::Skill, targeted: false, exhausts: false, cost_minus_attacks: false, ops: &[Op::Status { tgt: Tgt::Me, st: St::Frenzy, amt: 3 }], ops_upg: &[Op::Status { tgt: Tgt::Me, st: St::Frenzy, amt: 5 }], cost_upg: 0, },
        54 => &CardDef { name: "火焰屏障", cost: 2, kind: Kind::Skill, targeted: false, exhausts: false, cost_minus_attacks: false, ops: &[Op::Block { base: 12 }, Op::Status { tgt: Tgt::Me, st: St::FlameBarrier, amt: 4 }], ops_upg: &[Op::Block { base: 16 }, Op::Status { tgt: Tgt::Me, st: St::FlameBarrier, amt: 6 }], cost_upg: 2, },
        55 => &CardDef { name: "灼伤", cost: 0, kind: Kind::Status, targeted: false, exhausts: false, cost_minus_attacks: false, ops: &[], ops_upg: &[], cost_upg: 0, },
        56 => &CardDef { name: "感染", cost: 0, kind: Kind::Status, targeted: false, exhausts: false, cost_minus_attacks: false, ops: &[], ops_upg: &[], cost_upg: 0, },
        57 => &CardDef { name: "腐朽", cost: 0, kind: Kind::Curse, targeted: false, exhausts: false, cost_minus_attacks: false, ops: &[], ops_upg: &[], cost_upg: 0, },
        58 => &CardDef { name: "羞耻", cost: 0, kind: Kind::Curse, targeted: false, exhausts: false, cost_minus_attacks: false, ops: &[], ops_upg: &[], cost_upg: 0, },
        _ => &CardDef { name: "瓦解", cost: 0, kind: Kind::Status, targeted: false, exhausts: false, cost_minus_attacks: false, ops: &[], ops_upg: &[], cost_upg: 0, },
    }
}

fn card_at_5(i: u16) -> (r: &'static CardDef)
    requires
        60 <= i <= 71,
    ensures
        *r == card_row(i),
{
    proof {
        reveal(card_row);
    }
    match i {
        60 => &CardDef { name: "晕眩", cost: 0, kind: Kind::Status, targeted: false, exhausts: false, cost_minus_attacks: false, ops: &[], ops_upg: &[], cost_upg: 0, },
        61 => &CardDef { name: "笨拙", cost: 0, kind: Kind::Curse, targeted: false, exhausts: false, cost_minus_attacks: false, ops: &[], ops_upg: &[], cost_upg: 0, },
        62 => &CardDef { name: "邪眼", cost: 1, kind: Kind::Skill, targeted: false, exhausts: false, cost_minus_attacks: false, ops: &[ Op::Block { base: 8 }, Op::Conditional { cond: Cond::ExhaustedThisTurn, then: &[Op::Block { base: 8 }] }, ], ops_upg: &[ Op::Block { base: 11 }, Op::Conditional { cond: Cond::ExhaustedThisTurn, then: &[Op::Block { base: 11 }] }, ], cost_upg: 1, },
        63 => &CardDef { name: "被遗忘的仪式", cost: 1, kind: Kind::Skill, targeted: false, exhausts: true, cost_minus_attacks: false, ops: &[Op::Conditional { cond: Cond::ExhaustedThisTurn, then: &[Op::GainEnergy(3)] }], ops_upg: &[Op::Conditional { cond: Cond::ExhaustedThisTurn, then: &[Op::GainEnergy(4)] }], cost_upg: 1, },
        64 => &CardDef { name: "怨恨", cost: 0, kind: Kind::Attack, targeted: true, exhausts: false, cost_minus_attacks: false, ops: &[ Op::Damage { base: 5, hits: 1, scale: Scale::Flat }, Op::Conditional { cond: Cond::LostHpThisTurn, then: &[Op::Damage { base: 5, hits: 1, scale: Scale::Flat }], }, ], ops_upg: &[ Op::Damage { base: 5, hits: 1, scale: Scale::Flat }, Op::Conditional { cond: Cond::LostHpThisTurn, then: &[Op::Damage { base: 5, hits: 2, scale: Scale::Flat }], }, ], cost_upg: 0, },
        65 => &CardDef { name: "急躁", cost: 0, kind: Kind::Skill, targeted: false, exhausts: false, cost_minus_attacks: false, ops: &[Op::Conditional { cond: Cond::NoAttackInHand, then: &[Op::Draw(2)] }], ops_upg: &[Op::Conditional { cond: Cond::NoAttackInHand, then: &[Op::Draw(3)] }], cost_upg: 0, },
        66 => &CardDef { name: "完美打击", cost: 2, kind: Kind::Attack, targeted: true, exhausts: false, cost_minus_attacks: false, ops: &[Op::Damage { base: 6, hits: 1, scale: Scale::PerStrikeCard(2) }], ops_upg: &[Op::Damage { base: 6, hits: 1, scale: Scale::PerStrikeCard(3) }], cost_upg: 2, },
        67 => &CardDef { name: "暴走", cost: 1, kind: Kind::Attack, targeted: true, exhausts: false, cost_minus_attacks: false, ops: &[Op::Damage { base: 9, hits: 1, scale: Scale::Flat }, Op::GrowThisCard(5)], ops_upg: &[Op::Damage { base: 9, hits: 1, scale: Scale::Flat }, Op::GrowThisCard(9)], cost_upg: 1, },
        68 => &CardDef { name: "壁垒", cost: 3, kind: Kind::Power, targeted: false, exhausts: false, cost_minus_attacks: false, ops: &[Op::Status { tgt: Tgt::Me, st: St::Barricade, amt: 1 }], ops_upg: &[Op::Status { tgt: Tgt::Me, st: St::Barricade, amt: 1 }], cost_upg: 2, },
        69 => &CardDef { name: "均衡", cost: 2, kind: Kind::Skill, targeted: false, exhausts: false, cost_minus_attacks: false, ops: &[Op::Block { base: 13 }, Op::Status { tgt: Tgt::Me, st: St::Entrench, amt: 1 }], ops_upg: &[Op::Block { base: 16 }, Op::Status { tgt: Tgt::Me, st: St::Entrench, amt: 1 }], cost_upg: 2, },
        70 => &CardDef { name: "孤注一掷", cost: 0, kind: Kind::Skill, targeted: false, exhausts: false, cost_minus_attacks: false, ops: &[Op::Block { base: 50 }, Op::Status { tgt: Tgt::Me, st: St::AllOrNothing, amt: 1 }], ops_upg: &[Op::Block { base: 75 }, Op::Status { tgt: Tgt::Me, st: St::AllOrNothing, amt: 1 }], cost_upg: 0, },
        _ => &CardDef { name: "飞剑回旋镖", cost: 1, kind: Kind::Attack, targeted: false, exhausts: false, cost_minus_attacks: false, ops: &[Op::DamageRandom { base: 3, hits: 3, scale: Scale::Flat }], ops_upg: &[Op::DamageRandom { base: 3, hits: 4, scale: Scale::Flat }], cost_upg: 1, },
    }
}

fn card_at_6(i: u16) -> (r: &'static CardDef)
    requires
        72 <= i <= 83,
    ensures
        *r == card_row(i),
{
    proof {
        reveal(card_row);
    }
    match i {
        72 => &CardDef { name: "狂宴", cost: 1, kind: Kind::Attack, targeted: true, exhausts: true, cost_minus_attacks: false, ops: &[ Op::Damage { base: 10, hits: 1, scale: Scale::Flat }, Op::Conditional { cond: Cond::LastAttackKilled, then: &[Op::GainMaxHp(3)] }, ], ops_upg: &[ Op::Damage { base: 12, hits: 1, scale: Scale::Flat }, Op::Conditional { cond: Cond::LastAttackKilled, then: &[Op::GainMaxHp(4)] }, ], cost_upg: 1, },
        73 => &CardDef { name: "跃跃欲试", cost: 2, kind: Kind::Skill, targeted: false, exhausts: false, cost_minus_attacks: false, ops: &[ Op::EnergyPerAttackInHand { per: 1 }, Op::Status { tgt: Tgt::Me, st: St::NoEnergyGain, amt: 1 }, ], ops_upg: &[ Op::EnergyPerAttackInHand { per: 1 }, Op::Status { tgt: Tgt::Me, st: St::NoEnergyGain, amt: 1 }, ], cost_upg: 1, },
        74 => &CardDef { name: "势不可当", cost: 2, kind: Kind::Power, targeted: false, exhausts: false, cost_minus_attacks: false, ops: &[Op::Status { tgt: Tgt::Me, st: St::Juggernaut, amt: 5 }], ops_upg: &[Op::Status { tgt: Tgt::Me, st: St::Juggernaut, amt: 7 }], cost_upg: 2, },
        75 => &CardDef { name: "巨像", cost: 1, kind: Kind::Skill, targeted: false, exhausts: false, cost_minus_attacks: false, ops: &[Op::Block { base: 5 }, Op::Status { tgt: Tgt::Me, st: St::Colossus, amt: 1 }], ops_upg: &[Op::Block { base: 8 }, Op::Status { tgt: Tgt::Me, st: St::Colossus, amt: 1 }], cost_upg: 1, },
        76 => &CardDef { name: "重振精神", cost: 1, kind: Kind::Skill, targeted: false, exhausts: false, cost_minus_attacks: false, ops: &[Op::ExhaustNonAttacksForBlock { per: 5 }], ops_upg: &[Op::ExhaustNonAttacksForBlock { per: 7 }], cost_upg: 1, },
        77 => &CardDef { name: "战斗专注", cost: 0, kind: Kind::Skill, targeted: false, exhausts: false, cost_minus_attacks: false, ops: &[Op::Draw(3), Op::Status { tgt: Tgt::Me, st: St::NoDraw, amt: 1 }], ops_upg: &[Op::Draw(4), Op::Status { tgt: Tgt::Me, st: St::NoDraw, amt: 1 }], cost_upg: 0, },
        78 => &CardDef { name: "燃烧契约", cost: 1, kind: Kind::Skill, targeted: false, exhausts: false, cost_minus_attacks: false, ops: &[Op::ExhaustChoose(1), Op::Draw(2)], ops_upg: &[Op::ExhaustChoose(1), Op::Draw(3)], cost_upg: 1, },
        79 => &CardDef { name: "武装", cost: 1, kind: Kind::Skill, targeted: false, exhausts: false, cost_minus_attacks: false, ops: &[Op::Block { base: 5 }, Op::UpgradeInHand(1)], ops_upg: &[Op::Block { base: 5 }, Op::UpgradeAllInHand], cost_upg: 1, },
        80 => &CardDef { name: "头槌", cost: 1, kind: Kind::Attack, targeted: true, exhausts: false, cost_minus_attacks: false, ops: &[ Op::Damage { base: 9, hits: 1, scale: Scale::Flat }, Op::DiscardToTopOfDraw(1), ], ops_upg: &[ Op::Damage { base: 12, hits: 1, scale: Scale::Flat }, Op::DiscardToTopOfDraw(1), ], cost_upg: 1, },
        81 => &CardDef { name: "愤怒", cost: 0, kind: Kind::Attack, targeted: true, exhausts: false, cost_minus_attacks: false, ops: &[ Op::Damage { base: 6, hits: 1, scale: Scale::Flat }, Op::AddCopyOfThisToDiscard, ], ops_upg: &[ Op::Damage { base: 8, hits: 1, scale: Scale::Flat }, Op::AddCopyOfThisToDiscard, ], cost_upg: 0, },
        82 => &CardDef { name: "添柴", cost: 1, kind: Kind::Skill, targeted: false, exhausts: false, cost_minus_attacks: false, ops: &[Op::ExhaustHandGenerate { upgraded: false }], ops_upg: &[Op::ExhaustHandGenerate { upgraded: true }], cost_upg: 1, },
        _ => &CardDef { name: "地狱之刃", cost: 1, kind: Kind::Skill, targeted: false, exhausts: true, cost_minus_attacks: false, ops: &[Op::GenerateFree(Kind::Attack)], ops_upg: &[Op::GenerateFree(Kind::Attack)], cost_upg: 0, },
    }
}

fn card_at_7(i: u16) -> (r: &'static CardDef)
    requires
        84 <= i <= 95,
    ensures
        *r == card_row(i),
{
    proof {
        reveal(card_row);
    }
    match i {
        84 => &CardDef { name: "破灭", cost: 1, kind: Kind::Skill, targeted: false, exhausts: false, cost_minus_attacks: false, ops: &[Op::AutoPlayFromDrawTop { count: 1, force_exhaust: true }], ops_upg: &[Op::AutoPlayFromDrawTop { count: 1, force_exhaust: true }], cost_upg: 0, },
        85 => &CardDef { name: "惊逃", cost: 2, kind: Kind::Power, targeted: false, exhausts: false, cost_minus_attacks: false, ops: &[Op::Status { tgt: Tgt::Me, st: St::Stampede, amt: 1 }], ops_upg: &[Op::Status { tgt: Tgt::Me, st: St::Stampede, amt: 1 }], cost_upg: 1, },
        86 => &CardDef { name: "连环拳", cost: 1, kind: Kind::Skill, targeted: false, exhausts: false, cost_minus_attacks: false, ops: &[Op::Status { tgt: Tgt::Me, st: St::OneTwoPunch, amt: 1 }], ops_upg: &[Op::Status { tgt: Tgt::Me, st: St::OneTwoPunch, amt: 2 }], cost_upg: 1, },
        87 => &CardDef { name: "杂耍", cost: 1, kind: Kind::Power, targeted: false, exhausts: false, cost_minus_attacks: false, ops: &[Op::Status { tgt: Tgt::Me, st: St::Juggling, amt: 1 }], ops_upg: &[Op::Status { tgt: Tgt::Me, st: St::Juggling, amt: 1 }], cost_upg: 1, },
        88 => &CardDef { name: "好勇斗狠", cost: 1, kind: Kind::Power, targeted: false, exhausts: false, cost_minus_attacks: false, ops: &[Op::Status { tgt: Tgt::Me, st: St::Aggression, amt: 1 }], ops_upg: &[Op::Status { tgt: Tgt::Me, st: St::Aggression, amt: 1 }], cost_upg: 1, },
        89 => &CardDef { name: "余烬", cost: 2, kind: Kind::Attack, targeted: true, exhausts: false, cost_minus_attacks: false, ops: &[ Op::Damage { base: 18, hits: 1, scale: Scale::Flat }, Op::ExhaustRandomFromHand(1), ], ops_upg: &[ Op::Damage { base: 24, hits: 1, scale: Scale::Flat }, Op::ExhaustRandomFromHand(1), ], cost_upg: 2, },
        90 => &CardDef { name: "坚毅", cost: 1, kind: Kind::Skill, targeted: false, exhausts: false, cost_minus_attacks: false, ops: &[Op::Block { base: 7 }, Op::ExhaustRandomFromHand(1)], ops_upg: &[Op::Block { base: 9 }, Op::ExhaustChoose(1)], cost_upg: 1, },
        91 => &CardDef { name: "痛殴", cost: 1, kind: Kind::Attack, targeted: true, exhausts: false, cost_minus_attacks: false, ops: &[ Op::Damage { base: 4, hits: 2, scale: Scale::Flat }, Op::ExhaustRandomAttackAddDamage, ], ops_upg: &[ Op::Damage { base: 6, hits: 2, scale: Scale::Flat }, Op::ExhaustRandomAttackAddDamage, ], cost_upg: 1, },
        92 => &CardDef { name: "劫掠", cost: 1, kind: Kind::Attack, targeted: true, exhausts: false, cost_minus_attacks: false, ops: &[ Op::Damage { base: 6, hits: 1, scale: Scale::Flat }, Op::DrawUntilNonAttack, ], ops_upg: &[ Op::Damage { base: 9, hits: 1, scale: Scale::Flat }, Op::DrawUntilNonAttack, ], cost_upg: 1, },
        93 => &CardDef { name: "原始力量", cost: 0, kind: Kind::Skill, targeted: false, exhausts: false, cost_minus_attacks: false, ops: &[Op::TransformAttacksInHand { into: card::BOULDER, upgraded: false }], ops_upg: &[Op::TransformAttacksInHand { into: card::BOULDER, upgraded: true }], cost_upg: 0, },
        94 => &CardDef { name: "旋风斩", cost: 0, kind: Kind::Attack, targeted: false, exhausts: false, cost_minus_attacks: false, ops: &[Op::DamageAllXTimes { base: 5 }], ops_upg: &[Op::DamageAllXTimes { base: 8 }], cost_upg: 0, },
        _ => &CardDef { name: "倾泻", cost: 0, kind: Kind::Skill, targeted: false, exhausts: false, cost_minus_attacks: false, ops: &[Op::AutoPlayFromDrawTopX { plus: 0, force_exhaust: false }], ops_upg: &[Op::AutoPlayFromDrawTopX { plus: 1, force_exhaust: false }], cost_upg: 0, },
    }
}

fn card_at_8(i: u16) -> (r: &'static CardDef)
    requires
        96 <= i <= 107,
    ensures
        *r == card_row(i),
{
    proof {
        reveal(card_row);
    }
    match i {
        96 => &CardDef { name: "孢子心灵", cost: 1, kind: Kind::Curse, targeted: false, exhausts: true, cost_minus_attacks: false, ops: &[], ops_upg: &[], cost_upg: 1, },
        97 => &CardDef { name: "藏宝图", cost: 0, kind: Kind::Quest, targeted: false, exhausts: false, ops: &[], ops_upg: &[], cost_minus_attacks: false, cost_upg: 0, },
        98 => &CardDef { name: "狂乱逃离", cost: 1, kind: Kind::Status, targeted: false, exhausts: false, cost_minus_attacks: false, ops: &[ Op::Status { tgt: Tgt::AllEnemies, st: St::Sandpit, amt: 1 }, Op::GrowThisCardCost(1), ], ops_upg: &[], cost_upg: 1, },
        99 => &CardDef { name: "凋萎", cost: 0, kind: Kind::Status, targeted: false, exhausts: false, cost_minus_attacks: false, ops: &[], ops_upg: &[], cost_upg: 0, },
        100 => &CardDef { name: "至亮之焰", cost: 0, kind: Kind::Skill, targeted: false, exhausts: false, cost_minus_attacks: false, ops: &[Op::GainEnergy(2), Op::Draw(2), Op::LoseMaxHp(1)], ops_upg: &[Op::GainEnergy(3), Op::Draw(3), Op::LoseMaxHp(1)], cost_upg: 0, },
        101 => &CardDef { name: "贪婪之手", cost: 2, kind: Kind::Attack, targeted: true, exhausts: false, cost_minus_attacks: false, ops: &[Op::Damage { base: 20, hits: 1, scale: Scale::Flat }], ops_upg: &[Op::Damage { base: 25, hits: 1, scale: Scale::Flat }], cost_upg: 2, },
        102 => &CardDef { name: "亮剑", cost: 0, kind: Kind::Attack, targeted: true, exhausts: false, cost_minus_attacks: false, ops: &[Op::Damage { base: 5, hits: 1, scale: Scale::Flat }, Op::Draw(1)], ops_upg: &[Op::Damage { base: 8, hits: 1, scale: Scale::Flat }, Op::Draw(1)], cost_upg: 0, },
        103 => &CardDef { name: "啄击", cost: 1, kind: Kind::Attack, targeted: true, exhausts: false, cost_minus_attacks: false, ops: &[Op::Damage { base: 2, hits: 3, scale: Scale::Flat }], ops_upg: &[Op::Damage { base: 2, hits: 4, scale: Scale::Flat }], cost_upg: 1, },
        104 => &CardDef { name: "岿然不动", cost: 2, kind: Kind::Skill, targeted: false, exhausts: true, cost_minus_attacks: false, ops: &[Op::Block { base: 30 }], ops_upg: &[Op::Block { base: 40 }], cost_upg: 2, },
        105 => &CardDef { name: "究极防御", cost: 1, kind: Kind::Skill, targeted: false, exhausts: false, cost_minus_attacks: false, ops: &[Op::Block { base: 11 }], ops_upg: &[Op::Block { base: 15 }], cost_upg: 1, },
        106 => &CardDef { name: "箭雨", cost: 1, kind: Kind::Attack, targeted: true, exhausts: false, cost_minus_attacks: false, ops: &[ Op::Damage { base: 12, hits: 1, scale: Scale::Flat }, Op::Status { tgt: Tgt::Me, st: St::Entrench, amt: 1 }, ], ops_upg: &[ Op::Damage { base: 16, hits: 1, scale: Scale::Flat }, Op::Status { tgt: Tgt::Me, st: St::Entrench, amt: 1 }, ], cost_upg: 1, },
        _ => &CardDef { name: "毒素", cost: 1, kind: Kind::Status, targeted: false, exhausts: true, cost_minus_attacks: false, ops: &[], ops_upg: &[], cost_upg: 1, },
    }
}

fn card_at_9(i: u16) -> (r: &'static CardDef)
    requires
        108 <= i <= 116,
    ensures
        *r == card_row(i),
{
    proof {
        reveal(card_row);
    }
    match i {
        108 => &CardDef { name: "贪婪", cost: 0, kind: Kind::Curse, targeted: false, exhausts: false, cost_minus_attacks: false, ops: &[], ops_upg: &[], cost_upg: 0, },
        109 => &CardDef { name: "债务", cost: 0, kind: Kind::Curse, targeted: false, exhausts: false, cost_minus_attacks: false, ops: &[], ops_upg: &[], cost_upg: 0, },
        110 => &CardDef { name: "坚定不移", cost: 2, kind: Kind::Power, targeted: false, exhausts: false, cost_minus_attacks: false, ops: &[Op::Status { tgt: Tgt::Me, st: St::Unmovable, amt: 1 }], ops_upg: &[Op::Status { tgt: Tgt::Me, st: St::Unmovable, amt: 1 }], cost_upg: 1, },
        111 => &CardDef { name: "吹哨", cost: 3, kind: Kind::Attack, targeted: true, exhausts: true, cost_minus_attacks: false, ops: &[Op::Damage { base: 33, hits: 1, scale: Scale::Flat }, Op::StunEnemy], ops_upg: &[Op::Damage { base: 44, hits: 1, scale: Scale::Flat }, Op::StunEnemy], cost_upg: 3, },
        112 => &CardDef { name: "涅奥之怒", cost: 1, kind: Kind::Attack, targeted: true, exhausts: true, cost_minus_attacks: false, ops: &[Op::Damage { base: 10, hits: 1, scale: Scale::Flat }, Op::FetchFromDiscard(2)], ops_upg: &[], cost_upg: 1, },
        113 => &CardDef { name: "战鼓", cost: 1, kind: Kind::Skill, targeted: false, exhausts: false, cost_minus_attacks: false, ops: &[Op::Draw(2)], ops_upg: &[Op::Draw(2)], cost_upg: 1, },
        114 => &CardDef { name: "扯碎", cost: 2, kind: Kind::Attack, targeted: true, exhausts: false, cost_minus_attacks: false, ops: &[Op::DamagePerHpLossHit { base: 5 }], ops_upg: &[Op::DamagePerHpLossHit { base: 7 }], cost_upg: 2, },
        115 => &CardDef { name: "彼岸咆哮", cost: 3, kind: Kind::Attack, targeted: false, exhausts: false, cost_minus_attacks: false, ops: &[Op::DamageAll { base: 16, hits: 1, scale: Scale::Flat }], ops_upg: &[Op::DamageAll { base: 21, hits: 1, scale: Scale::Flat }], cost_upg: 3, },
        _ => &CardDef { name: "呼唤", cost: 1, kind: Kind::Status, targeted: false, exhausts: false, cost_minus_attacks: false, ops: &[], ops_upg: &[], cost_upg: 1, },
    }
}

} // verus!
