//! The enemy table: hit points, moves and move state machines.

use vstd::prelude::*;
use crate::ops::{Branch, CurseSet, ECond, EOp, EnemyDef, EnemyMove, Machine, Next, Repeat};
use crate::state::St;
use super::{card, enemy};

verus! {

/// Number of enemies in the enemy table.
pub const ENEMY_COUNT: u16 = 105;

/// The enemy table, by enemy id.
#[verifier::opaque]
pub open spec fn enemy_row(i: u16) -> EnemyDef {
    match i {
        0 => EnemyDef { name: "<合成:沙包>", max_hp: 100, start_status: &[], loop_from: 0, machine: None, moves: &[EnemyMove { name: "攻势", intent: "Attack", ops: &[EOp::Attack { base: 12, hits: 1 }] }], },
        1 => EnemyDef { name: "<合成:难以杀灭9>", max_hp: 22, start_status: &[(St::DamageCap, 9)], loop_from: 0, machine: None, moves: &[EnemyMove { name: "攻势", intent: "Attack", ops: &[EOp::Attack { base: 6, hits: 1 }] }], },
        2 => EnemyDef { name: "<合成:激怒2>", max_hp: 100, start_status: &[(St::Rage, 2)], loop_from: 0, machine: None, moves: &[EnemyMove { name: "攻势", intent: "Attack", ops: &[EOp::Attack { base: 15, hits: 1 }] }], },
        3 => EnemyDef { name: "<未知敌人>", max_hp: 0, start_status: &[], loop_from: 0, machine: None, moves: &[EnemyMove { name: "无", intent: "", ops: &[EOp::Nothing] }], },
        4 => EnemyDef { name: "小啃兽", max_hp: 44, start_status: &[], loop_from: 0, machine: Some(&Machine { start: Next::Cond(&[(ECond::Alone, 0), (ECond::NotFront, 2), (ECond::Front, 1)]), after: &[Next::Go(1), Next::Go(2), Next::Go(0)], }), moves: &[ EnemyMove { name: "撞击", intent: "Attack", ops: &[EOp::Attack { base: 12, hits: 1 }] }, EnemyMove { name: "啃咬并戒备", intent: "Attack", ops: &[EOp::Attack { base: 6, hits: 1 }, EOp::Block(5)] }, EnemyMove { name: "嘶鸣", intent: "Buff", ops: &[EOp::SelfStatus { st: St::Strength, amt: 2 }] }, ], },
        5 => EnemyDef { name: "旧日雕像", max_hp: 127, start_status: &[(St::SlowSource, 10)], loop_from: 2, machine: None, moves: &[ EnemyMove { name: "沉睡", intent: "Sleep", ops: &[EOp::Nothing] }, EnemyMove { name: "苏醒", intent: "Buff", ops: &[EOp::SelfStatus { st: St::Strength, amt: 10 }] }, EnemyMove { name: "挥砍", intent: "Attack", ops: &[EOp::Attack { base: 13, hits: 1 }] }, ], },
        6 => EnemyDef { name: "缩小甲虫", max_hp: 40, start_status: &[], loop_from: 1, machine: None, moves: &[ EnemyMove { name: "缩小", intent: "DebuffStrong", ops: &[EOp::PlayerStatus { st: St::Shrink, amt: -1i32 }] }, EnemyMove { name: "啃咬", intent: "Attack", ops: &[EOp::Attack { base: 7, hits: 1 }] }, EnemyMove { name: "踩踏", intent: "Attack", ops: &[EOp::Attack { base: 13, hits: 1 }] }, ], },
        7 => EnemyDef { name: "立柱构造体", max_hp: 65, start_status: &[(St::Artifact, 1)], loop_from: 0, machine: None, moves: &[ EnemyMove { name: "充能", intent: "Buff", ops: &[EOp::SelfStatus { st: St::Strength, amt: 2 }] }, EnemyMove { name: "连发", intent: "Attack", ops: &[EOp::Attack { base: 7, hits: 1 }, EOp::SelfStatus { st: St::Strength, amt: 2 }] }, EnemyMove { name: "连发", intent: "Attack", ops: &[EOp::Attack { base: 7, hits: 1 }, EOp::SelfStatus { st: St::Strength, amt: 2 }] }, EnemyMove { name: "排射", intent: "Attack", ops: &[EOp::Attack { base: 5, hits: 2 }] }, EnemyMove { name: "潜伏", intent: "Defend", ops: &[EOp::Block(15)] }, ], },
        8 => EnemyDef { name: "毛绒伏地虫", max_hp: 56, start_status: &[], loop_from: 1, machine: None, moves: &[ EnemyMove { name: "酸液", intent: "Attack", ops: &[EOp::Attack { base: 4, hits: 1 }] }, EnemyMove { name: "吸气", intent: "Buff", ops: &[EOp::SelfStatus { st: St::Strength, amt: 7 }] }, EnemyMove { name: "酸液", intent: "Attack", ops: &[EOp::Attack { base: 4, hits: 1 }] }, EnemyMove { name: "酸液", intent: "Attack", ops: &[EOp::Attack { base: 4, hits: 1 }] }, ], },
        9 => EnemyDef { name: "树叶史莱姆（小）", max_hp: 13, start_status: &[], loop_from: 0, machine: Some(&Machine { start: Next::Rand(&[ Branch { to: 0, weight: 1, repeat: Repeat::NotTwice, cooldown: 0 }, Branch { to: 1, weight: 1, repeat: Repeat::NotTwice, cooldown: 0 }, ]), after: &[ Next::Rand(&[ Branch { to: 0, weight: 1, repeat: Repeat::NotTwice, cooldown: 0 }, Branch { to: 1, weight: 1, repeat: Repeat::NotTwice, cooldown: 0 }, ]), Next::Rand(&[ Branch { to: 0, weight: 1, repeat: Repeat::NotTwice, cooldown: 0 }, Branch { to: 1, weight: 1, repeat: Repeat::NotTwice, cooldown: 0 }, ]), ], }), moves: &[ EnemyMove { name: "撞击", intent: "Attack", ops: &[EOp::Attack { base: 3, hits: 1 }] }, EnemyMove { name: "吐黏液", intent: "StatusCard", ops: &[EOp::AddCardToDiscard { card: card::SLIMED, count: 1 }] }, ], },
        10 => EnemyDef { name: "树叶史莱姆（中）", max_hp: 34, start_status: &[], loop_from: 0, machine: None, moves: &[ EnemyMove { name: "吐黏液", intent: "StatusCard", ops: &[EOp::AddCardToDiscard { card: card::SLIMED, count: 2 }] }, EnemyMove { name: "团射", intent: "Attack", ops: &[EOp::Attack { base: 8, hits: 1 }] }, ], },
        11 => EnemyDef { name: "树枝史莱姆（小）", max_hp: 10, start_status: &[], loop_from: 0, machine: None, moves: &[EnemyMove { name: "撞击", intent: "Attack", ops: &[EOp::Attack { base: 4, hits: 1 }] }], },
        12 => EnemyDef { name: "树枝史莱姆（中）", max_hp: 28, start_status: &[], loop_from: 0, machine: Some(&Machine { start: Next::Go(0), after: &[ Next::Rand(&[ Branch { to: 1, weight: 1, repeat: Repeat::AtMost(2), cooldown: 0 }, Branch { to: 0, weight: 1, repeat: Repeat::NotTwice, cooldown: 0 }, ]), Next::Rand(&[ Branch { to: 1, weight: 1, repeat: Repeat::AtMost(2), cooldown: 0 }, Branch { to: 0, weight: 1, repeat: Repeat::NotTwice, cooldown: 0 }, ]), ], }), moves: &[ EnemyMove { name: "吐黏液", intent: "StatusCard", ops: &[EOp::AddCardToDiscard { card: card::SLIMED, count: 1 }] }, EnemyMove { name: "团射", intent: "Attack", ops: &[EOp::Attack { base: 11, hits: 1 }] }, ], },
        13 => EnemyDef { name: "劫掠者弩手", max_hp: 18, start_status: &[], loop_from: 0, machine: None, moves: &[ EnemyMove { name: "装填", intent: "Defend", ops: &[EOp::Block(3)] }, EnemyMove { name: "射击", intent: "Attack", ops: &[EOp::Attack { base: 14, hits: 1 }] }, ], },
        14 => EnemyDef { name: "劫掠者斧手", max_hp: 20, start_status: &[], loop_from: 0, machine: None, moves: &[ EnemyMove { name: "劈砍并戒备", intent: "Attack", ops: &[EOp::Attack { base: 5, hits: 1 }, EOp::Block(5)] }, EnemyMove { name: "劈砍并戒备", intent: "Attack", ops: &[EOp::Attack { base: 5, hits: 1 }, EOp::Block(5)] }, EnemyMove { name: "重劈", intent: "Attack", ops: &[EOp::Attack { base: 12, hits: 1 }] }, ], },
        15 => EnemyDef { name: "劫掠者追踪手", max_hp: 24, start_status: &[], loop_from: 1, machine: None, moves: &[ EnemyMove { name: "追踪", intent: "Debuff", ops: &[EOp::PlayerStatus { st: St::Frail, amt: 2 }] }, EnemyMove { name: "放狗", intent: "Attack", ops: &[EOp::Attack { base: 1, hits: 8 }] }, ], },
        16 => EnemyDef { name: "飞蝇菌子", max_hp: 47, start_status: &[], loop_from: 0, machine: Some(&Machine { start: Next::Rand(&[ Branch { to: 0, weight: 1, repeat: Repeat::NotTwice, cooldown: 2 }, Branch { to: 1, weight: 1, repeat: Repeat::NotTwice, cooldown: 0 }, ]), after: &[Next::Rand(&[ Branch { to: 2, weight: 1, repeat: Repeat::NotTwice, cooldown: 3 }, Branch { to: 0, weight: 1, repeat: Repeat::NotTwice, cooldown: 2 }, Branch { to: 1, weight: 1, repeat: Repeat::NotTwice, cooldown: 0 }, ]), Next::Rand(&[ Branch { to: 2, weight: 1, repeat: Repeat::NotTwice, cooldown: 3 }, Branch { to: 0, weight: 1, repeat: Repeat::NotTwice, cooldown: 2 }, Branch { to: 1, weight: 1, repeat: Repeat::NotTwice, cooldown: 0 }, ]), Next::Rand(&[ Branch { to: 2, weight: 1, repeat: Repeat::NotTwice, cooldown: 3 }, Branch { to: 0, weight: 1, repeat: Repeat::NotTwice, cooldown: 2 }, Branch { to: 1, weight: 1, repeat: Repeat::NotTwice, cooldown: 0 }, ])], }), moves: &[ EnemyMove { name: "脆弱孢子", intent: "Attack", ops: &[EOp::Attack { base: 8, hits: 1 }, EOp::PlayerStatus { st: St::Frail, amt: 2 }] }, EnemyMove { name: "撞击", intent: "Attack", ops: &[EOp::Attack { base: 11, hits: 1 }] }, EnemyMove { name: "易伤孢子", intent: "Debuff", ops: &[EOp::PlayerStatus { st: St::Vulnerable, amt: 2 }] }, ], },
        17 => EnemyDef { name: "雾菇", max_hp: 74, start_status: &[], loop_from: 1, machine: Some(&Machine { start: Next::Go(0), after: &[ Next::Go(1), Next::Rand(&[ Branch { to: 3, weight: 2, repeat: Repeat::NotTwice, cooldown: 0 }, Branch { to: 2, weight: 3, repeat: Repeat::NotTwice, cooldown: 0 }, ]), Next::Go(1), Next::Go(2), ], }), moves: &[ EnemyMove { name: "幻象", intent: "Summon", ops: &[EOp::Summon { def: enemy::EYE_WITH_TEETH, hp: 6 }] }, EnemyMove { name: "挥爪", intent: "Attack", ops: &[EOp::Attack { base: 8, hits: 1 }, EOp::SelfStatus { st: St::Strength, amt: 1 }] }, EnemyMove { name: "头槌", intent: "Attack", ops: &[EOp::Attack { base: 14, hits: 1 }] }, EnemyMove { name: "挥爪", intent: "Attack", ops: &[EOp::Attack { base: 8, hits: 1 }, EOp::SelfStatus { st: St::Strength, amt: 1 }] }, ], },
        18 => EnemyDef { name: "利齿之眼", max_hp: 6, start_status: &[(St::Minion, 1), (St::Illusion, 1)], loop_from: 1, machine: Some(&Machine { start: Next::Go(1), after: &[Next::Go(1), Next::Go(1)] }), moves: &[ EnemyMove { name: "复苏", intent: "Heal", ops: &[EOp::Nothing] }, EnemyMove { name: "扰乱", intent: "StatusCard", ops: &[EOp::AddCardToDiscard { card: card::DAZED, count: 3 }] }, ], },
        19 => EnemyDef { name: "同族神官", max_hp: 190, start_status: &[], loop_from: 0, machine: None, moves: &[ EnemyMove { name: "脆弱法球", intent: "Attack", ops: &[EOp::Attack { base: 8, hits: 1 }, EOp::PlayerStatus { st: St::Frail, amt: 1 }] }, EnemyMove { name: "虚弱法球", intent: "Attack", ops: &[EOp::Attack { base: 8, hits: 1 }, EOp::PlayerStatus { st: St::Weak, amt: 1 }] }, EnemyMove { name: "光束", intent: "Attack", ops: &[EOp::Attack { base: 3, hits: 3 }] }, EnemyMove { name: "仪式", intent: "Buff", ops: &[EOp::SelfStatus { st: St::Strength, amt: 2 }] }, ], },
        20 => EnemyDef { name: "同族信徒", max_hp: 59, start_status: &[(St::Minion, 1)], loop_from: 0, machine: Some(&Machine { start: Next::Rand(&[ Branch { to: 0, weight: 1, repeat: Repeat::Forever, cooldown: 0 }, Branch { to: 2, weight: 1, repeat: Repeat::Forever, cooldown: 0 }, ]), after: &[Next::Go(1), Next::Go(2), Next::Go(0)], }), moves: &[ EnemyMove { name: "快斩", intent: "Attack", ops: &[EOp::Attack { base: 5, hits: 1 }] }, EnemyMove { name: "回旋镖", intent: "Attack", ops: &[EOp::Attack { base: 2, hits: 2 }] }, EnemyMove { name: "战舞", intent: "Buff", ops: &[EOp::SelfStatus { st: St::Strength, amt: 2 }] }, ], },
        21 => EnemyDef { name: "盛碗虫（石）", max_hp: 45, start_status: &[(St::Imbalanced, 1)], loop_from: 0, machine: Some(&Machine { start: Next::Go(0), after: &[Next::Cond(&[(ECond::OffBalance, 1), (ECond::NotOffBalance, 0)]), Next::Go(0)], }), moves: &[ EnemyMove { name: "头槌", intent: "Attack", ops: &[EOp::Attack { base: 15, hits: 1 }] }, EnemyMove { name: "晕眩", intent: "Stun", ops: &[EOp::ClearSelfStatus(St::OffBalance)] }, ], },
        22 => EnemyDef { name: "盛碗虫（卵）", max_hp: 22, start_status: &[], loop_from: 0, machine: None, moves: &[EnemyMove { name: "撕咬并戒备", intent: "Attack", ops: &[EOp::Attack { base: 7, hits: 1 }, EOp::Block(7)] }], },
        23 => EnemyDef { name: "偷窃草蜢", max_hp: 79, start_status: &[(St::EscapeArtist, 5)], loop_from: 4, machine: None, moves: &[ EnemyMove { name: "偷盗", intent: "Attack", ops: &[EOp::Attack { base: 17, hits: 1 }, EOp::StealCard(1)] }, EnemyMove { name: "扑翼", intent: "Buff", ops: &[EOp::SelfStatus { st: St::Flutter, amt: 5 }] }, EnemyMove { name: "帽子戏法", intent: "Attack", ops: &[EOp::Attack { base: 21, hits: 1 }] }, EnemyMove { name: "抓取", intent: "Attack", ops: &[EOp::Attack { base: 14, hits: 1 }] }, EnemyMove { name: "逃跑", intent: "Escape", ops: &[EOp::Nothing] }, ], },
        24 => EnemyDef { name: "盛碗虫（蜜）", max_hp: 38, start_status: &[], loop_from: 1, machine: None, moves: &[ EnemyMove { name: "猛击", intent: "Attack", ops: &[EOp::Attack { base: 3, hits: 1 }] }, EnemyMove { name: "强化", intent: "Buff", ops: &[EOp::SelfStatus { st: St::Strength, amt: 15 }] }, EnemyMove { name: "猛击", intent: "Attack", ops: &[EOp::Attack { base: 3, hits: 1 }] }, ], },
        25 => EnemyDef { name: "盛碗虫（丝）", max_hp: 43, start_status: &[], loop_from: 0, machine: None, moves: &[ EnemyMove { name: "毒唾液", intent: "Debuff", ops: &[EOp::PlayerStatus { st: St::Weak, amt: 1 }] }, EnemyMove { name: "猛击", intent: "Attack", ops: &[EOp::Attack { base: 8, hits: 1 }] }, ], },
        26 => EnemyDef { name: "啃咬机", max_hp: 62, start_status: &[(St::Artifact, 2)], loop_from: 0, machine: Some(&Machine { start: Next::Rand(&[ Branch { to: 0, weight: 1, repeat: Repeat::Forever, cooldown: 0 }, Branch { to: 1, weight: 1, repeat: Repeat::Forever, cooldown: 0 }, ]), after: &[Next::Go(1), Next::Go(0)], }), moves: &[ EnemyMove { name: "钳夹", intent: "Attack", ops: &[EOp::Attack { base: 8, hits: 2 }] }, EnemyMove { name: "尖啸", intent: "StatusCard", ops: &[EOp::AddCardToDiscard { card: card::DAZED, count: 3 }] }, ], },
        27 => EnemyDef { name: "虱虫之祖", max_hp: 134, start_status: &[(St::CurlUp, 14)], loop_from: 0, machine: None, moves: &[ EnemyMove { name: "蛛网大炮", intent: "Attack", ops: &[EOp::Attack { base: 9, hits: 1 }, EOp::PlayerStatus { st: St::Frail, amt: 2 }] }, EnemyMove { name: "蜷缩生长", intent: "Defend", ops: &[EOp::Block(14), EOp::SelfStatus { st: St::Strength, amt: 5 }] }, EnemyMove { name: "扑击", intent: "Attack", ops: &[EOp::Attack { base: 14, hits: 1 }] }, ], },
        28 => EnemyDef { name: "异螨", max_hp: 67, start_status: &[], loop_from: 0, machine: Some(&Machine { start: Next::Cond(&[(ECond::SlotIs(0), 0), (ECond::SlotIs(1), 2)]), after: &[Next::Go(1), Next::Go(2), Next::Go(0)], }), moves: &[ EnemyMove { name: "浓毒", intent: "StatusCard", ops: &[EOp::AddCardToHand { card: card::TOXIC, count: 2 }] }, EnemyMove { name: "啃咬", intent: "Attack", ops: &[EOp::Attack { base: 13, hits: 1 }] }, EnemyMove { name: "吸吮", intent: "Attack", ops: &[EOp::Attack { base: 4, hits: 1 }, EOp::SelfStatus { st: St::Strength, amt: 2 }] }, ], },
        29 => EnemyDef { name: "直飞产卵虫", max_hp: 130, start_status: &[], loop_from: 0, machine: Some(&Machine { start: Next::Go(0), after: &[ Next::Go(1), Next::Go(2), Next::Cond(&[(ECond::Unknown, 0), (ECond::Unknown, 3)]), Next::Go(1), ], }), moves: &[ EnemyMove { name: "产卵", intent: "Summon", ops: &[EOp::Summon { def: enemy::TOUGH_EGG, hp: 18 }, EOp::Summon { def: enemy::TOUGH_EGG, hp: 18 }, EOp::Summon { def: enemy::TOUGH_EGG, hp: 18 }] }, EnemyMove { name: "摧毁", intent: "Attack", ops: &[EOp::Attack { base: 16, hits: 1 }] }, EnemyMove { name: "嫩化", intent: "Attack", ops: &[EOp::Attack { base: 7, hits: 1 }, EOp::PlayerStatus { st: St::Vulnerable, amt: 2 }] }, EnemyMove { name: "营养糊", intent: "Buff", ops: &[EOp::SelfStatus { st: St::Strength, amt: 3 }] }, ], },
        30 => EnemyDef { name: "棘蟾", max_hp: 118, start_status: &[], loop_from: 0, machine: None, moves: &[ EnemyMove { name: "突刺荆棘", intent: "Buff", ops: &[EOp::SelfStatus { st: St::Thorns, amt: 5 }] }, EnemyMove { name: "尖刺爆炸", intent: "Attack", ops: &[EOp::Attack { base: 23, hits: 1 }, EOp::SelfStatus { st: St::Thorns, amt: -5i32 }] }, EnemyMove { name: "舌刺", intent: "Attack", ops: &[EOp::Attack { base: 17, hits: 1 }] }, ], },
        31 => EnemyDef { name: "蜂后", max_hp: 400, start_status: &[], loop_from: 2, machine: None, moves: &[ EnemyMove { name: "傀儡丝线", intent: "Debuff", ops: &[EOp::PlayerStatus { st: St::Weak, amt: 3 }] }, EnemyMove { name: "为我燃烧", intent: "Buff", ops: &[EOp::Block(20), EOp::SelfStatus { st: St::Strength, amt: 1 }] }, EnemyMove { name: "斩首", intent: "Attack", ops: &[EOp::Attack { base: 3, hits: 5 }] }, EnemyMove { name: "处决", intent: "Attack", ops: &[EOp::Attack { base: 15, hits: 1 }] }, EnemyMove { name: "狂怒", intent: "Buff", ops: &[EOp::SelfStatus { st: St::Strength, amt: 2 }] }, ], },
        32 => EnemyDef { name: "造门者", max_hp: 489, start_status: &[], loop_from: 0, machine: None, moves: &[ EnemyMove { name: "射线", intent: "Attack", ops: &[EOp::Attack { base: 31, hits: 1 }] }, EnemyMove { name: "退回门中", intent: "Attack", ops: &[EOp::Attack { base: 40, hits: 1 }, EOp::SelfStatus { st: St::Strength, amt: 5 }] }, ], },
        33 => EnemyDef { name: "知识恶魔", max_hp: 379, start_status: &[], loop_from: 0, machine: Some(&Machine { start: Next::Go(0), after: &[ Next::Go(1), Next::Go(2), Next::Go(3), Next::Cond(&[ (ECond::CursesTakenBelow(&[ CurseSet { disintegration: 6, other: St::MindRot, other_amt: 1, other_max_energy: 0 }, CurseSet { disintegration: 7, other: St::Sloth, other_amt: 3, other_max_energy: 0 }, CurseSet { disintegration: 8, other: St::WasteAway, other_amt: 1, other_max_energy: -1i32 }, ], 3), 0), (ECond::CursesTakenAtLeast(&[ CurseSet { disintegration: 6, other: St::MindRot, other_amt: 1, other_max_energy: 0 }, CurseSet { disintegration: 7, other: St::Sloth, other_amt: 3, other_max_energy: 0 }, CurseSet { disintegration: 8, other: St::WasteAway, other_amt: 1, other_max_energy: -1i32 }, ], 3), 1), ]), ], }), moves: &[ EnemyMove { name: "知识的诅咒", intent: "Debuff", ops: &[EOp::CurseOfKnowledge(&[ CurseSet { disintegration: 6, other: St::MindRot, other_amt: 1, other_max_energy: 0 }, CurseSet { disintegration: 7, other: St::Sloth, other_amt: 3, other_max_energy: 0 }, CurseSet { disintegration: 8, other: St::WasteAway, other_amt: 1, other_max_energy: -1i32 }, ])] }, EnemyMove { name: "抽打", intent: "Attack", ops: &[EOp::Attack { base: 17, hits: 1 }] }, EnemyMove { name: "知识过载", intent: "Attack", ops: &[EOp::Attack { base: 8, hits: 3 }] }, EnemyMove { name: "思考", intent: "Attack", ops: &[EOp::Attack { base: 11, hits: 1 }, EOp::Heal(30), EOp::SelfStatus { st: St::Strength, amt: 2 }] }, ], },
        34 => EnemyDef { name: "碾碎爪", max_hp: 209, start_status: &[(St::BackAttackLeft, 1), (St::CrabRage, 1)], loop_from: 0, machine: None, moves: &[ EnemyMove { name: "摧折", intent: "Attack", ops: &[EOp::Attack { base: 12, hits: 1 }] }, EnemyMove { name: "增幅打击", intent: "Attack", ops: &[EOp::Attack { base: 4, hits: 1 }] }, EnemyMove { name: "虫刺", intent: "Attack", ops: &[EOp::Attack { base: 6, hits: 2 }, EOp::PlayerStatus { st: St::Weak, amt: 2 }, EOp::PlayerStatus { st: St::Frail, amt: 2 }] }, EnemyMove { name: "适应", intent: "Buff", ops: &[EOp::SelfStatus { st: St::Strength, amt: 2 }] }, EnemyMove { name: "戒备打击", intent: "Attack", ops: &[EOp::Attack { base: 12, hits: 1 }, EOp::Block(18)] }, ], },
        35 => EnemyDef { name: "火箭", max_hp: 199, start_status: &[(St::BackAttackRight, 1), (St::CrabRage, 1)], loop_from: 0, machine: None, moves: &[ EnemyMove { name: "瞄准镜", intent: "Attack", ops: &[EOp::Attack { base: 3, hits: 1 }] }, EnemyMove { name: "精准光束", intent: "Attack", ops: &[EOp::Attack { base: 18, hits: 1 }] }, EnemyMove { name: "充能", intent: "Buff", ops: &[EOp::SelfStatus { st: St::Strength, amt: 2 }] }, EnemyMove { name: "激光", intent: "Attack", ops: &[EOp::Attack { base: 31, hits: 1 }] }, EnemyMove { name: "充电", intent: "Sleep", ops: &[EOp::Nothing] }, ], },
        36 => EnemyDef { name: "蛮兽", max_hp: 72, start_status: &[], loop_from: 0, machine: Some(&Machine { start: Next::Go(2), after: &[Next::Rand(&[ Branch { to: 0, weight: 1, repeat: Repeat::NotTwice, cooldown: 0 }, Branch { to: 1, weight: 1, repeat: Repeat::Once, cooldown: 0 }, Branch { to: 2, weight: 1, repeat: Repeat::NotTwice, cooldown: 0 }, ]), Next::Rand(&[ Branch { to: 0, weight: 1, repeat: Repeat::NotTwice, cooldown: 0 }, Branch { to: 1, weight: 1, repeat: Repeat::Once, cooldown: 0 }, Branch { to: 2, weight: 1, repeat: Repeat::NotTwice, cooldown: 0 }, ]), Next::Rand(&[ Branch { to: 0, weight: 1, repeat: Repeat::NotTwice, cooldown: 0 }, Branch { to: 1, weight: 1, repeat: Repeat::Once, cooldown: 0 }, Branch { to: 2, weight: 1, repeat: Repeat::NotTwice, cooldown: 0 }, ])], }), moves: &[ EnemyMove { name: "撕裂", intent: "Attack", ops: &[EOp::Attack { base: 14, hits: 1 }] }, EnemyMove { name: "咆哮", intent: "Debuff", ops: &[EOp::PlayerStatus { st: St::Vulnerable, amt: 3 }] }, EnemyMove { name: "爪击", intent: "Attack", ops: &[EOp::Attack { base: 4, hits: 2 }] }, ], },
        37 => EnemyDef { name: "闪光贾克斯果", max_hp: 31, start_status: &[], loop_from: 0, machine: None, moves: &[ EnemyMove { name: "能量球", intent: "Attack", ops: &[EOp::Attack { base: 3, hits: 1 }, EOp::SelfStatus { st: St::Strength, amt: 2 }] }, ], },
        38 => EnemyDef { name: "蛇行扼杀者", max_hp: 55, start_status: &[], loop_from: 0, machine: Some(&Machine { start: Next::Go(0), after: &[ Next::Rand(&[ Branch { to: 1, weight: 1, repeat: Repeat::Forever, cooldown: 0 }, Branch { to: 2, weight: 1, repeat: Repeat::Forever, cooldown: 0 }, ]), Next::Go(0), Next::Go(0), ], }), moves: &[ EnemyMove { name: "缠绕", intent: "Debuff", ops: &[EOp::PlayerStatus { st: St::Constrict, amt: 3 }] }, EnemyMove { name: "重击", intent: "Attack", ops: &[EOp::Attack { base: 7, hits: 1 }, EOp::Block(5)] }, EnemyMove { name: "鞭击", intent: "Attack", ops: &[EOp::Attack { base: 12, hits: 1 }] }, ], },
        39 => EnemyDef { name: "扭动虫", max_hp: 19, start_status: &[], loop_from: 0, machine: Some(&Machine { start: Next::Go(0), after: &[ Next::Cond(&[(ECond::Unknown, 1), (ECond::Unknown, 2)]), Next::Go(2), Next::Go(1), ], }), moves: &[ EnemyMove { name: "眩晕", intent: "Stun", ops: &[EOp::Nothing] }, EnemyMove { name: "啃咬", intent: "Attack", ops: &[EOp::Attack { base: 6, hits: 1 }] }, EnemyMove { name: "扭动", intent: "Buff", ops: &[ EOp::AddCardToDiscard { card: card::INFECTION, count: 1 }, EOp::SelfStatus { st: St::Strength, amt: 2 }, ] }, ], },
        40 => EnemyDef { name: "异蛙寄生虫", max_hp: 64, start_status: &[(St::Infested, 4)], loop_from: 0, machine: Some(&Machine { start: Next::Go(0), after: &[Next::Go(1), Next::Go(0)], }), moves: &[ EnemyMove { name: "感染", intent: "StatusCard", ops: &[EOp::AddCardToDiscard { card: card::INFECTION, count: 3 }] }, EnemyMove { name: "鞭击", intent: "Attack", ops: &[EOp::Attack { base: 4, hits: 4 }] }, ], },
        41 => EnemyDef { name: "仪式兽", max_hp: 252, start_status: &[], loop_from: 0, machine: Some(&Machine { start: Next::Go(1), after: &[ Next::Cond(&[(ECond::HpAtMost(150), 2), (ECond::Unknown, 0)]), Next::Go(0), Next::Go(3), Next::Go(4), Next::Go(5), Next::Go(3), ], }), moves: &[ EnemyMove { name: "耕地", intent: "Attack", ops: &[EOp::Attack { base: 18, hits: 1 }, EOp::SelfStatus { st: St::Strength, amt: 2 }] }, EnemyMove { name: "践地", intent: "Buff", ops: &[EOp::SelfStatus { st: St::Plow, amt: 150 }] }, EnemyMove { name: "眩晕", intent: "Stun", ops: &[EOp::Nothing] }, EnemyMove { name: "兽吼", intent: "Debuff", ops: &[EOp::PlayerStatus { st: St::Ringing, amt: 1 }] }, EnemyMove { name: "践踏", intent: "Attack", ops: &[EOp::Attack { base: 15, hits: 1 }] }, EnemyMove { name: "碾碎", intent: "Attack", ops: &[EOp::Attack { base: 17, hits: 1 }, EOp::SelfStatus { st: St::Strength, amt: 3 }] }, ], },
        42 => EnemyDef { name: "外骨骼虫", max_hp: 28, start_status: &[(St::DamageCap, 9)], loop_from: 0, machine: Some(&Machine { start: Next::Cond(&[ (ECond::SlotIs(0), 0), (ECond::SlotIs(1), 1), (ECond::SlotIs(2), 2), ]), after: &[ Next::Rand(&[ Branch { to: 0, weight: 1, repeat: Repeat::NotTwice, cooldown: 0 }, Branch { to: 1, weight: 1, repeat: Repeat::NotTwice, cooldown: 0 }, ]), Next::Go(2), Next::Rand(&[ Branch { to: 0, weight: 1, repeat: Repeat::NotTwice, cooldown: 0 }, Branch { to: 1, weight: 1, repeat: Repeat::NotTwice, cooldown: 0 }, ]), ], }), moves: &[ EnemyMove { name: "疾走", intent: "Attack", ops: &[EOp::Attack { base: 1, hits: 3 }] }, EnemyMove { name: "大颚", intent: "Attack", ops: &[EOp::Attack { base: 8, hits: 1 }] }, EnemyMove { name: "激怒", intent: "Buff", ops: &[EOp::SelfStatus { st: St::Strength, amt: 2 }] }, ], },
        43 => EnemyDef { name: "蜂群术士", max_hp: 145, start_status: &[(St::PersonalHive, 1)], loop_from: 0, machine: Some(&Machine { start: Next::Go(0), after: &[ Next::Go(1), Next::Cond(&[ (ECond::SelfStatusBelow(St::PersonalHive, 3), 2), (ECond::SelfStatusAtLeast(St::PersonalHive, 3), 3), ]), Next::Go(0), Next::Go(0), ], }), moves: &[ EnemyMove { name: "蜜——蜂——！", intent: "Attack", ops: &[EOp::Attack { base: 3, hits: 7 }] }, EnemyMove { name: "矛击！", intent: "Attack", ops: &[EOp::Attack { base: 18, hits: 1 }] }, EnemyMove { name: "喷射信息素", intent: "Buff", ops: &[EOp::SelfStatus { st: St::PersonalHive, amt: 1 }, EOp::SelfStatus { st: St::Strength, amt: 1 }] }, EnemyMove { name: "喷射信息素", intent: "Buff", ops: &[EOp::SelfStatus { st: St::Strength, amt: 2 }] }, ], },
        44 => EnemyDef { name: "感染棱柱", max_hp: 161, start_status: &[(St::VitalSpark, 2)], loop_from: 0, machine: None, moves: &[ EnemyMove { name: "戳刺", intent: "Attack", ops: &[EOp::Attack { base: 15, hits: 1 }] }, EnemyMove { name: "辐射", intent: "Attack", ops: &[EOp::Attack { base: 11, hits: 1 }, EOp::Block(11)] }, EnemyMove { name: "旋风", intent: "Attack", ops: &[EOp::Attack { base: 5, hits: 3 }] }, EnemyMove { name: "脉动", intent: "Attack", ops: &[EOp::Attack { base: 8, hits: 1 }, EOp::SelfStatus { st: St::VitalSpark, amt: 2 }, EOp::Block(20)] }, ], },
        45 => EnemyDef { name: "结实的卵", max_hp: 18, start_status: &[(St::Hatch, 1)], loop_from: 1, machine: Some(&Machine { start: Next::Go(0), after: &[Next::Go(1), Next::Go(1)] }), moves: &[ EnemyMove { name: "孵化", intent: "Summon", ops: &[EOp::Nothing] }, EnemyMove { name: "啃咬", intent: "Attack", ops: &[EOp::Attack { base: 4, hits: 1 }] }, ], },
        46 => EnemyDef { name: "幼虫", max_hp: 22, start_status: &[], loop_from: 0, machine: None, moves: &[EnemyMove { name: "啃咬", intent: "Attack", ops: &[EOp::Attack { base: 4, hits: 1 }] }], },
        47 => EnemyDef { name: "无厌沙虫", max_hp: 321, start_status: &[], loop_from: 1, machine: Some(&Machine { start: Next::Go(0), after: &[ Next::Go(1), Next::Go(2), Next::Go(3), Next::Go(4), Next::Go(1), ], }), moves: &[ EnemyMove { name: "液化地面", intent: "Buff", ops: &[EOp::SelfStatus { st: St::Sandpit, amt: 4 }, EOp::AddCardToDraw { card: card::FRANTIC_ESCAPE, count: 3 }, EOp::AddCardToDiscard { card: card::FRANTIC_ESCAPE, count: 3 }] }, EnemyMove { name: "鞭挞", intent: "Attack", ops: &[EOp::Attack { base: 8, hits: 2 }] }, EnemyMove { name: "猛扑撕咬", intent: "Attack", ops: &[EOp::Attack { base: 28, hits: 1 }] }, EnemyMove { name: "垂涎", intent: "Buff", ops: &[EOp::SelfStatus { st: St::Strength, amt: 2 }] }, EnemyMove { name: "鞭挞2", intent: "Attack", ops: &[EOp::Attack { base: 8, hits: 2 }] }, ], },
        48 => EnemyDef { name: "虔诚雕刻师", max_hp: 162, start_status: &[], loop_from: 1, machine: None, moves: &[ EnemyMove { name: "禁忌咒语", intent: "Buff", ops: &[EOp::SelfStatus { st: St::Ritual, amt: 9 }] }, EnemyMove { name: "狂暴", intent: "Attack", ops: &[EOp::Attack { base: 12, hits: 1 }] }, ], },
        49 => EnemyDef { name: "永世沙漏", max_hp: 512, start_status: &[(St::Artifact, 3), (St::WitheringPresence, 6)], loop_from: 0, machine: None, moves: &[ EnemyMove { name: "退潮", intent: "Attack", ops: &[EOp::Attack { base: 26, hits: 1 }, EOp::Block(33)] }, EnemyMove { name: "眼部激光", intent: "Attack", ops: &[EOp::Attack { base: 11, hits: 2 }] }, EnemyMove { name: "剧烈增强", intent: "StatusCard", ops: &[ EOp::AddCardToDiscard { card: card::WITHER, count: 1 }, EOp::UpgradeAllCopies { card: card::WITHER, by: 3 }, EOp::SelfStatus { st: St::Strength, amt: 3 }, ] }, ], },
        50 => EnemyDef { name: "活体盾", max_hp: 55, start_status: &[(St::Rampart, 25)], loop_from: 0, machine: Some(&Machine { start: Next::Go(0), after: &[ Next::Cond(&[(ECond::Unknown, 0), (ECond::Unknown, 1)]), Next::Go(1), ], }), moves: &[ EnemyMove { name: "盾牌猛击", intent: "Attack", ops: &[EOp::Attack { base: 6, hits: 1 }] }, EnemyMove { name: "猛砸", intent: "Attack", ops: &[EOp::Attack { base: 16, hits: 1 }, EOp::SelfStatus { st: St::Strength, amt: 3 }] }, ], },
        51 => EnemyDef { name: "高塔炮手", max_hp: 41, start_status: &[], loop_from: 0, machine: None, moves: &[ EnemyMove { name: "倾泻火力", intent: "Attack", ops: &[EOp::Attack { base: 3, hits: 5 }] }, EnemyMove { name: "倾泻火力2", intent: "Attack", ops: &[EOp::Attack { base: 3, hits: 5 }] }, EnemyMove { name: "装填", intent: "Buff", ops: &[EOp::SelfStatus { st: St::Strength, amt: 1 }] }, ], },
        52 => EnemyDef { name: "猫头鹰法官", max_hp: 231, start_status: &[], loop_from: 0, machine: None, moves: &[ EnemyMove { name: "审视", intent: "Attack", ops: &[EOp::Attack { base: 16, hits: 1 }] }, EnemyMove { name: "啄击突袭", intent: "Attack", ops: &[EOp::Attack { base: 4, hits: 6 }] }, EnemyMove { name: "司法飞行", intent: "Buff", ops: &[EOp::SelfStatus { st: St::Soar, amt: 1 }] }, EnemyMove { name: "判决", intent: "Attack", ops: &[ EOp::Attack { base: 33, hits: 1 }, EOp::PlayerStatus { st: St::Vulnerable, amt: 4 }, ] }, ], },
        53 => EnemyDef { name: "组装师", max_hp: 150, start_status: &[], loop_from: 0, machine: Some(&Machine { start: Next::Cond(&[ (ECond::AlliesAliveAtLeast(4), 2), (ECond::Unknown, 0), (ECond::Unknown, 1), ]), after: &[ Next::Cond(&[ (ECond::AlliesAliveAtLeast(4), 2), (ECond::Unknown, 0), (ECond::Unknown, 1), ]), Next::Cond(&[ (ECond::AlliesAliveAtLeast(4), 2), (ECond::Unknown, 0), (ECond::Unknown, 1), ]), Next::Cond(&[ (ECond::AlliesAliveAtLeast(4), 2), (ECond::Unknown, 0), (ECond::Unknown, 1), ]), ], }), moves: &[ EnemyMove { name: "制造", intent: "Summon", ops: &[ EOp::Summon { def: enemy::NOISEBOT, hp: 23 }, EOp::Summon { def: enemy::ZAPBOT, hp: 23 }, ] }, EnemyMove { name: "制造打击", intent: "Attack", ops: &[ EOp::Attack { base: 18, hits: 1 }, EOp::Summon { def: enemy::ZAPBOT, hp: 23 }, ] }, EnemyMove { name: "分解", intent: "Attack", ops: &[EOp::Attack { base: 11, hits: 1 }] }, ], },
        54 => EnemyDef { name: "噪音机器人", max_hp: 23, start_status: &[(St::Minion, 1)], loop_from: 0, machine: None, moves: &[EnemyMove { name: "噪音", intent: "StatusCard", ops: &[ EOp::AddCardToDiscard { card: card::DAZED, count: 1 }, EOp::AddCardToDraw { card: card::DAZED, count: 1 }, ] }], },
        55 => EnemyDef { name: "电击机器人", max_hp: 23, start_status: &[(St::Minion, 1), (St::HighVoltage, 2)], loop_from: 0, machine: None, moves: &[EnemyMove { name: "电击", intent: "Attack", ops: &[EOp::Attack { base: 14, hits: 1 }] }], },
        56 => EnemyDef { name: "刺击机器人", max_hp: 23, start_status: &[(St::Minion, 1)], loop_from: 0, machine: None, moves: &[EnemyMove { name: "刺击", intent: "Attack", ops: &[ EOp::Attack { base: 11, hits: 1 }, EOp::PlayerStatus { st: St::Frail, amt: 1 }, ] }], },
        57 => EnemyDef { name: "护卫机器人", max_hp: 20, start_status: &[(St::Minion, 1)], loop_from: 0, machine: None, moves: &[EnemyMove { name: "护卫", intent: "Defend", ops: &[EOp::BlockNonMinions(15)] }], },
        58 => EnemyDef { name: "多尼斯异鸟", max_hp: 82, start_status: &[(St::Territorial, 1)], loop_from: 0, machine: None, moves: &[ EnemyMove { name: "俯冲", intent: "Attack", ops: &[EOp::Attack { base: 17, hits: 1 }] }, EnemyMove { name: "啄击", intent: "Attack", ops: &[EOp::Attack { base: 3, hits: 3 }] }, ], },
        59 => EnemyDef { name: "猎人杀手", max_hp: 121, start_status: &[], loop_from: 0, machine: Some(&Machine { start: Next::Go(0), after: &[ Next::Rand(&[ Branch { to: 1, weight: 1, repeat: Repeat::NotTwice, cooldown: 0 }, Branch { to: 2, weight: 1, repeat: Repeat::AtMost(2), cooldown: 0 }, ]), Next::Rand(&[ Branch { to: 1, weight: 1, repeat: Repeat::NotTwice, cooldown: 0 }, Branch { to: 2, weight: 1, repeat: Repeat::AtMost(2), cooldown: 0 }, ]), Next::Rand(&[ Branch { to: 1, weight: 1, repeat: Repeat::NotTwice, cooldown: 0 }, Branch { to: 2, weight: 1, repeat: Repeat::AtMost(2), cooldown: 0 }, ]), ], }), moves: &[ EnemyMove { name: "嫩化黏液", intent: "Debuff", ops: &[EOp::PlayerStatus { st: St::Tender, amt: 1 }] }, EnemyMove { name: "撕咬", intent: "Attack", ops: &[EOp::Attack { base: 17, hits: 1 }] }, EnemyMove { name: "穿刺", intent: "Attack", ops: &[EOp::Attack { base: 7, hits: 3 }] }, ], },
        60 => EnemyDef { name: "残杀千足虫", max_hp: 42, start_status: &[(St::Reattach, 25)], loop_from: 0, machine: Some(&Machine { start: Next::Cond(&[ (ECond::SlotRep(0), 0), (ECond::SlotRep(1), 1), (ECond::SlotRep(2), 2), ]), after: &[ Next::Go(2), Next::Go(0), Next::Go(1), Next::Rand(&[ Branch { to: 0, weight: 1, repeat: Repeat::NotTwice, cooldown: 0 }, Branch { to: 1, weight: 1, repeat: Repeat::NotTwice, cooldown: 0 }, Branch { to: 2, weight: 1, repeat: Repeat::NotTwice, cooldown: 0 }, ]), ], }), moves: &[ EnemyMove { name: "扭动", intent: "Attack", ops: &[EOp::Attack { base: 5, hits: 2 }] }, EnemyMove { name: "壮硕", intent: "Attack", ops: &[EOp::Attack { base: 6, hits: 1 }, EOp::SelfStatus { st: St::Strength, amt: 2 }] }, EnemyMove { name: "缠绕", intent: "Attack", ops: &[EOp::Attack { base: 8, hits: 1 }, EOp::PlayerStatus { st: St::Weak, amt: 1 }] }, EnemyMove { name: "重接", intent: "Heal", ops: &[EOp::Nothing] }, ], },
        61 => EnemyDef { name: "青蛙骑士", max_hp: 191, start_status: &[(St::PlatedArmor, 15)], loop_from: 0, machine: Some(&Machine { start: Next::Go(0), after: &[ Next::Go(1), Next::Go(2), Next::Cond(&[ (ECond::All(&[ECond::MoveUnused(3), ECond::HpAtMost(94)]), 3), (ECond::Unknown, 0), ]), Next::Go(0), ], }), moves: &[ EnemyMove { name: "舌鞭", intent: "Attack", ops: &[EOp::Attack { base: 13, hits: 1 }, EOp::PlayerStatus { st: St::Frail, amt: 2 }] }, EnemyMove { name: "除恶", intent: "Attack", ops: &[EOp::Attack { base: 21, hits: 1 }] }, EnemyMove { name: "为了女王", intent: "Buff", ops: &[EOp::SelfStatus { st: St::Strength, amt: 5 }] }, EnemyMove { name: "甲虫冲锋", intent: "Attack", ops: &[EOp::Attack { base: 35, hits: 1 }] }, ], },
        62 => EnemyDef { name: "巨斧机器人", max_hp: 74, start_status: &[(St::Stock, 2)], loop_from: 0, machine: Some(&Machine { start: Next::Go(1), after: &[ Next::Go(1), Next::Go(2), Next::Go(1), ], }), moves: &[ EnemyMove { name: "启动", intent: "Defend", ops: &[EOp::Block(10), EOp::SelfStatus { st: St::Strength, amt: 6 }, EOp::SelfStatusPerStack { st: St::Strength, amt: -3i32, per: St::Stock }] }, EnemyMove { name: "锤击上勾拳", intent: "Attack", ops: &[EOp::Attack { base: 12, hits: 1 }, EOp::PlayerStatus { st: St::Weak, amt: 2 }, EOp::PlayerStatus { st: St::Frail, amt: 2 }] }, EnemyMove { name: "一二连击", intent: "Attack", ops: &[EOp::Attack { base: 9, hits: 2 }] }, ], },
        63 => EnemyDef { name: "灵魂枢纽", max_hp: 234, start_status: &[], loop_from: 0, machine: Some(&Machine { start: Next::Go(0), after: &[Next::Rand(&[ Branch { to: 0, weight: 1, repeat: Repeat::NotTwice, cooldown: 0 }, Branch { to: 1, weight: 1, repeat: Repeat::NotTwice, cooldown: 0 }, Branch { to: 2, weight: 1, repeat: Repeat::NotTwice, cooldown: 0 }, ]), Next::Rand(&[ Branch { to: 0, weight: 1, repeat: Repeat::NotTwice, cooldown: 0 }, Branch { to: 1, weight: 1, repeat: Repeat::NotTwice, cooldown: 0 }, Branch { to: 2, weight: 1, repeat: Repeat::NotTwice, cooldown: 0 }, ]), Next::Rand(&[ Branch { to: 0, weight: 1, repeat: Repeat::NotTwice, cooldown: 0 }, Branch { to: 1, weight: 1, repeat: Repeat::NotTwice, cooldown: 0 }, Branch { to: 2, weight: 1, repeat: Repeat::NotTwice, cooldown: 0 }, ])], }), moves: &[ EnemyMove { name: "灵魂灼烧", intent: "Attack", ops: &[EOp::Attack { base: 29, hits: 1 }] }, EnemyMove { name: "大漩涡", intent: "Attack", ops: &[EOp::Attack { base: 6, hits: 4 }] }, EnemyMove { name: "汲取生命", intent: "Attack", ops: &[EOp::Attack { base: 18, hits: 1 }, EOp::PlayerStatus { st: St::Vulnerable, amt: 2 }, EOp::PlayerStatus { st: St::Weak, amt: 2 }] }, ], },
        64 => EnemyDef { name: "实验体", max_hp: super::TEST_SUBJECT_FORM1_HP, start_status: &[(St::Rage, 2), (St::Adaptable, 1)], loop_from: 0, machine: Some(&Machine { start: Next::Go(1), after: &[ Next::Cond(&[(ECond::MaxHpAtMost(250), 3), (ECond::Unknown, 4)]), Next::Go(2), Next::Go(1), Next::Go(3), Next::Go(5), Next::Go(6), Next::Go(4), ], }), moves: &[ EnemyMove { name: "复苏", intent: "Defend", ops: &[EOp::Nothing] }, EnemyMove { name: "啃咬", intent: "Attack", ops: &[EOp::Attack { base: 20, hits: 1 }] }, EnemyMove { name: "头槌猛击", intent: "Attack", ops: &[EOp::Attack { base: 14, hits: 1 }, EOp::PlayerStatus { st: St::Vulnerable, amt: 1 }] }, EnemyMove { name: "连环爪击", intent: "Attack", ops: &[EOp::AttackPlusStackHits { base: 10, hits: 3, per: St::ClawGrowth }, EOp::SelfStatus { st: St::ClawGrowth, amt: 1 }] }, EnemyMove { name: "撕裂", intent: "Attack", ops: &[EOp::Attack { base: 10, hits: 3 }] }, EnemyMove { name: "猛扑", intent: "Attack", ops: &[EOp::Attack { base: 45, hits: 1 }] }, EnemyMove { name: "灼热咆哮", intent: "StatusCard", ops: &[EOp::AddCardToDiscard { card: card::BURN, count: 3 }, EOp::SelfStatus { st: St::Strength, amt: 2 }] }, ], },
        65 => EnemyDef { name: "骇鳗", max_hp: 140, start_status: &[(St::Shriek, 70)], loop_from: 0, machine: Some(&Machine { start: Next::Go(0), after: &[ Next::Go(1), Next::Go(0), Next::Go(3), Next::Go(0), ], }), moves: &[ EnemyMove { name: "撞击", intent: "Attack", ops: &[EOp::Attack { base: 16, hits: 1 }] }, EnemyMove { name: "乱舞", intent: "Attack", ops: &[EOp::Attack { base: 3, hits: 3 }, EOp::SelfStatus { st: St::Vigor, amt: 6 }] }, EnemyMove { name: "击晕", intent: "Stun", ops: &[EOp::Nothing] }, EnemyMove { name: "恐惧", intent: "Debuff", ops: &[EOp::PlayerStatus { st: St::Vulnerable, amt: 99 }] }, ], },
        66 => EnemyDef { name: "活雾", max_hp: 80, start_status: &[], loop_from: 0, machine: Some(&Machine { start: Next::Go(0), after: &[ Next::Go(1), Next::Go(2), Next::Go(1), ], }), moves: &[ EnemyMove { name: "高阶瓦斯", intent: "Attack", ops: &[EOp::Attack { base: 8, hits: 1 }, EOp::PlayerStatus { st: St::Smoggy, amt: 1 }] }, EnemyMove { name: "膨胀", intent: "Attack", ops: &[EOp::Summon { def: enemy::GAS_BOMB, hp: 7 }, EOp::Attack { base: 5, hits: 1 }] }, EnemyMove { name: "超级瓦斯冲击", intent: "Attack", ops: &[EOp::Attack { base: 8, hits: 1 }] }, ], },
        67 => EnemyDef { name: "气态炸弹", max_hp: 7, start_status: &[(St::Minion, 1)], loop_from: 0, machine: None, moves: &[ EnemyMove { name: "自爆", intent: "DeathBlow", ops: &[EOp::Attack { base: 8, hits: 1 }] }, ], },
        68 => EnemyDef { name: "花园幽灵鳗", max_hp: 27, start_status: &[(St::Skittish, 6)], loop_from: 0, machine: Some(&Machine { start: Next::Cond(&[ (ECond::SlotIs(0), 2), (ECond::SlotIs(1), 0), (ECond::SlotIs(2), 1), (ECond::SlotIs(3), 3), ]), after: &[ Next::Go(1), Next::Go(2), Next::Go(3), Next::Go(0), ], }), moves: &[ EnemyMove { name: "啃咬", intent: "Attack", ops: &[EOp::Attack { base: 5, hits: 1 }] }, EnemyMove { name: "鞭击", intent: "Attack", ops: &[EOp::Attack { base: 7, hits: 1 }] }, EnemyMove { name: "乱舞", intent: "Attack", ops: &[EOp::Attack { base: 1, hits: 3 }] }, EnemyMove { name: "巨大化", intent: "Buff", ops: &[EOp::SelfStatus { st: St::Strength, amt: 3 }] }, ], },
        69 => EnemyDef { name: "瀑布巨兽", max_hp: 240, start_status: &[], loop_from: 0, machine: Some(&Machine { start: Next::Go(0), after: &[ Next::Go(1), Next::Go(2), Next::Go(3), Next::Go(4), Next::Go(5), Next::Go(1), Next::Go(7), Next::Go(7), ], }), moves: &[ EnemyMove { name: "加压", intent: "Buff", ops: &[EOp::SelfStatus { st: St::SteamEruption, amt: 15 }] }, EnemyMove { name: "重踏", intent: "Attack", ops: &[EOp::Attack { base: 15, hits: 1 }, EOp::PlayerStatus { st: St::Weak, amt: 1 }, EOp::SelfStatus { st: St::SteamEruption, amt: 3 }] }, EnemyMove { name: "撞击", intent: "Attack", ops: &[EOp::Attack { base: 10, hits: 1 }, EOp::SelfStatus { st: St::SteamEruption, amt: 3 }] }, EnemyMove { name: "虹吸", intent: "Heal", ops: &[EOp::Heal(10), EOp::SelfStatus { st: St::SteamEruption, amt: 3 }] }, EnemyMove { name: "高压枪", intent: "Attack", ops: &[EOp::AttackPlusSelfStatus { base: 20, hits: 1, per: St::PressureGunGrowth }, EOp::SelfStatus { st: St::PressureGunGrowth, amt: 5 }, EOp::SelfStatus { st: St::SteamEruption, amt: 3 }] }, EnemyMove { name: "升压", intent: "Attack", ops: &[EOp::Attack { base: 13, hits: 1 }, EOp::SelfStatus { st: St::SteamEruption, amt: 3 }] }, EnemyMove { name: "即将爆发", intent: "Stun", ops: &[EOp::SelfStatusPerStack { st: St::EruptionDamage, amt: 1, per: St::SteamEruption }, EOp::ClearSelfStatus(St::SteamEruption)] }, EnemyMove { name: "爆炸", intent: "DeathBlow", ops: &[EOp::AttackPlusSelfStatus { base: 0, hits: 1, per: St::EruptionDamage }, EOp::KillSelf] }, ], },
        70 => EnemyDef { name: "地道虫", max_hp: 87, start_status: &[], loop_from: 0, machine: Some(&Machine { start: Next::Go(0), after: &[ Next::Go(1), Next::Go(2), Next::Go(2), Next::Go(0), ], }), moves: &[ EnemyMove { name: "咬击", intent: "Attack", ops: &[EOp::Attack { base: 13, hits: 1 }] }, EnemyMove { name: "钻地", intent: "Buff", ops: &[EOp::Block(32), EOp::SelfStatus { st: St::Burrowed, amt: 1 }] }, EnemyMove { name: "地底突袭", intent: "Attack", ops: &[EOp::Attack { base: 23, hits: 1 }] }, EnemyMove { name: "眩晕", intent: "Stun", ops: &[EOp::Nothing] }, ], },
        71 => EnemyDef { name: "胧光怪", max_hp: 123, start_status: &[], loop_from: 1, machine: Some(&Machine { start: Next::Go(0), after: &[ Next::Rand(&[ Branch { to: 1, weight: 1, repeat: Repeat::NotTwice, cooldown: 0 }, Branch { to: 2, weight: 1, repeat: Repeat::NotTwice, cooldown: 0 }, Branch { to: 3, weight: 1, repeat: Repeat::NotTwice, cooldown: 0 }, ]), Next::Rand(&[ Branch { to: 1, weight: 1, repeat: Repeat::NotTwice, cooldown: 0 }, Branch { to: 2, weight: 1, repeat: Repeat::NotTwice, cooldown: 0 }, Branch { to: 3, weight: 1, repeat: Repeat::NotTwice, cooldown: 0 }, ]), Next::Rand(&[ Branch { to: 1, weight: 1, repeat: Repeat::NotTwice, cooldown: 0 }, Branch { to: 2, weight: 1, repeat: Repeat::NotTwice, cooldown: 0 }, Branch { to: 3, weight: 1, repeat: Repeat::NotTwice, cooldown: 0 }, ]), Next::Rand(&[ Branch { to: 1, weight: 1, repeat: Repeat::NotTwice, cooldown: 0 }, Branch { to: 2, weight: 1, repeat: Repeat::NotTwice, cooldown: 0 }, Branch { to: 3, weight: 1, repeat: Repeat::NotTwice, cooldown: 0 }, ]), ], }), moves: &[ EnemyMove { name: "幻象", intent: "Summon", ops: &[EOp::Summon { def: enemy::PARAFRIGHT, hp: 21 }] }, EnemyMove { name: "穿刺凝视", intent: "Attack", ops: &[EOp::Attack { base: 10, hits: 1 }] }, EnemyMove { name: "哀嚎", intent: "Buff", ops: &[EOp::TeamStatus { st: St::Strength, amt: 3 }] }, EnemyMove { name: "硬化打击", intent: "Attack", ops: &[EOp::Attack { base: 6, hits: 1 }, EOp::Block(6)] }, ], },
        72 => EnemyDef { name: "寄生惧魔", max_hp: 21, start_status: &[(St::Illusion, 1), (St::Minion, 1)], loop_from: 1, machine: Some(&Machine { start: Next::Go(1), after: &[Next::Go(1), Next::Go(1)] }), moves: &[ EnemyMove { name: "复苏", intent: "Heal", ops: &[EOp::Nothing] }, EnemyMove { name: "猛撞", intent: "Attack", ops: &[EOp::Attack { base: 16, hits: 1 }] }, ], },
        73 => EnemyDef { name: "淤泥旋螺", max_hp: 38, start_status: &[], loop_from: 0, machine: Some(&Machine { start: Next::Go(0), after: &[ Next::Rand(&[ Branch { to: 0, weight: 1, repeat: Repeat::NotTwice, cooldown: 0 }, Branch { to: 1, weight: 1, repeat: Repeat::NotTwice, cooldown: 0 }, Branch { to: 2, weight: 1, repeat: Repeat::NotTwice, cooldown: 0 }, ]), Next::Rand(&[ Branch { to: 0, weight: 1, repeat: Repeat::NotTwice, cooldown: 0 }, Branch { to: 1, weight: 1, repeat: Repeat::NotTwice, cooldown: 0 }, Branch { to: 2, weight: 1, repeat: Repeat::NotTwice, cooldown: 0 }, ]), Next::Rand(&[ Branch { to: 0, weight: 1, repeat: Repeat::NotTwice, cooldown: 0 }, Branch { to: 1, weight: 1, repeat: Repeat::NotTwice, cooldown: 0 }, Branch { to: 2, weight: 1, repeat: Repeat::NotTwice, cooldown: 0 }, ]), ], }), moves: &[ EnemyMove { name: "喷油", intent: "Attack", ops: &[EOp::Attack { base: 8, hits: 1 }, EOp::PlayerStatus { st: St::Weak, amt: 1 }] }, EnemyMove { name: "猛砸", intent: "Attack", ops: &[EOp::Attack { base: 11, hits: 1 }] }, EnemyMove { name: "狂怒", intent: "Attack", ops: &[EOp::Attack { base: 6, hits: 1 }, EOp::SelfStatus { st: St::Strength, amt: 3 }] }, ], },
        74 => EnemyDef { name: "噬尸蛞蝓", max_hp: 25, start_status: &[(St::Ravenous, 4)], loop_from: 0, machine: Some(&Machine { start: Next::Rand(&[ Branch { to: 0, weight: 1, repeat: Repeat::Forever, cooldown: 0 }, Branch { to: 1, weight: 1, repeat: Repeat::Forever, cooldown: 0 }, Branch { to: 2, weight: 1, repeat: Repeat::Forever, cooldown: 0 }, ]), after: &[Next::Go(1), Next::Go(2), Next::Go(0)], }), moves: &[ EnemyMove { name: "鞭击", intent: "Attack", ops: &[EOp::Attack { base: 3, hits: 2 }] }, EnemyMove { name: "吞噬", intent: "Attack", ops: &[EOp::Attack { base: 8, hits: 1 }] }, EnemyMove { name: "黏液", intent: "Debuff", ops: &[EOp::PlayerStatus { st: St::Frail, amt: 2 }] }, ], },
        75 => EnemyDef { name: "海洋混混", max_hp: 46, start_status: &[], loop_from: 0, machine: None, moves: &[ EnemyMove { name: "海踢", intent: "Attack", ops: &[EOp::Attack { base: 11, hits: 1 }] }, EnemyMove { name: "旋踢", intent: "Attack", ops: &[EOp::Attack { base: 2, hits: 4 }] }, EnemyMove { name: "泡泡嗝", intent: "Buff", ops: &[EOp::Block(7), EOp::SelfStatus { st: St::Strength, amt: 1 }] }, ], },
        76 => EnemyDef { name: "钙化邪教徒", max_hp: 41, start_status: &[], loop_from: 1, machine: None, moves: &[ EnemyMove { name: "吟唱", intent: "Buff", ops: &[EOp::SelfStatus { st: St::Ritual, amt: 2 }] }, EnemyMove { name: "黑暗打击", intent: "Attack", ops: &[EOp::Attack { base: 9, hits: 1 }] }, ], },
        77 => EnemyDef { name: "潮湿邪教徒", max_hp: 51, start_status: &[], loop_from: 1, machine: None, moves: &[ EnemyMove { name: "吟唱", intent: "Buff", ops: &[EOp::SelfStatus { st: St::Ritual, amt: 5 }] }, EnemyMove { name: "黑暗打击", intent: "Attack", ops: &[EOp::Attack { base: 1, hits: 1 }] }, ], },
        78 => EnemyDef { name: "下水道蚌", max_hp: 56, start_status: &[(St::PlatedArmor, 8)], loop_from: 0, machine: None, moves: &[ EnemyMove { name: "喷射", intent: "Attack", ops: &[EOp::Attack { base: 10, hits: 1 }] }, EnemyMove { name: "加压", intent: "Buff", ops: &[EOp::SelfStatus { st: St::Strength, amt: 4 }] }, ], },
        79 => EnemyDef { name: "双尾鼠", max_hp: 18, start_status: &[], loop_from: 0, machine: Some(&Machine { start: Next::Rand(&[ Branch { to: 0, weight: 1, repeat: Repeat::Forever, cooldown: 0 }, Branch { to: 1, weight: 1, repeat: Repeat::Forever, cooldown: 0 }, Branch { to: 2, weight: 1, repeat: Repeat::Forever, cooldown: 0 }, ]), after: &[ Next::Rand(&[ Branch { to: 0, weight: 1, repeat: Repeat::NotTwice, cooldown: 0 }, Branch { to: 1, weight: 1, repeat: Repeat::NotTwice, cooldown: 0 }, Branch { to: 2, weight: 1, repeat: Repeat::NotTwice, cooldown: 3 }, Branch { to: 3, weight: 9, repeat: Repeat::Once, cooldown: 0 }, ]), Next::Rand(&[ Branch { to: 0, weight: 1, repeat: Repeat::NotTwice, cooldown: 0 }, Branch { to: 1, weight: 1, repeat: Repeat::NotTwice, cooldown: 0 }, Branch { to: 2, weight: 1, repeat: Repeat::NotTwice, cooldown: 3 }, Branch { to: 3, weight: 9, repeat: Repeat::Once, cooldown: 0 }, ]), Next::Rand(&[ Branch { to: 0, weight: 1, repeat: Repeat::NotTwice, cooldown: 0 }, Branch { to: 1, weight: 1, repeat: Repeat::NotTwice, cooldown: 0 }, Branch { to: 2, weight: 1, repeat: Repeat::NotTwice, cooldown: 3 }, Branch { to: 3, weight: 9, repeat: Repeat::Once, cooldown: 0 }, ]), Next::Rand(&[ Branch { to: 0, weight: 1, repeat: Repeat::NotTwice, cooldown: 0 }, Branch { to: 1, weight: 1, repeat: Repeat::NotTwice, cooldown: 0 }, Branch { to: 2, weight: 1, repeat: Repeat::NotTwice, cooldown: 3 }, Branch { to: 3, weight: 9, repeat: Repeat::Once, cooldown: 0 }, ]), ], }), moves: &[ EnemyMove { name: "抓挠", intent: "Attack", ops: &[EOp::Attack { base: 8, hits: 1 }] }, EnemyMove { name: "病咬", intent: "Attack", ops: &[EOp::Attack { base: 6, hits: 1 }] }, EnemyMove { name: "尖啸", intent: "Debuff", ops: &[EOp::PlayerStatus { st: St::Frail, amt: 1 }] }, EnemyMove { name: "呼叫增援", intent: "Summon", ops: &[EOp::Summon { def: enemy::TWO_TAILED_RAT, hp: 18 }] }, ], },
        80 => EnemyDef { name: "拳击构装体", max_hp: 55, start_status: &[(St::Artifact, 1)], loop_from: 0, machine: Some(&Machine { start: Next::Rand(&[ Branch { to: 0, weight: 1, repeat: Repeat::Forever, cooldown: 0 }, Branch { to: 1, weight: 1, repeat: Repeat::Forever, cooldown: 0 }, ]), after: &[Next::Go(1), Next::Go(2), Next::Go(0)], }), moves: &[ EnemyMove { name: "蓄力", intent: "Defend", ops: &[EOp::Block(10)] }, EnemyMove { name: "快拳", intent: "Attack", ops: &[EOp::Attack { base: 5, hits: 2 }, EOp::PlayerStatus { st: St::Frail, amt: 1 }] }, EnemyMove { name: "重拳", intent: "Attack", ops: &[EOp::Attack { base: 14, hits: 1 }] }, ], },
        81 => EnemyDef { name: "灵魂异鱼", max_hp: 211, start_status: &[], loop_from: 0, machine: None, moves: &[ EnemyMove { name: "呼唤", intent: "StatusCard", ops: &[EOp::AddCardToDraw { card: card::BECKON, count: 1 }, EOp::AddCardToDiscard { card: card::BECKON, count: 1 }] }, EnemyMove { name: "排气", intent: "Attack", ops: &[EOp::Attack { base: 16, hits: 1 }] }, EnemyMove { name: "凝视", intent: "Attack", ops: &[EOp::Attack { base: 7, hits: 1 }, EOp::AddCardToDiscard { card: card::BECKON, count: 1 }] }, EnemyMove { name: "淡出", intent: "Buff", ops: &[EOp::SelfStatus { st: St::Intangible, amt: 2 }] }, EnemyMove { name: "尖啸", intent: "Attack", ops: &[EOp::Attack { base: 13, hits: 1 }, EOp::PlayerStatus { st: St::Vulnerable, amt: 3 }] }, ], },
        82 => EnemyDef { name: "史莱姆狂战士", max_hp: 261, start_status: &[], loop_from: 0, machine: None, moves: &[ EnemyMove { name: "喷吐脓水", intent: "StatusCard", ops: &[EOp::AddCardToDiscard { card: card::SLIMED, count: 10 }] }, EnemyMove { name: "狂怒连击", intent: "Attack", ops: &[EOp::Attack { base: 4, hits: 4 }] }, EnemyMove { name: "汲取之拥", intent: "Debuff", ops: &[EOp::PlayerStatus { st: St::Weak, amt: 3 }, EOp::SelfStatus { st: St::Strength, amt: 3 }] }, EnemyMove { name: "SMOTHER", intent: "Attack", ops: &[EOp::Attack { base: 30, hits: 1 }] }, ], },
        83 => EnemyDef { name: "机甲骑士", max_hp: 300, start_status: &[(St::Artifact, 3)], loop_from: 1, machine: None, moves: &[ EnemyMove { name: "冲锋", intent: "Attack", ops: &[EOp::Attack { base: 25, hits: 1 }] }, EnemyMove { name: "喷火器", intent: "StatusCard", ops: &[EOp::AddCardToHand { card: card::BURN, count: 4 }] }, EnemyMove { name: "举起蓄力", intent: "Defend", ops: &[EOp::Block(15), EOp::SelfStatus { st: St::Strength, amt: 5 }] }, EnemyMove { name: "重斩", intent: "Attack", ops: &[EOp::Attack { base: 35, hits: 1 }] }, ], },
        84 => EnemyDef { name: "电球头", max_hp: 148, start_status: &[(St::Galvanic, 6)], loop_from: 0, machine: None, moves: &[ EnemyMove { name: "电击掌", intent: "Attack", ops: &[EOp::Attack { base: 13, hits: 1 }, EOp::PlayerStatus { st: St::Frail, amt: 2 }] }, EnemyMove { name: "生成闪电", intent: "Attack", ops: &[EOp::Attack { base: 6, hits: 3 }] }, EnemyMove { name: "GALVANIC_BURST", intent: "Attack", ops: &[EOp::Attack { base: 16, hits: 1 }, EOp::SelfStatus { st: St::Strength, amt: 2 }] }, ], },
        85 => EnemyDef { name: "咬人卷轴", max_hp: 33, start_status: &[(St::PaperCuts, 2)], loop_from: 0, machine: Some(&Machine { start: Next::Cond(&[ (ECond::SlotIs(0), 0), (ECond::SlotIs(1), 1), (ECond::SlotIs(2), 2), (ECond::SlotIs(3), 2), ]), after: &[ Next::Go(2), Next::Rand(&[ Branch { to: 0, weight: 1, repeat: Repeat::NotTwice, cooldown: 0 }, Branch { to: 1, weight: 1, repeat: Repeat::AtMost(2), cooldown: 0 }, ]), Next::Go(1), ], }), moves: &[ EnemyMove { name: "大啃", intent: "Attack", ops: &[EOp::Attack { base: 14, hits: 1 }] }, EnemyMove { name: "咀嚼", intent: "Attack", ops: &[EOp::Attack { base: 5, hits: 2 }] }, EnemyMove { name: "更多牙齿", intent: "Buff", ops: &[EOp::SelfStatus { st: St::Strength, amt: 2 }] }, ], },
        86 => EnemyDef { name: "失落之物", max_hp: 93, start_status: &[(St::PossessStrength, 1)], loop_from: 0, machine: None, moves: &[ EnemyMove { name: "致残雾霾", intent: "Debuff", ops: &[EOp::PlayerStatus { st: St::Strength, amt: -2i32 }, EOp::SelfStatus { st: St::Strength, amt: 2 }] }, EnemyMove { name: "眼部激光", intent: "Attack", ops: &[EOp::Attack { base: 4, hits: 2 }] }, ], },
        87 => EnemyDef { name: "遗忘之物", max_hp: 106, start_status: &[(St::PossessSpeed, 1)], loop_from: 0, machine: None, moves: &[ EnemyMove { name: "瘴气", intent: "Debuff", ops: &[EOp::PlayerStatus { st: St::Dexterity, amt: -2i32 }, EOp::Block(8), EOp::SelfStatus { st: St::Dexterity, amt: 2 }] }, EnemyMove { name: "恐惧", intent: "Attack", ops: &[EOp::AttackPlusSelfStatus { base: 13, hits: 1, per: St::Dexterity }] }, ], },
        88 => EnemyDef { name: "连枷骑士", max_hp: 101, start_status: &[], loop_from: 0, machine: Some(&Machine { start: Next::Go(0), after: &[Next::Rand(&[ Branch { to: 2, weight: 1, repeat: Repeat::NotTwice, cooldown: 0 }, Branch { to: 1, weight: 1, repeat: Repeat::AtMost(2), cooldown: 0 }, Branch { to: 0, weight: 1, repeat: Repeat::AtMost(2), cooldown: 0 }, ]), Next::Rand(&[ Branch { to: 2, weight: 1, repeat: Repeat::NotTwice, cooldown: 0 }, Branch { to: 1, weight: 1, repeat: Repeat::AtMost(2), cooldown: 0 }, Branch { to: 0, weight: 1, repeat: Repeat::AtMost(2), cooldown: 0 }, ]), Next::Rand(&[ Branch { to: 2, weight: 1, repeat: Repeat::NotTwice, cooldown: 0 }, Branch { to: 1, weight: 1, repeat: Repeat::AtMost(2), cooldown: 0 }, Branch { to: 0, weight: 1, repeat: Repeat::AtMost(2), cooldown: 0 }, ])], }), moves: &[ EnemyMove { name: "撞击", intent: "Attack", ops: &[EOp::Attack { base: 15, hits: 1 }] }, EnemyMove { name: "连枷", intent: "Attack", ops: &[EOp::Attack { base: 9, hits: 2 }] }, EnemyMove { name: "战争吟唱", intent: "Buff", ops: &[EOp::SelfStatus { st: St::Strength, amt: 3 }] }, ], },
        89 => EnemyDef { name: "幽灵骑士", max_hp: 93, start_status: &[], loop_from: 0, machine: Some(&Machine { start: Next::Go(0), after: &[Next::Go(1), Next::Rand(&[ Branch { to: 1, weight: 1, repeat: Repeat::AtMost(2), cooldown: 0 }, Branch { to: 2, weight: 1, repeat: Repeat::NotTwice, cooldown: 0 }, ]), Next::Rand(&[ Branch { to: 1, weight: 1, repeat: Repeat::AtMost(2), cooldown: 0 }, Branch { to: 2, weight: 1, repeat: Repeat::NotTwice, cooldown: 0 }, ])], }), moves: &[ EnemyMove { name: "恶咒", intent: "Debuff", ops: &[EOp::PlayerStatus { st: St::Hex, amt: 2 }] }, EnemyMove { name: "灵魂斩击", intent: "Attack", ops: &[EOp::Attack { base: 15, hits: 1 }] }, EnemyMove { name: "灵魂火焰", intent: "Attack", ops: &[EOp::Attack { base: 3, hits: 3 }] }, ], },
        90 => EnemyDef { name: "魔法骑士", max_hp: 82, start_status: &[], loop_from: 2, machine: None, moves: &[ EnemyMove { name: "强力护盾", intent: "Attack", ops: &[EOp::Attack { base: 6, hits: 1 }, EOp::Block(5)] }, EnemyMove { name: "抑制", intent: "Debuff", ops: &[EOp::PlayerStatus { st: St::Dampen, amt: 1 }, EOp::DowngradeUpgradedCards] }, EnemyMove { name: "撞击", intent: "Attack", ops: &[EOp::Attack { base: 10, hits: 1 }] }, EnemyMove { name: "PREP", intent: "Defend", ops: &[EOp::Block(5)] }, EnemyMove { name: "魔法炸弹", intent: "Attack", ops: &[EOp::Attack { base: 35, hits: 1 }] }, ], },
        91 => EnemyDef { name: "熟睡甲虫", max_hp: 86, start_status: &[(St::PlatedArmor, 15), (St::Slumber, 3)], loop_from: 0, machine: Some(&Machine { start: Next::Go(0), after: &[ Next::Cond(&[ (ECond::SelfStatusAtLeast(St::Slumber, 2), 0), (ECond::SelfStatusBelow(St::Slumber, 2), 1), ]), Next::Go(1), Next::Go(1), ], }), moves: &[ EnemyMove { name: "打鼾", intent: "Sleep", ops: &[EOp::Nothing] }, EnemyMove { name: "出击", intent: "Attack", ops: &[EOp::Attack { base: 16, hits: 1 }, EOp::SelfStatus { st: St::Strength, amt: 2 }] }, EnemyMove { name: "醒来", intent: "Stun", ops: &[EOp::ClearSelfStatus(St::PlatedArmor)] }, ], },
        92 => EnemyDef { name: "乐加维林族母", max_hp: 222, start_status: &[(St::PlatedArmor, 12), (St::Asleep, 3)], loop_from: 0, machine: Some(&Machine { start: Next::Go(0), after: &[ Next::Cond(&[ (ECond::SelfStatusAtLeast(St::Asleep, 2), 0), (ECond::SelfStatusBelow(St::Asleep, 2), 1), ]), Next::Go(2), Next::Go(3), Next::Go(4), Next::Go(1), Next::Go(1), ], }), moves: &[ EnemyMove { name: "沉睡", intent: "Sleep", ops: &[EOp::Nothing] }, EnemyMove { name: "斩击", intent: "Attack", ops: &[EOp::Attack { base: 19, hits: 1 }] }, EnemyMove { name: "开膛破肚", intent: "Attack", ops: &[EOp::Attack { base: 9, hits: 2 }] }, EnemyMove { name: "斩击2", intent: "Attack", ops: &[EOp::Attack { base: 12, hits: 1 }, EOp::Block(12)] }, EnemyMove { name: "灵魂汲取", intent: "Debuff", ops: &[EOp::PlayerStatus { st: St::Strength, amt: -2i32 }, EOp::PlayerStatus { st: St::Dexterity, amt: -2i32 }, EOp::SelfStatus { st: St::Strength, amt: 2 }] }, EnemyMove { name: "醒来", intent: "Stun", ops: &[EOp::Nothing] }, ], },
        93 => EnemyDef { name: "墨影幻灵", max_hp: 173, start_status: &[(St::Slippery, 8)], loop_from: 0, machine: None, moves: &[ EnemyMove { name: "墨迹", intent: "Attack", ops: &[EOp::Attack { base: 7, hits: 1 }] }, EnemyMove { name: "墨水长枪", intent: "Attack", ops: &[EOp::Attack { base: 6, hits: 2 }] }, EnemyMove { name: "肢解", intent: "Attack", ops: &[EOp::Attack { base: 26, hits: 1 }, EOp::AddCardToDiscard { card: card::WOUND, count: 3 }] }, EnemyMove { name: "准备", intent: "Buff", ops: &[EOp::SelfStatus { st: St::Strength, amt: 2 }] }, ], },
        94 => EnemyDef { name: "墨宝", max_hp: 14, start_status: &[(St::Slippery, 1)], loop_from: 0, machine: Some(&Machine { start: Next::Cond(&[(ECond::SlotIs(1), 1), (ECond::SlotIs(0), 0), (ECond::SlotIs(2), 0)]), after: &[ Next::Rand(&[ Branch { to: 2, weight: 1, repeat: Repeat::NotTwice, cooldown: 0 }, Branch { to: 1, weight: 1, repeat: Repeat::NotTwice, cooldown: 0 }, ]), Next::Go(0), Next::Go(0), ], }), moves: &[ EnemyMove { name: "刺击", intent: "Attack", ops: &[EOp::Attack { base: 3, hits: 1 }] }, EnemyMove { name: "旋风", intent: "Attack", ops: &[EOp::Attack { base: 2, hits: 3 }] }, EnemyMove { name: "锐利凝视", intent: "Attack", ops: &[EOp::Attack { base: 10, hits: 1 }] }, ], },
        95 => EnemyDef { name: "鬼祟珊瑚群", max_hp: 75, start_status: &[(St::HardenedShell, 20)], loop_from: 0, machine: None, moves: &[ EnemyMove { name: "猛冲", intent: "Attack", ops: &[EOp::Attack { base: 14, hits: 1 }] }, EnemyMove { name: "猛冲2", intent: "Attack", ops: &[EOp::Attack { base: 14, hits: 1 }] }, EnemyMove { name: "惯性", intent: "Attack", ops: &[EOp::Attack { base: 9, hits: 1 }, EOp::SelfStatus { st: St::Strength, amt: 2 }] }, EnemyMove { name: "穿刺戳击", intent: "Attack", ops: &[EOp::Attack { base: 7, hits: 2 }] }, ], },
        96 => EnemyDef { name: "幽灵船", max_hp: 63, start_status: &[], loop_from: 1, machine: None, moves: &[ EnemyMove { name: "纠缠", intent: "Debuff", ops: &[EOp::PlayerStatus { st: St::Weak, amt: 3 }, EOp::AddCardToDiscard { card: card::DAZED, count: 5 }] }, EnemyMove { name: "扫击", intent: "Attack", ops: &[EOp::Attack { base: 13, hits: 1 }] }, EnemyMove { name: "践踏", intent: "Attack", ops: &[EOp::Attack { base: 4, hits: 3 }] }, ], },
        97 => EnemyDef { name: "蟾蜍蝌蚪", max_hp: 23, start_status: &[], loop_from: 0, machine: Some(&Machine { start: Next::Cond(&[(ECond::SlotIs(0), 2), (ECond::SlotIs(1), 1)]), after: &[Next::Go(1), Next::Go(2), Next::Go(0)], }), moves: &[ EnemyMove { name: "吐刺", intent: "Attack", ops: &[EOp::SelfStatus { st: St::Thorns, amt: -2i32 }, EOp::Attack { base: 3, hits: 3 }] }, EnemyMove { name: "旋转", intent: "Attack", ops: &[EOp::Attack { base: 7, hits: 1 }] }, EnemyMove { name: "带刺", intent: "Buff", ops: &[EOp::SelfStatus { st: St::Thorns, amt: 2 }] }, ], },
        98 => EnemyDef { name: "化石追踪者", max_hp: 52, start_status: &[(St::Suck, 3)], loop_from: 0, machine: Some(&Machine { start: Next::Go(1), after: &[ Next::Rand(&[ Branch { to: 1, weight: 1, repeat: Repeat::AtMost(2), cooldown: 0 }, Branch { to: 0, weight: 1, repeat: Repeat::AtMost(2), cooldown: 0 }, Branch { to: 2, weight: 1, repeat: Repeat::AtMost(2), cooldown: 0 }, ]), Next::Rand(&[ Branch { to: 1, weight: 1, repeat: Repeat::AtMost(2), cooldown: 0 }, Branch { to: 0, weight: 1, repeat: Repeat::AtMost(2), cooldown: 0 }, Branch { to: 2, weight: 1, repeat: Repeat::AtMost(2), cooldown: 0 }, ]), Next::Rand(&[ Branch { to: 1, weight: 1, repeat: Repeat::AtMost(2), cooldown: 0 }, Branch { to: 0, weight: 1, repeat: Repeat::AtMost(2), cooldown: 0 }, Branch { to: 2, weight: 1, repeat: Repeat::AtMost(2), cooldown: 0 }, ]), ], }), moves: &[ EnemyMove { name: "冲撞", intent: "Attack", ops: &[EOp::Attack { base: 9, hits: 1 }, EOp::PlayerStatus { st: St::Frail, amt: 1 }] }, EnemyMove { name: "缠上", intent: "Attack", ops: &[EOp::Attack { base: 12, hits: 1 }] }, EnemyMove { name: "甩动", intent: "Attack", ops: &[EOp::Attack { base: 3, hits: 2 }] }, ], },
        99 => EnemyDef { name: "地精佣兵", max_hp: 48, start_status: &[(St::Surprise, 1), (St::Thievery, 20)], loop_from: 0, machine: None, moves: &[ EnemyMove { name: "拿来", intent: "Attack", ops: &[EOp::Attack { base: 7, hits: 2 }] }, EnemyMove { name: "双重猛击", intent: "Attack", ops: &[EOp::Attack { base: 6, hits: 2 }, EOp::PlayerStatus { st: St::Weak, amt: 2 }] }, EnemyMove { name: "嘿嘿", intent: "Attack", ops: &[EOp::Attack { base: 8, hits: 1 }, EOp::SelfStatus { st: St::Strength, amt: 2 }] }, ], },
        100 => EnemyDef { name: "卑鄙地精", max_hp: 12, start_status: &[], loop_from: 1, machine: None, moves: &[ EnemyMove { name: "醒来", intent: "Stun", ops: &[EOp::Nothing] }, EnemyMove { name: "冲撞", intent: "Attack", ops: &[EOp::Attack { base: 9, hits: 1 }] }, ], },
        101 => EnemyDef { name: "胖地精", max_hp: 15, start_status: &[], loop_from: 1, machine: None, moves: &[ EnemyMove { name: "醒来", intent: "Stun", ops: &[EOp::Nothing] }, EnemyMove { name: "逃跑", intent: "Escape", ops: &[EOp::Nothing] }, ], },
        102 => EnemyDef { name: "藤蔓蹒跚者", max_hp: 61, start_status: &[], loop_from: 0, machine: None, moves: &[ EnemyMove { name: "挥击", intent: "Attack", ops: &[EOp::Attack { base: 6, hits: 2 }] }, EnemyMove { name: "紧绕藤蔓", intent: "Attack", ops: &[EOp::Attack { base: 8, hits: 1 }, EOp::PlayerStatus { st: St::Tangled, amt: 1 }] }, EnemyMove { name: "大啃", intent: "Attack", ops: &[EOp::Attack { base: 16, hits: 1 }] }, ], },
        103 => EnemyDef { name: "劫掠者刺客", max_hp: 20, start_status: &[], loop_from: 0, machine: None, moves: &[ EnemyMove { name: "致命射击", intent: "Attack", ops: &[EOp::Attack { base: 10, hits: 1 }] }, ], },
        _ => EnemyDef { name: "劫掠者暴徒", max_hp: 31, start_status: &[], loop_from: 0, machine: None, moves: &[ EnemyMove { name: "殴打", intent: "Attack", ops: &[EOp::Attack { base: 7, hits: 1 }] }, EnemyMove { name: "怒吼", intent: "Buff", ops: &[EOp::SelfStatus { st: St::Strength, amt: 3 }] }, ], },
    }
}

/// The definition of enemy `i`.
pub fn enemy_at(i: u16) -> (r: &'static EnemyDef)
    requires
        i < ENEMY_COUNT,
    ensures
        *r == enemy_row(i),
{
    if i < 12 {
        enemy_at_0(i)
    } else if i < 24 {
        enemy_at_1(i)
    } else if i < 36 {
        enemy_at_2(i)
    } else if i < 48 {
        enemy_at_3(i)
    } else if i < 60 {
        enemy_at_4(i)
    } else if i < 72 {
        enemy_at_5(i)
    } else if i < 84 {
        enemy_at_6(i)
    } else if i < 96 {
        enemy_at_7(i)
    } else {
        enemy_at_8(i)
    }
}

fn enemy_at_0(i: u16) -> (r: &'static EnemyDef)
    requires
        0 <= i <= 11,
    ensures
        *r == enemy_row(i),
{
    proof {
        reveal(enemy_row);
    }
    match i {
        0 => &EnemyDef { name: "<合成:沙包>", max_hp: 100, start_status: &[], loop_from: 0, machine: None, moves: &[EnemyMove { name: "攻势", intent: "Attack", ops: &[EOp::Attack { base: 12, hits: 1 }] }], },
        1 => &EnemyDef { name: "<合成:难以杀灭9>", max_hp: 22, start_status: &[(St::DamageCap, 9)], loop_from: 0, machine: None, moves: &[EnemyMove { name: "攻势", intent: "Attack", ops: &[EOp::Attack { base: 6, hits: 1 }] }], },
        2 => &EnemyDef { name: "<合成:激怒2>", max_hp: 100, start_status: &[(St::Rage, 2)], loop_from: 0, machine: None, moves: &[EnemyMove { name: "攻势", intent: "Attack", ops: &[EOp::Attack { base: 15, hits: 1 }] }], },
        3 => &EnemyDef { name: "<未知敌人>", max_hp: 0, start_status: &[], loop_from: 0, machine: None, moves: &[EnemyMove { name: "无", intent: "", ops: &[EOp::Nothing] }], },
        4 => &EnemyDef { name: "小啃兽", max_hp: 44, start_status: &[], loop_from: 0, machine: Some(&Machine { start: Next::Cond(&[(ECond::Alone, 0), (ECond::NotFront, 2), (ECond::Front, 1)]), after: &[Next::Go(1), Next::Go(2), Next::Go(0)], }), moves: &[ EnemyMove { name: "撞击", intent: "Attack", ops: &[EOp::Attack { base: 12, hits: 1 }] }, EnemyMove { name: "啃咬并戒备", intent: "Attack", ops: &[EOp::Attack { base: 6, hits: 1 }, EOp::Block(5)] }, EnemyMove { name: "嘶鸣", intent: "Buff", ops: &[EOp::SelfStatus { st: St::Strength, amt: 2 }] }, ], },
        5 => &EnemyDef { name: "旧日雕像", max_hp: 127, start_status: &[(St::SlowSource, 10)], loop_from: 2, machine: None, moves: &[ EnemyMove { name: "沉睡", intent: "Sleep", ops: &[EOp::Nothing] }, EnemyMove { name: "苏醒", intent: "Buff", ops: &[EOp::SelfStatus { st: St::Strength, amt: 10 }] }, EnemyMove { name: "挥砍", intent: "Attack", ops: &[EOp::Attack { base: 13, hits: 1 }] }, ], },
        6 => &EnemyDef { name: "缩小甲虫", max_hp: 40, start_status: &[], loop_from: 1, machine: None, moves: &[ EnemyMove { name: "缩小", intent: "DebuffStrong", ops: &[EOp::PlayerStatus { st: St::Shrink, amt: -1 }] }, EnemyMove { name: "啃咬", intent: "Attack", ops: &[EOp::Attack { base: 7, hits: 1 }] }, EnemyMove { name: "踩踏", intent: "Attack", ops: &[EOp::Attack { base: 13, hits: 1 }] }, ], },
        7 => &EnemyDef { name: "立柱构造体", max_hp: 65, start_status: &[(St::Artifact, 1)], loop_from: 0, machine: None, moves: &[ EnemyMove { name: "充能", intent: "Buff", ops: &[EOp::SelfStatus { st: St::Strength, amt: 2 }] }, EnemyMove { name: "连发", intent: "Attack", ops: &[EOp::Attack { base: 7, hits: 1 }, EOp::SelfStatus { st: St::Strength, amt: 2 }] }, EnemyMove { name: "连发", intent: "Attack", ops: &[EOp::Attack { base: 7, hits: 1 }, EOp::SelfStatus { st: St::Strength, amt: 2 }] }, EnemyMove { name: "排射", intent: "Attack", ops: &[EOp::Attack { base: 5, hits: 2 }] }, EnemyMove { name: "潜伏", intent: "Defend", ops: &[EOp::Block(15)] }, ], },
        8 => &EnemyDef { name: "毛绒伏地虫", max_hp: 56, start_status: &[], loop_from: 1, machine: None, moves: &[ EnemyMove { name: "酸液", intent: "Attack", ops: &[EOp::Attack { base: 4, hits: 1 }] }, EnemyMove { name: "吸气", intent: "Buff", ops: &[EOp::SelfStatus { st: St::Strength, amt: 7 }] }, EnemyMove { name: "酸液", intent: "Attack", ops: &[EOp::Attack { base: 4, hits: 1 }] }, EnemyMove { name: "酸液", intent: "Attack", ops: &[EOp::Attack { base: 4, hits: 1 }] }, ], },
        9 => &EnemyDef { name: "树叶史莱姆（小）", max_hp: 13, start_status: &[], loop_from: 0, machine: Some(&Machine { start: Next::Rand(&[ Branch { to: 0, weight: 1, repeat: Repeat::NotTwice, cooldown: 0 }, Branch { to: 1, weight: 1, repeat: Repeat::NotTwice, cooldown: 0 }, ]), after: &[ Next::Rand(&[ Branch { to: 0, weight: 1, repeat: Repeat::NotTwice, cooldown: 0 }, Branch { to: 1, weight: 1, repeat: Repeat::NotTwice, cooldown: 0 }, ]), Next::Rand(&[ Branch { to: 0, weight: 1, repeat: Repeat::NotTwice, cooldown: 0 }, Branch { to: 1, weight: 1, repeat: Repeat::NotTwice, cooldown: 0 }, ]), ], }), moves: &[ EnemyMove { name: "撞击", intent: "Attack", ops: &[EOp::Attack { base: 3, hits: 1 }] }, EnemyMove { name: "吐黏液", intent: "StatusCard", ops: &[EOp::AddCardToDiscard { card: card::SLIMED, count: 1 }] }, ], },
        10 => &EnemyDef { name: "树叶史莱姆（中）", max_hp: 34, start_status: &[], loop_from: 0, machine: None, moves: &[ EnemyMove { name: "吐黏液", intent: "StatusCard", ops: &[EOp::AddCardToDiscard { card: card::SLIMED, count: 2 }] }, EnemyMove { name: "团射", intent: "Attack", ops: &[EOp::Attack { base: 8, hits: 1 }] }, ], },
        _ => &EnemyDef { name: "树枝史莱姆（小）", max_hp: 10, start_status: &[], loop_from: 0, machine: None, moves: &[EnemyMove { name: "撞击", intent: "Attack", ops: &[EOp::Attack { base: 4, hits: 1 }] }], },
    }
}

fn enemy_at_1(i: u16) -> (r: &'static EnemyDef)
    requires
        12 <= i <= 23,
    ensures
        *r == enemy_row(i),
{
    proof {
        reveal(enemy_row);
    }
    match i {
        12 => &EnemyDef { name: "树枝史莱姆（中）", max_hp: 28, start_status: &[], loop_from: 0, machine: Some(&Machine { start: Next::Go(0), after: &[ Next::Rand(&[ Branch { to: 1, weight: 1, repeat: Repeat::AtMost(2), cooldown: 0 }, Branch { to: 0, weight: 1, repeat: Repeat::NotTwice, cooldown: 0 }, ]), Next::Rand(&[ Branch { to: 1, weight: 1, repeat: Repeat::AtMost(2), cooldown: 0 }, Branch { to: 0, weight: 1, repeat: Repeat::NotTwice, cooldown: 0 }, ]), ], }), moves: &[ EnemyMove { name: "吐黏液", intent: "StatusCard", ops: &[EOp::AddCardToDiscard { card: card::SLIMED, count: 1 }] }, EnemyMove { name: "团射", intent: "Attack", ops: &[EOp::Attack { base: 11, hits: 1 }] }, ], },
        13 => &EnemyDef { name: "劫掠者弩手", max_hp: 18, start_status: &[], loop_from: 0, machine: None, moves: &[ EnemyMove { name: "装填", intent: "Defend", ops: &[EOp::Block(3)] }, EnemyMove { name: "射击", intent: "Attack", ops: &[EOp::Attack { base: 14, hits: 1 }] }, ], },
        14 => &EnemyDef { name: "劫掠者斧手", max_hp: 20, start_status: &[], loop_from: 0, machine: None, moves: &[ EnemyMove { name: "劈砍并戒备", intent: "Attack", ops: &[EOp::Attack { base: 5, hits: 1 }, EOp::Block(5)] }, EnemyMove { name: "劈砍并戒备", intent: "Attack", ops: &[EOp::Attack { base: 5, hits: 1 }, EOp::Block(5)] }, EnemyMove { name: "重劈", intent: "Attack", ops: &[EOp::Attack { base: 12, hits: 1 }] }, ], },
        15 => &EnemyDef { name: "劫掠者追踪手", max_hp: 24, start_status: &[], loop_from: 1, machine: None, moves: &[ EnemyMove { name: "追踪", intent: "Debuff", ops: &[EOp::PlayerStatus { st: St::Frail, amt: 2 }] }, EnemyMove { name: "放狗", intent: "Attack", ops: &[EOp::Attack { base: 1, hits: 8 }] }, ], },
        16 => &EnemyDef { name: "飞蝇菌子", max_hp: 47, start_status: &[], loop_from: 0, machine: Some(&Machine { start: Next::Rand(&[ Branch { to: 0, weight: 1, repeat: Repeat::NotTwice, cooldown: 2 }, Branch { to: 1, weight: 1, repeat: Repeat::NotTwice, cooldown: 0 }, ]), after: &[Next::Rand(&[ Branch { to: 2, weight: 1, repeat: Repeat::NotTwice, cooldown: 3 }, Branch { to: 0, weight: 1, repeat: Repeat::NotTwice, cooldown: 2 }, Branch { to: 1, weight: 1, repeat: Repeat::NotTwice, cooldown: 0 }, ]), Next::Rand(&[ Branch { to: 2, weight: 1, repeat: Repeat::NotTwice, cooldown: 3 }, Branch { to: 0, weight: 1, repeat: Repeat::NotTwice, cooldown: 2 }, Branch { to: 1, weight: 1, repeat: Repeat::NotTwice, cooldown: 0 }, ]), Next::Rand(&[ Branch { to: 2, weight: 1, repeat: Repeat::NotTwice, cooldown: 3 }, Branch { to: 0, weight: 1, repeat: Repeat::NotTwice, cooldown: 2 }, Branch { to: 1, weight: 1, repeat: Repeat::NotTwice, cooldown: 0 }, ])], }), moves: &[ EnemyMove { name: "脆弱孢子", intent: "Attack", ops: &[EOp::Attack { base: 8, hits: 1 }, EOp::PlayerStatus { st: St::Frail, amt: 2 }] }, EnemyMove { name: "撞击", intent: "Attack", ops: &[EOp::Attack { base: 11, hits: 1 }] }, EnemyMove { name: "易伤孢子", intent: "Debuff", ops: &[EOp::PlayerStatus { st: St::Vulnerable, amt: 2 }] }, ], },
        17 => &EnemyDef { name: "雾菇", max_hp: 74, start_status: &[], loop_from: 1, machine: Some(&Machine { start: Next::Go(0), after: &[ Next::Go(1), Next::Rand(&[ Branch { to: 3, weight: 2, repeat: Repeat::NotTwice, cooldown: 0 }, Branch { to: 2, weight: 3, repeat: Repeat::NotTwice, cooldown: 0 }, ]), Next::Go(1), Next::Go(2), ], }), moves: &[ EnemyMove { name: "幻象", intent: "Summon", ops: &[EOp::Summon { def: enemy::EYE_WITH_TEETH, hp: 6 }] }, EnemyMove { name: "挥爪", intent: "Attack", ops: &[EOp::Attack { base: 8, hits: 1 }, EOp::SelfStatus { st: St::Strength, amt: 1 }] }, EnemyMove { name: "头槌", intent: "Attack", ops: &[EOp::Attack { base: 14, hits: 1 }] }, EnemyMove { name: "挥爪", intent: "Attack", ops: &[EOp::Attack { base: 8, hits: 1 }, EOp::SelfStatus { st: St::Strength, amt: 1 }] }, ], },
        18 => &EnemyDef { name: "利齿之眼", max_hp: 6, start_status: &[(St::Minion, 1), (St::Illusion, 1)], loop_from: 1, machine: Some(&Machine { start: Next::Go(1), after: &[Next::Go(1), Next::Go(1)] }), moves: &[ EnemyMove { name: "复苏", intent: "Heal", ops: &[EOp::Nothing] }, EnemyMove { name: "扰乱", intent: "StatusCard", ops: &[EOp::AddCardToDiscard { card: card::DAZED, count: 3 }] }, ], },
        19 => &EnemyDef { name: "同族神官", max_hp: 190, start_status: &[], loop_from: 0, machine: None, moves: &[ EnemyMove { name: "脆弱法球", intent: "Attack", ops: &[EOp::Attack { base: 8, hits: 1 }, EOp::PlayerStatus { st: St::Frail, amt: 1 }] }, EnemyMove { name: "虚弱法球", intent: "Attack", ops: &[EOp::Attack { base: 8, hits: 1 }, EOp::PlayerStatus { st: St::Weak, amt: 1 }] }, EnemyMove { name: "光束", intent: "Attack", ops: &[EOp::Attack { base: 3, hits: 3 }] }, EnemyMove { name: "仪式", intent: "Buff", ops: &[EOp::SelfStatus { st: St::Strength, amt: 2 }] }, ], },
        20 => &EnemyDef { name: "同族信徒", max_hp: 59, start_status: &[(St::Minion, 1)], loop_from: 0, machine: Some(&Machine { start: Next::Rand(&[ Branch { to: 0, weight: 1, repeat: Repeat::Forever, cooldown: 0 }, Branch { to: 2, weight: 1, repeat: Repeat::Forever, cooldown: 0 }, ]), after: &[Next::Go(1), Next::Go(2), Next::Go(0)], }), moves: &[ EnemyMove { name: "快斩", intent: "Attack", ops: &[EOp::Attack { base: 5, hits: 1 }] }, EnemyMove { name: "回旋镖", intent: "Attack", ops: &[EOp::Attack { base: 2, hits: 2 }] }, EnemyMove { name: "战舞", intent: "Buff", ops: &[EOp::SelfStatus { st: St::Strength, amt: 2 }] }, ], },
        21 => &EnemyDef { name: "盛碗虫（石）", max_hp: 45, start_status: &[(St::Imbalanced, 1)], loop_from: 0, machine: Some(&Machine { start: Next::Go(0), after: &[Next::Cond(&[(ECond::OffBalance, 1), (ECond::NotOffBalance, 0)]), Next::Go(0)], }), moves: &[ EnemyMove { name: "头槌", intent: "Attack", ops: &[EOp::Attack { base: 15, hits: 1 }] }, EnemyMove { name: "晕眩", intent: "Stun", ops: &[EOp::ClearSelfStatus(St::OffBalance)] }, ], },
        22 => &EnemyDef { name: "盛碗虫（卵）", max_hp: 22, start_status: &[], loop_from: 0, machine: None, moves: &[EnemyMove { name: "撕咬并戒备", intent: "Attack", ops: &[EOp::Attack { base: 7, hits: 1 }, EOp::Block(7)] }], },
        _ => &EnemyDef { name: "偷窃草蜢", max_hp: 79, start_status: &[(St::EscapeArtist, 5)], loop_from: 4, machine: None, moves: &[ EnemyMove { name: "偷盗", intent: "Attack", ops: &[EOp::Attack { base: 17, hits: 1 }, EOp::StealCard(1)] }, EnemyMove { name: "扑翼", intent: "Buff", ops: &[EOp::SelfStatus { st: St::Flutter, amt: 5 }] }, EnemyMove { name: "帽子戏法", intent: "Attack", ops: &[EOp::Attack { base: 21, hits: 1 }] }, EnemyMove { name: "抓取", intent: "Attack", ops: &[EOp::Attack { base: 14, hits: 1 }] }, EnemyMove { name: "逃跑", intent: "Escape", ops: &[EOp::Nothing] }, ], },
    }
}

fn enemy_at_2(i: u16) -> (r: &'static EnemyDef)
    requires
        24 <= i <= 35,
    ensures
        *r == enemy_row(i),
{
    proof {
        reveal(enemy_row);
    }
    match i {
        24 => &EnemyDef { name: "盛碗虫（蜜）", max_hp: 38, start_status: &[], loop_from: 1, machine: None, moves: &[ EnemyMove { name: "猛击", intent: "Attack", ops: &[EOp::Attack { base: 3, hits: 1 }] }, EnemyMove { name: "强化", intent: "Buff", ops: &[EOp::SelfStatus { st: St::Strength, amt: 15 }] }, EnemyMove { name: "猛击", intent: "Attack", ops: &[EOp::Attack { base: 3, hits: 1 }] }, ], },
        25 => &EnemyDef { name: "盛碗虫（丝）", max_hp: 43, start_status: &[], loop_from: 0, machine: None, moves: &[ EnemyMove { name: "毒唾液", intent: "Debuff", ops: &[EOp::PlayerStatus { st: St::Weak, amt: 1 }] }, EnemyMove { name: "猛击", intent: "Attack", ops: &[EOp::Attack { base: 8, hits: 1 }] }, ], },
        26 => &EnemyDef { name: "啃咬机", max_hp: 62, start_status: &[(St::Artifact, 2)], loop_from: 0, machine: Some(&Machine { start: Next::Rand(&[ Branch { to: 0, weight: 1, repeat: Repeat::Forever, cooldown: 0 }, Branch { to: 1, weight: 1, repeat: Repeat::Forever, cooldown: 0 }, ]), after: &[Next::Go(1), Next::Go(0)], }), moves: &[ EnemyMove { name: "钳夹", intent: "Attack", ops: &[EOp::Attack { base: 8, hits: 2 }] }, EnemyMove { name: "尖啸", intent: "StatusCard", ops: &[EOp::AddCardToDiscard { card: card::DAZED, count: 3 }] }, ], },
        27 => &EnemyDef { name: "虱虫之祖", max_hp: 134, start_status: &[(St::CurlUp, 14)], loop_from: 0, machine: None, moves: &[ EnemyMove { name: "蛛网大炮", intent: "Attack", ops: &[EOp::Attack { base: 9, hits: 1 }, EOp::PlayerStatus { st: St::Frail, amt: 2 }] }, EnemyMove { name: "蜷缩生长", intent: "Defend", ops: &[EOp::Block(14), EOp::SelfStatus { st: St::Strength, amt: 5 }] }, EnemyMove { name: "扑击", intent: "Attack", ops: &[EOp::Attack { base: 14, hits: 1 }] }, ], },
        28 => &EnemyDef { name: "异螨", max_hp: 67, start_status: &[], loop_from: 0, machine: Some(&Machine { start: Next::Cond(&[(ECond::SlotIs(0), 0), (ECond::SlotIs(1), 2)]), after: &[Next::Go(1), Next::Go(2), Next::Go(0)], }), moves: &[ EnemyMove { name: "浓毒", intent: "StatusCard", ops: &[EOp::AddCardToHand { card: card::TOXIC, count: 2 }] }, EnemyMove { name: "啃咬", intent: "Attack", ops: &[EOp::Attack { base: 13, hits: 1 }] }, EnemyMove { name: "吸吮", intent: "Attack", ops: &[EOp::Attack { base: 4, hits: 1 }, EOp::SelfStatus { st: St::Strength, amt: 2 }] }, ], },
        29 => &EnemyDef { name: "直飞产卵虫", max_hp: 130, start_status: &[], loop_from: 0, machine: Some(&Machine { start: Next::Go(0), after: &[ Next::Go(1), Next::Go(2), Next::Cond(&[(ECond::Unknown, 0), (ECond::Unknown, 3)]), Next::Go(1), ], }), moves: &[ EnemyMove { name: "产卵", intent: "Summon", ops: &[EOp::Summon { def: enemy::TOUGH_EGG, hp: 18 }, EOp::Summon { def: enemy::TOUGH_EGG, hp: 18 }, EOp::Summon { def: enemy::TOUGH_EGG, hp: 18 }] }, EnemyMove { name: "摧毁", intent: "Attack", ops: &[EOp::Attack { base: 16, hits: 1 }] }, EnemyMove { name: "嫩化", intent: "Attack", ops: &[EOp::Attack { base: 7, hits: 1 }, EOp::PlayerStatus { st: St::Vulnerable, amt: 2 }] }, EnemyMove { name: "营养糊", intent: "Buff", ops: &[EOp::SelfStatus { st: St::Strength, amt: 3 }] }, ], },
        30 => &EnemyDef { name: "棘蟾", max_hp: 118, start_status: &[], loop_from: 0, machine: None, moves: &[ EnemyMove { name: "突刺荆棘", intent: "Buff", ops: &[EOp::SelfStatus { st: St::Thorns, amt: 5 }] }, EnemyMove { name: "尖刺爆炸", intent: "Attack", ops: &[EOp::Attack { base: 23, hits: 1 }, EOp::SelfStatus { st: St::Thorns, amt: -5 }] }, EnemyMove { name: "舌刺", intent: "Attack", ops: &[EOp::Attack { base: 17, hits: 1 }] }, ], },
        31 => &EnemyDef { name: "蜂后", max_hp: 400, start_status: &[], loop_from: 2, machine: None, moves: &[ EnemyMove { name: "傀儡丝线", intent: "Debuff", ops: &[EOp::PlayerStatus { st: St::Weak, amt: 3 }] }, EnemyMove { name: "为我燃烧", intent: "Buff", ops: &[EOp::Block(20), EOp::SelfStatus { st: St::Strength, amt: 1 }] }, EnemyMove { name: "斩首", intent: "Attack", ops: &[EOp::Attack { base: 3, hits: 5 }] }, EnemyMove { name: "处决", intent: "Attack", ops: &[EOp::Attack { base: 15, hits: 1 }] }, EnemyMove { name: "狂怒", intent: "Buff", ops: &[EOp::SelfStatus { st: St::Strength, amt: 2 }] }, ], },
        32 => &EnemyDef { name: "造门者", max_hp: 489, start_status: &[], loop_from: 0, machine: None, moves: &[ EnemyMove { name: "射线", intent: "Attack", ops: &[EOp::Attack { base: 31, hits: 1 }] }, EnemyMove { name: "退回门中", intent: "Attack", ops: &[EOp::Attack { base: 40, hits: 1 }, EOp::SelfStatus { st: St::Strength, amt: 5 }] }, ], },
        33 => &EnemyDef { name: "知识恶魔", max_hp: 379, start_status: &[], loop_from: 0, machine: Some(&Machine { start: Next::Go(0), after: &[ Next::Go(1), Next::Go(2), Next::Go(3), Next::Cond(&[ (ECond::CursesTakenBelow(&[ CurseSet { disintegration: 6, other: St::MindRot, other_amt: 1, other_max_energy: 0 }, CurseSet { disintegration: 7, other: St::Sloth, other_amt: 3, other_max_energy: 0 }, CurseSet { disintegration: 8, other: St::WasteAway, other_amt: 1, other_max_energy: -1 }, ], 3), 0), (ECond::CursesTakenAtLeast(&[ CurseSet { disintegration: 6, other: St::MindRot, other_amt: 1, other_max_energy: 0 }, CurseSet { disintegration: 7, other: St::Sloth, other_amt: 3, other_max_energy: 0 }, CurseSet { disintegration: 8, other: St::WasteAway, other_amt: 1, other_max_energy: -1 }, ], 3), 1), ]), ], }), moves: &[ EnemyMove { name: "知识的诅咒", intent: "Debuff", ops: &[EOp::CurseOfKnowledge(&[ CurseSet { disintegration: 6, other: St::MindRot, other_amt: 1, other_max_energy: 0 }, CurseSet { disintegration: 7, other: St::Sloth, other_amt: 3, other_max_energy: 0 }, CurseSet { disintegration: 8, other: St::WasteAway, other_amt: 1, other_max_energy: -1 }, ])] }, EnemyMove { name: "抽打", intent: "Attack", ops: &[EOp::Attack { base: 17, hits: 1 }] }, EnemyMove { name: "知识过载", intent: "Attack", ops: &[EOp::Attack { base: 8, hits: 3 }] }, EnemyMove { name: "思考", intent: "Attack", ops: &[EOp::Attack { base: 11, hits: 1 }, EOp::Heal(30), EOp::SelfStatus { st: St::Strength, amt: 2 }] }, ], },
        34 => &EnemyDef { name: "碾碎爪", max_hp: 209, start_status: &[(St::BackAttackLeft, 1), (St::CrabRage, 1)], loop_from: 0, machine: None, moves: &[ EnemyMove { name: "摧折", intent: "Attack", ops: &[EOp::Attack { base: 12, hits: 1 }] }, EnemyMove { name: "增幅打击", intent: "Attack", ops: &[EOp::Attack { base: 4, hits: 1 }] }, EnemyMove { name: "虫刺", intent: "Attack", ops: &[EOp::Attack { base: 6, hits: 2 }, EOp::PlayerStatus { st: St::Weak, amt: 2 }, EOp::PlayerStatus { st: St::Frail, amt: 2 }] }, EnemyMove { name: "适应", intent: "Buff", ops: &[EOp::SelfStatus { st: St::Strength, amt: 2 }] }, EnemyMove { name: "戒备打击", intent: "Attack", ops: &[EOp::Attack { base: 12, hits: 1 }, EOp::Block(18)] }, ], },
        _ => &EnemyDef { name: "火箭", max_hp: 199, start_status: &[(St::BackAttackRight, 1), (St::CrabRage, 1)], loop_from: 0, machine: None, moves: &[ EnemyMove { name: "瞄准镜", intent: "Attack", ops: &[EOp::Attack { base: 3, hits: 1 }] }, EnemyMove { name: "精准光束", intent: "Attack", ops: &[EOp::Attack { base: 18, hits: 1 }] }, EnemyMove { name: "充能", intent: "Buff", ops: &[EOp::SelfStatus { st: St::Strength, amt: 2 }] }, EnemyMove { name: "激光", intent: "Attack", ops: &[EOp::Attack { base: 31, hits: 1 }] }, EnemyMove { name: "充电", intent: "Sleep", ops: &[EOp::Nothing] }, ], },
    }
}

fn enemy_at_3(i: u16) -> (r: &'static EnemyDef)
    requires
        36 <= i <= 47,
    ensures
        *r == enemy_row(i),
{
    proof {
        reveal(enemy_row);
    }
    match i {
        36 => &EnemyDef { name: "蛮兽", max_hp: 72, start_status: &[], loop_from: 0, machine: Some(&Machine { start: Next::Go(2), after: &[Next::Rand(&[ Branch { to: 0, weight: 1, repeat: Repeat::NotTwice, cooldown: 0 }, Branch { to: 1, weight: 1, repeat: Repeat::Once, cooldown: 0 }, Branch { to: 2, weight: 1, repeat: Repeat::NotTwice, cooldown: 0 }, ]), Next::Rand(&[ Branch { to: 0, weight: 1, repeat: Repeat::NotTwice, cooldown: 0 }, Branch { to: 1, weight: 1, repeat: Repeat::Once, cooldown: 0 }, Branch { to: 2, weight: 1, repeat: Repeat::NotTwice, cooldown: 0 }, ]), Next::Rand(&[ Branch { to: 0, weight: 1, repeat: Repeat::NotTwice, cooldown: 0 }, Branch { to: 1, weight: 1, repeat: Repeat::Once, cooldown: 0 }, Branch { to: 2, weight: 1, repeat: Repeat::NotTwice, cooldown: 0 }, ])], }), moves: &[ EnemyMove { name: "撕裂", intent: "Attack", ops: &[EOp::Attack { base: 14, hits: 1 }] }, EnemyMove { name: "咆哮", intent: "Debuff", ops: &[EOp::PlayerStatus { st: St::Vulnerable, amt: 3 }] }, EnemyMove { name: "爪击", intent: "Attack", ops: &[EOp::Attack { base: 4, hits: 2 }] }, ], },
        37 => &EnemyDef { name: "闪光贾克斯果", max_hp: 31, start_status: &[], loop_from: 0, machine: None, moves: &[ EnemyMove { name: "能量球", intent: "Attack", ops: &[EOp::Attack { base: 3, hits: 1 }, EOp::SelfStatus { st: St::Strength, amt: 2 }] }, ], },
        38 => &EnemyDef { name: "蛇行扼杀者", max_hp: 55, start_status: &[], loop_from: 0, machine: Some(&Machine { start: Next::Go(0), after: &[ Next::Rand(&[ Branch { to: 1, weight: 1, repeat: Repeat::Forever, cooldown: 0 }, Branch { to: 2, weight: 1, repeat: Repeat::Forever, cooldown: 0 }, ]), Next::Go(0), Next::Go(0), ], }), moves: &[ EnemyMove { name: "缠绕", intent: "Debuff", ops: &[EOp::PlayerStatus { st: St::Constrict, amt: 3 }] }, EnemyMove { name: "重击", intent: "Attack", ops: &[EOp::Attack { base: 7, hits: 1 }, EOp::Block(5)] }, EnemyMove { name: "鞭击", intent: "Attack", ops: &[EOp::Attack { base: 12, hits: 1 }] }, ], },
        39 => &EnemyDef { name: "扭动虫", max_hp: 19, start_status: &[], loop_from: 0, machine: Some(&Machine { start: Next::Go(0), after: &[ Next::Cond(&[(ECond::Unknown, 1), (ECond::Unknown, 2)]), Next::Go(2), Next::Go(1), ], }), moves: &[ EnemyMove { name: "眩晕", intent: "Stun", ops: &[EOp::Nothing] }, EnemyMove { name: "啃咬", intent: "Attack", ops: &[EOp::Attack { base: 6, hits: 1 }] }, EnemyMove { name: "扭动", intent: "Buff", ops: &[ EOp::AddCardToDiscard { card: card::INFECTION, count: 1 }, EOp::SelfStatus { st: St::Strength, amt: 2 }, ] }, ], },
        40 => &EnemyDef { name: "异蛙寄生虫", max_hp: 64, start_status: &[(St::Infested, 4)], loop_from: 0, machine: Some(&Machine { start: Next::Go(0), after: &[Next::Go(1), Next::Go(0)], }), moves: &[ EnemyMove { name: "感染", intent: "StatusCard", ops: &[EOp::AddCardToDiscard { card: card::INFECTION, count: 3 }] }, EnemyMove { name: "鞭击", intent: "Attack", ops: &[EOp::Attack { base: 4, hits: 4 }] }, ], },
        41 => &EnemyDef { name: "仪式兽", max_hp: 252, start_status: &[], loop_from: 0, machine: Some(&Machine { start: Next::Go(1), after: &[ Next::Cond(&[(ECond::HpAtMost(150), 2), (ECond::Unknown, 0)]), Next::Go(0), Next::Go(3), Next::Go(4), Next::Go(5), Next::Go(3), ], }), moves: &[ EnemyMove { name: "耕地", intent: "Attack", ops: &[EOp::Attack { base: 18, hits: 1 }, EOp::SelfStatus { st: St::Strength, amt: 2 }] }, EnemyMove { name: "践地", intent: "Buff", ops: &[EOp::SelfStatus { st: St::Plow, amt: 150 }] }, EnemyMove { name: "眩晕", intent: "Stun", ops: &[EOp::Nothing] }, EnemyMove { name: "兽吼", intent: "Debuff", ops: &[EOp::PlayerStatus { st: St::Ringing, amt: 1 }] }, EnemyMove { name: "践踏", intent: "Attack", ops: &[EOp::Attack { base: 15, hits: 1 }] }, EnemyMove { name: "碾碎", intent: "Attack", ops: &[EOp::Attack { base: 17, hits: 1 }, EOp::SelfStatus { st: St::Strength, amt: 3 }] }, ], },
        42 => &EnemyDef { name: "外骨骼虫", max_hp: 28, start_status: &[(St::DamageCap, 9)], loop_from: 0, machine: Some(&Machine { start: Next::Cond(&[ (ECond::SlotIs(0), 0), (ECond::SlotIs(1), 1), (ECond::SlotIs(2), 2), ]), after: &[ Next::Rand(&[ Branch { to: 0, weight: 1, repeat: Repeat::NotTwice, cooldown: 0 }, Branch { to: 1, weight: 1, repeat: Repeat::NotTwice, cooldown: 0 }, ]), Next::Go(2), Next::Rand(&[ Branch { to: 0, weight: 1, repeat: Repeat::NotTwice, cooldown: 0 }, Branch { to: 1, weight: 1, repeat: Repeat::NotTwice, cooldown: 0 }, ]), ], }), moves: &[ EnemyMove { name: "疾走", intent: "Attack", ops: &[EOp::Attack { base: 1, hits: 3 }] }, EnemyMove { name: "大颚", intent: "Attack", ops: &[EOp::Attack { base: 8, hits: 1 }] }, EnemyMove { name: "激怒", intent: "Buff", ops: &[EOp::SelfStatus { st: St::Strength, amt: 2 }] }, ], },
        43 => &EnemyDef { name: "蜂群术士", max_hp: 145, start_status: &[(St::PersonalHive, 1)], loop_from: 0, machine: Some(&Machine { start: Next::Go(0), after: &[ Next::Go(1), Next::Cond(&[ (ECond::SelfStatusBelow(St::PersonalHive, 3), 2), (ECond::SelfStatusAtLeast(St::PersonalHive, 3), 3), ]), Next::Go(0), Next::Go(0), ], }), moves: &[ EnemyMove { name: "蜜——蜂——！", intent: "Attack", ops: &[EOp::Attack { base: 3, hits: 7 }] }, EnemyMove { name: "矛击！", intent: "Attack", ops: &[EOp::Attack { base: 18, hits: 1 }] }, EnemyMove { name: "喷射信息素", intent: "Buff", ops: &[EOp::SelfStatus { st: St::PersonalHive, amt: 1 }, EOp::SelfStatus { st: St::Strength, amt: 1 }] }, EnemyMove { name: "喷射信息素", intent: "Buff", ops: &[EOp::SelfStatus { st: St::Strength, amt: 2 }] }, ], },
        44 => &EnemyDef { name: "感染棱柱", max_hp: 161, start_status: &[(St::VitalSpark, 2)], loop_from: 0, machine: None, moves: &[ EnemyMove { name: "戳刺", intent: "Attack", ops: &[EOp::Attack { base: 15, hits: 1 }] }, EnemyMove { name: "辐射", intent: "Attack", ops: &[EOp::Attack { base: 11, hits: 1 }, EOp::Block(11)] }, EnemyMove { name: "旋风", intent: "Attack", ops: &[EOp::Attack { base: 5, hits: 3 }] }, EnemyMove { name: "脉动", intent: "Attack", ops: &[EOp::Attack { base: 8, hits: 1 }, EOp::SelfStatus { st: St::VitalSpark, amt: 2 }, EOp::Block(20)] }, ], },
        45 => &EnemyDef { name: "结实的卵", max_hp: 18, start_status: &[(St::Hatch, 1)], loop_from: 1, machine: Some(&Machine { start: Next::Go(0), after: &[Next::Go(1), Next::Go(1)] }), moves: &[ EnemyMove { name: "孵化", intent: "Summon", ops: &[EOp::Nothing] }, EnemyMove { name: "啃咬", intent: "Attack", ops: &[EOp::Attack { base: 4, hits: 1 }] }, ], },
        46 => &EnemyDef { name: "幼虫", max_hp: 22, start_status: &[], loop_from: 0, machine: None, moves: &[EnemyMove { name: "啃咬", intent: "Attack", ops: &[EOp::Attack { base: 4, hits: 1 }] }], },
        _ => &EnemyDef { name: "无厌沙虫", max_hp: 321, start_status: &[], loop_from: 1, machine: Some(&Machine { start: Next::Go(0), after: &[ Next::Go(1), Next::Go(2), Next::Go(3), Next::Go(4), Next::Go(1), ], }), moves: &[ EnemyMove { name: "液化地面", intent: "Buff", ops: &[EOp::SelfStatus { st: St::Sandpit, amt: 4 }, EOp::AddCardToDraw { card: card::FRANTIC_ESCAPE, count: 3 }, EOp::AddCardToDiscard { card: card::FRANTIC_ESCAPE, count: 3 }] }, EnemyMove { name: "鞭挞", intent: "Attack", ops: &[EOp::Attack { base: 8, hits: 2 }] }, EnemyMove { name: "猛扑撕咬", intent: "Attack", ops: &[EOp::Attack { base: 28, hits: 1 }] }, EnemyMove { name: "垂涎", intent: "Buff", ops: &[EOp::SelfStatus { st: St::Strength, amt: 2 }] }, EnemyMove { name: "鞭挞2", intent: "Attack", ops: &[EOp::Attack { base: 8, hits: 2 }] }, ], },
    }
}

fn enemy_at_4(i: u16) -> (r: &'static EnemyDef)
    requires
        48 <= i <= 59,
    ensures
        *r == enemy_row(i),
{
    proof {
        reveal(enemy_row);
    }
    match i {
        48 => &EnemyDef { name: "虔诚雕刻师", max_hp: 162, start_status: &[], loop_from: 1, machine: None, moves: &[ EnemyMove { name: "禁忌咒语", intent: "Buff", ops: &[EOp::SelfStatus { st: St::Ritual, amt: 9 }] }, EnemyMove { name: "狂暴", intent: "Attack", ops: &[EOp::Attack { base: 12, hits: 1 }] }, ], },
        49 => &EnemyDef { name: "永世沙漏", max_hp: 512, start_status: &[(St::Artifact, 3), (St::WitheringPresence, 6)], loop_from: 0, machine: None, moves: &[ EnemyMove { name: "退潮", intent: "Attack", ops: &[EOp::Attack { base: 26, hits: 1 }, EOp::Block(33)] }, EnemyMove { name: "眼部激光", intent: "Attack", ops: &[EOp::Attack { base: 11, hits: 2 }] }, EnemyMove { name: "剧烈增强", intent: "StatusCard", ops: &[ EOp::AddCardToDiscard { card: card::WITHER, count: 1 }, EOp::UpgradeAllCopies { card: card::WITHER, by: 3 }, EOp::SelfStatus { st: St::Strength, amt: 3 }, ] }, ], },
        50 => &EnemyDef { name: "活体盾", max_hp: 55, start_status: &[(St::Rampart, 25)], loop_from: 0, machine: Some(&Machine { start: Next::Go(0), after: &[ Next::Cond(&[(ECond::Unknown, 0), (ECond::Unknown, 1)]), Next::Go(1), ], }), moves: &[ EnemyMove { name: "盾牌猛击", intent: "Attack", ops: &[EOp::Attack { base: 6, hits: 1 }] }, EnemyMove { name: "猛砸", intent: "Attack", ops: &[EOp::Attack { base: 16, hits: 1 }, EOp::SelfStatus { st: St::Strength, amt: 3 }] }, ], },
        51 => &EnemyDef { name: "高塔炮手", max_hp: 41, start_status: &[], loop_from: 0, machine: None, moves: &[ EnemyMove { name: "倾泻火力", intent: "Attack", ops: &[EOp::Attack { base: 3, hits: 5 }] }, EnemyMove { name: "倾泻火力2", intent: "Attack", ops: &[EOp::Attack { base: 3, hits: 5 }] }, EnemyMove { name: "装填", intent: "Buff", ops: &[EOp::SelfStatus { st: St::Strength, amt: 1 }] }, ], },
        52 => &EnemyDef { name: "猫头鹰法官", max_hp: 231, start_status: &[], loop_from: 0, machine: None, moves: &[ EnemyMove { name: "审视", intent: "Attack", ops: &[EOp::Attack { base: 16, hits: 1 }] }, EnemyMove { name: "啄击突袭", intent: "Attack", ops: &[EOp::Attack { base: 4, hits: 6 }] }, EnemyMove { name: "司法飞行", intent: "Buff", ops: &[EOp::SelfStatus { st: St::Soar, amt: 1 }] }, EnemyMove { name: "判决", intent: "Attack", ops: &[ EOp::Attack { base: 33, hits: 1 }, EOp::PlayerStatus { st: St::Vulnerable, amt: 4 }, ] }, ], },
        53 => &EnemyDef { name: "组装师", max_hp: 150, start_status: &[], loop_from: 0, machine: Some(&Machine { start: Next::Cond(&[ (ECond::AlliesAliveAtLeast(4), 2), (ECond::Unknown, 0), (ECond::Unknown, 1), ]), after: &[ Next::Cond(&[ (ECond::AlliesAliveAtLeast(4), 2), (ECond::Unknown, 0), (ECond::Unknown, 1), ]), Next::Cond(&[ (ECond::AlliesAliveAtLeast(4), 2), (ECond::Unknown, 0), (ECond::Unknown, 1), ]), Next::Cond(&[ (ECond::AlliesAliveAtLeast(4), 2), (ECond::Unknown, 0), (ECond::Unknown, 1), ]), ], }), moves: &[ EnemyMove { name: "制造", intent: "Summon", ops: &[ EOp::Summon { def: enemy::NOISEBOT, hp: 23 }, EOp::Summon { def: enemy::ZAPBOT, hp: 23 }, ] }, EnemyMove { name: "制造打击", intent: "Attack", ops: &[ EOp::Attack { base: 18, hits: 1 }, EOp::Summon { def: enemy::ZAPBOT, hp: 23 }, ] }, EnemyMove { name: "分解", intent: "Attack", ops: &[EOp::Attack { base: 11, hits: 1 }] }, ], },
        54 => &EnemyDef { name: "噪音机器人", max_hp: 23, start_status: &[(St::Minion, 1)], loop_from: 0, machine: None, moves: &[EnemyMove { name: "噪音", intent: "StatusCard", ops: &[ EOp::AddCardToDiscard { card: card::DAZED, count: 1 }, EOp::AddCardToDraw { card: card::DAZED, count: 1 }, ] }], },
        55 => &EnemyDef { name: "电击机器人", max_hp: 23, start_status: &[(St::Minion, 1), (St::HighVoltage, 2)], loop_from: 0, machine: None, moves: &[EnemyMove { name: "电击", intent: "Attack", ops: &[EOp::Attack { base: 14, hits: 1 }] }], },
        56 => &EnemyDef { name: "刺击机器人", max_hp: 23, start_status: &[(St::Minion, 1)], loop_from: 0, machine: None, moves: &[EnemyMove { name: "刺击", intent: "Attack", ops: &[ EOp::Attack { base: 11, hits: 1 }, EOp::PlayerStatus { st: St::Frail, amt: 1 }, ] }], },
        57 => &EnemyDef { name: "护卫机器人", max_hp: 20, start_status: &[(St::Minion, 1)], loop_from: 0, machine: None, moves: &[EnemyMove { name: "护卫", intent: "Defend", ops: &[EOp::BlockNonMinions(15)] }], },
        58 => &EnemyDef { name: "多尼斯异鸟", max_hp: 82, start_status: &[(St::Territorial, 1)], loop_from: 0, machine: None, moves: &[ EnemyMove { name: "俯冲", intent: "Attack", ops: &[EOp::Attack { base: 17, hits: 1 }] }, EnemyMove { name: "啄击", intent: "Attack", ops: &[EOp::Attack { base: 3, hits: 3 }] }, ], },
        _ => &EnemyDef { name: "猎人杀手", max_hp: 121, start_status: &[], loop_from: 0, machine: Some(&Machine { start: Next::Go(0), after: &[ Next::Rand(&[ Branch { to: 1, weight: 1, repeat: Repeat::NotTwice, cooldown: 0 }, Branch { to: 2, weight: 1, repeat: Repeat::AtMost(2), cooldown: 0 }, ]), Next::Rand(&[ Branch { to: 1, weight: 1, repeat: Repeat::NotTwice, cooldown: 0 }, Branch { to: 2, weight: 1, repeat: Repeat::AtMost(2), cooldown: 0 }, ]), Next::Rand(&[ Branch { to: 1, weight: 1, repeat: Repeat::NotTwice, cooldown: 0 }, Branch { to: 2, weight: 1, repeat: Repeat::AtMost(2), cooldown: 0 }, ]), ], }), moves: &[ EnemyMove { name: "嫩化黏液", intent: "Debuff", ops: &[EOp::PlayerStatus { st: St::Tender, amt: 1 }] }, EnemyMove { name: "撕咬", intent: "Attack", ops: &[EOp::Attack { base: 17, hits: 1 }] }, EnemyMove { name: "穿刺", intent: "Attack", ops: &[EOp::Attack { base: 7, hits: 3 }] }, ], },
    }
}

fn enemy_at_5(i: u16) -> (r: &'static EnemyDef)
    requires
        60 <= i <= 71,
    ensures
        *r == enemy_row(i),
{
    proof {
        reveal(enemy_row);
    }
    match i {
        60 => &EnemyDef { name: "残杀千足虫", max_hp: 42, start_status: &[(St::Reattach, 25)], loop_from: 0, machine: Some(&Machine { start: Next::Cond(&[ (ECond::SlotRep(0), 0), (ECond::SlotRep(1), 1), (ECond::SlotRep(2), 2), ]), after: &[ Next::Go(2), Next::Go(0), Next::Go(1), Next::Rand(&[ Branch { to: 0, weight: 1, repeat: Repeat::NotTwice, cooldown: 0 }, Branch { to: 1, weight: 1, repeat: Repeat::NotTwice, cooldown: 0 }, Branch { to: 2, weight: 1, repeat: Repeat::NotTwice, cooldown: 0 }, ]), ], }), moves: &[ EnemyMove { name: "扭动", intent: "Attack", ops: &[EOp::Attack { base: 5, hits: 2 }] }, EnemyMove { name: "壮硕", intent: "Attack", ops: &[EOp::Attack { base: 6, hits: 1 }, EOp::SelfStatus { st: St::Strength, amt: 2 }] }, EnemyMove { name: "缠绕", intent: "Attack", ops: &[EOp::Attack { base: 8, hits: 1 }, EOp::PlayerStatus { st: St::Weak, amt: 1 }] }, EnemyMove { name: "重接", intent: "Heal", ops: &[EOp::Nothing] }, ], },
        61 => &EnemyDef { name: "青蛙骑士", max_hp: 191, start_status: &[(St::PlatedArmor, 15)], loop_from: 0, machine: Some(&Machine { start: Next::Go(0), after: &[ Next::Go(1), Next::Go(2), Next::Cond(&[ (ECond::All(&[ECond::MoveUnused(3), ECond::HpAtMost(94)]), 3), (ECond::Unknown, 0), ]), Next::Go(0), ], }), moves: &[ EnemyMove { name: "舌鞭", intent: "Attack", ops: &[EOp::Attack { base: 13, hits: 1 }, EOp::PlayerStatus { st: St::Frail, amt: 2 }] }, EnemyMove { name: "除恶", intent: "Attack", ops: &[EOp::Attack { base: 21, hits: 1 }] }, EnemyMove { name: "为了女王", intent: "Buff", ops: &[EOp::SelfStatus { st: St::Strength, amt: 5 }] }, EnemyMove { name: "甲虫冲锋", intent: "Attack", ops: &[EOp::Attack { base: 35, hits: 1 }] }, ], },
        62 => &EnemyDef { name: "巨斧机器人", max_hp: 74, start_status: &[(St::Stock, 2)], loop_from: 0, machine: Some(&Machine { start: Next::Go(1), after: &[ Next::Go(1), Next::Go(2), Next::Go(1), ], }), moves: &[ EnemyMove { name: "启动", intent: "Defend", ops: &[EOp::Block(10), EOp::SelfStatus { st: St::Strength, amt: 6 }, EOp::SelfStatusPerStack { st: St::Strength, amt: -3, per: St::Stock }] }, EnemyMove { name: "锤击上勾拳", intent: "Attack", ops: &[EOp::Attack { base: 12, hits: 1 }, EOp::PlayerStatus { st: St::Weak, amt: 2 }, EOp::PlayerStatus { st: St::Frail, amt: 2 }] }, EnemyMove { name: "一二连击", intent: "Attack", ops: &[EOp::Attack { base: 9, hits: 2 }] }, ], },
        63 => &EnemyDef { name: "灵魂枢纽", max_hp: 234, start_status: &[], loop_from: 0, machine: Some(&Machine { start: Next::Go(0), after: &[Next::Rand(&[ Branch { to: 0, weight: 1, repeat: Repeat::NotTwice, cooldown: 0 }, Branch { to: 1, weight: 1, repeat: Repeat::NotTwice, cooldown: 0 }, Branch { to: 2, weight: 1, repeat: Repeat::NotTwice, cooldown: 0 }, ]), Next::Rand(&[ Branch { to: 0, weight: 1, repeat: Repeat::NotTwice, cooldown: 0 }, Branch { to: 1, weight: 1, repeat: Repeat::NotTwice, cooldown: 0 }, Branch { to: 2, weight: 1, repeat: Repeat::NotTwice, cooldown: 0 }, ]), Next::Rand(&[ Branch { to: 0, weight: 1, repeat: Repeat::NotTwice, cooldown: 0 }, Branch { to: 1, weight: 1, repeat: Repeat::NotTwice, cooldown: 0 }, Branch { to: 2, weight: 1, repeat: Repeat::NotTwice, cooldown: 0 }, ])], }), moves: &[ EnemyMove { name: "灵魂灼烧", intent: "Attack", ops: &[EOp::Attack { base: 29, hits: 1 }] }, EnemyMove { name: "大漩涡", intent: "Attack", ops: &[EOp::Attack { base: 6, hits: 4 }] }, EnemyMove { name: "汲取生命", intent: "Attack", ops: &[EOp::Attack { base: 18, hits: 1 }, EOp::PlayerStatus { st: St::Vulnerable, amt: 2 }, EOp::PlayerStatus { st: St::Weak, amt: 2 }] }, ], },
        64 => &EnemyDef { name: "实验体", max_hp: super::TEST_SUBJECT_FORM1_HP, start_status: &[(St::Rage, 2), (St::Adaptable, 1)], loop_from: 0, machine: Some(&Machine { start: Next::Go(1), after: &[ Next::Cond(&[(ECond::MaxHpAtMost(250), 3), (ECond::Unknown, 4)]), Next::Go(2), Next::Go(1), Next::Go(3), Next::Go(5), Next::Go(6), Next::Go(4), ], }), moves: &[ EnemyMove { name: "复苏", intent: "Defend", ops: &[EOp::Nothing] }, EnemyMove { name: "啃咬", intent: "Attack", ops: &[EOp::Attack { base: 20, hits: 1 }] }, EnemyMove { name: "头槌猛击", intent: "Attack", ops: &[EOp::Attack { base: 14, hits: 1 }, EOp::PlayerStatus { st: St::Vulnerable, amt: 1 }] }, EnemyMove { name: "连环爪击", intent: "Attack", ops: &[EOp::AttackPlusStackHits { base: 10, hits: 3, per: St::ClawGrowth }, EOp::SelfStatus { st: St::ClawGrowth, amt: 1 }] }, EnemyMove { name: "撕裂", intent: "Attack", ops: &[EOp::Attack { base: 10, hits: 3 }] }, EnemyMove { name: "猛扑", intent: "Attack", ops: &[EOp::Attack { base: 45, hits: 1 }] }, EnemyMove { name: "灼热咆哮", intent: "StatusCard", ops: &[EOp::AddCardToDiscard { card: card::BURN, count: 3 }, EOp::SelfStatus { st: St::Strength, amt: 2 }] }, ], },
        65 => &EnemyDef { name: "骇鳗", max_hp: 140, start_status: &[(St::Shriek, 70)], loop_from: 0, machine: Some(&Machine { start: Next::Go(0), after: &[ Next::Go(1), Next::Go(0), Next::Go(3), Next::Go(0), ], }), moves: &[ EnemyMove { name: "撞击", intent: "Attack", ops: &[EOp::Attack { base: 16, hits: 1 }] }, EnemyMove { name: "乱舞", intent: "Attack", ops: &[EOp::Attack { base: 3, hits: 3 }, EOp::SelfStatus { st: St::Vigor, amt: 6 }] }, EnemyMove { name: "击晕", intent: "Stun", ops: &[EOp::Nothing] }, EnemyMove { name: "恐惧", intent: "Debuff", ops: &[EOp::PlayerStatus { st: St::Vulnerable, amt: 99 }] }, ], },
        66 => &EnemyDef { name: "活雾", max_hp: 80, start_status: &[], loop_from: 0, machine: Some(&Machine { start: Next::Go(0), after: &[ Next::Go(1), Next::Go(2), Next::Go(1), ], }), moves: &[ EnemyMove { name: "高阶瓦斯", intent: "Attack", ops: &[EOp::Attack { base: 8, hits: 1 }, EOp::PlayerStatus { st: St::Smoggy, amt: 1 }] }, EnemyMove { name: "膨胀", intent: "Attack", ops: &[EOp::Summon { def: enemy::GAS_BOMB, hp: 7 }, EOp::Attack { base: 5, hits: 1 }] }, EnemyMove { name: "超级瓦斯冲击", intent: "Attack", ops: &[EOp::Attack { base: 8, hits: 1 }] }, ], },
        67 => &EnemyDef { name: "气态炸弹", max_hp: 7, start_status: &[(St::Minion, 1)], loop_from: 0, machine: None, moves: &[ EnemyMove { name: "自爆", intent: "DeathBlow", ops: &[EOp::Attack { base: 8, hits: 1 }] }, ], },
        68 => &EnemyDef { name: "花园幽灵鳗", max_hp: 27, start_status: &[(St::Skittish, 6)], loop_from: 0, machine: Some(&Machine { start: Next::Cond(&[ (ECond::SlotIs(0), 2), (ECond::SlotIs(1), 0), (ECond::SlotIs(2), 1), (ECond::SlotIs(3), 3), ]), after: &[ Next::Go(1), Next::Go(2), Next::Go(3), Next::Go(0), ], }), moves: &[ EnemyMove { name: "啃咬", intent: "Attack", ops: &[EOp::Attack { base: 5, hits: 1 }] }, EnemyMove { name: "鞭击", intent: "Attack", ops: &[EOp::Attack { base: 7, hits: 1 }] }, EnemyMove { name: "乱舞", intent: "Attack", ops: &[EOp::Attack { base: 1, hits: 3 }] }, EnemyMove { name: "巨大化", intent: "Buff", ops: &[EOp::SelfStatus { st: St::Strength, amt: 3 }] }, ], },
        69 => &EnemyDef { name: "瀑布巨兽", max_hp: 240, start_status: &[], loop_from: 0, machine: Some(&Machine { start: Next::Go(0), after: &[ Next::Go(1), Next::Go(2), Next::Go(3), Next::Go(4), Next::Go(5), Next::Go(1), Next::Go(7), Next::Go(7), ], }), moves: &[ EnemyMove { name: "加压", intent: "Buff", ops: &[EOp::SelfStatus { st: St::SteamEruption, amt: 15 }] }, EnemyMove { name: "重踏", intent: "Attack", ops: &[EOp::Attack { base: 15, hits: 1 }, EOp::PlayerStatus { st: St::Weak, amt: 1 }, EOp::SelfStatus { st: St::SteamEruption, amt: 3 }] }, EnemyMove { name: "撞击", intent: "Attack", ops: &[EOp::Attack { base: 10, hits: 1 }, EOp::SelfStatus { st: St::SteamEruption, amt: 3 }] }, EnemyMove { name: "虹吸", intent: "Heal", ops: &[EOp::Heal(10), EOp::SelfStatus { st: St::SteamEruption, amt: 3 }] }, EnemyMove { name: "高压枪", intent: "Attack", ops: &[EOp::AttackPlusSelfStatus { base: 20, hits: 1, per: St::PressureGunGrowth }, EOp::SelfStatus { st: St::PressureGunGrowth, amt: 5 }, EOp::SelfStatus { st: St::SteamEruption, amt: 3 }] }, EnemyMove { name: "升压", intent: "Attack", ops: &[EOp::Attack { base: 13, hits: 1 }, EOp::SelfStatus { st: St::SteamEruption, amt: 3 }] }, EnemyMove { name: "即将爆发", intent: "Stun", ops: &[EOp::SelfStatusPerStack { st: St::EruptionDamage, amt: 1, per: St::SteamEruption }, EOp::ClearSelfStatus(St::SteamEruption)] }, EnemyMove { name: "爆炸", intent: "DeathBlow", ops: &[EOp::AttackPlusSelfStatus { base: 0, hits: 1, per: St::EruptionDamage }, EOp::KillSelf] }, ], },
        70 => &EnemyDef { name: "地道虫", max_hp: 87, start_status: &[], loop_from: 0, machine: Some(&Machine { start: Next::Go(0), after: &[ Next::Go(1), Next::Go(2), Next::Go(2), Next::Go(0), ], }), moves: &[ EnemyMove { name: "咬击", intent: "Attack", ops: &[EOp::Attack { base: 13, hits: 1 }] }, EnemyMove { name: "钻地", intent: "Buff", ops: &[EOp::Block(32), EOp::SelfStatus { st: St::Burrowed, amt: 1 }] }, EnemyMove { name: "地底突袭", intent: "Attack", ops: &[EOp::Attack { base: 23, hits: 1 }] }, EnemyMove { name: "眩晕", intent: "Stun", ops: &[EOp::Nothing] }, ], },
        _ => &EnemyDef { name: "胧光怪", max_hp: 123, start_status: &[], loop_from: 1, machine: Some(&Machine { start: Next::Go(0), after: &[ Next::Rand(&[ Branch { to: 1, weight: 1, repeat: Repeat::NotTwice, cooldown: 0 }, Branch { to: 2, weight: 1, repeat: Repeat::NotTwice, cooldown: 0 }, Branch { to: 3, weight: 1, repeat: Repeat::NotTwice, cooldown: 0 }, ]), Next::Rand(&[ Branch { to: 1, weight: 1, repeat: Repeat::NotTwice, cooldown: 0 }, Branch { to: 2, weight: 1, repeat: Repeat::NotTwice, cooldown: 0 }, Branch { to: 3, weight: 1, repeat: Repeat::NotTwice, cooldown: 0 }, ]), Next::Rand(&[ Branch { to: 1, weight: 1, repeat: Repeat::NotTwice, cooldown: 0 }, Branch { to: 2, weight: 1, repeat: Repeat::NotTwice, cooldown: 0 }, Branch { to: 3, weight: 1, repeat: Repeat::NotTwice, cooldown: 0 }, ]), Next::Rand(&[ Branch { to: 1, weight: 1, repeat: Repeat::NotTwice, cooldown: 0 }, Branch { to: 2, weight: 1, repeat: Repeat::NotTwice, cooldown: 0 }, Branch { to: 3, weight: 1, repeat: Repeat::NotTwice, cooldown: 0 }, ]), ], }), moves: &[ EnemyMove { name: "幻象", intent: "Summon", ops: &[EOp::Summon { def: enemy::PARAFRIGHT, hp: 21 }] }, EnemyMove { name: "穿刺凝视", intent: "Attack", ops: &[EOp::Attack { base: 10, hits: 1 }] }, EnemyMove { name: "哀嚎", intent: "Buff", ops: &[EOp::TeamStatus { st: St::Strength, amt: 3 }] }, EnemyMove { name: "硬化打击", intent: "Attack", ops: &[EOp::Attack { base: 6, hits: 1 }, EOp::Block(6)] }, ], },
    }
}

fn enemy_at_6(i: u16) -> (r: &'static EnemyDef)
    requires
        72 <= i <= 83,
    ensures
        *r == enemy_row(i),
{
    proof {
        reveal(enemy_row);
    }
    match i {
        72 => &EnemyDef { name: "寄生惧魔", max_hp: 21, start_status: &[(St::Illusion, 1), (St::Minion, 1)], loop_from: 1, machine: Some(&Machine { start: Next::Go(1), after: &[Next::Go(1), Next::Go(1)] }), moves: &[ EnemyMove { name: "复苏", intent: "Heal", ops: &[EOp::Nothing] }, EnemyMove { name: "猛撞", intent: "Attack", ops: &[EOp::Attack { base: 16, hits: 1 }] }, ], },
        73 => &EnemyDef { name: "淤泥旋螺", max_hp: 38, start_status: &[], loop_from: 0, machine: Some(&Machine { start: Next::Go(0), after: &[ Next::Rand(&[ Branch { to: 0, weight: 1, repeat: Repeat::NotTwice, cooldown: 0 }, Branch { to: 1, weight: 1, repeat: Repeat::NotTwice, cooldown: 0 }, Branch { to: 2, weight: 1, repeat: Repeat::NotTwice, cooldown: 0 }, ]), Next::Rand(&[ Branch { to: 0, weight: 1, repeat: Repeat::NotTwice, cooldown: 0 }, Branch { to: 1, weight: 1, repeat: Repeat::NotTwice, cooldown: 0 }, Branch { to: 2, weight: 1, repeat: Repeat::NotTwice, cooldown: 0 }, ]), Next::Rand(&[ Branch { to: 0, weight: 1, repeat: Repeat::NotTwice, cooldown: 0 }, Branch { to: 1, weight: 1, repeat: Repeat::NotTwice, cooldown: 0 }, Branch { to: 2, weight: 1, repeat: Repeat::NotTwice, cooldown: 0 }, ]), ], }), moves: &[ EnemyMove { name: "喷油", intent: "Attack", ops: &[EOp::Attack { base: 8, hits: 1 }, EOp::PlayerStatus { st: St::Weak, amt: 1 }] }, EnemyMove { name: "猛砸", intent: "Attack", ops: &[EOp::Attack { base: 11, hits: 1 }] }, EnemyMove { name: "狂怒", intent: "Attack", ops: &[EOp::Attack { base: 6, hits: 1 }, EOp::SelfStatus { st: St::Strength, amt: 3 }] }, ], },
        74 => &EnemyDef { name: "噬尸蛞蝓", max_hp: 25, start_status: &[(St::Ravenous, 4)], loop_from: 0, machine: Some(&Machine { start: Next::Rand(&[ Branch { to: 0, weight: 1, repeat: Repeat::Forever, cooldown: 0 }, Branch { to: 1, weight: 1, repeat: Repeat::Forever, cooldown: 0 }, Branch { to: 2, weight: 1, repeat: Repeat::Forever, cooldown: 0 }, ]), after: &[Next::Go(1), Next::Go(2), Next::Go(0)], }), moves: &[ EnemyMove { name: "鞭击", intent: "Attack", ops: &[EOp::Attack { base: 3, hits: 2 }] }, EnemyMove { name: "吞噬", intent: "Attack", ops: &[EOp::Attack { base: 8, hits: 1 }] }, EnemyMove { name: "黏液", intent: "Debuff", ops: &[EOp::PlayerStatus { st: St::Frail, amt: 2 }] }, ], },
        75 => &EnemyDef { name: "海洋混混", max_hp: 46, start_status: &[], loop_from: 0, machine: None, moves: &[ EnemyMove { name: "海踢", intent: "Attack", ops: &[EOp::Attack { base: 11, hits: 1 }] }, EnemyMove { name: "旋踢", intent: "Attack", ops: &[EOp::Attack { base: 2, hits: 4 }] }, EnemyMove { name: "泡泡嗝", intent: "Buff", ops: &[EOp::Block(7), EOp::SelfStatus { st: St::Strength, amt: 1 }] }, ], },
        76 => &EnemyDef { name: "钙化邪教徒", max_hp: 41, start_status: &[], loop_from: 1, machine: None, moves: &[ EnemyMove { name: "吟唱", intent: "Buff", ops: &[EOp::SelfStatus { st: St::Ritual, amt: 2 }] }, EnemyMove { name: "黑暗打击", intent: "Attack", ops: &[EOp::Attack { base: 9, hits: 1 }] }, ], },
        77 => &EnemyDef { name: "潮湿邪教徒", max_hp: 51, start_status: &[], loop_from: 1, machine: None, moves: &[ EnemyMove { name: "吟唱", intent: "Buff", ops: &[EOp::SelfStatus { st: St::Ritual, amt: 5 }] }, EnemyMove { name: "黑暗打击", intent: "Attack", ops: &[EOp::Attack { base: 1, hits: 1 }] }, ], },
        78 => &EnemyDef { name: "下水道蚌", max_hp: 56, start_status: &[(St::PlatedArmor, 8)], loop_from: 0, machine: None, moves: &[ EnemyMove { name: "喷射", intent: "Attack", ops: &[EOp::Attack { base: 10, hits: 1 }] }, EnemyMove { name: "加压", intent: "Buff", ops: &[EOp::SelfStatus { st: St::Strength, amt: 4 }] }, ], },
        79 => &EnemyDef { name: "双尾鼠", max_hp: 18, start_status: &[], loop_from: 0, machine: Some(&Machine { start: Next::Rand(&[ Branch { to: 0, weight: 1, repeat: Repeat::Forever, cooldown: 0 }, Branch { to: 1, weight: 1, repeat: Repeat::Forever, cooldown: 0 }, Branch { to: 2, weight: 1, repeat: Repeat::Forever, cooldown: 0 }, ]), after: &[ Next::Rand(&[ Branch { to: 0, weight: 1, repeat: Repeat::NotTwice, cooldown: 0 }, Branch { to: 1, weight: 1, repeat: Repeat::NotTwice, cooldown: 0 }, Branch { to: 2, weight: 1, repeat: Repeat::NotTwice, cooldown: 3 }, Branch { to: 3, weight: 9, repeat: Repeat::Once, cooldown: 0 }, ]), Next::Rand(&[ Branch { to: 0, weight: 1, repeat: Repeat::NotTwice, cooldown: 0 }, Branch { to: 1, weight: 1, repeat: Repeat::NotTwice, cooldown: 0 }, Branch { to: 2, weight: 1, repeat: Repeat::NotTwice, cooldown: 3 }, Branch { to: 3, weight: 9, repeat: Repeat::Once, cooldown: 0 }, ]), Next::Rand(&[ Branch { to: 0, weight: 1, repeat: Repeat::NotTwice, cooldown: 0 }, Branch { to: 1, weight: 1, repeat: Repeat::NotTwice, cooldown: 0 }, Branch { to: 2, weight: 1, repeat: Repeat::NotTwice, cooldown: 3 }, Branch { to: 3, weight: 9, repeat: Repeat::Once, cooldown: 0 }, ]), Next::Rand(&[ Branch { to: 0, weight: 1, repeat: Repeat::NotTwice, cooldown: 0 }, Branch { to: 1, weight: 1, repeat: Repeat::NotTwice, cooldown: 0 }, Branch { to: 2, weight: 1, repeat: Repeat::NotTwice, cooldown: 3 }, Branch { to: 3, weight: 9, repeat: Repeat::Once, cooldown: 0 }, ]), ], }), moves: &[ EnemyMove { name: "抓挠", intent: "Attack", ops: &[EOp::Attack { base: 8, hits: 1 }] }, EnemyMove { name: "病咬", intent: "Attack", ops: &[EOp::Attack { base: 6, hits: 1 }] }, EnemyMove { name: "尖啸", intent: "Debuff", ops: &[EOp::PlayerStatus { st: St::Frail, amt: 1 }] }, EnemyMove { name: "呼叫增援", intent: "Summon", ops: &[EOp::Summon { def: enemy::TWO_TAILED_RAT, hp: 18 }] }, ], },
        80 => &EnemyDef { name: "拳击构装体", max_hp: 55, start_status: &[(St::Artifact, 1)], loop_from: 0, machine: Some(&Machine { start: Next::Rand(&[ Branch { to: 0, weight: 1, repeat: Repeat::Forever, cooldown: 0 }, Branch { to: 1, weight: 1, repeat: Repeat::Forever, cooldown: 0 }, ]), after: &[Next::Go(1), Next::Go(2), Next::Go(0)], }), moves: &[ EnemyMove { name: "蓄力", intent: "Defend", ops: &[EOp::Block(10)] }, EnemyMove { name: "快拳", intent: "Attack", ops: &[EOp::Attack { base: 5, hits: 2 }, EOp::PlayerStatus { st: St::Frail, amt: 1 }] }, EnemyMove { name: "重拳", intent: "Attack", ops: &[EOp::Attack { base: 14, hits: 1 }] }, ], },
        81 => &EnemyDef { name: "灵魂异鱼", max_hp: 211, start_status: &[], loop_from: 0, machine: None, moves: &[ EnemyMove { name: "呼唤", intent: "StatusCard", ops: &[EOp::AddCardToDraw { card: card::BECKON, count: 1 }, EOp::AddCardToDiscard { card: card::BECKON, count: 1 }] }, EnemyMove { name: "排气", intent: "Attack", ops: &[EOp::Attack { base: 16, hits: 1 }] }, EnemyMove { name: "凝视", intent: "Attack", ops: &[EOp::Attack { base: 7, hits: 1 }, EOp::AddCardToDiscard { card: card::BECKON, count: 1 }] }, EnemyMove { name: "淡出", intent: "Buff", ops: &[EOp::SelfStatus { st: St::Intangible, amt: 2 }] }, EnemyMove { name: "尖啸", intent: "Attack", ops: &[EOp::Attack { base: 13, hits: 1 }, EOp::PlayerStatus { st: St::Vulnerable, amt: 3 }] }, ], },
        82 => &EnemyDef { name: "史莱姆狂战士", max_hp: 261, start_status: &[], loop_from: 0, machine: None, moves: &[ EnemyMove { name: "喷吐脓水", intent: "StatusCard", ops: &[EOp::AddCardToDiscard { card: card::SLIMED, count: 10 }] }, EnemyMove { name: "狂怒连击", intent: "Attack", ops: &[EOp::Attack { base: 4, hits: 4 }] }, EnemyMove { name: "汲取之拥", intent: "Debuff", ops: &[EOp::PlayerStatus { st: St::Weak, amt: 3 }, EOp::SelfStatus { st: St::Strength, amt: 3 }] }, EnemyMove { name: "SMOTHER", intent: "Attack", ops: &[EOp::Attack { base: 30, hits: 1 }] }, ], },
        _ => &EnemyDef { name: "机甲骑士", max_hp: 300, start_status: &[(St::Artifact, 3)], loop_from: 1, machine: None, moves: &[ EnemyMove { name: "冲锋", intent: "Attack", ops: &[EOp::Attack { base: 25, hits: 1 }] }, EnemyMove { name: "喷火器", intent: "StatusCard", ops: &[EOp::AddCardToHand { card: card::BURN, count: 4 }] }, EnemyMove { name: "举起蓄力", intent: "Defend", ops: &[EOp::Block(15), EOp::SelfStatus { st: St::Strength, amt: 5 }] }, EnemyMove { name: "重斩", intent: "Attack", ops: &[EOp::Attack { base: 35, hits: 1 }] }, ], },
    }
}

fn enemy_at_7(i: u16) -> (r: &'static EnemyDef)
    requires
        84 <= i <= 95,
    ensures
        *r == enemy_row(i),
{
    proof {
        reveal(enemy_row);
    }
    match i {
        84 => &EnemyDef { name: "电球头", max_hp: 148, start_status: &[(St::Galvanic, 6)], loop_from: 0, machine: None, moves: &[ EnemyMove { name: "电击掌", intent: "Attack", ops: &[EOp::Attack { base: 13, hits: 1 }, EOp::PlayerStatus { st: St::Frail, amt: 2 }] }, EnemyMove { name: "生成闪电", intent: "Attack", ops: &[EOp::Attack { base: 6, hits: 3 }] }, EnemyMove { name: "GALVANIC_BURST", intent: "Attack", ops: &[EOp::Attack { base: 16, hits: 1 }, EOp::SelfStatus { st: St::Strength, amt: 2 }] }, ], },
        85 => &EnemyDef { name: "咬人卷轴", max_hp: 33, start_status: &[(St::PaperCuts, 2)], loop_from: 0, machine: Some(&Machine { start: Next::Cond(&[ (ECond::SlotIs(0), 0), (ECond::SlotIs(1), 1), (ECond::SlotIs(2), 2), (ECond::SlotIs(3), 2), ]), after: &[ Next::Go(2), Next::Rand(&[ Branch { to: 0, weight: 1, repeat: Repeat::NotTwice, cooldown: 0 }, Branch { to: 1, weight: 1, repeat: Repeat::AtMost(2), cooldown: 0 }, ]), Next::Go(1), ], }), moves: &[ EnemyMove { name: "大啃", intent: "Attack", ops: &[EOp::Attack { base: 14, hits: 1 }] }, EnemyMove { name: "咀嚼", intent: "Attack", ops: &[EOp::Attack { base: 5, hits: 2 }] }, EnemyMove { name: "更多牙齿", intent: "Buff", ops: &[EOp::SelfStatus { st: St::Strength, amt: 2 }] }, ], },
        86 => &EnemyDef { name: "失落之物", max_hp: 93, start_status: &[(St::PossessStrength, 1)], loop_from: 0, machine: None, moves: &[ EnemyMove { name: "致残雾霾", intent: "Debuff", ops: &[EOp::PlayerStatus { st: St::Strength, amt: -2 }, EOp::SelfStatus { st: St::Strength, amt: 2 }] }, EnemyMove { name: "眼部激光", intent: "Attack", ops: &[EOp::Attack { base: 4, hits: 2 }] }, ], },
        87 => &EnemyDef { name: "遗忘之物", max_hp: 106, start_status: &[(St::PossessSpeed, 1)], loop_from: 0, machine: None, moves: &[ EnemyMove { name: "瘴气", intent: "Debuff", ops: &[EOp::PlayerStatus { st: St::Dexterity, amt: -2 }, EOp::Block(8), EOp::SelfStatus { st: St::Dexterity, amt: 2 }] }, EnemyMove { name: "恐惧", intent: "Attack", ops: &[EOp::AttackPlusSelfStatus { base: 13, hits: 1, per: St::Dexterity }] }, ], },
        88 => &EnemyDef { name: "连枷骑士", max_hp: 101, start_status: &[], loop_from: 0, machine: Some(&Machine { start: Next::Go(0), after: &[Next::Rand(&[ Branch { to: 2, weight: 1, repeat: Repeat::NotTwice, cooldown: 0 }, Branch { to: 1, weight: 1, repeat: Repeat::AtMost(2), cooldown: 0 }, Branch { to: 0, weight: 1, repeat: Repeat::AtMost(2), cooldown: 0 }, ]), Next::Rand(&[ Branch { to: 2, weight: 1, repeat: Repeat::NotTwice, cooldown: 0 }, Branch { to: 1, weight: 1, repeat: Repeat::AtMost(2), cooldown: 0 }, Branch { to: 0, weight: 1, repeat: Repeat::AtMost(2), cooldown: 0 }, ]), Next::Rand(&[ Branch { to: 2, weight: 1, repeat: Repeat::NotTwice, cooldown: 0 }, Branch { to: 1, weight: 1, repeat: Repeat::AtMost(2), cooldown: 0 }, Branch { to: 0, weight: 1, repeat: Repeat::AtMost(2), cooldown: 0 }, ])], }), moves: &[ EnemyMove { name: "撞击", intent: "Attack", ops: &[EOp::Attack { base: 15, hits: 1 }] }, EnemyMove { name: "连枷", intent: "Attack", ops: &[EOp::Attack { base: 9, hits: 2 }] }, EnemyMove { name: "战争吟唱", intent: "Buff", ops: &[EOp::SelfStatus { st: St::Strength, amt: 3 }] }, ], },
        89 => &EnemyDef { name: "幽灵骑士", max_hp: 93, start_status: &[], loop_from: 0, machine: Some(&Machine { start: Next::Go(0), after: &[Next::Go(1), Next::Rand(&[ Branch { to: 1, weight: 1, repeat: Repeat::AtMost(2), cooldown: 0 }, Branch { to: 2, weight: 1, repeat: Repeat::NotTwice, cooldown: 0 }, ]), Next::Rand(&[ Branch { to: 1, weight: 1, repeat: Repeat::AtMost(2), cooldown: 0 }, Branch { to: 2, weight: 1, repeat: Repeat::NotTwice, cooldown: 0 }, ])], }), moves: &[ EnemyMove { name: "恶咒", intent: "Debuff", ops: &[EOp::PlayerStatus { st: St::Hex, amt: 2 }] }, EnemyMove { name: "灵魂斩击", intent: "Attack", ops: &[EOp::Attack { base: 15, hits: 1 }] }, EnemyMove { name: "灵魂火焰", intent: "Attack", ops: &[EOp::Attack { base: 3, hits: 3 }] }, ], },
        90 => &EnemyDef { name: "魔法骑士", max_hp: 82, start_status: &[], loop_from: 2, machine: None, moves: &[ EnemyMove { name: "强力护盾", intent: "Attack", ops: &[EOp::Attack { base: 6, hits: 1 }, EOp::Block(5)] }, EnemyMove { name: "抑制", intent: "Debuff", ops: &[EOp::PlayerStatus { st: St::Dampen, amt: 1 }, EOp::DowngradeUpgradedCards] }, EnemyMove { name: "撞击", intent: "Attack", ops: &[EOp::Attack { base: 10, hits: 1 }] }, EnemyMove { name: "PREP", intent: "Defend", ops: &[EOp::Block(5)] }, EnemyMove { name: "魔法炸弹", intent: "Attack", ops: &[EOp::Attack { base: 35, hits: 1 }] }, ], },
        91 => &EnemyDef { name: "熟睡甲虫", max_hp: 86, start_status: &[(St::PlatedArmor, 15), (St::Slumber, 3)], loop_from: 0, machine: Some(&Machine { start: Next::Go(0), after: &[ Next::Cond(&[ (ECond::SelfStatusAtLeast(St::Slumber, 2), 0), (ECond::SelfStatusBelow(St::Slumber, 2), 1), ]), Next::Go(1), Next::Go(1), ], }), moves: &[ EnemyMove { name: "打鼾", intent: "Sleep", ops: &[EOp::Nothing] }, EnemyMove { name: "出击", intent: "Attack", ops: &[EOp::Attack { base: 16, hits: 1 }, EOp::SelfStatus { st: St::Strength, amt: 2 }] }, EnemyMove { name: "醒来", intent: "Stun", ops: &[EOp::ClearSelfStatus(St::PlatedArmor)] }, ], },
        92 => &EnemyDef { name: "乐加维林族母", max_hp: 222, start_status: &[(St::PlatedArmor, 12), (St::Asleep, 3)], loop_from: 0, machine: Some(&Machine { start: Next::Go(0), after: &[ Next::Cond(&[ (ECond::SelfStatusAtLeast(St::Asleep, 2), 0), (ECond::SelfStatusBelow(St::Asleep, 2), 1), ]), Next::Go(2), Next::Go(3), Next::Go(4), Next::Go(1), Next::Go(1), ], }), moves: &[ EnemyMove { name: "沉睡", intent: "Sleep", ops: &[EOp::Nothing] }, EnemyMove { name: "斩击", intent: "Attack", ops: &[EOp::Attack { base: 19, hits: 1 }] }, EnemyMove { name: "开膛破肚", intent: "Attack", ops: &[EOp::Attack { base: 9, hits: 2 }] }, EnemyMove { name: "斩击2", intent: "Attack", ops: &[EOp::Attack { base: 12, hits: 1 }, EOp::Block(12)] }, EnemyMove { name: "灵魂汲取", intent: "Debuff", ops: &[EOp::PlayerStatus { st: St::Strength, amt: -2 }, EOp::PlayerStatus { st: St::Dexterity, amt: -2 }, EOp::SelfStatus { st: St::Strength, amt: 2 }] }, EnemyMove { name: "醒来", intent: "Stun", ops: &[EOp::Nothing] }, ], },
        93 => &EnemyDef { name: "墨影幻灵", max_hp: 173, start_status: &[(St::Slippery, 8)], loop_from: 0, machine: None, moves: &[ EnemyMove { name: "墨迹", intent: "Attack", ops: &[EOp::Attack { base: 7, hits: 1 }] }, EnemyMove { name: "墨水长枪", intent: "Attack", ops: &[EOp::Attack { base: 6, hits: 2 }] }, EnemyMove { name: "肢解", intent: "Attack", ops: &[EOp::Attack { base: 26, hits: 1 }, EOp::AddCardToDiscard { card: card::WOUND, count: 3 }] }, EnemyMove { name: "准备", intent: "Buff", ops: &[EOp::SelfStatus { st: St::Strength, amt: 2 }] }, ], },
        94 => &EnemyDef { name: "墨宝", max_hp: 14, start_status: &[(St::Slippery, 1)], loop_from: 0, machine: Some(&Machine { start: Next::Cond(&[(ECond::SlotIs(1), 1), (ECond::SlotIs(0), 0), (ECond::SlotIs(2), 0)]), after: &[ Next::Rand(&[ Branch { to: 2, weight: 1, repeat: Repeat::NotTwice, cooldown: 0 }, Branch { to: 1, weight: 1, repeat: Repeat::NotTwice, cooldown: 0 }, ]), Next::Go(0), Next::Go(0), ], }), moves: &[ EnemyMove { name: "刺击", intent: "Attack", ops: &[EOp::Attack { base: 3, hits: 1 }] }, EnemyMove { name: "旋风", intent: "Attack", ops: &[EOp::Attack { base: 2, hits: 3 }] }, EnemyMove { name: "锐利凝视", intent: "Attack", ops: &[EOp::Attack { base: 10, hits: 1 }] }, ], },
        _ => &EnemyDef { name: "鬼祟珊瑚群", max_hp: 75, start_status: &[(St::HardenedShell, 20)], loop_from: 0, machine: None, moves: &[ EnemyMove { name: "猛冲", intent: "Attack", ops: &[EOp::Attack { base: 14, hits: 1 }] }, EnemyMove { name: "猛冲2", intent: "Attack", ops: &[EOp::Attack { base: 14, hits: 1 }] }, EnemyMove { name: "惯性", intent: "Attack", ops: &[EOp::Attack { base: 9, hits: 1 }, EOp::SelfStatus { st: St::Strength, amt: 2 }] }, EnemyMove { name: "穿刺戳击", intent: "Attack", ops: &[EOp::Attack { base: 7, hits: 2 }] }, ], },
    }
}

fn enemy_at_8(i: u16) -> (r: &'static EnemyDef)
    requires
        96 <= i <= 104,
    ensures
        *r == enemy_row(i),
{
    proof {
        reveal(enemy_row);
    }
    match i {
        96 => &EnemyDef { name: "幽灵船", max_hp: 63, start_status: &[], loop_from: 1, machine: None, moves: &[ EnemyMove { name: "纠缠", intent: "Debuff", ops: &[EOp::PlayerStatus { st: St::Weak, amt: 3 }, EOp::AddCardToDiscard { card: card::DAZED, count: 5 }] }, EnemyMove { name: "扫击", intent: "Attack", ops: &[EOp::Attack { base: 13, hits: 1 }] }, EnemyMove { name: "践踏", intent: "Attack", ops: &[EOp::Attack { base: 4, hits: 3 }] }, ], },
        97 => &EnemyDef { name: "蟾蜍蝌蚪", max_hp: 23, start_status: &[], loop_from: 0, machine: Some(&Machine { start: Next::Cond(&[(ECond::SlotIs(0), 2), (ECond::SlotIs(1), 1)]), after: &[Next::Go(1), Next::Go(2), Next::Go(0)], }), moves: &[ EnemyMove { name: "吐刺", intent: "Attack", ops: &[EOp::SelfStatus { st: St::Thorns, amt: -2 }, EOp::Attack { base: 3, hits: 3 }] }, EnemyMove { name: "旋转", intent: "Attack", ops: &[EOp::Attack { base: 7, hits: 1 }] }, EnemyMove { name: "带刺", intent: "Buff", ops: &[EOp::SelfStatus { st: St::Thorns, amt: 2 }] }, ], },
        98 => &EnemyDef { name: "化石追踪者", max_hp: 52, start_status: &[(St::Suck, 3)], loop_from: 0, machine: Some(&Machine { start: Next::Go(1), after: &[ Next::Rand(&[ Branch { to: 1, weight: 1, repeat: Repeat::AtMost(2), cooldown: 0 }, Branch { to: 0, weight: 1, repeat: Repeat::AtMost(2), cooldown: 0 }, Branch { to: 2, weight: 1, repeat: Repeat::AtMost(2), cooldown: 0 }, ]), Next::Rand(&[ Branch { to: 1, weight: 1, repeat: Repeat::AtMost(2), cooldown: 0 }, Branch { to: 0, weight: 1, repeat: Repeat::AtMost(2), cooldown: 0 }, Branch { to: 2, weight: 1, repeat: Repeat::AtMost(2), cooldown: 0 }, ]), Next::Rand(&[ Branch { to: 1, weight: 1, repeat: Repeat::AtMost(2), cooldown: 0 }, Branch { to: 0, weight: 1, repeat: Repeat::AtMost(2), cooldown: 0 }, Branch { to: 2, weight: 1, repeat: Repeat::AtMost(2), cooldown: 0 }, ]), ], }), moves: &[ EnemyMove { name: "冲撞", intent: "Attack", ops: &[EOp::Attack { base: 9, hits: 1 }, EOp::PlayerStatus { st: St::Frail, amt: 1 }] }, EnemyMove { name: "缠上", intent: "Attack", ops: &[EOp::Attack { base: 12, hits: 1 }] }, EnemyMove { name: "甩动", intent: "Attack", ops: &[EOp::Attack { base: 3, hits: 2 }] }, ], },
        99 => &EnemyDef { name: "地精佣兵", max_hp: 48, start_status: &[(St::Surprise, 1), (St::Thievery, 20)], loop_from: 0, machine: None, moves: &[ EnemyMove { name: "拿来", intent: "Attack", ops: &[EOp::Attack { base: 7, hits: 2 }] }, EnemyMove { name: "双重猛击", intent: "Attack", ops: &[EOp::Attack { base: 6, hits: 2 }, EOp::PlayerStatus { st: St::Weak, amt: 2 }] }, EnemyMove { name: "嘿嘿", intent: "Attack", ops: &[EOp::Attack { base: 8, hits: 1 }, EOp::SelfStatus { st: St::Strength, amt: 2 }] }, ], },
        100 => &EnemyDef { name: "卑鄙地精", max_hp: 12, start_status: &[], loop_from: 1, machine: None, moves: &[ EnemyMove { name: "醒来", intent: "Stun", ops: &[EOp::Nothing] }, EnemyMove { name: "冲撞", intent: "Attack", ops: &[EOp::Attack { base: 9, hits: 1 }] }, ], },
        101 => &EnemyDef { name: "胖地精", max_hp: 15, start_status: &[], loop_from: 1, machine: None, moves: &[ EnemyMove { name: "醒来", intent: "Stun", ops: &[EOp::Nothing] }, EnemyMove { name: "逃跑", intent: "Escape", ops: &[EOp::Nothing] }, ], },
        102 => &EnemyDef { name: "藤蔓蹒跚者", max_hp: 61, start_status: &[], loop_from: 0, machine: None, moves: &[ EnemyMove { name: "挥击", intent: "Attack", ops: &[EOp::Attack { base: 6, hits: 2 }] }, EnemyMove { name: "紧绕藤蔓", intent: "Attack", ops: &[EOp::Attack { base: 8, hits: 1 }, EOp::PlayerStatus { st: St::Tangled, amt: 1 }] }, EnemyMove { name: "大啃", intent: "Attack", ops: &[EOp::Attack { base: 16, hits: 1 }] }, ], },
        103 => &EnemyDef { name: "劫掠者刺客", max_hp: 20, start_status: &[], loop_from: 0, machine: None, moves: &[ EnemyMove { name: "致命射击", intent: "Attack", ops: &[EOp::Attack { base: 10, hits: 1 }] }, ], },
        _ => &EnemyDef { name: "劫掠者暴徒", max_hp: 31, start_status: &[], loop_from: 0, machine: None, moves: &[ EnemyMove { name: "殴打", intent: "Attack", ops: &[EOp::Attack { base: 7, hits: 1 }] }, EnemyMove { name: "怒吼", intent: "Buff", ops: &[EOp::SelfStatus { st: St::Strength, amt: 3 }] }, ], },
    }
}

} // verus!
