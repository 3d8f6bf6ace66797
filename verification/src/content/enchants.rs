//! The enchantment table.

use vstd::prelude::*;
use crate::ops::{EnchVal, EnchantDef};
use crate::state::{F_INNATE, F_RETAIN};

verus! {

/// Number of enchantments.
pub const ENCHANT_COUNT: u8 = 22;

/// The enchantment table.
#[verifier::opaque]
pub open spec fn enchant_row(i: u8) -> EnchantDef {
    match i {
        0 => EnchantDef { id: "NIMBLE", name: "灵巧", block_add: EnchVal::Amount, damage_add: EnchVal::Zero, damage_mul: (1, 1), keywords: 0, modelled: true, note: "", },
        1 => EnchantDef { id: "ROYALLY_APPROVED", name: "王室认证", block_add: EnchVal::Zero, damage_add: EnchVal::Zero, damage_mul: (1, 1), keywords: F_INNATE | F_RETAIN, modelled: true, note: "", },
        2 => EnchantDef { id: "STEADY", name: "沉稳", block_add: EnchVal::Zero, damage_add: EnchVal::Zero, damage_mul: (1, 1), keywords: F_RETAIN, modelled: true, note: "", },
        3 => EnchantDef { id: "SHARP", name: "锋利", block_add: EnchVal::Zero, damage_add: EnchVal::Amount, damage_mul: (1, 1), keywords: 0, modelled: true, note: "", },
        4 => EnchantDef { id: "INSTINCT", name: "直觉", block_add: EnchVal::Zero, damage_add: EnchVal::Zero, damage_mul: (2, 1), keywords: 0, modelled: true, note: "", },
        5 => EnchantDef { id: "CORRUPTED", name: "腐化", block_add: EnchVal::Zero, damage_add: EnchVal::Zero, damage_mul: (3, 2), keywords: 0, modelled: false, note: "伤害 ×1.5 建了；缺 OnPlay 的 2 点不可格挡自伤（内核没有 Unblockable）", },
        6 => EnchantDef { id: "GOOPY", name: "黏糊糊", block_add: EnchVal::AmountMinus1, damage_add: EnchVal::Zero, damage_mul: (1, 1), keywords: 0, modelled: false, note: "格挡加值建了；缺「这一张实例加消耗关键字」和「每打出一次 Amount++」", },
        7 => EnchantDef { id: "VIGOROUS", name: "旺盛", block_add: EnchVal::Zero, damage_add: EnchVal::Zero, damage_mul: (1, 1), keywords: 0, modelled: false, note: "欠「本场只生效一次」的实例位；按 0 算 ⇒ 低估第一次那一下的伤害", },
        8 => EnchantDef { id: "MOMENTUM", name: "势能", block_add: EnchVal::Zero, damage_add: EnchVal::Zero, damage_mul: (1, 1), keywords: 0, modelled: false, note: "欠「打出时把加值写回这一张实例」（和暴走同构，缺的是附魔侧的 OnPlay）", },
        9 => EnchantDef { id: "INKY", name: "墨迹", block_add: EnchVal::Zero, damage_add: EnchVal::Fixed(1), damage_mul: (1, 1), keywords: 0, modelled: false, note: "+1 伤害建了；缺 OnPlay 给目标上 1 层虚弱（欠附魔侧的 OnPlay）", },
        10 => EnchantDef { id: "TEZCATARAS_EMBER", name: "特兹卡塔拉的余烬", block_add: EnchVal::Zero, damage_add: EnchVal::Fixed(3), damage_mul: (1, 1), keywords: 0, modelled: false, note: "+3 伤害建了；缺「把这一张实例的费用改成 0」和永恒关键字", },
        11 => EnchantDef { id: "ADROIT", name: "娴熟", block_add: EnchVal::Zero, damage_add: EnchVal::Zero, damage_mul: (1, 1), keywords: 0, modelled: false, note: "打出时额外获得 Amount 点格挡。欠附魔侧的 OnPlay", },
        12 => EnchantDef { id: "SOWN", name: "播种", block_add: EnchVal::Zero, damage_add: EnchVal::Zero, damage_mul: (1, 1), keywords: 0, modelled: false, note: "本场第一次打出时 +Amount 能量。欠附魔侧的 OnPlay + 「本场用过了」的位", },
        13 => EnchantDef { id: "SWIFT", name: "迅捷", block_add: EnchVal::Zero, damage_add: EnchVal::Zero, damage_mul: (1, 1), keywords: 0, modelled: false, note: "本场第一次打出时抽 Amount 张。欠附魔侧的 OnPlay + 「本场用过了」的位", },
        14 => EnchantDef { id: "GLAM", name: "魅影", block_add: EnchVal::Zero, damage_add: EnchVal::Zero, damage_mul: (1, 1), keywords: 0, modelled: false, note: "本场第一次打出时多打出一次。欠 EnchantPlayCount（和未掘宝石的重放同一个洞）", },
        15 => EnchantDef { id: "SPIRAL", name: "螺旋", block_add: EnchVal::Zero, damage_add: EnchVal::Zero, damage_mul: (1, 1), keywords: 0, modelled: false, note: "每次打出都多打出一次。欠 EnchantPlayCount", },
        16 => EnchantDef { id: "SOULS_POWER", name: "灵魂之力", block_add: EnchVal::Zero, damage_add: EnchVal::Zero, damage_mul: (1, 1), keywords: 0, modelled: false, note: "去掉这张牌的消耗关键字。欠「按实例改消耗位」（`CardDef.exhausts` 是按牌名的）", },
        17 => EnchantDef { id: "SLITHER", name: "滑行", block_add: EnchVal::Zero, damage_add: EnchVal::Zero, damage_mul: (1, 1), keywords: 0, modelled: false, note: "每次被抽到时费用随机成 0..3。欠「抽牌时改这一张实例的费用」的钩子", },
        18 => EnchantDef { id: "SLUMBERING_ESSENCE", name: "沉睡精华", block_add: EnchVal::Zero, damage_add: EnchVal::Zero, damage_mul: (1, 1), keywords: 0, modelled: false, note: "没打出就一直 −1 费。欠 `BeforeFlush` 钩子 + 「打出前一直累积」的费用修饰", },
        19 => EnchantDef { id: "IMBUED", name: "灌注", block_add: EnchVal::Zero, damage_add: EnchVal::Zero, damage_mul: (1, 1), keywords: 0, modelled: false, note: "开局沉到牌堆底 + 自动预打出阶段。欠 `ShouldStartAtBottomOfDrawPile`", },
        20 => EnchantDef { id: "PERFECT_FIT", name: "完美契合", block_add: EnchVal::Zero, damage_add: EnchVal::Zero, damage_mul: (1, 1), keywords: 0, modelled: false, note: "改洗牌顺序（`ModifyShuffleOrder`）。欠洗牌钩子", },
        _ => EnchantDef { id: "CLONE", name: "复制", block_add: EnchVal::Zero, damage_add: EnchVal::Zero, damage_mul: (1, 1), keywords: 0, modelled: false, note: "[源码] 类体是空的（钩子全在别处/未启用）。**先查清楚再动**", },
    }
}

/// Enchantment `i` of the enchantment table.
pub fn enchant_at(i: u8) -> (r: &'static EnchantDef)
    requires
        i < ENCHANT_COUNT,
    ensures
        *r == enchant_row(i),
{
    if i < 12 {
        enchant_at_0(i)
    } else {
        enchant_at_1(i)
    }
}

fn enchant_at_0(i: u8) -> (r: &'static EnchantDef)
    requires
        0 <= i <= 11,
    ensures
        *r == enchant_row(i),
{
    proof {
        reveal(enchant_row);
    }
    match i {
        0 => &EnchantDef { id: "NIMBLE", name: "灵巧", block_add: EnchVal::Amount, damage_add: EnchVal::Zero, damage_mul: (1, 1), keywords: 0, modelled: true, note: "", },
        1 => &EnchantDef { id: "ROYALLY_APPROVED", name: "王室认证", block_add: EnchVal::Zero, damage_add: EnchVal::Zero, damage_mul: (1, 1), keywords: F_INNATE | F_RETAIN, modelled: true, note: "", },
        2 => &EnchantDef { id: "STEADY", name: "沉稳", block_add: EnchVal::Zero, damage_add: EnchVal::Zero, damage_mul: (1, 1), keywords: F_RETAIN, modelled: true, note: "", },
        3 => &EnchantDef { id: "SHARP", name: "锋利", block_add: EnchVal::Zero, damage_add: EnchVal::Amount, damage_mul: (1, 1), keywords: 0, modelled: true, note: "", },
        4 => &EnchantDef { id: "INSTINCT", name: "直觉", block_add: EnchVal::Zero, damage_add: EnchVal::Zero, damage_mul: (2, 1), keywords: 0, modelled: true, note: "", },
        5 => &EnchantDef { id: "CORRUPTED", name: "腐化", block_add: EnchVal::Zero, damage_add: EnchVal::Zero, damage_mul: (3, 2), keywords: 0, modelled: false, note: "伤害 ×1.5 建了；缺 OnPlay 的 2 点不可格挡自伤（内核没有 Unblockable）", },
        6 => &EnchantDef { id: "GOOPY", name: "黏糊糊", block_add: EnchVal::AmountMinus1, damage_add: EnchVal::Zero, damage_mul: (1, 1), keywords: 0, modelled: false, note: "格挡加值建了；缺「这一张实例加消耗关键字」和「每打出一次 Amount++」", },
        7 => &EnchantDef { id: "VIGOROUS", name: "旺盛", block_add: EnchVal::Zero, damage_add: EnchVal::Zero, damage_mul: (1, 1), keywords: 0, modelled: false, note: "欠「本场只生效一次」的实例位；按 0 算 ⇒ 低估第一次那一下的伤害", },
        8 => &EnchantDef { id: "MOMENTUM", name: "势能", block_add: EnchVal::Zero, damage_add: EnchVal::Zero, damage_mul: (1, 1), keywords: 0, modelled: false, note: "欠「打出时把加值写回这一张实例」（和暴走同构，缺的是附魔侧的 OnPlay）", },
        9 => &EnchantDef { id: "INKY", name: "墨迹", block_add: EnchVal::Zero, damage_add: EnchVal::Fixed(1), damage_mul: (1, 1), keywords: 0, modelled: false, note: "+1 伤害建了；缺 OnPlay 给目标上 1 层虚弱（欠附魔侧的 OnPlay）", },
        10 => &EnchantDef { id: "TEZCATARAS_EMBER", name: "特兹卡塔拉的余烬", block_add: EnchVal::Zero, damage_add: EnchVal::Fixed(3), damage_mul: (1, 1), keywords: 0, modelled: false, note: "+3 伤害建了；缺「把这一张实例的费用改成 0」和永恒关键字", },
        _ => &EnchantDef { id: "ADROIT", name: "娴熟", block_add: EnchVal::Zero, damage_add: EnchVal::Zero, damage_mul: (1, 1), keywords: 0, modelled: false, note: "打出时额外获得 Amount 点格挡。欠附魔侧的 OnPlay", },
    }
}

fn enchant_at_1(i: u8) -> (r: &'static EnchantDef)
    requires
        12 <= i <= 21,
    ensures
        *r == enchant_row(i),
{
    proof {
        reveal(enchant_row);
    }
    match i {
        12 => &EnchantDef { id: "SOWN", name: "播种", block_add: EnchVal::Zero, damage_add: EnchVal::Zero, damage_mul: (1, 1), keywords: 0, modelled: false, note: "本场第一次打出时 +Amount 能量。欠附魔侧的 OnPlay + 「本场用过了」的位", },
        13 => &EnchantDef { id: "SWIFT", name: "迅捷", block_add: EnchVal::Zero, damage_add: EnchVal::Zero, damage_mul: (1, 1), keywords: 0, modelled: false, note: "本场第一次打出时抽 Amount 张。欠附魔侧的 OnPlay + 「本场用过了」的位", },
        14 => &EnchantDef { id: "GLAM", name: "魅影", block_add: EnchVal::Zero, damage_add: EnchVal::Zero, damage_mul: (1, 1), keywords: 0, modelled: false, note: "本场第一次打出时多打出一次。欠 EnchantPlayCount（和未掘宝石的重放同一个洞）", },
        15 => &EnchantDef { id: "SPIRAL", name: "螺旋", block_add: EnchVal::Zero, damage_add: EnchVal::Zero, damage_mul: (1, 1), keywords: 0, modelled: false, note: "每次打出都多打出一次。欠 EnchantPlayCount", },
        16 => &EnchantDef { id: "SOULS_POWER", name: "灵魂之力", block_add: EnchVal::Zero, damage_add: EnchVal::Zero, damage_mul: (1, 1), keywords: 0, modelled: false, note: "去掉这张牌的消耗关键字。欠「按实例改消耗位」（`CardDef.exhausts` 是按牌名的）", },
        17 => &EnchantDef { id: "SLITHER", name: "滑行", block_add: EnchVal::Zero, damage_add: EnchVal::Zero, damage_mul: (1, 1), keywords: 0, modelled: false, note: "每次被抽到时费用随机成 0..3。欠「抽牌时改这一张实例的费用」的钩子", },
        18 => &EnchantDef { id: "SLUMBERING_ESSENCE", name: "沉睡精华", block_add: EnchVal::Zero, damage_add: EnchVal::Zero, damage_mul: (1, 1), keywords: 0, modelled: false, note: "没打出就一直 −1 费。欠 `BeforeFlush` 钩子 + 「打出前一直累积」的费用修饰", },
        19 => &EnchantDef { id: "IMBUED", name: "灌注", block_add: EnchVal::Zero, damage_add: EnchVal::Zero, damage_mul: (1, 1), keywords: 0, modelled: false, note: "开局沉到牌堆底 + 自动预打出阶段。欠 `ShouldStartAtBottomOfDrawPile`", },
        20 => &EnchantDef { id: "PERFECT_FIT", name: "完美契合", block_add: EnchVal::Zero, damage_add: EnchVal::Zero, damage_mul: (1, 1), keywords: 0, modelled: false, note: "改洗牌顺序（`ModifyShuffleOrder`）。欠洗牌钩子", },
        _ => &EnchantDef { id: "CLONE", name: "复制", block_add: EnchVal::Zero, damage_add: EnchVal::Zero, damage_mul: (1, 1), keywords: 0, modelled: false, note: "[源码] 类体是空的（钩子全在别处/未启用）。**先查清楚再动**", },
    }
}

} // verus!
