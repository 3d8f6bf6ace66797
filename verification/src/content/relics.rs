//! The relic table.

use vstd::prelude::*;
use crate::ops::RelicDef;
use crate::state::St;

verus! {

/// Number of relics.
pub const RELIC_COUNT: u16 = 106;

/// The relic table.
#[verifier::opaque]
pub open spec fn relic_row(i: u16) -> RelicDef {
    match i {
        0 => RelicDef { id: "MANGO", name: "芒果", start_status: &[], private_status: &[], counter_to: None, modelled: true, note: "[源码] 拾取时最大生命 +14；战斗观测已含，不重复施加", },
        1 => RelicDef { id: "BING_BONG", name: "宾邦", start_status: &[], private_status: &[], counter_to: None, modelled: true, note: "[源码] 新加入主牌组的牌复制一张；局外效果，主牌组快照已含", },
        2 => RelicDef { id: "SILVER_CRUCIBLE", name: "白银熔炉", start_status: &[], private_status: &[], counter_to: None, modelled: true, note: "局外：前3次卡牌奖励升级 + 第一个宝箱为空。战斗层无关", },
        3 => RelicDef { id: "PAELS_WING", name: "佩尔之翼", start_status: &[], private_status: &[], counter_to: None, modelled: true, note: "局外：卡牌奖励献祭换遗物。战斗层无关", },
        4 => RelicDef { id: "ARCANE_SCROLL", name: "奥术卷轴", start_status: &[], private_status: &[], counter_to: None, modelled: true, note: "局外：拾起时把一张随机稀有牌加进牌组。战斗层无关", },
        5 => RelicDef { id: "WAR_PAINT", name: "战纹涂料", start_status: &[], private_status: &[], counter_to: None, modelled: true, note: "局外：拾起时随机升级 2 张技能牌。升级结果进牌组，战斗层无关", },
        6 => RelicDef { id: "WHETSTONE", name: "磨刀石", start_status: &[], private_status: &[], counter_to: None, modelled: true, note: "局外：拾起时随机升级 2 张攻击牌。升级结果进牌组，战斗层无关", },
        7 => RelicDef { id: "MEAL_TICKET", name: "餐券", start_status: &[], private_status: &[], counter_to: None, modelled: true, note: "局外：进商店回 15 点生命。战斗层无关", },
        8 => RelicDef { id: "STORYBOOK", name: "故事书", start_status: &[], private_status: &[], counter_to: None, modelled: true, note: "局外：拾起时把 1 张至亮之焰加进牌组。那张牌本身在内容表里", },
        9 => RelicDef { id: "LETTER_OPENER", name: "开信刀", start_status: &[], private_status: &[(St::LetterOpener, 5)], counter_to: None, modelled: true, note: "同回合每 3 张技能牌对全体 5 点。层数=伤害，计数在 State::skills_played", },
        10 => RelicDef { id: "ANCHOR", name: "锚", start_status: &[], private_status: &[(St::Anchor, 10)], counter_to: None, modelled: true, note: "战斗开始 10 点格挡（Unpowered）。层数=格挡值", },
        11 => RelicDef { id: "FAKE_ANCHOR", name: "锚？？？", start_status: &[], private_status: &[(St::Anchor, 4)], counter_to: None, modelled: true, note: "假商人版：战斗开始 4 点格挡（真锚是 10）", },
        12 => RelicDef { id: "TANXS_WHISTLE", name: "坦克斯的哨子", start_status: &[], private_status: &[], counter_to: None, modelled: true, note: "局外：拾起时把 1 张吹哨加进牌组。那张牌进牌组之后就是普通牌，战斗层无关", },
        13 => RelicDef { id: "FAKE_BLOOD_VIAL", name: "小血瓶？？？", start_status: &[], private_status: &[(St::BloodVial, 1)], counter_to: None, modelled: true, note: "假商人版：开局回 1 血（真品 2）。和真品同一条规则，层数不同", },
        14 => RelicDef { id: "FAKE_HAPPY_FLOWER", name: "开心小花？？？", start_status: &[], private_status: &[(St::FakeHappyFlower, 1)], counter_to: None, modelled: true, note: "假商人版：每 5 回合 +1 能量（真品每 3 回合）。周期不同，所以单独一条规则", },
        15 => RelicDef { id: "FAKE_MANGO", name: "芒果？？？", start_status: &[], private_status: &[], counter_to: None, modelled: true, note: "局外：拾起时最大生命 +3（真品 +5）。战斗层无关", },
        16 => RelicDef { id: "FAKE_SNECKO_EYE", name: "异蛇之眼？？？", start_status: &[], private_status: &[], counter_to: None, modelled: false, note: "假商人版：每场战斗开始获得混乱（真品还多抽 2 张）。欠**混乱** —— 「手牌费用随机化」要给 CardInst 加一条本场随机费用，内核没有这个概念", },
        17 => RelicDef { id: "FAKE_VENERABLE_TEA_SET", name: "古茶具套装？？？", start_status: &[], private_status: &[], counter_to: None, modelled: true, note: "假商人版：休息后第一场战斗 +1 能量（真品 +2）。和真品同一条路，见 REST_ARMED", },
        18 => RelicDef { id: "BAG_OF_MARBLES", name: "弹珠袋", start_status: &[], private_status: &[(St::BagOfMarbles, 1)], counter_to: None, modelled: true, note: "第1回合给全体易伤 1", },
        19 => RelicDef { id: "RED_MASK", name: "红面具", start_status: &[], private_status: &[(St::RedMask, 1)], counter_to: None, modelled: true, note: "第1回合给全体虚弱 1", },
        20 => RelicDef { id: "BAG_OF_PREPARATION", name: "准备背包", start_status: &[], private_status: &[(St::BagOfPreparation, 2)], counter_to: None, modelled: true, note: "第1回合多抽 2 张", },
        21 => RelicDef { id: "CANDELABRA", name: "烛台", start_status: &[], private_status: &[(St::Candelabra, 2)], counter_to: None, modelled: true, note: "第2回合开始 +2 能量（源码是 ==2，不是 >=2）", },
        22 => RelicDef { id: "HAPPY_FLOWER", name: "开心小花", start_status: &[], private_status: &[(St::HappyFlower, 1)], counter_to: None, modelled: true, note: "每 3 回合 +1 能量", },
        23 => RelicDef { id: "POLLINOUS_CORE", name: "花粉核心", start_status: &[], private_status: &[(St::PollinousCore, 2)], counter_to: None, modelled: true, note: "每 4 回合多抽 2 张", },
        24 => RelicDef { id: "PAELS_FLESH", name: "佩尔之肉", start_status: &[], private_status: &[(St::PaelsFlesh, 1)], counter_to: None, modelled: true, note: "第3回合起每回合 +1 能量", },
        25 => RelicDef { id: "PAELS_BLOOD", name: "佩尔之血", start_status: &[], private_status: &[(St::PaelsBlood, 1)], counter_to: None, modelled: true, note: "[源码] `ModifyHandDraw => count + 1`：每回合起手多抽 1 张，无条件", },
        26 => RelicDef { id: "KUNAI", name: "苦无", start_status: &[], private_status: &[(St::Kunai, 1)], counter_to: None, modelled: true, note: "同回合每 3 张攻击牌 +1 敏捷（第3/6/9张都给）", },
        27 => RelicDef { id: "BOWLER_HAT", name: "圆顶礼帽", start_status: &[], private_status: &[], counter_to: None, modelled: true, note: "局外：金币 +25%", },
        28 => RelicDef { id: "DRAGON_FRUIT", name: "火龙果", start_status: &[], private_status: &[], counter_to: None, modelled: true, note: "局外：获得金币时 +1 最大生命", },
        29 => RelicDef { id: "ETERNAL_FEATHER", name: "永恒羽毛", start_status: &[], private_status: &[], counter_to: None, modelled: true, note: "局外：休息处按牌组张数回血", },
        30 => RelicDef { id: "FUR_COAT", name: "皮草大衣", start_status: &[], private_status: &[], counter_to: None, modelled: true, note: "局外：拾起时标记 7 处战斗，那些敌人只有 1 血。改的是遭遇不是规则", },
        31 => RelicDef { id: "GIRYA", name: "壶铃", start_status: &[], private_status: &[], counter_to: None, modelled: true, note: "局外：休息处换力量（最多3次）。换来的力量是观测量，同步就带进来了", },
        32 => RelicDef { id: "JUZU_BRACELET", name: "佛珠手链", start_status: &[], private_status: &[], counter_to: None, modelled: true, note: "局外：问号房不再遇到常规战斗", },
        33 => RelicDef { id: "LEES_WAFFLE", name: "李家华夫饼", start_status: &[], private_status: &[], counter_to: None, modelled: true, note: "局外：拾起时 +7 最大生命并回满", },
        34 => RelicDef { id: "NEOWS_BONES", name: "涅奥骨骰", start_status: &[], private_status: &[], counter_to: None, modelled: true, note: "局外：拾起时给 2 件涅奥遗物 + 1 张随机诅咒", },
        35 => RelicDef { id: "ORRERY", name: "星系仪", start_status: &[], private_status: &[], counter_to: None, modelled: true, note: "局外：拾起时给 5 次卡牌奖励", },
        36 => RelicDef { id: "PAELS_HORN", name: "佩尔之角", start_status: &[], private_status: &[], counter_to: None, modelled: true, note: "局外：拾起时塞 2 张放松。**那张牌内核还没有**，见缺牌清单", },
        37 => RelicDef { id: "PANTOGRAPH", name: "缩放仪", start_status: &[], private_status: &[], counter_to: None, modelled: true, note: "Boss 房开局回 25 血。规则在 POWERS；'这一场是不是 Boss'走 CONDITIONAL_START", },
        38 => RelicDef { id: "PHIAL_HOLSTER", name: "药瓶皮套", start_status: &[], private_status: &[], counter_to: None, modelled: true, note: "局外：拾起时 +1 药水栏 + 2 瓶随机药水", },
        39 => RelicDef { id: "REGAL_PILLOW", name: "皇家枕头", start_status: &[], private_status: &[], counter_to: None, modelled: true, note: "局外：休息多回 15 血", },
        40 => RelicDef { id: "SHOVEL", name: "铲子", start_status: &[], private_status: &[], counter_to: None, modelled: true, note: "局外：休息处挖遗物", },
        41 => RelicDef { id: "STRAWBERRY", name: "草莓", start_status: &[], private_status: &[], counter_to: None, modelled: true, note: "局外：拾起时 +7 最大生命", },
        42 => RelicDef { id: "SWORD_OF_STONE", name: "石之剑", start_status: &[], private_status: &[], counter_to: None, modelled: true, note: "局外：打完 5 个精英后变成别的遗物", },
        43 => RelicDef { id: "WINGED_BOOTS", name: "羽翼之靴", start_status: &[], private_status: &[], counter_to: None, modelled: true, note: "局外：3 次无视路线", },
        44 => RelicDef { id: "WING_CHARM", name: "羽翼护符", start_status: &[], private_status: &[], counter_to: None, modelled: true, note: "局外：卡牌奖励里随机一张附魔迅捷1", },
        45 => RelicDef { id: "DELICATE_FROND", name: "娇嫩蕨草", start_status: &[], private_status: &[], counter_to: None, modelled: true, note: "局外：每场战斗开始把空药水栏填满。药水本身在内核里，填栏位是局外经济", },
        46 => RelicDef { id: "CHOSEN_CHEESE", name: "天选芝士", start_status: &[], private_status: &[], counter_to: None, modelled: true, note: "局外：战斗结束 +1 最大生命。结算在战斗之后，L1 不欠", },
        47 => RelicDef { id: "BELT_BUCKLE", name: "腰带扣", start_status: &[], private_status: &[], counter_to: None, modelled: false, note: "没有药水时 +2 敏捷。欠「身上还有没有药水」这个**动态**条件（喝完当场生效）", },
        48 => RelicDef { id: "CHEMICAL_X", name: "化学物X", start_status: &[], private_status: &[], counter_to: None, modelled: false, note: "X 费牌效果 +2。欠给 X 加常数的那一处（X 在 step 里当场算）", },
        49 => RelicDef { id: "GHOST_SEED", name: "幽灵种子", start_status: &[], private_status: &[], counter_to: None, modelled: false, note: "打击和防御获得虚无。欠**附魔系统**（改的是牌不是玩家）", },
        50 => RelicDef { id: "GNARLED_HAMMER", name: "扭曲锤子", start_status: &[], private_status: &[], counter_to: None, modelled: true, note: "局外：拾起时给至多 3 张攻击牌附魔锋利3。战斗层由 `ENCHANTS` 的 SHARP 承载", },
        51 => RelicDef { id: "KIFUDA", name: "木札", start_status: &[], private_status: &[], counter_to: None, modelled: false, note: "局外：拾起时附魔娴熟（`ADROIT`）—— 而那一种还没建全（欠附魔侧的 OnPlay）", },
        52 => RelicDef { id: "ROYAL_STAMP", name: "王室印章", start_status: &[], private_status: &[], counter_to: None, modelled: true, note: "局外：拾起时附魔王室认证。战斗层由 `ENCHANTS` 的 ROYALLY_APPROVED 承载（固有+保留）", },
        53 => RelicDef { id: "MYSTIC_LIGHTER", name: "神秘打火机", start_status: &[], private_status: &[], counter_to: None, modelled: false, note: "有附魔的攻击牌 +9 伤害。欠附魔系统", },
        54 => RelicDef { id: "INTIMIDATING_HELMET", name: "骇人头盔", start_status: &[], private_status: &[], counter_to: None, modelled: false, note: "打出费用≥2的牌 +4 格挡。欠「刚打出的这张牌费用是多少」这个条件", },
        55 => RelicDef { id: "PERMAFROST", name: "永冻冰晶", start_status: &[], private_status: &[], counter_to: None, modelled: false, note: "本场第一次打出能力牌 +7 格挡。欠「这张是能力牌」的条件（一次性用 ClearSelf 已经能表达）", },
        56 => RelicDef { id: "PEN_NIB", name: "钢笔尖", start_status: &[], private_status: &[(St::PenNib, 1)], counter_to: Some(St::PenNibCount), modelled: true, note: "[源码] 每第 10 张攻击牌 ×2（`ModifyDamageMultiplicative`，带 IsPoweredAttack 门）", },
        57 => RelicDef { id: "PAPER_PHROG", name: "纸蛙", start_status: &[], private_status: &[], counter_to: None, modelled: false, note: "易伤改成 +75%。欠改伤害管线乘区的开关（damage.rs 那处不许随手改）", },
        58 => RelicDef { id: "RAZOR_TOOTH", name: "剃刀牙", start_status: &[], private_status: &[], counter_to: None, modelled: false, note: "打出的攻击/技能牌本场升级。欠「把这张牌实例本场升级」（升级是换 ops，不是加 bonus）", },
        59 => RelicDef { id: "RED_SKULL", name: "红头骨", start_status: &[], private_status: &[(St::RedSkull, 3)], counter_to: None, modelled: true, note: "[源码+实测] 血量≤50% 时 +3 力量；回血越过阈值时移除。观测力量已含加成", },
        60 => RelicDef { id: "LEAFY_POULTICE", name: "叶子药膏", start_status: &[], private_status: &[], counter_to: None, modelled: true, note: "局外：[源码] AfterObtained 最大生命 −12，把一张打击和一张防御各变形成别的牌。 产物进牌组，战斗层无关", },
        61 => RelicDef { id: "FROZEN_EGG", name: "冰冻蛋", start_status: &[], private_status: &[], counter_to: None, modelled: true, note: "局外：[源码] 卡牌奖励/商店里的**能力牌**自动升级。升级结果进牌组，战斗层无关", },
        62 => RelicDef { id: "SIGNET_RING", name: "图章戒指", start_status: &[], private_status: &[], counter_to: None, modelled: true, note: "局外：[源码] AfterObtained 给 999 金币。战斗层无关", },
        63 => RelicDef { id: "CLOAK_CLASP", name: "斗篷扣", start_status: &[], private_status: &[(St::CloakClasp, 1)], counter_to: None, modelled: true, note: "回合结束时每张手牌给 1 点格挡。层数=每张给几点，规则在 POWERS 的 TurnEnd", },
        64 => RelicDef { id: "HORN_CLEAT", name: "号角靴钉", start_status: &[], private_status: &[(St::HornCleat, 14)], counter_to: None, modelled: true, note: "第 2 回合开始获得 14 点格挡。层数=格挡，规则在 POWERS 的 TurnStart + TurnIs(2)", },
        65 => RelicDef { id: "STONE_CRACKER", name: "碎石者", start_status: &[], private_status: &[(St::StoneCracker, 1)], counter_to: None, modelled: true, note: "[源码] AfterRoomEntered(CombatRoom)：抽牌堆里随机 2 张可升级的牌升级。 规则在 POWERS 的 TurnStart；对拍路径上牌是观测量，那边不挂", },
        66 => RelicDef { id: "REPTILE_TRINKET", name: "爬行动物饰品", start_status: &[], private_status: &[], counter_to: None, modelled: false, note: "用药水时本回合 +3 力量。欠 Hook::PotionUsed", },
        67 => RelicDef { id: "RUINED_HELMET", name: "损毁头盔", start_status: &[], private_status: &[(St::RuinedHelmet, 1)], counter_to: None, modelled: true, note: "[源码] 本场第一次获得力量时层数 ×2（只认给自己的、只认正数）。 [实测] 2026-09-09 金刚杵 1 点 -> 观测到 2 点", },
        68 => RelicDef { id: "SLING_OF_COURAGE", name: "勇气投石索", start_status: &[], private_status: &[], counter_to: None, modelled: false, note: "精英战 +2 力量。欠「这场是不是精英」——房间类型不在 L1 里", },
        69 => RelicDef { id: "STRIKE_DUMMY", name: "打击木偶", start_status: &[], private_status: &[(St::StrikeDummy, 3)], counter_to: None, modelled: true, note: "[源码+实测] CardTag.Strike 的有源攻击 +3，位于乘区之前", },
        70 => RelicDef { id: "THE_ABACUS", name: "算盘", start_status: &[], private_status: &[], counter_to: None, modelled: false, note: "每次洗抽牌堆 +6 格挡。欠 Hook::Shuffle（洗牌已收口在 regularize_and_shuffle_draw，加钩子不难）", },
        71 => RelicDef { id: "TOOLBOX", name: "工具箱", start_status: &[], private_status: &[], counter_to: None, modelled: false, note: "战斗开始从 3 张无色牌里挑 1 张。欠「从生成的候选里选」那种 Pending，和无色药水同一个", },
        72 => RelicDef { id: "UNSETTLING_LAMP", name: "不安油灯", start_status: &[], private_status: &[], counter_to: None, modelled: false, note: "本场第一次给负面状态时效果翻倍。欠「施加 status 时插一手」的钩子", },
        73 => RelicDef { id: "VENERABLE_TEA_SET", name: "古茶具套装", start_status: &[], private_status: &[], counter_to: None, modelled: true, note: "休息后的第一场战斗 +2 能量。规则在 POWERS 的 TurnStart； 武装要调用方给「上一场是不是休息处」，见 REST_ARMED", },
        74 => RelicDef { id: "PARRYING_SHIELD", name: "招架盾", start_status: &[], private_status: &[(St::ParryingShield, 6)], counter_to: None, modelled: true, note: "回合结束时格挡≥10 则随机敌人 6 点。层数=伤害，门槛在 TCond 里", },
        75 => RelicDef { id: "SCREAMING_FLAGON", name: "尖叫酒壶", start_status: &[], private_status: &[(St::ScreamingFlagon, 20)], counter_to: None, modelled: true, note: "回合结束手牌为空则全体敌人 20 点。层数=伤害，时点门槛在 TCond::HandEmpty", },
        76 => RelicDef { id: "CENTENNIAL_PUZZLE", name: "百年积木", start_status: &[], private_status: &[(St::CentennialPuzzle, 3)], counter_to: None, modelled: true, note: "本场第一次掉血抽 3 张。一次性靠规则里的 ClearSelf", },
        77 => RelicDef { id: "VAMBRACE", name: "臂甲", start_status: &[], private_status: &[(St::VambraceCharge, 1)], counter_to: None, modelled: true, note: "首次从卡牌获得的格挡翻倍。**和脆弱的先后顺序未实测**，取了不高估玩家的那边", },
        78 => RelicDef { id: "GREMLIN_HORN", name: "地精之角", start_status: &[], private_status: &[(St::GremlinHorn, 1)], counter_to: None, modelled: true, note: "敌人死亡时 +1 能量并抽 1 张牌。规则在 POWERS 的 Hook::EnemyDied", },
        79 => RelicDef { id: "MR_STRUGGLES", name: "抱抱先生", start_status: &[], private_status: &[(St::MrStruggles, 1)], counter_to: None, modelled: true, note: "回合开始对全体造成等于回合数的伤害。规则在 POWERS 的 Hook::TurnStart", },
        80 => RelicDef { id: "CAPTAINS_WHEEL", name: "舵盘", start_status: &[], private_status: &[(St::CaptainsWheel, 18)], counter_to: None, modelled: true, note: "第3回合开始 +18 格挡。Unpowered，所以不吃脆弱也不吃臂甲翻倍", },
        81 => RelicDef { id: "POTION_BELT", name: "药水腰带", start_status: &[], private_status: &[], counter_to: None, modelled: true, note: "+2 药水栏位。槽位数现在是**观测量** `State::potion_slots`（游戏在 \n player.max_potion_slots 里直接报），所以这件遗物不需要战斗层建模 —— \n 改槽位的还有炼金宝匣 +4、药瓶皮套 +1，高进阶初始 3→2，反推一定会错", },
        82 => RelicDef { id: "BURNING_BLOOD", name: "燃烧之血", start_status: &[], private_status: &[(St::BurningBlood, 6)], counter_to: None, modelled: true, note: "战斗胜利回6。铁甲战士自带，每局开局就有。[源码] AfterCombatVictory，玩家死了不触发", },
        83 => RelicDef { id: "MEAT_ON_THE_BONE", name: "带骨肉", start_status: &[], private_status: &[(St::MeatOnTheBone, 12)], counter_to: None, modelled: true, note: "战斗胜利时血量≤max/2（向下取整）则回12。**在燃烧之血之前结算**，所以阈值不含那6点", },
        84 => RelicDef { id: "ORNAMENTAL_FAN", name: "精致折扇", start_status: &[], private_status: &[(St::OrnamentalFan, 4)], counter_to: None, modelled: true, note: "同回合每第3张攻击牌给4格挡。[源码] 是 %3==0，第6/9张也给；格挡 Unpowered，不吃脆弱/臂甲", },
        85 => RelicDef { id: "MERCURY_HOURGLASS", name: "水银沙漏", start_status: &[], private_status: &[(St::MercuryHourglass, 3)], counter_to: None, modelled: true, note: "回合开始对全体3点。[源码] Unpowered，不吃力量", },
        86 => RelicDef { id: "LANTERN", name: "灯笼", start_status: &[], private_status: &[(St::Lantern, 1)], counter_to: None, modelled: true, note: "第一回合+1能量。[源码] 是 TurnNumber <= 1，不是 == 1", },
        87 => RelicDef { id: "AKABEKO", name: "赤牛", start_status: &[], private_status: &[(St::Akabeko, 8)], counter_to: None, modelled: true, note: "第一回合开始 +8 活力。活力=下一张攻击牌的加法加值，**多段牌每段都吃满**（[源码] 钩子在多段循环外）", },
        88 => RelicDef { id: "PETRIFIED_TOAD", name: "石化蟾蜍", start_status: &[], private_status: &[], counter_to: None, modelled: true, note: "开局塞一瓶药水形状的石头。药水槽是观测量，所以战斗层无关；那瓶药水在 POTIONS 里", },
        89 => RelicDef { id: "PENDULUM", name: "摆动球", start_status: &[], private_status: &[(St::Pendulum, 1)], counter_to: Some(St::PendulumPhase), modelled: true, note: "每3回合抽1张。**相位跨战斗保留**（[源码] TurnsSeen 带 SavedProperty），所以从观测的计数器灌相位，别假设从0开始", },
        90 => RelicDef { id: "STONE_CALENDAR", name: "历石", start_status: &[], private_status: &[(St::StoneCalendar, 52)], counter_to: None, modelled: true, note: "第7回合结束对全体52点", },
        91 => RelicDef { id: "ORICHALCUM", name: "奥利哈钢", start_status: &[], private_status: &[(St::Orichalcum, 6)], counter_to: None, modelled: true, note: "回合结束无格挡则+6。**两段式**：TurnEndVeryEarly 快照、TurnEnd 结算，因为覆甲在第二段给格挡", },
        92 => RelicDef { id: "VAJRA", name: "金刚杵", start_status: &[(St::Strength, 1)], private_status: &[], counter_to: None, modelled: true, note: "每场战斗开始获得1点力量", },
        93 => RelicDef { id: "GORGET", name: "护喉甲", start_status: &[(St::PlatedArmor, 4)], private_status: &[], counter_to: None, modelled: true, note: "每场战斗开始获得4层覆甲", },
        94 => RelicDef { id: "ODDLY_SMOOTH_STONE", name: "意外光滑的石头", start_status: &[(St::Dexterity, 1)], private_status: &[], counter_to: None, modelled: true, note: "每场战斗开始获得1点敏捷", },
        95 => RelicDef { id: "BRONZE_SCALES", name: "铜质鳞片", start_status: &[(St::Thorns, 3)], private_status: &[], counter_to: None, modelled: true, note: "每场战斗开始获得3点荆棘。规则 2026-08-29 才建（在那之前 St::Thorns 没有任何消费点，两侧都不生效）。**这条注释原来写的是「只在敌人身上验过」，是错的** —— 敌人侧同样没建", },
        96 => RelicDef { id: "LOST_COFFER", name: "失物盒", start_status: &[], private_status: &[], counter_to: None, modelled: true, note: "局外：[源码] AfterObtained 给 1 次卡牌奖励 + 1 瓶药水。战斗层无关", },
        97 => RelicDef { id: "PLANISPHERE", name: "活动星图", start_status: &[], private_status: &[], counter_to: None, modelled: true, note: "局外：[源码] AfterRoomEntered 且当前是 ? 房间时回 5 血。战斗层无关", },
        98 => RelicDef { id: "YUMMY_COOKIE", name: "美味饼干", start_status: &[], private_status: &[], counter_to: None, modelled: true, note: "局外：拾起时升级 4 张牌。战斗层无关", },
        99 => RelicDef { id: "BELLOWS", name: "风箱", start_status: &[], private_status: &[(St::UpgradeOpeningHand, 1)], counter_to: None, modelled: true, note: "[源码] AfterPlayerTurnStart 且 TurnNumber<=1 升级手牌。规则在 POWERS 的 HandDrawn； 对拍路径上手牌是观测量（sync 照抄升级态），那边不挂这个 status", },
        100 => RelicDef { id: "BONE_TEA", name: "骨茶", start_status: &[], private_status: &[], counter_to: None, modelled: true, note: "[源码] 接下来 N 场战斗开局升级初始手牌（和风箱同一个 status）。 '还剩几场'是局外状态而且 ShowCounter=false，走 CONDITIONAL_START 由调用方给", },
        101 => RelicDef { id: "BLOOD_VIAL", name: "小血瓶", start_status: &[], private_status: &[(St::BloodVial, 2)], counter_to: None, modelled: true, note: "[源码] AfterPlayerTurnStartLate 且 TurnNumber<=1 回 2 血。规则在 POWERS； 对拍路径上血量是观测量（开局 66->68 已经含它），那边不挂", },
        102 => RelicDef { id: "PEAR", name: "梨子", start_status: &[], private_status: &[], counter_to: None, modelled: true, note: "局外：[源码] 拾起时最大生命值 +10。战斗层无关", },
        103 => RelicDef { id: "JEWELED_MASK", name: "宝石面具", start_status: &[], private_status: &[(St::JeweledMask, 1)], counter_to: None, modelled: true, note: "[源码] BeforeHandDraw 且 TurnNumber<=1：抽牌堆里随机一张能力牌进手牌 + SetToFreeThisTurn。 规则在 POWERS 的 TurnStart（抽牌之前）；对拍路径上手牌和费用是观测量，那边不挂", },
        104 => RelicDef { id: "NEOWS_TORMENT", name: "涅奥的苦痛", start_status: &[], private_status: &[], counter_to: None, modelled: true, note: "局外：[源码] 拾起时将 1 张涅奥之怒加入牌组。战斗层无关", },
        _ => RelicDef { id: "AMETHYST_AUBERGINE", name: "紫水晶茄子", start_status: &[], private_status: &[], counter_to: None, modelled: true, note: "局外：[源码] 敌人额外掉落 15 金币。战斗层无关", },
    }
}

/// Relic `i` of the relic table.
pub fn relic_at(i: u16) -> (r: &'static RelicDef)
    requires
        i < RELIC_COUNT,
    ensures
        *r == relic_row(i),
{
    if i < 12 {
        relic_at_0(i)
    } else if i < 24 {
        relic_at_1(i)
    } else if i < 36 {
        relic_at_2(i)
    } else if i < 48 {
        relic_at_3(i)
    } else if i < 60 {
        relic_at_4(i)
    } else if i < 72 {
        relic_at_5(i)
    } else if i < 84 {
        relic_at_6(i)
    } else if i < 96 {
        relic_at_7(i)
    } else {
        relic_at_8(i)
    }
}

fn relic_at_0(i: u16) -> (r: &'static RelicDef)
    requires
        0 <= i <= 11,
    ensures
        *r == relic_row(i),
{
    proof {
        reveal(relic_row);
    }
    match i {
        0 => &RelicDef { id: "MANGO", name: "芒果", start_status: &[], private_status: &[], counter_to: None, modelled: true, note: "[源码] 拾取时最大生命 +14；战斗观测已含，不重复施加", },
        1 => &RelicDef { id: "BING_BONG", name: "宾邦", start_status: &[], private_status: &[], counter_to: None, modelled: true, note: "[源码] 新加入主牌组的牌复制一张；局外效果，主牌组快照已含", },
        2 => &RelicDef { id: "SILVER_CRUCIBLE", name: "白银熔炉", start_status: &[], private_status: &[], counter_to: None, modelled: true, note: "局外：前3次卡牌奖励升级 + 第一个宝箱为空。战斗层无关", },
        3 => &RelicDef { id: "PAELS_WING", name: "佩尔之翼", start_status: &[], private_status: &[], counter_to: None, modelled: true, note: "局外：卡牌奖励献祭换遗物。战斗层无关", },
        4 => &RelicDef { id: "ARCANE_SCROLL", name: "奥术卷轴", start_status: &[], private_status: &[], counter_to: None, modelled: true, note: "局外：拾起时把一张随机稀有牌加进牌组。战斗层无关", },
        5 => &RelicDef { id: "WAR_PAINT", name: "战纹涂料", start_status: &[], private_status: &[], counter_to: None, modelled: true, note: "局外：拾起时随机升级 2 张技能牌。升级结果进牌组，战斗层无关", },
        6 => &RelicDef { id: "WHETSTONE", name: "磨刀石", start_status: &[], private_status: &[], counter_to: None, modelled: true, note: "局外：拾起时随机升级 2 张攻击牌。升级结果进牌组，战斗层无关", },
        7 => &RelicDef { id: "MEAL_TICKET", name: "餐券", start_status: &[], private_status: &[], counter_to: None, modelled: true, note: "局外：进商店回 15 点生命。战斗层无关", },
        8 => &RelicDef { id: "STORYBOOK", name: "故事书", start_status: &[], private_status: &[], counter_to: None, modelled: true, note: "局外：拾起时把 1 张至亮之焰加进牌组。那张牌本身在内容表里", },
        9 => &RelicDef { id: "LETTER_OPENER", name: "开信刀", start_status: &[], private_status: &[(St::LetterOpener, 5)], counter_to: None, modelled: true, note: "同回合每 3 张技能牌对全体 5 点。层数=伤害，计数在 State::skills_played", },
        10 => &RelicDef { id: "ANCHOR", name: "锚", start_status: &[], private_status: &[(St::Anchor, 10)], counter_to: None, modelled: true, note: "战斗开始 10 点格挡（Unpowered）。层数=格挡值", },
        _ => &RelicDef { id: "FAKE_ANCHOR", name: "锚？？？", start_status: &[], private_status: &[(St::Anchor, 4)], counter_to: None, modelled: true, note: "假商人版：战斗开始 4 点格挡（真锚是 10）", },
    }
}

fn relic_at_1(i: u16) -> (r: &'static RelicDef)
    requires
        12 <= i <= 23,
    ensures
        *r == relic_row(i),
{
    proof {
        reveal(relic_row);
    }
    match i {
        12 => &RelicDef { id: "TANXS_WHISTLE", name: "坦克斯的哨子", start_status: &[], private_status: &[], counter_to: None, modelled: true, note: "局外：拾起时把 1 张吹哨加进牌组。那张牌进牌组之后就是普通牌，战斗层无关", },
        13 => &RelicDef { id: "FAKE_BLOOD_VIAL", name: "小血瓶？？？", start_status: &[], private_status: &[(St::BloodVial, 1)], counter_to: None, modelled: true, note: "假商人版：开局回 1 血（真品 2）。和真品同一条规则，层数不同", },
        14 => &RelicDef { id: "FAKE_HAPPY_FLOWER", name: "开心小花？？？", start_status: &[], private_status: &[(St::FakeHappyFlower, 1)], counter_to: None, modelled: true, note: "假商人版：每 5 回合 +1 能量（真品每 3 回合）。周期不同，所以单独一条规则", },
        15 => &RelicDef { id: "FAKE_MANGO", name: "芒果？？？", start_status: &[], private_status: &[], counter_to: None, modelled: true, note: "局外：拾起时最大生命 +3（真品 +5）。战斗层无关", },
        16 => &RelicDef { id: "FAKE_SNECKO_EYE", name: "异蛇之眼？？？", start_status: &[], private_status: &[], counter_to: None, modelled: false, note: "假商人版：每场战斗开始获得混乱（真品还多抽 2 张）。欠**混乱** —— 「手牌费用随机化」要给 CardInst 加一条本场随机费用，内核没有这个概念", },
        17 => &RelicDef { id: "FAKE_VENERABLE_TEA_SET", name: "古茶具套装？？？", start_status: &[], private_status: &[], counter_to: None, modelled: true, note: "假商人版：休息后第一场战斗 +1 能量（真品 +2）。和真品同一条路，见 REST_ARMED", },
        18 => &RelicDef { id: "BAG_OF_MARBLES", name: "弹珠袋", start_status: &[], private_status: &[(St::BagOfMarbles, 1)], counter_to: None, modelled: true, note: "第1回合给全体易伤 1", },
        19 => &RelicDef { id: "RED_MASK", name: "红面具", start_status: &[], private_status: &[(St::RedMask, 1)], counter_to: None, modelled: true, note: "第1回合给全体虚弱 1", },
        20 => &RelicDef { id: "BAG_OF_PREPARATION", name: "准备背包", start_status: &[], private_status: &[(St::BagOfPreparation, 2)], counter_to: None, modelled: true, note: "第1回合多抽 2 张", },
        21 => &RelicDef { id: "CANDELABRA", name: "烛台", start_status: &[], private_status: &[(St::Candelabra, 2)], counter_to: None, modelled: true, note: "第2回合开始 +2 能量（源码是 ==2，不是 >=2）", },
        22 => &RelicDef { id: "HAPPY_FLOWER", name: "开心小花", start_status: &[], private_status: &[(St::HappyFlower, 1)], counter_to: None, modelled: true, note: "每 3 回合 +1 能量", },
        _ => &RelicDef { id: "POLLINOUS_CORE", name: "花粉核心", start_status: &[], private_status: &[(St::PollinousCore, 2)], counter_to: None, modelled: true, note: "每 4 回合多抽 2 张", },
    }
}

fn relic_at_2(i: u16) -> (r: &'static RelicDef)
    requires
        24 <= i <= 35,
    ensures
        *r == relic_row(i),
{
    proof {
        reveal(relic_row);
    }
    match i {
        24 => &RelicDef { id: "PAELS_FLESH", name: "佩尔之肉", start_status: &[], private_status: &[(St::PaelsFlesh, 1)], counter_to: None, modelled: true, note: "第3回合起每回合 +1 能量", },
        25 => &RelicDef { id: "PAELS_BLOOD", name: "佩尔之血", start_status: &[], private_status: &[(St::PaelsBlood, 1)], counter_to: None, modelled: true, note: "[源码] `ModifyHandDraw => count + 1`：每回合起手多抽 1 张，无条件", },
        26 => &RelicDef { id: "KUNAI", name: "苦无", start_status: &[], private_status: &[(St::Kunai, 1)], counter_to: None, modelled: true, note: "同回合每 3 张攻击牌 +1 敏捷（第3/6/9张都给）", },
        27 => &RelicDef { id: "BOWLER_HAT", name: "圆顶礼帽", start_status: &[], private_status: &[], counter_to: None, modelled: true, note: "局外：金币 +25%", },
        28 => &RelicDef { id: "DRAGON_FRUIT", name: "火龙果", start_status: &[], private_status: &[], counter_to: None, modelled: true, note: "局外：获得金币时 +1 最大生命", },
        29 => &RelicDef { id: "ETERNAL_FEATHER", name: "永恒羽毛", start_status: &[], private_status: &[], counter_to: None, modelled: true, note: "局外：休息处按牌组张数回血", },
        30 => &RelicDef { id: "FUR_COAT", name: "皮草大衣", start_status: &[], private_status: &[], counter_to: None, modelled: true, note: "局外：拾起时标记 7 处战斗，那些敌人只有 1 血。改的是遭遇不是规则", },
        31 => &RelicDef { id: "GIRYA", name: "壶铃", start_status: &[], private_status: &[], counter_to: None, modelled: true, note: "局外：休息处换力量（最多3次）。换来的力量是观测量，同步就带进来了", },
        32 => &RelicDef { id: "JUZU_BRACELET", name: "佛珠手链", start_status: &[], private_status: &[], counter_to: None, modelled: true, note: "局外：问号房不再遇到常规战斗", },
        33 => &RelicDef { id: "LEES_WAFFLE", name: "李家华夫饼", start_status: &[], private_status: &[], counter_to: None, modelled: true, note: "局外：拾起时 +7 最大生命并回满", },
        34 => &RelicDef { id: "NEOWS_BONES", name: "涅奥骨骰", start_status: &[], private_status: &[], counter_to: None, modelled: true, note: "局外：拾起时给 2 件涅奥遗物 + 1 张随机诅咒", },
        _ => &RelicDef { id: "ORRERY", name: "星系仪", start_status: &[], private_status: &[], counter_to: None, modelled: true, note: "局外：拾起时给 5 次卡牌奖励", },
    }
}

fn relic_at_3(i: u16) -> (r: &'static RelicDef)
    requires
        36 <= i <= 47,
    ensures
        *r == relic_row(i),
{
    proof {
        reveal(relic_row);
    }
    match i {
        36 => &RelicDef { id: "PAELS_HORN", name: "佩尔之角", start_status: &[], private_status: &[], counter_to: None, modelled: true, note: "局外：拾起时塞 2 张放松。**那张牌内核还没有**，见缺牌清单", },
        37 => &RelicDef { id: "PANTOGRAPH", name: "缩放仪", start_status: &[], private_status: &[], counter_to: None, modelled: true, note: "Boss 房开局回 25 血。规则在 POWERS；'这一场是不是 Boss'走 CONDITIONAL_START", },
        38 => &RelicDef { id: "PHIAL_HOLSTER", name: "药瓶皮套", start_status: &[], private_status: &[], counter_to: None, modelled: true, note: "局外：拾起时 +1 药水栏 + 2 瓶随机药水", },
        39 => &RelicDef { id: "REGAL_PILLOW", name: "皇家枕头", start_status: &[], private_status: &[], counter_to: None, modelled: true, note: "局外：休息多回 15 血", },
        40 => &RelicDef { id: "SHOVEL", name: "铲子", start_status: &[], private_status: &[], counter_to: None, modelled: true, note: "局外：休息处挖遗物", },
        41 => &RelicDef { id: "STRAWBERRY", name: "草莓", start_status: &[], private_status: &[], counter_to: None, modelled: true, note: "局外：拾起时 +7 最大生命", },
        42 => &RelicDef { id: "SWORD_OF_STONE", name: "石之剑", start_status: &[], private_status: &[], counter_to: None, modelled: true, note: "局外：打完 5 个精英后变成别的遗物", },
        43 => &RelicDef { id: "WINGED_BOOTS", name: "羽翼之靴", start_status: &[], private_status: &[], counter_to: None, modelled: true, note: "局外：3 次无视路线", },
        44 => &RelicDef { id: "WING_CHARM", name: "羽翼护符", start_status: &[], private_status: &[], counter_to: None, modelled: true, note: "局外：卡牌奖励里随机一张附魔迅捷1", },
        45 => &RelicDef { id: "DELICATE_FROND", name: "娇嫩蕨草", start_status: &[], private_status: &[], counter_to: None, modelled: true, note: "局外：每场战斗开始把空药水栏填满。药水本身在内核里，填栏位是局外经济", },
        46 => &RelicDef { id: "CHOSEN_CHEESE", name: "天选芝士", start_status: &[], private_status: &[], counter_to: None, modelled: true, note: "局外：战斗结束 +1 最大生命。结算在战斗之后，L1 不欠", },
        _ => &RelicDef { id: "BELT_BUCKLE", name: "腰带扣", start_status: &[], private_status: &[], counter_to: None, modelled: false, note: "没有药水时 +2 敏捷。欠「身上还有没有药水」这个**动态**条件（喝完当场生效）", },
    }
}

fn relic_at_4(i: u16) -> (r: &'static RelicDef)
    requires
        48 <= i <= 59,
    ensures
        *r == relic_row(i),
{
    proof {
        reveal(relic_row);
    }
    match i {
        48 => &RelicDef { id: "CHEMICAL_X", name: "化学物X", start_status: &[], private_status: &[], counter_to: None, modelled: false, note: "X 费牌效果 +2。欠给 X 加常数的那一处（X 在 step 里当场算）", },
        49 => &RelicDef { id: "GHOST_SEED", name: "幽灵种子", start_status: &[], private_status: &[], counter_to: None, modelled: false, note: "打击和防御获得虚无。欠**附魔系统**（改的是牌不是玩家）", },
        50 => &RelicDef { id: "GNARLED_HAMMER", name: "扭曲锤子", start_status: &[], private_status: &[], counter_to: None, modelled: true, note: "局外：拾起时给至多 3 张攻击牌附魔锋利3。战斗层由 `ENCHANTS` 的 SHARP 承载", },
        51 => &RelicDef { id: "KIFUDA", name: "木札", start_status: &[], private_status: &[], counter_to: None, modelled: false, note: "局外：拾起时附魔娴熟（`ADROIT`）—— 而那一种还没建全（欠附魔侧的 OnPlay）", },
        52 => &RelicDef { id: "ROYAL_STAMP", name: "王室印章", start_status: &[], private_status: &[], counter_to: None, modelled: true, note: "局外：拾起时附魔王室认证。战斗层由 `ENCHANTS` 的 ROYALLY_APPROVED 承载（固有+保留）", },
        53 => &RelicDef { id: "MYSTIC_LIGHTER", name: "神秘打火机", start_status: &[], private_status: &[], counter_to: None, modelled: false, note: "有附魔的攻击牌 +9 伤害。欠附魔系统", },
        54 => &RelicDef { id: "INTIMIDATING_HELMET", name: "骇人头盔", start_status: &[], private_status: &[], counter_to: None, modelled: false, note: "打出费用≥2的牌 +4 格挡。欠「刚打出的这张牌费用是多少」这个条件", },
        55 => &RelicDef { id: "PERMAFROST", name: "永冻冰晶", start_status: &[], private_status: &[], counter_to: None, modelled: false, note: "本场第一次打出能力牌 +7 格挡。欠「这张是能力牌」的条件（一次性用 ClearSelf 已经能表达）", },
        56 => &RelicDef { id: "PEN_NIB", name: "钢笔尖", start_status: &[], private_status: &[(St::PenNib, 1)], counter_to: Some(St::PenNibCount), modelled: true, note: "[源码] 每第 10 张攻击牌 ×2（`ModifyDamageMultiplicative`，带 IsPoweredAttack 门）", },
        57 => &RelicDef { id: "PAPER_PHROG", name: "纸蛙", start_status: &[], private_status: &[], counter_to: None, modelled: false, note: "易伤改成 +75%。欠改伤害管线乘区的开关（damage.rs 那处不许随手改）", },
        58 => &RelicDef { id: "RAZOR_TOOTH", name: "剃刀牙", start_status: &[], private_status: &[], counter_to: None, modelled: false, note: "打出的攻击/技能牌本场升级。欠「把这张牌实例本场升级」（升级是换 ops，不是加 bonus）", },
        _ => &RelicDef { id: "RED_SKULL", name: "红头骨", start_status: &[], private_status: &[(St::RedSkull, 3)], counter_to: None, modelled: true, note: "[源码+实测] 血量≤50% 时 +3 力量；回血越过阈值时移除。观测力量已含加成", },
    }
}

fn relic_at_5(i: u16) -> (r: &'static RelicDef)
    requires
        60 <= i <= 71,
    ensures
        *r == relic_row(i),
{
    proof {
        reveal(relic_row);
    }
    match i {
        60 => &RelicDef { id: "LEAFY_POULTICE", name: "叶子药膏", start_status: &[], private_status: &[], counter_to: None, modelled: true, note: "局外：[源码] AfterObtained 最大生命 −12，把一张打击和一张防御各变形成别的牌。 产物进牌组，战斗层无关", },
        61 => &RelicDef { id: "FROZEN_EGG", name: "冰冻蛋", start_status: &[], private_status: &[], counter_to: None, modelled: true, note: "局外：[源码] 卡牌奖励/商店里的**能力牌**自动升级。升级结果进牌组，战斗层无关", },
        62 => &RelicDef { id: "SIGNET_RING", name: "图章戒指", start_status: &[], private_status: &[], counter_to: None, modelled: true, note: "局外：[源码] AfterObtained 给 999 金币。战斗层无关", },
        63 => &RelicDef { id: "CLOAK_CLASP", name: "斗篷扣", start_status: &[], private_status: &[(St::CloakClasp, 1)], counter_to: None, modelled: true, note: "回合结束时每张手牌给 1 点格挡。层数=每张给几点，规则在 POWERS 的 TurnEnd", },
        64 => &RelicDef { id: "HORN_CLEAT", name: "号角靴钉", start_status: &[], private_status: &[(St::HornCleat, 14)], counter_to: None, modelled: true, note: "第 2 回合开始获得 14 点格挡。层数=格挡，规则在 POWERS 的 TurnStart + TurnIs(2)", },
        65 => &RelicDef { id: "STONE_CRACKER", name: "碎石者", start_status: &[], private_status: &[(St::StoneCracker, 1)], counter_to: None, modelled: true, note: "[源码] AfterRoomEntered(CombatRoom)：抽牌堆里随机 2 张可升级的牌升级。 规则在 POWERS 的 TurnStart；对拍路径上牌是观测量，那边不挂", },
        66 => &RelicDef { id: "REPTILE_TRINKET", name: "爬行动物饰品", start_status: &[], private_status: &[], counter_to: None, modelled: false, note: "用药水时本回合 +3 力量。欠 Hook::PotionUsed", },
        67 => &RelicDef { id: "RUINED_HELMET", name: "损毁头盔", start_status: &[], private_status: &[(St::RuinedHelmet, 1)], counter_to: None, modelled: true, note: "[源码] 本场第一次获得力量时层数 ×2（只认给自己的、只认正数）。 [实测] 2026-09-09 金刚杵 1 点 -> 观测到 2 点", },
        68 => &RelicDef { id: "SLING_OF_COURAGE", name: "勇气投石索", start_status: &[], private_status: &[], counter_to: None, modelled: false, note: "精英战 +2 力量。欠「这场是不是精英」——房间类型不在 L1 里", },
        69 => &RelicDef { id: "STRIKE_DUMMY", name: "打击木偶", start_status: &[], private_status: &[(St::StrikeDummy, 3)], counter_to: None, modelled: true, note: "[源码+实测] CardTag.Strike 的有源攻击 +3，位于乘区之前", },
        70 => &RelicDef { id: "THE_ABACUS", name: "算盘", start_status: &[], private_status: &[], counter_to: None, modelled: false, note: "每次洗抽牌堆 +6 格挡。欠 Hook::Shuffle（洗牌已收口在 regularize_and_shuffle_draw，加钩子不难）", },
        _ => &RelicDef { id: "TOOLBOX", name: "工具箱", start_status: &[], private_status: &[], counter_to: None, modelled: false, note: "战斗开始从 3 张无色牌里挑 1 张。欠「从生成的候选里选」那种 Pending，和无色药水同一个", },
    }
}

fn relic_at_6(i: u16) -> (r: &'static RelicDef)
    requires
        72 <= i <= 83,
    ensures
        *r == relic_row(i),
{
    proof {
        reveal(relic_row);
    }
    match i {
        72 => &RelicDef { id: "UNSETTLING_LAMP", name: "不安油灯", start_status: &[], private_status: &[], counter_to: None, modelled: false, note: "本场第一次给负面状态时效果翻倍。欠「施加 status 时插一手」的钩子", },
        73 => &RelicDef { id: "VENERABLE_TEA_SET", name: "古茶具套装", start_status: &[], private_status: &[], counter_to: None, modelled: true, note: "休息后的第一场战斗 +2 能量。规则在 POWERS 的 TurnStart； 武装要调用方给「上一场是不是休息处」，见 REST_ARMED", },
        74 => &RelicDef { id: "PARRYING_SHIELD", name: "招架盾", start_status: &[], private_status: &[(St::ParryingShield, 6)], counter_to: None, modelled: true, note: "回合结束时格挡≥10 则随机敌人 6 点。层数=伤害，门槛在 TCond 里", },
        75 => &RelicDef { id: "SCREAMING_FLAGON", name: "尖叫酒壶", start_status: &[], private_status: &[(St::ScreamingFlagon, 20)], counter_to: None, modelled: true, note: "回合结束手牌为空则全体敌人 20 点。层数=伤害，时点门槛在 TCond::HandEmpty", },
        76 => &RelicDef { id: "CENTENNIAL_PUZZLE", name: "百年积木", start_status: &[], private_status: &[(St::CentennialPuzzle, 3)], counter_to: None, modelled: true, note: "本场第一次掉血抽 3 张。一次性靠规则里的 ClearSelf", },
        77 => &RelicDef { id: "VAMBRACE", name: "臂甲", start_status: &[], private_status: &[(St::VambraceCharge, 1)], counter_to: None, modelled: true, note: "首次从卡牌获得的格挡翻倍。**和脆弱的先后顺序未实测**，取了不高估玩家的那边", },
        78 => &RelicDef { id: "GREMLIN_HORN", name: "地精之角", start_status: &[], private_status: &[(St::GremlinHorn, 1)], counter_to: None, modelled: true, note: "敌人死亡时 +1 能量并抽 1 张牌。规则在 POWERS 的 Hook::EnemyDied", },
        79 => &RelicDef { id: "MR_STRUGGLES", name: "抱抱先生", start_status: &[], private_status: &[(St::MrStruggles, 1)], counter_to: None, modelled: true, note: "回合开始对全体造成等于回合数的伤害。规则在 POWERS 的 Hook::TurnStart", },
        80 => &RelicDef { id: "CAPTAINS_WHEEL", name: "舵盘", start_status: &[], private_status: &[(St::CaptainsWheel, 18)], counter_to: None, modelled: true, note: "第3回合开始 +18 格挡。Unpowered，所以不吃脆弱也不吃臂甲翻倍", },
        81 => &RelicDef { id: "POTION_BELT", name: "药水腰带", start_status: &[], private_status: &[], counter_to: None, modelled: true, note: "+2 药水栏位。槽位数现在是**观测量** `State::potion_slots`（游戏在 \n player.max_potion_slots 里直接报），所以这件遗物不需要战斗层建模 —— \n 改槽位的还有炼金宝匣 +4、药瓶皮套 +1，高进阶初始 3→2，反推一定会错", },
        82 => &RelicDef { id: "BURNING_BLOOD", name: "燃烧之血", start_status: &[], private_status: &[(St::BurningBlood, 6)], counter_to: None, modelled: true, note: "战斗胜利回6。铁甲战士自带，每局开局就有。[源码] AfterCombatVictory，玩家死了不触发", },
        _ => &RelicDef { id: "MEAT_ON_THE_BONE", name: "带骨肉", start_status: &[], private_status: &[(St::MeatOnTheBone, 12)], counter_to: None, modelled: true, note: "战斗胜利时血量≤max/2（向下取整）则回12。**在燃烧之血之前结算**，所以阈值不含那6点", },
    }
}

fn relic_at_7(i: u16) -> (r: &'static RelicDef)
    requires
        84 <= i <= 95,
    ensures
        *r == relic_row(i),
{
    proof {
        reveal(relic_row);
    }
    match i {
        84 => &RelicDef { id: "ORNAMENTAL_FAN", name: "精致折扇", start_status: &[], private_status: &[(St::OrnamentalFan, 4)], counter_to: None, modelled: true, note: "同回合每第3张攻击牌给4格挡。[源码] 是 %3==0，第6/9张也给；格挡 Unpowered，不吃脆弱/臂甲", },
        85 => &RelicDef { id: "MERCURY_HOURGLASS", name: "水银沙漏", start_status: &[], private_status: &[(St::MercuryHourglass, 3)], counter_to: None, modelled: true, note: "回合开始对全体3点。[源码] Unpowered，不吃力量", },
        86 => &RelicDef { id: "LANTERN", name: "灯笼", start_status: &[], private_status: &[(St::Lantern, 1)], counter_to: None, modelled: true, note: "第一回合+1能量。[源码] 是 TurnNumber <= 1，不是 == 1", },
        87 => &RelicDef { id: "AKABEKO", name: "赤牛", start_status: &[], private_status: &[(St::Akabeko, 8)], counter_to: None, modelled: true, note: "第一回合开始 +8 活力。活力=下一张攻击牌的加法加值，**多段牌每段都吃满**（[源码] 钩子在多段循环外）", },
        88 => &RelicDef { id: "PETRIFIED_TOAD", name: "石化蟾蜍", start_status: &[], private_status: &[], counter_to: None, modelled: true, note: "开局塞一瓶药水形状的石头。药水槽是观测量，所以战斗层无关；那瓶药水在 POTIONS 里", },
        89 => &RelicDef { id: "PENDULUM", name: "摆动球", start_status: &[], private_status: &[(St::Pendulum, 1)], counter_to: Some(St::PendulumPhase), modelled: true, note: "每3回合抽1张。**相位跨战斗保留**（[源码] TurnsSeen 带 SavedProperty），所以从观测的计数器灌相位，别假设从0开始", },
        90 => &RelicDef { id: "STONE_CALENDAR", name: "历石", start_status: &[], private_status: &[(St::StoneCalendar, 52)], counter_to: None, modelled: true, note: "第7回合结束对全体52点", },
        91 => &RelicDef { id: "ORICHALCUM", name: "奥利哈钢", start_status: &[], private_status: &[(St::Orichalcum, 6)], counter_to: None, modelled: true, note: "回合结束无格挡则+6。**两段式**：TurnEndVeryEarly 快照、TurnEnd 结算，因为覆甲在第二段给格挡", },
        92 => &RelicDef { id: "VAJRA", name: "金刚杵", start_status: &[(St::Strength, 1)], private_status: &[], counter_to: None, modelled: true, note: "每场战斗开始获得1点力量", },
        93 => &RelicDef { id: "GORGET", name: "护喉甲", start_status: &[(St::PlatedArmor, 4)], private_status: &[], counter_to: None, modelled: true, note: "每场战斗开始获得4层覆甲", },
        94 => &RelicDef { id: "ODDLY_SMOOTH_STONE", name: "意外光滑的石头", start_status: &[(St::Dexterity, 1)], private_status: &[], counter_to: None, modelled: true, note: "每场战斗开始获得1点敏捷", },
        _ => &RelicDef { id: "BRONZE_SCALES", name: "铜质鳞片", start_status: &[(St::Thorns, 3)], private_status: &[], counter_to: None, modelled: true, note: "每场战斗开始获得3点荆棘。规则 2026-08-29 才建（在那之前 St::Thorns 没有任何消费点，两侧都不生效）。**这条注释原来写的是「只在敌人身上验过」，是错的** —— 敌人侧同样没建", },
    }
}

fn relic_at_8(i: u16) -> (r: &'static RelicDef)
    requires
        96 <= i <= 105,
    ensures
        *r == relic_row(i),
{
    proof {
        reveal(relic_row);
    }
    match i {
        96 => &RelicDef { id: "LOST_COFFER", name: "失物盒", start_status: &[], private_status: &[], counter_to: None, modelled: true, note: "局外：[源码] AfterObtained 给 1 次卡牌奖励 + 1 瓶药水。战斗层无关", },
        97 => &RelicDef { id: "PLANISPHERE", name: "活动星图", start_status: &[], private_status: &[], counter_to: None, modelled: true, note: "局外：[源码] AfterRoomEntered 且当前是 ? 房间时回 5 血。战斗层无关", },
        98 => &RelicDef { id: "YUMMY_COOKIE", name: "美味饼干", start_status: &[], private_status: &[], counter_to: None, modelled: true, note: "局外：拾起时升级 4 张牌。战斗层无关", },
        99 => &RelicDef { id: "BELLOWS", name: "风箱", start_status: &[], private_status: &[(St::UpgradeOpeningHand, 1)], counter_to: None, modelled: true, note: "[源码] AfterPlayerTurnStart 且 TurnNumber<=1 升级手牌。规则在 POWERS 的 HandDrawn； 对拍路径上手牌是观测量（sync 照抄升级态），那边不挂这个 status", },
        100 => &RelicDef { id: "BONE_TEA", name: "骨茶", start_status: &[], private_status: &[], counter_to: None, modelled: true, note: "[源码] 接下来 N 场战斗开局升级初始手牌（和风箱同一个 status）。 '还剩几场'是局外状态而且 ShowCounter=false，走 CONDITIONAL_START 由调用方给", },
        101 => &RelicDef { id: "BLOOD_VIAL", name: "小血瓶", start_status: &[], private_status: &[(St::BloodVial, 2)], counter_to: None, modelled: true, note: "[源码] AfterPlayerTurnStartLate 且 TurnNumber<=1 回 2 血。规则在 POWERS； 对拍路径上血量是观测量（开局 66->68 已经含它），那边不挂", },
        102 => &RelicDef { id: "PEAR", name: "梨子", start_status: &[], private_status: &[], counter_to: None, modelled: true, note: "局外：[源码] 拾起时最大生命值 +10。战斗层无关", },
        103 => &RelicDef { id: "JEWELED_MASK", name: "宝石面具", start_status: &[], private_status: &[(St::JeweledMask, 1)], counter_to: None, modelled: true, note: "[源码] BeforeHandDraw 且 TurnNumber<=1：抽牌堆里随机一张能力牌进手牌 + SetToFreeThisTurn。 规则在 POWERS 的 TurnStart（抽牌之前）；对拍路径上手牌和费用是观测量，那边不挂", },
        104 => &RelicDef { id: "NEOWS_TORMENT", name: "涅奥的苦痛", start_status: &[], private_status: &[], counter_to: None, modelled: true, note: "局外：[源码] 拾起时将 1 张涅奥之怒加入牌组。战斗层无关", },
        _ => &RelicDef { id: "AMETHYST_AUBERGINE", name: "紫水晶茄子", start_status: &[], private_status: &[], counter_to: None, modelled: true, note: "局外：[源码] 敌人额外掉落 15 金币。战斗层无关", },
    }
}

} // verus!
