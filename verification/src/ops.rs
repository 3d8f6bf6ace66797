//! Card, power, enemy and potion effects as data: adding a card is a table entry.

use vstd::prelude::*;
use crate::state::St;

verus! {

/// Who a status-applying card effect targets.
#[derive(Clone, Copy, PartialEq, Eq, Debug, Structural)]
pub enum Tgt {
    Me,
    Enemy,
    AllEnemies,
}

/// How a damage value scales off game state.
#[derive(Clone, Copy, PartialEq, Eq, Debug)]
pub enum Scale {
    Flat,
    PerExhaust(i32),
    PerTargetVuln(i32),
    PerStrikeCard(i32),
    PlayerBlock,
}

/// Conditions of "if ..., then ..." card effects, read from per-turn counters.
#[derive(Clone, Copy, PartialEq, Eq, Debug)]
pub enum Cond {
    ExhaustedThisTurn,
    LostHpThisTurn,
    NoAttackInHand,
    LastAttackKilled,
}

/// One effect of a card or potion. A card is a sequence of these.
#[derive(Clone, Copy, PartialEq, Eq, Debug)]
pub enum Op {
    Damage { base: i32, hits: i32, scale: Scale },
    DamageAll { base: i32, hits: i32, scale: Scale },
    DamagePerHpLossHit { base: i32 },
    DamageIfVuln { base: i32, scale: Scale },
    Block { base: i32 },
    Status { tgt: Tgt, st: St, amt: i32 },
    GainEnergy(i32),
    Draw(i32),
    LoseHp(i32),
    ExhaustHandDamage { per: i32 },
    ExhaustChoose(i32),
    StrengthPerTargetVuln,
    FreeNextAttack,
    Heal(i32),
    BlockEqualToLastDamage,
    DamageOthersEqualToLast,
    DoubleTargetVuln,
    TakeDamage(i32),
    Conditional { cond: Cond, then: &'static [Op] },
    GainMaxEnergy(i32),
    GrowThisCard(i32),
    FetchFromDiscard(i32),
    PutOnTopOfDraw(i32),
    UpgradeInHand(i32),
    DamageRandom { base: i32, hits: i32, scale: Scale },
    GainMaxHp(i32),
    EnergyPerAttackInHand { per: i32 },
    UpgradeAllInHand,
    DiscardToTopOfDraw(i32),
    AddCopyOfThisToDiscard,
    ExhaustHandGenerate { upgraded: bool },
    GenerateFree(Kind),
    StunEnemy,
    GrowThisCardCost(i32),
    ExhaustFromDrawTop(i32),
    ExhaustRandomFromHand(i32),
    ExhaustRandomAttackAddDamage,
    DrawUntilNonAttack,
    TransformAttacksInHand { into: u16, upgraded: bool },
    DamageAllXTimes { base: i32 },
    AutoPlayFromDrawTopX { plus: i32, force_exhaust: bool },
    AutoPlayFromDrawTop { count: i32, force_exhaust: bool },
    RandomizeHandCosts { max: i32 },
    ShuffleAllIntoDraw,
    LoseMaxHp(i32),
    ExhaustNonAttacksForBlock { per: i32 },
}

/// What happens when a card is still in hand at the end of the turn (Burn, Decay, ...).
/// `void`: the card exhausts itself at end of turn (Dazed, Clumsy).
pub struct HandEndDef {
    pub card: u16,
    pub ops: &'static [Op],
    pub void: bool,
}

/// Card type.
#[derive(Clone, Copy, PartialEq, Eq, Debug, Structural)]
pub enum Kind {
    Attack,
    Skill,
    Power,
    Status,
    Curse,
    Quest,
}

/// A card: cost, type, targeting, and its effects (`ops_upg` empty = same as `ops` when upgraded).
pub struct CardDef {
    pub name: &'static str,
    pub cost: i32,
    pub kind: Kind,
    pub targeted: bool,
    pub exhausts: bool,
    pub cost_minus_attacks: bool,
    pub ops: &'static [Op],
    pub ops_upg: &'static [Op],
    pub cost_upg: i32,
}

/// When a power or relic rule fires.
#[derive(Clone, Copy, PartialEq, Eq, Debug, Structural)]
pub enum Hook {
    SideTurnStart,
    TurnStart,
    HandDrawn,
    GainBlock,
    TurnEnd,
    TurnEndLate,
    EnemyTurnEnd,
    EnemyTurnEndEarly,
    EnemyTurnEndVeryEarly,
    EnemyTurnStart,
    PlayerSkill,
    CardExhausted,
    PlayerLoseHp,
    ApplyVuln,
    PlayerAttack,
    CardPlayed,
    EnemyAttacked,
    EnemyDamaged,
    EnemyDied,
    AllyDied,
    Attacked,
    AttackUnblocked,
    PlayerDamaged,
    TurnEndVeryEarly,
    CombatVictoryEarly,
    CombatVictory,
}

/// Where the value of a triggered effect comes from.
#[derive(Clone, Copy, PartialEq, Eq, Debug)]
pub enum Amt {
    Stacks,
    Fixed(i32),
    TurnNumber,
    CardsPlayed,
    HandCardsTimesStacks,
    OwnerStacksOf(St),
}

/// Conditions inside triggered rules.
#[derive(Clone, Copy, PartialEq, Eq, Debug)]
pub enum TCond {
    OwnerHasNoBlock,
    OwnerBlockAtLeast(i32),
    TurnAtMost(i32),
    TurnAtLeast(i32),
    TurnMultipleOf(i32),
    TurnIs(i32),
    EveryNTurns { n: i32, phase: St },
    EveryNthAttackThisTurn(i32),
    EveryNthSkillThisTurn(i32),
    OwnerHas(St),
    OwnerHpAtMostStacks,
    SelfStacksAtMost(i32),
    SelfStacksAtLeast(i32),
    OwnerIsDead,
    OwnerMaxHpAtMost(i32),
    OwnerMaxHpAtLeast(i32),
    OwnerIsPlayer,
    OwnerIsEnemy,
    HandEmpty,
    LastPlayedKindIs(Kind),
    LastHitWasAttack,
    LastHitUnblocked,
}

/// What a triggered rule can do. `Owner` is the entity holding the power.
#[derive(Clone, Copy, PartialEq, Eq, Debug)]
pub enum TOp {
    OwnerStatus { st: St, amt: Amt },
    PlayerStatus { st: St, amt: Amt },
    AllEnemiesStatus { st: St, amt: Amt },
    OwnerBlock(Amt),
    OwnerLoseHp(Amt),
    OwnerTakeDamage(Amt),
    OwnerHeal(Amt),
    OwnerEnergy(Amt),
    OwnerDraw(Amt),
    DamageAllEnemies(Amt),
    GrowSelf(i32),
    OwnerClearStatus(St),
    OwnerSetStatus { st: St, amt: Amt },
    BlockEnemiesOfDef { def: u16, amt: Amt },
    OwnerForceMove(u8),
    ClearSelf,
    DamageContextEnemy(Amt),
    DamageAttacker(Amt),
    SummonN { def: u16, hp: i32, count: i32 },
    SummonCarryingSelfMinusOne { def: u16, hp: i32 },
    OwnerSetMaxHp(i32),
    OwnerHealToFull,
    ClearOwnerStatusesExcept(&'static [St]),
    OwnerToggleStatus(St),
    AutoPlayRandomAttacksFromHand(Amt),
    CloneLastAttackToHandAt { nth: i32, amt: Amt },
    FetchRandomAttacksFromDiscardUpgraded(Amt),
    OwnerHealIfHpAtMost { pct: i32, amt: Amt },
    If { cond: TCond, then: &'static [TOp] },
    DamageRandomEnemy(Amt),
    AddCardToHand { card: u16, count: i32 },
    UpgradeHand,
    UpgradeRandomInDraw(i32),
    MoveRandomPowerFromDrawToHandFree,
    SetSelf(i32),
    KillPlayer,
    DamagePlayer(Amt),
    PlayerLoseMaxHp(Amt),
    AddCardToDiscard { card: u16, count: i32 },
    PlayerClearStatus(St),
    RestoreDampenedCards,
    AddCardToDraw { card: u16, amt: Amt },
}

/// One rule: when status `st` is held and `hook` fires, run `ops`.
pub struct PowerDef {
    pub st: St,
    pub hook: Hook,
    pub ops: &'static [TOp],
}

/// Enemy move effects.
#[derive(Clone, Copy, PartialEq, Eq, Debug)]
pub enum EOp {
    Attack { base: i32, hits: i32 },
    Block(i32),
    SelfStatus { st: St, amt: i32 },
    SelfStatusPerStack { st: St, amt: i32, per: St },
    AttackPlusStackHits { base: i32, hits: i32, per: St },
    AttackPlusSelfStatus { base: i32, hits: i32, per: St },
    TeamStatus { st: St, amt: i32 },
    ClearSelfStatus(St),
    KillSelf,
    AddCardToDraw { card: u16, count: i32 },
    AddCardToHand { card: u16, count: i32 },
    UpgradeAllCopies { card: u16, by: i32 },
    BlockNonMinions(i32),
    PlayerStatus { st: St, amt: i32 },
    Summon { def: u16, hp: i32 },
    AddCardToDiscard { card: u16, count: i32 },
    StealCard(i32),
    DowngradeUpgradedCards,
    Heal(i32),
    CurseOfKnowledge(&'static [CurseSet]),
    Nothing,
}

/// One two-way choice of the curse of knowledge: Disintegration, or another status
/// (with an optional change to maximum energy).
#[derive(Clone, Copy, PartialEq, Eq, Debug)]
pub struct CurseSet {
    pub disintegration: i32,
    pub other: St,
    pub other_amt: i32,
    pub other_max_energy: i32,
}

/// One enemy move: its name, the intent type the game shows for it, and its effects.
pub struct EnemyMove {
    pub name: &'static str,
    pub intent: &'static str,
    pub ops: &'static [EOp],
}

/// Where an enemy goes after a move: a fixed follow-up, a weighted random branch,
/// or the first branch whose condition holds.
#[derive(Clone, Copy, PartialEq, Eq, Debug)]
pub enum Next {
    Go(u8),
    Rand(&'static [Branch]),
    Cond(&'static [(ECond, u8)]),
}

/// One edge of a random branch: target move, relative weight, repeat rule and cooldown.
#[derive(Clone, Copy, PartialEq, Eq, Debug)]
pub struct Branch {
    pub to: u8,
    pub weight: u16,
    pub repeat: Repeat,
    pub cooldown: u8,
}

/// Repeat restriction of a branch.
#[derive(Clone, Copy, PartialEq, Eq, Debug, Structural)]
pub enum Repeat {
    Forever,
    NotTwice,
    AtMost(u8),
    Once,
}

/// Conditions of conditional enemy branches. `Unknown` means the kernel cannot decide it.
#[derive(Clone, Copy, PartialEq, Eq, Debug)]
pub enum ECond {
    Alone,
    Front,
    NotFront,
    OffBalance,
    NotOffBalance,
    HpAtMost(i32),
    SlotIs(u8),
    SlotRep(u8),
    AlliesAliveAtLeast(u8),
    MaxHpAtMost(i32),
    MoveUnused(u8),
    All(&'static [ECond]),
    CursesTakenBelow(&'static [CurseSet], u8),
    CursesTakenAtLeast(&'static [CurseSet], u8),
    SelfStatusAtLeast(St, i32),
    SelfStatusBelow(St, i32),
    Unknown,
}

/// An enemy move state machine: how the first move is chosen and where each move leads.
pub struct Machine {
    pub start: Next,
    pub after: &'static [Next],
}

/// An enemy: hit points, starting statuses, moves, and how the moves repeat.
///
/// Without a `machine`, moves play in order and then loop back to `loop_from`.
pub struct EnemyDef {
    pub name: &'static str,
    pub max_hp: i32,
    pub start_status: &'static [(St, i32)],
    pub moves: &'static [EnemyMove],
    pub loop_from: u8,
    pub machine: Option<&'static Machine>,
}

/// A potion: whether it is targeted, and its effects in the card effect vocabulary.
pub struct PotionDef {
    pub name: &'static str,
    pub targeted: bool,
    pub ops: &'static [Op],
}

/// How an enchantment amount turns into a value.
#[derive(Clone, Copy, PartialEq, Eq, Debug)]
pub enum EnchVal {
    Zero,
    Amount,
    AmountMinus1,
    Fixed(i32),
}

/// An enchantment: its additive block and damage, its damage multiplier `(num, den)`,
/// keyword bits granted, and whether the kernel models it completely.
pub struct EnchantDef {
    pub id: &'static str,
    pub name: &'static str,
    pub block_add: EnchVal,
    pub damage_add: EnchVal,
    pub damage_mul: (i32, i32),
    pub keywords: u8,
    pub modelled: bool,
    pub note: &'static str,
}

/// A relic: statuses it grants at combat start, private bookkeeping statuses,
/// which status its panel counter feeds, and whether it is modelled.
pub struct RelicDef {
    pub id: &'static str,
    pub name: &'static str,
    pub start_status: &'static [(St, i32)],
    pub private_status: &'static [(St, i32)],
    pub counter_to: Option<St>,
    pub modelled: bool,
    pub note: &'static str,
}

/// Where a sequence of effects comes from (potions skip the card block pipeline).
#[derive(Clone, Copy, PartialEq, Eq, Debug, Structural)]
pub enum Source {
    Card,
    Potion,
}

/// Which move an enemy without a state machine plays on its `counter`-th turn:
/// the moves in order, then looping over `moves[loop_from..]`.
pub open spec fn move_slot(n: int, loop_from: int, counter: int) -> int {
    if n == 0 {
        0
    } else if counter < n {
        counter
    } else if n - loop_from == 0 {
        n - 1
    } else {
        loop_from + (counter - loop_from) % (n - loop_from)
    }
}

/// Index of the move for the `counter`-th turn (see `EnemyDef::loop_from`).
pub fn move_index(def: &EnemyDef, counter: u32) -> (r: usize)
    requires
        def.moves@.len() == 0 || counter < def.moves@.len() || def.loop_from <= def.moves@.len(),
    ensures
        r == move_slot(def.moves@.len() as int, def.loop_from as int, counter as int),
        def.moves@.len() > 0 ==> r < def.moves@.len(),
{
    let n = def.moves.len();
    if n == 0 {
        return 0;
    }
    let i = counter as usize;
    if i < n {
        return i;
    }
    let loop_len = n - def.loop_from as usize;
    if loop_len == 0 {
        return n - 1;
    }
    def.loop_from as usize + (i - def.loop_from as usize) % loop_len
}

impl EnchVal {
    /// The value for an enchantment of amount `amount`.
    pub open spec fn value(self, amount: int) -> int {
        match self {
            EnchVal::Zero => 0,
            EnchVal::Amount => amount,
            EnchVal::AmountMinus1 => amount - 1,
            EnchVal::Fixed(v) => v as int,
        }
    }

    /// Evaluates this shape for an enchantment of amount `amount`.
    pub fn eval(self, amount: i32) -> (r: i32)
        requires
            self == EnchVal::AmountMinus1 ==> amount > i32::MIN,
        ensures
            r == self.value(amount as int),
    {
        match self {
            EnchVal::Zero => 0,
            EnchVal::Amount => amount,
            EnchVal::AmountMinus1 => amount - 1,
            EnchVal::Fixed(v) => v,
        }
    }
}

/// Number of rows of the potion table.
pub const POTION_COUNT: u8 = 24;

/// The potion table (row 0 is the empty slot).
pub open spec fn potion_row(id: u8) -> PotionDef {
    match id {
        1 => PotionDef { name: "格挡药水", targeted: false, ops: &[Op::Block { base: 12 }] },
        2 => PotionDef { name: "力量药水", targeted: false, ops: &[Op::Status { tgt: Tgt::Me, st: St::Strength, amt: 2 }] },
        3 => PotionDef { name: "敏捷药水", targeted: false, ops: &[Op::Status { tgt: Tgt::Me, st: St::Dexterity, amt: 2 }] },
        4 => PotionDef { name: "能量药水", targeted: false, ops: &[Op::GainEnergy(2)] },
        5 => PotionDef { name: "火焰药水", targeted: true, ops: &[Op::Damage { base: 20, hits: 1, scale: Scale::Flat }] },
        6 => PotionDef { name: "易伤药水", targeted: true, ops: &[Op::Status { tgt: Tgt::Enemy, st: St::Vulnerable, amt: 3 }] },
        7 => PotionDef { name: "虚弱药水", targeted: true, ops: &[Op::Status { tgt: Tgt::Enemy, st: St::Weak, amt: 3 }] },
        8 => PotionDef { name: "迅捷药水", targeted: false, ops: &[Op::Draw(3)] },
        9 => PotionDef { name: "再生药水", targeted: false, ops: &[Op::Status { tgt: Tgt::Me, st: St::Regen, amt: 5 }] },
        10 => PotionDef { name: "爆炸安瓿", targeted: false, ops: &[Op::DamageAll { base: 10, hits: 1, scale: Scale::Flat }] },
        11 => PotionDef { name: "铁心", targeted: false, ops: &[Op::Status { tgt: Tgt::Me, st: St::PlatedArmor, amt: 7 }] },
        12 => PotionDef { name: "鱼油", targeted: false, ops: &[ Op::Status { tgt: Tgt::Me, st: St::Strength, amt: 1 }, Op::Status { tgt: Tgt::Me, st: St::Dexterity, amt: 1 }, ], },
        13 => PotionDef { name: "屈伸药剂", targeted: false, ops: &[ Op::Status { tgt: Tgt::Me, st: St::Strength, amt: 5 }, Op::Status { tgt: Tgt::Me, st: St::TempStrength, amt: 5 }, ], },
        14 => PotionDef { name: "瓶中精灵", targeted: false, ops: &[] },
        15 => PotionDef { name: "攻击药水", targeted: false, ops: &[Op::GenerateFree(Kind::Attack)] },
        16 => PotionDef { name: "技能药水", targeted: false, ops: &[Op::GenerateFree(Kind::Skill)] },
        17 => PotionDef { name: "欧洛巴斯之酸", targeted: false, ops: &[ Op::GenerateFree(Kind::Attack), Op::GenerateFree(Kind::Skill), Op::GenerateFree(Kind::Power), ], },
        18 => PotionDef { name: "异蛇之油", targeted: false, ops: &[Op::Draw(7), Op::RandomizeHandCosts { max: 4 }], },
        19 => PotionDef { name: "药水形状的石头", targeted: true, ops: &[Op::Damage { base: 15, hits: 1, scale: Scale::Flat }], },
        20 => PotionDef { name: "能力药水", targeted: false, ops: &[Op::GenerateFree(Kind::Power)] },
        21 => PotionDef { name: "瓶装潜能", targeted: false, ops: &[Op::ShuffleAllIntoDraw, Op::Draw(5)], },
        22 => PotionDef { name: "明耀酊剂", targeted: false, ops: &[Op::GainEnergy(1), Op::Status { tgt: Tgt::Me, st: St::Radiance, amt: 3 }], },
        23 => PotionDef { name: "痊愈药水", targeted: false, ops: &[Op::GainEnergy(1), Op::Draw(2)] },
        _ => PotionDef { name: "无", targeted: false, ops: &[] },
    }
}

/// The definition of potion `id`; ids past the table read as the empty slot.
pub fn potion_def(id: u8) -> (r: &'static PotionDef)
    ensures
        *r == (if id < POTION_COUNT { potion_row(id) } else { potion_row(0) }),
{
    match id {
        1 => &PotionDef { name: "格挡药水", targeted: false, ops: &[Op::Block { base: 12 }] },
        2 => &PotionDef { name: "力量药水", targeted: false, ops: &[Op::Status { tgt: Tgt::Me, st: St::Strength, amt: 2 }] },
        3 => &PotionDef { name: "敏捷药水", targeted: false, ops: &[Op::Status { tgt: Tgt::Me, st: St::Dexterity, amt: 2 }] },
        4 => &PotionDef { name: "能量药水", targeted: false, ops: &[Op::GainEnergy(2)] },
        5 => &PotionDef { name: "火焰药水", targeted: true, ops: &[Op::Damage { base: 20, hits: 1, scale: Scale::Flat }] },
        6 => &PotionDef { name: "易伤药水", targeted: true, ops: &[Op::Status { tgt: Tgt::Enemy, st: St::Vulnerable, amt: 3 }] },
        7 => &PotionDef { name: "虚弱药水", targeted: true, ops: &[Op::Status { tgt: Tgt::Enemy, st: St::Weak, amt: 3 }] },
        8 => &PotionDef { name: "迅捷药水", targeted: false, ops: &[Op::Draw(3)] },
        9 => &PotionDef { name: "再生药水", targeted: false, ops: &[Op::Status { tgt: Tgt::Me, st: St::Regen, amt: 5 }] },
        10 => &PotionDef { name: "爆炸安瓿", targeted: false, ops: &[Op::DamageAll { base: 10, hits: 1, scale: Scale::Flat }] },
        11 => &PotionDef { name: "铁心", targeted: false, ops: &[Op::Status { tgt: Tgt::Me, st: St::PlatedArmor, amt: 7 }] },
        12 => &PotionDef { name: "鱼油", targeted: false, ops: &[ Op::Status { tgt: Tgt::Me, st: St::Strength, amt: 1 }, Op::Status { tgt: Tgt::Me, st: St::Dexterity, amt: 1 }, ], },
        13 => &PotionDef { name: "屈伸药剂", targeted: false, ops: &[ Op::Status { tgt: Tgt::Me, st: St::Strength, amt: 5 }, Op::Status { tgt: Tgt::Me, st: St::TempStrength, amt: 5 }, ], },
        14 => &PotionDef { name: "瓶中精灵", targeted: false, ops: &[] },
        15 => &PotionDef { name: "攻击药水", targeted: false, ops: &[Op::GenerateFree(Kind::Attack)] },
        16 => &PotionDef { name: "技能药水", targeted: false, ops: &[Op::GenerateFree(Kind::Skill)] },
        17 => &PotionDef { name: "欧洛巴斯之酸", targeted: false, ops: &[ Op::GenerateFree(Kind::Attack), Op::GenerateFree(Kind::Skill), Op::GenerateFree(Kind::Power), ], },
        18 => &PotionDef { name: "异蛇之油", targeted: false, ops: &[Op::Draw(7), Op::RandomizeHandCosts { max: 4 }], },
        19 => &PotionDef { name: "药水形状的石头", targeted: true, ops: &[Op::Damage { base: 15, hits: 1, scale: Scale::Flat }], },
        20 => &PotionDef { name: "能力药水", targeted: false, ops: &[Op::GenerateFree(Kind::Power)] },
        21 => &PotionDef { name: "瓶装潜能", targeted: false, ops: &[Op::ShuffleAllIntoDraw, Op::Draw(5)], },
        22 => &PotionDef { name: "明耀酊剂", targeted: false, ops: &[Op::GainEnergy(1), Op::Status { tgt: Tgt::Me, st: St::Radiance, amt: 3 }], },
        23 => &PotionDef { name: "痊愈药水", targeted: false, ops: &[Op::GainEnergy(1), Op::Draw(2)] },
        _ => &PotionDef { name: "无", targeted: false, ops: &[] },
    }
}

/// Potions that are never drunk: they trigger on their own.
pub open spec fn automatic_potions() -> Seq<u8> {
    seq![crate::state::potion::FAIRY]
}

/// Whether potion `id` triggers on its own rather than being drunk.
pub fn potion_is_automatic(id: u8) -> (r: bool)
    ensures
        r == automatic_potions().contains(id),
{
    let list: &[u8] = &[crate::state::potion::FAIRY];
    assert(list@ == automatic_potions());
    let mut i: usize = 0;
    while i < list.len()
        invariant
            i <= list@.len(),
            list@ == automatic_potions(),
            forall|j: int| 0 <= j < i ==> list@[j] != id,
        decreases list@.len() - i,
    {
        if list[i] == id {
            return true;
        }
        i = i + 1;
    }
    false
}


/// After the opening moves an enemy without a state machine cycles through
/// `moves[loop_from..]` forever: a turn in the cycle plays the same move as the turn one
/// cycle later, and never an opening move again.
pub proof fn lemma_move_cycle(n: int, loop_from: int, counter: int)
    requires
        0 <= loop_from < n,
        loop_from <= counter,
    ensures
        move_slot(n, loop_from, counter + (n - loop_from)) == move_slot(n, loop_from, counter),
        loop_from <= move_slot(n, loop_from, counter) < n,
{
    let len = n - loop_from;
    let c = counter - loop_from;
    assert((c + len) % len == c % len) by {
        vstd::arithmetic::div_mod::lemma_mod_add_multiples_vanish(c, len);
    }
    if counter < n {
        assert(c < len);
        vstd::arithmetic::div_mod::lemma_small_mod(c as nat, len as nat);
    }
    vstd::arithmetic::div_mod::lemma_mod_bound(c, len);
}

} // verus!
