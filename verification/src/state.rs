//! Combat entities and the status vocabulary they carry.
//!
//! Every buff, debuff, power, relic counter and private marker is a `St`
//! with an integer amount; an `Entity` maps each `St` to its amount (absent = 0).

use vstd::prelude::*;

pub mod potion;

verus! {

/// Every status the rules engine knows. A status is an amount attached to an entity.
#[derive(Clone, Copy, PartialEq, Eq, Debug, Structural)]
pub enum St {
    StrikeDummy,
    Tainted,
    Shrink,
    Weak,
    PenNibArmed,
    Vulnerable,
    Colossus,
    Soar,
    Surrounded,
    FacingRight,
    BackAttackLeft,
    BackAttackRight,
    Flutter,
    Slow,
    DamageCap,
    Intangible,
    HardenedShellCap,
    HardenedShell,
    Slippery,
    Dexterity,
    Frail,
    VambraceCharge,
    UnmovableCharge,
    Unmovable,
    Artifact,
    Hex,
    Dampen,
    Tangled,
    Strength,
    Stunned,
    Sandpit,
    Regen,
    PlatedArmor,
    TempStrength,
    Radiance,
    DemonForm,
    Pyre,
    FeelNoPain,
    DarkEmbrace,
    Rupture,
    CrimsonMantle,
    RollingBoulder,
    Vicious,
    Frenzy,
    FlameBarrier,
    Barricade,
    Entrench,
    AllOrNothing,
    NoEnergyGain,
    Juggernaut,
    NoDraw,
    Stampede,
    OneTwoPunch,
    Juggling,
    Aggression,
    OrnamentalFan,
    MercuryHourglass,
    Lantern,
    UpgradeOpeningHand,
    JeweledMask,
    StoneCracker,
    BloodVial,
    Pantograph,
    TeaSet,
    Vigor,
    HighVoltage,
    Territorial,
    ParryingShield,
    ScreamingFlagon,
    CloakClasp,
    HornCleat,
    Anchor,
    BagOfMarbles,
    RedMask,
    BagOfPreparation,
    Candelabra,
    HappyFlower,
    FakeHappyFlower,
    PollinousCore,
    PaelsBlood,
    PaelsFlesh,
    Kunai,
    EscapeArtist,
    Tender,
    LetterOpener,
    CrabRage,
    Ravenous,
    CentennialPuzzle,
    Akabeko,
    Pendulum,
    PendulumPhase,
    StoneCalendar,
    Orichalcum,
    OrichalcumArmed,
    MeatOnTheBone,
    BurningBlood,
    VitalSpark,
    Rage,
    Constrict,
    Shriek,
    Plow,
    PersonalHive,
    Slumber,
    Asleep,
    Suck,
    Surprise,
    Ringing,
    Infested,
    Adaptable,
    PainfulStabs,
    Nemesis,
    SteamEruption,
    Illusion,
    Minion,
    Reattach,
    ReattachDue,
    MoveForcedThisTurn,
    Disintegration,
    Stock,
    PossessStrength,
    PossessSpeed,
    Galvanic,
    PaperCuts,
    HexCaster,
    DampenCaster,
    MrStruggles,
    CaptainsWheel,
    GremlinHorn,
    CurlUp,
    Ritual,
    RitualArmed,
    Rampart,
    Thorns,
    WitheringPresence,
    SkittishTriggered,
    RedSkull,
    RedSkullActive,
    MindRot,
    Sloth,
    Imbalanced,
    OffBalance,
    Skittish,
    Burrowed,
    PenNib,
    PenNibCount,
    RuinedHelmet,
    SlowSource,
    WasteAway,
    Thievery,
    Heist,
    Swipe,
    Hatch,
    Smoggy,
    ClawGrowth,
    PressureGunGrowth,
    EruptionDamage,
}

/// How many distinct statuses there are.
pub const ST_COUNT: usize = 156;

/// The slot of a status in an entity's status table.
pub open spec fn st_slot(s: St) -> u8 {
    match s {
        St::StrikeDummy => 0,
        St::Tainted => 1,
        St::Shrink => 2,
        St::Weak => 3,
        St::PenNibArmed => 4,
        St::Vulnerable => 5,
        St::Colossus => 6,
        St::Soar => 7,
        St::Surrounded => 8,
        St::FacingRight => 9,
        St::BackAttackLeft => 10,
        St::BackAttackRight => 11,
        St::Flutter => 12,
        St::Slow => 13,
        St::DamageCap => 14,
        St::Intangible => 15,
        St::HardenedShellCap => 16,
        St::HardenedShell => 17,
        St::Slippery => 18,
        St::Dexterity => 19,
        St::Frail => 20,
        St::VambraceCharge => 21,
        St::UnmovableCharge => 22,
        St::Unmovable => 23,
        St::Artifact => 24,
        St::Hex => 25,
        St::Dampen => 26,
        St::Tangled => 27,
        St::Strength => 28,
        St::Stunned => 29,
        St::Sandpit => 30,
        St::Regen => 31,
        St::PlatedArmor => 32,
        St::TempStrength => 33,
        St::Radiance => 34,
        St::DemonForm => 35,
        St::Pyre => 36,
        St::FeelNoPain => 37,
        St::DarkEmbrace => 38,
        St::Rupture => 39,
        St::CrimsonMantle => 40,
        St::RollingBoulder => 41,
        St::Vicious => 42,
        St::Frenzy => 43,
        St::FlameBarrier => 44,
        St::Barricade => 45,
        St::Entrench => 46,
        St::AllOrNothing => 47,
        St::NoEnergyGain => 48,
        St::Juggernaut => 49,
        St::NoDraw => 50,
        St::Stampede => 51,
        St::OneTwoPunch => 52,
        St::Juggling => 53,
        St::Aggression => 54,
        St::OrnamentalFan => 55,
        St::MercuryHourglass => 56,
        St::Lantern => 57,
        St::UpgradeOpeningHand => 58,
        St::JeweledMask => 59,
        St::StoneCracker => 60,
        St::BloodVial => 61,
        St::Pantograph => 62,
        St::TeaSet => 63,
        St::Vigor => 64,
        St::HighVoltage => 65,
        St::Territorial => 66,
        St::ParryingShield => 67,
        St::ScreamingFlagon => 68,
        St::CloakClasp => 69,
        St::HornCleat => 70,
        St::Anchor => 71,
        St::BagOfMarbles => 72,
        St::RedMask => 73,
        St::BagOfPreparation => 74,
        St::Candelabra => 75,
        St::HappyFlower => 76,
        St::FakeHappyFlower => 77,
        St::PollinousCore => 78,
        St::PaelsBlood => 79,
        St::PaelsFlesh => 80,
        St::Kunai => 81,
        St::EscapeArtist => 82,
        St::Tender => 83,
        St::LetterOpener => 84,
        St::CrabRage => 85,
        St::Ravenous => 86,
        St::CentennialPuzzle => 87,
        St::Akabeko => 88,
        St::Pendulum => 89,
        St::PendulumPhase => 90,
        St::StoneCalendar => 91,
        St::Orichalcum => 92,
        St::OrichalcumArmed => 93,
        St::MeatOnTheBone => 94,
        St::BurningBlood => 95,
        St::VitalSpark => 96,
        St::Rage => 97,
        St::Constrict => 98,
        St::Shriek => 99,
        St::Plow => 100,
        St::PersonalHive => 101,
        St::Slumber => 102,
        St::Asleep => 103,
        St::Suck => 104,
        St::Surprise => 105,
        St::Ringing => 106,
        St::Infested => 107,
        St::Adaptable => 108,
        St::PainfulStabs => 109,
        St::Nemesis => 110,
        St::SteamEruption => 111,
        St::Illusion => 112,
        St::Minion => 113,
        St::Reattach => 114,
        St::ReattachDue => 115,
        St::MoveForcedThisTurn => 116,
        St::Disintegration => 117,
        St::Stock => 118,
        St::PossessStrength => 119,
        St::PossessSpeed => 120,
        St::Galvanic => 121,
        St::PaperCuts => 122,
        St::HexCaster => 123,
        St::DampenCaster => 124,
        St::MrStruggles => 125,
        St::CaptainsWheel => 126,
        St::GremlinHorn => 127,
        St::CurlUp => 128,
        St::Ritual => 129,
        St::RitualArmed => 130,
        St::Rampart => 131,
        St::Thorns => 132,
        St::WitheringPresence => 133,
        St::SkittishTriggered => 134,
        St::RedSkull => 135,
        St::RedSkullActive => 136,
        St::MindRot => 137,
        St::Sloth => 138,
        St::Imbalanced => 139,
        St::OffBalance => 140,
        St::Skittish => 141,
        St::Burrowed => 142,
        St::PenNib => 143,
        St::PenNibCount => 144,
        St::RuinedHelmet => 145,
        St::SlowSource => 146,
        St::WasteAway => 147,
        St::Thievery => 148,
        St::Heist => 149,
        St::Swipe => 150,
        St::Hatch => 151,
        St::Smoggy => 152,
        St::ClawGrowth => 153,
        St::PressureGunGrowth => 154,
        St::EruptionDamage => 155,
    }
}

/// The status stored in a slot (the inverse of `st_slot`).
pub open spec fn st_at_slot(i: u8) -> St {
    match i {
        0 => St::StrikeDummy,
        1 => St::Tainted,
        2 => St::Shrink,
        3 => St::Weak,
        4 => St::PenNibArmed,
        5 => St::Vulnerable,
        6 => St::Colossus,
        7 => St::Soar,
        8 => St::Surrounded,
        9 => St::FacingRight,
        10 => St::BackAttackLeft,
        11 => St::BackAttackRight,
        12 => St::Flutter,
        13 => St::Slow,
        14 => St::DamageCap,
        15 => St::Intangible,
        16 => St::HardenedShellCap,
        17 => St::HardenedShell,
        18 => St::Slippery,
        19 => St::Dexterity,
        20 => St::Frail,
        21 => St::VambraceCharge,
        22 => St::UnmovableCharge,
        23 => St::Unmovable,
        24 => St::Artifact,
        25 => St::Hex,
        26 => St::Dampen,
        27 => St::Tangled,
        28 => St::Strength,
        29 => St::Stunned,
        30 => St::Sandpit,
        31 => St::Regen,
        32 => St::PlatedArmor,
        33 => St::TempStrength,
        34 => St::Radiance,
        35 => St::DemonForm,
        36 => St::Pyre,
        37 => St::FeelNoPain,
        38 => St::DarkEmbrace,
        39 => St::Rupture,
        40 => St::CrimsonMantle,
        41 => St::RollingBoulder,
        42 => St::Vicious,
        43 => St::Frenzy,
        44 => St::FlameBarrier,
        45 => St::Barricade,
        46 => St::Entrench,
        47 => St::AllOrNothing,
        48 => St::NoEnergyGain,
        49 => St::Juggernaut,
        50 => St::NoDraw,
        51 => St::Stampede,
        52 => St::OneTwoPunch,
        53 => St::Juggling,
        54 => St::Aggression,
        55 => St::OrnamentalFan,
        56 => St::MercuryHourglass,
        57 => St::Lantern,
        58 => St::UpgradeOpeningHand,
        59 => St::JeweledMask,
        60 => St::StoneCracker,
        61 => St::BloodVial,
        62 => St::Pantograph,
        63 => St::TeaSet,
        64 => St::Vigor,
        65 => St::HighVoltage,
        66 => St::Territorial,
        67 => St::ParryingShield,
        68 => St::ScreamingFlagon,
        69 => St::CloakClasp,
        70 => St::HornCleat,
        71 => St::Anchor,
        72 => St::BagOfMarbles,
        73 => St::RedMask,
        74 => St::BagOfPreparation,
        75 => St::Candelabra,
        76 => St::HappyFlower,
        77 => St::FakeHappyFlower,
        78 => St::PollinousCore,
        79 => St::PaelsBlood,
        80 => St::PaelsFlesh,
        81 => St::Kunai,
        82 => St::EscapeArtist,
        83 => St::Tender,
        84 => St::LetterOpener,
        85 => St::CrabRage,
        86 => St::Ravenous,
        87 => St::CentennialPuzzle,
        88 => St::Akabeko,
        89 => St::Pendulum,
        90 => St::PendulumPhase,
        91 => St::StoneCalendar,
        92 => St::Orichalcum,
        93 => St::OrichalcumArmed,
        94 => St::MeatOnTheBone,
        95 => St::BurningBlood,
        96 => St::VitalSpark,
        97 => St::Rage,
        98 => St::Constrict,
        99 => St::Shriek,
        100 => St::Plow,
        101 => St::PersonalHive,
        102 => St::Slumber,
        103 => St::Asleep,
        104 => St::Suck,
        105 => St::Surprise,
        106 => St::Ringing,
        107 => St::Infested,
        108 => St::Adaptable,
        109 => St::PainfulStabs,
        110 => St::Nemesis,
        111 => St::SteamEruption,
        112 => St::Illusion,
        113 => St::Minion,
        114 => St::Reattach,
        115 => St::ReattachDue,
        116 => St::MoveForcedThisTurn,
        117 => St::Disintegration,
        118 => St::Stock,
        119 => St::PossessStrength,
        120 => St::PossessSpeed,
        121 => St::Galvanic,
        122 => St::PaperCuts,
        123 => St::HexCaster,
        124 => St::DampenCaster,
        125 => St::MrStruggles,
        126 => St::CaptainsWheel,
        127 => St::GremlinHorn,
        128 => St::CurlUp,
        129 => St::Ritual,
        130 => St::RitualArmed,
        131 => St::Rampart,
        132 => St::Thorns,
        133 => St::WitheringPresence,
        134 => St::SkittishTriggered,
        135 => St::RedSkull,
        136 => St::RedSkullActive,
        137 => St::MindRot,
        138 => St::Sloth,
        139 => St::Imbalanced,
        140 => St::OffBalance,
        141 => St::Skittish,
        142 => St::Burrowed,
        143 => St::PenNib,
        144 => St::PenNibCount,
        145 => St::RuinedHelmet,
        146 => St::SlowSource,
        147 => St::WasteAway,
        148 => St::Thievery,
        149 => St::Heist,
        150 => St::Swipe,
        151 => St::Hatch,
        152 => St::Smoggy,
        153 => St::ClawGrowth,
        154 => St::PressureGunGrowth,
        _ => St::EruptionDamage,
    }
}

/// Distinct statuses occupy distinct slots, all below `ST_COUNT`.
pub proof fn lemma_st_slot(s: St)
    ensures
        st_at_slot(st_slot(s)) == s,
        st_slot(s) < ST_COUNT,
{
}

pub proof fn lemma_st_slot_injective(s: St, t: St)
    ensures
        s != t ==> st_slot(s) != st_slot(t),
{
    lemma_st_slot(s);
    lemma_st_slot(t);
}

/// Executable form of `st_slot`.
pub fn st_index(s: St) -> (r: usize)
    ensures
        r == st_slot(s),
{
    match s {
        St::StrikeDummy => 0,
        St::Tainted => 1,
        St::Shrink => 2,
        St::Weak => 3,
        St::PenNibArmed => 4,
        St::Vulnerable => 5,
        St::Colossus => 6,
        St::Soar => 7,
        St::Surrounded => 8,
        St::FacingRight => 9,
        St::BackAttackLeft => 10,
        St::BackAttackRight => 11,
        St::Flutter => 12,
        St::Slow => 13,
        St::DamageCap => 14,
        St::Intangible => 15,
        St::HardenedShellCap => 16,
        St::HardenedShell => 17,
        St::Slippery => 18,
        St::Dexterity => 19,
        St::Frail => 20,
        St::VambraceCharge => 21,
        St::UnmovableCharge => 22,
        St::Unmovable => 23,
        St::Artifact => 24,
        St::Hex => 25,
        St::Dampen => 26,
        St::Tangled => 27,
        St::Strength => 28,
        St::Stunned => 29,
        St::Sandpit => 30,
        St::Regen => 31,
        St::PlatedArmor => 32,
        St::TempStrength => 33,
        St::Radiance => 34,
        St::DemonForm => 35,
        St::Pyre => 36,
        St::FeelNoPain => 37,
        St::DarkEmbrace => 38,
        St::Rupture => 39,
        St::CrimsonMantle => 40,
        St::RollingBoulder => 41,
        St::Vicious => 42,
        St::Frenzy => 43,
        St::FlameBarrier => 44,
        St::Barricade => 45,
        St::Entrench => 46,
        St::AllOrNothing => 47,
        St::NoEnergyGain => 48,
        St::Juggernaut => 49,
        St::NoDraw => 50,
        St::Stampede => 51,
        St::OneTwoPunch => 52,
        St::Juggling => 53,
        St::Aggression => 54,
        St::OrnamentalFan => 55,
        St::MercuryHourglass => 56,
        St::Lantern => 57,
        St::UpgradeOpeningHand => 58,
        St::JeweledMask => 59,
        St::StoneCracker => 60,
        St::BloodVial => 61,
        St::Pantograph => 62,
        St::TeaSet => 63,
        St::Vigor => 64,
        St::HighVoltage => 65,
        St::Territorial => 66,
        St::ParryingShield => 67,
        St::ScreamingFlagon => 68,
        St::CloakClasp => 69,
        St::HornCleat => 70,
        St::Anchor => 71,
        St::BagOfMarbles => 72,
        St::RedMask => 73,
        St::BagOfPreparation => 74,
        St::Candelabra => 75,
        St::HappyFlower => 76,
        St::FakeHappyFlower => 77,
        St::PollinousCore => 78,
        St::PaelsBlood => 79,
        St::PaelsFlesh => 80,
        St::Kunai => 81,
        St::EscapeArtist => 82,
        St::Tender => 83,
        St::LetterOpener => 84,
        St::CrabRage => 85,
        St::Ravenous => 86,
        St::CentennialPuzzle => 87,
        St::Akabeko => 88,
        St::Pendulum => 89,
        St::PendulumPhase => 90,
        St::StoneCalendar => 91,
        St::Orichalcum => 92,
        St::OrichalcumArmed => 93,
        St::MeatOnTheBone => 94,
        St::BurningBlood => 95,
        St::VitalSpark => 96,
        St::Rage => 97,
        St::Constrict => 98,
        St::Shriek => 99,
        St::Plow => 100,
        St::PersonalHive => 101,
        St::Slumber => 102,
        St::Asleep => 103,
        St::Suck => 104,
        St::Surprise => 105,
        St::Ringing => 106,
        St::Infested => 107,
        St::Adaptable => 108,
        St::PainfulStabs => 109,
        St::Nemesis => 110,
        St::SteamEruption => 111,
        St::Illusion => 112,
        St::Minion => 113,
        St::Reattach => 114,
        St::ReattachDue => 115,
        St::MoveForcedThisTurn => 116,
        St::Disintegration => 117,
        St::Stock => 118,
        St::PossessStrength => 119,
        St::PossessSpeed => 120,
        St::Galvanic => 121,
        St::PaperCuts => 122,
        St::HexCaster => 123,
        St::DampenCaster => 124,
        St::MrStruggles => 125,
        St::CaptainsWheel => 126,
        St::GremlinHorn => 127,
        St::CurlUp => 128,
        St::Ritual => 129,
        St::RitualArmed => 130,
        St::Rampart => 131,
        St::Thorns => 132,
        St::WitheringPresence => 133,
        St::SkittishTriggered => 134,
        St::RedSkull => 135,
        St::RedSkullActive => 136,
        St::MindRot => 137,
        St::Sloth => 138,
        St::Imbalanced => 139,
        St::OffBalance => 140,
        St::Skittish => 141,
        St::Burrowed => 142,
        St::PenNib => 143,
        St::PenNibCount => 144,
        St::RuinedHelmet => 145,
        St::SlowSource => 146,
        St::WasteAway => 147,
        St::Thievery => 148,
        St::Heist => 149,
        St::Swipe => 150,
        St::Hatch => 151,
        St::Smoggy => 152,
        St::ClawGrowth => 153,
        St::PressureGunGrowth => 154,
        St::EruptionDamage => 155,
    }
}
/// One combatant (the player or an enemy): hit points, block and status amounts.
///
/// `status[st_slot(s)]` is the amount of `s`; a slot past the end of the table reads as 0.
#[derive(Clone, Debug)]
pub struct Entity {
    pub hp: i32,
    pub max_hp: i32,
    pub block: i32,
    pub status: Vec<i32>,
}

/// Amount of status `s` in a status table (0 where the table is too short).
pub open spec fn table_amount(t: Seq<i32>, s: St) -> i32 {
    if st_slot(s) < t.len() {
        t[st_slot(s) as int]
    } else {
        0
    }
}

impl Entity {
    /// Amount of status `s` on this entity.
    pub open spec fn amt(&self, s: St) -> i32 {
        table_amount(self.status@, s)
    }

    /// `other` carries the same hp, block, max hp and status amounts as `self`, except possibly `s`.
    pub open spec fn same_except(&self, other: &Entity, s: St) -> bool {
        &&& other.hp == self.hp
        &&& other.max_hp == self.max_hp
        &&& other.block == self.block
        &&& forall|t: St| t != s ==> #[trigger] other.amt(t) == self.amt(t)
    }

    /// A fresh entity with the given hit points and maximum, no block and no statuses.
    pub fn new(hp: i32, max_hp: i32) -> (r: Entity)
        ensures
            r.hp == hp,
            r.max_hp == max_hp,
            r.block == 0,
            forall|s: St| #[trigger] r.amt(s) == 0,
    {
        let mut status: Vec<i32> = Vec::new();
        let mut i: usize = 0;
        while i < ST_COUNT
            invariant
                i <= ST_COUNT,
                status@.len() == i,
                forall|j: int| 0 <= j < i ==> status@[j] == 0,
            decreases ST_COUNT - i,
        {
            status.push(0);
            i = i + 1;
        }
        Entity { hp, max_hp, block: 0, status }
    }

    /// Amount of status `s`.
    pub fn get(&self, s: St) -> (r: i32)
        ensures
            r == self.amt(s),
    {
        let i = st_index(s);
        if i < self.status.len() {
            self.status[i]
        } else {
            0
        }
    }

    /// Sets the amount of status `s` to `v`, leaving everything else as it was.
    pub fn set(&mut self, s: St, v: i32)
        ensures
            final(self).amt(s) == v,
            old(self).same_except(&*final(self), s),
    {
        let i = st_index(s);
        while self.status.len() <= i
            invariant
                i == st_slot(s),
                forall|t: St| #[trigger] table_amount(self.status@, t) == old(self).amt(t),
                self.hp == old(self).hp,
                self.max_hp == old(self).max_hp,
                self.block == old(self).block,
            decreases i + 1 - self.status.len(),
        {
            let ghost before = self.status@;
            self.status.push(0);
            assert forall|t: St| #[trigger] table_amount(self.status@, t) == table_amount(before, t) by {
                if st_slot(t) < before.len() {
                    assert(self.status@[st_slot(t) as int] == before[st_slot(t) as int]);
                } else if st_slot(t) == before.len() {
                    assert(self.status@[st_slot(t) as int] == 0);
                }
            }
        }
        let ghost before = self.status@;
        self.status.set(i, v);
        assert forall|t: St| t != s implies #[trigger] self.amt(t) == table_amount(before, t) by {
            lemma_st_slot_injective(s, t);
            if st_slot(t) < before.len() {
                assert(self.status@[st_slot(t) as int] == before[st_slot(t) as int]);
            }
        }
        assert(self.amt(s) == v);
    }

    /// Adds `d` to the amount of status `s`.
    pub fn add(&mut self, s: St, d: i32)
        requires
            i32::MIN <= old(self).amt(s) + d <= i32::MAX,
        ensures
            final(self).amt(s) == old(self).amt(s) + d,
            old(self).same_except(&*final(self), s),
    {
        let cur = self.get(s);
        self.set(s, cur + d);
    }

    /// The entity still stands (hit points above zero).
    pub open spec fn is_alive(&self) -> bool {
        self.hp > 0
    }

    /// Whether the entity still stands.
    pub fn alive(&self) -> (r: bool)
        ensures
            r == self.is_alive(),
    {
        self.hp > 0
    }
}

/// One card in a combat: which card it is and the enchantment it carries.
///
/// `ench` is the enchantment's table position plus one (0 = no enchantment).
#[derive(Clone, Copy, PartialEq, Eq, Debug)]
pub struct CardInst {
    pub id: u16,
    pub upgraded: bool,
    pub ench: u8,
    pub ench_amt: u8,
}

/// Card keyword bit: starts the combat in the opening hand.
pub const F_INNATE: u8 = 1;
/// Card keyword bit: stays in hand at end of turn.
pub const F_RETAIN: u8 = 2;

/// One xorshift64 step of the combat random stream.
pub open spec fn xorshift(x: u64) -> u64 {
    let a = x ^ (x << 13u64);
    let b = a ^ (a >> 7u64);
    b ^ (b << 17u64)
}

/// Draws a number below `n` from the combat random stream, advancing it.
pub fn next_below(rng: &mut u64, n: usize) -> (r: usize)
    requires
        n > 0,
    ensures
        r < n,
        *final(rng) == xorshift(*old(rng)),
        r as int == xorshift(*old(rng)) as int % n as int,
{
    let x = *rng;
    let a = x ^ (x << 13u64);
    let b = a ^ (a >> 7u64);
    let c = b ^ (b << 17u64);
    *rng = c;
    let m = n as u64;
    (c % m) as usize
}

} // verus!
