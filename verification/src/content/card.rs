//! Card ids: rows of the card table.

use vstd::prelude::*;

verus! {

pub const STRIKE: u16 = 0;
pub const DEFEND: u16 = 1;
pub const BASH: u16 = 2;
pub const DISMANTLE: u16 = 3;
pub const ASH_STRIKE: u16 = 4;
pub const DEMON_FLAME: u16 = 5;
pub const LIGHTNING: u16 = 6;
pub const BULLY: u16 = 7;
pub const BRAND: u16 = 8;
pub const DOMINATE: u16 = 9;
pub const STAMPEDE: u16 = 10;
pub const DEMON_FORM: u16 = 11;
pub const RUTHLESS: u16 = 12;
pub const WOUND: u16 = 13;
pub const UNKNOWN: u16 = 14;
pub const HEMOKINESIS: u16 = 15;
pub const SETUP_STRIKE: u16 = 16;
pub const PYRE: u16 = 17;
pub const FEEL_NO_PAIN: u16 = 18;
pub const DARK_EMBRACE: u16 = 19;
pub const RUPTURE: u16 = 20;
pub const CRIMSON_MANTLE: u16 = 21;
pub const ROLLING_BOULDER: u16 = 22;
pub const VICIOUS: u16 = 23;
pub const COMBUST: u16 = 24;
pub const IRON_WAVE: u16 = 25;
pub const SHRUG_IT_OFF: u16 = 26;
pub const HEAVY_BLADE: u16 = 27;
pub const UPPERCUT: u16 = 28;
pub const POMMEL_STRIKE: u16 = 29;
pub const TWIN_STRIKE: u16 = 30;
pub const FLEX_TAUNT: u16 = 31;
pub const BOULDER: u16 = 32;
pub const IMMOLATE: u16 = 33;
pub const MASTER_PLAN: u16 = 34;
pub const ULTIMATE_STRIKE: u16 = 35;
pub const GOOD_PLAN: u16 = 36;
pub const SHIVER: u16 = 37;
pub const SLIMED: u16 = 38;
pub const BLOOD_WALL: u16 = 39;
pub const BREAKTHROUGH: u16 = 40;
pub const BLOODLETTING: u16 = 41;
pub const FABRICATE: u16 = 42;
pub const OFFERING: u16 = 43;
pub const SHOCKWAVE: u16 = 44;
pub const NOT_YET: u16 = 45;
pub const BODY_SLAM: u16 = 46;
pub const PUGILISM: u16 = 47;
pub const ROCK_ARMOR: u16 = 48;
pub const MOLTEN_FIST: u16 = 49;
pub const OMNI_SLASH: u16 = 50;
pub const DARK_SHACKLES: u16 = 51;
pub const TORTURE: u16 = 52;
pub const FRENZY: u16 = 53;
pub const FLAME_BARRIER: u16 = 54;
pub const BURN: u16 = 55;
pub const INFECTION: u16 = 56;
pub const DECAY: u16 = 57;
pub const SHAME: u16 = 58;
pub const DISINTEGRATION: u16 = 59;
pub const DAZED: u16 = 60;
pub const CLUMSY: u16 = 61;
pub const EVIL_EYE: u16 = 62;
pub const FORGOTTEN_RITE: u16 = 63;
pub const RESENTMENT: u16 = 64;
pub const IMPATIENCE: u16 = 65;
pub const PERFECTED_STRIKE: u16 = 66;
pub const RAMPAGE: u16 = 67;
pub const BARRICADE: u16 = 68;
pub const ENTRENCH: u16 = 69;
pub const ALL_OR_NOTHING: u16 = 70;
pub const SWORD_BOOMERANG: u16 = 71;
pub const FEED: u16 = 72;
pub const EXPECT_A_FIGHT: u16 = 73;
pub const JUGGERNAUT: u16 = 74;
pub const COLOSSUS: u16 = 75;
pub const SECOND_WIND: u16 = 76;
pub const BATTLE_TRANCE: u16 = 77;
pub const BURNING_PACT: u16 = 78;
pub const ARMAMENTS: u16 = 79;
pub const HEADBUTT: u16 = 80;
pub const ANGER: u16 = 81;
pub const STOKE: u16 = 82;
pub const INFERNAL_BLADE: u16 = 83;
pub const HAVOC: u16 = 84;
pub const STAMPEDE_CARD: u16 = 85;
pub const ONE_TWO_PUNCH: u16 = 86;
pub const JUGGLING: u16 = 87;
pub const AGGRESSION: u16 = 88;
pub const CINDER: u16 = 89;
pub const TRUE_GRIT: u16 = 90;
pub const THRASH: u16 = 91;
pub const PILLAGE: u16 = 92;
pub const PRIMAL_FORCE: u16 = 93;
pub const WHIRLWIND: u16 = 94;
pub const CASCADE: u16 = 95;
pub const SPORE_MIND: u16 = 96;
pub const SPOILS_MAP: u16 = 97;
pub const FRANTIC_ESCAPE: u16 = 98;
pub const WITHER: u16 = 99;
pub const BRIGHTEST_FLAME: u16 = 100;
pub const HAND_OF_GREED: u16 = 101;
pub const FLASH_OF_STEEL: u16 = 102;
pub const PECK: u16 = 103;
pub const IMPERVIOUS: u16 = 104;
pub const ULTIMATE_DEFEND: u16 = 105;
pub const SALVO: u16 = 106;
pub const TOXIC: u16 = 107;
pub const GREED: u16 = 108;
pub const DEBT: u16 = 109;
pub const UNMOVABLE: u16 = 110;
pub const WHISTLE: u16 = 111;
pub const NEOW_WRATH: u16 = 112;
pub const DRUM_OF_BATTLE: u16 = 113;
pub const TEAR_ASUNDER: u16 = 114;
pub const HOWL_FROM_BEYOND: u16 = 115;
pub const BECKON: u16 = 116;

} // verus!
