//! Enemy ids: rows of the enemy table.

use vstd::prelude::*;

verus! {

pub const DUMMY: u16 = 0;
pub const EXOSKELETON: u16 = 1;
pub const TEST_SUBJECT: u16 = 2;
pub const UNKNOWN: u16 = 3;
pub const NIBBIT: u16 = 4;
pub const BYGONE_EFFIGY: u16 = 5;
pub const SHRINK_BEETLE: u16 = 6;
pub const PILLAR_CONSTRUCT: u16 = 7;
pub const FUZZY_CRAWLER: u16 = 8;
pub const LEAF_SLIME_S: u16 = 9;
pub const LEAF_SLIME_M: u16 = 10;
pub const TWIG_SLIME_S: u16 = 11;
pub const TWIG_SLIME_M: u16 = 12;
pub const RAIDER_CROSSBOW: u16 = 13;
pub const RAIDER_AXE: u16 = 14;
pub const RAIDER_TRACKER: u16 = 15;
pub const FLYCONID: u16 = 16;
pub const FOGMOG: u16 = 17;
pub const EYE_WITH_TEETH: u16 = 18;
pub const KIN_PRIEST: u16 = 19;
pub const KIN_FOLLOWER: u16 = 20;
pub const BOWLBUG_ROCK: u16 = 21;
pub const BOWLBUG_EGG: u16 = 22;
pub const THIEVING_HOPPER: u16 = 23;
pub const BOWLBUG_NECTAR: u16 = 24;
pub const BOWLBUG_SILK: u16 = 25;
pub const CHOMPER: u16 = 26;
pub const LOUSE_PROGENITOR: u16 = 27;
pub const MYTE: u16 = 28;
pub const OVICOPTER: u16 = 29;
pub const SPINY_TOAD: u16 = 30;
pub const QUEEN: u16 = 31;
pub const DOORMAKER: u16 = 32;
pub const KNOWLEDGE_DEMON: u16 = 33;
pub const CRUSHER: u16 = 34;
pub const ROCKET: u16 = 35;
pub const MAWLER: u16 = 36;
pub const SNAPPING_JAXFRUIT: u16 = 37;
pub const SLITHERING_STRANGLER: u16 = 38;
pub const WRIGGLER: u16 = 39;
pub const PHROG_PARASITE: u16 = 40;
pub const CEREMONIAL_BEAST: u16 = 41;
pub const EXOSKELETON_ROACH: u16 = 42;
pub const ENTOMANCER: u16 = 43;
pub const INFESTED_PRISM: u16 = 44;
pub const TOUGH_EGG: u16 = 45;
pub const HATCHLING: u16 = 46;
pub const THE_INSATIABLE: u16 = 47;
pub const DEVOTED_SCULPTOR: u16 = 48;
pub const AEONGLASS: u16 = 49;
pub const LIVING_SHIELD: u16 = 50;
pub const TURRET_OPERATOR: u16 = 51;
pub const OWL_MAGISTRATE: u16 = 52;
pub const FABRICATOR: u16 = 53;
pub const NOISEBOT: u16 = 54;
pub const ZAPBOT: u16 = 55;
pub const STABBOT: u16 = 56;
pub const GUARDBOT: u16 = 57;
pub const BYRDONIS: u16 = 58;
pub const HUNTER_KILLER: u16 = 59;
pub const DECIMILLIPEDE_SEGMENT: u16 = 60;
pub const FROG_KNIGHT: u16 = 61;
pub const AXEBOT: u16 = 62;
pub const SOUL_NEXUS: u16 = 63;
pub const TEST_SUBJECT_BOSS: u16 = 64;
pub const TERROR_EEL: u16 = 65;
pub const LIVING_FOG: u16 = 66;
pub const GAS_BOMB: u16 = 67;
pub const PHANTASMAL_GARDENER: u16 = 68;
pub const WATERFALL_GIANT: u16 = 69;
pub const TUNNELER: u16 = 70;
pub const THE_OBSCURA: u16 = 71;
pub const PARAFRIGHT: u16 = 72;
pub const SLUDGE_SPINNER: u16 = 73;
pub const CORPSE_SLUG: u16 = 74;
pub const SEAPUNK: u16 = 75;
pub const CALCIFIED_CULTIST: u16 = 76;
pub const DAMP_CULTIST: u16 = 77;
pub const SEWER_CLAM: u16 = 78;
pub const TWO_TAILED_RAT: u16 = 79;
pub const PUNCH_CONSTRUCT: u16 = 80;
pub const SOUL_FYSH: u16 = 81;
pub const SLIMED_BERSERKER: u16 = 82;
pub const MECHA_KNIGHT: u16 = 83;
pub const GLOBE_HEAD: u16 = 84;
pub const SCROLL_OF_BITING: u16 = 85;
pub const THE_LOST: u16 = 86;
pub const THE_FORGOTTEN: u16 = 87;
pub const FLAIL_KNIGHT: u16 = 88;
pub const SPECTRAL_KNIGHT: u16 = 89;
pub const MAGI_KNIGHT: u16 = 90;
pub const SLUMBERING_BEETLE: u16 = 91;
pub const LAGAVULIN_MATRIARCH: u16 = 92;
pub const VANTOM: u16 = 93;
pub const INKLET: u16 = 94;
pub const SKULKING_COLONY: u16 = 95;
pub const HAUNTED_SHIP: u16 = 96;
pub const TOADPOLE: u16 = 97;
pub const FOSSIL_STALKER: u16 = 98;
pub const GREMLIN_MERC: u16 = 99;
pub const SNEAKY_GREMLIN: u16 = 100;
pub const FAT_GREMLIN: u16 = 101;
pub const VINE_SHAMBLER: u16 = 102;
pub const RAIDER_ASSASSIN: u16 = 103;
pub const RAIDER_BRUTE: u16 = 104;

} // verus!
