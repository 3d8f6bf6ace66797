//! The single damage pipeline. Everything that deals damage goes through here.
//!
//! Order of the steps:
//!
//!   1. card base (+upgrade)
//!   2. base multiplier (Corrupt x3/2, enchantments) -- on the base, before strength
//!   3. + flat bonus, + Strength, + Vigor
//!   4. attacker Shrink x7/10, attacker Weak x3/4, Pen Nib x2
//!   5. defender Vulnerable x3/2, Colossus x1/2, Soar x1/2, Surrounded x3/2, Flutter x1/2
//!   6. defender Slow x(100 + n)/100
//!   7. DamageCap  min(d, cap)
//!   8. Intangible d = 1
//!   9. block absorbs, the remainder hits HP (Hardened Shell and Slippery cap that part)
//!
//! Steps 4-6 multiply into one rational factor and are rounded down exactly once.

use vstd::prelude::*;
use crate::state::{Entity, St};

verus! {

/// Integer division rounding toward zero (the rounding of `/` on machine integers).
pub open spec fn trunc_div(a: int, b: int) -> int {
    if a == 0 {
        0
    } else if a > 0 && b > 0 {
        a / b
    } else if a < 0 && b < 0 {
        (a * -1) / (b * -1)
    } else if a < 0 {
        ((a * -1) / b) * -1
    } else {
        (a / (b * -1)) * -1
    }
}

/// Truncating division never moves away from zero past its numerator,
/// and a divisor of magnitude at least 2 at least halves it.
pub proof fn lemma_trunc_div_bounds(a: int, b: int)
    requires
        b != 0,
    ensures
        a >= 0 && b > 0 ==> 0 <= trunc_div(a, b) <= a,
        a < 0 && b > 0 ==> a <= trunc_div(a, b) <= 0,
        a < 0 && b < 0 ==> 0 <= trunc_div(a, b) <= -a,
        a < 0 && b < -1 ==> trunc_div(a, b) <= (-a) / 2,
        a > 0 && b < 0 ==> -a <= trunc_div(a, b) <= 0,
{
    if a > 0 && b > 0 {
        assert(0 <= a / b <= a) by (nonlinear_arith)
            requires a > 0, b > 0;
    } else if a < 0 && b < 0 {
        assert(0 <= (a * -1) / (b * -1) <= a * -1) by (nonlinear_arith)
            requires a < 0, b < 0;
        if b < -1 {
            assert((a * -1) / (b * -1) <= (a * -1) / 2) by (nonlinear_arith)
                requires a < 0, b < -1;
        }
    } else if a < 0 {
        assert(0 <= (a * -1) / b <= a * -1) by (nonlinear_arith)
            requires a < 0, b > 0;
    } else if a > 0 {
        assert(0 <= a / (b * -1) <= a) by (nonlinear_arith)
            requires a > 0, b < 0;
    }
}

/// Bonus of tagged (Strike) attacks from the attacker's StrikeDummy.
pub fn tagged_attack_bonus(attacker: &Entity, strike: bool) -> (r: i32)
    ensures
        r == (if strike { attacker.amt(St::StrikeDummy) } else { 0 }),
{
    if strike {
        attacker.get(St::StrikeDummy)
    } else {
        0
    }
}

/// The base after the base multiplier `mul = (num, den)`; `(1, 1)` leaves it alone.
pub open spec fn multiplied_base(base: int, mul: (i32, i32)) -> int {
    if mul.0 == 1 && mul.1 == 1 {
        base
    } else {
        trunc_div(base * mul.0, mul.1 as int)
    }
}

/// Steps 1-3: the value a card displays in hand.
pub open spec fn face_value(base: int, mul: (i32, i32), bonus: int, strength: int, vigor: int) -> int {
    multiplied_base(base, mul) + bonus + strength + vigor
}

/// Steps 1-3: the number the card displays in hand. Target-independent.
///
/// `mul` is the multiplier on the base, applied before Strength; `(1, 1)` means none.
/// `vigor` is non-zero only for powered attacks.
pub fn card_face_damage(base: i32, mul: (i32, i32), bonus: i32, strength: i32, vigor: i32) -> (r: i32)
    requires
        mul.0 == 1 && mul.1 == 1 || mul.1 != 0,
        mul.0 == 1 && mul.1 == 1 || i32::MIN <= base * mul.0 <= i32::MAX,
        mul.0 == 1 && mul.1 == 1 || !(base * mul.0 == i32::MIN && mul.1 == -1),
        i32::MIN <= multiplied_base(base as int, mul) + bonus <= i32::MAX,
        i32::MIN <= multiplied_base(base as int, mul) + bonus + strength <= i32::MAX,
        i32::MIN <= face_value(base as int, mul, bonus as int, strength as int, vigor as int) <= i32::MAX,
    ensures
        r == face_value(base as int, mul, bonus as int, strength as int, vigor as int),
{
    let mut d = base;
    if mul.0 != 1 || mul.1 != 1 {
        // `checked_div` only fails on a zero divisor or on overflow, both excluded above
        proof {
            lemma_trunc_div_bounds(base * mul.0, mul.1 as int);
        }
        d = match (d * mul.0).checked_div(mul.1) {
            Some(q) => q,
            None => 0,
        };
    }
    assert(d == multiplied_base(base as int, mul));
    d + bonus + strength + vigor
}

/// The attacker stands on the side the defender turns its back to, and the defender is Surrounded.
pub open spec fn hits_from_behind(attacker: &Entity, defender: &Entity) -> bool {
    &&& defender.amt(St::Surrounded) > 0
    &&& if defender.amt(St::FacingRight) > 0 {
        attacker.amt(St::BackAttackLeft) > 0
    } else {
        attacker.amt(St::BackAttackRight) > 0
    }
}

/// Numerator of the fixed multipliers of steps 4-5 (everything but Slow).
pub open spec fn fixed_num(attacker: &Entity, defender: &Entity) -> int {
    let n0: int = 1;
    let n1 = if attacker.amt(St::Shrink) != 0 { n0 * 7 } else { n0 };
    let n2 = if attacker.amt(St::Weak) > 0 { n1 * 3 } else { n1 };
    let n3 = if attacker.amt(St::PenNibArmed) > 0 { n2 * 2 } else { n2 };
    let n4 = if defender.amt(St::Vulnerable) > 0 { n3 * 3 } else { n3 };
    if hits_from_behind(attacker, defender) { n4 * 3 } else { n4 }
}

/// Denominator of the fixed multipliers of steps 4-5 (everything but Slow).
pub open spec fn fixed_den(attacker: &Entity, defender: &Entity) -> int {
    let m0: int = 1;
    let m1 = if attacker.amt(St::Shrink) != 0 { m0 * 10 } else { m0 };
    let m2 = if attacker.amt(St::Weak) > 0 { m1 * 4 } else { m1 };
    let m3 = if defender.amt(St::Vulnerable) > 0 { m2 * 2 } else { m2 };
    let m4 = if defender.amt(St::Colossus) > 0 && attacker.amt(St::Vulnerable) > 0 { m3 * 2 } else { m3 };
    let m5 = if defender.amt(St::Soar) > 0 { m4 * 2 } else { m4 };
    let m6 = if hits_from_behind(attacker, defender) { m5 * 2 } else { m5 };
    if defender.amt(St::Flutter) > 0 { m6 * 2 } else { m6 }
}

/// Numerator of the combined multiplier of steps 4-6.
pub open spec fn powered_num(attacker: &Entity, defender: &Entity) -> int {
    let slow = defender.amt(St::Slow);
    if slow > 0 { fixed_num(attacker, defender) * (100 + slow) } else { fixed_num(attacker, defender) }
}

/// Denominator of the combined multiplier of steps 4-6.
pub open spec fn powered_den(attacker: &Entity, defender: &Entity) -> int {
    if defender.amt(St::Slow) > 0 { fixed_den(attacker, defender) * 100 } else { fixed_den(attacker, defender) }
}

/// Steps 7-8: the defender's DamageCap, then Intangible.
pub open spec fn defender_caps(d: int, defender: &Entity) -> int {
    let cap = defender.amt(St::DamageCap);
    let capped = if cap > 0 && d > cap { cap as int } else { d };
    if defender.amt(St::Intangible) > 0 { 1 } else { capped }
}

/// Face value plus the defender's Tainted, floored at zero.
pub open spec fn tainted_face(face: int, defender: &Entity) -> int {
    let d = face + defender.amt(St::Tainted);
    if d < 0 { 0 } else { d }
}

/// Steps 4-8 for a powered attack: one rounding down after all multipliers.
pub open spec fn powered_damage(face: int, attacker: &Entity, defender: &Entity) -> int {
    let scaled = (tainted_face(face, defender) * powered_num(attacker, defender) / powered_den(attacker, defender)) as i32;
    defender_caps(scaled as int, defender)
}

/// The arithmetic of `apply_modifiers` stays inside its machine integers.
pub open spec fn powered_damage_fits(face: int, attacker: &Entity, defender: &Entity) -> bool {
    &&& i32::MIN <= face + defender.amt(St::Tainted) <= i32::MAX
    &&& defender.amt(St::Slow) <= i32::MAX - 100
    &&& tainted_face(face, defender) * powered_num(attacker, defender) <= i64::MAX
}

proof fn lemma_powered_factors(attacker: &Entity, defender: &Entity)
    ensures
        1 <= powered_den(attacker, defender),
        1 <= powered_num(attacker, defender),
{
    let n = fixed_num(attacker, defender);
    let slow = defender.amt(St::Slow);
    if slow > 0 {
        assert(n * (100 + slow) >= 1) by (nonlinear_arith)
            requires n >= 1, slow > 0;
    }
}

/// The fixed multipliers of steps 4-5 as a fraction `(num, den)`.
fn fixed_factors(attacker: &Entity, defender: &Entity) -> (r: (i64, i64))
    ensures
        r.0 == fixed_num(attacker, defender),
        r.1 == fixed_den(attacker, defender),
        1 <= r.0 <= 378,
        1 <= r.1 <= 2560,
{
    let mut num: i64 = 1;
    let mut den: i64 = 1;
    if attacker.get(St::Shrink) != 0 {
        num *= 7;
        den *= 10;
    }
    if attacker.get(St::Weak) > 0 {
        num *= 3;
        den *= 4;
    }
    if attacker.get(St::PenNibArmed) > 0 {
        num *= 2;
    }
    if defender.get(St::Vulnerable) > 0 {
        num *= 3;
        den *= 2;
    }
    if defender.get(St::Colossus) > 0 && attacker.get(St::Vulnerable) > 0 {
        den *= 2;
    }
    if defender.get(St::Soar) > 0 {
        den *= 2;
    }
    if defender.get(St::Surrounded) > 0 {
        let facing_right = defender.get(St::FacingRight) > 0;
        let from_behind = if facing_right {
            attacker.get(St::BackAttackLeft) > 0
        } else {
            attacker.get(St::BackAttackRight) > 0
        };
        if from_behind {
            num *= 3;
            den *= 2;
        }
    }
    if defender.get(St::Flutter) > 0 {
        den *= 2;
    }
    (num, den)
}

/// Steps 4-8: apply attacker/defender modifiers to a face value.
///
/// All multipliers are multiplied into one rational number and rounded down once.
pub fn apply_modifiers(face: i32, attacker: &Entity, defender: &Entity) -> (r: i32)
    requires
        powered_damage_fits(face as int, attacker, defender),
    ensures
        r == powered_damage(face as int, attacker, defender),
{
    let mut d = face + defender.get(St::Tainted);
    if d < 0 {
        d = 0;
    }
    let ghost d0 = d;
    let (mut num, mut den) = fixed_factors(attacker, defender);
    let slow = defender.get(St::Slow);
    if slow > 0 {
        let factor = (100 + slow) as i64;
        assert(num * factor <= 378 * (i32::MAX as int)) by (nonlinear_arith)
            requires
                1 <= num <= 378,
                101 <= factor <= i32::MAX;
        num *= factor;
        den *= 100;
    }
    proof {
        lemma_powered_factors(attacker, defender);
    }
    assert(num == powered_num(attacker, defender));
    assert(den == powered_den(attacker, defender));
    assert(0 <= (d as i64) * num) by (nonlinear_arith)
        requires d >= 0, num >= 1;
    d = ((d as i64) * num / den) as i32;

    let cap = defender.get(St::DamageCap);
    if cap > 0 && d > cap {
        d = cap;
    }
    if defender.get(St::Intangible) > 0 {
        d = 1;
    }
    d
}

/// Damage from relics, potions and powers: it skips steps 4-6 but still meets the
/// defender's DamageCap and Intangible.
pub fn apply_modifiers_unpowered(face: i32, defender: &Entity) -> (r: i32)
    ensures
        r == defender_caps(if face < 0 { 0 } else { face as int }, defender),
{
    let mut d = if face < 0 { 0 } else { face };
    let cap = defender.get(St::DamageCap);
    if cap > 0 && d > cap {
        d = cap;
    }
    if defender.get(St::Intangible) > 0 {
        d = 1;
    }
    d
}

/// The part of `dmg` that gets past the defender's block.
pub open spec fn unblocked(dmg: int, block: int) -> int {
    dmg - (if dmg < block { dmg } else { block })
}

/// Step 9, the hit-point loss: what passes block, capped by the Hardened Shell
/// allowance (when the defender has a shell) and pressed to 1 by Slippery.
pub open spec fn hp_loss(dmg: int, defender: &Entity) -> int {
    let through = unblocked(dmg, defender.block as int);
    let shell_left = if defender.amt(St::HardenedShell) < 0 { 0 } else { defender.amt(St::HardenedShell) as int };
    let shelled = if defender.amt(St::HardenedShellCap) > 0 && through > shell_left { shell_left } else { through };
    if shelled > 1 && defender.amt(St::Slippery) > 0 { 1 } else { shelled }
}

/// Step 9: block absorbs the hit, the remainder reaches hit points.
/// Returns the damage that actually reached hit points.
///
/// Block is emptied as usual; Hardened Shell and Slippery only limit the hit-point loss.
/// The shell's allowance for the turn is reduced by what actually got through.
pub fn absorb(defender: &mut Entity, dmg: i32) -> (r: i32)
    requires
        dmg > 0 ==> unblocked(dmg as int, old(defender).block as int) <= i32::MAX,
        dmg > 0 ==> old(defender).hp - hp_loss(dmg as int, &*old(defender)) >= i32::MIN,
    ensures
        dmg <= 0 ==> r == 0 && *final(defender) == *old(defender),
        dmg > 0 ==> {
            &&& r == hp_loss(dmg as int, &*old(defender))
            &&& final(defender).hp == old(defender).hp - r
            &&& final(defender).block == old(defender).block - (if dmg < old(defender).block { dmg } else { old(defender).block })
            &&& final(defender).max_hp == old(defender).max_hp
            &&& final(defender).amt(St::HardenedShell) == (if old(defender).amt(St::HardenedShellCap) > 0 {
                old(defender).amt(St::HardenedShell) - r
            } else {
                old(defender).amt(St::HardenedShell) as int
            })
            &&& forall|t: St| t != St::HardenedShell ==> #[trigger] final(defender).amt(t) == old(defender).amt(t)
        },
{
    if dmg <= 0 {
        return 0;
    }
    let blocked = if dmg < defender.block { dmg } else { defender.block };
    defender.block -= blocked;
    let mut through = dmg - blocked;
    let shell = defender.get(St::HardenedShellCap) > 0;
    if shell {
        let left = defender.get(St::HardenedShell);
        let left = if left < 0 { 0 } else { left };
        if through > left {
            through = left;
        }
    }
    if through > 1 && defender.get(St::Slippery) > 0 {
        through = 1;
    }
    defender.hp -= through;
    if shell {
        defender.add(St::HardenedShell, -through);
    }
    through
}

/// Block a card grants before Vambrace and Unmovable: base plus Dexterity, floored at 0,
/// then reduced by a quarter under Frail (rounded down).
pub open spec fn card_block_after_frail(base: int, owner: &Entity) -> int {
    let b1 = card_block_floor(base, owner);
    if owner.amt(St::Frail) > 0 { b1 * 3 / 4 } else { b1 }
}

/// Base plus Dexterity, floored at 0.
pub open spec fn card_block_floor(base: int, owner: &Entity) -> int {
    let b = base + owner.amt(St::Dexterity);
    if b < 0 { 0 } else { b }
}

/// The first card block of the combat is doubled while a Vambrace charge is left.
pub open spec fn card_block_after_vambrace(base: int, owner: &Entity) -> int {
    let b = card_block_after_frail(base, owner);
    if b > 0 && owner.amt(St::VambraceCharge) > 0 { b * 2 } else { b }
}

/// The block `card_block` grants.
pub open spec fn card_block_value(base: int, owner: &Entity) -> int {
    let b = card_block_after_vambrace(base, owner);
    if b > 0 && owner.amt(St::UnmovableCharge) < owner.amt(St::Unmovable) { b * 2 } else { b }
}

/// Block gained from a card, after Dexterity and Frail.
///
/// Also spends the Vambrace charge (the first card block of the combat is doubled),
/// and counts card block gains for Unmovable (the first N of a turn are doubled).
pub fn card_block(base: i32, owner: &mut Entity) -> (r: i32)
    requires
        i32::MIN <= base + old(owner).amt(St::Dexterity) <= i32::MAX,
        old(owner).amt(St::Frail) > 0 ==> card_block_floor(base as int, &*old(owner)) * 3 <= i32::MAX,
        card_block_value(base as int, &*old(owner)) <= i32::MAX,
        card_block_after_frail(base as int, &*old(owner)) > 0 ==> old(owner).amt(St::UnmovableCharge) < i32::MAX,
    ensures
        r == card_block_value(base as int, &*old(owner)),
        r >= 0,
        final(owner).hp == old(owner).hp,
        final(owner).max_hp == old(owner).max_hp,
        final(owner).block == old(owner).block,
        final(owner).amt(St::VambraceCharge) == (if card_block_after_frail(base as int, &*old(owner)) > 0
            && old(owner).amt(St::VambraceCharge) > 0 {
            old(owner).amt(St::VambraceCharge) - 1
        } else {
            old(owner).amt(St::VambraceCharge) as int
        }),
        final(owner).amt(St::UnmovableCharge) == (if card_block_after_vambrace(base as int, &*old(owner)) > 0 {
            old(owner).amt(St::UnmovableCharge) + 1
        } else {
            old(owner).amt(St::UnmovableCharge) as int
        }),
        forall|t: St| t != St::VambraceCharge && t != St::UnmovableCharge
            ==> #[trigger] final(owner).amt(t) == old(owner).amt(t),
        // Unmovable doubles the first `Unmovable` card block gains of a turn, however many stacks
        ({
            let b = base + old(owner).amt(St::Dexterity);
            old(owner).amt(St::Frail) <= 0 && old(owner).amt(St::VambraceCharge) <= 0 && b > 0 ==> {
                &&& 0 <= old(owner).amt(St::UnmovableCharge) < old(owner).amt(St::Unmovable) ==> r == 2 * b
                &&& old(owner).amt(St::UnmovableCharge) >= old(owner).amt(St::Unmovable) ==> r == b
            }
        }),
{
    let mut b = base + owner.get(St::Dexterity);
    if b < 0 {
        b = 0;
    }
    if owner.get(St::Frail) > 0 {
        b = b * 3 / 4;
    }
    if b > 0 && owner.get(St::VambraceCharge) > 0 {
        owner.add(St::VambraceCharge, -1);
        b *= 2;
    }
    if b > 0 {
        if owner.get(St::UnmovableCharge) < owner.get(St::Unmovable) {
            b *= 2;
        }
        owner.add(St::UnmovableCharge, 1);
    }
    b
}

/// Artifact blocks one application of a debuff (not one stack).
/// Returns whether the debuff was blocked; blocking spends one Artifact.
pub fn artifact_absorbs(target: &mut Entity, is_debuff: bool) -> (r: bool)
    ensures
        r == (is_debuff && old(target).amt(St::Artifact) > 0),
        r ==> final(target).amt(St::Artifact) == old(target).amt(St::Artifact) - 1,
        !r ==> *final(target) == *old(target),
        old(target).same_except(&*final(target), St::Artifact),
{
    if is_debuff && target.get(St::Artifact) > 0 {
        target.add(St::Artifact, -1);
        true
    } else {
        false
    }
}

/// The statuses that are debuffs whatever their amount.
pub open spec fn debuff_kind(s: St) -> bool {
    s == St::Vulnerable || s == St::Weak || s == St::Frail || s == St::Slow || s == St::Hex
        || s == St::Dampen || s == St::Tangled
}

/// Whether `s` is a debuff (Artifact can block it).
pub fn is_debuff(s: St) -> (r: bool)
    ensures
        r == debuff_kind(s),
{
    matches!(s, St::Vulnerable | St::Weak | St::Frail | St::Slow | St::Hex | St::Dampen | St::Tangled)
}

/// Whether applying `amt` of `s` is a debuff: a debuff status, or lowering Strength or Dexterity.
pub fn is_debuff_amount(s: St, amt: i32) -> (r: bool)
    ensures
        r == (debuff_kind(s) || ((s == St::Strength || s == St::Dexterity) && amt < 0)),
{
    is_debuff(s) || (matches!(s, St::Strength | St::Dexterity) && amt < 0)
}

/// Block from an enemy move: base plus the enemy's own Dexterity, floored at 0.
pub fn monster_block(base: i32, owner: &Entity) -> (r: i32)
    requires
        i32::MIN <= base + owner.amt(St::Dexterity) <= i32::MAX,
    ensures
        r == (if base + owner.amt(St::Dexterity) < 0 { 0 } else { base + owner.amt(St::Dexterity) }),
{
    let b = base + owner.get(St::Dexterity);
    if b < 0 {
        0
    } else {
        b
    }
}


// ---------------------------------------------------------------------------
// Laws of the pipeline
// ---------------------------------------------------------------------------

/// An Intangible defender takes exactly 1 from every hit, powered or not.
pub proof fn lemma_intangible_takes_one(face: int, attacker: &Entity, defender: &Entity)
    requires
        defender.amt(St::Intangible) > 0,
    ensures
        powered_damage(face, attacker, defender) == 1,
        defender_caps(face, defender) == 1,
{
}

/// DamageCap bounds every hit, powered or not (unless Intangible makes it 1).
pub proof fn lemma_damage_cap(face: int, attacker: &Entity, defender: &Entity)
    requires
        defender.amt(St::DamageCap) > 0,
        defender.amt(St::Intangible) <= 0,
    ensures
        powered_damage(face, attacker, defender) <= defender.amt(St::DamageCap),
        defender_caps(face, defender) <= defender.amt(St::DamageCap),
{
}

/// With no multiplier, Tainted, cap or Intangible in play, a powered hit deals its face
/// value (floored at zero).
pub proof fn lemma_plain_hit(face: int, attacker: &Entity, defender: &Entity)
    requires
        face <= i32::MAX,
        attacker.amt(St::Shrink) == 0,
        attacker.amt(St::Weak) <= 0,
        attacker.amt(St::PenNibArmed) <= 0,
        defender.amt(St::Vulnerable) <= 0,
        defender.amt(St::Colossus) <= 0,
        defender.amt(St::Soar) <= 0,
        defender.amt(St::Surrounded) <= 0,
        defender.amt(St::Flutter) <= 0,
        defender.amt(St::Slow) <= 0,
        defender.amt(St::Tainted) == 0,
        defender.amt(St::DamageCap) <= 0,
        defender.amt(St::Intangible) <= 0,
    ensures
        powered_damage(face, attacker, defender) == if face < 0 { 0 } else { face },
{
    let t = tainted_face(face, defender);
    assert(powered_num(attacker, defender) == 1);
    assert(powered_den(attacker, defender) == 1);
    assert(t * 1 / 1 == t);
}

/// Where no multiplier and no Tainted applies, a powered hit and an unpowered hit of the
/// same face value deal the same damage: both meet only the defender's cap and Intangible.
pub proof fn lemma_unpowered_matches_plain_powered(face: int, attacker: &Entity, defender: &Entity)
    requires
        face <= i32::MAX,
        attacker.amt(St::Shrink) == 0,
        attacker.amt(St::Weak) <= 0,
        attacker.amt(St::PenNibArmed) <= 0,
        defender.amt(St::Vulnerable) <= 0,
        defender.amt(St::Colossus) <= 0,
        defender.amt(St::Soar) <= 0,
        defender.amt(St::Surrounded) <= 0,
        defender.amt(St::Flutter) <= 0,
        defender.amt(St::Slow) <= 0,
        defender.amt(St::Tainted) == 0,
    ensures
        powered_damage(face, attacker, defender) == defender_caps(if face < 0 { 0 } else { face }, defender),
{
    let t = tainted_face(face, defender);
    assert(powered_num(attacker, defender) == 1);
    assert(powered_den(attacker, defender) == 1);
    assert(t * 1 / 1 == t);
}

/// Colossus halves a hit only when the attacker is Vulnerable: against an attacker without
/// Vulnerable, a defender with Colossus takes exactly what the same defender without it takes.
pub proof fn lemma_colossus_needs_vulnerable_attacker(
    face: int,
    attacker: &Entity,
    defender: &Entity,
    without: &Entity,
)
    requires
        attacker.amt(St::Vulnerable) <= 0,
        defender.same_except(without, St::Colossus),
        without.amt(St::Colossus) <= 0,
    ensures
        powered_damage(face, attacker, defender) == powered_damage(face, attacker, without),
{
    assert(defender.amt(St::Vulnerable) == without.amt(St::Vulnerable));
    assert(defender.amt(St::Soar) == without.amt(St::Soar));
    assert(defender.amt(St::Surrounded) == without.amt(St::Surrounded));
    assert(defender.amt(St::FacingRight) == without.amt(St::FacingRight));
    assert(defender.amt(St::Flutter) == without.amt(St::Flutter));
    assert(defender.amt(St::Slow) == without.amt(St::Slow));
    assert(defender.amt(St::Tainted) == without.amt(St::Tainted));
    assert(defender.amt(St::DamageCap) == without.amt(St::DamageCap));
    assert(defender.amt(St::Intangible) == without.amt(St::Intangible));
    assert(fixed_num(attacker, defender) == fixed_num(attacker, without));
    assert(fixed_den(attacker, defender) == fixed_den(attacker, without));
}

/// A Vulnerable defender takes half again: with nothing else in play, a hit of face `f >= 0`
/// deals `f * 3 / 2`, whatever Colossus the defender has when the attacker is not Vulnerable.
pub proof fn lemma_vulnerable_takes_half_again(face: int, attacker: &Entity, defender: &Entity)
    requires
        0 <= face <= i32::MAX / 2,
        attacker.amt(St::Shrink) == 0,
        attacker.amt(St::Weak) <= 0,
        attacker.amt(St::PenNibArmed) <= 0,
        attacker.amt(St::Vulnerable) <= 0,
        defender.amt(St::Vulnerable) > 0,
        defender.amt(St::Soar) <= 0,
        defender.amt(St::Surrounded) <= 0,
        defender.amt(St::Flutter) <= 0,
        defender.amt(St::Slow) <= 0,
        defender.amt(St::Tainted) == 0,
        defender.amt(St::DamageCap) <= 0,
        defender.amt(St::Intangible) <= 0,
    ensures
        powered_damage(face, attacker, defender) == face * 3 / 2,
{
    assert(powered_num(attacker, defender) == 3);
    assert(powered_den(attacker, defender) == 2);
}

/// A larger face value never deals less damage (while the scaled value stays an `i32`).
pub proof fn lemma_powered_damage_monotone(f1: int, f2: int, attacker: &Entity, defender: &Entity)
    requires
        f1 <= f2,
        tainted_face(f2, defender) * powered_num(attacker, defender) / powered_den(attacker, defender)
            <= i32::MAX,
    ensures
        powered_damage(f1, attacker, defender) <= powered_damage(f2, attacker, defender),
{
    lemma_powered_factors(attacker, defender);
    let n = powered_num(attacker, defender);
    let d = powered_den(attacker, defender);
    let t1 = tainted_face(f1, defender);
    let t2 = tainted_face(f2, defender);
    assert(0 <= t1 <= t2);
    assert(0 <= t1 * n <= t2 * n) by (nonlinear_arith)
        requires
            0 <= t1 <= t2,
            n >= 1,
    ;
    assert(0 <= t1 * n / d <= t2 * n / d) by (nonlinear_arith)
        requires
            0 <= t1 * n <= t2 * n,
            d >= 1,
    ;
}

/// What reaches hit points is never negative and never more than what got past block;
/// Slippery presses it to at most 1, and a Hardened Shell to the allowance it has left.
pub proof fn lemma_hp_loss_bounds(dmg: int, defender: &Entity)
    requires
        dmg >= 0,
    ensures
        0 <= hp_loss(dmg, defender) <= unblocked(dmg, defender.block as int),
        defender.amt(St::Slippery) > 0 ==> hp_loss(dmg, defender) <= 1,
        defender.amt(St::HardenedShellCap) > 0 ==> hp_loss(dmg, defender) <= (if defender.amt(
            St::HardenedShell,
        ) < 0 {
            0
        } else {
            defender.amt(St::HardenedShell) as int
        }),
{
}

} // verus!
