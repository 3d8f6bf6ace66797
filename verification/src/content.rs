//! Card, relic, enchantment and enemy content, and the rules that read it.
//!
//! The content itself is data (`cards`, `powers`, `relics`, `enchants`, `enemies`,
//! `lists`); this module holds the lookups and the rules computed from it.

use vstd::prelude::*;
use vstd::string::StringSliceAdditionalSpecFns;
use crate::ops::{CardDef, CurseSet, EOp, EnchantDef, EnemyDef, Hook, Kind, Op, RelicDef, TCond, TOp};
use crate::state::{next_below, xorshift, CardInst, Entity, St};
use crate::content::cards::{card_at, card_row, CARD_COUNT};
use crate::content::enchants::{enchant_at, enchant_row, ENCHANT_COUNT};
use crate::content::enemies::{enemy_at, enemy_row, ENEMY_COUNT};
use crate::content::lists::{
    conditional_starts, conditional_starts_seq, enemy_private_marker_list, enemy_private_markers_seq,
    enemy_start_player_statuses, enemy_start_player_statuses_seq, gen_pool, gen_pool_seq, strike_cards,
    strike_cards_seq, synth_only_gaps, synth_only_gaps_seq, unplayable_cards, unplayable_cards_seq,
    x_cost_cards, x_cost_cards_seq,
};
use crate::content::powers::{power_at, power_row, POWER_COUNT};
use crate::content::relics::{relic_at, relic_row, RELIC_COUNT};

pub mod card;
pub mod enemy;
pub mod cards;
pub mod powers;
pub mod relics;
pub mod enchants;
pub mod enemies;
pub mod lists;

verus! {

/// Maximum hit points of the Test Subject's first form.
pub const TEST_SUBJECT_FORM1_HP: i32 = 100;
/// Maximum hit points of the Test Subject's second form.
pub const TEST_SUBJECT_FORM2_HP: i32 = 200;
/// Maximum hit points of the Test Subject's third form.
pub const TEST_SUBJECT_FORM3_HP: i32 = 300;
/// Forms whose maximum hit points are at most this are the first form.
pub const TEST_SUBJECT_FORM1_MAX: i32 = 150;
/// The locked hit points of a Waterfall Giant waiting to explode.
pub const ABOUT_TO_BLOW_HP: i32 = 999_999_999;
/// The Waterfall Giant's "about to blow" move.
pub const WATERFALL_ABOUT_TO_BLOW_MOVE: u8 = 6;
/// Default answers to the curse of knowledge: bit k set = take Disintegration the k-th time.
pub const DEFAULT_CURSE_POLICY: u8 = 0b010;

/// The condition under which a relic arms its start-of-combat status.
#[derive(Clone, Copy, PartialEq, Eq, Debug, Structural)]
pub enum Arm {
    /// The previous room was a rest site.
    AfterRest,
    /// The relic's own out-of-combat counter is above zero.
    RelicCounter,
    /// This combat is a boss fight.
    BossRoom,
}

// ---------------------------------------------------------------------------
// Membership in small id lists
// ---------------------------------------------------------------------------

fn list_contains(list: &[u16], id: u16) -> (r: bool)
    ensures
        r == list@.contains(id),
{
    let mut i: usize = 0;
    while i < list.len()
        invariant
            i <= list@.len(),
            forall|j: int| 0 <= j < i ==> list@[j] != id,
        decreases list@.len() - i,
    {
        if list[i] == id {
            return true;
        }
        i = i + 1;
    }
    false
}

/// Whether the card is tagged Strike.
pub fn is_strike(id: u16) -> (r: bool)
    ensures
        r == strike_cards_seq().contains(id),
{
    list_contains(strike_cards(), id)
}

/// Whether the card can never be played.
pub fn unplayable(id: u16) -> (r: bool)
    ensures
        r == unplayable_cards_seq().contains(id),
{
    list_contains(unplayable_cards(), id)
}

/// Whether the card costs X (spends all remaining energy).
pub fn costs_x(id: u16) -> (r: bool)
    ensures
        r == x_cost_cards_seq().contains(id),
{
    list_contains(x_cost_cards(), id)
}

// ---------------------------------------------------------------------------
// Cards
// ---------------------------------------------------------------------------

/// The definition of card `id`.
pub fn card(id: u16) -> (r: &'static CardDef)
    requires
        id < CARD_COUNT,
    ensures
        *r == card_row(id),
{
    card_at(id)
}

/// Status, curse and quest cards cannot be upgraded; every other card can.
pub open spec fn kind_upgradable(k: Kind) -> bool {
    !(k == Kind::Status || k == Kind::Curse || k == Kind::Quest)
}

/// Whether the card can be upgraded.
pub fn upgradable(id: u16) -> (r: bool)
    requires
        id < CARD_COUNT,
    ensures
        r == kind_upgradable(card_row(id).kind),
        card_row(id).kind == Kind::Status || card_row(id).kind == Kind::Curse || card_row(id).kind == Kind::Quest
            ==> !r,
        card_row(id).kind == Kind::Attack || card_row(id).kind == Kind::Skill || card_row(id).kind == Kind::Power
            ==> r,
{
    !matches!(card(id).kind, Kind::Status | Kind::Curse | Kind::Quest)
}

/// The effects of a card: the upgraded ones when upgraded and the card has any.
pub open spec fn card_effects(id: u16, upgraded: bool) -> &'static [Op] {
    if upgraded && card_row(id).ops_upg@.len() != 0 {
        card_row(id).ops_upg
    } else {
        card_row(id).ops
    }
}

/// The effects of card `id`, upgraded or not.
pub fn card_ops(id: u16, upgraded: bool) -> (r: &'static [Op])
    requires
        id < CARD_COUNT,
    ensures
        r == card_effects(id, upgraded),
{
    let d = card(id);
    if upgraded && d.ops_upg.len() != 0 {
        d.ops_upg
    } else {
        d.ops
    }
}

/// Every card on the unplayable list is a status, curse or quest card.
pub proof fn lemma_unplayable_cards_are_not_ordinary(id: u16)
    requires
        id < CARD_COUNT,
    ensures
        unplayable_cards_seq().contains(id) ==> {
            ||| card_row(id).kind == Kind::Status
            ||| card_row(id).kind == Kind::Curse
            ||| card_row(id).kind == Kind::Quest
        },
{
    if unplayable_cards_seq().contains(id) {
        reveal(card_row);
        let k = choose|k: int| 0 <= k < unplayable_cards_seq().len() && unplayable_cards_seq()[k] == id;
        assert(0 <= k < 13);
    }
}

/// Whether the card can be played: status, curse and quest cards only when not unplayable.
pub fn playable(id: u16) -> (r: bool)
    requires
        id < CARD_COUNT,
    ensures
        r == (kind_upgradable(card_row(id).kind) || !unplayable_cards_seq().contains(id)),
        unplayable_cards_seq().contains(id) ==> !r,
        card_row(id).kind == Kind::Attack || card_row(id).kind == Kind::Skill || card_row(id).kind == Kind::Power
            ==> r,
        !unplayable_cards_seq().contains(id) ==> r,
{
    proof {
        lemma_unplayable_cards_are_not_ordinary(id);
    }
    let d = card(id);
    if matches!(d.kind, Kind::Status | Kind::Curse | Kind::Quest) {
        return !unplayable(id);
    }
    true
}

// ---------------------------------------------------------------------------
// Random card generation
// ---------------------------------------------------------------------------

/// Which cards of the generation pool a draw may give: `None` = any, `Some(k)` = kind `k` only.
pub open spec fn pool_wants(want: Option<Kind>, id: u16) -> bool {
    match want {
        Option::None => true,
        Option::Some(k) => card_row(id).kind == k,
    }
}

/// The part of the generation pool a draw chooses from.
pub open spec fn pool_of(want: Option<Kind>) -> Seq<u16> {
    gen_pool_seq().filter(|id: u16| pool_wants(want, id))
}

/// Every id in the generation pool names a card of the card table.
proof fn lemma_gen_pool_in_table()
    ensures
        forall|i: int| 0 <= i < gen_pool_seq().len() ==> #[trigger] gen_pool_seq()[i] < CARD_COUNT,
{
}

proof fn lemma_filter_take_step(s: Seq<u16>, want: Option<Kind>, i: int)
    requires
        0 <= i < s.len(),
    ensures
        s.take(i + 1).filter(|id: u16| pool_wants(want, id)) == (if pool_wants(want, s[i]) {
            s.take(i).filter(|id: u16| pool_wants(want, id)).push(s[i])
        } else {
            s.take(i).filter(|id: u16| pool_wants(want, id))
        }),
{
    reveal_with_fuel(Seq::filter, 1);
    assert(s.take(i + 1).drop_last() =~= s.take(i));
}

proof fn lemma_filter_take_prefix(s: Seq<u16>, want: Option<Kind>, i: int, m: int)
    requires
        0 <= i <= s.len(),
        0 <= m < s.take(i).filter(|id: u16| pool_wants(want, id)).len(),
    ensures
        m < s.filter(|id: u16| pool_wants(want, id)).len(),
        s.filter(|id: u16| pool_wants(want, id))[m] == s.take(i).filter(|id: u16| pool_wants(want, id))[m],
    decreases s.len() - i,
{
    if i < s.len() {
        lemma_filter_take_step(s, want, i);
        lemma_filter_take_prefix(s, want, i + 1, m);
    } else {
        assert(s.take(i) =~= s);
    }
}

/// Draws a card from the generation pool restricted by `want`, advancing the stream once;
/// an empty selection gives `None` and leaves the stream alone.
fn pick_generated(rng: &mut u64, want: Option<Kind>) -> (r: Option<u16>)
    ensures
        pool_of(want).len() == 0 ==> r == Option::<u16>::None && *final(rng) == *old(rng),
        pool_of(want).len() > 0 ==> {
            &&& *final(rng) == xorshift(*old(rng))
            &&& r == Some(pool_of(want)[xorshift(*old(rng)) as int % pool_of(want).len() as int])
        },
{
    let pool = gen_pool();
    proof {
        lemma_gen_pool_in_table();
    }
    let ghost s = gen_pool_seq();
    let mut n: usize = 0;
    let mut i: usize = 0;
    while i < pool.len()
        invariant
            pool@ == s,
            s == gen_pool_seq(),
            i <= s.len(),
            n == s.take(i as int).filter(|id: u16| pool_wants(want, id)).len(),
            n <= i,
            forall|j: int| 0 <= j < s.len() ==> #[trigger] s[j] < CARD_COUNT,
        decreases s.len() - i,
    {
        proof {
            lemma_filter_take_step(s, want, i as int);
        }
        let hit = match want {
            Option::None => true,
            Option::Some(k) => card(pool[i]).kind == k,
        };
        if hit {
            n = n + 1;
        }
        i = i + 1;
    }
    assert(s.take(s.len() as int) =~= s);
    if n == 0 {
        return None;
    }
    let ghost k0 = xorshift(*old(rng)) as int % n as int;
    let mut k = next_below(rng, n);
    let mut i: usize = 0;
    while i < pool.len()
        invariant
            pool@ == s,
            s == gen_pool_seq(),
            i <= s.len(),
            n == s.filter(|id: u16| pool_wants(want, id)).len(),
            n > 0,
            k as int + s.take(i as int).filter(|id: u16| pool_wants(want, id)).len() == k0,
            0 <= k0 < n,
            k0 == xorshift(*old(rng)) as int % n as int,
            *rng == xorshift(*old(rng)),
            forall|j: int| 0 <= j < s.len() ==> #[trigger] s[j] < CARD_COUNT,
        decreases s.len() - i,
    {
        proof {
            lemma_filter_take_step(s, want, i as int);
        }
        let id = pool[i];
        let hit = match want {
            Option::None => true,
            Option::Some(kind) => card(id).kind == kind,
        };
        if hit {
            if k == 0 {
                proof {
                    lemma_filter_take_prefix(s, want, i + 1, k0);
                    assert(s.take(i + 1).filter(|id: u16| pool_wants(want, id))[k0] == id);
                    assert(pool_of(want) == s.filter(|id: u16| pool_wants(want, id)));
                    assert(pool_of(want)[k0] == id);
                    assert(pool_of(want).len() == n);
                    assert(k0 == xorshift(*old(rng)) as int % pool_of(want).len() as int);
                }
                return Some(id);
            }
            k = k - 1;
        }
        i = i + 1;
    }
    assert(s.take(s.len() as int) =~= s);
    None
}

/// A random card of kind `kind` from the generation pool.
pub fn random_generated_card_of(rng: &mut u64, kind: Kind) -> (r: Option<u16>)
    ensures
        pool_of(Some(kind)).len() == 0 ==> r == Option::<u16>::None && *final(rng) == *old(rng),
        pool_of(Some(kind)).len() > 0 ==> {
            &&& *final(rng) == xorshift(*old(rng))
            &&& r == Some(pool_of(Some(kind))[xorshift(*old(rng)) as int % pool_of(Some(kind)).len() as int])
        },
{
    pick_generated(rng, Some(kind))
}

/// A random card from the generation pool; only attacks when `attack_only`.
pub fn random_generated_card(rng: &mut u64, attack_only: bool) -> (r: Option<u16>)
    ensures
        ({
            let want = if attack_only { Some(Kind::Attack) } else { Option::<Kind>::None };
            &&& pool_of(want).len() == 0 ==> r == Option::<u16>::None && *final(rng) == *old(rng)
            &&& pool_of(want).len() > 0 ==> {
                &&& *final(rng) == xorshift(*old(rng))
                &&& r == Some(pool_of(want)[xorshift(*old(rng)) as int % pool_of(want).len() as int])
            }
        }),
{
    if attack_only {
        pick_generated(rng, Some(Kind::Attack))
    } else {
        pick_generated(rng, None)
    }
}

// ---------------------------------------------------------------------------
// Rule-table scans
// ---------------------------------------------------------------------------

/// How deep the scans below look into nested `TOp::If` blocks; the rule table nests them
/// at most two deep.
pub const RULE_NEST_LIMIT: u8 = 4;

/// Whether some effect of `ops` is, or contains within `depth` nested conditions,
/// a `TOp::ClearSelf`.
pub open spec fn ops_clear_self(ops: Seq<TOp>, depth: nat) -> bool
    decreases depth,
{
    exists|i: int| #![trigger ops[i]] 0 <= i < ops.len() && match ops[i] {
        TOp::ClearSelf => true,
        TOp::If { then, .. } => depth > 0 && ops_clear_self(then@, (depth - 1) as nat),
        _ => false,
    }
}

/// `ops_clear_self` for one effect.
pub open spec fn op_clears_self(op: TOp, depth: nat) -> bool {
    match op {
        TOp::ClearSelf => true,
        TOp::If { then, .. } => depth > 0 && ops_clear_self(then@, (depth - 1) as nat),
        _ => false,
    }
}

fn clears_self(ops: &[TOp], depth: u8) -> (r: bool)
    ensures
        r == ops_clear_self(ops@, depth as nat),
    decreases depth,
{
    let mut i: usize = 0;
    while i < ops.len()
        invariant
            i <= ops@.len(),
            forall|j: int| 0 <= j < i ==> !#[trigger] op_clears_self(ops@[j], depth as nat),
        decreases ops@.len() - i,
    {
        let hit = match ops[i] {
            TOp::ClearSelf => true,
            TOp::If { then, .. } => depth > 0 && clears_self(then, depth - 1),
            _ => false,
        };
        if hit {
            assert(op_clears_self(ops@[i as int], depth as nat));

            return true;
        }
        i = i + 1;
    }
    assert(!ops_clear_self(ops@, depth as nat)) by {
        assert forall|j: int| 0 <= j < ops@.len() implies !op_clears_self(#[trigger] ops@[j], depth as nat) by {}
    }
    false
}

/// Charges the kernel spends from code rather than from a rule of the table.
pub open spec fn spent_in_code(st: St) -> bool {
    st == St::VambraceCharge || st == St::UnmovableCharge || st == St::RuinedHelmet
}

/// Some rule of status `st` clears itself after firing.
pub open spec fn rule_clears_self(st: St) -> bool {
    exists|i: u16| i < POWER_COUNT && power_row(i).st == st
        && #[trigger] ops_clear_self(power_row(i).ops@, RULE_NEST_LIMIT as nat)
}


/// Every `TOp::If` in `ops` sits at most `depth` conditions deep.
pub open spec fn nests_within(ops: Seq<TOp>, depth: nat) -> bool
    decreases depth,
{
    forall|i: int|
        #![trigger ops[i]]
        0 <= i < ops.len() ==> match ops[i] {
            TOp::If { then, .. } => depth > 0 && nests_within(then@, (depth - 1) as nat),
            _ => true,
        }
}

proof fn lemma_scan_depth(ops: Seq<TOp>, d: nat, d2: nat, st: St)
    requires
        nests_within(ops, d),
        d <= d2,
    ensures
        ops_clear_self(ops, d2) == ops_clear_self(ops, d),
        ops_phase_ref(ops, st, d2) == ops_phase_ref(ops, st, d),
    decreases d,
{
    assert forall|i: int| 0 <= i < ops.len() implies op_clears_self(#[trigger] ops[i], d2) == op_clears_self(ops[i], d)
        && op_phase_ref(ops[i], st, d2) == op_phase_ref(ops[i], st, d) by {
        match ops[i] {
            TOp::If { then, .. } => {
                lemma_scan_depth(then@, (d - 1) as nat, (d2 - 1) as nat, st);
            },
            _ => {},
        }
    }
    assert(ops_clear_self(ops, d2) == ops_clear_self(ops, d)) by {
        if ops_clear_self(ops, d2) {
            let i = choose|i: int| #![trigger ops[i]] 0 <= i < ops.len() && op_clears_self(ops[i], d2);
            assert(op_clears_self(ops[i], d));
        }
        if ops_clear_self(ops, d) {
            let i = choose|i: int| #![trigger ops[i]] 0 <= i < ops.len() && op_clears_self(ops[i], d);
            assert(op_clears_self(ops[i], d2));
        }
    }
    assert(ops_phase_ref(ops, st, d2) == ops_phase_ref(ops, st, d)) by {
        if ops_phase_ref(ops, st, d2) {
            let i = choose|i: int| #![trigger ops[i]] 0 <= i < ops.len() && op_phase_ref(ops[i], st, d2);
            assert(op_phase_ref(ops[i], st, d));
        }
        if ops_phase_ref(ops, st, d) {
            let i = choose|i: int| #![trigger ops[i]] 0 <= i < ops.len() && op_phase_ref(ops[i], st, d);
            assert(op_phase_ref(ops[i], st, d2));
        }
    }
}

proof fn lemma_rule_nesting()
    ensures
        forall|i: u16| i < POWER_COUNT ==> nests_within(#[trigger] power_row(i).ops@, RULE_NEST_LIMIT as nat),
{
    reveal(power_row);
    reveal_with_fuel(nests_within, 4);
}

/// No rule of the table nests conditions deeper than `RULE_NEST_LIMIT`, so scanning a rule
/// to that depth gives the same answer as scanning it to any greater depth: the scans of
/// `spent_once_per_combat` and `is_turn_phase` see the whole of every rule.
pub proof fn lemma_scans_see_whole_rules(i: u16, d: nat, st: St)
    requires
        i < POWER_COUNT,
        d >= RULE_NEST_LIMIT,
    ensures
        nests_within(power_row(i).ops@, RULE_NEST_LIMIT as nat),
        ops_clear_self(power_row(i).ops@, d) == ops_clear_self(power_row(i).ops@, RULE_NEST_LIMIT as nat),
        ops_phase_ref(power_row(i).ops@, st, d) == ops_phase_ref(power_row(i).ops@, st, RULE_NEST_LIMIT as nat),
{
    lemma_rule_nesting();
    lemma_scan_depth(power_row(i).ops@, RULE_NEST_LIMIT as nat, d, st);
}

/// Whether this relic-private amount can be spent only once per combat
/// (so that joining a combat midway must count it as already spent).
pub fn spent_once_per_combat(st: St) -> (r: bool)
    ensures
        r == (spent_in_code(st) || rule_clears_self(st)),
{
    if matches!(st, St::VambraceCharge | St::UnmovableCharge | St::RuinedHelmet) {
        return true;
    }
    let mut i: u16 = 0;
    while i < POWER_COUNT
        invariant
            i <= POWER_COUNT,
            forall|j: u16| j < i ==> !(power_row(j).st == st
                && #[trigger] ops_clear_self(power_row(j).ops@, RULE_NEST_LIMIT as nat)),
        decreases POWER_COUNT - i,
    {
        let p = power_at(i);
        if p.st == st && clears_self(p.ops, RULE_NEST_LIMIT) {
            return true;
        }
        i = i + 1;
    }
    false
}

/// Whether some effect of `ops` uses `st` as the phase of an `EveryNTurns` condition
/// (looking `depth` conditions deep).
pub open spec fn ops_phase_ref(ops: Seq<TOp>, st: St, depth: nat) -> bool
    decreases depth,
{
    exists|i: int| #![trigger ops[i]] 0 <= i < ops.len() && match ops[i] {
        TOp::If { cond, then } => match cond {
            TCond::EveryNTurns { phase, .. } => phase == st || (depth > 0 && ops_phase_ref(then@, st, (depth - 1) as nat)),
            _ => depth > 0 && ops_phase_ref(then@, st, (depth - 1) as nat),
        },
        _ => false,
    }
}

/// `ops_phase_ref` for one effect.
pub open spec fn op_phase_ref(op: TOp, st: St, depth: nat) -> bool {
    match op {
        TOp::If { cond, then } => match cond {
            TCond::EveryNTurns { phase, .. } => phase == st || (depth > 0 && ops_phase_ref(then@, st, (depth - 1) as nat)),
            _ => depth > 0 && ops_phase_ref(then@, st, (depth - 1) as nat),
        },
        _ => false,
    }
}

fn phase_refs(ops: &[TOp], st: St, depth: u8) -> (r: bool)
    ensures
        r == ops_phase_ref(ops@, st, depth as nat),
    decreases depth,
{
    let mut i: usize = 0;
    while i < ops.len()
        invariant
            i <= ops@.len(),
            forall|j: int| 0 <= j < i ==> !#[trigger] op_phase_ref(ops@[j], st, depth as nat),
        decreases ops@.len() - i,
    {
        let hit = match ops[i] {
            TOp::If { cond: TCond::EveryNTurns { phase, .. }, then } => phase == st || (depth > 0
                && phase_refs(then, st, depth - 1)),
            TOp::If { then, .. } => depth > 0 && phase_refs(then, st, depth - 1),
            _ => false,
        };
        if hit {
            assert(op_phase_ref(ops@[i as int], st, depth as nat));

            return true;
        }
        i = i + 1;
    }
    assert(!ops_phase_ref(ops@, st, depth as nat)) by {
        assert forall|j: int| 0 <= j < ops@.len() implies !op_phase_ref(#[trigger] ops@[j], st, depth as nat) by {}
    }
    false
}

/// Whether `st` is the phase input of some `EveryNTurns` condition of the rule table
/// (such a relic counter is fed in relative to the turn number).
pub fn is_turn_phase(st: St) -> (r: bool)
    ensures
        r == exists|i: u16| i < POWER_COUNT && #[trigger] ops_phase_ref(power_row(i).ops@, st, RULE_NEST_LIMIT as nat),
{
    let mut i: u16 = 0;
    while i < POWER_COUNT
        invariant
            i <= POWER_COUNT,
            forall|j: u16| j < i ==> !#[trigger] ops_phase_ref(power_row(j).ops@, st, RULE_NEST_LIMIT as nat),
        decreases POWER_COUNT - i,
    {
        if phase_refs(power_at(i).ops, st, RULE_NEST_LIMIT) {
            return true;
        }
        i = i + 1;
    }
    false
}

// ---------------------------------------------------------------------------
// Lookups by game id
// ---------------------------------------------------------------------------

/// Whether two strings hold the same characters (compared by their UTF-8 bytes).
pub fn str_eq(a: &str, b: &str) -> (r: bool)
    ensures
        r == (a@ == b@),
{
    let x = a.as_bytes();
    let y = b.as_bytes();
    proof {
        broadcast use vstd::utf8::encode_utf8_decode_utf8;
        assert(vstd::utf8::decode_utf8(x@) == a@);
        assert(vstd::utf8::decode_utf8(y@) == b@);
    }
    if x.len() != y.len() {
        return false;
    }
    let mut i: usize = 0;
    while i < x.len()
        invariant
            x@.len() == y@.len(),
            x@ == a.spec_bytes(),
            y@ == b.spec_bytes(),
            i <= x@.len(),
            forall|j: int| 0 <= j < i ==> x@[j] == y@[j],
        decreases x@.len() - i,
    {
        if x[i] != y[i] {
            return false;
        }
        i = i + 1;
    }
    assert(x@ =~= y@);
    true
}

/// The first relic of the relic table with id `id`.
pub open spec fn relic_found(id: Seq<char>, r: Option<&'static RelicDef>) -> bool {
    match r {
        Some(d) => exists|i: u16| i < RELIC_COUNT && #[trigger] relic_row(i) == *d && relic_row(i).id@ == id
            && forall|j: u16| j < i ==> (#[trigger] relic_row(j)).id@ != id,
        Option::None => forall|i: u16| i < RELIC_COUNT ==> (#[trigger] relic_row(i)).id@ != id,
    }
}

/// Looks a relic up by its game id; `None` = the relic table does not have it.
pub fn relic_by_id(id: &str) -> (r: Option<&'static RelicDef>)
    ensures
        relic_found(id@, r),
{
    let mut i: u16 = 0;
    while i < RELIC_COUNT
        invariant
            i <= RELIC_COUNT,
            forall|j: u16| j < i ==> (#[trigger] relic_row(j)).id@ != id@,
        decreases RELIC_COUNT - i,
    {
        let d = relic_at(i);
        if str_eq(d.id, id) {
            return Some(d);
        }
        i = i + 1;
    }
    None
}

/// What the synthesised-combat path is missing for relic `id`; `None` = nothing.
pub fn synth_gap(id: &str) -> (r: Option<&'static str>)
    ensures
        match r {
            Some(why) => exists|i: int| 0 <= i < synth_only_gaps_seq().len()
                && (#[trigger] synth_only_gaps_seq()[i]).0@ == id@ && why == synth_only_gaps_seq()[i].1
                && forall|j: int| 0 <= j < i ==> (#[trigger] synth_only_gaps_seq()[j]).0@ != id@,
            Option::None => forall|i: int| 0 <= i < synth_only_gaps_seq().len()
                ==> (#[trigger] synth_only_gaps_seq()[i]).0@ != id@,
        },
{
    let list = synth_only_gaps();
    let mut i: usize = 0;
    while i < list.len()
        invariant
            list@ == synth_only_gaps_seq(),
            i <= list@.len(),
            forall|j: int| 0 <= j < i ==> (#[trigger] list@[j]).0@ != id@,
        decreases list@.len() - i,
    {
        let (k, why) = list[i];
        if str_eq(k, id) {
            return Some(why);
        }
        i = i + 1;
    }
    None
}

/// Under which condition relic `id` arms which status, and how much; `None` = it never does.
pub fn conditional_start(id: &str) -> (r: Option<(Arm, St, i32)>)
    ensures
        match r {
            Some(x) => exists|i: int| 0 <= i < conditional_starts_seq().len()
                && (#[trigger] conditional_starts_seq()[i]).0@ == id@
                && x == (conditional_starts_seq()[i].1, conditional_starts_seq()[i].2, conditional_starts_seq()[i].3)
                && forall|j: int| 0 <= j < i ==> (#[trigger] conditional_starts_seq()[j]).0@ != id@,
            Option::None => forall|i: int| 0 <= i < conditional_starts_seq().len()
                ==> (#[trigger] conditional_starts_seq()[i]).0@ != id@,
        },
{
    let list = conditional_starts();
    let mut i: usize = 0;
    while i < list.len()
        invariant
            list@ == conditional_starts_seq(),
            i <= list@.len(),
            forall|j: int| 0 <= j < i ==> (#[trigger] list@[j]).0@ != id@,
        decreases list@.len() - i,
    {
        let (k, arm, st, v) = list[i];
        if str_eq(k, id) {
            return Some((arm, st, v));
        }
        i = i + 1;
    }
    None
}


/// Every relic named by the synthesis gap list is in the relic table, so a relic with a gap
/// is one `relic_by_id` finds.
pub proof fn lemma_synth_gaps_name_relics(k: int)
    requires
        0 <= k < synth_only_gaps_seq().len(),
    ensures
        exists|i: u16| i < RELIC_COUNT && (#[trigger] relic_row(i)).id@ == synth_only_gaps_seq()[k].0@,
        !relic_found(synth_only_gaps_seq()[k].0@, Option::None),
{
    reveal(relic_row);
    let w: u16 = if k == 0 {
        88
    } else if k == 1 {
        45
    } else if k == 2 {
        31
    } else {
        30
    };
    assert(relic_row(w).id@ == synth_only_gaps_seq()[k].0@);
}

/// Every relic named by the conditional-arming list is in the relic table.
pub proof fn lemma_conditional_starts_name_relics(k: int)
    requires
        0 <= k < conditional_starts_seq().len(),
    ensures
        exists|i: u16| i < RELIC_COUNT && (#[trigger] relic_row(i)).id@ == conditional_starts_seq()[k].0@,
        !relic_found(conditional_starts_seq()[k].0@, Option::None),
{
    reveal(relic_row);
    let w: u16 = if k == 0 {
        73
    } else if k == 1 {
        17
    } else if k == 2 {
        100
    } else {
        37
    };
    assert(relic_row(w).id@ == conditional_starts_seq()[k].0@);
}

// ---------------------------------------------------------------------------
// Enchantments
// ---------------------------------------------------------------------------

/// Looks an enchantment up by its game id: its position in the table plus one, and its definition.
pub fn enchant_by_id(id: &str) -> (r: Option<(u8, &'static EnchantDef)>)
    ensures
        match r {
            Some((n, d)) => 1 <= n <= ENCHANT_COUNT && *d == enchant_row((n - 1) as u8)
                && d.id@ == id@ && forall|j: u8| j < n - 1 ==> (#[trigger] enchant_row(j)).id@ != id@,
            Option::None => forall|i: u8| i < ENCHANT_COUNT ==> (#[trigger] enchant_row(i)).id@ != id@,
        },
{
    let mut i: u8 = 0;
    while i < ENCHANT_COUNT
        invariant
            i <= ENCHANT_COUNT,
            forall|j: u8| j < i ==> (#[trigger] enchant_row(j)).id@ != id@,
        decreases ENCHANT_COUNT - i,
    {
        let d = enchant_at(i);
        if str_eq(d.id, id) {
            return Some((i + 1, d));
        }
        i = i + 1;
    }
    None
}

/// The enchantment a card carries: `ench` is the table position plus one, 0 = none.
pub open spec fn enchant_of_spec(inst: CardInst) -> Option<EnchantDef> {
    if inst.ench == 0 || inst.ench - 1 >= ENCHANT_COUNT {
        Option::None
    } else {
        Some(enchant_row((inst.ench - 1) as u8))
    }
}

/// The enchantment this card instance carries.
pub fn enchant_of(inst: &CardInst) -> (r: Option<&'static EnchantDef>)
    ensures
        match r {
            Some(d) => enchant_of_spec(*inst) == Some(*d),
            Option::None => enchant_of_spec(*inst) == Option::<EnchantDef>::None,
        },
{
    if inst.ench == 0 {
        None
    } else if inst.ench - 1 < ENCHANT_COUNT {
        Some(enchant_at(inst.ench - 1))
    } else {
        None
    }
}

/// Block this card instance's enchantment adds (0 without one).
pub fn ench_block_add(inst: &CardInst) -> (r: i32)
    ensures
        r == match enchant_of_spec(*inst) {
            Some(e) => e.block_add.value(inst.ench_amt as int),
            Option::None => 0,
        },
{
    match enchant_of(inst) {
        Some(e) => e.block_add.eval(inst.ench_amt as i32),
        None => 0,
    }
}

/// Damage this card instance's enchantment adds, before Strength (0 without one).
pub fn ench_damage_add(inst: &CardInst) -> (r: i32)
    ensures
        r == match enchant_of_spec(*inst) {
            Some(e) => e.damage_add.value(inst.ench_amt as int),
            Option::None => 0,
        },
{
    match enchant_of(inst) {
        Some(e) => e.damage_add.eval(inst.ench_amt as i32),
        None => 0,
    }
}

/// The damage multiplier `(num, den)` of this card instance's enchantment; `(1, 1)` without one.
pub fn ench_damage_mul(inst: &CardInst) -> (r: (i32, i32))
    ensures
        r == match enchant_of_spec(*inst) {
            Some(e) => e.damage_mul,
            Option::None => (1i32, 1i32),
        },
{
    match enchant_of(inst) {
        Some(e) => e.damage_mul,
        None => (1, 1),
    }
}

// ---------------------------------------------------------------------------
// Enemies
// ---------------------------------------------------------------------------

/// The definition of enemy `id`.
pub fn enemy_def(id: u16) -> (r: &'static EnemyDef)
    requires
        id < ENEMY_COUNT,
    ensures
        *r == enemy_row(id),
{
    enemy_at(id)
}

/// Which moves the Test Subject boss can be on, judged from the powers its forms carry:
/// dead = the revive move 0; Nemesis (third form) = moves 4-6; Painful Stabs (second form) = move 3;
/// otherwise the first form's moves 1-2. Other enemies match any move.
pub open spec fn form_allows(def: u16, mv: int, e: &Entity) -> bool {
    if def != enemy::TEST_SUBJECT_BOSS {
        true
    } else if !e.is_alive() {
        mv == 0
    } else if e.amt(St::Nemesis) > 0 {
        4 <= mv <= 6
    } else if e.amt(St::PainfulStabs) > 0 {
        mv == 3
    } else {
        1 <= mv <= 2
    }
}

/// Whether move `mv` fits the form enemy `def` is in (tells apart identical intents of the
/// Test Subject's forms).
pub fn move_matches_form(def: u16, mv: usize, e: &Entity) -> (r: bool)
    ensures
        r == form_allows(def, mv as int, e),
{
    if def != enemy::TEST_SUBJECT_BOSS {
        return true;
    }
    if !e.alive() {
        return mv == 0;
    }
    if e.get(St::Nemesis) > 0 {
        return 4 <= mv && mv <= 6;
    }
    if e.get(St::PainfulStabs) > 0 {
        return mv == 3;
    }
    1 <= mv && mv <= 2
}

/// The player took the non-Disintegration side of curse `k` (its other status is on them).
pub open spec fn took_other(p: &Entity, sets: Seq<CurseSet>, k: int) -> bool {
    p.amt(sets[k].other) > 0
}

/// Disintegration the first `m` curses would leave: the sum over those where the other side
/// was not taken.
pub open spec fn disintegration_of_first(p: &Entity, sets: Seq<CurseSet>, m: int) -> int
    decreases m,
{
    if m <= 0 {
        0
    } else {
        disintegration_of_first(p, sets, m - 1) + (if took_other(p, sets, m - 1) { 0 } else { sets[m - 1].disintegration as int })
    }
}

/// Exactly the first `m` curses explain what the player carries: no later curse's other
/// status is present, and the Disintegration matches.
pub open spec fn explains(p: &Entity, sets: Seq<CurseSet>, m: int) -> bool {
    &&& forall|k: int| m <= k < sets.len() ==> !#[trigger] took_other(p, sets, k)
    &&& disintegration_of_first(p, sets, m) == p.amt(St::Disintegration)
}

/// The largest `m <= top` that explains the player's statuses.
pub open spec fn largest_explaining(p: &Entity, sets: Seq<CurseSet>, top: int) -> Option<int>
    decreases top + 1,
{
    if top < 0 {
        Option::None
    } else if explains(p, sets, top) {
        Some(top)
    } else {
        largest_explaining(p, sets, top - 1)
    }
}

/// One past the last curse below `top` whose other status is on the player, or 0.
pub open spec fn last_other_below(p: &Entity, sets: Seq<CurseSet>, top: int) -> int
    decreases top,
{
    if top <= 0 {
        0
    } else if took_other(p, sets, top - 1) {
        top
    } else {
        last_other_below(p, sets, top - 1)
    }
}

/// How many curses of knowledge have already fallen, read off the player's statuses.
pub open spec fn curses_taken_spec(p: &Entity, sets: Seq<CurseSet>) -> int {
    match largest_explaining(p, sets, sets.len() as int) {
        Some(m) => m,
        Option::None => {
            let last = last_other_below(p, sets, sets.len() as int);
            let seen: int = if p.amt(St::Disintegration) > 0 { 1 } else { 0 };
            if last > seen { last } else { seen }
        },
    }
}

/// The Disintegration sums of the curses fit in an `i32`.
pub open spec fn curse_sums_fit(p: &Entity, sets: Seq<CurseSet>) -> bool {
    forall|m: int| 0 <= m <= sets.len() ==> i32::MIN <= #[trigger] disintegration_of_first(p, sets, m) <= i32::MAX
}

/// How many curses of knowledge have already fallen, reconstructed from the player's statuses:
/// the longest prefix of `sets` whose choices reproduce them; if none does, the last curse whose
/// other side is visible (at least one if any Disintegration is present).
pub fn curses_taken(p: &Entity, sets: &[CurseSet]) -> (r: usize)
    requires
        curse_sums_fit(p, sets@),
    ensures
        r == curses_taken_spec(p, sets@),
{
    let dis = p.get(St::Disintegration);
    let n = sets.len();
    let mut m = n;
    loop
        invariant_except_break
            n == sets@.len(),
            m <= n,
            curse_sums_fit(p, sets@),
            largest_explaining(p, sets@, n as int) == largest_explaining(p, sets@, m as int),
            dis == p.amt(St::Disintegration),
        ensures
            n == sets@.len(),
            largest_explaining(p, sets@, n as int) == Option::<int>::None,
            dis == p.amt(St::Disintegration),
        decreases m,
    {
        // a later curse's other side is visible: not this prefix
        let mut later = false;
        let mut k = m;
        while k < n
            invariant
                m <= k <= n,
                n == sets@.len(),
                later == exists|j: int| m <= j < k && #[trigger] took_other(p, sets@, j),
            decreases n - k,
        {
            if p.get(sets[k].other) > 0 {
                assert(took_other(p, sets@, k as int));
                later = true;
            }
            k = k + 1;
        }
        if !later {
            let mut want: i32 = 0;
            let mut j: usize = 0;
            while j < m
                invariant
                    j <= m <= n,
                    n == sets@.len(),
                    curse_sums_fit(p, sets@),
                    want == disintegration_of_first(p, sets@, j as int),
                decreases m - j,
            {
                if !(p.get(sets[j].other) > 0) {
                    assert(i32::MIN <= disintegration_of_first(p, sets@, j + 1) <= i32::MAX);
                    want = want + sets[j].disintegration;
                }
                j = j + 1;
            }
            if want == dis {
                return m;
            }
        }
        assert(!explains(p, sets@, m as int));
        if m == 0 {
            assert(largest_explaining(p, sets@, -1) == Option::<int>::None);
            break;
        }
        m = m - 1;
    }
    let mut last_other: usize = 0;
    let mut k = n;
    while k > 0
        invariant
            k <= n,
            n == sets@.len(),
            last_other_below(p, sets@, n as int) == (if last_other > 0 { last_other as int } else { last_other_below(p, sets@, k as int) }),
            last_other == 0 || last_other == last_other_below(p, sets@, n as int),
        decreases k,
    {
        if last_other == 0 && p.get(sets[k - 1].other) > 0 {
            last_other = k;
        }
        k = k - 1;
    }
    let seen: usize = if dis > 0 { 1 } else { 0 };
    if last_other > seen {
        last_other
    } else {
        seen
    }
}

/// Whether some move of the enemy is the curse-of-knowledge choice.
pub open spec fn offers_curse(d: EnemyDef) -> bool {
    exists|i: int, j: int| 0 <= i < d.moves@.len() && 0 <= j < d.moves@[i].ops@.len()
        && (#[trigger] d.moves@[i].ops@[j]) is CurseOfKnowledge
}

/// Whether enemy `def` has a move where the player picks a side of the curse of knowledge.
pub fn offers_curse_choice(def: u16) -> (r: bool)
    requires
        def < ENEMY_COUNT,
    ensures
        r == offers_curse(enemy_row(def)),
{
    let d = enemy_def(def);
    let mut i: usize = 0;
    while i < d.moves.len()
        invariant
            *d == enemy_row(def),
            i <= d.moves@.len(),
            forall|a: int, b: int| 0 <= a < i && 0 <= b < d.moves@[a].ops@.len()
                ==> !((#[trigger] d.moves@[a].ops@[b]) is CurseOfKnowledge),
        decreases d.moves@.len() - i,
    {
        let ops = d.moves[i].ops;
        let mut j: usize = 0;
        while j < ops.len()
            invariant
                *d == enemy_row(def),
                i < d.moves@.len(),
                ops == d.moves@[i as int].ops,
                j <= ops@.len(),
                forall|b: int| 0 <= b < j ==> !((#[trigger] ops@[b]) is CurseOfKnowledge),
            decreases ops@.len() - j,
        {
            if matches!(ops[j], EOp::CurseOfKnowledge(_)) {
                return true;
            }
            j = j + 1;
        }
        i = i + 1;
    }
    false
}

/// The enemy is locked at the Waterfall Giant's about-to-explode hit points.
pub open spec fn is_about_to_blow(e: &Entity) -> bool {
    e.max_hp >= ABOUT_TO_BLOW_HP
}

/// Whether the enemy is waiting to explode (Waterfall Giant after death).
pub fn about_to_blow(e: &Entity) -> (r: bool)
    ensures
        r == is_about_to_blow(e),
{
    e.max_hp >= ABOUT_TO_BLOW_HP
}

/// Hit points left in the current form: 0 while waiting to explode, else hp floored at 0.
pub open spec fn hp_left_spec(e: &Entity) -> int {
    if is_about_to_blow(e) {
        0
    } else if e.hp < 0 {
        0
    } else {
        e.hp as int
    }
}

/// Hit points left in this form (0 while waiting to explode).
pub fn hp_left_this_form(e: &Entity) -> (r: i32)
    ensures
        r == hp_left_spec(e),
{
    if about_to_blow(e) {
        0
    } else if e.hp < 0 {
        0
    } else {
        e.hp
    }
}


/// What the summoning effects of the rule table are: Surprise and Infested summon a fixed
/// number of non-negative hit points, Stock one carried summon per stack.
pub open spec fn summon_op_ok(p: crate::ops::PowerDef, op: TOp) -> bool {
    match op {
        TOp::SummonN { hp, count, .. } => hp >= 0 && count >= 0 && (p.st == St::Surprise || p.st == St::Infested),
        TOp::SummonCarryingSelfMinusOne { hp, .. } => hp >= 0 && p.st == St::Stock,
        _ => true,
    }
}

proof fn lemma_summon_table()
    ensures
        forall|i: u16, j: int|
            #![trigger power_row(i).ops@[j]]
            i < POWER_COUNT && 0 <= j < power_row(i).ops@.len() ==> summon_op_ok(power_row(i), power_row(i).ops@[j]),
{
    reveal(power_row);
}

/// Hit points one effect of an `EnemyDied` rule of status `st` summons when `e` dies
/// (nothing unless `e` carries `st`).
pub open spec fn summon_term(st: St, op: TOp, e: &Entity) -> int {
    let k = e.amt(st);
    if k <= 0 {
        0
    } else {
        match op {
            TOp::SummonN { hp, count, .. } => hp * count,
            TOp::SummonCarryingSelfMinusOne { hp, .. } => hp * k,
            _ => 0,
        }
    }
}

/// Summoned hit points of the first `j` effects of a rule of status `st`.
pub open spec fn ops_summon_hp(st: St, ops: Seq<TOp>, e: &Entity, j: int) -> int
    decreases j,
{
    if j <= 0 {
        0
    } else {
        ops_summon_hp(st, ops, e, j - 1) + summon_term(st, ops[j - 1], e)
    }
}

/// Summoned hit points of the first `j` effects of rule `p` (only `EnemyDied` rules summon).
pub open spec fn rule_summon_hp(p: crate::ops::PowerDef, e: &Entity, j: int) -> int {
    if p.hook == Hook::EnemyDied {
        ops_summon_hp(p.st, p.ops@, e, j)
    } else {
        0
    }
}

/// Summoned hit points of the first `i` rules of the rule table.
pub open spec fn rules_summon_hp(e: &Entity, i: int) -> int
    decreases i,
{
    if i <= 0 {
        0
    } else {
        rules_summon_hp(e, i - 1) + rule_summon_hp(power_row((i - 1) as u16), e, power_row((i - 1) as u16).ops@.len() as int)
    }
}

/// Hit points the death of `e` would summon: the sum over every `EnemyDied` summoning effect
/// of a status `e` carries (hp x count, or hp x stacks for a carried stock).
pub open spec fn death_summon_total(e: &Entity) -> int {
    if e.is_alive() {
        rules_summon_hp(e, POWER_COUNT as int)
    } else {
        0
    }
}

/// For a living enemy, every product and running sum of `death_summon_hp` fits in an `i32`
/// (a dead one reads 0 before any arithmetic).
pub open spec fn death_summon_fits(e: &Entity) -> bool {
    e.is_alive() ==> forall|i: u16, j: int|
        #![trigger power_row(i).ops@[j]]
        i < POWER_COUNT && 0 <= j < power_row(i).ops@.len() && power_row(i).hook == Hook::EnemyDied ==> {
            &&& i32::MIN <= summon_term(power_row(i).st, power_row(i).ops@[j], e) <= i32::MAX
            &&& i32::MIN <= rules_summon_hp(e, i as int) + ops_summon_hp(power_row(i).st, power_row(i).ops@, e, j + 1) <= i32::MAX
        }
}


/// The enemy carries none of the statuses that summon on death.
pub open spec fn carries_no_summon(e: &Entity) -> bool {
    e.amt(St::Surprise) <= 0 && e.amt(St::Infested) <= 0 && e.amt(St::Stock) <= 0
}

proof fn lemma_ops_summon_hp(i: u16, e: &Entity, j: int)
    requires
        i < POWER_COUNT,
        0 <= j <= power_row(i).ops@.len(),
    ensures
        ops_summon_hp(power_row(i).st, power_row(i).ops@, e, j) >= 0,
        carries_no_summon(e) ==> ops_summon_hp(power_row(i).st, power_row(i).ops@, e, j) == 0,
    decreases j,
{
    if j > 0 {
        lemma_ops_summon_hp(i, e, j - 1);
        lemma_summon_table();
        let p = power_row(i);
        let op = p.ops@[j - 1];
        assert(summon_op_ok(p, op));
        let k = e.amt(p.st);
        if k > 0 {
            match op {
                TOp::SummonN { hp, count, .. } => {
                    assert(hp * count >= 0) by (nonlinear_arith)
                        requires
                            hp >= 0,
                            count >= 0,
                    ;
                },
                TOp::SummonCarryingSelfMinusOne { hp, .. } => {
                    assert(hp * k >= 0) by (nonlinear_arith)
                        requires
                            hp >= 0,
                            k > 0,
                    ;
                },
                _ => {},
            }
        }
    }
}

proof fn lemma_rules_summon_hp(e: &Entity, i: int)
    requires
        0 <= i <= POWER_COUNT,
    ensures
        rules_summon_hp(e, i) >= 0,
        carries_no_summon(e) ==> rules_summon_hp(e, i) == 0,
    decreases i,
{
    if i > 0 {
        lemma_rules_summon_hp(e, i - 1);
        lemma_ops_summon_hp((i - 1) as u16, e, power_row((i - 1) as u16).ops@.len() as int);
    }
}

/// What a death summons is never negative; a dead enemy summons nothing more (its summons
/// have happened), and neither does a living one without Surprise, Infested or Stock.
pub proof fn lemma_death_summon_total(e: &Entity)
    ensures
        death_summon_total(e) >= 0,
        !e.is_alive() ==> death_summon_total(e) == 0,
        carries_no_summon(e) ==> death_summon_total(e) == 0,
{
    lemma_rules_summon_hp(e, POWER_COUNT as int);
}

/// How many hit points the death of this enemy summons (0 once it is dead: the summons have
/// already happened).
pub fn death_summon_hp(e: &Entity) -> (r: i32)
    requires
        death_summon_fits(e),
    ensures
        r == death_summon_total(e),
        r >= 0,
        !e.is_alive() ==> r == 0,
        carries_no_summon(e) ==> r == 0,
{
    proof {
        lemma_death_summon_total(e);
    }
    if !e.alive() {
        return 0;
    }
    let mut n: i32 = 0;
    let mut i: u16 = 0;
    while i < POWER_COUNT
        invariant
            i <= POWER_COUNT,
            e.is_alive(),
            death_summon_fits(e),
            n == rules_summon_hp(e, i as int),
        decreases POWER_COUNT - i,
    {
        let p = power_at(i);
        if p.hook == Hook::EnemyDied {
            let mut j: usize = 0;
            while j < p.ops.len()
                invariant
                    i < POWER_COUNT,
                    *p == power_row(i),
                    p.hook == Hook::EnemyDied,
                    e.is_alive(),
                    death_summon_fits(e),
                    j <= p.ops@.len(),
                    n == rules_summon_hp(e, i as int) + ops_summon_hp(p.st, p.ops@, e, j as int),
                decreases p.ops@.len() - j,
            {
                let op = p.ops[j];
                assert(i32::MIN <= summon_term(power_row(i).st, power_row(i).ops@[j as int], e) <= i32::MAX);
                match op {
                    TOp::SummonN { hp, count, .. } => {
                        let k = e.get(p.st);
                        if k > 0 {
                            n = n + hp * count;
                        }
                    },
                    TOp::SummonCarryingSelfMinusOne { hp, .. } => {
                        let k = e.get(p.st);
                        if k > 0 {
                            n = n + hp * k;
                        }
                    },
                    _ => {},
                }
                j = j + 1;
            }
        }
        i = i + 1;
    }
    n
}

/// Hit points still to be dealt before the enemy is really gone: this form, what its death
/// summons, and the Test Subject's forms still to come (200 + 300 from the first form, 300
/// from the second).
pub open spec fn remaining_hp_spec(e: &Entity) -> int {
    let hp = hp_left_spec(e) + death_summon_total(e);
    if e.amt(St::Adaptable) <= 0 {
        hp
    } else if e.max_hp <= TEST_SUBJECT_FORM1_MAX {
        hp + TEST_SUBJECT_FORM2_HP + TEST_SUBJECT_FORM3_HP
    } else {
        hp + TEST_SUBJECT_FORM3_HP
    }
}

/// Hit points left including forms still to come and what death summons.
pub fn remaining_hp_including_revives(e: &Entity) -> (r: i32)
    requires
        death_summon_fits(e),
        remaining_hp_spec(e) <= i32::MAX,
    ensures
        r == remaining_hp_spec(e),
{
    let hp = hp_left_this_form(e) + death_summon_hp(e);
    if e.get(St::Adaptable) <= 0 {
        return hp;
    }
    if e.max_hp <= TEST_SUBJECT_FORM1_MAX {
        hp + TEST_SUBJECT_FORM2_HP + TEST_SUBJECT_FORM3_HP
    } else {
        hp + TEST_SUBJECT_FORM3_HP
    }
}

/// The `(status, amount)` entries of a side table whose name is `name`, in table order.
pub open spec fn named_entries(s: Seq<(&'static str, St, i32)>, name: Seq<char>) -> Seq<(St, i32)>
    decreases s.len(),
{
    if s.len() == 0 {
        Seq::empty()
    } else {
        let rest = named_entries(s.drop_last(), name);
        if s.last().0@ == name {
            rest.push((s.last().1, s.last().2))
        } else {
            rest
        }
    }
}

fn collect_named(list: &[(&'static str, St, i32)], name: &str) -> (r: Vec<(St, i32)>)
    ensures
        r@ == named_entries(list@, name@),
{
    let mut out: Vec<(St, i32)> = Vec::new();
    let mut i: usize = 0;
    while i < list.len()
        invariant
            i <= list@.len(),
            out@ == named_entries(list@.take(i as int), name@),
        decreases list@.len() - i,
    {
        let (n, st, v) = list[i];
        assert(list@.take(i + 1).drop_last() =~= list@.take(i as int));
        if str_eq(n, name) {
            out.push((st, v));
        }
        i = i + 1;
    }
    assert(list@.take(list@.len() as int) =~= list@);
    out
}

/// Statuses enemy `name` puts on the player when the combat starts (empty when none).
pub fn enemy_start_player_status(name: &str) -> (r: Vec<(St, i32)>)
    ensures
        r@ == named_entries(enemy_start_player_statuses_seq(), name@),
{
    collect_named(enemy_start_player_statuses(), name)
}

/// Private identity markers enemy `name` carries, with their amounts (empty when none).
pub fn enemy_private_markers(name: &str) -> (r: Vec<(St, i32)>)
    ensures
        r@ == named_entries(enemy_private_markers_seq(), name@),
{
    collect_named(enemy_private_marker_list(), name)
}


// ---------------------------------------------------------------------------
// Laws
// ---------------------------------------------------------------------------

/// A card a draw from the generation pool can give is in the pool and of the kind asked for.
pub proof fn lemma_generated_card_fits(want: Option<Kind>, i: int)
    requires
        0 <= i < pool_of(want).len(),
    ensures
        gen_pool_seq().contains(pool_of(want)[i]),
        pool_wants(want, pool_of(want)[i]),
{
    let f = |id: u16| pool_wants(want, id);
    assert(pool_of(want) == gen_pool_seq().filter(f));
    gen_pool_seq().lemma_filter_pred(f, i);
    assert(gen_pool_seq().filter(f).contains(pool_of(want)[i]));
    gen_pool_seq().lemma_filter_contains_rev(f, pool_of(want)[i]);
}

proof fn lemma_disintegration_grows(p: &Entity, sets: Seq<CurseSet>, m: int, m2: int)
    requires
        0 <= m <= m2 <= sets.len(),
        forall|k: int| 0 <= k < sets.len() ==> #[trigger] sets[k].disintegration > 0,
        forall|k: int| m <= k < sets.len() ==> !#[trigger] took_other(p, sets, k),
    ensures
        disintegration_of_first(p, sets, m2) >= disintegration_of_first(p, sets, m) + (m2 - m),
    decreases m2 - m,
{
    if m2 > m {
        lemma_disintegration_grows(p, sets, m, m2 - 1);
        assert(!took_other(p, sets, m2 - 1));
        assert(sets[m2 - 1].disintegration > 0);
    }
}

proof fn lemma_largest_explaining_is(p: &Entity, sets: Seq<CurseSet>, m: int, top: int)
    requires
        0 <= m <= top <= sets.len(),
        forall|k: int| 0 <= k < sets.len() ==> #[trigger] sets[k].disintegration > 0,
        explains(p, sets, m),
    ensures
        largest_explaining(p, sets, top) == Some(m),
    decreases top,
{
    if top > m {
        lemma_disintegration_grows(p, sets, m, top);
        assert(!explains(p, sets, top));
        lemma_largest_explaining_is(p, sets, m, top - 1);
    }
}

/// When the player's statuses are what the first `m` curses of `sets` leave (each curse
/// either Disintegration or its other side, no later curse yet), `curses_taken` reads back
/// `m`: with every Disintegration amount positive, a longer prefix never matches.
pub proof fn lemma_curses_taken_reads_history(p: &Entity, sets: Seq<CurseSet>, m: int)
    requires
        0 <= m <= sets.len(),
        forall|k: int| 0 <= k < sets.len() ==> #[trigger] sets[k].disintegration > 0,
        forall|k: int| m <= k < sets.len() ==> !#[trigger] took_other(p, sets, k),
        p.amt(St::Disintegration) == disintegration_of_first(p, sets, m),
    ensures
        curses_taken_spec(p, sets) == m,
{
    lemma_largest_explaining_is(p, sets, m, sets.len() as int);
}

} // verus!
