use sts2core::content::{enemy, enemy_def};
use sts2core::ops::{move_index, potion_def, potion_is_automatic, EnchVal, Op, Scale};
use sts2core::state::potion;

#[test]
fn fixed_move_lists_loop_over_their_tail() {
    // Bygone Effigy: sleep, wake, then slash forever
    let d = enemy_def(enemy::BYGONE_EFFIGY);
    let seq: Vec<usize> = (0..6).map(|c| move_index(d, c)).collect();
    assert_eq!(seq, vec![0, 1, 2, 2, 2, 2]);
    // Shrink Beetle: shrink once, then bite / stomp in turn
    let d = enemy_def(enemy::SHRINK_BEETLE);
    let seq: Vec<usize> = (0..7).map(|c| move_index(d, c)).collect();
    assert_eq!(seq, vec![0, 1, 2, 1, 2, 1, 2]);
    // Thieving Hopper: the last move repeats
    let d = enemy_def(enemy::THIEVING_HOPPER);
    let seq: Vec<usize> = (0..8).map(|c| move_index(d, c)).collect();
    assert_eq!(seq, vec![0, 1, 2, 3, 4, 4, 4, 4]);
}

#[test]
fn enchantment_values() {
    assert_eq!(EnchVal::Zero.eval(4), 0);
    assert_eq!(EnchVal::Amount.eval(4), 4);
    assert_eq!(EnchVal::AmountMinus1.eval(4), 3);
    assert_eq!(EnchVal::Fixed(7).eval(4), 7);
}

#[test]
fn potion_table() {
    let fire = potion_def(5);
    assert_eq!(fire.name, "火焰药水");
    assert!(fire.targeted);
    assert_eq!(fire.ops, &[Op::Damage { base: 20, hits: 1, scale: Scale::Flat }][..]);
    assert_eq!(potion_def(potion::FAIRY).name, "瓶中精灵");
    assert_eq!(potion_def(potion::NONE).name, "无");
    assert_eq!(potion_def(200).name, "无");
    assert!(potion_def(200).ops.is_empty());
}

#[test]
fn only_the_fairy_triggers_by_itself() {
    assert!(potion_is_automatic(potion::FAIRY));
    assert!(!potion_is_automatic(5));
    assert!(!potion_is_automatic(potion::NONE));
}
