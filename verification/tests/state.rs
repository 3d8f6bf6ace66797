use sts2core::state::{next_below, CardInst, Entity, St};

#[test]
fn a_status_reads_back_what_was_written() {
    let mut e = Entity::new(30, 40);
    assert_eq!((e.hp, e.max_hp, e.block), (30, 40, 0));
    assert_eq!(e.get(St::Weak), 0);
    e.set(St::Weak, 2);
    e.set(St::Strength, -1);
    assert_eq!(e.get(St::Weak), 2);
    assert_eq!(e.get(St::Strength), -1);
    assert_eq!(e.get(St::Vulnerable), 0);
    e.add(St::Weak, 3);
    assert_eq!(e.get(St::Weak), 5);
    assert_eq!(e.get(St::Strength), -1);
}

#[test]
fn alive_means_hit_points_left() {
    let mut e = Entity::new(1, 10);
    assert!(e.alive());
    e.hp = 0;
    assert!(!e.alive());
}

#[test]
fn random_stream_is_xorshift() {
    let mut rng: u64 = 1;
    let r = next_below(&mut rng, 10);
    // 1 -> 1 ^ (1 << 13) = 8193 -> 8193 ^ (8193 >> 7) = 8257 -> 8257 ^ (8257 << 17) = 1082269761
    assert_eq!(rng, 1082269761);
    assert_eq!(r, 1);
    for n in 1..20usize {
        assert!(next_below(&mut rng, n) < n);
    }
}

#[test]
fn card_instances_compare_by_fields() {
    let a = CardInst { id: 3, upgraded: true, ench: 0, ench_amt: 0 };
    let b = a;
    assert_eq!(a, b);
    assert_ne!(a, CardInst { upgraded: false, ..a });
}
