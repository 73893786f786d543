use hsakmt_rs::rbtree::{rbtree_insert, rbtree_t};
use hsakmt_rs::rbtree_amd::{
    rbtree_key, rbtree_key_compare, rbtree_lookup_nearest, rbtree_max, rbtree_min, rbtree_min_max, BIT,
    LEFT, LKP_ALL, RIGHT,
};

fn tree_of(keys: &[(u64, i64)]) -> rbtree_t {
    let mut t = rbtree_t::init();
    for &(a, s) in keys {
        rbtree_insert(&mut t, rbtree_key(a, s));
    }
    t
}

const LKP_ADDR: u32 = 1;

#[test]
fn bit_and_lookup_types() {
    assert_eq!(BIT(0), 1);
    assert_eq!(BIT(5), 32);
    assert_eq!(BIT(63), 1u64 << 63);
    assert_eq!(LKP_ALL(), 3);
}

#[test]
fn key_compare_by_type() {
    let a = rbtree_key(0x1000, 10);
    let b = rbtree_key(0x1000, 20);
    let c = rbtree_key(0x2000, 5);
    assert_eq!(rbtree_key_compare(3, &a, &b), -1);
    assert_eq!(rbtree_key_compare(3, &b, &a), 1);
    assert_eq!(rbtree_key_compare(1, &a, &b), 0);
    assert_eq!(rbtree_key_compare(1, &c, &b), 1);
    assert_eq!(rbtree_key_compare(2, &c, &b), -1);
    assert_eq!(rbtree_key_compare(0, &c, &a), 0);
    assert_eq!(rbtree_key_compare(3, &c, &c), 0);
}

#[test]
fn min_max_of_tree() {
    let t = tree_of(&[(50, 1), (20, 1), (80, 1), (10, 4), (30, 1), (90, 2)]);
    assert_eq!(rbtree_min_max(&t, LEFT as i32).unwrap().key, rbtree_key(10, 4));
    assert_eq!(rbtree_min_max(&t, RIGHT as i32).unwrap().key, rbtree_key(90, 2));
    assert_eq!(rbtree_min_max(&t, 7).unwrap().key, rbtree_key(50, 1));
    let root = t.root.as_ref().unwrap();
    assert_eq!(rbtree_max(root).key, rbtree_key(90, 2));
    assert_eq!(rbtree_min(root).key, rbtree_key(10, 4));
    assert!(rbtree_min_max(&rbtree_t::init(), LEFT as i32).is_none());
}

#[test]
fn lookup_exact_and_nearest() {
    let t = tree_of(&[(50, 1), (20, 1), (80, 1), (10, 4), (30, 1), (90, 2)]);
    // Exact match with every lookup side.
    for lr in [LEFT as i32, RIGHT as i32, 2] {
        let n = rbtree_lookup_nearest(&t, &rbtree_key(30, 1), 3, lr).unwrap();
        assert_eq!(n.key, rbtree_key(30, 1));
    }
    // No exact match: largest below, smallest above.
    let k = rbtree_key(60, 0);
    assert_eq!(rbtree_lookup_nearest(&t, &k, 3, LEFT as i32).unwrap().key, rbtree_key(50, 1));
    assert_eq!(rbtree_lookup_nearest(&t, &k, 3, RIGHT as i32).unwrap().key, rbtree_key(80, 1));
    assert!(rbtree_lookup_nearest(&t, &k, 3, 2).is_none());
    // Beyond either end.
    assert!(rbtree_lookup_nearest(&t, &rbtree_key(5, 0), 3, LEFT as i32).is_none());
    assert!(rbtree_lookup_nearest(&t, &rbtree_key(95, 0), 3, RIGHT as i32).is_none());
    assert_eq!(rbtree_lookup_nearest(&t, &rbtree_key(5, 0), 3, RIGHT as i32).unwrap().key, rbtree_key(10, 4));
}

#[test]
fn lookup_by_address_ignores_size() {
    let t = tree_of(&[(50, 1), (20, 1), (80, 1), (10, 4), (30, 1), (90, 2)]);
    let n = rbtree_lookup_nearest(&t, &rbtree_key(10, 999), LKP_ADDR, LEFT as i32).unwrap();
    assert_eq!(n.key, rbtree_key(10, 4));
    // Same address, different size: no exact LKP_ALL match; below is (10, 4).
    let n = rbtree_lookup_nearest(&t, &rbtree_key(10, 999), 3, LEFT as i32).unwrap();
    assert_eq!(n.key, rbtree_key(10, 4));
    let n = rbtree_lookup_nearest(&t, &rbtree_key(10, 999), 3, RIGHT as i32).unwrap();
    assert_eq!(n.key, rbtree_key(20, 1));
}

#[test]
fn lookup_in_empty_tree() {
    let t = rbtree_t::init();
    assert!(rbtree_lookup_nearest(&t, &rbtree_key(1, 1), 3, LEFT as i32).is_none());
    assert!(rbtree_lookup_nearest(&t, &rbtree_key(1, 1), 0, RIGHT as i32).is_none());
}

#[test]
fn lookup_finds_inserted_key() {
    let mut t = tree_of(&[(100, 8), (40, 8), (160, 8)]);
    rbtree_insert(&mut t, rbtree_key(120, 16));
    let n = rbtree_lookup_nearest(&t, &rbtree_key(120, 16), LKP_ALL() as u32, LEFT as i32).unwrap();
    assert_eq!(n.key, rbtree_key(120, 16));
}

#[test]
fn duplicate_keys_are_kept() {
    let t = tree_of(&[(7, 7), (7, 7), (7, 7)]);
    assert_eq!(rbtree_min_max(&t, LEFT as i32).unwrap().key, rbtree_key(7, 7));
    assert_eq!(rbtree_lookup_nearest(&t, &rbtree_key(7, 7), 3, LEFT as i32).unwrap().key, rbtree_key(7, 7));
}
