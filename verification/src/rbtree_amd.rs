use vstd::prelude::*;
use vstd::arithmetic::power2::pow2;
use crate::rbtree::{rbtree_node_t, rbtree_t, opt_keys, opt_wf};

verus! {

/// Selects the left (smaller) side in a nearest lookup or a min/max query.
pub const LEFT: usize = 0;
/// Selects the right (larger) side in a nearest lookup or a min/max query.
pub const RIGHT: usize = 1;
pub const MID: usize = 2;

const ADDR_BIT: usize = 0;
const SIZE_BIT: usize = 1;

/// `1 << x`.
pub fn BIT(x: u64) -> (r: u64)
    requires
        x < 64,
    ensures
        r as nat == pow2(x as nat),
{
    proof {
        vstd::bits::lemma_u64_pow2_no_overflow(x as nat);
        vstd::bits::lemma_u64_shl_is_mul(1, x);
    }
    1u64 << x
}

/// The lookup type that compares both the address and the size of a key.
pub fn LKP_ALL() -> (r: u64)
    ensures
        r == 3,
{
    let r: u64 = (1u64 << 0u64) | (1u64 << 1u64);
    assert(r == 3) by (bit_vector)
        requires r == (1u64 << 0u64) | (1u64 << 1u64);
    r
}

/// Key of a tree node: an address range start and its size.
#[derive(Debug, Copy, Clone, PartialEq, Eq, Structural)]
pub struct rbtree_key_s {
    pub addr: u64,
    pub size: i64,
}

pub type rbtree_key_t = rbtree_key_s;

/// Builds a key.
pub fn rbtree_key(addr: u64, size: i64) -> (r: rbtree_key_t)
    ensures
        r == (rbtree_key_t { addr, size }),
{
    rbtree_key_t { addr, size }
}

/// The order in which tree nodes are kept: by address, then by size.
pub open spec fn key_le(a: rbtree_key_t, b: rbtree_key_t) -> bool {
    a.addr < b.addr || (a.addr == b.addr && a.size <= b.size)
}

/// Whether the lookup type `type_v` compares addresses.
pub open spec fn compares_addr(type_v: u32) -> bool {
    type_v & 1 != 0
}

/// Whether the lookup type `type_v` compares sizes.
pub open spec fn compares_size(type_v: u32) -> bool {
    type_v & 2 != 0
}

/// Three-way comparison of `key1` against `key2` under the lookup type `type_v`:
/// first the addresses (if selected), then the sizes (if selected).
pub open spec fn key_compare_spec(type_v: u32, key1: rbtree_key_t, key2: rbtree_key_t) -> int {
    if compares_addr(type_v) && key1.addr != key2.addr {
        if key1.addr > key2.addr { 1 } else { -1 }
    } else if compares_size(type_v) && key1.size != key2.size {
        if key1.size > key2.size { 1 } else { -1 }
    } else {
        0
    }
}

/// Compares `key1` against `key2`, field by field, on the fields selected by `type_v`.
pub fn rbtree_key_compare(type_v: u32, key1: &rbtree_key_t, key2: &rbtree_key_t) -> (r: i32)
    ensures
        r as int == key_compare_spec(type_v, *key1, *key2),
{
    let b_1 = type_v & (1u32 << ADDR_BIT);
    let b_2 = key1.addr != key2.addr;
    assert(b_1 == type_v & 1) by (bit_vector)
        requires b_1 == type_v & (1u32 << 0usize);

    if b_1 > 0 && b_2 {
        return if key1.addr > key2.addr { 1 } else { -1 };
    }

    let b_3 = type_v & (1u32 << SIZE_BIT);
    let b_4 = key1.size != key2.size;
    assert(b_3 == type_v & 2) by (bit_vector)
        requires b_3 == type_v & (1u32 << 1usize);

    if b_3 > 0 && b_4 {
        return if key1.size > key2.size { 1 } else { -1 };
    }

    0
}

/// The rightmost node of the subtree rooted at `node`.
pub open spec fn rightmost(node: rbtree_node_t) -> rbtree_node_t
    decreases node,
{
    match node.right {
        Some(r) => rightmost(*r),
        None => node,
    }
}

/// The leftmost node of the subtree rooted at `node`.
pub open spec fn leftmost(node: rbtree_node_t) -> rbtree_node_t
    decreases node,
{
    match node.left {
        Some(l) => leftmost(*l),
        None => node,
    }
}

/// The node with the largest key of the subtree rooted at `node`: its rightmost node.
pub fn rbtree_max(node: &rbtree_node_t) -> (r: &rbtree_node_t)
    requires
        node.wf(),
    ensures
        node.keys().contains(r.key),
        forall|k: rbtree_key_t| #[trigger] node.keys().contains(k) ==> key_le(k, r.key),
        r.right is None,
        *r == rightmost(*node),
{
    let mut cur: &rbtree_node_t = node;
    loop
        invariant
            rightmost(*cur) == rightmost(*node),
            cur.wf(),
            node.keys().contains(cur.key),
            forall|k: rbtree_key_t| #[trigger] cur.keys().contains(k) ==> node.keys().contains(k),
            forall|k: rbtree_key_t| #[trigger] node.keys().contains(k)
                ==> (cur.keys().contains(k) || key_le(k, cur.key)),
        decreases cur,
    {
        match &cur.right {
            Some(r) => {
                proof {
                    let next: rbtree_node_t = **r;
                    assert(opt_keys(cur.right) == next.keys());
                    assert(next.keys().contains(next.key));
                    assert(cur.keys().contains(next.key));
                    assert(key_le(cur.key, next.key));
                    assert forall|k: rbtree_key_t| #[trigger] next.keys().contains(k)
                        implies node.keys().contains(k) by {
                        assert(opt_keys(cur.right).contains(k));
                        assert(cur.keys().contains(k));
                    }
                    assert forall|k: rbtree_key_t| #[trigger] node.keys().contains(k)
                        implies (next.keys().contains(k) || key_le(k, next.key)) by {
                        if cur.keys().contains(k) {
                            if opt_keys(cur.left).contains(k) {
                                assert(key_le(k, cur.key));
                            }
                        }
                    }
                }
                cur = r;
            },
            None => {
                proof {
                    assert(opt_keys(cur.right) == Set::<rbtree_key_t>::empty());
                    assert forall|k: rbtree_key_t| #[trigger] node.keys().contains(k)
                        implies key_le(k, cur.key) by {
                        if cur.keys().contains(k) {
                            if opt_keys(cur.left).contains(k) {
                                assert(key_le(k, cur.key));
                            }
                        }
                    }
                }
                return cur;
            },
        }
    }
}

/// The node with the smallest key of the subtree rooted at `node`: its leftmost node.
pub fn rbtree_min(node: &rbtree_node_t) -> (r: &rbtree_node_t)
    requires
        node.wf(),
    ensures
        node.keys().contains(r.key),
        forall|k: rbtree_key_t| #[trigger] node.keys().contains(k) ==> key_le(r.key, k),
        r.left is None,
        *r == leftmost(*node),
{
    let mut cur: &rbtree_node_t = node;
    loop
        invariant
            leftmost(*cur) == leftmost(*node),
            cur.wf(),
            node.keys().contains(cur.key),
            forall|k: rbtree_key_t| #[trigger] cur.keys().contains(k) ==> node.keys().contains(k),
            forall|k: rbtree_key_t| #[trigger] node.keys().contains(k)
                ==> (cur.keys().contains(k) || key_le(cur.key, k)),
        decreases cur,
    {
        match &cur.left {
            Some(l) => {
                proof {
                    let next: rbtree_node_t = **l;
                    assert(opt_keys(cur.left) == next.keys());
                    assert(next.keys().contains(next.key));
                    assert(cur.keys().contains(next.key));
                    assert(key_le(next.key, cur.key));
                    assert forall|k: rbtree_key_t| #[trigger] next.keys().contains(k)
                        implies node.keys().contains(k) by {
                        assert(opt_keys(cur.left).contains(k));
                        assert(cur.keys().contains(k));
                    }
                    assert forall|k: rbtree_key_t| #[trigger] node.keys().contains(k)
                        implies (next.keys().contains(k) || key_le(next.key, k)) by {
                        if cur.keys().contains(k) {
                            if opt_keys(cur.right).contains(k) {
                                assert(key_le(cur.key, k));
                            }
                        }
                    }
                }
                cur = l;
            },
            None => {
                proof {
                    assert(opt_keys(cur.left) == Set::<rbtree_key_t>::empty());
                    assert forall|k: rbtree_key_t| #[trigger] node.keys().contains(k)
                        implies key_le(cur.key, k) by {
                        if cur.keys().contains(k) {
                            if opt_keys(cur.right).contains(k) {
                                assert(key_le(cur.key, k));
                            }
                        }
                    }
                }
                return cur;
            },
        }
    }
}

/// The node with the smallest key (`lr == LEFT`), the node with the largest key
/// (`lr == RIGHT`), or the root (any other `lr`); `None` for an empty tree.
pub fn rbtree_min_max(tree: &rbtree_t, lr: i32) -> (r: Option<&rbtree_node_t>)
    requires
        tree.wf(),
    ensures
        tree.root is None ==> r is None,
        tree.root is Some ==> r is Some,
        r matches Some(n) ==> tree.keys().contains(n.key),
        lr == LEFT as i32 ==> (r matches Some(n) ==> *n == leftmost(*tree.root->0) && forall|k: rbtree_key_t|
            #[trigger] tree.keys().contains(k) ==> key_le(n.key, k)),
        lr == RIGHT as i32 ==> (r matches Some(n) ==> *n == rightmost(*tree.root->0) && forall|k: rbtree_key_t|
            #[trigger] tree.keys().contains(k) ==> key_le(k, n.key)),
        lr != LEFT as i32 && lr != RIGHT as i32 ==> (r matches Some(n) ==> *n == *tree.root->0),
{
    match &tree.root {
        None => None,
        Some(root) => {
            proof {
                assert(tree.keys() == root.keys());
                assert(root.keys().contains(root.key));
            }
            if lr == LEFT as i32 {
                Some(rbtree_min(root))
            } else if lr == RIGHT as i32 {
                Some(rbtree_max(root))
            } else {
                Some(&**root)
            }
        },
    }
}

/// Whether comparing under `type_v` never increases along the tree order, which is
/// the case for every lookup type that compares addresses, and for the type that
/// compares nothing.
pub open spec fn lookup_is_monotone(type_v: u32) -> bool {
    compares_addr(type_v) || !compares_size(type_v)
}

/// Under a monotone lookup type, `key1` compares no higher against a larger key.
pub proof fn lemma_compare_antitone(type_v: u32, a: rbtree_key_t, b: rbtree_key_t, c: rbtree_key_t)
    requires
        lookup_is_monotone(type_v),
        key_le(b, c),
    ensures
        key_compare_spec(type_v, a, c) <= key_compare_spec(type_v, a, b),
{
}

/// The node at which the search for `key` from `node` ends: the first node on the
/// search path (left below, right above) whose key compares equal; otherwise, with
/// `lr == LEFT`, the last node passed on the way right, with `lr == RIGHT`, the last
/// node passed on the way left, or `best` if there is none.
pub open spec fn search_path(node: Option<Box<rbtree_node_t>>, key: rbtree_key_t, type_v: u32, lr: i32,
    best: Option<rbtree_node_t>) -> Option<rbtree_node_t>
    decreases node,
{
    match node {
        None => best,
        Some(n) => {
            let rc = key_compare_spec(type_v, key, n.key);
            if rc < 0 {
                search_path(n.left, key, type_v, lr, if lr == RIGHT as i32 { Some(*n) } else { best })
            } else if rc > 0 {
                search_path(n.right, key, type_v, lr, if lr == LEFT as i32 { Some(*n) } else { best })
            } else {
                Some(*n)
            }
        },
    }
}

pub open spec fn deref_node(r: Option<&rbtree_node_t>) -> Option<rbtree_node_t> {
    match r {
        Some(n) => Some(*n),
        None => None,
    }
}

/// Whether some key of `keys` compares equal to `key` under `type_v`.
pub open spec fn has_match(keys: Set<rbtree_key_t>, key: rbtree_key_t, type_v: u32) -> bool {
    exists|k: rbtree_key_t| #[trigger] keys.contains(k) && key_compare_spec(type_v, key, k) == 0
}

/// Looks `key` up in `rbtree` under the lookup type `type_v`. A node whose key
/// compares equal is returned if there is one; otherwise, with `lr == LEFT`, the
/// node with the largest key below `key`, and with `lr == RIGHT`, the node with the
/// smallest key above `key`; otherwise `None`.
pub fn rbtree_lookup_nearest<'a>(rbtree: &'a rbtree_t, key: &rbtree_key_t, type_v: u32, lr: i32)
    -> (r: Option<&'a rbtree_node_t>)
    requires
        rbtree.wf(),
    ensures
        deref_node(r) == search_path(rbtree.root, *key, type_v, lr, None),
        r matches Some(n) ==> rbtree.keys().contains(n.key) && (
            key_compare_spec(type_v, *key, n.key) == 0
            || (lr == LEFT as i32 && key_compare_spec(type_v, *key, n.key) > 0)
            || (lr == RIGHT as i32 && key_compare_spec(type_v, *key, n.key) < 0)),
        lookup_is_monotone(type_v) && has_match(rbtree.keys(), *key, type_v) ==>
            (r matches Some(n) && key_compare_spec(type_v, *key, n.key) == 0),
        lookup_is_monotone(type_v) && !has_match(rbtree.keys(), *key, type_v) && lr == LEFT as i32 ==>
            match r {
                Some(n) => forall|k: rbtree_key_t| #[trigger] rbtree.keys().contains(k)
                    && key_compare_spec(type_v, *key, k) > 0 ==> key_le(k, n.key),
                None => forall|k: rbtree_key_t| #[trigger] rbtree.keys().contains(k)
                    ==> key_compare_spec(type_v, *key, k) < 0,
            },
        lookup_is_monotone(type_v) && !has_match(rbtree.keys(), *key, type_v) && lr == RIGHT as i32 ==>
            match r {
                Some(n) => forall|k: rbtree_key_t| #[trigger] rbtree.keys().contains(k)
                    && key_compare_spec(type_v, *key, k) < 0 ==> key_le(n.key, k),
                None => forall|k: rbtree_key_t| #[trigger] rbtree.keys().contains(k)
                    ==> key_compare_spec(type_v, *key, k) > 0,
            },
        !has_match(rbtree.keys(), *key, type_v) && lr != LEFT as i32 && lr != RIGHT as i32 ==> r is None,
{
    let ghost all = rbtree.keys();
    let ghost mono = lookup_is_monotone(type_v);
    let mut n: Option<&'a rbtree_node_t> = None;
    let mut cur: &'a Option<Box<rbtree_node_t>> = &rbtree.root;
    loop
        invariant
            search_path(*cur, *key, type_v, lr, deref_node(n)) == search_path(rbtree.root, *key, type_v, lr, None),
            all == rbtree.keys(),
            mono == lookup_is_monotone(type_v),
            opt_wf(*cur),
            forall|k: rbtree_key_t| #[trigger] opt_keys(*cur).contains(k) ==> all.contains(k),
            n matches Some(m) ==> all.contains(m.key) && (
                (lr == LEFT as i32 && key_compare_spec(type_v, *key, m.key) > 0)
                || (lr == RIGHT as i32 && key_compare_spec(type_v, *key, m.key) < 0)),
            mono && has_match(all, *key, type_v) ==> has_match(opt_keys(*cur), *key, type_v),
            mono && lr == LEFT as i32 ==> forall|k: rbtree_key_t| #[trigger] all.contains(k)
                && !opt_keys(*cur).contains(k) && key_compare_spec(type_v, *key, k) > 0
                ==> (n matches Some(m) && key_le(k, m.key)),
            mono && lr == LEFT as i32 ==> (n matches Some(m) ==> forall|k: rbtree_key_t|
                #[trigger] opt_keys(*cur).contains(k) ==> key_le(m.key, k)),
            mono && lr == RIGHT as i32 ==> forall|k: rbtree_key_t| #[trigger] all.contains(k)
                && !opt_keys(*cur).contains(k) && key_compare_spec(type_v, *key, k) < 0
                ==> (n matches Some(m) && key_le(m.key, k)),
            mono && lr == RIGHT as i32 ==> (n matches Some(m) ==> forall|k: rbtree_key_t|
                #[trigger] opt_keys(*cur).contains(k) ==> key_le(k, m.key)),
        decreases *cur,
    {
        match cur {
            None => {
                proof {
                    assert(opt_keys(*cur) == Set::<rbtree_key_t>::empty());
                }
                return n;
            },
            Some(node) => {
                let ghost here: rbtree_node_t = **node;
                proof {
                    assert(opt_keys(*cur) == here.keys());
                    assert(here.keys().contains(here.key));
                    assert(opt_wf(here.left) && opt_wf(here.right));
                    assert forall|k: rbtree_key_t| #[trigger] opt_keys(here.left).contains(k)
                        implies opt_keys(*cur).contains(k) by {}
                    assert forall|k: rbtree_key_t| #[trigger] opt_keys(here.right).contains(k)
                        implies opt_keys(*cur).contains(k) by {}
                }
                let rc = rbtree_key_compare(type_v, key, &node.key);
                let ghost n_old = n;
                if rc < 0 {
                    if lr == RIGHT as i32 {
                        n = Some(&**node);
                    }
                    proof {
                        // Nothing to the right of `here` compares equal or higher.
                        assert forall|k: rbtree_key_t| mono && #[trigger] opt_keys(*cur).contains(k)
                            && !opt_keys(here.left).contains(k)
                            implies key_compare_spec(type_v, *key, k) < 0 by {
                            if opt_keys(here.right).contains(k) {
                                lemma_compare_antitone(type_v, *key, here.key, k);
                            }
                        }
                        assert forall|k: rbtree_key_t| mono && lr == RIGHT as i32
                            && #[trigger] opt_keys(here.left).contains(k)
                            implies key_le(k, here.key) by {}
                        if mono && has_match(all, *key, type_v) {
                            let w = choose|k: rbtree_key_t| #[trigger] opt_keys(*cur).contains(k)
                                && key_compare_spec(type_v, *key, k) == 0;
                            assert(opt_keys(here.left).contains(w));
                        }
                        assert forall|k: rbtree_key_t| mono && lr == RIGHT as i32 && #[trigger] all.contains(k)
                            && !opt_keys(here.left).contains(k) && key_compare_spec(type_v, *key, k) < 0
                            implies (n matches Some(m) && key_le(m.key, k)) by {
                            if !opt_keys(*cur).contains(k) {
                                if let Some(m) = n_old {
                                    assert(key_le(here.key, m.key));
                                }
                            } else if !opt_keys(here.right).contains(k) {
                                assert(k == here.key);
                            }
                        }
                    }
                    cur = &node.left;
                    continue;
                }
                if rc > 0 {
                    if lr == LEFT as i32 {
                        n = Some(&**node);
                    }
                    proof {
                        assert forall|k: rbtree_key_t| mono && #[trigger] opt_keys(*cur).contains(k)
                            && !opt_keys(here.right).contains(k)
                            implies key_compare_spec(type_v, *key, k) > 0 by {
                            if opt_keys(here.left).contains(k) {
                                lemma_compare_antitone(type_v, *key, k, here.key);
                            }
                        }
                        assert forall|k: rbtree_key_t| mono && lr == LEFT as i32
                            && #[trigger] opt_keys(here.right).contains(k)
                            implies key_le(here.key, k) by {}
                        if mono && has_match(all, *key, type_v) {
                            let w = choose|k: rbtree_key_t| #[trigger] opt_keys(*cur).contains(k)
                                && key_compare_spec(type_v, *key, k) == 0;
                            assert(opt_keys(here.right).contains(w));
                        }
                        assert forall|k: rbtree_key_t| mono && lr == LEFT as i32 && #[trigger] all.contains(k)
                            && !opt_keys(here.right).contains(k) && key_compare_spec(type_v, *key, k) > 0
                            implies (n matches Some(m) && key_le(k, m.key)) by {
                            if !opt_keys(*cur).contains(k) {
                                if let Some(m) = n_old {
                                    assert(key_le(m.key, here.key));
                                }
                            } else if !opt_keys(here.left).contains(k) {
                                assert(k == here.key);
                            }
                        }
                    }
                    cur = &node.right;
                    continue;
                }
                return Some(&**node);
            },
        }
    }
}

/// A key compares equal to itself, under every lookup type.
pub proof fn lemma_compare_reflexive(type_v: u32, a: rbtree_key_t)
    ensures
        key_compare_spec(type_v, a, a) == 0,
{
}

/// Swapping the two keys negates the comparison, under every lookup type.
pub proof fn lemma_compare_antisymmetric(type_v: u32, a: rbtree_key_t, b: rbtree_key_t)
    ensures
        key_compare_spec(type_v, a, b) == -key_compare_spec(type_v, b, a),
{
}

/// Comparing is transitive, under every lookup type: "below" and "equal" both chain.
pub proof fn lemma_compare_transitive(type_v: u32, a: rbtree_key_t, b: rbtree_key_t, c: rbtree_key_t)
    ensures
        key_compare_spec(type_v, a, b) < 0 && key_compare_spec(type_v, b, c) < 0
            ==> key_compare_spec(type_v, a, c) < 0,
        key_compare_spec(type_v, a, b) == 0 && key_compare_spec(type_v, b, c) == 0
            ==> key_compare_spec(type_v, a, c) == 0,
{
}

/// Under `LKP_ALL` two keys compare equal exactly when they are the same key, and
/// `key1` compares below `key2` exactly when it comes strictly before it in tree order.
pub proof fn lemma_compare_all_is_tree_order(a: rbtree_key_t, b: rbtree_key_t)
    ensures
        key_compare_spec(3, a, b) == 0 <==> a == b,
        key_compare_spec(3, a, b) < 0 <==> (key_le(a, b) && a != b),
        key_compare_spec(3, a, b) > 0 <==> (key_le(b, a) && a != b),
{
    assert(compares_addr(3) && compares_size(3)) by (bit_vector);
}

/// A key put into a tree is found again by an `LKP_ALL` lookup, and what the
/// lookup finds is exactly that key: `LKP_ALL` is a monotone lookup type, the tree
/// holds a key comparing equal to it, and only the key itself compares equal.
pub proof fn lemma_lookup_all_finds_inserted(keys: Set<rbtree_key_t>, key: rbtree_key_t)
    ensures
        lookup_is_monotone(3),
        has_match(keys.insert(key), key, 3),
        forall|k: rbtree_key_t| key_compare_spec(3, key, k) == 0 ==> k == key,
{
    assert(compares_addr(3) && compares_size(3)) by (bit_vector);
    assert(keys.insert(key).contains(key));
    assert(key_compare_spec(3, key, key) == 0);
}

} // verus!
