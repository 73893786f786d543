use vstd::prelude::*;
use vstd::multiset::Multiset;
use crate::rbtree_amd::{rbtree_key_t, key_le, key_compare_spec, rbtree_key_compare, lemma_compare_all_is_tree_order};

verus! {

/// A node of an address-ordered search tree.
pub struct rbtree_node_t {
    pub key: rbtree_key_t,
    pub left: Option<Box<rbtree_node_t>>,
    pub right: Option<Box<rbtree_node_t>>,
}

/// An address-ordered search tree; `root == None` is the empty tree.
pub struct rbtree_t {
    pub root: Option<Box<rbtree_node_t>>,
}

/// The keys held by an optional subtree.
pub open spec fn opt_keys(node: Option<Box<rbtree_node_t>>) -> Set<rbtree_key_t>
    decreases node,
{
    match node {
        None => Set::empty(),
        Some(n) => n.keys(),
    }
}

/// The keys held by an optional subtree, each as many times as it occurs.
pub open spec fn opt_key_bag(node: Option<Box<rbtree_node_t>>) -> Multiset<rbtree_key_t>
    decreases node,
{
    match node {
        None => Multiset::empty(),
        Some(n) => n.key_bag(),
    }
}

/// Whether an optional subtree is ordered.
pub open spec fn opt_wf(node: Option<Box<rbtree_node_t>>) -> bool
    decreases node,
{
    match node {
        None => true,
        Some(n) => n.wf(),
    }
}

impl rbtree_node_t {
    /// The keys held by the subtree rooted here.
    pub open spec fn keys(self) -> Set<rbtree_key_t>
        decreases self,
    {
        opt_keys(self.left).union(opt_keys(self.right)).insert(self.key)
    }

    /// The keys held by the subtree rooted here, each as many times as it occurs.
    pub open spec fn key_bag(self) -> Multiset<rbtree_key_t>
        decreases self,
    {
        opt_key_bag(self.left).add(opt_key_bag(self.right)).insert(self.key)
    }

    /// Search-tree order: every key on the left is at most this node's key,
    /// every key on the right is at least it, recursively.
    pub open spec fn wf(self) -> bool
        decreases self,
    {
        &&& forall|k: rbtree_key_t| #[trigger] opt_keys(self.left).contains(k) ==> key_le(k, self.key)
        &&& forall|k: rbtree_key_t| #[trigger] opt_keys(self.right).contains(k) ==> key_le(self.key, k)
        &&& opt_wf(self.left)
        &&& opt_wf(self.right)
    }
}

impl rbtree_node_t {
    /// Whether this is a lone node with the zero key.
    pub open spec fn is_default(self) -> bool {
        self.key == (rbtree_key_t { addr: 0, size: 0 }) && self.left is None && self.right is None
    }
}

impl Default for rbtree_node_t {
    fn default() -> (r: Self)
        ensures
            r.is_default(),
    {
        rbtree_node_t { key: rbtree_key_t { addr: 0, size: 0 }, left: None, right: None }
    }
}

impl rbtree_t {
    /// The keys held by the tree.
    pub open spec fn keys(self) -> Set<rbtree_key_t> {
        opt_keys(self.root)
    }

    /// The keys held by the tree, each as many times as it occurs.
    pub open spec fn key_bag(self) -> Multiset<rbtree_key_t> {
        opt_key_bag(self.root)
    }

    pub open spec fn wf(self) -> bool {
        opt_wf(self.root)
    }

    /// The empty tree.
    pub fn init() -> (r: rbtree_t)
        ensures
            r.wf(),
            r.keys() == Set::<rbtree_key_t>::empty(),
            r.key_bag() == Multiset::<rbtree_key_t>::empty(),
    {
        rbtree_t { root: None }
    }
}

fn insert_into(node: &mut Option<Box<rbtree_node_t>>, key: rbtree_key_t)
    requires
        opt_wf(*old(node)),
    ensures
        opt_wf(*final(node)),
        opt_keys(*final(node)) == opt_keys(*old(node)).insert(key),
        opt_key_bag(*final(node)) == opt_key_bag(*old(node)).insert(key),
    decreases *old(node),
{
    let taken = node.take();
    match taken {
        None => {
            let leaf = rbtree_node_t { key, left: None, right: None };
            proof {
                assert(opt_keys(leaf.left) == Set::<rbtree_key_t>::empty());
                assert(opt_keys(leaf.right) == Set::<rbtree_key_t>::empty());
                assert(leaf.keys() == Set::<rbtree_key_t>::empty().insert(key));
                assert(opt_key_bag(leaf.left) == Multiset::<rbtree_key_t>::empty());
                assert(opt_key_bag(leaf.right) == Multiset::<rbtree_key_t>::empty());
                assert(leaf.key_bag() =~= Multiset::<rbtree_key_t>::empty().insert(key));
            }
            *node = Some(Box::new(leaf));
        },
        Some(b) => {
            let mut here: rbtree_node_t = *b;
            let ghost before = here;
            proof {
                lemma_compare_all_is_tree_order(key, here.key);
            }
            if rbtree_key_compare(3, &key, &here.key) < 0 {
                insert_into(&mut here.left, key);
                proof {
                    assert(opt_keys(here.right) == opt_keys(before.right));
                    assert(here.keys() =~= before.keys().insert(key));
                    assert(opt_key_bag(here.right) == opt_key_bag(before.right));
                    assert(here.key_bag() =~= before.key_bag().insert(key));
                }
            } else {
                insert_into(&mut here.right, key);
                proof {
                    assert(opt_keys(here.left) == opt_keys(before.left));
                    assert(here.keys() =~= before.keys().insert(key));
                    assert(opt_key_bag(here.left) == opt_key_bag(before.left));
                    assert(here.key_bag() =~= before.key_bag().insert(key));
                }
            }
            *node = Some(Box::new(here));
        },
    }
}

/// Adds a node with `key` to `rbtree`. A key equal to one already present goes to
/// the right of it, so the tree may hold the same key more than once.
pub fn rbtree_insert(rbtree: &mut rbtree_t, key: rbtree_key_t)
    requires
        old(rbtree).wf(),
    ensures
        final(rbtree).wf(),
        final(rbtree).keys() == old(rbtree).keys().insert(key),
        final(rbtree).key_bag() == old(rbtree).key_bag().insert(key),
{
    insert_into(&mut rbtree.root, key);
}

/// A key is among the keys of a subtree exactly when it occurs in it at least once.
pub proof fn lemma_keys_are_bag_domain(node: Option<Box<rbtree_node_t>>)
    ensures
        forall|k: rbtree_key_t| #[trigger] opt_keys(node).contains(k) <==> opt_key_bag(node).count(k) > 0,
    decreases node,
{
    if node is Some {
        let n = node->0;
        lemma_keys_are_bag_domain(n.left);
        lemma_keys_are_bag_domain(n.right);
        assert(opt_keys(node) == n.keys());
        assert(opt_key_bag(node) == n.key_bag());
        assert forall|k: rbtree_key_t| #[trigger] opt_keys(node).contains(k) <==> opt_key_bag(node).count(k) > 0 by {
            broadcast use vstd::multiset::group_multiset_axioms;
            assert(n.key_bag().count(k) == opt_key_bag(n.left).count(k) + opt_key_bag(n.right).count(k)
                + if k == n.key { 1int } else { 0int });
            assert(opt_keys(n.left).contains(k) <==> opt_key_bag(n.left).count(k) > 0);
            assert(opt_keys(n.right).contains(k) <==> opt_key_bag(n.right).count(k) > 0);
            assert(n.keys().contains(k) <==> (opt_keys(n.left).contains(k) || opt_keys(n.right).contains(k)
                || k == n.key));
        }
    } else {
        assert forall|k: rbtree_key_t| #[trigger] opt_keys(node).contains(k) <==> opt_key_bag(node).count(k) > 0 by {
            assert(opt_key_bag(node) == Multiset::<rbtree_key_t>::empty());
            assert(opt_keys(node) == Set::<rbtree_key_t>::empty());
        }
    }
}

} // verus!
