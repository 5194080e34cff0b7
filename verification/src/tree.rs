//! The dependency tree of an issue: what it depends on, level by level, down
//! to a depth.

use vstd::prelude::*;
use crate::graph::{Edge, edge_pairs, is_walk, steps_at, walk_extends};
use crate::text::text_eq;

verus! {

/// `to` can be reached from `from` in `n` steps or fewer.
pub open spec fn reaches_within(edges: Seq<(Seq<char>, Seq<char>)>, from: Seq<char>, to: Seq<char>, n: nat) -> bool {
    exists|walk: Seq<Seq<char>>| #[trigger] is_walk(edges, walk) && walk.first() == from && walk.last() == to && walk.len() <= n + 1
}

/// `to` is `d` steps from `from`, and no fewer.
pub open spec fn at_distance(edges: Seq<(Seq<char>, Seq<char>)>, from: Seq<char>, to: Seq<char>, d: nat) -> bool {
    reaches_within(edges, from, to, d) && (d == 0 || !reaches_within(edges, from, to, (d - 1) as nat))
}

/// A node of the tree: an issue, its distance from the root, and the issue
/// through which the search came to it.
#[derive(Debug, Clone)]
pub struct TreeNode {
    pub id: String,
    pub depth: usize,
    pub parent: Option<String>,
}

/// What can be reached in a number of steps can be reached in more.
pub proof fn within_more_steps(edges: Seq<(Seq<char>, Seq<char>)>, from: Seq<char>, to: Seq<char>, n: nat, m: nat)
    requires
        reaches_within(edges, from, to, n),
        n <= m,
    ensures
        reaches_within(edges, from, to, m),
{
    let walk = choose|walk: Seq<Seq<char>>| #[trigger] is_walk(edges, walk) && walk.first() == from && walk.last() == to && walk.len() <= n + 1;
    assert(is_walk(edges, walk) && walk.len() <= m + 1);
}

/// What can be reached at all has a distance.
pub proof fn distance_exists(edges: Seq<(Seq<char>, Seq<char>)>, from: Seq<char>, to: Seq<char>, n: nat) -> (d: nat)
    requires
        reaches_within(edges, from, to, n),
    ensures
        d <= n,
        at_distance(edges, from, to, d),
    decreases n,
{
    if n == 0 || !reaches_within(edges, from, to, (n - 1) as nat) {
        n
    } else {
        distance_exists(edges, from, to, (n - 1) as nat)
    }
}

/// A node has one distance from another.
pub proof fn distance_is_unique(edges: Seq<(Seq<char>, Seq<char>)>, from: Seq<char>, to: Seq<char>, a: nat, b: nat)
    requires
        at_distance(edges, from, to, a),
        at_distance(edges, from, to, b),
    ensures
        a == b,
{
    if a < b {
        within_more_steps(edges, from, to, a, (b - 1) as nat);
    }
    if b < a {
        within_more_steps(edges, from, to, b, (a - 1) as nat);
    }
}

/// One step more leads along an edge.
pub proof fn one_step_more(edges: Seq<(Seq<char>, Seq<char>)>, from: Seq<char>, k: int, n: nat)
    requires
        0 <= k < edges.len(),
        reaches_within(edges, from, edges[k].0, n),
    ensures
        reaches_within(edges, from, edges[k].1, n + 1),
{
    let walk = choose|walk: Seq<Seq<char>>| #[trigger] is_walk(edges, walk) && walk.first() == from && walk.last() == edges[k].0 && walk.len() <= n + 1;
    assert(edges.contains((walk.last(), edges[k].1)));
    walk_extends(edges, walk, edges[k].1);
    assert(is_walk(edges, walk.push(edges[k].1)));
}

/// A node at a distance of one or more has an edge from a node one step
/// nearer.
pub proof fn one_step_nearer(edges: Seq<(Seq<char>, Seq<char>)>, from: Seq<char>, to: Seq<char>, d: nat) -> (k: int)
    requires
        at_distance(edges, from, to, d + 1),
    ensures
        0 <= k < edges.len(),
        edges[k].1 == to,
        at_distance(edges, from, edges[k].0, d),
{
    let walk = choose|walk: Seq<Seq<char>>| #[trigger] is_walk(edges, walk) && walk.first() == from && walk.last() == to && walk.len() <= d + 2;
    if walk.len() <= d + 1 {
        assert(reaches_within(edges, from, to, d));
        assert(false);
    }
    assert(walk.len() == d + 2);
    assert(steps_at(edges, walk, walk.len() - 2));
    let k = choose|k: int| 0 <= k < edges.len() && edges[k] == (walk[walk.len() - 2], walk[walk.len() - 1]);
    let shorter = walk.drop_last();
    assert forall|i: int| 0 <= i < shorter.len() - 1 implies #[trigger] steps_at(edges, shorter, i) by {
        assert(steps_at(edges, walk, i));
    }
    assert(is_walk(edges, shorter) && shorter.first() == from && shorter.last() == edges[k].0 && shorter.len() <= d + 1);
    assert(reaches_within(edges, from, edges[k].0, d));
    if d > 0 && reaches_within(edges, from, edges[k].0, (d - 1) as nat) {
        one_step_more(edges, from, k, (d - 1) as nat);
        assert(false);
    }
    k
}

/// Where no node is at a distance, none is further away.
pub proof fn nothing_beyond(edges: Seq<(Seq<char>, Seq<char>)>, from: Seq<char>, d: nat, to: Seq<char>, e: nat)
    requires
        forall|x: Seq<char>| !#[trigger] at_distance(edges, from, x, d),
        e >= d,
    ensures
        !at_distance(edges, from, to, e),
    decreases e,
{
    if e > d && at_distance(edges, from, to, e) {
        let k = one_step_nearer(edges, from, to, (e - 1) as nat);
        nothing_beyond(edges, from, d, edges[k].0, (e - 1) as nat);
    }
}

/// The ids of the nodes of a tree.
pub open spec fn tree_ids(tree: Seq<TreeNode>) -> Seq<Seq<char>> {
    Seq::new(tree.len(), |i: int| tree[i].id@)
}

/// Whether the tree holds a node with the id `id`.
pub fn in_tree(tree: &Vec<TreeNode>, id: &str) -> (r: bool)
    ensures
        r == tree_ids(tree@).contains(id@),
{
    let mut i: usize = 0;
    while i < tree.len()
        invariant
            i <= tree.len(),
            forall|j: int| 0 <= j < i ==> tree_ids(tree@)[j] != id@,
        decreases tree.len() - i,
    {
        if text_eq(tree[i].id.as_str(), id) {
            assert(tree_ids(tree@)[i as int] == id@);
            return true;
        }
        i = i + 1;
    }
    false
}

/// Node `i` of the tree stands at its distance from the root, and came from
/// a node one level up along an edge.
pub open spec fn well_placed(edges: Seq<(Seq<char>, Seq<char>)>, root: Seq<char>, tree: Seq<TreeNode>, i: int) -> bool {
    &&& at_distance(edges, root, tree[i].id@, tree[i].depth as nat)
    &&& i == 0 ==> tree[i].parent is None
    &&& i > 0 ==> (tree[i].parent matches Some(p) && edges.contains((p@, tree[i].id@)) && exists|j: int|
        0 <= j < i && (#[trigger] tree[j]).id@ == p@ && tree[j].depth + 1 == tree[i].depth)
}

/// Every node within `depth` steps of the root is in the tree.
pub open spec fn complete_to(edges: Seq<(Seq<char>, Seq<char>)>, root: Seq<char>, tree: Seq<TreeNode>, depth: nat) -> bool {
    forall|x: Seq<char>, d: nat| d <= depth && #[trigger] at_distance(edges, root, x, d) ==> tree_ids(tree).contains(x)
}

/// The tree of what `root` depends on, level by level: the root, then the
/// issues it depends on, then those that they depend on, down to `max_depth`
/// levels below the root.  Each issue stands once, at its distance from the
/// root, after the issues that are nearer.
pub fn dependency_tree(edges: &Vec<Edge>, root: &str, max_depth: usize) -> (r: Vec<TreeNode>)
    ensures
        r@.len() >= 1,
        r@[0].id@ == root@,
        r@[0].depth == 0,
        tree_ids(r@).no_duplicates(),
        forall|i: int| 0 <= i < r@.len() ==> (#[trigger] r@[i]).depth <= max_depth,
        forall|i: int| 0 <= i < r@.len() ==> #[trigger] well_placed(edge_pairs(edges@), root@, r@, i),
        forall|i: int, j: int| 0 <= i <= j < r@.len() ==> (#[trigger] r@[i]).depth <= (#[trigger] r@[j]).depth,
        complete_to(edge_pairs(edges@), root@, r@, max_depth as nat),
{
    let ghost pairs = edge_pairs(edges@);
    let mut out: Vec<TreeNode> = Vec::new();
    out.push(TreeNode { id: root.to_owned(), depth: 0, parent: None });
    let mut level_start: usize = 0;
    let mut depth: usize = 0;
    let mut done: bool = false;
    proof {
        let walk = seq![root@];
        assert(is_walk(pairs, walk) && walk.first() == root@ && walk.last() == root@ && walk.len() <= 1);
        assert(reaches_within(pairs, root@, root@, 0));
        assert forall|x: Seq<char>, d: nat| d <= 0 && #[trigger] at_distance(pairs, root@, x, d) implies tree_ids(out@).contains(x) by {
            let w = choose|w: Seq<Seq<char>>| #[trigger] is_walk(pairs, w) && w.first() == root@ && w.last() == x && w.len() <= 1;
            assert(x == root@);
            assert(tree_ids(out@)[0] == root@);
        }
    }
    while depth < max_depth && !done
        invariant
            pairs == edge_pairs(edges@),
            depth <= max_depth,
            out@.len() >= 1,
            out@[0].id@ == root@,
            out@[0].depth == 0,
            level_start < out@.len(),
            tree_ids(out@).no_duplicates(),
            forall|i: int| 0 <= i < out@.len() ==> #[trigger] well_placed(pairs, root@, out@, i),
            forall|i: int| 0 <= i < out@.len() ==> (#[trigger] out@[i]).depth <= depth,
            forall|i: int| level_start <= i < out@.len() ==> (#[trigger] out@[i]).depth == depth,
            forall|i: int| 0 <= i < level_start ==> (#[trigger] out@[i]).depth < depth,
            forall|i: int, j: int| 0 <= i <= j < out@.len() ==> (#[trigger] out@[i]).depth <= (#[trigger] out@[j]).depth,
            complete_to(pairs, root@, out@, if done { max_depth as nat } else { depth as nat }),
        decreases max_depth - depth + (if done { 0int } else { 1int }),
    {
        let level_end: usize = out.len();
        let ghost level = out@;
        let mut u: usize = level_start;
        while u < level_end
            invariant
                pairs == edge_pairs(edges@),
                depth < max_depth,
                level_start <= u <= level_end,
                level_end == level.len(),
                level_end <= out@.len(),
                level_start < level_end,
                out@[0].id@ == root@,
                out@[0].depth == 0,
                forall|i: int| 0 <= i < level_end ==> out@[i] == level[i],
                tree_ids(out@).no_duplicates(),
                forall|i: int| 0 <= i < out@.len() ==> #[trigger] well_placed(pairs, root@, out@, i),
                forall|i: int| level_start <= i < level_end ==> (#[trigger] out@[i]).depth == depth,
                forall|i: int| 0 <= i < level_start ==> (#[trigger] out@[i]).depth < depth,
                forall|i: int| level_end <= i < out@.len() ==> (#[trigger] out@[i]).depth == depth + 1,
                complete_to(pairs, root@, out@, depth as nat),
                forall|i: int, k: int| level_start <= i < u && 0 <= k < pairs.len() && (#[trigger] pairs[k]).0 == (#[trigger] out@[i]).id@ ==> tree_ids(out@).contains(pairs[k].1),
            decreases level_end - u,
        {
            let mut k: usize = 0;
            while k < edges.len()
                invariant
                    pairs == edge_pairs(edges@),
                    depth < max_depth,
                    k <= edges.len(),
                    level_start <= u < level_end,
                    level_end == level.len(),
                    level_end <= out@.len(),
                    out@[0].id@ == root@,
                    out@[0].depth == 0,
                    forall|i: int| 0 <= i < level_end ==> out@[i] == level[i],
                    tree_ids(out@).no_duplicates(),
                    forall|i: int| 0 <= i < out@.len() ==> #[trigger] well_placed(pairs, root@, out@, i),
                    forall|i: int| level_start <= i < level_end ==> (#[trigger] out@[i]).depth == depth,
                    forall|i: int| 0 <= i < level_start ==> (#[trigger] out@[i]).depth < depth,
                    forall|i: int| level_end <= i < out@.len() ==> (#[trigger] out@[i]).depth == depth + 1,
                    complete_to(pairs, root@, out@, depth as nat),
                    forall|i: int, kk: int| level_start <= i < u && 0 <= kk < pairs.len() && (#[trigger] pairs[kk]).0 == (#[trigger] out@[i]).id@ ==> tree_ids(out@).contains(pairs[kk].1),
                    forall|kk: int| 0 <= kk < k && (#[trigger] pairs[kk]).0 == out@[u as int].id@ ==> tree_ids(out@).contains(pairs[kk].1),
                decreases edges.len() - k,
            {
                let ghost before = out@;
                assert(pairs[k as int] == (edges@[k as int].from@, edges@[k as int].to@));
                if text_eq(edges[k].from.as_str(), out[u].id.as_str()) && !in_tree(&out, edges[k].to.as_str()) {
                    let node = TreeNode {
                        id: edges[k].to.clone(),
                        depth: depth + 1,
                        parent: Some(out[u].id.clone()),
                    };
                    out.push(node);
                    proof {
                        let now = out@;
                        let new_id = pairs[k as int].1;
                        assert(tree_ids(now) =~= tree_ids(before).push(new_id));
                        assert(tree_ids(now).no_duplicates());
                        // the new node is one step further than the node it came from
                        assert(well_placed(pairs, root@, before, u as int));
                        one_step_more(pairs, root@, k as int, depth as nat);
                        if reaches_within(pairs, root@, new_id, depth as nat) {
                            let d = distance_exists(pairs, root@, new_id, depth as nat);
                            assert(tree_ids(before).contains(new_id));
                        }
                        assert(at_distance(pairs, root@, new_id, (depth + 1) as nat));
                        assert forall|i: int| 0 <= i < now.len() implies #[trigger] well_placed(pairs, root@, now, i) by {
                            if i < before.len() {
                                assert(well_placed(pairs, root@, before, i));
                                assert(now[i] == before[i]);
                                if i > 0 {
                                    let p = before[i].parent->Some_0;
                                    let j = choose|j: int| 0 <= j < i && (#[trigger] before[j]).id@ == p@ && before[j].depth + 1 == before[i].depth;
                                    assert(now[j] == before[j]);
                                }
                            } else {
                                assert(pairs.contains((now[u as int].id@, new_id)));
                                assert(now[u as int].id@ == now[i].parent->Some_0@ && now[u as int].depth + 1 == now[i].depth);
                            }
                        }
                        assert forall|x: Seq<char>| tree_ids(before).contains(x) implies tree_ids(now).contains(x) by {
                            let at = choose|at: int| 0 <= at < tree_ids(before).len() && tree_ids(before)[at] == x;
                            assert(tree_ids(now)[at] == x);
                        }
                        assert(tree_ids(now)[now.len() - 1] == new_id);
                    }
                }
                k = k + 1;
            }
            u = u + 1;
        }
        proof {
            assert forall|i: int, j: int| 0 <= i <= j < out@.len() implies (#[trigger] out@[i]).depth <= (#[trigger] out@[j]).depth by {
                if j < level_end {
                    assert(out@[i] == level[i] && out@[j] == level[j]);
                } else if i < level_end {
                    assert(out@[i] == level[i]);
                    assert(level[i].depth <= depth);
                }
            }
        }
        if out.len() == level_end {
            done = true;
            proof {
                // nothing is one step further, so nothing is further at all
                let next: nat = (depth + 1) as nat;
                assert forall|x: Seq<char>| !#[trigger] at_distance(pairs, root@, x, next) by {
                    if at_distance(pairs, root@, x, next) {
                        next_level_is_found(pairs, root@, out@, level_start as int, level_end as int, depth as nat, x);
                        let at = choose|at: int| 0 <= at < tree_ids(out@).len() && tree_ids(out@)[at] == x;
                        assert(well_placed(pairs, root@, out@, at));
                        distance_is_unique(pairs, root@, x, next, out@[at].depth as nat);
                    }
                }
                assert forall|x: Seq<char>, d: nat| d <= max_depth && #[trigger] at_distance(pairs, root@, x, d) implies tree_ids(out@).contains(x) by {
                    if d > depth {
                        nothing_beyond(pairs, root@, next, x, d);
                    }
                }
            }
        } else {
            proof {
                assert forall|x: Seq<char>, d: nat| d <= depth + 1 && #[trigger] at_distance(pairs, root@, x, d) implies tree_ids(out@).contains(x) by {
                    if d == depth + 1 {
                        next_level_is_found(pairs, root@, out@, level_start as int, level_end as int, depth as nat, x);
                    }
                }
            }
            level_start = level_end;
            depth = depth + 1;
        }
    }
    out
}

/// Once every edge that leaves a node of one level has its head in the
/// tree, every node of the next level is in the tree.
proof fn next_level_is_found(
    edges: Seq<(Seq<char>, Seq<char>)>,
    root: Seq<char>,
    tree: Seq<TreeNode>,
    level_start: int,
    level_end: int,
    depth: nat,
    x: Seq<char>,
)
    requires
        0 <= level_start <= level_end <= tree.len(),
        forall|i: int| 0 <= i < tree.len() ==> #[trigger] well_placed(edges, root, tree, i),
        forall|i: int| 0 <= i < level_start ==> (#[trigger] tree[i]).depth < depth,
        forall|i: int| level_end <= i < tree.len() ==> (#[trigger] tree[i]).depth == depth + 1,
        complete_to(edges, root, tree, depth),
        forall|i: int, k: int| level_start <= i < level_end && 0 <= k < edges.len() && (#[trigger] edges[k]).0 == (#[trigger] tree[i]).id@ ==> tree_ids(tree).contains(edges[k].1),
        at_distance(edges, root, x, depth + 1),
    ensures
        tree_ids(tree).contains(x),
{
    let k = one_step_nearer(edges, root, x, depth);
    let u = edges[k].0;
    assert(tree_ids(tree).contains(u));
    let i = choose|i: int| 0 <= i < tree_ids(tree).len() && tree_ids(tree)[i] == u;
    assert(well_placed(edges, root, tree, i));
    distance_is_unique(edges, root, u, depth, tree[i].depth as nat);
    assert(level_start <= i < level_end);
    assert(edges[k].0 == tree[i].id@);
}

/// Whether edge `k` is drawn under node `i` of the tree: it leaves that node,
/// and the node is above the deepest level.
pub open spec fn drawn(edges: Seq<(Seq<char>, Seq<char>)>, tree: Seq<TreeNode>, max_depth: nat, i: int, k: int) -> bool {
    edges[k].0 == tree[i].id@ && tree[i].depth < max_depth
}

/// The edges of the tree: for each node above the deepest level, in the
/// order of the tree, the edges that leave it, in the order of the edges.
pub open spec fn edges_under(edges: Seq<(Seq<char>, Seq<char>)>, tree: Seq<TreeNode>, max_depth: nat, n: nat) -> Seq<(Seq<char>, Seq<char>)>
    decreases n,
{
    if n == 0 {
        Seq::empty()
    } else {
        edges_under(edges, tree, max_depth, (n - 1) as nat) + edges.filter(
            |e: (Seq<char>, Seq<char>)| e.0 == tree[n - 1].id@ && tree[n - 1].depth < max_depth,
        )
    }
}

/// Lists the edges of the tree.
pub fn tree_edges(edges: &Vec<Edge>, tree: &Vec<TreeNode>, max_depth: usize) -> (r: Vec<Edge>)
    ensures
        edge_pairs(r@) == edges_under(edge_pairs(edges@), tree@, max_depth as nat, tree@.len()),
{
    let ghost pairs = edge_pairs(edges@);
    let mut out: Vec<Edge> = Vec::new();
    let mut i: usize = 0;
    assert(edge_pairs(out@) =~= edges_under(pairs, tree@, max_depth as nat, 0));
    while i < tree.len()
        invariant
            i <= tree.len(),
            pairs == edge_pairs(edges@),
            edge_pairs(out@) == edges_under(pairs, tree@, max_depth as nat, i as nat),
        decreases tree.len() - i,
    {
        let ghost done = edge_pairs(out@);
        let ghost leaves = |e: (Seq<char>, Seq<char>)| e.0 == tree@[i as int].id@ && tree@[i as int].depth < max_depth;
        let mut k: usize = 0;
        proof {
            reveal(Seq::filter);
            assert(pairs.take(0).filter(leaves) =~= Seq::empty());
            assert(edge_pairs(out@) =~= done + pairs.take(0).filter(leaves));
        }
        while k < edges.len()
            invariant
                k <= edges.len(),
                i < tree.len(),
                pairs == edge_pairs(edges@),
                leaves == (|e: (Seq<char>, Seq<char>)| e.0 == tree@[i as int].id@ && tree@[i as int].depth < max_depth),
                edge_pairs(out@) == done + pairs.take(k as int).filter(leaves),
            decreases edges.len() - k,
        {
            let ghost before = edge_pairs(out@);
            assert(pairs[k as int] == (edges@[k as int].from@, edges@[k as int].to@));
            proof {
                assert(pairs.take(k + 1) =~= pairs.take(k as int).push(pairs[k as int]));
                pairs.take(k as int).lemma_filter_push(pairs[k as int], leaves);
            }
            if tree[i].depth < max_depth && text_eq(edges[k].from.as_str(), tree[i].id.as_str()) {
                out.push(Edge { from: edges[k].from.clone(), to: edges[k].to.clone() });
                proof {
                    assert(leaves(pairs[k as int]));
                    assert(edge_pairs(out@) =~= before.push(pairs[k as int]));
                }
            } else {
                proof {
                    assert(!leaves(pairs[k as int]));
                }
            }
            k = k + 1;
        }
        proof {
            assert(pairs.take(k as int) =~= pairs);
        }
        i = i + 1;
    }
    out
}

} // verus!
