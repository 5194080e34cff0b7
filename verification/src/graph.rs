//! The dependency graph: reachability, and the rule that keeps it free of
//! cycles.
//!
//! A graph is a list of directed edges between issue ids.  An edge from `a` to
//! `b` says that `a` depends on `b`.

use vstd::prelude::*;
use crate::error::BeadsError;
use crate::model::{DependencyType, texts};
use crate::text::text_eq;

verus! {

/// An edge of the graph: `from` depends on `to`.
#[derive(Debug, Clone)]
pub struct Edge {
    pub from: String,
    pub to: String,
}

/// The ends of each edge, as texts.
pub open spec fn edge_pairs(edges: Seq<Edge>) -> Seq<(Seq<char>, Seq<char>)> {
    Seq::new(edges.len(), |i: int| (edges[i].from@, edges[i].to@))
}

/// Whether the graph has an edge from node `i` of `walk` to the next.
pub open spec fn steps_at(edges: Seq<(Seq<char>, Seq<char>)>, walk: Seq<Seq<char>>, i: int) -> bool {
    edges.contains((walk[i], walk[i + 1]))
}

/// A walk is a list of at least one node in which each node has an edge to
/// the next.
pub open spec fn is_walk(edges: Seq<(Seq<char>, Seq<char>)>, walk: Seq<Seq<char>>) -> bool {
    &&& walk.len() >= 1
    &&& forall|i: int| 0 <= i < walk.len() - 1 ==> #[trigger] steps_at(edges, walk, i)
}

/// `to` can be reached from `from` in zero or more steps.
pub open spec fn reaches(edges: Seq<(Seq<char>, Seq<char>)>, from: Seq<char>, to: Seq<char>) -> bool {
    exists|walk: Seq<Seq<char>>| #[trigger] is_walk(edges, walk) && walk.first() == from && walk.last() == to
}

/// There is a path of at least one edge from `from` to `to`.
pub open spec fn has_path(edges: Seq<(Seq<char>, Seq<char>)>, from: Seq<char>, to: Seq<char>) -> bool {
    exists|walk: Seq<Seq<char>>| #[trigger] is_walk(edges, walk) && walk.len() >= 2 && walk.first() == from && walk.last() == to
}

/// No node has a path to itself.
pub open spec fn acyclic(edges: Seq<(Seq<char>, Seq<char>)>) -> bool {
    forall|a: Seq<char>| !has_path(edges, a, a)
}

/// Whether an edge from `from` to `to` would close a cycle: it would where the
/// two are the same node, and where `from` can already be reached from `to`.
pub open spec fn closes_cycle(edges: Seq<(Seq<char>, Seq<char>)>, from: Seq<char>, to: Seq<char>) -> bool {
    from == to || reaches(edges, to, from)
}

/// A walk can be extended along an edge that leaves its last node.
pub proof fn walk_extends(edges: Seq<(Seq<char>, Seq<char>)>, walk: Seq<Seq<char>>, next: Seq<char>)
    requires
        is_walk(edges, walk),
        edges.contains((walk.last(), next)),
    ensures
        is_walk(edges, walk.push(next)),
        walk.push(next).first() == walk.first(),
        walk.push(next).last() == next,
{
    let longer = walk.push(next);
    assert forall|i: int| 0 <= i < longer.len() - 1 implies #[trigger] steps_at(edges, longer, i) by {
        if i < walk.len() - 1 {
            assert(steps_at(edges, walk, i));
        }
    }
}

/// Two walks that meet can be joined.
pub proof fn walks_join(
    edges: Seq<(Seq<char>, Seq<char>)>,
    first: Seq<Seq<char>>,
    second: Seq<Seq<char>>,
)
    requires
        is_walk(edges, first),
        is_walk(edges, second),
        first.last() == second.first(),
    ensures
        is_walk(edges, first + second.drop_first()),
        (first + second.drop_first()).first() == first.first(),
        (first + second.drop_first()).last() == second.last(),
        (first + second.drop_first()).len() == first.len() + second.len() - 1,
{
    let joined = first + second.drop_first();
    assert forall|i: int| 0 <= i < joined.len() - 1 implies #[trigger] steps_at(edges, joined, i) by {
        if i < first.len() - 1 {
            assert(steps_at(edges, first, i));
        } else {
            let k = i - (first.len() - 1);
            assert(steps_at(edges, second, k));
            assert(joined[i] == second[k]);
            assert(joined[i + 1] == second[k + 1]);
        }
    }
}

/// Reachability is transitive.
pub proof fn reaches_is_transitive(
    edges: Seq<(Seq<char>, Seq<char>)>,
    a: Seq<char>,
    b: Seq<char>,
    c: Seq<char>,
)
    requires
        reaches(edges, a, b),
        reaches(edges, b, c),
    ensures
        reaches(edges, a, c),
{
    let first = choose|walk: Seq<Seq<char>>| #[trigger] is_walk(edges, walk) && walk.first() == a && walk.last() == b;
    let second = choose|walk: Seq<Seq<char>>| #[trigger] is_walk(edges, walk) && walk.first() == b && walk.last() == c;
    walks_join(edges, first, second);
    assert(is_walk(edges, first + second.drop_first()));
}

/// Every node reaches itself.
pub proof fn reaches_itself(edges: Seq<(Seq<char>, Seq<char>)>, a: Seq<char>)
    ensures
        reaches(edges, a, a),
{
    let walk = seq![a];
    assert(is_walk(edges, walk));
    assert(walk.first() == a && walk.last() == a);
}

/// A set of nodes that holds `from` and, with each node, the nodes that it has
/// an edge to, holds every node that `from` reaches.
pub proof fn closed_set_holds_reachable(
    edges: Seq<(Seq<char>, Seq<char>)>,
    nodes: Set<Seq<char>>,
    walk: Seq<Seq<char>>,
)
    requires
        is_walk(edges, walk),
        nodes.contains(walk.first()),
        forall|i: int| 0 <= i < edges.len() && nodes.contains((#[trigger] edges[i]).0) ==> nodes.contains(edges[i].1),
    ensures
        nodes.contains(walk.last()),
    decreases walk.len(),
{
    if walk.len() >= 2 {
        let shorter = walk.drop_last();
        assert forall|i: int| 0 <= i < shorter.len() - 1 implies #[trigger] steps_at(edges, shorter, i) by {
            assert(steps_at(edges, walk, i));
        }
        closed_set_holds_reachable(edges, nodes, shorter);
        let last_step = (walk[walk.len() - 2], walk[walk.len() - 1]);
        assert(steps_at(edges, walk, walk.len() - 2));
        assert(edges.contains(last_step));
        let k = choose|k: int| 0 <= k < edges.len() && edges[k] == last_step;
        assert(nodes.contains(edges[k].0));
    }
}

/// A walk in a graph with one more edge either is a walk without that edge,
/// or passes through it: then its start reaches the tail of the new edge and
/// the head of the new edge reaches its end, both without the new edge.
pub proof fn walk_with_new_edge(
    edges: Seq<(Seq<char>, Seq<char>)>,
    from: Seq<char>,
    to: Seq<char>,
    walk: Seq<Seq<char>>,
)
    requires
        is_walk(edges.push((from, to)), walk),
    ensures
        is_walk(edges, walk) || (reaches(edges, walk.first(), from) && reaches(edges, to, walk.last())),
    decreases walk.len(),
{
    let more = edges.push((from, to));
    if walk.len() == 1 {
        assert(is_walk(edges, walk));
    } else {
        let shorter = walk.drop_last();
        assert forall|i: int| 0 <= i < shorter.len() - 1 implies #[trigger] steps_at(more, shorter, i) by {
            assert(steps_at(more, walk, i));
        }
        walk_with_new_edge(edges, from, to, shorter);
        let last_step = (walk[walk.len() - 2], walk[walk.len() - 1]);
        assert(steps_at(more, walk, walk.len() - 2));
        assert(more.contains(last_step));
        let k = choose|k: int| 0 <= k < more.len() && more[k] == last_step;
        if k < edges.len() {
            assert(edges[k] == last_step);
            assert(edges.contains(last_step));
            if is_walk(edges, shorter) {
                walk_extends(edges, shorter, walk.last());
                assert(shorter.push(walk.last()) =~= walk);
            } else {
                let tail = choose|w: Seq<Seq<char>>| #[trigger] is_walk(edges, w) && w.first() == to && w.last() == shorter.last();
                walk_extends(edges, tail, walk.last());
                assert(is_walk(edges, tail.push(walk.last())));
            }
        } else {
            assert(last_step == (from, to));
            reaches_itself(edges, to);
            if is_walk(edges, shorter) {
                assert(shorter.first() == walk.first() && shorter.last() == from);
            }
        }
    }
}

/// A graph without cycles stays without cycles when it gets an edge that
/// closes none.
pub proof fn edge_keeps_graph_acyclic(edges: Seq<(Seq<char>, Seq<char>)>, from: Seq<char>, to: Seq<char>)
    requires
        acyclic(edges),
        !closes_cycle(edges, from, to),
    ensures
        acyclic(edges.push((from, to))),
{
    let more = edges.push((from, to));
    assert forall|a: Seq<char>| !has_path(more, a, a) by {
        if has_path(more, a, a) {
            let walk = choose|walk: Seq<Seq<char>>| #[trigger] is_walk(more, walk) && walk.len() >= 2 && walk.first() == a && walk.last() == a;
            walk_with_new_edge(edges, from, to, walk);
            if is_walk(edges, walk) {
                assert(has_path(edges, a, a));
            } else {
                reaches_is_transitive(edges, to, a, from);
            }
        }
    }
}

/// In a graph without cycles no two nodes have paths to each other.
pub proof fn no_path_back(edges: Seq<(Seq<char>, Seq<char>)>, a: Seq<char>, b: Seq<char>)
    requires
        acyclic(edges),
        has_path(edges, a, b),
    ensures
        !has_path(edges, b, a),
{
    if has_path(edges, b, a) {
        let there = choose|walk: Seq<Seq<char>>| #[trigger] is_walk(edges, walk) && walk.len() >= 2 && walk.first() == a && walk.last() == b;
        let back = choose|walk: Seq<Seq<char>>| #[trigger] is_walk(edges, walk) && walk.len() >= 2 && walk.first() == b && walk.last() == a;
        walks_join(edges, there, back);
        assert(is_walk(edges, there + back.drop_first()));
        assert(has_path(edges, a, a));
    }
}

/// Whether `list` holds `item`.
pub fn contains_text(list: &Vec<String>, item: &str) -> (r: bool)
    ensures
        r == texts(list@).contains(item@),
{
    let mut i: usize = 0;
    while i < list.len()
        invariant
            i <= list.len(),
            forall|j: int| 0 <= j < i ==> texts(list@)[j] != item@,
        decreases list.len() - i,
    {
        if text_eq(list[i].as_str(), item) {
            assert(texts(list@)[i as int] == item@);
            return true;
        }
        i = i + 1;
    }
    false
}

/// Both ends of edge `k` are among `nodes`.
pub open spec fn settled(nodes: Seq<Seq<char>>, edges: Seq<(Seq<char>, Seq<char>)>, k: int) -> bool {
    nodes.contains(edges[k].0) && nodes.contains(edges[k].1)
}

/// Every node of `nodes` can be reached from `from`.
pub open spec fn all_reached(edges: Seq<(Seq<char>, Seq<char>)>, from: Seq<char>, nodes: Seq<Seq<char>>) -> bool {
    forall|i: int| 0 <= i < nodes.len() ==> reaches(edges, from, #[trigger] nodes[i])
}

proof fn reached_after_push(
    edges: Seq<(Seq<char>, Seq<char>)>,
    from: Seq<char>,
    nodes: Seq<Seq<char>>,
    k: int,
)
    requires
        all_reached(edges, from, nodes),
        0 <= k < edges.len(),
        nodes.contains(edges[k].0),
    ensures
        all_reached(edges, from, nodes.push(edges[k].1)),
        reaches(edges, from, edges[k].1),
{
    let i = choose|i: int| 0 <= i < nodes.len() && nodes[i] == edges[k].0;
    assert(reaches(edges, from, nodes[i]));
    let walk = choose|walk: Seq<Seq<char>>| #[trigger] is_walk(edges, walk) && walk.first() == from && walk.last() == edges[k].0;
    assert(edges.contains((walk.last(), edges[k].1)));
    walk_extends(edges, walk, edges[k].1);
    assert(is_walk(edges, walk.push(edges[k].1)));
    let more = nodes.push(edges[k].1);
    assert forall|j: int| 0 <= j < more.len() implies reaches(edges, from, #[trigger] more[j]) by {
        if j < nodes.len() {
            assert(more[j] == nodes[j]);
        }
    }
}

proof fn closed_nodes_are_all(
    edges: Seq<(Seq<char>, Seq<char>)>,
    from: Seq<char>,
    to: Seq<char>,
    nodes: Seq<Seq<char>>,
)
    requires
        nodes.contains(from),
        all_reached(edges, from, nodes),
        forall|k: int| 0 <= k < edges.len() && nodes.contains((#[trigger] edges[k]).0) ==> nodes.contains(edges[k].1),
    ensures
        nodes.contains(to) == reaches(edges, from, to),
{
    if reaches(edges, from, to) {
        let walk = choose|walk: Seq<Seq<char>>| #[trigger] is_walk(edges, walk) && walk.first() == from && walk.last() == to;
        let set = Set::new(|n: Seq<char>| nodes.contains(n));
        closed_set_holds_reachable(edges, set, walk);
    }
    if nodes.contains(to) {
        let i = choose|i: int| 0 <= i < nodes.len() && nodes[i] == to;
        assert(reaches(edges, from, nodes[i]));
    }
}

/// Edge `k` is listed in `indices` at position `start` or later.
pub open spec fn listed_from(indices: Seq<usize>, start: int, k: int) -> bool {
    exists|i: int| start <= i < indices.len() && #[trigger] indices[i] as int == k
}

/// The nodes that can be reached from `from` along the edges, in zero or more
/// steps: `from` first, then each node as the search comes to it.
pub fn reachable_from(edges: &Vec<Edge>, from: &str) -> (r: Vec<String>)
    ensures
        forall|node: Seq<char>| texts(r@).contains(node) <==> reaches(edge_pairs(edges@), from@, node),
        r@.len() >= 1,
        r@[0]@ == from@,
        texts(r@).no_duplicates(),
{
    let ghost pairs = edge_pairs(edges@);
    let mut visited: Vec<String> = Vec::new();
    visited.push(from.to_owned());
    // The edges that have not yet carried the search from their tail to their head.
    let mut pending: Vec<usize> = Vec::new();
    let mut n: usize = 0;
    while n < edges.len()
        invariant
            n <= edges.len(),
            pending@.len() == n,
            forall|j: int| 0 <= j < n ==> pending@[j] == j,
        decreases edges.len() - n,
    {
        pending.push(n);
        n = n + 1;
    }
    proof {
        reaches_itself(pairs, from@);
        assert(texts(visited@)[0] == from@);
        assert forall|k: int| 0 <= k < pairs.len() implies listed_from(pending@, 0, k) || #[trigger] settled(texts(visited@), pairs, k) by {
            assert(pending@[k] as int == k);
        }
    }
    loop
        invariant
            pairs == edge_pairs(edges@),
            visited@.len() >= 1,
            visited@[0]@ == from@,
            texts(visited@).no_duplicates(),
            texts(visited@).contains(from@),
            all_reached(pairs, from@, texts(visited@)),
            forall|j: int| 0 <= j < pending@.len() ==> (#[trigger] pending@[j]) < edges@.len(),
            forall|k: int| 0 <= k < pairs.len() ==> listed_from(pending@, 0, k) || #[trigger] settled(texts(visited@), pairs, k),
        decreases pending@.len(),
    {
        let mut kept: Vec<usize> = Vec::new();
        let mut fired: bool = false;
        let mut j: usize = 0;
        while j < pending.len()
            invariant
                j <= pending@.len(),
                pairs == edge_pairs(edges@),
                visited@.len() >= 1,
                visited@[0]@ == from@,
                texts(visited@).no_duplicates(),
                texts(visited@).contains(from@),
                all_reached(pairs, from@, texts(visited@)),
                forall|i: int| 0 <= i < pending@.len() ==> (#[trigger] pending@[i]) < edges@.len(),
                forall|i: int| 0 <= i < kept@.len() ==> (#[trigger] kept@[i]) < edges@.len(),
                kept@.len() <= j,
                fired ==> kept@.len() < j,
                !fired ==> kept@ == pending@.take(j as int),
                !fired ==> forall|i: int| 0 <= i < j ==> !texts(visited@).contains(pairs[(#[trigger] pending@[i]) as int].0),
                forall|k: int| 0 <= k < pairs.len() ==> listed_from(pending@, j as int, k) || listed_from(kept@, 0, k) || #[trigger] settled(texts(visited@), pairs, k),
            decreases pending@.len() - j,
        {
            let k: usize = pending[j];
            let ghost before = texts(visited@);
            let ghost kept_before = kept@;
            assert(pairs[k as int] == (edges@[k as int].from@, edges@[k as int].to@));
            if contains_text(&visited, edges[k].from.as_str()) {
                if !contains_text(&visited, edges[k].to.as_str()) {
                    visited.push(edges[k].to.clone());
                    proof {
                        assert(texts(visited@) =~= before.push(pairs[k as int].1));
                        reached_after_push(pairs, from@, before, k as int);
                        assert forall|a: int, b: int| 0 <= a < before.len() + 1 && 0 <= b < before.len() + 1 && a != b implies before.push(pairs[k as int].1)[a] != before.push(pairs[k as int].1)[b] by {
                            if a == before.len() {
                                assert(before[b] != pairs[k as int].1);
                            } else if b == before.len() {
                                assert(before[a] != pairs[k as int].1);
                            }
                        }
                    }
                }
                fired = true;
                proof {
                    let after = texts(visited@);
                    assert forall|x: Seq<char>| before.contains(x) implies after.contains(x) by {
                        let i = choose|i: int| 0 <= i < before.len() && before[i] == x;
                        assert(after[i] == x);
                    }
                    assert(after.contains(pairs[k as int].1)) by {
                        if !before.contains(pairs[k as int].1) {
                            assert(after[after.len() - 1] == pairs[k as int].1);
                        }
                    }
                    assert forall|m: int| 0 <= m < pairs.len() implies listed_from(pending@, j + 1, m) || listed_from(kept@, 0, m) || #[trigger] settled(after, pairs, m) by {
                        if listed_from(pending@, j as int, m) {
                            let i = choose|i: int| j <= i < pending@.len() && #[trigger] pending@[i] as int == m;
                            if i == j {
                                assert(settled(after, pairs, m));
                            }
                        } else if listed_from(kept@, 0, m) {
                        } else {
                            assert(settled(before, pairs, m));
                        }
                    }
                }
            } else {
                kept.push(k);
                proof {
                    assert(!fired ==> kept@ =~= pending@.take(j + 1));
                    assert forall|m: int| 0 <= m < pairs.len() implies listed_from(pending@, j + 1, m) || listed_from(kept@, 0, m) || #[trigger] settled(before, pairs, m) by {
                        if listed_from(pending@, j as int, m) {
                            let i = choose|i: int| j <= i < pending@.len() && #[trigger] pending@[i] as int == m;
                            if i == j {
                                assert(kept@[kept@.len() - 1] as int == m);
                            }
                        } else if listed_from(kept_before, 0, m) {
                            let i = choose|i: int| 0 <= i < kept_before.len() && #[trigger] kept_before[i] as int == m;
                            assert(kept@[i] as int == m);
                        } else {
                        }
                    }
                }
            }
            j = j + 1;
        }
        if !fired {
            proof {
                let nodes = texts(visited@);
                assert(kept@ =~= pending@);
                assert forall|m: int| 0 <= m < pairs.len() && nodes.contains((#[trigger] pairs[m]).0) implies nodes.contains(pairs[m].1) by {
                    if listed_from(kept@, 0, m) {
                        let i = choose|i: int| 0 <= i < kept@.len() && #[trigger] kept@[i] as int == m;
                        assert(!nodes.contains(pairs[pending@[i] as int].0));
                    } else {
                        assert(settled(nodes, pairs, m));
                    }
                }
                assert forall|node: Seq<char>| nodes.contains(node) <==> reaches(pairs, from@, node) by {
                    closed_nodes_are_all(pairs, from@, node, nodes);
                }
            }
            return visited;
        }
        pending = kept;
    }
}

/// Whether `to` can be reached from `from` along the edges, in zero or more
/// steps.
pub fn reachable(edges: &Vec<Edge>, from: &str, to: &str) -> (r: bool)
    ensures
        r == reaches(edge_pairs(edges@), from@, to@),
{
    let reached: Vec<String> = reachable_from(edges, from);
    contains_text(&reached, to)
}

/// The edges turned round: each from its head to its tail.
pub open spec fn turned(edges: Seq<(Seq<char>, Seq<char>)>) -> Seq<(Seq<char>, Seq<char>)> {
    Seq::new(edges.len(), |i: int| (edges[i].1, edges[i].0))
}

/// Turns every edge round.
pub fn turn_edges(edges: &Vec<Edge>) -> (r: Vec<Edge>)
    ensures
        edge_pairs(r@) == turned(edge_pairs(edges@)),
{
    let mut out: Vec<Edge> = Vec::new();
    let mut i: usize = 0;
    while i < edges.len()
        invariant
            i <= edges.len(),
            out@.len() == i,
            forall|k: int| 0 <= k < i ==> (#[trigger] out@[k]).from@ == edges@[k].to@ && out@[k].to@ == edges@[k].from@,
        decreases edges.len() - i,
    {
        out.push(Edge { from: edges[i].to.clone(), to: edges[i].from.clone() });
        i = i + 1;
    }
    assert(edge_pairs(out@) =~= turned(edge_pairs(edges@)));
    out
}

/// A walk along the edges turned round is a walk along the edges, walked
/// backwards.
pub proof fn walk_turns_with_the_edges(edges: Seq<(Seq<char>, Seq<char>)>, walk: Seq<Seq<char>>)
    requires
        is_walk(turned(edges), walk),
    ensures
        is_walk(edges, walk.reverse()),
        walk.reverse().first() == walk.last(),
        walk.reverse().last() == walk.first(),
{
    let back = walk.reverse();
    assert forall|i: int| 0 <= i < back.len() - 1 implies #[trigger] steps_at(edges, back, i) by {
        let j = walk.len() - 2 - i;
        assert(steps_at(turned(edges), walk, j));
        let k = choose|k: int| 0 <= k < turned(edges).len() && turned(edges)[k] == (walk[j], walk[j + 1]);
        assert(edges[k] == (walk[j + 1], walk[j]));
        assert(back[i] == walk[j + 1]);
        assert(back[i + 1] == walk[j]);
    }
}

/// Turning the edges round twice gives the edges.
pub proof fn turned_twice(edges: Seq<(Seq<char>, Seq<char>)>)
    ensures
        turned(turned(edges)) == edges,
{
    assert(turned(turned(edges)) =~= edges);
}

/// A node is reached along the edges turned round exactly where it reaches
/// along the edges.
pub proof fn reaching_backwards(edges: Seq<(Seq<char>, Seq<char>)>, from: Seq<char>, to: Seq<char>)
    ensures
        reaches(turned(edges), from, to) == reaches(edges, to, from),
{
    if reaches(turned(edges), from, to) {
        let walk = choose|walk: Seq<Seq<char>>| #[trigger] is_walk(turned(edges), walk) && walk.first() == from && walk.last() == to;
        walk_turns_with_the_edges(edges, walk);
        assert(is_walk(edges, walk.reverse()));
    }
    if reaches(edges, to, from) {
        let walk = choose|walk: Seq<Seq<char>>| #[trigger] is_walk(edges, walk) && walk.first() == to && walk.last() == from;
        turned_twice(edges);
        walk_turns_with_the_edges(turned(edges), walk);
        assert(is_walk(turned(edges), walk.reverse()));
    }
}

/// Whether `issue` depends on `on`, directly or through other issues; an
/// issue counts as depending on itself.
pub open spec fn depends_transitively(edges: Seq<(Seq<char>, Seq<char>)>, issue: Seq<char>, on: Seq<char>) -> bool {
    reaches(edges, issue, on)
}

/// Whether some edge leads from `issue` straight to `on`.
pub open spec fn depends_directly(edges: Seq<(Seq<char>, Seq<char>)>, issue: Seq<char>, on: Seq<char>) -> bool {
    edges.contains((issue, on))
}

/// The issues that depend on `id` directly, once each, in the order of their
/// first edge.
pub fn direct_dependents(edges: &Vec<Edge>, id: &str) -> (r: Vec<String>)
    ensures
        forall|issue: Seq<char>| texts(r@).contains(issue) <==> depends_directly(edge_pairs(edges@), issue, id@),
        texts(r@).no_duplicates(),
{
    let ghost pairs = edge_pairs(edges@);
    let mut out: Vec<String> = Vec::new();
    let mut i: usize = 0;
    while i < edges.len()
        invariant
            i <= edges.len(),
            pairs == edge_pairs(edges@),
            texts(out@).no_duplicates(),
            forall|issue: Seq<char>| texts(out@).contains(issue) <==> (exists|k: int| 0 <= k < i && #[trigger] pairs[k] == (issue, id@)),
        decreases edges.len() - i,
    {
        let ghost before = texts(out@);
        assert(pairs[i as int] == (edges@[i as int].from@, edges@[i as int].to@));
        if text_eq(edges[i].to.as_str(), id) && !contains_text(&out, edges[i].from.as_str()) {
            out.push(edges[i].from.clone());
            proof {
                let added = pairs[i as int].0;
                assert(texts(out@) =~= before.push(added));
                assert forall|issue: Seq<char>| texts(out@).contains(issue) <==> (exists|k: int| 0 <= k < i + 1 && #[trigger] pairs[k] == (issue, id@)) by {
                    if texts(out@).contains(issue) {
                        let at = choose|at: int| 0 <= at < texts(out@).len() && texts(out@)[at] == issue;
                        if at < before.len() {
                            assert(before[at] == issue);
                            assert(before.contains(issue));
                        } else {
                            assert(pairs[i as int] == (issue, id@));
                        }
                    }
                    if exists|k: int| 0 <= k < i + 1 && #[trigger] pairs[k] == (issue, id@) {
                        let k = choose|k: int| 0 <= k < i + 1 && #[trigger] pairs[k] == (issue, id@);
                        if k < i {
                            assert(before.contains(issue));
                            let at = choose|at: int| 0 <= at < before.len() && before[at] == issue;
                            assert(texts(out@)[at] == issue);
                        } else {
                            assert(texts(out@)[before.len() as int] == issue);
                        }
                    }
                }
            }
        } else {
            proof {
                assert forall|issue: Seq<char>| texts(out@).contains(issue) <==> (exists|k: int| 0 <= k < i + 1 && #[trigger] pairs[k] == (issue, id@)) by {
                    if exists|k: int| 0 <= k < i + 1 && #[trigger] pairs[k] == (issue, id@) {
                        let k = choose|k: int| 0 <= k < i + 1 && #[trigger] pairs[k] == (issue, id@);
                        if k == i {
                            assert(before.contains(issue));
                        }
                    }
                }
            }
        }
        i = i + 1;
    }
    out
}

/// What a deletion does: the issues that become tombstones, and the issues
/// that are left depending on a tombstone.
#[derive(Debug, Clone)]
pub struct DeletePlan {
    pub deleted: Vec<String>,
    pub orphaned: Vec<String>,
}

/// What the planning of the deletion of `id` comes to, given every
/// dependency edge.
///
/// With `cascade`, the issue goes together with every issue that depends on
/// it, directly or through others, and nothing is orphaned.  Otherwise the
/// issue goes alone: with `force`, the issues that depend on it directly
/// are orphaned; without, their existence is `HasDependents`.
pub open spec fn planned(
    edges: Seq<(Seq<char>, Seq<char>)>,
    id: Seq<char>,
    cascade: bool,
    force: bool,
    r: Result<DeletePlan, BeadsError>,
) -> bool {
    if cascade {
        r matches Ok(plan) && plan.orphaned@.len() == 0 && plan.deleted@.len() >= 1 && plan.deleted@[0]@ == id
            && texts(plan.deleted@).no_duplicates() && forall|issue: Seq<char>|
            texts(plan.deleted@).contains(issue) <==> depends_transitively(edges, issue, id)
    } else if force {
        r matches Ok(plan) && plan.deleted@.len() == 1 && plan.deleted@[0]@ == id && texts(
            plan.orphaned@,
        ).no_duplicates() && forall|issue: Seq<char>|
            texts(plan.orphaned@).contains(issue) <==> depends_directly(edges, issue, id)
    } else if exists|issue: Seq<char>| depends_directly(edges, issue, id) {
        r matches Err(BeadsError::HasDependents { id: named, count }) && named@ == id && count >= 1
    } else {
        r matches Ok(plan) && plan.deleted@.len() == 1 && plan.deleted@[0]@ == id && plan.orphaned@.len() == 0
    }
}

/// Plans the deletion of `id`, given every dependency edge: see [`planned`].
pub fn plan_delete(id: &str, edges: &Vec<Edge>, cascade: bool, force: bool) -> (r: Result<DeletePlan, BeadsError>)
    ensures
        planned(edge_pairs(edges@), id@, cascade, force, r),
{
    if cascade {
        let backwards: Vec<Edge> = turn_edges(edges);
        let deleted: Vec<String> = reachable_from(&backwards, id);
        proof {
            assert forall|issue: Seq<char>| texts(deleted@).contains(issue) <==> depends_transitively(edge_pairs(edges@), issue, id@) by {
                reaching_backwards(edge_pairs(edges@), id@, issue);
            }
        }
        return Ok(DeletePlan { deleted, orphaned: Vec::new() });
    }
    let direct: Vec<String> = direct_dependents(edges, id);
    proof {
        if direct@.len() > 0 {
            assert(texts(direct@).contains(texts(direct@)[0]));
        }
        if exists|issue: Seq<char>| depends_directly(edge_pairs(edges@), issue, id@) {
            let issue = choose|issue: Seq<char>| depends_directly(edge_pairs(edges@), issue, id@);
            assert(texts(direct@).contains(issue));
        }
    }
    if direct.len() > 0 && !force {
        return Err(BeadsError::HasDependents { id: id.to_owned(), count: direct.len() });
    }
    let mut deleted: Vec<String> = Vec::new();
    deleted.push(id.to_owned());
    Ok(DeletePlan { deleted, orphaned: direct })
}


/// What becomes of a request for a new edge.
pub enum Verdict {
    Accept,
    /// The issue would depend on itself.
    SelfEdge,
    /// The two issues are linked already.
    Duplicate,
    /// A `blocks` edge would close a cycle.
    Cycle,
    /// A `parent-child` edge would give the issue a second parent.
    SecondParent,
}

/// The rule for a new edge from `issue_id` to `depends_on_id`, given whether
/// the two are linked already, whether `issue_id` has a parent, and the
/// `blocks` edges between issues that are no tombstones.  The first complaint
/// in the order of [`Verdict`] wins.
pub open spec fn verdict(
    issue_id: Seq<char>,
    depends_on_id: Seq<char>,
    dep_type: DependencyType,
    already_linked: bool,
    has_parent: bool,
    blocks: Seq<(Seq<char>, Seq<char>)>,
) -> Verdict {
    if issue_id == depends_on_id {
        Verdict::SelfEdge
    } else if already_linked {
        Verdict::Duplicate
    } else if dep_type == DependencyType::Blocks && reaches(blocks, depends_on_id, issue_id) {
        Verdict::Cycle
    } else if dep_type == DependencyType::ParentChild && has_parent {
        Verdict::SecondParent
    } else {
        Verdict::Accept
    }
}

/// Decides on a new edge.  An edge of an issue to itself and an edge that
/// exists already are `InvalidArgument`; a `blocks` edge that would close a
/// cycle is `CycleDetected`; a second parent is `ParentExists`.
pub fn check_new_dependency(
    issue_id: &str,
    depends_on_id: &str,
    dep_type: DependencyType,
    already_linked: bool,
    has_parent: bool,
    blocks: &Vec<Edge>,
) -> (r: Result<(), BeadsError>)
    ensures
        match verdict(issue_id@, depends_on_id@, dep_type, already_linked, has_parent, edge_pairs(blocks@)) {
            Verdict::Accept => r is Ok,
            Verdict::SelfEdge => r matches Err(BeadsError::InvalidArgument { .. }),
            Verdict::Duplicate => r matches Err(BeadsError::InvalidArgument { .. }),
            Verdict::Cycle => r matches Err(BeadsError::CycleDetected { issue_id: a, depends_on_id: b })
                && a@ == issue_id@ && b@ == depends_on_id@,
            Verdict::SecondParent => r matches Err(BeadsError::ParentExists { id }) && id@ == issue_id@,
        },
{
    if text_eq(issue_id, depends_on_id) {
        return Err(
            BeadsError::InvalidArgument { message: "an issue cannot depend on itself".to_owned() },
        );
    }
    if already_linked {
        return Err(
            BeadsError::InvalidArgument { message: "the dependency exists already".to_owned() },
        );
    }
    match dep_type {
        DependencyType::Blocks => {
            if reachable(blocks, depends_on_id, issue_id) {
                return Err(
                    BeadsError::CycleDetected {
                        issue_id: issue_id.to_owned(),
                        depends_on_id: depends_on_id.to_owned(),
                    },
                );
            }
        },
        DependencyType::ParentChild => {
            if has_parent {
                return Err(BeadsError::ParentExists { id: issue_id.to_owned() });
            }
        },
        _ => {},
    }
    Ok(())
}

/// The `blocks` edges stay free of cycles under every edge that the rule
/// accepts.
pub proof fn accepted_edge_keeps_graph_acyclic(
    issue_id: Seq<char>,
    depends_on_id: Seq<char>,
    already_linked: bool,
    has_parent: bool,
    blocks: Seq<(Seq<char>, Seq<char>)>,
)
    requires
        acyclic(blocks),
        verdict(issue_id, depends_on_id, DependencyType::Blocks, already_linked, has_parent, blocks) is Accept,
    ensures
        acyclic(blocks.push((issue_id, depends_on_id))),
{
    edge_keeps_graph_acyclic(blocks, issue_id, depends_on_id);
}

/// An edge that would close a cycle is never accepted.
pub proof fn cycle_is_never_accepted(
    issue_id: Seq<char>,
    depends_on_id: Seq<char>,
    already_linked: bool,
    has_parent: bool,
    blocks: Seq<(Seq<char>, Seq<char>)>,
)
    requires
        closes_cycle(blocks, issue_id, depends_on_id),
    ensures
        !(verdict(issue_id, depends_on_id, DependencyType::Blocks, already_linked, has_parent, blocks) is Accept),
{
}

} // verus!
