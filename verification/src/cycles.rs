//! Cycles of the dependency graph: the groups of issues that depend on each
//! other in a circle.

use vstd::prelude::*;
use crate::graph::{
    Edge, contains_text, edge_pairs, has_path, is_walk, reachable, reachable_from, reaches,
    reaches_itself, steps_at,
};
use crate::model::texts;
use crate::text::text_eq;

verus! {

/// Whether `node` lies on a cycle: it has a path to itself.  An edge from a
/// node to itself is a cycle.
pub open spec fn on_cycle(edges: Seq<(Seq<char>, Seq<char>)>, node: Seq<char>) -> bool {
    has_path(edges, node, node)
}

/// Whether two nodes reach each other.
pub open spec fn together(edges: Seq<(Seq<char>, Seq<char>)>, a: Seq<char>, b: Seq<char>) -> bool {
    reaches(edges, a, b) && reaches(edges, b, a)
}

/// Whether some edge leaves `from` for a node that reaches `to`.
pub open spec fn steps_towards(edges: Seq<(Seq<char>, Seq<char>)>, from: Seq<char>, to: Seq<char>) -> bool {
    exists|k: int| 0 <= k < edges.len() && (#[trigger] edges[k]).0 == from && reaches(edges, edges[k].1, to)
}

/// A path starts with an edge, and where an edge leads to a node that reaches
/// another, there is a path.
pub proof fn path_starts_with_an_edge(edges: Seq<(Seq<char>, Seq<char>)>, from: Seq<char>, to: Seq<char>)
    ensures
        has_path(edges, from, to) == steps_towards(edges, from, to),
{
    if has_path(edges, from, to) {
        let walk = choose|walk: Seq<Seq<char>>| #[trigger] is_walk(edges, walk) && walk.len() >= 2 && walk.first() == from && walk.last() == to;
        assert(steps_at(edges, walk, 0));
        let k = choose|k: int| 0 <= k < edges.len() && edges[k] == (walk[0], walk[1]);
        let rest = walk.drop_first();
        assert forall|i: int| 0 <= i < rest.len() - 1 implies #[trigger] steps_at(edges, rest, i) by {
            assert(steps_at(edges, walk, i + 1));
        }
        assert(is_walk(edges, rest) && rest.first() == edges[k].1 && rest.last() == to);
        assert(edges[k].0 == from && reaches(edges, edges[k].1, to));
    }
    if steps_towards(edges, from, to) {
        let k = choose|k: int| 0 <= k < edges.len() && (#[trigger] edges[k]).0 == from && reaches(edges, edges[k].1, to);
        let rest = choose|walk: Seq<Seq<char>>| #[trigger] is_walk(edges, walk) && walk.first() == edges[k].1 && walk.last() == to;
        let walk = seq![from] + rest;
        assert forall|i: int| 0 <= i < walk.len() - 1 implies #[trigger] steps_at(edges, walk, i) by {
            if i == 0 {
                assert(edges.contains((from, rest[0])));
            } else {
                assert(steps_at(edges, rest, i - 1));
            }
        }
        assert(is_walk(edges, walk) && walk.len() >= 2 && walk.first() == from && walk.last() == to);
    }
}

/// Whether `node` lies on a cycle.
pub fn is_on_cycle(edges: &Vec<Edge>, node: &str) -> (r: bool)
    ensures
        r == on_cycle(edge_pairs(edges@), node@),
{
    let ghost pairs = edge_pairs(edges@);
    let mut k: usize = 0;
    while k < edges.len()
        invariant
            k <= edges.len(),
            pairs == edge_pairs(edges@),
            forall|j: int| 0 <= j < k ==> !((#[trigger] pairs[j]).0 == node@ && reaches(pairs, pairs[j].1, node@)),
        decreases edges.len() - k,
    {
        assert(pairs[k as int] == (edges@[k as int].from@, edges@[k as int].to@));
        if text_eq(edges[k].from.as_str(), node) && reachable(edges, edges[k].to.as_str(), node) {
            proof {
                path_starts_with_an_edge(pairs, node@, node@);
            }
            return true;
        }
        k = k + 1;
    }
    proof {
        path_starts_with_an_edge(pairs, node@, node@);
    }
    false
}

/// The nodes that reach `node` and are reached from it, `node` first.
pub fn component_of(edges: &Vec<Edge>, node: &str) -> (r: Vec<String>)
    ensures
        r@.len() >= 1,
        r@[0]@ == node@,
        forall|other: Seq<char>| texts(r@).contains(other) <==> together(edge_pairs(edges@), node@, other),
{
    let ghost pairs = edge_pairs(edges@);
    let reached: Vec<String> = reachable_from(edges, node);
    let mut out: Vec<String> = Vec::new();
    let mut i: usize = 0;
    proof {
        reaches_itself(pairs, node@);
    }
    while i < reached.len()
        invariant
            i <= reached.len(),
            pairs == edge_pairs(edges@),
            reached@.len() >= 1,
            reached@[0]@ == node@,
            reaches(pairs, node@, node@),
            i >= 1 ==> out@.len() >= 1 && out@[0]@ == node@,
            forall|other: Seq<char>| texts(reached@).contains(other) <==> reaches(pairs, node@, other),
            forall|other: Seq<char>| texts(out@).contains(other) <==> (exists|j: int| 0 <= j < i && #[trigger] texts(reached@)[j] == other && reaches(pairs, other, node@)),
        decreases reached.len() - i,
    {
        let ghost before = texts(out@);
        assert(texts(reached@)[i as int] == reached@[i as int]@);
        let back: bool = reachable(edges, reached[i].as_str(), node);
        let ghost held = out@;
        if back {
            out.push(reached[i].clone());
        }
        proof {
            if i == 0 {
                assert(back);
                assert(held.len() == 0) by {
                    if held.len() > 0 {
                        assert(before[0] == held[0]@);
                        assert(before.contains(before[0]));
                    }
                }
                assert(out@[0]@ == node@);
            } else {
                assert(out@[0] == held[0]);
            }
            let now = texts(out@);
            let this = texts(reached@)[i as int];
            if back {
                assert(now =~= before.push(this));
            }
            assert forall|other: Seq<char>| now.contains(other) <==> (exists|j: int| 0 <= j < i + 1 && #[trigger] texts(reached@)[j] == other && reaches(pairs, other, node@)) by {
                if now.contains(other) {
                    let at = choose|at: int| 0 <= at < now.len() && now[at] == other;
                    if at < before.len() {
                        assert(before[at] == other);
                        assert(before.contains(other));
                        let j = choose|j: int| 0 <= j < i && #[trigger] texts(reached@)[j] == other && reaches(pairs, other, node@);
                        assert(0 <= j < i + 1);
                    } else {
                        assert(texts(reached@)[i as int] == other);
                    }
                }
                if exists|j: int| 0 <= j < i + 1 && #[trigger] texts(reached@)[j] == other && reaches(pairs, other, node@) {
                    let j = choose|j: int| 0 <= j < i + 1 && #[trigger] texts(reached@)[j] == other && reaches(pairs, other, node@);
                    if j < i {
                        assert(before.contains(other));
                        let at = choose|at: int| 0 <= at < before.len() && before[at] == other;
                        assert(now[at] == other);
                    } else {
                        assert(now[now.len() - 1] == other);
                    }
                }
            }
        }
        i = i + 1;
    }
    proof {
        assert forall|other: Seq<char>| texts(out@).contains(other) <==> together(pairs, node@, other) by {
            if together(pairs, node@, other) {
                assert(texts(reached@).contains(other));
                let j = choose|j: int| 0 <= j < texts(reached@).len() && texts(reached@)[j] == other;
                assert(texts(reached@)[j] == other && reaches(pairs, other, node@));
            }
        }
    }
    out
}

/// The members of each group, as texts.
pub open spec fn groups_view(groups: Seq<Vec<String>>) -> Seq<Seq<Seq<char>>> {
    Seq::new(groups.len(), |i: int| texts(groups[i]@))
}

/// Whether `group` is a cycle of the graph: its first member lies on a
/// cycle, and its members are the nodes that reach the first and are reached
/// from it.
pub open spec fn is_cycle_group(edges: Seq<(Seq<char>, Seq<char>)>, group: Seq<Seq<char>>) -> bool {
    &&& group.len() >= 1
    &&& on_cycle(edges, group[0])
    &&& forall|other: Seq<char>| group.contains(other) <==> together(edges, group[0], other)
}

/// Whether some group holds `node`.
pub open spec fn grouped(groups: Seq<Seq<Seq<char>>>, node: Seq<char>) -> bool {
    exists|c: int| 0 <= c < groups.len() && (#[trigger] groups[c]).contains(node)
}

/// Whether the groups are the cycles of the graph: every group is a cycle,
/// every node on a cycle is in a group, and no two groups are one cycle.
pub open spec fn cycles_of(edges: Seq<(Seq<char>, Seq<char>)>, groups: Seq<Seq<Seq<char>>>) -> bool {
    &&& forall|c: int| 0 <= c < groups.len() ==> is_cycle_group(edges, #[trigger] groups[c])
    &&& forall|node: Seq<char>| on_cycle(edges, node) ==> grouped(groups, node)
    &&& forall|c: int, d: int|
        0 <= c < d < groups.len() ==> !together(edges, (#[trigger] groups[c])[0], (#[trigger] groups[d])[0])
}

/// Whether the groups are the cycles of some graph.
pub open spec fn cycles_of_some_graph(groups: Seq<Seq<Seq<char>>>) -> bool {
    exists|edges: Seq<(Seq<char>, Seq<char>)>| #[trigger] cycles_of(edges, groups)
}

/// Whether `list` holds `node` in one of its groups.
fn in_some_group(groups: &Vec<Vec<String>>, node: &str) -> (r: bool)
    ensures
        r == grouped(groups_view(groups@), node@),
{
    let mut c: usize = 0;
    while c < groups.len()
        invariant
            c <= groups.len(),
            forall|j: int| 0 <= j < c ==> !(#[trigger] groups_view(groups@)[j]).contains(node@),
        decreases groups.len() - c,
    {
        assert(groups_view(groups@)[c as int] == texts(groups@[c as int]@));
        if contains_text(&groups[c], node) {
            return true;
        }
        c = c + 1;
    }
    false
}

/// Finds the cycles of the graph: the groups of two or more nodes that reach
/// each other, and the nodes with an edge to themselves.  Every node that
/// lies on a cycle is in exactly one group, and no two groups reach each
/// other.
pub fn find_cycles(edges: &Vec<Edge>) -> (r: Vec<Vec<String>>)
    ensures
        forall|c: int| 0 <= c < r@.len() ==> is_cycle_group(edge_pairs(edges@), #[trigger] groups_view(r@)[c]),
        forall|node: Seq<char>| on_cycle(edge_pairs(edges@), node) ==> grouped(groups_view(r@), node),
        forall|c: int, d: int| 0 <= c < d < r@.len() ==> !together(
            edge_pairs(edges@),
            (#[trigger] groups_view(r@)[c])[0],
            (#[trigger] groups_view(r@)[d])[0],
        ),
{
    let ghost pairs = edge_pairs(edges@);
    let mut out: Vec<Vec<String>> = Vec::new();
    let mut k: usize = 0;
    while k < edges.len()
        invariant
            k <= edges.len(),
            pairs == edge_pairs(edges@),
            forall|c: int| 0 <= c < out@.len() ==> is_cycle_group(pairs, #[trigger] groups_view(out@)[c]),
            forall|j: int| 0 <= j < k && on_cycle(pairs, (#[trigger] pairs[j]).0) ==> grouped(groups_view(out@), pairs[j].0),
            forall|c: int, d: int| 0 <= c < d < out@.len() ==> !together(
                pairs,
                (#[trigger] groups_view(out@)[c])[0],
                (#[trigger] groups_view(out@)[d])[0],
            ),
        decreases edges.len() - k,
    {
        let ghost before = groups_view(out@);
        assert(pairs[k as int] == (edges@[k as int].from@, edges@[k as int].to@));
        let node: &str = edges[k].from.as_str();
        if is_on_cycle(edges, node) && !in_some_group(&out, node) {
            let group: Vec<String> = component_of(edges, node);
            out.push(group);
            proof {
                let now = groups_view(out@);
                assert(now =~= before.push(texts(group@)));
                assert(texts(group@)[0] == node@);
                assert(is_cycle_group(pairs, now[now.len() - 1]));
                assert forall|c: int, d: int| 0 <= c < d < now.len() implies !together(pairs, (#[trigger] now[c])[0], (#[trigger] now[d])[0]) by {
                    if d == now.len() - 1 {
                        assert(is_cycle_group(pairs, before[c]));
                        assert(!before[c].contains(node@));
                    } else {
                        assert(now[c] == before[c] && now[d] == before[d]);
                    }
                }
                reaches_itself(pairs, node@);
                assert(now[now.len() - 1].contains(node@));
            }
        }
        proof {
            let now = groups_view(out@);
            assert forall|c: int| 0 <= c < before.len() implies now[c] == before[c] by {}
            assert forall|j: int| 0 <= j < k + 1 && on_cycle(pairs, (#[trigger] pairs[j]).0) implies grouped(now, pairs[j].0) by {
                if j < k {
                    let c = choose|c: int| 0 <= c < before.len() && (#[trigger] before[c]).contains(pairs[j].0);
                    assert(now[c].contains(pairs[j].0));
                } else if grouped(before, node@) {
                    let c = choose|c: int| 0 <= c < before.len() && (#[trigger] before[c]).contains(node@);
                    assert(now[c].contains(node@));
                } else {
                    assert(now[now.len() - 1].contains(node@));
                }
            }
        }
        k = k + 1;
    }
    proof {
        assert forall|node: Seq<char>| on_cycle(pairs, node) implies grouped(groups_view(out@), node) by {
            path_starts_with_an_edge(pairs, node, node);
            let j = choose|j: int| 0 <= j < pairs.len() && (#[trigger] pairs[j]).0 == node && reaches(pairs, pairs[j].1, node);
            assert(on_cycle(pairs, pairs[j].0));
        }
    }
    out
}

} // verus!
