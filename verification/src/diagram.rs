//! Drawing a dependency tree: as indented text, and as a Mermaid diagram.

use vstd::prelude::*;
use crate::graph::{Edge, edge_pairs};
use crate::model::{Issue, IssueData, Priority};
use crate::readiness::issues_view;
use crate::text::{digits, format_decimal, lowercased, text_eq, to_lowercase};
use crate::tree::TreeNode;

verus! {

/// The title with every double quote turned into a single one, so that it
/// can stand between double quotes.
pub open spec fn escaped(title: Seq<char>) -> Seq<char> {
    Seq::new(title.len(), |i: int| if title[i] == '"' { '\'' } else { title[i] })
}

/// Turns every double quote of a title into a single one.
pub fn escape_title(title: &str) -> (r: String)
    ensures
        r@ == escaped(title@),
{
    let n: usize = title.unicode_len();
    let mut out: String = String::new();
    let mut i: usize = 0;
    while i < n
        invariant
            i <= n,
            n == title@.len(),
            out@ == escaped(title@.take(i as int)),
        decreases n - i,
    {
        if title.get_char(i) == '"' {
            out.append("'");
            proof {
                reveal_strlit("'");
                assert("'"@ =~= seq!['\'']);
            }
        } else {
            out.append(title.substring_char(i, i + 1));
        }
        assert(out@ =~= escaped(title@.take(i + 1)));
        i = i + 1;
    }
    assert(title@.take(i as int) =~= title@);
    out
}

/// What the tree shows of an issue: its id, its title and its priority.
pub open spec fn label(id: Seq<char>, title: Seq<char>, priority: Priority) -> Seq<char> {
    id + ": "@ + escaped(title) + " [P"@ + digits(if priority.0 >= 0 { priority.0 as nat } else { 0 }, 10) + "]"@
}

/// Writes what the tree shows of an issue.
pub fn label_of(id: &str, title: &str, priority: Priority) -> (r: String)
    ensures
        r@ == label(id@, title@, priority),
{
    let mut out: String = id.to_owned();
    out.append(": ");
    let safe: String = escape_title(title);
    out.append(safe.as_str());
    out.append(" [P");
    let level: u64 = if priority.0 >= 0 {
        priority.0 as u64
    } else {
        0
    };
    let number: String = format_decimal(level);
    out.append(number.as_str());
    out.append("]");
    out
}

/// The title and priority of the issue `id` among `issues`: those of the
/// first issue with that id; an empty title and priority 2 where there is no
/// such issue.
#[verifier::opaque]
pub open spec fn described(issues: Seq<IssueData>, id: Seq<char>) -> (Seq<char>, Priority) {
    if exists|i: int| 0 <= i < issues.len() && (#[trigger] issues[i]).id == id {
        let i = choose|i: int| 0 <= i < issues.len() && (#[trigger] issues[i]).id == id && forall|j: int|
            0 <= j < i ==> (#[trigger] issues[j]).id != id;
        (issues[i].title, issues[i].priority)
    } else {
        (Seq::empty(), Priority(2))
    }
}

/// The label of the issue `id`, with what `issues` knows of it.
pub fn describe(issues: &Vec<Issue>, id: &str) -> (r: String)
    ensures
        r@ == label(id@, described(issues_view(issues@), id@).0, described(issues_view(issues@), id@).1),
{
    let ghost all = issues_view(issues@);
    let mut i: usize = 0;
    proof {
        reveal(described);
    }
    while i < issues.len()
        invariant
            i <= issues.len(),
            all == issues_view(issues@),
            forall|j: int| 0 <= j < i ==> (#[trigger] all[j]).id != id@,
        decreases issues.len() - i,
    {
        if text_eq(issues[i].id.as_str(), id) {
            proof {
                reveal(described);
                assert(all[i as int].id == id@);
                let first = choose|f: int| 0 <= f < all.len() && (#[trigger] all[f]).id == id@ && forall|j: int|
                    0 <= j < f ==> (#[trigger] all[j]).id != id@;
                assert(first == i) by {
                    if first < i {
                        assert(all[first].id != id@);
                    }
                    if i < first {
                        assert(all[i as int].id != id@);
                    }
                }
            }
            return label_of(id, issues[i].title.as_str(), issues[i].priority);
        }
        i = i + 1;
    }
    proof {
        reveal_strlit("");
        assert(""@ =~= Seq::<char>::empty());
    }
    label_of(id, "", Priority(2))
}

/// The line of a node in a Mermaid diagram.
pub open spec fn mermaid_node(id: Seq<char>, label: Seq<char>) -> Seq<char> {
    "    "@ + id + "[\""@ + label + "\"]\n"@
}

/// The line of an edge in a Mermaid diagram.
pub open spec fn mermaid_edge(from: Seq<char>, to: Seq<char>) -> Seq<char> {
    "    "@ + from + " --> "@ + to + "\n"@
}

/// The line of the node of the issue `id`, with what `issues` knows of it.
pub open spec fn node_of(issues: Seq<IssueData>, id: Seq<char>) -> Seq<char> {
    mermaid_node(id, label(id, described(issues, id).0, described(issues, id).1))
}

/// `text` followed by the lines of the nodes at the heads of the first `n`
/// edges.
pub open spec fn with_nodes(text: Seq<char>, issues: Seq<IssueData>, edges: Seq<(Seq<char>, Seq<char>)>, n: nat) -> Seq<char>
    decreases n,
{
    if n == 0 {
        text
    } else {
        with_nodes(text, issues, edges, (n - 1) as nat) + node_of(issues, edges[n - 1].1)
    }
}

/// `text` followed by the lines of the first `n` edges.
pub open spec fn with_edges(text: Seq<char>, edges: Seq<(Seq<char>, Seq<char>)>, n: nat) -> Seq<char>
    decreases n,
{
    if n == 0 {
        text
    } else {
        with_edges(text, edges, (n - 1) as nat) + mermaid_edge(edges[n - 1].0, edges[n - 1].1)
    }
}

/// The Mermaid diagram of a tree: the heading, a node for the root and for
/// the head of every edge, then the edges, each from the issue that depends
/// to the issue depended on.
pub open spec fn mermaid(issues: Seq<IssueData>, root: Seq<char>, edges: Seq<(Seq<char>, Seq<char>)>) -> Seq<char> {
    with_edges(with_nodes("graph TD\n"@ + node_of(issues, root), issues, edges, edges.len()), edges, edges.len())
}

fn push_node(out: &mut String, issues: &Vec<Issue>, id: &str)
    ensures
        final(out)@ == old(out)@ + node_of(issues_view(issues@), id@),
{
    let text: String = describe(issues, id);
    let mut line: String = "    ".to_owned();
    line.append(id);
    line.append("[\"");
    line.append(text.as_str());
    line.append("\"]\n");
    out.append(line.as_str());
}

fn push_edge(out: &mut String, from: &str, to: &str)
    ensures
        final(out)@ == old(out)@ + mermaid_edge(from@, to@),
{
    let mut line: String = "    ".to_owned();
    line.append(from);
    line.append(" --> ");
    line.append(to);
    line.append("\n");
    out.append(line.as_str());
}

/// Draws a tree as a Mermaid diagram, given the edges of the tree.
pub fn render_mermaid(issues: &Vec<Issue>, root: &str, edges: &Vec<Edge>) -> (r: String)
    ensures
        r@ == mermaid(issues_view(issues@), root@, edge_pairs(edges@)),
{
    let ghost all = issues_view(issues@);
    let ghost pairs = edge_pairs(edges@);
    let mut out: String = "graph TD\n".to_owned();
    push_node(&mut out, issues, root);
    let ghost head = out@;
    let mut i: usize = 0;
    while i < edges.len()
        invariant
            i <= edges.len(),
            all == issues_view(issues@),
            pairs == edge_pairs(edges@),
            out@ == with_nodes(head, all, pairs, i as nat),
        decreases edges.len() - i,
    {
        assert(pairs[i as int] == (edges@[i as int].from@, edges@[i as int].to@));
        push_node(&mut out, issues, edges[i].to.as_str());
        i = i + 1;
    }
    let ghost noded = out@;
    let mut k: usize = 0;
    while k < edges.len()
        invariant
            k <= edges.len(),
            pairs == edge_pairs(edges@),
            out@ == with_edges(noded, pairs, k as nat),
        decreases edges.len() - k,
    {
        assert(pairs[k as int] == (edges@[k as int].from@, edges@[k as int].to@));
        push_edge(&mut out, edges[k].from.as_str(), edges[k].to.as_str());
        k = k + 1;
    }
    out
}

/// `text` followed by two spaces for each level.
pub open spec fn indented(text: Seq<char>, depth: nat) -> Seq<char>
    decreases depth,
{
    if depth == 0 {
        text
    } else {
        indented(text, (depth - 1) as nat) + "  "@
    }
}

/// The lines of the first `n` nodes of a tree, each indented by its depth.
pub open spec fn tree_lines(issues: Seq<IssueData>, tree: Seq<TreeNode>, n: nat) -> Seq<char>
    decreases n,
{
    if n == 0 {
        Seq::empty()
    } else {
        indented(tree_lines(issues, tree, (n - 1) as nat), tree[n - 1].depth as nat) + label(
            tree[n - 1].id@,
            described(issues, tree[n - 1].id@).0,
            described(issues, tree[n - 1].id@).1,
        ) + "\n"@
    }
}

/// Writes a tree as text: one line for each node, indented by its depth.
pub fn render_text(issues: &Vec<Issue>, tree: &Vec<TreeNode>) -> (r: String)
    ensures
        r@ == tree_lines(issues_view(issues@), tree@, tree@.len()),
{
    let ghost all = issues_view(issues@);
    let mut out: String = String::new();
    let mut i: usize = 0;
    while i < tree.len()
        invariant
            i <= tree.len(),
            all == issues_view(issues@),
            out@ == tree_lines(all, tree@, i as nat),
        decreases tree.len() - i,
    {
        let ghost before = out@;
        let mut d: usize = 0;
        while d < tree[i].depth
            invariant
                i < tree.len(),
                d <= tree@[i as int].depth,
                out@ == indented(before, d as nat),
            decreases tree@[i as int].depth - d,
        {
            out.append("  ");
            d = d + 1;
        }
        let text: String = describe(issues, tree[i].id.as_str());
        out.append(text.as_str());
        out.append("\n");
        i = i + 1;
    }
    out
}

/// How a dependency tree is drawn.
#[derive(Clone, Copy, Debug, PartialEq, Eq, Structural)]
pub enum TreeFormat {
    /// Indented text, one issue to a line.
    Text,
    /// A Mermaid diagram.
    Mermaid,
}

/// The format that a name stands for, in any mix of upper and lower case:
/// `text` or `mermaid`.
pub open spec fn named_format(name: Seq<char>) -> Option<TreeFormat> {
    if lowercased(name) == "text"@ {
        Some(TreeFormat::Text)
    } else if lowercased(name) == "mermaid"@ {
        Some(TreeFormat::Mermaid)
    } else {
        None
    }
}

/// Reads the name of a format.
pub fn parse_tree_format(name: &str) -> (r: Option<TreeFormat>)
    ensures
        r == named_format(name@),
{
    let lower: String = to_lowercase(name);
    if text_eq(lower.as_str(), "text") {
        Some(TreeFormat::Text)
    } else if text_eq(lower.as_str(), "mermaid") {
        Some(TreeFormat::Mermaid)
    } else {
        None
    }
}

} // verus!
