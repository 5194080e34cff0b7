//! The lines of the text export: one compact JSON object for each issue,
//! with its keys in a fixed order and the fields that are empty left out.

use vstd::prelude::*;
use crate::model::{
    Comment, CommentData, Dependency, DependencyData, Issue, IssueData, opt_text, texts,
};
use crate::text::{digits, format_decimal, in_order, sort_texts};
use crate::time::Timestamp;

verus! {

/// The JSON string that serde_json writes for a text: the text between
/// quotes, with the characters that JSON does not take as they are escaped.
pub uninterp spec fn json_string(text: Seq<char>) -> Seq<char>;

/// `serde_json::to_string` of a text.  Writing a text cannot fail.
#[verifier::external_body]
fn quote(text: &str) -> (r: String)
    ensures
        r@ == json_string(text@),
{
    serde_json::to_string(text).unwrap_or_default()
}

/// A member of an object: the key between quotes, a colon, and the value as
/// it is written.
pub open spec fn member(key: Seq<char>, value: Seq<char>) -> Seq<char> {
    "\""@ + key + "\":"@ + value
}

/// The members of an object joined by commas, between braces.
pub open spec fn object(members: Seq<Seq<char>>) -> Seq<char> {
    "{"@ + joined(members) + "}"@
}

/// The items of an array joined by commas, between brackets.
pub open spec fn array(items: Seq<Seq<char>>) -> Seq<char> {
    "["@ + joined(items) + "]"@
}

/// Texts with a comma between each two.
pub open spec fn joined(parts: Seq<Seq<char>>) -> Seq<char>
    decreases parts.len(),
{
    if parts.len() == 0 {
        Seq::empty()
    } else if parts.len() == 1 {
        parts[0]
    } else {
        joined(parts.drop_last()) + ","@ + parts.last()
    }
}

/// A member with a text as its value.
pub open spec fn text_member(key: Seq<char>, value: Seq<char>) -> Seq<char> {
    member(key, json_string(value))
}

/// A member with an integer as its value; the integer is not negative.
pub open spec fn number_member(key: Seq<char>, value: nat) -> Seq<char> {
    member(key, digits(value, 10))
}

/// The member of an optional text: none where the text is absent or empty.
pub open spec fn optional_member(key: Seq<char>, value: Option<Seq<char>>) -> Seq<Seq<char>> {
    match value {
        Some(v) => if v.len() > 0 {
            seq![text_member(key, v)]
        } else {
            Seq::empty()
        },
        None => Seq::empty(),
    }
}

/// The member of an optional time: none where the time is absent.
pub open spec fn time_member(key: Seq<char>, value: Option<Timestamp>) -> Seq<Seq<char>> {
    match value {
        Some(t) => seq![text_member(key, t.text())],
        None => Seq::empty(),
    }
}

/// A dependency as it is exported: the issue depended on and the type of
/// the edge.
pub open spec fn dependency_object(dep: DependencyData) -> Seq<char> {
    object(seq![text_member("id"@, dep.depends_on_id), text_member("type"@, dep.dep_type.text())])
}

/// A comment as it is exported.
pub open spec fn comment_object(comment: CommentData) -> Seq<char> {
    object(
        seq![
            number_member("id"@, if comment.id >= 0 { comment.id as nat } else { 0 }),
            text_member("author"@, comment.author),
            text_member("text"@, comment.body),
            text_member("created_at"@, comment.created_at.text()),
        ],
    )
}

/// The member of a list: none where the list is empty.
pub open spec fn list_member(key: Seq<char>, items: Seq<Seq<char>>) -> Seq<Seq<char>> {
    if items.len() == 0 {
        Seq::empty()
    } else {
        seq![member(key, array(items))]
    }
}

/// The member of the estimate: none where there is none or it is negative.
pub open spec fn estimate_member(minutes: Option<i32>) -> Seq<Seq<char>> {
    match minutes {
        Some(m) => if m >= 0 {
            seq![number_member("estimated_minutes"@, m as nat)]
        } else {
            Seq::empty()
        },
        None => Seq::empty(),
    }
}

/// The priority as it is written: a negative one as 0.
pub open spec fn written_priority(priority: crate::model::Priority) -> nat {
    if priority.0 >= 0 {
        priority.0 as nat
    } else {
        0
    }
}

/// `members` followed by the members of the issue up to its estimate.
pub open spec fn with_head(members: Seq<Seq<char>>, issue: IssueData) -> Seq<Seq<char>> {
    members + seq![text_member("id"@, issue.id)] + seq![text_member("title"@, issue.title)]
        + optional_member("description"@, issue.description)
        + optional_member("design"@, issue.design)
        + optional_member("acceptance_criteria"@, issue.acceptance_criteria)
        + optional_member("notes"@, issue.notes)
        + seq![text_member("status"@, issue.status.text())]
        + seq![number_member("priority"@, written_priority(issue.priority))]
        + seq![text_member("type"@, issue.issue_type.text())]
        + optional_member("assignee"@, issue.assignee)
        + optional_member("owner"@, issue.owner)
        + estimate_member(issue.estimated_minutes)
}

/// The labels of the issue as JSON strings, in the order of texts.
pub open spec fn label_items(issue: IssueData) -> Seq<Seq<char>> {
    Seq::new(in_order(issue.labels).len(), |i: int| json_string(in_order(issue.labels)[i]))
}

/// The dependencies of the issue as JSON objects.
pub open spec fn dependency_items(issue: IssueData) -> Seq<Seq<char>> {
    Seq::new(issue.dependencies.len(), |i: int| dependency_object(issue.dependencies[i]))
}

/// The comments of the issue as JSON objects.
pub open spec fn comment_items(issue: IssueData) -> Seq<Seq<char>> {
    Seq::new(issue.comments.len(), |i: int| comment_object(issue.comments[i]))
}

/// `members` followed by the members of the issue from its labels to its
/// source system.
pub open spec fn with_middle(members: Seq<Seq<char>>, issue: IssueData) -> Seq<Seq<char>> {
    members + list_member("labels"@, label_items(issue))
        + list_member("dependencies"@, dependency_items(issue))
        + list_member("comments"@, comment_items(issue))
        + seq![text_member("created_at"@, issue.created_at.text())]
        + optional_member("created_by"@, issue.created_by)
        + seq![text_member("updated_at"@, issue.updated_at.text())]
        + time_member("closed_at"@, issue.closed_at)
        + optional_member("close_reason"@, issue.close_reason)
        + time_member("due_at"@, issue.due_at)
        + time_member("defer_until"@, issue.defer_until)
        + optional_member("external_ref"@, issue.external_ref)
        + optional_member("source_system"@, issue.source_system)
}

/// `members` followed by the members of the issue from its deletion to its
/// hash.
pub open spec fn with_tail(members: Seq<Seq<char>>, issue: IssueData) -> Seq<Seq<char>> {
    members + time_member("deleted_at"@, issue.deleted_at)
        + optional_member("deleted_by"@, issue.deleted_by)
        + optional_member("delete_reason"@, issue.delete_reason)
        + optional_member("original_type"@, issue.original_type)
        + optional_member("content_hash"@, issue.content_hash)
}

/// The members of the line of an issue, in the order of the export: id,
/// title, description, design, acceptance criteria, notes, status, priority,
/// type, assignee, owner, estimate, labels, dependencies, comments, times
/// and authors, and last the deletion and the hash.
pub open spec fn issue_members(issue: IssueData) -> Seq<Seq<char>> {
    with_tail(with_middle(with_head(Seq::empty(), issue), issue), issue)
}

/// The line of an issue in the export, without its line feed.
pub open spec fn issue_line(issue: IssueData) -> Seq<char> {
    object(issue_members(issue))
}

/// Joins texts with commas.
pub fn join(parts: &Vec<String>) -> (r: String)
    ensures
        r@ == joined(texts(parts@)),
{
    let mut out: String = String::new();
    let mut i: usize = 0;
    while i < parts.len()
        invariant
            i <= parts.len(),
            out@ == joined(texts(parts@).take(i as int)),
        decreases parts.len() - i,
    {
        proof {
            let head = texts(parts@).take(i + 1);
            assert(head.drop_last() =~= texts(parts@).take(i as int));
            assert(head.last() == parts@[i as int]@);
            assert(head[0] == parts@[0]@);
        }
        if i > 0 {
            out.append(",");
        }
        out.append(parts[i].as_str());
        proof {
            if i == 0 {
                assert(out@ =~= parts@[0]@);
            }
        }
        i = i + 1;
    }
    assert(texts(parts@).take(i as int) =~= texts(parts@));
    out
}

fn wrap(open: &str, parts: &Vec<String>, close: &str) -> (r: String)
    ensures
        r@ == open@ + joined(texts(parts@)) + close@,
{
    let mut out: String = open.to_owned();
    let inner: String = join(parts);
    out.append(inner.as_str());
    out.append(close);
    out
}

fn write_member(key: &str, value: &str) -> (r: String)
    ensures
        r@ == member(key@, value@),
{
    let mut out: String = "\"".to_owned();
    out.append(key);
    out.append("\":");
    out.append(value);
    out
}

fn write_text_member(key: &str, value: &str) -> (r: String)
    ensures
        r@ == text_member(key@, value@),
{
    let quoted: String = quote(value);
    write_member(key, quoted.as_str())
}

fn write_number_member(key: &str, value: u64) -> (r: String)
    ensures
        r@ == number_member(key@, value as nat),
{
    let number: String = format_decimal(value);
    write_member(key, number.as_str())
}

fn push_optional(members: &mut Vec<String>, key: &str, value: &Option<String>)
    ensures
        texts(final(members)@) == texts(old(members)@) + optional_member(key@, opt_text(*value)),
{
    match value {
        Some(v) => {
            if v.as_str().unicode_len() > 0 {
                let m: String = write_text_member(key, v.as_str());
                members.push(m);
                assert(texts(members@) =~= texts(old(members)@) + optional_member(key@, opt_text(*value)));
            } else {
                assert(texts(members@) =~= texts(old(members)@) + optional_member(key@, opt_text(*value)));
            }
        },
        None => {
            assert(texts(members@) =~= texts(old(members)@) + optional_member(key@, opt_text(*value)));
        },
    }
}

fn push_time(members: &mut Vec<String>, key: &str, value: &Option<Timestamp>)
    ensures
        texts(final(members)@) == texts(old(members)@) + time_member(key@, *value),
{
    match value {
        Some(t) => {
            let text: String = t.to_rfc3339();
            let m: String = write_text_member(key, text.as_str());
            members.push(m);
            assert(texts(members@) =~= texts(old(members)@) + time_member(key@, *value));
        },
        None => {
            assert(texts(members@) =~= texts(old(members)@) + time_member(key@, *value));
        },
    }
}

fn push_text(members: &mut Vec<String>, key: &str, value: &str)
    ensures
        texts(final(members)@) == texts(old(members)@) + seq![text_member(key@, value@)],
{
    let m: String = write_text_member(key, value);
    members.push(m);
    assert(texts(members@) =~= texts(old(members)@) + seq![text_member(key@, value@)]);
}

fn push_number(members: &mut Vec<String>, key: &str, value: u64)
    ensures
        texts(final(members)@) == texts(old(members)@) + seq![number_member(key@, value as nat)],
{
    let m: String = write_number_member(key, value);
    members.push(m);
    assert(texts(members@) =~= texts(old(members)@) + seq![number_member(key@, value as nat)]);
}

fn push_list(members: &mut Vec<String>, key: &str, items: &Vec<String>)
    ensures
        texts(final(members)@) == texts(old(members)@) + list_member(key@, texts(items@)),
{
    if items.len() > 0 {
        let value: String = wrap("[", items, "]");
        let m: String = write_member(key, value.as_str());
        members.push(m);
        assert(texts(members@) =~= texts(old(members)@) + list_member(key@, texts(items@)));
    } else {
        assert(texts(members@) =~= texts(old(members)@) + list_member(key@, texts(items@)));
    }
}

/// Writes a dependency as it is exported.
pub fn render_dependency(dep: &Dependency) -> (r: String)
    ensures
        r@ == dependency_object(dep@),
{
    let mut members: Vec<String> = Vec::new();
    members.push(write_text_member("id", dep.depends_on_id.as_str()));
    members.push(write_text_member("type", dep.dep_type.as_str()));
    assert(texts(members@) =~= seq![
        text_member("id"@, dep@.depends_on_id),
        text_member("type"@, dep@.dep_type.text()),
    ]);
    wrap("{", &members, "}")
}

/// Writes a comment as it is exported.
pub fn render_comment(comment: &Comment) -> (r: String)
    ensures
        r@ == comment_object(comment@),
{
    let mut members: Vec<String> = Vec::new();
    let id: u64 = if comment.id >= 0 {
        comment.id as u64
    } else {
        0
    };
    members.push(write_number_member("id", id));
    members.push(write_text_member("author", comment.author.as_str()));
    members.push(write_text_member("text", comment.body.as_str()));
    let created: String = comment.created_at.to_rfc3339();
    members.push(write_text_member("created_at", created.as_str()));
    assert(texts(members@) =~= seq![
        number_member("id"@, if comment@.id >= 0 { comment@.id as nat } else { 0 }),
        text_member("author"@, comment@.author),
        text_member("text"@, comment@.body),
        text_member("created_at"@, comment@.created_at.text()),
    ]);
    wrap("{", &members, "}")
}

fn render_labels(labels: &Vec<String>) -> (r: Vec<String>)
    ensures
        texts(r@) == Seq::new(labels@.len(), |i: int| json_string(labels@[i]@)),
{
    let mut out: Vec<String> = Vec::new();
    let mut i: usize = 0;
    while i < labels.len()
        invariant
            i <= labels.len(),
            out@.len() == i,
            forall|k: int| 0 <= k < i ==> (#[trigger] out@[k])@ == json_string(labels@[k]@),
        decreases labels.len() - i,
    {
        out.push(quote(labels[i].as_str()));
        i = i + 1;
    }
    assert(texts(out@) =~= Seq::new(labels@.len(), |i: int| json_string(labels@[i]@)));
    out
}

fn render_dependencies(deps: &Vec<Dependency>) -> (r: Vec<String>)
    ensures
        texts(r@) == Seq::new(deps@.len(), |i: int| dependency_object(deps@[i]@)),
{
    let mut out: Vec<String> = Vec::new();
    let mut i: usize = 0;
    while i < deps.len()
        invariant
            i <= deps.len(),
            out@.len() == i,
            forall|k: int| 0 <= k < i ==> (#[trigger] out@[k])@ == dependency_object(deps@[k]@),
        decreases deps.len() - i,
    {
        out.push(render_dependency(&deps[i]));
        i = i + 1;
    }
    assert(texts(out@) =~= Seq::new(deps@.len(), |i: int| dependency_object(deps@[i]@)));
    out
}

fn render_comments(comments: &Vec<Comment>) -> (r: Vec<String>)
    ensures
        texts(r@) == Seq::new(comments@.len(), |i: int| comment_object(comments@[i]@)),
{
    let mut out: Vec<String> = Vec::new();
    let mut i: usize = 0;
    while i < comments.len()
        invariant
            i <= comments.len(),
            out@.len() == i,
            forall|k: int| 0 <= k < i ==> (#[trigger] out@[k])@ == comment_object(comments@[k]@),
        decreases comments.len() - i,
    {
        out.push(render_comment(&comments[i]));
        i = i + 1;
    }
    assert(texts(out@) =~= Seq::new(comments@.len(), |i: int| comment_object(comments@[i]@)));
    out
}

fn push_estimate(members: &mut Vec<String>, minutes: Option<i32>)
    ensures
        texts(final(members)@) == texts(old(members)@) + estimate_member(minutes),
{
    match minutes {
        Some(m) => {
            if m >= 0 {
                let written: String = write_number_member("estimated_minutes", m as u64);
                members.push(written);
            }
        },
        None => {},
    }
    assert(texts(members@) =~= texts(old(members)@) + estimate_member(minutes));
}

fn push_head(members: &mut Vec<String>, issue: &Issue)
    ensures
        texts(final(members)@) == with_head(texts(old(members)@), issue@),
{
    push_text(members, "id", issue.id.as_str());
    push_text(members, "title", issue.title.as_str());
    push_optional(members, "description", &issue.description);
    push_optional(members, "design", &issue.design);
    push_optional(members, "acceptance_criteria", &issue.acceptance_criteria);
    push_optional(members, "notes", &issue.notes);
    push_text(members, "status", issue.status.as_str());
    let level: u64 = if issue.priority.0 >= 0 {
        issue.priority.0 as u64
    } else {
        0
    };
    push_number(members, "priority", level);
    push_text(members, "type", issue.issue_type.as_str());
    push_optional(members, "assignee", &issue.assignee);
    push_optional(members, "owner", &issue.owner);
    push_estimate(members, issue.estimated_minutes);
}

fn push_middle(members: &mut Vec<String>, issue: &Issue)
    ensures
        texts(final(members)@) == with_middle(texts(old(members)@), issue@),
{
    let labels: Vec<String> = render_labels(&sort_texts(&issue.labels));
    let dependencies: Vec<String> = render_dependencies(&issue.dependencies);
    let comments: Vec<String> = render_comments(&issue.comments);
    proof {
        assert(label_items(issue@) =~= texts(labels@));
        assert(dependency_items(issue@) =~= texts(dependencies@));
        assert(comment_items(issue@) =~= texts(comments@));
    }
    push_list(members, "labels", &labels);
    push_list(members, "dependencies", &dependencies);
    push_list(members, "comments", &comments);
    let created: String = issue.created_at.to_rfc3339();
    push_text(members, "created_at", created.as_str());
    push_optional(members, "created_by", &issue.created_by);
    let updated: String = issue.updated_at.to_rfc3339();
    push_text(members, "updated_at", updated.as_str());
    push_time(members, "closed_at", &issue.closed_at);
    push_optional(members, "close_reason", &issue.close_reason);
    push_time(members, "due_at", &issue.due_at);
    push_time(members, "defer_until", &issue.defer_until);
    push_optional(members, "external_ref", &issue.external_ref);
    push_optional(members, "source_system", &issue.source_system);
}

fn push_tail(members: &mut Vec<String>, issue: &Issue)
    ensures
        texts(final(members)@) == with_tail(texts(old(members)@), issue@),
{
    push_time(members, "deleted_at", &issue.deleted_at);
    push_optional(members, "deleted_by", &issue.deleted_by);
    push_optional(members, "delete_reason", &issue.delete_reason);
    push_optional(members, "original_type", &issue.original_type);
    push_optional(members, "content_hash", &issue.content_hash);
}

/// Writes the line of an issue in the export, without its line feed.
pub fn render_line(issue: &Issue) -> (r: String)
    ensures
        r@ == issue_line(issue@),
{
    let mut members: Vec<String> = Vec::new();
    assert(texts(members@) =~= Seq::<Seq<char>>::empty());
    push_head(&mut members, issue);
    push_middle(&mut members, issue);
    push_tail(&mut members, issue);
    wrap("{", &members, "}")
}

} // verus!
