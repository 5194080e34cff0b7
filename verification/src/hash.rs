//! The content hash of an issue: a digest of the fields that make an issue
//! what it is, by which the synchroniser tells whether a line of the export
//! changes anything.

use vstd::prelude::*;
use sha2::{Digest, Sha256};
use crate::model::{DependencyType, Issue, IssueData, IssueType, Priority, Status};
use crate::text::{digit_char, digit_text, digits, format_decimal, in_order, sort_texts};

verus! {

/// The SHA-256 digest of a sequence of bytes.
pub uninterp spec fn sha256_of(data: Seq<u8>) -> Seq<u8>;

/// `sha2::Sha256::digest`, the digest handed over as a vector.  A SHA-256
/// digest has 32 bytes.
#[verifier::external_body]
fn sha256(data: &[u8]) -> (r: Vec<u8>)
    ensures
        r@ == sha256_of(data@),
        r@.len() == 32,
{
    Sha256::digest(data).to_vec()
}

/// The fields that the hash covers.  Times, ids and comments are not among
/// them, nor the order in which an issue holds its labels: two issues that
/// agree on these fields have the same hash.
pub struct StableFields {
    pub title: Seq<char>,
    pub description: Option<Seq<char>>,
    pub issue_type: IssueType,
    pub priority: Priority,
    pub status: Status,
    pub assignee: Option<Seq<char>>,
    /// The labels, in the order of texts.
    pub labels: Seq<Seq<char>>,
    /// The issues depended on, each with the type of the edge.
    pub dependencies: Seq<(Seq<char>, DependencyType)>,
}

/// The stable fields of an issue.
pub open spec fn stable_fields(issue: IssueData) -> StableFields {
    StableFields {
        title: issue.title,
        description: issue.description,
        issue_type: issue.issue_type,
        priority: issue.priority,
        status: issue.status,
        assignee: issue.assignee,
        labels: in_order(issue.labels),
        dependencies: Seq::new(
            issue.dependencies.len(),
            |i: int| (issue.dependencies[i].depends_on_id, issue.dependencies[i].dep_type),
        ),
    }
}

/// A line of the text that is hashed: a field and a line feed.
pub open spec fn line(field: Seq<char>) -> Seq<char> {
    field + seq!['\n']
}

/// The text of an optional field: empty where the field is absent.
pub open spec fn or_empty(field: Option<Seq<char>>) -> Seq<char> {
    match field {
        Some(s) => s,
        None => Seq::empty(),
    }
}

/// The decimal text of a priority; a negative priority is written as 0.
pub open spec fn priority_text(priority: Priority) -> Seq<char> {
    if priority.0 >= 0 {
        digits(priority.0 as nat, 10)
    } else {
        digits(0, 10)
    }
}

/// The lines of the labels, in the order given.
pub open spec fn label_lines(labels: Seq<Seq<char>>) -> Seq<char>
    decreases labels.len(),
{
    if labels.len() == 0 {
        Seq::empty()
    } else {
        label_lines(labels.drop_last()) + line("label:"@ + labels.last())
    }
}

/// The lines of the dependencies, in the order given.
pub open spec fn dependency_lines(deps: Seq<(Seq<char>, DependencyType)>) -> Seq<char>
    decreases deps.len(),
{
    if deps.len() == 0 {
        Seq::empty()
    } else {
        dependency_lines(deps.drop_last()) + line("dep:"@ + deps.last().0 + ":"@ + deps.last().1.text())
    }
}

/// The text that is hashed: one line for each scalar field, in a fixed
/// order, then one line for each label and one for each dependency.
pub open spec fn hashed_text(fields: StableFields) -> Seq<char> {
    line(fields.title) + line(or_empty(fields.description)) + line(fields.issue_type.text()) + line(
        priority_text(fields.priority),
    ) + line(fields.status.text()) + line(or_empty(fields.assignee)) + label_lines(fields.labels)
        + dependency_lines(fields.dependencies)
}

/// Two hexadecimal digits for each byte, lower case.
pub open spec fn hex(bytes: Seq<u8>) -> Seq<char>
    decreases bytes.len(),
{
    if bytes.len() == 0 {
        Seq::empty()
    } else {
        hex(bytes.drop_last()) + seq![
            digit_char(bytes.last() as int / 16),
            digit_char(bytes.last() as int % 16),
        ]
    }
}

/// The content hash of the stable fields: the SHA-256 digest of the UTF-8
/// bytes of [`hashed_text`], in hexadecimal.
pub open spec fn hash_of_fields(fields: StableFields) -> Seq<char> {
    hex(sha256_of(vstd::utf8::encode_utf8(hashed_text(fields))))
}

/// The content hash of an issue.
pub open spec fn content_hash_of(issue: IssueData) -> Seq<char> {
    hash_of_fields(stable_fields(issue))
}

/// Writes bytes in hexadecimal.
pub fn to_hex(bytes: &Vec<u8>) -> (r: String)
    ensures
        r@ == hex(bytes@),
{
    let mut r: String = String::new();
    let mut i: usize = 0;
    while i < bytes.len()
        invariant
            i <= bytes.len(),
            r@ == hex(bytes@.take(i as int)),
        decreases bytes.len() - i,
    {
        let b: u8 = bytes[i];
        r.append(digit_text((b / 16) as u64));
        r.append(digit_text((b % 16) as u64));
        proof {
            let prefix = bytes@.take(i + 1);
            assert(prefix.drop_last() =~= bytes@.take(i as int));
            assert(prefix.last() == b);
            assert(r@ =~= hex(bytes@.take(i as int)) + seq![
                digit_char(b as int / 16),
                digit_char(b as int % 16),
            ]);
        }
        i = i + 1;
    }
    assert(bytes@.take(i as int) =~= bytes@);
    r
}

fn push_line(out: &mut String, field: &str)
    ensures
        final(out)@ == old(out)@ + line(field@),
{
    out.append(field);
    out.append("\n");
    proof {
        reveal_strlit("\n");
        assert("\n"@ =~= seq!['\n']);
        assert(out@ =~= old(out)@ + line(field@));
    }
}

fn push_optional_line(out: &mut String, field: &Option<String>)
    ensures
        final(out)@ == old(out)@ + line(or_empty(crate::model::opt_text(*field))),
{
    match field {
        Some(s) => push_line(out, s.as_str()),
        None => {
            push_line(out, "");
            proof {
                reveal_strlit("");
                assert(""@ =~= Seq::<char>::empty());
            }
        },
    }
}

/// Writes the text that is hashed.
pub fn stable_text(issue: &Issue) -> (r: String)
    ensures
        r@ == hashed_text(stable_fields(issue@)),
{
    let ghost fields = stable_fields(issue@);
    let mut out: String = String::new();
    push_line(&mut out, issue.title.as_str());
    push_optional_line(&mut out, &issue.description);
    push_line(&mut out, issue.issue_type.as_str());
    let level: u64 = if issue.priority.0 >= 0 {
        issue.priority.0 as u64
    } else {
        0
    };
    let number: String = format_decimal(level);
    push_line(&mut out, number.as_str());
    push_line(&mut out, issue.status.as_str());
    push_optional_line(&mut out, &issue.assignee);
    let ghost scalars = out@;
    assert(scalars =~= line(fields.title) + line(or_empty(fields.description)) + line(
        fields.issue_type.text(),
    ) + line(priority_text(fields.priority)) + line(fields.status.text()) + line(
        or_empty(fields.assignee),
    ));
    let labels: Vec<String> = sort_texts(&issue.labels);
    assert(fields.labels == crate::model::texts(labels@));
    let mut i: usize = 0;
    while i < labels.len()
        invariant
            i <= labels.len(),
            fields.labels == crate::model::texts(labels@),
            out@ == scalars + label_lines(fields.labels.take(i as int)),
        decreases labels.len() - i,
    {
        let mut entry: String = "label:".to_owned();
        entry.append(labels[i].as_str());
        push_line(&mut out, entry.as_str());
        proof {
            let prefix = fields.labels.take(i + 1);
            assert(prefix.drop_last() =~= fields.labels.take(i as int));
            assert(prefix.last() == labels@[i as int]@);
        }
        i = i + 1;
    }
    assert(fields.labels.take(i as int) =~= fields.labels);
    let ghost labelled = out@;
    let mut j: usize = 0;
    while j < issue.dependencies.len()
        invariant
            j <= issue.dependencies.len(),
            fields == stable_fields(issue@),
            out@ == labelled + dependency_lines(fields.dependencies.take(j as int)),
        decreases issue.dependencies.len() - j,
    {
        let mut entry: String = "dep:".to_owned();
        entry.append(issue.dependencies[j].depends_on_id.as_str());
        entry.append(":");
        entry.append(issue.dependencies[j].dep_type.as_str());
        push_line(&mut out, entry.as_str());
        proof {
            let prefix = fields.dependencies.take(j + 1);
            assert(prefix.drop_last() =~= fields.dependencies.take(j as int));
            assert(prefix.last() == (issue.dependencies@[j as int]@.depends_on_id, issue.dependencies@[j as int]@.dep_type));
        }
        j = j + 1;
    }
    assert(fields.dependencies.take(j as int) =~= fields.dependencies);
    out
}

/// Computes the content hash of an issue: 64 hexadecimal digits.
pub fn content_hash(issue: &Issue) -> (r: String)
    ensures
        r@ == content_hash_of(issue@),
{
    let text: String = stable_text(issue);
    let digest: Vec<u8> = sha256(text.as_str().as_bytes());
    to_hex(&digest)
}

/// The hash is a function of the stable fields alone: issues that agree on
/// them have the same hash, whatever else differs, so an issue that comes
/// back from the export with its stable fields as they were has the hash it
/// had.
pub proof fn hash_depends_on_stable_fields_only(a: IssueData, b: IssueData)
    requires
        stable_fields(a) == stable_fields(b),
    ensures
        content_hash_of(a) == content_hash_of(b),
{
}

/// The hash takes no notice of ids, times and comments.
pub proof fn hash_ignores_the_rest(issue: IssueData, other: IssueData)
    requires
        other.title == issue.title,
        other.description == issue.description,
        other.issue_type == issue.issue_type,
        other.priority == issue.priority,
        other.status == issue.status,
        other.assignee == issue.assignee,
        other.labels == issue.labels,
        other.dependencies == issue.dependencies,
    ensures
        content_hash_of(other) == content_hash_of(issue),
{
    assert(stable_fields(other).dependencies =~= stable_fields(issue).dependencies);
}

/// A hash in hexadecimal has two digits for each byte of the digest.
pub proof fn hex_length(bytes: Seq<u8>)
    ensures
        hex(bytes).len() == 2 * bytes.len(),
    decreases bytes.len(),
{
    if bytes.len() > 0 {
        hex_length(bytes.drop_last());
    }
}

} // verus!
