//! The lines of the export, read back.
//!
//! A line is a JSON object.  Reading it takes two steps: serde_json turns
//! the text into a document, from which the members are taken as plain
//! values; then the values are checked and turned into an issue.  The second
//! step is where the rules of the format are, and it is verified.

use vstd::prelude::*;
use crate::json::{
    JsonData, integer_of, items_of, json_integer, json_is_null, json_items, json_member, json_text,
    json_view, member_of, parse_json, parsed_json, text_member, text_of, views_of,
};
use crate::hash::{content_hash_of, hashed_text, or_empty, stable_fields};
use crate::model::{
    Comment, CommentData, Dependency, DependencyData, DependencyType, Issue, IssueData, IssueType,
    Priority, Status, dependency_type_text_round_trip, issue_type_text_round_trip, opt_text,
    status_text_round_trip, texts,
};
use crate::time::{Timestamp, rfc3339_instant};

verus! {

/// A dependency as a line holds it.
#[derive(Debug, Clone)]
pub struct DependencyRecord {
    /// The issue depended on.
    pub id: String,
    pub dep_type: Option<String>,
}

/// A comment as a line holds it.
#[derive(Debug, Clone)]
pub struct CommentRecord {
    pub id: Option<i64>,
    pub author: String,
    pub text: String,
    pub created_at: String,
}

/// An issue as a line holds it: texts and numbers, not checked yet.
#[derive(Debug, Clone)]
pub struct IssueRecord {
    pub id: String,
    pub title: String,
    pub description: Option<String>,
    pub design: Option<String>,
    pub acceptance_criteria: Option<String>,
    pub notes: Option<String>,
    pub status: Option<String>,
    pub priority: Option<i64>,
    pub issue_type: Option<String>,
    pub assignee: Option<String>,
    pub owner: Option<String>,
    pub estimated_minutes: Option<i64>,
    pub labels: Vec<String>,
    pub dependencies: Vec<DependencyRecord>,
    pub comments: Vec<CommentRecord>,
    pub created_at: String,
    pub created_by: Option<String>,
    pub updated_at: String,
    pub closed_at: Option<String>,
    pub close_reason: Option<String>,
    pub due_at: Option<String>,
    pub defer_until: Option<String>,
    pub external_ref: Option<String>,
    pub source_system: Option<String>,
    pub deleted_at: Option<String>,
    pub deleted_by: Option<String>,
    pub delete_reason: Option<String>,
    pub original_type: Option<String>,
    pub content_hash: Option<String>,
}

/// The instant that an RFC 3339 text spells.
pub open spec fn instant_of(text: Seq<char>) -> Option<Timestamp> {
    match rfc3339_instant(text) {
        Some(t) => Some(Timestamp::at(t.0, t.1)),
        None => None,
    }
}

/// Whether an optional text spells an instant where it is there.
pub open spec fn spells_instant(text: Option<String>) -> bool {
    match text {
        Some(t) => instant_of(t@) is Some,
        None => true,
    }
}

/// The instant that an optional text spells.
pub open spec fn optional_instant_of(text: Option<String>) -> Option<Timestamp> {
    match text {
        Some(t) => instant_of(t@),
        None => None,
    }
}

/// The priority that a number stands for: 2 where there is none, no
/// priority where the number is not 0 to 4.
pub open spec fn level_of(number: Option<i64>) -> Option<Priority> {
    match number {
        Some(n) => if 0 <= n <= 4 {
            Some(Priority(n as i32))
        } else {
            None
        },
        None => Some(Priority(2)),
    }
}

/// Whether an estimate, where there is one, is a number of 32 bits.
pub open spec fn estimate_fits(number: Option<i64>) -> bool {
    match number {
        Some(n) => i32::MIN <= n <= i32::MAX,
        None => true,
    }
}

/// The estimate that a number stands for.
pub open spec fn estimate_of(number: Option<i64>) -> Option<i32> {
    match number {
        Some(n) => Some(n as i32),
        None => None,
    }
}

/// Whether a record can be read as an issue: its times are RFC 3339, its
/// status, its type and the types of its dependencies are known spellings,
/// its priority is 0 to 4 and its estimate a number of 32 bits.
pub open spec fn readable(r: IssueRecord) -> bool {
    &&& instant_of(r.created_at@) is Some
    &&& instant_of(r.updated_at@) is Some
    &&& Status::named(opt_text(r.status)) is Some
    &&& level_of(r.priority) is Some
    &&& IssueType::named(opt_text(r.issue_type)) is Some
    &&& estimate_fits(r.estimated_minutes)
    &&& spells_instant(r.closed_at)
    &&& spells_instant(r.due_at)
    &&& spells_instant(r.defer_until)
    &&& spells_instant(r.deleted_at)
    &&& forall|i: int|
        0 <= i < r.dependencies@.len() ==> DependencyType::named(opt_text((#[trigger] r.dependencies@[i]).dep_type))
            is Some
    &&& forall|i: int| 0 <= i < r.comments@.len() ==> instant_of((#[trigger] r.comments@[i]).created_at@) is Some
}

/// The dependency that a record stands for, on the issue `issue_id`.  A line
/// does not say when a dependency was made: it is dated `at`.
pub open spec fn dependency_of(issue_id: Seq<char>, at: Timestamp, r: DependencyRecord) -> DependencyData {
    DependencyData {
        issue_id,
        depends_on_id: r.id@,
        dep_type: DependencyType::named(opt_text(r.dep_type))->0,
        created_at: at,
        created_by: None,
    }
}

/// The comment that a record stands for, on the issue `issue_id`; one
/// without a number has the number 0.
pub open spec fn comment_of(issue_id: Seq<char>, r: CommentRecord) -> CommentData {
    CommentData {
        id: match r.id {
            Some(n) => n as int,
            None => 0,
        },
        issue_id,
        author: r.author@,
        body: r.text@,
        created_at: instant_of(r.created_at@)->0,
    }
}

/// The issue that a readable record stands for.  What a line does not hold
/// is not set; the dependencies are dated as the issue was last updated.
pub open spec fn decoded(r: IssueRecord) -> IssueData
    recommends
        readable(r),
{
    IssueData {
        id: r.id@,
        content_hash: opt_text(r.content_hash),
        title: r.title@,
        description: opt_text(r.description),
        design: opt_text(r.design),
        acceptance_criteria: opt_text(r.acceptance_criteria),
        notes: opt_text(r.notes),
        status: Status::named(opt_text(r.status))->0,
        priority: level_of(r.priority)->0,
        issue_type: IssueType::named(opt_text(r.issue_type))->0,
        assignee: opt_text(r.assignee),
        owner: opt_text(r.owner),
        estimated_minutes: estimate_of(r.estimated_minutes),
        created_at: instant_of(r.created_at@)->0,
        created_by: opt_text(r.created_by),
        updated_at: instant_of(r.updated_at@)->0,
        closed_at: optional_instant_of(r.closed_at),
        close_reason: opt_text(r.close_reason),
        closed_by_session: None,
        due_at: optional_instant_of(r.due_at),
        defer_until: optional_instant_of(r.defer_until),
        external_ref: opt_text(r.external_ref),
        source_system: opt_text(r.source_system),
        deleted_at: optional_instant_of(r.deleted_at),
        deleted_by: opt_text(r.deleted_by),
        delete_reason: opt_text(r.delete_reason),
        original_type: opt_text(r.original_type),
        compaction_level: None,
        compacted_at: None,
        compacted_at_commit: None,
        original_size: None,
        sender: None,
        ephemeral: false,
        pinned: false,
        is_template: false,
        labels: texts(r.labels@),
        dependencies: Seq::new(
            r.dependencies@.len(),
            |i: int| dependency_of(r.id@, instant_of(r.updated_at@)->0, r.dependencies@[i]),
        ),
        comments: Seq::new(r.comments@.len(), |i: int| comment_of(r.id@, r.comments@[i])),
    }
}

/// Reads an RFC 3339 text.
fn read_instant(text: &str) -> (r: Option<Timestamp>)
    ensures
        r == instant_of(text@),
{
    Timestamp::parse_rfc3339(text)
}

/// Reads an optional RFC 3339 text; the outer `None` is for a text that
/// spells no instant.
fn read_optional_instant(text: &Option<String>) -> (r: Option<Option<Timestamp>>)
    ensures
        spells_instant(*text) ==> r == Some(optional_instant_of(*text)),
        !spells_instant(*text) ==> r is None,
{
    match text {
        Some(t) => match read_instant(t.as_str()) {
            Some(at) => Some(Some(at)),
            None => None,
        },
        None => Some(None),
    }
}

fn read_status(text: &Option<String>) -> (r: Option<Status>)
    ensures
        r == Status::named(opt_text(*text)),
{
    match text {
        Some(t) => Status::parse(t.as_str()),
        None => Some(Status::Open),
    }
}

fn read_type(text: &Option<String>) -> (r: Option<IssueType>)
    ensures
        r == IssueType::named(opt_text(*text)),
{
    match text {
        Some(t) => IssueType::parse(t.as_str()),
        None => Some(IssueType::Task),
    }
}

fn read_dependency_type(text: &Option<String>) -> (r: Option<DependencyType>)
    ensures
        r == DependencyType::named(opt_text(*text)),
{
    match text {
        Some(t) => DependencyType::parse(t.as_str()),
        None => Some(DependencyType::Blocks),
    }
}

fn read_level(number: Option<i64>) -> (r: Option<Priority>)
    ensures
        r == level_of(number),
{
    match number {
        Some(n) => if 0 <= n && n <= 4 {
            Some(Priority(n as i32))
        } else {
            None
        },
        None => Some(Priority(2)),
    }
}

/// Reads an estimate; the outer `None` is for a number that does not fit.
fn read_estimate(number: Option<i64>) -> (r: Option<Option<i32>>)
    ensures
        estimate_fits(number) ==> r == Some(estimate_of(number)),
        !estimate_fits(number) ==> r is None,
{
    match number {
        Some(n) => if -0x8000_0000 <= n && n <= 0x7fff_ffff {
            Some(Some(n as i32))
        } else {
            None
        },
        None => Some(None),
    }
}

/// Reads the dependencies of a record; `None` where one is of no known type.
fn read_dependencies(issue_id: &str, at: Timestamp, list: &Vec<DependencyRecord>) -> (r: Option<Vec<Dependency>>)
    ensures
        match r {
            Some(deps) => {
                &&& forall|i: int|
                    0 <= i < list@.len() ==> DependencyType::named(opt_text((#[trigger] list@[i]).dep_type)) is Some
                &&& Seq::new(deps@.len(), |i: int| deps@[i]@) == Seq::new(
                    list@.len(),
                    |i: int| dependency_of(issue_id@, at, list@[i]),
                )
            },
            None => exists|i: int|
                0 <= i < list@.len() && DependencyType::named(opt_text((#[trigger] list@[i]).dep_type)) is None,
        },
{
    let mut deps: Vec<Dependency> = Vec::new();
    let mut i: usize = 0;
    while i < list.len()
        invariant
            i <= list.len(),
            deps@.len() == i,
            forall|j: int| 0 <= j < i ==> DependencyType::named(opt_text((#[trigger] list@[j]).dep_type)) is Some,
            forall|j: int| 0 <= j < i ==> (#[trigger] deps@[j])@ == dependency_of(issue_id@, at, list@[j]),
        decreases list.len() - i,
    {
        let dep_type: DependencyType = match read_dependency_type(&list[i].dep_type) {
            Some(t) => t,
            None => {
                return None;
            },
        };
        deps.push(
            Dependency {
                issue_id: issue_id.to_owned(),
                depends_on_id: list[i].id.clone(),
                dep_type,
                created_at: at,
                created_by: None,
            },
        );
        i = i + 1;
    }
    assert(Seq::new(deps@.len(), |i: int| deps@[i]@) =~= Seq::new(
        list@.len(),
        |i: int| dependency_of(issue_id@, at, list@[i]),
    ));
    Some(deps)
}

/// Reads the comments of a record; `None` where the time of one is not RFC
/// 3339.
fn read_comments(issue_id: &str, list: &Vec<CommentRecord>) -> (r: Option<Vec<Comment>>)
    ensures
        match r {
            Some(comments) => {
                &&& forall|i: int| 0 <= i < list@.len() ==> instant_of((#[trigger] list@[i]).created_at@) is Some
                &&& Seq::new(comments@.len(), |i: int| comments@[i]@) == Seq::new(
                    list@.len(),
                    |i: int| comment_of(issue_id@, list@[i]),
                )
            },
            None => exists|i: int| 0 <= i < list@.len() && instant_of((#[trigger] list@[i]).created_at@) is None,
        },
{
    let mut comments: Vec<Comment> = Vec::new();
    let mut i: usize = 0;
    while i < list.len()
        invariant
            i <= list.len(),
            comments@.len() == i,
            forall|j: int| 0 <= j < i ==> instant_of((#[trigger] list@[j]).created_at@) is Some,
            forall|j: int| 0 <= j < i ==> (#[trigger] comments@[j])@ == comment_of(issue_id@, list@[j]),
        decreases list.len() - i,
    {
        let created_at: Timestamp = match read_instant(list[i].created_at.as_str()) {
            Some(t) => t,
            None => {
                return None;
            },
        };
        comments.push(
            Comment {
                id: match list[i].id {
                    Some(n) => n,
                    None => 0,
                },
                issue_id: issue_id.to_owned(),
                author: list[i].author.clone(),
                body: list[i].text.clone(),
                created_at,
            },
        );
        i = i + 1;
    }
    assert(Seq::new(comments@.len(), |i: int| comments@[i]@) =~= Seq::new(
        list@.len(),
        |i: int| comment_of(issue_id@, list@[i]),
    ));
    Some(comments)
}

/// The times of a record, read.
struct Times {
    created_at: Timestamp,
    updated_at: Timestamp,
    closed_at: Option<Timestamp>,
    due_at: Option<Timestamp>,
    defer_until: Option<Timestamp>,
    deleted_at: Option<Timestamp>,
}

/// Reads the times of a record; `None` where one is not RFC 3339.
fn read_times(record: &IssueRecord) -> (r: Option<Times>)
    ensures
        match r {
            Some(times) => {
                &&& instant_of(record.created_at@) == Some(times.created_at)
                &&& instant_of(record.updated_at@) == Some(times.updated_at)
                &&& spells_instant(record.closed_at) && times.closed_at == optional_instant_of(record.closed_at)
                &&& spells_instant(record.due_at) && times.due_at == optional_instant_of(record.due_at)
                &&& spells_instant(record.defer_until) && times.defer_until == optional_instant_of(
                    record.defer_until,
                )
                &&& spells_instant(record.deleted_at) && times.deleted_at == optional_instant_of(
                    record.deleted_at,
                )
            },
            None => !readable(*record),
        },
{
    let created_at: Timestamp = read_instant(record.created_at.as_str())?;
    let updated_at: Timestamp = read_instant(record.updated_at.as_str())?;
    let closed_at: Option<Timestamp> = read_optional_instant(&record.closed_at)?;
    let due_at: Option<Timestamp> = read_optional_instant(&record.due_at)?;
    let defer_until: Option<Timestamp> = read_optional_instant(&record.defer_until)?;
    let deleted_at: Option<Timestamp> = read_optional_instant(&record.deleted_at)?;
    Some(Times { created_at, updated_at, closed_at, due_at, defer_until, deleted_at })
}

/// Checks a record and turns it into the issue it stands for; `None` where
/// the record cannot be read as an issue.
pub fn issue_of_record(record: &IssueRecord) -> (r: Option<Issue>)
    ensures
        readable(*record) ==> (r matches Some(issue) && issue@ == decoded(*record)),
        !readable(*record) ==> r is None,
{
    let times: Times = read_times(record)?;
    let status: Status = read_status(&record.status)?;
    let priority: Priority = read_level(record.priority)?;
    let issue_type: IssueType = read_type(&record.issue_type)?;
    let estimated_minutes: Option<i32> = read_estimate(record.estimated_minutes)?;
    let dependencies: Vec<Dependency> = read_dependencies(
        record.id.as_str(),
        times.updated_at,
        &record.dependencies,
    )?;
    let comments: Vec<Comment> = read_comments(record.id.as_str(), &record.comments)?;
    let issue = Issue {
        id: record.id.clone(),
        content_hash: record.content_hash.clone(),
        title: record.title.clone(),
        description: record.description.clone(),
        design: record.design.clone(),
        acceptance_criteria: record.acceptance_criteria.clone(),
        notes: record.notes.clone(),
        status,
        priority,
        issue_type,
        assignee: record.assignee.clone(),
        owner: record.owner.clone(),
        estimated_minutes,
        created_at: times.created_at,
        created_by: record.created_by.clone(),
        updated_at: times.updated_at,
        closed_at: times.closed_at,
        close_reason: record.close_reason.clone(),
        closed_by_session: None,
        due_at: times.due_at,
        defer_until: times.defer_until,
        external_ref: record.external_ref.clone(),
        source_system: record.source_system.clone(),
        deleted_at: times.deleted_at,
        deleted_by: record.deleted_by.clone(),
        delete_reason: record.delete_reason.clone(),
        original_type: record.original_type.clone(),
        compaction_level: None,
        compacted_at: None,
        compacted_at_commit: None,
        original_size: None,
        sender: None,
        ephemeral: false,
        pinned: false,
        is_template: false,
        labels: record.labels.clone(),
        dependencies,
        comments,
    };
    proof {
        assert(issue@.labels =~= decoded(*record).labels);
        assert(issue@.dependencies =~= decoded(*record).dependencies);
        assert(issue@.comments =~= decoded(*record).comments);
    }
    Some(issue)
}

/// What the export holds of an optional text: nothing of an empty one.
pub open spec fn written_text(value: Option<Seq<char>>) -> Option<Seq<char>> {
    match value {
        Some(text) => if text.len() > 0 {
            Some(text)
        } else {
            None
        },
        None => None,
    }
}

/// Whether a record holds the fields of an issue that the content hash
/// covers, as the export writes them: the title, the status, the priority
/// and the type are there, the description and the assignee unless they are
/// empty, the labels in the order of texts, and the dependencies one for
/// one.
pub open spec fn carries(r: IssueRecord, issue: IssueData) -> bool {
    &&& r.title@ == issue.title
    &&& opt_text(r.description) == written_text(issue.description)
    &&& opt_text(r.status) == Some(issue.status.text())
    &&& r.priority == Some(issue.priority.0 as i64)
    &&& opt_text(r.issue_type) == Some(issue.issue_type.text())
    &&& opt_text(r.assignee) == written_text(issue.assignee)
    &&& texts(r.labels@) == crate::text::in_order(issue.labels)
    &&& r.dependencies@.len() == issue.dependencies.len()
    &&& forall|i: int|
        0 <= i < r.dependencies@.len() ==> (#[trigger] r.dependencies@[i]).id@ == issue.dependencies[i].depends_on_id
            && opt_text(r.dependencies@[i].dep_type) == Some(issue.dependencies[i].dep_type.text())
}

/// The content hash survives the export: an issue that is read back from a
/// record that holds its fields has the hash that it had.
pub proof fn hash_survives_the_export(issue: IssueData, r: IssueRecord)
    requires
        issue.priority.in_range(),
        carries(r, issue),
    ensures
        content_hash_of(decoded(r)) == content_hash_of(issue),
{
    let back = stable_fields(decoded(r));
    let held = stable_fields(issue);
    status_text_round_trip(issue.status);
    issue_type_text_round_trip(issue.issue_type);
    assert(back.title == held.title);
    assert(or_empty(back.description) =~= or_empty(held.description));
    assert(or_empty(back.assignee) =~= or_empty(held.assignee));
    assert(back.issue_type == held.issue_type);
    assert(back.status == held.status);
    assert(back.priority == held.priority);
    crate::text::order_is_settled(issue.labels);
    assert(back.labels == held.labels);
    assert forall|i: int| 0 <= i < held.dependencies.len() implies back.dependencies[i] == held.dependencies[i] by {
        dependency_type_text_round_trip(issue.dependencies[i].dep_type);
        assert(r.dependencies@[i].id@ == issue.dependencies[i].depends_on_id);
    }
    assert(back.dependencies =~= held.dependencies);
    assert(hashed_text(back) == hashed_text(held));
}

/// The text member `key` of a document, which may be absent or null; the
/// outer `None` is for a member that is something else than a text.
pub open spec fn optional_text_member(document: JsonData, key: Seq<char>) -> Option<Option<Seq<char>>> {
    match member_of(document, key) {
        Some(member) => if member is Null {
            Some(None)
        } else {
            match text_of(member) {
                Some(text) => Some(Some(text)),
                None => None,
            }
        },
        None => Some(None),
    }
}

/// The integer member `key` of a document, which may be absent or null;
/// the outer `None` is for a member that is something else than an integer.
pub open spec fn optional_integer_member(document: JsonData, key: Seq<char>) -> Option<Option<int>> {
    match member_of(document, key) {
        Some(member) => if member is Null {
            Some(None)
        } else {
            match integer_of(member) {
                Some(number) => Some(Some(number)),
                None => None,
            }
        },
        None => Some(None),
    }
}

/// The items of the array member `key` of a document; no items for a member
/// that is absent or null.  `None` is for a member that is something else
/// than an array.
pub open spec fn items_member(document: JsonData, key: Seq<char>) -> Option<Seq<JsonData>> {
    match member_of(document, key) {
        Some(member) => if member is Null {
            Some(Seq::empty())
        } else {
            items_of(member)
        },
        None => Some(Seq::empty()),
    }
}

/// The labels of a document: the texts of its array `labels`; `None` where
/// `labels` is no array of texts.
pub open spec fn labels_of(document: JsonData) -> Option<Seq<Seq<char>>> {
    match items_member(document, "labels"@) {
        Some(items) => if forall|i: int| 0 <= i < items.len() ==> text_of(#[trigger] items[i]) is Some {
            Some(Seq::new(items.len(), |i: int| text_of(items[i])->0))
        } else {
            None
        },
        None => None,
    }
}

/// Whether an item can be read as a dependency: it has a text `id`, and its
/// `type` is a text where it has one.
pub open spec fn dependency_shaped(item: JsonData) -> bool {
    text_member(item, "id"@) is Some && optional_text_member(item, "type"@) is Some
}

/// The dependencies of a document, each as its id and its type: the items
/// of its array `dependencies`; `None` where `dependencies` is no array of
/// dependencies.
pub open spec fn dependencies_of(document: JsonData) -> Option<Seq<(Seq<char>, Option<Seq<char>>)>> {
    match items_member(document, "dependencies"@) {
        Some(items) => if forall|i: int| 0 <= i < items.len() ==> dependency_shaped(#[trigger] items[i]) {
            Some(
                Seq::new(
                    items.len(),
                    |i: int| (text_member(items[i], "id"@)->0, optional_text_member(items[i], "type"@)->0),
                ),
            )
        } else {
            None
        },
        None => None,
    }
}

/// Whether an item can be read as a comment: it has the texts `author`,
/// `text` and `created_at`, and its `id` is an integer where it has one.
pub open spec fn comment_shaped(item: JsonData) -> bool {
    &&& optional_integer_member(item, "id"@) is Some
    &&& text_member(item, "author"@) is Some
    &&& text_member(item, "text"@) is Some
    &&& text_member(item, "created_at"@) is Some
}

/// What a line holds of a comment: its number, its author, its text and the
/// text of its time.
pub ghost struct CommentMembers {
    pub id: Option<int>,
    pub author: Seq<char>,
    pub text: Seq<char>,
    pub created_at: Seq<char>,
}

/// The comment that an item holds.
pub open spec fn comment_members(item: JsonData) -> CommentMembers {
    CommentMembers {
        id: optional_integer_member(item, "id"@)->0,
        author: text_member(item, "author"@)->0,
        text: text_member(item, "text"@)->0,
        created_at: text_member(item, "created_at"@)->0,
    }
}

/// The comments of a document: the items of its array `comments`; `None`
/// where `comments` is no array of comments.
pub open spec fn comments_of(document: JsonData) -> Option<Seq<CommentMembers>> {
    match items_member(document, "comments"@) {
        Some(items) => if forall|i: int| 0 <= i < items.len() ==> comment_shaped(#[trigger] items[i]) {
            Some(Seq::new(items.len(), |i: int| comment_members(items[i])))
        } else {
            None
        },
        None => None,
    }
}

/// An optional number as an integer.
pub open spec fn opt_number(number: Option<i64>) -> Option<int> {
    match number {
        Some(n) => Some(n as int),
        None => None,
    }
}

/// The id and the type of each dependency record.
pub open spec fn dependency_records(list: Seq<DependencyRecord>) -> Seq<(Seq<char>, Option<Seq<char>>)> {
    Seq::new(list.len(), |i: int| (list[i].id@, opt_text(list[i].dep_type)))
}

/// What each comment record holds.
pub open spec fn comment_records(list: Seq<CommentRecord>) -> Seq<CommentMembers> {
    Seq::new(
        list.len(),
        |i: int|
            CommentMembers {
                id: opt_number(list[i].id),
                author: list[i].author@,
                text: list[i].text@,
                created_at: list[i].created_at@,
            },
    )
}

/// Whether a document has the shape of a line of the export: it is an
/// object with the texts `id`, `title`, `created_at` and `updated_at`, and
/// every other member that the format knows is absent, null, or of the kind
/// that the format gives it.
pub open spec fn shaped(document: JsonData) -> bool {
    &&& text_member(document, "id"@) is Some
    &&& text_member(document, "title"@) is Some
    &&& optional_text_member(document, "description"@) is Some
    &&& optional_text_member(document, "design"@) is Some
    &&& optional_text_member(document, "acceptance_criteria"@) is Some
    &&& optional_text_member(document, "notes"@) is Some
    &&& optional_text_member(document, "status"@) is Some
    &&& optional_integer_member(document, "priority"@) is Some
    &&& optional_text_member(document, "type"@) is Some
    &&& optional_text_member(document, "assignee"@) is Some
    &&& optional_text_member(document, "owner"@) is Some
    &&& optional_integer_member(document, "estimated_minutes"@) is Some
    &&& labels_of(document) is Some
    &&& dependencies_of(document) is Some
    &&& comments_of(document) is Some
    &&& text_member(document, "created_at"@) is Some
    &&& optional_text_member(document, "created_by"@) is Some
    &&& text_member(document, "updated_at"@) is Some
    &&& optional_text_member(document, "closed_at"@) is Some
    &&& optional_text_member(document, "close_reason"@) is Some
    &&& optional_text_member(document, "due_at"@) is Some
    &&& optional_text_member(document, "defer_until"@) is Some
    &&& optional_text_member(document, "external_ref"@) is Some
    &&& optional_text_member(document, "source_system"@) is Some
    &&& optional_text_member(document, "deleted_at"@) is Some
    &&& optional_text_member(document, "deleted_by"@) is Some
    &&& optional_text_member(document, "delete_reason"@) is Some
    &&& optional_text_member(document, "original_type"@) is Some
    &&& optional_text_member(document, "content_hash"@) is Some
}

/// Whether a record holds the members of a document, each as the document
/// has it.
pub open spec fn holds_members(record: IssueRecord, document: JsonData) -> bool {
    &&& Some(record.id@) == text_member(document, "id"@)
    &&& Some(record.title@) == text_member(document, "title"@)
    &&& Some(opt_text(record.description)) == optional_text_member(document, "description"@)
    &&& Some(opt_text(record.design)) == optional_text_member(document, "design"@)
    &&& Some(opt_text(record.acceptance_criteria)) == optional_text_member(document, "acceptance_criteria"@)
    &&& Some(opt_text(record.notes)) == optional_text_member(document, "notes"@)
    &&& Some(opt_text(record.status)) == optional_text_member(document, "status"@)
    &&& Some(opt_number(record.priority)) == optional_integer_member(document, "priority"@)
    &&& Some(opt_text(record.issue_type)) == optional_text_member(document, "type"@)
    &&& Some(opt_text(record.assignee)) == optional_text_member(document, "assignee"@)
    &&& Some(opt_text(record.owner)) == optional_text_member(document, "owner"@)
    &&& Some(opt_number(record.estimated_minutes)) == optional_integer_member(document, "estimated_minutes"@)
    &&& Some(texts(record.labels@)) == labels_of(document)
    &&& Some(dependency_records(record.dependencies@)) == dependencies_of(document)
    &&& Some(comment_records(record.comments@)) == comments_of(document)
    &&& Some(record.created_at@) == text_member(document, "created_at"@)
    &&& Some(opt_text(record.created_by)) == optional_text_member(document, "created_by"@)
    &&& Some(record.updated_at@) == text_member(document, "updated_at"@)
    &&& Some(opt_text(record.closed_at)) == optional_text_member(document, "closed_at"@)
    &&& Some(opt_text(record.close_reason)) == optional_text_member(document, "close_reason"@)
    &&& Some(opt_text(record.due_at)) == optional_text_member(document, "due_at"@)
    &&& Some(opt_text(record.defer_until)) == optional_text_member(document, "defer_until"@)
    &&& Some(opt_text(record.external_ref)) == optional_text_member(document, "external_ref"@)
    &&& Some(opt_text(record.source_system)) == optional_text_member(document, "source_system"@)
    &&& Some(opt_text(record.deleted_at)) == optional_text_member(document, "deleted_at"@)
    &&& Some(opt_text(record.deleted_by)) == optional_text_member(document, "deleted_by"@)
    &&& Some(opt_text(record.delete_reason)) == optional_text_member(document, "delete_reason"@)
    &&& Some(opt_text(record.original_type)) == optional_text_member(document, "original_type"@)
    &&& Some(opt_text(record.content_hash)) == optional_text_member(document, "content_hash"@)
}

/// Whether a record holds what a line holds: the line is JSON of the shape
/// of the export, and the record has its members.
pub open spec fn line_holds(line: Seq<char>, record: IssueRecord) -> bool {
    parsed_json(line) matches Some(document) && shaped(document) && holds_members(record, document)
}

/// The text member `key` of a JSON object; `None` where the object has none
/// or the member is no text.
fn text_at(object: &serde_json::Value, key: &str) -> (r: Option<String>)
    ensures
        opt_text(r) == text_member(json_view(*object), key@),
{
    match json_member(object, key) {
        Some(member) => json_text(member),
        None => None,
    }
}

/// The text member `key` of a JSON object, which may be absent or null; the
/// outer `None` is for a member that is something else than a text.
fn optional_text_at(object: &serde_json::Value, key: &str) -> (r: Option<Option<String>>)
    ensures
        match r {
            Some(text) => optional_text_member(json_view(*object), key@) == Some(opt_text(text)),
            None => optional_text_member(json_view(*object), key@) is None,
        },
{
    match json_member(object, key) {
        Some(member) => if json_is_null(member) {
            Some(None)
        } else {
            match json_text(member) {
                Some(text) => Some(Some(text)),
                None => None,
            }
        },
        None => Some(None),
    }
}

/// The integer member `key` of a JSON object, which may be absent or null;
/// the outer `None` is for a member that is something else than an integer.
fn optional_integer_at(object: &serde_json::Value, key: &str) -> (r: Option<Option<i64>>)
    ensures
        match r {
            Some(number) => optional_integer_member(json_view(*object), key@) == Some(opt_number(number)),
            None => optional_integer_member(json_view(*object), key@) is None,
        },
{
    match json_member(object, key) {
        Some(member) => if json_is_null(member) {
            Some(None)
        } else {
            match json_integer(member) {
                Some(number) => Some(Some(number)),
                None => None,
            }
        },
        None => Some(None),
    }
}

/// The items of the array member `key` of a JSON object; none for a member
/// that is absent or null.  `None` is for a member that is something else
/// than an array.
fn items_at<'a>(object: &'a serde_json::Value, key: &str) -> (r: Option<Option<&'a Vec<serde_json::Value>>>)
    ensures
        match r {
            Some(Some(items)) => items_member(json_view(*object), key@) == Some(views_of(items@)),
            Some(None) => items_member(json_view(*object), key@) == Some(Seq::<JsonData>::empty()),
            None => items_member(json_view(*object), key@) is None,
        },
{
    match json_member(object, key) {
        Some(member) => if json_is_null(member) {
            Some(None)
        } else {
            match json_items(member) {
                Some(items) => Some(Some(items)),
                None => None,
            }
        },
        None => Some(None),
    }
}

/// The labels of a JSON object: the texts of its array `labels`.
fn labels_in(object: &serde_json::Value) -> (r: Option<Vec<String>>)
    ensures
        match r {
            Some(labels) => labels_of(json_view(*object)) == Some(texts(labels@)),
            None => labels_of(json_view(*object)) is None,
        },
{
    let mut labels: Vec<String> = Vec::new();
    if let Some(items) = items_at(object, "labels")? {
        let ghost all = views_of(items@);
        let mut i: usize = 0;
        while i < items.len()
            invariant
                i <= items.len(),
                all == views_of(items@),
                items_member(json_view(*object), "labels"@) == Some(all),
                labels@.len() == i,
                forall|k: int| 0 <= k < i ==> text_of(#[trigger] all[k]) == Some(labels@[k]@),
            decreases items.len() - i,
        {
            assert(all[i as int] == json_view(items@[i as int]));
            match json_text(&items[i]) {
                Some(label) => {
                    labels.push(label);
                },
                None => {
                    return None;
                },
            }
            i = i + 1;
        }
        assert(texts(labels@) =~= Seq::new(all.len(), |k: int| text_of(all[k])->0));
    } else {
        assert(texts(labels@) =~= Seq::new(0, |k: int| text_of(Seq::<JsonData>::empty()[k])->0));
    }
    Some(labels)
}

/// The dependencies of a JSON object: the objects of its array
/// `dependencies`, each with an `id` and, as a rule, a `type`.
fn dependencies_in(object: &serde_json::Value) -> (r: Option<Vec<DependencyRecord>>)
    ensures
        match r {
            Some(list) => dependencies_of(json_view(*object)) == Some(dependency_records(list@)),
            None => dependencies_of(json_view(*object)) is None,
        },
{
    let mut dependencies: Vec<DependencyRecord> = Vec::new();
    if let Some(items) = items_at(object, "dependencies")? {
        let ghost all = views_of(items@);
        let mut i: usize = 0;
        while i < items.len()
            invariant
                i <= items.len(),
                all == views_of(items@),
                items_member(json_view(*object), "dependencies"@) == Some(all),
                dependencies@.len() == i,
                forall|k: int| 0 <= k < i ==> dependency_shaped(#[trigger] all[k]),
                forall|k: int|
                    0 <= k < i ==> (#[trigger] dependencies@[k]).id@ == text_member(all[k], "id"@)->0 && opt_text(
                        dependencies@[k].dep_type,
                    ) == optional_text_member(all[k], "type"@)->0,
            decreases items.len() - i,
        {
            assert(all[i as int] == json_view(items@[i as int]));
            let id: String = match text_at(&items[i], "id") {
                Some(id) => id,
                None => {
                    return None;
                },
            };
            let dep_type: Option<String> = match optional_text_at(&items[i], "type") {
                Some(dep_type) => dep_type,
                None => {
                    return None;
                },
            };
            dependencies.push(DependencyRecord { id, dep_type });
            i = i + 1;
        }
        assert(dependency_records(dependencies@) =~= Seq::new(
            all.len(),
            |k: int| (text_member(all[k], "id"@)->0, optional_text_member(all[k], "type"@)->0),
        ));
    } else {
        assert(dependency_records(dependencies@) =~= Seq::new(
            0,
            |k: int|
                (
                    text_member(Seq::<JsonData>::empty()[k], "id"@)->0,
                    optional_text_member(Seq::<JsonData>::empty()[k], "type"@)->0,
                ),
        ));
    }
    Some(dependencies)
}

/// The comments of a JSON object: the objects of its array `comments`, each
/// with an `author`, a `text` and a `created_at`, and as a rule an `id`.
fn comments_in(object: &serde_json::Value) -> (r: Option<Vec<CommentRecord>>)
    ensures
        match r {
            Some(list) => comments_of(json_view(*object)) == Some(comment_records(list@)),
            None => comments_of(json_view(*object)) is None,
        },
{
    let mut comments: Vec<CommentRecord> = Vec::new();
    if let Some(items) = items_at(object, "comments")? {
        let ghost all = views_of(items@);
        let mut i: usize = 0;
        while i < items.len()
            invariant
                i <= items.len(),
                all == views_of(items@),
                items_member(json_view(*object), "comments"@) == Some(all),
                comments@.len() == i,
                forall|k: int| 0 <= k < i ==> comment_shaped(#[trigger] all[k]),
                forall|k: int| 0 <= k < i ==> comment_records(comments@)[k] == comment_members(#[trigger] all[k]),
            decreases items.len() - i,
        {
            assert(all[i as int] == json_view(items@[i as int]));
            let ghost before = comments@;
            let id: Option<i64> = match optional_integer_at(&items[i], "id") {
                Some(id) => id,
                None => {
                    return None;
                },
            };
            let author: String = match text_at(&items[i], "author") {
                Some(author) => author,
                None => {
                    return None;
                },
            };
            let text: String = match text_at(&items[i], "text") {
                Some(text) => text,
                None => {
                    return None;
                },
            };
            let created_at: String = match text_at(&items[i], "created_at") {
                Some(created_at) => created_at,
                None => {
                    return None;
                },
            };
            comments.push(CommentRecord { id, author, text, created_at });
            proof {
                assert forall|k: int| 0 <= k < i + 1 implies comment_records(comments@)[k] == comment_members(
                    #[trigger] all[k],
                ) by {
                    if k < i {
                        assert(comments@[k] == before[k]);
                        assert(comment_records(before)[k] == comment_members(all[k]));
                    }
                }
            }
            i = i + 1;
        }
        assert(comment_records(comments@) =~= Seq::new(all.len(), |k: int| comment_members(all[k])));
    } else {
        assert(comment_records(comments@) =~= Seq::new(
            0,
            |k: int| comment_members(Seq::<JsonData>::empty()[k]),
        ));
    }
    Some(comments)
}

/// Takes the members of an issue out of a JSON document.  The document must
/// be an object with the texts `id`, `title`, `created_at` and `updated_at`;
/// every other member may be absent or null, and none may be of another kind
/// than the format gives it.  Members that the format does not know are
/// passed over.
fn record_of_json(object: &serde_json::Value) -> (r: Option<IssueRecord>)
    ensures
        match r {
            Some(record) => shaped(json_view(*object)) && holds_members(record, json_view(*object)),
            None => !shaped(json_view(*object)),
        },
{
    Some(
        IssueRecord {
            id: text_at(object, "id")?,
            title: text_at(object, "title")?,
            description: optional_text_at(object, "description")?,
            design: optional_text_at(object, "design")?,
            acceptance_criteria: optional_text_at(object, "acceptance_criteria")?,
            notes: optional_text_at(object, "notes")?,
            status: optional_text_at(object, "status")?,
            priority: optional_integer_at(object, "priority")?,
            issue_type: optional_text_at(object, "type")?,
            assignee: optional_text_at(object, "assignee")?,
            owner: optional_text_at(object, "owner")?,
            estimated_minutes: optional_integer_at(object, "estimated_minutes")?,
            labels: labels_in(object)?,
            dependencies: dependencies_in(object)?,
            comments: comments_in(object)?,
            created_at: text_at(object, "created_at")?,
            created_by: optional_text_at(object, "created_by")?,
            updated_at: text_at(object, "updated_at")?,
            closed_at: optional_text_at(object, "closed_at")?,
            close_reason: optional_text_at(object, "close_reason")?,
            due_at: optional_text_at(object, "due_at")?,
            defer_until: optional_text_at(object, "defer_until")?,
            external_ref: optional_text_at(object, "external_ref")?,
            source_system: optional_text_at(object, "source_system")?,
            deleted_at: optional_text_at(object, "deleted_at")?,
            deleted_by: optional_text_at(object, "deleted_by")?,
            delete_reason: optional_text_at(object, "delete_reason")?,
            original_type: optional_text_at(object, "original_type")?,
            content_hash: optional_text_at(object, "content_hash")?,
        },
    )
}

/// Reads a line of the export as a record: the record holds the members of
/// the line.  `None` where the line is not JSON or not an object of the
/// shape of the export.
pub fn record_of_line(line: &str) -> (r: Option<IssueRecord>)
    ensures
        match r {
            Some(record) => line_holds(line@, record),
            None => !(parsed_json(line@) matches Some(document) && shaped(document)),
        },
{
    let document = parse_json(line)?;
    record_of_json(&document)
}

/// Two records that hold the members of one document can both be read as an
/// issue, or neither can.
pub proof fn records_of_a_document_read_alike(a: IssueRecord, b: IssueRecord, document: JsonData)
    requires
        holds_members(a, document),
        holds_members(b, document),
    ensures
        readable(a) == readable(b),
{
    assert(dependency_records(a.dependencies@) == dependency_records(b.dependencies@));
    assert(comment_records(a.comments@) == comment_records(b.comments@));
    assert(dependency_records(a.dependencies@).len() == a.dependencies@.len());
    assert(dependency_records(b.dependencies@).len() == b.dependencies@.len());
    assert(comment_records(a.comments@).len() == a.comments@.len());
    assert(comment_records(b.comments@).len() == b.comments@.len());
    assert forall|i: int| 0 <= i < a.dependencies@.len() implies opt_text((#[trigger] a.dependencies@[i]).dep_type)
        == opt_text(b.dependencies@[i].dep_type) by {
        assert(dependency_records(a.dependencies@)[i] == dependency_records(b.dependencies@)[i]);
    }
    assert forall|i: int| 0 <= i < a.comments@.len() implies (#[trigger] a.comments@[i]).created_at@
        == b.comments@[i].created_at@ by {
        assert(comment_records(a.comments@)[i] == comment_records(b.comments@)[i]);
    }
    if readable(a) {
        assert forall|i: int| 0 <= i < b.dependencies@.len() implies DependencyType::named(
            opt_text((#[trigger] b.dependencies@[i]).dep_type),
        ) is Some by {
            assert(opt_text(a.dependencies@[i].dep_type) == opt_text(b.dependencies@[i].dep_type));
        }
        assert forall|i: int| 0 <= i < b.comments@.len() implies instant_of((#[trigger] b.comments@[i]).created_at@)
            is Some by {
            assert(a.comments@[i].created_at@ == b.comments@[i].created_at@);
        }
    }
    if readable(b) {
        assert forall|i: int| 0 <= i < a.dependencies@.len() implies DependencyType::named(
            opt_text((#[trigger] a.dependencies@[i]).dep_type),
        ) is Some by {
            assert(opt_text(a.dependencies@[i].dep_type) == opt_text(b.dependencies@[i].dep_type));
        }
        assert forall|i: int| 0 <= i < a.comments@.len() implies instant_of((#[trigger] a.comments@[i]).created_at@)
            is Some by {
            assert(a.comments@[i].created_at@ == b.comments@[i].created_at@);
        }
    }
}

/// Two records that hold the members of one document stand for the same
/// issue.
pub proof fn records_of_a_document_decode_alike(a: IssueRecord, b: IssueRecord, document: JsonData)
    requires
        holds_members(a, document),
        holds_members(b, document),
    ensures
        decoded(a) == decoded(b),
{
    assert(dependency_records(a.dependencies@).len() == a.dependencies@.len());
    assert(dependency_records(b.dependencies@).len() == b.dependencies@.len());
    assert(comment_records(a.comments@).len() == a.comments@.len());
    assert(comment_records(b.comments@).len() == b.comments@.len());
    assert forall|i: int| 0 <= i < a.dependencies@.len() implies dependency_of(
        a.id@,
        instant_of(a.updated_at@)->0,
        a.dependencies@[i],
    ) == dependency_of(b.id@, instant_of(b.updated_at@)->0, b.dependencies@[i]) by {
        assert(dependency_records(a.dependencies@)[i] == dependency_records(b.dependencies@)[i]);
    }
    assert forall|i: int| 0 <= i < a.comments@.len() implies comment_of(a.id@, a.comments@[i]) == comment_of(
        b.id@,
        b.comments@[i],
    ) by {
        assert(comment_records(a.comments@)[i] == comment_records(b.comments@)[i]);
    }
    assert(decoded(a).dependencies =~= decoded(b).dependencies);
    assert(decoded(a).comments =~= decoded(b).comments);
    assert(opt_number(a.priority) == opt_number(b.priority));
    assert(opt_number(a.estimated_minutes) == opt_number(b.estimated_minutes));
}

/// The issue that a line of the export stands for: the one that a record
/// stands for that holds the members of the line.  `None` for a malformed
/// line: one that is not JSON of the shape of the export, or that holds
/// what cannot be read as an issue.
pub open spec fn line_issue(line: Seq<char>) -> Option<IssueData> {
    if exists|record: IssueRecord| line_holds(line, record) && readable(record) {
        Some(decoded(choose|record: IssueRecord| line_holds(line, record) && readable(record)))
    } else {
        None
    }
}

/// Reads a line of the export as an issue: the issue that the line stands
/// for, `None` for a malformed line.
pub fn parse_line(line: &str) -> (r: Option<Issue>)
    ensures
        match r {
            Some(issue) => line_issue(line@) == Some(issue@),
            None => line_issue(line@) is None,
        },
{
    let record: IssueRecord = record_of_line(line)?;
    let issue: Option<Issue> = issue_of_record(&record);
    proof {
        if issue is None {
            assert forall|other: IssueRecord| line_holds(line@, other) implies !readable(other) by {
                records_of_a_document_read_alike(record, other, parsed_json(line@)->0);
            }
        } else {
            let chosen = choose|other: IssueRecord| line_holds(line@, other) && readable(other);
            records_of_a_document_decode_alike(record, chosen, parsed_json(line@)->0);
        }
    }
    issue
}

} // verus!
