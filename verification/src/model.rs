//! The records of the tracker: issues and the enumerations on them.

use vstd::prelude::*;
use crate::text::text_eq;
use crate::time::Timestamp;

verus! {

/// Where an issue stands in its life.
#[derive(Clone, Copy, Debug, PartialEq, Eq, Hash, Structural)]
pub enum Status {
    Open,
    InProgress,
    Blocked,
    Closed,
    Tombstone,
}

impl Status {
    /// The stored spelling of the status.
    pub open spec fn text(self) -> Seq<char> {
        match self {
            Status::Open => "open"@,
            Status::InProgress => "in_progress"@,
            Status::Blocked => "blocked"@,
            Status::Closed => "closed"@,
            Status::Tombstone => "tombstone"@,
        }
    }

    /// The status that a stored spelling names, if any.
    pub open spec fn from_text(s: Seq<char>) -> Option<Status> {
        if s == "open"@ {
            Some(Status::Open)
        } else if s == "in_progress"@ {
            Some(Status::InProgress)
        } else if s == "blocked"@ {
            Some(Status::Blocked)
        } else if s == "closed"@ {
            Some(Status::Closed)
        } else if s == "tombstone"@ {
            Some(Status::Tombstone)
        } else {
            None
        }
    }

    /// The value that an optional spelling names: `open` where there is no
    /// spelling, none where the spelling names none.
    pub open spec fn named(s: Option<Seq<char>>) -> Option<Status> {
        match s {
            Some(text) => Status::from_text(text),
            None => Some(Status::Open),
        }
    }

    /// Closed issues and tombstones are terminal: they block nothing and are never ready.
    pub open spec fn terminal(self) -> bool {
        self == Status::Closed || self == Status::Tombstone
    }

    pub fn as_str(&self) -> (r: &'static str)
        ensures
            r@ == self.text(),
    {
        match self {
            Status::Open => "open",
            Status::InProgress => "in_progress",
            Status::Blocked => "blocked",
            Status::Closed => "closed",
            Status::Tombstone => "tombstone",
        }
    }

    /// Reads a stored spelling; anything else is `None`.
    pub fn parse(s: &str) -> (r: Option<Status>)
        ensures
            r == Status::from_text(s@),
    {
        if text_eq(s, "open") {
            Some(Status::Open)
        } else if text_eq(s, "in_progress") {
            Some(Status::InProgress)
        } else if text_eq(s, "blocked") {
            Some(Status::Blocked)
        } else if text_eq(s, "closed") {
            Some(Status::Closed)
        } else if text_eq(s, "tombstone") {
            Some(Status::Tombstone)
        } else {
            None
        }
    }

    pub fn is_terminal(&self) -> (r: bool)
        ensures
            r == self.terminal(),
    {
        match self {
            Status::Closed | Status::Tombstone => true,
            _ => false,
        }
    }
}

impl Default for Status {
    fn default() -> (r: Status)
        ensures
            r == Status::Open,
    {
        Status::Open
    }
}

/// The spellings of the statuses differ, so a status can be read back from its spelling.
pub proof fn status_text_round_trip(s: Status)
    ensures
        Status::from_text(s.text()) == Some(s),
{
    reveal_strlit("open");
    reveal_strlit("in_progress");
    reveal_strlit("blocked");
    reveal_strlit("closed");
    reveal_strlit("tombstone");
    assert("open"@.len() == 4);
    assert("in_progress"@.len() == 11);
    assert("blocked"@.len() == 7);
    assert("closed"@.len() == 6);
    assert("tombstone"@.len() == 9);
}

/// The kind of work an issue stands for.
#[derive(Clone, Copy, Debug, PartialEq, Eq, Hash, Structural)]
pub enum IssueType {
    Task,
    Bug,
    Feature,
    Epic,
    Chore,
    Spike,
    Doc,
    Test,
    Other,
}

impl IssueType {
    /// The stored spelling.
    pub open spec fn text(self) -> Seq<char> {
        match self {
            IssueType::Task => "task"@,
            IssueType::Bug => "bug"@,
            IssueType::Feature => "feature"@,
            IssueType::Epic => "epic"@,
            IssueType::Chore => "chore"@,
            IssueType::Spike => "spike"@,
            IssueType::Doc => "doc"@,
            IssueType::Test => "test"@,
            IssueType::Other => "other"@,
        }
    }

    /// The value that a stored spelling names, if any.
    pub open spec fn from_text(s: Seq<char>) -> Option<IssueType> {
        if s == "task"@ {
            Some(IssueType::Task)
        } else if s == "bug"@ {
            Some(IssueType::Bug)
        } else if s == "feature"@ {
            Some(IssueType::Feature)
        } else if s == "epic"@ {
            Some(IssueType::Epic)
        } else if s == "chore"@ {
            Some(IssueType::Chore)
        } else if s == "spike"@ {
            Some(IssueType::Spike)
        } else if s == "doc"@ {
            Some(IssueType::Doc)
        } else if s == "test"@ {
            Some(IssueType::Test)
        } else if s == "other"@ {
            Some(IssueType::Other)
        } else {
            None
        }
    }

    /// The value that an optional spelling names: a task where there is no
    /// spelling, none where the spelling names none.
    pub open spec fn named(s: Option<Seq<char>>) -> Option<IssueType> {
        match s {
            Some(text) => IssueType::from_text(text),
            None => Some(IssueType::Task),
        }
    }

    pub fn as_str(&self) -> (r: &'static str)
        ensures
            r@ == self.text(),
    {
        match self {
            IssueType::Task => "task",
            IssueType::Bug => "bug",
            IssueType::Feature => "feature",
            IssueType::Epic => "epic",
            IssueType::Chore => "chore",
            IssueType::Spike => "spike",
            IssueType::Doc => "doc",
            IssueType::Test => "test",
            IssueType::Other => "other",
        }
    }

    /// Reads a stored spelling; anything else is `None`.
    pub fn parse(s: &str) -> (r: Option<IssueType>)
        ensures
            r == IssueType::from_text(s@),
    {
        if text_eq(s, "task") {
            Some(IssueType::Task)
        } else if text_eq(s, "bug") {
            Some(IssueType::Bug)
        } else if text_eq(s, "feature") {
            Some(IssueType::Feature)
        } else if text_eq(s, "epic") {
            Some(IssueType::Epic)
        } else if text_eq(s, "chore") {
            Some(IssueType::Chore)
        } else if text_eq(s, "spike") {
            Some(IssueType::Spike)
        } else if text_eq(s, "doc") {
            Some(IssueType::Doc)
        } else if text_eq(s, "test") {
            Some(IssueType::Test)
        } else if text_eq(s, "other") {
            Some(IssueType::Other)
        } else {
            None
        }
    }
}

impl Default for IssueType {
    fn default() -> (r: IssueType)
        ensures
            r == IssueType::Task,
    {
        IssueType::Task
    }
}

/// The spellings differ from one another, so a value can be read back from its spelling.
pub proof fn issue_type_text_round_trip(v: IssueType)
    ensures
        IssueType::from_text(v.text()) == Some(v),
{
    reveal_strlit("task");
    reveal_strlit("bug");
    reveal_strlit("feature");
    reveal_strlit("epic");
    reveal_strlit("chore");
    reveal_strlit("spike");
    reveal_strlit("doc");
    reveal_strlit("test");
    reveal_strlit("other");
    assert("task"@.len() == 4);
    assert("bug"@.len() == 3);
    assert("feature"@.len() == 7);
    assert("epic"@.len() == 4);
    assert("chore"@.len() == 5);
    assert("spike"@.len() == 5);
    assert("doc"@.len() == 3);
    assert("test"@.len() == 4);
    assert("other"@.len() == 5);
    assert("task"@[0] == 't' && "task"@[1] == 'a');
    assert("bug"@[0] == 'b' && "bug"@[1] == 'u');
    assert("feature"@[0] == 'f' && "feature"@[1] == 'e');
    assert("epic"@[0] == 'e' && "epic"@[1] == 'p');
    assert("chore"@[0] == 'c' && "chore"@[1] == 'h');
    assert("spike"@[0] == 's' && "spike"@[1] == 'p');
    assert("doc"@[0] == 'd' && "doc"@[1] == 'o');
    assert("test"@[0] == 't' && "test"@[1] == 'e');
    assert("other"@[0] == 'o' && "other"@[1] == 't');
}

/// Urgency from 0 (critical) to 4 (backlog).  The stored number is kept as it is;
/// `in_range` says whether it is one of the five.
#[derive(Clone, Copy, Debug, PartialEq, Eq, Hash, Structural)]
pub struct Priority(pub i32);

impl Priority {
    pub fn critical() -> (r: Priority)
        ensures
            r == Priority(0),
    {
        Priority(0)
    }

    pub fn high() -> (r: Priority)
        ensures
            r == Priority(1),
    {
        Priority(1)
    }

    pub fn medium() -> (r: Priority)
        ensures
            r == Priority(2),
    {
        Priority(2)
    }

    pub fn low() -> (r: Priority)
        ensures
            r == Priority(3),
    {
        Priority(3)
    }

    pub fn backlog() -> (r: Priority)
        ensures
            r == Priority(4),
    {
        Priority(4)
    }

    pub open spec fn in_range(self) -> bool {
        0 <= self.0 <= 4
    }

    /// A priority from its number, if the number is 0 to 4.
    pub fn new(level: i32) -> (r: Option<Priority>)
        ensures
            r == (if 0 <= level <= 4 { Some(Priority(level)) } else { None::<Priority> }),
    {
        if 0 <= level && level <= 4 {
            Some(Priority(level))
        } else {
            None
        }
    }
}

impl Default for Priority {
    fn default() -> (r: Priority)
        ensures
            r == Priority(2),
    {
        Priority(2)
    }
}

/// What a dependency edge means.  Only `blocks` edges bear on readiness.
#[derive(Clone, Copy, Debug, PartialEq, Eq, Hash, Structural)]
pub enum DependencyType {
    Blocks,
    ParentChild,
    Related,
    DiscoveredFrom,
}

impl DependencyType {
    /// The stored spelling.
    pub open spec fn text(self) -> Seq<char> {
        match self {
            DependencyType::Blocks => "blocks"@,
            DependencyType::ParentChild => "parent-child"@,
            DependencyType::Related => "related"@,
            DependencyType::DiscoveredFrom => "discovered-from"@,
        }
    }

    /// The value that a stored spelling names, if any.
    pub open spec fn from_text(s: Seq<char>) -> Option<DependencyType> {
        if s == "blocks"@ {
            Some(DependencyType::Blocks)
        } else if s == "parent-child"@ {
            Some(DependencyType::ParentChild)
        } else if s == "related"@ {
            Some(DependencyType::Related)
        } else if s == "discovered-from"@ {
            Some(DependencyType::DiscoveredFrom)
        } else {
            None
        }
    }

    /// The value that an optional spelling names: `blocks` where there is no
    /// spelling, none where the spelling names none.
    pub open spec fn named(s: Option<Seq<char>>) -> Option<DependencyType> {
        match s {
            Some(text) => DependencyType::from_text(text),
            None => Some(DependencyType::Blocks),
        }
    }

    pub fn as_str(&self) -> (r: &'static str)
        ensures
            r@ == self.text(),
    {
        match self {
            DependencyType::Blocks => "blocks",
            DependencyType::ParentChild => "parent-child",
            DependencyType::Related => "related",
            DependencyType::DiscoveredFrom => "discovered-from",
        }
    }

    /// Reads a stored spelling; anything else is `None`.
    pub fn parse(s: &str) -> (r: Option<DependencyType>)
        ensures
            r == DependencyType::from_text(s@),
    {
        if text_eq(s, "blocks") {
            Some(DependencyType::Blocks)
        } else if text_eq(s, "parent-child") {
            Some(DependencyType::ParentChild)
        } else if text_eq(s, "related") {
            Some(DependencyType::Related)
        } else if text_eq(s, "discovered-from") {
            Some(DependencyType::DiscoveredFrom)
        } else {
            None
        }
    }
}

impl Default for DependencyType {
    fn default() -> (r: DependencyType)
        ensures
            r == DependencyType::Blocks,
    {
        DependencyType::Blocks
    }
}

/// The spellings differ from one another, so a value can be read back from its spelling.
pub proof fn dependency_type_text_round_trip(v: DependencyType)
    ensures
        DependencyType::from_text(v.text()) == Some(v),
{
    reveal_strlit("blocks");
    reveal_strlit("parent-child");
    reveal_strlit("related");
    reveal_strlit("discovered-from");
    assert("blocks"@.len() == 6);
    assert("parent-child"@.len() == 12);
    assert("related"@.len() == 7);
    assert("discovered-from"@.len() == 15);
}

/// What an entry of the event journal records.
#[derive(Clone, Copy, Debug, PartialEq, Eq, Hash, Structural)]
pub enum EventType {
    Created,
    Updated,
    StatusChanged,
    PriorityChanged,
    Assigned,
    Closed,
    Reopened,
    Deleted,
    LabelAdded,
    LabelRemoved,
    DependencyAdded,
    DependencyRemoved,
    CommentAdded,
}

impl EventType {
    /// The stored spelling.
    pub open spec fn text(self) -> Seq<char> {
        match self {
            EventType::Created => "created"@,
            EventType::Updated => "updated"@,
            EventType::StatusChanged => "status_changed"@,
            EventType::PriorityChanged => "priority_changed"@,
            EventType::Assigned => "assigned"@,
            EventType::Closed => "closed"@,
            EventType::Reopened => "reopened"@,
            EventType::Deleted => "deleted"@,
            EventType::LabelAdded => "label_added"@,
            EventType::LabelRemoved => "label_removed"@,
            EventType::DependencyAdded => "dependency_added"@,
            EventType::DependencyRemoved => "dependency_removed"@,
            EventType::CommentAdded => "comment_added"@,
        }
    }

    /// The value that a stored spelling names, if any.
    pub open spec fn from_text(s: Seq<char>) -> Option<EventType> {
        if s == "created"@ {
            Some(EventType::Created)
        } else if s == "updated"@ {
            Some(EventType::Updated)
        } else if s == "status_changed"@ {
            Some(EventType::StatusChanged)
        } else if s == "priority_changed"@ {
            Some(EventType::PriorityChanged)
        } else if s == "assigned"@ {
            Some(EventType::Assigned)
        } else if s == "closed"@ {
            Some(EventType::Closed)
        } else if s == "reopened"@ {
            Some(EventType::Reopened)
        } else if s == "deleted"@ {
            Some(EventType::Deleted)
        } else if s == "label_added"@ {
            Some(EventType::LabelAdded)
        } else if s == "label_removed"@ {
            Some(EventType::LabelRemoved)
        } else if s == "dependency_added"@ {
            Some(EventType::DependencyAdded)
        } else if s == "dependency_removed"@ {
            Some(EventType::DependencyRemoved)
        } else if s == "comment_added"@ {
            Some(EventType::CommentAdded)
        } else {
            None
        }
    }

    pub fn as_str(&self) -> (r: &'static str)
        ensures
            r@ == self.text(),
    {
        match self {
            EventType::Created => "created",
            EventType::Updated => "updated",
            EventType::StatusChanged => "status_changed",
            EventType::PriorityChanged => "priority_changed",
            EventType::Assigned => "assigned",
            EventType::Closed => "closed",
            EventType::Reopened => "reopened",
            EventType::Deleted => "deleted",
            EventType::LabelAdded => "label_added",
            EventType::LabelRemoved => "label_removed",
            EventType::DependencyAdded => "dependency_added",
            EventType::DependencyRemoved => "dependency_removed",
            EventType::CommentAdded => "comment_added",
        }
    }

    /// Reads a stored spelling; anything else is `None`.
    pub fn parse(s: &str) -> (r: Option<EventType>)
        ensures
            r == EventType::from_text(s@),
    {
        if text_eq(s, "created") {
            Some(EventType::Created)
        } else if text_eq(s, "updated") {
            Some(EventType::Updated)
        } else if text_eq(s, "status_changed") {
            Some(EventType::StatusChanged)
        } else if text_eq(s, "priority_changed") {
            Some(EventType::PriorityChanged)
        } else if text_eq(s, "assigned") {
            Some(EventType::Assigned)
        } else if text_eq(s, "closed") {
            Some(EventType::Closed)
        } else if text_eq(s, "reopened") {
            Some(EventType::Reopened)
        } else if text_eq(s, "deleted") {
            Some(EventType::Deleted)
        } else if text_eq(s, "label_added") {
            Some(EventType::LabelAdded)
        } else if text_eq(s, "label_removed") {
            Some(EventType::LabelRemoved)
        } else if text_eq(s, "dependency_added") {
            Some(EventType::DependencyAdded)
        } else if text_eq(s, "dependency_removed") {
            Some(EventType::DependencyRemoved)
        } else if text_eq(s, "comment_added") {
            Some(EventType::CommentAdded)
        } else {
            None
        }
    }
}

/// The spellings differ from one another, so a value can be read back from its spelling.
pub proof fn event_type_text_round_trip(v: EventType)
    ensures
        EventType::from_text(v.text()) == Some(v),
{
    reveal_strlit("created");
    reveal_strlit("updated");
    reveal_strlit("status_changed");
    reveal_strlit("priority_changed");
    reveal_strlit("assigned");
    reveal_strlit("closed");
    reveal_strlit("reopened");
    reveal_strlit("deleted");
    reveal_strlit("label_added");
    reveal_strlit("label_removed");
    reveal_strlit("dependency_added");
    reveal_strlit("dependency_removed");
    reveal_strlit("comment_added");
    assert("created"@.len() == 7);
    assert("updated"@.len() == 7);
    assert("status_changed"@.len() == 14);
    assert("priority_changed"@.len() == 16);
    assert("assigned"@.len() == 8);
    assert("closed"@.len() == 6);
    assert("reopened"@.len() == 8);
    assert("deleted"@.len() == 7);
    assert("label_added"@.len() == 11);
    assert("label_removed"@.len() == 13);
    assert("dependency_added"@.len() == 16);
    assert("dependency_removed"@.len() == 18);
    assert("comment_added"@.len() == 13);
    assert("created"@[0] == 'c' && "created"@[1] == 'r');
    assert("updated"@[0] == 'u' && "updated"@[1] == 'p');
    assert("status_changed"@[0] == 's' && "status_changed"@[1] == 't');
    assert("priority_changed"@[0] == 'p' && "priority_changed"@[1] == 'r');
    assert("assigned"@[0] == 'a' && "assigned"@[1] == 's');
    assert("closed"@[0] == 'c' && "closed"@[1] == 'l');
    assert("reopened"@[0] == 'r' && "reopened"@[1] == 'e');
    assert("deleted"@[0] == 'd' && "deleted"@[1] == 'e');
    assert("label_added"@[0] == 'l' && "label_added"@[1] == 'a');
    assert("label_removed"@[0] == 'l' && "label_removed"@[1] == 'a');
    assert("dependency_added"@[0] == 'd' && "dependency_added"@[1] == 'e');
    assert("dependency_removed"@[0] == 'd' && "dependency_removed"@[1] == 'e');
    assert("comment_added"@[0] == 'c' && "comment_added"@[1] == 'o');
}

/// The characters of an optional text.
pub open spec fn opt_text(value: Option<String>) -> Option<Seq<char>> {
    match value {
        Some(s) => Some(s@),
        None => None,
    }
}

/// The characters of each text of a list.
pub open spec fn texts(list: Seq<String>) -> Seq<Seq<char>> {
    Seq::new(list.len(), |i: int| list[i]@)
}

/// A directed edge: `issue_id` depends on `depends_on_id`.
#[derive(Debug, Clone)]
pub struct Dependency {
    pub issue_id: String,
    pub depends_on_id: String,
    pub dep_type: DependencyType,
    pub created_at: Timestamp,
    pub created_by: Option<String>,
}

/// The mathematical content of a [`Dependency`].
pub struct DependencyData {
    pub issue_id: Seq<char>,
    pub depends_on_id: Seq<char>,
    pub dep_type: DependencyType,
    pub created_at: Timestamp,
    pub created_by: Option<Seq<char>>,
}

impl View for Dependency {
    type V = DependencyData;

    open spec fn view(&self) -> DependencyData {
        DependencyData {
            issue_id: self.issue_id@,
            depends_on_id: self.depends_on_id@,
            dep_type: self.dep_type,
            created_at: self.created_at,
            created_by: opt_text(self.created_by),
        }
    }
}

impl Dependency {
    /// A copy of the dependency.
    pub fn copy(&self) -> (r: Dependency)
        ensures
            r@ == self@,
    {
        Dependency {
            issue_id: self.issue_id.clone(),
            depends_on_id: self.depends_on_id.clone(),
            dep_type: self.dep_type,
            created_at: self.created_at,
            created_by: self.created_by.clone(),
        }
    }
}

/// A remark on an issue.  Comments are only ever added.
#[derive(Debug, Clone)]
pub struct Comment {
    pub id: i64,
    pub issue_id: String,
    pub author: String,
    pub body: String,
    pub created_at: Timestamp,
}

/// The mathematical content of a [`Comment`].
pub struct CommentData {
    pub id: int,
    pub issue_id: Seq<char>,
    pub author: Seq<char>,
    pub body: Seq<char>,
    pub created_at: Timestamp,
}

impl View for Comment {
    type V = CommentData;

    open spec fn view(&self) -> CommentData {
        CommentData {
            id: self.id as int,
            issue_id: self.issue_id@,
            author: self.author@,
            body: self.body@,
            created_at: self.created_at,
        }
    }
}

impl Comment {
    /// A copy of the comment.
    pub fn copy(&self) -> (r: Comment)
        ensures
            r@ == self@,
    {
        Comment {
            id: self.id,
            issue_id: self.issue_id.clone(),
            author: self.author.clone(),
            body: self.body.clone(),
            created_at: self.created_at,
        }
    }
}

/// One entry of the append-only journal.
#[derive(Debug, Clone)]
pub struct Event {
    /// Assigned by the database; 0 until the event is written.
    pub id: i64,
    pub issue_id: String,
    pub event_type: EventType,
    pub actor: String,
    pub old_value: Option<String>,
    pub new_value: Option<String>,
    pub comment: Option<String>,
    pub created_at: Timestamp,
}

/// The mathematical content of an [`Event`].
pub struct EventData {
    pub id: int,
    pub issue_id: Seq<char>,
    pub event_type: EventType,
    pub actor: Seq<char>,
    pub old_value: Option<Seq<char>>,
    pub new_value: Option<Seq<char>>,
    pub comment: Option<Seq<char>>,
    pub created_at: Timestamp,
}

impl View for Event {
    type V = EventData;

    open spec fn view(&self) -> EventData {
        EventData {
            id: self.id as int,
            issue_id: self.issue_id@,
            event_type: self.event_type,
            actor: self.actor@,
            old_value: opt_text(self.old_value),
            new_value: opt_text(self.new_value),
            comment: opt_text(self.comment),
            created_at: self.created_at,
        }
    }
}

/// A tracked work item.
#[derive(Debug, Clone)]
pub struct Issue {
    pub id: String,
    pub content_hash: Option<String>,
    pub title: String,
    pub description: Option<String>,
    pub design: Option<String>,
    pub acceptance_criteria: Option<String>,
    pub notes: Option<String>,
    pub status: Status,
    pub priority: Priority,
    pub issue_type: IssueType,
    pub assignee: Option<String>,
    pub owner: Option<String>,
    pub estimated_minutes: Option<i32>,
    pub created_at: Timestamp,
    pub created_by: Option<String>,
    pub updated_at: Timestamp,
    pub closed_at: Option<Timestamp>,
    pub close_reason: Option<String>,
    pub closed_by_session: Option<String>,
    pub due_at: Option<Timestamp>,
    pub defer_until: Option<Timestamp>,
    pub external_ref: Option<String>,
    pub source_system: Option<String>,
    pub deleted_at: Option<Timestamp>,
    pub deleted_by: Option<String>,
    pub delete_reason: Option<String>,
    pub original_type: Option<String>,
    pub compaction_level: Option<i32>,
    pub compacted_at: Option<Timestamp>,
    pub compacted_at_commit: Option<String>,
    pub original_size: Option<i32>,
    pub sender: Option<String>,
    pub ephemeral: bool,
    pub pinned: bool,
    pub is_template: bool,
    /// Loaded separately; empty on a bare issue.
    pub labels: Vec<String>,
    /// Loaded separately; empty on a bare issue.
    pub dependencies: Vec<Dependency>,
    /// Loaded separately; empty on a bare issue.
    pub comments: Vec<Comment>,
}

/// The mathematical content of an [`Issue`].
pub struct IssueData {
    pub id: Seq<char>,
    pub content_hash: Option<Seq<char>>,
    pub title: Seq<char>,
    pub description: Option<Seq<char>>,
    pub design: Option<Seq<char>>,
    pub acceptance_criteria: Option<Seq<char>>,
    pub notes: Option<Seq<char>>,
    pub status: Status,
    pub priority: Priority,
    pub issue_type: IssueType,
    pub assignee: Option<Seq<char>>,
    pub owner: Option<Seq<char>>,
    pub estimated_minutes: Option<i32>,
    pub created_at: Timestamp,
    pub created_by: Option<Seq<char>>,
    pub updated_at: Timestamp,
    pub closed_at: Option<Timestamp>,
    pub close_reason: Option<Seq<char>>,
    pub closed_by_session: Option<Seq<char>>,
    pub due_at: Option<Timestamp>,
    pub defer_until: Option<Timestamp>,
    pub external_ref: Option<Seq<char>>,
    pub source_system: Option<Seq<char>>,
    pub deleted_at: Option<Timestamp>,
    pub deleted_by: Option<Seq<char>>,
    pub delete_reason: Option<Seq<char>>,
    pub original_type: Option<Seq<char>>,
    pub compaction_level: Option<i32>,
    pub compacted_at: Option<Timestamp>,
    pub compacted_at_commit: Option<Seq<char>>,
    pub original_size: Option<i32>,
    pub sender: Option<Seq<char>>,
    pub ephemeral: bool,
    pub pinned: bool,
    pub is_template: bool,
    pub labels: Seq<Seq<char>>,
    pub dependencies: Seq<DependencyData>,
    pub comments: Seq<CommentData>,
}

impl View for Issue {
    type V = IssueData;

    open spec fn view(&self) -> IssueData {
        IssueData {
            id: self.id@,
            content_hash: opt_text(self.content_hash),
            title: self.title@,
            description: opt_text(self.description),
            design: opt_text(self.design),
            acceptance_criteria: opt_text(self.acceptance_criteria),
            notes: opt_text(self.notes),
            status: self.status,
            priority: self.priority,
            issue_type: self.issue_type,
            assignee: opt_text(self.assignee),
            owner: opt_text(self.owner),
            estimated_minutes: self.estimated_minutes,
            created_at: self.created_at,
            created_by: opt_text(self.created_by),
            updated_at: self.updated_at,
            closed_at: self.closed_at,
            close_reason: opt_text(self.close_reason),
            closed_by_session: opt_text(self.closed_by_session),
            due_at: self.due_at,
            defer_until: self.defer_until,
            external_ref: opt_text(self.external_ref),
            source_system: opt_text(self.source_system),
            deleted_at: self.deleted_at,
            deleted_by: opt_text(self.deleted_by),
            delete_reason: opt_text(self.delete_reason),
            original_type: opt_text(self.original_type),
            compaction_level: self.compaction_level,
            compacted_at: self.compacted_at,
            compacted_at_commit: opt_text(self.compacted_at_commit),
            original_size: self.original_size,
            sender: opt_text(self.sender),
            ephemeral: self.ephemeral,
            pinned: self.pinned,
            is_template: self.is_template,
            labels: texts(self.labels@),
            dependencies: Seq::new(self.dependencies@.len(), |i: int| self.dependencies@[i]@),
            comments: Seq::new(self.comments@.len(), |i: int| self.comments@[i]@),
        }
    }
}

impl IssueData {
    /// A tombstone has all four deletion fields; any other issue has none.
    pub open spec fn tombstone_consistent(self) -> bool {
        if self.status == Status::Tombstone {
            self.deleted_at is Some && self.deleted_by is Some && self.delete_reason is Some
                && self.original_type is Some
        } else {
            self.deleted_at is None && self.deleted_by is None && self.delete_reason is None
                && self.original_type is None
        }
    }

    /// Labels, dependencies and comments are not loaded.
    pub open spec fn bare(self) -> bool {
        self.labels.len() == 0 && self.dependencies.len() == 0 && self.comments.len() == 0
    }

    /// The issue that starts out under `id` and `title` at `now`: open, of
    /// priority 2, a task, with nothing else set.
    pub open spec fn fresh(id: Seq<char>, title: Seq<char>, now: Timestamp) -> IssueData {
        IssueData {
            id,
            content_hash: None,
            title,
            description: None,
            design: None,
            acceptance_criteria: None,
            notes: None,
            status: Status::Open,
            priority: Priority(2),
            issue_type: IssueType::Task,
            assignee: None,
            owner: None,
            estimated_minutes: None,
            created_at: now,
            created_by: None,
            updated_at: now,
            closed_at: None,
            close_reason: None,
            closed_by_session: None,
            due_at: None,
            defer_until: None,
            external_ref: None,
            source_system: None,
            deleted_at: None,
            deleted_by: None,
            delete_reason: None,
            original_type: None,
            compaction_level: None,
            compacted_at: None,
            compacted_at_commit: None,
            original_size: None,
            sender: None,
            ephemeral: false,
            pinned: false,
            is_template: false,
            labels: Seq::empty(),
            dependencies: Seq::empty(),
            comments: Seq::empty(),
        }
    }

    /// The issue as a tombstone: deleted at `now` by `actor` for `reason`, with
    /// its type kept for an undelete.
    pub open spec fn deleted(self, actor: Seq<char>, reason: Seq<char>, now: Timestamp) -> IssueData {
        IssueData {
            status: Status::Tombstone,
            deleted_at: Some(now),
            deleted_by: Some(actor),
            delete_reason: Some(reason),
            original_type: Some(self.issue_type.text()),
            updated_at: now,
            ..self
        }
    }

    /// The tombstone brought back: open again, under the type it had, with
    /// the deletion fields cleared.
    pub open spec fn restored(self, now: Timestamp) -> IssueData {
        IssueData {
            status: Status::Open,
            issue_type: match self.original_type {
                Some(t) => match IssueType::from_text(t) {
                    Some(issue_type) => issue_type,
                    None => self.issue_type,
                },
                None => self.issue_type,
            },
            deleted_at: None,
            deleted_by: None,
            delete_reason: None,
            original_type: None,
            closed_at: None,
            updated_at: now,
            ..self
        }
    }
}

/// A copy of an optional text.
pub fn copy_text(text: &Option<String>) -> (r: Option<String>)
    ensures
        opt_text(r) == opt_text(*text),
{
    match text {
        Some(t) => Some(t.clone()),
        None => None,
    }
}

/// A copy of a list of dependencies.
pub fn copy_dependencies(list: &Vec<Dependency>) -> (r: Vec<Dependency>)
    ensures
        Seq::new(r@.len(), |i: int| r@[i]@) == Seq::new(list@.len(), |i: int| list@[i]@),
{
    let mut out: Vec<Dependency> = Vec::new();
    let mut i: usize = 0;
    while i < list.len()
        invariant
            i <= list.len(),
            out@.len() == i,
            forall|j: int| 0 <= j < i ==> (#[trigger] out@[j])@ == list@[j]@,
        decreases list.len() - i,
    {
        out.push(list[i].copy());
        i = i + 1;
    }
    assert(Seq::new(out@.len(), |i: int| out@[i]@) =~= Seq::new(list@.len(), |i: int| list@[i]@));
    out
}

/// A copy of a list of comments.
pub fn copy_comments(list: &Vec<Comment>) -> (r: Vec<Comment>)
    ensures
        Seq::new(r@.len(), |i: int| r@[i]@) == Seq::new(list@.len(), |i: int| list@[i]@),
{
    let mut out: Vec<Comment> = Vec::new();
    let mut i: usize = 0;
    while i < list.len()
        invariant
            i <= list.len(),
            out@.len() == i,
            forall|j: int| 0 <= j < i ==> (#[trigger] out@[j])@ == list@[j]@,
        decreases list.len() - i,
    {
        out.push(list[i].copy());
        i = i + 1;
    }
    assert(Seq::new(out@.len(), |i: int| out@[i]@) =~= Seq::new(list@.len(), |i: int| list@[i]@));
    out
}

impl Issue {
    /// A new issue with the defaults: open, priority 2, a task, created and
    /// updated at `now`, everything else empty.
    pub fn new(id: &str, title: &str, now: Timestamp) -> (r: Issue)
        ensures
            r@ == IssueData::fresh(id@, title@, now),
    {
        let r = Issue {
            id: id.to_owned(),
            content_hash: None,
            title: title.to_owned(),
            description: None,
            design: None,
            acceptance_criteria: None,
            notes: None,
            status: Status::Open,
            priority: Priority(2),
            issue_type: IssueType::Task,
            assignee: None,
            owner: None,
            estimated_minutes: None,
            created_at: now,
            created_by: None,
            updated_at: now,
            closed_at: None,
            close_reason: None,
            closed_by_session: None,
            due_at: None,
            defer_until: None,
            external_ref: None,
            source_system: None,
            deleted_at: None,
            deleted_by: None,
            delete_reason: None,
            original_type: None,
            compaction_level: None,
            compacted_at: None,
            compacted_at_commit: None,
            original_size: None,
            sender: None,
            ephemeral: false,
            pinned: false,
            is_template: false,
            labels: Vec::new(),
            dependencies: Vec::new(),
            comments: Vec::new(),
        };
        assert(r@.labels =~= Seq::empty());
        assert(r@.dependencies =~= Seq::empty());
        assert(r@.comments =~= Seq::empty());
        r
    }

    /// A copy of the issue, with its labels, dependencies and comments.
    pub fn copy(&self) -> (r: Issue)
        ensures
            r@ == self@,
    {
        let dependencies: Vec<Dependency> = copy_dependencies(&self.dependencies);
        let comments: Vec<Comment> = copy_comments(&self.comments);
        let labels: Vec<String> = self.labels.clone();
        assert(texts(labels@) =~= texts(self.labels@));
        let r = Issue {
            id: self.id.clone(),
            content_hash: copy_text(&self.content_hash),
            title: self.title.clone(),
            description: copy_text(&self.description),
            design: copy_text(&self.design),
            acceptance_criteria: copy_text(&self.acceptance_criteria),
            notes: copy_text(&self.notes),
            status: self.status,
            priority: self.priority,
            issue_type: self.issue_type,
            assignee: copy_text(&self.assignee),
            owner: copy_text(&self.owner),
            estimated_minutes: self.estimated_minutes,
            created_at: self.created_at,
            created_by: copy_text(&self.created_by),
            updated_at: self.updated_at,
            closed_at: self.closed_at,
            close_reason: copy_text(&self.close_reason),
            closed_by_session: copy_text(&self.closed_by_session),
            due_at: self.due_at,
            defer_until: self.defer_until,
            external_ref: copy_text(&self.external_ref),
            source_system: copy_text(&self.source_system),
            deleted_at: self.deleted_at,
            deleted_by: copy_text(&self.deleted_by),
            delete_reason: copy_text(&self.delete_reason),
            original_type: copy_text(&self.original_type),
            compaction_level: self.compaction_level,
            compacted_at: self.compacted_at,
            compacted_at_commit: copy_text(&self.compacted_at_commit),
            original_size: self.original_size,
            sender: copy_text(&self.sender),
            ephemeral: self.ephemeral,
            pinned: self.pinned,
            is_template: self.is_template,
            labels,
            dependencies,
            comments,
        };
        r
    }

    /// Whether the deletion fields fit the status.
    pub fn is_tombstone_consistent(&self) -> (r: bool)
        ensures
            r == self@.tombstone_consistent(),
    {
        match self.status {
            Status::Tombstone => self.deleted_at.is_some() && self.deleted_by.is_some()
                && self.delete_reason.is_some() && self.original_type.is_some(),
            _ => self.deleted_at.is_none() && self.deleted_by.is_none() && self.delete_reason.is_none()
                && self.original_type.is_none(),
        }
    }

    /// Turns the issue into a tombstone.
    pub fn mark_deleted(&mut self, actor: &str, reason: &str, now: Timestamp)
        ensures
            final(self)@ == old(self)@.deleted(actor@, reason@, now),
    {
        self.original_type = Some(self.issue_type.as_str().to_owned());
        self.status = Status::Tombstone;
        self.deleted_at = Some(now);
        self.deleted_by = Some(actor.to_owned());
        self.delete_reason = Some(reason.to_owned());
        self.updated_at = now;
    }

    /// Brings a tombstone back.
    pub fn restore(&mut self, now: Timestamp)
        ensures
            final(self)@ == old(self)@.restored(now),
    {
        let kept: Option<IssueType> = match &self.original_type {
            Some(t) => IssueType::parse(t.as_str()),
            None => None,
        };
        match kept {
            Some(issue_type) => {
                self.issue_type = issue_type;
            },
            None => {},
        }
        self.status = Status::Open;
        self.deleted_at = None;
        self.deleted_by = None;
        self.delete_reason = None;
        self.original_type = None;
        self.closed_at = None;
        self.updated_at = now;
    }
}

/// A deleted issue has all four deletion fields, whatever it was before.
pub proof fn deleted_issue_is_consistent(issue: IssueData, actor: Seq<char>, reason: Seq<char>, now: Timestamp)
    ensures
        issue.deleted(actor, reason, now).tombstone_consistent(),
        issue.deleted(actor, reason, now).status == Status::Tombstone,
{
}

/// A restored issue has none of the deletion fields, whatever it was before.
pub proof fn restored_issue_is_consistent(issue: IssueData, now: Timestamp)
    ensures
        issue.restored(now).tombstone_consistent(),
        issue.restored(now).status != Status::Tombstone,
{
}

/// Deleting an issue and bringing it back gives it the type it had.
pub proof fn restore_brings_back_the_type(issue: IssueData, actor: Seq<char>, reason: Seq<char>, deleted_at: Timestamp, now: Timestamp)
    ensures
        issue.deleted(actor, reason, deleted_at).restored(now).issue_type == issue.issue_type,
{
    issue_type_text_round_trip(issue.issue_type);
}

} // verus!
