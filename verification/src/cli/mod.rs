//! The arguments of the command line, as plain data, and what the engine
//! makes of them.

pub mod input;
pub mod version;

use vstd::prelude::*;
use crate::error::{BeadsError, invalid_argument};
use crate::model::{IssueType, Priority, Status, opt_text, texts};
use crate::storage::query::{Grouping, ListFilters, SortKey};
use crate::text::text_eq;
use crate::time::Timestamp;

verus! {

/// Agent-first issue tracker (`SQLite` + JSONL)
#[derive(Debug)]
pub struct Cli {
    pub command: Commands,
    /// Database path (auto-discover .beads/*.db if not set)
    pub db: Option<String>,
    /// Actor name for audit trail
    pub actor: Option<String>,
    /// Output as JSON
    pub json: bool,
    /// Force direct mode (no daemon)
    pub no_daemon: bool,
    /// Skip auto JSONL export
    pub no_auto_flush: bool,
    /// Skip auto import check
    pub no_auto_import: bool,
    /// Allow stale DB (bypass freshness check warning)
    pub allow_stale: bool,
    /// `SQLite` busy timeout in ms
    pub lock_timeout: Option<u64>,
    /// JSONL-only mode (no DB connection)
    pub no_db: bool,
    /// Increase logging verbosity
    pub verbose: u8,
    /// Quiet mode (no output except errors)
    pub quiet: bool,
}

#[derive(Debug)]
#[allow(inconsistent_fields)]
pub enum Commands {
    /// Initialize a beads workspace
    Init { prefix: Option<String>, force: bool, backend: Option<String> },
    /// Create a new issue
    Create(CreateArgs),
    /// Quick capture (create issue, print ID only)
    Q(QuickArgs),
    /// List issues
    List(ListArgs),
    /// Show issue details
    Show { ids: Vec<String> },
    /// Update an issue
    Update { ids: Vec<String> },
    /// Close an issue
    Close { ids: Vec<String> },
    /// Reopen an issue
    Reopen { ids: Vec<String> },
    /// Delete an issue (creates tombstone)
    Delete(DeleteArgs),
    /// List ready issues
    Ready,
    /// List blocked issues
    Blocked,
    /// Search issues
    Search(SearchArgs),
    /// Manage dependencies
    Dep { command: DepCommands },
    /// Manage labels
    Label { command: LabelCommands },
    /// Manage comments
    Comments { command: CommentCommands },
    /// Show project statistics
    Stats,
    /// Alias for stats
    Status,
    /// Count issues with optional grouping
    Count(CountArgs),
    /// Configuration management
    Config,
    /// Sync with JSONL
    Sync { flush_only: bool, import_only: bool },
    /// Run read-only diagnostics
    Doctor,
    /// Show version information
    Version,
}

#[derive(Debug)]
pub struct CreateArgs {
    /// Issue title
    pub title: Option<String>,
    /// Issue title (alternative flag)
    pub title_flag: Option<String>,
    /// Issue type (task, bug, feature, etc.)
    pub type_: Option<String>,
    /// Priority (0-4 or P0-P4)
    pub priority: Option<String>,
    /// Description
    pub description: Option<String>,
}

#[derive(Debug)]
pub struct QuickArgs {
    /// Issue title words
    pub title: Vec<String>,
    /// Priority (0-4 or P0-P4)
    pub priority: Option<String>,
    /// Issue type (task, bug, feature, etc.)
    pub type_: Option<String>,
    /// Labels to apply
    pub labels: Vec<String>,
}

#[derive(Debug)]
pub struct DeleteArgs {
    /// Issue IDs to delete
    pub ids: Vec<String>,
    /// Delete reason (default: "delete")
    pub reason: String,
    /// Read IDs from file (one per line, # comments ignored)
    pub from_file: Option<String>,
    /// Delete dependents recursively
    pub cascade: bool,
    /// Bypass dependent checks (orphans dependents)
    pub force: bool,
    /// Prune tombstones from JSONL immediately
    pub hard: bool,
    /// Preview only, no changes
    pub dry_run: bool,
}

/// Arguments for the list command.
#[derive(Debug, Default)]
pub struct ListArgs {
    /// Filter by status (can be repeated)
    pub status: Vec<String>,
    /// Filter by issue type (can be repeated)
    pub type_: Vec<String>,
    /// Filter by assignee
    pub assignee: Option<String>,
    /// Filter for unassigned issues only
    pub unassigned: bool,
    /// Filter by specific IDs (can be repeated)
    pub id: Vec<String>,
    /// Filter by label (AND logic, can be repeated)
    pub label: Vec<String>,
    /// Filter by label (OR logic, can be repeated)
    pub label_any: Vec<String>,
    /// Filter by priority (can be repeated)
    pub priority: Vec<u8>,
    /// Filter by minimum priority (0=critical, 4=backlog)
    pub priority_min: Option<u8>,
    /// Filter by maximum priority
    pub priority_max: Option<u8>,
    /// Title contains substring
    pub title_contains: Option<String>,
    /// Description contains substring
    pub desc_contains: Option<String>,
    /// Notes contains substring
    pub notes_contains: Option<String>,
    /// Include closed issues (default excludes closed)
    pub all: bool,
    /// Maximum number of results (0 = unlimited, default: 50)
    pub limit: Option<usize>,
    /// Sort field (`priority`, `created_at`, `updated_at`, `title`)
    pub sort: Option<String>,
    /// Reverse sort order
    pub reverse: bool,
    /// Include deferred issues
    pub deferred: bool,
    /// Filter for overdue issues
    pub overdue: bool,
    /// Use long output format
    pub long: bool,
    /// Use tree/pretty output format
    pub pretty: bool,
}

/// Arguments for the search command.
#[derive(Debug, Default)]
pub struct SearchArgs {
    /// Search query
    pub query: String,
    pub filters: ListArgs,
}

#[derive(Debug)]
pub enum DepCommands {
    Add,
    Remove,
    List,
    Tree,
    Cycles,
}

#[derive(Debug)]
pub enum LabelCommands {
    Add,
    Remove,
    List,
    ListAll,
}

#[derive(Debug)]
pub enum CommentCommands {
    Add,
    List,
}

#[derive(Debug, Clone)]
pub struct CountArgs {
    /// Group counts by field
    pub by: Option<CountBy>,
    /// Filter by status
    pub status: Vec<String>,
    /// Filter by issue type
    pub types: Vec<String>,
    /// Filter by priority (0-4 or P0-P4)
    pub priority: Vec<String>,
    /// Filter by assignee
    pub assignee: Option<String>,
    /// Only include unassigned issues
    pub unassigned: bool,
    /// Include closed and tombstone issues
    pub include_closed: bool,
    /// Include template issues
    pub include_templates: bool,
    /// Title contains substring
    pub title_contains: Option<String>,
}

#[derive(Debug, Clone, Copy, PartialEq, Eq, Structural)]
pub enum CountBy {
    Status,
    Priority,
    Type,
    Assignee,
    Label,
}

/// The number of results that a listing shows where none is asked for.
pub const DEFAULT_LIMIT: usize = 50;

/// The priority that an argument spells: `0` to `4`, or the same after a `P`
/// or a `p`.
pub open spec fn spelled_priority(text: Seq<char>) -> Option<Priority> {
    let digits = if text.len() == 2 && (text[0] == 'P' || text[0] == 'p') {
        text.subrange(1, 2)
    } else {
        text
    };
    if digits == seq!['0'] {
        Some(Priority(0))
    } else if digits == seq!['1'] {
        Some(Priority(1))
    } else if digits == seq!['2'] {
        Some(Priority(2))
    } else if digits == seq!['3'] {
        Some(Priority(3))
    } else if digits == seq!['4'] {
        Some(Priority(4))
    } else {
        None
    }
}

/// Reads a priority argument.
pub fn parse_priority(text: &str) -> (r: Option<Priority>)
    ensures
        r == spelled_priority(text@),
{
    let n: usize = text.unicode_len();
    let digit: char = if n == 1 {
        text.get_char(0)
    } else if n == 2 {
        let first: char = text.get_char(0);
        if first == 'P' || first == 'p' {
            text.get_char(1)
        } else {
            return None;
        }
    } else {
        return None;
    };
    proof {
        let digits = if n == 2 {
            text@.subrange(1, 2)
        } else {
            text@
        };
        assert(digits.len() == 1);
        assert(digits =~= seq![digit]);
        assert(seq![digit] == seq!['0'] <==> digit == '0') by {
            if seq![digit] == seq!['0'] {
                assert(seq![digit][0] == seq!['0'][0]);
            }
        }
        assert(seq![digit] == seq!['1'] <==> digit == '1') by {
            if seq![digit] == seq!['1'] {
                assert(seq![digit][0] == seq!['1'][0]);
            }
        }
        assert(seq![digit] == seq!['2'] <==> digit == '2') by {
            if seq![digit] == seq!['2'] {
                assert(seq![digit][0] == seq!['2'][0]);
            }
        }
        assert(seq![digit] == seq!['3'] <==> digit == '3') by {
            if seq![digit] == seq!['3'] {
                assert(seq![digit][0] == seq!['3'][0]);
            }
        }
        assert(seq![digit] == seq!['4'] <==> digit == '4') by {
            if seq![digit] == seq!['4'] {
                assert(seq![digit][0] == seq!['4'][0]);
            }
        }
    }
    if digit == '0' {
        Some(Priority(0))
    } else if digit == '1' {
        Some(Priority(1))
    } else if digit == '2' {
        Some(Priority(2))
    } else if digit == '3' {
        Some(Priority(3))
    } else if digit == '4' {
        Some(Priority(4))
    } else {
        None
    }
}

/// Whether every text spells a status.
pub open spec fn all_statuses(list: Seq<Seq<char>>) -> bool {
    forall|i: int| 0 <= i < list.len() ==> Status::from_text(#[trigger] list[i]) is Some
}

/// The statuses that the texts spell.
pub open spec fn statuses_of(list: Seq<Seq<char>>) -> Seq<Status> {
    Seq::new(list.len(), |i: int| Status::from_text(list[i])->Some_0)
}

/// Whether every text spells an issue type.
pub open spec fn all_types(list: Seq<Seq<char>>) -> bool {
    forall|i: int| 0 <= i < list.len() ==> IssueType::from_text(#[trigger] list[i]) is Some
}

/// The issue types that the texts spell.
pub open spec fn types_of(list: Seq<Seq<char>>) -> Seq<IssueType> {
    Seq::new(list.len(), |i: int| IssueType::from_text(list[i])->Some_0)
}

/// Whether every number is a priority.
pub open spec fn all_priorities(list: Seq<u8>) -> bool {
    forall|i: int| 0 <= i < list.len() ==> (#[trigger] list[i]) <= 4
}

/// The priorities with the given numbers.
pub open spec fn priorities_of(list: Seq<u8>) -> Seq<Priority> {
    Seq::new(list.len(), |i: int| Priority(list[i] as i32))
}

/// Reads status arguments; one that spells no status is `InvalidArgument`.
pub fn parse_statuses(list: &Vec<String>) -> (r: Result<Vec<Status>, BeadsError>)
    ensures
        all_statuses(texts(list@)) ==> (r matches Ok(v) && v@ == statuses_of(texts(list@))),
        !all_statuses(texts(list@)) ==> r matches Err(BeadsError::InvalidArgument { .. }),
{
    let mut out: Vec<Status> = Vec::new();
    let mut i: usize = 0;
    while i < list.len()
        invariant
            i <= list.len(),
            out@.len() == i,
            forall|k: int| 0 <= k < i ==> Status::from_text(#[trigger] texts(list@)[k]) is Some,
            forall|k: int| 0 <= k < i ==> (#[trigger] out@[k]) == Status::from_text(texts(list@)[k])->Some_0,
        decreases list.len() - i,
    {
        assert(texts(list@)[i as int] == list@[i as int]@);
        match Status::parse(list[i].as_str()) {
            Some(status) => {
                out.push(status);
            },
            None => {
                return Err(invalid_argument("unknown status"));
            },
        }
        i = i + 1;
    }
    assert(out@ =~= statuses_of(texts(list@)));
    Ok(out)
}

/// Reads issue type arguments; one that spells no type is `InvalidArgument`.
pub fn parse_types(list: &Vec<String>) -> (r: Result<Vec<IssueType>, BeadsError>)
    ensures
        all_types(texts(list@)) ==> (r matches Ok(v) && v@ == types_of(texts(list@))),
        !all_types(texts(list@)) ==> r matches Err(BeadsError::InvalidArgument { .. }),
{
    let mut out: Vec<IssueType> = Vec::new();
    let mut i: usize = 0;
    while i < list.len()
        invariant
            i <= list.len(),
            out@.len() == i,
            forall|k: int| 0 <= k < i ==> IssueType::from_text(#[trigger] texts(list@)[k]) is Some,
            forall|k: int| 0 <= k < i ==> (#[trigger] out@[k]) == IssueType::from_text(texts(list@)[k])->Some_0,
        decreases list.len() - i,
    {
        assert(texts(list@)[i as int] == list@[i as int]@);
        match IssueType::parse(list[i].as_str()) {
            Some(issue_type) => {
                out.push(issue_type);
            },
            None => {
                return Err(invalid_argument("unknown issue type"));
            },
        }
        i = i + 1;
    }
    assert(out@ =~= types_of(texts(list@)));
    Ok(out)
}

/// Reads priority arguments; a number above 4 is `InvalidArgument`.
pub fn parse_priorities(list: &Vec<u8>) -> (r: Result<Vec<Priority>, BeadsError>)
    ensures
        all_priorities(list@) ==> (r matches Ok(v) && v@ == priorities_of(list@)),
        !all_priorities(list@) ==> r matches Err(BeadsError::InvalidArgument { .. }),
{
    let mut out: Vec<Priority> = Vec::new();
    let mut i: usize = 0;
    while i < list.len()
        invariant
            i <= list.len(),
            out@.len() == i,
            forall|k: int| 0 <= k < i ==> (#[trigger] list@[k]) <= 4,
            forall|k: int| 0 <= k < i ==> (#[trigger] out@[k]) == Priority(list@[k] as i32),
        decreases list.len() - i,
    {
        if list[i] > 4 {
            return Err(invalid_argument("a priority is a number from 0 to 4"));
        }
        out.push(Priority(list[i] as i32));
        i = i + 1;
    }
    assert(out@ =~= priorities_of(list@));
    Ok(out)
}

/// The sort key that an argument names: `priority`, `created_at`,
/// `updated_at` or `title`.
pub open spec fn named_sort(text: Seq<char>) -> Option<SortKey> {
    if text == "priority"@ {
        Some(SortKey::Priority)
    } else if text == "created_at"@ {
        Some(SortKey::CreatedAt)
    } else if text == "updated_at"@ {
        Some(SortKey::UpdatedAt)
    } else if text == "title"@ {
        Some(SortKey::Title)
    } else {
        None
    }
}

/// Reads the name of a sort key.
pub fn parse_sort(text: &str) -> (r: Option<SortKey>)
    ensures
        r == named_sort(text@),
{
    if text_eq(text, "priority") {
        Some(SortKey::Priority)
    } else if text_eq(text, "created_at") {
        Some(SortKey::CreatedAt)
    } else if text_eq(text, "updated_at") {
        Some(SortKey::UpdatedAt)
    } else if text_eq(text, "title") {
        Some(SortKey::Title)
    } else {
        None
    }
}

/// The sort key of a listing: none where no argument names one.
pub open spec fn sort_of(argument: Option<String>) -> Option<SortKey> {
    match argument {
        Some(text) => named_sort(text@),
        None => None,
    }
}

/// Whether the arguments of a listing can be read.
pub open spec fn list_args_ok(args: ListArgs) -> bool {
    &&& all_statuses(texts(args.status@))
    &&& all_types(texts(args.type_@))
    &&& all_priorities(args.priority@)
    &&& args.priority_min matches Some(p) ==> p <= 4
    &&& args.priority_max matches Some(p) ==> p <= 4
    &&& args.sort matches Some(text) ==> named_sort(text@) is Some
}

/// The priority with the given number, if one is given.
pub open spec fn bound_of(level: Option<u8>) -> Option<Priority> {
    match level {
        Some(p) => Some(Priority(p as i32)),
        None => None,
    }
}

/// Copies a list of texts.
pub fn copy_texts(list: &Vec<String>) -> (r: Vec<String>)
    ensures
        texts(r@) == texts(list@),
{
    let mut out: Vec<String> = Vec::new();
    let mut i: usize = 0;
    while i < list.len()
        invariant
            i <= list.len(),
            out@.len() == i,
            forall|k: int| 0 <= k < i ==> (#[trigger] out@[k])@ == list@[k]@,
        decreases list.len() - i,
    {
        out.push(list[i].clone());
        i = i + 1;
    }
    assert(texts(out@) =~= texts(list@));
    out
}

fn parse_bound(level: Option<u8>) -> (r: Result<Option<Priority>, BeadsError>)
    ensures
        (level matches Some(p) && p > 4) ==> r matches Err(BeadsError::InvalidArgument { .. }),
        !(level matches Some(p) && p > 4) ==> r == Ok::<Option<Priority>, BeadsError>(bound_of(level)),
{
    match level {
        Some(p) => if p > 4 {
            Err(invalid_argument("a priority is a number from 0 to 4"))
        } else {
            Ok(Some(Priority(p as i32)))
        },
        None => Ok(None),
    }
}

/// The filters that the arguments of a listing ask for at `now`.  A set that
/// is not given does not filter; closed issues and tombstones show only with
/// `all`; templates never show; overdue issues are those that were due
/// before `now`; without a limit, 50 issues show.
pub open spec fn filters_match(args: ListArgs, f: ListFilters, now: Timestamp) -> bool {
    &&& if args.status@.len() == 0 {
        f.statuses is None
    } else {
        f.statuses matches Some(v) && v@ == statuses_of(texts(args.status@))
    }
    &&& if args.type_@.len() == 0 {
        f.types is None
    } else {
        f.types matches Some(v) && v@ == types_of(texts(args.type_@))
    }
    &&& if args.priority@.len() == 0 {
        f.priorities is None
    } else {
        f.priorities matches Some(v) && v@ == priorities_of(args.priority@)
    }
    &&& opt_text(f.assignee) == opt_text(args.assignee)
    &&& f.unassigned == args.unassigned
    &&& f.include_closed == args.all
    &&& !f.include_templates
    &&& opt_text(f.title_contains) == opt_text(args.title_contains)
    &&& f.limit == Some(
        match args.limit {
            Some(n) => n,
            None => DEFAULT_LIMIT,
        },
    )
    &&& texts(f.labels_all@) == texts(args.label@)
    &&& texts(f.labels_any@) == texts(args.label_any@)
    &&& f.priority_min == bound_of(args.priority_min)
    &&& f.priority_max == bound_of(args.priority_max)
    &&& opt_text(f.description_contains) == opt_text(args.desc_contains)
    &&& opt_text(f.notes_contains) == opt_text(args.notes_contains)
    &&& f.overdue_before == (if args.overdue { Some(now) } else { None::<Timestamp> })
    &&& texts(f.ids@) == texts(args.id@)
    &&& f.not_deferred_at == (if args.deferred { None::<Timestamp> } else { Some(now) })
    &&& f.sort == sort_of(args.sort)
    &&& f.reverse == args.reverse
}

/// Turns the arguments of a listing into filters. Issues that are put off
/// beyond `now` are left out unless the arguments ask for them.
pub fn list_filters(args: &ListArgs, now: Timestamp) -> (r: Result<ListFilters, BeadsError>)
    ensures
        list_args_ok(*args) ==> (r matches Ok(f) && filters_match(*args, f, now)),
        !list_args_ok(*args) ==> r matches Err(BeadsError::InvalidArgument { .. }),
{
    let statuses: Vec<Status> = parse_statuses(&args.status)?;
    let types: Vec<IssueType> = parse_types(&args.type_)?;
    let priorities: Vec<Priority> = parse_priorities(&args.priority)?;
    let priority_min: Option<Priority> = parse_bound(args.priority_min)?;
    let priority_max: Option<Priority> = parse_bound(args.priority_max)?;
    let sort: Option<SortKey> = match &args.sort {
        Some(text) => match parse_sort(text.as_str()) {
            Some(key) => Some(key),
            None => {
                return Err(invalid_argument("an issue is sorted by priority, created_at, updated_at or title"));
            },
        },
        None => None,
    };
    Ok(
        ListFilters {
            statuses: if statuses.len() == 0 {
                None
            } else {
                Some(statuses)
            },
            types: if types.len() == 0 {
                None
            } else {
                Some(types)
            },
            priorities: if priorities.len() == 0 {
                None
            } else {
                Some(priorities)
            },
            assignee: args.assignee.clone(),
            unassigned: args.unassigned,
            include_closed: args.all,
            include_templates: false,
            title_contains: args.title_contains.clone(),
            limit: Some(
                match args.limit {
                    Some(n) => n,
                    None => DEFAULT_LIMIT,
                },
            ),
            labels_all: copy_texts(&args.label),
            labels_any: copy_texts(&args.label_any),
            priority_min,
            priority_max,
            description_contains: args.desc_contains.clone(),
            notes_contains: args.notes_contains.clone(),
            overdue_before: if args.overdue {
                Some(now)
            } else {
                None
            },
            ids: copy_texts(&args.id),
            not_deferred_at: if args.deferred {
                None
            } else {
                Some(now)
            },
            sort,
            reverse: args.reverse,
        },
    )
}

/// The grouping that an argument asks for.
pub fn grouping(by: CountBy) -> (r: Grouping)
    ensures
        r == (match by {
            CountBy::Status => Grouping::Status,
            CountBy::Priority => Grouping::Priority,
            CountBy::Type => Grouping::Type,
            CountBy::Assignee => Grouping::Assignee,
            CountBy::Label => Grouping::Label,
        }),
{
    match by {
        CountBy::Status => Grouping::Status,
        CountBy::Priority => Grouping::Priority,
        CountBy::Type => Grouping::Type,
        CountBy::Assignee => Grouping::Assignee,
        CountBy::Label => Grouping::Label,
    }
}

/// Whether every text spells a priority.
pub open spec fn all_spelled_priorities(list: Seq<Seq<char>>) -> bool {
    forall|i: int| 0 <= i < list.len() ==> spelled_priority(#[trigger] list[i]) is Some
}

/// The priorities that the texts spell.
pub open spec fn spelled_priorities(list: Seq<Seq<char>>) -> Seq<Priority> {
    Seq::new(list.len(), |i: int| spelled_priority(list[i])->Some_0)
}

/// Reads priority arguments in either spelling; one that spells no priority
/// is `InvalidArgument`.
pub fn parse_spelled_priorities(list: &Vec<String>) -> (r: Result<Vec<Priority>, BeadsError>)
    ensures
        all_spelled_priorities(texts(list@)) ==> (r matches Ok(v) && v@ == spelled_priorities(texts(list@))),
        !all_spelled_priorities(texts(list@)) ==> r matches Err(BeadsError::InvalidArgument { .. }),
{
    let mut out: Vec<Priority> = Vec::new();
    let mut i: usize = 0;
    while i < list.len()
        invariant
            i <= list.len(),
            out@.len() == i,
            forall|k: int| 0 <= k < i ==> spelled_priority(#[trigger] texts(list@)[k]) is Some,
            forall|k: int| 0 <= k < i ==> (#[trigger] out@[k]) == spelled_priority(texts(list@)[k])->Some_0,
        decreases list.len() - i,
    {
        assert(texts(list@)[i as int] == list@[i as int]@);
        match parse_priority(list[i].as_str()) {
            Some(priority) => {
                out.push(priority);
            },
            None => {
                return Err(invalid_argument("a priority is 0 to 4, or P0 to P4"));
            },
        }
        i = i + 1;
    }
    assert(out@ =~= spelled_priorities(texts(list@)));
    Ok(out)
}

/// Whether the arguments of a count can be read.
pub open spec fn count_args_ok(args: CountArgs) -> bool {
    all_statuses(texts(args.status@)) && all_types(texts(args.types@)) && all_spelled_priorities(
        texts(args.priority@),
    )
}

/// The filters that the arguments of a count ask for.  A count has no limit.
pub open spec fn count_filters_match(args: CountArgs, f: ListFilters) -> bool {
    &&& if args.status@.len() == 0 {
        f.statuses is None
    } else {
        f.statuses matches Some(v) && v@ == statuses_of(texts(args.status@))
    }
    &&& if args.types@.len() == 0 {
        f.types is None
    } else {
        f.types matches Some(v) && v@ == types_of(texts(args.types@))
    }
    &&& if args.priority@.len() == 0 {
        f.priorities is None
    } else {
        f.priorities matches Some(v) && v@ == spelled_priorities(texts(args.priority@))
    }
    &&& opt_text(f.assignee) == opt_text(args.assignee)
    &&& f.unassigned == args.unassigned
    &&& f.include_closed == args.include_closed
    &&& f.include_templates == args.include_templates
    &&& opt_text(f.title_contains) == opt_text(args.title_contains)
    &&& f.limit is None
    &&& f.labels_all@.len() == 0
    &&& f.labels_any@.len() == 0
    &&& f.priority_min is None
    &&& f.priority_max is None
    &&& f.description_contains is None
    &&& f.notes_contains is None
    &&& f.overdue_before is None
    &&& f.ids@.len() == 0
    &&& f.not_deferred_at is None
    &&& f.sort is None
    &&& !f.reverse
}

/// Turns the arguments of a count into filters.
pub fn count_filters(args: &CountArgs) -> (r: Result<ListFilters, BeadsError>)
    ensures
        count_args_ok(*args) ==> (r matches Ok(f) && count_filters_match(*args, f)),
        !count_args_ok(*args) ==> r matches Err(BeadsError::InvalidArgument { .. }),
{
    let statuses: Vec<Status> = parse_statuses(&args.status)?;
    let types: Vec<IssueType> = parse_types(&args.types)?;
    let priorities: Vec<Priority> = parse_spelled_priorities(&args.priority)?;
    Ok(
        ListFilters {
            statuses: if statuses.len() == 0 {
                None
            } else {
                Some(statuses)
            },
            types: if types.len() == 0 {
                None
            } else {
                Some(types)
            },
            priorities: if priorities.len() == 0 {
                None
            } else {
                Some(priorities)
            },
            assignee: args.assignee.clone(),
            unassigned: args.unassigned,
            include_closed: args.include_closed,
            include_templates: args.include_templates,
            title_contains: args.title_contains.clone(),
            limit: None,
            labels_all: Vec::new(),
            labels_any: Vec::new(),
            priority_min: None,
            priority_max: None,
            description_contains: None,
            notes_contains: None,
            overdue_before: None,
            ids: Vec::new(),
            not_deferred_at: None,
            sort: None,
            reverse: false,
        },
    )
}

} // verus!
