//! The decisions of the synchroniser between the database and its text
//! export: what to do with each line of an import, what a malformed line
//! means, and whether the database is fresh enough to write to.

use vstd::prelude::*;
use crate::error::BeadsError;
use crate::hash::{content_hash, content_hash_of};
use crate::model::{EventType, Issue, IssueData, IssueType, Status, texts};
use crate::text::text_eq;
use crate::time::Timestamp;

verus! {

/// What an import does with one line of the export.
#[derive(Clone, Copy, Debug, PartialEq, Eq, Structural)]
pub enum ImportAction {
    /// The database has no such issue: insert it.
    Insert,
    /// The database has the issue as the line has it: nothing to do.
    Skip,
    /// The database has the issue otherwise: take the fields of the line.
    Update,
    /// The database has a tombstone and the line an issue that lives: bring
    /// it back.
    Resurrect,
    /// The database has an issue that lives and the line a tombstone: delete
    /// it.
    ApplyTombstone,
}

/// The rule of the import, by what the database holds under the id of the
/// line.
pub open spec fn import_rule(local: Option<IssueData>, incoming: IssueData) -> ImportAction {
    match local {
        None => ImportAction::Insert,
        Some(held) => if held.status == Status::Tombstone && incoming.status != Status::Tombstone {
            ImportAction::Resurrect
        } else if held.status != Status::Tombstone && incoming.status == Status::Tombstone {
            ImportAction::ApplyTombstone
        } else if content_hash_of(held) == content_hash_of(incoming) {
            ImportAction::Skip
        } else {
            ImportAction::Update
        },
    }
}

fn is_tombstone(issue: &Issue) -> (r: bool)
    ensures
        r == (issue.status == Status::Tombstone),
{
    match issue.status {
        Status::Tombstone => true,
        _ => false,
    }
}

/// Decides what to do with a line of the export.
pub fn decide_import(local: Option<&Issue>, incoming: &Issue) -> (r: ImportAction)
    ensures
        r == import_rule(match local { Some(held) => Some(held@), None => None }, incoming@),
{
    match local {
        None => ImportAction::Insert,
        Some(held) => {
            let held_gone: bool = is_tombstone(held);
            let incoming_gone: bool = is_tombstone(incoming);
            if held_gone && !incoming_gone {
                ImportAction::Resurrect
            } else if !held_gone && incoming_gone {
                ImportAction::ApplyTombstone
            } else if content_hash(held) == content_hash(incoming) {
                ImportAction::Skip
            } else {
                ImportAction::Update
            }
        },
    }
}

/// What an import did, in numbers.
#[derive(Clone, Copy, Debug, PartialEq, Eq, Structural)]
pub struct ImportCounts {
    pub inserted: usize,
    pub updated: usize,
    pub skipped: usize,
}

/// The counts after one more action.  An issue brought back and an issue
/// deleted count as updated.
pub open spec fn counted(counts: ImportCounts, action: ImportAction) -> ImportCounts {
    match action {
        ImportAction::Insert => ImportCounts { inserted: (counts.inserted + 1) as usize, ..counts },
        ImportAction::Skip => ImportCounts { skipped: (counts.skipped + 1) as usize, ..counts },
        _ => ImportCounts { updated: (counts.updated + 1) as usize, ..counts },
    }
}

/// The counts of a list of actions.
pub open spec fn tally_of(actions: Seq<ImportAction>) -> ImportCounts
    decreases actions.len(),
{
    if actions.len() == 0 {
        ImportCounts { inserted: 0, updated: 0, skipped: 0 }
    } else {
        counted(tally_of(actions.drop_last()), actions.last())
    }
}

/// The three counts of a tally add up to the number of actions.
pub proof fn tally_counts_every_action(actions: Seq<ImportAction>)
    requires
        actions.len() <= usize::MAX,
    ensures
        tally_of(actions).inserted + tally_of(actions).updated + tally_of(actions).skipped == actions.len(),
    decreases actions.len(),
{
    if actions.len() > 0 {
        tally_counts_every_action(actions.drop_last());
    }
}

/// Counts the actions of an import.
pub fn tally(actions: &Vec<ImportAction>) -> (r: ImportCounts)
    ensures
        r == tally_of(actions@),
{
    let mut counts = ImportCounts { inserted: 0, updated: 0, skipped: 0 };
    let mut i: usize = 0;
    while i < actions.len()
        invariant
            i <= actions.len(),
            counts == tally_of(actions@.take(i as int)),
            counts.inserted + counts.updated + counts.skipped == i,
        decreases actions.len() - i,
    {
        proof {
            assert(actions@.take(i + 1).drop_last() =~= actions@.take(i as int));
            assert(actions@.take(i + 1).last() == actions@[i as int]);
        }
        match actions[i] {
            ImportAction::Insert => {
                counts.inserted = counts.inserted + 1;
            },
            ImportAction::Skip => {
                counts.skipped = counts.skipped + 1;
            },
            _ => {
                counts.updated = counts.updated + 1;
            },
        }
        i = i + 1;
    }
    assert(actions@.take(i as int) =~= actions@);
    counts
}

/// A database that is empty takes every line of an export as a new issue.
pub proof fn empty_database_inserts_every_line(incoming: IssueData)
    ensures
        import_rule(None, incoming) == ImportAction::Insert,
{
}

/// An import that is run again finds nothing to do: a line is skipped once
/// the database holds the issue as the line has it.
pub proof fn import_is_idempotent(incoming: IssueData)
    ensures
        import_rule(Some(incoming), incoming) == ImportAction::Skip,
{
}

/// Whether anything but the hash decides between skipping and updating:
/// nothing does.  Two issues that live, or two tombstones, are skipped
/// exactly where their hashes agree.
pub proof fn hash_decides_between_skip_and_update(held: IssueData, incoming: IssueData)
    requires
        (held.status == Status::Tombstone) == (incoming.status == Status::Tombstone),
    ensures
        import_rule(Some(held), incoming) == ImportAction::Skip <==> content_hash_of(held) == content_hash_of(
            incoming,
        ),
        import_rule(Some(held), incoming) == ImportAction::Update <==> content_hash_of(held) != content_hash_of(
            incoming,
        ),
{
}

/// The number of malformed lines.
pub open spec fn malformed_count(lines: Seq<bool>) -> nat
    decreases lines.len(),
{
    if lines.len() == 0 {
        0
    } else {
        malformed_count(lines.drop_last()) + if lines.last() { 0nat } else { 1nat }
    }
}

/// What to make of the lines of an export, given for each line whether it
/// could be read.  Strictly, the first malformed line stops the import with
/// a `ParseError` that carries its number, counted from 1, and nothing is
/// imported.  Leniently, malformed lines are left out and counted.
pub fn check_lines(well_formed: &Vec<bool>, lenient: bool) -> (r: Result<usize, BeadsError>)
    ensures
        lenient ==> (r matches Ok(skipped) && skipped == malformed_count(well_formed@)),
        !lenient && (forall|i: int| 0 <= i < well_formed@.len() ==> well_formed@[i]) ==> r == Ok::<usize, BeadsError>(0),
        !lenient && !(forall|i: int| 0 <= i < well_formed@.len() ==> well_formed@[i]) ==> (r matches Err(
            BeadsError::ParseError { line, .. },
        ) && 1 <= line <= well_formed@.len() && !well_formed@[line - 1] && forall|j: int|
            0 <= j < line - 1 ==> well_formed@[j]),
{
    let mut skipped: usize = 0;
    let mut i: usize = 0;
    while i < well_formed.len()
        invariant
            i <= well_formed.len(),
            skipped == malformed_count(well_formed@.take(i as int)),
            skipped <= i,
            !lenient ==> forall|j: int| 0 <= j < i ==> well_formed@[j],
        decreases well_formed.len() - i,
    {
        proof {
            assert(well_formed@.take(i + 1).drop_last() =~= well_formed@.take(i as int));
            assert(well_formed@.take(i + 1).last() == well_formed@[i as int]);
        }
        if !well_formed[i] {
            if !lenient {
                return Err(
                    BeadsError::ParseError { line: i + 1, message: "malformed line".to_owned() },
                );
            }
            skipped = skipped + 1;
        }
        i = i + 1;
    }
    proof {
        assert(well_formed@.take(i as int) =~= well_formed@);
        if !lenient {
            malformed_count_of_clean(well_formed@);
        }
    }
    Ok(skipped)
}

proof fn malformed_count_of_clean(lines: Seq<bool>)
    requires
        forall|j: int| 0 <= j < lines.len() ==> lines[j],
    ensures
        malformed_count(lines) == 0,
    decreases lines.len(),
{
    if lines.len() > 0 {
        malformed_count_of_clean(lines.drop_last());
    }
}

/// What opening a workspace does about the export.
#[derive(Clone, Copy, Debug, PartialEq, Eq, Structural)]
pub enum Freshness {
    /// The database is as new as the export, or newer.
    Fresh,
    /// The export is newer and the database has nothing pending: import it.
    AutoImport,
    /// The export is newer and the database has changes pending: writes need
    /// leave.
    Stale,
}

/// Compares the export with the database: an export that is newer is
/// imported where the database has no dirty issues, and makes the database
/// stale where it has.
pub fn check_freshness(export_is_newer: bool, has_dirty_issues: bool) -> (r: Freshness)
    ensures
        r == (if !export_is_newer {
            Freshness::Fresh
        } else if has_dirty_issues {
            Freshness::Stale
        } else {
            Freshness::AutoImport
        }),
{
    if !export_is_newer {
        Freshness::Fresh
    } else if has_dirty_issues {
        Freshness::Stale
    } else {
        Freshness::AutoImport
    }
}

/// Whether a write may go ahead: on a stale database only with leave.
pub fn allow_write(freshness: Freshness, allow_stale: bool) -> (r: Result<(), BeadsError>)
    ensures
        freshness == Freshness::Stale && !allow_stale ==> r matches Err(BeadsError::StaleDatabase),
        !(freshness == Freshness::Stale && !allow_stale) ==> r is Ok,
{
    match freshness {
        Freshness::Stale => if allow_stale {
            Ok(())
        } else {
            Err(BeadsError::StaleDatabase)
        },
        _ => Ok(()),
    }
}

/// The name of the actor under which an import journals what it does.
pub const IMPORT_ACTOR: &'static str = "import";

/// The issue as an import writes it: its deletion fields made to fit its
/// status.  A tombstone that lacks one gets the time of the import, the
/// import as the one who deleted it, `imported` as the reason, and as its
/// type before deletion the type that the database holds, or else its own;
/// an issue that lives loses what deletion fields it has.
pub open spec fn settled(incoming: IssueData, held_type: Option<IssueType>, now: Timestamp) -> IssueData {
    if incoming.status == Status::Tombstone {
        IssueData {
            deleted_at: match incoming.deleted_at { Some(t) => Some(t), None => Some(now) },
            deleted_by: match incoming.deleted_by { Some(s) => Some(s), None => Some(IMPORT_ACTOR@) },
            delete_reason: match incoming.delete_reason { Some(s) => Some(s), None => Some("imported"@) },
            original_type: match incoming.original_type {
                Some(s) => Some(s),
                None => Some(
                    match held_type {
                        Some(t) => t.text(),
                        None => incoming.issue_type.text(),
                    },
                ),
            },
            ..incoming
        }
    } else {
        IssueData { deleted_at: None, deleted_by: None, delete_reason: None, original_type: None, ..incoming }
    }
}

/// Makes the deletion fields of an imported issue fit its status.
pub fn settle(incoming: &mut Issue, held_type: Option<IssueType>, now: Timestamp)
    ensures
        final(incoming)@ == settled(old(incoming)@, held_type, now),
        final(incoming)@.tombstone_consistent(),
{
    match incoming.status {
        Status::Tombstone => {
            if incoming.deleted_at.is_none() {
                incoming.deleted_at = Some(now);
            }
            if incoming.deleted_by.is_none() {
                incoming.deleted_by = Some(IMPORT_ACTOR.to_owned());
            }
            if incoming.delete_reason.is_none() {
                incoming.delete_reason = Some("imported".to_owned());
            }
            if incoming.original_type.is_none() {
                let kept: IssueType = match held_type {
                    Some(t) => t,
                    None => incoming.issue_type,
                };
                incoming.original_type = Some(kept.as_str().to_owned());
            }
        },
        _ => {
            incoming.deleted_at = None;
            incoming.deleted_by = None;
            incoming.delete_reason = None;
            incoming.original_type = None;
        },
    }
}

/// Whatever an import is handed, what it writes is a tombstone with all four
/// deletion fields or an issue with none of them.
pub proof fn import_writes_consistent_rows(incoming: IssueData, held_type: Option<IssueType>, now: Timestamp)
    ensures
        settled(incoming, held_type, now).tombstone_consistent(),
        settled(incoming, held_type, now).status == incoming.status,
        incoming.tombstone_consistent() ==> settled(incoming, held_type, now) == incoming,
{
}

/// The event that an import journals for an action: none for a line that is
/// skipped.
pub open spec fn import_event(action: ImportAction) -> Option<(EventType, Seq<char>)> {
    match action {
        ImportAction::Insert => Some((EventType::Created, "Imported issue"@)),
        ImportAction::Skip => None,
        ImportAction::Update => Some((EventType::Updated, "Updated by import"@)),
        ImportAction::Resurrect => Some((EventType::Reopened, "Brought back by import"@)),
        ImportAction::ApplyTombstone => Some((EventType::Deleted, "Deleted by import"@)),
    }
}

/// The event that an import journals for an action.
pub fn event_of_import(action: ImportAction) -> (r: Option<(EventType, &'static str)>)
    ensures
        match import_event(action) {
            Some(e) => r matches Some(found) && found.0 == e.0 && found.1@ == e.1,
            None => r is None,
        },
{
    match action {
        ImportAction::Insert => Some((EventType::Created, "Imported issue")),
        ImportAction::Skip => None,
        ImportAction::Update => Some((EventType::Updated, "Updated by import")),
        ImportAction::Resurrect => Some((EventType::Reopened, "Brought back by import")),
        ImportAction::ApplyTombstone => Some((EventType::Deleted, "Deleted by import")),
    }
}

/// Every action of an import that writes is journalled.
pub proof fn import_journals_what_it_writes(action: ImportAction)
    ensures
        import_event(action) is Some <==> action != ImportAction::Skip,
{
}

/// A line of the export: the id of its issue and its text.
#[derive(Debug, Clone)]
pub struct ExportLine {
    pub id: String,
    pub text: String,
}

/// Whether `lines` holds a line of `id`.
pub open spec fn has_line(lines: Seq<ExportLine>, id: Seq<char>) -> bool {
    exists|i: int| 0 <= i < lines.len() && (#[trigger] lines[i]).id@ == id
}

/// The id and the text of each line.
pub open spec fn lines_view(lines: Seq<ExportLine>) -> Seq<(Seq<char>, Seq<char>)> {
    Seq::new(lines.len(), |i: int| (lines[i].id@, lines[i].text@))
}

/// Whether `listing` holds a line of `id`.
pub open spec fn lists_id(listing: Seq<(Seq<char>, Seq<char>)>, id: Seq<char>) -> bool {
    exists|i: int| 0 <= i < listing.len() && (#[trigger] listing[i]).0 == id
}

/// The text of the first line of `id` in `listing`.
pub open spec fn first_text(listing: Seq<(Seq<char>, Seq<char>)>, id: Seq<char>) -> Option<Seq<char>>
    decreases listing.len(),
{
    if listing.len() == 0 {
        None
    } else {
        match first_text(listing.drop_last(), id) {
            Some(text) => Some(text),
            None => if listing.last().0 == id {
                Some(listing.last().1)
            } else {
                None
            },
        }
    }
}

/// The lines of `existing`, each with the text that `fresh` has for its
/// issue, or with its own where `fresh` has none.
pub open spec fn refreshed(existing: Seq<(Seq<char>, Seq<char>)>, fresh: Seq<(Seq<char>, Seq<char>)>) -> Seq<(Seq<char>, Seq<char>)> {
    Seq::new(
        existing.len(),
        |i: int|
            (
                existing[i].0,
                match first_text(fresh, existing[i].0) {
                    Some(text) => text,
                    None => existing[i].1,
                },
            ),
    )
}

/// `listing` followed by the lines of `fresh` whose issue it does not hold
/// yet, in their order, each issue once.
pub open spec fn with_new(listing: Seq<(Seq<char>, Seq<char>)>, fresh: Seq<(Seq<char>, Seq<char>)>) -> Seq<(Seq<char>, Seq<char>)>
    decreases fresh.len(),
{
    if fresh.len() == 0 {
        listing
    } else {
        let before = with_new(listing, fresh.drop_last());
        if lists_id(before, fresh.last().0) {
            before
        } else {
            before.push(fresh.last())
        }
    }
}

/// An export brought up to date: the lines of `existing` in their order,
/// each with its fresh text, then the fresh lines of the issues that it did
/// not hold.
pub open spec fn merged(existing: Seq<(Seq<char>, Seq<char>)>, fresh: Seq<(Seq<char>, Seq<char>)>) -> Seq<(Seq<char>, Seq<char>)> {
    with_new(refreshed(existing, fresh), fresh)
}

/// The lines of `listing` whose issue is not in `gone`, in their order.
pub open spec fn pruned(listing: Seq<(Seq<char>, Seq<char>)>, gone: Seq<Seq<char>>) -> Seq<(Seq<char>, Seq<char>)>
    decreases listing.len(),
{
    if listing.len() == 0 {
        Seq::empty()
    } else {
        let before = pruned(listing.drop_last(), gone);
        if gone.contains(listing.last().0) {
            before
        } else {
            before.push(listing.last())
        }
    }
}

/// `first_text` finds a text where the listing holds the issue, and only
/// there.
proof fn lemma_first_text_found(listing: Seq<(Seq<char>, Seq<char>)>, id: Seq<char>)
    ensures
        first_text(listing, id) is Some <==> lists_id(listing, id),
    decreases listing.len(),
{
    if listing.len() > 0 {
        let head = listing.drop_last();
        lemma_first_text_found(head, id);
        if lists_id(head, id) {
            let at = choose|at: int| 0 <= at < head.len() && (#[trigger] head[at]).0 == id;
            assert(listing[at] == head[at]);
        } else if listing.last().0 == id {
            assert(listing[listing.len() - 1].0 == id);
        } else if lists_id(listing, id) {
            let at = choose|at: int| 0 <= at < listing.len() && (#[trigger] listing[at]).0 == id;
            assert(head[at] == listing[at]);
        }
    }
}

/// The first line of an issue decides the text that `first_text` gives.
proof fn lemma_first_text_at(listing: Seq<(Seq<char>, Seq<char>)>, id: Seq<char>, i: int)
    requires
        0 <= i < listing.len(),
        listing[i].0 == id,
        forall|j: int| 0 <= j < i ==> (#[trigger] listing[j]).0 != id,
    ensures
        first_text(listing, id) == Some(listing[i].1),
    decreases listing.len(),
{
    let head = listing.drop_last();
    if i < head.len() {
        assert(head[i] == listing[i]);
        assert forall|j: int| 0 <= j < i implies (#[trigger] head[j]).0 != id by {
            assert(head[j] == listing[j]);
        }
        lemma_first_text_at(head, id, i);
    } else {
        lemma_first_text_found(head, id);
        if lists_id(head, id) {
            let at = choose|at: int| 0 <= at < head.len() && (#[trigger] head[at]).0 == id;
            assert(listing[at] == head[at]);
        }
    }
}

/// A vector of lines holds an issue where its listing does.
proof fn lemma_lists_id(lines: Seq<ExportLine>, id: Seq<char>)
    ensures
        has_line(lines, id) <==> lists_id(lines_view(lines), id),
{
    let listing = lines_view(lines);
    if has_line(lines, id) {
        let at = choose|at: int| 0 <= at < lines.len() && (#[trigger] lines[at]).id@ == id;
        assert(listing[at].0 == id);
    }
    if lists_id(listing, id) {
        let at = choose|at: int| 0 <= at < listing.len() && (#[trigger] listing[at]).0 == id;
        assert(lines[at].id@ == id);
    }
}

/// The first line of `id` among `lines`.
fn find_line(lines: &Vec<ExportLine>, id: &str) -> (r: Option<usize>)
    ensures
        r is Some <==> has_line(lines@, id@),
        r matches Some(i) ==> i < lines@.len() && lines@[i as int].id@ == id@ && forall|j: int|
            0 <= j < i ==> (#[trigger] lines@[j]).id@ != id@,
{
    let mut i: usize = 0;
    while i < lines.len()
        invariant
            i <= lines.len(),
            forall|j: int| 0 <= j < i ==> (#[trigger] lines@[j]).id@ != id@,
        decreases lines.len() - i,
    {
        if text_eq(lines[i].id.as_str(), id) {
            return Some(i);
        }
        i = i + 1;
    }
    None
}

/// `line` is a line of `fresh`: same id, same text.
pub open spec fn taken_from(fresh: Seq<ExportLine>, line: ExportLine) -> bool {
    exists|k: int| 0 <= k < fresh.len() && (#[trigger] fresh[k]).id@ == line.id@ && fresh[k].text@ == line.text@
}

/// `line` is what becomes of line `i` of `existing`: the same issue, with
/// its fresh text where it has one and its old text where it has none.
pub open spec fn brought_up_to_date(existing: Seq<ExportLine>, fresh: Seq<ExportLine>, line: ExportLine, i: int) -> bool {
    &&& line.id@ == existing[i].id@
    &&& if has_line(fresh, existing[i].id@) {
        taken_from(fresh, line)
    } else {
        line.text@ == existing[i].text@
    }
}

/// `line` is the fresh line of an issue that `existing` does not know.
pub open spec fn newly_added(existing: Seq<ExportLine>, fresh: Seq<ExportLine>, line: ExportLine) -> bool {
    !has_line(existing, line.id@) && taken_from(fresh, line)
}

/// Brings an export up to date: every line of `existing` whose issue has a
/// fresh line is replaced by it, in place, and the fresh lines of issues
/// that `existing` does not know follow at the end, in the order in which
/// they came.  Every issue with a fresh line has a line in the result.
pub fn merge_lines(existing: &Vec<ExportLine>, fresh: &Vec<ExportLine>) -> (r: Vec<ExportLine>)
    ensures
        lines_view(r@) == merged(lines_view(existing@), lines_view(fresh@)),
        r@.len() >= existing@.len(),
        forall|i: int| 0 <= i < existing@.len() ==> brought_up_to_date(existing@, fresh@, #[trigger] r@[i], i),
        forall|i: int| existing@.len() <= i < r@.len() ==> newly_added(existing@, fresh@, #[trigger] r@[i]),
        forall|k: int| 0 <= k < fresh@.len() ==> has_line(r@, (#[trigger] fresh@[k]).id@),
{
    let ghost held = lines_view(existing@);
    let ghost news = lines_view(fresh@);
    let mut out: Vec<ExportLine> = Vec::new();
    let mut i: usize = 0;
    while i < existing.len()
        invariant
            i <= existing.len(),
            out@.len() == i,
            held == lines_view(existing@),
            news == lines_view(fresh@),
            forall|j: int| 0 <= j < i ==> brought_up_to_date(existing@, fresh@, #[trigger] out@[j], j),
            forall|j: int| 0 <= j < i ==> (#[trigger] out@[j]).id@ == refreshed(held, news)[j].0 && out@[j].text@ == refreshed(held, news)[j].1,
        decreases existing.len() - i,
    {
        proof {
            lemma_first_text_found(news, existing@[i as int].id@);
            lemma_lists_id(fresh@, existing@[i as int].id@);
        }
        match find_line(fresh, existing[i].id.as_str()) {
            Some(k) => {
                let line = ExportLine { id: existing[i].id.clone(), text: fresh[k].text.clone() };
                proof {
                    assert(fresh@[k as int].id@ == line.id@ && fresh@[k as int].text@ == line.text@);
                    assert(news[k as int].0 == existing@[i as int].id@);
                    assert forall|j: int| 0 <= j < k implies (#[trigger] news[j]).0 != existing@[i as int].id@ by {
                        assert(fresh@[j].id@ != existing@[i as int].id@);
                    }
                    lemma_first_text_at(news, existing@[i as int].id@, k as int);
                }
                out.push(line);
            },
            None => {
                out.push(ExportLine { id: existing[i].id.clone(), text: existing[i].text.clone() });
            },
        }
        i = i + 1;
    }
    proof {
        assert(lines_view(out@) =~= refreshed(held, news));
        assert(news.take(0) =~= Seq::empty());
    }
    let mut k: usize = 0;
    while k < fresh.len()
        invariant
            k <= fresh.len(),
            out@.len() >= existing@.len(),
            forall|j: int| 0 <= j < existing@.len() ==> brought_up_to_date(existing@, fresh@, #[trigger] out@[j], j),
            forall|j: int| existing@.len() <= j < out@.len() ==> newly_added(existing@, fresh@, #[trigger] out@[j]),
            forall|m: int| 0 <= m < k ==> has_line(out@, (#[trigger] fresh@[m]).id@),
            held == lines_view(existing@),
            news == lines_view(fresh@),
            lines_view(out@) == with_new(refreshed(held, news), news.take(k as int)),
        decreases fresh.len() - k,
    {
        let ghost before = out@;
        let known: bool = find_line(existing, fresh[k].id.as_str()).is_some();
        let listed: bool = find_line(&out, fresh[k].id.as_str()).is_some();
        proof {
            assert(news.take(k + 1).drop_last() =~= news.take(k as int));
            assert(news.take(k + 1).last() == news[k as int]);
            lemma_lists_id(before, fresh@[k as int].id@);
            if known {
                let at = choose|at: int| 0 <= at < existing@.len() && (#[trigger] existing@[at]).id@ == fresh@[k as int].id@;
                assert(brought_up_to_date(existing@, fresh@, before[at], at));
                assert(before[at].id@ == fresh@[k as int].id@);
                assert(listed);
            }
        }
        if !known && !listed {
            let line = ExportLine { id: fresh[k].id.clone(), text: fresh[k].text.clone() };
            assert(fresh@[k as int].id@ == line.id@ && fresh@[k as int].text@ == line.text@);
            out.push(line);
            proof {
                assert(lines_view(out@) =~= lines_view(before).push(news[k as int]));
            }
        }
        proof {
            assert forall|j: int| 0 <= j < before.len() implies out@[j] == before[j] by {}
            assert forall|m: int| 0 <= m < k + 1 implies has_line(out@, (#[trigger] fresh@[m]).id@) by {
                if m < k {
                    let at = choose|at: int| 0 <= at < before.len() && (#[trigger] before[at]).id@ == fresh@[m].id@;
                    assert(out@[at].id@ == fresh@[m].id@);
                } else if known {
                    let at = choose|at: int| 0 <= at < existing@.len() && (#[trigger] existing@[at]).id@ == fresh@[k as int].id@;
                    assert(brought_up_to_date(existing@, fresh@, out@[at], at));
                    assert(out@[at].id@ == fresh@[k as int].id@);
                } else if listed {
                    let at = choose|at: int| 0 <= at < before.len() && (#[trigger] before[at]).id@ == fresh@[k as int].id@;
                    assert(out@[at].id@ == fresh@[k as int].id@);
                } else {
                    assert(out@[out@.len() - 1].id@ == fresh@[k as int].id@);
                }
            }
        }
        k = k + 1;
    }
    proof {
        assert(news.take(k as int) =~= news);
    }
    out
}

/// `line` is a line of `lines`: same id, same text.
pub open spec fn kept_from(lines: Seq<ExportLine>, line: ExportLine) -> bool {
    exists|j: int| 0 <= j < lines.len() && (#[trigger] lines[j]).id@ == line.id@ && lines[j].text@ == line.text@
}

/// The lines of an export without those of the issues named in `gone`, in
/// the order in which they stood.
pub fn without_lines(lines: &Vec<ExportLine>, gone: &Vec<String>) -> (r: Vec<ExportLine>)
    ensures
        lines_view(r@) == pruned(lines_view(lines@), texts(gone@)),
        r@.len() <= lines@.len(),
        forall|i: int| 0 <= i < r@.len() ==> !texts(gone@).contains((#[trigger] r@[i]).id@) && kept_from(lines@, r@[i]),
        forall|j: int| 0 <= j < lines@.len() && !texts(gone@).contains((#[trigger] lines@[j]).id@) ==> has_line(r@, lines@[j].id@),
{
    let ghost held = lines_view(lines@);
    let mut out: Vec<ExportLine> = Vec::new();
    let mut j: usize = 0;
    proof {
        assert(held.take(0) =~= Seq::empty());
        assert(lines_view(out@) =~= pruned(held.take(0), texts(gone@)));
    }
    while j < lines.len()
        invariant
            j <= lines.len(),
            out@.len() <= j,
            held == lines_view(lines@),
            lines_view(out@) == pruned(held.take(j as int), texts(gone@)),
            forall|i: int| 0 <= i < out@.len() ==> !texts(gone@).contains((#[trigger] out@[i]).id@) && kept_from(lines@, out@[i]),
            forall|m: int| 0 <= m < j && !texts(gone@).contains((#[trigger] lines@[m]).id@) ==> has_line(out@, lines@[m].id@),
        decreases lines.len() - j,
    {
        let ghost before = out@;
        proof {
            assert(held.take(j + 1).drop_last() =~= held.take(j as int));
            assert(held.take(j + 1).last() == held[j as int]);
        }
        if !crate::graph::contains_text(gone, lines[j].id.as_str()) {
            let line = ExportLine { id: lines[j].id.clone(), text: lines[j].text.clone() };
            assert(lines@[j as int].id@ == line.id@ && lines@[j as int].text@ == line.text@);
            out.push(line);
            proof {
                assert(lines_view(out@) =~= lines_view(before).push(held[j as int]));
            }
        }
        proof {
            assert forall|i: int| 0 <= i < before.len() implies out@[i] == before[i] by {}
            assert forall|m: int| 0 <= m < j + 1 && !texts(gone@).contains((#[trigger] lines@[m]).id@) implies has_line(out@, lines@[m].id@) by {
                if m < j {
                    let at = choose|at: int| 0 <= at < before.len() && (#[trigger] before[at]).id@ == lines@[m].id@;
                    assert(out@[at].id@ == lines@[m].id@);
                } else {
                    assert(out@[out@.len() - 1].id@ == lines@[m].id@);
                }
            }
        }
        j = j + 1;
    }
    proof {
        assert(held.take(j as int) =~= held);
    }
    out
}

} // verus!
