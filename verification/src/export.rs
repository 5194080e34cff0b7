//! The text of the export as a whole: reading it line by line, and writing
//! it anew.

use vstd::prelude::*;
use crate::error::BeadsError;
use crate::json::{json_member, json_text, parse_json, parsed_json, text_member};
use crate::jsonl::{issue_line, render_line};
use crate::model::{Issue, IssueData, texts};
use crate::readiness::issues_view;
use crate::record::{line_issue, parse_line};
use crate::sync::{ExportLine, check_lines, lines_view, malformed_count, merge_lines, merged, pruned, without_lines};
use crate::text::{pieces, split, text_eq, trim, trimmed};

verus! {

/// What was read from an export.
#[derive(Debug, Clone)]
pub struct Reading {
    /// The issues of the lines that could be read, in the order of the lines.
    pub issues: Vec<Issue>,
    /// The number of lines that could not.
    pub malformed: usize,
}

/// Whether no two of the issues have the same id.
pub open spec fn distinct_ids(issues: Seq<Issue>) -> bool {
    forall|i: int, j: int| 0 <= i < j < issues.len() ==> (#[trigger] issues[i]).id@ != (#[trigger] issues[j]).id@
}

/// Whether one of the issues has the id.
pub open spec fn has_id(issues: Seq<IssueData>, id: Seq<char>) -> bool {
    exists|i: int| 0 <= i < issues.len() && (#[trigger] issues[i]).id == id
}

/// Whether one of the issues has the id.
fn holds_id(issues: &Vec<Issue>, id: &str) -> (r: bool)
    ensures
        r == has_id(issues_view(issues@), id@),
{
    let mut i: usize = 0;
    while i < issues.len()
        invariant
            i <= issues.len(),
            forall|j: int| 0 <= j < i ==> (#[trigger] issues_view(issues@)[j]).id != id@,
        decreases issues.len() - i,
    {
        if text_eq(issues[i].id.as_str(), id) {
            assert(issues_view(issues@)[i as int].id == id@);
            return true;
        }
        i = i + 1;
    }
    false
}

/// What the lines of an export hold: the issues that they bring, in order,
/// and for each line whether it is well formed.
pub ghost struct LinesRead {
    pub issues: Seq<IssueData>,
    pub well_formed: Seq<bool>,
}

/// Reads lines one after the other.  A blank line is well formed and brings
/// nothing.  Any other line brings the issue that it stands for; it is
/// malformed where it stands for none, and where an earlier line has brought
/// an issue of the same id.
pub open spec fn lines_read(lines: Seq<Seq<char>>) -> LinesRead
    decreases lines.len(),
{
    if lines.len() == 0 {
        LinesRead { issues: Seq::empty(), well_formed: Seq::empty() }
    } else {
        let before = lines_read(lines.drop_last());
        if trimmed(lines.last()).len() == 0 {
            LinesRead { issues: before.issues, well_formed: before.well_formed.push(true) }
        } else {
            match line_issue(lines.last()) {
                Some(issue) => if has_id(before.issues, issue.id) {
                    LinesRead { issues: before.issues, well_formed: before.well_formed.push(false) }
                } else {
                    LinesRead { issues: before.issues.push(issue), well_formed: before.well_formed.push(true) }
                },
                None => LinesRead { issues: before.issues, well_formed: before.well_formed.push(false) },
            }
        }
    }
}

/// Whether every line is well formed.
pub open spec fn all_well_formed(lines: Seq<bool>) -> bool {
    forall|i: int| 0 <= i < lines.len() ==> lines[i]
}

/// Reads the text of an export, one issue to a line, as [`lines_read`]
/// reads its lines.
///
/// Strictly, the first malformed line stops the reading with a `ParseError`
/// that carries its number in the text, counted from 1.  Leniently,
/// malformed lines are left out and counted.  Either way no two issues of
/// the result have the same id.
pub fn read_export(text: &str, lenient: bool) -> (r: Result<Reading, BeadsError>)
    ensures
        ({
            let read = lines_read(pieces(text@, '\n'));
            if lenient {
                r matches Ok(reading) && issues_view(reading.issues@) == read.issues && reading.malformed
                    == malformed_count(read.well_formed)
            } else if all_well_formed(read.well_formed) {
                r matches Ok(reading) && issues_view(reading.issues@) == read.issues && reading.malformed == 0
            } else {
                r matches Err(BeadsError::ParseError { line, .. }) && 1 <= line <= read.well_formed.len()
                    && !read.well_formed[line - 1] && forall|j: int| 0 <= j < line - 1 ==> read.well_formed[j]
            }
        }),
        r matches Ok(reading) ==> distinct_ids(reading.issues@),
{
    let lines: Vec<String> = split(text, '\n');
    let ghost all = pieces(text@, '\n');
    let mut issues: Vec<Issue> = Vec::new();
    let mut well_formed: Vec<bool> = Vec::new();
    let mut i: usize = 0;
    proof {
        assert(all.take(0) =~= Seq::empty());
        assert(issues_view(issues@) =~= lines_read(all.take(0)).issues);
        assert(well_formed@ =~= lines_read(all.take(0)).well_formed);
    }
    while i < lines.len()
        invariant
            i <= lines.len(),
            all == Seq::new(lines@.len(), |k: int| lines@[k]@),
            issues_view(issues@) == lines_read(all.take(i as int)).issues,
            well_formed@ == lines_read(all.take(i as int)).well_formed,
            distinct_ids(issues@),
        decreases lines.len() - i,
    {
        let line: &str = lines[i].as_str();
        let ghost before = issues@;
        proof {
            assert(all.take(i + 1).drop_last() =~= all.take(i as int));
            assert(all.take(i + 1).last() == line@);
        }
        if trim(line).unicode_len() == 0 {
            well_formed.push(true);
        } else {
            match parse_line(line) {
                Some(issue) => {
                    if holds_id(&issues, issue.id.as_str()) {
                        well_formed.push(false);
                    } else {
                        proof {
                            assert forall|k: int| 0 <= k < issues@.len() implies (#[trigger] issues@[k]).id@
                                != issue.id@ by {
                                assert(issues_view(issues@)[k].id == issues@[k].id@);
                            }
                        }
                        issues.push(issue);
                        well_formed.push(true);
                        proof {
                            assert(issues_view(issues@) =~= issues_view(before).push(issue@));
                        }
                    }
                },
                None => {
                    well_formed.push(false);
                },
            }
        }
        i = i + 1;
    }
    proof {
        assert(all.take(i as int) =~= all);
    }
    let malformed: usize = check_lines(&well_formed, lenient)?;
    Ok(Reading { issues, malformed })
}

/// The id that a line of an export names: the text `id` of its JSON object,
/// and no id at all where the line has none.
pub open spec fn line_id(line: Seq<char>) -> Seq<char> {
    match parsed_json(line) {
        Some(document) => match text_member(document, "id"@) {
            Some(id) => id,
            None => Seq::empty(),
        },
        None => Seq::empty(),
    }
}

/// The id that a line of an export names.
fn id_in(line: &str) -> (r: String)
    ensures
        r@ == line_id(line@),
{
    let id: Option<String> = match parse_json(line) {
        Some(document) => match json_member(&document, "id") {
            Some(member) => json_text(member),
            None => None,
        },
        None => None,
    };
    match id {
        Some(id) => id,
        None => String::new(),
    }
}

/// `listing` followed by the lines among the pieces of a text: each piece
/// that is not blank, under the id that it names.
pub open spec fn with_lines(listing: Seq<(Seq<char>, Seq<char>)>, lines: Seq<Seq<char>>) -> Seq<(Seq<char>, Seq<char>)>
    decreases lines.len(),
{
    if lines.len() == 0 {
        listing
    } else {
        let before = with_lines(listing, lines.drop_last());
        if trimmed(lines.last()).len() > 0 {
            before.push((line_id(lines.last()), lines.last()))
        } else {
            before
        }
    }
}

/// The lines of an export as it stands, each under the id that it names;
/// blank lines are left out.
pub fn lines_of_export(text: &str) -> (r: Vec<ExportLine>)
    ensures
        lines_view(r@) == with_lines(Seq::empty(), pieces(text@, '\n')),
{
    let lines: Vec<String> = split(text, '\n');
    let ghost all = pieces(text@, '\n');
    let mut out: Vec<ExportLine> = Vec::new();
    let mut i: usize = 0;
    proof {
        assert(all.take(0) =~= Seq::empty());
        assert(lines_view(out@) =~= with_lines(Seq::empty(), all.take(0)));
    }
    while i < lines.len()
        invariant
            i <= lines.len(),
            all == Seq::new(lines@.len(), |k: int| lines@[k]@),
            lines_view(out@) == with_lines(Seq::empty(), all.take(i as int)),
        decreases lines.len() - i,
    {
        let line: &str = lines[i].as_str();
        proof {
            assert(all.take(i + 1).drop_last() =~= all.take(i as int));
            assert(all.take(i + 1).last() == line@);
        }
        if trim(line).unicode_len() > 0 {
            let ghost before = out@;
            out.push(ExportLine { id: id_in(line), text: line.to_owned() });
            proof {
                assert(lines_view(out@) =~= lines_view(before).push((line_id(line@), line@)));
            }
        }
        i = i + 1;
    }
    proof {
        assert(all.take(i as int) =~= all);
    }
    out
}

/// The line of each issue, under the id of its issue.
pub open spec fn issue_lines(issues: Seq<Issue>) -> Seq<(Seq<char>, Seq<char>)> {
    Seq::new(issues.len(), |i: int| (issues[i].id@, issue_line(issues[i]@)))
}

/// The lines of the issues, each under the id of its issue.
pub fn fresh_lines(issues: &Vec<Issue>) -> (r: Vec<ExportLine>)
    ensures
        lines_view(r@) == issue_lines(issues@),
{
    let mut out: Vec<ExportLine> = Vec::new();
    let mut i: usize = 0;
    while i < issues.len()
        invariant
            i <= issues.len(),
            out@.len() == i,
            forall|j: int|
                0 <= j < i ==> (#[trigger] out@[j]).id@ == issues@[j].id@ && out@[j].text@ == issue_line(
                    issues@[j]@,
                ),
        decreases issues.len() - i,
    {
        out.push(ExportLine { id: issues[i].id.clone(), text: render_line(&issues[i]) });
        i = i + 1;
    }
    proof {
        assert(lines_view(out@) =~= issue_lines(issues@));
    }
    out
}

/// The text of an export that holds the lines: each line, then a line feed.
pub open spec fn written(lines: Seq<(Seq<char>, Seq<char>)>) -> Seq<char>
    decreases lines.len(),
{
    if lines.len() == 0 {
        Seq::empty()
    } else {
        written(lines.drop_last()) + lines.last().1 + "\n"@
    }
}

/// Writes the text of an export.
pub fn export_text(lines: &Vec<ExportLine>) -> (r: String)
    ensures
        r@ == written(lines_view(lines@)),
{
    let ghost listing = lines_view(lines@);
    let mut out: String = String::new();
    let mut i: usize = 0;
    proof {
        assert(listing.take(0) =~= Seq::empty());
    }
    while i < lines.len()
        invariant
            i <= lines.len(),
            listing == lines_view(lines@),
            out@ == written(listing.take(i as int)),
        decreases lines.len() - i,
    {
        proof {
            assert(listing.take(i + 1).drop_last() =~= listing.take(i as int));
            assert(listing.take(i + 1).last() == listing[i as int]);
        }
        out.append(lines[i].text.as_str());
        out.append("\n");
        i = i + 1;
    }
    proof {
        assert(listing.take(i as int) =~= listing);
    }
    out
}

/// The lines of an export after a flush.  A full export holds the lines of
/// the issues and nothing else, and so does the first one.  Otherwise the
/// export as it stands is brought up to date with them.
pub open spec fn flushed(existing: Option<Seq<char>>, fresh: Seq<(Seq<char>, Seq<char>)>, full: bool) -> Seq<(Seq<char>, Seq<char>)> {
    match existing {
        Some(text) => if full {
            fresh
        } else {
            merged(with_lines(Seq::empty(), pieces(text, '\n')), fresh)
        },
        None => fresh,
    }
}

/// The view of a text that may be missing.
pub open spec fn text_view(text: Option<&str>) -> Option<Seq<char>> {
    match text {
        Some(text) => Some(text@),
        None => None,
    }
}

/// The new text of an export.  A full export holds the lines of the issues
/// and nothing else.  Otherwise the export as it stands is brought up to
/// date: the lines of the issues replace the lines that the export has for
/// them, in place, and those that it has not follow at the end, in the
/// order of the issues.
pub fn flushed_text(existing: Option<&str>, issues: &Vec<Issue>, full: bool) -> (r: String)
    ensures
        r@ == written(flushed(text_view(existing), issue_lines(issues@), full)),
{
    let fresh: Vec<ExportLine> = fresh_lines(issues);
    match existing {
        Some(text) => if full {
            export_text(&fresh)
        } else {
            let merged: Vec<ExportLine> = merge_lines(&lines_of_export(text), &fresh);
            export_text(&merged)
        },
        None => export_text(&fresh),
    }
}

/// The text of an export without the lines of the issues named in `gone`:
/// what is left of it when tombstones are pruned.  The lines that stay keep
/// their order.
pub fn pruned_text(existing: &str, gone: &Vec<String>) -> (r: String)
    ensures
        r@ == written(pruned(with_lines(Seq::empty(), pieces(existing@, '\n')), texts(gone@))),
{
    let kept: Vec<ExportLine> = without_lines(&lines_of_export(existing), gone);
    export_text(&kept)
}

} // verus!
