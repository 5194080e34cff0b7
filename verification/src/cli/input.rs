//! What the commands that write make of their arguments: the issue to
//! create, the labels to apply, the ids to delete.

use vstd::prelude::*;
use crate::cli::{CreateArgs, DeleteArgs, QuickArgs, parse_priority, spelled_priority};
use crate::error::{BeadsError, invalid_argument};
use crate::model::{Issue, IssueData, IssueType, Priority, opt_text, texts};
use crate::text::{pieces, split, trim, trimmed};
use crate::time::Timestamp;

verus! {

/// The priority that an argument names: 2 where none is given, no priority
/// at all where the argument spells none.
pub open spec fn named_priority(argument: Option<Seq<char>>) -> Option<Priority> {
    match argument {
        Some(p) => spelled_priority(p),
        None => Some(Priority(2)),
    }
}

/// The issue that starts out with the given type, priority and description,
/// where the arguments spell a type and a priority.
pub open spec fn drafted(
    id: Seq<char>,
    title: Seq<char>,
    type_: Option<Seq<char>>,
    priority: Option<Seq<char>>,
    description: Option<Seq<char>>,
    now: Timestamp,
) -> Option<IssueData> {
    match (IssueType::named(type_), named_priority(priority)) {
        (Some(issue_type), Some(level)) => Some(
            IssueData { issue_type, priority: level, description, ..IssueData::fresh(id, title, now) },
        ),
        _ => None,
    }
}

/// Builds the issue that a command creates.  An argument that spells no type
/// or no priority is `InvalidArgument`.
pub fn draft_issue(
    id: &str,
    title: &str,
    type_: &Option<String>,
    priority: &Option<String>,
    description: &Option<String>,
    now: Timestamp,
) -> (r: Result<Issue, BeadsError>)
    ensures
        match drafted(id@, title@, opt_text(*type_), opt_text(*priority), opt_text(*description), now) {
            Some(issue) => r matches Ok(made) && made@ == issue,
            None => r matches Err(BeadsError::InvalidArgument { .. }),
        },
{
    let issue_type: IssueType = match type_ {
        Some(t) => match IssueType::parse(t.as_str()) {
            Some(issue_type) => issue_type,
            None => {
                return Err(invalid_argument("unknown issue type"));
            },
        },
        None => IssueType::Task,
    };
    let level: Priority = match priority {
        Some(p) => match parse_priority(p.as_str()) {
            Some(level) => level,
            None => {
                return Err(invalid_argument("not a priority"));
            },
        },
        None => Priority(2),
    };
    let mut issue: Issue = Issue::new(id, title, now);
    issue.issue_type = issue_type;
    issue.priority = level;
    issue.description = description.clone();
    assert(issue@.labels =~= Seq::empty());
    assert(issue@.dependencies =~= Seq::empty());
    assert(issue@.comments =~= Seq::empty());
    Ok(issue)
}

/// The title of the issue to create: the one given by position, else the
/// one given by flag, else none.
pub open spec fn title_of(args: CreateArgs) -> Seq<char> {
    match args.title {
        Some(t) => t@,
        None => match args.title_flag {
            Some(t) => t@,
            None => Seq::empty(),
        },
    }
}

/// The issue that `create` makes of its arguments, under the id chosen for
/// it.
pub fn issue_to_create(args: &CreateArgs, id: &str, now: Timestamp) -> (r: Result<Issue, BeadsError>)
    ensures
        match drafted(
            id@,
            title_of(*args),
            opt_text(args.type_),
            opt_text(args.priority),
            opt_text(args.description),
            now,
        ) {
            Some(issue) => r matches Ok(made) && made@ == issue,
            None => r matches Err(BeadsError::InvalidArgument { .. }),
        },
{
    let title: &str = match &args.title {
        Some(t) => t.as_str(),
        None => match &args.title_flag {
            Some(t) => t.as_str(),
            None => "",
        },
    };
    proof {
        reveal_strlit("");
        assert(""@ =~= Seq::empty());
    }
    draft_issue(id, title, &args.type_, &args.priority, &args.description, now)
}

/// Words in a row, one space between each two.
pub open spec fn spaced(words: Seq<Seq<char>>) -> Seq<char>
    decreases words.len(),
{
    if words.len() == 0 {
        Seq::empty()
    } else if words.len() == 1 {
        words[0]
    } else {
        spaced(words.drop_last()) + " "@ + words.last()
    }
}

/// Puts the words in a row, one space between each two.
pub fn join_words(words: &Vec<String>) -> (r: String)
    ensures
        r@ == spaced(texts(words@)),
{
    let mut out: String = String::new();
    let mut i: usize = 0;
    while i < words.len()
        invariant
            i <= words.len(),
            out@ == spaced(texts(words@).take(i as int)),
        decreases words.len() - i,
    {
        proof {
            let head = texts(words@).take(i + 1);
            assert(head.drop_last() =~= texts(words@).take(i as int));
            assert(head.last() == words@[i as int]@);
            assert(head[0] == words@[0]@);
        }
        if i > 0 {
            out.append(" ");
        }
        out.append(words[i].as_str());
        proof {
            if i == 0 {
                assert(out@ =~= words@[0]@);
            }
        }
        i = i + 1;
    }
    proof {
        assert(texts(words@).take(i as int) =~= texts(words@));
    }
    out
}

/// The issue that a quick capture makes of its arguments: the words of the
/// title in a row, no description.
pub fn issue_to_capture(args: &QuickArgs, id: &str, now: Timestamp) -> (r: Result<Issue, BeadsError>)
    ensures
        match drafted(
            id@,
            spaced(texts(args.title@)),
            opt_text(args.type_),
            opt_text(args.priority),
            None,
            now,
        ) {
            Some(issue) => r matches Ok(made) && made@ == issue,
            None => r matches Err(BeadsError::InvalidArgument { .. }),
        },
{
    let title: String = join_words(&args.title);
    draft_issue(id, title.as_str(), &args.type_, &args.priority, &None, now)
}

/// Whether a piece of a list names something: it is not blank and, where
/// remarks are allowed, not a remark, which starts with `#`.
pub open spec fn names_something(piece: Seq<char>, remarks: bool) -> bool {
    trimmed(piece).len() > 0 && !(remarks && trimmed(piece)[0] == '#')
}

/// `names` followed by what the pieces name, each without the white space
/// around it.
pub open spec fn with_named(names: Seq<Seq<char>>, list: Seq<Seq<char>>, remarks: bool) -> Seq<Seq<char>>
    decreases list.len(),
{
    if list.len() == 0 {
        names
    } else {
        let before = with_named(names, list.drop_last(), remarks);
        if names_something(list.last(), remarks) {
            before.push(trimmed(list.last()))
        } else {
            before
        }
    }
}

/// Appends to `names` what the pieces name.
fn push_named(names: &mut Vec<String>, list: &Vec<String>, remarks: bool)
    ensures
        texts(final(names)@) == with_named(texts(old(names)@), texts(list@), remarks),
{
    let mut i: usize = 0;
    proof {
        assert(texts(list@).take(0) =~= Seq::empty());
    }
    while i < list.len()
        invariant
            i <= list.len(),
            texts(names@) == with_named(texts(old(names)@), texts(list@).take(i as int), remarks),
        decreases list.len() - i,
    {
        let ghost before = texts(names@);
        proof {
            assert(texts(list@).take(i + 1).drop_last() =~= texts(list@).take(i as int));
            assert(texts(list@).take(i + 1).last() == list@[i as int]@);
        }
        let name: &str = trim(list[i].as_str());
        if name.unicode_len() > 0 && !(remarks && name.get_char(0) == '#') {
            names.push(name.to_owned());
            proof {
                assert(texts(names@) =~= before.push(name@));
            }
        }
        i = i + 1;
    }
    proof {
        assert(texts(list@).take(i as int) =~= texts(list@));
    }
}

/// The labels that arguments name: each argument may hold several, with
/// commas between them.
pub open spec fn labels_named(arguments: Seq<Seq<char>>) -> Seq<Seq<char>>
    decreases arguments.len(),
{
    if arguments.len() == 0 {
        Seq::empty()
    } else {
        with_named(labels_named(arguments.drop_last()), pieces(arguments.last(), ','), false)
    }
}

/// The labels that a quick capture applies.
pub fn labels_to_apply(args: &QuickArgs) -> (r: Vec<String>)
    ensures
        texts(r@) == labels_named(texts(args.labels@)),
{
    let mut labels: Vec<String> = Vec::new();
    let mut i: usize = 0;
    proof {
        assert(texts(args.labels@).take(0) =~= Seq::empty());
        assert(texts(labels@) =~= Seq::empty());
    }
    while i < args.labels.len()
        invariant
            i <= args.labels.len(),
            texts(labels@) == labels_named(texts(args.labels@).take(i as int)),
        decreases args.labels.len() - i,
    {
        proof {
            assert(texts(args.labels@).take(i + 1).drop_last() =~= texts(args.labels@).take(i as int));
            assert(texts(args.labels@).take(i + 1).last() == args.labels@[i as int]@);
        }
        let parts: Vec<String> = split(args.labels[i].as_str(), ',');
        proof {
            assert(texts(parts@) =~= pieces(args.labels@[i as int]@, ','));
        }
        push_named(&mut labels, &parts, false);
        i = i + 1;
    }
    proof {
        assert(texts(args.labels@).take(i as int) =~= texts(args.labels@));
    }
    labels
}

/// The ids that a deletion names: those of the arguments, then those of the
/// listing, one to a line, where blank lines and lines that start with `#`
/// name none.
pub open spec fn ids_named(ids: Seq<Seq<char>>, listing: Option<Seq<char>>) -> Seq<Seq<char>> {
    match listing {
        Some(text) => with_named(ids, pieces(text, '\n'), true),
        None => ids,
    }
}

/// The ids that a deletion is to delete, given the contents of the file
/// that lists more of them, where the arguments name one.  A deletion that
/// names no issue is `InvalidArgument`.
pub fn ids_to_delete(args: &DeleteArgs, listing: Option<&str>) -> (r: Result<Vec<String>, BeadsError>)
    ensures
        ({
            let named = ids_named(
                texts(args.ids@),
                match listing {
                    Some(text) => Some(text@),
                    None => None,
                },
            );
            if named.len() == 0 {
                r matches Err(BeadsError::InvalidArgument { .. })
            } else {
                r matches Ok(ids) && texts(ids@) == named
            }
        }),
{
    let mut ids: Vec<String> = args.ids.clone();
    proof {
        assert(texts(ids@) =~= texts(args.ids@));
    }
    if let Some(text) = listing {
        let lines: Vec<String> = split(text, '\n');
        proof {
            assert(texts(lines@) =~= pieces(text@, '\n'));
        }
        push_named(&mut ids, &lines, true);
    }
    if ids.len() == 0 {
        Err(invalid_argument("no issue to delete"))
    } else {
        Ok(ids)
    }
}

} // verus!
