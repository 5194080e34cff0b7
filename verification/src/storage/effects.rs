//! What each operation records once its statement has run: the event, the
//! issues whose export is stale, and whether the cache of blocked issues has
//! to go.  Each function takes what SQLite answered and is exact about what
//! follows from it.

use vstd::prelude::*;
use crate::model::{EventData, EventType};
use crate::storage::context::MutationContext;
use crate::text::{digits, format_decimal};

verus! {

/// The dirty list after `id` has been marked.
pub open spec fn marked(dirty: Seq<Seq<char>>, id: Seq<char>) -> Seq<Seq<char>> {
    if dirty.contains(id) {
        dirty
    } else {
        dirty.push(id)
    }
}

/// `after` is `before` with one more event: of the given type, on `issue_id`,
/// by the actor and at the time of the mutation, with `comment`.
pub open spec fn recorded(
    before: MutationContext,
    after: MutationContext,
    event_type: EventType,
    issue_id: Seq<char>,
    comment: Seq<char>,
) -> bool {
    &&& after.journal() == before.journal().push(
        EventData {
            id: 0,
            issue_id: issue_id,
            event_type: event_type,
            actor: before.actor@,
            old_value: None,
            new_value: None,
            comment: Some(comment),
            created_at: before.started_at,
        },
    )
    &&& after.op_name == before.op_name
    &&& after.actor == before.actor
    &&& after.started_at == before.started_at
    &&& before.wf() ==> after.wf()
}

/// `after` records nothing that `before` does not.
pub open spec fn untouched(before: MutationContext, after: MutationContext) -> bool {
    after == before
}

fn comment_with(prefix: &str, rest: &str) -> (r: String)
    ensures
        r@ == prefix@ + rest@,
{
    let mut r: String = prefix.to_owned();
    r.append(rest);
    r
}

/// After the row of a new issue went in: a `created` event, the issue is
/// dirty, and the cache of blocked issues goes.
pub fn issue_created(ctx: &mut MutationContext, id: &str, title: &str)
    ensures
        recorded(*old(ctx), *final(ctx), EventType::Created, id@, "Created issue: "@ + title@),
        final(ctx).dirty() == marked(old(ctx).dirty(), id@),
        final(ctx).invalidate_blocked_cache,
{
    ctx.record_event(EventType::Created, id, Some(comment_with("Created issue: ", title)));
    ctx.mark_dirty(id);
    ctx.invalidate_cache();
}

/// After an issue became a tombstone: a `deleted` event, the issue is dirty,
/// and the cache of blocked issues goes.
pub fn issue_deleted(ctx: &mut MutationContext, id: &str, reason: &str)
    ensures
        recorded(*old(ctx), *final(ctx), EventType::Deleted, id@, "Deleted issue: "@ + reason@),
        final(ctx).dirty() == marked(old(ctx).dirty(), id@),
        final(ctx).invalidate_blocked_cache,
{
    ctx.record_event(EventType::Deleted, id, Some(comment_with("Deleted issue: ", reason)));
    ctx.mark_dirty(id);
    ctx.invalidate_cache();
}

/// After a dependency edge went in: a `dependency_added` event on the
/// dependent issue, both ends are dirty, and the cache of blocked issues goes.
pub fn dependency_added(ctx: &mut MutationContext, issue_id: &str, depends_on_id: &str)
    ensures
        recorded(
            *old(ctx),
            *final(ctx),
            EventType::DependencyAdded,
            issue_id@,
            "Added dependency on "@ + depends_on_id@,
        ),
        final(ctx).dirty() == marked(marked(old(ctx).dirty(), issue_id@), depends_on_id@),
        final(ctx).invalidate_blocked_cache,
{
    ctx.record_event(
        EventType::DependencyAdded,
        issue_id,
        Some(comment_with("Added dependency on ", depends_on_id)),
    );
    ctx.mark_dirty(issue_id);
    ctx.mark_dirty(depends_on_id);
    ctx.invalidate_cache();
}

/// After the statement that removes a dependency edge changed `changed` rows.
/// Where an edge went: a `dependency_removed` event, both ends are dirty, and
/// the cache of blocked issues goes.  Where none did, nothing is recorded.
/// The result says whether an edge went.
pub fn dependency_removed(ctx: &mut MutationContext, changed: usize, issue_id: &str, depends_on_id: &str) -> (r: bool)
    ensures
        r == (changed > 0),
        changed > 0 ==> recorded(
            *old(ctx),
            *final(ctx),
            EventType::DependencyRemoved,
            issue_id@,
            "Removed dependency on "@ + depends_on_id@,
        ) && final(ctx).dirty() == marked(marked(old(ctx).dirty(), issue_id@), depends_on_id@)
            && final(ctx).invalidate_blocked_cache,
        changed == 0 ==> untouched(*old(ctx), *final(ctx)),
{
    if changed > 0 {
        ctx.record_event(
            EventType::DependencyRemoved,
            issue_id,
            Some(comment_with("Removed dependency on ", depends_on_id)),
        );
        ctx.mark_dirty(issue_id);
        ctx.mark_dirty(depends_on_id);
        ctx.invalidate_cache();
    }
    changed > 0
}

/// After the statement that adds a label changed `changed` rows.  Where the
/// label is new: a `label_added` event, and the issue is dirty.  Where the
/// issue had it already, nothing is recorded.  The result says whether the
/// label is new.
pub fn label_added(ctx: &mut MutationContext, changed: usize, issue_id: &str, label: &str) -> (r: bool)
    ensures
        r == (changed > 0),
        changed > 0 ==> recorded(
            *old(ctx),
            *final(ctx),
            EventType::LabelAdded,
            issue_id@,
            "Added label "@ + label@,
        ) && final(ctx).dirty() == marked(old(ctx).dirty(), issue_id@)
            && final(ctx).invalidate_blocked_cache == old(ctx).invalidate_blocked_cache,
        changed == 0 ==> untouched(*old(ctx), *final(ctx)),
{
    if changed > 0 {
        ctx.record_event(EventType::LabelAdded, issue_id, Some(comment_with("Added label ", label)));
        ctx.mark_dirty(issue_id);
    }
    changed > 0
}

/// The dirty list after each id of `ids` has been marked, in order.
pub open spec fn marked_all(dirty: Seq<Seq<char>>, ids: Seq<Seq<char>>) -> Seq<Seq<char>>
    decreases ids.len(),
{
    if ids.len() == 0 {
        dirty
    } else {
        marked(marked_all(dirty, ids.drop_last()), ids.last())
    }
}

/// What is marked stays marked when more is marked.
pub proof fn marking_keeps_what_is_marked(dirty: Seq<Seq<char>>, ids: Seq<Seq<char>>, id: Seq<char>)
    requires
        dirty.contains(id),
    ensures
        marked_all(dirty, ids).contains(id),
    decreases ids.len(),
{
    if ids.len() > 0 {
        marking_keeps_what_is_marked(dirty, ids.drop_last(), id);
        let before = marked_all(dirty, ids.drop_last());
        let k = choose|k: int| 0 <= k < before.len() && before[k] == id;
        if !before.contains(ids.last()) {
            assert(before.push(ids.last())[k] == id);
        }
    }
}

/// The comment of the event that records the removal of `total` edges.
pub open spec fn removed_links_comment(total: nat) -> Seq<char> {
    "Removed "@ + digits(total, 10) + " dependency links"@
}

/// After all edges of an issue were removed, `outgoing` from it and `incoming`
/// to it, `linked` being the issues at their other ends.  Where any edge went:
/// one `dependency_removed` event with the total, the issue and every linked
/// issue are dirty, and the cache of blocked issues goes.  Where none did,
/// nothing is recorded.  The result is the total.
pub fn dependencies_removed(
    ctx: &mut MutationContext,
    outgoing: usize,
    incoming: usize,
    issue_id: &str,
    linked: &Vec<String>,
) -> (r: usize)
    requires
        outgoing + incoming <= usize::MAX,
    ensures
        r == outgoing + incoming,
        r > 0 ==> recorded(
            *old(ctx),
            *final(ctx),
            EventType::DependencyRemoved,
            issue_id@,
            removed_links_comment(r as nat),
        ) && final(ctx).dirty() == marked_all(
            marked(old(ctx).dirty(), issue_id@),
            crate::model::texts(linked@),
        ) && final(ctx).invalidate_blocked_cache,
        r == 0 ==> untouched(*old(ctx), *final(ctx)),
{
    let total: usize = outgoing + incoming;
    if total > 0 {
        let mut comment: String = "Removed ".to_owned();
        let number: String = format_decimal(total as u64);
        comment.append(number.as_str());
        comment.append(" dependency links");
        assert(comment@ =~= removed_links_comment(total as nat));
        ctx.record_event(EventType::DependencyRemoved, issue_id, Some(comment));
        ctx.mark_dirty(issue_id);
        let ghost base = *ctx;
        let mut i: usize = 0;
        while i < linked.len()
            invariant
                i <= linked.len(),
                ctx.dirty() == marked_all(base.dirty(), crate::model::texts(linked@).take(i as int)),
                ctx.events == base.events,
                ctx.op_name == base.op_name,
                ctx.actor == base.actor,
                ctx.started_at == base.started_at,
                ctx.invalidate_blocked_cache == base.invalidate_blocked_cache,
                old(ctx).wf() ==> ctx.wf(),
            decreases linked.len() - i,
        {
            ctx.mark_dirty(linked[i].as_str());
            proof {
                let ids = crate::model::texts(linked@);
                assert(ids.take(i + 1).drop_last() =~= ids.take(i as int));
                assert(ids.take(i + 1).last() == linked@[i as int]@);
            }
            i = i + 1;
        }
        assert(crate::model::texts(linked@).take(i as int) =~= crate::model::texts(linked@));
        ctx.invalidate_cache();
    }
    total
}

/// After an issue was closed: a `closed` event with the reason, if one was
/// given, the issue is dirty, and the cache of blocked issues goes.
pub fn issue_closed(ctx: &mut MutationContext, id: &str, reason: Option<&str>)
    ensures
        final(ctx).journal() == old(ctx).journal().push(
            EventData {
                id: 0,
                issue_id: id@,
                event_type: EventType::Closed,
                actor: old(ctx).actor@,
                old_value: None,
                new_value: None,
                comment: match reason { Some(s) => Some(s@), None => None },
                created_at: old(ctx).started_at,
            },
        ),
        final(ctx).dirty() == marked(old(ctx).dirty(), id@),
        final(ctx).invalidate_blocked_cache,
        final(ctx).actor == old(ctx).actor,
        final(ctx).started_at == old(ctx).started_at,
        old(ctx).wf() ==> final(ctx).wf(),
{
    let comment: Option<String> = match reason {
        Some(s) => Some(s.to_owned()),
        None => None,
    };
    ctx.record_event(EventType::Closed, id, comment);
    ctx.mark_dirty(id);
    ctx.invalidate_cache();
}

/// After an issue was reopened: a `reopened` event, the issue is dirty, and
/// the cache of blocked issues goes.
pub fn issue_reopened(ctx: &mut MutationContext, id: &str)
    ensures
        recorded(*old(ctx), *final(ctx), EventType::Reopened, id@, "Reopened issue"@),
        final(ctx).dirty() == marked(old(ctx).dirty(), id@),
        final(ctx).invalidate_blocked_cache,
{
    ctx.record_event(EventType::Reopened, id, Some("Reopened issue".to_owned()));
    ctx.mark_dirty(id);
    ctx.invalidate_cache();
}

/// Whatever an operation records, it records at least one event, by the
/// actor of the mutation and at the time of the mutation, which is the time
/// that the operation stamps the rows it changes with.
pub proof fn recorded_event_carries_actor_and_time(
    before: MutationContext,
    after: MutationContext,
    event_type: EventType,
    issue_id: Seq<char>,
    comment: Seq<char>,
)
    requires
        before.wf(),
        recorded(before, after, event_type, issue_id, comment),
    ensures
        after.journal().len() == before.journal().len() + 1,
        after.journal().last().actor == after.actor@,
        after.journal().last().created_at == after.started_at,
        after.journal().last().issue_id == issue_id,
        after.wf(),
{
}

/// After the statement that removes a label changed `changed` rows.  Where
/// the issue had the label: a `label_removed` event, and the issue is dirty.
/// Where it had not, nothing is recorded.  The result says whether the issue
/// had the label.
pub fn label_removed(ctx: &mut MutationContext, changed: usize, issue_id: &str, label: &str) -> (r: bool)
    ensures
        r == (changed > 0),
        changed > 0 ==> recorded(
            *old(ctx),
            *final(ctx),
            EventType::LabelRemoved,
            issue_id@,
            "Removed label "@ + label@,
        ) && final(ctx).dirty() == marked(old(ctx).dirty(), issue_id@)
            && final(ctx).invalidate_blocked_cache == old(ctx).invalidate_blocked_cache,
        changed == 0 ==> untouched(*old(ctx), *final(ctx)),
{
    if changed > 0 {
        ctx.record_event(EventType::LabelRemoved, issue_id, Some(comment_with("Removed label ", label)));
        ctx.mark_dirty(issue_id);
    }
    changed > 0
}

/// After a comment went in: a `comment_added` event, and the issue is dirty.
pub fn comment_added(ctx: &mut MutationContext, issue_id: &str, author: &str)
    ensures
        recorded(*old(ctx), *final(ctx), EventType::CommentAdded, issue_id@, "Comment by "@ + author@),
        final(ctx).dirty() == marked(old(ctx).dirty(), issue_id@),
        final(ctx).invalidate_blocked_cache == old(ctx).invalidate_blocked_cache,
{
    ctx.record_event(EventType::CommentAdded, issue_id, Some(comment_with("Comment by ", author)));
    ctx.mark_dirty(issue_id);
}

} // verus!
