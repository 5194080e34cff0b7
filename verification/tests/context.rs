use beads_rust::model::EventType;
use beads_rust::storage::context::{
    clear_blocked_cache, MutationContext, CLEAR_BLOCKED_CACHE, INSERT_EVENT, UPSERT_DIRTY,
};
use beads_rust::storage::effects::{
    dependencies_removed, dependency_added, dependency_removed, issue_created, issue_deleted,
    label_added,
};
use beads_rust::storage::sql::SqlValue;

fn text_of(value: &SqlValue) -> Option<&str> {
    match value {
        SqlValue::Text(s) => Some(s.as_str()),
        _ => None,
    }
}

#[test]
fn new_context_has_gathered_nothing() {
    let ctx = MutationContext::new("create_issue", "alice");
    assert_eq!(ctx.op_name, "create_issue");
    assert_eq!(ctx.actor, "alice");
    assert!(ctx.events.is_empty());
    assert!(ctx.dirty_ids.is_empty());
    assert!(!ctx.invalidate_blocked_cache);
    assert!(ctx.commit_statements().is_empty());
}

#[test]
fn events_carry_the_actor_and_the_time_of_the_mutation() {
    let mut ctx = MutationContext::new("op", "alice");
    ctx.record_event(EventType::Created, "bd-001", Some("hello".to_string()));
    ctx.record_change(
        EventType::PriorityChanged,
        "bd-001",
        Some("2".to_string()),
        Some("0".to_string()),
    );
    assert_eq!(ctx.events.len(), 2);
    assert_eq!(ctx.events[0].id, 0);
    assert_eq!(ctx.events[0].issue_id, "bd-001");
    assert_eq!(ctx.events[0].event_type, EventType::Created);
    assert_eq!(ctx.events[0].actor, "alice");
    assert_eq!(ctx.events[0].comment.as_deref(), Some("hello"));
    assert_eq!(ctx.events[0].old_value, None);
    assert_eq!(ctx.events[0].created_at, ctx.started_at);
    assert_eq!(ctx.events[1].event_type, EventType::PriorityChanged);
    assert_eq!(ctx.events[1].old_value.as_deref(), Some("2"));
    assert_eq!(ctx.events[1].new_value.as_deref(), Some("0"));
    assert_eq!(ctx.events[1].comment, None);
    assert_eq!(ctx.events[1].created_at, ctx.started_at);
}

#[test]
fn an_issue_is_marked_dirty_once() {
    let mut ctx = MutationContext::new("op", "alice");
    ctx.mark_dirty("bd-002");
    ctx.mark_dirty("bd-001");
    ctx.mark_dirty("bd-002");
    assert_eq!(ctx.dirty_ids, vec!["bd-002", "bd-001"]);
}

#[test]
fn commit_writes_events_then_dirty_marks_then_clears_the_cache() {
    let mut ctx = MutationContext::new("op", "alice");
    ctx.mark_dirty("bd-001");
    ctx.record_event(EventType::Closed, "bd-001", None);
    ctx.invalidate_cache();
    ctx.mark_dirty("bd-002");
    let plan = ctx.commit_statements();
    assert_eq!(plan.len(), 4);
    let now = ctx.started_at.to_rfc3339();

    assert_eq!(plan[0].sql, INSERT_EVENT);
    assert_eq!(plan[0].params.len(), 7);
    assert_eq!(text_of(&plan[0].params[0]), Some("bd-001"));
    assert_eq!(text_of(&plan[0].params[1]), Some("closed"));
    assert_eq!(text_of(&plan[0].params[2]), Some("alice"));
    assert!(matches!(plan[0].params[3], SqlValue::Null));
    assert!(matches!(plan[0].params[4], SqlValue::Null));
    assert!(matches!(plan[0].params[5], SqlValue::Null));
    assert_eq!(text_of(&plan[0].params[6]), Some(now.as_str()));

    assert_eq!(plan[1].sql, UPSERT_DIRTY);
    assert_eq!(text_of(&plan[1].params[0]), Some("bd-001"));
    assert_eq!(text_of(&plan[1].params[1]), Some(now.as_str()));
    assert_eq!(plan[2].sql, UPSERT_DIRTY);
    assert_eq!(text_of(&plan[2].params[0]), Some("bd-002"));

    assert_eq!(plan[3].sql, CLEAR_BLOCKED_CACHE);
    assert!(plan[3].params.is_empty());
    assert_eq!(clear_blocked_cache().sql, "DELETE FROM blocked_issues_cache");
}

#[test]
fn without_invalidation_the_cache_is_left_alone() {
    let mut ctx = MutationContext::new("op", "alice");
    ctx.record_event(EventType::LabelAdded, "bd-001", None);
    ctx.mark_dirty("bd-001");
    let plan = ctx.commit_statements();
    assert_eq!(plan.len(), 2);
    assert!(plan.iter().all(|s| s.sql != CLEAR_BLOCKED_CACHE));
}

#[test]
fn creating_records_an_event_and_invalidates() {
    let mut ctx = MutationContext::new("create_issue", "alice");
    issue_created(&mut ctx, "bd-001", "Write spec");
    assert_eq!(ctx.events.len(), 1);
    assert_eq!(ctx.events[0].event_type, EventType::Created);
    assert_eq!(ctx.events[0].issue_id, "bd-001");
    assert_eq!(ctx.events[0].actor, "alice");
    assert_eq!(ctx.events[0].comment.as_deref(), Some("Created issue: Write spec"));
    assert_eq!(ctx.dirty_ids, vec!["bd-001"]);
    assert!(ctx.invalidate_blocked_cache);
}

#[test]
fn deleting_records_an_event_and_invalidates() {
    let mut ctx = MutationContext::new("delete_issue", "alice");
    issue_deleted(&mut ctx, "bd-001", "duplicate");
    assert_eq!(ctx.events.len(), 1);
    assert_eq!(ctx.events[0].event_type, EventType::Deleted);
    assert_eq!(ctx.events[0].comment.as_deref(), Some("Deleted issue: duplicate"));
    assert_eq!(ctx.dirty_ids, vec!["bd-001"]);
    assert!(ctx.invalidate_blocked_cache);
}

#[test]
fn adding_a_dependency_marks_both_ends() {
    let mut ctx = MutationContext::new("add_dependency", "alice");
    dependency_added(&mut ctx, "bd-002", "bd-001");
    assert_eq!(ctx.events[0].event_type, EventType::DependencyAdded);
    assert_eq!(ctx.events[0].issue_id, "bd-002");
    assert_eq!(ctx.events[0].comment.as_deref(), Some("Added dependency on bd-001"));
    assert_eq!(ctx.dirty_ids, vec!["bd-002", "bd-001"]);
    assert!(ctx.invalidate_blocked_cache);
}

#[test]
fn removing_an_edge_that_was_not_there_records_nothing() {
    let mut ctx = MutationContext::new("remove_dependency", "alice");
    assert!(!dependency_removed(&mut ctx, 0, "bd-002", "bd-001"));
    assert!(ctx.events.is_empty());
    assert!(ctx.dirty_ids.is_empty());
    assert!(!ctx.invalidate_blocked_cache);

    assert!(dependency_removed(&mut ctx, 1, "bd-002", "bd-001"));
    assert_eq!(ctx.events.len(), 1);
    assert_eq!(ctx.events[0].event_type, EventType::DependencyRemoved);
    assert_eq!(ctx.events[0].comment.as_deref(), Some("Removed dependency on bd-001"));
    assert_eq!(ctx.dirty_ids, vec!["bd-002", "bd-001"]);
    assert!(ctx.invalidate_blocked_cache);
}

#[test]
fn a_label_that_was_there_records_nothing() {
    let mut ctx = MutationContext::new("add_label", "alice");
    assert!(!label_added(&mut ctx, 0, "bd-001", "urgent"));
    assert!(ctx.events.is_empty());
    assert!(ctx.dirty_ids.is_empty());

    assert!(label_added(&mut ctx, 1, "bd-001", "urgent"));
    assert_eq!(ctx.events[0].event_type, EventType::LabelAdded);
    assert_eq!(ctx.events[0].comment.as_deref(), Some("Added label urgent"));
    assert_eq!(ctx.dirty_ids, vec!["bd-001"]);
    assert!(!ctx.invalidate_blocked_cache);
}

#[test]
fn removing_all_edges_counts_both_directions() {
    let mut ctx = MutationContext::new("remove_all_dependencies", "alice");
    let linked = vec!["bd-002".to_string(), "bd-003".to_string(), "bd-002".to_string()];
    assert_eq!(dependencies_removed(&mut ctx, 2, 1, "bd-001", &linked), 3);
    assert_eq!(ctx.events.len(), 1);
    assert_eq!(ctx.events[0].event_type, EventType::DependencyRemoved);
    assert_eq!(ctx.events[0].comment.as_deref(), Some("Removed 3 dependency links"));
    assert_eq!(ctx.dirty_ids, vec!["bd-001", "bd-002", "bd-003"]);
    assert!(ctx.invalidate_blocked_cache);

    let mut idle = MutationContext::new("remove_all_dependencies", "alice");
    assert_eq!(dependencies_removed(&mut idle, 0, 0, "bd-001", &linked), 0);
    assert!(idle.events.is_empty());
    assert!(idle.dirty_ids.is_empty());
    assert!(!idle.invalidate_blocked_cache);
}
