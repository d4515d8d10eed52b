use evo_pro::repositories::query_builder::BindValue;
use evo_pro::repositories::task_query::{task_base_query, TaskQueryBuilder};
use evo_pro::repositories::task_repository::{
    batch_delete_query, calculate_task_score, detailed_task_stats_query, filtered_task_query, task_count_query,
    task_list_query, task_stats_query, tasks_with_relations_query, TaskFilter, TaskStats, TaskStatsRow,
};
use evo_pro::text::split_after_first;

#[test]
fn task_query_builder_filters_and_orders() {
    let mut q = TaskQueryBuilder::new();
    q.with_workspace_id(Some(7));
    q.with_status(Some(1));
    q.with_priority(None);
    q.active_only(Some(true));
    q.with_search_term(Some("report"));
    q.with_pagination(Some(10), Some(20));
    q.with_default_ordering();
    let expected = format!(
        "{} WHERE workspace_id = ? AND status = ? AND status NOT IN (2, 3) AND (title LIKE ? OR description LIKE ?) LIMIT ? OFFSET ? ORDER BY due_date ASC, priority DESC, importance DESC, title ASC",
        task_base_query()
    );
    assert_eq!(q.builder().sql(), expected);
    assert_eq!(
        q.builder().binds(),
        &vec![
            BindValue::Uuid(7),
            BindValue::Integer(1),
            BindValue::Text("%report%".to_string()),
            BindValue::Text("%report%".to_string()),
            BindValue::Integer(10),
            BindValue::Integer(20),
        ]
    );
}

#[test]
fn task_query_builder_skips_absent_filters() {
    let mut q = TaskQueryBuilder::new();
    q.with_plan_id(None);
    q.overdue_only(Some(false));
    q.with_search_term(Some(""));
    q.with_due_date_range(None, None);
    assert_eq!(q.builder().sql(), task_base_query());
    assert!(q.builder().binds().is_empty());
    q.with_due_date_range(Some(5), Some(9));
    q.overdue_only(Some(true));
    assert!(q.builder().sql().ends_with(
        " WHERE due_date >= ? AND due_date <= ? AND due_date < datetime('now') AND status NOT IN (2, 3)"
    ));
    assert_eq!(q.builder().binds(), &vec![BindValue::Timestamp(5), BindValue::Timestamp(9)]);
}

#[test]
fn relations_query_text() {
    let id: u128 = 0x67e5504410b1426f9247bb680e5fe0c8;
    let filter = TaskFilter {
        workspace_id: Some(id),
        status: Some(2),
        overdue_only: Some(true),
        limit: Some(5),
        offset: Some(10),
        ..TaskFilter::default()
    };
    let q = tasks_with_relations_query(&filter);
    assert!(q.trim_start().starts_with("SELECT"));
    assert!(q.ends_with(
        " WHERE t.workspace_id = '67e55044-10b1-426f-9247-bb680e5fe0c8' AND t.status = 2 AND t.due_date < datetime('now') AND t.status NOT IN (2, 3) ORDER BY t.due_date ASC, t.priority DESC, t.importance DESC, t.title ASC LIMIT 5 OFFSET 10"
    ));
    assert!(q.contains(&uuid::Uuid::from_u128(id).to_string()));

    let plain = tasks_with_relations_query(&TaskFilter { offset: Some(3), ..TaskFilter::default() });
    assert!(plain.ends_with("c.id\n         ORDER BY t.due_date ASC, t.priority DESC, t.importance DESC, t.title ASC"));
}

#[test]
fn statistics_queries_and_rows() {
    let q = task_stats_query();
    assert!(q.starts_with("SELECT COUNT(*) as total_tasks,"));
    assert!(q.ends_with(" FROM tasks"));
    let d = detailed_task_stats_query();
    assert!(d.ends_with(
        " FROM workspaces w LEFT JOIN tasks t ON w.id = t.workspace_id GROUP BY w.id, w.name ORDER BY w.name ASC"
    ));
    let row = TaskStatsRow {
        pending_tasks: Some(3),
        in_progress_tasks: None,
        completed_tasks: Some(4),
        failed_tasks: Some(0),
        high_priority_tasks: Some(1),
        important_tasks: None,
        overdue_tasks: Some(2),
        total_tasks: Some(9),
    };
    let s = TaskStats::from_row(&row);
    assert_eq!(s.pending_tasks, 3);
    assert_eq!(s.in_progress_tasks, 0);
    assert_eq!(s.total_tasks, 9);
}

#[test]
fn task_scores() {
    // High priority (2) and importance (2), not due.
    assert_eq!(calculate_task_score(2, 2, None, 0, 100), 14);
    // Overdue and pending: ten more.
    assert_eq!(calculate_task_score(1, 0, Some(50), 0, 100), 13);
    // Overdue but completed or failed: no penalty.
    assert_eq!(calculate_task_score(1, 0, Some(50), 2, 100), 3);
    assert_eq!(calculate_task_score(1, 0, Some(50), 3, 100), 3);
    // Due later: no penalty.
    assert_eq!(calculate_task_score(0, 1, Some(150), 0, 100), 4);
}

#[test]
fn batch_delete_query_numbers_placeholders() {
    assert_eq!(batch_delete_query(1), "DELETE FROM tasks WHERE id IN ($1)");
    assert_eq!(batch_delete_query(3), "DELETE FROM tasks WHERE id IN ($1, $2, $3)");
    assert_eq!(
        batch_delete_query(11),
        "DELETE FROM tasks WHERE id IN ($1, $2, $3, $4, $5, $6, $7, $8, $9, $10, $11)"
    );
}

#[test]
fn task_list_query_applies_the_whole_filter() {
    let filter = TaskFilter {
        plan_id: Some(5),
        importance: Some(2),
        overdue_only: Some(true),
        due_date_after: Some(1_000),
        due_date_before: Some(2_000),
        search_term: Some("tax".to_string()),
        limit: Some(25),
        ..TaskFilter::default()
    };
    let q = task_list_query(&filter);
    let expected = format!(
        "{} WHERE plan_id = ? AND importance = ? AND due_date < datetime('now') AND status NOT IN (2, 3) AND due_date >= ? AND due_date <= ? AND (title LIKE ? OR description LIKE ?) LIMIT ? ORDER BY due_date ASC, priority DESC, importance DESC, title ASC",
        task_base_query()
    );
    assert_eq!(q.builder().sql(), expected);
    assert_eq!(
        q.builder().binds(),
        &vec![
            BindValue::Uuid(5),
            BindValue::Integer(2),
            BindValue::Timestamp(1_000),
            BindValue::Timestamp(2_000),
            BindValue::Text("%tax%".to_string()),
            BindValue::Text("%tax%".to_string()),
            BindValue::Integer(25),
        ]
    );
}

#[test]
fn task_list_query_without_filter_only_orders() {
    let q = task_list_query(&TaskFilter::default());
    let expected = format!(
        "{} ORDER BY due_date ASC, priority DESC, importance DESC, title ASC",
        task_base_query()
    );
    assert_eq!(q.builder().sql(), expected);
    assert!(q.builder().binds().is_empty());
}

#[test]
fn filtered_task_query_ignores_empty_search() {
    let filter = TaskFilter { search_term: Some(String::new()), active_only: Some(false), ..TaskFilter::default() };
    let q = filtered_task_query(&filter);
    assert_eq!(q.builder().sql(), task_base_query());
    assert!(!q.builder().has_where());
}

#[test]
fn task_count_query_keeps_the_conditions() {
    assert_eq!(task_count_query(&TaskFilter::default()), "SELECT COUNT(*) as count FROM tasks");
    let filter = TaskFilter {
        workspace_id: Some(1),
        status: Some(0),
        active_only: Some(true),
        limit: Some(3),
        offset: Some(9),
        ..TaskFilter::default()
    };
    assert_eq!(
        task_count_query(&filter),
        "SELECT COUNT(*) as count FROM tasks WHERE workspace_id = ? AND status = ? AND status NOT IN (2, 3)"
    );
}

#[test]
fn split_after_first_takes_the_first_occurrence() {
    assert_eq!(split_after_first("a WHERE b WHERE c", "WHERE"), Some(" b WHERE c".to_string()));
    assert_eq!(split_after_first("no clause", "WHERE"), None);
    assert_eq!(split_after_first("abc", ""), Some("abc".to_string()));
    assert_eq!(split_after_first("ab", "abc"), None);
    assert_eq!(split_after_first("xxab", "ab"), Some(String::new()));
}
