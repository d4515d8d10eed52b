use vstd::prelude::*;
use vstd::arithmetic::power::pow;
use crate::repositories::query_builder::{
    comma_joined, condition_text, direction_sql, logical_sql, opener, BindValue, ConditionOperator, EnhancedQueryBuilder,
    LogicalOperator, OrderDirection, QueryView,
};
use crate::repositories::task_query::{and_condition, task_base_query_text, TaskQueryBuilder};
use crate::text::{after_first, append_decimal, append_decimal_i64, decimal, first_at, signed_decimal, split_after_first, text_at};

verus! {

/// The hexadecimal digit of `d` (0 to 15), lower case.
pub open spec fn hex_digit(d: int) -> char {
    if d < 10 { (48 + d) as char } else { (87 + d) as char }
}

/// The `k`th hexadecimal digit of `id` (0 to 31), most significant first.
pub open spec fn hex_nibble(id: u128, k: int) -> int {
    (id as int / pow(16, (31 - k) as nat)) % 16
}

/// The text of a UUID: its 32 hexadecimal digits, most significant first,
/// in groups of 8, 4, 4, 4 and 12 separated by hyphens.
pub open spec fn uuid_text(id: u128) -> Seq<char> {
    Seq::new(36, |i: int|
        if i == 8 || i == 13 || i == 18 || i == 23 {
            '-'
        } else {
            hex_digit(hex_nibble(id, i - (if i < 8 { 0int } else if i < 13 { 1int } else if i < 18 { 2int } else if i < 23 { 3int } else { 4int })))
        }
    )
}

/// Formats a UUID with `uuid::Uuid::from_u128` and its `Display`
/// (`to_string`): the claim is that this gives the hyphenated lower-case
/// form, 32 hexadecimal digits of the value, most significant first, in
/// groups of 8-4-4-4-12, as the crate documents for `Uuid`'s `Display`.
#[verifier::external_body]
fn uuid_string(id: u128) -> (r: String)
    ensures
        r@ == uuid_text(id),
{
    uuid::Uuid::from_u128(id).to_string()
}

/// A filter of the task list. Statuses, priorities and importances are
/// given by their stored numbers, times in milliseconds since the Unix
/// epoch.
#[derive(Debug, Clone, Default)]
pub struct TaskFilter {
    pub workspace_id: Option<u128>,
    pub plan_id: Option<u128>,
    pub status: Option<i64>,
    pub priority: Option<i64>,
    pub importance: Option<i64>,
    pub active_only: Option<bool>,
    pub overdue_only: Option<bool>,
    pub due_date_after: Option<i64>,
    pub due_date_before: Option<i64>,
    pub search_term: Option<String>,
    pub limit: Option<usize>,
    pub offset: Option<usize>,
}

/// The query that selects tasks with the names of their workspace, plan,
/// assignee and creator.
pub open spec fn relations_base_text() -> Seq<char> {
    r#"
            SELECT 
                t.id as "task_id: _",
                t.title as "task_title",
                t.description as "task_description",
                t.status as "task_status: TaskStatus",
                t.start_time as "task_start_time: _",
                t.end_time as "task_end_time: _",
                t.due_date as "task_due_date: _",
                t.priority as "task_priority: TaskPriority",
                t.importance as "task_importance: TaskImportance",
                t.tags as "task_tags: _",
                t.url as "task_url",
                t.metadata as "task_metadata: _",
                t.created_at as "task_created_at: _",
                t.updated_at as "task_updated_at: _",
                t.created_by_id as "task_created_by_id: _",
                t.assignee_participant_id as "task_assignee_participant_id: _",
                t.workspace_id as "task_workspace_id: _",
                t.conversation_id as "task_conversation_id: _",
                t.memory_id as "task_memory_id: _",
                t.plan_id as "task_plan_id: _",
                t.document_id as "task_document_id: _",
                t.file_id as "task_file_id: _",
                w.name as "workspace_name",
                p.name as "plan_name",
                a.display_name as "assignee_name",
                c.display_name as "creator_name"
            FROM tasks t
            LEFT JOIN workspaces w ON t.workspace_id = w.id
            LEFT JOIN plans p ON t.plan_id = p.id
            LEFT JOIN participants a ON t.assignee_participant_id = a.id
            LEFT JOIN users c ON t.created_by_id = c.id
        "#@
}

/// The texts of `parts` joined with `sep`.
pub open spec fn joined_with(parts: Seq<Seq<char>>, sep: Seq<char>) -> Seq<char>
    decreases parts.len(),
{
    if parts.len() == 0 {
        Seq::empty()
    } else if parts.len() == 1 {
        parts[0]
    } else {
        joined_with(parts.drop_last(), sep) + sep + parts.last()
    }
}

/// The conditions a filter puts on the task list with relations, in order.
pub open spec fn relations_conditions(f: TaskFilter) -> Seq<Seq<char>> {
    (match f.workspace_id { Some(id) => seq!["t.workspace_id = '"@ + uuid_text(id) + "'"@], None => Seq::empty() })
        + (match f.plan_id { Some(id) => seq!["t.plan_id = '"@ + uuid_text(id) + "'"@], None => Seq::empty() })
        + (match f.status { Some(s) => seq!["t.status = "@ + signed_decimal(s as int)], None => Seq::empty() })
        + (if f.active_only == Some(true) { seq!["t.status NOT IN (2, 3)"@] } else { Seq::empty() })
        + (if f.overdue_only == Some(true) {
            seq!["t.due_date < datetime('now') AND t.status NOT IN (2, 3)"@]
        } else {
            Seq::empty()
        })
}

/// The query of the task list with relations under a filter: its
/// conditions, the fixed order, and the limit (with the offset) when set.
pub open spec fn relations_query_text(f: TaskFilter) -> Seq<char> {
    relations_base_text()
        + (if relations_conditions(f).len() > 0 { " WHERE "@ + joined_with(relations_conditions(f), " AND "@) } else { Seq::empty() })
        + " ORDER BY t.due_date ASC, t.priority DESC, t.importance DESC, t.title ASC"@
        + (match f.limit {
            Some(l) => " LIMIT "@ + decimal(l as nat) + (match f.offset { Some(o) => " OFFSET "@ + decimal(o as nat), None => Seq::empty() }),
            None => Seq::empty(),
        })
}

/// The views of a list of texts.
pub open spec fn views(v: Seq<String>) -> Seq<Seq<char>> {
    v.map_values(|s: String| s@)
}

fn relation_conditions(filter: &TaskFilter) -> (r: Vec<String>)
    ensures
        views(r@) == relations_conditions(*filter),
{
    let mut conditions: Vec<String> = Vec::new();
    if let Some(id) = filter.workspace_id {
        let mut c = "t.workspace_id = '".to_owned();
        c.append(uuid_string(id).as_str());
        c.append("'");
        conditions.push(c);
    }
    let ghost c1 = views(conditions@);
    assert(c1 =~= match filter.workspace_id {
        Some(id) => seq!["t.workspace_id = '"@ + uuid_text(id) + "'"@],
        None => Seq::<Seq<char>>::empty(),
    });
    if let Some(id) = filter.plan_id {
        let mut c = "t.plan_id = '".to_owned();
        c.append(uuid_string(id).as_str());
        c.append("'");
        conditions.push(c);
    }
    let ghost c2 = views(conditions@);
    assert(c2 =~= c1 + match filter.plan_id {
        Some(id) => seq!["t.plan_id = '"@ + uuid_text(id) + "'"@],
        None => Seq::<Seq<char>>::empty(),
    });
    if let Some(st) = filter.status {
        let mut c = "t.status = ".to_owned();
        append_decimal_i64(&mut c, st);
        conditions.push(c);
    }
    let ghost c3 = views(conditions@);
    assert(c3 =~= c2 + match filter.status {
        Some(st) => seq!["t.status = "@ + signed_decimal(st as int)],
        None => Seq::<Seq<char>>::empty(),
    });
    if filter.active_only == Some(true) {
        conditions.push("t.status NOT IN (2, 3)".to_owned());
    }
    let ghost c4 = views(conditions@);
    assert(c4 =~= c3 + if filter.active_only == Some(true) { seq!["t.status NOT IN (2, 3)"@] } else { Seq::<Seq<char>>::empty() });
    if filter.overdue_only == Some(true) {
        conditions.push("t.due_date < datetime('now') AND t.status NOT IN (2, 3)".to_owned());
    }
    assert(views(conditions@) =~= relations_conditions(*filter));
    conditions
}

pub(crate) fn append_joined(query: &mut String, parts: &Vec<String>, sep: &str)
    ensures
        final(query)@ == old(query)@ + joined_with(views(parts@), sep@),
{
    let ghost start = query@;
    let mut i: usize = 0;
    while i < parts.len()
        invariant
            i <= parts@.len(),
            query@ == start + joined_with(views(parts@.take(i as int)), sep@),
        decreases parts@.len() - i,
    {
        if i > 0 {
            query.append(sep);
        }
        query.append(parts[i].as_str());
        proof {
            let t = views(parts@.take(i + 1));
            assert(t.drop_last() =~= views(parts@.take(i as int)));
            assert(t.last() == parts@[i as int]@);
            assert(query@ =~= start + joined_with(t, sep@));
        }
        i = i + 1;
    }
    assert(parts@.take(i as int) =~= parts@);
}

/// The query text of the task list with relations under `filter`.
pub fn tasks_with_relations_query(filter: &TaskFilter) -> (r: String)
    ensures
        r@ == relations_query_text(*filter),
{
    let mut query = r#"
            SELECT 
                t.id as "task_id: _",
                t.title as "task_title",
                t.description as "task_description",
                t.status as "task_status: TaskStatus",
                t.start_time as "task_start_time: _",
                t.end_time as "task_end_time: _",
                t.due_date as "task_due_date: _",
                t.priority as "task_priority: TaskPriority",
                t.importance as "task_importance: TaskImportance",
                t.tags as "task_tags: _",
                t.url as "task_url",
                t.metadata as "task_metadata: _",
                t.created_at as "task_created_at: _",
                t.updated_at as "task_updated_at: _",
                t.created_by_id as "task_created_by_id: _",
                t.assignee_participant_id as "task_assignee_participant_id: _",
                t.workspace_id as "task_workspace_id: _",
                t.conversation_id as "task_conversation_id: _",
                t.memory_id as "task_memory_id: _",
                t.plan_id as "task_plan_id: _",
                t.document_id as "task_document_id: _",
                t.file_id as "task_file_id: _",
                w.name as "workspace_name",
                p.name as "plan_name",
                a.display_name as "assignee_name",
                c.display_name as "creator_name"
            FROM tasks t
            LEFT JOIN workspaces w ON t.workspace_id = w.id
            LEFT JOIN plans p ON t.plan_id = p.id
            LEFT JOIN participants a ON t.assignee_participant_id = a.id
            LEFT JOIN users c ON t.created_by_id = c.id
        "#.to_owned();
    let conditions = relation_conditions(filter);
    if conditions.len() > 0 {
        query.append(" WHERE ");
        append_joined(&mut query, &conditions, " AND ");
    }
    query.append(" ORDER BY t.due_date ASC, t.priority DESC, t.importance DESC, t.title ASC");
    if let Some(limit) = filter.limit {
        query.append(" LIMIT ");
        append_decimal(&mut query, limit);
        if let Some(offset) = filter.offset {
            query.append(" OFFSET ");
            append_decimal(&mut query, offset);
        }
    }
    assert(query@ =~= relations_query_text(*filter));
    query
}

/// Counts of the tasks in each category, as the statistics query gives
/// them.
#[derive(Debug, Clone, Copy, PartialEq, Eq, Structural)]
pub struct TaskStatsRow {
    pub pending_tasks: Option<i64>,
    pub in_progress_tasks: Option<i64>,
    pub completed_tasks: Option<i64>,
    pub failed_tasks: Option<i64>,
    pub high_priority_tasks: Option<i64>,
    pub important_tasks: Option<i64>,
    pub overdue_tasks: Option<i64>,
    pub total_tasks: Option<i64>,
}

/// Task statistics.
#[derive(Debug, Clone, Copy, PartialEq, Eq, Structural)]
pub struct TaskStats {
    /// Number of pending tasks
    pub pending_tasks: usize,
    /// Number of in-progress tasks
    pub in_progress_tasks: usize,
    /// Number of completed tasks
    pub completed_tasks: usize,
    /// Number of failed tasks
    pub failed_tasks: usize,
    /// Number of high priority tasks
    pub high_priority_tasks: usize,
    /// Number of important tasks
    pub important_tasks: usize,
    /// Number of overdue tasks
    pub overdue_tasks: usize,
    /// Total number of tasks
    pub total_tasks: usize,
}

/// A count of the statistics query as a number of tasks: a missing count
/// is zero.
pub open spec fn count_of(c: Option<i64>) -> usize {
    match c {
        Some(n) => n as usize,
        None => 0usize,
    }
}

fn count_value(c: Option<i64>) -> (r: usize)
    ensures
        r == count_of(c),
{
    match c {
        Some(n) => n as usize,
        None => 0,
    }
}

impl TaskStats {
    /// The statistics of a row of the statistics query.
    pub fn from_row(row: &TaskStatsRow) -> (r: TaskStats)
        ensures
            r.pending_tasks == count_of(row.pending_tasks),
            r.in_progress_tasks == count_of(row.in_progress_tasks),
            r.completed_tasks == count_of(row.completed_tasks),
            r.failed_tasks == count_of(row.failed_tasks),
            r.high_priority_tasks == count_of(row.high_priority_tasks),
            r.important_tasks == count_of(row.important_tasks),
            r.overdue_tasks == count_of(row.overdue_tasks),
            r.total_tasks == count_of(row.total_tasks),
    {
        TaskStats {
            pending_tasks: count_value(row.pending_tasks),
            in_progress_tasks: count_value(row.in_progress_tasks),
            completed_tasks: count_value(row.completed_tasks),
            failed_tasks: count_value(row.failed_tasks),
            high_priority_tasks: count_value(row.high_priority_tasks),
            important_tasks: count_value(row.important_tasks),
            overdue_tasks: count_value(row.overdue_tasks),
            total_tasks: count_value(row.total_tasks),
        }
    }
}

/// The text of the statistics query over all tasks.
pub open spec fn task_stats_query_text() -> Seq<char> {
    "SELECT COUNT(*) as total_tasks"@ + ",
            COUNT(CASE WHEN status = 0 THEN 1 END) as pending_tasks,
            COUNT(CASE WHEN status = 1 THEN 1 END) as in_progress_tasks,
            COUNT(CASE WHEN status = 2 THEN 1 END) as completed_tasks,
            COUNT(CASE WHEN status = 3 THEN 1 END) as failed_tasks,
            COUNT(CASE WHEN priority = 2 THEN 1 END) as high_priority_tasks,
            COUNT(CASE WHEN importance = 2 THEN 1 END) as important_tasks,
            COUNT(CASE WHEN due_date < datetime('now') AND status NOT IN (2, 3) THEN 1 END) as overdue_tasks
        "@ + " FROM tasks"@
}

/// The statistics query over all tasks.
pub fn task_stats_query() -> (r: String)
    ensures
        r@ == task_stats_query_text(),
{
    let mut builder = EnhancedQueryBuilder::new("SELECT COUNT(*) as total_tasks");
    builder.push(",
            COUNT(CASE WHEN status = 0 THEN 1 END) as pending_tasks,
            COUNT(CASE WHEN status = 1 THEN 1 END) as in_progress_tasks,
            COUNT(CASE WHEN status = 2 THEN 1 END) as completed_tasks,
            COUNT(CASE WHEN status = 3 THEN 1 END) as failed_tasks,
            COUNT(CASE WHEN priority = 2 THEN 1 END) as high_priority_tasks,
            COUNT(CASE WHEN importance = 2 THEN 1 END) as important_tasks,
            COUNT(CASE WHEN due_date < datetime('now') AND status NOT IN (2, 3) THEN 1 END) as overdue_tasks
        ");
    builder.push(" FROM tasks");
    builder.sql().to_owned()
}

/// The text of the statistics query per workspace.
pub open spec fn detailed_task_stats_query_text() -> Seq<char> {
    "SELECT w.id as workspace_id, w.name as workspace_name"@ + ",
            COUNT(t.id) as total_tasks,
            COUNT(CASE WHEN t.status = 0 THEN 1 END) as pending_tasks,
            COUNT(CASE WHEN t.status = 1 THEN 1 END) as in_progress_tasks,
            COUNT(CASE WHEN t.status = 2 THEN 1 END) as completed_tasks,
            COUNT(CASE WHEN t.status = 3 THEN 1 END) as failed_tasks,
            COUNT(CASE WHEN t.priority = 2 THEN 1 END) as high_priority_tasks,
            COUNT(CASE WHEN t.due_date < datetime('now') AND t.status NOT IN (2, 3) THEN 1 END) as overdue_tasks,
            AVG(CASE WHEN t.status = 2 THEN (julianday(t.end_time) - julianday(t.start_time)) * 24 * 60 END) as avg_completion_time_minutes
        "@
        + " FROM workspaces w LEFT JOIN tasks t ON w.id = t.workspace_id"@ + " GROUP BY "@
        + "w.id"@ + ", "@ + "w.name"@ + " ORDER BY "@ + "w.name"@ + " "@ + direction_sql(OrderDirection::Asc)
}

/// The statistics query per workspace, ordered by workspace name.
pub fn detailed_task_stats_query() -> (r: String)
    ensures
        r@ == detailed_task_stats_query_text(),
{
    let mut builder = EnhancedQueryBuilder::new("SELECT w.id as workspace_id, w.name as workspace_name");
    builder.push(",
            COUNT(t.id) as total_tasks,
            COUNT(CASE WHEN t.status = 0 THEN 1 END) as pending_tasks,
            COUNT(CASE WHEN t.status = 1 THEN 1 END) as in_progress_tasks,
            COUNT(CASE WHEN t.status = 2 THEN 1 END) as completed_tasks,
            COUNT(CASE WHEN t.status = 3 THEN 1 END) as failed_tasks,
            COUNT(CASE WHEN t.priority = 2 THEN 1 END) as high_priority_tasks,
            COUNT(CASE WHEN t.due_date < datetime('now') AND t.status NOT IN (2, 3) THEN 1 END) as overdue_tasks,
            AVG(CASE WHEN t.status = 2 THEN (julianday(t.end_time) - julianday(t.start_time)) * 24 * 60 END) as avg_completion_time_minutes
        ");
    builder.push(" FROM workspaces w LEFT JOIN tasks t ON w.id = t.workspace_id");
    let fields = vec!["w.id".to_owned(), "w.name".to_owned()];
    builder.add_group_by(&fields);
    builder.add_order_by("w.name", OrderDirection::Asc);
    proof {
        assert(fields@.drop_last() =~= seq![fields@[0]]);
        assert(comma_joined(fields@.drop_last()) == fields@[0]@);
        assert(comma_joined(fields@) == "w.id"@ + ", "@ + "w.name"@);
    }
    assert(builder@.sql =~= detailed_task_stats_query_text());
    builder.sql().to_owned()
}

/// The score by which tasks are prioritized: three points per priority
/// level and four per importance level, and ten more for a task past its
/// due date that is neither completed nor failed.
pub open spec fn task_score(priority: u32, importance: u32, due_date_ms: Option<i64>, status: i64, now_ms: i64) -> int {
    priority * 3 + importance * 4 + if due_date_ms is Some && due_date_ms->0 < now_ms && status != 2 && status != 3 { 10int } else { 0int }
}

/// The score of a task with the given priority and importance levels, due
/// date and status, at `now_ms`.
pub fn calculate_task_score(priority: u32, importance: u32, due_date_ms: Option<i64>, status: i64, now_ms: i64) -> (r: u32)
    requires
        priority * 3 + importance * 4 + 10 <= u32::MAX,
    ensures
        r == task_score(priority, importance, due_date_ms, status, now_ms),
{
    let base_score = priority * 3 + importance * 4;
    if let Some(due) = due_date_ms {
        if due < now_ms && !(status == 2 || status == 3) {
            return base_score + 10;
        }
    }
    base_score
}

/// The placeholders `$1` to `$n` of a numbered query.
pub open spec fn numbered_placeholders(n: nat) -> Seq<Seq<char>> {
    Seq::new(n, |i: int| "$"@ + decimal((i + 1) as nat))
}

/// The text of the query that deletes the tasks with `n` given ids.
pub open spec fn batch_delete_text(n: nat) -> Seq<char> {
    "DELETE FROM tasks WHERE id IN ("@ + joined_with(numbered_placeholders(n), ", "@) + ")"@
}

/// The query that deletes the tasks with `count` given ids, one numbered
/// placeholder for each.
pub fn batch_delete_query(count: usize) -> (r: String)
    ensures
        r@ == batch_delete_text(count as nat),
{
    let mut query = "DELETE FROM tasks WHERE id IN (".to_owned();
    let ghost start = query@;
    let mut i: usize = 0;
    while i < count
        invariant
            i <= count,
            query@ == start + joined_with(numbered_placeholders(i as nat), ", "@),
        decreases count - i,
    {
        if i > 0 {
            query.append(", ");
        }
        query.append("$");
        append_decimal(&mut query, i + 1);
        proof {
            let t = numbered_placeholders((i + 1) as nat);
            assert(t.drop_last() =~= numbered_placeholders(i as nat));
            assert(t.last() == "$"@ + decimal((i + 1) as nat));
            if i == 0 {
                assert(numbered_placeholders(0) =~= Seq::<Seq<char>>::empty());
            }
            assert(query@ =~= start + joined_with(t, ", "@));
        }
        i = i + 1;
    }
    query.append(")");
    query
}

/// What a value bound to a query amounts to, a text by its characters.
pub enum BindView {
    Integer(i64),
    Text(Seq<char>),
    Boolean(bool),
    Uuid(u128),
    Timestamp(i64),
}

/// The view of a bound value.
pub open spec fn bind_view(b: BindValue) -> BindView {
    match b {
        BindValue::Integer(n) => BindView::Integer(n),
        BindValue::Text(t) => BindView::Text(t@),
        BindValue::Boolean(x) => BindView::Boolean(x),
        BindValue::Uuid(u) => BindView::Uuid(u),
        BindValue::Timestamp(t) => BindView::Timestamp(t),
    }
}

/// The views of the values bound to a query, in order.
pub open spec fn binds_view(binds: Seq<BindValue>) -> Seq<BindView> {
    binds.map_values(|b: BindValue| bind_view(b))
}

/// Whether a filter's search term is given and not empty.
pub open spec fn searches(f: TaskFilter) -> bool {
    f.search_term is Some && f.search_term->0@.len() > 0
}

/// The text of the search condition.
pub open spec fn search_condition_text() -> Seq<char> {
    "(title LIKE "@ + "?"@ + " OR description LIKE "@ + "?"@ + ")"@
}

/// The equality conditions a filter puts on the task list, in the order
/// they are added: workspace, plan, status, priority and importance.
pub open spec fn equal_conditions(f: TaskFilter) -> Seq<Seq<char>> {
    (if f.workspace_id is Some { seq![condition_text("workspace_id"@, ConditionOperator::Equal)] } else { Seq::empty() })
        + (if f.plan_id is Some { seq![condition_text("plan_id"@, ConditionOperator::Equal)] } else { Seq::empty() })
        + (if f.status is Some { seq![condition_text("status"@, ConditionOperator::Equal)] } else { Seq::empty() })
        + (if f.priority is Some { seq![condition_text("priority"@, ConditionOperator::Equal)] } else { Seq::empty() })
        + (if f.importance is Some { seq![condition_text("importance"@, ConditionOperator::Equal)] } else { Seq::empty() })
}

/// The values the equality conditions of a filter bind, in order.
pub open spec fn equal_binds(f: TaskFilter) -> Seq<BindView> {
    (match f.workspace_id { Some(id) => seq![BindView::Uuid(id)], None => Seq::empty() })
        + (match f.plan_id { Some(id) => seq![BindView::Uuid(id)], None => Seq::empty() })
        + (match f.status { Some(x) => seq![BindView::Integer(x)], None => Seq::empty() })
        + (match f.priority { Some(x) => seq![BindView::Integer(x)], None => Seq::empty() })
        + (match f.importance { Some(x) => seq![BindView::Integer(x)], None => Seq::empty() })
}

/// The state tests a filter puts on the task list: active, then overdue.
pub open spec fn test_conditions(f: TaskFilter) -> Seq<Seq<char>> {
    (if f.active_only == Some(true) { seq!["status NOT IN (2, 3)"@] } else { Seq::empty() })
        + (if f.overdue_only == Some(true) {
            seq!["due_date < datetime('now') AND status NOT IN (2, 3)"@]
        } else {
            Seq::empty()
        })
}

/// The due date bounds a filter puts on the task list: from, then until.
pub open spec fn due_conditions(f: TaskFilter) -> Seq<Seq<char>> {
    (if f.due_date_after is Some {
        seq![condition_text("due_date"@, ConditionOperator::GreaterThanOrEqual)]
    } else {
        Seq::empty()
    }) + (if f.due_date_before is Some {
        seq![condition_text("due_date"@, ConditionOperator::LessThanOrEqual)]
    } else {
        Seq::empty()
    })
}

/// The values the due date bounds of a filter bind, in order.
pub open spec fn due_binds(f: TaskFilter) -> Seq<BindView> {
    (match f.due_date_after { Some(t) => seq![BindView::Timestamp(t)], None => Seq::empty() })
        + (match f.due_date_before { Some(t) => seq![BindView::Timestamp(t)], None => Seq::empty() })
}

/// The search condition a filter puts on the task list, if any.
pub open spec fn search_conditions(f: TaskFilter) -> Seq<Seq<char>> {
    if searches(f) { seq![search_condition_text()] } else { Seq::empty() }
}

/// The values the search binds: the term between percent signs, twice.
pub open spec fn search_binds(f: TaskFilter) -> Seq<BindView> {
    if searches(f) {
        let pat = "%"@ + f.search_term->0@ + "%"@;
        seq![BindView::Text(pat), BindView::Text(pat)]
    } else {
        Seq::empty()
    }
}

/// The conditions a filter puts on the task list, in the order they are
/// added: the equalities, the state tests, the due date bounds and the
/// search.
pub open spec fn filter_conditions(f: TaskFilter) -> Seq<Seq<char>> {
    equal_conditions(f) + test_conditions(f) + due_conditions(f) + search_conditions(f)
}

/// The values the conditions of a filter bind, in order.
pub open spec fn filter_binds(f: TaskFilter) -> Seq<BindView> {
    equal_binds(f) + due_binds(f) + search_binds(f)
}

/// The WHERE clause of a list of conditions joined by AND, or nothing when
/// there is none.
pub open spec fn where_clause(conds: Seq<Seq<char>>) -> Seq<char> {
    if conds.len() == 0 { Seq::empty() } else { " WHERE "@ + joined_with(conds, " AND "@) }
}

/// The task query with `conds` so far.
pub open spec fn filtered_so_far(q: QueryView, conds: Seq<Seq<char>>, binds: Seq<BindView>) -> bool {
    &&& q.sql == task_base_query_text() + where_clause(conds)
    &&& binds_view(q.binds) == binds
    &&& q.has_where == (conds.len() > 0)
    &&& !q.has_order_by && !q.has_limit && !q.has_offset
}

proof fn lemma_where_push(conds: Seq<Seq<char>>, c: Seq<char>)
    ensures
        where_clause(conds) + opener(conds.len() > 0, " WHERE "@, Some(LogicalOperator::And)) + c
            == where_clause(conds.push(c)),
{
    let pushed = conds.push(c);
    assert(pushed.drop_last() =~= conds);
    if conds.len() == 0 {
        assert(where_clause(conds) =~= Seq::<char>::empty());
        assert(joined_with(pushed, " AND "@) == c);
        assert(where_clause(conds) + opener(false, " WHERE "@, Some(LogicalOperator::And)) + c =~= " WHERE "@ + c);
    } else {
        reveal_strlit(" ");
        reveal_strlit("AND");
        reveal_strlit(" AND ");
        assert(logical_sql(LogicalOperator::And) == "AND"@);
        assert(" "@ + logical_sql(LogicalOperator::And) + " "@ =~= " AND "@);
        assert(joined_with(pushed, " AND "@) == joined_with(conds, " AND "@) + " AND "@ + c);
        assert(where_clause(conds) + opener(true, " WHERE "@, Some(LogicalOperator::And)) + c
            =~= " WHERE "@ + (joined_with(conds, " AND "@) + " AND "@ + c));
    }
}

proof fn lemma_step(
    before: QueryView,
    after: QueryView,
    conds: Seq<Seq<char>>,
    binds: Seq<BindView>,
    c: Seq<char>,
    added: Seq<BindValue>,
    added_view: Seq<BindView>,
)
    requires
        filtered_so_far(before, conds, binds),
        after.sql == before.sql + opener(before.has_where, " WHERE "@, Some(LogicalOperator::And)) + c,
        after.binds == before.binds + added,
        binds_view(added) == added_view,
        after.has_where,
        after.has_order_by == before.has_order_by,
        after.has_limit == before.has_limit,
        after.has_offset == before.has_offset,
    ensures
        filtered_so_far(after, conds + seq![c], binds + added_view),
{
    lemma_where_push(conds, c);
    assert(conds.push(c) =~= conds + seq![c]);
    assert(after.sql =~= task_base_query_text() + (where_clause(conds) + opener(conds.len() > 0, " WHERE "@, Some(LogicalOperator::And)) + c));
    assert(binds_view(after.binds) =~= binds + binds_view(added));
}

proof fn lemma_unchanged(q: QueryView, conds: Seq<Seq<char>>, binds: Seq<BindView>)
    requires
        filtered_so_far(q, conds, binds),
    ensures
        filtered_so_far(q, conds + Seq::empty(), binds + Seq::empty()),
{
    assert(conds + Seq::<Seq<char>>::empty() =~= conds);
    assert(binds + Seq::<BindView>::empty() =~= binds);
}

/// Whether the search term has characters, as the builder tests it.
fn search_term_of(filter: &TaskFilter) -> (r: Option<&str>)
    ensures
        r is Some <==> filter.search_term is Some,
        r matches Some(t) ==> t@ == filter.search_term->0@,
{
    match &filter.search_term {
        Some(t) => Some(t.as_str()),
        None => None,
    }
}

fn add_equal_conditions(q: &mut TaskQueryBuilder, filter: &TaskFilter)
    requires
        filtered_so_far(old(q)@, Seq::empty(), Seq::empty()),
    ensures
        filtered_so_far(final(q)@, equal_conditions(*filter), equal_binds(*filter)),
{
    let ghost f = *filter;
    let ghost mut conds: Seq<Seq<char>> = Seq::empty();
    let ghost mut binds: Seq<BindView> = Seq::empty();
    let ghost v0 = q@;
    q.with_workspace_id(filter.workspace_id);
    proof {
        if let Some(x) = filter.workspace_id {
            assert(q@.binds =~= v0.binds + seq![BindValue::Uuid(x)]);
            assert(binds_view(seq![BindValue::Uuid(x)]) =~= seq![BindView::Uuid(x)]);
            lemma_step(v0, q@, conds, binds, condition_text("workspace_id"@, ConditionOperator::Equal), seq![BindValue::Uuid(x)], seq![BindView::Uuid(x)]);
        } else {
            lemma_unchanged(q@, conds, binds);
        }
        conds = conds + (if f.workspace_id is Some { seq![condition_text("workspace_id"@, ConditionOperator::Equal)] } else { Seq::empty() });
        binds = binds + (match f.workspace_id { Some(x) => seq![BindView::Uuid(x)], None => Seq::empty() });
    }
    let ghost v1 = q@;
    q.with_plan_id(filter.plan_id);
    proof {
        if let Some(x) = filter.plan_id {
            assert(q@.binds =~= v1.binds + seq![BindValue::Uuid(x)]);
            assert(binds_view(seq![BindValue::Uuid(x)]) =~= seq![BindView::Uuid(x)]);
            lemma_step(v1, q@, conds, binds, condition_text("plan_id"@, ConditionOperator::Equal), seq![BindValue::Uuid(x)], seq![BindView::Uuid(x)]);
        } else {
            lemma_unchanged(q@, conds, binds);
        }
        conds = conds + (if f.plan_id is Some { seq![condition_text("plan_id"@, ConditionOperator::Equal)] } else { Seq::empty() });
        binds = binds + (match f.plan_id { Some(x) => seq![BindView::Uuid(x)], None => Seq::empty() });
    }
    let ghost v2 = q@;
    q.with_status(filter.status);
    proof {
        if let Some(x) = filter.status {
            assert(q@.binds =~= v2.binds + seq![BindValue::Integer(x)]);
            assert(binds_view(seq![BindValue::Integer(x)]) =~= seq![BindView::Integer(x)]);
            lemma_step(v2, q@, conds, binds, condition_text("status"@, ConditionOperator::Equal), seq![BindValue::Integer(x)], seq![BindView::Integer(x)]);
        } else {
            lemma_unchanged(q@, conds, binds);
        }
        conds = conds + (if f.status is Some { seq![condition_text("status"@, ConditionOperator::Equal)] } else { Seq::empty() });
        binds = binds + (match f.status { Some(x) => seq![BindView::Integer(x)], None => Seq::empty() });
    }
    let ghost v3 = q@;
    q.with_priority(filter.priority);
    proof {
        if let Some(x) = filter.priority {
            assert(q@.binds =~= v3.binds + seq![BindValue::Integer(x)]);
            assert(binds_view(seq![BindValue::Integer(x)]) =~= seq![BindView::Integer(x)]);
            lemma_step(v3, q@, conds, binds, condition_text("priority"@, ConditionOperator::Equal), seq![BindValue::Integer(x)], seq![BindView::Integer(x)]);
        } else {
            lemma_unchanged(q@, conds, binds);
        }
        conds = conds + (if f.priority is Some { seq![condition_text("priority"@, ConditionOperator::Equal)] } else { Seq::empty() });
        binds = binds + (match f.priority { Some(x) => seq![BindView::Integer(x)], None => Seq::empty() });
    }
    let ghost v4 = q@;
    q.with_importance(filter.importance);
    proof {
        if let Some(x) = filter.importance {
            assert(q@.binds =~= v4.binds + seq![BindValue::Integer(x)]);
            assert(binds_view(seq![BindValue::Integer(x)]) =~= seq![BindView::Integer(x)]);
            lemma_step(v4, q@, conds, binds, condition_text("importance"@, ConditionOperator::Equal), seq![BindValue::Integer(x)], seq![BindView::Integer(x)]);
        } else {
            lemma_unchanged(q@, conds, binds);
        }
        conds = conds + (if f.importance is Some { seq![condition_text("importance"@, ConditionOperator::Equal)] } else { Seq::empty() });
        binds = binds + (match f.importance { Some(x) => seq![BindView::Integer(x)], None => Seq::empty() });
    }
    assert(conds =~= equal_conditions(f));
    assert(binds =~= equal_binds(f));
}

fn add_test_conditions(q: &mut TaskQueryBuilder, filter: &TaskFilter, Ghost(conds0): Ghost<Seq<Seq<char>>>, Ghost(binds0): Ghost<Seq<BindView>>)
    requires
        filtered_so_far(old(q)@, conds0, binds0),
    ensures
        filtered_so_far(final(q)@, conds0 + test_conditions(*filter), binds0),
{
    let ghost f = *filter;
    let ghost mut conds = conds0;
    let ghost mut binds = binds0;
    let ghost v5 = q@;
    q.active_only(filter.active_only);
    proof {
        if filter.active_only == Some(true) {
            assert(q@.binds =~= v5.binds + Seq::empty());
            assert(binds_view(Seq::empty()) =~= Seq::<BindView>::empty());
            lemma_step(v5, q@, conds, binds, "status NOT IN (2, 3)"@, Seq::empty(), Seq::empty());
        } else {
            lemma_unchanged(q@, conds, binds);
        }
        conds = conds + (if f.active_only == Some(true) { seq!["status NOT IN (2, 3)"@] } else { Seq::empty() });
        binds = binds + Seq::empty();
    }
    let ghost v6 = q@;
    q.overdue_only(filter.overdue_only);
    proof {
        if filter.overdue_only == Some(true) {
            assert(q@.binds =~= v6.binds + Seq::empty());
            assert(binds_view(Seq::empty()) =~= Seq::<BindView>::empty());
            lemma_step(v6, q@, conds, binds, "due_date < datetime('now') AND status NOT IN (2, 3)"@, Seq::empty(), Seq::empty());
        } else {
            lemma_unchanged(q@, conds, binds);
        }
        conds = conds + (if f.overdue_only == Some(true) { seq!["due_date < datetime('now') AND status NOT IN (2, 3)"@] } else { Seq::empty() });
        binds = binds + Seq::empty();
    }
    assert(conds =~= conds0 + test_conditions(f));
    assert(binds =~= binds0);
}

fn add_due_conditions(q: &mut TaskQueryBuilder, filter: &TaskFilter, Ghost(conds): Ghost<Seq<Seq<char>>>, Ghost(binds): Ghost<Seq<BindView>>)
    requires
        filtered_so_far(old(q)@, conds, binds),
    ensures
        filtered_so_far(final(q)@, conds + due_conditions(*filter), binds + due_binds(*filter)),
{
    let ghost f = *filter;
    let ghost v7 = q@;
    q.with_due_date_range(filter.due_date_after, filter.due_date_before);
    proof {
        let ca = condition_text("due_date"@, ConditionOperator::GreaterThanOrEqual);
        let cb = condition_text("due_date"@, ConditionOperator::LessThanOrEqual);
        let xa: Seq<Seq<char>> = if f.due_date_after is Some { seq![ca] } else { Seq::empty() };
        let ya: Seq<BindView> = match f.due_date_after { Some(t) => seq![BindView::Timestamp(t)], None => Seq::empty() };
        match (filter.due_date_after, filter.due_date_before) {
            (Some(a), Some(b)) => {
                let mid = choose|mid: QueryView|
                    and_condition(v7, mid, "due_date"@, ConditionOperator::GreaterThanOrEqual, BindValue::Timestamp(a))
                    && #[trigger] and_condition(mid, q@, "due_date"@, ConditionOperator::LessThanOrEqual, BindValue::Timestamp(b));
                assert(mid.binds =~= v7.binds + seq![BindValue::Timestamp(a)]);
                assert(binds_view(seq![BindValue::Timestamp(a)]) =~= seq![BindView::Timestamp(a)]);
                lemma_step(v7, mid, conds, binds, ca, seq![BindValue::Timestamp(a)], seq![BindView::Timestamp(a)]);
                assert(q@.binds =~= mid.binds + seq![BindValue::Timestamp(b)]);
                assert(binds_view(seq![BindValue::Timestamp(b)]) =~= seq![BindView::Timestamp(b)]);
                lemma_step(mid, q@, conds + seq![ca], binds + ya, cb, seq![BindValue::Timestamp(b)], seq![BindView::Timestamp(b)]);
            },
            (Some(a), None) => {
                assert(q@.binds =~= v7.binds + seq![BindValue::Timestamp(a)]);
                assert(binds_view(seq![BindValue::Timestamp(a)]) =~= seq![BindView::Timestamp(a)]);
                lemma_step(v7, q@, conds, binds, ca, seq![BindValue::Timestamp(a)], seq![BindView::Timestamp(a)]);
                lemma_unchanged(q@, conds + xa, binds + ya);
            },
            (None, Some(b)) => {
                lemma_unchanged(v7, conds, binds);
                assert(q@.binds =~= v7.binds + seq![BindValue::Timestamp(b)]);
                assert(binds_view(seq![BindValue::Timestamp(b)]) =~= seq![BindView::Timestamp(b)]);
                lemma_step(v7, q@, conds + xa, binds + ya, cb, seq![BindValue::Timestamp(b)], seq![BindView::Timestamp(b)]);
            },
            (None, None) => {
                lemma_unchanged(q@, conds, binds);
                lemma_unchanged(q@, conds + xa, binds + ya);
            },
        }
        assert(conds + xa + (if f.due_date_before is Some { seq![cb] } else { Seq::empty() }) =~= conds + due_conditions(f));
        assert(binds + ya + (match f.due_date_before { Some(t) => seq![BindView::Timestamp(t)], None => Seq::empty() })
            =~= binds + due_binds(f));
    }
}

fn add_search_condition(q: &mut TaskQueryBuilder, filter: &TaskFilter, Ghost(conds): Ghost<Seq<Seq<char>>>, Ghost(binds): Ghost<Seq<BindView>>)
    requires
        filtered_so_far(old(q)@, conds, binds),
    ensures
        filtered_so_far(final(q)@, conds + search_conditions(*filter), binds + search_binds(*filter)),
{
    let ghost f = *filter;
    let ghost v8 = q@;
    let term = search_term_of(filter);
    q.with_search_term(term);
    proof {
        if searches(f) {
            let ys = search_binds(f);
            let pat = choose|pat: String| #![trigger pat@] pat@ == "%"@ + term->0@ + "%"@
                && q@.binds == v8.binds.push(BindValue::Text(pat)).push(BindValue::Text(pat));
            assert(q@.binds =~= v8.binds + seq![BindValue::Text(pat), BindValue::Text(pat)]);
            assert(q@.sql =~= v8.sql + opener(v8.has_where, " WHERE "@, Some(LogicalOperator::And)) + search_condition_text());
            assert(binds_view(seq![BindValue::Text(pat), BindValue::Text(pat)]) =~= ys);
            lemma_step(v8, q@, conds, binds, search_condition_text(), seq![BindValue::Text(pat), BindValue::Text(pat)], ys);
        } else {
            lemma_unchanged(q@, conds, binds);
        }
    }
}

/// The task query with the conditions of `filter`, as the task list and
/// the task count build it.
pub fn filtered_task_query(filter: &TaskFilter) -> (r: TaskQueryBuilder)
    ensures
        filtered_so_far(r@, filter_conditions(*filter), filter_binds(*filter)),
{
    let ghost f = *filter;
    let mut q = TaskQueryBuilder::new();
    proof {
        assert(q@.sql =~= task_base_query_text() + where_clause(Seq::empty()));
        assert(binds_view(q@.binds) =~= Seq::<BindView>::empty());
    }
    add_equal_conditions(&mut q, filter);
    add_test_conditions(&mut q, filter, Ghost(equal_conditions(f)), Ghost(equal_binds(f)));
    add_due_conditions(&mut q, filter, Ghost(equal_conditions(f) + test_conditions(f)), Ghost(equal_binds(f)));
    add_search_condition(
        &mut q,
        filter,
        Ghost(equal_conditions(f) + test_conditions(f) + due_conditions(f)),
        Ghost(equal_binds(f) + due_binds(f)),
    );
    q
}

/// The text paging adds to the task list: a limit and an offset, each when
/// given.
pub open spec fn paging_text(limit: Option<usize>, offset: Option<usize>) -> Seq<char> {
    (if limit is Some { " LIMIT "@ + "?"@ } else { Seq::empty() }) + (if offset is Some { " OFFSET "@ + "?"@ } else { Seq::empty() })
}

/// The values paging binds: the limit and the offset, each when given.
pub open spec fn paging_binds(limit: Option<usize>, offset: Option<usize>) -> Seq<BindView> {
    (match limit { Some(l) => seq![BindView::Integer(l as i64)], None => Seq::empty() })
        + (match offset { Some(o) => seq![BindView::Integer(o as i64)], None => Seq::empty() })
}

/// The default order of the task list.
pub open spec fn task_order_text() -> Seq<char> {
    " ORDER BY "@ + "due_date ASC, priority DESC, importance DESC, title ASC"@
}

/// The query of the task list under `filter`: its conditions, then the
/// paging, then the default order, in the order the list adds them.
pub fn task_list_query(filter: &TaskFilter) -> (r: TaskQueryBuilder)
    ensures
        r@.sql == task_base_query_text() + where_clause(filter_conditions(*filter)) + paging_text(filter.limit, filter.offset)
            + task_order_text(),
        binds_view(r@.binds) == filter_binds(*filter) + paging_binds(filter.limit, filter.offset),
{
    let mut q = filtered_task_query(filter);
    let ghost v = q@;
    q.with_pagination(filter.limit, filter.offset);
    let ghost w = q@;
    proof {
        let pre = task_base_query_text() + where_clause(filter_conditions(*filter));
        assert(w.sql =~= pre + paging_text(filter.limit, filter.offset));
        match (filter.limit, filter.offset) {
            (Some(l), Some(o)) => {
                assert(binds_view(w.binds) =~= binds_view(v.binds) + paging_binds(filter.limit, filter.offset));
            },
            (Some(l), None) => {
                assert(binds_view(w.binds) =~= binds_view(v.binds) + paging_binds(filter.limit, filter.offset));
            },
            (None, Some(o)) => {
                assert(binds_view(w.binds) =~= binds_view(v.binds) + paging_binds(filter.limit, filter.offset));
            },
            (None, None) => {
                assert(binds_view(w.binds) =~= binds_view(v.binds) + paging_binds(filter.limit, filter.offset));
            },
        }
    }
    q.with_default_ordering();
    assert(q@.sql =~= w.sql + task_order_text());
    q
}

/// The text of the query that counts the tasks a filter selects: the
/// conditions of the filtered task query, taken from after its first
/// `WHERE`.
pub open spec fn count_query_text(f: TaskFilter) -> Seq<char> {
    let sql = task_base_query_text() + where_clause(filter_conditions(f));
    "SELECT COUNT(*) as count FROM tasks"@ + if filter_conditions(f).len() > 0 {
        " WHERE"@ + after_first(sql, "WHERE"@)->0
    } else {
        Seq::empty()
    }
}

proof fn lemma_first_occurrence(s: Seq<char>, pat: Seq<char>, p: int)
    requires
        text_at(s, pat, p),
    ensures
        exists|i: int| first_at(s, pat, i),
    decreases p,
{
    if exists|j: int| 0 <= j < p && #[trigger] text_at(s, pat, j) {
        let j = choose|j: int| 0 <= j < p && #[trigger] text_at(s, pat, j);
        lemma_first_occurrence(s, pat, j);
    } else {
        assert(first_at(s, pat, p));
    }
}

/// The query that counts the tasks `filter` selects, as the task count
/// builds it.
pub fn task_count_query(filter: &TaskFilter) -> (r: String)
    ensures
        r@ == count_query_text(*filter),
{
    let q = filtered_task_query(filter);
    let mut count = "SELECT COUNT(*) as count FROM tasks".to_owned();
    if q.builder().has_where() {
        proof {
            let conds = filter_conditions(*filter);
            let base = task_base_query_text();
            let p: int = base.len() as int + 1;
            reveal_strlit(" WHERE ");
            reveal_strlit("WHERE");
            assert(q@.sql.subrange(p, p + 5) =~= "WHERE"@);
            lemma_first_occurrence(q@.sql, "WHERE"@, p);
        }
        let rest = split_after_first(q.builder().sql(), "WHERE");
        if let Some(tail) = rest {
            count.append(" WHERE");
            count.append(tail.as_str());
        }
    }
    count
}


/// A task scores three points per priority level and four per importance
/// level; a task past its due date that is neither completed (2) nor
/// failed (3), whatever else its status (pending, in progress, ...),
/// scores exactly ten more than the same task with no due date, and a
/// completed or failed task, or one not yet due, scores nothing more.
pub proof fn law_overdue_bonus(priority: u32, importance: u32, due: i64, status: i64, now_ms: i64)
    ensures
        task_score(priority, importance, None, status, now_ms) == 3 * priority + 4 * importance,
        due < now_ms && status != 2 && status != 3 ==> task_score(priority, importance, Some(due), status, now_ms)
            == task_score(priority, importance, None, status, now_ms) + 10,
        !(due < now_ms) || status == 2 || status == 3 ==> task_score(priority, importance, Some(due), status, now_ms)
            == task_score(priority, importance, None, status, now_ms),
{
}

} // verus!
