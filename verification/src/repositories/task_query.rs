use vstd::prelude::*;
use crate::repositories::query_builder::{
    condition_text, opener, BindValue, ConditionOperator, EnhancedQueryBuilder, LogicalOperator, OrderDirection,
    QueryView,
};

verus! {

/// The query that selects every column of the tasks table.
pub fn task_base_query() -> (r: &'static str)
    ensures
        r@ == task_base_query_text(),
{
    r#"SELECT
            id as "id: _", title, description, status as "status: TaskStatus", start_time as "start_time: _",
            end_time as "end_time: _", due_date as "due_date: _", priority as "priority: TaskPriority",
            importance as "importance: TaskImportance", tags as "tags: _", url, metadata as "metadata: _",
            created_at as "created_at: _", updated_at as "updated_at: _", created_by_id as "created_by_id: _",
            assignee_participant_id as "assignee_participant_id: _", workspace_id as "workspace_id: _",
            conversation_id as "conversation_id: _", memory_id as "memory_id: _", plan_id as "plan_id: _",
            document_id as "document_id: _", file_id as "file_id: _"
        FROM tasks"#
}

/// The text of the query that selects every column of the tasks table.
pub open spec fn task_base_query_text() -> Seq<char> {
    r#"SELECT
            id as "id: _", title, description, status as "status: TaskStatus", start_time as "start_time: _",
            end_time as "end_time: _", due_date as "due_date: _", priority as "priority: TaskPriority",
            importance as "importance: TaskImportance", tags as "tags: _", url, metadata as "metadata: _",
            created_at as "created_at: _", updated_at as "updated_at: _", created_by_id as "created_by_id: _",
            assignee_participant_id as "assignee_participant_id: _", workspace_id as "workspace_id: _",
            conversation_id as "conversation_id: _", memory_id as "memory_id: _", plan_id as "plan_id: _",
            document_id as "document_id: _", file_id as "file_id: _"
        FROM tasks"#@
}

/// `after` is `before` with the condition `field = ?` joined by AND and
/// bound to `v`.
pub open spec fn and_condition(before: QueryView, after: QueryView, field: Seq<char>, op: ConditionOperator, v: BindValue) -> bool {
    &&& after.sql == before.sql + opener(before.has_where, " WHERE "@, Some(LogicalOperator::And)) + condition_text(field, op)
    &&& after.binds == before.binds.push(v)
    &&& after.has_where
    &&& after.has_order_by == before.has_order_by
    &&& after.has_limit == before.has_limit
    &&& after.has_offset == before.has_offset
}

/// `after` is `before` with the raw condition `text` joined by AND.
pub open spec fn and_raw(before: QueryView, after: QueryView, text: Seq<char>) -> bool {
    &&& after.sql == before.sql + opener(before.has_where, " WHERE "@, Some(LogicalOperator::And)) + text
    &&& after.binds == before.binds
    &&& after.has_where
    &&& after.has_order_by == before.has_order_by
    &&& after.has_limit == before.has_limit
    &&& after.has_offset == before.has_offset
}

/// A query builder for tasks, with one method per filter of the task list.
/// Statuses, priorities and importances are given by their stored numbers.
#[derive(Debug)]
pub struct TaskQueryBuilder {
    builder: EnhancedQueryBuilder,
}

impl View for TaskQueryBuilder {
    type V = QueryView;

    closed spec fn view(&self) -> QueryView {
        self.builder@
    }
}

impl TaskQueryBuilder {
    /// A builder for the query of all tasks.
    pub fn new() -> (r: Self)
        ensures
            r@.sql == task_base_query_text(),
            r@.binds.len() == 0,
            !r@.has_where && !r@.has_order_by && !r@.has_limit && !r@.has_offset,
    {
        TaskQueryBuilder { builder: EnhancedQueryBuilder::new(task_base_query()) }
    }

    fn equal_condition(&mut self, field: &str, v: BindValue)
        ensures
            and_condition(old(self)@, final(self)@, field@, ConditionOperator::Equal, v),
    {
        self.builder.add_condition(field, ConditionOperator::Equal, Some(v), Some(LogicalOperator::And));
        assert(self@.binds =~= old(self)@.binds.push(v));
    }

    /// Only the tasks of the workspace, when one is given.
    pub fn with_workspace_id(&mut self, workspace_id: Option<u128>)
        ensures
            workspace_id is None ==> final(self)@ == old(self)@,
            workspace_id matches Some(id) ==> and_condition(
                old(self)@, final(self)@, "workspace_id"@, ConditionOperator::Equal, BindValue::Uuid(id),
            ),
    {
        if let Some(id) = workspace_id {
            self.equal_condition("workspace_id", BindValue::Uuid(id));
        }
    }

    /// Only the tasks of the plan, when one is given.
    pub fn with_plan_id(&mut self, plan_id: Option<u128>)
        ensures
            plan_id is None ==> final(self)@ == old(self)@,
            plan_id matches Some(id) ==> and_condition(
                old(self)@, final(self)@, "plan_id"@, ConditionOperator::Equal, BindValue::Uuid(id),
            ),
    {
        if let Some(id) = plan_id {
            self.equal_condition("plan_id", BindValue::Uuid(id));
        }
    }

    /// Only the tasks with the status, when one is given.
    pub fn with_status(&mut self, status: Option<i64>)
        ensures
            status is None ==> final(self)@ == old(self)@,
            status matches Some(s) ==> and_condition(
                old(self)@, final(self)@, "status"@, ConditionOperator::Equal, BindValue::Integer(s),
            ),
    {
        if let Some(s) = status {
            self.equal_condition("status", BindValue::Integer(s));
        }
    }

    /// Only the tasks with the priority, when one is given.
    pub fn with_priority(&mut self, priority: Option<i64>)
        ensures
            priority is None ==> final(self)@ == old(self)@,
            priority matches Some(p) ==> and_condition(
                old(self)@, final(self)@, "priority"@, ConditionOperator::Equal, BindValue::Integer(p),
            ),
    {
        if let Some(p) = priority {
            self.equal_condition("priority", BindValue::Integer(p));
        }
    }

    /// Only the tasks with the importance, when one is given.
    pub fn with_importance(&mut self, importance: Option<i64>)
        ensures
            importance is None ==> final(self)@ == old(self)@,
            importance matches Some(i) ==> and_condition(
                old(self)@, final(self)@, "importance"@, ConditionOperator::Equal, BindValue::Integer(i),
            ),
    {
        if let Some(i) = importance {
            self.equal_condition("importance", BindValue::Integer(i));
        }
    }

    fn raw_condition(&mut self, text: &str)
        ensures
            and_raw(old(self)@, final(self)@, text@),
    {
        self.builder.add_where_clause(Some(LogicalOperator::And));
        self.builder.push(text);
        assert(self@.sql =~= old(self)@.sql + opener(old(self)@.has_where, " WHERE "@, Some(LogicalOperator::And)) + text@);
    }

    /// Only the tasks neither completed nor failed, when asked.
    pub fn active_only(&mut self, active_only: Option<bool>)
        ensures
            active_only != Some(true) ==> final(self)@ == old(self)@,
            active_only == Some(true) ==> and_raw(old(self)@, final(self)@, "status NOT IN (2, 3)"@),
    {
        if active_only.unwrap_or(false) {
            self.raw_condition("status NOT IN (2, 3)");
        }
    }

    /// Only the tasks past their due date and neither completed nor failed,
    /// when asked.
    pub fn overdue_only(&mut self, overdue_only: Option<bool>)
        ensures
            overdue_only != Some(true) ==> final(self)@ == old(self)@,
            overdue_only == Some(true) ==> and_raw(
                old(self)@, final(self)@, "due_date < datetime('now') AND status NOT IN (2, 3)"@,
            ),
    {
        if overdue_only.unwrap_or(false) {
            self.raw_condition("due_date < datetime('now') AND status NOT IN (2, 3)");
        }
    }

    /// Only the tasks due in the range, each bound when given (times in
    /// milliseconds since the Unix epoch).
    pub fn with_due_date_range(&mut self, after: Option<i64>, before: Option<i64>)
        ensures
            after is None && before is None ==> final(self)@ == old(self)@,
            after is Some && before is None ==> and_condition(
                old(self)@, final(self)@, "due_date"@, ConditionOperator::GreaterThanOrEqual, BindValue::Timestamp(after->0),
            ),
            after is None && before is Some ==> and_condition(
                old(self)@, final(self)@, "due_date"@, ConditionOperator::LessThanOrEqual, BindValue::Timestamp(before->0),
            ),
            after is Some && before is Some ==> exists|mid: QueryView|
                and_condition(old(self)@, mid, "due_date"@, ConditionOperator::GreaterThanOrEqual, BindValue::Timestamp(after->0))
                && #[trigger] and_condition(mid, final(self)@, "due_date"@, ConditionOperator::LessThanOrEqual, BindValue::Timestamp(before->0)),
    {
        let ghost start = self@;
        if let Some(a) = after {
            self.builder.add_condition(
                "due_date", ConditionOperator::GreaterThanOrEqual, Some(BindValue::Timestamp(a)), Some(LogicalOperator::And),
            );
        }
        proof {
            if after is Some {
                assert(self@.binds =~= start.binds.push(BindValue::Timestamp(after->0)));
            } else {
                assert(self@ == start);
            }
        }
        let ghost mid = self@;
        if let Some(b) = before {
            self.builder.add_condition(
                "due_date", ConditionOperator::LessThanOrEqual, Some(BindValue::Timestamp(b)), Some(LogicalOperator::And),
            );
        }
        proof {
            if before is Some {
                assert(self@.binds =~= mid.binds.push(BindValue::Timestamp(before->0)));
                assert(and_condition(mid, self@, "due_date"@, ConditionOperator::LessThanOrEqual, BindValue::Timestamp(before->0)));
            }
        }
    }

    /// Only the tasks whose title or description contains the term, when a
    /// non-empty one is given.
    pub fn with_search_term(&mut self, search_term: Option<&str>)
        ensures
            search_term is Some && search_term->0@.len() > 0 ==> {
                &&& final(self)@.sql == old(self)@.sql + opener(old(self)@.has_where, " WHERE "@, Some(LogicalOperator::And))
                    + "(title LIKE "@ + "?"@ + " OR description LIKE "@ + "?"@ + ")"@
                &&& exists|pat: String| #![trigger pat@] pat@ == "%"@ + search_term->0@ + "%"@
                    && final(self)@.binds == old(self)@.binds.push(BindValue::Text(pat)).push(BindValue::Text(pat))
                &&& final(self)@.has_where
                &&& final(self)@.has_order_by == old(self)@.has_order_by
                &&& final(self)@.has_limit == old(self)@.has_limit
                &&& final(self)@.has_offset == old(self)@.has_offset
            },
            !(search_term is Some && search_term->0@.len() > 0) ==> final(self)@ == old(self)@,
    {
        if let Some(term) = search_term {
            if !term.is_empty() {
                let mut pat = "%".to_owned();
                pat.append(term);
                pat.append("%");
                self.builder.add_where_clause(Some(LogicalOperator::And));
                self.builder.push("(title LIKE ");
                self.builder.push_bind(BindValue::Text(pat.clone()));
                self.builder.push(" OR description LIKE ");
                self.builder.push_bind(BindValue::Text(pat.clone()));
                self.builder.push(")");
                proof {
                    assert(self@.sql =~= old(self)@.sql + opener(old(self)@.has_where, " WHERE "@, Some(LogicalOperator::And))
                        + "(title LIKE "@ + "?"@ + " OR description LIKE "@ + "?"@ + ")"@);
                    assert(pat@ =~= "%"@ + term@ + "%"@);
                    assert(self@.binds == old(self)@.binds.push(BindValue::Text(pat)).push(BindValue::Text(pat)));
                }
            }
        }
    }

    /// Limit and skip results, each when given.
    pub fn with_pagination(&mut self, limit: Option<usize>, offset: Option<usize>)
        ensures
            final(self)@.has_where == old(self)@.has_where,
            final(self)@.has_order_by == old(self)@.has_order_by,
            limit is None && offset is None ==> final(self)@ == old(self)@,
            limit is Some && !old(self)@.has_limit ==> final(self)@.has_limit,
            limit is Some && offset is None && !old(self)@.has_limit ==> {
                &&& final(self)@.sql == old(self)@.sql + " LIMIT "@ + "?"@
                &&& final(self)@.binds == old(self)@.binds.push(BindValue::Integer(limit->0 as i64))
            },
            limit is Some && offset is Some && !old(self)@.has_limit && !old(self)@.has_offset ==> {
                &&& final(self)@.sql == old(self)@.sql + " LIMIT "@ + "?"@ + " OFFSET "@ + "?"@
                &&& final(self)@.binds == old(self)@.binds.push(BindValue::Integer(limit->0 as i64)).push(
                    BindValue::Integer(offset->0 as i64),
                )
            },
            limit is None && offset is Some && !old(self)@.has_offset ==> {
                &&& final(self)@.sql == old(self)@.sql + " OFFSET "@ + "?"@
                &&& final(self)@.binds == old(self)@.binds.push(BindValue::Integer(offset->0 as i64))
            },
    {
        if let Some(l) = limit {
            self.builder.add_limit(l as i64);
        }
        if let Some(o) = offset {
            self.builder.add_offset(o as i64);
        }
        proof {
            if limit is Some && offset is Some && !old(self)@.has_limit && !old(self)@.has_offset {
                assert(self@.sql =~= old(self)@.sql + " LIMIT "@ + "?"@ + " OFFSET "@ + "?"@);
            }
        }
    }

    /// Order by due date, then priority and importance (highest first), then
    /// title.
    pub fn with_default_ordering(&mut self)
        ensures
            final(self)@.sql == old(self)@.sql + (if old(self)@.has_order_by { ", "@ } else { " ORDER BY "@ })
                + "due_date ASC, priority DESC, importance DESC, title ASC"@,
            final(self)@.binds == old(self)@.binds,
            final(self)@.has_order_by,
            final(self)@.has_where == old(self)@.has_where,
            final(self)@.has_limit == old(self)@.has_limit,
            final(self)@.has_offset == old(self)@.has_offset,
    {
        self.builder.add_order_by("due_date", OrderDirection::Asc);
        self.builder.add_order_by("priority", OrderDirection::Desc);
        self.builder.add_order_by("importance", OrderDirection::Desc);
        self.builder.add_order_by("title", OrderDirection::Asc);
        proof {
            reveal_strlit("due_date");
            reveal_strlit("priority");
            reveal_strlit("importance");
            reveal_strlit("title");
            reveal_strlit(" ");
            reveal_strlit(", ");
            reveal_strlit("ASC");
            reveal_strlit("DESC");
            reveal_strlit("due_date ASC, priority DESC, importance DESC, title ASC");
            assert(self@.sql =~= old(self)@.sql + (if old(self)@.has_order_by { ", "@ } else { " ORDER BY "@ })
                + "due_date ASC, priority DESC, importance DESC, title ASC"@);
        }
    }

    /// The query built so far.
    pub fn builder(&self) -> (r: &EnhancedQueryBuilder)
        ensures
            r@ == self@,
    {
        &self.builder
    }
}

} // verus!
