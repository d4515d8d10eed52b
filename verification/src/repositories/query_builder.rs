use vstd::prelude::*;
use vstd::string::*;

verus! {

/// Condition operator for query building.
#[derive(Debug, Clone, Copy, PartialEq, Eq, Structural)]
pub enum ConditionOperator {
    /// Equal (=)
    Equal,
    /// Not equal (!=)
    NotEqual,
    /// Greater than (>)
    GreaterThan,
    /// Greater than or equal (>=)
    GreaterThanOrEqual,
    /// Less than (<)
    LessThan,
    /// Less than or equal (<=)
    LessThanOrEqual,
    /// Like (LIKE)
    Like,
    /// In (IN)
    In,
    /// Is null (IS NULL)
    IsNull,
    /// Is not null (IS NOT NULL)
    IsNotNull,
}

/// The SQL text of a condition operator.
pub open spec fn condition_sql(op: ConditionOperator) -> Seq<char> {
    match op {
        ConditionOperator::Equal => "="@,
        ConditionOperator::NotEqual => "!="@,
        ConditionOperator::GreaterThan => ">"@,
        ConditionOperator::GreaterThanOrEqual => ">="@,
        ConditionOperator::LessThan => "<"@,
        ConditionOperator::LessThanOrEqual => "<="@,
        ConditionOperator::Like => "LIKE"@,
        ConditionOperator::In => "IN"@,
        ConditionOperator::IsNull => "IS NULL"@,
        ConditionOperator::IsNotNull => "IS NOT NULL"@,
    }
}

impl ConditionOperator {
    /// Get the SQL representation of the operator.
    pub fn as_sql(&self) -> (r: &'static str)
        ensures
            r@ == condition_sql(*self),
    {
        match self {
            ConditionOperator::Equal => "=",
            ConditionOperator::NotEqual => "!=",
            ConditionOperator::GreaterThan => ">",
            ConditionOperator::GreaterThanOrEqual => ">=",
            ConditionOperator::LessThan => "<",
            ConditionOperator::LessThanOrEqual => "<=",
            ConditionOperator::Like => "LIKE",
            ConditionOperator::In => "IN",
            ConditionOperator::IsNull => "IS NULL",
            ConditionOperator::IsNotNull => "IS NOT NULL",
        }
    }
}

/// Logical operator for combining conditions.
#[derive(Debug, Clone, Copy, PartialEq, Eq, Structural)]
pub enum LogicalOperator {
    /// AND
    And,
    /// OR
    Or,
}

/// The SQL text of a logical operator.
pub open spec fn logical_sql(op: LogicalOperator) -> Seq<char> {
    match op {
        LogicalOperator::And => "AND"@,
        LogicalOperator::Or => "OR"@,
    }
}

impl LogicalOperator {
    /// Get the SQL representation of the operator.
    pub fn as_sql(&self) -> (r: &'static str)
        ensures
            r@ == logical_sql(*self),
    {
        match self {
            LogicalOperator::And => "AND",
            LogicalOperator::Or => "OR",
        }
    }
}

/// Order direction for sorting.
#[derive(Debug, Clone, Copy, PartialEq, Eq, Structural)]
pub enum OrderDirection {
    /// Ascending
    Asc,
    /// Descending
    Desc,
}

/// The SQL text of an order direction.
pub open spec fn direction_sql(d: OrderDirection) -> Seq<char> {
    match d {
        OrderDirection::Asc => "ASC"@,
        OrderDirection::Desc => "DESC"@,
    }
}

impl OrderDirection {
    /// Get the SQL representation of the direction.
    pub fn as_sql(&self) -> (r: &'static str)
        ensures
            r@ == direction_sql(*self),
    {
        match self {
            OrderDirection::Asc => "ASC",
            OrderDirection::Desc => "DESC",
        }
    }
}

/// Join type for SQL joins.
#[derive(Debug, Clone, Copy, PartialEq, Eq, Structural)]
pub enum JoinType {
    /// INNER JOIN
    Inner,
    /// LEFT JOIN
    Left,
    /// RIGHT JOIN
    Right,
    /// FULL JOIN
    Full,
}

/// The SQL text of a join type.
pub open spec fn join_sql(j: JoinType) -> Seq<char> {
    match j {
        JoinType::Inner => "INNER JOIN"@,
        JoinType::Left => "LEFT JOIN"@,
        JoinType::Right => "RIGHT JOIN"@,
        JoinType::Full => "FULL JOIN"@,
    }
}

impl JoinType {
    /// Get the SQL representation of the join type.
    pub fn as_sql(&self) -> (r: &'static str)
        ensures
            r@ == join_sql(*self),
    {
        match self {
            JoinType::Inner => "INNER JOIN",
            JoinType::Left => "LEFT JOIN",
            JoinType::Right => "RIGHT JOIN",
            JoinType::Full => "FULL JOIN",
        }
    }
}

/// Aggregation function for SQL aggregations.
#[derive(Debug, Clone, Copy, PartialEq, Eq, Structural)]
pub enum AggregateFunction {
    /// COUNT
    Count,
    /// SUM
    Sum,
    /// AVG
    Avg,
    /// MIN
    Min,
    /// MAX
    Max,
    /// GROUP_CONCAT
    GroupConcat,
}

/// The SQL text of an aggregation function.
pub open spec fn aggregate_sql(f: AggregateFunction) -> Seq<char> {
    match f {
        AggregateFunction::Count => "COUNT"@,
        AggregateFunction::Sum => "SUM"@,
        AggregateFunction::Avg => "AVG"@,
        AggregateFunction::Min => "MIN"@,
        AggregateFunction::Max => "MAX"@,
        AggregateFunction::GroupConcat => "GROUP_CONCAT"@,
    }
}

impl AggregateFunction {
    /// Get the SQL representation of the aggregation function.
    pub fn as_sql(&self) -> (r: &'static str)
        ensures
            r@ == aggregate_sql(*self),
    {
        match self {
            AggregateFunction::Count => "COUNT",
            AggregateFunction::Sum => "SUM",
            AggregateFunction::Avg => "AVG",
            AggregateFunction::Min => "MIN",
            AggregateFunction::Max => "MAX",
            AggregateFunction::GroupConcat => "GROUP_CONCAT",
        }
    }
}

/// A value bound to a placeholder of a query.
#[derive(Debug, Clone, PartialEq, Eq)]
pub enum BindValue {
    /// An integer
    Integer(i64),
    /// A text
    Text(String),
    /// A boolean
    Boolean(bool),
    /// A UUID, as its 128-bit value
    Uuid(u128),
    /// A point in time, in milliseconds since the Unix epoch
    Timestamp(i64),
}

/// What a query under construction amounts to.
pub struct QueryView {
    /// The SQL text, with a `?` for each bound value
    pub sql: Seq<char>,
    /// The bound values, in order
    pub binds: Seq<BindValue>,
    pub has_where: bool,
    pub has_order_by: bool,
    pub has_limit: bool,
    pub has_offset: bool,
    pub has_join: bool,
    pub has_group_by: bool,
    pub has_having: bool,
}

/// Query builder that assembles SQL text with `?` placeholders and the values
/// bound to them, keeping track of the clauses already opened.
#[derive(Debug)]
pub struct EnhancedQueryBuilder {
    sql: String,
    binds: Vec<BindValue>,
    has_where: bool,
    has_order_by: bool,
    has_limit: bool,
    has_offset: bool,
    has_join: bool,
    has_group_by: bool,
    has_having: bool,
}

impl View for EnhancedQueryBuilder {
    type V = QueryView;

    closed spec fn view(&self) -> QueryView {
        QueryView {
            sql: self.sql@,
            binds: self.binds@,
            has_where: self.has_where,
            has_order_by: self.has_order_by,
            has_limit: self.has_limit,
            has_offset: self.has_offset,
            has_join: self.has_join,
            has_group_by: self.has_group_by,
            has_having: self.has_having,
        }
    }
}

/// The text that opens a clause `keyword` or, once it is open, joins another
/// condition to it with `op`.
pub open spec fn opener(is_open: bool, keyword: Seq<char>, op: Option<LogicalOperator>) -> Seq<char> {
    if !is_open {
        keyword
    } else {
        match op {
            Some(o) => " "@ + logical_sql(o) + " "@,
            None => Seq::empty(),
        }
    }
}

/// Whether a condition with operator `op` and `value` is added at all: the
/// null tests need no value, the others do.
pub open spec fn condition_applies(op: ConditionOperator, has_value: bool) -> bool {
    has_value || op == ConditionOperator::IsNull || op == ConditionOperator::IsNotNull
}

/// The text of a condition on `field` with operator `op`, a `?` standing for
/// its value.
pub open spec fn condition_text(field: Seq<char>, op: ConditionOperator) -> Seq<char> {
    match op {
        ConditionOperator::IsNull => field + " IS NULL"@,
        ConditionOperator::IsNotNull => field + " IS NOT NULL"@,
        ConditionOperator::In => field + " IN ("@ + "?"@ + ")"@,
        _ => field + " "@ + condition_sql(op) + " "@ + "?"@,
    }
}

/// The values a condition with operator `op` binds.
pub open spec fn condition_binds(op: ConditionOperator, value: Option<BindValue>) -> Seq<BindValue> {
    match op {
        ConditionOperator::IsNull => Seq::empty(),
        ConditionOperator::IsNotNull => Seq::empty(),
        _ => match value {
            Some(v) => seq![v],
            None => Seq::empty(),
        },
    }
}

/// `a` and `b` agree on all the clause flags but those named false here.
pub open spec fn flags_kept(a: QueryView, b: QueryView, wh: bool, ob: bool, li: bool, of: bool, jo: bool, gb: bool, ha: bool) -> bool {
    &&& (wh ==> a.has_where == b.has_where)
    &&& (ob ==> a.has_order_by == b.has_order_by)
    &&& (li ==> a.has_limit == b.has_limit)
    &&& (of ==> a.has_offset == b.has_offset)
    &&& (jo ==> a.has_join == b.has_join)
    &&& (gb ==> a.has_group_by == b.has_group_by)
    &&& (ha ==> a.has_having == b.has_having)
}

impl EnhancedQueryBuilder {
    /// Create a new query builder with the given base query.
    pub fn new(base_query: &str) -> (r: Self)
        ensures
            r@.sql == base_query@,
            r@.binds == Seq::<BindValue>::empty(),
            !r@.has_where && !r@.has_order_by && !r@.has_limit && !r@.has_offset,
            !r@.has_join && !r@.has_group_by && !r@.has_having,
    {
        EnhancedQueryBuilder {
            sql: base_query.to_owned(),
            binds: Vec::new(),
            has_where: false,
            has_order_by: false,
            has_limit: false,
            has_offset: false,
            has_join: false,
            has_group_by: false,
            has_having: false,
        }
    }

    /// The SQL text built so far.
    pub fn sql(&self) -> (r: &str)
        ensures
            r@ == self@.sql,
    {
        self.sql.as_str()
    }

    /// Whether the WHERE clause is open.
    pub fn has_where(&self) -> (r: bool)
        ensures
            r == self@.has_where,
    {
        self.has_where
    }

    /// The values bound so far, in order.
    pub fn binds(&self) -> (r: &Vec<BindValue>)
        ensures
            r@ == self@.binds,
    {
        &self.binds
    }

    fn push_opener(&mut self, is_having: bool, op: Option<LogicalOperator>)
        ensures
            final(self)@.binds == old(self)@.binds,
            !is_having ==> final(self)@.sql == old(self)@.sql + opener(old(self)@.has_where, " WHERE "@, op),
            is_having ==> final(self)@.sql == old(self)@.sql + opener(old(self)@.has_having, " HAVING "@, op),
            !is_having ==> final(self)@.has_where && flags_kept(final(self)@, old(self)@, false, true, true, true, true, true, true),
            is_having ==> final(self)@.has_having && flags_kept(final(self)@, old(self)@, true, true, true, true, true, true, false),
    {
        let is_open = if is_having { self.has_having } else { self.has_where };
        if !is_open {
            if is_having {
                self.sql.append(" HAVING ");
                self.has_having = true;
            } else {
                self.sql.append(" WHERE ");
                self.has_where = true;
            }
        } else {
            match op {
                Some(o) => {
                    self.sql.append(" ");
                    self.sql.append(o.as_sql());
                    self.sql.append(" ");
                    assert(self.sql@ =~= old(self).sql@ + (" "@ + logical_sql(o) + " "@));
                },
                None => {
                    assert(self.sql@ =~= old(self).sql@ + Seq::<char>::empty());
                },
            }
        }
    }

    /// Append raw SQL text.
    pub fn push(&mut self, text: &str)
        ensures
            final(self)@.sql == old(self)@.sql + text@,
            final(self)@.binds == old(self)@.binds,
            flags_kept(final(self)@, old(self)@, true, true, true, true, true, true, true),
    {
        self.sql.append(text);
    }

    /// Append a placeholder bound to `value`.
    pub fn push_bind(&mut self, value: BindValue)
        ensures
            final(self)@.sql == old(self)@.sql + "?"@,
            final(self)@.binds == old(self)@.binds.push(value),
            flags_kept(final(self)@, old(self)@, true, true, true, true, true, true, true),
    {
        self.sql.append("?");
        self.binds.push(value);
    }

    /// Open the WHERE clause if it is not open yet, otherwise join the next
    /// condition with the given logical operator.
    pub fn add_where_clause(&mut self, logical_op: Option<LogicalOperator>)
        ensures
            final(self)@.sql == old(self)@.sql + opener(old(self)@.has_where, " WHERE "@, logical_op),
            final(self)@.binds == old(self)@.binds,
            final(self)@.has_where,
            flags_kept(final(self)@, old(self)@, false, true, true, true, true, true, true),
    {
        self.push_opener(false, logical_op);
    }

    fn push_condition(&mut self, field: &str, op: ConditionOperator, value: Option<BindValue>)
        requires
            condition_applies(op, value is Some),
        ensures
            final(self)@.sql == old(self)@.sql + condition_text(field@, op),
            final(self)@.binds == old(self)@.binds + condition_binds(op, value),
            flags_kept(final(self)@, old(self)@, true, true, true, true, true, true, true),
    {
        self.sql.append(field);
        match op {
            ConditionOperator::IsNull => {
                self.sql.append(" IS NULL");
                assert(self.binds@ =~= old(self).binds@ + Seq::<BindValue>::empty());
            },
            ConditionOperator::IsNotNull => {
                self.sql.append(" IS NOT NULL");
                assert(self.binds@ =~= old(self).binds@ + Seq::<BindValue>::empty());
            },
            ConditionOperator::In => {
                self.sql.append(" IN (");
                self.sql.append("?");
                self.sql.append(")");
                match value {
                    Some(v) => {
                        self.binds.push(v);
                        assert(self.binds@ =~= old(self).binds@ + seq![v]);
                    },
                    None => {},
                }
                assert(self.sql@ =~= old(self).sql@ + condition_text(field@, op));
            },
            _ => {
                self.sql.append(" ");
                self.sql.append(op.as_sql());
                self.sql.append(" ");
                self.sql.append("?");
                match value {
                    Some(v) => {
                        self.binds.push(v);
                        assert(self.binds@ =~= old(self).binds@ + seq![v]);
                    },
                    None => {},
                }
                assert(self.sql@ =~= old(self).sql@ + condition_text(field@, op));
            },
        }
    }

    /// Add a condition to the WHERE clause. Nothing is added when there is no
    /// value, unless the operator is a null test.
    pub fn add_condition(&mut self, field: &str, op: ConditionOperator, value: Option<BindValue>, logical_op: Option<LogicalOperator>)
        ensures
            !condition_applies(op, value is Some) ==> final(self)@ == old(self)@,
            condition_applies(op, value is Some) ==> {
                &&& final(self)@.sql == old(self)@.sql + opener(old(self)@.has_where, " WHERE "@, logical_op)
                    + condition_text(field@, op)
                &&& final(self)@.binds == old(self)@.binds + condition_binds(op, value)
                &&& final(self)@.has_where
                &&& flags_kept(final(self)@, old(self)@, false, true, true, true, true, true, true)
            },
    {
        let applies = match value {
            Some(_) => true,
            None => match op {
                ConditionOperator::IsNull => true,
                ConditionOperator::IsNotNull => true,
                _ => false,
            },
        };
        if !applies {
            return;
        }
        self.push_opener(false, logical_op);
        let ghost mid = self@.sql;
        self.push_condition(field, op, value);
        assert(self@.sql =~= old(self)@.sql + opener(old(self)@.has_where, " WHERE "@, logical_op)
            + condition_text(field@, op));
    }

    /// Open the HAVING clause if it is not open yet, otherwise join the next
    /// condition with the given logical operator.
    pub fn add_having_clause(&mut self, logical_op: Option<LogicalOperator>)
        ensures
            final(self)@.sql == old(self)@.sql + opener(old(self)@.has_having, " HAVING "@, logical_op),
            final(self)@.binds == old(self)@.binds,
            final(self)@.has_having,
            flags_kept(final(self)@, old(self)@, true, true, true, true, true, true, false),
    {
        self.push_opener(true, logical_op);
    }

    /// Add a condition to the HAVING clause. Nothing is added when there is
    /// no value, unless the operator is a null test.
    pub fn add_having_condition(&mut self, field: &str, op: ConditionOperator, value: Option<BindValue>, logical_op: Option<LogicalOperator>)
        ensures
            !condition_applies(op, value is Some) ==> final(self)@ == old(self)@,
            condition_applies(op, value is Some) ==> {
                &&& final(self)@.sql == old(self)@.sql + opener(old(self)@.has_having, " HAVING "@, logical_op)
                    + condition_text(field@, op)
                &&& final(self)@.binds == old(self)@.binds + condition_binds(op, value)
                &&& final(self)@.has_having
                &&& flags_kept(final(self)@, old(self)@, true, true, true, true, true, true, false)
            },
    {
        let applies = match value {
            Some(_) => true,
            None => match op {
                ConditionOperator::IsNull => true,
                ConditionOperator::IsNotNull => true,
                _ => false,
            },
        };
        if !applies {
            return;
        }
        self.push_opener(true, logical_op);
        self.push_condition(field, op, value);
        assert(self@.sql =~= old(self)@.sql + opener(old(self)@.has_having, " HAVING "@, logical_op)
            + condition_text(field@, op));
    }

    /// Add an ORDER BY term: the first opens the clause, later ones follow a
    /// comma.
    pub fn add_order_by(&mut self, field: &str, direction: OrderDirection)
        ensures
            final(self)@.sql == old(self)@.sql + (if old(self)@.has_order_by { ", "@ } else { " ORDER BY "@ })
                + field@ + " "@ + direction_sql(direction),
            final(self)@.binds == old(self)@.binds,
            final(self)@.has_order_by,
            flags_kept(final(self)@, old(self)@, true, false, true, true, true, true, true),
    {
        if !self.has_order_by {
            self.sql.append(" ORDER BY ");
            self.has_order_by = true;
        } else {
            self.sql.append(", ");
        }
        self.sql.append(field);
        self.sql.append(" ");
        self.sql.append(direction.as_sql());
        assert(self@.sql =~= old(self)@.sql + (if old(self)@.has_order_by { ", "@ } else { " ORDER BY "@ })
            + field@ + " "@ + direction_sql(direction));
    }

    /// Add a LIMIT clause, unless there is one.
    pub fn add_limit(&mut self, limit: i64)
        ensures
            old(self)@.has_limit ==> final(self)@ == old(self)@,
            !old(self)@.has_limit ==> {
                &&& final(self)@.sql == old(self)@.sql + " LIMIT "@ + "?"@
                &&& final(self)@.binds == old(self)@.binds.push(BindValue::Integer(limit))
                &&& final(self)@.has_limit
                &&& flags_kept(final(self)@, old(self)@, true, true, false, true, true, true, true)
            },
    {
        if !self.has_limit {
            self.sql.append(" LIMIT ");
            self.sql.append("?");
            self.binds.push(BindValue::Integer(limit));
            self.has_limit = true;
        }
    }

    /// Add an OFFSET clause, unless there is one.
    pub fn add_offset(&mut self, offset: i64)
        ensures
            old(self)@.has_offset ==> final(self)@ == old(self)@,
            !old(self)@.has_offset ==> {
                &&& final(self)@.sql == old(self)@.sql + " OFFSET "@ + "?"@
                &&& final(self)@.binds == old(self)@.binds.push(BindValue::Integer(offset))
                &&& final(self)@.has_offset
                &&& flags_kept(final(self)@, old(self)@, true, true, true, false, true, true, true)
            },
    {
        if !self.has_offset {
            self.sql.append(" OFFSET ");
            self.sql.append("?");
            self.binds.push(BindValue::Integer(offset));
            self.has_offset = true;
        }
    }

    /// Add a JOIN clause.
    pub fn add_join(&mut self, join_type: JoinType, table: &str, on_condition: &str)
        ensures
            final(self)@.sql == old(self)@.sql + " "@ + join_sql(join_type) + " "@ + table@ + " ON "@ + on_condition@,
            final(self)@.binds == old(self)@.binds,
            final(self)@.has_join,
            flags_kept(final(self)@, old(self)@, true, true, true, true, false, true, true),
    {
        self.sql.append(" ");
        self.sql.append(join_type.as_sql());
        self.sql.append(" ");
        self.sql.append(table);
        self.sql.append(" ON ");
        self.sql.append(on_condition);
        self.has_join = true;
    }

    /// Add GROUP BY fields: the first call opens the clause, later ones follow
    /// a comma; the fields are joined with commas.
    pub fn add_group_by(&mut self, fields: &Vec<String>)
        ensures
            final(self)@.sql == old(self)@.sql + (if old(self)@.has_group_by { ", "@ } else { " GROUP BY "@ })
                + comma_joined(fields@),
            final(self)@.binds == old(self)@.binds,
            final(self)@.has_group_by,
            flags_kept(final(self)@, old(self)@, true, true, true, true, true, false, true),
    {
        if !self.has_group_by {
            self.sql.append(" GROUP BY ");
            self.has_group_by = true;
        } else {
            self.sql.append(", ");
        }
        let ghost start = self@.sql;
        let mut i: usize = 0;
        while i < fields.len()
            invariant
                i <= fields@.len(),
                self@.sql == start + comma_joined(fields@.take(i as int)),
                self@.binds == old(self)@.binds,
                self@.has_group_by,
                flags_kept(self@, old(self)@, true, true, true, true, true, false, true),
            decreases fields@.len() - i,
        {
            let ghost before = self@.sql;
            if i > 0 {
                self.sql.append(", ");
            }
            self.sql.append(fields[i].as_str());
            proof {
                let t = fields@.take(i + 1);
                assert(t.drop_last() =~= fields@.take(i as int));
                assert(t.last() == fields@[i as int]);
                assert(self@.sql =~= start + comma_joined(t));
            }
            i = i + 1;
        }
        assert(fields@.take(i as int) =~= fields@);
    }

    /// Add an aggregate function with an alias.
    pub fn add_aggregate(&mut self, func: AggregateFunction, field: &str, alias: &str)
        ensures
            final(self)@.sql == old(self)@.sql + aggregate_sql(func) + "("@ + field@ + ") AS "@ + alias@,
            final(self)@.binds == old(self)@.binds,
            flags_kept(final(self)@, old(self)@, true, true, true, true, true, true, true),
    {
        self.sql.append(func.as_sql());
        self.sql.append("(");
        self.sql.append(field);
        self.sql.append(") AS ");
        self.sql.append(alias);
    }
}

/// The texts of `fields`, joined with commas.
pub open spec fn comma_joined(fields: Seq<String>) -> Seq<char>
    decreases fields.len(),
{
    if fields.len() == 0 {
        Seq::empty()
    } else if fields.len() == 1 {
        fields[0]@
    } else {
        comma_joined(fields.drop_last()) + ", "@ + fields.last()@
    }
}

} // verus!
