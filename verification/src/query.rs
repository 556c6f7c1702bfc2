//! Parameterized statements built from whichever optional fields are present.
//!
//! A builder keeps an ordered list of bindings, each a fragment of statement
//! text with the value bound to it. Placeholders are numbered when the
//! statement is rendered, by the position of the binding in that list, so a
//! field that is left out never moves the value of another.

use crate::utils::text::{chars_of, decimal, render_decimal};
use vstd::prelude::*;
use vstd::string::*;

verus! {

/// A value bound to a placeholder of a statement.
#[derive(Debug, PartialEq, Eq)]
pub enum SqlValue {
    Text(String),
    Integer(i64),
    /// An identifier in its canonical textual form.
    Uuid(String),
    /// An instant, in seconds since the Unix epoch.
    Timestamp(i64),
    Null,
}

/// The mathematical content of a bound value.
pub enum Param {
    Text(Seq<char>),
    Integer(i64),
    Uuid(Seq<char>),
    Timestamp(i64),
    Null,
}

impl View for SqlValue {
    type V = Param;

    open spec fn view(&self) -> Param {
        match self {
            SqlValue::Text(s) => Param::Text(s@),
            SqlValue::Integer(i) => Param::Integer(*i),
            SqlValue::Uuid(s) => Param::Uuid(s@),
            SqlValue::Timestamp(t) => Param::Timestamp(*t),
            SqlValue::Null => Param::Null,
        }
    }
}

impl Clone for SqlValue {
    fn clone(&self) -> (r: SqlValue)
        ensures
            r@ == self@,
    {
        match self {
            SqlValue::Text(s) => SqlValue::Text(s.clone()),
            SqlValue::Integer(i) => SqlValue::Integer(*i),
            SqlValue::Uuid(s) => SqlValue::Uuid(s.clone()),
            SqlValue::Timestamp(t) => SqlValue::Timestamp(*t),
            SqlValue::Null => SqlValue::Null,
        }
    }
}

/// The contents of a list of bound values.
pub open spec fn params_of(values: Seq<SqlValue>) -> Seq<Param> {
    values.map_values(|v: SqlValue| v@)
}

/// A statement ready to be executed: its text, with placeholders `$1`, `$2`,
/// ..., and the values bound to them, in that order.
#[derive(Debug, PartialEq, Eq)]
pub struct Statement {
    pub sql: String,
    pub params: Vec<SqlValue>,
}

/// The mathematical content of a statement.
pub struct StatementView {
    pub sql: Seq<char>,
    pub params: Seq<Param>,
}

impl View for Statement {
    type V = StatementView;

    open spec fn view(&self) -> StatementView {
        StatementView { sql: self.sql@, params: params_of(self.params@) }
    }
}

/// A fragment of statement text with the value bound to it.
#[derive(Debug, PartialEq, Eq)]
pub struct Binding {
    pub fragment: String,
    pub value: SqlValue,
}

/// The mathematical content of a binding.
pub struct BindingView {
    pub fragment: Seq<char>,
    pub value: Param,
}

impl View for Binding {
    type V = BindingView;

    open spec fn view(&self) -> BindingView {
        BindingView { fragment: self.fragment@, value: self.value@ }
    }
}

/// The contents of a list of bindings.
pub open spec fn bindings_of(bindings: Seq<Binding>) -> Seq<BindingView> {
    bindings.map_values(|b: Binding| b@)
}

/// The values of a list of bindings, in order.
pub open spec fn values_of(bindings: Seq<BindingView>) -> Seq<Param> {
    bindings.map_values(|b: BindingView| b.value)
}

/// What a field that may be absent adds to a list of bindings: one binding
/// where it is present, nothing where it is not.
pub open spec fn binding_if(fragment: Seq<char>, value: Option<Param>) -> Seq<BindingView> {
    match value {
        Some(v) => seq![BindingView { fragment, value: v }],
        None => Seq::empty(),
    }
}

/// The content of a value that may be absent.
pub open spec fn param_of(value: Option<SqlValue>) -> Option<Param> {
    match value {
        Some(v) => Some(v@),
        None => None,
    }
}

/// A text as a bound value, where it is present.
pub open spec fn text_param(text: Option<Seq<char>>) -> Option<Param> {
    match text {
        Some(t) => Some(Param::Text(t)),
        None => None,
    }
}

/// An identifier as a bound value, where it is present.
pub open spec fn uuid_param(id: Option<Seq<char>>) -> Option<Param> {
    match id {
        Some(t) => Some(Param::Uuid(t)),
        None => None,
    }
}

/// Wraps a text that may be absent as a bound value.
pub fn text_value(text: &Option<String>) -> (value: Option<SqlValue>)
    ensures
        param_of(value) == text_param(chars_of(*text)),
{
    match text {
        Some(t) => Some(SqlValue::Text(t.clone())),
        None => None,
    }
}

/// Wraps an identifier that may be absent as a bound value.
pub fn uuid_value(id: &Option<String>) -> (value: Option<SqlValue>)
    ensures
        param_of(value) == uuid_param(chars_of(*id)),
{
    match id {
        Some(t) => Some(SqlValue::Uuid(t.clone())),
        None => None,
    }
}

/// The placeholder for the value at the given position, counted from 1.
pub open spec fn placeholder(position: nat) -> Seq<char> {
    seq!['$'] + decimal(position)
}

/// The predicates of the first `count` filters: the first is introduced by
/// `WHERE`, each later one by `AND`, and the placeholder of each carries its
/// position in the list.
pub open spec fn where_text(filters: Seq<BindingView>, count: nat) -> Seq<char>
    decreases count,
{
    if count == 0 {
        Seq::empty()
    } else {
        where_text(filters, (count - 1) as nat) + (if count == 1 {
            " WHERE "@
        } else {
            " AND "@
        }) + filters[count - 1].fragment + " "@ + placeholder(count)
    }
}

/// The assignments of the first `count` fields, joined by `, `; the
/// placeholder of each carries its position in the list.
pub open spec fn set_text(assignments: Seq<BindingView>, count: nat) -> Seq<char>
    decreases count,
{
    if count == 0 {
        Seq::empty()
    } else {
        set_text(assignments, (count - 1) as nat) + (if count == 1 {
            Seq::<char>::empty()
        } else {
            ", "@
        }) + assignments[count - 1].fragment + " = "@ + placeholder(count)
    }
}

/// The text and values that pagination adds after `bound` values are bound.
pub open spec fn page_text(limit: Option<i64>, offset: Option<i64>, bound: nat) -> Seq<char> {
    match (limit, offset) {
        (None, None) => Seq::empty(),
        (Some(_), None) => " LIMIT "@ + placeholder(bound + 1),
        (None, Some(_)) => " OFFSET "@ + placeholder(bound + 1),
        (Some(_), Some(_)) => " LIMIT "@ + placeholder(bound + 1) + " OFFSET "@ + placeholder(
            bound + 2,
        ),
    }
}

/// The values that pagination binds: the limit, then the offset, each only
/// where it was supplied.
pub open spec fn page_params(limit: Option<i64>, offset: Option<i64>) -> Seq<Param> {
    match (limit, offset) {
        (None, None) => Seq::empty(),
        (Some(l), None) => seq![Param::Integer(l)],
        (None, Some(o)) => seq![Param::Integer(o)],
        (Some(l), Some(o)) => seq![Param::Integer(l), Param::Integer(o)],
    }
}

/// The mathematical content of a filter query.
pub struct FilterQueryView {
    pub base: Seq<char>,
    pub filters: Seq<BindingView>,
    pub order: Seq<char>,
    pub limit: Option<i64>,
    pub offset: Option<i64>,
}

/// The statement that a filter query renders to.
pub open spec fn filter_statement(q: FilterQueryView) -> StatementView {
    StatementView {
        sql: q.base + where_text(q.filters, q.filters.len()) + q.order + page_text(
            q.limit,
            q.offset,
            q.filters.len(),
        ),
        params: values_of(q.filters) + page_params(q.limit, q.offset),
    }
}

/// A read statement under construction: a fixed base clause, the filters
/// that are present, an ordering, and optional pagination.
#[derive(Debug, PartialEq, Eq)]
pub struct FilterQuery {
    pub base: String,
    pub filters: Vec<Binding>,
    pub order: String,
    pub limit: Option<i64>,
    pub offset: Option<i64>,
}

impl View for FilterQuery {
    type V = FilterQueryView;

    open spec fn view(&self) -> FilterQueryView {
        FilterQueryView {
            base: self.base@,
            filters: bindings_of(self.filters@),
            order: self.order@,
            limit: self.limit,
            offset: self.offset,
        }
    }
}

/// Appends the placeholder for `position` to `sql`.
fn push_placeholder(sql: &mut String, position: u128)
    ensures
        final(sql)@ == old(sql)@ + placeholder(position as nat),
{
    proof {
        reveal_strlit("$");
    }
    let ghost before = sql@;
    sql.append("$");
    let digits = render_decimal(position);
    sql.append(digits.as_str());
    assert(sql@ =~= before + placeholder(position as nat));
}

impl FilterQuery {
    /// A query with the given base clause and ordering, no filter and no pagination.
    pub fn new(base: &str, order: &str) -> (q: FilterQuery)
        ensures
            q@ == (FilterQueryView {
                base: base@,
                filters: Seq::empty(),
                order: order@,
                limit: None,
                offset: None,
            }),
    {
        let q = FilterQuery {
            base: String::from_str(base),
            filters: Vec::new(),
            order: String::from_str(order),
            limit: None,
            offset: None,
        };
        assert(bindings_of(q.filters@) =~= Seq::empty());
        q
    }

    /// Adds a filter after those already present: `fragment` is the column
    /// and its operator, `value` what its placeholder is bound to.
    pub fn filter(&mut self, fragment: &str, value: SqlValue)
        ensures
            final(self)@ == (FilterQueryView {
                filters: old(self)@.filters.push(BindingView { fragment: fragment@, value: value@ }),
                ..old(self)@
            }),
    {
        let ghost before = self.filters@;
        self.filters.push(Binding { fragment: String::from_str(fragment), value });
        assert(bindings_of(self.filters@) =~= bindings_of(before).push(
            BindingView { fragment: fragment@, value: value@ },
        ));
    }

    /// Adds a filter only where its value is present.
    pub fn filter_if(&mut self, fragment: &str, value: Option<SqlValue>)
        ensures
            final(self)@ == (FilterQueryView {
                filters: old(self)@.filters + binding_if(fragment@, param_of(value)),
                ..old(self)@
            }),
    {
        match value {
            Some(v) => {
                self.filter(fragment, v);
                assert(self@.filters =~= old(self)@.filters + binding_if(
                    fragment@,
                    param_of(value),
                ));
            },
            None => {
                assert(self@.filters =~= old(self)@.filters + binding_if(
                    fragment@,
                    param_of(value),
                ));
            },
        }
    }

    /// Sets the pagination; a value that is `None` binds nothing.
    pub fn paginate(&mut self, limit: Option<i64>, offset: Option<i64>)
        ensures
            final(self)@ == (FilterQueryView { limit, offset, ..old(self)@ }),
    {
        self.limit = limit;
        self.offset = offset;
    }

    /// Renders the statement: base clause, filters in insertion order,
    /// ordering, then pagination, every value behind a placeholder numbered
    /// by its position among the bound values.
    pub fn render(&self) -> (statement: Statement)
        ensures
            statement@ == filter_statement(self@),
    {
        let mut sql = self.base.clone();
        let mut params: Vec<SqlValue> = Vec::new();
        let n = self.filters.len();
        let ghost filters = bindings_of(self.filters@);
        let mut i: usize = 0;
        while i < n
            invariant
                n == self.filters@.len(),
                i <= n,
                filters == bindings_of(self.filters@),
                sql@ == self.base@ + where_text(filters, i as nat),
                params@.len() == i,
                forall|j: int| 0 <= j < i ==> (#[trigger] params@[j])@ == self.filters@[j].value@,
            decreases n - i,
        {
            if i == 0 {
                sql.append(" WHERE ");
            } else {
                sql.append(" AND ");
            }
            sql.append(self.filters[i].fragment.as_str());
            sql.append(" ");
            push_placeholder(&mut sql, i as u128 + 1);
            params.push(self.filters[i].value.clone());
            assert(sql@ =~= self.base@ + where_text(filters, (i + 1) as nat));
            i += 1;
        }
        assert(params_of(params@) =~= values_of(filters));
        sql.append(self.order.as_str());
        let mut bound: u128 = n as u128;
        let ghost sql_before = sql@;
        let ghost params_before = params@;
        if let Some(limit) = self.limit {
            sql.append(" LIMIT ");
            bound += 1;
            push_placeholder(&mut sql, bound);
            params.push(SqlValue::Integer(limit));
        }
        if let Some(offset) = self.offset {
            sql.append(" OFFSET ");
            bound += 1;
            push_placeholder(&mut sql, bound);
            params.push(SqlValue::Integer(offset));
        }
        assert(sql@ =~= sql_before + page_text(self.limit, self.offset, n as nat));
        assert(params_of(params@) =~= params_of(params_before) + page_params(
            self.limit,
            self.offset,
        ));
        Statement { sql, params }
    }
}

/// The mathematical content of an update under construction.
pub struct UpdateStatementView {
    pub table: Seq<char>,
    pub assignments: Seq<BindingView>,
    pub key_column: Seq<char>,
    pub key: Param,
}

/// The statement that an update with at least one assignment renders to:
/// the assignments in insertion order, then the refreshed `updated_at`, then
/// the row's key.
pub open spec fn update_statement(u: UpdateStatementView, now: i64) -> StatementView {
    let n = u.assignments.len();
    StatementView {
        sql: "UPDATE "@ + u.table + " SET "@ + set_text(u.assignments, n) + ", updated_at = "@
            + placeholder(n + 1) + " WHERE "@ + u.key_column + " = "@ + placeholder(n + 2),
        params: values_of(u.assignments) + seq![Param::Timestamp(now), u.key],
    }
}

/// A partial update under construction: the table, the assignments for the
/// fields that are present, and the key of the row to change.
#[derive(Debug, PartialEq, Eq)]
pub struct UpdateStatement {
    pub table: String,
    pub assignments: Vec<Binding>,
    pub key_column: String,
    pub key: SqlValue,
}

impl View for UpdateStatement {
    type V = UpdateStatementView;

    open spec fn view(&self) -> UpdateStatementView {
        UpdateStatementView {
            table: self.table@,
            assignments: bindings_of(self.assignments@),
            key_column: self.key_column@,
            key: self.key@,
        }
    }
}

impl UpdateStatement {
    /// An update of the row of `table` whose `key_column` equals `key`, with
    /// no assignment yet.
    pub fn new(table: &str, key_column: &str, key: SqlValue) -> (u: UpdateStatement)
        ensures
            u@ == (UpdateStatementView {
                table: table@,
                assignments: Seq::empty(),
                key_column: key_column@,
                key: key@,
            }),
    {
        let u = UpdateStatement {
            table: String::from_str(table),
            assignments: Vec::new(),
            key_column: String::from_str(key_column),
            key,
        };
        assert(bindings_of(u.assignments@) =~= Seq::empty());
        u
    }

    /// Adds an assignment of `value` to `column` after those already present.
    pub fn set(&mut self, column: &str, value: SqlValue)
        ensures
            final(self)@ == (UpdateStatementView {
                assignments: old(self)@.assignments.push(
                    BindingView { fragment: column@, value: value@ },
                ),
                ..old(self)@
            }),
    {
        let ghost before = self.assignments@;
        self.assignments.push(Binding { fragment: String::from_str(column), value });
        assert(bindings_of(self.assignments@) =~= bindings_of(before).push(
            BindingView { fragment: column@, value: value@ },
        ));
    }

    /// Adds an assignment only where its value is present.
    pub fn set_if(&mut self, column: &str, value: Option<SqlValue>)
        ensures
            final(self)@ == (UpdateStatementView {
                assignments: old(self)@.assignments + binding_if(column@, param_of(value)),
                ..old(self)@
            }),
    {
        match value {
            Some(v) => {
                self.set(column, v);
                assert(self@.assignments =~= old(self)@.assignments + binding_if(
                    column@,
                    param_of(value),
                ));
            },
            None => {
                assert(self@.assignments =~= old(self)@.assignments + binding_if(
                    column@,
                    param_of(value),
                ));
            },
        }
    }

    /// Renders the statement, or refuses with `None` where no field is
    /// assigned: an empty `SET` is no statement.
    pub fn render(&self, now: i64) -> (statement: Option<Statement>)
        ensures
            statement is None <==> self@.assignments.len() == 0,
            statement matches Some(s) ==> s@ == update_statement(self@, now),
    {
        let n = self.assignments.len();
        if n == 0 {
            return None;
        }
        let mut sql = String::from_str("UPDATE ");
        sql.append(self.table.as_str());
        sql.append(" SET ");
        let mut params: Vec<SqlValue> = Vec::new();
        let ghost head = sql@;
        let ghost assignments = bindings_of(self.assignments@);
        let mut i: usize = 0;
        while i < n
            invariant
                n == self.assignments@.len(),
                i <= n,
                assignments == bindings_of(self.assignments@),
                sql@ == head + set_text(assignments, i as nat),
                params@.len() == i,
                forall|j: int|
                    0 <= j < i ==> (#[trigger] params@[j])@ == self.assignments@[j].value@,
            decreases n - i,
        {
            if i > 0 {
                sql.append(", ");
            }
            sql.append(self.assignments[i].fragment.as_str());
            sql.append(" = ");
            push_placeholder(&mut sql, i as u128 + 1);
            params.push(self.assignments[i].value.clone());
            assert(sql@ =~= head + set_text(assignments, (i + 1) as nat));
            i += 1;
        }
        assert(params_of(params@) =~= values_of(assignments));
        let ghost params_before = params@;
        sql.append(", updated_at = ");
        push_placeholder(&mut sql, n as u128 + 1);
        params.push(SqlValue::Timestamp(now));
        sql.append(" WHERE ");
        sql.append(self.key_column.as_str());
        sql.append(" = ");
        push_placeholder(&mut sql, n as u128 + 2);
        params.push(self.key.clone());
        assert(sql@ =~= update_statement(self@, now).sql);
        assert(params_of(params@) =~= params_of(params_before) + seq![
            Param::Timestamp(now),
            self.key@,
        ]);
        Some(Statement { sql, params })
    }
}

/// 1 where a value is supplied, 0 where it is not.
pub open spec fn supplied<T>(value: Option<T>) -> nat {
    if value is Some {
        1
    } else {
        0
    }
}

/// A filter query binds one value for each filter that is present and one
/// for each pagination value that is supplied, and no other.
pub proof fn lemma_filter_binds_what_is_present(q: FilterQueryView)
    ensures
        filter_statement(q).params.len() == q.filters.len() + supplied(q.limit) + supplied(
            q.offset,
        ),
{
}

/// The value of each filter is bound at the position that its own
/// placeholder names: the filter at index `i` of the present ones is
/// rendered with the placeholder `i + 1`, and the value bound at that
/// position is the filter's.
pub proof fn lemma_filter_value_at_its_placeholder(q: FilterQueryView, i: int)
    requires
        0 <= i < q.filters.len(),
    ensures
        filter_statement(q).params[i] == q.filters[i].value,
        where_text(q.filters, (i + 1) as nat) == where_text(q.filters, i as nat) + (if i == 0 {
            " WHERE "@
        } else {
            " AND "@
        }) + q.filters[i].fragment + " "@ + placeholder((i + 1) as nat),
{
}

/// Pagination is bound last: the limit right after the filters, the offset
/// after the limit, each behind the placeholder of its position.
pub proof fn lemma_pagination_is_bound_last(q: FilterQueryView)
    ensures
        q.limit matches Some(l) ==> filter_statement(q).params[q.filters.len() as int]
            == Param::Integer(l),
        q.offset matches Some(o) ==> filter_statement(q).params[(q.filters.len() + supplied(
            q.limit,
        )) as int] == Param::Integer(o),
{
}

/// Omitting a filter never parts another filter from its value: with the
/// filter at index `k` left out, the filter that stood at index `i` stands
/// at index `j` (one lower where it came after `k`), and the value bound at
/// position `j` is still its own.
pub proof fn lemma_omitted_filter_shifts_no_value(q: FilterQueryView, k: int, i: int)
    requires
        0 <= k < q.filters.len(),
        0 <= i < q.filters.len(),
        i != k,
    ensures
        ({
            let without = FilterQueryView { filters: q.filters.remove(k), ..q };
            let j = if i < k {
                i
            } else {
                i - 1
            };
            &&& without.filters[j] == q.filters[i]
            &&& filter_statement(without).params[j] == q.filters[i].value
            &&& filter_statement(without).params.len() == filter_statement(q).params.len() - 1
        }),
{
}

/// An update binds one value for each assignment, then the refreshed
/// `updated_at`, then the key of the row: the value of the assignment at
/// index `i` is bound at position `i`, whatever else is assigned.
pub proof fn lemma_update_binds_what_is_assigned(u: UpdateStatementView, now: i64, i: int)
    requires
        0 <= i < u.assignments.len(),
    ensures
        update_statement(u, now).params.len() == u.assignments.len() + 2,
        update_statement(u, now).params[i] == u.assignments[i].value,
        update_statement(u, now).params[u.assignments.len() as int] == Param::Timestamp(now),
        update_statement(u, now).params[(u.assignments.len() + 1) as int] == u.key,
{
}

/// How often the character `c` occurs in `text`.
pub open spec fn occurrences(text: Seq<char>, c: char) -> nat
    decreases text.len(),
{
    if text.len() == 0 {
        0
    } else {
        occurrences(text.drop_last(), c) + if text.last() == c {
            1nat
        } else {
            0nat
        }
    }
}

/// Whether `text` holds no placeholder sign of its own.
pub open spec fn plain(text: Seq<char>) -> bool {
    forall|i: int| 0 <= i < text.len() ==> text[i] != '$'
}

/// Whether the fragments of all bindings are plain.
pub open spec fn plain_fragments(bindings: Seq<BindingView>) -> bool {
    forall|i: int| 0 <= i < bindings.len() ==> plain(#[trigger] bindings[i].fragment)
}

/// Occurrences add up over concatenation.
pub proof fn lemma_occurrences_add(a: Seq<char>, b: Seq<char>, c: char)
    ensures
        occurrences(a + b, c) == occurrences(a, c) + occurrences(b, c),
    decreases b.len(),
{
    if b.len() == 0 {
        assert(a + b =~= a);
    } else {
        assert((a + b).drop_last() =~= a + b.drop_last());
        assert((a + b).last() == b.last());
        lemma_occurrences_add(a, b.drop_last(), c);
    }
}

/// A plain text holds no placeholder sign.
pub proof fn lemma_plain_has_none(text: Seq<char>)
    requires
        plain(text),
    ensures
        occurrences(text, '$') == 0,
    decreases text.len(),
{
    if text.len() > 0 {
        lemma_plain_has_none(text.drop_last());
    }
}

/// A decimal numeral is plain.
pub proof fn lemma_decimal_is_plain(n: nat)
    ensures
        plain(decimal(n)),
    decreases n,
{
    if n >= 10 {
        lemma_decimal_is_plain(n / 10);
    }
}

/// A placeholder holds exactly one placeholder sign.
pub proof fn lemma_placeholder_has_one(position: nat)
    ensures
        occurrences(placeholder(position), '$') == 1,
{
    lemma_decimal_is_plain(position);
    lemma_plain_has_none(decimal(position));
    lemma_occurrences_add(seq!['$'], decimal(position), '$');
    assert(occurrences(seq!['$'], '$') == 1) by {
        reveal_with_fuel(occurrences, 2);
        assert(seq!['$'].drop_last() =~= Seq::<char>::empty());
    }
}

/// The words that the builders themselves write are plain.
proof fn lemma_keywords_are_plain()
    ensures
        plain(" WHERE "@),
        plain(" AND "@),
        plain(" "@),
        plain(" LIMIT "@),
        plain(" OFFSET "@),
        plain("UPDATE "@),
        plain(" SET "@),
        plain(", "@),
        plain(" = "@),
        plain(", updated_at = "@),
{
    reveal_strlit(" WHERE ");
    reveal_strlit(" AND ");
    reveal_strlit(" ");
    reveal_strlit(" LIMIT ");
    reveal_strlit(" OFFSET ");
    reveal_strlit("UPDATE ");
    reveal_strlit(" SET ");
    reveal_strlit(", ");
    reveal_strlit(" = ");
    reveal_strlit(", updated_at = ");
}

/// The predicates of the first `count` filters hold `count` placeholder signs.
pub proof fn lemma_where_text_placeholders(filters: Seq<BindingView>, count: nat)
    requires
        count <= filters.len(),
        plain_fragments(filters),
    ensures
        occurrences(where_text(filters, count), '$') == count,
    decreases count,
{
    if count > 0 {
        let before = where_text(filters, (count - 1) as nat);
        let intro = if count == 1 {
            " WHERE "@
        } else {
            " AND "@
        };
        let fragment = filters[count - 1].fragment;
        lemma_where_text_placeholders(filters, (count - 1) as nat);
        lemma_keywords_are_plain();
        lemma_plain_has_none(intro);
        lemma_plain_has_none(fragment);
        lemma_plain_has_none(" "@);
        lemma_placeholder_has_one(count);
        lemma_occurrences_add(before, intro, '$');
        lemma_occurrences_add(before + intro, fragment, '$');
        lemma_occurrences_add(before + intro + fragment, " "@, '$');
        lemma_occurrences_add(before + intro + fragment + " "@, placeholder(count), '$');
    }
}

/// The assignments of the first `count` fields hold `count` placeholder signs.
pub proof fn lemma_set_text_placeholders(assignments: Seq<BindingView>, count: nat)
    requires
        count <= assignments.len(),
        plain_fragments(assignments),
    ensures
        occurrences(set_text(assignments, count), '$') == count,
    decreases count,
{
    if count > 0 {
        let before = set_text(assignments, (count - 1) as nat);
        let intro = if count == 1 {
            Seq::<char>::empty()
        } else {
            ", "@
        };
        let fragment = assignments[count - 1].fragment;
        lemma_set_text_placeholders(assignments, (count - 1) as nat);
        lemma_keywords_are_plain();
        lemma_plain_has_none(intro);
        lemma_plain_has_none(fragment);
        lemma_plain_has_none(" = "@);
        lemma_placeholder_has_one(count);
        lemma_occurrences_add(before, intro, '$');
        lemma_occurrences_add(before + intro, fragment, '$');
        lemma_occurrences_add(before + intro + fragment, " = "@, '$');
        lemma_occurrences_add(before + intro + fragment + " = "@, placeholder(count), '$');
    }
}

/// Pagination writes one placeholder sign for each value that it binds.
pub proof fn lemma_page_text_placeholders(limit: Option<i64>, offset: Option<i64>, bound: nat)
    ensures
        occurrences(page_text(limit, offset, bound), '$') == page_params(limit, offset).len(),
{
    lemma_keywords_are_plain();
    lemma_plain_has_none(" LIMIT "@);
    lemma_plain_has_none(" OFFSET "@);
    lemma_placeholder_has_one(bound + 1);
    lemma_placeholder_has_one(bound + 2);
    lemma_occurrences_add(" LIMIT "@, placeholder(bound + 1), '$');
    lemma_occurrences_add(" OFFSET "@, placeholder(bound + 1), '$');
    lemma_occurrences_add(" LIMIT "@ + placeholder(bound + 1), " OFFSET "@, '$');
    lemma_occurrences_add(
        " LIMIT "@ + placeholder(bound + 1) + " OFFSET "@,
        placeholder(bound + 2),
        '$',
    );
}

/// A rendered filter query holds exactly as many placeholders as it binds
/// values, whichever filters are present: provided that the base clause,
/// the fragments and the ordering hold no placeholder sign of their own.
pub proof fn lemma_filter_placeholders_match_values(q: FilterQueryView)
    requires
        plain(q.base),
        plain(q.order),
        plain_fragments(q.filters),
    ensures
        occurrences(filter_statement(q).sql, '$') == filter_statement(q).params.len(),
{
    let n = q.filters.len();
    let body = where_text(q.filters, n);
    let page = page_text(q.limit, q.offset, n);
    lemma_plain_has_none(q.base);
    lemma_plain_has_none(q.order);
    lemma_where_text_placeholders(q.filters, n);
    lemma_page_text_placeholders(q.limit, q.offset, n);
    lemma_occurrences_add(q.base, body, '$');
    lemma_occurrences_add(q.base + body, q.order, '$');
    lemma_occurrences_add(q.base + body + q.order, page, '$');
}

/// A rendered update holds exactly as many placeholders as it binds values,
/// whichever fields are assigned: provided that the table, the columns and
/// the key column hold no placeholder sign of their own.
pub proof fn lemma_update_placeholders_match_values(u: UpdateStatementView, now: i64)
    requires
        plain(u.table),
        plain(u.key_column),
        plain_fragments(u.assignments),
    ensures
        occurrences(update_statement(u, now).sql, '$') == update_statement(u, now).params.len(),
{
    let n = u.assignments.len();
    let a = "UPDATE "@ + u.table;
    let b = a + " SET "@;
    let c = b + set_text(u.assignments, n);
    let d = c + ", updated_at = "@;
    let e = d + placeholder(n + 1);
    let f = e + " WHERE "@;
    let g = f + u.key_column;
    let h = g + " = "@;
    lemma_keywords_are_plain();
    lemma_plain_has_none("UPDATE "@);
    lemma_plain_has_none(u.table);
    lemma_plain_has_none(" SET "@);
    lemma_plain_has_none(", updated_at = "@);
    lemma_plain_has_none(" WHERE "@);
    lemma_plain_has_none(u.key_column);
    lemma_plain_has_none(" = "@);
    lemma_set_text_placeholders(u.assignments, n);
    lemma_placeholder_has_one(n + 1);
    lemma_placeholder_has_one(n + 2);
    lemma_occurrences_add("UPDATE "@, u.table, '$');
    lemma_occurrences_add(a, " SET "@, '$');
    lemma_occurrences_add(b, set_text(u.assignments, n), '$');
    lemma_occurrences_add(c, ", updated_at = "@, '$');
    lemma_occurrences_add(d, placeholder(n + 1), '$');
    lemma_occurrences_add(e, " WHERE "@, '$');
    lemma_occurrences_add(f, u.key_column, '$');
    lemma_occurrences_add(g, " = "@, '$');
    lemma_occurrences_add(h, placeholder(n + 2), '$');
}

/// Whether two lists of bindings have the same fragments in the same order,
/// whatever their values.
pub open spec fn same_fragments(a: Seq<BindingView>, b: Seq<BindingView>) -> bool {
    &&& a.len() == b.len()
    &&& forall|i: int| 0 <= i < a.len() ==> (#[trigger] a[i]).fragment == b[i].fragment
}

/// The predicates of two lists with the same fragments read the same.
pub proof fn lemma_where_text_ignores_values(a: Seq<BindingView>, b: Seq<BindingView>, count: nat)
    requires
        same_fragments(a, b),
        count <= a.len(),
    ensures
        where_text(a, count) == where_text(b, count),
    decreases count,
{
    if count > 0 {
        lemma_where_text_ignores_values(a, b, (count - 1) as nat);
        assert(a[count - 1].fragment == b[count - 1].fragment);
    }
}

/// The assignments of two lists with the same columns read the same.
pub proof fn lemma_set_text_ignores_values(a: Seq<BindingView>, b: Seq<BindingView>, count: nat)
    requires
        same_fragments(a, b),
        count <= a.len(),
    ensures
        set_text(a, count) == set_text(b, count),
    decreases count,
{
    if count > 0 {
        lemma_set_text_ignores_values(a, b, (count - 1) as nat);
        assert(a[count - 1].fragment == b[count - 1].fragment);
    }
}

/// No bound value ever reaches the text of a filter query: two queries that
/// filter on the same fragments and supply the same pagination values or
/// none render to the same text, whatever the values are. The values travel
/// beside the text, in the order of their placeholders.
pub proof fn lemma_filter_text_ignores_values(p: FilterQueryView, q: FilterQueryView)
    requires
        p.base == q.base,
        p.order == q.order,
        same_fragments(p.filters, q.filters),
        p.limit is Some <==> q.limit is Some,
        p.offset is Some <==> q.offset is Some,
    ensures
        filter_statement(p).sql == filter_statement(q).sql,
{
    lemma_where_text_ignores_values(p.filters, q.filters, p.filters.len());
}

/// No bound value ever reaches the text of an update: two updates of the
/// same table that assign the same columns render to the same text,
/// whatever the values, the moment and the key are.
pub proof fn lemma_update_text_ignores_values(
    u: UpdateStatementView,
    v: UpdateStatementView,
    now: i64,
    then: i64,
)
    requires
        u.table == v.table,
        u.key_column == v.key_column,
        same_fragments(u.assignments, v.assignments),
    ensures
        update_statement(u, now).sql == update_statement(v, then).sql,
{
    lemma_set_text_ignores_values(u.assignments, v.assignments, u.assignments.len());
}

} // verus!
