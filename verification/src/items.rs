//! Tasks ("items"): their record type and the statements that create, complete,
//! update, soft-delete and list them.
use vstd::prelude::*;
use crate::sql::{
    Statement, SqlValue, SqlValueView, StatementView, WriteThenRead, WriteThenReadView,
    binds_all_parameters, digit_run, digits_value, highest_parameter_from, joins_cleanly,
    keyed_statement, lemma_highest_concat, optional_integer, optional_integer_value,
    optional_text, optional_text_value, parameter_count, text_value,
};
use crate::stamps::{TIMESTAMP_FORMAT, is_timestamp_text, is_v4_uuid_text, local_time_text, random_uuid_text};

verus! {

/// A task as it is read back from the database.
#[derive(Debug)]
pub struct Item {
    pub id: String,
    pub content: String,
    pub description: Option<String>,
    pub priority: i64,
    pub due: Option<String>,
    pub labels: Option<String>,
    pub project_id: String,
    pub checked: bool,
    pub added_at: String,
}

/// The priority of a task created without one.
pub const DEFAULT_PRIORITY: i64 = 1;

/// The due-date record of a task created without one: no date, no recurrence.
pub const DEFAULT_DUE: &'static str = r#"{"date":"","timezone":"","is_recurring":false,"recurrency_type":"6","recurrency_interval":"0","recurrency_weeks":"","recurrency_count":"0","recurrency_end":""}"#;

/// Inserts a task; its id is `?1`, its creation and update time `?5` and `?9`, and its
/// parent task `?10` (`NULL` for a task without one).
pub const INSERT_ITEM_SQL: &'static str = "INSERT INTO Items (id, content, description, due, added_at, project_id,
                                priority, labels, checked, child_order, is_deleted,
                                day_order, collapsed, pinned, item_type, updated_at,
                                section_id, parent_id)
             VALUES (?1, ?2, ?3, ?4, ?5, ?6, ?7, ?8, 0, 1000, 0,
                      0, 0, 0, 'task', ?9, '', ?10)";

/// Reads one task by id, in the column order of [`Item`].
pub const SELECT_ITEM_SQL: &'static str = "SELECT id, content, description, priority, due, labels,
                    project_id, checked, added_at
             FROM Items WHERE id = ?1";

/// Marks a task done at time `?1`.
pub const COMPLETE_ITEM_SQL: &'static str = "UPDATE Items SET checked = 1, completed_at = ?1 WHERE id = ?2";

/// Soft-deletes a task: the row stays, flagged as deleted.
pub const DELETE_ITEM_SQL: &'static str = "UPDATE Items SET is_deleted = 1 WHERE id = ?1";

/// Replaces the fields that are given (not `NULL`) and keeps the others.
pub const UPDATE_ITEM_SQL: &'static str = "UPDATE Items
         SET content = COALESCE(?1, content),
             description = COALESCE(?2, description),
             priority = COALESCE(?3, priority),
             due = COALESCE(?4, due),
             labels = COALESCE(?5, labels)
         WHERE id = ?6";

/// Lists the tasks that are not deleted, in the column order of [`Item`].
pub const LIST_ITEMS_SQL: &'static str = "SELECT id, content, description, priority, due, labels,
                    project_id, checked, added_at
             FROM Items WHERE is_deleted = 0";

/// Keeps only the tasks of one project.
pub const PROJECT_FILTER_SQL: &'static str = " AND project_id = ?";

/// Keeps only the tasks that are done (`1`) or not done (`0`).
pub const CHECKED_FILTER_SQL: &'static str = " AND checked = ?";

/// Keeps only the tasks of one priority.
pub const PRIORITY_FILTER_SQL: &'static str = " AND priority = ?";

/// Highest priority first, then oldest first.
pub const ITEM_ORDER_SQL: &'static str = " ORDER BY priority DESC, added_at ASC";

/// The statement that reads the task `id` back.
pub open spec fn item_by_id(id: Seq<char>) -> StatementView {
    StatementView { sql: SELECT_ITEM_SQL@, params: seq![SqlValueView::Text(id)] }
}

/// Creating a task with id `id` at time `now`: the missing priority is 1, the missing due
/// record is [`DEFAULT_DUE`], missing labels are empty, and a missing description or
/// parent task is `NULL`.
pub open spec fn item_insertion(
    id: Seq<char>,
    now: Seq<char>,
    content: Seq<char>,
    project_id: Seq<char>,
    description: Option<Seq<char>>,
    priority: Option<i64>,
    due: Option<Seq<char>>,
    labels: Option<Seq<char>>,
    parent_id: Option<Seq<char>>,
) -> WriteThenReadView {
    WriteThenReadView {
        write: StatementView {
            sql: INSERT_ITEM_SQL@,
            params: seq![
                SqlValueView::Text(id),
                SqlValueView::Text(content),
                optional_text(description),
                SqlValueView::Text(due.unwrap_or(DEFAULT_DUE@)),
                SqlValueView::Text(now),
                SqlValueView::Text(project_id),
                SqlValueView::Integer(priority.unwrap_or(DEFAULT_PRIORITY)),
                SqlValueView::Text(labels.unwrap_or(Seq::empty())),
                SqlValueView::Text(now),
                optional_text(parent_id),
            ],
        },
        read_back: item_by_id(id),
    }
}

/// Completing the task `id` at time `now`.
pub open spec fn item_completion(id: Seq<char>, now: Seq<char>) -> WriteThenReadView {
    WriteThenReadView {
        write: StatementView {
            sql: COMPLETE_ITEM_SQL@,
            params: seq![SqlValueView::Text(now), SqlValueView::Text(id)],
        },
        read_back: item_by_id(id),
    }
}

/// Soft-deleting the task `id`.
pub open spec fn item_deletion(id: Seq<char>) -> StatementView {
    StatementView { sql: DELETE_ITEM_SQL@, params: seq![SqlValueView::Text(id)] }
}

/// Updating the given fields of the task `id`.
pub open spec fn item_update(
    id: Seq<char>,
    content: Option<Seq<char>>,
    description: Option<Seq<char>>,
    priority: Option<i64>,
    due: Option<Seq<char>>,
    labels: Option<Seq<char>>,
) -> WriteThenReadView {
    WriteThenReadView {
        write: StatementView {
            sql: UPDATE_ITEM_SQL@,
            params: seq![
                optional_text(content),
                optional_text(description),
                optional_integer(priority),
                optional_text(due),
                optional_text(labels),
                SqlValueView::Text(id),
            ],
        },
        read_back: item_by_id(id),
    }
}

/// `text` when `present`, else nothing.
pub open spec fn clause_if(present: bool, text: Seq<char>) -> Seq<char> {
    if present { text } else { Seq::empty() }
}

/// The one value of a filter that is given, else none.
pub open spec fn filter_param(value: Option<SqlValueView>) -> Seq<SqlValueView> {
    match value {
        Some(v) => seq![v],
        None => Seq::empty(),
    }
}

/// How a completion filter is bound: done is 1, not done is 0.
pub open spec fn checked_flag(completed: bool) -> i64 {
    if completed { 1 } else { 0 }
}

/// The listing of the tasks that are not deleted, narrowed by each filter that is given
/// (project, completion, priority, in that order), highest priority first, then oldest first.
pub open spec fn item_listing(
    project_id: Option<Seq<char>>,
    completed: Option<bool>,
    priority: Option<i64>,
) -> StatementView {
    StatementView {
        sql: LIST_ITEMS_SQL@ + clause_if(project_id is Some, PROJECT_FILTER_SQL@) + clause_if(
            completed is Some,
            CHECKED_FILTER_SQL@,
        ) + clause_if(priority is Some, PRIORITY_FILTER_SQL@) + ITEM_ORDER_SQL@,
        params: filter_param(
            match project_id {
                Some(p) => Some(SqlValueView::Text(p)),
                None => None,
            },
        ) + filter_param(
            match completed {
                Some(c) => Some(SqlValueView::Integer(checked_flag(c))),
                None => None,
            },
        ) + filter_param(
            match priority {
                Some(p) => Some(SqlValueView::Integer(p)),
                None => None,
            },
        ),
    }
}

/// The statements that create the task `id` at time `now` and read it back.
pub fn item_insertion_plan(
    id: &str,
    now: &str,
    content: &str,
    project_id: &str,
    description: &Option<String>,
    priority: Option<i64>,
    due: Option<&str>,
    labels: Option<&str>,
    parent_id: Option<&str>,
) -> (plan: WriteThenRead)
    ensures
        plan@ == item_insertion(
            id@,
            now@,
            content@,
            project_id@,
            description.deep_view(),
            priority,
            due.deep_view(),
            labels.deep_view(),
            parent_id.deep_view(),
        ),
{
    let priority_value = match priority {
        Some(p) => p,
        None => DEFAULT_PRIORITY,
    };
    let due_text = match due {
        Some(d) => d,
        None => DEFAULT_DUE,
    };
    let labels_text = match labels {
        Some(l) => l,
        None => "",
    };
    let description_text = match description {
        Some(d) => Some(d.as_str()),
        None => None,
    };
    proof {
        reveal_strlit("");
        assert(labels_text@ == labels.deep_view().unwrap_or(Seq::empty()));
        assert(description_text.deep_view() == description.deep_view());
    }
    let mut params: Vec<SqlValue> = Vec::new();
    params.push(text_value(id));
    params.push(text_value(content));
    params.push(optional_text_value(description_text));
    params.push(text_value(due_text));
    params.push(text_value(now));
    params.push(text_value(project_id));
    params.push(SqlValue::Integer(priority_value));
    params.push(text_value(labels_text));
    params.push(text_value(now));
    params.push(optional_text_value(parent_id));
    let write = Statement { sql: String::from_str(INSERT_ITEM_SQL), params };
    let read_back = keyed_statement(SELECT_ITEM_SQL, id);
    let plan = WriteThenRead { write, read_back };
    proof {
        let expected = item_insertion(
            id@,
            now@,
            content@,
            project_id@,
            description.deep_view(),
            priority,
            due.deep_view(),
            labels.deep_view(),
            parent_id.deep_view(),
        );
        assert(plan@.write.params =~= expected.write.params);
    }
    plan
}

/// The statements that create a task and read it back. The task gets a fresh random
/// id and the current local time; otherwise it is [`item_insertion`] of the arguments.
pub fn create_item_plan(
    content: &str,
    project_id: &str,
    description: &Option<String>,
    priority: Option<i64>,
    due: Option<&str>,
    labels: Option<&str>,
    parent_id: Option<&str>,
) -> (plan: WriteThenRead)
    ensures
        exists|id: Seq<char>, now: Seq<char>|
            {
                &&& is_v4_uuid_text(id)
                &&& is_timestamp_text(now)
                &&& plan@ == item_insertion(
                    id,
                    now,
                    content@,
                    project_id@,
                    description.deep_view(),
                    priority,
                    due.deep_view(),
                    labels.deep_view(),
                    parent_id.deep_view(),
                )
            },
{
    let id = random_uuid_text();
    let now = local_time_text(TIMESTAMP_FORMAT);
    item_insertion_plan(
        id.as_str(),
        now.as_str(),
        content,
        project_id,
        description,
        priority,
        due,
        labels,
        parent_id,
    )
}

/// The statements that mark the task `item_id` done at time `now` and read it back.
pub fn item_completion_plan(item_id: &str, now: &str) -> (plan: WriteThenRead)
    ensures
        plan@ == item_completion(item_id@, now@),
{
    let mut params: Vec<SqlValue> = Vec::new();
    params.push(text_value(now));
    params.push(text_value(item_id));
    let write = Statement { sql: String::from_str(COMPLETE_ITEM_SQL), params };
    let plan = WriteThenRead { write, read_back: keyed_statement(SELECT_ITEM_SQL, item_id) };
    assert(plan@.write.params =~= item_completion(item_id@, now@).write.params);
    plan
}

/// The statements that mark the task `item_id` done now and read it back.
pub fn complete_item_plan(item_id: &str) -> (plan: WriteThenRead)
    ensures
        exists|now: Seq<char>| is_timestamp_text(now) && plan@ == item_completion(item_id@, now),
{
    let now = local_time_text(TIMESTAMP_FORMAT);
    item_completion_plan(item_id, now.as_str())
}

/// The statement that soft-deletes the task `item_id`.
pub fn delete_item_plan(item_id: &str) -> (statement: Statement)
    ensures
        statement@ == item_deletion(item_id@),
{
    keyed_statement(DELETE_ITEM_SQL, item_id)
}

/// The statements that replace the given fields of the task `item_id` and read it back.
pub fn update_item_plan(
    item_id: &str,
    content: Option<&str>,
    description: &Option<String>,
    priority: Option<i64>,
    due: Option<&str>,
    labels: Option<&str>,
) -> (plan: WriteThenRead)
    ensures
        plan@ == item_update(
            item_id@,
            content.deep_view(),
            description.deep_view(),
            priority,
            due.deep_view(),
            labels.deep_view(),
        ),
{
    let description = match description {
        Some(d) => Some(d.as_str()),
        None => None,
    };
    let mut params: Vec<SqlValue> = Vec::new();
    params.push(optional_text_value(content));
    params.push(optional_text_value(description));
    params.push(optional_integer_value(priority));
    params.push(optional_text_value(due));
    params.push(optional_text_value(labels));
    params.push(text_value(item_id));
    let write = Statement { sql: String::from_str(UPDATE_ITEM_SQL), params };
    let plan = WriteThenRead { write, read_back: keyed_statement(SELECT_ITEM_SQL, item_id) };
    proof {
        let expected = item_update(
            item_id@,
            content.deep_view(),
            description.deep_view(),
            priority,
            due.deep_view(),
            labels.deep_view(),
        );
        assert(plan@.write.params =~= expected.write.params);
    }
    plan
}

/// The query listing the tasks that are not deleted, narrowed by the filters that are given.
pub fn list_items_query(project_id: Option<&str>, completed: Option<bool>, priority: Option<i64>) -> (statement: Statement)
    ensures
        statement@ == item_listing(project_id.deep_view(), completed, priority),
{
    let mut sql = String::from_str(LIST_ITEMS_SQL);
    let mut params: Vec<SqlValue> = Vec::new();
    let ghost expected = item_listing(project_id.deep_view(), completed, priority);
    if let Some(pid) = project_id {
        sql.append(PROJECT_FILTER_SQL);
        params.push(text_value(pid));
    }
    if let Some(c) = completed {
        sql.append(CHECKED_FILTER_SQL);
        let flag: i64 = if c { 1 } else { 0 };
        params.push(SqlValue::Integer(flag));
    }
    if let Some(p) = priority {
        sql.append(PRIORITY_FILTER_SQL);
        params.push(SqlValue::Integer(p));
    }
    sql.append(ITEM_ORDER_SQL);
    let statement = Statement { sql, params };
    assert(statement@.sql =~= expected.sql);
    assert(statement@.params =~= expected.params);
    statement
}

/// The task insertion has ten parameters.
proof fn lemma_insert_item_parameters()
    ensures
        parameter_count(INSERT_ITEM_SQL@) == 10,
{
    reveal_strlit("INSERT INTO Items (id, content, description, due, added_at, project_id,
                                priority, labels, checked, child_order, is_deleted,
                                day_order, collapsed, pinned, item_type, updated_at,
                                section_id, parent_id)
             VALUES (?1, ?2, ?3, ?4, ?5, ?6, ?7, ?8, 0, 1000, 0,
                      0, 0, 0, 'task', ?9, '', ?10)");
    reveal_with_fuel(highest_parameter_from, 70);
    reveal_with_fuel(digit_run, 3);
    reveal_with_fuel(digits_value, 3);
    assert(highest_parameter_from(INSERT_ITEM_SQL@, 357, 8) == 10);
    assert(highest_parameter_from(INSERT_ITEM_SQL@, 302, 0) == 10);
    assert(highest_parameter_from(INSERT_ITEM_SQL@, 247, 0) == 10);
    assert(highest_parameter_from(INSERT_ITEM_SQL@, 192, 0) == 10);
    assert(highest_parameter_from(INSERT_ITEM_SQL@, 137, 0) == 10);
    assert(highest_parameter_from(INSERT_ITEM_SQL@, 82, 0) == 10);
    assert(highest_parameter_from(INSERT_ITEM_SQL@, 27, 0) == 10);
}

/// The task read-back has one parameter.
proof fn lemma_select_item_parameters()
    ensures
        parameter_count(SELECT_ITEM_SQL@) == 1,
{
    reveal_strlit("SELECT id, content, description, priority, due, labels,
                    project_id, checked, added_at
             FROM Items WHERE id = ?1");
    reveal_with_fuel(highest_parameter_from, 70);
    reveal_with_fuel(digit_run, 3);
    reveal_with_fuel(digits_value, 3);
    assert(highest_parameter_from(SELECT_ITEM_SQL@, 88, 0) == 1);
    assert(highest_parameter_from(SELECT_ITEM_SQL@, 33, 0) == 1);
}

/// The completion has two parameters.
proof fn lemma_complete_item_parameters()
    ensures
        parameter_count(COMPLETE_ITEM_SQL@) == 2,
{
    reveal_strlit("UPDATE Items SET checked = 1, completed_at = ?1 WHERE id = ?2");
    reveal_with_fuel(highest_parameter_from, 70);
    reveal_with_fuel(digit_run, 3);
    reveal_with_fuel(digits_value, 3);
    assert(highest_parameter_from(COMPLETE_ITEM_SQL@, 6, 0) == 2);
}

/// The soft-deletion has one parameter.
proof fn lemma_delete_item_parameters()
    ensures
        parameter_count(DELETE_ITEM_SQL@) == 1,
{
    reveal_strlit("UPDATE Items SET is_deleted = 1 WHERE id = ?1");
    reveal_with_fuel(highest_parameter_from, 70);
    reveal_with_fuel(digit_run, 3);
    reveal_with_fuel(digits_value, 3);
}

/// The update has six parameters.
proof fn lemma_update_item_parameters()
    ensures
        parameter_count(UPDATE_ITEM_SQL@) == 6,
{
    reveal_strlit("UPDATE Items
         SET content = COALESCE(?1, content),
             description = COALESCE(?2, description),
             priority = COALESCE(?3, priority),
             due = COALESCE(?4, due),
             labels = COALESCE(?5, labels)
         WHERE id = ?6");
    reveal_with_fuel(highest_parameter_from, 70);
    reveal_with_fuel(digit_run, 3);
    reveal_with_fuel(digits_value, 3);
    assert(highest_parameter_from(UPDATE_ITEM_SQL@, 209, 4) == 6);
    assert(highest_parameter_from(UPDATE_ITEM_SQL@, 154, 3) == 6);
    assert(highest_parameter_from(UPDATE_ITEM_SQL@, 99, 2) == 6);
    assert(highest_parameter_from(UPDATE_ITEM_SQL@, 44, 0) == 6);
}

/// The listing's base has no parameter, each filter clause one bare parameter, the ordering none;
/// none of the clauses starts with a digit.
#[verifier::spinoff_prover]
proof fn lemma_listing_fragments(highest: nat)
    ensures
        highest_parameter_from(LIST_ITEMS_SQL@, 0, highest) == highest,
        joins_cleanly(LIST_ITEMS_SQL@),
        highest_parameter_from(PROJECT_FILTER_SQL@, 0, highest) == highest + 1,
        joins_cleanly(PROJECT_FILTER_SQL@),
        highest_parameter_from(CHECKED_FILTER_SQL@, 0, highest) == highest + 1,
        joins_cleanly(CHECKED_FILTER_SQL@),
        highest_parameter_from(PRIORITY_FILTER_SQL@, 0, highest) == highest + 1,
        joins_cleanly(PRIORITY_FILTER_SQL@),
        highest_parameter_from(ITEM_ORDER_SQL@, 0, highest) == highest,
        joins_cleanly(ITEM_ORDER_SQL@),
{
    reveal_strlit("SELECT id, content, description, priority, due, labels,
                    project_id, checked, added_at
             FROM Items WHERE is_deleted = 0");
    reveal_strlit(" AND project_id = ?");
    reveal_strlit(" AND checked = ?");
    reveal_strlit(" AND priority = ?");
    reveal_strlit(" ORDER BY priority DESC, added_at ASC");
    reveal_with_fuel(highest_parameter_from, 70);
    // The text is read back to front in stretches short enough for that fuel.
    reveal_with_fuel(digit_run, 3);
    assert(highest_parameter_from(LIST_ITEMS_SQL@, 95, highest) == highest);
    assert(highest_parameter_from(LIST_ITEMS_SQL@, 40, highest) == highest);
}

/// Every statement that creates, completes, updates or soft-deletes a task, and each
/// read-back, binds exactly as many values as its text has parameters.
pub proof fn lemma_item_writes_bind_all_parameters(
    id: Seq<char>,
    now: Seq<char>,
    content: Seq<char>,
    project_id: Seq<char>,
    description: Option<Seq<char>>,
    priority: Option<i64>,
    due: Option<Seq<char>>,
    labels: Option<Seq<char>>,
    parent_id: Option<Seq<char>>,
    new_content: Option<Seq<char>>,
)
    ensures
        binds_all_parameters(
            item_insertion(id, now, content, project_id, description, priority, due, labels, parent_id).write,
        ),
        binds_all_parameters(item_by_id(id)),
        binds_all_parameters(item_completion(id, now).write),
        binds_all_parameters(item_deletion(id)),
        binds_all_parameters(item_update(id, new_content, description, priority, due, labels).write),
{
    lemma_insert_item_parameters();
    lemma_select_item_parameters();
    lemma_complete_item_parameters();
    lemma_delete_item_parameters();
    lemma_update_item_parameters();
}

proof fn lemma_optional_clause(text: Seq<char>, present: bool, highest: nat)
    requires
        joins_cleanly(text),
        highest_parameter_from(text, 0, highest) == highest + 1,
    ensures
        joins_cleanly(clause_if(present, text)),
        highest_parameter_from(clause_if(present, text), 0, highest) == highest + if present { 1nat } else { 0nat },
{
}

/// The task listing binds one value per filter that is given, exactly as many as its
/// text has parameters, whichever filters are given.
pub proof fn lemma_item_listing_binds_all_parameters(
    project_id: Option<Seq<char>>,
    completed: Option<bool>,
    priority: Option<i64>,
)
    ensures
        binds_all_parameters(item_listing(project_id, completed, priority)),
{
    let base = LIST_ITEMS_SQL@;
    let first = clause_if(project_id is Some, PROJECT_FILTER_SQL@);
    let second = clause_if(completed is Some, CHECKED_FILTER_SQL@);
    let third = clause_if(priority is Some, PRIORITY_FILTER_SQL@);
    let count_first: nat = if project_id is Some { 1 } else { 0 };
    let count_second: nat = if completed is Some { 1 } else { 0 };
    let count_third: nat = if priority is Some { 1 } else { 0 };
    lemma_listing_fragments(0);
    lemma_listing_fragments(count_first);
    lemma_listing_fragments(count_first + count_second);
    lemma_listing_fragments(count_first + count_second + count_third);
    lemma_optional_clause(PROJECT_FILTER_SQL@, project_id is Some, 0);
    lemma_optional_clause(CHECKED_FILTER_SQL@, completed is Some, count_first);
    lemma_optional_clause(PRIORITY_FILTER_SQL@, priority is Some, count_first + count_second);
    lemma_highest_concat(base, first, 0, 0);
    lemma_highest_concat(base + first, second, 0, 0);
    lemma_highest_concat(base + first + second, third, 0, 0);
    lemma_highest_concat(base + first + second + third, ITEM_ORDER_SQL@, 0, 0);
    let listing = item_listing(project_id, completed, priority);
    assert(listing.params.len() == count_first + count_second + count_third);
}

/// Each task write is read back by the id it wrote: creation, completion and update
/// all bind the task's id in the write and read that same id back.
pub proof fn lemma_item_read_back_matches_write(
    id: Seq<char>,
    now: Seq<char>,
    content: Seq<char>,
    project_id: Seq<char>,
    description: Option<Seq<char>>,
    priority: Option<i64>,
    due: Option<Seq<char>>,
    labels: Option<Seq<char>>,
    parent_id: Option<Seq<char>>,
    new_content: Option<Seq<char>>,
)
    ensures
        item_insertion(id, now, content, project_id, description, priority, due, labels, parent_id).write.params[0]
            == SqlValueView::Text(id),
        item_insertion(id, now, content, project_id, description, priority, due, labels, parent_id).read_back
            == item_by_id(id),
        item_completion(id, now).write.params[1] == SqlValueView::Text(id),
        item_completion(id, now).read_back == item_by_id(id),
        item_update(id, new_content, description, priority, due, labels).write.params[5]
            == SqlValueView::Text(id),
        item_update(id, new_content, description, priority, due, labels).read_back == item_by_id(id),
{
}

/// Creating a task binds each argument where the insert's markers put it, whatever the
/// optional arguments are: `?1` the id, `?2` the content, `?3` the description (`NULL` when
/// none), `?4` the due record (the default one when none), `?5` and `?9` the time, `?6` the
/// project, `?7` the priority (1 when none), `?8` the labels (empty when none), `?10` the
/// parent task (`NULL` when none).
pub proof fn lemma_insertion_binds_each_argument(
    id: Seq<char>,
    now: Seq<char>,
    content: Seq<char>,
    project_id: Seq<char>,
    description: Option<Seq<char>>,
    priority: Option<i64>,
    due: Option<Seq<char>>,
    labels: Option<Seq<char>>,
    parent_id: Option<Seq<char>>,
)
    ensures
        ({
            let write = item_insertion(id, now, content, project_id, description, priority, due, labels, parent_id).write;
            &&& write.sql == INSERT_ITEM_SQL@
            &&& write.params.len() == 10
            &&& write.params[0] == SqlValueView::Text(id)
            &&& write.params[1] == SqlValueView::Text(content)
            &&& (description matches Some(d) ==> write.params[2] == SqlValueView::Text(d))
            &&& (description is None ==> write.params[2] == SqlValueView::Null)
            &&& (due matches Some(d) ==> write.params[3] == SqlValueView::Text(d))
            &&& (due is None ==> write.params[3] == SqlValueView::Text(DEFAULT_DUE@))
            &&& write.params[4] == SqlValueView::Text(now)
            &&& write.params[5] == SqlValueView::Text(project_id)
            &&& (priority matches Some(p) ==> write.params[6] == SqlValueView::Integer(p))
            &&& (priority is None ==> write.params[6] == SqlValueView::Integer(1))
            &&& (labels matches Some(l) ==> write.params[7] == SqlValueView::Text(l))
            &&& (labels is None ==> write.params[7] == SqlValueView::Text(Seq::empty()))
            &&& write.params[8] == SqlValueView::Text(now)
            &&& (parent_id matches Some(p) ==> write.params[9] == SqlValueView::Text(p))
            &&& (parent_id is None ==> write.params[9] == SqlValueView::Null)
        }),
{
}

/// Completing a task binds the completion time at `?1` and the task's id at `?2`.
pub proof fn lemma_completion_binds_time_and_id(id: Seq<char>, now: Seq<char>)
    ensures
        item_completion(id, now).write.sql == COMPLETE_ITEM_SQL@,
        item_completion(id, now).write.params == seq![SqlValueView::Text(now), SqlValueView::Text(id)],
{
}

/// Updating a task binds each field at its own marker, independently of the others:
/// `?1` content, `?2` description, `?3` priority, `?4` due record, `?5` labels (each `NULL`,
/// so kept as it is, when not given), and `?6` the task's id.
pub proof fn lemma_update_binds_each_field(
    id: Seq<char>,
    content: Option<Seq<char>>,
    description: Option<Seq<char>>,
    priority: Option<i64>,
    due: Option<Seq<char>>,
    labels: Option<Seq<char>>,
)
    ensures
        ({
            let write = item_update(id, content, description, priority, due, labels).write;
            &&& write.sql == UPDATE_ITEM_SQL@
            &&& write.params.len() == 6
            &&& (content matches Some(c) ==> write.params[0] == SqlValueView::Text(c))
            &&& (content is None ==> write.params[0] == SqlValueView::Null)
            &&& (description matches Some(d) ==> write.params[1] == SqlValueView::Text(d))
            &&& (description is None ==> write.params[1] == SqlValueView::Null)
            &&& (priority matches Some(p) ==> write.params[2] == SqlValueView::Integer(p))
            &&& (priority is None ==> write.params[2] == SqlValueView::Null)
            &&& (due matches Some(d) ==> write.params[3] == SqlValueView::Text(d))
            &&& (due is None ==> write.params[3] == SqlValueView::Null)
            &&& (labels matches Some(l) ==> write.params[4] == SqlValueView::Text(l))
            &&& (labels is None ==> write.params[4] == SqlValueView::Null)
            &&& write.params[5] == SqlValueView::Text(id)
        }),
{
}

/// Soft-deleting a task binds its id at `?1` and nothing else.
pub proof fn lemma_deletion_binds_id(id: Seq<char>)
    ensures
        item_deletion(id).sql == DELETE_ITEM_SQL@,
        item_deletion(id).params == seq![SqlValueView::Text(id)],
{
}

/// The listing binds, in order, the project (when given), then 1 for completed tasks or 0
/// for pending ones (when a completion filter is given, whatever the other filters are),
/// then the priority (when given); each clause is in the text exactly when its filter is given.
pub proof fn lemma_listing_binds_each_filter(
    project_id: Option<Seq<char>>,
    completed: Option<bool>,
    priority: Option<i64>,
)
    ensures
        ({
            let listing = item_listing(project_id, completed, priority);
            let at_completion: int = if project_id is Some { 1 } else { 0 };
            let at_priority: int = at_completion + if completed is Some { 1int } else { 0int };
            &&& listing.params.len() == at_priority + if priority is Some { 1int } else { 0int }
            &&& (project_id matches Some(p) ==> listing.params[0] == SqlValueView::Text(p))
            &&& (completed == Some(true) ==> listing.params[at_completion] == SqlValueView::Integer(1))
            &&& (completed == Some(false) ==> listing.params[at_completion] == SqlValueView::Integer(0))
            &&& (priority matches Some(p) ==> listing.params[at_priority] == SqlValueView::Integer(p))
            &&& listing.sql == LIST_ITEMS_SQL@
                + (if project_id is Some { PROJECT_FILTER_SQL@ } else { Seq::empty() })
                + (if completed is Some { CHECKED_FILTER_SQL@ } else { Seq::empty() })
                + (if priority is Some { PRIORITY_FILTER_SQL@ } else { Seq::empty() })
                + ITEM_ORDER_SQL@
        }),
{
}

} // verus!
