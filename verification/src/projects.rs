//! Projects: their record type and the statements that list, create, update and
//! soft-delete them.
use vstd::prelude::*;
use crate::sql::{
    Statement, SqlValue, SqlValueView, StatementView, WriteThenRead, WriteThenReadView,
    binds_all_parameters, digit_run, digits_value, highest_parameter_from, keyed_statement,
    optional_text, optional_text_value, parameter_count, plain_statement, text_value,
};
use crate::stamps::{is_v4_uuid_text, random_uuid_text};

verus! {

/// A project as it is read back from the database.
#[derive(Debug)]
pub struct Project {
    pub id: String,
    pub name: String,
    pub description: Option<String>,
}

/// Lists the projects that are not deleted; the first three columns are those of [`Project`].
pub const LIST_PROJECTS_SQL: &'static str = "SELECT id, name, description, color FROM Projects WHERE is_deleted = 0";

/// Inserts a local project `?1` named `?2`; a `NULL` description `?3` is stored as empty text.
pub const INSERT_PROJECT_SQL: &'static str = "
        INSERT INTO Projects (
            id, name, color, backend_type, inbox_project, team_inbox,
            child_order, is_deleted, is_archived, is_favorite, shared,
            view_style, sort_order, parent_id, collapsed, icon_style, emoji,
            show_completed, description, due_date, inbox_section_hidded,
            sync_id, source_id, calendar_url, sorted_by
        ) VALUES (
            ?1, ?2, 'blue', 'none', 0, 0,
            1000, 0, 0, 0, 0,
            'list', 'asc', '', 0, 'progress', '',
            1, COALESCE(?3, ''), '', 0,
            '', 'local', '', 'manual'
        )
        ";

/// Reads one project by id, in the column order of [`Project`].
pub const SELECT_PROJECT_SQL: &'static str = "SELECT id, name, description FROM Projects WHERE id = ?1";

/// Replaces the name and description that are given (not `NULL`) and keeps the others.
pub const UPDATE_PROJECT_SQL: &'static str = "UPDATE Projects
         SET name = COALESCE(?1, name),
             description = COALESCE(?2, description)
         WHERE id = ?3";

/// Soft-deletes the tasks of a project.
pub const DELETE_PROJECT_ITEMS_SQL: &'static str = "UPDATE Items SET is_deleted = 1 WHERE project_id = ?1";

/// Soft-deletes a project.
pub const DELETE_PROJECT_SQL: &'static str = "UPDATE Projects SET is_deleted = 1 WHERE id = ?1";

/// The statement that reads the project `id` back.
pub open spec fn project_by_id(id: Seq<char>) -> StatementView {
    StatementView { sql: SELECT_PROJECT_SQL@, params: seq![SqlValueView::Text(id)] }
}

/// The listing of the projects that are not deleted.
pub open spec fn project_listing() -> StatementView {
    StatementView { sql: LIST_PROJECTS_SQL@, params: Seq::empty() }
}

/// Creating the project `id` named `name`.
pub open spec fn project_insertion(id: Seq<char>, name: Seq<char>, description: Option<Seq<char>>) -> WriteThenReadView {
    WriteThenReadView {
        write: StatementView {
            sql: INSERT_PROJECT_SQL@,
            params: seq![SqlValueView::Text(id), SqlValueView::Text(name), optional_text(description)],
        },
        read_back: project_by_id(id),
    }
}

/// Updating the given name and description of the project `id`.
pub open spec fn project_update(id: Seq<char>, name: Option<Seq<char>>, description: Option<Seq<char>>) -> WriteThenReadView {
    WriteThenReadView {
        write: StatementView {
            sql: UPDATE_PROJECT_SQL@,
            params: seq![optional_text(name), optional_text(description), SqlValueView::Text(id)],
        },
        read_back: project_by_id(id),
    }
}

/// Deleting the project `id`: first its tasks, then the project itself.
pub open spec fn project_deletion(id: Seq<char>) -> Seq<StatementView> {
    seq![
        StatementView { sql: DELETE_PROJECT_ITEMS_SQL@, params: seq![SqlValueView::Text(id)] },
        StatementView { sql: DELETE_PROJECT_SQL@, params: seq![SqlValueView::Text(id)] },
    ]
}

/// The query listing the projects that are not deleted.
pub fn list_projects_query() -> (statement: Statement)
    ensures
        statement@ == project_listing(),
{
    plain_statement(LIST_PROJECTS_SQL)
}

/// The statements that create the project `id` and read it back.
pub fn project_insertion_plan(id: &str, name: &str, description: &Option<String>) -> (plan: WriteThenRead)
    ensures
        plan@ == project_insertion(id@, name@, description.deep_view()),
{
    let description_text = match description {
        Some(d) => Some(d.as_str()),
        None => None,
    };
    let mut params: Vec<SqlValue> = Vec::new();
    params.push(text_value(id));
    params.push(text_value(name));
    params.push(optional_text_value(description_text));
    let write = Statement { sql: String::from_str(INSERT_PROJECT_SQL), params };
    let plan = WriteThenRead { write, read_back: keyed_statement(SELECT_PROJECT_SQL, id) };
    assert(plan@.write.params =~= project_insertion(id@, name@, description.deep_view()).write.params);
    plan
}

/// The statements that create a project with a fresh random id and read it back.
pub fn create_project_plan(name: &str, description: &Option<String>) -> (plan: WriteThenRead)
    ensures
        exists|id: Seq<char>| is_v4_uuid_text(id) && plan@ == project_insertion(id, name@, description.deep_view()),
{
    let id = random_uuid_text();
    project_insertion_plan(id.as_str(), name, description)
}

/// The statements that replace the given name and description of the project
/// `project_id` and read it back.
pub fn update_project_plan(project_id: &str, name: Option<&str>, description: Option<&str>) -> (plan: WriteThenRead)
    ensures
        plan@ == project_update(project_id@, name.deep_view(), description.deep_view()),
{
    let mut params: Vec<SqlValue> = Vec::new();
    params.push(optional_text_value(name));
    params.push(optional_text_value(description));
    params.push(text_value(project_id));
    let write = Statement { sql: String::from_str(UPDATE_PROJECT_SQL), params };
    let plan = WriteThenRead { write, read_back: keyed_statement(SELECT_PROJECT_SQL, project_id) };
    assert(plan@.write.params =~= project_update(project_id@, name.deep_view(), description.deep_view()).write.params);
    plan
}

/// The statements that soft-delete the project `project_id` and its tasks, in the order to run them.
pub fn delete_project_plan(project_id: &str) -> (statements: Vec<Statement>)
    ensures
        statements@.map_values(|s: Statement| s@) == project_deletion(project_id@),
{
    let mut statements: Vec<Statement> = Vec::new();
    statements.push(keyed_statement(DELETE_PROJECT_ITEMS_SQL, project_id));
    statements.push(keyed_statement(DELETE_PROJECT_SQL, project_id));
    assert(statements@.map_values(|s: Statement| s@) =~= project_deletion(project_id@));
    statements
}

/// The project listing has no parameter.
proof fn lemma_list_projects_parameters()
    ensures
        parameter_count(LIST_PROJECTS_SQL@) == 0,
{
    reveal_strlit("SELECT id, name, description, color FROM Projects WHERE is_deleted = 0");
    reveal_with_fuel(highest_parameter_from, 70);
    reveal_with_fuel(digit_run, 3);
    reveal_with_fuel(digits_value, 3);
    assert(highest_parameter_from(LIST_PROJECTS_SQL@, 15, 0) == 0);
}

/// The project insertion has three parameters.
proof fn lemma_insert_project_parameters()
    ensures
        parameter_count(INSERT_PROJECT_SQL@) == 3,
{
    reveal_strlit("
        INSERT INTO Projects (
            id, name, color, backend_type, inbox_project, team_inbox,
            child_order, is_deleted, is_archived, is_favorite, shared,
            view_style, sort_order, parent_id, collapsed, icon_style, emoji,
            show_completed, description, due_date, inbox_section_hidded,
            sync_id, source_id, calendar_url, sorted_by
        ) VALUES (
            ?1, ?2, 'blue', 'none', 0, 0,
            1000, 0, 0, 0, 0,
            'list', 'asc', '', 0, 'progress', '',
            1, COALESCE(?3, ''), '', 0,
            '', 'local', '', 'manual'
        )
        ");
    reveal_with_fuel(highest_parameter_from, 70);
    reveal_with_fuel(digit_run, 3);
    reveal_with_fuel(digits_value, 3);
    assert(highest_parameter_from(INSERT_PROJECT_SQL@, 561, 3) == 3);
    assert(highest_parameter_from(INSERT_PROJECT_SQL@, 506, 2) == 3);
    assert(highest_parameter_from(INSERT_PROJECT_SQL@, 451, 2) == 3);
    assert(highest_parameter_from(INSERT_PROJECT_SQL@, 396, 0) == 3);
    assert(highest_parameter_from(INSERT_PROJECT_SQL@, 341, 0) == 3);
    assert(highest_parameter_from(INSERT_PROJECT_SQL@, 286, 0) == 3);
    assert(highest_parameter_from(INSERT_PROJECT_SQL@, 231, 0) == 3);
    assert(highest_parameter_from(INSERT_PROJECT_SQL@, 176, 0) == 3);
    assert(highest_parameter_from(INSERT_PROJECT_SQL@, 121, 0) == 3);
    assert(highest_parameter_from(INSERT_PROJECT_SQL@, 66, 0) == 3);
    assert(highest_parameter_from(INSERT_PROJECT_SQL@, 11, 0) == 3);
}

/// The project read-back has one parameter.
proof fn lemma_select_project_parameters()
    ensures
        parameter_count(SELECT_PROJECT_SQL@) == 1,
{
    reveal_strlit("SELECT id, name, description FROM Projects WHERE id = ?1");
    reveal_with_fuel(highest_parameter_from, 70);
    reveal_with_fuel(digit_run, 3);
    reveal_with_fuel(digits_value, 3);
    assert(highest_parameter_from(SELECT_PROJECT_SQL@, 1, 0) == 1);
}

/// The project update has three parameters.
proof fn lemma_update_project_parameters()
    ensures
        parameter_count(UPDATE_PROJECT_SQL@) == 3,
{
    reveal_strlit("UPDATE Projects
         SET name = COALESCE(?1, name),
             description = COALESCE(?2, description)
         WHERE id = ?3");
    reveal_with_fuel(highest_parameter_from, 70);
    reveal_with_fuel(digit_run, 3);
    reveal_with_fuel(digits_value, 3);
    assert(highest_parameter_from(UPDATE_PROJECT_SQL@, 76, 1) == 3);
    assert(highest_parameter_from(UPDATE_PROJECT_SQL@, 21, 0) == 3);
}

/// The soft-deletion of a project's tasks has one parameter.
proof fn lemma_delete_project_items_parameters()
    ensures
        parameter_count(DELETE_PROJECT_ITEMS_SQL@) == 1,
{
    reveal_strlit("UPDATE Items SET is_deleted = 1 WHERE project_id = ?1");
    reveal_with_fuel(highest_parameter_from, 70);
    reveal_with_fuel(digit_run, 3);
    reveal_with_fuel(digits_value, 3);
}

/// The soft-deletion of a project has one parameter.
proof fn lemma_delete_project_parameters()
    ensures
        parameter_count(DELETE_PROJECT_SQL@) == 1,
{
    reveal_strlit("UPDATE Projects SET is_deleted = 1 WHERE id = ?1");
    reveal_with_fuel(highest_parameter_from, 70);
    reveal_with_fuel(digit_run, 3);
    reveal_with_fuel(digits_value, 3);
}

/// Every statement built for projects binds exactly as many values as its text has parameters.
pub proof fn lemma_project_statements_bind_all_parameters(
    id: Seq<char>,
    name: Seq<char>,
    description: Option<Seq<char>>,
    new_name: Option<Seq<char>>,
)
    ensures
        binds_all_parameters(project_listing()),
        binds_all_parameters(project_insertion(id, name, description).write),
        binds_all_parameters(project_by_id(id)),
        binds_all_parameters(project_update(id, new_name, description).write),
        forall|k: int| 0 <= k < 2 ==> binds_all_parameters(#[trigger] project_deletion(id)[k]),
{
    lemma_list_projects_parameters();
    lemma_insert_project_parameters();
    lemma_select_project_parameters();
    lemma_update_project_parameters();
    lemma_delete_project_items_parameters();
    lemma_delete_project_parameters();
}

/// Each project write is read back by the id it wrote.
pub proof fn lemma_project_read_back_matches_write(
    id: Seq<char>,
    name: Seq<char>,
    description: Option<Seq<char>>,
    new_name: Option<Seq<char>>,
)
    ensures
        project_insertion(id, name, description).write.params[0] == SqlValueView::Text(id),
        project_insertion(id, name, description).read_back == project_by_id(id),
        project_update(id, new_name, description).write.params[2] == SqlValueView::Text(id),
        project_update(id, new_name, description).read_back == project_by_id(id),
{
}

/// Deleting a project soft-deletes its tasks before the project itself, both by the project's id.
pub proof fn lemma_project_deletion_covers_tasks(id: Seq<char>)
    ensures
        project_deletion(id).len() == 2,
        project_deletion(id)[0].sql == DELETE_PROJECT_ITEMS_SQL@,
        project_deletion(id)[1].sql == DELETE_PROJECT_SQL@,
        project_deletion(id)[0].params == seq![SqlValueView::Text(id)],
        project_deletion(id)[1].params == seq![SqlValueView::Text(id)],
{
}

/// Creating a project binds the id at `?1`, the name at `?2` and the description at `?3`
/// (`NULL` when none, which the insert stores as empty text).
pub proof fn lemma_project_insertion_binds_each_argument(id: Seq<char>, name: Seq<char>, description: Option<Seq<char>>)
    ensures
        ({
            let write = project_insertion(id, name, description).write;
            &&& write.sql == INSERT_PROJECT_SQL@
            &&& write.params.len() == 3
            &&& write.params[0] == SqlValueView::Text(id)
            &&& write.params[1] == SqlValueView::Text(name)
            &&& (description matches Some(d) ==> write.params[2] == SqlValueView::Text(d))
            &&& (description is None ==> write.params[2] == SqlValueView::Null)
        }),
{
}

/// Updating a project binds the new name at `?1` and the new description at `?2`, each
/// independently of the other (`NULL`, so kept as it is, when not given), and the id at `?3`.
pub proof fn lemma_project_update_binds_each_field(
    id: Seq<char>,
    name: Option<Seq<char>>,
    description: Option<Seq<char>>,
)
    ensures
        ({
            let write = project_update(id, name, description).write;
            &&& write.sql == UPDATE_PROJECT_SQL@
            &&& write.params.len() == 3
            &&& (name matches Some(n) ==> write.params[0] == SqlValueView::Text(n))
            &&& (name is None ==> write.params[0] == SqlValueView::Null)
            &&& (description matches Some(d) ==> write.params[1] == SqlValueView::Text(d))
            &&& (description is None ==> write.params[1] == SqlValueView::Null)
            &&& write.params[2] == SqlValueView::Text(id)
        }),
{
}

} // verus!
