use mcp_planify::projects::{
    create_project_plan, delete_project_plan, list_projects_query, project_insertion_plan, update_project_plan,
    Project, DELETE_PROJECT_ITEMS_SQL, DELETE_PROJECT_SQL, LIST_PROJECTS_SQL,
};
use mcp_planify::sql::{SqlValue, Statement, WriteThenRead};
use rusqlite::types::Value;
use rusqlite::Connection;

fn to_value(value: &SqlValue) -> Value {
    match value {
        SqlValue::Null => Value::Null,
        SqlValue::Integer(i) => Value::Integer(*i),
        SqlValue::Text(t) => Value::Text(t.clone()),
    }
}

fn values(statement: &Statement) -> Vec<Value> {
    statement.params.iter().map(to_value).collect()
}

fn open() -> Connection {
    let conn = Connection::open_in_memory().unwrap();
    conn.execute_batch(
        "CREATE TABLE Projects (
            id TEXT PRIMARY KEY, name TEXT, color TEXT, backend_type TEXT, inbox_project INTEGER,
            team_inbox INTEGER, child_order INTEGER, is_deleted INTEGER, is_archived INTEGER,
            is_favorite INTEGER, shared INTEGER, view_style TEXT, sort_order TEXT, parent_id TEXT,
            collapsed INTEGER, icon_style TEXT, emoji TEXT, show_completed INTEGER, description TEXT,
            due_date TEXT, inbox_section_hidded INTEGER, sync_id TEXT, source_id TEXT,
            calendar_url TEXT, sorted_by TEXT
        );
        CREATE TABLE Items (id TEXT PRIMARY KEY, project_id TEXT, is_deleted INTEGER DEFAULT 0);",
    )
    .unwrap();
    conn
}

fn run(conn: &Connection, plan: &WriteThenRead) -> Project {
    conn.execute(&plan.write.sql, rusqlite::params_from_iter(values(&plan.write))).unwrap();
    conn.query_row(&plan.read_back.sql, rusqlite::params_from_iter(values(&plan.read_back)), |row| {
        Ok(Project { id: row.get(0)?, name: row.get(1)?, description: row.get(2)? })
    })
    .unwrap()
}

fn list(conn: &Connection) -> Vec<Project> {
    let query = list_projects_query();
    let mut stmt = conn.prepare(&query.sql).unwrap();
    let rows = stmt
        .query_map(rusqlite::params_from_iter(values(&query)), |row| {
            Ok(Project { id: row.get(0)?, name: row.get(1)?, description: row.get(2)? })
        })
        .unwrap();
    rows.collect::<rusqlite::Result<Vec<_>>>().unwrap()
}

fn text(value: &SqlValue) -> &str {
    match value {
        SqlValue::Text(t) => t.as_str(),
        other => panic!("expected text, got {:?}", other),
    }
}

#[test]
fn listing_has_no_parameters() {
    let query = list_projects_query();
    assert_eq!(query.sql, LIST_PROJECTS_SQL);
    assert!(query.params.is_empty());
}

#[test]
fn created_project_without_description_reads_back_empty() {
    let conn = open();
    let project = run(&conn, &create_project_plan("Casa", &None));
    assert_eq!(project.name, "Casa");
    assert_eq!(project.description.unwrap(), "");
    assert_eq!(project.id.len(), 36);
    assert_eq!(list(&conn).len(), 1);
}

#[test]
fn insertion_binds_id_name_description() {
    let plan = project_insertion_plan("p-1", "Trabajo", &Some("oficina".to_string()));
    assert_eq!(plan.write.params.len(), 3);
    assert_eq!(text(&plan.write.params[0]), "p-1");
    assert_eq!(text(&plan.write.params[1]), "Trabajo");
    assert_eq!(text(&plan.write.params[2]), "oficina");
    assert_eq!(text(&plan.read_back.params[0]), "p-1");
}

#[test]
fn update_keeps_what_is_not_given() {
    let conn = open();
    let project = run(&conn, &project_insertion_plan("p-2", "Viejo", &Some("desc".to_string())));
    let plan = update_project_plan(&project.id, Some("Nuevo"), None);
    assert!(matches!(plan.write.params[1], SqlValue::Null));
    let updated = run(&conn, &plan);
    assert_eq!(updated.name, "Nuevo");
    assert_eq!(updated.description.unwrap(), "desc");
}

#[test]
fn deletion_removes_tasks_then_project() {
    let conn = open();
    run(&conn, &project_insertion_plan("p-3", "Borrar", &None));
    conn.execute("INSERT INTO Items (id, project_id) VALUES ('t-1', 'p-3')", []).unwrap();
    let statements = delete_project_plan("p-3");
    assert_eq!(statements.len(), 2);
    assert_eq!(statements[0].sql, DELETE_PROJECT_ITEMS_SQL);
    assert_eq!(statements[1].sql, DELETE_PROJECT_SQL);
    for statement in &statements {
        assert_eq!(text(&statement.params[0]), "p-3");
        conn.execute(&statement.sql, rusqlite::params_from_iter(values(statement))).unwrap();
    }
    assert!(list(&conn).is_empty());
    let deleted: i64 = conn.query_row("SELECT is_deleted FROM Items WHERE id = 't-1'", [], |r| r.get(0)).unwrap();
    assert_eq!(deleted, 1);
}
