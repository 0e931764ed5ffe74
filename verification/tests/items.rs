use mcp_planify::items::{
    complete_item_plan, create_item_plan, delete_item_plan, item_completion_plan, item_insertion_plan,
    list_items_query, update_item_plan, Item, DEFAULT_DUE, INSERT_ITEM_SQL, LIST_ITEMS_SQL,
    SELECT_ITEM_SQL,
};
use mcp_planify::sql::{SqlValue, Statement, WriteThenRead};
use rusqlite::types::Value;
use rusqlite::Connection;

fn to_value(value: &SqlValue) -> Value {
    match value {
        SqlValue::Null => Value::Null,
        SqlValue::Integer(i) => Value::Integer(*i),
        SqlValue::Text(t) => Value::Text(t.clone()),
    }
}

fn values(statement: &Statement) -> Vec<Value> {
    statement.params.iter().map(to_value).collect()
}

fn open(path: &str) -> Connection {
    let conn = Connection::open(path).unwrap();
    conn.execute_batch(
        "CREATE TABLE IF NOT EXISTS Items (
            id TEXT PRIMARY KEY, content TEXT NOT NULL,
            description TEXT, due TEXT, added_at TEXT,
            completed_at TEXT, updated_at TEXT,
            section_id TEXT, project_id TEXT, parent_id TEXT,
            priority INTEGER DEFAULT 1, child_order INTEGER DEFAULT 0,
            checked INTEGER DEFAULT 0, is_deleted INTEGER DEFAULT 0,
            day_order INTEGER DEFAULT 0, collapsed INTEGER DEFAULT 0,
            pinned INTEGER DEFAULT 0, labels TEXT, item_type TEXT
        );",
    )
    .unwrap();
    conn
}

fn row_item(row: &rusqlite::Row<'_>) -> rusqlite::Result<Item> {
    Ok(Item {
        id: row.get(0)?,
        content: row.get(1)?,
        description: row.get(2)?,
        priority: row.get(3)?,
        due: row.get(4)?,
        labels: row.get(5)?,
        project_id: row.get(6)?,
        checked: row.get(7)?,
        added_at: row.get(8)?,
    })
}

fn run(conn: &Connection, plan: &WriteThenRead) -> Item {
    conn.execute(&plan.write.sql, rusqlite::params_from_iter(values(&plan.write))).unwrap();
    conn.query_row(&plan.read_back.sql, rusqlite::params_from_iter(values(&plan.read_back)), row_item)
        .unwrap()
}

fn create_item(
    conn: &Connection,
    content: &str,
    project_id: &str,
    description: &Option<String>,
    priority: Option<i64>,
    due: Option<&str>,
    labels: Option<&str>,
) -> Item {
    run(conn, &create_item_plan(content, project_id, description, priority, due, labels, None))
}

fn complete_item(conn: &Connection, item_id: &str) -> Item {
    run(conn, &complete_item_plan(item_id))
}

fn delete_item(conn: &Connection, item_id: &str) {
    let statement = delete_item_plan(item_id);
    conn.execute(&statement.sql, rusqlite::params_from_iter(values(&statement))).unwrap();
}

fn list_items(conn: &Connection, project_id: Option<&str>, completed: Option<bool>, priority: Option<i64>) -> Vec<Item> {
    let query = list_items_query(project_id, completed, priority);
    let mut stmt = conn.prepare(&query.sql).unwrap();
    let rows = stmt.query_map(rusqlite::params_from_iter(values(&query)), row_item).unwrap();
    rows.collect::<rusqlite::Result<Vec<_>>>().unwrap()
}

#[test]
fn create_item_with_only_required_fields_test() {
    let conn = open(":memory:");
    let item = create_item(&conn, "content", "proj-1", &None, None, None, None);
    assert_eq!(item.content, "content");
    assert_eq!(item.project_id, "proj-1");
}

#[test]
fn create_item_with_all_fields_test() {
    let conn = open(":memory:");
    let item = create_item(
        &conn,
        "Tarea importante",
        "proj-42",
        &Some("Descripción detallada".to_string()),
        Some(4),
        Some(r#"{"date":"2026-06-15"}"#),
        Some("label-1,label-2"),
    );
    assert_eq!(item.content, "Tarea importante");
    assert_eq!(item.description.unwrap(), "Descripción detallada");
    assert_eq!(item.priority, 4);
    assert_eq!(item.due.unwrap(), r#"{"date":"2026-06-15"}"#);
    assert_eq!(item.labels.unwrap(), "label-1,label-2");
}

#[test]
fn verify_new_item_persistence() {
    let conn = open(":memory:");
    let created = create_item(&conn, "Persistente", "proj-1", &None, None, None, None);
    let read: rusqlite::Result<String> =
        conn.query_row("SELECT content FROM Items WHERE id = ?1", [&created.id], |row| row.get::<_, String>(0));
    assert_eq!(read.unwrap(), created.content);
}

#[test]
fn check_item_test() {
    let conn = open(":memory:");
    let item = create_item(&conn, "Para completar", "proj-1", &None, None, None, None);
    assert!(!item.checked);
    let completado = complete_item(&conn, &item.id);
    assert!(completado.checked);
}

#[test]
fn complete_item_verifica_completed_at() {
    let conn = open(":memory:");
    let item = create_item(&conn, "Con timestamp", "proj-1", &None, None, None, None);
    let completado = complete_item(&conn, &item.id);
    assert!(completado.checked);
    let completed_at: String = conn
        .query_row("SELECT completed_at FROM Items WHERE id = ?1", [&completado.id], |row| {
            Ok(row.get::<_, String>(0)?)
        })
        .unwrap_or_default();
    assert!(!completed_at.is_empty());
}

#[test]
fn list_items_without_filter_returns_all_not_eliminated() {
    let conn = open(":memory:");
    create_item(&conn, "Tarea A", "proj-1", &None, None, None, None);
    create_item(&conn, "Tarea B", "proj-1", &None, None, None, None);
    let items = list_items(&conn, None, None, None);
    assert_eq!(items.len(), 2);
}

#[test]
fn list_items_filter_by_project_id() {
    let conn = open(":memory:");
    create_item(&conn, "Proyecto 1", "proj-A", &None, None, None, None);
    create_item(&conn, "Proyecto 2", "proj-B", &None, None, None, None);
    let items = list_items(&conn, Some("proj-A"), None, None);
    assert_eq!(items.len(), 1);
    assert_eq!(items[0].content, "Proyecto 1");
}

#[test]
fn list_items_filter_by_completes() {
    let conn = open(":memory:");
    create_item(&conn, "Pendiente", "proj-1", &None, None, None, None);
    let item = create_item(&conn, "Completada", "proj-1", &None, None, None, None);
    complete_item(&conn, &item.id);
    let pendientes = list_items(&conn, None, Some(false), None);
    assert_eq!(pendientes.len(), 1);
    assert_eq!(pendientes[0].content, "Pendiente");
}

#[test]
fn delete_item_test() {
    let conn = open(":memory:");
    let item = create_item(&conn, "Para borrar", "proj-1", &None, None, None, None);
    delete_item(&conn, &item.id);
    let items = list_items(&conn, None, None, None);
    assert!(items.is_empty());
}

fn text(value: &SqlValue) -> &str {
    match value {
        SqlValue::Text(t) => t.as_str(),
        other => panic!("expected text, got {:?}", other),
    }
}

#[test]
fn insertion_fills_defaults() {
    let plan = item_insertion_plan("id-1", "2024-01-02T03:04:05+0000", "c", "p", &None, None, None, None, None);
    assert_eq!(plan.write.sql, INSERT_ITEM_SQL);
    assert_eq!(plan.write.params.len(), 10);
    assert_eq!(text(&plan.write.params[0]), "id-1");
    assert_eq!(text(&plan.write.params[1]), "c");
    assert!(matches!(plan.write.params[2], SqlValue::Null));
    assert_eq!(text(&plan.write.params[3]), DEFAULT_DUE);
    assert_eq!(text(&plan.write.params[4]), "2024-01-02T03:04:05+0000");
    assert_eq!(text(&plan.write.params[5]), "p");
    assert!(matches!(plan.write.params[6], SqlValue::Integer(1)));
    assert_eq!(text(&plan.write.params[7]), "");
    assert_eq!(text(&plan.write.params[8]), "2024-01-02T03:04:05+0000");
    assert!(matches!(plan.write.params[9], SqlValue::Null));
    assert_eq!(plan.read_back.sql, SELECT_ITEM_SQL);
    assert_eq!(plan.read_back.params.len(), 1);
    assert_eq!(text(&plan.read_back.params[0]), "id-1");
}

#[test]
fn insertion_keeps_given_fields() {
    let plan = item_insertion_plan(
        "id-2",
        "now",
        "c",
        "p",
        &Some("d".to_string()),
        Some(3),
        Some("{}"),
        Some("a,b"),
        Some("parent-1"),
    );
    assert_eq!(text(&plan.write.params[2]), "d");
    assert_eq!(text(&plan.write.params[3]), "{}");
    assert!(matches!(plan.write.params[6], SqlValue::Integer(3)));
    assert_eq!(text(&plan.write.params[7]), "a,b");
    assert_eq!(text(&plan.write.params[9]), "parent-1");
}

#[test]
fn created_ids_are_random_v4_uuids() {
    let first = create_item_plan("c", "p", &None, None, None, None, None);
    let second = create_item_plan("c", "p", &None, None, None, None, None);
    let id = text(&first.write.params[0]).to_string();
    assert_eq!(id.len(), 36);
    for (i, c) in id.chars().enumerate() {
        if [8, 13, 18, 23].contains(&i) {
            assert_eq!(c, '-');
        } else {
            assert!(c.is_ascii_digit() || ('a'..='f').contains(&c));
        }
    }
    assert_eq!(id.chars().nth(14), Some('4'));
    assert!(matches!(id.chars().nth(19), Some('8' | '9' | 'a' | 'b')));
    assert_ne!(id, text(&second.write.params[0]));
    assert!(!text(&first.write.params[4]).is_empty());
    assert_eq!(text(&first.read_back.params[0]), id);
}

#[test]
fn completion_binds_time_then_id() {
    let plan = item_completion_plan("item-9", "2030-01-01T00:00:00+0100");
    assert_eq!(plan.write.sql, "UPDATE Items SET checked = 1, completed_at = ?1 WHERE id = ?2");
    assert_eq!(text(&plan.write.params[0]), "2030-01-01T00:00:00+0100");
    assert_eq!(text(&plan.write.params[1]), "item-9");
    assert_eq!(text(&plan.read_back.params[0]), "item-9");
    let now = complete_item_plan("item-9");
    let stamp = text(&now.write.params[0]);
    assert!(!stamp.is_empty());
    assert!(!stamp.contains('%'));
    assert_eq!(stamp.chars().filter(|c| *c == 'T').count(), 1);
    let n = stamp.len();
    assert!(n >= 24);
    let tail: Vec<char> = stamp[n - 20..].chars().collect();
    for (i, c) in tail.iter().enumerate() {
        match i {
            0 | 3 => assert_eq!(*c, '-'),
            6 => assert_eq!(*c, 'T'),
            9 | 12 => assert_eq!(*c, ':'),
            15 => assert!(*c == '+' || *c == '-'),
            _ => assert!(c.is_ascii_digit()),
        }
    }
    assert!(stamp[..n - 20].chars().skip(1).all(|c| c.is_ascii_digit()));
}

#[test]
fn deletion_is_soft() {
    let statement = delete_item_plan("gone");
    assert_eq!(statement.sql, "UPDATE Items SET is_deleted = 1 WHERE id = ?1");
    assert_eq!(statement.params.len(), 1);
    assert_eq!(text(&statement.params[0]), "gone");
}

#[test]
fn listing_without_filters() {
    let query = list_items_query(None, None, None);
    assert_eq!(query.sql, format!("{} ORDER BY priority DESC, added_at ASC", LIST_ITEMS_SQL));
    assert!(query.params.is_empty());
}

#[test]
fn listing_with_every_filter() {
    let query = list_items_query(Some("proj"), Some(true), Some(4));
    assert_eq!(
        query.sql,
        format!(
            "{} AND project_id = ? AND checked = ? AND priority = ? ORDER BY priority DESC, added_at ASC",
            LIST_ITEMS_SQL
        )
    );
    assert_eq!(query.params.len(), 3);
    assert_eq!(text(&query.params[0]), "proj");
    assert!(matches!(query.params[1], SqlValue::Integer(1)));
    assert!(matches!(query.params[2], SqlValue::Integer(4)));
}

#[test]
fn listing_pending_only() {
    let query = list_items_query(None, Some(false), None);
    assert_eq!(query.sql, format!("{} AND checked = ? ORDER BY priority DESC, added_at ASC", LIST_ITEMS_SQL));
    assert_eq!(query.params.len(), 1);
    assert!(matches!(query.params[0], SqlValue::Integer(0)));
}

#[test]
fn listing_orders_by_priority_then_age() {
    let conn = open(":memory:");
    let low = item_insertion_plan("a", "2024-01-01T00:00:00+0000", "low", "p", &None, Some(1), None, None, None);
    let high_new = item_insertion_plan("b", "2024-01-03T00:00:00+0000", "high new", "p", &None, Some(4), None, None, None);
    let high_old = item_insertion_plan("c", "2024-01-02T00:00:00+0000", "high old", "p", &None, Some(4), None, None, None);
    run(&conn, &low);
    run(&conn, &high_new);
    run(&conn, &high_old);
    let items = list_items(&conn, None, None, None);
    let order: Vec<&str> = items.iter().map(|i| i.content.as_str()).collect();
    assert_eq!(order, vec!["high old", "high new", "low"]);
    let fours = list_items(&conn, Some("p"), Some(false), Some(4));
    assert_eq!(fours.len(), 2);
}

#[test]
fn update_replaces_only_given_fields() {
    let conn = open(":memory:");
    let item = create_item(&conn, "old", "p", &Some("keep".to_string()), Some(2), None, Some("x"));
    let plan = update_item_plan(&item.id, Some("new"), &None, None, None, Some("y"));
    assert!(matches!(plan.write.params[1], SqlValue::Null));
    assert_eq!(text(&plan.write.params[5]), item.id);
    let updated = run(&conn, &plan);
    assert_eq!(updated.content, "new");
    assert_eq!(updated.description.unwrap(), "keep");
    assert_eq!(updated.priority, 2);
    assert_eq!(updated.labels.unwrap(), "y");
}

#[test]
fn parent_task_is_stored() {
    let conn = open(":memory:");
    let parent = create_item(&conn, "Padre", "proj-1", &None, None, None, None);
    let plan = create_item_plan("Hija", "proj-1", &None, None, None, None, Some(parent.id.as_str()));
    assert_eq!(text(&plan.write.params[9]), parent.id);
    let child = run(&conn, &plan);
    let stored: Option<String> = conn
        .query_row("SELECT parent_id FROM Items WHERE id = ?1", [&child.id], |row| row.get(0))
        .unwrap();
    assert_eq!(stored, Some(parent.id.clone()));
    let top: Option<String> =
        conn.query_row("SELECT parent_id FROM Items WHERE id = ?1", [&parent.id], |row| row.get(0)).unwrap();
    assert_eq!(top, None);
}
