use mongoui::db::{
    create_saved_db, ensure_tables, get_db, get_db_query, get_dbs, get_dbs_query, read_saved_db,
    save_on_connect, SavedDb, SqlValue, Statement, BAD_ROW, NO_ROWS,
};
use mongoui::error::Error;

fn text(s: &str) -> String {
    s.to_string()
}

fn row(id: i64, name: &str, uri: &str, created_at: i64) -> Vec<SqlValue> {
    vec![
        SqlValue::Integer(id),
        SqlValue::Text(text(name)),
        SqlValue::Text(text(uri)),
        SqlValue::Integer(created_at),
    ]
}

fn saved(id: i32, name: &str, uri: &str, created_at: i64) -> SavedDb {
    SavedDb { id, name: text(name), uri: text(uri), created_at }
}

#[test]
fn ensure_tables_creates_the_table_where_missing() {
    let statement = ensure_tables();
    assert!(statement.sql.starts_with("CREATE TABLE IF NOT EXISTS saved_dbs ("));
    assert!(statement.sql.contains("id         INTEGER PRIMARY KEY"));
    assert!(statement.sql.contains("name       TEXT NOT NULL UNIQUE"));
    assert!(statement.sql.contains("uri        TEXT NOT NULL"));
    assert!(statement.sql.contains("created_at INTEGER NOT NULL"));
    assert_eq!(statement.params, vec![]);
}

#[test]
fn create_saved_db_binds_name_and_uri() {
    assert_eq!(
        create_saved_db(text("local"), text("mongodb://localhost")),
        Statement {
            sql: text(
                "INSERT INTO saved_dbs (name, uri, created_at) VALUES (?1, ?2, strftime('%s','now'))"
            ),
            params: vec![SqlValue::Text(text("local")), SqlValue::Text(text("mongodb://localhost"))],
        }
    );
}

#[test]
fn connecting_saves_only_under_a_name_that_is_not_empty() {
    assert_eq!(save_on_connect(None, text("u")), None);
    assert_eq!(save_on_connect(Some(text("")), text("u")), None);
    assert_eq!(save_on_connect(Some(text("n")), text("u")), Some(create_saved_db(text("n"), text("u"))));
    assert_eq!(
        save_on_connect(Some(text(" ")), text("u")),
        Some(create_saved_db(text(" "), text("u")))
    );
}

#[test]
fn queries() {
    assert_eq!(
        get_dbs_query(),
        Statement { sql: text("SELECT id, name, uri, created_at FROM saved_dbs"), params: vec![] }
    );
    assert_eq!(
        get_db_query(-4),
        Statement {
            sql: text("SELECT id, name, uri, created_at FROM saved_dbs where id = ?1"),
            params: vec![SqlValue::Integer(-4)],
        }
    );
}

#[test]
fn rows_are_read_in_order() {
    let rows = vec![row(1, "a", "mongodb://a", 10), row(2, "b", "mongodb://b", 20)];
    assert_eq!(
        get_dbs(&rows).unwrap(),
        vec![saved(1, "a", "mongodb://a", 10), saved(2, "b", "mongodb://b", 20)]
    );
    assert_eq!(get_dbs(&vec![]).unwrap(), vec![]);
}

#[test]
fn a_row_of_the_wrong_shape_is_a_persistence_error() {
    let expected = Error::PersistenceError(text(BAD_ROW));
    let short = vec![row(1, "a", "u", 1), vec![SqlValue::Integer(2)]];
    assert_eq!(get_dbs(&short).unwrap_err(), expected);
    let mistyped = vec![vec![
        SqlValue::Text(text("1")),
        SqlValue::Text(text("a")),
        SqlValue::Text(text("u")),
        SqlValue::Integer(1),
    ]];
    assert_eq!(get_dbs(&mistyped).unwrap_err(), expected);
    assert_eq!(get_db(&mistyped).unwrap_err(), expected);
}

#[test]
fn an_id_beyond_32_bits_is_refused() {
    assert_eq!(read_saved_db(&row(i32::MAX as i64, "a", "u", 1)), Some(saved(i32::MAX, "a", "u", 1)));
    assert_eq!(read_saved_db(&row(i32::MIN as i64, "a", "u", 1)), Some(saved(i32::MIN, "a", "u", 1)));
    assert_eq!(read_saved_db(&row(i32::MAX as i64 + 1, "a", "u", 1)), None);
    assert_eq!(read_saved_db(&row(i32::MIN as i64 - 1, "a", "u", 1)), None);
}

#[test]
fn columns_beyond_the_fourth_are_ignored() {
    let mut wide = row(1, "a", "u", i64::MAX);
    wide.push(SqlValue::Null);
    wide.push(SqlValue::Blob(vec![1]));
    wide.push(SqlValue::Real(1.5f64.to_bits()));
    assert_eq!(read_saved_db(&wide), Some(saved(1, "a", "u", i64::MAX)));
}

#[test]
fn fetch_reads_the_first_row() {
    assert_eq!(get_db(&vec![row(7, "x", "mongodb://x", 3)]).unwrap(), saved(7, "x", "mongodb://x", 3));
    assert_eq!(
        get_db(&vec![row(7, "x", "mongodb://x", 3), row(8, "y", "u", 4)]).unwrap(),
        saved(7, "x", "mongodb://x", 3)
    );
}

#[test]
fn fetch_without_rows_is_a_persistence_error() {
    assert_eq!(get_db(&vec![]).unwrap_err(), Error::PersistenceError(text(NO_ROWS)));
}
