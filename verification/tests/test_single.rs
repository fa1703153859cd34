//! Single-table scenarios: ordinary names, names needing quoting, indexes.
//!
//! Expected digests are the output of the reference `dbhash` tool of the
//! SQLite distribution for the same database, filter and selection.

use rusqlite::Connection;
use sqlite_dbhash::{dbhash, Selection};

fn hex(digest: [u8; 20]) -> String {
    let mut s = String::new();
    for b in digest {
        s.push_str(&format!("{:02x}", b));
    }
    s
}

fn compare(conn: &Connection, pattern: Option<&str>, selection: Selection, expected: &str) {
    assert_eq!(hex(dbhash(conn, pattern, selection).unwrap()), expected);
}

fn full_compare(conn: &Connection, schema_only: &str, content_only: &str, both: &str) {
    compare(conn, None, Selection::SchemaOnly, schema_only);
    compare(conn, None, Selection::ContentOnly, content_only);
    compare(conn, None, Selection::SchemaAndContent, both);
}

#[test]
pub fn test_single_table_normal() {
    let conn = Connection::open_in_memory().unwrap();
    conn.execute_batch(
        "
                CREATE TABLE t
                (
                    intval INT,
                    textval TEXT,
                    realval REAL,
                    blobval BLOB,
                    numericval NUMERIC
                );
                ",
    )
    .unwrap();
    full_compare(
        &conn,
        "39cc9720f485c28bf4113edc5872f086ff348b2a",
        "da39a3ee5e6b4b0d3255bfef95601890afd80709",
        "39cc9720f485c28bf4113edc5872f086ff348b2a",
    );
    conn.execute_batch(
        "
                INSERT INTO t
                VALUES
                    (0, 'a', 0.0, x'00', 0.0);
                ",
    )
    .unwrap();
    full_compare(
        &conn,
        "39cc9720f485c28bf4113edc5872f086ff348b2a",
        "f9bafc4e46b4cf09acd4493a55fdb0129f413648",
        "ec02370e1b09682153575385217916362cac6925",
    );
    conn.execute_batch(
        "
                INSERT INTO t
                VALUES
                    (1, 'bbb', 3.14, x'0a0b0c0d', -2.72),
                    (42, 'áÁñçéá', 1e999, x'', -1e999);
                ",
    )
    .unwrap();
    full_compare(
        &conn,
        "39cc9720f485c28bf4113edc5872f086ff348b2a",
        "d71a427af5db5fef0fd70a3fc8d57fc7785763cf",
        "52dc9aa2ef6d8e55742cb2e320ae45cba3fda345",
    );
    conn.execute_batch(
        "
                INSERT INTO t
                VALUES
                    (NULL, NULL, NULL, NULL, NULL),
                    (-100, 'NaN', 'NaN', x'', 'NaN');
                ",
    )
    .unwrap();
    full_compare(
        &conn,
        "39cc9720f485c28bf4113edc5872f086ff348b2a",
        "bb44c54cb20674502989fccc5339c0f8cc255baf",
        "b908b3bc6f2609d8e4125231043c8dd1363a15f3",
    );
    compare(
        &conn,
        Some("t"),
        Selection::SchemaAndContent,
        "b908b3bc6f2609d8e4125231043c8dd1363a15f3",
    );
    compare(
        &conn,
        Some("t%"),
        Selection::SchemaAndContent,
        "b908b3bc6f2609d8e4125231043c8dd1363a15f3",
    );
    compare(
        &conn,
        Some("%t"),
        Selection::SchemaAndContent,
        "b908b3bc6f2609d8e4125231043c8dd1363a15f3",
    );
}

#[test]
pub fn test_single_table_weird_name() {
    let conn = Connection::open_in_memory().unwrap();
    conn.execute_batch(
        r#"
                CREATE TABLE "weird.table+name""!áÁñçéá"
                (
                    intval INT,
                    textval TEXT,
                    realval REAL,
                    blobval BLOB,
                    numericval NUMERIC
                );
                "#,
    )
    .unwrap();
    full_compare(
        &conn,
        "77afd8c261588b368688f8fef9ce5e9d3de59beb",
        "da39a3ee5e6b4b0d3255bfef95601890afd80709",
        "77afd8c261588b368688f8fef9ce5e9d3de59beb",
    );
    conn.execute_batch(
        r#"
                INSERT INTO "weird.table+name""!áÁñçéá"
                VALUES
                    (0, 'a', 0.0, x'00', 0.0);
                "#,
    )
    .unwrap();
    full_compare(
        &conn,
        "77afd8c261588b368688f8fef9ce5e9d3de59beb",
        "f9bafc4e46b4cf09acd4493a55fdb0129f413648",
        "2b123ca3e97b46639604380044946ddf2b90ee6c",
    );
    compare(
        &conn,
        Some("weird%"),
        Selection::SchemaAndContent,
        "2b123ca3e97b46639604380044946ddf2b90ee6c",
    );
    compare(
        &conn,
        Some("%table%"),
        Selection::SchemaAndContent,
        "2b123ca3e97b46639604380044946ddf2b90ee6c",
    );
    compare(
        &conn,
        Some(r#"%"%"#),
        Selection::SchemaAndContent,
        "2b123ca3e97b46639604380044946ddf2b90ee6c",
    );
}

#[test]
pub fn test_single_table_with_indices() {
    let conn = Connection::open_in_memory().unwrap();
    conn.execute_batch(
        "
                CREATE TABLE t
                (
                    intval INT NOT NULL,
                    textval TEXT NOT NULL
                );
                ",
    )
    .unwrap();
    full_compare(
        &conn,
        "3a31ee2eee9f9a633c91342c8c17cae6f22e08de",
        "da39a3ee5e6b4b0d3255bfef95601890afd80709",
        "3a31ee2eee9f9a633c91342c8c17cae6f22e08de",
    );
    conn.execute_batch("CREATE UNIQUE INDEX idx_t ON t (intval);").unwrap();
    full_compare(
        &conn,
        "e0423f3e382de7bd8a5cdc34c8eef894cc45c6e0",
        "da39a3ee5e6b4b0d3255bfef95601890afd80709",
        "e0423f3e382de7bd8a5cdc34c8eef894cc45c6e0",
    );
    conn.execute_batch(
        "
                INSERT INTO t
                VALUES
                    (0, 'a');
                ",
    )
    .unwrap();
    full_compare(
        &conn,
        "e0423f3e382de7bd8a5cdc34c8eef894cc45c6e0",
        "2ae37fcc58b6651f8b6a1afd53fadbfce4bdcbf4",
        "dfe37f365bac78928e25f3390a816d64576a5847",
    );
    conn.execute_batch(
        "
                INSERT INTO t
                VALUES
                    (1, 'bbb'),
                    (42, 'áÁñçéá');
                ",
    )
    .unwrap();
    full_compare(
        &conn,
        "e0423f3e382de7bd8a5cdc34c8eef894cc45c6e0",
        "2450c67d3a615af74c023448520e5ada66f6ae92",
        "29685634c78ffa2a4df0ab0a7375eddef3859b0d",
    );
    conn.execute_batch("CREATE INDEX text_t ON t (textval, intval);").unwrap();
    full_compare(
        &conn,
        "52d8bfd6bc221c6d72ab1e0d0bc1503e411f34be",
        "2450c67d3a615af74c023448520e5ada66f6ae92",
        "0c844578353176fc3cf175e0370244edaf74a214",
    );
}
