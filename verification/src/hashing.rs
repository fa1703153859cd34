//! The row streamer and the two hashers that feed it.
//!
//! A result set is streamed row by row into the accumulator: each row is
//! fetched, encoded and discarded before the next is fetched. The content
//! hasher scans every matching table in a fixed order; the schema hasher
//! issues one query over the schema catalog. What the engine returns is
//! outside the model, so each function promises that the accumulator has
//! absorbed exactly the encodings of some sequence of values — and the
//! encoding of every single value is pinned down by `encode_value`.

use vstd::prelude::*;
use crate::accumulator::Accumulator;
use crate::encode::Value;
use crate::encode::encode_value;
use crate::encode::encode_value_bytes;
use crate::encode::encode_values;
use crate::encode::lemma_encode_values_concat;
use crate::encode::lemma_encode_values_push;
use crate::quoting::content_scan_query;
use crate::sqlite::conn_prepare;
use crate::sqlite::row_column_count;
use crate::sqlite::row_get_string;
use crate::sqlite::row_get_value;
use crate::sqlite::rows_fuel;
use crate::sqlite::rows_next;
use crate::sqlite::stmt_query;

verus! {

/// The stream `post` extends `pre` by the encodings of some sequence of
/// values, in order — exactly the shape of what one scan contributes.
pub open spec fn extends_by_values(pre: Seq<u8>, post: Seq<u8>) -> bool {
    exists|vs: Seq<Value>| post == pre + encode_values(vs)
}

/// A stream extended by the encodings of `vs` extends the original.
pub proof fn lemma_extends_by(pre: Seq<u8>, vs: Seq<Value>)
    ensures
        extends_by_values(pre, pre + encode_values(vs)),
{
    assert(pre + encode_values(vs) == pre + encode_values(vs));
}

/// An unchanged stream extends itself: by no values at all.
pub proof fn lemma_extends_refl(s: Seq<u8>)
    ensures
        extends_by_values(s, s),
{
    assert(s =~= s + encode_values(Seq::<Value>::empty()));
    lemma_extends_by(s, Seq::<Value>::empty());
}

/// Extension by values composes.
pub proof fn lemma_extends_trans(a: Seq<u8>, b: Seq<u8>, c: Seq<u8>)
    requires
        extends_by_values(a, b),
        extends_by_values(b, c),
    ensures
        extends_by_values(a, c),
{
    let vs1 = choose|vs: Seq<Value>| b == a + encode_values(vs);
    let vs2 = choose|vs: Seq<Value>| c == b + encode_values(vs);
    lemma_encode_values_concat(vs1, vs2);
    assert(c =~= a + encode_values(vs1 + vs2));
    lemma_extends_by(a, vs1 + vs2);
}

/// The value encoder's exec face: feeds the encoding of one value — tag
/// byte, then payload — to the accumulator.
pub(crate) fn hash_value(acc: &mut Accumulator, v: &Value)
    ensures
        final(acc)@ == old(acc)@ + encode_value(*v),
{
    let bytes = encode_value_bytes(v);
    acc.update(&bytes);
}

/// The row streamer: for each row in cursor order, encodes each column
/// value left to right into the accumulator. The column count is discovered
/// at the first row and reused for the whole result set — the engine binds
/// column metadata lazily, and the count seen at the first row is
/// authoritative for the query. Any engine error aborts the computation at
/// once; there is no partial recovery, and whatever the cursor yielded, the
/// accumulator has absorbed exactly the encodings of the values streamed.
fn hash_query(acc: &mut Accumulator, rows: &mut rusqlite::Rows<'_>) -> (res: Result<
    (),
    rusqlite::Error,
>)
    ensures
        extends_by_values(old(acc)@, final(acc)@),
{
    let ghost mut vs: Seq<Value> = Seq::<Value>::empty();
    let mut column_count: Option<usize> = None;
    proof {
        assert(acc@ =~= old(acc)@ + encode_values(vs));
    }
    loop
        invariant
            acc@ == old(acc)@ + encode_values(vs),
        ensures
            extends_by_values(old(acc)@, acc@),
        decreases rows_fuel(*rows),
    {
        let stepped = rows_next(rows);
        let row = match stepped {
            Ok(Some(row)) => row,
            Ok(None) => {
                proof {
                    lemma_extends_by(old(acc)@, vs);
                }
                break ;
            },
            Err(e) => {
                proof {
                    lemma_extends_by(old(acc)@, vs);
                }
                return Err(e);
            },
        };
        let n: usize = match column_count {
            Some(c) => c,
            None => {
                let c = row_column_count(row);
                column_count = Some(c);
                c
            },
        };
        let mut i: usize = 0;
        while i < n
            invariant
                acc@ == old(acc)@ + encode_values(vs),
            decreases n - i,
        {
            let v = match row_get_value(row, i) {
                Ok(v) => v,
                Err(e) => {
                    proof {
                        lemma_extends_by(old(acc)@, vs);
                    }
                    return Err(e);
                },
            };
            hash_value(acc, &v);
            proof {
                lemma_encode_values_push(vs, v);
                vs = vs.push(v);
                assert(acc@ =~= old(acc)@ + encode_values(vs));
            }
            i += 1;
        }
    }
    Ok(())
}

/// The content hasher: discovers the table names matching the filter —
/// ordinary tables only, no virtual tables, no names with the engine's
/// reserved internal prefix — ascending by name under the case-insensitive
/// collation, and streams a full scan of each table in that order. Each
/// scan's statement quotes the table name per `content_scan_sql`, so
/// arbitrarily named tables scan correctly. Two tables whose names differ
/// only in case collide under the collation; how their tie resolves is left
/// to the engine, and such a database is an unsupported configuration.
pub(crate) fn hash_content(
    acc: &mut Accumulator,
    conn: &rusqlite::Connection,
    table_pattern: Option<&str>,
) -> (res: Result<(), rusqlite::Error>)
    ensures
        extends_by_values(old(acc)@, final(acc)@),
{
    let names_sql: &str = match table_pattern {
        Some(_) => "SELECT name FROM sqlite_schema
                  WHERE type = 'table'
                    AND sql NOT LIKE 'CREATE VIRTUAL%%'
                    AND name NOT LIKE 'sqlite_%%'
                    AND name LIKE ?1
                  ORDER BY name COLLATE nocase",
        None => "SELECT name FROM sqlite_schema
                  WHERE type = 'table'
                    AND sql NOT LIKE 'CREATE VIRTUAL%%'
                    AND name NOT LIKE 'sqlite_%%'
                  ORDER BY name COLLATE nocase",
    };
    let mut names_stmt = match conn_prepare(conn, names_sql) {
        Ok(s) => s,
        Err(e) => {
            proof {
                lemma_extends_refl(old(acc)@);
            }
            return Err(e);
        },
    };
    let mut names_rows = match stmt_query(&mut names_stmt, table_pattern) {
        Ok(r) => r,
        Err(e) => {
            proof {
                lemma_extends_refl(old(acc)@);
            }
            return Err(e);
        },
    };
    proof {
        lemma_extends_refl(old(acc)@);
    }
    loop
        invariant
            extends_by_values(old(acc)@, acc@),
        ensures
            extends_by_values(old(acc)@, acc@),
        decreases rows_fuel(names_rows),
    {
        let stepped = rows_next(&mut names_rows);
        let row = match stepped {
            Ok(Some(row)) => row,
            Ok(None) => {
                break ;
            },
            Err(e) => {
                return Err(e);
            },
        };
        let name = match row_get_string(row, 0) {
            Ok(n) => n,
            Err(e) => {
                return Err(e);
            },
        };
        let scan_sql = content_scan_query(name.as_str());
        let mut scan_stmt = match conn_prepare(conn, scan_sql.as_str()) {
            Ok(s) => s,
            Err(e) => {
                return Err(e);
            },
        };
        let mut scan_rows = match stmt_query(&mut scan_stmt, None) {
            Ok(r) => r,
            Err(e) => {
                return Err(e);
            },
        };
        let ghost mid = acc@;
        match hash_query(acc, &mut scan_rows) {
            Ok(()) => {
                proof {
                    lemma_extends_trans(old(acc)@, mid, acc@);
                }
            },
            Err(e) => {
                proof {
                    lemma_extends_trans(old(acc)@, mid, acc@);
                }
                return Err(e);
            },
        }
    }
    Ok(())
}

/// The schema hasher: one query over the schema catalog selecting (object
/// type, object name, owning table name, defining statement) for every
/// schema object — tables, indexes, triggers, views — filtered by owning
/// table name if a filter is given, ordered ascending by object name under
/// the case-insensitive collation, streamed through the row streamer.
pub(crate) fn hash_schema(
    acc: &mut Accumulator,
    conn: &rusqlite::Connection,
    table_pattern: Option<&str>,
) -> (res: Result<(), rusqlite::Error>)
    ensures
        extends_by_values(old(acc)@, final(acc)@),
{
    let schema_sql: &str = match table_pattern {
        Some(_) => "SELECT type, name, tbl_name, sql FROM sqlite_schema
                  WHERE tbl_name LIKE ?1
                  ORDER BY name COLLATE nocase",
        None => "SELECT type, name, tbl_name, sql FROM sqlite_schema
                  ORDER BY name COLLATE nocase",
    };
    let mut schema_stmt = match conn_prepare(conn, schema_sql) {
        Ok(s) => s,
        Err(e) => {
            proof {
                lemma_extends_refl(old(acc)@);
            }
            return Err(e);
        },
    };
    let mut schema_rows = match stmt_query(&mut schema_stmt, table_pattern) {
        Ok(r) => r,
        Err(e) => {
            proof {
                lemma_extends_refl(old(acc)@);
            }
            return Err(e);
        },
    };
    hash_query(acc, &mut schema_rows)
}

} // verus!
