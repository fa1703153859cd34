//! Deterministic SHA-1 digests of a SQLite database's schema and content.
//!
//! The digest summarizes the logical content and/or schema of a database so
//! that two databases can be compared without reading them byte for byte on
//! disk. Rows and schema objects are canonicalized into one byte stream —
//! type-tagged value encodings, tables in a fixed order, identifiers quoted
//! by a fixed rule — and that stream is fed to a single SHA-1 accumulator.
//! The stream format is bit-for-bit the one the `dbhash` utility of the
//! SQLite distribution hashes, so the digests are comparable with its output.

use vstd::prelude::*;

pub mod accumulator;
pub mod encode;
pub mod hashing;
pub mod quoting;
pub mod sqlite;

pub use encode::Value;

verus! {

use crate::accumulator::Accumulator;
use crate::accumulator::sha1_of;
use crate::encode::encode_values;

/// What to hash, imitating the function of the command-line arguments
/// `--schema-only` and `--without-schema` of the `dbhash` utility.
#[derive(Clone, Copy)]
pub enum Selection {
    /// Hash both schema and table content.
    SchemaAndContent,
    /// Only hash the schema, equivalent to `--schema-only`.
    SchemaOnly,
    /// Only hash the table content, equivalent to `--without-schema`.
    ContentOnly,
}

/// Whether the selection asks for table content to be hashed.
pub open spec fn content_selected(selection: Selection) -> bool {
    selection is SchemaAndContent || selection is ContentOnly
}

/// Whether the selection asks for the schema to be hashed.
pub open spec fn schema_selected(selection: Selection) -> bool {
    selection is SchemaAndContent || selection is SchemaOnly
}

/// Computes the SHA-1 digest of the database behind the open connection
/// `conn`.
///
/// If `table_pattern` is `None` the whole database is hashed; otherwise only
/// the tables whose name is LIKE the pattern (case-insensitive, `_` and `%`
/// wildcards), equivalent to the `--like PATTERN` argument of the `dbhash`
/// utility. `selection` picks content, schema, or both; when both are
/// selected, content is always hashed before schema.
///
/// One fresh accumulator absorbs the whole canonical stream — the content
/// phase's encodings followed by the schema phase's encodings, each phase
/// empty when not selected — and is finalized exactly once. Any engine
/// error aborts the computation with no partial result.
pub fn dbhash(
    conn: &rusqlite::Connection,
    table_pattern: Option<&str>,
    selection: Selection,
) -> (r: Result<[u8; 20], rusqlite::Error>)
    ensures
        r matches Ok(digest) ==> exists|content: Seq<Value>, schema: Seq<Value>|
            {
                &&& digest@ == sha1_of(encode_values(content) + encode_values(schema))
                &&& !content_selected(selection) ==> content == Seq::<Value>::empty()
                &&& !schema_selected(selection) ==> schema == Seq::<Value>::empty()
            },
{
    let mut acc = Accumulator::new();
    if matches!(selection, Selection::SchemaAndContent | Selection::ContentOnly) {
        match hashing::hash_content(&mut acc, conn, table_pattern) {
            Ok(()) => {},
            Err(e) => {
                return Err(e);
            },
        }
    }
    let ghost content_stream = acc@;
    if matches!(selection, Selection::SchemaAndContent | Selection::SchemaOnly) {
        match hashing::hash_schema(&mut acc, conn, table_pattern) {
            Ok(()) => {},
            Err(e) => {
                return Err(e);
            },
        }
    }
    let ghost full_stream = acc@;
    let digest = acc.finalize();
    proof {
        let content = if content_selected(selection) {
            choose|vs: Seq<Value>| content_stream == Seq::<u8>::empty() + encode_values(vs)
        } else {
            Seq::<Value>::empty()
        };
        assert(content_stream =~= encode_values(content));
        let schema = if schema_selected(selection) {
            choose|vs: Seq<Value>| full_stream == content_stream + encode_values(vs)
        } else {
            Seq::<Value>::empty()
        };
        assert(full_stream =~= encode_values(content) + encode_values(schema));
        assert(digest@ == sha1_of(encode_values(content) + encode_values(schema)));
    }
    Ok(digest)
}

} // verus!
