//! Identifier quoting and the text of the per-table content scan.
//!
//! A table name is wrapped in double quotes with every literal double-quote
//! character doubled — standard SQL identifier quoting — so that arbitrarily
//! named tables (names containing quotes, periods, non-ASCII characters) are
//! scanned, and therefore hashed, correctly.

use vstd::prelude::*;

verus! {

/// `s` with every occurrence of the character `from` replaced by `to`.
pub open spec fn replace_chars(s: Seq<char>, from: char, to: Seq<char>) -> Seq<char>
    decreases s.len(),
{
    if s.len() == 0 {
        Seq::empty()
    } else {
        (if s[0] == from {
            to
        } else {
            seq![s[0]]
        }) + replace_chars(s.drop_first(), from, to)
    }
}

/// A name as a quoted SQL identifier: wrapped in double quotes, with every
/// literal double-quote character inside it doubled.
pub open spec fn quote_ident(name: Seq<char>) -> Seq<char> {
    seq!['"'] + replace_chars(name, '"', seq!['"', '"']) + seq!['"']
}

/// The text of the full-table scan for one table: every column of every row,
/// in the engine's natural enumeration order, with no explicit sort.
pub open spec fn content_scan_sql(name: Seq<char>) -> Seq<char> {
    ("SELECT * FROM ")@ + quote_ident(name)
}

/// One step of the doubling rule: replacing a character by two of itself
/// keeps the first character of a non-empty sequence.
proof fn lemma_doubled_head(s: Seq<char>, q: char)
    requires
        s.len() > 0,
    ensures
        replace_chars(s, q, seq![q, q]).len() > 0,
        replace_chars(s, q, seq![q, q])[0] == s[0],
{
}

/// Doubling a character is injective: no two sequences double to the same
/// sequence.
proof fn lemma_doubled_injective(a: Seq<char>, b: Seq<char>, q: char)
    requires
        replace_chars(a, q, seq![q, q]) == replace_chars(b, q, seq![q, q]),
    ensures
        a == b,
    decreases a.len(),
{
    let da = replace_chars(a, q, seq![q, q]);
    let db = replace_chars(b, q, seq![q, q]);
    if a.len() == 0 {
        assert(da.len() == 0);
        if b.len() > 0 {
            lemma_doubled_head(b, q);
        }
        assert(a =~= b);
    } else if b.len() == 0 {
        lemma_doubled_head(a, q);
    } else {
        lemma_doubled_head(a, q);
        lemma_doubled_head(b, q);
        assert(a[0] == b[0]);
        let a2 = a.drop_first();
        let b2 = b.drop_first();
        let da2 = replace_chars(a2, q, seq![q, q]);
        let db2 = replace_chars(b2, q, seq![q, q]);
        if a[0] == q {
            assert(da =~= seq![q, q] + da2);
            assert(db =~= seq![q, q] + db2);
            assert(da2 =~= da.subrange(2, da.len() as int));
            assert(db2 =~= db.subrange(2, db.len() as int));
            lemma_doubled_injective(a2, b2, q);
        } else {
            assert(da =~= seq![a[0]] + da2);
            assert(db =~= seq![b[0]] + db2);
            assert(da2 =~= da.subrange(1, da.len() as int));
            assert(db2 =~= db.subrange(1, db.len() as int));
            lemma_doubled_injective(a2, b2, q);
        }
        assert(a =~= seq![a[0]] + a2);
        assert(b =~= seq![b[0]] + b2);
    }
}

/// Quoting never conflates table names: two names quote to the same
/// identifier only if they are the same name. With this, a digest filtered
/// to one table can never silently scan another, however the names abuse
/// quotes, periods or non-ASCII characters.
pub proof fn lemma_quote_ident_injective(a: Seq<char>, b: Seq<char>)
    requires
        quote_ident(a) == quote_ident(b),
    ensures
        a == b,
{
    let da = replace_chars(a, '"', seq!['"', '"']);
    let db = replace_chars(b, '"', seq!['"', '"']);
    let qa = quote_ident(a);
    let qb = quote_ident(b);
    assert(qa.len() == da.len() + 2);
    assert(qb.len() == db.len() + 2);
    assert(da =~= qa.subrange(1, qa.len() - 1));
    assert(db =~= qb.subrange(1, qb.len() - 1));
    lemma_doubled_injective(a, b, '"');
}

/// Two tables get the same content-scan statement only if they are the same
/// table.
pub proof fn lemma_content_scan_sql_injective(a: Seq<char>, b: Seq<char>)
    requires
        content_scan_sql(a) == content_scan_sql(b),
    ensures
        a == b,
{
    let p = ("SELECT * FROM ")@;
    let sa = content_scan_sql(a);
    let sb = content_scan_sql(b);
    assert(quote_ident(a) =~= sa.subrange(p.len() as int, sa.len() as int));
    assert(quote_ident(b) =~= sb.subrange(p.len() as int, sb.len() as int));
    lemma_quote_ident_injective(a, b);
}

/// Relies on `str::replace`: every occurrence of the pattern character is
/// replaced by the given string, left to right.
#[verifier::external_body]
fn str_replace_char(s: &str, from: char, to: &str) -> (r: String)
    ensures
        r@ == replace_chars(s@, from, to@),
{
    s.replace(from, to)
}

/// The name as a quoted SQL identifier, per `quote_ident`.
pub fn quoted_table_name(name: &str) -> (r: String)
    ensures
        r@ == quote_ident(name@),
{
    let mut out = String::from_str("\"");
    let doubled = str_replace_char(name, '"', "\"\"");
    out.append(doubled.as_str());
    out.append("\"");
    proof {
        reveal_strlit("\"");
        reveal_strlit("\"\"");
        assert(("\"")@ =~= seq!['"']);
        assert(("\"\"")@ =~= seq!['"', '"']);
        assert(out@ =~= quote_ident(name@));
    }
    out
}

/// The full-table scan statement for the named table, per `content_scan_sql`.
pub fn content_scan_query(name: &str) -> (r: String)
    ensures
        r@ == content_scan_sql(name@),
{
    let mut out = String::from_str("SELECT * FROM ");
    let quoted = quoted_table_name(name);
    out.append(quoted.as_str());
    proof {
        assert(out@ =~= content_scan_sql(name@));
    }
    out
}

} // verus!
