use vstd::prelude::*;
use crate::clock::{naive_utc_millis, parse_naive_utc_millis};
use crate::row::{cell_at, is_text_or_null, text_value, typed_text, CellValue, CellView, Row};
use crate::text::append_str;

verus! {

// ---------------------------------------------------------------------------
// Sync watermarks: per table, when it was last pulled and last pushed.
// A watermark is a UTC date-time, held as its UNIX milliseconds.
// ---------------------------------------------------------------------------

/// The column of a watermark: pulls and pushes are tracked apart.
pub open spec fn watermark_column(is_pull: bool) -> Seq<char> {
    if is_pull {
        "last_pulled_at"@
    } else {
        "last_pushed_at"@
    }
}

fn column_of(is_pull: bool) -> (c: &'static str)
    ensures
        c@ == watermark_column(is_pull),
{
    if is_pull {
        "last_pulled_at"
    } else {
        "last_pushed_at"
    }
}

/// The query that reads a table's watermark (bound to the table's name).
pub open spec fn watermark_query(is_pull: bool) -> Seq<char> {
    "SELECT "@ + watermark_column(is_pull) + " FROM sync_state WHERE table_name = ?1"@
}

pub fn watermark_select_sql(is_pull: bool) -> (r: String)
    ensures
        r@ == watermark_query(is_pull),
{
    let mut s = String::new();
    append_str(&mut s, "SELECT ");
    append_str(&mut s, column_of(is_pull));
    append_str(&mut s, " FROM sync_state WHERE table_name = ?1");
    s
}

/// The statement that records a table's watermark (bound to the table's
/// name and the time).
pub open spec fn watermark_upsert(is_pull: bool) -> Seq<char> {
    let c = watermark_column(is_pull);
    "INSERT INTO sync_state (table_name, "@ + c
        + ") VALUES (?1, ?2) ON CONFLICT(table_name) DO UPDATE SET "@ + c + " = excluded."@ + c
}

pub fn set_watermark(table_name: &str, timestamp: &str, is_pull: bool) -> (r: (String, Row))
    ensures
        r.0@ == watermark_upsert(is_pull),
        r.1@ == seq![CellView::Text(table_name@), CellView::Text(timestamp@)],
{
    let c = column_of(is_pull);
    let mut s = String::new();
    append_str(&mut s, "INSERT INTO sync_state (table_name, ");
    append_str(&mut s, c);
    append_str(&mut s, ") VALUES (?1, ?2) ON CONFLICT(table_name) DO UPDATE SET ");
    append_str(&mut s, c);
    append_str(&mut s, " = excluded.");
    append_str(&mut s, c);
    let mut cells: Vec<CellValue> = Vec::new();
    cells.push(text_value(table_name));
    cells.push(text_value(timestamp));
    let p = Row { cells };
    assert(p@ =~= seq![CellView::Text(table_name@), CellView::Text(timestamp@)]);
    (s, p)
}

/// A stored watermark text read as a date-time: with milliseconds, else
/// without.
pub open spec fn watermark_of_text(s: Seq<char>) -> Option<i64> {
    match naive_utc_millis(s, "%Y-%m-%d %H:%M:%S%.3f"@) {
        Some(m) => Some(m),
        None => naive_utc_millis(s, "%Y-%m-%d %H:%M:%S"@),
    }
}

/// The watermark in the first row of the query, none when there is no row,
/// it is NULL, or it does not read.
pub fn get_watermark(row: Option<&Row>) -> (r: Option<i64>)
    requires
        row matches Some(x) ==> is_text_or_null(cell_at(x@, 0)),
    ensures
        r == match row {
            Some(x) => match typed_text(cell_at(x@, 0)) {
                Some(s) => watermark_of_text(s),
                None => None,
            },
            None => None,
        },
{
    match row {
        Some(x) => match x.get_text(0) {
            Some(s) => match parse_naive_utc_millis(s.as_str(), "%Y-%m-%d %H:%M:%S%.3f") {
                Some(m) => Some(m),
                None => parse_naive_utc_millis(s.as_str(), "%Y-%m-%d %H:%M:%S"),
            },
            None => None,
        },
        None => None,
    }
}

/// The watermarks of one direction, by table, after the upsert that binds
/// `params` (`table_name, timestamp`): ON CONFLICT(table_name) replaces it.
pub open spec fn after_watermark_upsert(
    marks: Map<Seq<char>, Seq<char>>,
    params: Seq<CellView>,
) -> Map<Seq<char>, Seq<char>> {
    match (params[0], params[1]) {
        (CellView::Text(k), CellView::Text(v)) => marks.insert(k, v),
        _ => marks,
    }
}

/// A set watermark reads back: after `set_watermark(table, timestamp, ..)`
/// the row the query gives for that table is the timestamp's text, and
/// `get_watermark` reads it as that text's date-time; setting another
/// table's watermark changes nothing for this one.
pub proof fn law_watermark_reads_back(
    marks: Map<Seq<char>, Seq<char>>,
    table: Seq<char>,
    timestamp: Seq<char>,
    other: Seq<char>,
    other_timestamp: Seq<char>,
)
    requires
        other != table,
    ensures
        ({
            let m = after_watermark_upsert(
                after_watermark_upsert(marks, seq![CellView::Text(table), CellView::Text(timestamp)]),
                seq![CellView::Text(other), CellView::Text(other_timestamp)],
            );
            let row = seq![CellView::Text(m[table])];
            &&& m.dom().contains(table)
            &&& m[table] == timestamp
            &&& typed_text(cell_at(row, 0)) == Some(timestamp)
            &&& is_text_or_null(cell_at(row, 0))
        }),
{
    let m = after_watermark_upsert(
        after_watermark_upsert(marks, seq![CellView::Text(table), CellView::Text(timestamp)]),
        seq![CellView::Text(other), CellView::Text(other_timestamp)],
    );
    assert(m[table] == timestamp);
    assert(cell_at(seq![CellView::Text(timestamp)], 0) == Some(CellView::Text(timestamp)));
}

} // verus!
