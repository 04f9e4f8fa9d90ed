use vstd::prelude::*;
use crate::clock::{
    is_storage_stamp, millis_in_range, millis_to_storage_text, naive_utc_millis, now_iso, now_ms,
    parse_naive_utc_millis,
    parse_rfc3339_millis, rfc3339_millis, utc_storage_text,
};
use crate::numbers::{parse_i64, parse_int};
use crate::queries::{SELECT_REVIEWS, UPSERT_REVIEW};
use crate::row::{
    comma_list, cell_at, is_integer_or_null, is_text_or_null, opt_int_view, text_value, typed_int, typed_text,
    CellValue, CellView, Row,
};

verus! {

// ---------------------------------------------------------------------------
// Daily reviews
// ---------------------------------------------------------------------------

/// One day's review, timestamps as UNIX milliseconds.
#[derive(Debug, Clone, PartialEq)]
pub struct DailyReviewRow {
    pub id: String,
    pub date: String,
    pub content: String,
    pub rating: Option<i32>,
    pub created_at: Option<i64>,
    pub updated_at: Option<i64>,
}

pub struct ReviewView {
    pub id: Seq<char>,
    pub date: Seq<char>,
    pub content: Seq<char>,
    pub rating: Option<i32>,
    pub created_at: Option<i64>,
    pub updated_at: Option<i64>,
}

impl View for DailyReviewRow {
    type V = ReviewView;

    open spec fn view(&self) -> ReviewView {
        ReviewView {
            id: self.id@,
            date: self.date@,
            content: self.content@,
            rating: self.rating,
            created_at: self.created_at,
            updated_at: self.updated_at,
        }
    }
}

/// The UNIX milliseconds a stored timestamp text stands for: a decimal
/// integer as it is, else an RFC 3339 timestamp, else a UTC date-time
/// `%Y-%m-%d %H:%M:%S` with or without fractional seconds.
pub open spec fn parse_ms(s: Seq<char>) -> Option<i64> {
    match parse_int(s, i64::MIN as int, i64::MAX as int) {
        Some(v) => Some(v as i64),
        None => match rfc3339_millis(s) {
            Some(m) => Some(m),
            None => match naive_utc_millis(s, "%Y-%m-%d %H:%M:%S%.f"@) {
                Some(m) => Some(m),
                None => naive_utc_millis(s, "%Y-%m-%d %H:%M:%S"@),
            },
        },
    }
}

pub fn parse_ms_text(s: &str) -> (r: Option<i64>)
    ensures
        r == parse_ms(s@),
{
    match parse_i64(s) {
        Some(v) => Some(v),
        None => match parse_rfc3339_millis(s) {
            Some(m) => Some(m),
            None => match parse_naive_utc_millis(s, "%Y-%m-%d %H:%M:%S%.f") {
                Some(m) => Some(m),
                None => parse_naive_utc_millis(s, "%Y-%m-%d %H:%M:%S"),
            },
        },
    }
}

/// A review row `id, date, content, rating, created_at, updated_at` of the
/// column types the driver's typed reads take.
pub open spec fn review_row_ok(row: Seq<CellView>) -> bool {
    &&& is_text_or_null(cell_at(row, 0))
    &&& is_text_or_null(cell_at(row, 1))
    &&& is_text_or_null(cell_at(row, 2))
    &&& is_integer_or_null(cell_at(row, 3))
    &&& is_text_or_null(cell_at(row, 4))
    &&& is_text_or_null(cell_at(row, 5))
}

pub open spec fn text_or_default(c: Option<CellView>) -> Seq<char> {
    match typed_text(c) {
        Some(s) => s,
        None => Seq::empty(),
    }
}

pub open spec fn ms_of(c: Option<CellView>) -> Option<i64> {
    match typed_text(c) {
        Some(s) => parse_ms(s),
        None => None,
    }
}

/// A review as its row reads.
pub open spec fn read_review(row: Seq<CellView>) -> ReviewView {
    ReviewView {
        id: text_or_default(cell_at(row, 0)),
        date: text_or_default(cell_at(row, 1)),
        content: text_or_default(cell_at(row, 2)),
        rating: match typed_int(cell_at(row, 3)) {
            Some(n) => Some(n as i32),
            None => None,
        },
        created_at: ms_of(cell_at(row, 4)),
        updated_at: ms_of(cell_at(row, 5)),
    }
}

fn ms_cell(row: &Row, idx: usize) -> (r: Option<i64>)
    requires
        is_text_or_null(cell_at(row@, idx)),
    ensures
        r == ms_of(cell_at(row@, idx)),
{
    match row.get_text(idx) {
        Some(s) => parse_ms_text(s.as_str()),
        None => None,
    }
}

fn review_from_row(row: &Row) -> (r: DailyReviewRow)
    requires
        review_row_ok(row@),
    ensures
        r@ == read_review(row@),
{
    let rating = match row.get_int(3) {
        Some(n) => {
            #[verifier::truncate]
            let v = n as i32;
            Some(v)
        },
        None => None,
    };
    DailyReviewRow {
        id: row.text_or_default(0),
        date: row.text_or_default(1),
        content: row.text_or_default(2),
        rating,
        created_at: ms_cell(row, 4),
        updated_at: ms_cell(row, 5),
    }
}

/// Every review of the rows read, in order.
pub fn daily_review_load_all(rows: &Vec<Row>) -> (r: Vec<DailyReviewRow>)
    requires
        forall|i: int| 0 <= i < rows@.len() ==> review_row_ok(#[trigger] rows@[i]@),
    ensures
        r@.len() == rows@.len(),
        forall|i: int| 0 <= i < rows@.len() ==> #[trigger] r@[i]@ == read_review(rows@[i]@),
{
    let mut out: Vec<DailyReviewRow> = Vec::new();
    let mut i: usize = 0;
    while i < rows.len()
        invariant
            i <= rows@.len(),
            out@.len() == i,
            forall|j: int| 0 <= j < rows@.len() ==> review_row_ok(#[trigger] rows@[j]@),
            forall|j: int| 0 <= j < i ==> #[trigger] out@[j]@ == read_review(rows@[j]@),
        decreases rows.len() - i,
    {
        assert(review_row_ok(rows@[i as int]@));
        out.push(review_from_row(&rows[i]));
        i = i + 1;
    }
    out
}

// ---------------------------------------------------------------------------
// Saving and deleting
// ---------------------------------------------------------------------------

/// The creation time stored for a review: its own, else `fallback_ms`.
pub open spec fn created_ms(r: ReviewView, fallback_ms: i64) -> i64 {
    match r.created_at {
        Some(c) => c,
        None => fallback_ms,
    }
}

/// The creation text stored: the UTC storage text of the creation time,
/// else `fallback_text`.
pub open spec fn created_text(r: ReviewView, fallback_ms: i64, fallback_text: Seq<char>) -> Seq<
    char,
> {
    match utc_storage_text(created_ms(r, fallback_ms)) {
        Some(t) => t,
        None => fallback_text,
    }
}

/// The values a review upsert binds: `id, date, content, rating,
/// created_at, updated_at`.
pub open spec fn review_params(
    r: ReviewView,
    fallback_ms: i64,
    fallback_text: Seq<char>,
    now: Seq<char>,
) -> Seq<CellView> {
    seq![
        CellView::Text(r.id),
        CellView::Text(r.date),
        CellView::Text(r.content),
        opt_int_view(
            match r.rating {
                Some(n) => Some(n as i64),
                None => None,
            },
        ),
        CellView::Text(created_text(r, fallback_ms, fallback_text)),
        CellView::Text(now),
    ]
}

pub fn review_save_params(
    r: &DailyReviewRow,
    fallback_ms: i64,
    fallback_text: &str,
    now: &str,
) -> (p: Row)
    ensures
        p@ == review_params(r@, fallback_ms, fallback_text@, now@),
        p@[4] matches CellView::Text(t) && (t == fallback_text@ || is_storage_stamp(t)),
{
    let created = match r.created_at {
        Some(c) => c,
        None => fallback_ms,
    };
    let created_iso = match millis_to_storage_text(created) {
        Some(t) => t,
        None => fallback_text.to_string(),
    };
    let mut cells: Vec<CellValue> = Vec::new();
    cells.push(text_value(r.id.as_str()));
    cells.push(text_value(r.date.as_str()));
    cells.push(text_value(r.content.as_str()));
    cells.push(
        match r.rating {
            Some(n) => CellValue::Integer(n as i64),
            None => CellValue::Null,
        },
    );
    cells.push(text_value(created_iso.as_str()));
    cells.push(text_value(now));
    let p = Row { cells };
    assert(p@ =~= review_params(r@, fallback_ms, fallback_text@, now@));
    p
}

/// Saves a review: the clock gives the creation time of a review that has
/// none, the fallback creation text, and the time of the write. Which times
/// these are is the clock's; both stored time texts are storage stamps of
/// timestamps chrono holds.
pub fn daily_review_save(r: &DailyReviewRow) -> (p: Row)
    ensures
        exists|fallback_ms: i64, fallback_text: Seq<char>, now: Seq<char>|
            (r.created_at is None ==> millis_in_range(fallback_ms)) && is_storage_stamp(
                fallback_text,
            ) && is_storage_stamp(now) && p@ == #[trigger] review_params(
                r@,
                fallback_ms,
                fallback_text,
                now,
            ),
        p@[4] matches CellView::Text(t) && is_storage_stamp(t),
        p@[5] matches CellView::Text(t) && is_storage_stamp(t),
{
    let fallback_ms = match r.created_at {
        Some(c) => c,
        None => now_ms(),
    };
    let fallback_text = now_iso();
    let now = now_iso();
    review_save_params(r, fallback_ms, fallback_text.as_str(), now.as_str())
}

/// The values a review's soft delete binds: `deleted_at, updated_at, id`.
pub fn daily_review_delete(id: &str, now: &str) -> (p: Row)
    ensures
        p@ == seq![CellView::Text(now@), CellView::Text(now@), CellView::Text(id@)],
{
    let mut cells: Vec<CellValue> = Vec::new();
    cells.push(text_value(now));
    cells.push(text_value(now));
    cells.push(text_value(id));
    let p = Row { cells };
    assert(p@ =~= seq![CellView::Text(now@), CellView::Text(now@), CellView::Text(id@)]);
    p
}

/// The columns the daily review query selects, in order.
pub open spec fn review_select_columns() -> Seq<Seq<char>> {
    seq!["id"@, "date"@, "content"@, "rating"@, "created_at"@, "updated_at"@]
}

proof fn reveal_review_select_columns()
    ensures
        review_select_columns() == seq![seq!['i', 'd'], seq!['d', 'a', 't', 'e'], seq!['c', 'o', 'n', 't', 'e', 'n', 't'], seq!['r', 'a', 't', 'i', 'n', 'g'], seq!['c', 'r', 'e', 'a', 't', 'e', 'd', '_', 'a', 't'], seq!['u', 'p', 'd', 'a', 't', 'e', 'd', '_', 'a', 't']],
{
    reveal_strlit("id");
    reveal_strlit("date");
    reveal_strlit("content");
    reveal_strlit("rating");
    reveal_strlit("created_at");
    reveal_strlit("updated_at");
    assert(review_select_columns() =~~= seq![seq!['i', 'd'], seq!['d', 'a', 't', 'e'], seq!['c', 'o', 'n', 't', 'e', 'n', 't'], seq!['r', 'a', 't', 'i', 'n', 'g'], seq!['c', 'r', 'e', 'a', 't', 'e', 'd', '_', 'a', 't'], seq!['u', 'p', 'd', 'a', 't', 'e', 'd', '_', 'a', 't']]);
}

/// The columns the daily review write names, in order; it binds `?k` to the `k`-th.
pub open spec fn review_write_columns() -> Seq<Seq<char>> {
    seq!["id"@, "date"@, "content"@, "rating"@, "created_at"@, "updated_at"@]
}

proof fn reveal_review_write_columns()
    ensures
        review_write_columns() == seq![seq!['i', 'd'], seq!['d', 'a', 't', 'e'], seq!['c', 'o', 'n', 't', 'e', 'n', 't'], seq!['r', 'a', 't', 'i', 'n', 'g'], seq!['c', 'r', 'e', 'a', 't', 'e', 'd', '_', 'a', 't'], seq!['u', 'p', 'd', 'a', 't', 'e', 'd', '_', 'a', 't']],
{
    reveal_strlit("id");
    reveal_strlit("date");
    reveal_strlit("content");
    reveal_strlit("rating");
    reveal_strlit("created_at");
    reveal_strlit("updated_at");
    assert(review_write_columns() =~~= seq![seq!['i', 'd'], seq!['d', 'a', 't', 'e'], seq!['c', 'o', 'n', 't', 'e', 'n', 't'], seq!['r', 'a', 't', 'i', 'n', 'g'], seq!['c', 'r', 'e', 'a', 't', 'e', 'd', '_', 'a', 't'], seq!['u', 'p', 'd', 'a', 't', 'e', 'd', '_', 'a', 't']]);
}

/// The daily review query and write name the columns `review_select_columns` and
/// `review_write_columns` list, in that order, and the write binds `?k` to its
/// `k`-th column.
pub proof fn law_review_queries_name_the_columns()
    ensures
        SELECT_REVIEWS@ == "SELECT "@ + comma_list(review_select_columns()) + " FROM daily_reviews WHERE deleted_at IS NULL"@,
        ("INSERT INTO daily_reviews ("@ + comma_list(review_write_columns()) + ") VALUES (?1, ?2, ?3, ?4, ?5, ?6)"@).is_prefix_of(UPSERT_REVIEW@),
{
    reveal_with_fuel(comma_list, 9);
    reveal_strlit("SELECT id, date, content, rating, created_at, updated_at FROM daily_reviews WHERE deleted_at IS NULL");
    reveal_strlit("INSERT INTO daily_reviews (id, date, content, rating, created_at, updated_at) VALUES (?1, ?2, ?3, ?4, ?5, ?6) ON CONFLICT(id) DO UPDATE SET content = excluded.content, rating = excluded.rating, updated_at = excluded.updated_at");
    reveal_strlit("SELECT ");
    reveal_strlit(" FROM daily_reviews WHERE deleted_at IS NULL");
    reveal_strlit("INSERT INTO daily_reviews (");
    reveal_strlit(") VALUES (?1, ?2, ?3, ?4, ?5, ?6)");
    reveal_strlit(", ");
    reveal_review_select_columns();
    reveal_review_write_columns();
    assert(SELECT_REVIEWS@ =~= "SELECT "@ + comma_list(review_select_columns()) + " FROM daily_reviews WHERE deleted_at IS NULL"@);
    let pre = "INSERT INTO daily_reviews ("@ + comma_list(review_write_columns()) + ") VALUES (?1, ?2, ?3, ?4, ?5, ?6)"@;
    assert(pre =~= UPSERT_REVIEW@.take(pre.len() as int));
}

/// Each field of a daily review is read from the column its query names for it, and
/// written where its write names that column.
pub proof fn law_review_fields_follow_column_names(
    row: Seq<CellView>,
    r: ReviewView,
    fallback_ms: i64,
    fallback_text: Seq<char>,
    now: Seq<char>,
)
    ensures
        review_select_columns()[0] == "id"@ && read_review(row).id == text_or_default(cell_at(row, 0))
            && review_write_columns()[0] == "id"@ && review_params(r, fallback_ms, fallback_text, now)[0] == CellView::Text(r.id),
        review_select_columns()[1] == "date"@ && read_review(row).date == text_or_default(cell_at(row, 1))
            && review_write_columns()[1] == "date"@ && review_params(r, fallback_ms, fallback_text, now)[1] == CellView::Text(r.date),
        review_select_columns()[2] == "content"@ && read_review(row).content == text_or_default(cell_at(row, 2))
            && review_write_columns()[2] == "content"@ && review_params(r, fallback_ms, fallback_text, now)[2] == CellView::Text(r.content),
        review_select_columns()[3] == "rating"@ && read_review(row).rating == (match typed_int(cell_at(row, 3)) { Some(n) => Some(n as i32), None => None })
            && review_write_columns()[3] == "rating"@ && review_params(r, fallback_ms, fallback_text, now)[3] == opt_int_view(match r.rating { Some(n) => Some(n as i64), None => None }),
        review_select_columns()[4] == "created_at"@ && read_review(row).created_at == ms_of(cell_at(row, 4))
            && review_write_columns()[4] == "created_at"@ && review_params(r, fallback_ms, fallback_text, now)[4] == CellView::Text(created_text(r, fallback_ms, fallback_text)),
        review_select_columns()[5] == "updated_at"@ && read_review(row).updated_at == ms_of(cell_at(row, 5))
            && review_write_columns()[5] == "updated_at"@ && review_params(r, fallback_ms, fallback_text, now)[5] == CellView::Text(now),
{
    reveal_review_select_columns();
    reveal_review_write_columns();
    reveal_strlit("content");
    reveal_strlit("created_at");
    reveal_strlit("date");
    reveal_strlit("id");
    reveal_strlit("rating");
    reveal_strlit("updated_at");
}

} // verus!
