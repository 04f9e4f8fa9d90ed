use vstd::prelude::*;
use crate::clock::{parse_rfc3339_millis, rfc3339_millis};
use crate::error::{AppError, AppResult};
use crate::numbers::{int_text, int_to_text, parse_i32, parse_i64, parse_int};
use crate::text::{all_white, is_blank};

verus! {

/// One value of a result row, as the database hands it out. A floating
/// value is held by what the row readers use of it: its truncation toward
/// zero (saturating, 0 for NaN) and its decimal text.
#[derive(Debug, Clone, PartialEq)]
pub enum CellValue {
    Null,
    Integer(i64),
    Real { truncated: i64, text: String },
    Text(String),
    Blob(Vec<u8>),
}

/// The mathematical value of a `CellValue`.
pub enum CellView {
    Null,
    Integer(i64),
    Real(i64, Seq<char>),
    Text(Seq<char>),
    Blob(Seq<u8>),
}

impl View for CellValue {
    type V = CellView;

    open spec fn view(&self) -> CellView {
        match self {
            CellValue::Null => CellView::Null,
            CellValue::Integer(n) => CellView::Integer(*n),
            CellValue::Real { truncated, text } => CellView::Real(*truncated, text@),
            CellValue::Text(s) => CellView::Text(s@),
            CellValue::Blob(b) => CellView::Blob(b@),
        }
    }
}

/// A result row, or the parameters of a statement: values in order.
#[derive(Debug, Clone, PartialEq)]
pub struct Row {
    pub cells: Vec<CellValue>,
}

impl View for Row {
    type V = Seq<CellView>;

    open spec fn view(&self) -> Seq<CellView> {
        self.cells@.map_values(|c: CellValue| c@)
    }
}

/// The column index the database is asked for: the index as an `i32`.
pub open spec fn column_index(idx: usize) -> int {
    (idx as i32) as int
}

/// The value at a column index, `None` where the database reports no value.
pub open spec fn cell_at(row: Seq<CellView>, idx: usize) -> Option<CellView> {
    let i = column_index(idx);
    if 0 <= i < row.len() {
        Some(row[i])
    } else {
        None
    }
}

impl Row {
    pub fn get_value(&self, idx: usize) -> (r: Option<&CellValue>)
        ensures
            r matches Some(v) ==> cell_at(self@, idx) == Some(v@),
            r is None ==> cell_at(self@, idx) is None,
    {
        #[verifier::truncate]
        let i = idx as i32;
        if 0 <= i && (i as usize) < self.cells.len() {
            Some(&self.cells[i as usize])
        } else {
            None
        }
    }
}

// ---------------------------------------------------------------------------
// What each reader makes of a value
// ---------------------------------------------------------------------------

pub open spec fn str_of(c: Option<CellView>) -> Seq<char> {
    match c {
        Some(CellView::Text(s)) => s,
        Some(CellView::Integer(n)) => int_text(n as int),
        Some(CellView::Real(_, text)) => text,
        _ => Seq::empty(),
    }
}

pub open spec fn opt_str_of(c: Option<CellView>) -> Option<Seq<char>> {
    match c {
        Some(CellView::Text(s)) => if !all_white(s) {
            Some(s)
        } else {
            None
        },
        Some(CellView::Integer(n)) => Some(int_text(n as int)),
        _ => None,
    }
}

/// An integer read from text: decimal digits, else an RFC 3339 timestamp in
/// milliseconds.
pub open spec fn text_to_i64(s: Seq<char>) -> Option<i64> {
    match parse_int(s, i64::MIN as int, i64::MAX as int) {
        Some(v) => Some(v as i64),
        None => rfc3339_millis(s),
    }
}

pub open spec fn i64_of(c: Option<CellView>) -> i64 {
    match c {
        Some(CellView::Integer(n)) => n,
        Some(CellView::Real(truncated, _)) => truncated,
        Some(CellView::Text(s)) => match text_to_i64(s) {
            Some(v) => v,
            None => 0,
        },
        _ => 0,
    }
}

pub open spec fn opt_i64_of(c: Option<CellView>) -> Option<i64> {
    match c {
        Some(CellView::Integer(n)) => Some(n),
        Some(CellView::Real(truncated, _)) => Some(truncated),
        Some(CellView::Text(s)) => if !all_white(s) {
            text_to_i64(s)
        } else {
            None
        },
        _ => None,
    }
}

/// A float's saturating conversion to `i32`, from its truncation.
pub open spec fn clamp_i32(v: i64) -> i32 {
    if v < i32::MIN {
        i32::MIN
    } else if v > i32::MAX {
        i32::MAX
    } else {
        v as i32
    }
}

pub open spec fn i32_of(c: Option<CellView>) -> i32 {
    match c {
        Some(CellView::Integer(n)) => n as i32,
        Some(CellView::Real(truncated, _)) => clamp_i32(truncated),
        Some(CellView::Text(s)) => match parse_int(s, i32::MIN as int, i32::MAX as int) {
            Some(v) => v as i32,
            None => 0,
        },
        _ => 0,
    }
}

pub open spec fn bool_of(c: Option<CellView>) -> bool {
    i32_of(c) != 0
}

/// Readers that never fail: a missing or unexpected value reads as a default.
pub trait RowExt {
    spec fn column(&self, idx: usize) -> Option<CellView>;

    fn parse_str(&self, idx: usize) -> (r: String)
        ensures
            r@ == str_of(self.column(idx)),
    ;

    fn parse_opt_str(&self, idx: usize) -> (r: Option<String>)
        ensures
            r matches Some(s) ==> opt_str_of(self.column(idx)) == Some(s@),
            r is None ==> opt_str_of(self.column(idx)) is None,
    ;

    fn parse_i64(&self, idx: usize) -> (r: i64)
        ensures
            r == i64_of(self.column(idx)),
    ;

    fn parse_opt_i64(&self, idx: usize) -> (r: Option<i64>)
        ensures
            r == opt_i64_of(self.column(idx)),
    ;

    fn parse_i32(&self, idx: usize) -> (r: i32)
        ensures
            r == i32_of(self.column(idx)),
    ;

    fn parse_bool(&self, idx: usize) -> (r: bool)
        ensures
            r == bool_of(self.column(idx)),
    ;
}

fn text_to_i64_exec(s: &str) -> (r: Option<i64>)
    ensures
        r == text_to_i64(s@),
{
    match parse_i64(s) {
        Some(v) => Some(v),
        None => parse_rfc3339_millis(s),
    }
}

impl RowExt for Row {
    open spec fn column(&self, idx: usize) -> Option<CellView> {
        cell_at(self@, idx)
    }

    fn parse_str(&self, idx: usize) -> (r: String) {
        match self.get_value(idx) {
            Some(CellValue::Text(s)) => s.clone(),
            Some(CellValue::Integer(n)) => int_to_text(*n),
            Some(CellValue::Real { truncated, text }) => text.clone(),
            _ => String::new(),
        }
    }

    fn parse_opt_str(&self, idx: usize) -> (r: Option<String>) {
        match self.get_value(idx) {
            Some(CellValue::Text(s)) => {
                if !is_blank(s.as_str()) {
                    Some(s.clone())
                } else {
                    None
                }
            },
            Some(CellValue::Integer(n)) => Some(int_to_text(*n)),
            _ => None,
        }
    }

    fn parse_i64(&self, idx: usize) -> (r: i64) {
        match self.get_value(idx) {
            Some(CellValue::Integer(n)) => *n,
            Some(CellValue::Real { truncated, text }) => *truncated,
            Some(CellValue::Text(s)) => match text_to_i64_exec(s.as_str()) {
                Some(v) => v,
                None => 0,
            },
            _ => 0,
        }
    }

    fn parse_opt_i64(&self, idx: usize) -> (r: Option<i64>) {
        match self.get_value(idx) {
            Some(CellValue::Integer(n)) => Some(*n),
            Some(CellValue::Real { truncated, text }) => Some(*truncated),
            Some(CellValue::Text(s)) => {
                if !is_blank(s.as_str()) {
                    text_to_i64_exec(s.as_str())
                } else {
                    None
                }
            },
            _ => None,
        }
    }

    fn parse_i32(&self, idx: usize) -> (r: i32) {
        match self.get_value(idx) {
            Some(CellValue::Integer(n)) => {
                #[verifier::truncate]
                let v = *n as i32;
                v
            },
            Some(CellValue::Real { truncated, text }) => {
                let t = *truncated;
                if t < i32::MIN as i64 {
                    i32::MIN
                } else if t > i32::MAX as i64 {
                    i32::MAX
                } else {
                    t as i32
                }
            },
            Some(CellValue::Text(s)) => match parse_i32(s.as_str()) {
                Some(v) => v,
                None => 0,
            },
            _ => 0,
        }
    }

    fn parse_bool(&self, idx: usize) -> (r: bool) {
        self.parse_i32(idx) != 0
    }
}

} // verus!

verus! {

// ---------------------------------------------------------------------------
// Statement parameters
// ---------------------------------------------------------------------------

/// The integer a flag is stored as.
pub open spec fn flag(b: bool) -> i64 {
    if b {
        1
    } else {
        0
    }
}

/// The value an optional text is stored as.
pub open spec fn opt_text_view(o: Option<Seq<char>>) -> CellView {
    match o {
        Some(s) => CellView::Text(s),
        None => CellView::Null,
    }
}

/// The value an optional integer is stored as.
pub open spec fn opt_int_view(o: Option<i64>) -> CellView {
    match o {
        Some(n) => CellView::Integer(n),
        None => CellView::Null,
    }
}

pub fn flag_value(b: bool) -> (v: CellValue)
    ensures
        v@ == CellView::Integer(flag(b)),
{
    CellValue::Integer(if b {
        1
    } else {
        0
    })
}

pub fn text_value(s: &str) -> (v: CellValue)
    ensures
        v@ == CellView::Text(s@),
{
    CellValue::Text(s.to_owned())
}

pub fn opt_text_value(o: &Option<String>) -> (v: CellValue)
    ensures
        v@ == opt_text_view(o.deep_view()),
{
    match o {
        Some(s) => CellValue::Text(s.clone()),
        None => CellValue::Null,
    }
}

pub fn opt_int_value(o: Option<i64>) -> (v: CellValue)
    ensures
        v@ == opt_int_view(o),
{
    match o {
        Some(n) => CellValue::Integer(n),
        None => CellValue::Null,
    }
}

/// Reading a stored flag gives it back.
pub proof fn lemma_read_flag(b: bool)
    ensures
        bool_of(Some(CellView::Integer(flag(b)))) == b,
{
}

/// Reading a stored optional text gives it back, unless it is blank.
pub proof fn lemma_read_opt_text(o: Option<Seq<char>>)
    requires
        o matches Some(s) ==> !all_white(s),
    ensures
        opt_str_of(Some(opt_text_view(o))) == o,
{
}

} // verus!

verus! {

// ---------------------------------------------------------------------------
// Typed reads, as the database driver's `Row::get` does them: a NULL is an
// error, and a value of another type is not allowed (the driver panics).
// ---------------------------------------------------------------------------

pub open spec fn is_text_or_null(c: Option<CellView>) -> bool {
    c matches Some(CellView::Text(_)) || c matches Some(CellView::Null)
}

pub open spec fn is_integer_or_null(c: Option<CellView>) -> bool {
    c matches Some(CellView::Integer(_)) || c matches Some(CellView::Null)
}

/// The text a typed read gives, `None` for a NULL.
pub open spec fn typed_text(c: Option<CellView>) -> Option<Seq<char>> {
    match c {
        Some(CellView::Text(s)) => Some(s),
        _ => None,
    }
}

/// The integer a typed read gives, `None` for a NULL.
pub open spec fn typed_int(c: Option<CellView>) -> Option<i64> {
    match c {
        Some(CellView::Integer(n)) => Some(n),
        _ => None,
    }
}

impl Row {
    /// `row.get::<String>(idx)`, with a NULL as `None`.
    pub fn get_text(&self, idx: usize) -> (r: Option<String>)
        requires
            is_text_or_null(cell_at(self@, idx)),
        ensures
            r.deep_view() == typed_text(cell_at(self@, idx)),
    {
        match self.get_value(idx) {
            Some(CellValue::Text(s)) => Some(s.clone()),
            _ => None,
        }
    }

    /// `row.get::<i64>(idx)`, with a NULL as `None`.
    pub fn get_int(&self, idx: usize) -> (r: Option<i64>)
        requires
            is_integer_or_null(cell_at(self@, idx)),
        ensures
            r == typed_int(cell_at(self@, idx)),
    {
        match self.get_value(idx) {
            Some(CellValue::Integer(n)) => Some(*n),
            _ => None,
        }
    }
    /// `row.try_get::<String>(idx).unwrap_or_default()`: the text, or empty
    /// for a NULL, a missing column or a value of another type.
    pub fn text_or_default(&self, idx: usize) -> (r: String)
        ensures
            r@ == match typed_text(cell_at(self@, idx)) {
                Some(s) => s,
                None => Seq::empty(),
            },
    {
        match self.get_value(idx) {
            Some(CellValue::Text(s)) => s.clone(),
            _ => String::new(),
        }
    }

    /// `row.try_get::<i64>(idx).unwrap_or(0)`: the integer, or 0 for a NULL,
    /// a missing column or a value of another type.
    pub fn int_or_zero(&self, idx: usize) -> (r: i64)
        ensures
            r == match typed_int(cell_at(self@, idx)) {
                Some(n) => n,
                None => 0,
            },
    {
        match self.get_value(idx) {
            Some(CellValue::Integer(n)) => *n,
            _ => 0,
        }
    }
}

} // verus!

verus! {

// ---------------------------------------------------------------------------
// Reading whole result sets
// ---------------------------------------------------------------------------

/// The error a typed read of a NULL reports.
pub open spec fn is_null_value_error(e: AppError) -> bool {
    e is Db && e.message_spec() == "Null value"@
}

/// A value read from one result row.
pub trait FromRow: Sized {
    /// Whether the driver reads the row at all (a value of an unexpected
    /// type makes it panic).
    spec fn readable(row: Seq<CellView>) -> bool;

    /// Whether the row reads without an error.
    spec fn reads_ok(row: Seq<CellView>) -> bool;

    /// Whether `v` is what the row reads as.
    spec fn reads_as(row: Seq<CellView>, v: Self) -> bool;

    fn from_row(row: &Row) -> (r: AppResult<Self>)
        requires
            Self::readable(row@),
        ensures
            r is Ok <==> Self::reads_ok(row@),
            r matches Ok(v) ==> Self::reads_as(row@, v),
            r matches Err(e) ==> is_null_value_error(e),
    ;
}

/// Reads every row of a result set, in order; the first row that does not
/// read makes the whole read fail.
pub fn query_all<T: FromRow>(rows: &Vec<Row>) -> (r: AppResult<Vec<T>>)
    requires
        forall|i: int| 0 <= i < rows@.len() ==> T::readable(#[trigger] rows@[i]@),
    ensures
        r is Ok <==> forall|i: int| 0 <= i < rows@.len() ==> T::reads_ok(#[trigger] rows@[i]@),
        r matches Ok(v) ==> v@.len() == rows@.len() && forall|i: int|
            0 <= i < rows@.len() ==> T::reads_as(#[trigger] rows@[i]@, v@[i]),
        r matches Err(e) ==> is_null_value_error(e),
{
    let mut out: Vec<T> = Vec::new();
    let mut i: usize = 0;
    while i < rows.len()
        invariant
            i <= rows@.len(),
            out@.len() == i,
            forall|j: int| 0 <= j < rows@.len() ==> T::readable(#[trigger] rows@[j]@),
            forall|j: int| 0 <= j < i ==> T::reads_ok(#[trigger] rows@[j]@),
            forall|j: int| 0 <= j < i ==> T::reads_as(#[trigger] rows@[j]@, out@[j]),
        decreases rows.len() - i,
    {
        assert(T::readable(rows@[i as int]@));
        match T::from_row(&rows[i]) {
            Ok(v) => {
                out.push(v);
            },
            Err(e) => {
                assert(!T::reads_ok(rows@[i as int]@));
                return Err(e);
            },
        }
        i = i + 1;
    }
    Ok(out)
}

} // verus!

verus! {

// ---------------------------------------------------------------------------
// Common statement parameters
// ---------------------------------------------------------------------------

/// The values one reordered item binds: `sort_order, updated_at, id`, then
/// the id of the parent it is reordered within, if any.
pub open spec fn reorder_row(id: Seq<char>, order: i32, now: CellView, scope: Option<Seq<char>>) -> Seq<
    CellView,
> {
    let base = seq![CellView::Integer(order as i64), now, CellView::Text(id)];
    match scope {
        Some(p) => base.push(CellView::Text(p)),
        None => base,
    }
}

/// A copy of a value.
pub fn copy_value(v: &CellValue) -> (r: CellValue)
    ensures
        r@ == v@,
{
    match v {
        CellValue::Null => CellValue::Null,
        CellValue::Integer(n) => CellValue::Integer(*n),
        CellValue::Real { truncated, text } => CellValue::Real {
            truncated: *truncated,
            text: text.clone(),
        },
        CellValue::Text(t) => CellValue::Text(t.clone()),
        CellValue::Blob(b) => CellValue::Blob(b.clone()),
    }
}

/// The values of a reorder, one row per `(id, sort_order)` item, in order.
pub fn reorder_params(items: &Vec<(String, i32)>, now: &CellValue, scope: Option<&str>) -> (r: Vec<
    Row,
>)
    ensures
        r@.len() == items@.len(),
        forall|i: int|
            0 <= i < items@.len() ==> #[trigger] r@[i]@ == reorder_row(
                items@[i].0@,
                items@[i].1,
                now@,
                scope.deep_view(),
            ),
{
    let mut out: Vec<Row> = Vec::new();
    for i in 0..items.len()
        invariant
            out@.len() == i,
            forall|j: int|
                0 <= j < i ==> #[trigger] out@[j]@ == reorder_row(
                    items@[j].0@,
                    items@[j].1,
                    now@,
                    scope.deep_view(),
                ),
    {
        let (id, order) = &items[i];
        let mut cells: Vec<CellValue> = Vec::new();
        cells.push(CellValue::Integer(*order as i64));
        cells.push(copy_value(now));
        cells.push(text_value(id.as_str()));
        if let Some(p) = scope {
            cells.push(text_value(p));
        }
        let row = Row { cells };
        assert(row@ =~= reorder_row(id@, *order, now@, scope.deep_view()));
        out.push(row);
    }
    out
}

/// The values of a soft delete: `deleted_at, updated_at, id`.
pub open spec fn soft_delete_row(now: CellView, id: Seq<char>) -> Seq<CellView> {
    seq![now, now, CellView::Text(id)]
}

/// The values of a soft delete: `deleted_at, updated_at, id`.
pub fn soft_delete_params(now: &CellValue, id: &str) -> (r: Row)
    ensures
        r@ == soft_delete_row(now@, id@),
{
    let mut cells: Vec<CellValue> = Vec::new();
    cells.push(copy_value(now));
    cells.push(copy_value(now));
    cells.push(text_value(id));
    let r = Row { cells };
    assert(r@ =~= seq![now@, now@, CellView::Text(id@)]);
    r
}

} // verus!

verus! {

// ---------------------------------------------------------------------------
// Statements to run
// ---------------------------------------------------------------------------

/// A statement and the values it binds.
pub struct Statement {
    pub sql: &'static str,
    pub params: Row,
}

pub open spec fn statements_view(v: Seq<Statement>) -> Seq<(Seq<char>, Seq<CellView>)> {
    v.map_values(|s: Statement| (s.sql@, s.params@))
}

/// `sql` bound to `params`.
pub fn statement(sql: &'static str, params: Row) -> (s: Statement)
    ensures
        s.sql@ == sql@,
        s.params@ == params@,
{
    Statement { sql, params }
}

/// A reorder: one run of `sql` per `(id, sort_order)` item, in order.
pub fn reorder_statements(
    sql: &'static str,
    items: &Vec<(String, i32)>,
    now: &CellValue,
    scope: Option<&str>,
) -> (r: Vec<Statement>)
    ensures
        r@.len() == items@.len(),
        forall|i: int|
            0 <= i < items@.len() ==> #[trigger] statements_view(r@)[i] == (
                sql@,
                reorder_row(items@[i].0@, items@[i].1, now@, scope.deep_view()),
            ),
{
    let mut out: Vec<Statement> = Vec::new();
    for i in 0..items.len()
        invariant
            out@.len() == i,
            forall|j: int|
                0 <= j < i ==> #[trigger] statements_view(out@)[j] == (
                    sql@,
                    reorder_row(items@[j].0@, items@[j].1, now@, scope.deep_view()),
                ),
    {
        let (id, order) = &items[i];
        let mut cells: Vec<CellValue> = Vec::new();
        cells.push(CellValue::Integer(*order as i64));
        cells.push(copy_value(now));
        cells.push(text_value(id.as_str()));
        if let Some(p) = scope {
            cells.push(text_value(p));
        }
        let row = Row { cells };
        assert(row@ =~= reorder_row(id@, *order, now@, scope.deep_view()));
        let ghost before = statements_view(out@);
        out.push(Statement { sql, params: row });
        assert(statements_view(out@) =~= before.push((sql@, row@)));
    }
    out
}

/// Column names as an SQL list: `a, b, c`.
pub open spec fn comma_list(names: Seq<Seq<char>>) -> Seq<char>
    decreases names.len(),
{
    if names.len() == 0 {
        Seq::empty()
    } else if names.len() == 1 {
        names[0]
    } else {
        names[0] + ", "@ + comma_list(names.drop_first())
    }
}

} // verus!
