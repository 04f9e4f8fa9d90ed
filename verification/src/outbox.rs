use vstd::prelude::*;
use crate::row::{
    cell_at, statement, statements_view, text_value, typed_int, typed_text, CellValue, CellView,
    Row, Statement,
};

verus! {

// ---------------------------------------------------------------------------
// The outbox of local edits: each edit is recorded with the table and record
// it touched, kept until a sync has sent it, and then cleared.
// ---------------------------------------------------------------------------

/// Records one edit.
pub const INSERT_OUTBOX_EVENT: &'static str = "INSERT INTO outbox_queue (table_name, record_id, operation, created_at) VALUES (?1, ?2, ?3, ?4)";

/// The edits not yet sent, oldest first.
pub const SELECT_PENDING_OUTBOX: &'static str = "SELECT id, table_name, record_id, operation, created_at FROM outbox_queue ORDER BY id";

/// Clears one sent edit.
pub const DELETE_OUTBOX_ENTRY: &'static str = "DELETE FROM outbox_queue WHERE id = ?1";

/// An edit waiting in the outbox.
#[derive(Debug, Clone, PartialEq)]
pub struct OutboxEntry {
    pub id: i64,
    pub table_name: String,
    pub record_id: String,
    pub operation: String,
    pub created_at: String,
}

pub struct OutboxEntryView {
    pub id: i64,
    pub table_name: Seq<char>,
    pub record_id: Seq<char>,
    pub operation: Seq<char>,
    pub created_at: Seq<char>,
}

impl View for OutboxEntry {
    type V = OutboxEntryView;

    open spec fn view(&self) -> OutboxEntryView {
        OutboxEntryView {
            id: self.id,
            table_name: self.table_name@,
            record_id: self.record_id@,
            operation: self.operation@,
            created_at: self.created_at@,
        }
    }
}

/// The values the insert of an edit binds: `table_name, record_id,
/// operation, created_at`.
pub open spec fn outbox_event_params(
    table_name: Seq<char>,
    record_id: Seq<char>,
    operation: Seq<char>,
    now: Seq<char>,
) -> Seq<CellView> {
    seq![
        CellView::Text(table_name),
        CellView::Text(record_id),
        CellView::Text(operation),
        CellView::Text(now),
    ]
}

/// The statement that records an edit of `record_id` in `table_name`
/// (`upsert` or `delete`) at `now`.
pub fn record_outbox_event(table_name: &str, record_id: &str, operation: &str, now: &str) -> (s:
    Statement)
    ensures
        s.sql@ == INSERT_OUTBOX_EVENT@,
        s.params@ == outbox_event_params(table_name@, record_id@, operation@, now@),
{
    let mut cells: Vec<CellValue> = Vec::new();
    cells.push(text_value(table_name));
    cells.push(text_value(record_id));
    cells.push(text_value(operation));
    cells.push(text_value(now));
    let p = Row { cells };
    assert(p@ =~= outbox_event_params(table_name@, record_id@, operation@, now@));
    statement(INSERT_OUTBOX_EVENT, p)
}

pub open spec fn text_or_empty(c: Option<CellView>) -> Seq<char> {
    match typed_text(c) {
        Some(s) => s,
        None => Seq::empty(),
    }
}

/// An edit as a row `id, table_name, record_id, operation, created_at` reads.
pub open spec fn read_outbox_entry(row: Seq<CellView>) -> OutboxEntryView {
    OutboxEntryView {
        id: match typed_int(cell_at(row, 0)) {
            Some(n) => n,
            None => 0,
        },
        table_name: text_or_empty(cell_at(row, 1)),
        record_id: text_or_empty(cell_at(row, 2)),
        operation: text_or_empty(cell_at(row, 3)),
        created_at: text_or_empty(cell_at(row, 4)),
    }
}

/// The pending edits, one per row read, in order.
pub fn get_pending_outbox(rows: &Vec<Row>) -> (r: Vec<OutboxEntry>)
    ensures
        r@.len() == rows@.len(),
        forall|i: int| 0 <= i < rows@.len() ==> #[trigger] r@[i]@ == read_outbox_entry(rows@[i]@),
{
    let mut out: Vec<OutboxEntry> = Vec::new();
    for i in 0..rows.len()
        invariant
            out@.len() == i,
            forall|j: int| 0 <= j < i ==> #[trigger] out@[j]@ == read_outbox_entry(rows@[j]@),
    {
        let row = &rows[i];
        out.push(
            OutboxEntry {
                id: row.int_or_zero(0),
                table_name: row.text_or_default(1),
                record_id: row.text_or_default(2),
                operation: row.text_or_default(3),
                created_at: row.text_or_default(4),
            },
        );
    }
    out
}

/// The statements that clear the edits `ids`, one per id, in order.
pub fn clear_outbox_entries(ids: &Vec<i64>) -> (r: Vec<Statement>)
    ensures
        r@.len() == ids@.len(),
        forall|i: int|
            0 <= i < ids@.len() ==> #[trigger] statements_view(r@)[i] == (
                DELETE_OUTBOX_ENTRY@,
                seq![CellView::Integer(ids@[i])],
            ),
{
    let mut out: Vec<Statement> = Vec::new();
    for i in 0..ids.len()
        invariant
            out@.len() == i,
            forall|j: int|
                0 <= j < i ==> #[trigger] statements_view(out@)[j] == (
                    DELETE_OUTBOX_ENTRY@,
                    seq![CellView::Integer(ids@[j])],
                ),
    {
        let mut cells: Vec<CellValue> = Vec::new();
        cells.push(CellValue::Integer(ids[i]));
        let p = Row { cells };
        assert(p@ =~= seq![CellView::Integer(ids@[i as int])]);
        let ghost before = statements_view(out@);
        out.push(Statement { sql: DELETE_OUTBOX_ENTRY, params: p });
        assert(statements_view(out@) =~= before.push((DELETE_OUTBOX_ENTRY@, p@)));
    }
    out
}

// ---------------------------------------------------------------------------
// Clearing what was sent
// ---------------------------------------------------------------------------

/// The outbox, by entry id, after deleting the entries `ids` one by one.
pub open spec fn after_deletes<V>(outbox: Map<i64, V>, ids: Seq<i64>) -> Map<i64, V>
    decreases ids.len(),
{
    if ids.len() == 0 {
        outbox
    } else {
        after_deletes(outbox, ids.drop_last()).remove(ids.last())
    }
}

proof fn lemma_after_deletes_dom<V>(outbox: Map<i64, V>, ids: Seq<i64>)
    ensures
        after_deletes(outbox, ids).dom() == outbox.dom().difference(ids.to_set()),
    decreases ids.len(),
{
    if ids.len() > 0 {
        lemma_after_deletes_dom(outbox, ids.drop_last());
        assert(ids.to_set() =~= ids.drop_last().to_set().insert(ids.last())) by {
            assert forall|x: i64| ids.to_set().contains(x) implies ids.drop_last().to_set().insert(
                ids.last(),
            ).contains(x) by {
                let k = choose|k: int| 0 <= k < ids.len() && ids[k] == x;
                if k < ids.len() - 1 {
                    assert(ids.drop_last()[k] == x);
                }
            }
            assert forall|x: i64| ids.drop_last().to_set().insert(ids.last()).contains(
                x,
            ) implies ids.to_set().contains(x) by {
                if x != ids.last() {
                    let k = choose|k: int| 0 <= k < ids.drop_last().len() && ids.drop_last()[k] == x;
                    assert(ids[k] == x);
                } else {
                    assert(ids[ids.len() - 1] == x);
                }
            }
        }
        assert(after_deletes(outbox, ids).dom() =~= outbox.dom().difference(ids.to_set()));
    } else {
        assert(outbox.dom().difference(ids.to_set()) =~= outbox.dom());
    }
}

/// Clearing the entries of a read of the outbox removes exactly them: an
/// entry stays pending exactly when it was pending and is not among the
/// cleared ids, so clearing every pending id leaves the outbox empty, and an
/// edit recorded after the read is kept for the next sync.
pub proof fn law_clear_outbox<V>(outbox: Map<i64, V>, ids: Seq<i64>)
    ensures
        forall|k: i64|
            after_deletes(outbox, ids).dom().contains(k) <==> (outbox.dom().contains(k)
                && !ids.contains(k)),
        outbox.dom().subset_of(ids.to_set()) ==> after_deletes(outbox, ids).dom().is_empty(),
        forall|k: i64|
            after_deletes(outbox, ids).dom().contains(k) ==> after_deletes(outbox, ids)[k]
                == outbox[k],
    decreases ids.len(),
{
    lemma_after_deletes_dom(outbox, ids);
    if ids.len() > 0 {
        law_clear_outbox(outbox, ids.drop_last());
    }
}

/// The outbox after the insert that binds `params` (`table_name, record_id,
/// operation, created_at`) took the fresh id `id` (AUTOINCREMENT).
pub open spec fn after_record(
    outbox: Map<i64, OutboxEntryView>,
    id: i64,
    params: Seq<CellView>,
) -> Map<i64, OutboxEntryView> {
    outbox.insert(
        id,
        OutboxEntryView {
            id,
            table_name: text_or_empty(cell_at(params, 0)),
            record_id: text_or_empty(cell_at(params, 1)),
            operation: text_or_empty(cell_at(params, 2)),
            created_at: text_or_empty(cell_at(params, 3)),
        },
    )
}

/// Two recorded edits are two pending entries, each holding what was
/// recorded, and clearing both leaves the outbox as it was before them.
pub proof fn law_outbox_records_then_clears(
    outbox: Map<i64, OutboxEntryView>,
    id1: i64,
    id2: i64,
    e1: (Seq<char>, Seq<char>, Seq<char>, Seq<char>),
    e2: (Seq<char>, Seq<char>, Seq<char>, Seq<char>),
)
    requires
        !outbox.dom().contains(id1),
        !outbox.dom().contains(id2),
        id1 != id2,
    ensures
        ({
            let o = after_record(
                after_record(outbox, id1, outbox_event_params(e1.0, e1.1, e1.2, e1.3)),
                id2,
                outbox_event_params(e2.0, e2.1, e2.2, e2.3),
            );
            &&& o.dom() == outbox.dom().insert(id1).insert(id2)
            &&& o[id1] == (OutboxEntryView {
                id: id1,
                table_name: e1.0,
                record_id: e1.1,
                operation: e1.2,
                created_at: e1.3,
            })
            &&& o[id2].record_id == e2.1 && o[id2].operation == e2.2
            &&& after_deletes(o, seq![id1, id2]) == outbox
        }),
{
    let p1 = outbox_event_params(e1.0, e1.1, e1.2, e1.3);
    let p2 = outbox_event_params(e2.0, e2.1, e2.2, e2.3);
    assert(cell_at(p1, 0) == Some(CellView::Text(e1.0)));
    assert(cell_at(p1, 1) == Some(CellView::Text(e1.1)));
    assert(cell_at(p1, 2) == Some(CellView::Text(e1.2)));
    assert(cell_at(p1, 3) == Some(CellView::Text(e1.3)));
    assert(cell_at(p2, 1) == Some(CellView::Text(e2.1)));
    assert(cell_at(p2, 2) == Some(CellView::Text(e2.2)));
    let o = after_record(after_record(outbox, id1, p1), id2, p2);
    assert(o.dom() =~= outbox.dom().insert(id1).insert(id2));
    let ids = seq![id1, id2];
    assert(ids.drop_last() =~= seq![id1]);
    assert(seq![id1].drop_last() =~= Seq::<i64>::empty());
    assert(after_deletes(o, seq![id1]) == after_deletes(o, Seq::<i64>::empty()).remove(id1));
    assert(after_deletes(o, ids) == after_deletes(o, seq![id1]).remove(id2));
    assert(o.remove(id1).remove(id2) =~= outbox);
}

} // verus!
