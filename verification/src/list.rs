use vstd::prelude::*;
use crate::error::AppResult;
use crate::row::{
    comma_list, bool_of, cell_at, flag, flag_value, i32_of, i64_of, opt_str_of, opt_text_value, opt_text_view,
    str_of, text_value, query_all, reorder_row, reorder_statements, soft_delete_params, soft_delete_row,
    statement, statements_view, CellValue, CellView, FromRow, Row, RowExt, Statement,
};
use crate::ids::{fresh_id_token, is_lower_hex};
use crate::queries::{
    REORDER_FOLDER, REORDER_LIST, REORDER_NOTE, SOFT_DELETE_FOLDER, SOFT_DELETE_GROUPS_OF_LIST,
    SOFT_DELETE_LIST, SOFT_DELETE_NOTE, SOFT_DELETE_NOTES_OF_LIST, SOFT_DELETE_NOTE_GROUP,
    SOFT_DELETE_TEMPLATE, UNFILE_LISTS_OF_FOLDER, UNGROUP_NOTES, SELECT_NOTES, UPSERT_NOTE,
    SELECT_FOLDERS, UPSERT_FOLDER, SELECT_NOTE_GROUPS, UPSERT_NOTE_GROUP, SELECT_TEMPLATES, UPSERT_TEMPLATE,
    SELECT_LISTS, UPSERT_LIST,
};
use crate::numbers::{int_text, push_int_text};
use crate::text::{all_white, append_str, push_char};

verus! {

// ---------------------------------------------------------------------------
// Folders
// ---------------------------------------------------------------------------

#[derive(Debug, Clone, PartialEq)]
pub struct ListFolder {
    pub id: String,
    pub name: String,
    pub is_pinned: bool,
    pub sort_order: i32,
}

pub struct ListFolderView {
    pub id: Seq<char>,
    pub name: Seq<char>,
    pub is_pinned: bool,
    pub sort_order: i32,
}

impl View for ListFolder {
    type V = ListFolderView;

    open spec fn view(&self) -> ListFolderView {
        ListFolderView {
            id: self.id@,
            name: self.name@,
            is_pinned: self.is_pinned,
            sort_order: self.sort_order,
        }
    }
}

/// A folder as a row `id, name, is_pinned, sort_order` reads.
pub open spec fn read_folder(row: Seq<CellView>) -> ListFolderView {
    ListFolderView {
        id: str_of(cell_at(row, 0)),
        name: str_of(cell_at(row, 1)),
        is_pinned: bool_of(cell_at(row, 2)),
        sort_order: i32_of(cell_at(row, 3)),
    }
}

/// The values an upsert binds: `id, name, is_pinned, sort_order, created_at, updated_at`.
pub open spec fn folder_params(f: ListFolderView, now: Seq<char>) -> Seq<CellView> {
    seq![
        CellView::Text(f.id),
        CellView::Text(f.name),
        CellView::Integer(flag(f.is_pinned)),
        CellView::Integer(f.sort_order as i64),
        CellView::Text(now),
        CellView::Text(now),
    ]
}

/// The row `id, name, is_pinned, sort_order` after an upsert with `params`:
/// every column takes the bound value.
pub open spec fn folder_row_after_upsert(params: Seq<CellView>) -> Seq<CellView> {
    params.take(4)
}

impl FromRow for ListFolder {
    open spec fn readable(row: Seq<CellView>) -> bool {
        true
    }

    open spec fn reads_ok(row: Seq<CellView>) -> bool {
        true
    }

    open spec fn reads_as(row: Seq<CellView>, v: ListFolder) -> bool {
        v@ == read_folder(row)
    }

    fn from_row(row: &Row) -> (r: AppResult<ListFolder>) {
        Ok(ListFolder {
            id: row.parse_str(0),
            name: row.parse_str(1),
            is_pinned: row.parse_bool(2),
            sort_order: row.parse_i32(3),
        })
    }
}

impl ListFolder {
    /// The values `list_upsert_folder` binds.
    pub fn upsert_params(&self, now: &str) -> (p: Row)
        ensures
            p@ == folder_params(self@, now@),
    {
        let mut cells: Vec<CellValue> = Vec::new();
        cells.push(text_value(self.id.as_str()));
        cells.push(text_value(self.name.as_str()));
        cells.push(flag_value(self.is_pinned));
        cells.push(CellValue::Integer(self.sort_order as i64));
        cells.push(text_value(now));
        cells.push(text_value(now));
        let p = Row { cells };
        assert(p@ =~= folder_params(self@, now@));
        p
    }
}

/// What a read gives back of a folder upsert: the folder itself.
pub proof fn law_folder_round_trip(f: ListFolderView, now: Seq<char>)
    ensures
        read_folder(folder_row_after_upsert(folder_params(f, now))) == f,
{
    let row = folder_row_after_upsert(folder_params(f, now));
    assert(cell_at(row, 0) == Some(CellView::Text(f.id)));
    assert(cell_at(row, 1) == Some(CellView::Text(f.name)));
    assert(cell_at(row, 2) == Some(CellView::Integer(flag(f.is_pinned))));
    assert(cell_at(row, 3) == Some(CellView::Integer(f.sort_order as i64)));
}

// ---------------------------------------------------------------------------
// Lists
// ---------------------------------------------------------------------------

#[derive(Debug, Clone, PartialEq)]
pub struct ListList {
    pub id: String,
    pub name: String,
    pub icon: String,
    pub color: String,
    pub view_type: String,
    pub folder_id: Option<String>,
    pub is_pinned: bool,
    pub sort_order: i32,
    pub item_count: i64,
}

pub struct ListListView {
    pub id: Seq<char>,
    pub name: Seq<char>,
    pub icon: Seq<char>,
    pub color: Seq<char>,
    pub view_type: Seq<char>,
    pub folder_id: Option<Seq<char>>,
    pub is_pinned: bool,
    pub sort_order: i32,
    pub item_count: i64,
}

impl View for ListList {
    type V = ListListView;

    open spec fn view(&self) -> ListListView {
        ListListView {
            id: self.id@,
            name: self.name@,
            icon: self.icon@,
            color: self.color@,
            view_type: self.view_type@,
            folder_id: self.folder_id.deep_view(),
            is_pinned: self.is_pinned,
            sort_order: self.sort_order,
            item_count: self.item_count,
        }
    }
}

/// The view type a list shows as: the stored one, or `list` when none is stored.
pub open spec fn view_type_or_default(vt: Seq<char>) -> Seq<char> {
    if vt.len() == 0 {
        "list"@
    } else {
        vt
    }
}

/// A list as a row `id, name, icon, color, view_type, folder_id, is_pinned,
/// sort_order, item_count` reads.
pub open spec fn read_list(row: Seq<CellView>) -> ListListView {
    ListListView {
        id: str_of(cell_at(row, 0)),
        name: str_of(cell_at(row, 1)),
        icon: str_of(cell_at(row, 2)),
        color: str_of(cell_at(row, 3)),
        view_type: view_type_or_default(str_of(cell_at(row, 4))),
        folder_id: opt_str_of(cell_at(row, 5)),
        is_pinned: bool_of(cell_at(row, 6)),
        sort_order: i32_of(cell_at(row, 7)),
        item_count: i64_of(cell_at(row, 8)),
    }
}

/// The values an insert or upsert of a list binds: `id, name, icon, color,
/// view_type, folder_id, is_pinned, sort_order, created_at, updated_at`.
pub open spec fn list_params(l: ListListView, now: Seq<char>) -> Seq<CellView> {
    seq![
        CellView::Text(l.id),
        CellView::Text(l.name),
        CellView::Text(l.icon),
        CellView::Text(l.color),
        CellView::Text(l.view_type),
        opt_text_view(l.folder_id),
        CellView::Integer(flag(l.is_pinned)),
        CellView::Integer(l.sort_order as i64),
        CellView::Text(now),
        CellView::Text(now),
    ]
}

/// The row a list load reads after an upsert with `params`, when the list
/// holds `count` live notes: every stored column takes the bound value.
pub open spec fn list_row_after_upsert(params: Seq<CellView>, count: i64) -> Seq<CellView> {
    params.take(8).push(CellView::Integer(count))
}

impl FromRow for ListList {
    open spec fn readable(row: Seq<CellView>) -> bool {
        true
    }

    open spec fn reads_ok(row: Seq<CellView>) -> bool {
        true
    }

    open spec fn reads_as(row: Seq<CellView>, v: ListList) -> bool {
        v@ == read_list(row)
    }

    fn from_row(row: &Row) -> (r: AppResult<ListList>) {
        let vt = row.parse_str(4);
        Ok(ListList {
            id: row.parse_str(0),
            name: row.parse_str(1),
            icon: row.parse_str(2),
            color: row.parse_str(3),
            view_type: if vt.as_str().is_empty() {
                "list".to_owned()
            } else {
                vt
            },
            folder_id: row.parse_opt_str(5),
            is_pinned: row.parse_bool(6),
            sort_order: row.parse_i32(7),
            item_count: row.parse_i64(8),
        })
    }
}

impl ListList {
    /// The values `list_upsert_list` binds (and the insert of a duplicated list).
    pub fn upsert_params(&self, now: &str) -> (p: Row)
        ensures
            p@ == list_params(self@, now@),
    {
        let mut cells: Vec<CellValue> = Vec::new();
        cells.push(text_value(self.id.as_str()));
        cells.push(text_value(self.name.as_str()));
        cells.push(text_value(self.icon.as_str()));
        cells.push(text_value(self.color.as_str()));
        cells.push(text_value(self.view_type.as_str()));
        cells.push(opt_text_value(&self.folder_id));
        cells.push(flag_value(self.is_pinned));
        cells.push(CellValue::Integer(self.sort_order as i64));
        cells.push(text_value(now));
        cells.push(text_value(now));
        let p = Row { cells };
        assert(p@ =~= list_params(self@, now@));
        p
    }
}

/// What a read gives back of a list upsert: the list itself, with the number
/// of its notes as item count. It needs a non-empty view type (an empty one
/// reads back as `list`) and a folder id that is not blank (a blank one reads
/// back as none).
pub proof fn law_list_round_trip(l: ListListView, now: Seq<char>, count: i64)
    requires
        l.view_type.len() > 0,
        l.folder_id matches Some(fid) ==> !all_white(fid),
    ensures
        read_list(list_row_after_upsert(list_params(l, now), count)) == (ListListView {
            item_count: count,
            ..l
        }),
{
    let row = list_row_after_upsert(list_params(l, now), count);
    assert(cell_at(row, 0) == Some(CellView::Text(l.id)));
    assert(cell_at(row, 1) == Some(CellView::Text(l.name)));
    assert(cell_at(row, 2) == Some(CellView::Text(l.icon)));
    assert(cell_at(row, 3) == Some(CellView::Text(l.color)));
    assert(cell_at(row, 4) == Some(CellView::Text(l.view_type)));
    assert(cell_at(row, 5) == Some(opt_text_view(l.folder_id)));
    assert(cell_at(row, 6) == Some(CellView::Integer(flag(l.is_pinned))));
    assert(cell_at(row, 7) == Some(CellView::Integer(l.sort_order as i64)));
    assert(cell_at(row, 8) == Some(CellView::Integer(count)));
}

// ---------------------------------------------------------------------------
// Note groups
// ---------------------------------------------------------------------------

#[derive(Debug, Clone, PartialEq)]
pub struct ListNoteGroup {
    pub id: String,
    pub list_id: String,
    pub name: String,
    pub sort_order: i32,
}

pub struct ListNoteGroupView {
    pub id: Seq<char>,
    pub list_id: Seq<char>,
    pub name: Seq<char>,
    pub sort_order: i32,
}

impl View for ListNoteGroup {
    type V = ListNoteGroupView;

    open spec fn view(&self) -> ListNoteGroupView {
        ListNoteGroupView {
            id: self.id@,
            list_id: self.list_id@,
            name: self.name@,
            sort_order: self.sort_order,
        }
    }
}

/// A note group as a row `id, list_id, name, sort_order` reads.
pub open spec fn read_group(row: Seq<CellView>) -> ListNoteGroupView {
    ListNoteGroupView {
        id: str_of(cell_at(row, 0)),
        list_id: str_of(cell_at(row, 1)),
        name: str_of(cell_at(row, 2)),
        sort_order: i32_of(cell_at(row, 3)),
    }
}

/// The values a group upsert binds: `id, list_id, name, sort_order, created_at, updated_at`.
pub open spec fn group_params(g: ListNoteGroupView, now: Seq<char>) -> Seq<CellView> {
    seq![
        CellView::Text(g.id),
        CellView::Text(g.list_id),
        CellView::Text(g.name),
        CellView::Integer(g.sort_order as i64),
        CellView::Text(now),
        CellView::Text(now),
    ]
}

/// The row `id, list_id, name, sort_order` after a group upsert: a new group
/// takes every bound value; an existing one (`old`) keeps its list and takes
/// the new name and order.
pub open spec fn group_row_after_upsert(old: Option<Seq<CellView>>, params: Seq<CellView>) -> Seq<
    CellView,
> {
    match old {
        None => params.take(4),
        Some(o) => seq![params[0], o[1], params[2], params[3]],
    }
}

impl FromRow for ListNoteGroup {
    open spec fn readable(row: Seq<CellView>) -> bool {
        true
    }

    open spec fn reads_ok(row: Seq<CellView>) -> bool {
        true
    }

    open spec fn reads_as(row: Seq<CellView>, v: ListNoteGroup) -> bool {
        v@ == read_group(row)
    }

    fn from_row(row: &Row) -> (r: AppResult<ListNoteGroup>) {
        Ok(ListNoteGroup {
            id: row.parse_str(0),
            list_id: row.parse_str(1),
            name: row.parse_str(2),
            sort_order: row.parse_i32(3),
        })
    }
}

impl ListNoteGroup {
    /// The values `list_upsert_group` binds.
    pub fn upsert_params(&self, now: &str) -> (p: Row)
        ensures
            p@ == group_params(self@, now@),
    {
        let mut cells: Vec<CellValue> = Vec::new();
        cells.push(text_value(self.id.as_str()));
        cells.push(text_value(self.list_id.as_str()));
        cells.push(text_value(self.name.as_str()));
        cells.push(CellValue::Integer(self.sort_order as i64));
        cells.push(text_value(now));
        cells.push(text_value(now));
        let p = Row { cells };
        assert(p@ =~= group_params(self@, now@));
        p
    }
}

/// What a read gives back of a group upsert: the group, except that a group
/// that already existed stays in the list it was in.
pub proof fn law_group_round_trip(g: ListNoteGroupView, now: Seq<char>, old: Option<Seq<CellView>>)
    requires
        old matches Some(o) ==> o.len() == 4,
    ensures
        read_group(group_row_after_upsert(old, group_params(g, now))) == (match old {
            None => g,
            Some(o) => ListNoteGroupView { list_id: str_of(Some(o[1])), ..g },
        }),
{
    let row = group_row_after_upsert(old, group_params(g, now));
    assert(cell_at(row, 0) == Some(CellView::Text(g.id)));
    assert(cell_at(row, 2) == Some(CellView::Text(g.name)));
    assert(cell_at(row, 3) == Some(CellView::Integer(g.sort_order as i64)));
    match old {
        None => {
            assert(cell_at(row, 1) == Some(CellView::Text(g.list_id)));
        },
        Some(o) => {
            assert(cell_at(row, 1) == Some(o[1]));
        },
    }
}

// ---------------------------------------------------------------------------
// Notes
// ---------------------------------------------------------------------------

#[derive(Debug, Clone, PartialEq)]
pub struct ListNote {
    pub id: String,
    pub list_id: String,
    pub group_id: Option<String>,
    pub title: String,
    pub content: String,
    pub is_pinned: bool,
    pub sort_order: i32,
    pub created_at: i64,
    pub updated_at: i64,
}

pub struct ListNoteView {
    pub id: Seq<char>,
    pub list_id: Seq<char>,
    pub group_id: Option<Seq<char>>,
    pub title: Seq<char>,
    pub content: Seq<char>,
    pub is_pinned: bool,
    pub sort_order: i32,
    pub created_at: i64,
    pub updated_at: i64,
}

impl View for ListNote {
    type V = ListNoteView;

    open spec fn view(&self) -> ListNoteView {
        ListNoteView {
            id: self.id@,
            list_id: self.list_id@,
            group_id: self.group_id.deep_view(),
            title: self.title@,
            content: self.content@,
            is_pinned: self.is_pinned,
            sort_order: self.sort_order,
            created_at: self.created_at,
            updated_at: self.updated_at,
        }
    }
}

/// A note as a row `id, list_id, group_id, title, content, is_pinned,
/// sort_order, created_at, updated_at` reads.
pub open spec fn read_note(row: Seq<CellView>) -> ListNoteView {
    ListNoteView {
        id: str_of(cell_at(row, 0)),
        list_id: str_of(cell_at(row, 1)),
        group_id: opt_str_of(cell_at(row, 2)),
        title: str_of(cell_at(row, 3)),
        content: str_of(cell_at(row, 4)),
        is_pinned: bool_of(cell_at(row, 5)),
        sort_order: i32_of(cell_at(row, 6)),
        created_at: i64_of(cell_at(row, 7)),
        updated_at: i64_of(cell_at(row, 8)),
    }
}

/// The values a note upsert binds, in the columns of `read_note`; both
/// timestamps are the write time in milliseconds.
pub open spec fn note_params(n: ListNoteView, now_ms: i64) -> Seq<CellView> {
    seq![
        CellView::Text(n.id),
        CellView::Text(n.list_id),
        opt_text_view(n.group_id),
        CellView::Text(n.title),
        CellView::Text(n.content),
        CellView::Integer(flag(n.is_pinned)),
        CellView::Integer(n.sort_order as i64),
        CellView::Integer(now_ms),
        CellView::Integer(now_ms),
    ]
}

/// The note row after an upsert: a new note takes every bound value; an
/// existing one (`old`) keeps its creation time.
pub open spec fn note_row_after_upsert(old: Option<Seq<CellView>>, params: Seq<CellView>) -> Seq<
    CellView,
> {
    match old {
        None => params,
        Some(o) => params.update(7, o[7]),
    }
}

impl FromRow for ListNote {
    open spec fn readable(row: Seq<CellView>) -> bool {
        true
    }

    open spec fn reads_ok(row: Seq<CellView>) -> bool {
        true
    }

    open spec fn reads_as(row: Seq<CellView>, v: ListNote) -> bool {
        v@ == read_note(row)
    }

    fn from_row(row: &Row) -> (r: AppResult<ListNote>) {
        Ok(ListNote {
            id: row.parse_str(0),
            list_id: row.parse_str(1),
            group_id: row.parse_opt_str(2),
            title: row.parse_str(3),
            content: row.parse_str(4),
            is_pinned: row.parse_bool(5),
            sort_order: row.parse_i32(6),
            created_at: row.parse_i64(7),
            updated_at: row.parse_i64(8),
        })
    }
}

impl ListNote {
    /// The values `list_upsert_note` binds.
    pub fn upsert_params(&self, now_ms: i64) -> (p: Row)
        ensures
            p@ == note_params(self@, now_ms),
    {
        let mut cells: Vec<CellValue> = Vec::new();
        cells.push(text_value(self.id.as_str()));
        cells.push(text_value(self.list_id.as_str()));
        cells.push(opt_text_value(&self.group_id));
        cells.push(text_value(self.title.as_str()));
        cells.push(text_value(self.content.as_str()));
        cells.push(flag_value(self.is_pinned));
        cells.push(CellValue::Integer(self.sort_order as i64));
        cells.push(CellValue::Integer(now_ms));
        cells.push(CellValue::Integer(now_ms));
        let p = Row { cells };
        assert(p@ =~= note_params(self@, now_ms));
        p
    }
}

/// What a read gives back of a note upsert: the note, updated at the write
/// time; a new note is also created then, an existing one keeps its creation
/// time. It needs a group id that is not blank (a blank one reads back as none).
pub proof fn law_note_round_trip(n: ListNoteView, now_ms: i64, old: Option<Seq<CellView>>)
    requires
        n.group_id matches Some(g) ==> !all_white(g),
        old matches Some(o) ==> o.len() == 9,
    ensures
        read_note(note_row_after_upsert(old, note_params(n, now_ms))) == (ListNoteView {
            created_at: match old {
                None => now_ms,
                Some(o) => i64_of(Some(o[7])),
            },
            updated_at: now_ms,
            ..n
        }),
{
    let row = note_row_after_upsert(old, note_params(n, now_ms));
    assert(cell_at(row, 0) == Some(CellView::Text(n.id)));
    assert(cell_at(row, 1) == Some(CellView::Text(n.list_id)));
    assert(cell_at(row, 2) == Some(opt_text_view(n.group_id)));
    assert(cell_at(row, 3) == Some(CellView::Text(n.title)));
    assert(cell_at(row, 4) == Some(CellView::Text(n.content)));
    assert(cell_at(row, 5) == Some(CellView::Integer(flag(n.is_pinned))));
    assert(cell_at(row, 6) == Some(CellView::Integer(n.sort_order as i64)));
    assert(cell_at(row, 8) == Some(CellView::Integer(now_ms)));
    match old {
        None => {
            assert(cell_at(row, 7) == Some(CellView::Integer(now_ms)));
        },
        Some(o) => {
            assert(cell_at(row, 7) == Some(o[7]));
        },
    }
}

// ---------------------------------------------------------------------------
// Templates
// ---------------------------------------------------------------------------

#[derive(Debug, Clone, PartialEq)]
pub struct ListTemplate {
    pub id: String,
    pub name: String,
    pub content: String,
}

pub struct ListTemplateView {
    pub id: Seq<char>,
    pub name: Seq<char>,
    pub content: Seq<char>,
}

impl View for ListTemplate {
    type V = ListTemplateView;

    open spec fn view(&self) -> ListTemplateView {
        ListTemplateView { id: self.id@, name: self.name@, content: self.content@ }
    }
}

/// A template as a row `id, name, content` reads.
pub open spec fn read_template(row: Seq<CellView>) -> ListTemplateView {
    ListTemplateView {
        id: str_of(cell_at(row, 0)),
        name: str_of(cell_at(row, 1)),
        content: str_of(cell_at(row, 2)),
    }
}

/// The values a template upsert binds: `id, name, content, created_at, updated_at`.
pub open spec fn template_params(t: ListTemplateView, now: Seq<char>) -> Seq<CellView> {
    seq![
        CellView::Text(t.id),
        CellView::Text(t.name),
        CellView::Text(t.content),
        CellView::Text(now),
        CellView::Text(now),
    ]
}

impl FromRow for ListTemplate {
    open spec fn readable(row: Seq<CellView>) -> bool {
        true
    }

    open spec fn reads_ok(row: Seq<CellView>) -> bool {
        true
    }

    open spec fn reads_as(row: Seq<CellView>, v: ListTemplate) -> bool {
        v@ == read_template(row)
    }

    fn from_row(row: &Row) -> (r: AppResult<ListTemplate>) {
        Ok(ListTemplate { id: row.parse_str(0), name: row.parse_str(1), content: row.parse_str(2) })
    }
}

impl ListTemplate {
    /// The values `list_upsert_template` binds.
    pub fn upsert_params(&self, now: &str) -> (p: Row)
        ensures
            p@ == template_params(self@, now@),
    {
        let mut cells: Vec<CellValue> = Vec::new();
        cells.push(text_value(self.id.as_str()));
        cells.push(text_value(self.name.as_str()));
        cells.push(text_value(self.content.as_str()));
        cells.push(text_value(now));
        cells.push(text_value(now));
        let p = Row { cells };
        assert(p@ =~= template_params(self@, now@));
        p
    }
}

/// What a read gives back of a template upsert: the template itself.
pub proof fn law_template_round_trip(t: ListTemplateView, now: Seq<char>)
    ensures
        read_template(template_params(t, now).take(3)) == t,
{
    let row = template_params(t, now).take(3);
    assert(cell_at(row, 0) == Some(CellView::Text(t.id)));
    assert(cell_at(row, 1) == Some(CellView::Text(t.name)));
    assert(cell_at(row, 2) == Some(CellView::Text(t.content)));
}

/// Everything the lists page loads at once.
#[derive(Debug, Clone, PartialEq)]
pub struct ListAllData {
    pub folders: Vec<ListFolder>,
    pub lists: Vec<ListList>,
    pub note_groups: Vec<ListNoteGroup>,
    pub notes: Vec<ListNote>,
    pub templates: Vec<ListTemplate>,
}

/// Whether `v` holds, in order, what each row reads as.
pub open spec fn reads_all<T: FromRow>(rows: Seq<Row>, v: Seq<T>) -> bool {
    &&& v.len() == rows.len()
    &&& forall|i: int| 0 <= i < rows.len() ==> T::reads_as(#[trigger] rows[i]@, v[i])
}

/// Everything the lists page shows, from the rows of its five queries
/// (folders, lists with their note counts, note groups, notes, templates).
pub fn list_load_all(
    folders: &Vec<Row>,
    lists: &Vec<Row>,
    note_groups: &Vec<Row>,
    notes: &Vec<Row>,
    templates: &Vec<Row>,
) -> (r: AppResult<ListAllData>)
    ensures
        r matches Ok(d) && {
            &&& reads_all(folders@, d.folders@)
            &&& reads_all(lists@, d.lists@)
            &&& reads_all(note_groups@, d.note_groups@)
            &&& reads_all(notes@, d.notes@)
            &&& reads_all(templates@, d.templates@)
        },
{
    let folders = query_all::<ListFolder>(folders)?;
    let lists = query_all::<ListList>(lists)?;
    let note_groups = query_all::<ListNoteGroup>(note_groups)?;
    let notes = query_all::<ListNote>(notes)?;
    let templates = query_all::<ListTemplate>(templates)?;
    Ok(ListAllData { folders, lists, note_groups, notes, templates })
}

// ---------------------------------------------------------------------------
// Duplicating a list
// ---------------------------------------------------------------------------

/// The id of a record created by a copy: `prefix-<now_ms>-<token>`.
pub open spec fn copy_id(prefix: Seq<char>, now_ms: i64, token: Seq<char>) -> Seq<char> {
    prefix + seq!['-'] + int_text(now_ms as int) + seq!['-'] + token
}

/// The id a key maps to, the entry written last winning (as in a map filled
/// in order).
pub open spec fn lookup_last(keys: Seq<Seq<char>>, vals: Seq<Seq<char>>, k: Seq<char>) -> Option<
    Seq<char>,
>
    decreases keys.len(),
{
    if keys.len() == 0 || vals.len() < keys.len() {
        None
    } else if keys.last() == k {
        Some(vals[keys.len() - 1])
    } else {
        lookup_last(keys.drop_last(), vals, k)
    }
}

/// The source group ids of the group rows `id, name, sort_order`.
pub open spec fn source_group_ids(groups: Seq<Seq<CellView>>) -> Seq<Seq<char>> {
    groups.map_values(|g: Seq<CellView>| str_of(cell_at(g, 0)))
}

/// The ids the copies of the groups get.
pub open spec fn copied_group_ids(tokens: Seq<Seq<char>>, now_ms: i64) -> Seq<Seq<char>> {
    tokens.map_values(|t: Seq<char>| copy_id("group"@, now_ms, t))
}

/// The insert of the copy of a group row `id, name, sort_order`:
/// `id, list_id, name, sort_order, created_at, updated_at`.
pub open spec fn copied_group_params(
    g: Seq<CellView>,
    list_id: Seq<char>,
    gid: Seq<char>,
    now: Seq<char>,
) -> Seq<CellView> {
    seq![
        CellView::Text(gid),
        CellView::Text(list_id),
        CellView::Text(str_of(cell_at(g, 1))),
        CellView::Integer(i32_of(cell_at(g, 2)) as i64),
        CellView::Text(now),
        CellView::Text(now),
    ]
}

/// The group a copied note goes to: the copy of its group, if that group was copied.
pub open spec fn copied_note_group(
    n: Seq<CellView>,
    groups: Seq<Seq<CellView>>,
    tokens: Seq<Seq<char>>,
    now_ms: i64,
) -> Option<Seq<char>> {
    match opt_str_of(cell_at(n, 1)) {
        None => None,
        Some(old) => lookup_last(source_group_ids(groups), copied_group_ids(tokens, now_ms), old),
    }
}

/// The insert of the copy of a note row `id, group_id, title, content,
/// is_pinned, sort_order`: `id, list_id, group_id, title, content, is_pinned,
/// sort_order, created_at, updated_at`.
pub open spec fn copied_note_params(
    n: Seq<CellView>,
    list_id: Seq<char>,
    nid: Seq<char>,
    group: Option<Seq<char>>,
    now_ms: i64,
) -> Seq<CellView> {
    seq![
        CellView::Text(nid),
        CellView::Text(list_id),
        opt_text_view(group),
        CellView::Text(str_of(cell_at(n, 2))),
        CellView::Text(str_of(cell_at(n, 3))),
        CellView::Integer(flag(bool_of(cell_at(n, 4)))),
        CellView::Integer(i32_of(cell_at(n, 5)) as i64),
        CellView::Integer(now_ms),
        CellView::Integer(now_ms),
    ]
}

/// The inserts that duplicate a list: the new list, then its groups, then its notes.
pub struct DuplicatePlan {
    pub list: Row,
    pub groups: Vec<Row>,
    pub notes: Vec<Row>,
}

pub open spec fn rows_view(rows: Seq<Row>) -> Seq<Seq<CellView>> {
    rows.map_values(|r: Row| r@)
}

pub open spec fn tokens_view(tokens: Seq<Vec<char>>) -> Seq<Seq<char>> {
    tokens.map_values(|t: Vec<char>| t@)
}

/// Builds `prefix-<now_ms>-<token>`.
pub fn make_copy_id(prefix: &str, now_ms: i64, token: &[char]) -> (s: String)
    ensures
        s@ == copy_id(prefix@, now_ms, token@),
{
    let mut s = String::new();
    append_str(&mut s, prefix);
    push_char(&mut s, '-');
    push_int_text(&mut s, now_ms);
    push_char(&mut s, '-');
    let mut i: usize = 0;
    let ghost base = s@;
    while i < token.len()
        invariant
            i <= token@.len(),
            s@ == base + token@.take(i as int),
        decreases token.len() - i,
    {
        push_char(&mut s, token[i]);
        i = i + 1;
        assert(s@ =~= base + token@.take(i as int));
    }
    assert(token@.take(token@.len() as int) =~= token@);
    assert(s@ =~= copy_id(prefix@, now_ms, token@));
    s
}

/// Finds the copy id of a source group id, the last match winning.
fn find_copied_group(old_ids: &Vec<String>, new_ids: &Vec<String>, key: &String) -> (r: Option<
    String,
>)
    requires
        old_ids@.len() == new_ids@.len(),
    ensures
        r.deep_view() == lookup_last(
            old_ids@.map_values(|s: String| s@),
            new_ids@.map_values(|s: String| s@),
            key@,
        ),
{
    let ghost keys = old_ids@.map_values(|s: String| s@);
    let ghost vals = new_ids@.map_values(|s: String| s@);
    let mut i = old_ids.len();
    assert(keys.take(i as int) =~= keys);
    while i > 0
        invariant
            i <= old_ids@.len() == new_ids@.len(),
            keys == old_ids@.map_values(|s: String| s@),
            vals == new_ids@.map_values(|s: String| s@),
            lookup_last(keys, vals, key@) == lookup_last(keys.take(i as int), vals, key@),
        decreases i,
    {
        let ghost ks = keys.take(i as int);
        assert(ks.last() == old_ids@[i - 1]@);
        if old_ids[i - 1] == *key {
            return Some(new_ids[i - 1].clone());
        }
        assert(ks.drop_last() =~= keys.take(i - 1));
        i = i - 1;
    }
    None
}

/// The inserts that copy the list `new_list` from the group rows `id, name,
/// sort_order` and the live note rows `id, group_id, title, content,
/// is_pinned, sort_order` of the source list. Each copied group and note
/// takes the id `group-<now_ms>-<token>` or `note-<now_ms>-<token>` with its
/// own token; notes land in the copy of their group.
pub fn duplicate_list_plan(
    new_list: &ListList,
    groups: &Vec<Row>,
    notes: &Vec<Row>,
    now: &str,
    now_ms: i64,
    group_tokens: &Vec<Vec<char>>,
    note_tokens: &Vec<Vec<char>>,
) -> (plan: DuplicatePlan)
    requires
        group_tokens@.len() == groups@.len(),
        note_tokens@.len() == notes@.len(),
    ensures
        plan.list@ == list_params(new_list@, now@),
        plan.groups@.len() == groups@.len(),
        forall|i: int|
            0 <= i < groups@.len() ==> #[trigger] plan.groups@[i]@ == copied_group_params(
                groups@[i]@,
                new_list.id@,
                copy_id("group"@, now_ms, group_tokens@[i]@),
                now@,
            ),
        plan.notes@.len() == notes@.len(),
        forall|k: int|
            0 <= k < notes@.len() ==> #[trigger] plan.notes@[k]@ == copied_note_params(
                notes@[k]@,
                new_list.id@,
                copy_id("note"@, now_ms, note_tokens@[k]@),
                copied_note_group(
                    notes@[k]@,
                    rows_view(groups@),
                    tokens_view(group_tokens@),
                    now_ms,
                ),
                now_ms,
            ),
{
    let list = new_list.upsert_params(now);
    let mut old_ids: Vec<String> = Vec::new();
    let mut new_ids: Vec<String> = Vec::new();
    let mut group_rows: Vec<Row> = Vec::new();
    let mut i: usize = 0;
    while i < groups.len()
        invariant
            i <= groups@.len() == group_tokens@.len(),
            old_ids@.len() == i,
            new_ids@.len() == i,
            group_rows@.len() == i,
            forall|j: int|
                0 <= j < i ==> #[trigger] old_ids@[j]@ == str_of(cell_at(groups@[j]@, 0)),
            forall|j: int|
                0 <= j < i ==> #[trigger] new_ids@[j]@ == copy_id(
                    "group"@,
                    now_ms,
                    group_tokens@[j]@,
                ),
            forall|j: int|
                0 <= j < i ==> #[trigger] group_rows@[j]@ == copied_group_params(
                    groups@[j]@,
                    new_list.id@,
                    copy_id("group"@, now_ms, group_tokens@[j]@),
                    now@,
                ),
        decreases groups.len() - i,
    {
        let g = &groups[i];
        let old_id = g.parse_str(0);
        let name = g.parse_str(1);
        let sort_order = g.parse_i32(2);
        let gid = make_copy_id("group", now_ms, group_tokens[i].as_slice());
        let mut cells: Vec<CellValue> = Vec::new();
        cells.push(text_value(gid.as_str()));
        cells.push(text_value(new_list.id.as_str()));
        cells.push(CellValue::Text(name));
        cells.push(CellValue::Integer(sort_order as i64));
        cells.push(text_value(now));
        cells.push(text_value(now));
        let r = Row { cells };
        assert(r@ =~= copied_group_params(g@, new_list.id@, gid@, now@));
        group_rows.push(r);
        old_ids.push(old_id);
        new_ids.push(gid);
        i = i + 1;
    }
    proof {
        assert(old_ids@.map_values(|s: String| s@) =~= source_group_ids(rows_view(groups@)));
        assert(new_ids@.map_values(|s: String| s@) =~= copied_group_ids(
            tokens_view(group_tokens@),
            now_ms,
        ));
    }
    let mut note_rows: Vec<Row> = Vec::new();
    let mut k: usize = 0;
    while k < notes.len()
        invariant
            k <= notes@.len() == note_tokens@.len(),
            old_ids@.len() == new_ids@.len(),
            old_ids@.map_values(|s: String| s@) == source_group_ids(rows_view(groups@)),
            new_ids@.map_values(|s: String| s@) == copied_group_ids(
                tokens_view(group_tokens@),
                now_ms,
            ),
            note_rows@.len() == k,
            forall|j: int|
                0 <= j < k ==> #[trigger] note_rows@[j]@ == copied_note_params(
                    notes@[j]@,
                    new_list.id@,
                    copy_id("note"@, now_ms, note_tokens@[j]@),
                    copied_note_group(
                        notes@[j]@,
                        rows_view(groups@),
                        tokens_view(group_tokens@),
                        now_ms,
                    ),
                    now_ms,
                ),
        decreases notes.len() - k,
    {
        let n = &notes[k];
        let old_group = n.parse_opt_str(1);
        let new_group = match &old_group {
            None => None,
            Some(gid) => find_copied_group(&old_ids, &new_ids, gid),
        };
        let nid = make_copy_id("note", now_ms, note_tokens[k].as_slice());
        let mut cells: Vec<CellValue> = Vec::new();
        cells.push(text_value(nid.as_str()));
        cells.push(text_value(new_list.id.as_str()));
        cells.push(opt_text_value(&new_group));
        cells.push(CellValue::Text(n.parse_str(2)));
        cells.push(CellValue::Text(n.parse_str(3)));
        cells.push(flag_value(n.parse_bool(4)));
        cells.push(CellValue::Integer(n.parse_i32(5) as i64));
        cells.push(CellValue::Integer(now_ms));
        cells.push(CellValue::Integer(now_ms));
        let r = Row { cells };
        assert(new_group.deep_view() == copied_note_group(
            n@,
            rows_view(groups@),
            tokens_view(group_tokens@),
            now_ms,
        ));
        assert(r@ =~= copied_note_params(n@, new_list.id@, nid@, new_group.deep_view(), now_ms));
        note_rows.push(r);
        k = k + 1;
    }
    DuplicatePlan { list, groups: group_rows, notes: note_rows }
}

/// Whether the planned group and note inserts copy `groups` and `notes`
/// into the list `list_id` with the tokens `group_tokens` and `note_tokens`.
pub open spec fn copies_with_tokens(
    groups: Seq<Seq<CellView>>,
    notes: Seq<Seq<CellView>>,
    list_id: Seq<char>,
    now: Seq<char>,
    now_ms: i64,
    group_tokens: Seq<Seq<char>>,
    note_tokens: Seq<Seq<char>>,
    planned_groups: Seq<Seq<CellView>>,
    planned_notes: Seq<Seq<CellView>>,
) -> bool {
    &&& group_tokens.len() == groups.len()
    &&& note_tokens.len() == notes.len()
    &&& planned_groups.len() == groups.len()
    &&& planned_notes.len() == notes.len()
    &&& forall|i: int|
        0 <= i < groups.len() ==> #[trigger] planned_groups[i] == copied_group_params(
            groups[i],
            list_id,
            copy_id("group"@, now_ms, group_tokens[i]),
            now,
        )
    &&& forall|k: int|
        0 <= k < notes.len() ==> #[trigger] planned_notes[k] == copied_note_params(
            notes[k],
            list_id,
            copy_id("note"@, now_ms, note_tokens[k]),
            copied_note_group(notes[k], groups, group_tokens, now_ms),
            now_ms,
        )
}

/// A token of a fresh id: eight lowercase hexadecimal digits.
pub open spec fn token_shaped(t: Seq<char>) -> bool {
    t.len() == 8 && forall|i: int| 0 <= i < 8 ==> is_lower_hex(#[trigger] t[i])
}

/// `list_duplicate_list`'s computing part: draws a fresh token for every
/// copied group and note, then plans the inserts. Which tokens are drawn is
/// chance; each is eight lowercase hexadecimal digits.
pub fn duplicate_list_with_fresh_ids(
    new_list: &ListList,
    groups: &Vec<Row>,
    notes: &Vec<Row>,
    now: &str,
    now_ms: i64,
) -> (plan: DuplicatePlan)
    ensures
        plan.list@ == list_params(new_list@, now@),
        exists|group_tokens: Seq<Seq<char>>, note_tokens: Seq<Seq<char>>|
            (forall|i: int| 0 <= i < group_tokens.len() ==> token_shaped(#[trigger] group_tokens[i]))
                && (forall|i: int| 0 <= i < note_tokens.len() ==> token_shaped(#[trigger] note_tokens[i]))
                && #[trigger] copies_with_tokens(
                rows_view(groups@),
                rows_view(notes@),
                new_list.id@,
                now@,
                now_ms,
                group_tokens,
                note_tokens,
                rows_view(plan.groups@),
                rows_view(plan.notes@),
            ),
{
    let mut group_tokens: Vec<Vec<char>> = Vec::new();
    while group_tokens.len() < groups.len()
        invariant
            group_tokens@.len() <= groups@.len(),
            forall|i: int| 0 <= i < group_tokens@.len() ==> token_shaped(#[trigger] group_tokens@[i]@),
        decreases groups.len() - group_tokens.len(),
    {
        group_tokens.push(fresh_id_token());
    }
    let mut note_tokens: Vec<Vec<char>> = Vec::new();
    while note_tokens.len() < notes.len()
        invariant
            note_tokens@.len() <= notes@.len(),
            forall|i: int| 0 <= i < note_tokens@.len() ==> token_shaped(#[trigger] note_tokens@[i]@),
        decreases notes.len() - note_tokens.len(),
    {
        note_tokens.push(fresh_id_token());
    }
    let plan = duplicate_list_plan(new_list, groups, notes, now, now_ms, &group_tokens, &note_tokens);
    proof {
        let gt = tokens_view(group_tokens@);
        let nt = tokens_view(note_tokens@);
        assert forall|i: int| 0 <= i < gt.len() implies token_shaped(#[trigger] gt[i]) by {
            assert(gt[i] == group_tokens@[i]@);
        }
        assert forall|i: int| 0 <= i < nt.len() implies token_shaped(#[trigger] nt[i]) by {
            assert(nt[i] == note_tokens@[i]@);
        }
        assert(copies_with_tokens(
            rows_view(groups@),
            rows_view(notes@),
            new_list.id@,
            now@,
            now_ms,
            gt,
            nt,
            rows_view(plan.groups@),
            rows_view(plan.notes@),
        ));
    }
    plan
}

// ---------------------------------------------------------------------------
// Moving
// ---------------------------------------------------------------------------

/// The values moving a list binds: `folder_id, sort_order, updated_at, id`.
pub fn list_move_list(list_id: &str, folder_id: &Option<String>, sort_order: i32, now: &str) -> (r:
    Row)
    ensures
        r@ == seq![
            opt_text_view(folder_id.deep_view()),
            CellView::Integer(sort_order as i64),
            CellView::Text(now@),
            CellView::Text(list_id@),
        ],
{
    let mut cells: Vec<CellValue> = Vec::new();
    cells.push(opt_text_value(folder_id));
    cells.push(CellValue::Integer(sort_order as i64));
    cells.push(text_value(now));
    cells.push(text_value(list_id));
    let r = Row { cells };
    assert(r@ =~= seq![
        opt_text_view(folder_id.deep_view()),
        CellView::Integer(sort_order as i64),
        CellView::Text(now@),
        CellView::Text(list_id@),
    ]);
    r
}

/// The values moving a note binds: `list_id, group_id, sort_order,
/// updated_at, id`.
pub fn list_move_note(
    note_id: &str,
    list_id: &str,
    group_id: &Option<String>,
    sort_order: i32,
    now_ms: i64,
) -> (r: Row)
    ensures
        r@ == seq![
            CellView::Text(list_id@),
            opt_text_view(group_id.deep_view()),
            CellView::Integer(sort_order as i64),
            CellView::Integer(now_ms),
            CellView::Text(note_id@),
        ],
{
    let mut cells: Vec<CellValue> = Vec::new();
    cells.push(text_value(list_id));
    cells.push(opt_text_value(group_id));
    cells.push(CellValue::Integer(sort_order as i64));
    cells.push(CellValue::Integer(now_ms));
    cells.push(text_value(note_id));
    let r = Row { cells };
    assert(r@ =~= seq![
        CellView::Text(list_id@),
        opt_text_view(group_id.deep_view()),
        CellView::Integer(sort_order as i64),
        CellView::Integer(now_ms),
        CellView::Text(note_id@),
    ]);
    r
}

// ---------------------------------------------------------------------------
// Laws of duplication
// ---------------------------------------------------------------------------

proof fn lemma_lookup_last(keys: Seq<Seq<char>>, vals: Seq<Seq<char>>, k: Seq<char>)
    requires
        vals.len() >= keys.len(),
    ensures
        lookup_last(keys, vals, k) matches Some(v) ==> exists|j: int|
            0 <= j < keys.len() && keys[j] == k && #[trigger] vals[j] == v,
        keys.contains(k) ==> lookup_last(keys, vals, k) is Some,
    decreases keys.len(),
{
    if keys.len() > 0 {
        lemma_lookup_last(keys.drop_last(), vals, k);
        if keys.last() != k && keys.contains(k) {
            let j = choose|j: int| 0 <= j < keys.len() && keys[j] == k;
            assert(keys.drop_last()[j] == k);
        }
        if keys.last() != k {
            if let Some(v) = lookup_last(keys, vals, k) {
                let j = choose|j: int|
                    0 <= j < keys.drop_last().len() && keys.drop_last()[j] == k && #[trigger] vals[j]
                        == v;
                assert(keys[j] == k);
            }
        } else {
            assert(keys[keys.len() - 1] == k);
        }
    }
}

/// A duplicated list is self-contained: a copied note that keeps a group
/// points to the copy of a source group with that group's id, never to a
/// group of the source list; and a note whose group was among the source
/// groups keeps a group.
pub proof fn law_duplicate_links_copies(
    n: Seq<CellView>,
    groups: Seq<Seq<CellView>>,
    tokens: Seq<Seq<char>>,
    now_ms: i64,
)
    requires
        tokens.len() == groups.len(),
    ensures
        copied_note_group(n, groups, tokens, now_ms) matches Some(g) ==> exists|i: int|
            0 <= i < groups.len() && Some(str_of(cell_at(groups[i], 0))) == opt_str_of(cell_at(n, 1))
                && g == #[trigger] copy_id("group"@, now_ms, tokens[i]),
        (opt_str_of(cell_at(n, 1)) matches Some(old) && source_group_ids(groups).contains(old))
            ==> copied_note_group(n, groups, tokens, now_ms) is Some,
{
    if let Some(old) = opt_str_of(cell_at(n, 1)) {
        let keys = source_group_ids(groups);
        let vals = copied_group_ids(tokens, now_ms);
        lemma_lookup_last(keys, vals, old);
        if let Some(g) = copied_note_group(n, groups, tokens, now_ms) {
            let j = choose|j: int| 0 <= j < keys.len() && keys[j] == old && #[trigger] vals[j] == g;
            assert(copy_id("group"@, now_ms, tokens[j]) == vals[j]);
        }
    }
}

// ---------------------------------------------------------------------------
// Deleting and reordering
// ---------------------------------------------------------------------------

fn pair_row(a: CellValue, b: CellValue) -> (r: Row)
    ensures
        r@ == seq![a@, b@],
{
    let mut cells: Vec<CellValue> = Vec::new();
    cells.push(a);
    cells.push(b);
    let r = Row { cells };
    assert(r@ =~= seq![a@, b@]);
    r
}

/// Deleting a folder: it is marked deleted, and its lists leave it.
pub fn list_delete_folder(id: &str, now: &str) -> (r: Vec<Statement>)
    ensures
        statements_view(r@) == seq![
            (SOFT_DELETE_FOLDER@, soft_delete_row(CellView::Text(now@), id@)),
            (UNFILE_LISTS_OF_FOLDER@, seq![CellView::Text(now@), CellView::Text(id@)]),
        ],
{
    let mut r: Vec<Statement> = Vec::new();
    r.push(statement(SOFT_DELETE_FOLDER, soft_delete_params(&text_value(now), id)));
    r.push(statement(UNFILE_LISTS_OF_FOLDER, pair_row(text_value(now), text_value(id))));
    assert(statements_view(r@) =~= seq![
        (SOFT_DELETE_FOLDER@, soft_delete_row(CellView::Text(now@), id@)),
        (UNFILE_LISTS_OF_FOLDER@, seq![CellView::Text(now@), CellView::Text(id@)]),
    ]);
    r
}

/// Deleting a list: it is marked deleted, and so are its live notes (at
/// `now_ms`) and its live groups.
pub fn list_delete_list(id: &str, now: &str, now_ms: i64) -> (r: Vec<Statement>)
    ensures
        statements_view(r@) == seq![
            (SOFT_DELETE_LIST@, seq![CellView::Text(now@), CellView::Text(id@)]),
            (SOFT_DELETE_NOTES_OF_LIST@, seq![CellView::Integer(now_ms), CellView::Text(id@)]),
            (SOFT_DELETE_GROUPS_OF_LIST@, soft_delete_row(CellView::Text(now@), id@)),
        ],
{
    let mut r: Vec<Statement> = Vec::new();
    r.push(statement(SOFT_DELETE_LIST, pair_row(text_value(now), text_value(id))));
    r.push(statement(SOFT_DELETE_NOTES_OF_LIST, pair_row(CellValue::Integer(now_ms), text_value(id))));
    r.push(statement(SOFT_DELETE_GROUPS_OF_LIST, soft_delete_params(&text_value(now), id)));
    assert(statements_view(r@) =~= seq![
        (SOFT_DELETE_LIST@, seq![CellView::Text(now@), CellView::Text(id@)]),
        (SOFT_DELETE_NOTES_OF_LIST@, seq![CellView::Integer(now_ms), CellView::Text(id@)]),
        (SOFT_DELETE_GROUPS_OF_LIST@, soft_delete_row(CellView::Text(now@), id@)),
    ]);
    r
}

/// Deleting a note: it is marked deleted at `now_ms`.
pub fn list_delete_note(id: &str, now_ms: i64) -> (r: Statement)
    ensures
        r.sql@ == SOFT_DELETE_NOTE@,
        r.params@ == soft_delete_row(CellView::Integer(now_ms), id@),
{
    statement(SOFT_DELETE_NOTE, soft_delete_params(&CellValue::Integer(now_ms), id))
}

/// Deleting a group: its live notes leave it (at `now_ms`), and it is
/// marked deleted.
pub fn list_delete_group(id: &str, now: &str, now_ms: i64) -> (r: Vec<Statement>)
    ensures
        statements_view(r@) == seq![
            (UNGROUP_NOTES@, seq![CellView::Integer(now_ms), CellView::Text(id@)]),
            (SOFT_DELETE_NOTE_GROUP@, soft_delete_row(CellView::Text(now@), id@)),
        ],
{
    let mut r: Vec<Statement> = Vec::new();
    r.push(statement(UNGROUP_NOTES, pair_row(CellValue::Integer(now_ms), text_value(id))));
    r.push(statement(SOFT_DELETE_NOTE_GROUP, soft_delete_params(&text_value(now), id)));
    assert(statements_view(r@) =~= seq![
        (UNGROUP_NOTES@, seq![CellView::Integer(now_ms), CellView::Text(id@)]),
        (SOFT_DELETE_NOTE_GROUP@, soft_delete_row(CellView::Text(now@), id@)),
    ]);
    r
}

/// Deleting a template: it is marked deleted.
pub fn list_delete_template(id: &str, now: &str) -> (r: Statement)
    ensures
        r.sql@ == SOFT_DELETE_TEMPLATE@,
        r.params@ == soft_delete_row(CellView::Text(now@), id@),
{
    statement(SOFT_DELETE_TEMPLATE, soft_delete_params(&text_value(now), id))
}

/// Reordering folders: each takes its new place, stamped `now`.
pub fn list_reorder_folders(items: &Vec<(String, i32)>, now: &str) -> (r: Vec<Statement>)
    ensures
        r@.len() == items@.len(),
        forall|i: int|
            0 <= i < items@.len() ==> #[trigger] statements_view(r@)[i] == (
                REORDER_FOLDER@,
                reorder_row(items@[i].0@, items@[i].1, CellView::Text(now@), None),
            ),
{
    reorder_statements(REORDER_FOLDER, items, &text_value(now), None)
}

/// Reordering lists: each takes its new place, stamped `now`.
pub fn list_reorder_lists(items: &Vec<(String, i32)>, now: &str) -> (r: Vec<Statement>)
    ensures
        r@.len() == items@.len(),
        forall|i: int|
            0 <= i < items@.len() ==> #[trigger] statements_view(r@)[i] == (
                REORDER_LIST@,
                reorder_row(items@[i].0@, items@[i].1, CellView::Text(now@), None),
            ),
{
    reorder_statements(REORDER_LIST, items, &text_value(now), None)
}

/// Reordering notes: each takes its new place, stamped `now_ms`.
pub fn list_reorder_notes(items: &Vec<(String, i32)>, now_ms: i64) -> (r: Vec<Statement>)
    ensures
        r@.len() == items@.len(),
        forall|i: int|
            0 <= i < items@.len() ==> #[trigger] statements_view(r@)[i] == (
                REORDER_NOTE@,
                reorder_row(items@[i].0@, items@[i].1, CellView::Integer(now_ms), None),
            ),
{
    reorder_statements(REORDER_NOTE, items, &CellValue::Integer(now_ms), None)
}


/// What the list load gives back of an upserted note: wherever the row the
/// database holds for it comes among the note rows read, the note loaded
/// there is the note, updated at the write time and created then or when it
/// was first written (for a group id that is not blank).
pub proof fn law_note_load_round_trip(
    n: ListNoteView,
    now_ms: i64,
    old: Option<Seq<CellView>>,
    rows: Seq<Row>,
    i: int,
    loaded: Seq<ListNote>,
)
    requires
        n.group_id matches Some(g) ==> !all_white(g),
        old matches Some(o) ==> o.len() == 9,
        0 <= i < rows.len(),
        rows[i]@ == note_row_after_upsert(old, note_params(n, now_ms)),
        reads_all(rows, loaded),
    ensures
        loaded[i]@ == (ListNoteView {
            created_at: match old {
                None => now_ms,
                Some(o) => i64_of(Some(o[7])),
            },
            updated_at: now_ms,
            ..n
        }),
{
    law_note_round_trip(n, now_ms, old);
    assert(ListNote::reads_as(rows[i]@, loaded[i]));
}

/// A table of children by id, each with the id of its parent and its
/// deletion time (`None` while live), after `UPDATE .. SET deleted_at = now
/// .. WHERE <parent> = parent AND deleted_at IS NULL`.
pub open spec fn after_children_deleted(
    children: Map<Seq<char>, (Seq<char>, Option<CellView>)>,
    parent: Seq<char>,
    now: CellView,
) -> Map<Seq<char>, (Seq<char>, Option<CellView>)> {
    Map::new(
        |k: Seq<char>| children.dom().contains(k),
        |k: Seq<char>|
            if children[k].0 == parent && children[k].1 is None {
                (children[k].0, Some(now))
            } else {
                children[k]
            },
    )
}

/// Deleting a list deletes its live notes and groups and nothing else: the
/// statements `list_delete_list` plans bind the list's id and the deletion
/// times, and after them no note or group of the list is live (so the list
/// load, which reads live rows, shows none), while the notes and groups of
/// other lists, and those already deleted, are as they were.
pub proof fn law_list_delete_covers_children(
    id: Seq<char>,
    now: Seq<char>,
    now_ms: i64,
    notes: Map<Seq<char>, (Seq<char>, Option<CellView>)>,
    groups: Map<Seq<char>, (Seq<char>, Option<CellView>)>,
)
    ensures
        ({
            let note_params = seq![CellView::Integer(now_ms), CellView::Text(id)];
            let group_params = soft_delete_row(CellView::Text(now), id);
            let notes2 = after_children_deleted(notes, note_params[1]->Text_0, note_params[0]);
            let groups2 = after_children_deleted(groups, group_params[2]->Text_0, group_params[0]);
            &&& notes2.dom() == notes.dom()
            &&& groups2.dom() == groups.dom()
            &&& forall|k: Seq<char>|
                notes2.dom().contains(k) && notes2[k].0 == id ==> notes2[k].1 is Some
            &&& forall|k: Seq<char>|
                groups2.dom().contains(k) && groups2[k].0 == id ==> groups2[k].1 is Some
            &&& forall|k: Seq<char>|
                notes.dom().contains(k) && (notes[k].0 != id || notes[k].1 is Some) ==> notes2[k]
                    == notes[k]
            &&& forall|k: Seq<char>|
                groups.dom().contains(k) && (groups[k].0 != id || groups[k].1 is Some)
                    ==> groups2[k] == groups[k]
        }),
{
    let note_params = seq![CellView::Integer(now_ms), CellView::Text(id)];
    let group_params = soft_delete_row(CellView::Text(now), id);
    assert(note_params[1]->Text_0 == id);
    assert(group_params[2]->Text_0 == id);
    let notes2 = after_children_deleted(notes, id, note_params[0]);
    let groups2 = after_children_deleted(groups, id, group_params[0]);
    assert(notes2.dom() =~= notes.dom());
    assert(groups2.dom() =~= groups.dom());
}

/// The notes a load reads hold one note with an upserted note's id: the
/// table's key is the id, so the rows read have distinct text ids, and only
/// the row the database holds for the note reads with that id.
pub proof fn law_note_load_unique(
    n: ListNoteView,
    now_ms: i64,
    old: Option<Seq<CellView>>,
    rows: Seq<Row>,
    i: int,
    loaded: Seq<ListNote>,
)
    requires
        old matches Some(o) ==> o.len() == 9,
        0 <= i < rows.len(),
        rows[i]@ == note_row_after_upsert(old, note_params(n, now_ms)),
        forall|j: int| 0 <= j < rows.len() ==> (#[trigger] cell_at(rows[j]@, 0)) is Some && cell_at(
            rows[j]@,
            0,
        )->0 is Text,
        forall|j: int, k: int|
            0 <= j < rows.len() && 0 <= k < rows.len() && j != k ==> #[trigger] cell_at(rows[j]@, 0)
                != #[trigger] cell_at(rows[k]@, 0),
        reads_all(rows, loaded),
    ensures
        forall|j: int| 0 <= j < loaded.len() && #[trigger] loaded[j]@.id == n.id ==> j == i,
{
    assert(cell_at(rows[i]@, 0) == Some(CellView::Text(n.id)));
    assert forall|j: int| 0 <= j < loaded.len() && #[trigger] loaded[j]@.id == n.id implies j == i by {
        assert(ListNote::reads_as(rows[j]@, loaded[j]));
        assert(cell_at(rows[j]@, 0) is Some);
        if j != i {
            assert(cell_at(rows[j]@, 0) != cell_at(rows[i]@, 0));
        }
    }
}

/// The columns of a note, in the order its query selects them and its
/// upsert names them (the upsert may add `updated_at`).
pub open spec fn note_columns() -> Seq<Seq<char>> {
    seq!["id"@, "list_id"@, "group_id"@, "title"@, "content"@, "is_pinned"@, "sort_order"@, "created_at"@, "updated_at"@]
}

proof fn reveal_note_columns()
    ensures
        note_columns() == seq![seq!['i', 'd'], seq!['l', 'i', 's', 't', '_', 'i', 'd'], seq!['g', 'r', 'o', 'u', 'p', '_', 'i', 'd'], seq!['t', 'i', 't', 'l', 'e'], seq!['c', 'o', 'n', 't', 'e', 'n', 't'], seq!['i', 's', '_', 'p', 'i', 'n', 'n', 'e', 'd'], seq!['s', 'o', 'r', 't', '_', 'o', 'r', 'd', 'e', 'r'], seq!['c', 'r', 'e', 'a', 't', 'e', 'd', '_', 'a', 't'], seq!['u', 'p', 'd', 'a', 't', 'e', 'd', '_', 'a', 't']],
{
    reveal_strlit("id");
    reveal_strlit("list_id");
    reveal_strlit("group_id");
    reveal_strlit("title");
    reveal_strlit("content");
    reveal_strlit("is_pinned");
    reveal_strlit("sort_order");
    reveal_strlit("created_at");
    reveal_strlit("updated_at");
    assert(note_columns() =~~= seq![seq!['i', 'd'], seq!['l', 'i', 's', 't', '_', 'i', 'd'], seq!['g', 'r', 'o', 'u', 'p', '_', 'i', 'd'], seq!['t', 'i', 't', 'l', 'e'], seq!['c', 'o', 'n', 't', 'e', 'n', 't'], seq!['i', 's', '_', 'p', 'i', 'n', 'n', 'e', 'd'], seq!['s', 'o', 'r', 't', '_', 'o', 'r', 'd', 'e', 'r'], seq!['c', 'r', 'e', 'a', 't', 'e', 'd', '_', 'a', 't'], seq!['u', 'p', 'd', 'a', 't', 'e', 'd', '_', 'a', 't']]);
}

/// The note query and upsert name the columns `note_columns` lists, in
/// that order, and the upsert binds `?k` to its `k`-th column.
pub proof fn law_note_queries_name_the_columns()
    ensures
        SELECT_NOTES@ == "SELECT "@ + comma_list(note_columns()) + " FROM list_notes WHERE deleted_at IS NULL ORDER BY is_pinned DESC, sort_order, updated_at DESC"@,
        ("INSERT INTO list_notes ("@ + comma_list(note_columns())
            + ") VALUES (?1, ?2, ?3, ?4, ?5, ?6, ?7, ?8, ?9)"@).is_prefix_of(UPSERT_NOTE@),
{
    reveal_with_fuel(comma_list, 12);
    reveal_strlit("SELECT id, list_id, group_id, title, content, is_pinned, sort_order, created_at, updated_at FROM list_notes WHERE deleted_at IS NULL ORDER BY is_pinned DESC, sort_order, updated_at DESC");
    reveal_strlit("INSERT INTO list_notes (id, list_id, group_id, title, content, is_pinned, sort_order, created_at, updated_at) VALUES (?1, ?2, ?3, ?4, ?5, ?6, ?7, ?8, ?9) ON CONFLICT(id) DO UPDATE SET list_id = excluded.list_id, group_id = excluded.group_id, title = excluded.title, content = excluded.content, is_pinned = excluded.is_pinned, sort_order = excluded.sort_order, updated_at = excluded.updated_at");
    reveal_strlit("SELECT ");
    reveal_strlit(" FROM list_notes WHERE deleted_at IS NULL ORDER BY is_pinned DESC, sort_order, updated_at DESC");
    reveal_strlit("INSERT INTO list_notes (");
    reveal_strlit(") VALUES (?1, ?2, ?3, ?4, ?5, ?6, ?7, ?8, ?9)");
    reveal_strlit(", ");
    reveal_strlit("updated_at");
    reveal_note_columns();
    assert(SELECT_NOTES@ =~= "SELECT "@ + comma_list(note_columns()) + " FROM list_notes WHERE deleted_at IS NULL ORDER BY is_pinned DESC, sort_order, updated_at DESC"@);
    let pre = "INSERT INTO list_notes ("@ + comma_list(note_columns())
        + ") VALUES (?1, ?2, ?3, ?4, ?5, ?6, ?7, ?8, ?9)"@;
    assert(pre =~= UPSERT_NOTE@.take(pre.len() as int));
}

/// Each field of a note is read from the column its query names for it,
/// and its upsert binds it where the upsert names that column.
pub proof fn law_note_fields_follow_column_names(row: Seq<CellView>, n: ListNoteView, now_ms: i64)
    ensures
        note_columns()[0] == "id"@ && read_note(row).id == str_of(cell_at(row, 0))
            && note_params(n, now_ms)[0] == CellView::Text(n.id),
        note_columns()[1] == "list_id"@ && read_note(row).list_id == str_of(cell_at(row, 1))
            && note_params(n, now_ms)[1] == CellView::Text(n.list_id),
        note_columns()[2] == "group_id"@ && read_note(row).group_id == opt_str_of(cell_at(row, 2))
            && note_params(n, now_ms)[2] == opt_text_view(n.group_id),
        note_columns()[3] == "title"@ && read_note(row).title == str_of(cell_at(row, 3))
            && note_params(n, now_ms)[3] == CellView::Text(n.title),
        note_columns()[4] == "content"@ && read_note(row).content == str_of(cell_at(row, 4))
            && note_params(n, now_ms)[4] == CellView::Text(n.content),
        note_columns()[5] == "is_pinned"@ && read_note(row).is_pinned == bool_of(cell_at(row, 5))
            && note_params(n, now_ms)[5] == CellView::Integer(flag(n.is_pinned)),
        note_columns()[6] == "sort_order"@ && read_note(row).sort_order == i32_of(cell_at(row, 6))
            && note_params(n, now_ms)[6] == CellView::Integer(n.sort_order as i64),
        note_columns()[7] == "created_at"@ && read_note(row).created_at == i64_of(cell_at(row, 7)),
        note_columns()[8] == "updated_at"@ && read_note(row).updated_at == i64_of(cell_at(row, 8)),
{
    reveal_note_columns();
    reveal_strlit("id");
    reveal_strlit("list_id");
    reveal_strlit("group_id");
    reveal_strlit("title");
    reveal_strlit("content");
    reveal_strlit("is_pinned");
    reveal_strlit("sort_order");
    reveal_strlit("created_at");
    reveal_strlit("updated_at");
}

/// The columns the folder query selects, in order.
pub open spec fn folder_select_columns() -> Seq<Seq<char>> {
    seq!["id"@, "name"@, "is_pinned"@, "sort_order"@]
}

proof fn reveal_folder_select_columns()
    ensures
        folder_select_columns() == seq![seq!['i', 'd'], seq!['n', 'a', 'm', 'e'], seq!['i', 's', '_', 'p', 'i', 'n', 'n', 'e', 'd'], seq!['s', 'o', 'r', 't', '_', 'o', 'r', 'd', 'e', 'r']],
{
    reveal_strlit("id");
    reveal_strlit("name");
    reveal_strlit("is_pinned");
    reveal_strlit("sort_order");
    assert(folder_select_columns() =~~= seq![seq!['i', 'd'], seq!['n', 'a', 'm', 'e'], seq!['i', 's', '_', 'p', 'i', 'n', 'n', 'e', 'd'], seq!['s', 'o', 'r', 't', '_', 'o', 'r', 'd', 'e', 'r']]);
}

/// The columns the folder write names, in order; it binds `?k` to the `k`-th.
pub open spec fn folder_write_columns() -> Seq<Seq<char>> {
    seq!["id"@, "name"@, "is_pinned"@, "sort_order"@, "created_at"@, "updated_at"@]
}

proof fn reveal_folder_write_columns()
    ensures
        folder_write_columns() == seq![seq!['i', 'd'], seq!['n', 'a', 'm', 'e'], seq!['i', 's', '_', 'p', 'i', 'n', 'n', 'e', 'd'], seq!['s', 'o', 'r', 't', '_', 'o', 'r', 'd', 'e', 'r'], seq!['c', 'r', 'e', 'a', 't', 'e', 'd', '_', 'a', 't'], seq!['u', 'p', 'd', 'a', 't', 'e', 'd', '_', 'a', 't']],
{
    reveal_strlit("id");
    reveal_strlit("name");
    reveal_strlit("is_pinned");
    reveal_strlit("sort_order");
    reveal_strlit("created_at");
    reveal_strlit("updated_at");
    assert(folder_write_columns() =~~= seq![seq!['i', 'd'], seq!['n', 'a', 'm', 'e'], seq!['i', 's', '_', 'p', 'i', 'n', 'n', 'e', 'd'], seq!['s', 'o', 'r', 't', '_', 'o', 'r', 'd', 'e', 'r'], seq!['c', 'r', 'e', 'a', 't', 'e', 'd', '_', 'a', 't'], seq!['u', 'p', 'd', 'a', 't', 'e', 'd', '_', 'a', 't']]);
}

/// The folder query and write name the columns `folder_select_columns` and
/// `folder_write_columns` list, in that order, and the write binds `?k` to its
/// `k`-th column.
pub proof fn law_folder_queries_name_the_columns()
    ensures
        SELECT_FOLDERS@ == "SELECT "@ + comma_list(folder_select_columns()) + " FROM list_folders WHERE deleted_at IS NULL ORDER BY sort_order"@,
        ("INSERT INTO list_folders ("@ + comma_list(folder_write_columns()) + ") VALUES (?1, ?2, ?3, ?4, ?5, ?6)"@).is_prefix_of(UPSERT_FOLDER@),
{
    reveal_with_fuel(comma_list, 9);
    reveal_strlit("SELECT id, name, is_pinned, sort_order FROM list_folders WHERE deleted_at IS NULL ORDER BY sort_order");
    reveal_strlit("INSERT INTO list_folders (id, name, is_pinned, sort_order, created_at, updated_at) VALUES (?1, ?2, ?3, ?4, ?5, ?6) ON CONFLICT(id) DO UPDATE SET name = excluded.name, is_pinned = excluded.is_pinned, sort_order = excluded.sort_order, updated_at = excluded.updated_at");
    reveal_strlit("SELECT ");
    reveal_strlit(" FROM list_folders WHERE deleted_at IS NULL ORDER BY sort_order");
    reveal_strlit("INSERT INTO list_folders (");
    reveal_strlit(") VALUES (?1, ?2, ?3, ?4, ?5, ?6)");
    reveal_strlit(", ");
    reveal_folder_select_columns();
    reveal_folder_write_columns();
    assert(SELECT_FOLDERS@ =~= "SELECT "@ + comma_list(folder_select_columns()) + " FROM list_folders WHERE deleted_at IS NULL ORDER BY sort_order"@);
    let pre = "INSERT INTO list_folders ("@ + comma_list(folder_write_columns()) + ") VALUES (?1, ?2, ?3, ?4, ?5, ?6)"@;
    assert(pre =~= UPSERT_FOLDER@.take(pre.len() as int));
}

/// Each field of a folder is read from the column its query names for it, and
/// written where its write names that column.
pub proof fn law_folder_fields_follow_column_names(row: Seq<CellView>, f: ListFolderView, now: Seq<char>)
    ensures
        folder_select_columns()[0] == "id"@ && read_folder(row).id == str_of(cell_at(row, 0))
            && folder_write_columns()[0] == "id"@ && folder_params(f, now)[0] == CellView::Text(f.id),
        folder_select_columns()[1] == "name"@ && read_folder(row).name == str_of(cell_at(row, 1))
            && folder_write_columns()[1] == "name"@ && folder_params(f, now)[1] == CellView::Text(f.name),
        folder_select_columns()[2] == "is_pinned"@ && read_folder(row).is_pinned == bool_of(cell_at(row, 2))
            && folder_write_columns()[2] == "is_pinned"@ && folder_params(f, now)[2] == CellView::Integer(flag(f.is_pinned)),
        folder_select_columns()[3] == "sort_order"@ && read_folder(row).sort_order == i32_of(cell_at(row, 3))
            && folder_write_columns()[3] == "sort_order"@ && folder_params(f, now)[3] == CellView::Integer(f.sort_order as i64),
{
    reveal_folder_select_columns();
    reveal_folder_write_columns();
    reveal_strlit("id");
    reveal_strlit("is_pinned");
    reveal_strlit("name");
    reveal_strlit("sort_order");
}

/// The columns the note group query selects, in order.
pub open spec fn group_select_columns() -> Seq<Seq<char>> {
    seq!["id"@, "list_id"@, "name"@, "sort_order"@]
}

proof fn reveal_group_select_columns()
    ensures
        group_select_columns() == seq![seq!['i', 'd'], seq!['l', 'i', 's', 't', '_', 'i', 'd'], seq!['n', 'a', 'm', 'e'], seq!['s', 'o', 'r', 't', '_', 'o', 'r', 'd', 'e', 'r']],
{
    reveal_strlit("id");
    reveal_strlit("list_id");
    reveal_strlit("name");
    reveal_strlit("sort_order");
    assert(group_select_columns() =~~= seq![seq!['i', 'd'], seq!['l', 'i', 's', 't', '_', 'i', 'd'], seq!['n', 'a', 'm', 'e'], seq!['s', 'o', 'r', 't', '_', 'o', 'r', 'd', 'e', 'r']]);
}

/// The columns the note group write names, in order; it binds `?k` to the `k`-th.
pub open spec fn group_write_columns() -> Seq<Seq<char>> {
    seq!["id"@, "list_id"@, "name"@, "sort_order"@, "created_at"@, "updated_at"@]
}

proof fn reveal_group_write_columns()
    ensures
        group_write_columns() == seq![seq!['i', 'd'], seq!['l', 'i', 's', 't', '_', 'i', 'd'], seq!['n', 'a', 'm', 'e'], seq!['s', 'o', 'r', 't', '_', 'o', 'r', 'd', 'e', 'r'], seq!['c', 'r', 'e', 'a', 't', 'e', 'd', '_', 'a', 't'], seq!['u', 'p', 'd', 'a', 't', 'e', 'd', '_', 'a', 't']],
{
    reveal_strlit("id");
    reveal_strlit("list_id");
    reveal_strlit("name");
    reveal_strlit("sort_order");
    reveal_strlit("created_at");
    reveal_strlit("updated_at");
    assert(group_write_columns() =~~= seq![seq!['i', 'd'], seq!['l', 'i', 's', 't', '_', 'i', 'd'], seq!['n', 'a', 'm', 'e'], seq!['s', 'o', 'r', 't', '_', 'o', 'r', 'd', 'e', 'r'], seq!['c', 'r', 'e', 'a', 't', 'e', 'd', '_', 'a', 't'], seq!['u', 'p', 'd', 'a', 't', 'e', 'd', '_', 'a', 't']]);
}

/// The note group query and write name the columns `group_select_columns` and
/// `group_write_columns` list, in that order, and the write binds `?k` to its
/// `k`-th column.
pub proof fn law_group_queries_name_the_columns()
    ensures
        SELECT_NOTE_GROUPS@ == "SELECT "@ + comma_list(group_select_columns()) + " FROM list_note_groups WHERE deleted_at IS NULL ORDER BY sort_order"@,
        ("INSERT INTO list_note_groups ("@ + comma_list(group_write_columns()) + ") VALUES (?1, ?2, ?3, ?4, ?5, ?6)"@).is_prefix_of(UPSERT_NOTE_GROUP@),
{
    reveal_with_fuel(comma_list, 9);
    reveal_strlit("SELECT id, list_id, name, sort_order FROM list_note_groups WHERE deleted_at IS NULL ORDER BY sort_order");
    reveal_strlit("INSERT INTO list_note_groups (id, list_id, name, sort_order, created_at, updated_at) VALUES (?1, ?2, ?3, ?4, ?5, ?6) ON CONFLICT(id) DO UPDATE SET name = excluded.name, sort_order = excluded.sort_order, updated_at = excluded.updated_at");
    reveal_strlit("SELECT ");
    reveal_strlit(" FROM list_note_groups WHERE deleted_at IS NULL ORDER BY sort_order");
    reveal_strlit("INSERT INTO list_note_groups (");
    reveal_strlit(") VALUES (?1, ?2, ?3, ?4, ?5, ?6)");
    reveal_strlit(", ");
    reveal_group_select_columns();
    reveal_group_write_columns();
    assert(SELECT_NOTE_GROUPS@ =~= "SELECT "@ + comma_list(group_select_columns()) + " FROM list_note_groups WHERE deleted_at IS NULL ORDER BY sort_order"@);
    let pre = "INSERT INTO list_note_groups ("@ + comma_list(group_write_columns()) + ") VALUES (?1, ?2, ?3, ?4, ?5, ?6)"@;
    assert(pre =~= UPSERT_NOTE_GROUP@.take(pre.len() as int));
}

/// Each field of a note group is read from the column its query names for it, and
/// written where its write names that column.
pub proof fn law_group_fields_follow_column_names(row: Seq<CellView>, g: ListNoteGroupView, now: Seq<char>)
    ensures
        group_select_columns()[0] == "id"@ && read_group(row).id == str_of(cell_at(row, 0))
            && group_write_columns()[0] == "id"@ && group_params(g, now)[0] == CellView::Text(g.id),
        group_select_columns()[1] == "list_id"@ && read_group(row).list_id == str_of(cell_at(row, 1))
            && group_write_columns()[1] == "list_id"@ && group_params(g, now)[1] == CellView::Text(g.list_id),
        group_select_columns()[2] == "name"@ && read_group(row).name == str_of(cell_at(row, 2))
            && group_write_columns()[2] == "name"@ && group_params(g, now)[2] == CellView::Text(g.name),
        group_select_columns()[3] == "sort_order"@ && read_group(row).sort_order == i32_of(cell_at(row, 3))
            && group_write_columns()[3] == "sort_order"@ && group_params(g, now)[3] == CellView::Integer(g.sort_order as i64),
{
    reveal_group_select_columns();
    reveal_group_write_columns();
    reveal_strlit("id");
    reveal_strlit("list_id");
    reveal_strlit("name");
    reveal_strlit("sort_order");
}

/// The columns the template query selects, in order.
pub open spec fn template_select_columns() -> Seq<Seq<char>> {
    seq!["id"@, "name"@, "content"@]
}

proof fn reveal_template_select_columns()
    ensures
        template_select_columns() == seq![seq!['i', 'd'], seq!['n', 'a', 'm', 'e'], seq!['c', 'o', 'n', 't', 'e', 'n', 't']],
{
    reveal_strlit("id");
    reveal_strlit("name");
    reveal_strlit("content");
    assert(template_select_columns() =~~= seq![seq!['i', 'd'], seq!['n', 'a', 'm', 'e'], seq!['c', 'o', 'n', 't', 'e', 'n', 't']]);
}

/// The columns the template write names, in order; it binds `?k` to the `k`-th.
pub open spec fn template_write_columns() -> Seq<Seq<char>> {
    seq!["id"@, "name"@, "content"@, "created_at"@, "updated_at"@]
}

proof fn reveal_template_write_columns()
    ensures
        template_write_columns() == seq![seq!['i', 'd'], seq!['n', 'a', 'm', 'e'], seq!['c', 'o', 'n', 't', 'e', 'n', 't'], seq!['c', 'r', 'e', 'a', 't', 'e', 'd', '_', 'a', 't'], seq!['u', 'p', 'd', 'a', 't', 'e', 'd', '_', 'a', 't']],
{
    reveal_strlit("id");
    reveal_strlit("name");
    reveal_strlit("content");
    reveal_strlit("created_at");
    reveal_strlit("updated_at");
    assert(template_write_columns() =~~= seq![seq!['i', 'd'], seq!['n', 'a', 'm', 'e'], seq!['c', 'o', 'n', 't', 'e', 'n', 't'], seq!['c', 'r', 'e', 'a', 't', 'e', 'd', '_', 'a', 't'], seq!['u', 'p', 'd', 'a', 't', 'e', 'd', '_', 'a', 't']]);
}

/// The template query and write name the columns `template_select_columns` and
/// `template_write_columns` list, in that order, and the write binds `?k` to its
/// `k`-th column.
pub proof fn law_template_queries_name_the_columns()
    ensures
        SELECT_TEMPLATES@ == "SELECT "@ + comma_list(template_select_columns()) + " FROM list_templates WHERE deleted_at IS NULL"@,
        ("INSERT INTO list_templates ("@ + comma_list(template_write_columns()) + ") VALUES (?1, ?2, ?3, ?4, ?5)"@).is_prefix_of(UPSERT_TEMPLATE@),
{
    reveal_with_fuel(comma_list, 8);
    reveal_strlit("SELECT id, name, content FROM list_templates WHERE deleted_at IS NULL");
    reveal_strlit("INSERT INTO list_templates (id, name, content, created_at, updated_at) VALUES (?1, ?2, ?3, ?4, ?5) ON CONFLICT(id) DO UPDATE SET name = excluded.name, content = excluded.content, updated_at = excluded.updated_at");
    reveal_strlit("SELECT ");
    reveal_strlit(" FROM list_templates WHERE deleted_at IS NULL");
    reveal_strlit("INSERT INTO list_templates (");
    reveal_strlit(") VALUES (?1, ?2, ?3, ?4, ?5)");
    reveal_strlit(", ");
    reveal_template_select_columns();
    reveal_template_write_columns();
    assert(SELECT_TEMPLATES@ =~= "SELECT "@ + comma_list(template_select_columns()) + " FROM list_templates WHERE deleted_at IS NULL"@);
    let pre = "INSERT INTO list_templates ("@ + comma_list(template_write_columns()) + ") VALUES (?1, ?2, ?3, ?4, ?5)"@;
    assert(pre =~= UPSERT_TEMPLATE@.take(pre.len() as int));
}

/// Each field of a template is read from the column its query names for it, and
/// written where its write names that column.
pub proof fn law_template_fields_follow_column_names(row: Seq<CellView>, t: ListTemplateView, now: Seq<char>)
    ensures
        template_select_columns()[0] == "id"@ && read_template(row).id == str_of(cell_at(row, 0))
            && template_write_columns()[0] == "id"@ && template_params(t, now)[0] == CellView::Text(t.id),
        template_select_columns()[1] == "name"@ && read_template(row).name == str_of(cell_at(row, 1))
            && template_write_columns()[1] == "name"@ && template_params(t, now)[1] == CellView::Text(t.name),
        template_select_columns()[2] == "content"@ && read_template(row).content == str_of(cell_at(row, 2))
            && template_write_columns()[2] == "content"@ && template_params(t, now)[2] == CellView::Text(t.content),
{
    reveal_template_select_columns();
    reveal_template_write_columns();
    reveal_strlit("content");
    reveal_strlit("id");
    reveal_strlit("name");
}

/// The columns the list query selects, in order.
pub open spec fn list_select_columns() -> Seq<Seq<char>> {
    seq!["l.id"@, "l.name"@, "l.icon"@, "l.color"@, "l.view_type"@, "l.folder_id"@, "l.is_pinned"@, "l.sort_order"@, "COALESCE(n.cnt, 0) AS item_count"@]
}

proof fn reveal_list_select_columns()
    ensures
        list_select_columns() == seq![seq!['l', '.', 'i', 'd'], seq!['l', '.', 'n', 'a', 'm', 'e'], seq!['l', '.', 'i', 'c', 'o', 'n'], seq!['l', '.', 'c', 'o', 'l', 'o', 'r'], seq!['l', '.', 'v', 'i', 'e', 'w', '_', 't', 'y', 'p', 'e'], seq!['l', '.', 'f', 'o', 'l', 'd', 'e', 'r', '_', 'i', 'd'], seq!['l', '.', 'i', 's', '_', 'p', 'i', 'n', 'n', 'e', 'd'], seq!['l', '.', 's', 'o', 'r', 't', '_', 'o', 'r', 'd', 'e', 'r'], seq!['C', 'O', 'A', 'L', 'E', 'S', 'C', 'E', '(', 'n', '.', 'c', 'n', 't', ',', ' ', '0', ')', ' ', 'A', 'S', ' ', 'i', 't', 'e', 'm', '_', 'c', 'o', 'u', 'n', 't']],
{
    reveal_strlit("l.id");
    reveal_strlit("l.name");
    reveal_strlit("l.icon");
    reveal_strlit("l.color");
    reveal_strlit("l.view_type");
    reveal_strlit("l.folder_id");
    reveal_strlit("l.is_pinned");
    reveal_strlit("l.sort_order");
    reveal_strlit("COALESCE(n.cnt, 0) AS item_count");
    assert(list_select_columns() =~~= seq![seq!['l', '.', 'i', 'd'], seq!['l', '.', 'n', 'a', 'm', 'e'], seq!['l', '.', 'i', 'c', 'o', 'n'], seq!['l', '.', 'c', 'o', 'l', 'o', 'r'], seq!['l', '.', 'v', 'i', 'e', 'w', '_', 't', 'y', 'p', 'e'], seq!['l', '.', 'f', 'o', 'l', 'd', 'e', 'r', '_', 'i', 'd'], seq!['l', '.', 'i', 's', '_', 'p', 'i', 'n', 'n', 'e', 'd'], seq!['l', '.', 's', 'o', 'r', 't', '_', 'o', 'r', 'd', 'e', 'r'], seq!['C', 'O', 'A', 'L', 'E', 'S', 'C', 'E', '(', 'n', '.', 'c', 'n', 't', ',', ' ', '0', ')', ' ', 'A', 'S', ' ', 'i', 't', 'e', 'm', '_', 'c', 'o', 'u', 'n', 't']]);
}

/// The columns the list write names, in order; it binds `?k` to the `k`-th.
pub open spec fn list_write_columns() -> Seq<Seq<char>> {
    seq!["id"@, "name"@, "icon"@, "color"@, "view_type"@, "folder_id"@, "is_pinned"@, "sort_order"@, "created_at"@, "updated_at"@]
}

proof fn reveal_list_write_columns()
    ensures
        list_write_columns() == seq![seq!['i', 'd'], seq!['n', 'a', 'm', 'e'], seq!['i', 'c', 'o', 'n'], seq!['c', 'o', 'l', 'o', 'r'], seq!['v', 'i', 'e', 'w', '_', 't', 'y', 'p', 'e'], seq!['f', 'o', 'l', 'd', 'e', 'r', '_', 'i', 'd'], seq!['i', 's', '_', 'p', 'i', 'n', 'n', 'e', 'd'], seq!['s', 'o', 'r', 't', '_', 'o', 'r', 'd', 'e', 'r'], seq!['c', 'r', 'e', 'a', 't', 'e', 'd', '_', 'a', 't'], seq!['u', 'p', 'd', 'a', 't', 'e', 'd', '_', 'a', 't']],
{
    reveal_strlit("id");
    reveal_strlit("name");
    reveal_strlit("icon");
    reveal_strlit("color");
    reveal_strlit("view_type");
    reveal_strlit("folder_id");
    reveal_strlit("is_pinned");
    reveal_strlit("sort_order");
    reveal_strlit("created_at");
    reveal_strlit("updated_at");
    assert(list_write_columns() =~~= seq![seq!['i', 'd'], seq!['n', 'a', 'm', 'e'], seq!['i', 'c', 'o', 'n'], seq!['c', 'o', 'l', 'o', 'r'], seq!['v', 'i', 'e', 'w', '_', 't', 'y', 'p', 'e'], seq!['f', 'o', 'l', 'd', 'e', 'r', '_', 'i', 'd'], seq!['i', 's', '_', 'p', 'i', 'n', 'n', 'e', 'd'], seq!['s', 'o', 'r', 't', '_', 'o', 'r', 'd', 'e', 'r'], seq!['c', 'r', 'e', 'a', 't', 'e', 'd', '_', 'a', 't'], seq!['u', 'p', 'd', 'a', 't', 'e', 'd', '_', 'a', 't']]);
}

/// The list query and write name the columns `list_select_columns` and
/// `list_write_columns` list, in that order, and the write binds `?k` to its
/// `k`-th column.
pub proof fn law_list_queries_name_the_columns()
    ensures
        SELECT_LISTS@ == "SELECT "@ + comma_list(list_select_columns()) + " FROM list_lists l LEFT JOIN (SELECT list_id, COUNT(*) AS cnt FROM list_notes WHERE deleted_at IS NULL GROUP BY list_id) n ON n.list_id = l.id WHERE l.deleted_at IS NULL ORDER BY l.is_pinned DESC, l.sort_order"@,
        ("INSERT INTO list_lists ("@ + comma_list(list_write_columns()) + ") VALUES (?1, ?2, ?3, ?4, ?5, ?6, ?7, ?8, ?9, ?10)"@).is_prefix_of(UPSERT_LIST@),
{
    reveal_with_fuel(comma_list, 13);
    reveal_strlit("SELECT l.id, l.name, l.icon, l.color, l.view_type, l.folder_id, l.is_pinned, l.sort_order, COALESCE(n.cnt, 0) AS item_count FROM list_lists l LEFT JOIN (SELECT list_id, COUNT(*) AS cnt FROM list_notes WHERE deleted_at IS NULL GROUP BY list_id) n ON n.list_id = l.id WHERE l.deleted_at IS NULL ORDER BY l.is_pinned DESC, l.sort_order");
    reveal_strlit("INSERT INTO list_lists (id, name, icon, color, view_type, folder_id, is_pinned, sort_order, created_at, updated_at) VALUES (?1, ?2, ?3, ?4, ?5, ?6, ?7, ?8, ?9, ?10) ON CONFLICT(id) DO UPDATE SET name = excluded.name, icon = excluded.icon, color = excluded.color, view_type = excluded.view_type, folder_id = excluded.folder_id, is_pinned = excluded.is_pinned, sort_order = excluded.sort_order, updated_at = excluded.updated_at");
    reveal_strlit("SELECT ");
    reveal_strlit(" FROM list_lists l LEFT JOIN (SELECT list_id, COUNT(*) AS cnt FROM list_notes WHERE deleted_at IS NULL GROUP BY list_id) n ON n.list_id = l.id WHERE l.deleted_at IS NULL ORDER BY l.is_pinned DESC, l.sort_order");
    reveal_strlit("INSERT INTO list_lists (");
    reveal_strlit(") VALUES (?1, ?2, ?3, ?4, ?5, ?6, ?7, ?8, ?9, ?10)");
    reveal_strlit(", ");
    reveal_list_select_columns();
    reveal_list_write_columns();
    assert(SELECT_LISTS@ =~= "SELECT "@ + comma_list(list_select_columns()) + " FROM list_lists l LEFT JOIN (SELECT list_id, COUNT(*) AS cnt FROM list_notes WHERE deleted_at IS NULL GROUP BY list_id) n ON n.list_id = l.id WHERE l.deleted_at IS NULL ORDER BY l.is_pinned DESC, l.sort_order"@);
    let pre = "INSERT INTO list_lists ("@ + comma_list(list_write_columns()) + ") VALUES (?1, ?2, ?3, ?4, ?5, ?6, ?7, ?8, ?9, ?10)"@;
    assert(pre =~= UPSERT_LIST@.take(pre.len() as int));
}

/// Each field of a list is read from the column its query names for it, and
/// written where its write names that column.
pub proof fn law_list_fields_follow_column_names(row: Seq<CellView>, l: ListListView, now: Seq<char>)
    ensures
        list_select_columns()[0] == "l.id"@ && read_list(row).id == str_of(cell_at(row, 0))
            && list_write_columns()[0] == "id"@ && list_params(l, now)[0] == CellView::Text(l.id),
        list_select_columns()[1] == "l.name"@ && read_list(row).name == str_of(cell_at(row, 1))
            && list_write_columns()[1] == "name"@ && list_params(l, now)[1] == CellView::Text(l.name),
        list_select_columns()[2] == "l.icon"@ && read_list(row).icon == str_of(cell_at(row, 2))
            && list_write_columns()[2] == "icon"@ && list_params(l, now)[2] == CellView::Text(l.icon),
        list_select_columns()[3] == "l.color"@ && read_list(row).color == str_of(cell_at(row, 3))
            && list_write_columns()[3] == "color"@ && list_params(l, now)[3] == CellView::Text(l.color),
        list_select_columns()[4] == "l.view_type"@ && read_list(row).view_type == view_type_or_default(str_of(cell_at(row, 4)))
            && list_write_columns()[4] == "view_type"@ && list_params(l, now)[4] == CellView::Text(l.view_type),
        list_select_columns()[5] == "l.folder_id"@ && read_list(row).folder_id == opt_str_of(cell_at(row, 5))
            && list_write_columns()[5] == "folder_id"@ && list_params(l, now)[5] == opt_text_view(l.folder_id),
        list_select_columns()[6] == "l.is_pinned"@ && read_list(row).is_pinned == bool_of(cell_at(row, 6))
            && list_write_columns()[6] == "is_pinned"@ && list_params(l, now)[6] == CellView::Integer(flag(l.is_pinned)),
        list_select_columns()[7] == "l.sort_order"@ && read_list(row).sort_order == i32_of(cell_at(row, 7))
            && list_write_columns()[7] == "sort_order"@ && list_params(l, now)[7] == CellView::Integer(l.sort_order as i64),
        list_select_columns()[8] == "COALESCE(n.cnt, 0) AS item_count"@ && read_list(row).item_count == i64_of(cell_at(row, 8)),
{
    reveal_list_select_columns();
    reveal_list_write_columns();
    reveal_strlit("COALESCE(n.cnt, 0) AS item_count");
    reveal_strlit("color");
    reveal_strlit("folder_id");
    reveal_strlit("icon");
    reveal_strlit("id");
    reveal_strlit("is_pinned");
    reveal_strlit("l.color");
    reveal_strlit("l.folder_id");
    reveal_strlit("l.icon");
    reveal_strlit("l.id");
    reveal_strlit("l.is_pinned");
    reveal_strlit("l.name");
    reveal_strlit("l.sort_order");
    reveal_strlit("l.view_type");
    reveal_strlit("name");
    reveal_strlit("sort_order");
    reveal_strlit("view_type");
}

} // verus!
