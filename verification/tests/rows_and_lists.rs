use fishworker::list::{
    duplicate_list_plan, duplicate_list_with_fresh_ids, list_load_all, list_move_list,
    list_move_note, make_copy_id, ListFolder, ListList, ListNote, ListNoteGroup, ListTemplate,
};
use fishworker::row::{
    query_all, reorder_params, soft_delete_params, CellValue, FromRow, Row, RowExt,
};

fn text(s: &str) -> CellValue {
    CellValue::Text(s.to_string())
}

fn integer(n: i64) -> CellValue {
    CellValue::Integer(n)
}

fn real_value(truncated: i64, t: &str) -> CellValue {
    CellValue::Real { truncated, text: t.to_string() }
}

#[test]
fn lenient_reads_of_each_type() {
    let row = Row {
        cells: vec![
            text("abc"),
            integer(42),
            real_value(3, "3.75"),
            CellValue::Null,
            text("   "),
            text("2024-01-02T03:04:05Z"),
            text("nope"),
            text("-17"),
            CellValue::Blob(vec![1, 2]),
        ],
    };
    assert_eq!(row.parse_str(0), "abc");
    assert_eq!(row.parse_str(1), "42");
    assert_eq!(row.parse_str(2), "3.75");
    assert_eq!(row.parse_str(3), "");
    assert_eq!(row.parse_str(8), "");
    assert_eq!(row.parse_str(99), "");
    assert_eq!(row.parse_opt_str(0), Some("abc".to_string()));
    assert_eq!(row.parse_opt_str(1), Some("42".to_string()));
    assert_eq!(row.parse_opt_str(2), None);
    assert_eq!(row.parse_opt_str(4), None);
    assert_eq!(row.parse_i64(1), 42);
    assert_eq!(row.parse_i64(2), 3);
    assert_eq!(row.parse_i64(5), 1704164645000);
    assert_eq!(row.parse_i64(6), 0);
    assert_eq!(row.parse_i64(7), -17);
    assert_eq!(row.parse_opt_i64(3), None);
    assert_eq!(row.parse_opt_i64(4), None);
    assert_eq!(row.parse_opt_i64(6), None);
    assert_eq!(row.parse_opt_i64(7), Some(-17));
    assert_eq!(row.parse_i32(7), -17);
    assert_eq!(row.parse_i32(6), 0);
    assert!(row.parse_bool(1));
    assert!(!row.parse_bool(3));
}

#[test]
fn typed_reads_with_defaults() {
    let row = Row { cells: vec![text("t"), CellValue::Null, integer(9)] };
    assert_eq!(row.get_text(0), Some("t".to_string()));
    assert_eq!(row.get_text(1), None);
    assert_eq!(row.get_int(2), Some(9));
    assert_eq!(row.text_or_default(1), "");
    assert_eq!(row.text_or_default(2), "");
    assert_eq!(row.int_or_zero(0), 0);
    assert_eq!(row.int_or_zero(2), 9);
}

fn folder_row() -> Row {
    Row { cells: vec![text("f1"), text("Work"), integer(1), integer(3)] }
}

fn list_row() -> Row {
    Row {
        cells: vec![
            text("l1"),
            text("Groceries"),
            text("🛒"),
            text("#ff0000"),
            text(""),
            text("f1"),
            integer(0),
            integer(2),
            integer(5),
        ],
    }
}

#[test]
fn list_rows_read_into_items() {
    let f = ListFolder::from_row(&folder_row()).unwrap();
    assert_eq!(f, ListFolder { id: "f1".into(), name: "Work".into(), is_pinned: true, sort_order: 3 });
    let l = ListList::from_row(&list_row()).unwrap();
    assert_eq!(l.view_type, "list");
    assert_eq!(l.folder_id.as_deref(), Some("f1"));
    assert_eq!(l.item_count, 5);
    assert!(!l.is_pinned);
}

#[test]
fn folder_upsert_reads_back() {
    let f = ListFolder { id: "f9".into(), name: "Home".into(), is_pinned: false, sort_order: -2 };
    let p = f.upsert_params("2024-05-01 10:00:00.000");
    assert_eq!(p.cells.len(), 6);
    let back = ListFolder::from_row(&Row { cells: p.cells[..4].to_vec() }).unwrap();
    assert_eq!(back, f);
}

#[test]
fn template_upsert_reads_back() {
    let t = ListTemplate { id: "t1".into(), name: "Weekly".into(), content: "- [ ] plan".into() };
    let p = t.upsert_params("now");
    assert_eq!(p.cells[3], text("now"));
    let back = ListTemplate::from_row(&Row { cells: p.cells[..3].to_vec() }).unwrap();
    assert_eq!(back, t);
}

#[test]
fn note_upsert_binds_its_write_time() {
    let n = ListNote {
        id: "n1".into(),
        list_id: "l1".into(),
        group_id: None,
        title: "T".into(),
        content: "C".into(),
        is_pinned: true,
        sort_order: 4,
        created_at: 1,
        updated_at: 2,
    };
    let p = n.upsert_params(1700000000000);
    assert_eq!(p.cells[2], CellValue::Null);
    assert_eq!(p.cells[5], integer(1));
    assert_eq!(p.cells[7], integer(1700000000000));
    assert_eq!(p.cells[8], integer(1700000000000));
}

#[test]
fn load_all_reads_every_query() {
    let group_row = Row { cells: vec![text("g1"), text("l1"), text("Todo"), integer(0)] };
    let note_row = Row {
        cells: vec![
            text("n1"),
            text("l1"),
            text("g1"),
            text("Milk"),
            text("2L"),
            integer(0),
            integer(1),
            integer(100),
            integer(200),
        ],
    };
    let template_row = Row { cells: vec![text("t1"), text("Tpl"), text("x")] };
    let d = list_load_all(
        &vec![folder_row()],
        &vec![list_row()],
        &vec![group_row],
        &vec![note_row],
        &vec![template_row],
    )
    .unwrap();
    assert_eq!(d.folders.len(), 1);
    assert_eq!(d.lists[0].name, "Groceries");
    assert_eq!(d.note_groups[0], ListNoteGroup { id: "g1".into(), list_id: "l1".into(), name: "Todo".into(), sort_order: 0 });
    assert_eq!(d.notes[0].group_id.as_deref(), Some("g1"));
    assert_eq!(d.notes[0].created_at, 100);
    assert_eq!(d.templates[0].content, "x");
    let empty: Vec<ListFolder> = query_all(&Vec::new()).unwrap();
    assert!(empty.is_empty());
}

#[test]
fn reorder_and_soft_delete_values() {
    let items = vec![("a".to_string(), 2), ("b".to_string(), 0)];
    let rows = reorder_params(&items, &text("now"), None);
    assert_eq!(rows.len(), 2);
    assert_eq!(rows[0].cells, vec![integer(2), text("now"), text("a")]);
    assert_eq!(rows[1].cells, vec![integer(0), text("now"), text("b")]);
    let scoped = reorder_params(&items, &integer(7), Some("role-1"));
    assert_eq!(scoped[1].cells, vec![integer(0), integer(7), text("b"), text("role-1")]);
    assert_eq!(soft_delete_params(&integer(5), "x").cells, vec![integer(5), integer(5), text("x")]);
}

#[test]
fn moving_lists_and_notes() {
    assert_eq!(
        list_move_list("l1", &None, 3, "now").cells,
        vec![CellValue::Null, integer(3), text("now"), text("l1")]
    );
    assert_eq!(
        list_move_note("n1", "l2", &Some("g".to_string()), 1, 99).cells,
        vec![text("l2"), text("g"), integer(1), integer(99), text("n1")]
    );
}

fn new_list() -> ListList {
    ListList {
        id: "copy".into(),
        name: "Groceries (copy)".into(),
        icon: "".into(),
        color: "#000000".into(),
        view_type: "list".into(),
        folder_id: None,
        is_pinned: true,
        sort_order: 9,
        item_count: 0,
    }
}

#[test]
fn duplicating_copies_groups_and_relinks_notes() {
    assert_eq!(make_copy_id("note", 1700, &['a', 'b']), "note-1700-ab");
    let groups = vec![
        Row { cells: vec![text("g1"), text("Todo"), integer(0)] },
        Row { cells: vec![text("g2"), text("Done"), integer(1)] },
    ];
    let notes = vec![
        Row { cells: vec![text("n1"), text("g2"), text("Milk"), text("2L"), integer(1), integer(5)] },
        Row { cells: vec![text("n2"), CellValue::Null, text("Eggs"), text(""), integer(0), integer(6)] },
        Row { cells: vec![text("n3"), text("gone"), text("Tea"), text(""), integer(0), integer(7)] },
    ];
    let gt = vec![vec!['a'], vec!['b']];
    let nt = vec![vec!['x'], vec!['y'], vec!['z']];
    let plan = duplicate_list_plan(&new_list(), &groups, &notes, "now", 1700, &gt, &nt);
    assert_eq!(plan.list.cells[0], text("copy"));
    assert_eq!(plan.groups[0].cells, vec![text("group-1700-a"), text("copy"), text("Todo"), integer(0), text("now"), text("now")]);
    assert_eq!(plan.groups[1].cells[0], text("group-1700-b"));
    assert_eq!(
        plan.notes[0].cells,
        vec![text("note-1700-x"), text("copy"), text("group-1700-b"), text("Milk"), text("2L"), integer(1), integer(5), integer(1700), integer(1700)]
    );
    assert_eq!(plan.notes[1].cells[2], CellValue::Null);
    assert_eq!(plan.notes[2].cells[2], CellValue::Null);
}

#[test]
fn duplicating_draws_fresh_ids() {
    let groups = vec![Row { cells: vec![text("g1"), text("Todo"), integer(0)] }];
    let notes = vec![Row { cells: vec![text("n1"), text("g1"), text("Milk"), text(""), integer(0), integer(0)] }];
    let plan = duplicate_list_with_fresh_ids(&new_list(), &groups, &notes, "now", 42);
    let gid = match &plan.groups[0].cells[0] {
        CellValue::Text(s) => s.clone(),
        _ => panic!("group id is text"),
    };
    assert!(gid.starts_with("group-42-"));
    assert_eq!(gid.len(), "group-42-".len() + 8);
    assert_eq!(plan.notes[0].cells[2], CellValue::Text(gid));
}
