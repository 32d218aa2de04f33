use dbwire::cursor::StmtHandle;
use dbwire::error::Error;
use dbwire::table::HandleTable;
use dbwire::value::Value;

fn three_rows() -> StmtHandle {
    // Two columns, three rows: (1, "a"), (2, "b"), (3, "c").
    let buf = vec![
        Value::Int(1),
        Value::Text(String::from("a")),
        Value::Int(2),
        Value::Text(String::from("b")),
        Value::Int(3),
        Value::Text(String::from("c")),
    ];
    let cols = vec![String::from("id"), String::from("name")];
    let mut h = StmtHandle::new();
    h.query(cols, 2, 3, buf);
    h
}

#[test]
fn fresh_unit_has_no_columns_and_no_rows() {
    let mut h = StmtHandle::new();
    assert!(h.col_names().is_empty());
    assert!(matches!(h.fetch_row(), Err(Error::Eof)));
}

#[test]
fn fetch_row_walks_the_rows_then_signals_eof() {
    let mut h = three_rows();
    assert_eq!(h.col_names(), vec![String::from("id"), String::from("name")]);
    assert_eq!(
        h.fetch_row().unwrap(),
        vec![Value::Int(1), Value::Text(String::from("a"))]
    );
    assert_eq!(
        h.fetch_row().unwrap(),
        vec![Value::Int(2), Value::Text(String::from("b"))]
    );
    assert_eq!(
        h.fetch_row().unwrap(),
        vec![Value::Int(3), Value::Text(String::from("c"))]
    );
    assert!(matches!(h.fetch_row(), Err(Error::Eof)));
    assert!(matches!(h.fetch_row(), Err(Error::Eof)));
}

#[test]
fn partial_batch_then_eof_forever() {
    let mut h = three_rows();
    // Ask for five rows: only three exist, so the batch is short of the ask.
    let (stride, out) = h.fetch_rows(5).unwrap();
    assert_eq!(stride, 2);
    assert_eq!(out.len(), 6);
    // Every later fetch, of any count, answers Eof without re-running.
    assert!(matches!(h.fetch_rows(5), Err(Error::Eof)));
    assert!(matches!(h.fetch_rows(1), Err(Error::Eof)));
    assert!(matches!(h.fetch_row(), Err(Error::Eof)));
}

#[test]
fn bounded_batches_stream_in_order() {
    let mut h = three_rows();
    let (stride, first) = h.fetch_rows(2).unwrap();
    assert_eq!(stride, 2);
    assert_eq!(
        first,
        vec![
            Value::Int(1),
            Value::Text(String::from("a")),
            Value::Int(2),
            Value::Text(String::from("b")),
        ]
    );
    let (_, second) = h.fetch_rows(2).unwrap();
    assert_eq!(second, vec![Value::Int(3), Value::Text(String::from("c"))]);
    assert!(matches!(h.fetch_rows(2), Err(Error::Eof)));
}

#[test]
fn requery_replaces_the_attached_result() {
    let mut h = three_rows();
    let _ = h.fetch_rows(10);
    assert!(matches!(h.fetch_row(), Err(Error::Eof)));
    h.query(vec![String::from("n")], 1, 1, vec![Value::Int(9)]);
    assert_eq!(h.col_names(), vec![String::from("n")]);
    assert_eq!(h.fetch_row().unwrap(), vec![Value::Int(9)]);
    assert!(matches!(h.fetch_row(), Err(Error::Eof)));
}

#[test]
fn closed_handle_is_not_found_and_never_reused() {
    let mut t = HandleTable::new();
    let h0 = t.open(three_rows()).unwrap();
    let h1 = t.open(three_rows()).unwrap();
    assert_eq!(h0, 0);
    assert_eq!(h1, 1);

    assert!(t.close(h0).is_ok());
    // Closing again, or fetching through the closed handle, is NotFound.
    assert!(matches!(t.close(h0), Err(Error::NotFound)));
    assert!(matches!(t.fetch_row_at(h0), Err(Error::NotFound)));
    assert!(matches!(t.fetch_rows_at(h0, 3), Err(Error::NotFound)));

    // The other handle is untouched, and a new one gets a fresh number.
    assert!(t.fetch_row_at(h1).is_ok());
    let h2 = t.open(three_rows()).unwrap();
    assert_eq!(h2, 2);
    assert!(matches!(t.fetch_row_at(h0), Err(Error::NotFound)));
}

#[test]
fn unknown_handle_is_not_found() {
    let mut t = HandleTable::new();
    assert!(matches!(t.fetch_row_at(7), Err(Error::NotFound)));
    assert!(matches!(t.close(7), Err(Error::NotFound)));
}
