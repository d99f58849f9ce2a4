use cql::{Cql, Decoded, ErrorKind, Fault, Reader, ResponseBody};

#[test]
fn resp_ready() {
    let v = vec![131, 0, 0, 1, 2, 0, 0, 0, 0];
    let mut s = Reader::new(v.as_slice());
    let resp = s.read_cql_response();
    assert!(resp.is_ok())
}

#[test]
fn resp_error() {
    let v = vec![
        131, 0, 0, 0, 0, 0, 0, 0, 49, 0, 0, 36, 0, 0, 35, 67, 97, 110, 110, 111, 116, 32, 97,
        100, 100, 32, 101, 120, 105, 115, 116, 105, 110, 103, 32, 107, 101, 121, 115, 112, 97,
        99, 101, 32, 34, 114, 117, 115, 116, 34, 0, 4, 114, 117, 115, 116, 0, 0,
    ];
    let mut s = Reader::new(v.as_slice());
    let resp = s.read_cql_response();
    assert!(resp.is_ok())
}

#[test]
fn resp_schema_change() {
    let v = vec![
        131, 0, 0, 0, 8, 0, 0, 0, 29, 0, 0, 0, 5, 0, 7, 67, 82, 69, 65, 84, 69, 68, 0, 8, 75,
        69, 89, 83, 80, 65, 67, 69, 0, 4, 114, 117, 115, 116,
    ];

    let mut s = Reader::new(v.as_slice());
    let resp = s.read_cql_response();
    assert!(resp.is_ok())
}

#[test]
fn resp_schema_change_table() {
    let v = vec![
        131, 0, 0, 0, 8, 0, 0, 0, 32, 0, 0, 0, 5, 0, 7, 67, 82, 69, 65, 84, 69, 68, 0, 5, 84,
        65, 66, 76, 69, 0, 4, 114, 117, 115, 116, 0, 4, 116, 101, 115, 116,
    ];

    let mut s = Reader::new(v.as_slice());
    let resp = s.read_cql_response();
    assert!(resp.is_ok())
}

#[test]
fn resp_result_void() {
    let v = vec![131, 0, 0, 0, 8, 0, 0, 0, 4, 0, 0, 0, 1];

    let mut s = Reader::new(v.as_slice());
    let resp = s.read_cql_response();
    assert!(resp.is_ok())
}

#[test]
fn resp_result_select() {
    let v = vec![
        131, 0, 0, 0, 8, 0, 0, 0, 59, 0, 0, 0, 2, 0, 0, 0, 1, 0, 0, 0, 2, 0, 4, 114, 117, 115,
        116, 0, 4, 116, 101, 115, 116, 0, 2, 105, 100, 0, 13, 0, 5, 118, 97, 108, 117, 101, 0,
        8, 0, 0, 0, 1, 0, 0, 0, 4, 97, 115, 100, 102, 0, 0, 0, 4, 63, 158, 4, 25,
    ];

    let mut s = Reader::new(v.as_slice());
    let resp = s.read_cql_response();
    assert!(resp.is_ok())
}

fn select_frame() -> Vec<u8> {
    vec![
        131, 0, 0, 0, 8, 0, 0, 0, 59, 0, 0, 0, 2, 0, 0, 0, 1, 0, 0, 0, 2, 0, 4, 114, 117, 115,
        116, 0, 4, 116, 101, 115, 116, 0, 2, 105, 100, 0, 13, 0, 5, 118, 97, 108, 117, 101, 0,
        8, 0, 0, 0, 1, 0, 0, 0, 4, 97, 115, 100, 102, 0, 0, 0, 4, 63, 158, 4, 25,
    ]
}

#[test]
fn select_rows_and_columns() {
    let v = select_frame();
    let mut s = Reader::new(v.as_slice());
    let resp = s.read_cql_response().unwrap();
    assert_eq!(resp.version(), 131);
    assert_eq!(resp.stream(), 0);
    assert_eq!(resp.opcode(), cql::OpcodeResp::Result);
    assert_eq!(s.position(), v.len());
    match resp.body() {
        ResponseBody::Rows(rows) => {
            assert_eq!(rows.metadata().column_count(), 2);
            assert_eq!(rows.metadata().flags(), 1);
            assert_eq!(rows.metadata().row_metadata().len(), 2);
            assert_eq!(rows.metadata().row_metadata()[0].col_name(), "id");
            assert_eq!(rows.metadata().row_metadata()[1].col_type(), cql::ColumnType::Float);
            assert_eq!(rows.rows().len(), 1);
            let row = &rows.rows()[0];
            match row.get_column("id") {
                Some(Cql::CqlString(Some(t))) => assert_eq!(t, "asdf"),
                other => panic!("unexpected {:?}", other),
            }
            match row.get_column("value") {
                Some(Cql::Cqlf32(Some(bits))) => {
                    assert_eq!(bits, 0x3F9E0419);
                    assert!((f32::from_bits(bits) - 1.2345).abs() < 1e-6);
                }
                other => panic!("unexpected {:?}", other),
            }
            assert!(row.get_column("missing").is_none());
        }
        other => panic!("unexpected {:?}", other),
    }
}

#[test]
fn error_body_fields() {
    let v = vec![131, 0, 0, 5, 0, 0, 0, 0, 10, 0, 0, 0x10, 0, 0, 4, 111, 111, 112, 115];
    let mut s = Reader::new(v.as_slice());
    let resp = s.read_cql_response().unwrap();
    assert_eq!(resp.stream(), 5);
    match resp.body() {
        ResponseBody::Error(code, msg) => {
            assert_eq!(*code, 0x1000);
            assert_eq!(msg, "oops");
        }
        other => panic!("unexpected {:?}", other),
    }
}

#[test]
fn negative_stream_and_keyspace() {
    let v = vec![131, 0, 0xff, 0xfe, 8, 0, 0, 0, 9, 0, 0, 0, 3, 0, 3, 107, 115, 49];
    let mut s = Reader::new(v.as_slice());
    let resp = s.read_cql_response().unwrap();
    assert_eq!(resp.stream(), -2);
    match resp.body() {
        ResponseBody::Keyspace(ks) => assert_eq!(ks, "ks1"),
        other => panic!("unexpected {:?}", other),
    }
}

#[test]
fn auth_and_ready_bodies() {
    let v = vec![131, 0, 0, 1, 3, 0, 0, 0, 5, 0, 3, 80, 119, 100];
    let mut s = Reader::new(v.as_slice());
    match s.read_cql_response().unwrap().body() {
        ResponseBody::Auth(a) => assert_eq!(a, "Pwd"),
        other => panic!("unexpected {:?}", other),
    }
    let v = vec![131, 0, 0, 1, 2, 0, 0, 0, 0, 99];
    let mut s = Reader::new(v.as_slice());
    assert!(matches!(s.read_cql_response().unwrap().body(), ResponseBody::Ready));
    assert_eq!(s.position(), 9);
}

#[test]
fn request_opcode_reads_as_error_body() {
    let v = vec![131, 0, 0, 0, 7, 0, 0, 0, 6, 0, 0, 0, 1, 0, 0];
    let mut s = Reader::new(v.as_slice());
    let resp = s.read_cql_response().unwrap();
    assert_eq!(resp.opcode(), cql::OpcodeResp::Error);
    assert!(matches!(resp.body(), ResponseBody::Error(1, _)));
}

#[test]
fn truncated_header_is_eof() {
    let v = vec![131, 0, 0];
    let mut s = Reader::new(v.as_slice());
    let e = s.read_cql_response().unwrap_err();
    assert_eq!(e.error_kind(), ErrorKind::UnexpectedEof);
}

#[test]
fn short_body_is_eof() {
    let v = vec![131, 0, 0, 0, 8, 0, 0, 0, 4, 0, 0];
    let mut s = Reader::new(v.as_slice());
    assert_eq!(s.read_cql_response().unwrap_err().error_kind(), ErrorKind::UnexpectedEof);
}

#[test]
fn short_integer_in_body_is_io() {
    let v = vec![131, 0, 0, 0, 8, 0, 0, 0, 3, 0, 0, 0];
    let mut s = Reader::new(v.as_slice());
    assert_eq!(s.read_cql_response().unwrap_err().error_kind(), ErrorKind::Io);
}

#[test]
fn invalid_utf8_is_utf8_error() {
    let v = vec![131, 0, 0, 0, 3, 0, 0, 0, 4, 0, 2, 0xff, 0xfe];
    let mut s = Reader::new(v.as_slice());
    assert_eq!(s.read_cql_response().unwrap_err().error_kind(), ErrorKind::Utf8);
}

#[test]
fn unsupported_opcode_is_fault() {
    let v = vec![131, 0, 0, 0, 6, 0, 0, 0, 0];
    let mut s = Reader::new(v.as_slice());
    assert!(matches!(s.decode_cql_response(), Decoded::Panicked(Fault::InvalidResponse)));
}

#[test]
fn unknown_result_code_is_fault() {
    let v = vec![131, 0, 0, 0, 8, 0, 0, 0, 4, 0, 0, 0, 9];
    let mut s = Reader::new(v.as_slice());
    assert!(matches!(s.decode_cql_response(), Decoded::Panicked(Fault::UnknownResultCode(9))));
}

/// A rows result with one `int` column named "n" of the given value bytes.
fn int_rows(value: &[u8]) -> Vec<u8> {
    let mut body = vec![0, 0, 0, 2, 0, 0, 0, 1, 0, 0, 0, 1, 0, 1, 107, 0, 1, 116, 0, 1, 110, 0, 9, 0, 0, 0, 1];
    body.extend_from_slice(value);
    let mut frame = vec![131, 0, 0, 0, 8, 0, 0, 0, body.len() as u8];
    frame.extend_from_slice(&body);
    frame
}

#[test]
fn int_column_values() {
    let v = int_rows(&[0, 0, 0, 4, 0xff, 0xff, 0xff, 0xfd]);
    let mut s = Reader::new(v.as_slice());
    match s.read_cql_response().unwrap().body() {
        ResponseBody::Rows(rows) => {
            assert!(matches!(rows.rows()[0].get_column("n"), Some(Cql::Cqli32(Some(-3)))));
        }
        other => panic!("unexpected {:?}", other),
    }
    let v = int_rows(&[0xff, 0xff, 0xff, 0xff]);
    let mut s = Reader::new(v.as_slice());
    match s.read_cql_response().unwrap().body() {
        ResponseBody::Rows(rows) => {
            assert!(matches!(rows.rows()[0].get_column("n"), Some(Cql::Cqli32(None))));
        }
        other => panic!("unexpected {:?}", other),
    }
}

#[test]
fn int_column_of_bad_length_is_fault() {
    let v = int_rows(&[0, 0, 0, 8, 0, 0, 0, 0, 0, 0, 0, 0]);
    let mut s = Reader::new(v.as_slice());
    assert!(matches!(s.decode_cql_response(), Decoded::Panicked(Fault::InvalidIntLength(8))));
}

#[test]
fn rows_result_read_directly() {
    let v = vec![0, 0, 0, 1, 0, 0, 0, 1, 0, 1, 107, 0, 1, 116, 0, 1, 110, 0, 2, 0, 0, 0, 2, 0, 0, 0, 0, 0, 0, 0, 7, 0, 0, 0, 0, 0, 0, 0, 8];
    let mut s = Reader::new(v.as_slice());
    let rows = s.read_cql_rows().unwrap();
    assert_eq!(rows.rows().len(), 2);
    assert!(matches!(rows.rows()[0].get_column("n"), Some(Cql::Cqli64(Some(7)))));
    assert!(matches!(rows.rows()[1].get_column("n"), Some(Cql::Cqli64(Some(8)))));
    assert_eq!(s.position(), v.len());
}

#[test]
fn per_column_names_metadata() {
    let v = vec![0, 0, 0, 0, 0, 0, 0, 1, 0, 2, 107, 115, 0, 1, 116, 0, 1, 99, 0, 0x20, 0, 9];
    let mut s = Reader::new(v.as_slice());
    let md = s.read_cql_metadata().unwrap();
    assert_eq!(md.column_count(), 1);
    let col = &md.row_metadata()[0];
    assert_eq!(col.col_name(), "c");
    assert_eq!(col.col_type(), cql::ColumnType::List);
}

#[test]
fn frame_is_read_from_its_own_bytes() {
    let mut v = vec![131, 0, 0, 0, 8, 0, 0, 0, 4, 0, 0, 0, 1];
    v.extend_from_slice(&[1, 2, 3]);
    let mut s = Reader::new(v.as_slice());
    assert!(matches!(s.read_cql_response().unwrap().body(), ResponseBody::Void));
    assert_eq!(s.position(), 13);
    assert_eq!(cql::frame_body_length(&v), 4);
}

#[test]
fn failed_body_leaves_reader_at_frame_end() {
    let v = vec![131, 0, 0, 0, 8, 0, 0, 0, 3, 0, 0, 0, 7, 7];
    let mut s = Reader::new(v.as_slice());
    assert_eq!(s.read_cql_response().unwrap_err().error_kind(), ErrorKind::Io);
    assert_eq!(s.position(), 12);
}

#[test]
fn truncated_frame_leaves_reader_at_end() {
    let v = vec![131, 0, 0, 0, 8, 0, 0, 0, 20, 0, 0];
    let mut s = Reader::new(v.as_slice());
    assert_eq!(s.read_cql_response().unwrap_err().error_kind(), ErrorKind::UnexpectedEof);
    assert_eq!(s.position(), v.len());
    let v = vec![131, 0, 0];
    let mut s = Reader::new(v.as_slice());
    assert_eq!(s.read_cql_response().unwrap_err().error_kind(), ErrorKind::UnexpectedEof);
    assert_eq!(s.position(), 3);
}
