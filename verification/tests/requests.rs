use cql::{column_type, consistency, opcode, query, startup, ColumnType, Consistency, OpcodeResp, CQL_VERSION};

#[test]
fn query_frame_bytes() {
    let q = query(0, "SELECT 1", Consistency::One);
    assert_eq!(q.len(), 24);
    let mut buf = Vec::new();
    q.serialize(&mut buf).unwrap();
    let mut expected = vec![3, 0, 0, 0, 7, 0, 0, 0, 15, 0, 0, 0, 8];
    expected.extend_from_slice(b"SELECT 1");
    expected.extend_from_slice(&[0, 1, 0]);
    assert_eq!(buf, expected);
    assert_eq!(buf.len(), q.len());
}

#[test]
fn query_frame_with_negative_stream_and_utf8() {
    let q = query(-1, "é", Consistency::EachQuorum);
    let mut buf = vec![42];
    q.serialize(&mut buf).unwrap();
    assert_eq!(buf, vec![42, 3, 0, 0xff, 0xff, 7, 0, 0, 0, 9, 0, 0, 0, 2, 0xc3, 0xa9, 0, 7, 0]);
}

#[test]
fn startup_frame_bytes() {
    let s = startup();
    assert_eq!(s.len(), 31);
    let mut buf = Vec::new();
    s.serialize(&mut buf).unwrap();
    let mut expected = vec![CQL_VERSION, 0, 0, 1, 1, 0, 0, 0, 22, 0, 1, 0, 11];
    expected.extend_from_slice(b"CQL_VERSION");
    expected.extend_from_slice(&[0, 5]);
    expected.extend_from_slice(b"3.0.0");
    assert_eq!(buf, expected);
}

#[test]
fn consistency_codes() {
    assert_eq!(consistency(0), Consistency::Any);
    assert_eq!(consistency(4), Consistency::Quorum);
    assert_eq!(consistency(7), Consistency::EachQuorum);
    assert_eq!(consistency(8), Consistency::Unknown);
    assert_eq!(consistency(0xffff), Consistency::Unknown);
    for c in [Consistency::Any, Consistency::One, Consistency::Two, Consistency::Three, Consistency::Quorum,
        Consistency::All, Consistency::LocalQuorum, Consistency::EachQuorum] {
        assert_eq!(consistency(c.code()), c);
    }
    assert_eq!(Consistency::Unknown.code(), 8);
}

#[test]
fn column_type_codes() {
    assert_eq!(column_type(0x0001), ColumnType::Ascii);
    assert_eq!(column_type(0x000D), ColumnType::VarChar);
    assert_eq!(column_type(0x0021), ColumnType::CqlMap);
    assert_eq!(column_type(0x0022), ColumnType::CqlSet);
    assert_eq!(column_type(0x0011), ColumnType::Unknown);
    assert_eq!(column_type(ColumnType::Unknown.code()), ColumnType::Unknown);
    assert_eq!(ColumnType::List.code(), 0x20);
}

#[test]
fn opcode_codes() {
    assert_eq!(opcode(0x02), OpcodeResp::Ready);
    assert_eq!(opcode(0x08), OpcodeResp::Result);
    assert_eq!(opcode(0x0C), OpcodeResp::Event);
    assert_eq!(opcode(0x01), OpcodeResp::Error);
    assert_eq!(opcode(OpcodeResp::Exec.code()), OpcodeResp::Exec);
}

#[test]
fn other_requests_carry_their_opcodes() {
    let o = cql::options();
    let a = cql::auth(vec![b"user".to_vec()]);
    assert!(format!("{:?}", o).contains("Opts"));
    assert!(format!("{:?}", a).contains("Cred"));
}

#[test]
fn query_body_reads_back() {
    let q = query(4, "SELECT * FROM t", Consistency::LocalQuorum);
    let mut buf = Vec::new();
    q.serialize(&mut buf).unwrap();
    let body = &buf[9..];
    assert_eq!(body.len(), 15 + 7);
    let mut r = cql::Reader::new(body);
    assert_eq!(r.read_cql_long_str().unwrap(), Some("SELECT * FROM t".to_string()));
    assert_eq!(consistency(r.read_u16().unwrap()), Consistency::LocalQuorum);
    assert_eq!(r.read_u8().unwrap(), 0);
    assert_eq!(r.remaining(), 0);
}
