use cql::{fill_step, read_full, Cql, Decoded, ErrorKind, FillStep, Fault, Reader};

#[test]
fn fixed_width_reads() {
    let v = vec![0x01, 0x02, 0xff, 0xfe, 0x80, 0, 0, 0, 0, 0, 0, 0, 0, 0, 1, 0xff];
    let mut r = Reader::new(v.as_slice());
    assert_eq!(r.read_u16().unwrap(), 0x0102);
    assert_eq!(r.read_i16().unwrap(), -2);
    assert_eq!(r.read_i32().unwrap(), i32::MIN);
    assert_eq!(r.read_u64().unwrap(), 0x0000_0000_0000_01ff);
    assert_eq!(r.position(), 16);
    assert_eq!(r.read_u8().unwrap_err().error_kind(), ErrorKind::Io);
}

#[test]
fn signed_and_unsigned_wide_reads() {
    let v = vec![0xff, 0xff, 0xff, 0xff, 0xff, 0xff, 0xff, 0xfe, 0x12, 0x34, 0x56, 0x78];
    let mut r = Reader::new(v.as_slice());
    assert_eq!(r.read_i64().unwrap(), -2);
    assert_eq!(r.read_u32().unwrap(), 0x12345678);
    assert_eq!(r.remaining(), 0);
}

#[test]
fn read_full_copies_what_is_left() {
    let v = vec![1, 2, 3];
    let mut r = Reader::new(v.as_slice());
    let mut buf = vec![0u8; 5];
    let e = read_full(&mut r, buf.as_mut_slice()).unwrap_err();
    assert_eq!(e.error_kind(), ErrorKind::UnexpectedEof);
    assert_eq!(buf, vec![1, 2, 3, 0, 0]);
    assert_eq!(r.position(), 3);

    let mut r = Reader::new(v.as_slice());
    let mut buf = vec![0u8; 2];
    read_full(&mut r, buf.as_mut_slice()).unwrap();
    assert_eq!(buf, vec![1, 2]);
    assert_eq!(r.position(), 2);
}

#[test]
fn read_partial_into_buffer() {
    let v = vec![9, 8, 7];
    let mut r = Reader::new(v.as_slice());
    let mut buf = vec![0u8; 4];
    assert_eq!(r.read(buf.as_mut_slice(), 2), 2);
    assert_eq!(buf, vec![0, 0, 9, 8]);
}

#[test]
fn bytes_and_strings() {
    let v = vec![0, 3, 97, 98, 99, 0, 0, 0, 2, 104, 105, 0xff, 0xff, 0xff, 0xff, 5, 6];
    let mut r = Reader::new(v.as_slice());
    assert_eq!(r.read_cql_str().unwrap(), "abc");
    assert_eq!(r.read_cql_long_str().unwrap(), Some("hi".to_string()));
    assert_eq!(r.read_cql_long_str().unwrap(), None);
    assert_eq!(r.read_bytes(2).unwrap(), vec![5, 6]);
    assert_eq!(r.read_bytes(1).unwrap_err().error_kind(), ErrorKind::UnexpectedEof);
}

#[test]
fn long_string_below_minus_one_is_fault() {
    let v = vec![0xff, 0xff, 0xff, 0xfe];
    let mut r = Reader::new(v.as_slice());
    assert!(matches!(r.decode_cql_long_str(), Decoded::Panicked(Fault::CapacityOverflow)));
}

#[test]
fn cql_clone_keeps_value() {
    let v = Cql::CqlList(Some(vec![Cql::Cqli32(Some(1)), Cql::CqlString(Some("x".to_string()))]));
    match v.clone() {
        Cql::CqlList(Some(items)) => {
            assert_eq!(items.len(), 2);
            assert!(matches!(items[0], Cql::Cqli32(Some(1))));
            assert!(matches!(&items[1], Cql::CqlString(Some(s)) if s == "x"));
        }
        other => panic!("unexpected {:?}", other),
    }
}

#[test]
fn fill_steps() {
    assert_eq!(fill_step(0, 5, 0), FillStep::EndOfInput);
    assert_eq!(fill_step(2, 5, 3), FillStep::Filled(5));
    assert_eq!(fill_step(1, 5, 2), FillStep::Filled(3));
}

#[test]
fn short_integer_leaves_reader_at_end() {
    let v = vec![1, 2, 3];
    let mut r = Reader::new(v.as_slice());
    assert_eq!(r.read_u32().unwrap_err().error_kind(), ErrorKind::Io);
    assert_eq!(r.position(), 3);
}

#[test]
fn bad_utf8_leaves_reader_after_the_string() {
    let v = vec![0, 1, 0xff, 9];
    let mut r = Reader::new(v.as_slice());
    assert_eq!(r.read_cql_str().unwrap_err().error_kind(), ErrorKind::Utf8);
    assert_eq!(r.position(), 3);
}
