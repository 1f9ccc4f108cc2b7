use c123chain_cdk::codec::{Sink, Source};
use c123chain_cdk::types::Error;

fn encoded<F: FnOnce(&mut Sink)>(f: F) -> Vec<u8> {
    let mut sink = Sink::new(0);
    f(&mut sink);
    sink.into()
}

#[test]
fn round_trip_u32_boundaries() {
    for v in [0u32, 1, u32::MAX] {
        let buf = encoded(|s| s.write_u32(v));
        assert_eq!(buf.len(), 4);
        let mut src = Source::new(&buf);
        assert_eq!(src.read::<u32>(), Ok(v));
        assert!(src.is_eof());
    }
}

#[test]
fn round_trip_i32_boundaries() {
    for v in [0i32, 1, -1, i32::MIN, i32::MAX] {
        let buf = encoded(|s| s.write_i32(v));
        let mut src = Source::new(&buf);
        assert_eq!(src.read::<i32>(), Ok(v));
    }
}

#[test]
fn round_trip_u64_boundaries() {
    for v in [0u64, 1, u64::MAX] {
        let buf = encoded(|s| s.write_u64(v));
        assert_eq!(buf.len(), 8);
        let mut src = Source::new(&buf);
        assert_eq!(src.read::<u64>(), Ok(v));
    }
}

#[test]
fn round_trip_i64_boundaries() {
    for v in [0i64, 1, -1, i64::MIN, i64::MAX] {
        let buf = encoded(|s| s.write_i64(v));
        let mut src = Source::new(&buf);
        assert_eq!(src.read::<i64>(), Ok(v));
    }
}

#[test]
fn round_trip_u128_boundaries() {
    for v in [0u128, 1, u128::MAX] {
        let buf = encoded(|s| s.write_u128(v));
        assert_eq!(buf.len(), 16);
        let mut src = Source::new(&buf);
        assert_eq!(src.read::<u128>(), Ok(v));
    }
}

#[test]
fn round_trip_i128_boundaries() {
    for v in [0i128, 1, -1, i128::MIN, i128::MAX] {
        let buf = encoded(|s| s.write_i128(v));
        let mut src = Source::new(&buf);
        assert_eq!(src.read::<i128>(), Ok(v));
    }
}

#[test]
fn round_trip_bool_and_text() {
    let buf = encoded(|s| {
        s.write_bool(true);
        s.write_bool(false);
        s.write_str("héllo");
        s.write_bytes(&[9, 8, 7]);
        s.write_str("");
    });
    let mut src = Source::new(&buf);
    assert_eq!(src.read::<bool>(), Ok(true));
    assert_eq!(src.read::<bool>(), Ok(false));
    assert_eq!(src.read::<String>(), Ok("héllo".to_string()));
    assert_eq!(src.read::<&[u8]>(), Ok(&[9u8, 8, 7][..]));
    assert_eq!(src.read::<&str>(), Ok(""));
    assert!(src.is_eof());
}

#[test]
fn little_endian_layout_is_exact() {
    let buf = encoded(|s| {
        s.write_u32(0x0102_0304);
        s.write_i32(-2);
        s.write_bytes(b"ab");
    });
    assert_eq!(buf, vec![4, 3, 2, 1, 0xfe, 0xff, 0xff, 0xff, 2, 0, 0, 0, b'a', b'b']);
}

#[test]
fn sink_as_bytes_matches_into() {
    let mut sink = Sink::new(8);
    sink.write_bool(true);
    assert_eq!(sink.as_bytes(), &[1u8][..]);
    assert_eq!(sink.into(), vec![1u8]);
}

#[test]
fn declared_length_past_end_is_eof() {
    // Declares ten bytes but holds three.
    let buf = vec![10u8, 0, 0, 0, 1, 2, 3];
    let mut src = Source::new(&buf);
    assert_eq!(src.read::<&[u8]>(), Err(Error::UnexpectedEOF));
    let mut src = Source::new(&buf);
    assert_eq!(src.read::<String>(), Err(Error::UnexpectedEOF));
}

#[test]
fn short_integer_is_eof() {
    let buf = vec![1u8, 2, 3];
    let mut src = Source::new(&buf);
    assert_eq!(src.read::<u32>(), Err(Error::UnexpectedEOF));
    let empty: Vec<u8> = Vec::new();
    let mut src = Source::new(&empty);
    assert!(src.is_empty());
    assert!(src.is_eof());
    assert_eq!(src.read::<bool>(), Err(Error::UnexpectedEOF));
}

#[test]
fn invalid_utf8_is_refused() {
    let buf = encoded(|s| s.write_bytes(&[0xff, 0xfe]));
    let mut src = Source::new(&buf);
    assert_eq!(src.read::<&str>(), Err(Error::InvalidUtf8));
}

#[test]
fn tuple_decodes_in_declared_order() {
    let buf = encoded(|s| {
        s.write_u32(7);
        s.write_str("abc");
        s.write_i64(-5);
    });
    let mut src = Source::new(&buf);
    let got = src.read::<(u32, String, i64)>();
    assert_eq!(got, Ok((7, "abc".to_string(), -5)));
}

#[test]
fn swapped_encoding_never_matches_silently() {
    let buf = encoded(|s| {
        s.write_str("abc");
        s.write_u32(7);
        s.write_i64(-5);
    });
    let mut src = Source::new(&buf);
    let got = src.read::<(u32, String, i64)>();
    assert_ne!(got, Ok((7, "abc".to_string(), -5)));
    assert!(got.is_err());
}

#[test]
fn twelve_element_tuple_decodes() {
    let buf = encoded(|s| {
        for i in 0..12u32 {
            s.write_u32(i);
        }
    });
    let mut src = Source::new(&buf);
    let got = src.read::<(u32, u32, u32, u32, u32, u32, u32, u32, u32, u32, u32, u32)>();
    assert_eq!(got, Ok((0, 1, 2, 3, 4, 5, 6, 7, 8, 9, 10, 11)));
}
