use std::collections::HashMap;

use c123chain_cdk::codec::{Sink, Source};
use c123chain_cdk::runtime::{Event, ExternalApi, ItemValue, ReadPlan, Store, INITIAL_READ};
use c123chain_cdk::types::{Address, Error};

/// Stands in for the host's storage: a read copies from `offset` into the
/// buffer and reports the whole value's size, or -1 when the key is absent.
struct FakeHost {
    db: HashMap<Vec<u8>, Vec<u8>>,
    reads: usize,
}

impl FakeHost {
    fn read_db(&mut self, key: &[u8], buf: &mut [u8], offset: usize) -> i32 {
        self.reads += 1;
        match self.db.get(key) {
            None => -1,
            Some(v) => {
                let rest = &v[offset.min(v.len())..];
                let n = rest.len().min(buf.len());
                buf[..n].copy_from_slice(&rest[..n]);
                v.len() as i32
            }
        }
    }
}

fn set_db(host: &mut FakeHost, store: &Store, key: &[u8], value: &[u8]) {
    host.db.insert(store.gen_key(key), value.to_vec());
}

fn get_db(host: &mut FakeHost, store: &Store, key: &[u8]) -> Option<Vec<u8>> {
    let key = store.gen_key(key);
    let mut first = vec![0u8; INITIAL_READ];
    let size = host.read_db(&key, &mut first, 0);
    match Store::after_first_read(first, size) {
        ReadPlan::Missing => None,
        ReadPlan::Done(v) => Some(v),
        ReadPlan::ReadRest { mut value, offset } => {
            host.read_db(&key, &mut value[offset..], offset);
            Some(value)
        }
    }
}

#[test]
fn set_then_get_returns_value() {
    let mut host = FakeHost { db: HashMap::new(), reads: 0 };
    let store = Store::new();
    set_db(&mut host, &store, b"k", b"v");
    assert_eq!(get_db(&mut host, &store, b"k"), Some(b"v".to_vec()));
    assert_eq!(host.reads, 1);
    assert_eq!(get_db(&mut host, &store, b"absent"), None);
}

#[test]
fn long_value_takes_a_second_read() {
    let mut host = FakeHost { db: HashMap::new(), reads: 0 };
    let store = Store::new();
    let long: Vec<u8> = (0..100u8).collect();
    set_db(&mut host, &store, b"big", &long);
    assert_eq!(get_db(&mut host, &store, b"big"), Some(long));
    assert_eq!(host.reads, 2);
}

#[test]
fn first_read_plans() {
    let first: Vec<u8> = (0..32u8).collect();
    assert!(matches!(Store::after_first_read(first.clone(), -1), ReadPlan::Missing));
    match Store::after_first_read(first.clone(), 3) {
        ReadPlan::Done(v) => assert_eq!(v, vec![0, 1, 2]),
        _ => panic!("expected the whole value"),
    }
    match Store::after_first_read(first.clone(), 32) {
        ReadPlan::Done(v) => assert_eq!(v, first),
        _ => panic!("expected the whole value"),
    }
    match Store::after_first_read(first.clone(), 34) {
        ReadPlan::ReadRest { value, offset } => {
            assert_eq!(offset, 32);
            assert_eq!(value.len(), 34);
            assert_eq!(&value[..32], &first[..]);
            assert_eq!(&value[32..], &[0, 0]);
        }
        _ => panic!("expected a second read"),
    }
}

#[test]
fn gen_key_keeps_key_under_empty_prefix() {
    assert_eq!(Store::new().gen_key(b"abc"), b"abc".to_vec());
}

#[test]
fn event_round_trips_through_wire_form() {
    let mut event = Event::new("t");
    event.add("msg", ItemValue::Str("hello"));
    let raw = event.to_vec();
    let mut src = Source::new(&raw);
    let back = Event::decode(&mut src).unwrap();
    assert_eq!(back.event_type, "t");
    assert_eq!(back.attr.len(), 1);
    assert_eq!(back.attr[0].0, "msg");
    assert!(matches!(back.attr[0].1, ItemValue::Str("hello")));
    assert!(src.is_eof());
}

#[test]
fn event_wire_form_is_exact() {
    let mut event = Event::new("t");
    event.add("n", ItemValue::Int64(-1));
    event.add("s", ItemValue::Str("x"));
    let mut expected = Sink::new(0);
    expected.write_str("t");
    expected.write_u32(2);
    expected.write_str("n");
    expected.write_bool(false);
    expected.write_i64(-1);
    expected.write_str("s");
    expected.write_bool(true);
    expected.write_str("x");
    assert_eq!(event.to_vec(), expected.into());
}

#[test]
fn event_with_unknown_tag_is_irregular() {
    let mut sink = Sink::new(0);
    sink.write_str("t");
    sink.write_u32(1);
    sink.write_str("k");
    sink.write_u32(7);
    let raw = sink.into();
    let mut src = Source::new(&raw);
    assert!(matches!(Event::decode(&mut src), Err(Error::IrregularData)));
}

#[test]
fn block_header_and_power_decoding() {
    let api = ExternalApi::new();
    let mut raw = Vec::new();
    raw.extend_from_slice(&7u64.to_le_bytes());
    raw.extend_from_slice(&1_600_000_000u64.to_le_bytes());
    let header = api.block_header_from(&raw);
    assert_eq!((header.height, header.timestamp), (7, 1_600_000_000));
    assert_eq!(api.total_power_from(&12345u128.to_le_bytes()), 12345);
    let mut powers = Vec::new();
    powers.extend_from_slice(&1u128.to_le_bytes());
    powers.extend_from_slice(&u128::MAX.to_le_bytes());
    assert_eq!(api.validator_powers_from(&powers, 2), vec![1, u128::MAX]);
}

#[test]
fn validator_power_request_lists_addresses() {
    let api = ExternalApi::new();
    let a = Address::new(&[1u8; 20]).unwrap();
    let b = Address::default();
    let raw = api.validator_power_request(&[&a, &b]);
    let mut expected = Sink::new(0);
    expected.write_u32(2);
    expected.write_bytes(&[1u8; 20]);
    expected.write_bytes(&[0u8; 20]);
    assert_eq!(raw, expected.into());
}
