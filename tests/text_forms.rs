use c123chain_cdk::errors::Error;
use c123chain_cdk::hex;
use c123chain_cdk::types::{Address, ContractResult};

#[test]
fn hex_encode_is_lowercase_pairs() {
    assert_eq!(hex::encode(&[0x00, 0xab, 0x1f, 0xff]), "00ab1fff");
    assert_eq!(hex::encode(&[]), "");
}

#[test]
fn hex_decode_accepts_both_cases() {
    assert_eq!(hex::decode(b"00aB1F"), Ok(vec![0x00, 0xab, 0x1f]));
}

#[test]
fn hex_decode_errors() {
    assert_eq!(hex::decode(b"a"), Err("unexpected hex encoding length"));
    assert_eq!(hex::decode(b""), Err("unexpected hex encoding length"));
    assert_eq!(hex::decode(b"abc"), Err("unexpected hex encoding length"));
    assert_eq!(hex::decode(b"0g"), Err("unexpected hex encoding char"));
}

#[test]
fn hex_digit_values() {
    assert_eq!(hex::from_hex_u8(b'7'), Some(7));
    assert_eq!(hex::from_hex_u8(b'c'), Some(12));
    assert_eq!(hex::from_hex_u8(b'C'), Some(12));
    assert_eq!(hex::from_hex_u8(b'z'), None);
}

#[test]
fn address_text_round_trip() {
    let bytes: Vec<u8> = (0..20u8).map(|i| i * 13).collect();
    let addr = Address::new(&bytes).unwrap();
    let text = addr.to_string();
    assert_eq!(text.len(), 42);
    assert!(text.starts_with("0x"));
    assert_eq!(&text[2..], hex::encode(&bytes));
    assert_eq!(Address::from_str(&text), Ok(addr));
    assert_eq!(addr.as_bytes(), &bytes[..]);
    assert_eq!(Address::len(), 20);
}

#[test]
fn address_boundary_values_round_trip() {
    for b in [0u8, 1, 0xff] {
        let addr = Address::new(&[b; 20]).unwrap();
        assert_eq!(Address::from_str(&addr.to_string()), Ok(addr));
    }
    assert_eq!(Address::default().to_string(), format!("0x{}", "0".repeat(40)));
}

#[test]
fn address_text_errors() {
    let non_hex = format!("0x{}", "Z".repeat(40));
    assert_eq!(Address::from_str(&non_hex), Err("unexpected hex encoding char"));
    let short = format!("0x{}", "a".repeat(39));
    assert_eq!(short.len(), 41);
    assert_eq!(Address::from_str(&short), Err("unexpected address string length"));
    let no_prefix = "a".repeat(42);
    assert_eq!(Address::from_str(&no_prefix), Err("unexpected address string prefix"));
}

#[test]
fn address_new_needs_twenty_bytes() {
    assert!(Address::new(&[1u8; 19]).is_none());
    assert!(Address::new(&[1u8; 21]).is_none());
    assert!(Address::new(&[1u8; 20]).is_some());
}

#[test]
fn contract_result_wire_form() {
    let ok = ContractResult::Success(vec![5, 6]);
    assert_eq!(ok.to_vec(), vec![1, 2, 0, 0, 0, 5, 6]);
    let err = ContractResult::Failure("no".to_string());
    assert_eq!(err.to_vec(), vec![0, 2, 0, 0, 0, b'n', b'o']);
}

#[test]
fn contract_errors_render_messages() {
    assert_eq!(Error::ContractErr { msg: "bad" }.to_string(), "Contract error: bad");
    assert_eq!(Error::NotFound { msg: "key" }.to_string(), "key not found");
    assert_eq!(Error::ParseErr { msg: "x" }.to_string(), "Error parsing x");
    assert_eq!(Error::SerializeErr { msg: "y" }.to_string(), "Error serializing y");
    assert_eq!(
        Error::ValidationErr { field: "f", msg: "m" }.to_string(),
        "Invalid f: m"
    );
    assert_eq!(
        Error::NullPointer {}.to_string(),
        "Received null pointer, refuse to use"
    );
}
