//! Lowercase hexadecimal text for byte strings.
use vstd::prelude::*;
use crate::text::{ascii_chars, ascii_string, is_ascii_bytes};

verus! {

/// Value of an ASCII hex digit of either case.
pub open spec fn hex_value(c: u8) -> Option<u8> {
    if 48 <= c <= 57 {
        Some((c - 48) as u8)
    } else if 97 <= c <= 102 {
        Some((c - 87) as u8)
    } else if 65 <= c <= 70 {
        Some((c - 55) as u8)
    } else {
        None
    }
}

/// Lowercase ASCII digit of a value below sixteen.
pub open spec fn hex_digit(v: u8) -> u8 {
    if v < 10 {
        (48 + v) as u8
    } else {
        (87 + v) as u8
    }
}

/// Two lowercase digits per byte, high half first.
pub open spec fn hex_encoding(b: Seq<u8>) -> Seq<u8> {
    Seq::new(
        2 * b.len(),
        |i: int|
            if i % 2 == 0 {
                hex_digit(b[i / 2] / 16)
            } else {
                hex_digit(b[i / 2] % 16)
            },
    )
}

pub open spec fn all_hex(raw: Seq<u8>) -> bool {
    forall|i: int| 0 <= i < raw.len() ==> (#[trigger] hex_value(raw[i])).is_some()
}

/// One byte per pair of digits, high half first.
pub open spec fn hex_decoding(raw: Seq<u8>) -> Seq<u8> {
    Seq::new(
        raw.len() / 2,
        |i: int| (hex_value(raw[2 * i]).unwrap() * 16 + hex_value(raw[2 * i + 1]).unwrap()) as u8,
    )
}

/// A text of hex digits is decodable when it has an even, non-zero length.
pub open spec fn hex_length_ok(len: int) -> bool {
    len >= 2 && len % 2 == 0
}

pub proof fn lemma_hex_digit(v: u8)
    requires
        0 <= v < 16,
    ensures
        hex_value(hex_digit(v)) == Some(v),
        hex_digit(v) < 128,
{
}

/// Hex text is ASCII.
pub proof fn lemma_hex_encoding_ascii(b: Seq<u8>)
    ensures
        is_ascii_bytes(hex_encoding(b)),
{
    let e = hex_encoding(b);
    assert forall|i: int| 0 <= i < e.len() implies #[trigger] e[i] < 128 by {
        lemma_hex_digit(b[i / 2] / 16);
        lemma_hex_digit(b[i / 2] % 16);
    }
}

/// Decoding the hex text of any byte string gives that byte string back.
pub proof fn lemma_hex_round_trip(b: Seq<u8>)
    ensures
        all_hex(hex_encoding(b)),
        hex_decoding(hex_encoding(b)) == b,
{
    let e = hex_encoding(b);
    assert forall|i: int| 0 <= i < e.len() implies (#[trigger] hex_value(e[i])).is_some() by {
        lemma_hex_digit(b[i / 2] / 16);
        lemma_hex_digit(b[i / 2] % 16);
    }
    assert forall|i: int| 0 <= i < b.len() implies #[trigger] hex_decoding(e)[i] == b[i] by {
        assert((2 * i) / 2 == i);
        assert((2 * i + 1) / 2 == i);
        assert((2 * i) % 2 == 0);
        assert((2 * i + 1) % 2 == 1);
        lemma_hex_digit(b[i] / 16);
        lemma_hex_digit(b[i] % 16);
    }
    assert(hex_decoding(e) =~= b);
}

/// Lowercase ASCII digit of a value below sixteen.
fn digit_of(v: u8) -> (r: u8)
    requires
        v < 16,
    ensures
        r == hex_digit(v),
{
    if v < 10 {
        48 + v
    } else {
        87 + v
    }
}

/// Writes each byte as two lowercase hex digits.
pub fn encode(raw: &[u8]) -> (r: String)
    ensures
        r@ == ascii_chars(hex_encoding(raw@)),
{
    let mut out: Vec<u8> = Vec::new();
    let mut i: usize = 0;
    while i < raw.len()
        invariant
            0 <= i <= raw@.len(),
            out@ =~= hex_encoding(raw@.subrange(0, i as int)),
        decreases raw@.len() - i,
    {
        let b = raw[i];
        out.push(digit_of(b / 16));
        out.push(digit_of(b % 16));
        i += 1;
        assert(out@ =~= hex_encoding(raw@.subrange(0, i as int)));
    }
    assert(raw@.subrange(0, raw@.len() as int) =~= raw@);
    proof {
        lemma_hex_encoding_ascii(raw@);
    }
    ascii_string(&out)
}

/// Reads a hex digit of either case.
pub fn from_hex_u8(c: u8) -> (r: Option<u8>)
    ensures
        r == hex_value(c),
{
    if 48 <= c && c <= 57 {
        Some(c - 48)
    } else if 97 <= c && c <= 102 {
        Some(c - 87)
    } else if 65 <= c && c <= 70 {
        Some(c - 55)
    } else {
        None
    }
}

/// Decodes hex text of either case into bytes.
pub fn decode(raw: &[u8]) -> (r: Result<Vec<u8>, &'static str>)
    ensures
        !hex_length_ok(raw@.len() as int) ==> r == Err::<Vec<u8>, &'static str>(
            "unexpected hex encoding length",
        ),
        hex_length_ok(raw@.len() as int) && !all_hex(raw@) ==> r == Err::<Vec<u8>, &'static str>(
            "unexpected hex encoding char",
        ),
        hex_length_ok(raw@.len() as int) && all_hex(raw@) ==> (r matches Ok(v) && v@
            == hex_decoding(raw@)),
{
    if raw.len() < 2 || raw.len() % 2 == 1 {
        return Err("unexpected hex encoding length");
    }
    let mut result: Vec<u8> = Vec::new();
    let mut j: usize = 1;
    while j < raw.len()
        invariant
            j % 2 == 1,
            1 <= j <= raw@.len() + 1,
            raw@.len() % 2 == 0,
            result@.len() == (j - 1) / 2,
            forall|k: int| 0 <= k < j - 1 ==> (#[trigger] hex_value(raw@[k])).is_some(),
            forall|k: int|
                0 <= k < result@.len() ==> #[trigger] result@[k] == hex_decoding(raw@)[k],
        decreases raw@.len() + 1 - j,
    {
        let a = match from_hex_u8(raw[j - 1]) {
            Some(v) => v,
            None => {
                return Err("unexpected hex encoding char");
            },
        };
        let b = match from_hex_u8(raw[j]) {
            Some(v) => v,
            None => {
                return Err("unexpected hex encoding char");
            },
        };
        assert(2 * ((j - 1) / 2) == j - 1);
        result.push(a * 16 + b);
        j += 2;
    }
    assert(result@ =~= hex_decoding(raw@));
    Ok(result)
}

} // verus!
