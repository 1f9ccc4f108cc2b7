//! Shared value types: decode errors, addresses, contract results, block headers.
use vstd::prelude::*;
use vstd::string::*;
use vstd::utf8::*;
use crate::codec::{enc_bool, enc_bytes, enc_str, Sink};
use crate::hex::{all_hex, hex_decoding, hex_encoding, lemma_hex_encoding_ascii, lemma_hex_round_trip};
use crate::text::{ascii_chars, lemma_ascii_text};

verus! {

/// Why a byte buffer could not be decoded.
#[derive(Clone, Copy, Debug, PartialEq, Eq, Structural)]
pub enum Error {
    UnexpectedEOF,
    InvalidUtf8,
    IrregularData,
}

pub const ADDR_SIZE: usize = 20;

pub const ADDR_HEX_SIZE: usize = 42;

/// A 20-byte account or contract identifier.
#[derive(Clone, Copy, Debug, PartialEq, Eq, Hash)]
pub struct Address([u8; 20]);

impl View for Address {
    type V = Seq<u8>;

    closed spec fn view(&self) -> Seq<u8> {
        self.0@
    }
}

/// Canonical text form as bytes: `0x` and forty lowercase hex digits.
pub open spec fn address_text(a: Seq<u8>) -> Seq<u8> {
    seq![48u8, 120u8] + hex_encoding(a)
}

/// What parsing the text form `raw` gives: the address bytes, or the error.
pub open spec fn parse_address_text(raw: Seq<u8>) -> Result<Seq<u8>, &'static str> {
    if raw.len() != 42 {
        Err("unexpected address string length")
    } else if raw[0] != 48 || raw[1] != 120 {
        Err("unexpected address string prefix")
    } else if !all_hex(raw.subrange(2, 42)) {
        Err("unexpected hex encoding char")
    } else {
        Ok(hex_decoding(raw.subrange(2, 42)))
    }
}

impl Address {
    /// An address is twenty bytes long.
    pub proof fn lemma_len(&self)
        ensures
            self@.len() == 20,
    {
    }

    /// Takes exactly twenty bytes.
    pub fn new(addr: &[u8]) -> (r: Option<Address>)
        ensures
            r.is_some() == (addr@.len() == 20),
            r matches Some(a) ==> a@ == addr@,
    {
        if addr.len() != ADDR_SIZE {
            return None;
        }
        let mut a = [0u8; 20];
        let mut i: usize = 0;
        while i < 20
            invariant
                addr@.len() == 20,
                0 <= i <= 20,
                a@.len() == 20,
                forall|k: int| 0 <= k < i ==> a@[k] == addr@[k],
            decreases 20 - i,
        {
            a[i] = addr[i];
            i += 1;
        }
        assert(a@ =~= addr@);
        Some(Address(a))
    }

    pub fn len() -> (r: usize)
        ensures
            r == 20,
    {
        ADDR_SIZE
    }

    /// Parses the text form given as bytes.
    pub(crate) fn from_bytes(raw: &[u8]) -> (r: Result<Address, &'static str>)
        ensures
            r matches Ok(a) ==> parse_address_text(raw@) == Ok::<Seq<u8>, &'static str>(a@),
            r matches Err(e) ==> parse_address_text(raw@) == Err::<Seq<u8>, &'static str>(e),
    {
        if raw.len() != ADDR_HEX_SIZE {
            return Err("unexpected address string length");
        }
        if raw[0] != 48 || raw[1] != 120 {
            return Err("unexpected address string prefix");
        }
        let digits = vstd::slice::slice_subrange(raw, 2, 42);
        match crate::hex::decode(digits) {
            Ok(v) => match Address::new(v.as_slice()) {
                Some(a) => Ok(a),
                None => Err("unexpected hex encoding length"),
            },
            Err(e) => Err(e),
        }
    }

    /// Parses the text form `0x` followed by forty hex digits.
    pub fn from_str(s: &str) -> (r: Result<Address, &'static str>)
        ensures
            r matches Ok(a) ==> parse_address_text(s.spec_bytes()) == Ok::<Seq<u8>, &'static str>(
                a@,
            ),
            r matches Err(e) ==> parse_address_text(s.spec_bytes()) == Err::<
                Seq<u8>,
                &'static str,
            >(e),
    {
        Address::from_bytes(s.as_bytes())
    }

    /// The canonical text form.
    pub fn to_string(&self) -> (r: String)
        ensures
            r@ == ascii_chars(address_text(self@)),
    {
        let mut s = String::from_str("0x");
        let h = crate::hex::encode(array_as_slice_of(self));
        s.append(h.as_str());
        proof {
            reveal_strlit("0x");
            assert(s@ =~= ascii_chars(address_text(self@)));
        }
        s
    }

    pub fn as_bytes(&self) -> (r: &[u8])
        ensures
            r@ == self@,
    {
        array_as_slice_of(self)
    }
}

fn array_as_slice_of(a: &Address) -> (r: &[u8])
    ensures
        r@ == a@,
{
    vstd::array::array_as_slice(&a.0)
}

impl Default for Address {
    fn default() -> (r: Address)
        ensures
            r@ == Seq::new(20, |i: int| 0u8),
    {
        let a = [0u8; 20];
        assert(a@ =~= Seq::new(20, |i: int| 0u8));
        Address(a)
    }
}

/// Parsing the text form of any address gives that address back.
pub proof fn lemma_address_round_trip(a: Seq<u8>)
    requires
        a.len() == 20,
    ensures
        encode_utf8(ascii_chars(address_text(a))) == address_text(a),
        parse_address_text(address_text(a)) == Ok::<Seq<u8>, &'static str>(a),
{
    let t = address_text(a);
    lemma_hex_encoding_ascii(a);
    lemma_hex_round_trip(a);
    assert(t.subrange(2, 42) =~= hex_encoding(a));
    assert(crate::text::is_ascii_bytes(t)) by {
        assert forall|i: int| 0 <= i < t.len() implies #[trigger] t[i] < 128 by {
            if i >= 2 {
                assert(t[i] == hex_encoding(a)[i - 2]);
            }
        }
    }
    lemma_ascii_text(t);
}

/// The outcome of a contract call: a payload, or an error message.
#[derive(Clone, Debug, PartialEq)]
pub enum ContractResult {
    Success(Vec<u8>),
    Failure(String),
}

/// Wire form: an ok flag, then the payload or the message, length-prefixed.
pub open spec fn contract_result_bytes(r: ContractResult) -> Seq<u8> {
    match r {
        ContractResult::Success(d) => enc_bool(true) + enc_bytes(d@),
        ContractResult::Failure(m) => enc_bool(false) + enc_str(m@),
    }
}

/// Payloads and messages must fit a four-byte length.
pub open spec fn contract_result_fits(r: ContractResult) -> bool {
    match r {
        ContractResult::Success(d) => d@.len() <= u32::MAX,
        ContractResult::Failure(m) => encode_utf8(m@).len() <= u32::MAX,
    }
}

impl ContractResult {
    pub fn to_vec(&self) -> (r: Vec<u8>)
        requires
            contract_result_fits(*self),
        ensures
            r@ == contract_result_bytes(*self),
    {
        let mut sink = Sink::new(0);
        match self {
            ContractResult::Success(resp) => {
                sink.write_bool(true);
                sink.write_bytes(resp.as_slice());
            },
            ContractResult::Failure(err) => {
                sink.write_bool(false);
                sink.write_str(err.as_str());
            },
        }
        sink.into()
    }
}

/// Height and timestamp of the current block.
#[derive(Clone, Copy, Debug, PartialEq, Eq, Structural)]
pub struct BlockHeader {
    pub height: u64,
    pub timestamp: u64,
}

} // verus!
