//! The guest side of the host import surface: the event model and its wire
//! form, the storage key namespace, and the pure steps of each hostcall.
use vstd::prelude::*;
use vstd::string::*;
use vstd::utf8::*;
use crate::codec::{
    bytes_at, enc_bytes, enc_i64, enc_str, enc_u32, fixed_end, lemma_round_trip_i64,
    lemma_round_trip_str, lemma_round_trip_u32, str_end, u128_at, u32_at, u64_at, Sink, Source,
};
use crate::types::{Address, BlockHeader, Error};

verus! {

/// The value of an event attribute.
pub enum ItemValue<'a> {
    Str(&'a str),
    Int64(i64),
}

/// What an attribute value stands for: an integer, or text.
pub enum ItemModel {
    Int64(i64),
    Str(Seq<char>),
}

pub open spec fn item_model(v: ItemValue<'_>) -> ItemModel {
    match v {
        ItemValue::Str(s) => ItemModel::Str(s@),
        ItemValue::Int64(i) => ItemModel::Int64(i),
    }
}

/// A typed, ordered list of attributes for host-side logging.
pub struct Event<'a> {
    pub event_type: &'a str,
    pub attr: Vec<(&'a str, ItemValue<'a>)>,
}

/// An event's type name and its attributes, in order.
pub struct EventModel {
    pub event_type: Seq<char>,
    pub attrs: Seq<(Seq<char>, ItemModel)>,
}

pub open spec fn attr_model(a: (&str, ItemValue<'_>)) -> (Seq<char>, ItemModel) {
    (a.0@, item_model(a.1))
}

pub open spec fn attrs_model<'a>(a: Seq<(&'a str, ItemValue<'a>)>) -> Seq<(Seq<char>, ItemModel)> {
    a.map_values(|p: (&'a str, ItemValue<'a>)| attr_model(p))
}

/// Wire form of one attribute value: a tag byte, then the integer or the text.
pub open spec fn item_bytes(v: ItemModel) -> Seq<u8> {
    match v {
        ItemModel::Int64(i) => seq![0u8] + enc_i64(i),
        ItemModel::Str(s) => seq![1u8] + enc_str(s),
    }
}

pub open spec fn attr_bytes(a: (Seq<char>, ItemModel)) -> Seq<u8> {
    enc_str(a.0) + item_bytes(a.1)
}

pub open spec fn attrs_bytes(a: Seq<(Seq<char>, ItemModel)>) -> Seq<u8>
    decreases a.len(),
{
    if a.len() == 0 {
        Seq::empty()
    } else {
        attrs_bytes(a.drop_last()) + attr_bytes(a.last())
    }
}

/// Wire form of an event: its type, the attribute count, then each attribute.
pub open spec fn event_bytes(e: EventModel) -> Seq<u8> {
    enc_str(e.event_type) + enc_u32(e.attrs.len() as u32) + attrs_bytes(e.attrs)
}

pub open spec fn text_fits(s: Seq<char>) -> bool {
    encode_utf8(s).len() <= u32::MAX
}

pub open spec fn item_fits(v: ItemModel) -> bool {
    match v {
        ItemModel::Int64(_) => true,
        ItemModel::Str(s) => text_fits(s),
    }
}

/// Every text and the attribute count fit a four-byte length.
pub open spec fn event_fits(e: EventModel) -> bool {
    &&& text_fits(e.event_type)
    &&& e.attrs.len() <= u32::MAX
    &&& forall|i: int|
        0 <= i < e.attrs.len() ==> text_fits(#[trigger] e.attrs[i].0) && item_fits(e.attrs[i].1)
}

/// Reads one attribute value at `pos`: its model and where it ends.
pub open spec fn parse_item(data: Seq<u8>, pos: int) -> Result<(ItemModel, int), Error> {
    match fixed_end(data, pos, 1) {
        Ok(p) => if data[pos] == 0 {
            match fixed_end(data, p, 8) {
                Ok(q) => Ok((ItemModel::Int64(u64_at(data, p) as i64), q)),
                Err(e) => Err(e),
            }
        } else if data[pos] == 1 {
            match str_end(data, p) {
                Ok(q) => Ok((ItemModel::Str(decode_utf8(bytes_at(data, p))), q)),
                Err(e) => Err(e),
            }
        } else {
            Err(Error::IrregularData)
        },
        Err(e) => Err(e),
    }
}

/// Reads one attribute at `pos`: its key and value, and where it ends.
pub open spec fn parse_attr(data: Seq<u8>, pos: int) -> Result<((Seq<char>, ItemModel), int), Error> {
    match str_end(data, pos) {
        Ok(p) => match parse_item(data, p) {
            Ok((v, q)) => Ok(((decode_utf8(bytes_at(data, pos)), v), q)),
            Err(e) => Err(e),
        },
        Err(e) => Err(e),
    }
}

/// Reads `n` attributes in a row from `pos`.
pub open spec fn parse_attrs(data: Seq<u8>, pos: int, n: nat) -> Result<
    (Seq<(Seq<char>, ItemModel)>, int),
    Error,
>
    decreases n,
{
    if n == 0 {
        Ok((Seq::empty(), pos))
    } else {
        match parse_attrs(data, pos, (n - 1) as nat) {
            Ok((a, p)) => match parse_attr(data, p) {
                Ok((kv, q)) => Ok((a.push(kv), q)),
                Err(e) => Err(e),
            },
            Err(e) => Err(e),
        }
    }
}

/// Reads an event at `pos`: its model and where it ends.
pub open spec fn parse_event(data: Seq<u8>, pos: int) -> Result<(EventModel, int), Error> {
    match str_end(data, pos) {
        Ok(p) => match fixed_end(data, p, 4) {
            Ok(q) => match parse_attrs(data, q, u32_at(data, p) as nat) {
                Ok((a, end)) => Ok(
                    (EventModel { event_type: decode_utf8(bytes_at(data, pos)), attrs: a }, end),
                ),
                Err(e) => Err(e),
            },
            Err(e) => Err(e),
        },
        Err(e) => Err(e),
    }
}

proof fn lemma_parse_attrs_step(data: Seq<u8>, pos: int, n: nat)
    ensures
        parse_attrs(data, pos, n + 1) == match parse_attrs(data, pos, n) {
            Ok((a, p)) => match parse_attr(data, p) {
                Ok((kv, q)) => Ok((a.push(kv), q)),
                Err(e) => Err(e),
            },
            Err(e) => Err(e),
        },
{
    assert((n + 1) as nat - 1 == n);
}

/// Once reading the attributes fails, reading more of them fails the same way.
proof fn lemma_parse_attrs_stops(data: Seq<u8>, pos: int, k: nat, m: nat)
    requires
        k <= m,
        parse_attrs(data, pos, k) is Err,
    ensures
        parse_attrs(data, pos, m) == parse_attrs(data, pos, k),
    decreases m - k,
{
    if k < m {
        lemma_parse_attrs_stops(data, pos, k, (m - 1) as nat);
    }
}

proof fn lemma_item_round_trip(pre: Seq<u8>, v: ItemModel, post: Seq<u8>)
    requires
        item_fits(v),
    ensures
        parse_item(pre + item_bytes(v) + post, pre.len() as int) == Ok::<(ItemModel, int), Error>(
            (v, (pre.len() + item_bytes(v).len()) as int),
        ),
{
    let data = pre + item_bytes(v) + post;
    let p = pre.len() as int;
    match v {
        ItemModel::Int64(i) => {
            assert(data[p] == 0);
            assert(data =~= (pre + seq![0u8]) + enc_i64(i) + post);
            lemma_round_trip_i64(pre + seq![0u8], i, post);
        },
        ItemModel::Str(s) => {
            assert(data[p] == 1);
            assert(data =~= (pre + seq![1u8]) + enc_str(s) + post);
            lemma_round_trip_str(pre + seq![1u8], s, post);
        },
    }
}

#[verifier::rlimit(40)]
proof fn lemma_attrs_round_trip(pre: Seq<u8>, a: Seq<(Seq<char>, ItemModel)>, post: Seq<u8>)
    requires
        forall|i: int| 0 <= i < a.len() ==> text_fits(#[trigger] a[i].0) && item_fits(a[i].1),
    ensures
        parse_attrs(pre + attrs_bytes(a) + post, pre.len() as int, a.len()) == Ok::<
            (Seq<(Seq<char>, ItemModel)>, int),
            Error,
        >((a, (pre.len() + attrs_bytes(a).len()) as int)),
    decreases a.len(),
{
    if a.len() > 0 {
        let init = a.drop_last();
        let (k, v) = a.last();
        assert(text_fits(a[a.len() - 1].0) && item_fits(a[a.len() - 1].1));
        let data = pre + attrs_bytes(a) + post;
        let tail = attr_bytes((k, v)) + post;
        assert(data =~= pre + attrs_bytes(init) + tail);
        assert forall|i: int| 0 <= i < init.len() implies text_fits(#[trigger] init[i].0) && item_fits(
            init[i].1,
        ) by {
            assert(init[i] == a[i]);
        }
        lemma_attrs_round_trip(pre, init, tail);
        let pre2 = pre + attrs_bytes(init);
        assert(data =~= pre2 + enc_str(k) + (item_bytes(v) + post));
        lemma_round_trip_str(pre2, k, item_bytes(v) + post);
        let pre3 = pre2 + enc_str(k);
        assert(data =~= pre3 + item_bytes(v) + post);
        lemma_item_round_trip(pre3, v, post);
        let p = pre2.len() as int;
        assert(parse_attr(data, p) == Ok::<((Seq<char>, ItemModel), int), Error>(
            ((k, v), (pre3.len() + item_bytes(v).len()) as int),
        ));
        assert(init.push((k, v)) =~= a);
        lemma_parse_attrs_step(data, pre.len() as int, (a.len() - 1) as nat);
        assert(pre3.len() + item_bytes(v).len() == pre.len() + attrs_bytes(a).len());
    } else {
        assert(a =~= Seq::<(Seq<char>, ItemModel)>::empty());
    }
}

/// Reading back the wire form of any event gives the same type name and the
/// same attributes in the same order, and ends just after it.
pub proof fn lemma_event_round_trip(e: EventModel, post: Seq<u8>)
    requires
        event_fits(e),
    ensures
        parse_event(event_bytes(e) + post, 0) == Ok::<(EventModel, int), Error>(
            (e, event_bytes(e).len() as int),
        ),
{
    let data = event_bytes(e) + post;
    let empty = Seq::<u8>::empty();
    assert(data =~= empty + enc_str(e.event_type) + (enc_u32(e.attrs.len() as u32) + attrs_bytes(
        e.attrs,
    ) + post));
    lemma_round_trip_str(empty, e.event_type, enc_u32(e.attrs.len() as u32) + attrs_bytes(e.attrs) + post);
    let pre1 = enc_str(e.event_type);
    assert(data =~= pre1 + enc_u32(e.attrs.len() as u32) + (attrs_bytes(e.attrs) + post));
    lemma_round_trip_u32(pre1, e.attrs.len() as u32, attrs_bytes(e.attrs) + post);
    let pre2 = pre1 + enc_u32(e.attrs.len() as u32);
    assert(data =~= pre2 + attrs_bytes(e.attrs) + post);
    assert forall|i: int| 0 <= i < e.attrs.len() implies text_fits(#[trigger] e.attrs[i].0)
        && item_fits(e.attrs[i].1) by {
        assert(text_fits(e.attrs[i].0) && item_fits(e.attrs[i].1));
    }
    lemma_attrs_round_trip(pre2, e.attrs, post);
}

impl<'a> Event<'a> {
    pub open spec fn model(&self) -> EventModel {
        EventModel { event_type: self.event_type@, attrs: attrs_model(self.attr@) }
    }

    pub fn new(event_type: &'a str) -> (r: Event<'a>)
        ensures
            r.model() == (EventModel { event_type: event_type@, attrs: Seq::empty() }),
    {
        let r = Event { event_type, attr: Vec::new() };
        assert(r.model().attrs =~= Seq::<(Seq<char>, ItemModel)>::empty());
        r
    }

    /// Appends an attribute after the present ones.
    pub fn add(&mut self, key: &'a str, value: ItemValue<'a>)
        ensures
            final(self).model() == (EventModel {
                event_type: old(self).model().event_type,
                attrs: old(self).model().attrs.push((key@, item_model(value))),
            }),
    {
        self.attr.push((key, value));
        assert(self.model().attrs =~= old(self).model().attrs.push((key@, item_model(value))));
    }

    pub fn to_vec(&self) -> (r: Vec<u8>)
        requires
            event_fits(self.model()),
        ensures
            r@ == event_bytes(self.model()),
    {
        let mut sink = Sink::new(0);
        sink.write_str(self.event_type);
        sink.write_usize(self.attr.len());
        let ghost head = sink@;
        let mut i: usize = 0;
        while i < self.attr.len()
            invariant
                0 <= i <= self.attr@.len(),
                event_fits(self.model()),
                sink@ == head + attrs_bytes(attrs_model(self.attr@.subrange(0, i as int))),
            decreases self.attr@.len() - i,
        {
            let (k, v) = &self.attr[i];
            assert(self.model().attrs[i as int] == attr_model(self.attr@[i as int]));
            assert(text_fits(self.model().attrs[i as int].0));
            assert(item_fits(self.model().attrs[i as int].1));
            sink.write_str(k);
            match v {
                ItemValue::Int64(n) => {
                    sink.write_byte(0);
                    sink.write_i64(*n);
                },
                ItemValue::Str(s) => {
                    sink.write_byte(1);
                    sink.write_str(s);
                },
            }
            proof {
                let prev = attrs_model(self.attr@.subrange(0, i as int));
                let next = attrs_model(self.attr@.subrange(0, i + 1));
                assert(next.drop_last() =~= prev);
                assert(next.last() == attr_model(self.attr@[i as int]));
            }
            i += 1;
            assert(sink@ =~= head + attrs_bytes(attrs_model(self.attr@.subrange(0, i as int))));
        }
        assert(self.attr@.subrange(0, self.attr@.len() as int) =~= self.attr@);
        sink.into()
    }

    /// Reads an event in the wire form that `to_vec` writes.
    pub fn decode(source: &mut Source<'a>) -> (r: Result<Event<'a>, Error>)
        requires
            old(source).wf(),
        ensures
            final(source).wf(),
            final(source).data() == old(source).data(),
            r matches Ok(e) ==> parse_event(old(source).data(), old(source).pos()) == Ok::<
                (EventModel, int),
                Error,
            >((e.model(), final(source).pos())),
            r matches Err(err) ==> parse_event(old(source).data(), old(source).pos()) == Err::<
                (EventModel, int),
                Error,
            >(err),
    {
        let ghost data = source.data();
        let ghost p0 = source.pos();
        let event_type = source.read_str()?;
        let ghost p1 = source.pos();
        let n = source.read_usize()?;
        let ghost start = source.pos();
        let mut attr: Vec<(&'a str, ItemValue<'a>)> = Vec::new();
        assert(attrs_model(attr@) =~= Seq::<(Seq<char>, ItemModel)>::empty());
        let mut i: usize = 0;
        while i < n
            invariant
                source.wf(),
                source.data() == data,
                data == old(source).data(),
                p0 == old(source).pos(),
                str_end(data, p0) == Ok::<int, Error>(p1),
                fixed_end(data, p1, 4) == Ok::<int, Error>(start),
                event_type@ == decode_utf8(bytes_at(data, p0)),
                n == u32_at(data, p1),
                0 <= i <= n,
                parse_attrs(data, start, i as nat) == Ok::<
                    (Seq<(Seq<char>, ItemModel)>, int),
                    Error,
                >((attrs_model(attr@), source.pos())),
            decreases n - i,
        {
            proof {
                lemma_parse_attrs_step(data, start, i as nat);
            }
            let ghost q0 = source.pos();
            let key = match source.read_str() {
                Ok(k) => k,
                Err(e) => {
                    proof {
                        lemma_parse_attrs_stops(data, start, (i + 1) as nat, n as nat);
                    }
                    return Err(e);
                },
            };
            let tag = match source.read_byte() {
                Ok(t) => t,
                Err(e) => {
                    proof {
                        lemma_parse_attrs_stops(data, start, (i + 1) as nat, n as nat);
                    }
                    return Err(e);
                },
            };
            let value = if tag == 0 {
                match source.read_i64() {
                    Ok(v) => ItemValue::Int64(v),
                    Err(e) => {
                        proof {
                            lemma_parse_attrs_stops(data, start, (i + 1) as nat, n as nat);
                        }
                        return Err(e);
                    },
                }
            } else if tag == 1 {
                match source.read_str() {
                    Ok(v) => ItemValue::Str(v),
                    Err(e) => {
                        proof {
                            lemma_parse_attrs_stops(data, start, (i + 1) as nat, n as nat);
                        }
                        return Err(e);
                    },
                }
            } else {
                proof {
                    lemma_parse_attrs_stops(data, start, (i + 1) as nat, n as nat);
                }
                return Err(Error::IrregularData);
            };
            assert(parse_attr(data, q0) == Ok::<((Seq<char>, ItemModel), int), Error>(
                ((key@, item_model(value)), source.pos()),
            ));
            let ghost before = attr@;
            attr.push((key, value));
            assert(attrs_model(attr@) =~= attrs_model(before).push((key@, item_model(value))));
            i += 1;
        }
        Ok(Event { event_type, attr })
    }
}

/// Bytes that the first storage read asks the host for.
pub const INITIAL_READ: usize = 32;

/// What to do after the first storage read.
pub enum ReadPlan {
    /// Nothing is stored under the key.
    Missing,
    /// The whole value came with the first read.
    Done(Vec<u8>),
    /// The value is longer: its first bytes are in place, and the host must
    /// fill the rest of `value` from `offset` on.
    ReadRest { value: Vec<u8>, offset: usize },
}

/// Guest access to the host's key/value storage, under a fixed key prefix.
pub struct Store {
    prefix: &'static str,
}

impl Store {
    pub closed spec fn prefix_bytes(&self) -> Seq<u8> {
        self.prefix.spec_bytes()
    }

    pub fn new() -> (r: Store)
        ensures
            r.prefix_bytes() == Seq::<u8>::empty(),
    {
        let r = Store { prefix: "" };
        proof {
            reveal_strlit("");
        }
        r
    }

    /// The host key for `key`: the store's prefix, then `key`.
    pub fn gen_key(&self, key: &[u8]) -> (r: Vec<u8>)
        ensures
            r@ == self.prefix_bytes() + key@,
    {
        let p = self.prefix.as_bytes();
        let mut real_key: Vec<u8> = Vec::new();
        real_key.extend_from_slice(p);
        real_key.extend_from_slice(key);
        real_key
    }

    /// Decides the next step of a read from what the first host read gave:
    /// the speculative buffer and the size the host reported (negative when
    /// the key is absent).
    pub fn after_first_read(first: Vec<u8>, size: i32) -> (r: ReadPlan)
        requires
            first@.len() == INITIAL_READ,
        ensures
            size < 0 <==> r is Missing,
            0 <= size <= INITIAL_READ ==> (r matches ReadPlan::Done(v) && v@ == first@.subrange(
                0,
                size as int,
            )),
            size > INITIAL_READ ==> (r matches ReadPlan::ReadRest { value, offset } && offset
                == INITIAL_READ && value@ == first@ + Seq::new(
                (size - INITIAL_READ) as nat,
                |i: int| 0u8,
            )),
    {
        if size < 0 {
            return ReadPlan::Missing;
        }
        let size = size as usize;
        let mut value = first;
        if size <= INITIAL_READ {
            value.truncate(size);
            assert(value@ =~= first@.subrange(0, size as int));
            ReadPlan::Done(value)
        } else {
            let mut i: usize = INITIAL_READ;
            while i < size
                invariant
                    INITIAL_READ <= i <= size,
                    value@ =~= first@ + Seq::new((i - INITIAL_READ) as nat, |k: int| 0u8),
                decreases size - i,
            {
                value.push(0);
                i += 1;
            }
            ReadPlan::ReadRest { value, offset: INITIAL_READ }
        }
    }
}

/// When the host fills the speculative buffer with the start of the stored
/// value `v` and reports its size, and fills the rest of a longer value from
/// the offset on, the read gives back exactly `v`.
pub proof fn lemma_two_phase_read(v: Seq<u8>, first: Seq<u8>)
    requires
        first.len() == INITIAL_READ,
        forall|i: int| 0 <= i < v.len() && i < INITIAL_READ ==> #[trigger] first[i] == v[i],
    ensures
        v.len() <= INITIAL_READ ==> first.subrange(0, v.len() as int) == v,
        v.len() > INITIAL_READ ==> (first + Seq::new(
            (v.len() - INITIAL_READ) as nat,
            |i: int| 0u8,
        )).subrange(0, INITIAL_READ as int) + v.subrange(INITIAL_READ as int, v.len() as int) == v,
{
    if v.len() <= INITIAL_READ {
        assert(first.subrange(0, v.len() as int) =~= v);
    } else {
        let whole = first + Seq::new((v.len() - INITIAL_READ) as nat, |i: int| 0u8);
        assert(whole.subrange(0, INITIAL_READ as int) + v.subrange(INITIAL_READ as int, v.len() as int)
            =~= v);
    }
}

/// Wire form of a list of validators: the count, then each address length-prefixed.
pub open spec fn validators_bytes(v: Seq<Seq<u8>>) -> Seq<u8> {
    enc_u32(v.len() as u32) + addresses_bytes(v)
}

pub open spec fn addresses_bytes(v: Seq<Seq<u8>>) -> Seq<u8>
    decreases v.len(),
{
    if v.len() == 0 {
        Seq::empty()
    } else {
        addresses_bytes(v.drop_last()) + enc_bytes(v.last())
    }
}

pub open spec fn address_views(v: Seq<&Address>) -> Seq<Seq<u8>> {
    v.map_values(|a: &Address| a@)
}

/// The guest's view of the host's identity, block and chain queries.
pub struct ExternalApi {}

impl ExternalApi {
    pub fn new() -> ExternalApi {
        ExternalApi {  }
    }

    /// Reads the block header the host wrote: height, then timestamp.
    pub fn block_header_from(&self, raw: &[u8]) -> (r: BlockHeader)
        requires
            raw@.len() == 16,
        ensures
            r.height == u64_at(raw@, 0),
            r.timestamp == u64_at(raw@, 8),
    {
        let mut source = Source::new(raw);
        let height = match source.read_u64() {
            Ok(v) => v,
            Err(_) => 0,
        };
        let timestamp = match source.read_u64() {
            Ok(v) => v,
            Err(_) => 0,
        };
        BlockHeader { height, timestamp }
    }

    /// Reads the total stake the host wrote.
    pub fn total_power_from(&self, raw: &[u8]) -> (r: u128)
        requires
            raw@.len() == 16,
        ensures
            r == u128_at(raw@, 0),
    {
        let mut source = Source::new(raw);
        match source.read_u128() {
            Ok(v) => v,
            Err(_) => 0,
        }
    }

    /// The request that asks the host for the stake of each validator.
    pub fn validator_power_request(&self, validators: &[&Address]) -> (r: Vec<u8>)
        requires
            validators@.len() <= u32::MAX,
        ensures
            r@ == validators_bytes(address_views(validators@)),
    {
        let mut sink = Sink::new(0);
        sink.write_usize(validators.len());
        let ghost head = sink@;
        let mut i: usize = 0;
        while i < validators.len()
            invariant
                0 <= i <= validators@.len(),
                head == enc_u32(validators@.len() as u32),
                sink@ == head + addresses_bytes(address_views(validators@.subrange(0, i as int))),
            decreases validators@.len() - i,
        {
            let a: &Address = validators[i];
            proof {
                a.lemma_len();
            }
            sink.write_bytes(a.as_bytes());
            proof {
                let next = address_views(validators@.subrange(0, i + 1));
                assert(next.drop_last() =~= address_views(validators@.subrange(0, i as int)));
            }
            i += 1;
        }
        assert(validators@.subrange(0, validators@.len() as int) =~= validators@);
        sink.into()
    }

    /// Reads the stake of each of `n` validators that the host wrote, in order.
    pub fn validator_powers_from(&self, raw: &[u8], n: usize) -> (r: Vec<u128>)
        requires
            raw@.len() == 16 * n,
        ensures
            r@.len() == n,
            forall|i: int| 0 <= i < n ==> #[trigger] r@[i] == u128_at(raw@, 16 * i),
    {
        let mut source = Source::new(raw);
        let mut power: Vec<u128> = Vec::new();
        let mut i: usize = 0;
        while i < n
            invariant
                raw@.len() == 16 * n,
                source.wf(),
                source.data() == raw@,
                source.pos() == 16 * i,
                0 <= i <= n,
                power@.len() == i,
                forall|k: int| 0 <= k < i ==> #[trigger] power@[k] == u128_at(raw@, 16 * k),
            decreases n - i,
        {
            let v = match source.read_u128() {
                Ok(v) => v,
                Err(_) => 0,
            };
            power.push(v);
            i += 1;
        }
        power
    }
}

/// Everything a contract function reaches the host through.
pub struct Dependencies {
    pub storage: Store,
    pub api: ExternalApi,
}

} // verus!
