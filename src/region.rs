//! The memory ownership protocol. Guest buffers live in a table of
//! allocations; a buffer crosses the boundary as a `Region` descriptor naming
//! its slot. Consuming a descriptor takes the buffer out of the table, so a
//! second consumption of the same slot is caught, never served stale.
use vstd::prelude::*;
use crate::codec::{enc_u32, lemma_round_trip_u32, u32_at, Sink, Source};
use crate::types::Error;

verus! {

/// A fatal fault of the ownership protocol.
#[derive(Clone, Copy, Debug, PartialEq, Eq, Structural)]
pub enum RuntimeFault {
    /// The descriptor names no buffer.
    NullPointer,
    /// The buffer it names was consumed or freed already.
    AlreadyConsumed,
    /// Its capacity or length does not match the buffer.
    InvalidRegion,
}

/// Describes a buffer that crosses the boundary. It is neither `Clone` nor
/// `Copy`: consuming it moves it.
#[derive(Debug)]
pub struct Region {
    pub offset: u32,
    pub capacity: u32,
    pub length: u32,
}

/// Wire form: offset, capacity and length as four little-endian bytes each.
pub open spec fn region_bytes(offset: u32, capacity: u32, length: u32) -> Seq<u8> {
    enc_u32(offset) + enc_u32(capacity) + enc_u32(length)
}

impl Region {
    pub fn to_bytes(&self) -> (r: Vec<u8>)
        ensures
            r@ == region_bytes(self.offset, self.capacity, self.length),
    {
        let mut sink = Sink::new(12);
        sink.write_u32(self.offset);
        sink.write_u32(self.capacity);
        sink.write_u32(self.length);
        sink.into()
    }

    /// Reads a descriptor handed across the boundary.
    pub fn from_bytes(raw: &[u8]) -> (r: Result<Region, Error>)
        ensures
            raw@.len() < 12 <==> r is Err,
            r matches Err(e) ==> e == Error::UnexpectedEOF,
            r matches Ok(g) ==> g.offset == u32_at(raw@, 0) && g.capacity == u32_at(raw@, 4)
                && g.length == u32_at(raw@, 8),
    {
        let mut source = Source::new(raw);
        let offset = source.read_u32()?;
        let capacity = source.read_u32()?;
        let length = source.read_u32()?;
        Ok(Region { offset, capacity, length })
    }
}

/// The guest's allocations. Handle `h` names slot `h - 1`; handle 0 is null.
pub struct Memory {
    slots: Vec<Option<Vec<u8>>>,
}

pub open spec fn slot_view(s: Option<Vec<u8>>) -> Option<Seq<u8>> {
    match s {
        Some(b) => Some(b@),
        None => None,
    }
}

/// What consuming the descriptor `(offset, capacity, length)` does to the
/// allocations `m`: the buffer handed out and the allocations left, or the fault.
pub open spec fn consume_outcome(m: Seq<Option<Seq<u8>>>, offset: u32, capacity: u32, length: u32) -> Result<
    (Seq<u8>, Seq<Option<Seq<u8>>>),
    RuntimeFault,
> {
    if offset == 0 {
        Err(RuntimeFault::NullPointer)
    } else if offset > m.len() || m[offset - 1] is None {
        Err(RuntimeFault::AlreadyConsumed)
    } else if capacity != m[offset - 1]->0.len() || length > capacity {
        Err(RuntimeFault::InvalidRegion)
    } else {
        Ok((m[offset - 1]->0.subrange(0, length as int), m.update(offset - 1, None)))
    }
}

/// What freeing `capacity` bytes at `handle` does to the allocations `m`.
pub open spec fn free_outcome(m: Seq<Option<Seq<u8>>>, handle: u32, capacity: u32) -> Result<
    Seq<Option<Seq<u8>>>,
    RuntimeFault,
> {
    if handle == 0 {
        Err(RuntimeFault::NullPointer)
    } else if handle > m.len() || m[handle - 1] is None {
        Err(RuntimeFault::AlreadyConsumed)
    } else if capacity != m[handle - 1]->0.len() {
        Err(RuntimeFault::InvalidRegion)
    } else {
        Ok(m.update(handle - 1, None))
    }
}

impl View for Memory {
    type V = Seq<Option<Seq<u8>>>;

    closed spec fn view(&self) -> Seq<Option<Seq<u8>>> {
        self.slots@.map_values(|s: Option<Vec<u8>>| slot_view(s))
    }
}

impl Memory {
    pub fn new() -> (r: Memory)
        ensures
            r@ == Seq::<Option<Seq<u8>>>::empty(),
    {
        let r = Memory { slots: Vec::new() };
        assert(r@ =~= Seq::<Option<Seq<u8>>>::empty());
        r
    }

    /// How many allocations were made, live or not.
    pub fn slot_count(&self) -> (r: usize)
        ensures
            r == self@.len(),
    {
        self.slots.len()
    }

    /// Reserves `size` zeroed bytes and returns their handle; whoever holds the
    /// handle owns the allocation.
    pub fn allocate(&mut self, size: usize) -> (r: u32)
        requires
            old(self)@.len() < u32::MAX,
        ensures
            r == old(self)@.len() + 1,
            final(self)@ == old(self)@.push(Some(Seq::new(size as nat, |i: int| 0u8))),
    {
        let mut buf: Vec<u8> = Vec::new();
        let mut i: usize = 0;
        while i < size
            invariant
                0 <= i <= size,
                buf@ =~= Seq::new(i as nat, |k: int| 0u8),
            decreases size - i,
        {
            buf.push(0);
            i += 1;
        }
        self.slots.push(Some(buf));
        assert(self@ =~= old(self)@.push(Some(Seq::new(size as nat, |k: int| 0u8))));
        self.slots.len() as u32
    }

    /// Moves an owned buffer into the allocations and returns the descriptor
    /// that hands it over.
    pub fn release_buffer(&mut self, buffer: Vec<u8>) -> (r: Region)
        requires
            old(self)@.len() < u32::MAX,
            buffer@.len() <= u32::MAX,
        ensures
            final(self)@ == old(self)@.push(Some(buffer@)),
            r.offset == old(self)@.len() + 1,
            r.capacity == buffer@.len(),
            r.length == buffer@.len(),
    {
        let len = buffer.len() as u32;
        self.slots.push(Some(buffer));
        assert(self@ =~= old(self)@.push(Some(buffer@)));
        Region { offset: self.slots.len() as u32, capacity: len, length: len }
    }

    /// Describes the live allocation at `handle` without taking it.
    pub fn build_region(&self, handle: u32) -> (r: Option<Region>)
        ensures
            r is Some <==> (1 <= handle <= self@.len() && self@[handle - 1] is Some
                && self@[handle - 1]->0.len() <= u32::MAX),
            r matches Some(g) ==> g.offset == handle && g.capacity == self@[handle - 1]->0.len()
                && g.length == g.capacity,
    {
        if handle == 0 || handle as usize > self.slots.len() {
            return None;
        }
        match &self.slots[handle as usize - 1] {
            Some(b) => {
                if b.len() > u32::MAX as usize {
                    None
                } else {
                    Some(Region { offset: handle, capacity: b.len() as u32, length: b.len() as u32 })
                }
            },
            None => None,
        }
    }

    /// Turns a descriptor back into the owned buffer it names. The slot is
    /// emptied, so the buffer can be handed out once only.
    pub fn consume_region(&mut self, region: Region) -> (r: Result<Vec<u8>, RuntimeFault>)
        ensures
            r matches Ok(b) ==> consume_outcome(
                old(self)@,
                region.offset,
                region.capacity,
                region.length,
            ) == Ok::<(Seq<u8>, Seq<Option<Seq<u8>>>), RuntimeFault>((b@, final(self)@)),
            r matches Err(f) ==> consume_outcome(
                old(self)@,
                region.offset,
                region.capacity,
                region.length,
            ) == Err::<(Seq<u8>, Seq<Option<Seq<u8>>>), RuntimeFault>(f) && final(self)@ == old(
                self,
            )@,
    {
        if region.offset == 0 {
            return Err(RuntimeFault::NullPointer);
        }
        let idx = region.offset as usize - 1;
        if idx >= self.slots.len() {
            return Err(RuntimeFault::AlreadyConsumed);
        }
        let cap = match &self.slots[idx] {
            Some(b) => b.len(),
            None => {
                return Err(RuntimeFault::AlreadyConsumed);
            },
        };
        if region.capacity as usize != cap || region.length > region.capacity {
            return Err(RuntimeFault::InvalidRegion);
        }
        let taken = self.take_slot(idx);
        let mut buf = match taken {
            Some(b) => b,
            None => Vec::new(),
        };
        buf.truncate(region.length as usize);
        Ok(buf)
    }

    /// Frees an allocation that was never consumed.
    pub fn deallocate(&mut self, handle: u32, capacity: u32) -> (r: Result<(), RuntimeFault>)
        ensures
            r matches Ok(_) ==> free_outcome(old(self)@, handle, capacity) == Ok::<
                Seq<Option<Seq<u8>>>,
                RuntimeFault,
            >(final(self)@),
            r matches Err(f) ==> free_outcome(old(self)@, handle, capacity) == Err::<
                Seq<Option<Seq<u8>>>,
                RuntimeFault,
            >(f) && final(self)@ == old(self)@,
    {
        if handle == 0 {
            return Err(RuntimeFault::NullPointer);
        }
        let idx = handle as usize - 1;
        if idx >= self.slots.len() {
            return Err(RuntimeFault::AlreadyConsumed);
        }
        let cap = match &self.slots[idx] {
            Some(b) => b.len(),
            None => {
                return Err(RuntimeFault::AlreadyConsumed);
            },
        };
        if capacity as usize != cap {
            return Err(RuntimeFault::InvalidRegion);
        }
        let _ = self.take_slot(idx);
        Ok(())
    }

    fn take_slot(&mut self, idx: usize) -> (r: Option<Vec<u8>>)
        requires
            idx < old(self)@.len(),
        ensures
            slot_view(r) == old(self)@[idx as int],
            final(self)@ == old(self)@.update(idx as int, None),
    {
        let mut slot: Option<Vec<u8>> = None;
        std::mem::swap(&mut slot, &mut self.slots[idx]);
        assert(self@ =~= old(self)@.update(idx as int, None));
        slot
    }
}

/// Reading back a descriptor's wire form gives the same three fields.
pub proof fn lemma_region_round_trip(offset: u32, capacity: u32, length: u32)
    ensures
        region_bytes(offset, capacity, length).len() == 12,
        u32_at(region_bytes(offset, capacity, length), 0) == offset,
        u32_at(region_bytes(offset, capacity, length), 4) == capacity,
        u32_at(region_bytes(offset, capacity, length), 8) == length,
{
    let e = Seq::<u8>::empty();
    let data = region_bytes(offset, capacity, length);
    lemma_round_trip_u32(e, offset, enc_u32(capacity) + enc_u32(length));
    assert(data =~= e + enc_u32(offset) + (enc_u32(capacity) + enc_u32(length)));
    lemma_round_trip_u32(enc_u32(offset), capacity, enc_u32(length));
    assert(data =~= enc_u32(offset) + enc_u32(capacity) + enc_u32(length));
    lemma_round_trip_u32(enc_u32(offset) + enc_u32(capacity), length, e);
    assert(data =~= enc_u32(offset) + enc_u32(capacity) + enc_u32(length) + e);
}

/// A descriptor that was consumed once is refused as already consumed the
/// second time, and that refusal leaves the allocations as they were.
pub proof fn lemma_single_consumption(
    m: Seq<Option<Seq<u8>>>,
    offset: u32,
    capacity: u32,
    length: u32,
)
    requires
        consume_outcome(m, offset, capacity, length) is Ok,
    ensures
        consume_outcome(consume_outcome(m, offset, capacity, length)->Ok_0.1, offset, capacity, length)
            == Err::<(Seq<u8>, Seq<Option<Seq<u8>>>), RuntimeFault>(RuntimeFault::AlreadyConsumed),
{
}

} // verus!
