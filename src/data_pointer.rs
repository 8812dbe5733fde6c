//! Data pointers: 16-byte references to input or output buffers.
use vstd::prelude::*;
use vstd::bytes::*;
use crate::packet::{MessagePacket, MESSAGE_HEADER_SIZE};

verus! {

/// Number of bytes in the wire form of a data pointer.
pub const DATA_POINTER_SIZE: usize = 16;

/// A pointer to input or output data of a message.
///
/// The three fields share one layout between two readings, selected by
/// `tag`: with a zero tag the pointer is local (`offset_or_capacity` is an
/// offset into the packet's own buffer); with a non-zero tag it is native
/// (`offset_or_capacity` is a capacity and `tag` names a region of memory
/// outside the packet).
#[derive(Clone, Copy, Debug, PartialEq, Eq, Structural)]
pub struct DataPointer {
    /// The length of the data.
    pub len: u32,
    /// The offset of local data, or the capacity of native data.
    pub offset_or_capacity: u32,
    /// Zero for local data; otherwise the handle of the native region.
    pub tag: u64,
}

/// A pointer to data outside the message packet.
#[derive(Clone, Copy, Debug, PartialEq, Eq, Structural)]
pub struct NativePointer {
    /// The length of the data.
    pub len: u32,
    /// The capacity of the data.
    pub capacity: u32,
    /// The handle of the region holding the data: one more than its index
    /// among the packet's native regions, zero for none.
    pub pointer: u64,
}

/// A pointer to data inside the message packet.
#[derive(Clone, Copy, Debug, PartialEq, Eq, Structural)]
pub struct LocalPointer {
    /// The length of the data.
    pub len: u32,
    /// The offset of the data from the start of the message packet.
    pub offset: u32,
    /// Zero, to denote that the data is inside the message packet.
    pub zero: u64,
}

impl Default for NativePointer {
    fn default() -> (r: Self)
        ensures
            r == (NativePointer { len: 0, capacity: 0, pointer: 0 }),
    {
        NativePointer { len: 0, capacity: 0, pointer: 0 }
    }
}

impl Default for LocalPointer {
    fn default() -> (r: Self)
        ensures
            r == (LocalPointer { len: 0, offset: 0, zero: 0 }),
    {
        LocalPointer { len: 0, offset: 0, zero: 0 }
    }
}

impl Default for DataPointer {
    fn default() -> (r: Self)
        ensures
            r == DataPointer::null(),
    {
        DataPointer::from_local(LocalPointer::default())
    }
}

/// The wire form of a pointer's fields: length, offset or capacity, and
/// tag, each little-endian.
pub open spec fn wire_bytes(len: u32, offset_or_capacity: u32, tag: u64) -> Seq<u8> {
    spec_u32_to_le_bytes(len) + spec_u32_to_le_bytes(offset_or_capacity) + spec_u64_to_le_bytes(tag)
}

impl DataPointer {
    /// The empty local pointer.
    pub open spec fn null() -> DataPointer {
        DataPointer { len: 0, offset_or_capacity: 0, tag: 0 }
    }

    /// The pointer that encoding `b` as native data yields when the packet
    /// already holds `n_regions` native regions.
    pub open spec fn external(n_regions: int, b: Seq<u8>) -> DataPointer {
        DataPointer { len: b.len() as u32, offset_or_capacity: b.len() as u32, tag: (n_regions + 1) as u64 }
    }

    /// The bytes this pointer denotes in `packet`.
    ///
    /// A local pointer denotes its range of the packet's buffer when that
    /// range lies after the header and within the buffer, and nothing
    /// otherwise. A native pointer denotes the first `len` bytes of the
    /// region it names, and nothing when there is no such region or it is
    /// shorter than `len`.
    pub open spec fn decode(self, packet: MessagePacket) -> Seq<u8> {
        let len = self.len as int;
        if self.tag == 0 {
            let off = self.offset_or_capacity as int;
            if off < MESSAGE_HEADER_SIZE || off + len > packet.spec_len() {
                Seq::empty()
            } else {
                packet.payload@.subrange(off - MESSAGE_HEADER_SIZE, off + len - MESSAGE_HEADER_SIZE)
            }
        } else {
            let h = self.tag as int;
            if h > packet.native@.len() || len > packet.native@[h - 1]@.len() {
                Seq::empty()
            } else {
                packet.native@[h - 1]@.subrange(0, len)
            }
        }
    }

    /// The 16-byte wire form of this pointer.
    pub open spec fn wire(self) -> Seq<u8> {
        wire_bytes(self.len, self.offset_or_capacity, self.tag)
    }

    /// The local pointer with the given fields.
    pub fn from_local(p: LocalPointer) -> (r: DataPointer)
        ensures
            r == (DataPointer { len: p.len, offset_or_capacity: p.offset, tag: p.zero }),
    {
        DataPointer { len: p.len, offset_or_capacity: p.offset, tag: p.zero }
    }

    /// The native pointer with the given fields.
    pub fn from_native(p: NativePointer) -> (r: DataPointer)
        ensures
            r == (DataPointer { len: p.len, offset_or_capacity: p.capacity, tag: p.pointer }),
    {
        DataPointer { len: p.len, offset_or_capacity: p.capacity, tag: p.pointer }
    }

    /// Whether the pointer denotes data inside the packet.
    pub fn is_local(&self) -> (r: bool)
        ensures
            r == (self.tag == 0),
    {
        self.tag == 0
    }

    /// The pointer read as a local pointer.
    pub fn local_pointer(&self) -> (r: LocalPointer)
        ensures
            r == (LocalPointer { len: self.len, offset: self.offset_or_capacity, zero: self.tag }),
    {
        LocalPointer { len: self.len, offset: self.offset_or_capacity, zero: self.tag }
    }

    /// The pointer read as a native pointer.
    pub fn native_pointer(&self) -> (r: NativePointer)
        ensures
            r == (NativePointer { len: self.len, capacity: self.offset_or_capacity, pointer: self.tag }),
    {
        NativePointer { len: self.len, capacity: self.offset_or_capacity, pointer: self.tag }
    }

    /// Gets the data that the pointer points to as a slice of bytes.
    ///
    /// A malformed pointer yields an empty slice rather than an error.
    pub fn get<'a>(&self, message_packet: &'a MessagePacket) -> (r: &'a [u8])
        ensures
            r@ == self.decode(*message_packet),
    {
        let len = self.len as usize;
        if self.tag == 0 {
            let off = self.offset_or_capacity as usize;
            if off < MESSAGE_HEADER_SIZE {
                return &[];
            }
            let start = off - MESSAGE_HEADER_SIZE;
            if start as u64 + len as u64 > message_packet.payload.len() as u64 {
                return &[];
            }
            vstd::slice::slice_subrange(message_packet.payload.as_slice(), start, start + len)
        } else {
            if self.tag > message_packet.native.len() as u64 {
                return &[];
            }
            let region = &message_packet.native[(self.tag - 1) as usize];
            if len > region.len() {
                return &[];
            }
            vstd::slice::slice_subrange(region.as_slice(), 0, len)
        }
    }

    /// Sets a slice of bytes as the data that lives outside the message
    /// packet: `data` becomes a new region at the end of `native`, and the
    /// pointer a native pointer to all of it.
    pub fn set_slice(&mut self, native: &mut Vec<Vec<u8>>, data: &[u8])
        requires
            data@.len() <= u32::MAX,
            old(native)@.len() < u64::MAX,
        ensures
            *final(self) == DataPointer::external(old(native)@.len() as int, data@),
            final(native)@.len() == old(native)@.len() + 1,
            final(native)@.drop_last() == old(native)@,
            final(native)@.last()@ == data@,
    {
        let n = native.len();
        native.push(vstd::slice::slice_to_vec(data));
        let len = data.len() as u32;
        self.len = len;
        self.offset_or_capacity = len;
        self.tag = n as u64 + 1;
        proof {
            assert(native@.drop_last() =~= old(native)@);
        }
    }

    /// The 16-byte wire form of this pointer.
    pub fn to_bytes(&self) -> (r: Vec<u8>)
        ensures
            r@ == self.wire(),
            r@.len() == DATA_POINTER_SIZE,
    {
        proof {
            lemma_auto_spec_u32_to_from_le_bytes();
            lemma_auto_spec_u64_to_from_le_bytes();
        }
        let mut r = u32_to_le_bytes(self.len);
        let mut b = u32_to_le_bytes(self.offset_or_capacity);
        r.append(&mut b);
        let mut c = u64_to_le_bytes(self.tag);
        r.append(&mut c);
        r
    }

    /// Reads a pointer from its 16-byte wire form.
    pub fn from_bytes(bytes: &[u8]) -> (r: DataPointer)
        requires
            bytes@.len() == DATA_POINTER_SIZE,
        ensures
            r.wire() == bytes@,
    {
        proof {
            lemma_auto_spec_u32_to_from_le_bytes();
            lemma_auto_spec_u64_to_from_le_bytes();
        }
        let len = u32_from_le_bytes(vstd::slice::slice_subrange(bytes, 0, 4));
        let oc = u32_from_le_bytes(vstd::slice::slice_subrange(bytes, 4, 8));
        let tag = u64_from_le_bytes(vstd::slice::slice_subrange(bytes, 8, 16));
        let r = DataPointer { len, offset_or_capacity: oc, tag };
        proof {
            assert(bytes@ =~= bytes@.subrange(0, 4) + bytes@.subrange(4, 8) + bytes@.subrange(8, 16));
        }
        r
    }
}

/// Every pointer's wire form is exactly sixteen bytes long.
pub proof fn lemma_wire_size(p: DataPointer)
    ensures
        p.wire().len() == DATA_POINTER_SIZE,
{
    lemma_auto_spec_u32_to_from_le_bytes();
    lemma_auto_spec_u64_to_from_le_bytes();
}

/// Reading a pointer back from its wire form gives the same pointer.
pub proof fn lemma_wire_round_trip(p: DataPointer, q: DataPointer)
    requires
        q.wire() == p.wire(),
    ensures
        q == p,
{
    lemma_auto_spec_u32_to_from_le_bytes();
    lemma_auto_spec_u64_to_from_le_bytes();
    let w = p.wire();
    assert(w.subrange(0, 4) =~= spec_u32_to_le_bytes(p.len));
    assert(q.wire().subrange(0, 4) =~= spec_u32_to_le_bytes(q.len));
    assert(w.subrange(4, 8) =~= spec_u32_to_le_bytes(p.offset_or_capacity));
    assert(q.wire().subrange(4, 8) =~= spec_u32_to_le_bytes(q.offset_or_capacity));
    assert(w.subrange(8, 16) =~= spec_u64_to_le_bytes(p.tag));
    assert(q.wire().subrange(8, 16) =~= spec_u64_to_le_bytes(q.tag));
}

/// A local pointer whose range starts inside the header or runs past the
/// end of the packet decodes to no bytes.
pub proof fn lemma_local_out_of_range_is_empty(p: DataPointer, packet: MessagePacket)
    requires
        p.tag == 0,
        p.offset_or_capacity < MESSAGE_HEADER_SIZE
            || p.offset_or_capacity + p.len > packet.spec_len(),
    ensures
        p.decode(packet) == Seq::<u8>::empty(),
{
}

/// Decoding a pointer just encoded as native data over `b` gives back `b`:
/// the packet holds `n` regions before the encoding and `b` as region `n`.
pub proof fn lemma_external_round_trip(packet: MessagePacket, n: int, b: Seq<u8>)
    requires
        b.len() <= u32::MAX,
        0 <= n < u64::MAX,
        n < packet.native@.len(),
        packet.native@[n]@ == b,
    ensures
        DataPointer::external(n, b).decode(packet) == b,
{
    assert(b.subrange(0, b.len() as int) =~= b);
}

} // verus!
