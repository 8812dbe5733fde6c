//! Message headers and packets.
use vstd::prelude::*;
use crate::account::AccountID;
use vstd::bytes::*;
use crate::data_pointer::{lemma_wire_size, DataPointer};

verus! {

/// Size in bytes of the header at the front of every packet: two account
/// ids, the message selector and four data-pointer slots.
pub const MESSAGE_HEADER_SIZE: usize = 88;

/// The fixed-size header of a message packet.
#[derive(Clone, Copy, Debug, PartialEq, Eq, Structural)]
pub struct MessageHeader {
    /// The account sending the message.
    pub sender_account: AccountID,
    /// The account the message is addressed to.
    pub account: AccountID,
    /// The selector of the message, a hash of its method name.
    pub message_selector: u64,
    /// The first input buffer.
    pub in_pointer1: DataPointer,
    /// The second input buffer.
    pub in_pointer2: DataPointer,
    /// The first output buffer.
    pub out_pointer1: DataPointer,
    /// The second output buffer.
    pub out_pointer2: DataPointer,
}

impl MessageHeader {
    /// The header whose fields are all zero.
    pub open spec fn zeroed() -> MessageHeader {
        MessageHeader {
            sender_account: AccountID::spec_new(0),
            account: AccountID::spec_new(0),
            message_selector: 0,
            in_pointer1: DataPointer::null(),
            in_pointer2: DataPointer::null(),
            out_pointer1: DataPointer::null(),
            out_pointer2: DataPointer::null(),
        }
    }
}

impl MessageHeader {
    /// The wire form of the header: sender, target and selector as
    /// little-endian integers, then the four data pointers.
    pub open spec fn wire(self) -> Seq<u8> {
        spec_u64_to_le_bytes(self.sender_account.value()) + spec_u64_to_le_bytes(self.account.value())
            + spec_u64_to_le_bytes(self.message_selector) + self.in_pointer1.wire() + self.in_pointer2.wire()
            + self.out_pointer1.wire() + self.out_pointer2.wire()
    }

    /// The wire form of the header, `MESSAGE_HEADER_SIZE` bytes long.
    pub fn to_bytes(&self) -> (r: Vec<u8>)
        ensures
            r@ == self.wire(),
            r@.len() == MESSAGE_HEADER_SIZE,
    {
        proof {
            lemma_auto_spec_u64_to_from_le_bytes();
            lemma_wire_size(self.in_pointer1);
            lemma_wire_size(self.in_pointer2);
            lemma_wire_size(self.out_pointer1);
            lemma_wire_size(self.out_pointer2);
        }
        let mut r = u64_to_le_bytes(self.sender_account.get());
        let mut account = u64_to_le_bytes(self.account.get());
        r.append(&mut account);
        let mut selector = u64_to_le_bytes(self.message_selector);
        r.append(&mut selector);
        let mut in1 = self.in_pointer1.to_bytes();
        r.append(&mut in1);
        let mut in2 = self.in_pointer2.to_bytes();
        r.append(&mut in2);
        let mut out1 = self.out_pointer1.to_bytes();
        r.append(&mut out1);
        let mut out2 = self.out_pointer2.to_bytes();
        r.append(&mut out2);
        r
    }
}

impl Default for MessageHeader {
    fn default() -> (r: Self)
        ensures
            r == MessageHeader::zeroed(),
    {
        MessageHeader {
            sender_account: AccountID::empty(),
            account: AccountID::empty(),
            message_selector: 0,
            in_pointer1: DataPointer::default(),
            in_pointer2: DataPointer::default(),
            out_pointer1: DataPointer::default(),
            out_pointer2: DataPointer::default(),
        }
    }
}

/// A message packet: the header, the inline payload that follows it, and
/// the regions of memory outside the packet that native pointers name.
///
/// Offsets of local pointers count from the start of the packet, so the
/// first payload byte sits at offset `MESSAGE_HEADER_SIZE`. A native
/// pointer whose tag is `h` names the region at index `h - 1`.
pub struct MessagePacket {
    /// The header.
    pub header: MessageHeader,
    /// The bytes that follow the header.
    pub payload: Vec<u8>,
    /// Memory owned outside the packet's own buffer.
    pub native: Vec<Vec<u8>>,
}

impl MessagePacket {
    /// The total length of the packet's buffer, header included.
    pub open spec fn spec_len(&self) -> int {
        MESSAGE_HEADER_SIZE + self.payload@.len()
    }

    /// Assembles a packet.
    pub fn new(header: MessageHeader, payload: Vec<u8>, native: Vec<Vec<u8>>) -> (r: MessagePacket)
        ensures
            r.header == header,
            r.payload@ == payload@,
            r.native@ == native@,
    {
        MessagePacket { header, payload, native }
    }

    /// The packet's header.
    pub fn header(&self) -> (r: &MessageHeader)
        ensures
            *r == self.header,
    {
        &self.header
    }

    /// The total length of the packet's buffer, header included.
    pub fn len(&self) -> (r: usize)
        requires
            self.spec_len() <= usize::MAX,
        ensures
            r == self.spec_len(),
    {
        MESSAGE_HEADER_SIZE + self.payload.len()
    }
}

} // verus!
