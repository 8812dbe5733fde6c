//! Handler identifiers and the interfaces between the hypervisor and the
//! virtual machines it hosts.
use vstd::prelude::*;
use vstd::utf8::*;
use crate::code::ErrorCode;
use crate::hypervisor::{ExecContext, Transaction};
use crate::packet::MessagePacket;

verus! {

/// The byte that separates a VM name from a handler name.
pub const HANDLER_ID_SEPARATOR: u8 = 58;

/// Identifies the VM and the handler within it that back an account.
pub struct HandlerID {
    /// The name of the VM.
    pub vm: String,
    /// The handler's name within the VM.
    pub vm_handler_id: String,
}

/// Static metadata of a handler.
pub struct HandlerDescriptor {
    /// The parameters an account's storage is initialized with.
    pub storage_params: Option<Vec<u8>>,
}

/// A descriptor as its storage parameters.
pub open spec fn descriptor_view(d: Option<HandlerDescriptor>) -> Option<Option<Seq<u8>>> {
    match d {
        Some(d) => Some(
            match d.storage_params {
                Some(p) => Some(p@),
                None => None,
            },
        ),
        None => None,
    }
}

/// The parameters a new account's storage is initialized with: those the
/// handler declares, or none.
pub open spec fn declared_params(p: Option<Seq<u8>>) -> Seq<u8> {
    match p {
        Some(p) => p,
        None => Seq::empty(),
    }
}

/// The index of the first separator in `b` at or after `i`, or the length
/// of `b` when there is none.
pub open spec fn separator_from(b: Seq<u8>, i: int) -> int
    decreases b.len() - i,
{
    if i >= b.len() {
        b.len() as int
    } else if b[i] == HANDLER_ID_SEPARATOR {
        i
    } else {
        separator_from(b, i + 1)
    }
}

/// The first two separator-delimited fields of `b`, when it has at least
/// two.
pub open spec fn handler_id_fields(b: Seq<u8>) -> Option<(Seq<u8>, Seq<u8>)> {
    let i = separator_from(b, 0);
    if i >= b.len() {
        None
    } else {
        let rest = b.subrange(i + 1, b.len() as int);
        Some((b.subrange(0, i), rest.subrange(0, separator_from(rest, 0))))
    }
}

/// The VM name and handler name that `b` encodes as `vm:handler`, each
/// decoded from UTF-8; fields after the second are ignored.
pub open spec fn parse_handler_id_spec(b: Seq<u8>) -> Option<(Seq<char>, Seq<char>)> {
    match handler_id_fields(b) {
        Some((vm, h)) => if valid_utf8(vm) && valid_utf8(h) {
            Some((decode_utf8(vm), decode_utf8(h)))
        } else {
            None
        },
        None => None,
    }
}

/// Relies on `String::from_utf8`: it succeeds exactly on valid UTF-8 and
/// then holds the decoded characters.
#[verifier::external_body]
fn string_from_utf8(bytes: &[u8]) -> (r: Option<String>)
    ensures
        r.is_some() == valid_utf8(bytes@),
        r.is_some() ==> r.unwrap()@ == decode_utf8(bytes@),
{
    String::from_utf8(bytes.to_vec()).ok()
}

/// The index of the first separator in `b` at or after `start`, or the
/// length of `b`.
fn find_separator(b: &[u8], start: usize) -> (r: usize)
    requires
        start <= b@.len(),
    ensures
        r == separator_from(b@, start as int),
        start <= r <= b@.len(),
{
    let mut i: usize = start;
    while i < b.len()
        invariant
            start <= i <= b@.len(),
            separator_from(b@, start as int) == separator_from(b@, i as int),
        decreases b@.len() - i,
    {
        if b[i] == HANDLER_ID_SEPARATOR {
            return i;
        }
        i = i + 1;
    }
    i
}

/// Parses a `vm:handler` identifier.
pub fn parse_handler_id(value: &[u8]) -> (r: Option<HandlerID>)
    ensures
        r.is_some() == parse_handler_id_spec(value@).is_some(),
        r.is_some() ==> (r.unwrap().vm@, r.unwrap().vm_handler_id@) == parse_handler_id_spec(value@).unwrap(),
{
    let i = find_separator(value, 0);
    if i >= value.len() {
        return None;
    }
    let rest = vstd::slice::slice_subrange(value, i + 1, value.len());
    let j = find_separator(rest, 0);
    let vm = string_from_utf8(vstd::slice::slice_subrange(value, 0, i));
    let handler = string_from_utf8(vstd::slice::slice_subrange(rest, 0, j));
    match (vm, handler) {
        (Some(vm), Some(vm_handler_id)) => Some(HandlerID { vm, vm_handler_id }),
        _ => None,
    }
}

/// A virtual machine that runs account handlers.
pub trait Vm: Sized {

    /// Run a handler on a packet; nested calls go through `backend`, and
    /// every frame they push they also pop.
    fn run_handler<TX: Transaction>(
        &self,
        vm_handler_id: &str,
        message_packet: &mut MessagePacket,
        backend: &mut ExecContext<'_, Self, TX>,
    ) -> (r: Result<(), ErrorCode>)
        requires
            old(backend).frame_stack().len() > 0,
        ensures
            final(backend).frame_stack() == old(backend).frame_stack(),
            final(backend).vms_view() == old(backend).vms_view(),
            final(backend).saved_states() == old(backend).saved_states(),
    ;

    /// Describe a handler, if the VM has it.
    fn describe_handler(&self, vm_handler_id: &str) -> Option<HandlerDescriptor>;
}

} // verus!
