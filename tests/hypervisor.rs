use ixc_hypervisor::account::{AccountID, ACCOUNT_ID_NON_RESERVED_START};
use ixc_hypervisor::code::{ErrorCode, HandlerErrorCode, SystemErrorCode};
use ixc_hypervisor::data_pointer::{DataPointer, LocalPointer};
use ixc_hypervisor::handler::{parse_handler_id, HandlerDescriptor, Vm};
use ixc_hypervisor::hypervisor::{
    counter_key, create_account, descriptor_params, enter_frame, handler_key, leave_frame,
    next_account_id, on_create_outcome, ExecContext,
    Hypervisor, KVStore, PopFrameError, StateHandler, Transaction, CREATE_SELECTOR,
    ON_CREATE_SELECTOR,
};
use ixc_hypervisor::memory::{MemoryKVStore, MemoryStateHandler};
use ixc_hypervisor::packet::{MessageHeader, MessagePacket, MESSAGE_HEADER_SIZE};

const CUSTOM_FAILURE: u16 = 7;

/// A VM whose handlers are named after what they do.
struct ScriptVm;

fn packet_to(sender: u64, target: u64, selector: u64) -> MessagePacket {
    let mut header = MessageHeader::default();
    header.sender_account = AccountID::new(sender);
    header.account = AccountID::new(target);
    header.message_selector = selector;
    MessagePacket::new(header, Vec::new(), Vec::new())
}

fn create_packet(sender: u64, handler_id: &[u8], init_data: &[u8]) -> MessagePacket {
    let mut header = MessageHeader::default();
    header.sender_account = AccountID::new(sender);
    header.account = AccountID::empty();
    header.message_selector = CREATE_SELECTOR;
    let mut native = Vec::new();
    header.in_pointer1.set_slice(&mut native, handler_id);
    header.in_pointer2.set_slice(&mut native, init_data);
    MessagePacket::new(header, Vec::new(), native)
}

impl Vm for ScriptVm {
    fn run_handler<TX: Transaction>(
        &self,
        vm_handler_id: &str,
        message_packet: &mut MessagePacket,
        backend: &mut ExecContext<'_, Self, TX>,
    ) -> Result<(), ErrorCode> {
        let me = message_packet.header().account.get();
        let on_create = message_packet.header().message_selector == ON_CREATE_SELECTOR;
        if on_create && vm_handler_id != "hooked" {
            return Err(ErrorCode::HandlerSystemError(HandlerErrorCode::MessageNotHandled));
        }
        match vm_handler_id {
            "plain" => Err(ErrorCode::HandlerSystemError(HandlerErrorCode::MessageNotHandled)),
            "hooked" => {
                if !on_create {
                    return Ok(());
                }
                let init = message_packet.header().in_pointer1.get(message_packet);
                if init == b"fail" {
                    Err(ErrorCode::HandlerCode(CUSTOM_FAILURE))
                } else {
                    Ok(())
                }
            }
            "creator_fails" => {
                let mut nested = create_packet(me, b"script:plain", b"");
                backend.invoke(&mut nested)?;
                Err(ErrorCode::HandlerCode(CUSTOM_FAILURE))
            }
            "creator" => {
                let mut nested = create_packet(me, b"script:plain", b"");
                backend.invoke(&mut nested)
            }
            "allocator" => {
                if backend.allocate(4) == vec![0u8; 4] && backend.allocate(0).is_empty() {
                    Ok(())
                } else {
                    Err(ErrorCode::HandlerCode(CUSTOM_FAILURE))
                }
            }
            "spoof" => {
                let mut nested = create_packet(me + 1, b"script:plain", b"");
                backend.invoke(&mut nested)
            }
            _ => Err(ErrorCode::HandlerSystemError(HandlerErrorCode::MessageNotHandled)),
        }
    }

    fn describe_handler(&self, vm_handler_id: &str) -> Option<HandlerDescriptor> {
        if vm_handler_id == "missing" {
            None
        } else {
            Some(HandlerDescriptor { storage_params: Some(vm_handler_id.as_bytes().to_vec()) })
        }
    }
}

fn hypervisor() -> Hypervisor<MemoryStateHandler, ScriptVm> {
    let mut hv = Hypervisor::new(MemoryStateHandler::new());
    assert_eq!(hv.register_vm("script", ScriptVm), Ok(()));
    hv
}

fn stored_params(hv: &Hypervisor<MemoryStateHandler, ScriptVm>, id: u64) -> Option<Vec<u8>> {
    hv.state_handler().storage_params(AccountID::new(id))
}

fn create(hv: &mut Hypervisor<MemoryStateHandler, ScriptVm>, handler_id: &[u8]) -> Result<(), ErrorCode> {
    let mut p = create_packet(1, handler_id, b"init");
    hv.invoke(&mut p)
}

fn not_found() -> Result<(), ErrorCode> {
    Err(ErrorCode::RuntimeSystemError(SystemErrorCode::HandlerNotFound))
}

#[test]
fn test_parse_handler_id() {
    let value = b"vm1:handler1";
    let handler_id = parse_handler_id(value).unwrap();
    assert_eq!(handler_id.vm, "vm1");
    assert_eq!(handler_id.vm_handler_id, "handler1");
}

#[test]
fn parse_handler_id_edge_cases() {
    assert!(parse_handler_id(b"vm1").is_none());
    assert!(parse_handler_id(b"").is_none());
    let h = parse_handler_id(b"a:b:c").unwrap();
    assert_eq!((h.vm.as_str(), h.vm_handler_id.as_str()), ("a", "b"));
    let h = parse_handler_id(b":").unwrap();
    assert_eq!((h.vm.as_str(), h.vm_handler_id.as_str()), ("", ""));
    assert!(parse_handler_id(b"\xff:x").is_none());
    assert!(parse_handler_id(b"x:\xc3").is_none());
    let h = parse_handler_id("v\u{e9}:h".as_bytes()).unwrap();
    assert_eq!(h.vm, "v\u{e9}");
}

#[test]
fn bookkeeping_keys() {
    assert_eq!(handler_key(AccountID::new(65536)), b"h:65536".to_vec());
    assert_eq!(handler_key(AccountID::new(0)), b"h:0".to_vec());
    assert_eq!(handler_key(AccountID::new(u64::MAX)), b"h:18446744073709551615".to_vec());
    assert_eq!(counter_key(), b"next_account_id".to_vec());
}

#[test]
fn account_ids_count_up_from_first_non_reserved() {
    let mut tx = MemoryStateHandler::new().new_transaction();
    assert_eq!(ACCOUNT_ID_NON_RESERVED_START, 65536);
    assert_eq!(next_account_id(&mut tx), Some(AccountID::new(65536)));
    assert_eq!(next_account_id(&mut tx), Some(AccountID::new(65537)));
    assert_eq!(next_account_id(&mut tx), Some(AccountID::new(65538)));
}

#[test]
fn malformed_or_spent_counter_yields_no_id() {
    let mut tx = MemoryStateHandler::new().new_transaction();
    tx.manager_state().set(b"next_account_id", b"bad");
    assert_eq!(next_account_id(&mut tx), None);
    tx.manager_state().set(b"next_account_id", &u64::MAX.to_le_bytes());
    assert_eq!(next_account_id(&mut tx), None);
    assert_eq!(tx.manager_state().get(b"next_account_id"), Some(u64::MAX.to_le_bytes().to_vec()));
}

#[test]
fn create_account_records_everything() {
    let mut tx = MemoryStateHandler::new().new_transaction();
    let (id, packet) = create_account(&mut tx, b"vm:h", b"params", b"init data").unwrap();
    assert_eq!(id, AccountID::new(65536));
    assert_eq!(packet.header().message_selector, ON_CREATE_SELECTOR);
    assert_eq!(packet.header().in_pointer1.get(&packet), b"init data");
    assert_eq!(tx.manager_state().get(b"h:65536"), Some(b"vm:h".to_vec()));
    assert_eq!(tx.manager_state().get(b"next_account_id"), Some(65537u64.to_le_bytes().to_vec()));
}

#[test]
fn on_create_not_handled_counts_as_success() {
    let not_handled = Err(ErrorCode::HandlerSystemError(HandlerErrorCode::MessageNotHandled));
    assert_eq!(on_create_outcome(not_handled), Ok(()));
    assert_eq!(on_create_outcome(Ok(())), Ok(()));
    let custom = Err(ErrorCode::HandlerCode(3));
    assert_eq!(on_create_outcome(custom), custom);
    assert_eq!(on_create_outcome(not_found()), not_found());
}

#[test]
fn frame_stack_push_and_pop() {
    let mut tx = MemoryStateHandler::new().new_transaction();
    assert_eq!(tx.pop_frame(true), Err(PopFrameError::NoFrames));
    assert_eq!(tx.pop_frame(false), Err(PopFrameError::NoFrames));
    assert!(tx.push_frame(AccountID::new(5), false).is_ok());
    assert!(tx.push_frame(AccountID::new(6), true).is_ok());
    assert_eq!(tx.active_account(), AccountID::new(6));
    assert_eq!(tx.pop_frame(true), Ok(()));
    assert_eq!(tx.active_account(), AccountID::new(5));
    assert_eq!(tx.pop_frame(true), Ok(()));
    assert_eq!(tx.pop_frame(true), Err(PopFrameError::NoFrames));
}

#[test]
fn frame_rollback_discards_its_writes() {
    let mut tx = MemoryStateHandler::new().new_transaction();
    tx.manager_state().set(b"k", b"before");
    assert!(tx.push_frame(AccountID::new(5), false).is_ok());
    tx.manager_state().set(b"k", b"inside");
    tx.manager_state().delete(b"k");
    tx.init_account_storage(AccountID::new(9), b"p");
    assert_eq!(tx.pop_frame(false), Ok(()));
    assert_eq!(tx.manager_state().get(b"k"), Some(b"before".to_vec()));
    assert!(tx.push_frame(AccountID::new(5), false).is_ok());
    tx.manager_state().delete(b"k");
    assert_eq!(tx.pop_frame(true), Ok(()));
    assert_eq!(tx.manager_state().get(b"k"), None);
}

#[test]
fn memory_kv_store_operations() {
    let mut kv = MemoryKVStore::new();
    assert_eq!(kv.get(b"a"), None);
    kv.set(b"a", b"1");
    kv.set(b"b", b"2");
    kv.set(b"a", b"3");
    assert_eq!(kv.get(b"a"), Some(b"3".to_vec()));
    assert_eq!(kv.get(b"b"), Some(b"2".to_vec()));
    kv.delete(b"a");
    assert_eq!(kv.get(b"a"), None);
    assert_eq!(kv.get(b"b"), Some(b"2".to_vec()));
}

#[test]
fn create_account_without_on_create_succeeds() {
    let mut hv = hypervisor();
    assert_eq!(create(&mut hv, b"script:plain"), Ok(()));
    assert_eq!(stored_params(&hv, 65536), Some(b"plain".to_vec()));
    assert_eq!(hv.state_handler().manager_value(b"h:65536"), Some(b"script:plain".to_vec()));
}

#[test]
fn create_account_with_on_create_succeeds() {
    let mut hv = hypervisor();
    assert_eq!(create(&mut hv, b"script:hooked"), Ok(()));
    assert_eq!(stored_params(&hv, 65536), Some(b"hooked".to_vec()));
}

#[test]
fn account_ids_persist_across_invocations() {
    let mut hv = hypervisor();
    assert_eq!(create(&mut hv, b"script:plain"), Ok(()));
    assert_eq!(create(&mut hv, b"script:hooked"), Ok(()));
    assert_eq!(stored_params(&hv, 65536), Some(b"plain".to_vec()));
    assert_eq!(stored_params(&hv, 65537), Some(b"hooked".to_vec()));
    assert_eq!(
        hv.state_handler().manager_value(b"next_account_id"),
        Some(65538u64.to_le_bytes().to_vec())
    );
}

#[test]
fn failing_on_create_abandons_the_account() {
    let mut hv = hypervisor();
    let mut p = create_packet(1, b"script:hooked", b"fail");
    assert_eq!(hv.invoke(&mut p), Err(ErrorCode::HandlerCode(CUSTOM_FAILURE)));
    assert_eq!(stored_params(&hv, 65536), None);
    assert_eq!(hv.state_handler().manager_value(b"next_account_id"), None);
}

#[test]
fn create_with_unknown_vm_or_handler_is_not_found() {
    let mut hv = hypervisor();
    assert_eq!(create(&mut hv, b"other:plain"), not_found());
    assert_eq!(create(&mut hv, b"script:missing"), not_found());
    assert_eq!(create(&mut hv, b"no separator"), not_found());
    assert_eq!(stored_params(&hv, 65536), None);
}

#[test]
fn create_reads_handler_id_from_payload() {
    let mut hv = hypervisor();
    let payload = b"script:plain".to_vec();
    let mut header = MessageHeader::default();
    header.sender_account = AccountID::new(1);
    header.message_selector = CREATE_SELECTOR;
    header.in_pointer1 = DataPointer::from_local(LocalPointer {
        len: payload.len() as u32,
        offset: MESSAGE_HEADER_SIZE as u32,
        zero: 0,
    });
    let mut p = MessagePacket::new(header, payload, Vec::new());
    assert_eq!(hv.invoke(&mut p), Ok(()));
    assert_eq!(stored_params(&hv, 65536), Some(b"plain".to_vec()));
}

#[test]
fn unknown_system_selector_is_not_found() {
    let mut hv = hypervisor();
    let mut p = packet_to(1, 0, 42);
    assert_eq!(hv.invoke(&mut p), not_found());
    let mut p = packet_to(1, 0, ON_CREATE_SELECTOR);
    assert_eq!(hv.invoke(&mut p), not_found());
    assert_eq!(hv.state_handler().manager_value(b"next_account_id"), None);
}

#[test]
fn message_to_unknown_account_is_not_found() {
    let mut hv = hypervisor();
    let mut p = packet_to(1, 70000, 42);
    assert_eq!(hv.invoke(&mut p), not_found());
}

#[test]
fn message_to_account_runs_its_handler() {
    let mut hv = hypervisor();
    assert_eq!(create(&mut hv, b"script:hooked"), Ok(()));
    let mut p = packet_to(1, 65536, 42);
    assert_eq!(hv.invoke(&mut p), Ok(()));
    assert_eq!(create(&mut hv, b"script:plain"), Ok(()));
    let mut p = packet_to(1, 65537, 42);
    assert_eq!(
        hv.invoke(&mut p),
        Err(ErrorCode::HandlerSystemError(HandlerErrorCode::MessageNotHandled))
    );
}

#[test]
fn nested_call_as_active_account_is_allowed() {
    let mut hv = hypervisor();
    assert_eq!(create(&mut hv, b"script:creator"), Ok(()));
    let mut p = packet_to(1, 65536, 42);
    assert_eq!(hv.invoke(&mut p), Ok(()));
    assert_eq!(stored_params(&hv, 65537), Some(b"plain".to_vec()));
}

#[test]
fn nested_call_with_other_sender_is_unauthorized() {
    let mut hv = hypervisor();
    assert_eq!(create(&mut hv, b"script:spoof"), Ok(()));
    let mut p = packet_to(1, 65536, 42);
    assert_eq!(
        hv.invoke(&mut p),
        Err(ErrorCode::RuntimeSystemError(SystemErrorCode::UnauthorizedCallerAccess))
    );
    assert_eq!(stored_params(&hv, 65537), None);
}

#[test]
fn failing_handler_rolls_back_nested_writes() {
    let mut hv = hypervisor();
    assert_eq!(create(&mut hv, b"script:creator_fails"), Ok(()));
    let before = hv.state_handler().manager_value(b"next_account_id");
    let mut p = packet_to(1, 65536, 42);
    assert_eq!(hv.invoke(&mut p), Err(ErrorCode::HandlerCode(CUSTOM_FAILURE)));
    assert_eq!(stored_params(&hv, 65537), None);
    assert_eq!(hv.state_handler().manager_value(b"next_account_id"), before);
    assert_eq!(hv.state_handler().manager_value(b"h:65537"), None);
    assert_eq!(create(&mut hv, b"script:plain"), Ok(()));
    assert_eq!(stored_params(&hv, 65537), Some(b"plain".to_vec()));
}

#[test]
fn registering_twice_replaces() {
    let mut hv = hypervisor();
    assert_eq!(hv.register_vm("script", ScriptVm), Ok(()));
    assert_eq!(hv.register_vm("second", ScriptVm), Ok(()));
    assert_eq!(create(&mut hv, b"second:plain"), Ok(()));
}

#[test]
fn handlers_can_allocate_zeroed_buffers() {
    let mut hv = hypervisor();
    assert_eq!(create(&mut hv, b"script:allocator"), Ok(()));
    let mut p = packet_to(1, 65536, 42);
    assert_eq!(hv.invoke(&mut p), Ok(()));
}

#[test]
fn descriptor_params_cases() {
    assert_eq!(descriptor_params(None), not_found().map(|_| Vec::new()));
    let none = HandlerDescriptor { storage_params: None };
    assert_eq!(descriptor_params(Some(none)), Ok(Vec::new()));
    let some = HandlerDescriptor { storage_params: Some(b"xy".to_vec()) };
    assert_eq!(descriptor_params(Some(some)), Ok(b"xy".to_vec()));
}

#[test]
fn leave_frame_keeps_or_discards_by_result() {
    let mut tx = MemoryStateHandler::new().new_transaction();
    assert_eq!(enter_frame(&mut tx, AccountID::new(5), false), Ok(()));
    assert_eq!(enter_frame(&mut tx, AccountID::new(6), false), Ok(()));
    tx.manager_state().set(b"k", b"v");
    let failure = Err(ErrorCode::HandlerCode(CUSTOM_FAILURE));
    assert_eq!(leave_frame(&mut tx, failure), failure);
    assert_eq!(tx.manager_state().get(b"k"), None);
    assert_eq!(tx.active_account(), AccountID::new(5));
    tx.manager_state().set(b"k", b"w");
    assert_eq!(enter_frame(&mut tx, AccountID::new(6), true), Ok(()));
    tx.manager_state().set(b"k", b"x");
    assert_eq!(leave_frame(&mut tx, Ok(())), Ok(()));
    assert_eq!(tx.manager_state().get(b"k"), Some(b"x".to_vec()));
}

#[test]
fn begin_and_conclude_transactions() {
    let mut hv = hypervisor();
    let mut tx = hv.begin_transaction(AccountID::new(9)).unwrap();
    assert_eq!(tx.active_account(), AccountID::new(9));
    tx.manager_state().set(b"k", b"v");
    let failure = Err(ErrorCode::HandlerCode(CUSTOM_FAILURE));
    assert_eq!(hv.conclude(tx, failure), failure);
    assert_eq!(hv.state_handler().manager_value(b"k"), None);
    let mut tx = hv.begin_transaction(AccountID::new(9)).unwrap();
    tx.manager_state().set(b"k", b"v");
    assert_eq!(hv.conclude(tx, Ok(())), Ok(()));
    assert_eq!(hv.state_handler().manager_value(b"k"), Some(b"v".to_vec()));
}
