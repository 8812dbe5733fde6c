//! Execution core of an account-based virtual-machine host: the message
//! packet and data-pointer codec, and the hypervisor that dispatches
//! packets to virtual machines inside frame-scoped transactions.
pub mod account;
pub mod code;
pub mod data_pointer;
pub mod packet;
pub mod resource;
pub mod handler;
pub mod hypervisor;
pub mod memory;
