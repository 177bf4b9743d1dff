//! A hardware-style register inspection core: a bit-level register data
//! model, an address-keyed register map, and the asynchronous transaction
//! protocol that coordinates the map with a worker performing simulated
//! register reads and writes.
//!
//! The presentation layer is out of scope: it hands the coordinator
//! already-decoded intents and renders the map afterwards.

pub mod channel;
pub mod coordinator;
pub mod laws;
pub mod protocol;
pub mod reg_map;
pub mod register;
pub mod worker;

pub use channel::Channel;
pub use coordinator::Coordinator;
pub use coordinator::SenderState;
pub use protocol::Event;
pub use protocol::Fault;
pub use protocol::Message;
pub use protocol::WorkerInput;
pub use reg_map::RegisterMap;
pub use register::bit_value;
pub use register::register;
pub use register::toggle_bit;
pub use register::Field;
pub use register::Register;
pub use register::RegisterMessage;
pub use worker::ReceiverState;
pub use worker::TransactionWorker;
