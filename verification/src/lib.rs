//! A software model of a deobfuscation engine and of the bus, register and
//! timer framework that it is built on.
//!
//! The engine is a memory-mapped peripheral. A driver writes an
//! initialization vector and a command to its registers, advances a virtual
//! clock, and reads the completion flag back. When the command's latency has
//! elapsed the engine decrypts a boot secret into a key vault, or clears the
//! secrets for good.
//!
//! The framework comes first: `types` holds what a bus access is made of,
//! `clock` the virtual time, `register` the bit fields of a register, `bus`
//! the address map and the interface of a peripheral, `memory` a buffer of
//! words. `key_vault`, `soc_reg` and `crypto` are what the engine works on
//! and with. `control` lays out the engine's control register, `model`
//! describes the engine as a state machine over plain values, `doe` is the
//! engine itself, and `laws` holds what is proved of every state.

pub mod types;
pub mod clock;
pub mod register;
pub mod bus;
pub mod memory;
pub mod key_vault;
pub mod soc_reg;
pub mod crypto;
pub mod control;
pub mod model;
pub mod doe;
pub mod laws;
