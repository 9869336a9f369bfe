//! Read-only observation of a running game client that ships in three
//! incompatible in-memory layouts, plus a registry of function intercepts.
//!
//! Foreign memory is handled as a snapshot value: a base address and the
//! bytes of the loaded module. Every read is bounds-checked against that
//! snapshot and yields an owned plain value; a null or out-of-range pointer
//! yields the documented default instead of a fault. The layout resolver
//! classifies the module once; every facade read then goes through that
//! layout's constant offset table and no other. The hook registry holds at
//! most one intercept per session event and decides, for every trigger,
//! the exact order in which callback and original body run.

pub mod foreign;
pub mod hooks;
pub mod layout;
pub mod players;
pub mod session;
pub mod text;
pub mod values;
