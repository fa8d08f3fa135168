//! Core state-transition logic for a journal of content-addressed entries.
//!
//! Each entry is stored by a host runtime in a slot whose address is derived
//! deterministically from a fixed domain tag, the entry's title and the
//! identity of its owner. The library provides the address-derivation rule,
//! the ownership-authorization guard, and the three transitions — create,
//! update, delete — that the host invokes against a resolved slot. The host
//! asserts the caller's identity, resolves the slot for the derived address,
//! and durably commits whatever next state a handler returns; the handlers
//! themselves are pure functions of their arguments.

pub mod address;
pub mod commit;
pub mod entry;
pub mod handlers;
pub mod identity;
