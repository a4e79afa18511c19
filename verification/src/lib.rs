//! A verified framework for registering a miscellaneous character device
//! with a host kernel and dispatching file-style callbacks (open, read,
//! write, release) into typed device code.
//!
//! The host itself — its registration table, its per-open file object, the
//! user-space memory that boundary copies touch, and the verdicts of its
//! calls — is represented by explicit values, so that every decision the
//! framework makes about them is stated in a contract and proved:
//!
//! - [`registration`] holds the registration object, its exactly-once
//!   register/deregister state machine, and the four dispatch shims;
//! - [`device`] is the polymorphic contract that device implementations
//!   supply;
//! - [`foreign`] is the ownership-transfer protocol that hands per-open
//!   state to the host as an opaque handle and recovers it exactly once;
//! - [`host`] models the host-owned file object, the user-space buffer,
//!   and the fallible boundary copies;
//! - [`layout`] is the address arithmetic that recovers an enclosing
//!   object from the address of one of its fields;
//! - [`error`] maps every failure one-to-one onto the host's negative
//!   status codes;
//! - [`devices`] holds two sample devices: a fixed-content reader and a
//!   draining echo buffer.

pub mod device;
pub mod devices;
pub mod error;
pub mod foreign;
pub mod host;
pub mod layout;
pub mod registration;
