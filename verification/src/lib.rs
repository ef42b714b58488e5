//! A simulated shared radio medium for kernel-driven virtual wireless
//! interfaces.
//!
//! The crate provides the pieces that carry a frame from one simulated radio
//! to the radios that should hear it:
//!
//! - a binary codec for the type-tagged, length-prefixed attributes of the
//!   kernel control protocol ([`attrs`], with the fixed-layout values in
//!   [`frame`] and byte helpers in [`wire`]),
//! - control message framing and the typed message kinds built from and
//!   into attribute runs ([`msg`], [`structs`]),
//! - a circular byte region with length-prefixed records, the transport for
//!   bulk frame payloads ([`ring`]),
//! - the static radio/link topology and its routing decision ([`topology`]),
//! - the per-radio forwarding engine, a state machine from events to
//!   actions ([`engine`]),
//! - plain configuration records ([`config`]).
//!
//! All I/O (netlink sockets, memory mappings, task scheduling) lives outside
//! this crate; the functions here compute on plain values and state what they
//! compute in their contracts.

pub mod attrs;
pub mod config;
pub mod constants;
pub mod engine;
pub mod frame;
pub mod msg;
pub mod ring;
pub mod structs;
pub mod topology;
pub mod wire;

use vstd::prelude::*;

verus! {

/// A radio's hardware address: six raw bytes.
pub type MACAddress = [u8; 6];

} // verus!
