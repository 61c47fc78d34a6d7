//! Ethereum-style JSON-RPC account queries over a foreign ledger.
//!
//! The crate decides everything about the wire format: how quantities and
//! byte strings are hex-encoded, how a block selector string is resolved
//! into a typed key, which address and storage-position strings are
//! acceptable, and how each RPC method turns its parameters into a ledger
//! query and the ledger's answer into a wire value or a structured error.
//! The transport and the ledger client itself stay outside; handlers are
//! split into a decision stage (parameters in, query out) and an encoding
//! stage (ledger outcome in, wire value out) so that both stages carry
//! full contracts.

pub mod block_key;
pub mod codec;
pub mod errors;
pub mod handlers;
pub mod registry;
pub mod validators;
