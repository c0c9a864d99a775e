//! Block-synchronization core of a blockchain full node.
//!
//! The library contains the generic pipeline engine that turns unordered
//! peer-supplied block ranges into strictly sequential local commits with
//! bounded parallelism, the sync controller that reconciles a settlement-layer
//! head, a peer probe and an optional stop height into a target height, and
//! the wire-model conversions for transactions and receipts, together with the
//! configuration and command builders of the surrounding services.

pub mod clock;
pub mod convert;
pub mod convert_receipt;
pub mod decimal;
pub mod felt;
pub mod jobs;
pub mod pipeline;
pub mod range;
pub mod receipts;
pub mod rpc;
pub mod servers;
pub mod setup;
pub mod stream;
pub mod sync;
pub mod text;
pub mod transactions;
pub mod wire_receipt;
pub mod wire_transaction;
