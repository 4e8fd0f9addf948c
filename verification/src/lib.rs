//! Core logic of a bridge between a single-threaded embedding host and an
//! asynchronous database client.
//!
//! The host runs a cooperative, single-threaded loop and must never block;
//! the database client is asynchronous and runs its work on detached worker
//! threads.  This crate holds the verified heart of that arrangement:
//!
//! - the value conversion layer between the host's dynamic values and the
//!   client's typed storage values ([`value`], [`ser`], [`encoding`]);
//! - the single-assignment result slot and the pending-operation protocol
//!   that deliver one outcome to one host callback exactly once ([`slot`],
//!   [`bridge`]);
//! - the calling-convention adapter that normalizes method shapes ([`adapter`]);
//! - the cursor state with its lazily cached column count and bounds-checked
//!   column access ([`rows`]);
//! - database configuration validation, the connection-reuse fast path, and
//!   the write-serialization model of a shared connection ([`db`], [`conn`]).
//!
//! The thread spawning, host-loop wake handles, and the database client calls
//! themselves are performed by an unverified shell around this library; every
//! decision those edges act on is made here, under contract.

pub mod adapter;
pub mod bridge;
pub mod conn;
pub mod db;
pub mod encoding;
pub mod error;
pub mod rows;
pub mod ser;
pub mod slot;
pub mod value;
