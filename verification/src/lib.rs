//! BirchVault: an offline-first store of encrypted records with an outbox
//! and a sync engine that reconciles it with a remote backend, together with
//! the decisions of the tools that ship with it: the runner host, its
//! background service and the launcher.
//!
//! Nothing in this crate touches the disk or the network. The store lives in
//! memory and is saved by whoever owns it; the sync engine hands out the
//! requests it wants sent and is handed the replies. Every function carries a
//! contract, and every contract is checked by Verus.

pub mod clock;
pub mod commands;
pub mod crypto;
pub mod db;
pub mod error;
pub mod job_logs;
pub mod json;
pub mod launcher;
pub mod model;
pub mod patterns;
pub mod ranking;
pub mod records;
pub mod remote;
pub mod runner;
pub mod service;
pub mod store_laws;
pub mod sync;
pub mod sync_laws;
pub mod system_info;
pub mod text;
