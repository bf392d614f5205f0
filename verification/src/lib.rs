//! A change-data-capture sink for blockchain state-change events.
//!
//! Events arrive from a partitioned stream (one topic per entity type),
//! are filtered against an allow-list of base-58 encoded keys, converted
//! into canonical persistence records with range-checked numeric
//! narrowing, buffered in retry queues, and written to a relational
//! store with idempotent, order-aware upserts.

pub mod allow_list;
pub mod config;
pub mod events;
pub mod dispatch;
pub mod executor;
pub mod filter;
pub mod queues;
pub mod records;
pub mod stats;
pub mod store;
