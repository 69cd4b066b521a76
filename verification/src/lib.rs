//! A sharded gateway client fleet, verified.
//!
//! One process among `manager_count` owns a contiguous range of the fleet's
//! shards, keeps one session per owned shard alive against a remote gateway,
//! and routes every inbound command on a live session to a handler holding a
//! single-use response capability.

pub mod dispatch;
pub mod partition;
pub mod session;
pub mod supervisor;
