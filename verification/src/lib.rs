//! Mirrors a GitHub issue tracker's activity into a chat channel: issues whose
//! labels intersect a configured watch-set become threads, and later issue and
//! comment activity is projected onto those threads as messages or renames.
//!
//! The crate holds the synchronization core alone: the label filter
//! ([`filter`]), the per-issue and per-comment lifecycle dispatchers
//! ([`issue`], [`comment`]) behind one router ([`router`]), the identity-key
//! scheme that ties tracker ids to chat ids ([`keys`], [`digits`]), and an
//! in-memory model of the durable key-value store ([`store`]). The
//! dispatchers are pure: they consume decoded events and store snapshots and
//! emit the gateway calls ([`gateway`]) and store writes to perform, so every
//! network transport stays outside, behind plain values. The guarantees of
//! the whole core are stated and proved in [`laws`].

pub mod comment;
pub mod digits;
pub mod event;
pub mod filter;
pub mod gateway;
pub mod issue;
pub mod keys;
pub mod laws;
pub mod router;
pub mod store;
pub mod watchlist;
