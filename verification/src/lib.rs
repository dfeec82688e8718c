//! Idempotent newsletter publishing.
//!
//! The heart of this crate is an idempotent command-processing engine: a
//! client-supplied key, scoped to the acting user, deduplicates a publish
//! command; a claim on that key grants the exclusive right to run the
//! command's side effects; the side effects and a replayable copy of the
//! response become durable together, in one transaction; and email delivery
//! is handed off through a transactional outbox rather than performed inline.

pub mod domain;
pub mod idempotency_key;
pub mod laws;
pub mod newsletters;
pub mod outbox;
pub mod response;
pub mod store;
pub mod subscription_token;
pub mod subscriptions;
pub mod subscriptions_confirm;
pub mod trimming;
