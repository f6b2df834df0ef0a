//! Routing of domain events into outbound webhook notifications.
//!
//! The crate models the dispatch pipeline of a webhook service: inbound
//! domain events are decoded into a fixed set of topics, matched against a
//! tenant directory (organizations, webhooks, project subscriptions), and
//! turned into gateway calls that deliver canonical payloads. A batched
//! relationship loader resolves read queries with one directory query and
//! one remote fetch per returned row.

pub mod directory;
pub mod endpoints;
pub mod error;
pub mod events;
pub mod loader;
pub mod manage;
pub mod router;
pub mod svix_client;
pub mod taxonomy;
