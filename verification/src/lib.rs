//! Decision logic of the durable job worker: failure classification, handler
//! routing, status update fencing, quote delivery identities, logical keys and
//! poll expiration reconciliation.

pub mod failure;
pub mod text;
pub mod fetch_failure;
pub mod time;
pub mod status_update;
pub mod json;
pub mod uri;
pub mod quote;
pub mod registry;
pub mod job;
pub mod poll_expiration;
pub mod keys;
pub mod order;
pub mod cleanup;
pub mod resolution;
pub mod media;
pub mod documents;
pub mod delivery;
pub mod resolution_jobs;
pub mod handler_arguments;
pub mod inboxes;
pub mod inbox;
pub mod routes;
pub mod emoji;
