//! Core of a subscription newsletter service: idempotent command execution
//! and outbox-based asynchronous delivery.
//!
//! The persistent state (subscribers, newsletter issues, the delivery queue
//! and the idempotency records) is modelled by [`store::Store`]; the command
//! processor, the delivery worker and the cleanup worker are verified
//! functions over that state. The surrounding plumbing (HTTP transport,
//! the SQL connection, the SMTP client) stays outside the library and talks
//! to it through plain values.

pub mod cleanup_worker;
pub mod configuration;
pub mod delivery_worker;
pub mod errors;
pub mod health_check;
pub mod http_response;
pub mod idempotency;
pub mod idempotency_key;
pub mod ids;
pub mod laws;
pub mod new_subscriber;
pub mod newsletter;
pub mod newsletters;
pub mod store;
pub mod subscriber_email;
pub mod subscriber_name;
pub mod subscriptions;
pub mod supervisor;
