//! A typed dispatch core for a REST + webhook platform client.
//!
//! The library builds request descriptors from typed parameter structs,
//! decodes JSON response envelopes, drives pagination cursors, and
//! verifies + classifies + decodes inbound webhook deliveries against a
//! registry of (kind, version) payload shapes.

pub mod dispatch;
pub mod errors;
pub mod events;
pub mod json;
pub mod moderation;
pub mod pagination;
pub mod signature;
pub mod registry;
pub mod response;
pub mod request;
pub mod text;
