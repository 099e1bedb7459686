//! Audit of directory application registrations for expiring client secrets.
//!
//! The library holds the record model, the expiry evaluation that turns
//! applications into alerts, the step machine that hydrates applications with
//! their owners while skipping malformed records, and the text of the
//! notifications. Network access, configuration and mail delivery stay with
//! the caller.
pub mod instant;
pub mod model;
pub mod notify;
pub mod text;
pub mod evaluate;
pub mod fetch;
