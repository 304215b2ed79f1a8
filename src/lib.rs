//! Turns source-control webhooks into chat notifications: decoding of the
//! payloads, the assignee diff, the enrichment policy for pipeline events and
//! the composition of the notification texts.
pub mod client;
pub mod common;
pub mod json;
pub mod message;
pub mod webex;
pub mod webhook;
