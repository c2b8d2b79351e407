//! Announcement protocol, tracker registry and publisher bookkeeping for a
//! peer-to-peer directory of news feeds.
//!
//! Publishers keep one writable record per feed link and announce it to a
//! tracker; the tracker keeps an append-only registry of announcements and
//! answers requests with the records registered under a link; a consumer
//! picks one of the candidates at random and reads it.

pub mod channel;
pub mod consumer;
pub mod document;
pub mod handler;
pub mod identity;
pub mod json;
pub mod keys;
pub mod message;
pub mod publisher;
pub mod registry;
pub mod text;
