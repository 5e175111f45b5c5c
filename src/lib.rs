//! Keeps a store of documents in step with a directory of markdown files,
//! and relays the store's change notifications to connected clients.

pub mod channel;
pub mod config;
pub mod document;
pub mod event;
pub mod parser;
pub mod relay;
pub mod store;
pub mod worker;
