//! Reactive core of an inventory-management client.
//!
//! The library owns the application state of a client that authenticates
//! against a remote inventory service and exchanges shelf and item data with
//! it over a single lazily-established connection.  Everything that decides —
//! the message dispatcher, the session state machine, the workspace/tab
//! registry, the data cache, the edit-form staging model and the connection
//! guard discipline — lives here, verified.  Rendering and the actual network
//! transport are the caller's business: asynchronous work is described by
//! [`dispatch::Action`] values and results re-enter as [`dispatch::Message`]
//! events.

pub mod cache;
pub mod data;
pub mod dispatch;
pub mod edit;
pub mod frontend;
pub mod guard;
pub mod numerals;
pub mod session;
pub mod tabset;
pub mod workspace;
