//! A client for a remote table service: it lists, creates, opens and drops
//! tables over an HTTP protocol.
//!
//! The library builds each request as a plain value and classifies each
//! response into a precise error taxonomy. Sending bytes over the network is
//! the job of a [`db::Transport`] supplied by the caller.
pub mod error;
pub mod wire;
pub mod client;
pub mod db;
pub mod connection;

pub use error::Error;
pub use wire::{HttpRequest, HttpResponse, Method};
pub use client::RestfulClient;
pub use db::{ListTablesResponse, RemoteDatabase, RemoteTable, Transport};
pub use connection::{Backend, BlockingConnection, LocalEngine};
