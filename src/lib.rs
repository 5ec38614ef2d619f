//! A small message board: a verified in-memory message table and the
//! request handling that exposes it over two HTTP routes.

pub mod message;
pub mod store;
pub mod service;
pub mod client;
