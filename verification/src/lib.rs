//! Protocol, model catalogue and decoding logic for Nothing Ear devices.
pub mod gestures;
pub mod text;
pub mod error;
pub mod protocol;
pub mod models;
pub mod types;
pub mod service;
pub mod server;
pub mod client;
