//! A client for the Expo push-notification gateway, without the transport.
//!
//! The library says which request is sent for a message and what the
//! gateway's reply means; the exchange itself is the caller's, handed in as
//! a function or done between [`client::ExpoClient::push_request`] and
//! [`client::ExpoClient::push_result`].
//!
//! - [`notification`]: a message, its builder, and the JSON object sent for it
//! - [`ticket`]: the gateway's answer, read from JSON
//! - [`client`]: the client, its requests and its errors
//! - [`json`]: JSON documents as trees
//! - [`text`]: comparing strings
//! - [`theorems`]: what holds of every message and every answer

pub mod client;
pub mod json;
pub mod notification;
pub mod text;
pub mod theorems;
pub mod ticket;
