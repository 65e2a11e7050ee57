//! A remote clipboard: one text value, held by a server, that clients read,
//! overwrite or clear over a minimal text protocol on TCP, with or without
//! TLS.
//!
//! This library is the protocol engine. It decides and computes; it opens no
//! socket. A program around it accepts and makes connections, and lets the
//! two state machines tell it what to do on them.
//!
//! - [`codec`]: the grammar of requests and responses, to and from bytes.
//! - [`frame`]: putting one frame together from the chunks that a transport
//!   delivers.
//! - [`store`]: the clipboard's value, and the store that shares it under a
//!   lock.
//! - [`handler`]: from a request's frame to the reply's frame.
//! - [`connection`]: the server's side of one connection, as a state machine.
//! - [`client`]: the client's side of one exchange, as a state machine.
//! - [`trust`]: which server certificates a client trusts.
//! - [`config`]: what server and client are configured with.
//! - [`protocol`]: laws on what the two ends make of each other.
//! - [`text`]: text and its UTF-8 bytes.
//!
//! What is taken on trust is named where it stands: `String::from_utf8` in
//! [`text`], and `std::sync::Mutex` in [`store`].

pub mod client;
pub mod codec;
pub mod config;
pub mod connection;
pub mod frame;
pub mod handler;
pub mod protocol;
pub mod store;
pub mod text;
pub mod trust;
