//! Verified core of a set of asynchronous networking components: a
//! non-blocking buffered bzip2 decoder, the line framing used on the wire,
//! the decision logic of reconnecting sinks, and the simulated client
//! traffic that feeds them.

#![allow(deprecated)]

pub mod easybuf;
pub mod decoder;
pub mod line_codec;
pub mod connection;
pub mod reconnect;
pub mod messages;
pub mod message_buffer;
pub mod sample;
