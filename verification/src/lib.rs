//! Core of a load generator for a line-based pixel-drawing protocol.
//!
//! An [`image::Image`] hands out pixel samples, [`color::Color::normalize`]
//! reduces each sample to its shortest wire form, [`protocol::encode`] renders
//! the command line, and a [`client::Client`] collects the lines and decides
//! when they are due on the network. A [`worker::Worker`] ties these into one
//! round and carries the private state of one connection.

pub mod position;
pub mod color;
pub mod protocol;
pub mod client;
pub mod rng;
pub mod image;
pub mod worker;
