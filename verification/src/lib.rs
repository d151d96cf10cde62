//! Coordination of three layers that together serve records by address: a
//! probabilistic existence filter, a fast cache and a durable store.
//!
//! The library decides; it performs no I/O. A request is a small state
//! machine: `read::read_begin` or `write::write_begin` hands out the first
//! operation to perform on a layer, and `read::get_data_handler` or
//! `write::set_data_handler` takes the layer's answer and hands out the next
//! one, until the action is an answer to the request. `reply` turns that
//! answer into a response, and `request` reads the key of a read from its
//! headers. `model` states what whole requests do to the layers, and proves
//! it from the two protocols.

pub mod codec;
pub mod errors;
pub mod model;
pub mod read;
pub mod reply;
pub mod request;
pub mod write;
