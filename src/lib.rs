//! A relay-side adapter around a block-builder backend, and the decisions of
//! a slot-aligned header poller, with their contracts proved.

pub mod builder_impl;
pub mod chain;
pub mod clock;
pub mod header_path;
pub mod payload_creator;
