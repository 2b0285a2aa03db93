//! The steps that a plan is made of.
pub mod activate;
pub mod build_node;
pub mod cleanup;
pub mod evaluate;
pub mod keys;
pub mod ping;
pub mod push;
