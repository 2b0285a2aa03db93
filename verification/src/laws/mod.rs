//! What holds of the library, said in terms of what goes in and what comes out.
pub mod activation;
pub mod apply;
pub mod cache;
pub mod cli;
pub mod commands;
pub mod daemon;
pub mod errors;
pub mod finding;
pub mod hive;
pub mod inventory;
pub mod keys;
pub mod linear;
pub mod logs;
pub mod order;
pub mod outputs;
pub mod paint;
pub mod plans;
pub mod running;
pub mod status;
pub mod talking;
pub mod text;
pub mod working;
