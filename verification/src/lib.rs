//! wire: the rules by which a NixOS deployment tool reads its command line, picks
//! nodes, plans the steps for each node, talks to `nix`, `ssh` and the nix daemon,
//! and reports progress.

pub mod apply;
pub mod cache;
pub mod cli;
pub mod commands;
pub mod errors;
pub mod execute;
pub mod hive;
pub mod json;
pub mod key_agent;
pub mod laws;
pub mod logging;
pub mod modifiers;
pub mod nix_client;
pub mod paint;
pub mod plan;
pub mod sets;
pub mod status;
pub mod store_path;
pub mod terminal;
pub mod text;
