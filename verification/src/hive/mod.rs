//! The hive: its nodes, the plans made for them, and how a plan is carried out.
pub mod executor;
pub mod graph;
pub mod inventory;
pub mod location;
pub mod node;
pub mod outputs;
pub mod plan;
pub mod plan_ends;
pub mod plan_laws;
pub mod schema;
pub mod steps;
