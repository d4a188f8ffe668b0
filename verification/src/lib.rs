//! Autoware Sentinel: the decision logic of a vehicle safety island, verified.

pub mod capacity;
pub mod chain;
pub mod endpoints;
pub mod history;
pub mod inputs;
pub mod island;
pub mod ivc;
pub mod log_lines;
pub mod messages;
pub mod nodes;
pub mod number;
pub mod param_table;
pub mod params;
pub mod pass;
pub mod preflight;
pub mod publish;
pub mod sensing;
pub mod services;
pub mod text;
pub mod wiring;
