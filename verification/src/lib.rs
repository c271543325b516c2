//! Metric reconciliation for a virtual-desktop inventory: pools, sessions and
//! machines are bucketed per pool and per category into counter matrices.

pub mod configuration;
pub mod constants;
pub mod data;
pub mod descriptor;
pub mod exporter;
pub mod horizon;
pub mod http;
pub mod laws;
pub mod machines;
pub mod matrix;
pub mod report;
pub mod sessions;
pub mod sink;
pub mod text;
