//! What is drawn for the single components.

pub mod graph;
