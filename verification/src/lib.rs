//! Storage, analysis and caching rules for uploaded CSV files.
//!
//! The crate owns the shape of an analysis result, the call into the
//! statistics engine, and the decisions of the "analyse once, then serve the
//! stored result" flow. Persistence and transport are left to the caller,
//! which feeds each outcome back into the flow.

pub mod models;
pub mod engine;
pub mod db;
pub mod handlers;
pub mod guarantees;



