//! Reconciles declared products with the records of what was last synchronised.

pub mod api;
pub mod config;
pub mod digest;
pub mod report;
pub mod retry;
pub mod run;
pub mod sync;
pub mod table;
pub mod text;
