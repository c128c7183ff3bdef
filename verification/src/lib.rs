//! Leak-detection event processing for rack health overrides.
//!
//! The crate correlates two event streams keyed by a sensor path, point
//! metadata and point values, deduplicates repeated values, and decides which
//! rack health override to insert or remove downstream.

pub mod api_client;
pub mod cache;
pub mod config;
pub mod health_updater;
pub mod laws;
pub mod messages;
pub mod report;
pub mod text;
