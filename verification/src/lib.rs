//! Presentation rules and request validation for the Embedded Alerts dashboard.
pub mod cards;
pub mod console;
pub mod dashboard;
pub mod ids;
pub mod laws;
pub mod models;
pub mod scores;
pub mod text;
