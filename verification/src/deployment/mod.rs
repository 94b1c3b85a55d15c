//! The configuration a repository gives for its deployment.
pub mod config;
pub mod shipwreck;
