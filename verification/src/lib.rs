//! Kraken: a LAN-based platform that deploys applications from git repositories
//! onto a set of worker devices coordinated by one orchestrator.
//!
//! This crate holds the platform's logic: the message formats exchanged over
//! RabbitMQ, the deployment state machine, the orchestrator's database and the
//! decisions the executors take.
pub mod text;
pub mod clock;
pub mod decimal;
pub mod docker;
pub mod gql_model;
pub mod platform_executor;
pub mod rabbit;
pub mod gitapi;
pub mod gql_schema;
pub mod deployment;
pub mod config;
pub mod cli_utils;
pub mod network;
pub mod utils;
pub mod model;
pub mod api_routes;
