//! Specification and validation of the `shipwreck.toml` file, the configuration file in
//! the root of a repository that tells the platform how to deploy the application.
//!
//! Example:
//! ```toml
//! [app]
//! name="scapenode"
//! version="1.0.0"
//! author="Ethan Shry"
//! endpoint="https://github.com/ethanshry/scapenode"
//!
//! [config]
//! port=7211
//! lang="node"
//! test="npm test"
//! run="npm start"
//! ```
use vstd::prelude::*;

verus! {

/// The sections of a deployment configuration file.
#[derive(Debug, PartialEq, Eq)]
pub struct Config {
    pub app: AppConfig,
    pub config: DeploymentConfig,
}

/// Data required to configure the specifics of a deployment.
#[derive(Debug, PartialEq, Eq)]
pub struct DeploymentConfig {
    pub lang: String,
    pub test: String,
    pub run: String,
    pub port: i64,
}

/// Metadata pertaining to the application (not required for the deployment itself).
#[derive(Debug, PartialEq, Eq)]
pub struct AppConfig {
    pub name: String,
    pub version: String,
    pub author: String,
    pub endpoint: String,
}

/// Ensures the required keys have been parsed and are valid: a parsed configuration is
/// accepted as it is, and no configuration stays none.
pub fn validate_config(c: Option<Config>) -> (res: Option<Config>)
    ensures
        res == c,
{
    match c {
        Some(c) => Some(c),
        None => None,
    }
}

} // verus!
