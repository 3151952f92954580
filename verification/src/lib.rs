//! Google Cloud Spanner support for a dbt-style engine (GoogleSQL dialect).
//!
//! Two things are decided here. [`auth`] turns one target of a profile, read
//! from YAML, into the options that the `adbc-spanner` driver is opened with.
//! [`profile`] turns the answers of an interactive setup into such a target.

pub mod adapter_config;
pub mod auth;
pub mod auth_laws;
pub mod builder;
pub mod error;
pub mod interactive;
pub mod profile;
pub mod profile_laws;
pub mod spanner;
pub mod text;
pub mod view_laws;
pub mod yaml;
