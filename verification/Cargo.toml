[package]
name = "spanner_adapter"
version = "0.1.0"
edition = "2021"
publish = false

[dependencies]
dbt-yaml = "*"
serde_json = "1"
