//! Layered configuration resolution and runtime control of the telemetry
//! pipeline for a small HTTP service.

pub mod config;
pub mod config_map;
pub mod hello_controller;
pub mod text;
pub mod tracing_controller;
