//! Decision logic of an HTTP monitoring and auto-scaling supervisor.
pub mod config;
pub mod healthcheck;
pub mod levels;
pub mod outside;
pub mod runtime;
pub mod scaling;
pub mod supervisor;
pub mod text;
pub mod web;
