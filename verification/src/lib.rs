//! The decision logic of the republisher daemon.

pub mod cli;
pub mod config;
pub mod error;
pub mod json;
pub mod laws;
pub mod model;
pub mod sample;
pub mod table;
pub mod text;
pub mod web;
