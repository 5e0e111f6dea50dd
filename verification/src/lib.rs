//! Core of a command-line chat client for remote language-model endpoints.

pub mod adapter;
pub mod agents;
pub mod bots;
pub mod chat;
pub mod config;
pub mod executor;
pub mod json;
pub mod llm_provider;
pub mod session;
pub mod sse;
pub mod string_map;
pub mod text;
pub mod ui;
pub mod update;
pub mod utils;
