//! A daemon that asks a language model to turn a natural-language request
//! into a shell command: its configuration, prompts, providers, reply
//! cleaning, and the texts and choices of its setup wizard.

pub mod config;
pub mod daemon;
pub mod hooks;
pub mod json;
pub mod numbers;
pub mod postprocess;
pub mod prompt;
pub mod provider;
pub mod service;
pub mod setup;
pub mod text;
