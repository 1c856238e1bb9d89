//! Prompt-injection detection: text normalisation, keyword-sequence
//! matching and risk scoring.

pub mod categories;
pub mod config;
pub mod guard;
pub mod patterns;
pub mod scoring;
