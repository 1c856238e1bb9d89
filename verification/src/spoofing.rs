//! Server-spoofing detection: similarity of names, typosquat heuristics,
//! tool fingerprints and the registry of known tools.

pub mod config;
pub mod fingerprint;
pub mod guard;
pub mod levenshtein;
pub mod mimicry;
pub mod state;
pub mod typosquat;
