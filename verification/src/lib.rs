//! Attaches AI coding-agent session transcripts to commits as out-of-band
//! annotations: candidate discovery, session matching and verification, the
//! annotation text, the queue of pending commits, the push policy, and the
//! post-commit state machine that ties them together.

pub mod api;
pub mod backfill;
pub mod cli;
pub mod config;
pub mod dialogue;
pub mod discovery;
pub mod hook;
pub mod json;
pub mod login;
pub mod note;
pub mod onboarding;
pub mod pending;
pub mod push;
pub mod scanner;
pub mod text;
pub mod ui;
