//! Conventional-commit classification and draft changelog assembly.

pub mod changelog;
pub mod classify;
pub mod configuration;
pub mod markdown;
pub mod repository;
pub mod template;
pub mod text;
