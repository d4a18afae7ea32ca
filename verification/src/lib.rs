//! Turns a content schema into TypeScript interface declarations.

pub mod app;
pub mod args;
pub mod contentstack;
pub mod error;
pub mod generator;
pub mod naming;
pub mod region;
pub mod text;
