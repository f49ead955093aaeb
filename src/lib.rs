//! Interactive scaffolding of a project from a template archive.
//!
//! The prompt engine and the scaffold workflow are written as decision
//! functions: a driver performs the terminal, filesystem and network work
//! they ask for and hands the outcome back.

pub mod archive;
pub mod laws;
pub mod palette;
pub mod prompts;
pub mod text;
pub mod workflow;
