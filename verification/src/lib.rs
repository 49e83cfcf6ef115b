//! A sandboxed build/test execution engine.
//!
//! Generated project sources are materialized into a per-language sandbox
//! directory, built and tested inside an isolated container, and every
//! genuine (exit code, stderr) outcome is remembered in a content-addressed
//! result cache so that an iterative generate-build-repair loop never runs
//! the same step twice.
//!
//! The crate holds the engine's decision logic: language descriptors,
//! container lifecycle planning, command dispatch planning, output capture,
//! the result cache, and the build orchestrator. The surrounding process
//! performs the container-engine calls and file reads that these decisions
//! ask for.

pub mod cache;
pub mod dispatch;
pub mod executor;
pub mod lang;
pub mod lifecycle;
pub mod llm_api;
pub mod orchestrator;
pub mod outcome;
pub mod project;
pub mod text;
