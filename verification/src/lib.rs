//! Core of a build tool for Java projects: it keeps a declarative project
//! manifest and a lock file in step with a content-addressed cache of
//! downloaded dependency archives, and it drives an external compiler,
//! packager and runtime through a fail-fast build pipeline.
//!
//! Everything here is pure logic over plain values: reading and writing
//! files, the network, and child processes are left to the surrounding
//! binary, which feeds their outcomes back in as events.

pub mod cache;
pub mod class;
pub mod context;
pub mod dependency;
pub mod error;
pub mod integrity;
pub mod lock;
pub mod manage;
pub mod manifest;
pub mod pathutil;
pub mod pipeline;
pub mod project;
pub mod resolve;
pub mod strutil;
pub mod toolchain;
pub mod uberjar;
