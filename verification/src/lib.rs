//! Core logic of a build orchestrator for browser-deployed WebAssembly
//! applications: watch a project's files, classify each change, debounce
//! bursts of events, and signal connected browsers to reload.
//!
//! The pipeline runs from raw filesystem notifications through the
//! [`watch`] module's classifier and watch-set maintenance, the
//! [`watch::debouncer`], and the rebuild planning in [`plan`], to the
//! live-reload signalling in [`server`]. The [`tools`] module pins down the
//! command lines of the external build tools; [`minify`] the release-build
//! minification passes. Process invocation, filesystem walking and the
//! transport of the development server are the embedding application's
//! business.

pub mod cli;
pub mod minify;
pub mod path;
pub mod plan;
pub mod server;
pub mod status;
pub mod tools;
pub mod watch;

pub use path::FsPath;
pub use server::ReloadClient;
pub use server::ReloadSignal;
pub use watch::ChangeType;
