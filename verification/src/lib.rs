//! The decisions of a build worker that turns jobs from a hub into signed
//! Windows executables, installers and packages.
//!
//! Everything here computes on plain values. Reading files, running tools and
//! talking to the hub is left to the program around the library, which asks
//! what to do next and reports back what came of it.
pub mod azure;
pub mod build;
pub mod bytes;
pub mod config;
pub mod encoding;
pub mod package;
pub mod paths;
pub mod places;
pub mod process;
pub mod publish;
pub mod queue;
pub mod reading;
pub mod settings;
pub mod signing;
pub mod text;
pub mod version;
pub mod worker;
pub mod ws;
