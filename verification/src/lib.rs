//! Packaging a compiled binary into a Windows Installer (MSI) package.
//!
//! The library reads the required metadata out of the package manifest,
//! lays out the external-process stages of a run — a release build, the
//! installer compiler, the installer linker, and optionally a signing tool —
//! and maps each process outcome to a typed result. Spawning the processes
//! and reading the manifest file are left to an unverified caller.

pub mod error;
pub mod manifest;
pub mod pipeline;
pub mod platform;
pub mod template;

pub use error::Error;
pub use manifest::read_manifest;
pub use manifest::Manifest;
pub use pipeline::Invocation;
pub use pipeline::Pipeline;
pub use pipeline::Stage;
pub use pipeline::Wix;
pub use platform::Platform;
