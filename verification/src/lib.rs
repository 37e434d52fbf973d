//! Opaque compiler handles, and the engines that are built from them.
//!
//! A compiler configuration is made by one component and used by another, and
//! all that can pass between the two is an integer. A [`Registry`] gives each
//! wrapped configuration a handle of its own and turns a handle back into a
//! share of the configuration; [`JIT`] and [`Native`] decide from an optional
//! handle what engine is to be made, and keep the engine that the caller then
//! makes.

pub mod config;
pub mod engine;
pub mod error;
pub mod laws;
pub mod model;
pub mod registry;

pub use config::{CompilerChoice, SharedCompilerConfig};
pub use engine::{JITBuild, Native, NativeBuild, JIT};
pub use error::TransferError;
pub use model::{HandleTable, Step};
pub use registry::{OpaqueCompiler, Registry};
