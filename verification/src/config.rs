use std::sync::Arc;
use vstd::prelude::*;

verus! {

/// A compiler configuration behind a reference count.
///
/// The configuration itself is a trait object of `wasmer_compiler::CompilerConfig`,
/// which the verifier cannot look into: to the contracts of this crate a value of
/// this type is an opaque token, and two values are equal when they own the same
/// configuration. Nothing in this crate mutates the configuration.
#[verifier::external_body]
pub struct SharedCompilerConfig {
    pub compiler_config: Arc<dyn wasmer_compiler::CompilerConfig + Send + Sync>,
}

impl SharedCompilerConfig {
    /// Another owner of the same configuration.
    ///
    /// Calls `Arc::clone`, which raises the reference count and returns a pointer
    /// to the same allocation. Assumed, not proved: the result equals `self`.
    #[verifier::external_body]
    pub(crate) fn share(&self) -> (shared: SharedCompilerConfig)
        ensures
            shared == *self,
    {
        SharedCompilerConfig { compiler_config: Arc::clone(&self.compiler_config) }
    }
}

/// What an engine compiles with.
pub enum CompilerChoice {
    /// No compiler: the engine runs artifacts that were compiled before, and
    /// cannot compile.
    Headless,
    /// The compiler that this configuration produces.
    Configured(SharedCompilerConfig),
}

} // verus!
