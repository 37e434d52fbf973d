use crate::config::CompilerChoice;
use crate::error::TransferError;
use crate::registry::Registry;
use vstd::prelude::*;

verus! {

#[verifier::external_type_specification]
#[verifier::external_body]
pub struct ExJITEngine(wasmer::JITEngine);

#[verifier::external_type_specification]
#[verifier::external_body]
pub struct ExNativeEngine(wasmer::NativeEngine);

/// A JIT engine that is decided and not yet made.
///
/// The outside runtime makes an engine for the host, and asks the processor
/// what it offers while it does so. That is the caller's to do: it makes the
/// engine that `choice` asks for and hands it to `with_engine`.
pub struct JITBuild {
    compiler: CompilerChoice,
}

/// A native engine that is decided and not yet made.
///
/// The outside runtime makes an engine for the host, and with a compiler it
/// looks for a linker on the machine. That is the caller's to do: it makes the
/// engine that `choice` asks for and hands it to `with_engine`.
pub struct NativeBuild {
    compiler: CompilerChoice,
}

/// JIT engine.
///
/// Given a compiler, it compiles to machine code and publishes the code into
/// memory. Without one it is headless. It owns a share of the configuration it
/// was built from, which so lives as long as the engine does.
pub struct JIT {
    inner: wasmer::JITEngine,
    compiler: CompilerChoice,
}

/// Native engine.
///
/// Given a compiler, it compiles to a shared object file, keeps the file on disk
/// for a time and loads it. Without one it is headless. It owns a share of the
/// configuration it was built from, which so lives as long as the engine does.
pub struct Native {
    inner: wasmer::NativeEngine,
    compiler: CompilerChoice,
}

impl JITBuild {
    /// What the engine is to compile with.
    pub closed spec fn compiler(&self) -> CompilerChoice {
        self.compiler
    }

    /// What the engine is to compile with.
    pub fn choice(&self) -> (choice: &CompilerChoice)
        ensures
            *choice == self.compiler(),
    {
        &self.compiler
    }

    /// The JIT engine `engine`, which the caller made as `choice` asks. The
    /// library takes the engine as it is given: it cannot look into it.
    pub fn with_engine(self, engine: wasmer::JITEngine) -> (jit: JIT)
        ensures
            jit.engine() == engine,
            jit.compiler() == self.compiler(),
    {
        JIT { inner: engine, compiler: self.compiler }
    }
}

impl NativeBuild {
    /// What the engine is to compile with.
    pub closed spec fn compiler(&self) -> CompilerChoice {
        self.compiler
    }

    /// What the engine is to compile with.
    pub fn choice(&self) -> (choice: &CompilerChoice)
        ensures
            *choice == self.compiler(),
    {
        &self.compiler
    }

    /// The native engine `engine`, which the caller made as `choice` asks. The
    /// library takes the engine as it is given: it cannot look into it.
    pub fn with_engine(self, engine: wasmer::NativeEngine) -> (native: Native)
        ensures
            native.engine() == engine,
            native.compiler() == self.compiler(),
    {
        Native { inner: engine, compiler: self.compiler }
    }
}

impl JIT {
    /// The engine of the outside runtime.
    pub closed spec fn engine(&self) -> wasmer::JITEngine {
        self.inner
    }

    /// What the engine compiles with.
    pub closed spec fn compiler(&self) -> CompilerChoice {
        self.compiler
    }

    /// Decides a JIT engine: a headless one where `compiler` is `None`, else one
    /// with the configuration that the handle resolves to in `registry`, of which
    /// the build owns a share. Where the handle does not resolve, nothing is to be
    /// built.
    pub fn new(registry: &Registry, compiler: Option<usize>) -> (r: Result<JITBuild, TransferError>)
        ensures
            match registry@.select(compiler) {
                Ok(choice) => r matches Ok(build) && build.compiler() == choice,
                Err(e) => r == Err::<JITBuild, TransferError>(e),
            },
    {
        match registry.select(compiler) {
            Ok(choice) => Ok(JITBuild { compiler: choice }),
            Err(e) => Err(e),
        }
    }

    /// The engine of the outside runtime.
    pub fn inner(&self) -> (engine: &wasmer::JITEngine)
        ensures
            *engine == self.engine(),
    {
        &self.inner
    }

    /// Whether the engine was decided without a compiler.
    pub fn is_headless(&self) -> (b: bool)
        ensures
            b == (self.compiler() is Headless),
    {
        match &self.compiler {
            CompilerChoice::Headless => true,
            CompilerChoice::Configured(_) => false,
        }
    }
}

impl Native {
    /// The engine of the outside runtime.
    pub closed spec fn engine(&self) -> wasmer::NativeEngine {
        self.inner
    }

    /// What the engine compiles with.
    pub closed spec fn compiler(&self) -> CompilerChoice {
        self.compiler
    }

    /// Decides a native engine: a headless one where `compiler` is `None`, else
    /// one with the configuration that the handle resolves to in `registry`, of
    /// which the build owns a share. Where the handle does not resolve, nothing is
    /// to be built.
    pub fn new(registry: &Registry, compiler: Option<usize>) -> (r: Result<NativeBuild, TransferError>)
        ensures
            match registry@.select(compiler) {
                Ok(choice) => r matches Ok(build) && build.compiler() == choice,
                Err(e) => r == Err::<NativeBuild, TransferError>(e),
            },
    {
        match registry.select(compiler) {
            Ok(choice) => Ok(NativeBuild { compiler: choice }),
            Err(e) => Err(e),
        }
    }

    /// The engine of the outside runtime.
    pub fn inner(&self) -> (engine: &wasmer::NativeEngine)
        ensures
            *engine == self.engine(),
    {
        &self.inner
    }

    /// Whether the engine was decided without a compiler.
    pub fn is_headless(&self) -> (b: bool)
        ensures
            b == (self.compiler() is Headless),
    {
        match &self.compiler {
            CompilerChoice::Headless => true,
            CompilerChoice::Configured(_) => false,
        }
    }
}

} // verus!
