use crate::config::{CompilerChoice, SharedCompilerConfig};
use crate::error::TransferError;
use crate::laws::{lemma_release_keeps_wf, lemma_wrap_keeps_wf};
use crate::model::HandleTable;
use std::collections::HashMap;
use vstd::prelude::*;

verus! {

/// The carrier of one compiler configuration.
///
/// It owns a share of the configuration and has the handle under which the
/// registry it was wrapped into knows that configuration. Within that registry
/// the handle is the carrier's alone; another registry gives out the same
/// numbers, so a handle means something only together with its registry. The
/// handle says nothing of what the configuration is. A carrier lives until it is
/// released: the registry owns a share too, so a carrier that is dropped without
/// being released leaves its handle live.
pub struct OpaqueCompiler {
    handle: usize,
    inner: SharedCompilerConfig,
}

/// The table of live carriers: which handle stands for which configuration.
///
/// A registry gives out its handles in increasing order, starting at one, and
/// gives none out twice. Two registries give out the same numbers: keep one
/// registry for all the carriers that are to be told apart. Zero is the null
/// handle.
pub struct Registry {
    next: usize,
    table: HashMap<usize, SharedCompilerConfig>,
}

impl OpaqueCompiler {
    /// The carrier's handle.
    pub closed spec fn handle(&self) -> usize {
        self.handle
    }

    /// The configuration that the carrier owns a share of.
    pub closed spec fn config(&self) -> SharedCompilerConfig {
        self.inner
    }

    /// Wraps `compiler_config`: the registry gives it the next handle and keeps a
    /// share of it under that handle; the carrier owns the configuration and has
    /// the handle. Every other handle stands for what it stood for before.
    pub fn raw_with_compiler(registry: &mut Registry, compiler_config: SharedCompilerConfig) -> (carrier:
        OpaqueCompiler)
        requires
            old(registry)@.wf(),
            old(registry)@.room(),
        ensures
            final(registry)@.wf(),
            final(registry)@ == old(registry)@.wrap(compiler_config),
            carrier.handle() == old(registry)@.fresh(),
            carrier.config() == compiler_config,
    {
        let handle: usize = registry.next;
        let shared = compiler_config.share();
        registry.table.insert(handle, shared);
        registry.next = handle + 1;
        proof {
            lemma_wrap_keeps_wf(old(registry)@, compiler_config);
        }
        OpaqueCompiler { handle, inner: compiler_config }
    }

    /// The carrier's handle, as the integer that crosses to the other component.
    /// It does not change while the carrier lives, and is never zero for a carrier
    /// that a well-formed registry holds.
    pub fn __inner_as_ptr(&self) -> (handle: usize)
        ensures
            handle == self.handle(),
    {
        self.handle
    }

    /// The configuration that the carrier owns.
    pub fn compiler_config(&self) -> (config: &SharedCompilerConfig)
        ensures
            *config == self.config(),
    {
        &self.inner
    }
}

impl Registry {
    /// The registry's state.
    pub closed spec fn view(&self) -> HandleTable {
        HandleTable { next: self.next as nat, live: self.table@ }
    }

    /// A registry without carriers.
    pub fn new() -> (registry: Registry)
        ensures
            registry@ == HandleTable::empty(),
    {
        Registry { next: 1, table: HashMap::new() }
    }

    /// Whether a carrier can still be wrapped into this registry.
    pub fn has_room(&self) -> (b: bool)
        ensures
            b == self@.room(),
    {
        self.next < usize::MAX
    }

    /// Turns `handle` back into a share of the configuration it stands for.
    /// The carrier keeps its own share.
    pub fn resolve(&self, handle: usize) -> (r: Result<SharedCompilerConfig, TransferError>)
        ensures
            r == self@.resolve(handle),
    {
        if handle == 0 {
            return Err(TransferError::NullHandle);
        }
        match self.table.get(&handle) {
            Some(config) => Ok(config.share()),
            None => Err(TransferError::UnknownHandle),
        }
    }

    /// What an engine that is given `handle` compiles with.
    pub fn select(&self, handle: Option<usize>) -> (r: Result<CompilerChoice, TransferError>)
        ensures
            r == self@.select(handle),
    {
        match handle {
            None => Ok(CompilerChoice::Headless),
            Some(h) => match self.resolve(h) {
                Ok(config) => Ok(CompilerChoice::Configured(config)),
                Err(e) => Err(e),
            },
        }
    }

    /// Ends the life of `carrier` in this registry: its handle no longer resolves
    /// here, and is not given out again. Shares of its configuration that were
    /// resolved before live on. Returns whether the handle was live.
    ///
    /// The registry knows a carrier by its handle alone. Given a carrier that was
    /// wrapped into another registry, it ends the life of whichever carrier has
    /// that handle here, and where none has, it changes nothing. The carrier is
    /// used up either way.
    pub fn release(&mut self, carrier: OpaqueCompiler) -> (ended: bool)
        ensures
            final(self)@ == old(self)@.release(carrier.handle()),
            ended == old(self)@.live.contains_key(carrier.handle()),
            old(self)@.wf() ==> final(self)@.wf(),
    {
        let removed = self.table.remove(&carrier.handle);
        proof {
            if old(self)@.wf() {
                lemma_release_keeps_wf(old(self)@, carrier.handle());
            }
        }
        removed.is_some()
    }
}

} // verus!
