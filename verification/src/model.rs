use crate::config::{CompilerChoice, SharedCompilerConfig};
use crate::error::TransferError;
use vstd::prelude::*;

verus! {

/// The state of a registry as mathematics: the handle that comes next, and the
/// live handles with the configuration that each stands for.
pub struct HandleTable {
    pub next: nat,
    pub live: Map<usize, SharedCompilerConfig>,
}

/// One change of a registry.
pub enum Step {
    /// A configuration is wrapped.
    Wrap(SharedCompilerConfig),
    /// The carrier with this handle is released.
    Release(usize),
}

impl HandleTable {
    /// The table of a registry without carriers. The first handle is one: zero
    /// is the null handle.
    pub open spec fn empty() -> HandleTable {
        HandleTable { next: 1, live: Map::empty() }
    }

    /// The next handle is a machine integer above zero, and every live handle
    /// lies above zero and below it.
    pub open spec fn wf(self) -> bool {
        &&& 1 <= self.next <= usize::MAX
        &&& forall|h: usize| #[trigger] self.live.contains_key(h) ==> 0 < h < self.next
    }

    /// There is a handle left to give out.
    pub open spec fn room(self) -> bool {
        self.next < usize::MAX
    }

    /// The handle that the next carrier gets.
    pub open spec fn fresh(self) -> usize {
        self.next as usize
    }

    /// The table after `config` is wrapped: it is live under the fresh handle.
    pub open spec fn wrap(self, config: SharedCompilerConfig) -> HandleTable {
        HandleTable { next: self.next + 1, live: self.live.insert(self.fresh(), config) }
    }

    /// The table after the carrier with `handle` is released: the handle is no
    /// longer live, and the next handle stays.
    pub open spec fn release(self, handle: usize) -> HandleTable {
        HandleTable { next: self.next, live: self.live.remove(handle) }
    }

    /// What resolving `handle` gives: the configuration of a live handle, and an
    /// error for the null handle and for every other handle.
    pub open spec fn resolve(self, handle: usize) -> Result<SharedCompilerConfig, TransferError> {
        if handle == 0 {
            Err(TransferError::NullHandle)
        } else if self.live.contains_key(handle) {
            Ok(self.live[handle])
        } else {
            Err(TransferError::UnknownHandle)
        }
    }

    /// What an engine that is given `handle` compiles with: nothing where there
    /// is no handle, else the configuration that the handle resolves to.
    pub open spec fn select(self, handle: Option<usize>) -> Result<CompilerChoice, TransferError> {
        match handle {
            None => Ok(CompilerChoice::Headless),
            Some(h) => match self.resolve(h) {
                Ok(config) => Ok(CompilerChoice::Configured(config)),
                Err(e) => Err(e),
            },
        }
    }

    /// `handle` is live and stands for `config`.
    pub open spec fn holds(self, handle: usize, config: SharedCompilerConfig) -> bool {
        self.live.contains_key(handle) && self.live[handle] == config
    }

    /// `handle` was given out and its carrier has been released.
    pub open spec fn retired(self, handle: usize) -> bool {
        0 < handle < self.next && !self.live.contains_key(handle)
    }

    /// The table after one step.
    pub open spec fn step(self, step: Step) -> HandleTable {
        match step {
            Step::Wrap(config) => self.wrap(config),
            Step::Release(handle) => self.release(handle),
        }
    }

    /// The table after `steps`, first to last.
    pub open spec fn run(self, steps: Seq<Step>) -> HandleTable
        decreases steps.len(),
    {
        if steps.len() == 0 {
            self
        } else {
            self.run(steps.drop_last()).step(steps.last())
        }
    }

    /// Each wrap among `steps` finds room.
    pub open spec fn admits(self, steps: Seq<Step>) -> bool
        decreases steps.len(),
    {
        if steps.len() == 0 {
            true
        } else {
            &&& self.admits(steps.drop_last())
            &&& steps.last() is Wrap ==> self.run(steps.drop_last()).room()
        }
    }
}

/// None of `steps` releases `handle`.
pub open spec fn spares(steps: Seq<Step>, handle: usize) -> bool {
    forall|i: int| 0 <= i < steps.len() ==> #[trigger] steps[i] != Step::Release(handle)
}

} // verus!
