use vstd::prelude::*;

verus! {

/// Why a handle could not be turned back into a shared compiler configuration.
#[derive(Clone, Copy, Debug, PartialEq, Eq, Structural)]
pub enum TransferError {
    /// The handle is zero. No carrier ever has that handle.
    NullHandle,
    /// The handle is not zero, and no live carrier of the registry has it.
    UnknownHandle,
}

impl TransferError {
    /// The text that `message` returns for this error.
    pub open spec fn message_text(self) -> Seq<char> {
        match self {
            TransferError::NullHandle => "Failed to transfer the opaque compiler from the compiler"@,
            TransferError::UnknownHandle =>
                "Failed to transfer the opaque compiler from the compiler: no live carrier has this handle"@,
        }
    }

    /// A description of the failure, fit to be shown to the host runtime's user.
    pub fn message(&self) -> (text: String)
        ensures
            text@ == self.message_text(),
    {
        match self {
            TransferError::NullHandle => {
                "Failed to transfer the opaque compiler from the compiler".to_owned()
            },
            TransferError::UnknownHandle => {
                "Failed to transfer the opaque compiler from the compiler: no live carrier has this handle".to_owned()
            },
        }
    }
}

} // verus!
