use vstd::prelude::*;

use crate::shared::errors::KoraError;

verus! {

/// A flag that is up while an operation is under way, so that the operation
/// cannot be entered again from within.
#[derive(Clone, Copy, Debug, PartialEq, Eq, Structural)]
pub struct ReentrancyGuard {
    pub entered: bool,
}

impl ReentrancyGuard {
    pub fn new() -> (r: Self)
        ensures
            !r.entered,
    {
        ReentrancyGuard { entered: false }
    }

    /// Fails where an operation is under way.
    pub fn require_free(&self) -> (r: Result<(), KoraError>)
        ensures
            r == if self.entered {
                Err::<(), KoraError>(KoraError::Reentrancy)
            } else {
                Ok(())
            },
    {
        if self.entered {
            return Err(KoraError::Reentrancy);
        }
        Ok(())
    }
}

} // verus!
