//! Resources: typed handles that account and module code derives into its
//! own storage.
use vstd::prelude::*;

verus! {

/// An account or module handler's resources.
/// This is usually derived by the state management framework.
pub trait Resources: Sized {
    /// Initializes the resources.
    fn new(scope: &ResourceScope) -> Result<Self, InitializationError>;
}

/// The resource scope.
pub struct ResourceScope<'a> {
    /// The prefix of all state objects under this scope.
    pub state_scope: &'a [u8],
}

impl<'a> Default for ResourceScope<'a> {
    fn default() -> (r: Self)
        ensures
            r.state_scope@.len() == 0,
    {
        ResourceScope { state_scope: &[] }
    }
}

/// A resource is anything that an account or module can use to store its own
/// state or interact with other accounts and modules.
pub trait StateObjectResource: Sized {
    /// Creates a new resource under `scope`, its keys prefixed by `prefix`.
    fn new(scope: &[u8], prefix: u8) -> Result<Self, InitializationError>;
}

/// An error that occurs during resource initialization.
#[derive(Clone, Copy, Debug, PartialEq, Eq, Structural)]
pub enum InitializationError {
    /// An non-specific error occurred.
    Other,
}

} // verus!
