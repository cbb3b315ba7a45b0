//! Security profiles of containers. None is applied yet.

use vstd::prelude::*;

verus! {

/// The keeper of the security profile of a container.
#[derive(Debug, Clone, Copy, PartialEq, Eq, Structural)]
pub struct SecurityManager;

impl SecurityManager {
    /// The keeper of no profile.
    pub fn new() -> (m: SecurityManager)
        ensures
            m == SecurityManager,
    {
        SecurityManager
    }
}

impl Default for SecurityManager {
    /// The keeper of no profile.
    fn default() -> (m: SecurityManager)
        ensures
            m == SecurityManager,
    {
        SecurityManager::new()
    }
}

} // verus!
