//! Settings of the service core.

use vstd::prelude::*;

verus! {

/// Settings of the service core. The core has none that it reads yet.
#[derive(Clone, Copy, Debug, PartialEq, Eq, Structural)]
pub struct CoreSettings {}

impl Default for CoreSettings {
    fn default() -> (s: CoreSettings)
        ensures
            s == (CoreSettings {}),
    {
        CoreSettings {}
    }
}

} // verus!
