//! Optional components of a deployment.

use vstd::prelude::*;

verus! {

/// The optional components that a deployment includes.
///
/// A component that is absent takes its words out of the vocabulary and its
/// triples out of the supported combinations, both at once.
#[derive(Clone, Copy, Debug, PartialEq, Eq, Structural)]
pub struct Features {
    /// Whether the libsnark backend, and with it the PGHR13 scheme, is included.
    pub libsnark: bool,
}

impl Features {
    /// The deployment without any optional component.
    pub open spec fn baseline() -> Features {
        Features { libsnark: false }
    }

    /// The deployment with every optional component.
    pub open spec fn full() -> Features {
        Features { libsnark: true }
    }
}

} // verus!
