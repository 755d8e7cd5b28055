use vstd::prelude::*;

verus! {

/// The cross-chain executor configuration of the relay chain runtime.
pub struct XcmConfig;

} // verus!
