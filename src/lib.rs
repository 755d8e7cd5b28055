use vstd::prelude::*;

pub mod asset;
pub mod codec;
pub mod location;
pub mod msg_queue;
pub mod policy;
pub mod relay_chain;

pub use msg_queue::{Event, Pallet};
pub use policy::{ForeignCreators, TrustedLockerCase};
pub use relay_chain::XcmConfig;

verus! {

} // verus!
