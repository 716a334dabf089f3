//! The licensing subsystem's bookkeeping: tiers, the credit wallet,
//! usage metering, feature gates and their admission rules.  The
//! engine core treats licensing as a collaborator; what stands here is
//! the collaborator's decision logic, with all storage, encryption and
//! network synchronisation left to the surrounding process.

pub mod tier;
pub mod credits;
pub mod usage;
pub mod feature_gates;
pub mod activation;
pub mod license;
