// Parametric rainfall insurance: policies keyed by identifier, paid out when a
// reported rainfall exceeds the policy's threshold within its validity window.

pub mod engine;
pub mod laws;
pub mod policy;
pub mod storage;
pub mod types;

pub use engine::{check_deposit, check_owner, SeguroParametrico};
pub use policy::{Payout, Policy, PolicyError, SECONDS_PER_DAY};
pub use storage::SeguroStorage;
pub use types::{Address, Amount};
