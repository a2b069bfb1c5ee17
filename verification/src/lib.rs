//! A pooled-escrow settlement engine: parties contribute a token deposit to
//! register for an event, and after the event the pooled funds are released
//! to the first depositor who proves eligibility.
//!
//! The library is the deposit/distribution state machine alone. The host's
//! collaborators — clock, persistent storage, token transfer, invoker
//! identity — stay outside: the clock reading and each transfer's outcome
//! are handed in as plain values, and the persistent record set is held as
//! owned state, so the machine can be verified and tested in isolation.

pub mod contract;
pub mod laws;
pub mod types;

pub use contract::ContractView;
pub use contract::ProfitDistributionContract;
pub use types::Config;
pub use types::DataKey;
pub use types::DepositBalance;
pub use types::DepositBalanceView;
pub use types::Error;
pub use types::Identifier;
pub use types::State;
pub use types::TimeBound;
pub use types::TimeBoundKind;
pub use types::TokenId;
pub use types::TransferOutcome;
