use vstd::prelude::*;

verus! {

/// A stable identity value, as the host's identity collaborator resolves it:
/// the invoker of an operation, a depositor, or the contract's own account.
#[derive(Clone, Copy, PartialEq, Eq, Hash, Structural, Debug)]
pub struct Identifier(pub u64);

/// Identifier of the fungible-token collaborator used for transfers.
#[derive(Clone, Copy, PartialEq, Eq, Hash, Structural, Debug)]
pub struct TokenId(pub u64);

/// Which side of `timestamp` a `TimeBound` declares valid.
#[derive(Clone, Copy, PartialEq, Eq, Structural, Debug)]
pub enum TimeBoundKind {
    Before,
    After,
}

/// A declared validity window attached to a pool record. It is recorded
/// with the record but never evaluated before a deposit or a distribution.
#[derive(Clone, Copy, PartialEq, Eq, Structural, Debug)]
pub struct TimeBound {
    pub kind: TimeBoundKind,
    pub timestamp: u64,
}

/// The storage slots of the persistent key-value collaborator. `Attendees`
/// and `User` are declared but never written by any operation.
#[derive(Clone, Copy, PartialEq, Eq, Structural, Debug)]
pub enum DataKey {
    MeetupDate,
    Balance,
    Attendees,
    Started,
    Admin,
    Token,
    User(Identifier),
    DepositFee,
}

/// Declared lifecycle tags; no operation consults them.
#[derive(Clone, Copy, PartialEq, Eq, Structural, Debug)]
pub enum State {
    Running,
    Success,
    Expired,
}

/// Why an operation was rejected. Every rejection leaves the contract
/// state exactly as it was before the call.
#[derive(Clone, Copy, PartialEq, Eq, Structural, Debug)]
pub enum Error {
    /// `initialize` was called when a configuration already exists.
    AlreadyInitialized,
    /// `deposit` was called with a negative amount.
    InvalidAmount,
    /// The token collaborator rejected the requested transfer.
    TransferFailed,
    /// `distribute` was invoked by an identity absent from the depositors.
    NotEligible,
    /// No pool record exists, or the configuration was read before `initialize`.
    NotFound,
}

/// The token collaborator's verdict on a transfer the host performed.
#[derive(Clone, Copy, PartialEq, Eq, Structural, Debug)]
pub enum TransferOutcome {
    Completed,
    Rejected,
}

/// The contract-level parameters, written once by `initialize` and never
/// mutated or deleted thereafter.
#[derive(Clone, Copy, PartialEq, Eq, Structural, Debug)]
pub struct Config {
    pub admin: Identifier,
    pub started_at: u64,
    pub meetup_date: u64,
    pub deposit_fee: i128,
    pub token: TokenId,
}

/// The single live escrow slot: the pooled amount and the identities
/// recorded as eligible to claim it.
#[derive(Clone, Debug)]
pub struct DepositBalance {
    pub token: TokenId,
    pub amount: i128,
    pub depositers: Vec<Identifier>,
    pub time_bound: TimeBound,
}

/// Mathematical model of a pool record.
pub ghost struct DepositBalanceView {
    pub token: TokenId,
    pub amount: int,
    pub depositers: Seq<Identifier>,
    pub time_bound: TimeBound,
}

impl View for DepositBalance {
    type V = DepositBalanceView;

    open spec fn view(&self) -> DepositBalanceView {
        DepositBalanceView {
            token: self.token,
            amount: self.amount as int,
            depositers: self.depositers@,
            time_bound: self.time_bound,
        }
    }
}

} // verus!
