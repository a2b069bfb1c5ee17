use vstd::prelude::*;

use crate::types::Config;
use crate::types::DataKey;
use crate::types::DepositBalance;
use crate::types::DepositBalanceView;
use crate::types::Error;
use crate::types::Identifier;
use crate::types::TimeBound;
use crate::types::TokenId;
use crate::types::TransferOutcome;

verus! {

/// Mathematical model of the whole persistent record set: the one-time
/// configuration and the single pool record, each possibly absent.
pub ghost struct ContractView {
    pub config: Option<Config>,
    pub pool: Option<DepositBalanceView>,
}

/// What `initialize` does: rejected with `AlreadyInitialized` when a
/// configuration exists, else all five parameters are written at once,
/// with the clock reading `now` as `started_at`.
pub open spec fn initialize_transition(
    s: ContractView,
    admin: Identifier,
    meetup_date: u64,
    deposit_fee: i128,
    token: TokenId,
    now: u64,
) -> (ContractView, Result<(), Error>) {
    if s.config is Some {
        (s, Err(Error::AlreadyInitialized))
    } else {
        (
            ContractView {
                config: Some(Config { admin, started_at: now, meetup_date, deposit_fee, token }),
                pool: s.pool,
            },
            Ok(()),
        )
    }
}

/// What `deposit` does: a negative amount is rejected first; then the
/// configuration must exist (the inbound transfer needs its token); then a
/// rejected transfer aborts with no write; else the new record replaces any
/// prior one in full.
pub open spec fn deposit_transition(
    s: ContractView,
    token: TokenId,
    amount: int,
    depositers: Seq<Identifier>,
    time_bound: TimeBound,
    transfer: TransferOutcome,
) -> (ContractView, Result<(), Error>) {
    if amount < 0 {
        (s, Err(Error::InvalidAmount))
    } else if s.config is None {
        (s, Err(Error::NotFound))
    } else if transfer is Rejected {
        (s, Err(Error::TransferFailed))
    } else {
        (
            ContractView {
                config: s.config,
                pool: Some(DepositBalanceView { token, amount, depositers, time_bound }),
            },
            Ok(()),
        )
    }
}

/// What `distribute` does: without a pool record it fails `NotFound`; an
/// invoker absent from the recorded depositors is rejected `NotEligible`; a
/// rejected outbound transfer leaves the record in place; on a completed
/// transfer the record is deleted, so no further claim can succeed.
pub open spec fn distribute_transition(
    s: ContractView,
    invoker: Identifier,
    transfer: TransferOutcome,
) -> (ContractView, Result<(), Error>) {
    match s.pool {
        None => (s, Err(Error::NotFound)),
        Some(p) => {
            if !p.depositers.contains(invoker) {
                (s, Err(Error::NotEligible))
            } else if transfer is Rejected {
                (s, Err(Error::TransferFailed))
            } else {
                (ContractView { config: s.config, pool: None }, Ok(()))
            }
        },
    }
}

/// True of the storage slots that hold a value in state `s`. The five
/// configuration slots are written together by `initialize`; `Balance` is
/// the pool record's slot; `Attendees` and `User` are never written.
pub open spec fn key_present(s: ContractView, key: DataKey) -> bool {
    match key {
        DataKey::MeetupDate => s.config is Some,
        DataKey::Balance => s.pool is Some,
        DataKey::Attendees => false,
        DataKey::Started => s.config is Some,
        DataKey::Admin => s.config is Some,
        DataKey::Token => s.config is Some,
        DataKey::User(_) => false,
        DataKey::DepositFee => s.config is Some,
    }
}

/// The deposit/distribution state machine over its owned record set.
pub struct ProfitDistributionContract {
    config: Option<Config>,
    pool: Option<DepositBalance>,
}

impl View for ProfitDistributionContract {
    type V = ContractView;

    closed spec fn view(&self) -> ContractView {
        ContractView {
            config: self.config,
            pool: match self.pool {
                Some(b) => Some(b@),
                None => None,
            },
        }
    }
}

impl ProfitDistributionContract {
    /// A fresh, uninitialized contract instance: nothing is stored yet.
    pub fn new() -> (c: Self)
        ensures
            c@.config is None,
            c@.pool is None,
    {
        ProfitDistributionContract { config: None, pool: None }
    }

    /// Writes the one-time configuration, stamping the host clock reading
    /// `now` as `started_at`; a second call always fails with
    /// `AlreadyInitialized` and changes nothing.
    pub fn initialize(
        &mut self,
        admin: Identifier,
        meetup_date: u64,
        deposit_fee: i128,
        token: TokenId,
        now: u64,
    ) -> (r: Result<(), Error>)
        ensures
            (final(self)@, r) == initialize_transition(
                old(self)@, admin, meetup_date, deposit_fee, token, now,
            ),
    {
        if self.config.is_some() {
            return Err(Error::AlreadyInitialized);
        }
        self.config = Some(Config { admin, started_at: now, meetup_date, deposit_fee, token });
        Ok(())
    }

    /// Records a deposit round: after the host reports the inbound transfer
    /// of `amount` completed, the record built from exactly this call's
    /// arguments replaces any prior pool record; on any rejection the state
    /// is left untouched.
    pub fn deposit(
        &mut self,
        token: TokenId,
        amount: i128,
        depositers: Vec<Identifier>,
        time_bound: TimeBound,
        transfer: TransferOutcome,
    ) -> (r: Result<(), Error>)
        ensures
            (final(self)@, r) == deposit_transition(
                old(self)@, token, amount as int, depositers@, time_bound, transfer,
            ),
    {
        if amount < 0 {
            return Err(Error::InvalidAmount);
        }
        if self.config.is_none() {
            return Err(Error::NotFound);
        }
        match transfer {
            TransferOutcome::Rejected => Err(Error::TransferFailed),
            TransferOutcome::Completed => {
                self.pool = Some(DepositBalance { token, amount, depositers, time_bound });
                Ok(())
            },
        }
    }

    /// Pays the whole pool out: when `invoker` is among the recorded
    /// depositors and the host reports the outbound transfer completed, the
    /// record is deleted, exhausting the pool; every rejection leaves the
    /// record as it was.
    pub fn distribute(
        &mut self,
        invoker: Identifier,
        transfer: TransferOutcome,
    ) -> (r: Result<(), Error>)
        ensures
            (final(self)@, r) == distribute_transition(old(self)@, invoker, transfer),
    {
        let eligible: bool = match &self.pool {
            None => {
                return Err(Error::NotFound);
            },
            Some(b) => contains_identifier(&b.depositers, &invoker),
        };
        if !eligible {
            return Err(Error::NotEligible);
        }
        match transfer {
            TransferOutcome::Rejected => Err(Error::TransferFailed),
            TransferOutcome::Completed => {
                self.pool = None;
                Ok(())
            },
        }
    }

    /// Whether the configuration exists: the presence test the contract
    /// itself uses is the `Admin` slot.
    pub fn is_initialized(&self) -> (r: bool)
        ensures
            r == (self@.config is Some),
    {
        self.has(&DataKey::Admin)
    }

    /// Whether storage slot `key` currently holds a value.
    pub fn has(&self, key: &DataKey) -> (r: bool)
        ensures
            r == key_present(self@, *key),
    {
        match key {
            DataKey::Balance => self.pool.is_some(),
            DataKey::Attendees => false,
            DataKey::User(_) => false,
            _ => self.config.is_some(),
        }
    }

    /// The configured token identifier, or `NotFound` before `initialize`.
    pub fn get_token(&self) -> (r: Result<TokenId, Error>)
        ensures
            match self@.config {
                Some(c) => r == Ok::<TokenId, Error>(c.token),
                None => r == Err::<TokenId, Error>(Error::NotFound),
            },
    {
        match &self.config {
            Some(c) => Ok(c.token),
            None => Err(Error::NotFound),
        }
    }

    /// The whole configuration, or `None` before `initialize`.
    pub fn config(&self) -> (r: Option<&Config>)
        ensures
            match r {
                Some(c) => self@.config == Some(*c),
                None => self@.config is None,
            },
    {
        match &self.config {
            Some(c) => Some(c),
            None => None,
        }
    }

    /// The current pool record, or `None` when the slot is empty.
    pub fn pool(&self) -> (r: Option<&DepositBalance>)
        ensures
            match r {
                Some(b) => self@.pool == Some(b@),
                None => self@.pool is None,
            },
    {
        match &self.pool {
            Some(b) => Some(b),
            None => None,
        }
    }

    /// Whether `invoker` would pass `distribute`'s eligibility check: a pool
    /// record exists and `invoker` is among its recorded depositors.
    pub fn is_eligible(&self, invoker: &Identifier) -> (r: bool)
        ensures
            r == (self@.pool matches Some(p) && p.depositers.contains(*invoker)),
    {
        match &self.pool {
            None => false,
            Some(b) => contains_identifier(&b.depositers, invoker),
        }
    }
}

/// Whether `x` occurs in `v`.
fn contains_identifier(v: &Vec<Identifier>, x: &Identifier) -> (r: bool)
    ensures
        r == v@.contains(*x),
{
    let mut i: usize = 0;
    while i < v.len()
        invariant
            i <= v@.len(),
            forall|j: int| 0 <= j < i ==> v@[j] != *x,
        decreases v@.len() - i,
    {
        if v[i] == *x {
            assert(v@[i as int] == *x);
            return true;
        }
        i += 1;
    }
    false
}

} // verus!
