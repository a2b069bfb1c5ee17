use vstd::prelude::*;

use crate::contract::ContractView;
use crate::contract::deposit_transition;
use crate::contract::distribute_transition;
use crate::contract::initialize_transition;
use crate::types::DepositBalanceView;
use crate::types::Error;
use crate::types::Identifier;
use crate::types::TimeBound;
use crate::types::TokenId;
use crate::types::TransferOutcome;

verus! {

/// Only configured states can hold a pool record: `new` starts with neither,
/// and no operation creates a record before `initialize` has succeeded.
pub open spec fn inv(s: ContractView) -> bool {
    s.pool is Some ==> s.config is Some
}

/// Every operation preserves `inv`, whatever its arguments and whatever the
/// token collaborator reported.
pub proof fn lemma_transitions_preserve_inv(
    s: ContractView,
    admin: Identifier,
    meetup_date: u64,
    deposit_fee: i128,
    token: TokenId,
    now: u64,
    amount: int,
    depositers: Seq<Identifier>,
    time_bound: TimeBound,
    invoker: Identifier,
    transfer: TransferOutcome,
)
    requires
        inv(s),
    ensures
        inv(initialize_transition(s, admin, meetup_date, deposit_fee, token, now).0),
        inv(deposit_transition(s, token, amount, depositers, time_bound, transfer).0),
        inv(distribute_transition(s, invoker, transfer).0),
{
}

/// Initialization guard: once a first `initialize` has succeeded, a second
/// call with any arguments fails with `AlreadyInitialized`, and the
/// configuration after the failed call is the one the first call wrote.
pub proof fn lemma_initialize_guard(
    s: ContractView,
    admin1: Identifier,
    meetup_date1: u64,
    deposit_fee1: i128,
    token1: TokenId,
    now1: u64,
    admin2: Identifier,
    meetup_date2: u64,
    deposit_fee2: i128,
    token2: TokenId,
    now2: u64,
)
    requires
        s.config is None,
    ensures
        ({
            let (s1, r1) = initialize_transition(s, admin1, meetup_date1, deposit_fee1, token1, now1);
            let (s2, r2) = initialize_transition(s1, admin2, meetup_date2, deposit_fee2, token2, now2);
            &&& r1 == Ok::<(), Error>(())
            &&& r2 == Err::<(), Error>(Error::AlreadyInitialized)
            &&& s2 == s1
        }),
{
}

/// Negative-amount rejection: a deposit of a negative amount fails with
/// `InvalidAmount` and leaves the whole state unchanged, whatever the
/// transfer outcome and whether a pool record existed.
pub proof fn lemma_negative_amount_rejected(
    s: ContractView,
    token: TokenId,
    amount: int,
    depositers: Seq<Identifier>,
    time_bound: TimeBound,
    transfer: TransferOutcome,
)
    requires
        amount < 0,
    ensures
        deposit_transition(s, token, amount, depositers, time_bound, transfer) == (
            s,
            Err::<(), Error>(Error::InvalidAmount),
        ),
{
}

/// Replace-not-merge: a second successful deposit overwrites the pool record
/// with exactly the second call's values, so an identity recorded only by the
/// first deposit is no longer eligible.
pub proof fn lemma_deposit_replaces(
    s: ContractView,
    token1: TokenId,
    amount1: int,
    depositers1: Seq<Identifier>,
    time_bound1: TimeBound,
    token2: TokenId,
    amount2: int,
    depositers2: Seq<Identifier>,
    time_bound2: TimeBound,
    dropped: Identifier,
)
    requires
        s.config is Some,
        amount1 >= 0,
        amount2 >= 0,
        !depositers2.contains(dropped),
    ensures
        ({
            let (s1, r1) = deposit_transition(
                s, token1, amount1, depositers1, time_bound1, TransferOutcome::Completed,
            );
            let (s2, r2) = deposit_transition(
                s1, token2, amount2, depositers2, time_bound2, TransferOutcome::Completed,
            );
            &&& r1 == Ok::<(), Error>(())
            &&& r2 == Ok::<(), Error>(())
            &&& s2.pool == Some(
                DepositBalanceView {
                    token: token2,
                    amount: amount2,
                    depositers: depositers2,
                    time_bound: time_bound2,
                },
            )
            &&& distribute_transition(s2, dropped, TransferOutcome::Completed) == (
                s2,
                Err::<(), Error>(Error::NotEligible),
            )
        }),
{
}

/// Eligibility enforcement: `distribute` invoked by an identity absent from
/// the recorded depositors fails with `NotEligible` and changes nothing,
/// whatever the transfer outcome.
pub proof fn lemma_distribute_needs_eligibility(
    s: ContractView,
    invoker: Identifier,
    transfer: TransferOutcome,
)
    requires
        s.pool matches Some(p) && !p.depositers.contains(invoker),
    ensures
        distribute_transition(s, invoker, transfer) == (s, Err::<(), Error>(Error::NotEligible)),
{
}

/// Single-claim exhaustion: a successful distribution deletes the pool
/// record, and every later `distribute` — by any identity, the first
/// claimant included — fails with `NotFound` and changes nothing.
pub proof fn lemma_single_claim(
    s: ContractView,
    claimant: Identifier,
    later: Identifier,
    transfer: TransferOutcome,
)
    requires
        s.pool matches Some(p) && p.depositers.contains(claimant),
    ensures
        ({
            let (s1, r1) = distribute_transition(s, claimant, TransferOutcome::Completed);
            &&& r1 == Ok::<(), Error>(())
            &&& s1.pool is None
            &&& s1.config == s.config
            &&& distribute_transition(s1, later, transfer) == (s1, Err::<(), Error>(Error::NotFound))
        }),
{
}

/// Round-trip of deposit data: a successful deposit stores a pool record
/// holding exactly the four values of the call, and nothing else of the
/// state changes.
pub proof fn lemma_deposit_round_trip(
    s: ContractView,
    token: TokenId,
    amount: int,
    depositers: Seq<Identifier>,
    time_bound: TimeBound,
)
    requires
        s.config is Some,
        amount >= 0,
    ensures
        ({
            let (s1, r1) = deposit_transition(
                s, token, amount, depositers, time_bound, TransferOutcome::Completed,
            );
            &&& r1 == Ok::<(), Error>(())
            &&& s1.config == s.config
            &&& s1.pool == Some(DepositBalanceView { token, amount, depositers, time_bound })
        }),
{
}

} // verus!
