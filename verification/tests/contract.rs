use profit_distribution::DataKey;
use profit_distribution::Error;
use profit_distribution::Identifier;
use profit_distribution::ProfitDistributionContract;
use profit_distribution::TimeBound;
use profit_distribution::TimeBoundKind;
use profit_distribution::TokenId;
use profit_distribution::TransferOutcome;

fn admin() -> Identifier {
    Identifier(1)
}

fn token() -> TokenId {
    TokenId(9)
}

fn window() -> TimeBound {
    TimeBound { kind: TimeBoundKind::After, timestamp: 1_700_000_000 }
}

/// A contract whose configuration was written at clock reading 42.
fn configured() -> ProfitDistributionContract {
    let mut c = ProfitDistributionContract::new();
    c.initialize(admin(), 1_700_000_000, 5, token(), 42).unwrap();
    c
}

#[test]
fn initialize_succeeds_once() {
    let mut c = ProfitDistributionContract::new();
    assert!(!c.is_initialized());
    assert_eq!(c.initialize(admin(), 1_700_000_000, 5, token(), 42), Ok(()));
    assert!(c.is_initialized());
    let first = *c.config().unwrap();
    assert_eq!(first.admin, admin());
    assert_eq!(first.started_at, 42);
    assert_eq!(first.meetup_date, 1_700_000_000);
    assert_eq!(first.deposit_fee, 5);
    assert_eq!(first.token, token());

    let again = c.initialize(Identifier(2), 99, 7, TokenId(8), 43);
    assert_eq!(again, Err(Error::AlreadyInitialized));
    assert_eq!(*c.config().unwrap(), first);
}

#[test]
fn deposit_negative_amount_rejected() {
    let mut c = configured();
    let r = c.deposit(token(), -1, vec![Identifier(5)], window(), TransferOutcome::Completed);
    assert_eq!(r, Err(Error::InvalidAmount));
    assert!(c.pool().is_none());

    c.deposit(token(), 100, vec![Identifier(5)], window(), TransferOutcome::Completed).unwrap();
    let r = c.deposit(token(), -1, vec![Identifier(6)], window(), TransferOutcome::Completed);
    assert_eq!(r, Err(Error::InvalidAmount));
    let b = c.pool().unwrap();
    assert_eq!(b.amount, 100);
    assert_eq!(b.depositers, vec![Identifier(5)]);
}

#[test]
fn deposit_replaces_prior_record() {
    let a = Identifier(5);
    let b = Identifier(6);
    let mut c = configured();
    c.deposit(token(), 100, vec![a], window(), TransferOutcome::Completed).unwrap();
    c.deposit(token(), 50, vec![b], window(), TransferOutcome::Completed).unwrap();

    let rec = c.pool().unwrap();
    assert_eq!(rec.amount, 50);
    assert_eq!(rec.depositers, vec![b]);
    assert_eq!(c.distribute(a, TransferOutcome::Completed), Err(Error::NotEligible));
}

#[test]
fn distribute_rejects_non_depositor() {
    let mut c = configured();
    c.deposit(token(), 100, vec![Identifier(5), Identifier(6)], window(), TransferOutcome::Completed)
        .unwrap();
    assert_eq!(c.distribute(Identifier(7), TransferOutcome::Completed), Err(Error::NotEligible));
    let b = c.pool().unwrap();
    assert_eq!(b.amount, 100);
    assert_eq!(b.depositers, vec![Identifier(5), Identifier(6)]);
}

#[test]
fn distribute_pays_once() {
    let a = Identifier(5);
    let b = Identifier(6);
    let mut c = configured();
    c.deposit(token(), 100, vec![a, b], window(), TransferOutcome::Completed).unwrap();

    assert_eq!(c.distribute(a, TransferOutcome::Completed), Ok(()));
    assert!(c.pool().is_none());
    assert_eq!(c.distribute(b, TransferOutcome::Completed), Err(Error::NotFound));
}

#[test]
fn deposit_round_trip() {
    let deps = vec![Identifier(5), Identifier(6), Identifier(7)];
    let tb = TimeBound { kind: TimeBoundKind::Before, timestamp: 77 };
    let mut c = configured();
    c.deposit(TokenId(11), 250, deps.clone(), tb, TransferOutcome::Completed).unwrap();

    let b = c.pool().unwrap();
    assert_eq!(b.token, TokenId(11));
    assert_eq!(b.amount, 250);
    assert_eq!(b.depositers, deps);
    assert_eq!(b.time_bound, tb);
}

#[test]
fn deposit_before_initialize_not_found() {
    let mut c = ProfitDistributionContract::new();
    let r = c.deposit(token(), 100, vec![Identifier(5)], window(), TransferOutcome::Completed);
    assert_eq!(r, Err(Error::NotFound));
    assert!(c.pool().is_none());
    assert!(!c.is_initialized());
}

#[test]
fn deposit_transfer_rejected() {
    let mut c = configured();
    let r = c.deposit(token(), 100, vec![Identifier(5)], window(), TransferOutcome::Rejected);
    assert_eq!(r, Err(Error::TransferFailed));
    assert!(c.pool().is_none());
}

#[test]
fn distribute_transfer_rejected() {
    let a = Identifier(5);
    let mut c = configured();
    c.deposit(token(), 100, vec![a], window(), TransferOutcome::Completed).unwrap();
    assert_eq!(c.distribute(a, TransferOutcome::Rejected), Err(Error::TransferFailed));
    let b = c.pool().unwrap();
    assert_eq!(b.amount, 100);
    assert_eq!(b.depositers, vec![a]);
}

#[test]
fn distribute_without_pool_not_found() {
    let mut c = configured();
    assert_eq!(c.distribute(admin(), TransferOutcome::Completed), Err(Error::NotFound));
}

#[test]
fn distribute_with_no_depositors_rejects_everyone() {
    let mut c = configured();
    c.deposit(token(), 100, vec![], window(), TransferOutcome::Completed).unwrap();
    assert_eq!(c.distribute(admin(), TransferOutcome::Completed), Err(Error::NotEligible));
    assert_eq!(c.pool().unwrap().amount, 100);
}

#[test]
fn deposit_zero_amount_allowed() {
    let mut c = configured();
    assert_eq!(c.deposit(token(), 0, vec![Identifier(5)], window(), TransferOutcome::Completed), Ok(()));
    assert_eq!(c.pool().unwrap().amount, 0);
}

#[test]
fn storage_slots_follow_the_lifecycle() {
    let mut c = ProfitDistributionContract::new();
    assert!(!c.has(&DataKey::Admin));
    assert!(!c.has(&DataKey::Started));
    assert!(!c.has(&DataKey::MeetupDate));
    assert!(!c.has(&DataKey::DepositFee));
    assert!(!c.has(&DataKey::Token));
    assert!(!c.has(&DataKey::Balance));

    c.initialize(admin(), 1_700_000_000, 5, token(), 42).unwrap();
    assert!(c.has(&DataKey::Admin));
    assert!(c.has(&DataKey::Started));
    assert!(c.has(&DataKey::MeetupDate));
    assert!(c.has(&DataKey::DepositFee));
    assert!(c.has(&DataKey::Token));
    assert!(!c.has(&DataKey::Balance));

    let a = Identifier(5);
    c.deposit(token(), 100, vec![a], window(), TransferOutcome::Completed).unwrap();
    assert!(c.has(&DataKey::Balance));
    assert!(!c.has(&DataKey::Attendees));
    assert!(!c.has(&DataKey::User(a)));

    c.distribute(a, TransferOutcome::Completed).unwrap();
    assert!(!c.has(&DataKey::Balance));
    assert!(c.has(&DataKey::Admin));
}

#[test]
fn get_token_follows_initialization() {
    let mut c = ProfitDistributionContract::new();
    assert_eq!(c.get_token(), Err(Error::NotFound));
    c.initialize(admin(), 1_700_000_000, 5, token(), 42).unwrap();
    assert_eq!(c.get_token(), Ok(token()));
}

#[test]
fn eligibility_tracks_the_current_record() {
    let a = Identifier(5);
    let b = Identifier(6);
    let mut c = configured();
    assert!(!c.is_eligible(&a));
    c.deposit(token(), 100, vec![a], window(), TransferOutcome::Completed).unwrap();
    assert!(c.is_eligible(&a));
    assert!(!c.is_eligible(&b));
    c.distribute(a, TransferOutcome::Completed).unwrap();
    assert!(!c.is_eligible(&a));
}
