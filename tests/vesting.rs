use token_vesting::{
    lock, lock_indexed, unlock, AccountId, ClaimAuthority, CustomError, Lock, Locking, OwnerIndex,
    Party, ReleasePolicy, TransferOrder, Unlock, Vault,
};

fn id(n: u128) -> AccountId {
    AccountId { high: 0, low: n }
}

const DEPOSITOR: u128 = 1;
const BENEFICIARY: u128 = 2;
const ASSET: u128 = 3;
const STRANGER: u128 = 4;

fn request(amount: u64, policy: ReleasePolicy, claim_authority: ClaimAuthority) -> Lock {
    Lock {
        signer: id(DEPOSITOR),
        depositor: id(DEPOSITOR),
        beneficiary: id(BENEFICIARY),
        asset: id(ASSET),
        amount,
        policy,
        claim_authority,
    }
}

fn open(amount: u64, policy: ReleasePolicy) -> Locking {
    lock(&request(amount, policy, ClaimAuthority::AnyCaller)).unwrap().record
}

fn claim_at(record: &mut Locking, now: u64) -> Result<u64, CustomError> {
    unlock(record, &Unlock { caller: id(STRANGER), now }).map(|t| t.amount)
}

#[test]
fn linear_scenario_half_then_rest() {
    let mut r = open(1000, ReleasePolicy::Linear { start: 1000, end: 2000 });
    assert_eq!(claim_at(&mut r, 1500), Ok(500));
    assert_eq!(r.claimed_amount, 500);
    assert!(!r.is_terminal());
    assert_eq!(claim_at(&mut r, 2000), Ok(500));
    assert_eq!(r.claimed_amount, 1000);
    assert!(r.is_terminal());
}

#[test]
fn cliff_scenario_before_and_at_deadline() {
    let mut r = open(500, ReleasePolicy::Cliff { deadline: 5000 });
    let before = r;
    assert_eq!(claim_at(&mut r, 4999), Err(CustomError::DeadlineNotReached));
    assert_eq!(r, before);
    assert_eq!(claim_at(&mut r, 5000), Ok(500));
    assert!(r.is_terminal());
}

#[test]
fn create_rejects_empty_window_and_zero_amount() {
    let empty = request(100, ReleasePolicy::Linear { start: 10, end: 10 }, ClaimAuthority::AnyCaller);
    assert_eq!(lock(&empty), Err(CustomError::InvalidSchedule));
    let reversed = request(100, ReleasePolicy::Linear { start: 11, end: 10 }, ClaimAuthority::AnyCaller);
    assert_eq!(lock(&reversed), Err(CustomError::InvalidSchedule));
    let zero = request(0, ReleasePolicy::Linear { start: 10, end: 20 }, ClaimAuthority::AnyCaller);
    assert_eq!(lock(&zero), Err(CustomError::ZeroAmount));
}

#[test]
fn create_returns_record_and_deposit() {
    let policy = ReleasePolicy::Linear { start: 10, end: 20 };
    let opened = lock(&request(700, policy, ClaimAuthority::DepositorOnly)).unwrap();
    assert_eq!(opened.record.locked_amount, 700);
    assert_eq!(opened.record.claimed_amount, 0);
    assert_eq!(opened.record.beneficiary, id(BENEFICIARY));
    assert_eq!(opened.record.depositor, id(DEPOSITOR));
    assert_eq!(opened.record.policy, policy);
    assert_eq!(opened.record.lock_index, None);
    assert!(opened.record.is_valid());
    assert_eq!(
        opened.deposit,
        TransferOrder {
            asset: id(ASSET),
            from: Party::Holder(id(DEPOSITOR)),
            to: Party::Vault(Vault { asset: id(ASSET) }),
            amount: 700,
        }
    );
}

#[test]
fn claim_pays_beneficiary_from_vault() {
    let mut r = open(1000, ReleasePolicy::Linear { start: 0, end: 10 });
    let t = unlock(&mut r, &Unlock { caller: id(STRANGER), now: 3 }).unwrap();
    assert_eq!(
        t,
        TransferOrder {
            asset: id(ASSET),
            from: Party::Vault(Vault { asset: id(ASSET) }),
            to: Party::Holder(id(BENEFICIARY)),
            amount: 300,
        }
    );
}

#[test]
fn linear_entitlement_never_decreases_and_matures_exactly() {
    let mut r = open(1000, ReleasePolicy::Linear { start: 0, end: 3 });
    let mut last = 0;
    for now in 1..6 {
        let e = r.entitled_now(now).unwrap();
        assert!(e >= last);
        last = e;
    }
    assert_eq!(r.entitled_now(1), Ok(333));
    assert_eq!(r.entitled_now(2), Ok(666));
    assert_eq!(claim_at(&mut r, 1), Ok(333));
    assert_eq!(r.entitled_now(3).unwrap() + r.claimed_amount, 1000);
    assert_eq!(r.entitled_now(3), Ok(667));
}

#[test]
fn nothing_vests_until_after_start() {
    let mut r = open(1000, ReleasePolicy::Linear { start: 100, end: 200 });
    assert_eq!(r.entitled_now(100), Err(CustomError::NotYetStarted));
    assert_eq!(claim_at(&mut r, 50), Err(CustomError::NotYetStarted));
    assert_eq!(r.claimed_amount, 0);
    assert_eq!(r.entitled_now(101), Ok(10));
}

#[test]
fn claims_in_sequence_never_exceed_lock() {
    let mut r = open(997, ReleasePolicy::Linear { start: 0, end: 7 });
    let mut paid: u64 = 0;
    for now in [1, 2, 2, 5, 3, 7, 9] {
        if let Ok(a) = claim_at(&mut r, now) {
            paid += a;
        }
        assert!(r.claimed_amount <= r.locked_amount);
        assert_eq!(r.claimed_amount, paid);
    }
    assert_eq!(paid, 997);
}

#[test]
fn repeated_claim_pays_nothing() {
    let mut r = open(1000, ReleasePolicy::Linear { start: 0, end: 100 });
    assert_eq!(claim_at(&mut r, 40), Ok(400));
    assert_eq!(claim_at(&mut r, 40), Ok(0));
    assert_eq!(r.claimed_amount, 400);
}

#[test]
fn fully_claimed_record_is_rejected() {
    let mut r = open(10, ReleasePolicy::Cliff { deadline: 5 });
    assert_eq!(claim_at(&mut r, 5), Ok(10));
    assert_eq!(claim_at(&mut r, 6), Err(CustomError::AlreadyFullyClaimed));
    assert_eq!(r.claimed_amount, 10);
}

#[test]
fn cliff_pays_remaining_after_deadline() {
    let mut r = open(500, ReleasePolicy::Cliff { deadline: 5000 });
    assert_eq!(r.entitled_now(4000), Err(CustomError::DeadlineNotReached));
    assert_eq!(r.entitled_now(9000), Ok(500));
    assert_eq!(claim_at(&mut r, 9000), Ok(500));
}

#[test]
fn create_by_other_signer_is_unauthorized() {
    let mut req = request(100, ReleasePolicy::Cliff { deadline: 1 }, ClaimAuthority::AnyCaller);
    req.signer = id(STRANGER);
    assert_eq!(lock(&req), Err(CustomError::Unauthorized));
    let mut index = OwnerIndex::new(id(DEPOSITOR));
    assert_eq!(lock_indexed(&req, &mut index), Err(CustomError::Unauthorized));
    assert_eq!(index.next_lock_index, 0);
    let mut foreign = OwnerIndex::new(id(STRANGER));
    let good = request(100, ReleasePolicy::Cliff { deadline: 1 }, ClaimAuthority::AnyCaller);
    assert_eq!(lock_indexed(&good, &mut foreign), Err(CustomError::Unauthorized));
    assert_eq!(foreign.next_lock_index, 0);
}

#[test]
fn depositor_only_claim_rejects_others() {
    let policy = ReleasePolicy::Linear { start: 0, end: 10 };
    let mut r = lock(&request(100, policy, ClaimAuthority::DepositorOnly)).unwrap().record;
    let before = r;
    assert_eq!(
        unlock(&mut r, &Unlock { caller: id(BENEFICIARY), now: 5 }),
        Err(CustomError::Unauthorized)
    );
    assert_eq!(r, before);
    let t = unlock(&mut r, &Unlock { caller: id(DEPOSITOR), now: 5 }).unwrap();
    assert_eq!(t.amount, 50);
    assert_eq!(t.to, Party::Holder(id(BENEFICIARY)));
}

#[test]
fn indexed_locks_take_sequential_numbers() {
    let mut index = OwnerIndex::new(id(DEPOSITOR));
    let policy = ReleasePolicy::Cliff { deadline: 10 };
    let first = lock_indexed(&request(5, policy, ClaimAuthority::DepositorOnly), &mut index).unwrap();
    let second = lock_indexed(&request(6, policy, ClaimAuthority::DepositorOnly), &mut index).unwrap();
    assert_eq!(first.record.lock_index, Some(0));
    assert_eq!(second.record.lock_index, Some(1));
    assert_eq!(index.next_lock_index, 2);
    assert_eq!(
        lock_indexed(&request(0, policy, ClaimAuthority::DepositorOnly), &mut index),
        Err(CustomError::ZeroAmount)
    );
    assert_eq!(index.next_lock_index, 2);
}

#[test]
fn largest_amounts_do_not_overflow() {
    let mut r = open(u64::MAX, ReleasePolicy::Linear { start: 0, end: u64::MAX });
    assert_eq!(r.entitled_now(u64::MAX - 1), Ok(u64::MAX - 1));
    assert_eq!(r.entitled_now(1), Ok(1));
    assert_eq!(claim_at(&mut r, u64::MAX / 2), Ok(u64::MAX / 2));
    assert_eq!(claim_at(&mut r, u64::MAX), Ok(u64::MAX - u64::MAX / 2));
    assert!(r.is_terminal());
}

#[test]
fn policy_validity() {
    assert!(ReleasePolicy::Linear { start: 1, end: 2 }.check());
    assert!(!ReleasePolicy::Linear { start: 2, end: 2 }.check());
    assert!(ReleasePolicy::Cliff { deadline: 0 }.check());
}
