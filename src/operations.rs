use vstd::prelude::*;

use crate::engine::{
    entitlement,
    lemma_share_bounded,
    linear_released,
    lemma_entitlement_within_remaining,
    ClaimAuthority,
    Locking,
    ReleasePolicy,
};
use crate::error::CustomError;
use crate::identity::AccountId;

verus! {

/// The ledger's custodial authority for one asset. It holds no state of its
/// own: it exists to hold the locked units and to authorize transfers out.
#[derive(Debug, Clone, Copy, PartialEq, Eq, Structural)]
pub struct Vault {
    pub asset: AccountId,
}

/// One end of a transfer: the vault of the asset, or a holder's account.
#[derive(Debug, Clone, Copy, PartialEq, Eq, Structural)]
pub enum Party {
    Vault(Vault),
    Holder(AccountId),
}

/// A transfer that the host must perform, authorized by its source, as part
/// of the same all-or-nothing operation as the record change that came with it.
#[derive(Debug, Clone, Copy, PartialEq, Eq, Structural)]
pub struct TransferOrder {
    pub asset: AccountId,
    pub from: Party,
    pub to: Party,
    pub amount: u64,
}

/// A request to open a lock, with the identity that signed it.
#[derive(Debug, Clone, Copy, PartialEq, Eq, Structural)]
pub struct Lock {
    pub signer: AccountId,
    pub depositor: AccountId,
    pub beneficiary: AccountId,
    pub asset: AccountId,
    pub amount: u64,
    pub policy: ReleasePolicy,
    pub claim_authority: ClaimAuthority,
}

/// A request to release what a lock has vested, with the identity that
/// signed it and the host's clock reading.
#[derive(Debug, Clone, Copy, PartialEq, Eq, Structural)]
pub struct Unlock {
    pub caller: AccountId,
    pub now: u64,
}

/// A new lock and the deposit that funds it.
#[derive(Debug, Clone, Copy, PartialEq, Eq, Structural)]
pub struct Opened {
    pub record: Locking,
    pub deposit: TransferOrder,
}

/// The per-depositor counter from which sequential lock indices are drawn.
#[derive(Debug, Clone, Copy, PartialEq, Eq, Structural)]
pub struct OwnerIndex {
    pub owner: AccountId,
    pub next_lock_index: u64,
}

impl OwnerIndex {
    pub fn new(owner: AccountId) -> (r: OwnerIndex)
        ensures
            r.owner == owner,
            r.next_lock_index == 0,
    {
        OwnerIndex { owner, next_lock_index: 0 }
    }
}

/// Why a request to open a lock is rejected, if it is.
pub open spec fn lock_rejection(req: Lock) -> Option<CustomError> {
    if req.signer != req.depositor {
        Some(CustomError::Unauthorized)
    } else if req.amount == 0 {
        Some(CustomError::ZeroAmount)
    } else if !req.policy.is_valid() {
        Some(CustomError::InvalidSchedule)
    } else {
        None
    }
}

/// The record that an accepted request opens.
pub open spec fn opened_record(req: Lock, lock_index: Option<u64>) -> Locking {
    Locking {
        asset: req.asset,
        beneficiary: req.beneficiary,
        depositor: req.depositor,
        locked_amount: req.amount,
        claimed_amount: 0,
        policy: req.policy,
        claim_authority: req.claim_authority,
        lock_index,
    }
}

/// The deposit that moves the locked units from the depositor to the vault.
pub open spec fn deposit_of(req: Lock) -> TransferOrder {
    TransferOrder {
        asset: req.asset,
        from: Party::Holder(req.depositor),
        to: Party::Vault(Vault { asset: req.asset }),
        amount: req.amount,
    }
}

/// What a claim pays out, or why it is rejected.
pub open spec fn claim_outcome(r: Locking, req: Unlock) -> Result<u64, CustomError> {
    if r.claim_authority == ClaimAuthority::DepositorOnly && req.caller != r.depositor {
        Err(CustomError::Unauthorized)
    } else if r.terminal() {
        Err(CustomError::AlreadyFullyClaimed)
    } else {
        entitlement(r, req.now)
    }
}

/// The record after a claim that paid out `amount`.
pub open spec fn after_claim(r: Locking, amount: u64) -> Locking {
    Locking { claimed_amount: (r.claimed_amount + amount) as u64, ..r }
}

/// The transfer that pays `amount` of `r` from the vault to the beneficiary.
pub open spec fn payout_of(r: Locking, amount: u64) -> TransferOrder {
    TransferOrder {
        asset: r.asset,
        from: Party::Vault(Vault { asset: r.asset }),
        to: Party::Holder(r.beneficiary),
        amount,
    }
}

fn check_lock(req: &Lock) -> (r: Option<CustomError>)
    ensures
        r == lock_rejection(*req),
{
    if req.signer != req.depositor {
        Some(CustomError::Unauthorized)
    } else if req.amount == 0 {
        Some(CustomError::ZeroAmount)
    } else if !req.policy.check() {
        Some(CustomError::InvalidSchedule)
    } else {
        None
    }
}

fn open_with(req: &Lock, lock_index: Option<u64>) -> (r: Opened)
    ensures
        r.record == opened_record(*req, lock_index),
        r.deposit == deposit_of(*req),
{
    let record = Locking {
        asset: req.asset,
        beneficiary: req.beneficiary,
        depositor: req.depositor,
        locked_amount: req.amount,
        claimed_amount: 0,
        policy: req.policy,
        claim_authority: req.claim_authority,
        lock_index,
    };
    let deposit = TransferOrder {
        asset: req.asset,
        from: Party::Holder(req.depositor),
        to: Party::Vault(Vault { asset: req.asset }),
        amount: req.amount,
    };
    Opened { record, deposit }
}

/// Opens a lock where each depositor holds one lock per beneficiary and
/// asset. On success the host performs `deposit` and stores `record`.
pub fn lock(req: &Lock) -> (r: Result<Opened, CustomError>)
    ensures
        req.signer != req.depositor ==> r == Err::<Opened, CustomError>(
            CustomError::Unauthorized,
        ),
        match lock_rejection(*req) {
            Some(e) => r == Err::<Opened, CustomError>(e),
            None => r == Ok::<Opened, CustomError>(
                (Opened { record: opened_record(*req, None), deposit: deposit_of(*req) }),
            ),
        },
        r is Ok ==> r->Ok_0.record.wf(),
{
    match check_lock(req) {
        Some(e) => Err(e),
        None => Ok(open_with(req, None)),
    }
}

/// Opens a lock numbered from the depositor's counter, which then advances by
/// one. A rejected request leaves the counter as it was.
pub fn lock_indexed(req: &Lock, index: &mut OwnerIndex) -> (r: Result<Opened, CustomError>)
    requires
        old(index).next_lock_index < u64::MAX,
    ensures
        (req.signer != req.depositor || old(index).owner != req.depositor) ==> r == Err::<
            Opened,
            CustomError,
        >(CustomError::Unauthorized),
        old(index).owner != req.depositor ==> r == Err::<Opened, CustomError>(
            CustomError::Unauthorized,
        ),
        old(index).owner == req.depositor ==> match lock_rejection(*req) {
            Some(e) => r == Err::<Opened, CustomError>(e),
            None => r == Ok::<Opened, CustomError>(
                (Opened {
                    record: opened_record(*req, Some(old(index).next_lock_index)),
                    deposit: deposit_of(*req),
                }),
            ),
        },
        r is Err ==> *final(index) == *old(index),
        r is Ok ==> final(index).owner == old(index).owner && final(index).next_lock_index
            == old(index).next_lock_index + 1 && r->Ok_0.record.wf(),
{
    if index.owner != req.depositor {
        return Err(CustomError::Unauthorized);
    }
    match check_lock(req) {
        Some(e) => Err(e),
        None => {
            let opened = open_with(req, Some(index.next_lock_index));
            index.next_lock_index = index.next_lock_index + 1;
            Ok(opened)
        },
    }
}

/// Releases what `record` has vested by `req.now` to its beneficiary. On
/// success the claimed amount grows by the payout, and the host performs the
/// returned transfer; a rejected claim leaves the record as it was.
pub fn unlock(record: &mut Locking, req: &Unlock) -> (r: Result<TransferOrder, CustomError>)
    requires
        old(record).wf(),
    ensures
        final(record).wf(),
        old(record).claim_authority == ClaimAuthority::DepositorOnly && req.caller != old(
            record,
        ).depositor ==> r == Err::<TransferOrder, CustomError>(CustomError::Unauthorized),
        match claim_outcome(*old(record), *req) {
            Err(e) => r == Err::<TransferOrder, CustomError>(e) && *final(record) == *old(
                record,
            ),
            Ok(amount) => r == Ok::<TransferOrder, CustomError>(payout_of(*old(record), amount))
                && *final(record) == after_claim(*old(record), amount),
        },
{
    if record.claim_authority == ClaimAuthority::DepositorOnly && req.caller != record.depositor {
        return Err(CustomError::Unauthorized);
    }
    if record.is_terminal() {
        return Err(CustomError::AlreadyFullyClaimed);
    }
    let amount = match record.entitled_now(req.now) {
        Ok(a) => a,
        Err(e) => {
            return Err(e);
        },
    };
    proof {
        lemma_entitlement_within_remaining(*record, req.now);
    }
    record.claimed_amount = record.claimed_amount + amount;
    Ok(
        TransferOrder {
            asset: record.asset,
            from: Party::Vault(Vault { asset: record.asset }),
            to: Party::Holder(record.beneficiary),
            amount,
        },
    )
}

/// The record after the claims `reqs`, made in order, each one applied if
/// accepted and ignored if rejected.
pub open spec fn run_claims(r: Locking, reqs: Seq<Unlock>) -> Locking
    decreases reqs.len(),
{
    if reqs.len() == 0 {
        r
    } else {
        let prev = run_claims(r, reqs.drop_last());
        match claim_outcome(prev, reqs.last()) {
            Ok(amount) => after_claim(prev, amount),
            Err(_) => prev,
        }
    }
}

/// The total that the claims `reqs`, made in order, pay out of the vault.
pub open spec fn total_paid(r: Locking, reqs: Seq<Unlock>) -> int
    decreases reqs.len(),
{
    if reqs.len() == 0 {
        0
    } else {
        let prev = run_claims(r, reqs.drop_last());
        total_paid(r, reqs.drop_last()) + match claim_outcome(prev, reqs.last()) {
            Ok(amount) => amount as int,
            Err(_) => 0,
        }
    }
}

/// Whatever claims are made on a valid record, it stays valid (in particular
/// the claimed amount never exceeds the locked amount), the claimed amount
/// grows by exactly what was paid out, and the total paid out of the vault
/// for the lock never exceeds the locked amount.
pub proof fn lemma_claims_never_exceed_lock(r: Locking, reqs: Seq<Unlock>)
    requires
        r.wf(),
    ensures
        run_claims(r, reqs).wf(),
        run_claims(r, reqs).locked_amount == r.locked_amount,
        run_claims(r, reqs).claimed_amount == r.claimed_amount + total_paid(r, reqs),
        total_paid(r, reqs) <= r.locked_amount,
    decreases reqs.len(),
{
    if reqs.len() > 0 {
        lemma_claims_never_exceed_lock(r, reqs.drop_last());
        let prev = run_claims(r, reqs.drop_last());
        lemma_entitlement_within_remaining(prev, reqs.last().now);
    }
}

/// A claim repeated with no time elapsed pays nothing and is still accepted,
/// unless the first claim left nothing to release.
pub proof fn lemma_repeated_claim_pays_nothing(r: Locking, req: Unlock)
    requires
        r.wf(),
        claim_outcome(r, req) is Ok,
        !after_claim(r, claim_outcome(r, req)->Ok_0).terminal(),
    ensures
        claim_outcome(after_claim(r, claim_outcome(r, req)->Ok_0), req) == Ok::<
            u64,
            CustomError,
        >(0),
{
    lemma_entitlement_within_remaining(r, req.now);
    let amount = claim_outcome(r, req)->Ok_0;
    let r2 = after_claim(r, amount);
    assert(r2.claim_authority == r.claim_authority && r2.depositor == r.depositor);
    if let ReleasePolicy::Linear { start, end } = r.policy {
        let released = linear_released(r.locked_amount as int, start as int, end as int, req.now as int);
        if req.now < end {
            lemma_share_bounded(r.locked_amount as int, req.now - start, end - start);
        }
        assert(r2.claimed_amount == if released >= r.claimed_amount { released } else { r.claimed_amount as int });
        assert(entitlement(r2, req.now) == Ok::<u64, CustomError>(0));
    }
}

/// On an authorized claim of a cliff lock with something left: before the
/// deadline it is rejected, from the deadline on it pays all that remains.
pub proof fn lemma_cliff_release(r: Locking, req: Unlock)
    requires
        r.wf(),
        r.policy is Cliff,
        !r.terminal(),
        r.claim_authority == ClaimAuthority::DepositorOnly ==> req.caller == r.depositor,
    ensures
        req.now < r.policy->deadline ==> claim_outcome(r, req) == Err::<u64, CustomError>(
            CustomError::DeadlineNotReached,
        ),
        req.now >= r.policy->deadline ==> claim_outcome(r, req) == Ok::<u64, CustomError>(
            (r.locked_amount - r.claimed_amount) as u64,
        ),
{
}

} // verus!
